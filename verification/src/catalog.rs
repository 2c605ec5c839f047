//! The repository: the list of records in memory, kept equal to the table, and
//! the search term that decides which of them are shown.

use vstd::prelude::*;
use crate::error::{CatalogError, StorageFault};
use crate::filter::{filter_list, filtered, lets_through, views_of};
use crate::store::TapeStore;
use crate::tape::{descending, fields_filled, filled, lookup, Tape, TapeList, TapeView};
use crate::write::{
    accept, accepted, kept_behind_newest, lemma_added_is_newest, lemma_newest_exceeds_prior,
    newest_exceeds, newest_holds, scan_view, shows, write_view, Write, WriteView,
};

verus! {

/// The catalogue as contracts see it: the records in memory, newest first, and
/// the search term.
pub struct CatalogView {
    pub records: Seq<TapeView>,
    pub term: Seq<char>,
}

/// The catalogue after a scan of the table: the scanned rows take the place of
/// the records where the scan is accepted, and nothing changes where it is
/// not. The search term stays in either case.
pub open spec fn settled(
    before: CatalogView,
    scan: Result<Seq<TapeView>, CatalogError>,
    write: Option<WriteView>,
) -> CatalogView {
    match accepted(scan, write) {
        Ok(rows) => CatalogView { records: rows, term: before.term },
        Err(_) => before,
    }
}

/// What the call that took the scan returns: nothing where the scan is
/// accepted, and the error where it is not.
pub open spec fn judged(scan: Result<Seq<TapeView>, CatalogError>, write: Option<WriteView>) -> Result<
    (),
    CatalogError,
> {
    match accepted(scan, write) {
        Ok(_) => Ok(()),
        Err(e) => Err(e),
    }
}

/// Loading twice in a row what the table holds comes to loading it once: a scan
/// taken in a second time leaves the catalogue as the first time did.
pub proof fn lemma_settle_twice(
    before: CatalogView,
    scan: Result<Seq<TapeView>, CatalogError>,
    write: Option<WriteView>,
)
    ensures
        settled(settled(before, scan, write), scan, write) == settled(before, scan, write),
{
}

/// The repository. It owns the storage adapter, the list of records in memory
/// and the search term. The list is only ever replaced whole, by a scan of the
/// table that was accepted.
pub struct Catalog {
    store: TapeStore,
    list: TapeList,
    term: String,
}

impl View for Catalog {
    type V = CatalogView;

    closed spec fn view(&self) -> CatalogView {
        CatalogView { records: self.list@, term: self.term@ }
    }
}

impl Catalog {
    /// What every catalogue satisfies: the records stand newest first, and no
    /// id occurs twice.
    #[verifier::type_invariant]
    pub open spec fn ordered(&self) -> bool {
        descending(self@.records)
    }

    /// Opens the catalogue over `store` and loads the table into it. The search
    /// term starts out empty.
    pub fn open(store: TapeStore) -> (res: Result<Catalog, CatalogError>)
        ensures
            match res {
                Ok(catalog) => catalog@.term == Seq::<char>::empty() && descending(
                    catalog@.records,
                ),
                Err(e) => e.is_scan_fault(),
            },
    {
        match store.list_all() {
            Ok(list) => Ok(Catalog { store, list, term: String::new() }),
            Err(e) => Err(e),
        }
    }

    /// Takes in a scan of the table that came after the write `write`, if any.
    fn settle(&mut self, scan: Result<TapeList, CatalogError>, write: Option<&Write>) -> (res: Result<
        (),
        CatalogError,
    >)
        ensures
            res == judged(scan_view(scan), write_view(write)),
            final(self)@ == settled(old(self)@, scan_view(scan), write_view(write)),
    {
        match accept(scan, write) {
            Ok(list) => {
                proof {
                    use_type_invariant(&list);
                }
                self.list = list;
                Ok(())
            },
            Err(e) => Err(e),
        }
    }

    /// Loads the table anew. Either the whole list is replaced by what the
    /// table holds now, or the scan failed and the list stays as it was: the
    /// outcome is that of settling some scan.
    pub fn reload(&mut self) -> (res: Result<(), CatalogError>)
        ensures
            exists|scan: Result<Seq<TapeView>, CatalogError>|
                res == #[trigger] judged(scan, None) && final(self)@ == settled(
                    old(self)@,
                    scan,
                    None,
                ),
            final(self)@.term == old(self)@.term,
            descending(final(self)@.records),
            res is Err ==> final(self)@ == old(self)@,
            res matches Err(e) ==> e.is_scan_fault(),
    {
        let scan = self.store.list_all();
        let ghost seen = scan_view(scan);
        let res = self.settle(scan, None);
        proof {
            use_type_invariant(&*self);
        }
        assert(res == judged(seen, None) && self@ == settled(old(self)@, seen, None));
        res
    }

    /// Adds a cassette. An empty title or label is refused before the storage
    /// is touched. Otherwise the row is written and the table loaded anew; the
    /// call succeeds only if the new row then stands first in the list. Its id
    /// is then greater than every other id of the list, and so greater than
    /// the id of every record that was listed before and still is.
    pub fn add(&mut self, title: &str, tape: &str) -> (res: Result<(), CatalogError>)
        ensures
            final(self)@.term == old(self)@.term,
            res is Err ==> final(self)@ == old(self)@,
            !filled(title@, tape@) <==> res == Err::<(), CatalogError>(CatalogError::Validation),
            res != Err::<(), CatalogError>(CatalogError::NotFound),
            res is Ok ==> newest_holds(final(self)@.records, title@, tape@),
            res is Ok && kept_behind_newest(old(self)@.records, final(self)@.records)
                ==> newest_exceeds(old(self)@.records, final(self)@.records),
    {
        if !fields_filled(title, tape) {
            return Err(CatalogError::Validation);
        }
        let id = match self.store.insert(title, tape) {
            Ok(id) => id,
            Err(e) => {
                return Err(e);
            },
        };
        let scan = self.store.list_all();
        let write = Write::Added { id, title, tape };
        let res = self.settle(scan, Some(&write));
        proof {
            use_type_invariant(&*self);
            if res is Ok {
                lemma_added_is_newest(self@.records, id as nat, title@, tape@);
                if kept_behind_newest(old(self)@.records, self@.records) {
                    lemma_newest_exceeds_prior(old(self)@.records, self@.records);
                }
            }
        }
        res
    }

    /// Gives the cassette of the id `id` a new title and label. An empty title
    /// or label is refused before the storage is touched. Otherwise the row is
    /// written and the table loaded anew; the call succeeds only if the record
    /// then holds the new text.
    pub fn edit(&mut self, id: u32, title: &str, tape: &str) -> (res: Result<(), CatalogError>)
        ensures
            final(self)@.term == old(self)@.term,
            res is Err ==> final(self)@ == old(self)@,
            !filled(title@, tape@) <==> res == Err::<(), CatalogError>(CatalogError::Validation),
            res != Err::<(), CatalogError>(CatalogError::Storage(StorageFault::IdOutOfRange)),
            res is Ok ==> shows(
                final(self)@.records,
                WriteView::Edited { id: id as nat, title: title@, tape: tape@ },
            ),
    {
        if !fields_filled(title, tape) {
            return Err(CatalogError::Validation);
        }
        match self.store.update(id, title, tape) {
            Ok(()) => {},
            Err(e) => {
                return Err(e);
            },
        }
        let scan = self.store.list_all();
        let write = Write::Edited { id, title, tape };
        self.settle(scan, Some(&write))
    }

    /// Removes the cassette of the id `id`. The row is deleted and the table
    /// loaded anew; the call succeeds only if no record has the id any more.
    pub fn delete(&mut self, id: u32) -> (res: Result<(), CatalogError>)
        ensures
            final(self)@.term == old(self)@.term,
            res is Err ==> final(self)@ == old(self)@,
            res != Err::<(), CatalogError>(CatalogError::Validation),
            res != Err::<(), CatalogError>(CatalogError::Storage(StorageFault::IdOutOfRange)),
            res is Ok ==> lookup(final(self)@.records, id as nat) is None,
    {
        match self.store.delete(id) {
            Ok(()) => {},
            Err(e) => {
                return Err(e);
            },
        }
        let scan = self.store.list_all();
        let write = Write::Deleted { id };
        self.settle(scan, Some(&write))
    }

    /// The record of the id `id` as the list holds it now, or nothing where the
    /// id is no longer in the list.
    pub fn current_record(&self, id: u32) -> (found: Option<&Tape>)
        ensures
            match found {
                Some(t) => lookup(self@.records, id as nat) == Some(t@),
                None => lookup(self@.records, id as nat) is None,
            },
    {
        self.list.find(id)
    }

    /// The records in memory, newest first.
    pub fn records(&self) -> (list: &TapeList)
        ensures
            list@ == self@.records,
            descending(list@),
    {
        proof {
            use_type_invariant(self);
        }
        &self.list
    }

    /// How many records are loaded: the number of the status line.
    pub fn count(&self) -> (n: usize)
        ensures
            n == self@.records.len(),
    {
        self.list.len()
    }

    /// Stores the search term. Nothing is computed until the view is asked for.
    pub fn set_term(&mut self, term: &str)
        ensures
            final(self)@ == (CatalogView { records: old(self)@.records, term: term@ }),
    {
        proof {
            use_type_invariant(&*self);
        }
        self.term = term.to_owned();
    }

    /// The search term as it was last set.
    pub fn term(&self) -> (term: &str)
        ensures
            term@ == self@.term,
    {
        self.term.as_str()
    }

    /// Whether a search is on: the term is not empty.
    pub fn is_filtering(&self) -> (on: bool)
        ensures
            on == (self@.term.len() > 0),
    {
        !self.term.as_str().is_empty()
    }

    /// The records to show: those that the search term lets through, in the
    /// order of the list. It is computed afresh from the list and the term at
    /// each call.
    pub fn filtered_view(&self) -> (shown: Vec<&Tape>)
        ensures
            views_of(shown@) == filtered(self@.records, self@.term),
            self@.term.len() == 0 ==> views_of(shown@) == self@.records,
            descending(views_of(shown@)),
            forall|t: TapeView| #[trigger]
                views_of(shown@).contains(t) <==> self@.records.contains(t) && lets_through(
                    self@.term,
                    t,
                ),
    {
        filter_list(&self.list, self.term.as_str())
    }
}

} // verus!
