//! The catalogue's record and the ordered list of records.

use vstd::prelude::*;
use crate::error::{CatalogError, StorageFault};

verus! {

/// One cassette: a row of the table `tapes`.
#[derive(Debug, Clone, PartialEq, Eq)]
pub struct Tape {
    /// Primary key, assigned by the storage.
    pub id: u32,
    /// Title of the film.
    pub title: String,
    /// Label of the physical cassette.
    pub tape: String,
    /// When the row was created, as the storage renders it.
    pub created_at: String,
}

/// A record as contracts see it.
pub struct TapeView {
    pub id: nat,
    pub title: Seq<char>,
    pub tape: Seq<char>,
    pub created_at: Seq<char>,
}

impl View for Tape {
    type V = TapeView;

    open spec fn view(&self) -> TapeView {
        TapeView {
            id: self.id as nat,
            title: self.title@,
            tape: self.tape@,
            created_at: self.created_at@,
        }
    }
}

impl Tape {
    /// The record with these four values.
    pub fn new(id: u32, title: String, tape: String, created_at: String) -> (t: Tape)
        ensures
            t == (Tape { id, title, tape, created_at }),
    {
        Tape { id, title, tape, created_at }
    }
}

/// A title and a label that may be written: neither is empty.
pub open spec fn filled(title: Seq<char>, tape: Seq<char>) -> bool {
    title.len() > 0 && tape.len() > 0
}

/// Whether `title` and `tape` may be written: neither is empty.
pub fn fields_filled(title: &str, tape: &str) -> (ok: bool)
    ensures
        ok == filled(title@, tape@),
{
    !title.is_empty() && !tape.is_empty()
}

/// The records of a vector, each by its view.
pub open spec fn views(rows: Seq<Tape>) -> Seq<TapeView> {
    rows.map_values(|t: Tape| t@)
}

/// Ids fall strictly from each record to the next: the most recent row comes first,
/// and no id occurs twice.
pub open spec fn descending(rows: Seq<TapeView>) -> bool {
    forall|i: int, j: int| 0 <= i < j < rows.len() ==> rows[i].id > rows[j].id
}

/// Some record of `rows` has the id `id`.
pub open spec fn has_id(rows: Seq<TapeView>, id: nat) -> bool {
    exists|i: int| 0 <= i < rows.len() && rows[i].id == id
}

/// The record of `rows` with the id `id`, if there is one. Where ids fall
/// strictly there is at most one.
pub open spec fn lookup(rows: Seq<TapeView>, id: nat) -> Option<TapeView> {
    if has_id(rows, id) {
        Some(rows[choose|i: int| 0 <= i < rows.len() && rows[i].id == id])
    } else {
        None
    }
}

/// Where ids fall strictly, no id occurs twice.
pub proof fn lemma_ids_differ(rows: Seq<TapeView>)
    requires
        descending(rows),
    ensures
        forall|i: int, j: int|
            0 <= i < rows.len() && 0 <= j < rows.len() && #[trigger] rows[i].id
                == #[trigger] rows[j].id ==> i == j,
{
    assert forall|i: int, j: int|
        0 <= i < rows.len() && 0 <= j < rows.len() && #[trigger] rows[i].id
            == #[trigger] rows[j].id implies i == j by {
        if i < j {
            assert(rows[i].id > rows[j].id);
        }
        if j < i {
            assert(rows[j].id > rows[i].id);
        }
    }
}

/// Whether ids fall strictly from each record of `rows` to the next.
pub fn is_descending(rows: &Vec<Tape>) -> (ok: bool)
    ensures
        ok == descending(views(rows@)),
{
    let n = rows.len();
    let mut k: usize = 1;
    while k < n
        invariant
            n == rows.len(),
            1 <= k,
            forall|i: int, j: int| 0 <= i < j < k && j < n ==> views(rows@)[i].id > views(rows@)[j].id,
        decreases n - k,
    {
        if rows[k - 1].id <= rows[k].id {
            assert(views(rows@)[k - 1].id <= views(rows@)[k as int].id);
            return false;
        }
        assert forall|i: int, j: int| 0 <= i < j < k + 1 && j < n implies views(rows@)[i].id > views(
            rows@,
        )[j].id by {
            if j == k {
                if i < k - 1 {
                    assert(views(rows@)[i].id > views(rows@)[k - 1].id);
                }
            }
        }
        k = k + 1;
    }
    true
}

/// The records of the table, most recent first.
///
/// A list can only be made from rows whose ids fall strictly, so a list never
/// holds an id twice and its first record is the newest.
pub struct TapeList {
    rows: Vec<Tape>,
}

impl View for TapeList {
    type V = Seq<TapeView>;

    closed spec fn view(&self) -> Seq<TapeView> {
        views(self.rows@)
    }
}

impl TapeList {
    /// What every list satisfies.
    #[verifier::type_invariant]
    pub open spec fn ordered(&self) -> bool {
        descending(self@)
    }

    /// The list without records.
    pub fn new() -> (list: TapeList)
        ensures
            list@ == Seq::<TapeView>::empty(),
    {
        let list = TapeList { rows: Vec::new() };
        assert(list@ =~= Seq::<TapeView>::empty());
        list
    }

    /// Makes a list of `rows` if their ids fall strictly, and refuses them otherwise.
    pub fn from_rows(rows: Vec<Tape>) -> (res: Result<TapeList, CatalogError>)
        ensures
            match res {
                Ok(list) => descending(views(rows@)) && list@ == views(rows@),
                Err(e) => !descending(views(rows@)) && e == CatalogError::Storage(
                    StorageFault::Unordered,
                ),
            },
    {
        if is_descending(&rows) {
            Ok(TapeList { rows })
        } else {
            Err(CatalogError::Storage(StorageFault::Unordered))
        }
    }

    /// How many records the list holds.
    pub fn len(&self) -> (n: usize)
        ensures
            n == self@.len(),
    {
        self.rows.len()
    }

    /// The record at place `i`, counted from the newest, if the list is that long.
    pub fn get(&self, i: usize) -> (t: Option<&Tape>)
        ensures
            match t {
                Some(r) => i < self@.len() && r@ == self@[i as int],
                None => i >= self@.len(),
            },
    {
        if i < self.rows.len() {
            Some(&self.rows[i])
        } else {
            None
        }
    }

    /// The records, newest first.
    pub fn rows(&self) -> (rows: &Vec<Tape>)
        ensures
            views(rows@) == self@,
            descending(self@),
    {
        proof {
            use_type_invariant(self);
        }
        &self.rows
    }

    /// The newest record, if there is any.
    pub fn first(&self) -> (t: Option<&Tape>)
        ensures
            match t {
                Some(r) => self@.len() > 0 && r@ == self@[0],
                None => self@.len() == 0,
            },
    {
        if self.rows.len() == 0 {
            None
        } else {
            Some(&self.rows[0])
        }
    }

    /// The place of the record with the id `id`, found by halving the list.
    pub fn position(&self, id: u32) -> (found: Option<usize>)
        ensures
            match found {
                Some(i) => i < self@.len() && self@[i as int].id == id,
                None => !has_id(self@, id as nat),
            },
    {
        proof {
            use_type_invariant(self);
        }
        let mut lo: usize = 0;
        let mut hi: usize = self.rows.len();
        while lo < hi
            invariant
                lo <= hi <= self.rows.len(),
                descending(views(self.rows@)),
                forall|i: int| 0 <= i < lo ==> views(self.rows@)[i].id > id,
                forall|i: int| hi <= i < self.rows.len() ==> views(self.rows@)[i].id < id,
            decreases hi - lo,
        {
            let mid: usize = lo + (hi - lo) / 2;
            let here: u32 = self.rows[mid].id;
            assert(views(self.rows@)[mid as int].id == here);
            if here == id {
                return Some(mid);
            } else if here > id {
                lo = mid + 1;
            } else {
                hi = mid;
            }
        }
        None
    }

    /// The record with the id `id`, if the list holds one.
    pub fn find(&self, id: u32) -> (t: Option<&Tape>)
        ensures
            match t {
                Some(r) => lookup(self@, id as nat) == Some(r@),
                None => lookup(self@, id as nat) is None,
            },
    {
        proof {
            use_type_invariant(self);
            lemma_ids_differ(self@);
        }
        match self.position(id) {
            Some(i) => {
                assert(self@[i as int] == self.rows@[i as int]@);
                Some(&self.rows[i])
            },
            None => None,
        }
    }
}

} // verus!
