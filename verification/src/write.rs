//! Writes, and how a scan of the table is held against the write that went
//! before it.
//!
//! The storage is not taken at its word. After every write the table is
//! scanned, and the scan has to show what was written before the catalogue
//! puts it in the place of its list.

use vstd::prelude::*;
use crate::error::{CatalogError, StorageFault};
use crate::tape::{descending, has_id, lemma_ids_differ, Tape, TapeList, TapeView};
use crate::text::same_text;

verus! {

/// A write that the storage reported as done.
pub enum Write<'a> {
    /// A row with this title and label was inserted and got the id `id`.
    Added { id: u32, title: &'a str, tape: &'a str },
    /// The row of the id `id` got this title and label.
    Edited { id: u32, title: &'a str, tape: &'a str },
    /// The row of the id `id` was removed.
    Deleted { id: u32 },
}

/// A write as contracts see it.
pub enum WriteView {
    Added { id: nat, title: Seq<char>, tape: Seq<char> },
    Edited { id: nat, title: Seq<char>, tape: Seq<char> },
    Deleted { id: nat },
}

impl<'a> View for Write<'a> {
    type V = WriteView;

    open spec fn view(&self) -> WriteView {
        match *self {
            Write::Added { id, title, tape } => WriteView::Added { id: id as nat, title: title@, tape: tape@ },
            Write::Edited { id, title, tape } => WriteView::Edited {
                id: id as nat,
                title: title@,
                tape: tape@,
            },
            Write::Deleted { id } => WriteView::Deleted { id: id as nat },
        }
    }
}

/// The write to confirm as contracts see it, where there is one.
pub open spec fn write_view(write: Option<&Write>) -> Option<WriteView> {
    match write {
        Some(w) => Some(w@),
        None => None,
    }
}

/// A scan as contracts see it: the rows by their views, or the error.
pub open spec fn scan_view(scan: Result<TapeList, CatalogError>) -> Result<
    Seq<TapeView>,
    CatalogError,
> {
    match scan {
        Ok(list) => Ok(list@),
        Err(e) => Err(e),
    }
}

/// The record `t` has the id, the title and the label given.
pub open spec fn holds(t: TapeView, id: nat, title: Seq<char>, tape: Seq<char>) -> bool {
    t.id == id && t.title == title && t.tape == tape
}

/// The first record of `rows` has the title and the label given, and its id is
/// greater than that of every other record.
pub open spec fn newest_holds(rows: Seq<TapeView>, title: Seq<char>, tape: Seq<char>) -> bool {
    &&& rows.len() > 0
    &&& rows[0].title == title
    &&& rows[0].tape == tape
    &&& forall|i: int| 0 < i < rows.len() ==> (#[trigger] rows[i]).id < rows[0].id
}

/// The rows `rows` show the write `write`: an added row comes first, an edited
/// row holds its new text, a deleted row is gone.
pub open spec fn shows(rows: Seq<TapeView>, write: WriteView) -> bool {
    match write {
        WriteView::Added { id, title, tape } => rows.len() > 0 && holds(rows[0], id, title, tape),
        WriteView::Edited { id, title, tape } => exists|i: int|
            0 <= i < rows.len() && holds(#[trigger] rows[i], id, title, tape),
        WriteView::Deleted { id } => !has_id(rows, id),
    }
}

/// What becomes of a scan: its rows, where it succeeded and shows the write
/// that went before it, if there was one; else the error.
pub open spec fn accepted(scan: Result<Seq<TapeView>, CatalogError>, write: Option<WriteView>) -> Result<
    Seq<TapeView>,
    CatalogError,
> {
    match scan {
        Err(e) => Err(e),
        Ok(rows) => match write {
            Some(w) => if shows(rows, w) {
                Ok(rows)
            } else {
                Err(CatalogError::Storage(StorageFault::WriteNotShown))
            },
            None => Ok(rows),
        },
    }
}

/// Every id of `before` is still listed in `after`, behind the first record.
pub open spec fn kept_behind_newest(before: Seq<TapeView>, after: Seq<TapeView>) -> bool {
    forall|i: int|
        0 <= i < before.len() ==> exists|j: int|
            0 < j < after.len() && (#[trigger] after[j]).id == (#[trigger] before[i]).id
}

/// The id of the first record of `after` is greater than every id of `before`.
pub open spec fn newest_exceeds(before: Seq<TapeView>, after: Seq<TapeView>) -> bool {
    forall|i: int| 0 <= i < before.len() ==> (#[trigger] before[i]).id < after[0].id
}

/// The id of the newest record is greater than every id that was listed before
/// and is still listed behind it.
pub proof fn lemma_newest_exceeds_prior(before: Seq<TapeView>, after: Seq<TapeView>)
    requires
        descending(after),
        kept_behind_newest(before, after),
    ensures
        newest_exceeds(before, after),
{
    assert forall|i: int| 0 <= i < before.len() implies (#[trigger] before[i]).id < after[0].id by {
        let j = choose|j: int| 0 < j < after.len() && (#[trigger] after[j]).id == before[i].id;
        assert(after[0].id > after[j].id);
    }
}

/// Rows in order that show an insert have the new row as their newest record.
pub proof fn lemma_added_is_newest(rows: Seq<TapeView>, id: nat, title: Seq<char>, tape: Seq<char>)
    requires
        descending(rows),
        shows(rows, WriteView::Added { id, title, tape }),
    ensures
        rows[0].id == id,
        newest_holds(rows, title, tape),
{
}

/// Whether the record `t` has the id, the title and the label given.
fn record_holds(t: &Tape, id: u32, title: &str, tape: &str) -> (yes: bool)
    ensures
        yes == holds(t@, id as nat, title@, tape@),
{
    t.id == id && same_text(t.title.as_str(), title) && same_text(t.tape.as_str(), tape)
}

/// Whether the scanned list `list` shows the write `write`.
pub fn list_shows(list: &TapeList, write: &Write) -> (yes: bool)
    ensures
        yes == shows(list@, write@),
{
    match write {
        Write::Added { id, title, tape } => match list.first() {
            Some(t) => record_holds(t, *id, title, tape),
            None => false,
        },
        Write::Edited { id, title, tape } => match list.find(*id) {
            Some(t) => {
                proof {
                    use_type_invariant(list);
                    lemma_ids_differ(list@);
                }
                record_holds(t, *id, title, tape)
            },
            None => false,
        },
        Write::Deleted { id } => list.find(*id).is_none(),
    }
}

/// Examines what a scan of the table gave. The scanned list is handed on if the
/// scan succeeded and, where `write` names a write that went before it, shows
/// that write. A failed scan keeps its error; a scan that does not show the
/// write is refused.
pub fn accept(scan: Result<TapeList, CatalogError>, write: Option<&Write>) -> (res: Result<
    TapeList,
    CatalogError,
>)
    ensures
        scan_view(res) == accepted(scan_view(scan), write_view(write)),
        res is Ok ==> res == scan,
{
    match scan {
        Ok(list) => {
            let shown = match write {
                Some(w) => list_shows(&list, w),
                None => true,
            };
            if shown {
                Ok(list)
            } else {
                Err(CatalogError::Storage(StorageFault::WriteNotShown))
            }
        },
        Err(e) => Err(e),
    }
}

} // verus!
