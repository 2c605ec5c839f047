//! What can go wrong in the catalogue.

use vstd::prelude::*;

verus! {

/// Why the storage could not serve a call.
#[derive(Debug, Clone, PartialEq, Eq)]
pub enum StorageFault {
    /// The database engine refused or failed; the text is its own message.
    Engine(String),
    /// A scan of the table did not come back in strictly descending id order.
    Unordered,
    /// The engine assigned a row id that no record id can hold.
    IdOutOfRange,
    /// A write was reported as done, but the scan that followed does not show it.
    WriteNotShown,
}

/// The error of every catalogue operation.
#[derive(Debug, Clone, PartialEq, Eq)]
pub enum CatalogError {
    /// The title or the tape label is empty. Nothing was written.
    Validation,
    /// No row of the table has the id that was to be edited or deleted.
    NotFound,
    /// The storage failed. The in-memory list is as it was before the call.
    Storage(StorageFault),
}

impl CatalogError {
    /// The engine itself failed.
    pub open spec fn is_engine(self) -> bool {
        self matches CatalogError::Storage(StorageFault::Engine(_))
    }

    /// A scan of the table failed: the engine did, or the rows were out of order.
    pub open spec fn is_scan_fault(self) -> bool {
        self.is_engine() || self == CatalogError::Storage(StorageFault::Unordered)
    }
}

} // verus!
