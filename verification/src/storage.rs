//! The connection interface the ledger consumes: a handle to the database,
//! stated against the storage model.
//!
//! Statement-level promises (an operation that reports success has exactly
//! its stated effect) reflect per-statement atomicity of the target engine.
//! A failed delete or upsert promises nothing: a storage-level fault may
//! leave the table in any state, which is why the resolver re-verifies the
//! canonical row after deleting.

use vstd::prelude::*;
use crate::model::{rows_view, TableModel};
use crate::rows::RawRow;

verus! {

/// A database connection scoped to the ledger's schema objects.
pub trait Storage: Sized {
    /// The storage state this handle currently sees. The default stands for
    /// handles whose state the verifier never inspects; verified backends
    /// give their own.
    open spec fn model(&self) -> TableModel {
        TableModel::empty()
    }

    /// The name of the current database, for diagnostics; changes nothing.
    fn get_db_name(&mut self) -> (r: Result<String, ()>)
        ensures
            final(self).model() == old(self).model(),
    ;

    /// Ensures the status enumeration type exists, creating it only if
    /// absent; on failure nothing has changed.
    fn create_status_type(&mut self) -> (r: Result<(), ()>)
        ensures
            r is Ok ==> final(self).model() == old(self).model().with_status_type(),
            r is Err ==> final(self).model() == old(self).model(),
    ;

    /// Ensures the `schema_versions` table exists, creating it only if
    /// absent; on failure nothing has changed.
    fn create_table(&mut self) -> (r: Result<(), ()>)
        ensures
            r is Ok ==> final(self).model() == old(self).model().with_table(),
            r is Err ==> final(self).model() == old(self).model(),
    ;

    /// All rows of the table, in storage order; changes nothing.
    fn fetch_all(&mut self) -> (r: Result<Vec<RawRow>, ()>)
        ensures
            final(self).model() == old(self).model(),
            r matches Ok(rows) ==> rows_view(rows@) == old(self).model().rows,
    ;

    /// The rows claiming schema version `ver`, in storage order; changes
    /// nothing.
    fn fetch_by_version(&mut self, ver: i64) -> (r: Result<Vec<RawRow>, ()>)
        ensures
            final(self).model() == old(self).model(),
            r matches Ok(rows) ==> rows_view(rows@) == old(self).model().rows_for(ver),
    ;

    /// Deletes every row with identity `id`. On failure a storage-level
    /// fault may have left the table in any state.
    fn delete_by_id(&mut self, id: i64) -> (r: Result<(), ()>)
        ensures
            r is Ok ==> final(self).model() == old(self).model().without_id(id),
    ;

    /// Whether some row with identity `id` exists; changes nothing.
    fn exists_by_id(&mut self, id: i64) -> (r: Result<bool, ()>)
        ensures
            final(self).model() == old(self).model(),
            r matches Ok(b) ==> b == old(self).model().contains_id(id),
    ;

    /// Upserts `row`, keyed by its identity. On failure a storage-level
    /// fault may have left the table in any state.
    fn upsert(&mut self, row: &RawRow) -> (r: Result<(), ()>)
        requires
            row@.id is Some,
        ensures
            r is Ok ==> final(self).model() == old(self).model().upserted(row@),
    ;

    /// Takes an advisory lock scoped to `ver`, so that one resolution's
    /// scan-delete-verify sequence runs as an atomic unit against
    /// concurrent resolvers; changes nothing itself.
    fn lock_version(&mut self, ver: i64) -> (r: Result<(), ()>)
        ensures
            final(self).model() == old(self).model(),
    ;

    /// Releases the advisory lock for `ver`; changes nothing itself.
    fn unlock_version(&mut self, ver: i64)
        ensures
            final(self).model() == old(self).model(),
    ;
}

} // verus!
