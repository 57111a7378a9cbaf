//! The raw shape of a ledger row as storage hands it out, and the decoded
//! ledger record.

use vstd::prelude::*;
use crate::status::VerStatus;

verus! {

/// Spec-level content of a raw ledger row: each required column is either
/// absent or holds its plain value.
pub ghost struct RowView {
    pub id: Option<i64>,
    pub updated: Option<Seq<char>>,
    pub version: Option<i64>,
    pub migration_hash: Option<Seq<char>>,
    pub status: Option<Seq<char>>,
    pub lib_ver: Option<i64>,
}

/// A raw database row, seen through named-column access: a column the query
/// did not return is `None`.
#[derive(Clone, Debug, PartialEq)]
pub struct RawRow {
    pub id: Option<i64>,
    pub updated: Option<String>,
    pub version: Option<i64>,
    pub migration_hash: Option<String>,
    pub status: Option<String>,
    pub lib_ver: Option<i64>,
}

impl View for RawRow {
    type V = RowView;

    open spec fn view(&self) -> RowView {
        RowView {
            id: self.id,
            updated: self.updated.deep_view(),
            version: self.version,
            migration_hash: self.migration_hash.deep_view(),
            status: self.status.deep_view(),
            lib_ver: self.lib_ver,
        }
    }
}

fn clone_opt_string(o: &Option<String>) -> (r: Option<String>)
    ensures
        r.deep_view() == o.deep_view(),
{
    match o {
        Some(s) => Some(s.clone()),
        None => None,
    }
}

impl RawRow {
    /// A copy of the row with the same content.
    pub fn duplicate(&self) -> (r: RawRow)
        ensures
            r@ == self@,
    {
        RawRow {
            id: self.id,
            updated: clone_opt_string(&self.updated),
            version: self.version,
            migration_hash: clone_opt_string(&self.migration_hash),
            status: clone_opt_string(&self.status),
            lib_ver: self.lib_ver,
        }
    }
}

/// Spec-level value of a decoded ledger record.
pub ghost struct EntryV {
    pub id: i64,
    pub updated: i64,
    pub version: i64,
    pub migration_hash: Seq<char>,
    pub status: VerStatus,
    pub lib_ver: i64,
}

/// One decoded ledger record: a row of the `schema_versions` table.
#[derive(Clone, Debug, PartialEq)]
pub struct VerEntry {
    /// Unique identity assigned by storage.
    pub id: i64,
    /// Instant of the last write to this record, in microseconds since the
    /// Unix epoch; used for ordering and canonical selection.
    pub updated: i64,
    /// The schema version this record claims to represent.
    pub version: i64,
    /// Opaque content fingerprint of the migration set applied to reach
    /// `version`.
    pub migration_hash: String,
    /// Lifecycle of the migration attempt this record describes.
    pub status: VerStatus,
    /// Format version of the ledger schema itself.
    pub lib_ver: i64,
}

impl View for VerEntry {
    type V = EntryV;

    open spec fn view(&self) -> EntryV {
        EntryV {
            id: self.id,
            updated: self.updated,
            version: self.version,
            migration_hash: self.migration_hash@,
            status: self.status,
            lib_ver: self.lib_ver,
        }
    }
}

} // verus!
