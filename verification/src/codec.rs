//! The row codec: decodes a raw database row into a ledger record,
//! validating the required columns.

use vstd::prelude::*;
use crate::dates::{rfc3339_instant, parse_rfc3339_micros};
use crate::rows::{RawRow, RowView, VerEntry, EntryV};
use crate::status::{status_of, VerStatus};

verus! {

/// Why a raw row could not be decoded into a ledger record.
#[derive(Clone, Debug, PartialEq)]
pub enum DecodeError {
    /// The row lacks the named required columns.
    MissingColumns(Vec<String>),
    /// The `updated` column does not hold a valid RFC 3339 timestamp.
    DateParseFailure,
    /// The `status` column holds text that names no status.
    UnknownStatus,
}

/// Spec-level value of a `DecodeError`.
pub ghost enum DecodeErrorV {
    MissingColumns(Seq<Seq<char>>),
    DateParseFailure,
    UnknownStatus,
}

impl View for DecodeError {
    type V = DecodeErrorV;

    open spec fn view(&self) -> DecodeErrorV {
        match self {
            DecodeError::MissingColumns(v) => DecodeErrorV::MissingColumns(v.deep_view()),
            DecodeError::DateParseFailure => DecodeErrorV::DateParseFailure,
            DecodeError::UnknownStatus => DecodeErrorV::UnknownStatus,
        }
    }
}

/// The names of the required columns absent from `r`, in the fixed column
/// order of the `schema_versions` table.
pub open spec fn missing_columns_of(r: RowView) -> Seq<Seq<char>> {
    (if r.id is None { seq!["id"@] } else { Seq::<Seq<char>>::empty() })
    + (if r.updated is None { seq!["updated"@] } else { Seq::<Seq<char>>::empty() })
    + (if r.version is None { seq!["version"@] } else { Seq::<Seq<char>>::empty() })
    + (if r.migration_hash is None { seq!["migration_hash"@] } else { Seq::<Seq<char>>::empty() })
    + (if r.status is None { seq!["status"@] } else { Seq::<Seq<char>>::empty() })
    + (if r.lib_ver is None { seq!["lib_ver"@] } else { Seq::<Seq<char>>::empty() })
}

/// Whether every required column is present in `r`.
pub open spec fn row_complete(r: RowView) -> bool {
    &&& r.id is Some
    &&& r.updated is Some
    &&& r.version is Some
    &&& r.migration_hash is Some
    &&& r.status is Some
    &&& r.lib_ver is Some
}

/// What decoding a raw row yields: the record, or the first applicable
/// failure — absent columns, then an unparsable timestamp, then unknown
/// status text.
pub open spec fn decode_spec(r: RowView) -> Result<EntryV, DecodeErrorV> {
    if !row_complete(r) {
        Err(DecodeErrorV::MissingColumns(missing_columns_of(r)))
    } else if rfc3339_instant(r.updated->Some_0) is None {
        Err(DecodeErrorV::DateParseFailure)
    } else if status_of(r.status->Some_0) is None {
        Err(DecodeErrorV::UnknownStatus)
    } else {
        Ok(EntryV {
            id: r.id->Some_0,
            updated: rfc3339_instant(r.updated->Some_0)->Some_0,
            version: r.version->Some_0,
            migration_hash: r.migration_hash->Some_0,
            status: status_of(r.status->Some_0)->Some_0,
            lib_ver: r.lib_ver->Some_0,
        })
    }
}

/// The instant a row's `updated` column denotes, if the column is present
/// and its text parses.
pub open spec fn parsed_instant(r: RowView) -> Option<i64> {
    match r.updated {
        Some(u) => rfc3339_instant(u),
        None => None,
    }
}

/// Reads the instant out of a row's `updated` column.
pub fn updated_instant_of(row: &RawRow) -> (r: Option<i64>)
    ensures
        r == parsed_instant(row@),
{
    match &row.updated {
        Some(s) => parse_rfc3339_micros(s.as_str()),
        None => None,
    }
}

/// Spec-level value of a decode result.
pub open spec fn decode_result_view(r: Result<VerEntry, DecodeError>) -> Result<EntryV, DecodeErrorV> {
    match r {
        Ok(e) => Ok(e@),
        Err(e) => Err(e@),
    }
}

/// Decodes a raw row into a ledger record. Pure over the row's content: no
/// input leaves it undecided, and a row missing required columns is rejected
/// with their names.
pub fn construct_row(row: &RawRow) -> (r: Result<VerEntry, DecodeError>)
    ensures
        decode_result_view(r) == decode_spec(row@),
{
    let mut missing: Vec<String> = Vec::new();
    if row.id.is_none() {
        missing.push("id".to_owned());
    }
    if row.updated.is_none() {
        missing.push("updated".to_owned());
    }
    if row.version.is_none() {
        missing.push("version".to_owned());
    }
    if row.migration_hash.is_none() {
        missing.push("migration_hash".to_owned());
    }
    if row.status.is_none() {
        missing.push("status".to_owned());
    }
    if row.lib_ver.is_none() {
        missing.push("lib_ver".to_owned());
    }
    if missing.len() > 0 {
        proof {
            assert(missing.deep_view() =~= missing_columns_of(row@));
        }
        return Err(DecodeError::MissingColumns(missing));
    }

    let updated_text = match &row.updated {
        Some(s) => s,
        None => { return Err(DecodeError::DateParseFailure); },
    };
    let updated = match parse_rfc3339_micros(updated_text.as_str()) {
        Some(t) => t,
        None => { return Err(DecodeError::DateParseFailure); },
    };

    let status_text = match &row.status {
        Some(s) => s.clone(),
        None => { return Err(DecodeError::UnknownStatus); },
    };
    let status = match VerStatus::from_string(status_text) {
        Some(st) => st,
        None => { return Err(DecodeError::UnknownStatus); },
    };

    let migration_hash = match &row.migration_hash {
        Some(s) => s.clone(),
        None => { return Err(DecodeError::UnknownStatus); },
    };

    let id = match row.id {
        Some(v) => v,
        None => { return Err(DecodeError::UnknownStatus); },
    };
    let version = match row.version {
        Some(v) => v,
        None => { return Err(DecodeError::UnknownStatus); },
    };
    let lib_ver = match row.lib_ver {
        Some(v) => v,
        None => { return Err(DecodeError::UnknownStatus); },
    };

    Ok(VerEntry { id, updated, version, migration_hash, status, lib_ver })
}

} // verus!
