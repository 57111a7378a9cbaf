//! The version ledger: bootstraps its own storage and answers the
//! current-version query.

use vstd::prelude::*;
use crate::codec::{
    construct_row, decode_spec, parsed_instant, updated_instant_of, DecodeError, DecodeErrorV,
};
use crate::model::TableModel;
use crate::rows::{EntryV, RawRow, RowView, VerEntry};
use crate::model::rows_view;
use crate::storage::Storage;

verus! {

/// Why bootstrap failed; each is fatal, and the caller must not run
/// migrations without a bootstrapped ledger.
#[derive(Clone, Copy, Debug, PartialEq, Eq, Structural)]
pub enum BootstrapError {
    /// The query for the current database name failed.
    GetDbNameFailed,
    /// Creating the status enumeration type failed.
    TypeCreateFailed,
    /// Creating the `schema_versions` table failed.
    TableCreateFailed,
}

/// Why duplicate resolution failed.
#[derive(Clone, Copy, Debug, PartialEq, Eq, Structural)]
pub enum ResolutionError {
    /// The scan found no row at all for the version.
    NoDuplicateRows,
    /// A scanned row's identity or `updated` timestamp could not be read, so
    /// resolution stopped before deleting anything.
    DateParseFailure,
    /// The canonical row did not survive deletion; the original rows were
    /// re-inserted as far as possible, and an operator must intervene.
    DisappearingVersionRow,
    /// The scan itself failed.
    QueryFailed,
}

/// Why a ledger query failed.
#[derive(Clone, Debug, PartialEq)]
pub enum LedgerError {
    /// No record claims the requested version.
    NotFound,
    /// Not exactly one record is most recent: the table is empty, or several
    /// records tie at the maximum `updated` instant.
    IncorrectRowCount,
    /// A storage query failed.
    QueryError,
    /// A row read from storage could not be decoded.
    RowDecode(DecodeError),
    /// Duplicate records were found and resolving them failed.
    DuplicateResolutionFailed(ResolutionError),
}

/// Spec-level value of a `LedgerError`.
pub ghost enum LedgerErrV {
    NotFound,
    IncorrectRowCount,
    QueryError,
    RowDecode(DecodeErrorV),
    DuplicateResolutionFailed(ResolutionError),
}

impl View for LedgerError {
    type V = LedgerErrV;

    open spec fn view(&self) -> LedgerErrV {
        match self {
            LedgerError::NotFound => LedgerErrV::NotFound,
            LedgerError::IncorrectRowCount => LedgerErrV::IncorrectRowCount,
            LedgerError::QueryError => LedgerErrV::QueryError,
            LedgerError::RowDecode(d) => LedgerErrV::RowDecode(d@),
            LedgerError::DuplicateResolutionFailed(e) => LedgerErrV::DuplicateResolutionFailed(*e),
        }
    }
}

/// Spec-level value of a ledger query result.
pub open spec fn ledger_result_view(r: Result<VerEntry, LedgerError>) -> Result<EntryV, LedgerErrV> {
    match r {
        Ok(e) => Ok(e@),
        Err(e) => Err(e@),
    }
}

/// Whether every row's `updated` timestamp parses.
pub open spec fn all_times_parse(rows: Seq<RowView>) -> bool {
    forall|i: int| 0 <= i < rows.len() ==> (parsed_instant(#[trigger] rows[i])) is Some
}

/// Whether position `i` holds the strictly most recently updated row.
pub open spec fn unique_latest(rows: Seq<RowView>, i: int) -> bool {
    &&& 0 <= i < rows.len()
    &&& forall|j: int|
        0 <= j < rows.len() && j != i ==> parsed_instant(#[trigger] rows[j])->Some_0
            < parsed_instant(rows[i])->Some_0
}

/// What the current-version query answers over the table's rows: the record
/// with the strictly greatest `updated` instant. No rows, or several tying
/// at the maximum, is `IncorrectRowCount`; a timestamp that does not parse,
/// or a selected row that does not decode, surfaces as the decode failure.
pub open spec fn current_version_spec(rows: Seq<RowView>) -> Result<EntryV, LedgerErrV> {
    if !all_times_parse(rows) {
        Err(LedgerErrV::RowDecode(DecodeErrorV::DateParseFailure))
    } else if exists|i: int| unique_latest(rows, i) {
        match decode_spec(rows[choose|i: int| unique_latest(rows, i)]) {
            Ok(e) => Ok(e),
            Err(d) => Err(LedgerErrV::RowDecode(d)),
        }
    } else {
        Err(LedgerErrV::IncorrectRowCount)
    }
}

/// Selects the most recently updated record among `rows`: the core of the
/// current-version query, over rows already fetched.
pub fn current_version_from_rows(rows: &Vec<RawRow>) -> (r: Result<VerEntry, LedgerError>)
    ensures
        ledger_result_view(r) == current_version_spec(rows_view(rows@)),
{
    let ghost all = rows_view(rows@);
    if rows.len() == 0 {
        proof {
            assert(!exists|i: int| unique_latest(all, i));
        }
        return Err(LedgerError::IncorrectRowCount);
    }
    let mut best: usize = 0;
    let mut best_t: i64 = match updated_instant_of(&rows[0]) {
        Some(t) => t,
        None => {
            proof {
                assert(parsed_instant(all[0]) is None);
            }
            return Err(LedgerError::RowDecode(DecodeError::DateParseFailure));
        },
    };
    let mut tie = false;
    let mut i: usize = 1;
    while i < rows.len()
        invariant
            all == rows_view(rows@),
            1 <= i <= all.len(),
            best < i,
            forall|k: int| 0 <= k < i ==> (parsed_instant(#[trigger] all[k])) is Some,
            parsed_instant(all[best as int]) == Some(best_t),
            forall|k: int| 0 <= k < i ==> parsed_instant(#[trigger] all[k])->Some_0 <= best_t,
            tie == exists|k: int|
                0 <= k < i && k != best && parsed_instant(#[trigger] all[k])->Some_0 == best_t,
        decreases all.len() - i,
    {
        let t = match updated_instant_of(&rows[i]) {
            Some(t) => t,
            None => {
                proof {
                    assert(parsed_instant(all[i as int]) is None);
                }
                return Err(LedgerError::RowDecode(DecodeError::DateParseFailure));
            },
        };
        if t > best_t {
            best = i;
            best_t = t;
            tie = false;
        } else if t == best_t {
            tie = true;
            proof {
                assert(parsed_instant(all[i as int])->Some_0 == best_t);
            }
        }
        i += 1;
    }
    if tie {
        proof {
            if exists|u: int| unique_latest(all, u) {
                let u = choose|u: int| unique_latest(all, u);
                let k = choose|k: int|
                    0 <= k < all.len() && k != best && parsed_instant(#[trigger] all[k])->Some_0
                        == best_t;
                if u == best as int {
                    assert(parsed_instant(all[k])->Some_0 < best_t);
                } else {
                    assert(parsed_instant(all[best as int])->Some_0 < parsed_instant(
                        all[u],
                    )->Some_0);
                    assert(parsed_instant(all[u])->Some_0 <= best_t);
                }
                assert(false);
            }
        }
        return Err(LedgerError::IncorrectRowCount);
    }
    proof {
        assert(unique_latest(all, best as int));
        let c = choose|i: int| unique_latest(all, i);
        if c != best as int {
            assert(parsed_instant(all[c])->Some_0 < parsed_instant(all[best as int])->Some_0);
            assert(parsed_instant(all[best as int])->Some_0 < parsed_instant(all[c])->Some_0);
            assert(false);
        }
    }
    match construct_row(&rows[best]) {
        Ok(e) => Ok(e),
        Err(d) => Err(LedgerError::RowDecode(d)),
    }
}

/// The version ledger: owns the storage handle for the `schema_versions`
/// table and the name of the database it serves, kept for diagnostics.
pub struct DbSchemaVer<S: Storage> {
    /// The bootstrapped storage handle.
    pub store: S,
    /// The current database's name, as storage reported it.
    pub db_name: String,
    /// The audit summary of the latest resolution run, regardless of the
    /// branch it took; `None` until a query has resolved duplicates.
    pub last_report: Option<String>,
}

impl<S: Storage> DbSchemaVer<S> {
    /// Bootstraps the ledger: determines the current database name, then
    /// ensures the status enumeration type and the `schema_versions` table
    /// exist, creating each only if absent. Idempotent and safe on every
    /// process start. On failure the storage handle comes back beside the
    /// error, with exactly the stated state.
    pub fn bootstrap(store: S) -> (r: Result<DbSchemaVer<S>, (BootstrapError, S)>)
        ensures
            r matches Ok(l) ==> l.store.model() == store.model().bootstrapped(),
            r matches Err((e, s)) ==> match e {
                BootstrapError::GetDbNameFailed => s.model() == store.model(),
                BootstrapError::TypeCreateFailed => s.model() == store.model(),
                BootstrapError::TableCreateFailed => s.model() == store.model().with_status_type(),
            },
    {
        let mut st = store;
        let db_name = match st.get_db_name() {
            Ok(n) => n,
            Err(_) => {
                return Err((BootstrapError::GetDbNameFailed, st));
            },
        };
        match st.create_status_type() {
            Ok(_) => {},
            Err(_) => {
                return Err((BootstrapError::TypeCreateFailed, st));
            },
        }
        match st.create_table() {
            Ok(_) => {},
            Err(_) => {
                return Err((BootstrapError::TableCreateFailed, st));
            },
        }
        proof {
            assert(st.model() =~= store.model().bootstrapped());
        }
        Ok(DbSchemaVer { store: st, db_name, last_report: None })
    }

    /// Appends or refreshes one ledger record, keyed by its identity: the
    /// entry point the migration runner uses when starting or finishing an
    /// attempt. The row must carry its identity; everything else is the
    /// runner's to choose.
    pub fn append_entry(&mut self, row: &RawRow) -> (r: Result<(), LedgerError>)
        requires
            row@.id is Some,
        ensures
            r is Ok ==> final(self).store.model() == old(self).store.model().upserted(row@),
            r is Err ==> r == Err::<(), LedgerError>(LedgerError::QueryError),
    {
        match self.store.upsert(row) {
            Ok(_) => Ok(()),
            Err(_) => Err(LedgerError::QueryError),
        }
    }

    /// Retrieves the most recently updated schema version record. Exactly one
    /// record is expected to be most recent: zero records or a tie at the
    /// maximum is `IncorrectRowCount`, an anomaly this query does not try to
    /// resolve. Reads only; `QueryError` means storage itself failed the
    /// read.
    pub fn current_version(&mut self) -> (r: Result<VerEntry, LedgerError>)
        ensures
            final(self).store.model() == old(self).store.model(),
            !(r matches Err(LedgerError::QueryError)) ==> ledger_result_view(r)
                == current_version_spec(old(self).store.model().rows),
    {
        let rows = match self.store.fetch_all() {
            Ok(rows) => rows,
            Err(_) => {
                return Err(LedgerError::QueryError);
            },
        };
        current_version_from_rows(&rows)
    }
}

} // verus!
