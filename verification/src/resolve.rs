//! The duplicate resolver: given several records claiming one schema
//! version, it converges the table to the single canonical record — the most
//! recently updated one — without ever losing data irrecoverably.

use vstd::prelude::*;
use crate::codec::{
    construct_row, decode_spec, parsed_instant, updated_instant_of, DecodeErrorV,
};
use crate::ledger::{DbSchemaVer, LedgerError, ResolutionError};
use crate::model::{id_is_not, rows_view, TableModel};
use crate::report::Counters;
use crate::rows::{EntryV, RawRow, RowView, VerEntry};
use crate::seq_util::{
    lemma_filter_all, lemma_filter_empty, lemma_filter_equiv, lemma_filter_filter,
    lemma_filter_push,
};
use crate::storage::Storage;

verus! {

/// Whether a scanned row carries what canonical selection needs: an identity
/// and a parsable `updated` timestamp.
pub open spec fn row_parses(r: RowView) -> bool {
    r.id is Some && parsed_instant(r) is Some
}

/// Whether every scanned row parses.
pub open spec fn all_parse(rows: Seq<RowView>) -> bool {
    forall|i: int| 0 <= i < rows.len() ==> row_parses(#[trigger] rows[i])
}

/// Strict order on parsed rows: by `updated` instant, ties broken by
/// identity.
pub open spec fn row_lt(a: RowView, b: RowView) -> bool {
    let at = parsed_instant(a)->Some_0;
    let bt = parsed_instant(b)->Some_0;
    at < bt || (at == bt && a.id->Some_0 < b.id->Some_0)
}

/// Whether position `i` holds the canonical row of `rows`: the most recently
/// updated, ties broken toward the highest identity; the first such position
/// where identities repeat.
pub open spec fn is_canonical(rows: Seq<RowView>, i: int) -> bool {
    &&& 0 <= i < rows.len()
    &&& forall|j: int| 0 <= j < rows.len() ==> !row_lt(rows[i], #[trigger] rows[j])
    &&& forall|j: int| 0 <= j < i ==> row_lt(#[trigger] rows[j], rows[i])
}

/// The canonical position of `rows`.
pub open spec fn canon_idx(rows: Seq<RowView>) -> int {
    choose|i: int| is_canonical(rows, i)
}

/// The identity of the canonical row of `rows`.
pub open spec fn canon_id(rows: Seq<RowView>) -> i64 {
    rows[canon_idx(rows)].id->Some_0
}

/// At most one position is canonical.
pub proof fn lemma_canonical_unique(rows: Seq<RowView>, i: int, j: int)
    requires
        is_canonical(rows, i),
        is_canonical(rows, j),
    ensures
        i == j,
{
    if i < j {
        assert(row_lt(rows[i], rows[j]));
        assert(!row_lt(rows[i], rows[j]));
    }
    if j < i {
        assert(row_lt(rows[j], rows[i]));
        assert(!row_lt(rows[j], rows[i]));
    }
}

/// Any non-empty sequence of parsed rows has a canonical position.
pub proof fn lemma_canonical_exists(rows: Seq<RowView>)
    requires
        rows.len() >= 1,
        all_parse(rows),
    ensures
        is_canonical(rows, canon_idx(rows)),
    decreases rows.len(),
{
    if rows.len() == 1 {
        assert(is_canonical(rows, 0));
    } else {
        let s = rows.drop_last();
        let x = rows.last();
        let n = rows.len() - 1;
        assert(all_parse(s)) by {
            assert(forall|i: int| 0 <= i < s.len() ==> s[i] == rows[i]);
        }
        lemma_canonical_exists(s);
        let ci = canon_idx(s);
        if row_lt(s[ci], x) {
            assert forall|j: int| 0 <= j < rows.len() implies !row_lt(
                rows[n],
                #[trigger] rows[j],
            ) by {
                if j < n {
                    assert(rows[j] == s[j]);
                    assert(!row_lt(s[ci], s[j]));
                }
            }
            assert forall|j: int| 0 <= j < n implies row_lt(#[trigger] rows[j], rows[n]) by {
                assert(rows[j] == s[j]);
                assert(!row_lt(s[ci], s[j]));
            }
            assert(is_canonical(rows, n));
        } else {
            assert(rows[ci] == s[ci]);
            assert forall|j: int| 0 <= j < rows.len() implies !row_lt(
                rows[ci],
                #[trigger] rows[j],
            ) by {
                if j < n {
                    assert(rows[j] == s[j]);
                    assert(!row_lt(s[ci], s[j]));
                } else {
                    assert(rows[j] == x);
                }
            }
            assert forall|j: int| 0 <= j < ci implies row_lt(#[trigger] rows[j], rows[ci]) by {
                assert(rows[j] == s[j]);
                assert(row_lt(s[j], s[ci]));
            }
            assert(is_canonical(rows, ci));
        }
    }
}

/// Whether `id` is the identity of some row of `rows`.
pub open spec fn id_among(rows: Seq<RowView>, id: Option<i64>) -> bool {
    exists|j: int| 0 <= j < rows.len() && #[trigger] rows[j].id == id
}

proof fn lemma_id_among_push(rows: Seq<RowView>, x: RowView, id: Option<i64>)
    ensures
        id_among(rows.push(x), id) == (id_among(rows, id) || x.id == id),
{
    let t = rows.push(x);
    if id_among(rows, id) {
        let k = choose|k: int| 0 <= k < rows.len() && #[trigger] rows[k].id == id;
        assert(t[k].id == id);
    }
    if x.id == id {
        assert(t[rows.len() as int].id == id);
    }
    if id_among(t, id) {
        let k = choose|k: int| 0 <= k < t.len() && #[trigger] t[k].id == id;
        if k < rows.len() {
            assert(rows[k].id == id);
        } else {
            assert(x.id == id);
        }
    }
}

/// The rows kept once the identities among `dropped`, except the canonical
/// identity `cid`, have been deleted.
pub open spec fn keep_pred(dropped: Seq<RowView>, cid: i64) -> spec_fn(RowView) -> bool {
    |r: RowView| !(id_among(dropped, r.id) && r.id != Some(cid))
}

/// The state after deleting from `m` every identity the scanned rows carry
/// but the canonical one.
pub open spec fn deleted_model(m: TableModel, rows: Seq<RowView>) -> TableModel {
    TableModel { rows: m.rows.filter(keep_pred(rows, canon_id(rows))), ..m }
}

/// How many deletions the resolver attempts over `rows`: one per scanned row
/// whose identity differs from the canonical one.
pub open spec fn noncanon_count(rows: Seq<RowView>) -> int {
    rows.filter(id_is_not(canon_id(rows))).len() as int
}

/// The state after upserting every scanned row back, in scan order.
pub open spec fn restored_model(m: TableModel, rows: Seq<RowView>) -> TableModel
    decreases rows.len(),
{
    if rows.len() == 0 {
        m
    } else {
        restored_model(m.upserted(rows[0]), rows.drop_first())
    }
}

/// Restoring one more row upserts it after the others.
pub proof fn lemma_restored_push(m: TableModel, s: Seq<RowView>, x: RowView)
    ensures
        restored_model(m, s.push(x)) == restored_model(m, s).upserted(x),
    decreases s.len(),
{
    if s.len() == 0 {
        assert(s.push(x).drop_first() =~= Seq::<RowView>::empty());
        assert(s.push(x)[0] == x);
        assert(restored_model(m, s) == m);
        assert(restored_model(m, s.push(x)) == restored_model(
            m.upserted(x),
            Seq::<RowView>::empty(),
        ));
        assert(restored_model(m.upserted(x), Seq::<RowView>::empty()) == m.upserted(x));
    } else {
        assert(s.push(x)[0] == s[0]);
        assert(s.push(x).drop_first() =~= s.drop_first().push(x));
        lemma_restored_push(m.upserted(s[0]), s.drop_first(), x);
        assert(restored_model(m, s.push(x)) == restored_model(
            m.upserted(s[0]),
            s.drop_first().push(x),
        ));
        assert(restored_model(m, s) == restored_model(m.upserted(s[0]), s.drop_first()));
    }
}

/// Deleting an identity that is the canonical one is skipped: the kept rows
/// do not change.
proof fn lemma_keep_skip(s: Seq<RowView>, dropped: Seq<RowView>, x: RowView, cid: i64)
    requires
        x.id == Some(cid),
    ensures
        s.filter(keep_pred(dropped.push(x), cid)) == s.filter(keep_pred(dropped, cid)),
{
    assert forall|i: int| 0 <= i < s.len() implies (keep_pred(dropped, cid)(#[trigger] s[i])
        <==> keep_pred(dropped.push(x), cid)(s[i])) by {
        lemma_id_among_push(dropped, x, s[i].id);
    }
    lemma_filter_equiv(s, keep_pred(dropped, cid), keep_pred(dropped.push(x), cid));
}

/// Deleting one more non-canonical identity filters the kept rows by it.
proof fn lemma_keep_delete(s: Seq<RowView>, dropped: Seq<RowView>, x: RowView, cid: i64, xid: i64)
    requires
        x.id == Some(xid),
        xid != cid,
    ensures
        s.filter(keep_pred(dropped, cid)).filter(id_is_not(xid)) == s.filter(
            keep_pred(dropped.push(x), cid),
        ),
{
    let p = keep_pred(dropped, cid);
    let q = id_is_not(xid);
    let conj = |r: RowView| p(r) && q(r);
    lemma_filter_filter(s, p, q);
    assert forall|i: int| 0 <= i < s.len() implies (conj(#[trigger] s[i]) <==> keep_pred(
        dropped.push(x),
        cid,
    )(s[i])) by {
        lemma_id_among_push(dropped, x, s[i].id);
    }
    lemma_filter_equiv(s, conj, keep_pred(dropped.push(x), cid));
}

/// What resolution's backend guarantees, over the scanned rows it was given:
/// `m0` is the storage state on entry, `m1` on exit.
///
/// A lone scanned row comes back directly and nothing is touched. With two
/// or more, a row that cannot be read aborts everything before any deletion;
/// otherwise every non-canonical identity is deleted, failures counted but
/// tolerated, and success means the canonical row was confirmed still
/// present. Where verification fails instead, every scanned row has been
/// re-upserted and the run ends in `DisappearingVersionRow` regardless of
/// how much restoration succeeded.
pub open spec fn backend_post(
    m0: TableModel,
    rows: Seq<RowView>,
    r: Result<(RawRow, Counters), (ResolutionError, Counters)>,
    m1: TableModel,
) -> bool {
    match r {
        Ok((row, c)) => {
            if rows.len() == 1 {
                row@ == rows[0] && c == Counters::zero() && m1 == m0
            } else {
                &&& rows.len() >= 2
                &&& all_parse(rows)
                &&& is_canonical(rows, canon_idx(rows))
                &&& row@ == rows[canon_idx(rows)]
                &&& c.restores == 0
                &&& c.failed_restores == 0
                &&& c.deletes + c.failed_deletes == noncanon_count(rows)
                &&& m1.contains_id(canon_id(rows))
                &&& (c.failed_deletes == 0 ==> m1 == deleted_model(m0, rows))
            }
        },
        Err((ResolutionError::NoDuplicateRows, c)) => rows.len() == 0 && c == Counters::zero()
            && m1 == m0,
        Err((ResolutionError::DateParseFailure, c)) => rows.len() >= 2 && !all_parse(rows) && c
            == Counters::zero() && m1 == m0,
        Err((ResolutionError::DisappearingVersionRow, c)) => {
            &&& rows.len() >= 2
            &&& all_parse(rows)
            &&& c.deletes + c.failed_deletes == noncanon_count(rows)
            &&& c.restores + c.failed_restores == rows.len()
            &&& (c.failed_deletes == 0 && c.failed_restores == 0 ==> m1 == restored_model(
                deleted_model(m0, rows),
                rows,
            ))
        },
        Err((ResolutionError::QueryFailed, _)) => false,
    }
}

/// What resolution guarantees over the version it scans: either the scan
/// itself failed and nothing changed, or the backend's contract over the
/// rows the version had.
pub open spec fn resolution_post(
    m0: TableModel,
    ver: i64,
    r: Result<(RawRow, Counters), (ResolutionError, Counters)>,
    m1: TableModel,
) -> bool {
    match r {
        Err((ResolutionError::QueryFailed, c)) => c == Counters::zero() && m1 == m0,
        _ => backend_post(m0, m0.rows_for(ver), r, m1),
    }
}

/// What the by-version query guarantees over the version's rows. `m0` is the
/// storage state on entry, `m1` on exit.
///
/// No row is `NotFound`; a lone row is decoded and returned; with more, the
/// duplicate resolver runs, and on its success the canonical row — confirmed
/// still present — is decoded and returned. `QueryError` means the read
/// itself failed, before anything was touched; this query never answers
/// `IncorrectRowCount`.
pub open spec fn by_version_post(
    m0: TableModel,
    ver: i64,
    r: Result<VerEntry, LedgerError>,
    m1: TableModel,
) -> bool {
    let scanned = m0.rows_for(ver);
    match r {
        Ok(e) => {
            if scanned.len() == 1 {
                m1 == m0 && decode_spec(scanned[0]) == Ok::<EntryV, DecodeErrorV>(e@)
            } else {
                &&& scanned.len() >= 2
                &&& all_parse(scanned)
                &&& is_canonical(scanned, canon_idx(scanned))
                &&& decode_spec(scanned[canon_idx(scanned)]) == Ok::<EntryV, DecodeErrorV>(e@)
                &&& m1.contains_id(canon_id(scanned))
            }
        },
        Err(LedgerError::NotFound) => scanned.len() == 0 && m1 == m0,
        Err(LedgerError::IncorrectRowCount) => false,
        Err(LedgerError::QueryError) => m1 == m0,
        Err(LedgerError::RowDecode(d)) => {
            if scanned.len() == 1 {
                m1 == m0 && decode_spec(scanned[0]) == Err::<EntryV, DecodeErrorV>(d@)
            } else {
                &&& scanned.len() >= 2
                &&& all_parse(scanned)
                &&& is_canonical(scanned, canon_idx(scanned))
                &&& decode_spec(scanned[canon_idx(scanned)]) == Err::<EntryV, DecodeErrorV>(d@)
                &&& m1.contains_id(canon_id(scanned))
            }
        },
        Err(LedgerError::DuplicateResolutionFailed(re)) => match re {
            ResolutionError::QueryFailed => scanned.len() >= 2 && m1 == m0,
            ResolutionError::NoDuplicateRows => false,
            ResolutionError::DateParseFailure => scanned.len() >= 2 && !all_parse(scanned) && m1
                == m0,
            ResolutionError::DisappearingVersionRow => scanned.len() >= 2 && all_parse(scanned),
        },
    }
}

/// Reads the selection key out of a scanned row: its identity and `updated`
/// instant.
fn row_key(row: &RawRow) -> (r: Option<(i64, i64)>)
    ensures
        r is Some <==> row_parses(row@),
        r matches Some(k) ==> row@.id == Some(k.0) && parsed_instant(row@) == Some(k.1),
{
    let rid = match row.id {
        Some(v) => v,
        None => {
            return None;
        },
    };
    let t = match updated_instant_of(row) {
        Some(t) => t,
        None => {
            return None;
        },
    };
    Some((rid, t))
}

impl<S: Storage> DbSchemaVer<S> {
    /// Resolves duplicate records among the scanned rows of one version:
    /// picks the canonical row (most recent `updated`, ties to the highest
    /// identity), deletes the others one at a time, verifies the canonical
    /// row survived, and re-inserts everything if it did not.
    pub fn resolve_dup_ver_rows_backend(&mut self, rows: Vec<RawRow>) -> (r: Result<
        (RawRow, Counters),
        (ResolutionError, Counters),
    >)
        ensures
            backend_post(old(self).store.model(), rows_view(rows@), r, final(self).store.model()),
    {
        let ghost m0 = old(self).store.model();
        let ghost rv = rows_view(rows@);
        if rows.len() == 0 {
            return Err((ResolutionError::NoDuplicateRows, Counters::new()));
        }
        if rows.len() == 1 {
            return Ok((rows[0].duplicate(), Counters::new()));
        }

        // Select the canonical row; a row that cannot be read aborts the
        // whole operation before any deletion.
        let (first_id, first_t) = match row_key(&rows[0]) {
            Some(k) => k,
            None => {
                proof {
                    assert(!row_parses(rv[0]));
                }
                return Err((ResolutionError::DateParseFailure, Counters::new()));
            },
        };
        let mut best: usize = 0;
        let mut best_id: i64 = first_id;
        let mut best_t: i64 = first_t;
        let mut i: usize = 1;
        while i < rows.len()
            invariant
                rv == rows_view(rows@),
                rv.len() >= 2,
                1 <= i <= rv.len(),
                best < i,
                forall|k: int| 0 <= k < i ==> row_parses(#[trigger] rv[k]),
                rv[best as int].id == Some(best_id),
                parsed_instant(rv[best as int]) == Some(best_t),
                forall|k: int| 0 <= k < best ==> row_lt(#[trigger] rv[k], rv[best as int]),
                forall|k: int| 0 <= k < i ==> !row_lt(rv[best as int], #[trigger] rv[k]),
            decreases rv.len() - i,
        {
            let (kid, kt) = match row_key(&rows[i]) {
                Some(k) => k,
                None => {
                    proof {
                        assert(!row_parses(rv[i as int]));
                    }
                    return Err((ResolutionError::DateParseFailure, Counters::new()));
                },
            };
            if kt > best_t || (kt == best_t && kid > best_id) {
                proof {
                    assert(row_lt(rv[best as int], rv[i as int]));
                    assert forall|k: int| 0 <= k < i implies row_lt(
                        #[trigger] rv[k],
                        rv[i as int],
                    ) by {
                        assert(!row_lt(rv[best as int], rv[k]));
                    }
                }
                best = i;
                best_id = kid;
                best_t = kt;
            } else {
                proof {
                    assert(!row_lt(rv[best as int], rv[i as int]));
                }
            }
            i += 1;
        }
        proof {
            assert(is_canonical(rv, best as int));
            assert(is_canonical(rv, canon_idx(rv))) by {
                assert(is_canonical(rv, best as int));
            }
            lemma_canonical_unique(rv, canon_idx(rv), best as int);
            assert(canon_id(rv) == best_id);
            assert(all_parse(rv));
        }
        let canonical = rows[best].duplicate();

        // Delete every non-canonical identity, counting failures but not
        // aborting on them: converge as far as safely possible.
        let mut c = Counters::new();
        let mut j: usize = 0;
        proof {
            assert(rv.take(0) =~= Seq::<RowView>::empty());
            lemma_filter_empty(id_is_not(best_id));
            assert forall|k: int| 0 <= k < m0.rows.len() implies keep_pred(rv.take(0), best_id)(
                #[trigger] m0.rows[k],
            ) by {
                assert(!id_among(rv.take(0), m0.rows[k].id));
            }
            lemma_filter_all(m0.rows, keep_pred(rv.take(0), best_id));
            assert(self.store.model() =~= (TableModel {
                rows: m0.rows.filter(keep_pred(rv.take(0), best_id)),
                ..m0
            }));
        }
        while j < rows.len()
            invariant
                rv == rows_view(rows@),
                rv.len() >= 2,
                j <= rv.len(),
                all_parse(rv),
                best < rv.len(),
                rv[best as int].id == Some(best_id),
                is_canonical(rv, best as int),
                canon_idx(rv) == best as int,
                canon_id(rv) == best_id,
                m0 == old(self).store.model(),
                c.restores == 0,
                c.failed_restores == 0,
                c.deletes + c.failed_deletes <= j,
                c.deletes + c.failed_deletes == rv.take(j as int).filter(id_is_not(best_id)).len(),
                c.failed_deletes == 0 ==> self.store.model() == (TableModel {
                    rows: m0.rows.filter(keep_pred(rv.take(j as int), best_id)),
                    ..m0
                }),
            decreases rv.len() - j,
        {
            let rid = match rows[j].id {
                Some(v) => v,
                None => {
                    proof {
                        assert(row_parses(rv[j as int]));
                        assert(false);
                    }
                    return Err((ResolutionError::DateParseFailure, c));
                },
            };
            proof {
                assert(rv[j as int].id == Some(rid));
                assert(rv.take(j + 1) =~= rv.take(j as int).push(rv[j as int]));
                lemma_filter_push(rv.take(j as int), id_is_not(best_id), rv[j as int]);
            }
            if rid == best_id {
                proof {
                    lemma_keep_skip(m0.rows, rv.take(j as int), rv[j as int], best_id);
                }
            } else {
                let ghost pre = self.store.model();
                match self.store.delete_by_id(rid) {
                    Ok(_) => {
                        c.deletes = c.deletes + 1;
                        proof {
                            if c.failed_deletes == 0 {
                                lemma_filter_filter(
                                    m0.rows,
                                    keep_pred(rv.take(j as int), best_id),
                                    id_is_not(rid),
                                );
                                lemma_keep_delete(
                                    m0.rows,
                                    rv.take(j as int),
                                    rv[j as int],
                                    best_id,
                                    rid,
                                );
                                assert(self.store.model() =~= (TableModel {
                                    rows: m0.rows.filter(keep_pred(rv.take(j + 1), best_id)),
                                    ..m0
                                }));
                            }
                        }
                    },
                    Err(_) => {
                        c.failed_deletes = c.failed_deletes + 1;
                    },
                }
            }
            j += 1;
        }
        proof {
            assert(rv.take(rv.len() as int) =~= rv);
            assert(c.deletes + c.failed_deletes == noncanon_count(rv));
            if c.failed_deletes == 0 {
                assert(self.store.model() =~= deleted_model(m0, rv));
            }
        }

        // Verify the canonical row is still there; structurally it must be,
        // but a storage-level fault can invalidate that.
        let verified_present = match self.store.exists_by_id(best_id) {
            Ok(b) => b,
            Err(_) => false,
        };
        if verified_present {
            return Ok((canonical, c));
        }

        // Restore: re-insert every originally scanned record, then fail with
        // `DisappearingVersionRow` regardless of how much restoration
        // succeeded.
        let ghost base = self.store.model();
        let ghost cd = c.deletes;
        let ghost cfd = c.failed_deletes;
        let mut k: usize = 0;
        proof {
            assert(rv.take(0) =~= Seq::<RowView>::empty());
        }
        while k < rows.len()
            invariant
                rv == rows_view(rows@),
                rv.len() >= 2,
                k <= rv.len(),
                all_parse(rv),
                m0 == old(self).store.model(),
                c.deletes == cd,
                c.failed_deletes == cfd,
                cfd == 0 ==> base == deleted_model(m0, rv),
                cd + cfd == noncanon_count(rv),
                c.restores + c.failed_restores == k,
                c.failed_restores == 0 ==> self.store.model() == restored_model(
                    base,
                    rv.take(k as int),
                ),
            decreases rv.len() - k,
        {
            proof {
                assert(row_parses(rv[k as int]));
            }
            match self.store.upsert(&rows[k]) {
                Ok(_) => {
                    c.restores = c.restores + 1;
                    proof {
                        if c.failed_restores == 0 {
                            lemma_restored_push(base, rv.take(k as int), rv[k as int]);
                            assert(rv.take(k + 1) =~= rv.take(k as int).push(rv[k as int]));
                        }
                    }
                },
                Err(_) => {
                    c.failed_restores = c.failed_restores + 1;
                },
            }
            k += 1;
        }
        proof {
            assert(rv.take(rv.len() as int) =~= rv);
        }
        Err((ResolutionError::DisappearingVersionRow, c))
    }

    /// Resolves duplicate records for `ver`: under an advisory lock scoped
    /// to the version, re-fetches the rows claiming it (the caller's row set
    /// may be stale) and hands them to the backend, so that the whole
    /// scan-delete-verify sequence runs as one atomic unit.
    pub fn resolve_dup_ver_rows(&mut self, ver: i64) -> (r: Result<
        (RawRow, Counters),
        (ResolutionError, Counters),
    >)
        ensures
            resolution_post(old(self).store.model(), ver, r, final(self).store.model()),
    {
        match self.store.lock_version(ver) {
            Ok(_) => {},
            Err(_) => {
                return Err((ResolutionError::QueryFailed, Counters::new()));
            },
        }
        let rows = match self.store.fetch_by_version(ver) {
            Ok(rows) => rows,
            Err(_) => {
                self.store.unlock_version(ver);
                return Err((ResolutionError::QueryFailed, Counters::new()));
            },
        };
        let r = self.resolve_dup_ver_rows_backend(rows);
        self.store.unlock_version(ver);
        r
    }

    /// Retrieves the record for schema version `ver`: no row is `NotFound`,
    /// one row is decoded and returned, and two or more are handed to the
    /// duplicate resolver — on its success the canonical row is returned, on
    /// its failure the resolver's error is propagated wrapped in
    /// `DuplicateResolutionFailed`.
    pub fn by_version_num(&mut self, ver: i64) -> (r: Result<VerEntry, LedgerError>)
        ensures
            by_version_post(old(self).store.model(), ver, r, final(self).store.model()),
            final(self).last_report is Some ==> old(self).last_report is Some
                || old(self).store.model().rows_for(ver).len() >= 2,
            old(self).store.model().rows_for(ver).len() >= 2 && !(r matches Err(
                LedgerError::QueryError,
            )) ==> final(self).last_report is Some,
    {
        let ghost m0 = old(self).store.model();
        let ghost scanned = m0.rows_for(ver);
        let rows = match self.store.fetch_by_version(ver) {
            Ok(rows) => rows,
            Err(_) => {
                return Err(LedgerError::QueryError);
            },
        };
        if rows.len() == 0 {
            return Err(LedgerError::NotFound);
        }
        if rows.len() == 1 {
            proof {
                assert(rows_view(rows@)[0] == scanned[0]);
            }
            return match construct_row(&rows[0]) {
                Ok(e) => Ok(e),
                Err(d) => Err(LedgerError::RowDecode(d)),
            };
        }
        match self.resolve_dup_ver_rows(ver) {
            Ok((row, counters)) => {
                self.last_report = Some(counters.summary(true));
                match construct_row(&row) {
                    Ok(e) => Ok(e),
                    Err(d) => Err(LedgerError::RowDecode(d)),
                }
            },
            Err((e, counters)) => {
                proof {
                    assert(!(e is NoDuplicateRows));
                }
                self.last_report = Some(counters.summary(false));
                Err(LedgerError::DuplicateResolutionFailed(e))
            },
        }
    }
}

} // verus!
