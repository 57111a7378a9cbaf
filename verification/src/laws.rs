//! The ledger's laws: what holds of bootstrap, the codec, status mapping and
//! duplicate resolution over all inputs, proved from the specifications the
//! public contracts use.

use vstd::prelude::*;
use crate::codec::{decode_spec, missing_columns_of, row_complete, DecodeErrorV};
use crate::model::{version_is, TableModel};
use crate::resolve::{
    all_parse, canon_id, canon_idx, deleted_model, id_among, is_canonical, keep_pred,
    lemma_canonical_exists,
};
use crate::rows::{EntryV, RowView};
use crate::seq_util::{lemma_filter_elem, lemma_filter_filter, lemma_filter_single};
use crate::status::{ci_eq, ci_eq_char, status_of};

verus! {

/// Bootstrap is idempotent on the storage model: bootstrapping a
/// bootstrapped state changes nothing, and a bootstrapped state holds the
/// one status type and the one table, with the rows untouched.
pub proof fn lemma_bootstrap_idempotent(m: TableModel)
    ensures
        m.bootstrapped().bootstrapped() == m.bootstrapped(),
        m.bootstrapped().has_status_type,
        m.bootstrapped().has_table,
        m.bootstrapped().rows == m.rows,
{
}

/// The row codec rejects any row missing required columns, with
/// `MissingColumns` naming the absent ones.
pub proof fn lemma_codec_rejects_missing(r: RowView)
    requires
        !row_complete(r),
    ensures
        missing_columns_of(r).len() >= 1,
        decode_spec(r) == Err::<EntryV, DecodeErrorV>(
            DecodeErrorV::MissingColumns(missing_columns_of(r)),
        ),
{
}

proof fn lemma_ci_eq_subst(s: Seq<char>, t: Seq<char>, u: Seq<char>)
    requires
        ci_eq(s, t),
    ensures
        ci_eq(s, u) == ci_eq(t, u),
{
    if ci_eq(s, u) {
        assert forall|i: int| 0 <= i < t.len() implies #[trigger] ci_eq_char(t[i], u[i]) by {
            assert(ci_eq_char(s[i], t[i]));
            assert(ci_eq_char(s[i], u[i]));
        }
    }
    if ci_eq(t, u) {
        assert forall|i: int| 0 <= i < s.len() implies #[trigger] ci_eq_char(s[i], u[i]) by {
            assert(ci_eq_char(s[i], t[i]));
            assert(ci_eq_char(t[i], u[i]));
        }
    }
}

/// Status mapping is case-insensitive: texts equal up to ASCII case map to
/// the same status.
pub proof fn lemma_status_case_insensitive(s: Seq<char>, t: Seq<char>)
    requires
        ci_eq(s, t),
    ensures
        status_of(s) == status_of(t),
{
    lemma_ci_eq_subst(s, t, "ongoing"@);
    lemma_ci_eq_subst(s, t, "fail"@);
    lemma_ci_eq_subst(s, t, "success"@);
}

/// Resolution converges, and is idempotent. Over a table whose primary key
/// holds (identities present and unique), once every non-canonical identity
/// of a version's rows is deleted, exactly one record remains for that
/// version: the canonical one, the most recently updated with ties to the
/// highest identity. A second resolution then scans a single row and, by the
/// resolver's contract, returns it untouched with nothing further deleted.
pub proof fn lemma_resolution_converges(m0: TableModel, ver: i64)
    requires
        m0.id_wf(),
        m0.rows_for(ver).len() >= 1,
        all_parse(m0.rows_for(ver)),
    ensures
        is_canonical(m0.rows_for(ver), canon_idx(m0.rows_for(ver))),
        deleted_model(m0, m0.rows_for(ver)).rows_for(ver) == seq![
            m0.rows_for(ver)[canon_idx(m0.rows_for(ver))],
        ],
{
    let scanned = m0.rows_for(ver);
    lemma_canonical_exists(scanned);
    let ci = canon_idx(scanned);
    let crow = scanned[ci];
    let cid = canon_id(scanned);
    assert(crow.id == Some(cid)) by {
        assert(all_parse(scanned));
    }
    assert(version_is(ver)(crow)) by {
        scanned_pred_holds(m0.rows, ver, ci);
    }

    // The canonical row stands somewhere in the table.
    lemma_filter_elem(m0.rows, version_is(ver), ci);
    let w = choose|i: int| 0 <= i < m0.rows.len() && #[trigger] m0.rows[i] == crow;

    let keep = keep_pred(scanned, cid);
    let p = version_is(ver);
    lemma_filter_filter(m0.rows, keep, p);
    let conj = |r: RowView| keep(r) && p(r);

    // Exactly the canonical row satisfies both: it claims the version and
    // keeps its identity.
    assert(conj(m0.rows[w]));
    assert forall|j: int| 0 <= j < m0.rows.len() && j != w implies !conj(#[trigger] m0.rows[j]) by {
        if p(m0.rows[j]) {
            // a surviving row of this version would share the canonical
            // identity, so by the primary key it would be the canonical row
            if !(id_among(scanned, m0.rows[j].id) && m0.rows[j].id != Some(cid)) {
                scanned_row_is_among(m0.rows, ver, j);
                assert(m0.rows[j].id == Some(cid));
                assert(m0.rows[j].id != m0.rows[w].id);
            }
        }
    }
    lemma_filter_single(m0.rows, conj, w);
    assert(deleted_model(m0, scanned).rows_for(ver) =~= seq![crow]);
}

/// A row of the table claiming the scanned version stands among the scanned
/// rows.
proof fn scanned_row_is_among(rows: Seq<RowView>, ver: i64, j: int)
    requires
        0 <= j < rows.len(),
        version_is(ver)(rows[j]),
    ensures
        id_among(rows.filter(version_is(ver)), rows[j].id),
{
    rows.lemma_filter_contains(version_is(ver), j);
    let scanned = rows.filter(version_is(ver));
    assert(scanned.contains(rows[j]));
    let k = choose|k: int| 0 <= k < scanned.len() && scanned[k] == rows[j];
    assert(scanned[k].id == rows[j].id);
}

/// Each scanned row claims the scanned version.
proof fn scanned_pred_holds(rows: Seq<RowView>, ver: i64, i: int)
    requires
        0 <= i < rows.filter(version_is(ver)).len(),
    ensures
        version_is(ver)(rows.filter(version_is(ver))[i]),
{
    rows.lemma_filter_pred(version_is(ver), i);
}

} // verus!
