//! An in-memory ledger storage. It gives callers and tests a fully verified
//! backend, and lets storage-level faults be injected so the resolver's
//! failure handling can be exercised.

use vstd::prelude::*;
use crate::model::{id_is_not, replaced_by, rows_view, version_is, TableModel};
use crate::rows::{RawRow, RowView};
use crate::seq_util::{lemma_filter_empty, lemma_filter_push};
use crate::storage::Storage;

verus! {

/// In-memory ledger storage: the schema objects as flags and the table as a
/// vector of raw rows, plus the faults injected into it.
#[derive(Debug)]
pub struct MemDb {
    has_status_type: bool,
    has_table: bool,
    rows: Vec<RawRow>,
    fail_get_db_name: bool,
    fail_create_status_type: bool,
    fail_create_table: bool,
    fail_fetch: bool,
    fail_delete_ids: Vec<i64>,
    corrupt_deletes: Vec<(i64, i64)>,
    fail_upsert_ids: Vec<i64>,
}

fn id_list_contains(v: &Vec<i64>, x: i64) -> bool {
    let mut i: usize = 0;
    let mut found = false;
    while i < v.len()
        decreases v.len() - i,
    {
        if v[i] == x {
            found = true;
        }
        i += 1;
    }
    found
}

fn corrupt_victim(v: &Vec<(i64, i64)>, x: i64) -> Option<i64> {
    let mut i: usize = 0;
    let mut victim: Option<i64> = None;
    while i < v.len()
        decreases v.len() - i,
    {
        if v[i].0 == x {
            victim = Some(v[i].1);
        }
        i += 1;
    }
    victim
}

fn opt_id_eq(a: Option<i64>, b: Option<i64>) -> (r: bool)
    ensures
        r == (a == b),
{
    match (a, b) {
        (Some(x), Some(y)) => x == y,
        (None, None) => true,
        _ => false,
    }
}

/// Whether some row of `rows` has identity `id`.
fn scan_for_id(rows: &Vec<RawRow>, id: i64) -> (b: bool)
    ensures
        b == exists|i: int|
            0 <= i < rows_view(rows@).len() && #[trigger] rows_view(rows@)[i].id == Some(id),
{
    let mut i: usize = 0;
    while i < rows.len()
        invariant
            i <= rows@.len(),
            forall|j: int| 0 <= j < i ==> #[trigger] rows_view(rows@)[j].id != Some(id),
        decreases rows@.len() - i,
    {
        let matches_id = match rows[i].id {
            Some(v) => v == id,
            None => false,
        };
        if matches_id {
            proof {
                assert(rows_view(rows@)[i as int].id == Some(id));
            }
            return true;
        }
        proof {
            assert(rows_view(rows@)[i as int].id != Some(id));
        }
        i += 1;
    }
    false
}

/// A copy of `rows` with every row of identity `id` dropped.
fn rows_without_id(rows: &Vec<RawRow>, id: i64) -> (kept: Vec<RawRow>)
    ensures
        rows_view(kept@) == rows_view(rows@).filter(id_is_not(id)),
{
    let ghost all = rows_view(rows@);
    let mut kept: Vec<RawRow> = Vec::new();
    let mut i: usize = 0;
    proof {
        lemma_filter_empty(id_is_not(id));
        assert(all.subrange(0, 0) =~= Seq::<RowView>::empty());
    }
    while i < rows.len()
        invariant
            i <= rows@.len(),
            all == rows_view(rows@),
            rows_view(kept@) == all.subrange(0, i as int).filter(id_is_not(id)),
        decreases rows@.len() - i,
    {
        let ghost prefix = all.subrange(0, i as int);
        let keep = match rows[i].id {
            Some(v) => v != id,
            None => true,
        };
        proof {
            assert(all.subrange(0, i + 1) =~= prefix.push(all[i as int]));
            lemma_filter_push(prefix, id_is_not(id), all[i as int]);
            assert(keep == id_is_not(id)(all[i as int]));
        }
        if keep {
            let d = rows[i].duplicate();
            let ghost pre = kept@;
            kept.push(d);
            proof {
                assert(rows_view(kept@) =~= rows_view(pre).push(all[i as int]));
            }
        }
        i += 1;
    }
    proof {
        assert(all.subrange(0, all.len() as int) =~= all);
    }
    kept
}

/// A copy of `rows` keeping only the rows that claim schema version `ver`.
fn rows_matching_version(rows: &Vec<RawRow>, ver: i64) -> (out: Vec<RawRow>)
    ensures
        rows_view(out@) == rows_view(rows@).filter(version_is(ver)),
{
    let ghost all = rows_view(rows@);
    let mut out: Vec<RawRow> = Vec::new();
    let mut i: usize = 0;
    proof {
        lemma_filter_empty(version_is(ver));
        assert(all.subrange(0, 0) =~= Seq::<RowView>::empty());
    }
    while i < rows.len()
        invariant
            i <= rows@.len(),
            all == rows_view(rows@),
            rows_view(out@) == all.subrange(0, i as int).filter(version_is(ver)),
        decreases rows@.len() - i,
    {
        let ghost prefix = all.subrange(0, i as int);
        let keep = match rows[i].version {
            Some(v) => v == ver,
            None => false,
        };
        proof {
            assert(all.subrange(0, i + 1) =~= prefix.push(all[i as int]));
            lemma_filter_push(prefix, version_is(ver), all[i as int]);
            assert(keep == version_is(ver)(all[i as int]));
        }
        if keep {
            let d = rows[i].duplicate();
            let ghost pre = out@;
            out.push(d);
            proof {
                assert(rows_view(out@) =~= rows_view(pre).push(all[i as int]));
            }
        }
        i += 1;
    }
    proof {
        assert(all.subrange(0, all.len() as int) =~= all);
    }
    out
}

/// A copy of `rows` with the same content.
fn rows_duplicated(rows: &Vec<RawRow>) -> (out: Vec<RawRow>)
    ensures
        rows_view(out@) == rows_view(rows@),
{
    let ghost all = rows_view(rows@);
    let mut out: Vec<RawRow> = Vec::new();
    let mut i: usize = 0;
    while i < rows.len()
        invariant
            i <= rows@.len(),
            all == rows_view(rows@),
            rows_view(out@) == all.subrange(0, i as int),
        decreases rows@.len() - i,
    {
        let d = rows[i].duplicate();
        let ghost pre = out@;
        out.push(d);
        proof {
            assert(rows_view(out@) =~= rows_view(pre).push(all[i as int]));
            assert(all.subrange(0, i + 1) =~= all.subrange(0, i as int).push(all[i as int]));
        }
        i += 1;
    }
    proof {
        assert(all.subrange(0, all.len() as int) =~= all);
    }
    out
}

/// A copy of `rows` with every row sharing `row`'s identity replaced by
/// `row`.
fn rows_replacing(rows: &Vec<RawRow>, row: &RawRow) -> (out: Vec<RawRow>)
    ensures
        rows_view(out@) == rows_view(rows@).map_values(replaced_by(row@)),
{
    let ghost all = rows_view(rows@);
    let ghost rep = replaced_by(row@);
    let mut out: Vec<RawRow> = Vec::new();
    let mut i: usize = 0;
    while i < rows.len()
        invariant
            i <= rows@.len(),
            all == rows_view(rows@),
            rep == replaced_by(row@),
            rows_view(out@) == all.subrange(0, i as int).map_values(rep),
        decreases rows@.len() - i,
    {
        let same = opt_id_eq(rows[i].id, row.id);
        let d = if same {
            row.duplicate()
        } else {
            rows[i].duplicate()
        };
        let ghost pre = out@;
        out.push(d);
        proof {
            assert(d@ == rep(all[i as int]));
            assert(rows_view(out@) =~= rows_view(pre).push(d@));
            assert(all.subrange(0, i + 1).map_values(rep) =~= all.subrange(
                0,
                i as int,
            ).map_values(rep).push(rep(all[i as int])));
        }
        i += 1;
    }
    proof {
        assert(all.subrange(0, all.len() as int) =~= all);
        assert(all.subrange(0, all.len() as int).map_values(rep) =~= all.map_values(rep));
    }
    out
}

impl Storage for MemDb {
    closed spec fn model(&self) -> TableModel {
        TableModel {
            has_status_type: self.has_status_type,
            has_table: self.has_table,
            rows: rows_view(self.rows@),
        }
    }

    fn get_db_name(&mut self) -> (r: Result<String, ()>) {
        if self.fail_get_db_name {
            Err(())
        } else {
            Ok("memdb".to_owned())
        }
    }

    fn create_status_type(&mut self) -> (r: Result<(), ()>) {
        if self.fail_create_status_type {
            return Err(());
        }
        self.has_status_type = true;
        proof {
            assert(self.model() =~= old(self).model().with_status_type());
        }
        Ok(())
    }

    fn create_table(&mut self) -> (r: Result<(), ()>) {
        if self.fail_create_table {
            return Err(());
        }
        self.has_table = true;
        proof {
            assert(self.model() =~= old(self).model().with_table());
        }
        Ok(())
    }

    fn fetch_all(&mut self) -> (r: Result<Vec<RawRow>, ()>) {
        if self.fail_fetch {
            return Err(());
        }
        Ok(rows_duplicated(&self.rows))
    }

    fn fetch_by_version(&mut self, ver: i64) -> (r: Result<Vec<RawRow>, ()>) {
        if self.fail_fetch {
            return Err(());
        }
        Ok(rows_matching_version(&self.rows, ver))
    }

    fn delete_by_id(&mut self, id: i64) -> (r: Result<(), ()>) {
        if id_list_contains(&self.fail_delete_ids, id) {
            return Err(());
        }
        match corrupt_victim(&self.corrupt_deletes, id) {
            Some(victim) => {
                let kept = rows_without_id(&self.rows, id);
                let kept = rows_without_id(&kept, victim);
                self.rows = kept;
                Err(())
            },
            None => {
                let kept = rows_without_id(&self.rows, id);
                self.rows = kept;
                proof {
                    assert(self.model() =~= old(self).model().without_id(id));
                }
                Ok(())
            },
        }
    }

    fn exists_by_id(&mut self, id: i64) -> (r: Result<bool, ()>) {
        let b = scan_for_id(&self.rows, id);
        Ok(b)
    }

    fn lock_version(&mut self, _ver: i64) -> (r: Result<(), ()>) {
        Ok(())
    }

    fn unlock_version(&mut self, _ver: i64) {
    }

    fn upsert(&mut self, row: &RawRow) -> (r: Result<(), ()>) {
        let rid = match row.id {
            Some(v) => v,
            None => {
                return Err(());
            },
        };
        if id_list_contains(&self.fail_upsert_ids, rid) {
            return Err(());
        }
        if scan_for_id(&self.rows, rid) {
            let out = rows_replacing(&self.rows, row);
            proof {
                let m = old(self).model();
                let wi = choose|i: int|
                    0 <= i < rows_view(self.rows@).len() && #[trigger] rows_view(
                        self.rows@,
                    )[i].id == Some(rid);
                assert(m.rows[wi].id == row@.id);
                assert(m.upserted(row@).rows == m.rows.map_values(replaced_by(row@)));
            }
            self.rows = out;
            proof {
                assert(self.model() =~= old(self).model().upserted(row@));
            }
            Ok(())
        } else {
            let d = row.duplicate();
            let ghost pre = self.rows@;
            self.rows.push(d);
            proof {
                let m = old(self).model();
                assert(forall|i: int| 0 <= i < m.rows.len() ==> (#[trigger] m.rows[i].id) != row@.id);
                assert(rows_view(self.rows@) =~= rows_view(pre).push(row@));
                assert(self.model() =~= old(self).model().upserted(row@));
            }
            Ok(())
        }
    }
}

impl MemDb {
    /// A fresh storage: no schema objects, no rows, no injected faults.
    pub fn new() -> (db: MemDb)
        ensures
            db.model() == TableModel::empty(),
    {
        let db = MemDb {
            has_status_type: false,
            has_table: false,
            rows: Vec::new(),
            fail_get_db_name: false,
            fail_create_status_type: false,
            fail_create_table: false,
            fail_fetch: false,
            fail_delete_ids: Vec::new(),
            corrupt_deletes: Vec::new(),
            fail_upsert_ids: Vec::new(),
        };
        proof {
            assert(db.model() =~= TableModel::empty());
        }
        db
    }

    /// Appends `row` to the table, as the record-creation path owned by the
    /// migration runner does.
    pub fn push_row(&mut self, row: RawRow)
        ensures
            final(self).model() == old(self).model().with_row(row@),
    {
        let ghost pre = self.rows@;
        self.rows.push(row);
        proof {
            assert(self.model() =~= old(self).model().with_row(self.rows@.last()@));
        }
    }

    /// Makes the database-name query fail from now on.
    pub fn inject_db_name_failure(&mut self)
        ensures
            final(self).model() == old(self).model(),
    {
        self.fail_get_db_name = true;
    }

    /// Makes creating the status enumeration type fail from now on.
    pub fn inject_create_status_type_failure(&mut self)
        ensures
            final(self).model() == old(self).model(),
    {
        self.fail_create_status_type = true;
    }

    /// Makes creating the `schema_versions` table fail from now on.
    pub fn inject_create_table_failure(&mut self)
        ensures
            final(self).model() == old(self).model(),
    {
        self.fail_create_table = true;
    }

    /// Makes row queries fail from now on.
    pub fn inject_fetch_failure(&mut self)
        ensures
            final(self).model() == old(self).model(),
    {
        self.fail_fetch = true;
    }

    /// Makes deletes of identity `id` fail, leaving the table unchanged.
    pub fn inject_delete_failure(&mut self, id: i64)
        ensures
            final(self).model() == old(self).model(),
    {
        self.fail_delete_ids.push(id);
    }

    /// Makes deletes of identity `id` report failure after a storage fault
    /// that also loses every row of identity `victim`.
    pub fn inject_delete_corruption(&mut self, id: i64, victim: i64)
        ensures
            final(self).model() == old(self).model(),
    {
        self.corrupt_deletes.push((id, victim));
    }

    /// Makes upserts keyed by identity `id` fail, leaving the table
    /// unchanged.
    pub fn inject_upsert_failure(&mut self, id: i64)
        ensures
            final(self).model() == old(self).model(),
    {
        self.fail_upsert_ids.push(id);
    }

    /// Whether the status enumeration type exists.
    pub fn status_type_exists(&self) -> (b: bool)
        ensures
            b == self.model().has_status_type,
    {
        self.has_status_type
    }

    /// Whether the `schema_versions` table exists.
    pub fn table_exists(&self) -> (b: bool)
        ensures
            b == self.model().has_table,
    {
        self.has_table
    }

    /// How many rows the table holds.
    pub fn row_count(&self) -> (n: usize)
        ensures
            n == self.model().rows.len(),
    {
        self.rows.len()
    }

    /// The row at position `i`, in storage order.
    pub fn row_at(&self, i: usize) -> (r: &RawRow)
        requires
            i < self.model().rows.len(),
        ensures
            r@ == self.model().rows[i as int],
    {
        &self.rows[i]
    }

    /// Whether some row has identity `id`.
    pub fn has_row(&self, id: i64) -> (b: bool)
        ensures
            b == self.model().contains_id(id),
    {
        scan_for_id(&self.rows, id)
    }
}

} // verus!
