//! The spec-level model of the ledger's storage: the schema objects and the
//! `schema_versions` table as a sequence of raw rows.

use vstd::prelude::*;
use crate::rows::{RawRow, RowView};

verus! {

/// The view of a sequence of raw rows.
pub open spec fn rows_view(rows: Seq<RawRow>) -> Seq<RowView> {
    rows.map_values(|r: RawRow| r@)
}

/// The predicate selecting rows that claim schema version `ver`.
pub open spec fn version_is(ver: i64) -> spec_fn(RowView) -> bool {
    |r: RowView| r.version == Some(ver)
}

/// The predicate selecting rows whose identity is not `id`.
pub open spec fn id_is_not(id: i64) -> spec_fn(RowView) -> bool {
    |r: RowView| r.id != Some(id)
}

/// The map replacing every row that shares `row`'s identity by `row`.
pub open spec fn replaced_by(row: RowView) -> spec_fn(RowView) -> RowView {
    |r: RowView| if r.id == row.id {
        row
    } else {
        r
    }
}

/// Spec-level state of the ledger's storage: whether the status enumeration
/// type and the `schema_versions` table exist, and the table's rows in
/// storage order.
#[verifier::ext_equal]
pub ghost struct TableModel {
    pub has_status_type: bool,
    pub has_table: bool,
    pub rows: Seq<RowView>,
}

impl TableModel {
    /// The state before bootstrap, with no rows.
    pub open spec fn empty() -> TableModel {
        TableModel { has_status_type: false, has_table: false, rows: Seq::empty() }
    }

    /// The state in which both schema objects exist and the rows are as
    /// given.
    pub open spec fn bootstrapped(self) -> TableModel {
        TableModel { has_status_type: true, has_table: true, rows: self.rows }
    }

    /// The state after the status enumeration type exists.
    pub open spec fn with_status_type(self) -> TableModel {
        TableModel { has_status_type: true, ..self }
    }

    /// The state after the `schema_versions` table exists.
    pub open spec fn with_table(self) -> TableModel {
        TableModel { has_table: true, ..self }
    }

    /// The state after `row` is appended.
    pub open spec fn with_row(self, row: RowView) -> TableModel {
        TableModel { rows: self.rows.push(row), ..self }
    }

    /// The rows claiming schema version `ver`, in storage order.
    pub open spec fn rows_for(self, ver: i64) -> Seq<RowView> {
        self.rows.filter(version_is(ver))
    }

    /// The state after every row with identity `id` is gone.
    pub open spec fn without_id(self, id: i64) -> TableModel {
        TableModel { rows: self.rows.filter(id_is_not(id)), ..self }
    }

    /// Whether some row has identity `id`.
    pub open spec fn contains_id(self, id: i64) -> bool {
        exists|i: int| 0 <= i < self.rows.len() && #[trigger] self.rows[i].id == Some(id)
    }

    /// The state after `row` is upserted, keyed by its identity: every row
    /// sharing its identity is replaced in place, else the row is appended.
    pub open spec fn upserted(self, row: RowView) -> TableModel {
        if exists|i: int| 0 <= i < self.rows.len() && #[trigger] self.rows[i].id == row.id {
            TableModel { rows: self.rows.map_values(replaced_by(row)), ..self }
        } else {
            TableModel { rows: self.rows.push(row), ..self }
        }
    }

    /// What the table's primary key guarantees: every row carries an
    /// identity, and no identity repeats.
    pub open spec fn id_wf(self) -> bool {
        &&& forall|i: int| 0 <= i < self.rows.len() ==> (#[trigger] self.rows[i].id) is Some
        &&& forall|i: int, j: int|
            0 <= i < self.rows.len() && 0 <= j < self.rows.len() && i != j
                ==> (#[trigger] self.rows[i].id) != (#[trigger] self.rows[j].id)
    }
}

} // verus!
