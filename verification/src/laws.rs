//! The migration's governing laws, proved over the table model: the
//! round trip restores the table exactly, applying backfills every existing
//! row with the fixed timestamp, reverting removes exactly the two timestamp
//! columns, and applying twice fails with a duplicate-column error.

use vstd::prelude::*;

use crate::commands::SchemaError;
use crate::commands::lemma_drop_preserves_wf;
use crate::commands::lemma_model_drop_at;
use crate::commands::model_add;
use crate::commands::model_drop;
use crate::migration::DEFAULT_BACKFILL_TIMESTAMP;
use crate::migration::GroupTimestamps;
use crate::migration::spec_apply;
use crate::migration::spec_revert;
use crate::table::ColumnDef;
use crate::table::ColumnId;
use crate::table::TableModel;
use crate::table::TableRef;
use crate::table::Value;
use crate::table::col_index_of;
use crate::table::lemma_col_index_at;
use crate::table::spec_cell;
use crate::table::spec_column_of;
use crate::table::spec_has_column;

verus! {

/// On any well-formed `group` table without the two timestamp columns,
/// applying the migration succeeds, reverting the result succeeds, and the
/// table comes back exactly as it was: same columns, same rows.
pub proof fn lemma_apply_then_revert_restores(m: TableModel)
    requires
        m.wf(),
        m.name == TableRef::Group,
        !spec_has_column(m.cols, ColumnId::CreatedAt),
        !spec_has_column(m.cols, ColumnId::UpdatedAt),
    ensures
        spec_apply(m) is Ok,
        spec_revert(spec_apply(m)->Ok_0) is Ok,
        spec_revert(spec_apply(m)->Ok_0)->Ok_0 == m,
{
    let n = m.cols.len() as int;
    let cdef = GroupTimestamps::CreatedAt.spec_column_def();
    let udef = GroupTimestamps::UpdatedAt.spec_column_def();
    let ts = Value::Int(DEFAULT_BACKFILL_TIMESTAMP);
    let m2 = model_add(model_add(m, cdef), udef);
    assert(spec_apply(m) == Ok::<TableModel, SchemaError>(m2));
    assert(m2.cols.len() == n + 2);
    assert(m2.cols[n] == cdef);
    assert(m2.cols[n + 1] == udef);
    assert(spec_has_column(m2.cols, ColumnId::UpdatedAt));
    assert forall|j: int|
        0 <= j < m2.cols.len() && j != n + 1 implies m2.cols[j].id != ColumnId::UpdatedAt by {
        if j < n {
            assert(m2.cols[j] == m.cols[j]);
        } else {
            assert(m2.cols[j] == cdef);
        }
    }
    lemma_model_drop_at(m2, ColumnId::UpdatedAt, n + 1);
    let m3 = model_drop(m2, ColumnId::UpdatedAt);
    assert(m3.cols =~= m.cols.push(cdef));
    assert(m3.cols[n] == cdef);
    assert(spec_has_column(m3.cols, ColumnId::CreatedAt));
    assert forall|j: int|
        0 <= j < m3.cols.len() && j != n implies m3.cols[j].id != ColumnId::CreatedAt by {
        assert(m3.cols[j] == m.cols[j]);
    }
    lemma_model_drop_at(m3, ColumnId::CreatedAt, n);
    let m4 = model_drop(m3, ColumnId::CreatedAt);
    assert(spec_revert(m2) == Ok::<TableModel, SchemaError>(m4));
    assert(m4.cols =~= m.cols);
    assert forall|k: int| 0 <= k < m.rows.len() implies m4.rows[k] == m.rows[k] by {
        assert(m.rows[k].len() == n);
        assert(m2.rows[k] == m.rows[k].push(ts).push(ts));
        assert(m3.rows[k] == m2.rows[k].remove(n + 1));
        assert(m3.rows[k] =~= m.rows[k].push(ts));
        assert(m4.rows[k] == m3.rows[k].remove(n));
        assert(m4.rows[k] =~= m.rows[k]);
    }
    assert(m4 =~~= m);
}

/// After a successful `apply` on a well-formed `group` table, the table has
/// the same rows it had, and every one of them holds the fixed backfill
/// timestamp in `created_at` and in `updated_at`; neither column is
/// nullable.
pub proof fn lemma_apply_backfills_every_row(m: TableModel)
    requires
        m.wf(),
        m.name == TableRef::Group,
        !spec_has_column(m.cols, ColumnId::CreatedAt),
        !spec_has_column(m.cols, ColumnId::UpdatedAt),
    ensures
        spec_apply(m) is Ok,
        spec_apply(m)->Ok_0.rows.len() == m.rows.len(),
        !spec_column_of(spec_apply(m)->Ok_0.cols, ColumnId::CreatedAt).nullable,
        !spec_column_of(spec_apply(m)->Ok_0.cols, ColumnId::UpdatedAt).nullable,
        forall|r: int|
            0 <= r < m.rows.len() ==> spec_cell(spec_apply(m)->Ok_0, r, ColumnId::CreatedAt)
                == Value::Int(DEFAULT_BACKFILL_TIMESTAMP),
        forall|r: int|
            0 <= r < m.rows.len() ==> spec_cell(spec_apply(m)->Ok_0, r, ColumnId::UpdatedAt)
                == Value::Int(DEFAULT_BACKFILL_TIMESTAMP),
{
    let n = m.cols.len() as int;
    let cdef = GroupTimestamps::CreatedAt.spec_column_def();
    let udef = GroupTimestamps::UpdatedAt.spec_column_def();
    let ts = Value::Int(DEFAULT_BACKFILL_TIMESTAMP);
    let m2 = model_add(model_add(m, cdef), udef);
    assert(spec_apply(m) == Ok::<TableModel, SchemaError>(m2));
    assert(m2.cols[n] == cdef);
    assert(m2.cols[n + 1] == udef);
    assert forall|j: int|
        0 <= j < m2.cols.len() && j != n implies m2.cols[j].id != ColumnId::CreatedAt by {
        if j < n {
            assert(m2.cols[j] == m.cols[j]);
        } else {
            assert(m2.cols[j] == udef);
        }
    }
    lemma_col_index_at(m2.cols, ColumnId::CreatedAt, n);
    assert forall|j: int|
        0 <= j < m2.cols.len() && j != n + 1 implies m2.cols[j].id != ColumnId::UpdatedAt by {
        if j < n {
            assert(m2.cols[j] == m.cols[j]);
        } else {
            assert(m2.cols[j] == cdef);
        }
    }
    lemma_col_index_at(m2.cols, ColumnId::UpdatedAt, n + 1);
    assert forall|r: int|
        0 <= r < m.rows.len() implies spec_cell(m2, r, ColumnId::CreatedAt) == ts && spec_cell(
        m2,
        r,
        ColumnId::UpdatedAt,
    ) == ts by {
        assert(m.rows[r].len() == n);
        assert(m2.rows[r] == m.rows[r].push(ts).push(ts));
    }
}

/// On any well-formed `group` table with both timestamp columns present,
/// `revert` succeeds and removes exactly the two columns — `updated_at`
/// first, then `created_at` — and the value at their positions in every
/// row; every other column and value survives, in order.
pub proof fn lemma_revert_removes_exactly_the_two(m: TableModel)
    requires
        m.wf(),
        m.name == TableRef::Group,
        spec_has_column(m.cols, ColumnId::CreatedAt),
        spec_has_column(m.cols, ColumnId::UpdatedAt),
    ensures
        spec_revert(m) is Ok,
        ({
            let r = spec_revert(m)->Ok_0;
            let iu = col_index_of(m.cols, ColumnId::UpdatedAt);
            let ic = col_index_of(m.cols.remove(iu), ColumnId::CreatedAt);
            &&& r.name == m.name
            &&& r.cols == m.cols.remove(iu).remove(ic)
            &&& r.cols.len() == m.cols.len() - 2
            &&& !spec_has_column(r.cols, ColumnId::UpdatedAt)
            &&& !spec_has_column(r.cols, ColumnId::CreatedAt)
            &&& r.rows.len() == m.rows.len()
            &&& forall|k: int|
                0 <= k < m.rows.len() ==> (#[trigger] r.rows[k]) == m.rows[k].remove(iu).remove(ic)
        }),
{
    let iu0 = choose|i: int| 0 <= i < m.cols.len() && m.cols[i].id == ColumnId::UpdatedAt;
    assert forall|j: int|
        0 <= j < m.cols.len() && j != iu0 implies m.cols[j].id != ColumnId::UpdatedAt by {}
    lemma_col_index_at(m.cols, ColumnId::UpdatedAt, iu0);
    let iu = col_index_of(m.cols, ColumnId::UpdatedAt);
    lemma_model_drop_at(m, ColumnId::UpdatedAt, iu);
    lemma_drop_preserves_wf(m, ColumnId::UpdatedAt);
    let m1 = model_drop(m, ColumnId::UpdatedAt);
    assert(m1.cols == m.cols.remove(iu));
    let ic0 = choose|i: int| 0 <= i < m.cols.len() && m.cols[i].id == ColumnId::CreatedAt;
    let ic1: int = if ic0 < iu {
        ic0
    } else {
        ic0 - 1
    };
    assert(m1.cols[ic1] == m.cols[ic0]);
    assert(spec_has_column(m1.cols, ColumnId::CreatedAt));
    assert forall|j: int|
        0 <= j < m1.cols.len() && j != ic1 implies m1.cols[j].id != ColumnId::CreatedAt by {
        let j0: int = if j < iu {
            j
        } else {
            j + 1
        };
        assert(m1.cols[j] == m.cols[j0]);
    }
    lemma_col_index_at(m1.cols, ColumnId::CreatedAt, ic1);
    let ic = col_index_of(m1.cols, ColumnId::CreatedAt);
    lemma_model_drop_at(m1, ColumnId::CreatedAt, ic);
    lemma_drop_preserves_wf(m1, ColumnId::CreatedAt);
    let m2 = model_drop(m1, ColumnId::CreatedAt);
    assert(spec_revert(m) == Ok::<TableModel, SchemaError>(m2));
    assert forall|j: int|
        0 <= j < m2.cols.len() implies m2.cols[j].id != ColumnId::UpdatedAt && m2.cols[j].id
        != ColumnId::CreatedAt by {
        let j1: int = if j < ic {
            j
        } else {
            j + 1
        };
        assert(m2.cols[j] == m1.cols[j1]);
        let j0: int = if j1 < iu {
            j1
        } else {
            j1 + 1
        };
        assert(m1.cols[j1] == m.cols[j0]);
        assert(j0 != iu && j0 != ic0);
    }
    assert forall|k: int|
        0 <= k < m.rows.len() implies (#[trigger] m2.rows[k]) == m.rows[k].remove(iu).remove(
        ic,
    ) by {
        assert(m1.rows[k] == m.rows[k].remove(iu));
        assert(m2.rows[k] == m1.rows[k].remove(ic));
    }
}

/// Applying the migration twice without an intervening revert fails: the
/// second `apply` returns the duplicate-column error for `created_at` and
/// changes nothing.
pub proof fn lemma_apply_twice_fails(m: TableModel)
    requires
        spec_apply(m) is Ok,
    ensures
        spec_apply(spec_apply(m)->Ok_0) == Err::<TableModel, SchemaError>(
            SchemaError::DuplicateColumn(ColumnId::CreatedAt),
        ),
{
    let n = m.cols.len() as int;
    let cdef = GroupTimestamps::CreatedAt.spec_column_def();
    let udef = GroupTimestamps::UpdatedAt.spec_column_def();
    let m2 = model_add(model_add(m, cdef), udef);
    assert(spec_apply(m) == Ok::<TableModel, SchemaError>(m2));
    assert(m2.cols[n] == cdef);
    assert(spec_has_column(m2.cols, ColumnId::CreatedAt));
}

} // verus!
