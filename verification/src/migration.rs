//! The migration that adds the `created_at` and `updated_at` timestamp
//! columns to the `group` table.
//!
//! `apply` adds the two integer, not-null columns, in that order, each with
//! the fixed backfill timestamp as default; `revert` drops them again, in
//! reverse order. `spec_apply` and `spec_revert` give the closed form of
//! what each operation does to the table model.

use vstd::prelude::*;

use crate::commands::AlterCommand;
use crate::commands::AlterOp;
use crate::commands::SchemaError;
use crate::commands::backfill_wf;
use crate::commands::model_add;
use crate::commands::model_drop;
use crate::commands::model_step;
use crate::commands::spec_run;
use crate::table::ColumnDef;
use crate::table::ColumnId;
use crate::table::ColumnType;
use crate::table::Table;
use crate::table::TableModel;
use crate::table::TableRef;
use crate::table::Value;
use crate::table::spec_has_column;

verus! {

/// The fixed epoch timestamp backfilled into existing rows when the two
/// columns are added.
pub const DEFAULT_BACKFILL_TIMESTAMP: i64 = 1725868800;

/// The closed set of columns this migration manages.
#[derive(Clone, Copy, PartialEq, Eq, Structural, Debug)]
pub enum GroupTimestamps {
    CreatedAt,
    UpdatedAt,
}

impl GroupTimestamps {
    /// The column identifier this entry stands for.
    pub open spec fn spec_column_id(self) -> ColumnId {
        match self {
            GroupTimestamps::CreatedAt => ColumnId::CreatedAt,
            GroupTimestamps::UpdatedAt => ColumnId::UpdatedAt,
        }
    }

    /// The full definition of this column: integer, not null, with the
    /// fixed backfill timestamp as default.
    pub open spec fn spec_column_def(self) -> ColumnDef {
        ColumnDef {
            id: self.spec_column_id(),
            ty: ColumnType::Integer,
            nullable: false,
            default: Some(Value::Int(DEFAULT_BACKFILL_TIMESTAMP)),
        }
    }

    /// The column identifier this entry stands for.
    pub fn column_id(&self) -> (r: ColumnId)
        ensures
            r == self.spec_column_id(),
    {
        match self {
            GroupTimestamps::CreatedAt => ColumnId::CreatedAt,
            GroupTimestamps::UpdatedAt => ColumnId::UpdatedAt,
        }
    }

    /// The full definition of this column.
    pub fn column_def(&self) -> (r: ColumnDef)
        ensures
            r == self.spec_column_def(),
    {
        ColumnDef {
            id: self.column_id(),
            ty: ColumnType::Integer,
            nullable: false,
            default: Some(Value::Int(DEFAULT_BACKFILL_TIMESTAMP)),
        }
    }
}

/// The migration step: a named, reversible pair of schema-change operations
/// against the `group` table.
pub struct Migration;

/// The migration's identity.
pub open spec fn spec_name() -> Seq<char> {
    "m20250909_000001_add_group_timestamps"@
}

/// The forward command sequence: add `created_at`, then add `updated_at`.
pub open spec fn spec_up_commands() -> Seq<AlterCommand> {
    seq![
        AlterCommand {
            table: TableRef::Group,
            op: AlterOp::AddColumn(GroupTimestamps::CreatedAt.spec_column_def()),
        },
        AlterCommand {
            table: TableRef::Group,
            op: AlterOp::AddColumn(GroupTimestamps::UpdatedAt.spec_column_def()),
        },
    ]
}

/// The reverse command sequence: drop `updated_at`, then drop `created_at`
/// (the reverse of the order they were added in).
pub open spec fn spec_down_commands() -> Seq<AlterCommand> {
    seq![
        AlterCommand { table: TableRef::Group, op: AlterOp::DropColumn(ColumnId::UpdatedAt) },
        AlterCommand { table: TableRef::Group, op: AlterOp::DropColumn(ColumnId::CreatedAt) },
    ]
}

/// What `apply` does to the table model: on the `group` table with neither
/// timestamp column present, it appends the `created_at` and `updated_at`
/// definitions and backfills every row; otherwise it fails, naming the
/// first offending column.
pub open spec fn spec_apply(m: TableModel) -> Result<TableModel, SchemaError> {
    if m.name != TableRef::Group {
        Err(SchemaError::TableMissing(TableRef::Group))
    } else if spec_has_column(m.cols, ColumnId::CreatedAt) {
        Err(SchemaError::DuplicateColumn(ColumnId::CreatedAt))
    } else if spec_has_column(m.cols, ColumnId::UpdatedAt) {
        Err(SchemaError::DuplicateColumn(ColumnId::UpdatedAt))
    } else {
        Ok(
            model_add(
                model_add(m, GroupTimestamps::CreatedAt.spec_column_def()),
                GroupTimestamps::UpdatedAt.spec_column_def(),
            ),
        )
    }
}

/// What `revert` does to the table model: on the `group` table with both
/// timestamp columns present, it drops `updated_at` and then `created_at`;
/// otherwise it fails, naming the first column found missing.
pub open spec fn spec_revert(m: TableModel) -> Result<TableModel, SchemaError> {
    if m.name != TableRef::Group {
        Err(SchemaError::TableMissing(TableRef::Group))
    } else if !spec_has_column(m.cols, ColumnId::UpdatedAt) {
        Err(SchemaError::MissingColumn(ColumnId::UpdatedAt))
    } else if !spec_has_column(model_drop(m, ColumnId::UpdatedAt).cols, ColumnId::CreatedAt) {
        Err(SchemaError::MissingColumn(ColumnId::CreatedAt))
    } else {
        Ok(model_drop(model_drop(m, ColumnId::UpdatedAt), ColumnId::CreatedAt))
    }
}

/// Running the forward command sequence is exactly `spec_apply`.
pub proof fn lemma_run_up_is_apply(m: TableModel)
    ensures
        spec_run(m, spec_up_commands()) == spec_apply(m),
{
    reveal_with_fuel(spec_run, 3);
    let cmds = spec_up_commands();
    let cdef = GroupTimestamps::CreatedAt.spec_column_def();
    let udef = GroupTimestamps::UpdatedAt.spec_column_def();
    assert(backfill_wf(cdef));
    assert(backfill_wf(udef));
    assert(cmds.drop_first() =~= seq![cmds[1]]);
    assert(cmds.drop_first().drop_first() =~= Seq::<AlterCommand>::empty());
    if m.name == TableRef::Group && !spec_has_column(m.cols, ColumnId::CreatedAt) {
        let m1 = model_add(m, cdef);
        assert(m1.cols == m.cols.push(cdef));
        assert(spec_has_column(m1.cols, ColumnId::UpdatedAt) == spec_has_column(
            m.cols,
            ColumnId::UpdatedAt,
        )) by {
            if spec_has_column(m1.cols, ColumnId::UpdatedAt) {
                let i = choose|i: int| 0 <= i < m1.cols.len() && m1.cols[i].id == ColumnId::UpdatedAt;
                assert(i < m.cols.len());
            }
            if spec_has_column(m.cols, ColumnId::UpdatedAt) {
                let i = choose|i: int| 0 <= i < m.cols.len() && m.cols[i].id == ColumnId::UpdatedAt;
                assert(m1.cols[i].id == ColumnId::UpdatedAt);
            }
        }
    }
}

/// Running the reverse command sequence is exactly `spec_revert`.
pub proof fn lemma_run_down_is_revert(m: TableModel)
    ensures
        spec_run(m, spec_down_commands()) == spec_revert(m),
{
    reveal_with_fuel(spec_run, 3);
    let cmds = spec_down_commands();
    assert(cmds.drop_first() =~= seq![cmds[1]]);
    assert(cmds.drop_first().drop_first() =~= Seq::<AlterCommand>::empty());
}

impl Migration {
    /// The migration's name: its unique, ordered identity among the
    /// project's migrations.
    pub fn name(&self) -> (r: &'static str)
        ensures
            r@ == spec_name(),
    {
        "m20250909_000001_add_group_timestamps"
    }

    /// The forward command sequence: add `created_at`, then add
    /// `updated_at`, both integer, not null, with the fixed backfill
    /// timestamp as default.
    pub fn up_commands(&self) -> (r: Vec<AlterCommand>)
        ensures
            r@ == spec_up_commands(),
    {
        let mut cmds: Vec<AlterCommand> = Vec::new();
        cmds.push(
            AlterCommand {
                table: TableRef::Group,
                op: AlterOp::AddColumn(GroupTimestamps::CreatedAt.column_def()),
            },
        );
        cmds.push(
            AlterCommand {
                table: TableRef::Group,
                op: AlterOp::AddColumn(GroupTimestamps::UpdatedAt.column_def()),
            },
        );
        proof {
            assert(cmds@ =~= spec_up_commands());
        }
        cmds
    }

    /// The reverse command sequence: drop `updated_at`, then drop
    /// `created_at`.
    pub fn down_commands(&self) -> (r: Vec<AlterCommand>)
        ensures
            r@ == spec_down_commands(),
    {
        let mut cmds: Vec<AlterCommand> = Vec::new();
        cmds.push(
            AlterCommand { table: TableRef::Group, op: AlterOp::DropColumn(ColumnId::UpdatedAt) },
        );
        cmds.push(
            AlterCommand { table: TableRef::Group, op: AlterOp::DropColumn(ColumnId::CreatedAt) },
        );
        proof {
            assert(cmds@ =~= spec_down_commands());
        }
        cmds
    }

    /// Applies the migration to the table, atomically: on success the table
    /// is exactly `spec_apply`'s result; on failure the error is returned
    /// and the table is left unchanged.
    pub fn apply(&self, table: &mut Table) -> (r: Result<(), SchemaError>)
        requires
            old(table)@.wf(),
        ensures
            final(table)@.wf(),
            match spec_apply(old(table)@) {
                Ok(m2) => r == Ok::<(), SchemaError>(()) && final(table)@ == m2,
                Err(e) => r == Err::<(), SchemaError>(e) && final(table)@ == old(table)@,
            },
    {
        let cmds = self.up_commands();
        proof {
            lemma_run_up_is_apply(old(table)@);
        }
        table.run_commands(&cmds)
    }

    /// Reverts the migration on the table, atomically: on success the table
    /// is exactly `spec_revert`'s result; on failure the error is returned
    /// and the table is left unchanged.
    pub fn revert(&self, table: &mut Table) -> (r: Result<(), SchemaError>)
        requires
            old(table)@.wf(),
        ensures
            final(table)@.wf(),
            match spec_revert(old(table)@) {
                Ok(m2) => r == Ok::<(), SchemaError>(()) && final(table)@ == m2,
                Err(e) => r == Err::<(), SchemaError>(e) && final(table)@ == old(table)@,
            },
    {
        let cmds = self.down_commands();
        proof {
            lemma_run_down_is_revert(old(table)@);
        }
        table.run_commands(&cmds)
    }
}

} // verus!
