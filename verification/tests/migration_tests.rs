use migration::AlterCommand;
use migration::AlterOp;
use migration::ColumnDef;
use migration::ColumnId;
use migration::ColumnType;
use migration::GroupTimestamps;
use migration::Migration;
use migration::SchemaError;
use migration::Table;
use migration::TableRef;
use migration::Value;

const TS: i64 = 1725868800;

fn id_column() -> ColumnDef {
    ColumnDef { id: ColumnId::Id, ty: ColumnType::Integer, nullable: false, default: None }
}

fn created_at_column() -> ColumnDef {
    ColumnDef {
        id: ColumnId::CreatedAt,
        ty: ColumnType::Integer,
        nullable: false,
        default: Some(Value::Int(TS)),
    }
}

fn updated_at_column() -> ColumnDef {
    ColumnDef {
        id: ColumnId::UpdatedAt,
        ty: ColumnType::Integer,
        nullable: false,
        default: Some(Value::Int(TS)),
    }
}

/// The starting schema of the scenarios: `group(id)` with two rows.
fn group_table() -> Table {
    Table {
        name: TableRef::Group,
        columns: vec![id_column()],
        rows: vec![vec![Value::Int(1)], vec![Value::Int(2)]],
    }
}

#[test]
fn apply_adds_both_timestamp_columns_with_backfill() {
    let mut t = group_table();
    let r = Migration.apply(&mut t);
    assert_eq!(r, Ok(()));
    assert_eq!(t.name, TableRef::Group);
    assert_eq!(t.columns, vec![id_column(), created_at_column(), updated_at_column()]);
    assert_eq!(
        t.rows,
        vec![
            vec![Value::Int(1), Value::Int(TS), Value::Int(TS)],
            vec![Value::Int(2), Value::Int(TS), Value::Int(TS)],
        ]
    );
}

#[test]
fn apply_backfills_with_fixed_constant_and_not_null() {
    let mut t = group_table();
    Migration.apply(&mut t).unwrap();
    let created = t.find_column(ColumnId::CreatedAt).unwrap();
    let updated = t.find_column(ColumnId::UpdatedAt).unwrap();
    assert!(!t.columns[created].nullable);
    assert!(!t.columns[updated].nullable);
    assert_eq!(t.columns[created].ty, ColumnType::Integer);
    assert_eq!(t.columns[updated].ty, ColumnType::Integer);
    for row in &t.rows {
        assert_eq!(row[created], Value::Int(1725868800));
        assert_eq!(row[updated], Value::Int(1725868800));
    }
}

#[test]
fn apply_on_empty_table_adds_columns_only() {
    let mut t = Table { name: TableRef::Group, columns: vec![id_column()], rows: vec![] };
    assert_eq!(Migration.apply(&mut t), Ok(()));
    assert_eq!(t.columns.len(), 3);
    assert!(t.rows.is_empty());
}

#[test]
fn apply_then_revert_restores_the_original_table() {
    let original = group_table();
    let mut t = group_table();
    Migration.apply(&mut t).unwrap();
    assert_eq!(Migration.revert(&mut t), Ok(()));
    assert_eq!(t, original);
}

#[test]
fn revert_on_post_apply_schema_gives_group_id() {
    let mut t = group_table();
    t.columns.push(created_at_column());
    t.columns.push(updated_at_column());
    for row in &mut t.rows {
        row.push(Value::Int(TS));
        row.push(Value::Int(TS));
    }
    assert_eq!(Migration.revert(&mut t), Ok(()));
    assert_eq!(t, group_table());
}

#[test]
fn revert_keeps_columns_the_migration_did_not_add() {
    let extra = ColumnDef {
        id: ColumnId::Other(7),
        ty: ColumnType::Boolean,
        nullable: true,
        default: None,
    };
    let mut t = Table {
        name: TableRef::Group,
        columns: vec![id_column(), extra],
        rows: vec![vec![Value::Int(1), Value::Bool(true)]],
    };
    let original = t.clone();
    Migration.apply(&mut t).unwrap();
    Migration.revert(&mut t).unwrap();
    assert_eq!(t, original);
}

#[test]
fn apply_twice_fails_with_duplicate_created_at() {
    let mut t = group_table();
    Migration.apply(&mut t).unwrap();
    let applied = t.clone();
    let r = Migration.apply(&mut t);
    assert_eq!(r, Err(SchemaError::DuplicateColumn(ColumnId::CreatedAt)));
    assert_eq!(t, applied);
}

#[test]
fn apply_with_only_updated_at_present_fails_and_changes_nothing() {
    let mut t = group_table();
    t.columns.push(updated_at_column());
    for row in &mut t.rows {
        row.push(Value::Int(TS));
    }
    let before = t.clone();
    let r = Migration.apply(&mut t);
    assert_eq!(r, Err(SchemaError::DuplicateColumn(ColumnId::UpdatedAt)));
    assert_eq!(t, before);
}

#[test]
fn revert_without_apply_fails_with_missing_updated_at() {
    let mut t = group_table();
    let before = t.clone();
    let r = Migration.revert(&mut t);
    assert_eq!(r, Err(SchemaError::MissingColumn(ColumnId::UpdatedAt)));
    assert_eq!(t, before);
}

#[test]
fn apply_against_another_table_fails_with_table_missing() {
    let mut t = group_table();
    t.name = TableRef::Other(3);
    let before = t.clone();
    let r = Migration.apply(&mut t);
    assert_eq!(r, Err(SchemaError::TableMissing(TableRef::Group)));
    assert_eq!(t, before);
}

#[test]
fn add_not_null_column_without_default_on_rows_is_a_constraint_violation() {
    let mut t = group_table();
    let bad = ColumnDef {
        id: ColumnId::Other(1),
        ty: ColumnType::Integer,
        nullable: false,
        default: None,
    };
    let before = t.clone();
    let r = t.add_column(bad);
    assert_eq!(r, Err(SchemaError::ConstraintViolation(ColumnId::Other(1))));
    assert_eq!(t, before);
}

#[test]
fn run_commands_is_transactional() {
    let mut t = group_table();
    let before = t.clone();
    let fresh = ColumnDef {
        id: ColumnId::Other(2),
        ty: ColumnType::Boolean,
        nullable: true,
        default: None,
    };
    let cmds = vec![
        AlterCommand { table: TableRef::Group, op: AlterOp::AddColumn(fresh) },
        AlterCommand { table: TableRef::Group, op: AlterOp::AddColumn(id_column()) },
    ];
    let r = t.run_commands(&cmds);
    assert_eq!(r, Err(SchemaError::DuplicateColumn(ColumnId::Id)));
    assert_eq!(t, before);
}

#[test]
fn up_commands_add_created_at_then_updated_at() {
    let cmds = Migration.up_commands();
    assert_eq!(
        cmds,
        vec![
            AlterCommand { table: TableRef::Group, op: AlterOp::AddColumn(created_at_column()) },
            AlterCommand { table: TableRef::Group, op: AlterOp::AddColumn(updated_at_column()) },
        ]
    );
}

#[test]
fn down_commands_drop_updated_at_then_created_at() {
    let cmds = Migration.down_commands();
    assert_eq!(
        cmds,
        vec![
            AlterCommand { table: TableRef::Group, op: AlterOp::DropColumn(ColumnId::UpdatedAt) },
            AlterCommand { table: TableRef::Group, op: AlterOp::DropColumn(ColumnId::CreatedAt) },
        ]
    );
}

#[test]
fn group_timestamps_name_their_columns() {
    assert_eq!(GroupTimestamps::CreatedAt.column_id(), ColumnId::CreatedAt);
    assert_eq!(GroupTimestamps::UpdatedAt.column_id(), ColumnId::UpdatedAt);
    assert_eq!(GroupTimestamps::CreatedAt.column_def(), created_at_column());
    assert_eq!(GroupTimestamps::UpdatedAt.column_def(), updated_at_column());
}

#[test]
fn migration_name_is_its_identity() {
    assert_eq!(Migration.name(), "m20250909_000001_add_group_timestamps");
}

#[test]
fn drop_column_of_absent_identifier_fails() {
    let mut t = group_table();
    let r = t.drop_column(ColumnId::Other(9));
    assert_eq!(r, Err(SchemaError::MissingColumn(ColumnId::Other(9))));
    assert_eq!(t, group_table());
}

#[test]
fn snapshot_is_an_identical_copy() {
    let t = group_table();
    let s = t.snapshot();
    assert_eq!(s, t);
}
