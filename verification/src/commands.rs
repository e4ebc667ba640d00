//! Schema-alteration commands and their execution.
//!
//! A command adds or drops one column of one table. `model_step` and
//! `spec_run` define what a command, and a sequence of commands, does to the
//! table model; the executable operations are verified against them.
//! `run_commands` is transactional: either every command succeeds and the
//! table takes the final state, or the table is left exactly as it was.

use vstd::prelude::*;

use crate::table::ColumnDef;
use crate::table::ColumnId;
use crate::table::ColumnType;
use crate::table::Table;
use crate::table::TableModel;
use crate::table::TableRef;
use crate::table::Value;
use crate::table::spec_has_column;
use crate::table::value_fits;

verus! {

/// One schema alteration.
#[derive(Clone, Copy, PartialEq, Eq, Structural, Debug)]
pub enum AlterOp {
    AddColumn(ColumnDef),
    DropColumn(ColumnId),
}

/// A schema-alteration command: one alteration against one table.
#[derive(Clone, Copy, PartialEq, Eq, Structural, Debug)]
pub struct AlterCommand {
    pub table: TableRef,
    pub op: AlterOp,
}

/// A failure raised by the schema-alteration mechanism.
#[derive(Clone, Copy, PartialEq, Eq, Structural, Debug)]
pub enum SchemaError {
    TableMissing(TableRef),
    DuplicateColumn(ColumnId),
    MissingColumn(ColumnId),
    ConstraintViolation(ColumnId),
}

/// The value backfilled into existing rows when `def` is added: the
/// column's default, or null when it has none.
pub open spec fn backfill_value(def: ColumnDef) -> Value {
    match def.default {
        Some(v) => v,
        None => Value::Null,
    }
}

/// Whether backfilling existing rows with `def`'s default respects the
/// column's type and its not-null constraint.
pub open spec fn backfill_wf(def: ColumnDef) -> bool {
    value_fits(backfill_value(def), def.ty) && (!def.nullable ==> backfill_value(def) != Value::Null)
}

/// The table after adding `def`: the column goes at the end of the column
/// list, and every row gains the backfill value at the end.
pub open spec fn model_add(m: TableModel, def: ColumnDef) -> TableModel {
    TableModel {
        name: m.name,
        cols: m.cols.push(def),
        rows: m.rows.map_values(|r: Seq<Value>| r.push(backfill_value(def))),
    }
}

/// The table after dropping the column with identifier `id`: that column
/// leaves the column list and every row loses the value at its position.
/// Meaningful when the table is well-formed and has the column, so that the
/// position is unique.
pub open spec fn model_drop(m: TableModel, id: ColumnId) -> TableModel {
    let i = choose|i: int| 0 <= i < m.cols.len() && m.cols[i].id == id;
    TableModel {
        name: m.name,
        cols: m.cols.remove(i),
        rows: m.rows.map_values(|r: Seq<Value>| r.remove(i)),
    }
}

/// What one command does to the table model: the table it names must be the
/// table at hand; adding an existing column is a duplicate-column error;
/// adding a column whose backfill would violate its own constraints on a
/// table with rows is a constraint violation; dropping an absent column is
/// a missing-column error.
pub open spec fn model_step(m: TableModel, cmd: AlterCommand) -> Result<TableModel, SchemaError> {
    if cmd.table != m.name {
        Err(SchemaError::TableMissing(cmd.table))
    } else {
        match cmd.op {
            AlterOp::AddColumn(def) => {
                if spec_has_column(m.cols, def.id) {
                    Err(SchemaError::DuplicateColumn(def.id))
                } else if !(m.rows.len() == 0 || backfill_wf(def)) {
                    Err(SchemaError::ConstraintViolation(def.id))
                } else {
                    Ok(model_add(m, def))
                }
            },
            AlterOp::DropColumn(id) => {
                if !spec_has_column(m.cols, id) {
                    Err(SchemaError::MissingColumn(id))
                } else {
                    Ok(model_drop(m, id))
                }
            },
        }
    }
}

/// What a command sequence does to the table model: the commands run in
/// order, and the first failure is the result.
pub open spec fn spec_run(m: TableModel, cmds: Seq<AlterCommand>) -> Result<TableModel, SchemaError>
    decreases cmds.len(),
{
    if cmds.len() == 0 {
        Ok(m)
    } else {
        match model_step(m, cmds[0]) {
            Ok(m2) => spec_run(m2, cmds.drop_first()),
            Err(e) => Err(e),
        }
    }
}

/// Pins the column position that `model_drop` removes: when the column with
/// identifier `id` stands at exactly one position `i`, dropping `id` removes
/// position `i` from the column list and from every row.
pub proof fn lemma_model_drop_at(m: TableModel, id: ColumnId, i: int)
    requires
        0 <= i < m.cols.len(),
        m.cols[i].id == id,
        forall|j: int| 0 <= j < m.cols.len() && j != i ==> m.cols[j].id != id,
    ensures
        model_drop(m, id) == (TableModel {
            name: m.name,
            cols: m.cols.remove(i),
            rows: m.rows.map_values(|r: Seq<Value>| r.remove(i)),
        }),
{
    assert(0 <= i < m.cols.len() && m.cols[i].id == id);
    let k = choose|k: int| 0 <= k < m.cols.len() && m.cols[k].id == id;
    assert(k == i);
}

/// Adding a fresh column with a well-formed backfill keeps the table
/// well-formed.
pub proof fn lemma_add_preserves_wf(m: TableModel, def: ColumnDef)
    requires
        m.wf(),
        !spec_has_column(m.cols, def.id),
        m.rows.len() == 0 || backfill_wf(def),
    ensures
        model_add(m, def).wf(),
{
    let m2 = model_add(m, def);
    let n = m.cols.len() as int;
    assert forall|i: int, j: int|
        0 <= i < m2.cols.len() && 0 <= j < m2.cols.len() && i != j implies m2.cols[i].id
        != m2.cols[j].id by {
        if i < n && j < n {
        } else if i == n {
            assert(m2.cols[j] == m.cols[j]);
        } else {
            assert(m2.cols[i] == m.cols[i]);
        }
    }
    assert forall|r: int| 0 <= r < m2.rows.len() implies (#[trigger] m2.rows[r]).len()
        == m2.cols.len() by {
        assert(m2.rows[r] == m.rows[r].push(backfill_value(def)));
    }
    assert forall|r: int, c: int|
        0 <= r < m2.rows.len() && 0 <= c < m2.cols.len() implies value_fits(
        #[trigger] m2.rows[r][c],
        m2.cols[c].ty,
    ) && (!m2.cols[c].nullable ==> m2.rows[r][c] != Value::Null) by {
        assert(m2.rows[r] == m.rows[r].push(backfill_value(def)));
        if c < m.cols.len() {
            assert(m2.rows[r][c] == m.rows[r][c]);
            assert(m2.cols[c] == m.cols[c]);
        } else {
            assert(m2.rows[r][c] == backfill_value(def));
        }
    }
}

/// Dropping a column of a well-formed table keeps it well-formed.
pub proof fn lemma_drop_preserves_wf(m: TableModel, id: ColumnId)
    requires
        m.wf(),
        spec_has_column(m.cols, id),
    ensures
        model_drop(m, id).wf(),
{
    let m2 = model_drop(m, id);
    let i = choose|i: int| 0 <= i < m.cols.len() && m.cols[i].id == id;
    assert forall|p: int, q: int|
        0 <= p < m2.cols.len() && 0 <= q < m2.cols.len() && p != q implies m2.cols[p].id
        != m2.cols[q].id by {
        let p0: int = if p < i { p } else { p + 1 };
        let q0: int = if q < i { q } else { q + 1 };
        assert(m2.cols[p] == m.cols[p0]);
        assert(m2.cols[q] == m.cols[q0]);
    }
    assert forall|r: int| 0 <= r < m2.rows.len() implies (#[trigger] m2.rows[r]).len()
        == m2.cols.len() by {
        assert(m2.rows[r] == m.rows[r].remove(i));
    }
    assert forall|r: int, c: int|
        0 <= r < m2.rows.len() && 0 <= c < m2.cols.len() implies value_fits(
        #[trigger] m2.rows[r][c],
        m2.cols[c].ty,
    ) && (!m2.cols[c].nullable ==> m2.rows[r][c] != Value::Null) by {
        assert(m2.rows[r] == m.rows[r].remove(i));
        let c0: int = if c < i { c } else { c + 1 };
        assert(m2.rows[r][c] == m.rows[r][c0]);
        assert(m2.cols[c] == m.cols[c0]);
    }
}

/// Copies a row value for value.
fn copy_row(row: &Vec<Value>) -> (r: Vec<Value>)
    ensures
        r@ == row@,
{
    let mut out: Vec<Value> = Vec::new();
    let mut j: usize = 0;
    while j < row.len()
        invariant
            0 <= j <= row@.len(),
            out@ == row@.subrange(0, j as int),
        decreases row@.len() - j,
    {
        out.push(row[j]);
        j = j + 1;
    }
    assert(out@ =~= row@);
    out
}

impl Table {
    /// An identical copy of the table.
    pub fn snapshot(&self) -> (r: Table)
        ensures
            r@ == self@,
    {
        let mut columns: Vec<ColumnDef> = Vec::new();
        let mut i: usize = 0;
        while i < self.columns.len()
            invariant
                0 <= i <= self.columns@.len(),
                columns@ == self.columns@.subrange(0, i as int),
            decreases self.columns@.len() - i,
        {
            columns.push(self.columns[i]);
            i = i + 1;
        }
        assert(columns@ =~= self.columns@);
        let mut rows: Vec<Vec<Value>> = Vec::new();
        let mut k: usize = 0;
        while k < self.rows.len()
            invariant
                0 <= k <= self.rows@.len(),
                rows@.len() == k,
                forall|p: int| 0 <= p < k ==> (#[trigger] rows@[p])@ == self.rows@[p]@,
            decreases self.rows@.len() - k,
        {
            let row = copy_row(&self.rows[k]);
            rows.push(row);
            k = k + 1;
        }
        let r = Table { name: self.name, columns, rows };
        assert(r@ =~~= self@);
        r
    }

    /// Whether backfilling rows with `def`'s default respects the column's
    /// own type and not-null constraint.
    fn backfill_allowed(def: &ColumnDef) -> (r: bool)
        ensures
            r == backfill_wf(*def),
    {
        let v = match def.default {
            Some(w) => w,
            None => Value::Null,
        };
        let fits = match v {
            Value::Int(_) => matches!(def.ty, ColumnType::Integer),
            Value::Bool(_) => matches!(def.ty, ColumnType::Boolean),
            Value::Null => true,
        };
        let not_null_ok = def.nullable || !matches!(v, Value::Null);
        fits && not_null_ok
    }

    /// Adds a column at the end of the column list, backfilling every
    /// existing row with the column's default (null when it has none).
    /// Fails, leaving the table unchanged, when a column with the same
    /// identifier exists, or when the table has rows and the backfill would
    /// violate the new column's own constraints.
    pub fn add_column(&mut self, def: ColumnDef) -> (r: Result<(), SchemaError>)
        requires
            old(self)@.wf(),
        ensures
            final(self)@.wf(),
            ({
                let pre = old(self)@;
                if spec_has_column(pre.cols, def.id) {
                    r == Err::<(), SchemaError>(SchemaError::DuplicateColumn(def.id)) && final(self)@
                        == pre
                } else if !(pre.rows.len() == 0 || backfill_wf(def)) {
                    r == Err::<(), SchemaError>(SchemaError::ConstraintViolation(def.id))
                        && final(self)@ == pre
                } else {
                    r == Ok::<(), SchemaError>(()) && final(self)@ == model_add(pre, def)
                }
            }),
    {
        if self.contains_column(def.id) {
            return Err(SchemaError::DuplicateColumn(def.id));
        }
        if self.rows.len() > 0 && !Self::backfill_allowed(&def) {
            return Err(SchemaError::ConstraintViolation(def.id));
        }
        let ghost pre = self@;
        self.columns.push(def);
        let value = match def.default {
            Some(v) => v,
            None => Value::Null,
        };
        let mut new_rows: Vec<Vec<Value>> = Vec::new();
        let mut i: usize = 0;
        while i < self.rows.len()
            invariant
                0 <= i <= self.rows@.len(),
                new_rows@.len() == i,
                forall|p: int|
                    0 <= p < i ==> (#[trigger] new_rows@[p])@ == self.rows@[p]@.push(value),
            decreases self.rows@.len() - i,
        {
            let mut new_row = copy_row(&self.rows[i]);
            new_row.push(value);
            new_rows.push(new_row);
            i = i + 1;
        }
        self.rows = new_rows;
        proof {
            assert(value == backfill_value(def));
            assert(self@ =~~= model_add(pre, def));
            lemma_add_preserves_wf(pre, def);
        }
        Ok(())
    }

    /// Drops the column with identifier `id`, removing its value from every
    /// row. Fails, leaving the table unchanged, when no such column exists.
    pub fn drop_column(&mut self, id: ColumnId) -> (r: Result<(), SchemaError>)
        requires
            old(self)@.wf(),
        ensures
            final(self)@.wf(),
            ({
                let pre = old(self)@;
                if !spec_has_column(pre.cols, id) {
                    r == Err::<(), SchemaError>(SchemaError::MissingColumn(id)) && final(self)@
                        == pre
                } else {
                    r == Ok::<(), SchemaError>(()) && final(self)@ == model_drop(pre, id)
                }
            }),
    {
        let idx = match self.find_column(id) {
            Some(i) => i,
            None => {
                return Err(SchemaError::MissingColumn(id));
            },
        };
        let ghost pre = self@;
        self.columns.remove(idx);
        let mut new_rows: Vec<Vec<Value>> = Vec::new();
        let mut i: usize = 0;
        while i < self.rows.len()
            invariant
                0 <= i <= self.rows@.len(),
                new_rows@.len() == i,
                idx < pre.cols.len(),
                pre.rows == self.rows@.map_values(|r: Vec<Value>| r@),
                pre.wf(),
                forall|p: int|
                    0 <= p < i ==> (#[trigger] new_rows@[p])@ == self.rows@[p]@.remove(idx as int),
            decreases self.rows@.len() - i,
        {
            let mut new_row = copy_row(&self.rows[i]);
            proof {
                assert(pre.rows[i as int] == self.rows@[i as int]@);
                assert(pre.rows[i as int].len() == pre.cols.len());
            }
            new_row.remove(idx);
            new_rows.push(new_row);
            i = i + 1;
        }
        self.rows = new_rows;
        proof {
            assert forall|j: int| 0 <= j < pre.cols.len() && j != idx implies pre.cols[j].id
                != id by {}
            lemma_model_drop_at(pre, id, idx as int);
            assert(self@ =~~= model_drop(pre, id));
            lemma_drop_preserves_wf(pre, id);
        }
        Ok(())
    }

    /// Runs one command against the table, exactly as `model_step` says.
    pub fn apply_command(&mut self, cmd: &AlterCommand) -> (r: Result<(), SchemaError>)
        requires
            old(self)@.wf(),
        ensures
            final(self)@.wf(),
            match model_step(old(self)@, *cmd) {
                Ok(m2) => r == Ok::<(), SchemaError>(()) && final(self)@ == m2,
                Err(e) => r == Err::<(), SchemaError>(e) && final(self)@ == old(self)@,
            },
    {
        if !(self.name == cmd.table) {
            return Err(SchemaError::TableMissing(cmd.table));
        }
        match cmd.op {
            AlterOp::AddColumn(def) => self.add_column(def),
            AlterOp::DropColumn(id) => self.drop_column(id),
        }
    }

    /// Runs a command sequence transactionally: when every command succeeds
    /// the table takes the final state; at the first failure the error is
    /// returned and the table is left exactly as it was, as `spec_run` says.
    pub fn run_commands(&mut self, cmds: &Vec<AlterCommand>) -> (r: Result<(), SchemaError>)
        requires
            old(self)@.wf(),
        ensures
            final(self)@.wf(),
            match spec_run(old(self)@, cmds@) {
                Ok(m2) => r == Ok::<(), SchemaError>(()) && final(self)@ == m2,
                Err(e) => r == Err::<(), SchemaError>(e) && final(self)@ == old(self)@,
            },
    {
        let mut work = self.snapshot();
        proof {
            assert(cmds@.skip(0) =~= cmds@);
        }
        let mut k: usize = 0;
        while k < cmds.len()
            invariant
                0 <= k <= cmds@.len(),
                work@.wf(),
                old(self)@.wf(),
                self@ == old(self)@,
                spec_run(old(self)@, cmds@) == spec_run(work@, cmds@.skip(k as int)),
            decreases cmds@.len() - k,
        {
            let cmd = cmds[k];
            proof {
                assert(cmds@.skip(k as int)[0] == cmds@[k as int]);
                assert(cmds@.skip(k as int).drop_first() =~= cmds@.skip(k as int + 1));
            }
            match work.apply_command(&cmd) {
                Ok(()) => {},
                Err(e) => {
                    return Err(e);
                },
            }
            k = k + 1;
        }
        assert(cmds@.skip(k as int) =~= Seq::<AlterCommand>::empty());
        *self = work;
        Ok(())
    }
}

} // verus!
