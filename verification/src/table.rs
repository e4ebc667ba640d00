//! The table model: symbolic table and column identifiers, column
//! definitions, and a table value holding a schema (ordered column list)
//! and rows of plain values.

use vstd::prelude::*;

verus! {

/// Symbolic reference to a table, resolved to a physical name by the
/// schema layer outside this library.
#[derive(Clone, Copy, PartialEq, Eq, Structural, Debug)]
pub enum TableRef {
    Group,
    Other(u64),
}

/// Symbolic column identifier: a closed set of the columns this library's
/// migration manages, plus an escape for pre-existing columns.
#[derive(Clone, Copy, PartialEq, Eq, Structural, Debug)]
pub enum ColumnId {
    Id,
    CreatedAt,
    UpdatedAt,
    Other(u64),
}

/// Scalar column type.
#[derive(Clone, Copy, PartialEq, Eq, Structural, Debug)]
pub enum ColumnType {
    Integer,
    Boolean,
}

/// A cell value stored in a row.
#[derive(Clone, Copy, PartialEq, Eq, Structural, Debug)]
pub enum Value {
    Int(i64),
    Bool(bool),
    Null,
}

/// A column definition: identifier, scalar type, nullability, and an
/// optional default used to backfill existing rows when the column is added.
#[derive(Clone, Copy, PartialEq, Eq, Structural, Debug)]
pub struct ColumnDef {
    pub id: ColumnId,
    pub ty: ColumnType,
    pub nullable: bool,
    pub default: Option<Value>,
}

/// Mathematical model of a table: its reference, its ordered column list,
/// and its rows, each row a sequence of values aligned with the columns.
#[verifier::ext_equal]
pub struct TableModel {
    pub name: TableRef,
    pub cols: Seq<ColumnDef>,
    pub rows: Seq<Seq<Value>>,
}

/// An executable table: the state a migration is applied to.
#[derive(Clone, PartialEq, Eq, Debug)]
pub struct Table {
    pub name: TableRef,
    pub columns: Vec<ColumnDef>,
    pub rows: Vec<Vec<Value>>,
}

/// Whether a value may be stored in a column of the given type.
pub open spec fn value_fits(v: Value, ty: ColumnType) -> bool {
    match v {
        Value::Int(_) => ty == ColumnType::Integer,
        Value::Bool(_) => ty == ColumnType::Boolean,
        Value::Null => true,
    }
}

/// Whether some column in `cols` has the identifier `id`.
pub open spec fn spec_has_column(cols: Seq<ColumnDef>, id: ColumnId) -> bool {
    exists|i: int| 0 <= i < cols.len() && cols[i].id == id
}

/// The position of the column with identifier `id`. Meaningful when the
/// identifiers are distinct and the column is present, so that the position
/// is unique.
pub open spec fn col_index_of(cols: Seq<ColumnDef>, id: ColumnId) -> int {
    choose|i: int| 0 <= i < cols.len() && cols[i].id == id
}

/// Pins `col_index_of` down: when the column with identifier `id` stands at
/// exactly one position `i`, that is the position.
pub proof fn lemma_col_index_at(cols: Seq<ColumnDef>, id: ColumnId, i: int)
    requires
        0 <= i < cols.len(),
        cols[i].id == id,
        forall|j: int| 0 <= j < cols.len() && j != i ==> cols[j].id != id,
    ensures
        col_index_of(cols, id) == i,
{
    assert(0 <= i < cols.len() && cols[i].id == id);
}

/// The definition of the column with identifier `id`.
pub open spec fn spec_column_of(cols: Seq<ColumnDef>, id: ColumnId) -> ColumnDef {
    cols[col_index_of(cols, id)]
}

/// The value row `r` holds in the column with identifier `id`.
pub open spec fn spec_cell(m: TableModel, r: int, id: ColumnId) -> Value {
    m.rows[r][col_index_of(m.cols, id)]
}

impl TableModel {
    /// Well-formedness: column identifiers are distinct, every row has one
    /// value per column, each value fits its column's type, and a not-null
    /// column holds no null.
    pub open spec fn wf(self) -> bool {
        &&& forall|i: int, j: int|
            0 <= i < self.cols.len() && 0 <= j < self.cols.len() && i != j
                ==> self.cols[i].id != self.cols[j].id
        &&& forall|r: int| 0 <= r < self.rows.len() ==> (#[trigger] self.rows[r]).len() == self.cols.len()
        &&& forall|r: int, c: int|
            0 <= r < self.rows.len() && 0 <= c < self.cols.len()
                ==> value_fits(#[trigger] self.rows[r][c], self.cols[c].ty)
                    && (!self.cols[c].nullable ==> self.rows[r][c] != Value::Null)
    }
}

impl View for Table {
    type V = TableModel;

    open spec fn view(&self) -> TableModel {
        TableModel {
            name: self.name,
            cols: self.columns@,
            rows: self.rows@.map_values(|r: Vec<Value>| r@),
        }
    }
}

impl Table {
    /// Index of the first column with identifier `id`, if any.
    pub fn find_column(&self, id: ColumnId) -> (r: Option<usize>)
        ensures
            match r {
                Some(i) => 0 <= i < self@.cols.len() && self@.cols[i as int].id == id
                    && forall|j: int| 0 <= j < i ==> self@.cols[j].id != id,
                None => !spec_has_column(self@.cols, id),
            },
    {
        let mut i: usize = 0;
        while i < self.columns.len()
            invariant
                0 <= i <= self.columns@.len(),
                forall|j: int| 0 <= j < i ==> self.columns@[j].id != id,
            decreases self.columns@.len() - i,
        {
            if self.columns[i].id == id {
                return Some(i);
            }
            i = i + 1;
        }
        None
    }

    /// Whether the table has a column with identifier `id`.
    pub fn contains_column(&self, id: ColumnId) -> (r: bool)
        ensures
            r == spec_has_column(self@.cols, id),
    {
        match self.find_column(id) {
            Some(_) => true,
            None => false,
        }
    }
}

} // verus!
