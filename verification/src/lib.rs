//! A verified model of a schema migration that adds integer timestamp
//! columns (`created_at`, `updated_at`) to the `group` table.
//!
//! The model represents a table as a column list plus rows of plain values;
//! the migration's forward and reverse operations are verified against a
//! mathematical table model. The surrounding database plumbing lives outside
//! this library.

pub mod commands;
pub mod laws;
pub mod migration;
pub mod table;

pub use commands::AlterCommand;
pub use commands::AlterOp;
pub use commands::SchemaError;
pub use migration::GroupTimestamps;
pub use migration::Migration;
pub use table::ColumnDef;
pub use table::ColumnId;
pub use table::ColumnType;
pub use table::Table;
pub use table::TableModel;
pub use table::TableRef;
pub use table::Value;
