//! Verified core of an interactive tabular-data tool: connection-string
//! parsing, a catalog of registered datasets, a lazy query-plan model with a
//! statistical describe engine, and the command actor's decision logic.
//! Engine execution, I/O and the line-editing loop live outside the library.

pub mod actor;
pub mod catalog;
pub mod command;
pub mod conn;
pub mod describe;
pub mod errors;
pub mod plan;
pub mod text;

pub use actor::{run_batch, step, EngineAction};
pub use catalog::Catalog;
pub use command::{
    ConnectOpts, DescribeOpts, HeadOpts, ListOpts, ReplCommand, SchemaOpts, SqlOpts,
};
pub use conn::{verify_conn_str, Compression, DataSetConn, FileOpts};
pub use describe::{DataFrameDescriber, DescribeMethod};
pub use errors::EngineError;
pub use plan::{ColExpr, ColKind, Column, Frame, Plan};
pub use text::usize_to_string;
