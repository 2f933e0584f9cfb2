//! The closed command surface of the tool: one option type per operation and
//! the envelope enum the actor dispatches on.

use vstd::prelude::*;

use crate::conn::DataSetConn;

verus! {

/// Options of the connect operation: the parsed source, an optional table
/// name for relational sources, and the dataset name to register.
#[derive(Debug)]
pub struct ConnectOpts {
    pub conn: DataSetConn,
    pub table: Option<String>,
    pub name: String,
}

impl ConnectOpts {
    pub fn new(conn: DataSetConn, table: Option<String>, name: String) -> (r: ConnectOpts)
        ensures
            r.conn == conn,
            r.table == table,
            r.name == name,
    {
        ConnectOpts { conn, table, name }
    }
}

/// Options of the list operation.
#[derive(Debug)]
pub struct ListOpts;

/// Options of the schema operation.
#[derive(Debug)]
pub struct SchemaOpts {
    pub name: String,
}

impl SchemaOpts {
    pub fn new(name: String) -> (r: SchemaOpts)
        ensures
            r.name == name,
    {
        SchemaOpts { name }
    }
}

/// Options of the describe operation.
#[derive(Debug)]
pub struct DescribeOpts {
    pub name: String,
}

impl DescribeOpts {
    pub fn new(name: String) -> (r: DescribeOpts)
        ensures
            r.name == name,
    {
        DescribeOpts { name }
    }
}

/// Options of the head operation; `n` defaults at dispatch time.
#[derive(Debug)]
pub struct HeadOpts {
    pub name: String,
    pub n: Option<usize>,
}

impl HeadOpts {
    pub fn new(name: String, n: Option<usize>) -> (r: HeadOpts)
        ensures
            r.name == name,
            r.n == n,
    {
        HeadOpts { name, n }
    }
}

/// Options of the raw query operation.
#[derive(Debug)]
pub struct SqlOpts {
    pub query: String,
}

impl SqlOpts {
    pub fn new(query: String) -> (r: SqlOpts)
        ensures
            r.query == query,
    {
        SqlOpts { query }
    }
}

/// A command the actor executes: a closed variant over the supported
/// operations.
#[derive(Debug)]
pub enum ReplCommand {
    Connect(ConnectOpts),
    List(ListOpts),
    Schema(SchemaOpts),
    Describe(DescribeOpts),
    Head(HeadOpts),
    Sql(SqlOpts),
}

impl From<HeadOpts> for ReplCommand {
    fn from(value: HeadOpts) -> (r: ReplCommand) {
        ReplCommand::Head(value)
    }
}

impl vstd::std_specs::convert::FromSpecImpl<HeadOpts> for ReplCommand {
    open spec fn obeys_from_spec() -> bool {
        true
    }

    open spec fn from_spec(value: HeadOpts) -> ReplCommand {
        ReplCommand::Head(value)
    }
}

impl From<SqlOpts> for ReplCommand {
    fn from(value: SqlOpts) -> (r: ReplCommand) {
        ReplCommand::Sql(value)
    }
}

impl vstd::std_specs::convert::FromSpecImpl<SqlOpts> for ReplCommand {
    open spec fn obeys_from_spec() -> bool {
        true
    }

    open spec fn from_spec(value: SqlOpts) -> ReplCommand {
        ReplCommand::Sql(value)
    }
}

} // verus!
