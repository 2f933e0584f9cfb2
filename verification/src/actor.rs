//! The command actor's decision logic: the single-owner worker executes
//! commands strictly in arrival order, one at a time, and produces exactly
//! one reply per command. The decision for one command is a function of the
//! catalog state and the command alone; performing engine work (running
//! query text, registering a file) is the surrounding program's business.

use vstd::prelude::*;

use crate::catalog::{
    catalog_wf, connect_reply, connected_text, contains_name, entries_upsert, head_query,
    list_query, list_sql, schema_query, select_star_query, Catalog, Dataset,
};
use crate::command::{ConnectOpts, ReplCommand};
use crate::conn::DataSetConn;
use crate::errors::EngineError;

verus! {

/// The number of rows the head operation shows when the caller names none.
pub const DEFAULT_HEAD_ROWS: usize = 5;

/// What the worker does for one command: reply outright, run query text and
/// render its result, run query text and summarize its result, register a
/// file-backed source, or reply with an error. Exactly one action — hence
/// exactly one reply — is produced per command.
#[derive(Debug)]
pub enum EngineAction {
    Reply(String),
    RunSql(String),
    RunDescribe(String),
    Register(ConnectOpts),
    Fail(EngineError),
}

/// The row count the head operation uses for an optional argument.
pub open spec fn head_rows(n: Option<usize>) -> nat {
    match n {
        Some(k) => k as nat,
        None => DEFAULT_HEAD_ROWS as nat,
    }
}

/// The actor's decision for `cmd` against catalog `entries`: a relational
/// connect is refused as unsupported rather than silently accepted; a
/// file-backed connect becomes a registration; reading operations on an
/// unregistered name fail with the unknown dataset error and otherwise carry
/// exactly the operation's query text; raw query text passes through
/// verbatim.
pub open spec fn step_spec(entries: Seq<Dataset>, cmd: ReplCommand, a: EngineAction) -> bool {
    match cmd {
        ReplCommand::Connect(o) => {
            if o.conn is Postgres {
                a matches EngineAction::Fail(EngineError::UnsupportedOperation(m)) && m
                    == o.conn->Postgres_0
            } else {
                a matches EngineAction::Register(o2) && o2 == o
            }
        },
        ReplCommand::List(_) => a matches EngineAction::RunSql(s) && s@ == list_query(),
        ReplCommand::Schema(o) => {
            if contains_name(entries, o.name@) {
                a matches EngineAction::RunSql(s) && s@ == schema_query(o.name@)
            } else {
                a matches EngineAction::Fail(EngineError::UnknownDataset(m)) && m@ == o.name@
            }
        },
        ReplCommand::Describe(o) => {
            if contains_name(entries, o.name@) {
                a matches EngineAction::RunDescribe(s) && s@ == select_star_query(o.name@)
            } else {
                a matches EngineAction::Fail(EngineError::UnknownDataset(m)) && m@ == o.name@
            }
        },
        ReplCommand::Head(o) => {
            if contains_name(entries, o.name@) {
                a matches EngineAction::RunSql(s) && s@ == head_query(o.name@, head_rows(o.n))
            } else {
                a matches EngineAction::Fail(EngineError::UnknownDataset(m)) && m@ == o.name@
            }
        },
        ReplCommand::Sql(o) => a matches EngineAction::RunSql(s) && s == o.query,
    }
}

/// Decides one command against the current catalog.
pub fn step(catalog: &Catalog, cmd: ReplCommand) -> (a: EngineAction)
    ensures
        step_spec(catalog.entries@, cmd, a),
{
    match cmd {
        ReplCommand::Connect(o) => match o {
            ConnectOpts { conn: DataSetConn::Postgres(c), table: _, name: _ } => {
                EngineAction::Fail(EngineError::UnsupportedOperation(c))
            },
            o2 => EngineAction::Register(o2),
        },
        ReplCommand::List(_) => EngineAction::RunSql(list_sql()),
        ReplCommand::Schema(o) => match catalog.schema(o.name.as_str()) {
            Ok(s) => EngineAction::RunSql(s),
            Err(e) => EngineAction::Fail(e),
        },
        ReplCommand::Describe(o) => match catalog.describe_source(o.name.as_str()) {
            Ok(s) => EngineAction::RunDescribe(s),
            Err(e) => EngineAction::Fail(e),
        },
        ReplCommand::Head(o) => {
            let n = match o.n {
                Some(k) => k,
                None => DEFAULT_HEAD_ROWS,
            };
            match catalog.head(o.name.as_str(), n) {
                Ok(s) => EngineAction::RunSql(s),
                Err(e) => EngineAction::Fail(e),
            }
        },
        ReplCommand::Sql(o) => EngineAction::RunSql(o.query),
    }
}

/// The catalog state a command leaves: only an accepted file-backed connect
/// changes it, rebinding or adding its dataset name.
pub open spec fn apply_cmd(entries: Seq<Dataset>, cmd: ReplCommand) -> Seq<Dataset> {
    match cmd {
        ReplCommand::Connect(o) => {
            if o.conn is Postgres {
                entries
            } else {
                entries_upsert(entries, Dataset { name: o.name, conn: o.conn })
            }
        },
        _ => entries,
    }
}

/// The catalog state after the first `i` commands of a queue.
pub open spec fn entries_after(entries: Seq<Dataset>, cmds: Seq<ReplCommand>, i: int) -> Seq<
    Dataset,
>
    decreases i,
{
    if i <= 0 {
        entries
    } else {
        apply_cmd(entries_after(entries, cmds, i - 1), cmds[i - 1])
    }
}

/// The single reply recorded for one command in a worker run where the
/// engine accepts every registration: an accepted connect is confirmed, and
/// every other command replies as `step_spec` decides.
pub open spec fn worker_reply_spec(
    entries: Seq<Dataset>,
    cmd: ReplCommand,
    a: EngineAction,
) -> bool {
    match cmd {
        ReplCommand::Connect(o) => {
            if o.conn is Postgres {
                a matches EngineAction::Fail(EngineError::UnsupportedOperation(m)) && m
                    == o.conn->Postgres_0
            } else {
                a matches EngineAction::Reply(s) && s@ == connected_text(o.name@)
            }
        },
        _ => step_spec(entries, cmd, a),
    }
}

/// A worker run over an inbox queue: commands are executed strictly in
/// arrival order, one at a time, each against exactly the state the
/// commands before it left, and exactly one reply action is recorded per
/// command. Registrations are taken as accepted here; the surrounding
/// program drives the same decisions one command at a time and skips the
/// catalog update when the engine rejects a file.
pub fn run_batch(catalog: &mut Catalog, cmds: Vec<ReplCommand>) -> (acts: Vec<EngineAction>)
    requires
        catalog_wf(old(catalog).entries@),
    ensures
        acts@.len() == cmds@.len(),
        forall|j: int|
            0 <= j < cmds@.len() ==> worker_reply_spec(
                entries_after(old(catalog).entries@, cmds@, j),
                cmds@[j],
                acts@[j],
            ),
        final(catalog).entries@ == entries_after(
            old(catalog).entries@,
            cmds@,
            cmds@.len() as int,
        ),
        catalog_wf(final(catalog).entries@),
{
    let ghost cmds0 = cmds@;
    let ghost pre = catalog.entries@;
    let mut acts: Vec<EngineAction> = Vec::new();
    let mut rest = cmds;
    while rest.len() > 0
        invariant
            acts@.len() + rest@.len() == cmds0.len(),
            rest@ == cmds0.subrange(acts@.len() as int, cmds0.len() as int),
            catalog.entries@ == entries_after(pre, cmds0, acts@.len() as int),
            catalog_wf(catalog.entries@),
            forall|j: int|
                0 <= j < acts@.len() ==> worker_reply_spec(
                    entries_after(pre, cmds0, j),
                    cmds0[j],
                    acts@[j],
                ),
        decreases rest@.len(),
    {
        let ghost j = acts@.len() as int;
        let cmd = rest.remove(0);
        proof {
            assert(cmd == cmds0[j]);
            assert(cmds0.subrange(j, cmds0.len() as int).remove(0) =~= cmds0.subrange(
                j + 1,
                cmds0.len() as int,
            ));
        }
        let ghost cmd_ghost = cmd;
        let ghost entries_j = catalog.entries@;
        let act = step(&*catalog, cmd);
        match act {
            EngineAction::Register(o) => {
                proof {
                    assert(cmd_ghost matches ReplCommand::Connect(o1) && o == o1 && !(o1.conn
                        is Postgres));
                }
                let ConnectOpts { conn, table: _, name } = o;
                let reply = connect_reply(name.as_str());
                catalog.register(name, conn);
                acts.push(EngineAction::Reply(reply));
                proof {
                    assert(catalog.entries@ == apply_cmd(entries_j, cmd_ghost));
                }
            },
            other => {
                proof {
                    assert(apply_cmd(entries_j, cmd_ghost) == entries_j);
                }
                acts.push(other);
            },
        }
    }
    acts
}

/// Serialized execution is order-preserving: the state a command sees — and
/// with it the reply `worker_reply_spec` fixes for it — depends on the
/// commands submitted before it alone, never on later submissions.
pub proof fn lemma_fifo_prefix(
    entries: Seq<Dataset>,
    cmds1: Seq<ReplCommand>,
    cmds2: Seq<ReplCommand>,
    j: int,
)
    requires
        0 <= j <= cmds1.len(),
        cmds1.len() <= cmds2.len(),
        cmds2.subrange(0, cmds1.len() as int) == cmds1,
    ensures
        entries_after(entries, cmds1, j) == entries_after(entries, cmds2, j),
    decreases j,
{
    if j > 0 {
        lemma_fifo_prefix(entries, cmds1, cmds2, j - 1);
        assert(cmds2.subrange(0, cmds1.len() as int)[j - 1] == cmds2[j - 1]);
    }
}

} // verus!
