use crate::instruction::{Db, DbInstruction, InstructionKind, KeyRegistarationData, DEFAULT_QUOTA};
use vstd::prelude::*;

verus! {

/// What the database task answers an instruction with.
#[derive(Debug, PartialEq, Eq, Structural)]
pub enum DbResult {
    /// The statement ran.
    Done,
    QueryRes(i32),
}

/// The database failures that the quota logic tells apart: a lookup that found
/// no row, and everything else.
#[derive(Debug, Clone, Copy, PartialEq, Eq, Structural)]
pub enum DbError {
    RowNotFound,
    Other,
}

/// One SQL statement against a quota table, with the values bound to it.
#[derive(Debug, PartialEq, Eq)]
pub enum DbCommand {
    /// Adds a record with the given quota; fails if the key is already there.
    Insert { db: Db, key: String, quota: i32 },
    /// Takes one query off the record's remaining quota.
    Decrement { db: Db, key: String },
    /// Reads the record's remaining quota; fails if there is no record.
    Select { db: Db, key: String },
    /// Sets every record of the table back to the default quota.
    ResetAll { db: Db },
}

/// The statement text of each command; `$1` is bound to the key and `$2` to
/// the quota.
pub open spec fn sql_text(cmd: DbCommand) -> Seq<char> {
    match cmd {
        DbCommand::Insert { db: Db::API_KEY, .. } => "INSERT INTO keys (api_key, queries_left) VALUES ($1, $2)"@,
        DbCommand::Insert { db: Db::IP_BOOK, .. } => "INSERT INTO ip_book (ip, queries_left) VALUES ($1, $2)"@,
        DbCommand::Decrement { db: Db::API_KEY, .. } => "UPDATE keys SET queries_left = queries_left - 1 WHERE api_key = $1"@,
        DbCommand::Decrement { db: Db::IP_BOOK, .. } => "UPDATE ip_book SET queries_left = queries_left - 1 WHERE ip = $1"@,
        DbCommand::Select { db: Db::API_KEY, .. } => "SELECT queries_left FROM keys WHERE api_key = $1"@,
        DbCommand::Select { db: Db::IP_BOOK, .. } => "SELECT queries_left FROM ip_book WHERE ip = $1"@,
        DbCommand::ResetAll { db: Db::API_KEY } => "UPDATE keys SET queries_left = 10;"@,
        DbCommand::ResetAll { db: Db::IP_BOOK } => "UPDATE ip_book SET queries_left = 10;"@,
    }
}

impl DbCommand {
    /// The table the command reads or writes.
    pub open spec fn table(self) -> Db {
        match self {
            DbCommand::Insert { db, .. } => db,
            DbCommand::Decrement { db, .. } => db,
            DbCommand::Select { db, .. } => db,
            DbCommand::ResetAll { db } => db,
        }
    }

    /// Whether the command returns a row rather than only running.
    pub open spec fn fetches(self) -> bool {
        self is Select
    }

    pub fn sql(&self) -> (text: &'static str)
        ensures
            text@ == sql_text(*self),
    {
        match self {
            DbCommand::Insert { db: Db::API_KEY, .. } => "INSERT INTO keys (api_key, queries_left) VALUES ($1, $2)",
            DbCommand::Insert { db: Db::IP_BOOK, .. } => "INSERT INTO ip_book (ip, queries_left) VALUES ($1, $2)",
            DbCommand::Decrement { db: Db::API_KEY, .. } => "UPDATE keys SET queries_left = queries_left - 1 WHERE api_key = $1",
            DbCommand::Decrement { db: Db::IP_BOOK, .. } => "UPDATE ip_book SET queries_left = queries_left - 1 WHERE ip = $1",
            DbCommand::Select { db: Db::API_KEY, .. } => "SELECT queries_left FROM keys WHERE api_key = $1",
            DbCommand::Select { db: Db::IP_BOOK, .. } => "SELECT queries_left FROM ip_book WHERE ip = $1",
            DbCommand::ResetAll { db: Db::API_KEY } => "UPDATE keys SET queries_left = 10;",
            DbCommand::ResetAll { db: Db::IP_BOOK } => "UPDATE ip_book SET queries_left = 10;",
        }
    }
}

/// What running a command gave back.
#[derive(Debug, PartialEq, Eq, Structural)]
pub enum SqlOutcome {
    /// A statement without a result row ran.
    Executed,
    /// A lookup found its row; the remaining quota may be NULL.
    Fetched(Option<i32>),
    /// The statement failed.
    Failed(DbError),
}

/// How far the database task has got with one instruction.
#[derive(Debug, Clone, Copy, PartialEq, Eq, Structural)]
pub enum BridgeStage {
    /// The instruction's own statement is due.
    Requested,
    /// A lookup of an unknown client address failed; the address is being
    /// registered with its quota.
    RegisteringAddress,
}

/// One instruction being carried out by the database task.
#[derive(Debug, PartialEq, Eq)]
pub struct BridgeTask {
    pub instruction: DbInstruction,
    pub stage: BridgeStage,
}

/// What the database task does next: run another command for the same
/// instruction, or send the reply.
#[derive(Debug, PartialEq, Eq)]
pub enum BridgeStep {
    Run(BridgeTask),
    Reply(Result<DbResult, DbError>),
}

/// The statement that carries out an instruction of the given kind on a record.
pub open spec fn planned_command(kind: InstructionKind, data: KeyRegistarationData) -> DbCommand {
    match kind {
        InstructionKind::Register => DbCommand::Insert { db: data.db_name, key: data.key, quota: data.quota },
        InstructionKind::Update => DbCommand::Decrement { db: data.db_name, key: data.key },
        InstructionKind::Query => DbCommand::Select { db: data.db_name, key: data.key },
        InstructionKind::Reset => DbCommand::ResetAll { db: data.db_name },
    }
}

/// Whether the instruction is a lookup in the address table, the one lookup
/// that registers what it does not find.
pub open spec fn is_address_query(instruction: DbInstruction) -> bool {
    instruction.kind == InstructionKind::Query && instruction.key_data.db_name == Db::IP_BOOK
}

/// The command a task runs at its stage.
pub open spec fn task_command(task: BridgeTask) -> DbCommand {
    match task.stage {
        BridgeStage::Requested => planned_command(task.instruction.kind, task.instruction.key_data),
        BridgeStage::RegisteringAddress => DbCommand::Insert {
            db: task.instruction.key_data.db_name,
            key: task.instruction.key_data.key,
            quota: task.instruction.key_data.quota,
        },
    }
}

/// The outcomes the task can go on from: those that fit its command, less a
/// lookup whose quota is NULL and a failed registration, on which the task
/// gives up.
pub open spec fn task_accepts(task: BridgeTask, outcome: SqlOutcome) -> bool {
    match task.stage {
        BridgeStage::Requested => if task_command(task).fetches() {
            outcome matches SqlOutcome::Fetched(Some(_)) || outcome is Failed
        } else {
            outcome is Executed || outcome is Failed
        },
        BridgeStage::RegisteringAddress => outcome is Executed,
    }
}

/// The step a task takes on an accepted outcome. A found row answers with its
/// quota; a statement that ran answers `Done`; a failure is passed on, except
/// that a failed lookup in the address table registers the address and then
/// answers with the default quota.
pub open spec fn task_advance(task: BridgeTask, outcome: SqlOutcome) -> BridgeStep {
    match task.stage {
        BridgeStage::Requested => match outcome {
            SqlOutcome::Failed(e) => if is_address_query(task.instruction) {
                BridgeStep::Run(BridgeTask { instruction: task.instruction, stage: BridgeStage::RegisteringAddress })
            } else {
                BridgeStep::Reply(Err(e))
            },
            SqlOutcome::Fetched(q) => BridgeStep::Reply(Ok(DbResult::QueryRes(q->0))),
            SqlOutcome::Executed => BridgeStep::Reply(Ok(DbResult::Done)),
        },
        BridgeStage::RegisteringAddress => BridgeStep::Reply(Ok(DbResult::QueryRes(DEFAULT_QUOTA))),
    }
}

impl BridgeTask {
    /// Takes up an instruction.
    pub fn start(instruction: DbInstruction) -> (task: Self)
        ensures
            task.instruction == instruction,
            task.stage == BridgeStage::Requested,
    {
        BridgeTask { instruction, stage: BridgeStage::Requested }
    }

    /// The command to run now.
    pub fn command(&self) -> (cmd: DbCommand)
        ensures
            cmd == task_command(*self),
    {
        let data = &self.instruction.key_data;
        match self.stage {
            BridgeStage::Requested => match self.instruction.kind {
                InstructionKind::Register => DbCommand::Insert { db: data.db_name, key: data.key.clone(), quota: data.quota },
                InstructionKind::Update => DbCommand::Decrement { db: data.db_name, key: data.key.clone() },
                InstructionKind::Query => DbCommand::Select { db: data.db_name, key: data.key.clone() },
                InstructionKind::Reset => DbCommand::ResetAll { db: data.db_name },
            },
            BridgeStage::RegisteringAddress => DbCommand::Insert {
                db: data.db_name,
                key: data.key.clone(),
                quota: data.quota,
            },
        }
    }

    /// Whether the task can go on from the outcome.
    pub fn accepts(&self, outcome: &SqlOutcome) -> (ok: bool)
        ensures
            ok == task_accepts(*self, *outcome),
    {
        match self.stage {
            BridgeStage::Requested => match self.instruction.kind {
                InstructionKind::Query => match outcome {
                    SqlOutcome::Fetched(Some(_)) => true,
                    SqlOutcome::Failed(_) => true,
                    _ => false,
                },
                _ => match outcome {
                    SqlOutcome::Executed => true,
                    SqlOutcome::Failed(_) => true,
                    _ => false,
                },
            },
            BridgeStage::RegisteringAddress => match outcome {
                SqlOutcome::Executed => true,
                _ => false,
            },
        }
    }

    /// The next step on an outcome of the current command.
    pub fn advance(self, outcome: SqlOutcome) -> (step: BridgeStep)
        requires
            task_accepts(self, outcome),
        ensures
            step == task_advance(self, outcome),
    {
        match self.stage {
            BridgeStage::Requested => match outcome {
                SqlOutcome::Failed(e) => {
                    let address_query = match (self.instruction.kind, self.instruction.key_data.db_name) {
                        (InstructionKind::Query, Db::IP_BOOK) => true,
                        _ => false,
                    };
                    if address_query {
                        BridgeStep::Run(BridgeTask { instruction: self.instruction, stage: BridgeStage::RegisteringAddress })
                    } else {
                        BridgeStep::Reply(Err(e))
                    }
                },
                SqlOutcome::Fetched(Some(q)) => BridgeStep::Reply(Ok(DbResult::QueryRes(q))),
                SqlOutcome::Fetched(None) => BridgeStep::Reply(Ok(DbResult::Done)),
                SqlOutcome::Executed => BridgeStep::Reply(Ok(DbResult::Done)),
            },
            BridgeStage::RegisteringAddress => BridgeStep::Reply(Ok(DbResult::QueryRes(DEFAULT_QUOTA))),
        }
    }
}

/// The connection address of the `databases` database on a PostgreSQL host.
pub open spec fn postgres_url(user: Seq<char>, password: Seq<char>, host: Seq<char>) -> Seq<char> {
    "postgres://"@ + user + ":"@ + password + "@"@ + host + "/databases"@
}

/// Builds the address the database pool connects to.
pub fn database_url(user: &str, password: &str, host: &str) -> (url: String)
    ensures
        url@ == postgres_url(user@, password@, host@),
{
    let mut url = "postgres://".to_owned();
    url.append(user);
    url.append(":");
    url.append(password);
    url.append("@");
    url.append(host);
    url.append("/databases");
    url
}

/// Every command a task runs reads or writes the table named by its
/// instruction's record.
pub proof fn lemma_command_targets_record_table(task: BridgeTask)
    ensures
        task_command(task).table() == task.instruction.key_data.db_name,
{
}

/// A lookup of a client address is always answered with a quota: a found row
/// gives its own, and an unknown address is first registered with the
/// record's quota and then answered with the default quota; it never answers
/// with an error.
pub proof fn lemma_address_lookup_always_answers(task: BridgeTask, first: SqlOutcome, second: SqlOutcome)
    requires
        task.stage == BridgeStage::Requested,
        is_address_query(task.instruction),
        task_accepts(task, first),
    ensures
        match task_advance(task, first) {
            BridgeStep::Reply(reply) => reply matches Ok(DbResult::QueryRes(_)),
            BridgeStep::Run(next) => {
                &&& task_command(next) == (DbCommand::Insert {
                    db: Db::IP_BOOK,
                    key: task.instruction.key_data.key,
                    quota: task.instruction.key_data.quota,
                })
                &&& task_accepts(next, second) ==> task_advance(next, second) == BridgeStep::Reply(
                    Ok(DbResult::QueryRes(DEFAULT_QUOTA)),
                )
            },
        },
{
}

/// Outside the address table's lookup, a failure is answered with that same
/// failure; a lookup that finds its row answers with the row's quota, and
/// any other instruction that runs answers `Done`.
pub proof fn lemma_replies_pass_results_on(task: BridgeTask, outcome: SqlOutcome)
    requires
        task.stage == BridgeStage::Requested,
        task_accepts(task, outcome),
    ensures
        outcome matches SqlOutcome::Failed(e) ==> (!is_address_query(task.instruction)
            ==> task_advance(task, outcome) == BridgeStep::Reply(Err(e))),
        outcome matches SqlOutcome::Fetched(Some(q))
            ==> task.instruction.kind == InstructionKind::Query
            && task_advance(task, outcome) == BridgeStep::Reply(Ok(DbResult::QueryRes(q))),
        outcome is Executed ==> task.instruction.kind != InstructionKind::Query
            && task_advance(task, outcome) == BridgeStep::Reply(Ok(DbResult::Done)),
{
}

/// Each instruction kind does its one thing to the record it names, whatever
/// the table: a registration inserts the record with its key and quota, an
/// update takes one query off that same record, a lookup reads that record,
/// and a reset covers the whole table of the record.
pub proof fn lemma_instruction_commands(task: BridgeTask)
    requires
        task.stage == BridgeStage::Requested,
    ensures
        task.instruction.kind == InstructionKind::Register ==> task_command(task) == (DbCommand::Insert {
            db: task.instruction.key_data.db_name,
            key: task.instruction.key_data.key,
            quota: task.instruction.key_data.quota,
        }),
        task.instruction.kind == InstructionKind::Update ==> task_command(task) == (DbCommand::Decrement {
            db: task.instruction.key_data.db_name,
            key: task.instruction.key_data.key,
        }),
        task.instruction.kind == InstructionKind::Query ==> task_command(task) == (DbCommand::Select {
            db: task.instruction.key_data.db_name,
            key: task.instruction.key_data.key,
        }),
        task.instruction.kind == InstructionKind::Reset ==> task_command(task) == (DbCommand::ResetAll {
            db: task.instruction.key_data.db_name,
        }),
{
}

/// A task registering an address inserts that address with the record's
/// quota, and once the insert ran it answers with the default quota.
pub proof fn lemma_registration_command(task: BridgeTask)
    requires
        task.stage == BridgeStage::RegisteringAddress,
    ensures
        task_command(task) == (DbCommand::Insert {
            db: task.instruction.key_data.db_name,
            key: task.instruction.key_data.key,
            quota: task.instruction.key_data.quota,
        }),
        task_advance(task, SqlOutcome::Executed) == BridgeStep::Reply(Ok(DbResult::QueryRes(10))),
{
}

/// Which outcomes a task goes on from. A lookup goes on from a found row with
/// a quota and from every failure, in either table (a failed address lookup
/// goes on to register the address); any other instruction goes on from a run
/// statement and from every failure; a registration of an address goes on
/// only once the insert ran.
pub proof fn lemma_accepted_outcomes(task: BridgeTask, e: DbError, q: i32)
    ensures
        task.stage == BridgeStage::Requested && task.instruction.kind == InstructionKind::Query ==> {
            &&& task_accepts(task, SqlOutcome::Failed(e))
            &&& task_accepts(task, SqlOutcome::Fetched(Some(q)))
            &&& !task_accepts(task, SqlOutcome::Fetched(None))
            &&& !task_accepts(task, SqlOutcome::Executed)
        },
        task.stage == BridgeStage::Requested && task.instruction.kind != InstructionKind::Query ==> {
            &&& task_accepts(task, SqlOutcome::Failed(e))
            &&& task_accepts(task, SqlOutcome::Executed)
            &&& !task_accepts(task, SqlOutcome::Fetched(Some(q)))
        },
        task.stage == BridgeStage::Requested && is_address_query(task.instruction) ==> task_advance(
            task,
            SqlOutcome::Failed(e),
        ) == BridgeStep::Run(
            BridgeTask { instruction: task.instruction, stage: BridgeStage::RegisteringAddress },
        ),
        task.stage == BridgeStage::RegisteringAddress ==> task_accepts(task, SqlOutcome::Executed)
            && !task_accepts(task, SqlOutcome::Failed(e)),
{
}

/// The statement text of a command depends on its kind and table alone, never
/// on the values bound to it, and names the table and column of that table.
pub proof fn lemma_sql_text(key: String, other: String, quota: i32, other_quota: i32)
    ensures
        sql_text(DbCommand::Insert { db: Db::API_KEY, key, quota })
            == "INSERT INTO keys (api_key, queries_left) VALUES ($1, $2)"@,
        sql_text(DbCommand::Insert { db: Db::IP_BOOK, key, quota })
            == "INSERT INTO ip_book (ip, queries_left) VALUES ($1, $2)"@,
        sql_text(DbCommand::Decrement { db: Db::API_KEY, key })
            == "UPDATE keys SET queries_left = queries_left - 1 WHERE api_key = $1"@,
        sql_text(DbCommand::Decrement { db: Db::IP_BOOK, key })
            == "UPDATE ip_book SET queries_left = queries_left - 1 WHERE ip = $1"@,
        sql_text(DbCommand::Select { db: Db::API_KEY, key }) == "SELECT queries_left FROM keys WHERE api_key = $1"@,
        sql_text(DbCommand::Select { db: Db::IP_BOOK, key }) == "SELECT queries_left FROM ip_book WHERE ip = $1"@,
        sql_text(DbCommand::ResetAll { db: Db::API_KEY }) == "UPDATE keys SET queries_left = 10;"@,
        sql_text(DbCommand::ResetAll { db: Db::IP_BOOK }) == "UPDATE ip_book SET queries_left = 10;"@,
        forall|db: Db|
            #![trigger sql_text(DbCommand::Select { db, key }), sql_text(DbCommand::Select { db, key: other })]
            sql_text(DbCommand::Select { db, key }) == sql_text(DbCommand::Select { db, key: other }),
        forall|db: Db|
            #![trigger sql_text(DbCommand::Decrement { db, key }), sql_text(DbCommand::Decrement { db, key: other })]
            sql_text(DbCommand::Decrement { db, key }) == sql_text(DbCommand::Decrement { db, key: other }),
        forall|db: Db|
            #![trigger sql_text(DbCommand::Insert { db, key, quota }), sql_text(DbCommand::Insert { db, key: other, quota: other_quota })]
            sql_text(DbCommand::Insert { db, key, quota }) == sql_text(
                DbCommand::Insert { db, key: other, quota: other_quota },
            ),
{
}

/// The connection address starts with the scheme, then the user, a colon, the
/// password, an `@` and the host, and ends with the database's path.
pub proof fn lemma_url_layout(user: Seq<char>, password: Seq<char>, host: Seq<char>)
    ensures
        ({
            let url = postgres_url(user, password, host);
            let u: int = 11 + user.len() as int;
            let p: int = u + 1 + password.len();
            let h: int = p + 1 + host.len();
            &&& url.len() == h + 10
            &&& url.subrange(0, 11) == "postgres://"@
            &&& url.subrange(11, u) == user
            &&& url[u] == ':'
            &&& url.subrange(u + 1, p) == password
            &&& url[p] == '@'
            &&& url.subrange(p + 1, h) == host
            &&& url.subrange(h, h + 10) == "/databases"@
        }),
{
    reveal_strlit("postgres://");
    reveal_strlit(":");
    reveal_strlit("@");
    reveal_strlit("/databases");
    let url = postgres_url(user, password, host);
    let u: int = 11 + user.len() as int;
    let p: int = u + 1 + password.len();
    let h: int = p + 1 + host.len();
    assert(url.subrange(0, 11) =~= "postgres://"@);
    assert(url.subrange(11, u) =~= user);
    assert(url.subrange(u + 1, p) =~= password);
    assert(url.subrange(p + 1, h) =~= host);
    assert(url.subrange(h, h + 10) =~= "/databases"@);
}

} // verus!
