use crate::database::{planned_command, DbCommand, DbError, DbResult};
use crate::instruction::{is_simple_v4_uuid, Db, DbInstruction, InstructionKind, KeyRegistarationData, DEFAULT_QUOTA};
use crate::quotes::get_random_quote;
use vstd::prelude::*;

verus! {

/// HTTP status of a request with unknown credentials.
pub const BAD_REQUEST: u16 = 400;

/// HTTP status of a request whose quota is used up.
pub const TOO_MANY_REQUESTS: u16 = 429;

/// HTTP status of any other failure.
pub const INTERNAL_SERVER_ERROR: u16 = 500;

/// Seconds between two resets of every quota.
pub const RESET_INTERVAL_SECS: u64 = 1800;

/// The body of an error answer.
#[derive(Debug, Clone, Copy)]
pub struct ErrorResponse<'a> {
    message: &'a str,
}

impl<'a> ErrorResponse<'a> {
    pub fn new(message: &'a str) -> (r: Self)
        ensures
            r.text() == message@,
    {
        ErrorResponse { message }
    }

    pub closed spec fn text(self) -> Seq<char> {
        self.message@
    }

    pub fn message(&self) -> (m: &'a str)
        ensures
            m@ == self.text(),
    {
        self.message
    }
}

/// The text answered when a quota is used up.
pub open spec fn too_many_requests_text() -> Seq<char> {
    "Quota exhausted try again later"@
}

/// The text answered for unknown credentials.
pub open spec fn bad_request_text() -> Seq<char> {
    "bad credentials"@
}

/// The body answered when a quota is used up.
pub fn too_many_requests_msg() -> (r: ErrorResponse<'static>)
    ensures
        r.text() == too_many_requests_text(),
{
    ErrorResponse { message: "Quota exhausted try again later" }
}

/// The body answered for unknown credentials.
pub fn bad_request_msg() -> (r: ErrorResponse<'static>)
    ensures
        r.text() == bad_request_text(),
{
    ErrorResponse { message: "bad credentials" }
}

/// The data the index route serves.
#[derive(Debug, PartialEq, Eq)]
pub struct ResponseData {
    pub id: u32,
    pub msg: String,
}

/// Why a request for a quote was not served.
#[derive(Debug, Clone, Copy, PartialEq, Eq, Structural)]
pub enum CustomError {
    SqlxErr(DbError),
    QuotaExhausted,
    OtherErr,
}

/// The HTTP status each failure is answered with.
pub open spec fn status_of(e: CustomError) -> u16 {
    match e {
        CustomError::SqlxErr(DbError::RowNotFound) => BAD_REQUEST,
        CustomError::SqlxErr(DbError::Other) => INTERNAL_SERVER_ERROR,
        CustomError::QuotaExhausted => TOO_MANY_REQUESTS,
        CustomError::OtherErr => INTERNAL_SERVER_ERROR,
    }
}

/// The failures that are answered with a body: unknown credentials and a used
/// up quota.
pub open spec fn has_error_body(e: CustomError) -> bool {
    status_of(e) == BAD_REQUEST || status_of(e) == TOO_MANY_REQUESTS
}

/// The body text of an answered failure.
pub open spec fn error_body_text(e: CustomError) -> Seq<char> {
    if status_of(e) == BAD_REQUEST {
        bad_request_text()
    } else {
        too_many_requests_text()
    }
}

impl CustomError {
    pub fn status_code(&self) -> (code: u16)
        ensures
            code == status_of(*self),
    {
        match self {
            CustomError::SqlxErr(DbError::RowNotFound) => BAD_REQUEST,
            CustomError::SqlxErr(DbError::Other) => INTERNAL_SERVER_ERROR,
            CustomError::QuotaExhausted => TOO_MANY_REQUESTS,
            CustomError::OtherErr => INTERNAL_SERVER_ERROR,
        }
    }

    /// The status and body of the answer to a failure that has a body.
    pub fn error_response(&self) -> (res: (u16, ErrorResponse<'static>))
        requires
            has_error_body(*self),
        ensures
            res.0 == status_of(*self),
            res.1.text() == error_body_text(*self),
    {
        let status = self.status_code();
        if status == BAD_REQUEST {
            (status, bad_request_msg())
        } else {
            (status, too_many_requests_msg())
        }
    }
}

/// A served request: the quota left after it and a quote.
#[derive(Debug, PartialEq, Eq)]
pub struct QuotaReply {
    pub queries_left: i32,
    pub msg: String,
}

/// Where the handling of a request for a quote stands.
#[derive(Debug, PartialEq, Eq)]
pub enum GetDataState {
    /// The requester's remaining quota has been asked for.
    AwaitingQuery(KeyRegistarationData),
    /// One query is being taken off a quota that had the given number left.
    AwaitingUpdate(i32),
}

/// What the handler does next: send an instruction to the database task and
/// feed its reply to the new state, or answer the request.
#[derive(Debug, PartialEq, Eq)]
pub enum GetDataStep {
    Send(GetDataState, DbInstruction),
    Respond(Result<QuotaReply, CustomError>),
}

/// The record a request is metered on: its API key when it carries one, else
/// the client's address.
pub open spec fn requester_record(data: KeyRegistarationData, api_key: Option<&str>, client_ip: Option<&str>) -> bool {
    &&& data.quota == DEFAULT_QUOTA
    &&& match api_key {
        Some(key) => data.key@ == key@ && data.db_name == Db::API_KEY,
        None => data.key@ == client_ip->0@ && data.db_name == Db::IP_BOOK,
    }
}

/// The request has been started on the record it is metered on: the state
/// holds that record and the instruction looks up its quota.
pub open spec fn started_lookup(
    state: GetDataState,
    instruction: DbInstruction,
    api_key: Option<&str>,
    client_ip: Option<&str>,
) -> bool {
    &&& state matches GetDataState::AwaitingQuery(data)
    &&& requester_record(data, api_key, client_ip)
    &&& instruction == (DbInstruction { kind: InstructionKind::Query, key_data: data })
}

/// The step taken from a state on a database reply, given the quotes that can
/// be served.
pub open spec fn reply_step(
    state: GetDataState,
    reply: Result<DbResult, DbError>,
    quotes: Seq<Seq<char>>,
    step: GetDataStep,
) -> bool {
    match state {
        GetDataState::AwaitingQuery(data) => match reply {
            Err(e) => step == GetDataStep::Respond(Err(CustomError::SqlxErr(e))),
            Ok(DbResult::QueryRes(left)) => if left > 0 {
                step == GetDataStep::Send(
                    GetDataState::AwaitingUpdate(left),
                    (DbInstruction { kind: InstructionKind::Update, key_data: data }),
                )
            } else {
                step == GetDataStep::Respond(Err(CustomError::QuotaExhausted))
            },
            Ok(DbResult::Done) => false,
        },
        GetDataState::AwaitingUpdate(left) => match reply {
            Err(e) => step == GetDataStep::Respond(Err(CustomError::SqlxErr(e))),
            Ok(_) => step matches GetDataStep::Respond(Ok(served))
                && served.queries_left == left - 1
                && exists|i: int| 0 <= i < quotes.len() && served.msg@ == #[trigger] quotes[i],
        },
    }
}

impl GetDataState {
    /// An update is only ever pending for a quota that had queries left.
    pub open spec fn well_formed(self) -> bool {
        self matches GetDataState::AwaitingUpdate(left) ==> left > 0
    }

    /// The replies the state can go on from; a lookup is never answered with
    /// a bare `Done`.
    pub open spec fn expects(self, reply: Result<DbResult, DbError>) -> bool {
        !(self is AwaitingQuery && reply matches Ok(DbResult::Done))
    }

    /// Starts a request: the record to meter it on, and the lookup of its
    /// remaining quota.
    pub fn begin(api_key: Option<&str>, client_ip: Option<&str>) -> (res: (GetDataState, DbInstruction))
        requires
            api_key is Some || client_ip is Some,
        ensures
            started_lookup(res.0, res.1, api_key, client_ip),
            res.0.well_formed(),
    {
        let data = match api_key {
            Some(key) => KeyRegistarationData::get_with_exisiting(key, Db::API_KEY),
            None => KeyRegistarationData::get_with_exisiting(client_ip.unwrap(), Db::IP_BOOK),
        };
        let instruction = DbInstruction::new(InstructionKind::Query, data.clone());
        (GetDataState::AwaitingQuery(data), instruction)
    }

    /// Goes on from the database's reply. A lookup that finds queries left
    /// takes one off; one that finds none refuses the request; once the
    /// update is through the request is served with one query less than the
    /// lookup found and a quote from the list. Database failures are passed
    /// on.
    pub fn on_db_reply(self, reply: Result<DbResult, DbError>, quotes: &Vec<String>) -> (step: GetDataStep)
        requires
            self.well_formed(),
            self.expects(reply),
            self is AwaitingUpdate && reply is Ok ==> quotes@.len() > 0,
        ensures
            reply_step(self, reply, quotes.deep_view(), step),
            (step matches GetDataStep::Send(next, _) ==> next.well_formed()),
    {
        match self {
            GetDataState::AwaitingQuery(data) => match reply {
                Err(e) => GetDataStep::Respond(Err(CustomError::SqlxErr(e))),
                Ok(DbResult::QueryRes(left)) => {
                    if left > 0 {
                        GetDataStep::Send(
                            GetDataState::AwaitingUpdate(left),
                            DbInstruction::new(InstructionKind::Update, data),
                        )
                    } else {
                        GetDataStep::Respond(Err(CustomError::QuotaExhausted))
                    }
                },
                Ok(DbResult::Done) => GetDataStep::Respond(Err(CustomError::OtherErr)),
            },
            GetDataState::AwaitingUpdate(left) => match reply {
                Err(e) => GetDataStep::Respond(Err(CustomError::SqlxErr(e))),
                Ok(_) => {
                    let quote = get_random_quote(quotes);
                    let msg = quote.to_owned();
                    proof {
                        let i = choose|i: int| 0 <= i < quotes@.len() && quote@ == #[trigger] quotes@[i]@;
                        assert(quotes.deep_view()[i] == quotes@[i]@);
                    }
                    GetDataStep::Respond(Ok(QuotaReply { queries_left: left - 1, msg }))
                },
            },
        }
    }
}

/// The answer to a registration.
#[derive(Debug, PartialEq, Eq)]
pub enum RegisterReply {
    /// The key was stored; it is handed out with its quota.
    Issued { api_key: String, quota: i32 },
    /// The key could not be stored.
    InternalError,
}

/// Starts a registration: a fresh API key with the default quota, and the
/// instruction that stores it.
pub fn begin_registration() -> (res: (KeyRegistarationData, DbInstruction))
    ensures
        is_simple_v4_uuid(res.0.key@),
        res.0.quota == DEFAULT_QUOTA,
        res.0.db_name == Db::API_KEY,
        res.1 == (DbInstruction { kind: InstructionKind::Register, key_data: res.0 }),
{
    let key_reg = KeyRegistarationData::new(Db::API_KEY);
    let instruction = DbInstruction::new(InstructionKind::Register, key_reg.clone());
    (key_reg, instruction)
}

/// Answers a registration once the database has replied: the key and its
/// quota when it was stored, an internal error otherwise.
pub fn registration_reply(key_reg: KeyRegistarationData, reply: &Result<DbResult, DbError>) -> (res: RegisterReply)
    ensures
        reply is Ok ==> res == (RegisterReply::Issued { api_key: key_reg.key, quota: key_reg.quota }),
        reply is Err ==> res == RegisterReply::InternalError,
{
    match reply {
        Ok(_) => RegisterReply::Issued { api_key: key_reg.key, quota: key_reg.quota },
        Err(_) => RegisterReply::InternalError,
    }
}

/// The instructions sent at every reset: every API key's quota, then every
/// address's quota, back to the default.
pub fn reset_instructions() -> (res: Vec<DbInstruction>)
    ensures
        res@.len() == 2,
        res@[0].kind == InstructionKind::Reset,
        res@[0].key_data.key@ == "dummy"@,
        res@[0].key_data.quota == DEFAULT_QUOTA,
        res@[0].key_data.db_name == Db::API_KEY,
        res@[1].kind == InstructionKind::Reset,
        res@[1].key_data.key@ == "dummy"@,
        res@[1].key_data.quota == DEFAULT_QUOTA,
        res@[1].key_data.db_name == Db::IP_BOOK,
        planned_command(res@[0].kind, res@[0].key_data) == (DbCommand::ResetAll { db: Db::API_KEY }),
        planned_command(res@[1].kind, res@[1].key_data) == (DbCommand::ResetAll { db: Db::IP_BOOK }),
{
    let mut res: Vec<DbInstruction> = Vec::new();
    let keys = KeyRegistarationData::get_with_exisiting("dummy", Db::API_KEY);
    res.push(DbInstruction::new(InstructionKind::Reset, keys));
    let addresses = KeyRegistarationData::get_with_exisiting("dummy", Db::IP_BOOK);
    res.push(DbInstruction::new(InstructionKind::Reset, addresses));
    res
}

/// A request whose quota is used up is answered with status 429 and the
/// "quota exhausted" body.
pub proof fn lemma_exhausted_quota_answer()
    ensures
        status_of(CustomError::QuotaExhausted) == TOO_MANY_REQUESTS,
        has_error_body(CustomError::QuotaExhausted),
        error_body_text(CustomError::QuotaExhausted) == too_many_requests_text(),
{
}

/// A request with an API key that has no record is answered with status 400
/// and the "bad credentials" body.
pub proof fn lemma_unknown_key_answer()
    ensures
        status_of(CustomError::SqlxErr(DbError::RowNotFound)) == BAD_REQUEST,
        has_error_body(CustomError::SqlxErr(DbError::RowNotFound)),
        error_body_text(CustomError::SqlxErr(DbError::RowNotFound)) == bad_request_text(),
{
}

/// Exactly two failures are answered with a body: unknown credentials and a
/// used up quota; every other failure is a server error.
pub proof fn lemma_failures_with_body(e: CustomError)
    ensures
        has_error_body(e) <==> (e == CustomError::SqlxErr(DbError::RowNotFound) || e == CustomError::QuotaExhausted),
        !has_error_body(e) ==> status_of(e) == INTERNAL_SERVER_ERROR,
{
}

/// Metering: a lookup that finds no queries left refuses the request with
/// status 429 and sends nothing more to the database; one that finds `left > 0`
/// takes one query off the same record, and once that is through the request
/// is served reporting `left - 1` queries left.
pub proof fn lemma_metering(
    data: KeyRegistarationData,
    left: i32,
    quotes: Seq<Seq<char>>,
    first: GetDataStep,
    update_reply: DbResult,
    second: GetDataStep,
)
    requires
        reply_step(GetDataState::AwaitingQuery(data), Ok(DbResult::QueryRes(left)), quotes, first),
        first matches GetDataStep::Send(next, _) ==> reply_step(next, Ok(update_reply), quotes, second),
    ensures
        left <= 0 ==> first == GetDataStep::Respond(Err(CustomError::QuotaExhausted))
            && status_of(CustomError::QuotaExhausted) == TOO_MANY_REQUESTS,
        left > 0 ==> first == GetDataStep::Send(
            GetDataState::AwaitingUpdate(left),
            (DbInstruction { kind: InstructionKind::Update, key_data: data }),
        ),
        left > 0 ==> (second matches GetDataStep::Respond(Ok(served)) && served.queries_left == left - 1),
{
}

/// A request is metered on its API key whenever it carries one, and on the
/// client's address only when it does not; the record starts from the default
/// quota and the request begins with a lookup of that very record.
pub proof fn lemma_requester_record(
    state: GetDataState,
    instruction: DbInstruction,
    api_key: Option<&str>,
    client_ip: Option<&str>,
)
    requires
        started_lookup(state, instruction, api_key, client_ip),
    ensures
        instruction.kind == InstructionKind::Query,
        state == GetDataState::AwaitingQuery(instruction.key_data),
        instruction.key_data.quota == DEFAULT_QUOTA,
        api_key matches Some(k) ==> instruction.key_data.key@ == k@ && instruction.key_data.db_name == Db::API_KEY,
        api_key is None ==> instruction.key_data.key@ == client_ip->0@ && instruction.key_data.db_name == Db::IP_BOOK,
{
}

/// A database failure at either step of a request is answered with that
/// failure and nothing more is sent; a served request's quote is one of the
/// quotes.
pub proof fn lemma_request_failures_and_quotes(
    state: GetDataState,
    reply: Result<DbResult, DbError>,
    quotes: Seq<Seq<char>>,
    step: GetDataStep,
)
    requires
        reply_step(state, reply, quotes, step),
    ensures
        reply matches Err(e) ==> step == GetDataStep::Respond(Err(CustomError::SqlxErr(e))),
        step matches GetDataStep::Respond(Ok(served)) ==> state is AwaitingUpdate && reply is Ok
            && exists|i: int| 0 <= i < quotes.len() && served.msg@ == #[trigger] quotes[i],
        step matches GetDataStep::Send(next, instruction) ==> state is AwaitingQuery && next is AwaitingUpdate
            && instruction.kind == InstructionKind::Update,
{
}

} // verus!
