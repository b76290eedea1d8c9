//! Quota metering for an API server that hands out quotes: the records that are
//! kept per API key and per client address, the database commands that read and
//! change them, and the decisions that the request handlers make on the replies.

mod database;
mod instruction;
mod quotes;
mod services;

pub use instruction::{is_simple_v4_uuid, Db, DbInstruction, InstructionKind, KeyRegistarationData, DEFAULT_QUOTA};
pub use database::{database_url, BridgeStage, BridgeStep, BridgeTask, DbCommand, DbError, DbResult, SqlOutcome};
pub use quotes::{get_random_quote, parse_quotes, quote_at};
pub use services::{bad_request_msg, begin_registration, registration_reply, reset_instructions, GetDataState, GetDataStep, QuotaReply, RegisterReply, too_many_requests_msg, CustomError, ErrorResponse, ResponseData, BAD_REQUEST, INTERNAL_SERVER_ERROR, RESET_INTERVAL_SECS, TOO_MANY_REQUESTS};
