use metered_api_server::{
    bad_request_msg, begin_registration, get_random_quote, parse_quotes, quote_at, registration_reply,
    reset_instructions, too_many_requests_msg, CustomError, Db, DbError, DbInstruction, DbResult, GetDataState,
    GetDataStep, InstructionKind, KeyRegistarationData, RegisterReply, RESET_INTERVAL_SECS,
};

fn quotes() -> Vec<String> {
    vec!["first quote".to_string(), "second quote".to_string(), "third".to_string()]
}

#[test]
fn parse_quotes_reads_string_arrays() {
    assert_eq!(parse_quotes(r#"["a", "b c"]"#), Some(vec!["a".to_string(), "b c".to_string()]));
    assert_eq!(parse_quotes("[]"), Some(vec![]));
    assert_eq!(parse_quotes(r#"{"a": 1}"#), None);
    assert_eq!(parse_quotes("[1, 2]"), None);
    assert_eq!(parse_quotes("not json"), None);
}

#[test]
fn random_quote_comes_from_the_list() {
    let list = quotes();
    for _ in 0..50 {
        let q = get_random_quote(&list);
        assert!(list.iter().any(|s| s == q));
    }
    assert_eq!(quote_at(&list, 1), "second quote");
}

#[test]
fn status_codes_and_bodies() {
    assert_eq!(CustomError::SqlxErr(DbError::RowNotFound).status_code(), 400);
    assert_eq!(CustomError::SqlxErr(DbError::Other).status_code(), 500);
    assert_eq!(CustomError::QuotaExhausted.status_code(), 429);
    assert_eq!(CustomError::OtherErr.status_code(), 500);
    let (status, body) = CustomError::QuotaExhausted.error_response();
    assert_eq!(status, 429);
    assert_eq!(body.message(), "Quota exhausted try again later");
    let (status, body) = CustomError::SqlxErr(DbError::RowNotFound).error_response();
    assert_eq!(status, 400);
    assert_eq!(body.message(), "bad credentials");
    assert_eq!(too_many_requests_msg().message(), "Quota exhausted try again later");
    assert_eq!(bad_request_msg().message(), "bad credentials");
}

#[test]
fn get_data_uses_api_key_when_present() {
    let (state, instr) = GetDataState::begin(Some("idk"), Some("1.1.1.1"));
    let data = KeyRegistarationData::get_with_exisiting("idk", Db::API_KEY);
    assert_eq!(state, GetDataState::AwaitingQuery(data.clone()));
    assert_eq!(instr, DbInstruction::new(InstructionKind::Query, data));
}

#[test]
fn get_data_falls_back_to_client_address() {
    let (state, instr) = GetDataState::begin(None, Some("1.1.1.1"));
    let data = KeyRegistarationData::get_with_exisiting("1.1.1.1", Db::IP_BOOK);
    assert_eq!(state, GetDataState::AwaitingQuery(data.clone()));
    assert_eq!(instr.kind, InstructionKind::Query);
    assert_eq!(instr.key_data, data);
}

#[test]
fn get_data_serves_and_takes_one_query() {
    let list = quotes();
    let (state, _) = GetDataState::begin(Some("idk"), None);
    let step = state.on_db_reply(Ok(DbResult::QueryRes(3)), &list);
    let data = KeyRegistarationData::get_with_exisiting("idk", Db::API_KEY);
    let next = match step {
        GetDataStep::Send(next, instr) => {
            assert_eq!(instr, DbInstruction::new(InstructionKind::Update, data));
            next
        }
        other => panic!("expected an update, got {:?}", other),
    };
    assert_eq!(next, GetDataState::AwaitingUpdate(3));
    match next.on_db_reply(Ok(DbResult::Done), &list) {
        GetDataStep::Respond(Ok(served)) => {
            assert_eq!(served.queries_left, 2);
            assert!(list.contains(&served.msg));
        }
        other => panic!("expected a quote, got {:?}", other),
    }
}

#[test]
fn get_data_refuses_when_quota_is_used_up() {
    let list = quotes();
    for left in [0, -1, i32::MIN] {
        let (state, _) = GetDataState::begin(None, Some("8.8.8.8"));
        assert_eq!(
            state.on_db_reply(Ok(DbResult::QueryRes(left)), &list),
            GetDataStep::Respond(Err(CustomError::QuotaExhausted))
        );
    }
}

#[test]
fn get_data_passes_database_failures_on() {
    let list = quotes();
    let (state, _) = GetDataState::begin(Some("nobody"), None);
    assert_eq!(
        state.on_db_reply(Err(DbError::RowNotFound), &list),
        GetDataStep::Respond(Err(CustomError::SqlxErr(DbError::RowNotFound)))
    );
    assert_eq!(
        GetDataState::AwaitingUpdate(1).on_db_reply(Err(DbError::Other), &list),
        GetDataStep::Respond(Err(CustomError::SqlxErr(DbError::Other)))
    );
}

#[test]
fn last_query_leaves_zero() {
    let list = quotes();
    match GetDataState::AwaitingUpdate(1).on_db_reply(Ok(DbResult::QueryRes(0)), &list) {
        GetDataStep::Respond(Ok(served)) => assert_eq!(served.queries_left, 0),
        other => panic!("expected a quote, got {:?}", other),
    }
}

#[test]
fn registration_hands_out_stored_key() {
    let (key_reg, instr) = begin_registration();
    assert_eq!(key_reg.quota, 10);
    assert_eq!(key_reg.db_name, Db::API_KEY);
    assert_eq!(key_reg.key.len(), 32);
    assert_eq!(instr, DbInstruction::new(InstructionKind::Register, key_reg.clone()));
    let key = key_reg.key.clone();
    assert_eq!(
        registration_reply(key_reg.clone(), &Ok(DbResult::Done)),
        RegisterReply::Issued { api_key: key, quota: 10 }
    );
    assert_eq!(registration_reply(key_reg, &Err(DbError::Other)), RegisterReply::InternalError);
}

#[test]
fn reset_covers_both_tables() {
    let instrs = reset_instructions();
    assert_eq!(instrs.len(), 2);
    assert_eq!(
        instrs[0],
        DbInstruction::new(InstructionKind::Reset, KeyRegistarationData::get_with_exisiting("dummy", Db::API_KEY))
    );
    assert_eq!(
        instrs[1],
        DbInstruction::new(InstructionKind::Reset, KeyRegistarationData::get_with_exisiting("dummy", Db::IP_BOOK))
    );
    assert_eq!(RESET_INTERVAL_SECS, 30 * 60);
}
