use metered_api_server::{
    database_url, Db, DbCommand, DbInstruction, InstructionKind, KeyRegistarationData, DEFAULT_QUOTA,
};

fn is_lower_hex(c: char) -> bool {
    c.is_ascii_digit() || ('a'..='f').contains(&c)
}

#[test]
fn existing_key_record_keeps_key_and_default_quota() {
    let data = KeyRegistarationData::get_with_exisiting("idk", Db::API_KEY);
    assert_eq!(data.key, "idk");
    assert_eq!(data.quota, 10);
    assert_eq!(data.db_name, Db::API_KEY);
    let addr = KeyRegistarationData::get_with_exisiting("127.0.0.1", Db::IP_BOOK);
    assert_eq!(addr.key, "127.0.0.1");
    assert_eq!(addr.quota, DEFAULT_QUOTA);
    assert_eq!(addr.db_name, Db::IP_BOOK);
}

#[test]
fn new_record_has_random_v4_key() {
    let a = KeyRegistarationData::new(Db::API_KEY);
    let b = KeyRegistarationData::new(Db::API_KEY);
    for data in [&a, &b] {
        let chars: Vec<char> = data.key.chars().collect();
        assert_eq!(chars.len(), 32);
        assert!(chars.iter().all(|c| is_lower_hex(*c)));
        assert_eq!(chars[12], '4');
        assert!(matches!(chars[16], '8' | '9' | 'a' | 'b'));
        assert_eq!(data.quota, 10);
        assert_eq!(data.db_name, Db::API_KEY);
    }
    assert_ne!(a.key, b.key);
}

#[test]
fn instruction_new_keeps_its_parts() {
    let data = KeyRegistarationData::get_with_exisiting("123", Db::IP_BOOK);
    let instr = DbInstruction::new(InstructionKind::Update, data.clone());
    assert_eq!(instr.kind, InstructionKind::Update);
    assert_eq!(instr.key_data, data);
}

#[test]
fn record_clone_is_equal() {
    let data = KeyRegistarationData::get_with_exisiting("abc", Db::API_KEY);
    let copy = data.clone();
    assert_eq!(copy.key, "abc");
    assert_eq!(copy.quota, 10);
    assert_eq!(copy.db_name, Db::API_KEY);
}

#[test]
fn sql_text_of_each_command() {
    let key = || String::from("k");
    let cases = [
        (DbCommand::Insert { db: Db::API_KEY, key: key(), quota: 10 }, "INSERT INTO keys (api_key, queries_left) VALUES ($1, $2)"),
        (DbCommand::Insert { db: Db::IP_BOOK, key: key(), quota: 10 }, "INSERT INTO ip_book (ip, queries_left) VALUES ($1, $2)"),
        (DbCommand::Decrement { db: Db::API_KEY, key: key() }, "UPDATE keys SET queries_left = queries_left - 1 WHERE api_key = $1"),
        (DbCommand::Decrement { db: Db::IP_BOOK, key: key() }, "UPDATE ip_book SET queries_left = queries_left - 1 WHERE ip = $1"),
        (DbCommand::Select { db: Db::API_KEY, key: key() }, "SELECT queries_left FROM keys WHERE api_key = $1"),
        (DbCommand::Select { db: Db::IP_BOOK, key: key() }, "SELECT queries_left FROM ip_book WHERE ip = $1"),
        (DbCommand::ResetAll { db: Db::API_KEY }, "UPDATE keys SET queries_left = 10;"),
        (DbCommand::ResetAll { db: Db::IP_BOOK }, "UPDATE ip_book SET queries_left = 10;"),
    ];
    for (cmd, text) in cases.iter() {
        assert_eq!(cmd.sql(), *text);
    }
}

#[test]
fn database_url_joins_parts() {
    assert_eq!(database_url("alice", "s3cret", "db:5432"), "postgres://alice:s3cret@db:5432/databases");
    assert_eq!(database_url("", "", ""), "postgres://:@/databases");
}
