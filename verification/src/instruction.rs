use uuid::Uuid;
use vstd::prelude::*;

verus! {

/// The quota every new record starts with, and the value a reset restores.
pub const DEFAULT_QUOTA: i32 = 10;

/// The table a quota record lives in: one keyed by API key, one keyed by
/// client address.
#[allow(non_camel_case_types)]
#[derive(Debug, Clone, Copy, PartialEq, Eq, Structural)]
pub enum Db {
    API_KEY,
    IP_BOOK,
}

/// What an instruction asks of the database.
#[derive(Debug, Clone, Copy, PartialEq, Eq, Structural)]
pub enum InstructionKind {
    Register,
    Update,
    Query,
    Reset,
}

/// A quota record as the handlers see it: its key, the quota it is created
/// with and the table it belongs to.
#[derive(Debug, PartialEq, Eq)]
pub struct KeyRegistarationData {
    pub key: String,
    pub quota: i32,
    pub db_name: Db,
}

/// One request to the database task.
#[derive(Debug, PartialEq, Eq)]
pub struct DbInstruction {
    pub kind: InstructionKind,
    pub key_data: KeyRegistarationData,
}

impl Clone for KeyRegistarationData {
    fn clone(&self) -> (res: Self)
        ensures
            res == *self,
    {
        KeyRegistarationData { key: self.key.clone(), quota: self.quota, db_name: self.db_name }
    }
}

impl DbInstruction {
    pub fn new(kind: InstructionKind, key_data: KeyRegistarationData) -> (res: Self)
        ensures
            res.kind == kind,
            res.key_data == key_data,
    {
        DbInstruction { kind, key_data }
    }
}

/// A lowercase hexadecimal digit.
pub open spec fn is_lower_hex_digit(c: char) -> bool {
    ('0' <= c && c <= '9') || ('a' <= c && c <= 'f')
}

/// The text of a random (version 4) UUID in its hyphenless form: 32 lowercase
/// hexadecimal digits, the version digit `4` at index 12 and one of the RFC
/// variant digits `8`, `9`, `a`, `b` at index 16.
pub open spec fn is_simple_v4_uuid(s: Seq<char>) -> bool {
    &&& s.len() == 32
    &&& forall|i: int| 0 <= i < 32 ==> #[trigger] is_lower_hex_digit(s[i])
    &&& s[12] == '4'
    &&& (s[16] == '8' || s[16] == '9' || s[16] == 'a' || s[16] == 'b')
}

/// Calls `uuid::Uuid::new_v4` and formats the result with `simple()` and
/// `to_string`. The value is random; what is claimed is only its shape, as the
/// crate's formatting code writes it: `Display` for `Simple` writes the 16
/// bytes as 32 lowercase hex digits, and `new_v4` sets the version nibble to 4
/// and the top variant bits to `10`.
#[verifier::external_body]
fn fresh_api_key() -> (key: String)
    ensures
        is_simple_v4_uuid(key@),
{
    Uuid::new_v4().simple().to_string()
}

impl KeyRegistarationData {
    /// A record for a newly issued API key: a random UUID, the default quota.
    pub fn new(db_name: Db) -> (res: Self)
        ensures
            is_simple_v4_uuid(res.key@),
            res.quota == DEFAULT_QUOTA,
            res.db_name == db_name,
    {
        let api_key = fresh_api_key();
        KeyRegistarationData { key: api_key, quota: DEFAULT_QUOTA, db_name }
    }

    /// A record for a key that already exists (or is tracked by address),
    /// carrying the default quota.
    pub fn get_with_exisiting(key: &str, db_name: Db) -> (res: Self)
        ensures
            res.key@ == key@,
            res.quota == DEFAULT_QUOTA,
            res.db_name == db_name,
    {
        KeyRegistarationData { key: key.to_owned(), quota: DEFAULT_QUOTA, db_name }
    }
}

} // verus!
