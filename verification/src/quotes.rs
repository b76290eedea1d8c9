use rand::Rng;
use vstd::prelude::*;

verus! {

/// The list of strings that a JSON text holds when it is an array of strings,
/// and `None` when it is not.
pub uninterp spec fn json_string_array(text: Seq<char>) -> Option<Seq<Seq<char>>>;

/// Calls `serde_json::from_str::<Vec<String>>` on the text. What the parser
/// accepts is not restated here: the result is named by `json_string_array`,
/// which depends on the text alone.
#[verifier::external_body]
fn decode_string_array(text: &str) -> (res: Option<Vec<String>>)
    ensures
        match res {
            Some(list) => json_string_array(text@) == Some(list.deep_view()),
            None => json_string_array(text@) is None,
        },
{
    serde_json::from_str::<Vec<String>>(text).ok()
}

/// Calls `rand::Rng::gen_range(0..len)` on the thread-local generator, which
/// returns a value of the half-open range and panics when the range is empty.
/// Which value comes back is chance: only the range is claimed.
#[verifier::external_body]
fn random_index(len: usize) -> (index: usize)
    requires
        len > 0,
    ensures
        index < len,
{
    rand::thread_rng().gen_range(0..len)
}

/// Reads the list of quotes from the JSON text of the quotes file.
pub fn parse_quotes(text: &str) -> (quotes: Option<Vec<String>>)
    ensures
        match quotes {
            Some(list) => json_string_array(text@) == Some(list.deep_view()),
            None => json_string_array(text@) is None,
        },
{
    decode_string_array(text)
}

/// The quote at a given position.
pub fn quote_at(quotes: &Vec<String>, index: usize) -> (quote: &str)
    requires
        index < quotes@.len(),
    ensures
        quote@ == quotes@[index as int]@,
{
    quotes[index].as_str()
}

/// A quote picked at random from a non-empty list.
pub fn get_random_quote(quotes: &Vec<String>) -> (quote: &str)
    requires
        quotes@.len() > 0,
    ensures
        exists|i: int| 0 <= i < quotes@.len() && quote@ == #[trigger] quotes@[i]@,
{
    let index = random_index(quotes.len());
    quote_at(quotes, index)
}

} // verus!
