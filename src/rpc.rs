//! One `getBalance` exchange: the request body that goes out, and what the
//! answer, or the failure to get one, means for the wallet.
use crate::json::{
    as_unsigned, find_member, json_document, json_string_literal, member, parse_json, quote_json,
    Json,
};
use vstd::prelude::*;
use vstd::string::StringExecFns;

verus! {

/// Why a wallet's balance could not be had.
#[derive(Debug)]
pub enum FetchError {
    /// The request was not sent or its answer not received; the cause as given.
    Transport(String),
    /// The answer's body is not JSON.
    Parse,
    /// The answer is JSON but holds no `result.value` that is a non-negative
    /// integer within `u64`.
    InvalidResponse,
}

/// The text that comes before the quoted wallet in a request body.
pub open spec fn request_head() -> Seq<char> {
    "{\"jsonrpc\":\"2.0\",\"id\":1,\"method\":\"getBalance\",\"params\":["@
}

/// The text that comes after the quoted wallet in a request body.
pub open spec fn request_tail() -> Seq<char> {
    "]}"@
}

/// The JSON-RPC 2.0 request that asks for the balance of `wallet`.
pub open spec fn request_text(wallet: Seq<char>) -> Seq<char> {
    request_head() + json_string_literal(wallet) + request_tail()
}

/// The balance in an answer: `result.value`, where it is a `u64`.
pub open spec fn balance_field(doc: Json) -> Option<u64> {
    match member(doc, "result"@) {
        Some(res) => match member(res, "value"@) {
            Some(v) => as_unsigned(v),
            None => None,
        },
        None => None,
    }
}

/// What an answer that parsed as `doc` says of the balance.
pub open spec fn balance_of(doc: Json) -> Result<u64, FetchError> {
    match balance_field(doc) {
        Some(n) => Ok(n),
        None => Err(FetchError::InvalidResponse),
    }
}

/// What an answer whose body is `body` says of the balance.
pub open spec fn body_outcome(body: Seq<char>) -> Result<u64, FetchError> {
    match json_document(body) {
        Some(doc) => balance_of(doc),
        None => Err(FetchError::Parse),
    }
}

/// What an exchange says of the balance: `Ok` with the answer's body, or `Err`
/// with the cause of a transport failure.
pub open spec fn exchange_outcome(exchange: Result<String, String>) -> Result<u64, FetchError> {
    match exchange {
        Ok(body) => body_outcome(body@),
        Err(cause) => Err(FetchError::Transport(cause)),
    }
}

/// The body of the request for the balance of `wallet`.
pub fn request_body(wallet: &str) -> (r: String)
    ensures
        r@ == request_text(wallet@),
{
    let mut body = String::from_str("{\"jsonrpc\":\"2.0\",\"id\":1,\"method\":\"getBalance\",\"params\":[");
    let quoted = quote_json(wallet);
    body.append(quoted.as_str());
    body.append("]}");
    body
}

/// Reads the balance out of a parsed answer.
pub fn balance_from_json(doc: &Json) -> (r: Result<u64, FetchError>)
    ensures
        r == balance_of(*doc),
{
    let result_key = String::from_str("result");
    let value_key = String::from_str("value");
    if let Json::Object(top) = doc {
        if let Some(i) = find_member(top, &result_key) {
            if let Json::Object(inner) = &top[i].1 {
                if let Some(j) = find_member(inner, &value_key) {
                    if let Json::Unsigned(n) = &inner[j].1 {
                        return Ok(*n);
                    }
                }
            }
        }
    }
    Err(FetchError::InvalidResponse)
}

/// Reads the balance out of an answer's body.
pub fn balance_from_body(body: &str) -> (r: Result<u64, FetchError>)
    ensures
        r == body_outcome(body@),
{
    match parse_json(body) {
        Some(doc) => balance_from_json(&doc),
        None => Err(FetchError::Parse),
    }
}

/// The outcome of one exchange: the body of the answer, or the cause of a
/// transport failure, turned into a balance or a classified failure.
pub fn classify_exchange(exchange: Result<String, String>) -> (r: Result<u64, FetchError>)
    ensures
        r == exchange_outcome(exchange),
{
    match exchange {
        Ok(body) => balance_from_body(body.as_str()),
        Err(cause) => Err(FetchError::Transport(cause)),
    }
}

/// Reading a body holds no state: the same body gives the same balance or the
/// same failure every time.
pub proof fn reading_is_repeatable(first: Seq<char>, second: Seq<char>)
    requires
        first == second,
    ensures
        body_outcome(first) == body_outcome(second),
{
}

/// Each failure lands in its own class: an answer whose `result` has no `value`
/// is an invalid response, a body that is not JSON is a parse failure, and a
/// failed exchange is a transport failure.
pub proof fn failure_classes(body: Seq<char>, doc: Json, result: Json, cause: String)
    ensures
        json_document(body) == Some(doc) && member(doc, "result"@) == Some(result) && member(
            result,
            "value"@,
        ) is None ==> body_outcome(body) == Err::<u64, FetchError>(FetchError::InvalidResponse),
        json_document(body) is None ==> body_outcome(body) == Err::<u64, FetchError>(
            FetchError::Parse,
        ),
        exchange_outcome(Err(cause)) == Err::<u64, FetchError>(FetchError::Transport(cause)),
{
}

} // verus!
