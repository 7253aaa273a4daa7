//! The REST API's endpoints and how its responses are classified.
use vstd::prelude::*;

verus! {

pub open spec fn paper_base_url() -> Seq<char> {
    "https://paper-api.alpaca.markets/v2"@
}

pub open spec fn live_base_url() -> Seq<char> {
    "https://api.alpaca.markets/v2"@
}

/// The trading API base URL: the paper-trading endpoint or the live one.
pub fn trading_base_url(paper: bool) -> (r: &'static str)
    ensures
        r@ == if paper {
            paper_base_url()
        } else {
            live_base_url()
        },
{
    if paper {
        "https://paper-api.alpaca.markets/v2"
    } else {
        "https://api.alpaca.markets/v2"
    }
}

/// The market data API base URL (v2).
pub fn data_base_url() -> (r: &'static str)
    ensures
        r@ == "https://data.alpaca.markets/v2"@,
{
    "https://data.alpaca.markets/v2"
}

/// The market data API base URL (v1beta1, for options and latest quotes).
pub fn data_base_url_beta() -> (r: &'static str)
    ensures
        r@ == "https://data.alpaca.markets/v1beta1"@,
{
    "https://data.alpaca.markets/v1beta1"
}

/// A response the API refused.
#[derive(Debug)]
pub enum ApiFailure {
    /// HTTP 429.
    RateLimit,
    /// Any other status outside 200..=299, with the API's message.
    Api { status: u16, message: String },
}

/// The `"message"` string of a JSON object body, as `serde_json` reads it; `None`
/// when the body is not JSON or has no string `message`.
pub uninterp spec fn spec_json_message(body: Seq<char>) -> Option<Seq<char>>;

/// Calls `serde_json::from_str::<serde_json::Value>(body)` and takes the string at
/// key `"message"`. Claimed: the result is the named `spec_json_message(body)`.
#[verifier::external_body]
fn json_message_field(body: &str) -> (r: Option<String>)
    ensures
        match r {
            Some(m) => spec_json_message(body@) == Some(m@),
            None => spec_json_message(body@) is None,
        },
{
    match serde_json::from_str::<serde_json::Value>(body) {
        Ok(v) => match v["message"].as_str() {
            Some(m) => Some(m.to_string()),
            None => None,
        },
        Err(_) => None,
    }
}

pub open spec fn is_success_status(status: u16) -> bool {
    200 <= status < 300
}

/// The message reported for a refused response: the body's JSON `"message"` when
/// there is one, the whole body otherwise.
pub open spec fn spec_failure_message(body: Seq<char>) -> Seq<char> {
    match spec_json_message(body) {
        Some(m) => m,
        None => body,
    }
}

/// Classifies a response by its status and, once read, its body. The rate limit
/// (429) is told from the status alone, before the body is read (`body` is `None`);
/// with the body, any other status outside 200..=299 is an API error carrying the
/// body's message. `Ok` means the body is to be decoded.
pub fn check_response(status: u16, body: Option<&str>) -> (r: Result<(), ApiFailure>)
    ensures
        status == 429 ==> r matches Err(ApiFailure::RateLimit),
        status != 429 && body is None ==> r is Ok,
        status != 429 ==> (body matches Some(t) ==> if is_success_status(status) {
            r is Ok
        } else {
            r matches Err(ApiFailure::Api { status: s, message }) && s == status && message@
                == spec_failure_message(t@)
        }),
{
    if status == 429 {
        return Err(ApiFailure::RateLimit);
    }
    match body {
        None => Ok(()),
        Some(text) => {
            if status < 200 || status >= 300 {
                let message = match json_message_field(text) {
                    Some(m) => m,
                    None => text.to_owned(),
                };
                Err(ApiFailure::Api { status, message })
            } else {
                Ok(())
            }
        },
    }
}

/// Cancelling one order succeeded (HTTP 204 No Content).
pub fn order_cancel_accepted(status: u16) -> (r: bool)
    ensures
        r == (status == 204),
{
    status == 204
}

/// Cancelling all orders succeeded (HTTP 200, or 207 Multi-Status).
pub fn cancel_all_accepted(status: u16) -> (r: bool)
    ensures
        r == (status == 200 || status == 207),
{
    status == 207 || status == 200
}

/// The error for a latest-quotes response that carries no quote for `symbol`.
pub fn missing_quote_failure(symbol: &str) -> (r: ApiFailure)
    ensures
        r matches ApiFailure::Api { status, message } && status == 200 && message@
            == "No quote returned for "@ + symbol@,
{
    let mut message = "No quote returned for ".to_owned();
    message.append(symbol);
    ApiFailure::Api { status: 200, message }
}

} // verus!
