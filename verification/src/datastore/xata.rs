//! The wire format of the transactional counter store.
//!
//! A counter read is one store transaction: an update operation that
//! increments the user's count server-side and returns the count column.
//! Onboarding a user is an insert operation creating the counter at one.
//! This module pins down the exact transaction bodies sent and how each
//! response status and body is interpreted.

use vstd::prelude::*;
use vstd::string::StringExecFns;

use crate::datastore::operations::Error;
use crate::digits::dec_digits;
use crate::digits::to_decimal;
use crate::text::contains_seq;
use crate::text::contains_str;

verus! {

/// The transaction body that reads a user's counter, incrementing it
/// server-side.
pub open spec fn update_transaction_seq(table: Seq<char>, user: Seq<char>) -> Seq<char> {
    "{\"operations\":[{\"update\":{\"table\":\""@ + table + "\",\"id\":\""@ + user
        + "\",\"fields\":{\"count\":{\"$increment\":1}},\"columns\":[\"count\"]}}]}"@
}

/// The transaction body that creates a user's counter at one.
pub open spec fn insert_transaction_seq(table: Seq<char>, user: Seq<char>) -> Seq<char> {
    "{\"operations\":[{\"insert\":{\"table\":\""@ + table + "\",\"record\":{\"count\":1,\"id\":\""@
        + user + "\"},\"createOnly\":true,\"columns\":[\"count\"]}}]}"@
}

/// The transaction body that reads a user's counter. The caller supplies
/// plain names; no JSON string escaping is applied.
pub fn update_transaction_body(table: &str, user: &str) -> (r: String)
    ensures
        r@ == update_transaction_seq(table@, user@),
{
    let mut r = "{\"operations\":[{\"update\":{\"table\":\"".to_owned();
    r.append(table);
    r.append("\",\"id\":\"");
    r.append(user);
    r.append("\",\"fields\":{\"count\":{\"$increment\":1}},\"columns\":[\"count\"]}}]}");
    proof {
        assert(r@ =~= update_transaction_seq(table@, user@));
    }
    r
}

/// The transaction body that creates a user's counter at one. The caller
/// supplies plain names; no JSON string escaping is applied.
pub fn insert_transaction_body(table: &str, user: &str) -> (r: String)
    ensures
        r@ == insert_transaction_seq(table@, user@),
{
    let mut r = "{\"operations\":[{\"insert\":{\"table\":\"".to_owned();
    r.append(table);
    r.append("\",\"record\":{\"count\":1,\"id\":\"");
    r.append(user);
    r.append("\"},\"createOnly\":true,\"columns\":[\"count\"]}}]}");
    proof {
        assert(r@ =~= insert_transaction_seq(table@, user@));
    }
    r
}

/// The count a successful transaction response carries, if any.
pub uninterp spec fn views_count_in(body: Seq<char>) -> Option<u64>;

/// Relies on serde_json::from_str, Value::get and Value::as_u64: reads
/// `results[0].columns.count` from a response body as a u64. The result is
/// a function of the body text alone.
#[verifier::external_body]
fn extract_views_count(body: &str) -> (r: Option<u64>)
    ensures
        r == views_count_in(body@),
{
    let value: serde_json::Value = serde_json::from_str(body).ok()?;
    value.get("results")?.get(0)?.get("columns")?.get("count")?.as_u64()
}

/// The error message a failed transaction response carries, if any.
pub uninterp spec fn txn_error_message_in(body: Seq<char>) -> Option<Seq<char>>;

/// Relies on serde_json::from_str, Value::get and Value::as_str: reads
/// `errors[0].message` from a response body. The result is a function of
/// the body text alone.
#[verifier::external_body]
fn extract_txn_error_message(body: &str) -> (r: Option<String>)
    ensures
        r is Some <==> txn_error_message_in(body@) is Some,
        r matches Some(m) ==> txn_error_message_in(body@) == Some(m@),
{
    let value: serde_json::Value = serde_json::from_str(body).ok()?;
    Some(value.get("errors")?.get(0)?.get("message")?.as_str()?.to_owned())
}

/// The standard reason phrase shown after a status code in failure text,
/// for the statuses the store is expected to return; empty when the code
/// is not one of them.
pub open spec fn reason_suffix(status: u16) -> Seq<char> {
    if status == 200 {
        " OK"@
    } else if status == 201 {
        " Created"@
    } else if status == 204 {
        " No Content"@
    } else if status == 301 {
        " Moved Permanently"@
    } else if status == 302 {
        " Found"@
    } else if status == 304 {
        " Not Modified"@
    } else if status == 400 {
        " Bad Request"@
    } else if status == 401 {
        " Unauthorized"@
    } else if status == 403 {
        " Forbidden"@
    } else if status == 404 {
        " Not Found"@
    } else if status == 408 {
        " Request Timeout"@
    } else if status == 429 {
        " Too Many Requests"@
    } else if status == 500 {
        " Internal Server Error"@
    } else if status == 502 {
        " Bad Gateway"@
    } else if status == 503 {
        " Service Unavailable"@
    } else if status == 504 {
        " Gateway Timeout"@
    } else {
        Seq::<char>::empty()
    }
}

/// The standard reason phrase shown after a status code in failure text.
fn reason_suffix_str(status: u16) -> (s: &'static str)
    ensures
        s@ == reason_suffix(status),
{
    proof {
        reveal_strlit("");
    }
    if status == 200 {
        " OK"
    } else if status == 201 {
        " Created"
    } else if status == 204 {
        " No Content"
    } else if status == 301 {
        " Moved Permanently"
    } else if status == 302 {
        " Found"
    } else if status == 304 {
        " Not Modified"
    } else if status == 400 {
        " Bad Request"
    } else if status == 401 {
        " Unauthorized"
    } else if status == 403 {
        " Forbidden"
    } else if status == 404 {
        " Not Found"
    } else if status == 408 {
        " Request Timeout"
    } else if status == 429 {
        " Too Many Requests"
    } else if status == 500 {
        " Internal Server Error"
    } else if status == 502 {
        " Bad Gateway"
    } else if status == 503 {
        " Service Unavailable"
    } else if status == 504 {
        " Gateway Timeout"
    } else {
        ""
    }
}

/// The status line quoted in failure text: the decimal code, then its
/// reason phrase when the code is a standard one.
pub open spec fn status_line_seq(status: u16) -> Seq<char> {
    dec_digits(status as nat) + reason_suffix(status)
}

/// The text of the unexpected-store-failure error for a response: the
/// status line and the server's message.
pub open spec fn unexpected_text(status: u16, body: Seq<char>) -> Seq<char> {
    "status code: "@ + status_line_seq(status) + ", server error message: "@ + body
}

/// The unexpected-store-failure error for a response outside the statuses
/// the transaction protocol speaks of.
pub fn unexpected_error(status: u16, body: &str) -> (e: Error)
    ensures
        (match e {
            Error::Unexpected(s) => s@ == unexpected_text(status, body@),
            _ => false,
        }),
{
    let mut s = "status code: ".to_owned();
    let code = to_decimal(status as u64);
    s.append(code.as_str());
    s.append(reason_suffix_str(status));
    s.append(", server error message: ");
    s.append(body);
    proof {
        assert(s@ =~= unexpected_text(status, body@));
    }
    Error::Unexpected(s)
}

/// The error message marks the user's counter as missing.
pub open spec fn not_found_marker(m: Seq<char>, user: Seq<char>) -> bool {
    contains_seq(m, user) && contains_seq(m, "not found"@)
}

/// The fallback text when a transaction error does not mark the user's
/// counter as missing.
pub open spec fn update_failed_text(user: Seq<char>, m: Seq<char>) -> Seq<char> {
    "failed to update count for user: `"@ + user + "`, error: "@ + m
}

/// What a counter-read transaction response means. A success body yields
/// the fresh count; a transaction error whose message names the user and
/// marks it not found means the user has no counter yet; any other
/// transaction error, unusable body or status is a store failure.
pub fn interpret_views_response(status: u16, body: &str, user_name: &str) -> (r: Result<u64, Error>)
    ensures
        status == 200 ==> (match views_count_in(body@) {
            Some(c) => (match r {
                Ok(v) => v == c,
                Err(_) => false,
            }),
            None => (match r {
                Err(Error::Client(s)) => s@ == "failed to deserialize server response"@,
                _ => false,
            }),
        }),
        status == 400 ==> (match txn_error_message_in(body@) {
            Some(m) => {
                &&& not_found_marker(m, user_name@) ==> (match r {
                    Err(Error::UserNotFound(u)) => u@ == user_name@,
                    _ => false,
                })
                &&& !not_found_marker(m, user_name@) ==> (match r {
                    Err(Error::Unexpected(s)) => s@ == update_failed_text(user_name@, m),
                    _ => false,
                })
            },
            None => (match r {
                Err(Error::Client(s)) => s@ == "failed to deserialize server response"@,
                _ => false,
            }),
        }),
        status != 200 && status != 400 ==> (match r {
            Err(Error::Unexpected(s)) => s@ == unexpected_text(status, body@),
            _ => false,
        }),
{
    if status == 200 {
        match extract_views_count(body) {
            Some(c) => Ok(c),
            None => Err(Error::Client("failed to deserialize server response".to_owned())),
        }
    } else if status == 400 {
        match extract_txn_error_message(body) {
            Some(m) => {
                if contains_str(m.as_str(), user_name) && contains_str(m.as_str(), "not found") {
                    Err(Error::UserNotFound(user_name.to_owned()))
                } else {
                    let mut s = "failed to update count for user: `".to_owned();
                    s.append(user_name);
                    s.append("`, error: ");
                    s.append(m.as_str());
                    proof {
                        assert(s@ =~= update_failed_text(user_name@, m@));
                    }
                    Err(Error::Unexpected(s))
                }
            },
            None => Err(Error::Client("failed to deserialize server response".to_owned())),
        }
    } else {
        Err(unexpected_error(status, body))
    }
}

/// What an onboarding transaction response means. A success body yields
/// the user's fresh counter, created at one; any other status or an
/// unusable body is a store failure.
pub fn interpret_onboard_response(status: u16, body: &str) -> (r: Result<u64, Error>)
    ensures
        status == 200 ==> (match views_count_in(body@) {
            Some(c) => (match r {
                Ok(v) => v == c,
                Err(_) => false,
            }),
            None => (match r {
                Err(Error::Client(s)) => s@ == "failed to deserialize server response"@,
                _ => false,
            }),
        }),
        status != 200 ==> (match r {
            Err(Error::Unexpected(s)) => s@ == unexpected_text(status, body@),
            _ => false,
        }),
{
    if status == 200 {
        match extract_views_count(body) {
            Some(c) => Ok(c),
            None => Err(Error::Client("failed to deserialize server response".to_owned())),
        }
    } else {
        Err(unexpected_error(status, body))
    }
}

} // verus!
