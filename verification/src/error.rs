//! Classification of HTTP responses into the errors the client surfaces.
//!
//! The transport layer hands the status code and the response text to
//! [`response_disposition`]; the decision which error, if any, a status
//! maps to is made and proved here.

use vstd::prelude::*;
use vstd::string::StringExecFns;

verus! {

/// An error surfaced to users of the client.  Each variant carries plain
/// data; the transport layer attaches these to its own failures as well.
#[derive(Clone, Debug, PartialEq)]
pub enum SdkError {
    /// The server answered 401.
    Authentication(String),
    /// The server answered 403.
    Authorization(String),
    /// Any other non-success answer.
    ServerError { status: u16, message: String },
}

/// A status in the 2xx range.
pub open spec fn status_is_success(status: u16) -> bool {
    200 <= status < 300
}

/// Decide what a response status means: success passes through, 401 and
/// 403 map to the two authentication errors, and every other non-success
/// status is a server error carrying the status itself.
pub fn response_disposition(status: u16, message: String) -> (r: Option<SdkError>)
    ensures
        r is None <==> status_is_success(status),
        status == 401 ==> r == Some(SdkError::Authentication(message)),
        status == 403 ==> r == Some(SdkError::Authorization(message)),
        (!status_is_success(status) && status != 401 && status != 403) ==> r == Some(
            SdkError::ServerError { status, message },
        ),
{
    if status == 401 {
        Some(SdkError::Authentication(message))
    } else if status == 403 {
        Some(SdkError::Authorization(message))
    } else if status >= 200 && status < 300 {
        None
    } else {
        Some(SdkError::ServerError { status, message })
    }
}

/// The message of an error body, or the given default when the body was
/// absent or empty.
pub fn body_message_or_default(body: Option<String>, default: &str) -> (r: String)
    ensures
        match body {
            Some(m) => if m@.len() == 0 {
                r@ == default@
            } else {
                r@ == m@
            },
            None => r@ == default@,
        },
{
    match body {
        Some(m) => {
            if m == String::new() {
                String::from_str(default)
            } else {
                proof {
                    if m@.len() == 0 {
                        assert(m@ =~= Seq::<char>::empty());
                    }
                }
                m
            }
        },
        None => String::from_str(default),
    }
}

/// The value of an `Authorization` header for a bearer token.
pub fn bearer_header_value(token: &str) -> (r: String)
    ensures
        r@ == "Bearer "@ + token@,
{
    let mut r = String::new();
    r.append("Bearer ");
    r.append(token);
    proof {
        assert(Seq::<char>::empty() + "Bearer "@ + token@ =~= "Bearer "@ + token@);
    }
    r
}

} // verus!
