//! Turning what the transport reports about one call into a value or an `ApiError`.
use vstd::prelude::*;

use crate::models::{ApiError, ErrorKind, Method};

verus! {

/// What came back from one call, as the transport reports it.
#[derive(Debug)]
pub enum Reply<T> {
    /// No response: the connection failed; `message` is the transport's error.
    Unreachable { message: String },
    /// A response: its status, its body as text, and the body read as a `T`, or
    /// why it could not be.
    Answered { status: u16, body: String, decoded: Result<T, String> },
}

/// Whether a status code reports success.
pub open spec fn is_success(status: u16) -> bool {
    200 <= status && status <= 299
}

/// Whether the call succeeded: a success status with a body of the expected shape.
pub open spec fn reply_succeeds<T>(reply: Reply<T>) -> bool {
    match reply {
        Reply::Answered { status, decoded: Ok(_), .. } => is_success(status),
        _ => false,
    }
}

/// The value that a successful call returned.
pub open spec fn reply_value<T>(reply: Reply<T>) -> T
    recommends
        reply_succeeds(reply),
{
    match reply {
        Reply::Answered { decoded: Ok(v), .. } => v,
        _ => arbitrary(),
    }
}

/// `e` is the error that a failed call to `url` by `method` gives.
pub open spec fn error_for<T>(url: Seq<char>, method: Method, reply: Reply<T>, e: ApiError) -> bool {
    &&& e.url@ == url
    &&& e.method == method
    &&& match reply {
        Reply::Unreachable { message } => {
            &&& e.kind == ErrorKind::Transport
            &&& e.status_code == 0
            &&& e.message@ == message@
        },
        Reply::Answered { status, body, decoded } => {
            &&& e.status_code == status
            &&& if !is_success(status) {
                e.kind == ErrorKind::Status && e.message@ == body@
            } else {
                match decoded {
                    Err(why) => e.kind == ErrorKind::Decode && e.message@ == why@,
                    Ok(_) => false,
                }
            }
        },
    }
}

/// The outcome of a call to `url` by `method`: the decoded body on success, else
/// the error that says why not.
pub fn settle<T>(url: String, method: Method, reply: Reply<T>) -> (r: Result<T, ApiError>)
    ensures
        r is Ok <==> reply_succeeds(reply),
        r matches Ok(v) ==> v == reply_value(reply),
        r matches Err(e) ==> error_for(url@, method, reply, e),
{
    match reply {
        Reply::Unreachable { message } => Err(
            ApiError { kind: ErrorKind::Transport, url, method, status_code: 0, message },
        ),
        Reply::Answered { status, body, decoded } => {
            if status < 200 || status > 299 {
                Err(ApiError { kind: ErrorKind::Status, url, method, status_code: status, message: body })
            } else {
                match decoded {
                    Ok(v) => Ok(v),
                    Err(why) => Err(
                        ApiError {
                            kind: ErrorKind::Decode,
                            url,
                            method,
                            status_code: status,
                            message: why,
                        },
                    ),
                }
            }
        },
    }
}

} // verus!
