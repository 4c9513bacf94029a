//! The API's data: the project descriptor, the merge request it returns, the
//! creation request it takes, and the error raised by a failed call.
use vstd::prelude::*;

use crate::routes::{append_decimal, decimal_of};

verus! {

/// A project as the lookup endpoint describes it.
#[derive(Debug, Clone)]
pub struct Project {
    pub id: i64,
    pub description: String,
    pub name: String,
    pub name_with_namespace: String,
    pub path: String,
    pub path_with_namespace: String,
    pub created_at: String,
    pub default_branch: String,
    pub ssh_url_to_repo: String,
    pub http_url_to_repo: String,
    pub web_url: String,
    pub readme_url: String,
    pub forks_count: i64,
    pub star_count: i64,
    pub last_activity_at: String,
    pub container_registry_image_prefix: String,
    pub packages_enabled: bool,
    pub empty_repo: bool,
    pub archived: bool,
    pub visibility: String,
    pub resolve_outdated_diff_discussions: bool,
    pub issues_enabled: bool,
    pub merge_requests_enabled: bool,
}

/// A merge request as the creation endpoint returns it.
#[derive(Debug, Clone)]
pub struct MergeRequest {
    pub id: i64,
    pub title: String,
    pub target_branch: String,
    pub source_branch: String,
    pub web_url: String,
}

/// The body of a merge request creation call.
#[derive(Debug, Clone)]
pub struct CreateMergeRequestRequest {
    pub id: i64,
    pub source_branch: String,
    pub target_branch: String,
    pub title: String,
    pub description: String,
}

/// HTTP method of a call.
#[derive(Debug, Clone, Copy, PartialEq, Eq, Structural)]
pub enum Method {
    Get,
    Post,
}

/// Why a call failed.
#[derive(Debug, Clone, Copy, PartialEq, Eq, Structural)]
pub enum ErrorKind {
    /// The server could not be reached; there is no status code.
    Transport,
    /// The server answered with a status outside `200..=299`.
    Status,
    /// The server answered with success, but the body does not fit the expected shape.
    Decode,
}

/// A failed call: where it went, how, the status code (0 when there was none), and
/// the transport error, the decode error or the response body.
#[derive(Debug, Clone)]
pub struct ApiError {
    pub kind: ErrorKind,
    pub url: String,
    pub method: Method,
    pub status_code: u16,
    pub message: String,
}

/// Lower-case name of a method, as error messages show it.
pub open spec fn method_name(m: Method) -> Seq<char> {
    match m {
        Method::Get => "get"@,
        Method::Post => "post"@,
    }
}

/// The one-line description of an error.
pub open spec fn error_text(url: Seq<char>, method: Method, status_code: int, message: Seq<char>) -> Seq<
    char,
> {
    "ApiError{ url: "@ + url + ", method: "@ + method_name(method) + " code: "@ + decimal_of(
        status_code,
    ) + ", message: "@ + message + " }"@
}

impl ApiError {
    /// The error as one line of text.
    pub fn describe(&self) -> (r: String)
        ensures
            r@ == error_text(self.url@, self.method, self.status_code as int, self.message@),
    {
        let mut r = String::new();
        r.append("ApiError{ url: ");
        r.append(self.url.as_str());
        r.append(", method: ");
        match self.method {
            Method::Get => r.append("get"),
            Method::Post => r.append("post"),
        }
        r.append(" code: ");
        append_decimal(&mut r, self.status_code as i64);
        r.append(", message: ");
        r.append(self.message.as_str());
        r.append(" }");
        assert(r@ =~= error_text(self.url@, self.method, self.status_code as int, self.message@));
        r
    }
}

} // verus!

verus! {

/// The content of a creation request, as values.
pub struct RequestView {
    pub id: i64,
    pub source_branch: Seq<char>,
    pub target_branch: Seq<char>,
    pub title: Seq<char>,
    pub description: Seq<char>,
}

impl View for CreateMergeRequestRequest {
    type V = RequestView;

    open spec fn view(&self) -> RequestView {
        RequestView {
            id: self.id,
            source_branch: self.source_branch@,
            target_branch: self.target_branch@,
            title: self.title@,
            description: self.description@,
        }
    }
}

} // verus!
