//! The two API endpoints: project lookup by path, and merge request creation.
use vstd::prelude::*;
use vstd::utf8::is_ascii_chars;

verus! {

/// Scheme and host of the GitLab server.
pub const DOMAIN: &'static str = "https://gitlab.com";

/// Path of the REST API on that server.
pub const BASE_PATH: &'static str = "/api/v4";

/// The characters that percent-encoding leaves as they are.
pub open spec fn is_unreserved(c: char) -> bool {
    ('0' <= c && c <= '9') || ('A' <= c && c <= 'Z') || ('a' <= c && c <= 'z') || c == '-' || c
        == '.' || c == '_' || c == '~'
}

/// Upper-case hexadecimal digit of `d`, for `d < 16`.
pub open spec fn hex_digit(d: int) -> char {
    seq!['0', '1', '2', '3', '4', '5', '6', '7', '8', '9', 'A', 'B', 'C', 'D', 'E', 'F'][d]
}

/// One ASCII character, percent-encoded.
pub open spec fn percent_encoded_char(c: char) -> Seq<char> {
    if is_unreserved(c) {
        seq![c]
    } else {
        seq!['%', hex_digit(c as int / 16), hex_digit(c as int % 16)]
    }
}

/// An ASCII string, percent-encoded character by character.
pub open spec fn percent_encoded_ascii(s: Seq<char>) -> Seq<char>
    decreases s.len(),
{
    if s.len() == 0 {
        Seq::empty()
    } else {
        percent_encoded_ascii(s.drop_last()) + percent_encoded_char(s.last())
    }
}

/// What percent-encoding makes of `s` (for ASCII input, `percent_encoded_ascii(s)`).
pub uninterp spec fn url_encoded(s: Seq<char>) -> Seq<char>;

/// Relies on `urlencoding::encode`: every byte of the UTF-8 form except ASCII letters,
/// digits and `-._~` is written as `%` and two upper-case hexadecimal digits, so the
/// result holds unreserved characters and `%` only.
#[verifier::external_body]
fn percent_encode(s: &str) -> (r: String)
    ensures
        r@ == url_encoded(s@),
        is_ascii_chars(s@) ==> r@ == percent_encoded_ascii(s@),
        forall|i: int| 0 <= i < r@.len() ==> is_unreserved(#[trigger] r@[i]) || r@[i] == '%',
{
    urlencoding::encode(s).into_owned()
}

/// Decimal digit character of `d`, for `d < 10`.
pub open spec fn decimal_digit(d: int) -> char {
    seq!['0', '1', '2', '3', '4', '5', '6', '7', '8', '9'][d]
}

/// Decimal digits of a natural number, without leading zeros.
pub open spec fn digits_of(n: nat) -> Seq<char>
    decreases n,
{
    if n < 10 {
        seq![decimal_digit(n as int)]
    } else {
        digits_of(n / 10) + seq![decimal_digit((n % 10) as int)]
    }
}

/// Decimal form of an integer, with a leading `-` when it is negative.
pub open spec fn decimal_of(n: int) -> Seq<char> {
    if n < 0 {
        seq!['-'] + digits_of((-n) as nat)
    } else {
        digits_of(n as nat)
    }
}

/// Root of every endpoint: the server and the API path.
pub open spec fn api_root() -> Seq<char> {
    DOMAIN@ + BASE_PATH@
}

/// Endpoint that looks a project up by its path, the path being one encoded segment.
pub open spec fn project_route(path: Seq<char>) -> Seq<char> {
    api_root() + "/projects/"@ + url_encoded(path)
}

/// Endpoint that creates a merge request in the project with id `project_id`.
pub open spec fn merge_request_route(project_id: int) -> Seq<char> {
    api_root() + "/projects/"@ + decimal_of(project_id) + "/merge_requests"@
}

fn digit_str(d: u64) -> (r: &'static str)
    requires
        d < 10,
    ensures
        r@ == seq![decimal_digit(d as int)],
{
    proof {
        reveal_strlit("0");
        reveal_strlit("1");
        reveal_strlit("2");
        reveal_strlit("3");
        reveal_strlit("4");
        reveal_strlit("5");
        reveal_strlit("6");
        reveal_strlit("7");
        reveal_strlit("8");
        reveal_strlit("9");
    }
    match d {
        0 => "0",
        1 => "1",
        2 => "2",
        3 => "3",
        4 => "4",
        5 => "5",
        6 => "6",
        7 => "7",
        8 => "8",
        _ => "9",
    }
}

fn append_digits(r: &mut String, n: u64)
    ensures
        final(r)@ == old(r)@ + digits_of(n as nat),
    decreases n,
{
    if n >= 10 {
        append_digits(r, n / 10);
    }
    r.append(digit_str(n % 10));
    assert(final(r)@ =~= old(r)@ + digits_of(n as nat));
}

/// Appends the decimal form of `n` to `r`.
pub(crate) fn append_decimal(r: &mut String, n: i64)
    ensures
        final(r)@ == old(r)@ + decimal_of(n as int),
{
    if n < 0 {
        proof {
            reveal_strlit("-");
        }
        r.append("-");
        let magnitude: u64 = (0i128 - n as i128) as u64;
        append_digits(r, magnitude);
        assert(final(r)@ =~= old(r)@ + decimal_of(n as int));
    } else {
        append_digits(r, n as u64);
    }
}

/// Endpoint of the project with path `path` (such as `group/subgroup/repo`). The
/// path becomes one segment: no `/` follows the `/projects/` prefix.
pub fn route_get_projects_by_path(path: String) -> (r: String)
    ensures
        r@ == project_route(path@),
        is_ascii_chars(path@) ==> r@ == api_root() + "/projects/"@ + percent_encoded_ascii(path@),
        forall|i: int|
            (api_root() + "/projects/"@).len() <= i < r@.len() ==> #[trigger] r@[i] != '/',
{
    let mut r = String::new();
    r.append(DOMAIN);
    r.append(BASE_PATH);
    r.append("/projects/");
    let encoded = percent_encode(path.as_str());
    r.append(encoded.as_str());
    assert(r@ =~= project_route(path@));
    let ghost prefix = api_root() + "/projects/"@;
    assert forall|i: int| prefix.len() <= i < r@.len() implies #[trigger] r@[i] != '/' by {
        assert(r@[i] == encoded@[i - prefix.len()]);
    }
    r
}

/// Endpoint that creates merge requests in the project `project_id`.
pub fn route_create_merge_request(project_id: i64) -> (r: String)
    ensures
        r@ == merge_request_route(project_id as int),
{
    let mut r = String::new();
    r.append(DOMAIN);
    r.append(BASE_PATH);
    r.append("/projects/");
    append_decimal(&mut r, project_id);
    r.append("/merge_requests");
    assert(r@ =~= merge_request_route(project_id as int));
    r
}

} // verus!
