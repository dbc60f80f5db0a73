use vstd::prelude::*;

verus! {

pub const STATUS_OK: u16 = 200;

pub const STATUS_BAD_REQUEST: u16 = 400;

pub const STATUS_UNAUTHORIZED: u16 = 401;

pub const STATUS_NOT_FOUND: u16 = 404;

pub const STATUS_INTERNAL_ERROR: u16 = 500;

/// The error taxonomy shared by every endpoint.
#[derive(Debug, Clone, Copy, PartialEq, Eq, Structural)]
pub enum ApiError {
    BadRequest,
    Unauthorized,
    NotFound,
    InternalError,
}

pub open spec fn status_of(e: ApiError) -> u16 {
    match e {
        ApiError::BadRequest => STATUS_BAD_REQUEST,
        ApiError::Unauthorized => STATUS_UNAUTHORIZED,
        ApiError::NotFound => STATUS_NOT_FOUND,
        ApiError::InternalError => STATUS_INTERNAL_ERROR,
    }
}

impl ApiError {
    /// The HTTP status code that reports this error.
    pub fn status(&self) -> (r: u16)
        ensures
            r == status_of(*self),
    {
        match self {
            ApiError::BadRequest => STATUS_BAD_REQUEST,
            ApiError::Unauthorized => STATUS_UNAUTHORIZED,
            ApiError::NotFound => STATUS_NOT_FOUND,
            ApiError::InternalError => STATUS_INTERNAL_ERROR,
        }
    }
}

/// The uniform response shape: a status code, a message, and either a
/// payload or an error text.
#[derive(Debug, Clone)]
pub struct Envelope<T> {
    pub code: u16,
    pub message: String,
    pub data: Option<T>,
    pub error: Option<String>,
}

impl<T> Envelope<T> {
    pub open spec fn is_failure(&self) -> bool {
        self.error is Some
    }
}

/// Builds an envelope; an error text, when given, replaces the payload.
pub fn response_handler<T>(code: u16, message: String, data: Option<T>, err: Option<String>) -> (r:
    Envelope<T>)
    ensures
        r.code == code,
        r.message == message,
        err is Some ==> r.error == err && r.data is None,
        err is None ==> r.data == data && r.error is None,
{
    match err {
        Some(e) => Envelope { code, message, data: None, error: Some(e) },
        None => Envelope { code, message, data, error: None },
    }
}

/// An envelope that reports `e` with the message "error".
pub fn error_response<T>(e: ApiError, text: String) -> (r: Envelope<T>)
    ensures
        r.code == status_of(e),
        r.message@ == "error"@,
        r.data is None,
        r.error == Some(text),
{
    let code = e.status();
    response_handler(code, "error".to_string(), None, Some(text))
}

/// Whether Unicode assigns `c` to the Han script.
pub uninterp spec fn is_han(c: char) -> bool;

/// Relies on `unicode_script::Script::from(char)`: the script of a character
/// depends on the character alone.
#[verifier::external_body]
fn char_is_han(c: char) -> (r: bool)
    ensures
        r == is_han(c),
{
    unicode_script::Script::from(c) == unicode_script::Script::Han
}

pub open spec fn han_pred() -> spec_fn(char) -> bool {
    |c: char| is_han(c)
}

/// The number of Han ideographs in `s`.
pub open spec fn han_count(s: Seq<char>) -> nat {
    s.filter(han_pred()).len()
}

/// Counts the Han ideographs of `s`; categories are ordered by this count.
pub fn kanji_len(s: &str) -> (r: usize)
    ensures
        r == han_count(s@),
{
    let n = s.unicode_len();
    let mut i: usize = 0;
    let mut count: usize = 0;
    while i < n
        invariant
            n == s@.len(),
            i <= n,
            count == s@.subrange(0, i as int).filter(han_pred()).len(),
            count <= i,
        decreases n - i,
    {
        let c = s.get_char(i);
        proof {
            let pre = s@.subrange(0, i as int);
            let next = s@.subrange(0, i + 1);
            assert(next.drop_last() =~= pre);
            assert(next.last() == c);
            reveal(Seq::filter);
        }
        if char_is_han(c) {
            count = count + 1;
        }
        i = i + 1;
    }
    assert(s@.subrange(0, n as int) =~= s@);
    count
}

/// Relies on `chrono::Utc::now().timestamp()`: the seconds since the Unix
/// epoch, never negative (it fails on a clock set before the epoch) and
/// within the range of `chrono::DateTime` (years up to 262142).
#[verifier::external_body]
pub(crate) fn now_timestamp() -> (r: i64)
    ensures
        0 <= r <= 9_000_000_000_000,
{
    chrono::Utc::now().timestamp()
}

} // verus!
