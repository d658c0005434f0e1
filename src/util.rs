use crate::error::AppError;
use vstd::prelude::*;
use vstd::string::*;

verus! {

/// How returned items are rendered.
#[derive(Debug, Clone, Copy, PartialEq, Eq, Structural)]
pub enum Format {
    Csv,
    Json,
}

/// The session context: where the backend lives, who calls it, and how
/// results are rendered. Built once per invocation and never changed.
pub struct Cli {
    pub auth_token: String,
    pub output_format: Format,
    pub user_email: String,
    pub base_jira_url: String,
}

/// The decimal digit `d` (0 to 9) as a character.
pub open spec fn digit_char(d: nat) -> char {
    seq!['0', '1', '2', '3', '4', '5', '6', '7', '8', '9'][d as int]
}

/// The digits of `n` in base ten, most significant first, without leading zeros.
pub open spec fn digits_of(n: nat) -> Seq<char>
    decreases n,
{
    if n < 10 {
        seq![digit_char(n)]
    } else {
        digits_of(n / 10).push(digit_char(n % 10))
    }
}

/// `n` written in base ten, with a leading `-` when negative.
pub open spec fn decimal(n: int) -> Seq<char> {
    if n < 0 {
        seq!['-'] + digits_of((-n) as nat)
    } else {
        digits_of(n as nat)
    }
}

/// Relies on `i128`'s `Display` through `to_string`: base ten, `-` before a
/// negative number, no leading zeros.
#[verifier::external_body]
pub(crate) fn decimal_string(n: i128) -> (r: String)
    ensures
        r@ == decimal(n as int),
{
    n.to_string()
}

/// Standard base64 (with padding) of the UTF-8 bytes of a text.
pub uninterp spec fn base64_of(s: Seq<char>) -> Seq<char>;

/// Relies on `base64::encode`, which encodes with the standard alphabet and
/// padding; its result depends on the input alone. A `str` holds at most
/// `isize::MAX` bytes, so the length computation inside cannot overflow.
#[verifier::external_body]
#[allow(deprecated)]
fn base64_encode(s: &str) -> (r: String)
    ensures
        r@ == base64_of(s@),
{
    base64::encode(s)
}

/// The value of the `Authorization` header for a session.
pub open spec fn auth_header_spec(user: Seq<char>, token: Seq<char>) -> Seq<char> {
    "Basic "@ + base64_of(user + ":"@ + token)
}

/// Basic authentication from `user:token`, attached to every call.
pub fn auth_header(ctx: &Cli) -> (r: String)
    ensures
        r@ == auth_header_spec(ctx.user_email@, ctx.auth_token@),
{
    let mut credentials = ctx.user_email.clone();
    credentials.append(":");
    credentials.append(ctx.auth_token.as_str());
    let encoded = base64_encode(credentials.as_str());
    let mut header = String::from_str("Basic ");
    header.append(encoded.as_str());
    header
}

/// Whether an HTTP status counts as success.
pub open spec fn is_success(status: u16) -> bool {
    200 <= status <= 299
}

/// What the caller of a request declares it expects back.
#[derive(Debug, Clone, Copy, PartialEq, Eq, Structural)]
pub enum Expect {
    /// An acknowledgment: the body, whatever it holds, is not read.
    NoContent,
    /// A body that decodes into the declared schema.
    Body,
}

/// The outcome of decoding a body: a value, or a deserialization failure.
pub open spec fn decoded_outcome<T>(parsed: Option<T>) -> Result<Option<T>, AppError> {
    match parsed {
        Some(v) => Ok(Some(v)),
        None => Err(AppError::DeserializationError),
    }
}

/// Classifies a response. The status is checked first and a failing status
/// wins whatever the body holds; `decode` is called only for a successful
/// status when a body is expected, and its failure is a deserialization
/// error.
pub fn classify_response<T, F: FnOnce() -> Option<T>>(
    status: u16,
    expect: Expect,
    decode: F,
) -> (r: Result<Option<T>, AppError>)
    requires
        decode.requires(()),
    ensures
        !is_success(status) ==> r == Err::<Option<T>, AppError>(AppError::ApiCallBadStatus(status)),
        is_success(status) && expect is NoContent ==> r == Ok::<Option<T>, AppError>(None),
        is_success(status) && expect is Body ==> exists|p: Option<T>|
            decode.ensures((), p) && r == decoded_outcome(p),
{
    if status < 200 || status > 299 {
        return Err(AppError::ApiCallBadStatus(status));
    }
    match expect {
        Expect::NoContent => Ok(None),
        Expect::Body => {
            let parsed = decode();
            let r = match parsed {
                Some(v) => Ok(Some(v)),
                None => Err(AppError::DeserializationError),
            };
            assert(decode.ensures((), parsed) && r == decoded_outcome(parsed));
            r
        },
    }
}

} // verus!
