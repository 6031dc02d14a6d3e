//! The outbound link to a device: the token request and login exchanges.
//!
//! Each exchange is one JSON line out and one or two JSON lines back. The
//! caller does the socket work; this module builds the request lines and
//! decides what each response means.
use vstd::prelude::*;
use vstd::string::StringExecFns;
use crate::text::decimal;
use crate::json::{
    bool_member, json_bool_member, json_document_accepted, json_member_absent_or_null, json_quoted,
    json_string_literal, json_string_member, member_absent_or_null, string_member,
};

verus! {

/// A request sent to the device.
#[derive(Clone, Debug)]
pub struct AuthRequest {
    /// `request_token` or `login`.
    pub action: String,
    pub request_id: String,
    /// Present on a login only.
    pub token: Option<String>,
}

/// A response from the device.
#[derive(Clone, Debug)]
pub struct AuthResponse {
    pub success: bool,
    pub message: Option<String>,
    pub token: Option<String>,
    pub rejected: Option<bool>,
    pub request_id: Option<String>,
    pub pending: Option<bool>,
}

/// Why a link gave no usable credentials.
#[derive(Clone, Debug)]
pub enum LinkError {
    /// The device could not be reached.
    ConnectFailure(String),
    /// The device did not answer in time.
    Timeout,
    /// Reading or writing the connection failed.
    Transport(String),
    /// A response line was no well-formed response.
    MalformedResponse(Vec<u8>),
    /// A person on the device refused the request.
    Rejected,
    /// The response carried no token; the device's message, if any.
    NoToken(Option<String>),
    /// The device refused the login; its message, if any.
    LoginFailed(Option<String>),
}

/// What to do after the first response to a token request.
#[derive(Debug)]
pub enum TokenStep {
    /// The request waits for a person's decision: read one more response.
    AwaitDecision,
    /// The exchange is over.
    Done(Result<String, LinkError>),
}

pub open spec fn request_line_text(action: Seq<char>, request_id: Seq<char>, token: Option<Seq<char>>) -> Seq<char> {
    "{\"action\":"@ + json_quoted(action) + ",\"requestId\":"@ + json_quoted(request_id) + match token {
        Some(t) => ",\"token\":"@ + json_quoted(t),
        None => Seq::empty(),
    } + "}\n"@
}

impl AuthRequest {
    pub open spec fn token_view(self) -> Option<Seq<char>> {
        match self.token {
            Some(t) => Some(t@),
            None => None,
        }
    }

    /// The request's JSON line: members `action`, `requestId` and, on a
    /// login, `token`, then a line feed.
    pub open spec fn json_line(self) -> Seq<char> {
        request_line_text(self.action@, self.request_id@, self.token_view())
    }

    /// A request for a new token.
    pub fn request_token(request_id: String) -> (r: AuthRequest)
        ensures
            r.action@ == "request_token"@,
            r.request_id == request_id,
            r.token is None,
    {
        AuthRequest { action: "request_token".to_owned(), request_id, token: None }
    }

    /// A login with a token the device issued before.
    pub fn login(request_id: String, token: String) -> (r: AuthRequest)
        ensures
            r.action@ == "login"@,
            r.request_id == request_id,
            r.token == Some(token),
    {
        AuthRequest { action: "login".to_owned(), request_id, token: Some(token) }
    }

    pub fn to_json_line(&self) -> (r: String)
        ensures
            r@ == self.json_line(),
    {
        let mut s = String::from_str("{\"action\":");
        s.append(json_string_literal(self.action.as_str()).as_str());
        s.append(",\"requestId\":");
        s.append(json_string_literal(self.request_id.as_str()).as_str());
        match &self.token {
            Some(t) => {
                s.append(",\"token\":");
                s.append(json_string_literal(t.as_str()).as_str());
            },
            None => {},
        }
        s.append("}\n");
        assert(s@ =~= self.json_line());
        s
    }
}

/// An optional string member: `Some(Some(s))` for a string, `Some(None)` when
/// missing or `null`, `None` (unreadable) for anything else.
pub open spec fn optional_string_member(doc: Seq<u8>, key: Seq<char>) -> Option<Option<Seq<char>>> {
    match json_string_member(doc, key) {
        Some(s) => Some(Some(s)),
        None => if json_member_absent_or_null(doc, key) {
            Some(None)
        } else {
            None
        },
    }
}

/// An optional boolean member, read as [`optional_string_member`] reads strings.
pub open spec fn optional_bool_member(doc: Seq<u8>, key: Seq<char>) -> Option<Option<bool>> {
    match json_bool_member(doc, key) {
        Some(b) => Some(Some(b)),
        None => if json_member_absent_or_null(doc, key) {
            Some(None)
        } else {
            None
        },
    }
}

pub open spec fn string_view(o: Option<String>) -> Option<Seq<char>> {
    match o {
        Some(s) => Some(s@),
        None => None,
    }
}

/// Whether `doc` reads as a response: `success` a boolean, and each optional
/// member missing, `null` or of its type.
pub open spec fn response_readable(doc: Seq<u8>) -> bool {
    &&& json_bool_member(doc, "success"@) is Some
    &&& optional_string_member(doc, "message"@) is Some
    &&& optional_string_member(doc, "token"@) is Some
    &&& optional_bool_member(doc, "rejected"@) is Some
    &&& optional_string_member(doc, "requestId"@) is Some
    &&& optional_bool_member(doc, "pending"@) is Some
}

/// Each field of `resp` is the member of `doc` it is named after.
pub open spec fn response_read_from(doc: Seq<u8>, resp: AuthResponse) -> bool {
    &&& json_bool_member(doc, "success"@) == Some(resp.success)
    &&& optional_string_member(doc, "message"@) == Some(string_view(resp.message))
    &&& optional_string_member(doc, "token"@) == Some(string_view(resp.token))
    &&& optional_bool_member(doc, "rejected"@) == Some(resp.rejected)
    &&& optional_string_member(doc, "requestId"@) == Some(string_view(resp.request_id))
    &&& optional_bool_member(doc, "pending"@) == Some(resp.pending)
}

fn optional_str(doc: &[u8], key: &str) -> (r: Option<Option<String>>)
    ensures
        match r {
            Some(o) => optional_string_member(doc@, key@) == Some(string_view(o)),
            None => optional_string_member(doc@, key@) is None,
        },
{
    match string_member(doc, key) {
        Some(s) => Some(Some(s)),
        None => if member_absent_or_null(doc, key) {
            Some(None)
        } else {
            None
        },
    }
}

fn optional_bool(doc: &[u8], key: &str) -> (r: Option<Option<bool>>)
    ensures
        r == optional_bool_member(doc@, key@),
{
    match bool_member(doc, key) {
        Some(b) => Some(Some(b)),
        None => if member_absent_or_null(doc, key) {
            Some(None)
        } else {
            None
        },
    }
}

impl AuthResponse {
    /// Reads a response line: an object with a boolean `success`, and
    /// optional `message`, `token`, `requestId` (strings) and `rejected`,
    /// `pending` (booleans). `None` when the bytes are no JSON document,
    /// `success` is missing, or a member has the wrong type.
    pub fn from_json(bytes: &[u8]) -> (r: Option<AuthResponse>)
        ensures
            r is Some <==> response_readable(bytes@),
            r matches Some(resp) ==> response_read_from(bytes@, resp),
            r is Some ==> json_document_accepted(bytes@),
    {
        let success = match bool_member(bytes, "success") {
            Some(b) => b,
            None => return None,
        };
        let message = match optional_str(bytes, "message") {
            Some(m) => m,
            None => return None,
        };
        let token = match optional_str(bytes, "token") {
            Some(t) => t,
            None => return None,
        };
        let rejected = match optional_bool(bytes, "rejected") {
            Some(b) => b,
            None => return None,
        };
        let request_id = match optional_str(bytes, "requestId") {
            Some(t) => t,
            None => return None,
        };
        let pending = match optional_bool(bytes, "pending") {
            Some(b) => b,
            None => return None,
        };
        Some(AuthResponse { success, message, token, rejected, request_id, pending })
    }
}

/// What a response that settles a token request means: a refusal when
/// `rejected` is set, else its token, else the lack of one with the
/// device's message.
pub open spec fn token_decision(resp: AuthResponse) -> Result<String, LinkError> {
    if resp.rejected == Some(true) {
        Err(LinkError::Rejected)
    } else {
        match resp.token {
            Some(t) => Ok(t),
            None => Err(LinkError::NoToken(resp.message)),
        }
    }
}

/// Settles a token request on `resp`.
pub fn decide_token(resp: AuthResponse) -> (r: Result<String, LinkError>)
    ensures
        r == token_decision(resp),
{
    if resp.rejected == Some(true) {
        Err(LinkError::Rejected)
    } else {
        match resp.token {
            Some(t) => Ok(t),
            None => Err(LinkError::NoToken(resp.message)),
        }
    }
}

/// The first response to a token request: with `pending` set, the decision
/// follows in a second response; otherwise this one settles it.
pub fn on_first_response(resp: AuthResponse) -> (r: TokenStep)
    ensures
        resp.pending == Some(true) ==> r is AwaitDecision,
        resp.pending != Some(true) ==> (r matches TokenStep::Done(d) && d == token_decision(resp)),
{
    if resp.pending == Some(true) {
        TokenStep::AwaitDecision
    } else {
        TokenStep::Done(decide_token(resp))
    }
}

/// What a login response means.
pub open spec fn login_decision(resp: AuthResponse) -> Result<(), LinkError> {
    if resp.success {
        Ok(())
    } else {
        Err(LinkError::LoginFailed(resp.message))
    }
}

pub fn decide_login(resp: AuthResponse) -> (r: Result<(), LinkError>)
    ensures
        r == login_decision(resp),
{
    if resp.success {
        Ok(())
    } else {
        Err(LinkError::LoginFailed(resp.message))
    }
}

/// What the desktop asks of a device it links to.
#[derive(Clone, Debug)]
pub struct ConnectToServerOptions {
    pub host: String,
    pub token: Option<String>,
}

/// The digits of `n` as characters.
pub open spec fn decimal_text(n: nat) -> Seq<char> {
    Seq::new(decimal(n).len(), |i: int| decimal(n)[i] as char)
}

/// `n` in decimal, with a minus sign when negative.
pub open spec fn signed_decimal_text(n: int) -> Seq<char> {
    if n < 0 {
        "-"@ + decimal_text((-n) as nat)
    } else {
        decimal_text(n as nat)
    }
}

fn digit_str(d: u64) -> (r: &'static str)
    requires
        d < 10,
    ensures
        r@ == seq![((48 + d) as u8) as char],
{
    proof {
        reveal_strlit("0");
        reveal_strlit("1");
        reveal_strlit("2");
        reveal_strlit("3");
        reveal_strlit("4");
        reveal_strlit("5");
        reveal_strlit("6");
        reveal_strlit("7");
        reveal_strlit("8");
        reveal_strlit("9");
    }
    if d == 0 {
        "0"
    } else if d == 1 {
        "1"
    } else if d == 2 {
        "2"
    } else if d == 3 {
        "3"
    } else if d == 4 {
        "4"
    } else if d == 5 {
        "5"
    } else if d == 6 {
        "6"
    } else if d == 7 {
        "7"
    } else if d == 8 {
        "8"
    } else {
        "9"
    }
}

/// `n` in decimal.
pub fn decimal_string(n: u64) -> (r: String)
    ensures
        r@ == decimal_text(n as nat),
    decreases n,
{
    if n < 10 {
        let r = String::from_str(digit_str(n));
        assert(r@ =~= decimal_text(n as nat));
        r
    } else {
        let mut r = decimal_string(n / 10);
        r.append(digit_str(n % 10));
        assert(decimal(n as nat) == decimal((n / 10) as nat).push((48 + n % 10) as u8));
        assert(r@ =~= decimal_text(n as nat));
        r
    }
}

/// The text of a request identifier: `socket_<millis>_<suffix>`.
pub open spec fn request_id_text(millis: i64, suffix: u16) -> Seq<char> {
    "socket_"@ + signed_decimal_text(millis as int) + "_"@ + decimal_text(suffix as nat)
}

/// The request identifier for a clock reading in milliseconds and a suffix.
pub fn format_request_id(millis: i64, suffix: u16) -> (r: String)
    ensures
        r@ == request_id_text(millis, suffix),
{
    let mut r = String::from_str("socket_");
    if millis < 0 {
        r.append("-");
        let magnitude: u64 = (0i128 - millis as i128) as u64;
        r.append(decimal_string(magnitude).as_str());
    } else {
        r.append(decimal_string(millis as u64).as_str());
    }
    r.append("_");
    r.append(decimal_string(suffix as u64).as_str());
    assert(r@ =~= request_id_text(millis, suffix));
    r
}

/// Relies on `std::time::SystemTime::now` and `duration_since(UNIX_EPOCH)`,
/// read as the nanoseconds past the current second (`Duration::subsec_nanos`,
/// below one billion); `None` when the clock reads before the epoch. A clock
/// reading: nothing else is known of its value.
#[verifier::external_body]
fn clock_subsec_nanos() -> (r: Option<u32>)
    ensures
        r matches Some(n) ==> n < 1_000_000_000,
{
    std::time::SystemTime::now().duration_since(std::time::UNIX_EPOCH).ok().map(|d| d.subsec_nanos())
}

/// The suffix drawn from a nanosecond reading: its low 16 bits, below 10000.
pub fn suffix_from_nanos(nanos: u32) -> (r: u16)
    ensures
        r as int == (nanos as int % 65536) % 10000,
{
    ((nanos % 65536) as u16) % 10000
}

/// A low-entropy number below 10000 taken from the clock's nanoseconds
/// (0 when the clock reads before the epoch). Two calls may well give the
/// same value.
pub fn random() -> (r: u16)
    ensures
        r < 10000,
{
    match clock_subsec_nanos() {
        Some(n) => suffix_from_nanos(n),
        None => 0,
    }
}

/// A request identifier for a clock reading of `millis` milliseconds since
/// the epoch, with a [`random`] suffix; advisory only, not unique.
pub fn new_request_id(millis: i64) -> (r: String)
    ensures
        exists|suffix: u16| suffix < 10000 && r@ == request_id_text(millis, suffix),
{
    let suffix = random();
    format_request_id(millis, suffix)
}

} // verus!
