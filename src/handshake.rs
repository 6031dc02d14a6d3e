//! The inbound pairing handshake on one accepted connection: either a bare
//! JSON line, or an HTTP `POST` whose body is that JSON.
//!
//! The caller reads from the socket; a [`HandshakeReader`] says what to read
//! next and, at the end, which reply to write back and what was paired.
use vstd::prelude::*;
use crate::json::{json_document_accepted, json_string_member, string_member};
use crate::text::{
    ascii_bytes, ascii_of, decimal, decimal_bytes, decimal_field, has_prefix_ignoring_case, lemma_decimal_round_trip, line_content_len, parse_decimal, push_all,
    starts_with_ignoring_case, strip_line_end, trim, trim_bytes, copy_range,
};

verus! {

broadcast use vstd::string::is_ascii_spec_bytes;

/// What a mobile device hands over when it pairs: where to reach it, and the
/// token that authorises the desktop there.
#[derive(Clone, Debug)]
pub struct PairingData {
    pub url: String,
    pub token: String,
}

/// The url and token that `doc` carries: the string members `url` and
/// `token` of the JSON object it holds, when both are there.
pub open spec fn pairing_of(doc: Seq<u8>) -> Option<(Seq<char>, Seq<char>)> {
    match (json_string_member(doc, "url"@), json_string_member(doc, "token"@)) {
        (Some(u), Some(t)) => Some((u, t)),
        _ => None,
    }
}

impl PairingData {
    /// Reads a JSON object with string members `url` and `token`; other
    /// members are ignored. `None` when the bytes are no JSON document, or
    /// either member is missing or no string.
    pub fn from_json(bytes: &[u8]) -> (r: Option<PairingData>)
        ensures
            r is Some <==> pairing_of(bytes@) is Some,
            r matches Some(p) ==> pairing_of(bytes@) == Some((p.url@, p.token@)),
            r is Some ==> json_document_accepted(bytes@),
    {
        let url = match string_member(bytes, "url") {
            Some(u) => u,
            None => return None,
        };
        let token = match string_member(bytes, "token") {
            Some(t) => t,
            None => return None,
        };
        Some(PairingData { url, token })
    }
}

/// The two ways a device may send its pairing data.
#[derive(Clone, Copy, Debug, PartialEq, Eq, Structural)]
pub enum Transport {
    /// One JSON line, answered by one JSON line.
    RawLine,
    /// `POST` with a JSON body, answered by an HTTP response.
    Http,
}

/// Why pairing produced no result.
#[derive(Clone, Debug)]
pub enum PairingError {
    /// The pairing port could not be bound.
    BindFailure(String),
    /// No handshake arrived within the time allowed.
    Timeout,
    /// The listener was stopped.
    Stopped,
    /// The listener already delivered its one pairing.
    AlreadyPaired,
    /// The bytes that were to carry the pairing data were not usable.
    InvalidPayload(Vec<u8>),
}

/// End of one handshake: the bytes to write back (possibly none) and its result.
#[derive(Debug)]
pub struct HandshakeOutcome {
    pub reply: Vec<u8>,
    pub result: Result<PairingData, PairingError>,
}

pub open spec fn success_json() -> Seq<u8> {
    ascii_of("{\"success\":true,\"message\":\"Pairing successful\"}"@)
}

/// The answer to a handshake that paired.
pub open spec fn success_reply(t: Transport) -> Seq<u8> {
    match t {
        Transport::RawLine => success_json().push(10),
        Transport::Http => ascii_of(
            "HTTP/1.1 200 OK\r\nContent-Type: application/json\r\nContent-Length: "@,
        ) + decimal(success_json().len()) + ascii_of("\r\n\r\n"@) + success_json(),
    }
}

/// The answer to a handshake that failed: nothing on a bare line (the
/// connection is just closed), `400 Bad Request` over HTTP.
pub open spec fn failure_reply(t: Transport) -> Seq<u8> {
    match t {
        Transport::RawLine => Seq::empty(),
        Transport::Http => ascii_of("HTTP/1.1 400 Bad Request\r\nContent-Length: 0\r\n\r\n"@),
    }
}

pub open spec fn reply_for(t: Transport, paired: bool) -> Seq<u8> {
    if paired {
        success_reply(t)
    } else {
        failure_reply(t)
    }
}

/// `o` is how a handshake over `t` ends once `payload` was decoded: it pairs
/// exactly when the payload carries a url and a token, with those two, and
/// the reply matches the result; a failure keeps the payload.
pub open spec fn concludes(t: Transport, payload: Seq<u8>, o: HandshakeOutcome) -> bool {
    &&& o.reply@ == reply_for(t, o.result is Ok)
    &&& (o.result is Ok <==> pairing_of(payload) is Some)
    &&& (o.result matches Ok(p) ==> pairing_of(payload) == Some((p.url@, p.token@)))
    &&& (o.result is Ok ==> json_document_accepted(payload))
    &&& (o.result is Err ==> (o.result->Err_0 matches PairingError::InvalidPayload(b) && b@
        == payload))
}

fn success_reply_bytes(t: Transport) -> (r: Vec<u8>)
    ensures
        r@ == success_reply(t),
{
    proof {
        reveal_strlit("{\"success\":true,\"message\":\"Pairing successful\"}");
    }
    let body = ascii_bytes("{\"success\":true,\"message\":\"Pairing successful\"}");
    match t {
        Transport::RawLine => {
            let mut v = body;
            v.push(10);
            v
        },
        Transport::Http => {
            proof {
                reveal_strlit("HTTP/1.1 200 OK\r\nContent-Type: application/json\r\nContent-Length: ");
                reveal_strlit("\r\n\r\n");
            }
            let mut v = ascii_bytes(
                "HTTP/1.1 200 OK\r\nContent-Type: application/json\r\nContent-Length: ",
            );
            let len = decimal_bytes(body.len() as u64);
            push_all(&mut v, len.as_slice());
            let blank = ascii_bytes("\r\n\r\n");
            push_all(&mut v, blank.as_slice());
            push_all(&mut v, body.as_slice());
            v
        },
    }
}

fn failure_reply_bytes(t: Transport) -> (r: Vec<u8>)
    ensures
        r@ == failure_reply(t),
{
    match t {
        Transport::RawLine => Vec::new(),
        Transport::Http => {
            proof {
                reveal_strlit("HTTP/1.1 400 Bad Request\r\nContent-Length: 0\r\n\r\n");
            }
            ascii_bytes("HTTP/1.1 400 Bad Request\r\nContent-Length: 0\r\n\r\n")
        },
    }
}

/// How a handshake over `t` ends when decoding `payload` gave `decoded`.
pub fn conclude(t: Transport, payload: Vec<u8>, decoded: Option<PairingData>) -> (o: HandshakeOutcome)
    ensures
        o.reply@ == reply_for(t, decoded is Some),
        decoded is Some ==> o.result == Ok::<PairingData, PairingError>(decoded->Some_0),
        decoded is None ==> (o.result matches Err(PairingError::InvalidPayload(b)) && b@
            == payload@),
{
    match decoded {
        Some(p) => HandshakeOutcome { reply: success_reply_bytes(t), result: Ok(p) },
        None => HandshakeOutcome {
            reply: failure_reply_bytes(t),
            result: Err(PairingError::InvalidPayload(payload)),
        },
    }
}

/// Decodes `payload` as pairing data and ends the handshake over `t`.
pub fn finish_with_payload(t: Transport, payload: Vec<u8>) -> (o: HandshakeOutcome)
    ensures
        concludes(t, payload@, o),
{
    let decoded = PairingData::from_json(payload.as_slice());
    conclude(t, payload, decoded)
}

/// Where a [`HandshakeReader`] stands.
#[derive(Clone, Copy, Debug, PartialEq, Eq, Structural)]
pub enum ReaderPhase {
    /// Nothing read yet.
    FirstLine,
    /// Inside the header block of an HTTP request.
    Headers,
    /// Headers done; the body comes next.
    Body,
    /// The handshake has ended.
    Done,
}

/// Reads one handshake, one step at a time.
#[derive(Clone, Copy, Debug, PartialEq, Eq, Structural)]
pub struct HandshakeReader {
    pub phase: ReaderPhase,
    /// The last `Content-Length` header seen, when it held a number.
    pub content_length: Option<usize>,
}

/// What the caller does after handing the reader a line or a body.
#[derive(Debug)]
pub enum HandshakeStep {
    /// Read the next line (up to and including its line feed).
    ReadLine,
    /// Read exactly this many bytes and hand them to [`HandshakeReader::on_body`].
    ReadBody(usize),
    /// Write the reply, close the connection; the result is final.
    Finished(HandshakeOutcome),
}

/// What a line leads to, seen from the reader's state.
#[derive(Clone, Copy, Debug, PartialEq, Eq, Structural)]
pub enum LineAction {
    ReadLine,
    ReadBody(usize),
    /// The line itself, trimmed, is the pairing data.
    DecodeLine,
    /// The request carries no usable length.
    Reject,
}

/// An HTTP request line of a `POST`.
pub open spec fn is_post_line(line: Seq<u8>) -> bool {
    &&& line.len() >= 5
    &&& line[0] == 80 && line[1] == 79 && line[2] == 83 && line[3] == 84 && line[4] == 32
}

pub open spec fn content_length_prefix() -> Seq<u8> {
    ascii_of("content-length:"@)
}

/// The length a `Content-Length` header line (without line end) states.
pub open spec fn header_length(l: Seq<u8>) -> Option<usize> {
    decimal_field(trim(l.subrange(15, l.len() as int)))
}

pub open spec fn line_action(r: HandshakeReader, line: Seq<u8>) -> LineAction {
    match r.phase {
        ReaderPhase::FirstLine => if is_post_line(line) {
            LineAction::ReadLine
        } else {
            LineAction::DecodeLine
        },
        ReaderPhase::Headers => if strip_line_end(line).len() == 0 {
            match r.content_length {
                Some(n) => if n > 0 {
                    LineAction::ReadBody(n)
                } else {
                    LineAction::Reject
                },
                None => LineAction::Reject,
            }
        } else {
            LineAction::ReadLine
        },
        _ => LineAction::Reject,
    }
}

pub open spec fn after_line(r: HandshakeReader, line: Seq<u8>) -> HandshakeReader {
    match r.phase {
        ReaderPhase::FirstLine => if is_post_line(line) {
            HandshakeReader { phase: ReaderPhase::Headers, content_length: None }
        } else {
            HandshakeReader { phase: ReaderPhase::Done, ..r }
        },
        ReaderPhase::Headers => {
            let l = strip_line_end(line);
            if l.len() == 0 {
                if line_action(r, line) is ReadBody {
                    HandshakeReader { phase: ReaderPhase::Body, ..r }
                } else {
                    HandshakeReader { phase: ReaderPhase::Done, ..r }
                }
            } else if starts_with_ignoring_case(l, content_length_prefix()) {
                HandshakeReader { content_length: header_length(l), ..r }
            } else {
                r
            }
        },
        _ => r,
    }
}

fn is_post(line: &[u8]) -> (r: bool)
    ensures
        r == is_post_line(line@),
{
    line.len() >= 5 && line[0] == 80 && line[1] == 79 && line[2] == 83 && line[3] == 84
        && line[4] == 32
}

impl HandshakeReader {
    pub open spec fn fresh() -> HandshakeReader {
        HandshakeReader { phase: ReaderPhase::FirstLine, content_length: None }
    }

    /// A reader before the first line.
    pub fn new() -> (r: HandshakeReader)
        ensures
            r == HandshakeReader::fresh(),
    {
        HandshakeReader { phase: ReaderPhase::FirstLine, content_length: None }
    }

    /// Takes the next line of the connection. The first line decides the
    /// transport: a `POST ` request line starts HTTP, anything else is the
    /// pairing JSON itself. In the header block, `Content-Length` is noted
    /// (name in any case) and the blank line ends the block.
    pub fn on_line(&mut self, line: &[u8]) -> (step: HandshakeStep)
        requires
            old(self).phase == ReaderPhase::FirstLine || old(self).phase == ReaderPhase::Headers,
        ensures
            *final(self) == after_line(*old(self), line@),
            match line_action(*old(self), line@) {
                LineAction::ReadLine => step is ReadLine,
                LineAction::ReadBody(n) => step matches HandshakeStep::ReadBody(m) && m == n,
                LineAction::DecodeLine => step matches HandshakeStep::Finished(o) && concludes(
                    Transport::RawLine,
                    trim(line@),
                    o,
                ),
                LineAction::Reject => step matches HandshakeStep::Finished(o) && o.reply@
                    == failure_reply(Transport::Http) && (o.result matches Err(
                    PairingError::InvalidPayload(b),
                ) && b@.len() == 0),
            },
    {
        if self.phase == ReaderPhase::FirstLine {
            if is_post(line) {
                self.phase = ReaderPhase::Headers;
                self.content_length = None;
                HandshakeStep::ReadLine
            } else {
                self.phase = ReaderPhase::Done;
                let payload = trim_bytes(line);
                HandshakeStep::Finished(finish_with_payload(Transport::RawLine, payload))
            }
        } else {
            let n = line_content_len(line);
            if n == 0 {
                match self.content_length {
                    Some(len) if len > 0 => {
                        self.phase = ReaderPhase::Body;
                        HandshakeStep::ReadBody(len)
                    },
                    _ => {
                        self.phase = ReaderPhase::Done;
                        HandshakeStep::Finished(
                            HandshakeOutcome {
                                reply: failure_reply_bytes(Transport::Http),
                                result: Err(PairingError::InvalidPayload(Vec::new())),
                            },
                        )
                    },
                }
            } else {
                let content = copy_range(line, 0, n);
                proof {
                    reveal_strlit("content-length:");
                }
                let prefix = ascii_bytes("content-length:");
                if has_prefix_ignoring_case(content.as_slice(), prefix.as_slice()) {
                    let value = copy_range(content.as_slice(), 15, n);
                    let trimmed = trim_bytes(value.as_slice());
                    self.content_length = parse_decimal(trimmed.as_slice());
                }
                HandshakeStep::ReadLine
            }
        }
    }

    /// Takes the body announced by `Content-Length` and ends the handshake.
    pub fn on_body(&mut self, body: &[u8]) -> (step: HandshakeStep)
        requires
            old(self).phase == ReaderPhase::Body,
        ensures
            *final(self) == (HandshakeReader { phase: ReaderPhase::Done, ..*old(self) }),
            step matches HandshakeStep::Finished(o) && concludes(Transport::Http, body@, o),
    {
        self.phase = ReaderPhase::Done;
        let payload = copy_range(body, 0, body.len());
        proof {
            assert(body@.subrange(0, body@.len() as int) =~= body@);
        }
        HandshakeStep::Finished(finish_with_payload(Transport::Http, payload))
    }
}

/// The lines of `POST /pair` announcing a JSON body of `n` bytes, header block
/// included.
pub open spec fn post_request_line() -> Seq<u8> {
    ascii_of("POST /pair HTTP/1.1\r\n"@)
}

pub open spec fn json_content_type_line() -> Seq<u8> {
    ascii_of("Content-Type: application/json\r\n"@)
}

pub open spec fn content_length_line(n: nat) -> Seq<u8> {
    ascii_of("Content-Length: "@) + decimal(n) + ascii_of("\r\n"@)
}

pub open spec fn blank_line() -> Seq<u8> {
    ascii_of("\r\n"@)
}

/// Protocol equivalence: a JSON object `p` (no surrounding whitespace) sent as
/// one line, or as the body of `POST /pair` with `Content-Type` and a correct
/// `Content-Length`, reaches the decoder as the same bytes `p`. The bare line
/// is decoded at once; the request asks for exactly `p.len()` body bytes, and
/// the body is decoded as it came (see [`HandshakeReader::on_body`]).
pub proof fn lemma_transports_decode_the_same_bytes(p: Seq<u8>)
    requires
        p.len() > 0,
        p[0] == 123,
        trim(p) == p,
        p.len() <= usize::MAX,
    ensures
        line_action(HandshakeReader::fresh(), p.push(10)) == LineAction::DecodeLine,
        trim(p.push(10)) == p,
        ({
            let r1 = after_line(HandshakeReader::fresh(), post_request_line());
            let r2 = after_line(r1, json_content_type_line());
            let r3 = after_line(r2, content_length_line(p.len()));
            &&& line_action(HandshakeReader::fresh(), post_request_line()) == LineAction::ReadLine
            &&& line_action(r1, json_content_type_line()) == LineAction::ReadLine
            &&& line_action(r2, content_length_line(p.len())) == LineAction::ReadLine
            &&& line_action(r3, blank_line()) == LineAction::ReadBody(p.len() as usize)
            &&& after_line(r3, blank_line()).phase == ReaderPhase::Body
        }),
{
    reveal_strlit("POST /pair HTTP/1.1\r\n");
    reveal_strlit("Content-Type: application/json\r\n");
    reveal_strlit("Content-Length: ");
    reveal_strlit("\r\n");
    reveal_strlit("content-length:");
    // the bare line
    let q = p.push(10);
    assert(crate::text::trim_start(q) == q);
    assert(q.drop_last() =~= p);
    assert(crate::text::trim_start(p) == p);
    assert(trim(q) == crate::text::trim_end(p));
    // the request line and the content type
    let l1 = post_request_line();
    assert(is_post_line(l1));
    let r1 = after_line(HandshakeReader::fresh(), l1);
    assert(r1 == HandshakeReader { phase: ReaderPhase::Headers, content_length: None });
    let l2 = json_content_type_line();
    let c2 = strip_line_end(l2);
    assert(c2 =~= l2.subrange(0, l2.len() - 2));
    assert(c2.len() > 0);
    assert(crate::text::lower(c2[8]) != content_length_prefix()[8]);
    assert(!starts_with_ignoring_case(c2, content_length_prefix()));
    let r2 = after_line(r1, l2);
    assert(r2 == r1);
    // the length
    let n = p.len();
    let d = decimal(n);
    lemma_decimal_round_trip(n);
    let l3 = content_length_line(n);
    let head = ascii_of("Content-Length: "@);
    let c3 = strip_line_end(l3);
    assert(c3 =~= head + d);
    assert(starts_with_ignoring_case(c3, content_length_prefix()));
    let v = c3.subrange(15, c3.len() as int);
    assert(v =~= seq![32u8] + d);
    assert(v.drop_first() =~= d);
    assert(crate::text::trim_start(d) == d);
    assert(crate::text::trim_start(v) == d);
    assert(crate::text::trim_end(d) == d);
    assert(trim(v) == d);
    assert(header_length(c3) == Some(n as usize));
    let r3 = after_line(r2, l3);
    assert(r3 == HandshakeReader { phase: ReaderPhase::Headers, content_length: Some(n as usize) });
    // the blank line
    let l4 = blank_line();
    assert(strip_line_end(l4) =~= Seq::<u8>::empty());
}

/// A payload that is no JSON document, or lacks a string `url` or `token`,
/// never pairs, whichever the transport: the handshake fails with
/// `InvalidPayload` holding the payload, and the failure reply is written.
pub proof fn lemma_malformed_payload_never_pairs(t: Transport, payload: Seq<u8>, o: HandshakeOutcome)
    requires
        !json_document_accepted(payload) || pairing_of(payload) is None,
        concludes(t, payload, o),
    ensures
        o.result matches Err(PairingError::InvalidPayload(b)) && b@ == payload,
        o.reply@ == failure_reply(t),
{
}

/// Protocol equivalence, on the result: a payload handed to the decoder by
/// the bare-line transport and by HTTP pairs over both or over neither, with
/// the same url and token, each with its transport's success reply; a
/// payload carrying a url and a token pairs over both.
pub proof fn lemma_transports_pair_alike(p: Seq<u8>, raw: HandshakeOutcome, http: HandshakeOutcome)
    requires
        concludes(Transport::RawLine, p, raw),
        concludes(Transport::Http, p, http),
    ensures
        raw.result is Ok <==> http.result is Ok,
        pairing_of(p) is Some ==> raw.result is Ok && raw.reply@ == success_reply(Transport::RawLine)
            && http.reply@ == success_reply(Transport::Http),
        raw.result matches Ok(a) ==> (http.result matches Ok(b) && a.url@ == b.url@ && a.token@
            == b.token@),
{
}

} // verus!
