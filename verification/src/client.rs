//! The rules of talking to the Torizon Platform API: request URLs, path
//! segment encoding, the rate-limit (HTTP 420) retry policy, and how a reply
//! is judged.

use vstd::prelude::*;

use crate::auth::success;
use crate::json::{json_parsed, parse_json, Json, JsonV};
use crate::text::{concat, concat3, decimal, decimal_u32, decimal_u64, owned, parse_u64, parse_u64_spec, push_char, trim, trim_str};

verus! {

/// How many times to retry after an HTTP 420 (rate limited) response.
pub const MAX_RATE_LIMIT_RETRIES: u32 = 5;

/// Seconds to wait after an HTTP 420 response without a usable `Retry-After`.
pub const DEFAULT_RETRY_WAIT_SECS: u64 = 2;

/// HTTP request methods used by the CLI.
#[derive(Debug, Clone, Copy, PartialEq, Eq, Structural)]
pub enum Method {
    Get,
    Delete,
    Post,
    Put,
    Patch,
}

/// The full URL of an API path.
pub fn url(api_base: &str, path: &str) -> (r: String)
    ensures
        r@ == api_base@ + path@,
{
    concat(api_base, path)
}

/// What to do after a response: wait and send again, or take the response.
pub enum Retry {
    Again { wait_secs: u64, attempt: u32 },
    Done,
}

/// The wait announced by a `Retry-After` header value: its whole number of
/// seconds, or the default when absent or unreadable.
pub open spec fn announced_wait(retry_after: Option<Seq<char>>) -> u64 {
    match retry_after {
        Some(v) => match parse_u64_spec(trim(v)) {
            Some(w) => w,
            None => DEFAULT_RETRY_WAIT_SECS,
        },
        None => DEFAULT_RETRY_WAIT_SECS,
    }
}

pub open spec fn opt_view_str(o: Option<&str>) -> Option<Seq<char>> {
    match o {
        Some(s) => Some(s@),
        None => None,
    }
}

/// The retry decision after a response with `status`, when `attempt` retries
/// were made before (`retry_after` is the header value, if it is text).
pub fn rate_limit_step(status: u16, attempt: u32, retry_after: Option<&str>) -> (r: Retry)
    ensures
        (status == 420 && attempt < MAX_RATE_LIMIT_RETRIES) ==> r == (Retry::Again {
            wait_secs: announced_wait(opt_view_str(retry_after)),
            attempt: (attempt + 1) as u32,
        }),
        !(status == 420 && attempt < MAX_RATE_LIMIT_RETRIES) ==> r == Retry::Done,
{
    if status == 420 && attempt < MAX_RATE_LIMIT_RETRIES {
        let wait = match retry_after {
            Some(v) => {
                let t = trim_str(v);
                match parse_u64(t.as_str()) {
                    Some(w) => w,
                    None => DEFAULT_RETRY_WAIT_SECS,
                }
            },
            None => DEFAULT_RETRY_WAIT_SECS,
        };
        Retry::Again { wait_secs: wait, attempt: attempt + 1 }
    } else {
        Retry::Done
    }
}

/// A request is sent at most `MAX_RATE_LIMIT_RETRIES + 1` times: every retry
/// raises the attempt count by one, and none is made once it reaches the limit.
pub proof fn law_retries_are_bounded(status: u16, attempt: u32, retry_after: Option<Seq<char>>, r: Retry)
    requires
        (status == 420 && attempt < MAX_RATE_LIMIT_RETRIES) ==> r == (Retry::Again {
            wait_secs: announced_wait(retry_after),
            attempt: (attempt + 1) as u32,
        }),
        !(status == 420 && attempt < MAX_RATE_LIMIT_RETRIES) ==> r == Retry::Done,
    ensures
        r matches Retry::Again { attempt: next, .. } ==> next == attempt + 1
            && next <= MAX_RATE_LIMIT_RETRIES,
        attempt >= MAX_RATE_LIMIT_RETRIES ==> r == Retry::Done,
{
}

/// The notice printed before waiting on a rate limit.
pub fn rate_limit_notice(wait_secs: u64, attempt: u32) -> (r: String)
    ensures
        r@ == "rate limited (HTTP 420); waiting "@ + decimal(wait_secs as nat) + "s (retry "@
            + decimal(attempt as nat) + "/"@ + decimal(MAX_RATE_LIMIT_RETRIES as nat) + ")"@,
{
    let w = decimal_u64(wait_secs);
    let a = decimal_u32(attempt);
    let m = decimal_u32(MAX_RATE_LIMIT_RETRIES);
    let mut r = concat3("rate limited (HTTP 420); waiting ", w.as_str(), "s (retry ");
    r.append(a.as_str());
    r.append("/");
    r.append(m.as_str());
    r.append(")");
    r
}

/// How a final reply is taken.
pub enum Reply {
    /// A success with an empty (or blank) body: the result is JSON `null`.
    Empty,
    /// A success whose body is to be parsed as JSON.
    Body,
    /// Not a success; the error message.
    Failed(String),
}

/// Judges a final reply to a request for `path` with `status` and body `text`.
pub fn judge_reply(path: &str, status: u16, text: &str) -> (r: Reply)
    ensures
        !success(status) ==> (r matches Reply::Failed(m) && m@ == path@ + " returned HTTP "@
            + decimal(status as nat) + ": "@ + trim(text@)),
        success(status) && trim(text@).len() == 0 ==> r is Empty,
        success(status) && trim(text@).len() > 0 ==> r is Body,
{
    let t = trim_str(text);
    if !(200 <= status && status < 300) {
        let code = decimal_u64(status as u64);
        let mut m = concat3(path, " returned HTTP ", code.as_str());
        m.append(": ");
        m.append(t.as_str());
        Reply::Failed(m)
    } else if t.as_str().is_empty() {
        Reply::Empty
    } else {
        Reply::Body
    }
}

/// The result of a final reply to a request for `path` with `status` and body
/// `text`: the failure message for a status that is not a success; `null` for
/// a blank body; otherwise the JSON document of the body, or, when the body is
/// not JSON, `parsing response from <path>: ` followed by the parser's error
/// description.
pub fn take_reply(path: &str, status: u16, text: &str) -> (r: Result<Json, String>)
    ensures
        !success(status) ==> (r matches Err(m) && m@ == path@ + " returned HTTP "@ + decimal(
            status as nat,
        ) + ": "@ + trim(text@)),
        success(status) && trim(text@).len() == 0 ==> (r matches Ok(v) && v@ == JsonV::Null),
        success(status) && trim(text@).len() > 0 ==> match json_parsed(text@) {
            Ok(v) => r matches Ok(j) && j@ == v,
            Err(d) => r matches Err(m) && m@ == "parsing response from "@ + path@ + ": "@ + d,
        },
{
    match judge_reply(path, status, text) {
        Reply::Failed(m) => Err(m),
        Reply::Empty => Ok(Json::Null),
        Reply::Body => match parse_json(text) {
            Ok(j) => Ok(j),
            Err(d) => {
                let mut m = parse_context(path);
                m.append(": ");
                m.append(d.as_str());
                Err(m)
            },
        },
    }
}

/// Context for a failure to send a request for `path`.
pub fn request_context(path: &str) -> (r: String)
    ensures
        r@ == "requesting "@ + path@,
{
    concat("requesting ", path)
}

/// Context for a reply body for `path` that is not JSON.
pub fn parse_context(path: &str) -> (r: String)
    ensures
        r@ == "parsing response from "@ + path@,
{
    concat("parsing response from ", path)
}

/// Bytes kept as they are in a path segment: RFC 3986 unreserved characters.
pub open spec fn unreserved(b: u8) -> bool {
    ||| 0x41 <= b <= 0x5A
    ||| 0x61 <= b <= 0x7A
    ||| 0x30 <= b <= 0x39
    ||| b == 0x2D
    ||| b == 0x2E
    ||| b == 0x5F
    ||| b == 0x7E
}

/// Upper-case hexadecimal digit of `n < 16`.
pub open spec fn hex_digit(n: u8) -> char {
    if n < 10 {
        ((48 + n) as u32) as char
    } else {
        ((55 + n) as u32) as char
    }
}

/// One byte of a percent-encoded path segment.
pub open spec fn encode_byte(b: u8) -> Seq<char> {
    if unreserved(b) {
        seq![(b as u32) as char]
    } else {
        seq!['%', hex_digit(b / 16), hex_digit(b % 16)]
    }
}

/// Percent-encoding of a byte string.
pub open spec fn percent_encode(bs: Seq<u8>) -> Seq<char>
    decreases bs.len(),
{
    if bs.len() == 0 {
        Seq::empty()
    } else {
        percent_encode(bs.drop_last()) + encode_byte(bs.last())
    }
}

/// Characters that may appear in an encoded path segment: the unreserved
/// ones and `%`.
pub open spec fn segment_char(c: char) -> bool {
    let u = c as u32;
    ||| 0x41 <= u <= 0x5A
    ||| 0x61 <= u <= 0x7A
    ||| 0x30 <= u <= 0x39
    ||| u == 0x2D
    ||| u == 0x2E
    ||| u == 0x5F
    ||| u == 0x7E
    ||| u == 0x25
}

proof fn lemma_encode_byte_chars(b: u8)
    ensures
        forall|i: int| 0 <= i < encode_byte(b).len() ==> segment_char(#[trigger] encode_byte(b)[i]),
{
    let e = encode_byte(b);
    assert forall|i: int| 0 <= i < e.len() implies segment_char(#[trigger] e[i]) by {
        if !unreserved(b) && i > 0 {
            let n: u8 = if i == 1 {
                b / 16
            } else {
                b % 16
            };
            assert(e[i] == hex_digit(n));
        }
    }
}

proof fn lemma_percent_encode_chars(bs: Seq<u8>)
    ensures
        forall|i: int| 0 <= i < percent_encode(bs).len() ==> segment_char(#[trigger] percent_encode(bs)[i]),
    decreases bs.len(),
{
    if bs.len() > 0 {
        lemma_percent_encode_chars(bs.drop_last());
        lemma_encode_byte_chars(bs.last());
        let a = percent_encode(bs.drop_last());
        let e = encode_byte(bs.last());
        assert forall|i: int| 0 <= i < percent_encode(bs).len() implies segment_char(
            #[trigger] percent_encode(bs)[i],
        ) by {
            if i < a.len() {
                assert(percent_encode(bs)[i] == a[i]);
            } else {
                assert(percent_encode(bs)[i] == e[i - a.len()]);
            }
        }
    }
}

/// An encoded path segment holds only unreserved characters and `%` escapes,
/// so it never contains `/`, `?` or `#`: a value put in a path stays one
/// segment of it.
pub proof fn law_encoded_segment_stays_one_segment(s: Seq<char>)
    ensures
        forall|i: int|
            0 <= i < percent_encode(vstd::utf8::encode_utf8(s)).len() ==> segment_char(
                #[trigger] percent_encode(vstd::utf8::encode_utf8(s))[i],
            ),
        !percent_encode(vstd::utf8::encode_utf8(s)).contains('/'),
        !percent_encode(vstd::utf8::encode_utf8(s)).contains('?'),
        !percent_encode(vstd::utf8::encode_utf8(s)).contains('#'),
{
    lemma_percent_encode_chars(vstd::utf8::encode_utf8(s));
}

fn hex(n: u8) -> (c: char)
    requires
        n < 16,
    ensures
        c == hex_digit(n),
{
    if n < 10 {
        (n + 48) as char
    } else {
        (n + 55) as char
    }
}

/// Encodes `s` for use as one path segment: unreserved characters stay, every
/// other UTF-8 byte becomes `%XX`.
pub fn encode_segment(s: &str) -> (r: String)
    ensures
        r@ == percent_encode(vstd::utf8::encode_utf8(s@)),
{
    let bytes = s.as_bytes();
    let ghost bs = bytes@;
    let mut r = String::new();
    let mut i: usize = 0;
    assert(bs.take(0) =~= Seq::<u8>::empty());
    while i < bytes.len()
        invariant
            i <= bs.len(),
            bs == bytes@,
            r@ == percent_encode(bs.take(i as int)),
        decreases bytes.len() - i,
    {
        let b = bytes[i];
        proof {
            assert(bs.take(i + 1).drop_last() =~= bs.take(i as int));
            assert(bs.take(i + 1).last() == b);
        }
        if (0x41 <= b && b <= 0x5A) || (0x61 <= b && b <= 0x7A) || (0x30 <= b && b <= 0x39) || b
            == 0x2D || b == 0x2E || b == 0x5F || b == 0x7E {
            push_char(&mut r, b as char);
            assert(r@ =~= percent_encode(bs.take(i + 1)));
        } else {
            push_char(&mut r, '%');
            push_char(&mut r, hex(b / 16));
            push_char(&mut r, hex(b % 16));
            assert(r@ =~= percent_encode(bs.take(i + 1)));
        }
        i = i + 1;
    }
    assert(bs.take(bs.len() as int) =~= bs);
    r
}

} // verus!
