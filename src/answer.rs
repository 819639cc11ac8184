//! Classification of the modem's replies to AT commands.
use vstd::prelude::*;

verus! {

/// Line feed, the byte that ends a reply line.
pub const NL: u8 = 0x0a;

/// Why a request to the modem did not succeed.
#[derive(Debug, PartialEq, Eq)]
pub enum RequestError {
    /// No reply arrived within the allotted time.
    ETimeout,
    /// The reply holds no line break: the modem is absent or unpowered.
    ENoDevice,
    /// The reply ends at its first line break, or is not text.
    ENoAnswer,
    /// The reply carries the protocol's error marker.
    EAnswerError,
    /// The reply could not be classified; it is kept as received.
    EAnswerUnknown(Vec<u8>),
    /// The command could not be built (its buffer overflowed).
    EBadRequest,
}

/// The class of a request's outcome, without the text of unknown replies.
#[derive(Clone, Copy, Debug, PartialEq, Eq, Structural)]
pub enum Reply {
    Success,
    Timeout,
    NoDevice,
    NoAnswer,
    AnswerError,
    AnswerUnknown,
    BadRequest,
}

/// The class of an outcome.
pub open spec fn reply_of(r: Result<(), RequestError>) -> Reply {
    match r {
        Ok(()) => Reply::Success,
        Err(RequestError::ETimeout) => Reply::Timeout,
        Err(RequestError::ENoDevice) => Reply::NoDevice,
        Err(RequestError::ENoAnswer) => Reply::NoAnswer,
        Err(RequestError::EAnswerError) => Reply::AnswerError,
        Err(RequestError::EAnswerUnknown(_)) => Reply::AnswerUnknown,
        Err(RequestError::EBadRequest) => Reply::BadRequest,
    }
}

/// "\r\nOK", the success marker.
pub open spec fn ok_marker() -> Seq<u8> {
    seq![0x0du8, 0x0au8, 0x4fu8, 0x4bu8]
}

/// "\r\nERROR", the error marker.
pub open spec fn error_marker() -> Seq<u8> {
    seq![0x0du8, 0x0au8, 0x45u8, 0x52u8, 0x52u8, 0x4fu8, 0x52u8]
}

/// Whether `pat` stands in `s` at position `p`.
pub open spec fn occurs_at(s: Seq<u8>, pat: Seq<u8>, p: int) -> bool {
    0 <= p && p + pat.len() <= s.len() && s.subrange(p, p + pat.len()) == pat
}

/// Whether `pat` stands in `s` at some position from `from` on.
pub open spec fn occurs_from(s: Seq<u8>, pat: Seq<u8>, from: int) -> bool {
    exists|p: int| from <= p && #[trigger] occurs_at(s, pat, p)
}

/// Whether `x` is the position of the first line break in `s`.
pub open spec fn first_newline_at(s: Seq<u8>, x: int) -> bool {
    0 <= x < s.len() && s[x] == NL && forall|i: int| 0 <= i < x ==> s[i] != NL
}

/// Whether `s` holds a line break.
pub open spec fn has_newline(s: Seq<u8>) -> bool {
    exists|x: int| 0 <= x < s.len() && s[x] == NL
}

/// The class of a reply `s` that is well-formed text: no line break means no
/// device; a first line break at the very end means no answer; after it, the
/// success marker means success, else the error marker means an error, else
/// the reply is unknown.
pub open spec fn parse_class(s: Seq<u8>) -> Reply {
    if !has_newline(s) {
        Reply::NoDevice
    } else {
        let x = choose|x: int| first_newline_at(s, x);
        if x == s.len() - 1 {
            Reply::NoAnswer
        } else if occurs_from(s, ok_marker(), x) {
            Reply::Success
        } else if occurs_from(s, error_marker(), x) {
            Reply::AnswerError
        } else {
            Reply::AnswerUnknown
        }
    }
}

/// The class of what came back for a request: nothing within the time
/// allowed, or the received bytes.
pub open spec fn reply_class(reply: Option<Seq<u8>>) -> Reply {
    match reply {
        None => Reply::Timeout,
        Some(s) => if vstd::utf8::valid_utf8(s) {
            parse_class(s)
        } else {
            Reply::NoAnswer
        },
    }
}

/// Classification depends on the reply's bytes alone: two classifications of
/// the same bytes, whenever they are made, give the same class, and an
/// unknown reply keeps those bytes in both.
pub proof fn lemma_classification_is_pure(
    r1: Result<(), RequestError>,
    r2: Result<(), RequestError>,
    a: Option<Seq<u8>>,
    b: Option<Seq<u8>>,
)
    requires
        reply_of(r1) == reply_class(a),
        r1 matches Err(RequestError::EAnswerUnknown(t)) ==> a == Some(t@),
        reply_of(r2) == reply_class(b),
        r2 matches Err(RequestError::EAnswerUnknown(t)) ==> b == Some(t@),
        a == b,
    ensures
        reply_of(r1) == reply_of(r2),
        r1 matches Err(RequestError::EAnswerUnknown(t1)) ==> r2 matches Err(
            RequestError::EAnswerUnknown(t2),
        ) && t1@ == t2@,
{
}

/// Relies on core::str::from_utf8: it succeeds exactly on well-formed UTF-8.
#[verifier::external_body]
fn is_utf8(b: &[u8]) -> (r: bool)
    ensures
        r == vstd::utf8::valid_utf8(b@),
{
    core::str::from_utf8(b).is_ok()
}

/// Whether `pat` stands in `s` at position `p`.
fn matches_at(s: &[u8], pat: &[u8], p: usize) -> (r: bool)
    requires
        p + pat@.len() <= s@.len(),
    ensures
        r == occurs_at(s@, pat@, p as int),
{
    let n = s.len();
    let mut i: usize = 0;
    while i < pat.len()
        invariant
            n == s@.len(),
            p + pat@.len() <= s@.len(),
            i <= pat@.len(),
            forall|j: int| 0 <= j < i ==> s@[p + j] == pat@[j],
        decreases pat@.len() - i,
    {
        if s[p + i] != pat[i] {
            assert(s@.subrange(p as int, p + pat@.len())[i as int] != pat@[i as int]);
            return false;
        }
        i = i + 1;
    }
    assert(s@.subrange(p as int, p + pat@.len()) =~= pat@);
    true
}

/// Whether `pat` stands in `s` at some position from `from` on.
fn find_from(s: &[u8], pat: &[u8], from: usize) -> (r: bool)
    requires
        from <= s@.len(),
    ensures
        r == occurs_from(s@, pat@, from as int),
{
    if pat.len() > s.len() {
        return false;
    }
    let last = s.len() - pat.len();
    let mut p = from;
    while p <= last
        invariant
            last == s@.len() - pat@.len(),
            from <= p,
            forall|q: int| from <= q < p ==> !#[trigger] occurs_at(s@, pat@, q),
        decreases last + 1 - p,
    {
        if matches_at(s, pat, p) {
            return true;
        }
        if p == last {
            return false;
        }
        p = p + 1;
    }
    false
}

/// Classifies a reply that is well-formed text, from its bytes alone.
pub fn parse(s: &[u8]) -> (r: Result<(), RequestError>)
    ensures
        reply_of(r) == parse_class(s@),
        r matches Err(RequestError::EAnswerUnknown(t)) ==> t@ == s@,
{
    let mut x: usize = 0;
    while x < s.len() && s[x] != NL
        invariant
            x <= s@.len(),
            forall|i: int| 0 <= i < x ==> s@[i] != NL,
        decreases s@.len() - x,
    {
        x = x + 1;
    }
    if x == s.len() {
        return Err(RequestError::ENoDevice);
    }
    assert(first_newline_at(s@, x as int));
    assert(has_newline(s@));
    assert forall|y: int| first_newline_at(s@, y) implies y == x by {
        if y < x {
            assert(s@[y] != NL);
        } else if y > x {
            assert(s@[x as int] != NL);
        }
    }
    if x == s.len() - 1 {
        return Err(RequestError::ENoAnswer);
    }
    let ok: [u8; 4] = [0x0d, 0x0a, 0x4f, 0x4b];
    let err: [u8; 7] = [0x0d, 0x0a, 0x45, 0x52, 0x52, 0x4f, 0x52];
    assert(ok@ =~= ok_marker());
    assert(err@ =~= error_marker());
    if find_from(s, ok.as_slice(), x) {
        Ok(())
    } else if find_from(s, err.as_slice(), x) {
        Err(RequestError::EAnswerError)
    } else {
        Err(RequestError::EAnswerUnknown(vstd::slice::slice_to_vec(s)))
    }
}

/// Classifies what came back for a request: `None` when nothing arrived in
/// time, else the received bytes.
pub fn classify_reply(reply: Option<&[u8]>) -> (r: Result<(), RequestError>)
    ensures
        reply_of(r) == reply_class(match reply {
            Some(b) => Some(b@),
            None => None,
        }),
        r matches Err(RequestError::EAnswerUnknown(t)) ==> reply matches Some(b) && t@ == b@,
{
    match reply {
        None => Err(RequestError::ETimeout),
        Some(b) => {
            if is_utf8(b) {
                parse(b)
            } else {
                Err(RequestError::ENoAnswer)
            }
        },
    }
}

} // verus!
