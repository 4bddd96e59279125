//! The tagged text protocol shared by the producer-to-hub and hub-to-viewer legs.
//!
//! A producer message is one tag character followed by the JSON payload
//! (`T{...}` for telemetry, `S{...}` for a session snapshot). A viewer message is
//! the JSON pair `["T",{...}]`.

use vstd::prelude::*;
use vstd::string::*;

verus! {

/// What a tagged payload holds.
#[derive(Clone, Copy, Debug, PartialEq, Eq, Structural)]
pub enum PayloadKind {
    Telemetry,
    Session,
}

/// Why a producer message could not be split into tag and payload.
#[derive(Clone, Copy, Debug, PartialEq, Eq, Structural)]
pub enum DecodeError {
    /// The message held no character at all.
    Empty,
    /// The leading character names no payload kind.
    UnknownTag(char),
}

/// The tag character of a payload kind.
pub open spec fn tag_spec(kind: PayloadKind) -> char {
    match kind {
        PayloadKind::Telemetry => 'T',
        PayloadKind::Session => 'S',
    }
}

/// The payload kind a tag character selects, if any.
pub open spec fn kind_of_tag_spec(c: char) -> Option<PayloadKind> {
    if c == 'T' {
        Some(PayloadKind::Telemetry)
    } else if c == 'S' {
        Some(PayloadKind::Session)
    } else {
        None
    }
}

/// A producer message: the tag, then the payload.
pub open spec fn encoded(kind: PayloadKind, payload: Seq<char>) -> Seq<char> {
    seq![tag_spec(kind)] + payload
}

/// How a producer message is read: the first character selects the kind, the
/// rest is the payload.
pub open spec fn decoded(text: Seq<char>) -> Result<(PayloadKind, Seq<char>), DecodeError> {
    if text.len() == 0 {
        Err(DecodeError::Empty)
    } else {
        match kind_of_tag_spec(text[0]) {
            Some(kind) => Ok((kind, text.subrange(1, text.len() as int))),
            None => Err(DecodeError::UnknownTag(text[0])),
        }
    }
}

/// A viewer message: the JSON array of the tag as a string and the payload.
pub open spec fn viewer_encoded(kind: PayloadKind, payload: Seq<char>) -> Seq<char> {
    seq!['[', '"', tag_spec(kind), '"', ','] + payload + seq![']']
}

/// The tag character of a payload kind.
pub fn tag(kind: PayloadKind) -> (c: char)
    ensures
        c == tag_spec(kind),
{
    match kind {
        PayloadKind::Telemetry => 'T',
        PayloadKind::Session => 'S',
    }
}

/// The payload kind a tag character selects, if any.
pub fn kind_of_tag(c: char) -> (r: Option<PayloadKind>)
    ensures
        r == kind_of_tag_spec(c),
{
    if c == 'T' {
        Some(PayloadKind::Telemetry)
    } else if c == 'S' {
        Some(PayloadKind::Session)
    } else {
        None
    }
}

/// Builds the producer message for an encoded payload.
pub fn encode_message(kind: PayloadKind, payload: &str) -> (r: String)
    ensures
        r@ == encoded(kind, payload@),
{
    let head = match kind {
        PayloadKind::Telemetry => "T",
        PayloadKind::Session => "S",
    };
    proof {
        reveal_strlit("T");
        reveal_strlit("S");
    }
    let mut r = String::from_str(head);
    assert(r@ =~= seq![tag_spec(kind)]);
    r.append(payload);
    r
}

/// Splits a producer message into its payload kind and its payload.
pub fn decode_message(text: &str) -> (r: Result<(PayloadKind, String), DecodeError>)
    ensures
        match r {
            Ok((kind, payload)) => decoded(text@) == Ok::<(PayloadKind, Seq<char>), DecodeError>((kind, payload@)),
            Err(e) => decoded(text@) == Err::<(PayloadKind, Seq<char>), DecodeError>(e),
        },
{
    let n = text.unicode_len();
    if n == 0 {
        return Err(DecodeError::Empty);
    }
    let c = text.get_char(0);
    match kind_of_tag(c) {
        Some(kind) => {
            let rest = text.substring_char(1, n);
            Ok((kind, String::from_str(rest)))
        },
        None => Err(DecodeError::UnknownTag(c)),
    }
}

/// Builds the message a viewer receives for an encoded payload.
pub fn encode_viewer_message(kind: PayloadKind, payload: &str) -> (r: String)
    ensures
        r@ == viewer_encoded(kind, payload@),
{
    let head = match kind {
        PayloadKind::Telemetry => "[\"T\",",
        PayloadKind::Session => "[\"S\",",
    };
    proof {
        reveal_strlit("[\"T\",");
        reveal_strlit("[\"S\",");
        reveal_strlit("]");
    }
    let mut r = String::from_str(head);
    assert(r@ =~= seq!['[', '"', tag_spec(kind), '"', ',']);
    r.append(payload);
    r.append("]");
    r
}

/// Decoding a producer message gives back the kind and the payload it was
/// built from, whatever the payload holds.
pub proof fn lemma_round_trip(kind: PayloadKind, payload: Seq<char>)
    ensures
        decoded(encoded(kind, payload)) == Ok::<(PayloadKind, Seq<char>), DecodeError>((kind, payload)),
{
    let text = encoded(kind, payload);
    assert(text[0] == tag_spec(kind));
    assert(text.subrange(1, text.len() as int) =~= payload);
}

/// Two producer messages are equal only when their kinds and payloads are.
pub proof fn lemma_encoding_injective(
    kind_a: PayloadKind,
    payload_a: Seq<char>,
    kind_b: PayloadKind,
    payload_b: Seq<char>,
)
    requires
        encoded(kind_a, payload_a) == encoded(kind_b, payload_b),
    ensures
        kind_a == kind_b,
        payload_a == payload_b,
{
    lemma_round_trip(kind_a, payload_a);
    lemma_round_trip(kind_b, payload_b);
}

} // verus!
