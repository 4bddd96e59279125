//! The hub's producer ingress: what becomes of each text message the producer
//! sends.

use vstd::prelude::*;
use crate::hub::SessionSnapshot;
use crate::protocol::{decode_message, decoded, encoded, lemma_round_trip, DecodeError, PayloadKind};

verus! {

/// Whether a text is one well-formed JSON value, as serde_json reads it.
pub uninterp spec fn json_valid(s: Seq<char>) -> bool;

/// Relies on `serde_json::from_str::<serde_json::Value>`: it succeeds exactly on
/// well-formed JSON, and what it accepts depends on the text alone.
#[verifier::external_body]
fn is_json(s: &str) -> (r: bool)
    ensures
        r == json_valid(s@),
{
    serde_json::from_str::<serde_json::Value>(s).is_ok()
}

/// What a producer message leads to.
#[derive(Debug, PartialEq)]
pub enum Inbound {
    /// A telemetry payload, still to be decoded into a frame.
    Telemetry(String),
    /// A session snapshot to hand to the hub.
    Session(SessionSnapshot),
    /// A session payload that is not JSON: logged and dropped.
    MalformedSession,
    /// A message with no tag, or an unknown one: logged and dropped.
    Unrecognized(DecodeError),
}

impl Inbound {
    /// This is what the producer message `text` leads to, when `well_formed`
    /// tells whether a session payload in it is JSON.
    pub open spec fn answers(&self, text: Seq<char>, well_formed: bool) -> bool {
        match decoded(text) {
            Err(e) => *self == Inbound::Unrecognized(e),
            Ok((PayloadKind::Telemetry, p)) => self matches Inbound::Telemetry(t) && t@ == p,
            Ok((PayloadKind::Session, p)) => if well_formed {
                self matches Inbound::Session(s) && s.json@ == p
            } else {
                *self == Inbound::MalformedSession
            },
        }
    }
}

/// Sorts a decoded producer message, given whether its payload is JSON.
pub fn classify(
    msg: Result<(PayloadKind, String), DecodeError>,
    well_formed: bool,
) -> (r: Inbound)
    ensures
        match msg {
            Err(e) => r == Inbound::Unrecognized(e),
            Ok((PayloadKind::Telemetry, p)) => r matches Inbound::Telemetry(t) && t@ == p@,
            Ok((PayloadKind::Session, p)) => if well_formed {
                r matches Inbound::Session(s) && s.json@ == p@
            } else {
                r == Inbound::MalformedSession
            },
        },
{
    match msg {
        Err(e) => Inbound::Unrecognized(e),
        Ok((PayloadKind::Telemetry, p)) => Inbound::Telemetry(p),
        Ok((PayloadKind::Session, p)) => if well_formed {
            Inbound::Session(SessionSnapshot { json: p })
        } else {
            Inbound::MalformedSession
        },
    }
}

/// Reads one text message from the producer: the tag picks the payload kind;
/// a session payload is kept only if it is JSON; anything else is dropped.
pub fn ingress(text: &str) -> (r: Inbound)
    ensures
        r.answers(text@, match decoded(text@) {
            Ok((PayloadKind::Session, p)) => json_valid(p),
            _ => true,
        }),
{
    let msg = decode_message(text);
    let well_formed = match &msg {
        Ok((PayloadKind::Session, p)) => is_json(p.as_str()),
        _ => true,
    };
    classify(msg, well_formed)
}

/// A message the producer frames reaches the ingress with its payload as it
/// was: a telemetry payload always, a session payload whenever it is JSON.
pub proof fn lemma_ingress_round_trip(kind: PayloadKind, payload: Seq<char>, r: Inbound, well_formed: bool)
    requires
        r.answers(encoded(kind, payload), well_formed),
        kind == PayloadKind::Session ==> well_formed,
    ensures
        kind == PayloadKind::Telemetry ==> (r matches Inbound::Telemetry(t) && t@ == payload),
        kind == PayloadKind::Session ==> (r matches Inbound::Session(s) && s.json@ == payload),
{
    lemma_round_trip(kind, payload);
}

} // verus!
