//! The weather query handler as a pure function.
//!
//! One inbound message is handled in two halves around the single
//! outbound provider call: the command half decides whether to query at
//! all and with which URL (`command`), and this module's
//! `handle_message` turns the message together with the provider call's
//! outcome into the reply to send, or into nothing. A non-command
//! message, a transport failure and an undecodable body all produce
//! nothing: failures are silent to the end user. The handler keeps no
//! state between invocations.

use vstd::prelude::*;

use crate::command::{extract_city, is_command, strip_trigger};
use crate::decode::{decode_weather, spec_decode};
use crate::reply::{make_reply, spec_reply, OutboundReply, ReplySpec};

verus! {

/// How the one provider call ended: a response body to decode, or a
/// transport failure (connection, timeout, DNS). A response with an
/// error status hands its body in as `Body`; it fails decoding there.
pub enum ProviderOutcome {
    Body(String),
    TransportFailure,
}

/// The body the provider handed back, if any.
pub open spec fn outcome_body(o: &ProviderOutcome) -> Option<Seq<char>> {
    match o {
        ProviderOutcome::Body(s) => Some(s@),
        ProviderOutcome::TransportFailure => None,
    }
}

/// What a message and a provider outcome are answered with: a reply
/// exactly when the message is a command, the provider answered, and the
/// body decodes; nothing otherwise.
pub open spec fn spec_handle(content: Seq<char>, body: Option<Seq<char>>) -> Option<ReplySpec> {
    if !is_command(content) {
        None
    } else {
        match body {
            None => None,
            Some(b) => match spec_decode(b) {
                None => None,
                Some((d, t, f)) => Some(spec_reply(strip_trigger(content), d, t as int, f as int)),
            },
        }
    }
}

/// Handles one inbound message given the outcome of the provider call
/// made for it. Returns the reply to send to the originating channel, or
/// `None` when no reply is owed: the message is not a command, the call
/// failed in transport, or the body does not decode (an empty condition
/// list included). On `None` nothing is sent.
pub fn handle_message(content: &str, outcome: &ProviderOutcome) -> (r: Option<OutboundReply>)
    ensures
        !is_command(content@) ==> r is None,
        (outcome matches ProviderOutcome::TransportFailure) ==> r is None,
        (r matches Some(rep) ==> spec_handle(content@, outcome_body(outcome)) == Some(rep@)),
        r is None ==> spec_handle(content@, outcome_body(outcome)) is None,
{
    match extract_city(content) {
        None => None,
        Some(city) => match outcome {
            ProviderOutcome::TransportFailure => None,
            ProviderOutcome::Body(b) => match decode_weather(b.as_str()) {
                Err(_) => None,
                Ok(rep) => Some(make_reply(city.as_str(), &rep)),
            },
        },
    }
}

/// Handling is a pure function of the inbound message and the provider
/// outcome: two invocations with identical message text and identical
/// outcome produce structurally identical results, and no state carries
/// over from one invocation to the next.
pub proof fn lemma_handle_deterministic(
    c1: Seq<char>,
    b1: Option<Seq<char>>,
    c2: Seq<char>,
    b2: Option<Seq<char>>,
)
    requires
        c1 == c2,
        b1 == b2,
    ensures
        spec_handle(c1, b1) == spec_handle(c2, b2),
{
}

} // verus!
