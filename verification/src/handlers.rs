//! The HTTP side: what is done with an inverter's post, and what it is answered.

use vstd::prelude::*;

use crate::clock::{is_clock_reading, is_sync_text, time_sync_text};
use crate::model::InverterModel;
use crate::payload::{
    decodes_payload, decodes_tphp, parse_payload, parse_tphp_payload, payload_refusal,
    tphp_refusal,
};
use crate::telemetry::NepTelemetry;

verus! {

/// What is done with the raw body of a post, beside parsing it.
#[derive(Debug, Clone, Copy, PartialEq, Eq, Structural)]
pub enum Relay {
    /// Dual-delivery mode is off.
    Off,
    /// The post is one of the gateway's own relays, bounced back. It is not
    /// relayed again: a single packet would loop forever.
    Loop,
    /// The body is relayed to the cloud in the background.
    Forward,
}

/// What is done with a post.
#[derive(Debug)]
pub struct Post {
    pub relay: Relay,
    /// The telemetry to pass on, or why the body was refused.
    pub parsed: Result<NepTelemetry, String>,
}

pub open spec fn relay_of(forwarding: bool, carries_marker: bool) -> Relay {
    if !forwarding {
        Relay::Off
    } else if carries_marker {
        Relay::Loop
    } else {
        Relay::Forward
    }
}

fn relay(forwarding: bool, carries_marker: bool) -> (r: Relay)
    ensures
        r == relay_of(forwarding, carries_marker),
{
    if !forwarding {
        Relay::Off
    } else if carries_marker {
        Relay::Loop
    } else {
        Relay::Forward
    }
}

/// Handles a post to `/i.php`. `forwarding` says whether dual-delivery mode is
/// on, `carries_marker` whether the request has the relay marker. The body is
/// relayed even where it cannot be parsed here: the cloud may understand it.
pub fn handle_inverter_post(
    forwarding: bool,
    carries_marker: bool,
    body: &[u8],
    model: InverterModel,
) -> (post: Post)
    ensures
        post.relay == relay_of(forwarding, carries_marker),
        post.parsed is Ok <==> payload_refusal(body@) is None,
        post.parsed matches Ok(t) ==> decodes_payload(t, body@, model),
        post.parsed matches Err(e) ==> payload_refusal(body@) == Some(e@),
{
    Post { relay: relay(forwarding, carries_marker), parsed: parse_payload(body, model) }
}

/// The answer to a post to `/i.php` at the time `time`: the time where the
/// payload was accepted, and else the status of a bad request.
pub fn reply_at(parsed: &Result<NepTelemetry, String>, time: String) -> (reply: Result<
    String,
    u16,
>)
    ensures
        reply == (match *parsed {
            Ok(_) => Ok::<String, u16>(time),
            Err(_) => Err::<String, u16>(400),
        }),
{
    match parsed {
        Ok(_) => Ok(time),
        Err(_) => Err(400),
    }
}

/// The answer to a post to `/i.php` by a clock: what the clock is read as where
/// the payload was accepted, and else the status of a bad request. The clock is
/// read only where the time is needed.
pub fn reply_by<F: Fn() -> String>(parsed: &Result<NepTelemetry, String>, clock: F) -> (reply:
    Result<String, u16>)
    requires
        call_requires(clock, ()),
    ensures
        match *parsed {
            Ok(_) => reply matches Ok(time) && call_ensures(clock, (), time),
            Err(_) => reply == Err::<String, u16>(400),
        },
{
    match parsed {
        Ok(_) => reply_at(parsed, clock()),
        Err(_) => Err(400),
    }
}

/// The answer to a post to `/i.php`: the current local time, which sets the
/// inverter's clock, where the payload was accepted; else the status of a bad
/// request.
pub fn inverter_reply(parsed: &Result<NepTelemetry, String>) -> (reply: Result<String, u16>)
    ensures
        reply is Ok <==> *parsed is Ok,
        reply matches Ok(time) ==> is_sync_text(time@) && is_clock_reading(time),
        reply matches Ok(time) ==> call_ensures(time_sync_text, (), time),
        reply matches Err(status) ==> status == 400,
{
    reply_by(parsed, time_sync_text)
}

/// Handles a post to `/t.php`, the format of the BDM-1200-LV, whose scales are
/// used whatever model is configured. The status of the answer comes with it:
/// success, whether or not the payload was accepted.
pub fn handle_tphp_post(forwarding: bool, carries_marker: bool, body: &[u8]) -> (answered: (
    Post,
    u16,
))
    ensures
        answered.0.relay == relay_of(forwarding, carries_marker),
        answered.0.parsed is Ok <==> tphp_refusal(body@) is None,
        answered.0.parsed matches Ok(t) ==> decodes_tphp(t, body@, InverterModel::Bdm1200Lv),
        answered.0.parsed matches Err(e) ==> tphp_refusal(body@) == Some(e@),
        answered.1 == 200,
{
    let post = Post {
        relay: relay(forwarding, carries_marker),
        parsed: parse_tphp_payload(body, InverterModel::Bdm1200Lv),
    };
    (post, 200)
}

/// A request that carries the relay marker is never relayed, so that a packet
/// cannot loop between the gateway and a cloud address that leads back to it.
pub proof fn law_relayed_requests_are_not_relayed_again(forwarding: bool)
    ensures
        relay_of(forwarding, true) != Relay::Forward,
{
}

/// In dual-delivery mode every post of an inverter is relayed.
pub proof fn law_inverter_posts_are_relayed()
    ensures
        relay_of(true, false) == Relay::Forward,
{
}

} // verus!
