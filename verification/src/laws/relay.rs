//! The HTTP side: how a post is answered, and what is relayed to the cloud.

use vstd::prelude::*;
use vstd::utf8::encode_utf8;

use crate::clock::time_sync_text;
use crate::handlers::{
    handle_inverter_post, handle_tphp_post, inverter_reply, reply_at, Post, Relay,
};
use crate::model::InverterModel;
use crate::payload::{parse_payload, parse_tphp_payload};
use crate::telemetry::NepTelemetry;
use crate::text::{all_digits, decimal, decimal_value, law_decimal_reads_back};
use crate::upstream::{
    counts_over, forward_outcome, law_delivery_is_counted_once, stage_after, written_over, Delivery,
    DeliveryAction, RelayOutcome, RelayRequest, Stage, UpstreamConfig, UpstreamForwarder,
};

verus! {

/// A post is relayed exactly where dual-delivery mode is on and it is no relay
/// itself, whatever its body and the model: even one that cannot be parsed here.
pub proof fn law_posts_are_relayed_whatever_they_hold(
    forwarding: bool,
    carries_marker: bool,
    body: &[u8],
    model: InverterModel,
    post: Post,
    answered: (Post, u16),
)
    requires
        call_ensures(handle_inverter_post, (forwarding, carries_marker, body, model), post),
        call_ensures(handle_tphp_post, (forwarding, carries_marker, body), answered),
    ensures
        post.relay == Relay::Forward <==> forwarding && !carries_marker,
        post.relay == Relay::Loop <==> forwarding && carries_marker,
        post.relay == Relay::Off <==> !forwarding,
        answered.0.relay == post.relay,
        answered.1 == 200,
{
}

/// Whether two results of parsing say the same.
pub open spec fn same_parse(
    a: Result<NepTelemetry, String>,
    b: Result<NepTelemetry, String>,
) -> bool {
    match (a, b) {
        (Ok(s), Ok(t)) => {
            &&& s.model == t.model && s.format == t.format
            &&& s.serial_number == t.serial_number && s.status_code == t.status_code
            &&& s.ac_power_raw == t.ac_power_raw && s.ac_voltage_raw == t.ac_voltage_raw
            &&& s.operating_flags == t.operating_flags
            &&& s.dc_current_ch1_raw == t.dc_current_ch1_raw
            &&& s.dc_current_ch2_raw == t.dc_current_ch2_raw
            &&& s.ac_freq_raw == t.ac_freq_raw && s.temp_raw == t.temp_raw
            &&& s.daily_energy_raw == t.daily_energy_raw && s.version_raw == t.version_raw
            &&& s.reactive_power_raw == t.reactive_power_raw
            &&& s.pv_input_power_raw@ == t.pv_input_power_raw@
        },
        (Err(d), Err(e)) => d@ == e@,
        _ => false,
    }
}

/// A post to `/i.php` is parsed with the scales of the configured model, and one
/// to `/t.php` with those of the BDM-1200-LV, whether or not it is relayed.
pub proof fn law_posts_are_parsed_by_their_endpoint(
    forwarding: bool,
    carries_marker: bool,
    body: &[u8],
    model: InverterModel,
    post: Post,
    answered: (Post, u16),
    parsed: Result<NepTelemetry, String>,
    parsed_tphp: Result<NepTelemetry, String>,
)
    requires
        call_ensures(handle_inverter_post, (forwarding, carries_marker, body, model), post),
        call_ensures(handle_tphp_post, (forwarding, carries_marker, body), answered),
        call_ensures(parse_payload, (body, model), parsed),
        call_ensures(parse_tphp_payload, (body, InverterModel::Bdm1200Lv), parsed_tphp),
    ensures
        same_parse(post.parsed, parsed),
        same_parse(answered.0.parsed, parsed_tphp),
{
    if let (Ok(s), Ok(t)) = (answered.0.parsed, parsed_tphp) {
        assert(s.pv_input_power_raw@ =~= t.pv_input_power_raw@);
    }
}

/// A post that was accepted is answered with the text that the clock is read as
/// in the same call; one that was refused with a bad request.
pub proof fn law_accepted_posts_are_answered_with_the_clock(
    parsed: Result<NepTelemetry, String>,
    reply: Result<String, u16>,
)
    requires
        call_ensures(inverter_reply, (&parsed,), reply),
    ensures
        parsed is Ok ==> reply is Ok && call_ensures(time_sync_text, (), reply->Ok_0),
        parsed is Err ==> reply == Err::<String, u16>(400),
{
}

/// Whatever the time, an accepted post is answered with it as it is.
pub proof fn law_answers_hold_the_time(
    parsed: Result<NepTelemetry, String>,
    time: String,
    reply: Result<String, u16>,
)
    requires
        call_ensures(reply_at, (&parsed, time), reply),
    ensures
        parsed is Ok ==> reply == Ok::<String, u16>(time),
        parsed is Err ==> reply == Err::<String, u16>(400),
{
}

/// A relay of a `/i.php` post is a post of the same body to the configured URL,
/// for the host of the cloud, and carries the marker by which it is known again.
pub proof fn law_relays_repeat_the_post(
    config: UpstreamConfig,
    forwarder: UpstreamForwarder,
    body: Vec<u8>,
    request: RelayRequest,
)
    requires
        call_ensures(UpstreamForwarder::new, (config,), forwarder),
        call_ensures(UpstreamForwarder::forward, (&forwarder, body), request),
    ensures
        request.method@ == "POST"@,
        request.url@ == config.url@,
        request.host@ == "www.nepviewer.net"@,
        request.marker@ == "x-nep-gw-relay"@,
        request.marker_value@ == "1"@,
        request.body@ == body@,
        request.timeout_secs == 10,
{
}

/// A relay is counted as forwarded exactly where it was answered with a status of
/// success.
pub proof fn law_only_success_is_forwarded(status: Option<u16>, outcome: RelayOutcome)
    requires
        call_ensures(forward_outcome, (status,), outcome),
    ensures
        outcome == RelayOutcome::Forwarded <==> (status matches Some(code) && code / 100 == 2),
        outcome == RelayOutcome::Failed <==> outcome != RelayOutcome::Forwarded,
{
}

/// The head of a raw delivery frames its body: the length that it gives, in
/// decimal digits without a leading zero, is that of the body, for a body of any
/// length. It names the path and the host, and nothing else stands in it.
pub proof fn law_head_frames_the_body(
    forwarder: UpstreamForwarder,
    path: &str,
    body: Vec<u8>,
    delivery: Delivery,
)
    requires
        call_ensures(UpstreamForwarder::proxy, (&forwarder, path, body), delivery),
    ensures
        delivery.stage == Stage::Connecting,
        delivery.body@ == body@,
        exists|length: Seq<char>|
            {
                &&& delivery.head@ == encode_utf8(
                    "POST "@ + path@
                        + " HTTP/1.1\r\nHost: www.nepviewer.net\r\nConnection: close\r\nContent-Length: "@
                        + length + "\r\n\r\n"@,
                )
                &&& #[trigger] all_digits(length) && decimal_value(length) == body@.len()
                &&& length.len() > 0 && (body@.len() > 0 ==> length[0] != '0')
            },
{
    let length = decimal(body@.len());
    law_decimal_reads_back(body@.len());
    reveal_strlit(" HTTP/1.1\r\nHost: ");
    reveal_strlit("www.nepviewer.net");
    reveal_strlit("\r\nConnection: close\r\nContent-Length: ");
    reveal_strlit(
        " HTTP/1.1\r\nHost: www.nepviewer.net\r\nConnection: close\r\nContent-Length: ",
    );
    assert(crate::upstream::request_head(path@, body@.len()) =~= "POST "@ + path@
        + " HTTP/1.1\r\nHost: www.nepviewer.net\r\nConnection: close\r\nContent-Length: "@ + length
        + "\r\n\r\n"@);
}

/// What a delivery does at each stage: it connects to the cloud, writes its head
/// and then its body, and gives the cloud a moment to answer.
pub proof fn law_actions_of_a_delivery<'a>(delivery: &'a Delivery, action: DeliveryAction<'a>)
    requires
        call_ensures(Delivery::next_action, (delivery,), action),
    ensures
        match action {
            DeliveryAction::Connect { host, port, timeout_secs } => delivery.stage
                == Stage::Connecting && host@ == "www.nepviewer.net"@ && port == 80 && timeout_secs
                == 5,
            DeliveryAction::Write(bytes) => {
                ||| delivery.stage == Stage::SendingHead && bytes@ == delivery.head@
                ||| delivery.stage == Stage::SendingBody && bytes@ == delivery.body@
            },
            DeliveryAction::Flush => delivery.stage == Stage::Flushing,
            DeliveryAction::ReadToEnd { timeout_secs } => delivery.stage == Stage::AwaitingReply
                && timeout_secs == 3,
            DeliveryAction::Stop => delivery.stage == Stage::Delivered || delivery.stage
                == Stage::Failed,
        },
{
}

/// A delivery comes to its end in the order connect, head, body. Where these
/// three succeed, it is delivered, whatever the flush and the reply come to: the
/// head and the body went out whole and it is counted as forwarded, once. Where
/// one of them fails, so does the delivery, and it is counted as failed, once.
pub proof fn law_delivery_succeeds_with_its_request(delivery: Delivery, results: Seq<bool>)
    requires
        delivery.stage == Stage::Connecting,
        results.len() == 5,
    ensures
        ({
            let stage = stage_after(delivery.stage, results);
            let counts = counts_over(delivery.stage, results);
            let sent = results[0] && results[1] && results[2];
            &&& stage_after(delivery.stage, results.take(1)) == Stage::SendingHead <==> results[0]
            &&& sent ==> {
                &&& stage == Stage::Delivered
                &&& counts == seq![RelayOutcome::Forwarded]
                &&& written_over(delivery, results) == delivery.head@ + delivery.body@
            }
            &&& !sent ==> stage == Stage::Failed && counts == seq![RelayOutcome::Failed]
        }),
{
    let s = delivery.stage;
    let r1 = results.take(1);
    let r2 = results.take(2);
    let r3 = results.take(3);
    let r4 = results.take(4);
    assert(r1.drop_last() =~= Seq::<bool>::empty());
    assert(r2.drop_last() =~= r1);
    assert(r3.drop_last() =~= r2);
    assert(r4.drop_last() =~= r3);
    assert(results.drop_last() =~= r4);
    assert(stage_after(s, Seq::<bool>::empty()) == s);
    assert(stage_after(s, r1) == crate::upstream::next_stage(s, results[0]));
    assert(stage_after(s, r2) == crate::upstream::next_stage(stage_after(s, r1), results[1]));
    assert(stage_after(s, r3) == crate::upstream::next_stage(stage_after(s, r2), results[2]));
    assert(stage_after(s, r4) == crate::upstream::next_stage(stage_after(s, r3), results[3]));
    assert(stage_after(s, results) == crate::upstream::next_stage(stage_after(s, r4), results[4]));
    law_delivery_is_counted_once(delivery, results);
}

} // verus!
