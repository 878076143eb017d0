//! Relaying raw inverter posts to the NEP cloud: what is sent, and how the
//! outcome is counted.

use vstd::prelude::*;
use vstd::utf8::encode_utf8;

use crate::text::{decimal, push_decimal};

verus! {

/// Marker header attached to every relayed request. If an incoming request
/// already carries it, the gateway is receiving its own relay (the host's DNS
/// for the cloud leads back to it) and must not forward it again.
pub const RELAY_MARKER_HEADER: &'static str = "x-nep-gw-relay";

/// The NEP cloud endpoint that the microinverter posts to.
pub const DEFAULT_UPSTREAM_URL: &'static str = "http://www.nepviewer.net/i.php";

/// The virtual host that the NEP cloud expects. It is sent explicitly, so that
/// an upstream URL that is pinned to a raw IP still reaches the right site.
pub const UPSTREAM_HOST: &'static str = "www.nepviewer.net";

#[derive(Clone, Debug)]
pub struct UpstreamConfig {
    pub url: String,
}

/// A request that relays one inverter post.
pub struct RelayRequest {
    pub method: &'static str,
    pub url: String,
    pub host: &'static str,
    pub marker: &'static str,
    pub marker_value: &'static str,
    pub body: Vec<u8>,
    pub timeout_secs: u64,
}

/// How the relay of one inverter post is counted.
#[derive(Debug, Clone, Copy, PartialEq, Eq, Structural)]
pub enum RelayOutcome {
    Forwarded,
    Failed,
}

/// Relays raw inverter posts to the NEP cloud (dual-delivery mode).
#[derive(Clone, Debug)]
pub struct UpstreamForwarder {
    pub url: String,
}

/// The count of a relay by the status of the cloud's reply; `None` where no
/// reply came.
pub open spec fn outcome_of(status: Option<u16>) -> RelayOutcome {
    match status {
        Some(code) if 200 <= code < 300 => RelayOutcome::Forwarded,
        _ => RelayOutcome::Failed,
    }
}

/// The head of the minimal request that the `/t.php` endpoint accepts.
pub open spec fn request_head(path: Seq<char>, body_len: nat) -> Seq<char> {
    "POST "@ + path + " HTTP/1.1\r\nHost: "@ + UPSTREAM_HOST@
        + "\r\nConnection: close\r\nContent-Length: "@ + decimal(body_len) + "\r\n\r\n"@
}

impl UpstreamForwarder {
    pub fn new(config: UpstreamConfig) -> (forwarder: Self)
        ensures
            forwarder.url == config.url,
    {
        UpstreamForwarder { url: config.url }
    }

    /// The request that relays one raw inverter payload. It carries the marker,
    /// and the host that the cloud expects whatever the URL says.
    pub fn forward(&self, body: Vec<u8>) -> (request: RelayRequest)
        ensures
            request.method@ == "POST"@,
            request.url@ == self.url@,
            request.host@ == UPSTREAM_HOST@,
            request.marker@ == RELAY_MARKER_HEADER@,
            request.marker_value@ == "1"@,
            request.body == body,
            request.timeout_secs == 10,
    {
        RelayRequest {
            method: "POST",
            url: self.url.clone(),
            host: UPSTREAM_HOST,
            marker: RELAY_MARKER_HEADER,
            marker_value: "1",
            body,
            timeout_secs: 10,
        }
    }

    /// The delivery of a raw inverter payload at `path` of the cloud, with
    /// nothing in the request but what the inverter itself would send.
    pub fn proxy(&self, path: &str, body: Vec<u8>) -> (delivery: Delivery)
        ensures
            delivery.stage == Stage::Connecting,
            delivery.head@ == encode_utf8(request_head(path@, body@.len())),
            delivery.body == body,
    {
        let mut head = "POST ".to_owned();
        head.append(path);
        head.append(" HTTP/1.1\r\nHost: ");
        head.append(UPSTREAM_HOST);
        head.append("\r\nConnection: close\r\nContent-Length: ");
        push_decimal(&mut head, body.len() as u64);
        head.append("\r\n\r\n");
        Delivery { head: head.as_str().as_bytes_vec(), body, stage: Stage::Connecting }
    }
}

/// How a relay is counted, by the status of the cloud's reply; `None` where no
/// reply came.
pub fn forward_outcome(status: Option<u16>) -> (outcome: RelayOutcome)
    ensures
        outcome == outcome_of(status),
{
    match status {
        Some(code) => if 200 <= code && code < 300 {
            RelayOutcome::Forwarded
        } else {
            RelayOutcome::Failed
        },
        None => RelayOutcome::Failed,
    }
}

/// How far a delivery has come.
#[derive(Debug, Clone, Copy, PartialEq, Eq, Structural)]
pub enum Stage {
    Connecting,
    SendingHead,
    SendingBody,
    Flushing,
    /// The request is out; the endpoint mostly sends no reply.
    AwaitingReply,
    Delivered,
    Failed,
}

/// One delivery over a raw connection. The endpoint resets a request with more
/// headers than the inverter's own, so it is written byte for byte.
pub struct Delivery {
    pub head: Vec<u8>,
    pub body: Vec<u8>,
    pub stage: Stage,
}

/// What a delivery needs done next.
pub enum DeliveryAction<'a> {
    Connect { host: &'static str, port: u16, timeout_secs: u64 },
    Write(&'a [u8]),
    Flush,
    ReadToEnd { timeout_secs: u64 },
    Stop,
}

/// The stage that follows once the stage's action has succeeded or failed. A
/// failed flush or read does not fail the delivery.
pub open spec fn next_stage(stage: Stage, ok: bool) -> Stage {
    match stage {
        Stage::Connecting => if ok {
            Stage::SendingHead
        } else {
            Stage::Failed
        },
        Stage::SendingHead => if ok {
            Stage::SendingBody
        } else {
            Stage::Failed
        },
        Stage::SendingBody => if ok {
            Stage::Flushing
        } else {
            Stage::Failed
        },
        Stage::Flushing => Stage::AwaitingReply,
        Stage::AwaitingReply => Stage::Delivered,
        Stage::Delivered => Stage::Delivered,
        Stage::Failed => Stage::Failed,
    }
}

/// What is counted when the stage's action has succeeded or failed.
pub open spec fn counted(stage: Stage, ok: bool) -> Option<RelayOutcome> {
    match stage {
        Stage::Connecting | Stage::SendingHead | Stage::SendingBody => if ok {
            None
        } else {
            Some(RelayOutcome::Failed)
        },
        Stage::Flushing => Some(RelayOutcome::Forwarded),
        _ => None,
    }
}

impl Delivery {
    /// The bytes that the action of the current stage writes.
    pub open spec fn to_write(self) -> Seq<u8> {
        match self.stage {
            Stage::SendingHead => self.head@,
            Stage::SendingBody => self.body@,
            _ => Seq::empty(),
        }
    }

    /// What is to be done at the current stage.
    pub fn next_action(&self) -> (action: DeliveryAction<'_>)
        ensures
            match self.stage {
                Stage::Connecting => action matches DeliveryAction::Connect {
                    host,
                    port,
                    timeout_secs,
                } && host@ == UPSTREAM_HOST@ && port == 80 && timeout_secs == 5,
                Stage::SendingHead | Stage::SendingBody => action matches DeliveryAction::Write(
                    bytes,
                ) && bytes@ == self.to_write(),
                Stage::Flushing => action is Flush,
                Stage::AwaitingReply => action matches DeliveryAction::ReadToEnd { timeout_secs }
                    && timeout_secs == 3,
                Stage::Delivered | Stage::Failed => action is Stop,
            },
    {
        match self.stage {
            Stage::Connecting => DeliveryAction::Connect {
                host: UPSTREAM_HOST,
                port: 80,
                timeout_secs: 5,
            },
            Stage::SendingHead => DeliveryAction::Write(self.head.as_slice()),
            Stage::SendingBody => DeliveryAction::Write(self.body.as_slice()),
            Stage::Flushing => DeliveryAction::Flush,
            Stage::AwaitingReply => DeliveryAction::ReadToEnd { timeout_secs: 3 },
            Stage::Delivered => DeliveryAction::Stop,
            Stage::Failed => DeliveryAction::Stop,
        }
    }

    /// Moves on after the action of the current stage has succeeded or failed,
    /// and says what is to be counted.
    pub fn proceed(&mut self, ok: bool) -> (count: Option<RelayOutcome>)
        ensures
            final(self).head == old(self).head,
            final(self).body == old(self).body,
            final(self).stage == next_stage(old(self).stage, ok),
            count == counted(old(self).stage, ok),
    {
        match self.stage {
            Stage::Connecting => {
                if ok {
                    self.stage = Stage::SendingHead;
                    None
                } else {
                    self.stage = Stage::Failed;
                    Some(RelayOutcome::Failed)
                }
            },
            Stage::SendingHead => {
                if ok {
                    self.stage = Stage::SendingBody;
                    None
                } else {
                    self.stage = Stage::Failed;
                    Some(RelayOutcome::Failed)
                }
            },
            Stage::SendingBody => {
                if ok {
                    self.stage = Stage::Flushing;
                    None
                } else {
                    self.stage = Stage::Failed;
                    Some(RelayOutcome::Failed)
                }
            },
            Stage::Flushing => {
                self.stage = Stage::AwaitingReply;
                Some(RelayOutcome::Forwarded)
            },
            Stage::AwaitingReply => {
                self.stage = Stage::Delivered;
                None
            },
            Stage::Delivered => None,
            Stage::Failed => None,
        }
    }
}

/// The stage after a run of results.
pub open spec fn stage_after(stage: Stage, results: Seq<bool>) -> Stage
    decreases results.len(),
{
    if results.len() == 0 {
        stage
    } else {
        next_stage(stage_after(stage, results.drop_last()), results.last())
    }
}

/// What is counted over a run of results.
pub open spec fn counts_over(stage: Stage, results: Seq<bool>) -> Seq<RelayOutcome>
    decreases results.len(),
{
    if results.len() == 0 {
        Seq::empty()
    } else {
        let before = counts_over(stage, results.drop_last());
        match counted(stage_after(stage, results.drop_last()), results.last()) {
            Some(outcome) => before.push(outcome),
            None => before,
        }
    }
}

/// What is written over a run of results.
pub open spec fn written_over(delivery: Delivery, results: Seq<bool>) -> Seq<u8>
    decreases results.len(),
{
    if results.len() == 0 {
        Seq::empty()
    } else {
        let at = Delivery {
            stage: stage_after(delivery.stage, results.drop_last()),
            ..delivery
        };
        written_over(delivery, results.drop_last()) + if results.last() {
            at.to_write()
        } else {
            Seq::empty()
        }
    }
}

/// Whatever happens to a delivery, it is counted at most once: as forwarded
/// exactly where the whole request went out, which is the head followed by the
/// body and nothing else; as failed exactly where it ended before.
pub proof fn law_delivery_is_counted_once(delivery: Delivery, results: Seq<bool>)
    requires
        delivery.stage == Stage::Connecting,
    ensures
        ({
            let stage = stage_after(delivery.stage, results);
            let counts = counts_over(delivery.stage, results);
            let written = written_over(delivery, results);
            match stage {
                Stage::Connecting | Stage::SendingHead => counts.len() == 0 && written.len() == 0,
                Stage::SendingBody => counts.len() == 0 && written == delivery.head@,
                Stage::Flushing => counts.len() == 0 && written == delivery.head@ + delivery.body@,
                Stage::AwaitingReply | Stage::Delivered => counts == seq![RelayOutcome::Forwarded]
                    && written == delivery.head@ + delivery.body@,
                Stage::Failed => counts == seq![RelayOutcome::Failed],
            }
        }),
    decreases results.len(),
{
    if results.len() > 0 {
        law_delivery_is_counted_once(delivery, results.drop_last());
    }
}

/// A delivery ends after at most five results.
pub proof fn law_delivery_ends(stage: Stage, results: Seq<bool>)
    requires
        results.len() >= 5,
    ensures
        stage_after(stage, results) == Stage::Delivered || stage_after(stage, results)
            == Stage::Failed,
{
    lemma_rank(stage, results);
}

spec fn rank(stage: Stage) -> nat {
    match stage {
        Stage::Connecting => 5,
        Stage::SendingHead => 4,
        Stage::SendingBody => 3,
        Stage::Flushing => 2,
        Stage::AwaitingReply => 1,
        Stage::Delivered | Stage::Failed => 0,
    }
}

proof fn lemma_rank(stage: Stage, results: Seq<bool>)
    ensures
        rank(stage_after(stage, results)) + results.len() <= rank(stage) || rank(
            stage_after(stage, results),
        ) == 0,
    decreases results.len(),
{
    if results.len() > 0 {
        lemma_rank(stage, results.drop_last());
    }
}

} // verus!
