//! The MQTT side: the telemetry message, and the order in which discovery and
//! telemetry are published.

use vstd::prelude::*;

use crate::discovery::{
    discovery_config, discovery_of, discovery_topic, discovery_topic_text,
    law_discovery_topics_are_distinct, sensor_views, sensors, sensors_of, telemetry_topic,
    telemetry_topic_text, DiscoveryConfig, DiscoveryView, Sensor, SensorView,
};
use crate::model::InverterModel;
use crate::ratio::to_hundredths;
use crate::telemetry::{error_state, operating_mode, NepTelemetry};
use crate::text::{hex, hex8};

verus! {

#[derive(Debug, Clone)]
pub struct MqttConfig {
    pub host: String,
    pub port: u16,
    /// `(username, password)` for brokers requiring authentication.
    pub credentials: Option<(String, String)>,
    /// Inverter model name shown in Home Assistant (e.g. "BDM-400", "BDM-800").
    pub model: String,
}

/// A value of the telemetry message.
#[derive(Debug)]
pub enum Field {
    /// A number, in hundredths.
    Hundredths(i128),
    Text(String),
}

/// The contents of a [`Field`].
#[verifier::ext_equal]
pub enum FieldView {
    Hundredths(int),
    Text(Seq<char>),
}

impl Field {
    pub open spec fn view(self) -> FieldView {
        match self {
            Field::Hundredths(n) => FieldView::Hundredths(n as int),
            Field::Text(text) => FieldView::Text(text@),
        }
    }
}

/// The keys and contents of a list of fields.
pub open spec fn field_views(fields: Seq<(&'static str, Field)>) -> Seq<(Seq<char>, FieldView)> {
    fields.map_values(|f: (&'static str, Field)| (f.0@, f.1.view()))
}

/// A reading as it is published: rounded to hundredths.
pub open spec fn published(reading: real) -> FieldView {
    FieldView::Hundredths(to_hundredths(reading))
}

/// The fields of the telemetry message.
pub open spec fn message_of(t: NepTelemetry) -> Seq<(Seq<char>, FieldView)> {
    seq![
        ("ac_power_w"@, published(t.ac_power())),
        ("ac_voltage_v"@, published(t.ac_voltage())),
        ("ac_freq_hz"@, published(t.ac_freq())),
        ("dc_voltage_v"@, published(t.dc_voltage())),
        ("dc_current_a"@, published(t.dc_current())),
        ("dc_current_ch1_a"@, published(t.dc_current_ch1())),
        ("dc_current_ch2_a"@, published(t.dc_current_ch2())),
        ("dc_power_w"@, published(t.dc_power())),
        ("efficiency_percent"@, published(t.efficiency())),
        ("temperature_c"@, published(t.temp())),
        ("daily_energy_wh"@, published(t.daily_energy())),
        ("reactive_power_var"@, published(t.reactive_power())),
        ("pv1_power_w"@, published(t.pv_input_power(0))),
        ("pv2_power_w"@, published(t.pv_input_power(1))),
        ("pv3_power_w"@, published(t.pv_input_power(2))),
        (
            "status"@,
            FieldView::Text(
                if t.status_code == 0 {
                    "OK"@
                } else {
                    "Error"@
                },
            ),
        ),
        ("error_state"@, FieldView::Text(error_state(t.status_code))),
        (
            "operating_mode"@,
            FieldView::Text(operating_mode(t.model, t.version_raw as int % 256)),
        ),
        ("version"@, FieldView::Text(t.version_text())),
    ]
}

/// The fields of the telemetry message.
pub fn telemetry_message(t: &NepTelemetry) -> (fields: Vec<(&'static str, Field)>)
    ensures
        field_views(fields@) == message_of(*t),
{
    let pv = t.pv_input_power_w();
    assert(pv@.len() == 3);
    assert(pv@[0].value() == t.pv_input_power(0));
    assert(pv@[1].value() == t.pv_input_power(1));
    assert(pv@[2].value() == t.pv_input_power(2));
    let status: &'static str = if t.status_code == 0 {
        "OK"
    } else {
        "Error"
    };
    let fields: Vec<(&'static str, Field)> = vec![
        ("ac_power_w", Field::Hundredths(t.ac_power_w().hundredths())),
        ("ac_voltage_v", Field::Hundredths(t.ac_voltage_v().hundredths())),
        ("ac_freq_hz", Field::Hundredths(t.ac_freq_hz().hundredths())),
        ("dc_voltage_v", Field::Hundredths(t.dc_voltage_v().hundredths())),
        ("dc_current_a", Field::Hundredths(t.dc_current_a().hundredths())),
        ("dc_current_ch1_a", Field::Hundredths(t.dc_current_ch1_a().hundredths())),
        ("dc_current_ch2_a", Field::Hundredths(t.dc_current_ch2_a().hundredths())),
        ("dc_power_w", Field::Hundredths(t.dc_power_w().hundredths())),
        ("efficiency_percent", Field::Hundredths(t.efficiency_percent().hundredths())),
        ("temperature_c", Field::Hundredths(t.temp_c().hundredths())),
        ("daily_energy_wh", Field::Hundredths(t.daily_energy_wh().hundredths())),
        ("reactive_power_var", Field::Hundredths(t.reactive_power_var().hundredths())),
        ("pv1_power_w", Field::Hundredths(pv[0].hundredths())),
        ("pv2_power_w", Field::Hundredths(pv[1].hundredths())),
        ("pv3_power_w", Field::Hundredths(pv[2].hundredths())),
        ("status", Field::Text(status.to_owned())),
        ("error_state", Field::Text(t.error_state_str().to_owned())),
        ("operating_mode", Field::Text(t.operating_mode_str().to_owned())),
        ("version", Field::Text(t.version())),
    ];
    assert(field_views(fields@) =~= message_of(*t));
    fields
}

/// What a message holds.
#[derive(Debug)]
pub enum Content {
    Discovery(DiscoveryConfig),
    Telemetry(Vec<(&'static str, Field)>),
}

/// The quality of service of a message that is delivered at least once.
pub const AT_LEAST_ONCE: u8 = 1;

/// A message to publish.
#[derive(Debug)]
pub struct Publication {
    pub topic: String,
    /// The MQTT quality of service: [`AT_LEAST_ONCE`].
    pub qos: u8,
    /// Whether the broker keeps the message for later subscribers.
    pub retain: bool,
    pub content: Content,
}

/// The contents of a [`Content`].
#[verifier::ext_equal]
pub enum ContentView {
    Discovery(DiscoveryView),
    Telemetry(Seq<(Seq<char>, FieldView)>),
}

/// The contents of a [`Publication`].
#[verifier::ext_equal]
pub struct PublicationView {
    pub topic: Seq<char>,
    pub qos: u8,
    pub retain: bool,
    pub content: ContentView,
}

impl Publication {
    pub open spec fn view(self) -> PublicationView {
        PublicationView {
            topic: self.topic@,
            qos: self.qos,
            retain: self.retain,
            content: match self.content {
                Content::Discovery(config) => ContentView::Discovery(config.view()),
                Content::Telemetry(fields) => ContentView::Telemetry(field_views(fields@)),
            },
        }
    }
}

pub open spec fn publication_views(list: Seq<Publication>) -> Seq<PublicationView> {
    list.map_values(|p: Publication| p.view())
}

/// The messages that announce an inverter to Home Assistant: one for each
/// sensor of its model.
pub open spec fn announcement_of(
    serial: Seq<char>,
    model: Seq<char>,
    kind: InverterModel,
) -> Seq<PublicationView> {
    sensors_of(kind).map_values(
        |s: SensorView|
            PublicationView {
                topic: discovery_topic(serial, s.id),
                qos: AT_LEAST_ONCE,
                retain: true,
                content: ContentView::Discovery(discovery_of(serial, model, s)),
            },
    )
}

/// The message that carries a telemetry.
pub open spec fn report_of(t: NepTelemetry) -> PublicationView {
    PublicationView {
        topic: telemetry_topic(hex(t.serial_number as nat, 8)),
        qos: AT_LEAST_ONCE,
        retain: false,
        content: ContentView::Telemetry(message_of(t)),
    }
}

/// The messages that announce an inverter to Home Assistant: one for each
/// sensor of its model.
pub fn publish_ha_discovery(serial: &str, model: &str, kind: InverterModel) -> (list: Vec<
    Publication,
>)
    ensures
        publication_views(list@) == announcement_of(serial@, model@, kind),
{
    let list = sensors(kind);
    let mut out: Vec<Publication> = Vec::new();
    let mut i: usize = 0;
    let ghost expected = announcement_of(serial@, model@, kind);
    while i < list.len()
        invariant
            0 <= i <= list@.len(),
            sensor_views(list@) == sensors_of(kind),
            expected == announcement_of(serial@, model@, kind),
            publication_views(out@) =~= expected.take(i as int),
        decreases list@.len() - i,
    {
        let s: Sensor = list[i];
        assert(sensor_views(list@)[i as int] == s.view());
        let p = Publication {
            topic: discovery_topic_text(serial, s.id),
            qos: AT_LEAST_ONCE,
            retain: true,
            content: Content::Discovery(discovery_config(serial, model, &s)),
        };
        assert(p.view() == expected[i as int]);
        let ghost before = out@;
        out.push(p);
        assert(publication_views(out@) =~= publication_views(before).push(p.view()));
        i += 1;
    }
    assert(sensor_views(list@).len() == list@.len());
    assert(expected.take(i as int) =~= expected);
    out
}

/// The message that carries a telemetry.
pub fn telemetry_report(t: &NepTelemetry) -> (p: Publication)
    ensures
        p.view() == report_of(*t),
{
    let serial = hex8(t.serial_number);
    Publication {
        topic: telemetry_topic_text(serial.as_str()),
        qos: AT_LEAST_ONCE,
        retain: false,
        content: Content::Telemetry(telemetry_message(t)),
    }
}

/// The MQTT worker. Each telemetry starts a round of publications: the
/// announcement of the inverter, if that has not yet been published in full,
/// and then the report of the telemetry.
pub struct MqttWorker {
    /// Inverter model name shown in Home Assistant.
    pub model: String,
    /// Serial numbers of the inverters that have been announced.
    pub discovered: Vec<u32>,
    /// The inverter of the current round.
    pub serial: u32,
    /// The publications of the current round; the last one is the report.
    pub outbox: Vec<Publication>,
    /// How many publications of the round are done with.
    pub next: usize,
}

/// The publications of the round that a telemetry starts.
pub open spec fn round_of(model: Seq<char>, known: bool, t: NepTelemetry) -> Seq<PublicationView> {
    if known {
        seq![report_of(t)]
    } else {
        announcement_of(hex(t.serial_number as nat, 8), model, t.model).push(report_of(t))
    }
}

/// Where a round of `n` publications stands after its publication `i` has
/// succeeded or failed: after a failed announcement only the report is left.
pub open spec fn next_index(n: nat, i: nat, ok: bool) -> nat {
    if i + 1 < n && !ok {
        (n - 1) as nat
    } else {
        i + 1
    }
}

/// The state of a [`MqttWorker`].
#[verifier::ext_equal]
pub struct WorkerView {
    pub model: Seq<char>,
    pub discovered: Seq<u32>,
    pub serial: u32,
    pub outbox: Seq<PublicationView>,
    pub next: nat,
}

impl WorkerView {
    /// The state in which the round of a telemetry starts.
    pub open spec fn on_telemetry(self, t: NepTelemetry) -> WorkerView {
        WorkerView {
            serial: t.serial_number,
            outbox: round_of(self.model, self.discovered.contains(t.serial_number), t),
            next: 0,
            ..self
        }
    }

    /// The state after the next publication has succeeded or failed.
    pub open spec fn published(self, ok: bool) -> WorkerView {
        if self.next >= self.outbox.len() {
            self
        } else {
            WorkerView {
                next: next_index(self.outbox.len(), self.next, ok),
                discovered: if ok && self.next + 2 == self.outbox.len() {
                    self.discovered.push(self.serial)
                } else {
                    self.discovered
                },
                ..self
            }
        }
    }
}

impl MqttWorker {
    pub open spec fn view(self) -> WorkerView {
        WorkerView {
            model: self.model@,
            discovered: self.discovered@,
            serial: self.serial,
            outbox: publication_views(self.outbox@),
            next: self.next as nat,
        }
    }

    /// No inverter is listed twice, and one that is being announced is not listed.
    pub open spec fn wf(self) -> bool {
        &&& self.discovered@.no_duplicates()
        &&& self.next + 1 < self.outbox@.len() ==> !self.discovered@.contains(self.serial)
    }

    pub fn new(model: String) -> (worker: Self)
        ensures
            worker.model == model,
            worker.discovered@.len() == 0,
            worker.outbox@.len() == 0,
            worker.next == 0,
            worker.wf(),
    {
        MqttWorker {
            model,
            discovered: Vec::new(),
            serial: 0,
            outbox: Vec::new(),
            next: 0,
        }
    }

    /// Whether an inverter has been announced.
    pub fn is_discovered(&self, serial: u32) -> (known: bool)
        ensures
            known == self.discovered@.contains(serial),
    {
        let mut i: usize = 0;
        while i < self.discovered.len()
            invariant
                0 <= i <= self.discovered@.len(),
                forall|j: int| 0 <= j < i ==> self.discovered@[j] != serial,
            decreases self.discovered@.len() - i,
        {
            if self.discovered[i] == serial {
                return true;
            }
            i += 1;
        }
        false
    }

    /// Starts the round of a telemetry.
    pub fn on_telemetry(&mut self, t: &NepTelemetry)
        ensures
            final(self).view() == old(self).view().on_telemetry(*t),
            old(self).wf() ==> final(self).wf(),
    {
        let known = self.is_discovered(t.serial_number);
        let serial = hex8(t.serial_number);
        let mut outbox: Vec<Publication> = if known {
            Vec::new()
        } else {
            publish_ha_discovery(serial.as_str(), self.model.as_str(), t.model)
        };
        let ghost before = outbox@;
        let report = telemetry_report(t);
        outbox.push(report);
        assert(publication_views(outbox@) =~= publication_views(before).push(report.view()));
        assert(publication_views(outbox@) =~= round_of(self.model@, known, *t));
        assert(publication_views(outbox@).len() == outbox@.len());
        self.serial = t.serial_number;
        self.next = 0;
        self.outbox = outbox;
    }

    /// What is to be published next; `None` once the round is over.
    pub fn next_publication(&self) -> (p: Option<&Publication>)
        ensures
            p is Some <==> self.next < self.outbox@.len(),
            p matches Some(q) ==> *q == self.outbox@[self.next as int],
    {
        if self.next < self.outbox.len() {
            Some(&self.outbox[self.next])
        } else {
            None
        }
    }

    /// Moves on after the next publication has succeeded or failed. The
    /// inverter counts as announced once its whole announcement has been
    /// published; until then the next telemetry announces it again.
    pub fn published(&mut self, ok: bool)
        ensures
            final(self).view() == old(self).view().published(ok),
            final(self).outbox == old(self).outbox,
            old(self).wf() ==> final(self).wf(),
    {
        let n: usize = self.outbox.len();
        if self.next >= n {
            return;
        }
        if n - self.next == 1 {
            self.next = n;
        } else if !ok {
            self.next = n - 1;
        } else {
            if n - self.next == 2 {
                self.discovered.push(self.serial);
            }
            self.next = self.next + 1;
        }
    }
}

/// What a worker comes to, and what it publishes on the way.
#[verifier::ext_equal]
pub struct Course {
    pub end: WorkerView,
    /// The publications that were attempted, in order.
    pub attempted: Seq<PublicationView>,
}

/// The rest of a round: each next publication is attempted, until there is
/// none. `ok(k)` says whether attempt `k` succeeds; the first one here is `from`.
pub open spec fn finish_round(w: WorkerView, ok: spec_fn(nat) -> bool, from: nat) -> Course
    decreases w.outbox.len() - w.next,
{
    if w.next >= w.outbox.len() {
        Course { end: w, attempted: Seq::empty() }
    } else {
        let rest = finish_round(w.published(ok(from)), ok, from + 1);
        Course { end: rest.end, attempted: seq![w.outbox[w.next as int]] + rest.attempted }
    }
}

/// The round of one telemetry.
pub open spec fn round_course(
    w: WorkerView,
    t: NepTelemetry,
    ok: spec_fn(nat) -> bool,
    from: nat,
) -> Course {
    finish_round(w.on_telemetry(t), ok, from)
}

/// The rounds of the telemetries `list`, one after the other.
pub open spec fn run_course(
    w: WorkerView,
    list: Seq<NepTelemetry>,
    ok: spec_fn(nat) -> bool,
    from: nat,
) -> Course
    decreases list.len(),
{
    if list.len() == 0 {
        Course { end: w, attempted: Seq::empty() }
    } else {
        let first = round_course(w, list[0], ok, from);
        let rest = run_course(first.end, list.skip(1), ok, from + first.attempted.len());
        Course { end: rest.end, attempted: first.attempted + rest.attempted }
    }
}

/// The publications that carry telemetry, among others.
pub open spec fn reports_among(list: Seq<PublicationView>) -> Seq<PublicationView> {
    list.filter(|p: PublicationView| p.content is Telemetry)
}

/// The reports of a list of telemetries.
pub open spec fn reports_of(list: Seq<NepTelemetry>) -> Seq<PublicationView> {
    list.map_values(|t: NepTelemetry| report_of(t))
}

/// Every round ends with the report of its telemetry, and announces the
/// inverter before it exactly where that is not known yet: one message for each
/// sensor.
pub proof fn law_every_round_reports(model: Seq<char>, known: bool, t: NepTelemetry)
    ensures
        ({
            let round = round_of(model, known, t);
            let announcement = announcement_of(hex(t.serial_number as nat, 8), model, t.model);
            &&& round.len() > 0
            &&& round.last() == report_of(t)
            &&& known ==> round.drop_last() == Seq::<PublicationView>::empty()
            &&& !known ==> round.drop_last() == announcement
            &&& announcement.len() == sensors_of(t.model).len()
        }),
{
    let round = round_of(model, known, t);
    let announcement = announcement_of(hex(t.serial_number as nat, 8), model, t.model);
    if known {
        assert(round.drop_last() =~= Seq::empty());
    } else {
        assert(round.drop_last() =~= announcement);
    }
}

/// A round always ends, and only with the report: a failed announcement does
/// not keep the telemetry from being published.
pub proof fn law_round_ends_with_report(n: nat, i: nat, ok: bool)
    requires
        i < n,
    ensures
        i < next_index(n, i, ok) <= n,
        next_index(n, i, ok) == n <==> i == n - 1,
{
}

/// The rest of a round attempts the announcements up to the first that fails,
/// and then the last publication. The inverter is listed exactly where the rest
/// of its announcement was attempted and succeeded.
proof fn lemma_finish_round(w: WorkerView, ok: spec_fn(nat) -> bool, from: nat)
    requires
        w.next < w.outbox.len(),
    ensures
        ({
            let n = w.outbox.len() - 1;
            let course = finish_round(w, ok, from);
            let m = course.attempted.len() - 1;
            &&& 0 <= m <= n - w.next
            &&& w.next < n ==> m >= 1
            &&& course.attempted.last() == w.outbox.last()
            &&& course.attempted.drop_last() == w.outbox.subrange(w.next as int, w.next + m)
            &&& forall|i: nat| from <= i < from + m - 1 ==> #[trigger] ok(i)
            &&& m < n - w.next ==> !ok((from + m - 1) as nat)
            &&& course.end == WorkerView {
                next: w.outbox.len(),
                discovered: if w.next < n && m == n - w.next && ok((from + m - 1) as nat) {
                    w.discovered.push(w.serial)
                } else {
                    w.discovered
                },
                ..w
            }
        }),
    decreases w.outbox.len() - w.next,
{
    let n = w.outbox.len() - 1;
    let after = w.published(ok(from));
    let course = finish_round(w, ok, from);
    let rest = finish_round(after, ok, from + 1);
    let m = course.attempted.len() - 1;
    assert(course.attempted =~= seq![w.outbox[w.next as int]] + rest.attempted);
    if w.next == n {
        assert(after.next == w.outbox.len());
        assert(rest.attempted =~= Seq::empty());
        assert(course.attempted.drop_last() =~= w.outbox.subrange(w.next as int, w.next + m));
    } else {
        lemma_finish_round(after, ok, from + 1);
        assert(course.attempted.drop_last() =~= seq![w.outbox[w.next as int]]
            + rest.attempted.drop_last());
        assert(course.attempted.drop_last() =~= w.outbox.subrange(w.next as int, w.next + m));
        assert forall|i: nat| from <= i < from + m - 1 implies #[trigger] ok(i) by {
            if i > from {
                assert(from + 1 <= i);
            }
        }
    }
}

/// A round publishes the report of its telemetry last and once, whatever
/// fails. The announcement of an inverter that is known is not published; that
/// of one that is new is published before the report, up to the first message
/// that fails. The inverter is known from then on exactly where every message
/// of its announcement succeeded.
pub proof fn law_new_inverters_are_announced_first(
    w: WorkerView,
    t: NepTelemetry,
    ok: spec_fn(nat) -> bool,
    from: nat,
)
    ensures
        ({
            let course = round_course(w, t, ok, from);
            let announcement = announcement_of(hex(t.serial_number as nat, 8), w.model, t.model);
            let known = w.discovered.contains(t.serial_number);
            let m = course.attempted.len() - 1;
            &&& m >= 0
            &&& course.attempted.last() == report_of(t)
            &&& course.end.model == w.model
            &&& known ==> m == 0 && course.end.discovered == w.discovered
            &&& !known ==> {
                &&& 1 <= m <= announcement.len()
                &&& course.attempted.drop_last() == announcement.take(m)
                &&& forall|i: nat| from <= i < from + m - 1 ==> #[trigger] ok(i)
                &&& m < announcement.len() ==> !ok((from + m - 1) as nat)
                &&& course.end.discovered == if m == announcement.len() && ok(
                    (from + m - 1) as nat,
                ) {
                    w.discovered.push(t.serial_number)
                } else {
                    w.discovered
                }
            }
        }),
{
    let known = w.discovered.contains(t.serial_number);
    let start = w.on_telemetry(t);
    let course = round_course(w, t, ok, from);
    let announcement = announcement_of(hex(t.serial_number as nat, 8), w.model, t.model);
    let m = course.attempted.len() - 1;
    law_every_round_reports(w.model, known, t);
    lemma_finish_round(start, ok, from);
    if !known {
        assert(start.outbox =~= announcement.push(report_of(t)));
        assert(course.attempted.drop_last() =~= announcement.take(m));
    }
}

/// A run of the worker publishes exactly one report for each telemetry, in the
/// order of the telemetries, whatever publications fail on the way. Each goes to
/// the topic of its inverter, at least once, and is not retained.
pub proof fn law_every_telemetry_is_reported_in_order(
    w: WorkerView,
    list: Seq<NepTelemetry>,
    ok: spec_fn(nat) -> bool,
    from: nat,
)
    ensures
        reports_among(run_course(w, list, ok, from).attempted) == reports_of(list),
        forall|i: int|
            0 <= i < list.len() ==> {
                let report = #[trigger] reports_of(list)[i];
                &&& report.topic == telemetry_topic(hex(list[i].serial_number as nat, 8))
                &&& report.qos == AT_LEAST_ONCE
                &&& !report.retain
                &&& report.content == ContentView::Telemetry(message_of(list[i]))
            },
    decreases list.len(),
{
    let pred = |p: PublicationView| p.content is Telemetry;
    reveal(Seq::filter);
    if list.len() == 0 {
        assert(reports_of(list) =~= Seq::empty());
    } else {
        let t = list[0];
        let first = round_course(w, t, ok, from);
        let rest = run_course(first.end, list.skip(1), ok, from + first.attempted.len());
        law_every_telemetry_is_reported_in_order(
            first.end,
            list.skip(1),
            ok,
            from + first.attempted.len(),
        );
        law_new_inverters_are_announced_first(w, t, ok, from);
        lemma_no_reports(first.attempted.drop_last());
        assert(first.attempted.filter(pred) =~= seq![report_of(t)]);
        Seq::filter_distributes_over_add(first.attempted, rest.attempted, pred);
        assert(reports_of(list) =~= seq![report_of(t)] + reports_of(list.skip(1)));
    }
}

/// Where no publication carries telemetry, none is left.
proof fn lemma_no_reports(list: Seq<PublicationView>)
    requires
        forall|i: int| 0 <= i < list.len() ==> (#[trigger] list[i]).content is Discovery,
    ensures
        reports_among(list) == Seq::<PublicationView>::empty(),
    decreases list.len(),
{
    reveal(Seq::filter);
    if list.len() > 0 {
        lemma_no_reports(list.drop_last());
    }
}

/// Every publication of a run is to be delivered at least once, and is retained
/// exactly where it announces a sensor.
pub proof fn law_publications_are_delivered_at_least_once(
    w: WorkerView,
    list: Seq<NepTelemetry>,
    ok: spec_fn(nat) -> bool,
    from: nat,
    i: int,
)
    requires
        0 <= i < run_course(w, list, ok, from).attempted.len(),
    ensures
        run_course(w, list, ok, from).attempted[i].qos == AT_LEAST_ONCE,
        run_course(w, list, ok, from).attempted[i].retain <==> run_course(
            w,
            list,
            ok,
            from,
        ).attempted[i].content is Discovery,
    decreases list.len(),
{
    let first = round_course(w, list[0], ok, from);
    let m = first.attempted.len() as int;
    law_new_inverters_are_announced_first(w, list[0], ok, from);
    if i >= m {
        law_publications_are_delivered_at_least_once(
            first.end,
            list.skip(1),
            ok,
            from + first.attempted.len(),
            i - m,
        );
    } else if i < m - 1 {
        assert(first.attempted[i] == first.attempted.drop_last()[i]);
    }
}

/// An inverter that is known stays known over a run, whatever fails, and is not
/// announced again: no announcement goes to a topic of one of its sensors.
pub proof fn law_known_inverters_are_not_announced_again(
    w: WorkerView,
    list: Seq<NepTelemetry>,
    ok: spec_fn(nat) -> bool,
    from: nat,
    serial: u32,
    id: Seq<char>,
    i: int,
)
    requires
        w.discovered.contains(serial),
    ensures
        run_course(w, list, ok, from).end.discovered.contains(serial),
        0 <= i < run_course(w, list, ok, from).attempted.len() && run_course(
            w,
            list,
            ok,
            from,
        ).attempted[i].content is Discovery ==> run_course(w, list, ok, from).attempted[i].topic
            != discovery_topic(hex(serial as nat, 8), id),
    decreases list.len(),
{
    if list.len() > 0 {
        let t = list[0];
        let first = round_course(w, t, ok, from);
        let m = first.attempted.len() as int;
        law_new_inverters_are_announced_first(w, t, ok, from);
        assert(first.end.discovered.contains(serial)) by {
            let at = w.discovered.index_of(serial);
            assert(first.end.discovered[at] == serial);
        }
        law_known_inverters_are_not_announced_again(
            first.end,
            list.skip(1),
            ok,
            from + first.attempted.len(),
            serial,
            id,
            i - m,
        );
        if 0 <= i < m - 1 {
            let p = first.attempted[i];
            assert(p == first.attempted.drop_last()[i]);
            let s = sensors_of(t.model)[i];
            assert(p.topic == discovery_topic(hex(t.serial_number as nat, 8), s.id));
            if p.topic == discovery_topic(hex(serial as nat, 8), id) {
                law_discovery_topics_are_distinct(t.serial_number, s.id, serial, id);
            }
        }
    }
}

/// Every sensor that is announced reads a key that each telemetry message
/// holds, from the topic that the message is published to.
pub proof fn law_announced_sensors_are_reported(
    t: NepTelemetry,
    model: Seq<char>,
    kind: InverterModel,
    i: int,
)
    requires
        0 <= i < sensors_of(kind).len(),
    ensures
        exists|j: int|
            0 <= j < message_of(t).len() && (#[trigger] message_of(t)[j]).0
                == sensors_of(kind)[i].json_key,
        discovery_of(hex(t.serial_number as nat, 8), model, sensors_of(kind)[i]).state_topic
            == report_of(t).topic,
{
    let m = message_of(t);
    let key = sensors_of(kind)[i].json_key;
    assert(m[0].0 == "ac_power_w"@ && m[1].0 == "ac_voltage_v"@ && m[2].0 == "ac_freq_hz"@);
    assert(m[3].0 == "dc_voltage_v"@ && m[4].0 == "dc_current_a"@);
    assert(m[5].0 == "dc_current_ch1_a"@ && m[6].0 == "dc_current_ch2_a"@);
    assert(m[7].0 == "dc_power_w"@ && m[8].0 == "efficiency_percent"@);
    assert(m[9].0 == "temperature_c"@ && m[10].0 == "daily_energy_wh"@);
    assert(m[11].0 == "reactive_power_var"@ && m[12].0 == "pv1_power_w"@);
    assert(m[13].0 == "pv2_power_w"@ && m[14].0 == "pv3_power_w"@);
    assert(m[16].0 == "error_state"@ && m[17].0 == "operating_mode"@);
}

} // verus!
