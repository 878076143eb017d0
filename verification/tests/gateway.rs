use chrono::{Datelike, Timelike};
use nep_gw::clock::time_sync_text;
use nep_gw::config::{AppConfig, EnvVars, Loaded};
use nep_gw::discovery::{discovery_config, sensors, Sensor};
use nep_gw::handlers::{
    handle_inverter_post, handle_tphp_post, inverter_reply, reply_at, Relay,
};
use nep_gw::model::InverterModel;
use nep_gw::mqtt::{publish_ha_discovery, telemetry_message, Content, Field, MqttWorker};
use nep_gw::payload::{parse_payload, parse_tphp_payload};
use nep_gw::telemetry::NepTelemetry;
use nep_gw::upstream::{
    forward_outcome, DeliveryAction, RelayOutcome, Stage, UpstreamConfig, UpstreamForwarder,
};

const TPHP_SAMPLE: &str = "793e004014ffffffffffffffff3400c3c3c3c3e03a51860000431a3f00700800010e3c600e120005eb3f00000000007f00000000002018431a120000000000000061d5256b";
const BDM400_SAMPLE: &str = "7926004014ffffffffffffffff1c00c3c3c3c3785634120000755752172010002bfe31cf145c1a0684bb2e395f";

fn bdm400() -> NepTelemetry {
    parse_payload(&hex::decode(BDM400_SAMPLE).unwrap(), InverterModel::Bdm400).unwrap()
}

fn bdm1200() -> NepTelemetry {
    parse_tphp_payload(&hex::decode(TPHP_SAMPLE).unwrap(), InverterModel::Bdm1200Lv).unwrap()
}

fn env() -> EnvVars {
    EnvVars {
        port: None,
        mqtt_host: None,
        mqtt_port: None,
        mqtt_username: None,
        mqtt_password: None,
        forward_upstream: None,
        upstream_url: None,
        inverter_model: None,
    }
}

fn load(env: EnvVars, args: &[&str]) -> Loaded {
    AppConfig::load(env, args.iter().map(|a| a.to_string()).collect())
}

fn some(text: &str) -> Option<String> {
    Some(text.to_string())
}

#[test]
fn defaults_apply_without_an_environment() {
    let loaded = load(env(), &[]);
    assert!(!loaded.password_ignored);
    let config = loaded.config.unwrap();
    assert_eq!(config.port, 80);
    assert_eq!(config.model, InverterModel::Bdm400);
    assert_eq!(config.mqtt.host, "::1");
    assert_eq!(config.mqtt.port, 1883);
    assert_eq!(config.mqtt.credentials, None);
    assert_eq!(config.mqtt.model, "BDM-400");
    assert!(config.upstream.is_none());
}

#[test]
fn the_environment_is_read() {
    let vars = EnvVars {
        port: some("8080"),
        mqtt_host: some("broker"),
        mqtt_port: some("+1884"),
        mqtt_username: some("user"),
        mqtt_password: some("pass"),
        forward_upstream: some("Yes"),
        upstream_url: some("http://1.2.3.4/i.php"),
        inverter_model: some("bdm 800"),
    };
    let loaded = load(vars, &[]);
    assert!(!loaded.password_ignored);
    let config = loaded.config.unwrap();
    assert_eq!(config.port, 8080);
    assert_eq!(config.model, InverterModel::Bdm800);
    assert_eq!(config.mqtt.host, "broker");
    assert_eq!(config.mqtt.port, 1884);
    assert_eq!(
        config.mqtt.credentials,
        Some(("user".to_string(), "pass".to_string()))
    );
    assert_eq!(config.mqtt.model, "bdm 800");
    assert_eq!(config.upstream.unwrap().url, "http://1.2.3.4/i.php");
}

#[test]
fn ports_that_are_no_number_fall_back() {
    for text in ["", "+", "-1", "65536", "99999999999999999999", "80 ", "0x50", "8\u{661}"] {
        let vars = EnvVars { port: some(text), mqtt_port: some(text), ..env() };
        let config = load(vars, &[]).config.unwrap();
        assert_eq!((config.port, config.mqtt.port), (80, 1883));
        assert!(text.parse::<u16>().is_err());
    }
    for text in ["0", "65535", "+7", "000000080"] {
        let config = load(EnvVars { port: some(text), ..env() }, &[]).config.unwrap();
        assert_eq!(config.port, text.parse::<u16>().unwrap());
    }
}

#[test]
fn a_password_needs_a_user_name() {
    let loaded = load(EnvVars { mqtt_password: some("pass"), ..env() }, &["--nonsense"]);
    assert!(loaded.password_ignored);
    assert!(loaded.config.is_err());
    let loaded = load(EnvVars { mqtt_username: some("user"), ..env() }, &[]);
    assert!(!loaded.password_ignored);
    assert_eq!(
        loaded.config.unwrap().mqtt.credentials,
        Some(("user".to_string(), String::new()))
    );
}

#[test]
fn words_switch_relaying_on() {
    for (text, on) in [
        ("1", true),
        ("true", true),
        ("TRUE", true),
        ("yEs", true),
        ("On", true),
        ("0", false),
        ("", false),
        ("off", false),
        ("true ", false),
        ("\u{212a}", false),
    ] {
        let config = load(EnvVars { forward_upstream: some(text), ..env() }, &[]).config.unwrap();
        assert_eq!(config.upstream.is_some(), on, "{text}");
    }
}

#[test]
fn flags_win_over_the_environment() {
    let vars = EnvVars {
        forward_upstream: some("off"),
        upstream_url: some("http://a/"),
        inverter_model: some("BDM-400"),
        ..env()
    };
    let args = ["--model", "x", "--upstream-url", "http://b/", "--forward-upstream", "--model", "BDM-1200-LV"];
    let config = load(vars, &args).config.unwrap();
    assert_eq!(config.upstream.unwrap().url, "http://b/");
    assert_eq!(config.mqtt.model, "BDM-1200-LV");
    assert_eq!(config.model, InverterModel::Bdm1200Lv);
}

#[test]
fn relaying_stays_on_under_other_flags() {
    let vars = EnvVars { forward_upstream: some("on"), ..env() };
    let config = load(vars, &["--model", "--forward-upstream"]).config.unwrap();
    assert_eq!(config.upstream.unwrap().url, "http://www.nepviewer.net/i.php");
    assert_eq!(config.mqtt.model, "--forward-upstream");
}

#[test]
fn unrecognized_models_scale_as_the_bdm400() {
    let config = load(env(), &["--model", "BDM-600"]).config.unwrap();
    assert_eq!(config.mqtt.model, "BDM-600");
    assert_eq!(config.model, InverterModel::Bdm400);
    assert_eq!(InverterModel::default(), InverterModel::Bdm400);
}

#[test]
fn wrong_command_lines_are_explained() {
    assert_eq!(
        load(env(), &["--upstream-url"]).config.unwrap_err(),
        "--upstream-url requires a value"
    );
    assert_eq!(
        load(env(), &["--forward-upstream", "--model"]).config.unwrap_err(),
        "--model requires a value (e.g. BDM-400, BDM-800)"
    );
    let text = load(env(), &["-x", "--model"]).config.unwrap_err();
    assert_eq!(
        text,
        "Unknown argument: -x\n\nUsage: nep-gw [--forward-upstream] [--upstream-url <url>] [--model <name>]\n\
         \n  --forward-upstream   Also relay inverter POSTs to the real NEP cloud\n\
         \n  --upstream-url <url> Upstream endpoint (default: http://www.nepviewer.net/i.php)\n\
         \n  --model <name>       Inverter model: selects payload field scales and the\n\
         \n                       Home Assistant device metadata (BDM-400 or BDM-800,\n\
         \n                       default: BDM-400)"
    );
}

#[test]
fn posts_are_relayed_unless_they_are_relays() {
    let body = hex::decode(BDM400_SAMPLE).unwrap();
    let relay = |forwarding, marked, body: &[u8]| {
        let i = handle_inverter_post(forwarding, marked, body, InverterModel::Bdm400).relay;
        let (t, status) = handle_tphp_post(forwarding, marked, body);
        assert_eq!(status, 200);
        assert_eq!(i, t.relay);
        i
    };
    assert_eq!(relay(false, false, &body), Relay::Off);
    assert_eq!(relay(false, true, &body), Relay::Off);
    assert_eq!(relay(true, true, &body), Relay::Loop);
    assert_eq!(relay(true, false, &body), Relay::Forward);
    assert_eq!(relay(true, false, b"what is this"), Relay::Forward);
}

#[test]
fn posts_are_parsed_by_their_endpoint() {
    let body = hex::decode(BDM400_SAMPLE).unwrap();
    let post = handle_inverter_post(false, false, &body, InverterModel::Bdm800);
    assert_eq!(post.parsed, parse_payload(&body, InverterModel::Bdm800));
    assert!(handle_tphp_post(false, false, &body).0.parsed.is_err());
    let body = hex::decode(TPHP_SAMPLE).unwrap();
    assert_eq!(handle_tphp_post(false, false, &body).0.parsed, Ok(bdm1200()));
    assert!(handle_inverter_post(false, false, &body, InverterModel::Bdm800).parsed.is_err());
}

#[test]
fn accepted_posts_are_answered_with_the_time() {
    let accepted = Ok(bdm400());
    let refused = Err("Checksum validation failed".to_string());
    assert_eq!(reply_at(&accepted, "20260922120000".to_string()), Ok("20260922120000".to_string()));
    assert_eq!(reply_at(&refused, "20260922120000".to_string()), Err(400));
    assert_eq!(inverter_reply(&refused), Err(400));
    let reply = inverter_reply(&accepted).unwrap();
    assert!(reply.len() == 14 && reply.bytes().all(|b| b.is_ascii_digit()));
}

#[test]
fn the_time_is_the_local_time() {
    let write = |t: chrono::DateTime<chrono::Local>| {
        format!(
            "{:04}{:02}{:02}{:02}{:02}{:02}",
            t.year(),
            t.month(),
            t.day(),
            t.hour(),
            t.minute(),
            t.second()
        )
    };
    let before = write(chrono::Local::now());
    let text = time_sync_text();
    let after = write(chrono::Local::now());
    assert!(before <= text && text <= after, "{before} {text} {after}");
}

fn ids(list: &[Sensor]) -> Vec<&'static str> {
    list.iter().map(|s| s.id).collect()
}

#[test]
fn sensors_depend_on_the_model() {
    let common = [
        "ac_power",
        "ac_voltage",
        "ac_freq",
        "dc_voltage",
        "dc_current",
        "dc_current_ch1",
        "dc_current_ch2",
        "dc_power",
        "efficiency",
        "temperature",
        "daily_energy",
        "reactive_power",
        "error_state",
        "operating_mode",
    ];
    assert_eq!(ids(&sensors(InverterModel::Bdm400)), common);
    assert_eq!(ids(&sensors(InverterModel::Bdm800)), common);
    assert_eq!(
        ids(&sensors(InverterModel::Bdm1200Lv)),
        [
            "ac_power",
            "ac_voltage",
            "ac_freq",
            "temperature",
            "error_state",
            "pv1_power",
            "pv2_power",
            "pv3_power",
        ]
    );
    assert_eq!(sensors(InverterModel::Bdm400)[1].name, "AC Grid Voltage");
    assert_eq!(sensors(InverterModel::Bdm800)[1].name, "Internal Bus Voltage");
    assert_eq!(sensors(InverterModel::Bdm1200Lv)[1].name, "Internal Voltage");
    assert_eq!(sensors(InverterModel::Bdm1200Lv)[3].unit, "\u{b0}C");
}

#[test]
fn sensors_are_configured() {
    let list = sensors(InverterModel::Bdm800);
    let config = |id: &str| {
        let s = list.iter().find(|s| s.id == id).unwrap();
        discovery_config("deadbeef", "BDM-800", s)
    };
    let c = config("daily_energy");
    assert_eq!(c.name, "NEP deadbeef Daily Energy");
    assert_eq!(c.state_topic, "nep/telemetry/deadbeef");
    assert_eq!(c.value_template, "{{ value_json.daily_energy_wh }}");
    assert_eq!(c.unique_id, "nep_deadbeef_daily_energy");
    assert_eq!(c.device.identifier, "nep_bdm_deadbeef");
    assert_eq!(c.device.name, "NEP BDM-800 (deadbeef)");
    assert_eq!(c.device.model, "BDM-800");
    assert_eq!(c.device.manufacturer, "Northern Electric Power (NEP)");
    assert_eq!(c.device_class, Some("energy"));
    assert_eq!(c.unit_of_measurement, Some("Wh"));
    assert_eq!(c.state_class, Some("total_increasing"));
    assert!(c.options.is_empty());

    let c = config("efficiency");
    assert_eq!(c.device_class, None);
    assert_eq!(c.unit_of_measurement, Some("%"));
    assert_eq!(c.state_class, None);

    let c = config("ac_power");
    assert_eq!(c.state_class, Some("measurement"));

    let c = config("error_state");
    assert_eq!(c.device_class, Some("enum"));
    assert_eq!(c.unit_of_measurement, None);
    assert_eq!(c.state_class, None);
    assert_eq!(
        c.options,
        ["OK", "Grid Loss / Islanding", "Anti-Islanding Reconnection Sync Timer", "Unknown Error"]
    );
    let c = config("operating_mode");
    assert_eq!(
        c.options,
        ["Deep Sleep", "Awake Standby", "Active Standby", "Generating", "Unknown State"]
    );
}

#[test]
fn announcements_have_topics_of_their_own() {
    let a = publish_ha_discovery("deadbeef", "BDM-800", InverterModel::Bdm800);
    let b = publish_ha_discovery("deadbee0", "BDM-800", InverterModel::Bdm800);
    assert_eq!(a.len(), 14);
    assert_eq!(a[0].topic, "homeassistant/sensor/nep_deadbeef/ac_power/config");
    assert!(a.iter().all(|p| p.retain));
    let mut topics: Vec<&String> = a.iter().chain(b.iter()).map(|p| &p.topic).collect();
    topics.sort();
    topics.dedup();
    assert_eq!(topics.len(), 28);
}

fn number(fields: &[(&'static str, Field)], key: &str) -> i128 {
    match fields.iter().find(|f| f.0 == key) {
        Some((_, Field::Hundredths(n))) => *n,
        other => panic!("{key}: {other:?}"),
    }
}

fn text<'a>(fields: &'a [(&'static str, Field)], key: &str) -> &'a str {
    match fields.iter().find(|f| f.0 == key) {
        Some((_, Field::Text(t))) => t,
        other => panic!("{key}: {other:?}"),
    }
}

#[test]
fn messages_hold_hundredths() {
    let m = telemetry_message(&bdm400());
    assert_eq!(m.len(), 19);
    assert_eq!(number(&m, "ac_power_w"), 22389);
    assert_eq!(number(&m, "ac_voltage_v"), 23320);
    assert_eq!(number(&m, "ac_freq_hz"), 4999);
    assert_eq!(number(&m, "dc_voltage_v"), 5424);
    assert_eq!(number(&m, "dc_current_a"), 430);
    assert_eq!(number(&m, "dc_current_ch1_a"), 0);
    assert_eq!(number(&m, "dc_current_ch2_a"), 430);
    assert_eq!(number(&m, "dc_power_w"), 23322);
    assert_eq!(number(&m, "efficiency_percent"), 9600);
    assert_eq!(number(&m, "temperature_c"), 5327);
    assert_eq!(number(&m, "daily_energy_wh"), 134960);
    assert_eq!(number(&m, "reactive_power_var"), 11963);
    assert_eq!(number(&m, "pv1_power_w"), 0);
    assert_eq!(text(&m, "status"), "OK");
    assert_eq!(text(&m, "error_state"), "OK");
    assert_eq!(text(&m, "operating_mode"), "Generating");
    assert_eq!(text(&m, "version"), "1.32");

    let faulty = NepTelemetry { status_code: 0x20, ..bdm1200() };
    let m = telemetry_message(&faulty);
    assert_eq!(number(&m, "pv3_power_w"), 26262);
    assert_eq!(number(&m, "dc_power_w"), 0);
    assert_eq!(text(&m, "status"), "Error");
    assert_eq!(text(&m, "error_state"), "Grid Loss / Islanding");
    assert_eq!(text(&m, "version"), "");
}

#[test]
fn announced_sensors_read_keys_of_the_message() {
    for t in [bdm400(), bdm1200()] {
        let m = telemetry_message(&t);
        for s in sensors(t.model) {
            assert!(m.iter().any(|f| f.0 == s.json_key), "{}", s.json_key);
        }
    }
}

/// Publishes a whole round; every publication but those listed succeeds.
fn run(worker: &mut MqttWorker, t: &NepTelemetry, failing: &[usize]) -> Vec<String> {
    let mut topics = Vec::new();
    worker.on_telemetry(t);
    while let Some(p) = worker.next_publication() {
        let report = matches!(p.content, Content::Telemetry(_));
        assert_eq!(p.retain, !report);
        assert_eq!(p.qos, 1);
        topics.push(p.topic.clone());
        let ok = !failing.contains(&(topics.len() - 1));
        worker.published(ok);
    }
    topics
}

#[test]
fn each_new_inverter_is_announced_once() {
    let mut worker = MqttWorker::new("BDM-400".to_string());
    assert!(worker.next_publication().is_none());
    let topics = run(&mut worker, &bdm400(), &[]);
    assert_eq!(topics.len(), 15);
    assert_eq!(topics[14], "nep/telemetry/12345678");
    assert!(worker.is_discovered(0x12345678));
    assert_eq!(run(&mut worker, &bdm400(), &[]), ["nep/telemetry/12345678"]);

    let topics = run(&mut worker, &bdm1200(), &[]);
    assert_eq!(topics.len(), 9);
    assert_eq!(topics[0], "homeassistant/sensor/nep_86513ae0/ac_power/config");
    assert_eq!(topics[8], "nep/telemetry/86513ae0");
    assert_eq!(run(&mut worker, &bdm1200(), &[]), ["nep/telemetry/86513ae0"]);
    assert_eq!(run(&mut worker, &bdm400(), &[]), ["nep/telemetry/12345678"]);
}

#[test]
fn a_failed_announcement_is_tried_again() {
    let mut worker = MqttWorker::new("BDM-400".to_string());
    let topics = run(&mut worker, &bdm400(), &[2]);
    assert_eq!(topics.len(), 4);
    assert_eq!(topics[3], "nep/telemetry/12345678");
    assert!(!worker.is_discovered(0x12345678));
    assert_eq!(run(&mut worker, &bdm400(), &[13]).len(), 15);
    assert!(!worker.is_discovered(0x12345678));
    // A failed report does not undo the announcement.
    assert_eq!(run(&mut worker, &bdm400(), &[14]).len(), 15);
    assert!(worker.is_discovered(0x12345678));
    assert_eq!(run(&mut worker, &bdm400(), &[0]).len(), 1);
    worker.published(true);
    assert_eq!(run(&mut worker, &bdm400(), &[]).len(), 1);
}

#[test]
fn every_telemetry_is_reported_in_order_whatever_fails() {
    let list = [bdm400(), bdm1200(), bdm400(), bdm400(), bdm1200()];
    for seed in 0..200usize {
        let mut worker = MqttWorker::new("BDM-400".to_string());
        let mut reports = Vec::new();
        let mut expected = Vec::new();
        for (k, t) in list.iter().enumerate() {
            let failing: Vec<usize> = (0..15).filter(|i| (seed * 7 + k * 3 + i * 5) % 11 < 3).collect();
            let known = worker.is_discovered(t.serial_number);
            let topics = run(&mut worker, t, &failing);
            assert_eq!(topics.len() == 1, known);
            assert!(!known || worker.is_discovered(t.serial_number));
            reports.extend(topics.into_iter().filter(|topic| topic.starts_with("nep/telemetry/")));
            expected.push(format!("nep/telemetry/{:08x}", t.serial_number));
        }
        assert_eq!(reports, expected);
    }
}

fn forwarder() -> UpstreamForwarder {
    UpstreamForwarder::new(UpstreamConfig { url: "http://1.2.3.4/i.php".to_string() })
}

#[test]
fn relays_carry_host_and_marker() {
    let request = forwarder().forward(vec![1, 2, 3]);
    assert_eq!(request.method, "POST");
    assert_eq!(request.url, "http://1.2.3.4/i.php");
    assert_eq!(request.host, "www.nepviewer.net");
    assert_eq!((request.marker, request.marker_value), ("x-nep-gw-relay", "1"));
    assert_eq!(request.body, [1, 2, 3]);
    assert_eq!(request.timeout_secs, 10);
}

#[test]
fn only_success_counts_as_forwarded() {
    for (status, outcome) in [
        (Some(200), RelayOutcome::Forwarded),
        (Some(204), RelayOutcome::Forwarded),
        (Some(299), RelayOutcome::Forwarded),
        (Some(199), RelayOutcome::Failed),
        (Some(300), RelayOutcome::Failed),
        (Some(404), RelayOutcome::Failed),
        (None, RelayOutcome::Failed),
    ] {
        assert_eq!(forward_outcome(status), outcome);
    }
}

/// Runs a delivery; the results beyond those listed are successes.
fn deliver(results: &[bool]) -> (Vec<u8>, Vec<RelayOutcome>, Stage) {
    let mut delivery = forwarder().proxy("/t.php", b"body".to_vec());
    let mut written = Vec::new();
    let mut counts = Vec::new();
    let mut step = 0;
    loop {
        let ok = results.get(step).copied().unwrap_or(true);
        match delivery.next_action() {
            DeliveryAction::Connect { host, port, timeout_secs } => {
                assert_eq!((host, port, timeout_secs), ("www.nepviewer.net", 80, 5));
            }
            DeliveryAction::Write(bytes) => {
                if ok {
                    written.extend_from_slice(bytes);
                }
            }
            DeliveryAction::Flush => {}
            DeliveryAction::ReadToEnd { timeout_secs } => assert_eq!(timeout_secs, 3),
            DeliveryAction::Stop => return (written, counts, delivery.stage),
        }
        counts.extend(delivery.proceed(ok));
        step += 1;
    }
}

#[test]
fn deliveries_write_the_bare_request() {
    let request: &[u8] = b"POST /t.php HTTP/1.1\r\nHost: www.nepviewer.net\r\nConnection: close\r\nContent-Length: 4\r\n\r\nbody";
    assert_eq!(
        deliver(&[]),
        (request.to_vec(), vec![RelayOutcome::Forwarded], Stage::Delivered)
    );
    // Neither a failed flush nor a missing reply fails the delivery.
    assert_eq!(
        deliver(&[true, true, true, false, false]),
        (request.to_vec(), vec![RelayOutcome::Forwarded], Stage::Delivered)
    );
}

#[test]
fn deliveries_fail_before_the_request_is_out() {
    for steps in 0..3 {
        let mut results = vec![true; steps];
        results.push(false);
        let (_, counts, stage) = deliver(&results);
        assert_eq!(counts, [RelayOutcome::Failed]);
        assert_eq!(stage, Stage::Failed);
    }
}
