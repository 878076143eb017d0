use nep_gw::model::InverterModel;
use nep_gw::ratio::Ratio;
use nep_gw::telemetry::{NepTelemetry, PayloadFormat};

fn value(r: &Ratio) -> f64 {
    r.numerator() as f64 / r.denominator() as f64
}

fn blank() -> NepTelemetry {
    NepTelemetry {
        model: InverterModel::Bdm400,
        format: PayloadFormat::Iphp,
        serial_number: 0,
        status_code: 0,
        ac_power_raw: 0,
        ac_voltage_raw: 0,
        operating_flags: 0,
        dc_current_ch1_raw: 0,
        dc_current_ch2_raw: 0,
        ac_freq_raw: 0,
        temp_raw: 0,
        daily_energy_raw: 0,
        version_raw: 0,
        reactive_power_raw: 0,
        pv_input_power_raw: [0, 0, 0],
    }
}

#[test]
fn scales_are_exact_fractions() {
    let power = |m: InverterModel| value(&m.scale_power_w(10000));
    assert_eq!(power(InverterModel::Bdm400), 100.0);
    assert_eq!(power(InverterModel::Bdm800), 10000.0 / (25.0 * std::f64::consts::PI));
    assert_eq!(power(InverterModel::Bdm1200Lv), 390.625);
    let energy = |m: InverterModel| value(&m.scale_energy_wh(10000));
    assert_eq!(energy(InverterModel::Bdm400), 2000.0);
    assert_eq!(energy(InverterModel::Bdm800), 2308.0);
    assert_eq!(energy(InverterModel::Bdm1200Lv), 2000.0);
    let voltage = |m: InverterModel| value(&m.scale_voltage_v(6400));
    assert_eq!(voltage(InverterModel::Bdm400), 250.0);
    assert_eq!(voltage(InverterModel::Bdm800), 250.0);
    assert_eq!(voltage(InverterModel::Bdm1200Lv), 125.0);
}

#[test]
fn published_hundredths_agree_with_doubles_over_all_words() {
    let rounded = |x: f64| (x * 100.0).round() as i128;
    for raw in 0..=u16::MAX {
        let x = raw as f64;
        assert_eq!(InverterModel::Bdm400.scale_power_w(raw).hundredths(), rounded(x / 100.0));
        assert_eq!(
            InverterModel::Bdm800.scale_power_w(raw).hundredths(),
            rounded(x / (25.0 * std::f64::consts::PI))
        );
        assert_eq!(InverterModel::Bdm1200Lv.scale_power_w(raw).hundredths(), rounded(x / 25.6));
        assert_eq!(InverterModel::Bdm1200Lv.scale_voltage_v(raw).hundredths(), rounded(x / 51.2));
        assert_eq!(InverterModel::Bdm800.scale_energy_wh(raw).hundredths(), rounded(x * 0.2308));
        assert_eq!(InverterModel::Bdm400.scale_energy_wh(raw).hundredths(), rounded(x / 5.0));
        let t = NepTelemetry { ac_freq_raw: raw, ..blank() };
        assert_eq!(t.ac_freq_hz().hundredths(), rounded(x / 256.0));
    }
}

#[test]
fn bdm800_power_is_corrected_by_four_over_pi() {
    for raw in [1u16, 22205, 44728, 65535] {
        let plain = value(&InverterModel::Bdm400.scale_power_w(raw));
        let corrected = value(&InverterModel::Bdm800.scale_power_w(raw));
        assert!((corrected - plain * 4.0 / std::f64::consts::PI).abs() < 1e-9);
    }
}

#[test]
fn ties_round_away_from_zero() {
    assert_eq!(Ratio::new(5, 1000).hundredths(), 1);
    assert_eq!(Ratio::new(-5, 1000).hundredths(), -1);
    assert_eq!(Ratio::new(4999, 1000000).hundredths(), 0);
    assert_eq!(Ratio::new(-12908, 100).hundredths(), -12908);
    let r = Ratio::new(6723 * 5, 128).rounded();
    assert_eq!((r.numerator(), r.denominator()), (26262, 100));
    let again = r.rounded();
    assert_eq!((again.numerator(), again.denominator()), (26262, 100));
}

#[test]
fn rounding_keeps_the_order() {
    let mut last = Ratio::new(-100, 777).hundredths();
    for n in -99..100 {
        let next = Ratio::new(n, 777).hundredths();
        assert!(last <= next);
        last = next;
    }
}

#[test]
fn dc_side_is_reconstructed() {
    let t = NepTelemetry { ac_power_raw: 22389, dc_current_ch2_raw: 43, ..blank() };
    assert!((value(&t.dc_voltage_v()) - 223.89 / (0.96 * 4.3)).abs() < 1e-9);
    assert!((value(&t.dc_power_w()) - 223.89 / 0.96).abs() < 1e-9);
    assert_eq!(value(&t.efficiency_percent()), 96.0);
    assert_eq!(t.dc_voltage_v().hundredths(), 5424);
}

#[test]
fn dc_voltage_is_limited() {
    let t = NepTelemetry { ac_power_raw: 22389, dc_current_ch2_raw: 38, ..blank() };
    assert_eq!(value(&t.dc_voltage_v()), 60.0);
    assert_eq!(value(&t.dc_power_w()), 228.0);
    assert!((value(&t.efficiency_percent()) - 223.89 / 228.0 * 100.0).abs() < 1e-9);
    let t = NepTelemetry { ac_power_raw: 22389, dc_current_ch2_raw: 1, ..blank() };
    assert_eq!(value(&t.dc_power_w()), 6.0);
    assert_eq!(value(&t.efficiency_percent()), 100.0);
}

#[test]
fn no_current_or_no_power_leaves_the_dc_side_at_zero() {
    let t = NepTelemetry { ac_power_raw: 22389, ..blank() };
    assert_eq!(value(&t.dc_voltage_v()), 0.0);
    assert_eq!(value(&t.dc_power_w()), 0.0);
    assert_eq!(value(&t.efficiency_percent()), 0.0);
    let t = NepTelemetry { dc_current_ch1_raw: 255, dc_current_ch2_raw: 255, ..blank() };
    assert_eq!(value(&t.dc_current_a()), 51.0);
    assert_eq!(value(&t.dc_voltage_v()), 0.0);
    assert_eq!(value(&t.efficiency_percent()), 0.0);
}

#[test]
fn efficiency_stays_between_its_limits() {
    for raw in (0..=u16::MAX).step_by(97) {
        for current in [1u8, 2, 7, 50, 255] {
            for model in [InverterModel::Bdm400, InverterModel::Bdm800] {
                let t = NepTelemetry { model, ac_power_raw: raw, dc_current_ch1_raw: current, ..blank() };
                let e = value(&t.efficiency_percent());
                assert!(if raw == 0 { e == 0.0 } else { (96.0..=100.0).contains(&e) });
                assert!((0.0..=60.0).contains(&value(&t.dc_voltage_v())));
            }
        }
    }
}

#[test]
fn pv_inputs_sum_to_the_total() {
    let t = NepTelemetry {
        model: InverterModel::Bdm1200Lv,
        format: PayloadFormat::Tphp,
        ac_power_raw: 101 + 2002 + 3003,
        pv_input_power_raw: [101, 2002, 3003],
        ..blank()
    };
    let pv = t.pv_input_power_w();
    assert_eq!(pv[0].hundredths(), 395);
    assert_eq!(pv[1].hundredths(), 7820);
    assert_eq!(pv[2].hundredths(), 11730);
    let sum: i128 = pv.iter().map(|p| p.hundredths()).sum();
    assert!((sum - t.ac_power_w().hundredths()).abs() <= 2);
}

#[test]
fn error_states_have_names() {
    let name = |code: u16| NepTelemetry { status_code: code, ..blank() }.error_state_str();
    assert_eq!(name(0x0000), "OK");
    assert_eq!(name(0x0020), "Grid Loss / Islanding");
    assert_eq!(name(0x0004), "Anti-Islanding Reconnection Sync Timer");
    assert_eq!(name(0x0024), "Unknown Error");
}

#[test]
fn operating_modes_have_names() {
    let name = |model: InverterModel, word: u16| {
        NepTelemetry { model, version_raw: word, ..blank() }.operating_mode_str()
    };
    for model in [InverterModel::Bdm400, InverterModel::Bdm800, InverterModel::Bdm1200Lv] {
        assert_eq!(name(model, 0x8401), "Deep Sleep");
        assert_eq!(name(model, 0x8406), "Generating");
        assert_eq!(name(model, 0x8400), "Unknown State");
    }
    assert_eq!(name(InverterModel::Bdm400, 0x8404), "Active Standby");
    assert_eq!(name(InverterModel::Bdm800, 0x8c04), "Awake Standby");
    assert_eq!(name(InverterModel::Bdm1200Lv, 0xeb04), "Awake Standby");
    assert_eq!(name(InverterModel::Bdm400, 0x8405), "Active Standby");
    assert_eq!(name(InverterModel::Bdm1200Lv, 0xeb05), "Active Standby");
    assert_eq!(name(InverterModel::Bdm800, 0x8c05), "Generating");
}

#[test]
fn versions_are_the_high_byte_in_hundredths() {
    let text = |word: u16| NepTelemetry { version_raw: word, ..blank() }.version();
    assert_eq!(text(0x0000), "0.00");
    assert_eq!(text(0x0700), "0.07");
    assert_eq!(text(0x8406), "1.32");
    assert_eq!(text(0x8c05), "1.40");
    assert_eq!(text(0xff00), "2.55");
}

#[test]
fn versions_do_not_change_with_the_operating_state() {
    for low in 0..=0xff {
        assert_eq!(NepTelemetry { version_raw: 0x8400 + low, ..blank() }.version(), "1.32");
    }
}
