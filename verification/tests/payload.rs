use nep_gw::checksum::validate_checksums;
use nep_gw::model::InverterModel;
use nep_gw::payload::{
    parse_data_section, parse_header, parse_payload, parse_tphp_payload, ParseError, Reason,
};
use nep_gw::ratio::Ratio;
use nep_gw::telemetry::PayloadFormat;
use nom::bytes::complete::{tag, take};
use nom::number::complete::{le_i16, le_u16, le_u32};

const TPHP_SAMPLE: &str = "793e004014ffffffffffffffff3400c3c3c3c3e03a51860000431a3f00700800010e3c600e120005eb3f00000000007f00000000002018431a120000000000000061d5256b";
const BDM800_RESET: &str = "792600401400000f0f0f0f00001c00ffffffffefbeadde0000b8ae581650104a55a631cf149104058c94cd1a42";
const BDM400_SAMPLE: &str = "7926004014ffffffffffffffff1c00c3c3c3c3785634120000755752172010002bfe31cf145c1a0684bb2e395f";

fn value(r: &Ratio) -> f64 {
    r.numerator() as f64 / r.denominator() as f64
}

/// Seals a frame anew after its contents were changed.
fn seal(frame: &mut [u8], end: usize) {
    let mut sum: u8 = 0;
    let mut xor: u8 = 0;
    for &b in &frame[1..end] {
        sum = sum.wrapping_add(b);
        xor ^= b;
    }
    frame[end] = sum;
    frame[end + 1] = xor;
}

#[test]
fn test_parse_tphp_bdm1200lv() {
    // Live BDM-1200-LV /t.php packet, serial 0x86513AE0.
    let bytes = hex::decode(TPHP_SAMPLE).unwrap();
    let t = parse_tphp_payload(&bytes, InverterModel::Bdm1200Lv).unwrap();
    assert_eq!(t.serial_number, 0x86513ae0);
    assert_eq!(value(&t.ac_power_w()), 262.62); // 6723 / 25.6
    assert_eq!(value(&t.ac_voltage_v()), 120.63); // 6176 / 51.2 (round half away from zero)
    assert_eq!(value(&t.ac_freq_hz()), 60.05); // 15374 / 256
    assert_eq!(value(&t.temp_c()), 36.8); // 3680 / 100
    // Single input active (PV3/addr3 @55); inputs 1 and 2 idle. The three
    // per-input powers sum to the total AC power.
    let pv: Vec<f64> = t.pv_input_power_w().iter().map(value).collect();
    assert_eq!(pv, [0.0, 0.0, 262.62]);
    let sum: f64 = pv.iter().sum();
    let total = value(&t.ac_power_w());
    assert!((sum - total).abs() < 0.05, "per-input sum {sum} vs total {total}");
}

#[test]
fn test_parse_tphp_second_sample() {
    let hex = "793e004014ffffffffffffffff3400c3c3c3c3e03a51860000f41c4f0060080001fc3b510f370005eb4f0000000000800000000000dc17f41c3700000000000000b9dbde64";
    let bytes = hex::decode(hex).unwrap();
    let t = parse_tphp_payload(&bytes, InverterModel::Bdm1200Lv).unwrap();
    assert_eq!(t.serial_number, 0x86513ae0);
    assert_eq!(value(&t.ac_power_w()), 289.53); // 7412 / 25.6
    assert_eq!(value(&t.ac_voltage_v()), 119.3); // 6108 / 51.2
    assert_eq!(value(&t.ac_freq_hz()), 59.98); // 15356 / 256
    assert_eq!(value(&t.temp_c()), 39.21); // 3921 / 100
}

#[test]
fn test_parse_tphp_rejects_bad_checksum() {
    let mut bytes = hex::decode(TPHP_SAMPLE).unwrap();
    let n = bytes.len();
    bytes[n - 1] ^= 0xff; // corrupt XOR checksum
    assert!(parse_tphp_payload(&bytes, InverterModel::Bdm1200Lv).is_err());
}

#[test]
fn test_parse_tphp_rejects_short() {
    assert!(parse_tphp_payload(&[0x79; 45], InverterModel::Bdm1200Lv).is_err());
}

#[test]
fn test_parse_payload1() {
    let bytes = hex::decode(BDM400_SAMPLE).unwrap();
    assert!(validate_checksums(&bytes));
    let telemetry = parse_payload(&bytes, InverterModel::Bdm400).unwrap();
    assert_eq!(telemetry.serial_number, 0x12345678);
    assert_eq!(value(&telemetry.ac_power_w()), 223.89);
    assert_eq!(value(&telemetry.ac_voltage_v()), 233.203125); // 5970 / 25.6
    assert_eq!(value(&telemetry.ac_freq_hz()), 49.9921875); // 12798 / 256
    assert_eq!(value(&telemetry.temp_c()), 53.27);
    assert_eq!(value(&telemetry.daily_energy_wh()), 1349.6);
}

#[test]
fn test_parse_payload6() {
    let hex = "7926004014ffffffffffffffff1c00c3c3c3c3785634120000443552183010001af8312f136a21068402026f5b";
    let bytes = hex::decode(hex).unwrap();
    assert!(validate_checksums(&bytes));
    let telemetry = parse_payload(&bytes, InverterModel::Bdm400).unwrap();
    assert_eq!(telemetry.serial_number, 0x12345678);
    assert_eq!(value(&telemetry.ac_power_w()), 136.36);
    assert_eq!(value(&telemetry.dc_current_a()), 2.6);
    assert_eq!(value(&telemetry.reactive_power_var()), 5.14);
    assert_eq!(value(&telemetry.temp_c()), 49.11);
    assert_eq!(value(&telemetry.daily_energy_wh()), 1710.8);
}

#[test]
fn test_parse_payload_bdm800() {
    // A packet of a live BDM-800: the gateway identifier is no 0xFF padding, and
    // both bytes of the DC current are populated.
    let hex = "792600401400000f0f0f0f00001c00c3c3c3c3efbeadde0000bd56cb172010262ab0317013ab12058c05e02270";
    let bytes = hex::decode(hex).unwrap();
    assert!(validate_checksums(&bytes));
    let t = parse_payload(&bytes, InverterModel::Bdm800).unwrap();

    assert_eq!(t.serial_number, 0xdeadbeef);
    assert!((value(&t.ac_power_w()) - 282.72).abs() < 0.01); // 22205 * 4/(100*pi)
    assert_eq!(value(&t.ac_freq_hz()), 49.6875); // 12720 / 256
    assert!((value(&t.ac_voltage_v()) - 237.93).abs() < 0.01); // 6091 / 25.6
    assert!((value(&t.daily_energy_wh()) - 1102.99).abs() < 0.01); // 4779 * 0.2308
    // Mode byte 0x05 means "generating" on the BDM-800, not the BDM-400's
    // "Active Standby".
    assert_eq!(t.operating_mode_str(), "Generating");

    assert_eq!(value(&t.dc_current_ch1_a()), 3.8); // byte 31 = 0x26 = 38 -> /10
    assert_eq!(value(&t.dc_current_ch2_a()), 4.2); // byte 32 = 0x2a = 42 -> /10
    assert_eq!(value(&t.dc_current_a()), 8.0);
}

#[test]
fn test_parse_payload_bdm800_post_reset_sync_marker() {
    // The first report of a BDM-800 after a reset: the sync marker reads 0xFFFFFFFF.
    let bytes = hex::decode(BDM800_RESET).unwrap();
    assert!(validate_checksums(&bytes));
    let t = parse_payload(&bytes, InverterModel::Bdm800).unwrap();

    assert_eq!(t.serial_number, 0xdeadbeef);
    assert!((value(&t.ac_power_w()) - 569.49).abs() < 0.01); // 44728 * 4/(100*pi)
    assert!((value(&t.ac_voltage_v()) - 223.44).abs() < 0.01); // 5720 / 25.6
    assert_eq!(value(&t.ac_freq_hz()), 49.6484375); // 12710 / 256
    assert_eq!(value(&t.temp_c()), 53.27);
    assert!((value(&t.daily_energy_wh()) - 269.81).abs() < 0.01); // 1169 * 0.2308; low: reset cleared the accumulator
    assert_eq!(value(&t.dc_current_ch1_a()), 7.4); // byte 31 = 0x4a = 74 -> /10
    assert_eq!(value(&t.dc_current_ch2_a()), 8.5); // byte 32 = 0x55 = 85 -> /10
    assert_eq!(value(&t.reactive_power_var()), -129.08);
}

#[test]
fn test_parse_payload_rejects_bad_checksums() {
    // Corrupting any body byte must fail checksum validation, the only
    // integrity guard for the gateway identifier and the sync marker.
    let mut bytes = hex::decode(BDM800_RESET).unwrap();
    bytes[25] ^= 0x01;
    assert!(!validate_checksums(&bytes));
    assert_eq!(
        parse_payload(&bytes, InverterModel::Bdm800).unwrap_err(),
        "Checksum validation failed"
    );
}

#[test]
fn every_word_of_a_payload_is_decoded() {
    let bytes = hex::decode(BDM800_RESET).unwrap();
    let t = parse_payload(&bytes, InverterModel::Bdm800).unwrap();
    assert_eq!(t.model, InverterModel::Bdm800);
    assert_eq!(t.format, PayloadFormat::Iphp);
    assert_eq!(t.status_code, 0);
    assert_eq!(t.ac_power_raw, 44728);
    assert_eq!(t.ac_voltage_raw, 5720);
    assert_eq!(t.operating_flags, 0x1050);
    assert_eq!((t.dc_current_ch1_raw, t.dc_current_ch2_raw), (74, 85));
    assert_eq!(t.ac_freq_raw, 12710);
    assert_eq!(t.temp_raw, 5327);
    assert_eq!(t.daily_energy_raw, 1169);
    assert_eq!(t.version_raw, 0x8c05);
    assert_eq!(t.reactive_power_raw, -12908);
    assert_eq!(t.pv_input_power_raw, [0, 0, 0]);
    assert_eq!(t.version(), "1.40");
}

#[test]
fn every_word_of_a_tphp_payload_is_decoded() {
    let mut bytes = hex::decode(TPHP_SAMPLE).unwrap();
    bytes[23] = 0x20;
    bytes[43] = 0x01;
    bytes[44] = 0x02;
    bytes[49] = 0x03;
    bytes[50] = 0x04;
    seal(&mut bytes, 67);
    let t = parse_tphp_payload(&bytes, InverterModel::Bdm1200Lv).unwrap();
    assert_eq!(t.format, PayloadFormat::Tphp);
    assert_eq!(t.status_code, 0x0020);
    assert_eq!(t.ac_power_raw, 6723);
    assert_eq!(t.ac_voltage_raw, 6176);
    assert_eq!(t.operating_flags, 0x0870);
    assert_eq!(t.ac_freq_raw, 15374);
    assert_eq!(t.temp_raw, 3680);
    assert_eq!(t.version_raw, 0xeb05);
    assert_eq!(t.pv_input_power_raw, [0x0201, 0x0403, 6723]);
    assert_eq!((t.dc_current_ch1_raw, t.dc_current_ch2_raw), (0, 0));
    assert_eq!((t.daily_energy_raw, t.reactive_power_raw), (0, 0));
    assert_eq!(t.version(), "");
    assert_eq!(value(&t.dc_voltage_v()), 0.0);
}

#[test]
fn tphp_scales_follow_the_given_model() {
    let bytes = hex::decode(TPHP_SAMPLE).unwrap();
    let t = parse_tphp_payload(&bytes, InverterModel::Bdm400).unwrap();
    assert_eq!(value(&t.ac_power_w()), 67.23);
    assert_eq!(value(&t.ac_voltage_v()), 241.25);
    let t = parse_tphp_payload(&bytes, InverterModel::Bdm800).unwrap();
    assert_eq!(value(&t.ac_power_w()), 85.6);
}

#[test]
fn short_payloads_are_refused_with_their_length() {
    assert_eq!(
        parse_payload(&[], InverterModel::Bdm400).unwrap_err(),
        "Payload too short: expected 45 bytes, got 0"
    );
    assert_eq!(
        parse_payload(&[0x79; 44], InverterModel::Bdm400).unwrap_err(),
        "Payload too short: expected 45 bytes, got 44"
    );
    assert_eq!(
        parse_tphp_payload(&[0x79; 68], InverterModel::Bdm1200Lv).unwrap_err(),
        "Payload too short: expected 69 bytes, got 68"
    );
    assert!(!validate_checksums(&[0; 44]));
    assert!(validate_checksums(&[0; 45]));
}

#[test]
fn a_wrong_start_byte_is_named() {
    let mut bytes = hex::decode(TPHP_SAMPLE).unwrap();
    bytes[0] = 0x0a;
    assert_eq!(
        parse_tphp_payload(&bytes, InverterModel::Bdm1200Lv).unwrap_err(),
        "Bad start byte: 0x0a"
    );
    bytes[0] = 0x79;
    bytes[30] ^= 0x10;
    assert_eq!(
        parse_tphp_payload(&bytes, InverterModel::Bdm1200Lv).unwrap_err(),
        "Checksum validation failed"
    );
}

/// The constants of the header, by the combinators of `nom`.
fn header(input: &[u8]) -> nom::IResult<&[u8], ()> {
    let (input, _) = tag([0x79])(input)?;
    let (input, _) = tag([0x26, 0x00])(input)?;
    let (input, _) = tag([0x40, 0x14])(input)?;
    let (input, _) = take(8usize)(input)?;
    let (input, _) = tag([0x1C, 0x00])(input)?;
    Ok((input, ()))
}

#[test]
fn header_refusals_list_the_bytes_from_the_mismatch_on() {
    for at in 0..15 {
        let mut bytes = hex::decode(BDM400_SAMPLE).unwrap();
        bytes[at] ^= 0x41;
        seal(&mut bytes, 43);
        let parsed = parse_payload(&bytes, InverterModel::Bdm400);
        match header(&bytes) {
            Ok(_) => assert!((5..13).contains(&at) && parsed.is_ok()),
            Err(e) => assert_eq!(parsed.unwrap_err(), format!("Header parsing failed: {:?}", e)),
        }
    }
}

#[test]
fn header_refusals_are_short_of_the_bytes_before() {
    let mut bytes = vec![0u8; 45];
    bytes[0] = 0x79;
    seal(&mut bytes, 43);
    let zeros = vec!["0"; 44].join(", ");
    assert_eq!(
        parse_payload(&bytes, InverterModel::Bdm400).unwrap_err(),
        format!("Header parsing failed: Error(Error {{ input: [{zeros}], code: Tag }})")
    );
}

#[test]
fn any_corrupted_byte_is_detected() {
    let good = hex::decode(BDM400_SAMPLE).unwrap();
    for at in 1..45 {
        for flip in [0x01u8, 0x80, 0xff] {
            let mut bytes = good.clone();
            bytes[at] ^= flip;
            assert_eq!(
                parse_payload(&bytes, InverterModel::Bdm400).unwrap_err(),
                "Checksum validation failed"
            );
        }
    }
    let good = hex::decode(TPHP_SAMPLE).unwrap();
    for at in 1..69 {
        let mut bytes = good.clone();
        bytes[at] ^= 0x04;
        assert_eq!(
            parse_tphp_payload(&bytes, InverterModel::Bdm1200Lv).unwrap_err(),
            "Checksum validation failed"
        );
    }
}

#[test]
fn trailing_bytes_are_ignored() {
    let mut bytes = hex::decode(BDM400_SAMPLE).unwrap();
    let plain = parse_payload(&bytes, InverterModel::Bdm400);
    bytes.extend_from_slice(&[1, 2, 3]);
    assert_eq!(parse_payload(&bytes, InverterModel::Bdm400), plain);
    let mut bytes = hex::decode(TPHP_SAMPLE).unwrap();
    let plain = parse_tphp_payload(&bytes, InverterModel::Bdm1200Lv);
    bytes.push(0);
    assert_eq!(parse_tphp_payload(&bytes, InverterModel::Bdm1200Lv), plain);
}

#[test]
fn identifier_and_marker_are_not_matched() {
    let mut bytes = hex::decode(BDM400_SAMPLE).unwrap();
    let plain = parse_payload(&bytes, InverterModel::Bdm400).unwrap();
    for at in (5..13).chain(15..19) {
        bytes[at] = at as u8;
    }
    seal(&mut bytes, 43);
    assert_eq!(parse_payload(&bytes, InverterModel::Bdm400).unwrap(), plain);
}

#[test]
fn the_firmware_version_is_read_from_one_byte() {
    let mut bytes = hex::decode(BDM400_SAMPLE).unwrap();
    for (low, mode) in [(0x06, "Generating"), (0x04, "Active Standby"), (0x01, "Deep Sleep")] {
        bytes[39] = low;
        seal(&mut bytes, 43);
        let t = parse_payload(&bytes, InverterModel::Bdm400).unwrap();
        assert_eq!(t.version(), "1.32");
        assert_eq!(t.operating_mode_str(), mode);
    }
    bytes[40] = 0x85;
    seal(&mut bytes, 43);
    assert_eq!(parse_payload(&bytes, InverterModel::Bdm400).unwrap().version(), "1.33");
}

/// What a section parser stopped at, by the combinators of `nom`.
fn stop(section: &[u8], e: nom::Err<nom::error::Error<&[u8]>>) -> ParseError {
    match e {
        nom::Err::Error(e) => ParseError {
            at: section.len() - e.input.len(),
            reason: match e.code {
                nom::error::ErrorKind::Tag => Reason::Tag,
                nom::error::ErrorKind::Eof => Reason::Eof,
                other => panic!("{other:?}"),
            },
        },
        other => panic!("{other:?}"),
    }
}

#[test]
fn headers_are_read_as_by_combinators() {
    let good = hex::decode(BDM400_SAMPLE).unwrap();
    for n in 0..=good.len() {
        for flipped in 0..16 {
            let mut bytes = good.clone();
            bytes[flipped] ^= 0x20;
            for input in [&good[..n], &bytes[..n]] {
                let expected = header(input).map(|r| r.0).map_err(|e| stop(input, e));
                assert_eq!(parse_header(input), expected);
            }
        }
    }
    assert_eq!(parse_header(&[]), Err(ParseError { at: 0, reason: Reason::Tag }));
    assert_eq!(parse_header(&good[..12]), Err(ParseError { at: 5, reason: Reason::Eof }));
}

/// The fields of the data section, by the combinators of `nom`: the serial
/// number, the words before and behind the DC current, and the reactive power.
fn data_section(input: &[u8]) -> nom::IResult<&[u8], (u32, Vec<u16>, i16)> {
    let (input, _) = take(4usize)(input)?;
    let (mut input, serial) = le_u32(input)?;
    let mut words = Vec::new();
    for _ in 0..9 {
        let (rest, word) = le_u16(input)?;
        words.push(word);
        input = rest;
    }
    let (input, reactive) = le_i16(input)?;
    Ok((input, (serial, words, reactive)))
}

#[test]
fn data_sections_are_read_as_by_combinators() {
    let payload = hex::decode(BDM800_RESET).unwrap();
    let section = &payload[15..];
    for n in 0..=section.len() {
        let input = &section[..n];
        match (parse_data_section(input, InverterModel::Bdm800), data_section(input)) {
            (Ok((rest, t)), Ok((expected, (serial, words, reactive)))) => {
                assert!(n >= 28);
                assert_eq!(rest, expected);
                assert_eq!(rest, &input[28..]);
                assert_eq!(t.serial_number, serial);
                let read = [
                    t.status_code,
                    t.ac_power_raw,
                    t.ac_voltage_raw,
                    t.operating_flags,
                    t.dc_current_ch1_raw as u16 + 256 * t.dc_current_ch2_raw as u16,
                    t.ac_freq_raw,
                    t.temp_raw,
                    t.daily_energy_raw,
                    t.version_raw,
                ];
                assert_eq!(words, read);
                assert_eq!(t.reactive_power_raw, reactive);
            }
            (Err(e), Err(expected)) => {
                assert!(n < 28);
                assert_eq!(e, stop(input, expected));
            }
            other => panic!("{n}: {other:?}"),
        }
    }
    assert_eq!(
        parse_data_section(&section[..27], InverterModel::Bdm800),
        Err(ParseError { at: 26, reason: Reason::Eof })
    );
}
