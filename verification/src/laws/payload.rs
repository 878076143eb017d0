//! The payloads: which bytes are accepted, and what they decode to.

use vstd::prelude::*;

use crate::checksum::{byte_sum, byte_xor, validate_checksums};
use crate::model::InverterModel;
use crate::payload::{
    parse_data_section, parse_header, parse_payload, parse_tphp_payload, ParseError,
};
use crate::telemetry::{NepTelemetry, PayloadFormat};
use crate::text::{all_digits, decimal_value, law_decimal_reads_back};

verus! {

/// The sum of bytes, counted up from the first.
pub open spec fn total(bytes: Seq<u8>) -> int {
    bytes.fold_left(0int, |sum: int, b: u8| sum + b)
}

/// The exclusive-or of bytes, taken up from the first.
pub open spec fn parity(bytes: Seq<u8>) -> u8 {
    bytes.fold_left(0u8, |x: u8, b: u8| x ^ b)
}

proof fn lemma_checksums_fold(bytes: Seq<u8>)
    ensures
        byte_sum(bytes) == total(bytes),
        byte_xor(bytes) == parity(bytes),
    decreases bytes.len(),
{
    reveal_with_fuel(Seq::fold_left, 2);
    if bytes.len() > 0 {
        lemma_checksums_fold(bytes.drop_last());
    }
}

/// Whether the bytes from 1 up to `end` are followed by their sum modulo 256 and
/// their exclusive-or.
pub open spec fn has_checksums(bytes: Seq<u8>, end: int) -> bool {
    &&& bytes.len() >= end + 2
    &&& bytes[end] == total(bytes.subrange(1, end)) % 256
    &&& bytes[end + 1] == parity(bytes.subrange(1, end))
}

/// The checksums of a 45-byte payload are valid exactly where the byte 43 is the
/// sum of the bytes 1 to 42 modulo 256, and the byte 44 their exclusive-or.
pub proof fn law_checksums_cover_the_body(data: &[u8], ok: bool)
    requires
        call_ensures(validate_checksums, (data,), ok),
    ensures
        ok <==> has_checksums(data@, 43),
{
    if data@.len() >= 45 {
        lemma_checksums_fold(data@.subrange(1, 43));
    }
}

/// A `/i.php` payload is accepted exactly where it has 45 bytes or more, valid
/// checksums, and the constants of its header: whatever its gateway identifier,
/// its sync marker and its data. What it is refused for is its length before its
/// checksums, and these before its header.
pub proof fn law_payload_is_accepted(
    input: &[u8],
    model: InverterModel,
    parsed: Result<NepTelemetry, String>,
)
    requires
        call_ensures(parse_payload, (input, model), parsed),
    ensures
        parsed is Ok <==> {
            &&& input@.len() >= 45
            &&& has_checksums(input@, 43)
            &&& input@[0] == 0x79 && input@[1] == 38 && input@[2] == 0
            &&& input@[3] == 0x40 && input@[4] == 0x14 && input@[13] == 28 && input@[14] == 0
        },
        parsed matches Err(e) ==> {
            &&& input@.len() < 45 ==> exists|n: Seq<char>|
                {
                    &&& e@ == "Payload too short: expected 45 bytes, got "@ + n
                    &&& #[trigger] all_digits(n) && decimal_value(n) == input@.len()
                }
            &&& input@.len() >= 45 && !has_checksums(input@, 43) ==> e@
                == "Checksum validation failed"@
            &&& has_checksums(input@, 43) ==> exists|rest: Seq<char>|
                e@ == #[trigger] ("Header parsing failed: "@ + rest)
        },
{
    let s = input@;
    if s.len() >= 45 {
        lemma_checksums_fold(s.subrange(1, 43));
        if parsed is Err && has_checksums(s, 43) {
            let e = parsed->Err_0@;
            lemma_header_refusal(s, e);
        }
    } else {
        lemma_too_short(45, s.len(), "Payload too short: expected 45 bytes, got "@);
    }
}

proof fn lemma_header_refusal(s: Seq<u8>, e: Seq<char>)
    requires
        s.len() >= 45,
        crate::payload::header_error(s) is Some,
        e == crate::payload::unreadable("Header"@, s, crate::payload::header_error(s)->Some_0),
    ensures
        exists|rest: Seq<char>| e == #[trigger] ("Header parsing failed: "@ + rest),
{
    reveal_strlit("Header");
    reveal_strlit(" parsing failed: Error(Error { input: [");
    reveal_strlit("Header parsing failed: ");
    let n = "Header parsing failed: "@.len() as int;
    let rest = e.skip(n);
    assert(e.take(n) =~= "Header parsing failed: "@);
    assert(e =~= "Header parsing failed: "@ + rest);
}

proof fn lemma_too_short(expected: nat, got: nat, start: Seq<char>)
    requires
        expected == 45 && start == "Payload too short: expected 45 bytes, got "@ || expected == 69
            && start == "Payload too short: expected 69 bytes, got "@,
    ensures
        crate::payload::too_short(expected, got) == start + crate::text::decimal(got),
        all_digits(crate::text::decimal(got)),
        decimal_value(crate::text::decimal(got)) == got,
{
    reveal_strlit("Payload too short: expected ");
    reveal_strlit(" bytes, got ");
    reveal_strlit("Payload too short: expected 45 bytes, got ");
    reveal_strlit("Payload too short: expected 69 bytes, got ");
    reveal_with_fuel(crate::text::decimal, 3);
    law_decimal_reads_back(got);
    assert(crate::payload::too_short(expected, got) =~= start + crate::text::decimal(got));
}

/// What an accepted `/i.php` payload decodes to, byte for byte: little-endian
/// words, but for the two DC currents, which are a byte each.
pub proof fn law_payload_decodes_to_its_bytes(input: &[u8], model: InverterModel, t: NepTelemetry)
    requires
        call_ensures(parse_payload, (input, model), Ok(t)),
    ensures
        ({
            let b = input@;
            &&& t.model == model && t.format == PayloadFormat::Iphp
            &&& t.serial_number == b[19] + 0x100 * b[20] + 0x1_0000 * b[21] + 0x100_0000 * b[22]
            &&& t.status_code == b[23] + 0x100 * b[24]
            &&& t.ac_power_raw == b[25] + 0x100 * b[26]
            &&& t.ac_voltage_raw == b[27] + 0x100 * b[28]
            &&& t.operating_flags == b[29] + 0x100 * b[30]
            &&& t.dc_current_ch1_raw == b[31]
            &&& t.dc_current_ch2_raw == b[32]
            &&& t.ac_freq_raw == b[33] + 0x100 * b[34]
            &&& t.temp_raw == b[35] + 0x100 * b[36]
            &&& t.daily_energy_raw == b[37] + 0x100 * b[38]
            &&& t.version_raw == b[39] + 0x100 * b[40]
            &&& t.reactive_power_raw == b[41] + 0x100 * b[42] - (if b[42] >= 0x80 {
                0x1_0000int
            } else {
                0
            })
            &&& forall|i: int| 0 <= i < 3 ==> #[trigger] t.pv_input_power_raw@[i] == 0
        }),
{
}

/// A `/t.php` payload is accepted exactly where it has 69 bytes or more, its
/// start byte and valid checksums. What it is refused for is its length before
/// its start byte, and that before its checksums.
pub proof fn law_tphp_is_accepted(
    input: &[u8],
    model: InverterModel,
    parsed: Result<NepTelemetry, String>,
)
    requires
        call_ensures(parse_tphp_payload, (input, model), parsed),
    ensures
        parsed is Ok <==> input@.len() >= 69 && input@[0] == 0x79 && has_checksums(input@, 67),
        parsed matches Err(e) ==> {
            &&& input@.len() < 69 ==> exists|n: Seq<char>|
                {
                    &&& e@ == "Payload too short: expected 69 bytes, got "@ + n
                    &&& #[trigger] all_digits(n) && decimal_value(n) == input@.len()
                }
            &&& input@.len() >= 69 && input@[0] != 0x79 ==> {
                &&& e@.len() == 20
                &&& e@.take(18) == "Bad start byte: 0x"@
                &&& e@[18] == "0123456789abcdef"@[input@[0] as int / 16]
                &&& e@[19] == "0123456789abcdef"@[input@[0] as int % 16]
            }
            &&& input@.len() >= 69 && input@[0] == 0x79 ==> e@ == "Checksum validation failed"@
        },
{
    let s = input@;
    if s.len() >= 69 {
        lemma_checksums_fold(s.subrange(1, 67));
        if s[0] != 0x79 {
            reveal_strlit("Bad start byte: 0x");
            reveal_strlit("0123456789abcdef");
            reveal_with_fuel(crate::text::hex, 3);
            let e = parsed->Err_0@;
            let b = s[0] as nat;
            assert(e =~= "Bad start byte: 0x"@ + seq![
                crate::text::digit(b / 16 % 16),
                crate::text::digit(b % 16),
            ]);
            assert(e.take(18) =~= "Bad start byte: 0x"@);
        }
    } else {
        lemma_too_short(69, s.len(), "Payload too short: expected 69 bytes, got "@);
    }
}

/// What an accepted `/t.php` payload decodes to, byte for byte.
pub proof fn law_tphp_decodes_to_its_bytes(input: &[u8], model: InverterModel, t: NepTelemetry)
    requires
        call_ensures(parse_tphp_payload, (input, model), Ok(t)),
    ensures
        ({
            let b = input@;
            &&& t.model == model && t.format == PayloadFormat::Tphp
            &&& t.serial_number == b[19] + 0x100 * b[20] + 0x1_0000 * b[21] + 0x100_0000 * b[22]
            &&& t.status_code == b[23] + 0x100 * b[24]
            &&& t.ac_power_raw == b[25] + 0x100 * b[26]
            &&& t.operating_flags == b[29] + 0x100 * b[30]
            &&& t.ac_freq_raw == b[33] + 0x100 * b[34]
            &&& t.temp_raw == b[35] + 0x100 * b[36]
            &&& t.version_raw == b[39] + 0x100 * b[40]
            &&& t.pv_input_power_raw@[0] == b[43] + 0x100 * b[44]
            &&& t.pv_input_power_raw@[1] == b[49] + 0x100 * b[50]
            &&& t.ac_voltage_raw == b[53] + 0x100 * b[54]
            &&& t.pv_input_power_raw@[2] == b[55] + 0x100 * b[56]
            &&& t.dc_current_ch1_raw == 0 && t.dc_current_ch2_raw == 0
            &&& t.daily_energy_raw == 0 && t.reactive_power_raw == 0
        }),
{
}

/// A header and a data section are read where all of their bytes are there, and
/// leave what stands behind them.
pub proof fn law_sections_leave_the_rest<'a>(
    input: &'a [u8],
    model: InverterModel,
    header: Result<&'a [u8], ParseError>,
    section: Result<(&'a [u8], NepTelemetry), ParseError>,
)
    requires
        call_ensures(parse_header, (input,), header),
        call_ensures(parse_data_section, (input, model), section),
    ensures
        header is Ok <==> {
            &&& input@.len() >= 15
            &&& input@[0] == 0x79 && input@[1] == 38 && input@[2] == 0
            &&& input@[3] == 0x40 && input@[4] == 0x14 && input@[13] == 28 && input@[14] == 0
        },
        header matches Ok(rest) ==> rest@ == input@.subrange(15, input@.len() as int),
        section is Ok <==> input@.len() >= 28,
        section matches Ok((rest, t)) ==> {
            let b = input@;
            &&& rest@ == b.subrange(28, b.len() as int)
            &&& t.model == model && t.format == PayloadFormat::Iphp
            &&& t.serial_number == b[4] + 0x100 * b[5] + 0x1_0000 * b[6] + 0x100_0000 * b[7]
            &&& t.status_code == b[8] + 0x100 * b[9]
            &&& t.ac_power_raw == b[10] + 0x100 * b[11]
            &&& t.ac_voltage_raw == b[12] + 0x100 * b[13]
            &&& t.operating_flags == b[14] + 0x100 * b[15]
            &&& t.dc_current_ch1_raw == b[16] && t.dc_current_ch2_raw == b[17]
            &&& t.ac_freq_raw == b[18] + 0x100 * b[19]
            &&& t.temp_raw == b[20] + 0x100 * b[21]
            &&& t.daily_energy_raw == b[22] + 0x100 * b[23]
            &&& t.version_raw == b[24] + 0x100 * b[25]
            &&& (t.reactive_power_raw - b[26] - 0x100 * b[27]) % 0x1_0000 == 0
        },
{
}

} // verus!
