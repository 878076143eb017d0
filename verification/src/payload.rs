//! The two binary payloads: the 45-byte one of `/i.php` and the 69-byte one of `/t.php`.

use vstd::prelude::*;
use vstd::slice::slice_subrange;

use crate::checksum::{
    is_sealed, law_seal_covers_frame_only, law_single_corruption_is_detected, sealed,
    validate_checksums,
};
use crate::model::InverterModel;
use crate::telemetry::{law_version_ignores_operating_state, NepTelemetry, PayloadFormat};
use crate::text::{decimal, hex, joined_bytes, push_decimal, push_hex2, push_joined_bytes};

verus! {

/// The little-endian word at offset `o`.
pub open spec fn le16(data: Seq<u8>, o: int) -> int {
    data[o] + 256 * data[o + 1]
}

/// The little-endian double word at offset `o`.
pub open spec fn le32(data: Seq<u8>, o: int) -> int {
    le16(data, o) + 65536 * le16(data, o + 2)
}

/// A word read as a two's complement number.
pub open spec fn signed(word: int) -> int {
    if word < 0x8000 {
        word
    } else {
        word - 0x10000
    }
}

/// Why reading a section stops.
#[derive(Debug, Clone, Copy, PartialEq, Eq, Structural)]
pub enum Reason {
    /// The bytes are not those of a constant, or too few.
    Tag,
    /// Too few bytes are left for a field.
    Eof,
}

/// Where reading a section stops, and why.
#[derive(Debug, Clone, Copy, PartialEq, Eq, Structural)]
pub struct ParseError {
    pub at: usize,
    pub reason: Reason,
}

/// Whether two constant bytes stand at offset `at`.
pub open spec fn pair_at(input: Seq<u8>, at: int, first: u8, second: u8) -> bool {
    input.len() >= at + 2 && input[at] == first && input[at + 1] == second
}

/// Where the 15-byte header of a 45-byte payload differs from its constants:
/// the start byte, the payload length, the command, and the length of the data
/// section. The gateway identifier between the last two (offsets 5 to 12) is not
/// a constant: it differs from model to model.
pub open spec fn header_error(input: Seq<u8>) -> Option<ParseError> {
    if input.len() < 1 || input[0] != 0x79 {
        Some(ParseError { at: 0, reason: Reason::Tag })
    } else if !pair_at(input, 1, 0x26, 0x00) {
        Some(ParseError { at: 1, reason: Reason::Tag })
    } else if !pair_at(input, 3, 0x40, 0x14) {
        Some(ParseError { at: 3, reason: Reason::Tag })
    } else if input.len() < 13 {
        Some(ParseError { at: 5, reason: Reason::Eof })
    } else if !pair_at(input, 13, 0x1c, 0x00) {
        Some(ParseError { at: 13, reason: Reason::Tag })
    } else {
        None
    }
}

/// Where a data section ends too early: it has 28 bytes, a sync marker and a
/// serial number of four each and ten words of two. The offset is that of the
/// first field that is not there in full.
pub open spec fn data_error(input: Seq<u8>) -> Option<ParseError> {
    if input.len() >= 28 {
        None
    } else {
        let field: nat = if input.len() < 8 {
            4
        } else {
            2
        };
        Some(
            ParseError {
                at: (input.len() - input.len() % field) as usize,
                reason: Reason::Eof,
            },
        )
    }
}

/// The refusal of a payload that is shorter than `expected` bytes.
pub open spec fn too_short(expected: nat, got: nat) -> Seq<char> {
    "Payload too short: expected "@ + decimal(expected) + " bytes, got "@ + decimal(got)
}

/// The refusal of a payload one of whose sections cannot be read; it lists the
/// bytes of the section from the error on.
pub open spec fn unreadable(section: Seq<char>, input: Seq<u8>, e: ParseError) -> Seq<char> {
    let code = match e.reason {
        Reason::Tag => "Tag"@,
        Reason::Eof => "Eof"@,
    };
    section + " parsing failed: Error(Error { input: ["@ + joined_bytes(input.skip(e.at as int))
        + "], code: "@ + code + " })"@
}

/// Why a 45-byte payload is refused, or `None` where it is accepted.
pub open spec fn payload_refusal(input: Seq<u8>) -> Option<Seq<char>> {
    if input.len() < 45 {
        Some(too_short(45, input.len()))
    } else if !sealed(input, 43) {
        Some("Checksum validation failed"@)
    } else {
        match header_error(input) {
            Some(e) => Some(unreadable("Header"@, input, e)),
            None => None,
        }
    }
}

/// The telemetry of a data section. The sync marker at its start is not looked
/// at: it differs on the first report after a reset.
pub open spec fn decodes_data(t: NepTelemetry, section: Seq<u8>, model: InverterModel) -> bool {
    &&& t.model == model
    &&& t.format == PayloadFormat::Iphp
    &&& t.serial_number == le32(section, 4)
    &&& t.status_code == le16(section, 8)
    &&& t.ac_power_raw == le16(section, 10)
    &&& t.ac_voltage_raw == le16(section, 12)
    &&& t.operating_flags == le16(section, 14)
    &&& t.dc_current_ch1_raw == section[16]
    &&& t.dc_current_ch2_raw == section[17]
    &&& t.ac_freq_raw == le16(section, 18)
    &&& t.temp_raw == le16(section, 20)
    &&& t.daily_energy_raw == le16(section, 22)
    &&& t.version_raw == le16(section, 24)
    &&& t.reactive_power_raw == signed(le16(section, 26))
    &&& t.pv_input_power_raw@ == seq![0u16, 0u16, 0u16]
}

/// The telemetry of a 45-byte payload, whose data section stands at offset 15.
/// The sync marker (offsets 15 to 18) is
/// not looked at: it differs on the first report after a reset.
pub open spec fn decodes_payload(t: NepTelemetry, input: Seq<u8>, model: InverterModel) -> bool {
    &&& t.model == model
    &&& t.format == PayloadFormat::Iphp
    &&& t.serial_number == le32(input, 19)
    &&& t.status_code == le16(input, 23)
    &&& t.ac_power_raw == le16(input, 25)
    &&& t.ac_voltage_raw == le16(input, 27)
    &&& t.operating_flags == le16(input, 29)
    &&& t.dc_current_ch1_raw == input[31]
    &&& t.dc_current_ch2_raw == input[32]
    &&& t.ac_freq_raw == le16(input, 33)
    &&& t.temp_raw == le16(input, 35)
    &&& t.daily_energy_raw == le16(input, 37)
    &&& t.version_raw == le16(input, 39)
    &&& t.reactive_power_raw == signed(le16(input, 41))
    &&& t.pv_input_power_raw@ == seq![0u16, 0u16, 0u16]
}

/// Why a 69-byte payload is refused, or `None` where it is accepted.
pub open spec fn tphp_refusal(input: Seq<u8>) -> Option<Seq<char>> {
    if input.len() < 69 {
        Some(too_short(69, input.len()))
    } else if input[0] != 0x79 {
        Some("Bad start byte: 0x"@ + hex(input[0] as nat, 2))
    } else if !sealed(input, 67) {
        Some("Checksum validation failed"@)
    } else {
        None
    }
}

/// The telemetry of a 69-byte payload. The DC currents, the daily energy and
/// the reactive power have not been located in it.
pub open spec fn decodes_tphp(t: NepTelemetry, input: Seq<u8>, model: InverterModel) -> bool {
    &&& t.model == model
    &&& t.format == PayloadFormat::Tphp
    &&& t.serial_number == le32(input, 19)
    &&& t.status_code == le16(input, 23)
    &&& t.ac_power_raw == le16(input, 25)
    &&& t.ac_voltage_raw == le16(input, 53)
    &&& t.operating_flags == le16(input, 29)
    &&& t.dc_current_ch1_raw == 0
    &&& t.dc_current_ch2_raw == 0
    &&& t.ac_freq_raw == le16(input, 33)
    &&& t.temp_raw == le16(input, 35)
    &&& t.daily_energy_raw == 0
    &&& t.version_raw == le16(input, 39)
    &&& t.reactive_power_raw == 0
    &&& t.pv_input_power_raw@.len() == 3
    &&& t.pv_input_power_raw@[0] == le16(input, 43)
    &&& t.pv_input_power_raw@[1] == le16(input, 49)
    &&& t.pv_input_power_raw@[2] == le16(input, 55)
}

fn read_u16(data: &[u8], o: usize) -> (word: u16)
    requires
        o + 2 <= data@.len(),
    ensures
        word == le16(data@, o as int),
{
    data[o] as u16 + 256 * (data[o + 1] as u16)
}

fn read_u32(data: &[u8], o: usize) -> (word: u32)
    requires
        o + 4 <= data@.len(),
    ensures
        word == le32(data@, o as int),
{
    assert(data@.len() == data.len());
    read_u16(data, o) as u32 + 65536 * (read_u16(data, o + 2) as u32)
}

fn read_i16(data: &[u8], o: usize) -> (word: i16)
    requires
        o + 2 <= data@.len(),
    ensures
        word == signed(le16(data@, o as int)),
{
    let word: u16 = read_u16(data, o);
    if word < 0x8000 {
        word as i16
    } else {
        (word as i32 - 0x10000) as i16
    }
}

fn too_short_text(expected: u64, got: usize) -> (text: String)
    ensures
        text@ == too_short(expected as nat, got as nat),
{
    let mut text = "Payload too short: expected ".to_owned();
    push_decimal(&mut text, expected);
    text.append(" bytes, got ");
    push_decimal(&mut text, got as u64);
    text
}

fn unreadable_text(section: &str, input: &[u8], e: ParseError) -> (text: String)
    requires
        e.at <= input@.len(),
    ensures
        text@ == unreadable(section@, input@, e),
{
    let mut text = section.to_owned();
    text.append(" parsing failed: Error(Error { input: [");
    push_joined_bytes(&mut text, input, e.at);
    text.append("], code: ");
    match e.reason {
        Reason::Tag => text.append("Tag"),
        Reason::Eof => text.append("Eof"),
    }
    text.append(" })");
    text
}

fn is_pair_at(input: &[u8], at: usize, first: u8, second: u8) -> (same: bool)
    requires
        at <= 13,
    ensures
        same == pair_at(input@, at as int, first, second),
{
    input.len() >= at + 2 && input[at] == first && input[at + 1] == second
}

/// Reads the 15-byte header of a 45-byte payload, and returns what stands
/// behind it.
pub fn parse_header(input: &[u8]) -> (header: Result<&[u8], ParseError>)
    ensures
        match header_error(input@) {
            Some(e) => header matches Err(f) && f == e,
            None => header matches Ok(rest) && rest@ == input@.skip(15),
        },
        header matches Err(e) ==> e.at <= input@.len(),
{
    if input.len() < 1 || input[0] != 0x79 {
        Err(ParseError { at: 0, reason: Reason::Tag })
    } else if !is_pair_at(input, 1, 0x26, 0x00) {
        Err(ParseError { at: 1, reason: Reason::Tag })
    } else if !is_pair_at(input, 3, 0x40, 0x14) {
        Err(ParseError { at: 3, reason: Reason::Tag })
    } else if input.len() < 13 {
        Err(ParseError { at: 5, reason: Reason::Eof })
    } else if !is_pair_at(input, 13, 0x1c, 0x00) {
        Err(ParseError { at: 13, reason: Reason::Tag })
    } else {
        Ok(slice_subrange(input, 15, input.len()))
    }
}

/// Reads the 28-byte data section of a 45-byte payload, to be scaled for the
/// given model, and returns what stands behind it.
///
/// The two bytes of the DC current are the currents of the two MPPT channels.
/// On the single-input BDM-400 the first one is always zero.
pub fn parse_data_section(input: &[u8], model: InverterModel) -> (section: Result<
    (&[u8], NepTelemetry),
    ParseError,
>)
    ensures
        section is Err <==> input@.len() < 28,
        match data_error(input@) {
            Some(e) => section matches Err(f) && f == e,
            None => section matches Ok((rest, t)) && rest@ == input@.skip(28) && decodes_data(
                t,
                input@,
                model,
            ),
        },
        section matches Err(e) ==> e.at <= input@.len(),
{
    let n: usize = input.len();
    if n < 28 {
        let field: usize = if n < 8 {
            4
        } else {
            2
        };
        return Err(ParseError { at: n - n % field, reason: Reason::Eof });
    }
    let telemetry = NepTelemetry {
        model,
        format: PayloadFormat::Iphp,
        serial_number: read_u32(input, 4),
        status_code: read_u16(input, 8),
        ac_power_raw: read_u16(input, 10),
        ac_voltage_raw: read_u16(input, 12),
        operating_flags: read_u16(input, 14),
        dc_current_ch1_raw: input[16],
        dc_current_ch2_raw: input[17],
        ac_freq_raw: read_u16(input, 18),
        temp_raw: read_u16(input, 20),
        daily_energy_raw: read_u16(input, 22),
        version_raw: read_u16(input, 24),
        reactive_power_raw: read_i16(input, 26),
        pv_input_power_raw: [0, 0, 0],
    };
    Ok((slice_subrange(input, 28, n), telemetry))
}

/// Parses the 45-byte payload of `/i.php`, to be scaled for the given model.
pub fn parse_payload(input: &[u8], model: InverterModel) -> (parsed: Result<NepTelemetry, String>)
    ensures
        parsed is Ok <==> payload_refusal(input@) is None,
        parsed matches Ok(t) ==> decodes_payload(t, input@, model),
        parsed matches Err(e) ==> payload_refusal(input@) == Some(e@),
{
    if input.len() < 45 {
        return Err(too_short_text(45, input.len()));
    }
    if !validate_checksums(input) {
        return Err("Checksum validation failed".to_owned());
    }
    let rest = match parse_header(input) {
        Ok(rest) => rest,
        Err(e) => return Err(unreadable_text("Header", input, e)),
    };
    match parse_data_section(rest, model) {
        Ok((_, telemetry)) => Ok(telemetry),
        Err(e) => Err(unreadable_text("Data section", rest, e)),
    }
}

/// Parses the 69-byte payload of `/t.php` that newer firmware emits (the
/// BDM-1200-LV). It has the framing and the dual checksum of the 45-byte
/// payload, with a longer data section. The byte at offset 37 is an upload
/// counter, not daily energy; the voltage word at offset 53 is not grid RMS.
pub fn parse_tphp_payload(input: &[u8], model: InverterModel) -> (parsed: Result<
    NepTelemetry,
    String,
>)
    ensures
        parsed is Ok <==> tphp_refusal(input@) is None,
        parsed matches Ok(t) ==> decodes_tphp(t, input@, model),
        parsed matches Err(e) ==> tphp_refusal(input@) == Some(e@),
{
    if input.len() < 69 {
        return Err(too_short_text(69, input.len()));
    }
    if input[0] != 0x79 {
        let mut text = "Bad start byte: 0x".to_owned();
        push_hex2(&mut text, input[0]);
        return Err(text);
    }
    if !is_sealed(input, 67) {
        return Err("Checksum validation failed".to_owned());
    }
    Ok(
        NepTelemetry {
            model,
            format: PayloadFormat::Tphp,
            serial_number: read_u32(input, 19),
            status_code: read_u16(input, 23),
            ac_power_raw: read_u16(input, 25),
            ac_voltage_raw: read_u16(input, 53),
            operating_flags: read_u16(input, 29),
            dc_current_ch1_raw: 0,
            dc_current_ch2_raw: 0,
            ac_freq_raw: read_u16(input, 33),
            temp_raw: read_u16(input, 35),
            daily_energy_raw: 0,
            version_raw: read_u16(input, 39),
            reactive_power_raw: 0,
            pv_input_power_raw: [read_u16(input, 43), read_u16(input, 49), read_u16(input, 55)],
        },
    )
}

/// The header and the data section fill a 45-byte payload up to its two check
/// bytes: behind a header that can be read, the data section always can be, and
/// decodes as the payload does.
pub proof fn law_sections_fill_the_payload(input: Seq<u8>, t: NepTelemetry, model: InverterModel)
    requires
        input.len() >= 45,
    ensures
        data_error(input.skip(15)) is None,
        input.skip(15).skip(28) == input.skip(43),
        decodes_data(t, input.skip(15), model) == decodes_payload(t, input, model),
{
    assert(input.skip(15).skip(28) =~= input.skip(43));
}

/// Corrupting any one checksummed byte of an accepted 45-byte payload, or one
/// of its check bytes, gets it refused for its checksum.
pub proof fn law_corrupted_payload_is_refused(input: Seq<u8>, i: int, b: u8)
    requires
        payload_refusal(input) is None,
        1 <= i < 45,
        input[i] != b,
    ensures
        payload_refusal(input.update(i, b)) == Some("Checksum validation failed"@),
{
    law_single_corruption_is_detected(input, 43, i, b);
}

/// The same of a 69-byte payload.
pub proof fn law_corrupted_tphp_is_refused(input: Seq<u8>, i: int, b: u8)
    requires
        tphp_refusal(input) is None,
        1 <= i < 69,
        input[i] != b,
    ensures
        tphp_refusal(input.update(i, b)) == Some("Checksum validation failed"@),
{
    law_single_corruption_is_detected(input, 67, i, b);
}

/// Whether a payload is accepted, and what it decodes to, depends on its first
/// 45 bytes alone.
pub proof fn law_payload_ignores_trailing_bytes(
    frame: Seq<u8>,
    trailing: Seq<u8>,
    t: NepTelemetry,
    model: InverterModel,
)
    requires
        frame.len() == 45,
    ensures
        payload_refusal(frame + trailing) is None <==> payload_refusal(frame) is None,
        decodes_payload(t, frame + trailing, model) == decodes_payload(t, frame, model),
{
    let longer = frame + trailing;
    assert(longer.subrange(1, 45) =~= frame.subrange(1, 45));
    law_seal_covers_frame_only(longer, frame, 43);
}

/// The same of the first 69 bytes of a `/t.php` payload.
pub proof fn law_tphp_ignores_trailing_bytes(
    frame: Seq<u8>,
    trailing: Seq<u8>,
    t: NepTelemetry,
    model: InverterModel,
)
    requires
        frame.len() == 69,
    ensures
        tphp_refusal(frame + trailing) is None <==> tphp_refusal(frame) is None,
        decodes_tphp(t, frame + trailing, model) == decodes_tphp(t, frame, model),
{
    let longer = frame + trailing;
    assert(longer.subrange(1, 69) =~= frame.subrange(1, 69));
    law_seal_covers_frame_only(longer, frame, 67);
}

/// The gateway identifier and the sync marker are not matched: two sealed
/// payloads that differ only there and in their check bytes are both accepted
/// or both refused, and decode to the same telemetry.
pub proof fn law_identifier_and_marker_are_not_matched(
    a: Seq<u8>,
    b: Seq<u8>,
    t: NepTelemetry,
    model: InverterModel,
)
    requires
        a.len() >= 45,
        b.len() >= 45,
        sealed(a, 43),
        sealed(b, 43),
        forall|i: int|
            0 <= i < 5 || 13 <= i < 15 || 19 <= i < 43 ==> #[trigger] a[i] == #[trigger] b[i],
    ensures
        payload_refusal(a) is None <==> payload_refusal(b) is None,
        decodes_payload(t, a, model) == decodes_payload(t, b, model),
{
    assert(a[0] == b[0] && a[1] == b[1] && a[2] == b[2] && a[3] == b[3] && a[4] == b[4]);
    assert(a[13] == b[13] && a[14] == b[14]);
    assert(a[31] == b[31] && a[32] == b[32]);
    lemma_words_agree(a, b);
}

proof fn lemma_words_agree(a: Seq<u8>, b: Seq<u8>)
    requires
        forall|i: int| 19 <= i < 43 ==> #[trigger] a[i] == #[trigger] b[i],
    ensures
        forall|o: int| 19 <= o < 42 ==> #[trigger] le16(a, o) == #[trigger] le16(b, o),
        le32(a, 19) == le32(b, 19),
{
    assert forall|o: int| 19 <= o < 42 implies #[trigger] le16(a, o) == #[trigger] le16(b, o) by {
        assert(a[o] == b[o] && a[o + 1] == b[o + 1]);
    }
    assert(le16(a, 19) == le16(b, 19) && le16(a, 21) == le16(b, 21));
}

/// The firmware version of a payload depends on its byte at offset 40 alone, and
/// not on the operating state before it.
pub proof fn law_version_is_read_from_one_byte(
    a: Seq<u8>,
    ta: NepTelemetry,
    b: Seq<u8>,
    tb: NepTelemetry,
    model: InverterModel,
)
    requires
        decodes_payload(ta, a, model),
        decodes_payload(tb, b, model),
        a[40] == b[40],
    ensures
        ta.version_text() == tb.version_text(),
{
    assert(ta.version_raw / 256 == a[40] && tb.version_raw / 256 == b[40]);
    law_version_ignores_operating_state(ta, tb);
}

/// Decoding loses nothing of the data section: payloads that decode to the same
/// telemetry hold the same bytes from the serial number to the reactive power.
pub proof fn law_decoding_is_lossless(
    a: Seq<u8>,
    b: Seq<u8>,
    t: NepTelemetry,
    model: InverterModel,
)
    requires
        a.len() >= 45,
        b.len() >= 45,
        decodes_payload(t, a, model),
        decodes_payload(t, b, model),
    ensures
        a.subrange(19, 43) == b.subrange(19, 43),
{
    assert(le16(a, 19) == le16(b, 19) && le16(a, 21) == le16(b, 21));
    assert(le16(a, 41) == le16(b, 41));
    assert forall|i: int| 19 <= i < 43 implies a[i] == b[i] by {
        let o = if i % 2 == 1 {
            i
        } else {
            i - 1
        };
        assert(o == 31 || le16(a, o) == le16(b, o));
    }
    assert(a.subrange(19, 43) =~= b.subrange(19, 43));
}

} // verus!
