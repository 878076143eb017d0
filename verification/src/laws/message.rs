//! The telemetry message: what stands under each key, from the words of a
//! telemetry and from the bytes of a post.

use vstd::prelude::*;

use crate::laws::payload::{law_payload_decodes_to_its_bytes, law_tphp_decodes_to_its_bytes};
use crate::laws::readings::{
    is_nearest_hundredth, lemma_nearest_hundredth, lemma_power_scale, power_den, power_num,
};
use crate::model::InverterModel;
use crate::mqtt::{
    field_views, message_of, telemetry_message, telemetry_report, Content, Field, Publication,
    AT_LEAST_ONCE,
};
use crate::payload::{parse_payload, parse_tphp_payload};
use crate::ratio::{in_hundredths, to_hundredths};
use crate::telemetry::{lemma_reconstruction, NepTelemetry, PayloadFormat};
use crate::text::hex8;

verus! {

/// Whether the number under `key` is `num / den`, to the nearest hundredth.
pub open spec fn number_under(
    fields: Seq<(&'static str, Field)>,
    key: Seq<char>,
    num: int,
    den: int,
) -> bool {
    exists|j: int|
        0 <= j < fields.len() && (#[trigger] fields[j]).0@ == key && (fields[j].1 matches
            Field::Hundredths(h) && is_nearest_hundredth(h as int, num, den))
}

/// Whether `text` stands under `key`.
pub open spec fn text_under(
    fields: Seq<(&'static str, Field)>,
    key: Seq<char>,
    text: Seq<char>,
) -> bool {
    exists|j: int|
        0 <= j < fields.len() && (#[trigger] fields[j]).0@ == key && (fields[j].1 matches Field::Text(
            s,
        ) && s@ == text)
}

/// No key stands twice in a message, so that each has one value.
pub proof fn law_keys_are_distinct(
    t: NepTelemetry,
    fields: Vec<(&'static str, Field)>,
    i: int,
    j: int,
)
    requires
        call_ensures(telemetry_message, (&t,), fields),
        0 <= i < j < fields@.len(),
    ensures
        fields@.len() == 19,
        fields@[i].0@ != fields@[j].0@,
{
    let m = message_of(t);
    assert(field_views(fields@) == m);
    assert(m.len() == 19);
    assert(field_views(fields@)[i].0 == fields@[i].0@);
    assert(field_views(fields@)[j].0 == fields@[j].0@);
    lemma_keys_are_distinct(t, i, j);
}

#[verifier::rlimit(60)]
proof fn lemma_keys_are_distinct(t: NepTelemetry, i: int, j: int)
    requires
        0 <= i < j < 19,
    ensures
        message_of(t)[i].0 != message_of(t)[j].0,
{
    reveal_strlit("ac_power_w");
    reveal_strlit("ac_voltage_v");
    reveal_strlit("ac_freq_hz");
    reveal_strlit("dc_voltage_v");
    reveal_strlit("dc_current_a");
    reveal_strlit("dc_current_ch1_a");
    reveal_strlit("dc_current_ch2_a");
    reveal_strlit("dc_power_w");
    reveal_strlit("efficiency_percent");
    reveal_strlit("temperature_c");
    reveal_strlit("daily_energy_wh");
    reveal_strlit("reactive_power_var");
    reveal_strlit("pv1_power_w");
    reveal_strlit("pv2_power_w");
    reveal_strlit("pv3_power_w");
    reveal_strlit("status");
    reveal_strlit("error_state");
    reveal_strlit("operating_mode");
    reveal_strlit("version");
    let a = message_of(t)[i].0;
    let b = message_of(t)[j].0;
    if a == b {
        // Two keys of one length differ in one of these characters.
        assert(a.len() == b.len());
        assert(a[0] == b[0] && a[2] == b[2] && a[3] == b[3]);
        assert(a.len() > 13 ==> a[13] == b[13]);
    }
}

/// What stands at a place of a message.
proof fn lemma_field(t: NepTelemetry, fields: Vec<(&'static str, Field)>, j: int)
    requires
        field_views(fields@) == message_of(t),
        0 <= j < 19,
    ensures
        fields@.len() == 19,
        fields@[j].0@ == message_of(t)[j].0,
        fields@[j].1.view() == message_of(t)[j].1,
{
    assert(message_of(t).len() == 19);
    assert(field_views(fields@)[j] == (fields@[j].0@, fields@[j].1.view()));
}

/// The number at a place of a message is that of its reading.
proof fn lemma_number(
    t: NepTelemetry,
    fields: Vec<(&'static str, Field)>,
    j: int,
    reading: real,
    num: int,
    den: int,
)
    requires
        field_views(fields@) == message_of(t),
        0 <= j < 19,
        message_of(t)[j].1 == crate::mqtt::published(reading),
        den > 0,
        is_nearest_hundredth(to_hundredths(reading), num, den),
    ensures
        number_under(fields@, message_of(t)[j].0, num, den),
{
    lemma_field(t, fields, j);
    assert(fields@[j].0@ == message_of(t)[j].0);
}

/// What is kept of a reading has the same nearest hundredth.
proof fn lemma_kept_number(t: NepTelemetry, x: real, num: int, den: int)
    requires
        den > 0,
        x * (den as real) == num as real,
    ensures
        is_nearest_hundredth(to_hundredths(t.kept(x)), num, den),
{
    lemma_nearest_hundredth(x, num, den);
    let n = to_hundredths(x);
    assert(n as real / 100real * 100real == n as real);
    assert(to_hundredths(in_hundredths(x)) == n);
}

/// Under each key of a measured quantity stands the reading of its own word, and
/// of no other: the nearest hundredth of the word in its unit.
pub proof fn law_each_key_holds_its_word(t: NepTelemetry, fields: Vec<(&'static str, Field)>)
    requires
        call_ensures(telemetry_message, (&t,), fields),
    ensures
        ({
            let f = fields@;
            let den = power_den(t.model);
            let volt = if t.format == PayloadFormat::Tphp && t.model == InverterModel::Bdm1200Lv {
                512int
            } else {
                256
            };
            &&& number_under(f, "ac_power_w"@, power_num(t.model, t.ac_power_raw as int), den)
            &&& number_under(f, "ac_voltage_v"@, t.ac_voltage_raw * 10, volt)
            &&& number_under(f, "ac_freq_hz"@, t.ac_freq_raw as int, 256)
            &&& number_under(f, "dc_current_ch1_a"@, t.dc_current_ch1_raw as int, 10)
            &&& number_under(f, "dc_current_ch2_a"@, t.dc_current_ch2_raw as int, 10)
            &&& number_under(
                f,
                "dc_current_a"@,
                t.dc_current_ch1_raw + t.dc_current_ch2_raw,
                10,
            )
            &&& number_under(f, "temperature_c"@, t.temp_raw as int, 100)
            &&& t.model == InverterModel::Bdm800 ==> number_under(
                f,
                "daily_energy_wh"@,
                t.daily_energy_raw * 2308,
                10000,
            )
            &&& t.model != InverterModel::Bdm800 ==> number_under(
                f,
                "daily_energy_wh"@,
                t.daily_energy_raw as int,
                5,
            )
            &&& number_under(f, "reactive_power_var"@, t.reactive_power_raw as int, 100)
        }),
{
    let m = t.model;
    let den = power_den(m);
    assert(field_views(fields@) == message_of(t));

    lemma_power_scale(m, t.ac_power_raw);
    lemma_kept_number(t, m.power_w(t.ac_power_raw), power_num(m, t.ac_power_raw as int), den);
    lemma_number(t, fields, 0, t.ac_power(), power_num(m, t.ac_power_raw as int), den);

    let v = t.ac_voltage_raw;
    assert(v as real / (256real / 10real) * 256real == (v * 10) as real);
    assert(v as real / (512real / 10real) * 512real == (v * 10) as real);
    if t.format == PayloadFormat::Iphp {
        lemma_nearest_hundredth(t.ac_voltage(), v * 10, 256);
        lemma_number(t, fields, 1, t.ac_voltage(), v * 10, 256);
    } else if m == InverterModel::Bdm1200Lv {
        lemma_kept_number(t, m.voltage_v(v), v * 10, 512);
        lemma_number(t, fields, 1, t.ac_voltage(), v * 10, 512);
    } else {
        lemma_kept_number(t, m.voltage_v(v), v * 10, 256);
        lemma_number(t, fields, 1, t.ac_voltage(), v * 10, 256);
    }

    lemma_kept_number(t, t.ac_freq_raw as real / 256real, t.ac_freq_raw as int, 256);
    lemma_number(t, fields, 2, t.ac_freq(), t.ac_freq_raw as int, 256);

    let (a, b) = (t.dc_current_ch1_raw, t.dc_current_ch2_raw);
    lemma_nearest_hundredth(t.dc_current(), a + b, 10);
    lemma_number(t, fields, 4, t.dc_current(), a + b, 10);
    lemma_nearest_hundredth(t.dc_current_ch1(), a as int, 10);
    lemma_number(t, fields, 5, t.dc_current_ch1(), a as int, 10);
    lemma_nearest_hundredth(t.dc_current_ch2(), b as int, 10);
    lemma_number(t, fields, 6, t.dc_current_ch2(), b as int, 10);

    lemma_kept_number(t, t.temp_raw as real / 100real, t.temp_raw as int, 100);
    lemma_number(t, fields, 9, t.temp(), t.temp_raw as int, 100);

    let e = t.daily_energy_raw;
    if m == InverterModel::Bdm800 {
        lemma_nearest_hundredth(t.daily_energy(), e * 2308, 10000);
        lemma_number(t, fields, 10, t.daily_energy(), e * 2308, 10000);
    } else {
        lemma_nearest_hundredth(t.daily_energy(), e as int, 5);
        lemma_number(t, fields, 10, t.daily_energy(), e as int, 5);
    }

    lemma_nearest_hundredth(t.reactive_power(), t.reactive_power_raw as int, 100);
    lemma_number(t, fields, 11, t.reactive_power(), t.reactive_power_raw as int, 100);
}

/// Under the key of each PV input stands the power of its own word, by the scale
/// of the model, and of no other input.
pub proof fn law_pv_keys_hold_their_inputs(t: NepTelemetry, fields: Vec<(&'static str, Field)>)
    requires
        call_ensures(telemetry_message, (&t,), fields),
    ensures
        ({
            let f = fields@;
            let den = power_den(t.model);
            let pv = t.pv_input_power_raw@;
            &&& number_under(f, "pv1_power_w"@, power_num(t.model, pv[0] as int), den)
            &&& number_under(f, "pv2_power_w"@, power_num(t.model, pv[1] as int), den)
            &&& number_under(f, "pv3_power_w"@, power_num(t.model, pv[2] as int), den)
        }),
{
    assert(field_views(fields@) == message_of(t));
    lemma_pv_key(t, fields, 0);
    lemma_pv_key(t, fields, 1);
    lemma_pv_key(t, fields, 2);
}

proof fn lemma_pv_key(t: NepTelemetry, fields: Vec<(&'static str, Field)>, i: int)
    requires
        field_views(fields@) == message_of(t),
        0 <= i < 3,
    ensures
        number_under(
            fields@,
            message_of(t)[12 + i].0,
            power_num(t.model, t.pv_input_power_raw@[i] as int),
            power_den(t.model),
        ),
{
    let m = t.model;
    let raw = t.pv_input_power_raw@[i];
    lemma_power_scale(m, raw);
    lemma_kept_number(t, m.power_w(raw), power_num(m, raw as int), power_den(m));
    lemma_number(
        t,
        fields,
        12 + i,
        t.pv_input_power(i),
        power_num(m, raw as int),
        power_den(m),
    );
}

/// Under the keys of the DC side stands what is reconstructed from an AC power of
/// `p / q` Watts and a total current of `c` tenths of an Ampere, over both
/// channels. Below the limit of 60 V the voltage is the power by 0.96 times the
/// current, and the efficiency 96 %; at the limit the DC power is 60 V times the
/// current, and the efficiency what the AC power is of it, but at most 100 %.
/// Without a current there is nothing, and without power no voltage.
pub proof fn law_dc_keys_hold_the_reconstruction(
    t: NepTelemetry,
    fields: Vec<(&'static str, Field)>,
)
    requires
        call_ensures(telemetry_message, (&t,), fields),
        // A `/t.php` payload carries no current.
        t.format == PayloadFormat::Tphp ==> t.dc_current_ch1_raw == 0 && t.dc_current_ch2_raw == 0,
    ensures
        ({
            let f = fields@;
            let p = power_num(t.model, t.ac_power_raw as int);
            let q = power_den(t.model);
            let c = t.dc_current_ch1_raw + t.dc_current_ch2_raw;
            &&& c == 0 || p == 0 ==> {
                &&& number_under(f, "dc_voltage_v"@, 0, 1)
                &&& number_under(f, "dc_power_w"@, 0, 1)
                &&& number_under(f, "efficiency_percent"@, 0, 1)
            }
            &&& c > 0 && 0 < 1000 * p <= 5760 * (q * c) ==> {
                &&& number_under(f, "dc_voltage_v"@, 1000 * p, 96 * (q * c))
                &&& number_under(f, "dc_power_w"@, 100 * p, 96 * q)
                &&& number_under(f, "efficiency_percent"@, 96, 1)
            }
            &&& c > 0 && 1000 * p > 5760 * (q * c) ==> {
                &&& number_under(f, "dc_voltage_v"@, 60, 1)
                &&& number_under(f, "dc_power_w"@, 6 * c, 1)
                &&& p <= 6 * (q * c) ==> number_under(
                    f,
                    "efficiency_percent"@,
                    100 * p,
                    6 * (q * c),
                )
                &&& p > 6 * (q * c) ==> number_under(f, "efficiency_percent"@, 100, 1)
            }
        }),
{
    let p = power_num(t.model, t.ac_power_raw as int);
    let q = power_den(t.model);
    let c = t.dc_current_ch1_raw + t.dc_current_ch2_raw;
    let k = q * c;
    let (v, d, e) = (t.dc_voltage(), t.dc_power(), t.efficiency());
    assert(field_views(fields@) == message_of(t));
    lemma_power_scale(t.model, t.ac_power_raw);
    let x = t.ac_power();
    if c > 0 {
        assert(x == p as real / q as real) by (nonlinear_arith)
            requires
                x * (q as real) == p as real,
                q > 0,
        ;
        lemma_reconstruction(p, q, c);
        assert(t.dc_current() == c as real / 10real);
        if p == 0 {
            assert(x == 0real) by (nonlinear_arith)
                requires
                    x == p as real / q as real,
                    p == 0,
                    q > 0,
            ;
            assert((1000 * p) as real / (96 * k) as real == 0real) by (nonlinear_arith)
                requires
                    p == 0,
                    k > 0,
            ;
            assert(v == 0real);
            assert(d == 0real) by (nonlinear_arith)
                requires
                    d == v * t.dc_current(),
                    v == 0real,
            ;
            assert(e == 0real);
        }
    } else {
        assert(v == 0real);
        assert(d == 0real) by (nonlinear_arith)
            requires
                d == v * t.dc_current(),
                v == 0real,
        ;
        assert(e == 0real);
    }
    if c == 0 || p == 0 {
        lemma_exact_number(t, fields, 3, v, 0, 1);
        lemma_exact_number(t, fields, 7, d, 0, 1);
        lemma_exact_number(t, fields, 8, e, 0, 1);
    } else if 1000 * p <= 5760 * k {
        lemma_quotient_number(t, fields, 3, v, 1000 * p, 96 * k);
        lemma_quotient_number(t, fields, 7, d, 100 * p, 96 * q);
        lemma_exact_number(t, fields, 8, e, 96, 1);
    } else {
        lemma_exact_number(t, fields, 3, v, 60, 1);
        lemma_exact_number(t, fields, 7, d, 6 * c, 1);
        if p <= 6 * k {
            lemma_quotient_number(t, fields, 8, e, 100 * p, 6 * k);
        } else {
            lemma_exact_number(t, fields, 8, e, 100, 1);
        }
    }
}

proof fn lemma_exact_number(
    t: NepTelemetry,
    fields: Vec<(&'static str, Field)>,
    j: int,
    reading: real,
    num: int,
    den: int,
)
    requires
        field_views(fields@) == message_of(t),
        0 <= j < 19,
        message_of(t)[j].1 == crate::mqtt::published(reading),
        den > 0,
        reading * (den as real) == num as real,
    ensures
        number_under(fields@, message_of(t)[j].0, num, den),
{
    lemma_nearest_hundredth(reading, num, den);
    lemma_number(t, fields, j, reading, num, den);
}

proof fn lemma_quotient_number(
    t: NepTelemetry,
    fields: Vec<(&'static str, Field)>,
    j: int,
    reading: real,
    num: int,
    den: int,
)
    requires
        field_views(fields@) == message_of(t),
        0 <= j < 19,
        message_of(t)[j].1 == crate::mqtt::published(reading),
        den > 0,
        reading == num as real / den as real,
    ensures
        number_under(fields@, message_of(t)[j].0, num, den),
{
    assert(reading * (den as real) == num as real) by (nonlinear_arith)
        requires
            reading == num as real / den as real,
            den > 0,
    ;
    lemma_exact_number(t, fields, j, reading, num, den);
}

/// Under the keys of the states stand their names, and under that of the status
/// whether the status code is zero.
pub proof fn law_state_keys_hold_the_states(
    t: NepTelemetry,
    fields: Vec<(&'static str, Field)>,
    error: &'static str,
    mode: &'static str,
    version: String,
)
    requires
        call_ensures(telemetry_message, (&t,), fields),
        call_ensures(NepTelemetry::error_state_str, (&t,), error),
        call_ensures(NepTelemetry::operating_mode_str, (&t,), mode),
        call_ensures(NepTelemetry::version, (&t,), version),
    ensures
        t.status_code == 0 ==> text_under(fields@, "status"@, "OK"@),
        t.status_code != 0 ==> text_under(fields@, "status"@, "Error"@),
        text_under(fields@, "error_state"@, error@),
        text_under(fields@, "operating_mode"@, mode@),
        text_under(fields@, "version"@, version@),
{
    lemma_field(t, fields, 15);
    lemma_field(t, fields, 16);
    lemma_field(t, fields, 17);
    lemma_field(t, fields, 18);
    assert(fields@[15].0@ == "status"@);
    assert(fields@[16].0@ == "error_state"@);
    assert(fields@[17].0@ == "operating_mode"@);
    assert(fields@[18].0@ == "version"@);
}

/// From the bytes of an accepted `/t.php` post to the keys of its message: each
/// PV input under its own key, the total power, the voltage, the frequency and
/// the temperature.
pub proof fn law_tphp_post_is_published(
    input: &[u8],
    t: NepTelemetry,
    fields: Vec<(&'static str, Field)>,
)
    requires
        call_ensures(parse_tphp_payload, (input, InverterModel::Bdm1200Lv), Ok(t)),
        call_ensures(telemetry_message, (&t,), fields),
    ensures
        ({
            let b = input@;
            let f = fields@;
            &&& number_under(f, "ac_power_w"@, (b[25] + 0x100 * b[26]) * 10, 256)
            &&& number_under(f, "pv1_power_w"@, (b[43] + 0x100 * b[44]) * 10, 256)
            &&& number_under(f, "pv2_power_w"@, (b[49] + 0x100 * b[50]) * 10, 256)
            &&& number_under(f, "pv3_power_w"@, (b[55] + 0x100 * b[56]) * 10, 256)
            &&& number_under(f, "ac_voltage_v"@, (b[53] + 0x100 * b[54]) * 10, 512)
            &&& number_under(f, "ac_freq_hz"@, b[33] + 0x100 * b[34], 256)
            &&& number_under(f, "temperature_c"@, b[35] + 0x100 * b[36], 100)
            &&& number_under(f, "daily_energy_wh"@, 0, 5)
            &&& number_under(f, "reactive_power_var"@, 0, 100)
            &&& number_under(f, "dc_current_a"@, 0, 10)
            &&& number_under(f, "dc_voltage_v"@, 0, 1)
            &&& number_under(f, "dc_power_w"@, 0, 1)
            &&& number_under(f, "efficiency_percent"@, 0, 1)
        }),
{
    law_tphp_decodes_to_its_bytes(input, InverterModel::Bdm1200Lv, t);
    law_dc_keys_hold_the_reconstruction(t, fields);
    law_each_key_holds_its_word(t, fields);
    law_pv_keys_hold_their_inputs(t, fields);
}

/// From the bytes of an accepted `/i.php` post to the keys of its message.
pub proof fn law_post_is_published(
    input: &[u8],
    model: InverterModel,
    t: NepTelemetry,
    fields: Vec<(&'static str, Field)>,
)
    requires
        call_ensures(parse_payload, (input, model), Ok(t)),
        call_ensures(telemetry_message, (&t,), fields),
    ensures
        ({
            let b = input@;
            let f = fields@;
            let energy = b[37] + 0x100 * b[38];
            let reactive = b[41] + 0x100 * b[42] - if b[42] >= 0x80 {
                0x1_0000int
            } else {
                0
            };
            let power = power_num(model, b[25] + 0x100 * b[26]);
            &&& number_under(f, "ac_power_w"@, power, power_den(model))
            &&& number_under(f, "ac_voltage_v"@, (b[27] + 0x100 * b[28]) * 10, 256)
            &&& number_under(f, "dc_current_ch1_a"@, b[31] as int, 10)
            &&& number_under(f, "dc_current_ch2_a"@, b[32] as int, 10)
            &&& number_under(f, "dc_current_a"@, b[31] + b[32], 10)
            &&& number_under(f, "ac_freq_hz"@, b[33] + 0x100 * b[34], 256)
            &&& number_under(f, "temperature_c"@, b[35] + 0x100 * b[36], 100)
            &&& model == InverterModel::Bdm800 ==> number_under(
                f,
                "daily_energy_wh"@,
                energy * 2308,
                10000,
            )
            &&& model != InverterModel::Bdm800 ==> number_under(f, "daily_energy_wh"@, energy, 5)
            &&& number_under(f, "reactive_power_var"@, reactive, 100)
            &&& number_under(f, "pv1_power_w"@, power_num(model, 0), power_den(model))
            &&& number_under(f, "pv2_power_w"@, power_num(model, 0), power_den(model))
            &&& number_under(f, "pv3_power_w"@, power_num(model, 0), power_den(model))
        }),
{
    law_payload_decodes_to_its_bytes(input, model, t);
    law_each_key_holds_its_word(t, fields);
    law_pv_keys_hold_their_inputs(t, fields);
    assert(t.pv_input_power_raw@[0] == 0 && t.pv_input_power_raw@[1] == 0
        && t.pv_input_power_raw@[2] == 0);
}

/// A telemetry is reported in its own message, to the topic of its serial number
/// in eight hexadecimal digits, at least once and not retained.
pub proof fn law_report_carries_the_message(
    t: NepTelemetry,
    report: Publication,
    fields: Vec<(&'static str, Field)>,
    serial: String,
)
    requires
        call_ensures(telemetry_report, (&t,), report),
        call_ensures(telemetry_message, (&t,), fields),
        call_ensures(hex8, (t.serial_number,), serial),
    ensures
        report.topic@ == "nep/telemetry/"@ + serial@,
        report.qos == 1 && report.qos == AT_LEAST_ONCE,
        !report.retain,
        report.content matches Content::Telemetry(sent) && {
            &&& sent@.len() == fields@.len()
            &&& forall|j: int|
                0 <= j < sent@.len() ==> {
                    &&& (#[trigger] sent@[j]).0@ == fields@[j].0@
                    &&& match (sent@[j].1, fields@[j].1) {
                        (Field::Hundredths(a), Field::Hundredths(b)) => a == b,
                        (Field::Text(a), Field::Text(b)) => a@ == b@,
                        _ => false,
                    }
                }
        },
{
    assert(report.view() == crate::mqtt::report_of(t));
    match report.content {
        Content::Telemetry(sent) => {
            assert(field_views(sent@) == field_views(fields@));
            assert(field_views(sent@).len() == sent@.len());
            assert forall|j: int| 0 <= j < sent@.len() implies {
                &&& (#[trigger] sent@[j]).0@ == fields@[j].0@
                &&& match (sent@[j].1, fields@[j].1) {
                    (Field::Hundredths(a), Field::Hundredths(b)) => a == b,
                    (Field::Text(a), Field::Text(b)) => a@ == b@,
                    _ => false,
                }
            } by {
                assert(field_views(sent@)[j] == (sent@[j].0@, sent@[j].1.view()));
                assert(field_views(fields@)[j] == (fields@[j].0@, fields@[j].1.view()));
            }
        },
        _ => {},
    }
}

} // verus!
