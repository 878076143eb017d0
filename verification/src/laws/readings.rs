//! The readings: fractions and their rounding, the scales of the models, and the
//! physical quantities that the words of a payload stand for.

use vstd::prelude::*;

use crate::model::InverterModel;
use crate::ratio::{in_hundredths, to_hundredths, Ratio};
use crate::telemetry::{NepTelemetry, PayloadFormat};

verus! {

/// Whether `h` is the number of hundredths nearest to `num / den`, the larger
/// one in magnitude where two are as near.
pub open spec fn is_nearest_hundredth(h: int, num: int, den: int) -> bool {
    if num >= 0 {
        2 * den * h <= 200 * num + den < 2 * den * (h + 1)
    } else {
        2 * den * (-h) <= 200 * (-num) + den < 2 * den * (-h + 1)
    }
}

pub(crate) proof fn lemma_nearest_hundredth(x: real, num: int, den: int)
    requires
        den > 0,
        x * (den as real) == num as real,
    ensures
        is_nearest_hundredth(to_hundredths(x), num, den),
{
    let d = den as real;
    let h = to_hundredths(x);
    if num >= 0 {
        assert(x >= 0real) by (nonlinear_arith)
            requires
                x * d == num as real,
                d > 0real,
                num >= 0,
        ;
        lemma_scaled_floor(x, num, den, h);
    } else {
        assert(x < 0real) by (nonlinear_arith)
            requires
                x * d == num as real,
                d > 0real,
                num < 0,
        ;
        assert((-x) * d == (-num) as real) by (nonlinear_arith)
            requires
                x * d == num as real,
        ;
        assert((-x) * 100real == -(x * 100real));
        lemma_scaled_floor(-x, -num, den, -h);
    }
}

proof fn lemma_scaled_floor(x: real, num: int, den: int, h: int)
    requires
        den > 0,
        x * (den as real) == num as real,
        h == (x * 100real + 1real / 2real).floor(),
    ensures
        2 * den * h <= 200 * num + den < 2 * den * (h + 1),
{
    let d = den as real;
    let y = x * 100real + 1real / 2real;
    assert(h as real <= y < h as real + 1real);
    assert(2real * d * y == 200real * (num as real) + d) by (nonlinear_arith)
        requires
            y == x * 100real + 1real / 2real,
            x * d == num as real,
    ;
    assert(2real * d * (h as real) <= 2real * d * y) by (nonlinear_arith)
        requires
            d > 0real,
            h as real <= y,
    ;
    assert(2real * d * y < 2real * d * (h as real + 1real)) by (nonlinear_arith)
        requires
            d > 0real,
            y < h as real + 1real,
    ;
    assert((2 * den * h) as real == 2real * d * (h as real)) by (nonlinear_arith)
        requires
            d == den as real,
    ;
    assert((2 * den * (h + 1)) as real == 2real * d * (h as real + 1real)) by (nonlinear_arith)
        requires
            d == den as real,
    ;
}

/// A fraction that is made of two numbers is their quotient, and is read as it.
pub proof fn law_ratio_is_a_quotient(num: i128, den: i128, r: Ratio, n: i128, d: i128)
    requires
        call_ensures(Ratio::new, (num, den), r),
        call_ensures(Ratio::numerator, (&r,), n),
        call_ensures(Ratio::denominator, (&r,), d),
    ensures
        d > 0,
        n * den == num * d,
        r.value() * (d as real) == n as real,
{
    let (x, y) = (n as real, d as real);
    assert(x / y * y == x) by (nonlinear_arith)
        requires
            y > 0real,
    ;
}

/// The hundredths of a fraction are the nearest ones, ties going away from zero;
/// rounding a fraction gives as many hundredths.
pub proof fn law_hundredths_are_nearest(r: Ratio, n: i128, d: i128, h: i128, s: Ratio)
    requires
        call_ensures(Ratio::numerator, (&r,), n),
        call_ensures(Ratio::denominator, (&r,), d),
        call_ensures(Ratio::hundredths, (&r,), h),
        call_ensures(Ratio::rounded, (&r,), s),
    ensures
        is_nearest_hundredth(h as int, n as int, d as int),
        s.value() * 100real == h as real,
{
    let (x, y) = (n as real, d as real);
    assert(x / y * y == x) by (nonlinear_arith)
        requires
            y > 0real,
    ;
    lemma_nearest_hundredth(r.value(), n as int, d as int);
}

/// The scales of the models: what a reading in Watts, Watt-hours or Volts has to
/// be multiplied by to give the word that it was read from.
pub proof fn law_scales_divide_the_word(
    model: InverterModel,
    raw: u16,
    watts: Ratio,
    watt_hours: Ratio,
    volts: Ratio,
)
    requires
        call_ensures(InverterModel::scale_power_w, (model, raw), watts),
        call_ensures(InverterModel::scale_energy_wh, (model, raw), watt_hours),
        call_ensures(InverterModel::scale_voltage_v, (model, raw), volts),
    ensures
        match model {
            InverterModel::Bdm400 => watts.value() * 100real == raw as real,
            // pi is 3.141592653589793115997963..., the nearest double-precision number.
            InverterModel::Bdm800 => watts.value() * 25real * 884279719003555real
                == raw as real * 281474976710656real,
            InverterModel::Bdm1200Lv => watts.value() * 256real == raw as real * 10real,
        },
        match model {
            InverterModel::Bdm800 => watt_hours.value() * 10000real == raw as real * 2308real,
            _ => watt_hours.value() * 5real == raw as real,
        },
        match model {
            InverterModel::Bdm1200Lv => volts.value() * 512real == raw as real * 10real,
            _ => volts.value() * 256real == raw as real * 10real,
        },
{
    lemma_power_scale(model, raw);
    let x = watts.value();
    assert(x * 25real * 884279719003555real == x * (25real * 884279719003555real));
}

/// The AC power of a word, as a fraction: `power_num / power_den`.
pub open spec fn power_num(model: InverterModel, raw: int) -> int {
    match model {
        InverterModel::Bdm400 => raw,
        InverterModel::Bdm800 => raw * 281474976710656,
        InverterModel::Bdm1200Lv => raw * 10,
    }
}

pub open spec fn power_den(model: InverterModel) -> int {
    match model {
        InverterModel::Bdm400 => 100,
        InverterModel::Bdm800 => 25int * 884279719003555int,
        InverterModel::Bdm1200Lv => 256,
    }
}

pub(crate) proof fn lemma_power_scale(model: InverterModel, raw: u16)
    ensures
        model.power_w(raw) * (power_den(model) as real) == power_num(model, raw as int) as real,
        power_den(model) > 0,
{
    let r = raw as real;
    let x = model.power_w(raw);
    match model {
        InverterModel::Bdm400 => {
            assert(x * 100real == r);
        },
        InverterModel::Bdm800 => {
            let n = 884279719003555real;
            let d = 281474976710656real;
            assert(x == r / (25real * (n / d)));
            assert(x * (25real * n) == r * d) by (nonlinear_arith)
                requires
                    x == r / (25real * (n / d)),
                    n == 884279719003555real,
                    d == 281474976710656real,
            ;
            assert(25real * n == power_den(model) as real);
        },
        InverterModel::Bdm1200Lv => {
            assert(x * 256real == r * 10real);
        },
    }
}

/// Whether a reading is `num / den`: exactly so in the payload of `/i.php`, and
/// as the nearest hundredth in that of `/t.php`.
pub open spec fn reads_as(format: PayloadFormat, reading: real, num: int, den: int) -> bool {
    match format {
        PayloadFormat::Iphp => reading * (den as real) == num as real,
        PayloadFormat::Tphp => exists|h: int| #[trigger]
            is_nearest_hundredth(h, num, den) && reading * 100real == h as real,
    }
}

proof fn lemma_kept(t: NepTelemetry, x: real, num: int, den: int)
    requires
        den > 0,
        x * (den as real) == num as real,
    ensures
        reads_as(t.format, t.kept(x), num, den),
{
    lemma_nearest_hundredth(x, num, den);
    assert(in_hundredths(x) * 100real == to_hundredths(x) as real);
}

/// The readings of the AC side, in the units of their words: power by the scale
/// of the model; voltage in 10/256 V, but 10/512 V in the `/t.php` payload of a
/// BDM-1200-LV; frequency in 1/256 Hz.
pub proof fn law_ac_readings(t: NepTelemetry, power: Ratio, voltage: Ratio, freq: Ratio)
    requires
        call_ensures(NepTelemetry::ac_power_w, (&t,), power),
        call_ensures(NepTelemetry::ac_voltage_v, (&t,), voltage),
        call_ensures(NepTelemetry::ac_freq_hz, (&t,), freq),
    ensures
        reads_as(
            t.format,
            power.value(),
            power_num(t.model, t.ac_power_raw as int),
            power_den(t.model),
        ),
        reads_as(
            t.format,
            voltage.value(),
            t.ac_voltage_raw * 10,
            if t.format == PayloadFormat::Tphp && t.model == InverterModel::Bdm1200Lv {
                512
            } else {
                256
            },
        ),
        reads_as(t.format, freq.value(), t.ac_freq_raw as int, 256),
{
    lemma_power_scale(t.model, t.ac_power_raw);
    lemma_kept(
        t,
        t.model.power_w(t.ac_power_raw),
        power_num(t.model, t.ac_power_raw as int),
        power_den(t.model),
    );
    let v = t.ac_voltage_raw;
    assert(v as real / (256real / 10real) * 256real == (v * 10) as real);
    assert(v as real / (512real / 10real) * 512real == (v * 10) as real);
    match t.format {
        PayloadFormat::Iphp => {},
        PayloadFormat::Tphp => {
            if t.model == InverterModel::Bdm1200Lv {
                lemma_kept(t, t.model.voltage_v(v), v * 10, 512);
            } else {
                lemma_kept(t, t.model.voltage_v(v), v * 10, 256);
            }
        },
    }
    lemma_kept(t, t.ac_freq_raw as real / 256real, t.ac_freq_raw as int, 256);
}

/// The other measured readings: currents in tenths of an Ampere, which add up;
/// temperature and reactive power in hundredths; energy in fifths of a
/// Watt-hour, but 0.2308 Wh on the BDM-800.
pub proof fn law_measured_readings(
    t: NepTelemetry,
    ch1: Ratio,
    ch2: Ratio,
    total: Ratio,
    temp: Ratio,
    reactive: Ratio,
    energy: Ratio,
)
    requires
        call_ensures(NepTelemetry::dc_current_ch1_a, (&t,), ch1),
        call_ensures(NepTelemetry::dc_current_ch2_a, (&t,), ch2),
        call_ensures(NepTelemetry::dc_current_a, (&t,), total),
        call_ensures(NepTelemetry::temp_c, (&t,), temp),
        call_ensures(NepTelemetry::reactive_power_var, (&t,), reactive),
        call_ensures(NepTelemetry::daily_energy_wh, (&t,), energy),
    ensures
        ch1.value() * 10real == t.dc_current_ch1_raw as real,
        ch2.value() * 10real == t.dc_current_ch2_raw as real,
        total.value() == ch1.value() + ch2.value(),
        temp.value() * 100real == t.temp_raw as real,
        reactive.value() * 100real == t.reactive_power_raw as real,
        t.model == InverterModel::Bdm800 ==> energy.value() * 10000real == t.daily_energy_raw as real
            * 2308real,
        t.model != InverterModel::Bdm800 ==> energy.value() * 5real == t.daily_energy_raw as real,
{
    let x = t.temp_raw as real / 100real;
    assert(x * 100real == t.temp_raw as real);
    assert(to_hundredths(x) == t.temp_raw);
}

/// The AC power of each PV input is that of its own word, by the scale of the
/// model.
pub proof fn law_pv_input_readings(t: NepTelemetry, pv: [Ratio; 3], i: int)
    requires
        call_ensures(NepTelemetry::pv_input_power_w, (&t,), pv),
        0 <= i < 3,
    ensures
        reads_as(
            t.format,
            pv@[i].value(),
            power_num(t.model, t.pv_input_power_raw@[i] as int),
            power_den(t.model),
        ),
{
    let raw = t.pv_input_power_raw@[i];
    lemma_power_scale(t.model, raw);
    lemma_kept(t, t.model.power_w(raw), power_num(t.model, raw as int), power_den(t.model));
}

/// The DC side is reconstructed from the AC power and the currents of both
/// channels together, whatever each of them is: the voltage is such that 96 % of
/// it times the total current is the AC power, unless that took more than 60 V;
/// then it is 60 V. The DC power is the voltage times the total current. The
/// efficiency is what the AC power is of the DC power, in percent and at most 100.
pub proof fn law_dc_side_is_reconstructed(
    t: NepTelemetry,
    ac_power: Ratio,
    voltage: Ratio,
    dc_power: Ratio,
    efficiency: Ratio,
)
    requires
        call_ensures(NepTelemetry::ac_power_w, (&t,), ac_power),
        call_ensures(NepTelemetry::dc_voltage_v, (&t,), voltage),
        call_ensures(NepTelemetry::dc_power_w, (&t,), dc_power),
        call_ensures(NepTelemetry::efficiency_percent, (&t,), efficiency),
    ensures
        ({
            let amperes = (t.dc_current_ch1_raw + t.dc_current_ch2_raw) as real / 10real;
            let limit = 96real / 100real * 60real * amperes;
            let watts = ac_power.value();
            &&& amperes == 0real ==> voltage.value() == 0real
            &&& amperes > 0real && watts <= limit ==> voltage.value() * (96real / 100real)
                * amperes == watts
            &&& amperes > 0real && watts > limit ==> voltage.value() == 60real
            &&& dc_power.value() == voltage.value() * amperes
            &&& dc_power.value() == 0real ==> efficiency.value() == 0real
            &&& dc_power.value() > 0real && watts <= dc_power.value() ==> efficiency.value()
                * dc_power.value() == 100real * watts
            &&& dc_power.value() > 0real && watts > dc_power.value() ==> efficiency.value()
                == 100real
            &&& dc_power.value() >= 0real
        }),
{
    let amperes = (t.dc_current_ch1_raw + t.dc_current_ch2_raw) as real / 10real;
    let watts = ac_power.value();
    let v = voltage.value();
    let d = dc_power.value();
    assert(t.dc_current() == amperes);
    crate::telemetry::law_dc_voltage_is_limited(t);
    assert(d >= 0real) by (nonlinear_arith)
        requires
            d == v * amperes,
            v >= 0real,
            amperes >= 0real,
    ;
    if amperes > 0real {
        let k = 96real / 100real * amperes;
        let u = watts / k;
        assert(u * k == watts) by (nonlinear_arith)
            requires
                u == watts / k,
                k > 0real,
        ;
        assert(u <= 60real <==> watts <= 96real / 100real * 60real * amperes) by (nonlinear_arith)
            requires
                u * k == watts,
                k == 96real / 100real * amperes,
                k > 0real,
        ;
        assert(u * (96real / 100real) * amperes == watts) by (nonlinear_arith)
            requires
                u * k == watts,
                k == 96real / 100real * amperes,
        ;
    }
    if d > 0real {
        let q = watts / d;
        assert(q * d == watts) by (nonlinear_arith)
            requires
                q == watts / d,
                d > 0real,
        ;
        assert(q * 100real <= 100real <==> watts <= d) by (nonlinear_arith)
            requires
                q * d == watts,
                d > 0real,
        ;
        assert(q * 100real * d == 100real * watts) by (nonlinear_arith)
            requires
                q * d == watts,
        ;
    }
}

/// The firmware version is the high byte of its word, written in hundredths with
/// three digits; a `/t.php` payload has none.
pub proof fn law_version_spells_the_firmware_byte(t: NepTelemetry, text: String)
    requires
        call_ensures(NepTelemetry::version, (&t,), text),
    ensures
        t.format == PayloadFormat::Tphp ==> text@.len() == 0,
        t.format == PayloadFormat::Iphp ==> {
            &&& text@.len() == 4 && text@[1] == '.'
            &&& '0' <= text@[0] <= '9' && '0' <= text@[2] <= '9' && '0' <= text@[3] <= '9'
            &&& (text@[0] as int - 48) * 100 + (text@[2] as int - 48) * 10 + (text@[3] as int - 48)
                == t.version_raw / 256
        },
{
    reveal_strlit(".");
}

/// The names of the states by their codes: the error state by the status code,
/// the operating mode by the low byte of the version word and the model.
pub proof fn law_states_are_named(t: NepTelemetry, error: &'static str, mode: &'static str)
    requires
        call_ensures(NepTelemetry::error_state_str, (&t,), error),
        call_ensures(NepTelemetry::operating_mode_str, (&t,), mode),
    ensures
        t.status_code == 0 ==> error@ == "OK"@,
        t.status_code == 0x20 ==> error@ == "Grid Loss / Islanding"@,
        t.status_code == 0x04 ==> error@ == "Anti-Islanding Reconnection Sync Timer"@,
        t.status_code != 0 && t.status_code != 0x20 && t.status_code != 0x04 ==> error@
            == "Unknown Error"@,
        ({
            let low = t.version_raw % 256;
            &&& low == 1 ==> mode@ == "Deep Sleep"@
            &&& low == 4 && t.model == InverterModel::Bdm400 ==> mode@ == "Active Standby"@
            &&& low == 4 && t.model != InverterModel::Bdm400 ==> mode@ == "Awake Standby"@
            &&& low == 5 && t.model == InverterModel::Bdm800 ==> mode@ == "Generating"@
            &&& low == 5 && t.model != InverterModel::Bdm800 ==> mode@ == "Active Standby"@
            &&& low == 6 ==> mode@ == "Generating"@
            &&& low == 0 || low == 2 || low == 3 || low > 6 ==> mode@ == "Unknown State"@
        }),
{
}

} // verus!
