//! Decoded telemetry: the words of one payload, and the physical readings
//! that they stand for.

use vstd::prelude::*;

use crate::model::{lemma_pi_exceeds_one, lemma_scales_shrink, pi, InverterModel};
use crate::ratio::{
    in_hundredths, law_rounding_error, law_rounding_is_monotonic, to_hundredths, Ratio,
};
use crate::text::{decimal, push_decimal, push_two_digits, two_digits};

verus! {

/// The endpoint whose payload was decoded.
#[derive(Debug, Clone, Copy, PartialEq, Eq, Structural)]
pub enum PayloadFormat {
    /// The 45-byte payload of `/i.php`, whose readings are kept exact.
    Iphp,
    /// The 69-byte payload of `/t.php`, whose readings are rounded to hundredths.
    Tphp,
}

/// The words of one telemetry payload. Words that a payload format does not
/// carry are zero.
#[derive(Debug, Clone, Copy, PartialEq, Eq)]
pub struct NepTelemetry {
    /// Model whose scales decode this payload.
    pub model: InverterModel,
    pub format: PayloadFormat,
    pub serial_number: u32,
    pub status_code: u16,
    pub ac_power_raw: u16,
    /// An internal voltage measurement, not grid RMS voltage: on the BDM-800 it
    /// rests at half the peak voltage when idle and droops with output power;
    /// on the BDM-1200-LV it changes with the active PV input.
    pub ac_voltage_raw: u16,
    pub operating_flags: u16,
    /// MPPT channel 1. Always 0 on the single-input BDM-400.
    pub dc_current_ch1_raw: u8,
    /// MPPT channel 2. The single string on the BDM-400.
    pub dc_current_ch2_raw: u8,
    pub ac_freq_raw: u16,
    pub temp_raw: u16,
    pub daily_energy_raw: u16,
    /// The firmware version in the high byte, the operating state in the low one.
    pub version_raw: u16,
    pub reactive_power_raw: i16,
    /// AC power of each PV input of the BDM-1200-LV.
    pub pv_input_power_raw: [u16; 3],
}

pub open spec fn min_real(x: real, y: real) -> real {
    if x <= y {
        x
    } else {
        y
    }
}

/// The error state that a status code stands for.
pub open spec fn error_state(status_code: u16) -> Seq<char> {
    if status_code == 0x0000 {
        "OK"@
    } else if status_code == 0x0020 {
        "Grid Loss / Islanding"@
    } else if status_code == 0x0004 {
        "Anti-Islanding Reconnection Sync Timer"@
    } else {
        "Unknown Error"@
    }
}

/// The operating mode that the low byte of the version word stands for. The
/// mode byte is model-specific: a BDM-400 emits 4 in active standby, with its
/// relay closed and no solar input; a BDM-800 emits 5 while generating at full
/// power, where on the BDM-400 it was only seen during a grid event.
pub open spec fn operating_mode(model: InverterModel, low_byte: int) -> Seq<char> {
    if low_byte == 0x01 {
        "Deep Sleep"@
    } else if low_byte == 0x04 {
        if model == InverterModel::Bdm400 {
            "Active Standby"@
        } else {
            "Awake Standby"@
        }
    } else if low_byte == 0x05 && model != InverterModel::Bdm800 {
        "Active Standby"@
    } else if low_byte == 0x05 || low_byte == 0x06 {
        "Generating"@
    } else {
        "Unknown State"@
    }
}

/// The readings, as exact numbers.
impl NepTelemetry {
    /// What is kept of a reading in the payload's format.
    pub open spec fn kept(self, reading: real) -> real {
        match self.format {
            PayloadFormat::Iphp => reading,
            PayloadFormat::Tphp => in_hundredths(reading),
        }
    }

    /// AC power in Watts.
    pub open spec fn ac_power(self) -> real {
        self.kept(self.model.power_w(self.ac_power_raw))
    }

    /// Internal voltage in Volts.
    pub open spec fn ac_voltage(self) -> real {
        match self.format {
            PayloadFormat::Iphp => self.ac_voltage_raw as real / (256real / 10real),
            PayloadFormat::Tphp => in_hundredths(self.model.voltage_v(self.ac_voltage_raw)),
        }
    }

    /// DC input current of MPPT channel 1 in Amperes.
    pub open spec fn dc_current_ch1(self) -> real {
        self.dc_current_ch1_raw as real / 10real
    }

    /// DC input current of MPPT channel 2 in Amperes.
    pub open spec fn dc_current_ch2(self) -> real {
        self.dc_current_ch2_raw as real / 10real
    }

    /// Total DC input current in Amperes.
    pub open spec fn dc_current(self) -> real {
        self.dc_current_ch1() + self.dc_current_ch2()
    }

    /// Grid frequency in Hertz.
    pub open spec fn ac_freq(self) -> real {
        self.kept(self.ac_freq_raw as real / 256real)
    }

    /// DSP temperature in degrees Celsius.
    pub open spec fn temp(self) -> real {
        self.kept(self.temp_raw as real / 100real)
    }

    /// Daily energy in Watt-hours.
    pub open spec fn daily_energy(self) -> real {
        self.model.energy_wh(self.daily_energy_raw)
    }

    /// Reactive power in VAR.
    pub open spec fn reactive_power(self) -> real {
        self.reactive_power_raw as real / 100real
    }

    /// AC power of the PV input `i` in Watts, counted from 0.
    pub open spec fn pv_input_power(self, i: int) -> real {
        self.kept(self.model.power_w(self.pv_input_power_raw@[i]))
    }

    /// DC voltage in Volts. The payload does not carry it; it is reconstructed
    /// from a typical inverter efficiency of 96 %, and never above 60 V.
    pub open spec fn dc_voltage(self) -> real {
        if self.dc_current() > 5real / 100real {
            min_real(self.ac_power() / (96real / 100real * self.dc_current()), 60real)
        } else {
            0real
        }
    }

    /// DC power in Watts.
    pub open spec fn dc_power(self) -> real {
        self.dc_voltage() * self.dc_current()
    }

    /// AC power as a percentage of the DC power, never above 100.
    pub open spec fn efficiency(self) -> real {
        if self.dc_power() > 0real {
            min_real(self.ac_power() / self.dc_power() * 100real, 100real)
        } else {
            0real
        }
    }

    /// The firmware version as text: the high byte of the version word, in
    /// hundredths. A `/t.php` payload carries none.
    pub open spec fn version_text(self) -> Seq<char> {
        let firmware = (self.version_raw / 256) as nat;
        match self.format {
            PayloadFormat::Iphp => decimal(firmware / 100) + "."@ + two_digits(firmware % 100),
            PayloadFormat::Tphp => Seq::empty(),
        }
    }
}

impl NepTelemetry {
    /// Keeps a reading as the payload's format does.
    fn keep(&self, reading: Ratio) -> (r: Ratio)
        requires
            0real <= reading.value() <= 65535real,
        ensures
            r.value() == self.kept(reading.value()),
            self.format == PayloadFormat::Iphp ==> r == reading,
            self.format == PayloadFormat::Tphp ==> 0 <= r.spec_num() <= 6553500 && r.spec_den()
                == 100,
    {
        match self.format {
            PayloadFormat::Iphp => reading,
            PayloadFormat::Tphp => {
                assert(0 <= to_hundredths(reading.value()) <= 6553500);
                reading.rounded()
            },
        }
    }

    /// AC power in Watts.
    pub fn ac_power_w(&self) -> (r: Ratio)
        ensures
            r.value() == self.ac_power(),
            0 <= r.spec_num() <= 0x1_0000_0000_0000_0000,
            r.spec_den() <= 0x80_0000_0000_0000,
    {
        proof {
            lemma_scales_shrink(self.model, self.ac_power_raw);
        }
        self.keep(self.model.scale_power_w(self.ac_power_raw))
    }

    /// Internal voltage in Volts; see [`NepTelemetry::ac_voltage_raw`].
    pub fn ac_voltage_v(&self) -> (r: Ratio)
        ensures
            r.value() == self.ac_voltage(),
    {
        match self.format {
            PayloadFormat::Iphp => Ratio::new(self.ac_voltage_raw as i128 * 5, 128),
            PayloadFormat::Tphp => {
                proof {
                    lemma_scales_shrink(self.model, self.ac_voltage_raw);
                }
                self.keep(self.model.scale_voltage_v(self.ac_voltage_raw))
            },
        }
    }

    /// DC input current of MPPT channel 1 in Amperes.
    pub fn dc_current_ch1_a(&self) -> (r: Ratio)
        ensures
            r.value() == self.dc_current_ch1(),
    {
        Ratio::new(self.dc_current_ch1_raw as i128, 10)
    }

    /// DC input current of MPPT channel 2 in Amperes.
    pub fn dc_current_ch2_a(&self) -> (r: Ratio)
        ensures
            r.value() == self.dc_current_ch2(),
    {
        Ratio::new(self.dc_current_ch2_raw as i128, 10)
    }

    /// Total DC input current in Amperes (sum of both MPPT channels).
    pub fn dc_current_a(&self) -> (r: Ratio)
        ensures
            r.value() == self.dc_current(),
    {
        Ratio::new(self.dc_current_ch1_raw as i128 + self.dc_current_ch2_raw as i128, 10)
    }

    /// Grid frequency in Hertz.
    pub fn ac_freq_hz(&self) -> (r: Ratio)
        ensures
            r.value() == self.ac_freq(),
    {
        self.keep(Ratio::new(self.ac_freq_raw as i128, 256))
    }

    /// DSP temperature in degrees Celsius.
    pub fn temp_c(&self) -> (r: Ratio)
        ensures
            r.value() == self.temp(),
    {
        self.keep(Ratio::new(self.temp_raw as i128, 100))
    }

    /// Daily energy in Watt-hours.
    pub fn daily_energy_wh(&self) -> (r: Ratio)
        ensures
            r.value() == self.daily_energy(),
    {
        self.model.scale_energy_wh(self.daily_energy_raw)
    }

    /// Reactive power in VAR, signed.
    pub fn reactive_power_var(&self) -> (r: Ratio)
        ensures
            r.value() == self.reactive_power(),
    {
        Ratio::new(self.reactive_power_raw as i128, 100)
    }

    /// AC power of each PV input in Watts (index 0 = input 1). They sum to the
    /// AC power on the BDM-1200-LV and are zero on the `/i.php` models.
    pub fn pv_input_power_w(&self) -> (r: [Ratio; 3])
        ensures
            forall|i: int| 0 <= i < 3 ==> (#[trigger] r@[i]).value() == self.pv_input_power(i),
    {
        let raw = self.pv_input_power_raw;
        proof {
            lemma_scales_shrink(self.model, raw@[0]);
            lemma_scales_shrink(self.model, raw@[1]);
            lemma_scales_shrink(self.model, raw@[2]);
        }
        [
            self.keep(self.model.scale_power_w(raw[0])),
            self.keep(self.model.scale_power_w(raw[1])),
            self.keep(self.model.scale_power_w(raw[2])),
        ]
    }

    /// DC voltage in Volts, reconstructed.
    pub fn dc_voltage_v(&self) -> (r: Ratio)
        ensures
            r.value() == self.dc_voltage(),
    {
        let c: i128 = self.dc_current_ch1_raw as i128 + self.dc_current_ch2_raw as i128;
        if c == 0 {
            return Ratio::new(0, 1);
        }
        let power = self.ac_power_w();
        let n: i128 = power.numerator();
        let d: i128 = power.denominator();
        proof {
            lemma_reconstruction(n as int, d as int, c as int);
        }
        let k: i128 = d * c;
        if 1000 * n <= 5760 * k {
            Ratio::new(1000 * n, 96 * k)
        } else {
            Ratio::new(60, 1)
        }
    }

    /// DC power in Watts, reconstructed.
    pub fn dc_power_w(&self) -> (r: Ratio)
        ensures
            r.value() == self.dc_power(),
    {
        let c: i128 = self.dc_current_ch1_raw as i128 + self.dc_current_ch2_raw as i128;
        if c == 0 {
            return Ratio::new(0, 1);
        }
        let power = self.ac_power_w();
        let n: i128 = power.numerator();
        let d: i128 = power.denominator();
        proof {
            lemma_reconstruction(n as int, d as int, c as int);
        }
        let k: i128 = d * c;
        if 1000 * n <= 5760 * k {
            Ratio::new(100 * n, 96 * d)
        } else {
            Ratio::new(6 * c, 1)
        }
    }

    /// Inverter efficiency in percent, reconstructed.
    pub fn efficiency_percent(&self) -> (r: Ratio)
        ensures
            r.value() == self.efficiency(),
    {
        let c: i128 = self.dc_current_ch1_raw as i128 + self.dc_current_ch2_raw as i128;
        if c == 0 {
            return Ratio::new(0, 1);
        }
        let power = self.ac_power_w();
        let n: i128 = power.numerator();
        let d: i128 = power.denominator();
        proof {
            lemma_reconstruction(n as int, d as int, c as int);
        }
        let k: i128 = d * c;
        if n == 0 {
            Ratio::new(0, 1)
        } else if 1000 * n <= 5760 * k {
            Ratio::new(96, 1)
        } else if 100 * n <= 600 * k {
            Ratio::new(100 * n, 6 * k)
        } else {
            Ratio::new(100, 1)
        }
    }

    /// Decodes the status code into a human-readable error state.
    pub fn error_state_str(&self) -> (s: &'static str)
        ensures
            s@ == error_state(self.status_code),
    {
        match self.status_code {
            0x0000 => "OK",
            0x0020 => "Grid Loss / Islanding",
            0x0004 => "Anti-Islanding Reconnection Sync Timer",
            _ => "Unknown Error",
        }
    }

    /// Decodes the low byte of the version word into a human-readable operating mode.
    pub fn operating_mode_str(&self) -> (s: &'static str)
        ensures
            s@ == operating_mode(self.model, self.version_raw as int % 256),
    {
        let low: u16 = self.version_raw % 256;
        match (self.model, low) {
            (InverterModel::Bdm400, 0x04) => "Active Standby",
            (InverterModel::Bdm800, 0x05) => "Generating",
            (_, 0x01) => "Deep Sleep",
            (_, 0x04) => "Awake Standby",
            (_, 0x05) => "Active Standby",
            (_, 0x06) => "Generating",
            _ => "Unknown State",
        }
    }

    /// The firmware version as text.
    pub fn version(&self) -> (text: String)
        ensures
            text@ == self.version_text(),
    {
        let mut out = String::new();
        match self.format {
            PayloadFormat::Iphp => {
                let firmware: u64 = (self.version_raw / 256) as u64;
                push_decimal(&mut out, firmware / 100);
                out.append(".");
                push_two_digits(&mut out, firmware % 100);
            },
            PayloadFormat::Tphp => {},
        }
        out
    }
}

/// The reconstructed DC side, for an AC power of `n / d` Watts and a DC current
/// of `c` tenths of an Ampere.
pub(crate) proof fn lemma_reconstruction(n: int, d: int, c: int)
    requires
        0 <= n <= 0x1_0000_0000_0000_0000,
        0 < d <= 0x80_0000_0000_0000,
        0 < c <= 510,
    ensures
        0 < d * c <= 0x1_0000_0000_0000_0000,
        ({
            let k = d * c;
            let power = n as real / d as real;
            let current = c as real / 10real;
            let voltage = power / (96real / 100real * current);
            let dc_power = min_real(voltage, 60real) * current;
            &&& voltage == (1000 * n) as real / (96 * k) as real
            &&& voltage <= 60real <==> 1000 * n <= 5760 * k
            &&& 1000 * n <= 5760 * k ==> dc_power == (100 * n) as real / (96 * d) as real
            &&& 1000 * n > 5760 * k ==> dc_power == (6 * c) as real
            &&& dc_power > 0real <==> n > 0
            &&& 0 < n && 1000 * n <= 5760 * k ==> power / dc_power * 100real == 96real
            &&& 1000 * n > 5760 * k ==> power / dc_power * 100real == (100 * n) as real / (6
                * k) as real
            &&& 1000 * n > 5760 * k ==> (power / dc_power * 100real <= 100real <==> 100 * n <= 600
                * k)
        }),
{
    let k = d * c;
    let (nr, dr, cr, kr) = (n as real, d as real, c as real, k as real);
    assert(0 < k <= 0x1_0000_0000_0000_0000) by (nonlinear_arith)
        requires
            k == d * c,
            0 < d <= 0x80_0000_0000_0000,
            0 < c <= 510,
    ;
    assert(kr == dr * cr) by (nonlinear_arith)
        requires
            k == d * c,
            kr == k as real,
            dr == d as real,
            cr == c as real,
    ;
    let power = nr / dr;
    let current = cr / 10real;
    let divisor = 96real / 100real * current;
    let voltage = power / divisor;
    lemma_divide(nr, dr);
    lemma_divide(power, divisor);
    assert(voltage * (96real * kr) == 1000real * nr) by (nonlinear_arith)
        requires
            kr == dr * cr,
            power * dr == nr,
            voltage * (96real / 100real * (cr / 10real)) == power,
    ;
    lemma_quotient_is_unique(voltage, 1000real * nr, 96real * kr);
    assert(voltage <= 60real <==> 1000real * nr <= 60real * (96real * kr)) by (nonlinear_arith)
        requires
            voltage * (96real * kr) == 1000real * nr,
            kr > 0real,
    ;
    if 1000 * n <= 5760 * k {
        let dc_power = voltage * current;
        assert(dc_power * (96real * dr) == 100real * nr) by (nonlinear_arith)
            requires
                dc_power == voltage * (cr / 10real),
                power * dr == nr,
                voltage * (96real / 100real * (cr / 10real)) == power,
        ;
        lemma_quotient_is_unique(dc_power, 100real * nr, 96real * dr);
        assert(dc_power > 0real <==> nr > 0real) by (nonlinear_arith)
            requires
                dc_power * (96real * dr) == 100real * nr,
                dr > 0real,
        ;
        if n > 0 {
            assert(power == 96real / 100real * dc_power) by (nonlinear_arith)
                requires
                    dc_power == voltage * (cr / 10real),
                    voltage * (96real / 100real * (cr / 10real)) == power,
            ;
            lemma_quotient_is_unique(96real / 100real, power, dc_power);
        }
    } else {
        let dc_power = 60real * current;
        let share = power / dc_power;
        lemma_divide(power, dc_power);
        assert(share * 100real * (6real * kr) == 100real * nr) by (nonlinear_arith)
            requires
                kr == dr * cr,
                power * dr == nr,
                share * (6real * cr) == power,
        ;
        lemma_quotient_is_unique(share * 100real, 100real * nr, 6real * kr);
        assert(share * 100real <= 100real <==> 100real * nr <= 100real * (6real * kr))
            by (nonlinear_arith)
            requires
                share * 100real * (6real * kr) == 100real * nr,
                kr > 0real,
        ;
    }
}

proof fn lemma_divide(a: real, b: real)
    requires
        b > 0real,
    ensures
        a / b * b == a,
{
    assert(a / b * b == a) by (nonlinear_arith)
        requires
            b > 0real,
    ;
}

proof fn lemma_quotient_is_unique(q: real, a: real, b: real)
    requires
        b > 0real,
        q * b == a,
    ensures
        q == a / b,
{
    assert(q == a / b) by (nonlinear_arith)
        requires
            b > 0real,
            q * b == a,
    ;
}

/// The AC power is never negative.
proof fn lemma_power_is_not_negative(t: NepTelemetry)
    ensures
        t.ac_power() >= 0real,
{
    lemma_scales_shrink(t.model, t.ac_power_raw);
    law_rounding_is_monotonic(0real, t.model.power_w(t.ac_power_raw));
}

/// The reconstructed DC voltage lies between 0 and the 60 V input limit.
pub proof fn law_dc_voltage_is_limited(t: NepTelemetry)
    ensures
        0real <= t.dc_voltage() <= 60real,
{
    lemma_power_is_not_negative(t);
    let power = t.ac_power();
    let divisor = 96real / 100real * t.dc_current();
    if t.dc_current() > 5real / 100real {
        assert(power / divisor >= 0real) by (nonlinear_arith)
            requires
                power >= 0real,
                divisor > 0real,
        ;
    }
}

/// Below the voltage limit, the AC power is 96 % of the reconstructed DC power.
pub proof fn law_dc_power_balances(t: NepTelemetry)
    requires
        t.dc_current() > 0real,
        t.dc_voltage() < 60real,
    ensures
        t.ac_power() == 96real / 100real * t.dc_power(),
{
    let (power, current, voltage) = (t.ac_power(), t.dc_current(), t.dc_voltage());
    lemma_divide(power, 96real / 100real * current);
    assert(power == 96real / 100real * (voltage * current)) by (nonlinear_arith)
        requires
            voltage * (96real / 100real * current) == power,
    ;
}

/// The reconstructed efficiency is 0 where no DC power is seen, and otherwise
/// lies between 96 and 100 percent.
pub proof fn law_efficiency_is_limited(t: NepTelemetry)
    ensures
        t.efficiency() == 0real || 96real <= t.efficiency() <= 100real,
        t.efficiency() == 0real <==> t.dc_power() == 0real,
{
    law_dc_voltage_is_limited(t);
    let (power, current, voltage, dc_power) = (
        t.ac_power(),
        t.dc_current(),
        t.dc_voltage(),
        t.dc_power(),
    );
    assert(dc_power >= 0real) by (nonlinear_arith)
        requires
            dc_power == voltage * current,
            voltage >= 0real,
            current >= 0real,
    ;
    if dc_power > 0real {
        assert(current > 5real / 100real) by {
            if current <= 5real / 100real {
                assert(voltage * current == 0real) by (nonlinear_arith)
                    requires
                        voltage == 0real,
                ;
            }
        }
        let divisor = 96real / 100real * current;
        let unlimited = power / divisor;
        lemma_divide(power, divisor);
        assert(power >= 96real / 100real * dc_power) by (nonlinear_arith)
            requires
                power == unlimited * (96real / 100real * current),
                dc_power == voltage * current,
                voltage <= unlimited,
                current > 0real,
        ;
        let share = power / dc_power;
        lemma_divide(power, dc_power);
        assert(share >= 96real / 100real) by (nonlinear_arith)
            requires
                share * dc_power == power,
                power >= 96real / 100real * dc_power,
                dc_power > 0real,
        ;
    }
}

/// The firmware version depends on the high byte of the version word alone: it
/// stays the same while the inverter goes from one operating state to another.
pub proof fn law_version_ignores_operating_state(a: NepTelemetry, b: NepTelemetry)
    requires
        a.format == b.format,
        a.version_raw / 256 == b.version_raw / 256,
    ensures
        a.version_text() == b.version_text(),
{
}

/// Where the words of the three PV inputs sum to the word of the total, their
/// powers sum to the total power, up to the rounding of the four readings.
pub proof fn law_pv_inputs_sum_to_total(t: NepTelemetry)
    requires
        t.pv_input_power_raw@[0] + t.pv_input_power_raw@[1] + t.pv_input_power_raw@[2]
            == t.ac_power_raw,
    ensures
        -2real / 100real <= t.pv_input_power(0) + t.pv_input_power(1) + t.pv_input_power(2)
            - t.ac_power() <= 2real / 100real,
{
    let raw = t.pv_input_power_raw@;
    let (a, b, c) = (raw[0], raw[1], raw[2]);
    let m = t.model;
    lemma_power_adds(m, a, b, c, t.ac_power_raw);
    law_rounding_error(m.power_w(a));
    law_rounding_error(m.power_w(b));
    law_rounding_error(m.power_w(c));
    law_rounding_error(m.power_w(t.ac_power_raw));
}

/// The power scale is linear.
proof fn lemma_power_adds(m: InverterModel, a: u16, b: u16, c: u16, total: u16)
    requires
        a + b + c == total,
    ensures
        m.power_w(a) + m.power_w(b) + m.power_w(c) == m.power_w(total),
{
    let unit = match m {
        InverterModel::Bdm400 => 100real,
        InverterModel::Bdm800 => 25real * pi(),
        InverterModel::Bdm1200Lv => 256real / 10real,
    };
    let (x, y, z) = (a as real, b as real, c as real);
    lemma_pi_exceeds_one();
    assert(x / unit + y / unit + z / unit == (x + y + z) / unit) by (nonlinear_arith)
        requires
            unit > 0real,
    ;
}

} // verus!
