//! The inverter models: their names, and the physical scales of the payload words.

use vstd::prelude::*;

use crate::ratio::Ratio;
use crate::text::{ascii_uppercase, is_ascii_alphanumeric, spells, uppercase_char};

verus! {

/// Inverter model, which selects the physical scaling of the payload words.
///
/// The AC-power and daily-energy words use different scales per model. The
/// BDM-800 scales come from a calibration against a reference meter that the
/// inverter feeds through, across 20-620 W.
#[derive(Debug, Clone, Copy, PartialEq, Eq, Structural)]
pub enum InverterModel {
    Bdm400,
    Bdm800,
    /// BDM-1200-LV and other newer firmware, which posts a 69-byte payload to
    /// `/t.php` instead of the 45-byte payload to `/i.php`.
    Bdm1200Lv,
}

impl Default for InverterModel {
    fn default() -> (model: Self)
        ensures
            model == InverterModel::Bdm400,
    {
        InverterModel::Bdm400
    }
}

/// Numerator and denominator of the double-precision number nearest to pi.
pub const PI_NUM: i128 = 884279719003555;

pub const PI_DEN: i128 = 281474976710656;

/// Pi, as precisely as a double-precision number holds it.
pub open spec fn pi() -> real {
    PI_NUM as real / PI_DEN as real
}

/// What is compared of a model name: its ASCII letters, in upper case, and its digits.
pub open spec fn normalized(name: Seq<char>) -> Seq<char> {
    name.filter(|c: char| is_ascii_alphanumeric(c)).map_values(|c: char| ascii_uppercase(c))
}

/// Appends what is compared of the character `c` of a model name.
fn push_normalized(out: &mut Vec<char>, c: char)
    ensures
        is_ascii_alphanumeric(c) ==> final(out)@ == old(out)@.push(ascii_uppercase(c)),
        !is_ascii_alphanumeric(c) ==> final(out)@ == old(out)@,
{
    if ('0' <= c && c <= '9') || ('A' <= c && c <= 'Z') || ('a' <= c && c <= 'z') {
        out.push(uppercase_char(c));
    }
}

/// What is compared of a model name.
fn normalize(name: &str) -> (out: Vec<char>)
    ensures
        out@ == normalized(name@),
{
    let mut out: Vec<char> = Vec::new();
    assert(normalized(name@.take(0)) =~= Seq::empty()) by {
        reveal(Seq::filter);
    }
    for c in it: name.chars()
        invariant
            it.seq() == name@,
            out@ == normalized(name@.take(it.index())),
    {
        proof {
            let i = it.index();
            let pred = |c: char| is_ascii_alphanumeric(c);
            reveal(Seq::filter);
            assert(name@.take(i + 1).drop_last() =~= name@.take(i));
            assert(name@.take(i + 1).last() == c);
            let before = name@.take(i).filter(pred);
            assert(before.push(c).map_values(|c: char| ascii_uppercase(c)) =~= before.map_values(
                |c: char| ascii_uppercase(c),
            ).push(ascii_uppercase(c)));
        }
        push_normalized(&mut out, c);
    }
    assert(name@.take(name@.len() as int) =~= name@);
    out
}

/// Dividing by 25 times a fraction.
proof fn lemma_quotient(raw: int, den: int, num: int)
    requires
        num > 0,
        den > 0,
    ensures
        (raw * den) as real / (25 * num) as real == raw as real / (25real * (num as real
            / den as real)),
{
    let r = raw as real;
    let n = num as real;
    let d = den as real;
    assert((raw * den) as real == r * d) by (nonlinear_arith)
        requires
            r == raw as real,
            d == den as real,
    ;
    assert((r * d) / (25real * n) == r / (25real * (n / d))) by (nonlinear_arith)
        requires
            n > 0real,
            d > 0real,
    ;
}

pub(crate) proof fn lemma_pi_exceeds_one()
    ensures
        pi() >= 1real,
{
    let n = PI_NUM as real;
    let d = PI_DEN as real;
    assert(n / d >= 1real) by (nonlinear_arith)
        requires
            n >= d,
            d > 0real,
    ;
}

/// Every scale divides by at least one.
pub(crate) proof fn lemma_scales_shrink(model: InverterModel, raw: u16)
    ensures
        0real <= model.power_w(raw) <= raw as real,
        0real <= model.voltage_v(raw) <= raw as real,
{
    let r = raw as real;
    lemma_pi_exceeds_one();
    let divisor = 25real * pi();
    assert(0real <= r / divisor <= r) by (nonlinear_arith)
        requires
            r >= 0real,
            divisor >= 1real,
    ;
}

impl InverterModel {
    /// The model that a name stands for, if it is one of the known names.
    pub open spec fn named(name: Seq<char>) -> Option<InverterModel> {
        let n = normalized(name);
        if n == "BDM400"@ {
            Some(InverterModel::Bdm400)
        } else if n == "BDM800"@ {
            Some(InverterModel::Bdm800)
        } else if n == "BDM1200LV"@ || n == "BDM1200"@ {
            Some(InverterModel::Bdm1200Lv)
        } else {
            None
        }
    }

    /// Watts that the AC-power word `raw` stands for.
    pub open spec fn power_w(self, raw: u16) -> real {
        match self {
            InverterModel::Bdm400 => raw as real / 100real,
            InverterModel::Bdm800 => raw as real / (25real * pi()),
            InverterModel::Bdm1200Lv => raw as real / (256real / 10real),
        }
    }

    /// Watt-hours that the daily-energy word `raw` stands for.
    pub open spec fn energy_wh(self, raw: u16) -> real {
        match self {
            InverterModel::Bdm800 => raw as real * (2308real / 10000real),
            _ => raw as real / 5real,
        }
    }

    /// Volts that the voltage word `raw` of a `/t.php` payload stands for.
    pub open spec fn voltage_v(self, raw: u16) -> real {
        match self {
            InverterModel::Bdm1200Lv => raw as real / (512real / 10real),
            _ => raw as real / (256real / 10real),
        }
    }

    /// Lenient reading of a model name ("BDM-800", "bdm800", ...). `None` for
    /// unrecognized names, so that callers can warn and pick a default.
    pub fn from_name(name: &str) -> (model: Option<Self>)
        ensures
            model == InverterModel::named(name@),
    {
        let n = normalize(name);
        if spells(&n, "BDM400") {
            Some(InverterModel::Bdm400)
        } else if spells(&n, "BDM800") {
            Some(InverterModel::Bdm800)
        } else if spells(&n, "BDM1200LV") || spells(&n, "BDM1200") {
            Some(InverterModel::Bdm1200Lv)
        } else {
            None
        }
    }

    /// Scales the raw AC-power word to Watts.
    ///
    /// BDM-400: /100. BDM-800: the fitted correction of that scale is
    /// indistinguishable from 4/pi, so the scale is /(25 pi), about /78.54.
    /// BDM-1200-LV: /25.6.
    pub fn scale_power_w(self, raw: u16) -> (watts: Ratio)
        ensures
            watts.value() == self.power_w(raw),
            0 <= watts.spec_num() <= 0x1_0000_0000_0000_0000,
            watts.spec_den() <= 0x80_0000_0000_0000,
    {
        match self {
            InverterModel::Bdm400 => Ratio::new(raw as i128, 100),
            InverterModel::Bdm800 => {
                proof {
                    lemma_quotient(raw as int, PI_DEN as int, PI_NUM as int);
                }
                Ratio::new(raw as i128 * PI_DEN, 25 * PI_NUM)
            },
            InverterModel::Bdm1200Lv => Ratio::new(raw as i128 * 5, 128),
        }
    }

    /// Scales the raw daily-energy word to Watt-hours: 0.2 Wh per count, and
    /// 0.2308 Wh per count on the BDM-800 (a fit against a reference meter).
    pub fn scale_energy_wh(self, raw: u16) -> (watt_hours: Ratio)
        ensures
            watt_hours.value() == self.energy_wh(raw),
    {
        match self {
            InverterModel::Bdm400 => Ratio::new(raw as i128, 5),
            InverterModel::Bdm800 => Ratio::new(raw as i128 * 2308, 10000),
            InverterModel::Bdm1200Lv => Ratio::new(raw as i128, 5),
        }
    }

    /// Scales the raw voltage word of a `/t.php` payload to Volts: /51.2 on the
    /// BDM-1200-LV, /25.6 on the other models. On the BDM-1200-LV this word is
    /// not grid RMS voltage: it tracks an internal value that changes with the
    /// active PV input.
    pub fn scale_voltage_v(self, raw: u16) -> (volts: Ratio)
        ensures
            volts.value() == self.voltage_v(raw),
    {
        match self {
            InverterModel::Bdm1200Lv => Ratio::new(raw as i128 * 5, 256),
            _ => Ratio::new(raw as i128 * 5, 128),
        }
    }
}

/// The power scale of the BDM-800 is that of the BDM-400 times 4/pi, whatever
/// the power.
pub proof fn law_bdm800_power_is_corrected(raw: u16)
    ensures
        InverterModel::Bdm800.power_w(raw) == InverterModel::Bdm400.power_w(raw) * (4real / pi()),
{
    lemma_pi_exceeds_one();
    let (r, p) = (raw as real, pi());
    assert(r / (25real * p) == r / 100real * (4real / p)) by (nonlinear_arith)
        requires
            p >= 1real,
    ;
}

/// Inserting characters other than ASCII letters and digits (spaces, dashes)
/// into a name does not change the model it stands for.
pub proof fn law_name_ignores_separators(before: Seq<char>, separators: Seq<char>, after: Seq<char>)
    requires
        forall|i: int| 0 <= i < separators.len() ==> !is_ascii_alphanumeric(#[trigger] separators[i]),
    ensures
        InverterModel::named(before + separators + after) == InverterModel::named(before + after),
{
    let pred = |c: char| is_ascii_alphanumeric(c);
    Seq::filter_distributes_over_add(before + separators, after, pred);
    Seq::filter_distributes_over_add(before, separators, pred);
    Seq::filter_distributes_over_add(before, after, pred);
    lemma_filter_none(separators, pred);
    assert((before + separators + after).filter(pred) =~= (before + after).filter(pred));
}

/// The case of the letters of a name does not change the model it stands for.
pub proof fn law_name_ignores_case(name: Seq<char>)
    ensures
        InverterModel::named(name.map_values(|c: char| ascii_uppercase(c))) == InverterModel::named(
            name,
        ),
{
    lemma_normalized_uppercase(name);
}

proof fn lemma_filter_none(s: Seq<char>, pred: spec_fn(char) -> bool)
    requires
        forall|i: int| 0 <= i < s.len() ==> !pred(#[trigger] s[i]),
    ensures
        s.filter(pred) =~= Seq::empty(),
    decreases s.len(),
{
    reveal(Seq::filter);
    if s.len() > 0 {
        lemma_filter_none(s.drop_last(), pred);
    }
}

proof fn lemma_normalized_uppercase(name: Seq<char>)
    ensures
        normalized(name.map_values(|c: char| ascii_uppercase(c))) =~= normalized(name),
    decreases name.len(),
{
    reveal(Seq::filter);
    let up = |c: char| ascii_uppercase(c);
    let pred = |c: char| is_ascii_alphanumeric(c);
    let upper = name.map_values(up);
    if name.len() > 0 {
        let init = name.drop_last();
        let c = name.last();
        lemma_normalized_uppercase(init);
        assert(upper.drop_last() =~= init.map_values(up));
        assert(upper.last() == up(c));
        assert(pred(up(c)) == pred(c));
        assert(up(up(c)) == up(c));
        let a = init.map_values(up).filter(pred);
        let b = init.filter(pred);
        assert(a.push(up(c)).map_values(up) =~= a.map_values(up).push(up(c)));
        assert(b.push(c).map_values(up) =~= b.map_values(up).push(up(c)));
    }
}

} // verus!
