//! The configuration, by the environment and the command line, and the numerals
//! and names that it is written in.

use vstd::prelude::*;

use crate::config::{
    apply_args, arg_views, env_settings, law_arguments_apply_in_order, law_flags_win, means_on,
    AppConfig, EnvVars, Loaded,
};
use crate::model::{normalized, InverterModel};
use crate::text::{
    all_digits, ascii_uppercase, decimal_value, digit, hex, hex8, is_ascii_alphanumeric, parse_u16,
};

verus! {

/// Whether a text spells a word in lower case, whatever the case of its letters.
pub open spec fn spells_any_case(text: Seq<char>, word: Seq<char>) -> bool {
    &&& text.len() == word.len()
    &&& forall|i: int|
        0 <= i < text.len() ==> #[trigger] text[i] == word[i] || ('a' <= word[i] <= 'z'
            && text[i] as int + 32 == word[i] as int)
}

/// Whether a text is a decimal numeral of `n`, with at most a plus sign before it.
pub open spec fn is_numeral(text: Seq<char>, n: int) -> bool {
    let digits = if text.len() > 0 && text[0] == '+' {
        text.subrange(1, text.len() as int)
    } else {
        text
    };
    digits.len() > 0 && all_digits(digits) && decimal_value(digits) == n
}

/// A number of 16 bits is read exactly where the text is a numeral of it.
pub proof fn law_numerals_are_read(text: &str, number: Option<u16>)
    requires
        call_ensures(parse_u16, (text,), number),
    ensures
        forall|n: u16| number == Some(n) <==> #[trigger] is_numeral(text@, n as int),
{
    assert forall|n: u16| number == Some(n) <==> #[trigger] is_numeral(text@, n as int) by {
        if text@.len() > 0 && text@[0] == '+' {
            assert(text@.subrange(1, text@.len() as int) =~= text@.skip(1));
        }
    }
}

/// A serial number is written as its eight hexadecimal digits, in lower case.
pub proof fn law_hex8_spells_the_number(n: u32, text: String)
    requires
        call_ensures(hex8, (n,), text),
    ensures
        text@.len() == 8,
        text@[0] == "0123456789abcdef"@[n as int / 0x1000_0000],
        text@[1] == "0123456789abcdef"@[n as int / 0x100_0000 % 16],
        text@[2] == "0123456789abcdef"@[n as int / 0x10_0000 % 16],
        text@[3] == "0123456789abcdef"@[n as int / 0x1_0000 % 16],
        text@[4] == "0123456789abcdef"@[n as int / 0x1000 % 16],
        text@[5] == "0123456789abcdef"@[n as int / 0x100 % 16],
        text@[6] == "0123456789abcdef"@[n as int / 0x10 % 16],
        text@[7] == "0123456789abcdef"@[n as int % 16],
{
    let h0 = n as nat;
    let h1 = h0 / 16;
    let h2 = h1 / 16;
    let h3 = h2 / 16;
    let h4 = h3 / 16;
    let h5 = h4 / 16;
    let h6 = h5 / 16;
    let h7 = h6 / 16;
    assert(h1 == n as int / 0x10);
    assert(h2 == n as int / 0x100);
    assert(h3 == n as int / 0x1000);
    assert(h4 == n as int / 0x10000);
    assert(h5 == n as int / 0x100000);
    assert(h6 == n as int / 0x1000000);
    assert(h7 == n as int / 0x10000000);
    lemma_last_digit(h0, 8);
    lemma_last_digit(h1, 7);
    lemma_last_digit(h2, 6);
    lemma_last_digit(h3, 5);
    lemma_last_digit(h4, 4);
    lemma_last_digit(h5, 3);
    lemma_last_digit(h6, 2);
    lemma_last_digit(h7, 1);
    assert(hex(h7 / 16, 0) =~= Seq::empty());
    assert(text@ =~= seq![
        digit(h7 % 16),
        digit(h6 % 16),
        digit(h5 % 16),
        digit(h4 % 16),
        digit(h3 % 16),
        digit(h2 % 16),
        digit(h1 % 16),
        digit(h0 % 16),
    ]);
}

proof fn lemma_last_digit(n: nat, width: nat)
    requires
        width > 0,
    ensures
        hex(n, width) == hex(n / 16, (width - 1) as nat).push(digit(n % 16)),
        digit(n % 16) == "0123456789abcdef"@[n as int % 16],
{
    reveal_strlit("0123456789abcdef");
}

/// A model is known by its name, whatever the case of its letters and whatever
/// stands between its ASCII letters and digits.
pub proof fn law_models_are_known_by_name(name: &str, model: Option<InverterModel>)
    requires
        call_ensures(InverterModel::from_name, (name,), model),
    ensures
        ({
            let kept = name@.filter(
                |c: char| '0' <= c <= '9' || 'A' <= c <= 'Z' || 'a' <= c <= 'z',
            );
            &&& model == Some(InverterModel::Bdm400) <==> spells_any_case(kept, "bdm400"@)
            &&& model == Some(InverterModel::Bdm800) <==> spells_any_case(kept, "bdm800"@)
            &&& model == Some(InverterModel::Bdm1200Lv) <==> spells_any_case(kept, "bdm1200lv"@)
                || spells_any_case(kept, "bdm1200"@)
        }),
{
    let pred = |c: char| is_ascii_alphanumeric(c);
    let own = |c: char| '0' <= c <= '9' || 'A' <= c <= 'Z' || 'a' <= c <= 'z';
    assert(pred =~= own);
    let kept = name@.filter(own);
    assert(normalized(name@) == kept.map_values(|c: char| ascii_uppercase(c)));
    reveal_strlit("bdm400");
    reveal_strlit("BDM400");
    lemma_any_case(kept, "bdm400"@, "BDM400"@);
    reveal_strlit("bdm800");
    reveal_strlit("BDM800");
    lemma_any_case(kept, "bdm800"@, "BDM800"@);
    reveal_strlit("bdm1200lv");
    reveal_strlit("BDM1200LV");
    lemma_any_case(kept, "bdm1200lv"@, "BDM1200LV"@);
    reveal_strlit("bdm1200");
    reveal_strlit("BDM1200");
    lemma_any_case(kept, "bdm1200"@, "BDM1200"@);
    assert("BDM400"@[3] != "BDM800"@[3]);
}

/// A text spells a word in any case exactly where it is the word in upper case
/// once its letters are.
proof fn lemma_any_case(text: Seq<char>, lower: Seq<char>, upper: Seq<char>)
    requires
        lower.len() == upper.len(),
        forall|i: int|
            0 <= i < lower.len() ==> !('A' <= #[trigger] lower[i] <= 'Z') && upper[i]
                == ascii_uppercase(lower[i]),
    ensures
        text.map_values(|c: char| ascii_uppercase(c)) == upper <==> spells_any_case(text, lower),
{
    let up = text.map_values(|c: char| ascii_uppercase(c));
    if up == upper {
        assert(text.len() == up.len());
        assert forall|i: int| 0 <= i < text.len() implies #[trigger] text[i] == lower[i] || ('a'
            <= lower[i] <= 'z' && text[i] as int + 32 == lower[i] as int) by {
            assert(up[i] == ascii_uppercase(text[i]));
            assert(lower[i] == lower[i] && upper[i] == ascii_uppercase(lower[i]));
        }
    }
    if spells_any_case(text, lower) {
        assert(up.len() == upper.len());
        assert forall|i: int| 0 <= i < up.len() implies up[i] == upper[i] by {
            assert(up[i] == ascii_uppercase(text[i]));
            assert(upper[i] == ascii_uppercase(lower[i]));
        }
        assert(up =~= upper);
    }
}

/// Whether a number is the one that a variable holds, or the default where it
/// holds no number of 16 bits.
pub open spec fn is_number_or(n: u16, var: Option<String>, default: u16) -> bool {
    match var {
        Some(text) => is_numeral(text@, n as int) || (n == default && forall|m: u16|
            !#[trigger] is_numeral(text@, m as int)),
        None => n == default,
    }
}

/// Whether a text is the one that a variable holds, or the default.
pub open spec fn is_text_or(text: Seq<char>, var: Option<String>, default: Seq<char>) -> bool {
    match var {
        Some(held) => text == held@,
        None => text == default,
    }
}

/// Whether relaying is asked for by a variable: by one of these words.
pub open spec fn asks_for_relaying(var: Option<String>) -> bool {
    var matches Some(text) && {
        ||| spells_any_case(text@, "1"@)
        ||| spells_any_case(text@, "true"@)
        ||| spells_any_case(text@, "yes"@)
        ||| spells_any_case(text@, "on"@)
    }
}

proof fn lemma_means_on(text: Seq<char>)
    ensures
        means_on(text) <==> spells_any_case(text, "1"@) || spells_any_case(text, "true"@)
            || spells_any_case(text, "yes"@) || spells_any_case(text, "on"@),
{
    reveal_strlit("1");
    lemma_any_case(text, "1"@, "1"@);
    reveal_strlit("true");
    reveal_strlit("TRUE");
    lemma_any_case(text, "true"@, "TRUE"@);
    reveal_strlit("yes");
    reveal_strlit("YES");
    lemma_any_case(text, "yes"@, "YES"@);
    reveal_strlit("on");
    reveal_strlit("ON");
    lemma_any_case(text, "on"@, "ON"@);
}

proof fn lemma_number_or(var: Option<String>, default: u16)
    ensures
        is_number_or(crate::config::number_or(var, default), var, default),
{
    if let Some(text) = var {
        if text@.len() > 0 && text@[0] == '+' {
            assert(text@.subrange(1, text@.len() as int) =~= text@.skip(1));
        }
    }
}

/// Without arguments, every setting is that of its own variable, or its default.
pub proof fn law_environment_sets_each_setting(env: EnvVars, args: Vec<String>, loaded: Loaded)
    requires
        call_ensures(AppConfig::load, (env, args), loaded),
        args@.len() == 0,
    ensures
        loaded.config matches Ok(c) && {
            &&& is_number_or(c.port, env.port, 80)
            &&& is_text_or(c.mqtt.host@, env.mqtt_host, "::1"@)
            &&& is_number_or(c.mqtt.port, env.mqtt_port, 1883)
            &&& is_text_or(c.mqtt.model@, env.inverter_model, "BDM-400"@)
            &&& match c.upstream {
                Some(upstream) => asks_for_relaying(env.forward_upstream) && is_text_or(
                    upstream.url@,
                    env.upstream_url,
                    "http://www.nepviewer.net/i.php"@,
                ),
                None => !asks_for_relaying(env.forward_upstream),
            }
        },
{
    assert(arg_views(args@) =~= Seq::empty());
    lemma_number_or(env.port, 80);
    lemma_number_or(env.mqtt_port, 1883);
    if let Some(text) = env.forward_upstream {
        lemma_means_on(text@);
    }
}

/// Whatever the arguments: the ports, the host and the credentials are those of
/// the environment, a password counts only with a user name, and the scales are
/// those of the named model, or of the BDM-400 where the name is not known.
pub proof fn law_environment_alone_decides_the_rest(
    env: EnvVars,
    args: Vec<String>,
    loaded: Loaded,
    name: &str,
    known: Option<InverterModel>,
)
    requires
        call_ensures(AppConfig::load, (env, args), loaded),
        call_ensures(InverterModel::from_name, (name,), known),
        loaded.config matches Ok(c) ==> c.mqtt.model@ == name@,
    ensures
        loaded.password_ignored <==> env.mqtt_username is None && env.mqtt_password is Some,
        loaded.config matches Ok(c) ==> {
            &&& is_number_or(c.port, env.port, 80)
            &&& is_text_or(c.mqtt.host@, env.mqtt_host, "::1"@)
            &&& is_number_or(c.mqtt.port, env.mqtt_port, 1883)
            &&& c.mqtt.credentials is Some <==> env.mqtt_username is Some
            &&& c.mqtt.credentials matches Some((user, password)) ==> {
                &&& user@ == env.mqtt_username->Some_0@
                &&& is_text_or(password@, env.mqtt_password, Seq::empty())
            }
            &&& known is Some ==> Some(c.model) == known
            &&& known is None ==> c.model == InverterModel::Bdm400
        },
{
    lemma_number_or(env.port, 80);
    lemma_number_or(env.mqtt_port, 1883);
}

/// A flag behind an accepted command line changes its own setting, to its value,
/// and no other.
pub proof fn law_flags_change_their_own_setting(
    env: EnvVars,
    args: Vec<String>,
    more: Vec<String>,
    before: Loaded,
    after: Loaded,
    value: Seq<char>,
)
    requires
        call_ensures(AppConfig::load, (env, args), before),
        call_ensures(AppConfig::load, (env, more), after),
        before.config is Ok,
    ensures
        ({
            let old_ones = arg_views(args@);
            let b = before.config->Ok_0;
            let a = after.config->Ok_0;
            &&& arg_views(more@) == old_ones + seq!["--forward-upstream"@] ==> {
                &&& after.config is Ok
                &&& a.upstream is Some && a.mqtt.model@ == b.mqtt.model@ && a.model == b.model
                &&& b.upstream is Some ==> a.upstream->Some_0.url@ == b.upstream->Some_0.url@
            }
            &&& arg_views(more@) == old_ones + seq!["--upstream-url"@, value] ==> {
                &&& after.config is Ok
                &&& a.upstream is Some <==> b.upstream is Some
                &&& a.upstream is Some ==> a.upstream->Some_0.url@ == value
                &&& a.mqtt.model@ == b.mqtt.model@ && a.model == b.model
            }
            &&& arg_views(more@) == old_ones + seq!["--model"@, value] ==> {
                &&& after.config is Ok
                &&& a.mqtt.model@ == value
                &&& a.upstream is Some <==> b.upstream is Some
                &&& a.upstream is Some ==> a.upstream->Some_0.url@ == b.upstream->Some_0.url@
            }
        }),
{
    law_flags_win(arg_views(args@), env_settings(env), value);
}

/// An argument behind an accepted command line that is no flag gets the command
/// line refused with the reason, whatever follows it; so does a flag at the end
/// whose value is missing.
pub proof fn law_wrong_arguments_are_refused(
    env: EnvVars,
    args: Vec<String>,
    more: Vec<String>,
    before: Loaded,
    after: Loaded,
    wrong: Seq<char>,
    rest: Seq<Seq<char>>,
)
    requires
        call_ensures(AppConfig::load, (env, args), before),
        call_ensures(AppConfig::load, (env, more), after),
        before.config is Ok,
        arg_views(more@) == arg_views(args@) + (seq![wrong] + rest),
        wrong != "--forward-upstream"@,
        wrong == "--upstream-url"@ || wrong == "--model"@ ==> rest.len() == 0,
    ensures
        after.config matches Err(e) && {
            &&& wrong == "--upstream-url"@ ==> e@ == "--upstream-url requires a value"@
            &&& wrong == "--model"@ ==> e@ == "--model requires a value (e.g. BDM-400, BDM-800)"@
            &&& wrong != "--upstream-url"@ && wrong != "--model"@ ==> exists|usage: Seq<char>|
                e@ == #[trigger] ("Unknown argument: "@ + wrong + "\n\nUsage: nep-gw "@ + usage)
        },
{
    let s = env_settings(env);
    let first = arg_views(args@);
    let then = seq![wrong] + rest;
    assert(then[0] == wrong);
    law_arguments_apply_in_order(first, then, s);
    reveal_with_fuel(apply_args, 2);
    reveal_strlit("--upstream-url");
    reveal_strlit("--model");
    assert("--upstream-url"@.len() == 14 && "--model"@.len() == 7);
    if wrong != "--upstream-url"@ && wrong != "--model"@ {
        let e = crate::config::unknown_argument(wrong);
        let start = "Unknown argument: "@ + wrong + "\n\nUsage: nep-gw "@;
        let usage = e.skip(start.len() as int);
        reveal_strlit("\n\nUsage: nep-gw ");
        reveal_strlit(
            "\n\nUsage: nep-gw [--forward-upstream] [--upstream-url <url>] [--model <name>]\n\n  --forward-upstream   Also relay inverter POSTs to the real NEP cloud\n\n  --upstream-url <url> Upstream endpoint (default: ",
        );
        assert(e.take(start.len() as int) =~= start);
        assert(e =~= start + usage);
    }
}

} // verus!
