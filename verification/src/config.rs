//! The configuration: environment variables, and the command-line flags that
//! win over them.

use vstd::prelude::*;

use crate::model::InverterModel;
use crate::mqtt::MqttConfig;
use crate::text::{ascii_uppercase, number_u16, parse_u16, same_ignoring_case, same_text};
use crate::upstream::{UpstreamConfig, DEFAULT_UPSTREAM_URL};

verus! {

/// The environment variables that configure the gateway; `None` where one is
/// not set.
#[derive(Debug)]
pub struct EnvVars {
    pub port: Option<String>,
    pub mqtt_host: Option<String>,
    pub mqtt_port: Option<String>,
    pub mqtt_username: Option<String>,
    pub mqtt_password: Option<String>,
    pub forward_upstream: Option<String>,
    pub upstream_url: Option<String>,
    pub inverter_model: Option<String>,
}

#[derive(Debug)]
pub struct AppConfig {
    pub port: u16,
    /// Selects the scales of the payload words.
    pub model: InverterModel,
    pub mqtt: MqttConfig,
    /// `Some` in dual-delivery mode.
    pub upstream: Option<UpstreamConfig>,
}

/// What loading the configuration came to.
#[derive(Debug)]
pub struct Loaded {
    /// A password is set without a user name, and is not used.
    pub password_ignored: bool,
    /// The configuration, or what to tell the user of a wrong command line.
    pub config: Result<AppConfig, String>,
}

/// The settings that command-line flags can change.
#[verifier::ext_equal]
pub struct Settings {
    pub forward_upstream: bool,
    pub upstream_url: Seq<char>,
    pub model: Seq<char>,
}

/// The text of a variable, or a default.
pub open spec fn text_or(var: Option<String>, default: Seq<char>) -> Seq<char> {
    match var {
        Some(text) => text@,
        None => default,
    }
}

/// The number that a variable holds, or a default where it holds none.
pub open spec fn number_or(var: Option<String>, default: u16) -> u16 {
    match var {
        Some(text) => match number_u16(text@) {
            Some(n) => n,
            None => default,
        },
        None => default,
    }
}

/// Whether a text switches something on.
pub open spec fn means_on(text: Seq<char>) -> bool {
    let upper = text.map_values(|c: char| ascii_uppercase(c));
    upper == "1"@ || upper == "TRUE"@ || upper == "YES"@ || upper == "ON"@
}

/// The settings by the environment alone.
pub open spec fn env_settings(env: EnvVars) -> Settings {
    Settings {
        forward_upstream: match env.forward_upstream {
            Some(text) => means_on(text@),
            None => false,
        },
        upstream_url: text_or(env.upstream_url, DEFAULT_UPSTREAM_URL@),
        model: text_or(env.inverter_model, "BDM-400"@),
    }
}

/// What to tell the user of an argument that is none of the flags.
pub open spec fn unknown_argument(argument: Seq<char>) -> Seq<char> {
    "Unknown argument: "@ + argument
        + "\n\nUsage: nep-gw [--forward-upstream] [--upstream-url <url>] [--model <name>]\n\n  --forward-upstream   Also relay inverter POSTs to the real NEP cloud\n\n  --upstream-url <url> Upstream endpoint (default: "@
        + DEFAULT_UPSTREAM_URL@
        + ")\n\n  --model <name>       Inverter model: selects payload field scales and the\n\n                       Home Assistant device metadata (BDM-400 or BDM-800,\n\n                       default: BDM-400)"@
}

/// The settings after the command-line arguments, from left to right, or what
/// to tell the user of the first one that is wrong.
pub open spec fn apply_args(args: Seq<Seq<char>>, s: Settings) -> Result<Settings, Seq<char>>
    decreases args.len(),
{
    if args.len() == 0 {
        Ok(s)
    } else if args[0] == "--forward-upstream"@ {
        apply_args(args.skip(1), Settings { forward_upstream: true, ..s })
    } else if args[0] == "--upstream-url"@ {
        if args.len() >= 2 {
            apply_args(args.skip(2), Settings { upstream_url: args[1], ..s })
        } else {
            Err("--upstream-url requires a value"@)
        }
    } else if args[0] == "--model"@ {
        if args.len() >= 2 {
            apply_args(args.skip(2), Settings { model: args[1], ..s })
        } else {
            Err("--model requires a value (e.g. BDM-400, BDM-800)"@)
        }
    } else {
        Err(unknown_argument(args[0]))
    }
}

/// The texts of a list of arguments.
pub open spec fn arg_views(args: Seq<String>) -> Seq<Seq<char>> {
    args.map_values(|a: String| a@)
}

/// The user name and password; a missing password is empty.
pub open spec fn credentials_of(env: EnvVars) -> Option<(Seq<char>, Seq<char>)> {
    match env.mqtt_username {
        Some(username) => Some((username@, text_or(env.mqtt_password, Seq::empty()))),
        None => None,
    }
}

/// The model whose scales are used for a model name: unrecognized names are
/// kept for display, and scale as the BDM-400.
pub open spec fn scale_model(name: Seq<char>) -> InverterModel {
    match InverterModel::named(name) {
        Some(model) => model,
        None => InverterModel::Bdm400,
    }
}

impl AppConfig {
    /// Whether this is the configuration by an environment and settings.
    pub open spec fn follows(self, env: EnvVars, s: Settings) -> bool {
        &&& self.port == number_or(env.port, 80)
        &&& self.model == scale_model(s.model)
        &&& self.mqtt.host@ == text_or(env.mqtt_host, "::1"@)
        &&& self.mqtt.port == number_or(env.mqtt_port, 1883)
        &&& self.mqtt.model@ == s.model
        &&& match self.mqtt.credentials {
            Some((username, password)) => credentials_of(env) == Some((username@, password@)),
            None => credentials_of(env) is None,
        }
        &&& match self.upstream {
            Some(upstream) => s.forward_upstream && upstream.url@ == s.upstream_url,
            None => !s.forward_upstream,
        }
    }

    /// The configuration by the environment and the command-line arguments
    /// (without the program's name). Flags win over environment variables.
    pub fn load(env: EnvVars, args: Vec<String>) -> (loaded: Loaded)
        ensures
            loaded.password_ignored == (env.mqtt_username is None && env.mqtt_password is Some),
            match apply_args(arg_views(args@), env_settings(env)) {
                Ok(s) => loaded.config matches Ok(config) && config.follows(env, s),
                Err(text) => loaded.config matches Err(e) && e@ == text,
            },
    {
        let password_ignored = env.mqtt_username.is_none() && env.mqtt_password.is_some();
        let mut forward_upstream: bool = match &env.forward_upstream {
            Some(text) => is_on(text.as_str()),
            None => false,
        };
        let mut upstream_url: String = string_or(&env.upstream_url, DEFAULT_UPSTREAM_URL);
        let mut model: String = string_or(&env.inverter_model, "BDM-400");
        let ghost views = arg_views(args@);
        let ghost goal = apply_args(views, env_settings(env));
        let mut i: usize = 0;
        assert(views.skip(0) =~= views);
        while i < args.len()
            invariant
                0 <= i <= args@.len(),
                views == arg_views(args@),
                goal == apply_args(views, env_settings(env)),
                password_ignored == (env.mqtt_username is None && env.mqtt_password is Some),
                goal == apply_args(
                    views.skip(i as int),
                    Settings { forward_upstream, upstream_url: upstream_url@, model: model@ },
                ),
            decreases args@.len() - i,
        {
            let arg: &str = args[i].as_str();
            let ghost rest = views.skip(i as int);
            assert(rest[0] == arg@);
            assert(rest.skip(1) =~= views.skip(i + 1));
            if same_text(arg, "--forward-upstream") {
                forward_upstream = true;
                i += 1;
            } else if same_text(arg, "--upstream-url") {
                if args.len() - i < 2 {
                    return Loaded {
                        password_ignored,
                        config: Err("--upstream-url requires a value".to_owned()),
                    };
                }
                assert(rest[1] == args@[i + 1]@);
                assert(rest.skip(2) =~= views.skip(i + 2));
                upstream_url = args[i + 1].clone();
                i += 2;
            } else if same_text(arg, "--model") {
                if args.len() - i < 2 {
                    return Loaded {
                        password_ignored,
                        config: Err("--model requires a value (e.g. BDM-400, BDM-800)".to_owned()),
                    };
                }
                assert(rest[1] == args@[i + 1]@);
                assert(rest.skip(2) =~= views.skip(i + 2));
                model = args[i + 1].clone();
                i += 2;
            } else {
                return Loaded { password_ignored, config: Err(unknown_argument_text(arg)) };
            }
        }
        assert(views.skip(i as int).len() == 0);
        let scales = match InverterModel::from_name(model.as_str()) {
            Some(known) => known,
            None => InverterModel::Bdm400,
        };
        let credentials = match &env.mqtt_username {
            Some(username) => Some((username.clone(), string_or(&env.mqtt_password, ""))),
            None => None,
        };
        proof {
            reveal_strlit("");
            assert(""@ =~= Seq::empty());
        }
        let upstream = if forward_upstream {
            Some(UpstreamConfig { url: upstream_url })
        } else {
            None
        };
        let config = AppConfig {
            port: u16_or(&env.port, 80),
            model: scales,
            mqtt: MqttConfig {
                host: string_or(&env.mqtt_host, "::1"),
                port: u16_or(&env.mqtt_port, 1883),
                credentials,
                model,
            },
            upstream,
        };
        Loaded { password_ignored, config: Ok(config) }
    }
}

fn string_or(var: &Option<String>, default: &str) -> (text: String)
    ensures
        text@ == text_or(*var, default@),
{
    match var {
        Some(text) => text.clone(),
        None => default.to_owned(),
    }
}

fn u16_or(var: &Option<String>, default: u16) -> (n: u16)
    ensures
        n == number_or(*var, default),
{
    match var {
        Some(text) => match parse_u16(text.as_str()) {
            Some(n) => n,
            None => default,
        },
        None => default,
    }
}

fn is_on(text: &str) -> (on: bool)
    ensures
        on == means_on(text@),
{
    same_ignoring_case(text, "1") || same_ignoring_case(text, "TRUE") || same_ignoring_case(
        text,
        "YES",
    ) || same_ignoring_case(text, "ON")
}

fn unknown_argument_text(argument: &str) -> (text: String)
    ensures
        text@ == unknown_argument(argument@),
{
    let mut out = "Unknown argument: ".to_owned();
    out.append(argument);
    out.append(
        "\n\nUsage: nep-gw [--forward-upstream] [--upstream-url <url>] [--model <name>]\n\n  --forward-upstream   Also relay inverter POSTs to the real NEP cloud\n\n  --upstream-url <url> Upstream endpoint (default: ",
    );
    out.append(DEFAULT_UPSTREAM_URL);
    out.append(
        ")\n\n  --model <name>       Inverter model: selects payload field scales and the\n\n                       Home Assistant device metadata (BDM-400 or BDM-800,\n\n                       default: BDM-400)",
    );
    out
}

/// Arguments apply from left to right: those behind a complete command line
/// apply to the settings that it came to.
pub proof fn law_arguments_apply_in_order(first: Seq<Seq<char>>, then: Seq<Seq<char>>, s: Settings)
    requires
        apply_args(first, s) is Ok,
    ensures
        apply_args(first + then, s) == apply_args(then, apply_args(first, s)->Ok_0),
    decreases first.len(),
{
    let all = first + then;
    if first.len() == 0 {
        assert(all =~= then);
    } else {
        assert(all[0] == first[0]);
        if first[0] == "--forward-upstream"@ {
            let next = Settings { forward_upstream: true, ..s };
            law_arguments_apply_in_order(first.skip(1), then, next);
            assert(all.skip(1) =~= first.skip(1) + then);
        } else {
            let next = if first[0] == "--upstream-url"@ {
                Settings { upstream_url: first[1], ..s }
            } else {
                Settings { model: first[1], ..s }
            };
            assert(all[1] == first[1]);
            law_arguments_apply_in_order(first.skip(2), then, next);
            assert(all.skip(2) =~= first.skip(2) + then);
        }
    }
}

/// Flags win over the environment, and a later flag over an earlier one:
/// whatever stands before it, the last flag decides its setting.
pub proof fn law_flags_win(first: Seq<Seq<char>>, s: Settings, value: Seq<char>)
    requires
        apply_args(first, s) is Ok,
    ensures
        ({
            let before = apply_args(first, s)->Ok_0;
            &&& apply_args(first + seq!["--forward-upstream"@], s) == Ok::<Settings, Seq<char>>(
                Settings { forward_upstream: true, ..before },
            )
            &&& apply_args(first + seq!["--upstream-url"@, value], s) == Ok::<Settings, Seq<char>>(
                Settings { upstream_url: value, ..before },
            )
            &&& apply_args(first + seq!["--model"@, value], s) == Ok::<Settings, Seq<char>>(
                Settings { model: value, ..before },
            )
        }),
{
    reveal_with_fuel(apply_args, 2);
    reveal_strlit("--forward-upstream");
    reveal_strlit("--upstream-url");
    reveal_strlit("--model");
    assert("--forward-upstream"@.len() == 18);
    assert("--upstream-url"@.len() == 14);
    assert("--model"@.len() == 7);
    law_arguments_apply_in_order(first, seq!["--forward-upstream"@], s);
    law_arguments_apply_in_order(first, seq!["--upstream-url"@, value], s);
    law_arguments_apply_in_order(first, seq!["--model"@, value], s);
}

/// A flag is never switched off again: relaying that the environment asks for
/// stays on under any command line.
pub proof fn law_forwarding_is_not_switched_off(args: Seq<Seq<char>>, s: Settings)
    requires
        s.forward_upstream,
        apply_args(args, s) is Ok,
    ensures
        apply_args(args, s)->Ok_0.forward_upstream,
    decreases args.len(),
{
    if args.len() > 0 {
        if args[0] == "--forward-upstream"@ {
            law_forwarding_is_not_switched_off(args.skip(1), s);
        } else if args[0] == "--upstream-url"@ {
            law_forwarding_is_not_switched_off(
                args.skip(2),
                Settings { upstream_url: args[1], ..s },
            );
        } else {
            law_forwarding_is_not_switched_off(args.skip(2), Settings { model: args[1], ..s });
        }
    }
}

} // verus!
