//! Start-up configuration: the profile, the CLI binary, the per-call timeout and
//! the debug switch, decided from the values the environment holds.
use vstd::prelude::*;

use crate::text::{decimal, decimal_reads_back, parse_u64, parse_u64_spec};

verus! {

/// The Flute environment a server instance is pinned to at start-up.
#[derive(Debug, Clone, Copy, PartialEq, Eq, Structural)]
pub enum Profile {
    Sandbox,
    Production,
}

impl Profile {
    /// The value the CLI expects after `--profile`.
    pub open spec fn spec_cli_str(self) -> Seq<char> {
        match self {
            Profile::Sandbox => "sandbox"@,
            Profile::Production => "production"@,
        }
    }

    pub fn as_cli_str(self) -> (s: &'static str)
        ensures
            s@ == self.spec_cli_str(),
    {
        match self {
            Profile::Sandbox => "sandbox",
            Profile::Production => "production",
        }
    }
}

/// Why the start-up environment does not give a usable configuration.
#[derive(Debug, Clone)]
pub enum ConfigError {
    /// `FLUTE_PROFILE` holds something other than `sandbox`, `production` or `prod`.
    InvalidProfile(String),
    /// `FLUTE_MCP_TIMEOUT_SECS` is not a positive whole number of seconds.
    InvalidTimeout(String),
    /// No binary is configured and none named `flute-webhooks` is on `PATH`.
    BinaryNotFound,
    /// The configured binary path does not name an existing file.
    BinaryUnusable(String),
}

/// The configuration a server runs with, frozen at start-up.
#[derive(Debug, Clone)]
pub struct Config {
    pub profile: Profile,
    /// Path of the `flute-webhooks` executable.
    pub binary: String,
    /// Per-call time limit for the child process, in seconds.
    pub timeout_secs: u64,
    /// Whether the child's stderr is routed to the server's log.
    pub debug: bool,
}

/// What the environment holds at start-up, read by the caller.
#[derive(Debug, Clone)]
pub struct EnvValues {
    /// `FLUTE_PROFILE`.
    pub profile: Option<String>,
    /// `FLUTE_WEBHOOKS_BIN`.
    pub binary: Option<String>,
    /// `FLUTE_MCP_TIMEOUT_SECS`.
    pub timeout_secs: Option<String>,
    /// `FLUTE_MCP_DEBUG`.
    pub debug: Option<String>,
    /// Whether the path in `binary` names an existing regular file.
    pub binary_is_file: bool,
    /// Where a `PATH` lookup of `flute-webhooks` found the executable, if it did.
    pub binary_on_path: Option<String>,
}

/// The character view of an optional string.
pub open spec fn opt_view(o: Option<String>) -> Option<Seq<char>> {
    match o {
        Some(s) => Some(s@),
        None => None,
    }
}

/// The profile `FLUTE_PROFILE` selects: unset or empty means sandbox, and
/// `prod` is an alias of `production`; any other value selects none.
pub open spec fn profile_from_env(v: Option<Seq<char>>) -> Option<Profile> {
    match v {
        None => Some(Profile::Sandbox),
        Some(s) => if s.len() == 0 || s == "sandbox"@ {
            Some(Profile::Sandbox)
        } else if s == "production"@ || s == "prod"@ {
            Some(Profile::Production)
        } else {
            None
        },
    }
}

/// The timeout `FLUTE_MCP_TIMEOUT_SECS` selects: 30 seconds when unset, else a
/// positive decimal number of seconds; zero and non-numbers select none.
pub open spec fn timeout_from_env(v: Option<Seq<char>>) -> Option<u64> {
    match v {
        None => Some(30),
        Some(s) => match parse_u64_spec(s) {
            Some(n) => if n == 0 { None } else { Some(n) },
            None => None,
        },
    }
}

/// `FLUTE_MCP_DEBUG` switches debugging on when set to any non-empty value,
/// `0` and `false` included.
pub open spec fn debug_from_env(v: Option<Seq<char>>) -> bool {
    match v {
        Some(s) => s.len() > 0,
        None => false,
    }
}

/// A non-empty `FLUTE_WEBHOOKS_BIN` is the configured binary; an empty one counts
/// as unset.
pub open spec fn configured_binary(v: Option<Seq<char>>) -> Option<Seq<char>> {
    match v {
        Some(s) => if s.len() > 0 { Some(s) } else { None },
        None => None,
    }
}

fn equals_literal(s: &str, lit: &str) -> (b: bool)
    ensures
        b == (s@ == lit@),
{
    String::from_str(s) == String::from_str(lit)
}

/// Reads `FLUTE_PROFILE`; the error carries the rejected value.
pub fn parse_profile(v: &Option<String>) -> (r: Result<Profile, ConfigError>)
    ensures
        match r {
            Ok(p) => profile_from_env(opt_view(*v)) == Some(p),
            Err(ConfigError::InvalidProfile(s)) => profile_from_env(opt_view(*v)) is None
                && opt_view(*v) == Some(s@),
            Err(_) => false,
        },
{
    match v {
        None => Ok(Profile::Sandbox),
        Some(s) => {
            if s.as_str().is_empty() || equals_literal(s.as_str(), "sandbox") {
                Ok(Profile::Sandbox)
            } else if equals_literal(s.as_str(), "production") || equals_literal(
                s.as_str(),
                "prod",
            ) {
                Ok(Profile::Production)
            } else {
                Err(ConfigError::InvalidProfile(s.clone()))
            }
        },
    }
}

/// Reads `FLUTE_MCP_TIMEOUT_SECS`; the error carries the rejected value.
pub fn parse_timeout(v: &Option<String>) -> (r: Result<u64, ConfigError>)
    ensures
        match r {
            Ok(n) => timeout_from_env(opt_view(*v)) == Some(n),
            Err(ConfigError::InvalidTimeout(s)) => timeout_from_env(opt_view(*v)) is None
                && opt_view(*v) == Some(s@),
            Err(_) => false,
        },
{
    match v {
        None => Ok(30),
        Some(s) => match parse_u64(s.as_str()) {
            Some(n) => if n == 0 {
                Err(ConfigError::InvalidTimeout(s.clone()))
            } else {
                Ok(n)
            },
            None => Err(ConfigError::InvalidTimeout(s.clone())),
        },
    }
}

/// Reads `FLUTE_MCP_DEBUG`.
pub fn parse_debug(v: &Option<String>) -> (b: bool)
    ensures
        b == debug_from_env(opt_view(*v)),
{
    match v {
        Some(s) => !s.as_str().is_empty(),
        None => false,
    }
}

/// A command-line flag, where given, takes the place of the environment variable.
pub fn flag_or_env(flag: Option<String>, env: Option<String>) -> (r: Option<String>)
    ensures
        r == (if flag is Some { flag } else { env }),
{
    match flag {
        Some(f) => Some(f),
        None => env,
    }
}

impl Config {
    /// Builds the configuration from what the environment holds. The checks run in
    /// a fixed order: profile, then timeout, then binary; the first that fails
    /// decides the error.
    pub fn from_env(env: EnvValues) -> (r: Result<Config, ConfigError>)
        ensures
            r is Ok <==> (profile_from_env(opt_view(env.profile)) is Some
                && timeout_from_env(opt_view(env.timeout_secs)) is Some
                && match configured_binary(opt_view(env.binary)) {
                Some(_) => env.binary_is_file,
                None => env.binary_on_path is Some,
            }),
            r matches Ok(cfg) ==> {
                &&& profile_from_env(opt_view(env.profile)) == Some(cfg.profile)
                &&& timeout_from_env(opt_view(env.timeout_secs)) == Some(cfg.timeout_secs)
                &&& cfg.debug == debug_from_env(opt_view(env.debug))
                &&& Some(cfg.binary@) == match configured_binary(opt_view(env.binary)) {
                    Some(b) => Some(b),
                    None => opt_view(env.binary_on_path),
                }
            },
            r matches Err(e) ==> match e {
                ConfigError::InvalidProfile(s) => profile_from_env(opt_view(env.profile)) is None
                    && opt_view(env.profile) == Some(s@),
                ConfigError::InvalidTimeout(s) => profile_from_env(opt_view(env.profile)) is Some
                    && timeout_from_env(opt_view(env.timeout_secs)) is None
                    && opt_view(env.timeout_secs) == Some(s@),
                ConfigError::BinaryUnusable(s) => profile_from_env(opt_view(env.profile)) is Some
                    && timeout_from_env(opt_view(env.timeout_secs)) is Some
                    && configured_binary(opt_view(env.binary)) == Some(s@)
                    && !env.binary_is_file,
                ConfigError::BinaryNotFound => profile_from_env(opt_view(env.profile)) is Some
                    && timeout_from_env(opt_view(env.timeout_secs)) is Some
                    && configured_binary(opt_view(env.binary)) is None
                    && env.binary_on_path is None,
            },
    {
        let profile = match parse_profile(&env.profile) {
            Ok(p) => p,
            Err(e) => return Err(e),
        };
        let timeout_secs = match parse_timeout(&env.timeout_secs) {
            Ok(n) => n,
            Err(e) => return Err(e),
        };
        let binary = match env.binary {
            Some(p) if !p.as_str().is_empty() => {
                if !env.binary_is_file {
                    return Err(ConfigError::BinaryUnusable(p));
                }
                p
            },
            _ => match env.binary_on_path {
                Some(found) => found,
                None => return Err(ConfigError::BinaryNotFound),
            },
        };
        let debug = parse_debug(&env.debug);
        Ok(Config { profile, binary, timeout_secs, debug })
    }
}

/// Every profile reads back from the word the CLI is given for it.
pub proof fn profile_word_round_trip(p: Profile)
    ensures
        profile_from_env(Some(p.spec_cli_str())) == Some(p),
{
    reveal_strlit("sandbox");
    reveal_strlit("production");
    reveal_strlit("prod");
}

/// Debug logging is on exactly when `FLUTE_MCP_DEBUG` is set to a non-empty
/// value, whatever that value is.
pub proof fn debug_is_any_non_empty_value(v: Option<Seq<char>>)
    ensures
        debug_from_env(v) <==> exists|s: Seq<char>| v == Some(s) && s.len() > 0,
{
    if let Some(s) = v {
        if s.len() > 0 {
            assert(v == Some(s) && s.len() > 0);
        }
    }
}

/// Unset, the timeout is 30 seconds; set, it is the positive whole number of
/// seconds written in decimal, and any other value, zero among them, is refused.
pub proof fn timeout_is_a_positive_number_of_seconds(v: Option<Seq<char>>, n: u64)
    ensures
        v is None ==> timeout_from_env(v) == Some(30u64),
        timeout_from_env(v) matches Some(t) ==> t > 0,
        v == Some(decimal(n as nat)) ==> timeout_from_env(v) == (if n == 0 {
            None::<u64>
        } else {
            Some(n)
        }),
{
    decimal_reads_back(n);
}

} // verus!
