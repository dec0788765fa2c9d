//! The errors a CLI call can end in, how the CLI's error envelope maps onto them,
//! and the structured payload a tool reports for each.
use vstd::prelude::*;
use vstd::utf8::{encode_utf8, is_char_boundary};

use crate::text::{
    decimal, decimal_reads_back, decimal_string, parse_u64_spec, truncation_is_longest_fitting_prefix, signed_decimal, signed_decimal_string, truncate_bytes,
    truncate_bytes_spec,
};

verus! {

/// How a call to the `flute-webhooks` CLI failed.
#[derive(Debug, Clone)]
pub enum FluteError {
    /// The API answered with an error status (`kind:"api"`).
    Api { status: u16, message: String, correlation_id: Option<String> },
    /// The CLI could not reach the API (`kind:"transport"`).
    Transport { message: String },
    /// The CLI has no usable credentials (`kind:"auth"`).
    Auth { message: String },
    /// The CLI could not decode a response, or its stdout was not JSON (`kind:"decode"`).
    Decode { message: String },
    /// The CLI rejected its own invocation (`kind:"client"`).
    Client { message: String },
    /// The CLI process could not be started or waited for.
    Spawn(String),
    /// The CLI did not finish within the time limit.
    Timeout { secs: u64 },
    /// The CLI failed without a recognisable error envelope.
    BadOutput { exit_code: i32, stdout: String, stderr: String },
}

/// The error envelope `{kind, message, status?, correlation_id?}` the CLI prints
/// on stdout when it fails, as decoded from JSON.
#[derive(Debug, Clone)]
pub struct Envelope {
    pub kind: String,
    pub message: String,
    pub status: Option<u16>,
    pub correlation_id: Option<String>,
}

/// The `kind` word the tools report for each error.
pub open spec fn error_kind(e: FluteError) -> Seq<char> {
    match e {
        FluteError::Api { .. } => "api"@,
        FluteError::Transport { .. } => "transport"@,
        FluteError::Auth { .. } => "auth"@,
        FluteError::Decode { .. } => "decode"@,
        FluteError::Client { .. } => "client"@,
        FluteError::Spawn(_) => "spawn"@,
        FluteError::Timeout { .. } => "timeout"@,
        FluteError::BadOutput { .. } => "bad_output"@,
    }
}

/// The error a failed CLI call stands for: an envelope whose `kind` is one of
/// `api`, `transport`, `auth`, `decode` or `client` becomes that error (an `api`
/// envelope without `status` gets status 0); anything else, no envelope included,
/// becomes `BadOutput` with the exit code and both output streams.
pub open spec fn error_from_envelope(
    exit_code: i32,
    envelope: Option<Envelope>,
    stdout: String,
    stderr: String,
) -> FluteError {
    let bad = FluteError::BadOutput { exit_code, stdout, stderr };
    match envelope {
        None => bad,
        Some(env) => if env.kind@ == "api"@ {
            FluteError::Api {
                status: match env.status {
                    Some(s) => s,
                    None => 0,
                },
                message: env.message,
                correlation_id: env.correlation_id,
            }
        } else if env.kind@ == "transport"@ {
            FluteError::Transport { message: env.message }
        } else if env.kind@ == "auth"@ {
            FluteError::Auth { message: env.message }
        } else if env.kind@ == "decode"@ {
            FluteError::Decode { message: env.message }
        } else if env.kind@ == "client"@ {
            FluteError::Client { message: env.message }
        } else {
            bad
        },
    }
}

fn kind_is(kind: &String, word: &str) -> (b: bool)
    ensures
        b == (kind@ == word@),
{
    *kind == String::from_str(word)
}

impl FluteError {
    /// The error a failed CLI call stands for, given the envelope decoded from its
    /// trimmed stdout (`None` when that is not an envelope).
    pub fn from_envelope_stdout(
        exit_code: i32,
        envelope: Option<Envelope>,
        stdout: String,
        stderr: String,
    ) -> (e: FluteError)
        ensures
            e == error_from_envelope(exit_code, envelope, stdout, stderr),
    {
        match envelope {
            None => FluteError::BadOutput { exit_code, stdout, stderr },
            Some(env) => {
                if kind_is(&env.kind, "api") {
                    FluteError::Api {
                        status: match env.status {
                            Some(s) => s,
                            None => 0,
                        },
                        message: env.message,
                        correlation_id: env.correlation_id,
                    }
                } else if kind_is(&env.kind, "transport") {
                    FluteError::Transport { message: env.message }
                } else if kind_is(&env.kind, "auth") {
                    FluteError::Auth { message: env.message }
                } else if kind_is(&env.kind, "decode") {
                    FluteError::Decode { message: env.message }
                } else if kind_is(&env.kind, "client") {
                    FluteError::Client { message: env.message }
                } else {
                    FluteError::BadOutput { exit_code, stdout, stderr }
                }
            },
        }
    }

    /// The `kind` word of this error.
    pub fn kind(&self) -> (k: &'static str)
        ensures
            k@ == error_kind(*self),
    {
        match self {
            FluteError::Api { .. } => "api",
            FluteError::Transport { .. } => "transport",
            FluteError::Auth { .. } => "auth",
            FluteError::Decode { .. } => "decode",
            FluteError::Client { .. } => "client",
            FluteError::Spawn(_) => "spawn",
            FluteError::Timeout { .. } => "timeout",
            FluteError::BadOutput { .. } => "bad_output",
        }
    }

    /// The one-line description of this error.
    pub fn describe(&self) -> (s: String)
        ensures
            s@ == error_text(*self),
    {
        match self {
            FluteError::Api { status, message, .. } => {
                let mut s = String::from_str("api error (status ");
                let n = decimal_string(*status as u64);
                s.append(n.as_str());
                s.append("): ");
                s.append(message.as_str());
                s
            },
            FluteError::Transport { message } => concat("transport error: ", message.as_str()),
            FluteError::Auth { message } => {
                let mut s = concat("auth error: ", message.as_str());
                s.append(" — run `flute-webhooks auth login`");
                s
            },
            FluteError::Decode { message } => concat("decode error: ", message.as_str()),
            FluteError::Client { message } => concat("cli usage error: ", message.as_str()),
            FluteError::Spawn(msg) => concat("could not spawn flute-webhooks: ", msg.as_str()),
            FluteError::Timeout { secs } => {
                let n = decimal_string(*secs);
                let mut s = concat("flute-webhooks timed out after ", n.as_str());
                s.append("s");
                s
            },
            FluteError::BadOutput { exit_code, .. } => {
                let n = signed_decimal_string(*exit_code);
                let mut s = concat("flute-webhooks produced unparseable output (exit ", n.as_str());
                s.append(")");
                s
            },
        }
    }
}

/// The one-line description of each error, as it is shown to a person.
pub open spec fn error_text(e: FluteError) -> Seq<char> {
    match e {
        FluteError::Api { status, message, .. } => "api error (status "@ + decimal(status as nat)
            + "): "@ + message@,
        FluteError::Transport { message } => "transport error: "@ + message@,
        FluteError::Auth { message } => "auth error: "@ + message@
            + " — run `flute-webhooks auth login`"@,
        FluteError::Decode { message } => "decode error: "@ + message@,
        FluteError::Client { message } => "cli usage error: "@ + message@,
        FluteError::Spawn(msg) => "could not spawn flute-webhooks: "@ + msg@,
        FluteError::Timeout { secs } => "flute-webhooks timed out after "@ + decimal(secs as nat)
            + "s"@,
        FluteError::BadOutput { exit_code, .. } => "flute-webhooks produced unparseable output (exit "@
            + signed_decimal(exit_code as int) + ")"@,
    }
}

/// The most bytes of the CLI's stderr a `bad_output` payload carries.
pub const STDERR_LIMIT: usize = 4096;

/// What a failed tool call reports: the error's `kind` with its fields, and for
/// some kinds a message that tells the operator what to do.
#[derive(Debug, Clone)]
pub enum ErrorPayload {
    Api { status: u16, message: String, correlation_id: Option<String> },
    Transport { message: String },
    Auth { message: String },
    Decode { message: String },
    Client { message: String },
    Spawn { message: String },
    Timeout { message: String },
    BadOutput { exit_code: i32, stdout: String, stderr: String },
}

pub open spec fn payload_kind(p: ErrorPayload) -> Seq<char> {
    match p {
        ErrorPayload::Api { .. } => "api"@,
        ErrorPayload::Transport { .. } => "transport"@,
        ErrorPayload::Auth { .. } => "auth"@,
        ErrorPayload::Decode { .. } => "decode"@,
        ErrorPayload::Client { .. } => "client"@,
        ErrorPayload::Spawn { .. } => "spawn"@,
        ErrorPayload::Timeout { .. } => "timeout"@,
        ErrorPayload::BadOutput { .. } => "bad_output"@,
    }
}

pub open spec fn auth_hint() -> Seq<char> {
    " — run `flute-webhooks auth login`"@
}

pub open spec fn spawn_prefix() -> Seq<char> {
    "could not spawn flute-webhooks — set FLUTE_WEBHOOKS_BIN or install the CLI ("@
}

pub open spec fn timeout_prefix() -> Seq<char> {
    "flute-webhooks timed out after "@
}

/// `p` is the payload reported for `e`: the envelope kinds keep their fields, an
/// auth message gains the login hint, spawn and timeout errors get a sentence of
/// their own, and a bad-output payload keeps at most `STDERR_LIMIT` bytes of stderr.
pub open spec fn payload_for(p: ErrorPayload, e: FluteError) -> bool {
    match (e, p) {
        (
            FluteError::Api { status, message, correlation_id },
            ErrorPayload::Api { status: s2, message: m2, correlation_id: c2 },
        ) => s2 == status && m2 == message && c2 == correlation_id,
        (FluteError::Transport { message }, ErrorPayload::Transport { message: m2 }) => m2
            == message,
        (FluteError::Auth { message }, ErrorPayload::Auth { message: m2 }) => m2@ == message@
            + auth_hint(),
        (FluteError::Decode { message }, ErrorPayload::Decode { message: m2 }) => m2 == message,
        (FluteError::Client { message }, ErrorPayload::Client { message: m2 }) => m2 == message,
        (FluteError::Spawn(msg), ErrorPayload::Spawn { message: m2 }) => m2@ == spawn_prefix()
            + msg@ + ")"@,
        (FluteError::Timeout { secs }, ErrorPayload::Timeout { message: m2 }) => m2@
            == timeout_prefix() + decimal(secs as nat) + "s"@,
        (
            FluteError::BadOutput { exit_code, stdout, stderr },
            ErrorPayload::BadOutput { exit_code: x2, stdout: o2, stderr: e2 },
        ) => x2 == exit_code && o2 == stdout && encode_utf8(e2@) == truncate_bytes_spec(
            stderr@,
            STDERR_LIMIT as int,
        ),
        _ => false,
    }
}

fn concat(a: &str, b: &str) -> (r: String)
    ensures
        r@ == a@ + b@,
{
    let mut r = String::from_str(a);
    r.append(b);
    r
}

impl ErrorPayload {
    /// The payload a tool reports for `err`; its kind is always the error's kind.
    pub fn from_error(err: FluteError) -> (p: ErrorPayload)
        ensures
            payload_for(p, err),
            payload_kind(p) == error_kind(err),
    {
        match err {
            FluteError::Api { status, message, correlation_id } => ErrorPayload::Api {
                status,
                message,
                correlation_id,
            },
            FluteError::Transport { message } => ErrorPayload::Transport { message },
            FluteError::Auth { message } => {
                let m = concat(message.as_str(), " — run `flute-webhooks auth login`");
                ErrorPayload::Auth { message: m }
            },
            FluteError::Decode { message } => ErrorPayload::Decode { message },
            FluteError::Client { message } => ErrorPayload::Client { message },
            FluteError::Spawn(msg) => {
                let mut m = concat(
                    "could not spawn flute-webhooks — set FLUTE_WEBHOOKS_BIN or install the CLI (",
                    msg.as_str(),
                );
                m.append(")");
                ErrorPayload::Spawn { message: m }
            },
            FluteError::Timeout { secs } => {
                let n = decimal_string(secs);
                let mut m = concat("flute-webhooks timed out after ", n.as_str());
                m.append("s");
                ErrorPayload::Timeout { message: m }
            },
            FluteError::BadOutput { exit_code, stdout, stderr } => {
                let cut = truncate_bytes(stderr.as_str(), STDERR_LIMIT);
                ErrorPayload::BadOutput { exit_code, stdout, stderr: cut }
            },
        }
    }

    /// The `kind` word of this payload.
    pub fn kind(&self) -> (k: &'static str)
        ensures
            k@ == payload_kind(*self),
    {
        match self {
            ErrorPayload::Api { .. } => "api",
            ErrorPayload::Transport { .. } => "transport",
            ErrorPayload::Auth { .. } => "auth",
            ErrorPayload::Decode { .. } => "decode",
            ErrorPayload::Client { .. } => "client",
            ErrorPayload::Spawn { .. } => "spawn",
            ErrorPayload::Timeout { .. } => "timeout",
            ErrorPayload::BadOutput { .. } => "bad_output",
        }
    }
}

/// An envelope of kind `api`, `transport`, `auth`, `decode` or `client` becomes
/// the error of that kind carrying the envelope's own message (and, for `api`,
/// its status, 0 when absent, and its correlation id); the exit code and both
/// output streams play no part in it.
pub proof fn typed_envelope_keeps_its_fields(
    exit_code: i32,
    env: Envelope,
    stdout: String,
    stderr: String,
    other_exit_code: i32,
    other_stdout: String,
    other_stderr: String,
)
    requires
        env.kind@ == "api"@ || env.kind@ == "transport"@ || env.kind@ == "auth"@ || env.kind@
            == "decode"@ || env.kind@ == "client"@,
    ensures
        ({
            let e = error_from_envelope(exit_code, Some(env), stdout, stderr);
            &&& e == error_from_envelope(other_exit_code, Some(env), other_stdout, other_stderr)
            &&& error_kind(e) == env.kind@
            &&& match e {
                FluteError::Api { status, message, correlation_id } => message == env.message
                    && correlation_id == env.correlation_id && (env.status matches Some(s) ==> status
                    == s) && (env.status is None ==> status == 0),
                FluteError::Transport { message } => message == env.message,
                FluteError::Auth { message } => message == env.message,
                FluteError::Decode { message } => message == env.message,
                FluteError::Client { message } => message == env.message,
                _ => false,
            }
        }),
{
    reveal_strlit("api");
    reveal_strlit("transport");
    reveal_strlit("auth");
    reveal_strlit("decode");
    reveal_strlit("client");
}

/// A failure without an envelope, or with an envelope of any other kind, is
/// reported as bad output with the exit code and both streams as they came.
pub proof fn unrecognised_failure_is_bad_output(
    exit_code: i32,
    envelope: Option<Envelope>,
    stdout: String,
    stderr: String,
)
    requires
        envelope matches Some(env) ==> !(env.kind@ == "api"@ || env.kind@ == "transport"@
            || env.kind@ == "auth"@ || env.kind@ == "decode"@ || env.kind@ == "client"@),
    ensures
        error_from_envelope(exit_code, envelope, stdout, stderr) == (FluteError::BadOutput {
            exit_code,
            stdout,
            stderr,
        }),
{
}

/// A payload copies what its error carries: the fields of the envelope kinds
/// unchanged (an auth message followed by the login hint), the spawn reason
/// inside its sentence, the timeout's seconds written in decimal, and for bad
/// output the exit code and stdout unchanged with stderr cut to a prefix of at
/// most `STDERR_LIMIT` bytes that ends on a character boundary, and not cut at
/// all when it fits.
pub proof fn payload_keeps_what_the_error_carries(p: ErrorPayload, e: FluteError)
    requires
        payload_for(p, e),
    ensures
        match e {
            FluteError::Api { status, message, correlation_id } => p == (ErrorPayload::Api {
                status,
                message,
                correlation_id,
            }),
            FluteError::Transport { message } => p == (ErrorPayload::Transport { message }),
            FluteError::Auth { message } => p matches ErrorPayload::Auth { message: m } && m@
                == message@ + " — run `flute-webhooks auth login`"@,
            FluteError::Decode { message } => p == (ErrorPayload::Decode { message }),
            FluteError::Client { message } => p == (ErrorPayload::Client { message }),
            FluteError::Spawn(msg) => p matches ErrorPayload::Spawn { message: m } && m@
                == "could not spawn flute-webhooks — set FLUTE_WEBHOOKS_BIN or install the CLI ("@
                + msg@ + ")"@,
            FluteError::Timeout { secs } => p matches ErrorPayload::Timeout { message: m } && exists|
                d: Seq<char>,
            |
                m@ == "flute-webhooks timed out after "@ + d + "s"@ && #[trigger] parse_u64_spec(d)
                    == Some(secs),
            FluteError::BadOutput { exit_code, stdout, stderr } => p matches ErrorPayload::BadOutput {
                exit_code: x,
                stdout: o,
                stderr: cut,
            } && x == exit_code && o == stdout && {
                let b = encode_utf8(stderr@);
                let c = encode_utf8(cut@);
                &&& c.len() <= b.len()
                &&& b.take(c.len() as int) == c
                &&& is_char_boundary(b, c.len() as int)
                &&& (b.len() <= STDERR_LIMIT ==> c == b)
                &&& (b.len() > STDERR_LIMIT ==> c.len() <= STDERR_LIMIT && forall|k: int|
                    c.len() < k <= STDERR_LIMIT ==> !is_char_boundary(b, k))
            },
        },
{
    match e {
        FluteError::Timeout { secs } => {
            decimal_reads_back(secs);
            let d = decimal(secs as nat);
            let m = p->Timeout_message;
            assert(m@ == "flute-webhooks timed out after "@ + d + "s"@);
            assert(parse_u64_spec(d) == Some(secs));
        },
        FluteError::BadOutput { stderr, .. } => {
            truncation_is_longest_fitting_prefix(stderr@, STDERR_LIMIT as int);
        },
        _ => {},
    }
}


/// A description names its kind and carries what the error carries: the
/// message at its end (before the login hint for an auth error), the status,
/// the seconds or the exit code written in decimal.
pub proof fn description_carries_the_fields(e: FluteError)
    ensures
        match e {
            FluteError::Api { status, message, .. } => exists|d: Seq<char>|
                error_text(e) == "api error (status "@ + d + "): "@ + message@
                    && #[trigger] parse_u64_spec(d) == Some(status as u64),
            FluteError::Transport { message } => error_text(e) == "transport error: "@ + message@,
            FluteError::Auth { message } => error_text(e) == "auth error: "@ + message@
                + " — run `flute-webhooks auth login`"@,
            FluteError::Decode { message } => error_text(e) == "decode error: "@ + message@,
            FluteError::Client { message } => error_text(e) == "cli usage error: "@ + message@,
            FluteError::Spawn(msg) => error_text(e) == "could not spawn flute-webhooks: "@ + msg@,
            FluteError::Timeout { secs } => exists|d: Seq<char>|
                error_text(e) == "flute-webhooks timed out after "@ + d + "s"@
                    && #[trigger] parse_u64_spec(d) == Some(secs),
            FluteError::BadOutput { exit_code, .. } => (exit_code < 0 ==> exists|d: Seq<char>|
                error_text(e) == "flute-webhooks produced unparseable output (exit -"@ + d + ")"@
                    && #[trigger] parse_u64_spec(d) == Some((-exit_code) as u64)) && (exit_code >= 0
                ==> exists|d: Seq<char>|
                error_text(e) == "flute-webhooks produced unparseable output (exit "@ + d + ")"@
                    && #[trigger] parse_u64_spec(d) == Some(exit_code as u64)),
        },
{
    match e {
        FluteError::Api { status, message, .. } => {
            decimal_reads_back(status as u64);
            let d = decimal(status as nat);
            assert(parse_u64_spec(d) == Some(status as u64));
        },
        FluteError::Timeout { secs } => {
            decimal_reads_back(secs);
            let d = decimal(secs as nat);
            assert(parse_u64_spec(d) == Some(secs));
        },
        FluteError::BadOutput { exit_code, .. } => {
            reveal_strlit("flute-webhooks produced unparseable output (exit -");
            reveal_strlit("flute-webhooks produced unparseable output (exit ");
            let m: int = if exit_code < 0 { -exit_code } else { exit_code as int };
            decimal_reads_back(m as u64);
            let d = decimal(m as nat);
            assert(parse_u64_spec(d) == Some(m as u64));
            if exit_code < 0 {
                assert("flute-webhooks produced unparseable output (exit "@ + seq!['-'] + d + ")"@
                    =~= "flute-webhooks produced unparseable output (exit -"@ + d + ")"@);
            }
        },
        _ => {},
    }
}

} // verus!
