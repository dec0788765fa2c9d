//! Running the CLI: what a finished child process amounts to, and a scripted
//! runner that records argv and replays canned results.
use vstd::prelude::*;

use crate::config::Config;
use crate::error::{error_from_envelope, Envelope, FluteError};
use crate::text::{is_blank, is_blank_spec};

verus! {

/// `serde_json::Value`, carried through unread.
#[verifier::external_type_specification]
#[verifier::external_body]
pub struct ExJsonValue(serde_json::Value);

/// What `serde_json::from_str::<serde_json::Value>` makes of `text`: the document
/// it parses, or the `Display` text of its error (what failed, at which line and
/// column). Both depend on the text alone.
pub uninterp spec fn json_parse(text: Seq<char>) -> Result<serde_json::Value, Seq<char>>;

/// Calls `serde_json::from_str::<serde_json::Value>` and, on failure, renders the
/// error with `ToString::to_string`. The contract claims that the document, or the
/// error's text, is a function of the input text alone; what that function is
/// (the JSON grammar) is left to the name.
#[verifier::external_body]
fn parse_json(text: &str) -> (r: Result<serde_json::Value, String>)
    ensures
        match r {
            Ok(v) => json_parse(text@) matches Ok(w) && w == v,
            Err(m) => json_parse(text@) matches Err(t) && t == m@,
        },
{
    match serde_json::from_str(text) {
        Ok(v) => Ok(v),
        Err(e) => Err(e.to_string()),
    }
}

/// What a successful CLI call printed on stdout.
#[derive(Debug)]
pub enum CliOutput {
    /// Nothing but white space (some commands, such as `endpoints delete`, print nothing).
    Empty,
    /// A JSON document, passed on unchanged.
    Json(serde_json::Value),
}

/// How the child process ended, as observed by whoever started it.
#[derive(Debug)]
pub enum ProcessOutcome {
    /// The process could not be started; `reason` is the OS error's text.
    SpawnFailed { reason: String },
    /// Waiting for the process failed; `reason` is the OS error's text.
    WaitFailed { reason: String },
    /// The time limit ran out first; the child was killed.
    TimedOut,
    /// The process exited. `code` is absent when a signal ended it; `envelope` is
    /// the error envelope decoded from the trimmed stdout, if it is one.
    Exited {
        success: bool,
        code: Option<i32>,
        stdout: String,
        stderr: String,
        envelope: Option<Envelope>,
    },
}

/// Runs the real `flute-webhooks` binary, one child process per call.
#[derive(Debug, Clone)]
pub struct ProcessRunner {
    pub binary: String,
    /// Time limit per call, in milliseconds.
    pub timeout_ms: u128,
    /// Whether the child's stderr goes to the server's log.
    pub debug: bool,
}

pub open spec fn decode_prefix() -> Seq<char> {
    "could not parse stdout as JSON: "@
}

impl ProcessRunner {
    /// The runner a configuration calls for: its binary, its timeout and its
    /// debug switch.
    pub fn from_config(config: &Config) -> (r: ProcessRunner)
        ensures
            r.binary == config.binary,
            r.timeout_ms == config.timeout_secs * 1000,
            r.debug == config.debug,
    {
        ProcessRunner {
            binary: config.binary.clone(),
            timeout_ms: config.timeout_secs as u128 * 1000,
            debug: config.debug,
        }
    }

    /// The whole seconds of the time limit (as `Duration::as_secs`), saturating at
    /// `u64::MAX` for a limit no `Duration` can hold.
    pub open spec fn spec_timeout_secs(self) -> u64 {
        if self.timeout_ms / 1000 <= u64::MAX {
            (self.timeout_ms / 1000) as u64
        } else {
            u64::MAX
        }
    }

    pub fn timeout_secs(&self) -> (s: u64)
        ensures
            s == self.spec_timeout_secs(),
    {
        let whole = self.timeout_ms / 1000;
        if whole <= u64::MAX as u128 {
            whole as u64
        } else {
            u64::MAX
        }
    }

    /// The time limit as whole seconds and the nanoseconds beyond them, the parts
    /// `Duration::new` takes.
    pub fn timeout_parts(&self) -> (r: (u64, u32))
        ensures
            r.0 == self.spec_timeout_secs(),
            r.1 == (self.timeout_ms % 1000) * 1_000_000,
    {
        let nanos = (self.timeout_ms % 1000) as u32 * 1_000_000;
        (self.timeout_secs(), nanos)
    }

    /// The result of a call that ended in `outcome`: a start-up or wait failure is
    /// a spawn error (naming the binary when it could not start), running out of
    /// time is a timeout in whole seconds, success yields stdout (empty when blank,
    /// else JSON, else a decode error), and failure is read from the error envelope.
    pub fn finish(&self, outcome: ProcessOutcome) -> (r: Result<CliOutput, FluteError>)
        ensures
            match outcome {
                ProcessOutcome::SpawnFailed { reason } => r matches Err(FluteError::Spawn(m))
                    && m@ == self.binary@ + ": "@ + reason@,
                ProcessOutcome::WaitFailed { reason } => r == Err::<CliOutput, FluteError>(
                    FluteError::Spawn(reason),
                ),
                ProcessOutcome::TimedOut => r == Err::<CliOutput, FluteError>(
                    FluteError::Timeout { secs: self.spec_timeout_secs() },
                ),
                ProcessOutcome::Exited { success, code, stdout, stderr, envelope } => if success {
                    if is_blank_spec(stdout@) {
                        r == Ok::<CliOutput, FluteError>(CliOutput::Empty)
                    } else if json_parse(stdout@) is Ok {
                        r == Ok::<CliOutput, FluteError>(CliOutput::Json(json_parse(stdout@)->Ok_0))
                    } else {
                        r matches Err(FluteError::Decode { message }) && message@
                            == decode_prefix() + json_parse(stdout@)->Err_0
                    }
                } else {
                    r == Err::<CliOutput, FluteError>(
                        error_from_envelope(
                            match code {
                                Some(c) => c,
                                None => -1i32,
                            },
                            envelope,
                            stdout,
                            stderr,
                        ),
                    )
                },
            },
    {
        match outcome {
            ProcessOutcome::SpawnFailed { reason } => {
                let mut m = String::from_str(self.binary.as_str());
                m.append(": ");
                m.append(reason.as_str());
                Err(FluteError::Spawn(m))
            },
            ProcessOutcome::WaitFailed { reason } => Err(FluteError::Spawn(reason)),
            ProcessOutcome::TimedOut => Err(FluteError::Timeout { secs: self.timeout_secs() }),
            ProcessOutcome::Exited { success, code, stdout, stderr, envelope } => {
                if success {
                    if is_blank(stdout.as_str()) {
                        return Ok(CliOutput::Empty);
                    }
                    ProcessRunner::stdout_result(parse_json(stdout.as_str()))
                } else {
                    let exit_code = match code {
                        Some(c) => c,
                        None => -1,
                    };
                    Err(FluteError::from_envelope_stdout(exit_code, envelope, stdout, stderr))
                }
            },
        }
    }

    /// The result of a successful call whose stdout is not blank, given what
    /// parsing stdout as JSON gave: the document, or the parser's description of
    /// why it is not one, which becomes a decode error.
    pub fn stdout_result(parsed: Result<serde_json::Value, String>) -> (r: Result<
        CliOutput,
        FluteError,
    >)
        ensures
            match parsed {
                Ok(v) => r == Ok::<CliOutput, FluteError>(CliOutput::Json(v)),
                Err(detail) => r matches Err(FluteError::Decode { message }) && message@
                    == decode_prefix() + detail@,
            },
    {
        match parsed {
            Ok(v) => Ok(CliOutput::Json(v)),
            Err(detail) => {
                let mut m = String::from_str("could not parse stdout as JSON: ");
                m.append(detail.as_str());
                Err(FluteError::Decode { message: m })
            },
        }
    }

    /// Whether the child's stderr is written to the server's log: only in debug
    /// mode, and only when there is some.
    pub fn logs_stderr(&self, stderr: &str) -> (b: bool)
        ensures
            b == (self.debug && stderr@.len() > 0),
    {
        self.debug && !stderr.is_empty()
    }
}

fn copy_strings(v: &[String]) -> (r: Vec<String>)
    ensures
        r@ == v@,
{
    let mut r: Vec<String> = Vec::new();
    let mut i: usize = 0;
    while i < v.len()
        invariant
            i <= v@.len(),
            r@ == v@.take(i as int),
        decreases v@.len() - i,
    {
        r.push(v[i].clone());
        assert(v@.take(i + 1) =~= v@.take(i as int).push(v@[i as int]));
        i = i + 1;
    }
    assert(v@.take(v@.len() as int) =~= v@);
    r
}

/// A runner for tests: it records the argv of every call and answers each call
/// with the next of the results it was given, in order.
#[derive(Debug)]
pub struct MockRunner {
    pub calls: Vec<Vec<String>>,
    pub responses: Vec<Result<CliOutput, FluteError>>,
}

impl MockRunner {
    pub fn new(responses: Vec<Result<CliOutput, FluteError>>) -> (m: MockRunner)
        ensures
            m.calls@ == Seq::<Vec<String>>::empty(),
            m.responses@ == responses@,
    {
        MockRunner { calls: Vec::new(), responses }
    }

    /// The argv of every call so far, oldest first.
    pub fn calls(&self) -> (c: Vec<Vec<String>>)
        ensures
            c@.len() == self.calls@.len(),
            forall|i: int| 0 <= i < c@.len() ==> #[trigger] c@[i]@ == self.calls@[i]@,
    {
        let mut c: Vec<Vec<String>> = Vec::new();
        let mut i: usize = 0;
        while i < self.calls.len()
            invariant
                i <= self.calls@.len(),
                c@.len() == i,
                forall|j: int| 0 <= j < i ==> #[trigger] c@[j]@ == self.calls@[j]@,
            decreases self.calls@.len() - i,
        {
            c.push(copy_strings(self.calls[i].as_slice()));
            i = i + 1;
        }
        c
    }

    /// Records `args` and answers with the oldest result not yet given out.
    pub fn run(&mut self, args: &[String]) -> (r: Result<CliOutput, FluteError>)
        requires
            old(self).responses@.len() > 0,
        ensures
            r == old(self).responses@[0],
            final(self).responses@ == old(self).responses@.drop_first(),
            final(self).calls@.len() == old(self).calls@.len() + 1,
            final(self).calls@.last()@ == args@,
            final(self).calls@.drop_last() == old(self).calls@,
    {
        let copy = copy_strings(args);
        self.calls.push(copy);
        let r = self.responses.remove(0);
        assert(old(self).responses@.remove(0) =~= old(self).responses@.drop_first());
        r
    }
}


/// A runner's time limit in whole seconds is its limit in milliseconds rounded
/// down (saturating), so a limit set from a number of seconds gives that number
/// back.
pub proof fn timeout_secs_round_down(r: ProcessRunner, secs: u64)
    ensures
        r.timeout_ms < (u64::MAX as int + 1) * 1000 ==> r.spec_timeout_secs() * 1000 <= r.timeout_ms
            < (r.spec_timeout_secs() + 1) * 1000,
        r.timeout_ms >= (u64::MAX as int + 1) * 1000 ==> r.spec_timeout_secs() == u64::MAX,
        r.timeout_ms == secs * 1000 ==> r.spec_timeout_secs() == secs,
{
    let q = r.timeout_ms / 1000;
    vstd::arithmetic::div_mod::lemma_fundamental_div_mod(r.timeout_ms as int, 1000);
    assert(q * 1000 <= r.timeout_ms < (q + 1) * 1000);
    if r.timeout_ms < (u64::MAX as int + 1) * 1000 {
        assert(q <= u64::MAX) by (nonlinear_arith)
            requires q * 1000 <= r.timeout_ms, r.timeout_ms < (u64::MAX as int + 1) * 1000;
    } else {
        assert(q > u64::MAX) by (nonlinear_arith)
            requires (q + 1) * 1000 > r.timeout_ms, r.timeout_ms >= (u64::MAX as int + 1) * 1000;
    }
    if r.timeout_ms == secs * 1000 {
        assert(q == secs) by (nonlinear_arith)
            requires q * 1000 <= r.timeout_ms < (q + 1) * 1000, r.timeout_ms == secs * 1000;
    }
}

} // verus!
