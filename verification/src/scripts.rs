//! Support scripts sent by the server with `scripts/run`: reading requests,
//! deciding whether they run, and the result reports.
use crate::config::{list_or_empty, present_command, ScriptsConfig};
use crate::json::{as_str, as_u64, entries_model, get, jstr, lemma_key_index_at, Json, JsonValue};
use crate::protocol::status::entry;
use crate::text::{
    chars_of, concat, copy_strings, owned, string_texts, trim, trim_end, trim_slice, trimmed_end,
};
use crate::timing::{duration_from_millis, duration_from_secs, duration_nanos};
use core::time::Duration;
use vstd::prelude::*;
use vstd::utf8::{decode_utf8, valid_utf8};

verus! {

/// Default time a script may run, in seconds.
pub const DEFAULT_SCRIPT_TIMEOUT_SECS: u64 = 10;

/// A request to run a support script.
#[derive(Debug)]
pub struct ScriptRequest {
    pub script_ref: String,
    pub text: String,
    pub timeout: Duration,
}

/// Why a `scripts/run` payload is no script request.
#[derive(Debug)]
pub struct ScriptRequestError {
    /// The request's reference, when it has one.
    pub script_ref: Option<String>,
    pub reason: String,
}

/// What a script printed and how it exited.
#[derive(Debug, Clone)]
pub struct ScriptOutput {
    pub output: String,
    pub return_value: String,
}

/// Why a script did not run to a successful end.
#[derive(Debug)]
pub enum ScriptError {
    Timeout,
    /// The command could not be started; the text of the OS error.
    Spawn { command: String, source: String },
    /// The command exited unsuccessfully.
    Command { command: String, status: String, output: String },
    /// Reading or writing the script's pipes failed.
    Io { context: String, source: String },
    /// A helper task failed.
    Task { context: String, source: String },
}

/// ASCII decimal digits.
pub open spec fn is_digit(c: char) -> bool {
    '0' <= c && c <= '9'
}

/// The value of a run of decimal digits.
pub open spec fn digits_value(s: Seq<char>) -> int
    decreases s.len(),
{
    if s.len() == 0 {
        0
    } else {
        digits_value(s.drop_last()) * 10 + ((s.last() as int) - ('0' as int))
    }
}

/// `str::parse::<u64>`: an optional `+`, then one or more decimal digits
/// whose value fits in a `u64`.
pub open spec fn parse_u64(s: Seq<char>) -> Option<u64> {
    let d = unsigned_part(s);
    if all_digits(d) && digits_value(d) <= u64::MAX {
        Some(digits_value(d) as u64)
    } else {
        None
    }
}

/// The text after an optional leading `+`.
pub open spec fn unsigned_part(s: Seq<char>) -> Seq<char> {
    if s.len() > 0 && s[0] == '+' {
        s.drop_first()
    } else {
        s
    }
}

/// A non-empty run of decimal digits.
pub open spec fn all_digits(d: Seq<char>) -> bool {
    d.len() > 0 && forall|i: int| 0 <= i < d.len() ==> #[trigger] is_digit(d[i])
}

proof fn lemma_digits_value_nonneg(s: Seq<char>)
    requires
        forall|i: int| 0 <= i < s.len() ==> is_digit(s[i]),
    ensures
        digits_value(s) >= 0,
    decreases s.len(),
{
    if s.len() > 0 {
        lemma_digits_value_nonneg(s.drop_last());
    }
}

proof fn lemma_digits_value_grows(s: Seq<char>, t: Seq<char>)
    requires
        forall|i: int| 0 <= i < t.len() ==> is_digit(t[i]),
        s.len() <= t.len(),
        t.take(s.len() as int) == s,
    ensures
        digits_value(s) <= digits_value(t),
    decreases t.len(),
{
    if s.len() < t.len() {
        let u = t.drop_last();
        assert(u.take(s.len() as int) =~= s);
        assert forall|i: int| 0 <= i < u.len() implies is_digit(u[i]) by {
            assert(u[i] == t[i]);
        }
        lemma_digits_value_grows(s, u);
        lemma_digits_value_nonneg(u);
    } else {
        assert(t =~= s);
    }
}

/// `str::parse::<u64>`.
#[verifier::loop_isolation(false)]
pub fn parse_decimal(s: &str) -> (r: Option<u64>)
    ensures
        r == parse_u64(s@),
{
    let v = chars_of(s);
    let start: usize = if v.len() > 0 && v[0] == '+' {
        1
    } else {
        0
    };
    let ghost d = v@.skip(start as int);
    proof {
        assert(v@ == s@);
        if v.len() > 0 && v@[0] == '+' {
            assert(d =~= v@.drop_first());
        } else {
            assert(d =~= v@);
        }
    }
    if start >= v.len() {
        return None;
    }
    let mut value: u64 = 0;
    let mut i: usize = start;
    while i < v.len()
        invariant
            start < v.len(),
            start <= i <= v.len(),
            d == v@.skip(start as int),
            forall|k: int| 0 <= k < i - start ==> is_digit(d[k]),
            value == digits_value(d.take(i - start)),
        decreases v.len() - i,
    {
        let c = v[i];
        if !('0' <= c && c <= '9') {
            proof {
                assert(d[i - start] == c);
                assert(!is_digit(d[i - start]));
                assert(0 <= i - start < d.len());
                assert(d == unsigned_part(s@));
                assert(!all_digits(d));
            }
            return None;
        }
        let digit = (c as u32 - 48) as u64;
        let ghost prefix = d.take(i + 1 - start);
        proof {
            assert(prefix.drop_last() =~= d.take(i - start));
            assert(prefix.last() == c);
        }
        if value > (u64::MAX - digit) / 10 {
            proof {
                assert forall|k: int| 0 <= k < prefix.len() implies is_digit(prefix[k]) by {
                    assert(prefix[k] == d[k]);
                }
                if forall|k: int| 0 <= k < d.len() ==> is_digit(d[k]) {
                    assert(d.take(prefix.len() as int) =~= prefix);
                    lemma_digits_value_grows(prefix, d);
                }
                assert(digits_value(prefix) == value * 10 + digit);
                assert(value * 10 + digit > u64::MAX) by (nonlinear_arith)
                    requires
                        value > (u64::MAX - digit) / 10,
                        digit <= 9,
                ;
            }
            return None;
        }
        assert(value * 10 + digit <= u64::MAX) by (nonlinear_arith)
            requires
                value <= (u64::MAX - digit) / 10,
                digit <= 9,
        ;
        value = value * 10 + digit;
        i = i + 1;
    }
    proof {
        assert(d.take(i - start) =~= d);
    }
    Some(value)
}

/// The timeout, in milliseconds, that a `timeout` value gives: an unsigned
/// integer, or a text that parses as one.
pub open spec fn timeout_millis(v: Json) -> Option<u64> {
    match as_u64(v) {
        Some(ms) => Some(ms),
        None => match as_str(v) {
            Some(s) => parse_u64(s),
            None => None,
        },
    }
}

/// The timeout that a `timeout` value gives.
pub fn timeout_from_value(value: &JsonValue) -> (r: Option<Duration>)
    ensures
        r is Some <==> timeout_millis(value.model()) is Some,
        r matches Some(d) ==> duration_nanos(d) == timeout_millis(value.model())->0 as int
            * 1_000_000,
{
    if let Some(ms) = value.as_u64() {
        return Some(duration_from_millis(ms));
    }
    match value.as_str() {
        Some(s) => match parse_decimal(s.as_str()) {
            Some(ms) => Some(duration_from_millis(ms)),
            None => None,
        },
        None => None,
    }
}

/// The trimmed, non-blank `ref` of a request payload.
pub open spec fn request_ref(p: Json) -> Option<Seq<char>> {
    match get(p, "ref"@) {
        Some(v) => match as_str(v) {
            Some(s) => if trim(s).len() > 0 {
                Some(trim(s))
            } else {
                None
            },
            None => None,
        },
        None => None,
    }
}

/// The `text` of a request payload.
pub open spec fn request_text(p: Json) -> Option<Seq<char>> {
    match get(p, "text"@) {
        Some(v) => as_str(v),
        None => None,
    }
}

/// The timeout in milliseconds that a request payload asks for.
pub open spec fn request_timeout(p: Json) -> Option<u64> {
    match get(p, "timeout"@) {
        Some(v) => timeout_millis(v),
        None => None,
    }
}

impl ScriptRequest {
    /// Reads a `scripts/run` payload: `text` and a non-blank `ref` are
    /// required, and `timeout` (milliseconds) falls back to `default_timeout`.
    pub fn from_payload(payload: &JsonValue, default_timeout: Duration) -> (r: Result<
        ScriptRequest,
        ScriptRequestError,
    >)
        ensures
            r is Ok <==> request_text(payload.model()) is Some && request_ref(payload.model()) is Some,
            r matches Ok(req) ==> {
                &&& request_ref(payload.model()) == Some(req.script_ref@)
                &&& request_text(payload.model()) == Some(req.text@)
                &&& duration_nanos(req.timeout) == match request_timeout(payload.model()) {
                    Some(ms) => ms as int * 1_000_000,
                    None => duration_nanos(default_timeout) as int,
                }
            },
            r matches Err(e) ==> if request_text(payload.model()) is None {
                &&& e.reason@ == "missing script text"@
                &&& match e.script_ref {
                    Some(s) => request_ref(payload.model()) == Some(s@),
                    None => request_ref(payload.model()) is None,
                }
            } else {
                e.reason@ == "missing script ref"@ && e.script_ref is None
            },
    {
        let script_ref: Option<String> = match payload.get("ref") {
            Some(v) => match v.as_str() {
                Some(s) => {
                    let t = trim_slice(s.as_str());
                    if t.is_empty() {
                        None
                    } else {
                        Some(owned(t))
                    }
                },
                None => None,
            },
            None => None,
        };
        let text = match payload.get("text") {
            Some(v) => match v.as_str() {
                Some(s) => s.clone(),
                None => {
                    return Err(
                        ScriptRequestError { script_ref, reason: owned("missing script text") },
                    );
                },
            },
            None => {
                return Err(
                    ScriptRequestError { script_ref, reason: owned("missing script text") },
                );
            },
        };
        let script_ref = match script_ref {
            Some(s) => s,
            None => {
                return Err(ScriptRequestError { script_ref: None, reason: owned("missing script ref") });
            },
        };
        let timeout = match payload.get("timeout") {
            Some(v) => match timeout_from_value(v) {
                Some(t) => t,
                None => default_timeout,
            },
            None => default_timeout,
        };
        Ok(ScriptRequest { script_ref, text, timeout })
    }
}

/// The `Display` text of a script error.
pub open spec fn script_error_text(e: ScriptError) -> Seq<char> {
    match e {
        ScriptError::Timeout => "script timed out"@,
        ScriptError::Spawn { command, source } => "failed to start script command `"@ + command@
            + "`: "@ + source@,
        ScriptError::Command { command, status, output } => "script command `"@ + command@
            + "` failed with status "@ + status@ + ": "@ + output@,
        ScriptError::Io { context, source } => context@ + ": "@ + source@,
        ScriptError::Task { context, source } => context@ + ": "@ + source@,
    }
}

/// The reason reported for a failed script.
pub open spec fn script_reason(e: ScriptError) -> Seq<char> {
    match e {
        ScriptError::Timeout => "timeout"@,
        _ => script_error_text(e),
    }
}

/// The output reported for a failed script.
pub open spec fn script_failure_output(e: ScriptError) -> Seq<char> {
    match e {
        ScriptError::Timeout => "Error running script: timeout exceeded"@,
        _ => "Error running script: "@ + script_error_text(e),
    }
}

impl ScriptError {
    /// The error's message (its `Display` text).
    pub fn message(&self) -> (r: String)
        ensures
            r@ == script_error_text(*self),
    {
        match self {
            ScriptError::Timeout => owned("script timed out"),
            ScriptError::Spawn { command, source } => {
                let mut r = owned("failed to start script command `");
                r.append(command.as_str());
                r.append("`: ");
                r.append(source.as_str());
                r
            },
            ScriptError::Command { command, status, output } => {
                let mut r = owned("script command `");
                r.append(command.as_str());
                r.append("` failed with status ");
                r.append(status.as_str());
                r.append(": ");
                r.append(output.as_str());
                r
            },
            ScriptError::Io { context, source } => {
                let mut r = concat(context.as_str(), ": ");
                r.append(source.as_str());
                r
            },
            ScriptError::Task { context, source } => {
                let mut r = concat(context.as_str(), ": ");
                r.append(source.as_str());
                r
            },
        }
    }

    /// The reason reported for the failed script.
    pub fn result_reason(&self) -> (r: String)
        ensures
            r@ == script_reason(*self),
    {
        match self {
            ScriptError::Timeout => owned("timeout"),
            _ => self.message(),
        }
    }

    /// The output reported for the failed script.
    pub fn result_output(&self) -> (r: String)
        ensures
            r@ == script_failure_output(*self),
    {
        match self {
            ScriptError::Timeout => owned("Error running script: timeout exceeded"),
            _ => concat("Error running script: ", self.message().as_str()),
        }
    }
}

/// Runs scripts by passing their text to a command on stdin.
#[derive(Debug, Clone)]
pub struct CommandScriptRunner {
    command: String,
    args: Vec<String>,
}

impl CommandScriptRunner {
    /// A runner that starts `command` with `args`.
    pub fn new(command: &str, args: Vec<String>) -> (r: CommandScriptRunner)
        ensures
            r.command_text() == command@,
            r.arg_texts() == string_texts(args@),
    {
        CommandScriptRunner { command: owned(command), args }
    }

    /// The command's text.
    pub closed spec fn command_text(&self) -> Seq<char> {
        self.command@
    }

    /// The arguments' texts.
    pub closed spec fn arg_texts(&self) -> Seq<Seq<char>> {
        string_texts(self.args@)
    }

    /// The command.
    pub fn command(&self) -> (r: &str)
        ensures
            r@ == self.command_text(),
    {
        self.command.as_str()
    }

    /// The arguments.
    pub fn args(&self) -> (r: &[String])
        ensures
            string_texts(r@) == self.arg_texts(),
    {
        self.args.as_slice()
    }
}

/// Whether a script runner is installed, and the default timeout.
pub struct ScriptController {
    pub has_runner: bool,
    pub default_timeout: Duration,
}

impl ScriptController {
    /// The command runner of an optional `[scripts]` section: present when the
    /// section is enabled and names a non-blank command.
    pub fn from_config(config: Option<&ScriptsConfig>) -> (r: (ScriptController, Option<CommandScriptRunner>))
        ensures
            r.0.has_runner == r.1 is Some,
            r.1 is Some <==> (config matches Some(c) && c.enabled == Some(true) && present_command(
                c.command,
            ) is Some),
            r.1 matches Some(run) ==> (config matches Some(c) && present_command(c.command) == Some(
                run.command_text(),
            ) && run.arg_texts() == string_texts(list_or_empty(c.args)) && duration_nanos(
                r.0.default_timeout,
            ) == (match c.timeout_secs {
                Some(t) => t,
                None => 10,
            }) as int * 1_000_000_000),
            r.1 is None ==> duration_nanos(r.0.default_timeout) == 10_000_000_000,
    {
        let config = match config {
            Some(c) => c,
            None => {
                return (ScriptController::disabled(), None);
            },
        };
        if !config.enabled() {
            return (ScriptController::disabled(), None);
        }
        let command = match config.command() {
            Some(c) => c,
            None => {
                return (ScriptController::disabled(), None);
            },
        };
        let runner = CommandScriptRunner::new(command, copy_strings(config.args()));
        (ScriptController { has_runner: true, default_timeout: config.timeout() }, Some(runner))
    }

    /// A runner set by the caller, with the default timeout.
    pub fn with_runner() -> (r: ScriptController)
        ensures
            r.has_runner,
            duration_nanos(r.default_timeout) == 10_000_000_000,
    {
        ScriptController {
            has_runner: true,
            default_timeout: duration_from_secs(DEFAULT_SCRIPT_TIMEOUT_SECS),
        }
    }

    /// No runner.
    pub fn disabled() -> (r: ScriptController)
        ensures
            !r.has_runner,
            duration_nanos(r.default_timeout) == 10_000_000_000,
    {
        ScriptController {
            has_runner: false,
            default_timeout: duration_from_secs(DEFAULT_SCRIPT_TIMEOUT_SECS),
        }
    }
}

/// What `String::from_utf8_lossy` gives for bytes: their text, with each
/// invalid sequence replaced by U+FFFD.
pub uninterp spec fn utf8_lossy(bytes: Seq<u8>) -> Seq<char>;

/// `String::from_utf8_lossy`: the text of valid UTF-8 is the decoded text.
#[verifier::external_body]
pub(crate) fn lossy_text(bytes: &[u8]) -> (r: String)
    ensures
        r@ == utf8_lossy(bytes@),
        valid_utf8(bytes@) ==> r@ == decode_utf8(bytes@),
{
    String::from_utf8_lossy(bytes).into_owned()
}

/// The combined output of a script: stdout and stderr with trailing
/// whitespace removed, joined by a newline when both are non-empty.
pub open spec fn combined_text(stdout: Seq<char>, stderr: Seq<char>) -> Seq<char> {
    let o = trim_end(stdout);
    let e = trim_end(stderr);
    if o.len() == 0 {
        e
    } else if e.len() == 0 {
        o
    } else {
        o + "\n"@ + e
    }
}

/// The combined output of a script's stdout and stderr.
pub fn combined_output(stdout: &[u8], stderr: &[u8]) -> (r: String)
    ensures
        r@ == combined_text(utf8_lossy(stdout@), utf8_lossy(stderr@)),
{
    let o = trimmed_end(lossy_text(stdout).as_str());
    let e = trimmed_end(lossy_text(stderr).as_str());
    if o.as_str().is_empty() {
        e
    } else if e.as_str().is_empty() {
        o
    } else {
        let mut r = concat(o.as_str(), "\n");
        r.append(e.as_str());
        r
    }
}

/// The `scripts/run` report of a completed script.
pub open spec fn completed_json(script_ref: Seq<char>, output: Seq<char>, return_value: Seq<char>) -> Json {
    Json::Object(
        seq![
            ("ref"@, jstr(script_ref)),
            ("result"@, jstr("completed"@)),
            ("output"@, jstr(output)),
            ("return"@, jstr(return_value)),
        ],
    )
}

/// The `scripts/run` report of a failed script.
pub open spec fn failed_json(script_ref: Seq<char>, reason: Seq<char>, output: Seq<char>) -> Json {
    Json::Object(
        seq![
            ("ref"@, jstr(script_ref)),
            ("result"@, jstr("error"@)),
            ("reason"@, jstr(reason)),
            ("output"@, jstr(output)),
            ("return"@, jstr(""@)),
        ],
    )
}

/// The report of a completed script.
pub fn script_completed_payload(script_ref: &str, output: &str, return_value: &str) -> (r: JsonValue)
    ensures
        r.model() == completed_json(script_ref@, output@, return_value@),
{
    let v = vec![
        entry("ref", JsonValue::text(script_ref)),
        entry("result", JsonValue::text("completed")),
        entry("output", JsonValue::text(output)),
        entry("return", JsonValue::text(return_value)),
    ];
    assert(entries_model(v@) =~= completed_json(script_ref@, output@, return_value@)->Object_0);
    JsonValue::object(v)
}

/// The report of a failed script.
pub fn script_failed_payload(script_ref: &str, reason: &str, output: &str) -> (r: JsonValue)
    ensures
        r.model() == failed_json(script_ref@, reason@, output@),
{
    let v = vec![
        entry("ref", JsonValue::text(script_ref)),
        entry("result", JsonValue::text("error")),
        entry("reason", JsonValue::text(reason)),
        entry("output", JsonValue::text(output)),
        entry("return", JsonValue::text("")),
    ];
    assert(entries_model(v@) =~= failed_json(script_ref@, reason@, output@)->Object_0);
    JsonValue::object(v)
}

/// The report for a script's outcome.
pub open spec fn outcome_json(script_ref: Seq<char>, outcome: Result<ScriptOutput, ScriptError>) -> Json {
    match outcome {
        Ok(out) => completed_json(script_ref, out.output@, out.return_value@),
        Err(e) => failed_json(script_ref, script_reason(e), script_failure_output(e)),
    }
}

/// The report for a script's outcome.
pub fn script_outcome_payload(script_ref: &str, outcome: &Result<ScriptOutput, ScriptError>) -> (r: JsonValue)
    ensures
        r.model() == outcome_json(script_ref@, *outcome),
{
    match outcome {
        Ok(out) => script_completed_payload(script_ref, out.output.as_str(), out.return_value.as_str()),
        Err(e) => script_failed_payload(
            script_ref,
            e.result_reason().as_str(),
            e.result_output().as_str(),
        ),
    }
}

/// A completed script is reported under its reference with the result
/// `completed`, its output under `output` and its return value under
/// `return`.
pub proof fn lemma_completed_report_fields(script_ref: Seq<char>, out: ScriptOutput)
    ensures
        get(outcome_json(script_ref, Ok(out)), "ref"@) == Some(Json::Str(script_ref)),
        get(outcome_json(script_ref, Ok(out)), "result"@) == Some(Json::Str("completed"@)),
        get(outcome_json(script_ref, Ok(out)), "output"@) == Some(Json::Str(out.output@)),
        get(outcome_json(script_ref, Ok(out)), "return"@) == Some(Json::Str(out.return_value@)),
{
    reveal_strlit("ref");
    reveal_strlit("result");
    reveal_strlit("output");
    reveal_strlit("return");
    let es = outcome_json(script_ref, Ok(out))->Object_0;
    assert("ref"@.len() == 3 && "result"@.len() == 6 && "output"@.len() == 6);
    assert("result"@[0] != "output"@[0]);
    assert("ref"@[2] != "return"@[2]);
    assert("result"@[2] != "return"@[2]);
    assert("output"@[0] != "return"@[0]);
    lemma_key_index_at(es, "ref"@, 0);
    lemma_key_index_at(es, "result"@, 1);
    lemma_key_index_at(es, "output"@, 2);
    lemma_key_index_at(es, "return"@, 3);
}

/// What happens with a `scripts/run` request.
pub enum ScriptStart {
    /// The request has no usable reference: nothing is reported.
    Ignore { reason: String },
    /// The request is answered with a failure report; `requested` tells
    /// whether the request itself was well formed, so that the caller is told
    /// of it before the failure.
    Reject { script_ref: String, reason: String, output: String, requested: bool },
    /// The script is handed to the runner.
    Run(ScriptRequest),
}

/// Decides what happens with a `scripts/run` request: a payload that is no
/// request is rejected when it has a reference and ignored otherwise; with
/// no runner installed the request is rejected; otherwise it runs.
pub fn start_script(payload: &JsonValue, controller: &ScriptController) -> (r: ScriptStart)
    ensures
        match r {
            ScriptStart::Ignore { .. } => request_ref(payload.model()) is None && (request_text(
                payload.model(),
            ) is None || request_ref(payload.model()) is None),
            ScriptStart::Reject { script_ref, reason, output, requested } => request_ref(payload.model())
                == Some(script_ref@) && requested == (request_text(payload.model()) is Some) && if request_text(payload.model()) is None {
                reason@ == "missing script text"@ && output@ == "Error running script: "@
                    + "missing script text"@
            } else {
                !controller.has_runner && reason@ == "scripts are not enabled"@ && output@
                    == "Error running script: scripts are not enabled"@
            },
            ScriptStart::Run(req) => controller.has_runner && request_text(payload.model()) == Some(
                req.text@,
            ) && request_ref(payload.model()) == Some(req.script_ref@) && duration_nanos(
                req.timeout,
            ) == match request_timeout(payload.model()) {
                Some(ms) => ms as int * 1_000_000,
                None => duration_nanos(controller.default_timeout) as int,
            },
        },
        (r is Run) <==> (controller.has_runner && request_text(payload.model()) is Some
            && request_ref(payload.model()) is Some),
{
    match ScriptRequest::from_payload(payload, controller.default_timeout) {
        Err(error) => match error.script_ref {
            Some(script_ref) => {
                let output = concat("Error running script: ", error.reason.as_str());
                ScriptStart::Reject { script_ref, reason: error.reason, output, requested: false }
            },
            None => ScriptStart::Ignore { reason: error.reason },
        },
        Ok(request) => {
            if controller.has_runner {
                ScriptStart::Run(request)
            } else {
                ScriptStart::Reject {
                    script_ref: request.script_ref,
                    reason: owned("scripts are not enabled"),
                    output: owned("Error running script: scripts are not enabled"),
                    requested: true,
                }
            }
        },
    }
}

} // verus!
