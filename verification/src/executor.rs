//! The workflow executor: how the automation engine is called, what its
//! outcome means, and which simpler strategy comes next when one fails.

use vstd::prelude::*;
use crate::settings::Settings;
use crate::text::{
    ascii_lower, ascii_lowered, blank, chars_of, contains, contains_text, decimal_digits,
    decimal_of_i64, decimal_of_u64, decimal_text, is_blank, is_whitespace,
    lemma_text_with_a_mark_is_not_blank, occurs_at, string_of, string_views, to_ascii_lowercase,
};

verus! {

// ---------------------------------------------------------------------------
// The fallback ladder
// ---------------------------------------------------------------------------

/// The strategies of the fallback ladder, from the full one down.
#[derive(Clone, Copy, Debug, PartialEq, Eq, Structural)]
pub enum Strategy {
    /// The script with every field and every upload.
    Primary,
    /// The script that fills in the fields and leaves the uploads out.
    Simplified,
    /// The page is opened and a person follows a written guide.
    ManualGuide,
}

impl Strategy {
    /// The place of the strategy on the ladder, from the top.
    pub open spec fn rank(self) -> nat {
        match self {
            Strategy::Primary => 0,
            Strategy::Simplified => 1,
            Strategy::ManualGuide => 2,
        }
    }

    /// The strategy that is tried when this one has failed.
    pub open spec fn spec_next(self) -> Option<Strategy> {
        match self {
            Strategy::Primary => Some(Strategy::Simplified),
            Strategy::Simplified => Some(Strategy::ManualGuide),
            Strategy::ManualGuide => None,
        }
    }

    /// The strategies that are still to come after this one.
    pub open spec fn rungs_below(self) -> nat {
        (2 - self.rank()) as nat
    }

    /// The strategy with which every run begins.
    pub fn first() -> (s: Strategy)
        ensures
            s == Strategy::Primary,
            s.rank() == 0,
    {
        Strategy::Primary
    }

    /// The strategy that is tried when this one has failed, or `None` at the
    /// foot of the ladder.
    #[verifier::when_used_as_spec(spec_next)]
    pub fn next(self) -> (n: Option<Strategy>)
        ensures
            n == self.spec_next(),
            n matches Some(s) ==> s.rank() == self.rank() + 1,
            n is None <==> self.rungs_below() == 0,
    {
        match self {
            Strategy::Primary => Some(Strategy::Simplified),
            Strategy::Simplified => Some(Strategy::ManualGuide),
            Strategy::ManualGuide => None,
        }
    }

    /// Tests whether the strategy runs the automation engine.
    pub fn runs_engine(self) -> (b: bool)
        ensures
            b == (self != Strategy::ManualGuide),
    {
        match self {
            Strategy::ManualGuide => false,
            _ => true,
        }
    }

    /// Tests whether the script of the strategy uploads the files.
    pub fn uploads_files(self) -> (b: bool)
        ensures
            b == (self == Strategy::Primary),
    {
        match self {
            Strategy::Primary => true,
            _ => false,
        }
    }
}

/// The strategy that is reached from `from` after `failures` failures in a
/// row, or `None` where the ladder ends before.
pub open spec fn strategy_after(from: Strategy, failures: nat) -> Option<Strategy>
    decreases failures,
{
    if failures == 0 {
        Some(from)
    } else {
        match from.spec_next() {
            Some(next) => strategy_after(next, (failures - 1) as nat),
            None => None,
        }
    }
}

/// The ladder is linear: each failure leads one rung down, so that no
/// strategy is reached twice, and it ends after the last rung.
pub proof fn lemma_ladder_is_linear(from: Strategy, failures: nat)
    ensures
        strategy_after(from, failures) matches Some(s) ==> s.rank() == from.rank() + failures,
        failures > from.rungs_below() ==> strategy_after(from, failures) is None,
    decreases failures,
{
    if failures > 0 {
        match from.spec_next() {
            Some(next) => {
                lemma_ladder_is_linear(next, (failures - 1) as nat);
            },
            None => {},
        }
    }
}

/// Two different numbers of failures never lead to the same strategy.
pub proof fn lemma_each_rung_at_most_once(from: Strategy, first: nat, second: nat)
    requires
        first != second,
        strategy_after(from, first) is Some,
        strategy_after(from, second) is Some,
    ensures
        strategy_after(from, first) != strategy_after(from, second),
{
    lemma_ladder_is_linear(from, first);
    lemma_ladder_is_linear(from, second);
}

// ---------------------------------------------------------------------------
// Outcomes
// ---------------------------------------------------------------------------

/// What came back from a process that ran to its end.
#[derive(Clone, Debug, PartialEq, Eq)]
pub struct ExitReport {
    /// The exit code, or `None` where the process was ended by a signal.
    pub exit_code: Option<i32>,
    pub stdout: String,
    pub stderr: String,
}

/// An `ExitReport` as plain values.
pub struct ExitReportView {
    pub exit_code: Option<i32>,
    pub stdout: Seq<char>,
    pub stderr: Seq<char>,
}

impl View for ExitReport {
    type V = ExitReportView;

    open spec fn view(&self) -> ExitReportView {
        ExitReportView { exit_code: self.exit_code, stdout: self.stdout@, stderr: self.stderr@ }
    }
}

/// How one strategy ended.
#[derive(Clone, Debug, PartialEq, Eq)]
pub enum EngineOutcome {
    /// The process ran and ended.
    Exited(ExitReport),
    /// The process could not be started; the field says why.
    SpawnFailed(String),
}

/// An `EngineOutcome` as plain values.
pub enum EngineOutcomeView {
    Exited(ExitReportView),
    SpawnFailed(Seq<char>),
}

impl View for EngineOutcome {
    type V = EngineOutcomeView;

    open spec fn view(&self) -> EngineOutcomeView {
        match self {
            EngineOutcome::Exited(report) => EngineOutcomeView::Exited(report@),
            EngineOutcome::SpawnFailed(why) => EngineOutcomeView::SpawnFailed(why@),
        }
    }
}

/// The likely cause of a failure, as far as the captured text tells.
#[derive(Clone, Copy, Debug, PartialEq, Eq, Structural)]
pub enum FailureCause {
    ToolNotFound,
    Timeout,
    Permission,
    Network,
    Unknown,
}

/// Why a strategy failed.
#[derive(Clone, Debug, PartialEq, Eq)]
pub struct ExecutionError {
    pub cause: FailureCause,
    /// The exit code, where the process ran and gave one.
    pub exit_code: Option<i32>,
    /// What the process wrote, or why it could not be started.
    pub diagnostic: String,
}

/// An `ExecutionError` as plain values.
pub struct ExecutionErrorView {
    pub cause: FailureCause,
    pub exit_code: Option<i32>,
    pub diagnostic: Seq<char>,
}

impl View for ExecutionError {
    type V = ExecutionErrorView;

    open spec fn view(&self) -> ExecutionErrorView {
        ExecutionErrorView {
            cause: self.cause,
            exit_code: self.exit_code,
            diagnostic: self.diagnostic@,
        }
    }
}

// ---------------------------------------------------------------------------
// Classification
// ---------------------------------------------------------------------------

/// A sign of a tool that is missing.
pub const SIGN_NOT_FOUND: &'static str = "not found";

/// A sign of a tool that is missing, as the system calls reports it.
pub const SIGN_ENOENT: &'static str = "enoent";

/// A sign of a command that the shell does not know.
pub const SIGN_NOT_RECOGNIZED: &'static str = "not recognized";

/// A sign of a wait that ran out.
pub const SIGN_TIMEOUT: &'static str = "timeout";

/// A sign of a wait that ran out, in two words.
pub const SIGN_TIMED_OUT: &'static str = "timed out";

/// A sign of missing rights.
pub const SIGN_PERMISSION: &'static str = "permission";

/// A sign of missing rights, as the system calls report it.
pub const SIGN_EACCES: &'static str = "eacces";

/// A sign of missing rights, as Windows reports it.
pub const SIGN_ACCESS_DENIED: &'static str = "access is denied";

/// A sign of trouble with the network.
pub const SIGN_NETWORK: &'static str = "network";

/// A sign of a connection that was refused.
pub const SIGN_ECONNREFUSED: &'static str = "econnrefused";

/// A sign of a network error as the browser reports it.
pub const SIGN_NET_ERR: &'static str = "net::err";

/// The text names a tool that is missing.
pub open spec fn mentions_missing_tool(lowered: Seq<char>) -> bool {
    ||| contains_text(lowered, SIGN_NOT_FOUND@)
    ||| contains_text(lowered, SIGN_ENOENT@)
    ||| contains_text(lowered, SIGN_NOT_RECOGNIZED@)
}

/// The text names a wait that ran out.
pub open spec fn mentions_timeout(lowered: Seq<char>) -> bool {
    ||| contains_text(lowered, SIGN_TIMEOUT@)
    ||| contains_text(lowered, SIGN_TIMED_OUT@)
}

/// The text names missing rights.
pub open spec fn mentions_permission(lowered: Seq<char>) -> bool {
    ||| contains_text(lowered, SIGN_PERMISSION@)
    ||| contains_text(lowered, SIGN_EACCES@)
    ||| contains_text(lowered, SIGN_ACCESS_DENIED@)
}

/// The text names trouble with the network.
pub open spec fn mentions_network(lowered: Seq<char>) -> bool {
    ||| contains_text(lowered, SIGN_NETWORK@)
    ||| contains_text(lowered, SIGN_ECONNREFUSED@)
    ||| contains_text(lowered, SIGN_NET_ERR@)
}

/// The cause that a captured text points to. Letter case does not count, and
/// where several signs occur the first of these wins: a timeout, a missing
/// tool, missing rights, the network. A timeout comes first because the
/// engine reports what it waited for in vain in the words of a search that
/// found nothing.
pub open spec fn cause_of(diagnostic: Seq<char>) -> FailureCause {
    let lowered = ascii_lowered(diagnostic);
    if mentions_timeout(lowered) {
        FailureCause::Timeout
    } else if mentions_missing_tool(lowered) {
        FailureCause::ToolNotFound
    } else if mentions_permission(lowered) {
        FailureCause::Permission
    } else if mentions_network(lowered) {
        FailureCause::Network
    } else {
        FailureCause::Unknown
    }
}

/// Tests whether one of three signs occurs in `lowered`.
fn any_of(lowered: &Vec<char>, a: &str, b: &str, c: &str) -> (found: bool)
    ensures
        found == (contains_text(lowered@, a@) || contains_text(lowered@, b@) || contains_text(
            lowered@,
            c@,
        )),
{
    contains(lowered, &chars_of(a)) || contains(lowered, &chars_of(b)) || contains(
        lowered,
        &chars_of(c),
    )
}

/// Finds the cause that a captured text points to.
pub fn classify(diagnostic: &str) -> (cause: FailureCause)
    ensures
        cause == cause_of(diagnostic@),
{
    let lowered = to_ascii_lowercase(&chars_of(diagnostic));
    if contains(&lowered, &chars_of(SIGN_TIMEOUT)) || contains(
        &lowered,
        &chars_of(SIGN_TIMED_OUT),
    ) {
        FailureCause::Timeout
    } else if any_of(&lowered, SIGN_NOT_FOUND, SIGN_ENOENT, SIGN_NOT_RECOGNIZED) {
        FailureCause::ToolNotFound
    } else if any_of(&lowered, SIGN_PERMISSION, SIGN_EACCES, SIGN_ACCESS_DENIED) {
        FailureCause::Permission
    } else if any_of(&lowered, SIGN_NETWORK, SIGN_ECONNREFUSED, SIGN_NET_ERR) {
        FailureCause::Network
    } else {
        FailureCause::Unknown
    }
}

/// What a report gives as diagnostic: the error stream, or the output where
/// the error stream is blank.
pub open spec fn diagnostic_of(report: ExitReportView) -> Seq<char> {
    if is_blank(report.stderr) {
        report.stdout
    } else {
        report.stderr
    }
}

/// What an outcome means: success exactly for a process that ended with exit
/// code 0, else the error with its cause.
pub open spec fn judged(outcome: EngineOutcomeView) -> Result<(), ExecutionErrorView> {
    match outcome {
        EngineOutcomeView::Exited(report) => if report.exit_code == Some(0i32) {
            Ok(())
        } else {
            Err(
                ExecutionErrorView {
                    cause: cause_of(diagnostic_of(report)),
                    exit_code: report.exit_code,
                    diagnostic: diagnostic_of(report),
                },
            )
        },
        EngineOutcomeView::SpawnFailed(why) => Err(
            ExecutionErrorView {
                cause: FailureCause::ToolNotFound,
                exit_code: None,
                diagnostic: why,
            },
        ),
    }
}

/// Judges the outcome of one strategy.
pub fn judge(outcome: &EngineOutcome) -> (r: Result<(), ExecutionError>)
    ensures
        match r {
            Ok(()) => judged(outcome@) == Ok::<(), ExecutionErrorView>(()),
            Err(e) => judged(outcome@) == Err::<(), ExecutionErrorView>(e@),
        },
{
    match outcome {
        EngineOutcome::Exited(report) => {
            let succeeded = match report.exit_code {
                Some(code) => code == 0,
                None => false,
            };
            if succeeded {
                Ok(())
            } else {
                let diagnostic = if blank(&chars_of(report.stderr.as_str())) {
                    report.stdout.clone()
                } else {
                    report.stderr.clone()
                };
                let cause = classify(diagnostic.as_str());
                Err(ExecutionError { cause, exit_code: report.exit_code, diagnostic })
            }
        },
        EngineOutcome::SpawnFailed(why) => Err(
            ExecutionError {
                cause: FailureCause::ToolNotFound,
                exit_code: None,
                diagnostic: why.clone(),
            },
        ),
    }
}

// ---------------------------------------------------------------------------
// Messages
// ---------------------------------------------------------------------------

/// What is said of a tool that is missing.
pub const ADVICE_TOOL_NOT_FOUND: &'static str =
    "the automation engine was not found; install Node.js and Playwright";

/// What is said of a wait that ran out.
pub const ADVICE_TIMEOUT: &'static str =
    "the automation ran into a timeout; check the network connection and complete the verification in time";

/// What is said of missing rights.
pub const ADVICE_PERMISSION: &'static str =
    "the automation was denied permission; check the access rights of the files and of the browser";

/// What is said of trouble with the network.
pub const ADVICE_NETWORK: &'static str =
    "the automation lost the network; check the connection and the debug port of the browser";

/// What is said where the cause is not known.
pub const ADVICE_UNKNOWN: &'static str = "the automation engine failed";

/// What stands before the exit code in a message.
pub const EXIT_CODE_OPEN: &'static str = " (exit code: ";

/// What stands for an exit code that is not there.
pub const EXIT_CODE_NONE: &'static str = "none";

/// What stands between the exit code and the diagnostic in a message.
pub const EXIT_CODE_CLOSE: &'static str = "): ";

impl FailureCause {
    /// The advice that goes with the cause.
    pub open spec fn advice(self) -> Seq<char> {
        match self {
            FailureCause::ToolNotFound => ADVICE_TOOL_NOT_FOUND@,
            FailureCause::Timeout => ADVICE_TIMEOUT@,
            FailureCause::Permission => ADVICE_PERMISSION@,
            FailureCause::Network => ADVICE_NETWORK@,
            FailureCause::Unknown => ADVICE_UNKNOWN@,
        }
    }

    /// The advice that goes with the cause.
    pub fn advice_text(self) -> (advice: &'static str)
        ensures
            advice@ == self.advice(),
    {
        match self {
            FailureCause::ToolNotFound => ADVICE_TOOL_NOT_FOUND,
            FailureCause::Timeout => ADVICE_TIMEOUT,
            FailureCause::Permission => ADVICE_PERMISSION,
            FailureCause::Network => ADVICE_NETWORK,
            FailureCause::Unknown => ADVICE_UNKNOWN,
        }
    }
}

/// An exit code as it stands in a message.
pub open spec fn exit_code_text(code: Option<i32>) -> Seq<char> {
    match code {
        Some(code) => decimal_text(code as int),
        None => EXIT_CODE_NONE@,
    }
}

impl ExecutionErrorView {
    /// The message that a person reads: the advice, the exit code, and what
    /// the process wrote.
    pub open spec fn message(self) -> Seq<char> {
        self.cause.advice() + EXIT_CODE_OPEN@ + exit_code_text(self.exit_code) + EXIT_CODE_CLOSE@
            + self.diagnostic
    }
}

impl ExecutionError {
    /// The message that a person reads.
    pub fn message(&self) -> (m: String)
        ensures
            m@ == self@.message(),
    {
        let code = match self.exit_code {
            Some(code) => string_of(&decimal_of_i64(code as i64)),
            None => String::from_str(EXIT_CODE_NONE),
        };
        let mut m = String::from_str(self.cause.advice_text());
        m.append(EXIT_CODE_OPEN);
        m.append(code.as_str());
        m.append(EXIT_CODE_CLOSE);
        m.append(self.diagnostic.as_str());
        m
    }
}

// ---------------------------------------------------------------------------
// Laws
// ---------------------------------------------------------------------------

/// A process that ended with another exit code than 0, and whose error
/// stream holds the word `timeout` in whatever letter case, failed by a
/// timeout: the error has that cause, whatever else the stream holds, and
/// its message is the advice on timeouts and the network, the exit code,
/// and the error stream.
pub proof fn lemma_timeout_in_the_error_stream(report: ExitReportView)
    requires
        report.exit_code != Some(0i32),
        contains_text(ascii_lowered(report.stderr), SIGN_TIMEOUT@),
    ensures
        judged(EngineOutcomeView::Exited(report)) == Err::<(), ExecutionErrorView>(
            ExecutionErrorView {
                cause: FailureCause::Timeout,
                exit_code: report.exit_code,
                diagnostic: report.stderr,
            },
        ),
        judged(EngineOutcomeView::Exited(report))->Err_0.message() == ADVICE_TIMEOUT@
            + EXIT_CODE_OPEN@ + exit_code_text(report.exit_code) + EXIT_CODE_CLOSE@
            + report.stderr,
{
    reveal_strlit("timeout");
    let lowered = ascii_lowered(report.stderr);
    let at = choose|i: int| occurs_at(lowered, SIGN_TIMEOUT@, i);
    let window = lowered.subrange(at, at + SIGN_TIMEOUT@.len());
    assert(window[0] == 't');
    assert(lowered[at] == window[0]);
    assert(ascii_lower(report.stderr[at]) == 't');
    assert(!is_whitespace(report.stderr[at]));
    lemma_text_with_a_mark_is_not_blank(report.stderr, at);
}

/// The word `timeout` in small letters is found whatever the letter case
/// of the text around it is: a text that holds it holds it after lowering.
pub proof fn lemma_timeout_survives_lowering(text: Seq<char>)
    requires
        contains_text(text, SIGN_TIMEOUT@),
    ensures
        contains_text(ascii_lowered(text), SIGN_TIMEOUT@),
        cause_of(text) == FailureCause::Timeout,
{
    reveal_strlit("timeout");
    let at = choose|i: int| occurs_at(text, SIGN_TIMEOUT@, i);
    let lowered = ascii_lowered(text);
    let sign = SIGN_TIMEOUT@;
    assert forall|k: int| 0 <= k < sign.len() implies lowered.subrange(at, at + sign.len())[k]
        == sign[k] by {
        assert(text.subrange(at, at + sign.len())[k] == text[at + k]);
        assert(lowered[at + k] == ascii_lower(text[at + k]));
    }
    assert(lowered.subrange(at, at + sign.len()) =~= sign);
    assert(occurs_at(lowered, sign, at));
}

// ---------------------------------------------------------------------------
// The call
// ---------------------------------------------------------------------------

/// Where the script is written before the engine runs it, relative to the
/// directory in which the engine is started.
pub const SCRIPT_FILE: &'static str = "tests/temp_connect_script.spec.js";

/// The tool of the engine that is run.
pub const ENGINE_TOOL: &'static str = "playwright";

/// The command of the tool that runs a script.
pub const ENGINE_COMMAND: &'static str = "test";

/// The option that bounds the run, up to the number of milliseconds.
pub const ENGINE_TIMEOUT_OPTION: &'static str = "--timeout=";

/// The variable that tells the engine where its browsers are.
pub const ENGINE_BROWSERS_VARIABLE: &'static str = "PLAYWRIGHT_BROWSERS_PATH";

/// The value of that variable: the browsers that came with the engine.
pub const ENGINE_BROWSERS_VALUE: &'static str = "0";

/// The arguments with which the script runner is called: the tool, the
/// command, the script, and the limit in milliseconds.
pub open spec fn engine_arguments_of(script_path: Seq<char>, settings: Settings) -> Seq<
    Seq<char>,
> {
    seq![
        ENGINE_TOOL@,
        ENGINE_COMMAND@,
        script_path,
        ENGINE_TIMEOUT_OPTION@ + decimal_digits((settings.engine_timeout_secs * 1000) as nat),
    ]
}

/// The arguments with which the script runner is called.
pub fn engine_arguments(script_path: &str, settings: &Settings) -> (arguments: Vec<String>)
    ensures
        string_views(arguments@) == engine_arguments_of(script_path@, *settings),
{
    let millis: u64 = (settings.engine_timeout_secs as u64) * 1000;
    let mut limit = String::from_str(ENGINE_TIMEOUT_OPTION);
    limit.append(string_of(&decimal_of_u64(millis)).as_str());
    let mut arguments: Vec<String> = Vec::new();
    arguments.push(String::from_str(ENGINE_TOOL));
    arguments.push(String::from_str(ENGINE_COMMAND));
    arguments.push(String::from_str(script_path));
    arguments.push(limit);
    assert(string_views(arguments@) =~= engine_arguments_of(script_path@, *settings));
    arguments
}

} // verus!
