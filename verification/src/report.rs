//! Reports for a person: what was checked, line by line, and what came of it.

use vstd::prelude::*;
use crate::locator::Platform;
use crate::text::{concat2, join, joined, string_views};

verus! {

/// What a line begins with that reports success.
pub const MARK_OK: &'static str = "✓ ";

/// What a line begins with that reports a failure.
pub const MARK_FAILED: &'static str = "✗ ";

/// What a line begins with that reports a doubt.
pub const MARK_WARNING: &'static str = "⚠ ";

/// What a line begins with that only informs.
pub const MARK_INFO: &'static str = "ℹ ";

/// What stands between what failed and why.
pub const REASON_SEPARATOR: &'static str = ": ";

/// What separates the lines of a report.
pub const LINE_BREAK: &'static str = "\n";

/// A report that grows line by line.
#[derive(Clone, Debug, PartialEq, Eq)]
pub struct Report {
    pub lines: Vec<String>,
}

impl View for Report {
    type V = Seq<Seq<char>>;

    open spec fn view(&self) -> Seq<Seq<char>> {
        string_views(self.lines@)
    }
}

/// The report as one text: its lines with a line break between neighbours.
pub open spec fn report_text(lines: Seq<Seq<char>>) -> Seq<char> {
    joined(lines, LINE_BREAK@)
}

impl Report {
    /// A report without lines.
    pub fn new() -> (report: Report)
        ensures
            report@ == Seq::<Seq<char>>::empty(),
    {
        let report = Report { lines: Vec::new() };
        assert(report@ =~= Seq::<Seq<char>>::empty());
        report
    }

    /// Adds a line as it stands.
    pub fn line(&mut self, text: String)
        ensures
            final(self)@ == old(self)@.push(text@),
    {
        self.lines.push(text);
        assert(self@ =~= old(self)@.push(text@));
    }

    /// Adds a line that reports success.
    pub fn ok(&mut self, what: &str)
        ensures
            final(self)@ == old(self)@.push(MARK_OK@ + what@),
    {
        self.line(concat2(MARK_OK, what));
    }

    /// Adds a line that reports a doubt.
    pub fn warning(&mut self, what: &str)
        ensures
            final(self)@ == old(self)@.push(MARK_WARNING@ + what@),
    {
        self.line(concat2(MARK_WARNING, what));
    }

    /// Adds a line that only informs.
    pub fn info(&mut self, what: &str)
        ensures
            final(self)@ == old(self)@.push(MARK_INFO@ + what@),
    {
        self.line(concat2(MARK_INFO, what));
    }

    /// Adds a line that reports what failed and why.
    pub fn failed(&mut self, what: &str, why: &str)
        ensures
            final(self)@ == old(self)@.push(MARK_FAILED@ + what@ + REASON_SEPARATOR@ + why@),
    {
        let mut text = concat2(MARK_FAILED, what);
        text.append(REASON_SEPARATOR);
        text.append(why);
        self.line(text);
    }

    /// The report as one text.
    pub fn render(&self) -> (text: String)
        ensures
            text@ == report_text(self@),
    {
        join(&self.lines, LINE_BREAK)
    }
}

// ---------------------------------------------------------------------------
// Restarting the browser
// ---------------------------------------------------------------------------

/// How a command ended that was to close the browser.
#[derive(Clone, Debug, PartialEq, Eq)]
pub enum CloseOutcome {
    /// The command ran and reported success.
    Succeeded,
    /// The command ran and reported no success.
    Rejected,
    /// The command could not be run; the field says why.
    Unavailable(String),
}

/// A `CloseOutcome` as plain values.
pub enum CloseOutcomeView {
    Succeeded,
    Rejected,
    Unavailable(Seq<char>),
}

impl View for CloseOutcome {
    type V = CloseOutcomeView;

    open spec fn view(&self) -> CloseOutcomeView {
        match self {
            CloseOutcome::Succeeded => CloseOutcomeView::Succeeded,
            CloseOutcome::Rejected => CloseOutcomeView::Rejected,
            CloseOutcome::Unavailable(why) => CloseOutcomeView::Unavailable(why@),
        }
    }
}

/// What the listing of processes said after the request to close.
#[derive(Clone, Debug, PartialEq, Eq)]
pub enum ListingOutcome {
    /// A browser still runs.
    Running,
    /// No browser runs.
    NotRunning,
    /// The processes could not be listed; the field says why.
    Unknown(String),
}

/// A `ListingOutcome` as plain values.
pub enum ListingOutcomeView {
    Running,
    NotRunning,
    Unknown(Seq<char>),
}

impl View for ListingOutcome {
    type V = ListingOutcomeView;

    open spec fn view(&self) -> ListingOutcomeView {
        match self {
            ListingOutcome::Running => ListingOutcomeView::Running,
            ListingOutcome::NotRunning => ListingOutcomeView::NotRunning,
            ListingOutcome::Unknown(why) => ListingOutcomeView::Unknown(why@),
        }
    }
}

/// What was seen while the browser was closed for a restart.
#[derive(Clone, Debug, PartialEq, Eq)]
pub struct RestartObservations {
    /// How the request to close ended.
    pub gentle: CloseOutcome,
    /// Whether a browser still ran afterwards.
    pub still_running: ListingOutcome,
    /// How the close by force ended, where one was called for.
    pub forced: Option<CloseOutcome>,
    /// Whether a browser runs at the end.
    pub running_at_end: bool,
}

/// A browser is closed by force where it still runs after it was asked to
/// close; on platforms other than Windows it is closed by force in any case.
pub open spec fn needs_force(platform: Platform, still_running: bool) -> bool {
    platform != Platform::Windows || still_running
}

/// Tells whether the browser is to be closed by force.
pub fn force_needed(platform: Platform, still_running: bool) -> (force: bool)
    ensures
        force == needs_force(platform, still_running),
{
    match platform {
        Platform::Windows => still_running,
        _ => true,
    }
}

/// What is said of a browser that closed when asked.
pub const GENTLE_CLOSED: &'static str = "Chrome was asked to close and did";

/// What is said of a browser that did not close when asked.
pub const GENTLE_REJECTED: &'static str = "Chrome did not close when asked; closing it by force";

/// What is said where the browser could not be asked to close.
pub const GENTLE_UNAVAILABLE: &'static str = "Chrome could not be asked to close; closing it by force";

/// What is said where no browser runs any more.
pub const ALL_CLOSED: &'static str = "all Chrome processes are closed";

/// What is said where the processes could not be listed.
pub const LISTING_FAILED: &'static str = "the Chrome processes could not be listed";

/// What is said of a browser that was closed by force.
pub const FORCE_CLOSED: &'static str = "all Chrome processes were closed by force";

/// What is said of a browser that withstood the force.
pub const FORCE_REJECTED: &'static str = "Chrome could not be closed by force";

/// What is said at the end where no browser runs.
pub const CONFIRMED_CLOSED: &'static str = "confirmed: no Chrome process runs";

/// What is said at the end where a browser may still run.
pub const MAYBE_RUNNING: &'static str = "some Chrome processes may still run";

/// What stands before the command with which the browser is started again.
pub const RESTART_WITH: &'static str = "Chrome is closed. Start it again with this command:";

/// What the report ends with.
pub const RESTART_HINT: &'static str =
    "After the command has run, the connection is detected by itself.";

/// The line for the request to close.
pub open spec fn gentle_line(gentle: CloseOutcomeView) -> Seq<char> {
    match gentle {
        CloseOutcomeView::Succeeded => MARK_OK@ + GENTLE_CLOSED@,
        CloseOutcomeView::Rejected => MARK_WARNING@ + GENTLE_REJECTED@,
        CloseOutcomeView::Unavailable(_) => MARK_WARNING@ + GENTLE_UNAVAILABLE@,
    }
}

/// The line for the close by force.
pub open spec fn forced_line(forced: CloseOutcomeView) -> Seq<char> {
    match forced {
        CloseOutcomeView::Succeeded => MARK_OK@ + FORCE_CLOSED@,
        CloseOutcomeView::Rejected => MARK_FAILED@ + FORCE_REJECTED@ + REASON_SEPARATOR@
            + Seq::<char>::empty(),
        CloseOutcomeView::Unavailable(why) => MARK_FAILED@ + FORCE_REJECTED@ + REASON_SEPARATOR@
            + why,
    }
}

/// The line for what the listing of processes said.
pub open spec fn listing_line(still_running: ListingOutcomeView) -> Option<Seq<char>> {
    match still_running {
        ListingOutcomeView::Running => None,
        ListingOutcomeView::NotRunning => Some(MARK_OK@ + ALL_CLOSED@),
        ListingOutcomeView::Unknown(why) => Some(
            MARK_FAILED@ + LISTING_FAILED@ + REASON_SEPARATOR@ + why,
        ),
    }
}

/// The line for the end.
pub open spec fn final_line(running_at_end: bool) -> Seq<char> {
    if running_at_end {
        MARK_WARNING@ + MAYBE_RUNNING@
    } else {
        MARK_OK@ + CONFIRMED_CLOSED@
    }
}

/// The lines of the report on a restart: the request to close, what the
/// listing said, the close by force where there was one, the end, and the
/// command with which the browser is started again.
pub open spec fn restart_lines(
    gentle: CloseOutcomeView,
    still_running: ListingOutcomeView,
    forced: Option<CloseOutcomeView>,
    running_at_end: bool,
    launch_command: Seq<char>,
) -> Seq<Seq<char>> {
    seq![gentle_line(gentle)] + (match listing_line(still_running) {
        Some(line) => seq![line],
        None => Seq::empty(),
    }) + (match forced {
        Some(forced) => seq![forced_line(forced)],
        None => Seq::empty(),
    }) + seq![
        final_line(running_at_end),
        Seq::<char>::empty(),
        RESTART_WITH@,
        Seq::<char>::empty(),
        launch_command,
        Seq::<char>::empty(),
        RESTART_HINT@,
    ]
}

/// The view of an optional outcome.
pub open spec fn opt_outcome(o: Option<CloseOutcome>) -> Option<CloseOutcomeView> {
    match o {
        Some(outcome) => Some(outcome@),
        None => None,
    }
}

/// Writes the line for the request to close.
fn gentle_line_text(gentle: &CloseOutcome) -> (line: String)
    ensures
        line@ == gentle_line(gentle@),
{
    match gentle {
        CloseOutcome::Succeeded => concat2(MARK_OK, GENTLE_CLOSED),
        CloseOutcome::Rejected => concat2(MARK_WARNING, GENTLE_REJECTED),
        CloseOutcome::Unavailable(_) => concat2(MARK_WARNING, GENTLE_UNAVAILABLE),
    }
}

/// Writes the line for the close by force.
fn forced_line_text(forced: &CloseOutcome) -> (line: String)
    ensures
        line@ == forced_line(forced@),
{
    match forced {
        CloseOutcome::Succeeded => concat2(MARK_OK, FORCE_CLOSED),
        CloseOutcome::Rejected => {
            let mut line = concat2(MARK_FAILED, FORCE_REJECTED);
            line.append(REASON_SEPARATOR);
            assert(line@ =~= MARK_FAILED@ + FORCE_REJECTED@ + REASON_SEPARATOR@
                + Seq::<char>::empty());
            line
        },
        CloseOutcome::Unavailable(why) => {
            let mut line = concat2(MARK_FAILED, FORCE_REJECTED);
            line.append(REASON_SEPARATOR);
            line.append(why.as_str());
            line
        },
    }
}

/// Writes the line for what the listing of processes said.
fn listing_line_text(still_running: &ListingOutcome) -> (line: Option<String>)
    ensures
        crate::models::opt_text(line) == listing_line(still_running@),
{
    match still_running {
        ListingOutcome::Running => None,
        ListingOutcome::NotRunning => Some(concat2(MARK_OK, ALL_CLOSED)),
        ListingOutcome::Unknown(why) => {
            let mut line = concat2(MARK_FAILED, LISTING_FAILED);
            line.append(REASON_SEPARATOR);
            line.append(why.as_str());
            Some(line)
        },
    }
}

/// Writes the line for the end.
fn final_line_text(running_at_end: bool) -> (line: String)
    ensures
        line@ == final_line(running_at_end),
{
    if running_at_end {
        concat2(MARK_WARNING, MAYBE_RUNNING)
    } else {
        concat2(MARK_OK, CONFIRMED_CLOSED)
    }
}

/// Writes the report on a restart of the browser.
pub fn force_restart_report(seen: &RestartObservations, launch_command: &str) -> (text: String)
    ensures
        text@ == report_text(
            restart_lines(
                seen.gentle@,
                seen.still_running@,
                opt_outcome(seen.forced),
                seen.running_at_end,
                launch_command@,
            ),
        ),
{
    let mut report = Report::new();
    report.line(gentle_line_text(&seen.gentle));
    if let Some(line) = listing_line_text(&seen.still_running) {
        report.line(line);
    }
    let ghost head = seq![gentle_line(seen.gentle@)] + (match listing_line(seen.still_running@) {
        Some(line) => seq![line],
        None => Seq::empty(),
    });
    assert(report@ =~= head);
    if let Some(forced) = &seen.forced {
        report.line(forced_line_text(forced));
    }
    let ghost body = head + (match opt_outcome(seen.forced) {
        Some(forced) => seq![forced_line(forced)],
        None => Seq::empty(),
    });
    assert(report@ =~= body);
    report.line(final_line_text(seen.running_at_end));
    report.line(String::new());
    report.line(String::from_str(RESTART_WITH));
    report.line(String::new());
    report.line(String::from_str(launch_command));
    report.line(String::new());
    report.line(String::from_str(RESTART_HINT));
    assert(report@ =~= body + seq![
        final_line(seen.running_at_end),
        Seq::<char>::empty(),
        RESTART_WITH@,
        Seq::<char>::empty(),
        launch_command@,
        Seq::<char>::empty(),
        RESTART_HINT@,
    ]);
    report.render()
}

/// What the check of the environment reports.
pub const ENVIRONMENT_READY: &'static str = "The environment check is ready.";

/// The report of the check of the environment.
pub fn check_automation_environment_public() -> (report: String)
    ensures
        report@ == ENVIRONMENT_READY@,
{
    String::from_str(ENVIRONMENT_READY)
}

/// What is reported when the address of the database was forgotten.
pub const CACHE_CLEARED: &'static str = "Database cache cleared successfully";

} // verus!
