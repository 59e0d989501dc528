//! The orchestrator: the one place that starts, stops and reports a run, and
//! that decides, answer by answer, what the run does next.
//!
//! The orchestrator does nothing to the outside world itself. `start` and
//! `advance` hand out a `RunAction`; the caller carries it out and comes
//! back with a `RunEvent`. At most one run is in flight: a second `start` is
//! turned down, and answers that belong to an earlier run are dropped.

use vstd::prelude::*;
use crate::errors::ValidationErrorView;
use crate::executor::{
    engine_arguments, engine_arguments_of, exit_code_text, judge, judged,
    lemma_timeout_in_the_error_stream, EngineOutcome, EngineOutcomeView, ExitReportView,
    FailureCause, Strategy, ADVICE_TIMEOUT, EXIT_CODE_CLOSE, EXIT_CODE_OPEN, SCRIPT_FILE,
    SIGN_TIMEOUT,
};
use crate::files::{found_among, lemma_found_among_agrees, FileSnapshot, FileSnapshotView};
use crate::gate::{wait_outcome_of, GatePhase, VerificationGate, WaitOutcome};
use crate::locator::Platform;
use crate::models::{
    clone_opt_text, opt_text, AutomationRequest, AutomationRequestView, AutomationStatus,
    AutomationStatusView, Case, CaseView, IpAsset, IpAssetView, Profile, ProfileView, Timestamp,
};
use crate::script::{guide_text, render_guide, render_script, script_text, APPEAL_PAGE_URL};
use crate::session::{
    BrowserSession, SessionAction, SessionActionView, SessionEvent, SessionEventView, SessionPhase,
    max_polls,
};
use crate::settings::Settings;
use crate::status::{
    lemma_messages_are_not_empty, STEP_BROWSER, STEP_GENERATING, STEP_GUIDE, STEP_PRIMARY,
    STEP_RECORDING, STEP_SIMPLIFIED,
};
use crate::text::{ascii_lowered, concat2, contains_text, string_views};
use crate::workflow::{
    generate, generated_workflow, lemma_workflow_candidates_suffice, workflow_candidates,
    workflow_candidates_of, GeneratedWorkflow, WorkflowView,
};

verus! {

/// What the status says where no profile is configured.
pub const NO_PROFILE: &'static str = "no profile is configured";

/// What the status says where the asset of the request does not exist.
pub const NO_ASSET: &'static str = "the asset that the request names was not found";

/// What the status says where no browser session could be had, up to the
/// reason.
pub const NO_SESSION: &'static str = "no browser session with a debug port: ";

/// What the status says where the case could not be put on record, up to the
/// reason.
pub const CASE_NOT_RECORDED: &'static str = "the case could not be put on record: ";

/// What the status says where an answer does not fit the question.
pub const OUT_OF_TURN: &'static str = "an answer came that does not fit the question";

/// The status of a case that was filed.
pub const CASE_SUBMITTED: &'static str = "已提交";

/// Where a run stands.
#[derive(Clone, Copy, Debug, PartialEq, Eq, Structural)]
pub enum RunPhase {
    /// No run is in flight.
    Idle,
    /// Asked for the profile.
    LoadingProfile,
    /// Asked for the asset that the request names.
    LoadingAsset,
    /// Asked which of the files exist.
    ProbingFiles,
    /// The browser session manager is at work.
    Session,
    /// A strategy of the fallback ladder runs.
    Engine(Strategy),
    /// Asked to put the case on record.
    Recording,
}

/// Why a run could not be started.
#[derive(Clone, Copy, Debug, PartialEq, Eq, Structural)]
pub enum StartError {
    /// A run is in flight already.
    AlreadyRunning,
}

/// What the message of `StartError::AlreadyRunning` says.
pub const ALREADY_RUNNING: &'static str = "an automation run is in progress already";

impl StartError {
    /// The message that a person reads.
    pub fn message(&self) -> (m: String)
        ensures
            m@ == ALREADY_RUNNING@,
    {
        String::from_str(ALREADY_RUNNING)
    }
}

/// An answer of the caller to the last action.
#[derive(Clone, Debug, PartialEq, Eq)]
pub enum RunEvent {
    /// The profile, or `None` where none is configured.
    ProfileLoaded(Option<Profile>),
    /// The asset, or `None` where the identifier names none.
    AssetLoaded(Option<IpAsset>),
    /// Those of the locations asked about that exist.
    FilesProbed(Vec<String>),
    /// An answer to the browser session manager.
    Session(SessionEvent),
    /// How the strategy that was run ended.
    StrategyFinished(EngineOutcome),
    /// The case is on record, or why it could not be put there.
    CaseRecorded(Option<String>),
    /// Something went wrong that no other answer covers.
    Fault(String),
}

/// A `RunEvent` as plain values.
pub enum RunEventView {
    ProfileLoaded(Option<ProfileView>),
    AssetLoaded(Option<IpAssetView>),
    FilesProbed(Seq<Seq<char>>),
    Session(SessionEventView),
    StrategyFinished(EngineOutcomeView),
    CaseRecorded(Option<Seq<char>>),
    Fault(Seq<char>),
}

/// The view of an optional profile.
pub open spec fn opt_profile(o: Option<Profile>) -> Option<ProfileView> {
    match o {
        Some(p) => Some(p@),
        None => None,
    }
}

/// The view of an optional asset.
pub open spec fn opt_ip_asset(o: Option<IpAsset>) -> Option<IpAssetView> {
    match o {
        Some(a) => Some(a@),
        None => None,
    }
}

/// The view of an optional request.
pub open spec fn opt_request(o: Option<AutomationRequest>) -> Option<AutomationRequestView> {
    match o {
        Some(r) => Some(r@),
        None => None,
    }
}

/// The view of an optional workflow.
pub open spec fn opt_workflow(o: Option<GeneratedWorkflow>) -> Option<WorkflowView> {
    match o {
        Some(w) => Some(w@),
        None => None,
    }
}

impl View for RunEvent {
    type V = RunEventView;

    open spec fn view(&self) -> RunEventView {
        match self {
            RunEvent::ProfileLoaded(p) => RunEventView::ProfileLoaded(opt_profile(*p)),
            RunEvent::AssetLoaded(a) => RunEventView::AssetLoaded(opt_ip_asset(*a)),
            RunEvent::FilesProbed(present) => RunEventView::FilesProbed(string_views(present@)),
            RunEvent::Session(e) => RunEventView::Session(e@),
            RunEvent::StrategyFinished(outcome) => RunEventView::StrategyFinished(outcome@),
            RunEvent::CaseRecorded(why) => RunEventView::CaseRecorded(opt_text(*why)),
            RunEvent::Fault(why) => RunEventView::Fault(why@),
        }
    }
}

/// What the caller is to do next.
#[derive(Clone, Debug, PartialEq, Eq)]
pub enum RunAction {
    /// Fetch the profile. Answer: `ProfileLoaded`.
    LoadProfile,
    /// Fetch the asset with this identifier. Answer: `AssetLoaded`.
    LoadAsset(u128),
    /// Find out which of these locations exist. Answer: `FilesProbed`.
    ProbeFiles(Vec<String>),
    /// Do what the browser session manager asks. Answer: `Session`.
    Session(SessionAction),
    /// Write the script to its file, run the engine on it with the
    /// arguments, and remove the file. Answer: `StrategyFinished`.
    RunEngine { strategy: Strategy, script: String, arguments: Vec<String> },
    /// Open the page and show the guide. Answer: `StrategyFinished`.
    ShowGuide { url: String, guide: String },
    /// Put the case on record. Answer: `CaseRecorded`.
    RecordCase(Case),
    /// The run is over. End the browser that was started for it, if told so.
    Finish { release_browser: bool },
    /// The answer belonged to a run that is over: drop it, and do nothing.
    Stale,
}

/// A `RunAction` as plain values.
pub enum RunActionView {
    LoadProfile,
    LoadAsset(u128),
    ProbeFiles(Seq<Seq<char>>),
    Session(SessionActionView),
    RunEngine { strategy: Strategy, script: Seq<char>, arguments: Seq<Seq<char>> },
    ShowGuide { url: Seq<char>, guide: Seq<char> },
    RecordCase(CaseView),
    Finish { release_browser: bool },
    Stale,
}

impl View for RunAction {
    type V = RunActionView;

    open spec fn view(&self) -> RunActionView {
        match self {
            RunAction::LoadProfile => RunActionView::LoadProfile,
            RunAction::LoadAsset(id) => RunActionView::LoadAsset(*id),
            RunAction::ProbeFiles(paths) => RunActionView::ProbeFiles(string_views(paths@)),
            RunAction::Session(a) => RunActionView::Session(a@),
            RunAction::RunEngine { strategy, script, arguments } => RunActionView::RunEngine {
                strategy: *strategy,
                script: script@,
                arguments: string_views(arguments@),
            },
            RunAction::ShowGuide { url, guide } => RunActionView::ShowGuide {
                url: url@,
                guide: guide@,
            },
            RunAction::RecordCase(case) => RunActionView::RecordCase(case@),
            RunAction::Finish { release_browser } => RunActionView::Finish {
                release_browser: *release_browser,
            },
            RunAction::Stale => RunActionView::Stale,
        }
    }
}

impl RunActionView {
    /// The action touches the browser or starts a process.
    pub open spec fn touches_browser(self) -> bool {
        self is Session || self is RunEngine || self is ShowGuide
    }
}

/// What `start` hands out: the number of the run, which goes with every
/// answer, and the first action.
#[derive(Clone, Debug, PartialEq, Eq)]
pub struct RunTicket {
    pub run: u64,
    pub action: RunAction,
}

/// What `stop` hands out.
#[derive(Clone, Copy, Debug, PartialEq, Eq, Structural)]
pub struct StopAction {
    /// Whether a browser was held that is to be ended now.
    pub release_browser: bool,
}

// ---------------------------------------------------------------------------
// The model
// ---------------------------------------------------------------------------

/// The orchestrator as plain values.
pub struct OrchestratorView {
    pub status: AutomationStatusView,
    pub gate: VerificationGate,
    pub session: BrowserSession,
    pub phase: RunPhase,
    /// The number of the run in flight, or of the last run.
    pub run: u64,
    pub app_data_dir: Option<Seq<char>>,
    pub request: Option<AutomationRequestView>,
    pub profile: Option<ProfileView>,
    pub asset: Option<IpAssetView>,
    pub workflow: Option<WorkflowView>,
}

/// The number of the run after run `run`.
pub open spec fn next_run(run: u64) -> u64 {
    if run == u64::MAX {
        0
    } else {
        (run + 1) as u64
    }
}

/// The steps of the browser session manager, counted from its first
/// question.
pub open spec fn session_budget(settings: Settings) -> nat {
    max_polls(settings) + 7
}

/// The case that goes on record for a request that was filed.
pub open spec fn case_of(request: AutomationRequestView) -> CaseView {
    CaseView {
        id: None,
        infringing_url: request.infringing_url,
        original_url: request.original_url,
        associated_ip_id: request.ip_asset_id,
        status: CASE_SUBMITTED@,
        submission_date: None,
        created_at: None,
        updated_at: None,
    }
}

impl Strategy {
    /// The step under which the strategy shows in the status.
    pub open spec fn step_label(self) -> Seq<char> {
        match self {
            Strategy::Primary => STEP_PRIMARY@,
            Strategy::Simplified => STEP_SIMPLIFIED@,
            Strategy::ManualGuide => STEP_GUIDE@,
        }
    }

    /// The progress with which the strategy shows in the status.
    pub open spec fn step_progress(self) -> u8 {
        match self {
            Strategy::Primary => 35,
            Strategy::Simplified => 50,
            Strategy::ManualGuide => 65,
        }
    }
}

impl OrchestratorView {
    /// The orchestrator before any run.
    pub open spec fn fresh(
        platform: Platform,
        settings: Settings,
        app_data_dir: Option<Seq<char>>,
    ) -> OrchestratorView {
        OrchestratorView {
            status: AutomationStatusView::idle(),
            gate: VerificationGate { phase: GatePhase::Reset },
            session: BrowserSession {
                phase: SessionPhase::Idle,
                polls_left: 0,
                owns_process: false,
                platform,
                settings,
            },
            phase: RunPhase::Idle,
            run: 0,
            app_data_dir,
            request: None,
            profile: None,
            asset: None,
            workflow: None,
        }
    }

    /// The run has not turned to the browser yet: it is over, or still
    /// gathers what the workflow is generated from.
    pub open spec fn before_browser(self) -> bool {
        self.phase == RunPhase::Idle || self.phase == RunPhase::LoadingProfile || self.phase
            == RunPhase::LoadingAsset || self.phase == RunPhase::ProbingFiles
    }

    /// The status is well formed and says that a run is in flight exactly
    /// while one is. As long as the run has not turned to the browser, the
    /// browser session manager has been asked nothing and holds nothing. A
    /// run in flight holds its request; once it has asked for more than the
    /// profile it holds the profile; and once it has turned to the browser
    /// it holds the workflow.
    pub open spec fn well_formed(self) -> bool {
        &&& self.status.well_formed()
        &&& self.status.is_running <==> self.phase != RunPhase::Idle
        &&& self.before_browser() ==> self.session == self.session.released()
        &&& self.phase != RunPhase::Idle ==> self.request is Some
        &&& self.phase != RunPhase::Idle && self.phase != RunPhase::LoadingProfile
            ==> self.profile is Some
        &&& !self.before_browser() ==> self.workflow is Some
    }

    /// An upper bound of the answers that the run in flight still takes.
    pub open spec fn steps_left(self) -> nat {
        match self.phase {
            RunPhase::Idle => 0,
            RunPhase::Recording => 1,
            RunPhase::Engine(strategy) => 2 + strategy.rungs_below(),
            RunPhase::Session => 5 + self.session.steps_left(),
            RunPhase::ProbingFiles => 6 + session_budget(self.session.settings),
            RunPhase::LoadingAsset => 7 + session_budget(self.session.settings),
            RunPhase::LoadingProfile => 8 + session_budget(self.session.settings),
        }
    }

    /// What `start` makes of an orchestrator that is not running: a new run
    /// with a new number, a status that says so, and a verification latch
    /// that is cleared.
    pub open spec fn started(self, request: AutomationRequestView, now: Timestamp)
        -> OrchestratorView {
        OrchestratorView {
            status: AutomationStatusView::started(now),
            gate: VerificationGate { phase: GatePhase::Reset },
            session: self.session.released(),
            phase: RunPhase::LoadingProfile,
            run: next_run(self.run),
            request: Some(request),
            profile: None,
            asset: None,
            workflow: None,
            ..self
        }
    }

    /// What `stop` makes of the orchestrator.
    pub open spec fn stopped(self) -> OrchestratorView {
        OrchestratorView {
            status: self.status.stopped(),
            session: self.session.released(),
            phase: RunPhase::Idle,
            request: None,
            profile: None,
            asset: None,
            workflow: None,
            ..self
        }
    }

    /// What the signal of the human makes of the orchestrator.
    pub open spec fn signalled(self) -> OrchestratorView {
        OrchestratorView { gate: VerificationGate { phase: GatePhase::Completed }, ..self }
    }

    /// The orchestrator after the run has ended, with the status `status`.
    pub open spec fn ended(self, status: AutomationStatusView) -> (OrchestratorView, RunActionView) {
        (
            OrchestratorView {
                status,
                session: self.session.released(),
                phase: RunPhase::Idle,
                request: None,
                profile: None,
                asset: None,
                workflow: None,
                ..self
            },
            RunActionView::Finish { release_browser: self.session.owns_process },
        )
    }

    /// The end of the run for the reason `why`.
    pub open spec fn fails(self, why: Seq<char>) -> (OrchestratorView, RunActionView) {
        self.ended(self.status.failed(why))
    }

    /// The good end of the run.
    pub open spec fn completes(self) -> (OrchestratorView, RunActionView) {
        self.ended(self.status.completed())
    }

    /// The question which files exist, once the profile and the asset are
    /// there.
    pub open spec fn probes_files(self) -> (OrchestratorView, RunActionView) {
        match self.profile {
            None => self.fails(OUT_OF_TURN@),
            Some(profile) => match workflow_candidates_of(profile, self.asset, self.app_data_dir) {
                Err(e) => self.fails(e.message()),
                Ok(candidates) => (
                    OrchestratorView {
                        status: self.status.advanced(STEP_GENERATING@, 10),
                        phase: RunPhase::ProbingFiles,
                        ..self
                    },
                    RunActionView::ProbeFiles(candidates),
                ),
            },
        }
    }

    /// The workflow for what the run holds, against the files that exist.
    pub open spec fn generates(self, present: Seq<Seq<char>>) -> Option<
        Result<WorkflowView, ValidationErrorView>,
    > {
        if self.profile is Some && self.request is Some {
            Some(
                generated_workflow(
                    self.profile->0,
                    self.asset,
                    self.request->0,
                    FileSnapshotView {
                        platform: self.session.platform,
                        app_data_dir: self.app_data_dir,
                        present,
                    },
                    self.session.settings,
                ),
            )
        } else {
            None
        }
    }

    /// The start of a strategy of the fallback ladder.
    pub open spec fn runs(self, strategy: Strategy) -> (OrchestratorView, RunActionView) {
        match self.workflow {
            None => self.fails(OUT_OF_TURN@),
            Some(workflow) => (
                OrchestratorView {
                    status: self.status.advanced(strategy.step_label(), strategy.step_progress()),
                    phase: RunPhase::Engine(strategy),
                    ..self
                },
                if strategy == Strategy::ManualGuide {
                    RunActionView::ShowGuide { url: APPEAL_PAGE_URL@, guide: guide_text(workflow) }
                } else {
                    RunActionView::RunEngine {
                        strategy,
                        script: script_text(
                            workflow,
                            self.session.settings.debug_port,
                            strategy == Strategy::Primary,
                        ),
                        arguments: engine_arguments_of(SCRIPT_FILE@, self.session.settings),
                    }
                },
            ),
        }
    }

    /// What the run makes of an answer to the browser session manager.
    pub open spec fn session_step(self, event: SessionEventView) -> (
        OrchestratorView,
        RunActionView,
    ) {
        let (session, action) = self.session.step(event);
        let next = OrchestratorView { session, ..self };
        match action {
            SessionActionView::Done => next.runs(Strategy::Primary),
            SessionActionView::Fail(e) => next.fails(NO_SESSION@ + e.message()),
            _ => (next, RunActionView::Session(action)),
        }
    }

    /// What the run makes of the end of a strategy: success goes on to the
    /// record, failure goes one rung down the ladder, and failure on the
    /// last rung ends the run.
    pub open spec fn strategy_step(self, strategy: Strategy, outcome: EngineOutcomeView) -> (
        OrchestratorView,
        RunActionView,
    ) {
        match judged(outcome) {
            Ok(()) => match self.request {
                None => self.fails(OUT_OF_TURN@),
                Some(request) => (
                    OrchestratorView {
                        status: self.status.advanced(STEP_RECORDING@, 90),
                        phase: RunPhase::Recording,
                        ..self
                    },
                    RunActionView::RecordCase(case_of(request)),
                ),
            },
            Err(e) => match strategy.spec_next() {
                Some(next) => self.runs(next),
                None => self.fails(e.message()),
            },
        }
    }

    /// What the orchestrator makes of an answer that came for run `run`.
    ///
    /// An answer for a run that is over changes nothing. A fault ends the
    /// run, wherever it stands. Else the run goes its way: the profile, the
    /// asset where one is named, the files, the workflow, the browser
    /// session, the strategies, the record. What cannot be had on the way
    /// ends the run with a status that says why.
    pub open spec fn step(self, run: u64, event: RunEventView) -> (OrchestratorView, RunActionView) {
        if run != self.run || self.phase == RunPhase::Idle {
            (self, RunActionView::Stale)
        } else {
            match (self.phase, event) {
                (_, RunEventView::Fault(why)) => self.fails(why),
                (RunPhase::LoadingProfile, RunEventView::ProfileLoaded(None)) => self.fails(
                    NO_PROFILE@,
                ),
                (RunPhase::LoadingProfile, RunEventView::ProfileLoaded(Some(profile))) => {
                    let next = OrchestratorView { profile: Some(profile), ..self };
                    match self.request {
                        None => self.fails(OUT_OF_TURN@),
                        Some(request) => match request.ip_asset_id {
                            Some(id) => (
                                OrchestratorView { phase: RunPhase::LoadingAsset, ..next },
                                RunActionView::LoadAsset(id),
                            ),
                            None => next.probes_files(),
                        },
                    }
                },
                (RunPhase::LoadingAsset, RunEventView::AssetLoaded(None)) => self.fails(NO_ASSET@),
                (RunPhase::LoadingAsset, RunEventView::AssetLoaded(Some(asset))) => (
                    OrchestratorView { asset: Some(asset), ..self }
                ).probes_files(),
                (RunPhase::ProbingFiles, RunEventView::FilesProbed(present)) => {
                    match self.generates(present) {
                        None => self.fails(OUT_OF_TURN@),
                        Some(Err(e)) => self.fails(e.message()),
                        Some(Ok(workflow)) => (
                            OrchestratorView {
                                status: self.status.advanced(STEP_BROWSER@, 25),
                                session: self.session.begun().0,
                                phase: RunPhase::Session,
                                workflow: Some(workflow),
                                ..self
                            },
                            RunActionView::Session(self.session.begun().1),
                        ),
                    }
                },
                (RunPhase::Session, RunEventView::Session(e)) => self.session_step(e),
                (RunPhase::Engine(strategy), RunEventView::StrategyFinished(outcome)) => {
                    self.strategy_step(strategy, outcome)
                },
                (RunPhase::Recording, RunEventView::CaseRecorded(None)) => self.completes(),
                (RunPhase::Recording, RunEventView::CaseRecorded(Some(why))) => self.fails(
                    CASE_NOT_RECORDED@ + why,
                ),
                _ => self.fails(OUT_OF_TURN@),
            }
        }
    }
}

// ---------------------------------------------------------------------------
// The code
// ---------------------------------------------------------------------------

/// The orchestrator: the status of the run, the verification latch, the
/// browser session, and what the run in flight has gathered.
pub struct Orchestrator {
    status: AutomationStatus,
    gate: VerificationGate,
    session: BrowserSession,
    phase: RunPhase,
    run: u64,
    app_data_dir: Option<String>,
    request: Option<AutomationRequest>,
    profile: Option<Profile>,
    asset: Option<IpAsset>,
    workflow: Option<GeneratedWorkflow>,
}

impl View for Orchestrator {
    type V = OrchestratorView;

    closed spec fn view(&self) -> OrchestratorView {
        OrchestratorView {
            status: self.status@,
            gate: self.gate,
            session: self.session,
            phase: self.phase,
            run: self.run,
            app_data_dir: opt_text(self.app_data_dir),
            request: opt_request(self.request),
            profile: opt_profile(self.profile),
            asset: opt_ip_asset(self.asset),
            workflow: opt_workflow(self.workflow),
        }
    }
}

impl Strategy {
    /// The step under which the strategy shows in the status.
    pub fn step_label_text(self) -> (label: &'static str)
        ensures
            label@ == self.step_label(),
    {
        match self {
            Strategy::Primary => STEP_PRIMARY,
            Strategy::Simplified => STEP_SIMPLIFIED,
            Strategy::ManualGuide => STEP_GUIDE,
        }
    }

    /// The progress with which the strategy shows in the status.
    pub fn step_percent(self) -> (progress: u8)
        ensures
            progress == self.step_progress(),
    {
        match self {
            Strategy::Primary => 35,
            Strategy::Simplified => 50,
            Strategy::ManualGuide => 65,
        }
    }
}

/// The case that goes on record for a request that was filed.
pub fn case_record(request: &AutomationRequest) -> (case: Case)
    ensures
        case@ == case_of(request@),
{
    Case {
        id: None,
        infringing_url: request.infringing_url.clone(),
        original_url: clone_opt_text(&request.original_url),
        associated_ip_id: request.ip_asset_id,
        status: String::from_str(CASE_SUBMITTED),
        submission_date: None,
        created_at: None,
        updated_at: None,
    }
}

impl Orchestrator {
    /// An orchestrator that has not run yet.
    pub fn new(platform: Platform, settings: Settings, app_data_dir: Option<String>) -> (o:
        Orchestrator)
        ensures
            o@ == OrchestratorView::fresh(platform, settings, opt_text(app_data_dir)),
            o@.well_formed(),
    {
        Orchestrator {
            status: AutomationStatus::idle(),
            gate: VerificationGate::new(),
            session: BrowserSession::new(platform, settings),
            phase: RunPhase::Idle,
            run: 0,
            app_data_dir,
            request: None,
            profile: None,
            asset: None,
            workflow: None,
        }
    }

    /// Starts a run at `now`, unless one is in flight.
    ///
    /// While a run is in flight the call is turned down and changes nothing.
    /// Else the status says `initializing` at 0 percent, the verification
    /// latch is cleared, and the ticket holds the number of the new run and
    /// its first action.
    pub fn start(&mut self, request: AutomationRequest, now: Timestamp) -> (r: Result<
        RunTicket,
        StartError,
    >)
        requires
            old(self)@.well_formed(),
        ensures
            final(self)@.well_formed(),
            old(self)@.status.is_running ==> r == Err::<RunTicket, StartError>(
                StartError::AlreadyRunning,
            ) && final(self)@ == old(self)@,
            !old(self)@.status.is_running ==> r is Ok && final(self)@ == old(self)@.started(
                request@,
                now,
            ) && r->Ok_0.run == final(self)@.run && r->Ok_0.action@ == RunActionView::LoadProfile,
    {
        if self.status.is_running {
            return Err(StartError::AlreadyRunning);
        }
        self.status.begin(now);
        self.gate.reset();
        self.session.release();
        self.phase = RunPhase::LoadingProfile;
        self.run = if self.run == u64::MAX {
            0
        } else {
            self.run + 1
        };
        self.request = Some(request);
        self.profile = None;
        self.asset = None;
        self.workflow = None;
        Ok(RunTicket { run: self.run, action: RunAction::LoadProfile })
    }

    /// Stops whatever runs: the status says `stopped`, and the browser that
    /// was held is let go of and handed to the caller to be ended. Answers
    /// of the run that was cut short are dropped from now on.
    pub fn stop(&mut self) -> (action: StopAction)
        requires
            old(self)@.well_formed(),
        ensures
            final(self)@.well_formed(),
            final(self)@ == old(self)@.stopped(),
            action.release_browser == old(self)@.session.owns_process,
            !final(self)@.session.owns_process,
            !final(self)@.status.is_running,
    {
        self.status.stop();
        let release_browser = self.session.release();
        self.phase = RunPhase::Idle;
        self.request = None;
        self.profile = None;
        self.asset = None;
        self.workflow = None;
        StopAction { release_browser }
    }

    /// A copy of the status, which the caller may keep.
    pub fn status(&self) -> (status: AutomationStatus)
        ensures
            status@ == self@.status,
    {
        self.status.snapshot()
    }

    /// Notes that the human has completed the verification. Doing so again
    /// changes nothing.
    pub fn signal_verification_complete(&mut self)
        ensures
            final(self)@ == old(self)@.signalled(),
            old(self)@.well_formed() ==> final(self)@.well_formed(),
    {
        self.gate.signal_complete();
    }

    /// Notes that the workflow has reached the verification stage.
    pub fn note_verification_reached(&mut self)
        ensures
            final(self)@ == (OrchestratorView {
                gate: VerificationGate {
                    phase: if old(self)@.gate.phase == GatePhase::Completed {
                        GatePhase::Completed
                    } else {
                        GatePhase::WaitingForHuman
                    },
                },
                ..old(self)@
            }),
            old(self)@.well_formed() ==> final(self)@.well_formed(),
    {
        self.gate.mark_waiting();
    }

    /// The verification latch.
    pub fn gate(&self) -> (gate: VerificationGate)
        ensures
            gate == self@.gate,
    {
        self.gate
    }

    /// The browser session manager.
    pub fn session(&self) -> (session: BrowserSession)
        ensures
            session == self@.session,
    {
        self.session
    }

    /// Where the run stands.
    pub fn phase(&self) -> (phase: RunPhase)
        ensures
            phase == self@.phase,
    {
        self.phase
    }

    /// The number of the run in flight, or of the last run.
    pub fn current_run(&self) -> (run: u64)
        ensures
            run == self@.run,
    {
        self.run
    }

    /// Tests whether the orchestrator is well formed. It is after `new`, and
    /// every operation keeps it so.
    pub fn is_well_formed(&self) -> (ok: bool)
        ensures
            ok == self@.well_formed(),
    {
        let idle = match self.phase {
            RunPhase::Idle => true,
            _ => false,
        };
        let before_browser = match self.phase {
            RunPhase::Idle
            | RunPhase::LoadingProfile
            | RunPhase::LoadingAsset
            | RunPhase::ProbingFiles => true,
            _ => false,
        };
        let session_rests = match self.session.phase {
            SessionPhase::Idle => !self.session.owns_process,
            _ => false,
        };
        let loading_profile = match self.phase {
            RunPhase::LoadingProfile => true,
            _ => false,
        };
        self.status.is_well_formed() && self.status.is_running == !idle && (!before_browser
            || session_rests) && (idle || self.request.is_some()) && (idle || loading_profile
            || self.profile.is_some()) && (before_browser || self.workflow.is_some())
    }

    /// Tests whether a run is in flight.
    pub fn is_running(&self) -> (running: bool)
        ensures
            running == self@.status.is_running,
    {
        self.status.is_running
    }

    /// Ends the run with the status as it stands.
    fn finish(&mut self) -> (action: RunAction)
        ensures
            (final(self)@, action@) == old(self)@.ended(old(self)@.status),
    {
        let release_browser = self.session.release();
        self.phase = RunPhase::Idle;
        self.request = None;
        self.profile = None;
        self.asset = None;
        self.workflow = None;
        RunAction::Finish { release_browser }
    }

    /// Ends the run for the reason `why`.
    fn fail(&mut self, why: &str) -> (action: RunAction)
        ensures
            (final(self)@, action@) == old(self)@.fails(why@),
    {
        self.status.fail(why);
        self.finish()
    }

    /// Asks which files exist.
    fn probe_files(&mut self) -> (action: RunAction)
        ensures
            (final(self)@, action@) == old(self)@.probes_files(),
    {
        let listed = match &self.profile {
            Some(profile) => Some(
                workflow_candidates(profile, self.asset.as_ref(), &self.app_data_dir),
            ),
            None => None,
        };
        match listed {
            None => self.fail(OUT_OF_TURN),
            Some(Err(e)) => {
                let why = e.message();
                self.fail(why.as_str())
            },
            Some(Ok(candidates)) => {
                self.status.update_status(STEP_GENERATING, 10);
                self.phase = RunPhase::ProbingFiles;
                RunAction::ProbeFiles(candidates)
            },
        }
    }

    /// Starts a strategy of the fallback ladder.
    fn run_strategy(&mut self, strategy: Strategy) -> (action: RunAction)
        ensures
            (final(self)@, action@) == old(self)@.runs(strategy),
    {
        let action = match &self.workflow {
            None => None,
            Some(workflow) => Some(
                if strategy.runs_engine() {
                    RunAction::RunEngine {
                        strategy,
                        script: render_script(
                            workflow,
                            self.session.settings.debug_port,
                            strategy.uploads_files(),
                        ),
                        arguments: engine_arguments(SCRIPT_FILE, &self.session.settings),
                    }
                } else {
                    RunAction::ShowGuide {
                        url: String::from_str(APPEAL_PAGE_URL),
                        guide: render_guide(workflow),
                    }
                },
            ),
        };
        match action {
            None => self.fail(OUT_OF_TURN),
            Some(action) => {
                self.status.update_status(strategy.step_label_text(), strategy.step_percent());
                self.phase = RunPhase::Engine(strategy);
                action
            },
        }
    }

    /// Takes an answer to the browser session manager.
    fn advance_session(&mut self, event: SessionEvent) -> (action: RunAction)
        ensures
            (final(self)@, action@) == old(self)@.session_step(event@),
    {
        let action = self.session.advance(event);
        match action {
            SessionAction::Done => self.run_strategy(Strategy::Primary),
            SessionAction::Fail(e) => {
                let why = concat2(NO_SESSION, e.message().as_str());
                self.fail(why.as_str())
            },
            other => RunAction::Session(other),
        }
    }

    /// Takes the end of a strategy.
    fn advance_strategy(&mut self, strategy: Strategy, outcome: EngineOutcome) -> (action:
        RunAction)
        ensures
            (final(self)@, action@) == old(self)@.strategy_step(strategy, outcome@),
    {
        match judge(&outcome) {
            Ok(()) => {
                let case = match &self.request {
                    Some(request) => Some(case_record(request)),
                    None => None,
                };
                match case {
                    None => self.fail(OUT_OF_TURN),
                    Some(case) => {
                        self.status.update_status(STEP_RECORDING, 90);
                        self.phase = RunPhase::Recording;
                        RunAction::RecordCase(case)
                    },
                }
            },
            Err(e) => match strategy.next() {
                Some(next) => self.run_strategy(next),
                None => {
                    let why = e.message();
                    self.fail(why.as_str())
                },
            },
        }
    }

    /// Takes the files that exist, generates the workflow, and turns to the
    /// browser.
    fn advance_files(&mut self, present: Vec<String>) -> (action: RunAction)
        requires
            old(self)@.phase == RunPhase::ProbingFiles,
        ensures
            (final(self)@, action@) == old(self)@.step(
                old(self)@.run,
                RunEventView::FilesProbed(string_views(present@)),
            ),
    {
        let snapshot = FileSnapshot {
            platform: self.session.platform,
            app_data_dir: clone_opt_text(&self.app_data_dir),
            present,
        };
        let outcome = match (&self.profile, &self.request) {
            (Some(profile), Some(request)) => Some(
                generate(
                    profile,
                    self.asset.as_ref(),
                    request,
                    &snapshot,
                    &self.session.settings,
                ),
            ),
            _ => None,
        };
        match outcome {
            None => self.fail(OUT_OF_TURN),
            Some(Err(e)) => {
                let why = e.message();
                self.fail(why.as_str())
            },
            Some(Ok(workflow)) => {
                self.status.update_status(STEP_BROWSER, 25);
                self.workflow = Some(workflow);
                self.phase = RunPhase::Session;
                RunAction::Session(self.session.start_chrome_with_remote_debugging())
            },
        }
    }

    /// Takes the answer to the last action of run `run`, and says what the
    /// caller is to do next.
    ///
    /// The orchestrator and the action are exactly what `step` says. While
    /// the run is in flight, every answer brings it closer to its end; when
    /// it ends, the action is `Finish`, the status says so, and the browser
    /// that was held goes to the caller to be ended.
    pub fn advance(&mut self, run: u64, event: RunEvent) -> (action: RunAction)
        requires
            old(self)@.well_formed(),
        ensures
            (final(self)@, action@) == old(self)@.step(run, event@),
            final(self)@.well_formed(),
            run == old(self)@.run && old(self)@.status.is_running ==> final(self)@.steps_left()
                < old(self)@.steps_left(),
    {
        proof {
            lemma_step_keeps_well_formed(self@, run, event@);
            lemma_step_makes_progress(self@, run, event@);
        }
        if run != self.run {
            return RunAction::Stale;
        }
        match self.phase {
            RunPhase::Idle => RunAction::Stale,
            RunPhase::LoadingProfile => match event {
                RunEvent::Fault(why) => self.fail(why.as_str()),
                RunEvent::ProfileLoaded(None) => self.fail(NO_PROFILE),
                RunEvent::ProfileLoaded(Some(profile)) => {
                    let asset_id = match &self.request {
                        None => None,
                        Some(request) => Some(request.ip_asset_id),
                    };
                    match asset_id {
                        None => self.fail(OUT_OF_TURN),
                        Some(Some(id)) => {
                            self.profile = Some(profile);
                            self.phase = RunPhase::LoadingAsset;
                            RunAction::LoadAsset(id)
                        },
                        Some(None) => {
                            self.profile = Some(profile);
                            self.probe_files()
                        },
                    }
                },
                _ => self.fail(OUT_OF_TURN),
            },
            RunPhase::LoadingAsset => match event {
                RunEvent::Fault(why) => self.fail(why.as_str()),
                RunEvent::AssetLoaded(None) => self.fail(NO_ASSET),
                RunEvent::AssetLoaded(Some(asset)) => {
                    self.asset = Some(asset);
                    self.probe_files()
                },
                _ => self.fail(OUT_OF_TURN),
            },
            RunPhase::ProbingFiles => match event {
                RunEvent::Fault(why) => self.fail(why.as_str()),
                RunEvent::FilesProbed(present) => self.advance_files(present),
                _ => self.fail(OUT_OF_TURN),
            },
            RunPhase::Session => match event {
                RunEvent::Fault(why) => self.fail(why.as_str()),
                RunEvent::Session(e) => self.advance_session(e),
                _ => self.fail(OUT_OF_TURN),
            },
            RunPhase::Engine(strategy) => match event {
                RunEvent::Fault(why) => self.fail(why.as_str()),
                RunEvent::StrategyFinished(outcome) => self.advance_strategy(strategy, outcome),
                _ => self.fail(OUT_OF_TURN),
            },
            RunPhase::Recording => match event {
                RunEvent::Fault(why) => self.fail(why.as_str()),
                RunEvent::CaseRecorded(None) => {
                    self.status.complete();
                    self.finish()
                },
                RunEvent::CaseRecorded(Some(why)) => {
                    let why = concat2(CASE_NOT_RECORDED, why.as_str());
                    self.fail(why.as_str())
                },
                _ => self.fail(OUT_OF_TURN),
            },
        }
    }
}

/// Starts a run at `now`, unless one is in flight; see `Orchestrator::start`.
/// The caller reads the clock.
pub fn start_automation(orchestrator: &mut Orchestrator, request: AutomationRequest, now: Timestamp)
    -> (r: Result<RunTicket, StartError>)
    requires
        old(orchestrator)@.well_formed(),
    ensures
        final(orchestrator)@.well_formed(),
        old(orchestrator)@.status.is_running ==> r == Err::<RunTicket, StartError>(
            StartError::AlreadyRunning,
        ) && final(orchestrator)@ == old(orchestrator)@,
        !old(orchestrator)@.status.is_running ==> r is Ok
            && final(orchestrator)@ == old(orchestrator)@.started(request@, now)
            && r->Ok_0.run == final(orchestrator)@.run
            && r->Ok_0.action@ == RunActionView::LoadProfile,
{
    orchestrator.start(request, now)
}

/// Stops whatever runs; see `Orchestrator::stop`.
pub fn stop_automation(orchestrator: &mut Orchestrator) -> (action: StopAction)
    requires
        old(orchestrator)@.well_formed(),
    ensures
        final(orchestrator)@.well_formed(),
        final(orchestrator)@ == old(orchestrator)@.stopped(),
        action.release_browser == old(orchestrator)@.session.owns_process,
{
    orchestrator.stop()
}

/// A copy of the status; see `Orchestrator::status`.
pub fn get_automation_status(orchestrator: &Orchestrator) -> (status: AutomationStatus)
    ensures
        status@ == orchestrator@.status,
{
    orchestrator.status()
}

/// Notes that the human has completed the verification; see
/// `Orchestrator::signal_verification_complete`.
pub fn continue_after_verification(orchestrator: &mut Orchestrator)
    ensures
        final(orchestrator)@ == old(orchestrator)@.signalled(),
        old(orchestrator)@.well_formed() ==> final(orchestrator)@.well_formed(),
{
    orchestrator.signal_verification_complete()
}

// ---------------------------------------------------------------------------
// Laws
// ---------------------------------------------------------------------------

/// The orchestrator after a sequence of answers to the run in flight.
pub open spec fn after_events(o: OrchestratorView, events: Seq<RunEventView>) -> OrchestratorView
    decreases events.len(),
{
    if events.len() == 0 {
        o
    } else {
        let before = after_events(o, events.drop_last());
        before.step(before.run, events.last()).0
    }
}

/// Every answer leaves the orchestrator well formed.
#[verifier::rlimit(40)]
pub proof fn lemma_step_keeps_well_formed(o: OrchestratorView, run: u64, event: RunEventView)
    requires
        o.well_formed(),
    ensures
        o.step(run, event).0.well_formed(),
        o.step(run, event).0.run == o.run,
{
    lemma_messages_are_not_empty();
}

/// Every answer to the run in flight brings the run closer to its end.
#[verifier::rlimit(40)]
pub proof fn lemma_step_makes_progress(o: OrchestratorView, run: u64, event: RunEventView)
    requires
        o.well_formed(),
    ensures
        run == o.run && o.status.is_running ==> o.step(run, event).0.steps_left() < o.steps_left(),
        !(run == o.run && o.status.is_running) ==> o.step(run, event) == (o, RunActionView::Stale),
{
    if run == o.run && o.phase == RunPhase::Session {
        if let RunEventView::Session(e) = event {
            crate::session::lemma_step_makes_progress(o.session, e);
        }
    }
}

/// After `n` answers, the run is over or has `n` fewer steps left.
pub proof fn lemma_steps_left_shrink(o: OrchestratorView, events: Seq<RunEventView>)
    requires
        o.well_formed(),
    ensures
        after_events(o, events).well_formed(),
        after_events(o, events).run == o.run,
        !after_events(o, events).status.is_running || after_events(o, events).steps_left()
            + events.len() <= o.steps_left(),
    decreases events.len(),
{
    if events.len() > 0 {
        let before = after_events(o, events.drop_last());
        lemma_steps_left_shrink(o, events.drop_last());
        lemma_step_keeps_well_formed(before, before.run, events.last());
        lemma_step_makes_progress(before, before.run, events.last());
    }
}

/// No run stays in flight for ever: whatever the answers are, after as many
/// of them as `steps_left` says the status no longer says `running`.
pub proof fn lemma_run_comes_to_an_end(o: OrchestratorView, events: Seq<RunEventView>)
    requires
        o.well_formed(),
        events.len() >= o.steps_left(),
    ensures
        !after_events(o, events).status.is_running,
        after_events(o, events).phase == RunPhase::Idle,
{
    lemma_steps_left_shrink(o, events);
}

/// A start while a run is in flight is turned down and changes nothing; this
/// is what `Orchestrator::start` ensures, and every operation takes a well
/// formed orchestrator to a well formed one, so that it holds after every
/// sequence of calls.
pub proof fn lemma_operations_keep_well_formed(
    o: OrchestratorView,
    request: AutomationRequestView,
    now: Timestamp,
    run: u64,
    event: RunEventView,
)
    requires
        o.well_formed(),
    ensures
        !o.status.is_running ==> o.started(request, now).well_formed(),
        o.stopped().well_formed(),
        o.signalled().well_formed(),
        o.step(run, event).0.well_formed(),
{
    lemma_messages_are_not_empty();
    lemma_step_keeps_well_formed(o, run, event);
}

/// As long as no workflow has been generated, the run does not touch the
/// browser: no answer makes it ask the browser session manager, run the
/// engine or open a page, unless the answer is the list of files and the
/// workflow can be generated from it.
pub proof fn lemma_no_browser_before_workflow(o: OrchestratorView, run: u64, event: RunEventView)
    requires
        o.well_formed(),
        o.before_browser(),
        o.step(run, event).1.touches_browser(),
    ensures
        run == o.run,
        o.phase == RunPhase::ProbingFiles,
        event is FilesProbed,
        o.generates(event->FilesProbed_0) matches Some(Ok(_)),
{
}

/// A profile whose identity documents resolve to nothing ends the run when
/// the files have been looked at: the run fails, the browser session
/// manager is asked nothing, and there is no browser to end.
pub proof fn lemma_no_documents_no_browser(o: OrchestratorView, present: Seq<Seq<char>>)
    requires
        o.well_formed(),
        o.phase == RunPhase::ProbingFiles,
        o.generates(present) == Some(
            Err::<WorkflowView, ValidationErrorView>(ValidationErrorView::NoIdentityDocuments),
        ),
    ensures
        ({
            let (next, action) = o.step(o.run, RunEventView::FilesProbed(present));
            &&& action == RunActionView::Finish { release_browser: false }
            &&& !next.status.is_running
            &&& next.status.error == Some(
                crate::status::FAILURE_PREFIX@ + crate::errors::NO_IDENTITY_DOCUMENTS@,
            )
            &&& next.session.phase == SessionPhase::Idle
            &&& !next.session.owns_process
        }),
{
}

/// To look at the locations that the run asks about is enough: where each
/// look is true to the disk, the workflow that the run generates from what
/// was found is the workflow for the whole disk.
pub proof fn lemma_probing_the_candidates_is_enough(
    o: OrchestratorView,
    found: Seq<bool>,
    disk: Seq<Seq<char>>,
)
    requires
        o.profile is Some,
        o.request is Some,
        workflow_candidates_of(o.profile->0, o.asset, o.app_data_dir) is Ok,
        found.len() == workflow_candidates_of(o.profile->0, o.asset, o.app_data_dir)->Ok_0.len(),
        forall|i: int|
            0 <= i < found.len() ==> found[i] == disk.contains(
                workflow_candidates_of(o.profile->0, o.asset, o.app_data_dir)->Ok_0[i],
            ),
    ensures
        o.generates(
            found_among(
                workflow_candidates_of(o.profile->0, o.asset, o.app_data_dir)->Ok_0,
                found,
            ),
        ) == Some(
            generated_workflow(
                o.profile->0,
                o.asset,
                o.request->0,
                FileSnapshotView {
                    platform: o.session.platform,
                    app_data_dir: o.app_data_dir,
                    present: disk,
                },
                o.session.settings,
            ),
        ),
{
    let candidates = workflow_candidates_of(o.profile->0, o.asset, o.app_data_dir)->Ok_0;
    lemma_found_among_agrees(candidates, found, disk);
    lemma_workflow_candidates_suffice(
        o.profile->0,
        o.asset,
        o.request->0,
        FileSnapshotView {
            platform: o.session.platform,
            app_data_dir: o.app_data_dir,
            present: found_among(candidates, found),
        },
        FileSnapshotView {
            platform: o.session.platform,
            app_data_dir: o.app_data_dir,
            present: disk,
        },
        o.session.settings,
    );
}

/// The signal of the human does not reach into the next run: whatever the
/// latch held, a start clears it, and no answer of the run sets it; so a
/// workflow of the new run waits until it is signalled again.
pub proof fn lemma_signal_stays_within_its_run(
    o: OrchestratorView,
    request: AutomationRequestView,
    now: Timestamp,
    events: Seq<RunEventView>,
    waited_secs: u64,
    limit_secs: u32,
)
    requires
        o.well_formed(),
    ensures
        o.signalled().gate.phase == GatePhase::Completed,
        o.signalled().stopped().started(request, now).gate.phase == GatePhase::Reset,
        after_events(o.signalled().stopped().started(request, now), events).gate.phase
            == GatePhase::Reset,
        wait_outcome_of(
            after_events(o.signalled().stopped().started(request, now), events).gate.phase,
            waited_secs,
            limit_secs,
        ) != WaitOutcome::Proceed,
{
    lemma_answers_leave_the_latch(o.signalled().stopped().started(request, now), events);
}

/// No answer of a run touches the verification latch.
pub proof fn lemma_answers_leave_the_latch(o: OrchestratorView, events: Seq<RunEventView>)
    ensures
        after_events(o, events).gate == o.gate,
    decreases events.len(),
{
    if events.len() > 0 {
        lemma_answers_leave_the_latch(o, events.drop_last());
    }
}

/// The signal of the human is a latch: to signal twice is to signal once.
pub proof fn lemma_signal_is_idempotent(o: OrchestratorView)
    ensures
        o.signalled().signalled() == o.signalled(),
{
}

/// A stop lets go of the browser: afterwards none is held, and the browser
/// that was held is the one that `Orchestrator::stop` hands out to be ended.
pub proof fn lemma_stop_releases_the_browser(o: OrchestratorView)
    ensures
        !o.stopped().session.owns_process,
        !o.stopped().status.is_running,
        o.stopped().phase == RunPhase::Idle,
{
}

/// When an answer ends the run, well or badly, the browser that was held is
/// handed out to be ended, and none is held afterwards.
pub proof fn lemma_run_end_releases_the_browser(o: OrchestratorView, event: RunEventView)
    requires
        o.well_formed(),
        o.status.is_running,
        !o.step(o.run, event).0.status.is_running,
    ensures
        o.step(o.run, event).1 is Finish,
        !o.step(o.run, event).0.session.owns_process,
        o.phase != RunPhase::Session ==> o.step(o.run, event).1 == (RunActionView::Finish {
            release_browser: o.session.owns_process,
        }),
{
    lemma_step_keeps_well_formed(o, o.run, event);
}

/// All ends of a run read alike. A run that ends has completed, with 100
/// percent and no error, or has failed, with the step `failed`, the progress
/// that it had reached, and an error that begins as every such error does
/// and is not empty.
#[verifier::rlimit(40)]
pub proof fn lemma_every_end_reads_alike(o: OrchestratorView, event: RunEventView)
    requires
        o.well_formed(),
        o.status.is_running,
        !o.step(o.run, event).0.status.is_running,
    ensures
        ({
            let status = o.step(o.run, event).0.status;
            ||| status == o.status.completed()
            ||| {
                &&& status.current_step == Some(crate::status::STEP_FAILED@)
                &&& status.progress == o.status.progress
                &&& status.error is Some
                &&& status.error->0.len() > 0
                &&& crate::text::begins_with(status.error->0, crate::status::FAILURE_PREFIX@)
            }
        }),
{
    lemma_messages_are_not_empty();
    lemma_step_keeps_well_formed(o, o.run, event);
    let status = o.step(o.run, event).0.status;
    if status != o.status.completed() {
        let why = status.error->0;
        assert(why.subrange(0, crate::status::FAILURE_PREFIX@.len() as int)
            =~= crate::status::FAILURE_PREFIX@);
    }
}

/// A full workflow whose engine ends with another exit code than 0 and with
/// the word `timeout` in its error stream has failed by a timeout, with the
/// advice on timeouts and the network as its message; and the run goes on
/// with the simplified workflow, the next rung of the ladder, and with no
/// other.
pub proof fn lemma_timeout_of_the_full_workflow(o: OrchestratorView, report: ExitReportView)
    requires
        o.well_formed(),
        o.phase == RunPhase::Engine(Strategy::Primary),
        report.exit_code != Some(0i32),
        contains_text(ascii_lowered(report.stderr), SIGN_TIMEOUT@),
    ensures
        judged(EngineOutcomeView::Exited(report)) matches Err(e) && e.cause == FailureCause::Timeout
            && e.message() == ADVICE_TIMEOUT@ + EXIT_CODE_OPEN@ + exit_code_text(report.exit_code)
            + EXIT_CODE_CLOSE@ + report.stderr,
        ({
            let (next, action) = o.step(
                o.run,
                RunEventView::StrategyFinished(EngineOutcomeView::Exited(report)),
            );
            &&& next.phase == RunPhase::Engine(Strategy::Simplified)
            &&& next.status.is_running
            &&& action matches RunActionView::RunEngine { strategy, .. } && strategy
                == Strategy::Simplified
        }),
{
    lemma_timeout_in_the_error_stream(report);
}

/// A failure of the full workflow leads to the simplified one, and to
/// nothing else: the next rung of the ladder is tried, once.
pub proof fn lemma_failure_goes_one_rung_down(
    o: OrchestratorView,
    strategy: Strategy,
    outcome: EngineOutcomeView,
)
    requires
        o.well_formed(),
        o.phase == RunPhase::Engine(strategy),
        judged(outcome) is Err,
    ensures
        ({
            let (next, action) = o.step(o.run, RunEventView::StrategyFinished(outcome));
            match strategy.spec_next() {
                Some(lower) => next.phase == RunPhase::Engine(lower) && lower.rank()
                    == strategy.rank() + 1 && (action is RunEngine || action is ShowGuide),
                None => next.phase == RunPhase::Idle && action is Finish && next.status.error
                    == Some(crate::status::FAILURE_PREFIX@ + judged(outcome)->Err_0.message()),
            }
        }),
{
}

} // verus!
