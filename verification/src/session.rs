//! The browser session manager: whether a browser with a debug endpoint is
//! there to be used again, or has to be made room for, started and waited
//! for.
//!
//! The manager asks and is answered. Each `SessionAction` is a question to
//! the caller, who looks at the machine and answers with a `SessionEvent`;
//! `BrowserSession::advance` decides from the answer what comes next.

use vstd::prelude::*;
use crate::errors::{LaunchError, LaunchErrorView};
use crate::locator::{
    browser_arguments, browser_arguments_of, chrome_candidates, chrome_candidates_of, Platform,
};
use crate::models::opt_text;
use crate::settings::Settings;
use crate::text::string_views;

verus! {

/// Where the manager stands.
#[derive(Clone, Copy, Debug, PartialEq, Eq, Structural)]
pub enum SessionPhase {
    /// Nothing was asked for yet.
    Idle,
    /// Asked whether the debug endpoint answers already.
    Probing,
    /// Asked whether a browser runs without a debug endpoint.
    CheckingStray,
    /// Asked to close that browser by force.
    Killing,
    /// Waiting for the closed browser to let go of its profile.
    Settling,
    /// Asked where the browser is installed and where its profile goes.
    Locating,
    /// Asked to start the browser.
    Spawning,
    /// Waiting for the debug endpoint of the started browser.
    Polling,
    /// A debug endpoint answers.
    Ready,
    /// No session could be had.
    Failed,
}

/// The manager of the one browser session.
#[derive(Clone, Copy, Debug, PartialEq, Eq, Structural)]
pub struct BrowserSession {
    pub phase: SessionPhase,
    /// How often the debug endpoint may still be looked at in vain.
    pub polls_left: u64,
    /// Whether a browser process that this manager started is held.
    pub owns_process: bool,
    pub platform: Platform,
    pub settings: Settings,
}

/// An answer of the caller.
#[derive(Clone, Debug, PartialEq, Eq)]
pub enum SessionEvent {
    /// Whether the debug endpoint answers.
    Reachable(bool),
    /// Whether a browser runs.
    StrayBrowser(bool),
    /// The browser was closed, or why it could not be.
    Killed(Option<String>),
    /// The time to settle is over.
    Settled,
    /// The install location that exists, and the profile directory.
    Located { program: Option<String>, user_data_dir: Option<String> },
    /// The browser was started, or why it could not be.
    Spawned(Option<String>),
}

/// A `SessionEvent` as plain values.
pub enum SessionEventView {
    Reachable(bool),
    StrayBrowser(bool),
    Killed(Option<Seq<char>>),
    Settled,
    Located { program: Option<Seq<char>>, user_data_dir: Option<Seq<char>> },
    Spawned(Option<Seq<char>>),
}

impl View for SessionEvent {
    type V = SessionEventView;

    open spec fn view(&self) -> SessionEventView {
        match self {
            SessionEvent::Reachable(b) => SessionEventView::Reachable(*b),
            SessionEvent::StrayBrowser(b) => SessionEventView::StrayBrowser(*b),
            SessionEvent::Killed(why) => SessionEventView::Killed(opt_text(*why)),
            SessionEvent::Settled => SessionEventView::Settled,
            SessionEvent::Located { program, user_data_dir } => SessionEventView::Located {
                program: opt_text(*program),
                user_data_dir: opt_text(*user_data_dir),
            },
            SessionEvent::Spawned(why) => SessionEventView::Spawned(opt_text(*why)),
        }
    }
}

/// A question to the caller, or the end of the matter.
#[derive(Clone, Debug, PartialEq, Eq)]
pub enum SessionAction {
    /// Wait so many milliseconds, then look whether the debug endpoint
    /// answers. Answer: `Reachable`.
    Probe { delay_ms: u32 },
    /// Look whether a browser runs. Answer: `StrayBrowser`.
    CheckStray,
    /// Close the running browser by force. Answer: `Killed`.
    KillStray,
    /// Wait so many milliseconds. Answer: `Settled`.
    Settle { delay_ms: u32 },
    /// Find the first of the candidates that exists, and the profile
    /// directory. Answer: `Located`.
    Locate { candidates: Vec<String> },
    /// Let go of the browser that is still held, if told so, then start the
    /// program with the arguments and hold it. Answer: `Spawned`.
    Spawn {
        program: String,
        arguments: Vec<String>,
        user_data_dir: String,
        release_previous: bool,
    },
    /// A debug endpoint answers: the session is there.
    Done,
    /// No session could be had.
    Fail(LaunchError),
}

/// A `SessionAction` as plain values.
pub enum SessionActionView {
    Probe { delay_ms: u32 },
    CheckStray,
    KillStray,
    Settle { delay_ms: u32 },
    Locate { candidates: Seq<Seq<char>> },
    Spawn {
        program: Seq<char>,
        arguments: Seq<Seq<char>>,
        user_data_dir: Seq<char>,
        release_previous: bool,
    },
    Done,
    Fail(LaunchErrorView),
}

impl View for SessionAction {
    type V = SessionActionView;

    open spec fn view(&self) -> SessionActionView {
        match self {
            SessionAction::Probe { delay_ms } => SessionActionView::Probe { delay_ms: *delay_ms },
            SessionAction::CheckStray => SessionActionView::CheckStray,
            SessionAction::KillStray => SessionActionView::KillStray,
            SessionAction::Settle { delay_ms } => SessionActionView::Settle {
                delay_ms: *delay_ms,
            },
            SessionAction::Locate { candidates } => SessionActionView::Locate {
                candidates: string_views(candidates@),
            },
            SessionAction::Spawn {
                program,
                arguments,
                user_data_dir,
                release_previous,
            } => SessionActionView::Spawn {
                program: program@,
                arguments: string_views(arguments@),
                user_data_dir: user_data_dir@,
                release_previous: *release_previous,
            },
            SessionAction::Done => SessionActionView::Done,
            SessionAction::Fail(e) => SessionActionView::Fail(e@),
        }
    }
}

impl SessionActionView {
    /// The action starts a browser process.
    pub open spec fn spawns(self) -> bool {
        self is Spawn
    }
}

// ---------------------------------------------------------------------------
// The model
// ---------------------------------------------------------------------------

/// How often the debug endpoint of a started browser is looked at again
/// after the first look: as often as the interval fits into the limit.
pub open spec fn max_polls(settings: Settings) -> nat {
    if settings.poll_interval_ms == 0 {
        0
    } else {
        ((settings.debug_port_timeout_secs * 1000) / (settings.poll_interval_ms as int)) as nat
    }
}

impl BrowserSession {
    /// The manager with `phase` in place of its own.
    pub open spec fn at(self, phase: SessionPhase) -> BrowserSession {
        BrowserSession { phase, ..self }
    }

    /// The manager is at rest: nothing is asked and nothing is to come.
    pub open spec fn is_settled(self) -> bool {
        self.phase == SessionPhase::Idle || self.phase == SessionPhase::Ready || self.phase
            == SessionPhase::Failed
    }

    /// An upper bound of the answers that the manager still takes before it
    /// is at rest.
    pub open spec fn steps_left(self) -> nat {
        match self.phase {
            SessionPhase::Idle | SessionPhase::Ready | SessionPhase::Failed => 0,
            SessionPhase::Polling => self.polls_left as nat + 1,
            SessionPhase::Spawning => max_polls(self.settings) + 2,
            SessionPhase::Locating => max_polls(self.settings) + 3,
            SessionPhase::Settling => max_polls(self.settings) + 4,
            SessionPhase::Killing => max_polls(self.settings) + 5,
            SessionPhase::CheckingStray => max_polls(self.settings) + 6,
            SessionPhase::Probing => max_polls(self.settings) + 7,
        }
    }

    /// The first question: does the debug endpoint answer already?
    pub open spec fn begun(self) -> (BrowserSession, SessionActionView) {
        (self.at(SessionPhase::Probing), SessionActionView::Probe { delay_ms: 0 })
    }

    /// The question where the browser is installed.
    pub open spec fn locates(self) -> (BrowserSession, SessionActionView) {
        (
            self.at(SessionPhase::Locating),
            SessionActionView::Locate { candidates: chrome_candidates_of(self.platform) },
        )
    }

    /// The failure with the reason `e`.
    pub open spec fn fails(self, e: LaunchErrorView) -> (BrowserSession, SessionActionView) {
        (self.at(SessionPhase::Failed), SessionActionView::Fail(e))
    }

    /// What the manager makes of an answer.
    ///
    /// An endpoint that answers is used as it is, and nothing is started. A
    /// browser that runs without a debug endpoint is closed by force and
    /// given time to settle. Then the browser is located and started with a
    /// profile directory of its own, and its debug endpoint is looked at
    /// until it answers or the looks are used up. An answer that does not
    /// fit the question is a failure; a manager at rest stays at rest.
    pub open spec fn step(self, event: SessionEventView) -> (BrowserSession, SessionActionView) {
        match (self.phase, event) {
            (SessionPhase::Probing, SessionEventView::Reachable(true)) => (
                self.at(SessionPhase::Ready),
                SessionActionView::Done,
            ),
            (SessionPhase::Probing, SessionEventView::Reachable(false)) => (
                self.at(SessionPhase::CheckingStray),
                SessionActionView::CheckStray,
            ),
            (SessionPhase::CheckingStray, SessionEventView::StrayBrowser(true)) => (
                self.at(SessionPhase::Killing),
                SessionActionView::KillStray,
            ),
            (SessionPhase::CheckingStray, SessionEventView::StrayBrowser(false)) => self.locates(),
            (SessionPhase::Killing, SessionEventView::Killed(None)) => (
                self.at(SessionPhase::Settling),
                SessionActionView::Settle { delay_ms: self.settings.settle_ms },
            ),
            (SessionPhase::Killing, SessionEventView::Killed(Some(why))) => self.fails(
                LaunchErrorView::KillFailed(why),
            ),
            (SessionPhase::Settling, SessionEventView::Settled) => self.locates(),
            (SessionPhase::Locating, SessionEventView::Located { program, user_data_dir }) => {
                match (user_data_dir, program) {
                    (None, _) => self.fails(LaunchErrorView::NoHomeDirectory),
                    (Some(_), None) => self.fails(LaunchErrorView::BrowserNotFound),
                    (Some(dir), Some(program)) => (
                        BrowserSession {
                            phase: SessionPhase::Spawning,
                            owns_process: false,
                            ..self
                        },
                        SessionActionView::Spawn {
                            program,
                            arguments: browser_arguments_of(dir, self.settings.debug_port),
                            user_data_dir: dir,
                            release_previous: self.owns_process,
                        },
                    ),
                }
            },
            (SessionPhase::Spawning, SessionEventView::Spawned(None)) => (
                BrowserSession {
                    phase: SessionPhase::Polling,
                    polls_left: max_polls(self.settings) as u64,
                    owns_process: true,
                    ..self
                },
                SessionActionView::Probe { delay_ms: 0 },
            ),
            (SessionPhase::Spawning, SessionEventView::Spawned(Some(why))) => self.fails(
                LaunchErrorView::SpawnFailed(why),
            ),
            (SessionPhase::Polling, SessionEventView::Reachable(true)) => (
                self.at(SessionPhase::Ready),
                SessionActionView::Done,
            ),
            (SessionPhase::Polling, SessionEventView::Reachable(false)) => {
                if self.polls_left == 0 {
                    self.fails(
                        LaunchErrorView::DebugPortTimeout(self.settings.debug_port_timeout_secs),
                    )
                } else {
                    (
                        BrowserSession { polls_left: (self.polls_left - 1) as u64, ..self },
                        SessionActionView::Probe { delay_ms: self.settings.poll_interval_ms },
                    )
                }
            },
            (SessionPhase::Idle, _) | (SessionPhase::Ready, _) | (SessionPhase::Failed, _) => (
                self,
                SessionActionView::Fail(LaunchErrorView::OutOfTurn),
            ),
            _ => self.fails(LaunchErrorView::OutOfTurn),
        }
    }

    /// The manager after it has let go of the browser that it held.
    pub open spec fn released(self) -> BrowserSession {
        BrowserSession { phase: SessionPhase::Idle, owns_process: false, ..self }
    }
}

// ---------------------------------------------------------------------------
// The code
// ---------------------------------------------------------------------------

impl BrowserSession {
    /// A manager that was asked for nothing and holds nothing.
    pub fn new(platform: Platform, settings: Settings) -> (session: BrowserSession)
        ensures
            session == (BrowserSession {
                phase: SessionPhase::Idle,
                polls_left: 0,
                owns_process: false,
                platform,
                settings,
            }),
    {
        BrowserSession {
            phase: SessionPhase::Idle,
            polls_left: 0,
            owns_process: false,
            platform,
            settings,
        }
    }

    /// How often the debug endpoint of a started browser is looked at again
    /// after the first look.
    pub fn poll_budget(&self) -> (polls: u64)
        ensures
            polls == max_polls(self.settings),
    {
        if self.settings.poll_interval_ms == 0 {
            0
        } else {
            let limit_ms: u64 = (self.settings.debug_port_timeout_secs as u64) * 1000;
            limit_ms / (self.settings.poll_interval_ms as u64)
        }
    }

    /// Asks for a session with a debug endpoint. The first thing to find out
    /// is whether one is there already.
    pub fn start_chrome_with_remote_debugging(&mut self) -> (action: SessionAction)
        ensures
            (*final(self), action@) == old(self).begun(),
    {
        self.phase = SessionPhase::Probing;
        SessionAction::Probe { delay_ms: 0 }
    }

    /// Moves to the failure with the reason `e`.
    fn fail(&mut self, e: LaunchError) -> (action: SessionAction)
        ensures
            (*final(self), action@) == old(self).fails(e@),
    {
        self.phase = SessionPhase::Failed;
        SessionAction::Fail(e)
    }

    /// Moves to the question where the browser is installed.
    fn locate(&mut self) -> (action: SessionAction)
        ensures
            (*final(self), action@) == old(self).locates(),
    {
        self.phase = SessionPhase::Locating;
        SessionAction::Locate { candidates: chrome_candidates(self.platform) }
    }

    /// Takes an answer and says what comes next.
    pub fn advance(&mut self, event: SessionEvent) -> (action: SessionAction)
        ensures
            (*final(self), action@) == old(self).step(event@),
            !old(self).is_settled() ==> final(self).steps_left() < old(self).steps_left(),
            old(self).is_settled() ==> *final(self) == *old(self),
    {
        match self.phase {
            SessionPhase::Idle | SessionPhase::Ready | SessionPhase::Failed => SessionAction::Fail(
                LaunchError::OutOfTurn,
            ),
            SessionPhase::Probing => match event {
                SessionEvent::Reachable(true) => {
                    self.phase = SessionPhase::Ready;
                    SessionAction::Done
                },
                SessionEvent::Reachable(false) => {
                    self.phase = SessionPhase::CheckingStray;
                    SessionAction::CheckStray
                },
                _ => self.fail(LaunchError::OutOfTurn),
            },
            SessionPhase::CheckingStray => match event {
                SessionEvent::StrayBrowser(true) => {
                    self.phase = SessionPhase::Killing;
                    SessionAction::KillStray
                },
                SessionEvent::StrayBrowser(false) => self.locate(),
                _ => self.fail(LaunchError::OutOfTurn),
            },
            SessionPhase::Killing => match event {
                SessionEvent::Killed(None) => {
                    self.phase = SessionPhase::Settling;
                    SessionAction::Settle { delay_ms: self.settings.settle_ms }
                },
                SessionEvent::Killed(Some(why)) => self.fail(LaunchError::KillFailed(why)),
                _ => self.fail(LaunchError::OutOfTurn),
            },
            SessionPhase::Settling => match event {
                SessionEvent::Settled => self.locate(),
                _ => self.fail(LaunchError::OutOfTurn),
            },
            SessionPhase::Locating => match event {
                SessionEvent::Located { program, user_data_dir } => match (user_data_dir, program) {
                    (None, _) => self.fail(LaunchError::NoHomeDirectory),
                    (Some(_), None) => self.fail(LaunchError::BrowserNotFound),
                    (Some(dir), Some(program)) => {
                        let arguments = browser_arguments(dir.as_str(), self.settings.debug_port);
                        let release_previous = self.owns_process;
                        self.phase = SessionPhase::Spawning;
                        self.owns_process = false;
                        SessionAction::Spawn {
                            program,
                            arguments,
                            user_data_dir: dir,
                            release_previous,
                        }
                    },
                },
                _ => self.fail(LaunchError::OutOfTurn),
            },
            SessionPhase::Spawning => match event {
                SessionEvent::Spawned(None) => {
                    self.polls_left = self.poll_budget();
                    self.phase = SessionPhase::Polling;
                    self.owns_process = true;
                    SessionAction::Probe { delay_ms: 0 }
                },
                SessionEvent::Spawned(Some(why)) => self.fail(LaunchError::SpawnFailed(why)),
                _ => self.fail(LaunchError::OutOfTurn),
            },
            SessionPhase::Polling => match event {
                SessionEvent::Reachable(true) => {
                    self.phase = SessionPhase::Ready;
                    SessionAction::Done
                },
                SessionEvent::Reachable(false) => {
                    if self.polls_left == 0 {
                        self.fail(
                            LaunchError::DebugPortTimeout(self.settings.debug_port_timeout_secs),
                        )
                    } else {
                        self.polls_left = self.polls_left - 1;
                        SessionAction::Probe { delay_ms: self.settings.poll_interval_ms }
                    }
                },
                _ => self.fail(LaunchError::OutOfTurn),
            },
        }
    }

    /// Lets go of the browser that is held and comes to rest. The result
    /// says whether there was a browser to end.
    pub fn release(&mut self) -> (held: bool)
        ensures
            held == old(self).owns_process,
            *final(self) == old(self).released(),
    {
        let held = self.owns_process;
        self.owns_process = false;
        self.phase = SessionPhase::Idle;
        held
    }
}

// ---------------------------------------------------------------------------
// Laws
// ---------------------------------------------------------------------------

/// The manager after a sequence of answers.
pub open spec fn after_events(session: BrowserSession, events: Seq<SessionEventView>)
    -> BrowserSession
    decreases events.len(),
{
    if events.len() == 0 {
        session
    } else {
        after_events(session, events.drop_last()).step(events.last()).0
    }
}

/// One answer brings a manager that is not at rest closer to rest, and
/// leaves a manager at rest as it is.
pub proof fn lemma_step_makes_progress(session: BrowserSession, event: SessionEventView)
    ensures
        !session.is_settled() ==> session.step(event).0.steps_left() < session.steps_left(),
        session.is_settled() ==> session.step(event).0 == session,
{
}

/// Whatever the answers are, the manager comes to rest: after as many
/// answers as `steps_left` says, it is ready, has failed, or was never
/// asked.
pub proof fn lemma_session_comes_to_rest(session: BrowserSession, events: Seq<SessionEventView>)
    requires
        events.len() >= session.steps_left(),
    ensures
        after_events(session, events).is_settled(),
{
    lemma_steps_left_shrinks(session, events);
}

/// After `n` answers, a manager is at rest or has `n` fewer steps left.
pub proof fn lemma_steps_left_shrinks(session: BrowserSession, events: Seq<SessionEventView>)
    ensures
        after_events(session, events).is_settled() || after_events(session, events).steps_left()
            + events.len() <= session.steps_left(),
    decreases events.len(),
{
    if events.len() > 0 {
        lemma_steps_left_shrinks(session, events.drop_last());
        lemma_step_makes_progress(after_events(session, events.drop_last()), events.last());
    }
}

/// A session that answers at the first look is used as it is: the manager is
/// ready, and no browser is started.
pub proof fn lemma_reachable_session_is_reused(session: BrowserSession)
    ensures
        ({
            let (asked, first) = session.begun();
            let (ready, second) = asked.step(SessionEventView::Reachable(true));
            &&& !first.spawns()
            &&& second == SessionActionView::Done
            &&& ready.phase == SessionPhase::Ready
            &&& ready.owns_process == session.owns_process
        }),
{
}

/// A browser is started only in answer to a location, and only by a manager
/// that has found the debug endpoint silent before.
pub proof fn lemma_spawns_only_after_locating(session: BrowserSession, event: SessionEventView)
    requires
        session.step(event).1.spawns(),
    ensures
        session.phase == SessionPhase::Locating,
        event is Located,
{
}

/// A manager that has waited in vain for the debug endpoint fails with a
/// timeout: it does not go on as if the endpoint were there.
pub proof fn lemma_silent_endpoint_times_out(session: BrowserSession)
    requires
        session.phase == SessionPhase::Polling,
        session.polls_left == 0,
    ensures
        session.step(SessionEventView::Reachable(false)) == session.fails(
            LaunchErrorView::DebugPortTimeout(session.settings.debug_port_timeout_secs),
        ),
{
}

} // verus!
