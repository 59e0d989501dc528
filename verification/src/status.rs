//! How the status of a run changes: the one channel through which the run
//! tells a polling caller where it stands.

use vstd::prelude::*;
use crate::models::{AutomationStatus, AutomationStatusView, Timestamp};
use crate::text::concat2;

verus! {

/// The step of a run that has just been started.
pub const STEP_INITIALIZING: &'static str = "initializing";

/// The step in which the files are looked up and the workflow is generated.
pub const STEP_GENERATING: &'static str = "generating workflow";

/// The step in which the browser session is seen to.
pub const STEP_BROWSER: &'static str = "starting browser";

/// The step in which the full workflow runs.
pub const STEP_PRIMARY: &'static str = "running workflow";

/// The step in which the workflow without uploads runs.
pub const STEP_SIMPLIFIED: &'static str = "running simplified workflow";

/// The step in which the guide is shown.
pub const STEP_GUIDE: &'static str = "showing manual guide";

/// The step in which the case is put on record.
pub const STEP_RECORDING: &'static str = "recording case";

/// The step of a run that ended well.
pub const STEP_COMPLETED: &'static str = "completed";

/// The step of a run that ended badly.
pub const STEP_FAILED: &'static str = "failed";

/// The step after a stop.
pub const STEP_STOPPED: &'static str = "stopped";

/// What every message of a failed run begins with.
pub const FAILURE_PREFIX: &'static str = "the run failed: ";

/// What the status says of a run that the user stopped.
pub const STOPPED_BY_USER: &'static str = "stopped by the user";

/// `p`, and 100 where `p` is more.
pub open spec fn percent(p: u8) -> u8 {
    if p > 100 {
        100
    } else {
        p
    }
}

impl AutomationStatusView {
    /// The status of a run that has just been started at `now`.
    pub open spec fn started(now: Timestamp) -> AutomationStatusView {
        AutomationStatusView {
            is_running: true,
            current_step: Some(STEP_INITIALIZING@),
            progress: Some(0u8),
            error: None,
            started_at: Some(now),
        }
    }

    /// The status with a new step and a new progress.
    pub open spec fn advanced(self, step: Seq<char>, progress: u8) -> AutomationStatusView {
        AutomationStatusView {
            current_step: Some(step),
            progress: Some(percent(progress)),
            ..self
        }
    }

    /// The status of the run after it ended well.
    pub open spec fn completed(self) -> AutomationStatusView {
        AutomationStatusView {
            is_running: false,
            current_step: Some(STEP_COMPLETED@),
            progress: Some(100u8),
            error: None,
            ..self
        }
    }

    /// The status of the run after it ended badly, for the reason `why`.
    pub open spec fn failed(self, why: Seq<char>) -> AutomationStatusView {
        AutomationStatusView {
            is_running: false,
            current_step: Some(STEP_FAILED@),
            error: Some(FAILURE_PREFIX@ + why),
            ..self
        }
    }

    /// The status after a stop: not running, and, where a run was cut
    /// short, the reason.
    pub open spec fn stopped(self) -> AutomationStatusView {
        AutomationStatusView {
            is_running: false,
            current_step: Some(STEP_STOPPED@),
            error: if self.is_running {
                Some(STOPPED_BY_USER@)
            } else {
                self.error
            },
            ..self
        }
    }
}

/// The two messages with which a run can be cut short are not empty.
pub proof fn lemma_messages_are_not_empty()
    ensures
        FAILURE_PREFIX@.len() > 0,
        STOPPED_BY_USER@.len() > 0,
{
    reveal_strlit("the run failed: ");
    reveal_strlit("stopped by the user");
}

impl AutomationStatus {
    /// Starts a run at `now`.
    pub fn begin(&mut self, now: Timestamp)
        ensures
            final(self)@ == AutomationStatusView::started(now),
            final(self)@.well_formed(),
    {
        self.is_running = true;
        self.current_step = Some(String::from_str(STEP_INITIALIZING));
        self.progress = Some(0);
        self.error = None;
        self.started_at = Some(now);
    }

    /// Notes a new step and a new progress; a progress over 100 counts as
    /// 100.
    pub fn update_status(&mut self, step: &str, progress: u8)
        ensures
            final(self)@ == old(self)@.advanced(step@, progress),
            old(self)@.well_formed() && old(self)@.is_running ==> final(self)@.well_formed(),
    {
        self.current_step = Some(String::from_str(step));
        self.progress = Some(
            if progress > 100 {
                100
            } else {
                progress
            },
        );
    }

    /// Ends the run well.
    pub fn complete(&mut self)
        ensures
            final(self)@ == old(self)@.completed(),
            old(self)@.well_formed() ==> final(self)@.well_formed(),
    {
        self.is_running = false;
        self.current_step = Some(String::from_str(STEP_COMPLETED));
        self.progress = Some(100);
        self.error = None;
    }

    /// Ends the run badly, for the reason `why`.
    pub fn fail(&mut self, why: &str)
        ensures
            final(self)@ == old(self)@.failed(why@),
            old(self)@.well_formed() ==> final(self)@.well_formed(),
    {
        proof {
            lemma_messages_are_not_empty();
        }
        self.is_running = false;
        self.current_step = Some(String::from_str(STEP_FAILED));
        self.error = Some(concat2(FAILURE_PREFIX, why));
    }

    /// Notes a stop.
    pub fn stop(&mut self)
        ensures
            final(self)@ == old(self)@.stopped(),
            old(self)@.well_formed() ==> final(self)@.well_formed(),
    {
        proof {
            lemma_messages_are_not_empty();
        }
        if self.is_running {
            self.error = Some(String::from_str(STOPPED_BY_USER));
        }
        self.is_running = false;
        self.current_step = Some(String::from_str(STEP_STOPPED));
    }
}

/// A run that is over without having reached 100 percent says why: its
/// status holds an error, and the error is not empty.
pub proof fn lemma_ended_run_says_why(status: AutomationStatusView)
    requires
        status.well_formed(),
        !status.is_running,
        status.started_at is Some,
        status.progress != Some(100u8),
    ensures
        status.error is Some,
        status.error->0.len() > 0,
{
}

/// However a run ends, its status is well formed afterwards.
pub proof fn lemma_endings_keep_the_status_well_formed(status: AutomationStatusView, why: Seq<char>)
    requires
        status.well_formed(),
    ensures
        status.completed().well_formed(),
        status.failed(why).well_formed(),
        status.stopped().well_formed(),
{
    lemma_messages_are_not_empty();
}

} // verus!
