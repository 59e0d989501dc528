//! The waits and the port that a run goes by.

use vstd::prelude::*;

verus! {

/// Seconds that the workflow waits for the human before it gives up.
pub const DEFAULT_VERIFICATION_TIMEOUT_SECS: u32 = 600;

/// Seconds that a launched browser is given to open its debug port.
pub const DEFAULT_DEBUG_PORT_TIMEOUT_SECS: u32 = 30;

/// Milliseconds between two looks at the debug port.
pub const DEFAULT_POLL_INTERVAL_MS: u32 = 500;

/// Milliseconds that a killed browser is given to release its profile.
pub const DEFAULT_SETTLE_MS: u32 = 2000;

/// Seconds after which the automation engine is cut off.
pub const DEFAULT_ENGINE_TIMEOUT_SECS: u32 = 900;

/// The port on which the browser offers its debug endpoint.
pub const DEFAULT_DEBUG_PORT: u16 = 9222;

/// What a run can be tuned by.
#[derive(Clone, Copy, Debug, PartialEq, Eq, Structural)]
pub struct Settings {
    pub verification_timeout_secs: u32,
    pub debug_port_timeout_secs: u32,
    pub poll_interval_ms: u32,
    pub settle_ms: u32,
    pub engine_timeout_secs: u32,
    pub debug_port: u16,
}

impl Settings {
    /// Every wait is bounded and lasts, the debug port is polled at least
    /// once, and the engine outlasts the wait for the human.
    pub open spec fn well_formed(self) -> bool {
        &&& self.verification_timeout_secs > 0
        &&& self.debug_port_timeout_secs > 0
        &&& self.poll_interval_ms > 0
        &&& self.engine_timeout_secs > self.verification_timeout_secs
        &&& self.debug_port > 0
    }

    /// Ten minutes for the human, thirty seconds for the debug port.
    pub open spec fn standard() -> Settings {
        Settings {
            verification_timeout_secs: DEFAULT_VERIFICATION_TIMEOUT_SECS,
            debug_port_timeout_secs: DEFAULT_DEBUG_PORT_TIMEOUT_SECS,
            poll_interval_ms: DEFAULT_POLL_INTERVAL_MS,
            settle_ms: DEFAULT_SETTLE_MS,
            engine_timeout_secs: DEFAULT_ENGINE_TIMEOUT_SECS,
            debug_port: DEFAULT_DEBUG_PORT,
        }
    }

    /// Tests whether the settings can be run by.
    pub fn is_valid(&self) -> (ok: bool)
        ensures
            ok == self.well_formed(),
    {
        self.verification_timeout_secs > 0 && self.debug_port_timeout_secs > 0
            && self.poll_interval_ms > 0 && self.engine_timeout_secs
            > self.verification_timeout_secs && self.debug_port > 0
    }
}

impl Default for Settings {
    fn default() -> (r: Self)
        ensures
            r == Settings::standard(),
            r.well_formed(),
    {
        Settings {
            verification_timeout_secs: DEFAULT_VERIFICATION_TIMEOUT_SECS,
            debug_port_timeout_secs: DEFAULT_DEBUG_PORT_TIMEOUT_SECS,
            poll_interval_ms: DEFAULT_POLL_INTERVAL_MS,
            settle_ms: DEFAULT_SETTLE_MS,
            engine_timeout_secs: DEFAULT_ENGINE_TIMEOUT_SECS,
            debug_port: DEFAULT_DEBUG_PORT,
        }
    }
}

} // verus!
