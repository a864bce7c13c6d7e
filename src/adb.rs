//! Errors of the device-service worker, and how it keeps its backend
//! connection healthy.
use crate::async_state::ErrorText;
use vstd::prelude::*;
use vstd::string::StringExecFns;

verus! {

/// Errors of the device-service worker.
#[derive(Debug, Clone, PartialEq, Eq)]
pub enum AdbError {
    /// The connection to the device-service worker was lost.
    ChannelClosed,
    /// The device-discovery backend reported a failure, with its message.
    Adb(String),
    /// The blocking task running a backend call panicked or was cancelled.
    Join(String),
}

/// User friendly title of an error.
pub open spec fn adb_title(e: AdbError) -> Seq<char> {
    match e {
        AdbError::ChannelClosed => "System Error"@,
        AdbError::Adb(_) => "ADB Error"@,
        AdbError::Join(_) => "Crash Report"@,
    }
}

/// The text of an error.
pub open spec fn adb_text(e: AdbError) -> Seq<char> {
    match e {
        AdbError::ChannelClosed => "Internal service disconnected"@,
        AdbError::Adb(m) => m@,
        AdbError::Join(m) => "Task failed: "@ + m@,
    }
}

impl AdbError {
    /// User friendly error title.
    pub fn title(&self) -> (r: &'static str)
        ensures
            r@ == adb_title(*self),
    {
        proof {
            reveal_strlit("System Error");
            reveal_strlit("ADB Error");
            reveal_strlit("Crash Report");
        }
        match self {
            AdbError::ChannelClosed => "System Error",
            AdbError::Adb(_) => "ADB Error",
            AdbError::Join(_) => "Crash Report",
        }
    }

    /// The error's message.
    pub fn message(&self) -> (r: String)
        ensures
            r@ == adb_text(*self),
    {
        proof {
            reveal_strlit("Internal service disconnected");
            reveal_strlit("Task failed: ");
        }
        match self {
            AdbError::ChannelClosed => String::from_str("Internal service disconnected"),
            AdbError::Adb(m) => m.clone(),
            AdbError::Join(m) => String::from_str("Task failed: ").concat(m.as_str()),
        }
    }
}

impl ErrorText for AdbError {
    fn error_text(&self) -> String {
        self.message()
    }
}

/// The next step in making sure the backend connection is healthy.
#[derive(Debug, Clone, Copy, PartialEq, Eq, Structural)]
pub enum ConnectionStep {
    /// The connection held is healthy: use it.
    UseExisting,
    /// Create a new connection and probe its health.
    CreateAndProbe,
    /// The new connection is unhealthy: kill and restart the backend server, then
    /// probe again.
    RestartAndProbe,
    /// The new connection is healthy: keep it in place of the old one, and use it.
    UseNew,
    /// The backend stays unhealthy after a restart: report the probe's error.
    Fail,
}

/// The first step, given whether a connection is held and answers its probe.
pub fn connection_start(existing_healthy: bool) -> (r: ConnectionStep)
    ensures
        existing_healthy ==> r == ConnectionStep::UseExisting,
        !existing_healthy ==> r == ConnectionStep::CreateAndProbe,
{
    if existing_healthy {
        ConnectionStep::UseExisting
    } else {
        ConnectionStep::CreateAndProbe
    }
}

/// The step after probing a new connection, before (`restarted` false) or after
/// the backend server was restarted. The server is restarted at most once.
pub fn after_probe(restarted: bool, healthy: bool) -> (r: ConnectionStep)
    ensures
        healthy ==> r == ConnectionStep::UseNew,
        !healthy && !restarted ==> r == ConnectionStep::RestartAndProbe,
        !healthy && restarted ==> r == ConnectionStep::Fail,
{
    if healthy {
        ConnectionStep::UseNew
    } else if restarted {
        ConnectionStep::Fail
    } else {
        ConnectionStep::RestartAndProbe
    }
}

} // verus!
