//! Small pieces of state shared by the interface: task and update status,
//! log entries, credits, the HDR pixel profile, and privilege checks.
use vstd::prelude::*;

verus! {

/// Status of a background operation.
#[derive(Clone, Debug)]
pub enum TaskStatus {
    Idle,
    Running(String),
    Completed(String),
    Failed(String),
}

/// Which tab a log entry belongs to.
#[derive(Clone, Copy, Debug, PartialEq, Eq, Structural)]
pub enum LogSource {
    Scanner,
    Manager,
}

/// Severity of a log entry.
#[derive(Clone, Copy, Debug, PartialEq, Eq, Structural)]
pub enum LogLevel {
    Error,
    Warn,
    Info,
    Debug,
    Trace,
}

/// One line of the log panel.
#[derive(Clone, Debug)]
pub struct LogEntry {
    pub level: LogLevel,
    pub message: String,
    pub timestamp: String,
    pub source: LogSource,
}

/// State of the check for a newer version.
#[derive(Clone, Debug)]
pub enum UpdateState {
    /// The check runs in the background.
    Checking,
    /// A newer version can be downloaded.
    Available { latest_version: String, download_url: String },
    /// The download runs.
    Downloading,
    /// The update is applied; the restart dialog is shown.
    ShowingDialog,
    /// The update is applied; the user restarts later.
    Ready,
    /// Already the latest version (or a development build).
    Latest,
    /// The check or the download failed (the program goes on).
    Failed(String),
}

/// Which credits the about panel shows.
#[derive(Clone, Copy, Debug, PartialEq, Eq, Structural)]
pub enum CreditSet {
    /// The OCR scanner's credits.
    Scanner,
    /// The packet-capture tool's credits.
    Capture,
}

/// Whether pixel checks use the thresholds for an HDR display.
#[derive(Clone, Copy, Debug, PartialEq, Eq, Structural)]
pub struct PixelProfile {
    hdr: bool,
}

impl PixelProfile {
    /// SDR thresholds, the default.
    pub fn new() -> (p: Self)
        ensures
            !p.is_hdr_mode_spec(),
    {
        PixelProfile { hdr: false }
    }

    /// Whether the HDR thresholds are in use.
    pub closed spec fn is_hdr_mode_spec(&self) -> bool {
        self.hdr
    }

    /// Switch between HDR and SDR thresholds.
    pub fn set_hdr_mode(&mut self, enabled: bool)
        ensures
            final(self).is_hdr_mode_spec() == enabled,
    {
        self.hdr = enabled;
    }

    /// Whether the HDR thresholds are in use.
    pub fn is_hdr_mode(&self) -> (b: bool)
        ensures
            b == self.is_hdr_mode_spec(),
    {
        self.hdr
    }
}

/// Make sure the process may drive the game before a task that does. Off
/// Windows no elevation is needed, and this always succeeds.
pub fn ensure_admin_for_action() -> (r: Result<(), String>)
    ensures
        r is Ok,
{
    Ok(())
}

/// Names of Wuthering Waves echoes; only a placeholder exists until the
/// echo data is available.
#[derive(Clone, Copy, Debug, PartialEq, Eq, Structural)]
pub enum WWEchoName {
    Unknown,
}

impl WWEchoName {
    /// The echo with a Chinese name; every name reads as the placeholder.
    pub fn from_chs(chs: &str) -> (r: Option<Self>)
        ensures
            r == Some(WWEchoName::Unknown),
    {
        Some(WWEchoName::Unknown)
    }
}

} // verus!
