//! The phases of the packet-capture tab: starting, waiting for the game's
//! data, exporting it, and how each poll of the background capture moves
//! between them.
use vstd::prelude::*;
use crate::text::{decimal, push_decimal, push_str};

verus! {

/// Why a capture ended in failure.
#[derive(Clone, Debug)]
pub enum CaptureFailure {
    /// The capture thread reported this (bilingual) error.
    Capture(String),
    /// The capture thread ended without an error.
    ExitedUnexpectedly,
    /// The export failed with this error.
    Export(String),
    /// The export's reply channel closed.
    ChannelClosed,
    /// Removing the earlier exports failed with this error.
    RemoveOld(String),
    /// Serialising the export failed with this error.
    Serialize(String),
    /// Writing the export file failed with this error.
    Write(String),
}

/// The phase of the capture tab.
#[derive(Clone, Debug)]
pub enum CapturePhase {
    /// Nothing running.
    Idle,
    /// The capture thread is starting.
    Initializing,
    /// Capturing, waiting for the game's packets.
    Waiting,
    /// All data arrived; the export runs.
    Exporting,
    /// The export was written to `path`.
    Done { characters: usize, weapons: usize, artifacts: usize, path: String },
    Failed(CaptureFailure),
}

/// What the capture thread shows at a poll.
pub struct CaptureSnapshot {
    pub error: Option<String>,
    pub capturing: bool,
    pub complete: bool,
    /// The capture thread has ended.
    pub thread_finished: bool,
    /// A capture thread was started (commands can be sent to it).
    pub has_handle: bool,
}

/// A poll of the pending export's reply.
pub enum ExportPoll {
    /// No reply yet.
    Pending,
    /// The export arrived; it is to be written.
    Received,
    Failed(String),
    Closed,
}

/// What came of writing a received export.
pub enum WriteOutcome {
    RemoveOldFailed(String),
    SerializeFailed(String),
    WriteFailed(String),
    Written { characters: usize, weapons: usize, artifacts: usize, path: String },
}

/// A poll of the capture with no export pending: a failure of the thread
/// ends a starting or waiting capture; a started capture waits; a complete
/// one is exported (when there is a thread to ask). The second value tells
/// whether to ask the thread for the export.
pub open spec fn capture_poll(p: CapturePhase, s: CaptureSnapshot) -> (CapturePhase, bool) {
    if (p is Initializing || p is Waiting) && s.error is Some {
        (CapturePhase::Failed(CaptureFailure::Capture(s.error->0)), false)
    } else if (p is Initializing || p is Waiting) && s.thread_finished {
        (CapturePhase::Failed(CaptureFailure::ExitedUnexpectedly), false)
    } else {
        let p1 = if p is Initializing && s.capturing {
            CapturePhase::Waiting
        } else {
            p
        };
        if p1 is Waiting && s.complete && s.has_handle {
            (CapturePhase::Exporting, true)
        } else {
            (p1, false)
        }
    }
}

/// Poll the capture thread when no export is pending.
pub fn poll_capture(phase: CapturePhase, snap: CaptureSnapshot) -> (r: (CapturePhase, bool))
    ensures
        r == capture_poll(phase, snap),
{
    let active = match phase {
        CapturePhase::Initializing | CapturePhase::Waiting => true,
        _ => false,
    };
    if active {
        match snap.error {
            Some(e) => {
                return (CapturePhase::Failed(CaptureFailure::Capture(e)), false);
            },
            None => {},
        }
        if snap.thread_finished {
            return (CapturePhase::Failed(CaptureFailure::ExitedUnexpectedly), false);
        }
    }
    let p1 = match phase {
        CapturePhase::Initializing => if snap.capturing {
            CapturePhase::Waiting
        } else {
            CapturePhase::Initializing
        },
        other => other,
    };
    match p1 {
        CapturePhase::Waiting => if snap.complete && snap.has_handle {
            (CapturePhase::Exporting, true)
        } else {
            (CapturePhase::Waiting, false)
        },
        other => (other, false),
    }
}

/// A poll of the pending export: the phase after it (none while there is
/// no reply or while the received export is being written), whether the
/// export stays pending, and whether to write it.
pub open spec fn export_poll(p: ExportPoll) -> (Option<CapturePhase>, bool, bool) {
    match p {
        ExportPoll::Pending => (None, true, false),
        ExportPoll::Received => (None, false, true),
        ExportPoll::Failed(e) => (Some(CapturePhase::Failed(CaptureFailure::Export(e))), false, false),
        ExportPoll::Closed => (Some(CapturePhase::Failed(CaptureFailure::ChannelClosed)), false, false),
    }
}

/// Poll the pending export.
pub fn poll_export(p: ExportPoll) -> (r: (Option<CapturePhase>, bool, bool))
    ensures
        r == export_poll(p),
{
    match p {
        ExportPoll::Pending => (None, true, false),
        ExportPoll::Received => (None, false, true),
        ExportPoll::Failed(e) => (Some(CapturePhase::Failed(CaptureFailure::Export(e))), false, false),
        ExportPoll::Closed => (Some(CapturePhase::Failed(CaptureFailure::ChannelClosed)), false, false),
    }
}

/// The phase once a received export was written, or failed to be.
pub open spec fn written_phase(w: WriteOutcome) -> CapturePhase {
    match w {
        WriteOutcome::RemoveOldFailed(e) => CapturePhase::Failed(CaptureFailure::RemoveOld(e)),
        WriteOutcome::SerializeFailed(e) => CapturePhase::Failed(CaptureFailure::Serialize(e)),
        WriteOutcome::WriteFailed(e) => CapturePhase::Failed(CaptureFailure::Write(e)),
        WriteOutcome::Written { characters, weapons, artifacts, path } => CapturePhase::Done {
            characters,
            weapons,
            artifacts,
            path,
        },
    }
}

/// The phase after writing a received export.
pub fn after_write(w: WriteOutcome) -> (p: CapturePhase)
    ensures
        p == written_phase(w),
{
    match w {
        WriteOutcome::RemoveOldFailed(e) => CapturePhase::Failed(CaptureFailure::RemoveOld(e)),
        WriteOutcome::SerializeFailed(e) => CapturePhase::Failed(CaptureFailure::Serialize(e)),
        WriteOutcome::WriteFailed(e) => CapturePhase::Failed(CaptureFailure::Write(e)),
        WriteOutcome::Written { characters, weapons, artifacts, path } => CapturePhase::Done {
            characters,
            weapons,
            artifacts,
            path,
        },
    }
}

/// `Exported: <c> characters, <w> weapons, <a> artifacts`.
pub open spec fn summary_en(c: usize, w: usize, a: usize) -> Seq<char> {
    "Exported: "@ + decimal(c as nat) + " characters, "@ + decimal(w as nat) + " weapons, "@
        + decimal(a as nat) + " artifacts"@
}

/// `已导出: <c> 角色, <w> 武器, <a> 圣遗物`.
pub open spec fn summary_zh(c: usize, w: usize, a: usize) -> Seq<char> {
    "已导出: "@ + decimal(c as nat) + " 角色, "@ + decimal(w as nat) + " 武器, "@ + decimal(
        a as nat,
    ) + " 圣遗物"@
}

/// The summary of a written export, in Chinese and in English.
pub fn export_summary(characters: usize, weapons: usize, artifacts: usize) -> (r: (String, String))
    ensures
        r.0@ == summary_zh(characters, weapons, artifacts),
        r.1@ == summary_en(characters, weapons, artifacts),
{
    let mut zh = String::new();
    push_str(&mut zh, "已导出: ");
    push_decimal(&mut zh, characters as u64);
    push_str(&mut zh, " 角色, ");
    push_decimal(&mut zh, weapons as u64);
    push_str(&mut zh, " 武器, ");
    push_decimal(&mut zh, artifacts as u64);
    push_str(&mut zh, " 圣遗物");
    let mut en = String::new();
    push_str(&mut en, "Exported: ");
    push_decimal(&mut en, characters as u64);
    push_str(&mut en, " characters, ");
    push_decimal(&mut en, weapons as u64);
    push_str(&mut en, " weapons, ");
    push_decimal(&mut en, artifacts as u64);
    push_str(&mut en, " artifacts");
    assert(zh@ =~= summary_zh(characters, weapons, artifacts));
    assert(en@ =~= summary_en(characters, weapons, artifacts));
    (zh, en)
}

/// A capture that has started stays in a running phase or ends: a poll
/// never takes a running capture back to `Idle` nor jumps to `Done`.
pub proof fn polls_never_reset_a_capture(p: CapturePhase, s: CaptureSnapshot)
    requires
        p is Initializing || p is Waiting,
    ensures
        !(capture_poll(p, s).0 is Idle),
        !(capture_poll(p, s).0 is Done),
        capture_poll(p, s).1 ==> capture_poll(p, s).0 is Exporting,
{
}

/// A finished or failed capture is left as it is by polls.
pub proof fn settled_phases_stay(p: CapturePhase, s: CaptureSnapshot)
    requires
        p is Idle || p is Done || p is Failed || p is Exporting,
    ensures
        capture_poll(p, s) == (p, false),
{
}

} // verus!
