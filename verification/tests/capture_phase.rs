use good_scanner::capture_phase::{
    after_write, export_summary, poll_capture, poll_export, CaptureFailure, CapturePhase,
    CaptureSnapshot, ExportPoll, WriteOutcome,
};

fn snap(error: Option<&str>, capturing: bool, complete: bool, finished: bool) -> CaptureSnapshot {
    CaptureSnapshot {
        error: error.map(|e| e.to_string()),
        capturing,
        complete,
        thread_finished: finished,
        has_handle: true,
    }
}

#[test]
fn capture_moves_from_start_to_export() {
    let (p, send) = poll_capture(CapturePhase::Initializing, snap(None, false, false, false));
    assert!(matches!(p, CapturePhase::Initializing) && !send);
    let (p, send) = poll_capture(p, snap(None, true, false, false));
    assert!(matches!(p, CapturePhase::Waiting) && !send);
    let (p, send) = poll_capture(p, snap(None, false, true, false));
    assert!(matches!(p, CapturePhase::Exporting) && send);
    // Starting and complete at once: exported in the same poll.
    let (p, send) = poll_capture(CapturePhase::Initializing, snap(None, true, true, false));
    assert!(matches!(p, CapturePhase::Exporting) && send);
    // No thread to ask: keeps waiting.
    let mut s = snap(None, true, true, false);
    s.has_handle = false;
    let (p, send) = poll_capture(CapturePhase::Waiting, s);
    assert!(matches!(p, CapturePhase::Waiting) && !send);
}

#[test]
fn capture_failures() {
    let (p, _) = poll_capture(CapturePhase::Waiting, snap(Some("网络错误 / network error"), true, false, true));
    match p {
        CapturePhase::Failed(CaptureFailure::Capture(e)) => assert_eq!(e, "网络错误 / network error"),
        _ => panic!("capture error expected"),
    }
    let (p, _) = poll_capture(CapturePhase::Initializing, snap(None, false, false, true));
    assert!(matches!(p, CapturePhase::Failed(CaptureFailure::ExitedUnexpectedly)));
    // Settled phases ignore the thread.
    let (p, send) = poll_capture(CapturePhase::Idle, snap(Some("x"), true, true, true));
    assert!(matches!(p, CapturePhase::Idle) && !send);
}

#[test]
fn export_replies_and_writes() {
    assert!(matches!(poll_export(ExportPoll::Pending), (None, true, false)));
    assert!(matches!(poll_export(ExportPoll::Received), (None, false, true)));
    assert!(matches!(
        poll_export(ExportPoll::Closed),
        (Some(CapturePhase::Failed(CaptureFailure::ChannelClosed)), false, false)
    ));
    match poll_export(ExportPoll::Failed("no data".to_string())) {
        (Some(CapturePhase::Failed(CaptureFailure::Export(e))), false, false) => assert_eq!(e, "no data"),
        _ => panic!("export failure expected"),
    }
    match after_write(WriteOutcome::Written {
        characters: 3,
        weapons: 4,
        artifacts: 5,
        path: "out.json".to_string(),
    }) {
        CapturePhase::Done { characters, weapons, artifacts, path } => {
            assert_eq!((characters, weapons, artifacts), (3, 4, 5));
            assert_eq!(path, "out.json");
        },
        _ => panic!("done expected"),
    }
    assert!(matches!(
        after_write(WriteOutcome::WriteFailed("disk full".to_string())),
        CapturePhase::Failed(CaptureFailure::Write(_))
    ));
    assert_eq!(
        export_summary(55, 120, 1500),
        (
            "已导出: 55 角色, 120 武器, 1500 圣遗物".to_string(),
            "Exported: 55 characters, 120 weapons, 1500 artifacts".to_string()
        )
    );
}
