use good_scanner::capture::CaptureTracker;
use good_scanner::capture_export::{capture_export_filename, is_generated_capture_export_filename};
use good_scanner::dump::{
    ocr_result_line, Annotator, ConstellationReading, DumpEntry, DumpRecords, LabelPosition,
    NodeReading, OcrRecord,
};
use good_scanner::grid::{GridIconResult, GridMode, GridVotes};

fn icons(lock: bool, astral: bool, elixir: bool) -> GridIconResult {
    GridIconResult { lock, astral, elixir }
}

#[test]
fn capture_stops_once_both_packets_seen() {
    let mut t = CaptureTracker::new();
    assert!(t.start());
    assert!(!t.start());
    assert!(t.state.capturing);
    t.on_items(12, 340);
    assert!(!t.after_packet());
    assert!(t.state.capturing);
    t.on_characters(55);
    assert!(t.after_packet());
    assert!(t.state.complete);
    assert!(!t.state.capturing);
    assert!(!t.task_running);
    assert_eq!(t.state.weapon_count, 12);
    assert_eq!(t.state.artifact_count, 340);
    assert_eq!(t.state.character_count, 55);
}

#[test]
fn capture_stop_cancels_running_task_only() {
    let mut t = CaptureTracker::new();
    assert!(!t.stop());
    assert!(t.start());
    assert!(t.stop());
    assert!(!t.state.capturing);
    assert!(!t.state.complete);
    // A restart clears the earlier completion.
    t.on_items(1, 1);
    t.on_characters(1);
    assert!(t.start());
    assert!(t.after_packet());
    assert!(t.start());
    assert!(!t.state.complete);
}

#[test]
fn grid_majority_over_passes() {
    let mut g = GridVotes::new(40, 3);
    assert_eq!(g.mode, GridMode::Artifact);
    assert_eq!(g.pass_count(), 0);
    g.record_pass(&vec![icons(true, false, false), icons(false, true, false)]);
    g.record_pass(&vec![icons(true, false, true), icons(false, false, false)]);
    g.record_pass(&vec![icons(false, false, true), icons(false, true, true)]);
    assert_eq!(g.pass_count(), 3);
    assert_eq!(g.get(40), Some(icons(true, false, true)));
    assert_eq!(g.get(41), Some(icons(false, true, false)));
    // Never read: every icon absent.
    assert_eq!(g.get(42), Some(icons(false, false, false)));
    assert_eq!(g.get(39), None);
    assert_eq!(g.get(43), None);
}

#[test]
fn grid_tie_counts_as_absent() {
    let mut g = GridVotes::with_mode(0, 1, GridMode::Weapon);
    g.record_pass(&vec![icons(true, true, true)]);
    assert_eq!(g.get(0), Some(icons(true, true, true)));
    g.record_pass(&vec![icons(false, false, false)]);
    assert_eq!(g.get(0), Some(icons(false, false, false)));
    assert_eq!(g.pass_count(), 2);
}

#[test]
fn empty_grid_has_no_passes() {
    let mut g = GridVotes::new(0, 0);
    g.record_pass(&vec![]);
    assert_eq!(g.pass_count(), 0);
    assert_eq!(g.get(0), None);
}

fn reading(d: &DumpRecords, i: usize) -> OcrRecord {
    match &d.entries[i].1 {
        DumpEntry::OcrRegion(r) => r.clone(),
        _ => panic!("entry {} is no reading", i),
    }
}

#[test]
fn dump_records_last_reading_gets_result() {
    let mut d = DumpRecords::new("artifacts", 3);
    assert_eq!(d.add_image("panel"), 0);
    d.record_ocr("level", "+2O");
    d.record_pixel("rarity", [255, 204, 50], "5", None);
    d.record_ocr("level", "+20");
    d.record_ocr("set", "角斗士的终幕礼");
    d.set_final_result("level", "20");
    d.set_display_result("set", "角斗士");
    d.set_label_below("set");
    d.set_final_result("missing", "x");
    d.set_final_result("rarity", "x");
    assert_eq!(d.entries.len(), 4);
    assert_eq!(reading(&d, 0).final_result, "");
    assert_eq!(reading(&d, 2).final_result, "20");
    assert_eq!(reading(&d, 3).display_result, "角斗士");
    assert_eq!(reading(&d, 3).label_pos, LabelPosition::Below);
    assert_eq!(reading(&d, 2).label_pos, LabelPosition::Auto);
    match &d.entries[1].1 {
        DumpEntry::PixelCheck { result_text, .. } => assert_eq!(result_text, "5"),
        _ => panic!("pixel check expected"),
    }
}

#[test]
fn dump_warnings_text() {
    let mut d = DumpRecords::new("artifacts", 3);
    assert_eq!(d.warnings_text(), "--- Warnings ---\n(none)\n");
    d.add_warning("level looks wrong");
    d.add_warning("set not found");
    assert_eq!(
        d.warnings_text(),
        "--- Warnings ---\n- level looks wrong\n- set not found\n"
    );
}

fn record(field: &str, raw: &str, fin: &str, disp: &str) -> OcrRecord {
    OcrRecord {
        field_name: field.to_string(),
        raw_text: raw.to_string(),
        final_result: fin.to_string(),
        display_result: disp.to_string(),
        label_pos: LabelPosition::Auto,
    }
}

#[test]
fn result_lines() {
    assert_eq!(
        ocr_result_line(&record("level", " +20 ", "20", "")),
        "level:           +20 -> 20\n"
    );
    assert_eq!(
        ocr_result_line(&record("rarity", "", "5", "")),
        "rarity:          5\n"
    );
    assert_eq!(
        ocr_result_line(&record("slot", "", "", "")),
        "slot:            (empty)\n"
    );
    assert_eq!(
        ocr_result_line(&record("lock", "yes", "yes", "")),
        "lock:            yes\n"
    );
    assert_eq!(
        ocr_result_line(&record("set", "角斗士的终幕", "GladiatorsFinale", "角斗士的终幕礼")),
        "set:             角斗士的终幕 -> 角斗士的终幕礼 -> GladiatorsFinale\n"
    );
    assert_eq!(
        ocr_result_line(&record("a_very_long_field_name", "x", "y", "")),
        "a_very_long_field_name: x -> y\n"
    );
}

#[test]
fn result_file_of_one_image() {
    let mut d = DumpRecords::new("artifacts", 3);
    d.add_image("panel");
    d.record_ocr("level", "+20");
    d.set_final_result("level", "20");
    d.record_pixel("rarity", [255, 204, 50], "5", Some([255, 0, 0]));
    d.push_entry(DumpEntry::Constellation(ConstellationReading {
        level: 2,
        nodes: vec![
            NodeReading { activated: true, brightness: 200, threshold: 120 },
            NodeReading { activated: false, brightness: 80, threshold: 120 },
        ],
    }));
    d.push_entry(DumpEntry::GridOverlay {
        cells: 40,
        detections: vec![(0, true, false), (3, true, true), (7, false, false)],
    });
    d.add_warning("checked twice");
    assert_eq!(
        d.result_text(Some("{\"level\":20}"), None),
        "--- Detections ---\n\
         level:           +20 -> 20\n\
         rarity:          rgb(255,204,50) -> 5\n\
         constellation:   C2\n\
         \x20 C1: yes brightness=200 threshold=120\n\
         \x20 C2: no  brightness=80 threshold=120\n\
         grid:            40 cells\n\
         \x20 locked:        cells [0, 3]\n\
         \x20 astral:        cells [3]\n\
         \n\
         --- Warnings ---\n\
         - checked twice\n\
         \n--- Final Object ---\n\
         {\"level\":20}\n"
    );
}

#[test]
fn result_file_of_a_failure_with_screens() {
    let mut d = DumpRecords::new("artifacts", 3);
    d.add_image("list");
    d.record_ocr("name", "");
    d.add_image("detail");
    d.record_ocr("level", "90");
    assert_eq!(
        d.result_text(None, Some("no name")),
        "FAILED: no name\n\n\
         --- List Screen ---\n\
         name:            (empty)\n\
         \n\
         --- Detail Screen ---\n\
         level:           90\n\
         \n\
         --- Warnings ---\n\
         (none)\n"
    );
}

#[test]
fn annotator_only_records_when_enabled() {
    let mut off = Annotator::init(false);
    assert!(!off.is_enabled());
    assert!(off.begin_item("artifacts", 0).is_none());
    off.add_warning("ignored");
    assert!(off.finalize_success("{}").is_none());

    let mut on = Annotator::init(true);
    assert!(on.is_enabled());
    assert!(on.finalize_skip("nothing begun").is_none());
    assert!(on.begin_item("characters", 12).is_none());
    on.add_image("panel");
    on.add_warning("checked twice");
    on.record_ocr("main_stat", "HP");
    on.set_final("main_stat", "hp");
    on.set_display("main_stat", "生命值");
    on.set_label_below("main_stat");
    on.record_pixel_colored("lock", [1, 2, 3], "yes", [0, 255, 0]);
    on.record_constellation(ConstellationReading { level: 0, nodes: vec![] });
    on.record_grid_overlay(0, vec![]);
    let out = on.finalize_success("{}").expect("records of the item");
    assert_eq!(out.file_name, "result.txt");
    assert_eq!(out.path, "debug_images/characters/0012/result.txt");
    assert!(out.write_images);
    let d = out.records;
    assert_eq!(d.warnings, vec!["checked twice".to_string()]);
    assert_eq!(d.entries.len(), 4);
    assert_eq!(reading(&d, 0).final_result, "hp");
    assert_eq!(reading(&d, 0).display_result, "生命值");
    assert_eq!(reading(&d, 0).label_pos, LabelPosition::Below);
    assert!(out.text.ends_with("\n--- Final Object ---\n{}\n"));
    assert!(on.finalize_error(None, "late").is_none());
}

#[test]
fn annotator_failures_and_skips() {
    let mut on = Annotator::init(true);
    on.begin_item("artifacts", 6);
    on.add_image("panel");
    on.record_ocr("level", "x");
    // A new item before the last one was finished drops it.
    let dropped = on.begin_item("artifacts", 7).expect("unfinished item");
    assert_eq!(dropped.file_name, "error.txt");
    assert_eq!(dropped.path, "debug_images/artifacts/0006/error.txt");
    assert_eq!(
        dropped.text,
        "DROPPED: scan function exited before finalize (likely an error)\n"
    );
    assert_eq!(dropped.records.entries.len(), 1);
    let out = on.finalize_error(Some("{\"level\":1}"), "bad level").unwrap();
    assert_eq!(out.file_name, "error.txt");
    assert_eq!(out.path, "debug_images/artifacts/0007/error.txt");
    assert!(out.text.starts_with("FAILED: bad level\n\n--- Warnings ---\n(none)\n"));
    on.begin_item("weapons", 12345);
    let skip = on.finalize_skip("below minimum rarity").unwrap();
    assert_eq!(skip.file_name, "error.txt");
    assert_eq!(skip.path, "debug_images/weapons/12345/error.txt");
    assert!(on.finalize_skip("again").is_none());
    assert_eq!(skip.text, "SKIPPED: below minimum rarity\n");
    assert!(!skip.write_images);
}

#[test]
fn export_filenames_round_trip() {
    let name = capture_export_filename("2026-04-27_13-45-09");
    assert_eq!(name, "genshin_export_2026-04-27_13-45-09.json");
    assert!(is_generated_capture_export_filename(&name));
    assert!(!is_generated_capture_export_filename(&capture_export_filename("latest")));
}
