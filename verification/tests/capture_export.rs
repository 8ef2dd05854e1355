use good_scanner::capture_export::is_generated_capture_export_filename;

#[test]
fn matches_generated_capture_exports_only() {
    assert!(is_generated_capture_export_filename(
        "genshin_export_2026-04-27_13-45-09.json"
    ));
    assert!(!is_generated_capture_export_filename(
        "genshin_export_2026-04-27_13-45.json"
    ));
    assert!(!is_generated_capture_export_filename(
        "genshin_export_latest.json"
    ));
    assert!(!is_generated_capture_export_filename(
        "genshin_export_2026-13-27_13-45-09.json"
    ));
    assert!(!is_generated_capture_export_filename(
        "good_export_2026-04-27_13-45-09.json"
    ));
}

#[test]
fn export_name_rejects_out_of_range_times() {
    assert!(!is_generated_capture_export_filename("genshin_export_2026-04-27_24-00-00.json"));
    assert!(!is_generated_capture_export_filename("genshin_export_2026-04-32_13-45-09.json"));
    assert!(!is_generated_capture_export_filename("genshin_export_2026-04-00_13-45-09.json"));
    assert!(is_generated_capture_export_filename("genshin_export_2026-12-31_23-59-59.json"));
    assert!(!is_generated_capture_export_filename("genshin_export_2026-04-27_13-45-09.txt"));
}
