//! Verified core of the GOOD-format Genshin Impact scanner: text parsing of
//! OCR results, artifact matching, the manage/scan job server's decisions and
//! the bookkeeping that surrounds them.
pub mod text;
pub mod capture_export;
pub mod models;
pub mod json;
pub mod job_status;
pub mod lang;
pub mod http;
pub mod server;
pub mod matching;
pub mod fuzzy;
pub mod equip_parser;
pub mod levels;
pub mod numparse;
pub mod talents;
pub mod level_text;
pub mod orchestrator;
pub mod config;
pub mod scan_runner;
pub mod gui_state;
pub mod clock;
pub mod mappings;
pub mod names;
pub mod capture;
pub mod grid;
pub mod dump;
pub mod artifact_text;
pub mod char_scan;
pub mod artifact_scan;
pub mod capture_phase;
