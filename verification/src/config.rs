//! Configuration: the user's settings file, the scan options, and the OCR
//! pool sizes.
use vstd::prelude::*;
use crate::text::{to_chars, trim_chars, trim_seq, from_chars};

verus! {

// ---------------------------------------------------------------------------
// Defaults of the timing settings (milliseconds)
// ---------------------------------------------------------------------------

/// Delay after switching between the tabs of a character's panel.
pub const DEFAULT_DELAY_CHAR_TAB_SWITCH: u64 = 400;
/// Delay after moving on to the next character.
pub const DEFAULT_DELAY_CHAR_NEXT: u64 = 300;
/// Delay after opening a screen.
pub const DEFAULT_DELAY_OPEN_SCREEN: u64 = 800;
/// Delay after closing a screen.
pub const DEFAULT_DELAY_CLOSE_SCREEN: u64 = 500;
/// Delay after scrolling the inventory.
pub const DEFAULT_DELAY_SCROLL: u64 = 100;
/// Delay after switching inventory tabs.
pub const DEFAULT_DELAY_INV_TAB_SWITCH: u64 = 300;
/// Fixed wait before checking that the weapon panel is stable.
pub const DEFAULT_WEAPON_PANEL_DELAY: u64 = 100;
/// Wait after clicking an artifact before watching for its panel.
pub const DEFAULT_ARTIFACT_INITIAL_WAIT: u64 = 100;
/// How long to watch for the artifact panel to load.
pub const DEFAULT_ARTIFACT_PANEL_TIMEOUT: u64 = 500;
/// Extra wait after the artifact panel loaded, before capturing it.
pub const DEFAULT_ARTIFACT_EXTRA_DELAY: u64 = 0;

/// Port of the local manage/scan server.
pub const DEFAULT_SERVER_PORT: u16 = 8765;

// ---------------------------------------------------------------------------
// Name overrides
// ---------------------------------------------------------------------------

/// The in-game names of the characters a player can rename, where renamed.
#[derive(Clone, Debug)]
pub struct NameOverrides {
    pub traveler_name: Option<String>,
    pub wanderer_name: Option<String>,
    pub manekin_name: Option<String>,
    pub manekina_name: Option<String>,
}

/// A setting as an optional name: none when blank, else trimmed.
pub open spec fn opt_name(s: Seq<char>) -> Option<Seq<char>> {
    if trim_seq(s).len() == 0 {
        None
    } else {
        Some(trim_seq(s))
    }
}

/// `s` as an optional name.
pub fn opt(s: &str) -> (r: Option<String>)
    ensures
        match r {
            Some(t) => opt_name(s@) == Some(t@),
            None => opt_name(s@) is None,
        },
{
    let t = trim_chars(&to_chars(s));
    if t.len() == 0 {
        None
    } else {
        Some(from_chars(&t))
    }
}

/// The view of an optional string.
pub open spec fn opt_view(o: Option<String>) -> Option<Seq<char>> {
    match o {
        Some(s) => Some(s@),
        None => None,
    }
}

// ---------------------------------------------------------------------------
// OCR pools
// ---------------------------------------------------------------------------

/// How many OCR engines of each model to keep.
#[derive(Clone, Copy, Debug, PartialEq, Eq, Structural)]
pub struct OcrPoolConfig {
    pub v5_count: usize,
    pub v4_count: usize,
}

/// 8 GiB.
pub const EIGHT_GB: u64 = 8589934592;

/// Pool sizes for the available memory: a small pool (one engine of each
/// model) below 8 GiB or when the amount is unknown, else two v5 and four
/// v4 engines.
pub open spec fn pool_for_memory(available_bytes: Option<u64>) -> OcrPoolConfig {
    match available_bytes {
        Some(b) => if b < EIGHT_GB {
            OcrPoolConfig { v5_count: 1, v4_count: 1 }
        } else {
            OcrPoolConfig { v5_count: 2, v4_count: 4 }
        },
        None => OcrPoolConfig { v5_count: 1, v4_count: 1 },
    }
}

impl OcrPoolConfig {
    /// Pool sizes for the available memory (`None` when it is unknown).
    pub fn detect(available_bytes: Option<u64>) -> (c: Self)
        ensures
            c == pool_for_memory(available_bytes),
    {
        match available_bytes {
            Some(b) => if b < EIGHT_GB {
                OcrPoolConfig { v5_count: 1, v4_count: 1 }
            } else {
                OcrPoolConfig { v5_count: 2, v4_count: 4 }
            },
            None => OcrPoolConfig { v5_count: 1, v4_count: 1 },
        }
    }
}

// ---------------------------------------------------------------------------
// The user's settings
// ---------------------------------------------------------------------------

/// The user's settings (`data/good_config.json`).
#[derive(Clone, Debug)]
pub struct GoodUserConfig {
    pub traveler_name: String,
    pub wanderer_name: String,
    pub manekin_name: String,
    pub manekina_name: String,
    pub char_tab_delay: u64,
    pub char_next_delay: u64,
    pub char_open_delay: u64,
    pub char_close_delay: u64,
    pub inv_scroll_delay: u64,
    pub inv_tab_delay: u64,
    pub inv_open_delay: u64,
    pub weapon_panel_delay: u64,
    pub artifact_initial_wait: u64,
    pub artifact_panel_timeout: u64,
    pub artifact_extra_delay: u64,
    pub mgr_transition_delay: u64,
    pub mgr_action_delay: u64,
    pub mgr_cell_delay: u64,
    pub mgr_scroll_delay: u64,
    pub lang: String,
    pub scan_characters: bool,
    pub scan_weapons: bool,
    pub scan_artifacts: bool,
    pub verbose: bool,
    pub continue_on_failure: bool,
    pub dump_images: bool,
    pub hdr_mode: bool,
    pub dump_job_data: bool,
    pub save_on_cancel: bool,
    pub char_max_count: usize,
    pub weapon_max_count: usize,
    pub artifact_max_count: usize,
    pub server_port: u16,
    pub update_inventory: bool,
    /// Forced v5 pool size; 0 means decided by the available memory.
    pub ocr_pool_v5_override: usize,
    /// Forced v4 pool size; 0 means decided by the available memory.
    pub ocr_pool_v4_override: usize,
}

impl GoodUserConfig {
    /// The user's renamed characters, blank settings meaning not renamed.
    pub fn to_overrides(&self) -> (r: NameOverrides)
        ensures
            opt_view(r.traveler_name) == opt_name(self.traveler_name@),
            opt_view(r.wanderer_name) == opt_name(self.wanderer_name@),
            opt_view(r.manekin_name) == opt_name(self.manekin_name@),
            opt_view(r.manekina_name) == opt_name(self.manekina_name@),
    {
        NameOverrides {
            traveler_name: opt(self.traveler_name.as_str()),
            wanderer_name: opt(self.wanderer_name.as_str()),
            manekin_name: opt(self.manekin_name.as_str()),
            manekina_name: opt(self.manekina_name.as_str()),
        }
    }

    /// The OCR pool sizes: decided by the available memory, then each
    /// replaced by the user's forced size where that is not 0.
    pub fn resolve_ocr_pool_config(&self, available_bytes: Option<u64>) -> (c: OcrPoolConfig)
        ensures
            c.v5_count == if self.ocr_pool_v5_override > 0 {
                self.ocr_pool_v5_override
            } else {
                pool_for_memory(available_bytes).v5_count
            },
            c.v4_count == if self.ocr_pool_v4_override > 0 {
                self.ocr_pool_v4_override
            } else {
                pool_for_memory(available_bytes).v4_count
            },
    {
        let mut cfg = OcrPoolConfig::detect(available_bytes);
        if self.ocr_pool_v5_override > 0 {
            cfg.v5_count = self.ocr_pool_v5_override;
        }
        if self.ocr_pool_v4_override > 0 {
            cfg.v4_count = self.ocr_pool_v4_override;
        }
        cfg
    }
}

/// The settings of a fresh installation: no renamed characters, the
/// default delays, every category scanned, the server on port 8765, the
/// inventory updated after jobs, and OCR pools sized by memory.
pub open spec fn is_default_user_config(c: GoodUserConfig) -> bool {
    &&& c.traveler_name@.len() == 0 && c.wanderer_name@.len() == 0
    &&& c.manekin_name@.len() == 0 && c.manekina_name@.len() == 0
    &&& c.char_tab_delay == DEFAULT_DELAY_CHAR_TAB_SWITCH
    &&& c.char_next_delay == DEFAULT_DELAY_CHAR_NEXT
    &&& c.char_open_delay == DEFAULT_DELAY_OPEN_SCREEN
    &&& c.char_close_delay == DEFAULT_DELAY_CLOSE_SCREEN
    &&& c.inv_scroll_delay == DEFAULT_DELAY_SCROLL
    &&& c.inv_tab_delay == DEFAULT_DELAY_INV_TAB_SWITCH
    &&& c.inv_open_delay == DEFAULT_DELAY_OPEN_SCREEN
    &&& c.weapon_panel_delay == DEFAULT_WEAPON_PANEL_DELAY
    &&& c.artifact_initial_wait == DEFAULT_ARTIFACT_INITIAL_WAIT
    &&& c.artifact_panel_timeout == DEFAULT_ARTIFACT_PANEL_TIMEOUT
    &&& c.artifact_extra_delay == DEFAULT_ARTIFACT_EXTRA_DELAY
    &&& c.mgr_transition_delay == 1500 && c.mgr_action_delay == 800
    &&& c.mgr_cell_delay == 100 && c.mgr_scroll_delay == 400
    &&& c.lang@.len() == 0
    &&& c.scan_characters && c.scan_weapons && c.scan_artifacts
    &&& !c.verbose && !c.continue_on_failure && !c.dump_images && !c.hdr_mode
    &&& !c.dump_job_data && !c.save_on_cancel
    &&& c.char_max_count == 0 && c.weapon_max_count == 0 && c.artifact_max_count == 0
    &&& c.server_port == DEFAULT_SERVER_PORT
    &&& c.update_inventory
    &&& c.ocr_pool_v5_override == 0 && c.ocr_pool_v4_override == 0
}

impl Default for GoodUserConfig {
    fn default() -> (r: Self)
        ensures
            is_default_user_config(r),
    {
        GoodUserConfig {
            traveler_name: String::new(),
            wanderer_name: String::new(),
            manekin_name: String::new(),
            manekina_name: String::new(),
            char_tab_delay: DEFAULT_DELAY_CHAR_TAB_SWITCH,
            char_next_delay: DEFAULT_DELAY_CHAR_NEXT,
            char_open_delay: DEFAULT_DELAY_OPEN_SCREEN,
            char_close_delay: DEFAULT_DELAY_CLOSE_SCREEN,
            inv_scroll_delay: DEFAULT_DELAY_SCROLL,
            inv_tab_delay: DEFAULT_DELAY_INV_TAB_SWITCH,
            inv_open_delay: DEFAULT_DELAY_OPEN_SCREEN,
            weapon_panel_delay: DEFAULT_WEAPON_PANEL_DELAY,
            artifact_initial_wait: DEFAULT_ARTIFACT_INITIAL_WAIT,
            artifact_panel_timeout: DEFAULT_ARTIFACT_PANEL_TIMEOUT,
            artifact_extra_delay: DEFAULT_ARTIFACT_EXTRA_DELAY,
            mgr_transition_delay: 1500,
            mgr_action_delay: 800,
            mgr_cell_delay: 100,
            mgr_scroll_delay: 400,
            lang: String::new(),
            scan_characters: true,
            scan_weapons: true,
            scan_artifacts: true,
            verbose: false,
            continue_on_failure: false,
            dump_images: false,
            hdr_mode: false,
            dump_job_data: false,
            save_on_cancel: false,
            char_max_count: 0,
            weapon_max_count: 0,
            artifact_max_count: 0,
            server_port: DEFAULT_SERVER_PORT,
            update_inventory: true,
            ocr_pool_v5_override: 0,
            ocr_pool_v4_override: 0,
        }
    }
}

/// The timing settings stored as numbers; an old settings file may hold
/// something else in them, which is dropped so that the default applies.
/// The old names of the inventory settings are included.
pub open spec fn u64_fields() -> Seq<Seq<char>> {
    seq![
        "char_tab_delay"@,
        "char_next_delay"@,
        "char_open_delay"@,
        "char_close_delay"@,
        "inv_scroll_delay"@,
        "inv_tab_delay"@,
        "inv_open_delay"@,
        "weapon_panel_delay"@,
        "artifact_initial_wait"@,
        "artifact_panel_timeout"@,
        "artifact_extra_delay"@,
        "mgr_transition_delay"@,
        "mgr_action_delay"@,
        "mgr_cell_delay"@,
        "mgr_scroll_delay"@,
        "weapon_scroll_delay"@,
        "artifact_scroll_delay"@,
        "weapon_tab_delay"@,
        "artifact_tab_delay"@,
        "weapon_open_delay"@,
        "artifact_open_delay"@,
    ]
}

/// Is `name` one of the numeric timing settings?
pub fn is_u64_field(name: &str) -> (b: bool)
    ensures
        b == u64_fields().contains(name@),
{
    let names: [&str; 21] = [
        "char_tab_delay",
        "char_next_delay",
        "char_open_delay",
        "char_close_delay",
        "inv_scroll_delay",
        "inv_tab_delay",
        "inv_open_delay",
        "weapon_panel_delay",
        "artifact_initial_wait",
        "artifact_panel_timeout",
        "artifact_extra_delay",
        "mgr_transition_delay",
        "mgr_action_delay",
        "mgr_cell_delay",
        "mgr_scroll_delay",
        "weapon_scroll_delay",
        "artifact_scroll_delay",
        "weapon_tab_delay",
        "artifact_tab_delay",
        "weapon_open_delay",
        "artifact_open_delay",
    ];
    let ghost fields = u64_fields();
    assert(names@.map_values(|s: &str| s@) =~= fields);
    let mut i: usize = 0;
    while i < 21
        invariant
            i <= 21,
            fields == u64_fields(),
            names@.map_values(|s: &str| s@) == fields,
            forall|j: int| 0 <= j < i ==> fields[j] != name@,
        decreases 21 - i,
    {
        assert(names@.map_values(|s: &str| s@)[i as int] == names@[i as int]@);
        if crate::text::str_eq(names[i], name) {
            assert(fields[i as int] == name@);
            return true;
        }
        i += 1;
    }
    false
}

/// What a timing setting given as text reads as: the trimmed text parsed as
/// a `u64` (an optional `+` and digits), and 0 when it is not one.
pub open spec fn lenient_u64_spec(s: Seq<char>) -> nat {
    match crate::numparse::parse_u64_spec(trim_seq(s)) {
        Some(v) => v,
        None => 0,
    }
}

/// A timing setting given as text.
pub fn lenient_u64(s: &str) -> (r: u64)
    ensures
        r == lenient_u64_spec(s@),
{
    let t = trim_chars(&to_chars(s));
    match crate::numparse::parse_u64(&t) {
        Some(v) => v,
        None => 0,
    }
}

// ---------------------------------------------------------------------------
// Scan options
// ---------------------------------------------------------------------------

/// The options of a scan as the command line gives them.
#[derive(Clone, Debug)]
pub struct GoodScannerConfig {
    pub scan_characters: bool,
    pub scan_weapons: bool,
    pub scan_artifacts: bool,
    pub scan_all: bool,
    pub verbose: bool,
    pub continue_on_failure: bool,
    pub log_progress: bool,
    pub output_dir: String,
    pub ocr_backend: Option<String>,
    pub dump_images: bool,
    pub hdr_mode: bool,
    pub weapon_min_rarity: i32,
    pub artifact_min_rarity: i32,
    pub char_max_count: usize,
    pub weapon_max_count: usize,
    pub artifact_max_count: usize,
    pub artifact_substat_ocr: String,
}

/// The options of a scan, without the command line.
#[derive(Clone, Debug)]
pub struct ScanCoreConfig {
    pub scan_characters: bool,
    pub scan_weapons: bool,
    pub scan_artifacts: bool,
    pub weapon_min_rarity: i32,
    pub artifact_min_rarity: i32,
    pub verbose: bool,
    pub continue_on_failure: bool,
    pub log_progress: bool,
    pub dump_images: bool,
    pub hdr_mode: bool,
    pub output_dir: String,
    pub ocr_backend: Option<String>,
    pub artifact_substat_ocr: String,
    pub char_max_count: usize,
    pub weapon_max_count: usize,
    pub artifact_max_count: usize,
    /// Export what was scanned when the user cancels.
    pub save_on_cancel: bool,
}

impl Default for ScanCoreConfig {
    fn default() -> (r: Self)
        ensures
            r.scan_characters && r.scan_weapons && r.scan_artifacts,
            r.weapon_min_rarity == 3 && r.artifact_min_rarity == 4,
            !r.verbose && !r.continue_on_failure && !r.log_progress && !r.dump_images
                && !r.hdr_mode && !r.save_on_cancel,
            r.output_dir@ == "."@,
            r.ocr_backend is None,
            r.artifact_substat_ocr@ == "ppocrv4"@,
            r.char_max_count == 0 && r.weapon_max_count == 0 && r.artifact_max_count == 0,
    {
        ScanCoreConfig {
            scan_characters: true,
            scan_weapons: true,
            scan_artifacts: true,
            weapon_min_rarity: 3,
            artifact_min_rarity: 4,
            verbose: false,
            continue_on_failure: false,
            log_progress: false,
            dump_images: false,
            hdr_mode: false,
            output_dir: String::from_str("."),
            ocr_backend: None,
            artifact_substat_ocr: String::from_str("ppocrv4"),
            char_max_count: 0,
            weapon_max_count: 0,
            artifact_max_count: 0,
            save_on_cancel: false,
        }
    }
}

impl ScanCoreConfig {
    /// The same options in command-line form (`scan_all` off).
    pub fn to_scanner_config(&self) -> (r: GoodScannerConfig)
        ensures
            r.scan_characters == self.scan_characters,
            r.scan_weapons == self.scan_weapons,
            r.scan_artifacts == self.scan_artifacts,
            !r.scan_all,
            r.verbose == self.verbose,
            r.continue_on_failure == self.continue_on_failure,
            r.log_progress == self.log_progress,
            r.output_dir@ == self.output_dir@,
            opt_view(r.ocr_backend) == opt_view(self.ocr_backend),
            r.dump_images == self.dump_images,
            r.hdr_mode == self.hdr_mode,
            r.weapon_min_rarity == self.weapon_min_rarity,
            r.artifact_min_rarity == self.artifact_min_rarity,
            r.char_max_count == self.char_max_count,
            r.weapon_max_count == self.weapon_max_count,
            r.artifact_max_count == self.artifact_max_count,
            r.artifact_substat_ocr@ == self.artifact_substat_ocr@,
    {
        GoodScannerConfig {
            scan_characters: self.scan_characters,
            scan_weapons: self.scan_weapons,
            scan_artifacts: self.scan_artifacts,
            scan_all: false,
            verbose: self.verbose,
            continue_on_failure: self.continue_on_failure,
            log_progress: self.log_progress,
            output_dir: self.output_dir.clone(),
            ocr_backend: match &self.ocr_backend {
                Some(s) => Some(s.clone()),
                None => None,
            },
            dump_images: self.dump_images,
            hdr_mode: self.hdr_mode,
            weapon_min_rarity: self.weapon_min_rarity,
            artifact_min_rarity: self.artifact_min_rarity,
            char_max_count: self.char_max_count,
            weapon_max_count: self.weapon_max_count,
            artifact_max_count: self.artifact_max_count,
            artifact_substat_ocr: self.artifact_substat_ocr.clone(),
        }
    }
}

} // verus!
