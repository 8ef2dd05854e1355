//! The text side of the debug dumps: what each OCR reading became, the
//! warnings of an item, and the lines written to `result.txt`.
use vstd::prelude::*;
use crate::text::{
    chars_eq, decimal, push_char, push_decimal, push_signed, push_str, signed_decimal, to_chars,
    trim_chars, trim_seq,
};

verus! {

/// Where the label of a reading goes in the annotated image.
#[derive(Clone, Copy, Debug, PartialEq, Eq, Structural)]
pub enum LabelPosition {
    /// Right of the region if there is room, else left.
    Auto,
    /// Below the region.
    Below,
}

/// One OCR reading of a scanned item.
#[derive(Clone, Debug)]
pub struct OcrRecord {
    pub field_name: String,
    pub raw_text: String,
    /// What the reading became (a GOOD key or value), empty until set.
    pub final_result: String,
    /// A readable name for the result (a Chinese name), empty until set.
    pub display_result: String,
    pub label_pos: LabelPosition,
}

/// One node of a constellation reading, its brightness and threshold
/// rounded to whole numbers.
#[derive(Clone, Copy, Debug)]
pub struct NodeReading {
    pub activated: bool,
    pub brightness: i64,
    pub threshold: i64,
}

/// A constellation reading: the level and the six nodes.
#[derive(Clone, Debug)]
pub struct ConstellationReading {
    pub level: i32,
    pub nodes: Vec<NodeReading>,
}

/// One recorded detection.
#[derive(Clone, Debug)]
pub enum DumpEntry {
    OcrRegion(OcrRecord),
    /// A pixel check: the colour seen and what it was read as.
    PixelCheck { field_name: String, rgb: [u8; 3], result_text: String, color: Option<[u8; 3]> },
    Constellation(ConstellationReading),
    /// A grid overlay: the number of cells and, per cell, whether a lock
    /// and an astral mark were seen.
    GridOverlay { cells: usize, detections: Vec<(usize, bool, bool)> },
}

/// The images, detections and warnings of one scanned item.
pub struct DumpRecords {
    /// The directory the item's files go to.
    pub dir: String,
    /// The labels of the captured images, in order.
    pub images: Vec<String>,
    /// The image that new detections belong to.
    pub current_image: usize,
    /// Each detection with the image it was made on.
    pub entries: Vec<(usize, DumpEntry)>,
    pub warnings: Vec<String>,
}

/// The position of the last of the first `n` entries that is an OCR reading
/// of the field `f`.
pub open spec fn last_reading(s: Seq<(usize, DumpEntry)>, f: Seq<char>, n: int) -> Option<int>
    decreases n,
{
    if n <= 0 {
        None
    } else if s[n - 1].1 matches DumpEntry::OcrRegion(r) && r.field_name@ == f {
        Some(n - 1)
    } else {
        last_reading(s, f, n - 1)
    }
}

proof fn lemma_last_reading_bounds(s: Seq<(usize, DumpEntry)>, f: Seq<char>, n: int)
    requires
        n <= s.len(),
    ensures
        last_reading(s, f, n) matches Some(i) ==> 0 <= i < n && (s[i].1 matches DumpEntry::OcrRegion(
            r,
        ) && r.field_name@ == f),
    decreases n,
{
    if n > 0 {
        lemma_last_reading_bounds(s, f, n - 1);
    }
}

/// `after` is `before` with entry `i`, an OCR reading, replaced by `r2`,
/// which keeps its image.
pub open spec fn reading_replaced(
    before: Seq<(usize, DumpEntry)>,
    after: Seq<(usize, DumpEntry)>,
    i: int,
    r2: OcrRecord,
) -> bool {
    after == before.update(i, (before[i].0, DumpEntry::OcrRegion(r2)))
}

/// `after` is `before` with what the last reading of `f` became set to
/// `result`; unchanged when `f` was never read.
pub open spec fn result_set(
    before: Seq<(usize, DumpEntry)>,
    after: Seq<(usize, DumpEntry)>,
    f: Seq<char>,
    result: Seq<char>,
) -> bool {
    match last_reading(before, f, before.len() as int) {
        Some(i) => before[i].1 matches DumpEntry::OcrRegion(r) && after[i].1 matches DumpEntry::OcrRegion(
            r2,
        ) && reading_replaced(before, after, i, r2) && r2 == (OcrRecord {
            final_result: r2.final_result,
            ..r
        }) && r2.final_result@ == result,
        None => after == before,
    }
}

/// `after` is `before` with the readable name of the last reading of `f`
/// set to `display`; unchanged when `f` was never read.
pub open spec fn display_set(
    before: Seq<(usize, DumpEntry)>,
    after: Seq<(usize, DumpEntry)>,
    f: Seq<char>,
    display: Seq<char>,
) -> bool {
    match last_reading(before, f, before.len() as int) {
        Some(i) => before[i].1 matches DumpEntry::OcrRegion(r) && after[i].1 matches DumpEntry::OcrRegion(
            r2,
        ) && reading_replaced(before, after, i, r2) && r2 == (OcrRecord {
            display_result: r2.display_result,
            ..r
        }) && r2.display_result@ == display,
        None => after == before,
    }
}

/// `after` is `before` with the label of the last reading of `f` put below
/// its region; unchanged when `f` was never read.
pub open spec fn label_set_below(
    before: Seq<(usize, DumpEntry)>,
    after: Seq<(usize, DumpEntry)>,
    f: Seq<char>,
) -> bool {
    match last_reading(before, f, before.len() as int) {
        Some(i) => before[i].1 matches DumpEntry::OcrRegion(r) && reading_replaced(
            before,
            after,
            i,
            OcrRecord { label_pos: LabelPosition::Below, ..r },
        ),
        None => after == before,
    }
}

/// Which of the three fields of a reading an update sets.
enum ReadingField {
    Final,
    Display,
    Label,
}

/// The directory of the dump files of item `index` of `category`:
/// `debug_images/<category>/<index>`, the index written with at least four
/// digits.
pub open spec fn item_dir(category: Seq<char>, index: nat) -> Seq<char> {
    "debug_images/"@ + category + "/"@ + crate::clock::padded(index, 4)
}

/// The path of the file `name` in the directory `dir`.
pub open spec fn file_path(dir: Seq<char>, name: Seq<char>) -> Seq<char> {
    dir + "/"@ + name
}

impl DumpRecords {
    /// No images, detections or warnings, for item `index` of `category`.
    pub fn new(category: &str, index: usize) -> (d: Self)
        ensures
            d.dir@ == item_dir(category@, index as nat),
            d.images@.len() == 0,
            d.current_image == 0,
            d.entries@.len() == 0,
            d.warnings@.len() == 0,
    {
        let mut dir = String::new();
        push_str(&mut dir, "debug_images/");
        push_str(&mut dir, category);
        push_str(&mut dir, "/");
        crate::clock::push_padded(&mut dir, index as u64, 4);
        assert(dir@ =~= item_dir(category@, index as nat));
        DumpRecords {
            dir,
            images: Vec::new(),
            current_image: 0,
            entries: Vec::new(),
            warnings: Vec::new(),
        }
    }

    /// Register a captured image; later detections belong to it. Returns its
    /// index.
    pub fn add_image(&mut self, label: &str) -> (idx: usize)
        ensures
            idx == old(self).images@.len(),
            final(self).current_image == idx,
            final(self).images@.len() == old(self).images@.len() + 1,
            final(self).images@.take(idx as int) == old(self).images@,
            final(self).images@[idx as int]@ == label@,
            final(self).dir == old(self).dir,
            final(self).entries == old(self).entries,
            final(self).warnings == old(self).warnings,
    {
        let idx = self.images.len();
        let ghost before = self.images@;
        self.images.push(String::from_str(label));
        assert(self.images@.take(idx as int) =~= before);
        self.current_image = idx;
        idx
    }

    /// Append a detection made on the current image.
    pub fn push_entry(&mut self, e: DumpEntry)
        ensures
            final(self).entries@ == old(self).entries@.push((old(self).current_image, e)),
            final(self).entries@.take(old(self).entries@.len() as int) == old(self).entries@,
            final(self).dir == old(self).dir,
            final(self).images == old(self).images,
            final(self).current_image == old(self).current_image,
            final(self).warnings == old(self).warnings,
    {
        let img = self.current_image;
        let ghost before = self.entries@;
        self.entries.push((img, e));
        assert(self.entries@.take(before.len() as int) =~= before);
    }

    /// Record a reading of `field_name` on the current image.
    pub fn record_ocr(&mut self, field_name: &str, raw_text: &str)
        ensures
            final(self).entries@.len() == old(self).entries@.len() + 1,
            final(self).entries@.take(old(self).entries@.len() as int) == old(self).entries@,
            final(self).entries@.last().0 == old(self).current_image,
            final(self).entries@.last().1 matches DumpEntry::OcrRegion(r) && r.field_name@
                == field_name@ && r.raw_text@ == raw_text@ && r.final_result@.len() == 0
                && r.display_result@.len() == 0 && r.label_pos == LabelPosition::Auto,
            final(self).dir == old(self).dir,
            final(self).images == old(self).images,
            final(self).current_image == old(self).current_image,
            final(self).warnings == old(self).warnings,
    {
        let ghost before = self.entries@;
        self.push_entry(
            DumpEntry::OcrRegion(
                OcrRecord {
                    field_name: String::from_str(field_name),
                    raw_text: String::from_str(raw_text),
                    final_result: String::new(),
                    display_result: String::new(),
                    label_pos: LabelPosition::Auto,
                },
            ),
        );
        assert(self.entries@.take(before.len() as int) =~= before);
    }

    /// Record a pixel check on the current image, to be marked in `color`
    /// (the default colour when none).
    pub fn record_pixel(
        &mut self,
        field_name: &str,
        rgb: [u8; 3],
        result_text: &str,
        color: Option<[u8; 3]>,
    )
        ensures
            final(self).entries@.len() == old(self).entries@.len() + 1,
            final(self).entries@.take(old(self).entries@.len() as int) == old(self).entries@,
            final(self).entries@.last().0 == old(self).current_image,
            final(self).entries@.last().1 matches DumpEntry::PixelCheck {
                field_name: f,
                rgb: c,
                result_text: t,
                color: k,
            } && f@ == field_name@ && c == rgb && t@ == result_text@ && k == color,
            final(self).dir == old(self).dir,
            final(self).images == old(self).images,
            final(self).current_image == old(self).current_image,
            final(self).warnings == old(self).warnings,
    {
        let ghost before = self.entries@;
        self.push_entry(
            DumpEntry::PixelCheck {
                field_name: String::from_str(field_name),
                rgb,
                result_text: String::from_str(result_text),
                color,
            },
        );
        assert(self.entries@.take(before.len() as int) =~= before);
    }

    /// The position of the last reading of `field_name`.
    fn find_last(&self, field_name: &str) -> (r: Option<usize>)
        ensures
            match r {
                Some(i) => last_reading(self.entries@, field_name@, self.entries@.len() as int)
                    == Some(i as int),
                None => last_reading(self.entries@, field_name@, self.entries@.len() as int) is None,
            },
    {
        let f = to_chars(field_name);
        let mut n: usize = self.entries.len();
        while n > 0
            invariant
                n <= self.entries@.len(),
                f@ == field_name@,
                last_reading(self.entries@, field_name@, self.entries@.len() as int)
                    == last_reading(self.entries@, field_name@, n as int),
            decreases n,
        {
            match &self.entries[n - 1].1 {
                DumpEntry::OcrRegion(r) => {
                    if chars_eq(&to_chars(r.field_name.as_str()), &f) {
                        return Some(n - 1);
                    }
                },
                _ => {},
            }
            n -= 1;
        }
        None
    }

    fn update_last(&mut self, field_name: &str, which: ReadingField, value: &str)
        ensures
            final(self).dir == old(self).dir,
            final(self).images == old(self).images,
            final(self).current_image == old(self).current_image,
            final(self).warnings == old(self).warnings,
            which is Final ==> result_set(
                old(self).entries@,
                final(self).entries@,
                field_name@,
                value@,
            ),
            which is Display ==> display_set(
                old(self).entries@,
                final(self).entries@,
                field_name@,
                value@,
            ),
            which is Label ==> label_set_below(
                old(self).entries@,
                final(self).entries@,
                field_name@,
            ),
    {
        proof {
            lemma_last_reading_bounds(self.entries@, field_name@, self.entries@.len() as int);
        }
        match self.find_last(field_name) {
            Some(i) => {
                let img = self.entries[i].0;
                match &self.entries[i].1 {
                    DumpEntry::OcrRegion(r) => {
                        let mut r2 = r.duplicate();
                        match which {
                            ReadingField::Final => {
                                r2.final_result = String::from_str(value);
                            },
                            ReadingField::Display => {
                                r2.display_result = String::from_str(value);
                            },
                            ReadingField::Label => {
                                r2.label_pos = LabelPosition::Below;
                            },
                        }
                        self.entries.set(i, (img, DumpEntry::OcrRegion(r2)));
                    },
                    _ => {},
                }
            },
            None => {},
        }
    }

    /// Set what the last reading of `field_name` became; nothing changes
    /// when there is none.
    pub fn set_final_result(&mut self, field_name: &str, result: &str)
        ensures
            final(self).dir == old(self).dir,
            final(self).images == old(self).images,
            final(self).current_image == old(self).current_image,
            final(self).warnings == old(self).warnings,
            result_set(old(self).entries@, final(self).entries@, field_name@, result@),
    {
        self.update_last(field_name, ReadingField::Final, result);
    }

    /// Set the readable name of the last reading of `field_name`; nothing
    /// changes when there is none.
    pub fn set_display_result(&mut self, field_name: &str, display: &str)
        ensures
            final(self).dir == old(self).dir,
            final(self).images == old(self).images,
            final(self).current_image == old(self).current_image,
            final(self).warnings == old(self).warnings,
            display_set(old(self).entries@, final(self).entries@, field_name@, display@),
    {
        self.update_last(field_name, ReadingField::Display, display);
    }

    /// Put the label of the last reading of `field_name` below its region;
    /// nothing changes when there is none.
    pub fn set_label_below(&mut self, field_name: &str)
        ensures
            final(self).dir == old(self).dir,
            final(self).images == old(self).images,
            final(self).current_image == old(self).current_image,
            final(self).warnings == old(self).warnings,
            label_set_below(old(self).entries@, final(self).entries@, field_name@),
    {
        self.update_last(field_name, ReadingField::Label, "");
    }

    /// Note a warning about the item.
    pub fn add_warning(&mut self, text: &str)
        ensures
            final(self).dir == old(self).dir,
            final(self).images == old(self).images,
            final(self).current_image == old(self).current_image,
            final(self).entries == old(self).entries,
            final(self).warnings@.len() == old(self).warnings@.len() + 1,
            final(self).warnings@.take(old(self).warnings@.len() as int) == old(self).warnings@,
            final(self).warnings@.last()@ == text@,
    {
        let ghost before = self.warnings@;
        self.warnings.push(String::from_str(text));
        assert(self.warnings@.take(before.len() as int) =~= before);
    }
}

impl OcrRecord {
    /// A copy equal to `self`.
    pub fn duplicate(&self) -> (r: Self)
        ensures
            r == *self,
    {
        OcrRecord {
            field_name: self.field_name.clone(),
            raw_text: self.raw_text.clone(),
            final_result: self.final_result.clone(),
            display_result: self.display_result.clone(),
            label_pos: self.label_pos,
        }
    }
}

// ---------------------------------------------------------------------------
// result.txt
// ---------------------------------------------------------------------------

/// `s` padded with spaces on the right to at least `width` characters.
pub open spec fn pad_right(s: Seq<char>, width: nat) -> Seq<char>
    decreases width,
{
    if s.len() >= width {
        s
    } else {
        pad_right(s, (width - 1) as nat).push(' ')
    }
}

fn push_padded_right(out: &mut String, s: &str, width: usize)
    ensures
        final(out)@ == old(out)@ + pad_right(s@, width as nat),
    decreases width,
{
    let n = s.unicode_len();
    if n >= width {
        push_str(out, s);
    } else {
        push_padded_right(out, s, width - 1);
        let ghost mid = out@;
        push_char(out, ' ');
        assert(out@ =~= old(out)@ + pad_right(s@, width as nat));
    }
}

/// The line of `result.txt` for a reading: the field name and a colon,
/// padded to 16 characters, then what was read and what it became (all
/// trimmed). A computed field (nothing read) shows its result; a reading
/// that stayed as it was shows once (`(empty)` when nothing was read); a
/// reading with a readable name other than both shows `raw -> name ->
/// result`; any other shows `raw -> result`.
pub open spec fn ocr_line(r: OcrRecord) -> Seq<char> {
    let label = pad_right(r.field_name@ + ":"@, 16);
    let raw = trim_seq(r.raw_text@);
    let fin = trim_seq(r.final_result@);
    let disp = trim_seq(r.display_result@);
    if raw.len() == 0 && fin.len() > 0 {
        label + " "@ + fin + "\n"@
    } else if fin.len() == 0 || raw == fin {
        label + " "@ + (if raw.len() == 0 {
            "(empty)"@
        } else {
            raw
        }) + "\n"@
    } else if disp.len() > 0 && disp != raw && disp != fin {
        label + " "@ + raw + " -> "@ + disp + " -> "@ + fin + "\n"@
    } else {
        label + " "@ + raw + " -> "@ + fin + "\n"@
    }
}

/// The `result.txt` line of a reading.
pub fn ocr_result_line(r: &OcrRecord) -> (s: String)
    ensures
        s@ == ocr_line(*r),
{
    let mut label = String::new();
    push_str(&mut label, r.field_name.as_str());
    push_str(&mut label, ":");
    let raw = crate::text::from_chars(&trim_chars(&to_chars(r.raw_text.as_str())));
    let fin = crate::text::from_chars(&trim_chars(&to_chars(r.final_result.as_str())));
    let disp = crate::text::from_chars(&trim_chars(&to_chars(r.display_result.as_str())));
    let mut out = String::new();
    push_padded_right(&mut out, label.as_str(), 16);
    push_str(&mut out, " ");
    let raw_empty = raw.as_str().unicode_len() == 0;
    let fin_empty = fin.as_str().unicode_len() == 0;
    let disp_empty = disp.as_str().unicode_len() == 0;
    if raw_empty && !fin_empty {
        push_str(&mut out, fin.as_str());
    } else if fin_empty || raw == fin {
        if raw_empty {
            push_str(&mut out, "(empty)");
        } else {
            push_str(&mut out, raw.as_str());
        }
    } else if !disp_empty && !(disp == raw) && !(disp == fin) {
        push_str(&mut out, raw.as_str());
        push_str(&mut out, " -> ");
        push_str(&mut out, disp.as_str());
        push_str(&mut out, " -> ");
        push_str(&mut out, fin.as_str());
    } else {
        push_str(&mut out, raw.as_str());
        push_str(&mut out, " -> ");
        push_str(&mut out, fin.as_str());
    }
    push_str(&mut out, "\n");
    proof {
        assert(label@ =~= r.field_name@ + ":"@);
        if raw@.len() == 0 {
            assert(raw@ =~= Seq::<char>::empty());
        }
    }
    assert(out@ =~= ocr_line(*r));
    out
}

/// The warnings section of `result.txt`.
pub open spec fn warnings_section(ws: Seq<String>) -> Seq<char>
    decreases ws.len(),
{
    if ws.len() == 0 {
        Seq::empty()
    } else {
        warnings_section(ws.drop_last()) + "- "@ + ws.last()@ + "\n"@
    }
}

/// `--- Warnings ---` and one `- <warning>` line each, or `(none)`.
pub open spec fn warnings_block(ws: Seq<String>) -> Seq<char> {
    "--- Warnings ---\n"@ + if ws.len() == 0 {
        "(none)\n"@
    } else {
        warnings_section(ws)
    }
}

/// The upper-case form of `c`, as `char::to_uppercase` yields it (one or
/// more characters).
pub uninterp spec fn unicode_uppercase(c: char) -> Seq<char>;

/// Collects what `char::to_uppercase` yields for `c`. The contract claims
/// only that the result depends on `c` alone.
#[verifier::external_body]
fn char_uppercase(c: char) -> (s: String)
    ensures
        s@ == unicode_uppercase(c),
{
    c.to_uppercase().collect()
}

/// `s` with its first character in upper case.
pub open spec fn capitalized(s: Seq<char>) -> Seq<char> {
    if s.len() == 0 {
        Seq::empty()
    } else {
        unicode_uppercase(s[0]) + s.skip(1)
    }
}

/// The line of a pixel check: `field: rgb(r,g,b) -> result`.
pub open spec fn pixel_line(field: Seq<char>, rgb: [u8; 3], result: Seq<char>) -> Seq<char> {
    pad_right(field + ":"@, 16) + " rgb("@ + decimal(rgb[0] as nat) + ","@ + decimal(
        rgb[1] as nat,
    ) + ","@ + decimal(rgb[2] as nat) + ") -> "@ + result + "\n"@
}

/// `yes` or `no`.
pub open spec fn yes_no(b: bool) -> Seq<char> {
    if b {
        "yes"@
    } else {
        "no"@
    }
}

/// The line of the `i`-th (from 0) node of a constellation reading.
pub open spec fn node_line(i: int, n: NodeReading) -> Seq<char> {
    "  C"@ + decimal((i + 1) as nat) + ": "@ + pad_right(yes_no(n.activated), 3) + " brightness="@
        + signed_decimal(n.brightness as int) + " threshold="@ + signed_decimal(
        n.threshold as int,
    ) + "\n"@
}

/// The lines of the nodes.
pub open spec fn nodes_text(ns: Seq<NodeReading>) -> Seq<char>
    decreases ns.len(),
{
    if ns.len() == 0 {
        Seq::empty()
    } else {
        nodes_text(ns.drop_last()) + node_line(ns.len() - 1, ns.last())
    }
}

/// The lines of a constellation reading.
pub open spec fn constellation_text(c: ConstellationReading) -> Seq<char> {
    pad_right("constellation:"@, 16) + " C"@ + signed_decimal(c.level as int) + "\n"@ + nodes_text(
        c.nodes@,
    )
}

/// The cells of `d` where a lock (`astral == false`) or an astral mark
/// (`astral == true`) was seen, in order.
pub open spec fn marked_cells(d: Seq<(usize, bool, bool)>, astral: bool) -> Seq<usize>
    decreases d.len(),
{
    if d.len() == 0 {
        Seq::empty()
    } else if (if astral {
        d.last().2
    } else {
        d.last().1
    }) {
        marked_cells(d.drop_last(), astral).push(d.last().0)
    } else {
        marked_cells(d.drop_last(), astral)
    }
}

/// The numbers of `v`, separated by `, `.
pub open spec fn joined_numbers(v: Seq<usize>) -> Seq<char>
    decreases v.len(),
{
    if v.len() == 0 {
        Seq::empty()
    } else if v.len() == 1 {
        decimal(v[0] as nat)
    } else {
        joined_numbers(v.drop_last()) + ", "@ + decimal(v.last() as nat)
    }
}

/// A list of numbers as `{:?}` prints it: `[1, 2, 3]`.
pub open spec fn number_list(v: Seq<usize>) -> Seq<char> {
    "["@ + joined_numbers(v) + "]"@
}

/// The line listing marked cells, none when there are none.
pub open spec fn cells_line(label: Seq<char>, cells: Seq<usize>) -> Seq<char> {
    if cells.len() == 0 {
        Seq::empty()
    } else {
        pad_right(label, 16) + " cells "@ + number_list(cells) + "\n"@
    }
}

/// The lines of a grid overlay.
pub open spec fn grid_text(cells: usize, d: Seq<(usize, bool, bool)>) -> Seq<char> {
    pad_right("grid:"@, 16) + " "@ + decimal(cells as nat) + " cells\n"@ + cells_line(
        "  locked:"@,
        marked_cells(d, false),
    ) + cells_line("  astral:"@, marked_cells(d, true))
}

/// The lines of one detection.
pub open spec fn entry_text(e: DumpEntry) -> Seq<char> {
    match e {
        DumpEntry::OcrRegion(r) => ocr_line(r),
        DumpEntry::PixelCheck { field_name, rgb, result_text, .. } => pixel_line(
            field_name@,
            rgb,
            result_text@,
        ),
        DumpEntry::Constellation(c) => constellation_text(c),
        DumpEntry::GridOverlay { cells, detections } => grid_text(cells, detections@),
    }
}

/// The lines of the detections made on image `k`, in order.
pub open spec fn image_entries(es: Seq<(usize, DumpEntry)>, k: int) -> Seq<char>
    decreases es.len(),
{
    if es.len() == 0 {
        Seq::empty()
    } else {
        image_entries(es.drop_last(), k) + if es.last().0 == k {
            entry_text(es.last().1)
        } else {
            Seq::empty()
        }
    }
}

/// The heading of the section of image `k`.
pub open spec fn section_header(images: Seq<String>, k: int) -> Seq<char> {
    if images.len() > 1 {
        "--- "@ + capitalized(images[k]@) + " Screen ---\n"@
    } else {
        "--- Detections ---\n"@
    }
}

/// The sections of the first `n` images.
pub open spec fn sections(images: Seq<String>, es: Seq<(usize, DumpEntry)>, n: int) -> Seq<char>
    decreases n,
{
    if n <= 0 {
        Seq::empty()
    } else {
        sections(images, es, n - 1) + section_header(images, n - 1) + image_entries(es, n - 1)
            + "\n"@
    }
}

/// The text of `result.txt` (or `error.txt` for a failure): the failure,
/// one section per image, the warnings, and the final object.
pub open spec fn result_text(
    d: DumpRecords,
    json: Option<Seq<char>>,
    error: Option<Seq<char>>,
) -> Seq<char> {
    (match error {
        Some(e) => "FAILED: "@ + e + "\n\n"@,
        None => Seq::empty(),
    }) + sections(d.images@, d.entries@, d.images@.len() as int) + warnings_block(d.warnings@)
        + match json {
        Some(j) => "\n--- Final Object ---\n"@ + j + "\n"@,
        None => Seq::empty(),
    }
}

fn push_pixel_line(out: &mut String, field: &str, rgb: [u8; 3], result: &str)
    ensures
        final(out)@ == old(out)@ + pixel_line(field@, rgb, result@),
{
    let mut label = String::new();
    push_str(&mut label, field);
    push_str(&mut label, ":");
    push_padded_right(out, label.as_str(), 16);
    push_str(out, " rgb(");
    push_decimal(out, rgb[0] as u64);
    push_str(out, ",");
    push_decimal(out, rgb[1] as u64);
    push_str(out, ",");
    push_decimal(out, rgb[2] as u64);
    push_str(out, ") -> ");
    push_str(out, result);
    push_str(out, "\n");
    assert(label@ =~= field@ + ":"@);
    assert(final(out)@ =~= old(out)@ + pixel_line(field@, rgb, result@));
}

fn push_node_line(out: &mut String, i: usize, n: NodeReading)
    requires
        i < usize::MAX,
    ensures
        final(out)@ == old(out)@ + node_line(i as int, n),
{
    push_str(out, "  C");
    push_decimal(out, i as u64 + 1);
    push_str(out, ": ");
    if n.activated {
        push_padded_right(out, "yes", 3);
    } else {
        push_padded_right(out, "no", 3);
    }
    push_str(out, " brightness=");
    push_signed(out, n.brightness);
    push_str(out, " threshold=");
    push_signed(out, n.threshold);
    push_str(out, "\n");
    assert(final(out)@ =~= old(out)@ + node_line(i as int, n));
}

fn push_constellation(out: &mut String, c: &ConstellationReading)
    ensures
        final(out)@ == old(out)@ + constellation_text(*c),
{
    push_padded_right(out, "constellation:", 16);
    push_str(out, " C");
    push_signed(out, c.level as i64);
    push_str(out, "\n");
    let ghost head = out@;
    let mut i: usize = 0;
    assert(c.nodes@.take(0) =~= Seq::<NodeReading>::empty());
    while i < c.nodes.len()
        invariant
            i <= c.nodes@.len(),
            out@ == head + nodes_text(c.nodes@.take(i as int)),
        decreases c.nodes.len() - i,
    {
        assert(c.nodes@.take(i + 1).drop_last() =~= c.nodes@.take(i as int));
        push_node_line(out, i, c.nodes[i]);
        i += 1;
        assert(out@ =~= head + nodes_text(c.nodes@.take(i as int)));
    }
    assert(c.nodes@.take(c.nodes.len() as int) =~= c.nodes@);
    assert(final(out)@ =~= old(out)@ + constellation_text(*c));
}

fn marked(d: &Vec<(usize, bool, bool)>, astral: bool) -> (r: Vec<usize>)
    ensures
        r@ == marked_cells(d@, astral),
{
    let mut r: Vec<usize> = Vec::new();
    let mut i: usize = 0;
    assert(d@.take(0) =~= Seq::<(usize, bool, bool)>::empty());
    while i < d.len()
        invariant
            i <= d@.len(),
            r@ == marked_cells(d@.take(i as int), astral),
        decreases d.len() - i,
    {
        assert(d@.take(i + 1).drop_last() =~= d@.take(i as int));
        let (cell, lock, ast) = d[i];
        if (astral && ast) || (!astral && lock) {
            r.push(cell);
        }
        i += 1;
    }
    assert(d@.take(d.len() as int) =~= d@);
    r
}

fn push_cells_line(out: &mut String, label: &str, cells: &Vec<usize>)
    ensures
        final(out)@ == old(out)@ + cells_line(label@, cells@),
{
    if cells.len() == 0 {
        assert(final(out)@ =~= old(out)@ + cells_line(label@, cells@));
        return;
    }
    push_padded_right(out, label, 16);
    push_str(out, " cells ");
    push_str(out, "[");
    let ghost head = out@;
    let mut i: usize = 0;
    assert(cells@.take(0) =~= Seq::<usize>::empty());
    while i < cells.len()
        invariant
            i <= cells@.len(),
            out@ == head + joined_numbers(cells@.take(i as int)),
        decreases cells.len() - i,
    {
        assert(cells@.take(i + 1).drop_last() =~= cells@.take(i as int));
        if i > 0 {
            push_str(out, ", ");
        }
        push_decimal(out, cells[i] as u64);
        i += 1;
        assert(out@ =~= head + joined_numbers(cells@.take(i as int)));
    }
    assert(cells@.take(cells.len() as int) =~= cells@);
    push_str(out, "]");
    push_str(out, "\n");
    assert(final(out)@ =~= old(out)@ + cells_line(label@, cells@));
}

fn push_grid(out: &mut String, cells: usize, d: &Vec<(usize, bool, bool)>)
    ensures
        final(out)@ == old(out)@ + grid_text(cells, d@),
{
    push_padded_right(out, "grid:", 16);
    push_str(out, " ");
    push_decimal(out, cells as u64);
    push_str(out, " cells\n");
    let locks = marked(d, false);
    let astrals = marked(d, true);
    push_cells_line(out, "  locked:", &locks);
    push_cells_line(out, "  astral:", &astrals);
    assert(final(out)@ =~= old(out)@ + grid_text(cells, d@));
}

fn push_entry_text(out: &mut String, e: &DumpEntry)
    ensures
        final(out)@ == old(out)@ + entry_text(*e),
{
    match e {
        DumpEntry::OcrRegion(r) => {
            let line = ocr_result_line(r);
            push_str(out, line.as_str());
        },
        DumpEntry::PixelCheck { field_name, rgb, result_text, .. } => {
            push_pixel_line(out, field_name.as_str(), *rgb, result_text.as_str());
        },
        DumpEntry::Constellation(c) => {
            push_constellation(out, c);
        },
        DumpEntry::GridOverlay { cells, detections } => {
            push_grid(out, *cells, detections);
        },
    }
}

fn push_capitalized(out: &mut String, s: &str)
    ensures
        final(out)@ == old(out)@ + capitalized(s@),
{
    let cs = to_chars(s);
    if cs.len() == 0 {
        assert(final(out)@ =~= old(out)@ + capitalized(s@));
        return;
    }
    let up = char_uppercase(cs[0]);
    push_str(out, up.as_str());
    let rest = crate::text::from_chars(&crate::text::slice_chars(&cs, 1, cs.len()));
    push_str(out, rest.as_str());
    assert(final(out)@ =~= old(out)@ + capitalized(s@));
}

impl DumpRecords {
    fn push_image_entries(&self, out: &mut String, k: usize)
        ensures
            final(out)@ == old(out)@ + image_entries(self.entries@, k as int),
    {
        let ghost head = out@;
        let mut j: usize = 0;
        assert(self.entries@.take(0) =~= Seq::<(usize, DumpEntry)>::empty());
        while j < self.entries.len()
            invariant
                j <= self.entries@.len(),
                out@ == head + image_entries(self.entries@.take(j as int), k as int),
            decreases self.entries.len() - j,
        {
            assert(self.entries@.take(j + 1).drop_last() =~= self.entries@.take(j as int));
            if self.entries[j].0 == k {
                push_entry_text(out, &self.entries[j].1);
            }
            j += 1;
            assert(out@ =~= head + image_entries(self.entries@.take(j as int), k as int));
        }
        assert(self.entries@.take(self.entries.len() as int) =~= self.entries@);
    }

    /// `--- Warnings ---` and one `- <warning>` line each, or `(none)`.
    pub fn warnings_text(&self) -> (s: String)
        ensures
            s@ == warnings_block(self.warnings@),
    {
        let mut out = String::new();
        push_str(&mut out, "--- Warnings ---\n");
        if self.warnings.len() == 0 {
            push_str(&mut out, "(none)\n");
            return out;
        }
        let ghost head = out@;
        let mut i: usize = 0;
        assert(self.warnings@.take(0) =~= Seq::<String>::empty());
        while i < self.warnings.len()
            invariant
                i <= self.warnings@.len(),
                head == "--- Warnings ---\n"@,
                out@ == head + warnings_section(self.warnings@.take(i as int)),
            decreases self.warnings.len() - i,
        {
            assert(self.warnings@.take(i + 1).drop_last() =~= self.warnings@.take(i as int));
            push_str(&mut out, "- ");
            push_str(&mut out, self.warnings[i].as_str());
            push_str(&mut out, "\n");
            i += 1;
            assert(out@ =~= head + warnings_section(self.warnings@.take(i as int)));
        }
        assert(self.warnings@.take(self.warnings@.len() as int) =~= self.warnings@);
        out
    }

    /// The text of the result file: `result_json` is the scanned object,
    /// `error` the failure, if any.
    pub fn result_text(&self, result_json: Option<&str>, error: Option<&str>) -> (s: String)
        ensures
            s@ == result_text(
                *self,
                match result_json {
                    Some(j) => Some(j@),
                    None => None,
                },
                match error {
                    Some(e) => Some(e@),
                    None => None,
                },
            ),
    {
        let mut out = String::new();
        match error {
            Some(e) => {
                push_str(&mut out, "FAILED: ");
                push_str(&mut out, e);
                push_str(&mut out, "\n\n");
            },
            None => {},
        }
        let ghost head = out@;
        let multi = self.images.len() > 1;
        let mut k: usize = 0;
        while k < self.images.len()
            invariant
                k <= self.images@.len(),
                multi == (self.images@.len() > 1),
                out@ == head + sections(self.images@, self.entries@, k as int),
            decreases self.images.len() - k,
        {
            if multi {
                push_str(&mut out, "--- ");
                push_capitalized(&mut out, self.images[k].as_str());
                push_str(&mut out, " Screen ---\n");
            } else {
                push_str(&mut out, "--- Detections ---\n");
            }
            self.push_image_entries(&mut out, k);
            push_str(&mut out, "\n");
            k += 1;
            assert(out@ =~= head + sections(self.images@, self.entries@, k as int));
        }
        let w = self.warnings_text();
        push_str(&mut out, w.as_str());
        match result_json {
            Some(j) => {
                push_str(&mut out, "\n--- Final Object ---\n");
                push_str(&mut out, j);
                push_str(&mut out, "\n");
            },
            None => {},
        }
        assert(out@ =~= result_text(
            *self,
            match result_json {
                Some(j) => Some(j@),
                None => None,
            },
            match error {
                Some(e) => Some(e@),
                None => None,
            },
        ));
        out
    }
}

// ---------------------------------------------------------------------------
// The annotator
// ---------------------------------------------------------------------------

/// What is written for a finished item.
pub struct DumpOutput {
    pub records: DumpRecords,
    /// `result.txt` or `error.txt`.
    pub file_name: String,
    /// Where the file goes: the file name in the item's directory.
    pub path: String,
    pub text: String,
    /// Whether the annotated images are written too.
    pub write_images: bool,
}

/// The text written for an item whose records were replaced before it was
/// finished.
pub open spec fn dropped_text() -> Seq<char> {
    "DROPPED: scan function exited before finalize (likely an error)\n"@
}

fn path_in(dir: &String, name: &str) -> (p: String)
    ensures
        p@ == file_path(dir@, name@),
{
    let mut p = String::new();
    push_str(&mut p, dir.as_str());
    push_str(&mut p, "/");
    push_str(&mut p, name);
    assert(p@ =~= file_path(dir@, name@));
    p
}

/// Collects the debug records of the item being scanned, when debug dumps
/// are switched on.
pub struct Annotator {
    pub enabled: bool,
    pub current: Option<DumpRecords>,
}

/// Dumps are on and an item is begun.
pub open spec fn active(a: Annotator) -> bool {
    a.enabled && a.current is Some
}

/// `after` is `before` with one more entry on the current image, of which
/// `last` says what it is.
pub open spec fn entry_added(
    before: DumpRecords,
    after: DumpRecords,
    last: spec_fn(DumpEntry) -> bool,
) -> bool {
    &&& after.dir == before.dir
    &&& after.images == before.images
    &&& after.current_image == before.current_image
    &&& after.warnings == before.warnings
    &&& after.entries@.len() == before.entries@.len() + 1
    &&& after.entries@.take(before.entries@.len() as int) == before.entries@
    &&& after.entries@.last().0 == before.current_image
    &&& last(after.entries@.last().1)
}

impl Annotator {
    /// Dumps switched on or off, no item begun.
    pub fn init(enabled: bool) -> (a: Self)
        ensures
            a.enabled == enabled,
            a.current is None,
    {
        Annotator { enabled, current: None }
    }

    /// Are dumps switched on?
    pub fn is_enabled(&self) -> (b: bool)
        ensures
            b == self.enabled,
    {
        self.enabled
    }

    /// Start the records of item `index` of `category` (only when dumps are
    /// on); its files go to `item_dir(category, index)`. Records of an item
    /// that was not finished are handed back, to be written as dropped into
    /// their own directory.
    pub fn begin_item(&mut self, category: &str, index: usize) -> (dropped: Option<DumpOutput>)
        ensures
            final(self).enabled == old(self).enabled,
            old(self).enabled ==> (final(self).current matches Some(d) && d.dir@ == item_dir(
                category@,
                index as nat,
            ) && d.images@.len() == 0
                && d.current_image == 0 && d.entries@.len() == 0 && d.warnings@.len() == 0),
            !old(self).enabled ==> final(self).current == old(self).current && dropped is None,
            old(self).enabled ==> match old(self).current {
                Some(prev) => (dropped matches Some(o) && o.records == prev && o.file_name@
                    == "error.txt"@ && o.path@ == file_path(prev.dir@, "error.txt"@) && o.text@
                    == dropped_text() && !o.write_images),
                None => dropped is None,
            },
    {
        if !self.enabled {
            return None;
        }
        let prev = self.current.take();
        self.current = Some(DumpRecords::new(category, index));
        match prev {
            Some(p) => {
                proof {
                    reveal_strlit("error.txt");
                    reveal_strlit(
                        "DROPPED: scan function exited before finalize (likely an error)\n",
                    );
                }
                let path = path_in(&p.dir, "error.txt");
                Some(
                    DumpOutput {
                        records: p,
                        file_name: String::from_str("error.txt"),
                        path,
                        text: String::from_str(
                            "DROPPED: scan function exited before finalize (likely an error)\n",
                        ),
                        write_images: false,
                    },
                )
            },
            None => None,
        }
    }

    /// Register a captured image of the current item.
    pub fn add_image(&mut self, label: &str)
        ensures
            final(self).enabled == old(self).enabled,
            active(*old(self)) ==> (final(self).current matches Some(d) && d.dir == old(self).current->0.dir && d.entries
                == old(self).current->0.entries && d.warnings == old(self).current->0.warnings
                && d.images@.len() == old(self).current->0.images@.len() + 1 && d.images@.take(
                old(self).current->0.images@.len() as int,
            ) == old(self).current->0.images@ && d.images@.last()@ == label@ && d.current_image
                == old(self).current->0.images@.len()),
            !active(*old(self)) ==> final(self).current == old(self).current,
    {
        if self.enabled {
            match &mut self.current {
                Some(d) => {
                    d.add_image(label);
                },
                None => {},
            }
        }
    }

    /// Record a reading of `field` on the current image.
    pub fn record_ocr(&mut self, field: &str, raw_text: &str)
        ensures
            final(self).enabled == old(self).enabled,
            active(*old(self)) ==> (final(self).current matches Some(d) && entry_added(
                old(self).current->0,
                d,
                |e: DumpEntry|
                    e matches DumpEntry::OcrRegion(r) && r.field_name@ == field@ && r.raw_text@
                        == raw_text@ && r.final_result@.len() == 0 && r.display_result@.len() == 0
                        && r.label_pos == LabelPosition::Auto,
            )),
            !active(*old(self)) ==> final(self).current == old(self).current,
    {
        if self.enabled {
            match &mut self.current {
                Some(d) => d.record_ocr(field, raw_text),
                None => {},
            }
        }
    }

    /// Record a pixel check on the current image, marked in the default
    /// colour.
    pub fn record_pixel(&mut self, field: &str, rgb: [u8; 3], result_text: &str)
        ensures
            final(self).enabled == old(self).enabled,
            active(*old(self)) ==> (final(self).current matches Some(d) && entry_added(
                old(self).current->0,
                d,
                |e: DumpEntry|
                    e matches DumpEntry::PixelCheck {
                        field_name: f,
                        rgb: c,
                        result_text: t,
                        color: k,
                    } && f@ == field@ && c == rgb && t@ == result_text@ && k is None,
            )),
            !active(*old(self)) ==> final(self).current == old(self).current,
    {
        if self.enabled {
            match &mut self.current {
                Some(d) => d.record_pixel(field, rgb, result_text, None),
                None => {},
            }
        }
    }

    /// Record a pixel check on the current image, marked in `color`.
    pub fn record_pixel_colored(&mut self, field: &str, rgb: [u8; 3], result_text: &str, color: [u8; 3])
        ensures
            final(self).enabled == old(self).enabled,
            active(*old(self)) ==> (final(self).current matches Some(d) && entry_added(
                old(self).current->0,
                d,
                |e: DumpEntry|
                    e matches DumpEntry::PixelCheck {
                        field_name: f,
                        rgb: c,
                        result_text: t,
                        color: k,
                    } && f@ == field@ && c == rgb && t@ == result_text@ && k == Some(color),
            )),
            !active(*old(self)) ==> final(self).current == old(self).current,
    {
        if self.enabled {
            match &mut self.current {
                Some(d) => d.record_pixel(field, rgb, result_text, Some(color)),
                None => {},
            }
        }
    }

    /// Record a constellation reading on the current image.
    pub fn record_constellation(&mut self, reading: ConstellationReading)
        ensures
            final(self).enabled == old(self).enabled,
            active(*old(self)) ==> (final(self).current matches Some(d) && entry_added(
                old(self).current->0,
                d,
                |e: DumpEntry| e == DumpEntry::Constellation(reading),
            )),
            !active(*old(self)) ==> final(self).current == old(self).current,
    {
        if self.enabled {
            match &mut self.current {
                Some(d) => d.push_entry(DumpEntry::Constellation(reading)),
                None => {},
            }
        }
    }

    /// Record a grid overlay on the current image: the number of cells and
    /// what was seen in each.
    pub fn record_grid_overlay(&mut self, cells: usize, detections: Vec<(usize, bool, bool)>)
        ensures
            final(self).enabled == old(self).enabled,
            active(*old(self)) ==> (final(self).current matches Some(d) && entry_added(
                old(self).current->0,
                d,
                |e: DumpEntry| e == DumpEntry::GridOverlay { cells, detections },
            )),
            !active(*old(self)) ==> final(self).current == old(self).current,
    {
        if self.enabled {
            match &mut self.current {
                Some(d) => d.push_entry(DumpEntry::GridOverlay { cells, detections }),
                None => {},
            }
        }
    }

    /// Note a warning about the current item.
    pub fn add_warning(&mut self, text: &str)
        ensures
            final(self).enabled == old(self).enabled,
            active(*old(self)) ==> (final(self).current matches Some(d) && d.dir == old(self).current->0.dir && d.images
                == old(self).current->0.images && d.current_image
                == old(self).current->0.current_image && d.entries == old(self).current->0.entries
                && d.warnings@.len() == old(self).current->0.warnings@.len() + 1
                && d.warnings@.take(old(self).current->0.warnings@.len() as int)
                == old(self).current->0.warnings@ && d.warnings@.last()@ == text@),
            !active(*old(self)) ==> final(self).current == old(self).current,
    {
        if self.enabled {
            match &mut self.current {
                Some(d) => d.add_warning(text),
                None => {},
            }
        }
    }

    /// Set what the last reading of `field` of the current item became.
    pub fn set_final(&mut self, field: &str, result: &str)
        ensures
            final(self).enabled == old(self).enabled,
            active(*old(self)) ==> (final(self).current matches Some(d) && d.dir == old(self).current->0.dir && d.images
                == old(self).current->0.images && d.current_image
                == old(self).current->0.current_image && d.warnings
                == old(self).current->0.warnings && result_set(
                old(self).current->0.entries@,
                d.entries@,
                field@,
                result@,
            )),
            !active(*old(self)) ==> final(self).current == old(self).current,
    {
        if self.enabled {
            match &mut self.current {
                Some(d) => d.set_final_result(field, result),
                None => {},
            }
        }
    }

    /// Set the readable name of the last reading of `field` of the current
    /// item.
    pub fn set_display(&mut self, field: &str, display: &str)
        ensures
            final(self).enabled == old(self).enabled,
            active(*old(self)) ==> (final(self).current matches Some(d) && d.dir == old(self).current->0.dir && d.images
                == old(self).current->0.images && d.current_image
                == old(self).current->0.current_image && d.warnings
                == old(self).current->0.warnings && display_set(
                old(self).current->0.entries@,
                d.entries@,
                field@,
                display@,
            )),
            !active(*old(self)) ==> final(self).current == old(self).current,
    {
        if self.enabled {
            match &mut self.current {
                Some(d) => d.set_display_result(field, display),
                None => {},
            }
        }
    }

    /// Put the label of the last reading of `field` below its region.
    pub fn set_label_below(&mut self, field: &str)
        ensures
            final(self).enabled == old(self).enabled,
            active(*old(self)) ==> (final(self).current matches Some(d) && d.dir == old(self).current->0.dir && d.images
                == old(self).current->0.images && d.current_image
                == old(self).current->0.current_image && d.warnings
                == old(self).current->0.warnings && label_set_below(
                old(self).current->0.entries@,
                d.entries@,
                field@,
            )),
            !active(*old(self)) ==> final(self).current == old(self).current,
    {
        if self.enabled {
            match &mut self.current {
                Some(d) => d.set_label_below(field),
                None => {},
            }
        }
    }

    /// Finish a scanned item: its records, the annotated images and
    /// `result.txt` with the final object.
    pub fn finalize_success(&mut self, result_json: &str) -> (r: Option<DumpOutput>)
        ensures
            final(self).enabled == old(self).enabled,
            active(*old(self)) ==> final(self).current is None && (r matches Some(o) && o.records
                == old(self).current->0 && o.file_name@ == "result.txt"@ && o.path@ == file_path(
                old(self).current->0.dir@,
                "result.txt"@,
            ) && o.text@ == result_text(
                old(self).current->0,
                Some(result_json@),
                None,
            ) && o.write_images),
            !active(*old(self)) ==> r is None && final(self).current == old(self).current,
    {
        if !self.enabled {
            return None;
        }
        match self.current.take() {
            Some(d) => {
                let text = d.result_text(Some(result_json), None);
                proof {
                    reveal_strlit("result.txt");
                }
                let path = path_in(&d.dir, "result.txt");
                Some(
                    DumpOutput {
                        records: d,
                        file_name: String::from_str("result.txt"),
                        path,
                        text,
                        write_images: true,
                    },
                )
            },
            None => None,
        }
    }

    /// Finish an item whose scan failed: its records, the annotated images
    /// and `error.txt` with the failure and what was scanned of it.
    pub fn finalize_error(&mut self, partial_json: Option<&str>, error: &str) -> (r: Option<
        DumpOutput,
    >)
        ensures
            final(self).enabled == old(self).enabled,
            active(*old(self)) ==> final(self).current is None && (r matches Some(o) && o.records
                == old(self).current->0 && o.file_name@ == "error.txt"@ && o.path@ == file_path(
                old(self).current->0.dir@,
                "error.txt"@,
            ) && o.text@ == result_text(
                old(self).current->0,
                match partial_json {
                    Some(j) => Some(j@),
                    None => None,
                },
                Some(error@),
            ) && o.write_images),
            !active(*old(self)) ==> r is None && final(self).current == old(self).current,
    {
        if !self.enabled {
            return None;
        }
        match self.current.take() {
            Some(d) => {
                let text = d.result_text(partial_json, Some(error));
                proof {
                    reveal_strlit("error.txt");
                }
                let path = path_in(&d.dir, "error.txt");
                Some(
                    DumpOutput {
                        records: d,
                        file_name: String::from_str("error.txt"),
                        path,
                        text,
                        write_images: true,
                    },
                )
            },
            None => None,
        }
    }

    /// Finish a skipped item: only `error.txt` with the reason.
    pub fn finalize_skip(&mut self, reason: &str) -> (r: Option<DumpOutput>)
        ensures
            final(self).enabled == old(self).enabled,
            active(*old(self)) ==> final(self).current is None && (r matches Some(o) && o.records
                == old(self).current->0 && o.file_name@ == "error.txt"@ && o.path@ == file_path(
                old(self).current->0.dir@,
                "error.txt"@,
            ) && o.text@ == "SKIPPED: "@
                + reason@ + "\n"@ && !o.write_images),
            !active(*old(self)) ==> r is None && final(self).current == old(self).current,
    {
        if !self.enabled {
            return None;
        }
        match self.current.take() {
            Some(d) => {
                let mut text = String::new();
                push_str(&mut text, "SKIPPED: ");
                push_str(&mut text, reason);
                push_str(&mut text, "\n");
                proof {
                    reveal_strlit("error.txt");
                }
                let path = path_in(&d.dir, "error.txt");
                Some(
                    DumpOutput {
                        records: d,
                        file_name: String::from_str("error.txt"),
                        path,
                        text,
                        write_images: false,
                    },
                )
            },
            None => None,
        }
    }
}

} // verus!
