use vstd::prelude::*;
use crate::json::{json_bool_field, json_str_field, spec_json_bool_field, spec_json_str_field};
use crate::text::{decimal_string, spec_decimal, str_eq};

verus! {

broadcast use vstd::string::group_string_axioms;

/// The `recording` row of a clip database.
#[derive(Debug, Clone)]
pub struct RecordingRow {
    pub id: String,
    pub name: String,
    pub started_at_frame: i64,
    pub ended_at_frame: Option<i64>,
    pub started_at_ms: i64,
    pub ended_at_ms: Option<i64>,
    /// The capture configuration as JSON text.
    pub capture_config: Option<String>,
}

/// One entry of the recordings list.
#[derive(Debug, Clone)]
pub struct RecordingSummary {
    pub clip_id: String,
    pub name: String,
    pub frames_captured: u32,
    pub duration_ms: i64,
    pub frame_range_start: i64,
    pub frame_range_end: i64,
    pub markers_count: u32,
    pub size_kb: u32,
    pub created_at_ms: i64,
    pub dashcam: bool,
    /// The dashcam tier, or empty for a clip that is not a dashcam clip.
    pub dashcam_tier: String,
}

/// A file of the storage directory is a clip database when its extension
/// is `sqlite`.
pub fn is_recording_file(extension: Option<&str>) -> (b: bool)
    ensures
        b == (extension matches Some(e) && e@ == "sqlite"@),
{
    match extension {
        Some(e) => str_eq(e, "sqlite"),
        None => false,
    }
}

/// Whether the capture configuration marks a dashcam clip.
pub open spec fn spec_is_dashcam(config: Option<Seq<char>>) -> bool {
    match config {
        Some(c) => spec_json_bool_field(c, "dashcam"@) == Some(true),
        None => false,
    }
}

/// The tier of a dashcam clip as its configuration names it, or empty.
pub open spec fn spec_dashcam_tier(config: Option<Seq<char>>) -> Seq<char> {
    if spec_is_dashcam(config) {
        match spec_json_str_field(config->0, "tier"@) {
            Some(t) => t,
            None => Seq::empty(),
        }
    } else {
        Seq::empty()
    }
}

/// Summarize a clip from its `recording` row, the counts of its frames and
/// markers, and the byte size of its file (if it could be read).
pub fn summarize_recording(row: RecordingRow, frame_count: i64, marker_count: i64, file_len: Option<u64>) -> (s: RecordingSummary)
    requires
        i64::MIN <= (match row.ended_at_ms {
            Some(e) => e,
            None => row.started_at_ms,
        }) - row.started_at_ms <= i64::MAX,
    ensures
        s.clip_id == row.id,
        s.name == row.name,
        s.frames_captured == frame_count as u32,
        s.duration_ms == (match row.ended_at_ms {
            Some(e) => e,
            None => row.started_at_ms,
        }) - row.started_at_ms,
        s.frame_range_start == row.started_at_frame,
        s.frame_range_end == (match row.ended_at_frame {
            Some(e) => e,
            None => row.started_at_frame,
        }),
        s.markers_count == marker_count as u32,
        s.size_kb == (match file_len {
            Some(n) => (n / 1024) as u32,
            None => 0u32,
        }),
        s.created_at_ms == row.started_at_ms,
        s.dashcam == spec_is_dashcam(match row.capture_config { Some(c) => Some(c@), None => None }),
        s.dashcam_tier@ == spec_dashcam_tier(
            match row.capture_config { Some(c) => Some(c@), None => None },
        ),
{
    let end_ms = match row.ended_at_ms {
        Some(e) => e,
        None => row.started_at_ms,
    };
    let end_frame = match row.ended_at_frame {
        Some(e) => e,
        None => row.started_at_frame,
    };
    let size_kb: u32 = match file_len {
        Some(n) => (n / 1024) as u32,
        None => 0,
    };
    let (dashcam, tier) = match &row.capture_config {
        Some(c) => {
            let d = match json_bool_field(c.as_str(), "dashcam") {
                Some(b) => b,
                None => false,
            };
            let t = if d {
                match json_str_field(c.as_str(), "tier") {
                    Some(t) => t,
                    None => String::new(),
                }
            } else {
                String::new()
            };
            (d, t)
        },
        None => (false, String::new()),
    };
    RecordingSummary {
        clip_id: row.id,
        name: row.name,
        frames_captured: frame_count as u32,
        duration_ms: end_ms - row.started_at_ms,
        frame_range_start: row.started_at_frame,
        frame_range_end: end_frame,
        markers_count: marker_count as u32,
        size_kb,
        created_at_ms: row.started_at_ms,
        dashcam,
        dashcam_tier: tier,
    }
}

/// The file of the clip `clip_id` in the storage directory `dir`: the
/// directory, a slash, the id and the `.sqlite` extension.
pub fn clip_file_path(dir: &str, clip_id: &str) -> (p: String)
    ensures
        p@ == dir@ + "/"@ + clip_id@ + ".sqlite"@,
{
    let mut p = String::from_str(dir);
    p.append("/");
    p.append(clip_id);
    p.append(".sqlite");
    p
}

/// The lowercase hexadecimal digit for `d` (0..=15).
pub open spec fn spec_hex_digit(d: u32) -> char {
    if d < 10 {
        (48 + d) as char
    } else {
        (87 + d) as char
    }
}

/// The eight lowercase hexadecimal digits of `n`, most significant first.
pub open spec fn spec_hex8(n: u32) -> Seq<char> {
    seq![
        spec_hex_digit((n >> 28u32) & 0xfu32),
        spec_hex_digit((n >> 24u32) & 0xfu32),
        spec_hex_digit((n >> 20u32) & 0xfu32),
        spec_hex_digit((n >> 16u32) & 0xfu32),
        spec_hex_digit((n >> 12u32) & 0xfu32),
        spec_hex_digit((n >> 8u32) & 0xfu32),
        spec_hex_digit((n >> 4u32) & 0xfu32),
        spec_hex_digit(n & 0xfu32),
    ]
}

/// Append the hexadecimal digit of `(n >> shift) & 0xf`.
fn append_hex_digit(out: &mut String, n: u32, shift: u32)
    requires
        shift < 32,
    ensures
        final(out)@ == old(out)@.push(spec_hex_digit((n >> shift) & 0xfu32)),
{
    let d: u32 = (n >> shift) & 0xf;
    assert(d < 16) by (bit_vector)
        requires
            d == (n >> shift) & 0xf,
    ;
    let digits = "0123456789abcdef";
    proof {
        reveal_strlit("0123456789abcdef");
    }
    let one = digits.substring_char(d as usize, d as usize + 1);
    assert(one@ =~= seq![spec_hex_digit(d)]);
    out.append(one);
}

/// The id of a new dashcam clip: `clip_` and the eight hexadecimal digits
/// of a random number.
pub fn clip_id(n: u32) -> (id: String)
    ensures
        id@ == "clip_"@ + spec_hex8(n),
{
    let mut id = String::from_str("clip_");
    append_hex_digit(&mut id, n, 28);
    append_hex_digit(&mut id, n, 24);
    append_hex_digit(&mut id, n, 20);
    append_hex_digit(&mut id, n, 16);
    append_hex_digit(&mut id, n, 12);
    append_hex_digit(&mut id, n, 8);
    append_hex_digit(&mut id, n, 4);
    append_hex_digit(&mut id, n, 0);
    assert(n >> 0u32 == n) by (bit_vector);
    assert(id@ =~= "clip_"@ + spec_hex8(n));
    id
}

/// The name of a dashcam clip saved at `secs` seconds since the epoch.
pub fn dashcam_clip_name(secs: u64) -> (name: String)
    ensures
        name@ == "dashcam_"@ + spec_decimal(secs as nat),
{
    let mut name = String::from_str("dashcam_");
    let digits = decimal_string(secs);
    name.append(digits.as_str());
    name
}

} // verus!
