use vstd::prelude::*;
use std::collections::VecDeque;

use crate::json::{
    json_bool_field, json_parses, json_u64_field, spec_json_bool_field, spec_json_parses,
    spec_json_u64_field,
};
use crate::text::str_eq;

verus! {

/// Upper bound on the bytes a ring buffer can hold between ingests: the
/// largest byte cap a configuration can name (u32::MAX MiB) is below it.
pub const RING_BYTES_BOUND: u64 = 0x10_0000_0000_0000;

/// Largest frame payload `ingest` accepts; keeps the running average in range.
pub const MAX_FRAME_BYTES: u64 = 922337203685477580;

/// Clip tier: system-triggered clips are short and may be force-closed;
/// deliberate (agent or human) clips are longer and never downgraded.
#[derive(Debug, Clone, Copy, PartialEq, Eq, Structural)]
pub enum DashcamTier {
    System,
    Deliberate,
}

impl DashcamTier {
    pub fn as_str(self) -> (s: &'static str)
        ensures
            s@ == (match self {
                DashcamTier::System => "system"@,
                DashcamTier::Deliberate => "deliberate"@,
            }),
    {
        match self {
            DashcamTier::System => "system",
            DashcamTier::Deliberate => "deliberate",
        }
    }
}

/// Dashcam configuration — all timing in seconds, capture_interval in physics frames.
#[derive(Debug, Clone, Copy, PartialEq, Eq, Structural)]
pub struct DashcamConfig {
    pub enabled: bool,
    pub capture_interval: u32,
    pub pre_window_system_sec: u32,
    pub pre_window_deliberate_sec: u32,
    pub post_window_system_sec: u32,
    pub post_window_deliberate_sec: u32,
    pub max_window_sec: u32,
    pub min_after_sec: u32,
    pub system_min_interval_sec: u32,
    pub byte_cap_mb: u32,
}

impl Default for DashcamConfig {
    fn default() -> (c: Self)
        ensures
            c == (DashcamConfig {
                enabled: true,
                capture_interval: 1,
                pre_window_system_sec: 30,
                pre_window_deliberate_sec: 60,
                post_window_system_sec: 10,
                post_window_deliberate_sec: 30,
                max_window_sec: 120,
                min_after_sec: 5,
                system_min_interval_sec: 2,
                byte_cap_mb: 1024,
            }),
    {
        Self {
            enabled: true,
            capture_interval: 1,
            pre_window_system_sec: 30,
            pre_window_deliberate_sec: 60,
            post_window_system_sec: 10,
            post_window_deliberate_sec: 30,
            max_window_sec: 120,
            min_after_sec: 5,
            system_min_interval_sec: 2,
            byte_cap_mb: 1024,
        }
    }
}

/// Fields of a configuration update, as numbers read from JSON; absent
/// fields leave the configuration unchanged.
#[derive(Debug, Clone, Copy)]
pub struct DashcamConfigUpdate {
    pub enabled: Option<bool>,
    pub capture_interval: Option<u64>,
    pub pre_window_system_sec: Option<u64>,
    pub pre_window_deliberate_sec: Option<u64>,
    pub post_window_system_sec: Option<u64>,
    pub post_window_deliberate_sec: Option<u64>,
    pub max_window_sec: Option<u64>,
    pub min_after_sec: Option<u64>,
    pub system_min_interval_sec: Option<u64>,
    pub byte_cap_mb: Option<u64>,
}

/// A number from an update narrowed to 32 bits (as a truncating cast does),
/// or the current value when absent.
pub open spec fn spec_narrowed(update: Option<u64>, current: u32) -> u32 {
    match update {
        Some(n) => n as u32,
        None => current,
    }
}

pub open spec fn spec_apply_config(c: DashcamConfig, u: DashcamConfigUpdate) -> DashcamConfig {
    DashcamConfig {
        enabled: match u.enabled {
            Some(b) => b,
            None => c.enabled,
        },
        capture_interval: spec_narrowed(u.capture_interval, c.capture_interval),
        pre_window_system_sec: spec_narrowed(u.pre_window_system_sec, c.pre_window_system_sec),
        pre_window_deliberate_sec: spec_narrowed(u.pre_window_deliberate_sec, c.pre_window_deliberate_sec),
        post_window_system_sec: spec_narrowed(u.post_window_system_sec, c.post_window_system_sec),
        post_window_deliberate_sec: spec_narrowed(
            u.post_window_deliberate_sec,
            c.post_window_deliberate_sec,
        ),
        max_window_sec: spec_narrowed(u.max_window_sec, c.max_window_sec),
        min_after_sec: spec_narrowed(u.min_after_sec, c.min_after_sec),
        system_min_interval_sec: spec_narrowed(u.system_min_interval_sec, c.system_min_interval_sec),
        byte_cap_mb: spec_narrowed(u.byte_cap_mb, c.byte_cap_mb),
    }
}

/// The update that a JSON configuration text asks for: `enabled` when its
/// key holds a boolean, each number field when its key holds a non-negative
/// integer; any other key or value type is left out.
pub open spec fn spec_update_from_json(text: Seq<char>) -> DashcamConfigUpdate {
    DashcamConfigUpdate {
        enabled: spec_json_bool_field(text, "enabled"@),
        capture_interval: spec_json_u64_field(text, "capture_interval"@),
        pre_window_system_sec: spec_json_u64_field(text, "pre_window_system_sec"@),
        pre_window_deliberate_sec: spec_json_u64_field(text, "pre_window_deliberate_sec"@),
        post_window_system_sec: spec_json_u64_field(text, "post_window_system_sec"@),
        post_window_deliberate_sec: spec_json_u64_field(text, "post_window_deliberate_sec"@),
        max_window_sec: spec_json_u64_field(text, "max_window_sec"@),
        min_after_sec: spec_json_u64_field(text, "min_after_sec"@),
        system_min_interval_sec: spec_json_u64_field(text, "system_min_interval_sec"@),
        byte_cap_mb: spec_json_u64_field(text, "byte_cap_mb"@),
    }
}

/// Read the update that a JSON configuration text asks for.
pub fn update_from_json(text: &str) -> (u: DashcamConfigUpdate)
    ensures
        u == spec_update_from_json(text@),
{
    DashcamConfigUpdate {
        enabled: json_bool_field(text, "enabled"),
        capture_interval: json_u64_field(text, "capture_interval"),
        pre_window_system_sec: json_u64_field(text, "pre_window_system_sec"),
        pre_window_deliberate_sec: json_u64_field(text, "pre_window_deliberate_sec"),
        post_window_system_sec: json_u64_field(text, "post_window_system_sec"),
        post_window_deliberate_sec: json_u64_field(text, "post_window_deliberate_sec"),
        max_window_sec: json_u64_field(text, "max_window_sec"),
        min_after_sec: json_u64_field(text, "min_after_sec"),
        system_min_interval_sec: json_u64_field(text, "system_min_interval_sec"),
        byte_cap_mb: json_u64_field(text, "byte_cap_mb"),
    }
}

fn narrowed(update: Option<u64>, current: u32) -> (v: u32)
    ensures
        v == spec_narrowed(update, current),
{
    match update {
        Some(n) => n as u32,
        None => current,
    }
}

/// Apply a partial configuration; fields absent from the update are left unchanged.
pub fn apply_config_update(c: DashcamConfig, u: &DashcamConfigUpdate) -> (r: DashcamConfig)
    ensures
        r == spec_apply_config(c, *u),
{
    DashcamConfig {
        enabled: match u.enabled {
            Some(b) => b,
            None => c.enabled,
        },
        capture_interval: narrowed(u.capture_interval, c.capture_interval),
        pre_window_system_sec: narrowed(u.pre_window_system_sec, c.pre_window_system_sec),
        pre_window_deliberate_sec: narrowed(u.pre_window_deliberate_sec, c.pre_window_deliberate_sec),
        post_window_system_sec: narrowed(u.post_window_system_sec, c.post_window_system_sec),
        post_window_deliberate_sec: narrowed(u.post_window_deliberate_sec, c.post_window_deliberate_sec),
        max_window_sec: narrowed(u.max_window_sec, c.max_window_sec),
        min_after_sec: narrowed(u.min_after_sec, c.min_after_sec),
        system_min_interval_sec: narrowed(u.system_min_interval_sec, c.system_min_interval_sec),
        byte_cap_mb: narrowed(u.byte_cap_mb, c.byte_cap_mb),
    }
}

/// Physics rate used in frame arithmetic: never below one.
pub open spec fn spec_rate(x: u32) -> int {
    if x >= 1 { x as int } else { 1 }
}

/// The tier-specific post window in seconds.
pub open spec fn spec_post_sec(c: DashcamConfig, tier: DashcamTier) -> u32 {
    match tier {
        DashcamTier::System => c.post_window_system_sec,
        DashcamTier::Deliberate => c.post_window_deliberate_sec,
    }
}

/// The products that the post-window of `tier` computes fit in 32 bits:
/// the minimum window and that tier's window, times the physics rate.
pub open spec fn spec_window_fits(c: DashcamConfig, physics_fps: u32, tier: DashcamTier) -> bool {
    &&& c.min_after_sec * spec_rate(physics_fps) <= u32::MAX
    &&& spec_post_sec(c, tier) * spec_rate(physics_fps) <= u32::MAX
}

/// The post-windows of both tiers can be computed without overflow.
pub open spec fn spec_windows_fit(c: DashcamConfig, physics_fps: u32) -> bool {
    &&& spec_window_fits(c, physics_fps, DashcamTier::System)
    &&& spec_window_fits(c, physics_fps, DashcamTier::Deliberate)
}

/// Post-window in captured frames for a tier, never shorter than `min_after_sec`.
pub open spec fn spec_post_window_frames(c: DashcamConfig, physics_fps: u32, tier: DashcamTier) -> u32 {
    let f = spec_rate(physics_fps);
    let iv = spec_rate(c.capture_interval);
    let min_frames = (c.min_after_sec * f) / iv;
    let desired = (spec_post_sec(c, tier) * f) / iv;
    (if desired >= min_frames { desired } else { min_frames }) as u32
}

/// Compute post-window in frames for the given tier, clamped by min_after_sec.
pub fn post_window_frames(c: &DashcamConfig, physics_fps: u32, tier: DashcamTier) -> (n: u32)
    requires
        spec_window_fits(*c, physics_fps, tier),
    ensures
        n == spec_post_window_frames(*c, physics_fps, tier),
        n >= (c.min_after_sec * spec_rate(physics_fps)) / spec_rate(c.capture_interval),
{
    let fps = if physics_fps >= 1 { physics_fps } else { 1 };
    let interval = if c.capture_interval >= 1 { c.capture_interval } else { 1 };
    let post_sec = match tier {
        DashcamTier::System => c.post_window_system_sec,
        DashcamTier::Deliberate => c.post_window_deliberate_sec,
    };
    let min_frames = c.min_after_sec * fps / interval;
    let desired_frames = post_sec * fps / interval;
    if desired_frames >= min_frames {
        desired_frames
    } else {
        min_frames
    }
}

/// Bytes allowed in the ring buffer.
pub open spec fn spec_byte_cap(c: DashcamConfig) -> int {
    c.byte_cap_mb * 1024 * 1024
}

/// Maximum frames kept in the ring: the time-based limit from the deliberate
/// pre-window, further limited by the byte cap at the average frame size, and
/// never below one.
pub open spec fn spec_ring_cap_frames(c: DashcamConfig, physics_fps: u32, avg_frame_bytes: int) -> int {
    let time_based = (c.pre_window_deliberate_sec * spec_rate(physics_fps)) / spec_rate(c.capture_interval);
    if avg_frame_bytes == 0 {
        if time_based >= 1 { time_based } else { 1 }
    } else {
        let byte_based = spec_byte_cap(c) / avg_frame_bytes;
        let m = if time_based <= byte_based { time_based } else { byte_based };
        if m >= 1 { m } else { 1 }
    }
}

/// Compute max frames to keep in the ring buffer.
pub fn ring_cap_frames(c: &DashcamConfig, physics_fps: u32, avg_frame_bytes: u64) -> (n: u64)
    ensures
        n == spec_ring_cap_frames(*c, physics_fps, avg_frame_bytes as int),
        n >= 1,
{
    let fps: u64 = if physics_fps >= 1 { physics_fps as u64 } else { 1 };
    let interval: u64 = if c.capture_interval >= 1 { c.capture_interval as u64 } else { 1 };
    assert((c.pre_window_deliberate_sec as u64) * fps <= 0xffff_ffff_ffff_ffff) by (nonlinear_arith)
        requires
            fps <= 0xffff_ffff,
    ;
    let time_based = c.pre_window_deliberate_sec as u64 * fps / interval;
    if avg_frame_bytes == 0 {
        return if time_based >= 1 { time_based } else { 1 };
    }
    let byte_cap = c.byte_cap_mb as u64 * 1024 * 1024;
    let byte_based = byte_cap / avg_frame_bytes;
    let m = if time_based <= byte_based { time_based } else { byte_based };
    if m >= 1 { m } else { 1 }
}

} // verus!

verus! {

/// One captured frame: its physics frame, its time, and its encoded entity data.
pub struct CapturedFrame {
    pub frame: u64,
    pub timestamp_ms: u64,
    pub data: Vec<u8>,
}

/// The plain value of a captured frame.
pub struct FrameView {
    pub frame: u64,
    pub timestamp_ms: u64,
    pub data: Seq<u8>,
}

impl View for CapturedFrame {
    type V = FrameView;

    open spec fn view(&self) -> FrameView {
        FrameView { frame: self.frame, timestamp_ms: self.timestamp_ms, data: self.data@ }
    }
}

/// A marker annotation recorded in a clip.
pub struct DashcamTrigger {
    pub frame: u64,
    pub timestamp_ms: u64,
    pub source: String,
    pub label: String,
}

/// The plain value of a trigger.
pub struct TriggerView {
    pub frame: u64,
    pub timestamp_ms: u64,
    pub source: Seq<char>,
    pub label: Seq<char>,
}

impl View for DashcamTrigger {
    type V = TriggerView;

    open spec fn view(&self) -> TriggerView {
        TriggerView {
            frame: self.frame,
            timestamp_ms: self.timestamp_ms,
            source: self.source@,
            label: self.label@,
        }
    }
}

pub open spec fn spec_frames(v: Seq<CapturedFrame>) -> Seq<FrameView> {
    v.map_values(|f: CapturedFrame| f@)
}

pub open spec fn spec_triggers(v: Seq<DashcamTrigger>) -> Seq<TriggerView> {
    v.map_values(|t: DashcamTrigger| t@)
}

/// Total payload bytes of a sequence of frames.
pub open spec fn spec_total_bytes(s: Seq<FrameView>) -> nat
    decreases s.len(),
{
    if s.len() == 0 {
        0
    } else {
        spec_total_bytes(s.drop_first()) + s[0].data.len()
    }
}

/// Dashcam clip state machine.
pub enum DashcamState {
    Disabled,
    Buffering,
    PostCapture {
        frames_remaining: u32,
        tier: DashcamTier,
        /// Snapshot of the ring buffer at the moment the first trigger fired.
        pre_buffer: Vec<CapturedFrame>,
        /// Frames captured after the trigger (the clip's tail).
        post_buffer: Vec<CapturedFrame>,
        /// All trigger annotations recorded in this clip.
        markers: Vec<DashcamTrigger>,
        /// Frame of the last system marker (for rate-limiting).
        last_system_trigger_frame: u64,
        /// Absolute frame at which a system-tier clip is force-closed.
        force_close_at_frame: Option<u64>,
    },
}

/// The plain value of the clip state.
pub enum PhaseView {
    Disabled,
    Buffering,
    PostCapture {
        frames_remaining: u32,
        tier: DashcamTier,
        pre: Seq<FrameView>,
        post: Seq<FrameView>,
        markers: Seq<TriggerView>,
        last_system_trigger_frame: u64,
        force_close_at_frame: Option<u64>,
    },
}

impl View for DashcamState {
    type V = PhaseView;

    open spec fn view(&self) -> PhaseView {
        match self {
            DashcamState::Disabled => PhaseView::Disabled,
            DashcamState::Buffering => PhaseView::Buffering,
            DashcamState::PostCapture {
                frames_remaining,
                tier,
                pre_buffer,
                post_buffer,
                markers,
                last_system_trigger_frame,
                force_close_at_frame,
            } => PhaseView::PostCapture {
                frames_remaining: *frames_remaining,
                tier: *tier,
                pre: spec_frames(pre_buffer@),
                post: spec_frames(post_buffer@),
                markers: spec_triggers(markers@),
                last_system_trigger_frame: *last_system_trigger_frame,
                force_close_at_frame: *force_close_at_frame,
            },
        }
    }
}

/// A finished clip, ready to be stored: all its frames (pre-trigger ring
/// snapshot, then post-trigger frames), its triggers, and its bounds.
pub struct ClipPlan {
    pub tier: DashcamTier,
    pub frames: Vec<CapturedFrame>,
    pub markers: Vec<DashcamTrigger>,
    pub first_frame: u64,
    pub last_frame: u64,
    pub first_timestamp_ms: u64,
    pub last_timestamp_ms: u64,
    pub total_frames: u32,
}

/// The plain value of a clip.
pub struct ClipView {
    pub tier: DashcamTier,
    pub frames: Seq<FrameView>,
    pub markers: Seq<TriggerView>,
}

/// The clip a post-capture phase stores when it closes.
pub open spec fn spec_clip_of(tier: DashcamTier, pre: Seq<FrameView>, post: Seq<FrameView>, markers: Seq<TriggerView>) -> ClipView {
    ClipView { tier, frames: pre + post, markers }
}

/// What a stored clip plan holds, and its bounds derived from its frames.
pub open spec fn spec_plan_is(p: ClipPlan, c: ClipView) -> bool {
    &&& p.tier == c.tier
    &&& spec_frames(p.frames@) == c.frames
    &&& spec_triggers(p.markers@) == c.markers
    &&& p.first_frame == (if c.frames.len() == 0 { 0 } else { c.frames[0].frame })
    &&& p.last_frame == (if c.frames.len() == 0 { 0 } else { c.frames.last().frame })
    &&& p.first_timestamp_ms == (if c.frames.len() == 0 { 0 } else { c.frames[0].timestamp_ms })
    &&& p.last_timestamp_ms == (if c.frames.len() == 0 { 0 } else { c.frames.last().timestamp_ms })
    &&& p.total_frames == c.frames.len() as u32
}

/// The whole dashcam as plain values.
pub struct DashcamView {
    pub config: DashcamConfig,
    pub phase: PhaseView,
    pub ring: Seq<FrameView>,
    pub ring_bytes: nat,
    pub avg_frame_bytes: nat,
    pub physics_fps: u32,
    pub frame_counter: u32,
}

/// Dashcam core of the recorder: a ring buffer of recent frames and the clip
/// state machine. The caller captures frames and stores finished clips.
pub struct Dashcam {
    config: DashcamConfig,
    state: DashcamState,
    ring_buffer: VecDeque<CapturedFrame>,
    ring_buffer_bytes: u64,
    /// Exponential moving average of per-frame byte size (for byte cap).
    avg_frame_bytes: u64,
    /// Cached physics FPS.
    physics_fps: u32,
    /// Physics frame counter (for the capture interval).
    frame_counter: u32,
}

impl View for Dashcam {
    type V = DashcamView;

    closed spec fn view(&self) -> DashcamView {
        DashcamView {
            config: self.config,
            phase: self.state@,
            ring: spec_frames(self.ring_buffer@),
            ring_bytes: self.ring_buffer_bytes as nat,
            avg_frame_bytes: self.avg_frame_bytes as nat,
            physics_fps: self.physics_fps,
            frame_counter: self.frame_counter,
        }
    }
}

/// Well-formedness: the byte count is the ring's payload total, bounded, and
/// the running average stays in range.
pub open spec fn spec_wf(v: DashcamView) -> bool {
    &&& v.ring_bytes == spec_total_bytes(v.ring)
    &&& v.ring_bytes <= RING_BYTES_BOUND
    &&& v.avg_frame_bytes <= MAX_FRAME_BYTES
}

/// A fresh dashcam: default configuration, disabled until ready, empty ring, 60 FPS.
pub open spec fn spec_initial() -> DashcamView {
    DashcamView {
        config: DashcamConfig {
            enabled: true,
            capture_interval: 1,
            pre_window_system_sec: 30,
            pre_window_deliberate_sec: 60,
            post_window_system_sec: 10,
            post_window_deliberate_sec: 30,
            max_window_sec: 120,
            min_after_sec: 5,
            system_min_interval_sec: 2,
            byte_cap_mb: 1024,
        },
        phase: PhaseView::Disabled,
        ring: Seq::empty(),
        ring_bytes: 0,
        avg_frame_bytes: 0,
        physics_fps: 60,
        frame_counter: 0,
    }
}

/// Ready: caches the physics rate and starts buffering if enabled.
pub open spec fn spec_ready(v: DashcamView, physics_fps: u32) -> DashcamView {
    DashcamView {
        physics_fps,
        phase: if v.config.enabled { PhaseView::Buffering } else { v.phase },
        ..v
    }
}

/// Enabling starts buffering when disabled; disabling drops the clip state and the ring.
pub open spec fn spec_set_enabled(v: DashcamView, enabled: bool) -> DashcamView {
    if enabled {
        if v.phase is Disabled {
            DashcamView { phase: PhaseView::Buffering, ..v }
        } else {
            v
        }
    } else {
        DashcamView { phase: PhaseView::Disabled, ring: Seq::empty(), ring_bytes: 0, ..v }
    }
}

/// Markers from the source `"system"` are system tier; every other source is deliberate.
pub open spec fn spec_tier_of(source: Seq<char>) -> DashcamTier {
    if source == "system"@ {
        DashcamTier::System
    } else {
        DashcamTier::Deliberate
    }
}

/// A marker: starts a clip when buffering (snapshotting the ring), merges
/// into the open clip otherwise, and is ignored when disabled. The second
/// component is the (frame, tier) of a clip that this marker started.
pub open spec fn spec_on_marker(
    v: DashcamView,
    source: Seq<char>,
    label: Seq<char>,
    frame: u64,
    timestamp_ms: u64,
) -> (DashcamView, Option<(u64, DashcamTier)>) {
    let tier = spec_tier_of(source);
    let trigger = TriggerView { frame, timestamp_ms, source, label };
    match v.phase {
        PhaseView::Disabled => (v, None),
        PhaseView::Buffering => (
            DashcamView {
                phase: PhaseView::PostCapture {
                    frames_remaining: spec_post_window_frames(v.config, v.physics_fps, tier),
                    tier,
                    pre: v.ring,
                    post: Seq::empty(),
                    markers: seq![trigger],
                    last_system_trigger_frame: if tier == DashcamTier::System { frame } else { 0 },
                    force_close_at_frame: if tier == DashcamTier::System {
                        Some((frame + v.config.max_window_sec * v.physics_fps) as u64)
                    } else {
                        None
                    },
                },
                ..v
            },
            Some((frame, tier)),
        ),
        PhaseView::PostCapture {
            frames_remaining,
            tier: clip_tier,
            pre,
            post,
            markers,
            last_system_trigger_frame,
            force_close_at_frame,
        } => {
            let phase = if tier == DashcamTier::Deliberate {
                let d = spec_post_window_frames(v.config, v.physics_fps, DashcamTier::Deliberate);
                PhaseView::PostCapture {
                    frames_remaining: if frames_remaining >= d { frames_remaining } else { d },
                    tier: DashcamTier::Deliberate,
                    pre,
                    post,
                    markers: markers.push(trigger),
                    last_system_trigger_frame,
                    force_close_at_frame: None,
                }
            } else {
                let elapsed = if frame >= last_system_trigger_frame {
                    frame - last_system_trigger_frame
                } else {
                    0
                };
                let min_interval = v.config.system_min_interval_sec * v.physics_fps;
                let s = spec_post_window_frames(v.config, v.physics_fps, DashcamTier::System);
                if elapsed >= min_interval {
                    PhaseView::PostCapture {
                        frames_remaining: if frames_remaining >= s { frames_remaining } else { s },
                        tier: clip_tier,
                        pre,
                        post,
                        markers: markers.push(trigger),
                        last_system_trigger_frame: frame,
                        force_close_at_frame,
                    }
                } else {
                    PhaseView::PostCapture {
                        frames_remaining,
                        tier: clip_tier,
                        pre,
                        post,
                        markers: markers.push(trigger),
                        last_system_trigger_frame,
                        force_close_at_frame,
                    }
                }
            };
            (DashcamView { phase, ..v }, None)
        },
    }
}

/// Closing the open clip: back to buffering, and the clip if one was open.
pub open spec fn spec_close(v: DashcamView) -> (DashcamView, Option<ClipView>) {
    match v.phase {
        PhaseView::PostCapture { tier, pre, post, markers, .. } => (
            DashcamView { phase: PhaseView::Buffering, ..v },
            Some(spec_clip_of(tier, pre, post, markers)),
        ),
        _ => (DashcamView { phase: PhaseView::Buffering, ..v }, None),
    }
}

/// An explicit flush: nothing when disabled; when buffering, a deliberate clip
/// of the ring with a "human" marker; when a clip is open, that clip now.
pub open spec fn spec_flush(v: DashcamView, label: Seq<char>, frame: u64, timestamp_ms: u64) -> (
    DashcamView,
    Option<ClipView>,
) {
    match v.phase {
        PhaseView::Disabled => (v, None),
        PhaseView::Buffering => (
            DashcamView { phase: PhaseView::Buffering, ..v },
            Some(
                spec_clip_of(
                    DashcamTier::Deliberate,
                    v.ring,
                    Seq::empty(),
                    seq![TriggerView { frame, timestamp_ms, source: "human"@, label }],
                ),
            ),
        ),
        PhaseView::PostCapture { .. } => spec_close(v),
    }
}

/// A system clip whose force-close frame has been reached closes.
pub open spec fn spec_force_close_due(v: DashcamView, current_frame: u64) -> bool {
    match v.phase {
        PhaseView::PostCapture { tier, force_close_at_frame, .. } => {
            &&& tier == DashcamTier::System
            &&& force_close_at_frame matches Some(f)
            &&& current_frame >= f
        },
        _ => false,
    }
}

/// Drop the oldest frames until at most `frame_cap` remain and the payload
/// is within `byte_cap` (or nothing is left).
pub open spec fn spec_evict(ring: Seq<FrameView>, frame_cap: int, byte_cap: int) -> Seq<FrameView>
    decreases ring.len(),
{
    if ring.len() > 0 && (ring.len() > frame_cap || spec_total_bytes(ring) > byte_cap) {
        spec_evict(ring.drop_first(), frame_cap, byte_cap)
    } else {
        ring
    }
}

/// The running frame-size average after a frame of `len` bytes.
pub open spec fn spec_next_avg(avg: nat, len: nat) -> nat {
    if avg == 0 {
        len
    } else {
        ((avg * 19 + len) / 20) as nat
    }
}

/// Ingesting a captured frame: update the average, append to the ring and
/// evict to the caps, and if a clip is open, append to its tail and count its
/// window down, closing it when the window is spent.
pub open spec fn spec_ingest(v: DashcamView, f: FrameView) -> (DashcamView, Option<ClipView>) {
    let avg = spec_next_avg(v.avg_frame_bytes, f.data.len());
    let cap = spec_ring_cap_frames(v.config, v.physics_fps, avg as int);
    let ring = spec_evict(v.ring.push(f), cap, spec_byte_cap(v.config));
    let v1 = DashcamView { avg_frame_bytes: avg, ring, ring_bytes: spec_total_bytes(ring), ..v };
    match v.phase {
        PhaseView::PostCapture {
            frames_remaining,
            tier,
            pre,
            post,
            markers,
            last_system_trigger_frame,
            force_close_at_frame,
        } => {
            let remaining = if frames_remaining > 0 { (frames_remaining - 1) as u32 } else { 0u32 };
            if remaining == 0 {
                (
                    DashcamView { phase: PhaseView::Buffering, ..v1 },
                    Some(spec_clip_of(tier, pre, post.push(f), markers)),
                )
            } else {
                (
                    DashcamView {
                        phase: PhaseView::PostCapture {
                            frames_remaining: remaining,
                            tier,
                            pre,
                            post: post.push(f),
                            markers,
                            last_system_trigger_frame,
                            force_close_at_frame,
                        },
                        ..v1
                    },
                    None,
                )
            }
        },
        _ => (v1, None),
    }
}

/// Whether the frame counter `n` is a capture frame for the interval (an
/// interval of zero accepts only frame zero).
pub open spec fn spec_is_capture_frame(n: u32, interval: u32) -> bool {
    if interval == 0 {
        n == 0
    } else {
        n % interval == 0
    }
}

} // verus!

verus! {

/// One physics tick: closes a due system clip, then (unless disabled) counts
/// the frame and says whether this frame is to be captured.
pub open spec fn spec_tick(v: DashcamView, current_frame: u64) -> (DashcamView, Option<ClipView>, bool) {
    let (v1, clip) = if spec_force_close_due(v, current_frame) {
        spec_close(v)
    } else {
        (v, None)
    };
    if v1.phase is Disabled {
        (v1, clip, false)
    } else {
        let n = (v1.frame_counter + 1) as u32;
        (
            DashcamView { frame_counter: n, ..v1 },
            clip,
            spec_is_capture_frame(n, v1.config.capture_interval),
        )
    }
}

/// The conditions under which a marker's arithmetic stays in range: a
/// marker that opens a clip computes its own tier's post-window (and, for a
/// system marker, the force-close frame); one that joins an open clip
/// computes the post-windows of both tiers; a disabled dashcam computes
/// nothing.
pub open spec fn spec_marker_fits(v: DashcamView, source: Seq<char>, frame: u64) -> bool {
    match v.phase {
        PhaseView::Disabled => true,
        PhaseView::Buffering => {
            &&& spec_window_fits(v.config, v.physics_fps, spec_tier_of(source))
            &&& spec_tier_of(source) == DashcamTier::System ==> frame + v.config.max_window_sec
                * v.physics_fps <= u64::MAX
        },
        PhaseView::PostCapture { .. } => spec_windows_fit(v.config, v.physics_fps),
    }
}

fn copy_bytes(v: &Vec<u8>) -> (r: Vec<u8>)
    ensures
        r@ == v@,
{
    let mut r: Vec<u8> = Vec::new();
    let mut i: usize = 0;
    while i < v.len()
        invariant
            i <= v.len(),
            r@ == v@.take(i as int),
        decreases v.len() - i,
    {
        r.push(v[i]);
        assert(r@ =~= v@.take(i + 1));
        i = i + 1;
    }
    assert(v@.take(v.len() as int) =~= v@);
    r
}

impl CapturedFrame {
    /// A copy of this frame.
    pub fn duplicate(&self) -> (r: CapturedFrame)
        ensures
            r@ == self@,
    {
        CapturedFrame { frame: self.frame, timestamp_ms: self.timestamp_ms, data: copy_bytes(&self.data) }
    }
}

proof fn lemma_total_bytes_push(s: Seq<FrameView>, f: FrameView)
    ensures
        spec_total_bytes(s.push(f)) == spec_total_bytes(s) + f.data.len(),
    decreases s.len(),
{
    if s.len() > 0 {
        lemma_total_bytes_push(s.drop_first(), f);
        assert(s.push(f).drop_first() =~= s.drop_first().push(f));
        assert(s.push(f)[0] == s[0]);
        assert(spec_total_bytes(s.push(f)) == spec_total_bytes(s.push(f).drop_first()) + s.push(f)[0].data.len());
    } else {
        assert(s.push(f).drop_first() =~= Seq::<FrameView>::empty());
        assert(spec_total_bytes(s.push(f).drop_first()) == 0);
        assert(s.push(f)[0] == f);
    }
}

proof fn lemma_evict_bounds(ring: Seq<FrameView>, frame_cap: int, byte_cap: int)
    ensures
        spec_evict(ring, frame_cap, byte_cap).len() <= ring.len(),
        ({
            let r = spec_evict(ring, frame_cap, byte_cap);
            r.len() == 0 || (r.len() <= frame_cap && spec_total_bytes(r) <= byte_cap)
        }),
        exists|k: int|
            0 <= k <= ring.len() && #[trigger] ring.skip(k) == spec_evict(ring, frame_cap, byte_cap),
    decreases ring.len(),
{
    if ring.len() > 0 && (ring.len() > frame_cap || spec_total_bytes(ring) > byte_cap) {
        lemma_evict_bounds(ring.drop_first(), frame_cap, byte_cap);
        let k = choose|k: int|
            0 <= k <= ring.drop_first().len() && #[trigger] ring.drop_first().skip(k) == spec_evict(
                ring.drop_first(),
                frame_cap,
                byte_cap,
            );
        assert(ring.skip(k + 1) =~= ring.drop_first().skip(k));
    } else {
        assert(ring.skip(0) =~= ring);
    }
}

impl Dashcam {
    pub closed spec fn wf(&self) -> bool {
        spec_wf(self@)
    }

    pub fn new() -> (d: Self)
        ensures
            d@ == spec_initial(),
            d.wf(),
    {
        let d = Dashcam {
            config: DashcamConfig::default(),
            state: DashcamState::Disabled,
            ring_buffer: VecDeque::new(),
            ring_buffer_bytes: 0,
            avg_frame_bytes: 0,
            physics_fps: 60,
            frame_counter: 0,
        };
        assert(spec_frames(d.ring_buffer@) =~= Seq::<FrameView>::empty());
        d
    }

    /// Cache the physics rate and start buffering if the configuration enables it.
    pub fn ready(&mut self, physics_fps: u32)
        requires
            old(self).wf(),
        ensures
            final(self)@ == spec_ready(old(self)@, physics_fps),
            final(self).wf(),
    {
        self.physics_fps = physics_fps;
        if self.config.enabled {
            self.state = DashcamState::Buffering;
        }
    }

    /// The current configuration.
    pub fn config(&self) -> (c: DashcamConfig)
        ensures
            c == self@.config,
    {
        self.config
    }

    /// The physics frame counter.
    pub fn frame_counter(&self) -> (n: u32)
        ensures
            n == self@.frame_counter,
    {
        self.frame_counter
    }

    /// Apply dashcam configuration fields; absent fields are left unchanged.
    pub fn apply_config(&mut self, update: &DashcamConfigUpdate)
        requires
            old(self).wf(),
        ensures
            final(self)@ == (DashcamView { config: spec_apply_config(old(self)@.config, *update), ..old(self)@ }),
            final(self).wf(),
    {
        self.config = apply_config_update(self.config, update);
    }

    /// Apply a configuration given as JSON text: refused (`false`, nothing
    /// changes) when the text is not JSON; otherwise each field whose key
    /// holds a value of its type is set, numbers taken in their low 32 bits,
    /// and fields absent from the text are left unchanged.
    pub fn apply_dashcam_config(&mut self, config_json: &str) -> (ok: bool)
        requires
            old(self).wf(),
        ensures
            final(self).wf(),
            ok == spec_json_parses(config_json@),
            ok ==> final(self)@ == (DashcamView {
                config: spec_apply_config(old(self)@.config, spec_update_from_json(config_json@)),
                ..old(self)@
            }),
            !ok ==> final(self)@ == old(self)@,
    {
        if !json_parses(config_json) {
            return false;
        }
        let update = update_from_json(config_json);
        self.apply_config(&update);
        true
    }

    /// Enable or disable dashcam mode at runtime.
    pub fn set_dashcam_enabled(&mut self, enabled: bool)
        requires
            old(self).wf(),
        ensures
            final(self)@ == spec_set_enabled(old(self)@, enabled),
            final(self).wf(),
    {
        if enabled {
            if matches!(self.state, DashcamState::Disabled) {
                self.state = DashcamState::Buffering;
            }
        } else {
            self.state = DashcamState::Disabled;
            self.ring_buffer.clear();
            self.ring_buffer_bytes = 0;
            assert(spec_frames(self.ring_buffer@) =~= Seq::<FrameView>::empty());
        }
    }

    /// Returns true if dashcam is actively buffering or in post-capture.
    pub fn is_dashcam_active(&self) -> (b: bool)
        ensures
            b == !(self@.phase is Disabled),
    {
        !matches!(self.state, DashcamState::Disabled)
    }

    /// Returns current ring buffer size in frames.
    pub fn get_dashcam_buffer_frames(&self) -> (n: u32)
        ensures
            n == self@.ring.len() as u32,
    {
        self.ring_buffer.len() as u32
    }

    /// Returns current ring buffer memory usage in KB.
    pub fn get_dashcam_buffer_kb(&self) -> (n: u32)
        ensures
            n == (self@.ring_bytes / 1024) as u32,
    {
        (self.ring_buffer_bytes / 1024) as u32
    }

    /// Returns dashcam clip state string: "buffering", "post_capture", or "disabled".
    pub fn get_dashcam_state(&self) -> (s: &'static str)
        ensures
            s@ == (match self@.phase {
                PhaseView::Disabled => "disabled"@,
                PhaseView::Buffering => "buffering"@,
                PhaseView::PostCapture { .. } => "post_capture"@,
            }),
    {
        match &self.state {
            DashcamState::Disabled => "disabled",
            DashcamState::Buffering => "buffering",
            DashcamState::PostCapture { .. } => "post_capture",
        }
    }

    /// A copy of the ring buffer, oldest frame first.
    fn snapshot_ring(&self) -> (r: Vec<CapturedFrame>)
        ensures
            spec_frames(r@) == spec_frames(self.ring_buffer@),
    {
        let mut r: Vec<CapturedFrame> = Vec::new();
        let mut i: usize = 0;
        while i < self.ring_buffer.len()
            invariant
                i <= self.ring_buffer@.len(),
                spec_frames(r@) == spec_frames(self.ring_buffer@).take(i as int),
            decreases self.ring_buffer.len() - i,
        {
            let f = self.ring_buffer[i].duplicate();
            let ghost fv = f@;
            let ghost before = spec_frames(r@);
            assert(fv == spec_frames(self.ring_buffer@)[i as int]);
            r.push(f);
            assert(spec_frames(r@) =~= before.push(fv));
            assert(spec_frames(r@) =~= spec_frames(self.ring_buffer@).take(i + 1));
            i = i + 1;
        }
        assert(spec_frames(self.ring_buffer@).take(self.ring_buffer@.len() as int) =~= spec_frames(
            self.ring_buffer@,
        ));
        r
    }

    /// Close the open clip (if any) and return to buffering.
    fn close_clip(&mut self) -> (plan: Option<ClipPlan>)
        requires
            old(self).wf(),
        ensures
            final(self).wf(),
            final(self)@ == spec_close(old(self)@).0,
            match spec_close(old(self)@).1 {
                Some(c) => plan matches Some(p) && spec_plan_is(p, c),
                None => plan is None,
            },
    {
        let mut state = DashcamState::Buffering;
        std::mem::swap(&mut state, &mut self.state);
        match state {
            DashcamState::PostCapture { tier, pre_buffer, post_buffer, markers, .. } => {
                Some(build_plan(tier, pre_buffer, post_buffer, markers))
            },
            _ => None,
        }
    }

    /// Trigger a dashcam clip from a marker: starts a clip when buffering,
    /// merges into the open clip otherwise. Returns the (frame, tier) of a
    /// clip this marker started.
    pub fn on_dashcam_marker(&mut self, source: &str, label: &str, frame: u64, timestamp_ms: u64) -> (started: Option<(u64, DashcamTier)>)
        requires
            old(self).wf(),
            spec_marker_fits(old(self)@, source@, frame),
        ensures
            final(self).wf(),
            (final(self)@, started) == spec_on_marker(old(self)@, source@, label@, frame, timestamp_ms),
    {
        let tier = if str_eq(source, "system") {
            DashcamTier::System
        } else {
            DashcamTier::Deliberate
        };
        let trigger = DashcamTrigger {
            frame,
            timestamp_ms,
            source: String::from_str(source),
            label: String::from_str(label),
        };
        let ghost tv = trigger@;
        match &self.state {
            DashcamState::Disabled => {
                return None;
            },
            DashcamState::Buffering => {
                let pre_buffer = self.snapshot_ring();
                let post_window = post_window_frames(&self.config, self.physics_fps, tier);
                let force_close_at_frame = if matches!(tier, DashcamTier::System) {
                    Some(frame + self.config.max_window_sec as u64 * self.physics_fps as u64)
                } else {
                    None
                };
                let markers = vec![trigger];
                assert(spec_triggers(markers@) =~= seq![tv]);
                let post_buffer: Vec<CapturedFrame> = Vec::new();
                assert(spec_frames(post_buffer@) =~= Seq::<FrameView>::empty());
                self.state = DashcamState::PostCapture {
                    frames_remaining: post_window,
                    tier,
                    pre_buffer,
                    post_buffer,
                    markers,
                    last_system_trigger_frame: if matches!(tier, DashcamTier::System) {
                        frame
                    } else {
                        0
                    },
                    force_close_at_frame,
                };
                return Some((frame, tier));
            },
            DashcamState::PostCapture { .. } => {},
        }
        let deliberate_frames = post_window_frames(&self.config, self.physics_fps, DashcamTier::Deliberate);
        let system_frames = post_window_frames(&self.config, self.physics_fps, DashcamTier::System);
        let smi = self.config.system_min_interval_sec as u64;
        let pf = self.physics_fps as u64;
        assert(smi * pf <= 0xffff_ffff_ffff_ffff) by (nonlinear_arith)
            requires
                smi <= 0xffff_ffff,
                pf <= 0xffff_ffff,
        ;
        let min_interval = smi * pf;
        let mut state = DashcamState::Buffering;
        std::mem::swap(&mut state, &mut self.state);
        if let DashcamState::PostCapture {
            frames_remaining,
            tier: clip_tier,
            pre_buffer,
            post_buffer,
            mut markers,
            last_system_trigger_frame,
            force_close_at_frame,
        } = state {
            let ghost old_markers = spec_triggers(markers@);
            markers.push(trigger);
            assert(spec_triggers(markers@) =~= old_markers.push(tv));
            if matches!(tier, DashcamTier::Deliberate) {
                self.state = DashcamState::PostCapture {
                    frames_remaining: if frames_remaining >= deliberate_frames {
                        frames_remaining
                    } else {
                        deliberate_frames
                    },
                    tier: DashcamTier::Deliberate,
                    pre_buffer,
                    post_buffer,
                    markers,
                    last_system_trigger_frame,
                    force_close_at_frame: None,
                };
            } else {
                let elapsed = if frame >= last_system_trigger_frame {
                    frame - last_system_trigger_frame
                } else {
                    0
                };
                if elapsed >= min_interval {
                    self.state = DashcamState::PostCapture {
                        frames_remaining: if frames_remaining >= system_frames {
                            frames_remaining
                        } else {
                            system_frames
                        },
                        tier: clip_tier,
                        pre_buffer,
                        post_buffer,
                        markers,
                        last_system_trigger_frame: frame,
                        force_close_at_frame,
                    };
                } else {
                    self.state = DashcamState::PostCapture {
                        frames_remaining,
                        tier: clip_tier,
                        pre_buffer,
                        post_buffer,
                        markers,
                        last_system_trigger_frame,
                        force_close_at_frame,
                    };
                }
            }
        }
        None
    }

    /// Force-flush: the current ring buffer (as a deliberate clip marked by
    /// "human") or the open clip, immediately. `None` when disabled.
    pub fn flush_dashcam_clip(&mut self, label: &str, frame: u64, timestamp_ms: u64) -> (plan: Option<ClipPlan>)
        requires
            old(self).wf(),
        ensures
            final(self).wf(),
            final(self)@ == spec_flush(old(self)@, label@, frame, timestamp_ms).0,
            match spec_flush(old(self)@, label@, frame, timestamp_ms).1 {
                Some(c) => plan matches Some(p) && spec_plan_is(p, c),
                None => plan is None,
            },
    {
        if matches!(self.state, DashcamState::Disabled) {
            return None;
        }
        if matches!(self.state, DashcamState::Buffering) {
            let pre_buffer = self.snapshot_ring();
            let human = "human";
            proof {
                reveal_strlit("human");
            }
            let trigger = DashcamTrigger {
                frame,
                timestamp_ms,
                source: String::from_str(human),
                label: String::from_str(label),
            };
            let ghost tv = trigger@;
            let markers = vec![trigger];
            assert(spec_triggers(markers@) =~= seq![tv]);
            let post_buffer: Vec<CapturedFrame> = Vec::new();
            assert(spec_frames(post_buffer@) =~= Seq::<FrameView>::empty());
            self.state = DashcamState::PostCapture {
                frames_remaining: 0,
                tier: DashcamTier::Deliberate,
                pre_buffer,
                post_buffer,
                markers,
                last_system_trigger_frame: 0,
                force_close_at_frame: None,
            };
        }
        self.close_clip()
    }

    /// One physics tick at `current_frame`: closes a due system clip (returned),
    /// then counts the frame; the flag says whether to capture this frame.
    pub fn physics_tick(&mut self, current_frame: u64) -> (r: (Option<ClipPlan>, bool))
        requires
            old(self).wf(),
            old(self)@.frame_counter < u32::MAX,
        ensures
            final(self).wf(),
            final(self)@ == spec_tick(old(self)@, current_frame).0,
            r.1 == spec_tick(old(self)@, current_frame).2,
            match spec_tick(old(self)@, current_frame).1 {
                Some(c) => r.0 matches Some(p) && spec_plan_is(p, c),
                None => r.0 is None,
            },
    {
        let due = match &self.state {
            DashcamState::PostCapture { tier: DashcamTier::System, force_close_at_frame: Some(close_frame), .. } => current_frame >= *close_frame,
            _ => false,
        };
        let flushed = if due {
            self.close_clip()
        } else {
            None
        };
        if matches!(self.state, DashcamState::Disabled) {
            return (flushed, false);
        }
        self.frame_counter = self.frame_counter + 1;
        let capture = if self.config.capture_interval == 0 {
            self.frame_counter == 0
        } else {
            self.frame_counter % self.config.capture_interval == 0
        };
        (flushed, capture)
    }

    /// Ingest a captured frame into the ring buffer and the open clip; returns
    /// the clip when this frame completes its post-window.
    pub fn ingest(&mut self, captured: CapturedFrame) -> (plan: Option<ClipPlan>)
        requires
            old(self).wf(),
            captured.data@.len() <= MAX_FRAME_BYTES,
        ensures
            final(self).wf(),
            final(self)@ == spec_ingest(old(self)@, captured@).0,
            match spec_ingest(old(self)@, captured@).1 {
                Some(c) => plan matches Some(p) && spec_plan_is(p, c),
                None => plan is None,
            },
    {
        let len = captured.data.len() as u64;
        if self.avg_frame_bytes == 0 {
            self.avg_frame_bytes = len;
        } else {
            self.avg_frame_bytes = (self.avg_frame_bytes * 19 + len) / 20;
        }
        let ghost f = captured@;
        let copy = captured.duplicate();
        proof {
            lemma_total_bytes_push(spec_frames(self.ring_buffer@), f);
        }
        self.ring_buffer_bytes = self.ring_buffer_bytes + len;
        self.ring_buffer.push_back(copy);
        assert(spec_frames(self.ring_buffer@) =~= spec_frames(old(self).ring_buffer@).push(f));
        self.enforce_ring_byte_cap();
        let mut state = DashcamState::Buffering;
        std::mem::swap(&mut state, &mut self.state);
        match state {
            DashcamState::PostCapture {
                frames_remaining,
                tier,
                pre_buffer,
                mut post_buffer,
                markers,
                last_system_trigger_frame,
                force_close_at_frame,
            } => {
                let ghost old_post = spec_frames(post_buffer@);
                post_buffer.push(captured);
                assert(spec_frames(post_buffer@) =~= old_post.push(f));
                let remaining = if frames_remaining > 0 {
                    frames_remaining - 1
                } else {
                    0
                };
                if remaining == 0 {
                    Some(build_plan(tier, pre_buffer, post_buffer, markers))
                } else {
                    self.state = DashcamState::PostCapture {
                        frames_remaining: remaining,
                        tier,
                        pre_buffer,
                        post_buffer,
                        markers,
                        last_system_trigger_frame,
                        force_close_at_frame,
                    };
                    None
                }
            },
            other => {
                self.state = other;
                None
            },
        }
    }

    /// Evict oldest ring buffer frames until within the frame cap and byte cap.
    fn enforce_ring_byte_cap(&mut self)
        requires
            old(self).ring_buffer_bytes == spec_total_bytes(spec_frames(old(self).ring_buffer@)),
            old(self).avg_frame_bytes <= MAX_FRAME_BYTES,
        ensures
            final(self).wf(),
            final(self)@ == (DashcamView {
                ring: spec_evict(
                    spec_frames(old(self).ring_buffer@),
                    spec_ring_cap_frames(old(self).config, old(self).physics_fps, old(self).avg_frame_bytes as int),
                    spec_byte_cap(old(self).config),
                ),
                ring_bytes: spec_total_bytes(
                    spec_evict(
                        spec_frames(old(self).ring_buffer@),
                        spec_ring_cap_frames(old(self).config, old(self).physics_fps, old(self).avg_frame_bytes as int),
                        spec_byte_cap(old(self).config),
                    ),
                ),
                ..old(self)@
            }),
    {
        let byte_cap = self.config.byte_cap_mb as u64 * 1024 * 1024;
        let frame_cap = ring_cap_frames(&self.config, self.physics_fps, self.avg_frame_bytes);
        let ghost start = spec_frames(self.ring_buffer@);
        proof {
            lemma_evict_bounds(start, frame_cap as int, byte_cap as int);
        }
        while self.ring_buffer.len() as u64 > frame_cap
            || (self.ring_buffer_bytes > byte_cap && self.ring_buffer.len() > 0)
            invariant
                self.ring_buffer_bytes == spec_total_bytes(spec_frames(self.ring_buffer@)),
                spec_evict(spec_frames(self.ring_buffer@), frame_cap as int, byte_cap as int)
                    == spec_evict(start, frame_cap as int, byte_cap as int),
                frame_cap >= 1,
                self.config == old(self).config,
                self.state@ == old(self).state@,
                self.avg_frame_bytes == old(self).avg_frame_bytes,
                self.physics_fps == old(self).physics_fps,
                self.frame_counter == old(self).frame_counter,
                frame_cap == spec_ring_cap_frames(old(self).config, old(self).physics_fps, old(self).avg_frame_bytes as int),
                byte_cap == spec_byte_cap(old(self).config),
            decreases self.ring_buffer@.len(),
        {
            let ghost before = spec_frames(self.ring_buffer@);
            if let Some(evicted) = self.ring_buffer.pop_front() {
                assert(spec_frames(self.ring_buffer@) =~= before.drop_first());
                self.ring_buffer_bytes = if self.ring_buffer_bytes >= evicted.data.len() as u64 {
                    self.ring_buffer_bytes - evicted.data.len() as u64
                } else {
                    0
                };
            }
        }
        proof {
            let r = spec_frames(self.ring_buffer@);
            assert(spec_evict(r, frame_cap as int, byte_cap as int) == r);
            lemma_evict_bounds(start, frame_cap as int, byte_cap as int);
            assert(byte_cap <= RING_BYTES_BOUND);
        }
    }
}

/// Assemble the stored form of a clip.
fn build_plan(
    tier: DashcamTier,
    pre_buffer: Vec<CapturedFrame>,
    post_buffer: Vec<CapturedFrame>,
    markers: Vec<DashcamTrigger>,
) -> (p: ClipPlan)
    ensures
        spec_plan_is(p, spec_clip_of(tier, spec_frames(pre_buffer@), spec_frames(post_buffer@), spec_triggers(markers@))),
{
    let mut frames = pre_buffer;
    let ghost pre = spec_frames(frames@);
    let ghost post = spec_frames(post_buffer@);
    let mut rest = post_buffer;
    let ghost rest0 = rest@;
    let mut moved: Vec<CapturedFrame> = Vec::new();
    let mut i: usize = 0;
    while i < rest.len()
        invariant
            i <= rest@.len(),
            spec_frames(frames@) == pre + post.take(i as int),
            spec_frames(rest@) == post,
        decreases rest.len() - i,
    {
        let f = rest[i].duplicate();
        let ghost fv = f@;
        let ghost before = spec_frames(frames@);
        assert(fv == post[i as int]);
        frames.push(f);
        assert(spec_frames(frames@) =~= before.push(fv));
        assert(spec_frames(frames@) =~= pre + post.take(i + 1));
        i = i + 1;
    }
    assert(post.take(post.len() as int) =~= post);
    let n = frames.len();
    let (first_frame, first_ts, last_frame, last_ts) = if n == 0 {
        (0, 0, 0, 0)
    } else {
        (frames[0].frame, frames[0].timestamp_ms, frames[n - 1].frame, frames[n - 1].timestamp_ms)
    };
    ClipPlan {
        tier,
        frames,
        markers,
        first_frame,
        last_frame,
        first_timestamp_ms: first_ts,
        last_timestamp_ms: last_ts,
        total_frames: n as u32,
    }
}

} // verus!

verus! {

/// A deliberate clip stays deliberate whatever marker arrives; a deliberate
/// marker turns any open clip deliberate, extends it to at least the
/// deliberate post-window and cancels its force-close.
pub proof fn lemma_tier_never_downgrades(
    v: DashcamView,
    source: Seq<char>,
    label: Seq<char>,
    frame: u64,
    timestamp_ms: u64,
)
    requires
        v.phase is PostCapture,
    ensures
        ({
            let w = spec_on_marker(v, source, label, frame, timestamp_ms).0;
            &&& w.phase is PostCapture
            &&& (v.phase->PostCapture_tier == DashcamTier::Deliberate) ==> w.phase->PostCapture_tier
                == DashcamTier::Deliberate
            &&& spec_tier_of(source) == DashcamTier::Deliberate ==> {
                &&& w.phase->PostCapture_tier == DashcamTier::Deliberate
                &&& w.phase->PostCapture_force_close_at_frame is None
                &&& w.phase->PostCapture_frames_remaining >= spec_post_window_frames(
                    v.config,
                    v.physics_fps,
                    DashcamTier::Deliberate,
                )
            }
        }),
{
}

/// Every marker that reaches an open clip is recorded on it, in order, and
/// neither the pre-trigger snapshot nor the captured tail changes.
pub proof fn lemma_marker_recorded(
    v: DashcamView,
    source: Seq<char>,
    label: Seq<char>,
    frame: u64,
    timestamp_ms: u64,
)
    requires
        v.phase is PostCapture,
    ensures
        ({
            let w = spec_on_marker(v, source, label, frame, timestamp_ms).0;
            &&& w.phase->PostCapture_markers == v.phase->PostCapture_markers.push(
                TriggerView { frame, timestamp_ms, source, label },
            )
            &&& w.phase->PostCapture_pre == v.phase->PostCapture_pre
            &&& w.phase->PostCapture_post == v.phase->PostCapture_post
            &&& w.ring == v.ring
            &&& spec_on_marker(v, source, label, frame, timestamp_ms).1 is None
        }),
{
}

/// A system marker that arrives within the minimum interval of the last
/// counted one (or before it) only annotates: the window and the rate-limit
/// frame stay.
pub proof fn lemma_system_markers_rate_limited(
    v: DashcamView,
    label: Seq<char>,
    frame: u64,
    timestamp_ms: u64,
)
    requires
        v.phase is PostCapture,
        (if frame >= v.phase->PostCapture_last_system_trigger_frame {
            frame - v.phase->PostCapture_last_system_trigger_frame
        } else {
            0
        }) < v.config.system_min_interval_sec * v.physics_fps,
    ensures
        ({
            let w = spec_on_marker(v, "system"@, label, frame, timestamp_ms).0;
            &&& w.phase->PostCapture_frames_remaining == v.phase->PostCapture_frames_remaining
            &&& w.phase->PostCapture_last_system_trigger_frame
                == v.phase->PostCapture_last_system_trigger_frame
            &&& w.phase->PostCapture_tier == v.phase->PostCapture_tier
        }),
{
}

/// A system marker on an open clip that arrives at least the minimum
/// interval after the last counted system marker extends the window: at
/// least the system post-window remains (and never less than before), its
/// frame becomes the last counted one, and it is recorded on the clip.
pub proof fn lemma_system_marker_extends_window(
    v: DashcamView,
    label: Seq<char>,
    frame: u64,
    timestamp_ms: u64,
)
    requires
        v.phase is PostCapture,
        (if frame >= v.phase->PostCapture_last_system_trigger_frame {
            frame - v.phase->PostCapture_last_system_trigger_frame
        } else {
            0
        }) >= v.config.system_min_interval_sec * v.physics_fps,
    ensures
        ({
            let w = spec_on_marker(v, "system"@, label, frame, timestamp_ms).0;
            let old_remaining = v.phase->PostCapture_frames_remaining;
            let window = spec_post_window_frames(v.config, v.physics_fps, DashcamTier::System);
            &&& w.phase is PostCapture
            &&& w.phase->PostCapture_frames_remaining >= window
            &&& w.phase->PostCapture_frames_remaining >= old_remaining
            &&& (w.phase->PostCapture_frames_remaining == old_remaining
                || w.phase->PostCapture_frames_remaining == window)
            &&& w.phase->PostCapture_last_system_trigger_frame == frame
            &&& w.phase->PostCapture_tier == v.phase->PostCapture_tier
            &&& w.phase->PostCapture_markers == v.phase->PostCapture_markers.push(
                TriggerView { frame, timestamp_ms, source: "system"@, label },
            )
        }),
{
}

/// A marker while buffering opens a clip whose pre-trigger part is the ring
/// as it was, with that marker as its only annotation; only system clips get
/// a force-close frame.
pub proof fn lemma_marker_opens_clip(
    v: DashcamView,
    source: Seq<char>,
    label: Seq<char>,
    frame: u64,
    timestamp_ms: u64,
)
    requires
        v.phase is Buffering,
    ensures
        ({
            let (w, started) = spec_on_marker(v, source, label, frame, timestamp_ms);
            &&& started == Some((frame, spec_tier_of(source)))
            &&& w.phase is PostCapture
            &&& w.phase->PostCapture_pre == v.ring
            &&& w.phase->PostCapture_post.len() == 0
            &&& w.phase->PostCapture_markers == seq![TriggerView { frame, timestamp_ms, source, label }]
            &&& (w.phase->PostCapture_force_close_at_frame is Some <==> spec_tier_of(source)
                == DashcamTier::System)
        }),
{
}

/// Markers are ignored while disabled.
pub proof fn lemma_disabled_ignores_markers(
    v: DashcamView,
    source: Seq<char>,
    label: Seq<char>,
    frame: u64,
    timestamp_ms: u64,
)
    requires
        v.phase is Disabled,
    ensures
        spec_on_marker(v, source, label, frame, timestamp_ms) == (v, None::<(u64, DashcamTier)>),
{
}

/// The post-window is never shorter than `min_after_sec` worth of frames.
pub proof fn lemma_post_window_floor(c: DashcamConfig, physics_fps: u32, tier: DashcamTier)
    requires
        spec_window_fits(c, physics_fps, tier),
    ensures
        spec_post_window_frames(c, physics_fps, tier) >= (c.min_after_sec * spec_rate(physics_fps))
            / spec_rate(c.capture_interval),
{
    let f = spec_rate(physics_fps);
    let iv = spec_rate(c.capture_interval);
    assert((c.min_after_sec * f) / iv <= c.min_after_sec * f) by (nonlinear_arith)
        requires
            iv >= 1,
            c.min_after_sec * f >= 0,
    ;
    assert((spec_post_sec(c, tier) * f) / iv <= spec_post_sec(c, tier) * f) by (nonlinear_arith)
        requires
            iv >= 1,
            spec_post_sec(c, tier) * f >= 0,
    ;
}

/// After ingesting a frame, the ring keeps the most recent frames (a suffix
/// of the old ring followed by the new frame) within the frame cap, and
/// within the byte cap unless it is empty; its byte count is exact.
pub proof fn lemma_ingest_respects_caps(v: DashcamView, f: FrameView)
    ensures
        ({
            let w = spec_ingest(v, f).0;
            let cap = spec_ring_cap_frames(
                v.config,
                v.physics_fps,
                spec_next_avg(v.avg_frame_bytes, f.data.len()) as int,
            );
            &&& w.ring.len() == 0 || (w.ring.len() <= cap && spec_total_bytes(w.ring) <= spec_byte_cap(
                v.config,
            ))
            &&& exists|k: int| 0 <= k <= v.ring.len() + 1 && #[trigger] v.ring.push(f).skip(k) == w.ring
            &&& w.ring_bytes == spec_total_bytes(w.ring)
        }),
{
    let avg = spec_next_avg(v.avg_frame_bytes, f.data.len());
    let cap = spec_ring_cap_frames(v.config, v.physics_fps, avg as int);
    lemma_evict_bounds(v.ring.push(f), cap, spec_byte_cap(v.config));
}

/// An open clip, once its window is spent or it is flushed, is stored as the
/// pre-trigger snapshot followed by the captured tail, with all its markers,
/// and the dashcam goes back to buffering.
pub proof fn lemma_close_stores_whole_clip(v: DashcamView)
    requires
        v.phase is PostCapture,
    ensures
        ({
            let (w, clip) = spec_close(v);
            &&& w.phase is Buffering
            &&& w.ring == v.ring
            &&& clip == Some(
                ClipView {
                    tier: v.phase->PostCapture_tier,
                    frames: v.phase->PostCapture_pre + v.phase->PostCapture_post,
                    markers: v.phase->PostCapture_markers,
                },
            )
        }),
{
}

/// Disabling drops the ring and any open clip; enabling afterwards starts
/// buffering from an empty ring.
pub proof fn lemma_disable_then_enable(v: DashcamView)
    ensures
        spec_set_enabled(v, false).phase is Disabled,
        spec_set_enabled(v, false).ring.len() == 0,
        spec_set_enabled(spec_set_enabled(v, false), true).phase is Buffering,
        spec_set_enabled(spec_set_enabled(v, false), true).ring.len() == 0,
{
}

} // verus!
