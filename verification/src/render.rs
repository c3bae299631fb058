//! What the audio callback may render, and from which of ACRE's decisions.
//!
//! The functions of this module neither allocate nor wait. Numbers of single
//! precision are bit patterns; the arithmetic on them is the renderer's.

use crate::audio_snapshot::{
    self, AcreAudioSnapshot, AcreAudioUpdate, AcreSpeakerSnapshot, PlaneUpdateView, SnapshotView,
    SpeakerView,
};
use crate::binary32::{self, is_equal, is_finite, is_in_unit_interval, ONE, ZERO};
use crate::control::LEASE;
use crate::speaking::{
    self, AcreListenerPose, AcreListenerState, AcreSpeakerAudioUpdate, AcreSpeakerVector,
    AudioUpdateView, DecisionView, RadioReceptionPath, SpatialSpeakingKind, SpeakingDecision,
    SpeakingUpdate, UpdateView,
};
use vstd::prelude::*;
use vstd::std_specs::cmp::PartialEqSpecImpl;

verus! {

/// How long a decision is valid, in nanoseconds.
pub const ACRE_AUDIO_STATE_TTL: u64 = 2_000_000_000;

/// The bit pattern of one thousandth, up to which a volume is silence.
pub const MIN_AUDIBLE_VOLUME: u32 = 0x3a83_126f;

/// How many speakers have a state of their own.
pub const RENDER_SLOTS: u32 = 128;

/// The longest buffer, in samples.
pub const MAX_BUFFER_SAMPLES: usize = 65_535;

pub const MIN_SAMPLE_RATE: u32 = 8_000;

pub const MAX_SAMPLE_RATE: u32 = 192_000;

/// Whether the pattern is a number above the silent volumes.
pub open spec fn audible(volume: u32) -> bool {
    MIN_AUDIBLE_VOLUME < volume < 0x7f80_0000
}

fn is_audible_volume(volume: u32) -> (answer: bool)
    ensures
        answer == audible(volume),
{
    MIN_AUDIBLE_VOLUME < volume && volume < 0x7f80_0000
}

/// Everything that rendering a voice in space starts from.
#[derive(Clone, Copy, Debug)]
pub struct SpatialSource {
    pub listener: AcreListenerState,
    pub curve_scale: u32,
    pub speaks_babel: bool,
    pub volume: u32,
    pub position: AcreSpeakerVector,
    pub head_vector: AcreSpeakerVector,
}

/// Everything that rendering one radio path starts from.
#[derive(Clone, Copy, Debug)]
pub struct RadioSource {
    pub path_index: usize,
    pub path: RadioReceptionPath,
    pub listener: AcreListenerPose,
    pub head_vector: AcreSpeakerVector,
}

/// Everything that rendering a voice without a place starts from.
#[derive(Clone, Copy, Debug)]
pub struct AcreMonitorPlan {
    pub speaks_babel: bool,
    pub gain: u32,
}

/// Whether two sources in space are equal as numbers.
pub open spec fn same_spatial_source(a: SpatialSource, b: SpatialSource) -> bool {
    &&& speaking::same_listener(a.listener, b.listener)
    &&& binary32::equal(a.curve_scale, b.curve_scale)
    &&& a.speaks_babel == b.speaks_babel
    &&& binary32::equal(a.volume, b.volume)
    &&& speaking::same_vector(a.position, b.position)
    &&& speaking::same_vector(a.head_vector, b.head_vector)
}

impl PartialEq for SpatialSource {
    fn eq(&self, other: &Self) -> (same: bool) {
        self.listener == other.listener && is_equal(self.curve_scale, other.curve_scale)
            && self.speaks_babel == other.speaks_babel && is_equal(self.volume, other.volume)
            && self.position == other.position && self.head_vector == other.head_vector
    }
}

impl PartialEqSpecImpl for SpatialSource {
    open spec fn obeys_eq_spec() -> bool {
        true
    }

    open spec fn eq_spec(&self, other: &Self) -> bool {
        same_spatial_source(*self, *other)
    }
}

/// Whether two radio sources are equal as numbers.
pub open spec fn same_radio_source(a: RadioSource, b: RadioSource) -> bool {
    &&& a.path_index == b.path_index
    &&& speaking::same_path(a.path, b.path)
    &&& speaking::same_pose(a.listener, b.listener)
    &&& speaking::same_vector(a.head_vector, b.head_vector)
}

impl PartialEq for RadioSource {
    fn eq(&self, other: &Self) -> (same: bool) {
        self.path_index == other.path_index && self.path == other.path && self.listener
            == other.listener && self.head_vector == other.head_vector
    }
}

impl PartialEqSpecImpl for RadioSource {
    open spec fn obeys_eq_spec() -> bool {
        true
    }

    open spec fn eq_spec(&self, other: &Self) -> bool {
        same_radio_source(*self, *other)
    }
}

/// Whether two plans are equal as numbers.
pub open spec fn same_plan(a: AcreMonitorPlan, b: AcreMonitorPlan) -> bool {
    a.speaks_babel == b.speaks_babel && binary32::equal(a.gain, b.gain)
}

impl PartialEq for AcreMonitorPlan {
    fn eq(&self, other: &Self) -> (same: bool) {
        self.speaks_babel == other.speaks_babel && is_equal(self.gain, other.gain)
    }
}

impl PartialEqSpecImpl for AcreMonitorPlan {
    open spec fn obeys_eq_spec() -> bool {
        true
    }

    open spec fn eq_spec(&self, other: &Self) -> bool {
        same_plan(*self, *other)
    }
}

/// The listener, if what is known of them is fresh.
pub open spec fn fresh_listener(s: SnapshotView, now: u64) -> Option<AcreListenerState> {
    match s.listener {
        Some(listener) => if audio_snapshot::fresh(
            listener.published_at,
            ACRE_AUDIO_STATE_TTL,
            now,
        ) {
            Some(listener.state)
        } else {
            None
        },
        None => None,
    }
}

/// The speaker, if the decision about them is fresh.
pub open spec fn fresh_speaker(s: SnapshotView, id: u32, now: u64) -> Option<SpeakerView> {
    if s.speakers.contains_key(id) && audio_snapshot::fresh(
        s.speakers[id].published_at,
        ACRE_AUDIO_STATE_TTL,
        now,
    ) {
        Some(s.speakers[id])
    } else {
        None
    }
}

/// What an audible spatial decision starts from. `intercom` tells the
/// intercom's decisions from those of direct and Zeus speech.
pub open spec fn spatial_of(s: SnapshotView, id: u32, now: u64, intercom: bool) -> Option<
    SpatialSource,
> {
    match (fresh_listener(s, now), fresh_speaker(s, id, now)) {
        (Some(listener), Some(speaker)) => match speaker.decision {
            DecisionView::Spatial { kind, volume, position, head_vector } => if (kind
                == SpatialSpeakingKind::Intercom) == intercom && audible(volume) {
                Some(
                    SpatialSource {
                        listener,
                        curve_scale: speaker.curve_scale,
                        speaks_babel: speaker.speaks_babel,
                        volume,
                        position,
                        head_vector,
                    },
                )
            } else {
                None
            },
            _ => None,
        },
        _ => None,
    }
}

/// The reception paths of a fresh radio decision that fits into `capacity`
/// paths, with the listener's pose.
pub open spec fn radio_of(s: SnapshotView, id: u32, now: u64, capacity: usize) -> Option<
    (AcreListenerPose, Seq<RadioReceptionPath>),
> {
    match (fresh_listener(s, now), fresh_speaker(s, id, now)) {
        (Some(listener), Some(speaker)) => match speaker.decision {
            DecisionView::Radio { paths } => if paths.len() <= capacity {
                Some((listener.pose, paths))
            } else {
                None
            },
            _ => None,
        },
        _ => None,
    }
}

/// The origin.
pub open spec fn origin() -> AcreSpeakerVector {
    AcreSpeakerVector { x: ZERO, z: ZERO, y: ZERO }
}

/// Straight ahead.
pub open spec fn forward() -> AcreSpeakerVector {
    AcreSpeakerVector { x: ZERO, z: ONE, y: ZERO }
}

/// What rendering a radio path starts from, if it can be heard at all.
/// Loudspeakers stand in the world; a headset's paths are offsets from the
/// listener.
pub open spec fn path_source(
    pose: AcreListenerPose,
    path: RadioReceptionPath,
    path_index: usize,
) -> Option<RadioSource> {
    if audible(path.volume) && binary32::in_unit_interval(path.signal_quality) && binary32::finite(
        path.signal_model,
    ) {
        Some(
            RadioSource {
                path_index,
                path,
                listener: if path.loudspeaker {
                    pose
                } else {
                    AcreListenerPose { position: origin(), head_vector: forward() }
                },
                head_vector: forward(),
            },
        )
    } else {
        None
    }
}

/// What a fresh decision of a spectator or a God starts from.
pub open spec fn monitor_of(s: SnapshotView, id: u32, now: u64) -> Option<AcreMonitorPlan> {
    match fresh_speaker(s, id, now) {
        Some(speaker) => {
            let volume = match speaker.decision {
                DecisionView::Spectator { volume } => Some(volume),
                DecisionView::God { volume } => Some(volume),
                _ => None,
            };
            match volume {
                Some(volume) => if audible(volume) {
                    Some(
                        AcreMonitorPlan {
                            speaks_babel: speaker.speaks_babel,
                            gain: if volume > ONE {
                                ONE
                            } else {
                                volume
                            },
                        },
                    )
                } else {
                    None
                },
                None => None,
            }
        },
        None => None,
    }
}

/// Whether the renderers take a buffer of that shape.
pub open spec fn fit_shape(samples: usize, channels: usize) -> bool {
    0 < samples <= MAX_BUFFER_SAMPLES && 1 <= channels <= 2 && samples as int % channels as int
        == 0
}

/// Whether the renderers take a buffer of that shape.
pub fn is_fit_shape(samples: usize, channels: usize) -> (answer: bool)
    ensures
        answer == fit_shape(samples, channels),
{
    0 < samples && samples <= MAX_BUFFER_SAMPLES && 1 <= channels && channels <= 2 && samples
        % channels == 0
}

/// Whether the radio filters take the sample rate.
pub open spec fn fit_sample_rate(rate: u32) -> bool {
    MIN_SAMPLE_RATE <= rate <= MAX_SAMPLE_RATE
}

/// Whether the radio filters take the sample rate.
pub fn is_fit_sample_rate(rate: u32) -> (answer: bool)
    ensures
        answer == fit_sample_rate(rate),
{
    MIN_SAMPLE_RATE <= rate && rate <= MAX_SAMPLE_RATE
}

/// The listener, if what is known of them is fresh.
fn listener_of(snapshot: &AcreAudioSnapshot, now: u64) -> (listener: Option<AcreListenerState>)
    ensures
        listener == fresh_listener(snapshot@, now),
{
    match snapshot.listener() {
        Some(listener) => if listener.is_fresh(ACRE_AUDIO_STATE_TTL, now) {
            Some(listener.state())
        } else {
            None
        },
        None => None,
    }
}

/// The speaker, if the decision about them is fresh.
fn speaker_of(snapshot: &AcreAudioSnapshot, id: u32, now: u64) -> (speaker: Option<
    &AcreSpeakerSnapshot,
>)
    ensures
        match speaker {
            Some(speaker) => fresh_speaker(snapshot@, id, now) == Some(speaker@),
            None => fresh_speaker(snapshot@, id, now) is None,
        },
{
    match snapshot.speaker(id) {
        Some(speaker) => if speaker.is_fresh(ACRE_AUDIO_STATE_TTL, now) {
            Some(speaker)
        } else {
            None
        },
        None => None,
    }
}

/// What an audible spatial decision starts from.
fn spatial_source(snapshot: &AcreAudioSnapshot, id: u32, now: u64, intercom: bool) -> (source: Option<
    SpatialSource,
>)
    ensures
        source == spatial_of(snapshot@, id, now, intercom),
{
    let listener: AcreListenerState = match listener_of(snapshot, now) {
        Some(listener) => listener,
        None => {
            return None;
        },
    };
    let speaker: &AcreSpeakerSnapshot = match speaker_of(snapshot, id, now) {
        Some(speaker) => speaker,
        None => {
            return None;
        },
    };
    match speaker.decision() {
        SpeakingDecision::Spatial { kind, volume, position, head_vector } => if (*kind
            == SpatialSpeakingKind::Intercom) == intercom && is_audible_volume(*volume) {
            Some(
                SpatialSource {
                    listener,
                    curve_scale: speaker.curve_scale(),
                    speaks_babel: speaker.speaks_babel(),
                    volume: *volume,
                    position: *position,
                    head_vector: *head_vector,
                },
            )
        } else {
            None
        },
        _ => None,
    }
}

/// What rendering direct or Zeus speech starts from. A missing, stale, silent
/// or other decision yields none.
pub fn direct_source(snapshot: &AcreAudioSnapshot, id: u32, now: u64) -> (source: Option<
    SpatialSource,
>)
    ensures
        source == spatial_of(snapshot@, id, now, false),
{
    spatial_source(snapshot, id, now, false)
}

/// What rendering the intercom starts from. A missing, stale, silent or other
/// decision yields none.
pub fn intercom_source(snapshot: &AcreAudioSnapshot, id: u32, now: u64) -> (source: Option<
    SpatialSource,
>)
    ensures
        source == spatial_of(snapshot@, id, now, true),
{
    spatial_source(snapshot, id, now, true)
}

/// The reception paths of a fresh radio decision, with the listener's pose.
pub fn radio_paths(snapshot: &AcreAudioSnapshot, id: u32, now: u64, capacity: usize) -> (paths: Option<
    (AcreListenerPose, &Vec<RadioReceptionPath>),
>)
    ensures
        match paths {
            Some((pose, paths)) => radio_of(snapshot@, id, now, capacity) == Some((pose, paths@)),
            None => radio_of(snapshot@, id, now, capacity) is None,
        },
{
    let listener: AcreListenerState = match listener_of(snapshot, now) {
        Some(listener) => listener,
        None => {
            return None;
        },
    };
    let speaker: &AcreSpeakerSnapshot = match speaker_of(snapshot, id, now) {
        Some(speaker) => speaker,
        None => {
            return None;
        },
    };
    match speaker.decision() {
        SpeakingDecision::Radio { paths } => if paths.len() <= capacity {
            Some((listener.pose, paths))
        } else {
            None
        },
        _ => None,
    }
}

/// What rendering a radio path starts from, if it can be heard at all.
pub fn radio_source(pose: AcreListenerPose, path: &RadioReceptionPath, path_index: usize) -> (source:
    Option<RadioSource>)
    ensures
        source == path_source(pose, *path, path_index),
{
    if !is_audible_volume(path.volume) || !is_in_unit_interval(path.signal_quality)
        || !is_finite(path.signal_model) {
        return None;
    }
    let ahead = AcreSpeakerVector { x: ZERO, z: ONE, y: ZERO };
    let listener: AcreListenerPose = if path.loudspeaker {
        pose
    } else {
        AcreListenerPose {
            position: AcreSpeakerVector { x: ZERO, z: ZERO, y: ZERO },
            head_vector: ahead,
        }
    };
    Some(RadioSource { path_index, path: *path, listener, head_vector: ahead })
}

/// What rendering a spectator or a God starts from. ACRE gave these modes no
/// place, so no listener is needed.
pub fn monitor_plan(snapshot: &AcreAudioSnapshot, id: u32, now: u64) -> (plan: Option<
    AcreMonitorPlan,
>)
    ensures
        plan == monitor_of(snapshot@, id, now),
{
    let speaker: &AcreSpeakerSnapshot = match speaker_of(snapshot, id, now) {
        Some(speaker) => speaker,
        None => {
            return None;
        },
    };
    let volume: u32 = match speaker.decision() {
        SpeakingDecision::Spectator { volume } => *volume,
        SpeakingDecision::God { volume } => *volume,
        _ => {
            return None;
        },
    };
    if !is_audible_volume(volume) {
        return None;
    }
    let gain: u32 = if volume > ONE {
        ONE
    } else {
        volume
    };
    Some(AcreMonitorPlan { speaks_babel: speaker.speaks_babel(), gain })
}

/// The renderers.
#[derive(Clone, Copy, Debug, PartialEq, Eq, Structural)]
pub enum RenderKind {
    Silent,
    Spatial,
    Intercom,
    Radio,
    Monitor,
}

/// The renderer of a decision.
pub open spec fn kind_of(decision: DecisionView) -> RenderKind {
    match decision {
        DecisionView::Spatial { kind, .. } => if kind == SpatialSpeakingKind::Intercom {
            RenderKind::Intercom
        } else {
            RenderKind::Spatial
        },
        DecisionView::Radio { .. } => RenderKind::Radio,
        DecisionView::God { .. } => RenderKind::Monitor,
        DecisionView::Spectator { .. } => RenderKind::Monitor,
        DecisionView::Mute => RenderKind::Silent,
    }
}

/// Whom and what a slot of the renderer was last used for.
#[derive(Clone, Copy, Debug, PartialEq, Eq, Structural)]
pub struct SlotKey {
    pub id: u32,
    pub generation: u64,
    pub kind: RenderKind,
}

/// What a voice is rendered as, if it may be heard: the speaker's lease must
/// not have run out, and ACRE must have decided about them.
pub open spec fn routed(lease: Option<u64>, s: SnapshotView, id: u32, now: u64) -> Option<SlotKey> {
    if lease is Some && now < lease->0 + LEASE && s.speakers.contains_key(id) {
        Some(
            SlotKey { id, generation: s.generation, kind: kind_of(s.speakers[id].decision) },
        )
    } else {
        None
    }
}

/// What a voice is rendered as, if it may be heard.
pub fn route(lease: Option<u64>, snapshot: &AcreAudioSnapshot, id: u32, now: u64) -> (key: Option<
    SlotKey,
>)
    ensures
        key == routed(lease, snapshot@, id, now),
{
    match lease {
        Some(refreshed) => if now.saturating_sub(refreshed) >= LEASE {
            return None;
        },
        None => {
            return None;
        },
    }
    let speaker: &AcreSpeakerSnapshot = match snapshot.speaker(id) {
        Some(speaker) => speaker,
        None => {
            return None;
        },
    };
    let kind: RenderKind = match speaker.decision() {
        SpeakingDecision::Spatial { kind, volume, position, head_vector } => if *kind
            == SpatialSpeakingKind::Intercom {
            RenderKind::Intercom
        } else {
            RenderKind::Spatial
        },
        SpeakingDecision::Radio { paths } => RenderKind::Radio,
        SpeakingDecision::God { volume } => RenderKind::Monitor,
        SpeakingDecision::Spectator { volume } => RenderKind::Monitor,
        SpeakingDecision::Mute => RenderKind::Silent,
    };
    Some(SlotKey { id, generation: snapshot.generation(), kind })
}

/// The slot of a speaker.
pub open spec fn slot_for(id: u32) -> u32 {
    id % RENDER_SLOTS
}

/// The slot of a speaker.
pub fn slot_of(id: u32) -> (slot: u32)
    ensures
        slot == slot_for(id),
        slot < RENDER_SLOTS,
{
    id % RENDER_SLOTS
}

/// Whether what a slot was last used for could be heard in `next`.
pub open spec fn leaves_traces(last: SlotKey, next: SlotKey) -> bool {
    last != next
}

/// Whether a slot must be reset before it renders for `next`: what another
/// speaker, another generation or another renderer left must not be heard.
pub fn must_reset(last: SlotKey, next: SlotKey) -> (answer: bool)
    ensures
        answer == leaves_traces(last, next),
{
    last != next
}

/// How many samples a callback's buffer has, if so many of that size can exist.
pub open spec fn buffer_size(frames: u32, channels: u16, sample_bytes: usize) -> Option<usize> {
    let total = frames as int * channels as int;
    if sample_bytes > 0 && total <= isize::MAX as int / sample_bytes as int {
        Some(total as usize)
    } else {
        None
    }
}

/// How many samples a callback's buffer has, if so many of that size can exist.
pub fn buffer_samples(frames: u32, channels: u16, sample_bytes: usize) -> (samples: Option<usize>)
    ensures
        samples == buffer_size(frames, channels, sample_bytes),
{
    assert(frames as int * channels as int <= 0xffff_ffff * 0xffff) by (nonlinear_arith)
        requires
            0 <= frames <= 0xffff_ffff,
            0 <= channels <= 0xffff,
    ;
    assert(0 <= frames as int * channels as int) by (nonlinear_arith)
        requires
            0 <= frames,
            0 <= channels,
    ;
    let total: u64 = frames as u64 * channels as u64;
    if sample_bytes == 0 {
        return None;
    }
    let most: usize = isize::MAX as usize / sample_bytes;
    if total <= most as u64 {
        Some(total as usize)
    } else {
        None
    }
}

/// What the callback does with a source's buffer.
#[derive(Clone, Copy, Debug, PartialEq, Eq, Structural)]
pub enum SourceStep {
    /// The buffer stays as it is, and Mumble is told so.
    Untouched,
    Silence,
    Render,
}

/// What the callback does with a source's buffer.
pub open spec fn step_for(speech: bool, ready: bool, filtering: bool, overridden: bool) -> SourceStep {
    if speech && !ready {
        SourceStep::Silence
    } else if !speech || !filtering {
        SourceStep::Untouched
    } else if overridden {
        SourceStep::Silence
    } else {
        SourceStep::Render
    }
}

/// What the callback does with a source's buffer: notifications are left
/// alone; speech is silenced before the plugin is ready and while the game
/// overrides all sound, passes untouched while no game is connected, and is
/// rendered otherwise.
pub fn source_step(speech: bool, ready: bool, filtering: bool, overridden: bool) -> (step:
    SourceStep)
    ensures
        step == step_for(speech, ready, filtering, overridden),
{
    if !speech {
        SourceStep::Untouched
    } else if !ready {
        SourceStep::Silence
    } else if !filtering {
        SourceStep::Untouched
    } else if overridden {
        SourceStep::Silence
    } else {
        SourceStep::Render
    }
}

/// The update that silences a speaker.
pub open spec fn muted(id: u32) -> PlaneUpdateView {
    PlaneUpdateView::Speaker(
        AudioUpdateView {
            speaking: UpdateView {
                speaker_id: id,
                speaks_babel: false,
                decision: DecisionView::Mute,
            },
            curve_scale: ONE,
        },
    )
}

/// The update that silences a speaker.
pub fn mute(id: u32) -> (update: AcreAudioUpdate)
    ensures
        update@ == muted(id),
{
    AcreAudioUpdate::Speaker(
        AcreSpeakerAudioUpdate::from(
            SpeakingUpdate {
                speaker_id: id,
                speaks_babel: false,
                decision: SpeakingDecision::Mute,
            },
        ),
    )
}

/// A number modulo the size of a 32-bit word.
pub open spec fn word(n: int) -> u32 {
    (n % 0x1_0000_0000) as u32
}

/// The seed of a path's noise, which is never zero.
pub open spec fn seed_of(speaker_id: u32, path: u32) -> u32 {
    let mixed = word(word(speaker_id * 0x9e37_79b9) + word(path * 0x85eb_ca6b)) ^ 0xa341_316c;
    if mixed == 0 {
        1
    } else {
        mixed
    }
}

/// The seed of a path's noise.
pub fn path_seed(speaker_id: u32, path_index: usize) -> (seed: u32)
    ensures
        seed == seed_of(
            speaker_id,
            if path_index <= u32::MAX {
                path_index as u32
            } else {
                0
            },
        ),
        seed != 0,
{
    let path: u32 = if path_index as u64 <= u32::MAX as u64 {
        path_index as u32
    } else {
        0
    };
    let mixed: u32 = speaker_id.wrapping_mul(0x9e37_79b9).wrapping_add(
        path.wrapping_mul(0x85eb_ca6b),
    ) ^ 0xa341_316c;
    if mixed == 0 {
        1
    } else {
        mixed
    }
}

/// The state of a path's noise after another one.
pub open spec fn next_noise(state: u32) -> u32 {
    word(word(state * 1_664_525) + 1_013_904_223)
}

/// The level that a state of a path's noise stands for.
pub open spec fn noise_level(state: u32) -> int {
    state as int / 0x1_0000
}

/// Draws the next number of a path's noise: the new state, and a level out of
/// all 16-bit numbers.
pub fn draw_noise(state: u32) -> (drawn: (u32, u16))
    ensures
        drawn.0 == next_noise(state),
        drawn.1 == noise_level(next_noise(state)),
{
    let next: u32 = state.wrapping_mul(1_664_525).wrapping_add(1_013_904_223);
    (next, (next / 0x1_0000) as u16)
}

/// A sample that is held for a while, as its bit pattern.
#[derive(Clone, Copy, Debug)]
pub struct Foldback {
    pub value: u32,
    pub remaining: u8,
}

/// What is held once a sample was passed through, and what is heard of it.
pub open spec fn passed(held: Foldback, sample: u32, divisor: u8) -> (Foldback, u32) {
    if held.remaining == 0 {
        (
            Foldback {
                value: sample,
                remaining: if divisor == 0 {
                    0
                } else {
                    (divisor - 1) as u8
                },
            },
            sample,
        )
    } else {
        (Foldback { value: held.value, remaining: (held.remaining - 1) as u8 }, held.value)
    }
}

impl Foldback {
    /// Passes a sample through: each one that is taken stands for `divisor`
    /// samples.
    pub fn pass(&mut self, sample: u32, divisor: u8) -> (heard: u32)
        ensures
            (*final(self), heard) == passed(*old(self), sample, divisor),
    {
        if self.remaining == 0 {
            self.value = sample;
            self.remaining = divisor.saturating_sub(1);
            sample
        } else {
            self.remaining = self.remaining - 1;
            self.value
        }
    }
}

/// Whether the Babel effect is on, and for which sample rate its filters stand.
#[derive(Clone, Copy, Debug, PartialEq, Eq, Structural)]
pub struct BabelMode {
    pub sample_rate: u32,
    pub enabled: bool,
}

/// What preparing a buffer asks of the effect.
#[derive(Clone, Copy, Debug, PartialEq, Eq, Structural)]
pub enum BabelStep {
    /// The effect stays off.
    Off,
    /// The effect goes off: its history is cleared.
    TurnOff,
    /// The sample rate cannot be served: the history is cleared.
    Refuse,
    /// The effect stays on.
    On,
    /// The effect goes on: its history is cleared.
    TurnOn,
    /// The effect is on with new filters for another sample rate.
    Rebuild,
}

/// The effect once a buffer was prepared, and what that asks of it.
pub open spec fn babel_prepared(mode: BabelMode, rate: u32, wanted: bool) -> (BabelMode, BabelStep) {
    if !wanted {
        (
            BabelMode { enabled: false, ..mode },
            if mode.enabled {
                BabelStep::TurnOff
            } else {
                BabelStep::Off
            },
        )
    } else if !(MIN_SAMPLE_RATE <= rate <= MAX_SAMPLE_RATE) {
        (BabelMode { enabled: false, ..mode }, BabelStep::Refuse)
    } else {
        (
            BabelMode { sample_rate: rate, enabled: true },
            if mode.sample_rate != rate {
                BabelStep::Rebuild
            } else if mode.enabled {
                BabelStep::On
            } else {
                BabelStep::TurnOn
            },
        )
    }
}

impl BabelMode {
    /// Prepares one buffer.
    pub fn prepare(&mut self, rate: u32, wanted: bool) -> (step: BabelStep)
        ensures
            (*final(self), step) == babel_prepared(*old(self), rate, wanted),
    {
        let was: bool = self.enabled;
        if !wanted {
            self.enabled = false;
            return if was {
                BabelStep::TurnOff
            } else {
                BabelStep::Off
            };
        }
        if !is_fit_sample_rate(rate) {
            self.enabled = false;
            return BabelStep::Refuse;
        }
        self.enabled = true;
        if self.sample_rate != rate {
            self.sample_rate = rate;
            BabelStep::Rebuild
        } else if was {
            BabelStep::On
        } else {
            BabelStep::TurnOn
        }
    }
}

/// Nothing is rendered from a decision or a listener that is not fresh.
pub proof fn law_stale_decisions_are_silent(s: SnapshotView, id: u32, now: u64, capacity: usize)
    requires
        s.speakers.contains_key(id) ==> now > s.speakers[id].published_at + ACRE_AUDIO_STATE_TTL,
    ensures
        spatial_of(s, id, now, false) is None,
        spatial_of(s, id, now, true) is None,
        radio_of(s, id, now, capacity) is None,
        monitor_of(s, id, now) is None,
{
}

/// A decision reaches exactly the renderer of its kind: of the four, at most
/// that one has anything to start from.
pub proof fn law_decisions_reach_their_renderer_only(
    s: SnapshotView,
    id: u32,
    now: u64,
    capacity: usize,
    lease: Option<u64>,
)
    requires
        routed(lease, s, id, now) is Some,
    ensures
        ({
            let kind = routed(lease, s, id, now)->0.kind;
            &&& spatial_of(s, id, now, false) is Some ==> kind == RenderKind::Spatial
            &&& spatial_of(s, id, now, true) is Some ==> kind == RenderKind::Intercom
            &&& radio_of(s, id, now, capacity) is Some ==> kind == RenderKind::Radio
            &&& monitor_of(s, id, now) is Some ==> kind == RenderKind::Monitor
        }),
{
}

/// A voice without a running lease, or without a decision, is not rendered.
pub proof fn law_voices_need_a_lease_and_a_decision(
    lease: Option<u64>,
    s: SnapshotView,
    id: u32,
    now: u64,
)
    requires
        lease is None || now >= lease->0 + LEASE || !s.speakers.contains_key(id),
    ensures
        routed(lease, s, id, now) is None,
{
}

/// A decision to silence a speaker is rendered as silence.
pub proof fn law_muted_speakers_are_silent(
    b: audio_snapshot::BuilderView,
    id: u32,
    at: u64,
    lease: Option<u64>,
    now: u64,
)
    requires
        audio_snapshot::with_update(b, muted(id), at) is Ok,
    ensures
        ({
            let s = audio_snapshot::snapshot_of(
                audio_snapshot::with_update(b, muted(id), at)->Ok_0,
                at,
            );
            routed(lease, s, id, now) is Some ==> routed(lease, s, id, now)->0.kind
                == RenderKind::Silent
        }),
{
}

} // verus!
