//! What is heard of a voice: the decision that ACRE sent last about the
//! speaker, and nothing else.

use crate::audio_snapshot::{
    self, with_update, AcreAudioSnapshotError, BuilderView, PlaneUpdateView, SnapshotView,
};
use crate::audio_snapshot_laws::{
    agrees, is_finite_path, is_finite_vector, lemma_equal, lemma_path, lemma_vector, path_agrees,
};
use crate::render::{
    self, babel_prepared, leaves_traces, monitor_of, passed, path_source, radio_of, routed,
    spatial_of, step_for, AcreMonitorPlan, BabelMode, BabelStep, Foldback, RadioSource, RenderKind,
    SlotKey, SourceStep, SpatialSource,
};
use crate::session_laws::one_number;
use crate::speaking::{
    AcreListenerPose, AcreListenerState, AcreSpeakerVector, AudioUpdateView, DecisionView,
    RadioReceptionPath, SpatialSpeakingKind,
};
use crate::speaking_laws::has_value;
use vstd::prelude::*;

verus! {

/// An update that was accepted, and when it was published.
pub struct Published {
    pub update: PlaneUpdateView,
    pub at: u64,
}

/// The builder after a run of updates, or the first refusal.
pub open spec fn built(b: BuilderView, updates: Seq<Published>) -> Result<
    BuilderView,
    AcreAudioSnapshotError,
>
    decreases updates.len(),
{
    if updates.len() == 0 {
        Ok(b)
    } else {
        match built(b, updates.drop_last()) {
            Ok(next) => with_update(next, updates.last().update, updates.last().at),
            Err(error) => Err(error),
        }
    }
}

/// Whether the update is about the speaker.
pub open spec fn is_about(update: PlaneUpdateView, id: u32) -> bool {
    update matches PlaneUpdateView::Speaker(speaker) && speaker.speaking.speaker_id == id
}

/// Whether update `i` is the last one of the listener, and brought the state.
pub open spec fn listener_is(updates: Seq<Published>, i: int, state: AcreListenerState) -> bool {
    &&& 0 <= i < updates.len()
    &&& updates[i].update == PlaneUpdateView::Listener(state)
    &&& forall|k: int| i < k < updates.len() ==> !((#[trigger] updates[k]).update is Listener)
}

/// Whether update `j` is the last one about its speaker.
pub open spec fn speaker_is(updates: Seq<Published>, j: int, told: AudioUpdateView) -> bool {
    &&& 0 <= j < updates.len()
    &&& updates[j].update == PlaneUpdateView::Speaker(told)
    &&& forall|k: int|
        j < k < updates.len() ==> !is_about(
            (#[trigger] updates[k]).update,
            told.speaking.speaker_id,
        )
}

/// Whether something published at `at` is at most two seconds old.
pub open spec fn recent(at: u64, now: u64) -> bool {
    now <= at + 2_000_000_000
}

/// Whether the bits are a number above one thousandth.
pub open spec fn heard_volume(bits: u32) -> bool {
    0x3a83_126f < bits < 0x7f80_0000
}

proof fn lemma_last_listener(
    b: BuilderView,
    updates: Seq<Published>,
    i: int,
    state: AcreListenerState,
)
    requires
        built(b, updates) is Ok,
        listener_is(updates, i, state),
    ensures
        ({
            let listener = built(b, updates)->Ok_0.listener;
            listener is Some && listener->0.state == state && listener->0.published_at
                == updates[i].at
        }),
    decreases updates.len(),
{
    if i < updates.len() - 1 {
        let before = updates.drop_last();
        assert forall|k: int| i < k < before.len() implies !((#[trigger] before[k]).update
            is Listener) by {
            assert(before[k] == updates[k]);
        }
        assert(before[i] == updates[i]);
        assert(!(updates[updates.len() - 1].update is Listener));
        lemma_last_listener(b, before, i, state);
    }
}

proof fn lemma_last_decision(
    b: BuilderView,
    updates: Seq<Published>,
    j: int,
    told: AudioUpdateView,
)
    requires
        built(b, updates) is Ok,
        speaker_is(updates, j, told),
    ensures
        ({
            let id = told.speaking.speaker_id;
            let speakers = built(b, updates)->Ok_0.speakers;
            &&& speakers.contains_key(id)
            &&& speakers[id].published_at == updates[j].at
            &&& speakers[id].speaks_babel == told.speaking.speaks_babel
            &&& speakers[id].curve_scale == told.curve_scale
            &&& speakers[id].decision == told.speaking.decision
        }),
    decreases updates.len(),
{
    if j < updates.len() - 1 {
        let before = updates.drop_last();
        let id = told.speaking.speaker_id;
        assert forall|k: int| j < k < before.len() implies !is_about(
            (#[trigger] before[k]).update,
            id,
        ) by {
            assert(before[k] == updates[k]);
        }
        assert(before[j] == updates[j]);
        assert(!is_about(updates[updates.len() - 1].update, id));
        lemma_last_decision(b, before, j, told);
    }
}

proof fn lemma_same_generation(b: BuilderView, updates: Seq<Published>)
    requires
        built(b, updates) is Ok,
    ensures
        built(b, updates)->Ok_0.generation == b.generation,
    decreases updates.len(),
{
    if updates.len() > 0 {
        lemma_same_generation(b, updates.drop_last());
    }
}

/// A voice in space is rendered where ACRE placed it: whatever else was
/// published, the source has the position, the head vector and the volume of
/// the last decision about the speaker, the Babel flag and the curve scale of
/// the update that carried it, and the last published listener. Direct and Zeus
/// speech have one renderer, the intercom another. A silent volume, or a
/// listener or a decision that is too old, yields nothing.
pub proof fn law_voices_stand_where_acre_placed_them(
    b: BuilderView,
    updates: Seq<Published>,
    i: int,
    state: AcreListenerState,
    j: int,
    told: AudioUpdateView,
    published_at: u64,
    now: u64,
)
    requires
        built(b, updates) is Ok,
        listener_is(updates, i, state),
        speaker_is(updates, j, told),
        told.speaking.decision is Spatial,
    ensures
        ({
            let s = audio_snapshot::snapshot_of(built(b, updates)->Ok_0, published_at);
            let id = told.speaking.speaker_id;
            let decision = told.speaking.decision;
            let intercom = decision->kind == SpatialSpeakingKind::Intercom;
            let owed = recent(updates[i].at, now) && recent(updates[j].at, now) && heard_volume(
                decision->Spatial_volume,
            );
            let source = spatial_of(s, id, now, intercom);
            &&& spatial_of(s, id, now, !intercom) is None
            &&& source is Some <==> owed
            &&& owed ==> source->0.position == decision->position
            &&& owed ==> source->0.head_vector == decision->head_vector
            &&& owed ==> source->0.volume == decision->Spatial_volume
            &&& owed ==> source->0.speaks_babel == told.speaking.speaks_babel
            &&& owed ==> source->0.curve_scale == told.curve_scale
            &&& owed ==> source->0.listener == state
        }),
{
    lemma_last_listener(b, updates, i, state);
    lemma_last_decision(b, updates, j, told);
}

/// A radio decision is rendered path by path, with all its paths and the last
/// published pose of the listener, as long as both are recent and the paths are
/// not too many.
pub proof fn law_radio_paths_reach_the_renderer(
    b: BuilderView,
    updates: Seq<Published>,
    i: int,
    state: AcreListenerState,
    j: int,
    told: AudioUpdateView,
    published_at: u64,
    now: u64,
    capacity: usize,
)
    requires
        built(b, updates) is Ok,
        listener_is(updates, i, state),
        speaker_is(updates, j, told),
        told.speaking.decision is Radio,
    ensures
        ({
            let s = audio_snapshot::snapshot_of(built(b, updates)->Ok_0, published_at);
            let paths = told.speaking.decision->paths;
            radio_of(s, told.speaking.speaker_id, now, capacity) == if recent(updates[i].at, now)
                && recent(updates[j].at, now) && paths.len() <= capacity {
                Some((state.pose, paths))
            } else {
                None
            }
        }),
{
    lemma_last_listener(b, updates, i, state);
    lemma_last_decision(b, updates, j, told);
}

/// A path out of a loudspeaker is heard from its place in the world by a
/// listener who stands and looks as they do. A path out of a headset is heard
/// as an offset from a listener at the origin who looks straight ahead. Either
/// keeps the path as ACRE sent it, and its own head points straight ahead. A
/// silent path, or one whose signal makes no sense, is not heard.
pub proof fn law_paths_are_heard_from_their_place(
    pose: AcreListenerPose,
    path: RadioReceptionPath,
    index: usize,
)
    ensures
        ({
            let ahead = AcreSpeakerVector { x: 0, z: 0x3f80_0000, y: 0 };
            let nowhere = AcreSpeakerVector { x: 0, z: 0, y: 0 };
            let source = path_source(pose, path, index);
            &&& source is Some <==> {
                &&& heard_volume(path.volume)
                &&& path.signal_quality <= 0x3f80_0000 || path.signal_quality == 0x8000_0000
                &&& path.signal_model < 0x7f80_0000 || 0x8000_0000 <= path.signal_model
                    < 0xff80_0000
            }
            &&& source is Some ==> {
                &&& source->0.path == path
                &&& source->0.path_index == index
                &&& source->0.head_vector == ahead
                &&& path.loudspeaker ==> source->0.listener == pose
                &&& !path.loudspeaker ==> source->0.listener.position == nowhere
                    && source->0.listener.head_vector == ahead
            }
        }),
{
}

/// A spectator or a God is heard without a place, and so without a listener: at
/// the volume of the last decision, but never louder than it was spoken.
pub proof fn law_monitors_are_heard_without_a_place(
    b: BuilderView,
    updates: Seq<Published>,
    j: int,
    told: AudioUpdateView,
    published_at: u64,
    now: u64,
    volume: u32,
)
    requires
        built(b, updates) is Ok,
        speaker_is(updates, j, told),
        told.speaking.decision == (DecisionView::Spectator { volume }) || told.speaking.decision
            == (DecisionView::God { volume }),
    ensures
        ({
            let s = audio_snapshot::snapshot_of(built(b, updates)->Ok_0, published_at);
            let plan = monitor_of(s, told.speaking.speaker_id, now);
            let owed = recent(updates[j].at, now) && heard_volume(volume);
            &&& plan is Some <==> owed
            &&& owed ==> plan->0.speaks_babel == told.speaking.speaks_babel
            &&& owed && volume <= 0x3f80_0000 ==> plan->0.gain == volume
            &&& owed && volume > 0x3f80_0000 ==> plan->0.gain == 0x3f80_0000
        }),
{
    lemma_last_decision(b, updates, j, told);
}

/// A voice is rendered by the renderer of the last decision about its speaker
/// for as long as the speaker's lease of a quarter of a second runs.
pub proof fn law_voices_go_to_the_renderer_of_their_decision(
    b: BuilderView,
    updates: Seq<Published>,
    j: int,
    told: AudioUpdateView,
    published_at: u64,
    now: u64,
    refreshed: u64,
)
    requires
        built(b, updates) is Ok,
        speaker_is(updates, j, told),
    ensures
        ({
            let s = audio_snapshot::snapshot_of(built(b, updates)->Ok_0, published_at);
            let id = told.speaking.speaker_id;
            let key = routed(Some(refreshed), s, id, now);
            &&& key is Some <==> now < refreshed + 250_000_000
            &&& key is Some ==> key->0.id == id && key->0.generation == b.generation
            &&& key is Some ==> key->0.kind == match told.speaking.decision {
                DecisionView::Mute => RenderKind::Silent,
                DecisionView::Radio { .. } => RenderKind::Radio,
                DecisionView::Spatial { kind: SpatialSpeakingKind::Direct, .. } =>
                    RenderKind::Spatial,
                DecisionView::Spatial { kind: SpatialSpeakingKind::Zeus, .. } =>
                    RenderKind::Spatial,
                DecisionView::Spatial { kind: SpatialSpeakingKind::Intercom, .. } =>
                    RenderKind::Intercom,
                DecisionView::Spectator { .. } => RenderKind::Monitor,
                DecisionView::God { .. } => RenderKind::Monitor,
            }
            &&& routed(None, s, id, now) is None
        }),
{
    lemma_last_decision(b, updates, j, told);
    lemma_same_generation(b, updates);
}

/// A speaker who was removed is heard no more, nobody is heard in a new
/// generation, and no other speaker is touched by a removal.
pub proof fn law_removed_speakers_are_not_heard(
    b: BuilderView,
    id: u32,
    other: u32,
    published_at: u64,
    lease: Option<u64>,
    now: u64,
)
    requires
        other != id,
    ensures
        audio_snapshot::without_speaker(b, id) matches Ok(after) ==> {
            &&& routed(lease, audio_snapshot::snapshot_of(after, published_at), id, now) is None
            &&& after.speakers.contains_key(other) == b.speakers.contains_key(other)
            &&& after.speakers[other] == b.speakers[other] || !b.speakers.contains_key(other)
            &&& after.listener == b.listener
            &&& after.generation == b.generation
        },
        audio_snapshot::next_generation(b) matches Ok(after) ==> {
            &&& routed(lease, audio_snapshot::snapshot_of(after, published_at), id, now) is None
            &&& after.listener is None
            &&& after.generation == b.generation + 1
            &&& after.max_speakers == b.max_speakers
        },
        b.sequence < u64::MAX ==> audio_snapshot::without_speaker(b, id) is Ok,
        b.generation < u64::MAX ==> audio_snapshot::next_generation(b) is Ok,
{
}

/// Every accepted update moves the snapshots on by one, and is refused only
/// where the numbers have run out or one speaker more would be too many.
pub proof fn law_updates_move_the_snapshots_on(b: BuilderView, update: PlaneUpdateView, at: u64)
    ensures
        with_update(b, update, at) matches Ok(after) ==> after.sequence == b.sequence + 1,
        with_update(b, update, at) is Ok <==> b.sequence < u64::MAX && (update
            matches PlaneUpdateView::Speaker(told) ==> b.speakers.contains_key(
            told.speaking.speaker_id,
        ) || b.speakers.len() < b.max_speakers),
        with_update(b, update, at) matches Ok(after) ==> (update
            matches PlaneUpdateView::Speaker(told) ==> after.listener == b.listener
            && after.speakers.remove(told.speaking.speaker_id) == b.speakers.remove(
            told.speaking.speaker_id,
        )),
        with_update(b, update, at) matches Ok(after) ==> (update is Listener ==> after.speakers
            == b.speakers),
{
    if with_update(b, update, at) is Ok && update is Speaker {
        let id = update->Speaker_0.speaking.speaker_id;
        assert(with_update(b, update, at)->Ok_0.speakers.remove(id) =~= b.speakers.remove(id));
    }
}

/// Notifications are never touched. Speech is rendered exactly while the plugin
/// is ready and the game is connected and does not override all sound, is
/// silent while it does, and is Mumble's own outside a game.
pub proof fn law_only_speech_of_the_game_is_rendered(
    speech: bool,
    ready: bool,
    filtering: bool,
    overridden: bool,
)
    ensures
        ({
            let step = step_for(speech, ready, filtering, overridden);
            &&& step == SourceStep::Render <==> speech && ready && filtering && !overridden
            &&& step == SourceStep::Silence <==> speech && (!ready || filtering && overridden)
            &&& step == SourceStep::Untouched <==> !speech || ready && !filtering
        }),
{
}

/// A slot keeps its state exactly while it serves the same speaker in the same
/// generation with the same renderer.
pub proof fn law_slots_are_reset_for_anybody_else(last: SlotKey, next: SlotKey)
    ensures
        !leaves_traces(last, next) <==> last.id == next.id && last.generation == next.generation
            && last.kind == next.kind,
{
}

/// What is heard of a run of samples, and what is held at its end.
pub open spec fn passed_all(held: Foldback, samples: Seq<u32>, divisor: u8) -> (Foldback, Seq<u32>)
    decreases samples.len(),
{
    if samples.len() == 0 {
        (held, Seq::empty())
    } else {
        let (before, heard) = passed_all(held, samples.drop_last(), divisor);
        let (after, sample) = passed(before, samples.last(), divisor);
        (after, heard.push(sample))
    }
}

/// Each sample that is taken stands for as many as the divisor says: of a run
/// of samples, every one is heard as the last one whose place is a multiple of
/// the divisor.
pub proof fn law_held_samples_stand_for_the_divisor(
    value: u32,
    samples: Seq<u32>,
    divisor: u8,
    at: int,
)
    requires
        divisor > 0,
        0 <= at < samples.len(),
    ensures
        ({
            let heard = passed_all(Foldback { value, remaining: 0 }, samples, divisor).1;
            heard.len() == samples.len() && heard[at] == samples[at - at % (divisor as int)]
        }),
{
    lemma_held(value, samples, divisor, at);
}

proof fn lemma_held(value: u32, samples: Seq<u32>, divisor: u8, at: int)
    requires
        divisor > 0,
    ensures
        ({
            let (held, heard) = passed_all(Foldback { value, remaining: 0 }, samples, divisor);
            let d = divisor as int;
            let n = samples.len() as int;
            &&& heard.len() == n
            &&& held.remaining == (d - n % d) % d
            &&& n % d != 0 ==> held.value == samples[n - n % d]
            &&& 0 <= at < n ==> heard[at] == samples[at - at % d]
        }),
    decreases samples.len(),
{
    let d = divisor as int;
    let n = samples.len() as int;
    if n == 0 {
        assert(0int % d == 0 && d % d == 0) by (nonlinear_arith)
            requires
                d > 0,
        ;
    } else {
        let m = n - 1;
        lemma_held(value, samples.drop_last(), divisor, at);
        lemma_held(value, samples.drop_last(), divisor, m);
        vstd::arithmetic::div_mod::lemma_mod_bound(m, d);
        vstd::arithmetic::div_mod::lemma_fundamental_div_mod(m, d);
        let r = m % d;
        let q = m / d;
        vstd::arithmetic::div_mod::lemma_div_pos_is_pos(m, d);
        if r == d - 1 {
            assert(n == (q + 1) * d + 0) by (nonlinear_arith)
                requires
                    m == d * q + r,
                    r == d - 1,
                    n == m + 1,
            ;
            vstd::arithmetic::div_mod::lemma_fundamental_div_mod_converse(n, d, q + 1, 0);
        } else {
            assert(n == q * d + (r + 1)) by (nonlinear_arith)
                requires
                    m == d * q + r,
                    n == m + 1,
            ;
            vstd::arithmetic::div_mod::lemma_fundamental_div_mod_converse(n, d, q, r + 1);
        }
        vstd::arithmetic::div_mod::lemma_small_mod((d - r - 1) as nat, d as nat);
        if r > 0 {
            vstd::arithmetic::div_mod::lemma_small_mod((d - r) as nat, d as nat);
        } else {
            vstd::arithmetic::div_mod::lemma_mod_self_0(d);
        }
        if n % d == 0 {
            vstd::arithmetic::div_mod::lemma_mod_self_0(d);
        }
        assert(samples.last() == samples[m]);
        let before = samples.drop_last();
        assert(0 <= d * q) by (nonlinear_arith)
            requires
                d > 0,
                q >= 0,
        ;
        if r > 0 {
            assert(before[m - r] == samples[m - r]);
        }
        if 0 <= at < n {
            vstd::arithmetic::div_mod::lemma_mod_bound(at, d);
            vstd::arithmetic::div_mod::lemma_mod_decreases(at as nat, d as nat);
            if at < m {
                assert(before[at - at % d] == samples[at - at % d]);
            }
        }
    }
}

/// The Babel effect is on exactly where it is wanted and the sample rate can be
/// served. What it remembers is cleared or built anew whenever it did not serve
/// the buffer before at the same rate.
pub proof fn law_babel_is_prepared_for_every_buffer(mode: BabelMode, rate: u32, wanted: bool)
    ensures
        ({
            let (after, step) = babel_prepared(mode, rate, wanted);
            let serves = wanted && 8_000 <= rate <= 192_000;
            &&& after.enabled == serves
            &&& serves ==> after.sample_rate == rate
            &&& !serves ==> after.sample_rate == mode.sample_rate
            &&& step == BabelStep::On <==> serves && mode.enabled && mode.sample_rate == rate
            &&& step == BabelStep::Rebuild <==> serves && mode.sample_rate != rate
            &&& step == BabelStep::TurnOn <==> serves && !mode.enabled && mode.sample_rate == rate
            &&& step == BabelStep::Refuse <==> wanted && !serves
            &&& step == BabelStep::TurnOff <==> !wanted && mode.enabled
            &&& step == BabelStep::Off <==> !wanted && !mode.enabled
        }),
{
}

/// A buffer is taken to have as many samples as its frames and channels make,
/// exactly if so many samples can lie in memory.
pub proof fn law_buffers_have_all_their_samples(frames: u32, channels: u16, sample_bytes: usize)
    requires
        sample_bytes > 0,
    ensures
        ({
            let total = frames as int * channels as int;
            let size = render::buffer_size(frames, channels, sample_bytes);
            &&& size is Some <==> total * sample_bytes as int <= isize::MAX as int
            &&& size is Some ==> size->0 == total
        }),
{
    let total = frames as int * channels as int;
    let bytes = sample_bytes as int;
    let most = isize::MAX as int;
    assert(0 <= total) by (nonlinear_arith)
        requires
            total == frames as int * channels as int,
            frames >= 0,
            channels >= 0,
    ;
    vstd::arithmetic::div_mod::lemma_fundamental_div_mod(most, bytes);
    vstd::arithmetic::div_mod::lemma_mod_bound(most, bytes);
    let q = most / bytes;
    if total <= q {
        assert(total * bytes <= bytes * q) by (nonlinear_arith)
            requires
                total <= q,
                bytes > 0,
        ;
        assert(q <= most) by (nonlinear_arith)
            requires
                most == bytes * q + most % bytes,
                most % bytes >= 0,
                bytes >= 1,
                q >= 0,
        ;
    } else {
        assert(total * bytes >= bytes * q + bytes) by (nonlinear_arith)
            requires
                total >= q + 1,
                bytes > 0,
        ;
    }
}

/// A decision that no snapshot holds yields nothing to render.
pub proof fn law_nothing_is_rendered_without_a_decision(
    s: SnapshotView,
    id: u32,
    now: u64,
    capacity: usize,
    intercom: bool,
)
    requires
        !s.speakers.contains_key(id),
    ensures
        spatial_of(s, id, now, intercom) is None,
        radio_of(s, id, now, capacity) is None,
        monitor_of(s, id, now) is None,
{
}

/// A buffer is taken with one channel or two, whole frames, and between 1 and
/// 65535 samples.
pub proof fn law_buffers_are_mono_or_stereo(samples: usize)
    ensures
        render::fit_shape(samples, 1) <==> 1 <= samples <= 65_535,
        render::fit_shape(samples, 2) <==> 2 <= samples <= 65_535 && samples % 2 == 0,
        forall|channels: usize| channels == 0 || channels > 2 ==> !#[trigger] render::fit_shape(
            samples,
            channels,
        ),
{
}

/// The radio filters take rates between 8 and 192 kHz.
pub proof fn law_filters_take_ordinary_rates(rate: u32)
    ensures
        render::fit_sample_rate(rate) <==> 8_000 <= rate <= 192_000,
{
}

/// There are 128 slots, and of any 128 speakers in a row no two share one.
pub proof fn law_neighbours_have_slots_of_their_own(a: u32, b: u32)
    ensures
        render::slot_for(a) < 128,
        a < b < a + 128 ==> render::slot_for(a) != render::slot_for(b),
        b == a + 128 ==> render::slot_for(a) == render::slot_for(b),
{
}

/// The noise of a path goes on from each state to the next by one and the same
/// step: a product and a sum of 32 bits. Its
/// level is the upper half of the state.
pub proof fn law_noise_goes_on_by_one_step(state: u32)
    ensures
        (render::next_noise(state) - (state * 1_664_525 + 1_013_904_223)) % 0x1_0000_0000 == 0,
        render::noise_level(state) * 0x1_0000 <= state < render::noise_level(state) * 0x1_0000
            + 0x1_0000,
        0 <= render::noise_level(state) < 0x1_0000,
{
}

/// The seed of a path's noise is never zero.
pub proof fn law_seeds_are_never_zero(speaker_id: u32, path: u32)
    ensures
        render::seed_of(speaker_id, path) != 0,
{
}

/// Two sources in space are equal exactly if they agree in every field, their
/// numbers as numbers.
pub proof fn law_equal_places_agree_in_every_field(a: SpatialSource, b: SpatialSource)
    requires
        has_value(a.curve_scale) && has_value(a.volume),
        is_finite_vector(a.position) && is_finite_vector(a.head_vector),
        is_finite_vector(a.listener.pose.position),
        is_finite_vector(a.listener.pose.head_vector),
    ensures
        render::same_spatial_source(a, b) <==> {
            &&& agrees(a.listener.pose.position, b.listener.pose.position)
            &&& agrees(a.listener.pose.head_vector, b.listener.pose.head_vector)
            &&& a.listener.curve_model == b.listener.curve_model
            &&& one_number(a.curve_scale, b.curve_scale)
            &&& a.speaks_babel == b.speaks_babel
            &&& one_number(a.volume, b.volume)
            &&& agrees(a.position, b.position)
            &&& agrees(a.head_vector, b.head_vector)
        },
{
    assert(render::same_spatial_source(a, b) <==> {
        &&& crate::speaking::same_listener(a.listener, b.listener)
        &&& crate::binary32::equal(a.curve_scale, b.curve_scale)
        &&& a.speaks_babel == b.speaks_babel
        &&& crate::binary32::equal(a.volume, b.volume)
        &&& crate::speaking::same_vector(a.position, b.position)
        &&& crate::speaking::same_vector(a.head_vector, b.head_vector)
    });
    lemma_equal(a.curve_scale, b.curve_scale);
    lemma_equal(a.volume, b.volume);
    lemma_vector(a.position, b.position);
    lemma_vector(a.head_vector, b.head_vector);
    lemma_vector(a.listener.pose.position, b.listener.pose.position);
    lemma_vector(a.listener.pose.head_vector, b.listener.pose.head_vector);
}

/// Two radio sources are equal exactly if they agree in every field, their
/// numbers as numbers.
pub proof fn law_equal_radio_sources_agree_in_every_field(a: RadioSource, b: RadioSource)
    requires
        is_finite_vector(a.listener.position) && is_finite_vector(a.listener.head_vector),
        is_finite_vector(a.head_vector),
        is_finite_path(a.path),
    ensures
        render::same_radio_source(a, b) <==> {
            &&& a.path_index == b.path_index
            &&& path_agrees(a.path, b.path)
            &&& agrees(a.listener.position, b.listener.position)
            &&& agrees(a.listener.head_vector, b.listener.head_vector)
            &&& agrees(a.head_vector, b.head_vector)
        },
{
    lemma_path(a.path, b.path);
    lemma_vector(a.listener.position, b.listener.position);
    lemma_vector(a.listener.head_vector, b.listener.head_vector);
    lemma_vector(a.head_vector, b.head_vector);
}

/// Two voices without a place are equal exactly if they speak alike and as
/// loud.
pub proof fn law_equal_monitors_agree_in_every_field(a: AcreMonitorPlan, b: AcreMonitorPlan)
    requires
        has_value(a.gain),
    ensures
        render::same_plan(a, b) <==> a.speaks_babel == b.speaks_babel && one_number(
            a.gain,
            b.gain,
        ),
{
    lemma_equal(a.gain, b.gain);
}

/// The seed of a path's noise is the sum of the speaker's and the path's share,
/// with some bits turned over, unless that is zero.
pub proof fn law_seeds_depend_on_speaker_and_path(speaker_id: u32, path: u32, mixed: u32)
    requires
        (mixed - (speaker_id * 0x9e37_79b9 + path * 0x85eb_ca6b)) % 0x1_0000_0000 == 0,
    ensures
        (mixed ^ 0xa341_316c) != 0 ==> render::seed_of(speaker_id, path) == mixed ^ 0xa341_316c,
        (mixed ^ 0xa341_316c) == 0 ==> render::seed_of(speaker_id, path) == 1,
{
    lemma_words_add(speaker_id * 0x9e37_79b9, path * 0x85eb_ca6b, mixed);
}

proof fn lemma_words_add(a: int, b: int, sum: u32)
    requires
        (sum - (a + b)) % 0x1_0000_0000 == 0,
    ensures
        render::word(render::word(a) + render::word(b)) == sum,
{
    let whole = 0x1_0000_0000int;
    assert((a % whole + b % whole) % whole == sum);
}

} // verus!
