//! What a snapshot says after an update, and when two of them are equal.

use crate::audio_snapshot::{
    answered, fresh, next_generation, same_listener_snapshot, same_speaker_snapshot, with_listener,
    with_speaker, without_speaker, AcreAudioSnapshotError, BuilderView, ListenerView, SpeakerView,
};
use crate::session_laws::one_number;
use crate::speaking::{
    same_decision, same_listener, same_update, AcreListenerState, AcreSpeakerVector,
    AudioUpdateView, DecisionView, RadioReceptionPath, UpdateView,
};
use crate::speaking_laws::has_value;
use vstd::prelude::*;

verus! {

/// A decision stands in the snapshot with every field it was given, under its
/// speaker, with the time of its publication.
pub proof fn law_decisions_stand_as_they_were_given(
    b: BuilderView,
    update: AudioUpdateView,
    at: u64,
)
    requires
        with_speaker(b, update, at) is Ok,
    ensures
        ({
            let after = with_speaker(b, update, at)->Ok_0;
            let id = update.speaking.speaker_id;
            let told = after.speakers[id];
            &&& after.speakers.dom() == b.speakers.dom().insert(id)
            &&& told.speaker_id == id
            &&& told.speaks_babel == update.speaking.speaks_babel
            &&& told.decision == update.speaking.decision
            &&& told.curve_scale == update.curve_scale
            &&& told.published_at == at
            &&& told.generation == b.generation
            &&& told.sequence == b.sequence + 1
            &&& after.listener == b.listener
            &&& after.generation == b.generation && after.max_speakers == b.max_speakers
        }),
{
    let after = with_speaker(b, update, at)->Ok_0;
    assert(after.speakers.dom() =~= b.speakers.dom().insert(update.speaking.speaker_id));
}

/// The listener stands in the snapshot as they were given.
pub proof fn law_listeners_stand_as_they_were_given(
    b: BuilderView,
    state: AcreListenerState,
    at: u64,
)
    ensures
        with_listener(b, state, at) is Ok <==> b.sequence < u64::MAX,
        with_listener(b, state, at) matches Ok(after) ==> {
            &&& after.listener == Some(
                ListenerView {
                    generation: b.generation,
                    sequence: (b.sequence + 1) as u64,
                    published_at: at,
                    state,
                },
            )
            &&& after.speakers == b.speakers
            &&& after.sequence == b.sequence + 1
            &&& after.generation == b.generation && after.max_speakers == b.max_speakers
        },
{
}

/// A removed speaker is gone and nobody else; the next generation begins
/// without anybody, with as much room as before.
pub proof fn law_removals_and_generations_forget(b: BuilderView, id: u32, other: u32)
    ensures
        without_speaker(b, id) matches Ok(after) ==> {
            &&& !after.speakers.contains_key(id)
            &&& other != id ==> after.speakers.contains_key(other) == b.speakers.contains_key(
                other,
            )
            &&& other != id && b.speakers.contains_key(other) ==> after.speakers[other]
                == b.speakers[other]
            &&& after.listener == b.listener
            &&& after.sequence == b.sequence + 1
        },
        without_speaker(b, id) is Ok <==> b.sequence < u64::MAX,
        next_generation(b) matches Ok(after) ==> {
            &&& after.generation == b.generation + 1
            &&& after.sequence == 0
            &&& after.listener is None
            &&& !after.speakers.contains_key(id)
            &&& after.max_speakers == b.max_speakers
        },
        next_generation(b) is Ok <==> b.generation < u64::MAX,
{
}

/// A snapshot is what its builder holds, at the time of its publication. A
/// refused update changes nothing and yields none.
pub proof fn law_snapshots_are_what_the_builder_holds(
    before: BuilderView,
    after: BuilderView,
    error: AcreAudioSnapshotError,
    at: u64,
)
    ensures
        ({
            let (held, answer) = answered(before, Ok(after), at);
            &&& held == after
            &&& answer is Ok
            &&& answer->Ok_0.generation == after.generation
            &&& answer->Ok_0.sequence == after.sequence
            &&& answer->Ok_0.published_at == at
            &&& answer->Ok_0.listener == after.listener
            &&& answer->Ok_0.speakers == after.speakers
        }),
        answered(before, Err(error), at).0 == before,
        answered(before, Err(error), at).1 is Err,
{
}

/// What was published is fresh for its whole lifetime and not a nanosecond
/// longer.
pub proof fn law_publications_are_fresh_for_their_lifetime(at: u64, ttl: u64, now: u64)
    ensures
        fresh(at, ttl, now) <==> now - at <= ttl,
{
}

/// Whether two vectors agree in all three numbers.
pub open spec fn agrees(a: AcreSpeakerVector, b: AcreSpeakerVector) -> bool {
    one_number(a.x, b.x) && one_number(a.y, b.y) && one_number(a.z, b.z)
}

/// Whether all three numbers of the vector are finite.
pub open spec fn is_finite_vector(v: AcreSpeakerVector) -> bool {
    has_value(v.x) && has_value(v.y) && has_value(v.z)
}

/// Whether two reception paths agree in every field.
pub open spec fn path_agrees(a: RadioReceptionPath, b: RadioReceptionPath) -> bool {
    &&& one_number(a.volume, b.volume)
    &&& one_number(a.signal_quality, b.signal_quality)
    &&& one_number(a.signal_model, b.signal_model)
    &&& a.loudspeaker == b.loudspeaker
    &&& agrees(a.position, b.position)
}

pub(crate) proof fn lemma_equal(a: u32, b: u32)
    requires
        has_value(a),
    ensures
        crate::binary32::equal(a, b) <==> one_number(a, b),
{
}

pub(crate) proof fn lemma_vector(a: AcreSpeakerVector, b: AcreSpeakerVector)
    requires
        is_finite_vector(a),
    ensures
        crate::speaking::same_vector(a, b) <==> agrees(a, b),
{
    lemma_equal(a.x, b.x);
    lemma_equal(a.y, b.y);
    lemma_equal(a.z, b.z);
}

/// Whether every number of the path is finite.
pub open spec fn is_finite_path(path: RadioReceptionPath) -> bool {
    &&& has_value(path.volume) && has_value(path.signal_quality)
    &&& has_value(path.signal_model) && is_finite_vector(path.position)
}

pub(crate) proof fn lemma_path(a: RadioReceptionPath, b: RadioReceptionPath)
    requires
        is_finite_path(a),
    ensures
        crate::speaking::same_path(a, b) <==> path_agrees(a, b),
{
    lemma_equal(a.volume, b.volume);
    lemma_equal(a.signal_quality, b.signal_quality);
    lemma_equal(a.signal_model, b.signal_model);
    lemma_vector(a.position, b.position);
}

proof fn lemma_paths(a: Seq<RadioReceptionPath>, b: Seq<RadioReceptionPath>)
    requires
        forall|i: int| 0 <= i < a.len() ==> is_finite_path(#[trigger] a[i]),
    ensures
        crate::speaking::same_paths(a, b) <==> a.len() == b.len() && forall|i: int|
            0 <= i < a.len() ==> path_agrees(#[trigger] a[i], b[i]),
{
    assert forall|i: int| 0 <= i < a.len() implies (crate::speaking::same_path(
        #[trigger] a[i],
        b[i],
    ) <==> path_agrees(a[i], b[i])) by {
        lemma_path(a[i], b[i]);
    }
}

/// Whether every number of the decision is finite.
pub open spec fn is_finite_decision(decision: DecisionView) -> bool {
    match decision {
        DecisionView::Mute => true,
        DecisionView::Spatial { volume, position, head_vector, .. } => has_value(volume)
            && is_finite_vector(position) && is_finite_vector(head_vector),
        DecisionView::Radio { paths } => forall|i: int|
            0 <= i < paths.len() ==> is_finite_path(#[trigger] paths[i]),
        DecisionView::Spectator { volume } => has_value(volume),
        DecisionView::God { volume } => has_value(volume),
    }
}

/// Whether two decisions agree in every field.
pub open spec fn decision_agrees(a: DecisionView, b: DecisionView) -> bool {
    match a {
        DecisionView::Mute => b is Mute,
        DecisionView::Spatial { kind, volume, position, head_vector } => {
            &&& b is Spatial
            &&& kind == b->Spatial_kind
            &&& one_number(volume, b->Spatial_volume)
            &&& agrees(position, b->Spatial_position)
            &&& agrees(head_vector, b->Spatial_head_vector)
        },
        DecisionView::Radio { paths } => {
            &&& b is Radio
            &&& paths.len() == b->Radio_paths.len()
            &&& forall|i: int|
                0 <= i < paths.len() ==> path_agrees(#[trigger] paths[i], b->Radio_paths[i])
        },
        DecisionView::Spectator { volume } => b is Spectator && one_number(
            volume,
            b->Spectator_volume,
        ),
        DecisionView::God { volume } => b is God && one_number(volume, b->God_volume),
    }
}

/// Two decisions of finite numbers are equal exactly if they agree in every
/// field.
pub proof fn law_equal_decisions_agree_in_every_field(a: DecisionView, b: DecisionView)
    requires
        is_finite_decision(a),
    ensures
        same_decision(a, b) <==> decision_agrees(a, b),
{
    match (a, b) {
        (DecisionView::Spatial { .. }, DecisionView::Spatial { .. }) => {
            lemma_equal(a->Spatial_volume, b->Spatial_volume);
            lemma_vector(a->Spatial_position, b->Spatial_position);
            lemma_vector(a->Spatial_head_vector, b->Spatial_head_vector);
        },
        (DecisionView::Radio { paths }, DecisionView::Radio { paths: others }) => {
            lemma_paths(paths, others);
        },
        (DecisionView::Spectator { volume }, DecisionView::Spectator { volume: other }) => {
            lemma_equal(volume, other);
        },
        (DecisionView::God { volume }, DecisionView::God { volume: other }) => {
            lemma_equal(volume, other);
        },
        _ => {},
    }
}

/// Two updates are equal exactly if they are about the same speaker, in the
/// same tongue, with decisions that agree.
pub proof fn law_equal_updates_agree_in_every_field(a: UpdateView, b: UpdateView)
    requires
        is_finite_decision(a.decision),
    ensures
        same_update(a, b) <==> a.speaker_id == b.speaker_id && a.speaks_babel == b.speaks_babel
            && decision_agrees(a.decision, b.decision),
{
    law_equal_decisions_agree_in_every_field(a.decision, b.decision);
}

/// Two states of the listener are equal exactly if they stand and look alike
/// and hear on the same curve.
pub proof fn law_equal_listeners_agree_in_every_field(a: AcreListenerState, b: AcreListenerState)
    requires
        is_finite_vector(a.pose.position),
        is_finite_vector(a.pose.head_vector),
    ensures
        same_listener(a, b) <==> agrees(a.pose.position, b.pose.position) && agrees(
            a.pose.head_vector,
            b.pose.head_vector,
        ) && a.curve_model == b.curve_model,
{
    lemma_vector(a.pose.position, b.pose.position);
    lemma_vector(a.pose.head_vector, b.pose.head_vector);
}

/// Two entries of a snapshot are equal exactly if they agree in every field.
pub proof fn law_equal_entries_agree_in_every_field(
    a: SpeakerView,
    b: SpeakerView,
    mine: ListenerView,
    other: ListenerView,
)
    requires
        is_finite_decision(a.decision),
        has_value(a.curve_scale),
    ensures
        same_speaker_snapshot(a, b) <==> {
            &&& a.speaker_id == b.speaker_id
            &&& a.generation == b.generation
            &&& a.sequence == b.sequence
            &&& a.published_at == b.published_at
            &&& a.speaks_babel == b.speaks_babel
            &&& one_number(a.curve_scale, b.curve_scale)
            &&& decision_agrees(a.decision, b.decision)
        },
        same_listener_snapshot(mine, other) <==> {
            &&& mine.generation == other.generation
            &&& mine.sequence == other.sequence
            &&& mine.published_at == other.published_at
            &&& same_listener(mine.state, other.state)
        },
{
    law_equal_decisions_agree_in_every_field(a.decision, b.decision);
    lemma_equal(a.curve_scale, b.curve_scale);
}

} // verus!
