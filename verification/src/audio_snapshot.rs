//! Immutable, bounded snapshots of ACRE's audio decisions.
//!
//! Times are nanoseconds of one monotonic clock.

use crate::binary32::{self, is_equal};
use crate::model;
use crate::speaking::{
    self, AcreListenerPose, AcreListenerState, AcreSpeakerAudioUpdate, AcreVoiceCurveModel,
    AudioUpdateView, DecisionView, SpeakingDecision, SpeakingUpdate,
};
use std::collections::HashMap;
use vstd::prelude::*;
use vstd::std_specs::cmp::PartialEqSpecImpl;

verus! {

/// How many speakers a snapshot holds unless told otherwise.
pub const ACRE_AUDIO_MAX_SPEAKERS: usize = 128;

/// The latest decision about one voice client.
#[derive(Debug)]
pub struct AcreSpeakerSnapshot {
    speaker_id: u32,
    generation: u64,
    sequence: u64,
    published_at: u64,
    speaks_babel: bool,
    curve_scale: u32,
    decision: SpeakingDecision,
}

/// The model of a decision in a snapshot.
#[verifier::ext_equal]
pub struct SpeakerView {
    pub speaker_id: u32,
    pub generation: u64,
    pub sequence: u64,
    pub published_at: u64,
    pub speaks_babel: bool,
    pub curve_scale: u32,
    pub decision: DecisionView,
}

/// The latest pose of the local listener.
#[derive(Clone, Copy, Debug)]
pub struct AcreListenerSnapshot {
    generation: u64,
    sequence: u64,
    published_at: u64,
    state: AcreListenerState,
}

/// The model of the listener in a snapshot.
#[verifier::ext_equal]
pub struct ListenerView {
    pub generation: u64,
    pub sequence: u64,
    pub published_at: u64,
    pub state: AcreListenerState,
}

/// Whether two decisions in a snapshot are equal as numbers.
pub open spec fn same_speaker_snapshot(a: SpeakerView, b: SpeakerView) -> bool {
    &&& a.speaker_id == b.speaker_id
    &&& a.generation == b.generation
    &&& a.sequence == b.sequence
    &&& a.published_at == b.published_at
    &&& a.speaks_babel == b.speaks_babel
    &&& binary32::equal(a.curve_scale, b.curve_scale)
    &&& speaking::same_decision(a.decision, b.decision)
}

impl PartialEq for AcreSpeakerSnapshot {
    fn eq(&self, other: &Self) -> (same: bool) {
        self.speaker_id == other.speaker_id && self.generation == other.generation && self.sequence
            == other.sequence && self.published_at == other.published_at && self.speaks_babel
            == other.speaks_babel && is_equal(self.curve_scale, other.curve_scale)
            && self.decision == other.decision
    }
}

impl PartialEqSpecImpl for AcreSpeakerSnapshot {
    open spec fn obeys_eq_spec() -> bool {
        true
    }

    open spec fn eq_spec(&self, other: &Self) -> bool {
        same_speaker_snapshot(self@, other@)
    }
}

/// Whether two states of the listener in a snapshot are equal as numbers.
pub open spec fn same_listener_snapshot(a: ListenerView, b: ListenerView) -> bool {
    &&& a.generation == b.generation
    &&& a.sequence == b.sequence
    &&& a.published_at == b.published_at
    &&& speaking::same_listener(a.state, b.state)
}

impl PartialEq for AcreListenerSnapshot {
    fn eq(&self, other: &Self) -> (same: bool) {
        self.generation == other.generation && self.sequence == other.sequence && self.published_at
            == other.published_at && self.state == other.state
    }
}

impl PartialEqSpecImpl for AcreListenerSnapshot {
    open spec fn obeys_eq_spec() -> bool {
        true
    }

    open spec fn eq_spec(&self, other: &Self) -> bool {
        same_listener_snapshot(self@, other@)
    }
}

/// One update of the audio plane.
#[derive(Debug, PartialEq)]
pub enum AcreAudioUpdate {
    Listener(AcreListenerState),
    Speaker(AcreSpeakerAudioUpdate),
}

/// The model of an update.
#[verifier::ext_equal]
pub enum PlaneUpdateView {
    Listener(AcreListenerState),
    Speaker(AudioUpdateView),
}

/// One immutable state of all decisions.
#[derive(Debug)]
pub struct AcreAudioSnapshot {
    generation: u64,
    sequence: u64,
    published_at: u64,
    listener: Option<AcreListenerSnapshot>,
    speakers: HashMap<u32, AcreSpeakerSnapshot>,
}

/// The model of a snapshot.
#[verifier::ext_equal]
pub struct SnapshotView {
    pub generation: u64,
    pub sequence: u64,
    pub published_at: u64,
    pub listener: Option<ListenerView>,
    pub speakers: Map<u32, SpeakerView>,
}

/// Builds snapshots. A refused update leaves it as it was.
#[derive(Debug)]
pub struct AcreAudioSnapshotBuilder {
    generation: u64,
    sequence: u64,
    max_speakers: usize,
    listener: Option<AcreListenerSnapshot>,
    speakers: HashMap<u32, AcreSpeakerSnapshot>,
}

/// The model of a builder.
#[verifier::ext_equal]
pub struct BuilderView {
    pub generation: u64,
    pub sequence: u64,
    pub max_speakers: usize,
    pub listener: Option<ListenerView>,
    pub speakers: Map<u32, SpeakerView>,
}

/// Why an update was refused.
#[derive(Clone, Copy, Debug, PartialEq, Eq, Structural)]
pub enum AcreAudioSnapshotError {
    ZeroSpeakerCapacity,
    TooManySpeakers { limit: usize },
    SequenceExhausted,
    GenerationExhausted,
}

impl View for AcreAudioSnapshotError {
    type V = AcreAudioSnapshotError;

    open spec fn view(&self) -> AcreAudioSnapshotError {
        *self
    }
}

impl View for AcreSpeakerSnapshot {
    type V = SpeakerView;

    closed spec fn view(&self) -> SpeakerView {
        SpeakerView {
            speaker_id: self.speaker_id,
            generation: self.generation,
            sequence: self.sequence,
            published_at: self.published_at,
            speaks_babel: self.speaks_babel,
            curve_scale: self.curve_scale,
            decision: self.decision@,
        }
    }
}

impl Clone for AcreSpeakerSnapshot {
    fn clone(&self) -> (copy: Self)
        ensures
            copy@ == self@,
    {
        AcreSpeakerSnapshot {
            speaker_id: self.speaker_id,
            generation: self.generation,
            sequence: self.sequence,
            published_at: self.published_at,
            speaks_babel: self.speaks_babel,
            curve_scale: self.curve_scale,
            decision: self.decision.clone(),
        }
    }
}

impl View for AcreListenerSnapshot {
    type V = ListenerView;

    closed spec fn view(&self) -> ListenerView {
        ListenerView {
            generation: self.generation,
            sequence: self.sequence,
            published_at: self.published_at,
            state: self.state,
        }
    }
}

impl View for AcreAudioUpdate {
    type V = PlaneUpdateView;

    open spec fn view(&self) -> PlaneUpdateView {
        match *self {
            AcreAudioUpdate::Listener(state) => PlaneUpdateView::Listener(state),
            AcreAudioUpdate::Speaker(update) => PlaneUpdateView::Speaker(update@),
        }
    }
}

/// The models of the decisions in a table.
pub open spec fn speaker_views(table: Map<u32, AcreSpeakerSnapshot>) -> Map<u32, SpeakerView> {
    table.map_values(|speaker: AcreSpeakerSnapshot| speaker@)
}

impl View for AcreAudioSnapshot {
    type V = SnapshotView;

    closed spec fn view(&self) -> SnapshotView {
        SnapshotView {
            generation: self.generation,
            sequence: self.sequence,
            published_at: self.published_at,
            listener: model::optional(self.listener),
            speakers: speaker_views(self.speakers@),
        }
    }
}

impl View for AcreAudioSnapshotBuilder {
    type V = BuilderView;

    closed spec fn view(&self) -> BuilderView {
        BuilderView {
            generation: self.generation,
            sequence: self.sequence,
            max_speakers: self.max_speakers,
            listener: model::optional(self.listener),
            speakers: speaker_views(self.speakers@),
        }
    }
}

/// Whether something published at `published_at` is still valid.
pub open spec fn fresh(published_at: u64, ttl: u64, now: u64) -> bool {
    now <= published_at || now - published_at <= ttl
}

/// The builder's state as a snapshot of the given time.
pub open spec fn snapshot_of(b: BuilderView, published_at: u64) -> SnapshotView {
    SnapshotView {
        generation: b.generation,
        sequence: b.sequence,
        published_at,
        listener: b.listener,
        speakers: b.speakers,
    }
}

/// The builder before the first update.
pub open spec fn empty_builder(max_speakers: usize) -> BuilderView {
    BuilderView {
        generation: 1,
        sequence: 0,
        max_speakers,
        listener: None,
        speakers: Map::empty(),
    }
}

/// The builder after a decision about a speaker, or why it is refused.
pub open spec fn with_speaker(b: BuilderView, update: AudioUpdateView, at: u64) -> Result<
    BuilderView,
    AcreAudioSnapshotError,
> {
    let id = update.speaking.speaker_id;
    if !b.speakers.contains_key(id) && b.speakers.len() >= b.max_speakers {
        Err(AcreAudioSnapshotError::TooManySpeakers { limit: b.max_speakers })
    } else if b.sequence == u64::MAX {
        Err(AcreAudioSnapshotError::SequenceExhausted)
    } else {
        let sequence = (b.sequence + 1) as u64;
        Ok(
            BuilderView {
                sequence,
                speakers: b.speakers.insert(
                    id,
                    SpeakerView {
                        speaker_id: id,
                        generation: b.generation,
                        sequence,
                        published_at: at,
                        speaks_babel: update.speaking.speaks_babel,
                        curve_scale: update.curve_scale,
                        decision: update.speaking.decision,
                    },
                ),
                ..b
            },
        )
    }
}

/// The builder after an update of the listener, or why it is refused.
pub open spec fn with_listener(b: BuilderView, state: AcreListenerState, at: u64) -> Result<
    BuilderView,
    AcreAudioSnapshotError,
> {
    if b.sequence == u64::MAX {
        Err(AcreAudioSnapshotError::SequenceExhausted)
    } else {
        let sequence = (b.sequence + 1) as u64;
        Ok(
            BuilderView {
                sequence,
                listener: Some(
                    ListenerView { generation: b.generation, sequence, published_at: at, state },
                ),
                ..b
            },
        )
    }
}

/// The builder after an update, or why it is refused.
pub open spec fn with_update(b: BuilderView, update: PlaneUpdateView, at: u64) -> Result<
    BuilderView,
    AcreAudioSnapshotError,
> {
    match update {
        PlaneUpdateView::Listener(state) => with_listener(b, state, at),
        PlaneUpdateView::Speaker(speaker) => with_speaker(b, speaker, at),
    }
}

/// The builder without a speaker, or why the removal is refused.
pub open spec fn without_speaker(b: BuilderView, id: u32) -> Result<
    BuilderView,
    AcreAudioSnapshotError,
> {
    if b.sequence == u64::MAX {
        Err(AcreAudioSnapshotError::SequenceExhausted)
    } else {
        Ok(BuilderView { sequence: (b.sequence + 1) as u64, speakers: b.speakers.remove(id), ..b })
    }
}

/// The builder at the start of the next generation.
pub open spec fn next_generation(b: BuilderView) -> Result<BuilderView, AcreAudioSnapshotError> {
    if b.generation == u64::MAX {
        Err(AcreAudioSnapshotError::GenerationExhausted)
    } else {
        Ok(
            BuilderView {
                generation: (b.generation + 1) as u64,
                sequence: 0,
                listener: None,
                speakers: Map::empty(),
                ..b
            },
        )
    }
}

/// What a builder answers to an update, and the builder afterwards.
pub open spec fn answered(
    before: BuilderView,
    after: Result<BuilderView, AcreAudioSnapshotError>,
    at: u64,
) -> (BuilderView, Result<SnapshotView, AcreAudioSnapshotError>) {
    match after {
        Ok(next) => (next, Ok(snapshot_of(next, at))),
        Err(error) => (before, Err(error)),
    }
}

impl AcreSpeakerSnapshot {
    pub fn speaker_id(&self) -> (id: u32)
        ensures
            id == self@.speaker_id,
    {
        self.speaker_id
    }

    pub fn generation(&self) -> (generation: u64)
        ensures
            generation == self@.generation,
    {
        self.generation
    }

    pub fn sequence(&self) -> (sequence: u64)
        ensures
            sequence == self@.sequence,
    {
        self.sequence
    }

    pub fn published_at(&self) -> (at: u64)
        ensures
            at == self@.published_at,
    {
        self.published_at
    }

    pub fn speaks_babel(&self) -> (babel: bool)
        ensures
            babel == self@.speaks_babel,
    {
        self.speaks_babel
    }

    pub fn curve_scale(&self) -> (scale: u32)
        ensures
            scale == self@.curve_scale,
    {
        self.curve_scale
    }

    pub fn decision(&self) -> (decision: &SpeakingDecision)
        ensures
            decision@ == self@.decision,
    {
        &self.decision
    }

    /// Whether the decision is still valid, whatever other speakers do.
    pub fn is_fresh(&self, ttl: u64, now: u64) -> (answer: bool)
        ensures
            answer == fresh(self@.published_at, ttl, now),
    {
        now.saturating_sub(self.published_at) <= ttl
    }
}

impl AcreListenerSnapshot {
    pub fn generation(&self) -> (generation: u64)
        ensures
            generation == self@.generation,
    {
        self.generation
    }

    pub fn sequence(&self) -> (sequence: u64)
        ensures
            sequence == self@.sequence,
    {
        self.sequence
    }

    pub fn published_at(&self) -> (at: u64)
        ensures
            at == self@.published_at,
    {
        self.published_at
    }

    pub fn pose(&self) -> (pose: AcreListenerPose)
        ensures
            pose == self@.state.pose,
    {
        self.state.pose
    }

    pub fn curve_model(&self) -> (curve_model: AcreVoiceCurveModel)
        ensures
            curve_model == self@.state.curve_model,
    {
        self.state.curve_model
    }

    pub fn state(&self) -> (state: AcreListenerState)
        ensures
            state == self@.state,
    {
        self.state
    }

    /// Whether the pose is still valid.
    pub fn is_fresh(&self, ttl: u64, now: u64) -> (answer: bool)
        ensures
            answer == fresh(self@.published_at, ttl, now),
    {
        now.saturating_sub(self.published_at) <= ttl
    }
}

impl AcreAudioSnapshot {
    pub fn generation(&self) -> (generation: u64)
        ensures
            generation == self@.generation,
    {
        self.generation
    }

    /// The sequence of the newest update in the generation.
    pub fn sequence(&self) -> (sequence: u64)
        ensures
            sequence == self@.sequence,
    {
        self.sequence
    }

    pub fn published_at(&self) -> (at: u64)
        ensures
            at == self@.published_at,
    {
        self.published_at
    }

    pub fn listener(&self) -> (listener: Option<&AcreListenerSnapshot>)
        ensures
            match listener {
                Some(known) => self@.listener == Some(known@),
                None => self@.listener is None,
            },
    {
        self.listener.as_ref()
    }

    pub fn speaker(&self, speaker_id: u32) -> (speaker: Option<&AcreSpeakerSnapshot>)
        ensures
            match speaker {
                Some(known) => self@.speakers.contains_key(speaker_id) && known@
                    == self@.speakers[speaker_id],
                None => !self@.speakers.contains_key(speaker_id),
            },
    {
        self.speakers.get(&speaker_id)
    }

    pub fn speaker_count(&self) -> (count: usize)
        ensures
            count == self@.speakers.len(),
    {
        assert(self@.speakers.dom() =~= self.speakers@.dom());
        self.speakers.len()
    }
}

impl Default for AcreAudioSnapshotBuilder {
    fn default() -> (builder: Self)
        ensures
            builder@ == empty_builder(ACRE_AUDIO_MAX_SPEAKERS),
    {
        let builder = AcreAudioSnapshotBuilder {
            generation: 1,
            sequence: 0,
            max_speakers: ACRE_AUDIO_MAX_SPEAKERS,
            listener: None,
            speakers: HashMap::new(),
        };
        assert(builder@.speakers =~= Map::empty());
        builder
    }
}

impl AcreAudioSnapshotBuilder {
    /// A builder for at most `max_speakers` speakers, at least one.
    pub fn with_max_speakers(max_speakers: usize) -> (builder: Result<
        Self,
        AcreAudioSnapshotError,
    >)
        ensures
            model::outcome(builder) == if max_speakers == 0 {
                Err(AcreAudioSnapshotError::ZeroSpeakerCapacity)
            } else {
                Ok(empty_builder(max_speakers))
            },
    {
        if max_speakers == 0 {
            return Err(AcreAudioSnapshotError::ZeroSpeakerCapacity);
        }
        let builder = AcreAudioSnapshotBuilder {
            generation: 1,
            sequence: 0,
            max_speakers,
            listener: None,
            speakers: HashMap::new(),
        };
        assert(builder@.speakers =~= Map::empty());
        Ok(builder)
    }

    /// Accepts a decision with the stock curve scale.
    pub fn apply(&mut self, update: SpeakingUpdate, published_at: u64) -> (answer: Result<
        AcreAudioSnapshot,
        AcreAudioSnapshotError,
    >)
        ensures
            (final(self)@, model::outcome(answer)) == answered(
                old(self)@,
                with_speaker(
                    old(self)@,
                    AudioUpdateView { speaking: update@, curve_scale: crate::binary32::ONE },
                    published_at,
                ),
                published_at,
            ),
    {
        self.apply_speaker(AcreSpeakerAudioUpdate::from(update), published_at)
    }

    /// Accepts a decision with the speaker's curve scale.
    pub fn apply_speaker(&mut self, update: AcreSpeakerAudioUpdate, published_at: u64) -> (answer:
        Result<AcreAudioSnapshot, AcreAudioSnapshotError>)
        ensures
            (final(self)@, model::outcome(answer)) == answered(
                old(self)@,
                with_speaker(old(self)@, update@, published_at),
                published_at,
            ),
    {
        let ghost before = self@;
        proof {
            assert(self@.speakers.dom() =~= self.speakers@.dom());
        }
        let id: u32 = update.speaking.speaker_id;
        let known: bool = self.speakers.contains_key(&id);
        if !known && self.speakers.len() >= self.max_speakers {
            return Err(AcreAudioSnapshotError::TooManySpeakers { limit: self.max_speakers });
        }
        let sequence: u64 = self.next_sequence()?;
        let speaker = AcreSpeakerSnapshot {
            speaker_id: id,
            generation: self.generation,
            sequence,
            published_at,
            speaks_babel: update.speaking.speaks_babel,
            curve_scale: update.curve_scale,
            decision: update.speaking.decision,
        };
        self.speakers.insert(id, speaker);
        self.sequence = sequence;
        assert(self@.speakers =~= before.speakers.insert(id, speaker@));
        Ok(self.snapshot(published_at))
    }

    /// Accepts an update of the listener or of a speaker.
    pub fn apply_update(&mut self, update: AcreAudioUpdate, published_at: u64) -> (answer: Result<
        AcreAudioSnapshot,
        AcreAudioSnapshotError,
    >)
        ensures
            (final(self)@, model::outcome(answer)) == answered(
                old(self)@,
                with_update(old(self)@, update@, published_at),
                published_at,
            ),
    {
        match update {
            AcreAudioUpdate::Listener(state) => self.apply_listener(state, published_at),
            AcreAudioUpdate::Speaker(speaker) => self.apply_speaker(speaker, published_at),
        }
    }

    /// Accepts a pose of the listener.
    pub fn apply_listener(&mut self, state: AcreListenerState, published_at: u64) -> (answer:
        Result<AcreAudioSnapshot, AcreAudioSnapshotError>)
        ensures
            (final(self)@, model::outcome(answer)) == answered(
                old(self)@,
                with_listener(old(self)@, state, published_at),
                published_at,
            ),
    {
        let sequence: u64 = self.next_sequence()?;
        self.listener =
        Some(
            AcreListenerSnapshot { generation: self.generation, sequence, published_at, state },
        );
        self.sequence = sequence;
        Ok(self.snapshot(published_at))
    }

    /// Frees the place of a speaker who left.
    pub fn remove_speaker(&mut self, speaker_id: u32, now: u64) -> (answer: Result<
        AcreAudioSnapshot,
        AcreAudioSnapshotError,
    >)
        ensures
            (final(self)@, model::outcome(answer)) == answered(
                old(self)@,
                without_speaker(old(self)@, speaker_id),
                now,
            ),
    {
        let ghost before = self@;
        let sequence: u64 = self.next_sequence()?;
        self.speakers.remove(&speaker_id);
        self.sequence = sequence;
        assert(self@.speakers =~= before.speakers.remove(speaker_id));
        Ok(self.snapshot(now))
    }

    /// Starts the next generation without any earlier decision.
    pub fn reset(&mut self, published_at: u64) -> (answer: Result<
        AcreAudioSnapshot,
        AcreAudioSnapshotError,
    >)
        ensures
            (final(self)@, model::outcome(answer)) == answered(
                old(self)@,
                next_generation(old(self)@),
                published_at,
            ),
    {
        if self.generation == u64::MAX {
            return Err(AcreAudioSnapshotError::GenerationExhausted);
        }
        self.generation = self.generation + 1;
        self.sequence = 0;
        self.listener = None;
        self.speakers.clear();
        assert(self@.speakers =~= Map::empty());
        Ok(self.snapshot(published_at))
    }

    /// The current state as a snapshot.
    pub fn snapshot(&self, published_at: u64) -> (snapshot: AcreAudioSnapshot)
        ensures
            snapshot@ == snapshot_of(self@, published_at),
    {
        AcreAudioSnapshot {
            generation: self.generation,
            sequence: self.sequence,
            published_at,
            listener: self.listener,
            speakers: self.speakers.clone(),
        }
    }

    fn next_sequence(&self) -> (sequence: Result<u64, AcreAudioSnapshotError>)
        ensures
            sequence == if self@.sequence == u64::MAX {
                Err::<u64, AcreAudioSnapshotError>(AcreAudioSnapshotError::SequenceExhausted)
            } else {
                Ok((self@.sequence + 1) as u64)
            },
    {
        if self.sequence == u64::MAX {
            return Err(AcreAudioSnapshotError::SequenceExhausted);
        }
        Ok(self.sequence + 1)
    }
}

/// What holds of a builder at any time: it holds no more speakers than it may,
/// each under their own ID, and everything in it is of the current generation
/// and no newer than the current sequence.
pub open spec fn orderly(b: BuilderView) -> bool {
    &&& b.speakers.dom().finite()
    &&& b.speakers.len() <= b.max_speakers
    &&& forall|id: u32| #[trigger]
        b.speakers.contains_key(id) ==> {
            &&& b.speakers[id].speaker_id == id
            &&& b.speakers[id].generation == b.generation
            &&& b.speakers[id].sequence <= b.sequence
        }
    &&& b.listener matches Some(listener) ==> listener.generation == b.generation
        && listener.sequence <= b.sequence
}

/// A builder starts orderly and every accepted update keeps it so; each
/// accepted update of a generation carries a sequence of its own, one above
/// the last.
pub proof fn law_builders_stay_orderly(
    b: BuilderView,
    update: PlaneUpdateView,
    id: u32,
    at: u64,
    max_speakers: usize,
)
    requires
        orderly(b),
    ensures
        orderly(empty_builder(max_speakers)),
        with_update(b, update, at) matches Ok(next) ==> orderly(next) && next.generation
            == b.generation && next.sequence == b.sequence + 1,
        without_speaker(b, id) matches Ok(next) ==> orderly(next) && next.generation
            == b.generation && next.sequence == b.sequence + 1,
        next_generation(b) matches Ok(next) ==> orderly(next) && next.generation == b.generation
            + 1,
{
    if let PlaneUpdateView::Speaker(speaker) = update {
        if let Ok(next) = with_speaker(b, speaker, at) {
            let key = speaker.speaking.speaker_id;
            assert(next.speakers.dom() =~= b.speakers.dom().insert(key));
        }
    }
    if let Ok(next) = without_speaker(b, id) {
        assert(next.speakers.dom() =~= b.speakers.dom().remove(id));
    }
}

/// A full builder refuses a new speaker, but still refreshes every known one.
pub proof fn law_full_builders_refresh_known_speakers(
    b: BuilderView,
    update: AudioUpdateView,
    at: u64,
)
    requires
        b.speakers.len() >= b.max_speakers,
        b.sequence < u64::MAX,
    ensures
        with_speaker(b, update, at) is Ok <==> b.speakers.contains_key(
            update.speaking.speaker_id,
        ),
{
}

/// A decision about one speaker leaves the decisions about all others as they
/// are.
pub proof fn law_speakers_are_independent(
    b: BuilderView,
    update: AudioUpdateView,
    other: u32,
    at: u64,
)
    requires
        other != update.speaking.speaker_id,
    ensures
        with_speaker(b, update, at) matches Ok(next) ==> next.speakers.contains_key(other)
            == b.speakers.contains_key(other) && (b.speakers.contains_key(other)
            ==> next.speakers[other] == b.speakers[other]),
{
}

} // verus!
