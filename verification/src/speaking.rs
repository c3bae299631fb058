//! ACRE's audibility decisions, as `updateSpeakingData` carries them.
//!
//! Numbers with a fraction are carried as the bit patterns of
//! [`crate::binary32`]. What reading each parameter as such a number gives is
//! handed in beside the message.

use crate::binary32::{self, is_equal, is_finite, is_zero, read_finite, ONE};
use crate::codec::{AcreMessage, MessageView};
use crate::decimal::{self, decimal_text, push_decimal, read_u32, read_usize};
use crate::text::same_text;
use crate::model;
use vstd::prelude::*;
use vstd::std_specs::cmp::PartialEqSpecImpl;

verus! {

/// The most reception paths that one radio decision may name.
pub const ACRE_MAX_RADIO_RECEPTION_PATHS: usize = 64;

/// A vector in the order of ACRE's mixer parameters.
#[derive(Clone, Copy, Debug)]
pub struct AcreSpeakerVector {
    pub x: u32,
    pub z: u32,
    pub y: u32,
}

/// Where the listener stands and looks, as `updateSelf` supplies it.
#[derive(Clone, Copy, Debug)]
pub struct AcreListenerPose {
    pub position: AcreSpeakerVector,
    pub head_vector: AcreSpeakerVector,
}

/// The listener's choice of direct-voice curve.
#[derive(Clone, Copy, Debug, PartialEq, Eq, Structural)]
pub enum AcreVoiceCurveModel {
    Original,
    Amplitude,
    SelectableA,
    SelectableB,
}

/// The local state needed to render one decision in space.
#[derive(Clone, Copy, Debug)]
pub struct AcreListenerState {
    pub pose: AcreListenerPose,
    pub curve_model: AcreVoiceCurveModel,
}

/// The speaking modes that are rendered in space.
#[derive(Clone, Copy, Debug, PartialEq, Eq, Structural)]
pub enum SpatialSpeakingKind {
    Direct,
    Intercom,
    Zeus,
}

/// One reception path of a radio transmission.
#[derive(Clone, Copy, Debug)]
pub struct RadioReceptionPath {
    pub volume: u32,
    pub signal_quality: u32,
    pub signal_model: u32,
    pub loudspeaker: bool,
    pub position: AcreSpeakerVector,
}

/// ACRE's audibility decision for one speaker.
#[derive(Debug)]
pub enum SpeakingDecision {
    Mute,
    Spatial {
        kind: SpatialSpeakingKind,
        volume: u32,
        position: AcreSpeakerVector,
        head_vector: AcreSpeakerVector,
    },
    Radio { paths: Vec<RadioReceptionPath> },
    Spectator { volume: u32 },
    God { volume: u32 },
}

/// The model of a decision.
#[verifier::ext_equal]
pub enum DecisionView {
    Mute,
    Spatial {
        kind: SpatialSpeakingKind,
        volume: u32,
        position: AcreSpeakerVector,
        head_vector: AcreSpeakerVector,
    },
    Radio { paths: Seq<RadioReceptionPath> },
    Spectator { volume: u32 },
    God { volume: u32 },
}

/// One validated `updateSpeakingData` message.
#[derive(Debug)]
pub struct SpeakingUpdate {
    pub speaker_id: u32,
    pub speaks_babel: bool,
    pub decision: SpeakingDecision,
}

/// The model of an update.
#[verifier::ext_equal]
pub struct UpdateView {
    pub speaker_id: u32,
    pub speaks_babel: bool,
    pub decision: DecisionView,
}

/// A decision paired with the curve scale that the speaker's own adapter
/// announced.
#[derive(Debug)]
pub struct AcreSpeakerAudioUpdate {
    pub speaking: SpeakingUpdate,
    pub curve_scale: u32,
}

/// The model of a decision with its curve scale.
#[verifier::ext_equal]
pub struct AudioUpdateView {
    pub speaking: UpdateView,
    pub curve_scale: u32,
}

/// Why an `updateSpeakingData` message was refused.
#[derive(Debug, PartialEq, Eq)]
pub enum AcreSpeakingDataError {
    UnexpectedProcedure(String),
    WrongArity { expected: String, actual: usize },
    UnsupportedSpeakingKind(String),
    InvalidUnsigned { index: usize },
    InvalidBinaryFlag { index: usize },
    InvalidFloat { index: usize },
    InvalidVoiceCurveModel { model: i32 },
    InvalidCurveScale,
    RadioPathCountTooLarge,
}

/// The model of a refusal.
#[verifier::ext_equal]
pub enum SpeakingFault {
    UnexpectedProcedure(Seq<char>),
    WrongArity { expected: Seq<char>, actual: usize },
    UnsupportedSpeakingKind(Seq<char>),
    InvalidUnsigned { index: usize },
    InvalidBinaryFlag { index: usize },
    InvalidFloat { index: usize },
    InvalidVoiceCurveModel { model: i32 },
    InvalidCurveScale,
    RadioPathCountTooLarge,
}

impl View for SpeakingDecision {
    type V = DecisionView;

    open spec fn view(&self) -> DecisionView {
        match *self {
            SpeakingDecision::Mute => DecisionView::Mute,
            SpeakingDecision::Spatial { kind, volume, position, head_vector } =>
                DecisionView::Spatial { kind, volume, position, head_vector },
            SpeakingDecision::Radio { paths } => DecisionView::Radio { paths: paths@ },
            SpeakingDecision::Spectator { volume } => DecisionView::Spectator { volume },
            SpeakingDecision::God { volume } => DecisionView::God { volume },
        }
    }
}

/// Whether two vectors are equal as numbers.
pub open spec fn same_vector(a: AcreSpeakerVector, b: AcreSpeakerVector) -> bool {
    binary32::equal(a.x, b.x) && binary32::equal(a.z, b.z) && binary32::equal(a.y, b.y)
}

impl PartialEq for AcreSpeakerVector {
    fn eq(&self, other: &Self) -> (same: bool) {
        is_equal(self.x, other.x) && is_equal(self.z, other.z) && is_equal(self.y, other.y)
    }
}

impl PartialEqSpecImpl for AcreSpeakerVector {
    open spec fn obeys_eq_spec() -> bool {
        true
    }

    open spec fn eq_spec(&self, other: &Self) -> bool {
        same_vector(*self, *other)
    }
}

/// Whether two poses are equal as numbers.
pub open spec fn same_pose(a: AcreListenerPose, b: AcreListenerPose) -> bool {
    same_vector(a.position, b.position) && same_vector(a.head_vector, b.head_vector)
}

impl PartialEq for AcreListenerPose {
    fn eq(&self, other: &Self) -> (same: bool) {
        self.position == other.position && self.head_vector == other.head_vector
    }
}

impl PartialEqSpecImpl for AcreListenerPose {
    open spec fn obeys_eq_spec() -> bool {
        true
    }

    open spec fn eq_spec(&self, other: &Self) -> bool {
        same_pose(*self, *other)
    }
}

/// Whether two states of the listener are equal as numbers.
pub open spec fn same_listener(a: AcreListenerState, b: AcreListenerState) -> bool {
    same_pose(a.pose, b.pose) && a.curve_model == b.curve_model
}

impl PartialEq for AcreListenerState {
    fn eq(&self, other: &Self) -> (same: bool) {
        self.pose == other.pose && self.curve_model == other.curve_model
    }
}

impl PartialEqSpecImpl for AcreListenerState {
    open spec fn obeys_eq_spec() -> bool {
        true
    }

    open spec fn eq_spec(&self, other: &Self) -> bool {
        same_listener(*self, *other)
    }
}

/// Whether two reception paths are equal as numbers.
pub open spec fn same_path(a: RadioReceptionPath, b: RadioReceptionPath) -> bool {
    &&& binary32::equal(a.volume, b.volume)
    &&& binary32::equal(a.signal_quality, b.signal_quality)
    &&& binary32::equal(a.signal_model, b.signal_model)
    &&& a.loudspeaker == b.loudspeaker
    &&& same_vector(a.position, b.position)
}

impl PartialEq for RadioReceptionPath {
    fn eq(&self, other: &Self) -> (same: bool) {
        is_equal(self.volume, other.volume) && is_equal(self.signal_quality, other.signal_quality)
            && is_equal(self.signal_model, other.signal_model) && self.loudspeaker
            == other.loudspeaker && self.position == other.position
    }
}

impl PartialEqSpecImpl for RadioReceptionPath {
    open spec fn obeys_eq_spec() -> bool {
        true
    }

    open spec fn eq_spec(&self, other: &Self) -> bool {
        same_path(*self, *other)
    }
}

/// Whether two lists of reception paths are equal as numbers.
pub open spec fn same_paths(a: Seq<RadioReceptionPath>, b: Seq<RadioReceptionPath>) -> bool {
    a.len() == b.len() && forall|i: int| 0 <= i < a.len() ==> same_path(#[trigger] a[i], b[i])
}

fn are_same_paths(a: &Vec<RadioReceptionPath>, b: &Vec<RadioReceptionPath>) -> (same: bool)
    ensures
        same == same_paths(a@, b@),
{
    if a.len() != b.len() {
        return false;
    }
    let mut i: usize = 0;
    while i < a.len()
        invariant
            i <= a@.len(),
            a@.len() == b@.len(),
            forall|k: int| 0 <= k < i ==> same_path(#[trigger] a@[k], b@[k]),
        decreases a@.len() - i,
    {
        if a[i] != b[i] {
            assert(!same_path(a@[i as int], b@[i as int]));
            return false;
        }
        i += 1;
    }
    true
}

/// Whether two decisions are equal as numbers.
pub open spec fn same_decision(a: DecisionView, b: DecisionView) -> bool {
    match (a, b) {
        (DecisionView::Mute, DecisionView::Mute) => true,
        (
            DecisionView::Spatial { kind, volume, position, head_vector },
            DecisionView::Spatial {
                kind: other_kind,
                volume: other_volume,
                position: other_position,
                head_vector: other_head,
            },
        ) => kind == other_kind && binary32::equal(volume, other_volume) && same_vector(
            position,
            other_position,
        ) && same_vector(head_vector, other_head),
        (DecisionView::Radio { paths }, DecisionView::Radio { paths: others }) => same_paths(
            paths,
            others,
        ),
        (DecisionView::Spectator { volume }, DecisionView::Spectator { volume: other }) =>
            binary32::equal(volume, other),
        (DecisionView::God { volume }, DecisionView::God { volume: other }) => binary32::equal(
            volume,
            other,
        ),
        _ => false,
    }
}

impl PartialEq for SpeakingDecision {
    fn eq(&self, other: &Self) -> (same: bool) {
        match (self, other) {
            (SpeakingDecision::Mute, SpeakingDecision::Mute) => true,
            (
                SpeakingDecision::Spatial { kind, volume, position, head_vector },
                SpeakingDecision::Spatial {
                    kind: other_kind,
                    volume: other_volume,
                    position: other_position,
                    head_vector: other_head,
                },
            ) => *kind == *other_kind && is_equal(*volume, *other_volume) && *position
                == *other_position && *head_vector == *other_head,
            (SpeakingDecision::Radio { paths }, SpeakingDecision::Radio { paths: others }) =>
                are_same_paths(paths, others),
            (
                SpeakingDecision::Spectator { volume },
                SpeakingDecision::Spectator { volume: other },
            ) => is_equal(*volume, *other),
            (SpeakingDecision::God { volume }, SpeakingDecision::God { volume: other }) =>
                is_equal(*volume, *other),
            _ => false,
        }
    }
}

impl PartialEqSpecImpl for SpeakingDecision {
    open spec fn obeys_eq_spec() -> bool {
        true
    }

    open spec fn eq_spec(&self, other: &Self) -> bool {
        same_decision(self@, other@)
    }
}

impl Clone for SpeakingDecision {
    fn clone(&self) -> (copy: Self)
        ensures
            copy@ == self@,
    {
        match self {
            SpeakingDecision::Mute => SpeakingDecision::Mute,
            SpeakingDecision::Spatial { kind, volume, position, head_vector } =>
                SpeakingDecision::Spatial {
                kind: *kind,
                volume: *volume,
                position: *position,
                head_vector: *head_vector,
            },
            SpeakingDecision::Radio { paths } => {
                let copied: Vec<RadioReceptionPath> = paths.clone();
                assert(copied@ =~= paths@);
                SpeakingDecision::Radio { paths: copied }
            },
            SpeakingDecision::Spectator { volume } => SpeakingDecision::Spectator {
                volume: *volume,
            },
            SpeakingDecision::God { volume } => SpeakingDecision::God { volume: *volume },
        }
    }
}

impl View for SpeakingUpdate {
    type V = UpdateView;

    open spec fn view(&self) -> UpdateView {
        UpdateView {
            speaker_id: self.speaker_id,
            speaks_babel: self.speaks_babel,
            decision: self.decision@,
        }
    }
}

/// Whether two updates are equal as numbers.
pub open spec fn same_update(a: UpdateView, b: UpdateView) -> bool {
    a.speaker_id == b.speaker_id && a.speaks_babel == b.speaks_babel && same_decision(
        a.decision,
        b.decision,
    )
}

impl PartialEq for SpeakingUpdate {
    fn eq(&self, other: &Self) -> (same: bool) {
        self.speaker_id == other.speaker_id && self.speaks_babel == other.speaks_babel
            && self.decision == other.decision
    }
}

impl PartialEqSpecImpl for SpeakingUpdate {
    open spec fn obeys_eq_spec() -> bool {
        true
    }

    open spec fn eq_spec(&self, other: &Self) -> bool {
        same_update(self@, other@)
    }
}

impl Clone for SpeakingUpdate {
    fn clone(&self) -> (copy: Self)
        ensures
            copy@ == self@,
    {
        SpeakingUpdate {
            speaker_id: self.speaker_id,
            speaks_babel: self.speaks_babel,
            decision: self.decision.clone(),
        }
    }
}

impl View for AcreSpeakerAudioUpdate {
    type V = AudioUpdateView;

    open spec fn view(&self) -> AudioUpdateView {
        AudioUpdateView { speaking: self.speaking@, curve_scale: self.curve_scale }
    }
}

/// Whether two decisions with their curve scales are equal as numbers.
pub open spec fn same_audio_update(a: AudioUpdateView, b: AudioUpdateView) -> bool {
    same_update(a.speaking, b.speaking) && binary32::equal(a.curve_scale, b.curve_scale)
}

impl PartialEq for AcreSpeakerAudioUpdate {
    fn eq(&self, other: &Self) -> (same: bool) {
        self.speaking == other.speaking && is_equal(self.curve_scale, other.curve_scale)
    }
}

impl PartialEqSpecImpl for AcreSpeakerAudioUpdate {
    open spec fn obeys_eq_spec() -> bool {
        true
    }

    open spec fn eq_spec(&self, other: &Self) -> bool {
        same_audio_update(self@, other@)
    }
}

impl Clone for AcreSpeakerAudioUpdate {
    fn clone(&self) -> (copy: Self)
        ensures
            copy@ == self@,
    {
        AcreSpeakerAudioUpdate {
            speaking: self.speaking.clone(),
            curve_scale: self.curve_scale,
        }
    }
}

impl View for AcreVoiceCurveModel {
    type V = AcreVoiceCurveModel;

    open spec fn view(&self) -> AcreVoiceCurveModel {
        *self
    }
}

impl View for AcreSpeakingDataError {
    type V = SpeakingFault;

    open spec fn view(&self) -> SpeakingFault {
        match *self {
            AcreSpeakingDataError::UnexpectedProcedure(procedure) =>
                SpeakingFault::UnexpectedProcedure(procedure@),
            AcreSpeakingDataError::WrongArity { expected, actual } => SpeakingFault::WrongArity {
                expected: expected@,
                actual,
            },
            AcreSpeakingDataError::UnsupportedSpeakingKind(kind) =>
                SpeakingFault::UnsupportedSpeakingKind(kind@),
            AcreSpeakingDataError::InvalidUnsigned { index } => SpeakingFault::InvalidUnsigned {
                index,
            },
            AcreSpeakingDataError::InvalidBinaryFlag { index } =>
                SpeakingFault::InvalidBinaryFlag { index },
            AcreSpeakingDataError::InvalidFloat { index } => SpeakingFault::InvalidFloat { index },
            AcreSpeakingDataError::InvalidVoiceCurveModel { model } =>
                SpeakingFault::InvalidVoiceCurveModel { model },
            AcreSpeakingDataError::InvalidCurveScale => SpeakingFault::InvalidCurveScale,
            AcreSpeakingDataError::RadioPathCountTooLarge => SpeakingFault::RadioPathCountTooLarge,
        }
    }
}

/// The curve model that ACRE numbers `value`.
pub open spec fn curve_model_numbered(value: int) -> Option<AcreVoiceCurveModel> {
    if value == 0 {
        Some(AcreVoiceCurveModel::Original)
    } else if value == 1 {
        Some(AcreVoiceCurveModel::Amplitude)
    } else if value == 2 {
        Some(AcreVoiceCurveModel::SelectableA)
    } else if value == 3 {
        Some(AcreVoiceCurveModel::SelectableB)
    } else {
        None
    }
}

impl AcreVoiceCurveModel {
    /// The curve model that ACRE numbers `value`.
    pub fn try_from(value: i32) -> (model: Result<Self, AcreSpeakingDataError>)
        ensures
            match curve_model_numbered(value as int) {
                Some(numbered) => model == Ok::<AcreVoiceCurveModel, AcreSpeakingDataError>(
                    numbered,
                ),
                None => model == Err::<AcreVoiceCurveModel, AcreSpeakingDataError>(
                    AcreSpeakingDataError::InvalidVoiceCurveModel { model: value },
                ),
            },
    {
        match value {
            0 => Ok(AcreVoiceCurveModel::Original),
            1 => Ok(AcreVoiceCurveModel::Amplitude),
            2 => Ok(AcreVoiceCurveModel::SelectableA),
            3 => Ok(AcreVoiceCurveModel::SelectableB),
            _ => Err(AcreSpeakingDataError::InvalidVoiceCurveModel { model: value }),
        }
    }
}

impl AcreSpeakerAudioUpdate {
    /// Pairs a decision with a finite curve scale.
    pub fn new(speaking: SpeakingUpdate, curve_scale: u32) -> (paired: Result<
        Self,
        AcreSpeakingDataError,
    >)
        ensures
            model::outcome(paired) == if binary32::finite(curve_scale) {
                Ok(AudioUpdateView { speaking: speaking@, curve_scale })
            } else {
                Err(SpeakingFault::InvalidCurveScale)
            },
    {
        if !is_finite(curve_scale) {
            return Err(AcreSpeakingDataError::InvalidCurveScale);
        }
        Ok(AcreSpeakerAudioUpdate { speaking, curve_scale })
    }
}

/// A decision alone is paired with the stock curve scale.
impl From<SpeakingUpdate> for AcreSpeakerAudioUpdate {
    fn from(speaking: SpeakingUpdate) -> (paired: Self) {
        AcreSpeakerAudioUpdate { speaking, curve_scale: ONE }
    }
}

impl vstd::std_specs::convert::FromSpecImpl<SpeakingUpdate> for AcreSpeakerAudioUpdate {
    open spec fn obeys_from_spec() -> bool {
        true
    }

    open spec fn from_spec(speaking: SpeakingUpdate) -> Self {
        AcreSpeakerAudioUpdate { speaking, curve_scale: ONE }
    }
}

/// The refusal of a message with the wrong number of parameters.
pub open spec fn arity_fault(message: MessageView, expected: Seq<char>) -> SpeakingFault {
    SpeakingFault::WrongArity { expected, actual: message.parameters.len() as usize }
}

/// The finite number read from parameter `index`.
pub open spec fn number_at(readings: Seq<Option<u32>>, index: int) -> Result<u32, SpeakingFault> {
    match binary32::finite_reading(readings, index) {
        Some(bits) => Ok(bits),
        None => Err(SpeakingFault::InvalidFloat { index: index as usize }),
    }
}

/// The vector read from three parameters; the first that is no finite number
/// decides the refusal.
pub open spec fn vector_at(readings: Seq<Option<u32>>, start: int) -> Result<
    AcreSpeakerVector,
    SpeakingFault,
> {
    match (
        number_at(readings, start),
        number_at(readings, start + 1),
        number_at(readings, start + 2),
    ) {
        (Ok(x), Ok(z), Ok(y)) => Ok(AcreSpeakerVector { x, z, y }),
        (Err(fault), _, _) => Err(fault),
        (_, Err(fault), _) => Err(fault),
        (_, _, Err(fault)) => Err(fault),
    }
}

/// The reception path read from the seven parameters behind `start`.
pub open spec fn path_at(readings: Seq<Option<u32>>, start: int) -> Result<
    RadioReceptionPath,
    SpeakingFault,
> {
    match (
        number_at(readings, start),
        number_at(readings, start + 1),
        number_at(readings, start + 2),
        number_at(readings, start + 3),
        vector_at(readings, start + 4),
    ) {
        (Ok(volume), Ok(signal_quality), Ok(signal_model), Ok(loudspeaker), Ok(position)) => Ok(
            RadioReceptionPath {
                volume,
                signal_quality,
                signal_model,
                loudspeaker: !binary32::zero(loudspeaker),
                position,
            },
        ),
        (Err(fault), _, _, _, _) => Err(fault),
        (_, Err(fault), _, _, _) => Err(fault),
        (_, _, Err(fault), _, _) => Err(fault),
        (_, _, _, Err(fault), _) => Err(fault),
        (_, _, _, _, Err(fault)) => Err(fault),
    }
}

/// The first `count` reception paths.
pub open spec fn paths_at(readings: Seq<Option<u32>>, count: nat) -> Result<
    Seq<RadioReceptionPath>,
    SpeakingFault,
>
    decreases count,
{
    if count == 0 {
        Ok(Seq::empty())
    } else {
        match paths_at(readings, (count - 1) as nat) {
            Err(fault) => Err(fault),
            Ok(paths) => match path_at(readings, 4 + (count - 1) * 7) {
                Err(fault) => Err(fault),
                Ok(path) => Ok(paths.push(path)),
            },
        }
    }
}

/// The spatial decision that a message carries.
pub open spec fn spatial_decision(
    message: MessageView,
    readings: Seq<Option<u32>>,
    kind: SpatialSpeakingKind,
) -> Result<DecisionView, SpeakingFault> {
    if message.parameters.len() != 10 {
        Err(arity_fault(message, decimal::decimal(10)))
    } else {
        match (number_at(readings, 3), vector_at(readings, 4), vector_at(readings, 7)) {
            (Ok(volume), Ok(position), Ok(head_vector)) => Ok(
                DecisionView::Spatial { kind, volume, position, head_vector },
            ),
            (Err(fault), _, _) => Err(fault),
            (_, Err(fault), _) => Err(fault),
            (_, _, Err(fault)) => Err(fault),
        }
    }
}

/// The radio decision that a message carries.
pub open spec fn radio_decision(message: MessageView, readings: Seq<Option<u32>>) -> Result<
    DecisionView,
    SpeakingFault,
> {
    if message.parameters.len() < 4 {
        Err(arity_fault(message, "at least "@ + decimal::decimal(4)))
    } else {
        match decimal::unsigned_value(message.parameters[3], usize::MAX as nat) {
            None => Err(SpeakingFault::InvalidUnsigned { index: 3 }),
            Some(count) => if count > ACRE_MAX_RADIO_RECEPTION_PATHS {
                Err(SpeakingFault::RadioPathCountTooLarge)
            } else if message.parameters.len() != 4 + count * 7 {
                Err(arity_fault(message, decimal::decimal(4 + count * 7)))
            } else {
                match paths_at(readings, count) {
                    Ok(paths) => Ok(DecisionView::Radio { paths }),
                    Err(fault) => Err(fault),
                }
            },
        }
    }
}

/// The decision to hear a speaker without a place in space.
pub open spec fn monitor_decision(
    message: MessageView,
    readings: Seq<Option<u32>>,
    god: bool,
) -> Result<DecisionView, SpeakingFault> {
    if message.parameters.len() != 4 {
        Err(arity_fault(message, decimal::decimal(4)))
    } else {
        match number_at(readings, 3) {
            Ok(volume) => Ok(
                if god {
                    DecisionView::God { volume }
                } else {
                    DecisionView::Spectator { volume }
                },
            ),
            Err(fault) => Err(fault),
        }
    }
}

/// The decision that a message carries, by the letter in front.
pub open spec fn carried_decision(message: MessageView, readings: Seq<Option<u32>>) -> Result<
    DecisionView,
    SpeakingFault,
> {
    let kind = message.parameters[0];
    if kind == "m"@ {
        if message.parameters.len() != 3 {
            Err(arity_fault(message, decimal::decimal(3)))
        } else {
            Ok(DecisionView::Mute)
        }
    } else if kind == "d"@ {
        spatial_decision(message, readings, SpatialSpeakingKind::Direct)
    } else if kind == "i"@ {
        spatial_decision(message, readings, SpatialSpeakingKind::Intercom)
    } else if kind == "z"@ {
        spatial_decision(message, readings, SpatialSpeakingKind::Zeus)
    } else if kind == "r"@ {
        radio_decision(message, readings)
    } else if kind == "s"@ {
        monitor_decision(message, readings, false)
    } else if kind == "g"@ {
        monitor_decision(message, readings, true)
    } else {
        Err(SpeakingFault::UnsupportedSpeakingKind(kind))
    }
}

/// The update that a message carries, or why it is refused.
pub open spec fn carried_update(message: MessageView, readings: Seq<Option<u32>>) -> Result<
    UpdateView,
    SpeakingFault,
> {
    if message.procedure != "updateSpeakingData"@ {
        Err(SpeakingFault::UnexpectedProcedure(message.procedure))
    } else if message.parameters.len() < 3 {
        Err(arity_fault(message, "at least "@ + decimal::decimal(3)))
    } else {
        match decimal::unsigned_value(message.parameters[1], u32::MAX as nat) {
            None => Err(SpeakingFault::InvalidUnsigned { index: 1 }),
            Some(speaker_id) => if message.parameters[2] != "0"@ && message.parameters[2]
                != "1"@ {
                Err(SpeakingFault::InvalidBinaryFlag { index: 2 })
            } else {
                match carried_decision(message, readings) {
                    Err(fault) => Err(fault),
                    Ok(decision) => Ok(
                        UpdateView {
                            speaker_id: speaker_id as u32,
                            speaks_babel: message.parameters[2] != "0"@,
                            decision,
                        },
                    ),
                }
            },
        }
    }
}

fn require_exact_arity(message: &AcreMessage, expected: usize) -> (verdict: Result<
    (),
    AcreSpeakingDataError,
>)
    ensures
        model::outcome(verdict) == if message@.parameters.len() == expected {
            Ok(())
        } else {
            Err(arity_fault(message@, decimal::decimal(expected as nat)))
        },
{
    let parameters: &[String] = message.parameters();
    assert(parameters@.len() == message@.parameters.len());
    if parameters.len() != expected {
        return Err(
            AcreSpeakingDataError::WrongArity {
                expected: decimal_text(expected as u64),
                actual: parameters.len(),
            },
        );
    }
    Ok(())
}

fn require_minimum_arity(message: &AcreMessage, minimum: usize) -> (verdict: Result<
    (),
    AcreSpeakingDataError,
>)
    ensures
        model::outcome(verdict) == if message@.parameters.len() >= minimum {
            Ok(())
        } else {
            Err(arity_fault(message@, "at least "@ + decimal::decimal(minimum as nat)))
        },
{
    let parameters: &[String] = message.parameters();
    assert(parameters@.len() == message@.parameters.len());
    if parameters.len() < minimum {
        let mut expected: String = "at least ".to_owned();
        push_decimal(&mut expected, minimum as u64);
        return Err(AcreSpeakingDataError::WrongArity { expected, actual: parameters.len() });
    }
    Ok(())
}

fn parse_finite(readings: &[Option<u32>], index: usize) -> (number: Result<
    u32,
    AcreSpeakingDataError,
>)
    ensures
        model::outcome(number) == number_at(readings@, index as int),
{
    match read_finite(readings, index) {
        Some(bits) => Ok(bits),
        None => Err(AcreSpeakingDataError::InvalidFloat { index }),
    }
}

fn parse_vector(readings: &[Option<u32>], start: usize) -> (vector: Result<
    AcreSpeakerVector,
    AcreSpeakingDataError,
>)
    requires
        start + 2 <= usize::MAX,
    ensures
        match vector {
            Ok(value) => vector_at(readings@, start as int) == Ok::<
                AcreSpeakerVector,
                SpeakingFault,
            >(value),
            Err(error) => vector_at(readings@, start as int) == Err::<
                AcreSpeakerVector,
                SpeakingFault,
            >(error@),
        },
{
    let x: u32 = parse_finite(readings, start)?;
    let z: u32 = parse_finite(readings, start + 1)?;
    let y: u32 = parse_finite(readings, start + 2)?;
    Ok(AcreSpeakerVector { x, z, y })
}

fn parse_path(readings: &[Option<u32>], start: usize) -> (path: Result<
    RadioReceptionPath,
    AcreSpeakingDataError,
>)
    requires
        start + 6 <= usize::MAX,
    ensures
        match path {
            Ok(value) => path_at(readings@, start as int) == Ok::<
                RadioReceptionPath,
                SpeakingFault,
            >(value),
            Err(error) => path_at(readings@, start as int) == Err::<
                RadioReceptionPath,
                SpeakingFault,
            >(error@),
        },
{
    let volume: u32 = parse_finite(readings, start)?;
    let signal_quality: u32 = parse_finite(readings, start + 1)?;
    let signal_model: u32 = parse_finite(readings, start + 2)?;
    let loudspeaker: u32 = parse_finite(readings, start + 3)?;
    let position: AcreSpeakerVector = parse_vector(readings, start + 4)?;
    Ok(
        RadioReceptionPath {
            volume,
            signal_quality,
            signal_model,
            loudspeaker: !is_zero(loudspeaker),
            position,
        },
    )
}

fn parse_spatial(
    message: &AcreMessage,
    readings: &[Option<u32>],
    kind: SpatialSpeakingKind,
) -> (decision: Result<SpeakingDecision, AcreSpeakingDataError>)
    ensures
        model::outcome(decision) == spatial_decision(message@, readings@, kind),
{
    require_exact_arity(message, 10)?;
    let volume: u32 = parse_finite(readings, 3)?;
    let position: AcreSpeakerVector = parse_vector(readings, 4)?;
    let head_vector: AcreSpeakerVector = parse_vector(readings, 7)?;
    Ok(SpeakingDecision::Spatial { kind, volume, position, head_vector })
}

/// A failed path makes every longer list fail in the same way.
proof fn lemma_failed_path_decides(readings: Seq<Option<u32>>, shorter: nat, count: nat)
    requires
        shorter <= count,
        paths_at(readings, shorter) is Err,
    ensures
        paths_at(readings, count) == paths_at(readings, shorter),
    decreases count,
{
    if shorter < count {
        lemma_failed_path_decides(readings, shorter, (count - 1) as nat);
    }
}

fn parse_radio(message: &AcreMessage, readings: &[Option<u32>]) -> (decision: Result<
    SpeakingDecision,
    AcreSpeakingDataError,
>)
    ensures
        model::outcome(decision) == radio_decision(message@, readings@),
{
    require_minimum_arity(message, 4)?;
    let parameters: &[String] = message.parameters();
    assert(parameters@[3]@ == message@.parameters[3]);
    let count: usize = match read_usize(parameters[3].as_str()) {
        Some(count) => count,
        None => {
            return Err(AcreSpeakingDataError::InvalidUnsigned { index: 3 });
        },
    };
    if count > ACRE_MAX_RADIO_RECEPTION_PATHS {
        return Err(AcreSpeakingDataError::RadioPathCountTooLarge);
    }
    require_exact_arity(message, 4 + count * 7)?;
    let mut paths: Vec<RadioReceptionPath> = Vec::new();
    let mut i: usize = 0;
    while i < count
        invariant
            i <= count <= 64,
            message@.parameters.len() == 4 + count * 7,
            decimal::unsigned_value(message@.parameters[3], usize::MAX as nat) == Some(
                count as nat,
            ),
            paths_at(readings@, i as nat) == Ok::<Seq<RadioReceptionPath>, SpeakingFault>(paths@),
        decreases count - i,
    {
        match parse_path(readings, 4 + i * 7) {
            Ok(path) => paths.push(path),
            Err(error) => {
                proof {
                    assert(paths_at(readings@, (i + 1) as nat) == Err::<
                        Seq<RadioReceptionPath>,
                        SpeakingFault,
                    >(error@));
                    lemma_failed_path_decides(readings@, (i + 1) as nat, count as nat);
                }
                return Err(error);
            },
        }
        i += 1;
    }
    Ok(SpeakingDecision::Radio { paths })
}

fn parse_monitor(message: &AcreMessage, readings: &[Option<u32>], god: bool) -> (decision: Result<
    SpeakingDecision,
    AcreSpeakingDataError,
>)
    ensures
        model::outcome(decision) == monitor_decision(message@, readings@, god),
{
    require_exact_arity(message, 4)?;
    let volume: u32 = parse_finite(readings, 3)?;
    Ok(
        if god {
            SpeakingDecision::God { volume }
        } else {
            SpeakingDecision::Spectator { volume }
        },
    )
}

fn parse_decision(message: &AcreMessage, readings: &[Option<u32>]) -> (decision: Result<
    SpeakingDecision,
    AcreSpeakingDataError,
>)
    requires
        message@.parameters.len() > 0,
    ensures
        model::outcome(decision) == carried_decision(message@, readings@),
{
    let parameters: &[String] = message.parameters();
    assert(parameters@.len() == message@.parameters.len());
    assert(parameters@[0]@ == message@.parameters[0]);
    let kind: &str = parameters[0].as_str();
    if same_text(kind, "m") {
        require_exact_arity(message, 3)?;
        Ok(SpeakingDecision::Mute)
    } else if same_text(kind, "d") {
        parse_spatial(message, readings, SpatialSpeakingKind::Direct)
    } else if same_text(kind, "i") {
        parse_spatial(message, readings, SpatialSpeakingKind::Intercom)
    } else if same_text(kind, "z") {
        parse_spatial(message, readings, SpatialSpeakingKind::Zeus)
    } else if same_text(kind, "r") {
        parse_radio(message, readings)
    } else if same_text(kind, "s") {
        parse_monitor(message, readings, false)
    } else if same_text(kind, "g") {
        parse_monitor(message, readings, true)
    } else {
        Err(AcreSpeakingDataError::UnsupportedSpeakingKind(kind.to_owned()))
    }
}

/// Parses an audio decision. `readings` holds what reading each parameter as a
/// single-precision number gave.
pub fn parse_update_speaking_data(message: &AcreMessage, readings: &[Option<u32>]) -> (update:
    Result<SpeakingUpdate, AcreSpeakingDataError>)
    ensures
        model::outcome(update) == carried_update(message@, readings@),
{
    if !same_text(message.procedure(), "updateSpeakingData") {
        return Err(
            AcreSpeakingDataError::UnexpectedProcedure(message.procedure().to_owned()),
        );
    }
    require_minimum_arity(message, 3)?;
    let parameters: &[String] = message.parameters();
    assert(parameters@.len() == message@.parameters.len());
    assert(parameters@[1]@ == message@.parameters[1]);
    assert(parameters@[2]@ == message@.parameters[2]);
    let speaker_id: u32 = match read_u32(parameters[1].as_str()) {
        Some(speaker_id) => speaker_id,
        None => {
            return Err(AcreSpeakingDataError::InvalidUnsigned { index: 1 });
        },
    };
    let speaks_babel: bool = if same_text(parameters[2].as_str(), "0") {
        false
    } else if same_text(parameters[2].as_str(), "1") {
        true
    } else {
        return Err(AcreSpeakingDataError::InvalidBinaryFlag { index: 2 });
    };
    let decision: SpeakingDecision = parse_decision(message, readings)?;
    Ok(SpeakingUpdate { speaker_id, speaks_babel, decision })
}

/// Whether every number of a decision is finite, and no radio decision names
/// more paths than allowed.
pub open spec fn bounded_decision(decision: DecisionView) -> bool {
    match decision {
        DecisionView::Mute => true,
        DecisionView::Spatial { volume, position, head_vector, .. } => binary32::finite(volume)
            && finite_vector(position) && finite_vector(head_vector),
        DecisionView::Radio { paths } => paths.len() <= ACRE_MAX_RADIO_RECEPTION_PATHS && forall|
            i: int,
        |
            0 <= i < paths.len() ==> finite_path(#[trigger] paths[i]),
        DecisionView::Spectator { volume } => binary32::finite(volume),
        DecisionView::God { volume } => binary32::finite(volume),
    }
}

pub open spec fn finite_vector(vector: AcreSpeakerVector) -> bool {
    binary32::finite(vector.x) && binary32::finite(vector.z) && binary32::finite(vector.y)
}

pub open spec fn finite_path(path: RadioReceptionPath) -> bool {
    binary32::finite(path.volume) && binary32::finite(path.signal_quality) && binary32::finite(
        path.signal_model,
    ) && finite_vector(path.position)
}

proof fn lemma_paths_are_finite(readings: Seq<Option<u32>>, count: nat)
    ensures
        paths_at(readings, count) matches Ok(paths) ==> paths.len() == count && forall|i: int|
            0 <= i < paths.len() ==> finite_path(#[trigger] paths[i]),
    decreases count,
{
    if count > 0 {
        lemma_paths_are_finite(readings, (count - 1) as nat);
    }
}

/// No message yields a decision with a number that is not finite, or with more
/// reception paths than allowed.
pub proof fn law_accepted_decisions_are_bounded(message: MessageView, readings: Seq<Option<u32>>)
    requires
        carried_update(message, readings) is Ok,
    ensures
        bounded_decision(carried_update(message, readings)->Ok_0.decision),
{
    assert(carried_decision(message, readings) is Ok);
    if message.parameters[0] == "r"@ {
        match decimal::unsigned_value(message.parameters[3], usize::MAX as nat) {
            Some(count) => {
                lemma_paths_are_finite(readings, count);
            },
            None => {},
        }
    }
}

} // verus!
