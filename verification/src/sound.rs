//! Loaded sounds: the `loadSound` and `playLoadedSound` messages, and the
//! bounded assembly of a sound from its chunks.
//!
//! Times are nanoseconds of one monotonic clock.

use crate::base64::{self, decode};
use crate::binary32::{self, is_equal, is_in_unit_interval, read_finite};
use crate::codec::{AcreMessage, MessageView};
use crate::decimal::{self, read_usize};
use crate::speaking::AcreSpeakerVector;
use crate::text::same_text;
use crate::{model, speaking, text};
use sha2::{Digest, Sha256};
use vstd::prelude::*;
use vstd::std_specs::cmp::PartialEqSpecImpl;
use vstd::utf8::encode_utf8;

verus! {

/// The most transfers that may be incomplete at once.
pub const ACRE_MAX_PENDING_SOUNDS: usize = 32;

/// The longest base64 text that one chunk carries.
pub const ACRE_MAX_SOUND_CHUNK_BYTES: usize = 3_072;

/// The longest base64 text of one sound.
pub const ACRE_MAX_SOUND_ENCODED_BYTES: usize = 262_144;

/// The most bytes that one sound decodes to.
pub const ACRE_MAX_SOUND_DECODED_BYTES: usize = 196_608;

/// The most chunks that one transfer declares.
pub const ACRE_MAX_SOUND_CHUNKS: usize = 128;

/// How long an incomplete transfer may rest before it is dropped.
pub const ACRE_SOUND_LOAD_TIMEOUT: u64 = 10_000_000_000;

/// The longest sound ID.
pub const ACRE_MAX_SOUND_ID_BYTES: usize = 128;

/// The most base64 text that all incomplete transfers hold together.
pub const ACRE_MAX_PENDING_SOUND_ENCODED_BYTES: usize = 8_388_608;

/// One validated `loadSound` chunk with ACRE's own counter.
#[derive(Debug, PartialEq, Eq)]
pub struct AcreSoundLoadChunk {
    id: String,
    index: usize,
    total: usize,
    base64: String,
}

/// The model of a chunk.
#[verifier::ext_equal]
pub struct ChunkView {
    pub id: Seq<char>,
    pub index: usize,
    pub total: usize,
    pub base64: Seq<char>,
}

/// A complete, decoded sound. The digest identifies its exact bytes.
#[derive(Debug, PartialEq, Eq)]
pub struct AcreLoadedSound {
    id: String,
    bytes: Vec<u8>,
    sha256: [u8; 32],
}

/// The model of a loaded sound.
#[verifier::ext_equal]
pub struct LoadedView {
    pub id: Seq<char>,
    pub bytes: Seq<u8>,
    pub sha256: Seq<u8>,
}

/// A validated `playLoadedSound` request.
#[derive(Debug)]
pub struct AcreSoundPlayback {
    id: String,
    position: AcreSpeakerVector,
    direction: AcreSpeakerVector,
    volume: u32,
    is_world: bool,
}

/// The model of a playback request.
#[verifier::ext_equal]
pub struct PlaybackView {
    pub id: Seq<char>,
    pub position: AcreSpeakerVector,
    pub direction: AcreSpeakerVector,
    pub volume: u32,
    pub is_world: bool,
}

/// Whether two playback requests are equal, their numbers as numbers.
pub open spec fn same_playback(a: PlaybackView, b: PlaybackView) -> bool {
    &&& a.id == b.id
    &&& speaking::same_vector(a.position, b.position)
    &&& speaking::same_vector(a.direction, b.direction)
    &&& binary32::equal(a.volume, b.volume)
    &&& a.is_world == b.is_world
}

impl PartialEq for AcreSoundPlayback {
    fn eq(&self, other: &Self) -> (same: bool) {
        same_text(self.id.as_str(), other.id.as_str()) && self.position == other.position
            && self.direction == other.direction && is_equal(self.volume, other.volume)
            && self.is_world == other.is_world
    }
}

impl PartialEqSpecImpl for AcreSoundPlayback {
    open spec fn obeys_eq_spec() -> bool {
        true
    }

    open spec fn eq_spec(&self, other: &Self) -> bool {
        same_playback(self@, other@)
    }
}

/// A sound ID that was checked.
#[derive(Debug, PartialEq, Eq)]
pub struct SoundId {
    text: String,
}

/// Why a sound message or a transfer was refused.
#[derive(Debug)]
pub enum AcreSoundError {
    UnexpectedProcedure(String),
    WrongArity { procedure: String, expected: usize, actual: usize },
    EmptySoundId,
    SoundIdTooLong { length: usize, limit: usize },
    InvalidSoundId,
    InvalidInteger { procedure: String, index: usize },
    InvalidFloat { procedure: String, index: usize },
    InvalidChunkTotal { total: usize },
    InvalidChunkIndex { index: usize, total: usize },
    ChunkTooLong { length: usize, limit: usize },
    InvalidBase64,
    EmptyNonFinalChunk { id: String },
    ConflictingChunkLayout { id: String },
    ConflictingChunk { id: String },
    EncodedSoundTooLarge { id: String, length: usize, limit: usize },
    PendingSoundBytesExceeded { limit: usize },
    TooManyPendingSounds { limit: usize },
    EmptySoundPayload,
    DecodedSoundTooLarge { length: usize, limit: usize },
    InvalidVolume { volume: u32 },
    InvalidWorldFlag(String),
}

/// The model of a refusal.
#[verifier::ext_equal]
pub enum SoundFault {
    UnexpectedProcedure(Seq<char>),
    WrongArity { procedure: Seq<char>, expected: usize, actual: usize },
    EmptySoundId,
    SoundIdTooLong { length: usize, limit: usize },
    InvalidSoundId,
    InvalidInteger { procedure: Seq<char>, index: usize },
    InvalidFloat { procedure: Seq<char>, index: usize },
    InvalidChunkTotal { total: usize },
    InvalidChunkIndex { index: usize, total: usize },
    ChunkTooLong { length: usize, limit: usize },
    InvalidBase64,
    EmptyNonFinalChunk { id: Seq<char> },
    ConflictingChunkLayout { id: Seq<char> },
    ConflictingChunk { id: Seq<char> },
    EncodedSoundTooLarge { id: Seq<char>, length: usize, limit: usize },
    PendingSoundBytesExceeded { limit: usize },
    TooManyPendingSounds { limit: usize },
    EmptySoundPayload,
    DecodedSoundTooLarge { length: usize, limit: usize },
    InvalidVolume { volume: u32 },
    InvalidWorldFlag(Seq<char>),
}

impl View for AcreSoundError {
    type V = SoundFault;

    open spec fn view(&self) -> SoundFault {
        match *self {
            AcreSoundError::UnexpectedProcedure(procedure) => SoundFault::UnexpectedProcedure(
                procedure@,
            ),
            AcreSoundError::WrongArity { procedure, expected, actual } => SoundFault::WrongArity {
                procedure: procedure@,
                expected,
                actual,
            },
            AcreSoundError::EmptySoundId => SoundFault::EmptySoundId,
            AcreSoundError::SoundIdTooLong { length, limit } => SoundFault::SoundIdTooLong {
                length,
                limit,
            },
            AcreSoundError::InvalidSoundId => SoundFault::InvalidSoundId,
            AcreSoundError::InvalidInteger { procedure, index } => SoundFault::InvalidInteger {
                procedure: procedure@,
                index,
            },
            AcreSoundError::InvalidFloat { procedure, index } => SoundFault::InvalidFloat {
                procedure: procedure@,
                index,
            },
            AcreSoundError::InvalidChunkTotal { total } => SoundFault::InvalidChunkTotal { total },
            AcreSoundError::InvalidChunkIndex { index, total } => SoundFault::InvalidChunkIndex {
                index,
                total,
            },
            AcreSoundError::ChunkTooLong { length, limit } => SoundFault::ChunkTooLong {
                length,
                limit,
            },
            AcreSoundError::InvalidBase64 => SoundFault::InvalidBase64,
            AcreSoundError::EmptyNonFinalChunk { id } => SoundFault::EmptyNonFinalChunk { id: id@ },
            AcreSoundError::ConflictingChunkLayout { id } => SoundFault::ConflictingChunkLayout {
                id: id@,
            },
            AcreSoundError::ConflictingChunk { id } => SoundFault::ConflictingChunk { id: id@ },
            AcreSoundError::EncodedSoundTooLarge { id, length, limit } =>
                SoundFault::EncodedSoundTooLarge { id: id@, length, limit },
            AcreSoundError::PendingSoundBytesExceeded { limit } =>
                SoundFault::PendingSoundBytesExceeded { limit },
            AcreSoundError::TooManyPendingSounds { limit } => SoundFault::TooManyPendingSounds {
                limit,
            },
            AcreSoundError::EmptySoundPayload => SoundFault::EmptySoundPayload,
            AcreSoundError::DecodedSoundTooLarge { length, limit } =>
                SoundFault::DecodedSoundTooLarge { length, limit },
            AcreSoundError::InvalidVolume { volume } => SoundFault::InvalidVolume { volume },
            AcreSoundError::InvalidWorldFlag(flag) => SoundFault::InvalidWorldFlag(flag@),
        }
    }
}

/// Whether two refusals are equal, their numbers as numbers.
pub open spec fn same_fault(a: SoundFault, b: SoundFault) -> bool {
    match (a, b) {
        (SoundFault::InvalidVolume { volume }, SoundFault::InvalidVolume { volume: other }) =>
            binary32::equal(volume, other),
        _ => a == b,
    }
}

impl PartialEq for AcreSoundError {
    fn eq(&self, other: &Self) -> (same: bool) {
        match (self, other) {
            (AcreSoundError::UnexpectedProcedure(name), AcreSoundError::UnexpectedProcedure(other)) => same_text(name.as_str(), other.as_str()),
            (AcreSoundError::WrongArity { procedure, expected, actual }, AcreSoundError::WrongArity { procedure: p, expected: e, actual: a }) => same_text(procedure.as_str(), p.as_str()) && *expected == *e && *actual == *a,
            (AcreSoundError::EmptySoundId, AcreSoundError::EmptySoundId) => true,
            (AcreSoundError::SoundIdTooLong { length, limit }, AcreSoundError::SoundIdTooLong { length: other_length, limit: other_limit }) => *length == *other_length && *limit == *other_limit,
            (AcreSoundError::InvalidSoundId, AcreSoundError::InvalidSoundId) => true,
            (AcreSoundError::InvalidInteger { procedure, index }, AcreSoundError::InvalidInteger { procedure: other_procedure, index: other_index }) => same_text(procedure.as_str(), other_procedure.as_str()) && *index == *other_index,
            (AcreSoundError::InvalidFloat { procedure, index }, AcreSoundError::InvalidFloat { procedure: other_procedure, index: other_index }) => same_text(procedure.as_str(), other_procedure.as_str()) && *index == *other_index,
            (AcreSoundError::InvalidChunkTotal { total }, AcreSoundError::InvalidChunkTotal { total: other_total }) => *total == *other_total,
            (AcreSoundError::InvalidChunkIndex { index, total }, AcreSoundError::InvalidChunkIndex { index: other_index, total: other_total }) => *index == *other_index && *total == *other_total,
            (AcreSoundError::ChunkTooLong { length, limit }, AcreSoundError::ChunkTooLong { length: other_length, limit: other_limit }) => *length == *other_length && *limit == *other_limit,
            (AcreSoundError::InvalidBase64, AcreSoundError::InvalidBase64) => true,
            (AcreSoundError::EmptyNonFinalChunk { id }, AcreSoundError::EmptyNonFinalChunk { id: other_id }) => same_text(id.as_str(), other_id.as_str()),
            (AcreSoundError::ConflictingChunkLayout { id }, AcreSoundError::ConflictingChunkLayout { id: other_id }) => same_text(id.as_str(), other_id.as_str()),
            (AcreSoundError::ConflictingChunk { id }, AcreSoundError::ConflictingChunk { id: other_id }) => same_text(id.as_str(), other_id.as_str()),
            (AcreSoundError::EncodedSoundTooLarge { id, length, limit }, AcreSoundError::EncodedSoundTooLarge { id: other_id, length: other_length, limit: other_limit }) => same_text(id.as_str(), other_id.as_str()) && *length == *other_length && *limit == *other_limit,
            (AcreSoundError::PendingSoundBytesExceeded { limit }, AcreSoundError::PendingSoundBytesExceeded { limit: other_limit }) => *limit == *other_limit,
            (AcreSoundError::TooManyPendingSounds { limit }, AcreSoundError::TooManyPendingSounds { limit: other_limit }) => *limit == *other_limit,
            (AcreSoundError::EmptySoundPayload, AcreSoundError::EmptySoundPayload) => true,
            (AcreSoundError::DecodedSoundTooLarge { length, limit }, AcreSoundError::DecodedSoundTooLarge { length: other_length, limit: other_limit }) => *length == *other_length && *limit == *other_limit,
            (AcreSoundError::InvalidVolume { volume }, AcreSoundError::InvalidVolume { volume: other }) => is_equal(*volume, *other),
            (AcreSoundError::InvalidWorldFlag(flag), AcreSoundError::InvalidWorldFlag(other)) => same_text(flag.as_str(), other.as_str()),
            _ => false,
        }
    }
}

impl PartialEqSpecImpl for AcreSoundError {
    open spec fn obeys_eq_spec() -> bool {
        true
    }

    open spec fn eq_spec(&self, other: &Self) -> bool {
        same_fault(self@, other@)
    }
}

impl View for SoundId {
    type V = Seq<char>;

    closed spec fn view(&self) -> Seq<char> {
        self.text@
    }
}

impl Clone for SoundId {
    fn clone(&self) -> (copy: Self)
        ensures
            copy@ == self@,
    {
        proof {
            use_type_invariant(self);
        }
        SoundId { text: self.text.clone() }
    }
}

impl SoundId {
    /// Every sound ID is fit.
    #[verifier::type_invariant]
    pub closed spec fn inv(self) -> bool {
        sound_id_fault(self@) is None
    }

    /// The ID's text.
    pub fn as_str(&self) -> (text: &str)
        ensures
            text@ == self@,
            sound_id_fault(text@) is None,
    {
        proof {
            use_type_invariant(self);
        }
        self.text.as_str()
    }
}

impl View for AcreSoundLoadChunk {
    type V = ChunkView;

    closed spec fn view(&self) -> ChunkView {
        ChunkView {
            id: self.id@,
            index: self.index,
            total: self.total,
            base64: self.base64@,
        }
    }
}

impl View for AcreLoadedSound {
    type V = LoadedView;

    closed spec fn view(&self) -> LoadedView {
        LoadedView { id: self.id@, bytes: self.bytes@, sha256: self.sha256@ }
    }
}

impl View for AcreSoundPlayback {
    type V = PlaybackView;

    closed spec fn view(&self) -> PlaybackView {
        PlaybackView {
            id: self.id@,
            position: self.position,
            direction: self.direction,
            volume: self.volume,
            is_world: self.is_world,
        }
    }
}

impl Clone for AcreSoundLoadChunk {
    fn clone(&self) -> (copy: Self)
        ensures
            copy@ == self@,
    {
        proof {
            use_type_invariant(self);
        }
        AcreSoundLoadChunk {
            id: self.id.clone(),
            index: self.index,
            total: self.total,
            base64: self.base64.clone(),
        }
    }
}

impl Clone for AcreSoundPlayback {
    fn clone(&self) -> (copy: Self)
        ensures
            copy@ == self@,
    {
        proof {
            use_type_invariant(self);
        }
        AcreSoundPlayback {
            id: self.id.clone(),
            position: self.position,
            direction: self.direction,
            volume: self.volume,
            is_world: self.is_world,
        }
    }
}

impl Clone for AcreLoadedSound {
    fn clone(&self) -> (copy: Self)
        ensures
            copy@ == self@,
    {
        proof {
            use_type_invariant(self);
        }
        let bytes: Vec<u8> = self.bytes.clone();
        assert(bytes@ =~= self.bytes@);
        AcreLoadedSound { id: self.id.clone(), bytes, sha256: self.sha256 }
    }
}

/// Letters, digits, underscore, hyphen and full stop make up a sound ID.
pub open spec fn is_sound_id_byte(byte: u8) -> bool {
    48 <= byte <= 57 || 65 <= byte <= 90 || 97 <= byte <= 122 || byte == 95 || byte == 45 || byte
        == 46
}

/// The base64 alphabet with its padding.
pub open spec fn is_base64_byte(byte: u8) -> bool {
    48 <= byte <= 57 || 65 <= byte <= 90 || 97 <= byte <= 122 || byte == 43 || byte == 47 || byte
        == 61
}

/// How many bytes a text takes.
pub open spec fn size(text: Seq<char>) -> nat {
    encode_utf8(text).len()
}

/// What is wrong with a sound ID.
pub open spec fn sound_id_fault(id: Seq<char>) -> Option<SoundFault> {
    let bytes = encode_utf8(id);
    if id.len() == 0 {
        Some(SoundFault::EmptySoundId)
    } else if bytes.len() > ACRE_MAX_SOUND_ID_BYTES {
        Some(
            SoundFault::SoundIdTooLong {
                length: bytes.len() as usize,
                limit: ACRE_MAX_SOUND_ID_BYTES,
            },
        )
    } else if exists|i: int| 0 <= i < bytes.len() && !is_sound_id_byte(#[trigger] bytes[i]) {
        Some(SoundFault::InvalidSoundId)
    } else {
        None
    }
}

/// The refusal of a message of another procedure or with another number of
/// parameters.
pub open spec fn shape_fault(message: MessageView, procedure: Seq<char>, arity: usize) -> Option<
    SoundFault,
> {
    if message.procedure != procedure {
        Some(SoundFault::UnexpectedProcedure(message.procedure))
    } else if message.parameters.len() != arity {
        Some(
            SoundFault::WrongArity {
                procedure: message.procedure,
                expected: arity,
                actual: message.parameters.len() as usize,
            },
        )
    } else {
        None
    }
}

/// The counter read from parameter `index`.
pub open spec fn counter_at(message: MessageView, index: int) -> Result<usize, SoundFault> {
    match decimal::unsigned_value(message.parameters[index], usize::MAX as nat) {
        Some(value) => Ok(value as usize),
        None => Err(
            SoundFault::InvalidInteger { procedure: message.procedure, index: index as usize },
        ),
    }
}

/// What is wrong with the counters and the payload of a chunk.
pub open spec fn chunk_fault(chunk: ChunkView) -> Option<SoundFault> {
    let bytes = encode_utf8(chunk.base64);
    if chunk.total == 0 || chunk.total > ACRE_MAX_SOUND_CHUNKS {
        Some(SoundFault::InvalidChunkTotal { total: chunk.total })
    } else if chunk.index > chunk.total {
        Some(SoundFault::InvalidChunkIndex { index: chunk.index, total: chunk.total })
    } else if bytes.len() > ACRE_MAX_SOUND_CHUNK_BYTES {
        Some(
            SoundFault::ChunkTooLong {
                length: bytes.len() as usize,
                limit: ACRE_MAX_SOUND_CHUNK_BYTES,
            },
        )
    } else if exists|i: int| 0 <= i < bytes.len() && !is_base64_byte(#[trigger] bytes[i]) {
        Some(SoundFault::InvalidBase64)
    } else {
        None
    }
}

/// The chunk that a `loadSound` message carries, or why it is refused.
pub open spec fn carried_chunk(message: MessageView) -> Result<ChunkView, SoundFault> {
    match shape_fault(message, "loadSound"@, 4) {
        Some(fault) => Err(fault),
        None => match sound_id_fault(message.parameters[0]) {
            Some(fault) => Err(fault),
            None => match (counter_at(message, 1), counter_at(message, 2)) {
                (Ok(index), Ok(total)) => {
                    let chunk = ChunkView {
                        id: message.parameters[0],
                        index,
                        total,
                        base64: message.parameters[3],
                    };
                    match chunk_fault(chunk) {
                        Some(fault) => Err(fault),
                        None => Ok(chunk),
                    }
                },
                (Err(fault), _) => Err(fault),
                (_, Err(fault)) => Err(fault),
            },
        },
    }
}

/// The finite number read from parameter `index`.
pub open spec fn number_at(
    message: MessageView,
    readings: Seq<Option<u32>>,
    index: int,
) -> Result<u32, SoundFault> {
    match binary32::finite_reading(readings, index) {
        Some(bits) => Ok(bits),
        None => Err(
            SoundFault::InvalidFloat { procedure: message.procedure, index: index as usize },
        ),
    }
}

/// The vector read from three parameters.
pub open spec fn vector_at(
    message: MessageView,
    readings: Seq<Option<u32>>,
    start: int,
) -> Result<AcreSpeakerVector, SoundFault> {
    match (
        number_at(message, readings, start),
        number_at(message, readings, start + 1),
        number_at(message, readings, start + 2),
    ) {
        (Ok(x), Ok(z), Ok(y)) => Ok(AcreSpeakerVector { x, z, y }),
        (Err(fault), _, _) => Err(fault),
        (_, Err(fault), _) => Err(fault),
        (_, _, Err(fault)) => Err(fault),
    }
}

/// The request that a `playLoadedSound` message carries, or why it is refused.
pub open spec fn carried_playback(message: MessageView, readings: Seq<Option<u32>>) -> Result<
    PlaybackView,
    SoundFault,
> {
    match shape_fault(message, "playLoadedSound"@, 9) {
        Some(fault) => Err(fault),
        None => match sound_id_fault(message.parameters[0]) {
            Some(fault) => Err(fault),
            None => match (
                vector_at(message, readings, 1),
                vector_at(message, readings, 4),
                number_at(message, readings, 7),
            ) {
                (Ok(position), Ok(direction), Ok(volume)) => if !binary32::in_unit_interval(
                    volume,
                ) {
                    Err(SoundFault::InvalidVolume { volume })
                } else if message.parameters[8] != "0"@ && message.parameters[8] != "1"@ {
                    Err(SoundFault::InvalidWorldFlag(message.parameters[8]))
                } else {
                    Ok(
                        PlaybackView {
                            id: message.parameters[0],
                            position,
                            direction,
                            volume,
                            is_world: message.parameters[8] != "0"@,
                        },
                    )
                },
                (Err(fault), _, _) => Err(fault),
                (_, Err(fault), _) => Err(fault),
                (_, _, Err(fault)) => Err(fault),
            },
        },
    }
}

/// The bytes that base64 text encodes, or why it is refused.
pub open spec fn decoded_payload(encoded: Seq<char>) -> Result<Seq<u8>, SoundFault> {
    let letters = encode_utf8(encoded);
    let most = (letters.len() / 4) * 3;
    if encoded.len() == 0 {
        Err(SoundFault::EmptySoundPayload)
    } else if letters.len() % 4 != 0 {
        Err(SoundFault::InvalidBase64)
    } else if most > ACRE_MAX_SOUND_DECODED_BYTES {
        Err(
            SoundFault::DecodedSoundTooLarge {
                length: most as usize,
                limit: ACRE_MAX_SOUND_DECODED_BYTES,
            },
        )
    } else {
        match base64::encoded_bytes(letters) {
            Some(bytes) => Ok(bytes),
            None => Err(SoundFault::InvalidBase64),
        }
    }
}

fn expect_shape(message: &AcreMessage, procedure: &str, arity: usize) -> (verdict: Result<
    (),
    AcreSoundError,
>)
    ensures
        model::outcome(verdict) == match shape_fault(message@, procedure@, arity) {
            Some(fault) => Err::<(), SoundFault>(fault),
            None => Ok(()),
        },
{
    if !same_text(message.procedure(), procedure) {
        return Err(AcreSoundError::UnexpectedProcedure(message.procedure().to_owned()));
    }
    let parameters: &[String] = message.parameters();
    assert(parameters@.len() == message@.parameters.len());
    if parameters.len() != arity {
        return Err(
            AcreSoundError::WrongArity {
                procedure: message.procedure().to_owned(),
                expected: arity,
                actual: parameters.len(),
            },
        );
    }
    Ok(())
}

fn validated_sound_id(id: &String) -> (checked: Result<String, AcreSoundError>)
    ensures
        model::outcome(checked) == match sound_id_fault(id@) {
            Some(fault) => Err::<Seq<char>, SoundFault>(fault),
            None => Ok(id@),
        },
{
    if id.as_str().is_empty() {
        return Err(AcreSoundError::EmptySoundId);
    }
    let bytes: &[u8] = id.as_str().as_bytes();
    if bytes.len() > ACRE_MAX_SOUND_ID_BYTES {
        return Err(
            AcreSoundError::SoundIdTooLong { length: bytes.len(), limit: ACRE_MAX_SOUND_ID_BYTES },
        );
    }
    let mut i: usize = 0;
    while i < bytes.len()
        invariant
            i <= bytes@.len() <= ACRE_MAX_SOUND_ID_BYTES,
            bytes@ == encode_utf8(id@),
            id@.len() > 0,
            forall|k: int| 0 <= k < i ==> is_sound_id_byte(#[trigger] bytes@[k]),
        decreases bytes@.len() - i,
    {
        let byte: u8 = bytes[i];
        if !(48 <= byte && byte <= 57 || 65 <= byte && byte <= 90 || 97 <= byte && byte <= 122
            || byte == 95 || byte == 45 || byte == 46) {
            assert(!is_sound_id_byte(encode_utf8(id@)[i as int]));
            return Err(AcreSoundError::InvalidSoundId);
        }
        i += 1;
    }
    Ok(id.clone())
}

fn is_base64_text(bytes: &[u8]) -> (answer: bool)
    ensures
        answer == forall|i: int| 0 <= i < bytes@.len() ==> is_base64_byte(#[trigger] bytes@[i]),
{
    let mut i: usize = 0;
    while i < bytes.len()
        invariant
            i <= bytes@.len(),
            forall|k: int| 0 <= k < i ==> is_base64_byte(#[trigger] bytes@[k]),
        decreases bytes@.len() - i,
    {
        let byte: u8 = bytes[i];
        if !(48 <= byte && byte <= 57 || 65 <= byte && byte <= 90 || 97 <= byte && byte <= 122
            || byte == 43 || byte == 47 || byte == 61) {
            assert(!is_base64_byte(bytes@[i as int]));
            return false;
        }
        i += 1;
    }
    true
}

fn parse_counter(message: &AcreMessage, index: usize) -> (counter: Result<usize, AcreSoundError>)
    requires
        index < message@.parameters.len(),
    ensures
        model::outcome(counter) == counter_at(message@, index as int),
{
    let parameters: &[String] = message.parameters();
    assert(parameters@.len() == message@.parameters.len());
    assert(parameters@[index as int]@ == message@.parameters[index as int]);
    match read_usize(parameters[index].as_str()) {
        Some(value) => Ok(value),
        None => Err(
            AcreSoundError::InvalidInteger { procedure: message.procedure().to_owned(), index },
        ),
    }
}

fn parse_finite(message: &AcreMessage, readings: &[Option<u32>], index: usize) -> (number: Result<
    u32,
    AcreSoundError,
>)
    ensures
        model::outcome(number) == number_at(message@, readings@, index as int),
{
    match read_finite(readings, index) {
        Some(bits) => Ok(bits),
        None => Err(
            AcreSoundError::InvalidFloat { procedure: message.procedure().to_owned(), index },
        ),
    }
}

fn parse_vector(message: &AcreMessage, readings: &[Option<u32>], start: usize) -> (vector: Result<
    AcreSpeakerVector,
    AcreSoundError,
>)
    requires
        start + 2 <= usize::MAX,
    ensures
        match vector {
            Ok(value) => vector_at(message@, readings@, start as int) == Ok::<
                AcreSpeakerVector,
                SoundFault,
            >(value),
            Err(error) => vector_at(message@, readings@, start as int) == Err::<
                AcreSpeakerVector,
                SoundFault,
            >(error@),
        },
{
    let x: u32 = parse_finite(message, readings, start)?;
    let z: u32 = parse_finite(message, readings, start + 1)?;
    let y: u32 = parse_finite(message, readings, start + 2)?;
    Ok(AcreSpeakerVector { x, z, y })
}

/// Parses a `loadSound:id,index,total,base64` message. ACRE counts from one;
/// an index of zero is accepted too. Which of the two a transfer does is fixed
/// by its first chunk.
pub fn parse_load_sound(message: &AcreMessage) -> (chunk: Result<
    AcreSoundLoadChunk,
    AcreSoundError,
>)
    ensures
        model::outcome(chunk) == carried_chunk(message@),
{
    expect_shape(message, "loadSound", 4)?;
    let parameters: &[String] = message.parameters();
    assert(parameters@.len() == message@.parameters.len());
    assert(parameters@[0]@ == message@.parameters[0]);
    assert(parameters@[3]@ == message@.parameters[3]);
    let id: String = validated_sound_id(&parameters[0])?;
    let index: usize = parse_counter(message, 1)?;
    let total: usize = parse_counter(message, 2)?;
    if total == 0 || total > ACRE_MAX_SOUND_CHUNKS {
        return Err(AcreSoundError::InvalidChunkTotal { total });
    }
    if index > total {
        return Err(AcreSoundError::InvalidChunkIndex { index, total });
    }
    let base64: String = parameters[3].clone();
    let bytes: &[u8] = base64.as_str().as_bytes();
    if bytes.len() > ACRE_MAX_SOUND_CHUNK_BYTES {
        return Err(
            AcreSoundError::ChunkTooLong { length: bytes.len(), limit: ACRE_MAX_SOUND_CHUNK_BYTES },
        );
    }
    if !is_base64_text(bytes) {
        return Err(AcreSoundError::InvalidBase64);
    }
    Ok(AcreSoundLoadChunk { id, index, total, base64 })
}

/// Parses a `playLoadedSound` request. `readings` holds what reading each
/// parameter as a single-precision number gave.
pub fn parse_play_loaded_sound(message: &AcreMessage, readings: &[Option<u32>]) -> (playback:
    Result<AcreSoundPlayback, AcreSoundError>)
    ensures
        model::outcome(playback) == carried_playback(message@, readings@),
{
    expect_shape(message, "playLoadedSound", 9)?;
    let parameters: &[String] = message.parameters();
    assert(parameters@.len() == message@.parameters.len());
    assert(parameters@[0]@ == message@.parameters[0]);
    assert(parameters@[8]@ == message@.parameters[8]);
    let id: String = validated_sound_id(&parameters[0])?;
    let position: AcreSpeakerVector = parse_vector(message, readings, 1)?;
    let direction: AcreSpeakerVector = parse_vector(message, readings, 4)?;
    let volume: u32 = parse_finite(message, readings, 7)?;
    if !is_in_unit_interval(volume) {
        return Err(AcreSoundError::InvalidVolume { volume });
    }
    let is_world: bool = if same_text(parameters[8].as_str(), "0") {
        false
    } else if same_text(parameters[8].as_str(), "1") {
        true
    } else {
        return Err(AcreSoundError::InvalidWorldFlag(parameters[8].clone()));
    };
    Ok(AcreSoundPlayback { id, position, direction, volume, is_world })
}

fn decode_payload(encoded: &String) -> (payload: Result<Vec<u8>, AcreSoundError>)
    ensures
        match payload {
            Ok(bytes) => decoded_payload(encoded@) == Ok::<Seq<u8>, SoundFault>(bytes@),
            Err(error) => decoded_payload(encoded@) == Err::<Seq<u8>, SoundFault>(error@),
        },
{
    if encoded.as_str().is_empty() {
        return Err(AcreSoundError::EmptySoundPayload);
    }
    let letters: &[u8] = encoded.as_str().as_bytes();
    if letters.len() % 4 != 0 {
        return Err(AcreSoundError::InvalidBase64);
    }
    let most: usize = (letters.len() / 4) * 3;
    if most > ACRE_MAX_SOUND_DECODED_BYTES {
        return Err(
            AcreSoundError::DecodedSoundTooLarge {
                length: most,
                limit: ACRE_MAX_SOUND_DECODED_BYTES,
            },
        );
    }
    match decode(letters) {
        Some(bytes) => Ok(bytes),
        None => Err(AcreSoundError::InvalidBase64),
    }
}

/// The SHA-256 digest of `bytes`.
pub uninterp spec fn sha256_of(bytes: Seq<u8>) -> Seq<u8>;

/// `sha2::Sha256::digest`: the digest is determined by the bytes alone and is
/// what `sha256_of` names.
#[verifier::external_body]
pub(crate) fn sha256(bytes: &[u8]) -> (digest: [u8; 32])
    ensures
        digest@ == sha256_of(bytes@),
{
    Sha256::digest(bytes).into()
}

impl AcreSoundLoadChunk {
    /// Every chunk has a fit ID, counters in range and a bounded payload.
    #[verifier::type_invariant]
    pub closed spec fn inv(self) -> bool {
        sound_id_fault(self@.id) is None && chunk_fault(self@) is None
    }

    pub fn id(&self) -> (id: &str)
        ensures
            id@ == self@.id,
            sound_id_fault(self@.id) is None,
            chunk_fault(self@) is None,
    {
        proof {
            use_type_invariant(self);
        }
        self.id.as_str()
    }

    pub fn index(&self) -> (index: usize)
        ensures
            index == self@.index,
    {
        self.index
    }

    pub fn total(&self) -> (total: usize)
        ensures
            total == self@.total,
    {
        self.total
    }

    pub fn base64(&self) -> (base64: &str)
        ensures
            base64@ == self@.base64,
    {
        self.base64.as_str()
    }
}

impl AcreLoadedSound {
    /// The ID is fit, and the digest is that of the bytes.
    #[verifier::type_invariant]
    pub closed spec fn inv(self) -> bool {
        sound_id_fault(self@.id) is None && self@.sha256 == sha256_of(self@.bytes)
    }

    /// The checked ID.
    pub fn sound_id(&self) -> (id: SoundId)
        ensures
            id@ == self@.id,
    {
        proof {
            use_type_invariant(self);
        }
        SoundId { text: self.id.clone() }
    }

    pub fn id(&self) -> (id: &str)
        ensures
            id@ == self@.id,
    {
        self.id.as_str()
    }

    pub fn bytes(&self) -> (bytes: &[u8])
        ensures
            bytes@ == self@.bytes,
    {
        self.bytes.as_slice()
    }

    pub fn sha256(&self) -> (digest: &[u8; 32])
        ensures
            digest@ == self@.sha256,
            digest@ == sha256_of(self@.bytes),
    {
        proof {
            use_type_invariant(self);
        }
        &self.sha256
    }
}

impl AcreSoundPlayback {
    /// The ID is fit, and the volume lies between zero and one.
    #[verifier::type_invariant]
    pub closed spec fn inv(self) -> bool {
        sound_id_fault(self@.id) is None && binary32::in_unit_interval(self@.volume)
    }

    /// The checked ID.
    pub fn sound_id(&self) -> (id: SoundId)
        ensures
            id@ == self@.id,
    {
        proof {
            use_type_invariant(self);
        }
        SoundId { text: self.id.clone() }
    }

    pub fn id(&self) -> (id: &str)
        ensures
            id@ == self@.id,
    {
        self.id.as_str()
    }

    pub fn position(&self) -> (position: AcreSpeakerVector)
        ensures
            position == self@.position,
    {
        self.position
    }

    pub fn direction(&self) -> (direction: AcreSpeakerVector)
        ensures
            direction == self@.direction,
    {
        self.direction
    }

    pub fn volume(&self) -> (volume: u32)
        ensures
            volume == self@.volume,
            binary32::in_unit_interval(volume),
    {
        proof {
            use_type_invariant(self);
        }
        self.volume
    }

    pub fn is_world(&self) -> (is_world: bool)
        ensures
            is_world == self@.is_world,
    {
        self.is_world
    }
}

/// An incomplete transfer.
#[derive(Debug)]
struct PendingSound {
    id: String,
    zero_based: bool,
    chunks: Vec<Option<String>>,
    encoded_bytes: usize,
    last_update: u64,
}

/// The model of an incomplete transfer: what has arrived of each declared
/// chunk.
#[verifier::ext_equal]
pub struct PendingView {
    pub id: Seq<char>,
    pub zero_based: bool,
    pub chunks: Seq<Option<Seq<char>>>,
    pub last_update: u64,
}

/// Bounded state of the transfers in progress. It owns encoded chunks only.
#[derive(Debug)]
pub struct AcreSoundAssembler {
    pending: Vec<PendingSound>,
    pending_encoded_bytes: usize,
}

/// The texts of the chunks that have arrived.
pub open spec fn chunk_texts(chunks: Seq<Option<String>>) -> Seq<Option<Seq<char>>> {
    Seq::new(chunks.len(), |i: int| model::optional(chunks[i]))
}

/// How many bytes the chunks that have arrived take.
pub open spec fn arrived_bytes(chunks: Seq<Option<Seq<char>>>) -> nat
    decreases chunks.len(),
{
    if chunks.len() == 0 {
        0
    } else {
        arrived_bytes(chunks.drop_last()) + match chunks.last() {
            Some(text) => size(text),
            None => 0,
        }
    }
}

/// The chunks that have arrived, one behind the other.
pub open spec fn arrived_text(chunks: Seq<Option<Seq<char>>>) -> Seq<char>
    decreases chunks.len(),
{
    if chunks.len() == 0 {
        Seq::empty()
    } else {
        arrived_text(chunks.drop_last()) + match chunks.last() {
            Some(text) => text,
            None => Seq::empty(),
        }
    }
}

/// Whether every declared chunk has arrived.
pub open spec fn all_arrived(chunks: Seq<Option<Seq<char>>>) -> bool {
    forall|i: int| 0 <= i < chunks.len() ==> (#[trigger] chunks[i]) is Some
}

/// How many bytes all transfers hold.
pub open spec fn held_bytes(pending: Seq<PendingView>) -> nat
    decreases pending.len(),
{
    if pending.len() == 0 {
        0
    } else {
        held_bytes(pending.drop_last()) + arrived_bytes(pending.last().chunks)
    }
}

/// Whether the transfer has rested too long.
pub open spec fn expired(transfer: PendingView, now: u64) -> bool {
    now >= transfer.last_update && now - transfer.last_update >= ACRE_SOUND_LOAD_TIMEOUT
}

/// The transfers that have not rested too long.
pub open spec fn unexpired(pending: Seq<PendingView>, now: u64) -> Seq<PendingView>
    decreases pending.len(),
{
    if pending.len() == 0 {
        pending
    } else {
        let head = unexpired(pending.drop_last(), now);
        if expired(pending.last(), now) {
            head
        } else {
            head.push(pending.last())
        }
    }
}

/// The IDs of the transfers that have rested too long.
pub open spec fn expired_ids(pending: Seq<PendingView>, now: u64) -> Seq<Seq<char>>
    decreases pending.len(),
{
    if pending.len() == 0 {
        Seq::empty()
    } else {
        let head = expired_ids(pending.drop_last(), now);
        if expired(pending.last(), now) {
            head.push(pending.last().id)
        } else {
            head
        }
    }
}

/// Whether no two transfers share an ID.
pub open spec fn distinct_ids(pending: Seq<PendingView>) -> bool {
    forall|i: int, j: int|
        0 <= i < j < pending.len() ==> (#[trigger] pending[i]).id != (#[trigger] pending[j]).id
}

/// Whether a transfer is within its bounds.
pub open spec fn bounded_transfer(transfer: PendingView) -> bool {
    &&& 1 <= transfer.chunks.len() <= ACRE_MAX_SOUND_CHUNKS
    &&& arrived_bytes(transfer.chunks) <= ACRE_MAX_SOUND_ENCODED_BYTES
}

/// Whether the transfers are distinct and within all bounds.
pub open spec fn bounded_transfers(pending: Seq<PendingView>) -> bool {
    &&& pending.len() <= ACRE_MAX_PENDING_SOUNDS
    &&& distinct_ids(pending)
    &&& forall|i: int| 0 <= i < pending.len() ==> bounded_transfer(#[trigger] pending[i])
}

/// Which transfer has the ID.
pub open spec fn transfer_of(pending: Seq<PendingView>, id: Seq<char>) -> Option<int>
    decreases pending.len(),
{
    if pending.len() == 0 {
        None
    } else if pending.last().id == id {
        Some(pending.len() - 1)
    } else {
        transfer_of(pending.drop_last(), id)
    }
}

/// A transfer of which nothing has arrived.
pub open spec fn fresh_transfer(chunk: ChunkView, now: u64) -> PendingView {
    PendingView {
        id: chunk.id,
        zero_based: chunk.index == 0,
        chunks: Seq::new(chunk.total as nat, |i: int| None),
        last_update: now,
    }
}

/// The place that a chunk names, counted from zero or from one.
pub open spec fn place_of(chunk: ChunkView, zero_based: bool) -> int {
    if zero_based {
        chunk.index as int
    } else {
        chunk.index - 1
    }
}

/// The place of a chunk in its transfer, whose counter begins at zero or one
/// as that of its first chunk did.
pub open spec fn chunk_place(transfer: PendingView, chunk: ChunkView) -> int {
    place_of(chunk, transfer.zero_based)
}

/// What a chunk does to its transfer: the transfer afterwards, or why both are
/// discarded. `held` is what all transfers hold before.
pub open spec fn extended(transfer: PendingView, chunk: ChunkView, now: u64, held: nat) -> Result<
    PendingView,
    SoundFault,
> {
    let place = chunk_place(transfer, chunk);
    let grown = arrived_bytes(transfer.chunks) + size(chunk.base64);
    if transfer.chunks.len() != chunk.total || (!transfer.zero_based && chunk.index == 0) {
        Err(SoundFault::ConflictingChunkLayout { id: chunk.id })
    } else if place >= chunk.total {
        Err(SoundFault::InvalidChunkIndex { index: chunk.index, total: chunk.total })
    } else if chunk.base64.len() == 0 && place + 1 != chunk.total {
        Err(SoundFault::EmptyNonFinalChunk { id: chunk.id })
    } else {
        match transfer.chunks[place] {
            Some(existing) => if existing == chunk.base64 {
                Ok(PendingView { last_update: now, ..transfer })
            } else {
                Err(SoundFault::ConflictingChunk { id: chunk.id })
            },
            None => if grown > ACRE_MAX_SOUND_ENCODED_BYTES {
                Err(
                    SoundFault::EncodedSoundTooLarge {
                        id: chunk.id,
                        length: grown as usize,
                        limit: ACRE_MAX_SOUND_ENCODED_BYTES,
                    },
                )
            } else if held + size(chunk.base64) > ACRE_MAX_PENDING_SOUND_ENCODED_BYTES {
                Err(
                    SoundFault::PendingSoundBytesExceeded {
                        limit: ACRE_MAX_PENDING_SOUND_ENCODED_BYTES,
                    },
                )
            } else {
                Ok(
                    PendingView {
                        last_update: now,
                        chunks: transfer.chunks.update(place, Some(chunk.base64)),
                        ..transfer
                    },
                )
            },
        }
    }
}

/// The sound that a complete transfer amounts to, or why it is refused.
pub open spec fn assembled(transfer: PendingView) -> Result<Option<LoadedView>, SoundFault> {
    match decoded_payload(arrived_text(transfer.chunks)) {
        Ok(bytes) => Ok(
            Some(LoadedView { id: transfer.id, bytes, sha256: sha256_of(bytes) }),
        ),
        Err(fault) => Err(fault),
    }
}

/// The transfers after a chunk was added to the transfer at `at`, and the
/// answer.
pub open spec fn extended_at(pending: Seq<PendingView>, at: int, chunk: ChunkView, now: u64) -> (
    Seq<PendingView>,
    Result<Option<LoadedView>, SoundFault>,
) {
    let before = pending[at];
    match extended(before, chunk, now, held_bytes(pending)) {
        Err(fault) => (pending.remove(at), Err(fault)),
        Ok(after) => if before.chunks[chunk_place(before, chunk)] is None && all_arrived(
            after.chunks,
        ) {
            (pending.remove(at), assembled(after))
        } else {
            (pending.update(at, after), Ok(None))
        },
    }
}

/// The transfers after a chunk, and the answer: the sound once every declared
/// chunk has arrived. A chunk that conflicts with its transfer discards it.
pub open spec fn accepted(pending: Seq<PendingView>, chunk: ChunkView, now: u64) -> (
    Seq<PendingView>,
    Result<Option<LoadedView>, SoundFault>,
) {
    let kept = unexpired(pending, now);
    match transfer_of(kept, chunk.id) {
        Some(at) => extended_at(kept, at, chunk, now),
        None => if kept.len() >= ACRE_MAX_PENDING_SOUNDS {
            (
                kept,
                Err(SoundFault::TooManyPendingSounds { limit: ACRE_MAX_PENDING_SOUNDS }),
            )
        } else {
            extended_at(kept.push(fresh_transfer(chunk, now)), kept.len() as int, chunk, now)
        },
    }
}

impl View for PendingSound {
    type V = PendingView;

    closed spec fn view(&self) -> PendingView {
        PendingView {
            id: self.id@,
            zero_based: self.zero_based,
            chunks: chunk_texts(self.chunks@),
            last_update: self.last_update,
        }
    }
}

impl View for AcreSoundAssembler {
    type V = Seq<PendingView>;

    closed spec fn view(&self) -> Seq<PendingView> {
        model::views(self.pending@)
    }
}

proof fn lemma_arrived_update(chunks: Seq<Option<Seq<char>>>, at: int, text: Seq<char>)
    requires
        0 <= at < chunks.len(),
        chunks[at] is None,
    ensures
        arrived_bytes(chunks.update(at, Some(text))) == arrived_bytes(chunks) + size(text),
    decreases chunks.len(),
{
    let after = chunks.update(at, Some(text));
    if at == chunks.len() - 1 {
        assert(after.drop_last() =~= chunks.drop_last());
    } else {
        assert(after.drop_last() =~= chunks.drop_last().update(at, Some(text)));
        lemma_arrived_update(chunks.drop_last(), at, text);
    }
}

proof fn lemma_arrived_none(chunks: Seq<Option<Seq<char>>>)
    requires
        forall|i: int| 0 <= i < chunks.len() ==> (#[trigger] chunks[i]) is None,
    ensures
        arrived_bytes(chunks) == 0,
    decreases chunks.len(),
{
    if chunks.len() > 0 {
        assert(chunks.last() == chunks[chunks.len() - 1]);
        lemma_arrived_none(chunks.drop_last());
    }
}

proof fn lemma_held_remove(pending: Seq<PendingView>, at: int)
    requires
        0 <= at < pending.len(),
    ensures
        held_bytes(pending.remove(at)) + arrived_bytes(pending[at].chunks) == held_bytes(pending),
    decreases pending.len(),
{
    if at == pending.len() - 1 {
        assert(pending.remove(at) =~= pending.drop_last());
    } else {
        assert(pending.remove(at).drop_last() =~= pending.drop_last().remove(at));
        assert(pending.remove(at).last() == pending.last());
        lemma_held_remove(pending.drop_last(), at);
    }
}

proof fn lemma_held_update(pending: Seq<PendingView>, at: int, after: PendingView)
    requires
        0 <= at < pending.len(),
    ensures
        held_bytes(pending.update(at, after)) + arrived_bytes(pending[at].chunks) == held_bytes(
            pending,
        ) + arrived_bytes(after.chunks),
    decreases pending.len(),
{
    if at == pending.len() - 1 {
        assert(pending.update(at, after).drop_last() =~= pending.drop_last());
    } else {
        assert(pending.update(at, after).drop_last() =~= pending.drop_last().update(at, after));
        assert(pending.update(at, after).last() == pending.last());
        lemma_held_update(pending.drop_last(), at, after);
    }
}

proof fn lemma_held_bound(pending: Seq<PendingView>)
    requires
        forall|i: int| 0 <= i < pending.len() ==> bounded_transfer(#[trigger] pending[i]),
    ensures
        held_bytes(pending) <= pending.len() * ACRE_MAX_SOUND_ENCODED_BYTES,
    decreases pending.len(),
{
    if pending.len() > 0 {
        assert(bounded_transfer(pending[pending.len() - 1]));
        assert forall|i: int| 0 <= i < pending.drop_last().len() implies bounded_transfer(
            #[trigger] pending.drop_last()[i],
        ) by {
            assert(pending.drop_last()[i] == pending[i]);
        }
        lemma_held_bound(pending.drop_last());
    }
}

proof fn lemma_transfer_of(pending: Seq<PendingView>, id: Seq<char>)
    ensures
        match transfer_of(pending, id) {
            Some(at) => 0 <= at < pending.len() && pending[at].id == id,
            None => forall|i: int| 0 <= i < pending.len() ==> (#[trigger] pending[i]).id != id,
        },
    decreases pending.len(),
{
    if pending.len() > 0 && pending.last().id != id {
        let head = pending.drop_last();
        lemma_transfer_of(head, id);
        assert forall|i: int| 0 <= i < head.len() implies head[i] == #[trigger] pending[i] by {}
    }
}

/// Removing a transfer keeps the bounds.
proof fn lemma_bounds_after_remove(pending: Seq<PendingView>, at: int)
    requires
        0 <= at < pending.len(),
        bounded_transfers(pending),
    ensures
        bounded_transfers(pending.remove(at)),
{
    let after = pending.remove(at);
    assert forall|i: int| 0 <= i < after.len() implies bounded_transfer(#[trigger] after[i]) by {
        if i < at {
            assert(after[i] == pending[i]);
        } else {
            assert(after[i] == pending[i + 1]);
        }
    }
    assert forall|i: int, j: int| 0 <= i < j < after.len() implies (#[trigger] after[i]).id != (
    #[trigger] after[j]).id by {
        let p = if i < at {
            i
        } else {
            i + 1
        };
        let q = if j < at {
            j
        } else {
            j + 1
        };
        assert(after[i] == pending[p]);
        assert(after[j] == pending[q]);
    }
}

/// Dropping expired transfers keeps the bounds.
proof fn lemma_bounds_after_expiry(pending: Seq<PendingView>, now: u64)
    requires
        bounded_transfers(pending),
    ensures
        bounded_transfers(unexpired(pending, now)),
        unexpired(pending, now).len() <= pending.len(),
        forall|i: int|
            0 <= i < unexpired(pending, now).len() ==> exists|j: int|
                0 <= j < pending.len() && #[trigger] pending[j] == #[trigger] unexpired(
                    pending,
                    now,
                )[i],
    decreases pending.len(),
{
    if pending.len() > 0 {
        let head = pending.drop_last();
        assert(bounded_transfers(head)) by {
            assert forall|i: int| 0 <= i < head.len() implies bounded_transfer(
                #[trigger] head[i],
            ) by {
                assert(head[i] == pending[i]);
            }
            assert forall|i: int, j: int| 0 <= i < j < head.len() implies (#[trigger] head[i]).id
                != (#[trigger] head[j]).id by {
                assert(head[i] == pending[i] && head[j] == pending[j]);
            }
        }
        lemma_bounds_after_expiry(head, now);
        let rest = unexpired(head, now);
        let all = unexpired(pending, now);
        assert forall|i: int| 0 <= i < all.len() implies exists|j: int|
            0 <= j < pending.len() && #[trigger] pending[j] == #[trigger] all[i] by {
            if i < rest.len() {
                assert(all[i] == rest[i]);
                let j = choose|j: int| 0 <= j < head.len() && head[j] == rest[i];
                assert(pending[j] == all[i]);
            } else {
                assert(pending[pending.len() - 1] == all[i]);
            }
        }
        if !expired(pending.last(), now) {
            assert forall|i: int, j: int| 0 <= i < j < all.len() implies (#[trigger] all[i]).id
                != (#[trigger] all[j]).id by {
                assert(all[i] == rest[i]);
                if j < rest.len() {
                    assert(all[j] == rest[j]);
                } else {
                    let k = choose|k: int| 0 <= k < head.len() && head[k] == rest[i];
                    assert(pending[k] == all[i]);
                    assert(pending[pending.len() - 1] == all[j]);
                }
            }
            assert forall|i: int| 0 <= i < all.len() implies bounded_transfer(
                #[trigger] all[i],
            ) by {
                if i < rest.len() {
                    assert(all[i] == rest[i]);
                } else {
                    assert(pending[pending.len() - 1] == all[i]);
                }
            }
        }
    }
}

/// Whether each transfer's count of bytes is right.
spec fn counted(pending: Seq<PendingSound>) -> bool {
    forall|i: int|
        0 <= i < pending.len() ==> (#[trigger] pending[i]).encoded_bytes == arrived_bytes(
            pending[i]@.chunks,
        )
}

/// Removes the transfers that have rested too long; returns their IDs.
fn drop_expired(pending: &mut Vec<PendingSound>, held: &mut usize, now: u64) -> (ids: Vec<String>)
    requires
        counted(old(pending)@),
        *old(held) == held_bytes(model::views(old(pending)@)),
    ensures
        counted(final(pending)@),
        *final(held) == held_bytes(model::views(final(pending)@)),
        model::views(final(pending)@) == unexpired(model::views(old(pending)@), now),
        text::texts(ids@) == expired_ids(model::views(old(pending)@), now),
{
    let ghost before = model::views(pending@);
    let mut ids: Vec<String> = Vec::new();
    let mut i: usize = 0;
    let ghost mut seen: int = 0;
    proof {
        assert(before.take(0) =~= Seq::<PendingView>::empty());
        assert(before.skip(0) =~= before);
        assert(unexpired(before.take(0), now) =~= Seq::<PendingView>::empty());
        assert(text::texts(ids@) =~= Seq::<Seq<char>>::empty());
    }
    while i < pending.len()
        invariant
            counted(pending@),
            *held == held_bytes(model::views(pending@)),
            i <= pending@.len(),
            0 <= seen <= before.len(),
            unexpired(before.take(seen), now).len() == i,
            model::views(pending@) == unexpired(before.take(seen), now) + before.skip(seen),
            text::texts(ids@) == expired_ids(before.take(seen), now),
        decreases pending@.len() - i,
    {
        proof {
            assert(model::views(pending@)[i as int] == pending@[i as int]@);
            assert(before.skip(seen)[0] == before[seen]);
            assert(before.take(seen + 1).drop_last() =~= before.take(seen));
            assert(before.take(seen + 1).last() == before[seen]);
        }
        let rested: u64 = now.saturating_sub(pending[i].last_update);
        if rested >= ACRE_SOUND_LOAD_TIMEOUT {
            let ghost all = pending@;
            let ghost earlier = text::texts(ids@);
            let dropped: PendingSound = pending.remove(i);
            proof {
                lemma_held_remove(model::views(all), i as int);
                model::lemma_views_remove(all, i as int);
                assert(model::views(pending@) =~= unexpired(before.take(seen + 1), now)
                    + before.skip(seen + 1));
                assert forall|k: int| 0 <= k < pending@.len() implies (
                #[trigger] pending@[k]).encoded_bytes == arrived_bytes(pending@[k]@.chunks) by {
                    if k < i {
                        assert(pending@[k] == all[k]);
                    } else {
                        assert(pending@[k] == all[k + 1]);
                    }
                }
            }
            *held = *held - dropped.encoded_bytes;
            ids.push(dropped.id);
            assert(text::texts(ids@) =~= earlier.push(before[seen].id));
        } else {
            i += 1;
            assert(model::views(pending@) =~= unexpired(before.take(seen + 1), now) + before.skip(
                seen + 1,
            ));
        }
        proof {
            seen = seen + 1;
        }
    }
    proof {
        assert(before.skip(seen).len() == 0);
        assert(before.take(seen) =~= before);
        assert(model::views(pending@) =~= unexpired(before, now));
    }
    ids
}

/// Finds the transfer with the ID.
fn find_transfer(pending: &Vec<PendingSound>, id: &String) -> (found: Option<usize>)
    ensures
        match found {
            Some(at) => at < pending@.len() && transfer_of(model::views(pending@), id@) == Some(
                at as int,
            ),
            None => transfer_of(model::views(pending@), id@) is None,
        },
{
    let ghost all = model::views(pending@);
    let mut i: usize = pending.len();
    assert(all.take(i as int) =~= all);
    while i > 0
        invariant
            i <= pending@.len(),
            all == model::views(pending@),
            transfer_of(all, id@) == transfer_of(all.take(i as int), id@),
        decreases i,
    {
        assert(all.take(i as int).last() == pending@[i - 1]@);
        assert(all.take(i as int).drop_last() =~= all.take(i - 1));
        if same_text(pending[i - 1].id.as_str(), id.as_str()) {
            return Some(i - 1);
        }
        i -= 1;
    }
    None
}

/// Whether every declared chunk has arrived.
fn is_complete(chunks: &Vec<Option<String>>) -> (answer: bool)
    ensures
        answer == all_arrived(chunk_texts(chunks@)),
{
    let mut i: usize = 0;
    while i < chunks.len()
        invariant
            i <= chunks@.len(),
            forall|k: int| 0 <= k < i ==> (#[trigger] chunk_texts(chunks@)[k]) is Some,
        decreases chunks@.len() - i,
    {
        if chunks[i].is_none() {
            assert(chunk_texts(chunks@)[i as int] is None);
            return false;
        }
        i += 1;
    }
    true
}

/// The chunks that have arrived, one behind the other.
fn join_chunks(chunks: &Vec<Option<String>>) -> (joined: String)
    ensures
        joined@ == arrived_text(chunk_texts(chunks@)),
{
    let ghost all = chunk_texts(chunks@);
    let mut joined = String::new();
    let mut i: usize = 0;
    assert(all.take(0) =~= Seq::<Option<Seq<char>>>::empty());
    while i < chunks.len()
        invariant
            i <= chunks@.len(),
            all == chunk_texts(chunks@),
            joined@ == arrived_text(all.take(i as int)),
        decreases chunks@.len() - i,
    {
        assert(all.take(i + 1).drop_last() =~= all.take(i as int));
        assert(all.take(i + 1).last() == model::optional(chunks@[i as int]));
        match &chunks[i] {
            Some(piece) => joined.append(piece.as_str()),
            None => {},
        }
        i += 1;
        assert(joined@ =~= arrived_text(all.take(i as int)));
    }
    assert(all.take(i as int) =~= all);
    joined
}

/// The place of a chunk in a transfer of `total` chunks whose counter begins
/// at zero or at one.
fn chunk_slot(index: usize, total: usize, zero_based: bool) -> (slot: Result<usize, AcreSoundError>)
    ensures
        model::outcome(slot) == if zero_based && index < total {
            Ok(index)
        } else if !zero_based && 1 <= index <= total {
            Ok((index - 1) as usize)
        } else {
            Err(SoundFault::InvalidChunkIndex { index, total })
        },
{
    if zero_based {
        if index >= total {
            return Err(AcreSoundError::InvalidChunkIndex { index, total });
        }
        Ok(index)
    } else {
        if index == 0 || index > total {
            return Err(AcreSoundError::InvalidChunkIndex { index, total });
        }
        Ok(index - 1)
    }
}

/// Adds a chunk to its transfer; tells whether that completed the transfer.
fn extend_transfer(
    transfer: &mut PendingSound,
    chunk: &AcreSoundLoadChunk,
    now: u64,
    held: usize,
) -> (complete: Result<bool, AcreSoundError>)
    requires
        old(transfer).encoded_bytes == arrived_bytes(old(transfer)@.chunks),
        bounded_transfer(old(transfer)@),
        chunk_fault(chunk@) is None,
        held <= ACRE_MAX_PENDING_SOUND_ENCODED_BYTES,
    ensures
        match complete {
            Ok(done) => {
                &&& extended(old(transfer)@, chunk@, now, held as nat) == Ok::<
                    PendingView,
                    SoundFault,
                >(final(transfer)@)
                &&& done == (old(transfer)@.chunks[chunk_place(old(transfer)@, chunk@)] is None
                    && all_arrived(final(transfer)@.chunks))
                &&& final(transfer).encoded_bytes == arrived_bytes(final(transfer)@.chunks)
                &&& bounded_transfer(final(transfer)@)
            },
            Err(error) => {
                &&& extended(old(transfer)@, chunk@, now, held as nat) == Err::<
                    PendingView,
                    SoundFault,
                >(error@)
                &&& *final(transfer) == *old(transfer)
            },
        },
{
    let ghost before = transfer@;
    if transfer.chunks.len() != chunk.total || (!transfer.zero_based && chunk.index == 0) {
        return Err(AcreSoundError::ConflictingChunkLayout { id: chunk.id.clone() });
    }
    let slot: usize = chunk_slot(chunk.index, chunk.total, transfer.zero_based)?;
    if chunk.base64.as_str().is_empty() && slot + 1 != chunk.total {
        return Err(AcreSoundError::EmptyNonFinalChunk { id: chunk.id.clone() });
    }
    assert(before.chunks[slot as int] == model::optional(transfer.chunks@[slot as int]));
    let repeated: Option<bool> = match &transfer.chunks[slot] {
        Some(existing) => Some(same_text(existing.as_str(), chunk.base64.as_str())),
        None => None,
    };
    match repeated {
        Some(same) => {
            if !same {
                return Err(AcreSoundError::ConflictingChunk { id: chunk.id.clone() });
            }
            transfer.last_update = now;
            Ok(false)
        },
        None => {
            let added: usize = chunk.base64.as_str().as_bytes().len();
            let grown: usize = transfer.encoded_bytes + added;
            if grown > ACRE_MAX_SOUND_ENCODED_BYTES {
                return Err(
                    AcreSoundError::EncodedSoundTooLarge {
                        id: chunk.id.clone(),
                        length: grown,
                        limit: ACRE_MAX_SOUND_ENCODED_BYTES,
                    },
                );
            }
            if held + added > ACRE_MAX_PENDING_SOUND_ENCODED_BYTES {
                return Err(
                    AcreSoundError::PendingSoundBytesExceeded {
                        limit: ACRE_MAX_PENDING_SOUND_ENCODED_BYTES,
                    },
                );
            }
            transfer.encoded_bytes = grown;
            transfer.last_update = now;
            transfer.chunks.set(slot, Some(chunk.base64.clone()));
            proof {
                lemma_arrived_update(before.chunks, slot as int, chunk@.base64);
                assert(transfer@.chunks =~= before.chunks.update(
                    slot as int,
                    Some(chunk@.base64),
                ));
            }
            Ok(is_complete(&transfer.chunks))
        },
    }
}

/// A list of `total` chunks that have not arrived.
fn missing_chunks(total: usize) -> (chunks: Vec<Option<String>>)
    ensures
        chunk_texts(chunks@) == Seq::new(total as nat, |i: int| None::<Seq<char>>),
        arrived_bytes(chunk_texts(chunks@)) == 0,
{
    let mut chunks: Vec<Option<String>> = Vec::new();
    let mut i: usize = 0;
    while i < total
        invariant
            i <= total,
            chunks@.len() == i,
            forall|k: int| 0 <= k < i ==> (#[trigger] chunks@[k]) is None,
        decreases total - i,
    {
        chunks.push(None);
        i += 1;
    }
    proof {
        assert(chunk_texts(chunks@) =~= Seq::new(total as nat, |i: int| None::<Seq<char>>));
        lemma_arrived_none(chunk_texts(chunks@));
    }
    chunks
}

/// Finds the chunk's transfer, or begins one.
fn find_or_begin(pending: &mut Vec<PendingSound>, chunk: &AcreSoundLoadChunk, now: u64) -> (at:
    Result<usize, AcreSoundError>)
    requires
        counted(old(pending)@),
        bounded_transfers(model::views(old(pending)@)),
        chunk_fault(chunk@) is None,
    ensures
        counted(final(pending)@),
        bounded_transfers(model::views(final(pending)@)),
        held_bytes(model::views(final(pending)@)) == held_bytes(model::views(old(pending)@)),
        ({
            let kept = model::views(old(pending)@);
            match at {
                Ok(at) => at < final(pending)@.len() && model::views(
                    final(pending)@,
                )[at as int].id == chunk@.id && match transfer_of(kept, chunk@.id) {
                    Some(found) => at == found && model::views(final(pending)@) == kept,
                    None => at == kept.len() && kept.len() < ACRE_MAX_PENDING_SOUNDS
                        && model::views(final(pending)@) == kept.push(
                        fresh_transfer(chunk@, now),
                    ),
                },
                Err(error) => {
                    &&& error@ == (SoundFault::TooManyPendingSounds {
                        limit: ACRE_MAX_PENDING_SOUNDS,
                    })
                    &&& transfer_of(kept, chunk@.id) is None
                    &&& kept.len() >= ACRE_MAX_PENDING_SOUNDS
                    &&& model::views(final(pending)@) == kept
                },
            }
        }),
{
    let ghost kept = model::views(pending@);
    proof {
        lemma_transfer_of(kept, chunk@.id);
    }
    match find_transfer(pending, &chunk.id) {
        Some(at) => Ok(at),
        None => {
            if pending.len() >= ACRE_MAX_PENDING_SOUNDS {
                return Err(
                    AcreSoundError::TooManyPendingSounds { limit: ACRE_MAX_PENDING_SOUNDS },
                );
            }
            let at: usize = pending.len();
            let ghost earlier = pending@;
            let fresh = PendingSound {
                id: chunk.id.clone(),
                zero_based: chunk.index == 0,
                chunks: missing_chunks(chunk.total),
                encoded_bytes: 0,
                last_update: now,
            };
            assert(fresh@ =~= fresh_transfer(chunk@, now));
            pending.push(fresh);
            proof {
                model::lemma_views_push(earlier, fresh);
                lemma_transfer_of(kept, chunk@.id);
                let grown = model::views(pending@);
                assert(grown.drop_last() =~= kept);
                assert forall|i: int, j: int| 0 <= i < j < grown.len() implies (
                #[trigger] grown[i]).id != (#[trigger] grown[j]).id by {
                    assert(grown[i] == kept[i]);
                    if j < kept.len() {
                        assert(grown[j] == kept[j]);
                    }
                }
                assert forall|i: int| 0 <= i < grown.len() implies bounded_transfer(
                    #[trigger] grown[i],
                ) by {
                    if i < kept.len() {
                        assert(grown[i] == kept[i]);
                    }
                }
            }
            Ok(at)
        },
    }
}

/// Adds a chunk to the transfer at `at`.
fn extend_at(
    pending: &mut Vec<PendingSound>,
    held: &mut usize,
    at: usize,
    chunk: &AcreSoundLoadChunk,
    now: u64,
) -> (answer: Result<Option<AcreLoadedSound>, AcreSoundError>)
    requires
        at < old(pending)@.len(),
        counted(old(pending)@),
        bounded_transfers(model::views(old(pending)@)),
        *old(held) == held_bytes(model::views(old(pending)@)),
        model::views(old(pending)@)[at as int].id == chunk@.id,
        sound_id_fault(chunk@.id) is None,
        chunk_fault(chunk@) is None,
    ensures
        counted(final(pending)@),
        bounded_transfers(model::views(final(pending)@)),
        *final(held) == held_bytes(model::views(final(pending)@)),
        (model::views(final(pending)@), answer_view(answer)) == extended_at(
            model::views(old(pending)@),
            at as int,
            chunk@,
            now,
        ),
{
    let ghost earlier = pending@;
    let ghost all = model::views(pending@);
    let mut transfer: PendingSound = pending.remove(at);
    let counted_before: usize = transfer.encoded_bytes;
    proof {
        model::lemma_views_remove(earlier, at as int);
        lemma_held_bound(all);
        lemma_held_remove(all, at as int);
        lemma_bounds_after_remove(all, at as int);
        assert(all[at as int] == earlier[at as int]@);
        assert(counted(pending@)) by {
            assert forall|k: int| 0 <= k < pending@.len() implies (
            #[trigger] pending@[k]).encoded_bytes == arrived_bytes(pending@[k]@.chunks) by {
                if k < at {
                    assert(pending@[k] == earlier[k]);
                } else {
                    assert(pending@[k] == earlier[k + 1]);
                }
            }
        }
    }
    match extend_transfer(&mut transfer, chunk, now, *held) {
        Err(error) => {
            *held = *held - counted_before;
            Err(error)
        },
        Ok(true) => {
            *held = *held - counted_before;
            let encoded: String = join_chunks(&transfer.chunks);
            let bytes: Vec<u8> = decode_payload(&encoded)?;
            let digest: [u8; 32] = sha256(bytes.as_slice());
            Ok(Some(AcreLoadedSound { id: transfer.id, bytes, sha256: digest }))
        },
        Ok(false) => {
            proof {
                lemma_held_update(all, at as int, transfer@);
                lemma_bounds_after_update(all, at as int, transfer@);
            }
            *held = *held - counted_before + transfer.encoded_bytes;
            let ghost rest = pending@;
            pending.insert(at, transfer);
            proof {
                assert(model::views(pending@) =~= all.update(at as int, transfer@));
                assert(counted(pending@)) by {
                    assert forall|k: int| 0 <= k < pending@.len() implies (
                    #[trigger] pending@[k]).encoded_bytes == arrived_bytes(
                        pending@[k]@.chunks,
                    ) by {
                        if k < at {
                            assert(pending@[k] == rest[k]);
                        } else if k > at {
                            assert(pending@[k] == rest[k - 1]);
                        }
                    }
                }
            }
            Ok(None)
        },
    }
}

/// The model of an answer to a chunk.
pub open spec fn answer_view(answer: Result<Option<AcreLoadedSound>, AcreSoundError>) -> Result<
    Option<LoadedView>,
    SoundFault,
> {
    match answer {
        Ok(sound) => Ok(model::optional(sound)),
        Err(error) => Err(error@),
    }
}

impl Default for AcreSoundAssembler {
    fn default() -> (assembler: Self)
        ensures
            assembler@ == Seq::<PendingView>::empty(),
    {
        let assembler = AcreSoundAssembler { pending: Vec::new(), pending_encoded_bytes: 0 };
        assert(assembler@ =~= Seq::<PendingView>::empty());
        assembler
    }
}

impl AcreSoundAssembler {
    /// The transfers are distinct and within their bounds, and their bytes are
    /// counted.
    #[verifier::type_invariant]
    pub closed spec fn inv(self) -> bool {
        &&& bounded_transfers(self@)
        &&& counted(self.pending@)
        &&& self.pending_encoded_bytes == held_bytes(self@)
        &&& self.pending_encoded_bytes <= ACRE_MAX_PENDING_SOUND_ENCODED_BYTES
    }

    /// Accepts one chunk and yields the decoded sound once every declared
    /// chunk has arrived. A repeated identical chunk changes nothing but the
    /// time; a conflicting one discards the transfer.
    pub fn accept(&mut self, chunk: AcreSoundLoadChunk, now: u64) -> (answer: Result<
        Option<AcreLoadedSound>,
        AcreSoundError,
    >)
        ensures
            (final(self)@, answer_view(answer)) == accepted(old(self)@, chunk@, now),
            bounded_transfers(final(self)@),
    {
        proof {
            use_type_invariant(&*self);
            use_type_invariant(&chunk);
            law_transfers_stay_bounded(self@, chunk@, now);
        }
        let mut work = AcreSoundAssembler::default();
        std::mem::swap(&mut work, self);
        let mut pending: Vec<PendingSound> = work.pending;
        let mut held: usize = work.pending_encoded_bytes;
        proof {
            lemma_bounds_after_expiry(model::views(pending@), now);
        }
        let _dropped: Vec<String> = drop_expired(&mut pending, &mut held, now);
        let answer: Result<Option<AcreLoadedSound>, AcreSoundError> = match find_or_begin(
            &mut pending,
            &chunk,
            now,
        ) {
            Ok(at) => extend_at(&mut pending, &mut held, at, &chunk, now),
            Err(error) => Err(error),
        };
        *self = AcreSoundAssembler { pending, pending_encoded_bytes: held };
        answer
    }

    /// Drops the transfers that have rested too long; returns their IDs.
    pub fn expire(&mut self, now: u64) -> (ids: Vec<String>)
        ensures
            final(self)@ == unexpired(old(self)@, now),
            bounded_transfers(final(self)@),
            text::texts(ids@) == expired_ids(old(self)@, now),
    {
        proof {
            use_type_invariant(&*self);
        }
        let mut work = AcreSoundAssembler::default();
        std::mem::swap(&mut work, self);
        let mut pending: Vec<PendingSound> = work.pending;
        let mut held: usize = work.pending_encoded_bytes;
        proof {
            lemma_bounds_after_expiry(model::views(pending@), now);
            lemma_held_after_expiry(model::views(pending@), now);
        }
        let ids: Vec<String> = drop_expired(&mut pending, &mut held, now);
        *self = AcreSoundAssembler { pending, pending_encoded_bytes: held };
        ids
    }

    /// Drops every incomplete transfer.
    pub fn clear(&mut self)
        ensures
            final(self)@ == Seq::<PendingView>::empty(),
    {
        *self = AcreSoundAssembler::default();
    }

    /// How many transfers are incomplete.
    pub fn pending_count(&self) -> (count: usize)
        ensures
            count == self@.len(),
            bounded_transfers(self@),
    {
        proof {
            use_type_invariant(self);
        }
        self.pending.len()
    }

    /// How many encoded bytes the incomplete transfers hold.
    pub fn pending_encoded_bytes(&self) -> (bytes: usize)
        ensures
            bytes == held_bytes(self@),
            bytes <= ACRE_MAX_PENDING_SOUND_ENCODED_BYTES,
    {
        proof {
            use_type_invariant(self);
        }
        self.pending_encoded_bytes
    }
}

/// Replacing a transfer by a bounded one with the same ID keeps the bounds.
proof fn lemma_bounds_after_update(pending: Seq<PendingView>, at: int, after: PendingView)
    requires
        0 <= at < pending.len(),
        bounded_transfers(pending),
        bounded_transfer(after),
        after.id == pending[at].id,
    ensures
        bounded_transfers(pending.update(at, after)),
{
    let all = pending.update(at, after);
    assert forall|i: int| 0 <= i < all.len() implies bounded_transfer(#[trigger] all[i]) by {
        assert(i != at ==> all[i] == pending[i]);
    }
    assert forall|i: int, j: int| 0 <= i < j < all.len() implies (#[trigger] all[i]).id != (
    #[trigger] all[j]).id by {
        assert(all[i].id == pending[i].id);
        assert(all[j].id == pending[j].id);
    }
}

proof fn lemma_held_push(pending: Seq<PendingView>, transfer: PendingView)
    ensures
        held_bytes(pending.push(transfer)) == held_bytes(pending) + arrived_bytes(transfer.chunks),
{
    assert(pending.push(transfer).drop_last() =~= pending);
}

/// Dropping transfers frees what they held.
proof fn lemma_held_after_expiry(pending: Seq<PendingView>, now: u64)
    ensures
        held_bytes(unexpired(pending, now)) <= held_bytes(pending),
    decreases pending.len(),
{
    if pending.len() > 0 {
        let head = pending.drop_last();
        lemma_held_after_expiry(head, now);
        lemma_held_push(unexpired(head, now), pending.last());
    }
}

/// What a chunk adds to a transfer within its bounds keeps it there.
proof fn lemma_extended_is_bounded(transfer: PendingView, chunk: ChunkView, now: u64, held: nat)
    requires
        bounded_transfer(transfer),
        extended(transfer, chunk, now, held) is Ok,
        arrived_bytes(transfer.chunks) <= held <= ACRE_MAX_PENDING_SOUND_ENCODED_BYTES,
    ensures
        ({
            let after = extended(transfer, chunk, now, held)->Ok_0;
            &&& bounded_transfer(after)
            &&& after.id == transfer.id
            &&& held - arrived_bytes(transfer.chunks) + arrived_bytes(after.chunks)
                <= ACRE_MAX_PENDING_SOUND_ENCODED_BYTES
        }),
{
    let place = chunk_place(transfer, chunk);
    if transfer.chunks[place] is None {
        lemma_arrived_update(transfer.chunks, place, chunk.base64);
    }
}

proof fn lemma_held_member(pending: Seq<PendingView>, at: int)
    requires
        0 <= at < pending.len(),
    ensures
        arrived_bytes(pending[at].chunks) <= held_bytes(pending),
{
    lemma_held_remove(pending, at);
}

proof fn lemma_extension_is_bounded(
    pending: Seq<PendingView>,
    at: int,
    chunk: ChunkView,
    now: u64,
)
    requires
        0 <= at < pending.len(),
        bounded_transfers(pending),
        held_bytes(pending) <= ACRE_MAX_PENDING_SOUND_ENCODED_BYTES,
        pending[at].id == chunk.id,
    ensures
        ({
            let (after, answer) = extended_at(pending, at, chunk, now);
            &&& bounded_transfers(after)
            &&& held_bytes(after) <= ACRE_MAX_PENDING_SOUND_ENCODED_BYTES
            &&& answer is Err ==> transfer_of(after, chunk.id) is None
        }),
{
    lemma_bounds_after_remove(pending, at);
    lemma_held_remove(pending, at);
    let rest = pending.remove(at);
    lemma_transfer_of(rest, chunk.id);
    if transfer_of(rest, chunk.id) is Some {
        let other = transfer_of(rest, chunk.id)->0;
        let there = if other < at {
            other
        } else {
            other + 1
        };
        assert(rest[other] == pending[there]);
        assert(pending[there].id == pending[at].id);
    }
    match extended(pending[at], chunk, now, held_bytes(pending)) {
        Ok(after) => {
            lemma_held_member(pending, at);
            assert(bounded_transfer(pending[at]));
            lemma_extended_is_bounded(pending[at], chunk, now, held_bytes(pending));
            lemma_bounds_after_update(pending, at, after);
            lemma_held_update(pending, at, after);
        },
        Err(_) => {},
    }
}

proof fn lemma_beginning_is_bounded(kept: Seq<PendingView>, chunk: ChunkView, now: u64)
    requires
        bounded_transfers(kept),
        transfer_of(kept, chunk.id) is None,
        kept.len() < ACRE_MAX_PENDING_SOUNDS,
        1 <= chunk.total <= ACRE_MAX_SOUND_CHUNKS,
    ensures
        bounded_transfers(kept.push(fresh_transfer(chunk, now))),
        held_bytes(kept.push(fresh_transfer(chunk, now))) == held_bytes(kept),
{
    let fresh = fresh_transfer(chunk, now);
    let all = kept.push(fresh);
    lemma_transfer_of(kept, chunk.id);
    lemma_arrived_none(fresh.chunks);
    lemma_held_push(kept, fresh);
    assert forall|i: int| 0 <= i < all.len() implies bounded_transfer(#[trigger] all[i]) by {
        if i < kept.len() {
            assert(all[i] == kept[i]);
        }
    }
    assert forall|i: int, j: int| 0 <= i < j < all.len() implies (#[trigger] all[i]).id != (
    #[trigger] all[j]).id by {
        assert(all[i] == kept[i]);
        if j < kept.len() {
            assert(all[j] == kept[j]);
        }
    }
}

/// Whatever arrives, the transfers stay distinct and within their bounds, each
/// one and all together, and a chunk that is refused leaves nothing of its
/// transfer behind.
pub proof fn law_transfers_stay_bounded(pending: Seq<PendingView>, chunk: ChunkView, now: u64)
    requires
        bounded_transfers(pending),
        held_bytes(pending) <= ACRE_MAX_PENDING_SOUND_ENCODED_BYTES,
        chunk_fault(chunk) is None,
    ensures
        ({
            let (after, answer) = accepted(pending, chunk, now);
            &&& bounded_transfers(after)
            &&& held_bytes(after) <= ACRE_MAX_PENDING_SOUND_ENCODED_BYTES
            &&& answer is Err ==> transfer_of(after, chunk.id) is None
        }),
{
    let kept = unexpired(pending, now);
    lemma_bounds_after_expiry(pending, now);
    lemma_held_after_expiry(pending, now);
    lemma_transfer_of(kept, chunk.id);
    match transfer_of(kept, chunk.id) {
        Some(at) => {
            lemma_extension_is_bounded(kept, at, chunk, now);
        },
        None => {
            if kept.len() < ACRE_MAX_PENDING_SOUNDS {
                lemma_beginning_is_bounded(kept, chunk, now);
                lemma_extension_is_bounded(
                    kept.push(fresh_transfer(chunk, now)),
                    kept.len() as int,
                    chunk,
                    now,
                );
            }
        },
    }
}

/// A payload is decoded exactly if it is strict base64 within the bound: whole
/// blocks of four letters with at most two padding letters at the end.
pub proof fn law_payloads_are_strict_base64(encoded: Seq<char>)
    ensures
        ({
            let letters = encode_utf8(encoded);
            &&& decoded_payload(encoded) is Ok <==> {
                &&& 0 < letters.len() <= ACRE_MAX_SOUND_ENCODED_BYTES
                &&& letters.len() % 4 == 0
                &&& exists|padding: int| #[trigger] base64::padded_by(letters, padding)
            }
            &&& forall|padding: int|
                decoded_payload(encoded) is Ok && #[trigger] base64::padded_by(letters, padding)
                    ==> decoded_payload(encoded)->Ok_0.len() == letters.len() / 4 * 3 - padding
        }),
{
    let letters = encode_utf8(encoded);
    base64::law_strict_base64_decodes(letters);
    if encoded.len() > 0 {
        vstd::utf8::encode_utf8_first_scalar(encoded);
    }
}

/// Decoding the standard padded encoding of a sound gives its bytes back, of
/// any sound within the bound.
pub proof fn law_encoded_sounds_are_restored(bytes: Seq<u8>)
    requires
        0 < bytes.len() <= ACRE_MAX_SOUND_DECODED_BYTES,
    ensures
        decoded_payload(text::ascii_chars(base64::encoding(bytes))) == Ok::<Seq<u8>, SoundFault>(
            bytes,
        ),
{
    let letters = base64::encoding(bytes);
    assert forall|i: int| 0 <= i < letters.len() implies #[trigger] letters[i] < 128 by {
        assert(letters[i] == base64::encoded_letter(bytes, i));
    }
    text::lemma_ascii_round_trip(letters);
    base64::law_decoding_undoes_encoding(bytes);
}

/// What is held of the transfer with the ID.
pub open spec fn named(pending: Seq<PendingView>, id: Seq<char>) -> Option<PendingView> {
    match transfer_of(pending, id) {
        Some(at) => Some(pending[at]),
        None => None,
    }
}

proof fn lemma_named(pending: Seq<PendingView>, at: int)
    requires
        distinct_ids(pending),
        0 <= at < pending.len(),
    ensures
        transfer_of(pending, pending[at].id) == Some(at),
{
    lemma_transfer_of(pending, pending[at].id);
}

proof fn lemma_named_unexpired(pending: Seq<PendingView>, now: u64, id: Seq<char>)
    requires
        distinct_ids(pending),
    ensures
        named(unexpired(pending, now), id) == match named(pending, id) {
            Some(transfer) => if expired(transfer, now) {
                None
            } else {
                Some(transfer)
            },
            None => None,
        },
    decreases pending.len(),
{
    if pending.len() > 0 {
        let head = pending.drop_last();
        assert(distinct_ids(head)) by {
            assert forall|i: int, j: int| 0 <= i < j < head.len() implies (#[trigger] head[i]).id
                != (#[trigger] head[j]).id by {
                assert(head[i] == pending[i] && head[j] == pending[j]);
            }
        }
        lemma_named_unexpired(head, now, id);
        let rest = unexpired(head, now);
        assert(rest.push(pending.last()).drop_last() =~= rest);
        lemma_transfer_of(rest, id);
        lemma_transfer_of(head, id);
        if pending.last().id == id {
            assert forall|i: int| 0 <= i < head.len() implies (#[trigger] head[i]).id != id by {
                assert(head[i] == pending[i]);
                assert(pending[pending.len() - 1].id == id);
            }
        }
    }
}

proof fn lemma_named_remove(pending: Seq<PendingView>, at: int, id: Seq<char>)
    requires
        bounded_transfers(pending),
        0 <= at < pending.len(),
    ensures
        named(pending.remove(at), id) == if pending[at].id == id {
            None
        } else {
            named(pending, id)
        },
{
    let rest = pending.remove(at);
    lemma_transfer_of(pending, id);
    lemma_transfer_of(rest, id);
    lemma_bounds_after_remove(pending, at);
    if transfer_of(rest, id) is Some {
        let other = transfer_of(rest, id)->0;
        let there = if other < at {
            other
        } else {
            other + 1
        };
        assert(rest[other] == pending[there]);
        lemma_named(pending, there);
        if pending[at].id == id {
            lemma_named(pending, at);
        }
    } else if transfer_of(pending, id) is Some && pending[at].id != id {
        let there = transfer_of(pending, id)->0;
        let other = if there < at {
            there
        } else {
            there - 1
        };
        assert(rest[other] == pending[there]);
    }
}

proof fn lemma_named_update(pending: Seq<PendingView>, at: int, after: PendingView, id: Seq<char>)
    requires
        bounded_transfers(pending),
        bounded_transfer(after),
        0 <= at < pending.len(),
        after.id == pending[at].id,
    ensures
        named(pending.update(at, after), id) == if after.id == id {
            Some(after)
        } else {
            named(pending, id)
        },
{
    let all = pending.update(at, after);
    lemma_bounds_after_update(pending, at, after);
    lemma_transfer_of(pending, id);
    lemma_transfer_of(all, id);
    if after.id == id {
        lemma_named(all, at);
    } else if transfer_of(pending, id) is Some {
        let there = transfer_of(pending, id)->0;
        assert(all[there] == pending[there]);
        lemma_named(all, there);
    } else if transfer_of(all, id) is Some {
        let there = transfer_of(all, id)->0;
        assert(all[there] == pending[there]);
    }
}

/// What a chunk does to the transfer at its place leaves every other one.
proof fn lemma_extension_leaves_others(
    pending: Seq<PendingView>,
    at: int,
    chunk: ChunkView,
    now: u64,
    id: Seq<char>,
)
    requires
        bounded_transfers(pending),
        0 <= at < pending.len(),
        pending[at].id == chunk.id,
        chunk.id != id,
    ensures
        named(extended_at(pending, at, chunk, now).0, id) == named(pending, id),
{
    lemma_named_remove(pending, at, id);
    match extended(pending[at], chunk, now, held_bytes(pending)) {
        Ok(after) => {
            lemma_held_bound(pending);
            lemma_held_member(pending, at);
            assert(bounded_transfer(pending[at]));
            lemma_extended_is_bounded(pending[at], chunk, now, held_bytes(pending));
            lemma_named_update(pending, at, after, id);
        },
        Err(_) => {},
    }
}

/// Transfers are independent: whatever a chunk does to the transfer of its own
/// ID, every other transfer is kept as it is unless it has rested too long.
pub proof fn law_transfers_are_independent(
    pending: Seq<PendingView>,
    chunk: ChunkView,
    now: u64,
    id: Seq<char>,
)
    requires
        bounded_transfers(pending),
        chunk_fault(chunk) is None,
        chunk.id != id,
    ensures
        named(accepted(pending, chunk, now).0, id) == match named(pending, id) {
            Some(transfer) => if expired(transfer, now) {
                None
            } else {
                Some(transfer)
            },
            None => None,
        },
{
    let kept = unexpired(pending, now);
    lemma_named_unexpired(pending, now, id);
    lemma_bounds_after_expiry(pending, now);
    lemma_transfer_of(kept, chunk.id);
    match transfer_of(kept, chunk.id) {
        Some(at) => lemma_extension_leaves_others(kept, at, chunk, now, id),
        None => if kept.len() < ACRE_MAX_PENDING_SOUNDS {
            let grown = kept.push(fresh_transfer(chunk, now));
            lemma_beginning_is_bounded(kept, chunk, now);
            lemma_extension_leaves_others(grown, kept.len() as int, chunk, now, id);
            assert(grown.drop_last() =~= kept);
            lemma_transfer_of(kept, id);
        },
    }
}

/// Pieces of text, one behind the other.
pub open spec fn whole(pieces: Seq<Seq<char>>) -> Seq<char>
    decreases pieces.len(),
{
    if pieces.len() == 0 {
        Seq::empty()
    } else {
        whole(pieces.drop_last()) + pieces.last()
    }
}

/// How many bytes pieces of text take.
pub open spec fn sizes(pieces: Seq<Seq<char>>) -> nat
    decreases pieces.len(),
{
    if pieces.len() == 0 {
        0
    } else {
        sizes(pieces.drop_last()) + size(pieces.last())
    }
}

/// Whether the chunk carries the piece of the sound that its index names.
pub open spec fn carries_piece(chunk: ChunkView, pieces: Seq<Seq<char>>, zero_based: bool) -> bool {
    let place = place_of(chunk, zero_based);
    &&& 0 <= place < pieces.len()
    &&& chunk.total == pieces.len()
    &&& chunk.base64 == pieces[place]
}

/// A chunk, and when it arrives.
pub struct Arrival {
    pub chunk: ChunkView,
    pub now: u64,
}

/// The transfers after a run of chunks, and the answer to the last of them.
pub open spec fn received(pending: Seq<PendingView>, arrivals: Seq<Arrival>) -> (
    Seq<PendingView>,
    Result<Option<LoadedView>, SoundFault>,
)
    decreases arrivals.len(),
{
    if arrivals.len() == 0 {
        (pending, Ok(None))
    } else {
        accepted(
            received(pending, arrivals.drop_last()).0,
            arrivals.last().chunk,
            arrivals.last().now,
        )
    }
}

/// The places of the sound of which a piece is among the arrivals.
pub open spec fn places(arrivals: Seq<Arrival>, id: Seq<char>, zero_based: bool) -> Set<int>
    decreases arrivals.len(),
{
    if arrivals.len() == 0 {
        Set::empty()
    } else {
        let before = places(arrivals.drop_last(), id, zero_based);
        if arrivals.last().chunk.id == id {
            before.insert(place_of(arrivals.last().chunk, zero_based))
        } else {
            before
        }
    }
}

/// Whether every place of a sound of `count` pieces is there.
pub open spec fn complete(places: Set<int>, count: nat) -> bool {
    forall|place: int| 0 <= place < count ==> #[trigger] places.contains(place)
}

/// Whether the arrivals are fit chunks that come within the time a transfer
/// may rest, the first of them belongs to the sound, and each of those that do
/// carries a piece of it. Where the sound is counted from zero, its first
/// chunk says so.
pub open spec fn bring(
    arrivals: Seq<Arrival>,
    id: Seq<char>,
    pieces: Seq<Seq<char>>,
    zero_based: bool,
) -> bool {
    &&& arrivals.len() > 0
    &&& arrivals[0].chunk.id == id
    &&& zero_based ==> arrivals[0].chunk.index == 0
    &&& forall|i: int|
        0 <= i < arrivals.len() ==> {
            &&& chunk_fault((#[trigger] arrivals[i]).chunk) is None
            &&& arrivals[i].chunk.id == id ==> carries_piece(arrivals[i].chunk, pieces, zero_based)
        }
    &&& forall|i: int, j: int|
        0 <= i < arrivals.len() && 0 <= j < arrivals.len() ==> (#[trigger] arrivals[i]).now < (
        #[trigger] arrivals[j]).now + ACRE_SOUND_LOAD_TIMEOUT
}

/// Whether the pieces are a sound within the bounds of a transfer. Only the
/// last piece may be empty.
pub open spec fn sound_pieces(pieces: Seq<Seq<char>>) -> bool {
    &&& 1 <= pieces.len() <= ACRE_MAX_SOUND_CHUNKS
    &&& sizes(pieces) <= ACRE_MAX_SOUND_ENCODED_BYTES
    &&& forall|i: int| 0 <= i < pieces.len() - 1 ==> (#[trigger] pieces[i]).len() > 0
}

/// The chunks of a transfer of which the pieces at the places have arrived.
spec fn filled(pieces: Seq<Seq<char>>, places: Set<int>) -> Seq<Option<Seq<char>>> {
    Seq::new(
        pieces.len(),
        |i: int|
            if places.contains(i) {
                Some(pieces[i])
            } else {
                None
            },
    )
}

proof fn lemma_filled_bytes(pieces: Seq<Seq<char>>, places: Set<int>)
    ensures
        arrived_bytes(filled(pieces, places)) <= sizes(pieces),
        complete(places, pieces.len()) ==> arrived_text(filled(pieces, places)) == whole(pieces),
    decreases pieces.len(),
{
    let chunks = filled(pieces, places);
    if pieces.len() > 0 {
        lemma_filled_bytes(pieces.drop_last(), places);
        assert(chunks.drop_last() =~= filled(pieces.drop_last(), places));
        assert(chunks.last() == chunks[pieces.len() - 1]);
        if complete(places, pieces.len()) {
            assert(places.contains(pieces.len() - 1));
        }
    }
}

/// One more piece of a sound, whichever it is.
proof fn lemma_next_piece(
    kept: Seq<PendingView>,
    at: int,
    pieces: Seq<Seq<char>>,
    arrived: Set<int>,
    chunk: ChunkView,
    now: u64,
)
    requires
        bounded_transfers(kept),
        0 <= at < kept.len(),
        sound_pieces(pieces),
        kept[at].id == chunk.id,
        kept[at].chunks == filled(pieces, arrived),
        carries_piece(chunk, pieces, kept[at].zero_based),
    ensures
        ({
            let place = place_of(chunk, kept[at].zero_based);
            let after = PendingView {
                chunks: filled(pieces, arrived.insert(place)),
                last_update: now,
                ..kept[at]
            };
            extended_at(kept, at, chunk, now) == if !arrived.contains(place) && complete(
                arrived.insert(place),
                pieces.len(),
            ) {
                (kept.remove(at), assembled(after))
            } else {
                (kept.update(at, after), Ok(None))
            }
        }),
{
    let before = kept[at];
    let place = chunk_place(before, chunk);
    let more = arrived.insert(place);
    let after = PendingView { chunks: filled(pieces, more), last_update: now, ..before };
    lemma_filled_bytes(pieces, more);
    lemma_bounds_after_remove(kept, at);
    lemma_held_bound(kept.remove(at));
    lemma_held_remove(kept, at);
    if arrived.contains(place) {
        assert(more =~= arrived);
        assert(extended(before, chunk, now, held_bytes(kept)) == Ok::<PendingView, SoundFault>(
            after,
        ));
    } else {
        assert(before.chunks[place] is None);
        assert(after.chunks =~= before.chunks.update(place, Some(chunk.base64)));
        lemma_arrived_update(before.chunks, place, chunk.base64);
        assert(extended(before, chunk, now, held_bytes(kept)) == Ok::<PendingView, SoundFault>(
            after,
        ));
        if complete(more, pieces.len()) {
            assert(all_arrived(after.chunks));
        } else {
            let missing = choose|p: int| 0 <= p < pieces.len() && !#[trigger] more.contains(p);
            assert(after.chunks[missing] is None);
        }
    }
}

/// How a transfer stands of which not every piece has arrived.
spec fn waits(
    pending: Seq<PendingView>,
    id: Seq<char>,
    pieces: Seq<Seq<char>>,
    zero_based: bool,
    arrivals: Seq<Arrival>,
) -> bool {
    match named(pending, id) {
        Some(transfer) => {
            &&& transfer.zero_based == zero_based
            &&& transfer.chunks == filled(pieces, places(arrivals, id, zero_based))
            &&& exists|i: int|
                0 <= i < arrivals.len() && transfer.last_update == (#[trigger] arrivals[i]).now
        },
        None => false,
    }
}

proof fn lemma_first_piece(
    pending: Seq<PendingView>,
    id: Seq<char>,
    pieces: Seq<Seq<char>>,
    zero_based: bool,
    arrivals: Seq<Arrival>,
)
    requires
        bounded_transfers(pending),
        sound_pieces(pieces),
        bring(arrivals, id, pieces, zero_based),
        arrivals.len() == 1,
        transfer_of(unexpired(pending, arrivals[0].now), id) is None,
        unexpired(pending, arrivals[0].now).len() < ACRE_MAX_PENDING_SOUNDS,
    ensures
        ({
            let (after, answer) = received(pending, arrivals);
            &&& bounded_transfers(after)
            &&& if complete(places(arrivals, id, zero_based), pieces.len()) {
                &&& named(after, id) is None
                &&& answer == sound_of(id, pieces)
            } else {
                &&& waits(after, id, pieces, zero_based, arrivals)
                &&& answer == Ok::<Option<LoadedView>, SoundFault>(None)
            }
        }),
{
    let chunk = arrivals[0].chunk;
    let now = arrivals[0].now;
    let kept = unexpired(pending, now);
    let grown = kept.push(fresh_transfer(chunk, now));
    let at = kept.len() as int;
    let place = place_of(chunk, zero_based);
    let arrived = Set::<int>::empty().insert(place);
    assert(arrivals.drop_last() =~= Seq::<Arrival>::empty());
    assert(received(pending, arrivals.drop_last()).0 == pending);
    assert(places(arrivals.drop_last(), id, zero_based) == Set::<int>::empty());
    assert(places(arrivals, id, zero_based) == arrived);
    lemma_bounds_after_expiry(pending, now);
    lemma_beginning_is_bounded(kept, chunk, now);
    lemma_held_bound(grown);
    lemma_extension_is_bounded(grown, at, chunk, now);
    assert(grown[at].chunks =~= filled(pieces, Set::empty()));
    assert(carries_piece(chunk, pieces, zero_based));
    assert(grown[at].zero_based == zero_based);
    lemma_next_piece(grown, at, pieces, Set::empty(), chunk, now);
    let after = PendingView { chunks: filled(pieces, arrived), last_update: now, ..grown[at] };
    lemma_filled_bytes(pieces, arrived);
    lemma_named_remove(grown, at, id);
    assert(bounded_transfer(after));
    lemma_named_update(grown, at, after, id);
    assert(arrivals[0].now == now);
}

proof fn lemma_later_piece(
    pending: Seq<PendingView>,
    id: Seq<char>,
    pieces: Seq<Seq<char>>,
    zero_based: bool,
    arrivals: Seq<Arrival>,
)
    requires
        sound_pieces(pieces),
        bring(arrivals, id, pieces, zero_based),
        arrivals.len() > 1,
        bounded_transfers(pending),
        waits(pending, id, pieces, zero_based, arrivals.drop_last()),
        !complete(places(arrivals.drop_last(), id, zero_based), pieces.len()),
    ensures
        ({
            let (after, answer) = accepted(pending, arrivals.last().chunk, arrivals.last().now);
            &&& bounded_transfers(after)
            &&& if complete(places(arrivals, id, zero_based), pieces.len()) {
                &&& named(after, id) is None
                &&& answer == sound_of(id, pieces)
            } else {
                &&& waits(after, id, pieces, zero_based, arrivals)
                &&& arrivals.last().chunk.id == id ==> answer == Ok::<
                    Option<LoadedView>,
                    SoundFault,
                >(None)
            }
        }),
{
    let before = arrivals.drop_last();
    let last = arrivals[arrivals.len() - 1];
    let chunk = last.chunk;
    let now = last.now;
    let transfer = named(pending, id)->0;
    let arrived = places(before, id, zero_based);
    let recent = choose|i: int|
        0 <= i < before.len() && transfer.last_update == (#[trigger] before[i]).now;
    assert(arrivals[recent] == before[recent]);
    assert(last.now < arrivals[recent].now + ACRE_SOUND_LOAD_TIMEOUT);
    assert(!expired(transfer, now));
    assert(chunk_fault(chunk) is None);
    let kept = unexpired(pending, now);
    lemma_named_unexpired(pending, now, id);
    lemma_bounds_after_expiry(pending, now);
    lemma_held_bound(pending);
    law_transfers_stay_bounded(pending, chunk, now);
    lemma_transfer_of(kept, id);
    if chunk.id == id {
        let at = transfer_of(kept, id)->0;
        let place = place_of(chunk, zero_based);
        let more = arrived.insert(place);
        assert(kept[at] == transfer);
        assert(carries_piece(chunk, pieces, zero_based));
        lemma_next_piece(kept, at, pieces, arrived, chunk, now);
        let after = PendingView { chunks: filled(pieces, more), last_update: now, ..transfer };
        lemma_filled_bytes(pieces, more);
        lemma_named_remove(kept, at, id);
        assert(bounded_transfer(after));
        lemma_named_update(kept, at, after, id);
        assert(last.now == now);
        if arrived.contains(place) {
            assert(more =~= arrived);
        }
    } else {
        law_transfers_are_independent(pending, chunk, now, id);
    }
}

proof fn lemma_transfer_so_far(
    pending: Seq<PendingView>,
    id: Seq<char>,
    pieces: Seq<Seq<char>>,
    zero_based: bool,
    arrivals: Seq<Arrival>,
)
    requires
        bounded_transfers(pending),
        sound_pieces(pieces),
        bring(arrivals, id, pieces, zero_based),
        transfer_of(unexpired(pending, arrivals[0].now), id) is None,
        unexpired(pending, arrivals[0].now).len() < ACRE_MAX_PENDING_SOUNDS,
        !complete(places(arrivals.drop_last(), id, zero_based), pieces.len()),
    ensures
        ({
            let (after, answer) = received(pending, arrivals);
            &&& bounded_transfers(after)
            &&& if complete(places(arrivals, id, zero_based), pieces.len()) {
                &&& named(after, id) is None
                &&& answer == sound_of(id, pieces)
            } else {
                &&& waits(after, id, pieces, zero_based, arrivals)
                &&& arrivals.last().chunk.id == id ==> answer == Ok::<
                    Option<LoadedView>,
                    SoundFault,
                >(None)
            }
        }),
    decreases arrivals.len(),
{
    if arrivals.len() == 1 {
        lemma_first_piece(pending, id, pieces, zero_based, arrivals);
    } else {
        let before = arrivals.drop_last();
        lemma_brought_before(arrivals, before.len() as int, id, pieces, zero_based);
        assert(before =~= arrivals.take(before.len() as int));
        lemma_fewer_places(before, before.len() - 1, id, zero_based);
        assert(before.drop_last() =~= before.take(before.len() - 1));
        lemma_transfer_so_far(pending, id, pieces, zero_based, before);
        lemma_later_piece(received(pending, before).0, id, pieces, zero_based, arrivals);
    }
}

proof fn lemma_brought_before(
    arrivals: Seq<Arrival>,
    count: int,
    id: Seq<char>,
    pieces: Seq<Seq<char>>,
    zero_based: bool,
)
    requires
        bring(arrivals, id, pieces, zero_based),
        1 <= count <= arrivals.len(),
    ensures
        bring(arrivals.take(count), id, pieces, zero_based),
{
    let first = arrivals.take(count);
    assert forall|i: int| 0 <= i < first.len() implies #[trigger] first[i] == arrivals[i] by {}
}

proof fn lemma_fewer_places(arrivals: Seq<Arrival>, count: int, id: Seq<char>, zero_based: bool)
    requires
        0 <= count <= arrivals.len(),
    ensures
        places(arrivals.take(count), id, zero_based).subset_of(places(arrivals, id, zero_based)),
    decreases arrivals.len(),
{
    if count < arrivals.len() {
        let before = arrivals.drop_last();
        lemma_fewer_places(before, count, id, zero_based);
        assert(before.take(count) =~= arrivals.take(count));
    } else {
        assert(arrivals.take(count) =~= arrivals);
    }
}

/// The sound that the pieces amount to, or why it is refused.
pub open spec fn sound_of(id: Seq<char>, pieces: Seq<Seq<char>>) -> Result<
    Option<LoadedView>,
    SoundFault,
> {
    match decoded_payload(whole(pieces)) {
        Ok(bytes) => Ok(Some(LoadedView { id, bytes, sha256: sha256_of(bytes) })),
        Err(fault) => Err(fault),
    }
}

/// A sound is loaded with the arrival that brings its last missing piece: its
/// bytes are what the pieces, one behind the other by index, encode, and its
/// digest is that of the bytes. The pieces may come in any order and more than
/// once, with chunks of other sounds between them, and may be counted from
/// zero or from one. Until the last piece is there every one of them is
/// answered with nothing, and afterwards nothing of the transfer is left.
pub proof fn law_transfers_yield_their_sound(
    pending: Seq<PendingView>,
    id: Seq<char>,
    pieces: Seq<Seq<char>>,
    zero_based: bool,
    arrivals: Seq<Arrival>,
)
    requires
        bounded_transfers(pending),
        sound_pieces(pieces),
        bring(arrivals, id, pieces, zero_based),
        transfer_of(unexpired(pending, arrivals[0].now), id) is None,
        unexpired(pending, arrivals[0].now).len() < ACRE_MAX_PENDING_SOUNDS,
        complete(places(arrivals, id, zero_based), pieces.len()),
        !complete(places(arrivals.drop_last(), id, zero_based), pieces.len()),
    ensures
        received(pending, arrivals).1 == sound_of(id, pieces),
        transfer_of(received(pending, arrivals).0, id) is None,
        forall|count: int|
            1 <= count < arrivals.len() && arrivals[count - 1].chunk.id == id ==> (
            #[trigger] received(pending, arrivals.take(count))).1 == Ok::<
                Option<LoadedView>,
                SoundFault,
            >(None),
{
    lemma_transfer_so_far(pending, id, pieces, zero_based, arrivals);
    assert forall|count: int|
        1 <= count < arrivals.len() && arrivals[count - 1].chunk.id == id implies (
    #[trigger] received(pending, arrivals.take(count))).1 == Ok::<Option<LoadedView>, SoundFault>(
        None,
    ) by {
        let first = arrivals.take(count);
        let all_but_last = arrivals.drop_last();
        lemma_brought_before(arrivals, count, id, pieces, zero_based);
        lemma_fewer_places(all_but_last, count, id, zero_based);
        assert(all_but_last.take(count) =~= first);
        lemma_fewer_places(first, count - 1, id, zero_based);
        assert(first.take(count - 1) =~= first.drop_last());
        lemma_transfer_so_far(pending, id, pieces, zero_based, first);
    }
}

} // verus!
