//! Refusals in words, as they stand in the diagnostic log.

use crate::audio_snapshot::AcreAudioSnapshotError;
use crate::decimal::{self, push_decimal, signed_text};
use crate::peer_state::{DirectoryFault, PeerDirectoryError};
use crate::ptt::AcrePttError;
use crate::session::{AcreSessionError, SessionFault};
use crate::sound::{AcreSoundError, SoundFault};
use crate::speaking::{AcreSpeakingDataError, SpeakingFault};
use crate::transmission;
use vstd::prelude::*;

verus! {

impl SoundFault {
    /// The refusal in words.
    /// `volume` is how a refused volume is written.
    pub open spec fn words(self, volume: Seq<char>) -> Seq<char> {
        match self {
            SoundFault::UnexpectedProcedure(name) => "unexpected ACRE sound procedure "@ + name,
            SoundFault::WrongArity { procedure, expected, actual } =>
                "ACRE sound procedure "@ + procedure + " has "@ + decimal::decimal(actual as nat)
                    + " parameters; expected "@ + decimal::decimal(expected as nat),
            SoundFault::EmptySoundId => "ACRE sound ID cannot be empty"@,
            SoundFault::SoundIdTooLong { length, limit } =>
                "ACRE sound ID is "@ + decimal::decimal(length as nat) + " bytes; limit is "@
                    + decimal::decimal(limit as nat),
            SoundFault::InvalidSoundId => "ACRE sound ID contains unsupported characters"@,
            SoundFault::InvalidInteger { procedure, index } =>
                "ACRE sound procedure "@ + procedure + " parameter "@
                    + decimal::decimal(index as nat) + " must be an unsigned integer"@,
            SoundFault::InvalidFloat { procedure, index } =>
                "ACRE sound procedure "@ + procedure + " parameter "@
                    + decimal::decimal(index as nat) + " must be a finite float"@,
            SoundFault::InvalidChunkTotal { total } =>
                "ACRE sound transfer declares "@ + decimal::decimal(total as nat)
                    + " chunks; limit is 128"@,
            SoundFault::InvalidChunkIndex { index, total } =>
                "ACRE sound chunk "@ + decimal::decimal(index as nat)
                    + " is outside its declared total "@ + decimal::decimal(total as nat),
            SoundFault::ChunkTooLong { length, limit } =>
                "ACRE sound chunk is "@ + decimal::decimal(length as nat) + " bytes; limit is "@
                    + decimal::decimal(limit as nat),
            SoundFault::InvalidBase64 => "ACRE sound payload is not strict base64"@,
            SoundFault::EmptyNonFinalChunk { id } =>
                "ACRE sound transfer "@ + id + " has an empty non-final chunk"@,
            SoundFault::ConflictingChunkLayout { id } =>
                "ACRE sound transfer "@ + id + " changed its counter layout"@,
            SoundFault::ConflictingChunk { id } =>
                "ACRE sound transfer "@ + id + " repeated a chunk with different data"@,
            SoundFault::EncodedSoundTooLarge { id, length, limit } =>
                "ACRE sound transfer "@ + id + " is "@ + decimal::decimal(length as nat)
                    + " encoded bytes; limit is "@ + decimal::decimal(limit as nat),
            SoundFault::PendingSoundBytesExceeded { limit } =>
                "ACRE pending sound transfers exceed "@ + decimal::decimal(limit as nat)
                    + " encoded bytes"@,
            SoundFault::TooManyPendingSounds { limit } =>
                "ACRE has more than "@ + decimal::decimal(limit as nat)
                    + " incomplete sound transfers"@,
            SoundFault::EmptySoundPayload => "ACRE sound payload is empty"@,
            SoundFault::DecodedSoundTooLarge { length, limit } =>
                "ACRE decoded sound is "@ + decimal::decimal(length as nat) + " bytes; limit is "@
                    + decimal::decimal(limit as nat),
            SoundFault::InvalidVolume { volume: _ } =>
                "ACRE sound volume "@ + volume + " is outside 0..=1"@,
            SoundFault::InvalidWorldFlag(name) =>
                "ACRE sound world flag must be 0 or 1, got "@ + name,
        }
    }
}

impl AcreSoundError {
    /// Puts the refusal into words.
    /// `volume` is how a refused volume is written.
    pub fn to_string(&self, volume: &str) -> (words: String)
        ensures
            words@ == self@.words(volume@),
    {
        match self {
            AcreSoundError::UnexpectedProcedure(name) => {
                let mut words: String = "unexpected ACRE sound procedure ".to_owned();
                words.append(name.as_str());
                words
            },
            AcreSoundError::WrongArity { procedure, expected, actual } => {
                let mut words: String = "ACRE sound procedure ".to_owned();
                words.append(procedure.as_str());
                words.append(" has ");
                push_decimal(&mut words, *actual as u64);
                words.append(" parameters; expected ");
                push_decimal(&mut words, *expected as u64);
                words
            },
            AcreSoundError::EmptySoundId => "ACRE sound ID cannot be empty".to_owned(),
            AcreSoundError::SoundIdTooLong { length, limit } => {
                let mut words: String = "ACRE sound ID is ".to_owned();
                push_decimal(&mut words, *length as u64);
                words.append(" bytes; limit is ");
                push_decimal(&mut words, *limit as u64);
                words
            },
            AcreSoundError::InvalidSoundId =>
                "ACRE sound ID contains unsupported characters".to_owned(),
            AcreSoundError::InvalidInteger { procedure, index } => {
                let mut words: String = "ACRE sound procedure ".to_owned();
                words.append(procedure.as_str());
                words.append(" parameter ");
                push_decimal(&mut words, *index as u64);
                words.append(" must be an unsigned integer");
                words
            },
            AcreSoundError::InvalidFloat { procedure, index } => {
                let mut words: String = "ACRE sound procedure ".to_owned();
                words.append(procedure.as_str());
                words.append(" parameter ");
                push_decimal(&mut words, *index as u64);
                words.append(" must be a finite float");
                words
            },
            AcreSoundError::InvalidChunkTotal { total } => {
                let mut words: String = "ACRE sound transfer declares ".to_owned();
                push_decimal(&mut words, *total as u64);
                words.append(" chunks; limit is 128");
                words
            },
            AcreSoundError::InvalidChunkIndex { index, total } => {
                let mut words: String = "ACRE sound chunk ".to_owned();
                push_decimal(&mut words, *index as u64);
                words.append(" is outside its declared total ");
                push_decimal(&mut words, *total as u64);
                words
            },
            AcreSoundError::ChunkTooLong { length, limit } => {
                let mut words: String = "ACRE sound chunk is ".to_owned();
                push_decimal(&mut words, *length as u64);
                words.append(" bytes; limit is ");
                push_decimal(&mut words, *limit as u64);
                words
            },
            AcreSoundError::InvalidBase64 => "ACRE sound payload is not strict base64".to_owned(),
            AcreSoundError::EmptyNonFinalChunk { id } => {
                let mut words: String = "ACRE sound transfer ".to_owned();
                words.append(id.as_str());
                words.append(" has an empty non-final chunk");
                words
            },
            AcreSoundError::ConflictingChunkLayout { id } => {
                let mut words: String = "ACRE sound transfer ".to_owned();
                words.append(id.as_str());
                words.append(" changed its counter layout");
                words
            },
            AcreSoundError::ConflictingChunk { id } => {
                let mut words: String = "ACRE sound transfer ".to_owned();
                words.append(id.as_str());
                words.append(" repeated a chunk with different data");
                words
            },
            AcreSoundError::EncodedSoundTooLarge { id, length, limit } => {
                let mut words: String = "ACRE sound transfer ".to_owned();
                words.append(id.as_str());
                words.append(" is ");
                push_decimal(&mut words, *length as u64);
                words.append(" encoded bytes; limit is ");
                push_decimal(&mut words, *limit as u64);
                words
            },
            AcreSoundError::PendingSoundBytesExceeded { limit } => {
                let mut words: String = "ACRE pending sound transfers exceed ".to_owned();
                push_decimal(&mut words, *limit as u64);
                words.append(" encoded bytes");
                words
            },
            AcreSoundError::TooManyPendingSounds { limit } => {
                let mut words: String = "ACRE has more than ".to_owned();
                push_decimal(&mut words, *limit as u64);
                words.append(" incomplete sound transfers");
                words
            },
            AcreSoundError::EmptySoundPayload => "ACRE sound payload is empty".to_owned(),
            AcreSoundError::DecodedSoundTooLarge { length, limit } => {
                let mut words: String = "ACRE decoded sound is ".to_owned();
                push_decimal(&mut words, *length as u64);
                words.append(" bytes; limit is ");
                push_decimal(&mut words, *limit as u64);
                words
            },
            AcreSoundError::InvalidVolume { volume: _ } => {
                let mut words: String = "ACRE sound volume ".to_owned();
                words.append(volume);
                words.append(" is outside 0..=1");
                words
            },
            AcreSoundError::InvalidWorldFlag(name) => {
                let mut words: String = "ACRE sound world flag must be 0 or 1, got ".to_owned();
                words.append(name.as_str());
                words
            },
        }
    }
}

impl SpeakingFault {
    /// The refusal in words.
    pub open spec fn words(self) -> Seq<char> {
        match self {
            SpeakingFault::UnexpectedProcedure(name) =>
                "expected updateSpeakingData, received "@ + name,
            SpeakingFault::WrongArity { expected, actual } =>
                "updateSpeakingData has "@ + decimal::decimal(actual as nat)
                    + " parameters; expected "@ + expected,
            SpeakingFault::UnsupportedSpeakingKind(name) =>
                "updateSpeakingData has unsupported speaking kind "@ + name,
            SpeakingFault::InvalidUnsigned { index } =>
                "updateSpeakingData parameter "@ + decimal::decimal(index as nat)
                    + " must be an unsigned integer"@,
            SpeakingFault::InvalidBinaryFlag { index } =>
                "updateSpeakingData parameter "@ + decimal::decimal(index as nat)
                    + " must be exactly 0 or 1"@,
            SpeakingFault::InvalidFloat { index } =>
                "updateSpeakingData parameter "@ + decimal::decimal(index as nat)
                    + " must be a finite float"@,
            SpeakingFault::InvalidVoiceCurveModel { model } =>
                "ACRE voice curve model "@ + decimal::signed_decimal(model as int)
                    + " is unsupported"@,
            SpeakingFault::InvalidCurveScale => "ACRE speaker curve scale must be finite"@,
            SpeakingFault::RadioPathCountTooLarge =>
                "updateSpeakingData radio path count exceeds the bounded adapter limit"@,
        }
    }
}

impl AcreSpeakingDataError {
    /// Puts the refusal into words.
    pub fn to_string(&self) -> (words: String)
        ensures
            words@ == self@.words(),
    {
        match self {
            AcreSpeakingDataError::UnexpectedProcedure(name) => {
                let mut words: String = "expected updateSpeakingData, received ".to_owned();
                words.append(name.as_str());
                words
            },
            AcreSpeakingDataError::WrongArity { expected, actual } => {
                let mut words: String = "updateSpeakingData has ".to_owned();
                push_decimal(&mut words, *actual as u64);
                words.append(" parameters; expected ");
                words.append(expected.as_str());
                words
            },
            AcreSpeakingDataError::UnsupportedSpeakingKind(name) => {
                let mut words: String =
                    "updateSpeakingData has unsupported speaking kind ".to_owned();
                words.append(name.as_str());
                words
            },
            AcreSpeakingDataError::InvalidUnsigned { index } => {
                let mut words: String = "updateSpeakingData parameter ".to_owned();
                push_decimal(&mut words, *index as u64);
                words.append(" must be an unsigned integer");
                words
            },
            AcreSpeakingDataError::InvalidBinaryFlag { index } => {
                let mut words: String = "updateSpeakingData parameter ".to_owned();
                push_decimal(&mut words, *index as u64);
                words.append(" must be exactly 0 or 1");
                words
            },
            AcreSpeakingDataError::InvalidFloat { index } => {
                let mut words: String = "updateSpeakingData parameter ".to_owned();
                push_decimal(&mut words, *index as u64);
                words.append(" must be a finite float");
                words
            },
            AcreSpeakingDataError::InvalidVoiceCurveModel { model } => {
                let mut words: String = "ACRE voice curve model ".to_owned();
                words.append(signed_text(*model).as_str());
                words.append(" is unsupported");
                words
            },
            AcreSpeakingDataError::InvalidCurveScale =>
                "ACRE speaker curve scale must be finite".to_owned(),
            AcreSpeakingDataError::RadioPathCountTooLarge =>
                "updateSpeakingData radio path count exceeds the bounded adapter limit".to_owned(),
        }
    }
}

impl SessionFault {
    /// The refusal in words.
    /// `volume` is how a refused volume is written.
    pub open spec fn words(self, volume: Seq<char>) -> Seq<char> {
        match self {
            SessionFault::Codec(error) => error.words(),
            SessionFault::Speaking(error) => error.words(),
            SessionFault::Sound(error) => error.words(volume),
            SessionFault::UnsupportedProcedure(name) => "unsupported ACRE RPC procedure "@ + name,
            SessionFault::WrongArity { procedure, expected, actual } =>
                "ACRE RPC "@ + procedure + " has "@ + decimal::decimal(actual as nat)
                    + " parameters; expected "@ + expected,
            SessionFault::LocalVoiceClientIdUnavailable =>
                "a synchronized Mumble local user ID is required"@,
            SessionFault::LocalNetIdUnavailable => "a non-empty local ACRE netId is required"@,
            SessionFault::EmptyRadioId => "radio PTT requires a non-empty radio ID"@,
            SessionFault::EmptySettingName => "ACRE setting name cannot be empty"@,
            SessionFault::VoipMetadataUnavailable => "Mumble VOIP metadata is unavailable"@,
            SessionFault::EmptyVoipMetadataField(name) =>
                "Mumble VOIP metadata field "@ + name + " cannot be empty"@,
            SessionFault::VoipMetadataFieldTooLong { field, length, limit } =>
                "Mumble VOIP metadata field "@ + field + " is "@ + decimal::decimal(length as nat)
                    + " bytes; limit is "@ + decimal::decimal(limit as nat),
            SessionFault::InvalidVoipMetadataField(name) =>
                "Mumble VOIP metadata field "@ + name + " cannot be encoded in ACRE RPC"@,
            SessionFault::InvalidInteger { procedure, index } =>
                "ACRE RPC "@ + procedure + " parameter "@ + decimal::decimal(index as nat)
                    + " must be a signed integer"@,
            SessionFault::InvalidFloat { procedure, index } =>
                "ACRE RPC "@ + procedure + " parameter "@ + decimal::decimal(index as nat)
                    + " must be a finite float"@,
            SessionFault::NonFiniteCurveScale => "ACRE curve scale must be finite"@,
            SessionFault::NonFiniteClock => "ACRE ping clock must be finite"@,
        }
    }
}

impl AcreSessionError {
    /// Puts the refusal into words.
    /// `volume` is how a refused volume is written.
    pub fn to_string(&self, volume: &str) -> (words: String)
        ensures
            words@ == self@.words(volume@),
    {
        match self {
            AcreSessionError::Codec(error) => error.to_string(),
            AcreSessionError::Speaking(error) => error.to_string(),
            AcreSessionError::Sound(error) => error.to_string(volume),
            AcreSessionError::UnsupportedProcedure(name) => {
                let mut words: String = "unsupported ACRE RPC procedure ".to_owned();
                words.append(name.as_str());
                words
            },
            AcreSessionError::WrongArity { procedure, expected, actual } => {
                let mut words: String = "ACRE RPC ".to_owned();
                words.append(procedure.as_str());
                words.append(" has ");
                push_decimal(&mut words, *actual as u64);
                words.append(" parameters; expected ");
                words.append(expected);
                words
            },
            AcreSessionError::LocalVoiceClientIdUnavailable =>
                "a synchronized Mumble local user ID is required".to_owned(),
            AcreSessionError::LocalNetIdUnavailable =>
                "a non-empty local ACRE netId is required".to_owned(),
            AcreSessionError::EmptyRadioId => "radio PTT requires a non-empty radio ID".to_owned(),
            AcreSessionError::EmptySettingName => "ACRE setting name cannot be empty".to_owned(),
            AcreSessionError::VoipMetadataUnavailable =>
                "Mumble VOIP metadata is unavailable".to_owned(),
            AcreSessionError::EmptyVoipMetadataField(name) => {
                let mut words: String = "Mumble VOIP metadata field ".to_owned();
                words.append(name);
                words.append(" cannot be empty");
                words
            },
            AcreSessionError::VoipMetadataFieldTooLong { field, length, limit } => {
                let mut words: String = "Mumble VOIP metadata field ".to_owned();
                words.append(field);
                words.append(" is ");
                push_decimal(&mut words, *length as u64);
                words.append(" bytes; limit is ");
                push_decimal(&mut words, *limit as u64);
                words
            },
            AcreSessionError::InvalidVoipMetadataField(name) => {
                let mut words: String = "Mumble VOIP metadata field ".to_owned();
                words.append(name);
                words.append(" cannot be encoded in ACRE RPC");
                words
            },
            AcreSessionError::InvalidInteger { procedure, index } => {
                let mut words: String = "ACRE RPC ".to_owned();
                words.append(procedure.as_str());
                words.append(" parameter ");
                push_decimal(&mut words, *index as u64);
                words.append(" must be a signed integer");
                words
            },
            AcreSessionError::InvalidFloat { procedure, index } => {
                let mut words: String = "ACRE RPC ".to_owned();
                words.append(procedure.as_str());
                words.append(" parameter ");
                push_decimal(&mut words, *index as u64);
                words.append(" must be a finite float");
                words
            },
            AcreSessionError::NonFiniteCurveScale => "ACRE curve scale must be finite".to_owned(),
            AcreSessionError::NonFiniteClock => "ACRE ping clock must be finite".to_owned(),
        }
    }
}

/// The text as a literal: in quotes, with what would not print escaped.
pub uninterp spec fn quoted_of(text: Seq<char>) -> Seq<char>;

/// `<str as std::fmt::Debug>::fmt`, by way of `format!`: the literal is
/// determined by the text alone and is what `quoted_of` names. Which characters
/// it escapes is left unsaid: that follows the tables of Unicode.
#[verifier::external_body]
fn quoted(text: &str) -> (literal: String)
    ensures
        literal@ == quoted_of(text@),
{
    format!("{text:?}")
}

/// The words for a message of another mission, given the two scopes as
/// literals.
pub open spec fn mismatch(received: Seq<char>, expected: Seq<char>) -> Seq<char> {
    "peer scope "@ + received + " does not match local scope "@ + expected
}

/// Puts a message of another mission into words, given the two scopes as
/// literals.
pub fn mismatch_words(received: &str, expected: &str) -> (words: String)
    ensures
        words@ == mismatch(received@, expected@),
{
    let mut words: String = "peer scope ".to_owned();
    words.append(received);
    words.append(" does not match local scope ");
    words.append(expected);
    words
}

impl DirectoryFault {
    /// The refusal in words.
    /// `volume` is how a refused volume is written.
    pub open spec fn words(self, volume: Seq<char>) -> Seq<char> {
        match self {
            DirectoryFault::Peer(fault) => fault.words(),
            DirectoryFault::Session(fault) => fault.words(volume),
            DirectoryFault::ScopeMismatch { expected, received } => mismatch(
                quoted_of(received),
                quoted_of(expected),
            ),
            DirectoryFault::HandshakeRequired =>
                "peer must send HELLO before identity or transmission state"@,
            DirectoryFault::IdentityMismatch =>
                "peer START netId does not match its announced identity"@,
        }
    }
}

impl PeerDirectoryError {
    /// Puts the refusal into words.
    /// `volume` is how a refused volume is written.
    pub fn to_string(&self, volume: &str) -> (words: String)
        ensures
            words@ == self@.words(volume@),
    {
        match self {
            PeerDirectoryError::Peer(error) => error.to_string(),
            PeerDirectoryError::Session(error) => error.to_string(volume),
            PeerDirectoryError::ScopeMismatch { expected, received } => {
                let received: String = quoted(received.as_str());
                let expected: String = quoted(expected.as_str());
                mismatch_words(received.as_str(), expected.as_str())
            },
            PeerDirectoryError::HandshakeRequired =>
                "peer must send HELLO before identity or transmission state".to_owned(),
            PeerDirectoryError::IdentityMismatch =>
                "peer START netId does not match its announced identity".to_owned(),
        }
    }
}

impl AcrePttError {
    /// The refusal in words.
    pub open spec fn words(self) -> Seq<char> {
        match self {
            AcrePttError::UnsupportedAcreSpeakingKind(kind) =>
                "ACRE PTT only supports local radio, intercom, God, or Zeus, not "@
                    + transmission::kind_name(kind),
            AcrePttError::RadioWithoutRadioId => "a local radio PTT requires a radio ID"@,
            AcrePttError::NonRadioWithRadioId(kind) =>
                "ACRE local "@ + transmission::kind_name(kind) + " PTT must not carry a radio ID"@,
            AcrePttError::ExpectedDirect(kind) =>
                "expected local direct speech, received "@ + transmission::kind_name(kind),
            AcrePttError::DirectWithRadioId => "direct Mumble speech must not carry a radio ID"@,
        }
    }

    /// Puts the refusal into words.
    pub fn to_string(&self) -> (words: String)
        ensures
            words@ == self.words(),
    {
        match self {
            AcrePttError::UnsupportedAcreSpeakingKind(kind) => {
                let mut words: String =
                    "ACRE PTT only supports local radio, intercom, God, or Zeus, not ".to_owned();
                words.append(kind.name());
                words
            },
            AcrePttError::RadioWithoutRadioId => "a local radio PTT requires a radio ID".to_owned(),
            AcrePttError::NonRadioWithRadioId(kind) => {
                let mut words: String = "ACRE local ".to_owned();
                words.append(kind.name());
                words.append(" PTT must not carry a radio ID");
                words
            },
            AcrePttError::ExpectedDirect(kind) => {
                let mut words: String = "expected local direct speech, received ".to_owned();
                words.append(kind.name());
                words
            },
            AcrePttError::DirectWithRadioId =>
                "direct Mumble speech must not carry a radio ID".to_owned(),
        }
    }
}

impl AcreAudioSnapshotError {
    /// The refusal in words.
    pub open spec fn words(self) -> Seq<char> {
        match self {
            AcreAudioSnapshotError::ZeroSpeakerCapacity =>
                "ACRE audio snapshot capacity must be non-zero"@,
            AcreAudioSnapshotError::TooManySpeakers { limit } =>
                "ACRE audio snapshot supports at most "@ + decimal::decimal(limit as nat)
                    + " speakers"@,
            AcreAudioSnapshotError::SequenceExhausted =>
                "ACRE audio snapshot sequence is exhausted"@,
            AcreAudioSnapshotError::GenerationExhausted =>
                "ACRE audio snapshot generation is exhausted"@,
        }
    }

    /// Puts the refusal into words.
    pub fn to_string(&self) -> (words: String)
        ensures
            words@ == self.words(),
    {
        match self {
            AcreAudioSnapshotError::ZeroSpeakerCapacity =>
                "ACRE audio snapshot capacity must be non-zero".to_owned(),
            AcreAudioSnapshotError::TooManySpeakers { limit } => {
                let mut words: String = "ACRE audio snapshot supports at most ".to_owned();
                push_decimal(&mut words, *limit as u64);
                words.append(" speakers");
                words
            },
            AcreAudioSnapshotError::SequenceExhausted =>
                "ACRE audio snapshot sequence is exhausted".to_owned(),
            AcreAudioSnapshotError::GenerationExhausted =>
                "ACRE audio snapshot generation is exhausted".to_owned(),
        }
    }
}

/// The volume that a refusal is about, if it is about one.
pub open spec fn volume_of(fault: SessionFault) -> Option<u32> {
    match fault {
        SessionFault::Sound(SoundFault::InvalidVolume { volume }) => Some(volume),
        _ => None,
    }
}

impl AcreSessionError {
    /// The volume that the refusal is about, if it is about one.
    pub fn volume(&self) -> (volume: Option<u32>)
        ensures
            volume == volume_of(self@),
    {
        match self {
            AcreSessionError::Sound(AcreSoundError::InvalidVolume { volume }) => Some(*volume),
            _ => None,
        }
    }
}

} // verus!
