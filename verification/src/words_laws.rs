//! What refusals say: each one its own reason, with its numbers in their place.

use crate::audio_snapshot::AcreAudioSnapshotError;
use crate::decimal::decimal;
use crate::peer_state::DirectoryFault;
use crate::ptt::AcrePttError;
use crate::session::SessionFault;
use crate::sound::SoundFault;
use crate::speaking::SpeakingFault;
use crate::words;
use vstd::prelude::*;

verus! {

/// What the session refuses for a reason of its own says that reason.
pub proof fn law_sessions_say_why_they_refuse(volume: Seq<char>)
    ensures
        SessionFault::LocalVoiceClientIdUnavailable.words(volume)
            == "a synchronized Mumble local user ID is required"@,
        SessionFault::LocalNetIdUnavailable.words(volume)
            == "a non-empty local ACRE netId is required"@,
        SessionFault::EmptyRadioId.words(volume) == "radio PTT requires a non-empty radio ID"@,
        SessionFault::EmptySettingName.words(volume) == "ACRE setting name cannot be empty"@,
        SessionFault::VoipMetadataUnavailable.words(volume)
            == "Mumble VOIP metadata is unavailable"@,
        SessionFault::NonFiniteCurveScale.words(volume) == "ACRE curve scale must be finite"@,
        SessionFault::NonFiniteClock.words(volume) == "ACRE ping clock must be finite"@,
{
}

/// What the session refuses because of a parameter says which one of which
/// procedure; what another part refused is said in that part's words.
pub proof fn law_sessions_say_what_they_refuse(
    volume: Seq<char>,
    procedure: Seq<char>,
    expected: Seq<char>,
    actual: usize,
    index: usize,
    spoken: SpeakingFault,
    played: SoundFault,
)
    ensures
        SessionFault::UnsupportedProcedure(procedure).words(volume)
            == "unsupported ACRE RPC procedure "@ + procedure,
        (SessionFault::WrongArity { procedure, expected, actual }).words(volume) == "ACRE RPC "@
            + procedure + " has "@ + decimal(actual as nat) + " parameters; expected "@
            + expected,
        (SessionFault::InvalidInteger { procedure, index }).words(volume) == "ACRE RPC "@
            + procedure + " parameter "@ + decimal(index as nat) + " must be a signed integer"@,
        (SessionFault::InvalidFloat { procedure, index }).words(volume) == "ACRE RPC "@
            + procedure + " parameter "@ + decimal(index as nat) + " must be a finite float"@,
        SessionFault::Speaking(spoken).words(volume) == spoken.words(),
        SessionFault::Sound(played).words(volume) == played.words(volume),
{
}

/// A sound that is too large in some way says how large it is and may be.
pub proof fn law_sounds_say_how_large_they_may_be(
    volume: Seq<char>,
    id: Seq<char>,
    length: usize,
    limit: usize,
    index: usize,
    total: usize,
)
    ensures
        (SoundFault::SoundIdTooLong { length, limit }).words(volume) == "ACRE sound ID is "@
            + decimal(length as nat) + " bytes; limit is "@ + decimal(limit as nat),
        (SoundFault::ChunkTooLong { length, limit }).words(volume) == "ACRE sound chunk is "@
            + decimal(length as nat) + " bytes; limit is "@ + decimal(limit as nat),
        (SoundFault::EncodedSoundTooLarge { id, length, limit }).words(volume)
            == "ACRE sound transfer "@ + id + " is "@ + decimal(length as nat)
            + " encoded bytes; limit is "@ + decimal(limit as nat),
        (SoundFault::DecodedSoundTooLarge { length, limit }).words(volume)
            == "ACRE decoded sound is "@ + decimal(length as nat) + " bytes; limit is "@
            + decimal(limit as nat),
        (SoundFault::InvalidChunkIndex { index, total }).words(volume) == "ACRE sound chunk "@
            + decimal(index as nat) + " is outside its declared total "@ + decimal(total as nat),
        (SoundFault::InvalidChunkTotal { total }).words(volume) == "ACRE sound transfer declares "@
            + decimal(total as nat) + " chunks; limit is 128"@,
        (SoundFault::TooManyPendingSounds { limit }).words(volume) == "ACRE has more than "@
            + decimal(limit as nat) + " incomplete sound transfers"@,
{
}

/// A sound that cannot be loaded or played says why.
pub proof fn law_sounds_say_why_they_are_refused(
    volume: Seq<char>,
    id: Seq<char>,
    bits: u32,
)
    ensures
        SoundFault::EmptySoundId.words(volume) == "ACRE sound ID cannot be empty"@,
        SoundFault::InvalidSoundId.words(volume)
            == "ACRE sound ID contains unsupported characters"@,
        SoundFault::InvalidBase64.words(volume) == "ACRE sound payload is not strict base64"@,
        SoundFault::EmptySoundPayload.words(volume) == "ACRE sound payload is empty"@,
        (SoundFault::EmptyNonFinalChunk { id }).words(volume) == "ACRE sound transfer "@ + id
            + " has an empty non-final chunk"@,
        (SoundFault::ConflictingChunkLayout { id }).words(volume) == "ACRE sound transfer "@ + id
            + " changed its counter layout"@,
        (SoundFault::ConflictingChunk { id }).words(volume) == "ACRE sound transfer "@ + id
            + " repeated a chunk with different data"@,
        (SoundFault::InvalidVolume { volume: bits }).words(volume) == "ACRE sound volume "@
            + volume + " is outside 0..=1"@,
        SoundFault::InvalidWorldFlag(id).words(volume)
            == "ACRE sound world flag must be 0 or 1, got "@ + id,
{
}

/// A decision that cannot be read says which parameter is to blame.
pub proof fn law_decisions_say_why_they_are_refused(
    name: Seq<char>,
    expected: Seq<char>,
    actual: usize,
    index: usize,
)
    ensures
        SpeakingFault::UnexpectedProcedure(name).words()
            == "expected updateSpeakingData, received "@ + name,
        (SpeakingFault::WrongArity { expected, actual }).words() == "updateSpeakingData has "@
            + decimal(actual as nat) + " parameters; expected "@ + expected,
        (SpeakingFault::InvalidUnsigned { index }).words() == "updateSpeakingData parameter "@
            + decimal(index as nat) + " must be an unsigned integer"@,
        (SpeakingFault::InvalidBinaryFlag { index }).words() == "updateSpeakingData parameter "@
            + decimal(index as nat) + " must be exactly 0 or 1"@,
        (SpeakingFault::InvalidFloat { index }).words() == "updateSpeakingData parameter "@
            + decimal(index as nat) + " must be a finite float"@,
        SpeakingFault::InvalidCurveScale.words() == "ACRE speaker curve scale must be finite"@,
{
}

/// A peer that is refused is told what is missing, and a peer of another mission
/// first its own scope and then the local one.
pub proof fn law_peers_are_told_what_is_missing(
    volume: Seq<char>,
    received: Seq<char>,
    expected: Seq<char>,
)
    ensures
        DirectoryFault::HandshakeRequired.words(volume)
            == "peer must send HELLO before identity or transmission state"@,
        DirectoryFault::IdentityMismatch.words(volume)
            == "peer START netId does not match its announced identity"@,
        (DirectoryFault::ScopeMismatch { expected, received }).words(volume) == "peer scope "@
            + words::quoted_of(received) + " does not match local scope "@ + words::quoted_of(
            expected,
        ),
{
}

/// Push-to-talk and snapshots say why they refuse.
pub proof fn law_refused_modes_and_snapshots_say_why(limit: usize)
    ensures
        AcrePttError::RadioWithoutRadioId.words() == "a local radio PTT requires a radio ID"@,
        AcrePttError::DirectWithRadioId.words()
            == "direct Mumble speech must not carry a radio ID"@,
        AcreAudioSnapshotError::ZeroSpeakerCapacity.words()
            == "ACRE audio snapshot capacity must be non-zero"@,
        (AcreAudioSnapshotError::TooManySpeakers { limit }).words()
            == "ACRE audio snapshot supports at most "@ + decimal(limit as nat) + " speakers"@,
        AcreAudioSnapshotError::SequenceExhausted.words()
            == "ACRE audio snapshot sequence is exhausted"@,
        AcreAudioSnapshotError::GenerationExhausted.words()
            == "ACRE audio snapshot generation is exhausted"@,
{
}

/// A refusal is about a volume exactly if it refuses one.
pub proof fn law_refusals_of_a_volume_name_it(fault: SessionFault, bits: u32)
    ensures
        words::volume_of(fault) == Some(bits) <==> fault == SessionFault::Sound(
            SoundFault::InvalidVolume { volume: bits },
        ),
{
}

} // verus!
