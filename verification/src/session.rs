//! The voice-plugin side of ACRE's RPC: one message from the game in, the
//! replies and state changes out.

use crate::binary32::{self, is_finite, read_finite, ONE};
use crate::codec::{self, AcreCodecError, AcreMessage, MessageView};
use crate::decimal::{self, decimal_text, read_i32, read_u32, signed_text};
use crate::sound::{
    self, parse_load_sound, parse_play_loaded_sound, AcreLoadedSound, AcreSoundAssembler,
    AcreSoundError, AcreSoundPlayback, LoadedView, PendingView, PlaybackView, SoundFault,
};
use crate::speaking::{
    self, parse_update_speaking_data, AcreListenerPose, AcreListenerState, AcreSpeakerAudioUpdate,
    AcreSpeakerVector, AcreSpeakingDataError, AcreVoiceCurveModel, AudioUpdateView, SpeakingFault,
    SpeakingUpdate,
};
use crate::text::same_text;
use crate::transmission::{
    self, RemoteTransmission, SpeakingKind, Transmission, TransmissionView,
};
use crate::{model, text};
use std::collections::HashMap;
use vstd::prelude::*;
use vstd::utf8::encode_utf8;

verus! {

/// The ACRE2 release whose private protocol the session speaks.
pub const ACRE2_PLUGIN_VERSION: &'static str = "2.14.0.1064";

/// The longest metadata field.
pub const MAX_VOIP_METADATA_FIELD_BYTES: usize = 512;

/// What ACRE may ask about the Mumble connection. Every field fits into one
/// RPC parameter.
#[derive(Debug, PartialEq, Eq)]
pub struct VoipMetadata {
    server_name: String,
    server_uid: String,
    channel_name: String,
    channel_uid: String,
}

/// The model of the metadata.
#[verifier::ext_equal]
pub struct MetadataView {
    pub server_name: Seq<char>,
    pub server_uid: Seq<char>,
    pub channel_name: Seq<char>,
    pub channel_uid: Seq<char>,
}

/// What one message from the game asks the adapter to do.
#[derive(Debug, PartialEq)]
pub enum AcreAction {
    SendToArma(AcreMessage),
    LocalTransmissionStarted(Transmission),
    LocalTransmissionStopped(Transmission),
    ListenerUpdated(AcreListenerState),
    SpeakingUpdated(AcreSpeakerAudioUpdate),
    SoundLoaded(AcreLoadedSound),
    SoundPlaybackRequested(AcreSoundPlayback),
    SoundSystemOverrideChanged(bool),
    LocalMuteChanged(bool),
    UserMuteChanged { voice_client_id: u32, muted: bool },
    ResetRequested,
}

/// The model of an action.
#[verifier::ext_equal]
pub enum ActionView {
    SendToArma(MessageView),
    LocalTransmissionStarted(TransmissionView),
    LocalTransmissionStopped(TransmissionView),
    ListenerUpdated(AcreListenerState),
    SpeakingUpdated(AudioUpdateView),
    SoundLoaded(LoadedView),
    SoundPlaybackRequested(PlaybackView),
    SoundSystemOverrideChanged(bool),
    LocalMuteChanged(bool),
    UserMuteChanged { voice_client_id: u32, muted: bool },
    ResetRequested,
}

/// Why a message or a call was refused.
#[derive(Debug, PartialEq)]
pub enum AcreSessionError {
    Codec(AcreCodecError),
    Speaking(AcreSpeakingDataError),
    Sound(AcreSoundError),
    UnsupportedProcedure(String),
    WrongArity { procedure: String, expected: &'static str, actual: usize },
    LocalVoiceClientIdUnavailable,
    LocalNetIdUnavailable,
    EmptyRadioId,
    EmptySettingName,
    VoipMetadataUnavailable,
    EmptyVoipMetadataField(&'static str),
    VoipMetadataFieldTooLong { field: &'static str, length: usize, limit: usize },
    InvalidVoipMetadataField(&'static str),
    InvalidInteger { procedure: String, index: usize },
    InvalidFloat { procedure: String, index: usize },
    NonFiniteCurveScale,
    NonFiniteClock,
}

/// The model of a refusal.
#[verifier::ext_equal]
pub enum SessionFault {
    Codec(AcreCodecError),
    Speaking(SpeakingFault),
    Sound(SoundFault),
    UnsupportedProcedure(Seq<char>),
    WrongArity { procedure: Seq<char>, expected: Seq<char>, actual: usize },
    LocalVoiceClientIdUnavailable,
    LocalNetIdUnavailable,
    EmptyRadioId,
    EmptySettingName,
    VoipMetadataUnavailable,
    EmptyVoipMetadataField(Seq<char>),
    VoipMetadataFieldTooLong { field: Seq<char>, length: usize, limit: usize },
    InvalidVoipMetadataField(Seq<char>),
    InvalidInteger { procedure: Seq<char>, index: usize },
    InvalidFloat { procedure: Seq<char>, index: usize },
    NonFiniteCurveScale,
    NonFiniteClock,
}

/// The voice plugin's state towards one running game.
#[derive(Debug)]
pub struct AcreSession {
    plugin_version: String,
    local_voice_client_id: Option<u32>,
    voip_metadata: Option<VoipMetadata>,
    local_net_id: Option<String>,
    local_language_id: i32,
    local_listener_pose: Option<AcreListenerPose>,
    local_voice_curve_model: AcreVoiceCurveModel,
    local_curve_scale: u32,
    active_local_transmission: Option<Transmission>,
    remote_transmissions: HashMap<u32, RemoteTransmission>,
    sound_assembler: AcreSoundAssembler,
}

/// The model of a session.
#[verifier::ext_equal]
pub struct SessionView {
    pub plugin_version: Seq<char>,
    pub local_voice_client_id: Option<u32>,
    pub voip_metadata: Option<MetadataView>,
    pub local_net_id: Option<Seq<char>>,
    pub local_language_id: i32,
    pub local_listener_pose: Option<AcreListenerPose>,
    pub local_voice_curve_model: AcreVoiceCurveModel,
    pub local_curve_scale: u32,
    pub active_local_transmission: Option<TransmissionView>,
    pub remote_transmissions: Map<u32, TransmissionView>,
    pub sounds: Seq<PendingView>,
}

/// The actions of an answer, or the refusal.
pub type Answer = Result<Seq<ActionView>, SessionFault>;

impl View for VoipMetadata {
    type V = MetadataView;

    closed spec fn view(&self) -> MetadataView {
        MetadataView {
            server_name: self.server_name@,
            server_uid: self.server_uid@,
            channel_name: self.channel_name@,
            channel_uid: self.channel_uid@,
        }
    }
}

impl View for AcreAction {
    type V = ActionView;

    open spec fn view(&self) -> ActionView {
        match *self {
            AcreAction::SendToArma(message) => ActionView::SendToArma(message@),
            AcreAction::LocalTransmissionStarted(transmission) =>
                ActionView::LocalTransmissionStarted(transmission@),
            AcreAction::LocalTransmissionStopped(transmission) =>
                ActionView::LocalTransmissionStopped(transmission@),
            AcreAction::ListenerUpdated(state) => ActionView::ListenerUpdated(state),
            AcreAction::SpeakingUpdated(update) => ActionView::SpeakingUpdated(update@),
            AcreAction::SoundLoaded(loaded) => ActionView::SoundLoaded(loaded@),
            AcreAction::SoundPlaybackRequested(playback) => ActionView::SoundPlaybackRequested(
                playback@,
            ),
            AcreAction::SoundSystemOverrideChanged(enabled) =>
                ActionView::SoundSystemOverrideChanged(enabled),
            AcreAction::LocalMuteChanged(muted) => ActionView::LocalMuteChanged(muted),
            AcreAction::UserMuteChanged { voice_client_id, muted } => ActionView::UserMuteChanged {
                voice_client_id,
                muted,
            },
            AcreAction::ResetRequested => ActionView::ResetRequested,
        }
    }
}

impl View for AcreSessionError {
    type V = SessionFault;

    open spec fn view(&self) -> SessionFault {
        match *self {
            AcreSessionError::Codec(error) => SessionFault::Codec(error),
            AcreSessionError::Speaking(error) => SessionFault::Speaking(error@),
            AcreSessionError::Sound(error) => SessionFault::Sound(error@),
            AcreSessionError::UnsupportedProcedure(procedure) =>
                SessionFault::UnsupportedProcedure(procedure@),
            AcreSessionError::WrongArity { procedure, expected, actual } =>
                SessionFault::WrongArity { procedure: procedure@, expected: expected@, actual },
            AcreSessionError::LocalVoiceClientIdUnavailable =>
                SessionFault::LocalVoiceClientIdUnavailable,
            AcreSessionError::LocalNetIdUnavailable => SessionFault::LocalNetIdUnavailable,
            AcreSessionError::EmptyRadioId => SessionFault::EmptyRadioId,
            AcreSessionError::EmptySettingName => SessionFault::EmptySettingName,
            AcreSessionError::VoipMetadataUnavailable => SessionFault::VoipMetadataUnavailable,
            AcreSessionError::EmptyVoipMetadataField(field) =>
                SessionFault::EmptyVoipMetadataField(field@),
            AcreSessionError::VoipMetadataFieldTooLong { field, length, limit } =>
                SessionFault::VoipMetadataFieldTooLong { field: field@, length, limit },
            AcreSessionError::InvalidVoipMetadataField(field) =>
                SessionFault::InvalidVoipMetadataField(field@),
            AcreSessionError::InvalidInteger { procedure, index } => SessionFault::InvalidInteger {
                procedure: procedure@,
                index,
            },
            AcreSessionError::InvalidFloat { procedure, index } => SessionFault::InvalidFloat {
                procedure: procedure@,
                index,
            },
            AcreSessionError::NonFiniteCurveScale => SessionFault::NonFiniteCurveScale,
            AcreSessionError::NonFiniteClock => SessionFault::NonFiniteClock,
        }
    }
}

/// The models of the transmissions in a table.
pub open spec fn transmission_views(table: Map<u32, Transmission>) -> Map<u32, TransmissionView> {
    table.map_values(|transmission: Transmission| transmission@)
}

impl View for AcreSession {
    type V = SessionView;

    closed spec fn view(&self) -> SessionView {
        SessionView {
            plugin_version: self.plugin_version@,
            local_voice_client_id: self.local_voice_client_id,
            voip_metadata: model::optional(self.voip_metadata),
            local_net_id: model::optional(self.local_net_id),
            local_language_id: self.local_language_id,
            local_listener_pose: self.local_listener_pose,
            local_voice_curve_model: self.local_voice_curve_model,
            local_curve_scale: self.local_curve_scale,
            active_local_transmission: model::optional(self.active_local_transmission),
            remote_transmissions: transmission_views(self.remote_transmissions@),
            sounds: self.sound_assembler@,
        }
    }
}

/// What is wrong with a metadata field.
pub open spec fn metadata_fault(field: Seq<char>, value: Seq<char>) -> Option<SessionFault> {
    let bytes = encode_utf8(value);
    if value.len() == 0 {
        Some(SessionFault::EmptyVoipMetadataField(field))
    } else if bytes.len() > MAX_VOIP_METADATA_FIELD_BYTES {
        Some(
            SessionFault::VoipMetadataFieldTooLong {
                field,
                length: bytes.len() as usize,
                limit: MAX_VOIP_METADATA_FIELD_BYTES,
            },
        )
    } else if exists|i: int|
        0 <= i < bytes.len() && !codec::is_parameter_byte(#[trigger] bytes[i]) {
        Some(SessionFault::InvalidVoipMetadataField(field))
    } else {
        None
    }
}

/// The metadata made of four fields, or what is wrong with the first unfit
/// one.
pub open spec fn checked_metadata(metadata: MetadataView) -> Result<MetadataView, SessionFault> {
    match (
        metadata_fault("server_name"@, metadata.server_name),
        metadata_fault("server_uid"@, metadata.server_uid),
        metadata_fault("channel_name"@, metadata.channel_name),
        metadata_fault("channel_uid"@, metadata.channel_uid),
    ) {
        (None, None, None, None) => Ok(metadata),
        (Some(fault), _, _, _) => Err(fault),
        (_, Some(fault), _, _) => Err(fault),
        (_, _, Some(fault), _) => Err(fault),
        (_, _, _, Some(fault)) => Err(fault),
    }
}

fn validate_voip_metadata_field(field: &'static str, value: &String) -> (verdict: Result<
    (),
    AcreSessionError,
>)
    ensures
        model::outcome(verdict) == match metadata_fault(field@, value@) {
            Some(fault) => Err::<(), SessionFault>(fault),
            None => Ok(()),
        },
{
    if value.as_str().is_empty() {
        return Err(AcreSessionError::EmptyVoipMetadataField(field));
    }
    let bytes: &[u8] = value.as_str().as_bytes();
    if bytes.len() > MAX_VOIP_METADATA_FIELD_BYTES {
        return Err(
            AcreSessionError::VoipMetadataFieldTooLong {
                field,
                length: bytes.len(),
                limit: MAX_VOIP_METADATA_FIELD_BYTES,
            },
        );
    }
    let mut i: usize = 0;
    while i < bytes.len()
        invariant
            i <= bytes@.len() <= MAX_VOIP_METADATA_FIELD_BYTES,
            bytes@ == encode_utf8(value@),
            value@.len() > 0,
            forall|k: int| 0 <= k < i ==> codec::is_parameter_byte(#[trigger] bytes@[k]),
        decreases bytes@.len() - i,
    {
        let byte: u8 = bytes[i];
        if !(32 <= byte && byte <= 126 && byte != 44) {
            assert(!codec::is_parameter_byte(encode_utf8(value@)[i as int]));
            return Err(AcreSessionError::InvalidVoipMetadataField(field));
        }
        i += 1;
    }
    Ok(())
}

impl VoipMetadata {
    /// Builds metadata of which every field fits into one RPC parameter.
    pub fn new(
        server_name: &str,
        server_uid: &str,
        channel_name: &str,
        channel_uid: &str,
    ) -> (metadata: Result<Self, AcreSessionError>)
        ensures
            model::outcome(metadata) == checked_metadata(
                MetadataView {
                    server_name: server_name@,
                    server_uid: server_uid@,
                    channel_name: channel_name@,
                    channel_uid: channel_uid@,
                },
            ),
    {
        let metadata = VoipMetadata {
            server_name: server_name.to_owned(),
            server_uid: server_uid.to_owned(),
            channel_name: channel_name.to_owned(),
            channel_uid: channel_uid.to_owned(),
        };
        validate_voip_metadata_field("server_name", &metadata.server_name)?;
        validate_voip_metadata_field("server_uid", &metadata.server_uid)?;
        validate_voip_metadata_field("channel_name", &metadata.channel_name)?;
        validate_voip_metadata_field("channel_uid", &metadata.channel_uid)?;
        Ok(metadata)
    }

    pub fn server_name(&self) -> (name: &str)
        ensures
            name@ == self@.server_name,
    {
        self.server_name.as_str()
    }

    pub fn server_uid(&self) -> (uid: &str)
        ensures
            uid@ == self@.server_uid,
    {
        self.server_uid.as_str()
    }

    pub fn channel_name(&self) -> (name: &str)
        ensures
            name@ == self@.channel_name,
    {
        self.channel_name.as_str()
    }

    pub fn channel_uid(&self) -> (uid: &str)
        ensures
            uid@ == self@.channel_uid,
    {
        self.channel_uid.as_str()
    }
}

impl Clone for VoipMetadata {
    fn clone(&self) -> (copy: Self)
        ensures
            copy@ == self@,
    {
        VoipMetadata {
            server_name: self.server_name.clone(),
            server_uid: self.server_uid.clone(),
            channel_name: self.channel_name.clone(),
            channel_uid: self.channel_uid.clone(),
        }
    }
}

/// The transmission made of its parts, unless its curve scale is not finite.
pub open spec fn new_transmission(transmission: TransmissionView) -> Result<
    TransmissionView,
    SessionFault,
> {
    if binary32::finite(transmission.curve_scale) {
        Ok(transmission)
    } else {
        Err(SessionFault::NonFiniteCurveScale)
    }
}

impl Transmission {
    /// Creates the metadata of a transmission.
    pub fn new(
        voice_client_id: u32,
        language_id: i32,
        net_id: &str,
        speaking_kind: SpeakingKind,
        radio_id: &str,
        curve_scale: u32,
    ) -> (transmission: Result<Self, AcreSessionError>)
        ensures
            model::outcome(transmission) == new_transmission(
                TransmissionView {
                    voice_client_id,
                    language_id,
                    net_id: net_id@,
                    speaking_kind,
                    radio_id: radio_id@,
                    curve_scale,
                },
            ),
    {
        match Transmission::build(
            voice_client_id,
            language_id,
            net_id,
            speaking_kind,
            radio_id,
            curve_scale,
        ) {
            Some(transmission) => Ok(transmission),
            None => Err(AcreSessionError::NonFiniteCurveScale),
        }
    }
}

/// The refusal of a message with another number of parameters.
pub open spec fn arity_fault(message: MessageView, expected: int) -> SessionFault {
    SessionFault::WrongArity {
        procedure: message.procedure,
        expected: if expected == 0 {
            "zero"@
        } else if expected == 1 {
            "one"@
        } else {
            "the expected number of"@
        },
        actual: message.parameters.len() as usize,
    }
}

/// The answer that sends one message, if it can be built.
pub open spec fn sent(built: Result<MessageView, AcreCodecError>) -> Answer {
    match built {
        Ok(message) => Ok(seq![ActionView::SendToArma(message)]),
        Err(error) => Err(SessionFault::Codec(error)),
    }
}

/// The finite number read from parameter `index`.
pub open spec fn number_at(
    message: MessageView,
    readings: Seq<Option<u32>>,
    index: int,
) -> Result<u32, SessionFault> {
    match binary32::finite_reading(readings, index) {
        Some(bits) => Ok(bits),
        None => Err(
            SessionFault::InvalidFloat { procedure: message.procedure, index: index as usize },
        ),
    }
}

/// The signed integer read from parameter `index`.
pub open spec fn integer_at(message: MessageView, index: int) -> Result<i32, SessionFault> {
    match decimal::signed_value(message.parameters[index]) {
        Some(value) => Ok(value as i32),
        None => Err(
            SessionFault::InvalidInteger { procedure: message.procedure, index: index as usize },
        ),
    }
}

/// The vector read from three parameters.
pub open spec fn vector_at(
    message: MessageView,
    readings: Seq<Option<u32>>,
    start: int,
) -> Result<AcreSpeakerVector, SessionFault> {
    match (
        number_at(message, readings, start),
        number_at(message, readings, start + 1),
        number_at(message, readings, start + 2),
    ) {
        (Ok(x), Ok(z), Ok(y)) => Ok(AcreSpeakerVector { x, z, y }),
        (Err(fault), _, _) => Err(fault),
        (_, Err(fault), _) => Err(fault),
        (_, _, Err(fault)) => Err(fault),
    }
}

/// A list of texts as parameters with a comma behind the last one.
pub open spec fn with_comma(procedure: Seq<char>, parameters: Seq<Seq<char>>) -> Result<
    MessageView,
    AcreCodecError,
> {
    codec::built(procedure, parameters, true)
}

pub open spec fn kind_text(kind: SpeakingKind) -> Seq<char> {
    decimal::decimal(transmission::kind_number(kind) as nat)
}

/// The message that tells the game that its own transmission began.
pub open spec fn local_start(t: TransmissionView) -> Result<MessageView, AcreCodecError> {
    with_comma(
        "localStartSpeaking"@,
        seq![
            decimal::decimal(t.voice_client_id as nat),
            decimal::signed_decimal(t.language_id as int),
            kind_text(t.speaking_kind),
            t.radio_id,
        ],
    )
}

/// The message that tells the game that its own transmission ended.
pub open spec fn local_stop(t: TransmissionView) -> Result<MessageView, AcreCodecError> {
    with_comma(
        "localStopSpeaking"@,
        seq![
            decimal::decimal(t.voice_client_id as nat),
            kind_text(t.speaking_kind),
            t.radio_id,
        ],
    )
}

/// The message that tells the game that another player began to transmit.
pub open spec fn remote_start(t: TransmissionView) -> Result<MessageView, AcreCodecError> {
    with_comma(
        "remoteStartSpeaking"@,
        seq![
            decimal::decimal(t.voice_client_id as nat),
            decimal::signed_decimal(t.language_id as int),
            t.net_id,
            kind_text(t.speaking_kind),
            t.radio_id,
        ],
    )
}

/// The message that tells the game that another player ceased to transmit.
pub open spec fn remote_stop(t: TransmissionView) -> Result<MessageView, AcreCodecError> {
    with_comma(
        "remoteStopSpeaking"@,
        seq![
            decimal::decimal(t.voice_client_id as nat),
            t.net_id,
            kind_text(t.speaking_kind),
            t.radio_id,
        ],
    )
}

/// What ending the local transmission entails.
pub open spec fn stop_actions_of(t: TransmissionView) -> Answer {
    match local_stop(t) {
        Ok(message) => Ok(
            seq![ActionView::SendToArma(message), ActionView::LocalTransmissionStopped(t)],
        ),
        Err(error) => Err(SessionFault::Codec(error)),
    }
}

/// A session's answer to a message, with the session afterwards.
pub type Step = (SessionView, Answer);

/// The session without what cannot survive a broken pipe, a reconnection or a
/// change of identity.
pub open spec fn after_reset(s: SessionView) -> SessionView {
    SessionView {
        local_language_id: 0,
        local_curve_scale: ONE,
        local_net_id: None,
        local_listener_pose: None,
        local_voice_curve_model: AcreVoiceCurveModel::Original,
        active_local_transmission: None,
        remote_transmissions: Map::empty(),
        sounds: Seq::empty(),
        ..s
    }
}

/// `getClientID`: the game names its player, with or without the player's UID,
/// and learns the voice client's ID.
pub open spec fn client_id_step(s: SessionView, m: MessageView) -> Step {
    if m.parameters.len() != 1 && m.parameters.len() != 2 {
        (s, Err(arity_fault(m, 1)))
    } else {
        match s.local_voice_client_id {
            None => (s, Err(SessionFault::LocalVoiceClientIdUnavailable)),
            Some(id) => (
                SessionView { local_net_id: Some(m.parameters[0]), ..s },
                sent(
                    with_comma(
                        "handleGetClientID"@,
                        seq![decimal::decimal(id as nat), m.parameters[0]],
                    ),
                ),
            ),
        }
    }
}

/// `updateSelf`: where the listener stands and which language they speak.
pub open spec fn update_self_step(s: SessionView, m: MessageView, r: Seq<Option<u32>>) -> Step {
    if m.parameters.len() != 7 {
        (s, Err(arity_fault(m, 7)))
    } else {
        match (vector_at(m, r, 0), vector_at(m, r, 3), integer_at(m, 6)) {
            (Ok(position), Ok(head_vector), Ok(language_id)) => {
                let pose = AcreListenerPose { position, head_vector };
                (
                    SessionView {
                        local_language_id: language_id,
                        local_listener_pose: Some(pose),
                        ..s
                    },
                    Ok(
                        seq![
                            ActionView::ListenerUpdated(
                                AcreListenerState {
                                    pose,
                                    curve_model: s.local_voice_curve_model,
                                },
                            ),
                        ],
                    ),
                )
            },
            (Err(fault), _, _) => (s, Err(fault)),
            (_, Err(fault), _) => (s, Err(fault)),
            (_, _, Err(fault)) => (s, Err(fault)),
        }
    }
}

/// `setSelectableVoiceCurve`: the curve scale of later local transmissions.
pub open spec fn curve_scale_step(s: SessionView, m: MessageView, r: Seq<Option<u32>>) -> Step {
    if m.parameters.len() != 1 {
        (s, Err(arity_fault(m, 1)))
    } else {
        match number_at(m, r, 0) {
            Ok(scale) => (SessionView { local_curve_scale: scale, ..s }, Ok(Seq::empty())),
            Err(fault) => (s, Err(fault)),
        }
    }
}

/// `setVoiceCurveModel`: the listener's curve, published with a known pose.
pub open spec fn curve_model_step(s: SessionView, m: MessageView, r: Seq<Option<u32>>) -> Step {
    if m.parameters.len() != 2 {
        (s, Err(arity_fault(m, 2)))
    } else {
        match integer_at(m, 0) {
            Err(fault) => (s, Err(fault)),
            Ok(number) => match speaking::curve_model_numbered(number as int) {
                None => (
                    s,
                    Err(
                        SessionFault::Speaking(
                            SpeakingFault::InvalidVoiceCurveModel { model: number },
                        ),
                    ),
                ),
                Some(curve_model) => match number_at(m, r, 1) {
                    Err(fault) => (s, Err(fault)),
                    Ok(_) => (
                        SessionView { local_voice_curve_model: curve_model, ..s },
                        Ok(
                            match s.local_listener_pose {
                                Some(pose) => seq![
                                    ActionView::ListenerUpdated(
                                        AcreListenerState { pose, curve_model },
                                    ),
                                ],
                                None => Seq::empty(),
                            },
                        ),
                    ),
                },
            },
        }
    }
}

/// `setSetting`: checked, without effect.
pub open spec fn setting_answer(m: MessageView, r: Seq<Option<u32>>) -> Answer {
    if m.parameters.len() != 2 {
        Err(arity_fault(m, 2))
    } else if m.parameters[0].len() == 0 {
        Err(SessionFault::EmptySettingName)
    } else {
        match number_at(m, r, 1) {
            Ok(_) => Ok(Seq::empty()),
            Err(fault) => Err(fault),
        }
    }
}

/// `updateSpeakingData`: ACRE's decision about one speaker, with the curve
/// scale that the speaker announced.
pub open spec fn speaking_answer(s: SessionView, m: MessageView, r: Seq<Option<u32>>) -> Answer {
    match speaking::carried_update(m, r) {
        Err(fault) => Err(SessionFault::Speaking(fault)),
        Ok(update) => {
            let curve_scale = if s.remote_transmissions.contains_key(update.speaker_id) {
                s.remote_transmissions[update.speaker_id].curve_scale
            } else {
                ONE
            };
            if binary32::finite(curve_scale) {
                Ok(
                    seq![
                        ActionView::SpeakingUpdated(
                            AudioUpdateView { speaking: update, curve_scale },
                        ),
                    ],
                )
            } else {
                Err(SessionFault::Speaking(SpeakingFault::InvalidCurveScale))
            }
        },
    }
}

/// `loadSound`: one chunk of a sound.
pub open spec fn load_sound_step(s: SessionView, m: MessageView, now: u64) -> Step {
    match sound::carried_chunk(m) {
        Err(fault) => (s, Err(SessionFault::Sound(fault))),
        Ok(chunk) => {
            let (sounds, answer) = sound::accepted(s.sounds, chunk, now);
            (
                SessionView { sounds, ..s },
                match answer {
                    Err(fault) => Err(SessionFault::Sound(fault)),
                    Ok(None) => Ok(Seq::empty()),
                    Ok(Some(loaded)) => Ok(seq![ActionView::SoundLoaded(loaded)]),
                },
            )
        },
    }
}

/// `playLoadedSound`: a request to play a loaded sound.
pub open spec fn play_sound_answer(m: MessageView, r: Seq<Option<u32>>) -> Answer {
    match sound::carried_playback(m, r) {
        Err(fault) => Err(SessionFault::Sound(fault)),
        Ok(playback) => Ok(seq![ActionView::SoundPlaybackRequested(playback)]),
    }
}

/// A query about the Mumble connection, answered with one metadata field.
pub open spec fn metadata_answer(
    s: SessionView,
    m: MessageView,
    reply: Seq<char>,
    field: MetadataField,
) -> Answer {
    if m.parameters.len() != 0 {
        Err(arity_fault(m, 0))
    } else {
        match s.voip_metadata {
            None => Err(SessionFault::VoipMetadataUnavailable),
            Some(metadata) => sent(
                codec::built(
                    reply,
                    seq![
                        match field {
                            MetadataField::ServerName => metadata.server_name,
                            MetadataField::ServerUid => metadata.server_uid,
                            MetadataField::ChannelName => metadata.channel_name,
                            MetadataField::ChannelUid => metadata.channel_uid,
                        },
                    ],
                    false,
                ),
            ),
        }
    }
}

/// The fields that the game may ask for.
#[derive(Clone, Copy)]
pub enum MetadataField {
    ServerName,
    ServerUid,
    ChannelName,
    ChannelUid,
}

/// The radio that a start message names: one for radio, none for the other
/// modes.
pub open spec fn named_radio(m: MessageView, kind: SpeakingKind) -> Result<
    Seq<char>,
    SessionFault,
> {
    if kind == SpeakingKind::Radio {
        if m.parameters.len() != 1 {
            Err(arity_fault(m, 1))
        } else if m.parameters[0].len() == 0 {
            Err(SessionFault::EmptyRadioId)
        } else {
            Ok(m.parameters[0])
        }
    } else if m.parameters.len() != 0 {
        Err(arity_fault(m, 0))
    } else {
        Ok(Seq::empty())
    }
}

/// The local transmission in the given mode over the given radio.
pub open spec fn local_transmission(
    s: SessionView,
    kind: SpeakingKind,
    radio_id: Seq<char>,
) -> Result<TransmissionView, SessionFault> {
    match (s.local_voice_client_id, s.local_net_id) {
        (None, _) => Err(SessionFault::LocalVoiceClientIdUnavailable),
        (_, None) => Err(SessionFault::LocalNetIdUnavailable),
        (Some(voice_client_id), Some(net_id)) => if net_id.len() == 0 {
            Err(SessionFault::LocalNetIdUnavailable)
        } else {
            new_transmission(
                TransmissionView {
                    voice_client_id,
                    language_id: s.local_language_id,
                    net_id,
                    speaking_kind: kind,
                    radio_id,
                    curve_scale: s.local_curve_scale,
                },
            )
        },
    }
}

/// A start of a local transmission: the one before it ends first; the same one
/// again changes nothing.
pub open spec fn start_step(s: SessionView, m: MessageView, kind: SpeakingKind) -> Step {
    match named_radio(m, kind) {
        Err(fault) => (s, Err(fault)),
        Ok(radio_id) => match local_transmission(s, kind, radio_id) {
            Err(fault) => (s, Err(fault)),
            Ok(next) => begin_step(s, next),
        },
    }
}

/// What beginning `next` entails in a session.
pub open spec fn begin_step(s: SessionView, next: TransmissionView) -> Step {
    let stopped = match s.active_local_transmission {
        Some(previous) => stop_actions_of(previous),
        None => Ok(Seq::empty()),
    };
    let active = SessionView { active_local_transmission: Some(next), ..s };
    if s.active_local_transmission is Some && transmission::same_transmission(
        s.active_local_transmission->0,
        next,
    ) {
        (s, Ok(Seq::empty()))
    } else {
        match stopped {
            Err(fault) => (SessionView { active_local_transmission: None, ..s }, Err(fault)),
            Ok(actions) => match local_start(next) {
                Err(error) => (active, Err(SessionFault::Codec(error))),
                Ok(message) => (
                    active,
                    Ok(
                        actions.push(ActionView::SendToArma(message)).push(
                            ActionView::LocalTransmissionStarted(next),
                        ),
                    ),
                ),
            },
        }
    }
}

/// A stop of the local transmission; one of another mode changes nothing.
pub open spec fn stop_step(s: SessionView, m: MessageView, kind: SpeakingKind) -> Step {
    if m.parameters.len() != 0 {
        (s, Err(arity_fault(m, 0)))
    } else {
        match s.active_local_transmission {
            None => (s, Ok(Seq::empty())),
            Some(active) => if active.speaking_kind != kind {
                (s, Ok(Seq::empty()))
            } else {
                (SessionView { active_local_transmission: None, ..s }, stop_actions_of(active))
            },
        }
    }
}

/// A switch: one parameter, off at zero.
pub open spec fn switch_answer(m: MessageView, sound_system: bool) -> Answer {
    if m.parameters.len() != 1 {
        Err(arity_fault(m, 1))
    } else {
        match integer_at(m, 0) {
            Err(fault) => Err(fault),
            Ok(value) => Ok(
                seq![
                    if sound_system {
                        ActionView::SoundSystemOverrideChanged(value != 0)
                    } else {
                        ActionView::LocalMuteChanged(value != 0)
                    },
                ],
            ),
        }
    }
}

/// `setMuted`: a speaker's ID and whether to mute them.
pub open spec fn user_mute_answer(m: MessageView) -> Answer {
    if m.parameters.len() != 2 {
        Err(arity_fault(m, 2))
    } else {
        match decimal::unsigned_value(m.parameters[0], u32::MAX as nat) {
            None => Err(SessionFault::InvalidInteger { procedure: m.procedure, index: 0 }),
            Some(id) => match integer_at(m, 1) {
                Err(fault) => Err(fault),
                Ok(value) => Ok(
                    seq![
                        ActionView::UserMuteChanged {
                            voice_client_id: id as u32,
                            muted: value != 0,
                        },
                    ],
                ),
            },
        }
    }
}

/// `ext_reset`: forgets the game's state.
pub open spec fn reset_step(s: SessionView, m: MessageView) -> Step {
    if m.parameters.len() > 1 {
        (
            s,
            Err(
                SessionFault::WrongArity {
                    procedure: m.procedure,
                    expected: "zero or one"@,
                    actual: m.parameters.len() as usize,
                },
            ),
        )
    } else {
        (after_reset(s), Ok(seq![ActionView::ResetRequested]))
    }
}

/// A message without parameters that is answered with one message.
pub open spec fn reply_answer(m: MessageView, built: Result<MessageView, AcreCodecError>) -> Answer {
    if m.parameters.len() != 0 {
        Err(arity_fault(m, 0))
    } else {
        sent(built)
    }
}

/// The session's answer to a message of the game, and the session afterwards.
/// `clock` is the process clock in seconds as text, or nothing if it was not
/// finite; `r` is what reading the parameters as single-precision numbers gave.
pub open spec fn handled(
    s: SessionView,
    m: MessageView,
    r: Seq<Option<u32>>,
    clock: Option<Seq<char>>,
    now: u64,
) -> Step {
    let p = m.procedure;
    if clock is None {
        (s, Err(SessionFault::NonFiniteClock))
    } else if p == "ping"@ {
        (s, reply_answer(m, with_comma("pong"@, seq![clock->0])))
    } else if p == "getPluginVersion"@ {
        (
            s,
            reply_answer(
                m,
                codec::built("handleGetPluginVersion"@, seq![s.plugin_version], false),
            ),
        )
    } else if p == "getClientID"@ {
        client_id_step(s, m)
    } else if p == "updateSelf"@ {
        update_self_step(s, m, r)
    } else if p == "setSelectableVoiceCurve"@ {
        curve_scale_step(s, m, r)
    } else if p == "setVoiceCurveModel"@ {
        curve_model_step(s, m, r)
    } else if p == "setSetting"@ {
        (s, setting_answer(m, r))
    } else if p == "setTs3ChannelDetails"@ {
        (
            s,
            if m.parameters.len() != 3 {
                Err(arity_fault(m, 3))
            } else {
                Ok(Seq::empty())
            },
        )
    } else if p == "loadSound"@ {
        load_sound_step(s, m, now)
    } else if p == "playLoadedSound"@ {
        (s, play_sound_answer(m, r))
    } else if p == "getVOIPServerName"@ {
        (s, metadata_answer(s, m, "handleGetVOIPServerName"@, MetadataField::ServerName))
    } else if p == "getVOIPServerUID"@ {
        (s, metadata_answer(s, m, "handleGetVOIPServerUID"@, MetadataField::ServerUid))
    } else if p == "getVOIPChannelName"@ {
        (s, metadata_answer(s, m, "handleGetVOIPChannelName"@, MetadataField::ChannelName))
    } else if p == "getVOIPChannelUID"@ {
        (s, metadata_answer(s, m, "handleGetVOIPChannelUID"@, MetadataField::ChannelUid))
    } else if p == "updateSpeakingData"@ {
        (s, speaking_answer(s, m, r))
    } else if p == "startRadioSpeaking"@ {
        start_step(s, m, SpeakingKind::Radio)
    } else if p == "stopRadioSpeaking"@ {
        stop_step(s, m, SpeakingKind::Radio)
    } else if p == "startIntercomSpeaking"@ {
        start_step(s, m, SpeakingKind::Intercom)
    } else if p == "stopIntercomSpeaking"@ {
        stop_step(s, m, SpeakingKind::Intercom)
    } else if p == "startGodModeSpeaking"@ {
        start_step(s, m, SpeakingKind::God)
    } else if p == "stopGodModeSpeaking"@ {
        stop_step(s, m, SpeakingKind::God)
    } else if p == "startZeusSpeaking"@ {
        start_step(s, m, SpeakingKind::Zeus)
    } else if p == "stopZeusSpeaking"@ {
        stop_step(s, m, SpeakingKind::Zeus)
    } else if p == "setSoundSystemMasterOverride"@ {
        (s, switch_answer(m, true))
    } else if p == "localMute"@ {
        (s, switch_answer(m, false))
    } else if p == "setMuted"@ {
        (s, user_mute_answer(m))
    } else if p == "setPTTKeys"@ {
        (s, Ok(Seq::empty()))
    } else if p == "ext_reset"@ {
        reset_step(s, m)
    } else {
        (s, Err(SessionFault::UnsupportedProcedure(p)))
    }
}

/// The announcement of a remote transmission: the one before it ends first;
/// the same one again changes nothing.
pub open spec fn remote_started_step(s: SessionView, next: TransmissionView) -> Step {
    let id = next.voice_client_id;
    let known = s.remote_transmissions.contains_key(id);
    let previous = s.remote_transmissions[id];
    if known && transmission::same_transmission(previous, next) {
        (s, Ok(Seq::empty()))
    } else if known && remote_stop(previous) is Err {
        (s, Err(SessionFault::Codec(remote_stop(previous)->Err_0)))
    } else {
        match remote_start(next) {
            Err(error) => (s, Err(SessionFault::Codec(error))),
            Ok(start) => (
                SessionView {
                    remote_transmissions: s.remote_transmissions.insert(id, next),
                    ..s
                },
                Ok(
                    if known {
                        seq![
                            ActionView::SendToArma(remote_stop(previous)->Ok_0),
                            ActionView::SendToArma(start),
                        ]
                    } else {
                        seq![ActionView::SendToArma(start)]
                    },
                ),
            ),
        }
    }
}

/// The end of a remote transmission; an unknown one changes nothing.
pub open spec fn remote_stopped_step(s: SessionView, id: u32) -> Step {
    if s.remote_transmissions.contains_key(id) {
        (
            SessionView { remote_transmissions: s.remote_transmissions.remove(id), ..s },
            sent(remote_stop(s.remote_transmissions[id])),
        )
    } else {
        (s, Ok(Seq::empty()))
    }
}

fn expect_arity(message: &AcreMessage, expected: usize) -> (verdict: Result<(), AcreSessionError>)
    ensures
        model::outcome(verdict) == if message@.parameters.len() == expected {
            Ok(())
        } else {
            Err(arity_fault(message@, expected as int))
        },
{
    let parameters: &[String] = message.parameters();
    assert(parameters@.len() == message@.parameters.len());
    if parameters.len() == expected {
        return Ok(());
    }
    Err(
        AcreSessionError::WrongArity {
            procedure: message.procedure().to_owned(),
            expected: if expected == 0 {
                "zero"
            } else if expected == 1 {
                "one"
            } else {
                "the expected number of"
            },
            actual: parameters.len(),
        },
    )
}

/// The text of parameter `index`.
fn parameter(message: &AcreMessage, index: usize) -> (value: &String)
    requires
        index < message@.parameters.len(),
    ensures
        value@ == message@.parameters[index as int],
{
    let parameters: &[String] = message.parameters();
    assert(parameters@.len() == message@.parameters.len());
    assert(parameters@[index as int]@ == message@.parameters[index as int]);
    &parameters[index]
}

fn parse_i32(message: &AcreMessage, index: usize) -> (number: Result<i32, AcreSessionError>)
    requires
        index < message@.parameters.len(),
    ensures
        model::outcome(number) == integer_at(message@, index as int),
{
    match read_i32(parameter(message, index).as_str()) {
        Some(value) => Ok(value),
        None => Err(
            AcreSessionError::InvalidInteger { procedure: message.procedure().to_owned(), index },
        ),
    }
}

fn parse_finite_float(message: &AcreMessage, readings: &[Option<u32>], index: usize) -> (number:
    Result<u32, AcreSessionError>)
    ensures
        model::outcome(number) == number_at(message@, readings@, index as int),
{
    match read_finite(readings, index) {
        Some(bits) => Ok(bits),
        None => Err(
            AcreSessionError::InvalidFloat { procedure: message.procedure().to_owned(), index },
        ),
    }
}

fn parse_vector(message: &AcreMessage, readings: &[Option<u32>], start: usize) -> (vector: Result<
    AcreSpeakerVector,
    AcreSessionError,
>)
    requires
        start + 2 <= usize::MAX,
    ensures
        match vector {
            Ok(value) => vector_at(message@, readings@, start as int) == Ok::<
                AcreSpeakerVector,
                SessionFault,
            >(value),
            Err(error) => vector_at(message@, readings@, start as int) == Err::<
                AcreSpeakerVector,
                SessionFault,
            >(error@),
        },
{
    let x: u32 = parse_finite_float(message, readings, start)?;
    let z: u32 = parse_finite_float(message, readings, start + 1)?;
    let y: u32 = parse_finite_float(message, readings, start + 2)?;
    Ok(AcreSpeakerVector { x, z, y })
}

/// The model of a message that was built for sending.
pub open spec fn built_view(built: Result<MessageView, AcreCodecError>) -> Result<
    MessageView,
    SessionFault,
> {
    match built {
        Ok(message) => Ok(message),
        Err(error) => Err(SessionFault::Codec(error)),
    }
}

fn message_with_comma(procedure: &str, parameters: Vec<String>) -> (message: Result<
    AcreMessage,
    AcreSessionError,
>)
    ensures
        model::outcome(message) == built_view(
            with_comma(procedure@, text::texts(parameters@)),
        ),
{
    match AcreMessage::with_trailing_comma(procedure, parameters, true) {
        Ok(message) => Ok(message),
        Err(error) => Err(AcreSessionError::Codec(error)),
    }
}

fn plain_message(procedure: &str, parameters: Vec<String>) -> (message: Result<
    AcreMessage,
    AcreSessionError,
>)
    ensures
        model::outcome(message) == built_view(
            codec::built(procedure@, text::texts(parameters@), false),
        ),
{
    match AcreMessage::new(procedure, parameters) {
        Ok(message) => Ok(message),
        Err(error) => Err(AcreSessionError::Codec(error)),
    }
}

fn kind_digits(kind: SpeakingKind) -> (digits: String)
    ensures
        digits@ == kind_text(kind),
{
    decimal_text(kind.wire_value() as u64)
}

fn local_start_message(transmission: &Transmission) -> (message: Result<
    AcreMessage,
    AcreSessionError,
>)
    ensures
        model::outcome(message) == built_view(local_start(transmission@)),
{
    let parameters: Vec<String> =
        vec![
            decimal_text(transmission.voice_client_id() as u64),
            signed_text(transmission.language_id()),
            kind_digits(transmission.speaking_kind()),
            transmission.radio_id().to_owned(),
        ];
    proof {
        let t = transmission@;
        assert(text::texts(parameters@) =~= seq![
            decimal::decimal(t.voice_client_id as nat),
            decimal::signed_decimal(t.language_id as int),
            kind_text(t.speaking_kind),
            t.radio_id,
        ]);
    }
    message_with_comma("localStartSpeaking", parameters)
}

fn local_stop_message(transmission: &Transmission) -> (message: Result<
    AcreMessage,
    AcreSessionError,
>)
    ensures
        model::outcome(message) == built_view(local_stop(transmission@)),
{
    let parameters: Vec<String> =
        vec![
            decimal_text(transmission.voice_client_id() as u64),
            kind_digits(transmission.speaking_kind()),
            transmission.radio_id().to_owned(),
        ];
    proof {
        let t = transmission@;
        assert(text::texts(parameters@) =~= seq![
            decimal::decimal(t.voice_client_id as nat),
            kind_text(t.speaking_kind),
            t.radio_id,
        ]);
    }
    message_with_comma("localStopSpeaking", parameters)
}

fn remote_start_message(transmission: &Transmission) -> (message: Result<
    AcreMessage,
    AcreSessionError,
>)
    ensures
        model::outcome(message) == built_view(remote_start(transmission@)),
{
    let parameters: Vec<String> =
        vec![
            decimal_text(transmission.voice_client_id() as u64),
            signed_text(transmission.language_id()),
            transmission.net_id().to_owned(),
            kind_digits(transmission.speaking_kind()),
            transmission.radio_id().to_owned(),
        ];
    proof {
        let t = transmission@;
        assert(text::texts(parameters@) =~= seq![
            decimal::decimal(t.voice_client_id as nat),
            decimal::signed_decimal(t.language_id as int),
            t.net_id,
            kind_text(t.speaking_kind),
            t.radio_id,
        ]);
    }
    message_with_comma("remoteStartSpeaking", parameters)
}

fn remote_stop_message(transmission: &Transmission) -> (message: Result<
    AcreMessage,
    AcreSessionError,
>)
    ensures
        model::outcome(message) == built_view(remote_stop(transmission@)),
{
    let parameters: Vec<String> =
        vec![
            decimal_text(transmission.voice_client_id() as u64),
            transmission.net_id().to_owned(),
            kind_digits(transmission.speaking_kind()),
            transmission.radio_id().to_owned(),
        ];
    proof {
        let t = transmission@;
        assert(text::texts(parameters@) =~= seq![
            decimal::decimal(t.voice_client_id as nat),
            t.net_id,
            kind_text(t.speaking_kind),
            t.radio_id,
        ]);
    }
    message_with_comma("remoteStopSpeaking", parameters)
}

/// A list with one action.
fn one(action: AcreAction) -> (actions: Vec<AcreAction>)
    ensures
        model::views(actions@) == seq![action@],
{
    let actions: Vec<AcreAction> = vec![action];
    assert(model::views(actions@) =~= seq![action@]);
    actions
}

/// A list without actions.
fn nothing() -> (actions: Vec<AcreAction>)
    ensures
        model::views(actions@) == Seq::<ActionView>::empty(),
{
    let actions: Vec<AcreAction> = Vec::new();
    assert(model::views(actions@) =~= Seq::<ActionView>::empty());
    actions
}

fn stop_actions(transmission: &Transmission) -> (actions: Result<
    Vec<AcreAction>,
    AcreSessionError,
>)
    ensures
        model::list_outcome(actions) == stop_actions_of(transmission@),
{
    let message: AcreMessage = local_stop_message(transmission)?;
    let actions: Vec<AcreAction> =
        vec![
            AcreAction::SendToArma(message),
            AcreAction::LocalTransmissionStopped(transmission.clone()),
        ];
    assert(model::views(actions@) =~= seq![
        ActionView::SendToArma(message@),
        ActionView::LocalTransmissionStopped(transmission@),
    ]);
    Ok(actions)
}

fn validate_setting(message: &AcreMessage, readings: &[Option<u32>]) -> (answer: Result<
    Vec<AcreAction>,
    AcreSessionError,
>)
    ensures
        model::list_outcome(answer) == setting_answer(message@, readings@),
{
    expect_arity(message, 2)?;
    if parameter(message, 0).as_str().is_empty() {
        return Err(AcreSessionError::EmptySettingName);
    }
    let _value: u32 = parse_finite_float(message, readings, 1)?;
    Ok(nothing())
}

fn play_loaded_sound(message: &AcreMessage, readings: &[Option<u32>]) -> (answer: Result<
    Vec<AcreAction>,
    AcreSessionError,
>)
    ensures
        model::list_outcome(answer) == play_sound_answer(message@, readings@),
{
    match parse_play_loaded_sound(message, readings) {
        Ok(playback) => Ok(one(AcreAction::SoundPlaybackRequested(playback))),
        Err(error) => Err(AcreSessionError::Sound(error)),
    }
}

fn switch(message: &AcreMessage, sound_system: bool) -> (answer: Result<
    Vec<AcreAction>,
    AcreSessionError,
>)
    ensures
        model::list_outcome(answer) == switch_answer(message@, sound_system),
{
    expect_arity(message, 1)?;
    let value: i32 = parse_i32(message, 0)?;
    Ok(
        one(
            if sound_system {
                AcreAction::SoundSystemOverrideChanged(value != 0)
            } else {
                AcreAction::LocalMuteChanged(value != 0)
            },
        ),
    )
}

fn user_mute(message: &AcreMessage) -> (answer: Result<Vec<AcreAction>, AcreSessionError>)
    ensures
        model::list_outcome(answer) == user_mute_answer(message@),
{
    expect_arity(message, 2)?;
    let voice_client_id: u32 = match read_u32(parameter(message, 0).as_str()) {
        Some(id) => id,
        None => {
            return Err(
                AcreSessionError::InvalidInteger {
                    procedure: message.procedure().to_owned(),
                    index: 0,
                },
            );
        },
    };
    let value: i32 = parse_i32(message, 1)?;
    Ok(one(AcreAction::UserMuteChanged { voice_client_id, muted: value != 0 }))
}

impl Default for AcreSession {
    fn default() -> (session: Self)
        ensures
            session@ == fresh_session(ACRE2_PLUGIN_VERSION@),
    {
        AcreSession::new(ACRE2_PLUGIN_VERSION)
    }
}

/// A session before the first message.
pub open spec fn fresh_session(plugin_version: Seq<char>) -> SessionView {
    SessionView {
        plugin_version,
        local_voice_client_id: None,
        voip_metadata: None,
        local_net_id: None,
        local_language_id: 0,
        local_listener_pose: None,
        local_voice_curve_model: AcreVoiceCurveModel::Original,
        local_curve_scale: ONE,
        active_local_transmission: None,
        remote_transmissions: Map::empty(),
        sounds: Seq::empty(),
    }
}

impl AcreSession {
    /// A session before the first message.
    pub fn new(plugin_version: &str) -> (session: Self)
        ensures
            session@ == fresh_session(plugin_version@),
    {
        let session = AcreSession {
            plugin_version: plugin_version.to_owned(),
            local_voice_client_id: None,
            voip_metadata: None,
            local_net_id: None,
            local_language_id: 0,
            local_listener_pose: None,
            local_voice_curve_model: AcreVoiceCurveModel::Original,
            local_curve_scale: ONE,
            active_local_transmission: None,
            remote_transmissions: HashMap::new(),
            sound_assembler: AcreSoundAssembler::default(),
        };
        assert(session@ =~= fresh_session(plugin_version@));
        session
    }

    /// Supplies the Mumble session ID of a synchronized connection.
    pub fn set_local_voice_client_id(&mut self, voice_client_id: Option<u32>)
        ensures
            final(self)@ == (SessionView { local_voice_client_id: voice_client_id, ..old(self)@ }),
    {
        self.local_voice_client_id = voice_client_id;
    }

    /// Supplies what the game may ask about the connection.
    pub fn set_voip_metadata(&mut self, metadata: Option<VoipMetadata>)
        ensures
            final(self)@ == (SessionView {
                voip_metadata: model::optional(metadata),
                ..old(self)@
            }),
    {
        self.voip_metadata = metadata;
    }

    /// Supplies the language of later local transmissions.
    pub fn set_local_language_id(&mut self, language_id: i32)
        ensures
            final(self)@ == (SessionView { local_language_id: language_id, ..old(self)@ }),
    {
        self.local_language_id = language_id;
    }

    /// Supplies the curve scale of later local transmissions.
    pub fn set_local_curve_scale(&mut self, curve_scale: u32) -> (verdict: Result<
        (),
        AcreSessionError,
    >)
        ensures
            if binary32::finite(curve_scale) {
                verdict == Ok::<(), AcreSessionError>(()) && final(self)@ == (SessionView {
                    local_curve_scale: curve_scale,
                    ..old(self)@
                })
            } else {
                verdict == Err::<(), AcreSessionError>(AcreSessionError::NonFiniteCurveScale)
                    && final(self)@ == old(self)@
            },
    {
        if !is_finite(curve_scale) {
            return Err(AcreSessionError::NonFiniteCurveScale);
        }
        self.local_curve_scale = curve_scale;
        Ok(())
    }

    /// The game's name for the local player.
    pub fn local_net_id(&self) -> (net_id: Option<&str>)
        ensures
            match net_id {
                Some(id) => self@.local_net_id == Some(id@),
                None => self@.local_net_id is None,
            },
    {
        match &self.local_net_id {
            Some(net_id) => Some(net_id.as_str()),
            None => None,
        }
    }

    /// The metadata of native Mumble speech, once the game named its player.
    pub fn direct_transmission(&self) -> (transmission: Option<Transmission>)
        ensures
            model::optional(transmission) == direct_view(self@),
    {
        match (&self.local_voice_client_id, &self.local_net_id) {
            (Some(id), Some(net_id)) => {
                proof {
                    reveal_strlit("");
                    assert(""@ =~= Seq::<char>::empty());
                }
                Transmission::build(
                    *id,
                    self.local_language_id,
                    net_id.as_str(),
                    SpeakingKind::Direct,
                    "",
                    self.local_curve_scale,
                )
            },
            _ => None,
        }
    }

    /// The local transmission that the game started last.
    pub fn active_local_transmission(&self) -> (transmission: Option<&Transmission>)
        ensures
            match transmission {
                Some(active) => self@.active_local_transmission == Some(active@),
                None => self@.active_local_transmission is None,
            },
    {
        self.active_local_transmission.as_ref()
    }

    /// Forgets what cannot survive a broken pipe, a reconnection or a change of
    /// identity.
    pub fn reset(&mut self)
        ensures
            final(self)@ == after_reset(old(self)@),
    {
        self.local_language_id = 0;
        self.local_curve_scale = ONE;
        self.local_net_id = None;
        self.local_listener_pose = None;
        self.local_voice_curve_model = AcreVoiceCurveModel::Original;
        self.active_local_transmission = None;
        self.remote_transmissions.clear();
        self.sound_assembler.clear();
        assert(self@ =~= after_reset(old(self)@));
    }

    fn handle_get_client_id(&mut self, message: &AcreMessage) -> (answer: Result<
        Vec<AcreAction>,
        AcreSessionError,
    >)
        ensures
            (final(self)@, model::list_outcome(answer)) == client_id_step(old(self)@, message@),
    {
        let parameters: &[String] = message.parameters();
        assert(parameters@.len() == message@.parameters.len());
        if parameters.len() != 2 {
            expect_arity(message, 1)?;
        }
        let net_id: String = parameter(message, 0).clone();
        let voice_client_id: u32 = match self.local_voice_client_id {
            Some(id) => id,
            None => {
                return Err(AcreSessionError::LocalVoiceClientIdUnavailable);
            },
        };
        self.local_net_id = Some(net_id.clone());
        let reply: Vec<String> = vec![decimal_text(voice_client_id as u64), net_id];
        assert(text::texts(reply@) =~= seq![
            decimal::decimal(voice_client_id as nat),
            message@.parameters[0],
        ]);
        let sending: AcreMessage = message_with_comma("handleGetClientID", reply)?;
        Ok(one(AcreAction::SendToArma(sending)))
    }

    fn voip_reply(&self, message: &AcreMessage, reply: &str, field: MetadataField) -> (answer:
        Result<Vec<AcreAction>, AcreSessionError>)
        ensures
            model::list_outcome(answer) == metadata_answer(self@, message@, reply@, field),
    {
        expect_arity(message, 0)?;
        let metadata: &VoipMetadata = match &self.voip_metadata {
            Some(metadata) => metadata,
            None => {
                return Err(AcreSessionError::VoipMetadataUnavailable);
            },
        };
        let value: String = match field {
            MetadataField::ServerName => metadata.server_name.clone(),
            MetadataField::ServerUid => metadata.server_uid.clone(),
            MetadataField::ChannelName => metadata.channel_name.clone(),
            MetadataField::ChannelUid => metadata.channel_uid.clone(),
        };
        let ghost shown = value@;
        let parameters: Vec<String> = vec![value];
        assert(text::texts(parameters@) =~= seq![shown]);
        let sending: AcreMessage = plain_message(reply, parameters)?;
        Ok(one(AcreAction::SendToArma(sending)))
    }

    fn update_self(&mut self, message: &AcreMessage, readings: &[Option<u32>]) -> (answer: Result<
        Vec<AcreAction>,
        AcreSessionError,
    >)
        ensures
            (final(self)@, model::list_outcome(answer)) == update_self_step(
                old(self)@,
                message@,
                readings@,
            ),
    {
        expect_arity(message, 7)?;
        let position: AcreSpeakerVector = parse_vector(message, readings, 0)?;
        let head_vector: AcreSpeakerVector = parse_vector(message, readings, 3)?;
        let language_id: i32 = parse_i32(message, 6)?;
        let pose = AcreListenerPose { position, head_vector };
        let state = AcreListenerState { pose, curve_model: self.local_voice_curve_model };
        self.local_language_id = language_id;
        self.local_listener_pose = Some(pose);
        Ok(one(AcreAction::ListenerUpdated(state)))
    }

    fn set_selectable_voice_curve(&mut self, message: &AcreMessage, readings: &[Option<u32>]) -> (
        answer: Result<Vec<AcreAction>, AcreSessionError>)
        ensures
            (final(self)@, model::list_outcome(answer)) == curve_scale_step(
                old(self)@,
                message@,
                readings@,
            ),
    {
        expect_arity(message, 1)?;
        let scale: u32 = parse_finite_float(message, readings, 0)?;
        self.set_local_curve_scale(scale)?;
        Ok(nothing())
    }

    fn set_voice_curve_model(&mut self, message: &AcreMessage, readings: &[Option<u32>]) -> (
        answer: Result<Vec<AcreAction>, AcreSessionError>)
        ensures
            (final(self)@, model::list_outcome(answer)) == curve_model_step(
                old(self)@,
                message@,
                readings@,
            ),
    {
        expect_arity(message, 2)?;
        let number: i32 = parse_i32(message, 0)?;
        let curve_model: AcreVoiceCurveModel = match AcreVoiceCurveModel::try_from(number) {
            Ok(curve_model) => curve_model,
            Err(error) => {
                return Err(AcreSessionError::Speaking(error));
            },
        };
        let _value: u32 = parse_finite_float(message, readings, 1)?;
        self.local_voice_curve_model = curve_model;
        match self.local_listener_pose {
            Some(pose) => Ok(
                one(AcreAction::ListenerUpdated(AcreListenerState { pose, curve_model })),
            ),
            None => Ok(nothing()),
        }
    }

    fn update_speaking_data(&self, message: &AcreMessage, readings: &[Option<u32>]) -> (answer:
        Result<Vec<AcreAction>, AcreSessionError>)
        ensures
            model::list_outcome(answer) == speaking_answer(self@, message@, readings@),
    {
        let update: SpeakingUpdate = match parse_update_speaking_data(message, readings) {
            Ok(update) => update,
            Err(error) => {
                return Err(AcreSessionError::Speaking(error));
            },
        };
        let curve_scale: u32 = match self.remote_transmissions.get(&update.speaker_id) {
            Some(remote) => remote.curve_scale(),
            None => ONE,
        };
        match AcreSpeakerAudioUpdate::new(update, curve_scale) {
            Ok(paired) => Ok(one(AcreAction::SpeakingUpdated(paired))),
            Err(error) => Err(AcreSessionError::Speaking(error)),
        }
    }

    fn load_sound(&mut self, message: &AcreMessage, now: u64) -> (answer: Result<
        Vec<AcreAction>,
        AcreSessionError,
    >)
        ensures
            (final(self)@, model::list_outcome(answer)) == load_sound_step(
                old(self)@,
                message@,
                now,
            ),
    {
        let chunk = match parse_load_sound(message) {
            Ok(chunk) => chunk,
            Err(error) => {
                return Err(AcreSessionError::Sound(error));
            },
        };
        match self.sound_assembler.accept(chunk, now) {
            Ok(Some(loaded)) => Ok(one(AcreAction::SoundLoaded(loaded))),
            Ok(None) => Ok(nothing()),
            Err(error) => Err(AcreSessionError::Sound(error)),
        }
    }

    fn start_local(&mut self, message: &AcreMessage, kind: SpeakingKind) -> (answer: Result<
        Vec<AcreAction>,
        AcreSessionError,
    >)
        ensures
            (final(self)@, model::list_outcome(answer)) == start_step(old(self)@, message@, kind),
    {
        broadcast use model::group_views;

        let radio_id: String = match kind {
            SpeakingKind::Radio => {
                expect_arity(message, 1)?;
                let radio_id: String = parameter(message, 0).clone();
                if radio_id.as_str().is_empty() {
                    return Err(AcreSessionError::EmptyRadioId);
                }
                radio_id
            },
            _ => {
                expect_arity(message, 0)?;
                String::new()
            },
        };
        let voice_client_id: u32 = match self.local_voice_client_id {
            Some(id) => id,
            None => {
                return Err(AcreSessionError::LocalVoiceClientIdUnavailable);
            },
        };
        let net_id: String = match &self.local_net_id {
            Some(net_id) => net_id.clone(),
            None => {
                return Err(AcreSessionError::LocalNetIdUnavailable);
            },
        };
        if net_id.as_str().is_empty() {
            return Err(AcreSessionError::LocalNetIdUnavailable);
        }
        let next: Transmission = Transmission::new(
            voice_client_id,
            self.local_language_id,
            net_id.as_str(),
            kind,
            radio_id.as_str(),
            self.local_curve_scale,
        )?;
        let repeated: bool = match &self.active_local_transmission {
            Some(active) => active.same_as(&next),
            None => false,
        };
        if repeated {
            return Ok(nothing());
        }
        let mut actions: Vec<AcreAction> = nothing();
        match self.active_local_transmission.take() {
            Some(previous) => {
                actions = stop_actions(&previous)?;
            },
            None => {},
        }
        self.active_local_transmission = Some(next.clone());
        let start: AcreMessage = local_start_message(&next)?;
        actions.push(AcreAction::SendToArma(start));
        actions.push(AcreAction::LocalTransmissionStarted(next));
        Ok(actions)
    }

    fn stop_local(&mut self, message: &AcreMessage, kind: SpeakingKind) -> (answer: Result<
        Vec<AcreAction>,
        AcreSessionError,
    >)
        ensures
            (final(self)@, model::list_outcome(answer)) == stop_step(old(self)@, message@, kind),
    {
        expect_arity(message, 0)?;
        let matching: bool = match &self.active_local_transmission {
            Some(active) => active.speaking_kind() == kind,
            None => false,
        };
        if !matching {
            return Ok(nothing());
        }
        match self.active_local_transmission.take() {
            Some(active) => stop_actions(&active),
            None => Ok(nothing()),
        }
    }

    /// Handles one message of the game. `readings` holds what reading each
    /// parameter as a single-precision number gave; `clock` is the process
    /// clock in seconds, written with six decimals, or nothing if it was not
    /// finite; `now` is the time.
    pub fn handle_from_arma(
        &mut self,
        message: &AcreMessage,
        readings: &[Option<u32>],
        clock: Option<&str>,
        now: u64,
    ) -> (answer: Result<Vec<AcreAction>, AcreSessionError>)
        ensures
            (final(self)@, model::list_outcome(answer)) == handled(
                old(self)@,
                message@,
                readings@,
                match clock {
                    Some(text) => Some(text@),
                    None => None,
                },
                now,
            ),
    {
        let clock: &str = match clock {
            Some(clock) => clock,
            None => {
                return Err(AcreSessionError::NonFiniteClock);
            },
        };
        let p: &str = message.procedure();
        if same_text(p, "ping") {
            expect_arity(message, 0)?;
            let parameters: Vec<String> = vec![clock.to_owned()];
            assert(text::texts(parameters@) =~= seq![clock@]);
            let pong: AcreMessage = message_with_comma("pong", parameters)?;
            Ok(one(AcreAction::SendToArma(pong)))
        } else if same_text(p, "getPluginVersion") {
            expect_arity(message, 0)?;
            let parameters: Vec<String> = vec![self.plugin_version.clone()];
            assert(text::texts(parameters@) =~= seq![self@.plugin_version]);
            let reply: AcreMessage = plain_message("handleGetPluginVersion", parameters)?;
            Ok(one(AcreAction::SendToArma(reply)))
        } else if same_text(p, "getClientID") {
            self.handle_get_client_id(message)
        } else if same_text(p, "updateSelf") {
            self.update_self(message, readings)
        } else if same_text(p, "setSelectableVoiceCurve") {
            self.set_selectable_voice_curve(message, readings)
        } else if same_text(p, "setVoiceCurveModel") {
            self.set_voice_curve_model(message, readings)
        } else if same_text(p, "setSetting") {
            validate_setting(message, readings)
        } else if same_text(p, "setTs3ChannelDetails") {
            expect_arity(message, 3)?;
            Ok(nothing())
        } else if same_text(p, "loadSound") {
            self.load_sound(message, now)
        } else if same_text(p, "playLoadedSound") {
            play_loaded_sound(message, readings)
        } else if same_text(p, "getVOIPServerName") {
            self.voip_reply(message, "handleGetVOIPServerName", MetadataField::ServerName)
        } else if same_text(p, "getVOIPServerUID") {
            self.voip_reply(message, "handleGetVOIPServerUID", MetadataField::ServerUid)
        } else if same_text(p, "getVOIPChannelName") {
            self.voip_reply(message, "handleGetVOIPChannelName", MetadataField::ChannelName)
        } else if same_text(p, "getVOIPChannelUID") {
            self.voip_reply(message, "handleGetVOIPChannelUID", MetadataField::ChannelUid)
        } else if same_text(p, "updateSpeakingData") {
            self.update_speaking_data(message, readings)
        } else if same_text(p, "startRadioSpeaking") {
            self.start_local(message, SpeakingKind::Radio)
        } else if same_text(p, "stopRadioSpeaking") {
            self.stop_local(message, SpeakingKind::Radio)
        } else if same_text(p, "startIntercomSpeaking") {
            self.start_local(message, SpeakingKind::Intercom)
        } else if same_text(p, "stopIntercomSpeaking") {
            self.stop_local(message, SpeakingKind::Intercom)
        } else if same_text(p, "startGodModeSpeaking") {
            self.start_local(message, SpeakingKind::God)
        } else if same_text(p, "stopGodModeSpeaking") {
            self.stop_local(message, SpeakingKind::God)
        } else if same_text(p, "startZeusSpeaking") {
            self.start_local(message, SpeakingKind::Zeus)
        } else if same_text(p, "stopZeusSpeaking") {
            self.stop_local(message, SpeakingKind::Zeus)
        } else if same_text(p, "setSoundSystemMasterOverride") {
            switch(message, true)
        } else if same_text(p, "localMute") {
            switch(message, false)
        } else if same_text(p, "setMuted") {
            user_mute(message)
        } else if same_text(p, "setPTTKeys") {
            Ok(nothing())
        } else if same_text(p, "ext_reset") {
            let parameters: &[String] = message.parameters();
            assert(parameters@.len() == message@.parameters.len());
            if parameters.len() > 1 {
                return Err(
                    AcreSessionError::WrongArity {
                        procedure: p.to_owned(),
                        expected: "zero or one",
                        actual: parameters.len(),
                    },
                );
            }
            self.reset();
            Ok(one(AcreAction::ResetRequested))
        } else {
            Err(AcreSessionError::UnsupportedProcedure(p.to_owned()))
        }
    }

    /// Tells the game that another player began to transmit.
    pub fn remote_started(&mut self, transmission: &RemoteTransmission) -> (answer: Result<
        Vec<AcreAction>,
        AcreSessionError,
    >)
        ensures
            (final(self)@, model::list_outcome(answer)) == remote_started_step(
                old(self)@,
                transmission@,
            ),
    {
        broadcast use model::group_views;

        let id: u32 = transmission.voice_client_id();
        let mut actions: Vec<AcreAction> = nothing();
        match self.remote_transmissions.get(&id) {
            Some(previous) => {
                if previous.same_as(transmission) {
                    return Ok(nothing());
                }
                let stop: AcreMessage = remote_stop_message(previous)?;
                actions.push(AcreAction::SendToArma(stop));
            },
            None => {},
        }
        let start: AcreMessage = remote_start_message(transmission)?;
        self.remote_transmissions.insert(id, transmission.clone());
        actions.push(AcreAction::SendToArma(start));
        proof {
            let step = remote_started_step(old(self)@, transmission@);
            assert(self@.remote_transmissions =~= step.0.remote_transmissions);
            assert(model::views(actions@) =~= step.1->Ok_0);
        }
        Ok(actions)
    }

    /// Tells the game that another player ceased to transmit. An unknown
    /// player changes nothing.
    pub fn remote_stopped(&mut self, voice_client_id: u32) -> (answer: Result<
        Vec<AcreAction>,
        AcreSessionError,
    >)
        ensures
            (final(self)@, model::list_outcome(answer)) == remote_stopped_step(
                old(self)@,
                voice_client_id,
            ),
    {
        let removed: Option<Transmission> = self.remote_transmissions.remove(&voice_client_id);
        match removed {
            Some(transmission) => {
                assert(self@.remote_transmissions =~= old(self)@.remote_transmissions.remove(
                    voice_client_id,
                ));
                let stop: AcreMessage = remote_stop_message(&transmission)?;
                Ok(one(AcreAction::SendToArma(stop)))
            },
            None => {
                assert(self@.remote_transmissions =~= old(self)@.remote_transmissions);
                Ok(nothing())
            },
        }
    }

    /// Drops the sound transfers that have rested too long; returns their IDs.
    pub fn expire_sound_loads(&mut self, now: u64) -> (ids: Vec<String>)
        ensures
            final(self)@ == (SessionView {
                sounds: sound::unexpired(old(self)@.sounds, now),
                ..old(self)@
            }),
            text::texts(ids@) == sound::expired_ids(old(self)@.sounds, now),
    {
        self.sound_assembler.expire(now)
    }
}

/// The metadata of native Mumble speech.
pub open spec fn direct_view(s: SessionView) -> Option<TransmissionView> {
    match (s.local_voice_client_id, s.local_net_id) {
        (Some(voice_client_id), Some(net_id)) => if binary32::finite(s.local_curve_scale) {
            Some(
                TransmissionView {
                    voice_client_id,
                    language_id: s.local_language_id,
                    net_id,
                    speaking_kind: SpeakingKind::Direct,
                    radio_id: Seq::empty(),
                    curve_scale: s.local_curve_scale,
                },
            )
        } else {
            None
        },
        _ => None,
    }
}

/// A refused message changes nothing, unless it is refused for a reply that
/// does not fit the wire, or as part of a sound transfer.
pub proof fn law_refused_messages_change_nothing(
    s: SessionView,
    m: MessageView,
    r: Seq<Option<u32>>,
    clock: Option<Seq<char>>,
    now: u64,
)
    requires
        handled(s, m, r, clock, now).1 matches Err(fault) && !(fault is Codec) && !(
        fault is Sound),
    ensures
        handled(s, m, r, clock, now).0 == s,
{
    lemma_refused_starts_and_loads(s, m, SpeakingKind::Radio, now);
    lemma_refused_starts_and_loads(s, m, SpeakingKind::Intercom, now);
    lemma_refused_starts_and_loads(s, m, SpeakingKind::God, now);
    lemma_refused_starts_and_loads(s, m, SpeakingKind::Zeus, now);
}

proof fn lemma_refused_starts_and_loads(s: SessionView, m: MessageView, kind: SpeakingKind, now: u64)
    ensures
        start_step(s, m, kind).1 matches Err(fault) ==> fault is Codec || start_step(s, m, kind).0
            == s,
        stop_step(s, m, kind).1 matches Err(fault) ==> fault is Codec || stop_step(s, m, kind).0
            == s,
        load_sound_step(s, m, now).1 matches Err(fault) ==> fault is Sound,
{
}

/// A reset leaves nothing of the game behind, whatever the game did before:
/// it ends in the state of a fresh session with the same version, voice client
/// and connection metadata.
pub proof fn law_reset_restores_a_fresh_session(s: SessionView)
    ensures
        after_reset(s) == (SessionView {
            local_voice_client_id: s.local_voice_client_id,
            voip_metadata: s.voip_metadata,
            ..fresh_session(s.plugin_version)
        }),
        after_reset(after_reset(s)) == after_reset(s),
{
}

/// An announced transmission can be ended again: the game is told once of the
/// start and once of the stop, and the session is as before.
pub proof fn law_remote_start_and_stop_pair(s: SessionView, t: TransmissionView)
    requires
        !s.remote_transmissions.contains_key(t.voice_client_id),
        remote_started_step(s, t).1 is Ok,
    ensures
        ({
            let started = remote_started_step(s, t);
            let stopped = remote_stopped_step(started.0, t.voice_client_id);
            &&& started.1->Ok_0 == seq![ActionView::SendToArma(remote_start(t)->Ok_0)]
            &&& stopped.1 == sent(remote_stop(t))
            &&& stopped.0 == s
        }),
{
    let started = remote_started_step(s, t).0;
    let stopped = remote_stopped_step(started, t.voice_client_id).0;
    assert(stopped.remote_transmissions =~= s.remote_transmissions);
}

/// Repeated announcements are silent: a transmission that was just started is
/// not started again, and one that was just stopped is not stopped again.
pub proof fn law_repeated_remote_changes_are_silent(s: SessionView, t: TransmissionView, id: u32)
    ensures
        remote_started_step(s, t).1 is Ok ==> remote_started_step(
            remote_started_step(s, t).0,
            t,
        ) == (remote_started_step(s, t).0, Ok::<Seq<ActionView>, SessionFault>(Seq::empty())),
        remote_stopped_step(remote_stopped_step(s, id).0, id) == (
            remote_stopped_step(s, id).0,
            Ok::<Seq<ActionView>, SessionFault>(Seq::empty()),
        ),
{
}

/// A refused start of a remote transmission leaves no trace of it.
pub proof fn law_refused_remote_starts_change_nothing(s: SessionView, t: TransmissionView)
    requires
        remote_started_step(s, t).1 is Err,
    ensures
        remote_started_step(s, t).0 == s,
{
}

/// The session's table names every remote transmission by its own speaker.
pub open spec fn keyed_by_speaker(s: SessionView) -> bool {
    forall|id: u32| #[trigger]
        s.remote_transmissions.contains_key(id) ==> s.remote_transmissions[id].voice_client_id
            == id
}

/// A session begins with, and whatever happens keeps, a table in which every
/// remote transmission stands under its own speaker.
pub proof fn law_remote_transmissions_stay_keyed(
    s: SessionView,
    m: MessageView,
    r: Seq<Option<u32>>,
    clock: Option<Seq<char>>,
    now: u64,
    t: TransmissionView,
    id: u32,
    version: Seq<char>,
)
    requires
        keyed_by_speaker(s),
    ensures
        keyed_by_speaker(fresh_session(version)),
        keyed_by_speaker(handled(s, m, r, clock, now).0),
        keyed_by_speaker(remote_started_step(s, t).0),
        keyed_by_speaker(remote_stopped_step(s, id).0),
{
    let started = remote_started_step(s, t).0;
    assert forall|k: u32| #[trigger] started.remote_transmissions.contains_key(k) implies
        started.remote_transmissions[k].voice_client_id == k by {
        if k != t.voice_client_id {
            assert(s.remote_transmissions.contains_key(k));
        }
    }
    let stopped = remote_stopped_step(s, id).0;
    assert forall|k: u32| #[trigger] stopped.remote_transmissions.contains_key(k) implies
        stopped.remote_transmissions[k].voice_client_id == k by {
        assert(s.remote_transmissions.contains_key(k));
    }
    let after = handled(s, m, r, clock, now).0;
    assert(after.remote_transmissions == s.remote_transmissions || after.remote_transmissions
        == Map::<u32, TransmissionView>::empty());
}

/// Starting the local transmission that is already active does nothing, and
/// whatever start succeeds leaves exactly the started one active.
pub proof fn law_one_local_transmission_at_a_time(s: SessionView, next: TransmissionView)
    requires
        begin_step(s, next).1 is Ok,
    ensures
        begin_step(s, next).0.active_local_transmission is Some,
        transmission::same_transmission(
            begin_step(s, next).0.active_local_transmission->0,
            next,
        ),
        begin_step(begin_step(s, next).0, next) == (
            begin_step(s, next).0,
            Ok::<Seq<ActionView>, SessionFault>(Seq::empty()),
        ),
{
}

/// Whether every message that an answer sends to the game is of a procedure
/// that the inventory lists.
pub open spec fn sends_known(answer: Answer) -> bool {
    answer matches Ok(actions) ==> forall|i: int|
        0 <= i < actions.len() ==> ((#[trigger] actions[i]) matches ActionView::SendToArma(message)
            ==> crate::procedure::known(message.procedure))
}

proof fn lemma_transmissions_are_known(s: SessionView, m: MessageView, kind: SpeakingKind)
    ensures
        sends_known(start_step(s, m, kind).1),
        sends_known(stop_step(s, m, kind).1),
{
    crate::procedure::lemma_inventory();
    assert(crate::procedure::known("localStartSpeaking"@));
    assert(crate::procedure::known("localStopSpeaking"@));
    assert(forall|t: TransmissionView| sends_known(#[trigger] stop_actions_of(t)));
}

proof fn lemma_replies_are_known(s: SessionView, m: MessageView, clock: Seq<char>)
    ensures
        sends_known(reply_answer(m, with_comma("pong"@, seq![clock]))),
        sends_known(
            reply_answer(m, codec::built("handleGetPluginVersion"@, seq![s.plugin_version], false)),
        ),
        sends_known(client_id_step(s, m).1),
{
    crate::procedure::lemma_inventory();
}

proof fn lemma_metadata_is_known(
    s: SessionView,
    m: MessageView,
    reply: Seq<char>,
    field: MetadataField,
)
    requires
        crate::procedure::known(reply),
    ensures
        sends_known(metadata_answer(s, m, reply, field)),
{
}

proof fn lemma_remote_changes_are_known(s: SessionView, t: TransmissionView, id: u32)
    ensures
        sends_known(remote_started_step(s, t).1),
        sends_known(remote_stopped_step(s, id).1),
{
    crate::procedure::lemma_inventory();
    assert(crate::procedure::known("remoteStartSpeaking"@));
    assert(crate::procedure::known("remoteStopSpeaking"@));
}

proof fn lemma_handled_is_known(
    s: SessionView,
    m: MessageView,
    r: Seq<Option<u32>>,
    clock: Seq<char>,
    now: u64,
)
    ensures
        handled(s, m, r, Some(clock), now).1 != Err::<Seq<ActionView>, SessionFault>(
            SessionFault::UnsupportedProcedure(m.procedure),
        ) ==> crate::procedure::known(m.procedure),
{
    crate::procedure::lemma_inventory();
}

proof fn lemma_answers_are_known(
    s: SessionView,
    m: MessageView,
    r: Seq<Option<u32>>,
    clock: Seq<char>,
    now: u64,
)
    ensures
        sends_known(handled(s, m, r, Some(clock), now).1),
{
    lemma_replies_are_known(s, m, clock);
    lemma_transmissions_are_known(s, m, SpeakingKind::Radio);
    lemma_transmissions_are_known(s, m, SpeakingKind::Intercom);
    lemma_transmissions_are_known(s, m, SpeakingKind::God);
    lemma_transmissions_are_known(s, m, SpeakingKind::Zeus);
    assert(sends_known(metadata_answer(s, m, "handleGetVOIPServerName"@, MetadataField::ServerName))
        && sends_known(metadata_answer(s, m, "handleGetVOIPServerUID"@, MetadataField::ServerUid))
        && sends_known(
        metadata_answer(s, m, "handleGetVOIPChannelName"@, MetadataField::ChannelName),
    ) && sends_known(
        metadata_answer(s, m, "handleGetVOIPChannelUID"@, MetadataField::ChannelUid),
    )) by {
        crate::procedure::lemma_inventory();
        lemma_metadata_is_known(s, m, "handleGetVOIPServerName"@, MetadataField::ServerName);
        lemma_metadata_is_known(s, m, "handleGetVOIPServerUID"@, MetadataField::ServerUid);
        lemma_metadata_is_known(s, m, "handleGetVOIPChannelName"@, MetadataField::ChannelName);
        lemma_metadata_is_known(s, m, "handleGetVOIPChannelUID"@, MetadataField::ChannelUid);
    }
}

/// A message that is not refused as unsupported is of a procedure that the
/// inventory lists, and so is every message that the session sends.
pub proof fn law_procedures_are_known(
    s: SessionView,
    m: MessageView,
    r: Seq<Option<u32>>,
    clock: Seq<char>,
    now: u64,
    t: TransmissionView,
    id: u32,
)
    ensures
        handled(s, m, r, Some(clock), now).1 != Err::<Seq<ActionView>, SessionFault>(
            SessionFault::UnsupportedProcedure(m.procedure),
        ) ==> crate::procedure::known(m.procedure),
        sends_known(handled(s, m, r, Some(clock), now).1),
        sends_known(remote_started_step(s, t).1),
        sends_known(remote_stopped_step(s, id).1),
{
    lemma_handled_is_known(s, m, r, clock, now);
    lemma_answers_are_known(s, m, r, clock, now);
    lemma_remote_changes_are_known(s, t, id);
}

} // verus!
