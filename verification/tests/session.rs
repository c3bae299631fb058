use mumbleacre::codec::{AcreCodecError, AcreMessage};
use mumbleacre::procedure::{is_known_v214_procedure, ACRE2_V214_WIRE_PROCEDURES};
use mumbleacre::session::{AcreAction, AcreSession, AcreSessionError, VoipMetadata};
use mumbleacre::speaking::{
    AcreListenerPose, AcreListenerState, AcreSpeakerAudioUpdate, AcreSpeakerVector,
    AcreSpeakingDataError, AcreVoiceCurveModel, SpeakingDecision, SpeakingUpdate,
};
use mumbleacre::transmission::{SpeakingKind, Transmission};

fn incoming(text: &str) -> AcreMessage {
    AcreMessage::parse(text.as_bytes()).unwrap()
}

fn handle_at(
    session: &mut AcreSession,
    text: &str,
    clock: f64,
) -> Result<Vec<AcreAction>, AcreSessionError> {
    let message = incoming(text);
    let readings: Vec<Option<u32>> = message
        .parameters()
        .iter()
        .map(|parameter| parameter.parse::<f32>().ok().map(f32::to_bits))
        .collect();
    let written = format!("{clock:.6}");
    let clock = if clock.is_finite() {
        Some(written.as_str())
    } else {
        None
    };
    session.handle_from_arma(&message, &readings, clock, 0)
}

fn handle(session: &mut AcreSession, text: &str) -> Result<Vec<AcreAction>, AcreSessionError> {
    handle_at(session, text, 0.0)
}

fn sent(actions: &[AcreAction]) -> Vec<&AcreMessage> {
    actions
        .iter()
        .filter_map(|action| match action {
            AcreAction::SendToArma(message) => Some(message),
            _ => None,
        })
        .collect()
}

fn vector(x: f32, z: f32, y: f32) -> AcreSpeakerVector {
    AcreSpeakerVector {
        x: x.to_bits(),
        z: z.to_bits(),
        y: y.to_bits(),
    }
}

fn near(bits: u32, expected: f32) -> bool {
    (f32::from_bits(bits) - expected).abs() < f32::EPSILON
}

fn initialized_local_session() -> AcreSession {
    let mut session = AcreSession::default();
    session.set_local_voice_client_id(Some(41));
    handle(&mut session, "getClientID:2:1234,").unwrap();
    handle(&mut session, "updateSelf:10,20,30,0,1,0,7,").unwrap();
    handle(&mut session, "setSelectableVoiceCurve:0.750000,").unwrap();
    session
}

#[test]
fn handles_health_and_identity_with_stock_acre_wire_shapes() {
    let mut session = AcreSession::default();
    session.set_local_voice_client_id(Some(41));

    let pong = handle_at(&mut session, "ping:", 12.5).unwrap();
    assert_eq!(sent(&pong)[0].encode_text(), "pong:12.500000,");

    let version = handle(&mut session, "getPluginVersion:").unwrap();
    assert_eq!(
        sent(&version)[0].encode_text(),
        "handleGetPluginVersion:2.14.0.1064"
    );

    let identity = handle(&mut session, "getClientID:2:1234,").unwrap();
    assert_eq!(
        sent(&identity)[0].encode_text(),
        "handleGetClientID:41,2:1234,"
    );
    assert_eq!(session.local_net_id(), Some("2:1234"));
}

#[test]
fn emits_a_validated_listener_pose_from_update_self() {
    let mut session = AcreSession::default();
    let actions = handle(&mut session, "updateSelf:10,30,20,0,1,0,7,").unwrap();

    assert_eq!(
        actions,
        [AcreAction::ListenerUpdated(AcreListenerState {
            pose: AcreListenerPose {
                position: vector(10.0, 30.0, 20.0),
                head_vector: vector(0.0, 1.0, 0.0),
            },
            curve_model: AcreVoiceCurveModel::Original,
        })]
    );
}

#[test]
fn curve_model_republishes_an_existing_listener_pose() {
    let mut session = AcreSession::default();
    handle(&mut session, "updateSelf:10,30,20,0,1,0,7,").unwrap();

    let actions = handle(&mut session, "setVoiceCurveModel:3,0.75,").unwrap();
    assert!(matches!(
        actions.as_slice(),
        [AcreAction::ListenerUpdated(AcreListenerState {
            curve_model: AcreVoiceCurveModel::SelectableB,
            ..
        })]
    ));
    assert!(matches!(
        handle(&mut session, "setVoiceCurveModel:99,1,"),
        Err(AcreSessionError::Speaking(
            AcreSpeakingDataError::InvalidVoiceCurveModel { model: 99 }
        ))
    ));
}

#[test]
fn replies_to_voip_queries_from_a_control_plane_snapshot() {
    let mut session = AcreSession::default();
    session.set_voip_metadata(Some(
        VoipMetadata::new("Mumble", "server-uid", "ACRE Test", "mumble:server-uid:7").unwrap(),
    ));

    let replies = [
        ("getVOIPServerName:", "handleGetVOIPServerName:Mumble"),
        ("getVOIPServerUID:", "handleGetVOIPServerUID:server-uid"),
        ("getVOIPChannelName:", "handleGetVOIPChannelName:ACRE Test"),
        (
            "getVOIPChannelUID:",
            "handleGetVOIPChannelUID:mumble:server-uid:7",
        ),
    ];
    for (request, expected) in replies {
        let actions = handle(&mut session, request).unwrap();
        assert_eq!(sent(&actions)[0].encode_text(), expected);
    }

    session.set_voip_metadata(None);
    assert!(matches!(
        handle(&mut session, "getVOIPServerName:"),
        Err(AcreSessionError::VoipMetadataUnavailable)
    ));
}

#[test]
fn rejects_voip_metadata_that_cannot_be_one_acre_parameter() {
    assert!(matches!(
        VoipMetadata::new("Mumble", "server,uid", "channel", "uid"),
        Err(AcreSessionError::InvalidVoipMetadataField("server_uid"))
    ));
    assert!(matches!(
        VoipMetadata::new("Mumble", "server", "", "uid"),
        Err(AcreSessionError::EmptyVoipMetadataField("channel_name"))
    ));
}

#[test]
fn creates_and_closes_a_local_radio_transmission() {
    let mut session = initialized_local_session();

    let start = handle(&mut session, "startRadioSpeaking:ACRE_PRC152,").unwrap();
    assert_eq!(
        sent(&start)[0].encode_text(),
        "localStartSpeaking:41,7,1,ACRE_PRC152,"
    );
    assert!(matches!(
        start.last(),
        Some(AcreAction::LocalTransmissionStarted(transmission))
            if transmission.speaking_kind() == SpeakingKind::Radio
    ));

    let stop = handle(&mut session, "stopRadioSpeaking:").unwrap();
    assert_eq!(
        sent(&stop)[0].encode_text(),
        "localStopSpeaking:41,1,ACRE_PRC152,"
    );
    assert!(matches!(
        stop.last(),
        Some(AcreAction::LocalTransmissionStopped(_))
    ));
}

#[test]
fn creates_and_transitions_local_god_and_zeus_transmissions() {
    let mut session = initialized_local_session();

    let god = handle(&mut session, "startGodModeSpeaking:").unwrap();
    assert_eq!(sent(&god)[0].encode_text(), "localStartSpeaking:41,7,5,,");
    assert!(matches!(
        god.last(),
        Some(AcreAction::LocalTransmissionStarted(transmission))
            if transmission.speaking_kind() == SpeakingKind::God
                && transmission.radio_id().is_empty()
    ));

    let zeus = handle(&mut session, "startZeusSpeaking:").unwrap();
    assert_eq!(
        sent(&zeus)
            .iter()
            .map(|message| message.encode_text())
            .collect::<Vec<_>>(),
        [
            "localStopSpeaking:41,5,,".to_owned(),
            "localStartSpeaking:41,7,6,,".to_owned(),
        ]
    );
    assert!(matches!(
        zeus.last(),
        Some(AcreAction::LocalTransmissionStarted(transmission))
            if transmission.speaking_kind() == SpeakingKind::Zeus
                && transmission.radio_id().is_empty()
    ));

    let stop = handle(&mut session, "stopZeusSpeaking:").unwrap();
    assert_eq!(sent(&stop)[0].encode_text(), "localStopSpeaking:41,6,,");
    assert!(matches!(
        stop.last(),
        Some(AcreAction::LocalTransmissionStopped(transmission))
            if transmission.speaking_kind() == SpeakingKind::Zeus
    ));
}

#[test]
fn remote_transitions_close_the_previous_mode_before_opening_the_next() {
    let mut session = AcreSession::default();
    let one = 1.0f32.to_bits();
    let radio =
        Transmission::new(99, 0, "2:remote", SpeakingKind::Radio, "ACRE_PRC152", one).unwrap();
    let direct = Transmission::new(99, 0, "2:remote", SpeakingKind::Direct, "", one).unwrap();

    let first = session.remote_started(&radio).unwrap();
    assert_eq!(
        sent(&first)[0].encode_text(),
        "remoteStartSpeaking:99,0,2:remote,1,ACRE_PRC152,"
    );
    let change = session.remote_started(&direct).unwrap();
    assert_eq!(
        sent(&change)
            .iter()
            .map(|message| message.encode_text())
            .collect::<Vec<_>>(),
        [
            "remoteStopSpeaking:99,2:remote,1,ACRE_PRC152,".to_owned(),
            "remoteStartSpeaking:99,0,2:remote,0,,".to_owned(),
        ]
    );
}

#[test]
fn pairs_a_remote_direct_decision_with_the_authenticated_curve_scale() {
    let mut session = AcreSession::default();
    session
        .remote_started(
            &Transmission::new(
                99,
                7,
                "2:remote",
                SpeakingKind::Direct,
                "",
                0.75f32.to_bits(),
            )
            .unwrap(),
        )
        .unwrap();

    let actions = handle(&mut session, "updateSpeakingData:d,99,0,1,10,30,20,0,1,0,").unwrap();
    assert!(matches!(
        actions.as_slice(),
        [AcreAction::SpeakingUpdated(AcreSpeakerAudioUpdate {
            speaking: SpeakingUpdate { speaker_id: 99, .. },
            curve_scale,
        })] if near(*curve_scale, 0.75)
    ));
}

#[test]
fn invalid_remote_start_does_not_pin_partial_session_state() {
    let mut session = AcreSession::default();
    let invalid = Transmission::new(
        99,
        0,
        "2:remote,other",
        SpeakingKind::Direct,
        "",
        1.0f32.to_bits(),
    )
    .unwrap();

    assert!(matches!(
        session.remote_started(&invalid),
        Err(AcreSessionError::Codec(
            AcreCodecError::InvalidParameter { .. }
        ))
    ));
    assert!(session.remote_stopped(99).unwrap().is_empty());
}

#[test]
fn malformed_messages_do_not_create_partial_state() {
    let mut session = AcreSession::default();
    session.set_local_voice_client_id(Some(41));

    assert_eq!(
        handle(&mut session, "getClientID:").unwrap_err(),
        AcreSessionError::WrongArity {
            procedure: "getClientID".to_owned(),
            expected: "one",
            actual: 0,
        }
    );
    assert_eq!(session.local_net_id(), None);
    assert!(matches!(
        handle(&mut session, "startRadioSpeaking:foo,"),
        Err(AcreSessionError::LocalNetIdUnavailable)
    ));
    assert!(session.active_local_transmission().is_none());
}

#[test]
fn validates_and_emits_speaking_data_without_turning_it_into_audio_logic() {
    let mut session = AcreSession::default();
    let speaking = handle(&mut session, "updateSpeakingData:r,9,0,0,").unwrap();
    assert!(matches!(
        speaking.as_slice(),
        [AcreAction::SpeakingUpdated(AcreSpeakerAudioUpdate {
            speaking: SpeakingUpdate {
                speaker_id: 9,
                decision: SpeakingDecision::Radio { paths },
                ..
            },
            curve_scale,
        })] if paths.is_empty() && near(*curve_scale, 1.0)
    ));
    assert!(matches!(
        handle(&mut session, "updateSelf:0,0,0,0,0,0,NaN,"),
        Err(AcreSessionError::InvalidInteger { index: 6, .. })
    ));
    assert!(matches!(
        handle(&mut session, "setSelectableVoiceCurve:NaN,"),
        Err(AcreSessionError::InvalidFloat { index: 0, .. })
    ));
}

#[test]
fn emits_completed_loaded_sounds_and_typed_play_requests_without_audio_work() {
    let mut session = AcreSession::default();
    assert!(handle(&mut session, "loadSound:ACRE_Click,1,3,QUJD,").unwrap().is_empty());
    assert!(handle(&mut session, "loadSound:ACRE_Click,2,3,REVG,").unwrap().is_empty());
    let loaded = handle(&mut session, "loadSound:ACRE_Click,3,3,,").unwrap();
    assert!(matches!(
        loaded.as_slice(),
        [AcreAction::SoundLoaded(sound)] if sound.id() == "ACRE_Click" && sound.bytes() == b"ABCDEF"
    ));

    let playback = handle(&mut session, "playLoadedSound:ACRE_Click,0,0,0,0,0,1,0.5,0,").unwrap();
    assert!(matches!(
        playback.as_slice(),
        [AcreAction::SoundPlaybackRequested(request)]
            if request.id() == "ACRE_Click"
                && !request.is_world()
                && near(request.volume(), 0.5)
    ));
}

#[test]
fn reset_clears_local_and_remote_state() {
    let mut session = AcreSession::default();
    session.set_local_voice_client_id(Some(41));
    handle(&mut session, "getClientID:2:local,").unwrap();
    handle(&mut session, "startIntercomSpeaking:").unwrap();
    session
        .remote_started(
            &Transmission::new(
                99,
                0,
                "2:remote",
                SpeakingKind::Direct,
                "",
                1.0f32.to_bits(),
            )
            .unwrap(),
        )
        .unwrap();

    assert_eq!(
        handle(&mut session, "ext_reset:41,"),
        Ok(vec![AcreAction::ResetRequested])
    );
    assert!(session.active_local_transmission().is_none());
    assert!(session.remote_stopped(99).unwrap().is_empty());
}

#[test]
fn client_ids_come_with_the_player_uid_of_the_current_release() {
    let mut session = AcreSession::default();
    session.set_local_voice_client_id(Some(41));
    let identity = handle(&mut session, "getClientID:1:2,76561198000000000,").unwrap();
    assert_eq!(
        sent(&identity)[0].encode_text(),
        "handleGetClientID:41,1:2,"
    );
    assert_eq!(session.local_net_id(), Some("1:2"));
}

#[test]
fn client_control_messages_reach_the_adapter() {
    let mut session = AcreSession::default();
    assert_eq!(
        handle(&mut session, "setSoundSystemMasterOverride:1,").unwrap(),
        [AcreAction::SoundSystemOverrideChanged(true)]
    );
    assert_eq!(
        handle(&mut session, "setSoundSystemMasterOverride:0,").unwrap(),
        [AcreAction::SoundSystemOverrideChanged(false)]
    );
    assert_eq!(
        handle(&mut session, "localMute:1,").unwrap(),
        [AcreAction::LocalMuteChanged(true)]
    );
    assert_eq!(
        handle(&mut session, "setMuted:9,1,").unwrap(),
        [AcreAction::UserMuteChanged {
            voice_client_id: 9,
            muted: true
        }]
    );
    assert!(handle(&mut session, "setPTTKeys:1,2,").is_ok());
}

#[test]
fn every_session_error_has_an_input() {
    let mut session = AcreSession::default();
    assert_eq!(
        handle(&mut session, "notAProcedure:"),
        Err(AcreSessionError::UnsupportedProcedure(
            "notAProcedure".to_owned()
        ))
    );
    assert_eq!(
        handle(&mut session, "getClientID:2:1,"),
        Err(AcreSessionError::LocalVoiceClientIdUnavailable)
    );
    assert_eq!(
        handle_at(&mut session, "ping:", f64::NAN),
        Err(AcreSessionError::NonFiniteClock)
    );
    assert_eq!(
        session.set_local_curve_scale(f32::NAN.to_bits()),
        Err(AcreSessionError::NonFiniteCurveScale)
    );
    assert!(matches!(
        VoipMetadata::new("Mumble", &"u".repeat(513), "c", "1"),
        Err(AcreSessionError::VoipMetadataFieldTooLong {
            field: "server_uid",
            length: 513,
            limit: 512
        })
    ));
    let mut local = initialized_local_session();
    assert_eq!(
        handle(&mut local, "startRadioSpeaking:,"),
        Err(AcreSessionError::WrongArity {
            procedure: "startRadioSpeaking".to_owned(),
            expected: "one",
            actual: 0,
        })
    );
    assert!(matches!(
        handle(&mut session, "playLoadedSound:ACRE_Click,0,0,0,0,0,0,1.5,0,"),
        Err(AcreSessionError::Sound(_))
    ));
}

#[test]
fn refused_messages_leave_the_session_as_it_was() {
    let mut session = initialized_local_session();
    handle(&mut session, "startRadioSpeaking:ACRE_PRC152,").unwrap();
    assert!(handle(&mut session, "updateSelf:1,2,3,").is_err());
    assert!(handle(&mut session, "startRadioSpeaking:a,b,").is_err());
    assert_eq!(
        session.active_local_transmission().map(|t| t.radio_id().to_owned()),
        Some("ACRE_PRC152".to_owned())
    );
    let direct = session.direct_transmission().unwrap();
    assert_eq!(direct.net_id(), "2:1234");
    assert_eq!(direct.language_id(), 7);
    assert!(near(direct.curve_scale(), 0.75));
}

#[test]
fn session_errors_are_put_into_words() {
    let mut session = AcreSession::default();
    let refused = handle(&mut session, "playLoadedSound:ACRE_Click,0,0,0,0,0,0,1.5,0,").unwrap_err();
    let volume = refused.volume().map(|bits| f32::from_bits(bits).to_string()).unwrap();
    assert_eq!(
        refused.to_string(&volume),
        "ACRE sound volume 1.5 is outside 0..=1"
    );
    let arity = handle(&mut session, "getClientID:").unwrap_err();
    assert_eq!(
        arity.to_string(""),
        "ACRE RPC getClientID has 0 parameters; expected one"
    );
    let index = handle(&mut session, "updateSelf:0,0,0,0,0,0,NaN,").unwrap_err();
    assert_eq!(
        index.to_string(""),
        "ACRE RPC updateSelf parameter 6 must be a signed integer"
    );
    assert!(index.volume().is_none());
}

#[test]
fn handled_and_sent_procedures_are_known() {
    let mut session = initialized_local_session();
    session.set_voip_metadata(Some(VoipMetadata::new("server", "1", "channel", "2").unwrap()));
    for procedure in ACRE2_V214_WIRE_PROCEDURES.into_iter().chain(["Ping", "unknown"]) {
        let verdict = handle(&mut session, &format!("{procedure}:"));
        if !is_known_v214_procedure(procedure) {
            assert_eq!(
                verdict,
                Err(AcreSessionError::UnsupportedProcedure(procedure.to_owned()))
            );
        } else if let Ok(actions) = verdict {
            for message in sent(&actions) {
                assert!(is_known_v214_procedure(message.procedure()));
            }
        }
    }
}
