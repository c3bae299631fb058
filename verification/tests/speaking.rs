use mumbleacre::codec::AcreMessage;
use mumbleacre::peer::{PeerPayload, PeerSpeakingKind};
use mumbleacre::sound::AcreSoundError;
use mumbleacre::speaking::{
    parse_update_speaking_data, AcreSpeakerAudioUpdate, AcreSpeakerVector, AcreSpeakingDataError,
    AcreVoiceCurveModel, RadioReceptionPath, SpatialSpeakingKind, SpeakingDecision, SpeakingUpdate,
    ACRE_MAX_RADIO_RECEPTION_PATHS,
};
use mumbleacre::transmission::{SpeakingKind, Transmission};

fn parse(text: &str) -> Result<SpeakingUpdate, AcreSpeakingDataError> {
    let message = AcreMessage::parse(text.as_bytes()).unwrap();
    let readings: Vec<Option<u32>> = message
        .parameters()
        .iter()
        .map(|parameter| parameter.parse::<f32>().ok().map(f32::to_bits))
        .collect();
    parse_update_speaking_data(&message, &readings)
}

fn vector(x: f32, z: f32, y: f32) -> AcreSpeakerVector {
    AcreSpeakerVector {
        x: x.to_bits(),
        z: z.to_bits(),
        y: y.to_bits(),
    }
}

#[test]
fn parses_direct_intercom_and_zeus_layouts() {
    let direct = parse("updateSpeakingData:d,42,1,0.75,100,300,200,0,1,0,").unwrap();
    assert_eq!(direct.speaker_id, 42);
    assert!(direct.speaks_babel);
    assert_eq!(
        direct.decision,
        SpeakingDecision::Spatial {
            kind: SpatialSpeakingKind::Direct,
            volume: 0.75f32.to_bits(),
            position: vector(100.0, 300.0, 200.0),
            head_vector: vector(0.0, 1.0, 0.0),
        }
    );

    for (kind, expected) in [
        ("i", SpatialSpeakingKind::Intercom),
        ("z", SpatialSpeakingKind::Zeus),
    ] {
        let parsed = parse(&format!("updateSpeakingData:{kind},42,0,1,0,0,0,0,1,0,")).unwrap();
        assert!(matches!(
            parsed.decision,
            SpeakingDecision::Spatial { kind, .. } if kind == expected
        ));
    }
}

#[test]
fn parses_all_radio_paths_without_recomputing_radio_logic() {
    let parsed =
        parse("updateSpeakingData:r,42,0,2,0.9,1,2,0,10,30,20,0.5,0.8,3,1,40,60,50,").unwrap();
    assert_eq!(
        parsed.decision,
        SpeakingDecision::Radio {
            paths: vec![
                RadioReceptionPath {
                    volume: 0.9f32.to_bits(),
                    signal_quality: 1.0f32.to_bits(),
                    signal_model: 2.0f32.to_bits(),
                    loudspeaker: false,
                    position: vector(10.0, 30.0, 20.0),
                },
                RadioReceptionPath {
                    volume: 0.5f32.to_bits(),
                    signal_quality: 0.8f32.to_bits(),
                    signal_model: 3.0f32.to_bits(),
                    loudspeaker: true,
                    position: vector(40.0, 60.0, 50.0),
                },
            ],
        }
    );
}

#[test]
fn parses_mute_spectator_and_god() {
    let mute = parse("updateSpeakingData:m,8,0,").unwrap();
    assert_eq!(mute.decision, SpeakingDecision::Mute);

    let spectator = parse("updateSpeakingData:s,8,0,0.6,").unwrap();
    assert_eq!(
        spectator.decision,
        SpeakingDecision::Spectator {
            volume: 0.6f32.to_bits()
        }
    );

    let god = parse("updateSpeakingData:g,8,0,0.9,").unwrap();
    assert_eq!(
        god.decision,
        SpeakingDecision::God {
            volume: 0.9f32.to_bits()
        }
    );
}

#[test]
fn rejects_bad_arity_counts_and_non_finite_values_without_a_partial_decision() {
    assert!(matches!(
        parse("updateSpeakingData:r,42,0,2,0.9,1,2,0,10,30,20,"),
        Err(AcreSpeakingDataError::WrongArity { .. })
    ));
    assert!(matches!(
        parse("updateSpeakingData:d,42,0,NaN,0,0,0,0,1,0,"),
        Err(AcreSpeakingDataError::InvalidFloat { index: 3 })
    ));
    assert!(matches!(
        parse("updateSpeakingData:q,42,0,"),
        Err(AcreSpeakingDataError::UnsupportedSpeakingKind(_))
    ));
    let too_many_paths = format!(
        "updateSpeakingData:r,42,0,{},",
        ACRE_MAX_RADIO_RECEPTION_PATHS + 1
    );
    assert!(matches!(
        parse(&too_many_paths),
        Err(AcreSpeakingDataError::RadioPathCountTooLarge)
    ));
}

#[test]
fn every_speaking_error_has_an_input() {
    assert!(matches!(
        parse("ping:"),
        Err(AcreSpeakingDataError::UnexpectedProcedure(_))
    ));
    assert_eq!(
        parse("updateSpeakingData:m,x,0,"),
        Err(AcreSpeakingDataError::InvalidUnsigned { index: 1 })
    );
    assert_eq!(
        parse("updateSpeakingData:m,8,2,"),
        Err(AcreSpeakingDataError::InvalidBinaryFlag { index: 2 })
    );
    assert_eq!(
        AcreVoiceCurveModel::try_from(4),
        Err(AcreSpeakingDataError::InvalidVoiceCurveModel { model: 4 })
    );
    assert_eq!(
        AcreVoiceCurveModel::try_from(-1).unwrap_err().to_string(),
        "ACRE voice curve model -1 is unsupported"
    );
    let mute = parse("updateSpeakingData:m,8,0,").unwrap();
    assert_eq!(
        AcreSpeakerAudioUpdate::new(mute, f32::INFINITY.to_bits()),
        Err(AcreSpeakingDataError::InvalidCurveScale)
    );
}

#[test]
fn both_zeros_are_one_number() {
    let zero = 0.0f32.to_bits();
    let negative = (-0.0f32).to_bits();
    let nan = f32::NAN.to_bits();
    let vector = |x: u32| AcreSpeakerVector { x, z: zero, y: zero };
    assert_eq!(vector(zero), vector(negative));
    assert_ne!(vector(nan), vector(nan));
    assert_ne!(vector(zero), vector(1.0f32.to_bits()));
    let path = |volume: u32| RadioReceptionPath {
        volume,
        signal_quality: zero,
        signal_model: zero,
        loudspeaker: false,
        position: vector(negative),
    };
    let radio = |volume: u32| SpeakingDecision::Radio { paths: vec![path(volume)] };
    assert_eq!(radio(zero), radio(negative));
    assert_ne!(radio(zero), SpeakingDecision::Radio { paths: Vec::new() });
    assert_ne!(radio(zero), SpeakingDecision::Spectator { volume: zero });
    assert_eq!(
        SpeakingDecision::God { volume: zero },
        SpeakingDecision::God { volume: negative }
    );
    let transmission = |scale: u32| {
        Transmission::new(1, 0, "1:2", SpeakingKind::Direct, "", scale).unwrap()
    };
    assert_eq!(transmission(zero), transmission(negative));
    assert_ne!(transmission(zero), transmission(1.0f32.to_bits()));
    let start = |curve_scale: u32| PeerPayload::Start {
        kind: PeerSpeakingKind::Direct,
        net_id: "1:2".to_owned(),
        radio_id: String::new(),
        language_id: 0,
        curve_scale,
    };
    assert_eq!(start(zero), start(negative));
    assert_ne!(start(nan), start(nan));
    assert_ne!(start(zero), PeerPayload::Reset);
    assert_eq!(
        AcreSoundError::InvalidVolume { volume: zero },
        AcreSoundError::InvalidVolume { volume: negative }
    );
    assert_ne!(
        AcreSoundError::InvalidVolume { volume: nan },
        AcreSoundError::InvalidVolume { volume: nan }
    );
}
