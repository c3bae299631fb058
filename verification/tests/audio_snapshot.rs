use mumbleacre::audio_snapshot::{
    AcreAudioSnapshotBuilder, AcreAudioSnapshotError, AcreAudioUpdate,
};
use mumbleacre::speaking::{
    AcreListenerPose, AcreListenerState, AcreSpeakerAudioUpdate, AcreSpeakerVector,
    AcreVoiceCurveModel, RadioReceptionPath, SpatialSpeakingKind, SpeakingDecision, SpeakingUpdate,
};

const MILLISECOND: u64 = 1_000_000;

fn vector(x: f32, z: f32, y: f32) -> AcreSpeakerVector {
    AcreSpeakerVector {
        x: x.to_bits(),
        z: z.to_bits(),
        y: y.to_bits(),
    }
}

fn near(bits: u32, expected: f32) -> bool {
    (f32::from_bits(bits) - expected).abs() < f32::EPSILON
}

fn direct(speaker_id: u32, volume: f32) -> SpeakingUpdate {
    SpeakingUpdate {
        speaker_id,
        speaks_babel: false,
        decision: SpeakingDecision::Spatial {
            kind: SpatialSpeakingKind::Direct,
            volume: volume.to_bits(),
            position: vector(10.0, 30.0, 20.0),
            head_vector: vector(0.0, 1.0, 0.0),
        },
    }
}

fn listener() -> AcreListenerState {
    AcreListenerState {
        pose: AcreListenerPose {
            position: vector(1.0, 3.0, 2.0),
            head_vector: vector(0.0, 1.0, 0.0),
        },
        curve_model: AcreVoiceCurveModel::SelectableB,
    }
}

#[test]
fn preserves_session_generation_sequence_and_timestamp() {
    let at = 7_000;
    let mut builder = AcreAudioSnapshotBuilder::default();
    let snapshot = builder.apply(direct(42, 0.75), at).unwrap();
    let speaker = snapshot.speaker(42).unwrap();

    assert_eq!(snapshot.generation(), 1);
    assert_eq!(snapshot.sequence(), 1);
    assert_eq!(snapshot.published_at(), at);
    assert_eq!(speaker.speaker_id(), 42);
    assert_eq!(speaker.generation(), 1);
    assert_eq!(speaker.sequence(), 1);
    assert_eq!(speaker.published_at(), at);
    assert!(speaker.is_fresh(MILLISECOND, at));
    assert!(near(speaker.curve_scale(), 1.0));
    let SpeakingDecision::Spatial { kind, volume, .. } = speaker.decision() else {
        panic!("expected direct spatial decision");
    };
    assert_eq!(*kind, SpatialSpeakingKind::Direct);
    assert!(near(*volume, 0.75));
}

#[test]
fn retains_the_listener_pose_with_the_same_generation_as_speakers() {
    let at = 7_000;
    let mut builder = AcreAudioSnapshotBuilder::default();
    let listener_snapshot = builder
        .apply_update(AcreAudioUpdate::Listener(listener()), at)
        .unwrap();
    let snapshot = builder
        .apply_update(
            AcreAudioUpdate::Speaker(AcreSpeakerAudioUpdate::from(direct(42, 0.75))),
            at,
        )
        .unwrap();

    let listener_state = listener_snapshot.listener().unwrap();
    assert_eq!(listener_state.generation(), 1);
    assert_eq!(listener_state.sequence(), 1);
    assert_eq!(listener_state.state(), listener());
    assert_eq!(
        listener_state.curve_model(),
        AcreVoiceCurveModel::SelectableB
    );
    assert_eq!(snapshot.generation(), 1);
    assert_eq!(snapshot.sequence(), 2);
    assert_eq!(snapshot.listener().unwrap().sequence(), 1);
    assert_eq!(snapshot.speaker(42).unwrap().sequence(), 2);
}

#[test]
fn capacity_rejection_preserves_the_last_valid_snapshot() {
    let at = 7_000;
    let mut builder = AcreAudioSnapshotBuilder::with_max_speakers(1).unwrap();
    let valid = builder.apply(direct(1, 0.5), at).unwrap();

    assert!(matches!(
        builder.apply(direct(2, 0.6), at),
        Err(AcreAudioSnapshotError::TooManySpeakers { limit: 1 })
    ));
    let retained = builder.snapshot(at);
    assert_eq!(retained.sequence(), valid.sequence());
    assert!(retained.speaker(1).is_some());
    assert!(retained.speaker(2).is_none());
}

#[test]
fn reset_invalidates_every_prior_speaker_in_a_new_generation() {
    let at = 7_000;
    let mut builder = AcreAudioSnapshotBuilder::default();
    builder.apply_listener(listener(), at).unwrap();
    builder.apply(direct(7, 1.0), at).unwrap();

    let reset = builder.reset(at).unwrap();
    assert_eq!(reset.generation(), 2);
    assert_eq!(reset.sequence(), 0);
    assert!(reset.listener().is_none());
    assert_eq!(reset.speaker_count(), 0);
}

#[test]
fn preserves_every_radio_path_without_recomputing_acre_routing() {
    let at = 7_000;
    let update = SpeakingUpdate {
        speaker_id: 8,
        speaks_babel: true,
        decision: SpeakingDecision::Radio {
            paths: vec![
                RadioReceptionPath {
                    volume: 0.8f32.to_bits(),
                    signal_quality: 0.7f32.to_bits(),
                    signal_model: 2.0f32.to_bits(),
                    loudspeaker: false,
                    position: vector(1.0, 3.0, 2.0),
                },
                RadioReceptionPath {
                    volume: 0.4f32.to_bits(),
                    signal_quality: 0.9f32.to_bits(),
                    signal_model: 3.0f32.to_bits(),
                    loudspeaker: true,
                    position: vector(4.0, 6.0, 5.0),
                },
            ],
        },
    };
    let mut builder = AcreAudioSnapshotBuilder::default();
    let snapshot = builder.apply(update, at).unwrap();
    let speaker = snapshot.speaker(8).unwrap();

    assert!(speaker.speaks_babel());
    let SpeakingDecision::Radio { paths } = speaker.decision() else {
        panic!("expected radio decision");
    };
    assert_eq!(paths.len(), 2);
    assert!(near(paths[0].volume, 0.8));
    assert!(paths[1].loudspeaker);
    assert!(near(paths[1].position.y, 5.0));
}

#[test]
fn publishes_complete_snapshots_and_resets_generation() {
    let at = 1;
    let mut builder = AcreAudioSnapshotBuilder::default();
    let initial = builder.snapshot(at);
    assert_eq!(initial.generation(), 1);
    assert_eq!(initial.speaker_count(), 0);

    let published = builder
        .apply_update(
            AcreAudioUpdate::Speaker(AcreSpeakerAudioUpdate::from(direct(44, 0.5))),
            at,
        )
        .unwrap();
    assert_eq!(published.generation(), 1);
    assert_eq!(published.sequence(), 1);
    assert!(published.speaker(44).is_some());

    let heard = builder
        .apply_update(AcreAudioUpdate::Listener(listener()), at)
        .unwrap();
    assert!(heard.listener().is_some());

    let reset = builder.reset(at).unwrap();
    assert_eq!(reset.generation(), 2);
    assert_eq!(reset.speaker_count(), 0);
}

#[test]
fn decisions_go_stale_after_their_lifetime() {
    let mut builder = AcreAudioSnapshotBuilder::default();
    let snapshot = builder.apply(direct(1, 0.5), 100).unwrap();
    let speaker = snapshot.speaker(1).unwrap();
    assert!(speaker.is_fresh(10, 110));
    assert!(!speaker.is_fresh(10, 111));
    assert!(speaker.is_fresh(10, 0));
}

#[test]
fn full_builders_still_refresh_and_forget_known_speakers() {
    let mut builder = AcreAudioSnapshotBuilder::with_max_speakers(1).unwrap();
    builder.apply(direct(1, 0.5), 1).unwrap();
    assert_eq!(builder.apply(direct(1, 0.25), 2).unwrap().sequence(), 2);
    let without = builder.remove_speaker(1, 3).unwrap();
    assert_eq!(without.speaker_count(), 0);
    assert!(builder.apply(direct(2, 0.5), 4).is_ok());
    assert_eq!(
        AcreAudioSnapshotBuilder::with_max_speakers(0).unwrap_err(),
        AcreAudioSnapshotError::ZeroSpeakerCapacity
    );
    assert_eq!(
        AcreAudioSnapshotError::TooManySpeakers { limit: 1 }.to_string(),
        "ACRE audio snapshot supports at most 1 speakers"
    );
}
