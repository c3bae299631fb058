use mumbleacre::audio_snapshot::{AcreAudioSnapshot, AcreAudioSnapshotBuilder, AcreAudioUpdate};
use mumbleacre::control::LEASE;
use mumbleacre::render::{
    buffer_samples, direct_source, draw_noise, intercom_source, is_fit_sample_rate, is_fit_shape,
    monitor_plan, must_reset, mute, path_seed, radio_paths, radio_source, route, slot_of,
    source_step, BabelMode, BabelStep, Foldback, RenderKind, SlotKey, SourceStep,
    ACRE_AUDIO_STATE_TTL,
};
use mumbleacre::speaking::{
    AcreListenerPose, AcreListenerState, AcreSpeakerVector, AcreVoiceCurveModel,
    RadioReceptionPath, SpatialSpeakingKind, SpeakingDecision, SpeakingUpdate,
    ACRE_MAX_RADIO_RECEPTION_PATHS,
};

const NOW: u64 = 1_000_000_000;
const MILLISECOND: u64 = 1_000_000;

fn vector(x: f32, y: f32, z: f32) -> AcreSpeakerVector {
    AcreSpeakerVector {
        x: x.to_bits(),
        z: z.to_bits(),
        y: y.to_bits(),
    }
}

fn listener() -> AcreListenerState {
    AcreListenerState {
        pose: AcreListenerPose {
            position: vector(10.0, 0.0, 0.0),
            head_vector: vector(0.0, 0.0, 1.0),
        },
        curve_model: AcreVoiceCurveModel::Original,
    }
}

fn speaker(decision: SpeakingDecision) -> AcreAudioUpdate {
    AcreAudioUpdate::Speaker(
        SpeakingUpdate {
            speaker_id: 42,
            speaks_babel: false,
            decision,
        }
        .into(),
    )
}

fn snapshot(decision: SpeakingDecision) -> AcreAudioSnapshot {
    let mut builder = AcreAudioSnapshotBuilder::default();
    builder.apply_update(speaker(decision), NOW).unwrap()
}

fn heard_snapshot(decision: SpeakingDecision) -> AcreAudioSnapshot {
    let mut builder = AcreAudioSnapshotBuilder::default();
    builder
        .apply_update(AcreAudioUpdate::Listener(listener()), NOW)
        .unwrap();
    builder.apply_update(speaker(decision), NOW).unwrap()
}

fn spatial(kind: SpatialSpeakingKind) -> SpeakingDecision {
    SpeakingDecision::Spatial {
        kind,
        volume: 0.8f32.to_bits(),
        position: vector(0.0, 0.0, 1.0),
        head_vector: vector(0.0, 0.0, -1.0),
    }
}

fn path(volume: f32, loudspeaker: bool) -> RadioReceptionPath {
    RadioReceptionPath {
        volume: volume.to_bits(),
        signal_quality: 0.8f32.to_bits(),
        signal_model: 2.0f32.to_bits(),
        loudspeaker,
        position: vector(-2.0, 0.0, 0.0),
    }
}

#[test]
fn god_and_spectator_use_their_acre_volume_without_a_listener() {
    let spectator = snapshot(SpeakingDecision::Spectator {
        volume: 0.6f32.to_bits(),
    });
    let god = snapshot(SpeakingDecision::God {
        volume: 0.9f32.to_bits(),
    });

    let gain = |snapshot| f32::from_bits(monitor_plan(snapshot, 42, NOW).unwrap().gain);
    assert!((gain(&spectator) - 0.6).abs() < f32::EPSILON);
    assert!((gain(&god) - 0.9).abs() < f32::EPSILON);
}

#[test]
fn represents_a_valid_empty_radio_decision_as_silence() {
    let snapshot = heard_snapshot(SpeakingDecision::Radio { paths: Vec::new() });
    let (pose, paths) =
        radio_paths(&snapshot, 42, NOW, ACRE_MAX_RADIO_RECEPTION_PATHS).unwrap();
    assert_eq!(pose, listener().pose);
    assert_eq!(paths.len(), 0);
}

#[test]
fn fails_closed_for_stale_or_non_intercom_decisions() {
    let intercom = heard_snapshot(spatial(SpatialSpeakingKind::Intercom));
    let direct = heard_snapshot(spatial(SpatialSpeakingKind::Direct));

    assert_eq!(
        intercom_source(&intercom, 42, NOW + ACRE_AUDIO_STATE_TTL + MILLISECOND),
        None
    );
    assert_eq!(intercom_source(&direct, 42, NOW), None);
    assert!(intercom_source(&intercom, 42, NOW).is_some());
}

#[test]
fn zeus_starts_from_the_same_inputs_as_direct_voice() {
    let direct = heard_snapshot(spatial(SpatialSpeakingKind::Direct));
    let zeus = heard_snapshot(spatial(SpatialSpeakingKind::Zeus));
    let source = direct_source(&direct, 42, NOW).unwrap();
    assert_eq!(direct_source(&zeus, 42, NOW), Some(source));
    assert_eq!(source.listener, listener());
    assert_eq!(source.volume, 0.8f32.to_bits());
    assert_eq!(source.curve_scale, 1.0f32.to_bits());
    assert_eq!(direct_source(&direct, 43, NOW), None);
    assert_eq!(
        direct_source(&snapshot(spatial(SpatialSpeakingKind::Direct)), 42, NOW),
        None
    );
}

#[test]
fn stale_decisions_start_no_renderer() {
    let late = NOW + ACRE_AUDIO_STATE_TTL + 1;
    let direct = heard_snapshot(spatial(SpatialSpeakingKind::Direct));
    assert!(direct_source(&direct, 42, NOW + ACRE_AUDIO_STATE_TTL).is_some());
    assert!(direct_source(&direct, 42, late).is_none());
    let radio = heard_snapshot(SpeakingDecision::Radio {
        paths: vec![path(0.5, true)],
    });
    assert!(radio_paths(&radio, 42, NOW, 1).is_some());
    assert!(radio_paths(&radio, 42, NOW, 0).is_none());
    assert!(radio_paths(&radio, 42, late, 1).is_none());
    assert!(radio_paths(&direct, 42, NOW, 1).is_none());
    let god = snapshot(SpeakingDecision::God {
        volume: 1.0f32.to_bits(),
    });
    assert!(monitor_plan(&god, 42, late).is_none());
}

#[test]
fn radio_paths_start_at_the_listener_or_in_the_world() {
    let pose = listener().pose;
    let world = radio_source(pose, &path(0.5, true), 3).unwrap();
    assert_eq!(world.path_index, 3);
    assert_eq!(world.listener, pose);
    let headset = radio_source(pose, &path(0.5, false), 0).unwrap();
    assert_eq!(headset.listener.position, vector(0.0, 0.0, 0.0));
    assert_eq!(headset.listener.head_vector, vector(0.0, 0.0, 1.0));
    assert_eq!(headset.head_vector, vector(0.0, 0.0, 1.0));

    assert!(radio_source(pose, &path(0.001, true), 0).is_none());
    assert!(radio_source(pose, &path(0.0011, true), 0).is_some());
    for (quality, model) in [(1.1f32, 0.0f32), (-0.1, 0.0), (f32::NAN, 0.0), (1.0, f32::INFINITY)] {
        let unfit = RadioReceptionPath {
            signal_quality: quality.to_bits(),
            signal_model: model.to_bits(),
            ..path(0.5, true)
        };
        assert!(radio_source(pose, &unfit, 0).is_none());
    }
}

#[test]
fn volumes_above_one_are_limited_and_unfit_volumes_are_silent() {
    let plan = |volume: f32| {
        monitor_plan(
            &snapshot(SpeakingDecision::God {
                volume: volume.to_bits(),
            }),
            42,
            NOW,
        )
        .map(|plan| f32::from_bits(plan.gain))
    };
    assert_eq!(plan(3.0), Some(1.0));
    assert_eq!(plan(0.25), Some(0.25));
    assert_eq!(plan(0.001), None);
    assert_eq!(plan(-0.5), None);
}

#[test]
fn voices_need_a_lease_and_a_decision() {
    let direct = heard_snapshot(spatial(SpatialSpeakingKind::Direct));
    assert_eq!(route(None, &direct, 42, NOW), None);
    assert_eq!(route(Some(NOW), &direct, 41, NOW), None);
    assert_eq!(
        route(Some(NOW), &direct, 42, NOW),
        Some(SlotKey {
            id: 42,
            generation: direct.generation(),
            kind: RenderKind::Spatial
        })
    );
    assert!(route(Some(NOW), &direct, 42, NOW + LEASE - 1).is_some());
    assert_eq!(route(Some(NOW), &direct, 42, NOW + LEASE), None);
}

#[test]
fn decisions_reach_their_renderer() {
    let kind = |decision| {
        route(Some(NOW), &snapshot(decision), 42, NOW)
            .map(|key| key.kind)
            .unwrap()
    };
    assert_eq!(kind(spatial(SpatialSpeakingKind::Zeus)), RenderKind::Spatial);
    assert_eq!(kind(spatial(SpatialSpeakingKind::Intercom)), RenderKind::Intercom);
    assert_eq!(kind(SpeakingDecision::Radio { paths: Vec::new() }), RenderKind::Radio);
    assert_eq!(kind(SpeakingDecision::God { volume: 0 }), RenderKind::Monitor);
    assert_eq!(kind(SpeakingDecision::Spectator { volume: 0 }), RenderKind::Monitor);
    assert_eq!(kind(SpeakingDecision::Mute), RenderKind::Silent);

    let mut builder = AcreAudioSnapshotBuilder::default();
    builder
        .apply_update(speaker(spatial(SpatialSpeakingKind::Direct)), NOW)
        .unwrap();
    let muted = builder.apply_update(mute(42), NOW).unwrap();
    assert_eq!(
        route(Some(NOW), &muted, 42, NOW).map(|key| key.kind),
        Some(RenderKind::Silent)
    );
}

#[test]
fn slots_are_reset_between_voices() {
    let key = SlotKey {
        id: 42,
        generation: 1,
        kind: RenderKind::Radio,
    };
    assert!(!must_reset(key, key));
    assert!(must_reset(key, SlotKey { id: 170, ..key }));
    assert!(must_reset(key, SlotKey { generation: 2, ..key }));
    assert!(must_reset(
        key,
        SlotKey {
            kind: RenderKind::Monitor,
            ..key
        }
    ));
    assert_eq!(slot_of(42), slot_of(170));
    assert_eq!(slot_of(255), 127);
}

#[test]
fn buffers_have_the_shape_that_renderers_take() {
    assert!(is_fit_shape(960, 2) && is_fit_shape(1, 1) && is_fit_shape(65_534, 2));
    assert!(!is_fit_shape(0, 1) && !is_fit_shape(3, 2) && !is_fit_shape(65_536, 2));
    assert!(!is_fit_shape(6, 3) && !is_fit_shape(6, 0));
    assert!(is_fit_sample_rate(8_000) && is_fit_sample_rate(192_000));
    assert!(!is_fit_sample_rate(7_999) && !is_fit_sample_rate(192_001));
    assert_eq!(buffer_samples(480, 2, 4), Some(960));
    assert_eq!(buffer_samples(480, 2, 0), None);
    assert_eq!(buffer_samples(u32::MAX, u16::MAX, usize::MAX), None);
    assert_eq!(buffer_samples(0, 2, 4), Some(0));
}

#[test]
fn speech_is_left_silenced_or_rendered() {
    assert_eq!(source_step(false, false, true, true), SourceStep::Untouched);
    assert_eq!(source_step(true, false, true, false), SourceStep::Silence);
    assert_eq!(source_step(true, true, false, true), SourceStep::Untouched);
    assert_eq!(source_step(true, true, true, true), SourceStep::Silence);
    assert_eq!(source_step(true, true, true, false), SourceStep::Render);
}

#[test]
fn noise_is_the_same_for_the_same_path() {
    assert_eq!(path_seed(0, 0), 0xa341_316c);
    assert_eq!(path_seed(42, 0), 42u32.wrapping_mul(0x9e37_79b9) ^ 0xa341_316c);
    assert_ne!(path_seed(42, 0), path_seed(42, 1));
    assert_eq!(draw_noise(0), (1_013_904_223, 15_470));
    assert_eq!(draw_noise(u32::MAX).0, 1_012_239_698);
}

#[test]
fn held_samples_stand_for_their_successors() {
    let mut hold = Foldback {
        value: 0,
        remaining: 0,
    };
    let heard: Vec<u32> = (1..8).map(|sample| hold.pass(sample, 3)).collect();
    assert_eq!(heard, [1, 1, 1, 4, 4, 4, 7]);
    let mut through = Foldback {
        value: 0,
        remaining: 0,
    };
    assert_eq!(through.pass(5, 0), 5);
    assert_eq!(through.pass(6, 1), 6);
}

#[test]
fn babel_is_prepared_for_each_buffer() {
    let mut mode = BabelMode {
        sample_rate: 0,
        enabled: false,
    };
    assert_eq!(mode.prepare(48_000, false), BabelStep::Off);
    assert_eq!(mode.prepare(48_000, true), BabelStep::Rebuild);
    assert_eq!(mode.prepare(48_000, true), BabelStep::On);
    assert_eq!(mode.prepare(48_000, false), BabelStep::TurnOff);
    assert_eq!(mode.prepare(48_000, true), BabelStep::TurnOn);
    assert_eq!(mode.prepare(44_100, true), BabelStep::Rebuild);
    assert_eq!(mode.prepare(1, true), BabelStep::Refuse);
    assert!(!mode.enabled);
    assert_eq!(mode.sample_rate, 44_100);
}
