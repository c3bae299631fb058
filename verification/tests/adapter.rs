use mumbleacre::adapter::{
    AcreAdapterEvent, AcreSoundWorkerJob, AdapterShared, ACTIVITY_LIMIT, MAX_QUEUED_EVENTS,
};
use mumbleacre::adapter_worker::{AdapterWorker, FlushStep, WriteOutcome};
use mumbleacre::audio_snapshot::AcreAudioUpdate;
use mumbleacre::codec::AcreMessage;
use mumbleacre::logging::LogLevel;
use mumbleacre::peer_state::PeerStateAction;
use mumbleacre::session::{AcreSessionError, VoipMetadata, ACRE2_PLUGIN_VERSION};
use mumbleacre::sound_cache::AcreSoundWorkerResult;
use mumbleacre::transmission::{SpeakingKind, Transmission};

const SECOND: u64 = 1_000_000_000;

struct Plane {
    worker: AdapterWorker,
    shared: AdapterShared,
}

impl Plane {
    fn new() -> Self {
        Self {
            worker: AdapterWorker::new(ACRE2_PLUGIN_VERSION),
            shared: AdapterShared::new(0),
        }
    }

    fn connected() -> Self {
        let mut plane = Self::new();
        assert!(!plane.worker.see_connection(&mut plane.shared, Ok(true)));
        assert_eq!(plane.shared.drain_events(), [AcreAdapterEvent::PipeConnected]);
        plane.shared.set_local_voice_client_id(Some(41));
        plane.shared.take_log();
        plane
    }

    fn handle(&mut self, text: &str, now: u64) -> Option<AcreSessionError> {
        let message = AcreMessage::parse(text.as_bytes()).unwrap();
        let readings: Vec<Option<u32>> = message
            .parameters()
            .iter()
            .map(|parameter| parameter.parse::<f32>().ok().map(f32::to_bits))
            .collect();
        self.worker
            .handle_message(&mut self.shared, &message, &readings, Some("1.000000"), now)
    }

    fn written(&mut self) -> Vec<String> {
        let mut written = Vec::new();
        while let Some(message) = self.worker.next_outbound() {
            written.push(message.encode_text());
            assert_eq!(
                self.worker.see_write(&mut self.shared, WriteOutcome::Written),
                FlushStep::WriteOn
            );
        }
        written
    }
}

fn remote(id: u32) -> Transmission {
    Transmission::new(id, 0, "2:remote", SpeakingKind::Direct, "", 1.0f32.to_bits()).unwrap()
}

#[test]
fn a_connection_answers_the_game_and_tells_the_control_plane() {
    let mut plane = Plane::connected();
    assert!(plane.worker.is_connected());
    assert_eq!(plane.handle("ping:", SECOND), None);
    assert_eq!(plane.handle("getClientID:2:1234,", SECOND), None);
    assert_eq!(plane.handle("startRadioSpeaking:ACRE_PRC152,", SECOND), None);
    assert_eq!(
        plane.written(),
        [
            "pong:1.000000,",
            "handleGetClientID:41,2:1234,",
            "localStartSpeaking:41,0,1,ACRE_PRC152,"
        ]
    );
    assert!(matches!(
        plane.shared.drain_events().as_slice(),
        [AcreAdapterEvent::LocalTransmissionStarted(transmission)]
            if transmission.radio_id() == "ACRE_PRC152"
    ));
    assert!(plane.shared.take_capture_close());
    assert!(!plane.shared.take_capture_close());
    assert_eq!(plane.shared.direct().unwrap().net_id(), "2:1234");
}

#[test]
fn a_silent_game_is_not_healthy() {
    let mut plane = Plane::connected();
    plane.handle("ping:", 2 * SECOND);
    assert!(plane.shared.healthy(2 * SECOND + ACTIVITY_LIMIT - 1));
    assert!(!plane.shared.healthy(2 * SECOND + ACTIVITY_LIMIT));
}

#[test]
fn a_lost_connection_leaves_nothing_behind() {
    let mut plane = Plane::connected();
    plane.handle("getClientID:2:1234,", 1);
    plane.handle("updateSelf:1,2,3,0,1,0,7,", 1);
    plane.handle("updateSpeakingData:m,9,0,", 1);
    assert!(plane.worker.see_connection(&mut plane.shared, Ok(false)));
    assert!(!plane.worker.is_connected());
    assert!(plane.worker.next_outbound().is_none());
    assert!(plane.shared.drain_audio_updates().is_empty());
    assert!(plane.shared.direct().is_none());
    assert!(plane.shared.is_current_sound_generation(1));
    assert_eq!(plane.shared.drain_events(), [AcreAdapterEvent::PipeDisconnected]);
    assert!(!plane.worker.see_connection(&mut plane.shared, Ok(false)));
}

#[test]
fn a_requested_reset_disconnects_once() {
    let mut plane = Plane::connected();
    plane.shared.request_reset();
    assert!(plane.worker.begin(&mut plane.shared));
    assert!(!plane.worker.begin(&mut plane.shared));
    assert_eq!(plane.shared.drain_events(), [AcreAdapterEvent::PipeDisconnected]);
}

#[test]
fn failures_of_the_pipes_are_told() {
    let mut plane = Plane::connected();
    assert!(plane
        .worker
        .see_connection(&mut plane.shared, Err("no pipe".to_owned())));
    assert_eq!(
        plane.shared.drain_events(),
        [
            AcreAdapterEvent::PipeError("no pipe".to_owned()),
            AcreAdapterEvent::PipeDisconnected
        ]
    );
    let mut broken = Plane::connected();
    assert!(broken
        .worker
        .see_read_failure(&mut broken.shared, true, "gone".to_owned()));
    let mut odd = Plane::connected();
    assert!(!odd
        .worker
        .see_read_failure(&mut odd.shared, false, "odd".to_owned()));
    assert_eq!(
        odd.shared.drain_events(),
        [AcreAdapterEvent::PipeError("odd".to_owned())]
    );
}

#[test]
fn writes_go_on_rest_or_disconnect() {
    let mut plane = Plane::connected();
    plane.handle("ping:", 1);
    assert_eq!(
        plane.worker.see_write(&mut plane.shared, WriteOutcome::WouldBlock),
        FlushStep::Rest
    );
    assert!(plane.worker.next_outbound().is_some());
    assert_eq!(
        plane.worker.see_write(&mut plane.shared, WriteOutcome::Broken),
        FlushStep::Disconnect
    );
    assert!(plane.worker.next_outbound().is_none());
    let mut failing = Plane::connected();
    failing.handle("ping:", 1);
    assert_eq!(
        failing
            .worker
            .see_write(&mut failing.shared, WriteOutcome::Failed("no room".to_owned())),
        FlushStep::WriteOn
    );
    assert_eq!(
        failing.shared.drain_events()[0],
        AcreAdapterEvent::PipeError("no room".to_owned())
    );
    assert!(failing.worker.next_outbound().is_none());
}

#[test]
fn refused_messages_are_returned_and_rejected() {
    let mut plane = Plane::connected();
    let refusal = plane.handle("updateSelf:1,", SECOND).unwrap();
    assert!(plane.shared.drain_events().is_empty());
    plane.worker.reject(&mut plane.shared, refusal.to_string(""));
    assert_eq!(
        plane.shared.drain_events(),
        [AcreAdapterEvent::RejectedMessage(
            "ACRE RPC updateSelf has 1 parameters; expected the expected number of".to_owned()
        )]
    );
    assert!(!plane.shared.healthy(ACTIVITY_LIMIT));
}

#[test]
fn peers_reach_the_game_in_order() {
    let mut plane = Plane::connected();
    plane
        .shared
        .enqueue_peer_actions(vec![
            PeerStateAction::TransmissionStarted(remote(9)),
            PeerStateAction::TransmissionStopped(remote(9)),
        ])
        .unwrap();
    assert!(plane.worker.dispatch_queued_peer_actions(&mut plane.shared).is_none());
    assert_eq!(
        plane.written(),
        [
            "remoteStartSpeaking:9,0,2:remote,0,,",
            "remoteStopSpeaking:9,2:remote,0,,"
        ]
    );
    let many = (0..257).map(|id| PeerStateAction::Reset { voice_client_id: id }).collect();
    assert!(plane.shared.enqueue_peer_actions(many).is_err());
}

#[test]
fn native_speech_is_told_to_the_game() {
    let mut plane = Plane::connected();
    let direct =
        Transmission::new(41, 7, "2:1", SpeakingKind::Direct, "", 1.0f32.to_bits()).unwrap();
    assert!(plane.shared.notify_direct(&direct, true));
    assert!(plane.shared.notify_direct(&direct, false));
    plane.worker.settle(&mut plane.shared, 1);
    assert_eq!(
        plane.written(),
        ["localStartSpeaking:41,7,0,,", "localStopSpeaking:41,0,,"]
    );
}

#[test]
fn lost_events_are_announced_by_one_overflow() {
    let mut shared = AdapterShared::new(0);
    for _ in 0..MAX_QUEUED_EVENTS {
        shared.push_event(AcreAdapterEvent::ResetRequested);
    }
    shared.push_event(AcreAdapterEvent::PipeConnected);
    let events = shared.drain_events();
    assert!(events.len() <= MAX_QUEUED_EVENTS);
    assert!(events.contains(&AcreAdapterEvent::QueueOverflow));
}

#[test]
fn speaking_updates_are_kept_per_speaker() {
    let mut plane = Plane::connected();
    plane.handle("updateSpeakingData:m,9,0,", 1);
    plane.handle("updateSpeakingData:s,9,0,0.5,", 1);
    plane.handle("updateSpeakingData:m,3,0,", 1);
    plane.handle("updateSelf:1,2,3,0,1,0,7,", 1);
    let updates = plane.shared.drain_audio_updates();
    assert_eq!(updates.len(), 3);
    assert!(matches!(updates[0], AcreAudioUpdate::Listener(_)));
    assert!(plane.shared.drain_audio_updates().is_empty());
    for id in 0..200 {
        plane.handle(&format!("updateSpeakingData:m,{id},0,"), 1);
    }
    assert_eq!(plane.shared.drain_audio_updates().len(), 128);
    assert_eq!(plane.shared.take_dropped_speaking_updates(), 72);
    assert_eq!(plane.shared.take_dropped_speaking_updates(), 0);
}

#[test]
fn sound_jobs_and_reports_carry_their_generation() {
    let mut plane = Plane::connected();
    plane.handle("loadSound:ACRE_Click,0,1,QUJD,", 1);
    plane.handle("playLoadedSound:ACRE_Click,0,0,0,0,0,0,1,0,", 1);
    let id = match plane.shared.take_sound_job().unwrap() {
        AcreSoundWorkerJob::Load { generation, sound, .. } => {
            assert_eq!(generation, 0);
            sound.sound_id()
        }
        other => panic!("expected a load, got {other:?}"),
    };
    assert!(matches!(
        plane.shared.take_sound_job(),
        Some(AcreSoundWorkerJob::Play { generation: 0, .. })
    ));
    assert!(plane.shared.take_sound_job().is_none());

    plane.shared.push_sound_result(AcreSoundWorkerResult::LoadFailed {
        generation: 0,
        id,
        reason: "bad".to_owned(),
    });
    plane.worker.settle(&mut plane.shared, 2);
    assert_eq!(plane.written(), ["handleLoadedSound:ACRE_Click,0"]);
    let log = plane.shared.take_log();
    assert_eq!(log.last().unwrap().level, LogLevel::Warn);
    assert_eq!(log.last().unwrap().name, "acre_sound_load_failed");
    assert_eq!(log.last().unwrap().message, "id=ACRE_Click reason=bad");
}

#[test]
fn reports_from_before_a_reset_are_void() {
    let mut plane = Plane::connected();
    plane.handle("loadSound:ACRE_Click,0,1,QUJD,", 1);
    let sound = match plane.shared.take_sound_job().unwrap() {
        AcreSoundWorkerJob::Load { sound, .. } => sound,
        other => panic!("expected a load, got {other:?}"),
    };
    assert_eq!(plane.handle("ext_reset:41,", 2), None);
    assert_eq!(plane.shared.drain_events(), [AcreAdapterEvent::ResetRequested]);
    plane.shared.push_sound_result(AcreSoundWorkerResult::PlaybackReady {
        generation: 0,
        id: sound.sound_id(),
        file: "a.wav".to_owned(),
    });
    plane.worker.settle(&mut plane.shared, 3);
    assert!(plane.shared.drain_events().is_empty());
    plane.shared.push_sound_result(AcreSoundWorkerResult::PlaybackReady {
        generation: 1,
        id: sound.sound_id(),
        file: "b.wav".to_owned(),
    });
    plane.worker.settle(&mut plane.shared, 3);
    assert!(matches!(
        plane.shared.drain_events().as_slice(),
        [AcreAdapterEvent::SoundPlaybackReady { generation: 1, file, .. }] if file == "b.wav"
    ));
    assert!(plane.shared.enqueue_sound_error(&sound.sound_id()));
    plane.worker.settle(&mut plane.shared, 4);
    assert_eq!(plane.written(), ["handleSoundError:ACRE_Click,"]);
}

#[test]
fn rested_transfers_are_logged() {
    let mut plane = Plane::connected();
    plane.handle("loadSound:ACRE_Click,1,3,QUJD,", 1);
    plane.worker.settle(&mut plane.shared, 100 * SECOND);
    let log = plane.shared.take_log();
    assert_eq!(log.last().unwrap().name, "acre_sound_load_expired");
    assert_eq!(log.last().unwrap().message, "id=ACRE_Click");
}

#[test]
fn a_stopped_sound_worker_takes_no_jobs() {
    let mut plane = Plane::connected();
    plane.shared.stop();
    plane.handle("playLoadedSound:ACRE_Click,0,0,0,0,0,0,1,0,", 1);
    assert!(plane.shared.take_sound_job().is_none());
    assert_eq!(plane.written(), ["handleSoundError:ACRE_Click,"]);
}

#[test]
fn the_place_is_told_on_request() {
    let mut plane = Plane::connected();
    plane
        .shared
        .set_voip_metadata(Some(VoipMetadata::new("Mumble", "uid", "Lobby", "3").unwrap()));
    assert_eq!(plane.handle("getVOIPChannelName:", 1), None);
    assert_eq!(plane.written(), ["handleGetVOIPChannelName:Lobby"]);
    assert!(plane.worker.may_read(255));
    assert!(!plane.worker.may_read(256));
}

#[test]
fn a_reset_by_the_game_clears_the_sounds_and_a_lost_pipe_keeps_them() {
    let mut plane = Plane::connected();
    plane.handle("loadSound:ACRE_Click,0,1,QUJD,", 1);
    assert!(matches!(
        plane.shared.take_sound_job(),
        Some(AcreSoundWorkerJob::Load { generation: 0, epoch: 0, .. })
    ));
    assert!(plane.worker.see_connection(&mut plane.shared, Ok(false)));
    assert!(plane.shared.take_sound_job().is_none());
    assert!(!plane.worker.see_connection(&mut plane.shared, Ok(true)));
    plane.handle("playLoadedSound:ACRE_Click,0,0,0,0,0,0,1,0,", 2);
    assert!(matches!(
        plane.shared.take_sound_job(),
        Some(AcreSoundWorkerJob::Play { generation: 1, epoch: 0, .. })
    ));
    assert_eq!(plane.handle("ext_reset:41,", 3), None);
    assert_eq!(plane.shared.take_sound_job(), Some(AcreSoundWorkerJob::Clear));
    plane.handle("playLoadedSound:ACRE_Click,0,0,0,0,0,0,1,0,", 4);
    assert!(matches!(
        plane.shared.take_sound_job(),
        Some(AcreSoundWorkerJob::Play { generation: 2, epoch: 1, .. })
    ));
    for _ in 0..32 {
        plane.handle("playLoadedSound:ACRE_Click,0,0,0,0,0,0,1,0,", 5);
    }
    plane.handle("ext_reset:41,", 6);
    assert!(plane.shared.take_log().iter().any(|line| {
        line.level == LogLevel::Warn
            && line.name == "acre_sound_clear_dropped"
            && line.message == "reason=ACRE sound worker queue is full"
    }));
}

#[test]
fn only_a_pipe_that_was_lost_counts_as_lost() {
    let mut plane = Plane::connected();
    assert!(!plane.shared.take_pipe_loss());
    plane.shared.request_reset();
    assert!(plane.worker.begin(&mut plane.shared));
    assert!(!plane.shared.take_pipe_loss());
    plane.worker.see_connection(&mut plane.shared, Err("no pipe".to_owned()));
    assert!(!plane.shared.take_pipe_loss());
    plane.worker.see_connection(&mut plane.shared, Ok(true));
    plane.worker.see_connection(&mut plane.shared, Ok(false));
    assert!(plane.shared.take_pipe_loss());
    assert!(!plane.shared.take_pipe_loss());
    plane.worker.see_connection(&mut plane.shared, Ok(true));
    plane.worker.see_read_failure(&mut plane.shared, true, "broken".to_owned());
    assert!(plane.shared.take_pipe_loss());
}
