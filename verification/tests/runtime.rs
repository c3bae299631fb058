use mumbleacre::adapter::{AdapterShared, ACTIVITY_LIMIT};
use mumbleacre::adapter_worker::AdapterWorker;
use mumbleacre::codec::AcreMessage;
use mumbleacre::context::Context;
use mumbleacre::control::{StateMessage, LEASE, REFRESH};
use mumbleacre::runtime::{
    data_step, DataStep, Input, InputQueue, PeerPacket, Runtime, RuntimeEffect, ACRE_CONNECTED,
    ACRE_UNRESPONSIVE, DEFAULT_SCOPE, FILTER_OFF, FILTER_ON, MIN_SEND_INTERVAL,
};
use mumbleacre::transmission::{SpeakingKind, Transmission};

const SECOND: u64 = 1_000_000_000;

struct Client {
    runtime: Runtime,
    shared: AdapterShared,
    worker: AdapterWorker,
}

fn place(channel: i32) -> Option<Context> {
    Context::new(1, 41, channel, &[41, 99], "uid".to_owned(), "Lobby".to_owned())
}

fn state(sequence: u64, active: bool) -> StateMessage {
    let direct =
        Transmission::new(99, 0, "2:remote", SpeakingKind::Direct, "", 1.0f32.to_bits()).unwrap();
    StateMessage::new(DEFAULT_SCOPE, 1, sequence, "2:remote", active.then_some(&direct)).unwrap()
}

fn packet(connection: i32, sender: u32, sequence: u64) -> PeerPacket {
    PeerPacket {
        connection,
        sender,
        state: Some(state(sequence, true)),
    }
}

impl Client {
    fn new() -> Self {
        let mut client = Self {
            runtime: Runtime::new(DEFAULT_SCOPE, 1, 0).unwrap(),
            shared: AdapterShared::new(0),
            worker: AdapterWorker::new("2.14.0.1064"),
        };
        client.tick(Vec::new(), 0);
        client.worker.begin(&mut client.shared);
        client.tick(Vec::new(), 0);
        client
    }

    fn tell(&mut self, text: &str, now: u64) {
        let message = AcreMessage::parse(text.as_bytes()).unwrap();
        let readings: Vec<Option<u32>> = message
            .parameters()
            .iter()
            .map(|parameter| parameter.parse::<f32>().ok().map(f32::to_bits))
            .collect();
        assert!(self
            .worker
            .handle_message(&mut self.shared, &message, &readings, Some("0.000000"), now)
            .is_none());
    }

    fn tick_at(
        &mut self,
        context: Option<Context>,
        overflowed: bool,
        packets: Vec<PeerPacket>,
        now: u64,
    ) -> Vec<RuntimeEffect> {
        let mut effects = Vec::new();
        self.runtime
            .tick(&mut self.shared, &mut effects, context, overflowed, packets, now);
        effects
    }

    fn tick(&mut self, packets: Vec<PeerPacket>, now: u64) -> Vec<RuntimeEffect> {
        self.tick_at(place(3), false, packets, now)
    }

    fn conclude(&mut self, native: bool, now: u64) -> (Vec<RuntimeEffect>, Option<StateMessage>) {
        let mut effects = Vec::new();
        let state = self
            .runtime
            .conclude(&mut self.shared, &mut effects, native, now);
        (effects, state)
    }

    fn sent(&mut self, success: bool) -> Vec<RuntimeEffect> {
        let mut effects = Vec::new();
        self.runtime.sent(&self.shared, &mut effects, success);
        effects
    }

    fn end(&mut self) -> Vec<RuntimeEffect> {
        let mut effects = Vec::new();
        self.runtime.end_tick(&mut self.shared, &mut effects);
        effects
    }

    fn connected() -> Self {
        let mut client = Self::new();
        client.worker.see_connection(&mut client.shared, Ok(true));
        client.tell("getClientID:2:1234,", SECOND);
        client.tick(Vec::new(), SECOND);
        client.end();
        client
    }
}

fn announced(effects: &[RuntimeEffect], words: &str) -> bool {
    effects
        .iter()
        .any(|effect| matches!(effect, RuntimeEffect::Announce(said) if *said == words))
}

fn filtering(effects: &[RuntimeEffect]) -> Option<bool> {
    effects.iter().rev().find_map(|effect| match effect {
        RuntimeEffect::FilterAudio(active) => Some(*active),
        _ => None,
    })
}

fn resets(effects: &[RuntimeEffect]) -> bool {
    effects
        .iter()
        .any(|effect| matches!(effect, RuntimeEffect::ResetDecisions))
}

#[test]
fn the_filter_follows_the_connection() {
    let mut client = Client::new();
    client.worker.see_connection(&mut client.shared, Ok(true));
    client.tell("getClientID:2:1234,", SECOND);
    let effects = client.tick(Vec::new(), SECOND);
    assert!(announced(&effects, ACRE_CONNECTED));
    assert!(client.runtime.is_connected());
    let effects = client.end();
    assert_eq!(filtering(&effects), Some(true));
    assert!(announced(&effects, FILTER_ON));
    assert_eq!(client.shared.take_log().last().unwrap().name, "acre_audio_filter");
    assert!(client.end().is_empty());

    client.worker.see_connection(&mut client.shared, Ok(false));
    let effects = client.tick(Vec::new(), SECOND);
    assert_eq!(filtering(&effects), Some(false));
    assert!(announced(&effects, FILTER_OFF));
    assert!(!client.runtime.is_connected());
}

#[test]
fn only_a_sent_state_opens_the_microphone() {
    let mut client = Client::connected();
    client.tell("startRadioSpeaking:ACRE_PRC152,", SECOND);
    let mut effects = client.tick(Vec::new(), SECOND);
    let (more, sending) = client.conclude(false, SECOND);
    effects.extend(more);
    assert!(!effects.iter().any(|effect| matches!(
        effect,
        RuntimeEffect::SetMicrophone(true) | RuntimeEffect::RenewCapture
    )));
    let message = sending.unwrap();
    assert_eq!(message.net_id, "2:1234");
    assert!(message.active.is_some());
    client.runtime.sending(SECOND);

    assert!(matches!(
        client.sent(false).as_slice(),
        [RuntimeEffect::CloseCapture, RuntimeEffect::SetMicrophone(false)]
    ));
    assert!(client.conclude(false, SECOND + MIN_SEND_INTERVAL - 1).1.is_none());
    assert!(client.conclude(false, SECOND + MIN_SEND_INTERVAL).1.is_some());
    client.runtime.sending(SECOND);
    assert!(matches!(
        client.sent(true).as_slice(),
        [RuntimeEffect::RenewCapture, RuntimeEffect::SetMicrophone(true)]
    ));
    client.runtime.microphone_set(true);
    assert!(matches!(client.sent(true).as_slice(), [RuntimeEffect::RenewCapture]));
    assert!(client.conclude(false, SECOND + REFRESH - 1).1.is_none());
    assert!(client.conclude(false, SECOND + REFRESH).1.is_some());
}

#[test]
fn silenced_voices_are_not_sent() {
    let mut client = Client::connected();
    client.tell("startRadioSpeaking:ACRE_PRC152,", SECOND);
    client.tell("localMute:1,", SECOND);
    client.tick(Vec::new(), SECOND);
    let (effects, sending) = client.conclude(false, SECOND);
    assert!(sending.is_none());
    assert!(matches!(
        effects.as_slice(),
        [
            RuntimeEffect::PublishPeers(_),
            RuntimeEffect::CloseCapture,
            RuntimeEffect::SetMicrophone(false)
        ]
    ));
    client.tell("localMute:0,", SECOND);
    client.tick(Vec::new(), SECOND);
    assert!(client.conclude(false, SECOND).1.is_some());
}

#[test]
fn privileged_modes_stay_local() {
    let mut client = Client::connected();
    client.tell("startZeusSpeaking:", SECOND);
    client.tick(Vec::new(), SECOND);
    assert!(client.conclude(false, SECOND).1.unwrap().active.is_none());
}

#[test]
fn outsiders_are_not_heard_and_members_lapse() {
    let mut client = Client::connected();
    let nothing = PeerPacket {
        connection: 1,
        sender: 99,
        state: None,
    };
    let unheard = client.tick(vec![packet(1, 98, 1), packet(2, 99, 1), nothing], SECOND);
    assert!(unheard.is_empty());
    let heard = client.tick(vec![packet(1, 99, 1)], SECOND);
    assert!(matches!(heard.as_slice(), [RuntimeEffect::Publish(_)]));
    let (effects, _) = client.conclude(false, SECOND);
    assert!(matches!(
        effects.last(),
        Some(RuntimeEffect::PublishPeers(peers)) if peers.get(&99) == Some(&SECOND)
    ));
    assert!(client.worker.dispatch_queued_peer_actions(&mut client.shared).is_none());

    let (effects, _) = client.conclude(false, SECOND + LEASE);
    assert!(matches!(
        effects.as_slice(),
        [RuntimeEffect::Publish(_), RuntimeEffect::PublishPeers(peers)] if peers.is_empty()
    ));
}

#[test]
fn decisions_of_unheard_speakers_are_not_published() {
    let mut client = Client::connected();
    client.tick(vec![packet(1, 99, 1)], SECOND);
    client.tell("updateSpeakingData:s,99,0,0.5,", SECOND);
    client.tell("updateSpeakingData:s,98,0,0.5,", SECOND);
    client.tell("updateSelf:1,2,3,0,1,0,7,", SECOND);
    assert!(matches!(
        client.tick(Vec::new(), SECOND).as_slice(),
        [RuntimeEffect::Publish(_), RuntimeEffect::Publish(_)]
    ));
    assert!(client.tick(Vec::new(), SECOND).is_empty());
}

#[test]
fn native_speech_starts_and_stops_the_direct_mode() {
    let mut client = Client::connected();
    let (effects, sending) = client.conclude(true, SECOND);
    assert!(matches!(effects[0], RuntimeEffect::CloseCapture));
    assert!(sending.unwrap().active.is_some());
    let (_, sending) = client.conclude(false, SECOND);
    assert!(sending.unwrap().active.is_none());
    client.worker.settle(&mut client.shared, SECOND);
    assert!(client.worker.next_outbound().is_some());
}

#[test]
fn another_place_starts_over() {
    let mut client = Client::connected();
    client.tick(vec![packet(1, 99, 1)], SECOND);
    assert!(client.tick(Vec::new(), SECOND).is_empty());
    let effects = client.tick_at(place(4), false, Vec::new(), SECOND);
    assert!(resets(&effects));
    assert!(effects
        .iter()
        .any(|effect| matches!(effect, RuntimeEffect::PublishPeers(peers) if peers.is_empty())));
    assert_eq!(filtering(&effects), Some(false));
    assert!(!client.runtime.is_connected());
    assert_eq!(client.runtime.context().as_ref().unwrap().channel, 4);
    assert!(client.worker.begin(&mut client.shared));
}

#[test]
fn departed_peers_are_forgotten() {
    let mut client = Client::connected();
    client.tick(vec![packet(1, 99, 1)], SECOND);
    let alone = Context::new(1, 41, 3, &[41], "uid".to_owned(), "Lobby".to_owned());
    assert!(matches!(
        client.tick_at(alone, false, Vec::new(), SECOND).as_slice(),
        [RuntimeEffect::Publish(_), RuntimeEffect::RemoveSpeaker(99)]
    ));
}

#[test]
fn a_silent_game_is_given_up() {
    let mut client = Client::connected();
    let late = SECOND + ACTIVITY_LIMIT;
    assert!(client.tick(Vec::new(), late - 1).is_empty());
    let effects = client.tick(Vec::new(), late);
    assert!(announced(&effects, ACRE_UNRESPONSIVE));
    assert!(!client.runtime.is_connected());
}

#[test]
fn lost_messages_start_over() {
    let mut client = Client::connected();
    assert!(resets(&client.tick_at(place(3), true, Vec::new(), SECOND)));
    assert!(client.worker.begin(&mut client.shared));
    let mut queue = InputQueue::default();
    for index in 0..257 {
        queue.enqueue(Input::Peer(1, index, vec![1]));
    }
    assert!(queue.take_overflow());
    assert!(!queue.take_overflow());
    assert_eq!(queue.take().len(), 256);
    assert!(queue.take().is_empty());
}

#[test]
fn requests_of_the_game_become_effects() {
    let mut client = Client::connected();
    client.tell("setMuted:99,1,", SECOND);
    client.tell("setSoundSystemMasterOverride:1,", SECOND);
    let effects = client.tick(Vec::new(), SECOND);
    assert!(matches!(
        effects.as_slice(),
        [
            RuntimeEffect::RequestLocalMute {
                connection: 1,
                voice_client_id: 99,
                muted: true
            },
            RuntimeEffect::OverrideSoundSystem(true),
            RuntimeEffect::CloseCapture,
            RuntimeEffect::SetMicrophone(false)
        ]
    ));
    assert!(Runtime::new("", 1, 0).is_err());
}

#[test]
fn shutting_down_leaves_the_audio_alone_and_says_goodbye() {
    let mut client = Client::connected();
    client.tell("startRadioSpeaking:ACRE_PRC152,", SECOND);
    client.tick(Vec::new(), SECOND);
    let mut effects = Vec::new();
    client.runtime.shut_down(&mut client.shared, &mut effects);
    assert_eq!(filtering(&effects), Some(false));
    assert!(effects
        .iter()
        .any(|effect| matches!(effect, RuntimeEffect::SetMicrophone(false))));
    let last = client.runtime.prepare_state(&client.shared, &mut effects).unwrap();
    assert!(last.active.is_none());
}

#[test]
fn data_of_others_and_unfit_data_is_not_taken() {
    assert_eq!(data_step(b"MumbleACRE:STATE:1", 1), DataStep::Taken);
    assert_eq!(data_step(b"MumbleACRE:STATE:1", 1024), DataStep::Taken);
    assert_eq!(data_step(b"MumbleACRE:STATE:1", 1025), DataStep::Dropped);
    assert_eq!(data_step(b"MumbleACRE:STATE:1", 0), DataStep::Dropped);
    assert_eq!(data_step(b"MumbleACRE:STATE:2", 1), DataStep::Foreign);
}
