use mumbleacre::codec::AcreMessage;
use mumbleacre::control::{RemotePeers, StateMessage, LEASE};
use mumbleacre::peer::{PeerHeader, PeerPayload, PeerSpeakingKind};
use mumbleacre::peer_dispatch::apply_peer_state_actions;
use mumbleacre::peer_state::PeerStateAction;
use mumbleacre::session::{AcreAction, AcreSession};
use mumbleacre::transmission::{SpeakingKind, Transmission};
use serde_json::{Number, Value};

const NOW: u64 = 5_000_000_000;
const MILLISECOND: u64 = 1_000_000;

fn kind_name(kind: PeerSpeakingKind) -> &'static str {
    match kind {
        PeerSpeakingKind::Direct => "DIRECT",
        PeerSpeakingKind::Radio => "RADIO",
        PeerSpeakingKind::Intercom => "INTERCOM",
        PeerSpeakingKind::God => "GOD",
        PeerSpeakingKind::Zeus => "ZEUS",
    }
}

fn text(value: &str) -> Value {
    Value::String(value.to_owned())
}

fn serialized(state: &StateMessage) -> Result<Vec<u8>, String> {
    let mut header = serde_json::Map::new();
    header.insert("version".to_owned(), Value::Number(state.header.version.into()));
    header.insert("scope".to_owned(), text(&state.header.scope));
    header.insert("generation".to_owned(), Value::Number(state.header.generation.into()));
    header.insert("sequence".to_owned(), Value::Number(state.header.sequence.into()));
    let active = match &state.active {
        Some(PeerPayload::Start {
            kind,
            net_id,
            radio_id,
            language_id,
            curve_scale,
        }) => {
            let mut start = serde_json::Map::new();
            start.insert("type".to_owned(), text("START"));
            start.insert("kind".to_owned(), text(kind_name(*kind)));
            start.insert("net_id".to_owned(), text(net_id));
            start.insert("radio_id".to_owned(), text(radio_id));
            start.insert("language_id".to_owned(), Value::Number((*language_id).into()));
            start.insert(
                "curve_scale".to_owned(),
                Value::Number(Number::from_f64(f32::from_bits(*curve_scale) as f64).unwrap()),
            );
            Value::Object(start)
        }
        Some(_) => return Err("not a start".to_owned()),
        None => Value::Null,
    };
    let mut all = serde_json::Map::new();
    all.insert("header".to_owned(), Value::Object(header));
    all.insert("acre_version".to_owned(), text(&state.acre_version));
    all.insert("net_id".to_owned(), text(&state.net_id));
    all.insert("active".to_owned(), active);
    serde_json::to_vec(&Value::Object(all)).map_err(|error| error.to_string())
}

fn string(value: &Value) -> Result<String, String> {
    value.as_str().map(str::to_owned).ok_or("no text".to_owned())
}

fn parsed(bytes: &[u8]) -> Result<StateMessage, String> {
    let value: Value = serde_json::from_slice(bytes).map_err(|error| error.to_string())?;
    let header = PeerHeader {
        version: value["header"]["version"].as_u64().ok_or("version")? as u8,
        scope: string(&value["header"]["scope"])?,
        generation: value["header"]["generation"].as_u64().ok_or("generation")?,
        sequence: value["header"]["sequence"].as_u64().ok_or("sequence")?,
    };
    let start = &value["active"];
    let active = if start.is_null() {
        None
    } else {
        let kind = match start["kind"].as_str().ok_or("kind")? {
            "DIRECT" => PeerSpeakingKind::Direct,
            "RADIO" => PeerSpeakingKind::Radio,
            "INTERCOM" => PeerSpeakingKind::Intercom,
            "GOD" => PeerSpeakingKind::God,
            "ZEUS" => PeerSpeakingKind::Zeus,
            _ => return Err("kind".to_owned()),
        };
        Some(PeerPayload::Start {
            kind,
            net_id: string(&start["net_id"])?,
            radio_id: string(&start["radio_id"])?,
            language_id: start["language_id"].as_i64().ok_or("language_id")? as i32,
            curve_scale: (start["curve_scale"].as_f64().ok_or("curve_scale")? as f32).to_bits(),
        })
    };
    Ok(StateMessage {
        header,
        acre_version: string(&value["acre_version"])?,
        net_id: string(&value["net_id"])?,
        active,
    })
}

fn encode(state: &StateMessage) -> Result<Vec<u8>, String> {
    state.encode(serialized(state))
}

fn decode(bytes: &[u8]) -> Result<StateMessage, String> {
    StateMessage::check_size(bytes)?;
    StateMessage::decode(bytes, parsed(bytes))
}

fn one() -> u32 {
    1.0f32.to_bits()
}

struct SimulatedMumbleClient {
    voice_id: u32,
    net_id: String,
    generation: u64,
    sequence: u64,
    remote_peers: RemotePeers,
    acre: AcreSession,
}

impl SimulatedMumbleClient {
    fn new(voice_id: u32, net_id: &str) -> Self {
        Self {
            voice_id,
            net_id: net_id.to_owned(),
            generation: 1,
            sequence: 0,
            remote_peers: RemotePeers::default(),
            acre: AcreSession::default(),
        }
    }

    fn publish(&mut self, active: Option<&Transmission>) -> Vec<u8> {
        self.sequence += 1;
        let state = StateMessage::new(
            "mumble-channel",
            self.generation,
            self.sequence,
            &self.net_id,
            active,
        )
        .unwrap();
        encode(&state).unwrap()
    }

    fn reconnect(&mut self) {
        self.generation += 1;
        self.sequence = 0;
    }

    fn receive(&mut self, sender: u32, packet: &[u8], now: u64) -> Vec<String> {
        let state = decode(packet).unwrap();
        let actions = self
            .remote_peers
            .receive(sender, "mumble-channel", state, now)
            .unwrap();
        sent_text(&apply_peer_state_actions(&mut self.acre, actions).unwrap())
    }

    fn expire(&mut self, now: u64) -> Vec<String> {
        sent_text(
            &apply_peer_state_actions(&mut self.acre, self.remote_peers.expire(now)).unwrap(),
        )
    }
}

fn sent_text(actions: &[AcreAction]) -> Vec<String> {
    actions
        .iter()
        .filter_map(|action| match action {
            AcreAction::SendToArma(message) => Some(message.encode_text()),
            _ => None,
        })
        .collect()
}

fn state(sequence: u64, active: bool) -> StateMessage {
    let tx =
        Transmission::new(999, 0, "1:2", SpeakingKind::Radio, "ACRE_PRC152_ID_1", one()).unwrap();
    StateMessage::new("mission", 1, sequence, "1:2", active.then_some(&tx)).unwrap()
}

#[test]
fn full_state_recovers_lost_handshake_start_stop_and_uses_sender() {
    let mut peers = RemotePeers::default();
    let actions = peers
        .receive(
            42,
            "mission",
            decode(&encode(&state(3, true)).unwrap()).unwrap(),
            NOW,
        )
        .unwrap();
    assert!(
        matches!(&actions[1], PeerStateAction::TransmissionStarted(t) if t.voice_client_id() == 42)
    );
    assert!(peers.receive(42, "mission", state(4, true), NOW).unwrap().is_empty());
    assert!(matches!(
        &peers.expire(NOW + LEASE)[0],
        PeerStateAction::TransmissionStopped(_)
    ));
    assert!(peers.expire(NOW + LEASE).is_empty());
    assert!(peers
        .receive(42, "mission", state(3, true), NOW + LEASE)
        .unwrap()
        .is_empty());
    assert!(matches!(
        &peers
            .receive(42, "mission", state(6, true), NOW + LEASE)
            .unwrap()[0],
        PeerStateAction::TransmissionStarted(_)
    ));
    assert!(matches!(
        &peers
            .receive(42, "mission", state(8, false), NOW + LEASE)
            .unwrap()[0],
        PeerStateAction::TransmissionStopped(_)
    ));
}

#[test]
fn wrong_scope_and_bad_payload_do_not_consume_sequence() {
    let mut peers = RemotePeers::default();
    assert!(peers.receive(42, "other", state(1, true), NOW).is_err());
    let mut bad = state(1, true);
    bad.active = Some(PeerPayload::Reset);
    assert!(peers.receive(42, "mission", bad, NOW).is_err());
    assert_eq!(
        peers
            .receive(42, "mission", state(1, true), NOW)
            .unwrap()
            .len(),
        2
    );
    assert!(decode(&vec![0; 1025]).is_err());
}

fn handle(session: &mut AcreSession, text: &[u8]) -> Vec<AcreAction> {
    let message = AcreMessage::parse(text).unwrap();
    let readings: Vec<Option<u32>> = message
        .parameters()
        .iter()
        .map(|parameter| parameter.parse::<f32>().ok().map(f32::to_bits))
        .collect();
    session
        .handle_from_arma(&message, &readings, Some("0.000000"), 0)
        .unwrap()
}

#[test]
fn two_sessions_deliver_radio_start_and_expired_stop_to_acre() {
    let mut sender = AcreSession::default();
    sender.set_local_voice_client_id(Some(42));
    handle(&mut sender, b"getClientID:1:2,76561198000000000,");
    let actions = handle(&mut sender, b"startRadioSpeaking:ACRE_PRC152_ID_1,");
    let tx = actions
        .iter()
        .find_map(|action| match action {
            AcreAction::LocalTransmissionStarted(t) => Some(t),
            _ => None,
        })
        .unwrap();
    let packet = encode(&StateMessage::new("mission", 1, 1, "1:2", Some(tx)).unwrap()).unwrap();
    let mut peers = RemotePeers::default();
    let mut receiver = AcreSession::default();
    let peer_actions = peers
        .receive(42, "mission", decode(&packet).unwrap(), NOW)
        .unwrap();
    let rpc = apply_peer_state_actions(&mut receiver, peer_actions).unwrap();
    assert!(
        matches!(&rpc[0], AcreAction::SendToArma(m) if m.encode_text() == "remoteStartSpeaking:42,0,1:2,1,ACRE_PRC152_ID_1,")
    );
    let rpc = apply_peer_state_actions(&mut receiver, peers.expire(NOW + LEASE)).unwrap();
    assert!(
        matches!(&rpc[0], AcreAction::SendToArma(m) if m.encode_text() == "remoteStopSpeaking:42,1:2,1,ACRE_PRC152_ID_1,")
    );
    assert!(peers.audible(NOW + LEASE).is_empty());
}

#[test]
fn newer_generation_closes_old_transmission_and_rejects_late_state() {
    let mut peers = RemotePeers::default();
    peers.receive(42, "mission", state(8, true), NOW).unwrap();
    let mut replacement = state(1, true);
    replacement.header.generation = 2;
    let actions = peers.receive(42, "mission", replacement, NOW).unwrap();
    assert!(matches!(
        &actions[0],
        PeerStateAction::TransmissionStopped(_)
    ));
    assert!(matches!(
        &actions[2],
        PeerStateAction::TransmissionStarted(_)
    ));
    assert!(peers
        .receive(42, "mission", state(999, false), NOW)
        .unwrap()
        .is_empty());
    assert_eq!(peers.audible(NOW).len(), 1);
}

#[test]
fn two_simulated_mumble_clients_recover_from_lost_stop_and_reconnect() {
    let mut alice = SimulatedMumbleClient::new(42, "1:alice");
    let mut bob = SimulatedMumbleClient::new(77, "1:bob");
    let alice_radio = Transmission::new(
        alice.voice_id,
        0,
        &alice.net_id,
        SpeakingKind::Radio,
        "ACRE_PRC152_ID_1",
        one(),
    )
    .unwrap();
    let bob_direct =
        Transmission::new(bob.voice_id, 0, &bob.net_id, SpeakingKind::Direct, "", one()).unwrap();

    let alice_packet = alice.publish(Some(&alice_radio));
    assert_eq!(
        bob.receive(alice.voice_id, &alice_packet, NOW),
        ["remoteStartSpeaking:42,0,1:alice,1,ACRE_PRC152_ID_1,".to_owned()]
    );
    let bob_packet = bob.publish(Some(&bob_direct));
    assert_eq!(
        alice.receive(bob.voice_id, &bob_packet, NOW),
        ["remoteStartSpeaking:77,0,1:bob,0,,".to_owned()]
    );

    // Alice's STOP is lost. A pipe reconnect starts a new generation with
    // a complete state, so Bob first closes the old RPC then opens the new
    // transmission without relying on the missing packet.
    let delayed_old_stop = alice.publish(None);
    alice.reconnect();
    let reconnect_packet = alice.publish(Some(&alice_radio));
    assert_eq!(
        bob.receive(alice.voice_id, &reconnect_packet, NOW + 10 * MILLISECOND),
        [
            "remoteStopSpeaking:42,1:alice,1,ACRE_PRC152_ID_1,".to_owned(),
            "remoteStartSpeaking:42,0,1:alice,1,ACRE_PRC152_ID_1,".to_owned(),
        ]
    );
    assert!(bob
        .receive(alice.voice_id, &delayed_old_stop, NOW + 20 * MILLISECOND)
        .is_empty());

    assert_eq!(
        bob.expire(NOW + LEASE + 10 * MILLISECOND),
        ["remoteStopSpeaking:42,1:alice,1,ACRE_PRC152_ID_1,".to_owned()]
    );
    assert_eq!(
        alice.expire(NOW + LEASE + 10 * MILLISECOND),
        ["remoteStopSpeaking:77,1:bob,0,,".to_owned()]
    );
}

#[test]
fn privileged_modes_and_foreign_names_are_refused() {
    let god = Transmission::new(1, 0, "1:2", SpeakingKind::God, "", one()).unwrap();
    assert_eq!(
        StateMessage::new("mission", 1, 1, "1:2", Some(&god)).unwrap_err(),
        "privileged peer mode unsupported"
    );
    let foreign = Transmission::new(1, 0, "1:3", SpeakingKind::Direct, "", one()).unwrap();
    assert_eq!(
        StateMessage::new("mission", 1, 1, "1:2", Some(&foreign)).unwrap_err(),
        "state requires a matching START"
    );
    assert_eq!(
        StateMessage::new("", 1, 1, "1:2", None).unwrap_err(),
        "peer field scope cannot be empty"
    );
    assert_eq!(
        state(1, false).encode(Ok(vec![b' '; 1025])).unwrap_err(),
        "state exceeds 1024 bytes"
    );
    assert_eq!(decode(&[]).unwrap_err(), "invalid state length");
}

#[test]
fn peers_are_bounded_and_forgotten_in_order() {
    let mut peers = RemotePeers::default();
    for id in (0..128).rev() {
        peers.receive(id, "mission", state(1, id == 5), NOW).unwrap();
    }
    assert_eq!(
        peers.receive(128, "mission", state(1, true), NOW).unwrap_err(),
        "peer capacity reached"
    );
    assert!(peers.receive(7, "mission", state(2, true), NOW).is_ok());
    assert_eq!(peers.ids(), (0..128).collect::<Vec<u32>>());
    assert_eq!(peers.audible(NOW).len(), 2);
    assert_eq!(peers.audible(NOW + LEASE - 1).len(), 2);
    assert_eq!(peers.expire(NOW + LEASE - 1).len(), 0);
    assert_eq!(peers.remove(5).len(), 2);
    assert_eq!(peers.remove(5).len(), 0);
    let farewells = peers.clear();
    assert_eq!(farewells.len(), 128);
    assert!(peers.ids().is_empty());
}

#[test]
fn expiry_stops_each_lapsed_sender_once() {
    let mut peers = RemotePeers::default();
    for (sender, now) in [(7, NOW), (3, NOW), (5, NOW + MILLISECOND)] {
        peers.receive(sender, "mission", state(1, true), now).unwrap();
    }
    peers.receive(9, "mission", state(1, false), NOW).unwrap();
    let stopped: Vec<u32> = peers
        .expire(NOW + LEASE)
        .iter()
        .map(|action| match action {
            PeerStateAction::TransmissionStopped(t) => t.voice_client_id(),
            _ => panic!("expiry only stops transmissions"),
        })
        .collect();
    assert_eq!(stopped, vec![3, 7]);
    assert!(peers.expire(NOW + LEASE).is_empty());
    assert_eq!(peers.ids(), vec![3, 5, 7, 9]);
    assert!(!peers.audible(NOW).contains_key(&3));
    assert!(!peers.audible(NOW).contains_key(&7));
    assert!(peers.audible(NOW + LEASE).contains_key(&5));
    peers.receive(3, "mission", state(2, true), NOW + LEASE).unwrap();
    assert!(peers.audible(NOW + LEASE).contains_key(&3));
}
