use mumbleacre::peer_dispatch::apply_peer_state_actions;
use mumbleacre::peer_state::PeerStateAction;
use mumbleacre::session::{AcreAction, AcreSession};
use mumbleacre::transmission::{SpeakingKind, Transmission};

fn remote_radio() -> Transmission {
    Transmission::new(
        91,
        4,
        "2:remote",
        SpeakingKind::Radio,
        "ACRE_PRC152",
        0.75f32.to_bits(),
    )
    .unwrap()
}

fn remote_privileged(kind: SpeakingKind) -> Transmission {
    Transmission::new(91, 4, "2:remote", kind, "", 0.75f32.to_bits()).unwrap()
}

fn sent_text(actions: &[AcreAction]) -> Vec<String> {
    actions
        .iter()
        .filter_map(|action| match action {
            AcreAction::SendToArma(message) => Some(message.encode_text()),
            _ => None,
        })
        .collect()
}

#[test]
fn starts_remote_speech_only_after_the_peer_directory_validates_it() {
    let mut session = AcreSession::default();
    let radio = remote_radio();
    let actions = apply_peer_state_actions(
        &mut session,
        vec![
            PeerStateAction::Identity {
                voice_client_id: 91,
                net_id: "2:remote".to_owned(),
            },
            PeerStateAction::TransmissionStarted(radio),
        ],
    )
    .unwrap();

    assert_eq!(
        sent_text(&actions),
        ["remoteStartSpeaking:91,4,2:remote,1,ACRE_PRC152,".to_owned()]
    );
}

#[test]
fn stop_and_reset_emit_at_most_one_remote_stop() {
    let mut session = AcreSession::default();
    let radio = remote_radio();
    apply_peer_state_actions(
        &mut session,
        vec![PeerStateAction::TransmissionStarted(radio.clone())],
    )
    .unwrap();

    let actions = apply_peer_state_actions(
        &mut session,
        vec![
            PeerStateAction::TransmissionStopped(radio),
            PeerStateAction::Reset {
                voice_client_id: 91,
            },
        ],
    )
    .unwrap();

    assert_eq!(
        sent_text(&actions),
        ["remoteStopSpeaking:91,2:remote,1,ACRE_PRC152,".to_owned()]
    );
}

#[test]
fn reset_without_a_prior_stop_is_fail_closed() {
    let mut session = AcreSession::default();
    apply_peer_state_actions(
        &mut session,
        vec![PeerStateAction::TransmissionStarted(remote_radio())],
    )
    .unwrap();

    let actions = apply_peer_state_actions(
        &mut session,
        vec![PeerStateAction::Reset {
            voice_client_id: 91,
        }],
    )
    .unwrap();

    assert_eq!(
        sent_text(&actions),
        ["remoteStopSpeaking:91,2:remote,1,ACRE_PRC152,".to_owned()]
    );
}

#[test]
fn serializes_remote_god_and_zeus_with_their_acre_wire_values() {
    let mut session = AcreSession::default();
    let god = remote_privileged(SpeakingKind::God);
    let zeus = remote_privileged(SpeakingKind::Zeus);

    let actions = apply_peer_state_actions(
        &mut session,
        vec![
            PeerStateAction::TransmissionStarted(god),
            PeerStateAction::TransmissionStarted(zeus),
        ],
    )
    .unwrap();

    assert_eq!(
        sent_text(&actions),
        [
            "remoteStartSpeaking:91,4,2:remote,5,,".to_owned(),
            "remoteStopSpeaking:91,2:remote,5,,".to_owned(),
            "remoteStartSpeaking:91,4,2:remote,6,,".to_owned(),
        ]
    );
}

#[test]
fn delivery_stops_at_the_first_refused_change() {
    let mut session = AcreSession::default();
    let unfit =
        Transmission::new(92, 0, "a,b", SpeakingKind::Direct, "", 1.0f32.to_bits()).unwrap();
    let refused = apply_peer_state_actions(
        &mut session,
        vec![
            PeerStateAction::TransmissionStarted(remote_radio()),
            PeerStateAction::TransmissionStarted(unfit),
            PeerStateAction::Reset {
                voice_client_id: 91,
            },
        ],
    );
    assert!(refused.is_err());
    assert_eq!(session.remote_stopped(91).unwrap().len(), 1);
}
