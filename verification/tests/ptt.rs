use mumbleacre::ptt::{AcrePttError, AcrePttStateMachine, PttAction};
use mumbleacre::transmission::{SpeakingKind, Transmission};

fn transmission(kind: SpeakingKind, radio_id: &str) -> Transmission {
    Transmission::new(17, 4, "2:local", kind, radio_id, 0.75f32.to_bits()).unwrap()
}

#[test]
fn radio_start_stops_direct_then_restores_it_after_ptt_release() {
    let direct = transmission(SpeakingKind::Direct, "");
    let radio = transmission(SpeakingKind::Radio, "ACRE_PRC152");
    let mut machine = AcrePttStateMachine::default();

    assert_eq!(
        machine.direct_started(direct.clone()).unwrap(),
        vec![PttAction::PeerStarted(direct.clone())]
    );
    assert_eq!(
        machine.acre_started(radio.clone()).unwrap(),
        vec![
            PttAction::PeerStopped(direct.clone()),
            PttAction::SetMicrophoneActivationOverwrite(true),
            PttAction::PeerStarted(radio.clone()),
        ]
    );
    assert!(machine.microphone_overwrite_active());
    assert_eq!(
        machine.acre_stopped(&radio),
        vec![
            PttAction::PeerStopped(radio),
            PttAction::SetMicrophoneActivationOverwrite(false),
            PttAction::PeerStarted(direct),
        ]
    );
    assert!(!machine.microphone_overwrite_active());
}

#[test]
fn duplicate_and_stale_ptt_callbacks_are_idempotent() {
    let radio = transmission(SpeakingKind::Radio, "ACRE_PRC152");
    let intercom = transmission(SpeakingKind::Intercom, "");
    let mut machine = AcrePttStateMachine::default();

    let first = machine.acre_started(radio.clone()).unwrap();
    assert_eq!(first.len(), 2);
    assert!(machine.acre_started(radio.clone()).unwrap().is_empty());
    assert!(machine.acre_stopped(&intercom).is_empty());
    assert_eq!(machine.acre_stopped(&radio).len(), 2);
    assert!(machine.acre_stopped(&radio).is_empty());
}

#[test]
fn switching_acre_modes_keeps_microphone_override_stable() {
    let radio = transmission(SpeakingKind::Radio, "ACRE_PRC152");
    let intercom = transmission(SpeakingKind::Intercom, "");
    let mut machine = AcrePttStateMachine::default();

    machine.acre_started(radio.clone()).unwrap();
    assert_eq!(
        machine.acre_started(intercom.clone()).unwrap(),
        vec![
            PttAction::PeerStopped(radio),
            PttAction::PeerStarted(intercom.clone()),
        ]
    );
    assert!(machine.microphone_overwrite_active());
    assert_eq!(
        machine.acre_stopped(&intercom),
        vec![
            PttAction::PeerStopped(intercom),
            PttAction::SetMicrophoneActivationOverwrite(false),
        ]
    );
}

#[test]
fn god_and_zeus_share_the_acre_ptt_transition_without_releasing_override() {
    let god = transmission(SpeakingKind::God, "");
    let zeus = transmission(SpeakingKind::Zeus, "");
    let mut machine = AcrePttStateMachine::default();

    assert_eq!(
        machine.acre_started(god.clone()).unwrap(),
        vec![
            PttAction::SetMicrophoneActivationOverwrite(true),
            PttAction::PeerStarted(god.clone()),
        ]
    );
    assert_eq!(
        machine.acre_started(zeus.clone()).unwrap(),
        vec![
            PttAction::PeerStopped(god),
            PttAction::PeerStarted(zeus.clone()),
        ]
    );
    assert!(machine.microphone_overwrite_active());
    assert_eq!(
        machine.acre_stopped(&zeus),
        vec![
            PttAction::PeerStopped(zeus),
            PttAction::SetMicrophoneActivationOverwrite(false),
        ]
    );
    assert!(!machine.microphone_overwrite_active());
}

#[test]
fn direct_callbacks_during_radio_are_suspended_and_stale_stops_are_harmless() {
    let radio = transmission(SpeakingKind::Radio, "ACRE_PRC152");
    let direct = transmission(SpeakingKind::Direct, "");
    let stale =
        Transmission::new(17, 4, "2:other", SpeakingKind::Direct, "", 0.75f32.to_bits()).unwrap();
    let mut machine = AcrePttStateMachine::default();

    machine.acre_started(radio.clone()).unwrap();
    assert!(machine.direct_started(direct.clone()).unwrap().is_empty());
    assert!(machine.direct_stopped(&stale).is_empty());
    assert!(machine.direct_stopped(&direct).is_empty());
    assert_eq!(
        machine.acre_stopped(&radio),
        vec![
            PttAction::PeerStopped(radio),
            PttAction::SetMicrophoneActivationOverwrite(false),
        ]
    );
}

#[test]
fn reset_stops_once_and_releases_override() {
    let radio = transmission(SpeakingKind::Radio, "ACRE_PRC152");
    let mut machine = AcrePttStateMachine::default();
    machine.acre_started(radio.clone()).unwrap();

    assert_eq!(
        machine.reset(),
        vec![
            PttAction::PeerStopped(radio),
            PttAction::SetMicrophoneActivationOverwrite(false),
        ]
    );
    assert!(machine.reset().is_empty());
}

#[test]
fn invalid_modes_do_not_mutate_the_machine() {
    let mut machine = AcrePttStateMachine::default();
    let direct = transmission(SpeakingKind::Direct, "");
    assert_eq!(
        machine.acre_started(direct),
        Err(AcrePttError::UnsupportedAcreSpeakingKind(
            SpeakingKind::Direct
        ))
    );
    assert!(machine.active_acre().is_none());
    assert!(!machine.microphone_overwrite_active());
}

#[test]
fn non_radio_acre_modes_reject_radio_ids() {
    for kind in [
        SpeakingKind::Intercom,
        SpeakingKind::God,
        SpeakingKind::Zeus,
    ] {
        let mut machine = AcrePttStateMachine::default();
        assert_eq!(
            machine.acre_started(transmission(kind, "ACRE_PRC152")),
            Err(AcrePttError::NonRadioWithRadioId(kind))
        );
        assert!(machine.active_acre().is_none());
        assert!(!machine.microphone_overwrite_active());
    }
}

#[test]
fn every_push_to_talk_error_has_an_input() {
    let mut machine = AcrePttStateMachine::default();
    assert_eq!(
        machine.acre_started(transmission(SpeakingKind::Radio, "")),
        Err(AcrePttError::RadioWithoutRadioId)
    );
    assert_eq!(
        machine.direct_started(transmission(SpeakingKind::Radio, "r")),
        Err(AcrePttError::ExpectedDirect(SpeakingKind::Radio))
    );
    assert_eq!(
        machine.direct_started(transmission(SpeakingKind::Direct, "r")),
        Err(AcrePttError::DirectWithRadioId)
    );
    assert_eq!(
        AcrePttError::ExpectedDirect(SpeakingKind::Radio).to_string(),
        "expected local direct speech, received Radio"
    );
}

#[test]
fn native_stop_forgets_suspended_speech() {
    let radio = transmission(SpeakingKind::Radio, "ACRE_PRC152");
    let direct = transmission(SpeakingKind::Direct, "");
    let mut machine = AcrePttStateMachine::default();
    machine.direct_started(direct.clone()).unwrap();
    machine.acre_started(radio.clone()).unwrap();
    assert!(machine.native_stopped().is_empty());
    assert_eq!(
        machine.acre_stopped(&radio),
        vec![
            PttAction::PeerStopped(radio),
            PttAction::SetMicrophoneActivationOverwrite(false),
        ]
    );
    machine.direct_started(direct.clone()).unwrap();
    assert_eq!(machine.native_stopped(), vec![PttAction::PeerStopped(direct)]);
    assert!(machine.native_stopped().is_empty());
}
