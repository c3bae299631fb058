use mumbleacre::peer::{PeerEnvelope, PeerHeader, PeerPayload, PeerSpeakingKind};
use mumbleacre::peer_state::{PeerDirectory, PeerDirectoryError, PeerStateAction};
use mumbleacre::session::{AcreSessionError, ACRE2_PLUGIN_VERSION};
use mumbleacre::transmission::SpeakingKind;
use mumbleacre::words::mismatch_words;

fn header(generation: u64, sequence: u64) -> PeerHeader {
    PeerHeader::new("mission-a", generation, sequence).unwrap()
}

fn hello(generation: u64, sequence: u64) -> PeerEnvelope {
    PeerEnvelope::new(
        header(generation, sequence),
        PeerPayload::Hello {
            acre_version: ACRE2_PLUGIN_VERSION.to_owned(),
        },
    )
    .unwrap()
}

fn identity(generation: u64, sequence: u64, net_id: &str) -> PeerEnvelope {
    PeerEnvelope::new(
        header(generation, sequence),
        PeerPayload::Identity {
            net_id: net_id.to_owned(),
        },
    )
    .unwrap()
}

fn radio_start(generation: u64, sequence: u64, net_id: &str) -> PeerEnvelope {
    start(
        PeerSpeakingKind::Radio,
        generation,
        sequence,
        net_id,
        "ACRE_PRC152",
    )
}

fn start(
    kind: PeerSpeakingKind,
    generation: u64,
    sequence: u64,
    net_id: &str,
    radio_id: &str,
) -> PeerEnvelope {
    PeerEnvelope::new(
        header(generation, sequence),
        PeerPayload::Start {
            kind,
            net_id: net_id.to_owned(),
            radio_id: radio_id.to_owned(),
            language_id: 7,
            curve_scale: 0.75f32.to_bits(),
        },
    )
    .unwrap()
}

#[test]
fn requires_a_handshake_and_does_not_consume_invalid_sequences() {
    let mut directory = PeerDirectory::new("mission-a").unwrap();
    assert!(matches!(
        directory.apply(99, &identity(1, 1, "2:remote")),
        Err(PeerDirectoryError::HandshakeRequired)
    ));
    assert!(directory.apply(99, &hello(1, 1)).unwrap().is_empty());
    assert_eq!(
        directory.apply(99, &identity(1, 2, "2:remote")).unwrap(),
        vec![PeerStateAction::Identity {
            voice_client_id: 99,
            net_id: "2:remote".to_owned(),
        }]
    );
}

#[test]
fn associates_transmissions_with_the_authoritative_mumble_sender() {
    let mut directory = PeerDirectory::new("mission-a").unwrap();
    directory.apply(99, &hello(1, 1)).unwrap();
    directory.apply(99, &identity(1, 2, "2:remote")).unwrap();

    let started = directory.apply(99, &radio_start(1, 3, "2:remote")).unwrap();
    assert!(matches!(
        &started[..],
        [PeerStateAction::TransmissionStarted(transmission)]
            if transmission.voice_client_id() == 99
                && transmission.net_id() == "2:remote"
                && transmission.speaking_kind() == SpeakingKind::Radio
    ));

    assert!(directory
        .apply(99, &radio_start(1, 3, "2:remote"))
        .unwrap()
        .is_empty());
    let stopped = directory
        .apply(
            99,
            &PeerEnvelope::new(
                header(1, 4),
                PeerPayload::Stop {
                    kind: PeerSpeakingKind::Radio,
                },
            )
            .unwrap(),
        )
        .unwrap();
    assert!(matches!(
        &stopped[..],
        [PeerStateAction::TransmissionStopped(transmission)]
            if transmission.voice_client_id() == 99
    ));
}

#[test]
fn generation_change_stops_the_previous_transmission_before_resetting() {
    let mut directory = PeerDirectory::new("mission-a").unwrap();
    directory.apply(99, &hello(1, 1)).unwrap();
    directory.apply(99, &identity(1, 2, "2:remote")).unwrap();
    directory.apply(99, &radio_start(1, 3, "2:remote")).unwrap();

    let actions = directory.apply(99, &hello(2, 1)).unwrap();
    assert!(matches!(
        actions.as_slice(),
        [
            PeerStateAction::TransmissionStopped(_),
            PeerStateAction::Reset {
                voice_client_id: 99
            }
        ]
    ));
}

#[test]
fn preserves_god_and_zeus_from_the_authoritative_peer_sender() {
    let mut directory = PeerDirectory::new("mission-a").unwrap();
    directory.apply(99, &hello(1, 1)).unwrap();
    directory.apply(99, &identity(1, 2, "2:remote")).unwrap();

    let god = directory
        .apply(99, &start(PeerSpeakingKind::God, 1, 3, "2:remote", ""))
        .unwrap();
    assert!(matches!(
        god.as_slice(),
        [PeerStateAction::TransmissionStarted(transmission)]
            if transmission.voice_client_id() == 99
                && transmission.speaking_kind() == SpeakingKind::God
                && transmission.radio_id().is_empty()
    ));

    let zeus = directory
        .apply(99, &start(PeerSpeakingKind::Zeus, 1, 4, "2:remote", ""))
        .unwrap();
    assert!(matches!(
        zeus.as_slice(),
        [
            PeerStateAction::TransmissionStopped(stopped),
            PeerStateAction::TransmissionStarted(started),
        ] if stopped.voice_client_id() == 99
            && stopped.speaking_kind() == SpeakingKind::God
            && started.voice_client_id() == 99
            && started.speaking_kind() == SpeakingKind::Zeus
            && started.radio_id().is_empty()
    ));
}

#[test]
fn rejects_another_mission_scope_without_creating_peer_state() {
    let mut directory = PeerDirectory::new("mission-a").unwrap();
    let wrong_scope = PeerEnvelope::new(
        PeerHeader::new("mission-b", 1, 1).unwrap(),
        PeerPayload::Hello {
            acre_version: ACRE2_PLUGIN_VERSION.to_owned(),
        },
    )
    .unwrap();
    assert!(matches!(
        directory.apply(99, &wrong_scope),
        Err(PeerDirectoryError::ScopeMismatch { .. })
    ));
    assert!(directory.remove(99).is_empty());
}

#[test]
fn another_identity_in_a_start_is_refused() {
    let mut directory = PeerDirectory::new("mission-a").unwrap();
    directory.apply(99, &hello(1, 1)).unwrap();
    directory.apply(99, &identity(1, 2, "2:remote")).unwrap();
    assert!(matches!(
        directory.apply(99, &radio_start(1, 3, "2:other")),
        Err(PeerDirectoryError::IdentityMismatch)
    ));
    assert_eq!(
        directory.apply(99, &radio_start(1, 3, "2:remote")).unwrap().len(),
        1
    );
}

#[test]
fn clearing_tells_the_senders_apart_in_ascending_order() {
    let mut directory = PeerDirectory::new("mission-a").unwrap();
    assert_eq!(directory.scope(), "mission-a");
    for id in [7, 3] {
        directory.apply(id, &hello(1, 1)).unwrap();
        directory.apply(id, &identity(1, 2, "2:remote")).unwrap();
    }
    directory.apply(7, &radio_start(1, 3, "2:remote")).unwrap();
    let actions = directory.clear();
    assert!(matches!(
        actions.as_slice(),
        [
            PeerStateAction::Reset { voice_client_id: 3 },
            PeerStateAction::TransmissionStopped(_),
            PeerStateAction::Reset { voice_client_id: 7 },
        ]
    ));
    assert!(directory.clear().is_empty());
}

#[test]
fn directory_refusals_are_put_into_words() {
    let mut directory = PeerDirectory::new("mission-a").unwrap();
    let elsewhere = PeerEnvelope::new(
        PeerHeader::new("b\"\\", 1, 1).unwrap(),
        PeerPayload::Reset,
    )
    .unwrap();
    assert_eq!(
        directory.apply(99, &elsewhere).unwrap_err().to_string(""),
        "peer scope \"b\\\"\\\\\" does not match local scope \"mission-a\""
    );
    assert_eq!(
        mismatch_words("\"b\"", "\"a\""),
        "peer scope \"b\" does not match local scope \"a\""
    );
    assert_eq!(
        directory.apply(99, &identity(1, 1, "2:remote")).unwrap_err().to_string(""),
        "peer must send HELLO before identity or transmission state"
    );
    directory.apply(99, &hello(1, 1)).unwrap();
    directory.apply(99, &identity(1, 2, "2:remote")).unwrap();
    assert_eq!(
        directory.apply(99, &radio_start(1, 3, "2:other")).unwrap_err().to_string(""),
        "peer START netId does not match its announced identity"
    );
    assert_eq!(
        PeerDirectory::new("").unwrap_err().to_string(""),
        PeerHeader::new("", 1, 1).unwrap_err().to_string()
    );
    assert_eq!(
        PeerDirectoryError::Session(AcreSessionError::EmptyRadioId).to_string(""),
        AcreSessionError::EmptyRadioId.to_string("")
    );
}

#[test]
fn changes_of_one_message_are_orderly() {
    let mut directory = PeerDirectory::new("mission-a").unwrap();
    directory.apply(99, &hello(1, 1)).unwrap();
    directory.apply(99, &identity(1, 2, "2:remote")).unwrap();
    directory.apply(99, &radio_start(1, 3, "2:remote")).unwrap();
    assert!(directory.apply(99, &hello(1, 3)).unwrap().is_empty());
    let changes = directory
        .apply(99, &start(PeerSpeakingKind::God, 1, 4, "2:remote", ""))
        .unwrap();
    assert_eq!(changes.len(), 2);
    assert!(matches!(
        &changes[0],
        PeerStateAction::TransmissionStopped(t) if t.speaking_kind() == SpeakingKind::Radio
    ));
    assert!(matches!(
        &changes[1],
        PeerStateAction::TransmissionStarted(t) if t.speaking_kind() == SpeakingKind::God
    ));
    let changes = directory.apply(99, &hello(2, 1)).unwrap();
    assert_eq!(changes.len(), 2);
    assert!(matches!(
        &changes[0],
        PeerStateAction::TransmissionStopped(t) if t.speaking_kind() == SpeakingKind::God
    ));
    assert_eq!(changes[1], PeerStateAction::Reset { voice_client_id: 99 });
}
