use mumbleacre::adapter::{AcreAdapterEvent, AdapterShared};
use mumbleacre::adapter_worker::WriteOutcome;
use mumbleacre::codec::AcreMessage;
use mumbleacre::peer_state::PeerStateAction;
use mumbleacre::round::{PipeRound, RoundAsk, RoundInput, RoundStep};
use mumbleacre::transmission::{SpeakingKind, Transmission};

struct Worker {
    round: PipeRound,
    shared: AdapterShared,
}

fn message(text: &str) -> RoundInput {
    let message = AcreMessage::parse(text.as_bytes()).unwrap();
    let readings = message
        .parameters()
        .iter()
        .map(|parameter| parameter.parse::<f32>().ok().map(f32::to_bits))
        .collect();
    RoundInput::Message {
        message,
        readings,
        clock: Some("1.000000".to_owned()),
    }
}

impl Worker {
    fn new() -> Self {
        Self {
            round: PipeRound::new("2.14.0.1064"),
            shared: AdapterShared::new(0),
        }
    }

    fn step(&mut self, input: RoundInput) -> RoundStep {
        self.round.step(&mut self.shared, input, 1)
    }

    fn ask(&mut self, input: RoundInput) -> RoundAsk {
        let step = self.step(input);
        assert!(!step.disconnect);
        step.ask
    }

    fn reading() -> Self {
        let mut worker = Self::new();
        assert!(matches!(worker.ask(RoundInput::Awake), RoundAsk::Connect));
        assert!(matches!(worker.ask(RoundInput::Connection(Ok(true))), RoundAsk::Read));
        worker
    }
}

#[test]
fn a_round_connects_reads_writes_and_rests() {
    let mut worker = Worker::reading();
    assert_eq!(worker.shared.drain_events(), [AcreAdapterEvent::PipeConnected]);
    assert!(matches!(worker.ask(message("ping:")), RoundAsk::Read));
    assert!(matches!(worker.ask(message("getPluginVersion:")), RoundAsk::Read));
    assert!(matches!(worker.ask(RoundInput::Nothing), RoundAsk::Write));
    assert_eq!(worker.round.next_outbound().unwrap().encode_text(), "pong:1.000000,");
    assert!(matches!(
        worker.ask(RoundInput::Write(WriteOutcome::Written)),
        RoundAsk::Write
    ));
    assert_eq!(
        worker.round.next_outbound().unwrap().encode_text(),
        "handleGetPluginVersion:2.14.0.1064"
    );
    assert!(matches!(
        worker.ask(RoundInput::Write(WriteOutcome::WouldBlock)),
        RoundAsk::Rest
    ));
    assert!(matches!(worker.ask(RoundInput::Awake), RoundAsk::Connect));
    assert!(matches!(worker.ask(RoundInput::Connection(Ok(true))), RoundAsk::Read));
    assert!(matches!(worker.ask(RoundInput::Nothing), RoundAsk::Write));
    assert!(matches!(
        worker.ask(RoundInput::Write(WriteOutcome::Written)),
        RoundAsk::Rest
    ));
}

#[test]
fn a_round_without_a_game_rests() {
    let mut worker = Worker::new();
    worker.step(RoundInput::Awake);
    assert!(matches!(worker.ask(RoundInput::Connection(Ok(false))), RoundAsk::Rest));
    worker.step(RoundInput::Awake);
    let failed = worker.step(RoundInput::Connection(Err("no pipe".to_owned())));
    assert!(failed.disconnect && matches!(failed.ask, RoundAsk::Rest));
}

#[test]
fn a_lost_game_disconnects_the_pipes() {
    let mut worker = Worker::reading();
    let lost = worker.step(RoundInput::ReadFailure {
        broken: true,
        words: "gone".to_owned(),
    });
    assert!(lost.disconnect && matches!(lost.ask, RoundAsk::Rest));

    let mut writing = Worker::reading();
    writing.step(message("ping:"));
    writing.step(RoundInput::Nothing);
    let lost = writing.step(RoundInput::Write(WriteOutcome::Broken));
    assert!(lost.disconnect && matches!(lost.ask, RoundAsk::Rest));
    assert!(writing.round.next_outbound().is_none());

    let mut reset = Worker::reading();
    reset.step(RoundInput::Nothing);
    reset.shared.request_reset();
    let begun = reset.step(RoundInput::Awake);
    assert!(begun.disconnect && matches!(begun.ask, RoundAsk::Connect));
}

#[test]
fn refusals_are_worded_before_the_round_goes_on() {
    let mut worker = Worker::reading();
    worker.shared.drain_events();
    let refusal = match worker.ask(message("ping:1,")) {
        RoundAsk::Word(error) => error,
        other => panic!("expected a refusal, got {other:?}"),
    };
    let words = refusal.to_string("");
    assert!(matches!(worker.ask(RoundInput::Words(words.clone())), RoundAsk::Read));
    assert_eq!(worker.shared.drain_events(), [AcreAdapterEvent::RejectedMessage(words)]);
    assert!(matches!(
        worker.ask(RoundInput::ReadFailure {
            broken: false,
            words: "odd".to_owned()
        }),
        RoundAsk::Rest
    ));
    assert_eq!(
        worker.shared.drain_events(),
        [AcreAdapterEvent::PipeError("odd".to_owned())]
    );
}

#[test]
fn refused_peers_are_worded_too() {
    let mut worker = Worker::new();
    let unfit =
        Transmission::new(9, 0, "a,b", SpeakingKind::Direct, "", 1.0f32.to_bits()).unwrap();
    worker
        .shared
        .enqueue_peer_actions(vec![PeerStateAction::TransmissionStarted(unfit)])
        .unwrap();
    worker.step(RoundInput::Awake);
    assert!(matches!(
        worker.ask(RoundInput::Connection(Ok(true))),
        RoundAsk::Word(_)
    ));
    assert!(matches!(
        worker.ask(RoundInput::Words("bad".to_owned())),
        RoundAsk::Read
    ));
    assert_eq!(
        worker.shared.drain_events().pop(),
        Some(AcreAdapterEvent::RejectedMessage(
            "could not apply validated ACRE peer state: bad".to_owned()
        ))
    );
}

#[test]
fn a_round_reads_so_many_messages_at_most() {
    let mut worker = Worker::reading();
    let mut reads = 0;
    while let RoundAsk::Read = worker.ask(message("setPTTKeys:1,2,")) {
        reads += 1;
        assert!(reads < 256);
    }
    assert_eq!(reads, 255);
    assert!(matches!(worker.ask(RoundInput::Nothing), RoundAsk::Rest));
}

#[test]
fn inputs_that_were_not_asked_for_end_the_round() {
    let mut worker = Worker::reading();
    assert!(matches!(worker.ask(RoundInput::Awake), RoundAsk::Rest));
    assert!(matches!(
        worker.ask(RoundInput::Write(WriteOutcome::Written)),
        RoundAsk::Rest
    ));
    assert!(matches!(worker.ask(RoundInput::Awake), RoundAsk::Connect));
}
