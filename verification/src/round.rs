//! One round of the pipe worker after the other: connect, read, write, rest.
//!
//! The caller owns the pipes. [`PipeRound::step`] tells it what to do next; it
//! does that and hands back what came of it. Times are nanoseconds of one
//! monotonic clock.

use crate::adapter::{self, AdapterShared, EventView, SharedView, MAX_QUEUED_CONTROL_REPLIES};
use crate::adapter_worker::{
    self, AdapterWorker, FlushStep, PlaneView, WorkerView, WriteOutcome, WriteView,
};
use crate::codec::{AcreMessage, MessageView};
use crate::peer_dispatch;
use crate::session::{self, AcreSessionError, ActionView, SessionFault, SessionView};
use crate::sound_cache::ReportView;
use vstd::prelude::*;

verus! {

/// What the round waits for. The numbers count the reads before this one.
#[derive(Clone, Copy, Debug, PartialEq, Eq, Structural)]
pub enum RoundPhase {
    Resting,
    Connecting,
    WordingPeers,
    Reading(usize),
    Wording(usize),
    Writing,
}

/// The worker and the phase of its round.
#[derive(Debug)]
pub struct PipeRound {
    worker: AdapterWorker,
    phase: RoundPhase,
}

/// The model of a round.
#[verifier::ext_equal]
pub struct StageView {
    pub worker: WorkerView,
    pub phase: RoundPhase,
}

impl View for PipeRound {
    type V = StageView;

    closed spec fn view(&self) -> StageView {
        StageView { worker: self.worker@, phase: self.phase }
    }
}

/// What came of the last thing that was asked for.
#[derive(Debug)]
pub enum RoundInput {
    /// The rest is over.
    Awake,
    /// Whether both pipes are connected, or the words with which asking failed.
    Connection(Result<bool, String>),
    /// A message of the game with what [`AdapterWorker::handle_message`] needs.
    Message { message: AcreMessage, readings: Vec<Option<u32>>, clock: Option<String> },
    /// Nothing to read.
    Nothing,
    ReadFailure { broken: bool, words: String },
    /// The refusal in words.
    Words(String),
    Write(WriteOutcome),
}

/// The model of an input.
#[verifier::ext_equal]
pub enum RoundInputView {
    Awake,
    Connection(Result<bool, Seq<char>>),
    Message { message: MessageView, readings: Seq<Option<u32>>, clock: Option<Seq<char>> },
    Nothing,
    ReadFailure { broken: bool, words: Seq<char> },
    Words(Seq<char>),
    Write(WriteView),
}

impl View for RoundInput {
    type V = RoundInputView;

    open spec fn view(&self) -> RoundInputView {
        match *self {
            RoundInput::Awake => RoundInputView::Awake,
            RoundInput::Connection(outcome) => RoundInputView::Connection(
                match outcome {
                    Ok(connected) => Ok(connected),
                    Err(words) => Err(words@),
                },
            ),
            RoundInput::Message { message, readings, clock } => RoundInputView::Message {
                message: message@,
                readings: readings@,
                clock: match clock {
                    Some(clock) => Some(clock@),
                    None => None,
                },
            },
            RoundInput::Nothing => RoundInputView::Nothing,
            RoundInput::ReadFailure { broken, words } => RoundInputView::ReadFailure {
                broken,
                words: words@,
            },
            RoundInput::Words(words) => RoundInputView::Words(words@),
            RoundInput::Write(outcome) => RoundInputView::Write(outcome@),
        }
    }
}

/// What to do next.
#[derive(Debug)]
pub enum RoundAsk {
    Connect,
    Read,
    /// Put the refusal into words.
    Word(AcreSessionError),
    /// Write the oldest reply, [`PipeRound::next_outbound`].
    Write,
    Rest,
}

/// The model of what to do next.
#[verifier::ext_equal]
pub enum AskView {
    Connect,
    Read,
    Word(SessionFault),
    Write,
    Rest,
}

impl View for RoundAsk {
    type V = AskView;

    open spec fn view(&self) -> AskView {
        match *self {
            RoundAsk::Connect => AskView::Connect,
            RoundAsk::Read => AskView::Read,
            RoundAsk::Word(error) => AskView::Word(error@),
            RoundAsk::Write => AskView::Write,
            RoundAsk::Rest => AskView::Rest,
        }
    }
}

/// A step: whether the pipes are to be disconnected first, and what to do then.
#[derive(Debug)]
pub struct RoundStep {
    pub disconnect: bool,
    pub ask: RoundAsk,
}

/// The model of a step.
#[verifier::ext_equal]
pub struct StepView {
    pub disconnect: bool,
    pub ask: AskView,
}

impl View for RoundStep {
    type V = StepView;

    open spec fn view(&self) -> StepView {
        StepView { disconnect: self.disconnect, ask: self.ask@ }
    }
}

/// The whole of a round: the worker, what it shares, and the phase.
#[verifier::ext_equal]
pub struct RoundView {
    pub plane: PlaneView,
    pub phase: RoundPhase,
}

/// A round with what is shared.
pub open spec fn round(stage: StageView, shared: SharedView) -> RoundView {
    RoundView { plane: adapter_worker::plane(stage.worker, shared), phase: stage.phase }
}

/// A round in a phase, and a step.
pub open spec fn going(plane: PlaneView, phase: RoundPhase, disconnect: bool, ask: AskView) -> (
    RoundView,
    StepView,
) {
    (RoundView { plane, phase }, StepView { disconnect, ask })
}

/// The round once it goes on to its next write, if there is one.
pub open spec fn to_writing(p: PlaneView, disconnect: bool) -> (RoundView, StepView) {
    if p.worker.was_connected && p.worker.outbound.len() > 0 {
        going(p, RoundPhase::Writing, disconnect, AskView::Write)
    } else {
        going(p, RoundPhase::Resting, disconnect, AskView::Rest)
    }
}

/// The round once nothing more is read: what waits is taken in once more and
/// then written.
pub open spec fn after_reading(p: PlaneView, disconnect: bool, now: u64) -> (RoundView, StepView) {
    to_writing(adapter_worker::settled(p, now), disconnect)
}

/// The round once it goes on to its next read, if it may read again.
pub open spec fn to_reading(p: PlaneView, reads: int, now: u64) -> (RoundView, StepView) {
    if reads < MAX_QUEUED_CONTROL_REPLIES && p.worker.outbound.len() < MAX_QUEUED_CONTROL_REPLIES {
        going(p, RoundPhase::Reading(reads as usize), false, AskView::Read)
    } else {
        after_reading(p, false, now)
    }
}

/// The round once the pipes were asked whether both are connected.
pub open spec fn after_connecting(p: PlaneView, outcome: Result<bool, Seq<char>>, now: u64) -> (
    RoundView,
    StepView,
) {
    let (q, disconnect) = adapter_worker::connection_seen(p, outcome);
    if disconnect || !q.worker.was_connected {
        going(q, RoundPhase::Resting, disconnect, AskView::Rest)
    } else {
        let (told, refusal) = adapter_worker::peers_dispatched(
            adapter_worker::settled(q, now),
        );
        match refusal {
            Some(fault) => going(told, RoundPhase::WordingPeers, false, AskView::Word(fault)),
            None => to_reading(told, 0, now),
        }
    }
}

/// The round after one step. An input that was not asked for ends the round.
pub open spec fn stepped(r: RoundView, input: RoundInputView, now: u64) -> (RoundView, StepView) {
    let p = r.plane;
    match (r.phase, input) {
        (RoundPhase::Resting, RoundInputView::Awake) => {
            let (q, disconnect) = adapter_worker::begun(p);
            going(q, RoundPhase::Connecting, disconnect, AskView::Connect)
        },
        (RoundPhase::Connecting, RoundInputView::Connection(outcome)) => after_connecting(
            p,
            outcome,
            now,
        ),
        (RoundPhase::WordingPeers, RoundInputView::Words(words)) => to_reading(
            adapter_worker::telling(
                p,
                EventView::RejectedMessage(
                    "could not apply validated ACRE peer state: "@ + words,
                ),
            ),
            0,
            now,
        ),
        (
            RoundPhase::Reading(reads),
            RoundInputView::Message { message, readings, clock },
        ) => {
            let (q, refusal) = adapter_worker::message_handled(p, message, readings, clock, now);
            match refusal {
                Some(fault) => going(
                    q,
                    RoundPhase::Wording(reads),
                    false,
                    AskView::Word(fault),
                ),
                None => to_reading(q, reads + 1, now),
            }
        },
        (RoundPhase::Wording(reads), RoundInputView::Words(words)) => to_reading(
            adapter_worker::telling(p, EventView::RejectedMessage(words)),
            reads + 1,
            now,
        ),
        (RoundPhase::Reading(_), RoundInputView::Nothing) => after_reading(p, false, now),
        (RoundPhase::Reading(_), RoundInputView::ReadFailure { broken, words }) => after_reading(
            if broken {
                adapter_worker::pipe_lost(p)
            } else {
                adapter_worker::telling(p, EventView::PipeError(words))
            },
            broken,
            now,
        ),
        (RoundPhase::Writing, RoundInputView::Write(outcome)) => if p.worker.outbound.len() > 0 {
            let (q, step) = adapter_worker::write_seen(p, outcome);
            match step {
                FlushStep::WriteOn => to_writing(q, false),
                FlushStep::Rest => going(q, RoundPhase::Resting, false, AskView::Rest),
                FlushStep::Disconnect => going(q, RoundPhase::Resting, true, AskView::Rest),
            }
        } else {
            going(p, RoundPhase::Resting, false, AskView::Rest)
        },
        _ => going(p, RoundPhase::Resting, false, AskView::Rest),
    }
}

impl PipeRound {
    /// A worker before its first round.
    pub fn new(plugin_version: &str) -> (round: Self)
        ensures
            round@.phase == RoundPhase::Resting,
            round@.worker.session == session::fresh_session(plugin_version@),
            round@.worker.outbound == Seq::<MessageView>::empty(),
            !round@.worker.was_connected,
            round@.worker.sound_generation == 0,
            round@.worker.sound_epoch == 0,
    {
        PipeRound { worker: AdapterWorker::new(plugin_version), phase: RoundPhase::Resting }
    }

    /// The oldest reply, if there is one and the game is connected.
    pub fn next_outbound(&self) -> (message: Option<&AcreMessage>)
        ensures
            match message {
                Some(message) => self@.worker.was_connected && self@.worker.outbound.len() > 0
                    && message@ == self@.worker.outbound[0],
                None => !self@.worker.was_connected || self@.worker.outbound.len() == 0,
            },
    {
        self.worker.next_outbound()
    }

    fn rest(&mut self, disconnect: bool) -> (step: RoundStep)
        ensures
            final(self)@ == (StageView { phase: RoundPhase::Resting, ..old(self)@ }),
            step@ == (StepView { disconnect, ask: AskView::Rest }),
    {
        self.phase = RoundPhase::Resting;
        RoundStep { disconnect, ask: RoundAsk::Rest }
    }

    /// Goes on to the next write, if there is one.
    fn write(&mut self, shared: &AdapterShared, disconnect: bool) -> (step: RoundStep)
        ensures
            (round(final(self)@, shared@), step@) == to_writing(
                adapter_worker::plane(old(self)@.worker, shared@),
                disconnect,
            ),
    {
        if self.worker.next_outbound().is_some() {
            self.phase = RoundPhase::Writing;
            RoundStep { disconnect, ask: RoundAsk::Write }
        } else {
            self.rest(disconnect)
        }
    }

    /// Takes in what waits and goes on to write.
    fn finish_reading(&mut self, shared: &mut AdapterShared, disconnect: bool, now: u64) -> (step:
        RoundStep)
        ensures
            (round(final(self)@, final(shared)@), step@) == after_reading(
                adapter_worker::plane(old(self)@.worker, old(shared)@),
                disconnect,
                now,
            ),
    {
        self.worker.settle(shared, now);
        self.write(shared, disconnect)
    }

    /// Goes on to the next read, if the round may read again.
    fn read(&mut self, shared: &mut AdapterShared, reads: usize, now: u64) -> (step: RoundStep)
        ensures
            (round(final(self)@, final(shared)@), step@) == to_reading(
                adapter_worker::plane(old(self)@.worker, old(shared)@),
                reads as int,
                now,
            ),
    {
        if self.worker.may_read(reads) {
            self.phase = RoundPhase::Reading(reads);
            RoundStep { disconnect: false, ask: RoundAsk::Read }
        } else {
            self.finish_reading(shared, false, now)
        }
    }

    /// Goes on from what the pipes said of their connection.
    fn see_connection(
        &mut self,
        shared: &mut AdapterShared,
        outcome: Result<bool, String>,
        now: u64,
    ) -> (step: RoundStep)
        ensures
            (round(final(self)@, final(shared)@), step@) == after_connecting(
                adapter_worker::plane(old(self)@.worker, old(shared)@),
                match outcome {
                    Ok(connected) => Ok(connected),
                    Err(words) => Err(words@),
                },
                now,
            ),
    {
        let disconnect: bool = self.worker.see_connection(shared, outcome);
        if disconnect || !self.worker.is_connected() {
            return self.rest(disconnect);
        }
        self.worker.settle(shared, now);
        match self.worker.dispatch_queued_peer_actions(shared) {
            Some(error) => {
                self.phase = RoundPhase::WordingPeers;
                RoundStep { disconnect: false, ask: RoundAsk::Word(error) }
            },
            None => self.read(shared, 0, now),
        }
    }

    /// Handles a message and goes on to the next read.
    fn see_message(
        &mut self,
        shared: &mut AdapterShared,
        reads: usize,
        message: AcreMessage,
        readings: Vec<Option<u32>>,
        clock: Option<String>,
        now: u64,
    ) -> (step: RoundStep)
        ensures
            (round(final(self)@, final(shared)@), step@) == stepped(
                RoundView {
                    plane: adapter_worker::plane(old(self)@.worker, old(shared)@),
                    phase: RoundPhase::Reading(reads),
                },
                RoundInput::Message { message, readings, clock }@,
                now,
            ),
    {
        let text: Option<&str> = match &clock {
            Some(text) => Some(text.as_str()),
            None => None,
        };
        match self.worker.handle_message(shared, &message, readings.as_slice(), text, now) {
            Some(error) => {
                self.phase = RoundPhase::Wording(reads);
                RoundStep { disconnect: false, ask: RoundAsk::Word(error) }
            },
            None => self.read(shared, reads.saturating_add(1), now),
        }
    }

    /// Goes on from what came of a write.
    fn see_write(&mut self, shared: &mut AdapterShared, outcome: WriteOutcome) -> (step: RoundStep)
        ensures
            (round(final(self)@, final(shared)@), step@) == stepped(
                RoundView {
                    plane: adapter_worker::plane(old(self)@.worker, old(shared)@),
                    phase: RoundPhase::Writing,
                },
                RoundInputView::Write(outcome@),
                0,
            ),
    {
        if !self.worker.has_outbound() {
            return self.rest(false);
        }
        match self.worker.see_write(shared, outcome) {
            FlushStep::WriteOn => self.write(shared, false),
            FlushStep::Rest => self.rest(false),
            FlushStep::Disconnect => self.rest(true),
        }
    }

    /// Takes what came of the last step and yields the next one.
    pub fn step(&mut self, shared: &mut AdapterShared, input: RoundInput, now: u64) -> (step:
        RoundStep)
        ensures
            (round(final(self)@, final(shared)@), step@) == stepped(
                round(old(self)@, old(shared)@),
                input@,
                now,
            ),
    {
        match (self.phase, input) {
            (RoundPhase::Resting, RoundInput::Awake) => {
                let disconnect: bool = self.worker.begin(shared);
                self.phase = RoundPhase::Connecting;
                RoundStep { disconnect, ask: RoundAsk::Connect }
            },
            (RoundPhase::Connecting, RoundInput::Connection(outcome)) => self.see_connection(
                shared,
                outcome,
                now,
            ),
            (RoundPhase::WordingPeers, RoundInput::Words(words)) => {
                self.worker.reject_peers(shared, words.as_str());
                self.read(shared, 0, now)
            },
            (RoundPhase::Reading(reads), RoundInput::Message { message, readings, clock }) => {
                self.see_message(shared, reads, message, readings, clock, now)
            },
            (RoundPhase::Wording(reads), RoundInput::Words(words)) => {
                self.worker.reject(shared, words);
                self.read(shared, reads.saturating_add(1), now)
            },
            (RoundPhase::Reading(_), RoundInput::Nothing) => self.finish_reading(
                shared,
                false,
                now,
            ),
            (RoundPhase::Reading(_), RoundInput::ReadFailure { broken, words }) => {
                let disconnect: bool = self.worker.see_read_failure(shared, broken, words);
                self.finish_reading(shared, disconnect, now)
            },
            (RoundPhase::Writing, RoundInput::Write(outcome)) => self.see_write(shared, outcome),
            _ => self.rest(false),
        }
    }
}

/// Whether the phase fits: a round that counts its reads has read less than it
/// may, and one that reads or writes has a connected game.
pub open spec fn sound_phase(r: RoundView) -> bool {
    match r.phase {
        RoundPhase::Resting => true,
        RoundPhase::Connecting => true,
        RoundPhase::WordingPeers => r.plane.worker.was_connected,
        RoundPhase::Reading(reads) => r.plane.worker.was_connected && reads
            < MAX_QUEUED_CONTROL_REPLIES,
        RoundPhase::Wording(reads) => r.plane.worker.was_connected && reads
            < MAX_QUEUED_CONTROL_REPLIES,
        RoundPhase::Writing => r.plane.worker.was_connected,
    }
}

/// How far a phase is from the end of the round.
pub open spec fn rank(phase: RoundPhase) -> int {
    match phase {
        RoundPhase::Resting => 0,
        RoundPhase::Writing => 1,
        RoundPhase::Reading(_) => 2,
        RoundPhase::Wording(_) => 2,
        RoundPhase::WordingPeers => 3,
        RoundPhase::Connecting => 4,
    }
}

/// How much of the phase is left.
pub open spec fn left(r: RoundView) -> int {
    match r.phase {
        RoundPhase::Writing => r.plane.worker.outbound.len() as int,
        RoundPhase::Reading(reads) => 2 * (MAX_QUEUED_CONTROL_REPLIES - reads) + 1,
        RoundPhase::Wording(reads) => 2 * (MAX_QUEUED_CONTROL_REPLIES - reads),
        _ => 0,
    }
}

proof fn lemma_dispatching_keeps_the_connection(p: PlaneView, actions: Seq<ActionView>)
    ensures
        adapter_worker::dispatched_all(p, actions).worker.was_connected == p.worker.was_connected,
    decreases actions.len(),
{
    if actions.len() > 0 {
        lemma_dispatching_keeps_the_connection(p, actions.drop_last());
    }
}

proof fn lemma_reports_keep_the_connection(p: PlaneView, reports: Seq<ReportView>)
    ensures
        adapter_worker::reported_all(p, reports).worker.was_connected == p.worker.was_connected,
    decreases reports.len(),
{
    if reports.len() > 0 {
        lemma_reports_keep_the_connection(p, reports.drop_last());
    }
}

proof fn lemma_settling_keeps_the_connection(p: PlaneView, now: u64)
    ensures
        adapter_worker::settled(p, now).worker.was_connected == p.worker.was_connected,
{
    let q = adapter_worker::replies_drained(adapter_worker::loads_expired(p, now));
    lemma_reports_keep_the_connection(
        adapter_worker::sharing(q, SharedView { sound_results: Seq::empty(), ..q.shared }),
        q.shared.sound_results,
    );
}

proof fn lemma_reading_on(p: PlaneView, reads: int, now: u64)
    requires
        p.worker.was_connected,
        reads >= 0,
    ensures
        ({
            let (next, step) = to_reading(p, reads, now);
            &&& sound_phase(next)
            &&& next.plane.worker.was_connected
            &&& !step.disconnect
            &&& step.ask is Read ==> next.phase == RoundPhase::Reading(reads as usize)
            &&& step.ask is Write ==> next.phase == RoundPhase::Writing
                && next.plane.worker.outbound.len() > 0
            &&& next.phase is Reading ==> next.phase->Reading_0 == reads
            &&& !(next.phase is Wording || next.phase is WordingPeers
                || next.phase is Connecting)
        }),
{
    lemma_settling_keeps_the_connection(p, now);
}

proof fn lemma_handling_keeps_the_connection(
    p: PlaneView,
    message: MessageView,
    readings: Seq<Option<u32>>,
    clock: Option<Seq<char>>,
    now: u64,
)
    ensures
        adapter_worker::message_handled(p, message, readings, clock, now).0.worker.was_connected
            == p.worker.was_connected,
{
    let informed = SessionView {
        local_voice_client_id: adapter::known_id(p.shared.local_voice_client_id),
        voip_metadata: p.shared.voip_metadata,
        ..p.worker.session
    };
    let (session, answer) = session::handled(informed, message, readings, clock, now);
    if answer is Ok {
        lemma_dispatching_keeps_the_connection(
            adapter_worker::plane(
                WorkerView { session, ..p.worker },
                SharedView {
                    direct: session::direct_view(session),
                    last_activity: now,
                    ..p.shared
                },
            ),
            answer->Ok_0,
        );
    }
}

proof fn lemma_peers_keep_the_connection(p: PlaneView)
    ensures
        adapter_worker::peers_dispatched(p).0.worker.was_connected == p.worker.was_connected,
{
    let (session, answer) = peer_dispatch::delivered_all(p.worker.session, p.shared.peer_actions);
    if answer is Ok {
        lemma_dispatching_keeps_the_connection(
            PlaneView {
                worker: WorkerView { session, ..p.worker },
                shared: SharedView {
                    peer_actions: Seq::empty(),
                    speaking_updates: Map::empty(),
                    ..p.shared
                },
            },
            answer->Ok_0,
        );
    }
}

/// Whatever comes back, the game is read from and written to only while it is
/// connected, a write always has a reply to write, and the connection is given
/// up only together with the pipes.
pub proof fn law_pipes_are_used_only_while_connected(
    r: RoundView,
    input: RoundInputView,
    now: u64,
)
    requires
        sound_phase(r),
    ensures
        ({
            let (next, step) = stepped(r, input, now);
            &&& sound_phase(next)
            &&& step.ask is Read ==> next.plane.worker.was_connected
            &&& step.ask is Write ==> next.plane.worker.was_connected
                && next.plane.worker.outbound.len() > 0
            &&& step.disconnect ==> !next.plane.worker.was_connected
            &&& r.plane.worker.was_connected && !next.plane.worker.was_connected
                ==> step.disconnect
        }),
{
    let p = r.plane;
    match (r.phase, input) {
        (RoundPhase::Connecting, RoundInputView::Connection(outcome)) => {
            let (q, disconnect) = adapter_worker::connection_seen(p, outcome);
            if !disconnect && q.worker.was_connected {
                let settled = adapter_worker::settled(q, now);
                lemma_settling_keeps_the_connection(q, now);
                lemma_peers_keep_the_connection(settled);
                let (told, refusal) = adapter_worker::peers_dispatched(settled);
                lemma_reading_on(told, 0, now);
            }
        },
        (RoundPhase::WordingPeers, RoundInputView::Words(words)) => {
            lemma_reading_on(
                adapter_worker::telling(
                    p,
                    EventView::RejectedMessage(
                        "could not apply validated ACRE peer state: "@ + words,
                    ),
                ),
                0,
                now,
            );
        },
        (
            RoundPhase::Reading(reads),
            RoundInputView::Message { message, readings, clock },
        ) => {
            lemma_handling_keeps_the_connection(p, message, readings, clock, now);
            lemma_reading_on(
                adapter_worker::message_handled(p, message, readings, clock, now).0,
                reads + 1,
                now,
            );
        },
        (RoundPhase::Wording(reads), RoundInputView::Words(words)) => {
            lemma_reading_on(
                adapter_worker::telling(p, EventView::RejectedMessage(words)),
                reads + 1,
                now,
            );
        },
        (RoundPhase::Reading(_), RoundInputView::Nothing) => {
            lemma_settling_keeps_the_connection(p, now);
        },
        (RoundPhase::Reading(_), RoundInputView::ReadFailure { broken, words }) => {
            lemma_settling_keeps_the_connection(adapter_worker::pipe_lost(p), now);
            lemma_settling_keeps_the_connection(
                adapter_worker::telling(p, EventView::PipeError(words)),
                now,
            );
        },
        _ => {},
    }
}

/// Every round comes to rest: whatever comes back, a step either ends the round
/// or leaves less of it.
pub proof fn law_rounds_come_to_rest(r: RoundView, input: RoundInputView, now: u64)
    requires
        sound_phase(r),
        r.phase != RoundPhase::Resting,
    ensures
        ({
            let (next, step) = stepped(r, input, now);
            ||| next.phase == RoundPhase::Resting && step.ask is Rest
            ||| rank(next.phase) < rank(r.phase)
            ||| rank(next.phase) == rank(r.phase) && 0 <= left(next) < left(r)
        }),
{
    law_pipes_are_used_only_while_connected(r, input, now);
}

} // verus!
