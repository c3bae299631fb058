//! The pipe worker's side of the adapter: what it does between its reads and
//! writes.
//!
//! The caller owns the pipes. It asks [`AdapterWorker`] what to do, does it,
//! and hands back what came of it.

use crate::adapter::{
    self, joined, AcreAdapterEvent, AcreSoundWorkerJob, AdapterShared, EventView, JobView,
    SharedView, MAX_QUEUED_CONTROL_REPLIES,
};
use crate::codec::{self, AcreMessage, MessageView};
use crate::decimal::{self, push_decimal};
use crate::logging::LogLevel;
use crate::model;
use crate::peer_dispatch::{self, apply_peer_state_actions};
use crate::session::{
    self, AcreAction, AcreSession, AcreSessionError, ActionView, SessionFault, SessionView,
};
use crate::sound::{self, SoundId, ACRE_MAX_SOUND_ID_BYTES};
use crate::sound_cache::{AcreSoundWorkerResult, ReportView};
use crate::text;
use vstd::pervasive::unreached;
use vstd::prelude::*;
use vstd::utf8::{encode_utf8, is_ascii_chars_encode_utf8};

verus! {

/// The worker's own state.
#[derive(Debug)]
pub struct AdapterWorker {
    session: AcreSession,
    outbound: Vec<AcreMessage>,
    was_connected: bool,
    sound_generation: u64,
    sound_epoch: u64,
}

/// The model of the worker's state. Every reset changes the generation, so that
/// late reports are void; only the game's own reset changes the epoch, which
/// sounds do not outlive.
#[verifier::ext_equal]
pub struct WorkerView {
    pub session: SessionView,
    pub outbound: Seq<MessageView>,
    pub was_connected: bool,
    pub sound_generation: u64,
    pub sound_epoch: u64,
}

impl View for AdapterWorker {
    type V = WorkerView;

    closed spec fn view(&self) -> WorkerView {
        WorkerView {
            session: self.session@,
            outbound: model::views(self.outbound@),
            was_connected: self.was_connected,
            sound_generation: self.sound_generation,
            sound_epoch: self.sound_epoch,
        }
    }
}

/// The worker and what it shares.
#[verifier::ext_equal]
pub struct PlaneView {
    pub worker: WorkerView,
    pub shared: SharedView,
}

/// A plane from its two halves.
pub open spec fn plane(worker: WorkerView, shared: SharedView) -> PlaneView {
    PlaneView { worker, shared }
}

/// The plane with other things shared.
pub open spec fn sharing(p: PlaneView, shared: SharedView) -> PlaneView {
    PlaneView { shared, ..p }
}

/// The plane with one more reply to write.
pub open spec fn replying(p: PlaneView, message: MessageView) -> PlaneView {
    PlaneView {
        worker: WorkerView { outbound: p.worker.outbound.push(message), ..p.worker },
        ..p
    }
}

/// The plane with one more event.
pub open spec fn telling(p: PlaneView, event: EventView) -> PlaneView {
    sharing(p, adapter::pushed(p.shared, event))
}

/// The plane with one more line in the log.
pub open spec fn logging(
    p: PlaneView,
    level: LogLevel,
    name: Seq<char>,
    message: Seq<char>,
) -> PlaneView {
    sharing(p, adapter::logged(p.shared, adapter::entry(level, name, message)))
}

/// The reply that says whether a sound was loaded.
pub open spec fn loaded_reply(id: Seq<char>, loaded: bool) -> MessageView {
    MessageView {
        procedure: "handleLoadedSound"@,
        parameters: seq![
            id,
            if loaded {
                "1"@
            } else {
                "0"@
            },
        ],
        trailing_comma: false,
    }
}

/// The reply that says that a sound could not be played.
pub open spec fn error_reply(id: Seq<char>) -> MessageView {
    MessageView {
        procedure: "handleSoundError"@,
        parameters: seq![id],
        trailing_comma: true,
    }
}

/// A number's successor; the last one is followed by zero.
pub open spec fn successor(n: u64) -> u64 {
    if n == u64::MAX {
        0
    } else {
        (n + 1) as u64
    }
}

/// The plane once what the sound worker has not reported yet is void.
pub open spec fn sounds_reset(p: PlaneView) -> PlaneView {
    let generation = successor(p.worker.sound_generation);
    PlaneView {
        worker: WorkerView { sound_generation: generation, ..p.worker },
        shared: SharedView { sound_generation: generation, ..p.shared },
    }
}

/// The plane once the sounds kept ready are to be forgotten: none of them is
/// played any more, and the sound worker is asked to drop them.
pub open spec fn sounds_cleared(p: PlaneView) -> PlaneView {
    let q = PlaneView {
        worker: WorkerView { sound_epoch: successor(p.worker.sound_epoch), ..p.worker },
        ..p
    };
    match adapter::with_job(p.shared, JobView::Clear) {
        Ok(shared) => sharing(q, shared),
        Err(reason) => logging(
            q,
            LogLevel::Warn,
            "acre_sound_clear_dropped"@,
            "reason="@ + reason,
        ),
    }
}

/// The plane once the game asked for a reset.
pub open spec fn reset_by_game(p: PlaneView) -> PlaneView {
    let forgetful = PlaneView {
        worker: WorkerView { outbound: Seq::empty(), ..p.worker },
        shared: adapter::forgotten(p.shared),
    };
    telling(sounds_cleared(sounds_reset(forgetful)), EventView::ResetRequested)
}

/// The plane once the connection is given up.
pub open spec fn disconnected(p: PlaneView) -> PlaneView {
    let forgetful = PlaneView {
        worker: WorkerView {
            session: session::after_reset(p.worker.session),
            outbound: Seq::empty(),
            was_connected: false,
            ..p.worker
        },
        shared: adapter::forgotten(p.shared),
    };
    telling(sounds_reset(forgetful), EventView::PipeDisconnected)
}

/// The plane once the pipe was lost: the connection is given up, and if there
/// was one, its loss is noted.
pub open spec fn pipe_lost(p: PlaneView) -> PlaneView {
    disconnected(
        sharing(
            p,
            SharedView { pipe_lost: p.shared.pipe_lost || p.worker.was_connected, ..p.shared },
        ),
    )
}

/// The words of a report about a sound.
pub open spec fn sound_words(id: Seq<char>, reason: Seq<char>) -> Seq<char> {
    "id="@ + id + " reason="@ + reason
}

/// The plane once one action of the session was carried out.
pub open spec fn dispatched(p: PlaneView, action: ActionView) -> PlaneView {
    let quiet = sharing(p, SharedView { capture_must_close: true, ..p.shared });
    let generation = p.worker.sound_generation;
    let epoch = p.worker.sound_epoch;
    match action {
        ActionView::SendToArma(message) => replying(p, message),
        ActionView::LocalTransmissionStarted(t) => telling(
            quiet,
            EventView::LocalTransmissionStarted(t),
        ),
        ActionView::LocalTransmissionStopped(t) => telling(
            quiet,
            EventView::LocalTransmissionStopped(t),
        ),
        ActionView::SoundSystemOverrideChanged(enabled) => telling(
            p,
            EventView::SoundSystemOverrideChanged(enabled),
        ),
        ActionView::LocalMuteChanged(muted) => telling(p, EventView::LocalMuteChanged(muted)),
        ActionView::UserMuteChanged { voice_client_id, muted } => telling(
            p,
            EventView::UserMuteChanged { voice_client_id, muted },
        ),
        ActionView::ListenerUpdated(state) => sharing(
            p,
            SharedView { listener_state: Some(state), ..p.shared },
        ),
        ActionView::SpeakingUpdated(update) => sharing(p, adapter::recorded(p.shared, update)),
        ActionView::SoundLoaded(sound) => match adapter::with_job(
            p.shared,
            JobView::Load { generation, epoch, sound },
        ) {
            Ok(shared) => sharing(p, shared),
            Err(reason) => logging(
                replying(p, loaded_reply(sound.id, false)),
                LogLevel::Warn,
                "acre_sound_load_dropped"@,
                sound_words(sound.id, reason),
            ),
        },
        ActionView::SoundPlaybackRequested(request) => match adapter::with_job(
            p.shared,
            JobView::Play { generation, epoch, request },
        ) {
            Ok(shared) => sharing(p, shared),
            Err(reason) => logging(
                replying(p, error_reply(request.id)),
                LogLevel::Warn,
                "acre_sound_playback_dropped"@,
                sound_words(request.id, reason),
            ),
        },
        ActionView::ResetRequested => reset_by_game(p),
    }
}

/// The plane once all actions of the session were carried out, in order.
pub open spec fn dispatched_all(p: PlaneView, actions: Seq<ActionView>) -> PlaneView
    decreases actions.len(),
{
    if actions.len() == 0 {
        p
    } else {
        dispatched(dispatched_all(p, actions.drop_last()), actions.last())
    }
}

/// The plane once a report of the sound worker was taken note of. A report for
/// an earlier state of the game is void.
pub open spec fn reported(p: PlaneView, report: ReportView) -> PlaneView {
    let current = p.worker.sound_generation;
    match report {
        ReportView::Loaded { generation, id, sample_count } => if generation == current {
            logging(
                replying(p, loaded_reply(id, true)),
                LogLevel::Debug,
                "acre_sound_prepared"@,
                "id="@ + id + " samples="@ + decimal::decimal(sample_count as nat),
            )
        } else {
            p
        },
        ReportView::LoadFailed { generation, id, reason } => if generation == current {
            logging(
                replying(p, loaded_reply(id, false)),
                LogLevel::Warn,
                "acre_sound_load_failed"@,
                sound_words(id, reason),
            )
        } else {
            p
        },
        ReportView::PlaybackReady { generation, id, file } => if generation == current {
            telling(p, EventView::SoundPlaybackReady { generation, id, file })
        } else {
            p
        },
        ReportView::PlaybackFailed { generation, id, reason } => if generation == current {
            logging(
                replying(p, error_reply(id)),
                LogLevel::Warn,
                "acre_sound_playback_failed"@,
                sound_words(id, reason),
            )
        } else {
            p
        },
    }
}

/// The plane once all reports of the sound worker were taken note of, in order.
pub open spec fn reported_all(p: PlaneView, reports: Seq<ReportView>) -> PlaneView
    decreases reports.len(),
{
    if reports.len() == 0 {
        p
    } else {
        reported(reported_all(p, reports.drop_last()), reports.last())
    }
}

/// The plane without the sound transfers that have rested too long.
pub open spec fn loads_expired(p: PlaneView, now: u64) -> PlaneView {
    let gone = sound::expired_ids(p.worker.session.sounds, now);
    PlaneView {
        worker: WorkerView {
            session: SessionView {
                sounds: sound::unexpired(p.worker.session.sounds, now),
                ..p.worker.session
            },
            ..p.worker
        },
        shared: SharedView {
            log: p.shared.log + gone.map_values(
                |id: Seq<char>|
                    adapter::entry(LogLevel::Warn, "acre_sound_load_expired"@, "id="@ + id),
            ),
            ..p.shared
        },
    }
}

/// The plane with the control plane's replies among those to write.
pub open spec fn replies_drained(p: PlaneView) -> PlaneView {
    PlaneView {
        worker: WorkerView {
            outbound: p.worker.outbound + p.shared.control_replies,
            ..p.worker
        },
        shared: SharedView { control_replies: Seq::empty(), ..p.shared },
    }
}

/// The plane with the sound worker's reports taken note of.
pub open spec fn results_drained(p: PlaneView) -> PlaneView {
    reported_all(
        sharing(p, SharedView { sound_results: Seq::empty(), ..p.shared }),
        p.shared.sound_results,
    )
}

/// The plane once everything that waited for the worker, but for its peers'
/// changes, was taken in.
pub open spec fn settled(p: PlaneView, now: u64) -> PlaneView {
    results_drained(replies_drained(loads_expired(p, now)))
}

/// The plane once the peers' changes were passed on to the game, and the
/// session's refusal if there was one.
pub open spec fn peers_dispatched(p: PlaneView) -> (PlaneView, Option<SessionFault>) {
    if p.shared.peer_actions.len() == 0 {
        (p, None)
    } else {
        let (session, answer) = peer_dispatch::delivered_all(
            p.worker.session,
            p.shared.peer_actions,
        );
        let next = PlaneView {
            worker: WorkerView { session, ..p.worker },
            shared: SharedView {
                peer_actions: Seq::empty(),
                speaking_updates: Map::empty(),
                ..p.shared
            },
        };
        match answer {
            Ok(actions) => (dispatched_all(next, actions), None),
            Err(fault) => (next, Some(fault)),
        }
    }
}

/// The plane once one message of the game was handled, and the session's
/// refusal if there was one.
pub open spec fn message_handled(
    p: PlaneView,
    message: MessageView,
    readings: Seq<Option<u32>>,
    clock: Option<Seq<char>>,
    now: u64,
) -> (PlaneView, Option<SessionFault>) {
    let informed = SessionView {
        local_voice_client_id: adapter::known_id(p.shared.local_voice_client_id),
        voip_metadata: p.shared.voip_metadata,
        ..p.worker.session
    };
    let (session, answer) = session::handled(informed, message, readings, clock, now);
    let worker = WorkerView { session, ..p.worker };
    match answer {
        Ok(actions) => (
            dispatched_all(
                plane(
                    worker,
                    SharedView {
                        direct: session::direct_view(session),
                        last_activity: now,
                        ..p.shared
                    },
                ),
                actions,
            ),
            None,
        ),
        Err(fault) => (plane(worker, p.shared), Some(fault)),
    }
}

/// The plane at the beginning of a round: a requested reset, or more replies
/// than the game can take, give the connection up.
pub open spec fn begun(p: PlaneView) -> (PlaneView, bool) {
    if p.shared.reset {
        (disconnected(sharing(p, SharedView { reset: false, ..p.shared })), true)
    } else if p.worker.outbound.len() > MAX_QUEUED_CONTROL_REPLIES {
        (disconnected(p), true)
    } else {
        (p, false)
    }
}

/// The plane once the pipes were asked whether both are connected, and whether
/// the connection is given up.
pub open spec fn connection_seen(p: PlaneView, outcome: Result<bool, Seq<char>>) -> (
    PlaneView,
    bool,
) {
    let marked = |q: PlaneView, connected: bool|
        PlaneView { worker: WorkerView { was_connected: connected, ..q.worker }, ..q };
    match outcome {
        Ok(true) => if p.worker.was_connected {
            (p, false)
        } else {
            (marked(telling(p, EventView::PipeConnected), true), false)
        },
        Ok(false) => if p.worker.was_connected {
            (pipe_lost(p), true)
        } else {
            (p, false)
        },
        Err(words) => (pipe_lost(telling(p, EventView::PipeError(words))), true),
    }
}

/// Whether a round reads once more after so many reads.
pub open spec fn reads_on(w: WorkerView, reads: int) -> bool {
    reads < MAX_QUEUED_CONTROL_REPLIES && w.outbound.len() < MAX_QUEUED_CONTROL_REPLIES
}

/// What came of writing the oldest reply.
#[derive(Debug, PartialEq, Eq)]
pub enum WriteOutcome {
    Written,
    WouldBlock,
    Broken,
    Failed(String),
}

/// The model of what came of a write.
#[verifier::ext_equal]
pub enum WriteView {
    Written,
    WouldBlock,
    Broken,
    Failed(Seq<char>),
}

impl View for WriteOutcome {
    type V = WriteView;

    open spec fn view(&self) -> WriteView {
        match *self {
            WriteOutcome::Written => WriteView::Written,
            WriteOutcome::WouldBlock => WriteView::WouldBlock,
            WriteOutcome::Broken => WriteView::Broken,
            WriteOutcome::Failed(words) => WriteView::Failed(words@),
        }
    }
}

/// What to do after a write.
#[derive(Clone, Copy, Debug, PartialEq, Eq, Structural)]
pub enum FlushStep {
    WriteOn,
    Rest,
    Disconnect,
}

/// The plane once the oldest reply was written or not, and what to do next.
pub open spec fn write_seen(p: PlaneView, outcome: WriteView) -> (PlaneView, FlushStep) {
    let shorter = |q: PlaneView|
        PlaneView {
            worker: WorkerView { outbound: q.worker.outbound.remove(0), ..q.worker },
            ..q
        };
    match outcome {
        WriteView::Written => (shorter(p), FlushStep::WriteOn),
        WriteView::WouldBlock => (p, FlushStep::Rest),
        WriteView::Broken => (pipe_lost(p), FlushStep::Disconnect),
        WriteView::Failed(words) => (
            shorter(telling(p, EventView::PipeError(words))),
            FlushStep::WriteOn,
        ),
    }
}

/// A name made of letters is a procedure's name.
proof fn lemma_letters_name_a_procedure(name: Seq<char>)
    requires
        name.len() >= 2,
        forall|i: int|
            0 <= i < name.len() ==> 'a' <= #[trigger] name[i] <= 'z' || 'A' <= name[i] <= 'Z',
    ensures
        codec::procedure_fault(encode_utf8(name)) is None,
{
    let bytes = encode_utf8(name);
    assert(vstd::utf8::is_ascii_chars(name)) by {
        assert forall|i| 0 <= i < name.len() implies '\0' <= #[trigger] name[i] <= '\u{7f}' by {}
    }
    is_ascii_chars_encode_utf8(name);
    text::lemma_first_where(bytes, codec::not_procedure());
    assert forall|i: int| 0 <= i < bytes.len() implies !codec::not_procedure()(
        #[trigger] bytes[i],
    ) by {
        assert(name[i] as u8 == bytes[i]);
    }
}

/// A checked sound ID fits into a message.
proof fn lemma_sound_id_fits(id: Seq<char>)
    requires
        sound::sound_id_fault(id) is None,
    ensures
        text::first_where(encode_utf8(id), codec::not_parameter()) is None,
        id.len() <= ACRE_MAX_SOUND_ID_BYTES,
{
    let bytes = encode_utf8(id);
    assert forall|i: int| 0 <= i < bytes.len() implies #[trigger] bytes[i] < 128
        && codec::is_parameter_byte(bytes[i]) by {
        assert(sound::is_sound_id_byte(bytes[i]));
    }
    text::lemma_ascii_bytes(id);
    text::lemma_first_where(bytes, codec::not_parameter());
    if text::first_where(bytes, codec::not_parameter()) is Some {
        let at = text::first_where(bytes, codec::not_parameter())->0;
        assert(codec::is_parameter_byte(bytes[at]));
    }
}

/// A digit fits into a message.
proof fn lemma_digit_fits(digit: Seq<char>)
    requires
        digit.len() == 1,
        '0' <= digit[0] <= '1',
    ensures
        text::first_where(encode_utf8(digit), codec::not_parameter()) is None,
{
    let bytes = encode_utf8(digit);
    assert(vstd::utf8::is_ascii_chars(digit)) by {
        assert forall|i| 0 <= i < digit.len() implies '\0' <= #[trigger] digit[i] <= '\u{7f}' by {}
    }
    is_ascii_chars_encode_utf8(digit);
    text::lemma_first_where(bytes, codec::not_parameter());
    assert forall|i: int| 0 <= i < bytes.len() implies !codec::not_parameter()(
        #[trigger] bytes[i],
    ) by {
        assert(digit[i] as u8 == bytes[i]);
    }
}

/// The message with one checked sound ID, or with one and a digit, is fit.
proof fn lemma_sound_replies_are_fit(id: Seq<char>, loaded: bool)
    requires
        sound::sound_id_fault(id) is None,
    ensures
        ({
            let reply = loaded_reply(id, loaded);
            codec::built(reply.procedure, reply.parameters, false) == Ok::<
                MessageView,
                codec::AcreCodecError,
            >(reply)
        }),
        ({
            let reply = error_reply(id);
            codec::built(reply.procedure, reply.parameters, true) == Ok::<
                MessageView,
                codec::AcreCodecError,
            >(reply)
        }),
{
    reveal_strlit("handleLoadedSound");
    reveal_strlit("handleSoundError");
    reveal_strlit("1");
    reveal_strlit("0");
    lemma_letters_name_a_procedure("handleLoadedSound"@);
    lemma_letters_name_a_procedure("handleSoundError"@);
    lemma_sound_id_fits(id);
    lemma_digit_fits("1"@);
    lemma_digit_fits("0"@);
    let none = Seq::<Seq<char>>::empty();
    let single = seq![id];
    let pair = loaded_reply(id, loaded).parameters;
    assert(single.drop_last() =~= none);
    assert(pair.drop_last() =~= single);
    assert(codec::first_unfit(none) is None);
    assert(codec::first_unfit(single) is None);
    assert(codec::first_unfit(pair) is None);
    codec::lemma_join_len(single, ',');
    codec::lemma_join_len(pair, ',');
    assert(codec::total_len(none) == 0);
    assert(codec::total_len(single) == id.len());
    assert(codec::total_len(pair) == id.len() + 1);
}

/// The reply that says whether a sound was loaded.
fn loaded_sound_reply(id: &SoundId, loaded: bool) -> (reply: AcreMessage)
    ensures
        reply@ == loaded_reply(id@, loaded),
{
    let text: &str = id.as_str();
    let parameters: Vec<String> =
        vec![
            text.to_owned(),
            (if loaded {
                "1"
            } else {
                "0"
            }).to_owned(),
        ];
    proof {
        assert(text::texts(parameters@) =~= loaded_reply(id@, loaded).parameters);
        lemma_sound_replies_are_fit(id@, loaded);
    }
    match AcreMessage::new("handleLoadedSound", parameters) {
        Ok(message) => message,
        Err(_) => unreached(),
    }
}

/// The reply that says that a sound could not be played.
fn sound_error_reply(id: &SoundId) -> (reply: AcreMessage)
    ensures
        reply@ == error_reply(id@),
{
    let parameters: Vec<String> = vec![id.as_str().to_owned()];
    proof {
        assert(text::texts(parameters@) =~= error_reply(id@).parameters);
        lemma_sound_replies_are_fit(id@, true);
    }
    match AcreMessage::with_trailing_comma("handleSoundError", parameters, true) {
        Ok(message) => message,
        Err(_) => unreached(),
    }
}

/// The words of a report about a sound.
fn sound_report(id: &SoundId, reason: &str) -> (words: String)
    ensures
        words@ == sound_words(id@, reason@),
{
    let mut words: String = joined("id=", id.as_str());
    words.append(" reason=");
    words.append(reason);
    words
}

impl AdapterShared {
    /// Tells the game that a prepared sound could not be played; false if too
    /// many replies wait.
    pub fn enqueue_sound_error(&mut self, id: &SoundId) -> (taken: bool)
        ensures
            (final(self)@, taken) == adapter::replied(old(self)@, error_reply(id@)),
    {
        self.enqueue_control_reply(sound_error_reply(id))
    }
}

impl AdapterWorker {
    /// A worker before its first connection.
    pub fn new(plugin_version: &str) -> (worker: Self)
        ensures
            worker@ == (WorkerView {
                session: session::fresh_session(plugin_version@),
                outbound: Seq::empty(),
                was_connected: false,
                sound_generation: 0,
                sound_epoch: 0,
            }),
    {
        let worker = AdapterWorker {
            session: AcreSession::new(plugin_version),
            outbound: Vec::new(),
            was_connected: false,
            sound_generation: 0,
            sound_epoch: 0,
        };
        assert(worker@.outbound =~= Seq::empty());
        worker
    }

    /// Makes void what the sound worker has not reported yet.
    fn reset_sounds(&mut self, shared: &mut AdapterShared)
        ensures
            plane(final(self)@, final(shared)@) == sounds_reset(plane(old(self)@, old(shared)@)),
    {
        self.sound_generation = self.sound_generation.wrapping_add(1);
        shared.set_sound_generation(self.sound_generation);
    }

    /// Has the sounds kept ready forgotten.
    fn clear_sounds(&mut self, shared: &mut AdapterShared)
        ensures
            plane(final(self)@, final(shared)@) == sounds_cleared(plane(old(self)@, old(shared)@)),
    {
        self.sound_epoch = self.sound_epoch.wrapping_add(1);
        match shared.enqueue_sound_job(AcreSoundWorkerJob::Clear) {
            Ok(()) => {},
            Err(reason) => {
                shared.push_log(
                    LogLevel::Warn,
                    "acre_sound_clear_dropped",
                    joined("reason=", reason),
                );
            },
        }
    }

    /// Gives a lost connection up.
    fn reset_after_loss(&mut self, shared: &mut AdapterShared)
        ensures
            plane(final(self)@, final(shared)@) == pipe_lost(plane(old(self)@, old(shared)@)),
    {
        if self.was_connected {
            shared.lose_pipe();
        }
        assert(shared@ =~= (SharedView {
            pipe_lost: old(shared)@.pipe_lost || old(self)@.was_connected,
            ..old(shared)@
        }));
        self.reset_after_disconnect(shared);
    }

    /// Gives the connection up and forgets what depended on it.
    fn reset_after_disconnect(&mut self, shared: &mut AdapterShared)
        ensures
            plane(final(self)@, final(shared)@) == disconnected(plane(old(self)@, old(shared)@)),
    {
        broadcast use model::group_views;

        self.session.reset();
        self.outbound.clear();
        self.was_connected = false;
        shared.forget();
        self.reset_sounds(shared);
        shared.push_event(AcreAdapterEvent::PipeDisconnected);
    }

    /// Carries out one action of the session.
    fn dispatch_action(&mut self, shared: &mut AdapterShared, action: AcreAction)
        ensures
            plane(final(self)@, final(shared)@) == dispatched(
                plane(old(self)@, old(shared)@),
                action@,
            ),
    {
        broadcast use model::group_views;

        match action {
            AcreAction::SendToArma(message) => {
                self.outbound.push(message);
            },
            AcreAction::LocalTransmissionStarted(transmission) => {
                shared.close_capture();
                shared.push_event(AcreAdapterEvent::LocalTransmissionStarted(transmission));
            },
            AcreAction::LocalTransmissionStopped(transmission) => {
                shared.close_capture();
                shared.push_event(AcreAdapterEvent::LocalTransmissionStopped(transmission));
            },
            AcreAction::SoundSystemOverrideChanged(enabled) => {
                shared.push_event(AcreAdapterEvent::SoundSystemOverrideChanged(enabled));
            },
            AcreAction::LocalMuteChanged(muted) => {
                shared.push_event(AcreAdapterEvent::LocalMuteChanged(muted));
            },
            AcreAction::UserMuteChanged { voice_client_id, muted } => {
                shared.push_event(AcreAdapterEvent::UserMuteChanged { voice_client_id, muted });
            },
            AcreAction::ListenerUpdated(state) => {
                shared.record_listener_state(state);
            },
            AcreAction::SpeakingUpdated(update) => {
                shared.record_speaking_update(update);
            },
            AcreAction::SoundLoaded(sound) => {
                let id: SoundId = sound.sound_id();
                let generation: u64 = self.sound_generation;
                let epoch: u64 = self.sound_epoch;
                match shared.enqueue_sound_job(
                    AcreSoundWorkerJob::Load { generation, epoch, sound },
                ) {
                    Ok(()) => {},
                    Err(reason) => {
                        self.outbound.push(loaded_sound_reply(&id, false));
                        shared.push_log(
                            LogLevel::Warn,
                            "acre_sound_load_dropped",
                            sound_report(&id, reason),
                        );
                    },
                }
            },
            AcreAction::SoundPlaybackRequested(request) => {
                let id: SoundId = request.sound_id();
                let generation: u64 = self.sound_generation;
                let epoch: u64 = self.sound_epoch;
                match shared.enqueue_sound_job(
                    AcreSoundWorkerJob::Play { generation, epoch, request },
                ) {
                    Ok(()) => {},
                    Err(reason) => {
                        self.outbound.push(sound_error_reply(&id));
                        shared.push_log(
                            LogLevel::Warn,
                            "acre_sound_playback_dropped",
                            sound_report(&id, reason),
                        );
                    },
                }
            },
            AcreAction::ResetRequested => {
                self.outbound.clear();
                shared.forget();
                self.reset_sounds(shared);
                self.clear_sounds(shared);
                shared.push_event(AcreAdapterEvent::ResetRequested);
            },
        }
    }

    /// Carries out the actions of the session in order.
    fn dispatch_actions(&mut self, shared: &mut AdapterShared, actions: Vec<AcreAction>)
        ensures
            plane(final(self)@, final(shared)@) == dispatched_all(
                plane(old(self)@, old(shared)@),
                model::views(actions@),
            ),
    {
        broadcast use model::group_views;

        let ghost all = model::views(actions@);
        let ghost before = plane(self@, shared@);
        let mut rest: Vec<AcreAction> = actions;
        let ghost mut done: int = 0;
        assert(all.take(0) =~= Seq::<ActionView>::empty());
        assert(all.skip(0) =~= all);
        while rest.len() > 0
            invariant
                0 <= done <= all.len(),
                model::views(rest@) == all.skip(done),
                plane(self@, shared@) == dispatched_all(before, all.take(done)),
            decreases rest@.len(),
        {
            broadcast use model::group_views;

            let ghost head = rest@[0]@;
            proof {
                assert(model::views(rest@).len() == rest@.len());
                assert(model::views(rest@)[0] == head);
                assert(all.skip(done)[0] == all[done]);
            }
            let action: AcreAction = rest.remove(0);
            proof {
                assert(all.take(done + 1).drop_last() =~= all.take(done));
                assert(all.take(done + 1).last() == head);
                assert(model::views(rest@) =~= all.skip(done + 1));
                done = done + 1;
            }
            self.dispatch_action(shared, action);
        }
        assert(all.take(done) =~= all) by {
            assert(model::views(rest@).len() == all.skip(done).len());
        }
    }

    /// Takes note of one report of the sound worker.
    fn apply_sound_result(&mut self, shared: &mut AdapterShared, result: AcreSoundWorkerResult)
        ensures
            plane(final(self)@, final(shared)@) == reported(
                plane(old(self)@, old(shared)@),
                result@,
            ),
    {
        broadcast use model::group_views;

        match result {
            AcreSoundWorkerResult::Loaded { generation, id, sample_count } => {
                if generation == self.sound_generation {
                    self.outbound.push(loaded_sound_reply(&id, true));
                    let mut words: String = joined("id=", id.as_str());
                    words.append(" samples=");
                    push_decimal(&mut words, sample_count as u64);
                    shared.push_log(LogLevel::Debug, "acre_sound_prepared", words);
                }
            },
            AcreSoundWorkerResult::LoadFailed { generation, id, reason } => {
                if generation == self.sound_generation {
                    self.outbound.push(loaded_sound_reply(&id, false));
                    shared.push_log(
                        LogLevel::Warn,
                        "acre_sound_load_failed",
                        sound_report(&id, reason.as_str()),
                    );
                }
            },
            AcreSoundWorkerResult::PlaybackReady { generation, id, file } => {
                if generation == self.sound_generation {
                    shared.push_event(
                        AcreAdapterEvent::SoundPlaybackReady { generation, id, file },
                    );
                }
            },
            AcreSoundWorkerResult::PlaybackFailed { generation, id, reason } => {
                if generation == self.sound_generation {
                    self.outbound.push(sound_error_reply(&id));
                    shared.push_log(
                        LogLevel::Warn,
                        "acre_sound_playback_failed",
                        sound_report(&id, reason.as_str()),
                    );
                }
            },
        }
    }

    /// Takes note of what the sound worker reported.
    fn drain_sound_results(&mut self, shared: &mut AdapterShared)
        ensures
            plane(final(self)@, final(shared)@) == results_drained(
                plane(old(self)@, old(shared)@),
            ),
    {
        broadcast use model::group_views;

        let results: Vec<AcreSoundWorkerResult> = shared.take_sound_results();
        let ghost all = model::views(results@);
        let ghost before = plane(self@, shared@);
        let mut rest: Vec<AcreSoundWorkerResult> = results;
        let ghost mut done: int = 0;
        assert(all.take(0) =~= Seq::<ReportView>::empty());
        assert(all.skip(0) =~= all);
        while rest.len() > 0
            invariant
                0 <= done <= all.len(),
                model::views(rest@) == all.skip(done),
                plane(self@, shared@) == reported_all(before, all.take(done)),
            decreases rest@.len(),
        {
            broadcast use model::group_views;

            let ghost head = rest@[0]@;
            proof {
                assert(model::views(rest@).len() == rest@.len());
                assert(model::views(rest@)[0] == head);
                assert(all.skip(done)[0] == all[done]);
            }
            let result: AcreSoundWorkerResult = rest.remove(0);
            proof {
                assert(all.take(done + 1).drop_last() =~= all.take(done));
                assert(all.take(done + 1).last() == head);
                assert(model::views(rest@) =~= all.skip(done + 1));
                done = done + 1;
            }
            self.apply_sound_result(shared, result);
        }
        assert(all.take(done) =~= all) by {
            assert(model::views(rest@).len() == all.skip(done).len());
        }
    }

    /// Drops the sound transfers that have rested too long.
    fn expire_sound_loads(&mut self, shared: &mut AdapterShared, now: u64)
        ensures
            plane(final(self)@, final(shared)@) == loads_expired(
                plane(old(self)@, old(shared)@),
                now,
            ),
    {
        let ghost before = shared@;
        let ghost line = |id: Seq<char>|
            adapter::entry(LogLevel::Warn, "acre_sound_load_expired"@, "id="@ + id);
        let ids: Vec<String> = self.session.expire_sound_loads(now);
        let ghost gone = text::texts(ids@);
        let ghost worker = self@;
        let mut i: usize = 0;
        assert(before.log + gone.take(0).map_values(line) =~= before.log);
        while i < ids.len()
            invariant
                i <= ids@.len(),
                gone == text::texts(ids@),
                line == |id: Seq<char>|
                    adapter::entry(LogLevel::Warn, "acre_sound_load_expired"@, "id="@ + id),
                self@ == worker,
                shared@ == (SharedView {
                    log: before.log + gone.take(i as int).map_values(line),
                    ..before
                }),
            decreases ids@.len() - i,
        {
            shared.push_log(
                LogLevel::Warn,
                "acre_sound_load_expired",
                joined("id=", ids[i].as_str()),
            );
            assert(before.log + gone.take(i + 1).map_values(line) =~= (before.log + gone.take(
                i as int,
            ).map_values(line)).push(line(gone[i as int])));
            i += 1;
        }
        assert(gone.take(i as int) =~= gone);
    }

    /// Takes in everything that waits for the worker but the peers' changes.
    pub fn settle(&mut self, shared: &mut AdapterShared, now: u64)
        ensures
            plane(final(self)@, final(shared)@) == settled(plane(old(self)@, old(shared)@), now),
    {
        broadcast use model::group_views;

        self.expire_sound_loads(shared, now);
        let mut replies: Vec<AcreMessage> = shared.take_control_replies();
        let ghost earlier = self.outbound@;
        let ghost added = replies@;
        self.outbound.append(&mut replies);
        assert(self.outbound@ =~= earlier + added);
        self.drain_sound_results(shared);
    }

    /// Passes the peers' changes on to the game. A refusal of the session is
    /// returned for [`AdapterWorker::reject_peers`].
    pub fn dispatch_queued_peer_actions(&mut self, shared: &mut AdapterShared) -> (refusal: Option<
        AcreSessionError,
    >)
        ensures
            (plane(final(self)@, final(shared)@), model::optional(refusal)) == peers_dispatched(
                plane(old(self)@, old(shared)@),
            ),
    {
        broadcast use model::group_views;

        let changes = shared.take_peer_actions();
        if changes.len() == 0 {
            assert(shared@ =~= old(shared)@);
            return None;
        }
        shared.clear_speaking_updates();
        match apply_peer_state_actions(&mut self.session, changes) {
            Ok(actions) => {
                self.dispatch_actions(shared, actions);
                None
            },
            Err(error) => Some(error),
        }
    }

    /// Begins a round. True if the pipes must be disconnected.
    pub fn begin(&mut self, shared: &mut AdapterShared) -> (disconnect: bool)
        ensures
            (plane(final(self)@, final(shared)@), disconnect) == begun(
                plane(old(self)@, old(shared)@),
            ),
    {
        if shared.take_reset() {
            self.reset_after_disconnect(shared);
            return true;
        }
        assert(shared@ =~= old(shared)@);
        if self.outbound.len() > MAX_QUEUED_CONTROL_REPLIES {
            self.reset_after_disconnect(shared);
            return true;
        }
        false
    }

    /// Takes note of whether both pipes are connected, or of the words with
    /// which asking failed. True if the pipes must be disconnected.
    pub fn see_connection(&mut self, shared: &mut AdapterShared, outcome: Result<bool, String>) -> (
    disconnect: bool)
        ensures
            (plane(final(self)@, final(shared)@), disconnect) == connection_seen(
                plane(old(self)@, old(shared)@),
                match outcome {
                    Ok(connected) => Ok(connected),
                    Err(words) => Err(words@),
                },
            ),
    {
        match outcome {
            Ok(connected) => {
                if connected {
                    if !self.was_connected {
                        shared.push_event(AcreAdapterEvent::PipeConnected);
                        self.was_connected = true;
                    }
                    false
                } else if self.was_connected {
                    self.reset_after_loss(shared);
                    true
                } else {
                    false
                }
            },
            Err(words) => {
                shared.push_event(AcreAdapterEvent::PipeError(words));
                self.reset_after_loss(shared);
                true
            },
        }
    }

    /// Whether both pipes are connected.
    pub fn is_connected(&self) -> (connected: bool)
        ensures
            connected == self@.was_connected,
    {
        self.was_connected
    }

    /// Whether the round may read once more after `reads` reads.
    pub fn may_read(&self, reads: usize) -> (answer: bool)
        ensures
            answer == reads_on(self@, reads as int),
    {
        reads < MAX_QUEUED_CONTROL_REPLIES && self.outbound.len() < MAX_QUEUED_CONTROL_REPLIES
    }

    /// Handles one message of the game. A refusal of the session is returned
    /// for [`AdapterWorker::reject`]. The arguments are those of
    /// [`AcreSession::handle_from_arma`].
    pub fn handle_message(
        &mut self,
        shared: &mut AdapterShared,
        message: &AcreMessage,
        readings: &[Option<u32>],
        clock: Option<&str>,
        now: u64,
    ) -> (refusal: Option<AcreSessionError>)
        ensures
            (plane(final(self)@, final(shared)@), model::optional(refusal)) == message_handled(
                plane(old(self)@, old(shared)@),
                message@,
                readings@,
                match clock {
                    Some(text) => Some(text@),
                    None => None,
                },
                now,
            ),
    {
        self.session.set_local_voice_client_id(shared.voice_client_id());
        self.session.set_voip_metadata(shared.metadata());
        match self.session.handle_from_arma(message, readings, clock, now) {
            Ok(actions) => {
                shared.note_activity(self.session.direct_transmission(), now);
                self.dispatch_actions(shared, actions);
                None
            },
            Err(error) => Some(error),
        }
    }

    /// Reports the refusal of a message in words.
    pub fn reject(&mut self, shared: &mut AdapterShared, words: String)
        ensures
            plane(final(self)@, final(shared)@) == telling(
                plane(old(self)@, old(shared)@),
                EventView::RejectedMessage(words@),
            ),
    {
        shared.push_event(AcreAdapterEvent::RejectedMessage(words));
    }

    /// Reports the refusal of the peers' changes in words.
    pub fn reject_peers(&mut self, shared: &mut AdapterShared, words: &str)
        ensures
            plane(final(self)@, final(shared)@) == telling(
                plane(old(self)@, old(shared)@),
                EventView::RejectedMessage(
                    "could not apply validated ACRE peer state: "@ + words@,
                ),
            ),
    {
        shared.push_event(
            AcreAdapterEvent::RejectedMessage(
                joined("could not apply validated ACRE peer state: ", words),
            ),
        );
    }

    /// Takes note of a failed read. A broken connection is given up; any other
    /// failure is reported in words and ends the round's reads. True if the
    /// pipes must be disconnected.
    pub fn see_read_failure(&mut self, shared: &mut AdapterShared, broken: bool, words: String) -> (
    disconnect: bool)
        ensures
            disconnect == broken,
            plane(final(self)@, final(shared)@) == if broken {
                pipe_lost(plane(old(self)@, old(shared)@))
            } else {
                telling(plane(old(self)@, old(shared)@), EventView::PipeError(words@))
            },
    {
        if broken {
            self.reset_after_loss(shared);
        } else {
            shared.push_event(AcreAdapterEvent::PipeError(words));
        }
        broken
    }

    /// Whether a reply waits.
    pub fn has_outbound(&self) -> (answer: bool)
        ensures
            answer == (self@.outbound.len() > 0),
    {
        self.outbound.len() > 0
    }

    /// The oldest reply to write, while both pipes are connected.
    pub fn next_outbound(&self) -> (message: Option<&AcreMessage>)
        ensures
            match message {
                Some(message) => self@.was_connected && self@.outbound.len() > 0 && message@
                    == self@.outbound[0],
                None => !self@.was_connected || self@.outbound.len() == 0,
            },
    {
        if self.was_connected && self.outbound.len() > 0 {
            assert(self@.outbound[0] == self.outbound@[0]@);
            Some(&self.outbound[0])
        } else {
            None
        }
    }

    /// Takes note of what came of writing the oldest reply.
    pub fn see_write(&mut self, shared: &mut AdapterShared, outcome: WriteOutcome) -> (step:
        FlushStep)
        requires
            old(self)@.outbound.len() > 0,
        ensures
            (plane(final(self)@, final(shared)@), step) == write_seen(
                plane(old(self)@, old(shared)@),
                outcome@,
            ),
    {
        broadcast use model::group_views;

        match outcome {
            WriteOutcome::Written => {
                let _ = self.outbound.remove(0);
                FlushStep::WriteOn
            },
            WriteOutcome::WouldBlock => FlushStep::Rest,
            WriteOutcome::Broken => {
                self.reset_after_loss(shared);
                FlushStep::Disconnect
            },
            WriteOutcome::Failed(words) => {
                shared.push_event(AcreAdapterEvent::PipeError(words));
                let _ = self.outbound.remove(0);
                FlushStep::WriteOn
            },
        }
    }
}

/// Giving the connection up leaves nothing of the game behind: no reply, no
/// peer change, no audio update and no sound to play waits any more, native
/// speech is unknown, and the control plane is told last. Only what Mumble
/// supplied stays.
pub proof fn law_disconnecting_leaves_nothing_behind(p: PlaneView)
    ensures
        ({
            let q = disconnected(p);
            &&& !q.worker.was_connected
            &&& q.worker.outbound.len() == 0
            &&& q.worker.session == session::after_reset(p.worker.session)
            &&& q.shared.control_replies.len() == 0
            &&& q.shared.peer_actions.len() == 0
            &&& q.shared.listener_state is None
            &&& q.shared.speaking_updates == Map::<u32, crate::speaking::AudioUpdateView>::empty()
            &&& q.shared.direct is None
            &&& forall|i: int|
                0 <= i < q.shared.events.len() ==> !((#[trigger] q.shared.events[i])
                    is SoundPlaybackReady)
            &&& q.shared.events.last() == EventView::PipeDisconnected
            &&& q.shared.local_voice_client_id == p.shared.local_voice_client_id
            &&& q.shared.voip_metadata == p.shared.voip_metadata
        }),
{
    lemma_no_playbacks(p.shared.events);
}

proof fn lemma_no_playbacks(events: Seq<EventView>)
    ensures
        forall|i: int|
            0 <= i < adapter::without_playbacks(events).len() ==> !((
            #[trigger] adapter::without_playbacks(events)[i]) is SoundPlaybackReady),
        adapter::without_playbacks(events).len() <= events.len(),
    decreases events.len(),
{
    reveal(Seq::filter);
    if events.len() > 0 {
        lemma_no_playbacks(events.drop_last());
    }
}

/// What the sound worker reports for a state of the game that was reset, by
/// the game or by a lost connection, does nothing.
pub proof fn law_reports_from_before_a_reset_are_void(p: PlaneView, report: ReportView)
    requires
        match report {
            ReportView::Loaded { generation, .. } => generation == p.worker.sound_generation,
            ReportView::LoadFailed { generation, .. } => generation == p.worker.sound_generation,
            ReportView::PlaybackReady { generation, .. } => generation
                == p.worker.sound_generation,
            ReportView::PlaybackFailed { generation, .. } => generation
                == p.worker.sound_generation,
        },
    ensures
        reported(disconnected(p), report) == disconnected(p),
        reported(reset_by_game(p), report) == reset_by_game(p),
        disconnected(p).shared.sound_generation != p.worker.sound_generation,
        reset_by_game(p).shared.sound_generation != p.worker.sound_generation,
{
}

/// A reset by the game parts with every sound: what the game asks for later
/// belongs to another epoch than any sound loaded before, and the sound worker
/// is asked to drop them, or the log says why it could not be asked. A lost
/// connection keeps them.
pub proof fn law_only_the_game_discards_sounds(p: PlaneView)
    ensures
        ({
            let q = reset_by_game(p);
            &&& q.worker.sound_epoch != p.worker.sound_epoch
            &&& adapter::with_job(p.shared, JobView::Clear) is Ok ==> q.shared.sound_jobs
                == p.shared.sound_jobs.push(JobView::Clear)
            &&& adapter::with_job(p.shared, JobView::Clear) is Err ==> q.shared.sound_jobs
                == p.shared.sound_jobs && q.shared.log.contains(
                adapter::entry(
                    LogLevel::Warn,
                    "acre_sound_clear_dropped"@,
                    "reason="@ + adapter::with_job(p.shared, JobView::Clear)->Err_0,
                ),
            )
            &&& disconnected(p).worker.sound_epoch == p.worker.sound_epoch
            &&& disconnected(p).shared.sound_jobs == p.shared.sound_jobs
            &&& pipe_lost(p).worker.sound_epoch == p.worker.sound_epoch
            &&& pipe_lost(p).shared.sound_jobs == p.shared.sound_jobs
        }),
{
    let q = reset_by_game(p);
    if adapter::with_job(p.shared, JobView::Clear) is Err {
        assert(q.shared.log[p.shared.log.len() as int] == adapter::entry(
            LogLevel::Warn,
            "acre_sound_clear_dropped"@,
            "reason="@ + adapter::with_job(p.shared, JobView::Clear)->Err_0,
        ));
    }
}

/// The loss of the pipe is noted exactly if there was a connection and the
/// plugin did not give it up by itself.
pub proof fn law_losses_are_noted(
    p: PlaneView,
    connection: Result<bool, Seq<char>>,
    write: WriteView,
)
    requires
        !p.shared.pipe_lost,
    ensures
        !begun(p).0.shared.pipe_lost,
        !disconnected(p).shared.pipe_lost,
        connection_seen(p, connection).0.shared.pipe_lost <==> p.worker.was_connected
            && connection != Ok::<bool, Seq<char>>(true),
        write_seen(p, write).0.shared.pipe_lost <==> p.worker.was_connected && write is Broken,
{
}

/// An event is never lost in silence: it is queued, and where that cost older
/// events, the control plane finds the overflow in front of it.
pub proof fn law_lost_events_are_announced(s: SharedView, event: EventView)
    ensures
        adapter::pushed(s, event).events.last() == event,
        adapter::pushed(s, event).events.len() < s.events.len() ==> adapter::pushed(
            s,
            event,
        ).events[0] == EventView::QueueOverflow,
        s.events.len() < adapter::MAX_QUEUED_EVENTS ==> s.events.is_prefix_of(
            adapter::pushed(s, event).events,
        ),
{
    if s.events.len() < adapter::MAX_QUEUED_EVENTS {
        assert(s.events =~= s.events.push(event).subrange(0, s.events.len() as int));
    }
}

proof fn lemma_pushed_bounded(s: SharedView, event: EventView)
    requires
        adapter::bounded(s),
    ensures
        adapter::bounded(adapter::pushed(s, event)),
{
}

proof fn lemma_forgotten_bounded(s: SharedView)
    requires
        adapter::bounded(s),
    ensures
        adapter::bounded(adapter::forgotten(s)),
{
    lemma_no_playbacks(s.events);
}

proof fn lemma_dispatched_bounded(p: PlaneView, action: ActionView)
    requires
        adapter::bounded(p.shared),
    ensures
        adapter::bounded(dispatched(p, action).shared),
{
    match action {
        ActionView::SpeakingUpdated(update) => {
            let id = update.speaking.speaker_id;
            let after = p.shared.speaking_updates.insert(id, update);
            assert(after.dom() =~= p.shared.speaking_updates.dom().insert(id));
        },
        ActionView::ResetRequested => {
            lemma_forgotten_bounded(p.shared);
        },
        _ => {},
    }
}

proof fn lemma_dispatched_all_bounded(p: PlaneView, actions: Seq<ActionView>)
    requires
        adapter::bounded(p.shared),
    ensures
        adapter::bounded(dispatched_all(p, actions).shared),
    decreases actions.len(),
{
    if actions.len() > 0 {
        lemma_dispatched_all_bounded(p, actions.drop_last());
        lemma_dispatched_bounded(dispatched_all(p, actions.drop_last()), actions.last());
    }
}

proof fn lemma_reported_all_bounded(p: PlaneView, reports: Seq<ReportView>)
    requires
        adapter::bounded(p.shared),
    ensures
        adapter::bounded(reported_all(p, reports).shared),
    decreases reports.len(),
{
    if reports.len() > 0 {
        lemma_reported_all_bounded(p, reports.drop_last());
    }
}

proof fn lemma_disconnected_bounded(p: PlaneView)
    requires
        adapter::bounded(p.shared),
    ensures
        adapter::bounded(disconnected(p).shared),
        adapter::bounded(pipe_lost(p).shared),
{
    lemma_forgotten_bounded(p.shared);
    lemma_forgotten_bounded(
        SharedView { pipe_lost: p.shared.pipe_lost || p.worker.was_connected, ..p.shared },
    );
}

proof fn lemma_begun_bounded(p: PlaneView)
    requires
        adapter::bounded(p.shared),
    ensures
        adapter::bounded(begun(p).0.shared),
{
    lemma_disconnected_bounded(p);
    lemma_disconnected_bounded(sharing(p, SharedView { reset: false, ..p.shared }));
}

proof fn lemma_connection_seen_bounded(p: PlaneView, connection: Result<bool, Seq<char>>)
    requires
        adapter::bounded(p.shared),
    ensures
        adapter::bounded(connection_seen(p, connection).0.shared),
{
    lemma_disconnected_bounded(p);
    match connection {
        Ok(_) => {
            lemma_pushed_bounded(p.shared, EventView::PipeConnected);
        },
        Err(words) => {
            lemma_pushed_bounded(p.shared, EventView::PipeError(words));
            lemma_disconnected_bounded(telling(p, EventView::PipeError(words)));
        },
    }
}

proof fn lemma_settled_bounded(p: PlaneView, now: u64)
    requires
        adapter::bounded(p.shared),
    ensures
        adapter::bounded(settled(p, now).shared),
{
    let ready = replies_drained(loads_expired(p, now));
    lemma_reported_all_bounded(
        sharing(ready, SharedView { sound_results: Seq::empty(), ..ready.shared }),
        ready.shared.sound_results,
    );
}

proof fn lemma_peers_dispatched_bounded(p: PlaneView)
    requires
        adapter::bounded(p.shared),
    ensures
        adapter::bounded(peers_dispatched(p).0.shared),
{
    if p.shared.peer_actions.len() > 0 {
        let (session, answer) = peer_dispatch::delivered_all(
            p.worker.session,
            p.shared.peer_actions,
        );
        let next = PlaneView {
            worker: WorkerView { session, ..p.worker },
            shared: SharedView {
                peer_actions: Seq::empty(),
                speaking_updates: Map::empty(),
                ..p.shared
            },
        };
        if answer is Ok {
            lemma_dispatched_all_bounded(next, answer->Ok_0);
        }
    }
}

proof fn lemma_message_handled_bounded(
    p: PlaneView,
    message: MessageView,
    readings: Seq<Option<u32>>,
    clock: Option<Seq<char>>,
    now: u64,
)
    requires
        adapter::bounded(p.shared),
    ensures
        adapter::bounded(message_handled(p, message, readings, clock, now).0.shared),
{
    let informed = SessionView {
        local_voice_client_id: adapter::known_id(p.shared.local_voice_client_id),
        voip_metadata: p.shared.voip_metadata,
        ..p.worker.session
    };
    let (session, answer) = session::handled(informed, message, readings, clock, now);
    if answer is Ok {
        lemma_dispatched_all_bounded(
            plane(
                WorkerView { session, ..p.worker },
                SharedView {
                    direct: session::direct_view(session),
                    last_activity: now,
                    ..p.shared
                },
            ),
            answer->Ok_0,
        );
    }
}

proof fn lemma_write_seen_bounded(p: PlaneView, write: WriteView)
    requires
        adapter::bounded(p.shared),
    ensures
        adapter::bounded(write_seen(p, write).0.shared),
{
    lemma_disconnected_bounded(p);
    if write is Failed {
        lemma_pushed_bounded(p.shared, EventView::PipeError(write->0));
    }
}

/// Every step of the worker keeps all shared queues within their bounds.
pub proof fn law_shared_queues_stay_bounded(
    p: PlaneView,
    message: MessageView,
    readings: Seq<Option<u32>>,
    clock: Option<Seq<char>>,
    connection: Result<bool, Seq<char>>,
    write: WriteView,
    now: u64,
)
    requires
        adapter::bounded(p.shared),
    ensures
        adapter::bounded(begun(p).0.shared),
        adapter::bounded(connection_seen(p, connection).0.shared),
        adapter::bounded(settled(p, now).shared),
        adapter::bounded(peers_dispatched(p).0.shared),
        adapter::bounded(message_handled(p, message, readings, clock, now).0.shared),
        adapter::bounded(write_seen(p, write).0.shared),
        adapter::bounded(disconnected(p).shared),
        adapter::bounded(pipe_lost(p).shared),
{
    lemma_begun_bounded(p);
    lemma_connection_seen_bounded(p, connection);
    lemma_settled_bounded(p, now);
    lemma_peers_dispatched_bounded(p);
    lemma_message_handled_bounded(p, message, readings, clock, now);
    lemma_write_seen_bounded(p, write);
    lemma_disconnected_bounded(p);
}

/// A refused message changes nothing that is shared and writes no reply.
pub proof fn law_refused_messages_share_nothing(
    p: PlaneView,
    message: MessageView,
    readings: Seq<Option<u32>>,
    clock: Option<Seq<char>>,
    now: u64,
)
    requires
        message_handled(p, message, readings, clock, now).1 is Some,
    ensures
        message_handled(p, message, readings, clock, now).0.shared == p.shared,
        message_handled(p, message, readings, clock, now).0.worker.outbound == p.worker.outbound,
{
}

} // verus!
