//! What the pipe worker and the control plane hand each other.
//!
//! The worker owns the session and its queue of replies; the control plane
//! drains events and audio updates. Everything between them is bounded, and
//! nothing here performs any input or output.

use crate::audio_snapshot::{AcreAudioUpdate, PlaneUpdateView, ACRE_AUDIO_MAX_SPEAKERS};
use crate::codec::{self, AcreMessage, MessageView};
use crate::decimal::{self, decimal_text, push_decimal, signed_text};
use crate::logging::LogLevel;
use crate::model;
use crate::order::{self, ascending_keys};
use crate::peer_state::{PeerActionView, PeerStateAction};
use crate::session::{MetadataView, VoipMetadata};
use crate::sound::{AcreLoadedSound, AcreSoundPlayback, LoadedView, PlaybackView, SoundId};
use crate::sound_cache::{AcreSoundWorkerResult, ReportView};
use crate::speaking::{AcreListenerState, AcreSpeakerAudioUpdate, AudioUpdateView};
use crate::text;
use crate::transmission::{self, Transmission, TransmissionView};
use std::collections::HashMap;
use vstd::prelude::*;

verus! {

/// The most events that wait for the control plane.
pub const MAX_QUEUED_EVENTS: usize = 256;

/// The most replies that wait for the worker.
pub const MAX_QUEUED_CONTROL_REPLIES: usize = 256;

/// The most peer changes that wait for the worker.
pub const MAX_QUEUED_PEER_ACTIONS: usize = 256;

/// The most jobs that wait for the sound worker.
pub const MAX_QUEUED_SOUND_JOBS: usize = 32;

/// How long the game may be silent before it counts as gone.
pub const ACTIVITY_LIMIT: u64 = 5_000_000_000;

/// What the worker tells the control plane.
#[derive(Debug, PartialEq)]
pub enum AcreAdapterEvent {
    PipeConnected,
    PipeDisconnected,
    QueueOverflow,
    LocalTransmissionStarted(Transmission),
    LocalTransmissionStopped(Transmission),
    SoundSystemOverrideChanged(bool),
    LocalMuteChanged(bool),
    UserMuteChanged { voice_client_id: u32, muted: bool },
    ResetRequested,
    SoundPlaybackReady { generation: u64, id: SoundId, file: String },
    RejectedMessage(String),
    PipeError(String),
}

/// The model of an event.
#[verifier::ext_equal]
pub enum EventView {
    PipeConnected,
    PipeDisconnected,
    QueueOverflow,
    LocalTransmissionStarted(TransmissionView),
    LocalTransmissionStopped(TransmissionView),
    SoundSystemOverrideChanged(bool),
    LocalMuteChanged(bool),
    UserMuteChanged { voice_client_id: u32, muted: bool },
    ResetRequested,
    SoundPlaybackReady { generation: u64, id: Seq<char>, file: Seq<char> },
    RejectedMessage(Seq<char>),
    PipeError(Seq<char>),
}

impl View for AcreAdapterEvent {
    type V = EventView;

    open spec fn view(&self) -> EventView {
        match *self {
            AcreAdapterEvent::PipeConnected => EventView::PipeConnected,
            AcreAdapterEvent::PipeDisconnected => EventView::PipeDisconnected,
            AcreAdapterEvent::QueueOverflow => EventView::QueueOverflow,
            AcreAdapterEvent::LocalTransmissionStarted(t) => EventView::LocalTransmissionStarted(
                t@,
            ),
            AcreAdapterEvent::LocalTransmissionStopped(t) => EventView::LocalTransmissionStopped(
                t@,
            ),
            AcreAdapterEvent::SoundSystemOverrideChanged(enabled) =>
                EventView::SoundSystemOverrideChanged(enabled),
            AcreAdapterEvent::LocalMuteChanged(muted) => EventView::LocalMuteChanged(muted),
            AcreAdapterEvent::UserMuteChanged { voice_client_id, muted } =>
                EventView::UserMuteChanged { voice_client_id, muted },
            AcreAdapterEvent::ResetRequested => EventView::ResetRequested,
            AcreAdapterEvent::SoundPlaybackReady { generation, id, file } =>
                EventView::SoundPlaybackReady { generation, id: id@, file: file@ },
            AcreAdapterEvent::RejectedMessage(words) => EventView::RejectedMessage(words@),
            AcreAdapterEvent::PipeError(words) => EventView::PipeError(words@),
        }
    }
}

/// One line for the diagnostic log.
#[derive(Debug, PartialEq, Eq)]
pub struct LogEntry {
    pub level: LogLevel,
    pub name: &'static str,
    pub message: String,
}

/// The model of a line.
#[verifier::ext_equal]
pub struct EntryView {
    pub level: LogLevel,
    pub name: Seq<char>,
    pub message: Seq<char>,
}

impl View for LogEntry {
    type V = EntryView;

    open spec fn view(&self) -> EntryView {
        EntryView { level: self.level, name: self.name@, message: self.message@ }
    }
}

/// A job for the sound worker.
#[derive(Debug, PartialEq)]
pub enum AcreSoundWorkerJob {
    Load { generation: u64, epoch: u64, sound: AcreLoadedSound },
    Play { generation: u64, epoch: u64, request: AcreSoundPlayback },
    Clear,
}

/// The model of a job.
#[verifier::ext_equal]
pub enum JobView {
    Load { generation: u64, epoch: u64, sound: LoadedView },
    Play { generation: u64, epoch: u64, request: PlaybackView },
    Clear,
}

impl View for AcreSoundWorkerJob {
    type V = JobView;

    open spec fn view(&self) -> JobView {
        match *self {
            AcreSoundWorkerJob::Load { generation, epoch, sound } => JobView::Load {
                generation,
                epoch,
                sound: sound@,
            },
            AcreSoundWorkerJob::Play { generation, epoch, request } => JobView::Play {
                generation,
                epoch,
                request: request@,
            },
            AcreSoundWorkerJob::Clear => JobView::Clear,
        }
    }
}

/// Everything that the pipe worker, the sound worker and the control plane
/// share.
#[derive(Debug)]
pub struct AdapterShared {
    events: Vec<AcreAdapterEvent>,
    control_replies: Vec<AcreMessage>,
    peer_actions: Vec<PeerStateAction>,
    listener_state: Option<AcreListenerState>,
    speaking_updates: HashMap<u32, AcreSpeakerAudioUpdate>,
    dropped_speaking_updates: u64,
    direct: Option<Transmission>,
    voip_metadata: Option<VoipMetadata>,
    local_voice_client_id: u32,
    last_activity: u64,
    reset: bool,
    pipe_lost: bool,
    sound_generation: u64,
    sound_worker_runs: bool,
    sound_jobs: Vec<AcreSoundWorkerJob>,
    sound_results: Vec<AcreSoundWorkerResult>,
    log: Vec<LogEntry>,
    capture_must_close: bool,
}

/// The model of what is shared.
#[verifier::ext_equal]
pub struct SharedView {
    pub events: Seq<EventView>,
    pub control_replies: Seq<MessageView>,
    pub peer_actions: Seq<PeerActionView>,
    pub listener_state: Option<AcreListenerState>,
    pub speaking_updates: Map<u32, AudioUpdateView>,
    pub dropped_speaking_updates: u64,
    pub direct: Option<TransmissionView>,
    pub voip_metadata: Option<MetadataView>,
    pub local_voice_client_id: u32,
    pub last_activity: u64,
    pub reset: bool,
    pub pipe_lost: bool,
    pub sound_generation: u64,
    pub sound_worker_runs: bool,
    pub sound_jobs: Seq<JobView>,
    pub sound_results: Seq<ReportView>,
    pub log: Seq<EntryView>,
    pub capture_must_close: bool,
}

/// The models of the decisions in a table.
pub open spec fn update_views(table: Map<u32, AcreSpeakerAudioUpdate>) -> Map<
    u32,
    AudioUpdateView,
> {
    table.map_values(|update: AcreSpeakerAudioUpdate| update@)
}

impl View for AdapterShared {
    type V = SharedView;

    closed spec fn view(&self) -> SharedView {
        SharedView {
            events: model::views(self.events@),
            control_replies: model::views(self.control_replies@),
            peer_actions: model::views(self.peer_actions@),
            listener_state: self.listener_state,
            speaking_updates: update_views(self.speaking_updates@),
            dropped_speaking_updates: self.dropped_speaking_updates,
            direct: model::optional(self.direct),
            voip_metadata: model::optional(self.voip_metadata),
            local_voice_client_id: self.local_voice_client_id,
            last_activity: self.last_activity,
            reset: self.reset,
            pipe_lost: self.pipe_lost,
            sound_generation: self.sound_generation,
            sound_worker_runs: self.sound_worker_runs,
            sound_jobs: model::views(self.sound_jobs@),
            sound_results: model::views(self.sound_results@),
            log: model::views(self.log@),
            capture_must_close: self.capture_must_close,
        }
    }
}

/// Nothing shared yet. The activity counts from `now`.
pub open spec fn nothing_shared(now: u64) -> SharedView {
    SharedView {
        events: Seq::empty(),
        control_replies: Seq::empty(),
        peer_actions: Seq::empty(),
        listener_state: None,
        speaking_updates: Map::empty(),
        dropped_speaking_updates: 0,
        direct: None,
        voip_metadata: None,
        local_voice_client_id: 0,
        last_activity: now,
        reset: false,
        pipe_lost: false,
        sound_generation: 0,
        sound_worker_runs: true,
        sound_jobs: Seq::empty(),
        sound_results: Seq::empty(),
        log: Seq::empty(),
        capture_must_close: false,
    }
}

pub open spec fn truth(value: bool) -> Seq<char> {
    if value {
        "true"@
    } else {
        "false"@
    }
}

pub open spec fn entry(level: LogLevel, name: Seq<char>, message: Seq<char>) -> EntryView {
    EntryView { level, name, message }
}

/// The line that an event leaves in the log.
pub open spec fn event_entry(event: EventView) -> EntryView {
    match event {
        EventView::PipeConnected => entry(
            LogLevel::Info,
            "acre_pipe_connected"@,
            "ACRE2Arma connected to both named pipes"@,
        ),
        EventView::QueueOverflow => entry(
            LogLevel::Warn,
            "acre_queue_overflow"@,
            "Control event queue overflow; reconnect required"@,
        ),
        EventView::PipeDisconnected => entry(
            LogLevel::Warn,
            "acre_pipe_disconnected"@,
            "ACRE2Arma disconnected; ACRE state was cleared"@,
        ),
        EventView::LocalTransmissionStarted(t) => entry(
            LogLevel::Info,
            "acre_local_transmission_started"@,
            "speaking_kind="@ + transmission::kind_name(t.speaking_kind),
        ),
        EventView::LocalTransmissionStopped(t) => entry(
            LogLevel::Info,
            "acre_local_transmission_stopped"@,
            "speaking_kind="@ + transmission::kind_name(t.speaking_kind),
        ),
        EventView::SoundSystemOverrideChanged(enabled) => entry(
            LogLevel::Info,
            "acre_sound_system_override"@,
            "enabled="@ + truth(enabled),
        ),
        EventView::LocalMuteChanged(muted) => entry(
            LogLevel::Info,
            "acre_local_mute"@,
            "muted="@ + truth(muted),
        ),
        EventView::UserMuteChanged { voice_client_id, muted } => entry(
            LogLevel::Debug,
            "acre_user_mute"@,
            "voice_client_id="@ + decimal::decimal(voice_client_id as nat) + " muted="@ + truth(
                muted,
            ),
        ),
        EventView::ResetRequested => entry(
            LogLevel::Info,
            "acre_reset"@,
            "ACRE requested a control-state reset"@,
        ),
        EventView::SoundPlaybackReady { id, .. } => entry(
            LogLevel::Debug,
            "acre_sound_playback_ready"@,
            "id="@ + id,
        ),
        EventView::RejectedMessage(words) => entry(LogLevel::Warn, "acre_rpc_rejected"@, words),
        EventView::PipeError(words) => entry(LogLevel::Warn, "acre_pipe_error"@, words),
    }
}

/// The queue with one more event. A full queue is lost: the control plane
/// learns of that before the event.
pub open spec fn queued(events: Seq<EventView>, event: EventView) -> Seq<EventView> {
    if events.len() >= MAX_QUEUED_EVENTS {
        seq![EventView::QueueOverflow, event]
    } else {
        events.push(event)
    }
}

/// What is shared once an event was logged and queued.
pub open spec fn pushed(s: SharedView, event: EventView) -> SharedView {
    SharedView { events: queued(s.events, event), log: s.log.push(event_entry(event)), ..s }
}

/// What is shared once a line was logged.
pub open spec fn logged(s: SharedView, line: EntryView) -> SharedView {
    SharedView { log: s.log.push(line), ..s }
}

/// The events other than sounds to play.
pub open spec fn without_playbacks(events: Seq<EventView>) -> Seq<EventView> {
    events.filter(|event: EventView| !(event is SoundPlaybackReady))
}

/// What is shared once everything that belonged to the game's last state is
/// gone.
pub open spec fn forgotten(s: SharedView) -> SharedView {
    SharedView {
        direct: None,
        peer_actions: Seq::empty(),
        listener_state: None,
        speaking_updates: Map::empty(),
        control_replies: Seq::empty(),
        events: without_playbacks(s.events),
        ..s
    }
}

/// The message that tells the game that native speech began or ended.
pub open spec fn direct_notice(t: TransmissionView, started: bool) -> Result<
    MessageView,
    codec::AcreCodecError,
> {
    if started {
        codec::built(
            "localStartSpeaking"@,
            seq![
                decimal::decimal(t.voice_client_id as nat),
                decimal::signed_decimal(t.language_id as int),
                "0"@,
                ""@,
            ],
            true,
        )
    } else {
        codec::built(
            "localStopSpeaking"@,
            seq![decimal::decimal(t.voice_client_id as nat), "0"@, ""@],
            true,
        )
    }
}

/// What is shared after a reply was offered, and whether it was taken.
pub open spec fn replied(s: SharedView, message: MessageView) -> (SharedView, bool) {
    if s.control_replies.len() >= MAX_QUEUED_CONTROL_REPLIES {
        (s, false)
    } else {
        (SharedView { control_replies: s.control_replies.push(message), ..s }, true)
    }
}

/// What is shared after a decision arrived. Decisions for more speakers than
/// the audio plane holds are counted and dropped.
pub open spec fn recorded(s: SharedView, update: AudioUpdateView) -> SharedView {
    let id = update.speaking.speaker_id;
    if !s.speaking_updates.contains_key(id) && s.speaking_updates.len()
        >= ACRE_AUDIO_MAX_SPEAKERS {
        SharedView {
            dropped_speaking_updates: if s.dropped_speaking_updates == u64::MAX {
                0
            } else {
                (s.dropped_speaking_updates + 1) as u64
            },
            ..s
        }
    } else {
        SharedView { speaking_updates: s.speaking_updates.insert(id, update), ..s }
    }
}

/// The updates that wait for the audio plane: the listener, then the speakers
/// by ascending ID.
pub open spec fn waiting_updates(s: SharedView) -> Seq<PlaneUpdateView> {
    let listener = match s.listener_state {
        Some(state) => seq![PlaneUpdateView::Listener(state)],
        None => Seq::empty(),
    };
    listener + order::ascending(s.speaking_updates.dom()).map_values(
        |id: u32| PlaneUpdateView::Speaker(s.speaking_updates[id]),
    )
}

/// What is shared after a job was offered, or why the sound worker could not
/// take it.
pub open spec fn with_job(s: SharedView, job: JobView) -> Result<SharedView, Seq<char>> {
    if !s.sound_worker_runs {
        Err("ACRE sound worker stopped"@)
    } else if s.sound_jobs.len() >= MAX_QUEUED_SOUND_JOBS {
        Err("ACRE sound worker queue is full"@)
    } else {
        Ok(SharedView { sound_jobs: s.sound_jobs.push(job), ..s })
    }
}

/// What is shared after the control plane offered changes of its peers, and
/// whether they were taken. They are taken together or not at all.
pub open spec fn with_peer_actions(s: SharedView, actions: Seq<PeerActionView>) -> (
    SharedView,
    bool,
) {
    if actions.len() > 0 && s.peer_actions.len() + actions.len() > MAX_QUEUED_PEER_ACTIONS {
        (s, false)
    } else {
        (SharedView { peer_actions: s.peer_actions + actions, ..s }, true)
    }
}

/// Whether the game was heard of lately.
pub open spec fn heard_lately(s: SharedView, now: u64) -> bool {
    now < s.last_activity + ACTIVITY_LIMIT
}

/// Whether all queues are within their bounds.
pub open spec fn bounded(s: SharedView) -> bool {
    &&& s.events.len() <= MAX_QUEUED_EVENTS
    &&& s.control_replies.len() <= MAX_QUEUED_CONTROL_REPLIES
    &&& s.peer_actions.len() <= MAX_QUEUED_PEER_ACTIONS
    &&& s.speaking_updates.dom().finite()
    &&& s.speaking_updates.len() <= ACRE_AUDIO_MAX_SPEAKERS
    &&& s.sound_jobs.len() <= MAX_QUEUED_SOUND_JOBS
}

fn truth_word(value: bool) -> (word: &'static str)
    ensures
        word@ == truth(value),
{
    if value {
        "true"
    } else {
        "false"
    }
}

/// Two texts, one after the other.
pub(crate) fn joined(first: &str, second: &str) -> (both: String)
    ensures
        both@ == first@ + second@,
{
    let mut both: String = first.to_owned();
    both.append(second);
    both
}

/// The line that an event leaves in the log.
fn log_line(event: &AcreAdapterEvent) -> (line: LogEntry)
    ensures
        line@ == event_entry(event@),
{
    match event {
        AcreAdapterEvent::PipeConnected => LogEntry {
            level: LogLevel::Info,
            name: "acre_pipe_connected",
            message: "ACRE2Arma connected to both named pipes".to_owned(),
        },
        AcreAdapterEvent::QueueOverflow => LogEntry {
            level: LogLevel::Warn,
            name: "acre_queue_overflow",
            message: "Control event queue overflow; reconnect required".to_owned(),
        },
        AcreAdapterEvent::PipeDisconnected => LogEntry {
            level: LogLevel::Warn,
            name: "acre_pipe_disconnected",
            message: "ACRE2Arma disconnected; ACRE state was cleared".to_owned(),
        },
        AcreAdapterEvent::LocalTransmissionStarted(transmission) => LogEntry {
            level: LogLevel::Info,
            name: "acre_local_transmission_started",
            message: joined("speaking_kind=", transmission.speaking_kind().name()),
        },
        AcreAdapterEvent::LocalTransmissionStopped(transmission) => LogEntry {
            level: LogLevel::Info,
            name: "acre_local_transmission_stopped",
            message: joined("speaking_kind=", transmission.speaking_kind().name()),
        },
        AcreAdapterEvent::SoundSystemOverrideChanged(enabled) => LogEntry {
            level: LogLevel::Info,
            name: "acre_sound_system_override",
            message: joined("enabled=", truth_word(*enabled)),
        },
        AcreAdapterEvent::LocalMuteChanged(muted) => LogEntry {
            level: LogLevel::Info,
            name: "acre_local_mute",
            message: joined("muted=", truth_word(*muted)),
        },
        AcreAdapterEvent::UserMuteChanged { voice_client_id, muted } => {
            let mut message: String = "voice_client_id=".to_owned();
            push_decimal(&mut message, *voice_client_id as u64);
            message.append(" muted=");
            message.append(truth_word(*muted));
            LogEntry { level: LogLevel::Debug, name: "acre_user_mute", message }
        },
        AcreAdapterEvent::ResetRequested => LogEntry {
            level: LogLevel::Info,
            name: "acre_reset",
            message: "ACRE requested a control-state reset".to_owned(),
        },
        AcreAdapterEvent::SoundPlaybackReady { generation, id, file } => LogEntry {
            level: LogLevel::Debug,
            name: "acre_sound_playback_ready",
            message: joined("id=", id.as_str()),
        },
        AcreAdapterEvent::RejectedMessage(words) => LogEntry {
            level: LogLevel::Warn,
            name: "acre_rpc_rejected",
            message: words.clone(),
        },
        AcreAdapterEvent::PipeError(words) => LogEntry {
            level: LogLevel::Warn,
            name: "acre_pipe_error",
            message: words.clone(),
        },
    }
}

/// The events other than sounds to play.
fn keep_non_playbacks(events: Vec<AcreAdapterEvent>) -> (kept: Vec<AcreAdapterEvent>)
    ensures
        model::views(kept@) == without_playbacks(model::views(events@)),
        kept@.len() <= events@.len(),
{
    broadcast use model::group_views;

    let ghost all = model::views(events@);
    let mut rest: Vec<AcreAdapterEvent> = events;
    let mut kept: Vec<AcreAdapterEvent> = Vec::new();
    let ghost mut done: int = 0;
    proof {
        reveal(Seq::filter);
        assert(all.take(0) =~= Seq::<EventView>::empty());
        assert(all.skip(0) =~= all);
    }
    while rest.len() > 0
        invariant
            0 <= done <= all.len(),
            model::views(rest@) == all.skip(done),
            model::views(kept@) == without_playbacks(all.take(done)),
            kept@.len() <= done,
        decreases rest@.len(),
    {
        broadcast use model::group_views;

        let ghost head = rest@[0]@;
        proof {
            assert(model::views(rest@).len() == rest@.len());
            assert(model::views(rest@)[0] == head);
            assert(all.skip(done)[0] == all[done]);
        }
        let event: AcreAdapterEvent = rest.remove(0);
        proof {
            reveal(Seq::filter);
            assert(all.take(done + 1).drop_last() =~= all.take(done));
            assert(all.take(done + 1).last() == head);
            assert(model::views(rest@) =~= all.skip(done + 1));
            done = done + 1;
        }
        match &event {
            AcreAdapterEvent::SoundPlaybackReady { generation, id, file } => {},
            _ => {
                kept.push(event);
            },
        }
    }
    assert(all.take(done) =~= all) by {
        assert(model::views(rest@).len() == all.skip(done).len());
    }
    kept
}

impl AdapterShared {
    /// Nothing shared yet. The activity counts from `now`.
    pub fn new(now: u64) -> (shared: Self)
        ensures
            shared@ == nothing_shared(now),
    {
        let shared = AdapterShared {
            events: Vec::new(),
            control_replies: Vec::new(),
            peer_actions: Vec::new(),
            listener_state: None,
            speaking_updates: HashMap::new(),
            dropped_speaking_updates: 0,
            direct: None,
            voip_metadata: None,
            local_voice_client_id: 0,
            last_activity: now,
            reset: false,
            pipe_lost: false,
            sound_generation: 0,
            sound_worker_runs: true,
            sound_jobs: Vec::new(),
            sound_results: Vec::new(),
            log: Vec::new(),
            capture_must_close: false,
        };
        assert(shared@ =~= nothing_shared(now));
        shared
    }

    /// Logs and queues an event.
    pub fn push_event(&mut self, event: AcreAdapterEvent)
        ensures
            final(self)@ == pushed(old(self)@, event@),
    {
        broadcast use model::group_views;

        self.log.push(log_line(&event));
        if self.events.len() >= MAX_QUEUED_EVENTS {
            self.events.clear();
            self.events.push(AcreAdapterEvent::QueueOverflow);
        }
        self.events.push(event);
        assert(self@ =~= pushed(old(self)@, event@));
    }

    /// Logs a line.
    pub(crate) fn push_log(&mut self, level: LogLevel, name: &'static str, message: String)
        ensures
            final(self)@ == logged(old(self)@, entry(level, name@, message@)),
    {
        broadcast use model::group_views;

        self.log.push(LogEntry { level, name, message });
    }

    /// Takes the lines that were logged since the last time.
    pub fn take_log(&mut self) -> (lines: Vec<LogEntry>)
        ensures
            model::views(lines@) == old(self)@.log,
            final(self)@ == (SharedView { log: Seq::empty(), ..old(self)@ }),
    {
        broadcast use model::group_views;

        let mut lines: Vec<LogEntry> = Vec::new();
        std::mem::swap(&mut lines, &mut self.log);
        lines
    }

    /// Takes the demand to close the microphone's permit, if there is one.
    pub fn take_capture_close(&mut self) -> (demanded: bool)
        ensures
            demanded == old(self)@.capture_must_close,
            final(self)@ == (SharedView { capture_must_close: false, ..old(self)@ }),
    {
        let demanded: bool = self.capture_must_close;
        self.capture_must_close = false;
        demanded
    }

    /// The metadata of native speech, as the game last determined it.
    pub fn direct(&self) -> (direct: Option<Transmission>)
        ensures
            model::optional(direct) == self@.direct,
    {
        match &self.direct {
            Some(transmission) => Some(transmission.clone()),
            None => None,
        }
    }

    /// Asks the worker to start over.
    pub fn request_reset(&mut self)
        ensures
            final(self)@ == (SharedView { direct: None, reset: true, ..old(self)@ }),
    {
        self.direct = None;
        self.reset = true;
    }

    /// Whether the game was heard of lately.
    pub fn healthy(&self, now: u64) -> (answer: bool)
        ensures
            answer == heard_lately(self@, now),
    {
        now.saturating_sub(self.last_activity) < ACTIVITY_LIMIT
    }

    /// Offers a reply to the worker; false if too many wait.
    pub(crate) fn enqueue_control_reply(&mut self, message: AcreMessage) -> (taken: bool)
        ensures
            (final(self)@, taken) == replied(old(self)@, message@),
    {
        broadcast use model::group_views;

        if self.control_replies.len() >= MAX_QUEUED_CONTROL_REPLIES {
            return false;
        }
        self.control_replies.push(message);
        true
    }

    /// Tells the game that native speech began or ended; false if that was
    /// not possible.
    pub fn notify_direct(&mut self, transmission: &Transmission, started: bool) -> (taken: bool)
        ensures
            match direct_notice(transmission@, started) {
                Ok(message) => (final(self)@, taken) == replied(old(self)@, message),
                Err(_) => !taken && final(self)@ == old(self)@,
            },
    {
        let ghost t = transmission@;
        let built: Result<AcreMessage, codec::AcreCodecError> = if started {
            let parameters: Vec<String> =
                vec![
                    decimal_text(transmission.voice_client_id() as u64),
                    signed_text(transmission.language_id()),
                    "0".to_owned(),
                    "".to_owned(),
                ];
            assert(text::texts(parameters@) =~= seq![
                decimal::decimal(t.voice_client_id as nat),
                decimal::signed_decimal(t.language_id as int),
                "0"@,
                ""@,
            ]);
            AcreMessage::with_trailing_comma("localStartSpeaking", parameters, true)
        } else {
            let parameters: Vec<String> =
                vec![
                    decimal_text(transmission.voice_client_id() as u64),
                    "0".to_owned(),
                    "".to_owned(),
                ];
            assert(text::texts(parameters@) =~= seq![
                decimal::decimal(t.voice_client_id as nat),
                "0"@,
                ""@,
            ]);
            AcreMessage::with_trailing_comma("localStopSpeaking", parameters, true)
        };
        match built {
            Ok(message) => self.enqueue_control_reply(message),
            Err(_) => false,
        }
    }

    /// Supplies the Mumble session ID. Zero stands for none.
    pub fn set_local_voice_client_id(&mut self, voice_client_id: Option<u32>)
        ensures
            final(self)@ == (SharedView {
                local_voice_client_id: match voice_client_id {
                    Some(id) => id,
                    None => 0,
                },
                ..old(self)@
            }),
    {
        self.local_voice_client_id =
        match voice_client_id {
            Some(id) => id,
            None => 0,
        };
    }

    /// Supplies what the game may ask about the connection.
    pub fn set_voip_metadata(&mut self, metadata: Option<VoipMetadata>)
        ensures
            final(self)@ == (SharedView {
                voip_metadata: model::optional(metadata),
                ..old(self)@
            }),
    {
        self.voip_metadata = metadata;
    }

    /// Takes the events that wait.
    pub fn drain_events(&mut self) -> (events: Vec<AcreAdapterEvent>)
        ensures
            model::views(events@) == old(self)@.events,
            final(self)@ == (SharedView { events: Seq::empty(), ..old(self)@ }),
    {
        broadcast use model::group_views;

        let mut events: Vec<AcreAdapterEvent> = Vec::new();
        std::mem::swap(&mut events, &mut self.events);
        events
    }

    /// Whether a playback belongs to the game's present state.
    pub fn is_current_sound_generation(&self, generation: u64) -> (answer: bool)
        ensures
            answer == (self@.sound_generation == generation),
    {
        self.sound_generation == generation
    }

    /// Takes the newest listener state and the newest decision per speaker.
    pub fn drain_audio_updates(&mut self) -> (updates: Vec<AcreAudioUpdate>)
        ensures
            model::views(updates@) == waiting_updates(old(self)@),
            final(self)@ == (SharedView {
                listener_state: None,
                speaking_updates: Map::empty(),
                ..old(self)@
            }),
    {
        broadcast use model::group_views;

        let ghost before = self@;
        let mut updates: Vec<AcreAudioUpdate> = Vec::new();
        match self.listener_state {
            Some(state) => {
                updates.push(AcreAudioUpdate::Listener(state));
            },
            None => {},
        }
        self.listener_state = None;
        let ghost head = model::views(updates@);
        let ids: Vec<u32> = ascending_keys(&self.speaking_updates);
        let ghost speakers = ids@.map_values(
            |id: u32| PlaneUpdateView::Speaker(before.speaking_updates[id]),
        );
        proof {
            assert(before.speaking_updates.dom() =~= self.speaking_updates@.dom());
            order::lemma_ascending(before.speaking_updates.dom());
            assert(head + speakers =~= waiting_updates(before));
        }
        let mut i: usize = 0;
        assert(head =~= head + speakers.take(0));
        while i < ids.len()
            invariant
                i <= ids@.len(),
                ids@.no_duplicates(),
                speakers == ids@.map_values(
                    |id: u32| PlaneUpdateView::Speaker(before.speaking_updates[id]),
                ),
                forall|k: int| i <= k < ids@.len() ==> self.speaking_updates@.contains_key(
                    #[trigger] ids@[k],
                ) && self.speaking_updates@[ids@[k]]@ == before.speaking_updates[ids@[k]],
                model::views(updates@) == head + speakers.take(i as int),
                self@ == (SharedView {
                    listener_state: None,
                    speaking_updates: self@.speaking_updates,
                    ..before
                }),
            decreases ids@.len() - i,
        {
            broadcast use model::group_views;

            let id: u32 = ids[i];
            assert(self.speaking_updates@.contains_key(ids@[i as int]));
            let removed: Option<AcreSpeakerAudioUpdate> = self.speaking_updates.remove(&id);
            match removed {
                Some(update) => {
                    updates.push(AcreAudioUpdate::Speaker(update));
                },
                None => {},
            }
            assert(head + speakers.take(i + 1) =~= (head + speakers.take(i as int)).push(
                speakers[i as int],
            ));
            i += 1;
        }
        assert(speakers.take(i as int) =~= speakers);
        self.speaking_updates.clear();
        assert(self@.speaking_updates =~= Map::empty());
        updates
    }

    /// Takes the number of decisions that were dropped.
    pub fn take_dropped_speaking_updates(&mut self) -> (dropped: u64)
        ensures
            dropped == old(self)@.dropped_speaking_updates,
            final(self)@ == (SharedView { dropped_speaking_updates: 0, ..old(self)@ }),
    {
        let dropped: u64 = self.dropped_speaking_updates;
        self.dropped_speaking_updates = 0;
        dropped
    }

    /// Offers changes of the peers' state to the worker, all or none.
    pub fn enqueue_peer_actions(&mut self, actions: Vec<PeerStateAction>) -> (verdict: Result<
        (),
        &'static str,
    >)
        ensures
            (final(self)@, verdict is Ok) == with_peer_actions(
                old(self)@,
                model::views(actions@),
            ),
            verdict is Err ==> verdict->Err_0@ == "ACRE peer-action queue is full"@,
    {
        broadcast use model::group_views;

        if actions.len() == 0 {
            assert(self@.peer_actions + model::views(actions@) =~= self@.peer_actions);
            return Ok(());
        }
        if actions.len() > MAX_QUEUED_PEER_ACTIONS || self.peer_actions.len()
            > MAX_QUEUED_PEER_ACTIONS - actions.len() {
            return Err("ACRE peer-action queue is full");
        }
        let ghost before = self.peer_actions@;
        let ghost added = actions@;
        let mut actions: Vec<PeerStateAction> = actions;
        self.peer_actions.append(&mut actions);
        assert(self.peer_actions@ =~= before + added);
        Ok(())
    }

    /// Forgets what waits for the worker and the audio plane, for good.
    pub fn stop(&mut self)
        ensures
            final(self)@ == (SharedView {
                peer_actions: Seq::empty(),
                listener_state: None,
                speaking_updates: Map::empty(),
                control_replies: Seq::empty(),
                sound_worker_runs: false,
                ..old(self)@
            }),
    {
        broadcast use model::group_views;

        self.peer_actions.clear();
        self.listener_state = None;
        self.speaking_updates.clear();
        self.control_replies.clear();
        self.sound_worker_runs = false;
        assert(self@.speaking_updates =~= Map::empty());
    }

    /// Takes the oldest job for the sound worker.
    pub fn take_sound_job(&mut self) -> (job: Option<AcreSoundWorkerJob>)
        ensures
            match job {
                Some(job) => old(self)@.sound_jobs.len() > 0 && job@ == old(self)@.sound_jobs[0]
                    && final(self)@ == (SharedView {
                    sound_jobs: old(self)@.sound_jobs.remove(0),
                    ..old(self)@
                }),
                None => old(self)@.sound_jobs.len() == 0 && final(self)@ == old(self)@,
            },
    {
        broadcast use model::group_views;

        if self.sound_jobs.len() == 0 {
            return None;
        }
        assert(self@.sound_jobs[0] == self.sound_jobs@[0]@);
        Some(self.sound_jobs.remove(0))
    }

    /// Hands the worker what the sound worker reports.
    pub fn push_sound_result(&mut self, result: AcreSoundWorkerResult)
        ensures
            final(self)@ == (SharedView {
                sound_results: old(self)@.sound_results.push(result@),
                ..old(self)@
            }),
    {
        broadcast use model::group_views;

        self.sound_results.push(result);
    }

    /// Offers a job to the sound worker, or says why it cannot take it.
    pub(crate) fn enqueue_sound_job(&mut self, job: AcreSoundWorkerJob) -> (verdict: Result<(), &'static str>)
        ensures
            match with_job(old(self)@, job@) {
                Ok(after) => verdict is Ok && final(self)@ == after,
                Err(reason) => verdict is Err && verdict->Err_0@ == reason && final(self)@ == old(
                    self,
                )@,
            },
    {
        broadcast use model::group_views;

        if !self.sound_worker_runs {
            return Err("ACRE sound worker stopped");
        }
        if self.sound_jobs.len() >= MAX_QUEUED_SOUND_JOBS {
            return Err("ACRE sound worker queue is full");
        }
        self.sound_jobs.push(job);
        Ok(())
    }

    /// Records a decision for the audio plane.
    pub(crate) fn record_speaking_update(&mut self, update: AcreSpeakerAudioUpdate)
        ensures
            final(self)@ == recorded(old(self)@, update@),
    {
        let id: u32 = update.speaking.speaker_id;
        let ghost before = self@;
        assert(before.speaking_updates.dom() =~= self.speaking_updates@.dom());
        if !self.speaking_updates.contains_key(&id) && self.speaking_updates.len()
            >= ACRE_AUDIO_MAX_SPEAKERS {
            self.dropped_speaking_updates = self.dropped_speaking_updates.wrapping_add(1);
            return;
        }
        self.speaking_updates.insert(id, update);
        assert(self@.speaking_updates =~= before.speaking_updates.insert(id, update@));
    }

    /// Forgets everything that belonged to the game's last state.
    pub(crate) fn forget(&mut self)
        ensures
            final(self)@ == forgotten(old(self)@),
    {
        broadcast use model::group_views;

        self.direct = None;
        self.peer_actions.clear();
        self.listener_state = None;
        self.speaking_updates.clear();
        self.control_replies.clear();
        let mut events: Vec<AcreAdapterEvent> = Vec::new();
        std::mem::swap(&mut events, &mut self.events);
        self.events = keep_non_playbacks(events);
        assert(self@.speaking_updates =~= Map::empty());
        assert(self@ =~= forgotten(old(self)@));
    }

    /// Whether the game's pipe was lost since this was last asked. A connection
    /// that the plugin gave up by itself was not lost.
    pub fn take_pipe_loss(&mut self) -> (lost: bool)
        ensures
            lost == old(self)@.pipe_lost,
            final(self)@ == (SharedView { pipe_lost: false, ..old(self)@ }),
    {
        let lost: bool = self.pipe_lost;
        self.pipe_lost = false;
        lost
    }

    /// Takes note that the game's pipe was lost.
    pub(crate) fn lose_pipe(&mut self)
        ensures
            final(self)@ == (SharedView { pipe_lost: true, ..old(self)@ }),
    {
        self.pipe_lost = true;
    }

    /// Takes the request to start over, if there is one.
    pub(crate) fn take_reset(&mut self) -> (requested: bool)
        ensures
            requested == old(self)@.reset,
            final(self)@ == (SharedView { reset: false, ..old(self)@ }),
    {
        let requested: bool = self.reset;
        self.reset = false;
        requested
    }

    /// Takes the replies that wait.
    pub(crate) fn take_control_replies(&mut self) -> (replies: Vec<AcreMessage>)
        ensures
            model::views(replies@) == old(self)@.control_replies,
            final(self)@ == (SharedView { control_replies: Seq::empty(), ..old(self)@ }),
    {
        broadcast use model::group_views;

        let mut replies: Vec<AcreMessage> = Vec::new();
        std::mem::swap(&mut replies, &mut self.control_replies);
        replies
    }

    /// Takes the changes of the peers' state that wait.
    pub(crate) fn take_peer_actions(&mut self) -> (actions: Vec<PeerStateAction>)
        ensures
            model::views(actions@) == old(self)@.peer_actions,
            final(self)@ == (SharedView { peer_actions: Seq::empty(), ..old(self)@ }),
    {
        broadcast use model::group_views;

        let mut actions: Vec<PeerStateAction> = Vec::new();
        std::mem::swap(&mut actions, &mut self.peer_actions);
        actions
    }

    /// Takes what the sound worker reported.
    pub(crate) fn take_sound_results(&mut self) -> (results: Vec<AcreSoundWorkerResult>)
        ensures
            model::views(results@) == old(self)@.sound_results,
            final(self)@ == (SharedView { sound_results: Seq::empty(), ..old(self)@ }),
    {
        broadcast use model::group_views;

        let mut results: Vec<AcreSoundWorkerResult> = Vec::new();
        std::mem::swap(&mut results, &mut self.sound_results);
        results
    }

    /// Drops the decisions that wait for the audio plane.
    pub(crate) fn clear_speaking_updates(&mut self)
        ensures
            final(self)@ == (SharedView { speaking_updates: Map::empty(), ..old(self)@ }),
    {
        self.speaking_updates.clear();
        assert(self@.speaking_updates =~= Map::empty());
    }

    /// Makes every sound that was prepared before stale.
    pub(crate) fn set_sound_generation(&mut self, generation: u64)
        ensures
            final(self)@ == (SharedView { sound_generation: generation, ..old(self)@ }),
    {
        self.sound_generation = generation;
    }

    /// Demands that the microphone's permit be closed.
    pub(crate) fn close_capture(&mut self)
        ensures
            final(self)@ == (SharedView { capture_must_close: true, ..old(self)@ }),
    {
        self.capture_must_close = true;
    }

    /// Records the listener's state for the audio plane.
    pub(crate) fn record_listener_state(&mut self, state: AcreListenerState)
        ensures
            final(self)@ == (SharedView { listener_state: Some(state), ..old(self)@ }),
    {
        self.listener_state = Some(state);
    }

    /// Notes that the game was heard of, and what native speech now is.
    pub(crate) fn note_activity(&mut self, direct: Option<Transmission>, now: u64)
        ensures
            final(self)@ == (SharedView {
                direct: model::optional(direct),
                last_activity: now,
                ..old(self)@
            }),
    {
        self.direct = direct;
        self.last_activity = now;
    }

    /// The Mumble session ID, if there is one.
    pub(crate) fn voice_client_id(&self) -> (id: Option<u32>)
        ensures
            id == known_id(self@.local_voice_client_id),
    {
        if self.local_voice_client_id != 0 {
            Some(self.local_voice_client_id)
        } else {
            None
        }
    }

    /// What the game may ask about the connection.
    pub(crate) fn metadata(&self) -> (metadata: Option<VoipMetadata>)
        ensures
            model::optional(metadata) == self@.voip_metadata,
    {
        match &self.voip_metadata {
            Some(metadata) => Some(metadata.clone()),
            None => None,
        }
    }
}

/// The Mumble session ID; zero stands for none.
pub open spec fn known_id(id: u32) -> Option<u32> {
    if id != 0 {
        Some(id)
    } else {
        None
    }
}

} // verus!
