//! The control plane: one tick after the other, it brings Mumble's state, the
//! game's events and the peers' states together.
//!
//! Every step takes what was observed and yields what is to be done, in order.
//! The caller does it, reports what came of it, and takes the next step. Times
//! are nanoseconds of one monotonic clock.

use crate::adapter::{self, AcreAdapterEvent, AdapterShared, EventView, SharedView};
use crate::audio_snapshot::{AcreAudioUpdate, PlaneUpdateView};
use crate::context::{self, is_same_place, plain, Context, ContextView};
use crate::control::{self, RemotePeers, RemoteView, StateMessage, StateView, DATA_ID, REFRESH};
use crate::decimal::{self, signed_text};
use crate::logging::LogLevel;
use crate::model;
use crate::order;
use crate::peer::{
    self, AcrePeerError, HeaderView, PeerFault, PeerHeader, ACRE_PEER_MAX_MESSAGE_BYTES,
};
use crate::peer_state::{PeerActionView, PeerStateAction};
use crate::ptt::{self, AcrePttStateMachine, PttAction, PttActionView, PttView};
use crate::render::{self, mute};
use crate::session::{self, MetadataView, VoipMetadata};
use crate::sound::SoundId;
use crate::text::{same_bytes, same_text};
use crate::transmission::{SpeakingKind, Transmission, TransmissionView};
use std::collections::HashMap;
use vstd::prelude::*;
use vstd::utf8::encode_utf8;

verus! {

/// The scope of the peers where no other one was chosen: messages are accepted
/// from members of the active channel only.
pub const DEFAULT_SCOPE: &'static str = "mumble-channel";

/// The most messages of peers that wait for a tick.
pub const MAX_QUEUED_INPUTS: usize = 256;

/// How soon after a state the next one may follow.
pub const MIN_SEND_INTERVAL: u64 = 50_000_000;

pub const ACRE_CONNECTED: &'static str = "MumbleACRE: ACRE conectado";

pub const ACRE_QUEUE_FULL: &'static str = "MumbleACRE: cola ACRE saturada; reconectando";

pub const ACRE_UNRESPONSIVE: &'static str =
    "MumbleACRE: ACRE dejó de responder; audio silenciado";

pub const TOO_MANY_SPEAKERS: &'static str =
    "MumbleACRE: demasiados hablantes; se descartaron decisiones de audio";

pub const FILTER_ON: &'static str = "MumbleACRE: filtrado de audio ACRE activo";

pub const FILTER_OFF: &'static str = "MumbleACRE: audio normal de Mumble activo";

/// A message that Mumble delivered: the connection, the sender and the bytes.
#[derive(Debug, PartialEq, Eq)]
pub enum Input {
    Peer(i32, u32, Vec<u8>),
}

/// The model of a message.
#[verifier::ext_equal]
pub enum InputView {
    Peer(i32, u32, Seq<u8>),
}

impl View for Input {
    type V = InputView;

    open spec fn view(&self) -> InputView {
        match *self {
            Input::Peer(connection, sender, bytes) => InputView::Peer(connection, sender, bytes@),
        }
    }
}

/// The messages that wait for the next tick, and whether any was lost.
#[derive(Debug)]
pub struct InputQueue {
    inputs: Vec<Input>,
    overflow: bool,
}

/// The model of the queue.
#[verifier::ext_equal]
pub struct QueueView {
    pub inputs: Seq<InputView>,
    pub overflow: bool,
}

impl View for InputQueue {
    type V = QueueView;

    closed spec fn view(&self) -> QueueView {
        QueueView { inputs: model::views(self.inputs@), overflow: self.overflow }
    }
}

/// The queue with one more message. A full queue loses it, and knows.
pub open spec fn enqueued(q: QueueView, input: InputView) -> QueueView {
    if q.inputs.len() < MAX_QUEUED_INPUTS {
        QueueView { inputs: q.inputs.push(input), ..q }
    } else {
        QueueView { overflow: true, ..q }
    }
}

impl Default for InputQueue {
    fn default() -> (queue: Self)
        ensures
            queue@ == (QueueView { inputs: Seq::empty(), overflow: false }),
    {
        let queue = InputQueue { inputs: Vec::new(), overflow: false };
        assert(queue@.inputs =~= Seq::empty());
        queue
    }
}

impl InputQueue {
    /// Queues a message for the next tick.
    pub fn enqueue(&mut self, input: Input)
        ensures
            final(self)@ == enqueued(old(self)@, input@),
    {
        broadcast use model::group_views;

        if self.inputs.len() < MAX_QUEUED_INPUTS {
            self.inputs.push(input);
        } else {
            self.overflow = true;
        }
    }

    /// Takes the messages that wait.
    pub fn take(&mut self) -> (inputs: Vec<Input>)
        ensures
            model::views(inputs@) == old(self)@.inputs,
            final(self)@ == (QueueView { inputs: Seq::empty(), ..old(self)@ }),
    {
        broadcast use model::group_views;

        let mut inputs: Vec<Input> = Vec::new();
        std::mem::swap(&mut inputs, &mut self.inputs);
        inputs
    }

    /// Takes the knowledge that a message was lost.
    pub fn take_overflow(&mut self) -> (overflow: bool)
        ensures
            overflow == old(self)@.overflow,
            final(self)@ == (QueueView { overflow: false, ..old(self)@ }),
    {
        let overflow: bool = self.overflow;
        self.overflow = false;
        overflow
    }
}

/// What to do with data that Mumble delivers.
#[derive(Clone, Copy, Debug, PartialEq, Eq, Structural)]
pub enum DataStep {
    /// The data is somebody else's.
    Foreign,
    /// The data is ours and cannot be a state message.
    Dropped,
    Taken,
}

/// What to do with so many bytes of data under an ID.
pub open spec fn step_for_data(id: Seq<u8>, length: int) -> DataStep {
    if id != encode_utf8(DATA_ID@) {
        DataStep::Foreign
    } else if length == 0 || length > ACRE_PEER_MAX_MESSAGE_BYTES {
        DataStep::Dropped
    } else {
        DataStep::Taken
    }
}

/// Decides about `length` bytes of data under an ID.
pub fn data_step(id: &[u8], length: usize) -> (step: DataStep)
    ensures
        step == step_for_data(id@, length as int),
{
    if !same_bytes(id, DATA_ID.as_bytes()) {
        DataStep::Foreign
    } else if length == 0 || length > ACRE_PEER_MAX_MESSAGE_BYTES {
        DataStep::Dropped
    } else {
        DataStep::Taken
    }
}

/// Something that the control plane wants done.
#[derive(Debug)]
pub enum RuntimeEffect {
    CloseCapture,
    RenewCapture,
    ClearNative,
    SetMicrophone(bool),
    Publish(AcreAudioUpdate),
    RemoveSpeaker(u32),
    ResetDecisions,
    PublishPeers(HashMap<u32, u64>),
    OverrideSoundSystem(bool),
    FilterAudio(bool),
    Announce(&'static str),
    RequestLocalMute { connection: i32, voice_client_id: u32, muted: bool },
    Play { id: SoundId, file: String },
}

/// The model of an effect.
#[verifier::ext_equal]
pub enum EffectView {
    CloseCapture,
    RenewCapture,
    ClearNative,
    SetMicrophone(bool),
    Publish(PlaneUpdateView),
    RemoveSpeaker(u32),
    ResetDecisions,
    PublishPeers(Map<u32, u64>),
    OverrideSoundSystem(bool),
    FilterAudio(bool),
    Announce(Seq<char>),
    RequestLocalMute { connection: i32, voice_client_id: u32, muted: bool },
    Play { id: Seq<char>, file: Seq<char> },
}

impl View for RuntimeEffect {
    type V = EffectView;

    open spec fn view(&self) -> EffectView {
        match *self {
            RuntimeEffect::CloseCapture => EffectView::CloseCapture,
            RuntimeEffect::RenewCapture => EffectView::RenewCapture,
            RuntimeEffect::ClearNative => EffectView::ClearNative,
            RuntimeEffect::SetMicrophone(active) => EffectView::SetMicrophone(active),
            RuntimeEffect::Publish(update) => EffectView::Publish(update@),
            RuntimeEffect::RemoveSpeaker(id) => EffectView::RemoveSpeaker(id),
            RuntimeEffect::ResetDecisions => EffectView::ResetDecisions,
            RuntimeEffect::PublishPeers(peers) => EffectView::PublishPeers(peers@),
            RuntimeEffect::OverrideSoundSystem(enabled) => EffectView::OverrideSoundSystem(
                enabled,
            ),
            RuntimeEffect::FilterAudio(active) => EffectView::FilterAudio(active),
            RuntimeEffect::Announce(words) => EffectView::Announce(words@),
            RuntimeEffect::RequestLocalMute { connection, voice_client_id, muted } =>
                EffectView::RequestLocalMute { connection, voice_client_id, muted },
            RuntimeEffect::Play { id, file } => EffectView::Play { id: id@, file: file@ },
        }
    }
}

/// The state of the control plane.
#[derive(Debug)]
pub struct Runtime {
    scope: String,
    generation: u64,
    sequence: u64,
    context: Option<Context>,
    peers: RemotePeers,
    ptt: AcrePttStateMachine,
    direct: Option<Transmission>,
    active: Option<Transmission>,
    native_talking: bool,
    connected: bool,
    last_send: u64,
    dirty: bool,
    mic: bool,
    sound_system_override: bool,
    locally_muted: bool,
    filtering: bool,
}

/// The model of the control plane.
#[verifier::ext_equal]
pub struct RuntimeView {
    pub scope: Seq<char>,
    pub generation: u64,
    pub sequence: u64,
    pub context: Option<ContextView>,
    pub peers: Map<u32, RemoteView>,
    pub ptt: PttView,
    pub direct: Option<TransmissionView>,
    pub active: Option<TransmissionView>,
    pub native_talking: bool,
    pub connected: bool,
    pub last_send: u64,
    pub dirty: bool,
    pub mic: bool,
    pub sound_system_override: bool,
    pub locally_muted: bool,
    pub filtering: bool,
}

impl View for Runtime {
    type V = RuntimeView;

    closed spec fn view(&self) -> RuntimeView {
        RuntimeView {
            scope: self.scope@,
            generation: self.generation,
            sequence: self.sequence,
            context: model::optional(self.context),
            peers: self.peers@,
            ptt: self.ptt@,
            direct: model::optional(self.direct),
            active: model::optional(self.active),
            native_talking: self.native_talking,
            connected: self.connected,
            last_send: self.last_send,
            dirty: self.dirty,
            mic: self.mic,
            sound_system_override: self.sound_system_override,
            locally_muted: self.locally_muted,
            filtering: self.filtering,
        }
    }
}

/// The control plane, what it shares with the worker, and what is to be done.
#[verifier::ext_equal]
pub struct MomentView {
    pub runtime: RuntimeView,
    pub shared: SharedView,
    pub effects: Seq<EffectView>,
}

/// A moment from its three parts.
pub open spec fn moment(
    runtime: RuntimeView,
    shared: SharedView,
    effects: Seq<EffectView>,
) -> MomentView {
    MomentView { runtime, shared, effects }
}

/// The moment with one more thing to be done.
pub open spec fn doing(x: MomentView, effect: EffectView) -> MomentView {
    MomentView { effects: x.effects.push(effect), ..x }
}

/// The moment with another state of the control plane.
pub open spec fn being(x: MomentView, runtime: RuntimeView) -> MomentView {
    MomentView { runtime, ..x }
}

/// The moment with other things shared.
pub open spec fn sharing(x: MomentView, shared: SharedView) -> MomentView {
    MomentView { shared, ..x }
}

/// Whether the local voice must not be heard.
pub open spec fn suppressed(r: RuntimeView) -> bool {
    r.sound_system_override || r.locally_muted
}

/// What is shared once the worker is asked to start over.
pub open spec fn reset_requested(s: SharedView) -> SharedView {
    SharedView { direct: None, reset: true, ..s }
}

/// What is shared once the game was told of native speech, as far as that was
/// possible.
pub open spec fn notified(s: SharedView, t: TransmissionView, started: bool) -> SharedView {
    match adapter::direct_notice(t, started) {
        Ok(message) => adapter::replied(s, message).0,
        Err(_) => s,
    }
}

/// The moment once one push-to-talk action was taken in. The microphone is
/// opened only after the peers were told, so no action opens it here.
pub open spec fn ptt_acted(x: MomentView, action: PttActionView) -> MomentView {
    let closed = doing(x, EffectView::CloseCapture);
    let told = |t: TransmissionView, started: bool|
        if t.speaking_kind == SpeakingKind::Direct {
            sharing(closed, notified(closed.shared, t, started))
        } else {
            closed
        };
    match action {
        PttActionView::PeerStarted(t) => {
            let y = told(t, true);
            being(y, RuntimeView { active: Some(t), dirty: true, ..y.runtime })
        },
        PttActionView::PeerStopped(t) => {
            let y = told(t, false);
            being(y, RuntimeView { active: None, dirty: true, ..y.runtime })
        },
        PttActionView::SetMicrophoneActivationOverwrite(active) => if active {
            x
        } else {
            doing(x, EffectView::SetMicrophone(false))
        },
    }
}

/// The moment once all push-to-talk actions were taken in, in order.
pub open spec fn ptt_acted_all(x: MomentView, actions: Seq<PttActionView>) -> MomentView
    decreases actions.len(),
{
    if actions.len() == 0 {
        x
    } else {
        ptt_acted(ptt_acted_all(x, actions.drop_last()), actions.last())
    }
}

/// The moment once the push-to-talk machine took a step.
pub open spec fn ptt_stepped(x: MomentView, step: ptt::PttStep) -> MomentView {
    ptt_acted_all(being(x, RuntimeView { ptt: step.0, ..x.runtime }), step.1)
}

/// The line that a change of the audio filter leaves in the log.
pub open spec fn filter_entry(active: bool) -> adapter::EntryView {
    adapter::entry(
        LogLevel::Info,
        "acre_audio_filter"@,
        if active {
            FILTER_ON@
        } else {
            FILTER_OFF@
        },
    )
}

/// The moment once the audio filter is on or off. A change is announced.
pub open spec fn filtered(x: MomentView, active: bool) -> MomentView {
    if x.runtime.filtering == active {
        x
    } else {
        let logged = sharing(x, adapter::logged(x.shared, filter_entry(active)));
        doing(
            doing(
                being(logged, RuntimeView { filtering: active, ..x.runtime }),
                EffectView::FilterAudio(active),
            ),
            EffectView::Announce(
                if active {
                    FILTER_ON@
                } else {
                    FILTER_OFF@
                },
            ),
        )
    }
}

/// What is shared once the peers' farewells were offered; where they did not
/// fit, the worker starts over instead.
pub open spec fn farewells_offered(s: SharedView, actions: Seq<PeerActionView>) -> SharedView {
    let (after, taken) = adapter::with_peer_actions(s, actions);
    if taken {
        after
    } else {
        reset_requested(after)
    }
}

/// A number's successor; the last one is its own.
pub open spec fn raised(n: u64) -> u64 {
    if n == u64::MAX {
        n
    } else {
        (n + 1) as u64
    }
}

/// The control plane without anything that a reset ends.
pub open spec fn cleared(r: RuntimeView) -> RuntimeView {
    RuntimeView {
        peers: Map::empty(),
        native_talking: false,
        active: None,
        direct: None,
        generation: raised(r.generation),
        sequence: 0,
        dirty: true,
        sound_system_override: false,
        locally_muted: false,
        ..r
    }
}

/// The moment once everything was reset.
#[verifier::opaque]
pub open spec fn reset(x: MomentView) -> MomentView {
    let hushed = ptt_stepped(
        doing(x, EffectView::CloseCapture),
        ptt::reset_step(x.runtime.ptt),
    );
    let farewells = control::farewells(
        hushed.runtime.peers,
        order::ascending(hushed.runtime.peers.dom()),
    );
    let alone = MomentView {
        runtime: cleared(hushed.runtime),
        shared: farewells_offered(hushed.shared, farewells),
        effects: hushed.effects.push(EffectView::ClearNative).push(
            EffectView::OverrideSoundSystem(false),
        ).push(EffectView::SetMicrophone(false)).push(EffectView::ResetDecisions).push(
            EffectView::PublishPeers(Map::empty()),
        ),
    };
    filtered(alone, false)
}

/// The moment once everything was reset for the last time.
pub open spec fn shut(x: MomentView) -> MomentView {
    let y = reset(x);
    being(y, RuntimeView { direct: x.runtime.direct, ..y.runtime })
}

/// The moment once everything was reset and the worker asked to start over.
pub open spec fn restarted(x: MomentView) -> MomentView {
    let y = reset(x);
    MomentView {
        runtime: RuntimeView { connected: false, ..y.runtime },
        shared: reset_requested(y.shared),
        ..y
    }
}

/// The decision that silences a speaker.
pub open spec fn muting(id: u32) -> EffectView {
    EffectView::Publish(render::muted(id))
}

/// What a change of a peer means for the audio at once, before ACRE decides
/// anew.
pub open spec fn at_once(effects: Seq<EffectView>, action: PeerActionView) -> Seq<EffectView> {
    match action {
        PeerActionView::TransmissionStarted(t) => effects.push(muting(t.voice_client_id)),
        PeerActionView::TransmissionStopped(t) => effects.push(muting(t.voice_client_id)),
        PeerActionView::Reset { voice_client_id } => effects.push(
            EffectView::RemoveSpeaker(voice_client_id),
        ),
        PeerActionView::Identity { .. } => effects,
    }
}

/// What the changes of the peers mean for the audio at once.
pub open spec fn all_at_once(effects: Seq<EffectView>, actions: Seq<PeerActionView>) -> Seq<
    EffectView,
>
    decreases actions.len(),
{
    if actions.len() == 0 {
        effects
    } else {
        at_once(all_at_once(effects, actions.drop_last()), actions.last())
    }
}

/// The moment once changes of the peers were passed on. Where the worker can
/// take no more, everything starts over.
#[verifier::opaque]
pub open spec fn peers_acted(x: MomentView, actions: Seq<PeerActionView>) -> MomentView {
    let heard = MomentView { effects: all_at_once(x.effects, actions), ..x };
    let (after, taken) = adapter::with_peer_actions(heard.shared, actions);
    if taken {
        sharing(heard, after)
    } else {
        let y = reset(sharing(heard, after));
        doing(sharing(y, reset_requested(y.shared)), EffectView::Announce(ACRE_QUEUE_FULL@))
    }
}

/// The game's name for the player of an optional transmission.
pub open spec fn named(direct: Option<TransmissionView>) -> Option<Seq<char>> {
    match direct {
        Some(t) => Some(t.net_id),
        None => None,
    }
}

/// The moment once native speech is what the game last said. Another player
/// resets everything.
pub open spec fn direct_refreshed(x: MomentView) -> MomentView {
    let direct = if x.runtime.connected {
        x.shared.direct
    } else {
        None
    };
    let y = if named(x.runtime.direct) != named(direct) {
        reset(x)
    } else {
        x
    };
    being(y, RuntimeView { direct, ..y.runtime })
}

/// What the game may ask about the place, if all of it can be told.
pub open spec fn metadata_of(c: ContextView) -> Option<MetadataView> {
    match session::checked_metadata(
        MetadataView {
            server_name: "Mumble"@,
            server_uid: context::plain_text(c.server),
            channel_name: context::plain_text(c.name),
            channel_uid: decimal::signed_decimal(c.channel as int),
        },
    ) {
        Ok(metadata) => Some(metadata),
        Err(_) => None,
    }
}

/// The peers that are no longer in the channel.
pub open spec fn departed(r: RuntimeView, users: Seq<u32>) -> Seq<u32> {
    order::ascending(r.peers.dom()).filter(|id: u32| !users.contains(id))
}

/// The moment once the peers with the IDs were forgotten, one by one.
pub open spec fn all_forgotten(x: MomentView, ids: Seq<u32>) -> MomentView
    decreases ids.len(),
{
    if ids.len() == 0 {
        x
    } else {
        let y = all_forgotten(x, ids.drop_last());
        let id = ids.last();
        peers_acted(
            being(y, RuntimeView { peers: y.runtime.peers.remove(id), ..y.runtime }),
            control::farewell(control::known_of(y.runtime.peers, id), id),
        )
    }
}

/// The moment once the user's place is known. Another place starts everything
/// over.
pub open spec fn relocated(x: MomentView, context: Option<ContextView>) -> MomentView {
    let moved = if context::same_place(x.runtime.context, context) {
        x
    } else {
        restarted(x)
    };
    MomentView {
        runtime: RuntimeView { context, ..moved.runtime },
        shared: SharedView {
            local_voice_client_id: match context {
                Some(c) => c.local,
                None => 0,
            },
            voip_metadata: match context {
                Some(c) => metadata_of(c),
                None => None,
            },
            ..moved.shared
        },
        ..moved
    }
}

/// The moment without the peers that are no longer in the channel.
pub open spec fn without_departed(x: MomentView) -> MomentView {
    match x.runtime.context {
        Some(c) => all_forgotten(x, departed(x.runtime, c.users)),
        None => x,
    }
}

/// The moment at the beginning of a tick, once Mumble said where the user is.
pub open spec fn ticked(x: MomentView, context: Option<ContextView>, overflowed: bool) -> MomentView {
    let muted = if x.runtime.mic && (suppressed(x.runtime)
        || !x.runtime.ptt.microphone_overwrite) {
        doing(x, EffectView::SetMicrophone(false))
    } else {
        x
    };
    let present = without_departed(relocated(muted, context));
    if overflowed {
        let y = reset(present);
        sharing(y, reset_requested(y.shared))
    } else {
        present
    }
}

/// The updates that the audio plane may take: those of speakers who may be
/// heard, and those of the listener.
pub open spec fn published(
    effects: Seq<EffectView>,
    updates: Seq<PlaneUpdateView>,
    audible: Map<u32, u64>,
) -> Seq<EffectView>
    decreases updates.len(),
{
    if updates.len() == 0 {
        effects
    } else {
        let before = published(effects, updates.drop_last(), audible);
        match updates.last() {
            PlaneUpdateView::Speaker(update) => if audible.contains_key(
                update.speaking.speaker_id,
            ) {
                before.push(EffectView::Publish(updates.last()))
            } else {
                before
            },
            PlaneUpdateView::Listener(_) => before.push(EffectView::Publish(updates.last())),
        }
    }
}

/// The moment once the decisions that wait were passed to the audio plane.
pub open spec fn audio_updated(x: MomentView, now: u64) -> MomentView {
    MomentView {
        shared: SharedView {
            listener_state: None,
            speaking_updates: Map::empty(),
            ..x.shared
        },
        effects: published(
            x.effects,
            adapter::waiting_updates(x.shared),
            control::audible_of(x.runtime.peers, now),
        ),
        ..x
    }
}

/// The moment once the local microphone was silenced.
pub open spec fn hushed(x: MomentView) -> MomentView {
    doing(doing(x, EffectView::CloseCapture), EffectView::SetMicrophone(false))
}

/// The moment once one event of the worker was handled.
pub open spec fn event_handled(x: MomentView, event: EventView) -> MomentView {
    match event {
        EventView::PipeConnected => doing(
            being(x, RuntimeView { connected: true, ..x.runtime }),
            EffectView::Announce(ACRE_CONNECTED@),
        ),
        EventView::PipeDisconnected => {
            let y = reset(x);
            being(y, RuntimeView { connected: false, ..y.runtime })
        },
        EventView::ResetRequested => reset(x),
        EventView::QueueOverflow => restarted(x),
        EventView::LocalTransmissionStarted(t) => {
            let y = direct_refreshed(x);
            if y.runtime.context is Some && y.runtime.context->0.local == t.voice_client_id
                && t.speaking_kind != SpeakingKind::God && t.speaking_kind != SpeakingKind::Zeus
                && ptt::acre_fault(t) is None {
                ptt_stepped(y, ptt::acre_start(y.runtime.ptt, t))
            } else {
                y
            }
        },
        EventView::LocalTransmissionStopped(t) => {
            let y = if ptt::is_the(x.runtime.ptt.active_acre, t) {
                ptt_stepped(
                    doing(x, EffectView::ClearNative),
                    ptt::native_stop(x.runtime.ptt),
                )
            } else {
                x
            };
            ptt_stepped(y, ptt::acre_stop(y.runtime.ptt, t))
        },
        EventView::SoundSystemOverrideChanged(enabled) => {
            let y = doing(
                being(x, RuntimeView { sound_system_override: enabled, dirty: true, ..x.runtime }),
                EffectView::OverrideSoundSystem(enabled),
            );
            if enabled {
                hushed(y)
            } else {
                y
            }
        },
        EventView::LocalMuteChanged(muted) => {
            let y = being(x, RuntimeView { locally_muted: muted, dirty: true, ..x.runtime });
            if muted {
                hushed(y)
            } else {
                y
            }
        },
        EventView::UserMuteChanged { voice_client_id, muted } => match x.runtime.context {
            Some(c) => doing(
                x,
                EffectView::RequestLocalMute { connection: c.connection, voice_client_id, muted },
            ),
            None => x,
        },
        EventView::SoundPlaybackReady { generation, id, file } => if x.shared.sound_generation
            == generation {
            doing(x, EffectView::Play { id, file })
        } else {
            x
        },
        EventView::RejectedMessage(_) => x,
        EventView::PipeError(_) => x,
    }
}

/// The moment once the events of a tick are all handled: native speech is
/// refreshed, and a silent game is given up.
pub open spec fn checked(x: MomentView, now: u64) -> MomentView {
    let y = direct_refreshed(x);
    if y.runtime.connected && now >= y.shared.last_activity + adapter::ACTIVITY_LIMIT {
        doing(restarted(y), EffectView::Announce(ACRE_UNRESPONSIVE@))
    } else {
        y
    }
}

/// Whether a message of the sender may be taken in at all.
pub open spec fn admissible(r: RuntimeView, connection: i32, sender: u32) -> bool {
    &&& r.connected
    &&& r.direct is Some
    &&& r.context is Some
    &&& r.context->0.connection == connection
    &&& r.context->0.users.contains(sender)
}

/// The moment once a peer's message was taken in. `state` is what the message
/// says, if it says anything valid.
pub open spec fn peer_heard(
    x: MomentView,
    connection: i32,
    sender: u32,
    state: Option<StateView>,
    now: u64,
) -> MomentView {
    if admissible(x.runtime, connection, sender) && state is Some {
        let (peers, answer) = control::received(
            x.runtime.peers,
            sender,
            x.runtime.scope,
            state->0,
            now,
        );
        let y = being(x, RuntimeView { peers, ..x.runtime });
        match answer {
            Ok(actions) => peers_acted(y, actions),
            Err(_) => y,
        }
    } else {
        x
    }
}

/// The moment once the push-to-talk machine knows whether the user talks
/// natively.
pub open spec fn spoken_natively(x: MomentView) -> MomentView {
    match x.runtime.direct {
        Some(direct) => if x.runtime.native_talking {
            if ptt::direct_fault(direct) is None {
                ptt_stepped(x, ptt::direct_start(x.runtime.ptt, direct))
            } else {
                x
            }
        } else {
            ptt_stepped(x, ptt::native_stop(x.runtime.ptt))
        },
        None => x,
    }
}

/// The moment once native speech and the peers' leases were followed up.
pub open spec fn followed_up(x: MomentView, native: bool, now: u64) -> MomentView {
    let talking = !suppressed(x.runtime) && native;
    let spoken = spoken_natively(
        being(x, RuntimeView { native_talking: talking, ..x.runtime }),
    );
    let before = spoken.runtime.peers;
    let lapsed = being(
        spoken,
        RuntimeView { peers: control::all_after_expiry(before, now), ..spoken.runtime },
    );
    let told = peers_acted(
        lapsed,
        control::expiry_stops(before, order::ascending(before.dom()), now),
    );
    doing(told, EffectView::PublishPeers(control::audible_of(told.runtime.peers, now)))
}

/// Whether the local state is to be sent now.
pub open spec fn due(r: RuntimeView, now: u64) -> bool {
    r.dirty && now >= r.last_send + MIN_SEND_INTERVAL || now >= r.last_send + REFRESH
}

/// The moment once the local state was written down, and the state message if
/// there is one to send.
pub open spec fn state_prepared(x: MomentView) -> (MomentView, Option<StateView>) {
    if x.runtime.context is None || x.runtime.direct is None || !x.runtime.connected {
        (x, None)
    } else if suppressed(x.runtime) {
        let y = hushed(x);
        (being(y, RuntimeView { dirty: true, ..y.runtime }), None)
    } else {
        let sequence = raised(x.runtime.sequence);
        (
            being(x, RuntimeView { sequence, ..x.runtime }),
            match control::new_state(
                x.runtime.scope,
                x.runtime.generation,
                sequence,
                x.runtime.direct->0.net_id,
                x.runtime.active,
            ) {
                Ok(state) => Some(state),
                Err(_) => None,
            },
        )
    }
}

/// The control plane once its state is being sent.
pub open spec fn sending_state(r: RuntimeView, now: u64) -> RuntimeView {
    RuntimeView { last_send: now, dirty: false, ..r }
}

/// The moment once sending the state succeeded or failed. Only a state that
/// was sent lets the microphone through.
pub open spec fn state_sent(x: MomentView, success: bool) -> MomentView {
    if success {
        let y = doing(
            x,
            if x.runtime.active is Some {
                EffectView::RenewCapture
            } else {
                EffectView::CloseCapture
            },
        );
        if x.runtime.ptt.microphone_overwrite != x.runtime.mic {
            doing(y, EffectView::SetMicrophone(x.runtime.ptt.microphone_overwrite))
        } else {
            y
        }
    } else {
        let y = hushed(x);
        being(y, RuntimeView { dirty: true, ..y.runtime })
    }
}

/// The moment at the end of a tick: dropped decisions are announced, and the
/// audio filter follows the connection.
pub open spec fn finished(x: MomentView) -> MomentView {
    let y = sharing(x, SharedView { dropped_speaking_updates: 0, ..x.shared });
    let z = if x.shared.dropped_speaking_updates > 0 {
        doing(y, EffectView::Announce(TOO_MANY_SPEAKERS@))
    } else {
        y
    };
    filtered(z, z.runtime.connected && z.runtime.context is Some)
}

/// A message of a peer: where it came from, and what it says if it says
/// anything valid.
#[derive(Debug, PartialEq)]
pub struct PeerPacket {
    pub connection: i32,
    pub sender: u32,
    pub state: Option<StateMessage>,
}

/// The model of a peer's message.
#[verifier::ext_equal]
pub struct PacketView {
    pub connection: i32,
    pub sender: u32,
    pub state: Option<StateView>,
}

impl View for PeerPacket {
    type V = PacketView;

    open spec fn view(&self) -> PacketView {
        PacketView {
            connection: self.connection,
            sender: self.sender,
            state: model::optional(self.state),
        }
    }
}

/// The moment once all events of the worker were handled, in order.
pub open spec fn events_handled(x: MomentView, events: Seq<EventView>) -> MomentView
    decreases events.len(),
{
    if events.len() == 0 {
        x
    } else {
        event_handled(events_handled(x, events.drop_last()), events.last())
    }
}

/// The moment once all messages of the peers were taken in, in order.
pub open spec fn packets_heard(x: MomentView, packets: Seq<PacketView>, now: u64) -> MomentView
    decreases packets.len(),
{
    if packets.len() == 0 {
        x
    } else {
        let packet = packets.last();
        peer_heard(
            packets_heard(x, packets.drop_last(), now),
            packet.connection,
            packet.sender,
            packet.state,
            now,
        )
    }
}

/// The moment once a tick has taken in everything from outside. Decisions that
/// waited are published before the transitions that silence them.
pub open spec fn taken_in(
    x: MomentView,
    context: Option<ContextView>,
    overflowed: bool,
    packets: Seq<PacketView>,
    now: u64,
) -> MomentView {
    let y = audio_updated(ticked(x, context, overflowed), now);
    let told = events_handled(
        sharing(y, SharedView { events: Seq::empty(), ..y.shared }),
        y.shared.events,
    );
    packets_heard(checked(told, now), packets, now)
}

/// The moment once a tick has drawn its conclusions, and the state message if
/// one is due.
pub open spec fn concluded(x: MomentView, native: bool, now: u64) -> (
    MomentView,
    Option<StateView>,
) {
    let y = followed_up(x, native, now);
    if due(y.runtime, now) {
        state_prepared(y)
    } else {
        (y, None)
    }
}

/// A control plane before its first tick.
pub open spec fn fresh(scope: Seq<char>, generation: u64, now: u64) -> RuntimeView {
    RuntimeView {
        scope,
        generation,
        sequence: 0,
        context: None,
        peers: Map::empty(),
        ptt: ptt::at_rest(),
        direct: None,
        active: None,
        native_talking: false,
        connected: false,
        last_send: now,
        dirty: true,
        mic: false,
        sound_system_override: false,
        locally_muted: false,
        filtering: false,
    }
}

/// What the game may ask about the place, if all of it can be told.
fn metadata_for(context: &Context) -> (metadata: Option<VoipMetadata>)
    ensures
        model::optional(metadata) == metadata_of(context@),
{
    let server: String = plain(context.server.as_str());
    let name: String = plain(context.name.as_str());
    let channel: String = signed_text(context.channel);
    match VoipMetadata::new("Mumble", server.as_str(), name.as_str(), channel.as_str()) {
        Ok(metadata) => Some(metadata),
        Err(_) => None,
    }
}

impl Runtime {
    /// A control plane before its first tick. An unfit scope is refused.
    pub fn new(scope: &str, generation: u64, now: u64) -> (runtime: Result<Self, AcrePeerError>)
        ensures
            model::outcome(runtime) == match peer::header_fault(
                HeaderView {
                    version: peer::ACRE_PEER_PROTOCOL_VERSION,
                    scope: scope@,
                    generation: 1,
                    sequence: 1,
                },
            ) {
                Some(fault) => Err::<RuntimeView, PeerFault>(fault),
                None => Ok(fresh(scope@, generation, now)),
            },
    {
        match PeerHeader::new(scope, 1, 1) {
            Ok(_) => {},
            Err(error) => {
                return Err(error);
            },
        }
        Ok(
            Runtime {
                scope: scope.to_owned(),
                generation,
                sequence: 0,
                context: None,
                peers: RemotePeers::default(),
                ptt: AcrePttStateMachine::default(),
                direct: None,
                active: None,
                native_talking: false,
                connected: false,
                last_send: now,
                dirty: true,
                mic: false,
                sound_system_override: false,
                locally_muted: false,
                filtering: false,
            },
        )
    }

    fn voice_is_suppressed(&self) -> (answer: bool)
        ensures
            answer == suppressed(self@),
    {
        self.sound_system_override || self.locally_muted
    }

    /// Takes in one push-to-talk action.
    fn ptt_action(
        &mut self,
        shared: &mut AdapterShared,
        effects: &mut Vec<RuntimeEffect>,
        action: PttAction,
    )
        ensures
            moment(final(self)@, final(shared)@, model::views(final(effects)@)) == ptt_acted(
                moment(old(self)@, old(shared)@, model::views(old(effects)@)),
                action@,
            ),
    {
        broadcast use model::group_views;

        match action {
            PttAction::PeerStarted(transmission) => {
                effects.push(RuntimeEffect::CloseCapture);
                if transmission.speaking_kind() == SpeakingKind::Direct {
                    let _ = shared.notify_direct(&transmission, true);
                }
                self.active = Some(transmission);
                self.dirty = true;
            },
            PttAction::PeerStopped(transmission) => {
                effects.push(RuntimeEffect::CloseCapture);
                if transmission.speaking_kind() == SpeakingKind::Direct {
                    let _ = shared.notify_direct(&transmission, false);
                }
                self.active = None;
                self.dirty = true;
            },
            PttAction::SetMicrophoneActivationOverwrite(active) => {
                if !active {
                    effects.push(RuntimeEffect::SetMicrophone(false));
                }
            },
        }
    }

    /// Takes in push-to-talk actions in order.
    fn ptt_actions(
        &mut self,
        shared: &mut AdapterShared,
        effects: &mut Vec<RuntimeEffect>,
        actions: Vec<PttAction>,
    )
        ensures
            moment(final(self)@, final(shared)@, model::views(final(effects)@)) == ptt_acted_all(
                moment(old(self)@, old(shared)@, model::views(old(effects)@)),
                model::views(actions@),
            ),
    {
        broadcast use model::group_views;

        let ghost all = model::views(actions@);
        let ghost before = moment(self@, shared@, model::views(effects@));
        let mut rest: Vec<PttAction> = actions;
        let ghost mut done: int = 0;
        assert(all.take(0) =~= Seq::<PttActionView>::empty());
        assert(all.skip(0) =~= all);
        while rest.len() > 0
            invariant
                0 <= done <= all.len(),
                model::views(rest@) == all.skip(done),
                moment(self@, shared@, model::views(effects@)) == ptt_acted_all(
                    before,
                    all.take(done),
                ),
            decreases rest@.len(),
        {
            broadcast use model::group_views;

            let ghost head = rest@[0]@;
            proof {
                assert(model::views(rest@).len() == rest@.len());
                assert(model::views(rest@)[0] == head);
                assert(all.skip(done)[0] == all[done]);
            }
            let action: PttAction = rest.remove(0);
            proof {
                assert(all.take(done + 1).drop_last() =~= all.take(done));
                assert(all.take(done + 1).last() == head);
                assert(model::views(rest@) =~= all.skip(done + 1));
                done = done + 1;
            }
            self.ptt_action(shared, effects, action);
        }
        assert(all.take(done) =~= all) by {
            assert(model::views(rest@).len() == all.skip(done).len());
        }
    }

    /// Turns the audio filter on or off.
    fn filter(
        &mut self,
        shared: &mut AdapterShared,
        effects: &mut Vec<RuntimeEffect>,
        active: bool,
    )
        ensures
            moment(final(self)@, final(shared)@, model::views(final(effects)@)) == filtered(
                moment(old(self)@, old(shared)@, model::views(old(effects)@)),
                active,
            ),
    {
        broadcast use model::group_views;

        if self.filtering != active {
            let words: &'static str = if active {
                FILTER_ON
            } else {
                FILTER_OFF
            };
            shared.push_log(LogLevel::Info, "acre_audio_filter", words.to_owned());
            self.filtering = active;
            effects.push(RuntimeEffect::FilterAudio(active));
            effects.push(RuntimeEffect::Announce(words));
        }
    }

    /// Resets everything.
    fn reset(&mut self, shared: &mut AdapterShared, effects: &mut Vec<RuntimeEffect>)
        ensures
            moment(final(self)@, final(shared)@, model::views(final(effects)@)) == reset(
                moment(old(self)@, old(shared)@, model::views(old(effects)@)),
            ),
    {
        broadcast use model::group_views;

        reveal(reset);
        effects.push(RuntimeEffect::CloseCapture);
        let actions: Vec<PttAction> = self.ptt.reset();
        self.ptt_actions(shared, effects, actions);
        self.native_talking = false;
        effects.push(RuntimeEffect::ClearNative);
        self.active = None;
        self.direct = None;
        let farewells: Vec<PeerStateAction> = self.peers.clear();
        if shared.enqueue_peer_actions(farewells).is_err() {
            shared.request_reset();
        }
        self.generation = self.generation.saturating_add(1);
        self.sequence = 0;
        self.dirty = true;
        self.sound_system_override = false;
        self.locally_muted = false;
        effects.push(RuntimeEffect::OverrideSoundSystem(false));
        effects.push(RuntimeEffect::SetMicrophone(false));
        effects.push(RuntimeEffect::ResetDecisions);
        let nobody: HashMap<u32, u64> = HashMap::new();
        assert(nobody@ =~= Map::empty());
        effects.push(RuntimeEffect::PublishPeers(nobody));
        self.filter(shared, effects, false);
    }

    /// Resets everything and asks the worker to start over.
    fn restart(&mut self, shared: &mut AdapterShared, effects: &mut Vec<RuntimeEffect>)
        ensures
            moment(final(self)@, final(shared)@, model::views(final(effects)@)) == restarted(
                moment(old(self)@, old(shared)@, model::views(old(effects)@)),
            ),
    {
        self.reset(shared, effects);
        self.connected = false;
        shared.request_reset();
    }

    /// Passes changes of the peers on.
    fn peer_actions(
        &mut self,
        shared: &mut AdapterShared,
        effects: &mut Vec<RuntimeEffect>,
        actions: Vec<PeerStateAction>,
    )
        ensures
            moment(final(self)@, final(shared)@, model::views(final(effects)@)) == peers_acted(
                moment(old(self)@, old(shared)@, model::views(old(effects)@)),
                model::views(actions@),
            ),
    {
        broadcast use model::group_views;

        reveal(peers_acted);
        let ghost all = model::views(actions@);
        let ghost before = model::views(effects@);
        let mut i: usize = 0;
        assert(all.take(0) =~= Seq::<PeerActionView>::empty());
        while i < actions.len()
            invariant
                i <= actions@.len(),
                all == model::views(actions@),
                model::views(effects@) == all_at_once(before, all.take(i as int)),
            decreases actions@.len() - i,
        {
            broadcast use model::group_views;

            proof {
                assert(all.take(i + 1).drop_last() =~= all.take(i as int));
                assert(all.take(i + 1).last() == actions@[i as int]@);
            }
            match &actions[i] {
                PeerStateAction::TransmissionStarted(transmission) => {
                    effects.push(RuntimeEffect::Publish(mute(transmission.voice_client_id())));
                },
                PeerStateAction::TransmissionStopped(transmission) => {
                    effects.push(RuntimeEffect::Publish(mute(transmission.voice_client_id())));
                },
                PeerStateAction::Reset { voice_client_id } => {
                    effects.push(RuntimeEffect::RemoveSpeaker(*voice_client_id));
                },
                PeerStateAction::Identity { voice_client_id, net_id } => {},
            }
            i += 1;
        }
        assert(all.take(i as int) =~= all);
        if shared.enqueue_peer_actions(actions).is_err() {
            self.reset(shared, effects);
            shared.request_reset();
            effects.push(RuntimeEffect::Announce(ACRE_QUEUE_FULL));
        }
    }

    /// Takes over what the game last said of native speech.
    fn refresh_direct(&mut self, shared: &mut AdapterShared, effects: &mut Vec<RuntimeEffect>)
        ensures
            moment(final(self)@, final(shared)@, model::views(final(effects)@))
                == direct_refreshed(
                moment(old(self)@, old(shared)@, model::views(old(effects)@)),
            ),
    {
        let direct: Option<Transmission> = if self.connected {
            shared.direct()
        } else {
            None
        };
        let same: bool = match (&self.direct, &direct) {
            (Some(known), Some(now)) => same_text(known.net_id(), now.net_id()),
            (None, None) => true,
            _ => false,
        };
        if !same {
            self.reset(shared, effects);
        }
        self.direct = direct;
    }

    /// The peers that are no longer in the channel.
    fn departed_ids(&self) -> (ids: Vec<u32>)
        ensures
            ids@ == match self@.context {
                Some(c) => departed(self@, c.users),
                None => Seq::empty(),
            },
    {
        let context: &Context = match &self.context {
            Some(context) => context,
            None => {
                return Vec::new();
            },
        };
        let known: Vec<u32> = self.peers.ids();
        let ghost gone = |id: u32| !context@.users.contains(id);
        let mut ids: Vec<u32> = Vec::new();
        let mut i: usize = 0;
        proof {
            reveal(Seq::filter);
            assert(known@.take(0) =~= Seq::<u32>::empty());
        }
        while i < known.len()
            invariant
                i <= known@.len(),
                gone == (|id: u32| !context@.users.contains(id)),
                ids@ == known@.take(i as int).filter(gone),
            decreases known@.len() - i,
        {
            proof {
                reveal(Seq::filter);
                assert(known@.take(i + 1).drop_last() =~= known@.take(i as int));
                assert(known@.take(i + 1).last() == known@[i as int]);
            }
            if !context.has_user(known[i]) {
                ids.push(known[i]);
            }
            i += 1;
        }
        assert(known@.take(i as int) =~= known@);
        ids
    }

    /// Forgets the peers that are no longer in the channel.
    fn forget_departed(&mut self, shared: &mut AdapterShared, effects: &mut Vec<RuntimeEffect>)
        ensures
            moment(final(self)@, final(shared)@, model::views(final(effects)@))
                == without_departed(
                moment(old(self)@, old(shared)@, model::views(old(effects)@)),
            ),
    {
        let ids: Vec<u32> = self.departed_ids();
        let ghost before = moment(self@, shared@, model::views(effects@));
        let mut k: usize = 0;
        assert(ids@.take(0) =~= Seq::<u32>::empty());
        while k < ids.len()
            invariant
                k <= ids@.len(),
                moment(self@, shared@, model::views(effects@)) == all_forgotten(
                    before,
                    ids@.take(k as int),
                ),
            decreases ids@.len() - k,
        {
            proof {
                assert(ids@.take(k + 1).drop_last() =~= ids@.take(k as int));
                assert(ids@.take(k + 1).last() == ids@[k as int]);
            }
            let actions: Vec<PeerStateAction> = self.peers.remove(ids[k]);
            self.peer_actions(shared, effects, actions);
            k += 1;
        }
        assert(ids@.take(k as int) =~= ids@);
    }

    /// Takes over the user's place.
    fn relocate(
        &mut self,
        shared: &mut AdapterShared,
        effects: &mut Vec<RuntimeEffect>,
        context: Option<Context>,
    )
        ensures
            moment(final(self)@, final(shared)@, model::views(final(effects)@)) == relocated(
                moment(old(self)@, old(shared)@, model::views(old(effects)@)),
                model::optional(context),
            ),
    {
        if !is_same_place(&self.context, &context) {
            self.restart(shared, effects);
        }
        match &context {
            Some(place) => {
                shared.set_local_voice_client_id(Some(place.local));
                shared.set_voip_metadata(metadata_for(place));
            },
            None => {
                shared.set_local_voice_client_id(None);
                shared.set_voip_metadata(None);
            },
        }
        self.context = context;
    }

    /// Begins a tick with what Mumble says of the user's place and whether a
    /// message of a peer was lost.
    fn begin_tick(
        &mut self,
        shared: &mut AdapterShared,
        effects: &mut Vec<RuntimeEffect>,
        context: Option<Context>,
        overflowed: bool,
    )
        ensures
            moment(final(self)@, final(shared)@, model::views(final(effects)@)) == ticked(
                moment(old(self)@, old(shared)@, model::views(old(effects)@)),
                model::optional(context),
                overflowed,
            ),
    {
        broadcast use model::group_views;

        if self.mic && (self.voice_is_suppressed() || !self.ptt.microphone_overwrite_active()) {
            effects.push(RuntimeEffect::SetMicrophone(false));
        }
        self.relocate(shared, effects, context);
        self.forget_departed(shared, effects);
        if overflowed {
            self.reset(shared, effects);
            shared.request_reset();
        }
    }

    /// Passes the decisions that wait to the audio plane.
    fn update_audio(
        &mut self,
        shared: &mut AdapterShared,
        effects: &mut Vec<RuntimeEffect>,
        now: u64,
    )
        ensures
            moment(final(self)@, final(shared)@, model::views(final(effects)@)) == audio_updated(
                moment(old(self)@, old(shared)@, model::views(old(effects)@)),
                now,
            ),
    {
        broadcast use model::group_views;

        let audible: HashMap<u32, u64> = self.peers.audible(now);
        let updates: Vec<AcreAudioUpdate> = shared.drain_audio_updates();
        let ghost all = model::views(updates@);
        let mut rest: Vec<AcreAudioUpdate> = updates;
        let ghost before = model::views(effects@);
        let ghost mut done: int = 0;
        assert(all.take(0) =~= Seq::<PlaneUpdateView>::empty());
        assert(all.skip(0) =~= all);
        while rest.len() > 0
            invariant
                0 <= done <= all.len(),
                model::views(rest@) == all.skip(done),
                model::views(effects@) == published(before, all.take(done), audible@),
            decreases rest@.len(),
        {
            broadcast use model::group_views;

            let ghost head = rest@[0]@;
            proof {
                assert(model::views(rest@).len() == rest@.len());
                assert(model::views(rest@)[0] == head);
                assert(all.skip(done)[0] == all[done]);
            }
            let update: AcreAudioUpdate = rest.remove(0);
            proof {
                assert(all.take(done + 1).drop_last() =~= all.take(done));
                assert(all.take(done + 1).last() == head);
                assert(model::views(rest@) =~= all.skip(done + 1));
                done = done + 1;
            }
            let wanted: bool = match &update {
                AcreAudioUpdate::Speaker(speaker) => audible.contains_key(
                    &speaker.speaking.speaker_id,
                ),
                AcreAudioUpdate::Listener(_) => true,
            };
            if wanted {
                effects.push(RuntimeEffect::Publish(update));
            }
        }
        assert(all.take(done) =~= all) by {
            assert(model::views(rest@).len() == all.skip(done).len());
        }
    }

    /// Silences the local microphone.
    fn suppress_local_microphone(&self, effects: &mut Vec<RuntimeEffect>)
        ensures
            model::views(final(effects)@) == model::views(old(effects)@).push(
                EffectView::CloseCapture,
            ).push(EffectView::SetMicrophone(false)),
    {
        broadcast use model::group_views;

        effects.push(RuntimeEffect::CloseCapture);
        effects.push(RuntimeEffect::SetMicrophone(false));
    }

    /// Takes in the start of a transmission of the game.
    fn transmission_started(
        &mut self,
        shared: &mut AdapterShared,
        effects: &mut Vec<RuntimeEffect>,
        transmission: Transmission,
    )
        ensures
            moment(final(self)@, final(shared)@, model::views(final(effects)@)) == event_handled(
                moment(old(self)@, old(shared)@, model::views(old(effects)@)),
                EventView::LocalTransmissionStarted(transmission@),
            ),
    {
        self.refresh_direct(shared, effects);
        let own: bool = match &self.context {
            Some(context) => context.local == transmission.voice_client_id(),
            None => false,
        };
        let kind: SpeakingKind = transmission.speaking_kind();
        if own && kind != SpeakingKind::God && kind != SpeakingKind::Zeus {
            match self.ptt.acre_started(transmission) {
                Ok(actions) => {
                    self.ptt_actions(shared, effects, actions);
                },
                Err(_) => {},
            }
        }
    }

    /// Takes in the end of a transmission of the game.
    fn transmission_stopped(
        &mut self,
        shared: &mut AdapterShared,
        effects: &mut Vec<RuntimeEffect>,
        transmission: &Transmission,
    )
        ensures
            moment(final(self)@, final(shared)@, model::views(final(effects)@)) == event_handled(
                moment(old(self)@, old(shared)@, model::views(old(effects)@)),
                EventView::LocalTransmissionStopped(transmission@),
            ),
    {
        broadcast use model::group_views;

        let current: bool = match self.ptt.active_acre() {
            Some(active) => active.same_as(transmission),
            None => false,
        };
        if current {
            effects.push(RuntimeEffect::ClearNative);
            let actions: Vec<PttAction> = self.ptt.native_stopped();
            self.ptt_actions(shared, effects, actions);
        }
        let actions: Vec<PttAction> = self.ptt.acre_stopped(transmission);
        self.ptt_actions(shared, effects, actions);
    }

    /// Handles one event of the worker.
    fn handle_event(
        &mut self,
        shared: &mut AdapterShared,
        effects: &mut Vec<RuntimeEffect>,
        event: AcreAdapterEvent,
    )
        ensures
            moment(final(self)@, final(shared)@, model::views(final(effects)@)) == event_handled(
                moment(old(self)@, old(shared)@, model::views(old(effects)@)),
                event@,
            ),
    {
        broadcast use model::group_views;

        match event {
            AcreAdapterEvent::PipeConnected => {
                self.connected = true;
                effects.push(RuntimeEffect::Announce(ACRE_CONNECTED));
            },
            AcreAdapterEvent::PipeDisconnected => {
                self.reset(shared, effects);
                self.connected = false;
            },
            AcreAdapterEvent::ResetRequested => {
                self.reset(shared, effects);
            },
            AcreAdapterEvent::QueueOverflow => {
                self.restart(shared, effects);
            },
            AcreAdapterEvent::LocalTransmissionStarted(transmission) => {
                self.transmission_started(shared, effects, transmission);
            },
            AcreAdapterEvent::LocalTransmissionStopped(transmission) => {
                self.transmission_stopped(shared, effects, &transmission);
            },
            AcreAdapterEvent::SoundSystemOverrideChanged(enabled) => {
                self.sound_system_override = enabled;
                effects.push(RuntimeEffect::OverrideSoundSystem(enabled));
                if enabled {
                    self.suppress_local_microphone(effects);
                }
                self.dirty = true;
            },
            AcreAdapterEvent::LocalMuteChanged(muted) => {
                self.locally_muted = muted;
                if muted {
                    self.suppress_local_microphone(effects);
                }
                self.dirty = true;
            },
            AcreAdapterEvent::UserMuteChanged { voice_client_id, muted } => match &self.context {
                Some(context) => {
                    effects.push(
                        RuntimeEffect::RequestLocalMute {
                            connection: context.connection,
                            voice_client_id,
                            muted,
                        },
                    );
                },
                None => {},
            },
            AcreAdapterEvent::SoundPlaybackReady { generation, id, file } => {
                if shared.is_current_sound_generation(generation) {
                    effects.push(RuntimeEffect::Play { id, file });
                }
            },
            AcreAdapterEvent::RejectedMessage(_) => {},
            AcreAdapterEvent::PipeError(_) => {},
        }
    }

    /// Ends the handling of events: refreshes native speech and gives up a
    /// game that has fallen silent.
    fn end_events(
        &mut self,
        shared: &mut AdapterShared,
        effects: &mut Vec<RuntimeEffect>,
        now: u64,
    )
        ensures
            moment(final(self)@, final(shared)@, model::views(final(effects)@)) == checked(
                moment(old(self)@, old(shared)@, model::views(old(effects)@)),
                now,
            ),
    {
        broadcast use model::group_views;

        self.refresh_direct(shared, effects);
        if self.connected && !shared.healthy(now) {
            self.restart(shared, effects);
            effects.push(RuntimeEffect::Announce(ACRE_UNRESPONSIVE));
        }
    }

    /// Whether a message of the sender may be taken in at all.
    fn admits(&self, connection: i32, sender: u32) -> (answer: bool)
        ensures
            answer == admissible(self@, connection, sender),
    {
        self.connected && self.direct.is_some() && match &self.context {
            Some(context) => context.connection == connection && context.has_user(sender),
            None => false,
        }
    }

    /// Takes in a peer's message. `state` is what the message says, if it says
    /// anything valid.
    fn hear_peer(
        &mut self,
        shared: &mut AdapterShared,
        effects: &mut Vec<RuntimeEffect>,
        connection: i32,
        sender: u32,
        state: Option<StateMessage>,
        now: u64,
    )
        ensures
            moment(final(self)@, final(shared)@, model::views(final(effects)@)) == peer_heard(
                moment(old(self)@, old(shared)@, model::views(old(effects)@)),
                connection,
                sender,
                model::optional(state),
                now,
            ),
    {
        broadcast use model::group_views;

        if !self.admits(connection, sender) {
            return;
        }
        match state {
            Some(state) => match self.peers.receive(sender, self.scope.as_str(), state, now) {
                Ok(actions) => {
                    self.peer_actions(shared, effects, actions);
                },
                Err(_) => {},
            },
            None => {},
        }
    }

    /// Follows native speech and the peers' leases up. `native` says whether
    /// Mumble itself hears the user.
    fn follow_up(
        &mut self,
        shared: &mut AdapterShared,
        effects: &mut Vec<RuntimeEffect>,
        native: bool,
        now: u64,
    )
        ensures
            moment(final(self)@, final(shared)@, model::views(final(effects)@)) == followed_up(
                moment(old(self)@, old(shared)@, model::views(old(effects)@)),
                native,
                now,
            ),
    {
        broadcast use model::group_views;

        self.native_talking = !self.voice_is_suppressed() && native;
        let direct: Option<Transmission> = match &self.direct {
            Some(direct) => Some(direct.clone()),
            None => None,
        };
        match direct {
            Some(direct) => {
                let actions: Vec<PttAction> = if self.native_talking {
                    match self.ptt.direct_started(direct) {
                        Ok(actions) => actions,
                        Err(_) => Vec::new(),
                    }
                } else {
                    self.ptt.native_stopped()
                };
                self.ptt_actions(shared, effects, actions);
            },
            None => {},
        }
        let expired: Vec<PeerStateAction> = self.peers.expire(now);
        self.peer_actions(shared, effects, expired);
        effects.push(RuntimeEffect::PublishPeers(self.peers.audible(now)));
    }

    /// Whether the local state is to be sent now.
    fn is_due(&self, now: u64) -> (answer: bool)
        ensures
            answer == due(self@, now),
    {
        let elapsed: u64 = now.saturating_sub(self.last_send);
        self.dirty && elapsed >= MIN_SEND_INTERVAL || elapsed >= REFRESH
    }

    /// Writes the local state down, if there is one to send.
    pub fn prepare_state(
        &mut self,
        shared: &AdapterShared,
        effects: &mut Vec<RuntimeEffect>,
    ) -> (state: Option<StateMessage>)
        ensures
            (
                moment(final(self)@, shared@, model::views(final(effects)@)),
                model::optional(state),
            ) == state_prepared(moment(old(self)@, shared@, model::views(old(effects)@))),
    {
        broadcast use model::group_views;

        if self.context.is_none() || self.direct.is_none() || !self.connected {
            return None;
        }
        if self.voice_is_suppressed() {
            self.suppress_local_microphone(effects);
            self.dirty = true;
            return None;
        }
        self.sequence = self.sequence.saturating_add(1);
        match &self.direct {
            Some(direct) => match StateMessage::new(
                self.scope.as_str(),
                self.generation,
                self.sequence,
                direct.net_id(),
                self.active.as_ref(),
            ) {
                Ok(state) => Some(state),
                Err(_) => None,
            },
            None => None,
        }
    }

    /// Handles all events of the worker that wait.
    fn handle_events(&mut self, shared: &mut AdapterShared, effects: &mut Vec<RuntimeEffect>)
        ensures
            moment(final(self)@, final(shared)@, model::views(final(effects)@)) == events_handled(
                moment(
                    old(self)@,
                    SharedView { events: Seq::empty(), ..old(shared)@ },
                    model::views(old(effects)@),
                ),
                old(shared)@.events,
            ),
    {
        broadcast use model::group_views;

        let mut rest: Vec<AcreAdapterEvent> = shared.drain_events();
        let ghost all = model::views(rest@);
        let ghost before = moment(self@, shared@, model::views(effects@));
        let ghost mut done: int = 0;
        assert(all.take(0) =~= Seq::<EventView>::empty());
        assert(all.skip(0) =~= all);
        while rest.len() > 0
            invariant
                0 <= done <= all.len(),
                model::views(rest@) == all.skip(done),
                moment(self@, shared@, model::views(effects@)) == events_handled(
                    before,
                    all.take(done),
                ),
            decreases rest@.len(),
        {
            broadcast use model::group_views;

            let ghost head = rest@[0]@;
            proof {
                assert(model::views(rest@).len() == rest@.len());
                assert(model::views(rest@)[0] == head);
                assert(all.skip(done)[0] == all[done]);
            }
            let event: AcreAdapterEvent = rest.remove(0);
            proof {
                assert(all.take(done + 1).drop_last() =~= all.take(done));
                assert(all.take(done + 1).last() == head);
                assert(model::views(rest@) =~= all.skip(done + 1));
                done = done + 1;
            }
            self.handle_event(shared, effects, event);
        }
        assert(all.take(done) =~= all) by {
            assert(model::views(rest@).len() == all.skip(done).len());
        }
    }

    /// Takes in messages of the peers in order.
    fn hear_peers(
        &mut self,
        shared: &mut AdapterShared,
        effects: &mut Vec<RuntimeEffect>,
        packets: Vec<PeerPacket>,
        now: u64,
    )
        ensures
            moment(final(self)@, final(shared)@, model::views(final(effects)@)) == packets_heard(
                moment(old(self)@, old(shared)@, model::views(old(effects)@)),
                model::views(packets@),
                now,
            ),
    {
        broadcast use model::group_views;

        let ghost all = model::views(packets@);
        let ghost before = moment(self@, shared@, model::views(effects@));
        let mut rest: Vec<PeerPacket> = packets;
        let ghost mut done: int = 0;
        assert(all.take(0) =~= Seq::<PacketView>::empty());
        assert(all.skip(0) =~= all);
        while rest.len() > 0
            invariant
                0 <= done <= all.len(),
                model::views(rest@) == all.skip(done),
                moment(self@, shared@, model::views(effects@)) == packets_heard(
                    before,
                    all.take(done),
                    now,
                ),
            decreases rest@.len(),
        {
            broadcast use model::group_views;

            let ghost head = rest@[0]@;
            proof {
                assert(model::views(rest@).len() == rest@.len());
                assert(model::views(rest@)[0] == head);
                assert(all.skip(done)[0] == all[done]);
            }
            let packet: PeerPacket = rest.remove(0);
            proof {
                assert(all.take(done + 1).drop_last() =~= all.take(done));
                assert(all.take(done + 1).last() == head);
                assert(model::views(rest@) =~= all.skip(done + 1));
                done = done + 1;
            }
            self.hear_peer(
                shared,
                effects,
                packet.connection,
                packet.sender,
                packet.state,
                now,
            );
        }
        assert(all.take(done) =~= all) by {
            assert(model::views(rest@).len() == all.skip(done).len());
        }
    }

    /// The first half of a tick takes in where the user is, what the game
    /// decided and reported, and what the peers sent.
    pub fn tick(
        &mut self,
        shared: &mut AdapterShared,
        effects: &mut Vec<RuntimeEffect>,
        context: Option<Context>,
        overflowed: bool,
        packets: Vec<PeerPacket>,
        now: u64,
    )
        ensures
            moment(final(self)@, final(shared)@, model::views(final(effects)@)) == taken_in(
                moment(old(self)@, old(shared)@, model::views(old(effects)@)),
                model::optional(context),
                overflowed,
                model::views(packets@),
                now,
            ),
    {
        self.begin_tick(shared, effects, context, overflowed);
        self.update_audio(shared, effects, now);
        self.handle_events(shared, effects);
        self.end_events(shared, effects, now);
        self.hear_peers(shared, effects, packets, now);
    }

    /// The second half of a tick follows up on native speech and on the peers'
    /// leases, and yields the state message if one is due. `native` says
    /// whether Mumble itself hears speech once the first half's effects were
    /// carried out.
    pub fn conclude(
        &mut self,
        shared: &mut AdapterShared,
        effects: &mut Vec<RuntimeEffect>,
        native: bool,
        now: u64,
    ) -> (state: Option<StateMessage>)
        ensures
            (
                moment(final(self)@, final(shared)@, model::views(final(effects)@)),
                model::optional(state),
            ) == concluded(
                moment(old(self)@, old(shared)@, model::views(old(effects)@)),
                native,
                now,
            ),
    {
        self.follow_up(shared, effects, native, now);
        if self.is_due(now) {
            self.prepare_state(shared, effects)
        } else {
            None
        }
    }

    /// Notes that the state is being sent.
    pub fn sending(&mut self, now: u64)
        ensures
            final(self)@ == sending_state(old(self)@, now),
    {
        self.last_send = now;
        self.dirty = false;
    }

    /// Takes note of whether sending the state succeeded.
    pub fn sent(
        &mut self,
        shared: &AdapterShared,
        effects: &mut Vec<RuntimeEffect>,
        success: bool,
    )
        ensures
            moment(final(self)@, shared@, model::views(final(effects)@)) == state_sent(
                moment(old(self)@, shared@, model::views(old(effects)@)),
                success,
            ),
    {
        broadcast use model::group_views;

        if success {
            if self.active.is_some() {
                effects.push(RuntimeEffect::RenewCapture);
            } else {
                effects.push(RuntimeEffect::CloseCapture);
            }
            let wanted: bool = self.ptt.microphone_overwrite_active();
            if wanted != self.mic {
                effects.push(RuntimeEffect::SetMicrophone(wanted));
            }
        } else {
            self.suppress_local_microphone(effects);
            self.dirty = true;
        }
    }

    /// Takes note that Mumble forces the microphone open, or no longer.
    pub fn microphone_set(&mut self, active: bool)
        ensures
            final(self)@ == (RuntimeView { mic: active, ..old(self)@ }),
    {
        self.mic = active;
    }

    /// Ends a tick.
    pub fn end_tick(&mut self, shared: &mut AdapterShared, effects: &mut Vec<RuntimeEffect>)
        ensures
            moment(final(self)@, final(shared)@, model::views(final(effects)@)) == finished(
                moment(old(self)@, old(shared)@, model::views(old(effects)@)),
            ),
    {
        broadcast use model::group_views;

        if shared.take_dropped_speaking_updates() > 0 {
            effects.push(RuntimeEffect::Announce(TOO_MANY_SPEAKERS));
        }
        let active: bool = self.connected && self.context.is_some();
        self.filter(shared, effects, active);
    }

    /// Resets everything for the last time. Native speech stays known, so that
    /// the peers can be told once more.
    pub fn shut_down(&mut self, shared: &mut AdapterShared, effects: &mut Vec<RuntimeEffect>)
        ensures
            moment(final(self)@, final(shared)@, model::views(final(effects)@)) == shut(
                moment(old(self)@, old(shared)@, model::views(old(effects)@)),
            ),
    {
        broadcast use model::group_views;

        let direct: Option<Transmission> = match &self.direct {
            Some(direct) => Some(direct.clone()),
            None => None,
        };
        self.reset(shared, effects);
        self.direct = direct;
    }

    /// The user's place.
    pub fn context(&self) -> (context: &Option<Context>)
        ensures
            model::optional(*context) == self@.context,
    {
        &self.context
    }

    /// Whether the game is connected.
    pub fn is_connected(&self) -> (connected: bool)
        ensures
            connected == self@.connected,
    {
        self.connected
    }
}

/// Whether nothing in the list opens the microphone: neither forces it open nor
/// grants it a permit.
pub open spec fn discreet(effects: Seq<EffectView>) -> bool {
    forall|i: int|
        0 <= i < effects.len() ==> #[trigger] effects[i] != EffectView::SetMicrophone(true)
            && effects[i] != EffectView::RenewCapture
}

/// What push-to-talk actions leave alone.
proof fn lemma_ptt_acted_all(x: MomentView, actions: Seq<PttActionView>)
    ensures
        ({
            let y = ptt_acted_all(x, actions);
            &&& y.runtime == (RuntimeView {
                active: y.runtime.active,
                dirty: y.runtime.dirty,
                ..x.runtime
            })
            &&& y.shared == (SharedView { control_replies: y.shared.control_replies, ..x.shared })
            &&& discreet(x.effects) ==> discreet(y.effects)
        }),
    decreases actions.len(),
{
    if actions.len() > 0 {
        lemma_ptt_acted_all(x, actions.drop_last());
    }
}

/// A reset leaves nothing behind: no peer, no transmission, no native speech,
/// no silencing by the game, push-to-talk at rest, and the audio unfiltered. It
/// begins a new generation, from whose first sequence number the peers follow.
pub proof fn law_resets_leave_nothing_behind(x: MomentView)
    ensures
        ({
            let r = reset(x).runtime;
            &&& r.peers == Map::<u32, RemoteView>::empty()
            &&& r.ptt == ptt::at_rest()
            &&& r.active is None
            &&& r.direct is None
            &&& !r.native_talking
            &&& !suppressed(r)
            &&& !r.filtering
            &&& r.generation == raised(x.runtime.generation)
            &&& r.sequence == 0
            &&& r.dirty
            &&& r.context == x.runtime.context
            &&& r.connected == x.runtime.connected
            &&& r.scope == x.runtime.scope
            &&& r.mic == x.runtime.mic
            &&& r.last_send == x.runtime.last_send
        }),
        discreet(x.effects) ==> discreet(reset(x).effects),
{
    reveal(reset);
    let step = ptt::reset_step(x.runtime.ptt);
    let y = doing(x, EffectView::CloseCapture);
    lemma_ptt_acted_all(being(y, RuntimeView { ptt: step.0, ..y.runtime }), step.1);
}

proof fn lemma_all_at_once(effects: Seq<EffectView>, actions: Seq<PeerActionView>)
    requires
        discreet(effects),
    ensures
        discreet(all_at_once(effects, actions)),
    decreases actions.len(),
{
    if actions.len() > 0 {
        lemma_all_at_once(effects, actions.drop_last());
    }
}

proof fn lemma_peers_acted(x: MomentView, actions: Seq<PeerActionView>)
    requires
        discreet(x.effects),
    ensures
        discreet(peers_acted(x, actions).effects),
{
    reveal(peers_acted);
    lemma_all_at_once(x.effects, actions);
    let heard = MomentView { effects: all_at_once(x.effects, actions), ..x };
    let (after, taken) = adapter::with_peer_actions(heard.shared, actions);
    law_resets_leave_nothing_behind(sharing(heard, after));
}

proof fn lemma_all_forgotten(x: MomentView, ids: Seq<u32>)
    requires
        discreet(x.effects),
    ensures
        discreet(all_forgotten(x, ids).effects),
    decreases ids.len(),
{
    if ids.len() > 0 {
        lemma_all_forgotten(x, ids.drop_last());
        let y = all_forgotten(x, ids.drop_last());
        let id = ids.last();
        lemma_peers_acted(
            being(y, RuntimeView { peers: y.runtime.peers.remove(id), ..y.runtime }),
            control::farewell(control::known_of(y.runtime.peers, id), id),
        );
    }
}

proof fn lemma_published(
    effects: Seq<EffectView>,
    updates: Seq<PlaneUpdateView>,
    audible: Map<u32, u64>,
)
    requires
        discreet(effects),
    ensures
        discreet(published(effects, updates, audible)),
    decreases updates.len(),
{
    if updates.len() > 0 {
        lemma_published(effects, updates.drop_last(), audible);
    }
}

proof fn lemma_ptt_stepped(x: MomentView, step: ptt::PttStep)
    requires
        discreet(x.effects),
    ensures
        discreet(ptt_stepped(x, step).effects),
{
    lemma_ptt_acted_all(being(x, RuntimeView { ptt: step.0, ..x.runtime }), step.1);
}

proof fn lemma_events_are_discreet(x: MomentView, event: EventView)
    requires
        discreet(x.effects),
    ensures
        discreet(event_handled(x, event).effects),
        discreet(direct_refreshed(x).effects),
{
    law_resets_leave_nothing_behind(x);
    match event {
        EventView::LocalTransmissionStarted(t) => {
            let y = direct_refreshed(x);
            lemma_ptt_stepped(y, ptt::acre_start(y.runtime.ptt, t));
        },
        EventView::LocalTransmissionStopped(t) => {
            let silent = doing(x, EffectView::ClearNative);
            lemma_ptt_stepped(silent, ptt::native_stop(x.runtime.ptt));
            let y = if ptt::is_the(x.runtime.ptt.active_acre, t) {
                ptt_stepped(silent, ptt::native_stop(x.runtime.ptt))
            } else {
                x
            };
            lemma_ptt_stepped(y, ptt::acre_stop(y.runtime.ptt, t));
        },
        _ => {},
    }
}

proof fn lemma_ticks_are_discreet(
    x: MomentView,
    context: Option<ContextView>,
    overflowed: bool,
)
    requires
        discreet(x.effects),
    ensures
        discreet(ticked(x, context, overflowed).effects),
{
    let muted = if x.runtime.mic && (suppressed(x.runtime)
        || !x.runtime.ptt.microphone_overwrite) {
        doing(x, EffectView::SetMicrophone(false))
    } else {
        x
    };
    law_resets_leave_nothing_behind(muted);
    let located = relocated(muted, context);
    assert(discreet(located.effects));
    if located.runtime.context is Some {
        lemma_all_forgotten(
            located,
            departed(located.runtime, located.runtime.context->0.users),
        );
    }
    law_resets_leave_nothing_behind(without_departed(located));
}

proof fn lemma_peers_are_heard_discreetly(
    x: MomentView,
    connection: i32,
    sender: u32,
    state: Option<StateView>,
    now: u64,
)
    requires
        discreet(x.effects),
    ensures
        discreet(peer_heard(x, connection, sender, state, now).effects),
{
    if state is Some {
        let (peers, answer) = control::received(
            x.runtime.peers,
            sender,
            x.runtime.scope,
            state->0,
            now,
        );
        if answer is Ok {
            lemma_peers_acted(being(x, RuntimeView { peers, ..x.runtime }), answer->Ok_0);
        }
    }
}

proof fn lemma_follow_ups_are_discreet(x: MomentView, native: bool, now: u64)
    requires
        discreet(x.effects),
    ensures
        discreet(followed_up(x, native, now).effects),
{
    let talking = !suppressed(x.runtime) && native;
    let heard = being(x, RuntimeView { native_talking: talking, ..x.runtime });
    if heard.runtime.direct is Some {
        lemma_ptt_stepped(heard, ptt::direct_start(heard.runtime.ptt, heard.runtime.direct->0));
        lemma_ptt_stepped(heard, ptt::native_stop(heard.runtime.ptt));
    }
    let spoken = spoken_natively(heard);
    assert(discreet(spoken.effects));
    let before = spoken.runtime.peers;
    lemma_peers_acted(
        being(
            spoken,
            RuntimeView { peers: control::all_after_expiry(before, now), ..spoken.runtime },
        ),
        control::expiry_stops(before, order::ascending(before.dom()), now),
    );
}

proof fn lemma_all_events_are_discreet(x: MomentView, events: Seq<EventView>)
    requires
        discreet(x.effects),
    ensures
        discreet(events_handled(x, events).effects),
    decreases events.len(),
{
    if events.len() > 0 {
        lemma_all_events_are_discreet(x, events.drop_last());
        lemma_events_are_discreet(events_handled(x, events.drop_last()), events.last());
    }
}

proof fn lemma_packets_are_heard_discreetly(
    x: MomentView,
    packets: Seq<PacketView>,
    now: u64,
)
    requires
        discreet(x.effects),
    ensures
        discreet(packets_heard(x, packets, now).effects),
    decreases packets.len(),
{
    if packets.len() > 0 {
        lemma_packets_are_heard_discreetly(x, packets.drop_last(), now);
        let packet = packets.last();
        lemma_peers_are_heard_discreetly(
            packets_heard(x, packets.drop_last(), now),
            packet.connection,
            packet.sender,
            packet.state,
            now,
        );
    }
}

proof fn lemma_intake_is_discreet(
    x: MomentView,
    context: Option<ContextView>,
    overflowed: bool,
    packets: Seq<PacketView>,
    now: u64,
)
    requires
        discreet(x.effects),
    ensures
        discreet(taken_in(x, context, overflowed, packets, now).effects),
{
    let begun = ticked(x, context, overflowed);
    lemma_ticks_are_discreet(x, context, overflowed);
    lemma_published(
        begun.effects,
        adapter::waiting_updates(begun.shared),
        control::audible_of(begun.runtime.peers, now),
    );
    let y = audio_updated(begun, now);
    let undrained = sharing(y, SharedView { events: Seq::empty(), ..y.shared });
    lemma_all_events_are_discreet(undrained, y.shared.events);
    let told = events_handled(undrained, y.shared.events);
    law_resets_leave_nothing_behind(told);
    law_resets_leave_nothing_behind(direct_refreshed(told));
    lemma_packets_are_heard_discreetly(checked(told, now), packets, now);
}

/// The microphone is let through only once the peers were sent the state that
/// it belongs to: no other step opens it, and neither does a failed attempt.
pub proof fn law_only_a_sent_state_opens_the_microphone(
    x: MomentView,
    context: Option<ContextView>,
    overflowed: bool,
    event: EventView,
    connection: i32,
    sender: u32,
    state: Option<StateView>,
    packets: Seq<PacketView>,
    native: bool,
    now: u64,
)
    requires
        discreet(x.effects),
    ensures
        discreet(taken_in(x, context, overflowed, packets, now).effects),
        discreet(event_handled(x, event).effects),
        discreet(peer_heard(x, connection, sender, state, now).effects),
        discreet(concluded(x, native, now).0.effects),
        discreet(state_prepared(x).0.effects),
        discreet(state_sent(x, false).effects),
        discreet(finished(x).effects),
        discreet(reset(x).effects),
{
    law_resets_leave_nothing_behind(x);
    lemma_events_are_discreet(x, event);
    lemma_intake_is_discreet(x, context, overflowed, packets, now);
    lemma_peers_are_heard_discreetly(x, connection, sender, state, now);
    lemma_follow_ups_are_discreet(x, native, now);
}

/// A state that was sent grants the microphone's permit exactly while something
/// is being transmitted, and forces it open exactly while ACRE transmits.
pub proof fn law_a_sent_state_sets_the_microphone(x: MomentView)
    ensures
        ({
            let added = state_sent(x, true).effects.skip(x.effects.len() as int);
            &&& added.len() > 0
            &&& added[0] == if x.runtime.active is Some {
                EffectView::RenewCapture
            } else {
                EffectView::CloseCapture
            }
            &&& if x.runtime.ptt.microphone_overwrite == x.runtime.mic {
                added.len() == 1
            } else {
                added.len() == 2 && added[1] == EffectView::SetMicrophone(
                    x.runtime.ptt.microphone_overwrite,
                )
            }
        }),
{
}

/// While the game silences the local voice, no state is sent and the
/// microphone is closed.
pub proof fn law_silenced_voices_are_not_sent(x: MomentView)
    requires
        suppressed(x.runtime),
    ensures
        state_prepared(x).1 is None,
        x.runtime.context is Some && x.runtime.direct is Some && x.runtime.connected
            ==> state_prepared(x).0.effects == x.effects.push(EffectView::CloseCapture).push(
            EffectView::SetMicrophone(false),
        ),
{
}

/// Messages from another connection, from outside the channel, or without a
/// connected game change nothing.
pub proof fn law_outsiders_are_not_heard(
    x: MomentView,
    connection: i32,
    sender: u32,
    state: Option<StateView>,
    now: u64,
)
    requires
        !admissible(x.runtime, connection, sender),
    ensures
        peer_heard(x, connection, sender, state, now) == x,
{
}

/// Privileged modes never reach the peers: their start leaves push-to-talk
/// alone.
pub proof fn law_privileged_modes_are_not_announced(x: MomentView, t: TransmissionView)
    requires
        t.speaking_kind == SpeakingKind::God || t.speaking_kind == SpeakingKind::Zeus,
    ensures
        event_handled(x, EventView::LocalTransmissionStarted(t)) == direct_refreshed(x),
{
}

/// At the end of every tick the audio is filtered exactly while the game is
/// connected and Mumble is synchronized.
pub proof fn law_the_filter_follows_the_connection(x: MomentView)
    ensures
        ({
            let r = finished(x).runtime;
            r.filtering <==> r.connected && r.context is Some
        }),
{
}

/// Another server, channel, connection or user drops the game's connection and
/// everything known of the peers.
pub proof fn law_another_place_starts_over(x: MomentView, context: Option<ContextView>)
    requires
        !context::same_place(x.runtime.context, context),
    ensures
        ({
            let y = relocated(x, context);
            &&& !y.runtime.connected
            &&& y.runtime.peers == Map::<u32, RemoteView>::empty()
            &&& y.runtime.active is None
            &&& y.shared.reset
            &&& y.shared.direct is None
            &&& y.runtime.context == context
        }),
{
    law_resets_leave_nothing_behind(x);
}

/// A decision for a speaker who may not be heard never reaches the audio
/// plane.
pub proof fn law_unheard_speakers_are_not_published(
    updates: Seq<PlaneUpdateView>,
    audible: Map<u32, u64>,
)
    ensures
        forall|i: int|
            0 <= i < published(Seq::empty(), updates, audible).len() ==> match (
            #[trigger] published(Seq::empty(), updates, audible)[i]) {
                EffectView::Publish(PlaneUpdateView::Speaker(update)) => audible.contains_key(
                    update.speaking.speaker_id,
                ),
                EffectView::Publish(PlaneUpdateView::Listener(_)) => true,
                _ => false,
            },
    decreases updates.len(),
{
    if updates.len() > 0 {
        law_unheard_speakers_are_not_published(updates.drop_last(), audible);
    }
}

/// A lost message is noticed, and the tick that notices it asks the worker to
/// start over.
pub proof fn law_lost_messages_start_over(
    q: QueueView,
    input: InputView,
    x: MomentView,
    context: Option<ContextView>,
)
    requires
        q.inputs.len() >= MAX_QUEUED_INPUTS,
    ensures
        enqueued(q, input).overflow,
        ticked(x, context, true).shared.reset,
        ticked(x, context, true).runtime.peers == Map::<u32, RemoteView>::empty(),
{
    let muted = if x.runtime.mic && (suppressed(x.runtime)
        || !x.runtime.ptt.microphone_overwrite) {
        doing(x, EffectView::SetMicrophone(false))
    } else {
        x
    };
    law_resets_leave_nothing_behind(without_departed(relocated(muted, context)));
}

} // verus!
