//! What the control plane does in a tick, by what can be observed of it.

use crate::adapter::{self, EventView, SharedView};
use crate::audio_snapshot::PlaneUpdateView;
use crate::context::{self, ContextView};
use crate::control::{self, StateView};
use crate::control_laws::{announces, law_local_states_are_announced_as_they_are};
use crate::decimal;
use crate::order;
use crate::peer::HeaderView;
use crate::peer_state::PeerActionView;
use crate::ptt::{self, PttActionView};
use crate::runtime::{
    self, all_at_once, at_once, checked, departed, direct_refreshed, due, enqueued, event_handled,
    filtered, finished, followed_up, metadata_of, peer_heard, peers_acted, ptt_acted, ptt_acted_all,
    ptt_stepped, published, relocated, reset, restarted, sending_state, shut, spoken_natively,
    state_prepared, state_sent, step_for_data, suppressed, EffectView, InputView, MomentView,
    QueueView, RuntimeView,
};
use crate::speaking::{AudioUpdateView, DecisionView, UpdateView};
use crate::transmission::{SpeakingKind, TransmissionView};
use vstd::prelude::*;
use vstd::utf8::encode_utf8;

verus! {

/// Data is ours exactly under our name, and taken if it has between 1 and 1024
/// bytes.
pub proof fn law_data_is_taken_under_its_name(id: Seq<u8>, length: int)
    requires
        length >= 0,
    ensures
        step_for_data(id, length) is Foreign <==> id != encode_utf8("MumbleACRE:STATE:1"@),
        step_for_data(id, length) is Taken <==> id == encode_utf8("MumbleACRE:STATE:1"@) && 1
            <= length <= 1024,
{
}

/// Messages wait in their order, up to 256; one more is lost, and noticed.
pub proof fn law_messages_wait_in_order(q: QueueView, input: InputView)
    ensures
        q.inputs.len() < 256 ==> enqueued(q, input) == (QueueView {
            inputs: q.inputs.push(input),
            overflow: q.overflow,
        }),
        q.inputs.len() >= 256 ==> enqueued(q, input) == (QueueView {
            inputs: q.inputs,
            overflow: true,
        }),
{
}

/// A start makes the transmission the active one, a stop leaves none, and both
/// close the microphone's permit first and want the state sent. The microphone
/// is released at once and opened by neither.
pub proof fn law_push_to_talk_sets_what_is_active(x: MomentView, t: TransmissionView)
    ensures
        ({
            let y = ptt_acted(x, PttActionView::PeerStarted(t));
            &&& y.runtime == (RuntimeView { active: Some(t), dirty: true, ..x.runtime })
            &&& y.effects == x.effects.push(EffectView::CloseCapture)
            &&& t.speaking_kind != SpeakingKind::Direct ==> y.shared == x.shared
            &&& t.speaking_kind == SpeakingKind::Direct ==> y.shared == told_natively(
                x.shared,
                t,
                true,
            )
        }),
        ({
            let y = ptt_acted(x, PttActionView::PeerStopped(t));
            &&& y.runtime == (RuntimeView { active: None, dirty: true, ..x.runtime })
            &&& y.effects == x.effects.push(EffectView::CloseCapture)
            &&& t.speaking_kind != SpeakingKind::Direct ==> y.shared == x.shared
            &&& t.speaking_kind == SpeakingKind::Direct ==> y.shared == told_natively(
                x.shared,
                t,
                false,
            )
        }),
        ptt_acted(x, PttActionView::SetMicrophoneActivationOverwrite(true)) == x,
        ptt_acted(x, PttActionView::SetMicrophoneActivationOverwrite(false)) == (MomentView {
            effects: x.effects.push(EffectView::SetMicrophone(false)),
            ..x
        }),
{
}

/// What is shared once the game is told of native speech, if there is room.
pub open spec fn told_natively(s: SharedView, t: TransmissionView, started: bool) -> SharedView {
    match adapter::direct_notice(t, started) {
        Ok(message) => if s.control_replies.len() < 256 {
            SharedView { control_replies: s.control_replies.push(message), ..s }
        } else {
            s
        },
        Err(_) => s,
    }
}

proof fn lemma_active_follows(x: MomentView, actions: Seq<PttActionView>)
    requires
        ptt::followed(x.runtime.active, actions) is Some,
    ensures
        ptt_acted_all(x, actions).runtime.active == ptt::followed(
            x.runtime.active,
            actions,
        )->0,
        ptt_acted_all(x, actions).runtime.ptt == x.runtime.ptt,
    decreases actions.len(),
{
    if actions.len() > 0 {
        lemma_active_follows(x, actions.drop_last());
    }
}

/// Whether what is active is what push-to-talk announces.
pub open spec fn in_step(r: RuntimeView) -> bool {
    ptt::settled(r.ptt) && r.active == ptt::announced(r.ptt)
}

/// What the peers are sent is always what push-to-talk announces: every step of
/// push-to-talk, every start and stop, native speech and every reset keep the
/// two in step.
pub proof fn law_the_active_transmission_is_the_announced_one(x: MomentView, t: TransmissionView)
    requires
        in_step(x.runtime),
    ensures
        in_step(ptt_stepped(x, ptt::acre_start(x.runtime.ptt, t)).runtime),
        in_step(ptt_stepped(x, ptt::acre_stop(x.runtime.ptt, t)).runtime),
        in_step(ptt_stepped(x, ptt::direct_start(x.runtime.ptt, t)).runtime),
        in_step(ptt_stepped(x, ptt::native_stop(x.runtime.ptt)).runtime),
        in_step(spoken_natively(x).runtime),
        in_step(reset(x).runtime),
{
    ptt::law_peers_follow_the_machine(x.runtime.ptt, t);
    ptt::law_every_event_keeps_the_machine_settled(x.runtime.ptt, t);
    lemma_stepped(x, ptt::acre_start(x.runtime.ptt, t));
    lemma_stepped(x, ptt::acre_stop(x.runtime.ptt, t));
    lemma_stepped(x, ptt::direct_start(x.runtime.ptt, t));
    lemma_stepped(x, ptt::native_stop(x.runtime.ptt));
    if x.runtime.direct is Some {
        let direct = x.runtime.direct->0;
        ptt::law_peers_follow_the_machine(x.runtime.ptt, direct);
        ptt::law_every_event_keeps_the_machine_settled(x.runtime.ptt, direct);
        lemma_stepped(x, ptt::direct_start(x.runtime.ptt, direct));
    }
    runtime::law_resets_leave_nothing_behind(x);
}

proof fn lemma_stepped(x: MomentView, step: ptt::PttStep)
    requires
        x.runtime.active == ptt::announced(x.runtime.ptt),
        ptt::followed(ptt::announced(x.runtime.ptt), step.1) == Some(ptt::announced(step.0)),
        ptt::settled(step.0),
    ensures
        in_step(ptt_stepped(x, step).runtime),
        ptt_stepped(x, step).runtime.ptt == step.0,
{
    lemma_active_follows(
        runtime::being(x, RuntimeView { ptt: step.0, ..x.runtime }),
        step.1,
    );
}

/// A radio or intercom transmission of the local user is the active one as soon
/// as the worker tells of its start; one of another user, or in another mode,
/// is not.
pub proof fn law_local_transmissions_become_active(x: MomentView, t: TransmissionView)
    requires
        in_step(x.runtime),
    ensures
        ({
            let before = direct_refreshed(x);
            let y = event_handled(x, EventView::LocalTransmissionStarted(t));
            let own = before.runtime.context is Some && before.runtime.context->0.local
                == t.voice_client_id;
            let fit = t.speaking_kind == SpeakingKind::Radio && t.radio_id.len() > 0
                || t.speaking_kind == SpeakingKind::Intercom && t.radio_id.len() == 0;
            &&& own && fit ==> {
                &&& y.runtime.active is Some
                &&& crate::session_laws::agree(y.runtime.active->0, t)
                &&& y.runtime.ptt.microphone_overwrite
            }
            &&& !own || !fit ==> y == before
        }),
{
    runtime::law_resets_leave_nothing_behind(x);
    let before = direct_refreshed(x);
    assert(in_step(before.runtime));
    ptt::law_peers_follow_the_machine(before.runtime.ptt, t);
    ptt::law_every_event_keeps_the_machine_settled(before.runtime.ptt, t);
    lemma_stepped(before, ptt::acre_start(before.runtime.ptt, t));
}

/// Once the worker tells of the end of the transmission that is active, nothing
/// is active, not even the speech that it interrupted, and the microphone is
/// released. The end of any other transmission changes nothing.
pub proof fn law_local_transmissions_end(x: MomentView, t: TransmissionView)
    requires
        in_step(x.runtime),
    ensures
        ({
            let y = event_handled(x, EventView::LocalTransmissionStopped(t));
            let held = x.runtime.ptt.active_acre;
            &&& held is Some && crate::session_laws::agree(held->0, t) ==> {
                &&& y.runtime.active is None
                &&& y.runtime.ptt == ptt::at_rest()
                &&& y.effects.contains(EffectView::ClearNative)
            }
            &&& !(held is Some && crate::session_laws::agree(held->0, t)) ==> y.runtime
                == x.runtime && y.effects == x.effects
        }),
{
    let held = x.runtime.ptt.active_acre;
    let own = ptt::is_the(held, t);
    let cleared = runtime::doing(x, EffectView::ClearNative);
    if own {
        ptt::law_peers_follow_the_machine(x.runtime.ptt, t);
        ptt::law_every_event_keeps_the_machine_settled(x.runtime.ptt, t);
        lemma_stepped(cleared, ptt::native_stop(x.runtime.ptt));
        let y = ptt_stepped(cleared, ptt::native_stop(x.runtime.ptt));
        ptt::law_peers_follow_the_machine(y.runtime.ptt, t);
        ptt::law_every_event_keeps_the_machine_settled(y.runtime.ptt, t);
        lemma_stepped(y, ptt::acre_stop(y.runtime.ptt, t));
        assert(y.runtime.ptt.suspended_direct is None);
        let z = ptt_stepped(y, ptt::acre_stop(y.runtime.ptt, t));
        assert(z.runtime.ptt == ptt::at_rest());
        assert(cleared.effects[x.effects.len() as int] == EffectView::ClearNative);
        lemma_effects_grow(
            runtime::being(
                cleared,
                RuntimeView { ptt: ptt::native_stop(x.runtime.ptt).0, ..x.runtime },
            ),
            ptt::native_stop(x.runtime.ptt).1,
        );
        lemma_effects_grow(
            runtime::being(
                y,
                RuntimeView { ptt: ptt::acre_stop(y.runtime.ptt, t).0, ..y.runtime },
            ),
            ptt::acre_stop(y.runtime.ptt, t).1,
        );
        assert(z.effects[x.effects.len() as int] == EffectView::ClearNative);
    } else {
        assert(ptt::acre_stop(x.runtime.ptt, t) == (
            x.runtime.ptt,
            Seq::<PttActionView>::empty(),
        ));
    }
}

proof fn lemma_effects_grow(x: MomentView, actions: Seq<PttActionView>)
    ensures
        ({
            let y = ptt_acted_all(x, actions);
            &&& y.effects.len() >= x.effects.len()
            &&& forall|i: int|
                0 <= i < x.effects.len() ==> #[trigger] y.effects[i] == x.effects[i]
        }),
    decreases actions.len(),
{
    if actions.len() > 0 {
        lemma_effects_grow(x, actions.drop_last());
    }
}

/// Every other event of the worker has its own effect: the game's connection is
/// announced, its overrides silence the microphone, its mutes are asked for on
/// the user's connection, and a sound is played if it is of the game's present
/// state.
pub proof fn law_events_have_their_own_effect(
    x: MomentView,
    enabled: bool,
    id: u32,
    generation: u64,
    name: Seq<char>,
    file: Seq<char>,
)
    ensures
        ({
            let y = event_handled(x, EventView::PipeConnected);
            &&& y.runtime == (RuntimeView { connected: true, ..x.runtime })
            &&& y.shared == x.shared
            &&& y.effects.len() == x.effects.len() + 1
            &&& y.effects.last() is Announce
        }),
        ({
            let y = event_handled(x, EventView::SoundSystemOverrideChanged(enabled));
            let told = x.effects.push(EffectView::OverrideSoundSystem(enabled));
            &&& y.runtime == (RuntimeView {
                sound_system_override: enabled,
                dirty: true,
                ..x.runtime
            })
            &&& y.shared == x.shared
            &&& y.effects == if enabled {
                told.push(EffectView::CloseCapture).push(EffectView::SetMicrophone(false))
            } else {
                told
            }
        }),
        ({
            let y = event_handled(x, EventView::LocalMuteChanged(enabled));
            &&& y.runtime == (RuntimeView { locally_muted: enabled, dirty: true, ..x.runtime })
            &&& y.shared == x.shared
            &&& y.effects == if enabled {
                x.effects.push(EffectView::CloseCapture).push(EffectView::SetMicrophone(false))
            } else {
                x.effects
            }
        }),
        ({
            let y = event_handled(
                x,
                EventView::UserMuteChanged { voice_client_id: id, muted: enabled },
            );
            &&& y.runtime == x.runtime && y.shared == x.shared
            &&& y.effects == match x.runtime.context {
                Some(c) => x.effects.push(
                    EffectView::RequestLocalMute {
                        connection: c.connection,
                        voice_client_id: id,
                        muted: enabled,
                    },
                ),
                None => x.effects,
            }
        }),
        ({
            let y = event_handled(x, EventView::SoundPlaybackReady { generation, id: name, file });
            &&& y.runtime == x.runtime && y.shared == x.shared
            &&& y.effects == if generation == x.shared.sound_generation {
                x.effects.push(EffectView::Play { id: name, file })
            } else {
                x.effects
            }
        }),
        event_handled(x, EventView::RejectedMessage(name)) == x,
        event_handled(x, EventView::PipeError(name)) == x,
{
}

/// A lost pipe, a reset by the game and lost events all reset the control
/// plane; the first and the last drop the connection, and lost events make the
/// worker start over.
pub proof fn law_losses_reset_the_control_plane(x: MomentView)
    ensures
        event_handled(x, EventView::PipeDisconnected).runtime == (RuntimeView {
            connected: false,
            ..reset(x).runtime
        }),
        event_handled(x, EventView::PipeDisconnected).shared == reset(x).shared,
        event_handled(x, EventView::PipeDisconnected).effects == reset(x).effects,
        event_handled(x, EventView::ResetRequested) == reset(x),
        event_handled(x, EventView::QueueOverflow).runtime == (RuntimeView {
            connected: false,
            ..reset(x).runtime
        }),
        event_handled(x, EventView::QueueOverflow).effects == reset(x).effects,
        event_handled(x, EventView::QueueOverflow).shared == (SharedView {
            direct: None,
            reset: true,
            ..reset(x).shared
        }),
{
}

/// A reset closes the permit before anything else, and then clears what was
/// heard natively, ends the override, releases the microphone, and takes all
/// decisions and all peers from the audio plane.
pub proof fn law_resets_silence_everything(x: MomentView)
    ensures
        ({
            let y = reset(x);
            let before = x.effects.len() as int;
            &&& y.effects.len() > before
            &&& forall|i: int| 0 <= i < before ==> #[trigger] y.effects[i] == x.effects[i]
            &&& y.effects[before] == EffectView::CloseCapture
            &&& y.effects.contains(EffectView::ClearNative)
            &&& y.effects.contains(EffectView::OverrideSoundSystem(false))
            &&& y.effects.contains(EffectView::SetMicrophone(false))
            &&& y.effects.contains(EffectView::ResetDecisions)
            &&& y.effects.contains(EffectView::PublishPeers(Map::empty()))
            &&& x.runtime.filtering ==> y.effects.contains(EffectView::FilterAudio(false))
            &&& y.runtime.scope == x.runtime.scope
            &&& y.runtime.connected == x.runtime.connected
            &&& y.runtime.mic == x.runtime.mic
            &&& y.runtime.last_send == x.runtime.last_send
            &&& x.runtime.generation < u64::MAX ==> y.runtime.generation == x.runtime.generation
                + 1
        }),
{
    reveal(reset);
    let closed = runtime::doing(x, EffectView::CloseCapture);
    let step = ptt::reset_step(x.runtime.ptt);
    let started = runtime::being(closed, RuntimeView { ptt: step.0, ..x.runtime });
    lemma_effects_grow(started, step.1);
    lemma_ptt_keeps(started, step.1);
    let hushed = ptt_stepped(closed, step);
    let n = hushed.effects.len() as int;
    let y = reset(x);
    assert(hushed.effects[x.effects.len() as int] == closed.effects[x.effects.len() as int]);
    assert(y.effects[n] == EffectView::ClearNative);
    assert(y.effects[n + 1] == EffectView::OverrideSoundSystem(false));
    assert(y.effects[n + 2] == EffectView::SetMicrophone(false));
    assert(y.effects[n + 3] == EffectView::ResetDecisions);
    assert(y.effects[n + 4] == EffectView::PublishPeers(Map::empty()));
    if x.runtime.filtering {
        assert(y.effects[n + 5] == EffectView::FilterAudio(false));
    }
    assert forall|i: int| 0 <= i < x.effects.len() implies #[trigger] y.effects[i]
        == x.effects[i] by {
        assert(hushed.effects[i] == closed.effects[i]);
    }
}

proof fn lemma_ptt_keeps(x: MomentView, actions: Seq<PttActionView>)
    ensures
        ({
            let y = ptt_acted_all(x, actions);
            &&& y.runtime == (RuntimeView {
                active: y.runtime.active,
                dirty: y.runtime.dirty,
                ..x.runtime
            })
            &&& y.shared == (SharedView { control_replies: y.shared.control_replies, ..x.shared })
        }),
    decreases actions.len(),
{
    if actions.len() > 0 {
        lemma_ptt_keeps(x, actions.drop_last());
    }
}

/// A reset bids every peer farewell: the worker is offered the end of every
/// peer's transmission and of the peer, in ascending order, and if it has no
/// room for them it starts over.
pub proof fn law_resets_bid_every_peer_farewell(x: MomentView)
    ensures
        ({
            let told = control::farewells(
                x.runtime.peers,
                order::ascending(x.runtime.peers.dom()),
            );
            let y = reset(x);
            if x.shared.peer_actions.len() + told.len() <= 256 || told.len() == 0 {
                &&& y.shared.peer_actions == x.shared.peer_actions + told
                &&& y.shared.reset == x.shared.reset
                &&& y.shared.direct == x.shared.direct
            } else {
                &&& y.shared.peer_actions == x.shared.peer_actions
                &&& y.shared.reset
                &&& y.shared.direct is None
            }
        }),
{
    reveal(reset);
    let closed = runtime::doing(x, EffectView::CloseCapture);
    let step = ptt::reset_step(x.runtime.ptt);
    lemma_ptt_keeps(runtime::being(closed, RuntimeView { ptt: step.0, ..x.runtime }), step.1);
}

/// At the end everything is reset, but native speech stays known.
pub proof fn law_the_last_reset_keeps_native_speech(x: MomentView)
    ensures
        shut(x).effects == reset(x).effects,
        shut(x).shared == reset(x).shared,
        shut(x).runtime == (RuntimeView { direct: x.runtime.direct, ..reset(x).runtime }),
{
}

/// Native speech is what the worker last learnt of it, while the game is
/// connected. Another player resets the control plane, and nothing else does.
pub proof fn law_native_speech_is_what_the_worker_learnt(x: MomentView)
    ensures
        ({
            let y = direct_refreshed(x);
            let next = if x.runtime.connected {
                x.shared.direct
            } else {
                None
            };
            let same = match (x.runtime.direct, next) {
                (Some(a), Some(b)) => a.net_id == b.net_id,
                (None, None) => true,
                _ => false,
            };
            &&& y.runtime.direct == next
            &&& same ==> y == (MomentView {
                runtime: RuntimeView { direct: next, ..x.runtime },
                ..x
            })
            &&& !same ==> y == (MomentView {
                runtime: RuntimeView { direct: next, ..reset(x).runtime },
                ..reset(x)
            })
        }),
{
}

/// A game that is connected and was not heard of for five seconds is given up,
/// and that is announced; any other game is not.
pub proof fn law_silent_games_are_given_up(x: MomentView, now: u64)
    ensures
        ({
            let y = direct_refreshed(x);
            let silent = y.runtime.connected && now - y.shared.last_activity >= 5_000_000_000;
            &&& !silent ==> checked(x, now) == y
            &&& silent ==> {
                let z = checked(x, now);
                &&& z.runtime == restarted(y).runtime
                &&& z.shared == restarted(y).shared
                &&& !z.runtime.connected
                &&& z.shared.reset
                &&& z.effects.len() == restarted(y).effects.len() + 1
                &&& z.effects.last() is Announce
            }
        }),
{
}

/// The worker is told the user's session ID and what the game may ask of the
/// place: the server as UID, the channel's name and number. Without a place it
/// is told neither.
pub proof fn law_the_worker_is_told_the_place(x: MomentView, context: Option<ContextView>)
    ensures
        ({
            let y = relocated(x, context);
            &&& y.runtime.context == context
            &&& y.shared.local_voice_client_id == match context {
                Some(c) => c.local,
                None => 0,
            }
            &&& y.shared.voip_metadata == match context {
                Some(c) => metadata_of(c),
                None => None,
            }
            &&& context::same_place(x.runtime.context, context) ==> y.runtime == (RuntimeView {
                context,
                ..x.runtime
            }) && y.effects == x.effects
        }),
        forall|c: ContextView| #[trigger]
            metadata_of(c) matches Some(told) ==> {
                &&& told.server_name == "Mumble"@
                &&& told.server_uid == context::plain_text(c.server)
                &&& told.channel_name == context::plain_text(c.name)
                &&& told.channel_uid == decimal::signed_decimal(c.channel as int)
            },
{
}

/// The peers who have left are those known who are not among the users.
pub proof fn law_departed_peers_are_not_among_the_users(r: RuntimeView, users: Seq<u32>, id: u32)
    ensures
        departed(r, users).contains(id) <==> r.peers.contains_key(id) && !users.contains(id),
{
    let all = order::ascending(r.peers.dom());
    order::lemma_ascending(r.peers.dom());
    assert(all.to_set().contains(id) <==> all.contains(id));
    lemma_filtered(all, users, id);
}

proof fn lemma_filtered(all: Seq<u32>, users: Seq<u32>, id: u32)
    ensures
        all.filter(|id: u32| !users.contains(id)).contains(id) <==> all.contains(id)
            && !users.contains(id),
    decreases all.len(),
{
    reveal(Seq::filter);
    let pred = |id: u32| !users.contains(id);
    if all.len() > 0 {
        let head = all.drop_last();
        let kept = all.filter(pred);
        let earlier = head.filter(pred);
        lemma_filtered(head, users, id);
        assert(all[all.len() - 1] == all.last());
        if all.contains(id) && all.last() != id {
            let k = choose|k: int| 0 <= k < all.len() && all[k] == id;
            assert(head[k] == id);
        }
        if head.contains(id) {
            let k = choose|k: int| 0 <= k < head.len() && head[k] == id;
            assert(all[k] == id);
        }
        if earlier.contains(id) {
            let k = choose|k: int| 0 <= k < earlier.len() && earlier[k] == id;
            assert(kept[k] == id);
        }
        if kept.contains(id) {
            let k = choose|k: int| 0 <= k < kept.len() && kept[k] == id;
            if k < earlier.len() {
                assert(earlier[k] == id);
            }
        }
        if pred(all.last()) {
            assert(kept[kept.len() - 1] == all.last());
        }
    }
}

/// Before ACRE decides anew, a peer who starts or stops is silent, and one who
/// is gone is removed; an identity changes nothing of what is heard.
pub proof fn law_changed_peers_are_silent_at_once(
    effects: Seq<EffectView>,
    t: TransmissionView,
    id: u32,
    net_id: Seq<char>,
)
    ensures
        at_once(effects, PeerActionView::TransmissionStarted(t)) == effects.push(
            silencing(t.voice_client_id),
        ),
        at_once(effects, PeerActionView::TransmissionStopped(t)) == effects.push(
            silencing(t.voice_client_id),
        ),
        at_once(effects, PeerActionView::Reset { voice_client_id: id }) == effects.push(
            EffectView::RemoveSpeaker(id),
        ),
        at_once(effects, PeerActionView::Identity { voice_client_id: id, net_id }) == effects,
{
}

/// The update that silences a speaker.
pub open spec fn silencing(id: u32) -> EffectView {
    EffectView::Publish(
        PlaneUpdateView::Speaker(
            AudioUpdateView {
                speaking: UpdateView {
                    speaker_id: id,
                    speaks_babel: false,
                    decision: DecisionView::Mute,
                },
                curve_scale: 0x3f80_0000,
            },
        ),
    )
}

/// Changes of peers are passed on to the worker in their order, together with
/// what they mean for the audio at once. If the worker has no room for them,
/// everything is reset and the worker starts over.
pub proof fn law_peer_changes_are_passed_on(x: MomentView, actions: Seq<PeerActionView>)
    ensures
        ({
            let y = peers_acted(x, actions);
            let effects = all_at_once(x.effects, actions);
            let room = actions.len() == 0 || x.shared.peer_actions.len() + actions.len() <= 256;
            &&& room ==> y == (MomentView {
                runtime: x.runtime,
                shared: SharedView {
                    peer_actions: x.shared.peer_actions + actions,
                    ..x.shared
                },
                effects,
            })
            &&& !room ==> {
                &&& y.runtime == reset(MomentView { effects, ..x }).runtime
                &&& y.shared.reset
                &&& y.shared.direct is None
                &&& y.effects.last() is Announce
            }
        }),
{
    reveal(peers_acted);
}

/// A state of a peer counts exactly if the game is connected and has named its
/// player, and the peer is in the user's channel on the user's connection. It
/// is then taken in under the control plane's own scope.
pub proof fn law_peers_are_heard_in_the_channel(
    x: MomentView,
    connection: i32,
    sender: u32,
    state: StateView,
    now: u64,
)
    ensures
        ({
            let y = peer_heard(x, connection, sender, Some(state), now);
            let inside = x.runtime.connected && x.runtime.direct is Some && x.runtime.context is Some
                && x.runtime.context->0.connection == connection
                && x.runtime.context->0.users.contains(sender);
            let (peers, answer) = control::received(
                x.runtime.peers,
                sender,
                x.runtime.scope,
                state,
                now,
            );
            let known = MomentView { runtime: RuntimeView { peers, ..x.runtime }, ..x };
            &&& !inside ==> y == x
            &&& inside && answer is Ok ==> y == peers_acted(known, answer->Ok_0)
            &&& inside && answer is Err ==> y == known
            &&& peer_heard(x, connection, sender, None, now) == x
        }),
{
}

/// Every update of the listener is published, and every update of a speaker who
/// may be heard.
pub proof fn law_audible_speakers_are_published(
    effects: Seq<EffectView>,
    updates: Seq<PlaneUpdateView>,
    audible: Map<u32, u64>,
    i: int,
)
    requires
        0 <= i < updates.len(),
        updates[i] matches PlaneUpdateView::Speaker(update) ==> audible.contains_key(
            update.speaking.speaker_id,
        ),
    ensures
        published(effects, updates, audible).contains(EffectView::Publish(updates[i])),
    decreases updates.len(),
{
    let all = published(effects, updates, audible);
    let before = published(effects, updates.drop_last(), audible);
    if i < updates.len() - 1 {
        assert(updates.drop_last()[i] == updates[i]);
        law_audible_speakers_are_published(effects, updates.drop_last(), audible, i);
        let k = choose|k: int|
            0 <= k < before.len() && before[k] == EffectView::Publish(updates[i]);
        assert(all[k] == EffectView::Publish(updates[i]));
    } else {
        assert(all[all.len() - 1] == EffectView::Publish(updates[i]));
    }
}

/// A user talks natively exactly if Mumble hears them and the game does not
/// silence them. The audio plane is told last who may be heard.
pub proof fn law_leases_and_native_speech_are_followed_up(
    x: MomentView,
    native: bool,
    now: u64,
)
    requires
        control::expiry_stops(
            x.runtime.peers,
            order::ascending(x.runtime.peers.dom()),
            now,
        ).len() + x.shared.peer_actions.len() <= 256,
    ensures
        ({
            let y = followed_up(x, native, now);
            &&& y.runtime.native_talking <==> native && !x.runtime.sound_system_override
                && !x.runtime.locally_muted
            &&& y.runtime.peers == control::all_after_expiry(x.runtime.peers, now)
            &&& y.effects.last() == EffectView::PublishPeers(
                control::audible_of(y.runtime.peers, now),
            )
            &&& y.shared.peer_actions == x.shared.peer_actions + control::expiry_stops(
                x.runtime.peers,
                order::ascending(x.runtime.peers.dom()),
                now,
            )
        }),
{
    reveal(peers_acted);
    let talking = !suppressed(x.runtime) && native;
    let start = runtime::being(x, RuntimeView { native_talking: talking, ..x.runtime });
    lemma_speaking_keeps(start);
}

proof fn lemma_speaking_keeps(x: MomentView)
    ensures
        ({
            let y = spoken_natively(x);
            &&& y.runtime == (RuntimeView {
                ptt: y.runtime.ptt,
                active: y.runtime.active,
                dirty: y.runtime.dirty,
                ..x.runtime
            })
            &&& y.shared == (SharedView { control_replies: y.shared.control_replies, ..x.shared })
        }),
{
    if x.runtime.direct is Some {
        let start = ptt::direct_start(x.runtime.ptt, x.runtime.direct->0);
        let stop = ptt::native_stop(x.runtime.ptt);
        lemma_ptt_keeps(runtime::being(x, RuntimeView { ptt: start.0, ..x.runtime }), start.1);
        lemma_ptt_keeps(runtime::being(x, RuntimeView { ptt: stop.0, ..x.runtime }), stop.1);
    }
}

/// A user who talks natively, and whom no transmission of ACRE covers, is
/// active with their native speech; one who does not talk is not.
pub proof fn law_native_speech_is_announced(x: MomentView)
    requires
        in_step(x.runtime),
        x.runtime.ptt.active_acre is None,
        x.runtime.direct is Some,
        x.runtime.direct->0.speaking_kind == SpeakingKind::Direct,
        x.runtime.direct->0.radio_id.len() == 0,
    ensures
        ({
            let active = spoken_natively(x).runtime.active;
            &&& x.runtime.native_talking ==> active is Some && crate::session_laws::agree(
                active->0,
                x.runtime.direct->0,
            )
            &&& !x.runtime.native_talking ==> active is None
        }),
{
    law_the_active_transmission_is_the_announced_one(x, x.runtime.direct->0);
    let direct = x.runtime.direct->0;
    ptt::law_peers_follow_the_machine(x.runtime.ptt, direct);
    ptt::law_every_event_keeps_the_machine_settled(x.runtime.ptt, direct);
    lemma_stepped(x, ptt::direct_start(x.runtime.ptt, direct));
    lemma_stepped(x, ptt::native_stop(x.runtime.ptt));
}

/// The local state is sent a tenth of a second after the last one, and half as
/// soon if it changed.
pub proof fn law_states_are_sent_ten_times_a_second(r: RuntimeView, now: u64, later: u64)
    ensures
        due(r, now) <==> now - r.last_send >= 100_000_000 || r.dirty && now - r.last_send
            >= 50_000_000,
        sending_state(r, now) == (RuntimeView { last_send: now, dirty: false, ..r }),
        due(sending_state(r, now), later) <==> later - now >= 100_000_000,
{
}

/// A state that is sent carries the control plane's scope and generation, the
/// next number, the player's name and exactly the active transmission.
pub proof fn law_sent_states_say_what_is_active(x: MomentView)
    requires
        x.runtime.direct is Some && x.runtime.active is Some ==> x.runtime.context is Some
            && x.runtime.active->0.voice_client_id == x.runtime.context->0.local,
    ensures
        ({
            let (y, state) = state_prepared(x);
            let ready = x.runtime.context is Some && x.runtime.direct is Some
                && x.runtime.connected;
            let silenced = x.runtime.sound_system_override || x.runtime.locally_muted;
            &&& !ready ==> y == x && state is None
            &&& ready && silenced ==> state is None
            &&& ready && !silenced ==> y.effects == x.effects && y.shared == x.shared
                && y.runtime == (RuntimeView { sequence: y.runtime.sequence, ..x.runtime })
            &&& ready && !silenced && x.runtime.sequence < u64::MAX ==> y.runtime.sequence
                == x.runtime.sequence + 1
            &&& state matches Some(state) ==> {
                &&& state.header == (HeaderView {
                    version: 1,
                    scope: x.runtime.scope,
                    generation: x.runtime.generation,
                    sequence: y.runtime.sequence,
                })
                &&& state.net_id == x.runtime.direct->0.net_id
                &&& announces(state, x.runtime.context->0.local, x.runtime.active)
            }
        }),
{
    let (y, state) = state_prepared(x);
    if x.runtime.direct is Some && x.runtime.context is Some {
        law_local_states_are_announced_as_they_are(
            x.runtime.scope,
            x.runtime.generation,
            y.runtime.sequence,
            x.runtime.direct->0.net_id,
            x.runtime.active,
            x.runtime.context->0.local,
        );
    }
}

/// A state that could not be sent closes the microphone and is tried again.
pub proof fn law_unsent_states_close_the_microphone(x: MomentView)
    ensures
        state_sent(x, false) == (MomentView {
            runtime: RuntimeView { dirty: true, ..x.runtime },
            shared: x.shared,
            effects: x.effects.push(EffectView::CloseCapture).push(
                EffectView::SetMicrophone(false),
            ),
        }),
        state_sent(x, true).runtime == x.runtime && state_sent(x, true).shared == x.shared,
{
}

/// A change of the filter is carried out and announced once.
pub proof fn law_the_filter_changes_once(x: MomentView, active: bool)
    ensures
        ({
            let y = filtered(x, active);
            &&& y.runtime == (RuntimeView { filtering: active, ..x.runtime })
            &&& x.runtime.filtering == active ==> y == x
            &&& x.runtime.filtering != active ==> {
                &&& y.effects.len() == x.effects.len() + 2
                &&& y.effects[x.effects.len() as int] == EffectView::FilterAudio(active)
                &&& y.effects.last() is Announce
            }
            &&& filtered(y, active) == y
        }),
{
}

/// Decisions that were dropped are announced at the end of the tick, and their
/// number starts over.
pub proof fn law_dropped_decisions_are_announced(x: MomentView)
    ensures
        finished(x).shared.dropped_speaking_updates == 0,
        x.shared.dropped_speaking_updates > 0 ==> finished(x).effects.len() > x.effects.len()
            && finished(x).effects[x.effects.len() as int] is Announce,
        x.shared.dropped_speaking_updates == 0 ==> finished(x) == filtered(
            x,
            x.runtime.connected && x.runtime.context is Some,
        ),
{
}

/// Whether the effects go on from those before.
pub open spec fn goes_on(before: Seq<EffectView>, after: Seq<EffectView>) -> bool {
    &&& before.len() <= after.len()
    &&& forall|i: int| 0 <= i < before.len() ==> #[trigger] after[i] == before[i]
}

proof fn lemma_at_once_goes_on(effects: Seq<EffectView>, actions: Seq<PeerActionView>)
    ensures
        goes_on(effects, all_at_once(effects, actions)),
    decreases actions.len(),
{
    if actions.len() > 0 {
        lemma_at_once_goes_on(effects, actions.drop_last());
    }
}

proof fn lemma_peers_go_on(x: MomentView, actions: Seq<PeerActionView>)
    ensures
        goes_on(x.effects, peers_acted(x, actions).effects),
        peers_acted(x, actions).runtime.peers == x.runtime.peers || peers_acted(
            x,
            actions,
        ).runtime.peers == Map::<u32, control::RemoteView>::empty(),
        peers_acted(x, actions).runtime.context == x.runtime.context,
{
    reveal(peers_acted);
    lemma_at_once_goes_on(x.effects, actions);
    let heard = MomentView { effects: all_at_once(x.effects, actions), ..x };
    let (after, taken) = adapter::with_peer_actions(heard.shared, actions);
    if !taken {
        law_resets_silence_everything(runtime::sharing(heard, after));
        runtime::law_resets_leave_nothing_behind(runtime::sharing(heard, after));
    }
}

proof fn lemma_forgetting_goes_on(x: MomentView, ids: Seq<u32>)
    ensures
        ({
            let y = runtime::all_forgotten(x, ids);
            &&& goes_on(x.effects, y.effects)
            &&& y.runtime.context == x.runtime.context
            &&& forall|id: u32| #[trigger]
                y.runtime.peers.contains_key(id) ==> x.runtime.peers.contains_key(id)
                    && !ids.contains(id)
        }),
    decreases ids.len(),
{
    if ids.len() > 0 {
        let head = ids.drop_last();
        lemma_forgetting_goes_on(x, head);
        let y = runtime::all_forgotten(x, head);
        let id = ids.last();
        let gone = runtime::being(
            y,
            RuntimeView { peers: y.runtime.peers.remove(id), ..y.runtime },
        );
        let told = control::farewell(control::known_of(y.runtime.peers, id), id);
        lemma_peers_go_on(gone, told);
        let z = runtime::all_forgotten(x, ids);
        assert forall|other: u32| #[trigger] z.runtime.peers.contains_key(other) implies
            x.runtime.peers.contains_key(other) && !ids.contains(other) by {
            assert(y.runtime.peers.contains_key(other) && other != id);
            if ids.contains(other) {
                let k = choose|k: int| 0 <= k < ids.len() && ids[k] == other;
                assert(head[k] == other);
            }
        }
    }
}

/// Once the user's channel is known, nobody is known who is not in it.
pub proof fn law_only_members_of_the_channel_stay_known(x: MomentView, id: u32)
    requires
        x.runtime.context is Some,
        runtime::without_departed(x).runtime.peers.contains_key(id),
    ensures
        x.runtime.peers.contains_key(id),
        x.runtime.context->0.users.contains(id),
{
    let users = x.runtime.context->0.users;
    lemma_forgetting_goes_on(x, departed(x.runtime, users));
    law_departed_peers_are_not_among_the_users(x.runtime, users, id);
}

/// A tick releases the microphone before anything else if it is forced open and
/// should not be: while the game silences the voice, or ACRE does not transmit.
pub proof fn law_ticks_release_the_microphone_first(
    x: MomentView,
    context: Option<ContextView>,
    overflowed: bool,
)
    requires
        x.runtime.mic,
        x.runtime.sound_system_override || x.runtime.locally_muted
            || !x.runtime.ptt.microphone_overwrite,
    ensures
        ({
            let y = runtime::ticked(x, context, overflowed);
            &&& y.effects.len() > x.effects.len()
            &&& y.effects[x.effects.len() as int] == EffectView::SetMicrophone(false)
        }),
{
    let muted = runtime::doing(x, EffectView::SetMicrophone(false));
    let moved = relocated(muted, context);
    assert(goes_on(muted.effects, moved.effects)) by {
        law_resets_silence_everything(muted);
    }
    let present = runtime::without_departed(moved);
    assert(goes_on(moved.effects, present.effects)) by {
        if moved.runtime.context is Some {
            lemma_forgetting_goes_on(
                moved,
                departed(moved.runtime, moved.runtime.context->0.users),
            );
        }
    }
    law_resets_silence_everything(present);
    let at = x.effects.len() as int;
    assert(muted.effects[at] == EffectView::SetMicrophone(false));
    assert(moved.effects[at] == muted.effects[at]);
    assert(present.effects[at] == moved.effects[at]);
}

/// The listener that waits is published, and so is what was decided about a
/// speaker who transmits and whose lease lasts; nothing waits any more.
pub proof fn law_what_waits_is_published(x: MomentView, id: u32, now: u64)
    ensures
        ({
            let y = runtime::audio_updated(x, now);
            &&& y.shared.listener_state is None
            &&& !y.shared.speaking_updates.contains_key(id)
            &&& y.runtime == x.runtime
            &&& x.shared.listener_state matches Some(state) ==> y.effects.contains(
                EffectView::Publish(PlaneUpdateView::Listener(state)),
            )
            &&& x.shared.speaking_updates.contains_key(id) && x.runtime.peers.contains_key(id)
                && x.runtime.peers[id].active is Some && now - x.runtime.peers[id].refreshed
                < 250_000_000 && x.shared.speaking_updates[id].speaking.speaker_id == id
                ==> y.effects.contains(
                EffectView::Publish(PlaneUpdateView::Speaker(x.shared.speaking_updates[id])),
            )
        }),
{
    let updates = adapter::waiting_updates(x.shared);
    let audible = control::audible_of(x.runtime.peers, now);
    let speakers = order::ascending(x.shared.speaking_updates.dom());
    crate::adapter_laws::law_the_audio_plane_gets_all_that_waits(x.shared);
    if x.shared.listener_state is Some {
        law_audible_speakers_are_published(x.effects, updates, audible, 0);
    }
    if x.shared.speaking_updates.contains_key(id) && audible.contains_key(id)
        && x.shared.speaking_updates[id].speaking.speaker_id == id {
        assert(speakers.contains(id));
        let k = choose|k: int| 0 <= k < speakers.len() && speakers[k] == id;
        let first = if x.shared.listener_state is Some {
            1int
        } else {
            0
        };
        assert(updates[first + k] == PlaneUpdateView::Speaker(
            x.shared.speaking_updates[speakers[k]],
        ));
        law_audible_speakers_are_published(x.effects, updates, audible, first + k);
    }
}

/// A tick ends with a state to send only if one is due.
pub proof fn law_states_are_prepared_when_due(x: MomentView, native: bool, now: u64)
    ensures
        ({
            let (y, state) = runtime::concluded(x, native, now);
            let followed = followed_up(x, native, now);
            let waited = now - followed.runtime.last_send;
            let ripe = waited >= 100_000_000 || followed.runtime.dirty && waited >= 50_000_000;
            &&& !ripe ==> state is None && y == followed
            &&& ripe ==> (y, state) == state_prepared(followed)
        }),
{
}

/// A control plane starts with nobody known, nothing transmitted and nothing
/// connected, and wants its state sent.
pub proof fn law_control_planes_start_with_nothing_known(
    scope: Seq<char>,
    generation: u64,
    now: u64,
    id: u32,
)
    ensures
        ({
            let r = runtime::fresh(scope, generation, now);
            &&& r.scope == scope && r.generation == generation && r.sequence == 0
            &&& !r.peers.contains_key(id)
            &&& r.context is None && r.direct is None && r.active is None
            &&& in_step(r)
            &&& !r.connected && !r.mic && !r.filtering && !r.native_talking
            &&& !r.sound_system_override && !r.locally_muted
            &&& r.dirty && r.last_send == now
        }),
{
}

/// What is announced to the user says what happened.
pub proof fn law_announcements_say_what_happened(x: MomentView, active: bool, now: u64)
    ensures
        event_handled(x, EventView::PipeConnected).effects.last() == EffectView::Announce(
            "MumbleACRE: ACRE conectado"@,
        ),
        x.runtime.filtering != active ==> {
            let words = if active {
                "MumbleACRE: filtrado de audio ACRE activo"@
            } else {
                "MumbleACRE: audio normal de Mumble activo"@
            };
            let y = filtered(x, active);
            &&& y.effects.last() == EffectView::Announce(words)
            &&& y.shared.log == x.shared.log.push(y.shared.log.last())
            &&& y.shared.log.last().message == words
            &&& y.shared.log.last().name == "acre_audio_filter"@
            &&& y.shared == (SharedView { log: y.shared.log, ..x.shared })
        },
        x.shared.dropped_speaking_updates > 0 ==> finished(x).effects[x.effects.len() as int]
            == EffectView::Announce(
            "MumbleACRE: demasiados hablantes; se descartaron decisiones de audio"@,
        ),
        ({
            let y = direct_refreshed(x);
            y.runtime.connected && now - y.shared.last_activity >= 5_000_000_000 ==> checked(
                x,
                now,
            ).effects.last() == EffectView::Announce(
                "MumbleACRE: ACRE dejó de responder; audio silenciado"@,
            )
        }),
{
}

/// Events are handled one after the other in their order, and so are the
/// messages of peers.
pub proof fn law_events_and_messages_are_taken_in_order(
    x: MomentView,
    events: Seq<EventView>,
    event: EventView,
    packets: Seq<runtime::PacketView>,
    packet: runtime::PacketView,
    now: u64,
)
    ensures
        runtime::events_handled(x, Seq::empty()) == x,
        runtime::events_handled(x, events.push(event)) == event_handled(
            runtime::events_handled(x, events),
            event,
        ),
        runtime::packets_heard(x, Seq::empty(), now) == x,
        runtime::packets_heard(x, packets.push(packet), now) == peer_heard(
            runtime::packets_heard(x, packets, now),
            packet.connection,
            packet.sender,
            packet.state,
            now,
        ),
{
    assert(events.push(event).drop_last() =~= events);
    assert(packets.push(packet).drop_last() =~= packets);
}

/// A tick looks at the user's place first, then publishes what waits, then
/// handles every event that waits, then gives up a silent game, and hears the
/// peers last.
pub proof fn law_ticks_hear_the_peers_last(
    x: MomentView,
    context: Option<ContextView>,
    overflowed: bool,
    packets: Seq<runtime::PacketView>,
    packet: runtime::PacketView,
    now: u64,
)
    ensures
        ({
            let before = runtime::taken_in(x, context, overflowed, packets, now);
            runtime::taken_in(x, context, overflowed, packets.push(packet), now) == peer_heard(
                before,
                packet.connection,
                packet.sender,
                packet.state,
                now,
            )
        }),
        ({
            let seen = runtime::audio_updated(runtime::ticked(x, context, overflowed), now);
            let waiting = seen.shared.events;
            let drained = MomentView {
                shared: SharedView { events: Seq::empty(), ..seen.shared },
                ..seen
            };
            runtime::taken_in(x, context, overflowed, Seq::empty(), now) == checked(
                runtime::events_handled(drained, waiting),
                now,
            )
        }),
{
    assert(packets.push(packet).drop_last() =~= packets);
}

} // verus!
