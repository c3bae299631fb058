//! What the adapter does with events, actions, replies and reports.

use crate::adapter::{
    self, direct_notice, event_entry, forgotten, heard_lately, pushed, recorded, replied,
    waiting_updates, with_job, with_peer_actions, EventView, JobView, SharedView,
};
use crate::adapter_worker::{
    self, begun, connection_seen, disconnected, dispatched, dispatched_all, loads_expired,
    message_handled, peers_dispatched, pipe_lost, reads_on, replies_drained, reported,
    reset_by_game, write_seen, FlushStep, PlaneView, WorkerView, WriteView,
};
use crate::audio_snapshot::PlaneUpdateView;
use crate::codec::{self, MessageView};
use crate::decimal;
use crate::logging::LogLevel;
use crate::order;
use crate::peer_dispatch;
use crate::peer_state::PeerActionView;
use crate::session::{self, ActionView, SessionView};
use crate::session_laws::{start_told, stop_told, told};
use crate::sound_cache::ReportView;
use crate::speaking::{AcreVoiceCurveModel, AudioUpdateView};
use crate::transmission::{SpeakingKind, TransmissionView};
use vstd::prelude::*;

verus! {

/// An event comes last of all that wait, is logged with one line, and costs
/// nothing else. Of 256 events that wait already, only the word of their loss
/// is left.
pub proof fn law_events_are_queued_behind_the_others(s: SharedView, event: EventView)
    ensures
        ({
            let after = pushed(s, event);
            &&& after.events == if s.events.len() < 256 {
                s.events.push(event)
            } else {
                seq![EventView::QueueOverflow, event]
            }
            &&& after.log.len() == s.log.len() + 1
            &&& after.log.take(s.log.len() as int) == s.log
            &&& after == (SharedView { events: after.events, log: after.log, ..s })
        }),
{
    assert(pushed(s, event).log.take(s.log.len() as int) =~= s.log);
}

/// What went wrong is logged as a warning, what the game does often as detail,
/// and everything else as information.
pub proof fn law_events_are_logged_by_their_weight(event: EventView)
    ensures
        event_entry(event).level == match event {
            EventView::QueueOverflow | EventView::PipeDisconnected | EventView::RejectedMessage(
                _,
            ) | EventView::PipeError(_) => LogLevel::Warn,
            EventView::UserMuteChanged { .. } | EventView::SoundPlaybackReady { .. } =>
                LogLevel::Debug,
            _ => LogLevel::Info,
        },
        event matches EventView::RejectedMessage(words) ==> event_entry(event).message == words,
        event matches EventView::PipeError(words) ==> event_entry(event).message == words,
        event matches EventView::SoundPlaybackReady { id, .. } ==> event_entry(event).message
            == "id="@ + id,
{
}

/// What belongs to the game's last state is gone once it is forgotten; what
/// Mumble supplied, what the control plane waits for and the sounds stay.
pub proof fn law_forgetting_takes_only_the_games_state(s: SharedView, event: EventView)
    ensures
        ({
            let after = forgotten(s);
            &&& after.direct is None && after.listener_state is None
            &&& after.peer_actions.len() == 0 && after.control_replies.len() == 0
            &&& forall|id: u32| !(#[trigger] after.speaking_updates.contains_key(id))
            &&& after.events.contains(event) <==> s.events.contains(event)
                && !(event is SoundPlaybackReady)
            &&& after == (SharedView {
                direct: None,
                listener_state: None,
                peer_actions: Seq::empty(),
                control_replies: Seq::empty(),
                speaking_updates: Map::empty(),
                events: after.events,
                ..s
            })
        }),
{
    let keeps = |event: EventView| !(event is SoundPlaybackReady);
    let kept = s.events.filter(keeps);
    assert(kept == forgotten(s).events);
    lemma_kept(s.events, event);
}

proof fn lemma_kept(events: Seq<EventView>, event: EventView)
    ensures
        adapter::without_playbacks(events).contains(event) <==> events.contains(event) && !(event
            is SoundPlaybackReady),
    decreases events.len(),
{
    reveal(Seq::filter);
    if events.len() > 0 {
        let head = events.drop_last();
        let kept = adapter::without_playbacks(events);
        let earlier = adapter::without_playbacks(head);
        lemma_kept(head, event);
        if events.contains(event) && events.last() != event {
            let k = choose|k: int| 0 <= k < events.len() && events[k] == event;
            assert(head[k] == event);
        }
        if head.contains(event) {
            let k = choose|k: int| 0 <= k < head.len() && head[k] == event;
            assert(events[k] == event);
        }
        if earlier.contains(event) {
            let k = choose|k: int| 0 <= k < earlier.len() && earlier[k] == event;
            assert(kept[k] == event);
        }
        if kept.contains(event) {
            let k = choose|k: int| 0 <= k < kept.len() && kept[k] == event;
            if k < earlier.len() {
                assert(earlier[k] == event);
            } else {
                assert(events.last() == event);
            }
        }
        if !(events.last() is SoundPlaybackReady) {
            assert(kept[kept.len() - 1] == events.last());
        }
        assert(events[events.len() - 1] == events.last());
    }
}

/// Native speech is told to the game like a transmission of direct speech over
/// no radio.
pub proof fn law_native_speech_is_told_as_direct_speech(t: TransmissionView)
    ensures
        ({
            let direct = TransmissionView {
                speaking_kind: SpeakingKind::Direct,
                radio_id: Seq::empty(),
                ..t
            };
            &&& direct_notice(t, true) == codec::built(
                start_told(direct).procedure,
                start_told(direct).parameters,
                true,
            )
            &&& direct_notice(t, false) == codec::built(
                stop_told(direct).procedure,
                stop_told(direct).parameters,
                true,
            )
        }),
{
    reveal_strlit("");
    assert(""@ =~= Seq::<char>::empty());
}

/// A reply waits behind the others, as long as fewer than 256 do.
pub proof fn law_replies_wait_in_order(s: SharedView, message: MessageView)
    ensures
        replied(s, message).1 <==> s.control_replies.len() < 256,
        replied(s, message).0 == if s.control_replies.len() < 256 {
            SharedView { control_replies: s.control_replies.push(message), ..s }
        } else {
            s
        },
{
}

/// Of every speaker the newest decision waits. One for a 129th speaker is
/// dropped and counted.
pub proof fn law_the_newest_decision_waits(s: SharedView, update: AudioUpdateView, other: u32)
    ensures
        ({
            let after = recorded(s, update);
            let id = update.speaking.speaker_id;
            let room = s.speaking_updates.contains_key(id) || s.speaking_updates.len() < 128;
            &&& room ==> {
                &&& after.speaking_updates.contains_key(id)
                &&& after.speaking_updates[id] == update
                &&& after.dropped_speaking_updates == s.dropped_speaking_updates
            }
            &&& !room ==> after.speaking_updates == s.speaking_updates
            &&& !room && s.dropped_speaking_updates < u64::MAX ==> after.dropped_speaking_updates
                == s.dropped_speaking_updates + 1
            &&& other != id ==> {
                &&& after.speaking_updates.contains_key(other)
                    == s.speaking_updates.contains_key(other)
                &&& s.speaking_updates.contains_key(other) ==> after.speaking_updates[other]
                    == s.speaking_updates[other]
            }
            &&& after == (SharedView {
                speaking_updates: after.speaking_updates,
                dropped_speaking_updates: after.dropped_speaking_updates,
                ..s
            })
        }),
{
}

/// The audio plane is handed the listener first, if it is known, and then the
/// decision about every speaker who waits, once each.
pub proof fn law_the_audio_plane_gets_all_that_waits(s: SharedView)
    ensures
        ({
            let updates = waiting_updates(s);
            let speakers = order::ascending(s.speaking_updates.dom());
            let first = if s.listener_state is Some {
                1
            } else {
                0int
            };
            &&& updates.len() == first + speakers.len()
            &&& s.listener_state matches Some(state) ==> updates[0] == PlaneUpdateView::Listener(
                state,
            )
            &&& forall|i: int|
                0 <= i < speakers.len() ==> updates[first + i] == PlaneUpdateView::Speaker(
                    s.speaking_updates[#[trigger] speakers[i]],
                )
            &&& speakers.no_duplicates()
            &&& forall|id: u32| #[trigger]
                speakers.contains(id) <==> s.speaking_updates.contains_key(id)
        }),
{
    let speakers = order::ascending(s.speaking_updates.dom());
    order::lemma_ascending(s.speaking_updates.dom());
    assert forall|id: u32| #[trigger]
        speakers.contains(id) <==> s.speaking_updates.contains_key(id) by {
        assert(speakers.to_set().contains(id) <==> speakers.contains(id));
    }
}

/// A job waits behind the others for a sound worker that runs, as long as fewer
/// than 32 do.
pub proof fn law_sound_jobs_wait_in_order(s: SharedView, job: JobView)
    ensures
        with_job(s, job) is Ok <==> s.sound_worker_runs && s.sound_jobs.len() < 32,
        with_job(s, job) matches Ok(after) ==> after == (SharedView {
            sound_jobs: s.sound_jobs.push(job),
            ..s
        }),
{
}

/// Changes of peers wait together behind the others, or not at all: no more
/// than 256 do.
pub proof fn law_peer_changes_wait_together(s: SharedView, actions: Seq<PeerActionView>)
    requires
        s.peer_actions.len() <= 256,
    ensures
        with_peer_actions(s, actions).1 <==> s.peer_actions.len() + actions.len() <= 256,
        with_peer_actions(s, actions).0 == if s.peer_actions.len() + actions.len() <= 256 {
            SharedView { peer_actions: s.peer_actions + actions, ..s }
        } else {
            s
        },
{
}

/// The game counts as heard of for five seconds after it was.
pub proof fn law_the_game_is_heard_of_for_five_seconds(s: SharedView, now: u64)
    ensures
        heard_lately(s, now) <==> now - s.last_activity < 5_000_000_000,
{
}

/// Whether nothing but the log and the last event differs.
pub open spec fn tells(p: PlaneView, q: PlaneView, event: EventView) -> bool {
    &&& q.worker == p.worker
    &&& q.shared.events.len() > 0 && q.shared.events.last() == event
    &&& p.shared.events.len() < 256 ==> q.shared.events == p.shared.events.push(event)
    &&& q.shared == (SharedView {
        events: q.shared.events,
        log: q.shared.log,
        capture_must_close: q.shared.capture_must_close,
        ..p.shared
    })
}

/// Whether nothing but the log and one more reply differs.
pub open spec fn replies(p: PlaneView, q: PlaneView, message: MessageView) -> bool {
    &&& q.worker == (WorkerView { outbound: p.worker.outbound.push(message), ..p.worker })
    &&& q.shared == (SharedView { log: q.shared.log, ..p.shared })
}

/// Every action of the session reaches its own addressee: the game its message,
/// the control plane its event, the audio plane its update, the sound worker
/// its job. The microphone's permit is closed around a transmission, and by
/// nothing else.
pub proof fn law_actions_reach_their_addressee(p: PlaneView, action: ActionView)
    ensures
        ({
            let q = dispatched(p, action);
            let closes = action is LocalTransmissionStarted || action is LocalTransmissionStopped;
            &&& q.shared.capture_must_close <==> p.shared.capture_must_close || closes
            &&& match action {
                ActionView::SendToArma(message) => replies(p, q, message),
                ActionView::LocalTransmissionStarted(t) => tells(
                    p,
                    q,
                    EventView::LocalTransmissionStarted(t),
                ),
                ActionView::LocalTransmissionStopped(t) => tells(
                    p,
                    q,
                    EventView::LocalTransmissionStopped(t),
                ),
                ActionView::SoundSystemOverrideChanged(enabled) => tells(
                    p,
                    q,
                    EventView::SoundSystemOverrideChanged(enabled),
                ),
                ActionView::LocalMuteChanged(muted) => tells(
                    p,
                    q,
                    EventView::LocalMuteChanged(muted),
                ),
                ActionView::UserMuteChanged { voice_client_id, muted } => tells(
                    p,
                    q,
                    EventView::UserMuteChanged { voice_client_id, muted },
                ),
                ActionView::ListenerUpdated(state) => q.worker == p.worker && q.shared == (
                SharedView { listener_state: Some(state), ..p.shared }),
                ActionView::SpeakingUpdated(update) => {
                    &&& q.worker == p.worker
                    &&& p.shared.speaking_updates.len() < 128 ==> q.shared == (SharedView {
                        speaking_updates: p.shared.speaking_updates.insert(
                            update.speaking.speaker_id,
                            update,
                        ),
                        ..p.shared
                    })
                },
                ActionView::SoundLoaded(sound) => if p.shared.sound_worker_runs
                    && p.shared.sound_jobs.len() < 32 {
                    &&& q.worker == p.worker
                    &&& q.shared == (SharedView {
                        sound_jobs: p.shared.sound_jobs.push(
                            JobView::Load {
                                generation: p.worker.sound_generation,
                                epoch: p.worker.sound_epoch,
                                sound,
                            },
                        ),
                        ..p.shared
                    })
                } else {
                    replies(p, q, loaded_told(sound.id, "0"@))
                },
                ActionView::SoundPlaybackRequested(request) => if p.shared.sound_worker_runs
                    && p.shared.sound_jobs.len() < 32 {
                    &&& q.worker == p.worker
                    &&& q.shared == (SharedView {
                        sound_jobs: p.shared.sound_jobs.push(
                            JobView::Play {
                                generation: p.worker.sound_generation,
                                epoch: p.worker.sound_epoch,
                                request,
                            },
                        ),
                        ..p.shared
                    })
                } else {
                    replies(p, q, told("handleSoundError"@, seq![request.id]))
                },
                ActionView::ResetRequested => q == reset_by_game(p),
            }
        }),
{
}

/// How the game is told what became of a sound that it loaded.
pub open spec fn loaded_told(id: Seq<char>, digit: Seq<char>) -> MessageView {
    MessageView {
        procedure: "handleLoadedSound"@,
        parameters: seq![id, digit],
        trailing_comma: false,
    }
}

/// A reset by the game empties every queue of the worker and the audio plane,
/// makes every report of before void and every sound of before unplayable, and
/// is told last. The connection and the session stay.
pub proof fn law_a_reset_by_the_game_clears_the_plane(p: PlaneView)
    ensures
        ({
            let q = reset_by_game(p);
            &&& q.worker == (WorkerView {
                outbound: Seq::empty(),
                sound_generation: q.worker.sound_generation,
                sound_epoch: q.worker.sound_epoch,
                ..p.worker
            })
            &&& q.worker.sound_generation != p.worker.sound_generation
            &&& q.worker.sound_epoch != p.worker.sound_epoch
            &&& q.shared.sound_generation == q.worker.sound_generation
            &&& q.shared.control_replies.len() == 0 && q.shared.peer_actions.len() == 0
            &&& q.shared.listener_state is None && q.shared.direct is None
            &&& forall|id: u32| !(#[trigger] q.shared.speaking_updates.contains_key(id))
            &&& q.shared.events.last() == EventView::ResetRequested
            &&& q.shared.local_voice_client_id == p.shared.local_voice_client_id
            &&& q.shared.voip_metadata == p.shared.voip_metadata
            &&& q.shared.last_activity == p.shared.last_activity
            &&& q.shared.sound_results == p.shared.sound_results
            &&& q.shared.capture_must_close == p.shared.capture_must_close
        }),
{
}

/// A connection that is given up takes the session's state with it: the player
/// is unnamed, stands nowhere, speaks no language, on no chosen curve, and
/// nobody transmits; the plugin's version stays. The sounds stay playable,
/// while every report of before is void.
pub proof fn law_a_lost_connection_starts_the_session_over(p: PlaneView)
    ensures
        ({
            let q = disconnected(p);
            let session = q.worker.session;
            &&& session.plugin_version == p.worker.session.plugin_version
            &&& session.local_net_id is None && session.local_listener_pose is None
            &&& session.local_language_id == 0
            &&& session.local_curve_scale == 0x3f80_0000
            &&& session.local_voice_curve_model == AcreVoiceCurveModel::Original
            &&& session.active_local_transmission is None
            &&& forall|id: u32| !(#[trigger] session.remote_transmissions.contains_key(id))
            &&& session.sounds.len() == 0
            &&& !q.worker.was_connected
            &&& q.worker.outbound.len() == 0
            &&& q.worker.sound_generation != p.worker.sound_generation
            &&& q.shared.sound_generation == q.worker.sound_generation
            &&& q.worker.sound_epoch == p.worker.sound_epoch
            &&& q.shared.sound_jobs == p.shared.sound_jobs
            &&& q.shared.pipe_lost == p.shared.pipe_lost
            &&& q.shared.events.last() == EventView::PipeDisconnected
            &&& pipe_lost(p).shared.pipe_lost == (p.shared.pipe_lost || p.worker.was_connected)
            &&& pipe_lost(p).worker == q.worker
        }),
{
}

/// What the sound worker reports counts exactly if it is about the present
/// state of the game: the game is told whether its sound was loaded, or that it
/// cannot be played, and the control plane which file to play.
pub proof fn law_reports_are_told(p: PlaneView, report: ReportView)
    ensures
        ({
            let q = reported(p, report);
            match report {
                ReportView::Loaded { generation, id, .. } => if generation
                    == p.worker.sound_generation {
                    replies(p, q, loaded_told(id, "1"@))
                } else {
                    q == p
                },
                ReportView::LoadFailed { generation, id, .. } => if generation
                    == p.worker.sound_generation {
                    replies(p, q, loaded_told(id, "0"@))
                } else {
                    q == p
                },
                ReportView::PlaybackReady { generation, id, file } => if generation
                    == p.worker.sound_generation {
                    tells(p, q, EventView::SoundPlaybackReady { generation, id, file })
                } else {
                    q == p
                },
                ReportView::PlaybackFailed { generation, id, .. } => if generation
                    == p.worker.sound_generation {
                    replies(p, q, told("handleSoundError"@, seq![id]))
                } else {
                    q == p
                },
            }
        }),
{
}

/// A message is handled with what Mumble supplied: the voice client's ID, of
/// which zero is none, and the description of the connection. If it is
/// accepted, the game counts as heard of, native speech is known anew, and
/// every action is carried out; if it is refused, nothing is.
pub proof fn law_messages_are_handled_with_what_mumble_supplied(
    p: PlaneView,
    message: MessageView,
    readings: Seq<Option<u32>>,
    clock: Option<Seq<char>>,
    now: u64,
)
    ensures
        ({
            let (q, refusal) = message_handled(p, message, readings, clock, now);
            let id = p.shared.local_voice_client_id;
            let informed = SessionView {
                local_voice_client_id: if id == 0 {
                    None
                } else {
                    Some(id)
                },
                voip_metadata: p.shared.voip_metadata,
                ..p.worker.session
            };
            let (session, answer) = session::handled(informed, message, readings, clock, now);
            let heard = PlaneView {
                worker: WorkerView { session, ..p.worker },
                shared: SharedView {
                    direct: session::direct_view(session),
                    last_activity: now,
                    ..p.shared
                },
            };
            &&& refusal is None <==> answer is Ok
            &&& answer is Ok ==> q == dispatched_all(heard, answer->Ok_0)
            &&& answer is Err ==> refusal == Some(answer->Err_0) && q.shared == p.shared
                && q.worker == (WorkerView { session, ..p.worker })
        }),
{
}

/// Actions are carried out one after the other, in their order.
pub proof fn law_actions_are_carried_out_in_order(
    p: PlaneView,
    actions: Seq<ActionView>,
    last: ActionView,
)
    ensures
        dispatched_all(p, Seq::empty()) == p,
        dispatched_all(p, actions.push(last)) == dispatched(dispatched_all(p, actions), last),
{
    assert(actions.push(last).drop_last() =~= actions);
}

/// Changes of peers are delivered to the game once: what was decided about the
/// speakers before is dropped, and none of the changes waits any more.
pub proof fn law_peer_changes_are_delivered_once(p: PlaneView)
    requires
        p.shared.peer_actions.len() > 0,
    ensures
        ({
            let (q, refusal) = peers_dispatched(p);
            let (session, answer) = peer_dispatch::delivered_all(
                p.worker.session,
                p.shared.peer_actions,
            );
            let delivered = PlaneView {
                worker: WorkerView { session, ..p.worker },
                shared: SharedView {
                    peer_actions: Seq::empty(),
                    speaking_updates: Map::empty(),
                    ..p.shared
                },
            };
            &&& refusal is None <==> answer is Ok
            &&& answer is Ok ==> q == dispatched_all(delivered, answer->Ok_0)
            &&& answer is Err ==> q == delivered && refusal == Some(answer->Err_0)
        }),
{
}

/// Replies of the control plane are written behind those that wait already, in
/// their order.
pub proof fn law_replies_are_written_behind_the_others(p: PlaneView)
    ensures
        replies_drained(p).worker.outbound == p.worker.outbound + p.shared.control_replies,
        replies_drained(p).shared == (SharedView { control_replies: Seq::empty(), ..p.shared }),
        replies_drained(p).worker == (WorkerView {
            outbound: replies_drained(p).worker.outbound,
            ..p.worker
        }),
{
}

/// A round begins by giving the connection up if that was asked for, which is
/// asked for once, or if more than 256 replies wait; otherwise it leaves
/// everything as it is.
pub proof fn law_rounds_begin_by_giving_up_if_they_must(p: PlaneView)
    ensures
        ({
            let (q, disconnect) = begun(p);
            &&& disconnect <==> p.shared.reset || p.worker.outbound.len() > 256
            &&& disconnect ==> !q.worker.was_connected && q.worker.outbound.len() == 0
                && !q.shared.reset && q.shared.events.last() == EventView::PipeDisconnected
            &&& !disconnect ==> q == p
        }),
{
}

/// The control plane is told once that the game connected and once that it left.
/// A failure to ask counts as the loss of the connection.
pub proof fn law_connections_are_told_once(p: PlaneView, words: Seq<char>)
    ensures
        ({
            let (q, disconnect) = connection_seen(p, Ok(true));
            &&& !disconnect && q.worker == (WorkerView { was_connected: true, ..p.worker })
            &&& p.worker.was_connected ==> q == p
            &&& !p.worker.was_connected ==> q.shared.events.last() == EventView::PipeConnected
        }),
        ({
            let (q, disconnect) = connection_seen(p, Ok(false));
            &&& disconnect <==> p.worker.was_connected
            &&& p.worker.was_connected ==> q == pipe_lost(p)
            &&& !p.worker.was_connected ==> q == p
        }),
        ({
            let (q, disconnect) = connection_seen(p, Err(words));
            &&& disconnect && !q.worker.was_connected
            &&& q.shared.events.last() == EventView::PipeDisconnected
        }),
{
}

/// Replies leave in their order: one that was written, or that could not be, is
/// gone, and the next one follows; one that would block is tried again in the
/// next round; a broken pipe takes them all.
pub proof fn law_replies_leave_in_order(p: PlaneView, words: Seq<char>)
    requires
        p.worker.outbound.len() > 0,
    ensures
        ({
            let rest = p.worker.outbound.subrange(1, p.worker.outbound.len() as int);
            &&& write_seen(p, WriteView::Written) == (
                PlaneView {
                    worker: WorkerView { outbound: rest, ..p.worker },
                    shared: p.shared,
                },
                FlushStep::WriteOn,
            )
            &&& write_seen(p, WriteView::WouldBlock) == (p, FlushStep::Rest)
            &&& write_seen(p, WriteView::Broken) == (pipe_lost(p), FlushStep::Disconnect)
            &&& write_seen(p, WriteView::Failed(words)).1 == FlushStep::WriteOn
            &&& write_seen(p, WriteView::Failed(words)).0.worker.outbound == rest
            &&& write_seen(p, WriteView::Failed(words)).0.shared.events.last()
                == EventView::PipeError(words)
        }),
{
    let rest = p.worker.outbound.subrange(1, p.worker.outbound.len() as int);
    assert(p.worker.outbound.remove(0) =~= rest);
}

/// A round reads at most 256 times, and not while 256 replies wait.
pub proof fn law_rounds_read_no_more_than_they_may(w: WorkerView, reads: int)
    ensures
        reads_on(w, reads) <==> reads < 256 && w.outbound.len() < 256,
{
}

/// Nothing waits and nothing is known at first, the sound worker runs, and the
/// game counts as heard of.
pub proof fn law_nothing_is_shared_at_first(now: u64, id: u32)
    ensures
        ({
            let s = adapter::nothing_shared(now);
            &&& s.events.len() == 0 && s.control_replies.len() == 0 && s.peer_actions.len() == 0
            &&& s.sound_jobs.len() == 0 && s.sound_results.len() == 0 && s.log.len() == 0
            &&& s.listener_state is None && s.direct is None && s.voip_metadata is None
            &&& !s.speaking_updates.contains_key(id)
            &&& s.local_voice_client_id == 0 && s.dropped_speaking_updates == 0
            &&& s.sound_generation == 0 && s.sound_worker_runs
            &&& !s.reset && !s.pipe_lost && !s.capture_must_close
            &&& heard_lately(s, now)
        }),
{
}

/// Transfers that rested too long are dropped and logged, one line each; nothing
/// else of the plane changes.
pub proof fn law_rested_transfers_are_logged(p: PlaneView, now: u64)
    ensures
        ({
            let q = loads_expired(p, now);
            let gone = crate::sound::expired_ids(p.worker.session.sounds, now);
            &&& q.worker.session.sounds == crate::sound::unexpired(p.worker.session.sounds, now)
            &&& q.worker == (WorkerView { session: q.worker.session, ..p.worker })
            &&& q.worker.session == (SessionView {
                sounds: q.worker.session.sounds,
                ..p.worker.session
            })
            &&& q.shared == (SharedView { log: q.shared.log, ..p.shared })
            &&& q.shared.log.len() == p.shared.log.len() + gone.len()
            &&& forall|i: int|
                0 <= i < gone.len() ==> {
                    let line = q.shared.log[p.shared.log.len() + i];
                    line.level == LogLevel::Warn && line.message == "id="@ + #[trigger] gone[i]
                }
        }),
{
}

/// How a switch is written in the log.
pub open spec fn written(on: bool) -> Seq<char> {
    if on {
        "true"@
    } else {
        "false"@
    }
}

/// Every event is logged under its own name, with what it is about.
pub proof fn law_events_are_logged_under_their_name(event: EventView)
    ensures
        event_entry(event).name == match event {
            EventView::PipeConnected => "acre_pipe_connected"@,
            EventView::PipeDisconnected => "acre_pipe_disconnected"@,
            EventView::QueueOverflow => "acre_queue_overflow"@,
            EventView::LocalTransmissionStarted(_) => "acre_local_transmission_started"@,
            EventView::LocalTransmissionStopped(_) => "acre_local_transmission_stopped"@,
            EventView::SoundSystemOverrideChanged(_) => "acre_sound_system_override"@,
            EventView::LocalMuteChanged(_) => "acre_local_mute"@,
            EventView::UserMuteChanged { .. } => "acre_user_mute"@,
            EventView::ResetRequested => "acre_reset"@,
            EventView::SoundPlaybackReady { .. } => "acre_sound_playback_ready"@,
            EventView::RejectedMessage(_) => "acre_rpc_rejected"@,
            EventView::PipeError(_) => "acre_pipe_error"@,
        },
        match event {
            EventView::LocalTransmissionStarted(t) => event_entry(event).message
                == "speaking_kind="@ + mode_name(t.speaking_kind),
            EventView::LocalTransmissionStopped(t) => event_entry(event).message
                == "speaking_kind="@ + mode_name(t.speaking_kind),
            EventView::SoundSystemOverrideChanged(on) => event_entry(event).message
                == "enabled="@ + written(on),
            EventView::LocalMuteChanged(on) => event_entry(event).message == "muted="@ + written(
                on,
            ),
            EventView::UserMuteChanged { voice_client_id, muted } => event_entry(event).message
                == "voice_client_id="@ + decimal::decimal(voice_client_id as nat) + " muted="@
                + written(muted),
            EventView::PipeConnected => event_entry(event).message
                == "ACRE2Arma connected to both named pipes"@,
            EventView::PipeDisconnected => event_entry(event).message
                == "ACRE2Arma disconnected; ACRE state was cleared"@,
            EventView::QueueOverflow => event_entry(event).message
                == "Control event queue overflow; reconnect required"@,
            EventView::ResetRequested => event_entry(event).message
                == "ACRE requested a control-state reset"@,
            _ => true,
        },
{
}

/// How a mode is written in the log.
pub open spec fn mode_name(mode: SpeakingKind) -> Seq<char> {
    match mode {
        SpeakingKind::Direct => "Direct"@,
        SpeakingKind::Radio => "Radio"@,
        SpeakingKind::Unknown => "Unknown"@,
        SpeakingKind::Intercom => "Intercom"@,
        SpeakingKind::Spectate => "Spectate"@,
        SpeakingKind::God => "God"@,
        SpeakingKind::Zeus => "Zeus"@,
    }
}

/// What the sound worker reports is logged with the sound's ID, and a failure
/// with its reason behind it as a warning.
pub proof fn law_reports_are_logged(p: PlaneView, report: ReportView)
    ensures
        ({
            let q = reported(p, report);
            let line = q.shared.log.last();
            let added = q.shared.log == p.shared.log.push(line);
            match report {
                ReportView::Loaded { generation, id, sample_count } => generation
                    == p.worker.sound_generation ==> added && line.level == LogLevel::Debug
                    && line.name == "acre_sound_prepared"@ && line.message == "id="@ + id
                    + " samples="@ + decimal::decimal(sample_count as nat),
                ReportView::LoadFailed { generation, id, reason } => generation
                    == p.worker.sound_generation ==> added && line.level == LogLevel::Warn
                    && line.name == "acre_sound_load_failed"@ && line.message == "id="@ + id
                    + " reason="@ + reason,
                ReportView::PlaybackFailed { generation, id, reason } => generation
                    == p.worker.sound_generation ==> added && line.level == LogLevel::Warn
                    && line.name == "acre_sound_playback_failed"@ && line.message == "id="@ + id
                    + " reason="@ + reason,
                ReportView::PlaybackReady { .. } => true,
            }
        }),
{
}

/// All that waits is taken in once, in the order in which it came: what the
/// sound worker reported is told to the game behind the replies of the control
/// plane.
pub proof fn law_reports_are_taken_in_order(
    p: PlaneView,
    reports: Seq<ReportView>,
    last: ReportView,
)
    ensures
        adapter_worker::reported_all(p, Seq::empty()) == p,
        adapter_worker::reported_all(p, reports.push(last)) == reported(
            adapter_worker::reported_all(p, reports),
            last,
        ),
        ({
            let q = adapter_worker::results_drained(p);
            q == adapter_worker::reported_all(
                PlaneView {
                    shared: SharedView { sound_results: Seq::empty(), ..p.shared },
                    ..p
                },
                p.shared.sound_results,
            )
        }),
{
    assert(reports.push(last).drop_last() =~= reports);
}

} // verus!
