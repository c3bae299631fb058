//! What a round does with what comes back, by what can be observed of it.

use crate::adapter::EventView;
use crate::adapter_laws::law_rounds_begin_by_giving_up_if_they_must;
use crate::adapter_worker::{
    begun, connection_seen, message_handled, peers_dispatched, pipe_lost, settled, telling,
    write_seen, PlaneView, WriteView,
};
use crate::codec::MessageView;
use crate::round::{stepped, AskView, RoundInputView, RoundPhase, RoundView};
use vstd::prelude::*;

verus! {

/// Whether the round goes on to read once more after so many reads: fewer than
/// 256 of them, with fewer than 256 replies waiting. Otherwise it takes in what
/// waits and writes, if there is anything to write.
pub open spec fn goes_on(
    p: PlaneView,
    reads: int,
    now: u64,
    next: RoundView,
    ask: AskView,
) -> bool {
    if reads < 256 && p.worker.outbound.len() < 256 {
        next.plane == p && next.phase == RoundPhase::Reading(reads as usize) && ask is Read
    } else {
        writes(settled(p, now), next, ask)
    }
}

/// Whether the round writes if the game is connected and a reply waits, and
/// rests otherwise.
pub open spec fn writes(p: PlaneView, next: RoundView, ask: AskView) -> bool {
    &&& next.plane == p
    &&& if p.worker.was_connected && p.worker.outbound.len() > 0 {
        next.phase is Writing && ask is Write
    } else {
        next.phase is Resting && ask is Rest
    }
}

/// A round begins with the question whether the pipes are connected, and gives
/// them up before that if it must.
pub proof fn law_rounds_begin_with_the_connection(p: PlaneView, now: u64)
    ensures
        ({
            let (next, step) = stepped(
                RoundView { plane: p, phase: RoundPhase::Resting },
                RoundInputView::Awake,
                now,
            );
            &&& next.phase is Connecting && step.ask is Connect
            &&& step.disconnect <==> p.shared.reset || p.worker.outbound.len() > 256
            &&& next.plane == begun(p).0
        }),
{
    law_rounds_begin_by_giving_up_if_they_must(p);
}

/// With the game connected a round takes in what waits, delivers the changes of
/// peers, and reads; with it gone, or not there, it rests.
pub proof fn law_connected_rounds_deliver_and_read(
    p: PlaneView,
    outcome: Result<bool, Seq<char>>,
    now: u64,
)
    ensures
        ({
            let (next, step) = stepped(
                RoundView { plane: p, phase: RoundPhase::Connecting },
                RoundInputView::Connection(outcome),
                now,
            );
            let (q, lost) = connection_seen(p, outcome);
            let (told, refusal) = peers_dispatched(settled(q, now));
            let there = outcome == Ok::<bool, Seq<char>>(true);
            &&& !there ==> next.phase is Resting && step.ask is Rest && next.plane == q
            &&& step.disconnect <==> outcome is Err || p.worker.was_connected && !there
            &&& there && refusal is None ==> goes_on(told, 0, now, next, step.ask)
            &&& there && refusal is Some ==> next.plane == told && next.phase is WordingPeers
                && step.ask == AskView::Word(refusal->0)
        }),
{
}

/// A message is handled, and counts as one read; its refusal is put into words
/// first and then told. What could not be delivered of the peers is told too
/// and costs no read.
pub proof fn law_messages_count_as_reads(
    p: PlaneView,
    reads: usize,
    message: MessageView,
    readings: Seq<Option<u32>>,
    clock: Option<Seq<char>>,
    words: Seq<char>,
    now: u64,
)
    ensures
        ({
            let (next, step) = stepped(
                RoundView { plane: p, phase: RoundPhase::Reading(reads) },
                RoundInputView::Message { message, readings, clock },
                now,
            );
            let (q, refusal) = message_handled(p, message, readings, clock, now);
            &&& !step.disconnect
            &&& refusal is None ==> goes_on(q, reads + 1, now, next, step.ask)
            &&& refusal is Some ==> next.plane == q && next.phase == RoundPhase::Wording(reads)
                && step.ask == AskView::Word(refusal->0)
        }),
        ({
            let (next, step) = stepped(
                RoundView { plane: p, phase: RoundPhase::Wording(reads) },
                RoundInputView::Words(words),
                now,
            );
            &&& !step.disconnect
            &&& goes_on(
                telling(p, EventView::RejectedMessage(words)),
                reads + 1,
                now,
                next,
                step.ask,
            )
        }),
        ({
            let (next, step) = stepped(
                RoundView { plane: p, phase: RoundPhase::WordingPeers },
                RoundInputView::Words(words),
                now,
            );
            &&& !step.disconnect
            &&& goes_on(
                telling(
                    p,
                    EventView::RejectedMessage(
                        "could not apply validated ACRE peer state: "@ + words,
                    ),
                ),
                0,
                now,
                next,
                step.ask,
            )
        }),
{
}

/// With nothing left to read a round writes. A failed read is told; a broken
/// pipe is given up, and nothing is written to it.
pub proof fn law_rounds_write_once_nothing_is_left(
    p: PlaneView,
    reads: usize,
    words: Seq<char>,
    now: u64,
)
    ensures
        ({
            let (next, step) = stepped(
                RoundView { plane: p, phase: RoundPhase::Reading(reads) },
                RoundInputView::Nothing,
                now,
            );
            !step.disconnect && writes(settled(p, now), next, step.ask)
        }),
        ({
            let (next, step) = stepped(
                RoundView { plane: p, phase: RoundPhase::Reading(reads) },
                RoundInputView::ReadFailure { broken: false, words },
                now,
            );
            !step.disconnect && writes(
                settled(telling(p, EventView::PipeError(words)), now),
                next,
                step.ask,
            )
        }),
        ({
            let (next, step) = stepped(
                RoundView { plane: p, phase: RoundPhase::Reading(reads) },
                RoundInputView::ReadFailure { broken: true, words },
                now,
            );
            step.disconnect && next.plane == settled(pipe_lost(p), now)
        }),
{
}

/// After a write the next reply follows, until none is left, the game does not
/// keep up, or the pipe breaks.
pub proof fn law_replies_follow_each_other(p: PlaneView, outcome: WriteView, now: u64)
    requires
        p.worker.outbound.len() > 0,
    ensures
        ({
            let (next, step) = stepped(
                RoundView { plane: p, phase: RoundPhase::Writing },
                RoundInputView::Write(outcome),
                now,
            );
            let q = write_seen(p, outcome).0;
            &&& next.plane == q
            &&& step.disconnect <==> outcome is Broken
            &&& outcome is Written || outcome is Failed ==> writes(q, next, step.ask)
            &&& outcome is WouldBlock || outcome is Broken ==> next.phase is Resting && step.ask
                is Rest
        }),
{
}

/// What was not asked for ends the round and changes nothing.
pub proof fn law_unasked_inputs_end_the_round(r: RoundView, input: RoundInputView, now: u64)
    requires
        !match r.phase {
            RoundPhase::Resting => input is Awake,
            RoundPhase::Connecting => input is Connection,
            RoundPhase::WordingPeers => input is Words,
            RoundPhase::Reading(_) => input is Message || input is Nothing || input
                is ReadFailure,
            RoundPhase::Wording(_) => input is Words,
            RoundPhase::Writing => input is Write,
        },
    ensures
        ({
            let (next, step) = stepped(r, input, now);
            next.plane == r.plane && next.phase is Resting && step.ask is Rest
                && !step.disconnect
        }),
{
}

} // verus!
