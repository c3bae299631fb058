//! Delivery of accepted peer changes to the session that owns the pipe.

use crate::model;
use crate::peer_state::{PeerActionView, PeerStateAction};
use crate::session::{self, AcreAction, AcreSession, AcreSessionError, ActionView, SessionView};
use vstd::prelude::*;

verus! {

/// What one accepted change does to the session. An identity travels with the
/// transmissions; a reset ends the sender's transmission even if a stop went
/// before.
pub open spec fn delivered(s: SessionView, change: PeerActionView) -> session::Step {
    match change {
        PeerActionView::Identity { .. } => (s, Ok(Seq::empty())),
        PeerActionView::TransmissionStarted(started) => session::remote_started_step(s, started),
        PeerActionView::TransmissionStopped(stopped) => session::remote_stopped_step(
            s,
            stopped.voice_client_id,
        ),
        PeerActionView::Reset { voice_client_id } => session::remote_stopped_step(
            s,
            voice_client_id,
        ),
    }
}

/// What a list of changes does to the session, up to the first refusal.
pub open spec fn delivered_all(s: SessionView, changes: Seq<PeerActionView>) -> session::Step
    decreases changes.len(),
{
    if changes.len() == 0 {
        (s, Ok(Seq::empty()))
    } else {
        match delivered_all(s, changes.drop_last()) {
            (before, Err(fault)) => (before, Err(fault)),
            (before, Ok(earlier)) => match delivered(before, changes.last()) {
                (after, Err(fault)) => (after, Err(fault)),
                (after, Ok(actions)) => (after, Ok(earlier + actions)),
            },
        }
    }
}

proof fn lemma_refusal_is_final(s: SessionView, changes: Seq<PeerActionView>, end: int)
    requires
        0 <= end <= changes.len(),
        delivered_all(s, changes.take(end)).1 is Err,
    ensures
        delivered_all(s, changes) == delivered_all(s, changes.take(end)),
    decreases changes.len() - end,
{
    if end < changes.len() {
        assert(changes.take(end + 1).drop_last() =~= changes.take(end));
        lemma_refusal_is_final(s, changes, end + 1);
    } else {
        assert(changes.take(end) =~= changes);
    }
}

/// Applies changes that a [`crate::peer_state::PeerDirectory`] accepted.
pub fn apply_peer_state_actions(session: &mut AcreSession, changes: Vec<PeerStateAction>) -> (answer:
    Result<Vec<AcreAction>, AcreSessionError>)
    ensures
        (final(session)@, model::list_outcome(answer)) == delivered_all(
            old(session)@,
            model::views(changes@),
        ),
{
    broadcast use model::group_views;

    let ghost all = model::views(changes@);
    let ghost before = session@;
    let mut actions: Vec<AcreAction> = Vec::new();
    let mut i: usize = 0;
    assert(all.take(0) =~= Seq::<PeerActionView>::empty());
    while i < changes.len()
        invariant
            i <= changes@.len(),
            all == model::views(changes@),
            before == old(session)@,
            delivered_all(before, all.take(i as int)) == (
                session@,
                Ok::<Seq<ActionView>, session::SessionFault>(model::views(actions@)),
            ),
        decreases changes@.len() - i,
    {
        broadcast use model::group_views;

        proof {
            assert(all.take(i + 1).drop_last() =~= all.take(i as int));
            assert(all.take(i + 1).last() == changes@[i as int]@);
        }
        let outcome: Result<Vec<AcreAction>, AcreSessionError> = match &changes[i] {
            PeerStateAction::Identity { voice_client_id, net_id } => Ok(Vec::new()),
            PeerStateAction::TransmissionStarted(started) => session.remote_started(started),
            PeerStateAction::TransmissionStopped(stopped) => session.remote_stopped(
                stopped.voice_client_id(),
            ),
            PeerStateAction::Reset { voice_client_id } => session.remote_stopped(*voice_client_id),
        };
        match outcome {
            Ok(more) => {
                let mut more: Vec<AcreAction> = more;
                let ghost earlier = actions@;
                let ghost added = more@;
                actions.append(&mut more);
                assert(actions@ =~= earlier + added);
            },
            Err(error) => {
                proof {
                    lemma_refusal_is_final(before, all, i + 1);
                }
                return Err(error);
            },
        }
        i += 1;
    }
    assert(all.take(i as int) =~= all);
    Ok(actions)
}

/// A stop followed by a reset of the same sender tells the game at most once
/// that the sender ceased to transmit: the reset adds nothing.
pub proof fn law_stop_and_reset_stop_once(
    s: SessionView,
    stopped: crate::transmission::TransmissionView,
)
    ensures
        ({
            let id = stopped.voice_client_id;
            delivered_all(
                s,
                seq![
                    PeerActionView::TransmissionStopped(stopped),
                    PeerActionView::Reset { voice_client_id: id },
                ],
            ) == session::remote_stopped_step(s, id)
        }),
{
    let id = stopped.voice_client_id;
    let stop = PeerActionView::TransmissionStopped(stopped);
    let reset = PeerActionView::Reset { voice_client_id: id };
    let both = seq![stop, reset];
    assert(both.drop_last() =~= seq![stop]);
    assert(seq![stop].drop_last() =~= Seq::<PeerActionView>::empty());
    let first = session::remote_stopped_step(s, id);
    assert(delivered_all(s, Seq::empty()) == (
        s,
        Ok::<Seq<ActionView>, session::SessionFault>(Seq::empty()),
    ));
    assert(delivered_all(s, seq![stop]) == first) by {
        if first.1 is Ok {
            assert(Seq::<ActionView>::empty() + first.1->Ok_0 =~= first.1->Ok_0);
        }
    }
    if first.1 is Ok {
        assert(first.1->Ok_0 + Seq::<ActionView>::empty() =~= first.1->Ok_0);
    }
}

} // verus!
