//! What full states do for their receiver, field by field.

use crate::control::{
    self, all_after_expiry, audible_of, expiry_stops, farewell, followed, known_of, new_state,
    received, RemoteView, StateView,
};
use crate::peer::{EnvelopeView, HeaderView, PayloadView, PeerSpeakingKind};
use crate::peer_laws::{
    is_token, law_sound_messages_are_the_accepted_ones, sound_header, sound_start,
};
use crate::peer_state::PeerActionView;
use crate::session_laws::{agree, one_number};
use crate::speaking_laws::has_value;
use crate::transmission::{self, SpeakingKind, TransmissionView};
use vstd::prelude::*;

verus! {

/// Whether a peer's mode stands for the mode.
pub open spec fn means(kind: PeerSpeakingKind, mode: SpeakingKind) -> bool {
    match mode {
        SpeakingKind::Direct => kind == PeerSpeakingKind::Direct,
        SpeakingKind::Radio => kind == PeerSpeakingKind::Radio,
        SpeakingKind::Intercom => kind == PeerSpeakingKind::Intercom,
        _ => false,
    }
}

/// Whether the transmission is what the state announces for its sender.
pub open spec fn announces(state: StateView, sender: u32, t: Option<TransmissionView>) -> bool {
    match (state.active, t) {
        (None, None) => true,
        (
            Some(PayloadView::Start { kind, net_id, radio_id, language_id, curve_scale }),
            Some(t),
        ) => {
            &&& t.voice_client_id == sender
            &&& t.language_id == language_id
            &&& t.net_id == net_id
            &&& means(kind, t.speaking_kind)
            &&& t.radio_id == radio_id
            &&& one_number(t.curve_scale, curve_scale)
        },
        _ => false,
    }
}

/// Whether the header comes behind the other one: in a later generation, or in
/// the same one under a higher number.
pub open spec fn newer(header: HeaderView, last: HeaderView) -> bool {
    header.generation > last.generation || header.generation == last.generation
        && header.sequence > last.sequence
}

/// Whether the state is news of its sender.
pub open spec fn is_news(peers: Map<u32, RemoteView>, sender: u32, state: StateView) -> bool {
    peers.contains_key(sender) ==> newer(state.header, peers[sender].header)
}

/// The transmission that the sender is known to have.
pub open spec fn transmitting(peers: Map<u32, RemoteView>, sender: u32) -> Option<
    TransmissionView,
> {
    if peers.contains_key(sender) {
        peers[sender].active
    } else {
        None
    }
}

/// Two transmissions count as the same exactly if they agree in the speaker,
/// the language, the net ID, the mode, the radio and the curve scale.
pub proof fn law_the_same_transmission_agrees_in_every_field(
    a: TransmissionView,
    b: TransmissionView,
)
    ensures
        transmission::same_transmission(a, b) <==> agree(a, b),
        control::same_active(Some(a), Some(b)) <==> agree(a, b),
        !control::same_active(Some(a), None) && !control::same_active(None, Some(a)),
        control::same_active(None, None),
{
}

/// Who follows the changes of an accepted state ends up with exactly the
/// transmission that the state announces: same speaker, language, net ID, mode,
/// radio and curve scale. The same is remembered of the sender, under the
/// state's header and net ID, and nothing changes for anybody else.
pub proof fn law_states_leave_the_announced_transmission(
    peers: Map<u32, RemoteView>,
    sender: u32,
    scope: Seq<char>,
    state: StateView,
    now: u64,
)
    requires
        received(peers, sender, scope, state, now).1 is Ok,
        is_news(peers, sender, state),
    ensures
        ({
            let (after, outcome) = received(peers, sender, scope, state, now);
            let left = followed(transmitting(peers, sender), outcome->Ok_0);
            &&& left is Some
            &&& announces(state, sender, left->0)
            &&& after.dom() == peers.dom().insert(sender)
            &&& announces(state, sender, after[sender].active)
            &&& after[sender].header == state.header
            &&& after[sender].net_id == state.net_id
            &&& after[sender].refreshed == now
            &&& forall|id: u32| id != sender && peers.contains_key(id) ==> #[trigger] after[id]
                == peers[id]
        }),
{
    let active = control::state_transmission(state, sender)->Ok_0;
    control::law_changes_pair_starts_and_stops(known_of(peers, sender), sender, state, active);
    let after = received(peers, sender, scope, state, now).0;
    assert(after.dom() =~= peers.dom().insert(sender));
}

/// An accepted state tells who its sender is exactly if the sender was unknown,
/// comes in another generation or under another net ID; and then their
/// transmission is ended and begun again, with the identity in between. A
/// sender who stays the same and goes on with what they transmit gives no
/// change at all.
pub proof fn law_states_tell_only_what_changed(
    peers: Map<u32, RemoteView>,
    sender: u32,
    scope: Seq<char>,
    state: StateView,
    now: u64,
)
    requires
        received(peers, sender, scope, state, now).1 is Ok,
        is_news(peers, sender, state),
    ensures
        ({
            let (after, outcome) = received(peers, sender, scope, state, now);
            let changes = outcome->Ok_0;
            let before = transmitting(peers, sender);
            let identity = PeerActionView::Identity {
                voice_client_id: sender,
                net_id: state.net_id,
            };
            let stranger = !peers.contains_key(sender) || peers[sender].header.generation
                != state.header.generation || peers[sender].net_id != state.net_id;
            let goes_on = before is Some && after[sender].active is Some && agree(
                before->0,
                after[sender].active->0,
            );
            let ended = if before is Some && (stranger || !goes_on) {
                seq![PeerActionView::TransmissionStopped(before->0)]
            } else {
                Seq::empty()
            };
            let begun = if after[sender].active is Some && (stranger || !goes_on) {
                seq![PeerActionView::TransmissionStarted(after[sender].active->0)]
            } else {
                Seq::empty()
            };
            let told = if stranger {
                seq![identity]
            } else {
                Seq::empty()
            };
            changes == ended + told + begun
        }),
{
    let (after, outcome) = received(peers, sender, scope, state, now);
    let changes = outcome->Ok_0;
    match (transmitting(peers, sender), after[sender].active) {
        (Some(a), Some(b)) => {
            law_the_same_transmission_agrees_in_every_field(a, b);
        },
        _ => {},
    }
    let none = Seq::<PeerActionView>::empty();
    assert(none + none =~= none);
}

/// A state is accepted exactly if it is sound and of the receiver's mission,
/// and either comes too late, which changes nothing, or finds room for its
/// sender.
pub proof fn law_states_are_accepted_for_a_reason(
    peers: Map<u32, RemoteView>,
    sender: u32,
    scope: Seq<char>,
    state: StateView,
    now: u64,
)
    ensures
        ({
            let (after, outcome) = received(peers, sender, scope, state, now);
            &&& outcome is Ok <==> {
                &&& sound_state(state)
                &&& state.header.scope == scope
                &&& peers.contains_key(sender) || peers.len() < 128
            }
            &&& outcome is Err || !is_news(peers, sender, state) ==> after == peers
            &&& outcome is Ok && !is_news(peers, sender, state) ==> outcome->Ok_0
                == Seq::<PeerActionView>::empty()
        }),
{
    law_sound_states_are_the_accepted_ones(state);
}

/// Whether a state may travel: its transmission is its own, in a mode that
/// needs no authorization.
pub open spec fn sound_state(state: StateView) -> bool {
    &&& sound_header(state.header)
    &&& state.acre_version == "2.14.0.1064"@
    &&& state.net_id.len() > 0
    &&& is_token(state.net_id, 128)
    &&& match state.active {
        None => true,
        Some(PayloadView::Start { kind, net_id, radio_id, curve_scale, .. }) => {
            &&& net_id == state.net_id
            &&& kind != PeerSpeakingKind::God && kind != PeerSpeakingKind::Zeus
            &&& sound_start(kind, net_id, radio_id, curve_scale)
        },
        _ => false,
    }
}

/// Exactly the sound states pass.
pub proof fn law_sound_states_are_the_accepted_ones(state: StateView)
    ensures
        control::state_words(state) is None <==> sound_state(state),
{
    law_sound_messages_are_the_accepted_ones(
        EnvelopeView {
            header: state.header,
            payload: PayloadView::Hello { acre_version: state.acre_version },
        },
    );
    law_sound_messages_are_the_accepted_ones(
        EnvelopeView {
            header: state.header,
            payload: PayloadView::Identity { net_id: state.net_id },
        },
    );
    match state.active {
        Some(payload) => {
            law_sound_messages_are_the_accepted_ones(
                EnvelopeView { header: state.header, payload },
            );
        },
        None => {},
    }
}

/// A local state is announced exactly if everything in it may travel, under the
/// given header and identity and with the given transmission. Nobody announces
/// God or Zeus.
pub proof fn law_local_states_are_announced_as_they_are(
    scope: Seq<char>,
    generation: u64,
    sequence: u64,
    net_id: Seq<char>,
    active: Option<TransmissionView>,
    sender: u32,
)
    requires
        active matches Some(t) ==> t.voice_client_id == sender,
    ensures
        ({
            let built = new_state(scope, generation, sequence, net_id, active);
            let header = HeaderView { version: 1, scope, generation, sequence };
            &&& built matches Ok(state) ==> {
                &&& sound_state(state)
                &&& state.header == header
                &&& state.net_id == net_id
                &&& announces(state, sender, active)
            }
            &&& built is Ok <==> {
                &&& sound_header(header)
                &&& net_id.len() > 0
                &&& is_token(net_id, 128)
                &&& active matches Some(t) ==> {
                    &&& t.net_id == net_id
                    &&& is_token(t.radio_id, 128)
                    &&& has_value(t.curve_scale)
                    &&& match t.speaking_kind {
                        SpeakingKind::Radio => t.radio_id.len() > 0,
                        SpeakingKind::Direct | SpeakingKind::Intercom => t.radio_id.len() == 0,
                        _ => false,
                    }
                }
            }
        }),
{
    let header = HeaderView { version: 1, scope, generation, sequence };
    let state = StateView {
        header,
        acre_version: "2.14.0.1064"@,
        net_id,
        active: match active {
            Some(t) => Some(control::announcement(t)),
            None => None,
        },
    };
    law_sound_states_are_the_accepted_ones(state);
    law_sound_messages_are_the_accepted_ones(
        EnvelopeView { header, payload: PayloadView::Reset },
    );
}

/// Whether the peer's last state is a quarter of a second old.
pub open spec fn outlived(peer: RemoteView, now: u64) -> bool {
    now - peer.refreshed >= 250_000_000
}

/// A transmission that is not refreshed for a quarter of a second ends, and
/// until then its sender may be heard.
pub proof fn law_leases_last_a_quarter_of_a_second(
    peers: Map<u32, RemoteView>,
    id: u32,
    now: u64,
)
    ensures
        ({
            let after = all_after_expiry(peers, now);
            let audible = audible_of(peers, now);
            &&& after.dom() == peers.dom()
            &&& peers.contains_key(id) ==> after[id] == RemoteView {
                active: if outlived(peers[id], now) {
                    None
                } else {
                    peers[id].active
                },
                ..peers[id]
            }
            &&& audible.contains_key(id) <==> peers.contains_key(id) && peers[id].active is Some
                && !outlived(peers[id], now)
            &&& audible.contains_key(id) ==> audible[id] == peers[id].refreshed
        }),
{
    assert(all_after_expiry(peers, now).dom() =~= peers.dom());
}

/// Every sender whose transmission outlived its lease is told to have stopped
/// with that very transmission, and nobody else is.
pub proof fn law_outlived_transmissions_are_told_to_stop(
    peers: Map<u32, RemoteView>,
    order: Seq<u32>,
    now: u64,
    change: PeerActionView,
)
    ensures
        expiry_stops(peers, order, now).contains(change) <==> exists|i: int|
            0 <= i < order.len() && peers[#[trigger] order[i]].active is Some && outlived(
                peers[order[i]],
                now,
            ) && change == PeerActionView::TransmissionStopped(peers[order[i]].active->0),
    decreases order.len(),
{
    if order.len() > 0 {
        let head = order.drop_last();
        law_outlived_transmissions_are_told_to_stop(peers, head, now, change);
        let stops = expiry_stops(peers, order, now);
        let earlier = expiry_stops(peers, head, now);
        assert(forall|i: int| 0 <= i < head.len() ==> #[trigger] order[i] == head[i]);
        assert(forall|i: int| 0 <= i < earlier.len() ==> #[trigger] stops[i] == earlier[i]);
        if stops.contains(change) {
            let k = choose|k: int| 0 <= k < stops.len() && stops[k] == change;
            if k < earlier.len() {
                assert(earlier.contains(change));
                let i = choose|i: int|
                    0 <= i < head.len() && peers[#[trigger] head[i]].active is Some && outlived(
                        peers[head[i]],
                        now,
                    ) && change == PeerActionView::TransmissionStopped(peers[head[i]].active->0);
                assert(order[i] == head[i]);
            } else {
                assert(order[order.len() - 1] == order.last());
            }
        }
        if exists|i: int|
            0 <= i < order.len() && peers[#[trigger] order[i]].active is Some && outlived(
                peers[order[i]],
                now,
            ) && change == PeerActionView::TransmissionStopped(peers[order[i]].active->0) {
            let i = choose|i: int|
                0 <= i < order.len() && peers[#[trigger] order[i]].active is Some && outlived(
                    peers[order[i]],
                    now,
                ) && change == PeerActionView::TransmissionStopped(peers[order[i]].active->0);
            if i < head.len() {
                assert(head[i] == order[i]);
                assert(earlier.contains(change));
                let k = choose|k: int| 0 <= k < earlier.len() && earlier[k] == change;
                assert(stops[k] == change);
            } else {
                assert(stops[stops.len() - 1] == change);
            }
        }
    }
}

/// A sender who leaves is told to have stopped what they transmit, and then to
/// be gone. One who is unknown leaves without a word.
pub proof fn law_departures_end_the_transmission(peer: RemoteView, sender: u32)
    ensures
        farewell(None, sender) == Seq::<PeerActionView>::empty(),
        followed(peer.active, farewell(Some(peer), sender)) == Some(None::<TransmissionView>),
        farewell(Some(peer), sender).last() == (PeerActionView::Reset { voice_client_id: sender }),
        farewell(Some(peer), sender).len() == if peer.active is Some {
            2
        } else {
            1int
        },
{
    reveal_with_fuel(followed, 4);
    let told = farewell(Some(peer), sender);
    if peer.active is Some {
        assert(told.drop_last() =~= seq![PeerActionView::TransmissionStopped(peer.active->0)]);
        assert(told.drop_last().drop_last() =~= Seq::<PeerActionView>::empty());
    } else {
        assert(told.drop_last() =~= Seq::<PeerActionView>::empty());
    }
}

/// Whoever is forgotten is told gone, and nobody else: of every sender in the
/// list who is known there is a farewell, and all of it is about them.
pub proof fn law_everybody_forgotten_is_told_gone(
    peers: Map<u32, RemoteView>,
    order: Seq<u32>,
    id: u32,
)
    ensures
        control::farewells(peers, order).contains(
            PeerActionView::Reset { voice_client_id: id },
        ) <==> order.contains(id) && peers.contains_key(id),
    decreases order.len(),
{
    let gone = PeerActionView::Reset { voice_client_id: id };
    let told = control::farewells(peers, order);
    if order.len() > 0 {
        let head = order.drop_last();
        let last = order.last();
        law_everybody_forgotten_is_told_gone(peers, head, id);
        let earlier = control::farewells(peers, head);
        let farewell = farewell(known_of(peers, last), last);
        assert(told == earlier + farewell);
        assert(order[order.len() - 1] == last);
        if order.contains(id) && last != id {
            let k = choose|k: int| 0 <= k < order.len() && order[k] == id;
            assert(head[k] == id);
        }
        if head.contains(id) {
            let k = choose|k: int| 0 <= k < head.len() && head[k] == id;
            assert(order[k] == id);
        }
        if earlier.contains(gone) {
            let k = choose|k: int| 0 <= k < earlier.len() && earlier[k] == gone;
            assert(told[k] == gone);
        }
        if told.contains(gone) {
            let k = choose|k: int| 0 <= k < told.len() && told[k] == gone;
            if k < earlier.len() {
                assert(earlier[k] == gone);
            } else {
                assert(farewell[k - earlier.len()] == gone);
            }
        }
        if last == id && peers.contains_key(id) {
            assert(farewell.last() == gone);
            assert(told[told.len() - 1] == gone);
        }
    }
}

/// A refused state is refused in words that say why.
pub proof fn law_refused_states_are_told_why(
    peers: Map<u32, RemoteView>,
    sender: u32,
    scope: Seq<char>,
    state: StateView,
    now: u64,
)
    requires
        sound_state(state),
    ensures
        state.header.scope != scope ==> received(peers, sender, scope, state, now).1 == Err::<
            Seq<PeerActionView>,
            Seq<char>,
        >("mission scope mismatch"@),
        state.header.scope == scope && !peers.contains_key(sender) && peers.len() >= 128
            ==> received(peers, sender, scope, state, now).1 == Err::<
            Seq<PeerActionView>,
            Seq<char>,
        >("peer capacity reached"@),
{
    law_sound_states_are_the_accepted_ones(state);
}

/// A transmission that a state may not carry is refused in words that say why.
pub proof fn law_foreign_transmissions_are_told_why(state: StateView, payload: PayloadView)
    ensures
        !(payload is Start) || payload->Start_net_id != state.net_id ==> control::active_words(
            state,
            payload,
        ) == Some("state requires a matching START"@),
        payload is Start && payload->Start_net_id == state.net_id && (payload->Start_kind
            == PeerSpeakingKind::God || payload->Start_kind == PeerSpeakingKind::Zeus)
            ==> control::active_words(state, payload) == Some(
            "privileged peer mode unsupported"@,
        ),
{
}

} // verus!
