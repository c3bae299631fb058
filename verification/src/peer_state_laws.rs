//! What a sender's messages make of what is known of them.

use crate::control::followed;
use crate::control_laws::newer;
use crate::peer::{EnvelopeView, PayloadView, PeerSpeakingKind};
use crate::peer_dispatch::delivered;
use crate::peer_laws::{sound_header, sound_payload, law_sound_messages_are_the_accepted_ones};
use crate::peer_state::{
    self, applied, peer_in, DirectoryFault, DirectoryView, PeerActionView, PeerView,
};
use crate::session::{ActionView, SessionFault, SessionView};
use crate::session_laws::{agree, one_number};
use crate::transmission::{SpeakingKind, TransmissionView};
use vstd::prelude::*;

verus! {

/// Whether a peer's mode is the mode of the same name.
pub open spec fn same_mode(kind: PeerSpeakingKind, mode: SpeakingKind) -> bool {
    match kind {
        PeerSpeakingKind::Direct => mode == SpeakingKind::Direct,
        PeerSpeakingKind::Radio => mode == SpeakingKind::Radio,
        PeerSpeakingKind::Intercom => mode == SpeakingKind::Intercom,
        PeerSpeakingKind::God => mode == SpeakingKind::God,
        PeerSpeakingKind::Zeus => mode == SpeakingKind::Zeus,
    }
}

/// Whether the message counts for its sender: it is behind the last one.
pub open spec fn counts(peer: PeerView, envelope: EnvelopeView) -> bool {
    peer.order matches Some(last) ==> newer(envelope.header, last)
}

/// Whether the message begins another run of its sender.
pub open spec fn begins_anew(peer: PeerView, envelope: EnvelopeView) -> bool {
    peer.order matches Some(last) && envelope.header.generation > last.generation
}

/// What is known of the sender when the body is looked at: nothing that another
/// run of theirs said.
pub open spec fn as_known(peer: PeerView, envelope: EnvelopeView) -> PeerView {
    if begins_anew(peer, envelope) {
        PeerView { compatible: false, net_id: None, active_transmission: None, ..peer }
    } else {
        peer
    }
}

/// Whether the directory may hold the sender: every header in it is of its
/// scope.
pub open spec fn in_scope(directory: DirectoryView, id: u32) -> bool {
    peer_in(directory, id).order matches Some(last) ==> last.scope == directory.scope
}

/// Whether the body says something that its sender may say.
pub open spec fn is_due(known: PeerView, payload: PayloadView) -> bool {
    match payload {
        PayloadView::Hello { .. } => true,
        PayloadView::Reset => true,
        PayloadView::Identity { .. } => known.compatible,
        PayloadView::Start { net_id, .. } => known.compatible && known.net_id == Some(net_id),
        PayloadView::Stop { .. } => known.compatible,
    }
}

/// A message is accepted exactly if it is sound, of the directory's mission,
/// and either stale or due: nobody names themselves or transmits without a
/// handshake, and nobody transmits under a name that they did not give.
pub proof fn law_messages_are_accepted_when_due(
    directory: DirectoryView,
    id: u32,
    envelope: EnvelopeView,
)
    requires
        in_scope(directory, id),
    ensures
        ({
            let peer = peer_in(directory, id);
            let (after, answer) = applied(directory, id, envelope);
            let sound = sound_header(envelope.header) && sound_payload(envelope.payload);
            let ours = envelope.header.scope == directory.scope;
            let known = as_known(peer, envelope);
            &&& answer is Ok <==> sound && ours && (!counts(peer, envelope) || is_due(
                known,
                envelope.payload,
            ))
            &&& answer is Err ==> after == directory
            &&& sound && !ours ==> answer == Err::<Seq<PeerActionView>, DirectoryFault>(
                DirectoryFault::ScopeMismatch {
                    expected: directory.scope,
                    received: envelope.header.scope,
                },
            )
            &&& sound && ours && counts(peer, envelope) && !is_due(known, envelope.payload)
                ==> answer == Err::<Seq<PeerActionView>, DirectoryFault>(
                if known.compatible {
                    DirectoryFault::IdentityMismatch
                } else {
                    DirectoryFault::HandshakeRequired
                },
            )
        }),
{
    law_sound_messages_are_the_accepted_ones(envelope);
}

/// An accepted message that counts leaves of its sender exactly what it says: a
/// greeting makes them compatible, a name names them, a start is their
/// transmission in every field, a stop ends it if the mode is the same, and a
/// reset leaves nothing.
pub proof fn law_senders_are_what_they_say(
    directory: DirectoryView,
    id: u32,
    envelope: EnvelopeView,
)
    requires
        in_scope(directory, id),
        applied(directory, id, envelope).1 is Ok,
        counts(peer_in(directory, id), envelope),
    ensures
        ({
            let known = as_known(peer_in(directory, id), envelope);
            let after = peer_in(applied(directory, id, envelope).0, id);
            &&& after.order == Some(envelope.header)
            &&& match envelope.payload {
                PayloadView::Hello { .. } => after == (PeerView {
                    order: after.order,
                    compatible: true,
                    ..known
                }),
                PayloadView::Identity { net_id } => {
                    &&& after.compatible
                    &&& after.net_id == Some(net_id)
                    &&& after.active_transmission == if known.net_id == Some(net_id) {
                        known.active_transmission
                    } else {
                        None
                    }
                },
                PayloadView::Start { kind, net_id, radio_id, language_id, curve_scale } => {
                    &&& after.compatible
                    &&& after.net_id == Some(net_id)
                    &&& after.active_transmission is Some
                    &&& after.active_transmission->0.voice_client_id == id
                    &&& after.active_transmission->0.language_id == language_id
                    &&& after.active_transmission->0.net_id == net_id
                    &&& same_mode(kind, after.active_transmission->0.speaking_kind)
                    &&& after.active_transmission->0.radio_id == radio_id
                    &&& one_number(after.active_transmission->0.curve_scale, curve_scale)
                },
                PayloadView::Stop { kind } => {
                    &&& after.compatible && after.net_id == known.net_id
                    &&& after.active_transmission == match known.active_transmission {
                        Some(t) => if same_mode(kind, t.speaking_kind) {
                            None
                        } else {
                            Some(t)
                        },
                        None => None,
                    }
                },
                PayloadView::Reset => !after.compatible && after.net_id is None
                    && after.active_transmission is None,
            }
        }),
{
    law_sound_messages_are_the_accepted_ones(envelope);
}

/// Who follows the changes of an accepted message knows exactly the
/// transmission that the directory knows: every start finds none, and every
/// stop ends the one that is known.
pub proof fn law_changes_lead_to_what_is_known(
    directory: DirectoryView,
    id: u32,
    envelope: EnvelopeView,
)
    requires
        in_scope(directory, id),
        applied(directory, id, envelope).1 is Ok,
    ensures
        ({
            let before = peer_in(directory, id).active_transmission;
            let (after, answer) = applied(directory, id, envelope);
            followed(before, answer->Ok_0) == Some(peer_in(after, id).active_transmission)
        }),
{
    let peer = peer_in(directory, id);
    let (after, answer) = applied(directory, id, envelope);
    let changes = answer->Ok_0;
    let none = Seq::<PeerActionView>::empty();
    reveal_with_fuel(followed, 6);
    if changes.len() > 0 {
        let a = changes.drop_last();
        if a.len() > 0 {
            let b = a.drop_last();
            if b.len() > 0 {
                let c = b.drop_last();
                if c.len() > 0 {
                    assert(c.len() <= 1 ==> c.drop_last() =~= none);
                } else {
                    assert(c =~= none);
                }
            } else {
                assert(b =~= none);
            }
        } else {
            assert(a =~= none);
        }
    } else {
        assert(changes =~= none);
    }
    lemma_followed_clears(id, peer, changes);
}

proof fn lemma_followed_clears(id: u32, peer: PeerView, changes: Seq<PeerActionView>)
    ensures
        followed(peer.active_transmission, peer_state::clears(id, peer)) == Some(
            None::<TransmissionView>,
        ),
        followed(peer.active_transmission, Seq::empty()) == Some(peer.active_transmission),
{
    reveal_with_fuel(followed, 4);
    let told = peer_state::clears(id, peer);
    let none = Seq::<PeerActionView>::empty();
    assert(told.drop_last() =~= peer_state::stops(peer));
    if peer.active_transmission is Some {
        assert(peer_state::stops(peer).drop_last() =~= none);
    } else {
        assert(peer_state::stops(peer) =~= none);
    }
}

/// The game's session follows the changes: a start that it accepts is known in
/// it in every field, a stop and a departure end what is known, and an identity
/// changes nothing.
pub proof fn law_the_session_follows_the_changes(
    s: SessionView,
    t: TransmissionView,
    id: u32,
    net_id: Seq<char>,
)
    ensures
        ({
            let (after, answer) = delivered(s, PeerActionView::TransmissionStarted(t));
            answer is Ok ==> after.remote_transmissions.contains_key(t.voice_client_id) && agree(
                after.remote_transmissions[t.voice_client_id],
                t,
            )
        }),
        !delivered(
            s,
            PeerActionView::TransmissionStopped(t),
        ).0.remote_transmissions.contains_key(t.voice_client_id),
        !delivered(
            s,
            PeerActionView::Reset { voice_client_id: id },
        ).0.remote_transmissions.contains_key(id),
        delivered(s, PeerActionView::Identity { voice_client_id: id, net_id }) == (
            s,
            Ok::<Seq<ActionView>, SessionFault>(Seq::empty()),
        ),
{
}

/// A directory that forgets everybody tells of each of them, in the given
/// order, that they stopped what they transmitted and are gone.
pub proof fn law_everybody_forgotten_is_told_gone(
    peers: Map<u32, PeerView>,
    order: Seq<u32>,
    last: u32,
)
    ensures
        peer_state::clears_all(peers, Seq::empty()) == Seq::<PeerActionView>::empty(),
        peer_state::clears_all(peers, order.push(last)) == peer_state::clears_all(peers, order)
            + match peers[last].active_transmission {
            Some(t) => seq![
                PeerActionView::TransmissionStopped(t),
                PeerActionView::Reset { voice_client_id: last },
            ],
            None => seq![PeerActionView::Reset { voice_client_id: last }],
        },
{
    assert(order.push(last).drop_last() =~= order);
    let told = peer_state::clears(last, peers[last]);
    match peers[last].active_transmission {
        Some(t) => {
            assert(told =~= seq![
                PeerActionView::TransmissionStopped(t),
                PeerActionView::Reset { voice_client_id: last },
            ]);
        },
        None => {
            assert(told =~= seq![PeerActionView::Reset { voice_client_id: last }]);
        },
    }
}

} // verus!
