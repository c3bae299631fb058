//! Identity and transmission of each remote peer, by the sender that Mumble
//! names.

use crate::model;
use crate::order::{self, ascending_keys};
use crate::peer::{
    self, AcrePeerError, EnvelopeView, HeaderView, PayloadView, PeerEnvelope, PeerFault,
    PeerHeader, PeerOrderDecision, PeerOrderTracker, PeerPayload, PeerSpeakingKind,
};
use crate::session::{self, AcreSessionError, SessionFault};
use crate::text::same_text;
use crate::transmission::{
    self, RemoteTransmission, SpeakingKind, Transmission, TransmissionView,
};
use std::collections::HashMap;
use vstd::prelude::*;

verus! {

/// An accepted change of one sender's state.
#[derive(Debug, PartialEq)]
pub enum PeerStateAction {
    Identity { voice_client_id: u32, net_id: String },
    TransmissionStarted(RemoteTransmission),
    TransmissionStopped(RemoteTransmission),
    Reset { voice_client_id: u32 },
}

/// The model of a change.
#[verifier::ext_equal]
pub enum PeerActionView {
    Identity { voice_client_id: u32, net_id: Seq<char> },
    TransmissionStarted(TransmissionView),
    TransmissionStopped(TransmissionView),
    Reset { voice_client_id: u32 },
}

/// Handshake, identity, order and transmission of every sender within one
/// mission.
#[derive(Debug)]
pub struct PeerDirectory {
    scope: String,
    peers: HashMap<u32, PeerState>,
}

#[derive(Debug)]
struct PeerState {
    order: PeerOrderTracker,
    compatible: bool,
    net_id: Option<String>,
    active_transmission: Option<RemoteTransmission>,
}

/// The model of one sender's state.
#[verifier::ext_equal]
pub struct PeerView {
    pub order: Option<HeaderView>,
    pub compatible: bool,
    pub net_id: Option<Seq<char>>,
    pub active_transmission: Option<TransmissionView>,
}

/// The model of a directory.
#[verifier::ext_equal]
pub struct DirectoryView {
    pub scope: Seq<char>,
    pub peers: Map<u32, PeerView>,
}

/// Why a peer message was refused beyond its own validity.
#[derive(Debug, PartialEq)]
pub enum PeerDirectoryError {
    Peer(AcrePeerError),
    Session(AcreSessionError),
    ScopeMismatch { expected: String, received: String },
    HandshakeRequired,
    IdentityMismatch,
}

/// The model of a refusal.
#[verifier::ext_equal]
pub enum DirectoryFault {
    Peer(PeerFault),
    Session(SessionFault),
    ScopeMismatch { expected: Seq<char>, received: Seq<char> },
    HandshakeRequired,
    IdentityMismatch,
}

impl View for PeerStateAction {
    type V = PeerActionView;

    open spec fn view(&self) -> PeerActionView {
        match *self {
            PeerStateAction::Identity { voice_client_id, net_id } => PeerActionView::Identity {
                voice_client_id,
                net_id: net_id@,
            },
            PeerStateAction::TransmissionStarted(started) => PeerActionView::TransmissionStarted(
                started@,
            ),
            PeerStateAction::TransmissionStopped(stopped) => PeerActionView::TransmissionStopped(
                stopped@,
            ),
            PeerStateAction::Reset { voice_client_id } => PeerActionView::Reset {
                voice_client_id,
            },
        }
    }
}

impl View for PeerDirectoryError {
    type V = DirectoryFault;

    open spec fn view(&self) -> DirectoryFault {
        match *self {
            PeerDirectoryError::Peer(error) => DirectoryFault::Peer(error@),
            PeerDirectoryError::Session(error) => DirectoryFault::Session(error@),
            PeerDirectoryError::ScopeMismatch { expected, received } =>
                DirectoryFault::ScopeMismatch { expected: expected@, received: received@ },
            PeerDirectoryError::HandshakeRequired => DirectoryFault::HandshakeRequired,
            PeerDirectoryError::IdentityMismatch => DirectoryFault::IdentityMismatch,
        }
    }
}

impl View for PeerState {
    type V = PeerView;

    closed spec fn view(&self) -> PeerView {
        PeerView {
            order: self.order@,
            compatible: self.compatible,
            net_id: model::optional(self.net_id),
            active_transmission: model::optional(self.active_transmission),
        }
    }
}

impl View for PeerDirectory {
    type V = DirectoryView;

    closed spec fn view(&self) -> DirectoryView {
        DirectoryView {
            scope: self.scope@,
            peers: self.peers@.map_values(|peer: PeerState| peer@),
        }
    }
}

/// The session's mode for a mode that peers announce.
pub open spec fn kind_of(kind: PeerSpeakingKind) -> SpeakingKind {
    match kind {
        PeerSpeakingKind::Direct => SpeakingKind::Direct,
        PeerSpeakingKind::Radio => SpeakingKind::Radio,
        PeerSpeakingKind::Intercom => SpeakingKind::Intercom,
        PeerSpeakingKind::God => SpeakingKind::God,
        PeerSpeakingKind::Zeus => SpeakingKind::Zeus,
    }
}

/// A sender of whom nothing is known.
pub open spec fn unknown_peer() -> PeerView {
    PeerView { order: None, compatible: false, net_id: None, active_transmission: None }
}

/// The end of the sender's transmission, if there is one.
pub open spec fn stops(peer: PeerView) -> Seq<PeerActionView> {
    match peer.active_transmission {
        Some(active) => seq![PeerActionView::TransmissionStopped(active)],
        None => Seq::empty(),
    }
}

/// What forgetting the sender entails.
pub open spec fn clears(id: u32, peer: PeerView) -> Seq<PeerActionView> {
    stops(peer).push(PeerActionView::Reset { voice_client_id: id })
}

/// The sender without handshake, identity and transmission.
pub open spec fn cleared(peer: PeerView) -> PeerView {
    PeerView { compatible: false, net_id: None, active_transmission: None, ..peer }
}

/// What the body of an accepted message does to its sender.
pub open spec fn payload_step(id: u32, peer: PeerView, payload: PayloadView) -> Result<
    (PeerView, Seq<PeerActionView>),
    DirectoryFault,
> {
    match payload {
        PayloadView::Hello { .. } => Ok((PeerView { compatible: true, ..peer }, Seq::empty())),
        PayloadView::Identity { net_id } => if !peer.compatible {
            Err(DirectoryFault::HandshakeRequired)
        } else if peer.net_id == Some(net_id) {
            Ok((peer, Seq::empty()))
        } else {
            Ok(
                (
                    PeerView { net_id: Some(net_id), active_transmission: None, ..peer },
                    stops(peer).push(PeerActionView::Identity { voice_client_id: id, net_id }),
                ),
            )
        },
        PayloadView::Start { kind, net_id, radio_id, language_id, curve_scale } => {
            let next = TransmissionView {
                voice_client_id: id,
                language_id,
                net_id,
                speaking_kind: kind_of(kind),
                radio_id,
                curve_scale,
            };
            if !peer.compatible {
                Err(DirectoryFault::HandshakeRequired)
            } else if peer.net_id != Some(net_id) {
                Err(DirectoryFault::IdentityMismatch)
            } else if session::new_transmission(next) is Err {
                Err(DirectoryFault::Session(session::new_transmission(next)->Err_0))
            } else if peer.active_transmission is Some && transmission::same_transmission(
                peer.active_transmission->0,
                next,
            ) {
                Ok((peer, Seq::empty()))
            } else {
                Ok(
                    (
                        PeerView { active_transmission: Some(next), ..peer },
                        stops(peer).push(PeerActionView::TransmissionStarted(next)),
                    ),
                )
            }
        },
        PayloadView::Stop { kind } => if !peer.compatible {
            Err(DirectoryFault::HandshakeRequired)
        } else if peer.active_transmission is Some
            && peer.active_transmission->0.speaking_kind == kind_of(kind) {
            Ok((PeerView { active_transmission: None, ..peer }, stops(peer)))
        } else {
            Ok((peer, Seq::empty()))
        },
        PayloadView::Reset => Ok((cleared(peer), clears(id, peer))),
    }
}

/// Whether the header begins another stream of the sender.
pub open spec fn begins_stream(peer: PeerView, header: HeaderView) -> bool {
    let decision = peer::order_decision(peer.order, header);
    decision == PeerOrderDecision::AcceptedNewGeneration || decision
        == PeerOrderDecision::AcceptedNewScope
}

/// What a valid message does to its sender: a stale one nothing; one that
/// begins another stream clears the sender first.
pub open spec fn peer_step(id: u32, peer: PeerView, envelope: EnvelopeView) -> Result<
    (PeerView, Seq<PeerActionView>),
    DirectoryFault,
> {
    let ordered = PeerView { order: peer::observed(peer.order, envelope.header), ..peer };
    if peer::order_decision(peer.order, envelope.header) == PeerOrderDecision::RejectedStale {
        Ok((peer, Seq::empty()))
    } else if begins_stream(peer, envelope.header) {
        match payload_step(id, cleared(ordered), envelope.payload) {
            Ok((after, actions)) => Ok((after, clears(id, peer) + actions)),
            Err(fault) => Err(fault),
        }
    } else {
        payload_step(id, ordered, envelope.payload)
    }
}

/// The sender's state in a directory.
pub open spec fn peer_in(directory: DirectoryView, id: u32) -> PeerView {
    if directory.peers.contains_key(id) {
        directory.peers[id]
    } else {
        unknown_peer()
    }
}

/// What a message attributed to a sender does: the directory afterwards, and
/// the changes or the refusal. A refusal changes nothing.
pub open spec fn applied(directory: DirectoryView, id: u32, envelope: EnvelopeView) -> (
    DirectoryView,
    Result<Seq<PeerActionView>, DirectoryFault>,
) {
    match peer::envelope_fault(envelope) {
        Some(fault) => (directory, Err(DirectoryFault::Peer(fault))),
        None => if envelope.header.scope != directory.scope {
            (
                directory,
                Err(
                    DirectoryFault::ScopeMismatch {
                        expected: directory.scope,
                        received: envelope.header.scope,
                    },
                ),
            )
        } else {
            match peer_step(id, peer_in(directory, id), envelope) {
                Err(fault) => (directory, Err(fault)),
                Ok((after, actions)) => (
                    DirectoryView { peers: directory.peers.insert(id, after), ..directory },
                    Ok(actions),
                ),
            }
        },
    }
}

/// What forgetting the senders in the given order entails.
pub open spec fn clears_all(peers: Map<u32, PeerView>, order: Seq<u32>) -> Seq<PeerActionView>
    decreases order.len(),
{
    if order.len() == 0 {
        Seq::empty()
    } else {
        clears_all(peers, order.drop_last()) + clears(order.last(), peers[order.last()])
    }
}

fn speaking_kind(kind: PeerSpeakingKind) -> (mode: SpeakingKind)
    ensures
        mode == kind_of(kind),
{
    match kind {
        PeerSpeakingKind::Direct => SpeakingKind::Direct,
        PeerSpeakingKind::Radio => SpeakingKind::Radio,
        PeerSpeakingKind::Intercom => SpeakingKind::Intercom,
        PeerSpeakingKind::God => SpeakingKind::God,
        PeerSpeakingKind::Zeus => SpeakingKind::Zeus,
    }
}

impl Clone for PeerState {
    fn clone(&self) -> (copy: Self)
        ensures
            copy@ == self@,
    {
        PeerState {
            order: self.order.clone(),
            compatible: self.compatible,
            net_id: match &self.net_id {
                Some(net_id) => Some(net_id.clone()),
                None => None,
            },
            active_transmission: match &self.active_transmission {
                Some(active) => Some(active.clone()),
                None => None,
            },
        }
    }
}

/// Appends the end of the sender's transmission, if there is one.
fn clear_active_transmission(state: &mut PeerState, actions: &mut Vec<PeerStateAction>)
    ensures
        final(state)@ == (PeerView { active_transmission: None, ..old(state)@ }),
        model::views(final(actions)@) == model::views(old(actions)@) + stops(old(state)@),
{
    broadcast use model::group_views;

    match state.active_transmission.take() {
        Some(active) => {
            actions.push(PeerStateAction::TransmissionStopped(active));
            assert(model::views(actions@) =~= model::views(old(actions)@) + stops(old(state)@));
        },
        None => {
            assert(model::views(actions@) =~= model::views(old(actions)@) + stops(old(state)@));
        },
    }
}

/// Forgets the sender; appends what that entails.
fn clear_peer(voice_client_id: u32, state: &mut PeerState, actions: &mut Vec<PeerStateAction>)
    ensures
        final(state)@ == cleared(old(state)@),
        model::views(final(actions)@) == model::views(old(actions)@) + clears(
            voice_client_id,
            old(state)@,
        ),
{
    broadcast use model::group_views;

    clear_active_transmission(state, actions);
    state.compatible = false;
    state.net_id = None;
    actions.push(PeerStateAction::Reset { voice_client_id });
    assert(model::views(actions@) =~= model::views(old(actions)@) + clears(
        voice_client_id,
        old(state)@,
    ));
}

/// Whether the sender announced exactly this identity.
fn has_identity(state: &PeerState, net_id: &String) -> (same: bool)
    ensures
        same == (state@.net_id == Some(net_id@)),
{
    match &state.net_id {
        Some(known) => same_text(known.as_str(), net_id.as_str()),
        None => false,
    }
}

/// Applies the body of an accepted message; appends the changes.
fn apply_payload(
    voice_client_id: u32,
    state: &mut PeerState,
    payload: &PeerPayload,
    actions: &mut Vec<PeerStateAction>,
) -> (verdict: Result<(), PeerDirectoryError>)
    ensures
        match payload_step(voice_client_id, old(state)@, payload@) {
            Ok((after, changes)) => verdict is Ok && final(state)@ == after && model::views(
                final(actions)@,
            ) == model::views(old(actions)@) + changes,
            Err(fault) => verdict matches Err(error) && error@ == fault,
        },
{
    broadcast use model::group_views;

    let ghost before = model::views(actions@);
    assert(before + Seq::<PeerActionView>::empty() =~= before);
    match payload {
        PeerPayload::Hello { acre_version } => {
            state.compatible = true;
        },
        PeerPayload::Identity { net_id } => {
            if !state.compatible {
                return Err(PeerDirectoryError::HandshakeRequired);
            }
            if !has_identity(state, net_id) {
                clear_active_transmission(state, actions);
                state.net_id = Some(net_id.clone());
                actions.push(
                    PeerStateAction::Identity { voice_client_id, net_id: net_id.clone() },
                );
                assert(model::views(actions@) =~= before + stops(old(state)@).push(
                    PeerActionView::Identity { voice_client_id, net_id: net_id@ },
                ));
            }
        },
        PeerPayload::Start { kind, net_id, radio_id, language_id, curve_scale } => {
            if !state.compatible {
                return Err(PeerDirectoryError::HandshakeRequired);
            }
            if !has_identity(state, net_id) {
                return Err(PeerDirectoryError::IdentityMismatch);
            }
            let next: Transmission = match Transmission::new(
                voice_client_id,
                *language_id,
                net_id.as_str(),
                speaking_kind(*kind),
                radio_id.as_str(),
                *curve_scale,
            ) {
                Ok(next) => next,
                Err(error) => {
                    return Err(PeerDirectoryError::Session(error));
                },
            };
            let repeated: bool = match &state.active_transmission {
                Some(active) => active.same_as(&next),
                None => false,
            };
            if !repeated {
                clear_active_transmission(state, actions);
                state.active_transmission = Some(next.clone());
                actions.push(PeerStateAction::TransmissionStarted(next));
                assert(model::views(actions@) =~= before + stops(old(state)@).push(
                    PeerActionView::TransmissionStarted(next@),
                ));
            }
        },
        PeerPayload::Stop { kind } => {
            if !state.compatible {
                return Err(PeerDirectoryError::HandshakeRequired);
            }
            let matching: bool = match &state.active_transmission {
                Some(active) => active.speaking_kind() == speaking_kind(*kind),
                None => false,
            };
            if matching {
                clear_active_transmission(state, actions);
            }
        },
        PeerPayload::Reset => {
            clear_peer(voice_client_id, state, actions);
        },
    }
    Ok(())
}

/// Applies a valid message to its sender.
fn apply_to_peer(voice_client_id: u32, state: &mut PeerState, envelope: &PeerEnvelope) -> (changes:
    Result<Vec<PeerStateAction>, PeerDirectoryError>)
    ensures
        match peer_step(voice_client_id, old(state)@, envelope@) {
            Ok((after, actions)) => changes matches Ok(list) && model::views(list@) == actions
                && final(state)@ == after,
            Err(fault) => changes matches Err(error) && error@ == fault,
        },
{
    broadcast use model::group_views;

    let mut actions: Vec<PeerStateAction> = Vec::new();
    let order: PeerOrderDecision = state.order.observe(&envelope.header);
    if order == PeerOrderDecision::RejectedStale {
        assert(state@ =~= old(state)@);
        return Ok(actions);
    }
    let ghost ordered = state@;
    if order == PeerOrderDecision::AcceptedNewGeneration || order
        == PeerOrderDecision::AcceptedNewScope {
        clear_peer(voice_client_id, state, &mut actions);
        assert(model::views(actions@) =~= clears(voice_client_id, old(state)@));
    }
    apply_payload(voice_client_id, state, &envelope.payload, &mut actions)?;
    proof {
        let step = peer_step(voice_client_id, old(state)@, envelope@);
        assert(model::views(actions@) =~= step->Ok_0.1);
    }
    Ok(actions)
}

impl PeerDirectory {
    /// No sender transmits under an identity that they did not announce.
    #[verifier::type_invariant]
    pub closed spec fn inv(self) -> bool {
        consistent(self@)
    }

    /// A directory of the mission in which nobody is known.
    fn empty(scope: String) -> (directory: Self)
        ensures
            directory@ == (DirectoryView { scope: scope@, peers: Map::empty() }),
    {
        let peers: HashMap<u32, PeerState> = HashMap::new();
        assert(peers@.map_values(|peer: PeerState| peer@) =~= Map::empty());
        PeerDirectory { scope, peers }
    }

    /// A directory for exactly one mission, named by the local mission
    /// control.
    pub fn new(scope: &str) -> (directory: Result<Self, PeerDirectoryError>)
        ensures
            model::outcome(directory) == match peer::header_fault(
                HeaderView {
                    version: peer::ACRE_PEER_PROTOCOL_VERSION,
                    scope: scope@,
                    generation: 1,
                    sequence: 1,
                },
            ) {
                Some(fault) => Err::<DirectoryView, DirectoryFault>(DirectoryFault::Peer(fault)),
                None => Ok(DirectoryView { scope: scope@, peers: Map::empty() }),
            },
    {
        match PeerHeader::new(scope, 1, 1) {
            Ok(header) => Ok(PeerDirectory::empty(header.scope)),
            Err(error) => Err(PeerDirectoryError::Peer(error)),
        }
    }

    /// The mission of the directory.
    pub fn scope(&self) -> (scope: &str)
        ensures
            scope@ == self@.scope,
    {
        self.scope.as_str()
    }

    /// Applies one message that Mumble attributes to `voice_client_id`. A
    /// refused message neither consumes its sequence number nor changes
    /// anything else.
    pub fn apply(&mut self, voice_client_id: u32, envelope: &PeerEnvelope) -> (changes: Result<
        Vec<PeerStateAction>,
        PeerDirectoryError,
    >)
        ensures
            (final(self)@, model::list_outcome(changes)) == applied(
                old(self)@,
                voice_client_id,
                envelope@,
            ),
            changes matches Ok(list) ==> orderly(
                old(self)@,
                voice_client_id,
                envelope@,
                final(self)@,
                model::views(list@),
            ),
            consistent(final(self)@),
    {
        proof {
            use_type_invariant(&*self);
            if applied(self@, voice_client_id, envelope@).1 is Ok {
                law_changes_are_orderly(self@, voice_client_id, envelope@);
            }
            law_transmissions_follow_announced_identity(
                self@,
                voice_client_id,
                envelope@,
                self@.scope,
            );
        }
        match envelope.validate() {
            Ok(_) => {},
            Err(error) => {
                return Err(PeerDirectoryError::Peer(error));
            },
        }
        if !same_text(envelope.header.scope.as_str(), self.scope.as_str()) {
            return Err(
                PeerDirectoryError::ScopeMismatch {
                    expected: self.scope.clone(),
                    received: envelope.header.scope.clone(),
                },
            );
        }
        let mut candidate: PeerState = match self.peers.get(&voice_client_id) {
            Some(known) => known.clone(),
            None => PeerState {
                order: PeerOrderTracker::default(),
                compatible: false,
                net_id: None,
                active_transmission: None,
            },
        };
        assert(candidate@ =~= peer_in(self@, voice_client_id));
        let actions: Vec<PeerStateAction> = apply_to_peer(
            voice_client_id,
            &mut candidate,
            envelope,
        )?;
        let mut work = PeerDirectory::empty(String::new());
        std::mem::swap(&mut work, self);
        let mut peers: HashMap<u32, PeerState> = work.peers;
        peers.insert(voice_client_id, candidate);
        assert(peers@.map_values(|peer: PeerState| peer@) =~= old(self)@.peers.insert(
            voice_client_id,
            candidate@,
        ));
        *self = PeerDirectory { scope: work.scope, peers };
        Ok(actions)
    }

    /// Forgets one sender. An unknown one changes nothing.
    pub fn remove(&mut self, voice_client_id: u32) -> (changes: Vec<PeerStateAction>)
        ensures
            final(self)@ == (DirectoryView {
                peers: old(self)@.peers.remove(voice_client_id),
                ..old(self)@
            }),
            model::views(changes@) == if old(self)@.peers.contains_key(voice_client_id) {
                clears(voice_client_id, old(self)@.peers[voice_client_id])
            } else {
                Seq::empty()
            },
    {
        broadcast use model::group_views;

        let mut actions: Vec<PeerStateAction> = Vec::new();
        proof {
            use_type_invariant(&*self);
            assert(consistent(
                DirectoryView { peers: self@.peers.remove(voice_client_id), ..self@ },
            )) by {
                assert forall|k: u32| #[trigger]
                    self@.peers.remove(voice_client_id).contains_key(k) implies consistent_peer(
                    k,
                    self@.peers.remove(voice_client_id)[k],
                ) by {
                    assert(self@.peers.contains_key(k));
                }
            }
        }
        let mut work = PeerDirectory::empty(String::new());
        std::mem::swap(&mut work, self);
        let mut peers: HashMap<u32, PeerState> = work.peers;
        let removed: Option<PeerState> = peers.remove(&voice_client_id);
        assert(peers@.map_values(|peer: PeerState| peer@) =~= old(self)@.peers.remove(
            voice_client_id,
        ));
        *self = PeerDirectory { scope: work.scope, peers };
        match removed {
            Some(state) => {
                let mut state: PeerState = state;
                clear_peer(voice_client_id, &mut state, &mut actions);
                assert(model::views(actions@) =~= clears(
                    voice_client_id,
                    old(self)@.peers[voice_client_id],
                ));
            },
            None => {},
        }
        actions
    }

    /// Forgets every sender, one after the other in ascending order.
    pub fn clear(&mut self) -> (changes: Vec<PeerStateAction>)
        ensures
            final(self)@ == (DirectoryView { peers: Map::empty(), ..old(self)@ }),
            model::views(changes@) == clears_all(
                old(self)@.peers,
                order::ascending(old(self)@.peers.dom()),
            ),
    {
        broadcast use model::group_views;

        let ghost before = self@.peers;
        let ids: Vec<u32> = ascending_keys(&self.peers);
        proof {
            assert(before.dom() =~= self.peers@.dom());
            order::lemma_ascending(before.dom());
        }
        let ghost order = ids@;
        let mut actions: Vec<PeerStateAction> = Vec::new();
        let mut i: usize = 0;
        assert(order.take(0) =~= Seq::<u32>::empty());
        while i < ids.len()
            invariant
                i <= ids@.len(),
                ids@ == order,
                before == self@.peers,
                order.to_set() == before.dom(),
                model::views(actions@) == clears_all(before, order.take(i as int)),
            decreases ids@.len() - i,
        {
            let id: u32 = ids[i];
            proof {
                assert(order.to_set().contains(order[i as int]));
                assert(order.take(i + 1).drop_last() =~= order.take(i as int));
                assert(order.take(i + 1).last() == id);
                assert(self.peers@.contains_key(id));
            }
            match self.peers.get(&id) {
                Some(known) => {
                    let mut state: PeerState = known.clone();
                    clear_peer(id, &mut state, &mut actions);
                },
                None => {},
            }
            i += 1;
        }
        assert(order.take(i as int) =~= order);
        *self = PeerDirectory::empty(self.scope.clone());
        actions
    }
}

/// A refused message leaves the directory as it was: it consumes no sequence
/// number.
pub proof fn law_refusals_change_nothing(directory: DirectoryView, id: u32, envelope: EnvelopeView)
    requires
        applied(directory, id, envelope).1 is Err,
    ensures
        applied(directory, id, envelope).0 == directory,
{
}

/// A message delivered again right away does nothing: the directory stays as
/// it is and nothing is emitted.
pub proof fn law_repeated_messages_do_nothing(
    directory: DirectoryView,
    id: u32,
    envelope: EnvelopeView,
)
    requires
        applied(directory, id, envelope).1 is Ok,
    ensures
        ({
            let after = applied(directory, id, envelope).0;
            applied(after, id, envelope) == (
                after,
                Ok::<Seq<PeerActionView>, DirectoryFault>(Seq::empty()),
            )
        }),
{
    let after = applied(directory, id, envelope).0;
    let again = applied(after, id, envelope).0;
    assert(again.peers =~= after.peers);
}

/// Messages of one sender leave every other sender alone.
pub proof fn law_senders_are_independent(
    directory: DirectoryView,
    id: u32,
    other: u32,
    envelope: EnvelopeView,
)
    requires
        id != other,
    ensures
        peer_in(applied(directory, id, envelope).0, other) == peer_in(directory, other),
{
}

/// No sender transmits without a handshake and an announced identity, and a
/// transmission carries that identity and the sender's own ID.
pub open spec fn consistent_peer(id: u32, peer: PeerView) -> bool {
    peer.active_transmission matches Some(active) ==> peer.compatible && peer.net_id == Some(
        active.net_id,
    ) && active.voice_client_id == id
}

/// Every sender in the directory is consistent.
pub open spec fn consistent(directory: DirectoryView) -> bool {
    forall|id: u32| #[trigger]
        directory.peers.contains_key(id) ==> consistent_peer(id, directory.peers[id])
}

/// The sender whom a change is about.
pub open spec fn sender_of(action: PeerActionView) -> u32 {
    match action {
        PeerActionView::Identity { voice_client_id, .. } => voice_client_id,
        PeerActionView::TransmissionStarted(started) => started.voice_client_id,
        PeerActionView::TransmissionStopped(stopped) => stopped.voice_client_id,
        PeerActionView::Reset { voice_client_id } => voice_client_id,
    }
}

/// Whether the changes of one accepted message are orderly. A stale message
/// changes nothing. All changes are about the sender. A transmission that stops
/// is the one that was active, and its stop comes first; one that starts comes
/// last. A newer generation that only says hello stops the transmission and
/// resets the sender.
pub open spec fn orderly(
    before: DirectoryView,
    id: u32,
    envelope: EnvelopeView,
    after: DirectoryView,
    changes: Seq<PeerActionView>,
) -> bool {
    let peer = peer_in(before, id);
    let decision = peer::order_decision(peer.order, envelope.header);
    &&& decision == PeerOrderDecision::RejectedStale ==> changes.len() == 0 && after == before
    &&& forall|i: int| 0 <= i < changes.len() ==> sender_of(#[trigger] changes[i]) == id
    &&& forall|i: int|
        0 <= i < changes.len() ==> ((
        #[trigger] changes[i]) matches PeerActionView::TransmissionStopped(stopped) ==> i == 0
            && peer.active_transmission == Some(stopped))
    &&& forall|i: int|
        0 <= i < changes.len() ==> ((#[trigger] changes[i]) is TransmissionStarted ==> i
            == changes.len() - 1)
    &&& decision == PeerOrderDecision::AcceptedNewGeneration && envelope.payload is Hello
        ==> changes == clears(id, peer)
}

/// The changes of every accepted message are orderly.
pub proof fn law_changes_are_orderly(directory: DirectoryView, id: u32, envelope: EnvelopeView)
    requires
        consistent(directory),
        applied(directory, id, envelope).1 is Ok,
    ensures
        orderly(
            directory,
            id,
            envelope,
            applied(directory, id, envelope).0,
            applied(directory, id, envelope).1->Ok_0,
        ),
{
    let peer = peer_in(directory, id);
    let after = applied(directory, id, envelope).0;
    assert(consistent_peer(id, peer));
    if peer::order_decision(peer.order, envelope.header) == PeerOrderDecision::RejectedStale {
        assert(directory.peers.contains_key(id));
        assert(after.peers =~= directory.peers);
    }
    assert(clears(id, peer) + Seq::<PeerActionView>::empty() =~= clears(id, peer));
}

/// Whatever messages arrive, no sender transmits under an identity that they
/// did not announce: an empty directory is consistent, and every message,
/// removal and reset keeps it so.
pub proof fn law_transmissions_follow_announced_identity(
    directory: DirectoryView,
    id: u32,
    envelope: EnvelopeView,
    scope: Seq<char>,
)
    requires
        consistent(directory),
    ensures
        consistent(DirectoryView { scope, peers: Map::empty() }),
        consistent(applied(directory, id, envelope).0),
        consistent(DirectoryView { peers: directory.peers.remove(id), ..directory }),
{
    let after = applied(directory, id, envelope).0;
    assert(consistent_peer(id, peer_in(directory, id)));
    assert forall|k: u32| #[trigger] after.peers.contains_key(k) implies consistent_peer(
        k,
        after.peers[k],
    ) by {
        if k != id {
            assert(directory.peers.contains_key(k));
        } else if !directory.peers.contains_key(k) {
        }
    }
    let removed = DirectoryView { peers: directory.peers.remove(id), ..directory };
    assert forall|k: u32| #[trigger] removed.peers.contains_key(k) implies consistent_peer(
        k,
        removed.peers[k],
    ) by {
        assert(directory.peers.contains_key(k));
    }
}

} // verus!
