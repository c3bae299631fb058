//! Full-state updates between peers: each update alone recovers from a lost
//! start, stop or handshake.
//!
//! Times are nanoseconds of one monotonic clock.

use crate::audio_snapshot::ACRE_AUDIO_MAX_SPEAKERS;
use crate::model;
use crate::order::{self, ascending_keys};
use crate::peer::{
    self, EnvelopeView, HeaderView, PayloadView, PeerEnvelope, PeerHeader,
    PeerPayload, PeerSpeakingKind, ACRE_PEER_MAX_MESSAGE_BYTES,
};
use crate::peer_state::{PeerActionView, PeerStateAction};
use crate::session::ACRE2_PLUGIN_VERSION;
use crate::text::same_text;
use crate::transmission::{self, SpeakingKind, Transmission, TransmissionView};
use std::collections::HashMap;
use vstd::prelude::*;

verus! {

/// The name under which states travel between adapters.
pub const DATA_ID: &'static str = "MumbleACRE:STATE:1";

/// How long a peer's state is trusted without a refresh.
pub const LEASE: u64 = 250_000_000;

/// How often the own state is refreshed.
pub const REFRESH: u64 = 100_000_000;

/// The whole state of one peer.
#[derive(Debug, PartialEq)]
pub struct StateMessage {
    pub header: PeerHeader,
    pub acre_version: String,
    pub net_id: String,
    pub active: Option<PeerPayload>,
}

/// The model of a state message.
#[verifier::ext_equal]
pub struct StateView {
    pub header: HeaderView,
    pub acre_version: Seq<char>,
    pub net_id: Seq<char>,
    pub active: Option<PayloadView>,
}

#[derive(Debug)]
struct RemoteState {
    header: PeerHeader,
    net_id: String,
    active: Option<Transmission>,
    refreshed: u64,
}

/// The model of what is known of one remote peer.
#[verifier::ext_equal]
pub struct RemoteView {
    pub header: HeaderView,
    pub net_id: Seq<char>,
    pub active: Option<TransmissionView>,
    pub refreshed: u64,
}

/// What is known of all remote peers, by the sender that Mumble names.
#[derive(Debug)]
pub struct RemotePeers {
    states: HashMap<u32, RemoteState>,
}

impl View for StateMessage {
    type V = StateView;

    open spec fn view(&self) -> StateView {
        StateView {
            header: self.header@,
            acre_version: self.acre_version@,
            net_id: self.net_id@,
            active: model::optional(self.active),
        }
    }
}

impl Clone for StateMessage {
    fn clone(&self) -> (copy: Self)
        ensures
            copy@ == self@,
    {
        StateMessage {
            header: self.header.clone(),
            acre_version: self.acre_version.clone(),
            net_id: self.net_id.clone(),
            active: match &self.active {
                Some(payload) => Some(payload.clone()),
                None => None,
            },
        }
    }
}

impl View for RemoteState {
    type V = RemoteView;

    closed spec fn view(&self) -> RemoteView {
        RemoteView {
            header: self.header@,
            net_id: self.net_id@,
            active: model::optional(self.active),
            refreshed: self.refreshed,
        }
    }
}

impl View for RemotePeers {
    type V = Map<u32, RemoteView>;

    closed spec fn view(&self) -> Map<u32, RemoteView> {
        self.states@.map_values(|state: RemoteState| state@)
    }
}

/// The words that refuse a payload under a header.
pub open spec fn payload_words(header: HeaderView, payload: PayloadView) -> Option<Seq<char>> {
    match peer::envelope_fault(EnvelopeView { header, payload }) {
        Some(fault) => Some(fault.words()),
        None => None,
    }
}

/// The words that refuse the active transmission of a state. Only a start
/// under the state's own identity is one; God and Zeus need an authorization
/// that no peer can give.
pub open spec fn active_words(state: StateView, payload: PayloadView) -> Option<Seq<char>> {
    match payload {
        PayloadView::Start { kind, net_id, .. } => if net_id != state.net_id {
            Some("state requires a matching START"@)
        } else if kind == PeerSpeakingKind::God || kind == PeerSpeakingKind::Zeus {
            Some("privileged peer mode unsupported"@)
        } else {
            payload_words(state.header, payload)
        },
        _ => Some("state requires a matching START"@),
    }
}

/// The words that refuse a state.
pub open spec fn state_words(state: StateView) -> Option<Seq<char>> {
    let hello = payload_words(
        state.header,
        PayloadView::Hello { acre_version: state.acre_version },
    );
    let identity = payload_words(state.header, PayloadView::Identity { net_id: state.net_id });
    if hello is Some {
        hello
    } else if identity is Some {
        identity
    } else {
        match state.active {
            Some(payload) => active_words(state, payload),
            None => None,
        }
    }
}

/// The mode that a peer announces for a local transmission.
pub open spec fn announced_kind(kind: SpeakingKind) -> PeerSpeakingKind {
    match kind {
        SpeakingKind::Direct => PeerSpeakingKind::Direct,
        SpeakingKind::Radio => PeerSpeakingKind::Radio,
        SpeakingKind::Intercom => PeerSpeakingKind::Intercom,
        SpeakingKind::God => PeerSpeakingKind::God,
        _ => PeerSpeakingKind::Zeus,
    }
}

/// The start that announces a local transmission.
pub open spec fn announcement(t: TransmissionView) -> PayloadView {
    PayloadView::Start {
        kind: announced_kind(t.speaking_kind),
        net_id: t.net_id,
        radio_id: t.radio_id,
        language_id: t.language_id,
        curve_scale: t.curve_scale,
    }
}

/// The state message for the local state, or the words that refuse it.
pub open spec fn new_state(
    scope: Seq<char>,
    generation: u64,
    sequence: u64,
    net_id: Seq<char>,
    active: Option<TransmissionView>,
) -> Result<StateView, Seq<char>> {
    let header = HeaderView {
        version: peer::ACRE_PEER_PROTOCOL_VERSION,
        scope,
        generation,
        sequence,
    };
    let state = StateView {
        header,
        acre_version: ACRE2_PLUGIN_VERSION@,
        net_id,
        active: match active {
            Some(t) => Some(announcement(t)),
            None => None,
        },
    };
    match peer::header_fault(header) {
        Some(fault) => Err(fault.words()),
        None => match state_words(state) {
            Some(words) => Err(words),
            None => Ok(state),
        },
    }
}

/// The transmission that a state announces for its sender.
pub open spec fn state_transmission(state: StateView, sender: u32) -> Result<
    Option<TransmissionView>,
    Seq<char>,
> {
    match state.active {
        Some(PayloadView::Start { kind, net_id, radio_id, language_id, curve_scale }) => {
            let mode = match kind {
                PeerSpeakingKind::Direct => Some(SpeakingKind::Direct),
                PeerSpeakingKind::Radio => Some(SpeakingKind::Radio),
                PeerSpeakingKind::Intercom => Some(SpeakingKind::Intercom),
                _ => None,
            };
            match mode {
                None => Err("unsupported mode"@),
                Some(speaking_kind) => if crate::binary32::finite(curve_scale) {
                    Ok(
                        Some(
                            TransmissionView {
                                voice_client_id: sender,
                                language_id,
                                net_id,
                                speaking_kind,
                                radio_id,
                                curve_scale,
                            },
                        ),
                    )
                } else {
                    Err("ACRE curve scale must be finite"@)
                },
            }
        },
        _ => Ok(None),
    }
}

impl StateMessage {
    /// The state message for the local state.
    pub fn new(
        scope: &str,
        generation: u64,
        sequence: u64,
        net_id: &str,
        active: Option<&Transmission>,
    ) -> (state: Result<Self, String>)
        ensures
            model::outcome(state) == new_state(
                scope@,
                generation,
                sequence,
                net_id@,
                match active {
                    Some(t) => Some(t@),
                    None => None,
                },
            ),
    {
        let payload: Option<PeerPayload> = match active {
            Some(t) => Some(
                PeerPayload::Start {
                    kind: match t.speaking_kind() {
                        SpeakingKind::Direct => PeerSpeakingKind::Direct,
                        SpeakingKind::Radio => PeerSpeakingKind::Radio,
                        SpeakingKind::Intercom => PeerSpeakingKind::Intercom,
                        SpeakingKind::God => PeerSpeakingKind::God,
                        _ => PeerSpeakingKind::Zeus,
                    },
                    net_id: t.net_id().to_owned(),
                    radio_id: t.radio_id().to_owned(),
                    language_id: t.language_id(),
                    curve_scale: t.curve_scale(),
                },
            ),
            None => None,
        };
        let header: PeerHeader = match PeerHeader::new(scope, generation, sequence) {
            Ok(header) => header,
            Err(error) => {
                return Err(error.to_string());
            },
        };
        let state = StateMessage {
            header,
            acre_version: ACRE2_PLUGIN_VERSION.to_owned(),
            net_id: net_id.to_owned(),
            active: payload,
        };
        state.validate()?;
        Ok(state)
    }

    fn validate_payload(&self, payload: PeerPayload) -> (verdict: Result<(), String>)
        ensures
            model::outcome(verdict) == match payload_words(self@.header, payload@) {
                Some(words) => Err::<(), Seq<char>>(words),
                None => Ok(()),
            },
    {
        match PeerEnvelope::new(self.header.clone(), payload) {
            Ok(_) => Ok(()),
            Err(error) => Err(error.to_string()),
        }
    }

    /// Checks a state before it enters connection state.
    pub fn validate(&self) -> (verdict: Result<(), String>)
        ensures
            model::outcome(verdict) == match state_words(self@) {
                Some(words) => Err::<(), Seq<char>>(words),
                None => Ok(()),
            },
    {
        self.validate_payload(PeerPayload::Hello { acre_version: self.acre_version.clone() })?;
        self.validate_payload(PeerPayload::Identity { net_id: self.net_id.clone() })?;
        match &self.active {
            Some(payload) => {
                match payload {
                    PeerPayload::Start { kind, net_id, radio_id, language_id, curve_scale } => {
                        if !same_text(net_id.as_str(), self.net_id.as_str()) {
                            return Err("state requires a matching START".to_owned());
                        }
                        if *kind == PeerSpeakingKind::God || *kind == PeerSpeakingKind::Zeus {
                            return Err("privileged peer mode unsupported".to_owned());
                        }
                    },
                    _ => {
                        return Err("state requires a matching START".to_owned());
                    },
                }
                self.validate_payload(payload.clone())
            },
            None => Ok(()),
        }
    }

    /// Frames the state for the transport: a valid state, serialized into a
    /// bounded number of bytes. `serialized` is what the serializer made of
    /// it, or the serializer's words of failure.
    pub fn encode(&self, serialized: Result<Vec<u8>, String>) -> (framed: Result<Vec<u8>, String>)
        ensures
            model::outcome(framed) == framed_as(self@, model::outcome(serialized)),
    {
        self.validate()?;
        let bytes: Vec<u8> = serialized?;
        if bytes.len() > ACRE_PEER_MAX_MESSAGE_BYTES {
            return Err("state exceeds 1024 bytes".to_owned());
        }
        Ok(bytes)
    }

    /// Whether the transport's bytes may be parsed at all.
    pub fn check_size(bytes: &[u8]) -> (verdict: Result<(), String>)
        ensures
            model::outcome(verdict) == if 1 <= bytes@.len() <= ACRE_PEER_MAX_MESSAGE_BYTES {
                Ok(())
            } else {
                Err("invalid state length"@)
            },
    {
        if bytes.len() == 0 || bytes.len() > ACRE_PEER_MAX_MESSAGE_BYTES {
            return Err("invalid state length".to_owned());
        }
        Ok(())
    }

    /// Unframes a state of the transport: bounded bytes that parse into a
    /// valid state. `parsed` is what the parser made of the bytes, or the
    /// parser's words of failure.
    pub fn decode(bytes: &[u8], parsed: Result<StateMessage, String>) -> (state: Result<
        Self,
        String,
    >)
        ensures
            model::outcome(state) == unframed_from(bytes@, model::outcome(parsed)),
    {
        StateMessage::check_size(bytes)?;
        let state: StateMessage = parsed?;
        state.validate()?;
        Ok(state)
    }

    /// The transmission that the state announces for its sender.
    pub fn transmission(&self, sender: u32) -> (active: Result<Option<Transmission>, String>)
        ensures
            match active {
                Ok(t) => state_transmission(self@, sender) == Ok::<
                    Option<TransmissionView>,
                    Seq<char>,
                >(model::optional(t)),
                Err(words) => state_transmission(self@, sender) == Err::<
                    Option<TransmissionView>,
                    Seq<char>,
                >(words@),
            },
    {
        match &self.active {
            Some(PeerPayload::Start { kind, net_id, radio_id, language_id, curve_scale }) => {
                let mode: SpeakingKind = match *kind {
                    PeerSpeakingKind::Direct => SpeakingKind::Direct,
                    PeerSpeakingKind::Radio => SpeakingKind::Radio,
                    PeerSpeakingKind::Intercom => SpeakingKind::Intercom,
                    _ => {
                        return Err("unsupported mode".to_owned());
                    },
                };
                match Transmission::build(
                    sender,
                    *language_id,
                    net_id.as_str(),
                    mode,
                    radio_id.as_str(),
                    *curve_scale,
                ) {
                    Some(t) => Ok(Some(t)),
                    None => Err("ACRE curve scale must be finite".to_owned()),
                }
            },
            _ => Ok(None),
        }
    }
}

/// Whether two optional transmissions say the same.
pub open spec fn same_active(a: Option<TransmissionView>, b: Option<TransmissionView>) -> bool {
    match (a, b) {
        (Some(x), Some(y)) => transmission::same_transmission(x, y),
        (None, None) => true,
        _ => false,
    }
}

/// Whether a header is no newer than the last accepted one.
pub open spec fn is_late(last: HeaderView, header: HeaderView) -> bool {
    header.generation < last.generation || header.generation == last.generation
        && header.sequence <= last.sequence
}

/// Whether a state comes from another run or identity of the sender.
pub open spec fn replaces(known: RemoteView, state: StateView) -> bool {
    known.header.generation != state.header.generation || known.net_id != state.net_id
}

/// The changes that take a sender from what was known of them to a newer
/// state: the old transmission ends, a new identity is told, the new
/// transmission begins.
pub open spec fn changes_of(
    known: Option<RemoteView>,
    sender: u32,
    state: StateView,
    active: Option<TransmissionView>,
) -> Seq<PeerActionView> {
    let before = match known {
        Some(old) => old.active,
        None => None,
    };
    let replaced = known matches Some(old) && replaces(old, state);
    let changed = replaced || !same_active(before, active);
    let ends = if changed && before is Some {
        seq![PeerActionView::TransmissionStopped(before->0)]
    } else {
        Seq::empty()
    };
    let identity = if known is None || replaced {
        seq![PeerActionView::Identity { voice_client_id: sender, net_id: state.net_id }]
    } else {
        Seq::empty()
    };
    let begins = if changed && active is Some {
        seq![PeerActionView::TransmissionStarted(active->0)]
    } else {
        Seq::empty()
    };
    ends + identity + begins
}

/// What is known of a sender.
pub open spec fn known_of(peers: Map<u32, RemoteView>, sender: u32) -> Option<RemoteView> {
    if peers.contains_key(sender) {
        Some(peers[sender])
    } else {
        None
    }
}

/// What is known of all peers after a state arrived, and the changes or the
/// words of refusal. A late state and a refused one change nothing.
pub open spec fn received(
    peers: Map<u32, RemoteView>,
    sender: u32,
    scope: Seq<char>,
    state: StateView,
    now: u64,
) -> (Map<u32, RemoteView>, Result<Seq<PeerActionView>, Seq<char>>) {
    let known = known_of(peers, sender);
    if state_words(state) is Some {
        (peers, Err(state_words(state)->0))
    } else if state.header.scope != scope {
        (peers, Err("mission scope mismatch"@))
    } else if known is Some && is_late(known->0.header, state.header) {
        (peers, Ok(Seq::empty()))
    } else if known is None && peers.len() >= ACRE_AUDIO_MAX_SPEAKERS {
        (peers, Err("peer capacity reached"@))
    } else {
        match state_transmission(state, sender) {
            Err(words) => (peers, Err(words)),
            Ok(active) => (
                peers.insert(
                    sender,
                    RemoteView {
                        header: state.header,
                        net_id: state.net_id,
                        active,
                        refreshed: now,
                    },
                ),
                Ok(changes_of(known, sender, state, active)),
            ),
        }
    }
}

/// The framed bytes of a state, or the words of refusal. `serialized` is what
/// the serializer made of the state, or its words of failure.
pub open spec fn framed_as(state: StateView, serialized: Result<Seq<u8>, Seq<char>>) -> Result<
    Seq<u8>,
    Seq<char>,
> {
    match state_words(state) {
        Some(words) => Err(words),
        None => match serialized {
            Err(words) => Err(words),
            Ok(bytes) => if bytes.len() > ACRE_PEER_MAX_MESSAGE_BYTES {
                Err("state exceeds 1024 bytes"@)
            } else {
                Ok(bytes)
            },
        },
    }
}

/// The state that framed bytes hold, or the words of refusal. `parsed` is what
/// the parser made of the bytes, or its words of failure.
pub open spec fn unframed_from(bytes: Seq<u8>, parsed: Result<StateView, Seq<char>>) -> Result<
    StateView,
    Seq<char>,
> {
    if !(1 <= bytes.len() <= ACRE_PEER_MAX_MESSAGE_BYTES) {
        Err("invalid state length"@)
    } else {
        match parsed {
            Err(words) => Err(words),
            Ok(state) => match state_words(state) {
                Some(words) => Err(words),
                None => Ok(state),
            },
        }
    }
}

/// Whether a peer's state has outlived its lease.
pub open spec fn lapsed(state: RemoteView, now: u64) -> bool {
    now >= state.refreshed && now - state.refreshed >= LEASE
}

/// Whether a peer's transmission ends for want of a refresh.
pub open spec fn expires(state: RemoteView, now: u64) -> bool {
    lapsed(state, now) && state.active is Some
}

/// What is known of a peer once an outlived transmission has ended.
pub open spec fn after_expiry(state: RemoteView, now: u64) -> RemoteView {
    if expires(state, now) {
        RemoteView { active: None, ..state }
    } else {
        state
    }
}

/// What is known of all peers once every outlived transmission has ended.
pub open spec fn all_after_expiry(peers: Map<u32, RemoteView>, now: u64) -> Map<u32, RemoteView> {
    peers.map_values(|state: RemoteView| after_expiry(state, now))
}

/// The ends of the outlived transmissions among the senders, in that order.
pub open spec fn expiry_stops(peers: Map<u32, RemoteView>, order: Seq<u32>, now: u64) -> Seq<
    PeerActionView,
>
    decreases order.len(),
{
    if order.len() == 0 {
        Seq::empty()
    } else {
        let head = expiry_stops(peers, order.drop_last(), now);
        let state = peers[order.last()];
        if expires(state, now) {
            head.push(PeerActionView::TransmissionStopped(state.active->0))
        } else {
            head
        }
    }
}

/// Whether a peer may be heard.
pub open spec fn is_audible(state: RemoteView, now: u64) -> bool {
    state.active is Some && !lapsed(state, now)
}

/// When each peer that may be heard was last refreshed.
pub open spec fn audible_of(peers: Map<u32, RemoteView>, now: u64) -> Map<u32, u64> {
    Map::new(
        |id: u32| peers.contains_key(id) && is_audible(peers[id], now),
        |id: u32| peers[id].refreshed,
    )
}

/// What forgetting the senders in the given order entails.
pub open spec fn farewells(peers: Map<u32, RemoteView>, order: Seq<u32>) -> Seq<PeerActionView>
    decreases order.len(),
{
    if order.len() == 0 {
        Seq::empty()
    } else {
        farewells(peers, order.drop_last()) + farewell(known_of(peers, order.last()), order.last())
    }
}

/// What forgetting a sender entails.
pub open spec fn farewell(known: Option<RemoteView>, sender: u32) -> Seq<PeerActionView> {
    match known {
        None => Seq::empty(),
        Some(state) => {
            let ends = match state.active {
                Some(active) => seq![PeerActionView::TransmissionStopped(active)],
                None => Seq::empty(),
            };
            ends.push(PeerActionView::Reset { voice_client_id: sender })
        },
    }
}

/// Whether two optional transmissions say the same.
fn is_same_active(a: Option<&Transmission>, b: Option<&Transmission>) -> (same: bool)
    ensures
        same == same_active(
            match a {
                Some(x) => Some(x@),
                None => None,
            },
            match b {
                Some(y) => Some(y@),
                None => None,
            },
        ),
{
    match (a, b) {
        (Some(x), Some(y)) => x.same_as(y),
        (None, None) => true,
        _ => false,
    }
}

/// The changes that take a sender to a newer state.
fn list_changes(
    known: Option<&RemoteState>,
    sender: u32,
    state: &StateMessage,
    active: &Option<Transmission>,
) -> (changes: Vec<PeerStateAction>)
    ensures
        model::views(changes@) == changes_of(
            match known {
                Some(old) => Some(old@),
                None => None,
            },
            sender,
            state@,
            model::optional(*active),
        ),
{
    broadcast use model::group_views;

    let mut changes: Vec<PeerStateAction> = Vec::new();
    let before: Option<&Transmission> = match known {
        Some(old) => old.active.as_ref(),
        None => None,
    };
    let replaced: bool = match known {
        Some(old) => old.header.generation != state.header.generation || !same_text(
            old.net_id.as_str(),
            state.net_id.as_str(),
        ),
        None => false,
    };
    let changed: bool = replaced || !is_same_active(before, active.as_ref());
    if changed {
        match before {
            Some(t) => {
                changes.push(PeerStateAction::TransmissionStopped(t.clone()));
            },
            None => {},
        }
    }
    if known.is_none() || replaced {
        changes.push(
            PeerStateAction::Identity { voice_client_id: sender, net_id: state.net_id.clone() },
        );
    }
    if changed {
        match active {
            Some(t) => {
                changes.push(PeerStateAction::TransmissionStarted(t.clone()));
            },
            None => {},
        }
    }
    proof {
        let old = match known {
            Some(old) => Some(old@),
            None => None,
        };
        assert(model::views(changes@) =~= changes_of(old, sender, state@, model::optional(*active)));
    }
    changes
}

impl Default for RemotePeers {
    fn default() -> (peers: Self)
        ensures
            peers@ == Map::<u32, RemoteView>::empty(),
    {
        let peers = RemotePeers { states: HashMap::new() };
        assert(peers@ =~= Map::<u32, RemoteView>::empty());
        peers
    }
}

impl RemotePeers {
    /// Accepts a state that Mumble attributes to `sender`.
    pub fn receive(&mut self, sender: u32, scope: &str, state: StateMessage, now: u64) -> (changes:
        Result<Vec<PeerStateAction>, String>)
        ensures
            (final(self)@, model::list_outcome(changes)) == received(
                old(self)@,
                sender,
                scope@,
                state@,
                now,
            ),
    {
        broadcast use model::group_views;

        let ghost before = self@;
        proof {
            assert(before.dom() =~= self.states@.dom());
        }
        state.validate()?;
        if !same_text(state.header.scope.as_str(), scope) {
            return Err("mission scope mismatch".to_owned());
        }
        let known: Option<&RemoteState> = self.states.get(&sender);
        match known {
            Some(old) => {
                if state.header.generation < old.header.generation || (state.header.generation
                    == old.header.generation && state.header.sequence <= old.header.sequence) {
                    return Ok(Vec::new());
                }
            },
            None => {
                if self.states.len() >= ACRE_AUDIO_MAX_SPEAKERS {
                    return Err("peer capacity reached".to_owned());
                }
            },
        }
        let active: Option<Transmission> = state.transmission(sender)?;
        let changes: Vec<PeerStateAction> = list_changes(known, sender, &state, &active);
        let next = RemoteState {
            header: state.header,
            net_id: state.net_id,
            active,
            refreshed: now,
        };
        self.states.insert(sender, next);
        assert(self@ =~= before.insert(sender, next@));
        Ok(changes)
    }

    /// The senders in ascending order.
    pub fn ids(&self) -> (ids: Vec<u32>)
        ensures
            ids@ == order::ascending(self@.dom()),
    {
        assert(self@.dom() =~= self.states@.dom());
        ascending_keys(&self.states)
    }

    /// Ends the transmissions that were not refreshed in time, in ascending
    /// order of the senders; what was accepted stays accepted.
    pub fn expire(&mut self, now: u64) -> (changes: Vec<PeerStateAction>)
        ensures
            final(self)@ == all_after_expiry(old(self)@, now),
            model::views(changes@) == expiry_stops(
                old(self)@,
                order::ascending(old(self)@.dom()),
                now,
            ),
    {
        broadcast use model::group_views;

        let ghost before = self@;
        let ids: Vec<u32> = self.ids();
        let ghost order = ids@;
        proof {
            order::lemma_ascending(before.dom());
        }
        let mut changes: Vec<PeerStateAction> = Vec::new();
        let mut i: usize = 0;
        assert(order.take(0) =~= Seq::<u32>::empty());
        while i < ids.len()
            invariant
                i <= ids@.len(),
                ids@ == order,
                order.no_duplicates(),
                order.to_set() == before.dom(),
                self@.dom() == before.dom(),
                forall|k: int|
                    0 <= k < i ==> self@[#[trigger] order[k]] == after_expiry(
                        before[order[k]],
                        now,
                    ),
                forall|k: int|
                    i <= k < order.len() ==> self@[#[trigger] order[k]] == before[order[k]],
                model::views(changes@) == expiry_stops(before, order.take(i as int), now),
            decreases ids@.len() - i,
        {
            broadcast use model::group_views;

            let id: u32 = ids[i];
            let ghost at_entry = self@;
            proof {
                assert(order.to_set().contains(order[i as int]));
                assert(self@.dom().contains(id));
                assert(order.take(i + 1).drop_last() =~= order.take(i as int));
                assert(order.take(i + 1).last() == id);
                assert(self@[order[i as int]] == before[order[i as int]]);
            }
            let ended: Option<RemoteState> = match self.states.get(&id) {
                Some(state) => if now.saturating_sub(state.refreshed) >= LEASE {
                    match &state.active {
                        Some(active) => {
                            changes.push(PeerStateAction::TransmissionStopped(active.clone()));
                            Some(
                                RemoteState {
                                    header: state.header.clone(),
                                    net_id: state.net_id.clone(),
                                    active: None,
                                    refreshed: state.refreshed,
                                },
                            )
                        },
                        None => None,
                    }
                } else {
                    None
                },
                None => None,
            };
            match ended {
                Some(state) => {
                    self.states.insert(id, state);
                    proof {
                        assert(state@ =~= after_expiry(before[id], now));
                        assert(self@ =~= at_entry.insert(id, state@));
                    }
                },
                None => {},
            }
            proof {
                assert(self@.dom() =~= before.dom());
                assert forall|k: int| 0 <= k < i + 1 implies self@[#[trigger] order[k]]
                    == after_expiry(before[order[k]], now) by {
                    if k < i {
                        assert(order[k] != order[i as int]);
                    }
                }
                assert forall|k: int| i + 1 <= k < order.len() implies self@[#[trigger] order[k]]
                    == before[order[k]] by {
                    assert(order[k] != order[i as int]);
                }
            }
            i += 1;
        }
        proof {
            assert(order.take(i as int) =~= order);
            assert forall|id: u32| before.dom().contains(id) implies self@[id] == after_expiry(
                before[id],
                now,
            ) by {
                assert(order.to_set().contains(id));
                let k = choose|k: int| 0 <= k < order.len() && order[k] == id;
                assert(self@[order[k]] == after_expiry(before[order[k]], now));
            }
            assert(self@ =~= all_after_expiry(before, now));
        }
        changes
    }

    /// Forgets a sender. An unknown one changes nothing.
    pub fn remove(&mut self, sender: u32) -> (changes: Vec<PeerStateAction>)
        ensures
            final(self)@ == old(self)@.remove(sender),
            model::views(changes@) == farewell(known_of(old(self)@, sender), sender),
    {
        broadcast use model::group_views;

        let ghost before = self@;
        let mut changes: Vec<PeerStateAction> = Vec::new();
        let removed: Option<RemoteState> = self.states.remove(&sender);
        assert(self@ =~= before.remove(sender));
        match removed {
            Some(state) => {
                match state.active {
                    Some(active) => {
                        changes.push(PeerStateAction::TransmissionStopped(active));
                    },
                    None => {},
                }
                changes.push(PeerStateAction::Reset { voice_client_id: sender });
                assert(model::views(changes@) =~= farewell(known_of(before, sender), sender));
            },
            None => {},
        }
        changes
    }

    /// When each sender that may be heard was last refreshed.
    pub fn audible(&self, now: u64) -> (audible: HashMap<u32, u64>)
        ensures
            audible@ == audible_of(self@, now),
    {
        let ids: Vec<u32> = self.ids();
        proof {
            order::lemma_ascending(self@.dom());
        }
        let mut audible: HashMap<u32, u64> = HashMap::new();
        let mut i: usize = 0;
        while i < ids.len()
            invariant
                i <= ids@.len(),
                ids@.to_set() == self@.dom(),
                forall|id: u32| #[trigger]
                    audible@.contains_key(id) ==> self@.contains_key(id) && is_audible(
                        self@[id],
                        now,
                    ) && audible@[id] == self@[id].refreshed,
                forall|k: int|
                    0 <= k < i && is_audible(self@[#[trigger] ids@[k]], now)
                        ==> audible@.contains_key(ids@[k]),
            decreases ids@.len() - i,
        {
            let id: u32 = ids[i];
            proof {
                assert(ids@.to_set().contains(ids@[i as int]));
                assert(self@.dom().contains(id));
            }
            match self.states.get(&id) {
                Some(state) => {
                    if state.active.is_some() && now.saturating_sub(state.refreshed) < LEASE {
                        audible.insert(id, state.refreshed);
                    }
                },
                None => {},
            }
            i += 1;
        }
        proof {
            assert forall|id: u32|
                self@.contains_key(id) && is_audible(self@[id], now) implies #[trigger]
            audible@.contains_key(id) by {
                assert(self@.dom().contains(id));
                assert(ids@.to_set().contains(id));
                let k = choose|k: int| 0 <= k < ids@.len() && ids@[k] == id;
                assert(is_audible(self@[ids@[k]], now));
            }
            assert(audible@ =~= audible_of(self@, now));
        }
        audible
    }

    /// Forgets every sender, one after the other in ascending order.
    pub fn clear(&mut self) -> (changes: Vec<PeerStateAction>)
        ensures
            final(self)@ == Map::<u32, RemoteView>::empty(),
            model::views(changes@) == farewells(old(self)@, order::ascending(old(self)@.dom())),
    {
        broadcast use model::group_views;

        let ghost before = self@;
        let ids: Vec<u32> = self.ids();
        let ghost order = ids@;
        proof {
            order::lemma_ascending(before.dom());
        }
        let mut changes: Vec<PeerStateAction> = Vec::new();
        let mut i: usize = 0;
        assert(order.take(0) =~= Seq::<u32>::empty());
        while i < ids.len()
            invariant
                i <= ids@.len(),
                ids@ == order,
                order.no_duplicates(),
                forall|k: int|
                    i <= k < order.len() ==> known_of(self@, #[trigger] order[k]) == known_of(
                        before,
                        order[k],
                    ),
                model::views(changes@) == farewells(before, order.take(i as int)),
            decreases ids@.len() - i,
        {
            broadcast use model::group_views;

            let id: u32 = ids[i];
            proof {
                assert(order.take(i + 1).drop_last() =~= order.take(i as int));
                assert(order.take(i + 1).last() == id);
                assert(known_of(self@, order[i as int]) == known_of(before, order[i as int]));
            }
            let ghost earlier = changes@;
            let ghost at_entry = self@;
            let mut more: Vec<PeerStateAction> = self.remove(id);
            let ghost added = more@;
            changes.append(&mut more);
            proof {
                assert(changes@ =~= earlier + added);
                assert forall|k: int| i + 1 <= k < order.len() implies known_of(
                    self@,
                    #[trigger] order[k],
                ) == known_of(before, order[k]) by {
                    assert(order[k] != order[i as int]);
                    assert(known_of(at_entry, order[k]) == known_of(before, order[k]));
                }
            }
            i += 1;
        }
        assert(order.take(i as int) =~= order);
        self.states.clear();
        assert(self@ =~= Map::<u32, RemoteView>::empty());
        changes
    }
}

/// Whether a state under the header would come too late for the sender.
pub open spec fn late_for(peers: Map<u32, RemoteView>, sender: u32, header: HeaderView) -> bool {
    peers.contains_key(sender) && is_late(peers[sender].header, header)
}

/// A state that was accepted once is never accepted again while its sender is
/// known: its header is late from then on, after further states of any sender
/// and after the end of any lease, and a late state changes nothing.
pub proof fn law_accepted_states_never_return(
    peers: Map<u32, RemoteView>,
    sender: u32,
    scope: Seq<char>,
    state: StateView,
    now: u64,
    other: u32,
    other_state: StateView,
)
    ensures
        received(peers, sender, scope, state, now).1 is Ok ==> late_for(
            received(peers, sender, scope, state, now).0,
            sender,
            state.header,
        ),
        late_for(peers, sender, state.header) ==> {
            &&& received(peers, sender, scope, state, now).0 == peers
            &&& received(peers, sender, scope, state, now).1 matches Ok(changes) ==> changes
                == Seq::<PeerActionView>::empty()
            &&& late_for(
                received(peers, other, scope, other_state, now).0,
                sender,
                state.header,
            )
            &&& late_for(all_after_expiry(peers, now), sender, state.header)
        },
{
}

/// A refused state consumes nothing: what is known of every peer stays as it
/// was.
pub proof fn law_refused_states_change_nothing(
    peers: Map<u32, RemoteView>,
    sender: u32,
    scope: Seq<char>,
    state: StateView,
    now: u64,
)
    requires
        received(peers, sender, scope, state, now).1 is Err,
    ensures
        received(peers, sender, scope, state, now).0 == peers,
{
}

/// One accepted state alone settles what is known of its sender, whatever was
/// known before: a lost start, stop or handshake is made good by the next
/// state.
pub proof fn law_one_state_settles_its_sender(
    peers: Map<u32, RemoteView>,
    sender: u32,
    scope: Seq<char>,
    state: StateView,
    now: u64,
)
    requires
        received(peers, sender, scope, state, now).1 is Ok,
        !late_for(peers, sender, state.header),
    ensures
        known_of(received(peers, sender, scope, state, now).0, sender) == Some(
            RemoteView {
                header: state.header,
                net_id: state.net_id,
                active: state_transmission(state, sender)->Ok_0,
                refreshed: now,
            },
        ),
{
}

/// A state that the sender built is accepted by a peer who does not know the
/// sender yet, and tells of exactly the sender's identity and transmission,
/// attributed to the sender that Mumble names.
pub proof fn law_built_states_are_understood(
    peers: Map<u32, RemoteView>,
    sender: u32,
    scope: Seq<char>,
    generation: u64,
    sequence: u64,
    net_id: Seq<char>,
    active: Option<TransmissionView>,
    now: u64,
)
    requires
        new_state(scope, generation, sequence, net_id, active) is Ok,
        !peers.contains_key(sender),
        peers.len() < ACRE_AUDIO_MAX_SPEAKERS,
    ensures
        ({
            let state = new_state(scope, generation, sequence, net_id, active)->Ok_0;
            let identity = PeerActionView::Identity { voice_client_id: sender, net_id };
            received(peers, sender, scope, state, now).1 == Ok::<Seq<PeerActionView>, Seq<char>>(
                match active {
                    Some(t) => seq![
                        identity,
                        PeerActionView::TransmissionStarted(
                            TransmissionView { voice_client_id: sender, ..t },
                        ),
                    ],
                    None => seq![identity],
                },
            )
        }),
{
    let state = new_state(scope, generation, sequence, net_id, active)->Ok_0;
    let identity = PeerActionView::Identity { voice_client_id: sender, net_id };
    let told = received(peers, sender, scope, state, now).1->Ok_0;
    match active {
        Some(t) => {
            assert(told =~= seq![
                identity,
                PeerActionView::TransmissionStarted(
                    TransmissionView { voice_client_id: sender, ..t },
                ),
            ]);
        },
        None => {
            assert(told =~= seq![identity]);
        },
    }
}

/// What a listener to the changes knows to be transmitting, where every start
/// finds nothing and every stop ends just what is known; `None` where that
/// fails.
pub open spec fn followed(
    known: Option<TransmissionView>,
    changes: Seq<PeerActionView>,
) -> Option<Option<TransmissionView>>
    decreases changes.len(),
{
    if changes.len() == 0 {
        Some(known)
    } else {
        match followed(known, changes.drop_last()) {
            None => None,
            Some(now) => match changes.last() {
                PeerActionView::TransmissionStarted(t) => if now is None {
                    Some(Some(t))
                } else {
                    None
                },
                PeerActionView::TransmissionStopped(t) => if now == Some(t) {
                    Some(None)
                } else {
                    None
                },
                _ => Some(now),
            },
        }
    }
}

/// The changes of a state pair starts and stops: who follows them ends up with
/// the transmission that the state announces.
pub proof fn law_changes_pair_starts_and_stops(
    known: Option<RemoteView>,
    sender: u32,
    state: StateView,
    active: Option<TransmissionView>,
)
    ensures
        ({
            let before = match known {
                Some(old) => old.active,
                None => None,
            };
            let after = followed(before, changes_of(known, sender, state, active));
            &&& after is Some
            &&& after->0 is Some <==> active is Some
            &&& active matches Some(t) ==> {
                let left = after->0->0;
                &&& left.voice_client_id == t.voice_client_id
                &&& left.language_id == t.language_id
                &&& left.net_id == t.net_id
                &&& left.speaking_kind == t.speaking_kind
                &&& left.radio_id == t.radio_id
                &&& left.curve_scale == t.curve_scale || left.curve_scale % 0x8000_0000 == 0
                    && t.curve_scale % 0x8000_0000 == 0
            }
        }),
{
    reveal_with_fuel(followed, 4);
    let before = match known {
        Some(old) => old.active,
        None => None,
    };
    let changes = changes_of(known, sender, state, active);
    if changes.len() > 0 {
        assert(changes.drop_last() =~= changes.take(changes.len() - 1));
    }
    if changes.len() > 1 {
        assert(changes.drop_last().drop_last() =~= changes.take(changes.len() - 2));
    }
    if active is Some {
        assert(same_active(active, active));
    }
}

/// Once the outlived transmissions have ended, exactly the peers who may be
/// heard transmit, and ending them again changes nothing.
pub proof fn law_expiry_leaves_the_audible(peers: Map<u32, RemoteView>, now: u64, id: u32)
    ensures
        ({
            let after = all_after_expiry(peers, now);
            &&& after.contains_key(id) == peers.contains_key(id)
            &&& after.contains_key(id) ==> (after[id].active is Some <==> is_audible(
                peers[id],
                now,
            ))
            &&& all_after_expiry(after, now) == after
        }),
{
    let after = all_after_expiry(peers, now);
    assert(all_after_expiry(after, now) =~= after);
}

/// The senders whose transmissions end for want of a refresh.
pub open spec fn expiring(peers: Map<u32, RemoteView>, now: u64) -> Set<u32> {
    Set::new(|id: u32| peers.contains_key(id) && expires(peers[id], now))
}

/// The ends of the senders' transmissions, one for each.
pub open spec fn stops_of(peers: Map<u32, RemoteView>, senders: Seq<u32>) -> Seq<PeerActionView> {
    Seq::new(
        senders.len(),
        |i: int| PeerActionView::TransmissionStopped(peers[senders[i]].active->0),
    )
}

proof fn lemma_stops_below(peers: Map<u32, RemoteView>, below: nat, now: u64)
    requires
        below <= 0x1_0000_0000,
    ensures
        expiry_stops(peers, order::ascending_below(peers.dom(), below), now) == stops_of(
            peers,
            order::ascending_below(expiring(peers, now), below),
        ),
    decreases below,
{
    let all = order::ascending_below(peers.dom(), below);
    let some = order::ascending_below(expiring(peers, now), below);
    if below == 0 {
        assert(stops_of(peers, some) =~= Seq::<PeerActionView>::empty());
    } else {
        let last = (below - 1) as u32;
        lemma_stops_below(peers, (below - 1) as nat, now);
        let rest = order::ascending_below(peers.dom(), (below - 1) as nat);
        let fewer = order::ascending_below(expiring(peers, now), (below - 1) as nat);
        assert(rest.push(last).drop_last() =~= rest);
        assert(stops_of(peers, fewer.push(last)) =~= stops_of(peers, fewer).push(
            PeerActionView::TransmissionStopped(peers[last].active->0),
        ));
    }
}

/// Expiry ends exactly the transmissions that were not refreshed in time: one
/// stop for each of those senders, in ascending order, and nothing else. Those
/// senders are no longer heard at any time, everyone else is heard as before,
/// no sender is forgotten, and a second expiry at the same time has nothing to
/// end.
pub proof fn law_expiry_stops_each_lapsed_sender_once(peers: Map<u32, RemoteView>, now: u64)
    ensures
        ({
            let after = all_after_expiry(peers, now);
            let senders = order::ascending(expiring(peers, now));
            &&& senders.no_duplicates()
            &&& senders.to_set() == expiring(peers, now)
            &&& expiry_stops(peers, order::ascending(peers.dom()), now) == stops_of(peers, senders)
            &&& after.dom() == peers.dom()
            &&& forall|id: u32, later: u64|
                (#[trigger] audible_of(after, later).contains_key(id)) <==> audible_of(
                    peers,
                    later,
                ).contains_key(id) && !expiring(peers, now).contains(id)
            &&& expiry_stops(after, order::ascending(after.dom()), now) == Seq::<
                PeerActionView,
            >::empty()
        }),
{
    let after = all_after_expiry(peers, now);
    order::lemma_ascending(expiring(peers, now));
    lemma_stops_below(peers, 0x1_0000_0000, now);
    assert(after.dom() =~= peers.dom());
    lemma_stops_below(after, 0x1_0000_0000, now);
    let none = order::ascending(expiring(after, now));
    order::lemma_ascending(expiring(after, now));
    if none.len() > 0 {
        assert(none.to_set().contains(none[0]));
        assert(expiring(after, now).contains(none[0]));
    }
    assert(stops_of(after, none) =~= Seq::<PeerActionView>::empty());
}

/// What was framed is within the bound of the transport, and unframing it gives
/// the state back, as far as the parser reads what the serializer wrote. A
/// serializer writes at least one byte.
pub proof fn law_framed_states_are_restored(
    state: StateView,
    serialized: Result<Seq<u8>, Seq<char>>,
)
    requires
        framed_as(state, serialized) is Ok,
        framed_as(state, serialized)->Ok_0.len() > 0,
    ensures
        ({
            let bytes = framed_as(state, serialized)->Ok_0;
            &&& serialized == Ok::<Seq<u8>, Seq<char>>(bytes)
            &&& bytes.len() <= ACRE_PEER_MAX_MESSAGE_BYTES
            &&& unframed_from(bytes, Ok(state)) == Ok::<StateView, Seq<char>>(state)
        }),
{
}

/// There are never more peers than a snapshot may hold.
pub proof fn law_peers_stay_bounded(
    peers: Map<u32, RemoteView>,
    sender: u32,
    scope: Seq<char>,
    state: StateView,
    now: u64,
)
    requires
        peers.dom().finite(),
        peers.len() <= ACRE_AUDIO_MAX_SPEAKERS,
    ensures
        ({
            let after = received(peers, sender, scope, state, now).0;
            after.dom().finite() && after.len() <= ACRE_AUDIO_MAX_SPEAKERS
        }),
        all_after_expiry(peers, now).len() == peers.len(),
{
    let after = received(peers, sender, scope, state, now).0;
    assert(after.dom() =~= peers.dom() || after.dom() =~= peers.dom().insert(sender));
    assert(all_after_expiry(peers, now).dom() =~= peers.dom());
}

} // verus!
