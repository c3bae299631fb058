//! Versioned control messages between adapters, independent of their
//! transport.
//!
//! The sender that Mumble names is the voice identity; no message carries one.

use crate::binary32::{self, is_equal, is_finite};
use crate::decimal::{self, push_decimal};
use crate::model;
use crate::session::ACRE2_PLUGIN_VERSION;
use crate::text::same_text;
use vstd::prelude::*;
use vstd::std_specs::cmp::PartialEqSpecImpl;
use vstd::utf8::encode_utf8;

verus! {

/// The version of the peer protocol.
pub const ACRE_PEER_PROTOCOL_VERSION: u8 = 1;

/// The longest encoded peer message.
pub const ACRE_PEER_MAX_MESSAGE_BYTES: usize = 1024;

pub const MAX_SCOPE_BYTES: usize = 96;

pub const MAX_NET_ID_BYTES: usize = 128;

pub const MAX_RADIO_ID_BYTES: usize = 128;

pub const MAX_ACRE_VERSION_BYTES: usize = 32;

/// What orders a message within one channel and mission. The generation
/// changes when a participant reconnects or changes scope.
#[derive(Debug, PartialEq, Eq)]
pub struct PeerHeader {
    pub version: u8,
    pub scope: String,
    pub generation: u64,
    pub sequence: u64,
}

/// The model of a header.
#[verifier::ext_equal]
pub struct HeaderView {
    pub version: u8,
    pub scope: Seq<char>,
    pub generation: u64,
    pub sequence: u64,
}

/// The speaking modes that peers announce.
#[derive(Clone, Copy, Debug, PartialEq, Eq, Structural)]
pub enum PeerSpeakingKind {
    Direct,
    Radio,
    Intercom,
    God,
    Zeus,
}

/// The body of a peer message.
#[derive(Debug)]
pub enum PeerPayload {
    Hello { acre_version: String },
    Identity { net_id: String },
    Start {
        kind: PeerSpeakingKind,
        net_id: String,
        radio_id: String,
        language_id: i32,
        curve_scale: u32,
    },
    Stop { kind: PeerSpeakingKind },
    Reset,
}

/// The model of a body.
#[verifier::ext_equal]
pub enum PayloadView {
    Hello { acre_version: Seq<char> },
    Identity { net_id: Seq<char> },
    Start {
        kind: PeerSpeakingKind,
        net_id: Seq<char>,
        radio_id: Seq<char>,
        language_id: i32,
        curve_scale: u32,
    },
    Stop { kind: PeerSpeakingKind },
    Reset,
}

/// Whether two bodies are equal, their numbers as numbers.
pub open spec fn same_payload(a: PayloadView, b: PayloadView) -> bool {
    match (a, b) {
        (
            PayloadView::Start { kind, net_id, radio_id, language_id, curve_scale },
            PayloadView::Start {
                kind: other_kind,
                net_id: other_net_id,
                radio_id: other_radio_id,
                language_id: other_language_id,
                curve_scale: other_scale,
            },
        ) => kind == other_kind && net_id == other_net_id && radio_id == other_radio_id
            && language_id == other_language_id && binary32::equal(curve_scale, other_scale),
        _ => a == b,
    }
}

impl PartialEq for PeerPayload {
    fn eq(&self, other: &Self) -> (same: bool) {
        match (self, other) {
            (PeerPayload::Hello { acre_version }, PeerPayload::Hello { acre_version: version }) =>
                same_text(acre_version.as_str(), version.as_str()),
            (PeerPayload::Identity { net_id }, PeerPayload::Identity { net_id: other_net_id }) =>
                same_text(net_id.as_str(), other_net_id.as_str()),
            (
                PeerPayload::Start { kind, net_id, radio_id, language_id, curve_scale },
                PeerPayload::Start {
                    kind: other_kind,
                    net_id: other_net_id,
                    radio_id: other_radio_id,
                    language_id: other_language_id,
                    curve_scale: other_scale,
                },
            ) => *kind == *other_kind && same_text(net_id.as_str(), other_net_id.as_str())
                && same_text(radio_id.as_str(), other_radio_id.as_str()) && *language_id
                == *other_language_id && is_equal(*curve_scale, *other_scale),
            (PeerPayload::Stop { kind }, PeerPayload::Stop { kind: other_kind }) => *kind
                == *other_kind,
            (PeerPayload::Reset, PeerPayload::Reset) => true,
            _ => false,
        }
    }
}

impl PartialEqSpecImpl for PeerPayload {
    open spec fn obeys_eq_spec() -> bool {
        true
    }

    open spec fn eq_spec(&self, other: &Self) -> bool {
        same_payload(self@, other@)
    }
}

/// One complete peer message.
#[derive(Debug, PartialEq)]
pub struct PeerEnvelope {
    pub header: PeerHeader,
    pub payload: PeerPayload,
}

/// The model of a peer message.
#[verifier::ext_equal]
pub struct EnvelopeView {
    pub header: HeaderView,
    pub payload: PayloadView,
}

/// Why a peer message was refused. The two codec failures carry the codec's
/// own words.
#[derive(Debug, PartialEq, Eq)]
pub enum AcrePeerError {
    UnsupportedVersion(u8),
    UnsupportedAcreVersion(String),
    EmptyMessage,
    MessageTooLong { length: usize, limit: usize },
    EmptyField(&'static str),
    FieldTooLong { field: &'static str, length: usize, limit: usize },
    InvalidField(&'static str),
    ZeroGeneration,
    ZeroSequence,
    NonFiniteCurveScale,
    RadioStartWithoutRadioId,
    UnexpectedRadioId(PeerSpeakingKind),
    Serialize(String),
    Deserialize(String),
}

/// The model of a refusal.
#[verifier::ext_equal]
pub enum PeerFault {
    UnsupportedVersion(u8),
    UnsupportedAcreVersion(Seq<char>),
    EmptyMessage,
    MessageTooLong { length: usize, limit: usize },
    EmptyField(Seq<char>),
    FieldTooLong { field: Seq<char>, length: usize, limit: usize },
    InvalidField(Seq<char>),
    ZeroGeneration,
    ZeroSequence,
    NonFiniteCurveScale,
    RadioStartWithoutRadioId,
    UnexpectedRadioId(PeerSpeakingKind),
    Serialize(Seq<char>),
    Deserialize(Seq<char>),
}

/// How a header stands to the stream of one remote peer.
#[derive(Clone, Copy, Debug, PartialEq, Eq, Structural)]
pub enum PeerOrderDecision {
    AcceptedFirst,
    AcceptedNext,
    AcceptedNewGeneration,
    AcceptedNewScope,
    RejectedStale,
}

/// The order of one sender's messages.
#[derive(Debug, PartialEq, Eq)]
pub struct PeerOrderTracker {
    current: Option<PeerHeader>,
}

impl View for PeerHeader {
    type V = HeaderView;

    open spec fn view(&self) -> HeaderView {
        HeaderView {
            version: self.version,
            scope: self.scope@,
            generation: self.generation,
            sequence: self.sequence,
        }
    }
}

impl Clone for PeerHeader {
    fn clone(&self) -> (copy: Self)
        ensures
            copy@ == self@,
    {
        PeerHeader {
            version: self.version,
            scope: self.scope.clone(),
            generation: self.generation,
            sequence: self.sequence,
        }
    }
}

impl View for PeerPayload {
    type V = PayloadView;

    open spec fn view(&self) -> PayloadView {
        match *self {
            PeerPayload::Hello { acre_version } => PayloadView::Hello {
                acre_version: acre_version@,
            },
            PeerPayload::Identity { net_id } => PayloadView::Identity { net_id: net_id@ },
            PeerPayload::Start { kind, net_id, radio_id, language_id, curve_scale } =>
                PayloadView::Start {
                kind,
                net_id: net_id@,
                radio_id: radio_id@,
                language_id,
                curve_scale,
            },
            PeerPayload::Stop { kind } => PayloadView::Stop { kind },
            PeerPayload::Reset => PayloadView::Reset,
        }
    }
}

impl Clone for PeerPayload {
    fn clone(&self) -> (copy: Self)
        ensures
            copy@ == self@,
    {
        match self {
            PeerPayload::Hello { acre_version } => PeerPayload::Hello {
                acre_version: acre_version.clone(),
            },
            PeerPayload::Identity { net_id } => PeerPayload::Identity { net_id: net_id.clone() },
            PeerPayload::Start { kind, net_id, radio_id, language_id, curve_scale } =>
                PeerPayload::Start {
                kind: *kind,
                net_id: net_id.clone(),
                radio_id: radio_id.clone(),
                language_id: *language_id,
                curve_scale: *curve_scale,
            },
            PeerPayload::Stop { kind } => PeerPayload::Stop { kind: *kind },
            PeerPayload::Reset => PeerPayload::Reset,
        }
    }
}

impl View for PeerEnvelope {
    type V = EnvelopeView;

    open spec fn view(&self) -> EnvelopeView {
        EnvelopeView { header: self.header@, payload: self.payload@ }
    }
}

impl View for AcrePeerError {
    type V = PeerFault;

    open spec fn view(&self) -> PeerFault {
        match *self {
            AcrePeerError::UnsupportedVersion(version) => PeerFault::UnsupportedVersion(version),
            AcrePeerError::UnsupportedAcreVersion(version) => PeerFault::UnsupportedAcreVersion(
                version@,
            ),
            AcrePeerError::EmptyMessage => PeerFault::EmptyMessage,
            AcrePeerError::MessageTooLong { length, limit } => PeerFault::MessageTooLong {
                length,
                limit,
            },
            AcrePeerError::EmptyField(field) => PeerFault::EmptyField(field@),
            AcrePeerError::FieldTooLong { field, length, limit } => PeerFault::FieldTooLong {
                field: field@,
                length,
                limit,
            },
            AcrePeerError::InvalidField(field) => PeerFault::InvalidField(field@),
            AcrePeerError::ZeroGeneration => PeerFault::ZeroGeneration,
            AcrePeerError::ZeroSequence => PeerFault::ZeroSequence,
            AcrePeerError::NonFiniteCurveScale => PeerFault::NonFiniteCurveScale,
            AcrePeerError::RadioStartWithoutRadioId => PeerFault::RadioStartWithoutRadioId,
            AcrePeerError::UnexpectedRadioId(kind) => PeerFault::UnexpectedRadioId(kind),
            AcrePeerError::Serialize(words) => PeerFault::Serialize(words@),
            AcrePeerError::Deserialize(words) => PeerFault::Deserialize(words@),
        }
    }
}

impl View for PeerOrderTracker {
    type V = Option<HeaderView>;

    closed spec fn view(&self) -> Option<HeaderView> {
        model::optional(self.current)
    }
}

/// The name of a mode.
pub open spec fn kind_name(kind: PeerSpeakingKind) -> Seq<char> {
    match kind {
        PeerSpeakingKind::Direct => "Direct"@,
        PeerSpeakingKind::Radio => "Radio"@,
        PeerSpeakingKind::Intercom => "Intercom"@,
        PeerSpeakingKind::God => "God"@,
        PeerSpeakingKind::Zeus => "Zeus"@,
    }
}

impl PeerFault {
    /// The refusal in words.
    pub open spec fn words(self) -> Seq<char> {
        match self {
            PeerFault::UnsupportedVersion(version) => "peer protocol version "@
                + decimal::decimal(version as nat) + " is unsupported"@,
            PeerFault::UnsupportedAcreVersion(version) => "peer ACRE version "@ + version
                + " is unsupported"@,
            PeerFault::EmptyMessage => "peer message is empty"@,
            PeerFault::MessageTooLong { length, limit } => "peer message is "@ + decimal::decimal(
                length as nat,
            ) + " bytes; limit is "@ + decimal::decimal(limit as nat),
            PeerFault::EmptyField(field) => "peer field "@ + field + " cannot be empty"@,
            PeerFault::FieldTooLong { field, length, limit } => "peer field "@ + field + " is "@
                + decimal::decimal(length as nat) + " bytes; limit is "@ + decimal::decimal(
                limit as nat,
            ),
            PeerFault::InvalidField(field) => "peer field "@ + field
                + " contains unsupported characters"@,
            PeerFault::ZeroGeneration => "peer generation must be non-zero"@,
            PeerFault::ZeroSequence => "peer sequence must be non-zero"@,
            PeerFault::NonFiniteCurveScale => "peer START curve scale must be finite"@,
            PeerFault::RadioStartWithoutRadioId => "peer radio START requires a radio ID"@,
            PeerFault::UnexpectedRadioId(kind) => "peer "@ + kind_name(kind)
                + " START must not contain a radio ID"@,
            PeerFault::Serialize(words) => "peer message serialization failed: "@ + words,
            PeerFault::Deserialize(words) => "peer message parsing failed: "@ + words,
        }
    }
}

/// A text with another one behind it.
fn joined(head: &str, tail: &str) -> (both: String)
    ensures
        both@ == head@ + tail@,
{
    let mut both: String = head.to_owned();
    both.append(tail);
    both
}

impl AcrePeerError {
    /// Puts the error into words.
    pub fn to_string(&self) -> (words: String)
        ensures
            words@ == self@.words(),
    {
        match self {
            AcrePeerError::UnsupportedVersion(version) => {
                let mut words: String = "peer protocol version ".to_owned();
                push_decimal(&mut words, *version as u64);
                words.append(" is unsupported");
                words
            },
            AcrePeerError::UnsupportedAcreVersion(version) => {
                let mut words: String = joined("peer ACRE version ", version.as_str());
                words.append(" is unsupported");
                words
            },
            AcrePeerError::EmptyMessage => "peer message is empty".to_owned(),
            AcrePeerError::MessageTooLong { length, limit } => {
                let mut words: String = "peer message is ".to_owned();
                push_decimal(&mut words, *length as u64);
                words.append(" bytes; limit is ");
                push_decimal(&mut words, *limit as u64);
                words
            },
            AcrePeerError::EmptyField(field) => {
                let mut words: String = joined("peer field ", field);
                words.append(" cannot be empty");
                words
            },
            AcrePeerError::FieldTooLong { field, length, limit } => {
                let mut words: String = joined("peer field ", field);
                words.append(" is ");
                push_decimal(&mut words, *length as u64);
                words.append(" bytes; limit is ");
                push_decimal(&mut words, *limit as u64);
                words
            },
            AcrePeerError::InvalidField(field) => {
                let mut words: String = joined("peer field ", field);
                words.append(" contains unsupported characters");
                words
            },
            AcrePeerError::ZeroGeneration => "peer generation must be non-zero".to_owned(),
            AcrePeerError::ZeroSequence => "peer sequence must be non-zero".to_owned(),
            AcrePeerError::NonFiniteCurveScale =>
                "peer START curve scale must be finite".to_owned(),
            AcrePeerError::RadioStartWithoutRadioId =>
                "peer radio START requires a radio ID".to_owned(),
            AcrePeerError::UnexpectedRadioId(kind) => {
                let name: &str = match kind {
                    PeerSpeakingKind::Direct => "Direct",
                    PeerSpeakingKind::Radio => "Radio",
                    PeerSpeakingKind::Intercom => "Intercom",
                    PeerSpeakingKind::God => "God",
                    PeerSpeakingKind::Zeus => "Zeus",
                };
                let mut words: String = joined("peer ", name);
                words.append(" START must not contain a radio ID");
                words
            },
            AcrePeerError::Serialize(inner) => joined(
                "peer message serialization failed: ",
                inner.as_str(),
            ),
            AcrePeerError::Deserialize(inner) => joined(
                "peer message parsing failed: ",
                inner.as_str(),
            ),
        }
    }
}

/// Printable ASCII except the comma, which would not fit into an RPC
/// parameter, and except the space.
pub open spec fn is_token_byte(byte: u8) -> bool {
    33 <= byte <= 126 && byte != 44
}

/// What is wrong with a token field.
pub open spec fn token_fault(
    field: Seq<char>,
    value: Seq<char>,
    limit: usize,
    allow_empty: bool,
) -> Option<PeerFault> {
    let bytes = encode_utf8(value);
    if value.len() == 0 && !allow_empty {
        Some(PeerFault::EmptyField(field))
    } else if bytes.len() > limit {
        Some(PeerFault::FieldTooLong { field, length: bytes.len() as usize, limit })
    } else if exists|i: int| 0 <= i < bytes.len() && !is_token_byte(#[trigger] bytes[i]) {
        Some(PeerFault::InvalidField(field))
    } else {
        None
    }
}

/// What is wrong with a header.
pub open spec fn header_fault(header: HeaderView) -> Option<PeerFault> {
    if header.version != ACRE_PEER_PROTOCOL_VERSION {
        Some(PeerFault::UnsupportedVersion(header.version))
    } else if token_fault("scope"@, header.scope, MAX_SCOPE_BYTES, false) is Some {
        token_fault("scope"@, header.scope, MAX_SCOPE_BYTES, false)
    } else if header.generation == 0 {
        Some(PeerFault::ZeroGeneration)
    } else if header.sequence == 0 {
        Some(PeerFault::ZeroSequence)
    } else {
        None
    }
}

/// What is wrong with a body.
pub open spec fn payload_fault(payload: PayloadView) -> Option<PeerFault> {
    match payload {
        PayloadView::Hello { acre_version } => {
            let token = token_fault("acre_version"@, acre_version, MAX_ACRE_VERSION_BYTES, false);
            if token is Some {
                token
            } else if acre_version != ACRE2_PLUGIN_VERSION@ {
                Some(PeerFault::UnsupportedAcreVersion(acre_version))
            } else {
                None
            }
        },
        PayloadView::Identity { net_id } => token_fault(
            "net_id"@,
            net_id,
            MAX_NET_ID_BYTES,
            false,
        ),
        PayloadView::Start { kind, net_id, radio_id, language_id, curve_scale } => {
            let net = token_fault("net_id"@, net_id, MAX_NET_ID_BYTES, false);
            let radio = token_fault("radio_id"@, radio_id, MAX_RADIO_ID_BYTES, true);
            if net is Some {
                net
            } else if radio is Some {
                radio
            } else if !binary32::finite(curve_scale) {
                Some(PeerFault::NonFiniteCurveScale)
            } else if kind == PeerSpeakingKind::Radio && radio_id.len() == 0 {
                Some(PeerFault::RadioStartWithoutRadioId)
            } else if kind != PeerSpeakingKind::Radio && radio_id.len() > 0 {
                Some(PeerFault::UnexpectedRadioId(kind))
            } else {
                None
            }
        },
        PayloadView::Stop { .. } => None,
        PayloadView::Reset => None,
    }
}

/// What is wrong with a peer message.
pub open spec fn envelope_fault(envelope: EnvelopeView) -> Option<PeerFault> {
    if header_fault(envelope.header) is Some {
        header_fault(envelope.header)
    } else {
        payload_fault(envelope.payload)
    }
}

/// A verdict that refuses what is at fault.
pub open spec fn verdict_of(fault: Option<PeerFault>) -> Result<(), PeerFault> {
    match fault {
        Some(fault) => Err(fault),
        None => Ok(()),
    }
}

/// What is wrong with the size of an encoded message.
pub open spec fn size_fault(length: nat) -> Option<PeerFault> {
    if length > ACRE_PEER_MAX_MESSAGE_BYTES {
        Some(
            PeerFault::MessageTooLong {
                length: length as usize,
                limit: ACRE_PEER_MAX_MESSAGE_BYTES,
            },
        )
    } else {
        None
    }
}

fn validate_token(field: &'static str, value: &String, limit: usize, allow_empty: bool) -> (verdict:
    Result<(), AcrePeerError>)
    ensures
        model::outcome(verdict) == verdict_of(token_fault(field@, value@, limit, allow_empty)),
{
    if value.as_str().is_empty() && !allow_empty {
        return Err(AcrePeerError::EmptyField(field));
    }
    let bytes: &[u8] = value.as_str().as_bytes();
    if bytes.len() > limit {
        return Err(AcrePeerError::FieldTooLong { field, length: bytes.len(), limit });
    }
    let mut i: usize = 0;
    while i < bytes.len()
        invariant
            i <= bytes@.len() <= limit,
            bytes@ == encode_utf8(value@),
            value@.len() > 0 || allow_empty,
            forall|k: int| 0 <= k < i ==> is_token_byte(#[trigger] bytes@[k]),
        decreases bytes@.len() - i,
    {
        let byte: u8 = bytes[i];
        if !(33 <= byte && byte <= 126 && byte != 44) {
            assert(!is_token_byte(encode_utf8(value@)[i as int]));
            return Err(AcrePeerError::InvalidField(field));
        }
        i += 1;
    }
    Ok(())
}

impl PeerHeader {
    /// A header of the current protocol version.
    pub fn new(scope: &str, generation: u64, sequence: u64) -> (header: Result<
        Self,
        AcrePeerError,
    >)
        ensures
            ({
                let view = HeaderView {
                    version: ACRE_PEER_PROTOCOL_VERSION,
                    scope: scope@,
                    generation,
                    sequence,
                };
                model::outcome(header) == match header_fault(view) {
                    Some(fault) => Err::<HeaderView, PeerFault>(fault),
                    None => Ok(view),
                }
            }),
    {
        let header = PeerHeader {
            version: ACRE_PEER_PROTOCOL_VERSION,
            scope: scope.to_owned(),
            generation,
            sequence,
        };
        header.validate()?;
        Ok(header)
    }

    /// Checks a header before it enters connection state.
    pub fn validate(&self) -> (verdict: Result<(), AcrePeerError>)
        ensures
            model::outcome(verdict) == verdict_of(header_fault(self@)),
    {
        if self.version != ACRE_PEER_PROTOCOL_VERSION {
            return Err(AcrePeerError::UnsupportedVersion(self.version));
        }
        validate_token("scope", &self.scope, MAX_SCOPE_BYTES, false)?;
        if self.generation == 0 {
            return Err(AcrePeerError::ZeroGeneration);
        }
        if self.sequence == 0 {
            return Err(AcrePeerError::ZeroSequence);
        }
        Ok(())
    }
}

impl PeerEnvelope {
    /// Creates and checks a peer message.
    pub fn new(header: PeerHeader, payload: PeerPayload) -> (envelope: Result<Self, AcrePeerError>)
        ensures
            ({
                let view = EnvelopeView { header: header@, payload: payload@ };
                model::outcome(envelope) == match envelope_fault(view) {
                    Some(fault) => Err::<EnvelopeView, PeerFault>(fault),
                    None => Ok(view),
                }
            }),
    {
        let envelope = PeerEnvelope { header, payload };
        envelope.validate()?;
        Ok(envelope)
    }

    /// Checks a peer message before it enters connection state.
    pub fn validate(&self) -> (verdict: Result<(), AcrePeerError>)
        ensures
            model::outcome(verdict) == verdict_of(envelope_fault(self@)),
    {
        self.header.validate()?;
        match &self.payload {
            PeerPayload::Hello { acre_version } => {
                validate_token("acre_version", acre_version, MAX_ACRE_VERSION_BYTES, false)?;
                if !same_text(acre_version.as_str(), ACRE2_PLUGIN_VERSION) {
                    return Err(AcrePeerError::UnsupportedAcreVersion(acre_version.clone()));
                }
            },
            PeerPayload::Identity { net_id } => {
                validate_token("net_id", net_id, MAX_NET_ID_BYTES, false)?;
            },
            PeerPayload::Start { kind, net_id, radio_id, language_id, curve_scale } => {
                validate_token("net_id", net_id, MAX_NET_ID_BYTES, false)?;
                validate_token("radio_id", radio_id, MAX_RADIO_ID_BYTES, true)?;
                if !is_finite(*curve_scale) {
                    return Err(AcrePeerError::NonFiniteCurveScale);
                }
                let radio: bool = *kind == PeerSpeakingKind::Radio;
                if radio && radio_id.as_str().is_empty() {
                    return Err(AcrePeerError::RadioStartWithoutRadioId);
                }
                if !radio && !radio_id.as_str().is_empty() {
                    return Err(AcrePeerError::UnexpectedRadioId(*kind));
                }
            },
            PeerPayload::Stop { kind } => {},
            PeerPayload::Reset => {},
        }
        Ok(())
    }

    /// Frames the message for the transport: a valid message, serialized into
    /// a bounded number of bytes. `serialized` is what the serializer made of
    /// it, or the serializer's words of failure.
    pub fn encode(&self, serialized: Result<Vec<u8>, String>) -> (framed: Result<
        Vec<u8>,
        AcrePeerError,
    >)
        ensures
            model::outcome(framed) == framed_as(self@, model::outcome(serialized)),
    {
        self.validate()?;
        let bytes: Vec<u8> = match serialized {
            Ok(bytes) => bytes,
            Err(words) => {
                return Err(AcrePeerError::Serialize(words));
            },
        };
        if bytes.len() > ACRE_PEER_MAX_MESSAGE_BYTES {
            return Err(
                AcrePeerError::MessageTooLong {
                    length: bytes.len(),
                    limit: ACRE_PEER_MAX_MESSAGE_BYTES,
                },
            );
        }
        Ok(bytes)
    }

    /// Whether the transport's bytes may be parsed at all.
    pub fn check_size(bytes: &[u8]) -> (verdict: Result<(), AcrePeerError>)
        ensures
            model::outcome(verdict) == verdict_of(admission_fault(bytes@.len())),
    {
        if bytes.len() == 0 {
            return Err(AcrePeerError::EmptyMessage);
        }
        if bytes.len() > ACRE_PEER_MAX_MESSAGE_BYTES {
            return Err(
                AcrePeerError::MessageTooLong {
                    length: bytes.len(),
                    limit: ACRE_PEER_MAX_MESSAGE_BYTES,
                },
            );
        }
        Ok(())
    }

    /// Unframes a message of the transport: bounded bytes that parse into a
    /// valid message. `parsed` is what the parser made of the bytes, or the
    /// parser's words of failure.
    pub fn decode(bytes: &[u8], parsed: Result<PeerEnvelope, String>) -> (envelope: Result<
        Self,
        AcrePeerError,
    >)
        ensures
            model::outcome(envelope) == unframed_from(bytes@, model::outcome(parsed)),
    {
        PeerEnvelope::check_size(bytes)?;
        match parsed {
            Ok(envelope) => {
                envelope.validate()?;
                Ok(envelope)
            },
            Err(words) => Err(AcrePeerError::Deserialize(words)),
        }
    }
}

/// What is wrong with the size of a received message.
pub open spec fn admission_fault(length: nat) -> Option<PeerFault> {
    if length == 0 {
        Some(PeerFault::EmptyMessage)
    } else {
        size_fault(length)
    }
}

/// The framed bytes of a message, or why there are none. `serialized` is what
/// the serializer made of the message, or its words of failure.
pub open spec fn framed_as(
    envelope: EnvelopeView,
    serialized: Result<Seq<u8>, Seq<char>>,
) -> Result<Seq<u8>, PeerFault> {
    match envelope_fault(envelope) {
        Some(fault) => Err(fault),
        None => match serialized {
            Err(words) => Err(PeerFault::Serialize(words)),
            Ok(bytes) => match size_fault(bytes.len()) {
                Some(fault) => Err(fault),
                None => Ok(bytes),
            },
        },
    }
}

/// The message that framed bytes hold, or why there is none. `parsed` is what
/// the parser made of the bytes, or its words of failure.
pub open spec fn unframed_from(
    bytes: Seq<u8>,
    parsed: Result<EnvelopeView, Seq<char>>,
) -> Result<EnvelopeView, PeerFault> {
    match admission_fault(bytes.len()) {
        Some(fault) => Err(fault),
        None => match parsed {
            Err(words) => Err(PeerFault::Deserialize(words)),
            Ok(envelope) => match envelope_fault(envelope) {
                Some(fault) => Err(fault),
                None => Ok(envelope),
            },
        },
    }
}

/// How a header stands to the last accepted one.
pub open spec fn order_decision(current: Option<HeaderView>, header: HeaderView) -> PeerOrderDecision {
    match current {
        None => PeerOrderDecision::AcceptedFirst,
        Some(last) => if last.scope != header.scope {
            PeerOrderDecision::AcceptedNewScope
        } else if header.generation > last.generation {
            PeerOrderDecision::AcceptedNewGeneration
        } else if header.generation == last.generation && header.sequence > last.sequence {
            PeerOrderDecision::AcceptedNext
        } else {
            PeerOrderDecision::RejectedStale
        },
    }
}

/// The last accepted header after another one was observed.
pub open spec fn observed(current: Option<HeaderView>, header: HeaderView) -> Option<HeaderView> {
    if order_decision(current, header) == PeerOrderDecision::RejectedStale {
        current
    } else {
        Some(header)
    }
}

impl Default for PeerOrderTracker {
    fn default() -> (tracker: Self)
        ensures
            tracker@ is None,
    {
        PeerOrderTracker { current: None }
    }
}

impl Clone for PeerOrderTracker {
    fn clone(&self) -> (copy: Self)
        ensures
            copy@ == self@,
    {
        PeerOrderTracker {
            current: match &self.current {
                Some(header) => Some(header.clone()),
                None => None,
            },
        }
    }
}

impl PeerOrderTracker {
    /// Accepts only strictly newer headers of the same scope and generation,
    /// and every first header of another scope or a later generation.
    pub fn observe(&mut self, header: &PeerHeader) -> (decision: PeerOrderDecision)
        ensures
            decision == order_decision(old(self)@, header@),
            final(self)@ == observed(old(self)@, header@),
    {
        let decision: PeerOrderDecision = match &self.current {
            None => PeerOrderDecision::AcceptedFirst,
            Some(last) => if !same_text(last.scope.as_str(), header.scope.as_str()) {
                PeerOrderDecision::AcceptedNewScope
            } else if header.generation > last.generation {
                PeerOrderDecision::AcceptedNewGeneration
            } else if header.generation == last.generation && header.sequence > last.sequence {
                PeerOrderDecision::AcceptedNext
            } else {
                PeerOrderDecision::RejectedStale
            },
        };
        if decision != PeerOrderDecision::RejectedStale {
            self.current = Some(header.clone());
        }
        decision
    }

    /// Forgets the stream.
    pub fn reset(&mut self)
        ensures
            final(self)@ is None,
    {
        self.current = None;
    }
}

/// The last accepted header after a run of headers was observed.
pub open spec fn observed_all(
    current: Option<HeaderView>,
    headers: Seq<HeaderView>,
) -> Option<HeaderView>
    decreases headers.len(),
{
    if headers.len() == 0 {
        current
    } else {
        observed(observed_all(current, headers.drop_last()), headers.last())
    }
}

/// What was framed is within the bound of the transport, and unframing it gives
/// the message back, as far as the parser reads what the serializer wrote. A
/// serializer writes at least one byte.
pub proof fn law_framed_messages_are_restored(
    envelope: EnvelopeView,
    serialized: Result<Seq<u8>, Seq<char>>,
)
    requires
        framed_as(envelope, serialized) is Ok,
        framed_as(envelope, serialized)->Ok_0.len() > 0,
    ensures
        ({
            let bytes = framed_as(envelope, serialized)->Ok_0;
            &&& serialized == Ok::<Seq<u8>, Seq<char>>(bytes)
            &&& bytes.len() <= ACRE_PEER_MAX_MESSAGE_BYTES
            &&& unframed_from(bytes, Ok(envelope)) == Ok::<EnvelopeView, PeerFault>(envelope)
        }),
{
}

/// No header is accepted twice: once it was observed, it is stale after any
/// run of further headers of its scope.
pub proof fn law_no_header_is_accepted_twice(
    current: Option<HeaderView>,
    header: HeaderView,
    later: Seq<HeaderView>,
)
    requires
        forall|i: int| 0 <= i < later.len() ==> (#[trigger] later[i]).scope == header.scope,
    ensures
        order_decision(observed_all(observed(current, header), later), header)
            == PeerOrderDecision::RejectedStale,
    decreases later.len(),
{
    if later.len() > 0 {
        assert(later[later.len() - 1].scope == header.scope);
        assert forall|i: int| 0 <= i < later.drop_last().len() implies (
        #[trigger] later.drop_last()[i]).scope == header.scope by {
            assert(later.drop_last()[i] == later[i]);
        }
        law_no_header_is_accepted_twice(current, header, later.drop_last());
    }
}

/// Within one scope the accepted headers only ever move forward.
pub proof fn law_accepted_headers_move_forward(last: HeaderView, header: HeaderView)
    requires
        last.scope == header.scope,
        order_decision(Some(last), header) != PeerOrderDecision::RejectedStale,
    ensures
        header.generation > last.generation || header.generation == last.generation
            && header.sequence > last.sequence,
{
}

} // verus!
