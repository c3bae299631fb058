//! Which peer messages may travel, and how a sender's messages are ordered.

use crate::peer::{
    self, envelope_fault, observed, order_decision, same_payload, EnvelopeView, HeaderView,
    PayloadView, PeerFault, PeerOrderDecision, PeerSpeakingKind,
};
use crate::session_laws::one_number;
use crate::speaking_laws::has_value;
use vstd::prelude::*;
use vstd::utf8::encode_utf8;

verus! {

/// Whether every byte travels, printable ASCII but the comma, and there are at
/// most as many as the limit says.
pub open spec fn is_token(value: Seq<char>, limit: int) -> bool {
    let bytes = encode_utf8(value);
    &&& bytes.len() <= limit
    &&& forall|i: int| 0 <= i < bytes.len() ==> 33 <= #[trigger] bytes[i] <= 126 && bytes[i] != 44
}

/// Whether a header may travel.
pub open spec fn sound_header(header: HeaderView) -> bool {
    &&& header.version == 1
    &&& header.scope.len() > 0
    &&& is_token(header.scope, 96)
    &&& header.generation > 0
    &&& header.sequence > 0
}

/// Whether a start may travel: it names a radio exactly in radio mode.
pub open spec fn sound_start(
    kind: PeerSpeakingKind,
    net_id: Seq<char>,
    radio_id: Seq<char>,
    curve_scale: u32,
) -> bool {
    &&& net_id.len() > 0
    &&& is_token(net_id, 128)
    &&& is_token(radio_id, 128)
    &&& has_value(curve_scale)
    &&& kind == PeerSpeakingKind::Radio <==> radio_id.len() > 0
}

/// Whether a body may travel.
pub open spec fn sound_payload(payload: PayloadView) -> bool {
    match payload {
        PayloadView::Hello { acre_version } => acre_version == "2.14.0.1064"@,
        PayloadView::Identity { net_id } => net_id.len() > 0 && is_token(net_id, 128),
        PayloadView::Start { kind, net_id, radio_id, curve_scale, .. } => sound_start(
            kind,
            net_id,
            radio_id,
            curve_scale,
        ),
        PayloadView::Stop { .. } => true,
        PayloadView::Reset => true,
    }
}

proof fn lemma_version_is_a_token()
    ensures
        "2.14.0.1064"@.len() > 0,
        is_token("2.14.0.1064"@, 32),
{
    let version = "2.14.0.1064"@;
    reveal_strlit("2.14.0.1064");
    assert(vstd::utf8::is_ascii_chars(version)) by {
        assert forall|i| 0 <= i < version.len() implies '\0' <= #[trigger] version[i]
            <= '\u{7f}' by {}
    }
    vstd::utf8::is_ascii_chars_encode_utf8(version);
    let bytes = encode_utf8(version);
    assert forall|i: int| 0 <= i < bytes.len() implies 33 <= #[trigger] bytes[i] <= 126
        && bytes[i] != 44 by {
        assert(version[i] as u8 == bytes[i]);
    }
}

/// Exactly the sound messages pass.
pub proof fn law_sound_messages_are_the_accepted_ones(envelope: EnvelopeView)
    ensures
        peer::header_fault(envelope.header) is None <==> sound_header(envelope.header),
        envelope_fault(envelope) is None <==> sound_header(envelope.header) && sound_payload(
            envelope.payload,
        ),
{
    lemma_version_is_a_token();
}

/// Whether the token is refused for this reason.
pub open spec fn token_refused(
    fault: PeerFault,
    name: Seq<char>,
    value: Seq<char>,
    most: int,
    needed: bool,
) -> bool {
    let bytes = encode_utf8(value);
    match fault {
        PeerFault::EmptyField(field) => field == name && needed && value.len() == 0,
        PeerFault::FieldTooLong { field, length, limit } => field == name && limit == most
            && bytes.len() > most && length == bytes.len(),
        PeerFault::InvalidField(field) => field == name && bytes.len() <= most && !is_token(
            value,
            most,
        ),
        _ => false,
    }
}

/// A refused message is refused for something that is wrong with it.
pub proof fn law_refusals_name_what_is_wrong(envelope: EnvelopeView)
    requires
        envelope_fault(envelope) is Some,
        encode_utf8(envelope.header.scope).len() <= usize::MAX,
        envelope.payload matches PayloadView::Hello { acre_version } ==> encode_utf8(
            acre_version,
        ).len() <= usize::MAX,
        envelope.payload matches PayloadView::Identity { net_id } ==> encode_utf8(net_id).len()
            <= usize::MAX,
        envelope.payload matches PayloadView::Start { net_id, radio_id, .. } ==> encode_utf8(
            net_id,
        ).len() <= usize::MAX && encode_utf8(radio_id).len() <= usize::MAX,
    ensures
        ({
            let fault = envelope_fault(envelope)->0;
            let header = envelope.header;
            ||| fault == PeerFault::UnsupportedVersion(header.version) && header.version != 1
            ||| token_refused(fault, "scope"@, header.scope, 96, true)
            ||| fault is ZeroGeneration && header.generation == 0
            ||| fault is ZeroSequence && header.sequence == 0
            ||| sound_header(header) && match envelope.payload {
                PayloadView::Hello { acre_version } => {
                    ||| token_refused(fault, "acre_version"@, acre_version, 32, true)
                    ||| fault == PeerFault::UnsupportedAcreVersion(acre_version) && acre_version
                        != "2.14.0.1064"@
                },
                PayloadView::Identity { net_id } => token_refused(
                    fault,
                    "net_id"@,
                    net_id,
                    128,
                    true,
                ),
                PayloadView::Start { kind, net_id, radio_id, curve_scale, .. } => {
                    ||| token_refused(fault, "net_id"@, net_id, 128, true)
                    ||| token_refused(fault, "radio_id"@, radio_id, 128, false)
                    ||| fault is NonFiniteCurveScale && !has_value(curve_scale)
                    ||| fault is RadioStartWithoutRadioId && kind == PeerSpeakingKind::Radio
                        && radio_id.len() == 0
                    ||| fault == PeerFault::UnexpectedRadioId(kind) && kind
                        != PeerSpeakingKind::Radio && radio_id.len() > 0
                },
                _ => false,
            }
        }),
{
}

/// A header is stale exactly if it is not behind the last accepted one of the
/// same scope; every other header is accepted for what it begins, and becomes
/// the last one.
pub proof fn law_headers_are_ordered_within_their_scope(last: HeaderView, header: HeaderView)
    ensures
        ({
            let decision = order_decision(Some(last), header);
            let later = header.generation > last.generation;
            let next = header.generation == last.generation && header.sequence > last.sequence;
            &&& decision == PeerOrderDecision::AcceptedNewScope <==> header.scope != last.scope
            &&& header.scope == last.scope ==> {
                &&& decision == PeerOrderDecision::AcceptedNewGeneration <==> later
                &&& decision == PeerOrderDecision::AcceptedNext <==> next
                &&& decision == PeerOrderDecision::RejectedStale <==> !later && !next
            }
            &&& observed(Some(last), header) == Some(
                if header.scope == last.scope && !later && !next {
                    last
                } else {
                    header
                },
            )
        }),
        order_decision(None, header) == PeerOrderDecision::AcceptedFirst,
        observed(None, header) == Some(header),
{
}

/// Two bodies are equal exactly if they say the same in every field. What is no
/// number equals nothing.
pub proof fn law_equal_bodies_say_the_same(a: PayloadView, b: PayloadView)
    ensures
        same_payload(a, b) <==> match (a, b) {
            (
                PayloadView::Hello { acre_version: mine },
                PayloadView::Hello { acre_version: other },
            ) => mine == other,
            (PayloadView::Identity { net_id: mine }, PayloadView::Identity { net_id: other }) =>
                mine == other,
            (PayloadView::Start { .. }, PayloadView::Start { .. }) => {
                &&& a->Start_kind == b->Start_kind
                &&& a->Start_net_id == b->Start_net_id
                &&& a->Start_radio_id == b->Start_radio_id
                &&& a->Start_language_id == b->Start_language_id
                &&& one_number(a->Start_curve_scale, b->Start_curve_scale)
                &&& has_value(a->Start_curve_scale) || a->Start_curve_scale == 0x7f80_0000
                    || a->Start_curve_scale == 0xff80_0000
            },
            (PayloadView::Stop { kind: mine }, PayloadView::Stop { kind: other }) => mine == other,
            (PayloadView::Reset, PayloadView::Reset) => true,
            _ => false,
        },
{
}

/// A received message is unframed exactly if it has between 1 and 1024 bytes,
/// they parse, and the message is sound; a framed one has at most 1024 bytes.
pub proof fn law_frames_are_bounded(
    envelope: EnvelopeView,
    bytes: Seq<u8>,
    words: Seq<char>,
)
    ensures
        peer::framed_as(envelope, Ok(bytes)) is Ok <==> sound_header(envelope.header)
            && sound_payload(envelope.payload) && bytes.len() <= 1024,
        peer::unframed_from(bytes, Ok(envelope)) is Ok <==> sound_header(envelope.header)
            && sound_payload(envelope.payload) && 1 <= bytes.len() <= 1024,
        peer::unframed_from(bytes, Err(words)) is Err && peer::framed_as(envelope, Err(words)) is Err,
        bytes.len() == 0 ==> peer::unframed_from(bytes, Ok(envelope)) == Err::<
            EnvelopeView,
            PeerFault,
        >(PeerFault::EmptyMessage),
{
    law_sound_messages_are_the_accepted_ones(envelope);
}

} // verus!
