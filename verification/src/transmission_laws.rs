//! The numbers and names of the speaking modes, and what the connection may be
//! called.

use crate::codec_laws::is_printable;
use crate::session::{checked_metadata, fresh_session, new_transmission, MetadataView, SessionFault};
use crate::speaking::AcreVoiceCurveModel;
use crate::speaking_laws::has_value;
use crate::transmission::{kind_name, kind_number, SpeakingKind, TransmissionView};
use vstd::prelude::*;
use vstd::utf8::encode_utf8;

verus! {

/// ACRE numbers its modes from zero in this order, and no two have one number.
pub proof fn law_modes_are_numbered_in_order(a: SpeakingKind, b: SpeakingKind)
    ensures
        kind_number(SpeakingKind::Direct) == 0,
        kind_number(SpeakingKind::Radio) == kind_number(SpeakingKind::Direct) + 1,
        kind_number(SpeakingKind::Unknown) == kind_number(SpeakingKind::Radio) + 1,
        kind_number(SpeakingKind::Intercom) == kind_number(SpeakingKind::Unknown) + 1,
        kind_number(SpeakingKind::Spectate) == kind_number(SpeakingKind::Intercom) + 1,
        kind_number(SpeakingKind::God) == kind_number(SpeakingKind::Spectate) + 1,
        kind_number(SpeakingKind::Zeus) == kind_number(SpeakingKind::God) + 1,
        kind_number(a) == kind_number(b) ==> a == b,
{
}

/// No two modes have one name.
pub proof fn law_modes_are_told_apart_by_name(a: SpeakingKind, b: SpeakingKind)
    ensures
        kind_name(a) == kind_name(b) ==> a == b,
{
    reveal_strlit("Direct");
    reveal_strlit("Radio");
    reveal_strlit("Unknown");
    reveal_strlit("Intercom");
    reveal_strlit("Spectate");
    reveal_strlit("God");
    reveal_strlit("Zeus");
    lemma_first_letter(a);
    lemma_first_letter(b);
}

proof fn lemma_first_letter(mode: SpeakingKind)
    ensures
        kind_name(mode)[0] == match mode {
            SpeakingKind::Direct => 'D',
            SpeakingKind::Radio => 'R',
            SpeakingKind::Unknown => 'U',
            SpeakingKind::Intercom => 'I',
            SpeakingKind::Spectate => 'S',
            SpeakingKind::God => 'G',
            SpeakingKind::Zeus => 'Z',
        },
{
    reveal_strlit("Direct");
    reveal_strlit("Radio");
    reveal_strlit("Unknown");
    reveal_strlit("Intercom");
    reveal_strlit("Spectate");
    reveal_strlit("God");
    reveal_strlit("Zeus");
}

/// A transmission is made as it is given, if its curve scale is finite.
pub proof fn law_transmissions_are_made_as_given(t: TransmissionView)
    ensures
        has_value(t.curve_scale) ==> new_transmission(t) == Ok::<TransmissionView, SessionFault>(t),
        !has_value(t.curve_scale) ==> new_transmission(t) == Err::<TransmissionView, SessionFault>(
            SessionFault::NonFiniteCurveScale,
        ),
{
}

/// Whether the game can be told the text: not empty, at most 512 bytes, and
/// printable without a comma.
pub open spec fn can_be_told(value: Seq<char>) -> bool {
    value.len() > 0 && encode_utf8(value).len() <= 512 && is_printable(value)
}

/// The connection is described exactly if the game can be told each of its four
/// texts, and then by them.
pub proof fn law_connections_are_described_in_plain_texts(metadata: MetadataView)
    ensures
        checked_metadata(metadata) is Ok <==> can_be_told(metadata.server_name) && can_be_told(
            metadata.server_uid,
        ) && can_be_told(metadata.channel_name) && can_be_told(metadata.channel_uid),
        checked_metadata(metadata) matches Ok(described) ==> described == metadata,
{
    lemma_told(metadata.server_name);
    lemma_told(metadata.server_uid);
    lemma_told(metadata.channel_name);
    lemma_told(metadata.channel_uid);
}

proof fn lemma_told(value: Seq<char>)
    ensures
        forall|field: Seq<char>| #[trigger]
            crate::session::metadata_fault(field, value) is None <==> can_be_told(value),
{
    let bytes = encode_utf8(value);
    if is_printable(value) {
        assert forall|i: int| 0 <= i < bytes.len() implies crate::codec::is_parameter_byte(
            #[trigger] bytes[i],
        ) by {
            assert(' ' <= bytes[i] as char <= '~');
        }
    }
}

/// A session starts with nothing known but the plugin's version, on ACRE's
/// first curve and with a curve scale of one.
pub proof fn law_sessions_start_with_nothing_known(version: Seq<char>, id: u32)
    ensures
        ({
            let s = fresh_session(version);
            &&& s.plugin_version == version
            &&& s.local_voice_client_id is None && s.voip_metadata is None
            &&& s.local_net_id is None && s.local_listener_pose is None
            &&& s.local_language_id == 0
            &&& s.local_voice_curve_model == AcreVoiceCurveModel::Original
            &&& s.local_curve_scale == 0x3f80_0000
            &&& s.active_local_transmission is None
            &&& !s.remote_transmissions.contains_key(id)
            &&& s.sounds.len() == 0
        }),
{
}

} // verus!
