//! What the session does for the game: every key, query, setting and control,
//! stated by the names and parameters on the wire.

use crate::codec::{self, AcreCodecError, MessageView};
use crate::decimal;
use crate::session::{
    self, direct_view, handled, remote_started_step, remote_stopped_step, ActionView, Answer,
    MetadataField, SessionFault, SessionView, Step,
};
use crate::sound;
use crate::speaking::{
    self, AcreListenerPose, AcreListenerState, AcreSpeakerVector, AcreVoiceCurveModel,
    AudioUpdateView,
};
use crate::speaking_laws::{
    has_value, law_updates_are_read_as_written, update_written, vector_written_at, written_at,
};
use crate::text;
use crate::transmission::{SpeakingKind, TransmissionView};
use vstd::prelude::*;
use vstd::utf8::encode_utf8;

verus! {

/// A number that tells the procedures apart.
spec fn code(name: Seq<char>) -> int {
    name.len() * 0x10000 + name.last() as int * 0x100 + name[2] as int
}

proof fn lemma_codes_a()
    ensures
        code("ping"@) == 288622,
        code("getPluginVersion"@) == 1076852,
        code("getClientID"@) == 738420,
        code("updateSelf"@) == 681572,
        code("setSelectableVoiceCurve"@) == 1533300,
        code("setVoiceCurveModel"@) == 1207412,
        code("setSetting"@) == 681844,
{
    reveal_strlit("ping");
    reveal_strlit("getPluginVersion");
    reveal_strlit("getClientID");
    reveal_strlit("updateSelf");
    reveal_strlit("setSelectableVoiceCurve");
    reveal_strlit("setVoiceCurveModel");
    reveal_strlit("setSetting");
}

proof fn lemma_codes_b()
    ensures
        code("setTs3ChannelDetails"@) == 1340276,
        code("loadSound"@) == 615521,
        code("playLoadedSound"@) == 1008737,
        code("getVOIPServerName"@) == 1140084,
        code("getVOIPServerUID"@) == 1066100,
        code("getVOIPChannelName"@) == 1205620,
        code("getVOIPChannelUID"@) == 1131636,
{
    reveal_strlit("setTs3ChannelDetails");
    reveal_strlit("loadSound");
    reveal_strlit("playLoadedSound");
    reveal_strlit("getVOIPServerName");
    reveal_strlit("getVOIPServerUID");
    reveal_strlit("getVOIPChannelName");
    reveal_strlit("getVOIPChannelUID");
}

proof fn lemma_codes_c()
    ensures
        code("updateSpeakingData"@) == 1204580,
        code("startRadioSpeaking"@) == 1206113,
        code("stopRadioSpeaking"@) == 1140591,
        code("startIntercomSpeaking"@) == 1402721,
        code("stopIntercomSpeaking"@) == 1337199,
        code("startGodModeSpeaking"@) == 1337185,
        code("stopGodModeSpeaking"@) == 1271663,
{
    reveal_strlit("updateSpeakingData");
    reveal_strlit("startRadioSpeaking");
    reveal_strlit("stopRadioSpeaking");
    reveal_strlit("startIntercomSpeaking");
    reveal_strlit("stopIntercomSpeaking");
    reveal_strlit("startGodModeSpeaking");
    reveal_strlit("stopGodModeSpeaking");
}

proof fn lemma_codes_d()
    ensures
        code("startZeusSpeaking"@) == 1140577,
        code("stopZeusSpeaking"@) == 1075055,
        code("setSoundSystemMasterOverride"@) == 1860980,
        code("localMute"@) == 615779,
        code("setMuted"@) == 550004,
        code("setPTTKeys"@) == 684916,
        code("ext_reset"@) == 619636,
{
    reveal_strlit("startZeusSpeaking");
    reveal_strlit("stopZeusSpeaking");
    reveal_strlit("setSoundSystemMasterOverride");
    reveal_strlit("localMute");
    reveal_strlit("setMuted");
    reveal_strlit("setPTTKeys");
    reveal_strlit("ext_reset");
}

proof fn lemma_codes()
    ensures
        code("ping"@) == 288622,
        code("getPluginVersion"@) == 1076852,
        code("getClientID"@) == 738420,
        code("updateSelf"@) == 681572,
        code("setSelectableVoiceCurve"@) == 1533300,
        code("setVoiceCurveModel"@) == 1207412,
        code("setSetting"@) == 681844,
        code("setTs3ChannelDetails"@) == 1340276,
        code("loadSound"@) == 615521,
        code("playLoadedSound"@) == 1008737,
        code("getVOIPServerName"@) == 1140084,
        code("getVOIPServerUID"@) == 1066100,
        code("getVOIPChannelName"@) == 1205620,
        code("getVOIPChannelUID"@) == 1131636,
        code("updateSpeakingData"@) == 1204580,
        code("startRadioSpeaking"@) == 1206113,
        code("stopRadioSpeaking"@) == 1140591,
        code("startIntercomSpeaking"@) == 1402721,
        code("stopIntercomSpeaking"@) == 1337199,
        code("startGodModeSpeaking"@) == 1337185,
        code("stopGodModeSpeaking"@) == 1271663,
        code("startZeusSpeaking"@) == 1140577,
        code("stopZeusSpeaking"@) == 1075055,
        code("setSoundSystemMasterOverride"@) == 1860980,
        code("localMute"@) == 615779,
        code("setMuted"@) == 550004,
        code("setPTTKeys"@) == 684916,
        code("ext_reset"@) == 619636,
{
    lemma_codes_a();
    lemma_codes_b();
    lemma_codes_c();
    lemma_codes_d();
}

/// Which step a procedure takes.
proof fn lemma_dispatch(
    s: SessionView,
    m: MessageView,
    r: Seq<Option<u32>>,
    clock: Seq<char>,
    now: u64,
)
    ensures
        m.procedure == "ping"@ ==> handled(s, m, r, Some(clock), now) == (s, session::reply_answer(m, session::with_comma("pong"@, seq![clock]))),
        m.procedure == "getPluginVersion"@ ==> handled(s, m, r, Some(clock), now) == (s, session::reply_answer(m, codec::built("handleGetPluginVersion"@, seq![s.plugin_version], false))),
        m.procedure == "getClientID"@ ==> handled(s, m, r, Some(clock), now) == session::client_id_step(s, m),
        m.procedure == "updateSelf"@ ==> handled(s, m, r, Some(clock), now) == session::update_self_step(s, m, r),
        m.procedure == "setSelectableVoiceCurve"@ ==> handled(s, m, r, Some(clock), now) == session::curve_scale_step(s, m, r),
        m.procedure == "setVoiceCurveModel"@ ==> handled(s, m, r, Some(clock), now) == session::curve_model_step(s, m, r),
        m.procedure == "setSetting"@ ==> handled(s, m, r, Some(clock), now) == (s, session::setting_answer(m, r)),
        m.procedure == "loadSound"@ ==> handled(s, m, r, Some(clock), now) == session::load_sound_step(s, m, now),
        m.procedure == "playLoadedSound"@ ==> handled(s, m, r, Some(clock), now) == (s, session::play_sound_answer(m, r)),
        m.procedure == "getVOIPServerName"@ ==> handled(s, m, r, Some(clock), now) == (s, session::metadata_answer(s, m, "handleGetVOIPServerName"@, MetadataField::ServerName)),
        m.procedure == "getVOIPServerUID"@ ==> handled(s, m, r, Some(clock), now) == (s, session::metadata_answer(s, m, "handleGetVOIPServerUID"@, MetadataField::ServerUid)),
        m.procedure == "getVOIPChannelName"@ ==> handled(s, m, r, Some(clock), now) == (s, session::metadata_answer(s, m, "handleGetVOIPChannelName"@, MetadataField::ChannelName)),
        m.procedure == "getVOIPChannelUID"@ ==> handled(s, m, r, Some(clock), now) == (s, session::metadata_answer(s, m, "handleGetVOIPChannelUID"@, MetadataField::ChannelUid)),
        m.procedure == "updateSpeakingData"@ ==> handled(s, m, r, Some(clock), now) == (s, session::speaking_answer(s, m, r)),
        m.procedure == "startRadioSpeaking"@ ==> handled(s, m, r, Some(clock), now) == session::start_step(s, m, SpeakingKind::Radio),
        m.procedure == "stopRadioSpeaking"@ ==> handled(s, m, r, Some(clock), now) == session::stop_step(s, m, SpeakingKind::Radio),
        m.procedure == "startIntercomSpeaking"@ ==> handled(s, m, r, Some(clock), now) == session::start_step(s, m, SpeakingKind::Intercom),
        m.procedure == "stopIntercomSpeaking"@ ==> handled(s, m, r, Some(clock), now) == session::stop_step(s, m, SpeakingKind::Intercom),
        m.procedure == "startGodModeSpeaking"@ ==> handled(s, m, r, Some(clock), now) == session::start_step(s, m, SpeakingKind::God),
        m.procedure == "stopGodModeSpeaking"@ ==> handled(s, m, r, Some(clock), now) == session::stop_step(s, m, SpeakingKind::God),
        m.procedure == "startZeusSpeaking"@ ==> handled(s, m, r, Some(clock), now) == session::start_step(s, m, SpeakingKind::Zeus),
        m.procedure == "stopZeusSpeaking"@ ==> handled(s, m, r, Some(clock), now) == session::stop_step(s, m, SpeakingKind::Zeus),
        m.procedure == "setSoundSystemMasterOverride"@ ==> handled(s, m, r, Some(clock), now) == (s, session::switch_answer(m, true)),
        m.procedure == "localMute"@ ==> handled(s, m, r, Some(clock), now) == (s, session::switch_answer(m, false)),
        m.procedure == "setMuted"@ ==> handled(s, m, r, Some(clock), now) == (s, session::user_mute_answer(m)),
        m.procedure == "setPTTKeys"@ ==> handled(s, m, r, Some(clock), now) == (s, Ok::<Seq<ActionView>, SessionFault>(Seq::empty())),
        m.procedure == "ext_reset"@ ==> handled(s, m, r, Some(clock), now) == session::reset_step(s, m),
        m.procedure == "setTs3ChannelDetails"@ ==> handled(s, m, r, Some(clock), now).0 == s,
        m.procedure == "setTs3ChannelDetails"@ ==> (handled(s, m, r, Some(clock), now).1 is Ok
            <==> m.parameters.len() == 3),
        m.procedure == "setTs3ChannelDetails"@ && m.parameters.len() == 3 ==> handled(
            s,
            m,
            r,
            Some(clock),
            now,
        ).1 == Ok::<Seq<ActionView>, SessionFault>(Seq::empty()),
{
    lemma_codes();
}

/// A message with a comma behind its last parameter.
pub open spec fn told(procedure: Seq<char>, parameters: Seq<Seq<char>>) -> MessageView {
    MessageView { procedure, parameters, trailing_comma: true }
}

/// Whether the format can carry the message.
pub open spec fn fits(message: MessageView) -> bool {
    codec::built(message.procedure, message.parameters, message.trailing_comma) is Ok
}

/// Whether the answer sends exactly the message, if the format can carry it.
pub open spec fn sends(answer: Answer, message: MessageView) -> bool {
    if fits(message) {
        answer == Ok::<Seq<ActionView>, SessionFault>(seq![ActionView::SendToArma(message)])
    } else {
        answer matches Err(SessionFault::Codec(_))
    }
}

/// The modes that have a key.
pub open spec fn has_key(mode: SpeakingKind) -> bool {
    mode == SpeakingKind::Radio || mode == SpeakingKind::Intercom || mode == SpeakingKind::God
        || mode == SpeakingKind::Zeus
}

/// What the game sends when the key of a mode is pressed.
pub open spec fn start_name(mode: SpeakingKind) -> Seq<char> {
    match mode {
        SpeakingKind::Radio => "startRadioSpeaking"@,
        SpeakingKind::Intercom => "startIntercomSpeaking"@,
        SpeakingKind::God => "startGodModeSpeaking"@,
        SpeakingKind::Zeus => "startZeusSpeaking"@,
        _ => ""@,
    }
}

/// What the game sends when the key of a mode is released.
pub open spec fn stop_name(mode: SpeakingKind) -> Seq<char> {
    match mode {
        SpeakingKind::Radio => "stopRadioSpeaking"@,
        SpeakingKind::Intercom => "stopIntercomSpeaking"@,
        SpeakingKind::God => "stopGodModeSpeaking"@,
        SpeakingKind::Zeus => "stopZeusSpeaking"@,
        _ => ""@,
    }
}

/// The digit that stands for a mode on the wire.
pub open spec fn mode_digit(mode: SpeakingKind) -> Seq<char> {
    match mode {
        SpeakingKind::Direct => "0"@,
        SpeakingKind::Radio => "1"@,
        SpeakingKind::Unknown => "2"@,
        SpeakingKind::Intercom => "3"@,
        SpeakingKind::Spectate => "4"@,
        SpeakingKind::God => "5"@,
        SpeakingKind::Zeus => "6"@,
    }
}

/// The radio that a key's message names. Only the radio key names one.
pub open spec fn named_by(m: MessageView, mode: SpeakingKind) -> Seq<char> {
    if mode == SpeakingKind::Radio {
        m.parameters[0]
    } else {
        Seq::empty()
    }
}

/// Whether two patterns are one number: zero has two patterns.
pub open spec fn one_number(a: u32, b: u32) -> bool {
    a == b || (a == 0 || a == 0x8000_0000) && (b == 0 || b == 0x8000_0000)
}

/// Whether two transmissions agree in every field.
pub open spec fn agree(a: TransmissionView, b: TransmissionView) -> bool {
    &&& a.voice_client_id == b.voice_client_id
    &&& a.language_id == b.language_id
    &&& a.net_id == b.net_id
    &&& a.speaking_kind == b.speaking_kind
    &&& a.radio_id == b.radio_id
    &&& one_number(a.curve_scale, b.curve_scale)
}

/// Whether the transmission is the one that a key begins in the session: the
/// local player's, in the key's mode, over the named radio, in their language
/// and on their voice curve.
pub open spec fn belongs(
    s: SessionView,
    mode: SpeakingKind,
    radio: Seq<char>,
    t: TransmissionView,
) -> bool {
    &&& s.local_voice_client_id == Some(t.voice_client_id)
    &&& s.local_net_id == Some(t.net_id)
    &&& t.net_id.len() > 0
    &&& t.language_id == s.local_language_id
    &&& t.speaking_kind == mode
    &&& t.radio_id == radio
    &&& one_number(t.curve_scale, s.local_curve_scale)
}

/// How the game is told that the local transmission began.
pub open spec fn start_told(t: TransmissionView) -> MessageView {
    told(
        "localStartSpeaking"@,
        seq![
            decimal::decimal(t.voice_client_id as nat),
            decimal::signed_decimal(t.language_id as int),
            mode_digit(t.speaking_kind),
            t.radio_id,
        ],
    )
}

/// How the game is told that the local transmission ended.
pub open spec fn stop_told(t: TransmissionView) -> MessageView {
    told(
        "localStopSpeaking"@,
        seq![
            decimal::decimal(t.voice_client_id as nat),
            mode_digit(t.speaking_kind),
            t.radio_id,
        ],
    )
}

/// What the end of a local transmission entails.
pub open spec fn end_of(t: TransmissionView) -> Seq<ActionView> {
    seq![ActionView::SendToArma(stop_told(t)), ActionView::LocalTransmissionStopped(t)]
}

/// What the beginning of a local transmission entails.
pub open spec fn beginning_of(t: TransmissionView) -> Seq<ActionView> {
    seq![ActionView::SendToArma(start_told(t)), ActionView::LocalTransmissionStarted(t)]
}

proof fn lemma_digits(mode: SpeakingKind)
    ensures
        session::kind_text(mode) == mode_digit(mode),
{
    reveal_strlit("0");
    reveal_strlit("1");
    reveal_strlit("2");
    reveal_strlit("3");
    reveal_strlit("4");
    reveal_strlit("5");
    reveal_strlit("6");
    assert(session::kind_text(mode) =~= mode_digit(mode));
}

proof fn lemma_local_messages(t: TransmissionView)
    ensures
        session::local_start(t) == codec::built(
            start_told(t).procedure,
            start_told(t).parameters,
            true,
        ),
        session::local_stop(t) == codec::built(
            stop_told(t).procedure,
            stop_told(t).parameters,
            true,
        ),
        session::local_start(t) matches Ok(message) ==> message == start_told(t),
        session::local_stop(t) matches Ok(message) ==> message == stop_told(t),
{
    lemma_digits(t.speaking_kind);
}

proof fn lemma_fit(parameters: Seq<Seq<char>>, i: int)
    ensures
        codec::first_unfit(parameters) is None && 0 <= i < parameters.len() ==> text::first_where(
            encode_utf8(parameters[i]),
            codec::not_parameter(),
        ) is None,
        (forall|k: int|
            0 <= k < parameters.len() ==> text::first_where(
                encode_utf8(#[trigger] parameters[k]),
                codec::not_parameter(),
            ) is None) ==> codec::first_unfit(parameters) is None,
    decreases parameters.len(),
{
    if parameters.len() > 0 {
        lemma_fit(parameters.drop_last(), i);
        if forall|k: int|
            0 <= k < parameters.len() ==> text::first_where(
                encode_utf8(#[trigger] parameters[k]),
                codec::not_parameter(),
            ) is None {
            assert forall|k: int| 0 <= k < parameters.drop_last().len() implies text::first_where(
                encode_utf8(#[trigger] parameters.drop_last()[k]),
                codec::not_parameter(),
            ) is None by {
                assert(parameters.drop_last()[k] == parameters[k]);
            }
            assert(parameters[parameters.len() - 1] == parameters.last());
        }
        if 0 <= i < parameters.len() - 1 {
            assert(parameters.drop_last()[i] == parameters[i]);
        }
    }
}

/// What the format carries of a start it carries of the stop: the stop says
/// less.
proof fn lemma_stop_fits(t: TransmissionView)
    requires
        fits(start_told(t)),
    ensures
        fits(stop_told(t)),
{
    let long = start_told(t).parameters;
    let short = stop_told(t).parameters;
    lemma_fit(long, 0);
    lemma_fit(long, 2);
    lemma_fit(long, 3);
    assert forall|k: int| 0 <= k < short.len() implies text::first_where(
        encode_utf8(#[trigger] short[k]),
        codec::not_parameter(),
    ) is None by {
        assert(short[0] == long[0] && short[1] == long[2] && short[2] == long[3]);
    }
    lemma_fit(short, 0);
    let name = "localStopSpeaking"@;
    reveal_strlit("localStopSpeaking");
    reveal_strlit("localStartSpeaking");
    assert(codec::procedure_fault(encode_utf8(name)) is None) by {
        assert(vstd::utf8::is_ascii_chars(name)) by {
            assert forall|i| 0 <= i < name.len() implies '\0' <= #[trigger] name[i]
                <= '\u{7f}' by {}
        }
        vstd::utf8::is_ascii_chars_encode_utf8(name);
        let bytes = encode_utf8(name);
        text::lemma_first_where(bytes, codec::not_procedure());
        assert forall|i: int| 0 <= i < bytes.len() implies !codec::not_procedure()(
            #[trigger] bytes[i],
        ) by {
            assert(name[i] as u8 == bytes[i]);
        }
    }
    codec::lemma_join_len(long, ',');
    codec::lemma_join_len(short, ',');
    let empty = Seq::<Seq<char>>::empty();
    assert(long.drop_last().drop_last().drop_last().drop_last() =~= empty);
    assert(short.drop_last().drop_last().drop_last() =~= empty);
    reveal_with_fuel(codec::total_len, 5);
    decimal::lemma_decimal_reads_back(t.voice_client_id as nat);
}

proof fn lemma_pressed(
    s: SessionView,
    m: MessageView,
    r: Seq<Option<u32>>,
    clock: Seq<char>,
    now: u64,
    mode: SpeakingKind,
)
    requires
        has_key(mode),
    ensures
        m.procedure == start_name(mode) ==> handled(s, m, r, Some(clock), now)
            == session::start_step(s, m, mode),
        m.procedure == stop_name(mode) ==> handled(s, m, r, Some(clock), now)
            == session::stop_step(s, m, mode),
{
    lemma_dispatch(s, m, r, clock, now);
}

/// What a start does, by its step.
proof fn lemma_start_step(s: SessionView, m: MessageView, mode: SpeakingKind)
    requires
        has_key(mode),
        session::start_step(s, m, mode).1 is Ok,
    ensures
        started_right(s, m, mode, session::start_step(s, m, mode)),
{
    let (after, answer) = session::start_step(s, m, mode);
    let active = after.active_local_transmission->0;
    lemma_local_messages(active);
    match s.active_local_transmission {
        Some(previous) => {
            lemma_local_messages(previous);
            if !belongs(s, mode, named_by(m, mode), previous) {
                assert(answer->Ok_0 =~= end_of(previous) + beginning_of(active));
            } else {
                assert(answer->Ok_0 =~= Seq::<ActionView>::empty());
            }
        },
        None => {
            assert(answer->Ok_0 =~= Seq::<ActionView>::empty() + beginning_of(active));
        },
    }
}

/// Whether an accepted start began exactly what its key stands for: the local
/// player's transmission in the key's mode over the named radio, and nothing
/// else changed. The game is told of the transmission before, which ends first,
/// and of the new one; if the very same one was active already, of nothing.
pub open spec fn started_right(
    s: SessionView,
    m: MessageView,
    mode: SpeakingKind,
    step: Step,
) -> bool {
    let (after, answer) = step;
    let radio = named_by(m, mode);
    let active = after.active_local_transmission;
    let before = s.active_local_transmission;
    &&& m.parameters.len() == if mode == SpeakingKind::Radio {
        1
    } else {
        0int
    }
    &&& mode == SpeakingKind::Radio ==> radio.len() > 0
    &&& active is Some
    &&& belongs(s, mode, radio, active->0)
    &&& after == (SessionView { active_local_transmission: active, ..s })
    &&& answer->Ok_0 == if before is Some && belongs(s, mode, radio, before->0) {
        Seq::empty()
    } else {
        (match before {
            Some(previous) => end_of(previous),
            None => Seq::empty(),
        }) + beginning_of(active->0)
    }
}

/// A pressed key begins exactly its own mode.
pub proof fn law_keys_start_their_own_mode(
    s: SessionView,
    m: MessageView,
    r: Seq<Option<u32>>,
    clock: Seq<char>,
    now: u64,
    mode: SpeakingKind,
)
    requires
        has_key(mode),
        m.procedure == start_name(mode),
        handled(s, m, r, Some(clock), now).1 is Ok,
    ensures
        started_right(s, m, mode, handled(s, m, r, Some(clock), now)),
{
    lemma_pressed(s, m, r, clock, now, mode);
    lemma_start_step(s, m, mode);
}

/// When a pressed key is refused, and that it is accepted otherwise.
pub proof fn law_keys_are_refused_for_a_reason(
    s: SessionView,
    m: MessageView,
    r: Seq<Option<u32>>,
    clock: Seq<char>,
    now: u64,
    mode: SpeakingKind,
    t: TransmissionView,
)
    requires
        has_key(mode),
        m.procedure == start_name(mode),
        belongs(s, mode, named_by(m, mode), t),
        t.curve_scale == s.local_curve_scale,
        mode == SpeakingKind::Radio ==> m.parameters.len() == 1 && m.parameters[0].len() > 0,
        mode != SpeakingKind::Radio ==> m.parameters.len() == 0,
        crate::speaking_laws::has_value(s.local_curve_scale),
        fits(start_told(t)),
        s.active_local_transmission matches Some(previous) ==> fits(stop_told(previous)),
    ensures
        handled(s, m, r, Some(clock), now).1 is Ok,
{
    lemma_pressed(s, m, r, clock, now, mode);
    lemma_local_messages(t);
    match s.active_local_transmission {
        Some(previous) => lemma_local_messages(previous),
        None => {},
    }
}

proof fn lemma_announced(
    s: SessionView,
    m: MessageView,
    r: Seq<Option<u32>>,
    clock: Seq<char>,
    now: u64,
    mode: SpeakingKind,
)
    requires
        has_key(mode),
        m.procedure == start_name(mode),
        handled(s, m, r, Some(clock), now).1 is Ok,
        s.active_local_transmission matches Some(previous) ==> fits(start_told(previous)),
    ensures
        fits(start_told(handled(s, m, r, Some(clock), now).0.active_local_transmission->0)),
{
    lemma_pressed(s, m, r, clock, now, mode);
    lemma_local_messages(session::start_step(s, m, mode).0.active_local_transmission->0);
}

/// A released key ends what its press began: right after an accepted start, the
/// stop of the same name tells the game once that this very transmission ended,
/// reports its end, and leaves none active. What was active before the press is
/// taken to have been announced.
pub proof fn law_keys_stop_what_they_started(
    s: SessionView,
    start: MessageView,
    stop: MessageView,
    r: Seq<Option<u32>>,
    other: Seq<Option<u32>>,
    clock: Seq<char>,
    later: Seq<char>,
    now: u64,
    then: u64,
    mode: SpeakingKind,
)
    requires
        has_key(mode),
        start.procedure == start_name(mode),
        handled(s, start, r, Some(clock), now).1 is Ok,
        stop.procedure == stop_name(mode),
        stop.parameters.len() == 0,
        s.active_local_transmission matches Some(previous) ==> fits(start_told(previous)),
    ensures
        ({
            let pressed = handled(s, start, r, Some(clock), now).0;
            let (released, answer) = handled(pressed, stop, other, Some(later), then);
            &&& answer == Ok::<Seq<ActionView>, SessionFault>(
                end_of(pressed.active_local_transmission->0),
            )
            &&& released.active_local_transmission is None
            &&& released == (SessionView { active_local_transmission: None, ..s })
        }),
{
    law_keys_start_their_own_mode(s, start, r, clock, now, mode);
    let pressed = handled(s, start, r, Some(clock), now).0;
    let t = pressed.active_local_transmission->0;
    lemma_pressed(pressed, stop, other, later, then, mode);
    lemma_announced(s, start, r, clock, now, mode);
    lemma_local_messages(t);
    lemma_stop_fits(t);
}

/// A released key leaves the transmission of another key alone, and a session
/// without a transmission as it is.
pub proof fn law_keys_stop_nothing_else(
    s: SessionView,
    m: MessageView,
    r: Seq<Option<u32>>,
    clock: Seq<char>,
    now: u64,
    mode: SpeakingKind,
)
    requires
        has_key(mode),
        m.procedure == stop_name(mode),
        m.parameters.len() == 0,
        s.active_local_transmission matches Some(active) ==> active.speaking_kind != mode,
    ensures
        handled(s, m, r, Some(clock), now) == (
            s,
            Ok::<Seq<ActionView>, SessionFault>(Seq::empty()),
        ),
{
    lemma_pressed(s, m, r, clock, now, mode);
}

/// The curve that ACRE numbers so.
pub open spec fn numbered(number: int, curve: AcreVoiceCurveModel) -> bool {
    match curve {
        AcreVoiceCurveModel::Original => number == 0,
        AcreVoiceCurveModel::Amplitude => number == 1,
        AcreVoiceCurveModel::SelectableA => number == 2,
        AcreVoiceCurveModel::SelectableB => number == 3,
    }
}

/// A pose is read in ACRE's order: the position and then the head vector, each
/// as x, z and y, and behind them the language. The listener is published at
/// once with the curve that was chosen last, and nothing else changes. Anything
/// that cannot be read refuses the message.
pub proof fn law_poses_are_read_and_published(
    s: SessionView,
    m: MessageView,
    r: Seq<Option<u32>>,
    clock: Seq<char>,
    now: u64,
    position: AcreSpeakerVector,
    head_vector: AcreSpeakerVector,
    language: i32,
)
    requires
        m.procedure == "updateSelf"@,
    ensures
        ({
            let pose = AcreListenerPose { position, head_vector };
            let right = {
                &&& m.parameters.len() == 7
                &&& vector_written_at(r, 0, position)
                &&& vector_written_at(r, 3, head_vector)
                &&& decimal::signed_value(m.parameters[6]) == Some(language as int)
            };
            right ==> handled(s, m, r, Some(clock), now) == (
                SessionView {
                    local_language_id: language,
                    local_listener_pose: Some(pose),
                    ..s
                },
                Ok::<Seq<ActionView>, SessionFault>(
                    seq![
                        ActionView::ListenerUpdated(
                            AcreListenerState { pose, curve_model: s.local_voice_curve_model },
                        ),
                    ],
                ),
            )
        }),
        handled(s, m, r, Some(clock), now).1 is Ok ==> {
            let after = handled(s, m, r, Some(clock), now).0;
            &&& m.parameters.len() == 7
            &&& after.local_listener_pose is Some
            &&& vector_written_at(r, 0, after.local_listener_pose->0.position)
            &&& vector_written_at(r, 3, after.local_listener_pose->0.head_vector)
            &&& decimal::signed_value(m.parameters[6]) == Some(after.local_language_id as int)
        },
{
    lemma_updated_self(s, m, r, clock, now);
}

proof fn lemma_updated_self(
    s: SessionView,
    m: MessageView,
    r: Seq<Option<u32>>,
    clock: Seq<char>,
    now: u64,
)
    requires
        m.procedure == "updateSelf"@,
    ensures
        handled(s, m, r, Some(clock), now) == session::update_self_step(s, m, r),
{
    lemma_dispatch(s, m, r, clock, now);
}

proof fn lemma_chosen_curve(
    s: SessionView,
    m: MessageView,
    r: Seq<Option<u32>>,
    clock: Seq<char>,
    now: u64,
)
    requires
        m.procedure == "setVoiceCurveModel"@,
    ensures
        handled(s, m, r, Some(clock), now) == session::curve_model_step(s, m, r),
{
    lemma_dispatch(s, m, r, clock, now);
}

/// A chosen curve is the one with ACRE's number. It is published at once if the
/// listener's pose is known, and nothing else changes. A choice is accepted
/// exactly if the number is one of ACRE's and the second parameter is a number.
pub proof fn law_curves_are_chosen_by_number(
    s: SessionView,
    m: MessageView,
    r: Seq<Option<u32>>,
    clock: Seq<char>,
    now: u64,
)
    requires
        m.procedure == "setVoiceCurveModel"@,
    ensures
        ({
            let (after, answer) = handled(s, m, r, Some(clock), now);
            let number = decimal::signed_value(m.parameters[0]);
            let curve_model = after.local_voice_curve_model;
            &&& answer is Ok <==> {
                &&& m.parameters.len() == 2
                &&& number is Some && 0 <= number->0 <= 3
                &&& 1 < r.len() && r[1] is Some && written_at(r, 1, r[1]->0)
            }
            &&& answer is Ok ==> {
                &&& numbered(number->0, curve_model)
                &&& after == (SessionView { local_voice_curve_model: curve_model, ..s })
                &&& answer->Ok_0 == match s.local_listener_pose {
                    Some(pose) => seq![
                        ActionView::ListenerUpdated(AcreListenerState { pose, curve_model }),
                    ],
                    None => Seq::empty(),
                }
            }
            &&& answer is Err ==> after == s
        }),
{
    lemma_chosen_curve(s, m, r, clock, now);
}

/// Whether the message is a choice of a curve or a reset, and was accepted.
pub open spec fn changes_the_curve(
    s: SessionView,
    m: MessageView,
    r: Seq<Option<u32>>,
    clock: Seq<char>,
    now: u64,
) -> bool {
    (m.procedure == "setVoiceCurveModel"@ || m.procedure == "ext_reset"@) && handled(
        s,
        m,
        r,
        Some(clock),
        now,
    ).1 is Ok
}

/// A message of the game, as it is handled.
pub struct Heard {
    pub message: MessageView,
    pub readings: Seq<Option<u32>>,
    pub clock: Seq<char>,
    pub now: u64,
}

/// The session's answer to a message, and the session afterwards.
pub open spec fn heard(s: SessionView, h: Heard) -> Step {
    handled(s, h.message, h.readings, Some(h.clock), h.now)
}

/// The session after a run of messages.
pub open spec fn heard_all(s: SessionView, run: Seq<Heard>) -> SessionView
    decreases run.len(),
{
    if run.len() == 0 {
        s
    } else {
        heard(heard_all(s, run.drop_last()), run.last()).0
    }
}

/// Whether everything that the answer publishes of the listener is the pose and
/// the curve of the session.
pub open spec fn publishes(answer: Answer, s: SessionView) -> bool {
    answer matches Ok(actions) ==> forall|i: int|
        0 <= i < actions.len() ==> ((
        #[trigger] actions[i]) matches ActionView::ListenerUpdated(state)
            ==> s.local_listener_pose == Some(state.pose) && state.curve_model
            == s.local_voice_curve_model)
}

proof fn lemma_listener_steps(s: SessionView, m: MessageView, r: Seq<Option<u32>>, now: u64)
    ensures
        publishes(session::update_self_step(s, m, r).1, session::update_self_step(s, m, r).0),
        publishes(session::curve_model_step(s, m, r).1, session::curve_model_step(s, m, r).0),
        publishes(session::reset_step(s, m).1, s),
        publishes(session::client_id_step(s, m).1, s),
        publishes(session::curve_scale_step(s, m, r).1, s),
        publishes(session::setting_answer(m, r), s),
        publishes(session::load_sound_step(s, m, now).1, s),
        publishes(session::play_sound_answer(m, r), s),
        publishes(session::speaking_answer(s, m, r), s),
        publishes(session::switch_answer(m, true), s),
        publishes(session::switch_answer(m, false), s),
        publishes(session::user_mute_answer(m), s),
{
}

proof fn lemma_key_steps_publish_nothing(s: SessionView, m: MessageView, mode: SpeakingKind, t: SessionView)
    ensures
        publishes(session::start_step(s, m, mode).1, t),
        publishes(session::stop_step(s, m, mode).1, t),
        session::start_step(s, m, mode).0.local_voice_curve_model == s.local_voice_curve_model,
        session::stop_step(s, m, mode).0.local_voice_curve_model == s.local_voice_curve_model,
        session::start_step(s, m, mode).0.local_listener_pose == s.local_listener_pose,
        session::stop_step(s, m, mode).0.local_listener_pose == s.local_listener_pose,
{
    assert(forall|p: TransmissionView| publishes(#[trigger] session::stop_actions_of(p), t));
}

proof fn lemma_replies_publish_nothing(
    s: SessionView,
    m: MessageView,
    reply: Seq<char>,
    field: MetadataField,
    built: Result<MessageView, AcreCodecError>,
)
    ensures
        publishes(session::metadata_answer(s, m, reply, field), s),
        publishes(session::reply_answer(m, built), s),
{
}

/// Every listener that the session publishes is the listener it then knows: the
/// last pose, on the curve that was chosen last. Only an accepted choice or
/// reset changes the curve, and only an accepted pose or reset the pose.
pub proof fn law_the_published_listener_is_the_known_one(
    s: SessionView,
    m: MessageView,
    r: Seq<Option<u32>>,
    clock: Seq<char>,
    now: u64,
)
    ensures
        ({
            let (after, answer) = handled(s, m, r, Some(clock), now);
            &&& publishes(answer, after)
            &&& !changes_the_curve(s, m, r, clock, now) ==> after.local_voice_curve_model
                == s.local_voice_curve_model
            &&& m.procedure != "updateSelf"@ && m.procedure != "ext_reset"@
                ==> after.local_listener_pose == s.local_listener_pose
        }),
{
    lemma_listener_steps(s, m, r, now);
    lemma_key_steps_publish_nothing(s, m, SpeakingKind::Radio, handled(s, m, r, Some(clock), now).0);
    lemma_key_steps_publish_nothing(
        s,
        m,
        SpeakingKind::Intercom,
        handled(s, m, r, Some(clock), now).0,
    );
    lemma_key_steps_publish_nothing(s, m, SpeakingKind::God, handled(s, m, r, Some(clock), now).0);
    lemma_key_steps_publish_nothing(s, m, SpeakingKind::Zeus, handled(s, m, r, Some(clock), now).0);
    lemma_replies_publish_nothing(
        s,
        m,
        "handleGetVOIPServerName"@,
        MetadataField::ServerName,
        session::with_comma("pong"@, seq![clock]),
    );
    lemma_replies_publish_nothing(
        s,
        m,
        "handleGetVOIPServerUID"@,
        MetadataField::ServerUid,
        codec::built("handleGetPluginVersion"@, seq![s.plugin_version], false),
    );
    lemma_replies_publish_nothing(
        s,
        m,
        "handleGetVOIPChannelName"@,
        MetadataField::ChannelName,
        session::with_comma("pong"@, seq![clock]),
    );
    lemma_replies_publish_nothing(
        s,
        m,
        "handleGetVOIPChannelUID"@,
        MetadataField::ChannelUid,
        session::with_comma("pong"@, seq![clock]),
    );
}

/// A chosen curve lasts: until the next accepted choice or reset, whatever the
/// game sends, every listener that is published carries it.
pub proof fn law_the_chosen_curve_lasts(
    s: SessionView,
    choice: Heard,
    later: Seq<Heard>,
    at: int,
)
    requires
        choice.message.procedure == "setVoiceCurveModel"@,
        heard(s, choice).1 is Ok,
        0 <= at < later.len(),
        forall|i: int|
            0 <= i <= at ==> {
                let h = #[trigger] later[i];
                !changes_the_curve(
                    heard_all(heard(s, choice).0, later.take(i)),
                    h.message,
                    h.readings,
                    h.clock,
                    h.now,
                )
            },
    ensures
        ({
            let (after, answer) = heard(heard_all(heard(s, choice).0, later.take(at)), later[at]);
            &&& numbered(
                decimal::signed_value(choice.message.parameters[0])->0,
                after.local_voice_curve_model,
            )
            &&& publishes(answer, after)
        }),
{
    law_curves_are_chosen_by_number(s, choice.message, choice.readings, choice.clock, choice.now);
    lemma_curve_lasts(heard(s, choice).0, later, at);
    let before = heard_all(heard(s, choice).0, later.take(at));
    let h = later[at];
    law_the_published_listener_is_the_known_one(before, h.message, h.readings, h.clock, h.now);
}

proof fn lemma_curve_lasts(s: SessionView, run: Seq<Heard>, at: int)
    requires
        0 <= at < run.len(),
        forall|i: int|
            0 <= i <= at ==> {
                let h = #[trigger] run[i];
                !changes_the_curve(
                    heard_all(s, run.take(i)),
                    h.message,
                    h.readings,
                    h.clock,
                    h.now,
                )
            },
    ensures
        heard_all(s, run.take(at)).local_voice_curve_model == s.local_voice_curve_model,
    decreases at,
{
    if at == 0 {
        assert(run.take(0) =~= Seq::empty());
    } else {
        lemma_curve_lasts(s, run, at - 1);
        assert(run.take(at).drop_last() =~= run.take(at - 1));
        assert(run.take(at).last() == run[at - 1]);
        let h = run[at - 1];
        let before = heard_all(s, run.take(at - 1));
        law_the_published_listener_is_the_known_one(before, h.message, h.readings, h.clock, h.now);
    }
}

/// The order of a pose and a choice of curve does not matter: either way the
/// session ends the same, and the listener that is published last is the pose
/// on the chosen curve.
pub proof fn law_pose_and_curve_commute(s: SessionView, pose: Heard, choice: Heard)
    requires
        pose.message.procedure == "updateSelf"@,
        choice.message.procedure == "setVoiceCurveModel"@,
        heard(s, pose).1 is Ok,
        heard(s, choice).1 is Ok,
    ensures
        ({
            let first_pose = heard(heard(s, pose).0, choice);
            let first_choice = heard(heard(s, choice).0, pose);
            &&& first_pose.0 == first_choice.0
            &&& first_pose.1 == first_choice.1
            &&& first_pose.1 matches Ok(actions) && actions.len() == 1
            &&& first_pose.1->Ok_0[0] == ActionView::ListenerUpdated(
                AcreListenerState {
                    pose: first_pose.0.local_listener_pose->0,
                    curve_model: first_pose.0.local_voice_curve_model,
                },
            )
            &&& numbered(
                decimal::signed_value(choice.message.parameters[0])->0,
                first_pose.0.local_voice_curve_model,
            )
            &&& vector_written_at(
                pose.readings,
                0,
                first_pose.0.local_listener_pose->0.position,
            )
        }),
{
    let posed = heard(s, pose).0;
    let chosen = heard(s, choice).0;
    lemma_updated_self(s, pose.message, pose.readings, pose.clock, pose.now);
    lemma_updated_self(chosen, pose.message, pose.readings, pose.clock, pose.now);
    lemma_chosen_curve(s, choice.message, choice.readings, choice.clock, choice.now);
    lemma_chosen_curve(posed, choice.message, choice.readings, choice.clock, choice.now);
    assert(heard(posed, choice).0 =~= heard(chosen, pose).0);
    assert(heard(posed, choice).1->Ok_0 =~= heard(chosen, pose).1->Ok_0);
}

/// A message without a comma behind its last parameter.
pub open spec fn answered(procedure: Seq<char>, parameter: Seq<char>) -> MessageView {
    MessageView { procedure, parameters: seq![parameter], trailing_comma: false }
}

proof fn lemma_query_steps(
    s: SessionView,
    m: MessageView,
    r: Seq<Option<u32>>,
    clock: Seq<char>,
    now: u64,
)
    ensures
        m.procedure == "ping"@ ==> handled(s, m, r, Some(clock), now) == (
            s,
            session::reply_answer(m, session::with_comma("pong"@, seq![clock])),
        ),
        m.procedure == "getPluginVersion"@ ==> handled(s, m, r, Some(clock), now) == (
            s,
            session::reply_answer(
                m,
                codec::built("handleGetPluginVersion"@, seq![s.plugin_version], false),
            ),
        ),
        m.procedure == "getClientID"@ ==> handled(s, m, r, Some(clock), now)
            == session::client_id_step(s, m),
{
    lemma_dispatch(s, m, r, clock, now);
}

proof fn lemma_metadata_steps(
    s: SessionView,
    m: MessageView,
    r: Seq<Option<u32>>,
    clock: Seq<char>,
    now: u64,
)
    ensures
        m.procedure == "getVOIPServerName"@ ==> handled(s, m, r, Some(clock), now) == (
            s,
            session::metadata_answer(
                s,
                m,
                "handleGetVOIPServerName"@,
                MetadataField::ServerName,
            ),
        ),
        m.procedure == "getVOIPServerUID"@ ==> handled(s, m, r, Some(clock), now) == (
            s,
            session::metadata_answer(s, m, "handleGetVOIPServerUID"@, MetadataField::ServerUid),
        ),
        m.procedure == "getVOIPChannelName"@ ==> handled(s, m, r, Some(clock), now) == (
            s,
            session::metadata_answer(
                s,
                m,
                "handleGetVOIPChannelName"@,
                MetadataField::ChannelName,
            ),
        ),
        m.procedure == "getVOIPChannelUID"@ ==> handled(s, m, r, Some(clock), now) == (
            s,
            session::metadata_answer(s, m, "handleGetVOIPChannelUID"@, MetadataField::ChannelUid),
        ),
{
    lemma_dispatch(s, m, r, clock, now);
}

/// A ping is answered with the clock, and the question after the version with
/// the version, both without parameters. Neither changes the session.
pub proof fn law_pings_and_versions_are_answered(
    s: SessionView,
    m: MessageView,
    r: Seq<Option<u32>>,
    clock: Seq<char>,
    now: u64,
)
    requires
        m.procedure == "ping"@ || m.procedure == "getPluginVersion"@,
    ensures
        ({
            let (after, answer) = handled(s, m, r, Some(clock), now);
            &&& after == s
            &&& m.parameters.len() > 0 ==> answer is Err
            &&& m.parameters.len() == 0 && m.procedure == "ping"@ ==> sends(
                answer,
                told("pong"@, seq![clock]),
            )
            &&& m.parameters.len() == 0 && m.procedure == "getPluginVersion"@ ==> sends(
                answer,
                answered("handleGetPluginVersion"@, s.plugin_version),
            )
        }),
{
    lemma_query_steps(s, m, r, clock, now);
    lemma_codes();
}

/// The game is told of the server and the channel what it asks for: each name
/// and each UID under its own procedure. Without a connection it is refused.
pub proof fn law_the_connection_is_described(
    s: SessionView,
    m: MessageView,
    r: Seq<Option<u32>>,
    clock: Seq<char>,
    now: u64,
)
    ensures
        ({
            let (after, answer) = handled(s, m, r, Some(clock), now);
            let asks = m.procedure == "getVOIPServerName"@ || m.procedure == "getVOIPServerUID"@
                || m.procedure == "getVOIPChannelName"@ || m.procedure == "getVOIPChannelUID"@;
            let known = m.parameters.len() == 0 && s.voip_metadata is Some;
            &&& asks ==> after == s
            &&& asks && !known ==> answer is Err
            &&& asks && m.parameters.len() == 0 && s.voip_metadata is None ==> answer
                == Err::<Seq<ActionView>, SessionFault>(SessionFault::VoipMetadataUnavailable)
            &&& known && m.procedure == "getVOIPServerName"@ ==> sends(
                answer,
                answered("handleGetVOIPServerName"@, s.voip_metadata->0.server_name),
            )
            &&& known && m.procedure == "getVOIPServerUID"@ ==> sends(
                answer,
                answered("handleGetVOIPServerUID"@, s.voip_metadata->0.server_uid),
            )
            &&& known && m.procedure == "getVOIPChannelName"@ ==> sends(
                answer,
                answered("handleGetVOIPChannelName"@, s.voip_metadata->0.channel_name),
            )
            &&& known && m.procedure == "getVOIPChannelUID"@ ==> sends(
                answer,
                answered("handleGetVOIPChannelUID"@, s.voip_metadata->0.channel_uid),
            )
        }),
{
    lemma_metadata_steps(s, m, r, clock, now);
}

/// A player who names themselves is told the voice client's ID together with
/// the name they gave, and speaks under that name from then on. A second
/// parameter does not matter. Without a voice client they are refused, and stay
/// unnamed.
pub proof fn law_players_are_named(
    s: SessionView,
    m: MessageView,
    r: Seq<Option<u32>>,
    clock: Seq<char>,
    now: u64,
)
    requires
        m.procedure == "getClientID"@,
    ensures
        ({
            let (after, answer) = handled(s, m, r, Some(clock), now);
            let named = 1 <= m.parameters.len() <= 2 && s.local_voice_client_id is Some;
            &&& named ==> {
                &&& after == (SessionView { local_net_id: Some(m.parameters[0]), ..s })
                &&& sends(
                    answer,
                    told(
                        "handleGetClientID"@,
                        seq![
                            decimal::decimal(s.local_voice_client_id->0 as nat),
                            m.parameters[0],
                        ],
                    ),
                )
            }
            &&& !named ==> after == s && answer is Err
            &&& 1 <= m.parameters.len() <= 2 && s.local_voice_client_id is None ==> answer
                == Err::<Seq<ActionView>, SessionFault>(
                SessionFault::LocalVoiceClientIdUnavailable,
            )
        }),
{
    lemma_query_steps(s, m, r, clock, now);
}

proof fn lemma_setting_steps(
    s: SessionView,
    m: MessageView,
    r: Seq<Option<u32>>,
    clock: Seq<char>,
    now: u64,
)
    ensures
        m.procedure == "setSelectableVoiceCurve"@ ==> handled(s, m, r, Some(clock), now)
            == session::curve_scale_step(s, m, r),
        m.procedure == "setSetting"@ ==> handled(s, m, r, Some(clock), now) == (
            s,
            session::setting_answer(m, r),
        ),
        m.procedure == "setPTTKeys"@ ==> handled(s, m, r, Some(clock), now) == (
            s,
            Ok::<Seq<ActionView>, SessionFault>(Seq::empty()),
        ),
        m.procedure == "setTs3ChannelDetails"@ ==> handled(s, m, r, Some(clock), now).0 == s,
        m.procedure == "setTs3ChannelDetails"@ ==> (handled(s, m, r, Some(clock), now).1 is Ok
            <==> m.parameters.len() == 3),
        m.procedure == "setTs3ChannelDetails"@ && m.parameters.len() == 3 ==> handled(
            s,
            m,
            r,
            Some(clock),
            now,
        ).1 == Ok::<Seq<ActionView>, SessionFault>(Seq::empty()),
{
    lemma_dispatch(s, m, r, clock, now);
}

/// A chosen curve scale is that of later transmissions and of direct speech. It
/// is accepted exactly if it is the only parameter and a finite number, and
/// nothing is said of it.
pub proof fn law_curve_scales_are_taken_over(
    s: SessionView,
    m: MessageView,
    r: Seq<Option<u32>>,
    clock: Seq<char>,
    now: u64,
    scale: u32,
)
    requires
        m.procedure == "setSelectableVoiceCurve"@,
    ensures
        ({
            let (after, answer) = handled(s, m, r, Some(clock), now);
            &&& m.parameters.len() == 1 && written_at(r, 0, scale) ==> {
                &&& after == (SessionView { local_curve_scale: scale, ..s })
                &&& answer == Ok::<Seq<ActionView>, SessionFault>(Seq::empty())
            }
            &&& answer is Ok ==> m.parameters.len() == 1 && written_at(
                r,
                0,
                after.local_curve_scale,
            )
            &&& answer is Err ==> after == s
        }),
{
    lemma_setting_steps(s, m, r, clock, now);
}

/// Settings, keys and channel details of the game are checked and have no
/// effect.
pub proof fn law_foreign_settings_have_no_effect(
    s: SessionView,
    m: MessageView,
    r: Seq<Option<u32>>,
    clock: Seq<char>,
    now: u64,
)
    requires
        m.procedure == "setSetting"@ || m.procedure == "setPTTKeys"@ || m.procedure
            == "setTs3ChannelDetails"@,
    ensures
        ({
            let (after, answer) = handled(s, m, r, Some(clock), now);
            &&& after == s
            &&& answer is Ok ==> answer->Ok_0 == Seq::<ActionView>::empty()
            &&& m.procedure == "setPTTKeys"@ ==> answer is Ok
            &&& m.procedure == "setTs3ChannelDetails"@ ==> (answer is Ok <==> m.parameters.len()
                == 3)
            &&& m.procedure == "setSetting"@ ==> (answer is Ok <==> m.parameters.len() == 2
                && m.parameters[0].len() > 0 && 1 < r.len() && r[1] is Some && written_at(
                r,
                1,
                r[1]->0,
            ))
        }),
{
    lemma_setting_steps(s, m, r, clock, now);
    lemma_codes();
}

proof fn lemma_control_steps(
    s: SessionView,
    m: MessageView,
    r: Seq<Option<u32>>,
    clock: Seq<char>,
    now: u64,
)
    ensures
        m.procedure == "setSoundSystemMasterOverride"@ ==> handled(s, m, r, Some(clock), now) == (
            s,
            session::switch_answer(m, true),
        ),
        m.procedure == "localMute"@ ==> handled(s, m, r, Some(clock), now) == (
            s,
            session::switch_answer(m, false),
        ),
        m.procedure == "setMuted"@ ==> handled(s, m, r, Some(clock), now) == (
            s,
            session::user_mute_answer(m),
        ),
        m.procedure == "ext_reset"@ ==> handled(s, m, r, Some(clock), now) == session::reset_step(
            s,
            m,
        ),
        m.procedure == "updateSpeakingData"@ ==> handled(s, m, r, Some(clock), now) == (
            s,
            session::speaking_answer(s, m, r),
        ),
{
    lemma_dispatch(s, m, r, clock, now);
}

/// The master override and the local mute are switched on by every number but
/// zero, each by its own procedure. Neither changes the session.
pub proof fn law_switches_are_on_but_for_zero(
    s: SessionView,
    m: MessageView,
    r: Seq<Option<u32>>,
    clock: Seq<char>,
    now: u64,
    value: i32,
)
    requires
        m.parameters.len() == 1,
        decimal::signed_value(m.parameters[0]) == Some(value as int),
    ensures
        m.procedure == "setSoundSystemMasterOverride"@ ==> handled(s, m, r, Some(clock), now) == (
            s,
            Ok::<Seq<ActionView>, SessionFault>(
                seq![ActionView::SoundSystemOverrideChanged(value != 0)],
            ),
        ),
        m.procedure == "localMute"@ ==> handled(s, m, r, Some(clock), now) == (
            s,
            Ok::<Seq<ActionView>, SessionFault>(seq![ActionView::LocalMuteChanged(value != 0)]),
        ),
{
    lemma_control_steps(s, m, r, clock, now);
}

/// A speaker is muted by their ID and a number: zero unmutes.
pub proof fn law_speakers_are_muted_by_their_id(
    s: SessionView,
    m: MessageView,
    r: Seq<Option<u32>>,
    clock: Seq<char>,
    now: u64,
    id: u32,
    value: i32,
)
    requires
        m.procedure == "setMuted"@,
        m.parameters.len() == 2,
        decimal::unsigned_value(m.parameters[0], 0xffff_ffff) == Some(id as nat),
        decimal::signed_value(m.parameters[1]) == Some(value as int),
    ensures
        handled(s, m, r, Some(clock), now) == (
            s,
            Ok::<Seq<ActionView>, SessionFault>(
                seq![ActionView::UserMuteChanged { voice_client_id: id, muted: value != 0 }],
            ),
        ),
{
    lemma_control_steps(s, m, r, clock, now);
}

/// Switches and mutes that cannot be read are refused.
pub proof fn law_unreadable_controls_are_refused(
    s: SessionView,
    m: MessageView,
    r: Seq<Option<u32>>,
    clock: Seq<char>,
    now: u64,
)
    ensures
        ({
            let (after, answer) = handled(s, m, r, Some(clock), now);
            let switch = m.procedure == "setSoundSystemMasterOverride"@ || m.procedure
                == "localMute"@;
            &&& switch ==> (answer is Ok <==> m.parameters.len() == 1 && readable(
                m.parameters[0],
            ))
            &&& m.procedure == "setMuted"@ ==> (answer is Ok <==> m.parameters.len() == 2
                && decimal::unsigned_value(m.parameters[0], 0xffff_ffff) is Some && readable(
                m.parameters[1],
            ))
            &&& switch || m.procedure == "setMuted"@ ==> after == s
        }),
{
    lemma_control_steps(s, m, r, clock, now);
    lemma_codes();
}

/// Whether the text is a number between the bounds of 32 bits.
pub open spec fn readable(value: Seq<char>) -> bool {
    decimal::signed_value(value) matches Some(number) && -0x8000_0000 <= number <= 0x7fff_ffff
}

/// What the game decides about a speaker is passed on as it was written, with
/// the curve scale that the speaker announced, or one if they did not.
pub proof fn law_decisions_are_passed_on_as_written(
    s: SessionView,
    m: MessageView,
    r: Seq<Option<u32>>,
    clock: Seq<char>,
    now: u64,
    update: speaking::UpdateView,
)
    requires
        update_written(m, r, update),
        s.remote_transmissions.contains_key(update.speaker_id) ==> has_value(
            s.remote_transmissions[update.speaker_id].curve_scale,
        ),
    ensures
        handled(s, m, r, Some(clock), now) == (
            s,
            Ok::<Seq<ActionView>, SessionFault>(
                seq![
                    ActionView::SpeakingUpdated(
                        AudioUpdateView {
                            speaking: update,
                            curve_scale: if s.remote_transmissions.contains_key(
                                update.speaker_id,
                            ) {
                                s.remote_transmissions[update.speaker_id].curve_scale
                            } else {
                                0x3f80_0000
                            },
                        },
                    ),
                ],
            ),
        ),
{
    lemma_control_steps(s, m, r, clock, now);
    law_updates_are_read_as_written(m, r, update);
}

/// What is not written as a decision is refused, and changes nothing.
pub proof fn law_other_decisions_are_refused(
    s: SessionView,
    m: MessageView,
    r: Seq<Option<u32>>,
    clock: Seq<char>,
    now: u64,
    update: speaking::UpdateView,
)
    requires
        m.procedure == "updateSpeakingData"@,
    ensures
        handled(s, m, r, Some(clock), now).0 == s,
        speaking::carried_update(m, r) is Err ==> handled(s, m, r, Some(clock), now).1 is Err,
        speaking::carried_update(m, r) == Ok::<speaking::UpdateView, speaking::SpeakingFault>(
            update,
        ) ==> update_written(m, r, update),
{
    lemma_control_steps(s, m, r, clock, now);
    law_updates_are_read_as_written(m, r, update);
}

/// A reset forgets everything that the game said, and keeps what the plugin and
/// Mumble said. It takes at most one parameter, and is passed on.
pub proof fn law_resets_forget_what_the_game_said(
    s: SessionView,
    m: MessageView,
    r: Seq<Option<u32>>,
    clock: Seq<char>,
    now: u64,
)
    requires
        m.procedure == "ext_reset"@,
    ensures
        ({
            let (after, answer) = handled(s, m, r, Some(clock), now);
            &&& answer is Ok <==> m.parameters.len() <= 1
            &&& answer is Err ==> after == s
            &&& answer is Ok ==> {
                &&& answer->Ok_0 == seq![ActionView::ResetRequested]
                &&& after.plugin_version == s.plugin_version
                &&& after.local_voice_client_id == s.local_voice_client_id
                &&& after.voip_metadata == s.voip_metadata
                &&& after.local_net_id is None
                &&& after.local_language_id == 0
                &&& after.local_listener_pose is None
                &&& after.local_voice_curve_model == AcreVoiceCurveModel::Original
                &&& after.local_curve_scale == 0x3f80_0000
                &&& after.active_local_transmission is None
                &&& forall|id: u32| !(#[trigger] after.remote_transmissions.contains_key(id))
                &&& after.sounds.len() == 0
            }
        }),
{
    lemma_control_steps(s, m, r, clock, now);
}

/// How the game is told that another player began to transmit.
pub open spec fn remote_start_told(t: TransmissionView) -> MessageView {
    told(
        "remoteStartSpeaking"@,
        seq![
            decimal::decimal(t.voice_client_id as nat),
            decimal::signed_decimal(t.language_id as int),
            t.net_id,
            mode_digit(t.speaking_kind),
            t.radio_id,
        ],
    )
}

/// How the game is told that another player ceased to transmit.
pub open spec fn remote_stop_told(t: TransmissionView) -> MessageView {
    told(
        "remoteStopSpeaking"@,
        seq![
            decimal::decimal(t.voice_client_id as nat),
            t.net_id,
            mode_digit(t.speaking_kind),
            t.radio_id,
        ],
    )
}

proof fn lemma_remote_messages(t: TransmissionView)
    ensures
        session::remote_start(t) == codec::built(
            remote_start_told(t).procedure,
            remote_start_told(t).parameters,
            true,
        ),
        session::remote_stop(t) == codec::built(
            remote_stop_told(t).procedure,
            remote_stop_told(t).parameters,
            true,
        ),
        session::remote_start(t) matches Ok(message) ==> message == remote_start_told(t),
        session::remote_stop(t) matches Ok(message) ==> message == remote_stop_told(t),
{
    lemma_digits(t.speaking_kind);
}

/// Another player's transmission is told with everything that was announced of
/// it, and remembered as it is: the one before it ends first, and the same one
/// is not told again. What does not fit the format is refused and not
/// remembered.
pub proof fn law_remote_starts_are_told(s: SessionView, t: TransmissionView)
    ensures
        ({
            let (after, answer) = remote_started_step(s, t);
            let id = t.voice_client_id;
            let known = s.remote_transmissions.contains_key(id);
            let before = s.remote_transmissions[id];
            let repeated = known && agree(before, t);
            let fitting = fits(remote_start_told(t)) && (known ==> fits(remote_stop_told(before)));
            &&& repeated ==> after == s && answer == Ok::<Seq<ActionView>, SessionFault>(
                Seq::empty(),
            )
            &&& !repeated && !fitting ==> after == s && answer is Err
            &&& !repeated && fitting ==> {
                &&& after == (SessionView {
                    remote_transmissions: s.remote_transmissions.insert(id, t),
                    ..s
                })
                &&& answer == Ok::<Seq<ActionView>, SessionFault>(
                    if known {
                        seq![
                            ActionView::SendToArma(remote_stop_told(before)),
                            ActionView::SendToArma(remote_start_told(t)),
                        ]
                    } else {
                        seq![ActionView::SendToArma(remote_start_told(t))]
                    },
                )
            }
        }),
{
    lemma_remote_messages(t);
    lemma_remote_messages(s.remote_transmissions[t.voice_client_id]);
}

/// The end of another player's transmission is told with what was remembered of
/// it, which is then forgotten. Nothing is told of a player who does not
/// transmit.
pub proof fn law_remote_stops_are_told(s: SessionView, id: u32)
    ensures
        ({
            let (after, answer) = remote_stopped_step(s, id);
            let known = s.remote_transmissions.contains_key(id);
            &&& after == (SessionView {
                remote_transmissions: s.remote_transmissions.remove(id),
                ..s
            })
            &&& known ==> sends(answer, remote_stop_told(s.remote_transmissions[id]))
            &&& !known ==> answer == Ok::<Seq<ActionView>, SessionFault>(Seq::empty())
        }),
{
    lemma_remote_messages(s.remote_transmissions[id]);
    if !s.remote_transmissions.contains_key(id) {
        assert(s.remote_transmissions.remove(id) =~= s.remote_transmissions);
    }
}

/// Native speech goes out under the player's name and voice client, in their
/// language and on their curve, over no radio, once both are known.
pub proof fn law_direct_speech_is_the_players_own(s: SessionView)
    requires
        has_value(s.local_curve_scale),
    ensures
        direct_view(s) is Some <==> s.local_voice_client_id is Some && s.local_net_id is Some,
        direct_view(s) matches Some(t) ==> {
            &&& s.local_voice_client_id == Some(t.voice_client_id)
            &&& s.local_net_id == Some(t.net_id)
            &&& t.language_id == s.local_language_id
            &&& t.speaking_kind == SpeakingKind::Direct
            &&& t.radio_id.len() == 0
            &&& t.curve_scale == s.local_curve_scale
        },
{
}

proof fn lemma_frame_steps(s: SessionView, m: MessageView, mode: SpeakingKind)
    ensures
        ({
            let started = session::start_step(s, m, mode).0;
            let stopped = session::stop_step(s, m, mode).0;
            &&& started == (SessionView {
                active_local_transmission: started.active_local_transmission,
                ..s
            })
            &&& stopped == (SessionView {
                active_local_transmission: stopped.active_local_transmission,
                ..s
            })
        }),
{
}

proof fn lemma_other_frames(s: SessionView, m: MessageView, r: Seq<Option<u32>>, now: u64)
    ensures
        ({
            let named = session::client_id_step(s, m).0;
            let posed = session::update_self_step(s, m, r).0;
            let scaled = session::curve_scale_step(s, m, r).0;
            let curved = session::curve_model_step(s, m, r).0;
            let loaded = session::load_sound_step(s, m, now).0;
            let reset = session::reset_step(s, m).0;
            &&& named == (SessionView { local_net_id: named.local_net_id, ..s })
            &&& posed == (SessionView {
                local_language_id: posed.local_language_id,
                local_listener_pose: posed.local_listener_pose,
                ..s
            })
            &&& scaled == (SessionView { local_curve_scale: scaled.local_curve_scale, ..s })
            &&& curved == (SessionView {
                local_voice_curve_model: curved.local_voice_curve_model,
                ..s
            })
            &&& loaded == (SessionView { sounds: loaded.sounds, ..s })
            &&& reset.plugin_version == s.plugin_version
            &&& reset.local_voice_client_id == s.local_voice_client_id
            &&& reset.voip_metadata == s.voip_metadata
        }),
{
}

/// The step that a message takes: what it leaves of the session.
proof fn lemma_where_messages_lead(
    s: SessionView,
    m: MessageView,
    r: Seq<Option<u32>>,
    clock: Seq<char>,
    now: u64,
)
    ensures
        ({
            let after = handled(s, m, r, Some(clock), now).0;
            let p = m.procedure;
            ||| after == s
            ||| p == "getClientID"@ && after == session::client_id_step(s, m).0
            ||| p == "updateSelf"@ && after == session::update_self_step(s, m, r).0
            ||| p == "setSelectableVoiceCurve"@ && after == session::curve_scale_step(s, m, r).0
            ||| p == "setVoiceCurveModel"@ && after == session::curve_model_step(s, m, r).0
            ||| p == "loadSound"@ && after == session::load_sound_step(s, m, now).0
            ||| p == "ext_reset"@ && after == session::reset_step(s, m).0
            ||| p == "startRadioSpeaking"@ && after == session::start_step(
                s,
                m,
                SpeakingKind::Radio,
            ).0
            ||| p == "stopRadioSpeaking"@ && after == session::stop_step(
                s,
                m,
                SpeakingKind::Radio,
            ).0
            ||| p == "startIntercomSpeaking"@ && after == session::start_step(
                s,
                m,
                SpeakingKind::Intercom,
            ).0
            ||| p == "stopIntercomSpeaking"@ && after == session::stop_step(
                s,
                m,
                SpeakingKind::Intercom,
            ).0
            ||| p == "startGodModeSpeaking"@ && after == session::start_step(
                s,
                m,
                SpeakingKind::God,
            ).0
            ||| p == "stopGodModeSpeaking"@ && after == session::stop_step(
                s,
                m,
                SpeakingKind::God,
            ).0
            ||| p == "startZeusSpeaking"@ && after == session::start_step(
                s,
                m,
                SpeakingKind::Zeus,
            ).0
            ||| p == "stopZeusSpeaking"@ && after == session::stop_step(
                s,
                m,
                SpeakingKind::Zeus,
            ).0
        }),
{
}

/// Every message leaves alone what it is not about. What the plugin and Mumble
/// said no message changes; each part of what the game said is changed by the
/// messages of that part alone, and by a reset.
#[verifier::rlimit(60)]
pub proof fn law_messages_change_only_their_own_part(
    s: SessionView,
    m: MessageView,
    r: Seq<Option<u32>>,
    clock: Seq<char>,
    now: u64,
)
    ensures
        ({
            let after = handled(s, m, r, Some(clock), now).0;
            let p = m.procedure;
            &&& after.plugin_version == s.plugin_version
            &&& after.local_voice_client_id == s.local_voice_client_id
            &&& after.voip_metadata == s.voip_metadata
            &&& p != "ext_reset"@ ==> {
                &&& after.remote_transmissions == s.remote_transmissions
                &&& after.local_net_id != s.local_net_id ==> p == "getClientID"@
                &&& after.local_language_id != s.local_language_id ==> p == "updateSelf"@
                &&& after.local_curve_scale != s.local_curve_scale ==> p
                    == "setSelectableVoiceCurve"@
                &&& after.sounds != s.sounds ==> p == "loadSound"@
                &&& after.active_local_transmission != s.active_local_transmission ==> {
                    ||| p == "startRadioSpeaking"@
                    ||| p == "stopRadioSpeaking"@
                    ||| p == "startIntercomSpeaking"@
                    ||| p == "stopIntercomSpeaking"@
                    ||| p == "startGodModeSpeaking"@
                    ||| p == "stopGodModeSpeaking"@
                    ||| p == "startZeusSpeaking"@
                    ||| p == "stopZeusSpeaking"@
                }
            }
        }),
{
    lemma_frame_steps(s, m, SpeakingKind::Radio);
    lemma_frame_steps(s, m, SpeakingKind::Intercom);
    lemma_frame_steps(s, m, SpeakingKind::God);
    lemma_frame_steps(s, m, SpeakingKind::Zeus);
    lemma_other_frames(s, m, r, now);
    lemma_where_messages_lead(s, m, r, clock, now);
}

/// Chunks of sounds go to the assembly and requests to play come out of their
/// messages, with nothing between: a sound is passed on exactly when its
/// assembly is complete, and a playback exactly as it was written.
pub proof fn law_sounds_are_passed_on(
    s: SessionView,
    m: MessageView,
    r: Seq<Option<u32>>,
    clock: Seq<char>,
    now: u64,
)
    ensures
        ({
            let (after, answer) = handled(s, m, r, Some(clock), now);
            &&& m.procedure == "loadSound"@ && sound::carried_chunk(m) is Ok ==> {
                let (sounds, outcome) = sound::accepted(
                    s.sounds,
                    sound::carried_chunk(m)->Ok_0,
                    now,
                );
                &&& after.sounds == sounds
                &&& answer is Ok <==> outcome is Ok
                &&& outcome matches Ok(Some(loaded)) ==> answer->Ok_0 == seq![
                    ActionView::SoundLoaded(loaded),
                ]
                &&& outcome matches Ok(None) ==> answer->Ok_0 == Seq::<ActionView>::empty()
            }
            &&& m.procedure == "loadSound"@ && sound::carried_chunk(m) is Err ==> answer is Err
                && after == s
            &&& m.procedure == "playLoadedSound"@ ==> {
                &&& after == s
                &&& answer is Ok <==> sound::carried_playback(m, r) is Ok
                &&& answer is Ok ==> answer->Ok_0 == seq![
                    ActionView::SoundPlaybackRequested(sound::carried_playback(m, r)->Ok_0),
                ]
            }
        }),
{
    lemma_dispatch(s, m, r, clock, now);
}

/// Without a clock nothing is handled, and what ACRE does not know is refused
/// by its name.
pub proof fn law_nothing_is_handled_without_a_clock(
    s: SessionView,
    m: MessageView,
    r: Seq<Option<u32>>,
    clock: Seq<char>,
    now: u64,
)
    ensures
        handled(s, m, r, None, now) == (
            s,
            Err::<Seq<ActionView>, SessionFault>(SessionFault::NonFiniteClock),
        ),
        !crate::procedure::known(m.procedure) ==> handled(s, m, r, Some(clock), now) == (
            s,
            Err::<Seq<ActionView>, SessionFault>(SessionFault::UnsupportedProcedure(m.procedure)),
        ),
{
    crate::procedure::lemma_inventory();
}

/// The refusal of a message with another number of parameters than expected.
pub open spec fn miscounted(answer: Answer, m: MessageView, expected: Seq<char>) -> bool {
    answer == Err::<Seq<ActionView>, SessionFault>(
        SessionFault::WrongArity {
            procedure: m.procedure,
            expected,
            actual: m.parameters.len() as usize,
        },
    )
}

/// Queries, settings and controls with a wrong number of parameters are refused
/// for it.
pub proof fn law_miscounted_messages_are_refused(
    s: SessionView,
    m: MessageView,
    r: Seq<Option<u32>>,
    clock: Seq<char>,
    now: u64,
)
    requires
        m.parameters.len() <= usize::MAX,
    ensures
        ({
            let answer = handled(s, m, r, Some(clock), now).1;
            let p = m.procedure;
            let n = m.parameters.len();
            &&& (p == "ping"@ || p == "getPluginVersion"@) && n != 0 ==> miscounted(answer, m, "zero"@)
            &&& p == "getClientID"@ && n != 1 && n != 2 ==> miscounted(answer, m, "one"@)
            &&& p == "getVOIPServerName"@ && n != 0 ==> miscounted(answer, m, "zero"@)
            &&& p == "getVOIPChannelUID"@ && n != 0 ==> miscounted(answer, m, "zero"@)
            &&& p == "setSelectableVoiceCurve"@ && n != 1 ==> miscounted(answer, m, "one"@)
            &&& p == "setSetting"@ && n != 2 ==> miscounted(answer, m, "the expected number of"@)
            &&& p == "localMute"@ && n != 1 ==> miscounted(answer, m, "one"@)
            &&& p == "setSoundSystemMasterOverride"@ && n != 1 ==> miscounted(answer, m, "one"@)
            &&& p == "setMuted"@ && n != 2 ==> miscounted(answer, m, "the expected number of"@)
            &&& p == "ext_reset"@ && n > 1 ==> miscounted(answer, m, "zero or one"@)
        }),
{
    lemma_query_steps(s, m, r, clock, now);
    lemma_metadata_steps(s, m, r, clock, now);
    lemma_setting_steps(s, m, r, clock, now);
    lemma_control_steps(s, m, r, clock, now);
}

/// A refused key says why: its parameters are miscounted, it names an empty
/// radio, the voice client or the player is unknown, the curve scale is not
/// finite, or the format cannot carry what the game is to be told.
pub proof fn law_refused_keys_name_their_fault(
    s: SessionView,
    m: MessageView,
    r: Seq<Option<u32>>,
    clock: Seq<char>,
    now: u64,
    mode: SpeakingKind,
)
    requires
        has_key(mode),
        m.procedure == start_name(mode),
        m.parameters.len() <= usize::MAX,
    ensures
        ({
            let answer = handled(s, m, r, Some(clock), now).1;
            let wanted = if mode == SpeakingKind::Radio {
                1int
            } else {
                0
            };
            let counted = m.parameters.len() == wanted;
            let named = counted && (mode == SpeakingKind::Radio ==> m.parameters[0].len() > 0);
            let known = s.local_voice_client_id is Some;
            let player = s.local_net_id is Some && s.local_net_id->0.len() > 0;
            &&& !counted ==> miscounted(
                answer,
                m,
                if wanted == 0 {
                    "zero"@
                } else {
                    "one"@
                },
            )
            &&& counted && !named ==> answer == Err::<Seq<ActionView>, SessionFault>(
                SessionFault::EmptyRadioId,
            )
            &&& named && !known ==> answer == Err::<Seq<ActionView>, SessionFault>(
                SessionFault::LocalVoiceClientIdUnavailable,
            )
            &&& named && known && !player ==> answer == Err::<Seq<ActionView>, SessionFault>(
                SessionFault::LocalNetIdUnavailable,
            )
            &&& named && known && player && !has_value(s.local_curve_scale) ==> answer
                == Err::<Seq<ActionView>, SessionFault>(SessionFault::NonFiniteCurveScale)
            &&& named && known && player && has_value(s.local_curve_scale) && answer is Err
                ==> answer->Err_0 is Codec
        }),
{
    lemma_pressed(s, m, r, clock, now, mode);
}

/// A pose that cannot be read is refused for the parameter that is to blame,
/// and leaves the session as it was.
pub proof fn law_unreadable_poses_name_the_parameter(
    s: SessionView,
    m: MessageView,
    r: Seq<Option<u32>>,
    clock: Seq<char>,
    now: u64,
)
    requires
        m.procedure == "updateSelf"@,
        m.parameters.len() <= usize::MAX,
        handled(s, m, r, Some(clock), now).1 is Err,
    ensures
        handled(s, m, r, Some(clock), now).0 == s,
        match handled(s, m, r, Some(clock), now).1->Err_0 {
            SessionFault::WrongArity { actual, .. } => actual == m.parameters.len() && actual
                != 7,
            SessionFault::InvalidFloat { index, .. } => index < 6 && !(index < r.len()
                && r[index as int] is Some && has_value(r[index as int]->0)),
            SessionFault::InvalidInteger { index, .. } => index == 6 && decimal::signed_value(
                m.parameters[6],
            ) is None,
            _ => false,
        },
{
    lemma_updated_self(s, m, r, clock, now);
    lemma_unreadable_vector(m, r, 0);
    lemma_unreadable_vector(m, r, 3);
}

proof fn lemma_unreadable_vector(m: MessageView, r: Seq<Option<u32>>, start: int)
    requires
        0 <= start <= 3,
    ensures
        session::vector_at(m, r, start) matches Err(fault) ==> {
            &&& fault is InvalidFloat
            &&& start <= fault->InvalidFloat_index <= start + 2
            &&& !(fault->InvalidFloat_index < r.len() && r[fault->InvalidFloat_index as int]
                is Some && has_value(r[fault->InvalidFloat_index as int]->0))
        },
{
}

/// A curve that cannot be read is refused for the parameter that is to blame,
/// and leaves the session as it was.
pub proof fn law_unreadable_curves_name_the_parameter(
    s: SessionView,
    m: MessageView,
    r: Seq<Option<u32>>,
    clock: Seq<char>,
    now: u64,
)
    requires
        m.procedure == "setVoiceCurveModel"@,
        m.parameters.len() <= usize::MAX,
        handled(s, m, r, Some(clock), now).1 is Err,
    ensures
        handled(s, m, r, Some(clock), now).0 == s,
        match handled(s, m, r, Some(clock), now).1->Err_0 {
            SessionFault::WrongArity { actual, .. } => actual == m.parameters.len() && actual
                != 2,
            SessionFault::InvalidFloat { index, .. } => index == 1 && !(1 < r.len() && r[1]
                is Some && has_value(r[1]->0)),
            SessionFault::InvalidInteger { index, .. } => index == 0 && decimal::signed_value(
                m.parameters[0],
            ) is None,
            SessionFault::Speaking(speaking::SpeakingFault::InvalidVoiceCurveModel { model }) => {
                &&& decimal::signed_value(m.parameters[0]) == Some(model as int)
                &&& !(0 <= model <= 3)
            },
            _ => false,
        },
{
    lemma_chosen_curve(s, m, r, clock, now);
}

} // verus!
