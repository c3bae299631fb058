//! What ACRE's audibility decisions mean: how a decision is written on the
//! wire, and that reading it gives back exactly what was written.

use crate::codec::MessageView;
use crate::decimal;
use crate::speaking::{
    self, carried_update, AcreSpeakerVector, DecisionView, RadioReceptionPath, SpatialSpeakingKind,
    SpeakingFault, UpdateView,
};
use vstd::prelude::*;

verus! {

/// Whether the bits have an exponent that stands for a number: not all ones.
pub open spec fn has_value(bits: u32) -> bool {
    bits < 0x7f80_0000 || 0x8000_0000 <= bits < 0xff80_0000
}

/// Whether parameter `index` was written as the number.
pub open spec fn written_at(readings: Seq<Option<u32>>, index: int, bits: u32) -> bool {
    0 <= index < readings.len() && readings[index] == Some(bits) && has_value(bits)
}

/// Whether the vector was written from parameter `start` on: first x, then z,
/// then y.
pub open spec fn vector_written_at(
    readings: Seq<Option<u32>>,
    start: int,
    vector: AcreSpeakerVector,
) -> bool {
    &&& written_at(readings, start, vector.x)
    &&& written_at(readings, start + 1, vector.z)
    &&& written_at(readings, start + 2, vector.y)
}

/// Whether the number at `index` says that a path comes out of a loudspeaker:
/// anything but zero does.
pub open spec fn loudspeaker_written_at(
    readings: Seq<Option<u32>>,
    index: int,
    loudspeaker: bool,
) -> bool {
    &&& 0 <= index < readings.len()
    &&& readings[index] is Some
    &&& has_value(readings[index]->0)
    &&& loudspeaker <==> readings[index]->0 != 0 && readings[index]->0 != 0x8000_0000
}

/// Whether the reception path was written from parameter `start` on.
pub open spec fn path_written_at(
    readings: Seq<Option<u32>>,
    start: int,
    path: RadioReceptionPath,
) -> bool {
    &&& written_at(readings, start, path.volume)
    &&& written_at(readings, start + 1, path.signal_quality)
    &&& written_at(readings, start + 2, path.signal_model)
    &&& loudspeaker_written_at(readings, start + 3, path.loudspeaker)
    &&& vector_written_at(readings, start + 4, path.position)
}

/// The letter in front of a decision.
pub open spec fn letter_of(decision: DecisionView) -> Seq<char> {
    match decision {
        DecisionView::Mute => "m"@,
        DecisionView::Spatial { kind: SpatialSpeakingKind::Direct, .. } => "d"@,
        DecisionView::Spatial { kind: SpatialSpeakingKind::Intercom, .. } => "i"@,
        DecisionView::Spatial { kind: SpatialSpeakingKind::Zeus, .. } => "z"@,
        DecisionView::Radio { .. } => "r"@,
        DecisionView::Spectator { .. } => "s"@,
        DecisionView::God { .. } => "g"@,
    }
}

/// Whether the parameters behind the third write the decision.
pub open spec fn decision_written(
    message: MessageView,
    readings: Seq<Option<u32>>,
    decision: DecisionView,
) -> bool {
    match decision {
        DecisionView::Mute => message.parameters.len() == 3,
        DecisionView::Spatial { volume, position, head_vector, .. } => {
            &&& message.parameters.len() == 10
            &&& written_at(readings, 3, volume)
            &&& vector_written_at(readings, 4, position)
            &&& vector_written_at(readings, 7, head_vector)
        },
        DecisionView::Radio { paths } => {
            &&& paths.len() <= 64
            &&& message.parameters.len() == 4 + paths.len() * 7
            &&& decimal::unsigned_value(message.parameters[3], usize::MAX as nat) == Some(
                paths.len(),
            )
            &&& forall|i: int|
                0 <= i < paths.len() ==> path_written_at(readings, 4 + i * 7, #[trigger] paths[i])
        },
        DecisionView::Spectator { volume } => message.parameters.len() == 4 && written_at(
            readings,
            3,
            volume,
        ),
        DecisionView::God { volume } => message.parameters.len() == 4 && written_at(
            readings,
            3,
            volume,
        ),
    }
}

/// Whether the message writes the update: its letter, its speaker, its Babel
/// flag, and every number of its decision in its place.
pub open spec fn update_written(
    message: MessageView,
    readings: Seq<Option<u32>>,
    update: UpdateView,
) -> bool {
    &&& message.procedure == "updateSpeakingData"@
    &&& message.parameters.len() >= 3
    &&& message.parameters[0] == letter_of(update.decision)
    &&& decimal::unsigned_value(message.parameters[1], 0xffff_ffff) == Some(
        update.speaker_id as nat,
    )
    &&& message.parameters[2] == if update.speaks_babel {
        "1"@
    } else {
        "0"@
    }
    &&& decision_written(message, readings, update.decision)
}

proof fn lemma_letters_differ()
    ensures
        "m"@ != "d"@ && "m"@ != "i"@ && "m"@ != "z"@ && "m"@ != "r"@ && "m"@ != "s"@ && "m"@
            != "g"@,
        "d"@ != "i"@ && "d"@ != "z"@ && "d"@ != "r"@ && "d"@ != "s"@ && "d"@ != "g"@,
        "i"@ != "z"@ && "i"@ != "r"@ && "i"@ != "s"@ && "i"@ != "g"@,
        "z"@ != "r"@ && "z"@ != "s"@ && "z"@ != "g"@,
        "r"@ != "s"@ && "r"@ != "g"@ && "s"@ != "g"@,
        "0"@ != "1"@,
{
    reveal_strlit("m");
    reveal_strlit("d");
    reveal_strlit("i");
    reveal_strlit("z");
    reveal_strlit("r");
    reveal_strlit("s");
    reveal_strlit("g");
    reveal_strlit("0");
    reveal_strlit("1");
    assert("m"@[0] == 'm' && "d"@[0] == 'd' && "i"@[0] == 'i' && "z"@[0] == 'z' && "r"@[0] == 'r'
        && "s"@[0] == 's' && "g"@[0] == 'g' && "0"@[0] == '0' && "1"@[0] == '1');
}

proof fn lemma_numbers(readings: Seq<Option<u32>>, index: int, bits: u32)
    ensures
        speaking::number_at(readings, index) == Ok::<u32, SpeakingFault>(bits) <==> written_at(
            readings,
            index,
            bits,
        ),
{
}

proof fn lemma_vectors(readings: Seq<Option<u32>>, start: int, vector: AcreSpeakerVector)
    ensures
        speaking::vector_at(readings, start) == Ok::<AcreSpeakerVector, SpeakingFault>(vector)
            <==> vector_written_at(readings, start, vector),
{
    lemma_numbers(readings, start, vector.x);
    lemma_numbers(readings, start + 1, vector.z);
    lemma_numbers(readings, start + 2, vector.y);
}

proof fn lemma_path(readings: Seq<Option<u32>>, start: int, path: RadioReceptionPath)
    ensures
        speaking::path_at(readings, start) == Ok::<RadioReceptionPath, SpeakingFault>(path)
            <==> path_written_at(readings, start, path),
{
    lemma_numbers(readings, start, path.volume);
    lemma_numbers(readings, start + 1, path.signal_quality);
    lemma_numbers(readings, start + 2, path.signal_model);
    if speaking::number_at(readings, start + 3) is Ok {
        lemma_numbers(readings, start + 3, speaking::number_at(readings, start + 3)->Ok_0);
    }
    if loudspeaker_written_at(readings, start + 3, path.loudspeaker) {
        lemma_numbers(readings, start + 3, readings[start + 3]->0);
    }
    lemma_vectors(readings, start + 4, path.position);
}

proof fn lemma_paths(readings: Seq<Option<u32>>, paths: Seq<RadioReceptionPath>)
    ensures
        speaking::paths_at(readings, paths.len()) == Ok::<Seq<RadioReceptionPath>, SpeakingFault>(
            paths,
        ) <==> forall|i: int|
            0 <= i < paths.len() ==> path_written_at(readings, 4 + i * 7, #[trigger] paths[i]),
    decreases paths.len(),
{
    if paths.len() == 0 {
        assert(paths =~= Seq::empty());
    } else {
        let head = paths.drop_last();
        let last = paths.last();
        lemma_paths(readings, head);
        lemma_path(readings, 4 + (paths.len() - 1) * 7, last);
        assert(head.push(last) =~= paths);
        let found = speaking::paths_at(readings, paths.len());
        if found == Ok::<Seq<RadioReceptionPath>, SpeakingFault>(paths) {
            let earlier = speaking::paths_at(readings, head.len())->Ok_0;
            let path = speaking::path_at(readings, 4 + (paths.len() - 1) * 7)->Ok_0;
            assert(earlier.push(path).drop_last() =~= earlier);
            assert(earlier.push(path).last() == path);
            assert forall|i: int| 0 <= i < paths.len() implies path_written_at(
                readings,
                4 + i * 7,
                #[trigger] paths[i],
            ) by {
                if i < head.len() {
                    assert(head[i] == paths[i]);
                }
            }
        }
        if forall|i: int|
            0 <= i < paths.len() ==> path_written_at(readings, 4 + i * 7, #[trigger] paths[i]) {
            assert forall|i: int| 0 <= i < head.len() implies path_written_at(
                readings,
                4 + i * 7,
                #[trigger] head[i],
            ) by {
                assert(head[i] == paths[i]);
            }
            assert(paths[paths.len() - 1] == last);
        }
    }
}

proof fn lemma_paths_len(readings: Seq<Option<u32>>, count: nat)
    ensures
        speaking::paths_at(readings, count) matches Ok(paths) ==> paths.len() == count,
    decreases count,
{
    if count > 0 {
        lemma_paths_len(readings, (count - 1) as nat);
    }
}

proof fn lemma_decisions(message: MessageView, readings: Seq<Option<u32>>, decision: DecisionView)
    requires
        message.parameters.len() >= 3,
    ensures
        speaking::carried_decision(message, readings) == Ok::<DecisionView, SpeakingFault>(
            decision,
        ) <==> message.parameters[0] == letter_of(decision) && decision_written(
            message,
            readings,
            decision,
        ),
{
    lemma_letters_differ();
    let carried = speaking::carried_decision(message, readings);
    match decision {
        DecisionView::Mute => {},
        DecisionView::Spatial { kind, volume, position, head_vector } => {
            lemma_numbers(readings, 3, volume);
            lemma_vectors(readings, 4, position);
            lemma_vectors(readings, 7, head_vector);
        },
        DecisionView::Radio { paths } => {
            lemma_paths(readings, paths);
            if carried == Ok::<DecisionView, SpeakingFault>(decision) {
                let count = decimal::unsigned_value(message.parameters[3], usize::MAX as nat)->0;
                lemma_paths_len(readings, count);
            }
        },
        DecisionView::Spectator { volume } => {
            lemma_numbers(readings, 3, volume);
        },
        DecisionView::God { volume } => {
            lemma_numbers(readings, 3, volume);
        },
    }
}

/// A message is read as an update exactly if it writes that update: the
/// speaker, the Babel flag, the kind, and every number in its place.
pub proof fn law_updates_are_read_as_written(
    message: MessageView,
    readings: Seq<Option<u32>>,
    update: UpdateView,
)
    ensures
        carried_update(message, readings) == Ok::<UpdateView, SpeakingFault>(update)
            <==> update_written(message, readings, update),
{
    lemma_letters_differ();
    if message.parameters.len() >= 3 {
        lemma_decisions(message, readings, update.decision);
    }
}

/// Two messages that differ in the Babel flag only carry updates that differ in
/// that flag only.
pub proof fn law_the_third_parameter_is_the_babel_flag(
    plain: MessageView,
    babel: MessageView,
    readings: Seq<Option<u32>>,
)
    requires
        plain.parameters.len() >= 3,
        plain.parameters[2] == "0"@,
        babel == (MessageView { parameters: plain.parameters.update(2, "1"@), ..plain }),
    ensures
        carried_update(plain, readings) is Ok <==> carried_update(babel, readings) is Ok,
        carried_update(plain, readings) matches Ok(update) ==> !update.speaks_babel
            && carried_update(babel, readings) == Ok::<UpdateView, SpeakingFault>(
            UpdateView { speaks_babel: true, ..update },
        ),
{
    lemma_letters_differ();
    if carried_update(plain, readings) is Ok {
        let update = carried_update(plain, readings)->Ok_0;
        law_updates_are_read_as_written(plain, readings, update);
        law_updates_are_read_as_written(
            babel,
            readings,
            UpdateView { speaks_babel: true, ..update },
        );
    }
    if carried_update(babel, readings) is Ok {
        let update = carried_update(babel, readings)->Ok_0;
        law_updates_are_read_as_written(babel, readings, update);
        law_updates_are_read_as_written(
            plain,
            readings,
            UpdateView { speaks_babel: false, ..update },
        );
    }
}

proof fn lemma_refused_vector(readings: Seq<Option<u32>>, start: int)
    requires
        0 <= start < 1000,
    ensures
        speaking::vector_at(readings, start) matches Err(fault) ==> (fault
            matches SpeakingFault::InvalidFloat { index } && start <= index < start + 3
            && unread_at(readings, index as int)),
{
}

proof fn lemma_refused_number(readings: Seq<Option<u32>>, at: int)
    requires
        0 <= at < 1000,
    ensures
        speaking::number_at(readings, at) matches Err(fault) ==> (fault
            matches SpeakingFault::InvalidFloat { index } && index == at && unread_at(
            readings,
            at,
        )),
{
}

proof fn lemma_refused_path(readings: Seq<Option<u32>>, start: int)
    requires
        0 <= start < 900,
    ensures
        speaking::path_at(readings, start) matches Err(fault) ==> (fault
            matches SpeakingFault::InvalidFloat { index } && start <= index < start + 7
            && unread_at(readings, index as int)),
{
    lemma_refused_number(readings, start);
    lemma_refused_number(readings, start + 1);
    lemma_refused_number(readings, start + 2);
    lemma_refused_number(readings, start + 3);
    lemma_refused_vector(readings, start + 4);
}

/// What a refused decision says of itself.
pub open spec fn decision_fault_is_right(
    message: MessageView,
    readings: Seq<Option<u32>>,
    fault: SpeakingFault,
) -> bool {
    let letter = message.parameters[0];
    match fault {
        SpeakingFault::WrongArity { actual, .. } => actual == message.parameters.len() as usize,
        SpeakingFault::InvalidUnsigned { index } => index == 3 && letter == "r"@
            && decimal::unsigned_value(message.parameters[3], usize::MAX as nat) is None,
        SpeakingFault::UnsupportedSpeakingKind(named) => named == letter && letter != "m"@
            && letter != "d"@ && letter != "i"@ && letter != "z"@ && letter != "r"@ && letter
            != "s"@ && letter != "g"@,
        SpeakingFault::InvalidFloat { index } => 3 <= index < message.parameters.len()
            && unread_at(readings, index as int),
        SpeakingFault::RadioPathCountTooLarge => letter == "r"@ && (decimal::unsigned_value(
            message.parameters[3],
            usize::MAX as nat,
        ) matches Some(count) && count > 64),
        _ => false,
    }
}

proof fn lemma_refused_decisions(message: MessageView, readings: Seq<Option<u32>>)
    requires
        message.parameters.len() >= 3,
    ensures
        speaking::carried_decision(message, readings) matches Err(fault)
            ==> decision_fault_is_right(message, readings, fault),
{
    lemma_letters_differ();
    lemma_refused_number(readings, 3);
    lemma_refused_vector(readings, 4);
    lemma_refused_vector(readings, 7);
    if message.parameters.len() >= 4 && message.parameters[0] == "r"@ {
        match decimal::unsigned_value(message.parameters[3], usize::MAX as nat) {
            Some(count) => {
                if count <= 64 && message.parameters.len() == 4 + count * 7 {
                    lemma_refused_paths(readings, count);
                }
            },
            None => {},
        }
    }
}

/// A refusal says what is wrong: it names the procedure, the letter or the
/// parameter that cannot be read, and what was to be read in front of it could
/// be.
pub proof fn law_refused_updates_name_their_fault(message: MessageView, readings: Seq<Option<u32>>)
    requires
        carried_update(message, readings) is Err,
    ensures
        ({
            let fault = carried_update(message, readings)->Err_0;
            let id = decimal::unsigned_value(message.parameters[1], 0xffff_ffff);
            if message.procedure != "updateSpeakingData"@ {
                fault == SpeakingFault::UnexpectedProcedure(message.procedure)
            } else if message.parameters.len() < 3 {
                fault matches SpeakingFault::WrongArity { actual, .. } && actual
                    == message.parameters.len()
            } else if id is None {
                fault == (SpeakingFault::InvalidUnsigned { index: 1 })
            } else if message.parameters[2] != "0"@ && message.parameters[2] != "1"@ {
                fault == (SpeakingFault::InvalidBinaryFlag { index: 2 })
            } else {
                decision_fault_is_right(message, readings, fault)
            }
        }),
{
    if message.parameters.len() >= 3 {
        lemma_refused_decisions(message, readings);
    }
}

/// Whether parameter `index` is not a number.
pub open spec fn unread_at(readings: Seq<Option<u32>>, index: int) -> bool {
    index >= readings.len() || readings[index] is None || !has_value(readings[index]->0)
}

proof fn lemma_refused_paths(readings: Seq<Option<u32>>, count: nat)
    requires
        count <= 64,
    ensures
        speaking::paths_at(readings, count) matches Err(fault) ==> (fault
            matches SpeakingFault::InvalidFloat { index } && 4 <= index < 4 + count * 7
            && unread_at(readings, index as int)),
    decreases count,
{
    if count > 0 {
        lemma_refused_paths(readings, (count - 1) as nat);
        lemma_refused_path(readings, 4 + (count - 1) * 7);
    }
}

/// ACRE's numbers for the voice curves.
pub proof fn law_curves_are_numbered_as_acre_numbers_them(value: int)
    ensures
        speaking::curve_model_numbered(0) == Some(speaking::AcreVoiceCurveModel::Original),
        speaking::curve_model_numbered(1) == Some(speaking::AcreVoiceCurveModel::Amplitude),
        speaking::curve_model_numbered(2) == Some(speaking::AcreVoiceCurveModel::SelectableA),
        speaking::curve_model_numbered(3) == Some(speaking::AcreVoiceCurveModel::SelectableB),
        speaking::curve_model_numbered(value) is Some <==> 0 <= value <= 3,
{
}

} // verus!
