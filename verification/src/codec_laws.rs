//! Which messages the pipe carries, and how they are written on it.

use crate::codec::{self, before_nul, built, parsed, AcreCodecError, MessageView};
use crate::text;
use vstd::prelude::*;
use vstd::utf8::encode_utf8;

verus! {

/// Whether the name has at least two letters, digits or underscores, and
/// nothing else.
pub open spec fn is_name(name: Seq<u8>) -> bool {
    &&& name.len() >= 2
    &&& forall|i: int| 0 <= i < name.len() ==> {
        let byte = #[trigger] name[i] as char;
        '0' <= byte <= '9' || 'A' <= byte <= 'Z' || 'a' <= byte <= 'z' || byte == '_'
    }
}

/// Whether the text is printable ASCII without a comma.
pub open spec fn is_printable(parameter: Seq<char>) -> bool {
    let bytes = encode_utf8(parameter);
    forall|i: int| 0 <= i < bytes.len() ==> {
        let byte = #[trigger] bytes[i] as char;
        ' ' <= byte <= '~' && byte != ','
    }
}

/// Whether every parameter is printable ASCII without a comma.
pub open spec fn all_printable(parameters: Seq<Seq<char>>) -> bool {
    forall|i: int| 0 <= i < parameters.len() ==> is_printable(#[trigger] parameters[i])
}

proof fn lemma_name(name: Seq<u8>)
    ensures
        codec::procedure_fault(name) is None <==> is_name(name),
{
    text::lemma_first_where(name, codec::not_procedure());
    if text::first_where(name, codec::not_procedure()) is None {
        assert forall|i: int| 0 <= i < name.len() implies {
            let byte = #[trigger] name[i] as char;
            '0' <= byte <= '9' || 'A' <= byte <= 'Z' || 'a' <= byte <= 'z' || byte == '_'
        } by {
            assert(!codec::not_procedure()(name[i]));
        }
    } else {
        let at = text::first_where(name, codec::not_procedure())->0;
        assert(codec::not_procedure()(name[at]));
        assert(!codec::is_procedure_byte(name[at]));
    }
}

proof fn lemma_printable(parameter: Seq<char>)
    ensures
        text::first_where(encode_utf8(parameter), codec::not_parameter()) is None <==> is_printable(
            parameter,
        ),
{
    let bytes = encode_utf8(parameter);
    text::lemma_first_where(bytes, codec::not_parameter());
    if text::first_where(bytes, codec::not_parameter()) is None {
        assert forall|i: int| 0 <= i < bytes.len() implies {
            let byte = #[trigger] bytes[i] as char;
            ' ' <= byte <= '~' && byte != ','
        } by {
            assert(!codec::not_parameter()(bytes[i]));
        }
    } else {
        let at = text::first_where(bytes, codec::not_parameter())->0;
        assert(codec::not_parameter()(bytes[at]));
        assert(!codec::is_parameter_byte(bytes[at]));
    }
}

proof fn lemma_all_printable(parameters: Seq<Seq<char>>)
    ensures
        codec::first_unfit(parameters) is None <==> all_printable(parameters),
        codec::first_unfit(parameters) matches Some((index, byte)) ==> {
            &&& 0 <= index < parameters.len()
            &&& !is_printable(parameters[index])
            &&& forall|i: int| 0 <= i < index ==> is_printable(#[trigger] parameters[i])
        },
    decreases parameters.len(),
{
    if parameters.len() > 0 {
        let head = parameters.drop_last();
        lemma_all_printable(head);
        lemma_printable(parameters.last());
        assert(forall|i: int| 0 <= i < head.len() ==> #[trigger] head[i] == parameters[i]);
        assert(parameters[parameters.len() - 1] == parameters.last());
        if all_printable(parameters) {
            assert forall|i: int| 0 <= i < head.len() implies is_printable(#[trigger] head[i]) by {
                assert(is_printable(parameters[i]));
            }
        }
        if codec::first_unfit(head) is None && is_printable(parameters.last()) {
            assert forall|i: int| 0 <= i < parameters.len() implies is_printable(
                #[trigger] parameters[i],
            ) by {
                if i < head.len() {
                    assert(is_printable(head[i]));
                }
            }
        }
        if codec::first_unfit(parameters) is Some {
            let (index, byte) = codec::first_unfit(parameters)->0;
            assert forall|i: int| 0 <= i < index implies is_printable(
                #[trigger] parameters[i],
            ) by {
                assert(is_printable(head[i]));
            }
        }
    }
}

/// A message is built exactly if its name is one, it has at most 1024
/// parameters, all of them printable, and its text fits into 4096 bytes with a
/// NUL behind it. It is then made of the given parts.
pub proof fn law_messages_are_built_from_fit_parts(
    procedure: Seq<char>,
    parameters: Seq<Seq<char>>,
    trailing_comma: bool,
)
    ensures
        ({
            let message = MessageView { procedure, parameters, trailing_comma };
            &&& built(procedure, parameters, trailing_comma) is Ok <==> {
                &&& is_name(encode_utf8(procedure))
                &&& parameters.len() <= 1024
                &&& all_printable(parameters)
                &&& message.text().len() < 4096
            }
            &&& built(procedure, parameters, trailing_comma) matches Ok(made) ==> made == message
        }),
{
    lemma_name(encode_utf8(procedure));
    lemma_all_printable(parameters);
}

/// A message that cannot be built is refused for the first thing that is wrong
/// with it: its name, the number of its parameters, the first one that is not
/// printable, or its length.
pub proof fn law_unfit_messages_name_their_fault(
    procedure: Seq<char>,
    parameters: Seq<Seq<char>>,
    trailing_comma: bool,
)
    requires
        built(procedure, parameters, trailing_comma) is Err,
        parameters.len() <= usize::MAX,
    ensures
        match built(procedure, parameters, trailing_comma)->Err_0 {
            AcreCodecError::ProcedureTooShort => encode_utf8(procedure).len() < 2,
            AcreCodecError::InvalidProcedure => encode_utf8(procedure).len() >= 2 && !is_name(
                encode_utf8(procedure),
            ),
            AcreCodecError::TooManyParameters { count, limit } => count == parameters.len() && limit
                == 1024 && count > limit,
            AcreCodecError::InvalidParameter { index, .. } => index < parameters.len()
                && !is_printable(parameters[index as int]) && forall|i: int|
                0 <= i < index ==> is_printable(#[trigger] parameters[i]),
            AcreCodecError::MessageTooLong { limit, .. } => limit == 4096,
            _ => false,
        },
{
    lemma_name(encode_utf8(procedure));
    lemma_all_printable(parameters);
}

/// A message is written as its name, a colon, and its parameters with a comma
/// between each two of them, and behind the last one where it has one there.
pub proof fn law_messages_are_written_with_colon_and_commas(
    message: MessageView,
    last: Seq<char>,
)
    ensures
        ({
            let text = message.text();
            let name = message.procedure.len() as int;
            &&& text.len() > name
            &&& text.take(name) == message.procedure
            &&& text[name] == ':'
            &&& message.trailing_comma ==> text.last() == ','
            &&& message.parameters.len() == 0 && !message.trailing_comma ==> text.len() == name + 1
        }),
        ({
            let longer = MessageView {
                parameters: message.parameters.push(last),
                trailing_comma: false,
                ..message
            };
            let before = MessageView { trailing_comma: message.parameters.len() > 0, ..message };
            longer.text() == before.text() + last
        }),
{
    let name = message.procedure.len() as int;
    assert(message.text().take(name) =~= message.procedure);
    let longer = message.parameters.push(last);
    assert(longer.drop_last() =~= message.parameters);
    let before = MessageView { trailing_comma: message.parameters.len() > 0, ..message };
    let after = MessageView { parameters: longer, trailing_comma: false, ..message };
    if message.parameters.len() == 0 {
        assert(longer[0] == last);
        assert(after.text() =~= before.text() + last);
    } else {
        assert(after.text() =~= before.text() + last);
    }
}

/// What is read has between 1 and 4096 bytes, nothing but NUL behind its first
/// NUL, and in front of it a name, a colon and printable ASCII.
pub proof fn law_only_plain_messages_are_read(wire: Seq<u8>)
    requires
        parsed(wire) is Ok,
    ensures
        1 <= wire.len() <= 4096,
        before_nul(wire).len() > 0,
        forall|i: int| 0 <= i < before_nul(wire).len() ==> 0 < #[trigger] before_nul(wire)[i] < 128,
        forall|i: int| before_nul(wire).len() <= i < wire.len() ==> #[trigger] wire[i] == 0,
        is_name(encode_utf8(parsed(wire)->Ok_0.procedure)),
        parsed(wire)->Ok_0.parameters.len() <= 1024,
        all_printable(parsed(wire)->Ok_0.parameters),
{
    let body = before_nul(wire);
    codec::law_encoding_a_parsed_message_restores_its_text(wire);
    text::lemma_first_where(wire, codec::nul());
    text::lemma_first_where(body, codec::non_ascii());
    lemma_name(encode_utf8(parsed(wire)->Ok_0.procedure));
    lemma_all_printable(parsed(wire)->Ok_0.parameters);
    assert forall|i: int| 0 <= i < body.len() implies 0 < #[trigger] body[i] < 128 by {
        assert(!codec::non_ascii()(body[i]));
        assert(body[i] == wire[i]);
        assert(!codec::nul()(wire[i]));
    }
    assert forall|i: int| body.len() <= i < wire.len() implies #[trigger] wire[i] == 0 by {
        let at = text::first_where(wire, codec::nul())->0;
        assert(codec::nul()(wire[at]));
    }
}

/// Bytes that are no message are refused for what is wrong with them: there are
/// none, or too many of them, something follows the first NUL, nothing precedes
/// it, or they are not ASCII.
pub proof fn law_unreadable_bytes_name_their_fault(wire: Seq<u8>)
    ensures
        wire.len() == 0 ==> parsed(wire) == Err::<MessageView, AcreCodecError>(
            AcreCodecError::EmptyMessage,
        ),
        wire.len() > 4096 && wire.len() <= usize::MAX ==> parsed(wire) == Err::<
            MessageView,
            AcreCodecError,
        >(AcreCodecError::MessageTooLong { length: wire.len() as usize, limit: 4096 }),
        0 < wire.len() <= 4096 && wire[0] == 0 && (forall|i: int|
            0 <= i < wire.len() ==> #[trigger] wire[i] == 0) ==> parsed(wire) == Err::<
            MessageView,
            AcreCodecError,
        >(AcreCodecError::EmptyMessage),
        parsed(wire) matches Err(AcreCodecError::NonAscii { offset, byte }) ==> offset
            < wire.len() && wire[offset as int] == byte && byte >= 128,
        parsed(wire) matches Err(AcreCodecError::DataAfterNul) ==> exists|i: int, j: int|
            0 <= i < j < wire.len() && #[trigger] wire[i] == 0 && #[trigger] wire[j] != 0,
        parsed(wire) matches Err(AcreCodecError::MissingDelimiter) ==> forall|i: int|
            0 <= i < before_nul(wire).len() ==> #[trigger] before_nul(wire)[i] as char != ':',
{
    let body = before_nul(wire);
    text::lemma_first_where(wire, codec::nul());
    text::lemma_first_where(body, codec::non_ascii());
    text::lemma_first_where(body, codec::colon());
    if text::first_where(wire, codec::nul()) is Some {
        let at = text::first_where(wire, codec::nul())->0;
        assert(codec::nul()(wire[at]));
        if wire[0] == 0 {
            assert(codec::nul()(wire[0]));
            assert(at == 0) by {
                if at > 0 {
                    assert(!codec::nul()(wire[0]));
                }
            }
        }
        if codec::data_after_nul(wire) {
            let j = choose|j: int| at < j < wire.len() && #[trigger] wire[j] != 0;
            assert(wire[at] == 0 && wire[j] != 0);
        }
    } else if wire.len() > 0 {
        assert(!codec::nul()(wire[0]));
    }
    if text::first_where(body, codec::non_ascii()) is Some {
        let at = text::first_where(body, codec::non_ascii())->0;
        assert(codec::non_ascii()(body[at]));
        assert(body[at] == wire[at]);
    }
    if text::first_where(body, codec::colon()) is None {
        assert forall|i: int| 0 <= i < body.len() implies #[trigger] body[i] as char != ':' by {
            assert(!codec::colon()(body[i]));
        }
    }
}

} // verus!
