//! The bounded text format of ACRE's private RPC pipe.

use crate::decimal::{push_decimal, push_hexadecimal};
use crate::text::{ascii_string, copy_strings};
use crate::{decimal, model, text};
use vstd::prelude::*;
use vstd::slice::slice_subrange;
use vstd::utf8::encode_utf8;

verus! {

/// The longest message on a pipe, with the NUL byte where a producer writes
/// one.
pub const ACRE_MAX_MESSAGE_BYTES: usize = 4096;

/// The most parameters that one message carries.
pub const ACRE_MAX_PARAMETER_COUNT: usize = 1024;

/// What is wrong with a message.
#[derive(Clone, Copy, Debug, PartialEq, Eq, Structural)]
pub enum AcreCodecError {
    EmptyMessage,
    MessageTooLong { length: usize, limit: usize },
    NonAscii { offset: usize, byte: u8 },
    DataAfterNul,
    MissingDelimiter,
    ProcedureTooShort,
    InvalidProcedure,
    TooManyParameters { count: usize, limit: usize },
    InvalidParameter { index: usize, byte: u8 },
}

impl View for AcreCodecError {
    type V = AcreCodecError;

    open spec fn view(&self) -> AcreCodecError {
        *self
    }
}

impl AcreCodecError {
    /// The error in words.
    pub open spec fn words(self) -> Seq<char> {
        match self {
            AcreCodecError::EmptyMessage => "ACRE RPC message is empty"@,
            AcreCodecError::MessageTooLong { length, limit } => "ACRE RPC message is "@
                + decimal::decimal(length as nat) + " bytes; limit is "@ + decimal::decimal(
                limit as nat,
            ),
            AcreCodecError::NonAscii { offset, byte } => "ACRE RPC message contains non-ASCII byte "@
                + decimal::hexadecimal(byte as nat) + " at offset "@ + decimal::decimal(
                offset as nat,
            ),
            AcreCodecError::DataAfterNul =>
                "ACRE RPC message has non-NUL bytes after its terminator"@,
            AcreCodecError::MissingDelimiter => "ACRE RPC message has no procedure delimiter"@,
            AcreCodecError::ProcedureTooShort =>
                "ACRE RPC procedure must contain at least two characters"@,
            AcreCodecError::InvalidProcedure =>
                "ACRE RPC procedure contains unsupported characters"@,
            AcreCodecError::TooManyParameters { count, limit } => "ACRE RPC message has "@
                + decimal::decimal(count as nat) + " parameters; limit is "@ + decimal::decimal(
                limit as nat,
            ),
            AcreCodecError::InvalidParameter { index, byte } => "ACRE RPC parameter "@
                + decimal::decimal(index as nat) + " contains unsupported byte "@
                + decimal::hexadecimal(byte as nat),
        }
    }

    /// Puts the error into words.
    pub fn to_string(&self) -> (words: String)
        ensures
            words@ == self.words(),
    {
        match *self {
            AcreCodecError::EmptyMessage => "ACRE RPC message is empty".to_owned(),
            AcreCodecError::MessageTooLong { length, limit } => {
                let mut words: String = "ACRE RPC message is ".to_owned();
                push_decimal(&mut words, length as u64);
                words.append(" bytes; limit is ");
                push_decimal(&mut words, limit as u64);
                words
            },
            AcreCodecError::NonAscii { offset, byte } => {
                let mut words: String = "ACRE RPC message contains non-ASCII byte ".to_owned();
                push_hexadecimal(&mut words, byte);
                words.append(" at offset ");
                push_decimal(&mut words, offset as u64);
                words
            },
            AcreCodecError::DataAfterNul =>
                "ACRE RPC message has non-NUL bytes after its terminator".to_owned(),
            AcreCodecError::MissingDelimiter =>
                "ACRE RPC message has no procedure delimiter".to_owned(),
            AcreCodecError::ProcedureTooShort =>
                "ACRE RPC procedure must contain at least two characters".to_owned(),
            AcreCodecError::InvalidProcedure =>
                "ACRE RPC procedure contains unsupported characters".to_owned(),
            AcreCodecError::TooManyParameters { count, limit } => {
                let mut words: String = "ACRE RPC message has ".to_owned();
                push_decimal(&mut words, count as u64);
                words.append(" parameters; limit is ");
                push_decimal(&mut words, limit as u64);
                words
            },
            AcreCodecError::InvalidParameter { index, byte } => {
                let mut words: String = "ACRE RPC parameter ".to_owned();
                push_decimal(&mut words, index as u64);
                words.append(" contains unsupported byte ");
                push_hexadecimal(&mut words, byte);
                words
            },
        }
    }
}

/// One RPC message, `procedure:param1,param2,`. There is no escaping, so no
/// parameter holds a comma.
#[derive(Debug, PartialEq, Eq)]
pub struct AcreMessage {
    procedure: String,
    parameters: Vec<String>,
    trailing_comma: bool,
}

/// What a message says.
#[verifier::ext_equal]
pub struct MessageView {
    pub procedure: Seq<char>,
    pub parameters: Seq<Seq<char>>,
    pub trailing_comma: bool,
}

/// The kinds of byte that the format tells apart.
#[derive(Clone, Copy)]
enum ByteClass {
    Nul,
    NotNul,
    NonAscii,
    Colon,
    NotProcedure,
    NotParameter,
}

/// Letters, digits and the underscore make up a procedure's name.
pub open spec fn is_procedure_byte(byte: u8) -> bool {
    48 <= byte <= 57 || 65 <= byte <= 90 || 97 <= byte <= 122 || byte == 95
}

/// Printable ASCII except the comma makes up a parameter.
pub open spec fn is_parameter_byte(byte: u8) -> bool {
    32 <= byte <= 126 && byte != 44
}

pub open spec fn nul() -> spec_fn(u8) -> bool {
    |byte: u8| byte == 0
}

pub open spec fn not_nul() -> spec_fn(u8) -> bool {
    |byte: u8| byte != 0
}

pub open spec fn non_ascii() -> spec_fn(u8) -> bool {
    |byte: u8| byte >= 128
}

pub open spec fn colon() -> spec_fn(u8) -> bool {
    |byte: u8| byte == 58
}

pub open spec fn not_procedure() -> spec_fn(u8) -> bool {
    |byte: u8| !is_procedure_byte(byte)
}

pub open spec fn not_parameter() -> spec_fn(u8) -> bool {
    |byte: u8| !is_parameter_byte(byte)
}

/// What is wrong with a procedure's name, given as bytes.
pub open spec fn procedure_fault(name: Seq<u8>) -> Option<AcreCodecError> {
    if name.len() < 2 {
        Some(AcreCodecError::ProcedureTooShort)
    } else if text::first_where(name, not_procedure()) is Some {
        Some(AcreCodecError::InvalidProcedure)
    } else {
        None
    }
}

/// The first parameter that holds an unfit byte, with the first such byte.
pub open spec fn first_unfit(parameters: Seq<Seq<char>>) -> Option<(int, u8)>
    decreases parameters.len(),
{
    if parameters.len() == 0 {
        None
    } else {
        match first_unfit(parameters.drop_last()) {
            Some(found) => Some(found),
            None => {
                let bytes = encode_utf8(parameters.last());
                match text::first_where(bytes, not_parameter()) {
                    Some(at) => Some((parameters.len() - 1, bytes[at])),
                    None => None,
                }
            },
        }
    }
}

/// What is wrong with a list of parameters.
pub open spec fn parameters_fault(parameters: Seq<Seq<char>>) -> Option<AcreCodecError> {
    if parameters.len() > ACRE_MAX_PARAMETER_COUNT {
        Some(
            AcreCodecError::TooManyParameters {
                count: parameters.len() as usize,
                limit: ACRE_MAX_PARAMETER_COUNT,
            },
        )
    } else {
        match first_unfit(parameters) {
            Some((index, byte)) => Some(
                AcreCodecError::InvalidParameter { index: index as usize, byte },
            ),
            None => None,
        }
    }
}

/// The combined length of a list of texts.
pub open spec fn total_len(pieces: Seq<Seq<char>>) -> nat
    decreases pieces.len(),
{
    if pieces.len() == 0 {
        0
    } else {
        total_len(pieces.drop_last()) + pieces.last().len()
    }
}

impl MessageView {
    /// The message as it stands on the pipe, without a NUL byte.
    pub open spec fn text(self) -> Seq<char> {
        let listed = self.procedure.push(':') + text::join(self.parameters, ',');
        if self.trailing_comma {
            listed.push(',')
        } else {
            listed
        }
    }

    /// Whether the format can carry the message.
    pub open spec fn valid(self) -> bool {
        &&& procedure_fault(encode_utf8(self.procedure)) is None
        &&& parameters_fault(self.parameters) is None
        &&& self.text().len() <= ACRE_MAX_MESSAGE_BYTES
    }

    /// Whether the message is the one that its text is read as. A final empty
    /// parameter cannot be told from a trailing comma, and a single empty
    /// parameter not from none.
    pub open spec fn canonical(self) -> bool {
        self.parameters.len() > 0 ==> if self.trailing_comma {
            self.parameters.len() > 1 || self.parameters[0].len() > 0
        } else {
            self.parameters.last().len() > 0
        }
    }
}

/// The message built from its parts, or what is wrong with them.
pub open spec fn built(
    procedure: Seq<char>,
    parameters: Seq<Seq<char>>,
    trailing_comma: bool,
) -> Result<MessageView, AcreCodecError> {
    let message = MessageView { procedure, parameters, trailing_comma };
    match (procedure_fault(encode_utf8(procedure)), parameters_fault(parameters)) {
        (Some(error), _) => Err(error),
        (None, Some(error)) => Err(error),
        (None, None) => {
            let length = message.text().len() + 1;
            if length > ACRE_MAX_MESSAGE_BYTES {
                Err(
                    AcreCodecError::MessageTooLong {
                        length: if length <= usize::MAX {
                            length as usize
                        } else {
                            usize::MAX
                        },
                        limit: ACRE_MAX_MESSAGE_BYTES,
                    },
                )
            } else {
                Ok(message)
            }
        },
    }
}

/// The bytes in front of the first NUL.
pub open spec fn before_nul(wire: Seq<u8>) -> Seq<u8> {
    match text::first_where(wire, nul()) {
        Some(at) => wire.take(at),
        None => wire,
    }
}

/// Whether anything but NUL follows the first NUL.
pub open spec fn data_after_nul(wire: Seq<u8>) -> bool {
    match text::first_where(wire, nul()) {
        Some(at) => exists|i: int| at < i < wire.len() && #[trigger] wire[i] != 0,
        None => false,
    }
}

/// The parameters listed behind the colon, and whether a comma ends the list.
pub open spec fn listed(raw: Seq<char>) -> (Seq<Seq<char>>, bool) {
    let trailing_comma = raw.len() > 0 && raw.last() == ',';
    let kept = if trailing_comma {
        raw.drop_last()
    } else {
        raw
    };
    (
        if kept.len() == 0 {
            Seq::<Seq<char>>::empty()
        } else {
            text::split(kept, ',')
        },
        trailing_comma,
    )
}

/// The message that the ASCII bytes `body` write down, or what is wrong with
/// them.
pub open spec fn parsed_body(body: Seq<u8>) -> Result<MessageView, AcreCodecError> {
    match text::first_where(body, colon()) {
        None => Err(AcreCodecError::MissingDelimiter),
        Some(at) => match procedure_fault(body.take(at)) {
            Some(error) => Err(error),
            None => {
                let (parameters, trailing_comma) = listed(text::ascii_chars(body.skip(at + 1)));
                match parameters_fault(parameters) {
                    Some(error) => Err(error),
                    None => Ok(
                        MessageView {
                            procedure: text::ascii_chars(body.take(at)),
                            parameters,
                            trailing_comma,
                        },
                    ),
                }
            },
        },
    }
}

/// The message that the bytes of one pipe message write down, or what is wrong
/// with them.
pub open spec fn parsed(wire: Seq<u8>) -> Result<MessageView, AcreCodecError> {
    let body = before_nul(wire);
    if wire.len() == 0 {
        Err(AcreCodecError::EmptyMessage)
    } else if wire.len() > ACRE_MAX_MESSAGE_BYTES {
        Err(
            AcreCodecError::MessageTooLong {
                length: wire.len() as usize,
                limit: ACRE_MAX_MESSAGE_BYTES,
            },
        )
    } else if data_after_nul(wire) {
        Err(AcreCodecError::DataAfterNul)
    } else if body.len() == 0 {
        Err(AcreCodecError::EmptyMessage)
    } else {
        match text::first_where(body, non_ascii()) {
            Some(offset) => Err(
                AcreCodecError::NonAscii { offset: offset as usize, byte: body[offset] },
            ),
            None => parsed_body(body),
        }
    }
}

spec fn in_class(class: ByteClass) -> spec_fn(u8) -> bool {
    match class {
        ByteClass::Nul => nul(),
        ByteClass::NotNul => not_nul(),
        ByteClass::NonAscii => non_ascii(),
        ByteClass::Colon => colon(),
        ByteClass::NotProcedure => not_procedure(),
        ByteClass::NotParameter => not_parameter(),
    }
}

/// Where the first byte of the class stands.
fn find(bytes: &[u8], class: ByteClass) -> (found: Option<usize>)
    ensures
        match found {
            Some(at) => at < bytes@.len() && text::first_where(bytes@, in_class(class)) == Some(
                at as int,
            ),
            None => text::first_where(bytes@, in_class(class)) is None,
        },
{
    let mut i: usize = 0;
    while i < bytes.len()
        invariant
            i <= bytes@.len(),
            text::first_where(bytes@.take(i as int), in_class(class)) is None,
        decreases bytes@.len() - i,
    {
        let byte: u8 = bytes[i];
        assert(bytes@.take(i + 1).drop_last() =~= bytes@.take(i as int));
        assert(bytes@.take(i + 1).last() == byte);
        let wanted: bool = match class {
            ByteClass::Nul => byte == 0,
            ByteClass::NotNul => byte != 0,
            ByteClass::NonAscii => byte >= 128,
            ByteClass::Colon => byte == 58,
            ByteClass::NotProcedure => !(48 <= byte && byte <= 57 || 65 <= byte && byte <= 90
                || 97 <= byte && byte <= 122 || byte == 95),
            ByteClass::NotParameter => !(32 <= byte && byte <= 126 && byte != 44),
        };
        assert(wanted == in_class(class)(byte));
        if wanted {
            proof {
                text::lemma_first_where_prefix(bytes@, in_class(class), i + 1);
            }
            return Some(i);
        }
        i += 1;
    }
    assert(bytes@.take(i as int) =~= bytes@);
    None
}

fn validate_procedure(name: &[u8]) -> (verdict: Result<(), AcreCodecError>)
    ensures
        match verdict {
            Ok(_) => procedure_fault(name@) is None,
            Err(error) => procedure_fault(name@) == Some(error),
        },
{
    if name.len() < 2 {
        return Err(AcreCodecError::ProcedureTooShort);
    }
    match find(name, ByteClass::NotProcedure) {
        Some(_) => Err(AcreCodecError::InvalidProcedure),
        None => Ok(()),
    }
}

fn validate_parameters(parameters: &Vec<String>) -> (verdict: Result<(), AcreCodecError>)
    ensures
        match verdict {
            Ok(_) => parameters_fault(text::texts(parameters@)) is None,
            Err(error) => parameters_fault(text::texts(parameters@)) == Some(error),
        },
{
    let ghost all = text::texts(parameters@);
    if parameters.len() > ACRE_MAX_PARAMETER_COUNT {
        return Err(
            AcreCodecError::TooManyParameters {
                count: parameters.len(),
                limit: ACRE_MAX_PARAMETER_COUNT,
            },
        );
    }
    let mut i: usize = 0;
    while i < parameters.len()
        invariant
            i <= parameters@.len() <= ACRE_MAX_PARAMETER_COUNT,
            all == text::texts(parameters@),
            first_unfit(all.take(i as int)) is None,
        decreases parameters@.len() - i,
    {
        let bytes: &[u8] = parameters[i].as_str().as_bytes();
        assert(all.take(i + 1).drop_last() =~= all.take(i as int));
        assert(all.take(i + 1).last() == parameters@[i as int]@);
        match find(bytes, ByteClass::NotParameter) {
            Some(at) => {
                proof {
                    lemma_first_unfit_prefix(all, i + 1);
                }
                return Err(AcreCodecError::InvalidParameter { index: i, byte: bytes[at] });
            },
            None => {},
        }
        i += 1;
    }
    assert(all.take(i as int) =~= all);
    Ok(())
}

/// More parameters do not change which one is the first unfit one.
proof fn lemma_first_unfit_prefix(parameters: Seq<Seq<char>>, end: int)
    requires
        0 <= end <= parameters.len(),
        first_unfit(parameters.take(end)) is Some,
    ensures
        first_unfit(parameters) == first_unfit(parameters.take(end)),
    decreases parameters.len() - end,
{
    if end < parameters.len() {
        assert(parameters.take(end + 1).drop_last() =~= parameters.take(end));
        lemma_first_unfit_prefix(parameters, end + 1);
    } else {
        assert(parameters.take(end) =~= parameters);
    }
}

/// Every parameter of a list without an unfit one is made of parameter bytes.
pub proof fn lemma_fit_parameters(parameters: Seq<Seq<char>>, index: int)
    requires
        first_unfit(parameters) is None,
        0 <= index < parameters.len(),
    ensures
        vstd::utf8::is_ascii_chars(parameters[index]),
        parameters[index].len() == encode_utf8(parameters[index]).len(),
        forall|i: int|
            0 <= i < parameters[index].len() ==> is_parameter_byte(
                #[trigger] parameters[index][i] as u8,
            ) && (parameters[index][i] as u32) < 128,
        !parameters[index].contains(','),
    decreases parameters.len(),
{
    if index < parameters.len() - 1 {
        assert(parameters.drop_last()[index] == parameters[index]);
        lemma_fit_parameters(parameters.drop_last(), index);
    } else {
        let last = parameters.last();
        let bytes = encode_utf8(last);
        text::lemma_first_where(bytes, not_parameter());
        assert forall|i: int| 0 <= i < bytes.len() implies #[trigger] bytes[i] < 128 by {
            assert(!not_parameter()(bytes[i]));
        }
        text::lemma_ascii_bytes(last);
        assert forall|i: int| 0 <= i < last.len() implies is_parameter_byte(
            #[trigger] last[i] as u8,
        ) && (last[i] as u32) < 128 by {
            assert(!not_parameter()(bytes[i]));
            assert(last[i] == bytes[i] as char);
        }
        assert(!last.contains(',')) by {
            if last.contains(',') {
                let at = choose|k: int| 0 <= k < last.len() && last[k] == ',';
                assert(is_parameter_byte(last[at] as u8));
            }
        }
    }
}

/// A joined list is as long as its pieces and the separators between them.
pub proof fn lemma_join_len(pieces: Seq<Seq<char>>, separator: char)
    ensures
        text::join(pieces, separator).len() == total_len(pieces) + if pieces.len() == 0 {
            0
        } else {
            pieces.len() - 1
        },
    decreases pieces.len(),
{
    if pieces.len() == 1 {
        assert(pieces.drop_last() =~= Seq::<Seq<char>>::empty());
        assert(total_len(Seq::<Seq<char>>::empty()) == 0);
    } else if pieces.len() > 1 {
        lemma_join_len(pieces.drop_last(), separator);
    }
}

proof fn lemma_total_len_grows(pieces: Seq<Seq<char>>, end: int)
    requires
        0 <= end <= pieces.len(),
    ensures
        total_len(pieces.take(end)) <= total_len(pieces),
    decreases pieces.len() - end,
{
    if end < pieces.len() {
        assert(pieces.take(end + 1).drop_last() =~= pieces.take(end));
        lemma_total_len_grows(pieces, end + 1);
    } else {
        assert(pieces.take(end) =~= pieces);
    }
}

/// The length of the message's text; `usize::MAX` stands for anything longer.
fn text_len(procedure: &String, parameters: &Vec<String>, trailing_comma: bool) -> (length: usize)
    requires
        procedure_fault(encode_utf8(procedure@)) is None,
        parameters_fault(text::texts(parameters@)) is None,
    ensures
        ({
            let exact = MessageView {
                procedure: procedure@,
                parameters: text::texts(parameters@),
                trailing_comma,
            }.text().len();
            length == if exact <= usize::MAX {
                exact as usize
            } else {
                usize::MAX
            }
        }),
{
    let ghost all = text::texts(parameters@);
    let mut total: usize = 0;
    let mut i: usize = 0;
    while i < parameters.len()
        invariant
            i <= parameters@.len(),
            all == text::texts(parameters@),
            first_unfit(all) is None,
            total == if total_len(all.take(i as int)) <= usize::MAX {
                total_len(all.take(i as int)) as usize
            } else {
                usize::MAX
            },
        decreases parameters@.len() - i,
    {
        proof {
            lemma_fit_parameters(all, i as int);
            assert(all[i as int] == parameters@[i as int]@);
            assert(all.take(i + 1).drop_last() =~= all.take(i as int));
        }
        let bytes: &[u8] = parameters[i].as_str().as_bytes();
        total = total.saturating_add(bytes.len());
        i += 1;
    }
    proof {
        assert(all.take(i as int) =~= all);
        lemma_join_len(all, ',');
        lemma_procedure_is_ascii(procedure@);
    }
    let separators: usize = if parameters.len() > 0 {
        parameters.len() - 1
    } else {
        0
    };
    let last: usize = if trailing_comma {
        1
    } else {
        0
    };
    let name: &[u8] = procedure.as_str().as_bytes();
    name.len().saturating_add(1).saturating_add(total).saturating_add(separators).saturating_add(
        last,
    )
}

/// A valid procedure name is ASCII and has no colon in it.
pub proof fn lemma_procedure_is_ascii(procedure: Seq<char>)
    requires
        procedure_fault(encode_utf8(procedure)) is None,
    ensures
        vstd::utf8::is_ascii_chars(procedure),
        procedure.len() == encode_utf8(procedure).len(),
        procedure == text::ascii_chars(encode_utf8(procedure)),
        procedure.len() >= 2,
        forall|i: int|
            0 <= i < encode_utf8(procedure).len() ==> is_procedure_byte(
                #[trigger] encode_utf8(procedure)[i],
            ),
{
    let bytes = encode_utf8(procedure);
    text::lemma_first_where(bytes, not_procedure());
    assert forall|i: int| 0 <= i < bytes.len() implies is_procedure_byte(#[trigger] bytes[i]) by {
        assert(!not_procedure()(bytes[i]));
    }
    text::lemma_ascii_bytes(procedure);
}

/// A list of parameters read from text, and whether a comma ended it.
struct Listed {
    parameters: Vec<String>,
    trailing_comma: bool,
}

/// Reads the parameters listed behind the colon.
fn read_listed(raw: &[u8]) -> (found: Listed)
    requires
        forall|i: int| 0 <= i < raw@.len() ==> #[trigger] raw@[i] < 128,
        raw@.len() < usize::MAX,
    ensures
        (text::texts(found.parameters@), found.trailing_comma) == listed(
            text::ascii_chars(raw@),
        ),
{
    let ghost chars = text::ascii_chars(raw@);
    let trailing_comma: bool = raw.len() > 0 && raw[raw.len() - 1] == 44;
    let end: usize = if trailing_comma {
        raw.len() - 1
    } else {
        raw.len()
    };
    let ghost kept = chars.take(end as int);
    proof {
        if trailing_comma {
            assert(kept =~= chars.drop_last());
        } else {
            assert(kept =~= chars);
        }
    }
    let mut parameters: Vec<String> = Vec::new();
    if end == 0 {
        assert(text::texts(parameters@) =~= Seq::<Seq<char>>::empty());
        return Listed { parameters, trailing_comma };
    }
    let mut current = String::new();
    let mut i: usize = 0;
    while i < end
        invariant
            i <= end <= raw@.len(),
            chars == text::ascii_chars(raw@),
            kept == chars.take(end as int),
            text::texts(parameters@).push(current@) == text::split(kept.take(i as int), ','),
        decreases end - i,
    {
        let byte: u8 = raw[i];
        let ghost shorter = text::texts(parameters@);
        assert(kept.take(i + 1).drop_last() =~= kept.take(i as int));
        assert(kept.take(i + 1).last() == byte as char);
        assert(shorter.push(current@).drop_last() =~= shorter);
        if byte == 44 {
            let ghost grown = current@;
            parameters.push(current);
            current = String::new();
            assert(text::texts(parameters@) =~= shorter.push(grown));
        } else {
            current.push(byte as char);
        }
        i += 1;
        assert(text::texts(parameters@).push(current@) =~= text::split(kept.take(i as int), ','));
    }
    assert(kept.take(i as int) =~= kept);
    let ghost shorter = text::texts(parameters@);
    let ghost last = current@;
    parameters.push(current);
    assert(text::texts(parameters@) =~= shorter.push(last));
    Listed { parameters, trailing_comma }
}

impl View for AcreMessage {
    type V = MessageView;

    closed spec fn view(&self) -> MessageView {
        MessageView {
            procedure: self.procedure@,
            parameters: text::texts(self.parameters@),
            trailing_comma: self.trailing_comma,
        }
    }
}

impl Clone for AcreMessage {
    fn clone(&self) -> (copy: Self)
        ensures
            copy@ == self@,
    {
        proof {
            use_type_invariant(self);
        }
        AcreMessage {
            procedure: self.procedure.clone(),
            parameters: copy_strings(&self.parameters),
            trailing_comma: self.trailing_comma,
        }
    }
}

impl AcreMessage {
    /// Every message is one that the format can carry.
    #[verifier::type_invariant]
    pub closed spec fn inv(self) -> bool {
        self@.valid()
    }

    /// Creates a message without a trailing comma.
    pub fn new(procedure: &str, parameters: Vec<String>) -> (built_message: Result<
        Self,
        AcreCodecError,
    >)
        ensures
            model::outcome(built_message) == built(procedure@, text::texts(parameters@), false),
    {
        Self::with_trailing_comma(procedure, parameters, false)
    }

    /// Creates a message with control of the comma that may end its list.
    pub fn with_trailing_comma(
        procedure: &str,
        parameters: Vec<String>,
        trailing_comma: bool,
    ) -> (built_message: Result<Self, AcreCodecError>)
        ensures
            model::outcome(built_message) == built(
                procedure@,
                text::texts(parameters@),
                trailing_comma,
            ),
    {
        let procedure: String = procedure.to_owned();
        match validate_procedure(procedure.as_str().as_bytes()) {
            Ok(_) => {},
            Err(error) => {
                return Err(error);
            },
        }
        match validate_parameters(&parameters) {
            Ok(_) => {},
            Err(error) => {
                return Err(error);
            },
        }
        let length: usize = text_len(&procedure, &parameters, trailing_comma).saturating_add(1);
        if length > ACRE_MAX_MESSAGE_BYTES {
            return Err(
                AcreCodecError::MessageTooLong { length, limit: ACRE_MAX_MESSAGE_BYTES },
            );
        }
        Ok(AcreMessage { procedure, parameters, trailing_comma })
    }

    /// Parses a message received from either pipe direction. A NUL may end the
    /// message; anything but further NULs behind it is refused, so that no
    /// frame is partially interpreted.
    pub fn parse(wire: &[u8]) -> (read: Result<Self, AcreCodecError>)
        ensures
            model::outcome(read) == parsed(wire@),
    {
        if wire.len() == 0 {
            return Err(AcreCodecError::EmptyMessage);
        }
        if wire.len() > ACRE_MAX_MESSAGE_BYTES {
            return Err(
                AcreCodecError::MessageTooLong {
                    length: wire.len(),
                    limit: ACRE_MAX_MESSAGE_BYTES,
                },
            );
        }
        let end: usize = match find(wire, ByteClass::Nul) {
            Some(at) => {
                let rest: &[u8] = slice_subrange(wire, at + 1, wire.len());
                proof {
                    text::lemma_first_where(rest@, not_nul());
                }
                match find(rest, ByteClass::NotNul) {
                    Some(further) => {
                        assert(not_nul()(rest@[further as int]));
                        assert(wire@[at + 1 + further] != 0);
                        return Err(AcreCodecError::DataAfterNul);
                    },
                    None => {
                        assert forall|i: int| at < i < wire@.len() implies #[trigger] wire@[i]
                            == 0 by {
                            assert(!not_nul()(rest@[i - at - 1]));
                        }
                    },
                }
                at
            },
            None => wire.len(),
        };
        let body: &[u8] = slice_subrange(wire, 0, end);
        assert(body@ =~= before_nul(wire@));
        if body.len() == 0 {
            return Err(AcreCodecError::EmptyMessage);
        }
        match find(body, ByteClass::NonAscii) {
            Some(offset) => {
                return Err(AcreCodecError::NonAscii { offset, byte: body[offset] });
            },
            None => {},
        }
        proof {
            text::lemma_first_where(body@, non_ascii());
            assert forall|i: int| 0 <= i < body@.len() implies #[trigger] body@[i] < 128 by {
                assert(!non_ascii()(body@[i]));
            }
        }
        let at: usize = match find(body, ByteClass::Colon) {
            Some(at) => at,
            None => {
                return Err(AcreCodecError::MissingDelimiter);
            },
        };
        let name: &[u8] = slice_subrange(body, 0, at);
        assert(name@ =~= body@.take(at as int));
        match validate_procedure(name) {
            Ok(_) => {},
            Err(error) => {
                return Err(error);
            },
        }
        let raw: &[u8] = slice_subrange(body, at + 1, body.len());
        assert(raw@ =~= body@.skip(at + 1));
        assert forall|i: int| 0 <= i < raw@.len() implies #[trigger] raw@[i] < 128 by {
            assert(body@[i + at + 1] < 128);
        }
        let found: Listed = read_listed(raw);
        match validate_parameters(&found.parameters) {
            Ok(_) => {},
            Err(error) => {
                return Err(error);
            },
        }
        let procedure: String = ascii_string(body, 0, at);
        proof {
            text::lemma_first_where(body@, colon());
            assert(body@.subrange(0, at as int) =~= name@);
            text::lemma_ascii_round_trip(name@);
            lemma_parsed_text(body@);
        }
        Ok(
            AcreMessage {
                procedure,
                parameters: found.parameters,
                trailing_comma: found.trailing_comma,
            },
        )
    }

    /// The procedure's name.
    pub fn procedure(&self) -> (name: &str)
        ensures
            name@ == self@.procedure,
    {
        self.procedure.as_str()
    }

    /// The parameters in order.
    pub fn parameters(&self) -> (parameters: &[String])
        ensures
            text::texts(parameters@) == self@.parameters,
    {
        self.parameters.as_slice()
    }

    /// Whether a comma ends the list of parameters.
    pub fn trailing_comma(&self) -> (trailing: bool)
        ensures
            trailing == self@.trailing_comma,
    {
        self.trailing_comma
    }

    /// The message as it stands on the pipe, without a NUL byte.
    pub fn encode_text(&self) -> (encoded: String)
        ensures
            encoded@ == self@.text(),
            self@.valid(),
    {
        proof {
            use_type_invariant(self);
        }
        let mut encoded: String = self.procedure.clone();
        encoded.push(':');
        let ghost head = encoded@;
        let ghost all = text::texts(self.parameters@);
        let mut i: usize = 0;
        while i < self.parameters.len()
            invariant
                i <= self.parameters@.len(),
                all == text::texts(self.parameters@),
                encoded@ == head + text::join(all.take(i as int), ','),
            decreases self.parameters@.len() - i,
        {
            assert(all.take(i + 1).drop_last() =~= all.take(i as int));
            assert(all.take(i + 1).last() == self.parameters@[i as int]@);
            if i > 0 {
                encoded.push(',');
            } else {
                assert(text::join(all.take(0), ',') =~= Seq::<char>::empty());
            }
            encoded.append(self.parameters[i].as_str());
            i += 1;
            assert(encoded@ =~= head + text::join(all.take(i as int), ','));
        }
        assert(all.take(i as int) =~= all);
        if self.trailing_comma {
            encoded.push(',');
        }
        encoded
    }

    /// The message's bytes with the NUL terminator that ACRE's stock voice
    /// plugin writes.
    pub fn encode_nul_terminated(&self) -> (bytes: Vec<u8>)
        ensures
            bytes@ == encode_utf8(self@.text()).push(0),
    {
        let encoded: String = self.encode_text();
        let mut bytes: Vec<u8> = encoded.as_str().as_bytes_vec();
        bytes.push(0);
        bytes
    }

    /// How long the message's text is.
    pub fn encoded_len_without_nul(&self) -> (length: usize)
        ensures
            length == self@.text().len(),
            length <= ACRE_MAX_MESSAGE_BYTES,
    {
        proof {
            use_type_invariant(self);
        }
        text_len(&self.procedure, &self.parameters, self.trailing_comma)
    }
}

/// The parameters and the trailing comma read from a list write the same list.
proof fn lemma_listed_text(raw: Seq<char>)
    ensures
        ({
            let (parameters, trailing_comma) = listed(raw);
            raw == if trailing_comma {
                text::join(parameters, ',').push(',')
            } else {
                text::join(parameters, ',')
            }
        }),
{
    let trailing_comma = raw.len() > 0 && raw.last() == ',';
    let kept = if trailing_comma {
        raw.drop_last()
    } else {
        raw
    };
    text::lemma_join_of_split(kept, ',');
    if kept.len() == 0 {
        assert(text::join(Seq::<Seq<char>>::empty(), ',') =~= kept);
    }
    if trailing_comma {
        assert(kept.push(',') =~= raw);
    }
}

/// What was read from ASCII bytes writes the same bytes.
proof fn lemma_parsed_text(body: Seq<u8>)
    requires
        forall|i: int| 0 <= i < body.len() ==> #[trigger] body[i] < 128,
        parsed_body(body) is Ok,
    ensures
        parsed_body(body)->Ok_0.text() == text::ascii_chars(body),
        procedure_fault(encode_utf8(parsed_body(body)->Ok_0.procedure)) is None,
{
    text::lemma_first_where(body, colon());
    let at = text::first_where(body, colon())->0;
    assert(colon()(body[at]));
    let raw = text::ascii_chars(body.skip(at + 1));
    lemma_listed_text(raw);
    let name = body.take(at);
    text::lemma_ascii_round_trip(name);
    assert(parsed_body(body)->Ok_0.text() =~= text::ascii_chars(name).push(':') + raw);
    assert(text::ascii_chars(name).push(':') + raw =~= text::ascii_chars(body));
}

/// What was read from the pipe writes back exactly the text in front of the
/// terminator, and is a message that the format can carry.
pub proof fn law_encoding_a_parsed_message_restores_its_text(wire: Seq<u8>)
    requires
        parsed(wire) is Ok,
    ensures
        encode_utf8(parsed(wire)->Ok_0.text()) == before_nul(wire),
        parsed(wire)->Ok_0.valid(),
{
    let body = before_nul(wire);
    text::lemma_first_where(wire, nul());
    text::lemma_first_where(body, non_ascii());
    assert forall|i: int| 0 <= i < body.len() implies #[trigger] body[i] < 128 by {
        assert(!non_ascii()(body[i]));
    }
    lemma_parsed_text(body);
    text::lemma_ascii_round_trip(body);
}

/// A canonical message survives the pipe: its text, without a terminator or
/// with one, is read as the same message.
pub proof fn law_parsing_an_encoded_message_restores_it(message: MessageView)
    requires
        message.valid(),
        message.canonical(),
    ensures
        parsed(encode_utf8(message.text())) == Ok::<MessageView, AcreCodecError>(message),
        message.text().len() < ACRE_MAX_MESSAGE_BYTES ==> parsed(
            encode_utf8(message.text()).push(0),
        ) == Ok::<MessageView, AcreCodecError>(message),
{
    let body = encode_utf8(message.text());
    lemma_text_is_ascii(message);
    lemma_body_of_encoded(message);
    text::lemma_first_where(body, nul());
    text::lemma_first_where(body, non_ascii());
    assert(text::first_where(body, nul()) is None) by {
        if text::first_where(body, nul()) is Some {
            let at = text::first_where(body, nul())->0;
            assert(nul()(body[at]));
            assert(body[at] != 0);
        }
    }
    assert(text::first_where(body, non_ascii()) is None) by {
        if text::first_where(body, non_ascii()) is Some {
            let at = text::first_where(body, non_ascii())->0;
            assert(non_ascii()(body[at]));
        }
    }
    let closed = body.push(0);
    assert(closed.drop_last() =~= body);
    assert(text::first_where(closed, nul()) == Some(body.len() as int)) by {
        assert(nul()(closed.last()));
    }
    assert(before_nul(closed) =~= body);
    lemma_procedure_is_ascii(message.procedure);
}

/// A valid message's text is ASCII without control characters.
proof fn lemma_text_is_ascii(message: MessageView)
    requires
        message.valid(),
    ensures
        vstd::utf8::is_ascii_chars(message.text()),
        encode_utf8(message.text()).len() == message.text().len(),
        text::ascii_chars(encode_utf8(message.text())) == message.text(),
        forall|i: int|
            0 <= i < encode_utf8(message.text()).len() ==> 32 <= #[trigger] encode_utf8(
                message.text(),
            )[i] < 127,
{
    lemma_procedure_is_ascii(message.procedure);
    lemma_join_is_ascii(message.parameters);
    let name = message.procedure;
    let bytes = encode_utf8(name);
    let line = message.text();
    let list = text::join(message.parameters, ',');
    assert forall|i: int| 0 <= i < line.len() implies ' ' <= #[trigger] line[i] <= '~' by {
        if i < name.len() {
            assert(is_procedure_byte(bytes[i]));
            assert(name[i] == bytes[i] as char);
        } else if i == name.len() {
        } else if i < name.len() + 1 + list.len() {
            assert(line[i] == list[i - name.len() - 1]);
        }
    }
    assert forall|i| 0 <= i < line.len() implies '\0' <= #[trigger] line[i] <= '\u{7f}' by {
        assert(' ' <= line[i] <= '~');
    }
    vstd::utf8::is_ascii_chars_encode_utf8(line);
    assert forall|i: int| 0 <= i < encode_utf8(line).len() implies 32 <= #[trigger] encode_utf8(
        line,
    )[i] < 127 by {
        assert(' ' <= line[i] <= '~');
        assert(line[i] as u8 == encode_utf8(line)[i]);
    }
    text::lemma_ascii_bytes(line);
}

proof fn lemma_join_is_ascii(parameters: Seq<Seq<char>>)
    requires
        first_unfit(parameters) is None,
    ensures
        forall|i: int|
            0 <= i < text::join(parameters, ',').len() ==> ' ' <= #[trigger] text::join(
                parameters,
                ',',
            )[i] <= '~',
    decreases parameters.len(),
{
    if parameters.len() > 0 {
        lemma_fit_parameters(parameters, parameters.len() - 1);
        let last = parameters.last();
        assert forall|i: int| 0 <= i < last.len() implies ' ' <= #[trigger] last[i] <= '~' by {
            assert(is_parameter_byte(last[i] as u8));
        }
        if parameters.len() > 1 {
            lemma_join_is_ascii(parameters.drop_last());
            let head = text::join(parameters.drop_last(), ',');
            let all = text::join(parameters, ',');
            assert(all == head.push(',') + last);
            assert forall|i: int| 0 <= i < all.len() implies ' ' <= #[trigger] all[i] <= '~' by {
                if i < head.len() {
                    assert(all[i] == head[i]);
                } else if i > head.len() {
                    assert(all[i] == last[i - head.len() - 1]);
                }
            }
        }
    }
}

/// The text of a canonical message is read as the message.
proof fn lemma_body_of_encoded(message: MessageView)
    requires
        message.valid(),
        message.canonical(),
    ensures
        parsed_body(encode_utf8(message.text())) == Ok::<MessageView, AcreCodecError>(message),
{
    let line = message.text();
    let body = encode_utf8(line);
    lemma_text_is_ascii(message);
    lemma_procedure_is_ascii(message.procedure);
    let name = message.procedure;
    let bytes = encode_utf8(name);
    let at = name.len() as int;
    assert forall|i: int| 0 <= i < at implies #[trigger] body[i] == bytes[i] by {
        assert(text::ascii_chars(body)[i] == line[i]);
        assert(line[i] == name[i]);
        assert(name[i] == text::ascii_chars(bytes)[i]);
    }
    assert(body[at] == 58) by {
        assert(text::ascii_chars(body)[at] == line[at]);
        assert(line[at] == ':');
    }
    text::lemma_first_where(body, colon());
    assert(text::first_where(body, colon()) == Some(at)) by {
        assert(colon()(body[at]));
        let found = text::first_where(body, colon());
        assert(found is Some);
        if found->0 < at {
            assert(is_procedure_byte(bytes[found->0]));
            assert(colon()(body[found->0]));
        }
    }
    assert(body.take(at) =~= bytes);
    let raw = text::ascii_chars(body.skip(at + 1));
    assert(raw =~= line.skip(at + 1)) by {
        assert(text::ascii_chars(body) == line);
        assert forall|i: int| 0 <= i < raw.len() implies raw[i] == line.skip(at + 1)[i] by {
            assert(text::ascii_chars(body)[i + at + 1] == line[i + at + 1]);
        }
    }
    let parameters = message.parameters;
    let list = text::join(parameters, ',');
    if message.trailing_comma {
        assert(raw =~= list.push(','));
        assert(raw.drop_last() =~= list);
    } else {
        assert(raw =~= list);
    }
    assert forall|i: int| 0 <= i < parameters.len() implies !(#[trigger] parameters[i]).contains(
        ',',
    ) by {
        lemma_fit_parameters(parameters, i);
    }
    lemma_join_len(parameters, ',');
    if parameters.len() > 0 {
        text::lemma_split_of_join(parameters, ',');
        let last = parameters.last();
        if !message.trailing_comma {
            assert(list.last() == last.last()) by {
                if parameters.len() > 1 {
                    assert(list == text::join(parameters.drop_last(), ',').push(',') + last);
                }
            }
            assert(last[last.len() - 1] != ',') by {
                assert(!parameters[parameters.len() - 1].contains(','));
            }
        }
        if parameters.len() == 1 {
            assert(list == parameters[0]);
        }
    } else {
        assert(list =~= Seq::<char>::empty());
        assert(parameters =~= Seq::<Seq<char>>::empty());
    }
    assert(listed(raw) == (parameters, message.trailing_comma));
    assert(text::ascii_chars(body.take(at)) =~= name);
}

} // verus!
