//! Executing a statement: Bind, Execute and Sync go out, and the rows, the
//! command tag and the status of the connection come back.

use crate::error::Error;
use crate::message::BackendMessage;
use crate::prepare::read_descriptions;
use crate::prepare::types_of;
use crate::prepare::columns_of;
use crate::prepare::described;
use crate::prepare::fields_of;
use crate::statement::Statement;
use crate::statement::StatementView;
use crate::types::Format;
use crate::wire::bind_frame;
use crate::wire::buffer_bytes;
use crate::wire::command_tag_text;
use crate::wire::converted_view;
use crate::wire::cstr;
use crate::wire::value_bytes;
use crate::wire::describe_frame;
use crate::wire::discard;
use crate::wire::execute_frame;
use crate::wire::frozen_bytes;
use crate::wire::param_formats;
use crate::wire::param_values;
use crate::wire::parameter_oids;
use crate::wire::parse_frame;
use crate::wire::put_bind;
use crate::wire::put_parse;
use crate::wire::read_ranges;
use crate::wire::row_ranges;
use crate::wire::sync_frame;
use crate::wire::take;
use crate::wire::put_describe;
use crate::wire::put_execute;
use crate::wire::put_sync;
use crate::wire::read_tag;
use crate::wire::BindFailure;
use crate::wire::Param;
use crate::wire::STATEMENT;
use bytes::Bytes;
use bytes::BytesMut;
use postgres_protocol::message::backend::CommandCompleteBody;
use postgres_protocol::message::backend::DataRowBody;
use postgres_protocol::message::backend::ParameterDescriptionBody;
use postgres_protocol::message::backend::RowDescriptionBody;
use vstd::prelude::*;
use vstd::string::StrSliceExecFns;
use vstd::string::StringExecFns;
use vstd::utf8::encode_utf8;

verus! {

/// The byte of a space.
pub const SPACE: u8 = 0x20;

/// The byte of a plus sign.
pub const PLUS: u8 = 0x2b;

/// The byte of the digit zero.
pub const ZERO: u8 = 0x30;

/// The byte of the digit nine.
pub const NINE: u8 = 0x39;

/// Where the last word of a command tag starts: behind its last space, or at
/// the front where it has none.
pub open spec fn last_word_start(tag: Seq<u8>) -> int
    decreases tag.len(),
{
    if tag.len() == 0 || tag.last() == SPACE {
        tag.len() as int
    } else {
        last_word_start(tag.drop_last())
    }
}

/// The last word of a command tag: what follows its last space.
pub open spec fn last_word(tag: Seq<u8>) -> Seq<u8> {
    tag.subrange(last_word_start(tag), tag.len() as int)
}

/// The value of a decimal digit.
pub open spec fn digit_value(byte: u8) -> nat {
    if ZERO <= byte <= NINE {
        (byte - ZERO) as nat
    } else {
        0
    }
}

/// The value of a run of decimal digits, the most significant first.
pub open spec fn digits_value(digits: Seq<u8>) -> nat
    decreases digits.len(),
{
    if digits.len() == 0 {
        0
    } else {
        digits_value(digits.drop_last()) * 10 + digit_value(digits.last())
    }
}

/// Whether every byte is a decimal digit.
pub open spec fn all_digits(digits: Seq<u8>) -> bool {
    forall|i: int| 0 <= i < digits.len() ==> ZERO <= #[trigger] digits[i] <= NINE
}

/// A word without the plus sign that may lead it.
pub open spec fn unsigned(word: Seq<u8>) -> Seq<u8> {
    if word.len() > 0 && word[0] == PLUS {
        word.drop_first()
    } else {
        word
    }
}

/// The count that a word spells: decimal digits, at least one, behind at
/// most one plus sign, with a value that 64 bits can hold.
pub open spec fn parsed_count(word: Seq<u8>) -> Option<u64> {
    let digits = unsigned(word);
    if digits.len() > 0 && all_digits(digits) && digits_value(digits) <= u64::MAX {
        Some(digits_value(digits) as u64)
    } else {
        None
    }
}

/// The number of rows that a command tag reports: the count that its last
/// word spells, or zero where that word spells none.
pub open spec fn tag_rows(tag: Seq<u8>) -> u64 {
    match parsed_count(last_word(tag)) {
        Some(rows) => rows,
        None => 0,
    }
}

/// The last word of a tag starts within the tag, holds no space, and stands
/// at the front or behind a space.
pub proof fn lemma_last_word_start(tag: Seq<u8>)
    ensures
        0 <= last_word_start(tag) <= tag.len(),
        forall|i: int| last_word_start(tag) <= i < tag.len() ==> tag[i] != SPACE,
        last_word_start(tag) == 0 || tag[last_word_start(tag) - 1] == SPACE,
    decreases tag.len(),
{
    if tag.len() != 0 && tag.last() != SPACE {
        let front = tag.drop_last();
        lemma_last_word_start(front);
        assert forall|i: int| last_word_start(tag) <= i < tag.len() implies tag[i] != SPACE by {
            if i < front.len() {
                assert(tag[i] == front[i]);
            }
        }
        if last_word_start(tag) != 0 {
            assert(tag[last_word_start(tag) - 1] == front[last_word_start(front) - 1]);
        }
    }
}

/// More digits never spell less.
pub proof fn lemma_digits_value_grows(digits: Seq<u8>, shorter: int)
    requires
        0 <= shorter <= digits.len(),
    ensures
        digits_value(digits.subrange(0, shorter)) <= digits_value(digits),
    decreases digits.len(),
{
    if shorter == digits.len() {
        assert(digits.subrange(0, shorter) == digits);
    } else {
        lemma_digits_value_grows(digits.drop_last(), shorter);
        assert(digits.drop_last().subrange(0, shorter) == digits.subrange(0, shorter));
    }
}

/// Reads the number of rows that a command tag reports, such as 3 in
/// `UPDATE 3`. A tag without a count reports none.
pub fn rows_in_tag(tag: &[u8]) -> (rows: u64)
    ensures
        rows == tag_rows(tag@),
{
    let len: usize = tag.len();
    let mut start: usize = len;
    assert(tag@.subrange(0, len as int) == tag@);
    while start > 0 && tag[start - 1] != SPACE
        invariant
            start <= len,
            len == tag@.len(),
            last_word_start(tag@) == last_word_start(tag@.subrange(0, start as int)),
        decreases start,
    {
        assert(tag@.subrange(0, start as int).drop_last() == tag@.subrange(0, start - 1));
        start -= 1;
    }
    assert(last_word_start(tag@) == start);
    let ghost word = last_word(tag@);
    let mut i: usize = start;
    if i < len && tag[i] == PLUS {
        i += 1;
    }
    let first: usize = i;
    let ghost digits = tag@.subrange(first as int, len as int);
    assert(digits == unsigned(word));
    if first == len {
        return 0;
    }
    let mut value: u64 = 0;
    while i < len
        invariant
            first <= i <= len,
            len == tag@.len(),
            digits == tag@.subrange(first as int, len as int),
            digits == unsigned(last_word(tag@)),
            all_digits(digits.subrange(0, i - first)),
            value == digits_value(digits.subrange(0, i - first)),
        decreases len - i,
    {
        let byte: u8 = tag[i];
        assert(byte == digits[i - first]);
        if byte < ZERO || byte > NINE {
            return 0;
        }
        let digit: u64 = (byte - ZERO) as u64;
        proof {
            let longer = digits.subrange(0, i - first + 1);
            assert(longer.drop_last() == digits.subrange(0, i - first));
            assert(longer.last() == byte);
            assert(digits_value(longer) == value * 10 + digit);
            lemma_digits_value_grows(digits, i - first + 1);
        }
        if value > (u64::MAX - digit) / 10 {
            return 0;
        }
        value = value * 10 + digit;
        i += 1;
    }
    assert(digits.subrange(0, i - first) == digits);
    value
}

/// Extracts the number of rows affected from the body of a CommandComplete
/// message. A tag that is not text is a parse error; a tag without a count
/// is none.
pub fn extract_row_affected(body: &CommandCompleteBody) -> (r: Result<u64, Error>)
    ensures
        r == match command_tag_text(*body) {
            Some(text) => Ok::<u64, Error>(tag_rows(encode_utf8(text))),
            None => Err::<u64, Error>(Error::Parse),
        },
{
    match read_tag(&body) {
        Ok(tag) => Ok(rows_in_tag(tag.as_bytes())),
        Err(_) => Err(Error::Parse),
    }
}

/// Whether the codec gives up at a parameter: its conversion failed, or its
/// value is longer than a signed 32-bit number can say.
pub open spec fn stops_bind(param: Param) -> bool {
    match param.value {
        Err(_) => true,
        Ok(Some(bytes)) => bytes@.len() > i32::MAX,
        Ok(None) => false,
    }
}

/// Whether `index` is the position of the first parameter at which the codec
/// gives up.
pub open spec fn is_first_stop(params: Seq<Param>, index: int) -> bool {
    &&& 0 <= index < params.len()
    &&& stops_bind(params[index])
    &&& forall|j: int| 0 <= j < index ==> !stops_bind(#[trigger] params[j])
}

/// The parameter that a conversion error blames: the one at which the codec
/// gave up, where it gave up because the conversion of that parameter had
/// failed. `None` where the codec gave up on the values for another reason:
/// a value too long, or too many values.
pub open spec fn failed_conversion(params: Seq<Param>) -> Option<int> {
    if exists|index: int| is_first_stop(params, index) {
        let index = choose|index: int| is_first_stop(params, index);
        if params[index].value is Err {
            Some(index)
        } else {
            None
        }
    } else {
        None
    }
}

/// The error that goes with the reason for which a Bind frame was not built.
/// Where the codec gave up on the values, it is a conversion error only if a
/// conversion had failed, and it names the position of that parameter; a
/// value that was converted but cannot be framed, like any other part of the
/// frame that cannot be written, is an encoding error and blames no
/// parameter.
pub open spec fn bind_error_of(failure: BindFailure, params: Seq<Param>) -> Error {
    match failure {
        BindFailure::Conversion => match failed_conversion(params) {
            Some(index) => Error::ToSql(index as usize),
            None => Error::Encode,
        },
        BindFailure::Serialization => Error::Encode,
    }
}

/// The largest length of a value that a Bind frame can say.
pub const MAX_VALUE_LEN: usize = 0x7fff_ffff;

/// Finds the parameter that a conversion error blames.
fn first_failure(params: &Vec<Param>) -> (found: Option<usize>)
    ensures
        match failed_conversion(params@) {
            Some(index) => found == Some(index as usize) && index < params@.len(),
            None => found is None,
        },
{
    let mut i: usize = 0;
    while i < params.len()
        invariant
            i <= params.len(),
            forall|j: int| 0 <= j < i ==> !stops_bind(#[trigger] params@[j]),
        decreases params.len() - i,
    {
        let stopped: Option<bool> = match &params[i].value {
            Err(_) => Some(true),
            Ok(Some(bytes)) => if bytes.len() > MAX_VALUE_LEN {
                Some(false)
            } else {
                None
            },
            Ok(None) => None,
        };
        match stopped {
            Some(failed) => {
                assert(is_first_stop(params@, i as int));
                let ghost chosen = choose|index: int| is_first_stop(params@, index);
                assert(chosen == i) by {
                    if chosen < i {
                        assert(!stops_bind(params@[chosen]));
                    } else if i < chosen {
                        assert(!stops_bind(params@[i as int]));
                    }
                }
                return if failed {
                    Some(i)
                } else {
                    None
                };
            },
            None => {},
        }
        i += 1;
    }
    assert(forall|index: int| !is_first_stop(params@, index));
    None
}

/// The error that goes with the reason for which a Bind frame was not built.
pub fn bind_error(failure: BindFailure, params: &Vec<Param>) -> (e: Error)
    ensures
        e == bind_error_of(failure, params@),
{
    match failure {
        BindFailure::Conversion => match first_failure(params) {
            Some(index) => Error::ToSql(index),
            None => Error::Encode,
        },
        BindFailure::Serialization => Error::Encode,
    }
}

/// Checks that as many parameters are given as the statement declares. The
/// error names both numbers.
pub fn check_parameter_count(statement: &Statement, given: usize) -> (r: Result<(), Error>)
    ensures
        r == if given == statement@.params().len() {
            Ok::<(), Error>(())
        } else {
            Err::<(), Error>(
                Error::Parameters { given, expected: statement@.params().len() as usize },
            )
        },
{
    let expected: usize = statement.params().len();
    if given != expected {
        return Err(Error::Parameters { given, expected });
    }
    Ok(())
}

/// The codec takes the values of a Bind frame exactly where it gives up at
/// none of the parameters.
pub proof fn lemma_values_are_written(params: Seq<Param>)
    ensures
        value_bytes(param_values(params)) is Some <==> forall|i: int|
            0 <= i < params.len() ==> !stops_bind(#[trigger] params[i]),
    decreases params.len(),
{
    let values = param_values(params);
    if params.len() > 0 {
        let rest = params.drop_first();
        assert(param_values(rest) =~= values.drop_first());
        lemma_values_are_written(rest);
        assert(values[0] == converted_view(params[0].value));
        if value_bytes(values) is Some {
            assert forall|i: int| 0 <= i < params.len() implies !stops_bind(
                #[trigger] params[i],
            ) by {
                if i > 0 {
                    assert(params[i] == rest[i - 1]);
                }
            }
        }
        if forall|i: int| 0 <= i < params.len() ==> !stops_bind(#[trigger] params[i]) {
            assert(!stops_bind(params[0]));
            assert forall|i: int| 0 <= i < rest.len() implies !stops_bind(#[trigger] rest[i]) by {
                assert(rest[i] == params[i + 1]);
            }
        }
    }
}

/// A conversion error names a parameter whose conversion failed, and before
/// which the codec had nothing to give up on.
pub proof fn lemma_conversion_error_names_a_failed_parameter(
    statement: StatementView,
    params: Seq<Param>,
    portal: Seq<char>,
    index: usize,
)
    requires
        bind_outcome(statement, params, portal) == Err::<Seq<u8>, Error>(Error::ToSql(index)),
    ensures
        is_first_stop(params, index as int),
        params[index as int].value is Err,
{
}

/// Where the conversion of a parameter failed, and the codec has nothing to
/// give up on before it comes to that parameter, the error reports the
/// position of that parameter.
pub proof fn lemma_failed_conversion_is_reported(
    statement: StatementView,
    params: Seq<Param>,
    portal: Seq<char>,
    index: int,
)
    requires
        params.len() == statement.params().len(),
        cstr(portal) is Some,
        cstr(statement.name()) is Some,
        params.len() <= u16::MAX,
        is_first_stop(params, index),
        params[index].value is Err,
    ensures
        bind_outcome(statement, params, portal) == Err::<Seq<u8>, Error>(
            Error::ToSql(index as usize),
        ),
{
    lemma_values_are_written(params);
    let chosen = choose|i: int| is_first_stop(params, i);
    assert(chosen == index) by {
        if chosen < index {
            assert(!stops_bind(params[chosen]));
        } else if index < chosen {
            assert(!stops_bind(params[index]));
        }
    }
}

/// Where every parameter was converted and the Bind frame still cannot be
/// built, the error is an encoding error, whatever part of the frame the
/// codec gave up on: no parameter is blamed for a failure of framing.
pub proof fn lemma_framing_failure_is_an_encoding_error(
    statement: StatementView,
    params: Seq<Param>,
    portal: Seq<char>,
)
    requires
        params.len() == statement.params().len(),
        forall|i: int| 0 <= i < params.len() ==> (#[trigger] params[i]).value is Ok,
        bind_outcome(statement, params, portal) is Err,
    ensures
        bind_outcome(statement, params, portal) == Err::<Seq<u8>, Error>(Error::Encode),
{
    if exists|index: int| is_first_stop(params, index) {
        let index = choose|index: int| is_first_stop(params, index);
        assert(params[index].value is Ok);
    }
}

/// What binding parameters to a statement comes to: the Bind frame, with
/// each parameter in its own format and the results in binary, or the error.
/// A number of parameters other than the statement declares is an error
/// before anything else is looked at.
pub open spec fn bind_outcome(statement: StatementView, params: Seq<Param>, portal: Seq<char>) -> Result<
    Seq<u8>,
    Error,
> {
    if params.len() != statement.params().len() {
        Err(
            Error::Parameters {
                given: params.len() as usize,
                expected: statement.params().len() as usize,
            },
        )
    } else {
        match bind_frame(
            portal,
            statement.name(),
            param_formats(params),
            param_values(params),
            Format::Binary.spec_code(),
        ) {
            Ok(frame) => Ok(frame),
            Err(failure) => Err(bind_error_of(failure, params)),
        }
    }
}

/// Appends to the buffer the Bind frame that binds the parameters to the
/// statement in a portal. Where the number of parameters is not the number
/// that the statement declares, the buffer is not touched; after another
/// error it may hold part of a frame.
pub fn encode_bind(statement: &Statement, params: &Vec<Param>, portal: &str, buf: &mut BytesMut) -> (r:
    Result<(), Error>)
    ensures
        match bind_outcome(statement@, params@, portal@) {
            Ok(frame) => r is Ok && buffer_bytes(*final(buf)) == buffer_bytes(*old(buf)) + frame,
            Err(e) => r == Err::<(), Error>(e) && (e is Parameters ==> buffer_bytes(*final(buf))
                == buffer_bytes(*old(buf))),
        },
{
    match check_parameter_count(statement, params.len()) {
        Ok(()) => {},
        Err(e) => {
            return Err(e);
        },
    }
    let mut formats: Vec<i16> = Vec::new();
    let mut i: usize = 0;
    while i < params.len()
        invariant
            i <= params.len(),
            formats@ == param_formats(params@.subrange(0, i as int)),
        decreases params.len() - i,
    {
        formats.push(params[i].format.code());
        i += 1;
        assert(formats@ =~= param_formats(params@.subrange(0, i as int)));
    }
    assert(params@.subrange(0, i as int) =~= params@);
    match put_bind(portal, statement.name(), &formats, params, Format::Binary.code(), buf) {
        Ok(()) => Ok(()),
        Err(failure) => Err(bind_error(failure, params)),
    }
}

/// The request that executes a statement with parameters: Bind to the
/// unnamed portal, Execute without a row limit, and Sync; or the error.
pub open spec fn execute_request(statement: StatementView, params: Seq<Param>) -> Result<
    Seq<u8>,
    Error,
> {
    match bind_outcome(statement, params, Seq::empty()) {
        Ok(bind) => match execute_frame(Seq::empty(), 0) {
            Some(execute) => Ok(bind + execute + sync_frame()),
            None => Err(Error::Encode),
        },
        Err(e) => Err(e),
    }
}

/// Builds the request that executes a statement with parameters, behind
/// whatever the buffer already holds. The buffer is left empty.
pub fn encode(statement: &Statement, params: &Vec<Param>, buf: &mut BytesMut) -> (r: Result<
    Bytes,
    Error,
>)
    ensures
        buffer_bytes(*final(buf)) == Seq::<u8>::empty(),
        match execute_request(statement@, params@) {
            Ok(frames) => r is Ok && frozen_bytes(r->Ok_0) == buffer_bytes(*old(buf)) + frames,
            Err(e) => r == Err::<Bytes, Error>(e),
        },
{
    proof {
        reveal_strlit("");
    }
    assert(""@ =~= Seq::<char>::empty());
    match encode_bind(statement, params, "", buf) {
        Ok(()) => {},
        Err(e) => {
            discard(buf);
            return Err(e);
        },
    }
    match put_execute("", 0, buf) {
        Ok(()) => {},
        Err(_) => {
            discard(buf);
            return Err(Error::Encode);
        },
    }
    put_sync(buf);
    Ok(take(buf))
}

/// The parameters of a text query as they are bound: each in text format,
/// its text copied byte for byte, an absent one as NULL.
pub open spec fn text_values(params: Seq<Option<String>>) -> Seq<
    Result<Option<Seq<u8>>, Seq<char>>,
> {
    Seq::new(
        params.len(),
        |i: int|
            match params[i] {
                Some(text) => Ok(Some(encode_utf8(text@))),
                None => Ok(None),
            },
    )
}

/// The request that runs a query text in one round trip: Parse without a
/// name and without type hints, Bind of the text parameters with no format
/// codes and results in text, Describe for the unnamed statement, Execute
/// without a row limit, and Sync; or an encoding error where one of them
/// cannot be built. Text parameters are copied, not converted, so that no
/// failure is one of conversion: where the codec gives up on the parameters
/// (there are too many, or one is too long), that is an encoding error too.
pub open spec fn text_request(query: Seq<char>, params: Seq<Option<String>>) -> Result<
    Seq<u8>,
    Error,
> {
    match parse_frame(Seq::empty(), query, Seq::empty()) {
        None => Err(Error::Encode),
        Some(parse) => match bind_frame(
            Seq::empty(),
            Seq::empty(),
            Seq::empty(),
            text_values(params),
            Format::Text.spec_code(),
        ) {
            Err(_) => Err(Error::Encode),
            Ok(bind) => match (
                describe_frame(STATEMENT, Seq::empty()),
                execute_frame(Seq::empty(), 0),
            ) {
                (Some(describe), Some(execute)) => Ok(
                    parse + bind + describe + execute + sync_frame(),
                ),
                _ => Err(Error::Encode),
            },
        },
    }
}

/// Builds the request that runs a query text with text parameters, behind
/// whatever the buffer already holds. The buffer is left empty.
pub fn encode_txt(query: &str, params: &Vec<Option<String>>, buf: &mut BytesMut) -> (r: Result<
    Bytes,
    Error,
>)
    ensures
        buffer_bytes(*final(buf)) == Seq::<u8>::empty(),
        match text_request(query@, params@) {
            Ok(frames) => r is Ok && frozen_bytes(r->Ok_0) == buffer_bytes(*old(buf)) + frames,
            Err(e) => r == Err::<Bytes, Error>(e),
        },
{
    proof {
        reveal_strlit("");
    }
    assert(""@ =~= Seq::<char>::empty());
    let mut bound: Vec<Param> = Vec::new();
    let mut i: usize = 0;
    while i < params.len()
        invariant
            i <= params.len(),
            bound@.len() == i,
            param_values(bound@) == text_values(params@.subrange(0, i as int)),
        decreases params.len() - i,
    {
        let ghost before = bound@;
        let value = match &params[i] {
            Some(text) => Some(text.as_str().as_bytes_vec()),
            None => None,
        };
        bound.push(Param { format: Format::Text, value: Ok(value) });
        i += 1;
        assert forall|k: int| 0 <= k < i implies param_values(bound@)[k] == text_values(
            params@.subrange(0, i as int),
        )[k] by {
            if k < i - 1 {
                assert(bound@[k] == before[k]);
                assert(param_values(before)[k] == text_values(params@.subrange(0, i - 1))[k]);
            }
        }
        assert(param_values(bound@) =~= text_values(params@.subrange(0, i as int)));
    }
    assert(params@.subrange(0, i as int) =~= params@);
    let no_types: Vec<u32> = Vec::new();
    let no_formats: Vec<i16> = Vec::new();
    match put_parse("", query, &no_types, buf) {
        Ok(()) => {},
        Err(_) => {
            discard(buf);
            return Err(Error::Encode);
        },
    }
    match put_bind("", "", &no_formats, &bound, Format::Text.code(), buf) {
        Ok(()) => {},
        Err(_) => {
            discard(buf);
            return Err(Error::Encode);
        },
    }
    let described = put_describe(STATEMENT, "", buf);
    let executed = match described {
        Ok(()) => put_execute("", 0, buf),
        Err(e) => Err(e),
    };
    match executed {
        Ok(()) => {},
        Err(_) => {
            discard(buf);
            return Err(Error::Encode);
        },
    }
    put_sync(buf);
    Ok(take(buf))
}

/// The request that fetches rows from a portal: Execute for the portal with
/// a row limit, and Sync; or the error.
pub open spec fn portal_request(portal: Seq<char>, max_rows: i32) -> Result<Seq<u8>, Error> {
    match execute_frame(portal, max_rows) {
        Some(execute) => Ok(execute + sync_frame()),
        None => Err(Error::Encode),
    }
}

/// Builds the request that fetches rows from a portal, behind whatever the
/// buffer already holds. The buffer is left empty.
pub fn encode_portal(portal: &str, max_rows: i32, buf: &mut BytesMut) -> (r: Result<Bytes, Error>)
    ensures
        buffer_bytes(*final(buf)) == Seq::<u8>::empty(),
        match portal_request(portal@, max_rows) {
            Ok(frames) => r is Ok && frozen_bytes(r->Ok_0) == buffer_bytes(*old(buf)) + frames,
            Err(e) => r == Err::<Bytes, Error>(e),
        },
{
    match put_execute(portal, max_rows, buf) {
        Ok(()) => {},
        Err(_) => {
            discard(buf);
            return Err(Error::Encode);
        },
    }
    put_sync(buf);
    Ok(take(buf))
}

/// What one message at the head of a response comes to.
#[derive(Clone, Copy, Debug, PartialEq, Eq, Structural)]
pub enum StartStep {
    /// The message is dropped and the next one is looked at.
    Skip,
    /// The response proper begins behind this message.
    Started,
    /// The response is out of sequence.
    Failed(Error),
}

/// What a message at the head of a response comes to: ParseComplete is
/// dropped, BindComplete or ReadyForQuery ends the head, and anything else
/// is out of sequence.
pub open spec fn start_of(message: BackendMessage) -> StartStep {
    match message {
        BackendMessage::ParseComplete => StartStep::Skip,
        BackendMessage::BindComplete => StartStep::Started,
        BackendMessage::ReadyForQuery(_) => StartStep::Started,
        unexpected => StartStep::Failed(Error::UnexpectedMessage(unexpected.spec_tag())),
    }
}

/// Looks at one message at the head of the response to a request that was
/// sent with a Parse or Bind frame.
pub fn start(message: &BackendMessage) -> (step: StartStep)
    ensures
        step == start_of(*message),
{
    match message {
        BackendMessage::ParseComplete => StartStep::Skip,
        BackendMessage::BindComplete => StartStep::Started,
        BackendMessage::ReadyForQuery(_) => StartStep::Started,
        unexpected => StartStep::Failed(Error::UnexpectedMessage(unexpected.tag())),
    }
}

/// An execution that only counts the rows that it affects.
#[derive(Clone, Copy, Debug, PartialEq, Eq, Structural)]
pub struct Execution {
    /// The count so far: zero until a command tag says otherwise.
    pub rows: u64,
}

/// What one message does to an execution that only counts rows.
#[derive(Clone, Copy, Debug, PartialEq, Eq, Structural)]
pub enum ExecuteStep {
    /// More messages are to come.
    Pending(Execution),
    /// The response is over; holds the number of rows affected.
    Done(u64),
    /// The response is out of sequence or cannot be read.
    Failed(Error),
}

/// What a message does to an execution: data rows are dropped, a command tag
/// sets the count, an empty query sets it to zero, and ReadyForQuery ends
/// the response with the count.
pub open spec fn execute_next(execution: Execution, message: BackendMessage) -> ExecuteStep {
    match message {
        BackendMessage::DataRow(_) => ExecuteStep::Pending(execution),
        BackendMessage::CommandComplete(body) => match command_tag_text(body) {
            Some(text) => ExecuteStep::Pending(Execution { rows: tag_rows(encode_utf8(text)) }),
            None => ExecuteStep::Failed(Error::Parse),
        },
        BackendMessage::EmptyQueryResponse => ExecuteStep::Pending(Execution { rows: 0 }),
        BackendMessage::ReadyForQuery(_) => ExecuteStep::Done(execution.rows),
        unexpected => ExecuteStep::Failed(Error::UnexpectedMessage(unexpected.spec_tag())),
    }
}

impl Execution {
    /// Takes the next message of the response.
    pub fn advance(self, message: &BackendMessage) -> (step: ExecuteStep)
        ensures
            step == execute_next(self, *message),
    {
        match message {
            BackendMessage::DataRow(_) => ExecuteStep::Pending(self),
            BackendMessage::CommandComplete(body) => match extract_row_affected(body) {
                Ok(rows) => ExecuteStep::Pending(Execution { rows }),
                Err(e) => ExecuteStep::Failed(e),
            },
            BackendMessage::EmptyQueryResponse => ExecuteStep::Pending(Execution { rows: 0 }),
            BackendMessage::ReadyForQuery(_) => ExecuteStep::Done(self.rows),
            unexpected => ExecuteStep::Failed(Error::UnexpectedMessage(unexpected.tag())),
        }
    }
}

/// Starts to execute a prepared statement with parameters for the number of
/// rows that it affects. Returns the request to send and the state that
/// takes the response, with no row counted. Where the number of parameters
/// is not the number that the statement declares, that is the error, and no
/// request comes out that could be sent.
pub fn execute(statement: &Statement, params: &Vec<Param>, buf: &mut BytesMut) -> (r: Result<
    (Bytes, Execution),
    Error,
>)
    ensures
        buffer_bytes(*final(buf)) == Seq::<u8>::empty(),
        match execute_request(statement@, params@) {
            Ok(frames) => r is Ok && frozen_bytes(r->Ok_0.0) == buffer_bytes(*old(buf)) + frames
                && r->Ok_0.1 == (Execution { rows: 0 }),
            Err(e) => r is Err && r->Err_0 == e,
        },
{
    match encode(statement, params, buf) {
        Ok(request) => Ok((request, Execution { rows: 0 })),
        Err(e) => Err(e),
    }
}

/// The statement that a stream makes for itself from the descriptions that
/// arrive in its response: unnamed, and keeping the text of the query in
/// place of a name.
pub open spec fn made_statement(
    query: Seq<char>,
    parameters: Option<Seq<u32>>,
    fields: Option<Seq<(Seq<char>, u32, i16, u32)>>,
) -> Result<StatementView, Error> {
    match described(parameters, fields) {
        Ok((types, columns)) => Ok(StatementView::Unnamed { query, params: types, columns }),
        Err(e) => Err(e),
    }
}

/// Makes the unnamed statement of a query text from a parameter description
/// and, where the query returns rows, a row description.
pub fn make_statement(
    query: &str,
    parameter_description: ParameterDescriptionBody,
    row_description: Option<RowDescriptionBody>,
) -> (r: Result<Statement, Error>)
    ensures
        match made_statement(
            query@,
            parameter_oids(parameter_description),
            fields_of(row_description),
        ) {
            Ok(statement) => r is Ok && r->Ok_0@ == statement,
            Err(e) => r is Err && r->Err_0 == e,
        },
{
    match read_descriptions(&parameter_description, &row_description) {
        Ok((types, columns)) => Ok(Statement::unnamed(String::from_str(query), types, columns)),
        Err(e) => Err(e),
    }
}

/// A row of a result, as a mathematical value.
pub struct RowView {
    pub statement: StatementView,
    pub body: DataRowBody,
    pub ranges: Seq<Option<(usize, usize)>>,
    pub output_format: Format,
}

/// A row of a result: the body as received, the extent of each column in
/// it, and the statement and format to read the columns by.
pub struct Row {
    statement: Statement,
    body: DataRowBody,
    ranges: Vec<Option<(usize, usize)>>,
    output_format: Format,
}

impl View for Row {
    type V = RowView;

    closed spec fn view(&self) -> RowView {
        RowView {
            statement: self.statement@,
            body: self.body,
            ranges: self.ranges@,
            output_format: self.output_format,
        }
    }
}

impl Row {
    /// Reads the extents of the columns out of the body of a DataRow
    /// message. A body that cannot be read is a parse error.
    pub fn new(statement: Statement, body: DataRowBody, output_format: Format) -> (r: Result<
        Row,
        Error,
    >)
        ensures
            match row_ranges(body) {
                Some(ranges) => r is Ok && r->Ok_0@ == (RowView {
                    statement: statement@,
                    body,
                    ranges,
                    output_format,
                }),
                None => r is Err && r->Err_0 == Error::Parse,
            },
    {
        match read_ranges(&body) {
            Ok(ranges) => Ok(Row { statement, body, ranges, output_format }),
            Err(_) => Err(Error::Parse),
        }
    }

    /// The statement that the row belongs to.
    pub fn statement(&self) -> (statement: &Statement)
        ensures
            statement@ == self@.statement,
    {
        &self.statement
    }

    /// The body of the message that brought the row.
    pub fn body(&self) -> (body: &DataRowBody)
        ensures
            *body == self@.body,
    {
        &self.body
    }

    /// The extent of each column in the buffer of the body, as start and end
    /// offsets; `None` for a NULL column.
    pub fn ranges(&self) -> (ranges: &[Option<(usize, usize)>])
        ensures
            ranges@ == self@.ranges,
    {
        self.ranges.as_slice()
    }

    /// The format that the columns are in.
    pub fn output_format(&self) -> (format: Format)
        ensures
            format == self@.output_format,
    {
        self.output_format
    }
}

/// The state of a stream of rows, as a mathematical value.
pub struct RowStreamView {
    /// The statement that rows are read by, once it is known.
    pub statement: Option<StatementView>,
    /// The number of rows affected, once a command tag has arrived.
    pub rows_affected: Option<u64>,
    /// The command tag, once it has arrived.
    pub command_tag: Option<Seq<char>>,
    /// The format of the columns.
    pub output_format: Format,
    /// The status of the connection, once the response is over.
    pub status: Option<u8>,
    /// A parameter description that waits for the row description or NoData
    /// that goes with it.
    pub parameter_description: Option<ParameterDescriptionBody>,
    /// The text of the query, for a stream that learns its statement from
    /// its response; empty for any other.
    pub query: Seq<char>,
    /// Whether the stream is over: it has handed out its end or an error.
    pub ended: bool,
}

/// What one message makes a stream of rows hand out.
pub enum Polled {
    /// Nothing; the next message is to be looked at.
    Pending,
    /// One row.
    Row(Row),
    /// An error, with which the stream is over.
    Failed(Error),
    /// The end of the stream.
    Finished,
}

/// What one message makes a stream of rows hand out, as a mathematical
/// value.
pub enum PolledView {
    Pending,
    Row(RowView),
    Failed(Error),
    Finished,
}

impl View for Polled {
    type V = PolledView;

    open spec fn view(&self) -> PolledView {
        match *self {
            Polled::Pending => PolledView::Pending,
            Polled::Row(row) => PolledView::Row(row@),
            Polled::Failed(e) => PolledView::Failed(e),
            Polled::Finished => PolledView::Finished,
        }
    }
}

/// Whether a stream can take a message: a data row needs a statement to be
/// read by, and a row description or NoData needs the parameter description
/// that came before it. A stream that is over takes anything, and looks at
/// none of it.
pub open spec fn stream_accepts(stream: RowStreamView, message: BackendMessage) -> bool {
    stream.ended || match message {
        BackendMessage::DataRow(_) => stream.statement is Some,
        BackendMessage::NoData => stream.parameter_description is Some,
        BackendMessage::RowDescription(_) => stream.parameter_description is Some,
        _ => true,
    }
}

/// What the pair of a waiting parameter description and the message that
/// completes it does to a stream: the description is used up, and the
/// statement made from the pair becomes the statement of the stream, unless
/// it cannot be read.
pub open spec fn stream_described(
    stream: RowStreamView,
    row_description: Option<RowDescriptionBody>,
) -> (RowStreamView, PolledView) {
    match made_statement(
        stream.query,
        parameter_oids(stream.parameter_description->0),
        fields_of(row_description),
    ) {
        Ok(statement) => (
            RowStreamView { statement: Some(statement), parameter_description: None, ..stream },
            PolledView::Pending,
        ),
        Err(e) => (RowStreamView { parameter_description: None, ..stream }, PolledView::Failed(e)),
    }
}

/// What a message does to a stream that is not over, and what the stream
/// hands out for it.
pub open spec fn stream_step(stream: RowStreamView, message: BackendMessage) -> (
    RowStreamView,
    PolledView,
) {
    match message {
        BackendMessage::DataRow(body) => match row_ranges(body) {
            Some(ranges) => (
                stream,
                PolledView::Row(
                    RowView {
                        statement: stream.statement->0,
                        body,
                        ranges,
                        output_format: stream.output_format,
                    },
                ),
            ),
            None => (stream, PolledView::Failed(Error::Parse)),
        },
        BackendMessage::CommandComplete(body) => match command_tag_text(body) {
            Some(text) => (
                RowStreamView {
                    rows_affected: Some(tag_rows(encode_utf8(text))),
                    command_tag: Some(text),
                    ..stream
                },
                PolledView::Pending,
            ),
            None => (stream, PolledView::Failed(Error::Parse)),
        },
        BackendMessage::ParameterDescription(body) => (
            RowStreamView { parameter_description: Some(body), ..stream },
            PolledView::Pending,
        ),
        BackendMessage::NoData => stream_described(stream, None),
        BackendMessage::RowDescription(body) => stream_described(stream, Some(body)),
        BackendMessage::EmptyQueryResponse => (stream, PolledView::Pending),
        BackendMessage::PortalSuspended => (stream, PolledView::Pending),
        BackendMessage::ReadyForQuery(status) => (
            RowStreamView { status: Some(status), ..stream },
            PolledView::Finished,
        ),
        unexpected => (
            stream,
            PolledView::Failed(Error::UnexpectedMessage(unexpected.spec_tag())),
        ),
    }
}

/// Whether what a stream hands out is the last thing it hands out: its end,
/// or an error.
pub open spec fn ends_stream(polled: PolledView) -> bool {
    polled is Failed || polled is Finished
}

/// What a message does to a stream of rows, and what the stream hands out
/// for it. An error is terminal, as the end is: the stream is over with it,
/// and a stream that is over hands out its end for every message and
/// changes no more.
pub open spec fn stream_next(stream: RowStreamView, message: BackendMessage) -> (
    RowStreamView,
    PolledView,
) {
    if stream.ended {
        (stream, PolledView::Finished)
    } else {
        let (next, polled) = stream_step(stream, message);
        (RowStreamView { ended: ends_stream(polled), ..next }, polled)
    }
}

/// A stream of table rows: the state that turns the messages of one
/// response into rows, one message at a time. It is read once, from front
/// to end, and is over with its end or with its first error.
pub struct RowStream {
    statement: Option<Statement>,
    rows_affected: Option<u64>,
    command_tag: Option<String>,
    output_format: Format,
    status: Option<u8>,
    parameter_description: Option<ParameterDescriptionBody>,
    query: String,
    ended: bool,
}

impl View for RowStream {
    type V = RowStreamView;

    closed spec fn view(&self) -> RowStreamView {
        RowStreamView {
            statement: match self.statement {
                Some(statement) => Some(statement@),
                None => None,
            },
            rows_affected: self.rows_affected,
            command_tag: match self.command_tag {
                Some(tag) => Some(tag@),
                None => None,
            },
            output_format: self.output_format,
            status: self.status,
            parameter_description: self.parameter_description,
            query: self.query@,
            ended: self.ended,
        }
    }
}

/// A stream at the start of a response: nothing is known yet but what the
/// stream was made with, and the stream is not over.
pub open spec fn fresh_stream(
    statement: Option<StatementView>,
    output_format: Format,
    query: Seq<char>,
) -> RowStreamView {
    RowStreamView {
        statement,
        rows_affected: None,
        command_tag: None,
        output_format,
        status: None,
        parameter_description: None,
        query,
        ended: false,
    }
}

impl RowStream {
    /// A stream at the start of a response, with the statement to read rows
    /// by, if it is known already, and the format of the columns.
    pub fn new(statement: Option<Statement>, output_format: Format) -> (stream: RowStream)
        ensures
            stream@ == fresh_stream(
                match statement {
                    Some(statement) => Some(statement@),
                    None => None,
                },
                output_format,
                Seq::empty(),
            ),
    {
        RowStream {
            statement,
            rows_affected: None,
            command_tag: None,
            output_format,
            status: None,
            parameter_description: None,
            query: String::new(),
            ended: false,
        }
    }

    /// A stream at the start of the response to a query text that was sent
    /// without being prepared: the stream learns its statement from the
    /// descriptions in the response, and the statement keeps the text.
    pub fn describing(query: &str, output_format: Format) -> (stream: RowStream)
        ensures
            stream@ == fresh_stream(None, output_format, query@),
    {
        RowStream {
            statement: None,
            rows_affected: None,
            command_tag: None,
            output_format,
            status: None,
            parameter_description: None,
            query: String::from_str(query),
            ended: false,
        }
    }

    /// Whether the stream is over: it has handed out its end or an error,
    /// and will hand out nothing else.
    pub fn ended(&self) -> (e: bool)
        ensures
            e == self@.ended,
    {
        self.ended
    }

    /// Whether the stream can take the message.
    pub fn accepts(&self, message: &BackendMessage) -> (ok: bool)
        ensures
            ok == stream_accepts(self@, *message),
    {
        self.ended || match message {
            BackendMessage::DataRow(_) => self.statement.is_some(),
            BackendMessage::NoData => self.parameter_description.is_some(),
            BackendMessage::RowDescription(_) => self.parameter_description.is_some(),
            _ => true,
        }
    }

    /// Takes the next message of the response and says what the stream
    /// hands out for it. The stream is over once `Finished` or `Failed`
    /// comes out; from then on it hands out `Finished` for every message
    /// and changes no more.
    pub fn on_message(&mut self, message: BackendMessage) -> (polled: Polled)
        requires
            stream_accepts(old(self)@, message),
        ensures
            (final(self)@, polled@) == stream_next(old(self)@, message),
    {
        if self.ended {
            return Polled::Finished;
        }
        let polled = self.step(message);
        match &polled {
            Polled::Failed(_) => {
                self.ended = true;
            },
            Polled::Finished => {
                self.ended = true;
            },
            _ => {},
        }
        polled
    }

    fn step(&mut self, message: BackendMessage) -> (polled: Polled)
        requires
            !old(self)@.ended,
            stream_accepts(old(self)@, message),
        ensures
            (final(self)@, polled@) == stream_step(old(self)@, message),
    {
        match message {
            BackendMessage::DataRow(body) => {
                let statement = self.statement.as_ref().unwrap().clone();
                match Row::new(statement, body, self.output_format) {
                    Ok(row) => Polled::Row(row),
                    Err(e) => Polled::Failed(e),
                }
            },
            BackendMessage::CommandComplete(body) => {
                match read_tag(&body) {
                    Ok(tag) => {
                        self.rows_affected = Some(rows_in_tag(tag.as_bytes()));
                        self.command_tag = Some(String::from_str(tag));
                        Polled::Pending
                    },
                    Err(_) => Polled::Failed(Error::Parse),
                }
            },
            BackendMessage::ParameterDescription(body) => {
                self.parameter_description = Some(body);
                Polled::Pending
            },
            BackendMessage::NoData => self.describe(None),
            BackendMessage::RowDescription(body) => self.describe(Some(body)),
            BackendMessage::EmptyQueryResponse => Polled::Pending,
            BackendMessage::PortalSuspended => Polled::Pending,
            BackendMessage::ReadyForQuery(status) => {
                self.status = Some(status);
                Polled::Finished
            },
            unexpected => Polled::Failed(Error::UnexpectedMessage(unexpected.tag())),
        }
    }

    fn describe(&mut self, row_description: Option<RowDescriptionBody>) -> (polled: Polled)
        requires
            old(self)@.parameter_description is Some,
        ensures
            (final(self)@, polled@) == stream_described(old(self)@, row_description),
    {
        let parameter_description = self.parameter_description.take().unwrap();
        match make_statement(self.query.as_str(), parameter_description, row_description) {
            Ok(statement) => {
                self.statement = Some(statement);
                Polled::Pending
            },
            Err(e) => Polled::Failed(e),
        }
    }

    /// Returns the number of rows affected by the query.
    ///
    /// This function will return `None` until the stream has been exhausted.
    pub fn rows_affected(&self) -> (rows: Option<u64>)
        ensures
            rows == self@.rows_affected,
    {
        self.rows_affected
    }

    /// Returns the command tag of this query.
    ///
    /// This is only available after the stream has been exhausted.
    pub fn command_tag(&self) -> (tag: Option<String>)
        ensures
            match self@.command_tag {
                Some(text) => tag is Some && tag->0@ == text,
                None => tag is None,
            },
    {
        match &self.command_tag {
            Some(tag) => Some(tag.clone()),
            None => None,
        }
    }

    /// Returns if the connection is ready for querying, with the status of
    /// the connection.
    ///
    /// This might be available only after the stream has been exhausted.
    pub fn ready_status(&self) -> (status: Option<u8>)
        ensures
            status == self@.status,
    {
        self.status
    }

    /// The statement that rows are read by, once it is known.
    pub fn statement(&self) -> (statement: Option<&Statement>)
        ensures
            match self@.statement {
                Some(view) => statement is Some && statement->0@ == view,
                None => statement is None,
            },
    {
        self.statement.as_ref()
    }
}

/// Starts a query with parameters against a prepared statement. Returns the
/// request to send and the stream that takes the response; rows come in
/// binary.
pub fn query(statement: Statement, params: &Vec<Param>, buf: &mut BytesMut) -> (r: Result<
    (Bytes, RowStream),
    Error,
>)
    ensures
        buffer_bytes(*final(buf)) == Seq::<u8>::empty(),
        match execute_request(statement@, params@) {
            Ok(frames) => r is Ok && frozen_bytes(r->Ok_0.0) == buffer_bytes(*old(buf)) + frames
                && r->Ok_0.1@ == fresh_stream(Some(statement@), Format::Binary, Seq::empty()),
            Err(e) => r is Err && r->Err_0 == e,
        },
{
    match encode(&statement, params, buf) {
        Ok(request) => Ok((request, RowStream::new(Some(statement), Format::Binary))),
        Err(e) => Err(e),
    }
}

/// Starts a query given as text, with each parameter as text or absent for
/// NULL, without preparing it first. Returns the request to send and the
/// stream that takes the response; the stream learns its statement from the
/// descriptions in the response, the statement keeps the text of the query,
/// and rows come in text.
pub fn query_txt(query: &str, params: &Vec<Option<String>>, buf: &mut BytesMut) -> (r: Result<
    (Bytes, RowStream),
    Error,
>)
    ensures
        buffer_bytes(*final(buf)) == Seq::<u8>::empty(),
        match text_request(query@, params@) {
            Ok(frames) => r is Ok && frozen_bytes(r->Ok_0.0) == buffer_bytes(*old(buf)) + frames
                && r->Ok_0.1@ == fresh_stream(None, Format::Text, query@),
            Err(e) => r is Err && r->Err_0 == e,
        },
{
    match encode_txt(query, params, buf) {
        Ok(request) => Ok((request, RowStream::describing(query, Format::Text))),
        Err(e) => Err(e),
    }
}

/// Starts to fetch up to `max_rows` rows from the portal named `portal`,
/// which was bound to `statement`. Returns the request to send and the
/// stream that takes the response; rows come in binary.
pub fn query_portal(portal: &str, statement: &Statement, max_rows: i32, buf: &mut BytesMut) -> (r:
    Result<(Bytes, RowStream), Error>)
    ensures
        buffer_bytes(*final(buf)) == Seq::<u8>::empty(),
        match portal_request(portal@, max_rows) {
            Ok(frames) => r is Ok && frozen_bytes(r->Ok_0.0) == buffer_bytes(*old(buf)) + frames
                && r->Ok_0.1@ == fresh_stream(Some(statement@), Format::Binary, Seq::empty()),
            Err(e) => r is Err && r->Err_0 == e,
        },
{
    match encode_portal(portal, max_rows, buf) {
        Ok(request) => Ok((request, RowStream::new(Some(statement.clone()), Format::Binary))),
        Err(e) => Err(e),
    }
}

/// How the response to a query ended, as far as it has been read.
pub enum StreamEnd {
    /// The response is not over yet.
    Open,
    /// ReadyForQuery arrived.
    Finished,
    /// A message failed the stream.
    Failed(Error),
}

/// What a stream makes of a run of messages that it is handed one after
/// another: the state it is left in, the rows it hands out in their order,
/// and how the run ended. Nothing behind the message that ends or fails the
/// stream is looked at.
pub open spec fn stream_run(stream: RowStreamView, messages: Seq<BackendMessage>) -> (
    RowStreamView,
    Seq<RowView>,
    StreamEnd,
)
    decreases messages.len(),
{
    if messages.len() == 0 {
        (stream, Seq::empty(), StreamEnd::Open)
    } else {
        let (next, polled) = stream_next(stream, messages[0]);
        match polled {
            PolledView::Pending => stream_run(next, messages.drop_first()),
            PolledView::Row(row) => {
                let rest = stream_run(next, messages.drop_first());
                (rest.0, seq![row] + rest.1, rest.2)
            },
            PolledView::Failed(e) => (next, Seq::empty(), StreamEnd::Failed(e)),
            PolledView::Finished => (next, Seq::empty(), StreamEnd::Finished),
        }
    }
}

/// A stream that is not over comes to its end exactly when ReadyForQuery
/// arrives, which leaves its status in the stream; and it is over exactly
/// when it has handed out its end or an error.
pub proof fn lemma_finished_on_ready_for_query(stream: RowStreamView, message: BackendMessage)
    requires
        !stream.ended,
    ensures
        stream_next(stream, message).1 is Finished <==> message is ReadyForQuery,
        message is ReadyForQuery ==> stream_next(stream, message).0.status == Some(
            message->ReadyForQuery_0,
        ),
        stream_next(stream, message).0.ended <==> ends_stream(stream_next(stream, message).1),
{
}

/// An error is terminal, as the end is: whatever a stream hands out last,
/// it hands out nothing but its end from then on, and no message changes it
/// any more. No row follows an error.
pub proof fn lemma_over_is_over(
    stream: RowStreamView,
    message: BackendMessage,
    later: Seq<BackendMessage>,
)
    requires
        ends_stream(stream_next(stream, message).1),
    ensures
        stream_next(stream, message).0.ended,
        forall|i: int|
            0 <= i < later.len() ==> stream_next(
                stream_next(stream, message).0,
                #[trigger] later[i],
            ) == (stream_next(stream, message).0, PolledView::Finished),
        stream_run(stream_next(stream, message).0, later).1 == Seq::<RowView>::empty(),
        stream_run(stream_next(stream, message).0, later).0 == stream_next(stream, message).0,
{
    let over = stream_next(stream, message).0;
    if later.len() > 0 {
        assert(stream_next(over, later[0]) == (over, PolledView::Finished));
    }
}

/// Whether no place in the protocol of a row stream is made for a message.
pub open spec fn is_unexpected(message: BackendMessage) -> bool {
    message is ParseComplete || message is BindComplete || message is Other
}

/// A message that the stream does not expect fails it at once, with the tag
/// of that message: the stream is over, nothing else in it has changed, and
/// no row comes out, whatever follows.
pub proof fn lemma_unexpected_message_fails(stream: RowStreamView, messages: Seq<BackendMessage>)
    requires
        !stream.ended,
        messages.len() > 0,
        is_unexpected(messages[0]),
    ensures
        stream_run(stream, messages) == (
            RowStreamView { ended: true, ..stream },
            Seq::<RowView>::empty(),
            StreamEnd::Failed(Error::UnexpectedMessage(messages[0].spec_tag())),
        ),
{
}

/// Rows come out of data rows only: a run without a data row hands out
/// nothing.
pub proof fn lemma_no_rows_without_data_rows(stream: RowStreamView, messages: Seq<BackendMessage>)
    requires
        forall|i: int| 0 <= i < messages.len() ==> !((#[trigger] messages[i]) is DataRow),
    ensures
        stream_run(stream, messages).1 == Seq::<RowView>::empty(),
    decreases messages.len(),
{
    if messages.len() > 0 {
        let rest = messages.drop_first();
        assert forall|i: int| 0 <= i < rest.len() implies !((#[trigger] rest[i]) is DataRow) by {
            assert(rest[i] == messages[i + 1]);
        }
        lemma_no_rows_without_data_rows(stream_next(stream, messages[0]).0, rest);
    }
}

/// A response of readable data rows, a command tag and ReadyForQuery, read
/// by a stream that knows its statement: one row comes out for each data
/// row, in order; then the stream is over, and it holds the count of the
/// tag, the tag and the status.
pub proof fn lemma_rows_then_completion(
    stream: RowStreamView,
    messages: Seq<BackendMessage>,
    tag: CommandCompleteBody,
    status: u8,
)
    requires
        !stream.ended,
        stream.statement is Some,
        messages.len() >= 2,
        forall|i: int|
            0 <= i < messages.len() - 2 ==> (#[trigger] messages[i]) is DataRow && row_ranges(
                messages[i]->DataRow_0,
            ) is Some,
        messages[messages.len() - 2] == BackendMessage::CommandComplete(tag),
        command_tag_text(tag) is Some,
        messages[messages.len() - 1] == BackendMessage::ReadyForQuery(status),
    ensures
        stream_run(stream, messages).0 == (RowStreamView {
            rows_affected: Some(tag_rows(encode_utf8(command_tag_text(tag)->0))),
            command_tag: command_tag_text(tag),
            status: Some(status),
            ended: true,
            ..stream
        }),
        stream_run(stream, messages).1.len() == messages.len() - 2,
        forall|i: int|
            0 <= i < messages.len() - 2 ==> (#[trigger] stream_run(stream, messages).1[i])
                == (RowView {
                statement: stream.statement->0,
                body: messages[i]->DataRow_0,
                ranges: row_ranges(messages[i]->DataRow_0)->0,
                output_format: stream.output_format,
            }),
        stream_run(stream, messages).2 == StreamEnd::Finished,
    decreases messages.len(),
{
    let rest = messages.drop_first();
    if messages.len() == 2 {
        let after_tag = stream_next(stream, messages[0]).0;
        assert(rest[0] == messages[1]);
        assert(rest.drop_first().len() == 0);
        assert(stream_run(after_tag, rest) == (
            stream_next(after_tag, rest[0]).0,
            Seq::<RowView>::empty(),
            StreamEnd::Finished,
        ));
    } else {
        assert(messages[0] is DataRow);
        assert(stream_next(stream, messages[0]).0 == stream);
        assert forall|i: int| 0 <= i < rest.len() - 2 implies (#[trigger] rest[i]) is DataRow
            && row_ranges(rest[i]->DataRow_0) is Some by {
            assert(rest[i] == messages[i + 1]);
        }
        assert(rest[rest.len() - 2] == messages[messages.len() - 2]);
        assert(rest[rest.len() - 1] == messages[messages.len() - 1]);
        lemma_rows_then_completion(stream, rest, tag, status);
        let rows = stream_run(stream, messages).1;
        let later = stream_run(stream, rest).1;
        assert forall|i: int| 0 <= i < messages.len() - 2 implies (#[trigger] rows[i]) == (RowView {
            statement: stream.statement->0,
            body: messages[i]->DataRow_0,
            ranges: row_ranges(messages[i]->DataRow_0)->0,
            output_format: stream.output_format,
        }) by {
            if i > 0 {
                assert(rows[i] == later[i - 1]);
                assert(rest[i - 1] == messages[i]);
            }
        }
    }
}

/// A stream that starts without a statement makes one for itself from the
/// parameter description and the row description or NoData that arrive in
/// its response: unnamed, keeping the text of the query, with the types and
/// columns that the two describe.
pub proof fn lemma_stream_learns_its_statement(
    query: Seq<char>,
    output_format: Format,
    parameters: ParameterDescriptionBody,
    row_description: Option<RowDescriptionBody>,
)
    requires
        parameter_oids(parameters) is Some,
        fields_of(row_description) is Some,
    ensures
        ({
            let completing = match row_description {
                Some(body) => BackendMessage::RowDescription(body),
                None => BackendMessage::NoData,
            };
            let run = stream_run(
                fresh_stream(None, output_format, query),
                seq![BackendMessage::ParameterDescription(parameters), completing],
            );
            &&& run.0 == fresh_stream(
                Some(
                    StatementView::Unnamed {
                        query,
                        params: types_of(parameter_oids(parameters)->0),
                        columns: columns_of(fields_of(row_description)->0),
                    },
                ),
                output_format,
                query,
            )
            &&& run.1 == Seq::<RowView>::empty()
            &&& run.2 == StreamEnd::Open
        }),
{
    let completing = match row_description {
        Some(body) => BackendMessage::RowDescription(body),
        None => BackendMessage::NoData,
    };
    let messages = seq![BackendMessage::ParameterDescription(parameters), completing];
    let start = fresh_stream(None, output_format, query);
    let first = stream_next(start, messages[0]).0;
    let rest = messages.drop_first();
    assert(rest[0] == completing);
    assert(rest.drop_first().len() == 0);
    let second = stream_next(first, completing).0;
    assert(first.parameter_description == Some(parameters));
    assert(!first.ended);
    assert(stream_next(first, completing).1 == PolledView::Pending);
    assert(stream_run(second, rest.drop_first()) == (
        second,
        Seq::<RowView>::empty(),
        StreamEnd::Open,
    ));
    assert(stream_run(first, rest) == stream_run(second, rest.drop_first()));
    assert(stream_run(start, messages) == stream_run(first, rest));
}

/// A query with a number of parameters other than its statement declares
/// comes to a parameter-count error that names both numbers, whatever the
/// parameters are: no request is built, so that nothing can be sent.
pub proof fn lemma_wrong_parameter_count(statement: StatementView, params: Seq<Param>, portal: Seq<char>)
    requires
        params.len() != statement.params().len(),
    ensures
        bind_outcome(statement, params, portal) == Err::<Seq<u8>, Error>(
            Error::Parameters {
                given: params.len() as usize,
                expected: statement.params().len() as usize,
            },
        ),
        execute_request(statement, params) == Err::<Seq<u8>, Error>(
            Error::Parameters {
                given: params.len() as usize,
                expected: statement.params().len() as usize,
            },
        ),
{
}

} // verus!
