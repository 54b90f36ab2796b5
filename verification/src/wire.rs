//! The boundary to the protocol codec.
//!
//! Frames are written and message bodies are read by `postgres-protocol`, on
//! buffers of `bytes`. The items of this module that name a function of those
//! crates state what the rest of the crate takes for granted about it; they
//! are believed, not proved. The frames are written out here byte for byte,
//! with the inputs for which the codec refuses to build them. What a message
//! body or a buffer holds, and which types are built in, is known only by
//! name, as what the codec reads out of it.

use crate::types::Format;
use crate::types::Oid;
use bytes::BufMut;
use bytes::Bytes;
use bytes::BytesMut;
use fallible_iterator::FallibleIterator;
use postgres_protocol::message::backend::CommandCompleteBody;
use postgres_protocol::message::backend::DataRowBody;
use postgres_protocol::message::backend::ParameterDescriptionBody;
use postgres_protocol::message::backend::RowDescriptionBody;
use postgres_protocol::message::frontend;
use postgres_protocol::message::frontend::BindError;
use postgres_protocol::IsNull;
use vstd::prelude::*;
use vstd::utf8::encode_utf8;

verus! {

/// `bytes::BytesMut`, the buffer that frames are written to.
#[verifier::external_type_specification]
#[verifier::external_body]
pub struct ExBytesMut(BytesMut);

/// `bytes::Bytes`, a finished request.
#[verifier::external_type_specification]
#[verifier::external_body]
pub struct ExBytes(Bytes);

/// `std::io::Error`, the error of the codec.
#[verifier::external_type_specification]
#[verifier::external_body]
pub struct ExIoError(std::io::Error);

/// `postgres_protocol::IsNull`, what a value serializer answers: whether the
/// value is NULL. Verus reads both variants from the declaration itself.
#[verifier::external_type_specification]
pub struct ExIsNull(IsNull);

/// The body of a ParameterDescription message.
#[verifier::external_type_specification]
#[verifier::external_body]
pub struct ExParameterDescriptionBody(ParameterDescriptionBody);

/// The body of a RowDescription message.
#[verifier::external_type_specification]
#[verifier::external_body]
pub struct ExRowDescriptionBody(RowDescriptionBody);

/// The body of a DataRow message.
#[verifier::external_type_specification]
#[verifier::external_body]
pub struct ExDataRowBody(DataRowBody);

/// The body of a CommandComplete message.
#[verifier::external_type_specification]
#[verifier::external_body]
pub struct ExCommandCompleteBody(CommandCompleteBody);

/// The target kind of a Describe or Close frame that names a prepared
/// statement, `S`.
pub const STATEMENT: u8 = 0x53;

/// The bytes that a buffer holds, in order.
pub uninterp spec fn buffer_bytes(buf: BytesMut) -> Seq<u8>;

/// The bytes of a finished request, in order.
pub uninterp spec fn frozen_bytes(bytes: Bytes) -> Seq<u8>;

/// The two bytes of a 16-bit number, the high byte first.
pub open spec fn be_u16(value: u16) -> Seq<u8> {
    seq![(value / 0x100) as u8, (value % 0x100) as u8]
}

/// The four bytes of a 32-bit number, the high byte first.
pub open spec fn be_u32(value: u32) -> Seq<u8> {
    seq![
        (value / 0x100_0000) as u8,
        (value / 0x1_0000 % 0x100) as u8,
        (value / 0x100 % 0x100) as u8,
        (value % 0x100) as u8,
    ]
}

/// The four bytes of a signed 32-bit number in two's complement, the high
/// byte first.
pub open spec fn be_i32(value: i32) -> Seq<u8> {
    be_u32(
        if value < 0 {
            (value + 0x1_0000_0000) as u32
        } else {
            value as u32
        },
    )
}

/// A text as the codec writes it: its UTF-8 bytes and a zero byte behind
/// them. A text that holds a zero byte is refused.
pub open spec fn cstr(text: Seq<char>) -> Option<Seq<u8>> {
    if encode_utf8(text).contains(0u8) {
        None
    } else {
        Some(encode_utf8(text).push(0u8))
    }
}

/// A frame as the codec writes it: the tag, the length of what follows the
/// tag (the four bytes of the length included), and the body. A frame
/// whose length a signed 32-bit number cannot hold is refused.
pub open spec fn framed(tag: u8, body: Seq<u8>) -> Option<Seq<u8>> {
    if body.len() + 4 <= i32::MAX {
        Some(seq![tag] + be_u32((body.len() + 4) as u32) + body)
    } else {
        None
    }
}

/// The OIDs of a list, four bytes each, in order.
pub open spec fn oid_bytes(oids: Seq<Oid>) -> Seq<u8>
    decreases oids.len(),
{
    if oids.len() == 0 {
        Seq::empty()
    } else {
        be_u32(oids[0]) + oid_bytes(oids.drop_first())
    }
}

/// The Parse frame for a statement name, a query text and the OIDs of the
/// parameter types given as hints: tag `P`, the name, the query, the number
/// of OIDs in 16 bits and the OIDs. `None` where the codec refuses to build
/// it.
pub open spec fn parse_frame(name: Seq<char>, query: Seq<char>, types: Seq<Oid>) -> Option<
    Seq<u8>,
> {
    match (cstr(name), cstr(query)) {
        (Some(name), Some(query)) => if types.len() <= u16::MAX {
            framed(0x50, name + query + be_u16(types.len() as u16) + oid_bytes(types))
        } else {
            None
        },
        _ => None,
    }
}

/// The Describe frame for a target kind (`S` for a statement) and a name:
/// tag `D`, the kind and the name. `None` where the codec refuses to build
/// it.
pub open spec fn describe_frame(variant: u8, name: Seq<char>) -> Option<Seq<u8>> {
    match cstr(name) {
        Some(name) => framed(0x44, seq![variant] + name),
        None => None,
    }
}

/// The Execute frame for a portal name and a row limit (0 for no limit):
/// tag `E`, the name and the limit. `None` where the codec refuses to build
/// it.
pub open spec fn execute_frame(portal: Seq<char>, max_rows: i32) -> Option<Seq<u8>> {
    match cstr(portal) {
        Some(portal) => framed(0x45, portal + be_i32(max_rows)),
        None => None,
    }
}

/// The Close frame for a target kind (`S` for a statement) and a name: tag
/// `C`, the kind and the name. `None` where the codec refuses to build it.
pub open spec fn close_frame(variant: u8, name: Seq<char>) -> Option<Seq<u8>> {
    match cstr(name) {
        Some(name) => framed(0x43, seq![variant] + name),
        None => None,
    }
}

/// Why the codec gave up on a Bind frame.
#[derive(Clone, Copy, Debug, PartialEq, Eq, Structural)]
pub enum BindFailure {
    /// The codec gave up on the values: the conversion of one had failed, or
    /// one was too long, or there were too many.
    Conversion,
    /// The codec gave up on another part of the frame.
    Serialization,
}

/// The outcome of converting one parameter to its wire form: its bytes,
/// `None` for NULL, or a description of why it could not be converted.
pub type Converted = Result<Option<Vec<u8>>, String>;

/// One converted parameter as a mathematical value.
pub open spec fn converted_view(value: Converted) -> Result<Option<Seq<u8>>, Seq<char>> {
    match value {
        Ok(Some(bytes)) => Ok(Some(bytes@)),
        Ok(None) => Ok(None),
        Err(cause) => Err(cause@),
    }
}

/// One parameter of a Bind frame: the format it travels in and the outcome
/// of its conversion.
#[derive(Debug)]
pub struct Param {
    pub format: Format,
    pub value: Converted,
}

/// The format codes of a list of parameters.
pub open spec fn param_formats(params: Seq<Param>) -> Seq<i16> {
    Seq::new(params.len(), |i: int| params[i].format.spec_code())
}

/// The converted values of a list of parameters, as mathematical values.
pub open spec fn param_values(params: Seq<Param>) -> Seq<Result<Option<Seq<u8>>, Seq<char>>> {
    Seq::new(params.len(), |i: int| converted_view(params[i].value))
}

/// The two bytes of a signed 16-bit number in two's complement, the high
/// byte first.
pub open spec fn be_i16(value: i16) -> Seq<u8> {
    be_u16(
        if value < 0 {
            (value + 0x1_0000) as u16
        } else {
            value as u16
        },
    )
}

/// The format codes of a list, two bytes each, in order.
pub open spec fn format_bytes(formats: Seq<i16>) -> Seq<u8>
    decreases formats.len(),
{
    if formats.len() == 0 {
        Seq::empty()
    } else {
        be_i16(formats[0]) + format_bytes(formats.drop_first())
    }
}

/// The values of a Bind frame, in order: of each value its length in 32
/// bits and its bytes, of a NULL the length -1 and no bytes. `None` where
/// the codec gives up on a value: its conversion failed, or a signed 32-bit
/// number cannot hold its length.
pub open spec fn value_bytes(values: Seq<Result<Option<Seq<u8>>, Seq<char>>>) -> Option<Seq<u8>>
    decreases values.len(),
{
    if values.len() == 0 {
        Some(Seq::empty())
    } else {
        match (values[0], value_bytes(values.drop_first())) {
            (Ok(None), Some(rest)) => Some(be_i32(-1i32) + rest),
            (Ok(Some(bytes)), Some(rest)) => if bytes.len() <= i32::MAX {
                Some(be_i32(bytes.len() as i32) + bytes + rest)
            } else {
                None
            },
            _ => None,
        }
    }
}

/// The Bind frame for a portal, a statement name, the format codes of the
/// parameters, the converted parameters and the format code of the results:
/// tag `B`, the portal, the statement, the format codes behind their number,
/// the values behind their number, and the one result format behind the
/// number one; or the reason for which the codec gives up.
///
/// The codec looks at the names first, then at the number of format codes,
/// then at the values and their number, and at the length of the frame
/// last. Whatever stops it in the values, their number included, it reports
/// as a failed conversion: there the error of the serializer and its own
/// are of one type.
pub open spec fn bind_frame(
    portal: Seq<char>,
    statement: Seq<char>,
    formats: Seq<i16>,
    values: Seq<Result<Option<Seq<u8>>, Seq<char>>>,
    result_format: i16,
) -> Result<Seq<u8>, BindFailure> {
    match (cstr(portal), cstr(statement)) {
        (Some(portal), Some(statement)) => if formats.len() > u16::MAX {
            Err(BindFailure::Serialization)
        } else {
            match value_bytes(values) {
                Some(bytes) if values.len() <= u16::MAX => match framed(
                    0x42,
                    portal + statement + be_u16(formats.len() as u16) + format_bytes(formats)
                        + be_u16(values.len() as u16) + bytes + be_u16(1) + be_i16(result_format),
                ) {
                    Some(frame) => Ok(frame),
                    None => Err(BindFailure::Serialization),
                },
                _ => Err(BindFailure::Conversion),
            }
        },
        _ => Err(BindFailure::Serialization),
    }
}

/// The Sync frame: tag `S` and nothing behind the length.
pub open spec fn sync_frame() -> Seq<u8> {
    seq![0x53u8, 0u8, 0u8, 0u8, 4u8]
}

/// The OIDs that a ParameterDescription body lists; `None` where the body is
/// malformed.
pub uninterp spec fn parameter_oids(body: ParameterDescriptionBody) -> Option<Seq<Oid>>;

/// One field of a row description, as read from the wire.
#[derive(Debug, Clone, PartialEq, Eq)]
pub struct Field {
    /// The name of the column.
    pub name: String,
    /// The OID of the table that the column belongs to, or zero.
    pub table_oid: Oid,
    /// The ordinal of the column in its table, or zero.
    pub column_id: i16,
    /// The OID of the column's type.
    pub type_oid: Oid,
}

impl View for Field {
    type V = (Seq<char>, Oid, i16, Oid);

    open spec fn view(&self) -> (Seq<char>, Oid, i16, Oid) {
        (self.name@, self.table_oid, self.column_id, self.type_oid)
    }
}

/// The fields that a RowDescription body lists, each as name, table OID,
/// column ordinal and type OID; `None` where the body is malformed.
pub uninterp spec fn row_fields(body: RowDescriptionBody) -> Option<Seq<(Seq<char>, Oid, i16, Oid)>>;

/// The extent of each column in the buffer of a DataRow body, as start and
/// end offsets, `None` for a NULL column; `None` as a whole where the body is
/// malformed.
pub uninterp spec fn row_ranges(body: DataRowBody) -> Option<Seq<Option<(usize, usize)>>>;

/// The tag that a CommandComplete body carries; `None` where it is not valid
/// UTF-8.
pub uninterp spec fn command_tag_text(body: CommandCompleteBody) -> Option<Seq<char>>;

/// The OID of the built-in type that has a given OID; `None` where no
/// built-in type has it.
pub uninterp spec fn builtin_type_oid(oid: Oid) -> Option<Oid>;

/// `BytesMut::split`: takes everything written so far out of the buffer and
/// leaves the buffer empty.
pub assume_specification[ BytesMut::split ](buf: &mut BytesMut) -> (taken: BytesMut)
    ensures
        buffer_bytes(taken) == buffer_bytes(*old(buf)),
        buffer_bytes(*final(buf)) == Seq::<u8>::empty(),
;

/// `BytesMut::freeze`: the same bytes, made immutable.
pub assume_specification[ BytesMut::freeze ](buf: BytesMut) -> (bytes: Bytes)
    ensures
        frozen_bytes(bytes) == buffer_bytes(buf),
;

/// Empties the buffer, whatever it holds.
pub fn discard(buf: &mut BytesMut)
    ensures
        buffer_bytes(*final(buf)) == Seq::<u8>::empty(),
{
    let _ = buf.split();
}

/// Takes everything written so far out of the buffer as a finished request.
pub fn take(buf: &mut BytesMut) -> (request: Bytes)
    ensures
        frozen_bytes(request) == buffer_bytes(*old(buf)),
        buffer_bytes(*final(buf)) == Seq::<u8>::empty(),
{
    buf.split().freeze()
}

/// `BufMut::put_slice` on a `BytesMut`: appends the bytes, growing the buffer
/// as needed.
#[verifier::external_body]
pub(crate) fn put_slice(buf: &mut BytesMut, bytes: &[u8])
    ensures
        buffer_bytes(*final(buf)) == buffer_bytes(*old(buf)) + bytes@,
{
    buf.put_slice(bytes)
}

/// `frontend::sync`: appends a Sync frame. It cannot fail.
#[verifier::external_body]
pub(crate) fn put_sync(buf: &mut BytesMut)
    ensures
        buffer_bytes(*final(buf)) == buffer_bytes(*old(buf)) + sync_frame(),
{
    frontend::sync(buf)
}

/// `frontend::describe`: appends the Describe frame for its arguments, or
/// fails; after a failure the buffer may hold part of a frame.
#[verifier::external_body]
pub(crate) fn put_describe(variant: u8, name: &str, buf: &mut BytesMut) -> (r: Result<
    (),
    std::io::Error,
>)
    ensures
        r is Ok <==> describe_frame(variant, name@) is Some,
        r is Ok ==> buffer_bytes(*final(buf)) == buffer_bytes(*old(buf)) + describe_frame(
            variant,
            name@,
        )->0,
{
    frontend::describe(variant, name, buf)
}

/// `frontend::execute`: appends the Execute frame for its arguments, or
/// fails; after a failure the buffer may hold part of a frame.
#[verifier::external_body]
pub(crate) fn put_execute(portal: &str, max_rows: i32, buf: &mut BytesMut) -> (r: Result<
    (),
    std::io::Error,
>)
    ensures
        r is Ok <==> execute_frame(portal@, max_rows) is Some,
        r is Ok ==> buffer_bytes(*final(buf)) == buffer_bytes(*old(buf)) + execute_frame(
            portal@,
            max_rows,
        )->0,
{
    frontend::execute(portal, max_rows, buf)
}

/// `frontend::close`: appends the Close frame for its arguments, or fails;
/// after a failure the buffer may hold part of a frame.
#[verifier::external_body]
pub(crate) fn put_close(variant: u8, name: &str, buf: &mut BytesMut) -> (r: Result<
    (),
    std::io::Error,
>)
    ensures
        r is Ok <==> close_frame(variant, name@) is Some,
        r is Ok ==> buffer_bytes(*final(buf)) == buffer_bytes(*old(buf)) + close_frame(
            variant,
            name@,
        )->0,
{
    frontend::close(variant, name, buf)
}

/// `frontend::parse`, with the type hints handed over as a list of OIDs:
/// appends the Parse frame for its arguments, or fails; after a failure the
/// buffer may hold part of a frame.
#[verifier::external_body]
pub(crate) fn put_parse(name: &str, query: &str, types: &Vec<Oid>, buf: &mut BytesMut) -> (r: Result<
    (),
    std::io::Error,
>)
    ensures
        r is Ok <==> parse_frame(name@, query@, types@) is Some,
        r is Ok ==> buffer_bytes(*final(buf)) == buffer_bytes(*old(buf)) + parse_frame(
            name@,
            query@,
            types@,
        )->0,
{
    frontend::parse(name, query, types.iter().copied(), buf)
}

/// The serializer that the codec runs on each parameter of a Bind frame: it
/// writes the bytes of a converted value and answers whether the value is
/// NULL, or passes on the description of a failed conversion.
pub fn write_converted(value: &Converted, buf: &mut BytesMut) -> (r: Result<IsNull, String>)
    ensures
        match *value {
            Ok(Some(bytes)) => r == Ok::<IsNull, String>(IsNull::No) && buffer_bytes(*final(buf))
                == buffer_bytes(*old(buf)) + bytes@,
            Ok(None) => r == Ok::<IsNull, String>(IsNull::Yes) && buffer_bytes(*final(buf))
                == buffer_bytes(*old(buf)),
            Err(cause) => r is Err && r->Err_0@ == cause@ && buffer_bytes(*final(buf))
                == buffer_bytes(*old(buf)),
        },
{
    match value {
        Ok(Some(bytes)) => {
            put_slice(buf, bytes.as_slice());
            Ok(IsNull::No)
        },
        Ok(None) => Ok(IsNull::Yes),
        Err(cause) => Err(cause.clone()),
    }
}

/// `frontend::bind`, with `write_converted` as the serializer of each
/// parameter's value and one format code for all results: appends the Bind
/// frame for its arguments, or gives the reason for which the codec gave up;
/// after a failure the buffer may hold part of a frame.
#[verifier::external_body]
pub(crate) fn put_bind(
    portal: &str,
    statement: &str,
    formats: &Vec<i16>,
    params: &Vec<Param>,
    result_format: i16,
    buf: &mut BytesMut,
) -> (r: Result<(), BindFailure>)
    ensures
        match r {
            Ok(()) => bind_frame(
                portal@,
                statement@,
                formats@,
                param_values(params@),
                result_format,
            ) is Ok && buffer_bytes(*final(buf)) == buffer_bytes(*old(buf)) + bind_frame(
                portal@,
                statement@,
                formats@,
                param_values(params@),
                result_format,
            )->Ok_0,
            Err(failure) => bind_frame(
                portal@,
                statement@,
                formats@,
                param_values(params@),
                result_format,
            ) == Err::<Seq<u8>, BindFailure>(failure),
        },
{
    let written = frontend::bind(
        portal,
        statement,
        formats.iter().copied(),
        params.iter(),
        |param, buf| write_converted(&param.value, buf).map_err(Into::into),
        Some(result_format),
        buf,
    );
    match written {
        Ok(()) => Ok(()),
        Err(BindError::Conversion(_)) => Err(BindFailure::Conversion),
        Err(BindError::Serialization(_)) => Err(BindFailure::Serialization),
    }
}

/// `ParameterDescriptionBody::parameters`, read to its end: the OIDs listed,
/// or the error of the first one that could not be read.
#[verifier::external_body]
pub(crate) fn read_parameters(body: &ParameterDescriptionBody) -> (r: Result<Vec<Oid>, std::io::Error>)
    ensures
        match r {
            Ok(oids) => parameter_oids(*body) == Some(oids@),
            Err(_) => parameter_oids(*body) is None,
        },
{
    body.parameters().collect()
}

/// `RowDescriptionBody::fields`, read to its end: of each field its name,
/// table OID, column ordinal and type OID, or the error of the first field
/// that could not be read.
#[verifier::external_body]
pub(crate) fn read_fields(body: &RowDescriptionBody) -> (r: Result<Vec<Field>, std::io::Error>)
    ensures
        match r {
            Ok(fields) => row_fields(*body) == Some(fields@.map_values(|f: Field| f@)),
            Err(_) => row_fields(*body) is None,
        },
{
    body.fields().map(
        |f| Ok(Field {
            name: f.name().to_string(),
            table_oid: f.table_oid(),
            column_id: f.column_id(),
            type_oid: f.type_oid(),
        }),
    ).collect()
}

/// `DataRowBody::ranges`, read to its end: the extent of each column, or the
/// error of the first one that could not be read.
#[verifier::external_body]
pub(crate) fn read_ranges(body: &DataRowBody) -> (r: Result<Vec<Option<(usize, usize)>>, std::io::Error>)
    ensures
        match r {
            Ok(ranges) => row_ranges(*body) == Some(ranges@),
            Err(_) => row_ranges(*body) is None,
        },
{
    body.ranges().map(|range| Ok(range.map(|range| (range.start, range.end)))).collect()
}

/// `CommandCompleteBody::tag`: the tag as text, or an error where it is not
/// valid UTF-8.
#[verifier::external_body]
pub(crate) fn read_tag<'a>(body: &'a CommandCompleteBody) -> (r: Result<&'a str, std::io::Error>)
    ensures
        match r {
            Ok(tag) => command_tag_text(*body) == Some(tag@),
            Err(_) => command_tag_text(*body) is None,
        },
{
    body.tag()
}

/// `postgres_types::Type::from_oid`, reduced to the OID of the type found:
/// the built-in type with this OID, if there is one. A type that is found
/// has the OID that was asked for.
#[verifier::external_body]
pub(crate) fn builtin_oid(oid: Oid) -> (r: Option<Oid>)
    ensures
        r == builtin_type_oid(oid),
        r matches Some(found) ==> found == oid,
{
    postgres_types::Type::from_oid(oid).map(|found| found.oid())
}

} // verus!
