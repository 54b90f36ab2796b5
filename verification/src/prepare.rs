//! Preparing a statement: Parse, Describe and Sync go out, and ParseComplete,
//! ParameterDescription and RowDescription or NoData come back, in that order.

use crate::error::Error;
use crate::message::BackendMessage;
use crate::statement::column_views;
use crate::statement::Column;
use crate::statement::ColumnView;
use crate::statement::Statement;
use crate::statement::StatementView;
use crate::types::Oid;
use crate::types::Type;
use crate::types::TEXT_OID;
use crate::wire::buffer_bytes;
use crate::wire::builtin_oid;
use crate::wire::builtin_type_oid;
use crate::wire::close_frame;
use crate::wire::cstr;
use crate::wire::describe_frame;
use crate::wire::discard;
use crate::wire::frozen_bytes;
use crate::wire::parameter_oids;
use crate::wire::parse_frame;
use crate::wire::put_parse;
use crate::wire::read_fields;
use crate::wire::read_parameters;
use crate::wire::row_fields;
use crate::wire::sync_frame;
use crate::wire::take;
use crate::wire::put_describe;
use crate::wire::put_sync;
use crate::wire::Field;
use crate::wire::STATEMENT;
use bytes::Bytes;
use bytes::BytesMut;
use postgres_protocol::message::backend::ParameterDescriptionBody;
use postgres_protocol::message::backend::RowDescriptionBody;
use vstd::prelude::*;
use vstd::string::StringExecFns;
use vstd::utf8::encode_utf8;
use vstd::utf8::is_ascii_chars;
use vstd::utf8::is_ascii_chars_encode_utf8;

verus! {

/// The character that stands for a digit below ten.
pub open spec fn digit_char(d: nat) -> char {
    if d == 0 {
        '0'
    } else if d == 1 {
        '1'
    } else if d == 2 {
        '2'
    } else if d == 3 {
        '3'
    } else if d == 4 {
        '4'
    } else if d == 5 {
        '5'
    } else if d == 6 {
        '6'
    } else if d == 7 {
        '7'
    } else if d == 8 {
        '8'
    } else {
        '9'
    }
}

/// A number in decimal, without leading zeros.
pub open spec fn decimal(n: nat) -> Seq<char>
    decreases n,
{
    if n < 10 {
        seq![digit_char(n)]
    } else {
        decimal(n / 10).push(digit_char(n % 10))
    }
}

/// The name of the statement with a given serial number: `s` and the number
/// in decimal.
pub open spec fn statement_name_of(id: nat) -> Seq<char> {
    seq!['s'] + decimal(id)
}

/// A number in decimal has at least one digit.
pub proof fn lemma_decimal_nonempty(n: nat)
    ensures
        decimal(n).len() >= 1,
    decreases n,
{
    if n >= 10 {
        lemma_decimal_nonempty(n / 10);
    }
}

/// Different numbers are written differently.
pub proof fn lemma_decimal_injective(a: nat, b: nat)
    requires
        decimal(a) == decimal(b),
    ensures
        a == b,
    decreases a,
{
    lemma_decimal_nonempty(a / 10);
    lemma_decimal_nonempty(b / 10);
    if a >= 10 && b >= 10 {
        let left = decimal(a / 10).push(digit_char(a % 10));
        let right = decimal(b / 10).push(digit_char(b % 10));
        assert(left == right);
        assert(left.drop_last() == decimal(a / 10));
        assert(right.drop_last() == decimal(b / 10));
        assert(left.last() == digit_char(a % 10));
        assert(right.last() == digit_char(b % 10));
        lemma_decimal_injective(a / 10, b / 10);
        assert(a % 10 == b % 10);
    } else if a < 10 && b < 10 {
        assert(decimal(a)[0] == digit_char(a));
        assert(decimal(b)[0] == digit_char(b));
    } else if a < 10 {
        assert(decimal(a).len() == 1);
        assert(decimal(b).len() == decimal(b / 10).len() + 1);
    } else {
        assert(decimal(b).len() == 1);
        assert(decimal(a).len() == decimal(a / 10).len() + 1);
    }
}

/// Statements with different serial numbers get different names, so that a
/// counter that never hands out a number twice never hands out a name twice.
pub proof fn lemma_statement_names_distinct(a: nat, b: nat)
    requires
        a != b,
    ensures
        statement_name_of(a) != statement_name_of(b),
{
    if statement_name_of(a) == statement_name_of(b) {
        assert(statement_name_of(a).subrange(1, statement_name_of(a).len() as int) == decimal(a));
        assert(statement_name_of(b).subrange(1, statement_name_of(b).len() as int) == decimal(b));
        lemma_decimal_injective(a, b);
    }
}

/// Ten to the power of `k`.
pub open spec fn pow10(k: nat) -> nat
    decreases k,
{
    if k == 0 {
        1
    } else {
        10 * pow10((k - 1) as nat)
    }
}

/// A number below ten to the power of `k` has at most `k` digits.
pub proof fn lemma_decimal_len(n: nat, k: nat)
    requires
        k >= 1,
        n < pow10(k),
    ensures
        decimal(n).len() <= k,
    decreases k,
{
    if n >= 10 {
        assert(pow10(1) == 10) by {
            reveal_with_fuel(pow10, 2);
        }
        assert(k >= 2);
        lemma_decimal_len(n / 10, (k - 1) as nat);
    }
}

/// A number in decimal is made of digits.
pub proof fn lemma_decimal_digits(n: nat)
    ensures
        forall|i: int| 0 <= i < decimal(n).len() ==> '0' <= #[trigger] decimal(n)[i] <= '9',
    decreases n,
{
    assert forall|i: int| 0 <= i < decimal(n).len() implies '0' <= #[trigger] decimal(n)[i]
        <= '9' by {
        if n >= 10 {
            lemma_decimal_digits(n / 10);
            let front = decimal(n / 10);
            if i < front.len() {
                assert(decimal(n)[i] == front[i]);
            } else {
                assert(decimal(n)[i] == digit_char(n % 10));
            }
        } else {
            assert(decimal(n)[i] == digit_char(n));
        }
    }
}

/// The name of a statement can always be written: it holds no zero byte and
/// is short, so that the Describe of a prepare and the Close of a release
/// are always built for it.
pub proof fn lemma_statement_name_is_written(id: usize)
    ensures
        cstr(statement_name_of(id as nat)) is Some,
        describe_frame(STATEMENT, statement_name_of(id as nat)) is Some,
        close_frame(STATEMENT, statement_name_of(id as nat)) is Some,
{
    let name = statement_name_of(id as nat);
    lemma_decimal_digits(id as nat);
    assert(pow10(20) == 100_000_000_000_000_000_000nat) by {
        reveal_with_fuel(pow10, 21);
    }
    lemma_decimal_len(id as nat, 20);
    assert(name.len() <= 21);
    assert forall|i: int| 0 <= i < name.len() implies '\0' < #[trigger] name[i] <= '\u{7f}' by {
        if i > 0 {
            assert(name[i] == decimal(id as nat)[i - 1]);
        }
    }
    assert(is_ascii_chars(name));
    is_ascii_chars_encode_utf8(name);
    let bytes = encode_utf8(name);
    assert forall|i: int| 0 <= i < bytes.len() implies bytes[i] != 0 by {
        assert(name[i] as u8 == bytes[i]);
    }
    assert(!bytes.contains(0u8));
}

fn digit(d: usize) -> (text: &'static str)
    requires
        d < 10,
    ensures
        text@ == seq![digit_char(d as nat)],
{
    proof {
        reveal_strlit("0");
        reveal_strlit("1");
        reveal_strlit("2");
        reveal_strlit("3");
        reveal_strlit("4");
        reveal_strlit("5");
        reveal_strlit("6");
        reveal_strlit("7");
        reveal_strlit("8");
        reveal_strlit("9");
    }
    let text = if d == 0 {
        "0"
    } else if d == 1 {
        "1"
    } else if d == 2 {
        "2"
    } else if d == 3 {
        "3"
    } else if d == 4 {
        "4"
    } else if d == 5 {
        "5"
    } else if d == 6 {
        "6"
    } else if d == 7 {
        "7"
    } else if d == 8 {
        "8"
    } else {
        "9"
    };
    assert(text@ =~= seq![digit_char(d as nat)]);
    text
}

fn push_decimal(text: &mut String, n: usize)
    ensures
        final(text)@ == old(text)@ + decimal(n as nat),
    decreases n,
{
    if n >= 10 {
        push_decimal(text, n / 10);
    }
    text.append(digit(n % 10));
    assert(text@ =~= old(text)@ + decimal(n as nat));
}

/// The name under which the server keeps the statement with a given serial
/// number.
pub fn statement_name(id: usize) -> (name: String)
    ensures
        name@ == statement_name_of(id as nat),
{
    proof {
        reveal_strlit("s");
    }
    let mut name = String::from_str("s");
    push_decimal(&mut name, id);
    assert(name@ =~= statement_name_of(id as nat));
    name
}

/// The name that a prepare sends: empty for an unnamed statement, else the
/// name that goes with the serial number.
pub open spec fn prepared_name(id: Option<usize>) -> Seq<char> {
    match id {
        Some(id) => statement_name_of(id as nat),
        None => Seq::empty(),
    }
}

/// The type that an OID stands for: the built-in type with that OID, or
/// `text` where there is none.
pub open spec fn type_for(oid: Oid) -> Type {
    Type::spec_or_text(builtin_type_oid(oid))
}

/// The type that an OID stands for: the built-in type with that OID. An OID
/// that no built-in type has is no error: it stands for `text`.
pub fn get_type(oid: Oid) -> (t: Type)
    ensures
        t == type_for(oid),
        t.oid == if builtin_type_oid(oid) is Some {
            oid
        } else {
            TEXT_OID
        },
{
    Type::or_text(builtin_oid(oid))
}

/// The types that a list of OIDs stands for.
pub open spec fn types_of(oids: Seq<Oid>) -> Seq<Type> {
    Seq::new(oids.len(), |i: int| type_for(oids[i]))
}

/// The OIDs of a list of types.
pub open spec fn oids_of(types: Seq<Type>) -> Seq<Oid> {
    Seq::new(types.len(), |i: int| types[i].oid)
}

/// The column that a field of a row description describes: a table OID or a
/// column ordinal of zero means that there is none.
pub open spec fn column_of(field: (Seq<char>, Oid, i16, Oid)) -> ColumnView {
    ColumnView {
        name: field.0,
        table_oid: if field.1 != 0 {
            Some(field.1)
        } else {
            None
        },
        column_id: if field.2 != 0 {
            Some(field.2)
        } else {
            None
        },
        type_: type_for(field.3),
    }
}

/// The columns that the fields of a row description describe.
pub open spec fn columns_of(fields: Seq<(Seq<char>, Oid, i16, Oid)>) -> Seq<ColumnView> {
    Seq::new(fields.len(), |i: int| column_of(fields[i]))
}

/// Resolves each OID of a parameter description to its type.
pub fn resolve_types(oids: &Vec<Oid>) -> (types: Vec<Type>)
    ensures
        types@ == types_of(oids@),
        forall|i: int|
            0 <= i < oids@.len() ==> (#[trigger] types@[i]).oid == oids@[i] || types@[i].oid
                == TEXT_OID,
{
    let mut types: Vec<Type> = Vec::new();
    let mut i: usize = 0;
    while i < oids.len()
        invariant
            i <= oids.len(),
            types@.len() == i,
            types@ == types_of(oids@.subrange(0, i as int)),
            forall|k: int|
                0 <= k < i ==> (#[trigger] types@[k]).oid == oids@[k] || types@[k].oid == TEXT_OID,
        decreases oids.len() - i,
    {
        types.push(get_type(oids[i]));
        i += 1;
        assert(types@ =~= types_of(oids@.subrange(0, i as int)));
    }
    assert(oids@.subrange(0, i as int) =~= oids@);
    types
}

/// Builds the column that one field of a row description describes.
pub fn resolve_column(field: &Field) -> (column: Column)
    ensures
        column@ == column_of(field@),
{
    let table_oid = if field.table_oid != 0 {
        Some(field.table_oid)
    } else {
        None
    };
    let column_id = if field.column_id != 0 {
        Some(field.column_id)
    } else {
        None
    };
    Column::new(field.name.clone(), table_oid, column_id, get_type(field.type_oid))
}

/// Builds the columns that the fields of a row description describe.
pub fn resolve_columns(fields: &Vec<Field>) -> (columns: Vec<Column>)
    ensures
        column_views(columns@) == columns_of(fields@.map_values(|f: Field| f@)),
{
    let mut columns: Vec<Column> = Vec::new();
    let mut i: usize = 0;
    while i < fields.len()
        invariant
            i <= fields.len(),
            columns@.len() == i,
            forall|k: int| 0 <= k < i ==> (#[trigger] columns@[k])@ == column_of(fields@[k]@),
        decreases fields.len() - i,
    {
        columns.push(resolve_column(&fields[i]));
        i += 1;
    }
    assert(column_views(columns@) =~= columns_of(fields@.map_values(|f: Field| f@)));
    columns
}

/// What the two descriptions of a statement say together: the types of its
/// parameters and the columns of its result, where both can be read.
pub open spec fn described(
    parameters: Option<Seq<Oid>>,
    fields: Option<Seq<(Seq<char>, Oid, i16, Oid)>>,
) -> Result<(Seq<Type>, Seq<ColumnView>), Error> {
    match (parameters, fields) {
        (Some(oids), Some(fields)) => Ok((types_of(oids), columns_of(fields))),
        _ => Err(Error::Parse),
    }
}

/// The fields of an optional row description: none at all for a statement
/// that returns no rows.
pub open spec fn fields_of(row_description: Option<RowDescriptionBody>) -> Option<
    Seq<(Seq<char>, Oid, i16, Oid)>,
> {
    match row_description {
        Some(body) => row_fields(body),
        None => Some(Seq::empty()),
    }
}

/// Reads the description of a statement's parameters and, where the
/// statement returns rows, the description of its result. A body that cannot
/// be read is a parse error.
pub fn read_descriptions(
    parameter_description: &ParameterDescriptionBody,
    row_description: &Option<RowDescriptionBody>,
) -> (r: Result<(Vec<Type>, Vec<Column>), Error>)
    ensures
        match described(parameter_oids(*parameter_description), fields_of(*row_description)) {
            Ok((types, columns)) => r is Ok && r->Ok_0.0@ == types && column_views(r->Ok_0.1@)
                == columns,
            Err(e) => r == Err::<(Vec<Type>, Vec<Column>), Error>(e),
        },
{
    let types = match read_parameters(parameter_description) {
        Ok(oids) => resolve_types(&oids),
        Err(_) => {
            return Err(Error::Parse);
        },
    };
    let columns = match row_description {
        Some(body) => match read_fields(body) {
            Ok(fields) => resolve_columns(&fields),
            Err(_) => {
                return Err(Error::Parse);
            },
        },
        None => {
            let columns: Vec<Column> = Vec::new();
            assert(column_views(columns@) =~= columns_of(Seq::empty()));
            columns
        },
    };
    Ok((types, columns))
}

/// Builds the request that prepares a statement: Parse with the name, the
/// query and the OIDs of the type hints, Describe for the statement of that
/// name, and Sync, behind whatever the buffer already holds. The buffer is
/// left empty.
pub fn encode(name: &str, query: &str, types: &[Type], buf: &mut BytesMut) -> (r: Result<
    Bytes,
    Error,
>)
    ensures
        buffer_bytes(*final(buf)) == Seq::<u8>::empty(),
        match (parse_frame(name@, query@, oids_of(types@)), describe_frame(STATEMENT, name@)) {
            (Some(parse), Some(describe)) => r is Ok && frozen_bytes(r->Ok_0) == buffer_bytes(
                *old(buf),
            ) + parse + describe + sync_frame(),
            _ => r == Err::<Bytes, Error>(Error::Encode),
        },
{
    let mut oids: Vec<Oid> = Vec::new();
    let mut i: usize = 0;
    while i < types.len()
        invariant
            i <= types.len(),
            oids@ == oids_of(types@.subrange(0, i as int)),
        decreases types.len() - i,
    {
        oids.push(types[i].oid());
        i += 1;
        assert(oids@ =~= oids_of(types@.subrange(0, i as int)));
    }
    assert(types@.subrange(0, i as int) =~= types@);
    match put_parse(name, query, &oids, buf) {
        Ok(()) => {},
        Err(_) => {
            discard(buf);
            return Err(Error::Encode);
        },
    }
    match put_describe(STATEMENT, name, buf) {
        Ok(()) => {},
        Err(_) => {
            discard(buf);
            return Err(Error::Encode);
        },
    }
    put_sync(buf);
    Ok(take(buf))
}

/// The message that a prepare waits for.
pub enum Awaiting {
    ParseComplete,
    ParameterDescription,
    /// RowDescription or NoData; the parameter description is kept until
    /// then.
    RowDescription(ParameterDescriptionBody),
}

/// A prepare in progress, as a mathematical value.
pub struct PrepareView {
    /// The name sent to the server; empty for an unnamed statement.
    pub name: Seq<char>,
    /// The text of the query.
    pub query: Seq<char>,
    /// Whether the statement is to be unnamed.
    pub unnamed: bool,
    /// The message that comes next.
    pub awaiting: Awaiting,
}

/// A prepare in progress: what was asked for and how far the response has
/// been read.
pub struct Prepare {
    name: String,
    query: String,
    unnamed: bool,
    awaiting: Awaiting,
}

impl View for Prepare {
    type V = PrepareView;

    closed spec fn view(&self) -> PrepareView {
        PrepareView {
            name: self.name@,
            query: self.query@,
            unnamed: self.unnamed,
            awaiting: self.awaiting,
        }
    }
}

/// What one message does to a prepare.
pub enum PrepareStep {
    /// More messages are to come.
    Pending(Prepare),
    /// The statement is prepared.
    Done(Statement),
    /// The prepare failed.
    Failed(Error),
}

/// What one message does to a prepare, as a mathematical value.
pub enum PrepareStepView {
    Pending(PrepareView),
    Done(StatementView),
    Failed(Error),
}

impl View for PrepareStep {
    type V = PrepareStepView;

    open spec fn view(&self) -> PrepareStepView {
        match *self {
            PrepareStep::Pending(prepare) => PrepareStepView::Pending(prepare@),
            PrepareStep::Done(statement) => PrepareStepView::Done(statement@),
            PrepareStep::Failed(e) => PrepareStepView::Failed(e),
        }
    }
}

/// The statement that a finished prepare yields: unnamed and keeping its
/// query, or named.
pub open spec fn prepared(prepare: PrepareView, types: Seq<Type>, columns: Seq<ColumnView>) -> StatementView {
    if prepare.unnamed {
        StatementView::Unnamed { query: prepare.query, params: types, columns }
    } else {
        StatementView::Named { name: prepare.name, params: types, columns }
    }
}

/// How a prepare ends once both descriptions are in.
pub open spec fn finished(
    prepare: PrepareView,
    parameters: Option<Seq<Oid>>,
    fields: Option<Seq<(Seq<char>, Oid, i16, Oid)>>,
) -> PrepareStepView {
    match described(parameters, fields) {
        Ok((types, columns)) => PrepareStepView::Done(prepared(prepare, types, columns)),
        Err(e) => PrepareStepView::Failed(e),
    }
}

/// What a message does to a prepare: the three expected messages move it on
/// in their order, and anything else, or an expected message out of its
/// turn, fails it with the tag of that message.
pub open spec fn prepare_next(prepare: PrepareView, message: BackendMessage) -> PrepareStepView {
    match (prepare.awaiting, message) {
        (Awaiting::ParseComplete, BackendMessage::ParseComplete) => PrepareStepView::Pending(
            PrepareView { awaiting: Awaiting::ParameterDescription, ..prepare },
        ),
        (
            Awaiting::ParameterDescription,
            BackendMessage::ParameterDescription(body),
        ) => PrepareStepView::Pending(
            PrepareView { awaiting: Awaiting::RowDescription(body), ..prepare },
        ),
        (Awaiting::RowDescription(parameters), BackendMessage::RowDescription(body)) => finished(
            prepare,
            parameter_oids(parameters),
            row_fields(body),
        ),
        (Awaiting::RowDescription(parameters), BackendMessage::NoData) => finished(
            prepare,
            parameter_oids(parameters),
            Some(Seq::empty()),
        ),
        (_, unexpected) => PrepareStepView::Failed(Error::UnexpectedMessage(unexpected.spec_tag())),
    }
}

impl Prepare {
    /// Takes the next message of the response.
    pub fn advance(self, message: BackendMessage) -> (step: PrepareStep)
        ensures
            step@ == prepare_next(self@, message),
    {
        let Prepare { name, query, unnamed, awaiting } = self;
        match (awaiting, message) {
            (Awaiting::ParseComplete, BackendMessage::ParseComplete) => PrepareStep::Pending(
                Prepare { name, query, unnamed, awaiting: Awaiting::ParameterDescription },
            ),
            (
                Awaiting::ParameterDescription,
                BackendMessage::ParameterDescription(body),
            ) => PrepareStep::Pending(
                Prepare { name, query, unnamed, awaiting: Awaiting::RowDescription(body) },
            ),
            (Awaiting::RowDescription(parameters), BackendMessage::RowDescription(body)) => {
                Prepare::finish(name, query, unnamed, &parameters, &Some(body))
            },
            (Awaiting::RowDescription(parameters), BackendMessage::NoData) => {
                Prepare::finish(name, query, unnamed, &parameters, &None)
            },
            (_, unexpected) => PrepareStep::Failed(Error::UnexpectedMessage(unexpected.tag())),
        }
    }

    fn finish(
        name: String,
        query: String,
        unnamed: bool,
        parameter_description: &ParameterDescriptionBody,
        row_description: &Option<RowDescriptionBody>,
    ) -> (step: PrepareStep)
        ensures
            step@ == finished(
                PrepareView {
                    name: name@,
                    query: query@,
                    unnamed,
                    awaiting: Awaiting::ParseComplete,
                },
                parameter_oids(*parameter_description),
                fields_of(*row_description),
            ),
    {
        match read_descriptions(parameter_description, row_description) {
            Ok((types, columns)) => {
                if unnamed {
                    PrepareStep::Done(Statement::unnamed(query, types, columns))
                } else {
                    PrepareStep::Done(Statement::named(name, types, columns))
                }
            },
            Err(e) => PrepareStep::Failed(e),
        }
    }
}

/// Starts to prepare a statement. `id` is the serial number that names the
/// statement on the server, or `None` for an unnamed statement; `types` may
/// give fewer types than the query has parameters, and the server infers the
/// rest. Returns the request to send and the state that takes the response.
pub fn prepare(query: &str, types: &[Type], id: Option<usize>, buf: &mut BytesMut) -> (r: Result<
    (Bytes, Prepare),
    Error,
>)
    ensures
        buffer_bytes(*final(buf)) == Seq::<u8>::empty(),
        match (
            parse_frame(prepared_name(id), query@, oids_of(types@)),
            describe_frame(STATEMENT, prepared_name(id)),
        ) {
            (Some(parse), Some(describe)) => r is Ok && frozen_bytes(r->Ok_0.0) == buffer_bytes(
                *old(buf),
            ) + parse + describe + sync_frame() && r->Ok_0.1@ == (PrepareView {
                name: prepared_name(id),
                query: query@,
                unnamed: id is None,
                awaiting: Awaiting::ParseComplete,
            }),
            _ => r == Err::<(Bytes, Prepare), Error>(Error::Encode),
        },
{
    let name = match id {
        Some(id) => statement_name(id),
        None => String::new(),
    };
    match encode(name.as_str(), query, types, buf) {
        Ok(request) => Ok(
            (
                request,
                Prepare {
                    name,
                    query: String::from_str(query),
                    unnamed: id.is_none(),
                    awaiting: Awaiting::ParseComplete,
                },
            ),
        ),
        Err(e) => Err(e),
    }
}

/// The three messages of a successful prepare, in their order, end it with
/// a statement that has one parameter type for each OID of the parameter
/// description and one column for each field of the row description, or no
/// column after NoData.
pub proof fn lemma_prepare_in_sequence(
    prepare: PrepareView,
    parameters: ParameterDescriptionBody,
    row_description: Option<RowDescriptionBody>,
)
    requires
        prepare.awaiting is ParseComplete,
        parameter_oids(parameters) is Some,
        fields_of(row_description) is Some,
    ensures
        ({
            let completing = match row_description {
                Some(body) => BackendMessage::RowDescription(body),
                None => BackendMessage::NoData,
            };
            let first = prepare_next(prepare, BackendMessage::ParseComplete);
            let second = prepare_next(
                first->Pending_0,
                BackendMessage::ParameterDescription(parameters),
            );
            let third = prepare_next(second->Pending_0, completing);
            &&& first is Pending
            &&& second is Pending
            &&& third == PrepareStepView::Done(
                prepared(
                    prepare,
                    types_of(parameter_oids(parameters)->0),
                    columns_of(fields_of(row_description)->0),
                ),
            )
            &&& third->Done_0.params().len() == parameter_oids(parameters)->0.len()
            &&& third->Done_0.columns().len() == fields_of(row_description)->0.len()
            &&& row_description is None ==> third->Done_0.columns().len() == 0
        }),
{
}

} // verus!
