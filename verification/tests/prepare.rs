use bytes::BytesMut;
use pg_extended_query::error::Error;
use pg_extended_query::message::BackendMessage;
use pg_extended_query::prepare::encode;
use pg_extended_query::prepare::get_type;
use pg_extended_query::prepare::prepare;
use pg_extended_query::prepare::read_descriptions;
use pg_extended_query::prepare::resolve_column;
use pg_extended_query::prepare::resolve_columns;
use pg_extended_query::prepare::resolve_types;
use pg_extended_query::prepare::statement_name;
use pg_extended_query::prepare::Prepare;
use pg_extended_query::prepare::PrepareStep;
use pg_extended_query::statement::Statement;
use pg_extended_query::types::Type;
use pg_extended_query::types::TEXT_OID;
use pg_extended_query::wire::Field;
use postgres_protocol::message::backend::Message;

fn frame(tag: u8, body: &[u8]) -> Vec<u8> {
    let mut out = vec![tag];
    out.extend_from_slice(&((body.len() + 4) as u32).to_be_bytes());
    out.extend_from_slice(body);
    out
}

fn receive(tag: u8, body: &[u8]) -> BackendMessage {
    let mut buf = BytesMut::from(&frame(tag, body)[..]);
    match Message::parse(&mut buf).unwrap().unwrap() {
        Message::ParseComplete => BackendMessage::ParseComplete,
        Message::BindComplete => BackendMessage::BindComplete,
        Message::ParameterDescription(body) => BackendMessage::ParameterDescription(body),
        Message::RowDescription(body) => BackendMessage::RowDescription(body),
        Message::NoData => BackendMessage::NoData,
        Message::DataRow(body) => BackendMessage::DataRow(body),
        Message::CommandComplete(body) => BackendMessage::CommandComplete(body),
        Message::EmptyQueryResponse => BackendMessage::EmptyQueryResponse,
        Message::PortalSuspended => BackendMessage::PortalSuspended,
        Message::ReadyForQuery(body) => BackendMessage::ReadyForQuery(body.status()),
        _ => BackendMessage::Other(tag),
    }
}

fn parameter_description(oids: &[u32]) -> Vec<u8> {
    let mut body = (oids.len() as u16).to_be_bytes().to_vec();
    for oid in oids {
        body.extend_from_slice(&oid.to_be_bytes());
    }
    body
}

fn field(name: &str, table_oid: u32, column_id: i16, type_oid: u32) -> Vec<u8> {
    let mut out = name.as_bytes().to_vec();
    out.push(0);
    out.extend_from_slice(&table_oid.to_be_bytes());
    out.extend_from_slice(&column_id.to_be_bytes());
    out.extend_from_slice(&type_oid.to_be_bytes());
    out.extend_from_slice(&4i16.to_be_bytes());
    out.extend_from_slice(&(-1i32).to_be_bytes());
    out.extend_from_slice(&0i16.to_be_bytes());
    out
}

fn row_description(fields: &[Vec<u8>]) -> Vec<u8> {
    let mut body = (fields.len() as u16).to_be_bytes().to_vec();
    for f in fields {
        body.extend_from_slice(f);
    }
    body
}

fn start_prepare(query: &str, id: Option<usize>) -> Prepare {
    let mut buf = BytesMut::new();
    let (_, state) = prepare(query, &[], id, &mut buf).unwrap();
    state
}

fn pending(step: PrepareStep) -> Prepare {
    match step {
        PrepareStep::Pending(state) => state,
        _ => panic!("the prepare should go on"),
    }
}

fn done(step: PrepareStep) -> Statement {
    match step {
        PrepareStep::Done(statement) => statement,
        _ => panic!("the prepare should be done"),
    }
}

fn failed(step: PrepareStep) -> Error {
    match step {
        PrepareStep::Failed(e) => e,
        _ => panic!("the prepare should fail"),
    }
}

#[test]
fn statement_names_are_s_and_the_number() {
    assert_eq!(statement_name(0), "s0");
    assert_eq!(statement_name(7), "s7");
    assert_eq!(statement_name(10), "s10");
    assert_eq!(statement_name(42), "s42");
    assert_eq!(statement_name(1009), "s1009");
    assert_eq!(statement_name(usize::MAX), format!("s{}", usize::MAX));
}

#[test]
fn statement_names_of_different_numbers_differ() {
    let names: Vec<String> = (0..2000).map(statement_name).collect();
    for i in 0..names.len() {
        assert_eq!(names[i], format!("s{}", i));
        for j in 0..i {
            assert_ne!(names[i], names[j]);
        }
    }
}

#[test]
fn get_type_finds_builtin_types() {
    assert_eq!(get_type(23), Type { oid: 23 });
    assert_eq!(get_type(16).oid(), postgres_types::Type::BOOL.oid());
    assert_eq!(get_type(25).oid(), postgres_types::Type::TEXT.oid());
    assert_eq!(get_type(1043).oid(), postgres_types::Type::VARCHAR.oid());
}

#[test]
fn get_type_falls_back_to_text() {
    assert_eq!(TEXT_OID, postgres_types::Type::TEXT.oid());
    assert_eq!(get_type(0), Type::text());
    assert_eq!(get_type(999_999).oid(), TEXT_OID);
    assert_eq!(get_type(u32::MAX).oid(), 25);
}

#[test]
fn get_type_keeps_the_oid_of_every_builtin_type() {
    let mut found = 0;
    for oid in 0..20_000u32 {
        let type_ = get_type(oid);
        match postgres_types::Type::from_oid(oid) {
            Some(builtin) => {
                found += 1;
                assert_eq!(builtin.oid(), oid);
                assert_eq!(type_.oid(), oid);
            }
            None => assert_eq!(type_.oid(), 25),
        }
    }
    assert!(found > 100);
}

#[test]
fn or_text_keeps_what_was_found() {
    assert_eq!(Type::or_text(Some(23)).oid(), 23);
    assert_eq!(Type::or_text(None).oid(), 25);
}

#[test]
fn resolve_types_resolves_each_oid() {
    let types = resolve_types(&vec![23, 999_999, 25, 20]);
    assert_eq!(types, vec![Type { oid: 23 }, Type { oid: 25 }, Type { oid: 25 }, Type { oid: 20 }]);
    assert!(resolve_types(&vec![]).is_empty());
}

#[test]
fn resolve_column_drops_zero_table_and_ordinal() {
    let with = resolve_column(&Field { name: "id".to_string(), table_oid: 16384, column_id: 1, type_oid: 23 });
    assert_eq!(with.name(), "id");
    assert_eq!(with.table_oid(), Some(16384));
    assert_eq!(with.column_id(), Some(1));
    assert_eq!(with.type_().oid(), 23);
    let without = resolve_column(&Field { name: "?column?".to_string(), table_oid: 0, column_id: 0, type_oid: 777_777 });
    assert_eq!(without.name(), "?column?");
    assert_eq!(without.table_oid(), None);
    assert_eq!(without.column_id(), None);
    assert_eq!(without.type_().oid(), 25);
    let negative = resolve_column(&Field { name: "n".to_string(), table_oid: 1, column_id: -3, type_oid: 20 });
    assert_eq!(negative.column_id(), Some(-3));
}

#[test]
fn resolve_columns_keeps_the_order() {
    let columns = resolve_columns(&vec![
        Field { name: "a".to_string(), table_oid: 1, column_id: 2, type_oid: 23 },
        Field { name: "b".to_string(), table_oid: 0, column_id: 0, type_oid: 25 },
    ]);
    assert_eq!(columns.len(), 2);
    assert_eq!(columns[0].name(), "a");
    assert_eq!(columns[1].name(), "b");
    assert_eq!(columns[0].table_oid(), Some(1));
    assert_eq!(columns[1].table_oid(), None);
}

#[test]
fn encode_builds_parse_describe_sync() {
    let mut buf = BytesMut::new();
    let request = encode("s0", "SELECT 1", &[], &mut buf).unwrap();
    let mut expected = frame(b'P', b"s0\0SELECT 1\0\0\0");
    expected.extend_from_slice(&frame(b'D', b"Ss0\0"));
    expected.extend_from_slice(&[b'S', 0, 0, 0, 4]);
    assert_eq!(&request[..], &expected[..]);
    assert_eq!(&request[..5], &[b'P', 0, 0, 0, 18]);
    assert!(buf.is_empty());
}

#[test]
fn encode_sends_the_type_hints_as_oids() {
    let mut buf = BytesMut::new();
    let request = encode("", "SELECT $1, $2", &[Type { oid: 23 }, Type { oid: 25 }], &mut buf).unwrap();
    let mut expected = frame(b'P', b"\0SELECT $1, $2\0\0\x02\0\0\0\x17\0\0\0\x19");
    expected.extend_from_slice(&frame(b'D', b"S\0"));
    expected.extend_from_slice(&[b'S', 0, 0, 0, 4]);
    assert_eq!(&request[..], &expected[..]);
}

#[test]
fn encode_goes_behind_what_the_buffer_holds() {
    let mut buf = BytesMut::from(&b"xy"[..]);
    let request = encode("s1", "", &[], &mut buf).unwrap();
    assert_eq!(&request[..2], b"xy");
    assert_eq!(request[2], b'P');
    assert!(buf.is_empty());
}

#[test]
fn encode_refuses_a_nul_in_the_query() {
    let mut buf = BytesMut::new();
    assert_eq!(encode("s0", "SELECT\0", &[], &mut buf).unwrap_err(), Error::Encode);
    assert!(buf.is_empty());
    assert_eq!(encode("s\00", "SELECT 1", &[], &mut buf).unwrap_err(), Error::Encode);
    assert!(buf.is_empty());
}

#[test]
fn prepare_names_the_statement_by_its_number() {
    let mut buf = BytesMut::new();
    let (request, _) = prepare("SELECT 1", &[], Some(12), &mut buf).unwrap();
    let mut expected = frame(b'P', b"s12\0SELECT 1\0\0\0");
    expected.extend_from_slice(&frame(b'D', b"Ss12\0"));
    expected.extend_from_slice(&[b'S', 0, 0, 0, 4]);
    assert_eq!(&request[..], &expected[..]);
    let (request, _) = prepare("SELECT 1", &[], None, &mut buf).unwrap();
    let mut expected = frame(b'P', b"\0SELECT 1\0\0\0");
    expected.extend_from_slice(&frame(b'D', b"S\0"));
    expected.extend_from_slice(&[b'S', 0, 0, 0, 4]);
    assert_eq!(&request[..], &expected[..]);
}

#[test]
fn prepare_fails_where_the_request_cannot_be_built() {
    let mut buf = BytesMut::new();
    assert!(matches!(prepare("a\0b", &[], Some(1), &mut buf), Err(Error::Encode)));
    assert!(buf.is_empty());
}

#[test]
fn prepare_select_with_one_parameter_and_one_column() {
    let state = start_prepare("SELECT $1::int4", Some(3));
    let state = pending(state.advance(receive(b'1', b"")));
    let state = pending(state.advance(receive(b't', &parameter_description(&[23]))));
    let statement = done(state.advance(receive(b'T', &row_description(&[field("int4", 0, 0, 23)]))));
    assert_eq!(statement.params().len(), 1);
    assert_eq!(statement.columns().len(), 1);
    assert_eq!(statement.params()[0].oid(), 23);
    assert_eq!(statement.columns()[0].name(), "int4");
    assert_eq!(statement.columns()[0].table_oid(), None);
    assert_eq!(statement.columns()[0].column_id(), None);
    assert_eq!(statement.columns()[0].type_().oid(), 23);
    assert_eq!(statement.name(), "s3");
    assert_eq!(statement.query(), None);
}

#[test]
fn prepare_update_has_no_columns() {
    let state = start_prepare("UPDATE t SET x=1", Some(4));
    let state = pending(state.advance(receive(b'1', b"")));
    let state = pending(state.advance(receive(b't', &parameter_description(&[]))));
    let statement = done(state.advance(receive(b'n', b"")));
    assert_eq!(statement.params().len(), 0);
    assert_eq!(statement.columns().len(), 0);
    assert_eq!(statement.name(), "s4");
}

#[test]
fn prepare_unnamed_keeps_the_query() {
    let state = start_prepare("SELECT now()", None);
    let state = pending(state.advance(receive(b'1', b"")));
    let state = pending(state.advance(receive(b't', &parameter_description(&[]))));
    let statement = done(state.advance(receive(b'T', &row_description(&[field("now", 0, 0, 1184)]))));
    assert_eq!(statement.name(), "");
    assert_eq!(statement.query(), Some("SELECT now()"));
    assert_eq!(statement.columns()[0].type_().oid(), 1184);
}

#[test]
fn prepare_resolves_unknown_oids_to_text() {
    let state = start_prepare("SELECT $1", Some(5));
    let state = pending(state.advance(receive(b'1', b"")));
    let state = pending(state.advance(receive(b't', &parameter_description(&[999_999, 20]))));
    let fields = [field("a", 16400, 2, 888_888), field("b", 16400, 3, 16)];
    let statement = done(state.advance(receive(b'T', &row_description(&fields))));
    assert_eq!(statement.params()[0].oid(), 25);
    assert_eq!(statement.params()[1].oid(), 20);
    assert_eq!(statement.columns()[0].type_().oid(), 25);
    assert_eq!(statement.columns()[0].table_oid(), Some(16400));
    assert_eq!(statement.columns()[0].column_id(), Some(2));
    assert_eq!(statement.columns()[1].type_().oid(), 16);
    assert_eq!(statement.columns()[1].column_id(), Some(3));
}

#[test]
fn prepare_fails_on_a_message_out_of_sequence() {
    let state = start_prepare("SELECT 1", Some(6));
    assert_eq!(failed(state.advance(receive(b'2', b""))), Error::UnexpectedMessage(b'2'));
    let state = start_prepare("SELECT 1", Some(6));
    assert_eq!(failed(state.advance(receive(b'E', b"\0"))), Error::UnexpectedMessage(b'E'));
    let state = start_prepare("SELECT 1", Some(6));
    let state = pending(state.advance(receive(b'1', b"")));
    assert_eq!(failed(state.advance(receive(b'1', b""))), Error::UnexpectedMessage(b'1'));
    let state = start_prepare("SELECT 1", Some(6));
    let state = pending(state.advance(receive(b'1', b"")));
    let state = pending(state.advance(receive(b't', &parameter_description(&[]))));
    assert_eq!(failed(state.advance(receive(b'Z', b"I"))), Error::UnexpectedMessage(b'Z'));
    let state = start_prepare("SELECT 1", Some(6));
    let state = pending(state.advance(receive(b'1', b"")));
    assert_eq!(failed(state.advance(receive(b'n', b""))), Error::UnexpectedMessage(b'n'));
}

#[test]
fn prepare_fails_on_a_garbled_parameter_description() {
    let state = start_prepare("SELECT 1", Some(7));
    let state = pending(state.advance(receive(b'1', b"")));
    let state = pending(state.advance(receive(b't', &[0, 2, 0, 0, 0, 23])));
    assert_eq!(failed(state.advance(receive(b'n', b""))), Error::Parse);
}

#[test]
fn prepare_fails_on_a_garbled_row_description() {
    let state = start_prepare("SELECT 1", Some(8));
    let state = pending(state.advance(receive(b'1', b"")));
    let state = pending(state.advance(receive(b't', &parameter_description(&[23]))));
    assert_eq!(failed(state.advance(receive(b'T', &[0, 1, b'a', 0, 0, 0]))), Error::Parse);
}

#[test]
fn read_descriptions_reads_both_bodies() {
    let parameters = match receive(b't', &parameter_description(&[23, 25])) {
        BackendMessage::ParameterDescription(body) => body,
        _ => panic!("a parameter description"),
    };
    let rows = match receive(b'T', &row_description(&[field("x", 5, 6, 20)])) {
        BackendMessage::RowDescription(body) => body,
        _ => panic!("a row description"),
    };
    let (types, columns) = read_descriptions(&parameters, &Some(rows)).unwrap();
    assert_eq!(types, vec![Type { oid: 23 }, Type { oid: 25 }]);
    assert_eq!(columns.len(), 1);
    assert_eq!(columns[0].name(), "x");
    assert_eq!(columns[0].table_oid(), Some(5));
    assert_eq!(columns[0].column_id(), Some(6));
    let (types, columns) = read_descriptions(&parameters, &None).unwrap();
    assert_eq!(types.len(), 2);
    assert!(columns.is_empty());
}

#[test]
fn encode_takes_as_many_type_hints_as_sixteen_bits_count() {
    let mut buf = BytesMut::new();
    let hints: Vec<Type> = (0..65535).map(|_| Type { oid: 0x01020304 }).collect();
    let request = encode("", "", &hints, &mut buf).unwrap();
    assert_eq!(request.len(), 1 + 4 + 2 + 2 + 4 * 65535 + 7 + 5);
    assert_eq!(&request[..13], &[b'P', 0, 4, 0, 4, 0, 0, 0xff, 0xff, 1, 2, 3, 4]);
    let hints: Vec<Type> = (0..65536).map(|_| Type { oid: 23 }).collect();
    assert_eq!(encode("", "", &hints, &mut buf).unwrap_err(), Error::Encode);
    assert!(buf.is_empty());
}

#[test]
fn names_of_prepared_statements_can_always_be_closed() {
    for id in [0, 1, 9, 10, 99, 12345, usize::MAX] {
        let statement = Statement::named(statement_name(id), vec![], vec![]);
        let mut buf = BytesMut::new();
        let request = statement.close_request(true, &mut buf).unwrap();
        let mut body = vec![b'S'];
        body.extend_from_slice(format!("s{}", id).as_bytes());
        body.push(0);
        let mut expected = frame(b'C', &body);
        expected.extend_from_slice(&[b'S', 0, 0, 0, 4]);
        assert_eq!(&request[..], &expected[..]);
    }
}
