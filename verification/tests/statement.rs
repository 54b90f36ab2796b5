use bytes::BytesMut;
use pg_extended_query::message::BackendMessage;
use pg_extended_query::statement::Column;
use pg_extended_query::statement::Statement;
use pg_extended_query::types::Format;
use pg_extended_query::types::Type;
use postgres_protocol::message::backend;

fn sample_columns() -> Vec<Column> {
    vec![
        Column::new("id".to_string(), Some(16384), Some(1), Type { oid: 23 }),
        Column::new("note".to_string(), None, None, Type { oid: 25 }),
    ]
}

#[test]
fn column_accessors_give_back_what_went_in() {
    let column = Column::new("id".to_string(), Some(16384), Some(1), Type { oid: 23 });
    assert_eq!(column.name(), "id");
    assert_eq!(column.table_oid(), Some(16384));
    assert_eq!(column.column_id(), Some(1));
    assert_eq!(column.type_(), &Type { oid: 23 });
    let column = Column::new(String::new(), None, None, Type::text());
    assert_eq!(column.name(), "");
    assert_eq!(column.table_oid(), None);
    assert_eq!(column.column_id(), None);
    assert_eq!(column.type_().oid(), 25);
}

#[test]
fn named_statement_has_a_name_and_no_query() {
    let statement = Statement::named("s5".to_string(), vec![Type { oid: 23 }], sample_columns());
    assert_eq!(statement.name(), "s5");
    assert_eq!(statement.query(), None);
    assert_eq!(statement.params(), &[Type { oid: 23 }]);
    assert_eq!(statement.columns().len(), 2);
    assert_eq!(statement.columns()[0].name(), "id");
    assert_eq!(statement.columns()[1].name(), "note");
}

#[test]
fn unnamed_statement_has_a_query_and_an_empty_name() {
    let statement = Statement::unnamed("SELECT 1".to_string(), vec![], sample_columns());
    assert_eq!(statement.name(), "");
    assert_eq!(statement.query(), Some("SELECT 1"));
    assert!(statement.params().is_empty());
    assert_eq!(statement.columns().len(), 2);
}

#[test]
fn a_clone_is_the_same_statement() {
    let statement = Statement::named("s6".to_string(), vec![Type { oid: 20 }, Type { oid: 25 }], sample_columns());
    let shared = statement.clone();
    assert_eq!(shared.name(), "s6");
    assert_eq!(shared.params(), statement.params());
    assert_eq!(shared.columns().len(), 2);
    assert_eq!(shared.columns()[0].table_oid(), Some(16384));
    assert!(std::ptr::eq(shared.params().as_ptr(), statement.params().as_ptr()));
}

#[test]
fn dropping_a_named_statement_sends_one_close() {
    let statement = Statement::named("s7".to_string(), vec![], vec![]);
    let mut buf = BytesMut::new();
    let request = statement.close_request(true, &mut buf).unwrap();
    assert_eq!(&request[..], &[b'C', 0, 0, 0, 8, b'S', b's', b'7', 0, b'S', 0, 0, 0, 4]);
    assert_eq!(request.iter().filter(|b| **b == b'C').count(), 1);
    assert!(buf.is_empty());
}

#[test]
fn dropping_an_unnamed_statement_sends_nothing() {
    let statement = Statement::unnamed("SELECT 1".to_string(), vec![], vec![]);
    let mut buf = BytesMut::from(&b"kept"[..]);
    assert!(statement.close_request(true, &mut buf).is_none());
    assert!(statement.close_request(false, &mut buf).is_none());
    assert_eq!(&buf[..], b"kept");
}

#[test]
fn dropping_a_statement_without_its_connection_sends_nothing() {
    let statement = Statement::named("s8".to_string(), vec![], vec![]);
    let mut buf = BytesMut::from(&b"kept"[..]);
    assert!(statement.close_request(false, &mut buf).is_none());
    assert_eq!(&buf[..], b"kept");
}

#[test]
fn a_close_that_cannot_be_built_is_given_up() {
    let statement = Statement::named("s\09".to_string(), vec![], vec![]);
    let mut buf = BytesMut::new();
    assert!(statement.close_request(true, &mut buf).is_none());
    assert!(buf.is_empty());
}

#[test]
fn close_request_goes_behind_what_the_buffer_holds() {
    let statement = Statement::named("s1".to_string(), vec![], vec![]);
    let mut buf = BytesMut::from(&b"ab"[..]);
    let request = statement.close_request(true, &mut buf).unwrap();
    assert_eq!(&request[..], &[b'a', b'b', b'C', 0, 0, 0, 8, b'S', b's', b'1', 0, b'S', 0, 0, 0, 4]);
}

#[test]
fn message_tags_are_those_of_the_protocol() {
    assert_eq!(BackendMessage::ParseComplete.tag(), backend::PARSE_COMPLETE_TAG);
    assert_eq!(BackendMessage::BindComplete.tag(), backend::BIND_COMPLETE_TAG);
    assert_eq!(BackendMessage::NoData.tag(), backend::NO_DATA_TAG);
    assert_eq!(BackendMessage::EmptyQueryResponse.tag(), backend::EMPTY_QUERY_RESPONSE_TAG);
    assert_eq!(BackendMessage::PortalSuspended.tag(), backend::PORTAL_SUSPENDED_TAG);
    assert_eq!(BackendMessage::ReadyForQuery(b'I').tag(), backend::READY_FOR_QUERY_TAG);
    assert_eq!(BackendMessage::Other(b'E').tag(), backend::ERROR_RESPONSE_TAG);
    assert_eq!(BackendMessage::Other(0).tag(), 0);
    assert_eq!(pg_extended_query::message::PARAMETER_DESCRIPTION_TAG, backend::PARAMETER_DESCRIPTION_TAG);
    assert_eq!(pg_extended_query::message::ROW_DESCRIPTION_TAG, backend::ROW_DESCRIPTION_TAG);
    assert_eq!(pg_extended_query::message::DATA_ROW_TAG, backend::DATA_ROW_TAG);
    assert_eq!(pg_extended_query::message::COMMAND_COMPLETE_TAG, backend::COMMAND_COMPLETE_TAG);
}

#[test]
fn format_codes_are_those_of_the_protocol() {
    assert_eq!(Format::Text.code(), 0);
    assert_eq!(Format::Binary.code(), 1);
    assert_eq!(Format::Text.code(), postgres_types::Format::Text as i16);
    assert_eq!(Format::Binary.code(), postgres_types::Format::Binary as i16);
}
