//! The backend messages that the extended-query protocol is made of.

use postgres_protocol::message::backend::CommandCompleteBody;
use postgres_protocol::message::backend::DataRowBody;
use postgres_protocol::message::backend::ParameterDescriptionBody;
use postgres_protocol::message::backend::RowDescriptionBody;
use vstd::prelude::*;

verus! {

/// The tag byte of ParseComplete, `1`.
pub const PARSE_COMPLETE_TAG: u8 = 0x31;

/// The tag byte of BindComplete, `2`.
pub const BIND_COMPLETE_TAG: u8 = 0x32;

/// The tag byte of ParameterDescription, `t`.
pub const PARAMETER_DESCRIPTION_TAG: u8 = 0x74;

/// The tag byte of RowDescription, `T`.
pub const ROW_DESCRIPTION_TAG: u8 = 0x54;

/// The tag byte of NoData, `n`.
pub const NO_DATA_TAG: u8 = 0x6e;

/// The tag byte of DataRow, `D`.
pub const DATA_ROW_TAG: u8 = 0x44;

/// The tag byte of CommandComplete, `C`.
pub const COMMAND_COMPLETE_TAG: u8 = 0x43;

/// The tag byte of EmptyQueryResponse, `I`.
pub const EMPTY_QUERY_RESPONSE_TAG: u8 = 0x49;

/// The tag byte of PortalSuspended, `s`.
pub const PORTAL_SUSPENDED_TAG: u8 = 0x73;

/// The tag byte of ReadyForQuery, `Z`.
pub const READY_FOR_QUERY_TAG: u8 = 0x5a;

/// One message from the backend, as far as this engine tells messages apart.
///
/// The bodies that may turn out malformed are kept as received and read only
/// when their content is needed.
pub enum BackendMessage {
    ParseComplete,
    BindComplete,
    ParameterDescription(ParameterDescriptionBody),
    RowDescription(RowDescriptionBody),
    NoData,
    DataRow(DataRowBody),
    CommandComplete(CommandCompleteBody),
    EmptyQueryResponse,
    PortalSuspended,
    /// The end of a response, with the transaction status of the connection.
    ReadyForQuery(u8),
    /// Any message that no step of the protocol handled here expects, by its
    /// tag byte.
    Other(u8),
}

impl BackendMessage {
    /// The tag byte under which the message travels.
    pub open spec fn spec_tag(&self) -> u8 {
        match *self {
            BackendMessage::ParseComplete => PARSE_COMPLETE_TAG,
            BackendMessage::BindComplete => BIND_COMPLETE_TAG,
            BackendMessage::ParameterDescription(_) => PARAMETER_DESCRIPTION_TAG,
            BackendMessage::RowDescription(_) => ROW_DESCRIPTION_TAG,
            BackendMessage::NoData => NO_DATA_TAG,
            BackendMessage::DataRow(_) => DATA_ROW_TAG,
            BackendMessage::CommandComplete(_) => COMMAND_COMPLETE_TAG,
            BackendMessage::EmptyQueryResponse => EMPTY_QUERY_RESPONSE_TAG,
            BackendMessage::PortalSuspended => PORTAL_SUSPENDED_TAG,
            BackendMessage::ReadyForQuery(_) => READY_FOR_QUERY_TAG,
            BackendMessage::Other(tag) => tag,
        }
    }

    /// The tag byte under which the message travels.
    #[verifier::when_used_as_spec(spec_tag)]
    pub fn tag(&self) -> (tag: u8)
        ensures
            tag == self.spec_tag(),
    {
        match self {
            BackendMessage::ParseComplete => PARSE_COMPLETE_TAG,
            BackendMessage::BindComplete => BIND_COMPLETE_TAG,
            BackendMessage::ParameterDescription(_) => PARAMETER_DESCRIPTION_TAG,
            BackendMessage::RowDescription(_) => ROW_DESCRIPTION_TAG,
            BackendMessage::NoData => NO_DATA_TAG,
            BackendMessage::DataRow(_) => DATA_ROW_TAG,
            BackendMessage::CommandComplete(_) => COMMAND_COMPLETE_TAG,
            BackendMessage::EmptyQueryResponse => EMPTY_QUERY_RESPONSE_TAG,
            BackendMessage::PortalSuspended => PORTAL_SUSPENDED_TAG,
            BackendMessage::ReadyForQuery(_) => READY_FOR_QUERY_TAG,
            BackendMessage::Other(tag) => *tag,
        }
    }
}

} // verus!
