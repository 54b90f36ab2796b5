//! Prepared statements and the columns of their results.

use crate::types::Type;
use crate::wire::buffer_bytes;
use crate::wire::close_frame;
use crate::wire::discard;
use crate::wire::frozen_bytes;
use crate::wire::sync_frame;
use crate::wire::take;
use crate::wire::put_close;
use crate::wire::put_sync;
use crate::wire::STATEMENT;
use bytes::Bytes;
use bytes::BytesMut;
use std::sync::Arc;
use vstd::prelude::*;

verus! {

/// `Arc::clone`: another handle to the same value.
#[verifier::external_body]
fn share(shared: &Arc<StatementInner>) -> (r: Arc<StatementInner>)
    ensures
        r == *shared,
{
    Arc::clone(shared)
}

/// A column of a query's result, as a mathematical value.
pub struct ColumnView {
    pub name: Seq<char>,
    pub table_oid: Option<u32>,
    pub column_id: Option<i16>,
    pub type_: Type,
}

/// Information about a column of a query.
#[derive(Debug, Clone)]
pub struct Column {
    name: String,
    table_oid: Option<u32>,
    column_id: Option<i16>,
    type_: Type,
}

impl View for Column {
    type V = ColumnView;

    closed spec fn view(&self) -> ColumnView {
        ColumnView {
            name: self.name@,
            table_oid: self.table_oid,
            column_id: self.column_id,
            type_: self.type_,
        }
    }
}

impl Column {
    /// A column with the given name, owning table, ordinal in that table and
    /// type.
    pub fn new(name: String, table_oid: Option<u32>, column_id: Option<i16>, type_: Type) -> (c:
        Column)
        ensures
            c@ == (ColumnView { name: name@, table_oid, column_id, type_ }),
    {
        Column { name, table_oid, column_id, type_ }
    }

    /// Returns the name of the column.
    pub fn name(&self) -> (name: &str)
        ensures
            name@ == self@.name,
    {
        self.name.as_str()
    }

    /// Returns the OID of the underlying database table.
    pub fn table_oid(&self) -> (oid: Option<u32>)
        ensures
            oid == self@.table_oid,
    {
        self.table_oid
    }

    /// Return the column ID within the underlying database table.
    pub fn column_id(&self) -> (id: Option<i16>)
        ensures
            id == self@.column_id,
    {
        self.column_id
    }

    /// Returns the type of the column.
    pub fn type_(&self) -> (type_: &Type)
        ensures
            *type_ == self@.type_,
    {
        &self.type_
    }
}

/// The columns of a statement as mathematical values.
pub open spec fn column_views(columns: Seq<Column>) -> Seq<ColumnView> {
    columns.map_values(|c: Column| c@)
}

/// A prepared statement as a mathematical value.
pub enum StatementView {
    /// A statement without a name on the server, which keeps the text of its
    /// query instead.
    Unnamed { query: Seq<char>, params: Seq<Type>, columns: Seq<ColumnView> },
    /// A statement that the server knows by name.
    Named { name: Seq<char>, params: Seq<Type>, columns: Seq<ColumnView> },
}

impl StatementView {
    /// The types of the parameters.
    pub open spec fn params(self) -> Seq<Type> {
        match self {
            StatementView::Unnamed { params, .. } => params,
            StatementView::Named { params, .. } => params,
        }
    }

    /// The columns of the result.
    pub open spec fn columns(self) -> Seq<ColumnView> {
        match self {
            StatementView::Unnamed { columns, .. } => columns,
            StatementView::Named { columns, .. } => columns,
        }
    }

    /// The name on the server: empty for an unnamed statement.
    pub open spec fn name(self) -> Seq<char> {
        match self {
            StatementView::Unnamed { .. } => Seq::empty(),
            StatementView::Named { name, .. } => name,
        }
    }
}

/// Whether letting go of a statement asks the server to close it: only a
/// named statement does, and only while its connection is still there.
pub open spec fn closes(statement: StatementView, connected: bool) -> bool {
    statement is Named && connected
}

/// The frames that go out when the last owner lets go of a statement: one
/// Close for the statement and one Sync, or nothing.
pub open spec fn release(statement: StatementView, connected: bool) -> Option<Seq<u8>> {
    if closes(statement, connected) {
        match close_frame(STATEMENT, statement.name()) {
            Some(close) => Some(close + sync_frame()),
            None => None,
        }
    } else {
        None
    }
}

/// An unnamed statement never asks for anything; a named one asks for
/// nothing once its connection is gone; and a named one on a live
/// connection asks for exactly one Close, followed by one Sync, wherever the
/// codec can write its name.
pub proof fn lemma_release(statement: StatementView, connected: bool)
    ensures
        statement is Unnamed ==> release(statement, connected) is None,
        !connected ==> release(statement, connected) is None,
        statement is Named && connected ==> release(statement, connected) == match close_frame(
            STATEMENT,
            statement->Named_name,
        ) {
            Some(close) => Some(close + sync_frame()),
            None => None::<Seq<u8>>,
        },
{
}

#[derive(Debug)]
enum StatementInner {
    Unnamed { query: String, params: Vec<Type>, columns: Vec<Column> },
    Named { name: String, params: Vec<Type>, columns: Vec<Column> },
}

/// A prepared statement.
///
/// Prepared statements can only be used with the connection that created
/// them. A statement is immutable and shared by cloning.
#[derive(Debug)]
pub struct Statement(Arc<StatementInner>);

impl View for Statement {
    type V = StatementView;

    closed spec fn view(&self) -> StatementView {
        match *self.0 {
            StatementInner::Unnamed { query, params, columns } => StatementView::Unnamed {
                query: query@,
                params: params@,
                columns: column_views(columns@),
            },
            StatementInner::Named { name, params, columns } => StatementView::Named {
                name: name@,
                params: params@,
                columns: column_views(columns@),
            },
        }
    }
}

impl Clone for Statement {
    /// Another handle to the same statement.
    fn clone(&self) -> (r: Statement)
        ensures
            r@ == self@,
    {
        Statement(share(&self.0))
    }
}

impl Statement {
    /// A statement that the server knows under `name`.
    pub fn named(name: String, params: Vec<Type>, columns: Vec<Column>) -> (s: Statement)
        ensures
            s@ == (StatementView::Named {
                name: name@,
                params: params@,
                columns: column_views(columns@),
            }),
    {
        Statement(Arc::new(StatementInner::Named { name, params, columns }))
    }

    /// A statement without a name on the server, which keeps the text of its
    /// query.
    pub fn unnamed(query: String, params: Vec<Type>, columns: Vec<Column>) -> (s: Statement)
        ensures
            s@ == (StatementView::Unnamed {
                query: query@,
                params: params@,
                columns: column_views(columns@),
            }),
    {
        Statement(Arc::new(StatementInner::Unnamed { query, params, columns }))
    }

    /// The name of the statement on the server; empty for an unnamed one.
    pub fn name(&self) -> (name: &str)
        ensures
            name@ == self@.name(),
    {
        match &*self.0 {
            StatementInner::Unnamed { .. } => {
                proof {
                    reveal_strlit("");
                }
                ""
            },
            StatementInner::Named { name, .. } => name.as_str(),
        }
    }

    /// The text of the query, which only an unnamed statement keeps.
    pub fn query(&self) -> (query: Option<&str>)
        ensures
            match self@ {
                StatementView::Unnamed { query: text, .. } => query is Some && query->0@ == text,
                StatementView::Named { .. } => query is None,
            },
    {
        match &*self.0 {
            StatementInner::Unnamed { query, .. } => Some(query.as_str()),
            StatementInner::Named { .. } => None,
        }
    }

    /// The request that releases the statement on the server once its last
    /// owner lets go of it: Close for the statement and Sync, behind whatever
    /// the buffer already holds. Only a named statement has anything to
    /// release, and only while its connection is still there; a request that
    /// cannot be built is given up without a trace. No response is waited
    /// for.
    pub fn close_request(&self, connected: bool, buf: &mut BytesMut) -> (request: Option<Bytes>)
        ensures
            match release(self@, connected) {
                Some(frames) => request is Some && frozen_bytes(request->0) == buffer_bytes(
                    *old(buf),
                ) + frames && buffer_bytes(*final(buf)) == Seq::<u8>::empty(),
                None => request is None && (if closes(self@, connected) {
                    buffer_bytes(*final(buf)) == Seq::<u8>::empty()
                } else {
                    buffer_bytes(*final(buf)) == buffer_bytes(*old(buf))
                }),
            },
    {
        match &*self.0 {
            StatementInner::Named { name, .. } => {
                if connected {
                    match put_close(STATEMENT, name.as_str(), buf) {
                        Ok(()) => {
                            put_sync(buf);
                            Some(take(buf))
                        },
                        Err(_) => {
                            discard(buf);
                            None
                        },
                    }
                } else {
                    None
                }
            },
            StatementInner::Unnamed { .. } => None,
        }
    }

    /// Returns the expected types of the statement's parameters.
    pub fn params(&self) -> (params: &[Type])
        ensures
            params@ == self@.params(),
    {
        match &*self.0 {
            StatementInner::Unnamed { params, .. } => params.as_slice(),
            StatementInner::Named { params, .. } => params.as_slice(),
        }
    }

    /// Returns information about the columns returned when the statement is
    /// queried.
    pub fn columns(&self) -> (columns: &[Column])
        ensures
            column_views(columns@) == self@.columns(),
    {
        match &*self.0 {
            StatementInner::Unnamed { columns, .. } => columns.as_slice(),
            StatementInner::Named { columns, .. } => columns.as_slice(),
        }
    }
}

} // verus!
