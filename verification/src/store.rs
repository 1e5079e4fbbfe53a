//! What a resolver and the relational store say to each other.

use vstd::prelude::*;
use crate::errors::ResolverError;
use crate::models::clients::{AddressInput, AddressView, NewClient, NewClientView};
use crate::models::users::{NewUser, NewUserView};
use crate::models::worksites::{NewWorksite, NewWorksiteView};

verus! {

/// How the attempt to borrow a connection from the pool ended.
#[derive(Clone, Copy, Debug, PartialEq, Eq, Structural)]
pub enum Checkout {
    /// A connection was handed out within the pool's bounded wait.
    Acquired,
    /// The wait elapsed without a free connection.
    TimedOut,
}

/// Why the store did not carry out an operation.
#[derive(Clone, Copy, Debug, PartialEq, Eq, Structural)]
pub enum StoreFault {
    /// No row has the requested key.
    NotFound,
    /// The row refers to a parent row that does not exist.
    ForeignKeyViolation,
    /// The row repeats a value that must be unique.
    UniqueViolation,
    /// Anything else: a broken connection, a statement timeout, a row that
    /// cannot be decoded.
    Other,
}

/// The one operation that a resolver asks the store to run.
#[derive(Clone, Debug, PartialEq, Eq)]
pub enum StoreRequest {
    /// The user with this id.
    FindUser { id: i32 },
    /// The first user with this name.
    FindUserByName { name: String },
    /// The first `limit` authorization levels.
    ListAuthorizations { limit: i64 },
    /// The authorization levels with this id, at most `limit` of them.
    FindAuthorizations { id: i32, limit: i64 },
    /// A new user; the store assigns the id.
    InsertUser { user: NewUser },
    /// The client with this id.
    FindClient { id: i32 },
    /// The clients in the order of their ids, leaving out the first `offset`
    /// and giving at most `limit`.
    ListClients { offset: i64, limit: i64 },
    /// A new client; the store assigns the id.
    InsertClient { client: NewClient },
    /// A new address for the client with this id, every other column kept.
    UpdateClientAddress { id: i32, address: AddressInput },
    /// The worksite with this id.
    FindWorksite { id: i32 },
    /// A new worksite; the store assigns the id.
    InsertWorksite { worksite: NewWorksite },
}

/// What a store request holds.
pub enum StoreRequestView {
    FindUser { id: int },
    FindUserByName { name: Seq<char> },
    ListAuthorizations { limit: int },
    FindAuthorizations { id: int, limit: int },
    InsertUser { user: NewUserView },
    FindClient { id: int },
    ListClients { offset: int, limit: int },
    InsertClient { client: NewClientView },
    UpdateClientAddress { id: int, address: AddressView },
    FindWorksite { id: int },
    InsertWorksite { worksite: NewWorksiteView },
}

impl View for StoreRequest {
    type V = StoreRequestView;

    open spec fn view(&self) -> StoreRequestView {
        match *self {
            StoreRequest::FindUser { id } => StoreRequestView::FindUser { id: id as int },
            StoreRequest::FindUserByName { name } => StoreRequestView::FindUserByName {
                name: name@,
            },
            StoreRequest::ListAuthorizations { limit } => StoreRequestView::ListAuthorizations {
                limit: limit as int,
            },
            StoreRequest::FindAuthorizations { id, limit } => {
                StoreRequestView::FindAuthorizations { id: id as int, limit: limit as int }
            },
            StoreRequest::InsertUser { user } => StoreRequestView::InsertUser { user: user@ },
            StoreRequest::FindClient { id } => StoreRequestView::FindClient { id: id as int },
            StoreRequest::ListClients { offset, limit } => StoreRequestView::ListClients {
                offset: offset as int,
                limit: limit as int,
            },
            StoreRequest::InsertClient { client } => StoreRequestView::InsertClient {
                client: client@,
            },
            StoreRequest::UpdateClientAddress { id, address } => {
                StoreRequestView::UpdateClientAddress { id: id as int, address: address@ }
            },
            StoreRequest::FindWorksite { id } => StoreRequestView::FindWorksite { id: id as int },
            StoreRequest::InsertWorksite { worksite } => StoreRequestView::InsertWorksite {
                worksite: worksite@,
            },
        }
    }
}

/// What a resolver decided before the store was asked: the request by what
/// it holds, or the failure.
pub open spec fn planned(out: Result<StoreRequest, ResolverError>) -> Result<
    StoreRequestView,
    ResolverError,
> {
    match out {
        Ok(request) => Ok(request@),
        Err(error) => Err(error),
    }
}

/// The rows that a listing selects from a table held in the order of its
/// ids: those from position `offset` on, at most `limit` of them.
pub open spec fn page_of<T>(table: Seq<T>, offset: int, limit: int) -> Seq<T>
    recommends
        0 <= offset,
        0 <= limit,
{
    let first = if offset < table.len() { offset } else { table.len() as int };
    let end = if offset + limit < table.len() { offset + limit } else { table.len() as int };
    table.subrange(first, end)
}

} // verus!
