//! The two roots of the interface: what can be asked and what can be
//! changed.

use vstd::prelude::*;
use crate::errors::ResolverError;
use crate::models::clients::{ClientMutation, ClientQuery};
use crate::models::users::{UserMutation, UserQuery};
use crate::models::worksites::{
    CreateNewWorksite, CreateNewWorksiteView, NewWorksite, NewWorksiteView, WorksiteContent,
};
use crate::store::{planned, Checkout, StoreRequest, StoreRequestView};
use crate::timestamp::{clock_reading, Timestamp};

verus! {

/// Query root.
pub struct Query;

impl Query {
    pub fn users(&self) -> UserQuery {
        UserQuery
    }

    pub fn clients(&self) -> ClientQuery {
        ClientQuery
    }

    /// What `worksite` decides.
    pub open spec fn fetching(checkout: Checkout, worksite_id: int) -> Result<
        StoreRequestView,
        ResolverError,
    > {
        match checkout {
            Checkout::TimedOut => Err(ResolverError::PoolExhausted),
            Checkout::Acquired => Ok(StoreRequestView::FindWorksite { id: worksite_id }),
        }
    }

    /// Fetch a worksite: asks the store for the worksite with this id, unless
    /// no connection could be had.
    pub fn worksite(checkout: Checkout, worksite_id: i32) -> (out: Result<
        StoreRequest,
        ResolverError,
    >)
        ensures
            planned(out) == Self::fetching(checkout, worksite_id as int),
    {
        match checkout {
            Checkout::TimedOut => Err(ResolverError::PoolExhausted),
            Checkout::Acquired => Ok(StoreRequest::FindWorksite { id: worksite_id }),
        }
    }
}

/// Mutation root.
pub struct Mutation;

impl Mutation {
    pub fn users(&self) -> UserMutation {
        UserMutation
    }

    pub fn clients(&self) -> ClientMutation {
        ClientMutation
    }

    /// What creating a worksite at the moment `now` decides: the pool comes
    /// first, then the survey document, which must be there; the row takes
    /// the client's id and the document as given and `now` as both of its
    /// timestamps.
    pub open spec fn creation(
        checkout: Checkout,
        input: CreateNewWorksiteView,
        now: Timestamp,
    ) -> Result<StoreRequestView, ResolverError> {
        match checkout {
            Checkout::TimedOut => Err(ResolverError::PoolExhausted),
            Checkout::Acquired => match input.worksite {
                None => Err(ResolverError::MissingField { field: "worksite" }),
                Some(content) => Ok(
                    StoreRequestView::InsertWorksite {
                        worksite: NewWorksiteView {
                            client_id: input.client_id,
                            worksite: content,
                            created_at: now,
                            edited_at: now,
                        },
                    },
                ),
            },
        }
    }

    /// Creates a worksite as of the moment `now`.
    pub fn create_worksite_at(checkout: Checkout, input: CreateNewWorksite, now: Timestamp) -> (out:
        Result<StoreRequest, ResolverError>)
        ensures
            planned(out) == Self::creation(checkout, input@, now),
    {
        match checkout {
            Checkout::TimedOut => Err(ResolverError::PoolExhausted),
            Checkout::Acquired => match input.worksite {
                None => Err(ResolverError::MissingField { field: "worksite" }),
                Some(content) => Ok(
                    StoreRequest::InsertWorksite {
                        worksite: NewWorksite {
                            client_id: input.client_id,
                            worksite: WorksiteContent::from(content),
                            created_at: now,
                            edited_at: now,
                        },
                    },
                ),
            },
        }
    }

    /// Create a new worksite associated with a client id, stamped with the
    /// current time: what `create_worksite_at` decides for the moment at
    /// which the clock is read. The clock is read only once a connection is
    /// had and the survey document is there.
    pub fn create_worksite(checkout: Checkout, input: CreateNewWorksite) -> (out: Result<
        StoreRequest,
        ResolverError,
    >)
        ensures
            exists|now: Timestamp| planned(out) == Self::creation(checkout, input@, now),
    {
        match checkout {
            Checkout::TimedOut => {
                assert(Self::creation(checkout, input@, arbitrary()) is Err);
                Err(ResolverError::PoolExhausted)
            },
            Checkout::Acquired => if input.worksite.is_none() {
                assert(Self::creation(checkout, input@, arbitrary()) is Err);
                Err(ResolverError::MissingField { field: "worksite" })
            } else {
                let now = clock_reading();
                Self::create_worksite_at(checkout, input, now)
            },
        }
    }
}

} // verus!
