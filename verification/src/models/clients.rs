//! Clients: the record, its address and interlocutors, and the resolvers
//! that fetch, list, create and re-address clients.

use vstd::prelude::*;
use crate::errors::ResolverError;
use crate::store::{planned, Checkout, StoreRequest, StoreRequestView};
use crate::timestamp::{clock_reading, Timestamp};

verus! {

/// Where a client resides.
#[derive(Clone, Debug, PartialEq, Eq)]
pub struct Address {
    pub street: String,
    pub street_number: i32,
}

/// An address as the interface receives it.
#[derive(Clone, Debug, PartialEq, Eq)]
pub struct AddressInput {
    pub street: String,
    pub street_number: i32,
}

/// What an address holds.
pub struct AddressView {
    pub street: Seq<char>,
    pub street_number: int,
}

impl View for Address {
    type V = AddressView;

    open spec fn view(&self) -> AddressView {
        AddressView { street: self.street@, street_number: self.street_number as int }
    }
}

impl View for AddressInput {
    type V = AddressView;

    open spec fn view(&self) -> AddressView {
        AddressView { street: self.street@, street_number: self.street_number as int }
    }
}

/// A contact person at a client.
#[derive(Clone, Debug, PartialEq, Eq)]
pub struct Interlocutor {
    pub name: String,
    pub position: String,
}

/// A contact person as the interface receives one.
#[derive(Clone, Debug, PartialEq, Eq)]
pub struct InterlocutorInput {
    pub name: String,
    pub position: String,
}

/// What an interlocutor holds.
pub struct InterlocutorView {
    pub name: Seq<char>,
    pub position: Seq<char>,
}

impl View for Interlocutor {
    type V = InterlocutorView;

    open spec fn view(&self) -> InterlocutorView {
        InterlocutorView { name: self.name@, position: self.position@ }
    }
}

impl View for InterlocutorInput {
    type V = InterlocutorView;

    open spec fn view(&self) -> InterlocutorView {
        InterlocutorView { name: self.name@, position: self.position@ }
    }
}

/// What an optional list holds: the views of its items in their order, or
/// nothing where the list is absent.
pub open spec fn list_view<T: View>(list: Option<Vec<T>>) -> Option<Seq<T::V>> {
    match list {
        Some(items) => Some(items@.map_values(|item: T| item@)),
        None => None,
    }
}

/// A client as the store holds it.
#[derive(Clone, Debug, PartialEq, Eq)]
pub struct Client {
    pub id: i32,
    pub name: String,
    pub address: Address,
    pub interlocutors: Option<Vec<Interlocutor>>,
    pub created_at: Timestamp,
    pub edited_at: Timestamp,
}

/// What a client record holds.
pub struct ClientView {
    pub id: int,
    pub name: Seq<char>,
    pub address: AddressView,
    pub interlocutors: Option<Seq<InterlocutorView>>,
    pub created_at: Timestamp,
    pub edited_at: Timestamp,
}

impl View for Client {
    type V = ClientView;

    open spec fn view(&self) -> ClientView {
        ClientView {
            id: self.id as int,
            name: self.name@,
            address: self.address@,
            interlocutors: list_view(self.interlocutors),
            created_at: self.created_at,
            edited_at: self.edited_at,
        }
    }
}

impl Client {
    pub fn id(&self) -> (id: i32)
        ensures
            id == self.id,
    {
        self.id
    }

    pub fn name(&self) -> (name: &str)
        ensures
            name@ == self.name@,
    {
        self.name.as_str()
    }

    pub fn address(&self) -> (address: &Address)
        ensures
            address == self.address,
    {
        &self.address
    }

    /// The contact persons, or `None` for a client that was stored without
    /// a list of them.
    pub fn interlocutors(&self) -> (list: Option<&Vec<Interlocutor>>)
        ensures
            match list {
                Some(items) => self.interlocutors == Some(*items),
                None => self.interlocutors.is_none(),
            },
    {
        self.interlocutors.as_ref()
    }

    /// When the client was created, as the interface shows it.
    pub fn created_at(&self) -> (text: String)
        ensures
            text@ == self.created_at.display_text(),
    {
        self.created_at.display()
    }

    /// When the client was last edited, as the interface shows it.
    pub fn edited_at(&self) -> (text: String)
        ensures
            text@ == self.edited_at.display_text(),
    {
        self.edited_at.display()
    }
}

/// A client that is about to be stored: everything but the id.
#[derive(Clone, Debug, PartialEq, Eq)]
pub struct NewClient {
    pub name: String,
    pub address: AddressInput,
    pub interlocutors: Option<Vec<InterlocutorInput>>,
    pub created_at: Timestamp,
    pub edited_at: Timestamp,
}

/// What a client that is about to be stored holds.
pub struct NewClientView {
    pub name: Seq<char>,
    pub address: AddressView,
    pub interlocutors: Option<Seq<InterlocutorView>>,
    pub created_at: Timestamp,
    pub edited_at: Timestamp,
}

impl View for NewClient {
    type V = NewClientView;

    open spec fn view(&self) -> NewClientView {
        NewClientView {
            name: self.name@,
            address: self.address@,
            interlocutors: list_view(self.interlocutors),
            created_at: self.created_at,
            edited_at: self.edited_at,
        }
    }
}

impl NewClientView {
    /// The record that the store holds once it has inserted this row under
    /// the id `id`.
    pub open spec fn stored(self, id: int) -> ClientView {
        ClientView {
            id,
            name: self.name,
            address: self.address,
            interlocutors: self.interlocutors,
            created_at: self.created_at,
            edited_at: self.edited_at,
        }
    }
}

impl ClientView {
    /// The record after an address update: the new address, every other
    /// column as it was.
    pub open spec fn readdressed(self, address: AddressView) -> ClientView {
        ClientView { address, ..self }
    }
}

/// What the interface receives to create a client. The address is required
/// though the input type leaves it open; the interlocutors are optional.
#[derive(Clone, Debug, PartialEq, Eq)]
pub struct ClientInput {
    pub name: String,
    pub address: Option<AddressInput>,
    pub interlocutors: Option<Vec<InterlocutorInput>>,
}

/// What a client input holds.
pub struct ClientInputView {
    pub name: Seq<char>,
    pub address: Option<AddressView>,
    pub interlocutors: Option<Seq<InterlocutorView>>,
}

impl View for ClientInput {
    type V = ClientInputView;

    open spec fn view(&self) -> ClientInputView {
        ClientInputView {
            name: self.name@,
            address: match self.address {
                Some(address) => Some(address@),
                None => None,
            },
            interlocutors: list_view(self.interlocutors),
        }
    }
}

/// The number of clients on one page of the listing.
pub const PAGE_SIZE: i64 = 10;

/// The resolvers that read clients.
pub struct ClientQuery;

impl ClientQuery {
    /// What `fetch` decides.
    pub open spec fn fetching(checkout: Checkout, client_id: int) -> Result<
        StoreRequestView,
        ResolverError,
    > {
        match checkout {
            Checkout::TimedOut => Err(ResolverError::PoolExhausted),
            Checkout::Acquired => Ok(StoreRequestView::FindClient { id: client_id }),
        }
    }

    /// Fetch a client: asks the store for the client with this id, unless no
    /// connection could be had.
    pub fn fetch(checkout: Checkout, client_id: i32) -> (out: Result<StoreRequest, ResolverError>)
        ensures
            planned(out) == Self::fetching(checkout, client_id as int),
    {
        match checkout {
            Checkout::TimedOut => Err(ResolverError::PoolExhausted),
            Checkout::Acquired => Ok(StoreRequest::FindClient { id: client_id }),
        }
    }

    /// What `fetch_all` decides.
    pub open spec fn listing(checkout: Checkout, offset: int) -> Result<
        StoreRequestView,
        ResolverError,
    > {
        match checkout {
            Checkout::TimedOut => Err(ResolverError::PoolExhausted),
            Checkout::Acquired => Ok(
                StoreRequestView::ListClients { offset, limit: PAGE_SIZE as int },
            ),
        }
    }

    /// Fetch a page of clients: asks the store for the `PAGE_SIZE` clients
    /// that follow the first `offset`, unless no connection could be had.
    pub fn fetch_all(checkout: Checkout, offset: i32) -> (out: Result<StoreRequest, ResolverError>)
        ensures
            planned(out) == Self::listing(checkout, offset as int),
    {
        match checkout {
            Checkout::TimedOut => Err(ResolverError::PoolExhausted),
            Checkout::Acquired => Ok(
                StoreRequest::ListClients { offset: offset as i64, limit: PAGE_SIZE },
            ),
        }
    }
}

/// The resolvers that write clients.
pub struct ClientMutation;

impl ClientMutation {
    /// What creating a client at the moment `now` decides: the pool comes
    /// first, then the address, which must be there; the row takes name,
    /// address and interlocutors as they were given, an absent list staying
    /// absent, and `now` as both of its timestamps.
    pub open spec fn creation(checkout: Checkout, input: ClientInputView, now: Timestamp) -> Result<
        StoreRequestView,
        ResolverError,
    > {
        match checkout {
            Checkout::TimedOut => Err(ResolverError::PoolExhausted),
            Checkout::Acquired => match input.address {
                None => Err(ResolverError::MissingField { field: "address" }),
                Some(address) => Ok(
                    StoreRequestView::InsertClient {
                        client: NewClientView {
                            name: input.name,
                            address,
                            interlocutors: input.interlocutors,
                            created_at: now,
                            edited_at: now,
                        },
                    },
                ),
            },
        }
    }

    /// Creates a client as of the moment `now`.
    pub fn create_at(checkout: Checkout, input: ClientInput, now: Timestamp) -> (out: Result<
        StoreRequest,
        ResolverError,
    >)
        ensures
            planned(out) == Self::creation(checkout, input@, now),
    {
        match checkout {
            Checkout::TimedOut => Err(ResolverError::PoolExhausted),
            Checkout::Acquired => match input.address {
                None => Err(ResolverError::MissingField { field: "address" }),
                Some(address) => Ok(
                    StoreRequest::InsertClient {
                        client: NewClient {
                            name: input.name,
                            address,
                            interlocutors: input.interlocutors,
                            created_at: now,
                            edited_at: now,
                        },
                    },
                ),
            },
        }
    }

    /// Create a new client, stamped with the current time: what `create_at`
    /// decides for the moment at which the clock is read. The clock is read
    /// only once a connection is had and the address is there.
    pub fn create(checkout: Checkout, input: ClientInput) -> (out: Result<
        StoreRequest,
        ResolverError,
    >)
        ensures
            exists|now: Timestamp| planned(out) == Self::creation(checkout, input@, now),
    {
        match checkout {
            Checkout::TimedOut => {
                assert(Self::creation(checkout, input@, arbitrary()) is Err);
                Err(ResolverError::PoolExhausted)
            },
            Checkout::Acquired => if input.address.is_none() {
                assert(Self::creation(checkout, input@, arbitrary()) is Err);
                Err(ResolverError::MissingField { field: "address" })
            } else {
                let now = clock_reading();
                Self::create_at(checkout, input, now)
            },
        }
    }

    /// What `update_address` decides.
    pub open spec fn readdressing(checkout: Checkout, client_id: int, address: AddressView) -> Result<
        StoreRequestView,
        ResolverError,
    > {
        match checkout {
            Checkout::TimedOut => Err(ResolverError::PoolExhausted),
            Checkout::Acquired => Ok(
                StoreRequestView::UpdateClientAddress { id: client_id, address },
            ),
        }
    }

    /// Gives a client a new address: asks the store to replace the address
    /// of the client with this id, and nothing else.
    pub fn update_address(checkout: Checkout, client_id: i32, address: AddressInput) -> (out:
        Result<StoreRequest, ResolverError>)
        ensures
            planned(out) == Self::readdressing(checkout, client_id as int, address@),
    {
        match checkout {
            Checkout::TimedOut => Err(ResolverError::PoolExhausted),
            Checkout::Acquired => Ok(StoreRequest::UpdateClientAddress { id: client_id, address }),
        }
    }
}

} // verus!
