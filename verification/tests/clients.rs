use survey_backend::errors::ResolverError;
use survey_backend::models::clients::{
    Address, AddressInput, Client, ClientInput, ClientMutation, ClientQuery, Interlocutor,
    InterlocutorInput, NewClient, PAGE_SIZE,
};
use survey_backend::store::{Checkout, StoreRequest};
use survey_backend::timestamp::Timestamp;

fn rue_verte() -> AddressInput {
    AddressInput { street: String::from("rue Verte"), street_number: 12 }
}

fn moment() -> Timestamp {
    Timestamp::new(1_600_000_000, 5).unwrap()
}

#[test]
fn create_without_interlocutors_keeps_them_absent() {
    let input = ClientInput {
        name: String::from("Dupont SA"),
        address: Some(rue_verte()),
        interlocutors: None,
    };
    let out = ClientMutation::create_at(Checkout::Acquired, input, moment());
    assert_eq!(
        out,
        Ok(StoreRequest::InsertClient {
            client: NewClient {
                name: String::from("Dupont SA"),
                address: rue_verte(),
                interlocutors: None,
                created_at: moment(),
                edited_at: moment(),
            },
        })
    );
}

#[test]
fn create_keeps_interlocutors_in_their_order() {
    let people = vec![
        InterlocutorInput { name: String::from("Anne"), position: String::from("director") },
        InterlocutorInput { name: String::from("Bruno"), position: String::from("site manager") },
    ];
    let input = ClientInput {
        name: String::from("Dupont SA"),
        address: Some(rue_verte()),
        interlocutors: Some(people.clone()),
    };
    match ClientMutation::create_at(Checkout::Acquired, input, moment()) {
        Ok(StoreRequest::InsertClient { client }) => {
            assert_eq!(client.interlocutors, Some(people));
            assert_eq!(client.name, "Dupont SA");
            assert_eq!(client.address, rue_verte());
        },
        other => panic!("unexpected outcome: {:?}", other),
    }
}

#[test]
fn create_with_empty_list_keeps_the_empty_list() {
    let input = ClientInput {
        name: String::from("Dupont SA"),
        address: Some(rue_verte()),
        interlocutors: Some(vec![]),
    };
    match ClientMutation::create_at(Checkout::Acquired, input, moment()) {
        Ok(StoreRequest::InsertClient { client }) => {
            assert_eq!(client.interlocutors, Some(vec![]));
        },
        other => panic!("unexpected outcome: {:?}", other),
    }
}

#[test]
fn create_without_address_names_the_missing_field() {
    let input = ClientInput { name: String::from("Dupont SA"), address: None, interlocutors: None };
    assert_eq!(
        ClientMutation::create_at(Checkout::Acquired, input, moment()),
        Err(ResolverError::MissingField { field: "address" })
    );
}

#[test]
fn exhausted_pool_comes_before_the_missing_field() {
    let input = ClientInput { name: String::from("Dupont SA"), address: None, interlocutors: None };
    assert_eq!(
        ClientMutation::create_at(Checkout::TimedOut, input, moment()),
        Err(ResolverError::PoolExhausted)
    );
    let complete = ClientInput {
        name: String::from("Dupont SA"),
        address: Some(rue_verte()),
        interlocutors: None,
    };
    assert_eq!(
        ClientMutation::create_at(Checkout::TimedOut, complete, moment()),
        Err(ResolverError::PoolExhausted)
    );
}

#[test]
fn create_stamps_both_timestamps_with_one_reading() {
    let input = ClientInput {
        name: String::from("Dupont SA"),
        address: Some(rue_verte()),
        interlocutors: None,
    };
    match ClientMutation::create(Checkout::Acquired, input) {
        Ok(StoreRequest::InsertClient { client }) => {
            assert_eq!(client.created_at, client.edited_at);
            assert!(client.created_at.secs() > 1_600_000_000);
            assert!(client.created_at.nanos() < 2_000_000_000);
            assert_eq!(client.name, "Dupont SA");
            assert_eq!(client.address, rue_verte());
            assert_eq!(client.interlocutors, None);
        },
        other => panic!("unexpected outcome: {:?}", other),
    }
}

#[test]
fn create_reports_missing_address_and_exhausted_pool() {
    let input = ClientInput { name: String::from("Dupont SA"), address: None, interlocutors: None };
    assert_eq!(
        ClientMutation::create(Checkout::Acquired, input.clone()),
        Err(ResolverError::MissingField { field: "address" })
    );
    assert_eq!(ClientMutation::create(Checkout::TimedOut, input), Err(ResolverError::PoolExhausted));
}

#[test]
fn fetch_asks_for_the_client_by_id() {
    assert_eq!(ClientQuery::fetch(Checkout::Acquired, 42), Ok(StoreRequest::FindClient { id: 42 }));
    assert_eq!(ClientQuery::fetch(Checkout::Acquired, -1), Ok(StoreRequest::FindClient { id: -1 }));
    assert_eq!(ClientQuery::fetch(Checkout::TimedOut, 42), Err(ResolverError::PoolExhausted));
}

#[test]
fn fetch_all_asks_for_pages_of_ten() {
    assert_eq!(PAGE_SIZE, 10);
    assert_eq!(
        ClientQuery::fetch_all(Checkout::Acquired, 0),
        Ok(StoreRequest::ListClients { offset: 0, limit: 10 })
    );
    assert_eq!(
        ClientQuery::fetch_all(Checkout::Acquired, 10),
        Ok(StoreRequest::ListClients { offset: 10, limit: 10 })
    );
    assert_eq!(
        ClientQuery::fetch_all(Checkout::Acquired, i32::MAX),
        Ok(StoreRequest::ListClients { offset: 2_147_483_647, limit: 10 })
    );
    assert_eq!(
        ClientQuery::fetch_all(Checkout::Acquired, -3),
        Ok(StoreRequest::ListClients { offset: -3, limit: 10 })
    );
    assert_eq!(ClientQuery::fetch_all(Checkout::TimedOut, 0), Err(ResolverError::PoolExhausted));
}

fn window(ids: &[i32], request: StoreRequest) -> Vec<i32> {
    match request {
        StoreRequest::ListClients { offset, limit } => {
            ids.iter().skip(offset as usize).take(limit as usize).copied().collect()
        },
        other => panic!("not a listing: {:?}", other),
    }
}

#[test]
fn consecutive_pages_follow_without_overlap() {
    let ids: Vec<i32> = (1..=23).collect();
    let first = window(&ids, ClientQuery::fetch_all(Checkout::Acquired, 0).unwrap());
    let second = window(&ids, ClientQuery::fetch_all(Checkout::Acquired, 10).unwrap());
    let third = window(&ids, ClientQuery::fetch_all(Checkout::Acquired, 20).unwrap());
    assert_eq!(first, (1..=10).collect::<Vec<i32>>());
    assert_eq!(second, (11..=20).collect::<Vec<i32>>());
    assert_eq!(third, vec![21, 22, 23]);
    assert!(first.iter().all(|id| !second.contains(id)));
    assert!(second.iter().all(|id| !third.contains(id)));
}

#[test]
fn update_address_asks_for_the_address_alone() {
    assert_eq!(
        ClientMutation::update_address(Checkout::Acquired, 7, rue_verte()),
        Ok(StoreRequest::UpdateClientAddress { id: 7, address: rue_verte() })
    );
    assert_eq!(
        ClientMutation::update_address(Checkout::TimedOut, 7, rue_verte()),
        Err(ResolverError::PoolExhausted)
    );
}

fn stored_client(interlocutors: Option<Vec<Interlocutor>>) -> Client {
    Client {
        id: 3,
        name: String::from("Dupont SA"),
        address: Address { street: String::from("rue Verte"), street_number: 12 },
        interlocutors,
        created_at: moment(),
        edited_at: Timestamp::new(1_600_000_060, 0).unwrap(),
    }
}

#[test]
fn client_getters_give_the_fields() {
    let people = vec![Interlocutor { name: String::from("Anne"), position: String::from("director") }];
    let client = stored_client(Some(people.clone()));
    assert_eq!(client.id(), 3);
    assert_eq!(client.name(), "Dupont SA");
    assert_eq!(client.address().street, "rue Verte");
    assert_eq!(client.address().street_number, 12);
    assert_eq!(client.interlocutors(), Some(&people));
    assert_eq!(client.created_at(), "13-09-2020 26:40:000000005");
    assert_eq!(client.edited_at(), "13-09-2020 27:40:000000000");
}

#[test]
fn client_without_interlocutors_shows_none() {
    let client = stored_client(None);
    assert_eq!(client.interlocutors(), None);
    let empty = stored_client(Some(vec![]));
    assert_eq!(empty.interlocutors(), Some(&vec![]));
}
