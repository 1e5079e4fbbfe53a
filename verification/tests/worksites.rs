use survey_backend::errors::{settle, ResolverError};
use survey_backend::graphql::{Mutation, Query};
use survey_backend::models::worksites::{
    Asbestos, CreateAsbestos, CreateLead, CreateNewWorksite, CreateWorksiteContent,
    CreateWorksiteInformation, Lead, NewWorksite, Worksite, WorksiteContent, WorksiteInformation,
};
use survey_backend::store::{Checkout, StoreFault, StoreRequest};
use survey_backend::timestamp::Timestamp;

fn moment() -> Timestamp {
    Timestamp::new(1_600_000_000, 5).unwrap()
}

fn lead_input(number: i32) -> CreateLead {
    CreateLead {
        number,
        localization: String::from("ground floor"),
        area: String::from("kitchen"),
        number_ud: 2,
        diagnostic_unity: String::from("window"),
        substrate: String::from("wood"),
        exposed_coating: String::from("paint"),
        measure_localization: String::from("frame"),
        measure: 14,
        incertitude: 1,
        result: String::from("positive"),
    }
}

fn lead(number: i32) -> Lead {
    Lead {
        number,
        localization: String::from("ground floor"),
        area: String::from("kitchen"),
        number_ud: 2,
        diagnostic_unity: String::from("window"),
        substrate: String::from("wood"),
        exposed_coating: String::from("paint"),
        measure_localization: String::from("frame"),
        measure: 14,
        incertitude: 1,
        result: String::from("positive"),
    }
}

fn asbestos_input(unit: i32) -> CreateAsbestos {
    CreateAsbestos {
        unit,
        area: String::from("cellar"),
        equipments: String::from("boiler"),
        localization: String::from("north wall"),
        surveyed_element: String::from("pipe lagging"),
        materials_description: String::from("fibrous sleeve"),
        sampling: String::from("P-3"),
        date_of_sampling: String::from("2020-09-13"),
        fcr_result: String::from("chrysotile"),
        conservation_state: String::from("degraded"),
        equipment_volume: String::from("2 m3"),
        material_volume: String::from("0.1 m3"),
        picture_id: 77,
    }
}

fn asbestos(unit: i32) -> Asbestos {
    Asbestos {
        unit,
        area: String::from("cellar"),
        equipments: String::from("boiler"),
        localization: String::from("north wall"),
        surveyed_element: String::from("pipe lagging"),
        materials_description: String::from("fibrous sleeve"),
        sampling: String::from("P-3"),
        date_of_sampling: String::from("2020-09-13"),
        fcr_result: String::from("chrysotile"),
        conservation_state: String::from("degraded"),
        equipment_volume: String::from("2 m3"),
        material_volume: String::from("0.1 m3"),
        picture_id: 77,
    }
}

fn full_input() -> CreateWorksiteContent {
    CreateWorksiteContent {
        worksite_information: Some(CreateWorksiteInformation { folder_number: String::from("F-2020-17") }),
        leads: Some(vec![lead_input(1), lead_input(2), lead_input(3)]),
        asbestos: Some(vec![asbestos_input(5), asbestos_input(4)]),
    }
}

fn full_content() -> WorksiteContent {
    WorksiteContent {
        worksite_information: Some(WorksiteInformation { folder_number: String::from("F-2020-17") }),
        leads: Some(vec![lead(1), lead(2), lead(3)]),
        asbestos: Some(vec![asbestos(5), asbestos(4)]),
    }
}

#[test]
fn content_is_taken_over_field_by_field() {
    assert_eq!(WorksiteContent::from(full_input()), full_content());
}

#[test]
fn absent_sections_stay_absent() {
    let empty = CreateWorksiteContent { worksite_information: None, leads: None, asbestos: None };
    assert_eq!(
        WorksiteContent::from(empty),
        WorksiteContent { worksite_information: None, leads: None, asbestos: None }
    );
}

#[test]
fn empty_lists_stay_empty_lists() {
    let input =
        CreateWorksiteContent { worksite_information: None, leads: Some(vec![]), asbestos: Some(vec![]) };
    let content: WorksiteContent = input.into();
    assert_eq!(content.leads, Some(vec![]));
    assert_eq!(content.asbestos, Some(vec![]));
    assert_eq!(content.worksite_information, None);
}

#[test]
fn entries_and_identification_convert_alone() {
    assert_eq!(Lead::from(lead_input(8)), lead(8));
    assert_eq!(Asbestos::from(asbestos_input(8)), asbestos(8));
    let information =
        WorksiteInformation::from(CreateWorksiteInformation { folder_number: String::from("F-1") });
    assert_eq!(information.folder_number(), "F-1");
}

#[test]
fn content_getters_give_the_sections() {
    let content = full_content();
    assert_eq!(content.worksite_information().map(|info| info.folder_number()), Some("F-2020-17"));
    assert_eq!(content.leads().map(|list| list.len()), Some(3));
    assert_eq!(content.asbestos().map(|list| list[0].unit), Some(5));
    let empty = WorksiteContent { worksite_information: None, leads: None, asbestos: None };
    assert!(empty.worksite_information().is_none());
    assert!(empty.leads().is_none());
    assert!(empty.asbestos().is_none());
}

#[test]
fn create_worksite_builds_the_row() {
    let input = CreateNewWorksite { client_id: 3, worksite: Some(full_input()) };
    assert_eq!(
        Mutation::create_worksite_at(Checkout::Acquired, input, moment()),
        Ok(StoreRequest::InsertWorksite {
            worksite: NewWorksite {
                client_id: 3,
                worksite: full_content(),
                created_at: moment(),
                edited_at: moment(),
            },
        })
    );
}

#[test]
fn create_worksite_without_content_names_the_missing_field() {
    let input = CreateNewWorksite { client_id: 3, worksite: None };
    assert_eq!(
        Mutation::create_worksite_at(Checkout::Acquired, input.clone(), moment()),
        Err(ResolverError::MissingField { field: "worksite" })
    );
    assert_eq!(
        Mutation::create_worksite_at(Checkout::TimedOut, input.clone(), moment()),
        Err(ResolverError::PoolExhausted)
    );
    assert_eq!(
        Mutation::create_worksite(Checkout::Acquired, input),
        Err(ResolverError::MissingField { field: "worksite" })
    );
}

#[test]
fn create_worksite_stamps_both_timestamps_with_one_reading() {
    let input = CreateNewWorksite { client_id: 3, worksite: Some(full_input()) };
    match Mutation::create_worksite(Checkout::Acquired, input) {
        Ok(StoreRequest::InsertWorksite { worksite }) => {
            assert_eq!(worksite.created_at, worksite.edited_at);
            assert!(worksite.created_at.secs() > 1_600_000_000);
            assert_eq!(worksite.client_id, 3);
            assert_eq!(worksite.worksite, full_content());
        },
        other => panic!("unexpected outcome: {:?}", other),
    }
}

#[test]
fn worksite_for_unknown_client_is_a_constraint_violation() {
    let clients: Vec<i32> = vec![1, 2];
    let input = CreateNewWorksite { client_id: 99, worksite: Some(full_input()) };
    let row = match Mutation::create_worksite_at(Checkout::Acquired, input, moment()) {
        Ok(StoreRequest::InsertWorksite { worksite }) => worksite,
        other => panic!("unexpected outcome: {:?}", other),
    };
    let answer: Result<Worksite, StoreFault> = if clients.contains(&row.client_id) {
        panic!("the client should be unknown")
    } else {
        Err(StoreFault::ForeignKeyViolation)
    };
    assert_eq!(settle(answer), Err(ResolverError::ConstraintViolation));
}

#[test]
fn fetch_worksite_asks_by_id() {
    assert_eq!(Query::worksite(Checkout::Acquired, 11), Ok(StoreRequest::FindWorksite { id: 11 }));
    assert_eq!(Query::worksite(Checkout::TimedOut, 11), Err(ResolverError::PoolExhausted));
    assert_eq!(
        settle(Err::<Worksite, StoreFault>(StoreFault::NotFound)),
        Err(ResolverError::NotFound)
    );
}

#[test]
fn roots_hand_out_the_entity_resolvers() {
    let _users = Query.users();
    let _clients = Query.clients();
    let _user_mutations = Mutation.users();
    let _client_mutations = Mutation.clients();
}

#[test]
fn worksite_getters_give_the_fields() {
    let worksite = Worksite {
        id: 6,
        client_id: 3,
        worksite: full_content(),
        created_at: moment(),
        edited_at: Timestamp::new(1_600_000_060, 0).unwrap(),
        deleted_at: None,
    };
    assert_eq!(worksite.id(), 6);
    assert_eq!(worksite.client_id(), 3);
    assert_eq!(worksite.worksite(), &full_content());
    assert_eq!(worksite.created_at(), "13-09-2020 26:40:000000005");
    assert_eq!(worksite.edited_at(), "13-09-2020 27:40:000000000");
    assert_eq!(worksite.deleted_at(), None);
    let deleted = Worksite { deleted_at: Some(Timestamp::new(1_600_003_600, 1).unwrap()), ..worksite };
    assert_eq!(deleted.deleted_at(), Some(String::from("13-09-2020 26:40:000000001")));
}
