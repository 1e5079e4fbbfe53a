use survey_backend::errors::{settle, ResolverError};
use survey_backend::store::StoreFault;

#[test]
fn settle_hands_a_row_through() {
    assert_eq!(settle(Ok::<i32, StoreFault>(7)), Ok(7));
    assert_eq!(settle(Ok::<String, StoreFault>(String::from("row"))), Ok(String::from("row")));
}

#[test]
fn settle_maps_each_fault() {
    assert_eq!(settle(Err::<i32, StoreFault>(StoreFault::NotFound)), Err(ResolverError::NotFound));
    assert_eq!(
        settle(Err::<i32, StoreFault>(StoreFault::ForeignKeyViolation)),
        Err(ResolverError::ConstraintViolation)
    );
    assert_eq!(
        settle(Err::<i32, StoreFault>(StoreFault::UniqueViolation)),
        Err(ResolverError::ConstraintViolation)
    );
    assert_eq!(settle(Err::<i32, StoreFault>(StoreFault::Other)), Err(ResolverError::Internal));
}

#[test]
fn from_fault_maps_each_fault() {
    assert_eq!(ResolverError::from_fault(StoreFault::NotFound), ResolverError::NotFound);
    assert_eq!(
        ResolverError::from_fault(StoreFault::ForeignKeyViolation),
        ResolverError::ConstraintViolation
    );
    assert_eq!(
        ResolverError::from_fault(StoreFault::UniqueViolation),
        ResolverError::ConstraintViolation
    );
    assert_eq!(ResolverError::from_fault(StoreFault::Other), ResolverError::Internal);
}

#[test]
fn each_failure_has_its_category() {
    assert_eq!(ResolverError::MissingField { field: "address" }.category(), "missing_field");
    assert_eq!(ResolverError::InvalidCredentials.category(), "invalid_credentials");
    assert_eq!(ResolverError::NotFound.category(), "not_found");
    assert_eq!(ResolverError::ConstraintViolation.category(), "constraint_violation");
    assert_eq!(ResolverError::PoolExhausted.category(), "pool_exhausted");
    assert_eq!(ResolverError::Internal.category(), "internal");
}

#[test]
fn each_failure_has_its_message() {
    assert_eq!(ResolverError::MissingField { field: "address" }.message(), "A required field is missing");
    assert_eq!(
        ResolverError::InvalidCredentials.message(),
        "Could not match the name/password combination"
    );
    assert_eq!(ResolverError::NotFound.message(), "The record does not exist");
    assert_eq!(ResolverError::ConstraintViolation.message(), "The record conflicts with what is stored");
    assert_eq!(ResolverError::PoolExhausted.message(), "No database connection is available");
    assert_eq!(ResolverError::Internal.message(), "The operation could not be carried out");
}

#[test]
fn missing_field_is_named() {
    assert_eq!(ResolverError::MissingField { field: "worksite" }.missing_field(), Some("worksite"));
    assert_eq!(ResolverError::NotFound.missing_field(), None);
    assert_eq!(ResolverError::Internal.missing_field(), None);
}
