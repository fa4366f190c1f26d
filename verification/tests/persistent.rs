use label_store::persistent::{create_precheck, delete_outcome};
use label_store::repository::{Label, RepositoryError};

#[test]
fn create_precheck_rejects_an_existing_name() {
    let existing = Label::new(7, "x".to_string());
    let res = create_precheck(Some(existing));
    assert_eq!(res, Err(RepositoryError::Duplicate(7)));
}

#[test]
fn create_precheck_clears_a_free_name() {
    assert_eq!(create_precheck(None), Ok(()));
}

#[test]
fn delete_outcome_of_no_affected_row_is_not_found() {
    assert_eq!(delete_outcome(3, 0), Err(RepositoryError::NotFound(3)));
}

#[test]
fn delete_outcome_of_an_affected_row_is_success() {
    assert_eq!(delete_outcome(3, 1), Ok(()));
}
