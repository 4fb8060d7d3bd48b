use conventional_commit::email::{check_email, email_error};
use conventional_commit::validation::ValidationError;

#[test]
fn test_accepts_plain_address() {
    assert_eq!(None, check_email("alice.bob@test.io"));
}

#[test]
fn test_rejects_address_without_separator() {
    assert_eq!(
        Some(ValidationError::InvalidFieldValue(
            "email".to_string(),
            email_address::Error::MissingSeparator.to_string()
        )),
        check_email("invalid")
    );
    assert_eq!(
        Some(ValidationError::InvalidFieldValue(
            "email".to_string(),
            "Missing separator character '@'.".to_string()
        )),
        check_email("invalid")
    );
}

#[test]
fn test_rejects_empty_address() {
    assert_eq!(
        Some(ValidationError::InvalidFieldValue(
            "email".to_string(),
            email_address::Error::MissingSeparator.to_string()
        )),
        check_email("")
    );
}

#[test]
fn test_rejects_address_without_domain() {
    assert_eq!(
        Some(ValidationError::InvalidFieldValue(
            "email".to_string(),
            email_address::Error::DomainEmpty.to_string()
        )),
        check_email("simon@")
    );
}

#[test]
fn test_rejection_is_not_the_address_itself() {
    let error = check_email("invalid").expect("should have been rejected");
    assert_ne!(ValidationError::InvalidFieldValue("email".to_string(), "invalid".to_string()), error);
}

#[test]
fn test_email_error_of_acceptance_is_nothing() {
    assert_eq!(None, email_error(Ok(())));
}

#[test]
fn test_email_error_of_refusal_carries_the_reason() {
    assert_eq!(
        Some(ValidationError::InvalidFieldValue("email".to_string(), "boom".to_string())),
        email_error(Err("boom".to_string()))
    );
}
