use cedar_py::errors::Error;
use cedar_py::policy_set::PolicyRegistry;
use cedar_py::schema::validate_policies;
use cedar_py::schema::CedarSchema;

const SCHEMA: &str = "entity User, Group;\nentity Document;\naction view appliesTo { principal: [User, Group], resource: [Document] };";

#[test]
fn schema_parses_and_bad_schema_fails() {
    assert!(CedarSchema::new(SCHEMA).is_ok());
    assert!(matches!(
        CedarSchema::new("entity entity entity"),
        Err(Error::InvalidSchema(_))
    ));
}

#[test]
fn unsupported_mode_fails_before_the_engine() {
    let reg = PolicyRegistry::new();
    let schema = CedarSchema::new(SCHEMA).unwrap();
    let r = validate_policies(&reg, &schema, "loose");
    match r {
        Err(Error::UnsupportedMode(m)) => assert_eq!(m, "loose"),
        other => panic!("expected UnsupportedMode, got {:?}", other),
    }
}

#[test]
fn conforming_policies_validate_cleanly() {
    let mut reg = PolicyRegistry::new();
    reg.add_policy(
        String::from("p"),
        "permit(principal == User::\"alice\", action == Action::\"view\", resource);",
    )
    .unwrap();
    let schema = CedarSchema::new(SCHEMA).unwrap();
    let messages = validate_policies(&reg, &schema, "strict").unwrap();
    assert!(messages.iter().all(|m| !m.starts_with("Error: ")));
}

#[test]
fn unknown_entity_type_yields_an_error_message() {
    let mut reg = PolicyRegistry::new();
    reg.add_policy(
        String::from("p"),
        "permit(principal == Robot::\"r2\", action, resource);",
    )
    .unwrap();
    let schema = CedarSchema::new(SCHEMA).unwrap();
    let messages = validate_policies(&reg, &schema, "strict").unwrap();
    assert!(messages.iter().any(|m| m.starts_with("Error: ")));
}

#[test]
fn request_against_schema_is_shape_checked() {
    let schema = CedarSchema::new(SCHEMA).unwrap();
    let good = cedar_py::request::AuthorizationRequest::new(
        String::from("User::\"alice\""),
        String::from("Action::\"view\""),
        String::from("Document::\"report\""),
        None,
        Some(&schema),
    )
    .unwrap();
    let reg = PolicyRegistry::new();
    assert!(cedar_py::is_authorized(&good, &reg, None).is_ok());
    let bad = cedar_py::request::AuthorizationRequest::new(
        String::from("Document::\"report\""),
        String::from("Action::\"view\""),
        String::from("User::\"alice\""),
        None,
        Some(&schema),
    )
    .unwrap();
    assert!(matches!(
        cedar_py::is_authorized(&bad, &reg, None),
        Err(Error::RequestBuild(_))
    ));
}
