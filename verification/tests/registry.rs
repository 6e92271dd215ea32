use cedar_py::errors::Error;
use cedar_py::policy_set::PolicyRegistry;
use cedar_py::policy_template::PolicyTemplate;
use cedar_py::text::auto_policy_id;
use cedar_py::text::decimal_string;

const PERMIT_ALL: &str = "permit(principal, action, resource);";
const FORBID_BANNED: &str =
    "forbid(principal == User::\"banned\", action, resource);";

#[test]
fn decimal_rendering_is_exact() {
    assert_eq!(decimal_string(0), "0");
    assert_eq!(decimal_string(42), "42");
    assert_eq!(decimal_string(1234567890), "1234567890");
    assert_eq!(auto_policy_id(7), "policy7");
}

#[test]
fn add_policy_stores_verbatim_text() {
    let mut reg = PolicyRegistry::new();
    reg.add_policy(String::from("p1"), PERMIT_ALL).unwrap();
    assert_eq!(reg.get_policy("p1"), Some(String::from(PERMIT_ALL)));
    assert_eq!(reg.get_policy("missing"), None);
    assert_eq!(reg.len(), 1);
}

#[test]
fn add_policy_rejects_bad_text() {
    let mut reg = PolicyRegistry::new();
    let r = reg.add_policy(String::from("p1"), "this is not a policy");
    assert!(matches!(r, Err(Error::InvalidPolicy(_))));
    assert_eq!(reg.len(), 0);
}

#[test]
fn two_policy_document_gets_sequential_ids() {
    let mut reg = PolicyRegistry::new();
    let text = format!("{}\n{}", PERMIT_ALL, FORBID_BANNED);
    let ids = reg.add_policies_from_str(&text).unwrap();
    assert_eq!(ids, vec![String::from("policy0"), String::from("policy1")]);
    assert_eq!(reg.len(), 2);
}

#[test]
fn repeated_batches_continue_the_counter() {
    let mut reg = PolicyRegistry::new();
    let first = reg.add_policies_from_str(PERMIT_ALL).unwrap();
    let text = format!("{}\n{}", PERMIT_ALL, FORBID_BANNED);
    let second = reg.add_policies_from_str(&text).unwrap();
    assert_eq!(first, vec![String::from("policy0")]);
    assert_eq!(
        second,
        vec![String::from("policy1"), String::from("policy2")]
    );
}

#[test]
fn bad_document_reports_policy_set_error() {
    let mut reg = PolicyRegistry::new();
    let r = reg.add_policies_from_str("permit(;");
    assert!(matches!(r, Err(Error::InvalidPolicySet(_))));
    assert_eq!(reg.len(), 0);
}

#[test]
fn from_str_stores_the_recovered_policies() {
    let text = format!("{}\n{}", PERMIT_ALL, FORBID_BANNED);
    let reg = PolicyRegistry::from_str(&text).unwrap();
    assert_eq!(reg.len(), 2);
    assert!(reg.get_policy("policy0").is_some());
    assert!(reg.get_policy("policy1").is_some());
}

#[test]
fn template_with_no_slot_is_refused() {
    let r = PolicyTemplate::new(String::from("t"), String::from(PERMIT_ALL));
    assert!(matches!(r, Err(Error::InvalidTemplate(_))));
}

#[test]
fn linking_an_unknown_template_fails() {
    let mut reg = PolicyRegistry::new();
    let r = reg.add_template_linked_policy(
        String::from("p"),
        String::from("absent"),
        vec![(String::from("principal"), String::from("User::\"alice\""))],
    );
    assert!(matches!(r, Err(Error::UnknownTemplate(_))));
}

#[test]
fn linking_with_a_bad_slot_value_fails() {
    let mut reg = PolicyRegistry::new();
    let template = PolicyTemplate::new(
        String::from("t"),
        String::from("permit(principal == ?principal, action, resource);"),
    )
    .unwrap();
    reg.add_template(&template).unwrap();
    let r = reg.add_template_linked_policy(
        String::from("p"),
        String::from("t"),
        vec![(String::from("principal"), String::from("not a uid"))],
    );
    assert!(matches!(r, Err(Error::InvalidEntityUid(_))));
}

#[test]
fn template_getters_and_instantiate() {
    let text = "permit(principal == ?principal, action, resource);";
    let template = PolicyTemplate::new(String::from("t1"), String::from(text)).unwrap();
    assert_eq!(template.template_id(), "t1");
    assert_eq!(template.template_text(), text);
    let (pid, tid, slots) = template
        .instantiate(
            String::from("link1"),
            &vec![(String::from("principal"), String::from("User::\"alice\""))],
        )
        .unwrap();
    assert_eq!(pid, "link1");
    assert_eq!(tid, "t1");
    assert_eq!(
        slots,
        vec![(String::from("principal"), String::from("User::\"alice\""))]
    );
    let bad = template.instantiate(
        String::from("link2"),
        &vec![(String::from("principal"), String::from("nope"))],
    );
    assert!(matches!(bad, Err(Error::InvalidEntityUid(_))));
}

#[test]
fn clone_is_a_deep_copy() {
    let mut reg = PolicyRegistry::new();
    reg.add_policy(String::from("p1"), PERMIT_ALL).unwrap();
    let copy = reg.clone();
    reg.add_policy(String::from("p2"), FORBID_BANNED).unwrap();
    assert_eq!(copy.len(), 1);
    assert_eq!(reg.len(), 2);
    assert_eq!(copy.get_policy("p1"), Some(String::from(PERMIT_ALL)));
    assert_eq!(copy.get_policy("p2"), None);
}

#[test]
fn validate_policy_and_template_texts() {
    assert_eq!(cedar_py::validate_policy(PERMIT_ALL).unwrap(), true);
    assert!(matches!(
        cedar_py::validate_policy("nope"),
        Err(Error::InvalidPolicy(_))
    ));
    assert_eq!(
        cedar_py::validate_template(
            "permit(principal == ?principal, action, resource);"
        )
        .unwrap(),
        true
    );
    assert!(matches!(
        cedar_py::validate_template("nope"),
        Err(Error::InvalidTemplate(_))
    ));
}

#[test]
fn materialization_of_individually_valid_policies_is_clean() {
    let mut reg = PolicyRegistry::new();
    let annotated = "@id(\"same\")\npermit(principal, action, resource);";
    reg.add_policy(String::from("a"), annotated).unwrap();
    reg.add_policy(String::from("b"), annotated).unwrap();
    let (_engine_set, warnings) = reg.materialize();
    assert_eq!(warnings, Vec::<String>::new());
}

#[test]
fn unknown_slot_name_drops_the_link_with_a_warning() {
    let mut reg = PolicyRegistry::new();
    let template = PolicyTemplate::new(
        String::from("t"),
        String::from("permit(principal == ?principal, action, resource);"),
    )
    .unwrap();
    reg.add_template(&template).unwrap();
    reg.add_template_linked_policy(
        String::from("p"),
        String::from("t"),
        vec![(String::from("weird"), String::from("User::\"alice\""))],
    )
    .unwrap();
    let (_engine_set, warnings) = reg.materialize();
    assert_eq!(warnings.len(), 1);
    assert!(warnings[0].starts_with("dropped template link for policy: "));
}
