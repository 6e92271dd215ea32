use cedar_py::decision::Outcome;
use cedar_py::entity_store::EntityStore;
use cedar_py::errors::Error;
use cedar_py::is_authorized;
use cedar_py::policy_set::PolicyRegistry;
use cedar_py::policy_template::PolicyTemplate;
use cedar_py::request::AuthorizationRequest;
use cedar_py::values::DynamicValue;

const PERMIT_ALL: &str = "permit(principal, action, resource);";
const FORBID_BANNED: &str =
    "forbid(principal == User::\"banned\", action, resource);";

fn plain_request(principal: &str) -> AuthorizationRequest {
    AuthorizationRequest::new(
        String::from(principal),
        String::from("Action::\"view\""),
        String::from("Document::\"report\""),
        None,
        None,
    )
    .unwrap()
}

#[test]
fn permit_all_allows_any_triple() {
    let mut reg = PolicyRegistry::new();
    reg.add_policy(String::from("p"), PERMIT_ALL).unwrap();
    let decision = is_authorized(&plain_request("User::\"alice\""), &reg, None).unwrap();
    assert_eq!(decision.outcome, Outcome::Allow);
    assert!(decision.is_allowed());
    assert_eq!(decision.decision(), "Allow");
    assert!(decision
        .diagnostics()
        .iter()
        .any(|d| d.starts_with("Reason: ")));
}

#[test]
fn forbid_overrides_permit() {
    let mut reg = PolicyRegistry::new();
    reg.add_policy(String::from("p"), PERMIT_ALL).unwrap();
    reg.add_policy(String::from("f"), FORBID_BANNED).unwrap();
    let banned = is_authorized(&plain_request("User::\"banned\""), &reg, None).unwrap();
    assert_eq!(banned.outcome, Outcome::Deny);
    assert!(!banned.is_allowed());
    assert_eq!(banned.decision(), "Deny");
    let alice = is_authorized(&plain_request("User::\"alice\""), &reg, None).unwrap();
    assert_eq!(alice.outcome, Outcome::Allow);
}

#[test]
fn empty_registry_denies_by_default() {
    let reg = PolicyRegistry::new();
    let decision = is_authorized(&plain_request("User::\"alice\""), &reg, None).unwrap();
    assert_eq!(decision.outcome, Outcome::Deny);
}

#[test]
fn bad_identifiers_fail_per_field() {
    let reg = PolicyRegistry::new();
    let bad_principal = AuthorizationRequest::new(
        String::from("nonsense"),
        String::from("Action::\"view\""),
        String::from("Document::\"report\""),
        None,
        None,
    )
    .unwrap();
    assert!(matches!(
        is_authorized(&bad_principal, &reg, None),
        Err(Error::InvalidPrincipal(_))
    ));
    let bad_action = AuthorizationRequest::new(
        String::from("User::\"alice\""),
        String::from("nonsense"),
        String::from("Document::\"report\""),
        None,
        None,
    )
    .unwrap();
    assert!(matches!(
        is_authorized(&bad_action, &reg, None),
        Err(Error::InvalidAction(_))
    ));
    let bad_resource = AuthorizationRequest::new(
        String::from("User::\"alice\""),
        String::from("Action::\"view\""),
        String::from("nonsense"),
        None,
        None,
    )
    .unwrap();
    assert!(matches!(
        is_authorized(&bad_resource, &reg, None),
        Err(Error::InvalidResource(_))
    ));
}

#[test]
fn linked_template_participates_in_authorization() {
    let mut reg = PolicyRegistry::new();
    let template = PolicyTemplate::new(
        String::from("view-template"),
        String::from(
            "permit(principal == ?principal, action == Action::\"view\", resource == ?resource);",
        ),
    )
    .unwrap();
    reg.add_template(&template).unwrap();
    reg.add_template_linked_policy(
        String::from("alice-view-report"),
        String::from("view-template"),
        vec![
            (String::from("principal"), String::from("User::\"alice\"")),
            (
                String::from("resource"),
                String::from("Document::\"report\""),
            ),
        ],
    )
    .unwrap();
    let alice = is_authorized(&plain_request("User::\"alice\""), &reg, None).unwrap();
    assert_eq!(alice.outcome, Outcome::Allow);
    let bob = is_authorized(&plain_request("User::\"bob\""), &reg, None).unwrap();
    assert_eq!(bob.outcome, Outcome::Deny);
}

#[test]
fn context_condition_is_evaluated() {
    let mut reg = PolicyRegistry::new();
    reg.add_policy(
        String::from("p"),
        "permit(principal, action, resource) when { context.admin == true };",
    )
    .unwrap();
    let context = DynamicValue::Mapping(vec![(String::from("admin"), DynamicValue::Bool(true))]);
    let admin_request = AuthorizationRequest::new(
        String::from("User::\"alice\""),
        String::from("Action::\"view\""),
        String::from("Document::\"report\""),
        Some(&context),
        None,
    )
    .unwrap();
    let allowed = is_authorized(&admin_request, &reg, None).unwrap();
    assert_eq!(allowed.outcome, Outcome::Allow);
    let plain = is_authorized(&plain_request("User::\"alice\""), &reg, None).unwrap();
    assert_eq!(plain.outcome, Outcome::Deny);
}

#[test]
fn non_mapping_context_is_refused() {
    let context = DynamicValue::Int64(3);
    let r = AuthorizationRequest::new(
        String::from("User::\"alice\""),
        String::from("Action::\"view\""),
        String::from("Document::\"report\""),
        Some(&context),
        None,
    );
    assert!(matches!(r, Err(Error::ContextNotMapping)));
}

#[test]
fn entity_hierarchy_is_used() {
    let mut reg = PolicyRegistry::new();
    reg.add_policy(
        String::from("p"),
        "permit(principal in Group::\"admins\", action, resource);",
    )
    .unwrap();
    let mut store = EntityStore::new();
    store
        .add_entity(
            String::from("User::\"alice\""),
            None,
            Some(&vec![String::from("Group::\"admins\"")]),
        )
        .unwrap();
    store
        .add_entity(String::from("Group::\"admins\""), None, None)
        .unwrap();
    assert_eq!(store.len(), 2);
    let alice = is_authorized(&plain_request("User::\"alice\""), &reg, Some(&store)).unwrap();
    assert_eq!(alice.outcome, Outcome::Allow);
    let bob = is_authorized(&plain_request("User::\"bob\""), &reg, Some(&store)).unwrap();
    assert_eq!(bob.outcome, Outcome::Deny);
}

#[test]
fn readding_an_entity_replaces_its_record() {
    let mut reg = PolicyRegistry::new();
    reg.add_policy(
        String::from("p"),
        "permit(principal, action, resource) when { principal.role == \"admin\" };",
    )
    .unwrap();
    let mut store = EntityStore::new();
    store
        .add_entity(
            String::from("User::\"alice\""),
            Some(&vec![(
                String::from("role"),
                DynamicValue::Str(String::from("user")),
            )]),
            None,
        )
        .unwrap();
    let before = is_authorized(&plain_request("User::\"alice\""), &reg, Some(&store)).unwrap();
    assert_eq!(before.outcome, Outcome::Deny);
    store
        .add_entity(
            String::from("User::\"alice\""),
            Some(&vec![(
                String::from("role"),
                DynamicValue::Str(String::from("admin")),
            )]),
            None,
        )
        .unwrap();
    assert_eq!(store.len(), 1);
    let after = is_authorized(&plain_request("User::\"alice\""), &reg, Some(&store)).unwrap();
    assert_eq!(after.outcome, Outcome::Allow);
    store
        .add_entity(String::from("User::\"alice\""), None, None)
        .unwrap();
    let stripped = is_authorized(&plain_request("User::\"alice\""), &reg, Some(&store)).unwrap();
    assert_eq!(stripped.outcome, Outcome::Deny);
}

#[test]
fn bad_entity_inputs_fail_eagerly() {
    let mut store = EntityStore::new();
    assert!(matches!(
        store.add_entity(String::from("nonsense"), None, None),
        Err(Error::InvalidEntityUid(_))
    ));
    assert!(matches!(
        store.add_entity(
            String::from("User::\"alice\""),
            None,
            Some(&vec![String::from("nonsense")]),
        ),
        Err(Error::InvalidEntityUid(_))
    ));
    assert!(matches!(
        store.add_entity(
            String::from("User::\"alice\""),
            Some(&vec![(String::from("x"), DynamicValue::Null)]),
            None,
        ),
        Err(Error::Conversion(_))
    ));
    assert_eq!(store.len(), 0);
    store
        .add_entity(String::from("User::\"alice\""), None, None)
        .unwrap();
    store.clear();
    assert_eq!(store.len(), 0);
}

#[test]
fn duplicate_context_keys_fail_at_context_build() {
    let context = DynamicValue::Mapping(vec![
        (String::from("k"), DynamicValue::Int64(1)),
        (String::from("k"), DynamicValue::Int64(2)),
    ]);
    let r = AuthorizationRequest::new(
        String::from("User::\"alice\""),
        String::from("Action::\"view\""),
        String::from("Document::\"report\""),
        Some(&context),
        None,
    );
    assert!(matches!(r, Err(Error::ContextBuild(_))));
}

#[test]
fn duplicate_attribute_record_keys_fail_at_materialization() {
    let mut store = EntityStore::new();
    let nested = DynamicValue::Mapping(vec![
        (String::from("k"), DynamicValue::Int64(1)),
        (String::from("k"), DynamicValue::Int64(2)),
    ]);
    store
        .add_entity(
            String::from("User::\"alice\""),
            Some(&vec![(String::from("bad"), nested)]),
            None,
        )
        .unwrap();
    let reg = PolicyRegistry::new();
    let r = is_authorized(&plain_request("User::\"alice\""), &reg, Some(&store));
    assert!(matches!(r, Err(Error::EntityCreate(_))));
}

#[test]
fn diagnostics_are_prefixed_in_fixed_order() {
    let d = cedar_py::decision::Decision::from_parts(
        false,
        &vec![String::from("e1"), String::from("e2")],
        &vec![String::from("r1")],
    );
    assert_eq!(d.outcome, Outcome::Deny);
    assert_eq!(
        d.diagnostics,
        vec![
            String::from("Error: e1"),
            String::from("Error: e2"),
            String::from("Reason: r1"),
        ]
    );
}
