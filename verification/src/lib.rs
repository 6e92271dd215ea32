//! A domain-model and translation layer between a host application and the
//! Cedar authorization engine: it converts dynamic host data into Cedar's
//! restricted-expression value model, manages policies, templates and entity
//! hierarchies, and assembles authorization requests and validation calls.

pub mod decision;
pub mod engine;
pub mod entity_store;
pub mod errors;
pub mod policy_set;
pub mod policy_template;
pub mod request;
pub mod schema;
pub mod table;
pub mod text;
pub mod values;

use vstd::prelude::*;

use crate::decision::authorize_with_engine;
use crate::decision::Decision;
use crate::engine::check_policy;
use crate::engine::check_template;
use crate::engine::empty_entities;
use crate::engine::is_valid_euid;
use crate::engine::policy_parses;
use crate::engine::template_parses;
use crate::entity_store::EntityStore;
use crate::errors::Error;
use crate::errors::EvView;
use crate::policy_set::PolicyRegistry;
use crate::request::AuthorizationRequest;

verus! {

/// Checks that a text parses as a single standalone policy; accepts
/// exactly the texts the engine's policy parser accepts.
pub fn validate_policy(policy_text: &str) -> (r: Result<bool, Error>)
    ensures
        r is Ok <==> policy_parses(policy_text@),
        r is Ok ==> r->Ok_0 == true,
        r is Err ==> r->Err_0@ is InvalidPolicy,
{
    match check_policy(policy_text) {
        Ok(_) => Ok(true),
        Err(m) => Err(Error::InvalidPolicy(m)),
    }
}

/// Checks that a text parses as a policy template; accepts exactly the
/// texts the engine's template parser accepts.
pub fn validate_template(template_text: &str) -> (r: Result<bool, Error>)
    ensures
        r is Ok <==> template_parses(template_text@),
        r is Ok ==> r->Ok_0 == true,
        r is Err ==> r->Err_0@ is InvalidTemplate,
{
    match check_template(template_text) {
        Ok(_) => Ok(true),
        Err(m) => Err(Error::InvalidTemplate(m)),
    }
}

/// Makes an authorization decision: materializes the request, the registry
/// and the entity graph, and runs the engine's authorizer. The three
/// request identifiers fail independently, each under its own error; a
/// request whose identifiers parse, with no schema attached and no entity
/// store given, always reaches a decision.
pub fn is_authorized(
    request: &AuthorizationRequest,
    policies: &PolicyRegistry,
    entities: Option<&EntityStore>,
) -> (r: Result<Decision, Error>)
    requires
        policies.policies_view().len() + policies.templates_view().len() <= u64::MAX,
        entities matches Some(store) ==> store.wf(),
    ensures
        !is_valid_euid(request.principal_view()) ==> (r matches Err(e) && e@
            == EvView::InvalidPrincipal(request.principal_view())),
        is_valid_euid(request.principal_view()) && !is_valid_euid(request.action_view()) ==> (
        r matches Err(e) && e@ == EvView::InvalidAction(request.action_view())),
        is_valid_euid(request.principal_view()) && is_valid_euid(request.action_view())
            && !is_valid_euid(request.resource_view()) ==> (r matches Err(e) && e@
            == EvView::InvalidResource(request.resource_view())),
        r is Ok ==> is_valid_euid(request.principal_view()) && is_valid_euid(request.action_view())
            && is_valid_euid(request.resource_view()),
        is_valid_euid(request.principal_view()) && is_valid_euid(request.action_view())
            && is_valid_euid(request.resource_view()) && !request.has_schema() && entities is None
            ==> r is Ok,
        r is Err ==> r->Err_0@ is InvalidPrincipal || r->Err_0@ is InvalidAction || r->Err_0@
            is InvalidResource || r->Err_0@ is RequestBuild || r->Err_0@ is EntityCreate
            || r->Err_0@ is EntityCollectionBuild,
{
    let engine_request = match request.materialize() {
        Ok(q) => q,
        Err(e) => {
            return Err(e);
        },
    };
    let (engine_set, _link_warnings) = policies.materialize();
    let engine_entities = match entities {
        Some(store) => match store.materialize() {
            Ok(es) => es,
            Err(e) => {
                return Err(e);
            },
        },
        None => empty_entities(),
    };
    Ok(authorize_with_engine(&engine_request, &engine_set, &engine_entities))
}

} // verus!
