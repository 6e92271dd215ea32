//! The trusted boundary to the Cedar policy engine.
//!
//! Everything the library asks of the engine goes through this module: each
//! wrapper makes exactly one engine call, and its contract states no more
//! than the engine's own source shows. The engine's parsers are deterministic
//! functions of their input text, so what they accept (and, for a policy-set
//! document, which policies they recover) is given a name here and nothing
//! else is assumed about it.

use vstd::prelude::*;

use crate::values::RestrictedExpr;

verus! {

/// Whether the engine's entity-UID parser accepts this text
/// (grammar `TypeName::"id"`, with `::`-separated namespace segments).
pub uninterp spec fn is_valid_euid(s: Seq<char>) -> bool;

/// Whether the engine parses this text as a single standalone policy.
pub uninterp spec fn policy_parses(s: Seq<char>) -> bool;

/// Whether the engine parses this text as a single policy template.
pub uninterp spec fn template_parses(s: Seq<char>) -> bool;

/// Whether the engine parses this text as a multi-policy document.
pub uninterp spec fn policy_set_parses(s: Seq<char>) -> bool;

/// The (id, text) pairs the engine recovers from a multi-policy document, in
/// document order, with the engine's own auto-assigned ids for unannotated
/// clauses and the engine's re-serialized text of each policy.
pub uninterp spec fn parsed_policies(s: Seq<char>) -> Seq<(Seq<char>, Seq<char>)>;

/// Whether the engine's schema parser accepts this text.
pub uninterp spec fn schema_parses(s: Seq<char>) -> bool;

#[verifier::external_type_specification]
#[verifier::external_body]
pub struct ExPolicySet(cedar_policy::PolicySet);

#[verifier::external_type_specification]
#[verifier::external_body]
pub struct ExEntityUid(cedar_policy::EntityUid);

#[verifier::external_type_specification]
#[verifier::external_body]
pub struct ExEntity(cedar_policy::Entity);

#[verifier::external_type_specification]
#[verifier::external_body]
pub struct ExEntities(cedar_policy::Entities);

#[verifier::external_type_specification]
#[verifier::external_body]
pub struct ExSchema(cedar_policy::Schema);

#[verifier::external_type_specification]
#[verifier::external_body]
pub struct ExContext(cedar_policy::Context);

#[verifier::external_type_specification]
#[verifier::external_body]
pub struct ExRestrictedExpression(cedar_policy::RestrictedExpression);

#[verifier::external_type_specification]
#[verifier::external_body]
pub struct ExRequest(cedar_policy::Request);

#[verifier::external_type_specification]
#[verifier::external_body]
pub struct ExResponse(cedar_policy::Response);

#[verifier::external_type_specification]
#[verifier::external_body]
pub struct ExAuthorizer(cedar_policy::Authorizer);

#[verifier::external_type_specification]
#[verifier::external_body]
pub struct ExValidator(cedar_policy::Validator);

#[verifier::external_type_specification]
#[verifier::external_body]
pub struct ExValidationResult(cedar_policy::ValidationResult);

/// Which slot of a template a link fills; the engine knows exactly these two.
#[derive(Debug, Clone, Copy, PartialEq, Eq, Structural)]
pub enum SlotKind {
    Principal,
    Resource,
}

/// Relies on `cedar_policy::Policy::from_str`: a deterministic parser of a
/// single policy; `Ok` exactly on the texts it accepts.
#[verifier::external_body]
pub(crate) fn check_policy(text: &str) -> (r: Result<(), String>)
    ensures
        r is Ok <==> policy_parses(text@),
{
    match <cedar_policy::Policy as core::str::FromStr>::from_str(text) {
        Ok(_) => Ok(()),
        Err(e) => Err(format!("{}", e)),
    }
}

/// Relies on `cedar_policy::Template::from_str`: a deterministic parser of a
/// single policy template; `Ok` exactly on the texts it accepts.
#[verifier::external_body]
pub(crate) fn check_template(text: &str) -> (r: Result<(), String>)
    ensures
        r is Ok <==> template_parses(text@),
{
    match <cedar_policy::Template as core::str::FromStr>::from_str(text) {
        Ok(_) => Ok(()),
        Err(e) => Err(format!("{}", e)),
    }
}

/// Relies on `cedar_policy::PolicySet::from_str` and
/// `cedar_policy::PolicySet::policies`: parsing a multi-policy document
/// succeeds exactly on the texts the engine accepts, and the policies come
/// back in document order (the engine keeps them in an insertion-ordered
/// map), each with the engine's id and re-serialized text.
#[verifier::external_body]
pub(crate) fn parse_policy_list(text: &str) -> (r: Result<Vec<(String, String)>, String>)
    ensures
        r is Ok <==> policy_set_parses(text@),
        r is Ok ==> r->Ok_0.deep_view() == parsed_policies(text@),
{
    match <cedar_policy::PolicySet as core::str::FromStr>::from_str(text) {
        Ok(ps) => Ok(ps.policies().map(|p| (p.id().to_string(), p.to_string())).collect()),
        Err(e) => Err(format!("{}", e)),
    }
}

/// Relies on `cedar_policy::PolicySet::from_str`: the same parser as
/// `parse_policy_list`, here keeping the engine's policy set itself.
#[verifier::external_body]
pub(crate) fn parse_engine_policy_set(text: &str) -> (r: Result<cedar_policy::PolicySet, String>)
    ensures
        r is Ok <==> policy_set_parses(text@),
{
    <cedar_policy::PolicySet as core::str::FromStr>::from_str(text).map_err(|e| format!("{}", e))
}

/// Relies on `cedar_policy::PolicySet::new`: the empty policy set.
#[verifier::external_body]
pub(crate) fn empty_engine_policy_set() -> cedar_policy::PolicySet {
    cedar_policy::PolicySet::new()
}

/// Relies on `cedar_policy::PolicySet::link`: registers a template-linked
/// policy in the engine's set; the engine decides whether the link fits the
/// template, so nothing is promised of the outcome.
#[verifier::external_body]
pub(crate) fn link_in_engine(
    ps: &mut cedar_policy::PolicySet,
    template_id: &str,
    policy_id: &str,
    slots: Vec<(SlotKind, cedar_policy::EntityUid)>,
) -> (r: Result<(), String>) {
    let vals: std::collections::HashMap<cedar_policy::SlotId, cedar_policy::EntityUid> = slots
        .into_iter()
        .map(|(k, v)| (
            match k {
                SlotKind::Principal => cedar_policy::SlotId::principal(),
                SlotKind::Resource => cedar_policy::SlotId::resource(),
            },
            v,
        ))
        .collect();
    ps.link(cedar_policy::PolicyId::new(template_id), cedar_policy::PolicyId::new(policy_id), vals)
        .map_err(|e| format!("{}", e))
}

/// Relies on `cedar_policy::EntityUid::from_str`: a deterministic parser,
/// `Ok` exactly on the texts it accepts.
#[verifier::external_body]
pub(crate) fn parse_euid(s: &str) -> (r: Result<cedar_policy::EntityUid, String>)
    ensures
        r is Ok <==> is_valid_euid(s@),
{
    <cedar_policy::EntityUid as core::str::FromStr>::from_str(s).map_err(|e| format!("{}", e))
}

/// Relies on `cedar_policy::Entity::new`: builds one entity from a uid,
/// attributes and parents; the engine may reject attribute values it cannot
/// evaluate.
#[verifier::external_body]
pub(crate) fn new_entity(
    uid: cedar_policy::EntityUid,
    attrs: Vec<(String, cedar_policy::RestrictedExpression)>,
    parents: Vec<cedar_policy::EntityUid>,
) -> (r: Result<cedar_policy::Entity, String>) {
    let attr_map: std::collections::HashMap<String, cedar_policy::RestrictedExpression> =
        attrs.into_iter().collect();
    let parent_set: std::collections::HashSet<cedar_policy::EntityUid> =
        parents.into_iter().collect();
    cedar_policy::Entity::new(uid, attr_map, parent_set).map_err(|e| format!("{}", e))
}

/// Relies on `cedar_policy::Entities::from_entities` (without a schema): the
/// engine rejects the collection when two entities share a uid or the
/// hierarchy is malformed.
#[verifier::external_body]
pub(crate) fn build_entities(list: Vec<cedar_policy::Entity>) -> (r: Result<
    cedar_policy::Entities,
    String,
>) {
    cedar_policy::Entities::from_entities(list, None).map_err(|e| format!("{}", e))
}

/// Relies on `cedar_policy::Entities::empty`: the empty entity collection.
#[verifier::external_body]
pub(crate) fn empty_entities() -> cedar_policy::Entities {
    cedar_policy::Entities::empty()
}

/// Relies on `cedar_policy::RestrictedExpression::new_bool`.
#[verifier::external_body]
pub(crate) fn expr_bool(b: bool) -> cedar_policy::RestrictedExpression {
    cedar_policy::RestrictedExpression::new_bool(b)
}

/// Relies on `cedar_policy::RestrictedExpression::new_long`.
#[verifier::external_body]
pub(crate) fn expr_long(i: i64) -> cedar_policy::RestrictedExpression {
    cedar_policy::RestrictedExpression::new_long(i)
}

/// Relies on `cedar_policy::RestrictedExpression::new_string`.
#[verifier::external_body]
pub(crate) fn expr_string(s: &str) -> cedar_policy::RestrictedExpression {
    cedar_policy::RestrictedExpression::new_string(s.to_string())
}

/// Relies on `cedar_policy::RestrictedExpression::new_set`.
#[verifier::external_body]
pub(crate) fn expr_set(
    elems: Vec<cedar_policy::RestrictedExpression>,
) -> cedar_policy::RestrictedExpression {
    cedar_policy::RestrictedExpression::new_set(elems)
}

/// Relies on `cedar_policy::RestrictedExpression::new_record`: fails on a
/// duplicate key.
#[verifier::external_body]
pub(crate) fn expr_record(
    fields: Vec<(String, cedar_policy::RestrictedExpression)>,
) -> (r: Result<cedar_policy::RestrictedExpression, String>) {
    cedar_policy::RestrictedExpression::new_record(fields).map_err(|e| format!("{}", e))
}

/// Relies on `cedar_policy::Context::from_pairs`: fails on a duplicate key
/// or a value the engine cannot evaluate.
#[verifier::external_body]
pub(crate) fn context_from_pairs(
    pairs: Vec<(String, cedar_policy::RestrictedExpression)>,
) -> (r: Result<cedar_policy::Context, String>) {
    cedar_policy::Context::from_pairs(pairs).map_err(|e| format!("{}", e))
}

/// Relies on `cedar_policy::Context::empty`: the empty context.
#[verifier::external_body]
pub(crate) fn empty_context() -> cedar_policy::Context {
    cedar_policy::Context::empty()
}

/// Relies on `cedar_policy::Context::clone`.
#[verifier::external_body]
pub(crate) fn clone_context(c: &cedar_policy::Context) -> cedar_policy::Context {
    c.clone()
}

/// Relies on `cedar_policy::Schema::from_str`: a deterministic parser, `Ok`
/// exactly on the texts it accepts.
#[verifier::external_body]
pub(crate) fn parse_schema(s: &str) -> (r: Result<cedar_policy::Schema, String>)
    ensures
        r is Ok <==> schema_parses(s@),
{
    <cedar_policy::Schema as core::str::FromStr>::from_str(s).map_err(|e| format!("{}", e))
}

/// Relies on `cedar_policy::Schema::clone`.
#[verifier::external_body]
pub(crate) fn clone_schema(s: &cedar_policy::Schema) -> cedar_policy::Schema {
    s.clone()
}

/// Relies on `cedar_policy::Request::new`: with no schema the engine
/// validates nothing and always succeeds; with a schema it may reject the
/// request's shape.
#[verifier::external_body]
pub(crate) fn new_engine_request(
    principal: cedar_policy::EntityUid,
    action: cedar_policy::EntityUid,
    resource: cedar_policy::EntityUid,
    context: cedar_policy::Context,
    schema: Option<&cedar_policy::Schema>,
) -> (r: Result<cedar_policy::Request, String>)
    ensures
        schema is None ==> r is Ok,
{
    cedar_policy::Request::new(principal, action, resource, context, schema)
        .map_err(|e| format!("{}", e))
}

/// Relies on `cedar_policy::Authorizer::new`.
#[verifier::external_body]
pub(crate) fn new_authorizer() -> cedar_policy::Authorizer {
    cedar_policy::Authorizer::new()
}

/// Relies on `cedar_policy::Authorizer::is_authorized`: the engine's
/// decision procedure; nothing is assumed of its outcome.
#[verifier::external_body]
pub(crate) fn engine_authorize(
    auth: &cedar_policy::Authorizer,
    request: &cedar_policy::Request,
    policies: &cedar_policy::PolicySet,
    entities: &cedar_policy::Entities,
) -> cedar_policy::Response {
    auth.is_authorized(request, policies, entities)
}

/// Relies on `cedar_policy::Response::decision`: whether the engine allowed
/// the request.
#[verifier::external_body]
pub(crate) fn response_is_allow(r: &cedar_policy::Response) -> bool {
    match r.decision() {
        cedar_policy::Decision::Allow => true,
        cedar_policy::Decision::Deny => false,
    }
}

/// Relies on `cedar_policy::Diagnostics::errors`: the evaluation errors of a
/// response, in the engine's own (unspecified) order.
#[verifier::external_body]
pub(crate) fn response_errors(r: &cedar_policy::Response) -> Vec<String> {
    r.diagnostics().errors().map(|e| format!("{}", e)).collect()
}

/// Relies on `cedar_policy::Diagnostics::reason`: the ids of the policies
/// that determined the decision, in the engine's own (unspecified) order.
#[verifier::external_body]
pub(crate) fn response_reasons(r: &cedar_policy::Response) -> Vec<String> {
    r.diagnostics().reason().map(|p| format!("{}", p)).collect()
}

/// Relies on `cedar_policy::Validator::new`.
#[verifier::external_body]
pub(crate) fn new_validator(schema: cedar_policy::Schema) -> cedar_policy::Validator {
    cedar_policy::Validator::new(schema)
}

/// Relies on `cedar_policy::Validator::validate`, run in the engine's strict
/// mode; the engine decides the outcome.
#[verifier::external_body]
pub(crate) fn run_strict_validation(
    v: &cedar_policy::Validator,
    ps: &cedar_policy::PolicySet,
) -> cedar_policy::ValidationResult {
    v.validate(ps, cedar_policy::ValidationMode::Strict)
}

/// Relies on `cedar_policy::ValidationResult::validation_errors`: the
/// validation errors, in the order the engine reports them.
#[verifier::external_body]
pub(crate) fn validation_errors_of(vr: &cedar_policy::ValidationResult) -> Vec<String> {
    vr.validation_errors().map(|e| format!("{}", e)).collect()
}

/// Relies on `cedar_policy::ValidationResult::validation_warnings`: the
/// validation warnings, in the order the engine reports them.
#[verifier::external_body]
pub(crate) fn validation_warnings_of(vr: &cedar_policy::ValidationResult) -> Vec<String> {
    vr.validation_warnings().map(|w| format!("{}", w)).collect()
}

/// Builds the engine's form of a restricted expression, bottom-up through
/// the engine's own constructors. The engine rejects a record with a
/// duplicate key; the first such error is returned.
#[verifier::loop_isolation(false)]
pub(crate) fn to_engine_expr(e: &RestrictedExpr) -> Result<cedar_policy::RestrictedExpression, String>
    decreases *e,
{
    match e {
        RestrictedExpr::Bool(b) => Ok(expr_bool(*b)),
        RestrictedExpr::Int64(i) => Ok(expr_long(*i)),
        RestrictedExpr::Str(s) => Ok(expr_string(s.as_str())),
        RestrictedExpr::SetValue(es) => {
            let mut out: Vec<cedar_policy::RestrictedExpression> = Vec::new();
            let mut i: usize = 0;
            while i < es.len()
                invariant
                    i <= es.len(),
                decreases es.len() - i,
            {
                match to_engine_expr(&es[i]) {
                    Ok(x) => out.push(x),
                    Err(msg) => {
                        return Err(msg);
                    },
                }
                i = i + 1;
            }
            Ok(expr_set(out))
        },
        RestrictedExpr::Record(fs) => {
            let mut out: Vec<(String, cedar_policy::RestrictedExpression)> = Vec::new();
            let mut i: usize = 0;
            while i < fs.len()
                invariant
                    i <= fs.len(),
                decreases fs.len() - i,
            {
                match to_engine_expr(&fs[i].1) {
                    Ok(x) => out.push((fs[i].0.clone(), x)),
                    Err(msg) => {
                        return Err(msg);
                    },
                }
                i = i + 1;
            }
            expr_record(out)
        },
    }
}

} // verus!
