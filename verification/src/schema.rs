//! The schema wrapper and static policy validation.

use vstd::prelude::*;

use crate::engine::clone_schema;
use crate::engine::new_validator;
use crate::engine::parse_schema;
use crate::engine::run_strict_validation;
use crate::engine::schema_parses;
use crate::engine::validation_errors_of;
use crate::engine::validation_warnings_of;
use crate::errors::Error;
use crate::errors::EvView;
use crate::policy_set::PolicyRegistry;
use crate::text::prefix_two_groups;
use crate::text::prefixed_all;
use crate::text::str_eq;

verus! {

/// A parsed schema: entity types and action signatures, used by the
/// engine for request-shape checks and static policy validation.
pub struct CedarSchema {
    schema: cedar_policy::Schema,
}

impl CedarSchema {
    /// Parses a schema; fails exactly on the texts the engine's schema
    /// parser refuses.
    pub fn new(schema_text: &str) -> (r: Result<CedarSchema, Error>)
        ensures
            r is Ok <==> schema_parses(schema_text@),
            r is Err ==> r->Err_0@ is InvalidSchema,
    {
        match parse_schema(schema_text) {
            Ok(s) => Ok(CedarSchema { schema: s }),
            Err(m) => Err(Error::InvalidSchema(m)),
        }
    }

    /// The engine's schema value.
    pub(crate) fn get_schema(&self) -> &cedar_policy::Schema {
        &self.schema
    }
}

/// Statically validates a registry's policies against a schema. The mode
/// must be the literal `strict`: any other mode is refused before the
/// engine is consulted. On success the result holds every validation
/// error prefixed `Error: `, then every warning prefixed `Warning: `, in
/// the engine's own order within each group.
pub fn validate_policies(
    policies: &PolicyRegistry,
    schema: &CedarSchema,
    mode: &str,
) -> (r: Result<Vec<String>, Error>)
    requires
        policies.policies_view().len() + policies.templates_view().len() <= u64::MAX,
    ensures
        mode@ != "strict"@ ==> (r matches Err(e) && e@ == EvView::UnsupportedMode(mode@)),
        mode@ == "strict"@ ==> r is Ok,
        r is Ok ==> (exists|errs: Seq<Seq<char>>, warns: Seq<Seq<char>>|
            r->Ok_0.deep_view() == prefixed_all("Error: "@, errs) + prefixed_all(
                "Warning: "@,
                warns,
            )),
{
    if !str_eq(mode, "strict") {
        return Err(Error::UnsupportedMode(mode.to_owned()));
    }
    let (engine_set, _link_warnings) = policies.materialize();
    let validator = new_validator(clone_schema(schema.get_schema()));
    let outcome = run_strict_validation(&validator, &engine_set);
    let errors = validation_errors_of(&outcome);
    let warnings = validation_warnings_of(&outcome);
    let messages = prefix_two_groups("Error: ", &errors, "Warning: ", &warnings);
    proof {
        let ev = errors.deep_view();
        let wv = warnings.deep_view();
        assert(messages.deep_view() == prefixed_all("Error: "@, ev) + prefixed_all(
            "Warning: "@,
            wv,
        ));
    }
    Ok(messages)
}

} // verus!
