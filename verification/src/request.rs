//! The authorization request: principal, action and resource held as raw
//! strings and validated only at materialization, with an eagerly
//! converted optional context and an optional schema.

use vstd::prelude::*;

use crate::engine::clone_context;
use crate::engine::clone_schema;
use crate::engine::context_from_pairs;
use crate::engine::empty_context;
use crate::engine::is_valid_euid;
use crate::engine::new_engine_request;
use crate::engine::parse_euid;
use crate::engine::to_engine_expr;
use crate::errors::Error;
use crate::errors::EvView;
use crate::schema::CedarSchema;
use crate::values::convert_entries;
use crate::values::convert_mapping;
use crate::values::DynamicValue;
use crate::values::RestrictedExpr;

verus! {

/// An authorization request. The three identifiers are stored unvalidated
/// and parsed only when the request is materialized for the engine — a
/// deliberate deferred-validation design that lets a caller build a request
/// before everything it refers to exists. The context, in contrast, is
/// converted eagerly, so a badly shaped context fails fast.
pub struct AuthorizationRequest {
    principal: String,
    action: String,
    resource: String,
    context: Option<cedar_policy::Context>,
    schema: Option<cedar_policy::Schema>,
}

impl AuthorizationRequest {
    pub closed spec fn principal_view(&self) -> Seq<char> {
        self.principal@
    }

    pub closed spec fn action_view(&self) -> Seq<char> {
        self.action@
    }

    pub closed spec fn resource_view(&self) -> Seq<char> {
        self.resource@
    }

    pub closed spec fn has_context(&self) -> bool {
        self.context is Some
    }

    pub closed spec fn has_schema(&self) -> bool {
        self.schema is Some
    }

    /// Builds a request. The identifiers are stored as given; a context,
    /// if any, must be a mapping and convert cleanly, and is assembled
    /// into the engine's context record at once.
    pub fn new(
        principal: String,
        action: String,
        resource: String,
        context: Option<&DynamicValue>,
        schema: Option<&CedarSchema>,
    ) -> (r: Result<AuthorizationRequest, Error>)
        ensures
            r is Ok ==> ({
                let q = r->Ok_0;
                &&& q.principal_view() == principal@
                &&& q.action_view() == action@
                &&& q.resource_view() == resource@
                &&& q.has_context() == (context is Some)
                &&& q.has_schema() == (schema is Some)
            }),
            context is None ==> r is Ok,
            context is Some && !((context->0).deep_view() is Mapping) ==> (r matches Err(e) && e@
                == EvView::ContextNotMapping),
            context is Some && (context->0).deep_view() is Mapping && convert_entries(
                (context->0).deep_view()->Mapping_0,
                0,
            ) is Err ==> (r matches Err(e) && e@ == EvView::Conversion(
                convert_entries((context->0).deep_view()->Mapping_0, 0)->Err_0,
            )),
            context is Some && (context->0).deep_view() is Mapping && convert_entries(
                (context->0).deep_view()->Mapping_0,
                0,
            ) is Ok ==> (r is Ok || (r matches Err(e) && e@ is ContextBuild)),
    {
        let engine_context: Option<cedar_policy::Context> = match context {
            None => None,
            Some(c) => match c {
                DynamicValue::Mapping(entries) => {
                    proof {
                        assert(c.deep_view()->Mapping_0 =~= entries.deep_view());
                    }
                    match convert_mapping(entries) {
                        Err(e) => {
                            return Err(Error::Conversion(e));
                        },
                        Ok(converted) => match Self::build_context(&converted) {
                            Ok(ctx) => Some(ctx),
                            Err(m) => {
                                return Err(Error::ContextBuild(m));
                            },
                        },
                    }
                },
                _ => {
                    return Err(Error::ContextNotMapping);
                },
            },
        };
        let engine_schema: Option<cedar_policy::Schema> = match schema {
            Some(s) => Some(clone_schema(s.get_schema())),
            None => None,
        };
        Ok(
            AuthorizationRequest {
                principal,
                action,
                resource,
                context: engine_context,
                schema: engine_schema,
            },
        )
    }

    /// Assembles the engine's context record from converted entries.
    fn build_context(entries: &Vec<(String, RestrictedExpr)>) -> Result<
        cedar_policy::Context,
        String,
    > {
        let mut pairs: Vec<(String, cedar_policy::RestrictedExpression)> = Vec::new();
        let mut i: usize = 0;
        while i < entries.len()
            invariant
                i <= entries.len(),
            decreases entries.len() - i,
        {
            match to_engine_expr(&entries[i].1) {
                Ok(x) => pairs.push((entries[i].0.clone(), x)),
                Err(m) => {
                    return Err(m);
                },
            }
            i = i + 1;
        }
        context_from_pairs(pairs)
    }

    /// Materializes the request for the engine: parses the three
    /// identifiers, each failing with its own error naming the field;
    /// substitutes an empty context where none was given; and, where a
    /// schema is attached, lets the engine validate the request's shape.
    /// Without a schema, a request whose three identifiers parse always
    /// materializes.
    pub fn materialize(&self) -> (r: Result<cedar_policy::Request, Error>)
        ensures
            !is_valid_euid(self.principal_view()) ==> (r matches Err(e) && e@
                == EvView::InvalidPrincipal(self.principal_view())),
            is_valid_euid(self.principal_view()) && !is_valid_euid(self.action_view()) ==> (
            r matches Err(e) && e@ == EvView::InvalidAction(self.action_view())),
            is_valid_euid(self.principal_view()) && is_valid_euid(self.action_view())
                && !is_valid_euid(self.resource_view()) ==> (r matches Err(e) && e@
                == EvView::InvalidResource(self.resource_view())),
            r is Ok ==> is_valid_euid(self.principal_view()) && is_valid_euid(self.action_view())
                && is_valid_euid(self.resource_view()),
            is_valid_euid(self.principal_view()) && is_valid_euid(self.action_view())
                && is_valid_euid(self.resource_view()) && !self.has_schema() ==> r is Ok,
            is_valid_euid(self.principal_view()) && is_valid_euid(self.action_view())
                && is_valid_euid(self.resource_view()) && self.has_schema() ==> (r is Ok || (
            r matches Err(e) && e@ is RequestBuild)),
    {
        let principal = match parse_euid(self.principal.as_str()) {
            Ok(u) => u,
            Err(_) => {
                return Err(Error::InvalidPrincipal(self.principal.clone()));
            },
        };
        let action = match parse_euid(self.action.as_str()) {
            Ok(u) => u,
            Err(_) => {
                return Err(Error::InvalidAction(self.action.clone()));
            },
        };
        let resource = match parse_euid(self.resource.as_str()) {
            Ok(u) => u,
            Err(_) => {
                return Err(Error::InvalidResource(self.resource.clone()));
            },
        };
        let context = match &self.context {
            Some(c) => clone_context(c),
            None => empty_context(),
        };
        match new_engine_request(principal, action, resource, context, self.schema.as_ref()) {
            Ok(q) => Ok(q),
            Err(m) => Err(Error::RequestBuild(m)),
        }
    }
}

} // verus!
