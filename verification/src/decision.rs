//! The outcome of an authorization call: Allow or Deny, plus an ordered
//! diagnostic trail.

use vstd::prelude::*;

use crate::engine::new_authorizer;
use crate::engine::response_errors;
use crate::engine::response_is_allow;
use crate::engine::response_reasons;
use crate::text::prefixed_all;

verus! {

/// Whether the engine allowed or denied the request.
#[derive(Debug, Clone, Copy, PartialEq, Eq, Structural)]
pub enum Outcome {
    Allow,
    Deny,
}

/// An authorization decision, immutable once constructed: the outcome, and
/// diagnostics in the fixed order of all evaluation errors first, then all
/// contributing-policy reasons, each group in the engine's own order.
#[derive(Debug, Clone, PartialEq, Eq)]
pub struct Decision {
    pub outcome: Outcome,
    pub diagnostics: Vec<String>,
}

impl Decision {
    /// Assembles a decision from the engine's answers: Allow exactly when
    /// the engine allowed, and the diagnostics are the errors prefixed
    /// `Error: ` followed by the reasons prefixed `Reason: `, orders kept.
    pub fn from_parts(allow: bool, errors: &Vec<String>, reasons: &Vec<String>) -> (d: Decision)
        ensures
            d.outcome == (if allow {
                Outcome::Allow
            } else {
                Outcome::Deny
            }),
            d.diagnostics.deep_view() == prefixed_all("Error: "@, errors.deep_view())
                + prefixed_all("Reason: "@, reasons.deep_view()),
    {
        let out = crate::text::prefix_two_groups("Error: ", errors, "Reason: ", reasons);
        Decision { outcome: if allow {
            Outcome::Allow
        } else {
            Outcome::Deny
        }, diagnostics: out }
    }

    /// Wraps an engine response: reads its decision, errors and reasons,
    /// and assembles the diagnostic trail from whatever the engine said.
    pub fn from_cedar_response(resp: &cedar_policy::Response) -> (d: Decision)
        ensures
            exists|errors: Seq<Seq<char>>, reasons: Seq<Seq<char>>|
                d.diagnostics.deep_view() == prefixed_all("Error: "@, errors) + prefixed_all(
                    "Reason: "@,
                    reasons,
                ),
    {
        let allow = response_is_allow(resp);
        let errors = response_errors(resp);
        let reasons = response_reasons(resp);
        let d = Decision::from_parts(allow, &errors, &reasons);
        proof {
            let ev = errors.deep_view();
            let rv = reasons.deep_view();
            assert(d.diagnostics.deep_view() == prefixed_all("Error: "@, ev) + prefixed_all(
                "Reason: "@,
                rv,
            ));
        }
        d
    }

    /// The decision as text: `Allow` or `Deny`.
    pub fn decision(&self) -> (r: String)
        ensures
            self.outcome is Allow ==> r@ == "Allow"@,
            self.outcome is Deny ==> r@ == "Deny"@,
    {
        match self.outcome {
            Outcome::Allow => String::from_str("Allow"),
            Outcome::Deny => String::from_str("Deny"),
        }
    }

    /// The diagnostic messages, in their fixed order.
    pub fn diagnostics(&self) -> (r: &Vec<String>)
        ensures
            r == &self.diagnostics,
    {
        &self.diagnostics
    }

    /// Whether the decision is Allow; this is also the decision's truth
    /// value for a host that coerces it to a boolean.
    pub fn is_allowed(&self) -> (r: bool)
        ensures
            r == (self.outcome is Allow),
    {
        match self.outcome {
            Outcome::Allow => true,
            Outcome::Deny => false,
        }
    }
}

/// Runs the engine's authorizer on a materialized request, policy set and
/// entity collection, and wraps the response.
pub(crate) fn authorize_with_engine(
    request: &cedar_policy::Request,
    policies: &cedar_policy::PolicySet,
    entities: &cedar_policy::Entities,
) -> Decision {
    let auth = new_authorizer();
    let resp = crate::engine::engine_authorize(&auth, request, policies, entities);
    Decision::from_cedar_response(&resp)
}

} // verus!
