//! Reusable policy templates: policy text with unbound `?principal` /
//! `?resource` slots, validated as a template when created.

use vstd::prelude::*;

use crate::engine::check_template;
use crate::engine::is_valid_euid;
use crate::engine::parse_euid;
use crate::engine::template_parses;
use crate::errors::Error;
use crate::errors::EvView;

verus! {

/// A policy template held by its caller-chosen id; the text is validated as
/// a template when the value is created, and kept verbatim.
#[derive(Debug, Clone, PartialEq, Eq)]
pub struct PolicyTemplate {
    template_id: String,
    template_text: String,
}

impl PolicyTemplate {
    pub closed spec fn id_view(&self) -> Seq<char> {
        self.template_id@
    }

    pub closed spec fn text_view(&self) -> Seq<char> {
        self.template_text@
    }

    /// The text always parses as a template.
    pub open spec fn wf(&self) -> bool {
        template_parses(self.text_view())
    }

    /// Creates a template, validating the text through the engine's
    /// template parser; fails exactly on the texts the engine refuses.
    pub fn new(template_id: String, template_text: String) -> (r: Result<Self, Error>)
        ensures
            r is Ok <==> template_parses(template_text@),
            r is Ok ==> r->Ok_0.wf() && r->Ok_0.id_view() == template_id@ && r->Ok_0.text_view()
                == template_text@,
            r is Err ==> r->Err_0@ is InvalidTemplate,
    {
        match check_template(template_text.as_str()) {
            Ok(_) => Ok(PolicyTemplate { template_id, template_text }),
            Err(m) => Err(Error::InvalidTemplate(m)),
        }
    }

    /// The template's id.
    pub fn template_id(&self) -> (r: String)
        ensures
            r@ == self.id_view(),
    {
        self.template_id.clone()
    }

    /// The template's text.
    pub fn template_text(&self) -> (r: String)
        ensures
            r@ == self.text_view(),
    {
        self.template_text.clone()
    }

    /// Prepares an instantiation of this template: checks every slot value
    /// parses as an entity UID, and hands back the triple a registry's
    /// `add_template_linked_policy` takes. Fails on the first slot whose
    /// value the engine's UID parser refuses, naming that value.
    pub fn instantiate(&self, policy_id: String, slots: &Vec<(String, String)>) -> (r: Result<
        (String, String, Vec<(String, String)>),
        Error,
    >)
        ensures
            r is Ok <==> (forall|i: int|
                0 <= i < slots.deep_view().len() ==> is_valid_euid(
                    (#[trigger] slots.deep_view()[i]).1,
                )),
            r is Ok ==> r->Ok_0.0@ == policy_id@ && r->Ok_0.1@ == self.id_view()
                && r->Ok_0.2.deep_view() == slots.deep_view(),
            r is Err ==> (exists|i: int|
                0 <= i < slots.deep_view().len() && !is_valid_euid(
                    (#[trigger] slots.deep_view()[i]).1,
                ) && r->Err_0@ == EvView::InvalidEntityUid(slots.deep_view()[i].1)),
    {
        let ghost sv = slots.deep_view();
        let mut out: Vec<(String, String)> = Vec::new();
        let mut i: usize = 0;
        while i < slots.len()
            invariant
                i <= slots.len(),
                sv == slots.deep_view(),
                sv.len() == slots.len(),
                out.deep_view().len() == i,
                forall|j: int| 0 <= j < i ==> out.deep_view()[j] == sv[j],
                forall|j: int| 0 <= j < i ==> is_valid_euid((#[trigger] sv[j]).1),
            decreases slots.len() - i,
        {
            match parse_euid(slots[i].1.as_str()) {
                Ok(_) => {
                    let ghost prev = out.deep_view();
                    let entry = (slots[i].0.clone(), slots[i].1.clone());
                    proof {
                        assert(entry.deep_view() == sv[i as int]);
                    }
                    out.push(entry);
                    proof {
                        assert(out.deep_view() =~= prev.push(sv[i as int]));
                    }
                },
                Err(_) => {
                    proof {
                        assert(!is_valid_euid(sv[i as int].1));
                        assert(slots.deep_view()[i as int] == sv[i as int]);
                    }
                    return Err(Error::InvalidEntityUid(slots[i].1.clone()));
                },
            }
            i = i + 1;
        }
        proof {
            assert(out.deep_view() =~= sv);
        }
        Ok((policy_id, self.template_id.clone(), out))
    }
}

} // verus!
