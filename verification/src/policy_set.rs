//! The policy registry: policies and templates by caller-chosen id, with
//! template-linked policies resolved at materialization time into the
//! engine's combined, re-parsed representation.

use vstd::prelude::*;

use crate::engine::check_policy;
use crate::engine::empty_engine_policy_set;
use crate::engine::is_valid_euid;
use crate::engine::link_in_engine;
use crate::engine::parse_engine_policy_set;
use crate::engine::parse_euid;
use crate::engine::parse_policy_list;
use crate::engine::parsed_policies;
use crate::engine::policy_parses;
use crate::engine::policy_set_parses;
use crate::engine::SlotKind;
use crate::errors::Error;
use crate::errors::EvView;
use crate::policy_template::PolicyTemplate;
use crate::table::has_key;
use crate::table::key_value;
use crate::table::put;
use crate::table::table_get;
use crate::table::table_has;
use crate::table::table_put;
use crate::text::auto_policy_id;
use crate::text::spec_auto_id;
use crate::text::str_eq;

verus! {

/// A stored template link: the template it instantiates and the slot
/// bindings, validated when the link was added.
#[derive(Debug, Clone, PartialEq, Eq)]
pub struct LinkRecord {
    pub template_id: String,
    pub slots: Vec<(String, String)>,
}

/// The mathematical model of a `LinkRecord`.
pub struct LrView {
    pub template_id: Seq<char>,
    pub slots: Seq<(Seq<char>, Seq<char>)>,
}

impl View for LinkRecord {
    type V = LrView;

    open spec fn view(&self) -> LrView {
        LrView { template_id: self.template_id@, slots: self.slots.deep_view() }
    }
}

impl DeepView for LinkRecord {
    type V = LrView;

    open spec fn deep_view(&self) -> LrView {
        self.view()
    }
}

/// Inserts a batch of (id, text) entries in order, last write wins.
pub open spec fn put_all(
    s: Seq<(Seq<char>, Seq<char>)>,
    entries: Seq<(Seq<char>, Seq<char>)>,
    i: int,
) -> Seq<(Seq<char>, Seq<char>)>
    decreases entries.len() - i,
{
    if i < 0 || i >= entries.len() {
        s
    } else {
        put_all(put(s, entries[i].0, entries[i].1), entries, i + 1)
    }
}

impl View for SlotKind {
    type V = SlotKind;

    open spec fn view(&self) -> SlotKind {
        *self
    }
}

impl DeepView for SlotKind {
    type V = SlotKind;

    open spec fn deep_view(&self) -> SlotKind {
        *self
    }
}

/// Which slot a name denotes: exactly `principal` and `resource` exist.
pub open spec fn slot_kind_of(name: Seq<char>) -> Option<SlotKind> {
    if name == "principal"@ {
        Some(SlotKind::Principal)
    } else if name == "resource"@ {
        Some(SlotKind::Resource)
    } else {
        None
    }
}

/// Whether a stored link resolves against the side table: its template is
/// in the table, every slot name is one of the two known kinds, and every
/// slot value parses as an entity UID.
pub open spec fn spec_link_ok(l: LrView, table: Seq<(Seq<char>, Seq<char>)>) -> bool {
    &&& has_key(table, l.template_id)
    &&& forall|i: int|
        0 <= i < l.slots.len() ==> slot_kind_of((#[trigger] l.slots[i]).0) is Some && is_valid_euid(
            l.slots[i].1,
        )
}

/// A link made ready for the engine: the caller's policy id, the engine's
/// auto-assigned id for the template, and the classified slot bindings.
#[derive(Debug, Clone, PartialEq, Eq)]
pub struct ResolvedLink {
    pub policy_id: String,
    pub engine_template_id: String,
    pub slots: Vec<(SlotKind, String)>,
}

/// The mathematical model of a `ResolvedLink`.
pub struct RlView {
    pub policy_id: Seq<char>,
    pub engine_template_id: Seq<char>,
    pub slots: Seq<(SlotKind, Seq<char>)>,
}

impl View for ResolvedLink {
    type V = RlView;

    open spec fn view(&self) -> RlView {
        RlView {
            policy_id: self.policy_id@,
            engine_template_id: self.engine_template_id@,
            slots: self.slots.deep_view(),
        }
    }
}

impl DeepView for ResolvedLink {
    type V = RlView;

    open spec fn deep_view(&self) -> RlView {
        self.view()
    }
}

/// The engine-ready form of one resolvable link.
pub open spec fn spec_resolved(
    entry: (Seq<char>, LrView),
    table: Seq<(Seq<char>, Seq<char>)>,
) -> RlView {
    RlView {
        policy_id: entry.0,
        engine_template_id: key_value(table, entry.1.template_id),
        slots: Seq::new(
            entry.1.slots.len(),
            |i: int| (slot_kind_of(entry.1.slots[i].0)->0, entry.1.slots[i].1),
        ),
    }
}

/// The engine-ready forms of the resolvable links from index `i` on, in
/// order; unresolvable links are passed over.
pub open spec fn resolve_spec(
    links: Seq<(Seq<char>, LrView)>,
    table: Seq<(Seq<char>, Seq<char>)>,
    i: int,
) -> Seq<RlView>
    decreases links.len() - i,
{
    if i < 0 || i >= links.len() {
        Seq::empty()
    } else if spec_link_ok(links[i].1, table) {
        seq![spec_resolved(links[i], table)] + resolve_spec(links, table, i + 1)
    } else {
        resolve_spec(links, table, i + 1)
    }
}

/// How many links from index `i` on do not resolve.
pub open spec fn dropped_count(
    links: Seq<(Seq<char>, LrView)>,
    table: Seq<(Seq<char>, Seq<char>)>,
    i: int,
) -> int
    decreases links.len() - i,
{
    if i < 0 || i >= links.len() {
        0
    } else if spec_link_ok(links[i].1, table) {
        dropped_count(links, table, i + 1)
    } else {
        1 + dropped_count(links, table, i + 1)
    }
}

/// The texts of the first `n` entries concatenated in order, each followed
/// by a blank line.
pub open spec fn concat_upto(s: Seq<(Seq<char>, Seq<char>)>, n: int) -> Seq<char>
    decreases n,
{
    if n <= 0 {
        Seq::empty()
    } else {
        concat_upto(s, n - 1) + s[n - 1].1 + "\n\n"@
    }
}

/// A registry of policies, templates and template links, each keyed by a
/// caller-chosen id in insertion order, plus the running counter for
/// auto-assigned policy ids.
#[derive(Debug, PartialEq, Eq)]
pub struct PolicyRegistry {
    policies: Vec<(String, String)>,
    templates: Vec<(String, String)>,
    template_links: Vec<(String, LinkRecord)>,
    next_auto_id: u64,
}

impl PolicyRegistry {
    /// The stored policies: (id, verbatim text) in insertion order.
    pub closed spec fn policies_view(&self) -> Seq<(Seq<char>, Seq<char>)> {
        self.policies.deep_view()
    }

    /// The stored templates: (id, verbatim text) in insertion order.
    pub closed spec fn templates_view(&self) -> Seq<(Seq<char>, Seq<char>)> {
        self.templates.deep_view()
    }

    /// The stored template links: (policy id, link) in insertion order.
    pub closed spec fn links_view(&self) -> Seq<(Seq<char>, LrView)> {
        self.template_links.deep_view()
    }

    /// The next auto-assigned policy id number.
    pub closed spec fn next_id(&self) -> u64 {
        self.next_auto_id
    }

    /// Creates an empty registry.
    pub fn new() -> (r: PolicyRegistry)
        ensures
            r.policies_view() == Seq::<(Seq<char>, Seq<char>)>::empty(),
            r.templates_view() == Seq::<(Seq<char>, Seq<char>)>::empty(),
            r.links_view() == Seq::<(Seq<char>, LrView)>::empty(),
            r.next_id() == 0,
    {
        let r = PolicyRegistry {
            policies: Vec::new(),
            templates: Vec::new(),
            template_links: Vec::new(),
            next_auto_id: 0,
        };
        proof {
            assert(r.policies_view() =~= Seq::<(Seq<char>, Seq<char>)>::empty());
            assert(r.templates_view() =~= Seq::<(Seq<char>, Seq<char>)>::empty());
            assert(r.links_view() =~= Seq::<(Seq<char>, LrView)>::empty());
        }
        r
    }

    /// Builds a registry from a multi-policy document: the engine parses
    /// the whole text, and each recovered policy is stored under the
    /// engine's own id (auto-assigned ids for unannotated clauses), with
    /// the auto-id counter set to the number of stored policies.
    pub fn from_str(policies_text: &str) -> (r: Result<PolicyRegistry, Error>)
        ensures
            r is Ok <==> policy_set_parses(policies_text@),
            r is Ok ==> ({
                let reg = r->Ok_0;
                &&& reg.policies_view() == put_all(
                    Seq::<(Seq<char>, Seq<char>)>::empty(),
                    parsed_policies(policies_text@),
                    0,
                )
                &&& reg.templates_view() == Seq::<(Seq<char>, Seq<char>)>::empty()
                &&& reg.links_view() == Seq::<(Seq<char>, LrView)>::empty()
                &&& reg.next_id() == reg.policies_view().len()
            }),
            r is Err ==> r->Err_0@ is InvalidPolicySet,
    {
        match parse_policy_list(policies_text) {
            Err(m) => Err(Error::InvalidPolicySet(m)),
            Ok(pairs) => {
                let ghost entries = parsed_policies(policies_text@);
                let mut reg = PolicyRegistry::new();
                let mut i: usize = 0;
                while i < pairs.len()
                    invariant
                        i <= pairs.len(),
                        entries == pairs.deep_view(),
                        entries.len() == pairs.len(),
                        reg.templates_view() == Seq::<(Seq<char>, Seq<char>)>::empty(),
                        reg.links_view() == Seq::<(Seq<char>, LrView)>::empty(),
                        put_all(Seq::<(Seq<char>, Seq<char>)>::empty(), entries, 0) == put_all(
                            reg.policies_view(),
                            entries,
                            i as int,
                        ),
                    decreases pairs.len() - i,
                {
                    table_put(&mut reg.policies, pairs[i].0.clone(), pairs[i].1.clone());
                    i = i + 1;
                }
                let n = reg.policies.len();
                reg.next_auto_id = n as u64;
                Ok(reg)
            },
        }
    }

    /// Parses a multi-policy document and adds every recovered policy
    /// under a fresh auto-assigned id (`policy0`, `policy1`, ... continuing
    /// the registry-wide counter, so repeated calls never reuse an id);
    /// returns the assigned ids in the order the engine recovered the
    /// policies.
    pub fn add_policies_from_str(&mut self, policies_text: &str) -> (r: Result<Vec<String>, Error>)
        ensures
            r is Ok <==> policy_set_parses(policies_text@) && old(self).next_id()
                + parsed_policies(policies_text@).len() <= u64::MAX,
            !policy_set_parses(policies_text@) ==> (r matches Err(e) && e@ is InvalidPolicySet),
            policy_set_parses(policies_text@) && old(self).next_id() + parsed_policies(
                policies_text@,
            ).len() > u64::MAX ==> (r matches Err(e) && e@ is IdCounterExhausted),
            r is Err ==> *final(self) == *old(self),
            r is Ok ==> ({
                let texts = parsed_policies(policies_text@);
                let start = old(self).next_id();
                &&& r->Ok_0.deep_view() == Seq::new(
                    texts.len(),
                    |i: int| spec_auto_id((start + i) as nat),
                )
                &&& final(self).policies_view() == put_all(
                    old(self).policies_view(),
                    Seq::new(
                        texts.len(),
                        |i: int| (spec_auto_id((start + i) as nat), texts[i].1),
                    ),
                    0,
                )
                &&& final(self).next_id() == start + texts.len()
                &&& final(self).templates_view() == old(self).templates_view()
                &&& final(self).links_view() == old(self).links_view()
            }),
    {
        match parse_policy_list(policies_text) {
            Err(m) => Err(Error::InvalidPolicySet(m)),
            Ok(pairs) => {
                let n = pairs.len();
                if (n as u64) > u64::MAX - self.next_auto_id {
                    return Err(Error::IdCounterExhausted);
                }
                let ghost start = old(self).next_id();
                let ghost texts = parsed_policies(policies_text@);
                let ghost entries = Seq::new(
                    texts.len(),
                    |i: int| (spec_auto_id((start + i) as nat), texts[i].1),
                );
                let mut ids: Vec<String> = Vec::new();
                let mut i: usize = 0;
                while i < n
                    invariant
                        i <= n,
                        n == pairs.len(),
                        texts == pairs.deep_view(),
                        texts.len() == n,
                        entries == Seq::new(
                            texts.len(),
                            |k: int| (spec_auto_id((start + k) as nat), texts[k].1),
                        ),
                        start + n <= u64::MAX,
                        self.next_auto_id == start + i,
                        self.templates == old(self).templates,
                        self.template_links == old(self).template_links,
                        put_all(old(self).policies_view(), entries, 0) == put_all(
                            self.policies_view(),
                            entries,
                            i as int,
                        ),
                        ids.deep_view().len() == i,
                        forall|j: int|
                            0 <= j < i ==> ids.deep_view()[j] == spec_auto_id((start + j) as nat),
                    decreases n - i,
                {
                    let id = auto_policy_id(self.next_auto_id);
                    let ghost prev_ids = ids.deep_view();
                    ids.push(id.clone());
                    proof {
                        assert(ids.deep_view() =~= prev_ids.push(spec_auto_id((start + i) as nat)));
                        assert(entries[i as int] == (spec_auto_id((start + i) as nat), texts[i as int].1));
                    }
                    table_put(&mut self.policies, id, pairs[i].1.clone());
                    self.next_auto_id = self.next_auto_id + 1;
                    i = i + 1;
                }
                proof {
                    assert(ids.deep_view() =~= Seq::new(
                        texts.len(),
                        |j: int| spec_auto_id((start + j) as nat),
                    ));
                }
                Ok(ids)
            },
        }
    }

    /// Adds a policy under a caller-chosen id, validating that the text
    /// parses as a standalone policy; the rest of the registry is not
    /// consulted, and an existing id is overwritten.
    pub fn add_policy(&mut self, policy_id: String, policy_text: &str) -> (r: Result<(), Error>)
        ensures
            r is Ok <==> policy_parses(policy_text@),
            r is Ok ==> final(self).policies_view() == put(
                old(self).policies_view(),
                policy_id@,
                policy_text@,
            ),
            r is Err ==> final(self).policies_view() == old(self).policies_view() && (
            r matches Err(e) && e@ is InvalidPolicy),
            final(self).templates_view() == old(self).templates_view(),
            final(self).links_view() == old(self).links_view(),
            final(self).next_id() == old(self).next_id(),
    {
        match check_policy(policy_text) {
            Ok(_) => {
                table_put(&mut self.policies, policy_id, policy_text.to_owned());
                Ok(())
            },
            Err(m) => Err(Error::InvalidPolicy(m)),
        }
    }

    /// Looks a policy's verbatim text up by its id.
    pub fn get_policy(&self, policy_id: &str) -> (r: Option<String>)
        ensures
            r is Some <==> has_key(self.policies_view(), policy_id@),
            r is Some ==> r->0@ == key_value(self.policies_view(), policy_id@),
    {
        match table_get(&self.policies, policy_id) {
            Some(t) => Some(t.clone()),
            None => None,
        }
    }

    /// Adds a template, overwriting silently on a duplicate id.
    pub fn add_template(&mut self, template: &PolicyTemplate) -> (r: Result<(), Error>)
        ensures
            r is Ok,
            final(self).templates_view() == put(
                old(self).templates_view(),
                template.id_view(),
                template.text_view(),
            ),
            final(self).policies_view() == old(self).policies_view(),
            final(self).links_view() == old(self).links_view(),
            final(self).next_id() == old(self).next_id(),
    {
        table_put(&mut self.templates, template.template_id(), template.template_text());
        Ok(())
    }

    /// Records a template-linked policy: fails with `UnknownTemplate` when
    /// the template id is not in the registry, then with `InvalidEntityUid`
    /// on the first slot value that does not parse; resolution into the
    /// engine is deferred to materialization.
    pub fn add_template_linked_policy(
        &mut self,
        policy_id: String,
        template_id: String,
        slots: Vec<(String, String)>,
    ) -> (r: Result<(), Error>)
        ensures
            r is Ok <==> has_key(old(self).templates_view(), template_id@) && (forall|i: int|
                0 <= i < slots.deep_view().len() ==> is_valid_euid(
                    (#[trigger] slots.deep_view()[i]).1,
                )),
            r is Ok ==> final(self).links_view() == put(
                old(self).links_view(),
                policy_id@,
                LrView { template_id: template_id@, slots: slots.deep_view() },
            ),
            r is Err ==> final(self).links_view() == old(self).links_view(),
            !has_key(old(self).templates_view(), template_id@) ==> (r matches Err(e) && e@
                == EvView::UnknownTemplate(template_id@)),
            has_key(old(self).templates_view(), template_id@) && (exists|i: int|
                0 <= i < slots.deep_view().len() && !is_valid_euid(
                    (#[trigger] slots.deep_view()[i]).1,
                )) ==> (exists|k: int|
                0 <= k < slots.deep_view().len() && !is_valid_euid(slots.deep_view()[k].1) && (
                forall|j: int|
                    0 <= j < k ==> is_valid_euid((#[trigger] slots.deep_view()[j]).1)) && (
                r matches Err(e) && e@ == EvView::InvalidEntityUid(slots.deep_view()[k].1))),
            final(self).policies_view() == old(self).policies_view(),
            final(self).templates_view() == old(self).templates_view(),
            final(self).next_id() == old(self).next_id(),
    {
        let ghost sv = slots.deep_view();
        if !table_has(&self.templates, template_id.as_str()) {
            return Err(Error::UnknownTemplate(template_id));
        }
        let mut i: usize = 0;
        while i < slots.len()
            invariant
                *self == *old(self),
                has_key(old(self).templates_view(), template_id@),
                i <= slots.len(),
                sv == slots.deep_view(),
                sv.len() == slots.len(),
                forall|j: int| 0 <= j < i ==> is_valid_euid((#[trigger] sv[j]).1),
            decreases slots.len() - i,
        {
            match parse_euid(slots[i].1.as_str()) {
                Ok(_) => {},
                Err(_) => {
                    proof {
                        assert(!is_valid_euid(sv[i as int].1));
                        assert(slots.deep_view()[i as int] == sv[i as int]);
                    }
                    return Err(Error::InvalidEntityUid(slots[i].1.clone()));
                },
            }
            i = i + 1;
        }
        let record = LinkRecord { template_id, slots };
        table_put(&mut self.template_links, policy_id, record);
        Ok(())
    }

    /// The document handed to the engine at materialization: every stored
    /// policy's text in insertion order, then every stored template's text,
    /// each clause followed by a blank line.
    pub open spec fn spec_combined(&self) -> Seq<char> {
        concat_upto(self.policies_view(), self.policies_view().len() as int) + concat_upto(
            self.templates_view(),
            self.templates_view().len() as int,
        )
    }

    /// The side table built during concatenation: each stored template id
    /// mapped to the id the engine will auto-assign to that clause (the
    /// clauses are numbered in document order, policies first).
    pub open spec fn spec_table(&self) -> Seq<(Seq<char>, Seq<char>)> {
        Seq::new(
            self.templates_view().len(),
            |i: int|
                (
                    self.templates_view()[i].0,
                    spec_auto_id((self.policies_view().len() + i) as nat),
                ),
        )
    }

    /// Renders the combined document.
    fn combined_text(&self) -> (r: String)
        ensures
            r@ == self.spec_combined(),
    {
        let mut acc = String::new();
        let mut i: usize = 0;
        while i < self.policies.len()
            invariant
                i <= self.policies.len(),
                self.policies_view().len() == self.policies.len(),
                acc@ == concat_upto(self.policies_view(), i as int),
            decreases self.policies.len() - i,
        {
            acc.append(self.policies[i].1.as_str());
            acc.append("\n\n");
            i = i + 1;
        }
        let mut j: usize = 0;
        while j < self.templates.len()
            invariant
                j <= self.templates.len(),
                self.templates_view().len() == self.templates.len(),
                acc@ == concat_upto(self.policies_view(), self.policies_view().len() as int)
                    + concat_upto(self.templates_view(), j as int),
            decreases self.templates.len() - j,
        {
            acc.append(self.templates[j].1.as_str());
            acc.append("\n\n");
            j = j + 1;
        }
        acc
    }

    /// Builds the side table from template ids to engine-assigned ids.
    fn build_table(&self) -> (r: Vec<(String, String)>)
        requires
            self.policies_view().len() + self.templates_view().len() <= u64::MAX,
        ensures
            r.deep_view() == self.spec_table(),
    {
        let np = self.policies.len();
        let mut table: Vec<(String, String)> = Vec::new();
        let mut i: usize = 0;
        while i < self.templates.len()
            invariant
                i <= self.templates.len(),
                np == self.policies_view().len(),
                self.templates_view().len() == self.templates.len(),
                np + self.templates.len() <= u64::MAX,
                table.deep_view().len() == i,
                forall|j: int| 0 <= j < i ==> table.deep_view()[j] == self.spec_table()[j],
            decreases self.templates.len() - i,
        {
            let ghost prev = table.deep_view();
            let auto = auto_policy_id((np as u64) + (i as u64));
            table.push((self.templates[i].0.clone(), auto));
            proof {
                assert(table.deep_view() =~= prev.push(self.spec_table()[i as int]));
            }
            i = i + 1;
        }
        proof {
            assert(table.deep_view() =~= self.spec_table());
        }
        table
    }

    /// Classifies a stored link's slots: `None` as soon as a slot name is
    /// not one of the two known kinds or a slot value does not parse.
    fn classify_slots(slots: &Vec<(String, String)>) -> (r: Option<Vec<(SlotKind, String)>>)
        ensures
            r is Some <==> (forall|i: int|
                0 <= i < slots.deep_view().len() ==> slot_kind_of(
                    (#[trigger] slots.deep_view()[i]).0,
                ) is Some && is_valid_euid(slots.deep_view()[i].1)),
            r is Some ==> r->0.deep_view() == Seq::new(
                slots.deep_view().len(),
                |i: int|
                    (slot_kind_of(slots.deep_view()[i].0)->0, slots.deep_view()[i].1),
            ),
    {
        let ghost sv = slots.deep_view();
        let mut out: Vec<(SlotKind, String)> = Vec::new();
        let mut i: usize = 0;
        while i < slots.len()
            invariant
                i <= slots.len(),
                sv == slots.deep_view(),
                sv.len() == slots.len(),
                out.deep_view().len() == i,
                forall|j: int|
                    0 <= j < i ==> slot_kind_of((#[trigger] sv[j]).0) is Some && is_valid_euid(
                        sv[j].1,
                    ),
                forall|j: int|
                    0 <= j < i ==> out.deep_view()[j] == (slot_kind_of(sv[j].0)->0, sv[j].1),
            decreases slots.len() - i,
        {
            let kind: SlotKind = if str_eq(slots[i].0.as_str(), "principal") {
                SlotKind::Principal
            } else if str_eq(slots[i].0.as_str(), "resource") {
                SlotKind::Resource
            } else {
                proof {
                    assert(slot_kind_of(sv[i as int].0) is None);
                }
                return None;
            };
            proof {
                assert(slot_kind_of(sv[i as int].0) == Some(kind));
            }
            match parse_euid(slots[i].1.as_str()) {
                Ok(_) => {},
                Err(_) => {
                    proof {
                        assert(!is_valid_euid(sv[i as int].1));
                    }
                    return None;
                },
            }
            let ghost prev = out.deep_view();
            out.push((kind, slots[i].1.clone()));
            proof {
                assert(out.deep_view() =~= prev.push((slot_kind_of(sv[i as int].0)->0, sv[i as int].1)));
            }
            i = i + 1;
        }
        proof {
            assert(out.deep_view() =~= Seq::new(
                sv.len(),
                |k: int| (slot_kind_of(sv[k].0)->0, sv[k].1),
            ));
        }
        Some(out)
    }

    /// Resolves every stored link against the side table, in insertion
    /// order: the resolvable ones come back engine-ready, and each dropped
    /// one leaves exactly one warning.
    fn resolve_links(&self, table: &Vec<(String, String)>) -> (r: (
        Vec<ResolvedLink>,
        Vec<String>,
    ))
        ensures
            r.0.deep_view() == resolve_spec(self.links_view(), table.deep_view(), 0),
            r.1.deep_view().len() == dropped_count(self.links_view(), table.deep_view(), 0),
    {
        let ghost lv = self.links_view();
        let ghost tv = table.deep_view();
        let mut resolved: Vec<ResolvedLink> = Vec::new();
        let mut warnings: Vec<String> = Vec::new();
        let mut i: usize = 0;
        while i < self.template_links.len()
            invariant
                i <= self.template_links.len(),
                lv == self.links_view(),
                tv == table.deep_view(),
                lv.len() == self.template_links.len(),
                resolve_spec(lv, tv, 0) == resolved.deep_view() + resolve_spec(lv, tv, i as int),
                warnings.deep_view().len() + dropped_count(lv, tv, i as int) == dropped_count(
                    lv,
                    tv,
                    0,
                ),
            decreases self.template_links.len() - i,
        {
            let entry = &self.template_links[i];
            let auto_id = match table_get(table, entry.1.template_id.as_str()) {
                Some(a) => Some(a.clone()),
                None => None,
            };
            let slots_opt = Self::classify_slots(&entry.1.slots);
            match (auto_id, slots_opt) {
                (Some(auto), Some(eslots)) => {
                    proof {
                        assert(spec_link_ok(lv[i as int].1, tv));
                    }
                    let ghost prev = resolved.deep_view();
                    let link = ResolvedLink {
                        policy_id: entry.0.clone(),
                        engine_template_id: auto,
                        slots: eslots,
                    };
                    proof {
                        assert(link.deep_view() == spec_resolved(lv[i as int], tv));
                    }
                    resolved.push(link);
                    proof {
                        assert(resolved.deep_view() =~= prev.push(spec_resolved(lv[i as int], tv)));
                        assert(resolved.deep_view() + resolve_spec(lv, tv, i + 1) =~= prev + (seq![
                            spec_resolved(lv[i as int], tv),
                        ] + resolve_spec(lv, tv, i + 1)));
                    }
                },
                _ => {
                    proof {
                        assert(!spec_link_ok(lv[i as int].1, tv));
                    }
                    let ghost prevw = warnings.deep_view();
                    warnings.push(
                        crate::text::prefixed(
                            "dropped template link for policy: ",
                            entry.0.as_str(),
                        ),
                    );
                    proof {
                        assert(warnings.deep_view().len() == prevw.len() + 1);
                    }
                },
            }
            i = i + 1;
        }
        proof {
            assert(resolve_spec(lv, tv, lv.len() as int) =~= Seq::<RlView>::empty());
            assert(resolved.deep_view() + resolve_spec(lv, tv, lv.len() as int) =~= resolved.deep_view());
        }
        (resolved, warnings)
    }

    /// Builds engine values for the classified slots; `None` if a value
    /// does not parse after all (the resolvable links never hit that).
    fn build_engine_slots(slots: &Vec<(SlotKind, String)>) -> Option<
        Vec<(SlotKind, cedar_policy::EntityUid)>,
    > {
        let mut out: Vec<(SlotKind, cedar_policy::EntityUid)> = Vec::new();
        let mut i: usize = 0;
        while i < slots.len()
            invariant
                i <= slots.len(),
            decreases slots.len() - i,
        {
            match parse_euid(slots[i].1.as_str()) {
                Ok(u) => out.push((slots[i].0, u)),
                Err(_) => {
                    return None;
                },
            }
            i = i + 1;
        }
        Some(out)
    }

    /// Materializes the registry for the engine: concatenates every stored
    /// policy's text, then every stored template's text, into one document;
    /// re-parses it through the engine, which numbers the clauses in
    /// document order; and registers every resolvable template link under
    /// the engine's auto-assigned template id. A link whose template is
    /// missing from the side table, whose slot name is not `principal` or
    /// `resource`, or whose slot value does not parse is dropped with a
    /// warning, as is a link the engine itself refuses. If the combined
    /// document does not parse, the result is the engine's empty policy
    /// set and a single warning.
    pub fn materialize(&self) -> (r: (cedar_policy::PolicySet, Vec<String>))
        requires
            self.policies_view().len() + self.templates_view().len() <= u64::MAX,
        ensures
            !policy_set_parses(self.spec_combined()) ==> r.1.deep_view().len() == 1,
            policy_set_parses(self.spec_combined()) ==> dropped_count(
                self.links_view(),
                self.spec_table(),
                0,
            ) <= r.1.deep_view().len() <= dropped_count(self.links_view(), self.spec_table(), 0)
                + resolve_spec(self.links_view(), self.spec_table(), 0).len(),
    {
        let combined = self.combined_text();
        match parse_engine_policy_set(combined.as_str()) {
            Err(m) => {
                let mut warnings: Vec<String> = Vec::new();
                warnings.push(
                    crate::text::prefixed("failed to parse combined policy set: ", m.as_str()),
                );
                (empty_engine_policy_set(), warnings)
            },
            Ok(engine_set) => {
                let mut engine_set = engine_set;
                let table = self.build_table();
                let (resolved, warnings) = self.resolve_links(&table);
                let mut warnings = warnings;
                let ghost rs = resolve_spec(self.links_view(), self.spec_table(), 0);
                let ghost base = dropped_count(self.links_view(), self.spec_table(), 0);
                let mut i: usize = 0;
                while i < resolved.len()
                    invariant
                        i <= resolved.len(),
                        rs.len() == resolved.len(),
                        base <= warnings.deep_view().len() <= base + i,
                    decreases resolved.len() - i,
                {
                    let link = &resolved[i];
                    match Self::build_engine_slots(&link.slots) {
                        None => {
                            warnings.push(
                                crate::text::prefixed(
                                    "dropped template link for policy: ",
                                    link.policy_id.as_str(),
                                ),
                            );
                        },
                        Some(eslots) => {
                            match link_in_engine(
                                &mut engine_set,
                                link.engine_template_id.as_str(),
                                link.policy_id.as_str(),
                                eslots,
                            ) {
                                Ok(_) => {},
                                Err(m) => {
                                    warnings.push(
                                        crate::text::prefixed("failed to link policy: ", m.as_str()),
                                    );
                                },
                            }
                        },
                    }
                    i = i + 1;
                }
                (engine_set, warnings)
            },
        }
    }

    /// The number of stored policies.
    pub fn policy_count(&self) -> (r: usize)
        ensures
            r == self.policies_view().len(),
    {
        self.policies.len()
    }

    /// The number of stored templates.
    pub fn template_count(&self) -> (r: usize)
        ensures
            r == self.templates_view().len(),
    {
        self.templates.len()
    }

    /// The number of stored template links.
    pub fn link_count(&self) -> (r: usize)
        ensures
            r == self.links_view().len(),
    {
        self.template_links.len()
    }

    /// The number of stored policies plus stored links; templates are not
    /// counted.
    pub fn len(&self) -> (r: usize)
        requires
            self.policies_view().len() + self.links_view().len() <= usize::MAX,
        ensures
            r == self.policies_view().len() + self.links_view().len(),
    {
        self.policies.len() + self.template_links.len()
    }
}

/// Clones a vector of (id, text) pairs, entries kept verbatim.
fn clone_string_pairs(v: &Vec<(String, String)>) -> (r: Vec<(String, String)>)
    ensures
        r.deep_view() == v.deep_view(),
{
    let ghost sv = v.deep_view();
    let mut out: Vec<(String, String)> = Vec::new();
    let mut i: usize = 0;
    while i < v.len()
        invariant
            i <= v.len(),
            sv == v.deep_view(),
            sv.len() == v.len(),
            out.deep_view().len() == i,
            forall|j: int| 0 <= j < i ==> out.deep_view()[j] == sv[j],
        decreases v.len() - i,
    {
        let ghost prev = out.deep_view();
        out.push((v[i].0.clone(), v[i].1.clone()));
        proof {
            assert(out.deep_view() =~= prev.push(sv[i as int]));
        }
        i = i + 1;
    }
    proof {
        assert(out.deep_view() =~= sv);
    }
    out
}

/// Clones the stored template links, entries kept verbatim.
fn clone_links(v: &Vec<(String, LinkRecord)>) -> (r: Vec<(String, LinkRecord)>)
    ensures
        r.deep_view() == v.deep_view(),
{
    let ghost sv = v.deep_view();
    let mut out: Vec<(String, LinkRecord)> = Vec::new();
    let mut i: usize = 0;
    while i < v.len()
        invariant
            i <= v.len(),
            sv == v.deep_view(),
            sv.len() == v.len(),
            out.deep_view().len() == i,
            forall|j: int| 0 <= j < i ==> out.deep_view()[j] == sv[j],
        decreases v.len() - i,
    {
        let ghost prev = out.deep_view();
        let record = LinkRecord {
            template_id: v[i].1.template_id.clone(),
            slots: clone_string_pairs(&v[i].1.slots),
        };
        proof {
            assert(record.deep_view() == sv[i as int].1);
        }
        out.push((v[i].0.clone(), record));
        proof {
            assert(out.deep_view() =~= prev.push(sv[i as int]));
        }
        i = i + 1;
    }
    proof {
        assert(out.deep_view() =~= sv);
    }
    out
}

impl Clone for PolicyRegistry {
    /// A full deep copy: policies, templates and links are reproduced
    /// verbatim, the auto-id counter included, with no shared mutable
    /// state.
    fn clone(&self) -> (r: Self)
        ensures
            r.policies_view() == self.policies_view(),
            r.templates_view() == self.templates_view(),
            r.links_view() == self.links_view(),
            r.next_id() == self.next_id(),
    {
        PolicyRegistry {
            policies: clone_string_pairs(&self.policies),
            templates: clone_string_pairs(&self.templates),
            template_links: clone_links(&self.template_links),
            next_auto_id: self.next_auto_id,
        }
    }
}

} // verus!
