//! The entity graph: named entities with attributes and parent sets, keyed
//! by their uid text, materialized into the engine's entity collection on
//! demand.

use vstd::prelude::*;

use crate::engine::build_entities;
use crate::engine::is_valid_euid;
use crate::engine::new_entity;
use crate::engine::parse_euid;
use crate::engine::to_engine_expr;
use crate::errors::Error;
use crate::errors::EvView;
use crate::table::has_key;
use crate::table::key_value;
use crate::table::lemma_put_get;
use crate::table::put;
use crate::values::convert_entries;
use crate::values::convert_mapping;
use crate::values::DynamicValue;
use crate::values::ReView;
use crate::values::RestrictedExpr;

verus! {

/// One stored entity: its attributes (converted eagerly when added) and the
/// uid texts of its parents (validated eagerly, parsed again on demand).
#[derive(Debug, PartialEq, Eq)]
pub struct EntityRecord {
    pub attrs: Vec<(String, RestrictedExpr)>,
    pub parents: Vec<String>,
}

/// The mathematical model of an `EntityRecord`.
pub struct ErView {
    pub attrs: Seq<(Seq<char>, ReView)>,
    pub parents: Seq<Seq<char>>,
}

impl View for EntityRecord {
    type V = ErView;

    open spec fn view(&self) -> ErView {
        ErView { attrs: self.attrs.deep_view(), parents: self.parents.deep_view() }
    }
}

impl DeepView for EntityRecord {
    type V = ErView;

    open spec fn deep_view(&self) -> ErView {
        self.view()
    }
}

/// Every parent uid text of the record parses as an entity UID.
pub open spec fn record_wf(r: ErView) -> bool {
    forall|i: int| 0 <= i < r.parents.len() ==> is_valid_euid(#[trigger] r.parents[i])
}

/// The empty sequence where no parents were given.
pub open spec fn opt_parents(p: Option<Seq<Seq<char>>>) -> Seq<Seq<char>> {
    match p {
        Some(s) => s,
        None => Seq::empty(),
    }
}

/// The empty sequence where no attributes were given.
pub open spec fn opt_attrs(a: Option<Seq<(Seq<char>, crate::values::DvView)>>) -> Seq<
    (Seq<char>, crate::values::DvView),
> {
    match a {
        Some(s) => s,
        None => Seq::empty(),
    }
}

/// An entity store: uid text to record, in insertion order, last write wins.
#[derive(Debug, PartialEq, Eq)]
pub struct EntityStore {
    entities: Vec<(String, EntityRecord)>,
}

impl EntityStore {
    /// The stored entities: (uid, record) in insertion order.
    pub closed spec fn entities_view(&self) -> Seq<(Seq<char>, ErView)> {
        self.entities.deep_view()
    }

    /// Every stored uid and every stored parent parses as an entity UID.
    pub open spec fn wf(&self) -> bool {
        forall|i: int|
            0 <= i < self.entities_view().len() ==> is_valid_euid(
                (#[trigger] self.entities_view()[i]).0,
            ) && record_wf(self.entities_view()[i].1)
    }

    /// Creates an empty store.
    pub fn new() -> (r: EntityStore)
        ensures
            r.entities_view() == Seq::<(Seq<char>, ErView)>::empty(),
            r.wf(),
    {
        let r = EntityStore { entities: Vec::new() };
        proof {
            assert(r.entities_view() =~= Seq::<(Seq<char>, ErView)>::empty());
        }
        r
    }

    /// Adds (or replaces, last write wins) an entity: the uid and every
    /// parent must parse as entity UIDs, and every attribute value must
    /// convert; the first offending input decides the error, and a failed
    /// call leaves the store unchanged.
    pub fn add_entity(
        &mut self,
        uid: String,
        attrs: Option<&Vec<(String, DynamicValue)>>,
        parents: Option<&Vec<String>>,
    ) -> (r: Result<(), Error>)
        ensures
            old(self).wf() ==> final(self).wf(),
            r is Ok <==> is_valid_euid(uid@) && (forall|i: int|
                0 <= i < opt_parents(parents.deep_view()).len() ==> is_valid_euid(
                    #[trigger] opt_parents(parents.deep_view())[i],
                )) && convert_entries(opt_attrs(attrs.deep_view()), 0) is Ok,
            r is Ok ==> final(self).entities_view() == put(
                old(self).entities_view(),
                uid@,
                ErView {
                    attrs: convert_entries(opt_attrs(attrs.deep_view()), 0)->Ok_0,
                    parents: opt_parents(parents.deep_view()),
                },
            ),
            r is Err ==> final(self).entities_view() == old(self).entities_view(),
            !is_valid_euid(uid@) ==> (r matches Err(e) && e@ == EvView::InvalidEntityUid(uid@)),
            is_valid_euid(uid@) && (exists|i: int|
                0 <= i < opt_parents(parents.deep_view()).len() && !is_valid_euid(
                    #[trigger] opt_parents(parents.deep_view())[i],
                )) ==> (exists|k: int|
                0 <= k < opt_parents(parents.deep_view()).len() && !is_valid_euid(
                    opt_parents(parents.deep_view())[k],
                ) && (forall|j: int|
                    0 <= j < k ==> is_valid_euid(#[trigger] opt_parents(parents.deep_view())[j]))
                    && (r matches Err(e) && e@ == EvView::InvalidEntityUid(
                    opt_parents(parents.deep_view())[k],
                ))),
            is_valid_euid(uid@) && (forall|i: int|
                0 <= i < opt_parents(parents.deep_view()).len() ==> is_valid_euid(
                    #[trigger] opt_parents(parents.deep_view())[i],
                )) && convert_entries(opt_attrs(attrs.deep_view()), 0) is Err ==> (r matches Err(e)
                && e@ == EvView::Conversion(convert_entries(opt_attrs(attrs.deep_view()), 0)->Err_0)),
    {
        let ghost pv = opt_parents(parents.deep_view());
        let ghost av = opt_attrs(attrs.deep_view());
        if let Err(_) = parse_euid(uid.as_str()) {
            return Err(Error::InvalidEntityUid(uid));
        }
        let mut parent_texts: Vec<String> = Vec::new();
        if let Some(ps) = parents {
            let mut i: usize = 0;
            while i < ps.len()
                invariant
                    self.entities == old(self).entities,
                    is_valid_euid(uid@),
                    opt_parents(parents.deep_view()) == pv,
                    i <= ps.len(),
                    pv == ps.deep_view(),
                    pv.len() == ps.len(),
                    parent_texts.deep_view().len() == i,
                    forall|j: int| 0 <= j < i ==> parent_texts.deep_view()[j] == pv[j],
                    forall|j: int| 0 <= j < i ==> is_valid_euid(#[trigger] pv[j]),
                decreases ps.len() - i,
            {
                match parse_euid(ps[i].as_str()) {
                    Ok(_) => {
                        let ghost prev = parent_texts.deep_view();
                        parent_texts.push(ps[i].clone());
                        proof {
                            assert(parent_texts.deep_view() =~= prev.push(pv[i as int]));
                        }
                    },
                    Err(_) => {
                        proof {
                            assert(!is_valid_euid(pv[i as int]));
                            assert(forall|j: int|
                                0 <= j < i ==> is_valid_euid(#[trigger] pv[j]));
                            assert(self.entities_view() == old(self).entities_view());
                        }
                        return Err(Error::InvalidEntityUid(ps[i].clone()));
                    },
                }
                i = i + 1;
            }
        }
        proof {
            assert(parent_texts.deep_view() =~= pv);
        }
        let converted: Vec<(String, RestrictedExpr)> = if let Some(a) = attrs {
            match convert_mapping(a) {
                Ok(c) => c,
                Err(e) => {
                    return Err(Error::Conversion(e));
                },
            }
        } else {
            let empty: Vec<(String, RestrictedExpr)> = Vec::new();
            proof {
                assert(convert_entries(av, 0) == Ok::<Seq<(Seq<char>, ReView)>, crate::values::CeView>(
                    Seq::empty(),
                ));
                assert(empty.deep_view() =~= Seq::<(Seq<char>, ReView)>::empty());
            }
            empty
        };
        let ghost record_view = ErView { attrs: convert_entries(av, 0)->Ok_0, parents: pv };
        let record = EntityRecord { attrs: converted, parents: parent_texts };
        proof {
            assert(record.deep_view() == record_view);
        }
        let ghost uidv = uid@;
        crate::table::table_put(&mut self.entities, uid, record);
        proof {
            let oldv = old(self).entities_view();
            let t = self.entities_view();
            assert(t == put(oldv, uidv, record_view));
            if old(self).wf() {
                let ik = crate::table::key_idx(oldv, uidv);
                crate::table::lemma_key_idx(oldv, uidv);
                assert(record_wf(record_view));
                assert forall|n: int| 0 <= n < t.len() implies is_valid_euid(
                    (#[trigger] t[n]).0,
                ) && record_wf(t[n].1) by {
                    if ik >= 0 {
                        if n == ik {
                            assert(t[n] == (uidv, record_view));
                        } else {
                            assert(t[n] == oldv[n]);
                        }
                    } else {
                        if n < oldv.len() {
                            assert(t[n] == oldv[n]);
                        } else {
                            assert(t[n] == (uidv, record_view));
                        }
                    }
                }
            }
        }
        Ok(())
    }

    /// The number of stored entities.
    pub fn len(&self) -> (r: usize)
        ensures
            r == self.entities_view().len(),
    {
        self.entities.len()
    }

    /// Removes every entity.
    pub fn clear(&mut self)
        ensures
            final(self).entities_view() == Seq::<(Seq<char>, ErView)>::empty(),
            final(self).wf(),
    {
        self.entities.clear();
        proof {
            assert(self.entities_view() =~= Seq::<(Seq<char>, ErView)>::empty());
        }
    }

    /// Builds the engine's immutable entity collection from the stored
    /// records, in insertion order. The engine may still reject the
    /// collection as a whole (for instance when two uid texts name the same
    /// entity); that failure is surfaced, not swallowed.
    pub fn materialize(&self) -> (r: Result<cedar_policy::Entities, Error>)
        requires
            self.wf(),
        ensures
            r is Err ==> r->Err_0@ is EntityCreate || r->Err_0@ is EntityCollectionBuild,
    {
        let mut list: Vec<cedar_policy::Entity> = Vec::new();
        let mut i: usize = 0;
        while i < self.entities.len()
            invariant
                self.wf(),
                i <= self.entities.len(),
                self.entities_view().len() == self.entities.len(),
            decreases self.entities.len() - i,
        {
            let uid_parsed = match parse_euid(self.entities[i].0.as_str()) {
                Ok(u) => u,
                Err(m) => {
                    proof {
                        assert(is_valid_euid(self.entities_view()[i as int].0));
                        assert(false);
                    }
                    return Err(Error::EntityCreate(m));
                },
            };
            let record = &self.entities[i].1;
            let mut eattrs: Vec<(String, cedar_policy::RestrictedExpression)> = Vec::new();
            let mut j: usize = 0;
            while j < record.attrs.len()
                invariant
                    j <= record.attrs.len(),
                decreases record.attrs.len() - j,
            {
                match to_engine_expr(&record.attrs[j].1) {
                    Ok(x) => eattrs.push((record.attrs[j].0.clone(), x)),
                    Err(m) => {
                        return Err(Error::EntityCreate(m));
                    },
                }
                j = j + 1;
            }
            let mut eparents: Vec<cedar_policy::EntityUid> = Vec::new();
            let mut kk: usize = 0;
            while kk < record.parents.len()
                invariant
                    self.wf(),
                    0 <= i < self.entities_view().len(),
                    record == &self.entities[i as int].1,
                    kk <= record.parents.len(),
                    record.deep_view() == self.entities_view()[i as int].1,
                decreases record.parents.len() - kk,
            {
                match parse_euid(record.parents[kk].as_str()) {
                    Ok(u) => eparents.push(u),
                    Err(m) => {
                        proof {
                            assert(is_valid_euid(
                                self.entities_view()[i as int].1.parents[kk as int],
                            ));
                            assert(false);
                        }
                        return Err(Error::EntityCreate(m));
                    },
                }
                kk = kk + 1;
            }
            match new_entity(uid_parsed, eattrs, eparents) {
                Ok(e) => list.push(e),
                Err(m) => {
                    return Err(Error::EntityCreate(m));
                },
            }
            i = i + 1;
        }
        match build_entities(list) {
            Ok(es) => Ok(es),
            Err(m) => Err(Error::EntityCollectionBuild(m)),
        }
    }
}

/// Adding an entity under a uid already present replaces its record
/// entirely: afterwards the stored record under that uid is the second one,
/// no merge, and every other uid keeps its position and its record.
pub proof fn lemma_readd_replaces(
    s: Seq<(Seq<char>, ErView)>,
    uid: Seq<char>,
    r1: ErView,
    r2: ErView,
)
    ensures
        has_key(put(put(s, uid, r1), uid, r2), uid),
        key_value(put(put(s, uid, r1), uid, r2), uid) == r2,
        forall|other: Seq<char>|
            other != uid ==> #[trigger] crate::table::key_idx(put(put(s, uid, r1), uid, r2), other)
                == crate::table::key_idx(s, other) && (has_key(s, other) ==> key_value(
                put(put(s, uid, r1), uid, r2),
                other,
            ) == key_value(s, other)),
{
    lemma_put_get(s, uid, r1);
    lemma_put_get(put(s, uid, r1), uid, r2);
}

} // verus!
