//! The value codec: dynamic host values and their conversion into the
//! restricted expressions that the policy engine evaluates.

use vstd::prelude::*;

verus! {

/// A dynamic value produced by the host boundary.
///
/// A host floating-point number is held as its exact 64-bit integer value
/// where it has one, and as `None` where it is not integral; the float itself
/// stays at the host boundary, which also records the type name of any value
/// it cannot represent (the `Opaque` variant).
#[derive(Debug, PartialEq, Eq)]
pub enum DynamicValue {
    Null,
    Bool(bool),
    Int64(i64),
    Float64(Option<i64>),
    Str(String),
    Sequence(Vec<DynamicValue>),
    Mapping(Vec<(String, DynamicValue)>),
    Opaque(String),
}

/// The mathematical model of a `DynamicValue`.
pub enum DvView {
    Null,
    Bool(bool),
    Int64(i64),
    Float64(Option<i64>),
    Str(Seq<char>),
    Sequence(Seq<DvView>),
    Mapping(Seq<(Seq<char>, DvView)>),
    Opaque(Seq<char>),
}

pub open spec fn dv_view(v: DynamicValue) -> DvView
    decreases v,
{
    match v {
        DynamicValue::Null => DvView::Null,
        DynamicValue::Bool(b) => DvView::Bool(b),
        DynamicValue::Int64(i) => DvView::Int64(i),
        DynamicValue::Float64(o) => DvView::Float64(o),
        DynamicValue::Str(s) => DvView::Str(s@),
        DynamicValue::Sequence(vs) => DvView::Sequence(
            Seq::new(
                vs@.len(),
                |i: int|
                    if 0 <= i < vs@.len() {
                        dv_view(vs@[i])
                    } else {
                        DvView::Null
                    },
            ),
        ),
        DynamicValue::Mapping(ps) => DvView::Mapping(
            Seq::new(
                ps@.len(),
                |i: int|
                    if 0 <= i < ps@.len() {
                        (ps@[i].0@, dv_view(ps@[i].1))
                    } else {
                        (Seq::empty(), DvView::Null)
                    },
            ),
        ),
        DynamicValue::Opaque(t) => DvView::Opaque(t@),
    }
}

impl View for DynamicValue {
    type V = DvView;

    open spec fn view(&self) -> DvView {
        dv_view(*self)
    }
}

impl DeepView for DynamicValue {
    type V = DvView;

    open spec fn deep_view(&self) -> DvView {
        dv_view(*self)
    }
}

/// A restricted expression: the value model the policy engine accepts in
/// contexts and entity attributes. There is deliberately no null variant,
/// and no fractional numbers exist here.
#[derive(Debug, PartialEq, Eq)]
pub enum RestrictedExpr {
    Bool(bool),
    Int64(i64),
    Str(String),
    SetValue(Vec<RestrictedExpr>),
    Record(Vec<(String, RestrictedExpr)>),
}

/// The mathematical model of a `RestrictedExpr`.
pub enum ReView {
    Bool(bool),
    Int64(i64),
    Str(Seq<char>),
    SetValue(Seq<ReView>),
    Record(Seq<(Seq<char>, ReView)>),
}

pub open spec fn re_view(e: RestrictedExpr) -> ReView
    decreases e,
{
    match e {
        RestrictedExpr::Bool(b) => ReView::Bool(b),
        RestrictedExpr::Int64(i) => ReView::Int64(i),
        RestrictedExpr::Str(s) => ReView::Str(s@),
        RestrictedExpr::SetValue(es) => ReView::SetValue(
            Seq::new(
                es@.len(),
                |i: int|
                    if 0 <= i < es@.len() {
                        re_view(es@[i])
                    } else {
                        ReView::Bool(false)
                    },
            ),
        ),
        RestrictedExpr::Record(fs) => ReView::Record(
            Seq::new(
                fs@.len(),
                |i: int|
                    if 0 <= i < fs@.len() {
                        (fs@[i].0@, re_view(fs@[i].1))
                    } else {
                        (Seq::empty(), ReView::Bool(false))
                    },
            ),
        ),
    }
}

impl View for RestrictedExpr {
    type V = ReView;

    open spec fn view(&self) -> ReView {
        re_view(*self)
    }
}

impl DeepView for RestrictedExpr {
    type V = ReView;

    open spec fn deep_view(&self) -> ReView {
        re_view(*self)
    }
}

/// Why a dynamic value cannot be converted into a restricted expression.
#[derive(Debug, Clone, PartialEq, Eq)]
pub enum ConversionError {
    /// Null has no restricted-expression counterpart.
    UnsupportedValue,
    /// A host number that is not exactly representable as a 64-bit integer.
    NonIntegerNumber,
    /// An opaque host value; carries the host type's name.
    UnsupportedType(String),
}

/// The mathematical model of a `ConversionError`.
pub enum CeView {
    UnsupportedValue,
    NonIntegerNumber,
    UnsupportedType(Seq<char>),
}

impl View for ConversionError {
    type V = CeView;

    open spec fn view(&self) -> CeView {
        match self {
            ConversionError::UnsupportedValue => CeView::UnsupportedValue,
            ConversionError::NonIntegerNumber => CeView::NonIntegerNumber,
            ConversionError::UnsupportedType(t) => CeView::UnsupportedType(t@),
        }
    }
}

impl DeepView for ConversionError {
    type V = CeView;

    open spec fn deep_view(&self) -> CeView {
        self.view()
    }
}

/// What converting a dynamic value yields: the restricted expression for the
/// convertible values, and for the rest the error of the first offending
/// subvalue in depth-first order.
pub open spec fn to_restricted_spec(v: DvView) -> Result<ReView, CeView>
    decreases v, 0int,
{
    match v {
        DvView::Null => Err(CeView::UnsupportedValue),
        DvView::Bool(b) => Ok(ReView::Bool(b)),
        DvView::Int64(i) => Ok(ReView::Int64(i)),
        DvView::Float64(o) => match o {
            Some(i) => Ok(ReView::Int64(i)),
            None => Err(CeView::NonIntegerNumber),
        },
        DvView::Str(s) => Ok(ReView::Str(s)),
        DvView::Sequence(es) => match convert_elems(es, 0) {
            Ok(rs) => Ok(ReView::SetValue(rs)),
            Err(e) => Err(e),
        },
        DvView::Mapping(ps) => match convert_entries(ps, 0) {
            Ok(rs) => Ok(ReView::Record(rs)),
            Err(e) => Err(e),
        },
        DvView::Opaque(t) => Err(CeView::UnsupportedType(t)),
    }
}

/// Element-wise conversion of a sequence tail, starting at index `i`.
pub open spec fn convert_elems(es: Seq<DvView>, i: int) -> Result<Seq<ReView>, CeView>
    decreases es, es.len() - i,
{
    if i < 0 || i >= es.len() {
        Ok(Seq::empty())
    } else {
        match to_restricted_spec(es[i]) {
            Err(e) => Err(e),
            Ok(r) => match convert_elems(es, i + 1) {
                Err(e) => Err(e),
                Ok(rest) => Ok(seq![r] + rest),
            },
        }
    }
}

/// Entry-wise conversion of a mapping tail, starting at index `i`.
pub open spec fn convert_entries(ps: Seq<(Seq<char>, DvView)>, i: int) -> Result<
    Seq<(Seq<char>, ReView)>,
    CeView,
>
    decreases ps, ps.len() - i,
{
    if i < 0 || i >= ps.len() {
        Ok(Seq::empty())
    } else {
        match to_restricted_spec(ps[i].1) {
            Err(e) => Err(e),
            Ok(r) => match convert_entries(ps, i + 1) {
                Err(e) => Err(e),
                Ok(rest) => Ok(seq![(ps[i].0, r)] + rest),
            },
        }
    }
}

/// Whether a dynamic value lies in the convertible domain: no null, no
/// non-integral number and no opaque host value anywhere in the tree.
pub open spec fn convertible(v: DvView) -> bool
    decreases v,
{
    match v {
        DvView::Null => false,
        DvView::Bool(_) => true,
        DvView::Int64(_) => true,
        DvView::Float64(o) => o is Some,
        DvView::Str(_) => true,
        DvView::Sequence(es) => forall|i: int|
            0 <= i < es.len() ==> convertible(#[trigger] es[i]),
        DvView::Mapping(ps) => forall|i: int|
            0 <= i < ps.len() ==> convertible(#[trigger] ps[i].1),
        DvView::Opaque(_) => false,
    }
}

/// Structural correspondence between a dynamic value and a restricted
/// expression: sequences become sets and mappings become records of the same
/// length and order, keys are kept, and every scalar is carried unchanged.
pub open spec fn reflects(v: DvView, r: ReView) -> bool
    decreases v,
{
    match v {
        DvView::Null => false,
        DvView::Bool(b) => r == ReView::Bool(b),
        DvView::Int64(i) => r == ReView::Int64(i),
        DvView::Float64(o) => o is Some && r == ReView::Int64(o->0),
        DvView::Str(s) => r == ReView::Str(s),
        DvView::Sequence(es) => r is SetValue && r->SetValue_0.len() == es.len() && forall|i: int|
            0 <= i < es.len() ==> reflects(#[trigger] es[i], r->SetValue_0[i]),
        DvView::Mapping(ps) => r is Record && r->Record_0.len() == ps.len() && forall|i: int|
            0 <= i < ps.len() ==> (#[trigger] r->Record_0[i]).0 == ps[i].0 && reflects(
                ps[i].1,
                r->Record_0[i].1,
            ),
        DvView::Opaque(_) => false,
    }
}

/// Conversion succeeds exactly on the convertible values, and where it
/// succeeds the result mirrors the input structurally.
pub proof fn lemma_convertible_round_trip(v: DvView)
    ensures
        convertible(v) <==> to_restricted_spec(v) is Ok,
        convertible(v) ==> reflects(v, to_restricted_spec(v)->Ok_0),
    decreases v, 1int,
{
    match v {
        DvView::Sequence(es) => {
            lemma_convert_elems_shape(es, 0);
            if convertible(v) {
                let rs = convert_elems(es, 0)->Ok_0;
                assert forall|i: int| 0 <= i < es.len() implies reflects(
                    #[trigger] es[i],
                    rs[i],
                ) by {
                    assert(reflects(es[i], convert_elems(es, 0)->Ok_0[i - 0]));
                }
            }
        },
        DvView::Mapping(ps) => {
            lemma_convert_entries_shape(ps, 0);
            if convertible(v) {
                let rs = convert_entries(ps, 0)->Ok_0;
                assert forall|i: int| 0 <= i < ps.len() implies (#[trigger] rs[i]).0 == ps[i].0
                    && reflects(ps[i].1, rs[i].1) by {
                    assert(convert_entries(ps, 0)->Ok_0[i - 0].0 == ps[i].0);
                    assert(reflects(ps[i].1, convert_entries(ps, 0)->Ok_0[i - 0].1));
                }
            }
        },
        _ => {},
    }
}

proof fn lemma_convert_elems_shape(es: Seq<DvView>, i: int)
    requires
        0 <= i <= es.len(),
    ensures
        convert_elems(es, i) is Ok <==> (forall|j: int|
            i <= j < es.len() ==> convertible(#[trigger] es[j])),
        convert_elems(es, i) is Ok ==> convert_elems(es, i)->Ok_0.len() == es.len() - i,
        convert_elems(es, i) is Ok ==> forall|j: int|
            i <= j < es.len() ==> reflects(#[trigger] es[j], convert_elems(es, i)->Ok_0[j - i]),
    decreases es, es.len() - i,
{
    if i < es.len() {
        lemma_convertible_round_trip(es[i]);
        lemma_convert_elems_shape(es, i + 1);
    }
}

proof fn lemma_convert_entries_shape(ps: Seq<(Seq<char>, DvView)>, i: int)
    requires
        0 <= i <= ps.len(),
    ensures
        convert_entries(ps, i) is Ok <==> (forall|j: int|
            i <= j < ps.len() ==> convertible(#[trigger] ps[j].1)),
        convert_entries(ps, i) is Ok ==> convert_entries(ps, i)->Ok_0.len() == ps.len() - i,
        convert_entries(ps, i) is Ok ==> forall|j: int|
            i <= j < ps.len() ==> (#[trigger] convert_entries(ps, i)->Ok_0[j - i]).0 == ps[j].0
                && reflects(ps[j].1, convert_entries(ps, i)->Ok_0[j - i].1),
    decreases ps, ps.len() - i,
{
    if i < ps.len() {
        lemma_convertible_round_trip(ps[i].1);
        lemma_convert_entries_shape(ps, i + 1);
        if convert_entries(ps, i) is Ok {
            let head = (ps[i].0, to_restricted_spec(ps[i].1)->Ok_0);
            let rest = convert_entries(ps, i + 1)->Ok_0;
            assert(convert_entries(ps, i)->Ok_0 == seq![head] + rest);
            assert forall|j: int| i <= j < ps.len() implies (#[trigger] convert_entries(
                ps,
                i,
            )->Ok_0[j - i]).0 == ps[j].0 && reflects(ps[j].1, convert_entries(ps, i)->Ok_0[j - i].1)
                by {
                if j == i {
                    assert((seq![head] + rest)[0] == head);
                } else {
                    assert((seq![head] + rest)[j - i] == rest[j - i - 1]);
                    assert(convert_entries(ps, i + 1)->Ok_0[j - (i + 1)].0 == ps[j].0);
                    assert(reflects(ps[j].1, convert_entries(ps, i + 1)->Ok_0[j - (i + 1)].1));
                }
            }
        }
    }
}

/// Converting the null value, or a host number that is not an exact 64-bit
/// integer, always fails, each with its own distinguishable error kind.
pub proof fn lemma_unconvertible_scalars()
    ensures
        to_restricted_spec(DvView::Null) == Err::<ReView, CeView>(CeView::UnsupportedValue),
        to_restricted_spec(DvView::Float64(None)) == Err::<ReView, CeView>(
            CeView::NonIntegerNumber,
        ),
{
}

/// Converts a dynamic host value into a restricted expression.
///
/// Null, non-integral numbers and opaque host values are rejected with a
/// distinguishing error; sequences become sets and mappings become records,
/// element order preserved.
pub fn to_restricted(v: &DynamicValue) -> (r: Result<RestrictedExpr, ConversionError>)
    ensures
        r is Ok <==> to_restricted_spec(v@) is Ok,
        r is Ok ==> to_restricted_spec(v@)->Ok_0 == r->Ok_0@,
        r is Err ==> to_restricted_spec(v@)->Err_0 == r->Err_0@,
    decreases *v, 1int,
{
    match v {
        DynamicValue::Null => Err(ConversionError::UnsupportedValue),
        DynamicValue::Bool(b) => Ok(RestrictedExpr::Bool(*b)),
        DynamicValue::Int64(i) => Ok(RestrictedExpr::Int64(*i)),
        DynamicValue::Float64(o) => match o {
            Some(i) => Ok(RestrictedExpr::Int64(*i)),
            None => Err(ConversionError::NonIntegerNumber),
        },
        DynamicValue::Str(s) => Ok(RestrictedExpr::Str(s.clone())),
        DynamicValue::Sequence(vs) => match convert_elems_exec(vs, 0) {
            Ok(rs) => {
                proof {
                    assert(v@->Sequence_0 =~= vs.deep_view());
                    assert(re_view(RestrictedExpr::SetValue(rs))->SetValue_0 =~= rs.deep_view());
                }
                Ok(RestrictedExpr::SetValue(rs))
            },
            Err(e) => {
                proof {
                    assert(v@->Sequence_0 =~= vs.deep_view());
                }
                Err(e)
            },
        },
        DynamicValue::Mapping(ps) => match convert_entries_exec(ps, 0) {
            Ok(rs) => {
                proof {
                    assert(v@->Mapping_0 =~= ps.deep_view());
                    assert(re_view(RestrictedExpr::Record(rs))->Record_0 =~= rs.deep_view());
                }
                Ok(RestrictedExpr::Record(rs))
            },
            Err(e) => {
                proof {
                    assert(v@->Mapping_0 =~= ps.deep_view());
                }
                Err(e)
            },
        },
        DynamicValue::Opaque(t) => Err(ConversionError::UnsupportedType(t.clone())),
    }
}

fn convert_elems_exec(vs: &Vec<DynamicValue>, i: usize) -> (r: Result<
    Vec<RestrictedExpr>,
    ConversionError,
>)
    requires
        i <= vs@.len(),
    ensures
        r is Ok <==> convert_elems(vs.deep_view(), i as int) is Ok,
        r is Ok ==> convert_elems(vs.deep_view(), i as int)->Ok_0 == r->Ok_0.deep_view(),
        r is Err ==> convert_elems(vs.deep_view(), i as int)->Err_0 == r->Err_0@,
    decreases vs@, vs@.len() - i,
{
    if i >= vs.len() {
        let empty: Vec<RestrictedExpr> = Vec::new();
        proof {
            assert(empty.deep_view() =~= Seq::<ReView>::empty());
        }
        Ok(empty)
    } else {
        match to_restricted(&vs[i]) {
            Err(e) => Err(e),
            Ok(r0) => match convert_elems_exec(vs, i + 1) {
                Err(e) => Err(e),
                Ok(rest) => {
                    let mut out: Vec<RestrictedExpr> = Vec::new();
                    out.push(r0);
                    let mut rest = rest;
                    out.append(&mut rest);
                    proof {
                        assert(out.deep_view() =~= seq![
                            to_restricted_spec(vs.deep_view()[i as int])->Ok_0,
                        ] + convert_elems(vs.deep_view(), i + 1)->Ok_0);
                    }
                    Ok(out)
                },
            },
        }
    }
}

/// Converts every entry of a mapping, keys kept, values through the codec;
/// fails with the error of the first entry whose value is rejected.
pub fn convert_mapping(entries: &Vec<(String, DynamicValue)>) -> (r: Result<
    Vec<(String, RestrictedExpr)>,
    ConversionError,
>)
    ensures
        r is Ok <==> convert_entries(entries.deep_view(), 0) is Ok,
        r is Ok ==> r->Ok_0.deep_view() == convert_entries(entries.deep_view(), 0)->Ok_0,
        r is Err ==> r->Err_0@ == convert_entries(entries.deep_view(), 0)->Err_0,
{
    convert_entries_exec(entries, 0)
}

fn convert_entries_exec(ps: &Vec<(String, DynamicValue)>, i: usize) -> (r: Result<
    Vec<(String, RestrictedExpr)>,
    ConversionError,
>)
    requires
        i <= ps@.len(),
    ensures
        r is Ok <==> convert_entries(ps.deep_view(), i as int) is Ok,
        r is Ok ==> convert_entries(ps.deep_view(), i as int)->Ok_0 == r->Ok_0.deep_view(),
        r is Err ==> convert_entries(ps.deep_view(), i as int)->Err_0 == r->Err_0@,
    decreases ps@, ps@.len() - i,
{
    if i >= ps.len() {
        let empty: Vec<(String, RestrictedExpr)> = Vec::new();
        proof {
            assert(empty.deep_view() =~= Seq::<(Seq<char>, ReView)>::empty());
        }
        Ok(empty)
    } else {
        match to_restricted(&ps[i].1) {
            Err(e) => Err(e),
            Ok(r0) => match convert_entries_exec(ps, i + 1) {
                Err(e) => Err(e),
                Ok(rest) => {
                    let key = ps[i].0.clone();
                    let mut out: Vec<(String, RestrictedExpr)> = Vec::new();
                    out.push((key, r0));
                    let mut rest = rest;
                    out.append(&mut rest);
                    proof {
                        assert(out.deep_view() =~= seq![
                            (
                                ps.deep_view()[i as int].0,
                                to_restricted_spec(ps.deep_view()[i as int].1)->Ok_0,
                            ),
                        ] + convert_entries(ps.deep_view(), i + 1)->Ok_0);
                    }
                    Ok(out)
                },
            },
        }
    }
}

} // verus!
