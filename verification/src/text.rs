//! Small verified string builders: decimal rendering for the registry's
//! auto-assigned policy ids, and prefixing for diagnostic messages.

use vstd::prelude::*;

verus! {

pub open spec fn digit_char(d: nat) -> char {
    if d == 0 {
        '0'
    } else if d == 1 {
        '1'
    } else if d == 2 {
        '2'
    } else if d == 3 {
        '3'
    } else if d == 4 {
        '4'
    } else if d == 5 {
        '5'
    } else if d == 6 {
        '6'
    } else if d == 7 {
        '7'
    } else if d == 8 {
        '8'
    } else {
        '9'
    }
}

/// The usual decimal rendering of a natural number, most significant digit
/// first, with no leading zeroes.
pub open spec fn spec_decimal(n: nat) -> Seq<char>
    decreases n,
{
    if n < 10 {
        seq![digit_char(n)]
    } else {
        spec_decimal(n / 10) + seq![digit_char(n % 10)]
    }
}

/// An auto-assigned policy id: the word `policy` followed by the counter's
/// decimal rendering.
pub open spec fn spec_auto_id(n: nat) -> Seq<char> {
    "policy"@ + spec_decimal(n)
}

fn digit_str(d: u64) -> (r: &'static str)
    requires
        d < 10,
    ensures
        r@ == seq![digit_char(d as nat)],
{
    let s: &'static str = if d == 0 {
        "0"
    } else if d == 1 {
        "1"
    } else if d == 2 {
        "2"
    } else if d == 3 {
        "3"
    } else if d == 4 {
        "4"
    } else if d == 5 {
        "5"
    } else if d == 6 {
        "6"
    } else if d == 7 {
        "7"
    } else if d == 8 {
        "8"
    } else {
        "9"
    };
    proof {
        reveal_strlit("0");
        reveal_strlit("1");
        reveal_strlit("2");
        reveal_strlit("3");
        reveal_strlit("4");
        reveal_strlit("5");
        reveal_strlit("6");
        reveal_strlit("7");
        reveal_strlit("8");
        reveal_strlit("9");
        assert(s@ =~= seq![digit_char(d as nat)]);
    }
    s
}

/// Renders a counter in decimal.
pub fn decimal_string(n: u64) -> (r: String)
    ensures
        r@ == spec_decimal(n as nat),
    decreases n,
{
    if n < 10 {
        let r = String::from_str(digit_str(n));
        r
    } else {
        let mut s = decimal_string(n / 10);
        s.append(digit_str(n % 10));
        s
    }
}

/// Renders an auto-assigned policy id.
pub fn auto_policy_id(n: u64) -> (r: String)
    ensures
        r@ == spec_auto_id(n as nat),
{
    let mut s = String::from_str("policy");
    s.append(decimal_string(n).as_str());
    s
}

proof fn lemma_decimal_len(n: nat)
    ensures
        spec_decimal(n).len() >= 1,
        n >= 10 ==> spec_decimal(n).len() >= 2,
    decreases n,
{
    if n >= 10 {
        lemma_decimal_len(n / 10);
    }
}

proof fn lemma_decimal_injective(a: nat, b: nat)
    requires
        spec_decimal(a) == spec_decimal(b),
    ensures
        a == b,
    decreases a,
{
    lemma_decimal_len(a);
    lemma_decimal_len(b);
    let sa = spec_decimal(a);
    let sb = spec_decimal(b);
    if a < 10 && b < 10 {
        assert(sa[0] == digit_char(a));
        assert(sb[0] == digit_char(b));
        assert(digit_char(a) == digit_char(b));
        assert(a == b);
    } else if a >= 10 && b >= 10 {
        let pa = spec_decimal(a / 10);
        let pb = spec_decimal(b / 10);
        assert(sa == pa + seq![digit_char(a % 10)]);
        assert(sb == pb + seq![digit_char(b % 10)]);
        assert(sa[sa.len() - 1] == digit_char(a % 10));
        assert(sb[sb.len() - 1] == digit_char(b % 10));
        assert(a % 10 == b % 10);
        assert(pa.len() == pb.len());
        assert forall|i: int| 0 <= i < pa.len() implies pa[i] == pb[i] by {
            assert(pa[i] == sa[i]);
            assert(pb[i] == sb[i]);
        }
        assert(pa =~= pb);
        lemma_decimal_injective(a / 10, b / 10);
        assert(a == (a / 10) * 10 + a % 10) by (nonlinear_arith);
        assert(b == (b / 10) * 10 + b % 10) by (nonlinear_arith);
    } else {
        assert(false);
    }
}

/// Auto-assigned policy ids never collide: distinct counter values always
/// render distinct ids, so a registry-wide running counter can never hand
/// out an id it handed out before.
pub proof fn lemma_auto_ids_distinct(m: nat, n: nat)
    requires
        m != n,
    ensures
        spec_auto_id(m) != spec_auto_id(n),
{
    if spec_auto_id(m) == spec_auto_id(n) {
        let p = "policy"@;
        let sm = spec_decimal(m);
        let sn = spec_decimal(n);
        assert((p + sm).len() == (p + sn).len());
        assert(sm.len() == sn.len());
        assert forall|i: int| 0 <= i < sm.len() implies sm[i] == sn[i] by {
            assert(sm[i] == (p + sm)[p.len() + i]);
            assert(sn[i] == (p + sn)[p.len() + i]);
        }
        assert(sm =~= sn);
        lemma_decimal_injective(m, n);
    }
}

/// Compares two string slices by content.
pub fn str_eq(a: &str, b: &str) -> (r: bool)
    ensures
        r == (a@ == b@),
{
    let sa: String = a.to_owned();
    let sb: String = b.to_owned();
    sa == sb
}

/// Prepends a fixed prefix to a message.
pub fn prefixed(prefix: &str, s: &str) -> (r: String)
    ensures
        r@ == prefix@ + s@,
{
    let mut t = String::from_str(prefix);
    t.append(s);
    t
}

/// Every message of `msgs`, each with `prefix` prepended.
pub open spec fn prefixed_all(prefix: Seq<char>, msgs: Seq<Seq<char>>) -> Seq<Seq<char>> {
    Seq::new(msgs.len(), |i: int| prefix + msgs[i])
}

/// Two groups of messages, each under its own prefix, the first group
/// wholly before the second, orders kept within each group.
pub fn prefix_two_groups(
    prefix1: &str,
    msgs1: &Vec<String>,
    prefix2: &str,
    msgs2: &Vec<String>,
) -> (r: Vec<String>)
    ensures
        r.deep_view() == prefixed_all(prefix1@, msgs1.deep_view()) + prefixed_all(
            prefix2@,
            msgs2.deep_view(),
        ),
{
    let ghost v1 = msgs1.deep_view();
    let ghost v2 = msgs2.deep_view();
    let mut out: Vec<String> = Vec::new();
    let mut i: usize = 0;
    while i < msgs1.len()
        invariant
            i <= msgs1.len(),
            v1 == msgs1.deep_view(),
            v1.len() == msgs1.len(),
            out.deep_view().len() == i,
            forall|n: int| 0 <= n < i ==> out.deep_view()[n] == prefix1@ + v1[n],
        decreases msgs1.len() - i,
    {
        let ghost prev = out.deep_view();
        let line = prefixed(prefix1, msgs1[i].as_str());
        out.push(line);
        proof {
            assert(out.deep_view() =~= prev.push(prefix1@ + v1[i as int]));
        }
        i = i + 1;
    }
    let mut j: usize = 0;
    while j < msgs2.len()
        invariant
            j <= msgs2.len(),
            v1 == msgs1.deep_view(),
            v2 == msgs2.deep_view(),
            v2.len() == msgs2.len(),
            out.deep_view().len() == v1.len() + j,
            forall|n: int| 0 <= n < v1.len() ==> out.deep_view()[n] == prefix1@ + v1[n],
            forall|n: int| 0 <= n < j ==> out.deep_view()[v1.len() + n] == prefix2@ + v2[n],
        decreases msgs2.len() - j,
    {
        let ghost prev = out.deep_view();
        let line = prefixed(prefix2, msgs2[j].as_str());
        out.push(line);
        proof {
            assert(out.deep_view() =~= prev.push(prefix2@ + v2[j as int]));
        }
        j = j + 1;
    }
    proof {
        assert(out.deep_view() =~= prefixed_all(prefix1@, v1) + prefixed_all(prefix2@, v2));
    }
    out
}

} // verus!
