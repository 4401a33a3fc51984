//! Generic bounds of an emitted implementation, and the generic parameter
//! lists and `where` clause that carry them.
use vstd::prelude::*;

use crate::model::{texts, BoundPolicy, BoundPolicyView};

verus! {

/// The predicate that asks `param` for `capability` (`T: core::clone::Clone`).
pub open spec fn predicate(param: Seq<char>, capability: Seq<char>) -> Seq<char> {
    param + ": "@ + capability
}

/// The bound set that `policy` yields over the type parameters `params`.
pub open spec fn bound_set(
    policy: BoundPolicyView,
    params: Seq<String>,
    capability: Seq<char>,
) -> Seq<Seq<char>> {
    match policy {
        BoundPolicyView::Omitted => Seq::empty(),
        BoundPolicyView::Auto => Seq::new(params.len(), |i: int| predicate(params[i]@, capability)),
        BoundPolicyView::Text(t) => seq![t],
        BoundPolicyView::Predicates(ps) => ps,
    }
}

/// Turns a bound policy into predicates: none, one per type parameter asking
/// for `capability`, or the explicit ones as given.
pub fn compose_bounds(policy: &BoundPolicy, params: &Vec<String>, capability: &str) -> (r: Vec<
    String,
>)
    ensures
        texts(r@) == bound_set(policy@, params@, capability@),
{
    let mut r: Vec<String> = Vec::new();
    match policy {
        BoundPolicy::Omitted => {
            assert(texts(r@) =~= bound_set(policy@, params@, capability@));
        },
        BoundPolicy::Auto => {
            let mut i: usize = 0;
            while i < params.len()
                invariant
                    i <= params@.len(),
                    policy@ == BoundPolicyView::Auto,
                    texts(r@) =~= bound_set(policy@, params@, capability@).take(i as int),
                decreases params@.len() - i,
            {
                let mut p = params[i].clone();
                p.append(": ");
                p.append(capability);
                proof {
                    let old_r = r@;
                    assert(texts(old_r.push(p)) =~= texts(old_r).push(p@));
                }
                r.push(p);
                i = i + 1;
            }
            assert(texts(r@) =~= bound_set(policy@, params@, capability@));
        },
        BoundPolicy::Text(t) => {
            r.push(t.clone());
            assert(texts(r@) =~= bound_set(policy@, params@, capability@));
        },
        BoundPolicy::Predicates(ps) => {
            let mut i: usize = 0;
            while i < ps.len()
                invariant
                    i <= ps@.len(),
                    texts(r@) =~= texts(ps@.take(i as int)),
                decreases ps@.len() - i,
            {
                let s = ps[i].clone();
                proof {
                    let old_r = r@;
                    assert(texts(old_r.push(s)) =~= texts(old_r).push(s@));
                    assert(texts(ps@.take(i + 1)) =~= texts(ps@.take(i as int)).push(ps@[i as int]@));
                }
                r.push(s);
                i = i + 1;
            }
            assert(ps@.take(ps@.len() as int) =~= ps@);
        },
    }
    r
}

/// The first `n` parameters, separated by `, `.
pub open spec fn param_list(params: Seq<String>, n: nat) -> Seq<char>
    decreases n,
{
    if n == 0 {
        Seq::empty()
    } else if n == 1 {
        params[0]@
    } else {
        param_list(params, (n - 1) as nat) + ", "@ + params[n - 1]@
    }
}

/// `<T, U>`, or nothing where there are no parameters.
pub open spec fn generics_text(params: Seq<String>) -> Seq<char> {
    if params.len() == 0 {
        Seq::empty()
    } else {
        "<"@ + param_list(params, params.len()) + ">"@
    }
}

/// Appends the generic parameter list to `out`.
pub fn push_generics(out: &mut String, params: &Vec<String>)
    ensures
        final(out)@ == old(out)@ + generics_text(params@),
{
    if params.len() == 0 {
        assert(old(out)@ + generics_text(params@) =~= old(out)@);
        return;
    }
    let mut list = params[0].clone();
    let mut i: usize = 1;
    while i < params.len()
        invariant
            1 <= i <= params@.len(),
            list@ == param_list(params@, i as nat),
        decreases params@.len() - i,
    {
        list.append(", ");
        list.append(params[i].as_str());
        i = i + 1;
    }
    let mut g = String::from_str("<");
    g.append(list.as_str());
    g.append(">");
    out.append(g.as_str());
}

/// The first `n` predicates, each as ` p,`.
pub open spec fn predicate_list(preds: Seq<Seq<char>>, n: nat) -> Seq<char>
    decreases n,
{
    if n == 0 {
        Seq::empty()
    } else {
        predicate_list(preds, (n - 1) as nat) + " "@ + preds[n - 1] + ","@
    }
}

/// ` where p, q,`, or nothing where there is no predicate.
pub open spec fn where_text(preds: Seq<Seq<char>>) -> Seq<char> {
    if preds.len() == 0 {
        Seq::empty()
    } else {
        " where"@ + predicate_list(preds, preds.len())
    }
}

/// Appends the `where` clause for `preds` to `out`.
pub fn push_where(out: &mut String, preds: &Vec<String>)
    ensures
        final(out)@ == old(out)@ + where_text(texts(preds@)),
{
    if preds.len() == 0 {
        assert(old(out)@ + where_text(texts(preds@)) =~= old(out)@);
        return;
    }
    let mut w = String::from_str(" where");
    let mut i: usize = 0;
    while i < preds.len()
        invariant
            i <= preds@.len(),
            w@ == " where"@ + predicate_list(texts(preds@), i as nat),
        decreases preds@.len() - i,
    {
        w.append(" ");
        w.append(preds[i].as_str());
        w.append(",");
        proof {
            assert(texts(preds@)[i as int] == preds@[i as int]@);
            assert(w@ =~= " where"@ + predicate_list(texts(preds@), (i + 1) as nat));
        }
        i = i + 1;
    }
    out.append(w.as_str());
}

} // verus!
