use vstd::prelude::*;
use crate::ids::IdEq;

verus! {

/// Whether `x` is in `v`.
pub(crate) fn vec_contains<T: IdEq>(v: &Vec<T>, x: &T) -> (r: bool)
    ensures
        r == v@.contains(*x),
{
    let mut i: usize = 0;
    while i < v.len()
        invariant
            0 <= i <= v@.len(),
            forall|j: int| 0 <= j < i ==> v@[j] != *x,
        decreases v@.len() - i,
    {
        if v[i].id_eq(x) {
            assert(v@[i as int] == *x);
            return true;
        }
        i = i + 1;
    }
    false
}

/// All the items of `s` but those equal to `x`, in their order.
pub open spec fn without<T>(s: Seq<T>, x: T) -> Seq<T> {
    s.filter(|y: T| y != x)
}

/// `v` without the items equal to `x`.
pub(crate) fn vec_without<T: IdEq>(v: &Vec<T>, x: &T) -> (r: Vec<T>)
    ensures
        r@ == without(v@, *x),
{
    let mut r: Vec<T> = Vec::new();
    let mut i: usize = 0;
    while i < v.len()
        invariant
            0 <= i <= v@.len(),
            r@ == without(v@.take(i as int), *x),
        decreases v@.len() - i,
    {
        proof {
            reveal_with_fuel(Seq::filter, 1);
            assert(v@.take(i + 1).drop_last() =~= v@.take(i as int));
        }
        if !v[i].id_eq(x) {
            r.push(v[i]);
        }
        i = i + 1;
    }
    assert(v@.take(v@.len() as int) =~= v@);
    r
}

/// All the items of `s` that are not in `xs`, in their order.
pub open spec fn without_all<T>(s: Seq<T>, xs: Seq<T>) -> Seq<T> {
    s.filter(|y: T| !xs.contains(y))
}

/// `v` without the items that are in `xs`.
pub(crate) fn vec_without_all<T: IdEq>(v: &Vec<T>, xs: &Vec<T>) -> (r: Vec<T>)
    ensures
        r@ == without_all(v@, xs@),
{
    let mut r: Vec<T> = Vec::new();
    let mut i: usize = 0;
    while i < v.len()
        invariant
            0 <= i <= v@.len(),
            r@ == without_all(v@.take(i as int), xs@),
        decreases v@.len() - i,
    {
        proof {
            reveal_with_fuel(Seq::filter, 1);
            assert(v@.take(i + 1).drop_last() =~= v@.take(i as int));
        }
        if !vec_contains(xs, &v[i]) {
            r.push(v[i]);
        }
        i = i + 1;
    }
    assert(v@.take(v@.len() as int) =~= v@);
    r
}

} // verus!
