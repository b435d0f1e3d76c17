//! What the contract of [`Mutator::mutate`] implies, whatever the conformance.

use crate::only_target_changed;
use crate::Mutator;
use vstd::prelude::*;

verus! {

/// A value seen as a mutator of its own type is its own target, and putting another value in
/// the target's place gives that other value. Nothing of the value lies outside the target, so
/// any value may take the place of any other.
pub proof fn lemma_identity_conformance<T>(v: T, t: T)
    ensures
        Mutator::<T>::target(&v) == v,
        Mutator::<T>::with_target(&v, t) == t,
        only_target_changed::<T, T>(v, t),
{
}

/// The closure runs exactly once.
///
/// Let `res` be what `owner.mutate(op)` returned, and let `count` be any measure of the target
/// that every call of `op` raises by one, such as a counter that the closure keeps in the
/// target. Then the count on return is one more than the count on entry: not the same, and
/// not two more.
pub proof fn lemma_closure_runs_once<T, V: Mutator<T>, F: FnOnce(&mut T)>(
    owner: V,
    op: F,
    res: V,
    count: spec_fn(T) -> nat,
)
    requires
        exists|r: &mut T|
            *r == owner.target() && *final(r) == res.target()
                && #[trigger] call_ensures(op, (r,), ()),
        forall|r: &mut T|
            #[trigger] call_ensures(op, (r,), ()) ==> count(*final(r)) == count(*r) + 1,
    ensures
        count(res.target()) == count(owner.target()) + 1,
{
}

/// Two calls of `mutate` in a row act as one edit of the target, in the order written.
///
/// Let `w` be what `v.mutate(f)` returned and `x` what `w.mutate(g)` returned. Then the target
/// of `x` is what `g` made of what `f` made of the target of `v`, and `x` is `v` with that
/// target and nothing else changed.
pub proof fn lemma_mutate_twice<T, V: Mutator<T>, F: FnOnce(&mut T), G: FnOnce(&mut T)>(
    v: V,
    f: F,
    w: V,
    g: G,
    x: V,
)
    requires
        exists|r: &mut T|
            *r == v.target() && *final(r) == w.target()
                && #[trigger] call_ensures(f, (r,), ()),
        only_target_changed(v, w),
        exists|r: &mut T|
            *r == w.target() && *final(r) == x.target()
                && #[trigger] call_ensures(g, (r,), ()),
        only_target_changed(w, x),
    ensures
        exists|r: &mut T, s: &mut T|
            *r == v.target() && #[trigger] call_ensures(f, (r,), ()) && *s == *final(r)
                && #[trigger] call_ensures(g, (s,), ()) && *final(s) == x.target(),
        only_target_changed(v, x),
{
}

} // verus!
