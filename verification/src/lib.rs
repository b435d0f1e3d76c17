//! Mutation through a closure, in a fluent style that passes ownership along.
//!
//! A [`Mutator<T>`] owns a value of type `T`, its *target*. [`Mutator::mutate`] takes the owner
//! by value, runs a closure once on the target and hands the owner back, so that calls can be
//! chained.
//!
//! Every type is a `Mutator` of itself. A type that wraps a `T` can declare itself a
//! `Mutator<T>` by running the closure on the `T` it holds. A chain method written for
//! "anything that can mutate a `T`" is then available on the wrapper too, and the module that
//! defines the chain method need not know of the wrapper.
//!
//! # The model
//!
//! The contract of `mutate` is stated over two ghost functions of the owner: `target`, the
//! value that the closure gets to edit, and `with_target`, the owner with another value in the
//! target's place. For a value that mutates itself the target is the value. A wrapper names
//! the field that it exposes:
//!
//! ```ignore
//! pub struct Pool { pub size: usize }
//!
//! pub struct Runner { pub id: u32, pub pool: Pool }
//!
//! impl Mutator<Pool> for Runner {
//!     open spec fn target(&self) -> Pool {
//!         self.pool
//!     }
//!
//!     open spec fn with_target(&self, t: Pool) -> Self {
//!         Runner { id: self.id, pool: t }
//!     }
//!
//!     fn mutate<F>(self, op: F) -> (res: Self) where F: FnOnce(&mut Pool) {
//!         let mut owner = self;
//!         op(&mut owner.pool);
//!         owner
//!     }
//! }
//! ```
//!
//! A chain method is written once, for every mutator of its target, and says what becomes of
//! the target and that nothing else changes:
//!
//! ```ignore
//! pub fn with_size<B: Mutator<Pool>>(b: B, size: usize) -> (res: B)
//!     ensures
//!         res.target() == (Pool { size }),
//!         only_target_changed(b, res),
//! {
//!     b.mutate(|p: &mut Pool| ensures final(p).size == size { p.size = size; })
//! }
//! ```
//!
//! On a `Runner` this sets `pool.size` and leaves `id` alone; on a `Pool` it sets `size`.
//!
//! [`laws`] holds what follows from the contract for every conformance.

use vstd::prelude::*;

pub mod laws;

verus! {

/// A type that can mutate a `T`.
///
/// The owner is handed in by value and comes back by value. What the closure did to the target
/// is all that has changed in between.
pub trait Mutator<T>: Sized {
    /// The value that `mutate` hands to the closure.
    ///
    /// A conformance written in Verus states here which part of the owner that is. The body
    /// given here says nothing of it, and stands only so that a conformance declared in
    /// unverified code needs to supply `mutate` alone.
    open spec fn target(&self) -> T {
        arbitrary()
    }

    /// The owner with `t` in the place of its target and everything else as it is.
    ///
    /// As with `target`, a conformance written in Verus gives the meaning.
    open spec fn with_target(&self, t: T) -> Self {
        arbitrary()
    }

    /// Runs `op` on the target and returns the owner.
    ///
    /// `op` must accept the target as it is on entry. On return
    /// - the target is what one call of `op` made of the target on entry;
    /// - the owner is the owner on entry with that new target in the target's place;
    /// - nothing else has changed: whatever is put in the target's place afterwards, the
    ///   outcome is the same as if it had been put there before the call.
    ///
    /// The last two clauses together are [`only_target_changed`].
    fn mutate<F>(self, op: F) -> (res: Self) where F: FnOnce(&mut T)
        requires
            forall|r: &mut T| *r == self.target() ==> #[trigger] call_requires(op, (r,)),
        ensures
            exists|r: &mut T|
                *r == self.target() && *final(r) == res.target()
                    && #[trigger] call_ensures(op, (r,), ()),
            res == self.with_target(res.target()),
            forall|t: T| #[trigger] res.with_target(t) == self.with_target(t),
    ;
}

/// What `mutate` promises of the owner apart from the new target: `after` is `before` with the
/// target of `after` in the target's place, and whatever is put in the target's place in
/// either, the two become equal.
pub open spec fn only_target_changed<T, V: Mutator<T>>(before: V, after: V) -> bool {
    &&& after == before.with_target(after.target())
    &&& forall|t: T| #[trigger] after.with_target(t) == before.with_target(t)
}

/// Every type can mutate itself: the target is the whole value.
impl<T> Mutator<T> for T {
    open spec fn target(&self) -> T {
        *self
    }

    open spec fn with_target(&self, t: T) -> Self {
        t
    }

    /// Runs `op` on the value and returns it: the result is what one call of `op` made of
    /// `self`.
    fn mutate<F>(self, op: F) -> (res: Self) where F: FnOnce(&mut T)
        ensures
            exists|r: &mut T|
                *r == self && *final(r) == res && #[trigger] call_ensures(op, (r,), ()),
    {
        let mut owner = self;
        op(&mut owner);
        owner
    }
}

} // verus!
