//! The versioned cell: a value paired with a monotonic change counter.

use vstd::pervasive::cloned;
use vstd::prelude::*;
use vstd::std_specs::cmp::PartialEqSpec;

verus! {

/// Bound shared by every cell value type: values must admit an equality
/// test, since `set` and `update` bump the version only on semantic change.
pub trait CommonBound: PartialEq {

}

impl<T: PartialEq> CommonBound for T {

}

/// A mutable value of type `T` paired with a 64-bit version counter.
///
/// The counter starts at 0 and advances by exactly 1 each time a mutation
/// actually changes the value; a mutation that leaves the value equal to
/// what it was is a no-op.  Cursors detect changes by comparing this counter
/// against the version they consumed last.
pub struct Dynamic<T> where T: CommonBound {
    pub value: T,
    pub version: u64,
}

/// How one mutation step relates the new cell state `post` to the old state
/// `pre`, given the `candidate` value the step offered.
///
/// Either nothing happened, or the candidate was installed and the version
/// advanced by exactly 1.  When `T`'s equality obeys its specification, the
/// branch taken is pinned down: the step is a no-op exactly when the
/// candidate equals the stored value under `T`'s own equality.
pub open spec fn set_step<T: CommonBound>(pre: Dynamic<T>, candidate: T, post: Dynamic<T>) -> bool {
    &&& (post == pre || (post.value == candidate && post.version == pre.version + 1))
    &&& (T::obeys_eq_spec() ==> if pre.value.eq_spec(&candidate) {
        post == pre
    } else {
        post.value == candidate && post.version == pre.version + 1
    })
}

impl<T> Dynamic<T> where T: CommonBound {
    /// A cell is well formed while its version stays below the cursor
    /// sentinel, so a fresh cursor can never mistake it for consumed.
    pub open spec fn wf(&self) -> bool {
        self.version < u64::MAX
    }

    /// Creates a cell holding `x` at version 0.
    pub fn new(x: T) -> (r: Self)
        ensures
            r.value == x,
            r.version == 0,
            r.wf(),
    {
        Dynamic { value: x, version: 0 }
    }

    /// Replaces the stored value by `y` when the two differ under `T`'s
    /// equality; otherwise leaves both value and version untouched.
    pub fn set(&mut self, y: T)
        requires
            old(self).version < u64::MAX - 1,
        ensures
            set_step(*old(self), y, *final(self)),
            final(self).wf(),
    {
        let changed = self.value != y;
        if changed {
            self.value = y;
            self.version = self.version + 1;
        }
    }

    /// Computes a candidate value from the current one and applies it under
    /// the same rule as `set`: the version advances only when the candidate
    /// differs from the stored value under `T`'s equality.
    pub fn update<F: FnOnce(&T) -> T>(&mut self, f: F)
        requires
            old(self).version < u64::MAX - 1,
            call_requires(f, (&old(self).value,)),
        ensures
            exists|y: T|
                #[trigger] call_ensures(f, (&old(self).value,), y) && set_step(
                    *old(self),
                    y,
                    *final(self),
                ),
            final(self).wf(),
    {
        let y = f(&self.value);
        let changed = self.value != y;
        if changed {
            self.value = y;
            self.version = self.version + 1;
        }
    }

    /// Installs whatever value `f` produces and advances the version exactly
    /// when `f`'s boolean says a change occurred, with no equality re-check:
    /// the caller bears full responsibility for the flag, and a wrong flag
    /// silently desynchronizes the version from the value.
    pub fn update_inplace<F: FnOnce(&T) -> (T, bool)>(&mut self, f: F)
        requires
            old(self).version < u64::MAX - 1,
            call_requires(f, (&old(self).value,)),
        ensures
            exists|y: T, c: bool|
                {
                    &&& #[trigger] call_ensures(f, (&old(self).value,), (y, c))
                    &&& final(self).value == y
                    &&& final(self).version == if c {
                        old(self).version + 1
                    } else {
                        old(self).version as int
                    }
                },
            final(self).wf(),
    {
        let (y, changed) = f(&self.value);
        self.value = y;
        if changed {
            self.version = self.version + 1;
        }
    }
}

/// A direct, non-consuming read: returns a copy of the current value and
/// never advances any cursor.
pub trait DirectGet<T: Clone> {
    /// The value a direct read observes.
    spec fn current(&self) -> T;

    /// Returns a copy of the current value; never counts as consuming a
    /// change.
    fn get(&self) -> (r: T)
        ensures
            cloned::<T>(self.current(), r),
    ;
}

impl<T: CommonBound + Clone> DirectGet<T> for Dynamic<T> {
    open spec fn current(&self) -> T {
        self.value
    }

    fn get(&self) -> (r: T) {
        self.value.clone()
    }
}

} // verus!
