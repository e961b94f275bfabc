//! Cursors that poll versioned cells for changes.

use crate::dynamic::CommonBound;
use crate::dynamic::Dynamic;
use vstd::pervasive::cloned;
use vstd::prelude::*;

verus! {

/// The version a fresh cursor starts from: distinct from every version a
/// well-formed cell can reach, so the first poll always reports a change.
pub const SENTINEL: u64 = u64::MAX;

/// A read cursor over one versioned cell: remembers the version it has
/// consumed last, and fires exactly once per net change of the cell.
pub struct Consumer {
    pub consumed_id: u64,
}

impl Consumer {
    /// Whether a poll of `cell` through this cursor would report a change.
    pub open spec fn sees_change<T: CommonBound>(&self, cell: &Dynamic<T>) -> bool {
        cell.version != self.consumed_id
    }

    /// Creates a cursor that has consumed nothing yet.
    pub fn new() -> (r: Self)
        ensures
            r.consumed_id == SENTINEL,
    {
        Consumer { consumed_id: SENTINEL }
    }

    /// Polls `cell`: when its version differs from the one consumed last,
    /// invokes `f` once with the current value and catches up; otherwise
    /// does nothing.
    pub fn on_change<T: CommonBound, F: FnOnce(&T)>(&mut self, cell: &Dynamic<T>, f: F)
        requires
            call_requires(f, (&cell.value,)),
        ensures
            final(self).consumed_id == cell.version,
            old(self).sees_change(cell) ==> call_ensures(f, (&cell.value,), ()),
            !old(self).sees_change(cell) ==> *final(self) == *old(self),
    {
        if cell.version != self.consumed_id {
            f(&cell.value);
            self.consumed_id = cell.version;
        }
    }

    /// Returns a copy of `cell`'s current value without advancing this
    /// cursor: the read does not count as consuming a change.
    pub fn get<T: CommonBound + Clone>(&self, cell: &Dynamic<T>) -> (r: T)
        ensures
            cloned::<T>(cell.value, r),
    {
        cell.value.clone()
    }
}

/// A cursor group over two cells, polled and advanced as one atomic unit:
/// it fires when either member changed, then delivers both current values
/// together and marks both members consumed.
pub struct Consumer2(pub Consumer, pub Consumer);

impl Consumer2 {
    /// Whether a poll of `a` and `b` through this group would report a
    /// change: true as soon as either member cursor sees one.
    pub open spec fn sees_change<A: CommonBound, B: CommonBound>(
        &self,
        a: &Dynamic<A>,
        b: &Dynamic<B>,
    ) -> bool {
        self.0.sees_change(a) || self.1.sees_change(b)
    }

    /// Creates a group of two fresh cursors.
    pub fn new() -> (r: Self)
        ensures
            r.0.consumed_id == SENTINEL,
            r.1.consumed_id == SENTINEL,
    {
        Consumer2(Consumer::new(), Consumer::new())
    }

    /// Polls both cells: when either version differs from what its member
    /// cursor consumed last, invokes `f` once with both current values and
    /// advances both cursors, even the one that saw no change of its own;
    /// otherwise does nothing.
    pub fn on_change<A: CommonBound, B: CommonBound, F: FnOnce((&A, &B))>(
        &mut self,
        a: &Dynamic<A>,
        b: &Dynamic<B>,
        f: F,
    )
        requires
            call_requires(f, ((&a.value, &b.value),)),
        ensures
            final(self).0.consumed_id == a.version,
            final(self).1.consumed_id == b.version,
            old(self).sees_change(a, b) ==> call_ensures(f, ((&a.value, &b.value),), ()),
            !old(self).sees_change(a, b) ==> *final(self) == *old(self),
    {
        let changed = a.version != self.0.consumed_id || b.version != self.1.consumed_id;
        if changed {
            f((&a.value, &b.value));
            self.0.consumed_id = a.version;
            self.1.consumed_id = b.version;
        }
    }
}

/// A cursor group over three cells, with the same atomic-unit rule as
/// `Consumer2`: one OR-across-members change test, full-tuple delivery,
/// full-tuple cursor advance.
pub struct Consumer3(pub Consumer, pub Consumer, pub Consumer);

impl Consumer3 {
    /// Whether a poll of the three cells through this group would report a
    /// change: true as soon as any member cursor sees one.
    pub open spec fn sees_change<A: CommonBound, B: CommonBound, C: CommonBound>(
        &self,
        a: &Dynamic<A>,
        b: &Dynamic<B>,
        c: &Dynamic<C>,
    ) -> bool {
        self.0.sees_change(a) || self.1.sees_change(b) || self.2.sees_change(c)
    }

    /// Creates a group of three fresh cursors.
    pub fn new() -> (r: Self)
        ensures
            r.0.consumed_id == SENTINEL,
            r.1.consumed_id == SENTINEL,
            r.2.consumed_id == SENTINEL,
    {
        Consumer3(Consumer::new(), Consumer::new(), Consumer::new())
    }

    /// Polls the three cells: when any version differs from what its member
    /// cursor consumed last, invokes `f` once with all three current values
    /// and advances every cursor, even those that saw no change of their
    /// own; otherwise does nothing.
    pub fn on_change<A: CommonBound, B: CommonBound, C: CommonBound, F: FnOnce((&A, &B, &C))>(
        &mut self,
        a: &Dynamic<A>,
        b: &Dynamic<B>,
        c: &Dynamic<C>,
        f: F,
    )
        requires
            call_requires(f, ((&a.value, &b.value, &c.value),)),
        ensures
            final(self).0.consumed_id == a.version,
            final(self).1.consumed_id == b.version,
            final(self).2.consumed_id == c.version,
            old(self).sees_change(a, b, c) ==> call_ensures(
                f,
                ((&a.value, &b.value, &c.value),),
                (),
            ),
            !old(self).sees_change(a, b, c) ==> *final(self) == *old(self),
    {
        let changed = a.version != self.0.consumed_id || b.version != self.1.consumed_id
            || c.version != self.2.consumed_id;
        if changed {
            f((&a.value, &b.value, &c.value));
            self.0.consumed_id = a.version;
            self.1.consumed_id = b.version;
            self.2.consumed_id = c.version;
        }
    }
}

/// Builds the cursor matching one cell, or the cursor group matching an
/// ordered pair or triple of cells.  Purely a constructor convenience: the
/// result starts out fresh, so its first poll always reports a change.
pub trait IntoConsumer {
    type Output;

    /// Whether `out` has consumed nothing yet.
    spec fn fresh(out: &Self::Output) -> bool;

    /// Produces a fresh cursor or cursor group for this source.
    fn into_consumer(&self) -> (r: Self::Output)
        ensures
            Self::fresh(&r),
    ;
}

impl<A: CommonBound> IntoConsumer for Dynamic<A> {
    type Output = Consumer;

    open spec fn fresh(out: &Consumer) -> bool {
        out.consumed_id == SENTINEL
    }

    fn into_consumer(&self) -> (r: Consumer) {
        Consumer::new()
    }
}

impl<'a, 'b, A: CommonBound, B: CommonBound> IntoConsumer for (&'a Dynamic<A>, &'b Dynamic<B>) {
    type Output = Consumer2;

    open spec fn fresh(out: &Consumer2) -> bool {
        out.0.consumed_id == SENTINEL && out.1.consumed_id == SENTINEL
    }

    fn into_consumer(&self) -> (r: Consumer2) {
        Consumer2::new()
    }
}

impl<'a, 'b, 'c, A: CommonBound, B: CommonBound, C: CommonBound> IntoConsumer for (
    &'a Dynamic<A>,
    &'b Dynamic<B>,
    &'c Dynamic<C>,
) {
    type Output = Consumer3;

    open spec fn fresh(out: &Consumer3) -> bool {
        out.0.consumed_id == SENTINEL && out.1.consumed_id == SENTINEL && out.2.consumed_id
            == SENTINEL
    }

    fn into_consumer(&self) -> (r: Consumer3) {
        Consumer3::new()
    }
}

} // verus!
