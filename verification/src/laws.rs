//! The library's guarantees, stated and proved once over the contracts of
//! the cell and cursor operations.
//!
//! Each proof function takes the states that one of the exec contracts
//! relates (for a `&mut` method, its `old` and `final` states) and derives
//! the user-facing guarantee.  Laws about `set` and `update` are stated for
//! value types whose equality agrees with mathematical equality
//! ([`vstd::laws_eq::obeys_concrete_eq`]); `update_inplace` performs no
//! equality check, so its law needs no such hypothesis.

use crate::consumer::Consumer;
use crate::consumer::Consumer2;
use crate::consumer::Consumer3;
use crate::consumer::SENTINEL;
use crate::dynamic::CommonBound;
use crate::dynamic::DirectGet;
use crate::dynamic::Dynamic;
use crate::dynamic::set_step;
use vstd::prelude::*;

verus! {

/// A cell observed immediately after construction holds exactly its initial
/// value: a direct read of `Dynamic::new(v)` observes `v`.
pub proof fn lemma_new_observes_initial<T: CommonBound + Clone>(v: T, cell: Dynamic<T>)
    requires
        cell.value == v,
        cell.version == 0,
    ensures
        cell.current() == v,
{
}

/// `set(v)` then `get()` observes `v`; the version is unchanged when `v`
/// equals the prior value, and advances by exactly 1 otherwise.
pub proof fn lemma_set_then_get<T: CommonBound>(pre: Dynamic<T>, v: T, post: Dynamic<T>)
    requires
        vstd::laws_eq::obeys_concrete_eq::<T>(),
        set_step(pre, v, post),
    ensures
        post.value == v,
        v == pre.value ==> post.version == pre.version,
        v != pre.value ==> post.version == pre.version + 1,
{
    reveal(vstd::laws_eq::obeys_concrete_eq);
}

/// `update(f)` with an `f` that always hands its argument back unchanged
/// never changes the cell, in particular not the version.
pub proof fn lemma_update_identity_keeps_version<T: CommonBound, F: FnOnce(&T) -> T>(
    f: F,
    pre: Dynamic<T>,
    post: Dynamic<T>,
)
    requires
        vstd::laws_eq::obeys_concrete_eq::<T>(),
        forall|x: &T, y: T| #[trigger] call_ensures(f, (x,), y) ==> y == *x,
        exists|y: T| #[trigger] call_ensures(f, (&pre.value,), y) && set_step(pre, y, post),
    ensures
        post == pre,
{
    reveal(vstd::laws_eq::obeys_concrete_eq);
}

/// `update(f)` with an `f` whose result always differs from its argument
/// installs that result and advances the version by exactly 1.
pub proof fn lemma_update_change_bumps_version<T: CommonBound, F: FnOnce(&T) -> T>(
    f: F,
    pre: Dynamic<T>,
    post: Dynamic<T>,
)
    requires
        vstd::laws_eq::obeys_concrete_eq::<T>(),
        forall|x: &T, y: T| #[trigger] call_ensures(f, (x,), y) ==> y != *x,
        exists|y: T| #[trigger] call_ensures(f, (&pre.value,), y) && set_step(pre, y, post),
    ensures
        post.version == pre.version + 1,
        exists|y: T| #[trigger] call_ensures(f, (&pre.value,), y) && post.value == y,
{
    reveal(vstd::laws_eq::obeys_concrete_eq);
}

/// `update_inplace(f)` advances the version exactly when `f`'s boolean flag
/// is true, independent of what the value actually became.
pub proof fn lemma_update_inplace_follows_flag<T: CommonBound, F: FnOnce(&T) -> (T, bool)>(
    f: F,
    pre: Dynamic<T>,
    post: Dynamic<T>,
    flag: bool,
)
    requires
        forall|x: &T, y: T, c: bool| #[trigger] call_ensures(f, (x,), (y, c)) ==> c == flag,
        exists|y: T, c: bool|
            {
                &&& #[trigger] call_ensures(f, (&pre.value,), (y, c))
                &&& post.value == y
                &&& post.version == if c {
                    pre.version + 1
                } else {
                    pre.version as int
                }
            },
    ensures
        flag ==> post.version == pre.version + 1,
        !flag ==> post.version == pre.version,
{
}

/// A mutation step never rewinds the counter: the version after `set` or
/// `update` is the old one, or the old one plus exactly 1.
pub proof fn lemma_version_monotonic<T: CommonBound>(pre: Dynamic<T>, v: T, post: Dynamic<T>)
    requires
        set_step(pre, v, post),
    ensures
        post.version == pre.version || post.version == pre.version + 1,
{
}

/// With a well-behaved `Clone` (every clone equals its original), any two
/// reads of one cell — direct, or through any cursor — return equal values:
/// a cell is a single storage, and every read observes exactly its current
/// state.
pub proof fn lemma_reads_agree<T: CommonBound + Clone>(cell: Dynamic<T>, r1: T, r2: T)
    requires
        forall|a: T, b: T| #[trigger] vstd::pervasive::cloned::<T>(a, b) ==> b == a,
        vstd::pervasive::cloned::<T>(cell.value, r1),
        vstd::pervasive::cloned::<T>(cell.value, r2),
    ensures
        r1 == r2,
{
}

/// A freshly created cursor sees a change on its first poll of any
/// well-formed cell, regardless of the cell's mutation history: the
/// sentinel it starts from is distinct from every reachable version.
pub proof fn lemma_fresh_cursor_fires<T: CommonBound>(c: Consumer, cell: Dynamic<T>)
    requires
        c.consumed_id == SENTINEL,
        cell.wf(),
    ensures
        c.sees_change(&cell),
{
}

/// After a cursor consumes a change, a following poll with no intervening
/// mutation reports nothing.
pub proof fn lemma_consumed_is_quiet<T: CommonBound>(c: Consumer, cell: Dynamic<T>)
    requires
        c.consumed_id == cell.version,
    ensures
        !c.sees_change(&cell),
{
}

/// For a cursor pair where only one member changed since last consumption,
/// a poll still fires — delivering both current values — and marks both
/// members consumed: with no further mutation the next poll is silent,
/// even for the member that never changed by itself.
pub proof fn lemma_pair_single_change_consumes_all<A: CommonBound, B: CommonBound>(
    pre: Consumer2,
    post: Consumer2,
    a: Dynamic<A>,
    b: Dynamic<B>,
)
    requires
        pre.0.sees_change(&a),
        !pre.1.sees_change(&b),
        post.0.consumed_id == a.version,
        post.1.consumed_id == b.version,
    ensures
        pre.sees_change(&a, &b),
        !post.sees_change(&a, &b),
{
}

/// The same atomic-consumption rule for a cursor triple: one changed member
/// out of three makes the poll fire, and consuming marks all three members,
/// so the next poll with no further mutation is silent.
pub proof fn lemma_triple_single_change_consumes_all<
    A: CommonBound,
    B: CommonBound,
    C: CommonBound,
>(
    pre: Consumer3,
    post: Consumer3,
    a: Dynamic<A>,
    b: Dynamic<B>,
    c: Dynamic<C>,
)
    requires
        pre.0.sees_change(&a),
        !pre.1.sees_change(&b),
        !pre.2.sees_change(&c),
        post.0.consumed_id == a.version,
        post.1.consumed_id == b.version,
        post.2.consumed_id == c.version,
    ensures
        pre.sees_change(&a, &b, &c),
        !post.sees_change(&a, &b, &c),
{
}

} // verus!
