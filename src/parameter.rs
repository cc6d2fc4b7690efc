use vstd::prelude::*;
use vstd::laws_eq::obeys_concrete_eq;
use vstd::std_specs::cmp::PartialEqSpec;

verus! {

/// A value cell that remembers the value it held before the last `set`,
/// so that a caller can tell cheaply whether the latest reading differs.
pub struct Parameter<T> {
    value: T,
    previous_value: T,
}

impl<T: Copy + PartialEq> Parameter<T> {
    /// The value most recently stored.
    pub closed spec fn current(&self) -> T {
        self.value
    }

    /// The value held before the most recent `set`.
    pub closed spec fn previous(&self) -> T {
        self.previous_value
    }

    /// Whether the current value differs from the previous one, by the
    /// equality of `T`.
    pub open spec fn changed(&self) -> bool {
        !self.current().eq_spec(&self.previous())
    }

    pub fn new(value: T) -> (r: Self)
        ensures
            r.current() == value,
            r.previous() == value,
    {
        Self { value, previous_value: value }
    }

    pub fn get(&self) -> (r: T)
        ensures
            r == self.current(),
    {
        self.value
    }

    pub fn get_previous(&self) -> (r: T)
        ensures
            r == self.previous(),
    {
        self.previous_value
    }

    pub fn set(&mut self, value: T)
        ensures
            final(self).current() == value,
            final(self).previous() == old(self).current(),
    {
        self.previous_value = self.value;
        self.value = value;
    }

    pub fn has_changed(&self) -> (r: bool)
        ensures
            T::obeys_eq_spec() ==> r == self.changed(),
    {
        self.value != self.previous_value
    }
}

/// Change detection: after `set(v)` a parameter reports a change exactly when
/// `v` is not equal, by the equality of `T`, to the value it replaced; a freshly
/// made parameter reports none when its value equals itself (not so for a NaN).
/// Where that equality is plain equality, the change flag is `v != old value`
/// and a fresh parameter never reports a change. `fresh` stands for any value
/// `new` returns, `after` for the state that `set(v)` leaves `before` in.
pub proof fn lemma_change_detection<T: Copy + PartialEq>(
    fresh: Parameter<T>,
    before: Parameter<T>,
    after: Parameter<T>,
    v: T,
)
    requires
        fresh.current() == fresh.previous(),
        after.current() == v,
        after.previous() == before.current(),
    ensures
        after.changed() <==> !v.eq_spec(&before.current()),
        fresh.current().eq_spec(&fresh.current()) ==> !fresh.changed(),
        obeys_concrete_eq::<T>() ==> !fresh.changed(),
        obeys_concrete_eq::<T>() ==> (after.changed() <==> v != before.current()),
{
    reveal(obeys_concrete_eq);
}

} // verus!
