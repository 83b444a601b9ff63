use vstd::prelude::*;
use vstd::pervasive::strictly_cloned;

verus! {

/// A resettable slot: the binding that is in effect now.
///
/// The cell owns the value it holds. Each binding moves a new value in and
/// hands the one it replaced to a [`DynamicCellGuard`], which puts it back on
/// release. Since every value is owned by either the cell or a guard, nothing
/// the cell holds can dangle, whatever order the guards are released in.
pub struct DynamicCell<T> {
    current: T,
}

/// The binding that a call of [`DynamicCell::set_guard`] replaced.
///
/// Releasing the guard writes the saved value back into the cell. Guards of
/// one cell are meant to be released in the reverse order of their creation;
/// released out of order they restore stale values, as the contracts of
/// [`DynamicCell::set_guard`] and [`DynamicCellGuard::release`] show.
pub struct DynamicCellGuard<T> {
    old_value: T,
}

impl<T> DynamicCell<T> {
    /// The value that reads of the cell observe.
    pub closed spec fn value(&self) -> T {
        self.current
    }

    /// The cell after `value` has been bound on it.
    pub closed spec fn bound_to(self, value: T) -> DynamicCell<T> {
        DynamicCell { current: value }
    }

    /// The guard that binding a new value on this cell hands out.
    pub closed spec fn guard_for(self) -> DynamicCellGuard<T> {
        DynamicCellGuard { old_value: self.current }
    }

    /// The cell after `guard` has been released on it.
    pub closed spec fn restored_by(self, guard: DynamicCellGuard<T>) -> DynamicCell<T> {
        DynamicCell { current: guard.old_value }
    }

    /// Makes a new cell whose outermost binding is `value`.
    pub fn with_static(value: T) -> (r: Self)
        ensures
            r.value() == value,
    {
        DynamicCell { current: value }
    }

    /// The binding in effect now.
    pub fn read(&self) -> (r: &T)
        ensures
            *r == self.value(),
    {
        &self.current
    }

    /// Calls `f` on the binding in effect now and returns what `f` returns.
    pub fn get<R, F: FnOnce(&T) -> R>(&self, f: F) -> (r: R)
        requires
            f.requires((&self.value(),)),
        ensures
            f.ensures((&self.value(),), r),
    {
        f(&self.current)
    }

    /// Binds `value` until the returned guard is released.
    pub fn set_guard(&mut self, value: T) -> (g: DynamicCellGuard<T>)
        ensures
            *final(self) == old(self).bound_to(value),
            g == old(self).guard_for(),
            final(self).value() == value,
            g.saved() == old(self).value(),
    {
        let mut old_value = value;
        core::mem::swap(&mut self.current, &mut old_value);
        DynamicCellGuard { old_value }
    }

    /// Binds `value` for the duration of a call of `f`, then restores the
    /// binding that was in effect before. `f` is handed the cell, so that it
    /// can read it and bind it further; whatever it leaves behind, the cell
    /// ends as it was before the call.
    pub fn set<R, F: FnOnce(&mut DynamicCell<T>) -> R>(&mut self, value: T, f: F) -> (r: R)
        requires
            forall|c: &mut DynamicCell<T>| c.value() == value ==> f.requires((c,)),
        ensures
            *final(self) == *old(self),
            exists|c: &mut DynamicCell<T>| c.value() == value && f.ensures((c,), r),
    {
        let guard = self.set_guard(value);
        let c = &mut *self;
        assert(c.value() == value);
        let r = f(c);
        guard.release(self);
        r
    }
}

impl<T> DynamicCell<Option<T>> {
    /// Makes a new cell with no value bound: reads observe `None` until a
    /// binding is made.
    pub fn unset() -> (r: Self)
        ensures
            r.value() == None::<T>,
    {
        DynamicCell { current: None }
    }
}

impl<T: Clone> DynamicCell<T> {
    /// A clone of the binding in effect now.
    pub fn cloned(&self) -> (r: T)
        ensures
            strictly_cloned(self.value(), r),
    {
        self.current.clone()
    }
}

impl<T: Copy> DynamicCell<T> {
    /// A copy of the binding in effect now.
    pub fn copied(&self) -> (r: T)
        ensures
            r == self.value(),
    {
        self.current
    }
}

impl<T> DynamicCellGuard<T> {
    /// The binding that releasing this guard puts back.
    pub closed spec fn saved(&self) -> T {
        self.old_value
    }

    /// Puts the saved binding back into `cell`.
    pub fn release(self, cell: &mut DynamicCell<T>)
        ensures
            *final(cell) == old(cell).restored_by(self),
            final(cell).value() == self.saved(),
    {
        cell.current = self.old_value;
    }
}

/// A binding is visible as soon as it is made, and releasing its guard
/// returns the cell to the state it had before the binding, whatever state
/// the cell was left in meanwhile.
pub proof fn lemma_binding_restored<T>(c: DynamicCell<T>, value: T, left: DynamicCell<T>)
    ensures
        c.bound_to(value).value() == value,
        left.restored_by(c.guard_for()) == c,
{
}

/// Bindings nest: an inner binding is visible until its guard is released,
/// which makes the outer binding visible again; releasing the outer guard
/// then returns the cell to the state it had before both.
pub proof fn lemma_nested_bindings<T>(c: DynamicCell<T>, outer: T, inner: T)
    ensures
        c.bound_to(outer).value() == outer,
        c.bound_to(outer).bound_to(inner).value() == inner,
        c.bound_to(outer).bound_to(inner).restored_by(c.bound_to(outer).guard_for()).value()
            == outer,
        c.bound_to(outer).bound_to(inner).restored_by(c.bound_to(outer).guard_for()).restored_by(
            c.guard_for(),
        ) == c,
{
}

} // verus!
