//! The scoped mutation handle a widget receives: a view of the caller's
//! already-fetched local copy plus a changed flag. Only a change made
//! through the key raises the flag, and only a raised flag makes the
//! owner commit the copy back to the shared cell.

use vstd::prelude::*;
use crate::state::lens::Lens;

verus! {

/// A mutation handle over a local copy of one state value.
pub struct Key<T> {
    value: T,
    changed: bool,
}

impl<T> Key<T> {
    /// The local copy as the key sees it now.
    pub closed spec fn spec_value(&self) -> T {
        self.value
    }

    /// Whether a change was made through this key.
    pub closed spec fn spec_changed(&self) -> bool {
        self.changed
    }

    /// The key state over `value` with the flag in a given position.
    pub closed spec fn spec_key(value: T, changed: bool) -> Key<T> {
        Key { value, changed }
    }

    /// A fresh key over a local copy; no change made yet.
    pub fn new(value: T) -> (r: Key<T>)
        ensures
            r == Key::spec_key(value, false),
            r.spec_value() == value,
            !r.spec_changed(),
    {
        Key { value, changed: false }
    }

    /// Reborrows the key for a nested call.
    pub fn id(&mut self) -> (r: &mut Key<T>)
        ensures
            *r == *old(self),
            *final(self) == *final(r),
    {
        self
    }

    /// Reads the value under the key.
    pub fn get(&self) -> (r: &T)
        ensures
            *r == self.spec_value(),
    {
        &self.value
    }

    /// Changes the value of the associated state through `f`; the change
    /// becomes visible to others after the owner commits it.
    pub fn change<F: FnOnce(&T) -> T>(&mut self, f: F)
        requires
            call_requires(f, (&old(self).spec_value(),)),
        ensures
            final(self).spec_changed(),
            call_ensures(f, (&old(self).spec_value(),), final(self).spec_value()),
    {
        self.changed = true;
        let new = f(&self.value);
        self.value = new;
    }

    /// Changes the value of the associated state to exactly `value`.
    pub fn set(&mut self, value: T)
        ensures
            final(self).spec_changed(),
            final(self).spec_value() == value,
    {
        self.changed = true;
        self.value = value;
    }

    /// Splits the key back into the copy and the flag.
    pub fn into_parts(self) -> (r: (T, bool))
        ensures
            r.0 == self.spec_value(),
            r.1 == self.spec_changed(),
    {
        (self.value, self.changed)
    }

    /// Applies a lens and runs `operation` on a key over the focused
    /// part; a change to the part is written back through the lens and
    /// raises this key's flag.
    pub fn with_lens<U, L: Lens<U, Source = T>, F: FnOnce(Key<U>) -> Key<U>>(
        &mut self,
        lens: &L,
        operation: F,
    )
        requires
            call_requires(
                operation,
                (Key::spec_key(lens.view_part(old(self).spec_value()), false),),
            ),
        ensures
            exists|out: Key<U>|
                {
                    &&& #[trigger] call_ensures(
                        operation,
                        (Key::spec_key(lens.view_part(old(self).spec_value()), false),),
                        out,
                    )
                    &&& out.spec_changed() ==> {
                        &&& final(self).spec_value() == lens.put_part(
                            old(self).spec_value(),
                            out.spec_value(),
                        )
                        &&& final(self).spec_changed()
                    }
                    &&& !out.spec_changed() ==> *final(self) == *old(self)
                },
    {
        let part = lens.with(&self.value);
        let out = operation(Key::new(part));
        let (new_part, part_changed) = out.into_parts();
        if part_changed {
            lens.with_mut(&mut self.value, new_part);
            self.changed = true;
        }
    }
}

} // verus!
