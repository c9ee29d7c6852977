//! The object layer that every device type sits on.

use vstd::prelude::*;

verus! {

/// What every object type gives the class-init bridge.
pub trait ObjectImpl: Sized {
    /// The key that identifies this type's trampolines in class records.
    /// Distinct types registered with one host use distinct keys.
    const KEY: u64;

    /// Whether the type overrides `unparent`, which the object layer calls
    /// when the object is detached from its parent.
    const UNPARENT: bool = false;
}

/// The class record of the object layer.  `unparent` holds the key of the
/// type whose unparent trampoline is installed.
#[derive(Clone, Copy, Debug, PartialEq, Eq, Structural)]
pub struct ObjectClass {
    pub unparent: Option<u64>,
}

impl ObjectClass {
    /// The record of the base object type: nothing installed.
    pub fn new() -> (r: ObjectClass)
        ensures
            r.unparent is None,
    {
        ObjectClass { unparent: None }
    }

    /// Installs the unparent trampoline of `T` if `T` overrides it, and
    /// keeps the inherited slot otherwise.
    pub fn class_init<T: ObjectImpl>(&mut self)
        ensures
            final(self).unparent == if T::UNPARENT {
                Some(T::KEY)
            } else {
                old(self).unparent
            },
    {
        if T::UNPARENT {
            self.unparent = Some(T::KEY);
        }
    }
}

} // verus!
