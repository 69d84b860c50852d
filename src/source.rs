//! The two kinds of value source: a reference to copy, or the pinned target
//! of an owning pointer to hand over.

use vstd::prelude::*;

use core::pin::Pin;
use moveit::new::CopyNew;

use crate::pinned::{copy_into_pinned_box, pin_as_mut};

verus! {

/// Something that can be passed by value to a C++ function.
///
/// `Copy` passes by copy: the caller keeps its value and the callee sees a
/// fresh copy, made with the type's copy constructor. `Move` passes by move:
/// the callee sees the object that an owning pointer holds, at the address it
/// already has; `None` stands for a null owning pointer. The variant is fixed
/// when the source is made.
#[verifier::reject_recursive_types(T)]
pub enum ValueParam<'a, T> {
    Copy(&'a T),
    Move(Option<Pin<&'a mut T>>),
}

impl<'a, T> ValueParam<'a, T> {
    /// Whether this source needs a slot that holds a temporary copy.
    pub open spec fn spec_needs_stack_space(&self) -> bool {
        self is Copy
    }

    /// Whether this source needs a slot that holds a temporary copy: a copy
    /// source does, a move source does not.
    pub fn needs_stack_space(&self) -> (r: bool)
        ensures
            r == self.spec_needs_stack_space(),
    {
        match self {
            ValueParam::Copy(_) => true,
            ValueParam::Move(_) => false,
        }
    }

    /// The pinned slot that the callee will see: a fresh copy for a copy
    /// source; nothing, and no allocation, for a move source.
    pub fn populate_stack_space(&self) -> (r: Option<Pin<Box<T>>>)
        where
            T: CopyNew,
        ensures
            r is Some <==> self.spec_needs_stack_space(),
    {
        match self {
            ValueParam::Copy(value) => Some(copy_into_pinned_box(*value)),
            ValueParam::Move(_) => None,
        }
    }

    /// Whether this source has an object to show the callee: false only for
    /// a move source whose owning pointer is null.
    pub open spec fn spec_has_target(&self) -> bool {
        !(self is Move && self->Move_0 is None)
    }

    /// Whether this source has an object to show the callee: false only for
    /// a move source whose owning pointer is null. Asking such a source for
    /// its pointer is a fatal error, so callers test this first.
    pub fn has_target(&self) -> (b: bool)
        ensures
            b == self.spec_has_target(),
    {
        match self {
            ValueParam::Copy(_) => true,
            ValueParam::Move(target) => target.is_some(),
        }
    }

    /// The object that this source itself exposes to the callee. A copy
    /// source exposes nothing of its own (the slot is what the callee sees);
    /// a move source exposes the owned object, and must not have a null
    /// owning pointer. The source is left as it was, but for what the caller
    /// writes through the returned reference.
    pub fn get_ptr(&mut self) -> (r: Option<Pin<&mut T>>)
        requires
            old(self).spec_has_target(),
        ensures
            *old(self) is Copy ==> r is None && *final(self) == *old(self),
            *old(self) is Move ==> r is Some,
            *old(self) is Move ==> *final(self) is Move && final(self)->Move_0 is Some,
    {
        match self {
            ValueParam::Copy(_) => None,
            ValueParam::Move(target) => match target {
                Some(p) => Some(pin_as_mut(p)),
                None => None,
            },
        }
    }
}

} // verus!
