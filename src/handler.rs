//! The storage lifecycle around one value passed by value.

use vstd::prelude::*;

use core::pin::Pin;
use moveit::new::CopyNew;

use crate::pinned::pin_as_mut;
use crate::source::ValueParam;

verus! {

/// Holds a value source together with the slot for its temporary copy, if
/// it needs one.
///
/// The slot is allocated and filled when the handler is built, it is what
/// the callee sees for as long as the handler lives, and it is destroyed
/// exactly once, when the handler is dropped. A move source's object is only
/// borrowed: dropping the handler leaves it to its owning pointer. The slot
/// is pinned storage of its own, so moving the handler never moves the copy.
#[verifier::reject_recursive_types(T)]
pub struct ValueParamHandler<'a, T> {
    param: ValueParam<'a, T>,
    space: Option<Pin<Box<T>>>,
}

impl<'a, T> ValueParamHandler<'a, T> {
    /// The value source that this handler was built from.
    pub closed spec fn source(&self) -> ValueParam<'a, T> {
        self.param
    }

    /// Whether the slot holds a live copy.
    pub closed spec fn occupied(&self) -> bool {
        self.space is Some
    }

    /// The slot is occupied exactly when the source needs one.
    pub open spec fn wf(&self) -> bool {
        self.occupied() == self.source().spec_needs_stack_space()
    }

    /// Wraps a source, filling a fresh pinned slot with a copy where the
    /// source needs one.
    pub fn new(param: ValueParam<'a, T>) -> (h: Self)
        where
            T: CopyNew,
        ensures
            h.wf(),
            h.source() == param,
            h.occupied() == param.spec_needs_stack_space(),
    {
        let mut space: Option<Pin<Box<T>>> = None;
        if param.needs_stack_space() {
            space = param.populate_stack_space();
        }
        ValueParamHandler { param, space }
    }

    /// Wraps a move source, for a type that may have no copy constructor.
    /// Nothing is allocated; a null owning pointer is accepted here, and
    /// only asking for the pointer is then an error.
    pub fn new_move(target: Option<Pin<&'a mut T>>) -> (h: Self)
        ensures
            h.wf(),
            h.source() == ValueParam::Move(target),
            !h.occupied(),
    {
        ValueParamHandler { param: ValueParam::Move(target), space: None }
    }

    /// Whether there is an object to show the callee: false only for a move
    /// source whose owning pointer is null.
    pub fn has_target(&self) -> (b: bool)
        ensures
            b == self.source().spec_has_target(),
    {
        self.param.has_target()
    }

    /// What the callee is to see: the copy in the slot where there is one,
    /// else the object that the move source owns. A null owning pointer is a
    /// fatal error: callers test [`Self::has_target`] first. The handler's
    /// state is left as it was, so each call takes the same path.
    pub fn get_ptr(&mut self) -> (r: Pin<&mut T>)
        requires
            old(self).wf(),
            old(self).source().spec_has_target(),
        ensures
            final(self).wf(),
            final(self).source().spec_has_target(),
            final(self).occupied() == old(self).occupied(),
            final(self).source() is Copy <==> old(self).source() is Copy,
            old(self).source() is Copy ==> final(self).source() == old(self).source(),
    {
        match &mut self.space {
            Some(slot) => pin_as_mut(slot),
            None => self.param.get_ptr().unwrap(),
        }
    }
}

} // verus!

verus! {

/// A handler built from a copy source holds a copy: the source needs a slot,
/// and the slot is filled, so the callee is shown the copy.
pub proof fn lemma_copy_source_fills_slot<'a, T>(h: ValueParamHandler<'a, T>)
    requires
        h.wf(),
        h.source() is Copy,
    ensures
        h.source().spec_needs_stack_space(),
        h.occupied(),
{
}

/// A handler built from a move source holds no copy: the source needs no
/// slot, and none is allocated.
pub proof fn lemma_move_source_leaves_slot_empty<'a, T>(h: ValueParamHandler<'a, T>)
    requires
        h.wf(),
        h.source() is Move,
    ensures
        !h.source().spec_needs_stack_space(),
        !h.occupied(),
{
}

/// A handler over a null owning pointer can be built, but has no object to
/// show the callee: asking it for the pointer is ruled out.
pub proof fn lemma_null_move_source_has_no_target<'a, T>(h: ValueParamHandler<'a, T>)
    requires
        h.wf(),
        h.source() is Move,
        h.source()->Move_0 is None,
    ensures
        !h.source().spec_has_target(),
        !h.occupied(),
{
}

} // verus!
