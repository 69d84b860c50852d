//! Pinned storage, and the outside calls that fill and reborrow it.

use vstd::prelude::*;

use core::ops::DerefMut;
use core::pin::Pin;
use moveit::new::CopyNew;

verus! {

/// `core::pin::Pin`: a pointer whose target never moves again.
#[verifier::external_type_specification]
#[verifier::external_body]
#[verifier::reject_recursive_types(Ptr)]
pub struct ExPin<Ptr>(Pin<Ptr>);

/// Relies on `moveit::new::copy` and on `moveit::Emplace::emplace` for `Box`:
/// copy-constructs `*src` through its `CopyNew` impl into freshly allocated
/// storage, which is pinned from then on.
#[verifier::external_body]
pub(crate) fn copy_into_pinned_box<T: CopyNew>(src: &T) -> Pin<Box<T>> {
    <Box<T> as moveit::Emplace<T>>::emplace(moveit::new::copy(src))
}

/// Relies on `core::pin::Pin::as_mut`: reborrows a pinned pointer as a pinned
/// mutable reference to the same target.
#[verifier::external_body]
pub(crate) fn pin_as_mut<P: DerefMut>(p: &mut Pin<P>) -> Pin<&mut P::Target> {
    p.as_mut()
}

} // verus!
