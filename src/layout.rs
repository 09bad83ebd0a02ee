//! Layouts: the size and alignment of the memory that a request needs.
//!
//! Every request goes through here. A single value asks for the layout of
//! its type; an array of `n` values asks for `n` times the element's size,
//! which must not exceed `isize::MAX`.

use crate::alloc_error::AllocError;
use crate::alloc_error::AllocErrorType;
use std::alloc::Layout;
use std::alloc::LayoutError;
use vstd::layout::align_of;
use vstd::layout::size_of;
use vstd::prelude::*;
use vstd::string::to_string_from_display_ensures;

verus! {

/// std's layout of a block of memory: a size and a power-of-two alignment.
#[verifier::external_type_specification]
#[verifier::external_body]
pub struct ExLayout(Layout);

/// std's error for a size and alignment that make no valid layout.
#[verifier::external_type_specification]
#[verifier::external_body]
pub struct ExLayoutError(LayoutError);

/// The size in bytes that a layout describes.
pub uninterp spec fn layout_size(layout: Layout) -> nat;

/// The alignment in bytes that a layout describes.
pub uninterp spec fn layout_align(layout: Layout) -> nat;

/// Relies on `Layout::new`: the layout of one value of `T` has `T`'s size
/// and alignment.
pub assume_specification<T>[ Layout::new::<T> ]() -> (r: Layout)
    ensures
        layout_size(r) == size_of::<T>(),
        layout_align(r) == align_of::<T>(),
;

/// Relies on `Layout::array`: the layout of `[T; n]` is `n` times `T`'s size
/// with `T`'s alignment, and it is refused exactly when that size would
/// exceed `isize::MAX`.
pub assume_specification<T>[ Layout::array::<T> ](n: usize) -> (r: Result<Layout, LayoutError>)
    ensures
        r is Ok <==> n * size_of::<T>() <= isize::MAX,
        r matches Ok(layout) ==> layout_size(layout) == n * size_of::<T>()
            && layout_align(layout) == align_of::<T>(),
;

/// Whether an array of `n` values of `T` has a valid layout.
pub open spec fn array_fits<T>(n: nat) -> bool {
    n * size_of::<T>() <= isize::MAX
}

/// The layout of an array of `size` values of `T`.
///
/// Fails with a `LayoutError` exactly when the array's size in bytes would
/// exceed `isize::MAX`; the message is std's text for the refusal.
pub fn create_vec_layout<T>(size: usize) -> (r: Result<Layout, AllocError>)
    ensures
        r is Ok <==> array_fits::<T>(size as nat),
        r matches Ok(layout) ==> layout_size(layout) == size * size_of::<T>()
            && layout_align(layout) == align_of::<T>(),
        r matches Err(e) ==> e@.0 == AllocErrorType::LayoutError
            && exists|cause: LayoutError, text: String|
                #![trigger to_string_from_display_ensures::<LayoutError>(&cause, text)]
                to_string_from_display_ensures::<LayoutError>(&cause, text) && text@ == e@.1,
{
    match Layout::array::<T>(size) {
        Ok(layout) => Ok(layout),
        Err(cause) => Err(AllocError::from(cause)),
    }
}

/// The layout of one value of `T`: `T`'s size and alignment.
pub fn create_value_layout<T>() -> (r: Layout)
    ensures
        layout_size(r) == size_of::<T>(),
        layout_align(r) == align_of::<T>(),
{
    Layout::new::<T>()
}

} // verus!
