//! Allocation outcomes: what a request gives once the allocator has answered.
//!
//! The allocator is called once per request and never retried. A block
//! handed out means success; a null address means `FailedAllocation`, with
//! a message that says whether one value or an array (and of what size) was
//! asked for.

use crate::alloc_error::AllocError;
use crate::alloc_error::AllocErrorType;
use crate::decimal::decimal_text;
use crate::decimal::push_decimal;
use crate::layout::array_fits;
use crate::layout::create_vec_layout;
use crate::layout::layout_align;
use crate::layout::layout_size;
use std::alloc::Layout;
use vstd::layout::align_of;
use vstd::layout::size_of;
use vstd::prelude::*;

verus! {

/// The message of a failed request for one value.
pub open spec fn value_failure_message() -> Seq<char> {
    "Failed to allocate a value"@
}

/// The message of a failed request for an array of `size` values.
pub open spec fn array_failure_message(size: nat) -> Seq<char> {
    "Failed to allocate an array with size = "@ + decimal_text(size)
}

/// The message of a failed request for an array of `size` values.
fn array_failure_text(size: usize) -> (r: String)
    ensures
        r@ == array_failure_message(size as nat),
{
    let mut text = String::from_str("Failed to allocate an array with size = ");
    push_decimal(&mut text, size);
    text
}

/// The outcome of a request for one value: `Ok` when the allocator handed
/// out a block, else a `FailedAllocation` error.
pub fn check_value_allocation(allocated: bool) -> (r: Result<(), AllocError>)
    ensures
        r is Ok <==> allocated,
        r matches Err(e) ==> e@ == (AllocErrorType::FailedAllocation, value_failure_message()),
{
    if allocated {
        Ok(())
    } else {
        Err(AllocError::new("Failed to allocate a value", AllocErrorType::FailedAllocation))
    }
}

/// The outcome of a request for an array of `size` values: `Ok` when the
/// allocator handed out a block, else a `FailedAllocation` error that names
/// the size.
pub fn check_array_allocation(size: usize, allocated: bool) -> (r: Result<(), AllocError>)
    ensures
        r is Ok <==> allocated,
        r matches Err(e) ==> e@ == (AllocErrorType::FailedAllocation, array_failure_message(
            size as nat,
        )),
{
    if allocated {
        Ok(())
    } else {
        let message = array_failure_text(size);
        Err(AllocError::new(message.as_str(), AllocErrorType::FailedAllocation))
    }
}

/// With an allocator that hands out the block it is asked for, a request for
/// an array of `count` values of `T` succeeds whenever the array's size in
/// bytes does not exceed `isize::MAX`, and the block asked for is exactly
/// `count` times the size of `T`, aligned as `T`.
pub proof fn lemma_array_request_succeeds<T>(
    count: usize,
    layout: Result<Layout, AllocError>,
    outcome: Result<(), AllocError>,
)
    requires
        array_fits::<T>(count as nat),
        call_ensures(create_vec_layout::<T>, (count,), layout),
        call_ensures(check_array_allocation, (count, true), outcome),
    ensures
        layout matches Ok(l) && layout_size(l) == count * size_of::<T>() && layout_align(l)
            == align_of::<T>(),
        outcome is Ok,
{
}

} // verus!
