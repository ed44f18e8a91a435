//! The fixed-capacity scratch buffer that holds the start times of a profile's
//! phases. The buffer is `heapless::Vec<u64, 4>`; nothing in this file is
//! proved. Each contract restates what the source of heapless 0.8 shows for the
//! method it wraps.

use vstd::prelude::*;

verus! {

#[verifier::external_type_specification]
#[verifier::external_body]
#[verifier::reject_recursive_types(T)]
pub struct ExHeaplessVec<T, const N: usize>(heapless::Vec<T, N>);

/// Number of start times the buffer can hold: one per phase and one more for
/// the end of the last phase.
pub const ROLLING_SUM_SLOTS: usize = 4;

/// The items a buffer holds, oldest first.
pub uninterp spec fn stored(buffer: heapless::Vec<u64, 4>) -> Seq<u64>;

/// `heapless::Vec::new`: a buffer that holds nothing.
#[verifier::external_body]
pub(crate) fn rolling_sum_new() -> (buffer: heapless::Vec<u64, 4>)
    ensures
        stored(buffer) == Seq::<u64>::empty(),
{
    heapless::Vec::new()
}

/// `heapless::Vec::push`: while fewer than four items are held, `item` is added
/// behind them and `Ok` comes back; a full buffer stays as it is and hands
/// `item` back in `Err`.
#[verifier::external_body]
pub(crate) fn rolling_sum_push(
    buffer: &mut heapless::Vec<u64, 4>,
    item: u64,
) -> (outcome: Result<(), u64>)
    ensures
        outcome is Ok <==> stored(*old(buffer)).len() < ROLLING_SUM_SLOTS,
        outcome is Err ==> outcome->Err_0 == item,
        stored(*final(buffer)) == if stored(*old(buffer)).len() < ROLLING_SUM_SLOTS {
            stored(*old(buffer)).push(item)
        } else {
            stored(*old(buffer))
        },
{
    buffer.push(item)
}

/// `heapless::Vec::truncate`: keeps the first `len` items; a buffer that holds
/// no more than `len` items is left alone.
#[verifier::external_body]
pub(crate) fn rolling_sum_truncate(buffer: &mut heapless::Vec<u64, 4>, len: usize)
    ensures
        stored(*final(buffer)) == if len <= stored(*old(buffer)).len() {
            stored(*old(buffer)).take(len as int)
        } else {
            stored(*old(buffer))
        },
{
    buffer.truncate(len)
}

/// `heapless::Vec::as_slice`: the held items as a slice, in the same order.
#[verifier::external_body]
pub(crate) fn rolling_sum_as_slice(buffer: &heapless::Vec<u64, 4>) -> (items: &[u64])
    ensures
        items@ == stored(*buffer),
{
    buffer.as_slice()
}

} // verus!
