use vstd::prelude::*;

verus! {

/// The selection index after a displacement of `d` in a list of `len`
/// items (the selection being converted to `i32` with truncation, as
/// `as` does): when the move goes past an end it stops on that end, or,
/// with `cycle`, jumps to the other end. 0 for an empty list.
pub open spec fn moved_selection(selection: usize, len: usize, d: i32, cycle: bool) -> int {
    let ns = (#[verifier::truncate] (selection as i32)) + d;
    if len == 0 {
        0
    } else if ns < 0 {
        if cycle { len - 1 } else { 0 }
    } else if ns >= (#[verifier::truncate] (len as i32)) {
        if cycle { 0 } else { len - 1 }
    } else {
        ns
    }
}

/// compute a new selection index for the given list len,
/// taking into account whether we should cycle or not
pub fn move_sel(
    selection: usize,
    len: usize,
    d: i32, // displacement
    cycle: bool,
) -> (ns: usize)
    requires
        len > 0 ==> i32::MIN <= (#[verifier::truncate] (selection as i32)) + d <= i32::MAX,
    ensures
        ns == moved_selection(selection, len, d, cycle),
{
    if len == 0 {
        return 0;
    }
    let ns = (selection as i32) + d;
    if ns < 0 {
        if cycle {
            len - 1
        } else {
            0
        }
    } else if ns >= len as i32 {
        if cycle {
            0
        } else {
            len - 1
        }
    } else {
        ns as usize
    }
}

/// A moved selection stays in the list: for a list whose length fits in
/// an `i32`, the new index is below the length.
pub proof fn lemma_moved_selection_in_list(selection: usize, len: usize, d: i32, cycle: bool)
    requires
        0 < len <= i32::MAX,
    ensures
        0 <= moved_selection(selection, len, d, cycle) < len,
{
    assert((len as i32) == len);
}

} // verus!
