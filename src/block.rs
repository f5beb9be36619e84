//! Where a block's input comes from.
//!
//! Some hosts hand the block over in the output buffers and leave the input
//! buffers zero. The block's input is the host's input buffers when the first
//! of them carries any signal, and otherwise what the output buffers held on
//! entry.

use vstd::prelude::*;

verus! {

/// Whether the host delivered the block in its input buffers, given for each
/// sample of the first input channel whether it is not zero.
pub open spec fn input_delivered(nonzero: Seq<bool>) -> bool {
    exists|i: int| 0 <= i < nonzero.len() && nonzero[i]
}

/// Whether any sample of the first input channel is not zero.
pub fn has_input(nonzero: &Vec<bool>) -> (r: bool)
    ensures
        r == input_delivered(nonzero@),
{
    let mut i: usize = 0;
    while i < nonzero.len()
        invariant
            i <= nonzero@.len(),
            forall|j: int| 0 <= j < i ==> !nonzero@[j],
        decreases nonzero@.len() - i,
    {
        if nonzero[i] {
            return true;
        }
        i = i + 1;
    }
    false
}

/// One channel of the block's input: the host's input channel when the host
/// delivered the block there, and otherwise the output channel's contents on
/// entry.
pub fn select_input<T>(input: Vec<T>, carried: Vec<T>, first_nonzero: &Vec<bool>) -> (r: Vec<T>)
    ensures
        r@ == if input_delivered(first_nonzero@) {
            input@
        } else {
            carried@
        },
{
    if has_input(first_nonzero) {
        input
    } else {
        carried
    }
}

} // verus!
