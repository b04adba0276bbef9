//! A helper on lists.

use vstd::prelude::*;

verus! {

/// Copies a list, item by item.
pub fn copy_of<T: Copy>(items: &Vec<T>) -> (copy: Vec<T>)
    ensures
        copy@ == items@,
{
    let mut copy: Vec<T> = Vec::new();
    let mut i: usize = 0;
    while i < items.len()
        invariant
            i <= items@.len(),
            copy@ == items@.subrange(0, i as int),
        decreases items@.len() - i,
    {
        copy.push(items[i]);
        assert(copy@ == items@.subrange(0, i + 1));
        i = i + 1;
    }
    assert(items@.subrange(0, items@.len() as int) == items@);
    copy
}

} // verus!
