//! Text helpers shared by the rest of the library.
use vstd::prelude::*;

verus! {

/// The elements of `list` joined by `sep`, in order.
pub open spec fn seq_join(list: Seq<Seq<char>>, sep: Seq<char>) -> Seq<char>
    decreases list.len(),
{
    if list.len() == 0 {
        Seq::empty()
    } else if list.len() == 1 {
        list[0]
    } else {
        seq_join(list.drop_last(), sep) + sep + list.last()
    }
}

} // verus!
