//! The list operation behind the global function `reverseAppend`.

use vstd::prelude::*;

verus! {

/// `items` in reverse order, followed by `first` and then `second`.
pub open spec fn reverse_append_spec<T>(items: Seq<T>, first: T, second: T) -> Seq<T> {
    items.reverse().push(first).push(second)
}

/// Returns a new list that holds `items` back to front, then `first`, then
/// `second`. The caller hands in its own copy of the items, so whatever they
/// were read from stays as it was.
pub fn reverse_and_append<T>(items: Vec<T>, first: T, second: T) -> (out: Vec<T>)
    ensures
        out@ == reverse_append_spec(items@, first, second),
{
    let ghost given = items@;
    let mut rest = items;
    let mut out: Vec<T> = Vec::new();
    while rest.len() > 0
        invariant
            rest@.len() <= given.len(),
            rest@ == given.subrange(0, rest@.len() as int),
            out@.len() + rest@.len() == given.len(),
            forall|i: int|
                0 <= i < out@.len() ==> #[trigger] out@[i] == given[given.len() - 1 - i],
        decreases rest@.len(),
    {
        let item = rest.pop();
        match item {
            Some(item) => {
                out.push(item);
            },
            None => {},
        }
    }
    assert(out@ =~= given.reverse());
    out.push(first);
    out.push(second);
    out
}

} // verus!
