use vstd::prelude::*;

verus! {

/// The items of `v` in reverse order.
pub fn reversed<T>(v: Vec<T>) -> (r: Vec<T>)
    ensures
        r@ == v@.reverse(),
{
    let mut rest: Vec<T> = v;
    let mut out: Vec<T> = Vec::new();
    while rest.len() > 0
        invariant
            rest@.len() <= v@.len(),
            rest@ == v@.take(rest@.len() as int),
            out@ == v@.skip(rest@.len() as int).reverse(),
        decreases rest.len(),
    {
        let x: T = rest.pop().unwrap();
        out.push(x);
        assert(rest@ =~= v@.take(rest@.len() as int));
        assert(out@ =~= v@.skip(rest@.len() as int).reverse());
    }
    assert(v@.skip(0) =~= v@);
    out
}

/// The items that are present, in their order.
pub open spec fn present<T>(items: Seq<Option<T>>) -> Seq<T>
    decreases items.len(),
{
    if items.len() == 0 {
        Seq::empty()
    } else {
        let before = present(items.drop_last());
        match items.last() {
            Some(x) => before.push(x),
            None => before,
        }
    }
}

/// Keeps the items that are present, in their order, and drops the places
/// of those that are not.
pub fn keep_loaded<T>(items: Vec<Option<T>>) -> (r: Vec<T>)
    ensures
        r@ == present(items@),
{
    let mut rest: Vec<Option<T>> = items;
    let ghost all = rest@;
    let mut taken: Vec<T> = Vec::new();
    // The items are moved out from the end, then put back in order.
    while rest.len() > 0
        invariant
            rest@.len() <= all.len(),
            rest@ == all.take(rest@.len() as int),
            present(rest@) + taken@.reverse() == present(all),
        decreases rest.len(),
    {
        let ghost before = rest@;
        let ghost had = taken@;
        let last: Option<T> = rest.pop().unwrap();
        assert(rest@ =~= before.drop_last());
        match last {
            Some(x) => {
                taken.push(x);
                assert(taken@.reverse() =~= seq![x] + had.reverse());
                assert(present(before) =~= present(rest@).push(x));
                assert(present(rest@) + taken@.reverse() =~= present(before) + had.reverse());
            },
            None => {},
        }
    }
    assert(present(rest@) =~= Seq::<T>::empty());
    assert(taken@.reverse() =~= present(all));
    reversed(taken)
}

/// No more items are present than there are places.
pub proof fn lemma_present_len<T>(items: Seq<Option<T>>)
    ensures
        present(items).len() <= items.len(),
    decreases items.len(),
{
    if items.len() > 0 {
        lemma_present_len(items.drop_last());
    }
}

} // verus!
