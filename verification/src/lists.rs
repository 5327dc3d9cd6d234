//! Lists: what a list of strings says, and filtering step by step.

use vstd::prelude::*;

verus! {

/// The texts of a list of strings.
pub open spec fn texts_of(strings: Seq<String>) -> Seq<Seq<char>> {
    strings.map_values(|s: String| s@)
}

/// Filtering one element more: the element joins the result if it passes.
pub proof fn lemma_filter_step<A>(s: Seq<A>, i: int, keep: spec_fn(A) -> bool)
    requires
        0 <= i < s.len(),
    ensures
        s.subrange(0, i + 1).filter(keep) == if keep(s[i]) {
            s.subrange(0, i).filter(keep).push(s[i])
        } else {
            s.subrange(0, i).filter(keep)
        },
{
    let head = s.subrange(0, i);
    let one = seq![s[i]];
    assert(s.subrange(0, i + 1) == head + one);
    Seq::filter_distributes_over_add(head, one, keep);
    reveal_with_fuel(Seq::filter, 2);
    assert(one.drop_last() == Seq::<A>::empty());
    assert(one.filter(keep) == if keep(s[i]) {
        one
    } else {
        Seq::<A>::empty()
    });
    assert(head.filter(keep) + one == head.filter(keep).push(s[i]));
    assert(head.filter(keep) + Seq::<A>::empty() == head.filter(keep));
}

} // verus!
