//! The stack as a sequence: index 0 is the top, the element pushed last.
//!
//! Every contract of the list is stated with the functions of this module,
//! and the laws at the end are proved of them.

use vstd::prelude::*;

verus! {

/// The stack `s` with `v` put on top.
pub open spec fn pushed<T>(s: Seq<T>, v: T) -> Seq<T> {
    seq![v] + s
}

/// The top of `s`, or `None` when `s` is empty.
pub open spec fn top<T>(s: Seq<T>) -> Option<T> {
    if s.len() == 0 {
        None
    } else {
        Some(s[0])
    }
}

/// What is left of `s` once its top is taken off; an empty stack stays empty.
pub open spec fn rest<T>(s: Seq<T>) -> Seq<T> {
    if s.len() == 0 {
        s
    } else {
        s.skip(1)
    }
}

/// The stack `s` with its top overwritten by `v`.
pub open spec fn with_top<T>(s: Seq<T>, v: T) -> Seq<T>
    recommends
        s.len() > 0,
{
    s.update(0, v)
}

/// The stack after each item of `vals` has been pushed onto `s`, `vals[0]`
/// first.
pub open spec fn pushed_all<T>(s: Seq<T>, vals: Seq<T>) -> Seq<T>
    decreases vals.len(),
{
    if vals.len() == 0 {
        s
    } else {
        pushed(pushed_all(s, vals.drop_last()), vals.last())
    }
}

/// What `n` pops in a row return, the first pop at index 0.
pub open spec fn pops<T>(s: Seq<T>, n: nat) -> Seq<Option<T>>
    decreases n,
{
    if n == 0 {
        Seq::empty()
    } else {
        seq![top(s)] + pops(rest(s), (n - 1) as nat)
    }
}

/// The stack that `n` pops in a row leave behind.
pub open spec fn rest_n<T>(s: Seq<T>, n: nat) -> Seq<T>
    decreases n,
{
    if n == 0 {
        s
    } else {
        rest_n(rest(s), (n - 1) as nat)
    }
}

/// A pop undoes a push: it returns the value pushed and leaves the stack as
/// it was before the push.
pub proof fn lemma_pop_after_push<T>(s: Seq<T>, v: T)
    ensures
        top(pushed(s, v)) == Some(v),
        rest(pushed(s, v)) == s,
{
    assert(pushed(s, v).skip(1) =~= s);
}

/// Pushing a run of values puts them on the stack in reverse.
pub proof fn lemma_pushed_all<T>(s: Seq<T>, vals: Seq<T>)
    ensures
        pushed_all(s, vals) == vals.reverse() + s,
    decreases vals.len(),
{
    if vals.len() == 0 {
        assert(vals.reverse() + s =~= s);
    } else {
        lemma_pushed_all(s, vals.drop_last());
        assert(seq![vals.last()] + (vals.drop_last().reverse() + s) =~= vals.reverse() + s);
    }
}

/// Last in, first out: after the values `vals` are pushed in order, as many
/// pops return them in the opposite order and leave the stack as it was.
pub proof fn lemma_lifo<T>(s: Seq<T>, vals: Seq<T>)
    ensures
        pops(pushed_all(s, vals), vals.len()).len() == vals.len(),
        forall|i: int|
            0 <= i < vals.len() ==> #[trigger] pops(pushed_all(s, vals), vals.len())[i] == Some(
                vals[vals.len() - 1 - i],
            ),
        rest_n(pushed_all(s, vals), vals.len()) == s,
    decreases vals.len(),
{
    if vals.len() > 0 {
        let init = vals.drop_last();
        lemma_lifo(s, init);
        lemma_pop_after_push(pushed_all(s, init), vals.last());
    }
}

/// Pops come from the top down: as long as the stack lasts, pop number `i`
/// returns the element that stood at index `i`, and the elements below the
/// popped ones stay.
pub proof fn lemma_pops_top_down<T>(s: Seq<T>, n: nat)
    ensures
        pops(s, n).len() == n,
        forall|i: int| 0 <= i < n && i < s.len() ==> #[trigger] pops(s, n)[i] == Some(s[i]),
        n <= s.len() ==> rest_n(s, n) == s.skip(n as int),
    decreases n,
{
    if n == 0 {
        assert(s.skip(0) =~= s);
    } else {
        lemma_pops_top_down(rest(s), (n - 1) as nat);
        if n <= s.len() {
            assert(s.skip(1).skip(n - 1) =~= s.skip(n as int));
        }
    }
}

/// Popping past the end: once the stack has run out, every further pop
/// returns `None` and the stack stays empty. On an empty stack that is every
/// pop.
pub proof fn lemma_pops_past_end<T>(s: Seq<T>, n: nat)
    ensures
        pops(s, n).len() == n,
        forall|i: int| s.len() <= i < n ==> #[trigger] pops(s, n)[i] is None,
        n >= s.len() ==> rest_n(s, n) == Seq::<T>::empty(),
    decreases n,
{
    if n > 0 {
        lemma_pops_past_end(rest(s), (n - 1) as nat);
    }
}

/// A value written over the top is the value that the next pop returns, and
/// nothing below the top changes.
pub proof fn lemma_pop_after_write<T>(s: Seq<T>, v: T)
    requires
        s.len() > 0,
    ensures
        top(with_top(s, v)) == Some(v),
        rest(with_top(s, v)) == rest(s),
{
    assert(s.update(0, v).skip(1) =~= s.skip(1));
}

/// Overwriting the top comes to the same as taking it off and pushing the
/// new value: this is how a write through the first reference of a walk by
/// exclusive reference shows in the list.
pub proof fn lemma_write_is_pop_then_push<T>(s: Seq<T>, v: T)
    requires
        s.len() > 0,
    ensures
        with_top(s, v) == pushed(rest(s), v),
{
    assert(s.update(0, v) =~= seq![v] + s.skip(1));
}

} // verus!
