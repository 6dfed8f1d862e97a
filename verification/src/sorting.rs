use vstd::prelude::*;

verus! {

broadcast use vstd::seq_lib::group_seq_properties;

/// `le` is a total preorder: reflexive, transitive and total.
pub open spec fn is_total_preorder<A>(le: spec_fn(A, A) -> bool) -> bool {
    &&& forall|a: A| #[trigger] le(a, a)
    &&& forall|a: A, b: A, c: A| #[trigger] le(a, b) && #[trigger] le(b, c) ==> le(a, c)
    &&& forall|a: A, b: A| #![trigger le(a, b)] #![trigger le(b, a)] le(a, b) || le(b, a)
}

/// `s` is in ascending order by `le`.
pub open spec fn sorted_by<A>(s: Seq<A>, le: spec_fn(A, A) -> bool) -> bool {
    forall|i: int, j: int| 0 <= i < j < s.len() ==> le(#[trigger] s[i], #[trigger] s[j])
}

/// `a` and `b` are equally ranked by `le`.
pub open spec fn equiv<A>(le: spec_fn(A, A) -> bool, a: A, b: A) -> bool {
    le(a, b) && le(b, a)
}

/// The elements of `s` ranked equally with `a`, in their order in `s`.
pub open spec fn rank_class<A>(s: Seq<A>, le: spec_fn(A, A) -> bool, a: A) -> Seq<A> {
    s.filter(|e: A| equiv(le, e, a))
}

/// `out` is `input` sorted stably by `le`: ascending, and elements ranked
/// equally keep their order from `input` (so `out` is a permutation of it).
pub open spec fn stably_sorted<A>(out: Seq<A>, input: Seq<A>, le: spec_fn(A, A) -> bool) -> bool {
    &&& sorted_by(out, le)
    &&& forall|a: A| #[trigger] rank_class(out, le, a) == rank_class(input, le, a)
}

/// Filtering a sequence with no matching element gives nothing.
pub proof fn lemma_filter_none<A>(s: Seq<A>, pred: spec_fn(A) -> bool)
    requires
        forall|i: int| 0 <= i < s.len() ==> !pred(#[trigger] s[i]),
    ensures
        s.filter(pred) == Seq::<A>::empty(),
    decreases s.len(),
{
    reveal(Seq::filter);
    if s.len() > 0 {
        lemma_filter_none(s.drop_last(), pred);
    }
}

/// Filtering after a push.
pub proof fn lemma_filter_push<A>(s: Seq<A>, x: A, pred: spec_fn(A) -> bool)
    ensures
        s.push(x).filter(pred) == if pred(x) { s.filter(pred).push(x) } else { s.filter(pred) },
{
    reveal(Seq::filter);
    assert(s.push(x).drop_last() =~= s);
}

/// Inserting `x` after every element ranked at or below it keeps a stable
/// sort stable, with `x` added at the end of the input.
pub proof fn lemma_insert_stable<A>(out: Seq<A>, input: Seq<A>, x: A, p: int, le: spec_fn(A, A) -> bool)
    requires
        is_total_preorder(le),
        stably_sorted(out, input, le),
        0 <= p <= out.len(),
        forall|j: int| 0 <= j < p ==> le(#[trigger] out[j], x),
        forall|j: int| p <= j < out.len() ==> !le(#[trigger] out[j], x),
    ensures
        stably_sorted(out.insert(p, x), input.push(x), le),
{
    let n = out.insert(p, x);
    assert forall|i: int, j: int| 0 <= i < j < n.len() implies le(#[trigger] n[i], #[trigger] n[j]) by {
        if j < p {
            assert(n[i] == out[i] && n[j] == out[j]);
        } else if j == p {
            assert(n[i] == out[i]);
        } else if i < p {
            assert(n[i] == out[i] && n[j] == out[j - 1]);
        } else if i == p {
            assert(n[j] == out[j - 1]);
            assert(!le(out[j - 1], x));
            assert(le(x, out[j - 1]) || le(out[j - 1], x));
        } else {
            assert(n[i] == out[i - 1] && n[j] == out[j - 1]);
        }
    }
    assert forall|a: A| #[trigger] rank_class(n, le, a) == rank_class(input.push(x), le, a) by {
        let pred = |e: A| equiv(le, e, a);
        let head = out.take(p);
        let tail = out.skip(p);
        assert(out =~= head + tail);
        assert(n =~= head + seq![x] + tail);
        Seq::filter_distributes_over_add(head, tail, pred);
        Seq::filter_distributes_over_add(head + seq![x], tail, pred);
        Seq::filter_distributes_over_add(head, seq![x], pred);
        lemma_filter_push(input, x, pred);
        lemma_filter_push(Seq::<A>::empty(), x, pred);
        assert(Seq::<A>::empty().push(x) =~= seq![x]);
        lemma_filter_none(Seq::<A>::empty(), pred);
        assert(rank_class(out, le, a) == rank_class(input, le, a));
        if pred(x) {
            assert forall|i: int| 0 <= i < tail.len() implies !pred(#[trigger] tail[i]) by {
                assert(tail[i] == out[p + i]);
                assert(!le(out[p + i], x));
                if equiv(le, tail[i], a) {
                    assert(le(tail[i], a) && le(a, x));
                }
            }
            lemma_filter_none(tail, pred);
            assert(rank_class(n, le, a) =~= head.filter(pred).push(x));
            assert(rank_class(out, le, a) =~= head.filter(pred));
        } else {
            assert(rank_class(n, le, a) =~= head.filter(pred) + tail.filter(pred));
        }
    }
}

/// A stable sort of a non-empty sequence is not empty.
pub proof fn lemma_stably_sorted_nonempty<A>(out: Seq<A>, input: Seq<A>, le: spec_fn(A, A) -> bool)
    requires
        is_total_preorder(le),
        stably_sorted(out, input, le),
        input.len() > 0,
    ensures
        out.len() > 0,
{
    let a = input[0];
    let pred = |e: A| equiv(le, e, a);
    assert(pred(input[0]));
    input.lemma_filter_contains(pred, 0);
    assert(rank_class(out, le, a) == rank_class(input, le, a));
    if out.len() == 0 {
        reveal(Seq::filter);
        assert(out.filter(pred) =~= Seq::<A>::empty());
    }
}

} // verus!
