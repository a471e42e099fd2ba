//! Sorting that keeps what is equal in order.

use vstd::prelude::*;

use crate::text::{self, Deep, Text};

verus! {

/// `x` put into a sorted sequence, behind everything it is not before.
pub open spec fn inserted<A>(s: Seq<A>, x: A, less: spec_fn(A, A) -> bool) -> Seq<A>
    decreases s.len(),
{
    if s.len() == 0 || !less(x, s.last()) {
        s.push(x)
    } else {
        inserted(s.drop_last(), x, less).push(s.last())
    }
}

/// The items in order; items of which neither is before the other keep their
/// order.
pub open spec fn sorted<A>(s: Seq<A>, less: spec_fn(A, A) -> bool) -> Seq<A>
    decreases s.len(),
{
    if s.len() == 0 {
        seq![]
    } else {
        inserted(sorted(s.drop_last(), less), s.last(), less)
    }
}

proof fn lemma_inserted_len<A>(s: Seq<A>, x: A, less: spec_fn(A, A) -> bool)
    ensures
        inserted(s, x, less).len() == s.len() + 1,
    decreases s.len(),
{
    if s.len() > 0 {
        lemma_inserted_len(s.drop_last(), x, less);
    }
}

/// Sorting neither adds nor drops items.
pub proof fn lemma_sorted_len<A>(s: Seq<A>, less: spec_fn(A, A) -> bool)
    ensures
        sorted(s, less).len() == s.len(),
    decreases s.len(),
{
    if s.len() > 0 {
        lemma_sorted_len(s.drop_last(), less);
        lemma_inserted_len(sorted(s.drop_last(), less), s.last(), less);
    }
}

proof fn lemma_inserted_at<A>(s: Seq<A>, x: A, less: spec_fn(A, A) -> bool, at: int)
    requires
        0 <= at <= s.len(),
        at > 0 ==> !less(x, s[at - 1]),
        forall|i: int| at <= i < s.len() ==> less(x, #[trigger] s[i]),
    ensures
        inserted(s, x, less) == s.insert(at, x),
    decreases s.len(),
{
    if at == s.len() {
        assert(s.insert(at, x) =~= s.push(x));
    } else {
        assert(less(x, s[s.len() - 1]));
        let front = s.drop_last();
        assert forall|i: int| at <= i < front.len() implies less(x, #[trigger] front[i]) by {
            assert(front[i] == s[i]);
        }
        lemma_inserted_at(front, x, less, at);
        assert(s.insert(at, x) =~= front.insert(at, x).push(s.last()));
    }
}

/// Sorts.
pub fn sort<P: View, F: Fn(&P, &P) -> bool>(
    items: Vec<P>,
    less: F,
    Ghost(g): Ghost<spec_fn(P::V, P::V) -> bool>,
) -> (r: Vec<P>)
    requires
        forall|a: &P, b: &P| #[trigger] less.requires((a, b)),
        forall|a: &P, b: &P, l: bool| #[trigger] less.ensures((a, b), l) ==> l == g(a@, b@),
    ensures
        r@.deep() == sorted(items@.deep(), g),
{
    let mut out: Vec<P> = Vec::new();
    let ghost all = items@.deep();
    let n: usize = items.len();
    let mut i: usize = 0;
    assert(out@.deep() =~= sorted(all.take(0), g));
    for item in it: items
        invariant
            forall|a: &P, b: &P| #[trigger] less.requires((a, b)),
            forall|a: &P, b: &P, l: bool| #[trigger] less.ensures((a, b), l) ==> l == g(a@, b@),
            all == it.seq().deep(),
            i == it.index(),
            i <= all.len(),
            all.len() == n,
            out@.deep() == sorted(all.take(i as int), g),
    {
        assert(all.take(i + 1).drop_last() =~= all.take(i as int));
        assert(all.take(i + 1).last() == item@);
        let ghost before = out@.deep();
        let mut at: usize = out.len();
        while at > 0 && less(&item, &out[at - 1])
            invariant
                at <= out@.len(),
                before == out@.deep(),
                forall|a: &P, b: &P| #[trigger] less.requires((a, b)),
                forall|a: &P, b: &P, l: bool| #[trigger]
                    less.ensures((a, b), l) ==> l == g(a@, b@),
                forall|j: int| at <= j < before.len() ==> g(item@, #[trigger] before[j]),
            ensures
                at > 0 ==> !g(item@, before[at - 1]),
            decreases at,
        {
            assert(before[at - 1] == out@[at - 1]@);
            at -= 1;
        }
        proof {
            lemma_inserted_at(before, item@, g, at as int);
        }
        let ghost kept = out@;
        out.insert(at, item);
        assert(out@.deep() =~= kept.deep().insert(at as int, item@));
        i += 1;
    }
    assert(all.take(all.len() as int) =~= all);
    out
}

/// Sorts strings by their characters.
pub fn sort_strings(items: Vec<String>) -> (r: Vec<String>)
    ensures
        r@.deep() == sorted(items@.deep(), |a: Seq<char>, b: Seq<char>| a.before(b)),
{
    let less = |a: &String, b: &String| -> (l: bool)
        ensures
            l == a@.before(b@),
        { text::string_before(a, b) };
    sort(items, less, Ghost(|a: Seq<char>, b: Seq<char>| a.before(b)))
}

/// The items of a sorted sequence, each one once.
pub open spec fn distinct<A>(s: Seq<A>) -> Seq<A>
    decreases s.len(),
{
    if s.len() == 0 {
        seq![]
    } else if s.len() >= 2 && s[s.len() - 2] == s.last() {
        distinct(s.drop_last())
    } else {
        distinct(s.drop_last()).push(s.last())
    }
}

/// Strings in the order of their characters, each one once.
pub open spec fn sorted_set(s: Seq<Seq<char>>) -> Seq<Seq<char>> {
    distinct(sorted(s, |a: Seq<char>, b: Seq<char>| a.before(b)))
}

/// Sorts strings and keeps each one once.
pub fn sort_set(items: Vec<String>) -> (r: Vec<String>)
    ensures
        r@.deep() == sorted_set(items@.deep()),
{
    let all = sort_strings(items);
    let ghost texts = all@.deep();
    let mut out: Vec<String> = Vec::new();
    let mut i: usize = 0;
    assert(out@.deep() =~= distinct(texts.take(0)));
    while i < all.len()
        invariant
            i <= all.len(),
            texts == all@.deep(),
            out@.deep() == distinct(texts.take(i as int)),
        decreases all.len() - i,
    {
        let ghost next = texts.take(i + 1);
        assert(next.drop_last() =~= texts.take(i as int));
        assert(next.last() == all@[i as int]@);
        assert(i > 0 ==> next[next.len() - 2] == all@[i - 1]@);
        if i == 0 || !text::equal(&all[i - 1], &all[i]) {
            let ghost before = out@;
            out.push(text::copy(&all[i]));
            assert(out@.deep() =~= before.deep().push(all@[i as int]@));
        }
        i += 1;
    }
    assert(texts.take(texts.len() as int) =~= texts);
    out
}

proof fn lemma_distinct(s: Seq<Seq<char>>)
    requires
        in_order(s, |a: Seq<char>, b: Seq<char>| a.before(b)),
    ensures
        forall|i: int, j: int|
            0 <= i < j < distinct(s).len() ==> (#[trigger] distinct(s)[i]).before(
                #[trigger] distinct(s)[j],
            ),
        forall|x: Seq<char>|
            #![trigger distinct(s).contains(x)]
            #![trigger s.contains(x)]
            distinct(s).contains(x) <==> s.contains(x),
        s.len() > 0 ==> distinct(s).len() > 0 && distinct(s).last() == s.last(),
    decreases s.len(),
{
    let less = |a: Seq<char>, b: Seq<char>| a.before(b);
    if s.len() > 0 {
        let front = s.drop_last();
        assert forall|i: int, j: int| 0 <= i < j < front.len() implies !less(
            #[trigger] front[j],
            #[trigger] front[i],
        ) by {
            assert(!less(s[j], s[i]));
        }
        lemma_distinct(front);
        let d = distinct(front);
        let all = distinct(s);
        if s.len() >= 2 && s[s.len() - 2] == s.last() {
            assert forall|x: Seq<char>|
                #![trigger all.contains(x)]
                #![trigger s.contains(x)]
                all.contains(x) <==> s.contains(x) by {
                if s.contains(x) {
                    let at = choose|at: int| 0 <= at < s.len() && s[at] == x;
                    if at < front.len() {
                        assert(front[at] == x);
                    } else {
                        assert(front[front.len() - 1] == x);
                    }
                }
                if front.contains(x) {
                    let at = choose|at: int| 0 <= at < front.len() && front[at] == x;
                    assert(s[at] == x);
                }
            }
        } else {
            assert forall|i: int, j: int| 0 <= i < j < all.len() implies (
            #[trigger] all[i]).before(#[trigger] all[j]) by {
                if j == d.len() {
                    assert(d.len() > 0 && d.last() == front.last());
                    assert(!less(s[s.len() - 1], s[s.len() - 2]));
                    lemma_before_total(d.last(), s.last());
                    if i < d.len() - 1 {
                        assert(d[i].before(d[d.len() - 1]));
                        lemma_before_transitive(d[i], d.last(), s.last());
                    }
                }
            }
            assert forall|x: Seq<char>|
                #![trigger all.contains(x)]
                #![trigger s.contains(x)]
                all.contains(x) <==> s.contains(x) by {
                if s.contains(x) {
                    let at = choose|at: int| 0 <= at < s.len() && s[at] == x;
                    if at < front.len() {
                        assert(front[at] == x);
                        assert(front.contains(x));
                        assert(d.contains(x));
                        let k = choose|k: int| 0 <= k < d.len() && d[k] == x;
                        assert(all[k] == x);
                    } else {
                        assert(all[all.len() - 1] == x);
                    }
                }
                if all.contains(x) {
                    let k = choose|k: int| 0 <= k < all.len() && all[k] == x;
                    if k < d.len() {
                        assert(d[k] == x);
                        assert(d.contains(x));
                        let at = choose|at: int| 0 <= at < front.len() && front[at] == x;
                        assert(s[at] == x);
                    } else {
                        assert(s[s.len() - 1] == x);
                    }
                }
            }
        }
    }
}

proof fn lemma_before_transitive(a: Seq<char>, b: Seq<char>, c: Seq<char>)
    ensures
        a.before(b) && b.before(c) ==> a.before(c),
    decreases a.len(),
{
    if a.len() > 0 && b.len() > 0 && c.len() > 0 && a[0] == b[0] && b[0] == c[0] {
        lemma_before_transitive(a.skip(1), b.skip(1), c.skip(1));
    }
}

/// Of two texts that differ one is before the other.
pub proof fn lemma_before_total(a: Seq<char>, b: Seq<char>)
    ensures
        a == b || a.before(b) || b.before(a),
    decreases a.len(),
{
    if a.len() > 0 && b.len() > 0 && a[0] == b[0] {
        lemma_before_total(a.skip(1), b.skip(1));
        if a.skip(1) == b.skip(1) {
            assert(a =~= seq![a[0]] + a.skip(1));
            assert(b =~= seq![b[0]] + b.skip(1));
        }
    } else if a.len() == 0 && b.len() == 0 {
        assert(a =~= b);
    }
}

/// A sorted set is strictly ascending and holds exactly the given strings.
pub proof fn sorted_sets_ascend(s: Seq<Seq<char>>)
    ensures
        forall|i: int, j: int|
            0 <= i < j < sorted_set(s).len() ==> (#[trigger] sorted_set(s)[i]).before(
                #[trigger] sorted_set(s)[j],
            ),
        forall|x: Seq<char>| sorted_set(s).contains(x) <==> s.contains(x),
{
    let less = |a: Seq<char>, b: Seq<char>| a.before(b);
    texts_are_ordered();
    sorting_orders(s, less);
    let t = sorted(s, less);
    lemma_distinct(t);
    assert forall|x: Seq<char>| t.contains(x) <==> s.contains(x) by {
        broadcast use vstd::seq_lib::group_to_multiset_ensures;

        assert(t.to_multiset().count(x) == s.to_multiset().count(x));
    }
}

/// An order: nothing is before itself, and what is not before goes on not
/// being before.
pub open spec fn is_order<A>(less: spec_fn(A, A) -> bool) -> bool {
    &&& forall|a: A, b: A| #![trigger less(a, b)] less(a, b) ==> !less(b, a)
    &&& forall|a: A, b: A, c: A|
        #![trigger less(a, b), less(b, c)]
        !less(a, b) && !less(b, c) ==> !less(a, c)
}

/// Nothing is before what precedes it.
pub open spec fn in_order<A>(s: Seq<A>, less: spec_fn(A, A) -> bool) -> bool {
    forall|i: int, j: int| 0 <= i < j < s.len() ==> !less(#[trigger] s[j], #[trigger] s[i])
}

proof fn lemma_inserted<A>(s: Seq<A>, x: A, less: spec_fn(A, A) -> bool)
    requires
        is_order(less),
        in_order(s, less),
    ensures
        in_order(inserted(s, x, less), less),
        inserted(s, x, less).len() == s.len() + 1,
        inserted(s, x, less).to_multiset() == s.to_multiset().insert(x),
        forall|i: int|
            0 <= i < inserted(s, x, less).len() ==> (#[trigger] inserted(s, x, less)[i]) == x
                || s.contains(inserted(s, x, less)[i]),
    decreases s.len(),
{
    broadcast use vstd::seq_lib::group_to_multiset_ensures;

    let r = inserted(s, x, less);
    if s.len() == 0 || !less(x, s.last()) {
        assert forall|i: int, j: int| 0 <= i < j < r.len() implies !less(
            #[trigger] r[j],
            #[trigger] r[i],
        ) by {
            if j == s.len() && i < s.len() - 1 {
                assert(!less(s[s.len() - 1], s[i]));
                assert(!less(x, s[s.len() - 1]));
            }
        }
        assert forall|i: int| 0 <= i < r.len() implies (#[trigger] r[i]) == x || s.contains(
            r[i],
        ) by {
            if i < s.len() {
                assert(s[i] == r[i]);
            }
        }
    } else {
        let front = s.drop_last();
        let rest = inserted(front, x, less);
        assert forall|i: int, j: int| 0 <= i < j < front.len() implies !less(
            #[trigger] front[j],
            #[trigger] front[i],
        ) by {
            assert(front[j] == s[j] && front[i] == s[i]);
        }
        lemma_inserted(front, x, less);
        assert forall|i: int, j: int| 0 <= i < j < r.len() implies !less(
            #[trigger] r[j],
            #[trigger] r[i],
        ) by {
            if j == rest.len() {
                if rest[i] != x {
                    let at = choose|at: int| 0 <= at < front.len() && front[at] == rest[i];
                    assert(s[at] == rest[i]);
                    assert(!less(s[s.len() - 1], s[at]));
                } else {
                    assert(less(x, s.last()));
                }
            }
        }
        assert forall|i: int| 0 <= i < r.len() implies (#[trigger] r[i]) == x || s.contains(
            r[i],
        ) by {
            if i < rest.len() {
                if rest[i] != x {
                    let at = choose|at: int| 0 <= at < front.len() && front[at] == rest[i];
                    assert(s[at] == r[i]);
                }
            } else {
                assert(s[s.len() - 1] == r[i]);
            }
        }
        assert(s =~= front.push(s.last()));
        assert(r.to_multiset() =~= s.to_multiset().insert(x));
    }
}

/// Sorting puts the items in order, and loses and adds none.
pub proof fn sorting_orders<A>(s: Seq<A>, less: spec_fn(A, A) -> bool)
    requires
        is_order(less),
    ensures
        in_order(sorted(s, less), less),
        sorted(s, less).to_multiset() == s.to_multiset(),
        sorted(s, less).len() == s.len(),
    decreases s.len(),
{
    broadcast use vstd::seq_lib::group_to_multiset_ensures;

    if s.len() > 0 {
        sorting_orders(s.drop_last(), less);
        lemma_inserted(sorted(s.drop_last(), less), s.last(), less);
        assert(s =~= s.drop_last().push(s.last()));
        assert(sorted(s, less).to_multiset() =~= s.to_multiset());
    }
}

proof fn lemma_before_asymmetric(a: Seq<char>, b: Seq<char>)
    ensures
        a.before(b) ==> !b.before(a),
    decreases a.len(),
{
    if a.len() > 0 && b.len() > 0 && a[0] == b[0] {
        lemma_before_asymmetric(a.skip(1), b.skip(1));
    }
}

proof fn lemma_before_goes_on(a: Seq<char>, b: Seq<char>, c: Seq<char>)
    ensures
        !a.before(b) && !b.before(c) ==> !a.before(c),
    decreases a.len(),
{
    if a.len() > 0 && b.len() > 0 && c.len() > 0 && a[0] == b[0] && b[0] == c[0] {
        lemma_before_goes_on(a.skip(1), b.skip(1), c.skip(1));
    }
}

/// Texts are ordered by [`Text::before`].
pub proof fn texts_are_ordered()
    ensures
        is_order(|a: Seq<char>, b: Seq<char>| a.before(b)),
{
    let less = |a: Seq<char>, b: Seq<char>| a.before(b);
    assert forall|a: Seq<char>, b: Seq<char>| #![trigger less(a, b)] less(a, b) implies !less(
        b,
        a,
    ) by {
        lemma_before_asymmetric(a, b);
    }
    assert forall|a: Seq<char>, b: Seq<char>, c: Seq<char>|
        #![trigger less(a, b), less(b, c)]
        !less(a, b) && !less(b, c) implies !less(a, c) by {
        lemma_before_goes_on(a, b, c);
    }
}

} // verus!
