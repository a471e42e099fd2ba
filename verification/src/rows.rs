//! Walking through the lines of an output.

use vstd::prelude::*;

use crate::text::{self, chars, Deep, lines, Text};

verus! {

/// What `f` makes of the items of `s`, in order, without the items of which
/// it makes nothing.
pub open spec fn select<A, B>(s: Seq<A>, f: spec_fn(A) -> Option<B>) -> Seq<B>
    decreases s.len(),
{
    if s.len() == 0 {
        seq![]
    } else {
        let rest = select(s.drop_last(), f);
        match f(s.last()) {
            Some(b) => rest.push(b),
            None => rest,
        }
    }
}

/// One value for each line that `f` makes something of.
pub fn select_lines<P: View, F: Fn(&[char]) -> Option<P>>(
    lines: &[&[char]],
    f: F,
    Ghost(g): Ghost<spec_fn(Seq<char>) -> Option<P::V>>,
) -> (r: Vec<P>)
    requires
        forall|l: &[char]| #[trigger] f.requires((l,)),
        forall|l: &[char], p: Option<P>| #[trigger] f.ensures((l,), p) ==> p.deep() == g(l@),
    ensures
        r@.deep() == select(lines@.deep(), g),
{
    let mut out: Vec<P> = Vec::new();
    let mut i: usize = 0;
    let ghost all = lines@.deep();
    assert(out@.deep() =~= seq![]);
    while i < lines.len()
        invariant
            i <= lines.len(),
            forall|l: &[char]| #[trigger] f.requires((l,)),
            forall|l: &[char], p: Option<P>| #[trigger] f.ensures((l,), p) ==> p.deep() == g(l@),
            all == lines@.deep(),
            out@.deep() == select(all.take(i as int), g),
        decreases lines.len() - i,
    {
        assert(all.take(i + 1).drop_last() =~= all.take(i as int));
        let ghost before = out@;
        if let Some(p) = f(lines[i]) {
            out.push(p);
            assert(out@.deep() =~= before.deep().push(p@));
        }
        i += 1;
    }
    assert(all.take(all.len() as int) =~= all);
    out
}

/// One value for each line of an output that `f` makes something of.
pub fn select_rows<P: View, F: Fn(&[char]) -> Option<P>>(
    output: &str,
    f: F,
    Ghost(g): Ghost<spec_fn(Seq<char>) -> Option<P::V>>,
) -> (r: Vec<P>)
    requires
        forall|l: &[char]| #[trigger] f.requires((l,)),
        forall|l: &[char], p: Option<P>| #[trigger] f.ensures((l,), p) ==> p.deep() == g(l@),
    ensures
        r@.deep() == select(output@.lines(), g),
{
    let t = chars(output);
    let ls = lines(&t);
    select_lines(&ls, f, Ghost(g))
}

/// The first item for which `f` holds.
pub open spec fn first<A>(s: Seq<A>, f: spec_fn(A) -> bool) -> Option<A>
    decreases s.len(),
{
    if s.len() == 0 {
        None
    } else if f(s[0]) {
        Some(s[0])
    } else {
        first(s.skip(1), f)
    }
}

/// The last item for which `f` holds.
pub open spec fn last<A>(s: Seq<A>, f: spec_fn(A) -> bool) -> Option<A>
    decreases s.len(),
{
    if s.len() == 0 {
        None
    } else if f(s.last()) {
        Some(s.last())
    } else {
        last(s.drop_last(), f)
    }
}

/// The items for which `f` holds.
pub open spec fn keep<A>(s: Seq<A>, f: spec_fn(A) -> bool) -> Seq<A>
    decreases s.len(),
{
    if s.len() == 0 {
        seq![]
    } else if f(s.last()) {
        keep(s.drop_last(), f).push(s.last())
    } else {
        keep(s.drop_last(), f)
    }
}

/// The position of the first item for which `f` holds, or -1.
pub open spec fn index<A>(s: Seq<A>, f: spec_fn(A) -> bool) -> int
    decreases s.len(),
{
    if s.len() == 0 {
        -1
    } else if f(s[0]) {
        0
    } else {
        let rest = index(s.skip(1), f);
        if rest < 0 {
            -1
        } else {
            rest + 1
        }
    }
}

/// [`index`] and [`first`] speak of the same item.
pub proof fn lemma_index_is_first<A>(s: Seq<A>, f: spec_fn(A) -> bool)
    ensures
        match first(s, f) {
            Some(a) => 0 <= index(s, f) < s.len() && s[index(s, f)] == a && f(a),
            None => index(s, f) == -1,
        },
    decreases s.len(),
{
    if s.len() > 0 && !f(s[0]) {
        lemma_index_is_first(s.skip(1), f);
    }
}

/// [`first`] of a sequence with one more item.
pub proof fn lemma_first_push<A>(s: Seq<A>, a: A, f: spec_fn(A) -> bool)
    ensures
        first(s.push(a), f) == if first(s, f) is Some {
            first(s, f)
        } else if f(a) {
            Some(a)
        } else {
            None
        },
    decreases s.len(),
{
    if s.len() > 0 && !f(s[0]) {
        assert(s.push(a).skip(1) =~= s.skip(1).push(a));
        lemma_first_push(s.skip(1), a, f);
    } else if s.len() == 0 {
        reveal_with_fuel(first, 2);
        assert(s.push(a)[0] == a);
    }
}

/// The position of the first item for which `f` holds.
pub fn position<P: View, F: Fn(&P) -> bool>(
    items: &[P],
    f: F,
    Ghost(g): Ghost<spec_fn(P::V) -> bool>,
) -> (r: Option<usize>)
    requires
        forall|p: &P| #[trigger] f.requires((p,)),
        forall|p: &P, b: bool| #[trigger] f.ensures((p,), b) ==> b == g(p@),
    ensures
        match r {
            Some(i) => i == index(items@.deep(), g) && i < items@.len(),
            None => index(items@.deep(), g) == -1,
        },
{
    let ghost all = items@.deep();
    let mut i: usize = 0;
    assert(all.skip(0) =~= all);
    while i < items.len()
        invariant
            i <= items.len(),
            forall|p: &P| #[trigger] f.requires((p,)),
            forall|p: &P, b: bool| #[trigger] f.ensures((p,), b) ==> b == g(p@),
            all == items@.deep(),
            index(all, g) == if index(all.skip(i as int), g) < 0 {
                -1
            } else {
                i + index(all.skip(i as int), g)
            },
        decreases items.len() - i,
    {
        assert(all.skip(i as int)[0] == items@[i as int]@);
        if f(&items[i]) {
            return Some(i);
        }
        assert(all.skip(i as int).skip(1) =~= all.skip(i + 1));
        i += 1;
    }
    None
}

/// The first item for which `f` holds, if the items can be copied.
pub fn find<P: View + Copy, F: Fn(&P) -> bool>(
    items: &[P],
    f: F,
    Ghost(g): Ghost<spec_fn(P::V) -> bool>,
) -> (r: Option<P>)
    requires
        forall|p: &P| #[trigger] f.requires((p,)),
        forall|p: &P, b: bool| #[trigger] f.ensures((p,), b) ==> b == g(p@),
    ensures
        r.deep() == first(items@.deep(), g),
{
    let ghost all = items@.deep();
    let mut i: usize = 0;
    assert(all.skip(0) =~= all);
    while i < items.len()
        invariant
            i <= items.len(),
            forall|p: &P| #[trigger] f.requires((p,)),
            forall|p: &P, b: bool| #[trigger] f.ensures((p,), b) ==> b == g(p@),
            all == items@.deep(),
            first(all, g) == first(all.skip(i as int), g),
        decreases items.len() - i,
    {
        assert(all.skip(i as int)[0] == items@[i as int]@);
        if f(&items[i]) {
            return Some(items[i]);
        }
        assert(all.skip(i as int).skip(1) =~= all.skip(i + 1));
        i += 1;
    }
    None
}

/// Takes the first item for which `f` holds.
pub fn take_first<P: View, F: Fn(&P) -> bool>(
    items: Vec<P>,
    f: F,
    Ghost(g): Ghost<spec_fn(P::V) -> bool>,
) -> (r: Option<P>)
    requires
        forall|p: &P| #[trigger] f.requires((p,)),
        forall|p: &P, b: bool| #[trigger] f.ensures((p,), b) ==> b == g(p@),
    ensures
        r.deep() == first(items@.deep(), g),
{
    let ghost all = items@.deep();
    let mut rest = items;
    let mut i: usize = 0;
    assert(all.skip(0) =~= all);
    while i < rest.len()
        invariant
            i <= rest.len(),
            rest@ == items@,
            forall|p: &P| #[trigger] f.requires((p,)),
            forall|p: &P, b: bool| #[trigger] f.ensures((p,), b) ==> b == g(p@),
            all == items@.deep(),
            first(all, g) == first(all.skip(i as int), g),
        decreases rest.len() - i,
    {
        assert(all.skip(i as int)[0] == items@[i as int]@);
        if f(&rest[i]) {
            return Some(rest.swap_remove(i));
        }
        assert(all.skip(i as int).skip(1) =~= all.skip(i + 1));
        i += 1;
    }
    None
}

/// Takes the last item for which `f` holds.
pub fn take_last<P: View, F: Fn(&P) -> bool>(
    items: Vec<P>,
    f: F,
    Ghost(g): Ghost<spec_fn(P::V) -> bool>,
) -> (r: Option<P>)
    requires
        forall|p: &P| #[trigger] f.requires((p,)),
        forall|p: &P, b: bool| #[trigger] f.ensures((p,), b) ==> b == g(p@),
    ensures
        r.deep() == last(items@.deep(), g),
{
    let ghost all = items@.deep();
    let mut rest = items;
    while rest.len() > 0
        invariant
            forall|p: &P| #[trigger] f.requires((p,)),
            forall|p: &P, b: bool| #[trigger] f.ensures((p,), b) ==> b == g(p@),
            all == items@.deep(),
            last(all, g) == last(rest@.deep(), g),
        decreases rest.len(),
    {
        let ghost before = rest@.deep();
        let item = rest.pop().unwrap();
        assert(before.last() == item@);
        assert(rest@.deep() =~= before.drop_last());
        if f(&item) {
            return Some(item);
        }
    }
    None
}

/// Keeps the items for which `f` holds.
pub fn retain<P: View, F: Fn(&P) -> bool>(
    items: Vec<P>,
    f: F,
    Ghost(g): Ghost<spec_fn(P::V) -> bool>,
) -> (r: Vec<P>)
    requires
        forall|p: &P| #[trigger] f.requires((p,)),
        forall|p: &P, b: bool| #[trigger] f.ensures((p,), b) ==> b == g(p@),
    ensures
        r@.deep() == keep(items@.deep(), g),
{
    let mut out: Vec<P> = Vec::new();
    let ghost all = items@.deep();
    let mut i: usize = 0;
    let n: usize = items.len();
    assert(out@.deep() =~= keep(all.take(0), g));
    for item in it: items
        invariant
            forall|p: &P| #[trigger] f.requires((p,)),
            forall|p: &P, b: bool| #[trigger] f.ensures((p,), b) ==> b == g(p@),
            all == it.seq().deep(),
            i == it.index(),
            i <= all.len(),
            all.len() == n,
            out@.deep() == keep(all.take(i as int), g),
    {
        let ghost before = out@;
        assert(all.take(i + 1).drop_last() =~= all.take(i as int));
        assert(all.take(i + 1).last() == item@);
        if f(&item) {
            out.push(item);
            assert(out@.deep() =~= before.deep().push(item@));
        }
        i += 1;
    }
    assert(all.take(all.len() as int) =~= all);
    out
}

/// What `f` makes of each item.
pub fn map_items<P: View, Q: View, F: Fn(P) -> Q>(
    items: Vec<P>,
    f: F,
    Ghost(g): Ghost<spec_fn(P::V) -> Q::V>,
) -> (r: Vec<Q>)
    requires
        forall|p: P| #[trigger] f.requires((p,)),
        forall|p: P, q: Q| #[trigger] f.ensures((p,), q) ==> q@ == g(p@),
    ensures
        r@.deep() == items@.deep().map_values(g),
{
    let mut out: Vec<Q> = empty();
    let ghost all = items@.deep();
    let mut i: usize = 0;
    let n: usize = items.len();
    assert(all.take(0).map_values(g) =~= seq![]);
    for item in it: items
        invariant
            forall|p: P| #[trigger] f.requires((p,)),
            forall|p: P, q: Q| #[trigger] f.ensures((p,), q) ==> q@ == g(p@),
            all == it.seq().deep(),
            i == it.index(),
            i <= all.len(),
            all.len() == n,
            out@.deep() == all.take(i as int).map_values(g),
    {
        assert(all.take(i + 1).map_values(g) =~= all.take(i as int).map_values(g).push(g(item@)));
        push(&mut out, f(item));
        i += 1;
    }
    assert(all.take(all.len() as int) =~= all);
    out
}

/// What `f` makes of each item, which stays where it is.
pub fn map_refs<P: View, Q: View, F: Fn(&P) -> Q>(
    items: &[P],
    f: F,
    Ghost(g): Ghost<spec_fn(P::V) -> Q::V>,
) -> (r: Vec<Q>)
    requires
        forall|p: &P| #[trigger] f.requires((p,)),
        forall|p: &P, q: Q| #[trigger] f.ensures((p,), q) ==> q@ == g(p@),
    ensures
        r@.deep() == items@.deep().map_values(g),
{
    let mut out: Vec<Q> = empty();
    let ghost all = items@.deep();
    let mut i: usize = 0;
    assert(all.take(0).map_values(g) =~= seq![]);
    while i < items.len()
        invariant
            forall|p: &P| #[trigger] f.requires((p,)),
            forall|p: &P, q: Q| #[trigger] f.ensures((p,), q) ==> q@ == g(p@),
            all == items@.deep(),
            i <= items.len(),
            out@.deep() == all.take(i as int).map_values(g),
        decreases items.len() - i,
    {
        assert(all[i as int] == items@[i as int]@);
        assert(all.take(i + 1).map_values(g) =~= all.take(i as int).map_values(g).push(
            g(all[i as int]),
        ));
        push(&mut out, f(&items[i]));
        i += 1;
    }
    assert(all.take(all.len() as int) =~= all);
    out
}

/// No items.
pub fn empty<P: View>() -> (r: Vec<P>)
    ensures
        r@.deep() == Seq::<P::V>::empty(),
{
    let r: Vec<P> = Vec::new();
    assert(r@.deep() =~= seq![]);
    r
}

/// Adds an item.
pub fn push<P: View>(items: &mut Vec<P>, item: P)
    ensures
        final(items)@.deep() == old(items)@.deep().push(item@),
{
    let ghost before = items@;
    items.push(item);
    assert(items@.deep() =~= before.deep().push(item@));
}

/// `s` with one more item, if there is one.
pub open spec fn added<A>(s: Seq<A>, o: Option<A>) -> Seq<A> {
    match o {
        Some(a) => s.push(a),
        None => s,
    }
}

/// Adds an item, if there is one.
pub fn push_some<P: View>(items: &mut Vec<P>, item: Option<P>)
    ensures
        final(items)@.deep() == added(old(items)@.deep(), item.deep()),
{
    if let Some(item) = item {
        push(items, item);
    }
}

/// Takes the last item away.
pub fn pop<P: View>(items: &mut Vec<P>) -> (r: Option<P>)
    ensures
        match r {
            Some(item) => old(items)@.deep().len() > 0 && item@ == old(items)@.deep().last()
                && final(items)@.deep() == old(items)@.deep().drop_last(),
            None => old(items)@.deep().len() == 0 && final(items)@.deep() == old(items)@.deep(),
        },
{
    let ghost before = items@;
    let r = items.pop();
    assert(before.len() > 0 ==> items@.deep() =~= before.deep().drop_last());
    r
}

/// Adds items.
pub fn append<P: View>(items: &mut Vec<P>, more: Vec<P>)
    ensures
        final(items)@.deep() == old(items)@.deep() + more@.deep(),
{
    let mut more = more;
    let ghost before = items@;
    let ghost added = more@;
    items.append(&mut more);
    assert(items@.deep() =~= before.deep() + added.deep());
}

/// A state that takes in lines one by one.
pub trait Scanner: Sized {
    /// The model of the state.
    type State;

    spec fn state(&self) -> Self::State;

    /// The state after one more line.
    spec fn next(state: Self::State, line: Seq<char>) -> Self::State;

    fn feed(&mut self, line: &[char])
        ensures
            final(self).state() == Self::next(old(self).state(), line@),
    ;
}

/// The state after all of `lines`, each of which `f` takes in.
pub open spec fn scan<S>(start: S, lines: Seq<Seq<char>>, f: spec_fn(S, Seq<char>) -> S) -> S
    decreases lines.len(),
{
    if lines.len() == 0 {
        start
    } else {
        f(scan(start, lines.drop_last(), f), lines.last())
    }
}

/// Feeds lines to a scanner.
pub fn scan_lines<M: Scanner>(
    start: M,
    lines: &[&[char]],
    Ghost(g): Ghost<spec_fn(M::State, Seq<char>) -> M::State>,
) -> (r: M)
    requires
        forall|s: M::State, l: Seq<char>| #[trigger] M::next(s, l) == g(s, l),
    ensures
        r.state() == scan(start.state(), lines@.deep(), g),
{
    let mut m = start;
    let mut i: usize = 0;
    let ghost all = lines@.deep();
    while i < lines.len()
        invariant
            i <= lines.len(),
            all == lines@.deep(),
            forall|s: M::State, l: Seq<char>| #[trigger] M::next(s, l) == g(s, l),
            m.state() == scan(start.state(), all.take(i as int), g),
        decreases lines.len() - i,
    {
        assert(all.take(i + 1).drop_last() =~= all.take(i as int));
        m.feed(lines[i]);
        i += 1;
    }
    assert(all.take(all.len() as int) =~= all);
    m
}

/// Feeds the lines of an output to a scanner.
pub fn scan_output<M: Scanner>(
    start: M,
    output: &str,
    Ghost(g): Ghost<spec_fn(M::State, Seq<char>) -> M::State>,
) -> (r: M)
    requires
        forall|s: M::State, l: Seq<char>| #[trigger] M::next(s, l) == g(s, l),
    ensures
        r.state() == scan(start.state(), output@.lines(), g),
{
    let t = chars(output);
    let ls = lines(&t);
    scan_lines(start, &ls, Ghost(g))
}

// ---------------------------------------------------------------------- laws

pub proof fn lemma_select_adds_up<A, B>(s: Seq<A>, t: Seq<A>, f: spec_fn(A) -> Option<B>)
    ensures
        select(s + t, f) == select(s, f) + select(t, f),
    decreases t.len(),
{
    if t.len() == 0 {
        assert(s + t =~= s);
        assert(select(s, f) + select(t, f) =~= select(s, f));
    } else {
        lemma_select_adds_up(s, t.drop_last(), f);
        assert((s + t).drop_last() =~= s + t.drop_last());
        assert(select(s + t, f) =~= select(s, f) + select(t, f));
    }
}

/// What is read depends on what is made of each item alone.
pub proof fn read_alike<A, B>(s: Seq<A>, f: spec_fn(A) -> Option<B>, g: spec_fn(A) -> Option<B>)
    requires
        forall|i: int| 0 <= i < s.len() ==> f(#[trigger] s[i]) == g(s[i]),
    ensures
        select(s, f) == select(s, g),
    decreases s.len(),
{
    if s.len() > 0 {
        assert(s.last() == s[s.len() - 1]);
        assert forall|i: int| 0 <= i < s.len() - 1 implies f(#[trigger] s.drop_last()[i]) == g(
            s.drop_last()[i],
        ) by {
            assert(s.drop_last()[i] == s[i]);
        }
        read_alike(s.drop_last(), f, g);
    }
}

/// What is kept depends on which items have the property alone.
pub proof fn kept_alike<A>(s: Seq<A>, f: spec_fn(A) -> bool, g: spec_fn(A) -> bool)
    requires
        forall|i: int| 0 <= i < s.len() ==> f(#[trigger] s[i]) == g(s[i]),
    ensures
        keep(s, f) == keep(s, g),
    decreases s.len(),
{
    if s.len() > 0 {
        assert(s.last() == s[s.len() - 1]);
        assert forall|i: int| 0 <= i < s.len() - 1 implies f(#[trigger] s.drop_last()[i]) == g(
            s.drop_last()[i],
        ) by {
            assert(s.drop_last()[i] == s[i]);
        }
        kept_alike(s.drop_last(), f, g);
    }
}

/// The first item with a property comes from a place before which no item has
/// it.
pub proof fn first_is_at<A>(s: Seq<A>, f: spec_fn(A) -> bool, i: int)
    requires
        0 <= i < s.len(),
        f(s[i]),
        forall|j: int| 0 <= j < i ==> !f(#[trigger] s[j]),
    ensures
        first(s, f) == Some(s[i]),
    decreases s.len(),
{
    if i > 0 {
        assert(!f(s[0]));
        assert(s.skip(1)[i - 1] == s[i]);
        assert forall|j: int| 0 <= j < i - 1 implies !f(#[trigger] s.skip(1)[j]) by {
            assert(s.skip(1)[j] == s[j + 1]);
        }
        first_is_at(s.skip(1), f, i - 1);
    }
}

/// Where no item has a property, there is no first one.
pub proof fn first_is_nowhere<A>(s: Seq<A>, f: spec_fn(A) -> bool)
    requires
        forall|j: int| 0 <= j < s.len() ==> !f(#[trigger] s[j]),
    ensures
        first(s, f) is None,
    decreases s.len(),
{
    first_has(s, f);
    if first(s, f) is Some {
        let a = first(s, f)->0;
        let j = choose|j: int| 0 <= j < s.len() && s[j] == a;
        assert(!f(s[j]));
    }
}

/// Lines are read independently of each other: what is read from two outputs,
/// one printed after the other, is what is read from each of them.
pub proof fn outputs_add_up<B>(a: Seq<char>, b: Seq<char>, f: spec_fn(Seq<char>) -> Option<B>)
    requires
        a.len() == 0 || a.last() == '\n',
    ensures
        select((a + b).lines(), f) == select(a.lines(), f) + select(b.lines(), f),
{
    text::lines_add_up(a, b);
    lemma_select_adds_up(a.lines(), b.lines(), f);
}

pub proof fn lemma_scan_goes_on<S>(
    start: S,
    s: Seq<Seq<char>>,
    t: Seq<Seq<char>>,
    f: spec_fn(S, Seq<char>) -> S,
)
    ensures
        scan(start, s + t, f) == scan(scan(start, s, f), t, f),
    decreases t.len(),
{
    if t.len() == 0 {
        assert(s + t =~= s);
    } else {
        lemma_scan_goes_on(start, s, t.drop_last(), f);
        assert((s + t).drop_last() =~= s + t.drop_last());
    }
}

/// A scan of two outputs, one printed after the other, goes on with the second
/// from where the first has left it.
pub proof fn scans_go_on<S>(
    start: S,
    a: Seq<char>,
    b: Seq<char>,
    f: spec_fn(S, Seq<char>) -> S,
)
    requires
        a.len() == 0 || a.last() == '\n',
    ensures
        scan(start, (a + b).lines(), f) == scan(scan(start, a.lines(), f), b.lines(), f),
{
    text::lines_add_up(a, b);
    lemma_scan_goes_on(start, a.lines(), b.lines(), f);
}

/// What is read comes from some item, and what has a property whatever the
/// item was has it.
pub proof fn selected_have<A, B>(
    s: Seq<A>,
    f: spec_fn(A) -> Option<B>,
    property: spec_fn(B) -> bool,
)
    requires
        forall|a: A| (#[trigger] f(a)) matches Some(b) ==> property(b),
    ensures
        forall|i: int| 0 <= i < select(s, f).len() ==> property(#[trigger] select(s, f)[i]),
        select(s, f).len() <= s.len(),
    decreases s.len(),
{
    if s.len() > 0 {
        selected_have(s.drop_last(), f, property);
    }
}

/// The first item with a property has it, and where none is found no item has
/// it.
pub proof fn first_has<A>(s: Seq<A>, f: spec_fn(A) -> bool)
    ensures
        match first(s, f) {
            Some(a) => f(a) && s.contains(a),
            None => forall|i: int| 0 <= i < s.len() ==> !f(#[trigger] s[i]),
        },
    decreases s.len(),
{
    if s.len() > 0 {
        let rest = s.skip(1);
        first_has(rest, f);
        if f(s[0]) {
            assert(s.contains(s[0]));
        } else {
            match first(rest, f) {
                Some(a) => {
                    let i = choose|i: int| 0 <= i < rest.len() && rest[i] == a;
                    assert(s[i + 1] == a);
                },
                None => {
                    assert forall|i: int| 0 <= i < s.len() implies !f(#[trigger] s[i]) by {
                        if i > 0 {
                            assert(rest[i - 1] == s[i]);
                        }
                    }
                },
            }
        }
    }
}

/// What is kept is what was there and has the property.
pub proof fn kept_are_exactly<A>(s: Seq<A>, f: spec_fn(A) -> bool)
    ensures
        forall|a: A| #[trigger] keep(s, f).contains(a) <==> s.contains(a) && f(a),
        keep(s, f).len() <= s.len(),
    decreases s.len(),
{
    if s.len() > 0 {
        let front = s.drop_last();
        kept_are_exactly(front, f);
        assert forall|a: A| #[trigger] keep(s, f).contains(a) <==> s.contains(a) && f(a) by {
            assert(s =~= front.push(s.last()));
            if keep(s, f).contains(a) {
                let i = choose|i: int| 0 <= i < keep(s, f).len() && keep(s, f)[i] == a;
                if f(s.last()) && i == keep(front, f).len() {
                    assert(s[s.len() - 1] == a);
                } else {
                    assert(keep(front, f)[i] == a);
                    assert(keep(front, f).contains(a));
                    let j = choose|j: int| 0 <= j < front.len() && front[j] == a;
                    assert(s[j] == a);
                }
            }
            if s.contains(a) && f(a) {
                let j = choose|j: int| 0 <= j < s.len() && s[j] == a;
                if j < front.len() {
                    assert(front[j] == a);
                    assert(keep(front, f).contains(a));
                    let i = choose|i: int| 0 <= i < keep(front, f).len() && keep(front, f)[i] == a;
                    assert(keep(s, f)[i] == a);
                } else {
                    assert(keep(s, f).last() == a);
                }
            }
        }
    }
}

/// Where one item is kept, it is the only one with the property; where none is
/// kept, there is none.
pub proof fn the_only_one_kept<A>(s: Seq<A>, f: spec_fn(A) -> bool)
    ensures
        keep(s, f).len() == 0 <==> forall|i: int| 0 <= i < s.len() ==> !f(#[trigger] s[i]),
        keep(s, f).len() == 1 ==> exists|i: int|
            0 <= i < s.len() && #[trigger] s[i] == keep(s, f)[0] && f(s[i]) && forall|j: int|
                0 <= j < s.len() && j != i ==> !f(#[trigger] s[j]),
    decreases s.len(),
{
    if s.len() > 0 {
        let front = s.drop_last();
        let n = s.len() - 1;
        the_only_one_kept(front, f);
        assert forall|i: int| 0 <= i < n implies #[trigger] front[i] == s[i] by {}
        if f(s[n]) {
            assert(keep(s, f).len() > 0);
            if keep(s, f).len() == 1 {
                assert(keep(s, f)[0] == s[n]);
                assert forall|j: int| 0 <= j < s.len() && j != n implies !f(#[trigger] s[j]) by {
                    assert(front[j] == s[j]);
                }
            }
        } else {
            if keep(s, f).len() == 0 {
                assert forall|i: int| 0 <= i < s.len() implies !f(#[trigger] s[i]) by {
                    if i < n {
                        assert(front[i] == s[i]);
                    }
                }
            }
            if keep(s, f).len() == 1 {
                let i = choose|i: int|
                    0 <= i < front.len() && #[trigger] front[i] == keep(front, f)[0] && f(front[i])
                        && forall|j: int|
                        0 <= j < front.len() && j != i ==> !f(#[trigger] front[j]);
                assert(s[i] == keep(s, f)[0] && f(s[i]));
                assert forall|j: int| 0 <= j < s.len() && j != i implies !f(#[trigger] s[j]) by {
                    if j < n {
                        assert(front[j] == s[j]);
                    }
                }
            }
        }
    }
}

} // verus!
