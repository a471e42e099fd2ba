//! Names and versions written as one word.

use vstd::prelude::*;

use crate::text::{self, chars, Deep, Text};

verus! {

/// Whether a version begins behind position `i`: a hyphen, then a digit.
pub open spec fn version_dash(s: Seq<char>, i: int) -> bool {
    0 <= i && i + 1 < s.len() && s[i] == '-' && text::is_digit(s[i + 1])
}

/// The last hyphen before `n` that is followed by a digit, or -1.
pub open spec fn last_dash(s: Seq<char>, n: int) -> int
    decreases n,
{
    if n <= 0 {
        -1
    } else if version_dash(s, n - 1) {
        n - 1
    } else {
        last_dash(s, n - 1)
    }
}

/// The first hyphen from `n` on that is followed by a digit, or -1.
pub open spec fn first_dash(s: Seq<char>, n: int) -> int
    decreases s.len() - n,
{
    if n >= s.len() {
        -1
    } else if version_dash(s, n) {
        n
    } else {
        first_dash(s, n + 1)
    }
}

/// What stands before and behind the hyphen at `at`.
pub open spec fn parted(s: Seq<char>, at: int) -> (Seq<char>, Option<Seq<char>>) {
    if at < 0 {
        (s, None)
    } else {
        (s.take(at), Some(s.skip(at + 1)))
    }
}

/// A name and its version, parted at the last hyphen followed by a digit.
pub open spec fn split_last(s: Seq<char>) -> (Seq<char>, Option<Seq<char>>) {
    parted(s, last_dash(s, s.len() as int))
}

/// A name and its version, parted at the first hyphen followed by a digit.
pub open spec fn split_first(s: Seq<char>) -> (Seq<char>, Option<Seq<char>>) {
    parted(s, first_dash(s, 0))
}

/// [`split_last`] as executable code.
pub fn at_last_dash(s: &[char]) -> (r: (&[char], Option<&[char]>))
    ensures
        (r.0@, r.1.deep()) == split_last(s@),
{
    let mut n: usize = s.len();
    while n > 0
        invariant
            n <= s.len(),
            last_dash(s@, s@.len() as int) == last_dash(s@, n as int),
        decreases n,
    {
        if s[n - 1] == '-' && n < s.len() && text::digit(s[n]) {
            return (text::head(s, n - 1), Some(text::tail(s, n)));
        }
        n -= 1;
    }
    (s, None)
}

/// [`split_first`] as executable code.
pub fn at_first_dash(s: &[char]) -> (r: (&[char], Option<&[char]>))
    ensures
        (r.0@, r.1.deep()) == split_first(s@),
{
    let mut n: usize = 0;
    while n < s.len()
        invariant
            n <= s.len(),
            first_dash(s@, 0) == first_dash(s@, n as int),
        decreases s.len() - n,
    {
        if s[n] == '-' && s.len() - n > 1 && text::digit(s[n + 1]) {
            return (text::head(s, n), Some(text::tail(s, n + 1)));
        }
        n += 1;
    }
    (s, None)
}

/// The model of a name with an optional version.
pub open spec fn name_and_version(r: (String, Option<String>)) -> (Seq<char>, Option<Seq<char>>) {
    (r.0@, r.1.deep())
}

/// [`at_last_dash`] on strings.
pub fn split_at_last(s: &str) -> (r: (String, Option<String>))
    ensures
        name_and_version(r) == split_last(s@),
{
    let t = chars(s);
    let (name, version) = at_last_dash(&t);
    (text::string(name), text::maybe_string(version))
}

/// [`at_first_dash`] on strings.
pub fn split_at_first(s: &str) -> (r: (String, Option<String>))
    ensures
        name_and_version(r) == split_first(s@),
{
    let t = chars(s);
    let (name, version) = at_first_dash(&t);
    (text::string(name), text::maybe_string(version))
}

/// How one thing stands to another in an order.
#[derive(Clone, Copy, Debug, PartialEq, Eq, Structural)]
pub enum Rank {
    Less,
    Equal,
    Greater,
}

impl Rank {
    /// The rank the other way round.
    pub open spec fn reversed(self) -> Rank {
        match self {
            Rank::Less => Rank::Greater,
            Rank::Equal => Rank::Equal,
            Rank::Greater => Rank::Less,
        }
    }
}

/// A chunk without the plus sign that it may begin with.
pub open spec fn unsigned(s: Seq<char>) -> Seq<char> {
    if s.len() > 0 && s[0] == '+' {
        s.skip(1)
    } else {
        s
    }
}

/// The number that a chunk writes in decimal digits, however many.
pub open spec fn whole(s: Seq<char>) -> Option<nat> {
    let digits = unsigned(s);
    if digits.len() > 0 && text::all_digits(digits) {
        Some(text::digits_value(digits))
    } else {
        None
    }
}

/// One number against another.
pub open spec fn rank_numbers(x: nat, y: nat) -> Rank {
    if x < y {
        Rank::Less
    } else if x > y {
        Rank::Greater
    } else {
        Rank::Equal
    }
}

/// One chunk of a version against another: as numbers where both are, else
/// character by character.
pub open spec fn rank_chunk(a: Seq<char>, b: Seq<char>) -> Rank {
    match (whole(a), whole(b)) {
        (Some(x), Some(y)) => rank_numbers(x, y),
        _ => if a.before(b) {
            Rank::Less
        } else if b.before(a) {
            Rank::Greater
        } else {
            Rank::Equal
        },
    }
}

/// One version against another, chunk by chunk; what goes on is greater than
/// what ends.
pub open spec fn rank_chunks(a: Seq<Seq<char>>, b: Seq<Seq<char>>) -> Rank
    decreases a.len(),
{
    if a.len() == 0 {
        if b.len() == 0 {
            Rank::Equal
        } else {
            Rank::Less
        }
    } else if b.len() == 0 {
        Rank::Greater
    } else if rank_chunk(a[0], b[0]) != Rank::Equal {
        rank_chunk(a[0], b[0])
    } else {
        rank_chunks(a.skip(1), b.skip(1))
    }
}

/// One version against another, where `separators` part the chunks.
pub open spec fn rank_spec(a: Seq<char>, b: Seq<char>, separators: Seq<char>) -> Rank {
    rank_chunks(a.split(separators), b.split(separators))
}

/// Zeros in front of a number change nothing.
proof fn lemma_leading_zeros(s: Seq<char>, n: int)
    requires
        0 <= n <= s.len(),
        forall|i: int| 0 <= i < n ==> s[i] == '0',
    ensures
        text::digits_value(s.skip(n)) == text::digits_value(s),
    decreases s.len(),
{
    if s.len() == 0 {
        assert(s.skip(n) =~= s);
    } else if n == s.len() {
        lemma_leading_zeros(s.drop_last(), n - 1);
        assert(s.drop_last().skip(n - 1) =~= seq![]);
        assert(s.skip(n) =~= seq![]);
    } else {
        lemma_leading_zeros(s.drop_last(), n);
        assert(s.skip(n).drop_last() =~= s.drop_last().skip(n));
    }
}

/// Of two numbers without leading zeros the one with more digits is greater.
proof fn lemma_longer_is_greater(a: Seq<char>, b: Seq<char>)
    requires
        text::all_digits(a),
        text::all_digits(b),
        a.len() > b.len(),
        a[0] != '0',
    ensures
        text::digits_value(a) > text::digits_value(b),
    decreases a.len(),
{
    let front = a.drop_last();
    assert forall|i: int| 0 <= i < front.len() implies text::is_digit(#[trigger] front[i]) by {
        assert(front[i] == a[i]);
    }
    assert(text::is_digit(a[a.len() - 1]));
    if a.len() > 1 {
        let other = if b.len() > 0 {
            b.drop_last()
        } else {
            b
        };
        assert forall|i: int| 0 <= i < other.len() implies text::is_digit(#[trigger] other[i]) by {
            assert(other[i] == b[i]);
        }
        if b.len() > 0 {
            assert(text::is_digit(b[b.len() - 1]));
        }
        lemma_longer_is_greater(front, other);
    } else {
        assert(text::is_digit(a[0]));
    }
}

/// The digits of a chunk that writes a number, without leading zeros.
fn significant(s: &[char]) -> (r: Option<&[char]>)
    ensures
        match r {
            Some(digits) => {
                &&& whole(s@) == Some(text::digits_value(digits@))
                &&& text::all_digits(digits@)
                &&& digits@.len() > 0 ==> digits@[0] != '0'
            },
            None => whole(s@) is None,
        },
{
    let digits = if s.len() > 0 && s[0] == '+' {
        text::tail(s, 1)
    } else {
        s
    };
    assert(digits@ == unsigned(s@));
    if digits.len() == 0 {
        return None;
    }
    let mut i: usize = 0;
    while i < digits.len()
        invariant
            i <= digits.len(),
            digits@ == unsigned(s@),
            forall|j: int| 0 <= j < i ==> text::is_digit(#[trigger] digits@[j]),
        decreases digits.len() - i,
    {
        if !text::digit(digits[i]) {
            assert(!text::is_digit(digits@[i as int]));
            return None;
        }
        i += 1;
    }
    let mut zeros: usize = 0;
    while zeros < digits.len() && digits[zeros] == '0'
        invariant
            zeros <= digits.len(),
            forall|j: int| 0 <= j < zeros ==> digits@[j] == '0',
        decreases digits.len() - zeros,
    {
        zeros += 1;
    }
    proof {
        lemma_leading_zeros(digits@, zeros as int);
    }
    Some(text::tail(digits, zeros))
}

/// One number against another, by their digits.
fn digits_rank(a: &[char], b: &[char]) -> (r: Rank)
    requires
        text::all_digits(a@),
        text::all_digits(b@),
        a@.len() > 0 ==> a@[0] != '0',
        b@.len() > 0 ==> b@[0] != '0',
    ensures
        r == rank_numbers(text::digits_value(a@), text::digits_value(b@)),
{
    if a.len() > b.len() {
        proof {
            lemma_longer_is_greater(a@, b@);
        }
        return Rank::Greater;
    }
    if a.len() < b.len() {
        proof {
            lemma_longer_is_greater(b@, a@);
        }
        return Rank::Less;
    }
    let mut r = Rank::Equal;
    let mut i: usize = 0;
    assert(a@.take(0) =~= b@.take(0));
    while i < a.len()
        invariant
            i <= a.len(),
            a.len() == b.len(),
            text::all_digits(a@),
            text::all_digits(b@),
            r == rank_numbers(
                text::digits_value(a@.take(i as int)),
                text::digits_value(b@.take(i as int)),
            ),
        decreases a.len() - i,
    {
        assert(a@.take(i + 1).drop_last() =~= a@.take(i as int));
        assert(b@.take(i + 1).drop_last() =~= b@.take(i as int));
        assert(text::is_digit(a@[i as int]) && text::is_digit(b@[i as int]));
        if r == Rank::Equal {
            if a[i] < b[i] {
                r = Rank::Less;
            } else if a[i] > b[i] {
                r = Rank::Greater;
            }
        }
        i += 1;
    }
    assert(a@.take(a@.len() as int) =~= a@);
    assert(b@.take(b@.len() as int) =~= b@);
    r
}

fn chunk_rank(a: &[char], b: &[char]) -> (r: Rank)
    ensures
        r == rank_chunk(a@, b@),
{
    match (significant(a), significant(b)) {
        (Some(x), Some(y)) => digits_rank(x, y),
        _ => {
            if text::before(a, b) {
                Rank::Less
            } else if text::before(b, a) {
                Rank::Greater
            } else {
                Rank::Equal
            }
        },
    }
}

pub fn rank(a: &str, b: &str, separators: &str) -> (r: Rank)
    ensures
        r == rank_spec(a@, b@, separators@),
{
    let left = chars(a);
    let right = chars(b);
    let left = text::split(&left, separators);
    let right = text::split(&right, separators);
    let ghost all = left@.deep();
    let ghost other = right@.deep();
    let mut i: usize = 0;
    assert(all.skip(0) =~= all && other.skip(0) =~= other);
    while i < left.len() && i < right.len()
        invariant
            i <= left.len(),
            i <= right.len(),
            all == left@.deep(),
            other == right@.deep(),
            all == a@.split(separators@),
            other == b@.split(separators@),
            rank_chunks(all, other) == rank_chunks(all.skip(i as int), other.skip(i as int)),
        decreases left.len() - i,
    {
        assert(all.skip(i as int)[0] == left@[i as int]@);
        assert(other.skip(i as int)[0] == right@[i as int]@);
        let r = chunk_rank(left[i], right[i]);
        if r != Rank::Equal {
            return r;
        }
        assert(all.skip(i as int).skip(1) =~= all.skip(i + 1));
        assert(other.skip(i as int).skip(1) =~= other.skip(i + 1));
        i += 1;
    }
    if i < left.len() {
        Rank::Greater
    } else if i < right.len() {
        Rank::Less
    } else {
        Rank::Equal
    }
}

proof fn lemma_before_not_both(a: Seq<char>, b: Seq<char>)
    ensures
        !(a.before(b) && b.before(a)),
    decreases a.len(),
{
    if a.len() > 0 && b.len() > 0 && a[0] == b[0] {
        lemma_before_not_both(a.skip(1), b.skip(1));
    }
}

proof fn lemma_rank_reverses(a: Seq<Seq<char>>, b: Seq<Seq<char>>)
    ensures
        rank_chunks(b, a) == rank_chunks(a, b).reversed(),
    decreases a.len(),
{
    if a.len() > 0 && b.len() > 0 {
        lemma_before_not_both(a[0], b[0]);
        lemma_rank_reverses(a.skip(1), b.skip(1));
    }
}

proof fn lemma_rank_of_itself(a: Seq<Seq<char>>)
    ensures
        rank_chunks(a, a) == Rank::Equal,
    decreases a.len(),
{
    if a.len() > 0 {
        lemma_before_not_both(a[0], a[0]);
        lemma_rank_of_itself(a.skip(1));
    }
}

/// Comparing the other way round gives the opposite rank.
pub proof fn ranks_reverse(a: Seq<char>, b: Seq<char>, separators: Seq<char>)
    ensures
        rank_spec(b, a, separators) == rank_spec(a, b, separators).reversed(),
{
    lemma_rank_reverses(a.split(separators), b.split(separators));
}

/// A version ranks equal to itself.
pub proof fn ranks_equal_itself(a: Seq<char>, separators: Seq<char>)
    ensures
        rank_spec(a, a, separators) == Rank::Equal,
{
    lemma_rank_of_itself(a.split(separators));
}

/// A number with further digits behind it is greater, but for zeros behind
/// zero.
proof fn lemma_more_digits(s: Seq<char>, more: Seq<char>)
    requires
        text::all_digits(s + more),
    ensures
        text::digits_value(s + more) >= text::digits_value(s),
        more.len() > 0 && text::digits_value(s) > 0 ==> text::digits_value(s + more)
            > text::digits_value(s),
        text::digits_value(s) == 0 ==> (text::digits_value(s + more) == 0 <==> (forall|i: int|
            0 <= i < more.len() ==> more[i] == '0')),
    decreases more.len(),
{
    if more.len() == 0 {
        assert(s + more =~= s);
    } else {
        let front = more.drop_last();
        let all = s + more;
        assert(all.drop_last() =~= s + front);
        assert forall|i: int| 0 <= i < (s + front).len() implies text::is_digit(
            #[trigger] (s + front)[i],
        ) by {
            assert((s + front)[i] == all[i]);
        }
        lemma_more_digits(s, front);
        assert(text::is_digit(all[all.len() - 1]));
        assert(all.last() == more.last());
        if text::digits_value(s) == 0 {
            if forall|i: int| 0 <= i < more.len() ==> more[i] == '0' {
                assert forall|i: int| 0 <= i < front.len() implies front[i] == '0' by {
                    assert(front[i] == more[i]);
                }
            } else {
                let at = choose|i: int| 0 <= i < more.len() && more[i] != '0';
                if at < front.len() {
                    assert(front[at] == more[at]);
                }
            }
        }
    }
}

proof fn lemma_before_longer(s: Seq<char>, more: Seq<char>)
    ensures
        s.before(s + more) == (more.len() > 0),
    decreases s.len(),
{
    if s.len() == 0 {
        assert(s + more =~= more);
    } else {
        assert((s + more).skip(1) =~= s.skip(1) + more);
        lemma_before_longer(s.skip(1), more);
    }
}

/// Whether `more` only writes further zeros behind a chunk that is zero.
pub open spec fn adds_zeros(chunk: Seq<char>, more: Seq<char>) -> bool {
    whole(chunk) == Some(0nat) && forall|i: int| 0 <= i < more.len() ==> more[i] == '0'
}

proof fn lemma_longer_chunk(chunk: Seq<char>, more: Seq<char>)
    requires
        more.len() > 0,
    ensures
        rank_chunk(chunk + more, chunk) == if adds_zeros(chunk, more) {
            Rank::Equal
        } else {
            Rank::Greater
        },
{
    let long = chunk + more;
    lemma_before_longer(chunk, more);
    lemma_before_not_both(chunk, long);
    if whole(chunk) is Some {
        let digits = unsigned(chunk);
        assert(long[0] == chunk[0]);
        assert(unsigned(long) =~= digits + more);
        if whole(long) is Some {
            lemma_more_digits(digits, more);
        } else if adds_zeros(chunk, more) {
            assert forall|i: int| 0 <= i < (digits + more).len() implies text::is_digit(
                #[trigger] (digits + more)[i],
            ) by {
                if i >= digits.len() {
                    assert((digits + more)[i] == more[i - digits.len()]);
                } else {
                    assert((digits + more)[i] == digits[i]);
                }
            }
        }
    }
}

proof fn lemma_rank_behind(front: Seq<Seq<char>>, a: Seq<Seq<char>>, b: Seq<Seq<char>>)
    ensures
        rank_chunks(front + a, front + b) == rank_chunks(a, b),
    decreases front.len(),
{
    if front.len() == 0 {
        assert(front + a =~= a);
        assert(front + b =~= b);
    } else {
        lemma_before_not_both(front[0], front[0]);
        assert((front + a).skip(1) =~= front.skip(1) + a);
        assert((front + b).skip(1) =~= front.skip(1) + b);
        lemma_rank_behind(front.skip(1), a, b);
    }
}

/// A version is newer than its own beginning. The one exception are further
/// zeros at the end of a last chunk that is zero: `1.00` is as new as `1.0`.
pub proof fn longer_is_newer(a: Seq<char>, more: Seq<char>, separators: Seq<char>)
    requires
        more.len() > 0,
    ensures
        rank_spec(a + more, a, separators) == if more.split(separators).len() == 1 && adds_zeros(
            a.split(separators).last(),
            more,
        ) {
            Rank::Equal
        } else {
            Rank::Greater
        },
{
    let chunks = a.split(separators);
    let rest = more.split(separators);
    text::splits_go_on(a, more, separators);
    let front = chunks.drop_last();
    let last = chunks.last();
    assert(chunks =~= front + seq![last]);
    assert((a + more).split(separators) =~= front + (seq![last + rest[0]] + rest.skip(1)));
    let long = seq![last + rest[0]] + rest.skip(1);
    lemma_rank_behind(front, long, seq![last]);
    assert(long.skip(1) =~= rest.skip(1));
    assert(seq![last].skip(1) =~= seq![]);
    assert(rank_chunks(long.skip(1), seq![last].skip(1)) == if rest.len() == 1 {
        Rank::Equal
    } else {
        Rank::Greater
    });
    if rest.len() == 1 {
        text::only_piece(more, separators);
        lemma_longer_chunk(last, more);
    } else if rest[0].len() == 0 {
        assert(last + rest[0] =~= last);
        lemma_before_not_both(last, last);
    } else {
        lemma_longer_chunk(last, rest[0]);
    }
}

/// Whether each chunk of a version writes a number.
pub open spec fn is_numeric(s: Seq<char>, separators: Seq<char>) -> bool {
    forall|i: int|
        0 <= i < s.split(separators).len() ==> whole(#[trigger] s.split(separators)[i]) is Some
}

proof fn lemma_ranks_chain(a: Seq<Seq<char>>, b: Seq<Seq<char>>, c: Seq<Seq<char>>)
    requires
        forall|i: int| 0 <= i < a.len() ==> whole(#[trigger] a[i]) is Some,
        forall|i: int| 0 <= i < b.len() ==> whole(#[trigger] b[i]) is Some,
        forall|i: int| 0 <= i < c.len() ==> whole(#[trigger] c[i]) is Some,
        rank_chunks(a, b) != Rank::Less,
        rank_chunks(b, c) != Rank::Less,
    ensures
        rank_chunks(a, c) != Rank::Less,
        rank_chunks(a, c) == Rank::Equal ==> rank_chunks(a, b) == Rank::Equal && rank_chunks(b, c)
            == Rank::Equal,
    decreases a.len(),
{
    if a.len() > 0 && b.len() > 0 && c.len() > 0 {
        assert(whole(a[0]) is Some && whole(b[0]) is Some && whole(c[0]) is Some);
        if rank_chunk(a[0], b[0]) == Rank::Equal && rank_chunk(b[0], c[0]) == Rank::Equal {
            assert forall|i: int| 0 <= i < a.skip(1).len() implies whole(
                #[trigger] a.skip(1)[i],
            ) is Some by {
                assert(a.skip(1)[i] == a[i + 1]);
            }
            assert forall|i: int| 0 <= i < b.skip(1).len() implies whole(
                #[trigger] b.skip(1)[i],
            ) is Some by {
                assert(b.skip(1)[i] == b[i + 1]);
            }
            assert forall|i: int| 0 <= i < c.skip(1).len() implies whole(
                #[trigger] c.skip(1)[i],
            ) is Some by {
                assert(c.skip(1)[i] == c[i + 1]);
            }
            lemma_ranks_chain(a.skip(1), b.skip(1), c.skip(1));
        }
    }
}

/// Versions made of numbers are ordered: what is no older than a version that
/// is no older than a third is no older than the third, and is as new only if
/// all three are.
pub proof fn numeric_ranks_chain(
    a: Seq<char>,
    b: Seq<char>,
    c: Seq<char>,
    separators: Seq<char>,
)
    requires
        is_numeric(a, separators),
        is_numeric(b, separators),
        is_numeric(c, separators),
        rank_spec(a, b, separators) != Rank::Less,
        rank_spec(b, c, separators) != Rank::Less,
    ensures
        rank_spec(a, c, separators) != Rank::Less,
        rank_spec(a, c, separators) == Rank::Equal ==> rank_spec(a, b, separators) == Rank::Equal
            && rank_spec(b, c, separators) == Rank::Equal,
{
    lemma_ranks_chain(a.split(separators), b.split(separators), c.split(separators));
}

proof fn lemma_last_dash(s: Seq<char>, n: int)
    requires
        n <= s.len(),
    ensures
        ({
            let at = last_dash(s, n);
            &&& at == -1 || (at < n && version_dash(s, at))
            &&& forall|i: int| at < i < n ==> !version_dash(s, i)
        }),
    decreases n,
{
    if n > 0 && !version_dash(s, n - 1) {
        lemma_last_dash(s, n - 1);
    }
}

proof fn lemma_first_dash(s: Seq<char>, n: int)
    requires
        0 <= n,
    ensures
        ({
            let at = first_dash(s, n);
            &&& at == -1 || (n <= at && version_dash(s, at))
            &&& forall|i: int| n <= i && (at == -1 || i < at) ==> !version_dash(s, i)
        }),
    decreases s.len() - n,
{
    if n < s.len() && !version_dash(s, n) {
        lemma_first_dash(s, n + 1);
    }
}

/// Parting a word at its last version loses nothing: the two parts make the
/// word again, the version begins with a digit and holds no further version.
pub proof fn last_split_is_lossless(s: Seq<char>)
    ensures
        match split_last(s) {
            (name, Some(version)) => {
                &&& s == name + seq!['-'] + version
                &&& version.len() > 0 && text::is_digit(version[0])
                &&& forall|i: int| !version_dash(version, i)
            },
            (name, None) => name == s && forall|i: int| !version_dash(s, i),
        },
{
    lemma_last_dash(s, s.len() as int);
    let at = last_dash(s, s.len() as int);
    if at >= 0 {
        let version = s.skip(at + 1);
        assert(s =~= s.take(at) + seq!['-'] + version);
        assert forall|i: int| !version_dash(version, i) by {
            assert(version_dash(version, i) ==> version_dash(s, at + 1 + i));
        }
    } else {
        assert forall|i: int| !version_dash(s, i) by {}
    }
}

/// Parting a word at its first version loses nothing: the two parts make the
/// word again, the version begins with a digit and the name holds none.
pub proof fn first_split_is_lossless(s: Seq<char>)
    ensures
        match split_first(s) {
            (name, Some(version)) => {
                &&& s == name + seq!['-'] + version
                &&& version.len() > 0 && text::is_digit(version[0])
                &&& forall|i: int| !version_dash(name, i)
            },
            (name, None) => name == s && forall|i: int| !version_dash(s, i),
        },
{
    lemma_first_dash(s, 0);
    let at = first_dash(s, 0);
    if at >= 0 {
        let name = s.take(at);
        assert(s =~= name + seq!['-'] + s.skip(at + 1));
        assert forall|i: int| !version_dash(name, i) by {
            assert(version_dash(name, i) ==> version_dash(s, i));
        }
    } else {
        assert forall|i: int| !version_dash(s, i) by {}
    }
}

} // verus!
