//! How names are parted from versions, and how versions are ranked.

use vstd::prelude::*;

use crate::text::{self, Text};
use crate::version::{self, Rank};

verus! {

/// A name and a version with a hyphen between them are parted there, where the
/// version begins with a digit and has no hyphen before another one.
pub proof fn names_are_parted_from_versions(name: Seq<char>, version: Seq<char>)
    requires
        version.begins_digit(),
        forall|i: int| !version::version_dash(version, i),
    ensures
        version::split_last(name + "-"@ + version) == (name, Some(version)),
{
    reveal_strlit("-");
    let s = name + "-"@ + version;
    let at = name.len() as int;
    assert(s[at] == '-' && s[at + 1] == version[0]);
    assert(version::version_dash(s, at));
    version::last_split_is_lossless(s);
    assert(s.take(at) =~= name);
    assert(s.skip(at + 1) =~= version);
    lemma_last(s, version, at, s.len() as int);
}

proof fn lemma_last(s: Seq<char>, version: Seq<char>, at: int, n: int)
    requires
        0 <= at < n <= s.len(),
        version::version_dash(s, at),
        version == s.skip(at + 1),
        forall|i: int| !version::version_dash(version, i),
    ensures
        version::last_dash(s, n) == at,
    decreases n,
{
    if n - 1 > at {
        if version::version_dash(s, n - 1) {
            assert(version[n - 1 - at - 1] == s[n - 1]);
            assert(version[n - at - 1] == s[n]);
            assert(version::version_dash(version, n - 1 - at - 1));
        }
        lemma_last(s, version, at, n - 1);
    }
}

/// A name without a hyphen before a digit is parted from a version at the first
/// hyphen that has one.
pub proof fn names_are_parted_first(name: Seq<char>, version: Seq<char>)
    requires
        version.begins_digit(),
        forall|i: int| !version::version_dash(name, i),
    ensures
        version::split_first(name + "-"@ + version) == (name, Some(version)),
{
    reveal_strlit("-");
    let s = name + "-"@ + version;
    let at = name.len() as int;
    assert(s[at] == '-' && s[at + 1] == version[0]);
    assert(s.take(at) =~= name);
    assert(s.skip(at + 1) =~= version);
    lemma_first(s, name, at, 0);
}

proof fn lemma_first(s: Seq<char>, name: Seq<char>, at: int, n: int)
    requires
        0 <= n <= at < s.len(),
        version::version_dash(s, at),
        name == s.take(at),
        forall|i: int| !version::version_dash(name, i),
    ensures
        version::first_dash(s, n) == at,
    decreases at - n,
{
    if n < at {
        if version::version_dash(s, n) {
            if n + 1 < at {
                assert(name[n] == s[n] && name[n + 1] == s[n + 1]);
                assert(version::version_dash(name, n));
            } else {
                assert(s[n + 1] == '-');
            }
        }
        lemma_first(s, name, at, n + 1);
    }
}

/// Numbers rank by their value, however they are written.
pub proof fn numbers_rank_by_value(a: Seq<char>, b: Seq<char>)
    requires
        a.len() > 0 && text::all_digits(a),
        b.len() > 0 && text::all_digits(b),
    ensures
        text::digits_value(a) < text::digits_value(b) ==> version::rank_chunk(a, b) == Rank::Less,
        text::digits_value(a) == text::digits_value(b)
            ==> version::rank_chunk(a, b) == Rank::Equal,
        text::digits_value(a) > text::digits_value(b)
            ==> version::rank_chunk(a, b) == Rank::Greater,
{
    assert(text::is_digit(a[0]) && text::is_digit(b[0]));
}

/// The first chunk in which two versions differ decides.
pub proof fn the_first_difference_decides(
    chunk: Seq<char>,
    other: Seq<char>,
    a: Seq<Seq<char>>,
    b: Seq<Seq<char>>,
)
    ensures
        version::rank_chunk(chunk, other) != Rank::Equal ==> version::rank_chunks(
            seq![chunk] + a,
            seq![other] + b,
        ) == version::rank_chunk(chunk, other),
        version::rank_chunk(chunk, other) == Rank::Equal ==> version::rank_chunks(
            seq![chunk] + a,
            seq![other] + b,
        ) == version::rank_chunks(a, b),
        a.len() > 0 ==> version::rank_chunks(a, seq![]) == Rank::Greater,
        a.len() > 0 ==> version::rank_chunks(seq![], a) == Rank::Less,
        version::rank_chunks(seq![], seq![]) == Rank::Equal,
{
    assert((seq![chunk] + a).skip(1) =~= a);
    assert((seq![other] + b).skip(1) =~= b);
}

} // verus!
