//! Names inside regular expressions.

use vstd::prelude::*;

use crate::text::{self, chars};

verus! {

/// Whether a character stands for itself in a pattern: letters, digits, and
/// those of `plain`.
pub open spec fn is_plain(c: char, plain: Seq<char>) -> bool {
    text::is_alphanumeric(c) || plain.contains(c)
}

/// `s` with a backslash before each character that could mean something else
/// in a pattern.
pub open spec fn escaped(s: Seq<char>, plain: Seq<char>) -> Seq<char>
    decreases s.len(),
{
    if s.len() == 0 {
        seq![]
    } else if is_plain(s[0], plain) {
        seq![s[0]] + escaped(s.skip(1), plain)
    } else {
        seq!['\\', s[0]] + escaped(s.skip(1), plain)
    }
}

pub fn escape(s: &str, plain: &str) -> (r: String)
    ensures
        r@ == escaped(s@, plain@),
{
    let t = chars(s);
    let set = chars(plain);
    let mut out: Vec<char> = Vec::new();
    let mut i: usize = 0;
    assert(t@.skip(0) =~= t@);
    while i < t.len()
        invariant
            i <= t.len(),
            t@ == s@,
            set@ == plain@,
            escaped(s@, plain@) == out@ + escaped(t@.skip(i as int), plain@),
        decreases t.len() - i,
    {
        let c = t[i];
        assert(t@.skip(i as int)[0] == c);
        assert(t@.skip(i as int).skip(1) =~= t@.skip(i + 1));
        let ghost before = out@;
        if !(text::alphanumeric(c) || text::in_set(&set, c)) {
            out.push('\\');
        }
        out.push(c);
        assert(escaped(s@, plain@) =~= out@ + escaped(t@.skip(i + 1), plain@));
        i += 1;
    }
    assert(out@ =~= out@ + escaped(t@.skip(i as int), plain@));
    text::string(&out)
}

/// What a pattern of escaped characters stands for: a backslash stands for
/// the character behind it.
pub open spec fn unescaped(s: Seq<char>) -> Seq<char>
    decreases s.len(),
{
    if s.len() == 0 {
        seq![]
    } else if s[0] == '\\' && s.len() > 1 {
        seq![s[1]] + unescaped(s.skip(2))
    } else {
        seq![s[0]] + unescaped(s.skip(1))
    }
}

/// Escaping loses nothing: the text can be read back from its pattern.
pub proof fn escaping_is_lossless(s: Seq<char>, plain: Seq<char>)
    requires
        !plain.contains('\\'),
    ensures
        unescaped(escaped(s, plain)) == s,
    decreases s.len(),
{
    if s.len() > 0 {
        let rest = escaped(s.skip(1), plain);
        escaping_is_lossless(s.skip(1), plain);
        if is_plain(s[0], plain) {
            assert((seq![s[0]] + rest).skip(1) =~= rest);
        } else {
            assert((seq!['\\', s[0]] + rest).skip(2) =~= rest);
        }
        assert(seq![s[0]] + s.skip(1) =~= s);
    }
}

/// The pattern of two texts behind each other is the pattern of the one and
/// then the pattern of the other.
pub proof fn escapes_add_up(a: Seq<char>, b: Seq<char>, plain: Seq<char>)
    ensures
        escaped(a + b, plain) == escaped(a, plain) + escaped(b, plain),
    decreases a.len(),
{
    if a.len() == 0 {
        assert(a + b =~= b);
        assert(escaped(a, plain) + escaped(b, plain) =~= escaped(b, plain));
    } else {
        escapes_add_up(a.skip(1), b, plain);
        assert((a + b)[0] == a[0]);
        assert((a + b).skip(1) =~= a.skip(1) + b);
        assert(escaped(a + b, plain) =~= escaped(a, plain) + escaped(b, plain));
    }
}

} // verus!
