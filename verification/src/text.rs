//! Text as a sequence of characters: the cutting, trimming and comparing that
//! every output parser of this crate is written with.
//!
//! Specifications speak of `Seq<char>` through the methods of [`Text`]; the
//! executable functions of the same names work on character slices and are
//! proved to compute exactly those.

use vstd::prelude::*;
use vstd::slice::slice_subrange;

verus! {

// ---------------------------------------------------------------- characters

/// Unicode's `White_Space` property.
pub open spec fn is_blank(c: char) -> bool {
    ||| '\u{9}' <= c <= '\u{d}'
    ||| c == '\u{20}'
    ||| c == '\u{85}'
    ||| c == '\u{a0}'
    ||| c == '\u{1680}'
    ||| '\u{2000}' <= c <= '\u{200a}'
    ||| c == '\u{2028}'
    ||| c == '\u{2029}'
    ||| c == '\u{202f}'
    ||| c == '\u{205f}'
    ||| c == '\u{3000}'
}

/// `0` to `9`.
pub open spec fn is_digit(c: char) -> bool {
    '0' <= c <= '9'
}

/// ASCII letters and digits.
pub open spec fn is_alphanumeric(c: char) -> bool {
    is_digit(c) || 'a' <= c <= 'z' || 'A' <= c <= 'Z'
}

/// The ASCII lower-case form of a character; other characters are unchanged.
pub open spec fn lower_char(c: char) -> char {
    if 'A' <= c <= 'Z' {
        ((c as u8 + 32) as u8) as char
    } else {
        c
    }
}

// ------------------------------------------------------------ specifications

/// The first position whose character's membership in `set` is `inside`, or
/// the length where there is none.
pub open spec fn find_set(s: Seq<char>, set: Seq<char>, inside: bool) -> nat
    decreases s.len(),
{
    if s.len() == 0 || set.contains(s[0]) == inside {
        0
    } else {
        1 + find_set(s.skip(1), set, inside)
    }
}

/// The first position whose character is blank (`inside`) or is not
/// (`!inside`), or the length where there is none.
pub open spec fn find_blank(s: Seq<char>, inside: bool) -> nat
    decreases s.len(),
{
    if s.len() == 0 || is_blank(s[0]) == inside {
        0
    } else {
        1 + find_blank(s.skip(1), inside)
    }
}

/// The first position at which `pattern` occurs, or -1.
pub open spec fn find_text(s: Seq<char>, pattern: Seq<char>) -> int
    decreases s.len(),
{
    if begins_with(s, pattern) {
        0
    } else if s.len() == 0 {
        -1
    } else {
        let rest = find_text(s.skip(1), pattern);
        if rest < 0 {
            -1
        } else {
            rest + 1
        }
    }
}

/// The last position of `c`, or -1.
pub open spec fn find_last(s: Seq<char>, c: char) -> int
    decreases s.len(),
{
    if s.len() == 0 {
        -1
    } else if s.last() == c {
        s.len() - 1
    } else {
        find_last(s.drop_last(), c)
    }
}

pub open spec fn begins_with(s: Seq<char>, pattern: Seq<char>) -> bool {
    pattern.len() <= s.len() && s.take(pattern.len() as int) == pattern
}

pub open spec fn ends_in(s: Seq<char>, pattern: Seq<char>) -> bool {
    pattern.len() <= s.len() && s.skip(s.len() - pattern.len()) == pattern
}

/// A line without the carriage return that preceded its line feed.
pub open spec fn chomp(s: Seq<char>) -> Seq<char> {
    if s.len() > 0 && s.last() == '\r' {
        s.drop_last()
    } else {
        s
    }
}

pub open spec fn lines_of(s: Seq<char>) -> Seq<Seq<char>>
    decreases s.len(),
{
    if s.len() == 0 {
        seq![]
    } else {
        let end = find_set(s, seq!['\n'], true) as int;
        if end < s.len() {
            seq![chomp(s.take(end))] + lines_of(s.skip(end + 1))
        } else {
            seq![s]
        }
    }
}

pub open spec fn words_of(s: Seq<char>) -> Seq<Seq<char>>
    decreases s.len(),
{
    let start = find_blank(s, false) as int;
    if start >= s.len() {
        seq![]
    } else {
        let rest = s.skip(start);
        let end = find_blank(rest, true) as int;
        if 0 < end <= rest.len() {
            seq![rest.take(end)] + words_of(rest.skip(end))
        } else {
            seq![]
        }
    }
}

pub open spec fn split_of(s: Seq<char>, set: Seq<char>) -> Seq<Seq<char>>
    decreases s.len(),
{
    let end = find_set(s, set, true) as int;
    if end < s.len() {
        seq![s.take(end)] + split_of(s.skip(end + 1), set)
    } else {
        seq![s]
    }
}

pub open spec fn split_some_of(s: Seq<char>, n: nat, set: Seq<char>) -> Seq<Seq<char>>
    decreases n,
{
    let end = find_set(s, set, true) as int;
    if n > 1 && end < s.len() {
        seq![s.take(end)] + split_some_of(s.skip(end + 1), (n - 1) as nat, set)
    } else {
        seq![s]
    }
}

pub open spec fn trim_end_of(s: Seq<char>) -> Seq<char>
    decreases s.len(),
{
    if s.len() > 0 && is_blank(s.last()) {
        trim_end_of(s.drop_last())
    } else {
        s
    }
}

pub open spec fn trim_back_of(s: Seq<char>, set: Seq<char>) -> Seq<char>
    decreases s.len(),
{
    if s.len() > 0 && set.contains(s.last()) {
        trim_back_of(s.drop_last(), set)
    } else {
        s
    }
}

pub open spec fn replace_of(s: Seq<char>, c: char, with: Seq<char>) -> Seq<char>
    decreases s.len(),
{
    if s.len() == 0 {
        seq![]
    } else if s.last() == c {
        replace_of(s.drop_last(), c, with) + with
    } else {
        replace_of(s.drop_last(), c, with).push(s.last())
    }
}

/// The number a run of decimal digits writes.
pub open spec fn digits_value(s: Seq<char>) -> nat
    decreases s.len(),
{
    if s.len() == 0 {
        0
    } else {
        digits_value(s.drop_last()) * 10 + (s.last() as nat - '0' as nat) as nat
    }
}

pub open spec fn all_digits(s: Seq<char>) -> bool {
    forall|i: int| 0 <= i < s.len() ==> is_digit(#[trigger] s[i])
}

/// `parts` with `separator` between each two of them.
pub open spec fn join_of(parts: Seq<Seq<char>>, separator: Seq<char>) -> Seq<char>
    decreases parts.len(),
{
    if parts.len() == 0 {
        seq![]
    } else if parts.len() == 1 {
        parts[0]
    } else {
        join_of(parts.drop_last(), separator) + separator + parts.last()
    }
}

/// What the parsers say of text.
pub trait Text: Sized {
    /// The lines, each without its line ending; a final line feed opens no
    /// further line.
    spec fn lines(self) -> Seq<Seq<char>>;

    /// The maximal runs of characters that are not blank.
    spec fn words(self) -> Seq<Seq<char>>;

    /// Without leading and trailing blanks.
    spec fn trim(self) -> Seq<char>;

    spec fn trim_start(self) -> Seq<char>;

    /// The text, unless it is empty.
    spec fn filled(self) -> Option<Seq<char>>;

    spec fn trim_end(self) -> Seq<char>;

    /// Without the leading characters that are in `set`.
    spec fn trim_front(self, set: Seq<char>) -> Seq<char>;

    /// Without the trailing characters that are in `set`.
    spec fn trim_back(self, set: Seq<char>) -> Seq<char>;

    /// The pieces between the characters that are in `set`.
    spec fn split(self, set: Seq<char>) -> Seq<Seq<char>>;

    /// As `split`, but at most `n` pieces: the last one keeps the rest.
    spec fn split_some(self, n: nat, set: Seq<char>) -> Seq<Seq<char>>;

    /// What stands before and after the first occurrence of `pattern`.
    spec fn cut(self, pattern: Seq<char>) -> Option<(Seq<char>, Seq<char>)>;

    /// What stands before and after the last occurrence of `c`.
    spec fn cut_last(self, c: char) -> Option<(Seq<char>, Seq<char>)>;

    /// What stands after the last occurrence of `c`, or everything.
    spec fn after_last(self, c: char) -> Seq<char>;

    spec fn begins(self, pattern: Seq<char>) -> bool;

    spec fn ends(self, pattern: Seq<char>) -> bool;

    spec fn has(self, pattern: Seq<char>) -> bool;

    /// Whether any character is in `set`.
    spec fn has_any(self, set: Seq<char>) -> bool;

    /// Whether every character is in `set`.
    spec fn only(self, set: Seq<char>) -> bool;

    spec fn has_blank(self) -> bool;

    spec fn begins_blank(self) -> bool;

    spec fn begins_digit(self) -> bool;

    spec fn without_prefix(self, pattern: Seq<char>) -> Option<Seq<char>>;

    spec fn without_suffix(self, pattern: Seq<char>) -> Option<Seq<char>>;

    /// With ASCII letters in lower case.
    spec fn lower(self) -> Seq<char>;

    /// With each `c` replaced.
    spec fn replace(self, c: char, with: Seq<char>) -> Seq<char>;

    /// The number written in decimal digits, after at most one `+`, where it
    /// fits 64 bits.
    spec fn number(self) -> Option<u64>;

    /// Strictly before `other`, character by character in code point order.
    spec fn before(self, other: Seq<char>) -> bool;
}

pub open spec fn before_of(a: Seq<char>, b: Seq<char>) -> bool
    decreases a.len(),
{
    if b.len() == 0 {
        false
    } else if a.len() == 0 {
        true
    } else if a[0] != b[0] {
        a[0] < b[0]
    } else {
        before_of(a.skip(1), b.skip(1))
    }
}

impl Text for Seq<char> {
    open spec fn lines(self) -> Seq<Seq<char>> {
        lines_of(self)
    }

    open spec fn words(self) -> Seq<Seq<char>> {
        words_of(self)
    }

    open spec fn trim(self) -> Seq<char> {
        trim_end_of(self.skip(find_blank(self, false) as int))
    }

    open spec fn trim_start(self) -> Seq<char> {
        self.skip(find_blank(self, false) as int)
    }

    open spec fn filled(self) -> Option<Seq<char>> {
        if self.len() > 0 {
            Some(self)
        } else {
            None
        }
    }

    open spec fn trim_end(self) -> Seq<char> {
        trim_end_of(self)
    }

    open spec fn trim_front(self, set: Seq<char>) -> Seq<char> {
        self.skip(find_set(self, set, false) as int)
    }

    open spec fn trim_back(self, set: Seq<char>) -> Seq<char> {
        trim_back_of(self, set)
    }

    open spec fn split(self, set: Seq<char>) -> Seq<Seq<char>> {
        split_of(self, set)
    }

    open spec fn split_some(self, n: nat, set: Seq<char>) -> Seq<Seq<char>> {
        split_some_of(self, n, set)
    }

    open spec fn cut(self, pattern: Seq<char>) -> Option<(Seq<char>, Seq<char>)> {
        let at = find_text(self, pattern);
        if at < 0 {
            None
        } else {
            Some((self.take(at), self.skip(at + pattern.len())))
        }
    }

    open spec fn cut_last(self, c: char) -> Option<(Seq<char>, Seq<char>)> {
        let at = find_last(self, c);
        if at < 0 {
            None
        } else {
            Some((self.take(at), self.skip(at + 1)))
        }
    }

    open spec fn after_last(self, c: char) -> Seq<char> {
        self.skip(find_last(self, c) + 1)
    }

    open spec fn begins(self, pattern: Seq<char>) -> bool {
        begins_with(self, pattern)
    }

    open spec fn ends(self, pattern: Seq<char>) -> bool {
        ends_in(self, pattern)
    }

    open spec fn has(self, pattern: Seq<char>) -> bool {
        find_text(self, pattern) >= 0
    }

    open spec fn has_any(self, set: Seq<char>) -> bool {
        find_set(self, set, true) < self.len()
    }

    open spec fn only(self, set: Seq<char>) -> bool {
        find_set(self, set, false) >= self.len()
    }

    open spec fn has_blank(self) -> bool {
        find_blank(self, true) < self.len()
    }

    open spec fn begins_blank(self) -> bool {
        self.len() > 0 && is_blank(self[0])
    }

    open spec fn begins_digit(self) -> bool {
        self.len() > 0 && is_digit(self[0])
    }

    open spec fn without_prefix(self, pattern: Seq<char>) -> Option<Seq<char>> {
        if begins_with(self, pattern) {
            Some(self.skip(pattern.len() as int))
        } else {
            None
        }
    }

    open spec fn without_suffix(self, pattern: Seq<char>) -> Option<Seq<char>> {
        if ends_in(self, pattern) {
            Some(self.take(self.len() - pattern.len()))
        } else {
            None
        }
    }

    open spec fn lower(self) -> Seq<char> {
        Seq::new(self.len(), |i: int| lower_char(self[i]))
    }

    open spec fn replace(self, c: char, with: Seq<char>) -> Seq<char> {
        replace_of(self, c, with)
    }

    open spec fn number(self) -> Option<u64> {
        let digits = if self.len() > 0 && self[0] == '+' {
            self.skip(1)
        } else {
            self
        };
        if digits.len() > 0 && all_digits(digits) && digits_value(digits) <= u64::MAX {
            Some(digits_value(digits) as u64)
        } else {
            None
        }
    }

    open spec fn before(self, other: Seq<char>) -> bool {
        before_of(self, other)
    }
}

/// What a value stands for when the values inside it stand for their models.
pub trait Deep: Sized {
    type Model;

    spec fn deep(self) -> Self::Model;
}

impl<P: View> Deep for Seq<P> {
    type Model = Seq<P::V>;

    open spec fn deep(self) -> Seq<P::V> {
        self.map_values(|p: P| p@)
    }
}

impl<P: View> Deep for Option<P> {
    type Model = Option<P::V>;

    open spec fn deep(self) -> Option<P::V> {
        match self {
            Some(p) => Some(p@),
            None => None,
        }
    }
}

// --------------------------------------------------------------- conversions

/// The characters of a string.
pub fn chars(s: &str) -> (r: Vec<char>)
    ensures
        r@ == s@,
{
    let mut out: Vec<char> = Vec::new();
    for c in it: s.chars()
        invariant
            out@ == it.seq().take(it.index() as int),
            it.seq() == s@,
    {
        out.push(c);
    }
    out
}

/// The string of the given characters: `String::from_iter` over `char`
/// references, which collects them in order.
#[verifier::external_body]
pub(crate) fn string(chars: &[char]) -> (r: String)
    ensures
        r@ == chars@,
{
    String::from_iter(chars.iter())
}

/// A copy of a string.
pub fn copy(s: &str) -> (r: String)
    ensures
        r@ == s@,
{
    s.to_owned()
}

/// An optional slice as an optional string.
pub fn maybe_string(s: Option<&[char]>) -> (r: Option<String>)
    ensures
        r.deep() == s.deep(),
{
    match s {
        Some(s) => Some(string(s)),
        None => None,
    }
}

/// A string out of two pieces.
pub fn cat(a: &str, b: &str) -> (r: String)
    ensures
        r@ == a@ + b@,
{
    let mut out = copy(a);
    out.append(b);
    out
}

/// A string out of three pieces.
pub fn cat3(a: &str, b: &str, c: &str) -> (r: String)
    ensures
        r@ == a@ + b@ + c@,
{
    let mut out = cat(a, b);
    out.append(c);
    out
}

/// A string out of four pieces.
pub fn cat4(a: &str, b: &str, c: &str, d: &str) -> (r: String)
    ensures
        r@ == a@ + b@ + c@ + d@,
{
    let mut out = cat3(a, b, c);
    out.append(d);
    out
}

/// A string out of five pieces.
pub fn cat5(a: &str, b: &str, c: &str, d: &str, e: &str) -> (r: String)
    ensures
        r@ == a@ + b@ + c@ + d@ + e@,
{
    let mut out = cat4(a, b, c, d);
    out.append(e);
    out
}

/// A vector of slices as a vector of strings.
pub fn strings(parts: &[&[char]]) -> (r: Vec<String>)
    ensures
        r@.deep() == parts@.deep(),
{
    let mut out: Vec<String> = Vec::new();
    let mut i: usize = 0;
    while i < parts.len()
        invariant
            i <= parts.len(),
            out@.deep() == parts@.deep().take(i as int),
        decreases parts.len() - i,
    {
        let ghost before = out@;
        out.push(string(parts[i]));
        assert(out@.deep() =~= before.deep().push(parts@[i as int]@));
        assert(parts@.deep().take(i + 1) =~= parts@.deep().take(i as int).push(parts@[i as int]@));
        i += 1;
    }
    assert(parts@.deep().take(parts@.len() as int) =~= parts@.deep());
    out
}

/// Pieces of text, addressed by position.
pub trait Pieces: Sized {
    /// The piece at `i`, where there is one.
    spec fn nth(self, i: int) -> Option<Seq<char>>;
}

impl Pieces for Seq<Seq<char>> {
    open spec fn nth(self, i: int) -> Option<Seq<char>> {
        if 0 <= i < self.len() {
            Some(self[i])
        } else {
            None
        }
    }
}

/// The piece at `i`, where there is one.
pub fn nth<'a>(parts: &[&'a [char]], i: usize) -> (r: Option<&'a [char]>)
    ensures
        r.deep() == parts@.deep().nth(i as int),
{
    if i < parts.len() {
        Some(parts[i])
    } else {
        None
    }
}

/// All but the first `n` pieces; none where there are fewer.
pub open spec fn rest_of(parts: Seq<Seq<char>>, n: int) -> Seq<Seq<char>> {
    if n <= parts.len() {
        parts.skip(n)
    } else {
        seq![]
    }
}

/// All but the first `n` pieces; none where there are fewer.
pub fn rest<'a, 'b>(parts: &'b [&'a [char]], n: usize) -> (r: &'b [&'a [char]])
    ensures
        r@.deep() == rest_of(parts@.deep(), n as int),
{
    let n: usize = if n <= parts.len() {
        n
    } else {
        parts.len()
    };
    let r = slice_subrange(parts, n, parts.len());
    assert(r@.deep() =~= rest_of(parts@.deep(), n as int));
    r
}

/// The text, unless it is empty.
pub fn filled(s: &[char]) -> (r: Option<&[char]>)
    ensures
        r.deep() == s@.filled(),
{
    if s.len() > 0 {
        Some(s)
    } else {
        None
    }
}

// ---------------------------------------------------------------- comparison

/// Whether two slices hold the same text.
pub fn same(a: &[char], b: &[char]) -> (r: bool)
    ensures
        r == (a@ == b@),
{
    if a.len() != b.len() {
        return false;
    }
    let mut i: usize = 0;
    while i < a.len()
        invariant
            i <= a.len(),
            a.len() == b.len(),
            forall|j: int| 0 <= j < i ==> a@[j] == b@[j],
        decreases a.len() - i,
    {
        if a[i] != b[i] {
            assert(a@[i as int] != b@[i as int]);
            return false;
        }
        i += 1;
    }
    assert(a@ =~= b@);
    true
}

/// Whether a slice holds the text of a string.
pub fn is(a: &[char], b: &str) -> (r: bool)
    ensures
        r == (a@ == b@),
{
    let b = chars(b);
    same(a, &b)
}

/// Whether two strings hold the same text.
pub fn equal(a: &str, b: &str) -> (r: bool)
    ensures
        r == (a@ == b@),
{
    let a = chars(a);
    is(&a, b)
}

/// Whether two optional strings hold the same text.
pub fn equal_maybe(a: &Option<String>, b: &Option<String>) -> (r: bool)
    ensures
        r == ((*a).deep() == (*b).deep()),
{
    match (a, b) {
        (Some(a), Some(b)) => equal(a, b),
        (None, None) => true,
        _ => false,
    }
}

/// An optional string, copied.
pub fn copy_maybe(s: &Option<String>) -> (r: Option<String>)
    ensures
        r.deep() == (*s).deep(),
{
    match s {
        Some(s) => Some(copy(s)),
        None => None,
    }
}

pub fn blank(c: char) -> (r: bool)
    ensures
        r == is_blank(c),
{
    ('\u{9}' <= c && c <= '\u{d}') || c == '\u{20}' || c == '\u{85}' || c == '\u{a0}' || c
        == '\u{1680}' || ('\u{2000}' <= c && c <= '\u{200a}') || c == '\u{2028}' || c == '\u{2029}'
        || c == '\u{202f}' || c == '\u{205f}' || c == '\u{3000}'
}

pub fn digit(c: char) -> (r: bool)
    ensures
        r == is_digit(c),
{
    '0' <= c && c <= '9'
}

pub fn alphanumeric(c: char) -> (r: bool)
    ensures
        r == is_alphanumeric(c),
{
    digit(c) || ('a' <= c && c <= 'z') || ('A' <= c && c <= 'Z')
}

/// What `char::is_uppercase` says of a character.
pub uninterp spec fn unicode_uppercase(c: char) -> bool;

/// `char::is_uppercase`: whether Unicode counts the character as upper case.
/// The table behind it is Unicode's, so its answer is only named.
#[verifier::external_body]
pub(crate) fn uppercase(c: char) -> (r: bool)
    ensures
        r == unicode_uppercase(c),
{
    c.is_uppercase()
}

/// Whether `set` holds `c`.
pub fn in_set(set: &[char], c: char) -> (r: bool)
    ensures
        r == set@.contains(c),
{
    let mut i: usize = 0;
    while i < set.len()
        invariant
            i <= set.len(),
            forall|j: int| 0 <= j < i ==> set@[j] != c,
        decreases set.len() - i,
    {
        if set[i] == c {
            assert(set@[i as int] == c);
            return true;
        }
        i += 1;
    }
    false
}

pub fn before(a: &[char], b: &[char]) -> (r: bool)
    ensures
        r == a@.before(b@),
{
    let mut i: usize = 0;
    assert(a@.skip(0) =~= a@ && b@.skip(0) =~= b@);
    while i < a.len() && i < b.len()
        invariant
            i <= a.len(),
            i <= b.len(),
            before_of(a@, b@) == before_of(a@.skip(i as int), b@.skip(i as int)),
        decreases a.len() - i,
    {
        assert(a@.skip(i as int)[0] == a@[i as int]);
        assert(b@.skip(i as int)[0] == b@[i as int]);
        if a[i] != b[i] {
            return a[i] < b[i];
        }
        assert(a@.skip(i as int).skip(1) =~= a@.skip(i + 1));
        assert(b@.skip(i as int).skip(1) =~= b@.skip(i + 1));
        i += 1;
    }
    i < b.len()
}

/// [`before`] on strings.
pub fn string_before(a: &str, b: &str) -> (r: bool)
    ensures
        r == a@.before(b@),
{
    let a = chars(a);
    let b = chars(b);
    before(&a, &b)
}

// ----------------------------------------------------------------- searching

/// [`find_set`] as executable code.
pub fn position(s: &[char], set: &[char], inside: bool) -> (r: usize)
    ensures
        r == find_set(s@, set@, inside),
        r <= s@.len(),
{
    let mut i: usize = 0;
    assert(s@.skip(0) =~= s@);
    while i < s.len()
        invariant
            i <= s.len(),
            find_set(s@, set@, inside) == i + find_set(s@.skip(i as int), set@, inside),
        decreases s.len() - i,
    {
        assert(s@.skip(i as int)[0] == s@[i as int]);
        if in_set(set, s[i]) == inside {
            return i;
        }
        assert(s@.skip(i as int).skip(1) =~= s@.skip(i + 1));
        i += 1;
    }
    i
}

/// [`find_blank`] as executable code.
pub fn position_blank(s: &[char], inside: bool) -> (r: usize)
    ensures
        r == find_blank(s@, inside),
        r <= s@.len(),
{
    let mut i: usize = 0;
    assert(s@.skip(0) =~= s@);
    while i < s.len()
        invariant
            i <= s.len(),
            find_blank(s@, inside) == i + find_blank(s@.skip(i as int), inside),
        decreases s.len() - i,
    {
        assert(s@.skip(i as int)[0] == s@[i as int]);
        if blank(s[i]) == inside {
            return i;
        }
        assert(s@.skip(i as int).skip(1) =~= s@.skip(i + 1));
        i += 1;
    }
    i
}

/// The part of `s` from `from` up to `to`.
pub fn part(s: &[char], from: usize, to: usize) -> (r: &[char])
    requires
        from <= to <= s@.len(),
    ensures
        r@ == s@.subrange(from as int, to as int),
{
    slice_subrange(s, from, to)
}

/// The first `n` characters.
pub fn head(s: &[char], n: usize) -> (r: &[char])
    requires
        n <= s@.len(),
    ensures
        r@ == s@.take(n as int),
{
    slice_subrange(s, 0, n)
}

/// All but the first `n` characters.
pub fn tail(s: &[char], n: usize) -> (r: &[char])
    requires
        n <= s@.len(),
    ensures
        r@ == s@.skip(n as int),
{
    slice_subrange(s, n, s.len())
}

fn begins_slice(s: &[char], pattern: &[char]) -> (r: bool)
    ensures
        r == s@.begins(pattern@),
{
    pattern.len() <= s.len() && same(head(s, pattern.len()), pattern)
}

pub fn begins(s: &[char], pattern: &str) -> (r: bool)
    ensures
        r == s@.begins(pattern@),
{
    let pattern = chars(pattern);
    begins_slice(s, &pattern)
}

pub fn ends(s: &[char], pattern: &str) -> (r: bool)
    ensures
        r == s@.ends(pattern@),
{
    let pattern = chars(pattern);
    pattern.len() <= s.len() && same(tail(s, s.len() - pattern.len()), &pattern)
}

/// [`find_text`] as executable code.
pub fn find(s: &[char], pattern: &str) -> (r: Option<usize>)
    ensures
        match r {
            Some(at) => at == find_text(s@, pattern@) && at + pattern@.len() <= s@.len(),
            None => find_text(s@, pattern@) < 0,
        },
{
    let wanted = chars(pattern);
    let mut i: usize = 0;
    assert(s@.skip(0) =~= s@);
    while i < s.len()
        invariant
            i <= s.len(),
            wanted@ == pattern@,
            find_text(s@.skip(i as int), pattern@) < 0 <==> find_text(s@, pattern@) < 0,
            find_text(s@, pattern@) >= 0 ==> find_text(s@, pattern@) == i + find_text(
                s@.skip(i as int),
                pattern@,
            ),
        decreases s.len() - i,
    {
        if begins_slice(tail(s, i), &wanted) {
            return Some(i);
        }
        assert(s@.skip(i as int).skip(1) =~= s@.skip(i + 1));
        i += 1;
    }
    if wanted.len() == 0 {
        assert(s@.skip(i as int).take(0) =~= wanted@);
        Some(i)
    } else {
        None
    }
}

pub fn has(s: &[char], pattern: &str) -> (r: bool)
    ensures
        r == s@.has(pattern@),
{
    find(s, pattern).is_some()
}

pub fn has_any(s: &[char], set: &str) -> (r: bool)
    ensures
        r == s@.has_any(set@),
{
    let set = chars(set);
    position(s, &set, true) < s.len()
}

pub fn only(s: &[char], set: &str) -> (r: bool)
    ensures
        r == s@.only(set@),
{
    let set = chars(set);
    position(s, &set, false) >= s.len()
}

pub fn has_blank(s: &[char]) -> (r: bool)
    ensures
        r == s@.has_blank(),
{
    position_blank(s, true) < s.len()
}

pub fn begins_blank(s: &[char]) -> (r: bool)
    ensures
        r == s@.begins_blank(),
{
    s.len() > 0 && blank(s[0])
}

pub fn begins_digit(s: &[char]) -> (r: bool)
    ensures
        r == s@.begins_digit(),
{
    s.len() > 0 && digit(s[0])
}

// ------------------------------------------------------------------- cutting

pub fn without_prefix<'a>(s: &'a [char], pattern: &str) -> (r: Option<&'a [char]>)
    ensures
        r.deep() == s@.without_prefix(pattern@),
{
    let pattern = chars(pattern);
    if begins_slice(s, &pattern) {
        Some(tail(s, pattern.len()))
    } else {
        None
    }
}

pub fn without_suffix<'a>(s: &'a [char], pattern: &str) -> (r: Option<&'a [char]>)
    ensures
        r.deep() == s@.without_suffix(pattern@),
{
    let pattern = chars(pattern);
    if pattern.len() <= s.len() && same(tail(s, s.len() - pattern.len()), &pattern) {
        Some(head(s, s.len() - pattern.len()))
    } else {
        None
    }
}

pub fn cut<'a>(s: &'a [char], pattern: &str) -> (r: Option<(&'a [char], &'a [char])>)
    ensures
        r.deep() == s@.cut(pattern@),
{
    match find(s, pattern) {
        Some(at) => {
            let width = chars(pattern).len();
            assert(at + width <= s.len());
            Some((head(s, at), tail(s, at + width)))
        },
        None => None,
    }
}

/// [`find_last`] as executable code.
pub fn rfind(s: &[char], c: char) -> (r: Option<usize>)
    ensures
        match r {
            Some(at) => at == find_last(s@, c) && at < s@.len(),
            None => find_last(s@, c) == -1,
        },
{
    let mut n: usize = s.len();
    assert(s@.take(s@.len() as int) =~= s@);
    while n > 0
        invariant
            n <= s.len(),
            find_last(s@, c) == find_last(s@.take(n as int), c),
        decreases n,
    {
        assert(s@.take(n as int).last() == s@[n - 1]);
        if s[n - 1] == c {
            return Some(n - 1);
        }
        assert(s@.take(n as int).drop_last() =~= s@.take(n - 1));
        n -= 1;
    }
    None
}

pub fn cut_last<'a>(s: &'a [char], c: char) -> (r: Option<(&'a [char], &'a [char])>)
    ensures
        r.deep() == s@.cut_last(c),
{
    match rfind(s, c) {
        Some(at) => {
            assert(at + 1 <= s.len());
            Some((head(s, at), tail(s, at + 1)))
        },
        None => None,
    }
}

pub fn after_last(s: &[char], c: char) -> (r: &[char])
    ensures
        r@ == s@.after_last(c),
{
    match rfind(s, c) {
        Some(at) => {
            assert(at + 1 <= s.len());
            tail(s, at + 1)
        },
        None => tail(s, 0),
    }
}

pub fn trim_start(s: &[char]) -> (r: &[char])
    ensures
        r@ == s@.trim_start(),
{
    tail(s, position_blank(s, false))
}

pub fn trim_end(s: &[char]) -> (r: &[char])
    ensures
        r@ == s@.trim_end(),
{
    let mut n: usize = s.len();
    assert(s@.take(s@.len() as int) =~= s@);
    while n > 0 && blank(s[n - 1])
        invariant
            n <= s.len(),
            trim_end_of(s@) == trim_end_of(s@.take(n as int)),
        decreases n,
    {
        assert(s@.take(n as int).last() == s@[n - 1]);
        assert(s@.take(n as int).drop_last() =~= s@.take(n - 1));
        n -= 1;
    }
    assert(n > 0 ==> s@.take(n as int).last() == s@[n - 1]);
    head(s, n)
}

pub fn trim(s: &[char]) -> (r: &[char])
    ensures
        r@ == s@.trim(),
{
    trim_end(trim_start(s))
}

pub fn trim_front<'a>(s: &'a [char], set: &str) -> (r: &'a [char])
    ensures
        r@ == s@.trim_front(set@),
{
    let set = chars(set);
    tail(s, position(s, &set, false))
}

pub fn trim_back<'a>(s: &'a [char], set: &str) -> (r: &'a [char])
    ensures
        r@ == s@.trim_back(set@),
{
    let set = chars(set);
    let mut n: usize = s.len();
    assert(s@.take(s@.len() as int) =~= s@);
    while n > 0 && in_set(&set, s[n - 1])
        invariant
            n <= s.len(),
            trim_back_of(s@, set@) == trim_back_of(s@.take(n as int), set@),
        decreases n,
    {
        assert(s@.take(n as int).last() == s@[n - 1]);
        assert(s@.take(n as int).drop_last() =~= s@.take(n - 1));
        n -= 1;
    }
    assert(n > 0 ==> s@.take(n as int).last() == s@[n - 1]);
    head(s, n)
}

// ----------------------------------------------------------------- splitting

/// A piece pushed onto a vector of slices, seen through [`slices`].
proof fn lemma_push_slice(v: Seq<&[char]>, piece: &[char])
    ensures
        v.push(piece).deep() == v.deep().push(piece@),
{
    assert(v.push(piece).deep() =~= v.deep().push(piece@));
}

pub fn lines(s: &[char]) -> (r: Vec<&[char]>)
    ensures
        r@.deep() == s@.lines(),
{
    let newline: [char; 1] = ['\n'];
    assert(newline@ =~= seq!['\n']);
    let mut out: Vec<&[char]> = Vec::new();
    let mut rest = s;
    assert(out@.deep() + lines_of(rest@) =~= lines_of(s@));
    while rest.len() > 0
        invariant
            newline@ == seq!['\n'],
            out@.deep() + lines_of(rest@) == lines_of(s@),
        decreases rest.len(),
    {
        let ghost done = out@;
        let ghost whole = rest@;
        let end = position(rest, &newline, true);
        if end < rest.len() {
            let line = head(rest, end);
            let line = if line.len() > 0 && line[line.len() - 1] == '\r' {
                assert(line@.take(line@.len() - 1) =~= line@.drop_last());
                head(line, line.len() - 1)
            } else {
                line
            };
            rest = tail(rest, end + 1);
            out.push(line);
            proof {
                lemma_push_slice(done, line);
            }
            assert(out@.deep() + lines_of(rest@) =~= done.deep() + (seq![line@] + lines_of(
                rest@,
            )));
            assert(lines_of(whole) == seq![line@] + lines_of(rest@));
        } else {
            out.push(rest);
            proof {
                lemma_push_slice(done, rest);
            }
            rest = tail(rest, rest.len());
            assert(out@.deep() + lines_of(rest@) =~= done.deep() + lines_of(whole));
        }
    }
    assert(out@.deep() + lines_of(rest@) =~= out@.deep());
    out
}

pub fn words(s: &[char]) -> (r: Vec<&[char]>)
    ensures
        r@.deep() == s@.words(),
{
    let mut out: Vec<&[char]> = Vec::new();
    let mut rest = s;
    assert(out@.deep() + words_of(rest@) =~= words_of(s@));
    loop
        invariant
            out@.deep() + words_of(rest@) == words_of(s@),
        ensures
            out@.deep() == words_of(s@),
        decreases rest.len(),
    {
        let ghost done = out@;
        let ghost whole = rest@;
        let start = position_blank(rest, false);
        if start >= rest.len() {
            assert(out@.deep() + words_of(rest@) =~= out@.deep());
            break;
        }
        let word = tail(rest, start);
        proof {
            lemma_find_blank(rest@, false);
        }
        assert(!is_blank(word@[0]));
        let end = position_blank(word, true);
        let first = head(word, end);
        rest = tail(word, end);
        out.push(first);
        proof {
            lemma_push_slice(done, first);
        }
        assert(words_of(whole) == seq![first@] + words_of(rest@));
        assert(out@.deep() + words_of(rest@) =~= done.deep() + (seq![first@] + words_of(rest@)));
    }
    out
}

pub fn split<'a>(s: &'a [char], set: &str) -> (r: Vec<&'a [char]>)
    ensures
        r@.deep() == s@.split(set@),
{
    let set = chars(set);
    let mut out: Vec<&[char]> = Vec::new();
    let mut rest = s;
    assert(out@.deep() + split_of(rest@, set@) =~= split_of(s@, set@));
    loop
        invariant_except_break
            out@.deep() + split_of(rest@, set@) == split_of(s@, set@),
        ensures
            out@.deep() == split_of(s@, set@),
        decreases rest.len(),
    {
        let ghost done = out@;
        let ghost whole = rest@;
        let end = position(rest, &set, true);
        if end >= rest.len() {
            out.push(rest);
            proof {
                lemma_push_slice(done, rest);
            }
            assert(out@.deep() =~= done.deep() + split_of(rest@, set@));
            break;
        }
        let first = head(rest, end);
        rest = tail(rest, end + 1);
        out.push(first);
        proof {
            lemma_push_slice(done, first);
        }
        assert(split_of(whole, set@) == seq![first@] + split_of(rest@, set@));
        assert(out@.deep() + split_of(rest@, set@) =~= done.deep() + (seq![first@] + split_of(
            rest@,
            set@,
        )));
    }
    out
}

pub fn split_some<'a>(s: &'a [char], n: usize, set: &str) -> (r: Vec<&'a [char]>)
    ensures
        r@.deep() == s@.split_some(n as nat, set@),
{
    let set = chars(set);
    let mut out: Vec<&[char]> = Vec::new();
    let mut rest = s;
    let mut left: usize = n;
    assert(out@.deep() + split_some_of(rest@, n as nat, set@) =~= split_some_of(
        s@,
        n as nat,
        set@,
    ));
    loop
        invariant_except_break
            out@.deep() + split_some_of(rest@, left as nat, set@) == split_some_of(
                s@,
                n as nat,
                set@,
            ),
        ensures
            out@.deep() == split_some_of(s@, n as nat, set@),
        decreases left,
    {
        let ghost done = out@;
        let ghost whole = rest@;
        let end = position(rest, &set, true);
        if left <= 1 || end >= rest.len() {
            out.push(rest);
            proof {
                lemma_push_slice(done, rest);
            }
            assert(out@.deep() =~= done.deep() + split_some_of(rest@, left as nat, set@));
            break;
        }
        let first = head(rest, end);
        rest = tail(rest, end + 1);
        out.push(first);
        proof {
            lemma_push_slice(done, first);
        }
        assert(split_some_of(whole, left as nat, set@) == seq![first@] + split_some_of(
            rest@,
            (left - 1) as nat,
            set@,
        ));
        left -= 1;
        assert(out@.deep() + split_some_of(rest@, left as nat, set@) =~= done.deep() + (
        seq![first@] + split_some_of(rest@, left as nat, set@)));
    }
    out
}

// --------------------------------------------------------------- rearranging

pub fn lower(s: &[char]) -> (r: Vec<char>)
    ensures
        r@ == s@.lower(),
{
    let mut out: Vec<char> = Vec::new();
    let mut i: usize = 0;
    while i < s.len()
        invariant
            i <= s.len(),
            out@ == s@.lower().take(i as int),
        decreases s.len() - i,
    {
        let c = s[i];
        if 'A' <= c && c <= 'Z' {
            out.push((c as u8 + 32) as char);
        } else {
            out.push(c);
        }
        assert(s@.lower().take(i + 1) =~= s@.lower().take(i as int).push(s@.lower()[i as int]));
        i += 1;
    }
    assert(s@.lower().take(s@.len() as int) =~= s@.lower());
    out
}

/// Whether two strings differ in ASCII case at most.
pub fn equal_but_case(a: &str, b: &str) -> (r: bool)
    ensures
        r == (a@.lower() == b@.lower()),
{
    let a = chars(a);
    let b = chars(b);
    let a = lower(&a);
    let b = lower(&b);
    same(&a, &b)
}

/// Appends a slice to a vector of characters.
pub fn extend(out: &mut Vec<char>, more: &[char])
    ensures
        final(out)@ == old(out)@ + more@,
{
    let mut i: usize = 0;
    assert(out@ =~= old(out)@ + more@.take(0));
    while i < more.len()
        invariant
            i <= more.len(),
            out@ == old(out)@ + more@.take(i as int),
        decreases more.len() - i,
    {
        out.push(more[i]);
        assert(out@ =~= old(out)@ + more@.take(i + 1));
        i += 1;
    }
    assert(more@.take(more@.len() as int) =~= more@);
}

pub fn replace(s: &[char], c: char, with: &str) -> (r: Vec<char>)
    ensures
        r@ == s@.replace(c, with@),
{
    let with = chars(with);
    let mut out: Vec<char> = Vec::new();
    let mut i: usize = 0;
    assert(s@.take(0) =~= seq![]);
    while i < s.len()
        invariant
            i <= s.len(),
            out@ == replace_of(s@.take(i as int), c, with@),
        decreases s.len() - i,
    {
        assert(s@.take(i + 1).drop_last() =~= s@.take(i as int));
        assert(s@.take(i + 1).last() == s@[i as int]);
        if s[i] == c {
            extend(&mut out, &with);
        } else {
            out.push(s[i]);
        }
        i += 1;
    }
    assert(s@.take(s@.len() as int) =~= s@);
    out
}

/// The words of a text with one space between each two of them, if there are
/// any.
pub open spec fn folded(s: Seq<char>) -> Option<Seq<char>> {
    join_of(s.words(), " "@).filled()
}

pub fn fold(s: &[char]) -> (r: Option<String>)
    ensures
        r.deep() == folded(s@),
{
    maybe_string(filled(&join(&words(s), " ")))
}

pub fn join(parts: &[&[char]], separator: &str) -> (r: Vec<char>)
    ensures
        r@ == join_of(parts@.deep(), separator@),
{
    let separator = chars(separator);
    let mut out: Vec<char> = Vec::new();
    let mut i: usize = 0;
    let ghost texts = parts@.deep();
    assert(texts.take(0) =~= seq![]);
    while i < parts.len()
        invariant
            i <= parts.len(),
            texts == parts@.deep(),
            out@ == join_of(texts.take(i as int), separator@),
        decreases parts.len() - i,
    {
        assert(texts.take(i + 1).drop_last() =~= texts.take(i as int));
        assert(texts.take(i + 1).last() == parts@[i as int]@);
        if i > 0 {
            extend(&mut out, &separator);
        }
        extend(&mut out, parts[i]);
        assert(i == 0 ==> out@ =~= parts@[0]@);
        i += 1;
    }
    assert(texts.take(texts.len() as int) =~= texts);
    out
}

// ------------------------------------------------------------------- numbers

/// More digits never make a smaller number.
pub proof fn lemma_digits_grow(s: Seq<char>, n: int)
    requires
        0 <= n <= s.len(),
    ensures
        digits_value(s.take(n)) <= digits_value(s),
    decreases s.len() - n,
{
    if n == s.len() {
        assert(s.take(n) =~= s);
    } else {
        lemma_digits_grow(s, n + 1);
        assert(s.take(n + 1).drop_last() =~= s.take(n));
    }
}

pub fn number(s: &[char]) -> (r: Option<u64>)
    ensures
        r == s@.number(),
{
    let digits = if s.len() > 0 && s[0] == '+' {
        tail(s, 1)
    } else {
        s
    };
    if digits.len() == 0 {
        return None;
    }
    let mut value: u64 = 0;
    let mut i: usize = 0;
    assert(digits@.take(0) =~= seq![]);
    while i < digits.len()
        invariant
            i <= digits.len(),
            all_digits(digits@.take(i as int)),
            value == digits_value(digits@.take(i as int)),
            digits@ == (if s@.len() > 0 && s@[0] == '+' {
                s@.skip(1)
            } else {
                s@
            }),
        decreases digits.len() - i,
    {
        let c = digits[i];
        let ghost next = digits@.take(i + 1);
        assert(next.drop_last() =~= digits@.take(i as int));
        if !digit(c) {
            assert(!is_digit(digits@[i as int]));
            return None;
        }
        let d: u64 = c as u64 - '0' as u64;
        assert(digits_value(next) == value * 10 + d);
        proof {
            lemma_digits_grow(digits@, i + 1);
        }
        if value > (u64::MAX - d) / 10 {
            assert(value * 10 + d > u64::MAX);
            return None;
        }
        value = value * 10 + d;
        assert forall|j: int| 0 <= j < next.len() implies is_digit(#[trigger] next[j]) by {
            if j < i {
                assert(digits@.take(i as int)[j] == next[j]);
            }
        }
        i += 1;
    }
    assert(digits@.take(digits@.len() as int) =~= digits@);
    Some(value)
}

/// A number in decimal digits.
pub open spec fn decimal_of(n: nat) -> Seq<char>
    decreases n,
{
    let digit = (('0' as nat + n % 10) as u8) as char;
    if n < 10 {
        seq![digit]
    } else {
        decimal_of(n / 10).push(digit)
    }
}

/// A number in decimal digits.
pub fn decimal(n: usize) -> (r: String)
    ensures
        r@ == decimal_of(n as nat),
{
    string(&decimal_digits(n))
}

fn decimal_digits(n: usize) -> (r: Vec<char>)
    ensures
        r@ == decimal_of(n as nat),
    decreases n,
{
    let digit = (48 + (n % 10) as u8) as char;
    if n < 10 {
        let mut out: Vec<char> = Vec::new();
        out.push(digit);
        assert(out@ =~= seq![digit]);
        out
    } else {
        let mut out = decimal_digits(n / 10);
        out.push(digit);
        out
    }
}

// --------------------------------------------------------------------- bytes

/// How many bytes a character takes in UTF-8.
pub open spec fn char_len(c: char) -> nat {
    if c <= '\u{7f}' {
        1
    } else if c <= '\u{7ff}' {
        2
    } else if c <= '\u{ffff}' {
        3
    } else {
        4
    }
}

/// How many bytes a text takes in UTF-8.
pub open spec fn utf8_len(s: Seq<char>) -> nat
    decreases s.len(),
{
    if s.len() == 0 {
        0
    } else {
        utf8_len(s.drop_last()) + char_len(s.last())
    }
}

proof fn lemma_utf8_grows(s: Seq<char>, n: int)
    requires
        0 <= n <= s.len(),
    ensures
        utf8_len(s.take(n)) <= utf8_len(s),
    decreases s.len() - n,
{
    if n == s.len() {
        assert(s.take(n) =~= s);
    } else {
        lemma_utf8_grows(s, n + 1);
        assert(s.take(n + 1).drop_last() =~= s.take(n));
    }
}

/// Whether a text takes exactly `n` bytes in UTF-8.
pub fn is_utf8_len(s: &[char], n: u32) -> (r: bool)
    ensures
        r == (utf8_len(s@) == n),
{
    let mut bytes: u64 = 0;
    let mut i: usize = 0;
    assert(s@.take(0) =~= seq![]);
    while i < s.len()
        invariant
            i <= s.len(),
            bytes == utf8_len(s@.take(i as int)),
            bytes <= n,
        decreases s.len() - i,
    {
        let c = s[i];
        assert(s@.take(i + 1).drop_last() =~= s@.take(i as int));
        bytes = bytes + if c <= '\u{7f}' {
            1
        } else if c <= '\u{7ff}' {
            2
        } else if c <= '\u{ffff}' {
            3
        } else {
            4
        };
        i += 1;
        if bytes > n as u64 {
            proof {
                lemma_utf8_grows(s@, i as int);
            }
            return false;
        }
    }
    assert(s@.take(s@.len() as int) =~= s@);
    bytes == n as u64
}

// -------------------------------------------------------------------- lemmas

/// What [`find_blank`] finds.
pub proof fn lemma_find_blank(s: Seq<char>, inside: bool)
    ensures
        find_blank(s, inside) <= s.len(),
        forall|i: int| 0 <= i < find_blank(s, inside) ==> is_blank(#[trigger] s[i]) != inside,
        find_blank(s, inside) < s.len() ==> is_blank(s[find_blank(s, inside) as int]) == inside,
    decreases s.len(),
{
    if s.len() > 0 && is_blank(s[0]) != inside {
        lemma_find_blank(s.skip(1), inside);
        assert forall|i: int| 0 <= i < find_blank(s, inside) implies is_blank(#[trigger] s[i])
            != inside by {
            if i > 0 {
                assert(s[i] == s.skip(1)[i - 1]);
            }
        }
    }
}

/// A split leaves at least one piece.
pub proof fn lemma_split_some(s: Seq<char>, set: Seq<char>)
    ensures
        s.split(set).len() > 0,
{
}

/// What [`find_set`] finds.
pub proof fn lemma_find_set(s: Seq<char>, set: Seq<char>, inside: bool)
    ensures
        find_set(s, set, inside) <= s.len(),
        forall|i: int|
            0 <= i < find_set(s, set, inside) ==> set.contains(#[trigger] s[i]) != inside,
        find_set(s, set, inside) < s.len() ==> set.contains(s[find_set(s, set, inside) as int])
            == inside,
    decreases s.len(),
{
    if s.len() > 0 && set.contains(s[0]) != inside {
        lemma_find_set(s.skip(1), set, inside);
        assert forall|i: int| 0 <= i < find_set(s, set, inside) implies set.contains(
            #[trigger] s[i],
        ) != inside by {
            if i > 0 {
                assert(s[i] == s.skip(1)[i - 1]);
            }
        }
    }
}

// ---------------------------------------------------------------------- laws

proof fn lemma_find_set_goes_on(a: Seq<char>, b: Seq<char>, set: Seq<char>)
    requires
        find_set(a, set, true) < a.len(),
    ensures
        find_set(a + b, set, true) == find_set(a, set, true),
    decreases a.len(),
{
    assert((a + b)[0] == a[0]);
    if !set.contains(a[0]) {
        assert((a + b).skip(1) =~= a.skip(1) + b);
        lemma_find_set_goes_on(a.skip(1), b, set);
    }
}

/// The lines of two texts, of which the first ends with a line feed, are the
/// lines of the one and then the lines of the other.
pub proof fn lines_add_up(a: Seq<char>, b: Seq<char>)
    requires
        a.len() == 0 || a.last() == '\n',
    ensures
        (a + b).lines() == a.lines() + b.lines(),
    decreases a.len(),
{
    let feed = seq!['\n'];
    if a.len() == 0 {
        assert(a + b =~= b);
        assert(a.lines() + b.lines() =~= b.lines());
    } else {
        lemma_find_set(a, feed, true);
        let end = find_set(a, feed, true) as int;
        assert(feed[0] == '\n');
        assert(feed.contains(a[a.len() - 1]));
        assert(end < a.len());
        lemma_find_set_goes_on(a, b, feed);
        let rest = a.skip(end + 1);
        assert(rest.len() > 0 ==> rest.last() == a.last());
        lines_add_up(rest, b);
        assert((a + b).take(end) =~= a.take(end));
        assert((a + b).skip(end + 1) =~= rest + b);
        assert((a + b).lines() =~= a.lines() + b.lines());
    }
}

/// What [`find_last`] finds.
pub proof fn lemma_find_last(s: Seq<char>, c: char)
    ensures
        -1 <= find_last(s, c) < s.len(),
        find_last(s, c) >= 0 ==> s[find_last(s, c)] == c,
        forall|i: int| find_last(s, c) < i < s.len() ==> #[trigger] s[i] != c,
    decreases s.len(),
{
    if s.len() > 0 && s.last() != c {
        lemma_find_last(s.drop_last(), c);
        assert forall|i: int| find_last(s, c) < i < s.len() implies #[trigger] s[i] != c by {
            if i < s.len() - 1 {
                assert(s.drop_last()[i] == s[i]);
            }
        }
    }
}

/// What a text is cut into at the last `c` makes up the text again, and the
/// second part has no `c`.
pub proof fn last_cut_is_lossless(s: Seq<char>, c: char)
    ensures
        match s.cut_last(c) {
            Some((head, tail)) => s == head.push(c) + tail && !tail.contains(c),
            None => !s.contains(c),
        },
{
    lemma_find_last(s, c);
    let at = find_last(s, c);
    if at >= 0 {
        assert(s =~= s.take(at).push(c) + s.skip(at + 1));
        let tail = s.skip(at + 1);
        assert forall|i: int| 0 <= i < tail.len() implies #[trigger] tail[i] != c by {
            assert(tail[i] == s[at + 1 + i]);
        }
    }
}

/// A text that was put together around a `c` is cut there again, as long as
/// the second part has none.
pub proof fn last_cut_undoes(head: Seq<char>, c: char, tail: Seq<char>)
    requires
        !tail.contains(c),
    ensures
        (head.push(c) + tail).cut_last(c) == Some((head, tail)),
{
    let s = head.push(c) + tail;
    lemma_find_last(s, c);
    let at = find_last(s, c);
    assert(s[head.len() as int] == c);
    if at > head.len() {
        assert(tail[at - head.len() - 1] == s[at]);
        assert(tail.contains(c));
    }
    assert(at == head.len());
    assert(s.take(at) =~= head);
    assert(s.skip(at + 1) =~= tail);
}

/// The pieces of a split have no separator in them.
pub proof fn pieces_have_no_separator(s: Seq<char>, set: Seq<char>, i: int, j: int)
    requires
        0 <= i < s.split(set).len(),
        0 <= j < s.split(set)[i].len(),
    ensures
        !set.contains(s.split(set)[i][j]),
    decreases s.len(),
{
    lemma_find_set(s, set, true);
    let end = find_set(s, set, true) as int;
    if end < s.len() && i > 0 {
        assert(s.split(set)[i] == s.skip(end + 1).split(set)[i - 1]);
        pieces_have_no_separator(s.skip(end + 1), set, i - 1, j);
    }
}

/// A text that splits into one piece is that piece.
pub proof fn only_piece(s: Seq<char>, set: Seq<char>)
    requires
        s.split(set).len() == 1,
    ensures
        s.split(set)[0] == s,
{
    lemma_find_set(s, set, true);
    let end = find_set(s, set, true) as int;
    if end < s.len() {
        lemma_split_some(s.skip(end + 1), set);
    }
}

proof fn lemma_find_set_beyond(a: Seq<char>, b: Seq<char>, set: Seq<char>)
    requires
        find_set(a, set, true) == a.len(),
    ensures
        find_set(a + b, set, true) == a.len() + find_set(b, set, true),
    decreases a.len(),
{
    if a.len() == 0 {
        assert(a + b =~= b);
    } else {
        lemma_find_set(a, set, true);
        assert((a + b)[0] == a[0]);
        assert((a + b).skip(1) =~= a.skip(1) + b);
        lemma_find_set_beyond(a.skip(1), b, set);
    }
}

/// The pieces of a text that goes on are those of its beginning and those of
/// the rest, where the last of the one and the first of the other are joined.
pub proof fn splits_go_on(a: Seq<char>, b: Seq<char>, set: Seq<char>)
    ensures
        a.split(set).len() > 0,
        b.split(set).len() > 0,
        (a + b).split(set) == a.split(set).drop_last().push(a.split(set).last() + b.split(set)[0])
            + b.split(set).skip(1),
    decreases a.len(),
{
    lemma_find_set(a, set, true);
    lemma_find_set(b, set, true);
    lemma_split_some(a, set);
    lemma_split_some(b, set);
    let end = find_set(a, set, true) as int;
    if end < a.len() {
        let rest = a.skip(end + 1);
        lemma_find_set_goes_on(a, b, set);
        splits_go_on(rest, b, set);
        assert((a + b).take(end) =~= a.take(end));
        assert((a + b).skip(end + 1) =~= rest + b);
        assert(a.split(set).drop_last() =~= seq![a.take(end)] + rest.split(set).drop_last());
        assert((a + b).split(set) =~= a.split(set).drop_last().push(
            a.split(set).last() + b.split(set)[0],
        ) + b.split(set).skip(1));
    } else {
        lemma_find_set_beyond(a, b, set);
        let at = find_set(b, set, true) as int;
        if at < b.len() {
            assert((a + b).take(a.len() + at) =~= a + b.take(at));
            assert((a + b).skip(a.len() + at + 1) =~= b.skip(at + 1));
            assert(b.split(set).skip(1) =~= b.skip(at + 1).split(set));
        } else {
            assert(b.split(set).skip(1) =~= seq![]);
        }
        assert((a + b).split(set) =~= a.split(set).drop_last().push(
            a.split(set).last() + b.split(set)[0],
        ) + b.split(set).skip(1));
    }
}

proof fn lemma_join_first(first: Seq<char>, rest: Seq<Seq<char>>, separator: Seq<char>)
    requires
        rest.len() > 0,
    ensures
        join_of(seq![first] + rest, separator) == first + separator + join_of(rest, separator),
    decreases rest.len(),
{
    let all = seq![first] + rest;
    assert(all.drop_last() =~= seq![first] + rest.drop_last());
    if rest.len() == 1 {
        assert(all.drop_last() =~= seq![first]);
        assert(join_of(seq![first], separator) == first);
    } else {
        lemma_join_first(first, rest.drop_last(), separator);
        assert(first + separator + join_of(rest.drop_last(), separator) + separator + rest.last()
            =~= first + separator + join_of(rest, separator));
    }
}

/// The pieces of a text, put together with the separator between them, make up
/// the text again.
pub proof fn splitting_is_lossless(s: Seq<char>, c: char)
    ensures
        join_of(s.split(seq![c]), seq![c]) == s,
    decreases s.len(),
{
    let set = seq![c];
    lemma_find_set(s, set, true);
    let end = find_set(s, set, true) as int;
    if end < s.len() {
        let rest = s.skip(end + 1);
        splitting_is_lossless(rest, c);
        lemma_split_some(rest, set);
        lemma_join_first(s.take(end), rest.split(set), set);
        assert(s[end] == c);
        assert(s =~= s.take(end) + set + rest);
    }
}

pub proof fn lemma_find_text(s: Seq<char>, pattern: Seq<char>)
    ensures
        -1 <= find_text(s, pattern),
        find_text(s, pattern) >= 0 ==> find_text(s, pattern) + pattern.len() <= s.len(),
    decreases s.len(),
{
    if !begins_with(s, pattern) && s.len() > 0 {
        lemma_find_text(s.skip(1), pattern);
    }
}

/// A text that was put together around a `c` is cut there again, as long as
/// the first part has none.
pub proof fn first_cut_undoes(head: Seq<char>, c: char, tail: Seq<char>)
    requires
        !head.contains(c),
    ensures
        (head + seq![c] + tail).cut(seq![c]) == Some((head, tail)),
    decreases head.len(),
{
    let s = head + seq![c] + tail;
    let pattern = seq![c];
    if head.len() == 0 {
        assert(s.take(1) =~= pattern);
        assert(s.take(0) =~= head);
        assert(s.skip(1) =~= tail);
    } else {
        let rest = head.skip(1);
        assert(s[0] == head[0]);
        assert(head.contains(head[0]));
        assert(s.take(1)[0] != pattern[0]);
        assert(s.skip(1) =~= rest + pattern + tail);
        assert forall|i: int| 0 <= i < rest.len() implies #[trigger] rest[i] != c by {
            assert(head.contains(head[i + 1]));
        }
        first_cut_undoes(rest, c, tail);
        let at = find_text(s.skip(1), pattern);
        assert(at >= 0);
        assert(s.skip(1).take(at) == rest);
        lemma_find_text(s.skip(1), pattern);
        assert(s.take(at + 1) =~= seq![head[0]] + s.skip(1).take(at));
        assert(head =~= seq![head[0]] + rest);
        assert(s.skip(at + 1 + 1) =~= s.skip(1).skip(at + 1));
    }
}

/// A text without `c` is not cut at `c`.
pub proof fn lemma_cut_needs(s: Seq<char>, c: char)
    requires
        !s.contains(c),
    ensures
        s.cut(seq![c]) is None,
    decreases s.len(),
{
    if s.len() > 0 {
        assert(s.contains(s[0]));
        assert(s.take(1)[0] != seq![c][0]);
        assert forall|i: int| 0 <= i < s.skip(1).len() implies #[trigger] s.skip(1)[i] != c by {
            assert(s.contains(s[i + 1]));
        }
        lemma_cut_needs(s.skip(1), c);
    }
}

/// Whether a text is a word: not empty, and without blanks.
pub open spec fn is_word(s: Seq<char>) -> bool {
    s.len() > 0 && forall|i: int| 0 <= i < s.len() ==> !is_blank(#[trigger] s[i])
}

/// What a text splits into at blanks are words, and there are none exactly
/// where it has only blanks.
pub proof fn words_are_words(s: Seq<char>)
    ensures
        forall|i: int| 0 <= i < s.words().len() ==> is_word(#[trigger] s.words()[i]),
        s.words().len() == 0 <==> (forall|i: int| 0 <= i < s.len() ==> is_blank(#[trigger] s[i])),
    decreases s.len(),
{
    lemma_find_blank(s, false);
    let start = find_blank(s, false) as int;
    if start < s.len() {
        let rest = s.skip(start);
        lemma_find_blank(rest, true);
        let end = find_blank(rest, true) as int;
        assert(rest[0] == s[start]);
        let first = rest.take(end);
        assert(is_word(first)) by {
            assert forall|i: int| 0 <= i < first.len() implies !is_blank(#[trigger] first[i]) by {
                assert(first[i] == rest[i]);
            }
        }
        words_are_words(rest.skip(end));
        assert(s.words() == seq![first] + rest.skip(end).words());
        assert forall|i: int| 0 <= i < s.words().len() implies is_word(#[trigger] s.words()[i]) by {
            if i > 0 {
                assert(s.words()[i] == rest.skip(end).words()[i - 1]);
            }
        }
    }
}

/// A word up to the blank behind it, or to the end.
pub proof fn lemma_blank_behind(word: Seq<char>, rest: Seq<char>)
    requires
        forall|i: int| 0 <= i < word.len() ==> !is_blank(#[trigger] word[i]),
        rest.len() == 0 || is_blank(rest[0]),
    ensures
        find_blank(word + rest, true) == word.len(),
    decreases word.len(),
{
    if word.len() == 0 {
        assert(word + rest =~= rest);
    } else {
        assert(!is_blank(word[0]));
        assert((word + rest)[0] == word[0]);
        assert((word + rest).skip(1) =~= word.skip(1) + rest);
        assert forall|i: int| 0 <= i < word.skip(1).len() implies !is_blank(
            #[trigger] word.skip(1)[i],
        ) by {
            assert(word.skip(1)[i] == word[i + 1]);
        }
        lemma_blank_behind(word.skip(1), rest);
    }
}

/// Words with one space between each two of them are split into the same
/// words again.
pub proof fn joined_words_split_again(words: Seq<Seq<char>>)
    requires
        forall|i: int| 0 <= i < words.len() ==> is_word(#[trigger] words[i]),
    ensures
        join_of(words, " "@).words() == words,
        join_of(words, " "@).len() == 0 <==> words.len() == 0,
        ({
            let joined = join_of(words, " "@);
            &&& joined.len() > 0 ==> !is_blank(joined[0]) && !is_blank(joined.last())
            &&& forall|i: int|
                0 <= i < joined.len() && is_blank(#[trigger] joined[i]) ==> joined[i] == ' '
                    && !is_blank(joined[i + 1])
        }),
    decreases words.len(),
{
    reveal_strlit(" ");
    let space = " "@;
    assert(space =~= seq![' ']);
    let joined = join_of(words, space);
    if words.len() == 0 {
        assert(find_blank(joined, false) == 0);
        assert(joined.words() =~= words);
    } else {
        let word = words[0];
        assert(is_word(word));
        assert(!is_blank(word[0]));
        let rest = words.skip(1);
        assert forall|i: int| 0 <= i < rest.len() implies is_word(#[trigger] rest[i]) by {
            assert(rest[i] == words[i + 1]);
        }
        joined_words_split_again(rest);
        let more = join_of(rest, space);
        let tail = if rest.len() == 0 {
            seq![]
        } else {
            space + more
        };
        assert(words =~= seq![word] + rest);
        if rest.len() == 0 {
            assert(joined =~= word + tail);
            assert(tail.words() =~= rest) by {
                assert(find_blank(tail, false) == 0);
            }
        } else {
            lemma_join_first(word, rest, space);
            assert(joined =~= word + tail);
            assert(tail[0] == ' ' && is_blank(' '));
            assert(tail.skip(1) =~= more);
            lemma_find_blank(more, false);
            let start = find_blank(more, false) as int;
            assert(find_blank(tail, false) == 1 + start);
            assert(tail.skip(1 + start) =~= more.skip(start));
            assert(tail.words() =~= more.words());
        }
        lemma_blank_behind(word, tail);
        assert(joined[0] == word[0]);
        assert(find_blank(joined, false) == 0);
        assert(joined.skip(0) =~= joined);
        assert(joined.take(word.len() as int) =~= word);
        assert(joined.skip(word.len() as int) =~= tail);
        assert(joined.words() =~= seq![word] + tail.words());
        let n = word.len() as int;
        assert forall|i: int| 0 <= i < joined.len() && is_blank(#[trigger] joined[i]) implies
            joined[i] == ' ' && !is_blank(joined[i + 1]) by {
            if i < n {
                assert(joined[i] == word[i]);
            } else if i == n {
                assert(joined[n + 1] == more[0]);
            } else {
                assert(joined[i] == more[i - n - 1]);
                assert(is_blank(more[i - n - 1]));
                assert(joined[i + 1] == more[i - n]);
            }
        }
        if rest.len() == 0 {
            assert(joined.last() == word[n - 1]);
        } else {
            assert(joined.last() == more.last());
        }
    }
}

/// Folding keeps the words of a text, in their order, and a folded text is
/// folded already: it neither begins nor ends with a blank, and its blanks are
/// single spaces. Nothing is left exactly where there is no word.
pub proof fn folding_keeps_the_words(s: Seq<char>)
    ensures
        match folded(s) {
            Some(t) => {
                &&& t.words() == s.words()
                &&& folded(t) == Some(t)
                &&& t.len() > 0 && !is_blank(t[0]) && !is_blank(t.last())
                &&& forall|i: int|
                    0 <= i < t.len() && is_blank(#[trigger] t[i]) ==> t[i] == ' ' && !is_blank(
                        t[i + 1],
                    )
            },
            None => true,
        },
        folded(s) is None <==> s.words().len() == 0,
        folded(s) is None <==> (forall|i: int| 0 <= i < s.len() ==> is_blank(#[trigger] s[i])),
{
    words_are_words(s);
    joined_words_split_again(s.words());
}

} // verus!
