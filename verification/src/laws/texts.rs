//! What the parts of a text are.

use vstd::prelude::*;

use crate::data::{self, DataView};
use crate::form;
use crate::path;
use crate::text::{self, Text};

verus! {

/// What is cut apart is the text around the separator, and the separator does
/// not begin earlier.
pub proof fn cuts_are_lossless(s: Seq<char>, pattern: Seq<char>)
    requires
        pattern.len() > 0,
    ensures
        s.cut(pattern) matches Some((head, tail)) ==> s == head + pattern + tail && forall|i: int|
            0 <= i < head.len() ==> !(#[trigger] s.skip(i)).begins(pattern),
        s.cut(pattern) is None ==> forall|i: int|
            0 <= i <= s.len() ==> !(#[trigger] s.skip(i)).begins(pattern),
        s.has(pattern) <==> s.cut(pattern) is Some,
    decreases s.len(),
{
    text::lemma_find_text(s, pattern);
    let at = text::find_text(s, pattern);
    assert(s.skip(0) =~= s);
    if text::begins_with(s, pattern) {
        assert(s.take(pattern.len() as int) =~= pattern);
        assert(s =~= seq![] + pattern + s.skip(pattern.len() as int));
        assert(s.take(0) =~= seq![]);
    } else if s.len() > 0 {
        let rest = s.skip(1);
        cuts_are_lossless(rest, pattern);
        assert forall|i: int| 1 <= i <= s.len() implies #[trigger] s.skip(i) == rest.skip(i - 1) by {
            assert(s.skip(i) =~= rest.skip(i - 1));
        }
        match rest.cut(pattern) {
            Some((head, tail)) => {
                let first = seq![s[0]] + head;
                assert(s.take(at) =~= first);
                assert(s.skip(at + pattern.len()) =~= tail);
                assert(s =~= seq![s[0]] + rest);
                assert(s =~= first + pattern + tail);
            },
            None => {},
        }
    }
}

/// A text is trimmed of blanks at its ends and of nothing else.
pub proof fn trims_take_blanks(s: Seq<char>)
    ensures
        s.trim().len() > 0 ==> !text::is_blank(s.trim()[0]) && !text::is_blank(s.trim().last()),
        s.trim().len() == 0 <==> (
            forall|i: int| 0 <= i < s.len() ==> text::is_blank(#[trigger] s[i])
        ),
        s.trim_start().len() > 0 ==> !text::is_blank(s.trim_start()[0]),
        s.trim_end().len() > 0 ==> !text::is_blank(s.trim_end().last()),
        s.trim() == s.trim_start().trim_end(),
{
    text::lemma_find_blank(s, false);
    let start = text::find_blank(s, false) as int;
    let rest = s.skip(start);
    lemma_trimmed_end(rest);
    lemma_trimmed_end(s);
    if rest.len() > 0 {
        assert(rest[0] == s[start]);
        assert(rest.trim_end().len() > 0);
        assert(rest.trim_end()[0] == rest[0]);
    }
}

proof fn lemma_trimmed_end(s: Seq<char>)
    ensures
        s.trim_end().len() <= s.len(),
        s.trim_end() == s.take(s.trim_end().len() as int),
        s.trim_end().len() > 0 ==> !text::is_blank(s.trim_end().last()),
        s.len() > 0 && !text::is_blank(s[0]) ==> s.trim_end().len() > 0,
    decreases s.len(),
{
    if s.len() > 0 && text::is_blank(s.last()) {
        let front = s.drop_last();
        lemma_trimmed_end(front);
        assert(front.take(s.trim_end().len() as int) =~= s.take(s.trim_end().len() as int));
        if s.len() == 1 {
            assert(s[0] == s.last());
        }
    } else {
        assert(s.take(s.len() as int) =~= s);
    }
}

/// Letters are put in lower case one by one, and other characters stay.
pub proof fn lower_case_is_by_character(s: Seq<char>, i: int)
    requires
        0 <= i < s.len(),
    ensures
        s.lower().len() == s.len(),
        !('A' <= s[i] <= 'Z') ==> s.lower()[i] == s[i],
        'A' <= s[i] <= 'Z'
            ==> 'a' <= s.lower()[i] <= 'z' && s.lower()[i] as int == s[i] as int + 32,
        s.lower().lower() == s.lower(),
{
    assert(s.lower().lower() =~= s.lower());
}

/// A number is what its digits write, after at most one plus sign.
pub proof fn numbers_are_read(digits: Seq<char>)
    requires
        digits.len() > 0 && text::all_digits(digits),
    ensures
        text::digits_value(digits) <= u64::MAX ==> (digits.number() matches Some(n) && n
            == text::digits_value(digits)) && ("+"@ + digits).number() == digits.number(),
        text::digits_value(digits) > u64::MAX ==> digits.number() is None,
        ("-"@ + digits).number() is None,
        Seq::<char>::empty().number() is None,
{
    reveal_strlit("+");
    reveal_strlit("-");
    assert(text::is_digit(digits[0]));
    assert(("+"@ + digits).skip(1) =~= digits);
    let minus = "-"@ + digits;
    assert(minus[0] == '-');
    assert(!text::is_digit(minus[0]));
}

/// One more digit behind a number makes it ten times as large, and adds the
/// digit.
pub proof fn digits_have_places(digits: Seq<char>, digit: char)
    requires
        text::is_digit(digit),
    ensures
        text::digits_value(digits.push(digit)) == text::digits_value(digits) * 10 + (digit as nat
            - '0' as nat),
        text::digits_value(seq![]) == 0,
{
    assert(digits.push(digit).drop_last() =~= digits);
}

/// Whether a text has any of some characters, or only those.
pub proof fn characters_are_looked_for(s: Seq<char>, set: Seq<char>)
    ensures
        s.has_any(set) <==> exists|i: int| 0 <= i < s.len() && set.contains(#[trigger] s[i]),
        s.only(set) <==> forall|i: int| 0 <= i < s.len() ==> set.contains(#[trigger] s[i]),
        s.has_blank() <==> exists|i: int| 0 <= i < s.len() && text::is_blank(#[trigger] s[i]),
{
    text::lemma_find_set(s, set, true);
    text::lemma_find_set(s, set, false);
    text::lemma_find_blank(s, true);
    if s.has_any(set) {
        assert(set.contains(s[text::find_set(s, set, true) as int]));
    }
    if s.has_blank() {
        assert(text::is_blank(s[text::find_blank(s, true) as int]));
    }
    if !s.only(set) {
        assert(!set.contains(s[text::find_set(s, set, false) as int]));
    }
}

/// A name in a directory.
pub proof fn names_stand_in_directories(dir: Seq<char>, name: Seq<char>)
    requires
        dir.len() > 0 && dir.last() != '/',
        name.len() > 0 && name[0] != '/',
    ensures
        path::join_spec(dir, name) == dir + "/"@ + name,
        path::join_spec(dir + "/"@, name) == dir + "/"@ + name,
        path::join_spec(seq![], name) == name,
        path::join_spec(dir, "/"@ + name) == "/"@ + name,
{
    reveal_strlit("/");
    if name.begins("/"@) {
        assert(name.take(1)[0] == '/');
    }
    if dir.ends("/"@) {
        assert(dir.skip(dir.len() - 1)[0] == dir.last());
    }
    form::a_suffix_is_found(dir, "/"@);
    form::a_prefix_is_found("/"@, name);
    assert(seq![] + name =~= name);
}

/// The last two parts of a path are the name of the file and that of its
/// directory.
pub proof fn paths_end_in_names(head: Seq<char>, dir: Seq<char>, name: Seq<char>)
    requires
        dir.len() > 0 && !dir.contains('/') && dir != "."@ && dir != ".."@,
        name.len() > 0 && !name.contains('/') && name != "."@ && name != ".."@,
    ensures
        path::file_name_spec(head + "/"@ + dir + "/"@ + name) == Some(name),
        path::parent_name_spec(head + "/"@ + dir + "/"@ + name) == Some(dir),
        path::file_name_spec(name) == Some(name),
{
    reveal_strlit("/");
    let slash = "/"@;
    let outer = head + slash + dir;
    let all = outer + slash + name;
    form::pieces_are_split_off(head, slash, dir);
    form::pieces_are_split_off(outer, slash, name);
    form::a_piece_is_split_off(name, slash, seq![]);
    let before = head.split(slash);
    let pieces = all.split(slash);
    assert(pieces =~= before + seq![dir, name]);
    let n = before.len() as int;
    assert(pieces[n] == dir && pieces[n + 1] == name);
    assert(path::kept(pieces, n + 2) == path::kept(pieces, n + 1).push(name));
    assert(path::kept(pieces, n + 1) == path::kept(pieces, n).push(dir));
    reveal_with_fuel(path::kept, 2);
    let one = seq![name];
    assert(path::kept(one, 1) =~= seq![name]);
    assert(path::kept(one, 1).last() == name);
}

/// The first entry with the key holds the value; where there is none, nothing is
/// found.
pub proof fn entries_are_looked_up(
    entries: Seq<(Seq<char>, DataView)>,
    key: Seq<char>,
    value: DataView,
)
    ensures
        DataView::Table(seq![(key, value)] + entries).find(key) == Some(value),
        DataView::Table(seq![(key, value)] + entries).get(key) == value,
        forall|other: Seq<char>|
            other != key ==> #[trigger] DataView::Table(seq![(key, value)] + entries).find(other)
                == DataView::Table(entries).find(other),
        DataView::Table(seq![]).find(key) is None,
        DataView::Table(seq![]).get(key) == DataView::Other,
        DataView::Other.text() is None && DataView::Other.items() is None,
{
    let all = seq![(key, value)] + entries;
    assert(all.skip(1) =~= entries);
    assert(all[0] == (key, value));
}

} // verus!
