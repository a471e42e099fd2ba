//! Texts that are put together from known parts, and what reading them gives.
//!
//! A table is made of rows, a description of fields. What is said here of such
//! texts is what the laws about the backends are made of.

use vstd::prelude::*;

use crate::rows;
use crate::text::{self, Text};

verus! {

/// Whether a text stays one line when a line feed follows it.
pub open spec fn is_line(s: Seq<char>) -> bool {
    !s.contains('\n') && (s.len() == 0 || s.last() != '\r')
}

/// Whether a text can stand in a line as it is: not empty, with no blank at
/// either end.
pub open spec fn is_phrase(s: Seq<char>) -> bool {
    s.len() > 0 && !s.contains('\n') && !text::is_blank(s[0]) && !text::is_blank(s.last())
}

/// Words with one space between each two of them.
pub open spec fn spaced(words: Seq<Seq<char>>) -> Seq<char> {
    text::join_of(words, " "@)
}

/// A field of a description, `key: value`.
pub open spec fn field(key: Seq<char>, value: Seq<char>) -> Seq<char> {
    key + ": "@ + value
}

/// A line before everything that is printed after it.
pub open spec fn above(line: Seq<char>, more: Seq<char>) -> Seq<char> {
    line + "\n"@ + more
}

/// A line at the top of an output is its first line.
pub proof fn a_line_is_a_line(line: Seq<char>, more: Seq<char>)
    requires
        is_line(line),
    ensures
        above(line, more).lines() == seq![line] + more.lines(),
{
    reveal_strlit("\n");
    let feed = "\n"@;
    assert(feed =~= seq!['\n']);
    let top = line + feed;
    assert(top.last() == '\n');
    text::lines_add_up(top, more);
    let set = seq!['\n'];
    text::lemma_find_set(top, set, true);
    let end = text::find_set(top, set, true) as int;
    assert(set[0] == '\n');
    assert(set.contains(top[line.len() as int]));
    if end < line.len() {
        assert(top[end] == line[end]);
        assert(line.contains('\n'));
    }
    assert(end == line.len());
    assert(top.take(end) =~= line);
    assert(top.skip(end + 1) =~= seq![]);
    assert(text::lines_of(seq![]) =~= seq![]);
    assert(top.lines() =~= seq![line]);
}

/// What is read from a line comes before what is read from the lines below.
pub proof fn a_row_is_read<B>(
    line: Seq<char>,
    more: Seq<char>,
    f: spec_fn(Seq<char>) -> Option<B>,
)
    requires
        is_line(line),
    ensures
        rows::select(above(line, more).lines(), f) == match f(line) {
            Some(b) => seq![b] + rows::select(more.lines(), f),
            None => rows::select(more.lines(), f),
        },
{
    a_line_is_a_line(line, more);
    rows::lemma_select_adds_up(seq![line], more.lines(), f);
    assert(seq![line].drop_last() =~= seq![]);
    assert(seq![line].last() == line);
    reveal_with_fuel(rows::select, 2);
    match f(line) {
        Some(b) => {
            assert(rows::select(seq![line], f) =~= seq![b]);
        },
        None => {
            assert(rows::select(seq![line], f) =~= seq![]);
            assert(rows::select(seq![line], f) + rows::select(more.lines(), f) =~= rows::select(
                more.lines(),
                f,
            ));
        },
    }
}

/// A scan goes on behind a line from what the line has made of it.
pub proof fn a_line_is_scanned<S>(
    start: S,
    line: Seq<char>,
    more: Seq<char>,
    f: spec_fn(S, Seq<char>) -> S,
)
    requires
        is_line(line),
    ensures
        rows::scan(start, above(line, more).lines(), f) == rows::scan(
            f(start, line),
            more.lines(),
            f,
        ),
{
    a_line_is_a_line(line, more);
    rows::lemma_scan_goes_on(start, seq![line], more.lines(), f);
    assert(seq![line].drop_last() =~= seq![]);
    assert(seq![line].last() == line);
    reveal_with_fuel(rows::scan, 2);
    assert(rows::scan(start, seq![line], f) == f(start, line));
}

/// A line that nothing follows is the only line.
pub proof fn a_line_stands_alone(line: Seq<char>)
    requires
        is_line(line),
        line.len() > 0,
    ensures
        line.lines() == seq![line],
{
    let set = seq!['\n'];
    text::lemma_find_set(line, set, true);
    let end = text::find_set(line, set, true) as int;
    if end < line.len() {
        assert(set.contains(line[end]));
        assert(line.contains(line[end]));
    }
}

/// What is read from a line that nothing follows is all that is read.
pub proof fn a_row_is_read_alone<B>(line: Seq<char>, f: spec_fn(Seq<char>) -> Option<B>)
    requires
        is_line(line),
        line.len() > 0,
    ensures
        rows::select(line.lines(), f) == match f(line) {
            Some(b) => seq![b],
            None => seq![],
        },
{
    a_line_stands_alone(line);
    assert(seq![line].drop_last() =~= seq![]);
    assert(seq![line].last() == line);
    reveal_with_fuel(rows::select, 2);
    match f(line) {
        Some(b) => {
            assert(rows::select(seq![line], f) =~= seq![b]);
        },
        None => {
            assert(rows::select(seq![line], f) =~= seq![]);
        },
    }
}

/// Nothing is read from nothing.
pub proof fn nothing_is_read()
    ensures
        ""@.lines() == Seq::<Seq<char>>::empty(),
        ""@.len() == 0,
{
    reveal_strlit("");
    assert(""@ =~= seq![]);
    assert(text::lines_of(seq![]) =~= seq![]);
}

/// A text without blanks at its ends is not trimmed.
pub proof fn a_phrase_is_trimmed(s: Seq<char>)
    requires
        s.len() > 0,
        !text::is_blank(s[0]),
        !text::is_blank(s.last()),
    ensures
        s.trim() == s,
        s.trim_start() == s,
        s.trim_end() == s,
        !s.begins_blank(),
{
    assert(text::find_blank(s, false) == 0);
    assert(s.skip(0) =~= s);
}

/// One space before a text is trimmed away.
pub proof fn a_space_is_trimmed(s: Seq<char>)
    requires
        s.len() > 0,
        !text::is_blank(s[0]),
        !text::is_blank(s.last()),
    ensures
        (" "@ + s).trim() == s,
        (" "@ + s).begins_blank(),
{
    reveal_strlit(" ");
    let padded = " "@ + s;
    assert(padded[0] == ' ');
    assert(padded.skip(1) =~= s);
    assert(text::find_blank(s, false) == 0);
    assert(text::find_blank(padded, false) == 1);
    assert(padded.skip(1).last() == s.last());
    assert(padded.begins_blank());
}

/// Blanks before a text are trimmed away.
pub proof fn an_indent_is_trimmed(indent: Seq<char>, s: Seq<char>)
    requires
        indent.len() > 0,
        forall|i: int| 0 <= i < indent.len() ==> #[trigger] indent[i] == ' ',
        is_phrase(s),
    ensures
        (indent + s).trim() == s,
        (indent + s).trim_start() == s,
        (indent + s).begins_blank(),
        is_line(indent + s),
{
    let padded = indent + s;
    text::lemma_find_blank(padded, false);
    let at = text::find_blank(padded, false) as int;
    if at < indent.len() {
        assert(padded[at] == indent[at]);
    }
    if at > indent.len() {
        assert(padded[indent.len() as int] == s[0]);
    }
    assert(at == indent.len());
    assert(padded.skip(at) =~= s);
    a_phrase_is_trimmed(s);
    assert(padded.last() == s.last());
    assert(text::is_blank('\r'));
    assert(padded[0] == indent[0]);
    assert forall|i: int| 0 <= i < padded.len() implies #[trigger] padded[i] != '\n' by {
        if i >= indent.len() {
            assert(padded[i] == s[i - indent.len()] && s.contains(s[i - indent.len()]));
        }
    }
}

/// A phrase is a line.
pub proof fn a_phrase_is_a_line(s: Seq<char>)
    requires
        is_phrase(s),
    ensures
        is_line(s),
        s.trim() == s,
        !s.begins_blank(),
{
    a_phrase_is_trimmed(s);
    assert(text::is_blank('\r'));
}

/// A word is a phrase, and the only word of its line.
pub proof fn a_word_is_a_phrase(s: Seq<char>)
    requires
        text::is_word(s),
    ensures
        is_phrase(s),
        is_line(s),
        s.trim() == s,
        !s.begins_blank(),
        !s.has_blank(),
        s.words() == seq![s],
        s.len() > 0,
{
    assert(!text::is_blank(s[0]));
    assert(!text::is_blank(s[s.len() - 1]));
    assert(text::is_blank('\n'));
    if s.contains('\n') {
        let i = choose|i: int| 0 <= i < s.len() && s[i] == '\n';
        assert(text::is_blank(s[i]));
    }
    a_phrase_is_a_line(s);
    spaced_words(seq![s]);
    assert(spaced(seq![s]) == s);
    text::lemma_find_blank(s, true);
}

/// What a row of words is: a line, without blanks at its ends, with those
/// words.
pub proof fn spaced_words(words: Seq<Seq<char>>)
    requires
        forall|i: int| 0 <= i < words.len() ==> text::is_word(#[trigger] words[i]),
    ensures
        spaced(words).words() == words,
        is_line(spaced(words)),
        words.len() > 0 ==> is_phrase(spaced(words)) && spaced(words).trim() == spaced(words)
            && !spaced(words).begins_blank(),
{
    text::joined_words_split_again(words);
    let s = spaced(words);
    assert(text::is_blank('\n') && text::is_blank('\r'));
    if s.contains('\n') {
        let i = choose|i: int| 0 <= i < s.len() && s[i] == '\n';
        assert(text::is_blank(s[i]));
        assert(s[i] == ' ');
    }
    if words.len() > 0 {
        a_phrase_is_trimmed(s);
    }
}

/// Two words in a row.
pub proof fn spaced_two(a: Seq<char>, b: Seq<char>)
    ensures
        spaced(seq![a, b]) == a + " "@ + b,
{
    reveal_with_fuel(text::join_of, 3);
    assert(seq![a, b].drop_last() =~= seq![a]);
}

/// Three words in a row.
pub proof fn spaced_three(a: Seq<char>, b: Seq<char>, c: Seq<char>)
    ensures
        spaced(seq![a, b, c]) == a + " "@ + b + " "@ + c,
{
    spaced_two(a, b);
    assert(seq![a, b, c].drop_last() =~= seq![a, b]);
}

/// Four words in a row.
pub proof fn spaced_four(a: Seq<char>, b: Seq<char>, c: Seq<char>, d: Seq<char>)
    ensures
        spaced(seq![a, b, c, d]) == a + " "@ + b + " "@ + c + " "@ + d,
{
    spaced_three(a, b, c);
    assert(seq![a, b, c, d].drop_last() =~= seq![a, b, c]);
}

/// A step from one version to another, in a row behind a name.
pub proof fn spaced_arrow(name: Seq<char>, from: Seq<char>, to: Seq<char>)
    requires
        text::is_word(name),
        text::is_word(from),
        text::is_word(to),
    ensures
        name + " "@ + from + " -> "@ + to == spaced(seq![name, from, "->"@, to]),
        text::is_word("->"@),
{
    reveal_strlit(" ");
    reveal_strlit("->");
    reveal_strlit(" -> ");
    spaced_four(name, from, "->"@, to);
    let head = name + " "@ + from;
    assert(" -> "@ =~= " "@ + "->"@ + " "@);
    assert(head + (" "@ + "->"@ + " "@) + to =~= head + " "@ + "->"@ + " "@ + to);
}

/// A word, a space and the rest of a line: the words of the rest follow.
pub proof fn a_word_comes_first(word: Seq<char>, rest: Seq<char>)
    requires
        text::is_word(word),
    ensures
        (word + " "@ + rest).words() == seq![word] + rest.words(),
        !(word + " "@ + rest).begins_blank(),
{
    reveal_strlit(" ");
    let space = " "@;
    assert(space =~= seq![' ']);
    let tail = space + rest;
    let all = word + space + rest;
    assert(all =~= word + tail);
    assert(tail[0] == ' ' && text::is_blank(' '));
    text::lemma_blank_behind(word, tail);
    assert(!text::is_blank(word[0]));
    assert(all[0] == word[0]);
    assert(text::find_blank(all, false) == 0);
    assert(all.skip(0) =~= all);
    assert(all.take(word.len() as int) =~= word);
    assert(all.skip(word.len() as int) =~= tail);
    assert(tail.skip(1) =~= rest);
    text::lemma_find_blank(rest, false);
    let start = text::find_blank(rest, false) as int;
    assert(text::find_blank(tail, false) == 1 + start);
    assert(tail.skip(1 + start) =~= rest.skip(start));
    assert(tail.words() =~= rest.words());
    assert(all.words() =~= seq![word] + tail.words());
}

/// A text is cut where its first separator stands.
pub proof fn a_cut_is_found(head: Seq<char>, pattern: Seq<char>, tail: Seq<char>)
    requires
        pattern.len() > 0,
        !head.contains(pattern[0]),
    ensures
        (head + pattern + tail).cut(pattern) == Some((head, tail)),
        (head + pattern + tail).has(pattern),
    decreases head.len(),
{
    let s = head + pattern + tail;
    if head.len() == 0 {
        assert(s.take(pattern.len() as int) =~= pattern);
        assert(s.take(0) =~= head);
        assert(s.skip(pattern.len() as int) =~= tail);
    } else {
        let rest = head.skip(1);
        assert(s[0] == head[0]);
        assert(head.contains(head[0]));
        if text::begins_with(s, pattern) {
            assert(s.take(pattern.len() as int)[0] == s[0]);
        }
        assert(s.skip(1) =~= rest + pattern + tail);
        assert forall|i: int| 0 <= i < rest.len() implies #[trigger] rest[i] != pattern[0] by {
            assert(head.contains(head[i + 1]));
        }
        a_cut_is_found(rest, pattern, tail);
        let at = text::find_text(s.skip(1), pattern);
        assert(at >= 0);
        assert(s.skip(1).take(at) == rest);
        text::lemma_find_text(s.skip(1), pattern);
        assert(s.take(at + 1) =~= seq![head[0]] + s.skip(1).take(at));
        assert(head =~= seq![head[0]] + rest);
        assert(s.skip(at + 1 + pattern.len()) =~= s.skip(1).skip(at + pattern.len()));
    }
}

/// A text without the first character of a separator is not cut.
pub proof fn no_cut_is_found(s: Seq<char>, pattern: Seq<char>)
    requires
        pattern.len() > 0,
        !s.contains(pattern[0]),
    ensures
        s.cut(pattern) is None,
        !s.has(pattern),
        !s.begins(pattern),
    decreases s.len(),
{
    if text::begins_with(s, pattern) {
        assert(s.take(pattern.len() as int)[0] == s[0]);
        assert(s.contains(s[0]));
    }
    if s.len() > 0 {
        let rest = s.skip(1);
        assert forall|i: int| 0 <= i < rest.len() implies #[trigger] rest[i] != pattern[0] by {
            assert(s.contains(s[i + 1]));
        }
        no_cut_is_found(rest, pattern);
    }
}

/// A text is split where its first separator stands.
pub proof fn a_piece_is_split_off(head: Seq<char>, set: Seq<char>, tail: Seq<char>)
    requires
        set.len() == 1,
        !head.contains(set[0]),
    ensures
        (head + set + tail).split(set) == seq![head] + tail.split(set),
        head.split(set) == seq![head],
{
    let s = head + set + tail;
    let n = head.len() as int;
    text::lemma_find_set(s, set, true);
    text::lemma_find_set(head, set, true);
    let end = text::find_set(s, set, true) as int;
    assert(s[n] == set[0]);
    assert(set.contains(set[0]));
    if end < n {
        assert(s[end] == head[end]);
        assert(head.contains(head[end]));
        assert(set.contains(head[end]));
    }
    assert(end == n);
    assert(s.take(n) =~= head);
    assert(s.skip(n + 1) =~= tail);
    let at = text::find_set(head, set, true) as int;
    if at < n {
        assert(head.contains(head[at]));
    }
    assert(at == n);
}

/// A text has at least one piece.
pub proof fn there_is_a_piece(s: Seq<char>, set: Seq<char>)
    ensures
        s.split(set).len() > 0,
{
}

/// A text is split where its last separator stands.
pub proof fn pieces_are_split_off(head: Seq<char>, set: Seq<char>, tail: Seq<char>)
    requires
        set.len() == 1,
        !tail.contains(set[0]),
    ensures
        (head + set + tail).split(set) == head.split(set) + seq![tail],
    decreases head.len(),
{
    a_piece_is_split_off(tail, set, seq![]);
    text::lemma_find_set(head, set, true);
    let end = text::find_set(head, set, true) as int;
    if end >= head.len() {
        if head.contains(set[0]) {
            let i = choose|i: int| 0 <= i < head.len() && head[i] == set[0];
            assert(set.contains(head[i]));
        }
        a_piece_is_split_off(head, set, tail);
    } else {
        let first = head.take(end);
        let rest = head.skip(end + 1);
        assert(set.contains(head[end]));
        assert(head[end] == set[0]);
        assert(set =~= seq![set[0]]);
        assert(head =~= first + set + rest);
        if first.contains(set[0]) {
            let i = choose|i: int| 0 <= i < first.len() && first[i] == set[0];
            assert(head[i] == set[0]);
            assert(set.contains(head[i]));
        }
        a_piece_is_split_off(first, set, rest);
        a_piece_is_split_off(first, set, rest + set + tail);
        assert(head + set + tail =~= first + set + (rest + set + tail));
        pieces_are_split_off(rest, set, tail);
        assert(seq![first] + (rest.split(set) + seq![tail]) =~= (seq![first] + rest.split(set))
            + seq![tail]);
    }
}

/// What a field is: a line, without blanks at its ends, that is cut into its
/// key and its value.
pub proof fn a_field_is_cut(key: Seq<char>, value: Seq<char>)
    requires
        is_phrase(key),
        !key.contains(':'),
        is_phrase(value),
    ensures
        is_line(field(key, value)),
        is_phrase(field(key, value)),
        field(key, value).trim() == field(key, value),
        !field(key, value).begins_blank(),
        field(key, value).len() > 0,
        field(key, value).cut(":"@) == Some((key, " "@ + value)),
        key.trim() == key,
        (" "@ + value).trim() == value,
        value.trim() == value,
{
    reveal_strlit(": ");
    reveal_strlit(":");
    reveal_strlit(" ");
    let s = field(key, value);
    assert(":"@ =~= seq![':']);
    assert(s =~= key + ":"@ + (" "@ + value));
    a_cut_is_found(key, ":"@, " "@ + value);
    a_space_is_trimmed(value);
    a_phrase_is_trimmed(key);
    a_phrase_is_trimmed(value);
    assert(s[0] == key[0]);
    assert(s.last() == value.last());
    assert forall|i: int| 0 <= i < s.len() implies #[trigger] s[i] != '\n' by {
        if i < key.len() {
            assert(s[i] == key[i]);
            assert(key.contains(key[i]));
        } else if i >= key.len() + 2 {
            assert(s[i] == value[i - key.len() - 2]);
            assert(value.contains(value[i - key.len() - 2]));
        }
    }
    a_phrase_is_a_line(s);
}

/// What stands behind a beginning.
pub proof fn a_prefix_is_found(prefix: Seq<char>, rest: Seq<char>)
    ensures
        (prefix + rest).without_prefix(prefix) == Some(rest),
        (prefix + rest).begins(prefix),
{
    let s = prefix + rest;
    assert(s.take(prefix.len() as int) =~= prefix);
    assert(s.skip(prefix.len() as int) =~= rest);
}

/// A closing bracket is trimmed from the end, and nothing else is.
pub proof fn a_bracket_is_trimmed(s: Seq<char>, bracket: Seq<char>)
    requires
        bracket.len() == 1,
        s.len() > 0,
        s.last() != bracket[0],
    ensures
        (s + bracket).trim_back(bracket) == s,
        s.trim_back(bracket) == s,
{
    assert((s + bracket).drop_last() =~= s);
    assert((s + bracket).last() == bracket[0]);
    assert(bracket.contains(bracket[0]));
    reveal_with_fuel(text::trim_back_of, 3);
}

/// What stands before an end.
pub proof fn a_suffix_is_found(rest: Seq<char>, suffix: Seq<char>)
    ensures
        (rest + suffix).without_suffix(suffix) == Some(rest),
        (rest + suffix).ends(suffix),
{
    let s = rest + suffix;
    assert(s.skip(s.len() - suffix.len()) =~= suffix);
    assert(s.take(s.len() - suffix.len()) =~= rest);
}

} // verus!
