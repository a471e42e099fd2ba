//! What `am` says.

use vstd::prelude::*;

use crate::backends::appimage;
use crate::command::CmdView;
use crate::form;
use crate::package::{InstallState, PackageView};
use crate::path;
use crate::rows;
use crate::session::{self, ReplyView, StepView};
use crate::text::Text;

verus! {

/// A row `◆ name | version | ...` is an installed application; where the table
/// names its database, the version stands behind it.
pub proof fn file_rows_are_read(line: Seq<char>, row: Seq<char>, fields: Seq<Seq<char>>)
    requires
        line.trim() == "\u{25c6}"@ + row,
        row.split("|"@) == fields,
        fields[0].trim().len() > 0,
    ensures
        fields.len() > 1
            ==> appimage::file_row_spec(line, false) == Some(
                PackageView {
                    name: fields[0].trim(),
                    version: fields[1].trim().filled(),
                    state: InstallState::Installed,
                    ..PackageView::blank()
                },
            ),
        fields.len() > 2
            ==> appimage::file_row_spec(line, true) == Some(
                PackageView {
                    name: fields[0].trim(),
                    version: fields[2].trim().filled(),
                    state: InstallState::Installed,
                    ..PackageView::blank()
                },
            ),
        fields.len() == 1 ==> appimage::file_row_spec(line, false) is None,
{
    form::a_prefix_is_found("\u{25c6}"@, row);
}

/// A row `◆ name : description` is an application to be had.
pub proof fn found_rows_are_read(
    line: Seq<char>,
    row: Seq<char>,
    name: Seq<char>,
    description: Seq<char>,
)
    requires
        line.trim() == "\u{25c6}"@ + row,
        row.trim().cut(":"@) == Some((name, description)),
        name.trim().len() > 0,
    ensures
        appimage::query_row_spec(line) == Some(
            PackageView {
                name: name.trim(),
                description: description.trim().filled(),
                state: InstallState::Available,
                ..PackageView::blank()
            },
        ),
{
    form::a_prefix_is_found("\u{25c6}"@, row);
}

/// A line without the mark is no application.
pub proof fn other_rows_say_nothing(line: Seq<char>, named: bool)
    requires
        !line.trim().begins("\u{25c6}"@),
    ensures
        appimage::file_row_spec(line, named) is None,
        appimage::query_row_spec(line) is None,
{

}

/// What is installed is described by what the database says of it; what is not
/// is what the database has.
pub proof fn descriptions_are_merged(package: PackageView, hit: PackageView)
    ensures
        appimage::merge_spec(Some(package), Some(hit)) == Some(
            PackageView { description: hit.description, ..package },
        ),
        appimage::merge_spec(Some(package), None) == Some(
            PackageView { description: None, ..package },
        ),
        appimage::merge_spec(None, Some(hit)) == Some(hit),
        appimage::merge_spec(None, None) is None,
{
}

/// What is installed is asked for first, and the database next.
pub proof fn descriptions_are_looked_for_in_order(
    manager: appimage::Manager,
    name: Seq<char>,
    replies: Seq<ReplyView>,
)
    requires
        path::file_name_spec(manager.program@) == Some("am"@),
    ensures
        ({
            let step = manager.info_spec(name, replies);
            let query = CmdView::query(manager.program@);
            &&& replies.len() == 0 ==> step == session::ask::<PackageView>(query.arg("-f"@))
            &&& replies.len() > 0 && !replies[0].success ==> step == StepView::<PackageView>::Fail(
                replies[0].failure(),
            )
            &&& replies.len() == 1 && replies[0].success ==> step == session::ask::<PackageView>(
                query.arg("-q"@).arg(name),
            )
            &&& replies.len() == 2 && replies[0].success ==> step == session::found(
                appimage::merge_spec(
                    session::called(appimage::parse_files_spec(replies[0].stdout), name),
                    session::called(appimage::database_spec(replies[1]), name),
                ),
                name,
            )
        }),
{
}

/// What the database printed is read, also where the command failed.
pub proof fn the_database_is_read(reply: ReplyView)
    ensures
        reply.success || reply.stdout.trim().len() > 0 ==> appimage::database_spec(reply)
            == appimage::parse_query_spec(reply.stdout),
        !reply.success && reply.stdout.trim().len() == 0
            ==> appimage::database_spec(reply).len() == 0,
{
}

/// A table whose heading names the database has the version behind it.
pub proof fn headings_place_the_version(heading: Seq<char>, row: Seq<char>)
    requires
        form::is_line(heading) && form::is_line(row),
        !heading.contains('\u{1b}') && !row.contains('\u{1b}'),
        !heading.trim().begins("\u{25c6}"@),
    ensures
        heading.has("APPNAME"@) && heading.has("| DB |"@) ==> appimage::parse_files_spec(
            form::above(heading, form::above(row, ""@)),
        ) == match appimage::file_row_spec(row, true) {
            Some(package) => seq![package],
            None => seq![],
        },
        !(heading.has("APPNAME"@) && heading.has("| DB |"@)) && !(row.has("APPNAME"@) && row.has(
            "| DB |"@,
        )) ==> appimage::parse_files_spec(form::above(heading, form::above(row, ""@))) == match
            appimage::file_row_spec(row, false) {
            Some(package) => seq![package],
            None => seq![],
        },
        appimage::parse_query_spec(form::above(row, ""@)) == match appimage::query_row_spec(row) {
            Some(package) => seq![package],
            None => seq![],
        },
{
    reveal_strlit("\n");
    reveal_strlit("");
    let bottom = form::above(row, ""@);
    let text = form::above(heading, bottom);
    assert forall|i: int| 0 <= i < bottom.len() implies #[trigger] bottom[i] != '\u{1b}' by {
        if i < row.len() {
            assert(bottom[i] == row[i] && row.contains(row[i]));
        }
    }
    assert forall|i: int| 0 <= i < text.len() implies #[trigger] text[i] != '\u{1b}' by {
        if i < heading.len() {
            assert(text[i] == heading[i] && heading.contains(heading[i]));
        } else if i > heading.len() {
            assert(text[i] == bottom[i - heading.len() - 1]);
        }
    }
    appimage::plain_text_is_kept(text);
    appimage::plain_text_is_kept(bottom);
    form::a_line_is_a_line(row, ""@);
    form::a_line_is_a_line(heading, bottom);
    form::nothing_is_read();
    let lines = text.lines();
    assert(lines =~= seq![heading, row]);
    let f = |line: Seq<char>| appimage::names_database(line);
    let named = rows::first(lines, f) is Some;
    if heading.has("APPNAME"@) && heading.has("| DB |"@) {
        rows::first_is_at(lines, f, 0);
    } else if !(row.has("APPNAME"@) && row.has("| DB |"@)) {
        rows::first_is_nowhere(lines, f);
    }
    let g = |line: Seq<char>| appimage::file_row_spec(line, named);
    form::a_row_is_read(heading, bottom, g);
    form::a_row_is_read(row, ""@, g);
    let h = |line: Seq<char>| appimage::query_row_spec(line);
    form::a_row_is_read(row, ""@, h);
    assert(rows::select(""@.lines(), g) =~= seq![]);
    assert(rows::select(""@.lines(), h) =~= seq![]);
    assert(form::above(row, ""@).lines() =~= seq![row]);
    assert(appimage::parse_files_spec(text) =~= match g(row) {
        Some(package) => seq![package],
        None => seq![],
    });
    assert(appimage::parse_query_spec(bottom) =~= match h(row) {
        Some(package) => seq![package],
        None => seq![],
    });
}

/// A result without a colon is a name.
pub proof fn bare_results_are_names(line: Seq<char>, row: Seq<char>)
    requires
        line.trim() == "\u{25c6}"@ + row,
        row.trim().len() > 0 && row.trim().cut(":"@) is None,
    ensures
        appimage::query_row_spec(line) == Some(
            PackageView {
                name: row.trim(),
                state: InstallState::Available,
                ..PackageView::blank()
            },
        ),
{
    form::a_prefix_is_found("\u{25c6}"@, row);
}

/// Colours are taken out of a text, and everything else stays.
pub proof fn colours_are_taken_out(params: Seq<char>, end: char, c: char, rest: Seq<char>)
    requires
        forall|i: int| 0 <= i < params.len() ==> !('@' <= #[trigger] params[i] <= '~'),
        '@' <= end <= '~',
        c != '\u{1b}',
    ensures
        appimage::strip_ansi_spec(seq!['\u{1b}', '['] + params + seq![end] + rest)
            == appimage::strip_ansi_spec(rest),
        appimage::strip_ansi_spec(seq![c] + rest) == seq![c] + appimage::strip_ansi_spec(rest),
        appimage::strip_ansi_spec(seq![]).len() == 0,
{
    let text = seq!['\u{1b}', '['] + params + seq![end] + rest;
    assert(text[0] == '\u{1b}' && text[1] == '[' && text.len() > 2);
    assert(text.skip(2) =~= params + seq![end] + rest);
    lemma_sequence_ends(params, end, rest);
    assert((seq![c] + rest).skip(1) =~= rest);
}

proof fn lemma_sequence_ends(params: Seq<char>, end: char, rest: Seq<char>)
    requires
        forall|i: int| 0 <= i < params.len() ==> !('@' <= #[trigger] params[i] <= '~'),
        '@' <= end <= '~',
    ensures
        appimage::after_sequence(params + seq![end] + rest) == rest,
    decreases params.len(),
{
    let s = params + seq![end] + rest;
    if params.len() == 0 {
        assert(s[0] == end);
        assert(s.skip(1) =~= rest);
    } else {
        assert(s[0] == params[0]);
        assert(s.skip(1) =~= params.skip(1) + seq![end] + rest);
        lemma_sequence_ends(params.skip(1), end, rest);
    }
}

} // verus!
