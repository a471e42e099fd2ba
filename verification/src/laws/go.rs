//! What `go` says, and where its binaries are.

use vstd::prelude::*;

use crate::backends::go;
use crate::command::CmdView;
use crate::error::ErrorView;
use crate::form;
use crate::package::{InstallState, PackageView};
use crate::path;
use crate::request::{OpContext, RequestView};
use crate::rows;
use crate::session::{ActionView, PartView, ReplyView, StepView};
use crate::text::Text;

verus! {

/// A module is asked for at its version, written with its `v`, or else at the
/// latest one.
pub proof fn requests_name_a_version(request: RequestView, version: Seq<char>)
    ensures
        request.version is None ==> go::spec_spec(request) == request.name + "@latest"@,
        request.version == Some(version) && version.begins_digit()
            ==> go::spec_spec(request) == request.name + "@v"@ + version,
        request.version == Some(version) && !version.begins_digit()
            ==> go::spec_spec(request) == request.name + "@"@ + version,
{

}

/// The binary of a module is called like the last part of its path, but for a
/// major version there.
pub proof fn binaries_are_named(head: Seq<char>, part: Seq<char>, major: Seq<char>)
    requires
        part.len() > 0 && !part.contains('/'),
        major.len() > 0 && !major.contains('/'),
    ensures
        !go::is_major_spec(part) ==> go::binary_name_spec(head + "/"@ + part) == part,
        go::is_major_spec(major)
            ==> go::binary_name_spec(head + "/"@ + part + "/"@ + major) == part,
        go::binary_name_spec(part) == part,
{
    reveal_strlit("/");
    let slash = "/"@;
    assert(slash =~= seq!['/']);
    let one = head + slash + part;
    let two = head + slash + part + slash + major;
    lemma_no_slash_behind(head + slash, part);
    lemma_no_slash_behind(one + slash, major);
    lemma_no_slash_behind(seq![], part);
    assert(head + slash + part =~= (head + slash) + part);
    assert(seq![] + part =~= part);
    assert(two =~= (one + slash) + major);
    form::a_piece_is_split_off(part, slash, seq![]);
    form::a_piece_is_split_off(major, slash, seq![]);
    form::pieces_are_split_off(head, slash, part);
    form::pieces_are_split_off(one, slash, major);
    assert(one.split(slash) =~= head.split(slash) + seq![part]);
    assert(two.split(slash) =~= one.split(slash) + seq![major]);
    form::there_is_a_piece(head, slash);
}

proof fn lemma_no_slash_behind(head: Seq<char>, part: Seq<char>)
    requires
        part.len() > 0 && !part.contains('/'),
    ensures
        (head + part).trim_back("/"@) == head + part,
{
    reveal_strlit("/");
    assert((head + part).last() == part.last());
    assert(part.contains(part.last()));
    if "/"@.contains(part.last()) {
        assert(part.last() == '/');
    }
}

/// The binaries stand where GOBIN says, or else in `bin` below the first part of
/// GOPATH.
pub proof fn binaries_have_a_directory(first: Seq<char>, second: Seq<char>)
    requires
        form::is_line(first) && form::is_line(second),
    ensures
        first.trim().len() > 0 ==> go::gobin_spec(form::above(first, form::above(second, ""@)))
            == Ok::<_, ErrorView>(first.trim()),
        first.trim().len() == 0 && second.trim().split(":"@)[0].len() > 0 ==> go::gobin_spec(
            form::above(first, form::above(second, ""@)),
        ) == Ok::<_, ErrorView>(path::join_spec(second.trim().split(":"@)[0], "bin"@)),
        go::gobin_spec(""@) is Err,
{
    form::a_line_is_a_line(second, ""@);
    form::a_line_is_a_line(first, form::above(second, ""@));
    form::nothing_is_read();
    let lines = form::above(first, form::above(second, ""@)).lines();
    assert(lines =~= seq![first, second]);
}

/// A line that is not indented opens a binary; below it stand the path of its
/// package and the version of its module.
pub proof fn binaries_are_read(
    state: go::VersionScanView,
    line: Seq<char>,
    package: PackageView,
    first: Seq<char>,
    second: Seq<char>,
    third: Seq<char>,
)
    ensures
        ({
            let next = go::version_next_spec(state, line);
            &&& !line.begins("\t"@) ==> next.current == Some(
                PackageView { state: InstallState::Installed, ..PackageView::blank() },
            )
            &&& !line.begins("\t"@) && state.current == Some(package) && package.name.len() > 0
                ==> next.packages == state.packages.push(package)
            &&& !line.begins("\t"@) && state.current is None ==> next.packages == state.packages
            &&& line.begins("\t"@) && state.current == Some(package) && line.split("\t"@) == seq![
                first,
                "path"@,
                second,
            ] ==> next == (go::VersionScanView {
                current: Some(PackageView { name: second, ..package }),
                ..state
            })
            &&& line.begins("\t"@) && state.current == Some(package) && line.split("\t"@) == seq![
                first,
                "mod"@,
                second,
                third,
            ] ==> next == (go::VersionScanView {
                current: Some(PackageView { version: Some(third), ..package }),
                ..state
            })
        }),
{
    reveal_strlit("path");
    reveal_strlit("mod");
    reveal_strlit("\t");
    assert("path"@.len() == 4);
    assert("mod"@.len() == 3);
    assert("\t"@.len() == 1);
}

/// The directory of the binaries is asked for, then whether it is there, then
/// what it holds; where it is not there nothing is installed.
pub proof fn binaries_are_listed_in_order(
    manager: go::Manager,
    dir: Seq<char>,
    replies: Seq<ReplyView>,
)
    ensures
        ({
            let part = manager.installed_spec(replies);
            &&& replies.len() == 0 ==> part == PartView::<Seq<PackageView>>::Act(
                ActionView::Query(
                    CmdView::new(manager.program@).arg("env"@).arg("GOBIN"@).arg("GOPATH"@),
                ),
            )
            &&& replies.len() > 0 && !replies[0].success ==> part == PartView::<
                Seq<PackageView>,
            >::Fail(replies[0].failure())
            &&& replies.len() > 0 && replies[0].success && go::gobin_spec(
                replies[0].stdout,
            ) == Ok::<
                _,
                ErrorView,
            >(dir) ==> ({
                &&& replies.len() == 1 ==> part == PartView::<Seq<PackageView>>::Act(
                    ActionView::IsDirectory(dir),
                )
                &&& replies.len() == 2 && !replies[1].success ==> part == PartView::Got(
                    Seq::<PackageView>::empty(),
                    replies.skip(2),
                )
                &&& replies.len() == 2 && replies[1].success ==> part == PartView::<
                    Seq<PackageView>,
                >::Act(
                    ActionView::Query(
                        CmdView::new(manager.program@).arg("version"@).arg("-m"@).arg(dir),
                    ),
                )
                &&& replies.len() == 3 && replies[1].success && replies[2].success ==> part
                    == PartView::Got(
                    go::parse_version_m_spec(replies[2].stdout),
                    replies.skip(3),
                )
            })
        }),
{
    if replies.len() >= 2 {
        assert(replies.skip(1).skip(1) =~= replies.skip(2));
        if replies.len() >= 3 {
            assert(replies.skip(1).skip(1).skip(1) =~= replies.skip(3));
        }
    }
}

/// A binary is removed where it is there, and only told of in a dry run.
pub proof fn binaries_are_removed(
    manager: go::Manager,
    dir: Seq<char>,
    name: Seq<char>,
    ctx: OpContext,
    replies: Seq<ReplyView>,
)
    ensures
        ({
            let part = manager.remove_one_spec(dir, name, ctx, replies);
            let file = path::join_spec(dir, go::binary_name_spec(name));
            &&& replies.len() == 0 ==> part == PartView::<()>::Act(ActionView::IsFile(file))
            &&& replies.len() > 0 && !replies[0].success ==> part == PartView::<()>::Fail(
                ErrorView::NotFound(name),
            )
            &&& replies.len() == 1 && replies[0].success && ctx.dry_run ==> part == PartView::<()>::Act(
                ActionView::Report("would remove "@ + file),
            )
            &&& replies.len() == 1 && replies[0].success && !ctx.dry_run ==> part == PartView::<
                (),
            >::Act(ActionView::RemoveFile(file))
            &&& replies.len() == 2 && replies[0].success && replies[1].success && !ctx.dry_run
                ==> part == PartView::<()>::Act(ActionView::Report("removed "@ + file))
        }),
        manager.remove_each_spec(dir, seq![], ctx, replies) == StepView::Done(()),
{
}

/// Each of the named binaries is removed in its turn.
pub proof fn every_binary_is_removed(
    manager: go::Manager,
    dir: Seq<char>,
    packages: Seq<RequestView>,
    ctx: OpContext,
    replies: Seq<ReplyView>,
)
    requires
        packages.len() > 0,
    ensures
        match manager.remove_one_spec(dir, packages[0].name, ctx, replies) {
            PartView::Act(action) => manager.remove_each_spec(dir, packages, ctx, replies)
                == StepView::<()>::Act(action),
            PartView::Fail(error) => manager.remove_each_spec(dir, packages, ctx, replies)
                == StepView::<()>::Fail(error),
            PartView::Got(_, rest) => manager.remove_each_spec(dir, packages, ctx, replies)
                == manager.remove_each_spec(dir, packages.skip(1), ctx, rest),
        },
{
}

/// A binary is found by the path of its package or by its own name.
pub proof fn binaries_are_found_by_either_name(
    packages: Seq<PackageView>,
    name: Seq<char>,
    i: int,
)
    requires
        0 <= i < packages.len(),
    ensures
        packages[i].name == name || go::binary_name_spec(packages[i].name) == name
            ==> go::known_as_spec(packages, name) is Some,
        go::known_as_spec(packages, name) matches Some(p) ==> packages.contains(p) && (p.name == name
            || go::binary_name_spec(p.name) == name),
{
    rows::first_has(
        packages,
        |p: PackageView| p.name == name || go::binary_name_spec(p.name) == name,
    );
}

/// An output of one binary is that binary.
pub proof fn single_binaries_are_read(
    file: Seq<char>,
    row: Seq<char>,
    first: Seq<char>,
    name: Seq<char>,
)
    requires
        form::is_line(file) && !file.begins("\t"@),
        form::is_line(row) && row.begins("\t"@),
        row.split("\t"@) == seq![first, "path"@, name],
        name.len() > 0,
    ensures
        go::parse_version_m_spec(form::above(file, form::above(row, ""@))) == seq![
            PackageView { name, state: InstallState::Installed, ..PackageView::blank() },
        ],
        go::parse_version_m_spec(form::above(file, ""@)).len() == 0,
        go::parse_version_m_spec(""@).len() == 0,
{
    let start = go::VersionScanView { packages: seq![], current: None };
    let f = |state: go::VersionScanView, line: Seq<char>| go::version_next_spec(state, line);
    form::a_line_is_scanned(start, file, form::above(row, ""@), f);
    form::a_line_is_scanned(start, file, ""@, f);
    form::a_line_is_scanned(f(start, file), row, ""@, f);
    form::nothing_is_read();
    let package = PackageView { name, state: InstallState::Installed, ..PackageView::blank() };
    let end = f(f(start, file), row);
    assert(end.current == Some(package));
    assert(end.packages =~= seq![]);
    assert(end.packages.push(package) =~= seq![package]);
}

/// A major version is a `v` and digits.
pub proof fn major_versions_are_numbered(digits: Seq<char>)
    requires
        digits.len() > 0,
    ensures
        go::is_major_spec("v"@ + digits) == digits.only("0123456789"@),
        !go::is_major_spec("v"@),
        digits[0] != 'v' ==> !go::is_major_spec(digits),
{
    reveal_strlit("v");
    assert(("v"@ + digits).skip(1) =~= digits);
}

/// An upgrade of everything lists what is installed first, and then runs once.
pub proof fn upgrading_lists_first(
    manager: go::Manager,
    ctx: OpContext,
    replies: Seq<ReplyView>,
    installed: Seq<PackageView>,
    rest: Seq<ReplyView>,
    dir: Seq<char>,
)
    ensures
        manager.installed_spec(replies) matches PartView::Act(action) ==> manager.upgrade_spec(
            seq![],
            ctx,
            replies,
        ) == StepView::<()>::Act(action),
        manager.installed_spec(replies) matches PartView::Fail(error) ==> manager.upgrade_spec(
            seq![],
            ctx,
            replies,
        ) == StepView::<()>::Fail(error),
        manager.installed_spec(replies) == PartView::Got(installed, rest) && rest.len() > 0
            && installed.len() > 0 ==> manager.upgrade_spec(seq![], ctx, replies)
            == if rest[0].success {
            StepView::Done(())
        } else {
            StepView::Fail(rest[0].failure())
        },
        replies.len() > 0 && replies[0].success && go::gobin_spec(replies[0].stdout) == Ok::<
            _,
            ErrorView,
        >(dir) ==> manager.directory_spec(replies) == PartView::Got(dir, replies.skip(1)),
        replies.len() > 0 && !replies[0].success
            ==> manager.directory_spec(replies) == PartView::<
            Seq<char>,
        >::Fail(replies[0].failure()),
        replies.len() == 0 ==> manager.directory_spec(replies) == PartView::<Seq<char>>::Act(
            ActionView::Query(
                CmdView::new(manager.program@).arg("env"@).arg("GOBIN"@).arg("GOPATH"@),
            ),
        ),
{
}

} // verus!
