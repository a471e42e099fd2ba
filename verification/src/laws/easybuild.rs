//! What `eb` says.

use vstd::prelude::*;

use crate::backends::easybuild;
use crate::command::CmdView;
use crate::error::ErrorView;
use crate::form;
use crate::package::{InstallState, PackageView};
use crate::session::{self, ReplyView, StepView};
use crate::text::Text;
use crate::version;

verus! {

/// A row `* path/name-version.eb` is a package to be had.
pub proof fn search_rows_are_read(
    line: Seq<char>,
    more: Seq<char>,
    path: Seq<char>,
    file: Seq<char>,
    name: Seq<char>,
    version: Option<Seq<char>>,
)
    requires
        form::is_line(line),
        line.trim() == "* "@ + path,
        path.trim().after_last('/') == file + ".eb"@,
        version::split_first(file) == (name, version),
    ensures
        easybuild::parse_search_spec(form::above(line, more)) == seq![
            PackageView { name, version, state: InstallState::Available, ..PackageView::blank() },
        ] + easybuild::parse_search_spec(more),
        easybuild::parse_search_spec(""@) == Seq::<PackageView>::empty(),
{
    form::a_prefix_is_found("* "@, path);
    form::a_suffix_is_found(file, ".eb"@);
    form::a_row_is_read(line, more, |line: Seq<char>| easybuild::search_row_spec(line));
    form::nothing_is_read();
}

/// A row `* name` is an installed package.
pub proof fn installed_rows_are_read(line: Seq<char>, more: Seq<char>, name: Seq<char>)
    requires
        form::is_line(line),
        line.trim() == "* "@ + name,
        name.trim().len() > 0,
    ensures
        easybuild::parse_installed_spec(form::above(line, more)) == seq![
            PackageView {
                name: name.trim(),
                state: InstallState::Installed,
                ..PackageView::blank()
            },
        ] + easybuild::parse_installed_spec(more),
        easybuild::parse_installed_spec(""@) == Seq::<PackageView>::empty(),
{
    form::a_prefix_is_found("* "@, name);
    form::a_row_is_read(line, more, |line: Seq<char>| easybuild::installed_row_spec(line));
    form::nothing_is_read();
}

/// Of several versions the last one counts, and it is installed where a package
/// of that name is.
pub proof fn the_last_version_counts(
    packages: Seq<PackageView>,
    package: PackageView,
    installed: Seq<PackageView>,
)
    ensures
        easybuild::newest_spec(packages.push(package), package.name) == Some(package),
        forall|name: Seq<char>|
            name != package.name
                ==> #[trigger] easybuild::newest_spec(packages.push(package), name)
                == easybuild::newest_spec(packages, name),
        session::called(installed, package.name) is Some
            ==> easybuild::merge_spec(package, installed)
            == (PackageView { state: InstallState::Installed, ..package }),
        session::called(installed, package.name) is None
            ==> easybuild::merge_spec(package, installed)
            == package,
{
    assert(packages.push(package).drop_last() =~= packages);
}

/// A package is searched for, then looked for among what is installed.
pub proof fn descriptions_are_merged(
    manager: easybuild::Manager,
    name: Seq<char>,
    package: PackageView,
    replies: Seq<ReplyView>,
)
    ensures
        ({
            let step = manager.info_spec(name, replies);
            &&& replies.len() == 0 ==> step == session::ask::<PackageView>(
                CmdView::query(manager.program@).arg("--search"@).arg(name),
            )
            &&& replies.len() > 0 && !replies[0].success ==> step == StepView::<PackageView>::Fail(
                ErrorView::NotFound(name),
            )
            &&& replies.len() > 0 && replies[0].success && easybuild::newest_spec(
                easybuild::parse_search_spec(replies[0].stdout),
                name,
            ) == Some(package) ==> step == if replies.len() == 1 {
                session::ask(CmdView::query(manager.program@).arg("--list-installed-software"@))
            } else if replies[1].success {
                StepView::Done(
                    easybuild::merge_spec(
                        package,
                        easybuild::parse_installed_spec(replies[1].stdout),
                    ),
                )
            } else {
                StepView::Done(package)
            }
        }),
{
}

/// A package is asked for by the name of its easyconfig.
pub proof fn easyconfigs_are_named(name: Seq<char>)
    ensures
        name.ends(".eb"@) ==> easybuild::easyconfig_spec(name) == name,
        !name.ends(".eb"@) ==> easybuild::easyconfig_spec(name) == name + ".eb"@,
{
}

/// A line that is no entry is no package.
pub proof fn other_rows_say_nothing(line: Seq<char>)
    requires
        !line.trim().begins("* "@),
    ensures
        easybuild::search_row_spec(line) is None,
        easybuild::installed_row_spec(line) is None,
{

}

} // verus!
