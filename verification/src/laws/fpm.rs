//! What the cache of `fpm` says.

use vstd::prelude::*;

use crate::backends::fpm;
use crate::data::{self, DataView};
use crate::error::ErrorView;
use crate::package::{InstallState, PackageView};
use crate::path;
use crate::rows;
use crate::session::{ActionView, ReplyView, StepView};
use crate::text::Text;

verus! {

/// An entry of the cache is an installed dependency, at its version or else its
/// revision; the project itself is none.
pub proof fn cached_entries_are_read(name: Seq<char>, table: DataView, directory: Seq<char>)
    requires
        table.entries() is Some,
        table.get("proj-dir"@).text() == Some(directory),
    ensures
        directory == "."@ ==> fpm::cache_entry_spec((name, table)) is None,
        directory != "."@
            ==> (
                fpm::cache_entry_spec(
                    (name, table),
                ) matches Some(package) && package.name == name
                    && package.origin == Some(directory)
                        && package.state == InstallState::Installed
                            && package.latest_version is None
            ),
        directory != "."@ && table.get("version"@).text() is Some
            ==> fpm::cache_entry_spec((name, table))->0.version == table.get("version"@).text(),
        directory != "."@ && table.get("version"@).text() is None
            ==> fpm::cache_entry_spec(
                (name, table),
            )->0.version == match table.get("revision"@).text() {
                Some(revision) => revision.filled(),
                None => None,
            },
{

}

/// Each entry of the dependencies is read in its turn; a document without that
/// table is refused.
pub proof fn the_cache_is_read(
    document: DataView,
    front: Seq<(Seq<char>, DataView)>,
    entry: (Seq<char>, DataView),
    package: PackageView,
)
    ensures
        document.get("dependencies"@).entries() is None
            ==> fpm::cache_rows_spec(Ok(document)) is Err,
        document.get("dependencies"@).entries() == Some(
            front.push(entry),
        ) && fpm::cache_entry_spec(entry) == Some(package)
            ==> fpm::cache_rows_spec(Ok(document)) == Ok::<_, ErrorView>(
                rows::select(
                    front,
                    |entry: (Seq<char>, DataView)| fpm::cache_entry_spec(entry),
                ).push(package),
            ),
{
    assert(front.push(entry).drop_last() =~= front);
}

/// The cache stands in the build directory, which a variable can name.
pub proof fn the_cache_has_a_place(
    manager: fpm::Manager,
    packages: Seq<PackageView>,
    replies: Seq<ReplyView>,
)
    ensures
        ({
            let step = manager.list_installed_spec(replies);
            &&& replies.len() == 0 ==> step == StepView::<Seq<PackageView>>::Act(
                ActionView::Variable("FPM_BUILD_DIR"@),
            )
            &&& replies.len() == 1 && replies[0].success ==> step == StepView::<Seq<PackageView>>::Act(
                ActionView::ReadFile(path::join_spec(replies[0].stdout, "cache.toml"@)),
            )
            &&& replies.len() == 1 && !replies[0].success ==> step == StepView::<
                Seq<PackageView>,
            >::Act(ActionView::ReadFile(path::join_spec("build"@, "cache.toml"@)))
            &&& replies.len() == 2 && !replies[1].success ==> step is Fail
            &&& replies.len() == 2 && replies[1].success && fpm::parse_cache_spec(
                replies[1].stdout,
            )
                == Ok::<_, ErrorView>(packages) ==> step == StepView::Done(packages)
        }),
{
}

/// A cache that is not TOML, or has no dependencies, is refused with the reason.
pub proof fn the_cache_can_be_refused(
    manager: fpm::Manager,
    document: DataView,
    detail: Seq<char>,
    replies: Seq<ReplyView>,
)
    ensures
        fpm::cache_rows_spec(Err(detail)) == Err::<Seq<PackageView>, _>(
            ErrorView::Parse { what: "fpm dependency cache"@, detail },
        ),
        document.get("dependencies"@).entries() is None
            ==> fpm::cache_rows_spec(Ok(document)) == Err::<
            Seq<PackageView>,
            _,
        >(
            ErrorView::Parse {
                what: "fpm dependency cache"@,
                detail: "missing [dependencies] table"@,
            },
        ),
        replies.len() == 2 && !replies[0].success && !replies[1].success
            ==> manager.list_installed_spec(replies) == StepView::<Seq<PackageView>>::Fail(
            ErrorView::Other(
                "fpm: cannot read resolved dependency cache `"@ + path::join_spec(
                    "build"@,
                    "cache.toml"@,
                ) + "`: "@ + replies[1].stderr + "; run `fpm update --fetch-only` first"@,
            ),
        ),
{
}

/// The cache is read as TOML.
pub proof fn the_cache_is_toml(contents: Seq<char>, document: DataView)
    requires
        data::toml_text(contents) == Ok::<_, Seq<char>>(document),
    ensures
        fpm::parse_cache_spec(contents) == fpm::cache_rows_spec(Ok(document)),
{
}

} // verus!
