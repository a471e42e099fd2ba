//! What `bun` says.

use vstd::prelude::*;

use crate::backends::bun;
use crate::form;
use crate::package::{InstallState, PackageView};
use crate::request::RequestView;
use crate::text::Text;

verus! {

/// What stands behind a branch of the tree is an installed package with its
/// version.
pub proof fn tree_rows_are_read(
    line: Seq<char>,
    more: Seq<char>,
    head: Seq<char>,
    entry: Seq<char>,
    name: Seq<char>,
    version: Seq<char>,
)
    requires
        form::is_line(line),
        line.cut("── "@) == Some((head, entry)),
        entry.trim() == name + "@"@ + version,
        name.len() > 0 && !name.skip(1).contains('@'),
        version.len() > 0,
    ensures
        bun::parse_tree_spec(form::above(line, more)) == seq![
            PackageView {
                name,
                version: Some(version),
                state: InstallState::Installed,
                ..PackageView::blank()
            },
        ] + bun::parse_tree_spec(more),
        bun::parse_tree_spec(""@) == Seq::<PackageView>::empty(),
{
    reveal_strlit("@");
    let spec = name + "@"@ + version;
    assert(spec.skip(1) =~= name.skip(1) + "@"@ + version);
    form::a_cut_is_found(name.skip(1), "@"@, version);
    assert(seq![spec[0]] + name.skip(1) =~= name);
    form::a_row_is_read(line, more, |line: Seq<char>| bun::tree_row_spec(line));
    form::nothing_is_read();
}

/// A request without a version asks for the latest one, a pinned one for its
/// version.
pub proof fn what_is_not_pinned_is_the_latest(request: RequestView, version: Seq<char>)
    ensures
        request.version is None ==> bun::latest_spec(request) == request.name + "@latest"@,
        request.version == Some(version)
            ==> bun::latest_spec(request) == request.name + "@"@ + version,
{

}

} // verus!
