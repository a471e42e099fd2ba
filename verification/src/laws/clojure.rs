//! What the Clojure tools say, and what is installed.

use vstd::prelude::*;

use crate::backends::clojure;
use crate::command::CmdView;
use crate::form;
use crate::package::{InstallState, PackageView};
use crate::request::RequestView;
use crate::rows;
use crate::text::{self, Text};

verus! {

/// A row of alias, lib, type and version is an installed tool.
pub proof fn tools_are_read(
    line: Seq<char>,
    more: Seq<char>,
    alias: Seq<char>,
    lib: Seq<char>,
    kind: Seq<char>,
    version: Seq<char>,
)
    requires
        form::is_line(line),
        line.words() == seq![alias, lib, kind, version],
        kind.begins(":"@),
    ensures
        clojure::parse_tools_list_spec(form::above(line, more)) == seq![
            PackageView {
                name: alias,
                version: Some(version),
                origin: Some(lib),
                state: InstallState::Installed,
                ..PackageView::blank()
            },
        ] + clojure::parse_tools_list_spec(more),
        clojure::parse_tools_list_spec(""@) == Seq::<PackageView>::empty(),
{
    form::a_row_is_read(line, more, |line: Seq<char>| clojure::tools_row_spec(line));
    form::nothing_is_read();
}

/// A tool is found by its alias, by the last part of its lib and by the lib
/// itself, and no other is found.
pub proof fn tools_are_found_by_any_name(packages: Seq<PackageView>, name: Seq<char>, i: int)
    requires
        0 <= i < packages.len(),
    ensures
        packages[i].name == name || packages[i].origin == Some(name)
            || packages[i].name == name.after_last('/')
            ==> clojure::known_as_spec(packages, name) is Some,
        clojure::known_as_spec(packages, name) matches Some(p)
            ==> packages.contains(p) && (
                p.name == name || p.origin == Some(name) || p.name == name.after_last('/')
            ),
{
    rows::first_has(
        packages,
        |p: PackageView|
            p.name == name || p.name == clojure::tool_alias_spec(name) || p.origin == Some(name),
    );
}

/// A tool is installed at its latest version, under the last part of its lib.
pub proof fn installing_names_lib_and_alias(
    manager: clojure::Manager,
    group: Seq<char>,
    artifact: Seq<char>,
)
    requires
        !artifact.contains('/'),
    ensures
        manager.install_spec(
            group + "/"@ + artifact,
        ) == CmdView::new(manager.program@).arg("-Ttools"@).arg(
            "install-latest"@,
        ).arg(":lib"@).arg(
            group + "/"@ + artifact,
        ).arg(":as"@).arg(artifact),
{
    reveal_strlit("/");
    let lib = group + "/"@ + artifact;
    text::lemma_find_last(lib, '/');
    let at = text::find_last(lib, '/');
    assert(lib[group.len() as int] == '/');
    if at > group.len() {
        assert(lib[at] == artifact[at - group.len() - 1]);
        assert(artifact.contains(artifact[at - group.len() - 1]));
    }
    assert(lib.after_last('/') =~= artifact);
}

/// The first request without a group is refused; where all have one, none is.
pub proof fn libs_are_qualified(packages: Seq<RequestView>)
    ensures
        clojure::unqualified_spec(packages) is None <==> forall|i: int| 0 <= i < packages.len() ==> (
            #[trigger] packages[i]
        ).name.has("/"@),
        clojure::unqualified_spec(packages) matches Some(q)
            ==> !q.name.has("/"@) && packages.contains(q),
{
    let f = |q: RequestView| !q.name.has("/"@);
    rows::first_has(packages, f);
    assert forall|i: int| 0 <= i < packages.len() && clojure::unqualified_spec(packages) is None implies (
    #[trigger] packages[i]).name.has("/"@) by {
        assert(!f(packages[i]));
    }
}

/// A row without a type is no tool.
pub proof fn other_rows_say_nothing(line: Seq<char>, more: Seq<char>)
    requires
        form::is_line(line),
        line.words().len() < 3 || !line.words()[2].begins(":"@),
    ensures
        clojure::parse_tools_list_spec(
            form::above(line, more),
        ) == clojure::parse_tools_list_spec(more),
{
    form::a_row_is_read(line, more, |line: Seq<char>| clojure::tools_row_spec(line));
    form::nothing_is_read();
}

} // verus!
