//! What Perl says of the installed modules.

use vstd::prelude::*;

use crate::backends::cpanm;
use crate::form;
use crate::package::{InstallState, PackageView};

verus! {

/// A row of name and version, with a tab between them, is an installed module.
pub proof fn installed_rows_are_read(
    line: Seq<char>,
    more: Seq<char>,
    name: Seq<char>,
    version: Seq<char>,
)
    requires
        form::is_line(line),
        !name.contains('\t'),
        form::is_phrase(version),
        line == name + "\t"@ + version,
    ensures
        cpanm::parse_installed_spec(form::above(line, more)) == seq![
            PackageView {
                name,
                version: Some(version),
                state: InstallState::Installed,
                ..PackageView::blank()
            },
        ] + cpanm::parse_installed_spec(more),
        cpanm::parse_installed_spec(""@) == Seq::<PackageView>::empty(),
{
    reveal_strlit("\t");
    form::a_cut_is_found(name, "\t"@, version);
    form::a_phrase_is_a_line(version);
    form::a_row_is_read(line, more, |line: Seq<char>| cpanm::installed_row_spec(line));
    form::nothing_is_read();
}

} // verus!
