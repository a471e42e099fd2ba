//! What `cargo install --list` says.

use vstd::prelude::*;

use crate::backends::cargo;
use crate::backends::cargo_binstall;
use crate::form;
use crate::package::{InstallState, PackageView};
use crate::text::Text;

verus! {

/// A header `name vversion:` is a crate installed from the registry.
pub proof fn installed_headers_are_read(
    line: Seq<char>,
    more: Seq<char>,
    header: Seq<char>,
    version: Seq<char>,
)
    requires
        form::is_line(line),
        !line.begins_blank(),
        line.without_suffix(":"@) == Some(header),
        header.cut(" ("@) is None,
        header.words().len() >= 2,
        header.words()[1] == "v"@ + version,
    ensures
        cargo_binstall::parse_install_list_spec(form::above(line, more)) == seq![
            PackageView {
                name: header.words()[0],
                version: Some(version),
                state: InstallState::Installed,
                ..PackageView::blank()
            },
        ] + cargo_binstall::parse_install_list_spec(more),
        cargo_binstall::parse_install_list_spec(""@) == Seq::<PackageView>::empty(),
{
    form::a_prefix_is_found("v"@, version);
    form::a_row_is_read(line, more, |line: Seq<char>| cargo::header_spec(line));
    form::nothing_is_read();
}

} // verus!
