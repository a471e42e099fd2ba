//! cargo-binstall, which installs crates that were built elsewhere.
//!
//! It can only install. What it installs stands in cargo's own registry of
//! installed crates, so listing and removing is left to `cargo`, which has to
//! be there for it. A dry run is built in, and `--no-confirm` keeps it from
//! asking.

use vstd::prelude::*;

use crate::command::{self, Cmd, CmdView, Plan};
use crate::detect::{self, Detection};
use crate::error::{self, Error, ErrorView};
use crate::package::{Details, InstallState, Package, PackageView};
use crate::profile::{basic_capabilities, Capabilities, ManagerKind, Profile};
use crate::request::{OpContext, PackageRequest};
use crate::rows;
use crate::session::{self, Listing, Reply, Step, StepView};
use crate::text::{Deep, Text};
use crate::backends::cargo;

verus! {

broadcast use command::group_carries;

/// Finds the manager and sets it up.
#[derive(Clone, Copy, Debug)]
pub struct Factory;

/// The factory of this backend.
pub fn factory() -> (r: Factory)
    ensures
        r == Factory,
{
    Factory
}

impl Factory {
    pub fn id(&self) -> (r: &'static str)
        ensures
            r@ == "cargo-binstall"@,
    {
        "cargo-binstall"
    }

    /// The programs to look for, in the order of preference.
    pub fn programs(&self) -> (r: Vec<&'static str>)
        ensures
            r@.deep() == seq!["cargo-binstall"@],
    {
        let mut out: Vec<&'static str> = Vec::new();
        out.push("cargo-binstall");
        assert(out@.deep() =~= seq!["cargo-binstall"@]);
        out
    }

    /// Whether the backend can be used, given where each program was found.
    pub fn detect(&self, found: &[Option<String>]) -> (r: Detection)
        ensures
            r@ == detect::detected(found@, "`cargo-binstall` not found on PATH"@),
    {
        detect::detect(found, "`cargo-binstall` not found on PATH")
    }

    /// The manager, given where each program was found.
    pub fn create(&self, found: &[Option<String>]) -> (r: Result<Manager, Error>)
        ensures
            match r {
                Ok(manager) => detect::required(found@, "cargo-binstall"@) == Ok::<Seq<char>, ErrorView>(
                    manager.program@,
                ),
                Err(error) => detect::required(found@, "cargo-binstall"@) == Err::<Seq<char>, ErrorView>(
                    error@,
                ),
            },
    {
        match detect::require(found, "cargo-binstall") {
            Ok(program) => Ok(Manager { program }),
            Err(error) => Err(error),
        }
    }
}

/// The manager, driving `program`.
#[derive(Debug)]
pub struct Manager {
    pub program: String,
}

impl Manager {
    /// What the manager says of itself.
    pub fn profile(&self) -> (r: Profile)
        ensures
            r.id@ == "cargo-binstall"@,
            r.display_name@ == "cargo-binstall"@,
            r.kind == ManagerKind::Language,
            r.database_id@ == "cargo"@,
            r.capabilities == (Capabilities { pin_version: true, ..Capabilities::basic() }),
            r.elevates == false,
    {
        Profile {
            id: "cargo-binstall",
            display_name: "cargo-binstall",
            kind: ManagerKind::Language,
            database_id: "cargo",
            capabilities: Capabilities { pin_version: true, ..basic_capabilities() },
            elevates: false,
        }
    }
}

/// A package as cargo's list of installed crates describes it.
#[derive(Debug)]
pub struct CargoBinstallPackage {
    pub name: String,
    pub version: Option<String>,
    /// Where a crate came from, if not from the registry.
    pub origin: Option<String>,
    pub state: InstallState,
}

impl View for CargoBinstallPackage {
    type V = PackageView;

    open spec fn view(&self) -> PackageView {
        PackageView {
            name: self.name@,
            version: self.version.deep(),
            origin: self.origin.deep(),
            state: self.state,
            ..PackageView::blank()
        }
    }
}

impl Default for CargoBinstallPackage {
    fn default() -> (r: CargoBinstallPackage)
        ensures
            r@ == PackageView::blank(),
    {
        CargoBinstallPackage {
            name: String::new(),
            version: None,
            origin: None,
            state: InstallState::Unknown,
        }
    }
}

impl Package for CargoBinstallPackage {
    open spec fn manager_id() -> Seq<char> {
        "cargo-binstall"@
    }

    fn manager(&self) -> (r: &'static str) {
        "cargo-binstall"
    }

    fn details(&self) -> (r: Details<'_>) {
        Details {
            version: self.version.as_ref(),
            origin: self.origin.as_ref(),
            ..Details::of(&self.name, self.state)
        }
    }
}

/// `name@version` when the request pins one, the bare name otherwise.
pub fn spec(request: &PackageRequest) -> (r: String)
    ensures
        r@ == request@.pinned("@"@),
{
    request.pinned("@")
}

fn list_row(line: &[char]) -> (r: Option<CargoBinstallPackage>)
    ensures
        r.deep() == cargo::header_spec(line@),
{
    match cargo::header(line) {
        None => None,
        Some(package) => Some(
            CargoBinstallPackage {
                name: package.name,
                version: package.version,
                origin: package.origin,
                state: InstallState::Installed,
            },
        ),
    }
}

/// The crates that `cargo install --list` prints.
pub open spec fn parse_install_list_spec(stdout: Seq<char>) -> Seq<PackageView> {
    rows::select(stdout.lines(), |line: Seq<char>| cargo::header_spec(line))
}

pub fn parse_install_list(stdout: &str) -> (r: Vec<CargoBinstallPackage>)
    ensures
        r@.deep() == parse_install_list_spec(stdout@),
{
    rows::select_rows(stdout, list_row, Ghost(|line: Seq<char>| cargo::header_spec(line)))
}

/// That `cargo` is not there.
pub open spec fn no_cargo_spec() -> ErrorView {
    ErrorView::Other(
        "cargo-binstall: `cargo` is required to list and uninstall binstall-managed crates"@,
    )
}

fn no_cargo() -> (r: Error)
    ensures
        r@ == no_cargo_spec(),
{
    error::other(
        "cargo-binstall: `cargo` is required to list and uninstall binstall-managed crates",
    )
}

impl Manager {
    pub fn install(&self, packages: &[PackageRequest], ctx: &OpContext) -> (r: Plan)
        ensures
            command::plan(r) == command::just(
                CmdView::new(self.program@).flag(ctx.assume_yes, "--no-confirm"@)
                    .flag(ctx.dry_run, "--dry-run"@).pinned(packages@.deep(), "@"@),
            ),
            command::all_elevated(command::plan(r), false),
            ctx.dry_run ==> command::all_carry(command::plan(r), "--dry-run"@),
            ctx.assume_yes ==> command::all_carry(command::plan(r), "--no-confirm"@),
    {
        Ok(
            command::one(
                Cmd::new(&self.program).flag(ctx.assume_yes, "--no-confirm")
                    .flag(ctx.dry_run, "--dry-run").pinned(packages, "@"),
            ),
        )
    }

    /// Removes crates with the `cargo` that was found.
    pub fn remove(
        &self,
        cargo: &Option<String>,
        packages: &[PackageRequest],
        ctx: &OpContext,
    ) -> (r: Plan)
        ensures
            command::plan(r) == (if ctx.dry_run {
                Err(ErrorView::Other("cargo-binstall: remove has no dry-run mode"@))
            } else {
                match cargo {
                    None => Err(no_cargo_spec()),
                    Some(cargo) => command::just(
                        CmdView::new(cargo@).arg("uninstall"@).names(packages@.deep()),
                    ),
                }
            }),
            command::all_elevated(command::plan(r), false),
            ctx.dry_run ==> r is Err,
            command::plan(r) == (
                if ctx.dry_run {
                    Err(ErrorView::Other("cargo-binstall: remove has no dry-run mode"@))
                } else {
                    match cargo {
                        None => Err(
                            (
                                ErrorView::Other(
                                    "cargo-binstall: `cargo` is required to list and uninstall binstall-managed crates"@,
                                )
                            ),
                        ),
                        Some(cargo) => command::just(
                            CmdView::new(cargo@).arg("uninstall"@).names(packages@.deep()),
                        ),
                    }
                }
            ),
    {
        if ctx.dry_run {
            return Err(error::other("cargo-binstall: remove has no dry-run mode"));
        }
        match cargo {
            None => Err(no_cargo()),
            Some(cargo) => Ok(
                command::one(Cmd::new(cargo).arg("uninstall").names(packages)),
            ),
        }
    }

    /// Lists crates with the `cargo` that was found.
    pub fn list_installed(&self, cargo: &Option<String>, replies: &[Reply]) -> (r: Step<
        Listing<CargoBinstallPackage>,
    >)
        ensures
            r@ == match cargo {
                None => StepView::Fail(no_cargo_spec()),
                Some(cargo) => session::listed(
                    CmdView::query(cargo@).arg("install"@).arg("--list"@),
                    replies@.deep(),
                    |out: Seq<char>| parse_install_list_spec(out),
                ),
            },
            r@.only_looks(),
            r@.in_c_locale(),
            r@ == match cargo {
                None => StepView::Fail(
                    (
                        ErrorView::Other(
                            "cargo-binstall: `cargo` is required to list and uninstall binstall-managed crates"@,
                        )
                    ),
                ),
                Some(cargo) => session::listed(
                    CmdView::query(cargo@).arg("install"@).arg("--list"@),
                    replies@.deep(),
                    |out: Seq<char>| parse_install_list_spec(out),
                ),
            },
    {
        match cargo {
            None => Step::Fail(no_cargo()),
            Some(cargo) => session::list(
                Cmd::query(cargo).arg("install").arg("--list"),
                replies,
                parse_install_list,
                Ghost(|out: Seq<char>| parse_install_list_spec(out)),
            ),
        }
    }

    /// Describes an installed crate with the `cargo` that was found.
    pub fn info(&self, cargo: &Option<String>, name: &str, replies: &[Reply]) -> (r: Step<
        CargoBinstallPackage,
    >)
        ensures
            r@ == match cargo {
                None => StepView::Fail(no_cargo_spec()),
                Some(cargo) => session::picked(
                    CmdView::query(cargo@).arg("install"@).arg("--list"@),
                    replies@.deep(),
                    name@,
                    |out: Seq<char>| parse_install_list_spec(out),
                ),
            },
            r@.only_looks(),
            r@.in_c_locale(),
            r@ == match cargo {
                None => StepView::Fail(
                    (
                        ErrorView::Other(
                            "cargo-binstall: `cargo` is required to list and uninstall binstall-managed crates"@,
                        )
                    ),
                ),
                Some(cargo) => session::picked(
                    CmdView::query(cargo@).arg("install"@).arg("--list"@),
                    replies@.deep(),
                    name@,
                    |out: Seq<char>| parse_install_list_spec(out),
                ),
            },
    {
        match cargo {
            None => Step::Fail(no_cargo()),
            Some(cargo) => session::pick(
                Cmd::query(cargo).arg("install").arg("--list"),
                replies,
                name,
                parse_install_list,
                Ghost(|out: Seq<char>| parse_install_list_spec(out)),
            ),
        }
    }
}

} // verus!
