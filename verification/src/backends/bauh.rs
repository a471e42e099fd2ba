//! bauh, a graphical manager.
//!
//! Its command line only starts or sets up the window: nothing can be
//! installed, removed, listed or described by it, and each operation says so.

use vstd::prelude::*;

use crate::command::{self, CmdView, Plan};
use crate::detect::{self, Detection};
use crate::error::{Error, ErrorView};
use crate::package::{Details, InstallState, Package, PackageView};
use crate::profile::{basic_capabilities, Capabilities, ManagerKind, Profile};
use crate::request::{OpContext, PackageRequest};
use crate::session::{Listing, Reply, Step, StepView};
use crate::text::{self, Deep};

verus! {

impl Manager {
    /// What the manager says of itself.
    pub fn profile(&self) -> (r: Profile)
        ensures
            r.id@ == "bauh"@,
            r.display_name@ == "bauh"@,
            r.kind == ManagerKind::Other,
            r.database_id@ == "bauh"@,
            r.capabilities == Capabilities::basic(),
            r.elevates == false,
    {
        Profile {
            id: "bauh",
            display_name: "bauh",
            kind: ManagerKind::Other,
            database_id: "bauh",
            capabilities: basic_capabilities(),
            elevates: false,
        }
    }
}

/// Finds the manager and sets it up.
#[derive(Clone, Copy, Debug)]
pub struct Factory;

/// The factory of this backend.
pub fn factory() -> (r: Factory)
    ensures
        r == Factory,
{
    Factory
}

impl Factory {
    pub fn id(&self) -> (r: &'static str)
        ensures
            r@ == "bauh"@,
    {
        "bauh"
    }

    /// The programs to look for.
    pub fn programs(&self) -> (r: Vec<&'static str>)
        ensures
            r@.deep() == seq!["bauh"@],
    {
        let mut out: Vec<&'static str> = Vec::new();
        out.push("bauh");
        assert(out@.deep() =~= seq!["bauh"@]);
        out
    }

    /// Whether the backend can be used, given where each program was found.
    pub fn detect(&self, found: &[Option<String>]) -> (r: Detection)
        ensures
            r@ == detect::detected(found@, "`bauh` not found on PATH"@),
    {
        detect::detect(found, "`bauh` not found on PATH")
    }

    /// The manager, which drives nothing.
    pub fn create(&self) -> (r: Manager)
        ensures
            r == Manager,
    {
        Manager
    }
}

/// The manager, which only explains.
#[derive(Clone, Copy, Debug)]
pub struct Manager;

/// A package, if bauh could tell of one.
#[derive(Debug)]
pub struct BauhPackage {
    pub name: String,
    pub version: Option<String>,
    pub description: Option<String>,
    pub state: InstallState,
}

impl View for BauhPackage {
    type V = PackageView;

    open spec fn view(&self) -> PackageView {
        PackageView {
            name: self.name@,
            version: self.version.deep(),
            description: self.description.deep(),
            state: self.state,
            ..PackageView::blank()
        }
    }
}

impl Package for BauhPackage {
    open spec fn manager_id() -> Seq<char> {
        "bauh"@
    }

    fn manager(&self) -> (r: &'static str) {
        "bauh"
    }

    fn details(&self) -> (r: Details<'_>) {
        Details {
            version: self.version.as_ref(),
            description: self.description.as_ref(),
            ..Details::of(&self.name, self.state)
        }
    }
}

/// That an operation is for the window alone.
pub open spec fn gui_only_spec(operation: Seq<char>) -> ErrorView {
    ErrorView::Other(
        "bauh: "@ + operation
            + " is not scriptable - bauh only exposes its package operations through the GUI (run `bauh`)"@,
    )
}

impl Manager {
    /// That an operation is for the window alone.
    pub fn gui_only(&self, operation: &str) -> (r: Error)
        ensures
            r@ == gui_only_spec(operation@),
    {
        Error::Other(
            text::cat3(
                "bauh: ",
                operation,
                " is not scriptable - bauh only exposes its package operations through the GUI (run `bauh`)",
            ),
        )
    }

    pub fn install(&self, packages: &[PackageRequest], ctx: &OpContext) -> (r: Plan)
        ensures
            command::plan(r) == Err::<Seq<CmdView>, ErrorView>(gui_only_spec("install"@)),
            command::plan(r) == Err::<Seq<CmdView>, ErrorView>(
                (
                    ErrorView::Other(
                        "bauh: "@ + "install"@ + " is not scriptable - bauh only exposes its package operations through the GUI (run `bauh`)"@,
                    )
                ),
            ),
    {
        Err(self.gui_only("install"))
    }

    pub fn remove(&self, packages: &[PackageRequest], ctx: &OpContext) -> (r: Plan)
        ensures
            command::plan(r) == Err::<Seq<CmdView>, ErrorView>(gui_only_spec("remove"@)),
            command::plan(r) == Err::<Seq<CmdView>, ErrorView>(
                (
                    ErrorView::Other(
                        "bauh: "@ + "remove"@ + " is not scriptable - bauh only exposes its package operations through the GUI (run `bauh`)"@,
                    )
                ),
            ),
    {
        Err(self.gui_only("remove"))
    }

    pub fn list_installed(&self, replies: &[Reply]) -> (r: Step<Listing<BauhPackage>>)
        ensures
            r@ == StepView::<Seq<PackageView>>::Fail(gui_only_spec("list-installed"@)),
            r@.only_looks(),
            r@.in_c_locale(),
            r@ == StepView::<Seq<PackageView>>::Fail(
                (
                    ErrorView::Other(
                        "bauh: "@ + "list-installed"@ + " is not scriptable - bauh only exposes its package operations through the GUI (run `bauh`)"@,
                    )
                ),
            ),
    {
        Step::Fail(self.gui_only("list-installed"))
    }

    pub fn info(&self, name: &str, replies: &[Reply]) -> (r: Step<BauhPackage>)
        ensures
            r@ == StepView::<PackageView>::Fail(gui_only_spec("info"@)),
            r@.only_looks(),
            r@.in_c_locale(),
            r@ == StepView::<PackageView>::Fail(
                (
                    ErrorView::Other(
                        "bauh: "@ + "info"@ + " is not scriptable - bauh only exposes its package operations through the GUI (run `bauh`)"@,
                    )
                ),
            ),
    {
        Step::Fail(self.gui_only("info"))
    }
}

} // verus!
