//! Deno's globally installed scripts.
//!
//! `deno install -g` makes a shim for a specifier, which is handed on as it
//! is: `npm:pkg`, `jsr:@scope/pkg` or an address, with `@version` behind it
//! when one is asked for. Nothing lists what is installed but the shims
//! themselves, in `$DENO_INSTALL_ROOT/bin` or else in `~/.deno/bin`: names
//! only. An upgrade installs again by force and needs the specifier, so not
//! everything can be upgraded at once. Deno never asks, and has no dry run.

use vstd::prelude::*;

use crate::command::{self, Cmd, CmdView, Plan};
use crate::detect::{self, Detection};
use crate::error::{self, Error, ErrorView};
use crate::order;
use crate::package::{Details, InstallState, Package, PackageView};
use crate::path;
use crate::profile::{basic_capabilities, Capabilities, ManagerKind, Profile};
use crate::request::{OpContext, PackageRequest, RequestView};
use crate::rows;
use crate::session::{self, Action, ActionView, Listing, Reply, ReplyView, Step, StepView};
use crate::text::{self, chars, Deep, Text};

verus! {

/// Finds the manager and sets it up.
#[derive(Clone, Copy, Debug)]
pub struct Factory;

/// The factory of this backend.
pub fn factory() -> (r: Factory)
    ensures
        r == Factory,
{
    Factory
}

impl Factory {
    pub fn id(&self) -> (r: &'static str)
        ensures
            r@ == "deno"@,
    {
        "deno"
    }

    /// The programs to look for, in the order of preference.
    pub fn programs(&self) -> (r: Vec<&'static str>)
        ensures
            r@.deep() == seq!["deno"@],
    {
        let mut out: Vec<&'static str> = Vec::new();
        out.push("deno");
        assert(out@.deep() =~= seq!["deno"@]);
        out
    }

    /// Whether the backend can be used, given where each program was found.
    pub fn detect(&self, found: &[Option<String>]) -> (r: Detection)
        ensures
            r@ == detect::detected(found@, "`deno` not found on PATH"@),
    {
        detect::detect(found, "`deno` not found on PATH")
    }

    /// The manager, given where each program was found.
    pub fn create(&self, found: &[Option<String>]) -> (r: Result<Manager, Error>)
        ensures
            match r {
                Ok(manager) => detect::required(found@, "deno"@) == Ok::<Seq<char>, ErrorView>(
                    manager.program@,
                ),
                Err(error) => detect::required(found@, "deno"@) == Err::<Seq<char>, ErrorView>(
                    error@,
                ),
            },
    {
        match detect::require(found, "deno") {
            Ok(program) => Ok(Manager { program }),
            Err(error) => Err(error),
        }
    }
}

/// The manager, driving `program`.
#[derive(Debug)]
pub struct Manager {
    pub program: String,
}

impl Manager {
    /// What the manager says of itself.
    pub fn profile(&self) -> (r: Profile)
        ensures
            r.id@ == "deno"@,
            r.display_name@ == "Deno"@,
            r.kind == ManagerKind::Language,
            r.database_id@ == "node"@,
            r.capabilities == (Capabilities {
                upgrade: true,
                pin_version: true,
                ..Capabilities::basic()
            }),
            r.elevates == false,
    {
        Profile {
            id: "deno",
            display_name: "Deno",
            kind: ManagerKind::Language,
            database_id: "node",
            capabilities: Capabilities { upgrade: true, pin_version: true, ..basic_capabilities() },
            elevates: false,
        }
    }
}

/// A script as deno describes it: the name of a shim.
#[derive(Debug)]
pub struct DenoPackage {
    pub name: String,
    pub state: InstallState,
}

impl View for DenoPackage {
    type V = PackageView;

    open spec fn view(&self) -> PackageView {
        PackageView::named(self.name@, self.state)
    }
}

impl Package for DenoPackage {
    open spec fn manager_id() -> Seq<char> {
        "deno"@
    }

    fn manager(&self) -> (r: &'static str) {
        "deno"
    }

    fn details(&self) -> (r: Details<'_>) {
        Details::of(&self.name, self.state)
    }
}

/// `name@version` when the request pins one, the bare specifier otherwise.
pub fn spec(request: &PackageRequest) -> (r: String)
    ensures
        r@ == request@.pinned("@"@),
{
    request.pinned("@")
}

/// The directory of the shims: below the root that is set, or else below the
/// home directory.
pub open spec fn bin_dir_spec(install_root: Option<Seq<char>>, home: Option<Seq<char>>) -> Option<
    Seq<char>,
> {
    if install_root is Some && install_root->0.len() > 0 {
        Some(path::join_spec(install_root->0, "bin"@))
    } else if home is Some && home->0.len() > 0 {
        Some(path::join_spec(path::join_spec(home->0, ".deno"@), "bin"@))
    } else {
        None
    }
}

pub fn bin_dir(install_root: Option<&str>, home: Option<&str>) -> (r: Option<String>)
    ensures
        r.deep() == bin_dir_spec(install_root.deep(), home.deep()),
{
    if let Some(root) = install_root {
        if chars(root).len() > 0 {
            return Some(path::join(root, "bin"));
        }
    }
    if let Some(home) = home {
        if chars(home).len() > 0 {
            return Some(path::join(&path::join(home, ".deno"), "bin"));
        }
    }
    None
}

/// The value of a variable, if it is set.
pub open spec fn variable_spec(reply: ReplyView) -> Option<Seq<char>> {
    if reply.success {
        Some(reply.stdout)
    } else {
        None
    }
}

fn variable(reply: &Reply) -> (r: Option<&str>)
    ensures
        r.deep() == variable_spec(reply@),
{
    if reply.success {
        Some(reply.stdout.as_str())
    } else {
        None
    }
}

/// The package of a shim.
pub open spec fn shim_spec(name: Seq<char>) -> PackageView {
    PackageView::named(name, InstallState::Installed)
}

/// The shims among the files that may be executed, in order: all but the
/// runtime, which the installer puts there too.
pub open spec fn list_shims_spec(files: Seq<Seq<char>>) -> Seq<Seq<char>> {
    order::sorted(
        rows::keep(files, |name: Seq<char>| name != "deno"@),
        |a: Seq<char>, b: Seq<char>| a.before(b),
    )
}

pub fn list_shims(files: &Vec<String>) -> (r: Vec<String>)
    ensures
        r@.deep() == list_shims_spec(files@.deep()),
{
    let ghost all = files@.deep();
    let mut names: Vec<String> = rows::empty();
    let mut i: usize = 0;
    while i < files.len()
        invariant
            i <= files.len(),
            all == files@.deep(),
            names@.deep() == rows::keep(
                all.take(i as int),
                |name: Seq<char>| name != "deno"@,
            ),
        decreases files.len() - i,
    {
        assert(all.take(i + 1).drop_last() =~= all.take(i as int));
        assert(all.take(i + 1).last() == files@[i as int]@);
        if !text::equal(&files[i], "deno") {
            rows::push(&mut names, text::copy(&files[i]));
        }
        i += 1;
    }
    assert(all.take(all.len() as int) =~= all);
    order::sort_strings(names)
}

fn shim_packages(names: &Vec<String>) -> (r: Vec<DenoPackage>)
    ensures
        r@.deep() == names@.deep().map_values(|name: Seq<char>| shim_spec(name)),
{
    let ghost all = names@.deep().map_values(|name: Seq<char>| shim_spec(name));
    let mut out: Vec<DenoPackage> = rows::empty();
    let mut i: usize = 0;
    assert(all.take(0) =~= seq![]);
    while i < names.len()
        invariant
            i <= names.len(),
            all == names@.deep().map_values(|name: Seq<char>| shim_spec(name)),
            out@.deep() == all.take(i as int),
        decreases names.len() - i,
    {
        rows::push(
            &mut out,
            DenoPackage { name: text::copy(&names[i]), state: InstallState::Installed },
        );
        assert(all[i as int] == shim_spec(names@[i as int]@));
        assert(all.take(i + 1) =~= all.take(i as int).push(all[i as int]));
        i += 1;
    }
    assert(all.take(all.len() as int) =~= all);
    out
}

impl Manager {
    /// One specifier at a time: more of them would become arguments of the
    /// shim.
    pub fn install(&self, packages: &[PackageRequest], ctx: &OpContext) -> (r: Plan)
        ensures
            command::plan(r) == if ctx.dry_run {
                Err(ErrorView::Other("deno: install has no dry-run mode"@))
            } else {
                Ok(
                    packages@.deep().map_values(
                        |q: RequestView|
                            CmdView::new(self.program@).arg("install"@).arg("-g"@).arg(
                                q.pinned("@"@),
                            ),
                    ),
                )
            },
            command::all_elevated(command::plan(r), false),
            ctx.dry_run ==> r is Err,
    {
        if ctx.dry_run {
            return Err(error::other("deno: install has no dry-run mode"));
        }
        let install = |q: &PackageRequest| -> (c: Cmd)
            ensures
                c@ == CmdView::new(self.program@).arg("install"@).arg("-g"@).arg(q@.pinned("@"@)),
            { Cmd::new(&self.program).arg("install").arg("-g").arg(&spec(q)) };
        Ok(
            command::one_each(
                packages,
                install,
                Ghost(
                    |q: RequestView|
                        CmdView::new(self.program@).arg("install"@).arg("-g"@).arg(
                            q.pinned("@"@),
                        ),
                ),
            ),
        )
    }

    pub fn remove(&self, packages: &[PackageRequest], ctx: &OpContext) -> (r: Plan)
        ensures
            command::plan(r) == if ctx.dry_run {
                Err(ErrorView::Other("deno: remove has no dry-run mode"@))
            } else {
                Ok(
                    packages@.deep().map_values(
                        |q: RequestView|
                            CmdView::new(self.program@).arg("uninstall"@).arg("-g"@).arg(q.name),
                    ),
                )
            },
            command::all_elevated(command::plan(r), false),
            ctx.dry_run ==> r is Err,
    {
        if ctx.dry_run {
            return Err(error::other("deno: remove has no dry-run mode"));
        }
        let remove = |q: &PackageRequest| -> (c: Cmd)
            ensures
                c@ == CmdView::new(self.program@).arg("uninstall"@).arg("-g"@).arg(q@.name),
            { Cmd::new(&self.program).arg("uninstall").arg("-g").arg(&q.name) };
        Ok(
            command::one_each(
                packages,
                remove,
                Ghost(
                    |q: RequestView|
                        CmdView::new(self.program@).arg("uninstall"@).arg("-g"@).arg(q.name),
                ),
            ),
        )
    }

    pub fn upgrade(&self, packages: &[PackageRequest], ctx: &OpContext) -> (r: Plan)
        ensures
            command::plan(r) == if ctx.dry_run {
                Err(ErrorView::Other("deno: upgrade has no dry-run mode"@))
            } else if packages@.len() == 0 {
                Err(
                    ErrorView::Other(
                        "deno: upgrade needs explicit specifiers - installed shims do not record where they came from"@,
                    ),
                )
            } else {
                Ok(
                    packages@.deep().map_values(
                        |q: RequestView|
                            CmdView::new(self.program@).arg("install"@).arg("-g"@).arg("-f"@).arg(
                                "--reload"@,
                            ).arg(q.pinned("@"@)),
                    ),
                )
            },
            command::all_elevated(command::plan(r), false),
            ctx.dry_run ==> r is Err,
    {
        if ctx.dry_run {
            return Err(error::other("deno: upgrade has no dry-run mode"));
        }
        if packages.len() == 0 {
            return Err(
                error::other(
                    "deno: upgrade needs explicit specifiers - installed shims do not record where they came from",
                ),
            );
        }
        let upgrade = |q: &PackageRequest| -> (c: Cmd)
            ensures
                c@ == CmdView::new(self.program@).arg("install"@).arg("-g"@).arg("-f"@).arg(
                    "--reload"@,
                ).arg(q@.pinned("@"@)),
            {
                Cmd::new(&self.program).arg("install").arg("-g").arg("-f").arg("--reload").arg(
                    &spec(q),
                )
            };
        Ok(
            command::one_each(
                packages,
                upgrade,
                Ghost(
                    |q: RequestView|
                        CmdView::new(self.program@).arg("install"@).arg("-g"@).arg("-f"@).arg(
                            "--reload"@,
                        ).arg(q.pinned("@"@)),
                ),
            ),
        )
    }

    /// The shims: two variables tell the directory, and a directory that does
    /// not exist has none.
    pub open spec fn shims_spec(self, replies: Seq<ReplyView>) -> StepView<Seq<PackageView>> {
        if replies.len() == 0 {
            StepView::Act(ActionView::Variable("DENO_INSTALL_ROOT"@))
        } else if replies.len() == 1 {
            StepView::Act(ActionView::Variable("HOME"@))
        } else {
            match bin_dir_spec(variable_spec(replies[0]), variable_spec(replies[1])) {
                None => StepView::Fail(
                    ErrorView::Other(
                        "deno: cannot locate the install root (neither DENO_INSTALL_ROOT nor HOME is set)"@,
                    ),
                ),
                Some(dir) => if replies.len() == 2 {
                    StepView::Act(ActionView::Executables(dir))
                } else if replies[2].missing {
                    StepView::Done(seq![])
                } else if !replies[2].success {
                    StepView::Fail(replies[2].failure())
                } else {
                    StepView::Done(
                        list_shims_spec(replies[2].entries).map_values(
                            |name: Seq<char>| shim_spec(name),
                        ),
                    )
                },
            }
        }
    }

    pub fn list_installed(&self, replies: &[Reply]) -> (r: Step<Listing<DenoPackage>>)
        ensures
            r@ == self.shims_spec(replies@.deep()),
            r@.only_looks(),
            r@.in_c_locale(),
    {
        if replies.len() == 0 {
            return Step::Act(Action::Variable(text::copy("DENO_INSTALL_ROOT")));
        }
        if replies.len() == 1 {
            return Step::Act(Action::Variable(text::copy("HOME")));
        }
        assert(replies@.deep()[0] == replies@[0]@);
        assert(replies@.deep()[1] == replies@[1]@);
        let dir = match bin_dir(variable(&replies[0]), variable(&replies[1])) {
            None => {
                return Step::Fail(
                    error::other(
                        "deno: cannot locate the install root (neither DENO_INSTALL_ROOT nor HOME is set)",
                    ),
                );
            },
            Some(dir) => dir,
        };
        if replies.len() == 2 {
            return Step::Act(Action::Executables(dir));
        }
        assert(replies@.deep()[2] == replies@[2]@);
        if replies[2].missing {
            return Step::Done(session::nothing());
        }
        if !replies[2].success {
            return Step::Fail(replies[2].failure());
        }
        Step::Done(Listing { packages: shim_packages(&list_shims(&replies[2].entries)) })
    }

    pub fn info(&self, name: &str, replies: &[Reply]) -> (r: Step<DenoPackage>)
        ensures
            r@ == match self.shims_spec(replies@.deep()) {
                StepView::Act(action) => StepView::Act(action),
                StepView::Fail(error) => StepView::Fail(error),
                StepView::Done(packages) => session::found(
                    session::called(packages, name@),
                    name@,
                ),
            },
            r@.only_looks(),
            r@.in_c_locale(),
    {
        match self.list_installed(replies) {
            Step::Act(action) => Step::Act(action),
            Step::Fail(error) => Step::Fail(error),
            Step::Done(listing) => session::find(
                session::take_called(listing.packages, name),
                name,
            ),
        }
    }
}

/// The shims are listed in the order of their names: every executable file but
/// the runtime itself.
pub proof fn shims_are_listed_in_order(files: Seq<Seq<char>>)
    ensures
        order::in_order(list_shims_spec(files), |a: Seq<char>, b: Seq<char>| a.before(b)),
        forall|name: Seq<char>|
            list_shims_spec(files).contains(name) <==> files.contains(name) && name != "deno"@,
{
    let less = |a: Seq<char>, b: Seq<char>| a.before(b);
    let others = rows::keep(files, |name: Seq<char>| name != "deno"@);
    order::texts_are_ordered();
    order::sorting_orders(others, less);
    rows::kept_are_exactly(files, |name: Seq<char>| name != "deno"@);
    assert forall|name: Seq<char>|
        list_shims_spec(files).contains(name) <==> files.contains(name) && name != "deno"@ by {
        broadcast use vstd::seq_lib::group_to_multiset_ensures;

        assert(list_shims_spec(files).to_multiset().count(name) == others.to_multiset().count(name));
        assert(others.contains(name) <==> files.contains(name) && name != "deno"@);
    }
}

} // verus!
