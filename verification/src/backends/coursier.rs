//! The applications of Coursier.
//!
//! `cs list` prints bare names, so no versions are known. Coursier never asks,
//! and has no dry run. A search completes coordinates of Maven. An application
//! is moved to a version by installing it so.

use vstd::prelude::*;

use crate::command::{self, Cmd, CmdView, Plan};
use crate::detect::{self, Detection};
use crate::error::{self, Error, ErrorView};
use crate::package::{Details, InstallState, Package, PackageView};
use crate::profile::{basic_capabilities, Capabilities, ManagerKind, Profile};
use crate::request::{OpContext, PackageRequest, RequestView};
use crate::rows;
use crate::session::{self, Listing, Reply, Step};
use crate::text::{self, Deep, Text};

verus! {

/// Finds the manager and sets it up.
#[derive(Clone, Copy, Debug)]
pub struct Factory;

/// The factory of this backend.
pub fn factory() -> (r: Factory)
    ensures
        r == Factory,
{
    Factory
}

impl Factory {
    pub fn id(&self) -> (r: &'static str)
        ensures
            r@ == "coursier"@,
    {
        "coursier"
    }

    /// The programs to look for, in the order of preference.
    pub fn programs(&self) -> (r: Vec<&'static str>)
        ensures
            r@.deep() == seq!["cs"@, "coursier"@],
    {
        let mut out: Vec<&'static str> = Vec::new();
        out.push("cs");
        out.push("coursier");
        assert(out@.deep() =~= seq!["cs"@, "coursier"@]);
        out
    }

    /// Whether the backend can be used, given where each program was found.
    pub fn detect(&self, found: &[Option<String>]) -> (r: Detection)
        ensures
            r@ == detect::detected(found@, "none of [\"cs\", \"coursier\"] found on PATH"@),
    {
        detect::detect(found, "none of [\"cs\", \"coursier\"] found on PATH")
    }

    /// The manager, given where each program was found.
    pub fn create(&self, found: &[Option<String>]) -> (r: Result<Manager, Error>)
        ensures
            match r {
                Ok(manager) => detect::required(found@, "coursier"@) == Ok::<Seq<char>, ErrorView>(
                    manager.program@,
                ),
                Err(error) => detect::required(found@, "coursier"@) == Err::<Seq<char>, ErrorView>(
                    error@,
                ),
            },
    {
        match detect::require(found, "coursier") {
            Ok(program) => Ok(Manager { program }),
            Err(error) => Err(error),
        }
    }
}

/// The manager, driving `program`.
#[derive(Debug)]
pub struct Manager {
    pub program: String,
}

impl Manager {
    /// What the manager says of itself.
    pub fn profile(&self) -> (r: Profile)
        ensures
            r.id@ == "coursier"@,
            r.display_name@ == "Coursier"@,
            r.kind == ManagerKind::Language,
            r.database_id@ == "jvm"@,
            r.capabilities == (Capabilities {
                search: true,
                upgrade: true,
                pin_version: true,
                ..Capabilities::basic()
            }),
            r.elevates == false,
    {
        Profile {
            id: "coursier",
            display_name: "Coursier",
            kind: ManagerKind::Language,
            database_id: "jvm",
            capabilities: Capabilities {
                search: true,
                upgrade: true,
                pin_version: true,
                ..basic_capabilities()
            },
            elevates: false,
        }
    }
}

/// An application as coursier describes it: a bare name.
#[derive(Debug)]
pub struct CoursierPackage {
    pub name: String,
    pub state: InstallState,
}

impl View for CoursierPackage {
    type V = PackageView;

    open spec fn view(&self) -> PackageView {
        PackageView::named(self.name@, self.state)
    }
}

impl Package for CoursierPackage {
    open spec fn manager_id() -> Seq<char> {
        "coursier"@
    }

    fn manager(&self) -> (r: &'static str) {
        "coursier"
    }

    fn details(&self) -> (r: Details<'_>) {
        Details::of(&self.name, self.state)
    }
}

/// `name:version` when the request pins one, the bare name otherwise.
pub fn spec(request: &PackageRequest) -> (r: String)
    ensures
        r@ == request@.pinned(":"@),
{
    request.pinned(":")
}

/// A name in a line of its own.
pub open spec fn name_row_spec(line: Seq<char>, state: InstallState) -> Option<PackageView> {
    if line.trim().len() == 0 {
        None
    } else {
        Some(PackageView::named(line.trim(), state))
    }
}

fn name_row(line: &[char], state: InstallState) -> (r: Option<CoursierPackage>)
    ensures
        r.deep() == name_row_spec(line@, state),
{
    let name = text::trim(line);
    if name.len() == 0 {
        None
    } else {
        Some(CoursierPackage { name: text::string(name), state })
    }
}

/// The names that a command prints, one in each line.
pub open spec fn parse_names_spec(stdout: Seq<char>, state: InstallState) -> Seq<PackageView> {
    rows::select(stdout.lines(), |line: Seq<char>| name_row_spec(line, state))
}

pub fn parse_names(stdout: &str, state: InstallState) -> (r: Vec<CoursierPackage>)
    ensures
        r@.deep() == parse_names_spec(stdout@, state),
        crate::package::all_named(r@.deep()),
        crate::package::all_in(r@.deep(), state),
{
    proof {
        rows::selected_have(
            stdout@.lines(),
            |line: Seq<char>| name_row_spec(line, state),
            |p: PackageView| p.name.len() > 0 && p.state == state,
        );
    }
    let row = |line: &[char]| -> (o: Option<CoursierPackage>)
        ensures
            o.deep() == name_row_spec(line@, state),
        { name_row(line, state) };
    rows::select_rows(stdout, row, Ghost(|line: Seq<char>| name_row_spec(line, state)))
}

/// The applications that `cs list` prints.
pub open spec fn parse_list_spec(stdout: Seq<char>) -> Seq<PackageView> {
    parse_names_spec(stdout, InstallState::Installed)
}

pub fn parse_list(stdout: &str) -> (r: Vec<CoursierPackage>)
    ensures
        r@.deep() == parse_list_spec(stdout@),
{
    parse_names(stdout, InstallState::Installed)
}

/// The coordinates that `cs complete-dep` prints.
pub open spec fn parse_completions_spec(stdout: Seq<char>) -> Seq<PackageView> {
    parse_names_spec(stdout, InstallState::Available)
}

pub fn parse_completions(stdout: &str) -> (r: Vec<CoursierPackage>)
    ensures
        r@.deep() == parse_completions_spec(stdout@),
{
    parse_names(stdout, InstallState::Available)
}

/// The requests that name a version, or those that do not.
pub open spec fn sorted_out_spec(packages: Seq<RequestView>, pinned: bool) -> Seq<RequestView> {
    rows::keep(packages, |q: RequestView| (q.version is Some) == pinned)
}

/// The requests that name a version, or those that do not, as arguments.
pub open spec fn targets_spec(packages: Seq<RequestView>, pinned: bool) -> Seq<Seq<char>> {
    sorted_out_spec(packages, pinned).map_values(|q: RequestView| q.pinned(":"@))
}

fn targets(packages: &[PackageRequest], pinned: bool) -> (r: Vec<String>)
    ensures
        r@.deep() == targets_spec(packages@.deep(), pinned),
{
    let ghost all = packages@.deep();
    let ghost keeps = |q: RequestView| (q.version is Some) == pinned;
    let ghost writes = |q: RequestView| q.pinned(":"@);
    let mut out: Vec<String> = rows::empty();
    let mut i: usize = 0;
    assert(rows::keep(all.take(0), keeps).map_values(writes) =~= seq![]);
    while i < packages.len()
        invariant
            i <= packages.len(),
            all == packages@.deep(),
            keeps == (|q: RequestView| (q.version is Some) == pinned),
            writes == (|q: RequestView| q.pinned(":"@)),
            out@.deep() == rows::keep(all.take(i as int), keeps).map_values(writes),
        decreases packages.len() - i,
    {
        assert(all.take(i + 1).drop_last() =~= all.take(i as int));
        assert(all.take(i + 1).last() == packages@[i as int]@);
        let ghost kept = rows::keep(all.take(i as int), keeps);
        if packages[i].version.is_some() == pinned {
            assert(kept.push(packages@[i as int]@).map_values(writes) =~= kept.map_values(
                writes,
            ).push(writes(packages@[i as int]@)));
            rows::push(&mut out, spec(&packages[i]));
        }
        i += 1;
    }
    assert(all.take(all.len() as int) =~= all);
    out
}

impl Manager {
    pub fn install(&self, packages: &[PackageRequest], ctx: &OpContext) -> (r: Plan)
        ensures
            command::plan(r) == if ctx.dry_run {
                Err(ErrorView::Other("coursier: install has no dry-run mode"@))
            } else {
                command::just(
                    CmdView::new(self.program@).arg("install"@).pinned(packages@.deep(), ":"@),
                )
            },
            command::all_elevated(command::plan(r), false),
            ctx.dry_run ==> r is Err,
    {
        if ctx.dry_run {
            return Err(error::other("coursier: install has no dry-run mode"));
        }
        Ok(
            command::one(
                Cmd::new(&self.program).arg("install").pinned(packages, ":"),
            ),
        )
    }

    pub fn remove(&self, packages: &[PackageRequest], ctx: &OpContext) -> (r: Plan)
        ensures
            command::plan(r) == if ctx.dry_run {
                Err(ErrorView::Other("coursier: uninstall has no dry-run mode"@))
            } else {
                command::just(
                    CmdView::new(self.program@).arg("uninstall"@).names(packages@.deep()),
                )
            },
            command::all_elevated(command::plan(r), false),
            ctx.dry_run ==> r is Err,
    {
        if ctx.dry_run {
            return Err(error::other("coursier: uninstall has no dry-run mode"));
        }
        Ok(
            command::one(
                Cmd::new(&self.program).arg("uninstall").names(packages),
            ),
        )
    }

    /// A command for those without a version, and one that installs those with
    /// one, as far as there are any.
    pub open spec fn upgrade_named_spec(self, packages: Seq<RequestView>) -> Seq<CmdView> {
        let unpinned = targets_spec(packages, false);
        let pinned = targets_spec(packages, true);
        (if unpinned.len() > 0 {
            seq![CmdView::new(self.program@).arg("update"@).args(unpinned)]
        } else {
            seq![]
        }) + (if pinned.len() > 0 {
            seq![CmdView::new(self.program@).arg("install"@).args(pinned)]
        } else {
            seq![]
        })
    }

    /// Without names everything is upgraded.
    pub fn upgrade(&self, packages: &[PackageRequest], ctx: &OpContext) -> (r: Plan)
        ensures
            command::plan(r) == (if ctx.dry_run {
                Err(ErrorView::Other("coursier: upgrade has no dry-run mode"@))
            } else if packages@.len() == 0 {
                command::just(CmdView::new(self.program@).arg("update"@))
            } else {
                Ok(self.upgrade_named_spec(packages@.deep()))
            }),
            command::all_elevated(command::plan(r), false),
            ctx.dry_run ==> r is Err,
            command::plan(r) == (
                if ctx.dry_run {
                    Err(ErrorView::Other("coursier: upgrade has no dry-run mode"@))
                } else if packages@.len() == 0 {
                    command::just(CmdView::new(self.program@).arg("update"@))
                } else {
                    Ok(
                        (
                            {
                                let unpinned = targets_spec(packages@.deep(), false);
                                let pinned = targets_spec(packages@.deep(), true);
                                (
                                    if unpinned.len() > 0 {
                                        seq![
                                            CmdView::new(
                                                self.program@,
                                            ).arg("update"@).args(unpinned),
                                        ]
                                    } else { seq![] }
                                ) + (
                                    if pinned.len() > 0 {
                                        seq![
                                            CmdView::new(
                                                self.program@,
                                            ).arg("install"@).args(pinned),
                                        ]
                                    } else { seq![] }
                                )
                            }
                        ),
                    )
                }
            ),
    {
        if ctx.dry_run {
            return Err(error::other("coursier: upgrade has no dry-run mode"));
        }
        if packages.len() == 0 {
            return Ok(command::one(Cmd::new(&self.program).arg("update")));
        }
        let unpinned = targets(packages, false);
        let pinned = targets(packages, true);
        let mut out: Vec<Cmd> = rows::empty();
        if unpinned.len() > 0 {
            rows::push(&mut out, Cmd::new(&self.program).arg("update").args(&unpinned));
        }
        if pinned.len() > 0 {
            rows::push(&mut out, Cmd::new(&self.program).arg("install").args(&pinned));
        }
        assert(out@.deep() =~= self.upgrade_named_spec(packages@.deep()));
        Ok(out)
    }

    pub fn list_installed(&self, replies: &[Reply]) -> (r: Step<Listing<CoursierPackage>>)
        ensures
            r@ == session::listed(
                CmdView::query(self.program@).arg("list"@),
                replies@.deep(),
                |out: Seq<char>| parse_list_spec(out),
            ),
            r@.only_looks(),
            r@.in_c_locale(),
    {
        session::list(
            Cmd::query(&self.program).arg("list"),
            replies,
            parse_list,
            Ghost(|out: Seq<char>| parse_list_spec(out)),
        )
    }

    pub fn info(&self, name: &str, replies: &[Reply]) -> (r: Step<CoursierPackage>)
        ensures
            r@ == session::picked(
                CmdView::query(self.program@).arg("list"@),
                replies@.deep(),
                name@,
                |out: Seq<char>| parse_list_spec(out),
            ),
            r@.only_looks(),
            r@.in_c_locale(),
    {
        session::pick(
            Cmd::query(&self.program).arg("list"),
            replies,
            name,
            parse_list,
            Ghost(|out: Seq<char>| parse_list_spec(out)),
        )
    }

    pub fn search(&self, query: &str, replies: &[Reply]) -> (r: Step<Listing<CoursierPackage>>)
        ensures
            r@ == session::listed(
                CmdView::query(self.program@).arg("complete-dep"@).arg(query@),
                replies@.deep(),
                |out: Seq<char>| parse_completions_spec(out),
            ),
            r@.only_looks(),
            r@.in_c_locale(),
    {
        session::list(
            Cmd::query(&self.program).arg("complete-dep").arg(query),
            replies,
            parse_completions,
            Ghost(|out: Seq<char>| parse_completions_spec(out)),
        )
    }
}

} // verus!
