//! Bun's global packages.
//!
//! The inventory is a tree that `bun pm ls -g` prints. Bun never asks. Only
//! `bun add` has a dry run. The registry is not asked, so only what is
//! installed is described.

use vstd::prelude::*;

use crate::command::{self, Cmd, CmdView, Plan};
use crate::detect::{self, Detection};
use crate::error::{self, Error, ErrorView};
use crate::package::{Details, InstallState, Package, PackageView};
use crate::profile::{basic_capabilities, Capabilities, ManagerKind, Profile};
use crate::request::{OpContext, PackageRequest, RequestView};
use crate::rows;
use crate::session::{self, Listing, Reply, Step};
use crate::text::{self, chars, Deep, Text};
use crate::version;

verus! {

broadcast use command::group_carries;

/// Finds the manager and sets it up.
#[derive(Clone, Copy, Debug)]
pub struct Factory;

/// The factory of this backend.
pub fn factory() -> (r: Factory)
    ensures
        r == Factory,
{
    Factory
}

impl Factory {
    pub fn id(&self) -> (r: &'static str)
        ensures
            r@ == "bun"@,
    {
        "bun"
    }

    /// The programs to look for, in the order of preference.
    pub fn programs(&self) -> (r: Vec<&'static str>)
        ensures
            r@.deep() == seq!["bun"@],
    {
        let mut out: Vec<&'static str> = Vec::new();
        out.push("bun");
        assert(out@.deep() =~= seq!["bun"@]);
        out
    }

    /// Whether the backend can be used, given where each program was found.
    pub fn detect(&self, found: &[Option<String>]) -> (r: Detection)
        ensures
            r@ == detect::detected(found@, "`bun` not found on PATH"@),
    {
        detect::detect(found, "`bun` not found on PATH")
    }

    /// The manager, given where each program was found.
    pub fn create(&self, found: &[Option<String>]) -> (r: Result<Manager, Error>)
        ensures
            match r {
                Ok(manager) => detect::required(found@, "bun"@) == Ok::<Seq<char>, ErrorView>(
                    manager.program@,
                ),
                Err(error) => detect::required(found@, "bun"@) == Err::<Seq<char>, ErrorView>(
                    error@,
                ),
            },
    {
        match detect::require(found, "bun") {
            Ok(program) => Ok(Manager { program }),
            Err(error) => Err(error),
        }
    }
}

/// The manager, driving `program`.
#[derive(Debug)]
pub struct Manager {
    pub program: String,
}

impl Manager {
    /// What the manager says of itself.
    pub fn profile(&self) -> (r: Profile)
        ensures
            r.id@ == "bun"@,
            r.display_name@ == "Bun"@,
            r.kind == ManagerKind::Language,
            r.database_id@ == "node"@,
            r.capabilities == (Capabilities {
                upgrade: true,
                pin_version: true,
                ..Capabilities::basic()
            }),
            r.elevates == false,
    {
        Profile {
            id: "bun",
            display_name: "Bun",
            kind: ManagerKind::Language,
            database_id: "node",
            capabilities: Capabilities { upgrade: true, pin_version: true, ..basic_capabilities() },
            elevates: false,
        }
    }
}

/// A package as bun describes it.
#[derive(Debug)]
pub struct BunPackage {
    pub name: String,
    pub version: Option<String>,
    pub state: InstallState,
}

impl View for BunPackage {
    type V = PackageView;

    open spec fn view(&self) -> PackageView {
        PackageView {
            name: self.name@,
            version: self.version.deep(),
            state: self.state,
            ..PackageView::blank()
        }
    }
}

impl Package for BunPackage {
    open spec fn manager_id() -> Seq<char> {
        "bun"@
    }

    fn manager(&self) -> (r: &'static str) {
        "bun"
    }

    fn details(&self) -> (r: Details<'_>) {
        Details {
            version: self.version.as_ref(),
            ..Details::of(&self.name, self.state)
        }
    }
}

/// `name@version` when the request pins one, the bare name otherwise.
pub fn spec(request: &PackageRequest) -> (r: String)
    ensures
        r@ == request@.pinned("@"@),
{
    request.pinned("@")
}

/// `name@version` parted at the first `@` that is not the first character: a
/// scope begins with one.
pub open spec fn split_spec_spec(spec: Seq<char>) -> (Seq<char>, Option<Seq<char>>) {
    match spec.skip(1).cut("@"@) {
        Some((name, version)) => if spec.len() > 0 {
            (seq![spec[0]] + name, version.filled())
        } else {
            (spec, None)
        },
        None => (spec, None),
    }
}

pub fn split_spec(spec: &str) -> (r: (String, Option<String>))
    ensures
        version::name_and_version(r) == split_spec_spec(spec@),
{
    parted(&chars(spec))
}

fn parted(spec: &[char]) -> (r: (String, Option<String>))
    ensures
        version::name_and_version(r) == split_spec_spec(spec@),
{
    if spec.len() == 0 {
        return (text::string(spec), None);
    }
    match text::cut(text::tail(spec, 1), "@") {
        Some((name, version)) => (
            text::cat(&text::string(text::head(spec, 1)), &text::string(name)),
            text::maybe_string(text::filled(version)),
        ),
        None => (text::string(spec), None),
    }
}

/// What an upgrade asks for: the newest version, unless one is pinned.
pub open spec fn latest_spec(request: RequestView) -> Seq<char> {
    match request.version {
        Some(version) => request.name + "@"@ + version,
        None => request.name + "@latest"@,
    }
}

fn latest(request: &PackageRequest) -> (r: String)
    ensures
        r@ == latest_spec(request@),
{
    match &request.version {
        Some(version) => text::cat3(&request.name, "@", version),
        None => text::cat(&request.name, "@latest"),
    }
}

/// A package: what stands behind a branch of the tree.
pub open spec fn tree_row_spec(line: Seq<char>) -> Option<PackageView> {
    match line.cut("── "@) {
        None => None,
        Some((_, entry)) => {
            let (name, version) = split_spec_spec(entry.trim());
            Some(PackageView::versioned(name, version, InstallState::Installed))
        },
    }
}

fn tree_row(line: &[char]) -> (r: Option<BunPackage>)
    ensures
        r.deep() == tree_row_spec(line@),
{
    match text::cut(line, "── ") {
        None => None,
        Some((_, entry)) => {
            let (name, version) = parted(text::trim(entry));
            Some(BunPackage { name, version, state: InstallState::Installed })
        },
    }
}

/// The packages in the tree that `bun pm ls` prints.
pub open spec fn parse_tree_spec(stdout: Seq<char>) -> Seq<PackageView> {
    rows::select(stdout.lines(), |line: Seq<char>| tree_row_spec(line))
}

pub fn parse_tree(stdout: &str) -> (r: Vec<BunPackage>)
    ensures
        r@.deep() == parse_tree_spec(stdout@),
        crate::package::all_in(r@.deep(), InstallState::Installed),
{
    proof {
        rows::selected_have(
            stdout@.lines(),
            |line: Seq<char>| tree_row_spec(line),
            |p: PackageView| p.state == InstallState::Installed,
        );
    }
    rows::select_rows(stdout, tree_row, Ghost(|line: Seq<char>| tree_row_spec(line)))
}

impl Manager {
    pub fn install(&self, packages: &[PackageRequest], ctx: &OpContext) -> (r: Plan)
        ensures
            command::plan(r) == command::just(
                CmdView::new(self.program@).arg("add"@).arg("-g"@)
                    .flag(ctx.dry_run, "--dry-run"@).pinned(packages@.deep(), "@"@),
            ),
            command::all_elevated(command::plan(r), false),
            ctx.dry_run ==> command::all_carry(command::plan(r), "--dry-run"@),
    {
        Ok(
            command::one(
                Cmd::new(&self.program).arg("add").arg("-g").flag(ctx.dry_run, "--dry-run")
                    .pinned(packages, "@"),
            ),
        )
    }

    pub fn remove(&self, packages: &[PackageRequest], ctx: &OpContext) -> (r: Plan)
        ensures
            command::plan(r) == if ctx.dry_run {
                Err(ErrorView::Other("bun: remove has no dry-run mode"@))
            } else {
                command::just(
                    CmdView::new(self.program@).arg("remove"@).arg("-g"@)
                        .names(packages@.deep()),
                )
            },
            command::all_elevated(command::plan(r), false),
            ctx.dry_run ==> r is Err,
    {
        if ctx.dry_run {
            return Err(error::other("bun: remove has no dry-run mode"));
        }
        Ok(
            command::one(
                Cmd::new(&self.program).arg("remove").arg("-g").names(packages),
            ),
        )
    }

    /// Without names everything is upgraded, within the ranges that were asked
    /// for; a named package moves to its newest version.
    pub fn upgrade(&self, packages: &[PackageRequest], ctx: &OpContext) -> (r: Plan)
        ensures
            command::plan(r) == (if packages@.len() > 0 {
                command::just(
                    CmdView::new(self.program@).arg("add"@).arg("-g"@).flag(
                        ctx.dry_run,
                        "--dry-run"@,
                    ).args(packages@.deep().map_values(|q: RequestView| latest_spec(q))),
                )
            } else if ctx.dry_run {
                Err(ErrorView::Other("bun: upgrade has no dry-run mode"@))
            } else {
                command::just(CmdView::new(self.program@).arg("update"@).arg("-g"@))
            }),
            command::all_elevated(command::plan(r), false),
            ctx.dry_run ==> command::all_carry(command::plan(r), "--dry-run"@),
    {
        if packages.len() > 0 {
            return Ok(
                command::one(
                    Cmd::new(&self.program).arg("add").arg("-g").flag(
                        ctx.dry_run,
                        "--dry-run",
                    ).each(packages, latest, Ghost(|q: RequestView| latest_spec(q))),
                ),
            );
        }
        if ctx.dry_run {
            return Err(error::other("bun: upgrade has no dry-run mode"));
        }
        Ok(command::one(Cmd::new(&self.program).arg("update").arg("-g")))
    }

    pub fn list_installed(&self, replies: &[Reply]) -> (r: Step<Listing<BunPackage>>)
        ensures
            r@ == session::listed(
                CmdView::query(self.program@).arg("pm"@).arg("ls"@).arg("-g"@),
                replies@.deep(),
                |out: Seq<char>| parse_tree_spec(out),
            ),
            r@.only_looks(),
            r@.in_c_locale(),
    {
        session::list(
            Cmd::query(&self.program).arg("pm").arg("ls").arg("-g"),
            replies,
            parse_tree,
            Ghost(|out: Seq<char>| parse_tree_spec(out)),
        )
    }

    pub fn info(&self, name: &str, replies: &[Reply]) -> (r: Step<BunPackage>)
        ensures
            r@ == session::picked(
                CmdView::query(self.program@).arg("pm"@).arg("ls"@).arg("-g"@),
                replies@.deep(),
                name@,
                |out: Seq<char>| parse_tree_spec(out),
            ),
            r@.only_looks(),
            r@.in_c_locale(),
    {
        session::pick(
            Cmd::query(&self.program).arg("pm").arg("ls").arg("-g"),
            replies,
            name,
            parse_tree,
            Ghost(|out: Seq<char>| parse_tree_spec(out)),
        )
    }
}

/// A pinned request is taken apart into what it was put together from, where
/// no `@` but a leading one belongs to the name.
pub proof fn pinning_is_lossless(request: RequestView)
    requires
        request.name.len() > 0,
        !request.name.skip(1).contains('@'),
        request.version matches Some(version) ==> version.len() > 0,
    ensures
        split_spec_spec(request.pinned("@"@)) == (request.name, request.version),
{
    reveal_strlit("@");
    assert("@"@ =~= seq!['@']);
    let name = request.name;
    match request.version {
        Some(version) => {
            let text = request.pinned("@"@);
            assert(text.skip(1) =~= name.skip(1) + seq!['@'] + version);
            text::first_cut_undoes(name.skip(1), '@', version);
            assert(seq![name[0]] + name.skip(1) =~= name);
        },
        None => {
            text::lemma_cut_needs(name.skip(1), '@');
        },
    }
}

} // verus!
