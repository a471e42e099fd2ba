//! The binaries that `cargo install` builds.
//!
//! cargo never asks, and has no dry run. An upgrade is an install, which
//! builds again what is out of date; crates that came from elsewhere than the
//! registry are left out when everything is upgraded, so that their source is
//! not switched. The registry's search and the list of what is installed
//! describe a crate together.

use vstd::prelude::*;

use crate::command::{self, Cmd, CmdView, Plan};
use crate::detect::{self, Detection};
use crate::error::{self, Error, ErrorView};
use crate::package::{Details, InstallState, Package, PackageView};
use crate::profile::{basic_capabilities, Capabilities, ManagerKind, Profile};
use crate::request::{OpContext, PackageRequest, RequestView};
use crate::rows;
use crate::session::{self, Finished, Listing, Reply, ReplyView, Step, StepView};
use crate::text::{self, Deep, Text};

verus! {

/// Finds the manager and sets it up.
#[derive(Clone, Copy, Debug)]
pub struct Factory;

/// The factory of this backend.
pub fn factory() -> (r: Factory)
    ensures
        r == Factory,
{
    Factory
}

impl Factory {
    pub fn id(&self) -> (r: &'static str)
        ensures
            r@ == "cargo"@,
    {
        "cargo"
    }

    /// The programs to look for, in the order of preference.
    pub fn programs(&self) -> (r: Vec<&'static str>)
        ensures
            r@.deep() == seq!["cargo"@],
    {
        let mut out: Vec<&'static str> = Vec::new();
        out.push("cargo");
        assert(out@.deep() =~= seq!["cargo"@]);
        out
    }

    /// Whether the backend can be used, given where each program was found.
    pub fn detect(&self, found: &[Option<String>]) -> (r: Detection)
        ensures
            r@ == detect::detected(found@, "`cargo` not found on PATH"@),
    {
        detect::detect(found, "`cargo` not found on PATH")
    }

    /// The manager, given where each program was found.
    pub fn create(&self, found: &[Option<String>]) -> (r: Result<Manager, Error>)
        ensures
            match r {
                Ok(manager) => detect::required(found@, "cargo"@) == Ok::<Seq<char>, ErrorView>(
                    manager.program@,
                ),
                Err(error) => detect::required(found@, "cargo"@) == Err::<Seq<char>, ErrorView>(
                    error@,
                ),
            },
    {
        match detect::require(found, "cargo") {
            Ok(program) => Ok(Manager { program }),
            Err(error) => Err(error),
        }
    }
}

/// The manager, driving `program`.
#[derive(Debug)]
pub struct Manager {
    pub program: String,
}

impl Manager {
    /// What the manager says of itself.
    pub fn profile(&self) -> (r: Profile)
        ensures
            r.id@ == "cargo"@,
            r.display_name@ == "Cargo"@,
            r.kind == ManagerKind::Language,
            r.database_id@ == "cargo"@,
            r.capabilities == (Capabilities {
                search: true,
                upgrade: true,
                pin_version: true,
                ..Capabilities::basic()
            }),
            r.elevates == false,
    {
        Profile {
            id: "cargo",
            display_name: "Cargo",
            kind: ManagerKind::Language,
            database_id: "cargo",
            capabilities: Capabilities {
                search: true,
                upgrade: true,
                pin_version: true,
                ..basic_capabilities()
            },
            elevates: false,
        }
    }
}

/// A package as cargo describes it.
#[derive(Debug)]
pub struct CargoPackage {
    pub name: String,
    pub version: Option<String>,
    pub latest_version: Option<String>,
    pub description: Option<String>,
    /// Where a crate came from, if not from the registry.
    pub origin: Option<String>,
    pub state: InstallState,
}

impl View for CargoPackage {
    type V = PackageView;

    open spec fn view(&self) -> PackageView {
        PackageView {
            name: self.name@,
            version: self.version.deep(),
            latest_version: self.latest_version.deep(),
            description: self.description.deep(),
            origin: self.origin.deep(),
            state: self.state,
            ..PackageView::blank()
        }
    }
}

impl Default for CargoPackage {
    fn default() -> (r: CargoPackage)
        ensures
            r@ == PackageView::blank(),
    {
        CargoPackage {
            name: String::new(),
            version: None,
            latest_version: None,
            description: None,
            origin: None,
            state: InstallState::Unknown,
        }
    }
}

impl Package for CargoPackage {
    open spec fn manager_id() -> Seq<char> {
        "cargo"@
    }

    fn manager(&self) -> (r: &'static str) {
        "cargo"
    }

    fn details(&self) -> (r: Details<'_>) {
        Details {
            version: self.version.as_ref(),
            latest_version: self.latest_version.as_ref(),
            description: self.description.as_ref(),
            origin: self.origin.as_ref(),
            ..Details::of(&self.name, self.state)
        }
    }
}

/// `name@version` when the request pins one, the bare name otherwise.
pub fn spec(request: &PackageRequest) -> (r: String)
    ensures
        r@ == request@.pinned("@"@),
{
    request.pinned("@")
}

/// An installed crate: `name vX.Y.Z[ (source)]:`, not indented; its binaries
/// follow below.
pub open spec fn header_spec(line: Seq<char>) -> Option<PackageView> {
    if line.begins_blank() {
        None
    } else {
        match line.without_suffix(":"@) {
            None => None,
            Some(header) => {
                let parts = header.words();
                let origin = match header.cut(" ("@) {
                    Some((_, rest)) => rest.without_suffix(")"@),
                    None => None,
                };
                if parts.len() < 2 {
                    None
                } else {
                    match parts[1].without_prefix("v"@) {
                        None => None,
                        Some(version) => Some(
                            PackageView {
                                origin,
                                ..PackageView::versioned(
                                    parts[0],
                                    Some(version),
                                    InstallState::Installed,
                                )
                            },
                        ),
                    }
                }
            },
        }
    }
}

pub fn header(line: &[char]) -> (r: Option<CargoPackage>)
    ensures
        r.deep() == header_spec(line@),
{
    if text::begins_blank(line) {
        return None;
    }
    let header = match text::without_suffix(line, ":") {
        None => {
            return None;
        },
        Some(header) => header,
    };
    let parts = text::words(header);
    let origin = match text::cut(header, " (") {
        Some((_, rest)) => text::without_suffix(rest, ")"),
        None => None,
    };
    if parts.len() < 2 {
        return None;
    }
    match text::without_prefix(parts[1], "v") {
        None => None,
        Some(version) => Some(
            CargoPackage {
                name: text::string(parts[0]),
                version: Some(text::string(version)),
                origin: text::maybe_string(origin),
                state: InstallState::Installed,
                ..CargoPackage::default()
            },
        ),
    }
}

/// The crates that `cargo install --list` prints.
pub open spec fn parse_install_list_spec(stdout: Seq<char>) -> Seq<PackageView> {
    rows::select(stdout.lines(), |line: Seq<char>| header_spec(line))
}

pub fn parse_install_list(stdout: &str) -> (r: Vec<CargoPackage>)
    ensures
        r@.deep() == parse_install_list_spec(stdout@),
        crate::package::all_named(r@.deep()),
        crate::package::all_in(r@.deep(), InstallState::Installed),
{
    proof {
        rows::selected_have(
            stdout@.lines(),
            |line: Seq<char>| header_spec(line),
            |p: PackageView| p.name.len() > 0 && p.state == InstallState::Installed,
        );
    }
    rows::select_rows(stdout, header, Ghost(|line: Seq<char>| header_spec(line)))
}

/// A crate of the registry: `name = "1.2.3"    # description`.
pub open spec fn search_row_spec(line: Seq<char>) -> Option<PackageView> {
    let (spec, description) = match line.cut("#"@) {
        Some((spec, description)) => (spec, description.trim().filled()),
        None => (line, None),
    };
    match spec.cut("="@) {
        None => None,
        Some((name, version)) => if name.trim().len() == 0 || name.trim().has_blank() {
            None
        } else {
            match version.trim().without_prefix("\""@) {
                None => None,
                Some(rest) => match rest.without_suffix("\""@) {
                    None => None,
                    Some(version) => Some(
                        PackageView {
                            description,
                            ..PackageView::versioned(
                                name.trim(),
                                Some(version),
                                InstallState::Available,
                            )
                        },
                    ),
                },
            }
        },
    }
}

fn search_row(line: &[char]) -> (r: Option<CargoPackage>)
    ensures
        r.deep() == search_row_spec(line@),
{
    let (spec, description) = match text::cut(line, "#") {
        Some((spec, description)) => (spec, text::filled(text::trim(description))),
        None => (line, None),
    };
    let (name, version) = match text::cut(spec, "=") {
        None => {
            return None;
        },
        Some(pair) => pair,
    };
    let name = text::trim(name);
    if name.len() == 0 || text::has_blank(name) {
        return None;
    }
    match text::without_prefix(text::trim(version), "\"") {
        None => None,
        Some(rest) => match text::without_suffix(rest, "\"") {
            None => None,
            Some(version) => Some(
                CargoPackage {
                    name: text::string(name),
                    version: Some(text::string(version)),
                    description: text::maybe_string(description),
                    state: InstallState::Available,
                    ..CargoPackage::default()
                },
            ),
        },
    }
}

/// The crates that `cargo search` prints.
pub open spec fn parse_search_spec(stdout: Seq<char>) -> Seq<PackageView> {
    rows::select(stdout.lines(), |line: Seq<char>| search_row_spec(line))
}

pub fn parse_search(stdout: &str) -> (r: Vec<CargoPackage>)
    ensures
        r@.deep() == parse_search_spec(stdout@),
        crate::package::all_named(r@.deep()),
        crate::package::all_in(r@.deep(), InstallState::Available),
{
    proof {
        rows::selected_have(
            stdout@.lines(),
            |line: Seq<char>| search_row_spec(line),
            |p: PackageView| p.name.len() > 0 && p.state == InstallState::Available,
        );
    }
    rows::select_rows(stdout, search_row, Ghost(|line: Seq<char>| search_row_spec(line)))
}

/// A crate of the registry, completed by the installed one of the same name.
pub open spec fn merge_spec(package: PackageView, installed: Option<PackageView>) -> PackageView {
    match installed {
        None => package,
        Some(local) => if local.version is Some && local.version != package.version {
            PackageView {
                version: local.version,
                latest_version: package.version,
                state: InstallState::Installed,
                ..package
            }
        } else {
            PackageView { state: InstallState::Installed, ..package }
        },
    }
}

pub fn merge(package: CargoPackage, installed: Option<CargoPackage>) -> (r: CargoPackage)
    ensures
        r@ == merge_spec(package@, installed.deep()),
{
    match installed {
        None => package,
        Some(local) => {
            if local.version.is_some() && !text::equal_maybe(&local.version, &package.version) {
                CargoPackage {
                    version: local.version,
                    latest_version: package.version,
                    state: InstallState::Installed,
                    ..package
                }
            } else {
                CargoPackage { state: InstallState::Installed, ..package }
            }
        },
    }
}

/// The names of the crates that came from the registry.
pub open spec fn registry_names_spec(packages: Seq<PackageView>) -> Seq<Seq<char>> {
    rows::keep(packages, |p: PackageView| p.origin is None).map_values(|p: PackageView| p.name)
}

pub fn registry_names(packages: Vec<CargoPackage>) -> (r: Vec<String>)
    ensures
        r@.deep() == registry_names_spec(packages@.deep()),
{
    let from_registry = |p: &CargoPackage| -> (b: bool)
        ensures
            b == (p@.origin is None),
        { p.origin.is_none() };
    let kept = rows::retain(
        packages,
        from_registry,
        Ghost(|p: PackageView| p.origin is None),
    );
    let name = |p: &CargoPackage| -> (s: String)
        ensures
            s@ == p@.name,
        { text::copy(&p.name) };
    rows::map_refs(&kept, name, Ghost(|p: PackageView| p.name))
}

impl Manager {
    pub fn install(&self, packages: &[PackageRequest], ctx: &OpContext) -> (r: Plan)
        ensures
            command::plan(r) == if ctx.dry_run {
                Err(ErrorView::Other("cargo: install has no dry-run mode"@))
            } else {
                command::just(
                    CmdView::new(self.program@).arg("install"@).pinned(packages@.deep(), "@"@),
                )
            },
            command::all_elevated(command::plan(r), false),
            ctx.dry_run ==> r is Err,
    {
        if ctx.dry_run {
            return Err(error::other("cargo: install has no dry-run mode"));
        }
        Ok(
            command::one(
                Cmd::new(&self.program).arg("install").pinned(packages, "@"),
            ),
        )
    }

    pub fn remove(&self, packages: &[PackageRequest], ctx: &OpContext) -> (r: Plan)
        ensures
            command::plan(r) == if ctx.dry_run {
                Err(ErrorView::Other("cargo: remove has no dry-run mode"@))
            } else {
                command::just(
                    CmdView::new(self.program@).arg("uninstall"@).names(packages@.deep()),
                )
            },
            command::all_elevated(command::plan(r), false),
            ctx.dry_run ==> r is Err,
    {
        if ctx.dry_run {
            return Err(error::other("cargo: remove has no dry-run mode"));
        }
        Ok(
            command::one(
                Cmd::new(&self.program).arg("uninstall").names(packages),
            ),
        )
    }

    pub fn list_installed(&self, replies: &[Reply]) -> (r: Step<Listing<CargoPackage>>)
        ensures
            r@ == session::listed(
                CmdView::query(self.program@).arg("install"@).arg("--list"@),
                replies@.deep(),
                |out: Seq<char>| parse_install_list_spec(out),
            ),
            r@.only_looks(),
            r@.in_c_locale(),
    {
        session::list(
            Cmd::query(&self.program).arg("install").arg("--list"),
            replies,
            parse_install_list,
            Ghost(|out: Seq<char>| parse_install_list_spec(out)),
        )
    }

    pub fn search(&self, query: &str, replies: &[Reply]) -> (r: Step<Listing<CargoPackage>>)
        ensures
            r@ == session::listed(
                CmdView::query(self.program@).arg("search"@).arg(query@),
                replies@.deep(),
                |out: Seq<char>| parse_search_spec(out),
            ),
            r@.only_looks(),
            r@.in_c_locale(),
    {
        session::list(
            Cmd::query(&self.program).arg("search").arg(query),
            replies,
            parse_search,
            Ghost(|out: Seq<char>| parse_search_spec(out)),
        )
    }

    /// The registry describes a crate; the list tells what is installed.
    pub open spec fn info_spec(self, name: Seq<char>, replies: Seq<ReplyView>) -> StepView<
        PackageView,
    > {
        if replies.len() == 0 {
            session::ask(CmdView::query(self.program@).arg("search"@).arg(name))
        } else if !replies[0].success {
            StepView::Fail(replies[0].failure())
        } else {
            match session::called(parse_search_spec(replies[0].stdout), name) {
                None => StepView::Fail(ErrorView::NotFound(name)),
                Some(package) => if replies.len() == 1 {
                    session::ask(CmdView::query(self.program@).arg("install"@).arg("--list"@))
                } else if !replies[1].success {
                    StepView::Fail(replies[1].failure())
                } else {
                    StepView::Done(
                        merge_spec(
                            package,
                            session::called(
                                parse_install_list_spec(replies[1].stdout),
                                package.name,
                            ),
                        ),
                    )
                },
            }
        }
    }

    pub fn info(&self, name: &str, replies: &[Reply]) -> (r: Step<CargoPackage>)
        ensures
            r@ == self.info_spec(name@, replies@.deep()),
            r@.only_looks(),
            r@.in_c_locale(),
    {
        if replies.len() == 0 {
            return session::query(Cmd::query(&self.program).arg("search").arg(name));
        }
        assert(replies@.deep()[0] == replies@[0]@);
        if !replies[0].success {
            return Step::Fail(replies[0].failure());
        }
        let package = match session::take_called(parse_search(&replies[0].stdout), name) {
            None => {
                return Step::Fail(error::not_found(name));
            },
            Some(package) => package,
        };
        if replies.len() == 1 {
            return session::query(Cmd::query(&self.program).arg("install").arg("--list"));
        }
        assert(replies@.deep()[1] == replies@[1]@);
        if !replies[1].success {
            return Step::Fail(replies[1].failure());
        }
        let installed = session::take_called(
            parse_install_list(&replies[1].stdout),
            &package.name,
        );
        Step::Done(merge(package, installed))
    }

    /// Installs again what is named, or else every crate of the registry.
    pub open spec fn upgrade_spec(
        self,
        packages: Seq<RequestView>,
        ctx: OpContext,
        replies: Seq<ReplyView>,
    ) -> StepView<()> {
        if ctx.dry_run {
            StepView::Fail(ErrorView::Other("cargo: upgrade has no dry-run mode"@))
        } else if packages.len() > 0 {
            session::running(
                CmdView::new(self.program@).arg("install"@).pinned(packages, "@"@),
                replies,
            ).whole()
        } else if replies.len() == 0 {
            session::ask(CmdView::query(self.program@).arg("install"@).arg("--list"@))
        } else if !replies[0].success {
            StepView::Fail(replies[0].failure())
        } else {
            let targets = registry_names_spec(parse_install_list_spec(replies[0].stdout));
            if targets.len() == 0 {
                StepView::Done(())
            } else {
                session::running(
                    CmdView::new(self.program@).arg("install"@).args(targets),
                    replies.skip(1),
                ).whole()
            }
        }
    }

    pub fn upgrade(
        &self,
        packages: &[PackageRequest],
        ctx: &OpContext,
        replies: &[Reply],
    ) -> (r: Step<Finished>)
        ensures
            r@ == self.upgrade_spec(packages@.deep(), *ctx, replies@.deep()),
            ctx.dry_run ==> r is Fail,
            r@.unprivileged(),
    {
        if ctx.dry_run {
            return Step::Fail(error::other("cargo: upgrade has no dry-run mode"));
        }
        if packages.len() > 0 {
            return session::run(
                Cmd::new(&self.program).arg("install").pinned(packages, "@"),
                replies,
            ).whole();
        }
        if replies.len() == 0 {
            return session::query(Cmd::query(&self.program).arg("install").arg("--list"));
        }
        let reply = session::next(replies);
        if !reply.success {
            return Step::Fail(reply.failure());
        }
        let targets = registry_names(parse_install_list(&reply.stdout));
        if targets.len() == 0 {
            return Step::Done(Finished);
        }
        session::run(
            Cmd::new(&self.program).arg("install").args(&targets),
            session::later(replies),
        ).whole()
    }
}

/// Of everything that is installed only what came from the registry is
/// installed anew.
pub proof fn other_sources_stay(packages: Seq<PackageView>, name: Seq<char>)
    ensures
        registry_names_spec(packages).contains(name) <==> exists|i: int|
            0 <= i < packages.len() && (#[trigger] packages[i]).name == name
                && packages[i].origin is None,
{
    let kept = rows::keep(packages, |p: PackageView| p.origin is None);
    rows::kept_are_exactly(packages, |p: PackageView| p.origin is None);
    let names = registry_names_spec(packages);
    if names.contains(name) {
        let i = choose|i: int| 0 <= i < names.len() && names[i] == name;
        assert(kept.contains(kept[i]));
        assert(packages.contains(kept[i]));
        let j = choose|j: int| 0 <= j < packages.len() && packages[j] == kept[i];
        assert(packages[j].name == name && packages[j].origin is None);
    }
    if exists|i: int|
        0 <= i < packages.len() && (#[trigger] packages[i]).name == name && packages[i].origin is None {
        let j = choose|i: int|
            0 <= i < packages.len() && (#[trigger] packages[i]).name == name
                && packages[i].origin is None;
        assert(packages.contains(packages[j]));
        assert(kept.contains(packages[j]));
        let i = choose|i: int| 0 <= i < kept.len() && kept[i] == packages[j];
        assert(names[i] == name);
    }
}

} // verus!
