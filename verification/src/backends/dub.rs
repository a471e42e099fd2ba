//! dub, the package cache of D.
//!
//! `dub fetch` puts a release into the user's cache and `dub remove` takes it
//! out; several versions live side by side. `dub upgrade` is for projects, so
//! an upgrade fetches the newest release. A package is described by what the
//! registry and the cache say of it. dub never asks, has no dry run, and takes
//! one package at a time.

use vstd::prelude::*;

use crate::command::{self, Cmd, CmdView, Plan};
use crate::detect::{self, Detection};
use crate::error::{self, Error, ErrorView};
use crate::order;
use crate::package::{Details, InstallState, Package, PackageView};
use crate::profile::{basic_capabilities, Capabilities, ManagerKind, Profile};
use crate::request::{OpContext, PackageRequest, RequestView};
use crate::rows;
use crate::session::{self, Action, ActionView, Finished, Listing, Reply, ReplyView, Step, StepView};
use crate::text::{self, Deep, Text};

verus! {

/// Finds the manager and sets it up.
#[derive(Clone, Copy, Debug)]
pub struct Factory;

/// The factory of this backend.
pub fn factory() -> (r: Factory)
    ensures
        r == Factory,
{
    Factory
}

impl Factory {
    pub fn id(&self) -> (r: &'static str)
        ensures
            r@ == "dub"@,
    {
        "dub"
    }

    /// The programs to look for, in the order of preference.
    pub fn programs(&self) -> (r: Vec<&'static str>)
        ensures
            r@.deep() == seq!["dub"@],
    {
        let mut out: Vec<&'static str> = Vec::new();
        out.push("dub");
        assert(out@.deep() =~= seq!["dub"@]);
        out
    }

    /// Whether the backend can be used, given where each program was found.
    pub fn detect(&self, found: &[Option<String>]) -> (r: Detection)
        ensures
            r@ == detect::detected(found@, "`dub` not found on PATH"@),
    {
        detect::detect(found, "`dub` not found on PATH")
    }

    /// The manager, given where each program was found.
    pub fn create(&self, found: &[Option<String>]) -> (r: Result<Manager, Error>)
        ensures
            match r {
                Ok(manager) => detect::required(found@, "dub"@) == Ok::<Seq<char>, ErrorView>(
                    manager.program@,
                ),
                Err(error) => detect::required(found@, "dub"@) == Err::<Seq<char>, ErrorView>(
                    error@,
                ),
            },
    {
        match detect::require(found, "dub") {
            Ok(program) => Ok(Manager { program }),
            Err(error) => Err(error),
        }
    }
}

/// The manager, driving `program`.
#[derive(Debug)]
pub struct Manager {
    pub program: String,
}

impl Manager {
    /// What the manager says of itself.
    pub fn profile(&self) -> (r: Profile)
        ensures
            r.id@ == "dub"@,
            r.display_name@ == "dub"@,
            r.kind == ManagerKind::Language,
            r.database_id@ == "dub"@,
            r.capabilities == (Capabilities {
                search: true,
                upgrade: true,
                pin_version: true,
                ..Capabilities::basic()
            }),
            r.elevates == false,
    {
        Profile {
            id: "dub",
            display_name: "dub",
            kind: ManagerKind::Language,
            database_id: "dub",
            capabilities: Capabilities {
                search: true,
                upgrade: true,
                pin_version: true,
                ..basic_capabilities()
            },
            elevates: false,
        }
    }
}

/// A package as dub describes it.
#[derive(Debug)]
pub struct DubPackage {
    pub name: String,
    pub version: Option<String>,
    pub latest_version: Option<String>,
    pub description: Option<String>,
    pub state: InstallState,
}

impl View for DubPackage {
    type V = PackageView;

    open spec fn view(&self) -> PackageView {
        PackageView {
            name: self.name@,
            version: self.version.deep(),
            latest_version: self.latest_version.deep(),
            description: self.description.deep(),
            state: self.state,
            ..PackageView::blank()
        }
    }
}

impl Default for DubPackage {
    fn default() -> (r: DubPackage)
        ensures
            r@ == PackageView::blank(),
    {
        DubPackage {
            name: String::new(),
            version: None,
            latest_version: None,
            description: None,
            state: InstallState::Unknown,
        }
    }
}

impl Package for DubPackage {
    open spec fn manager_id() -> Seq<char> {
        "dub"@
    }

    fn manager(&self) -> (r: &'static str) {
        "dub"
    }

    fn details(&self) -> (r: Details<'_>) {
        Details {
            version: self.version.as_ref(),
            latest_version: self.latest_version.as_ref(),
            description: self.description.as_ref(),
            ..Details::of(&self.name, self.state)
        }
    }
}

/// `name@version` when the request pins one, the bare name otherwise.
pub fn spec(request: &PackageRequest) -> (r: String)
    ensures
        r@ == request@.pinned("@"@),
{
    request.pinned("@")
}

/// A package in the cache: an indented `name version: path`.
pub open spec fn list_row_spec(line: Seq<char>) -> Option<PackageView> {
    if !line.begins_blank() {
        None
    } else {
        match line.cut(":"@) {
            None => None,
            Some((package, _)) => {
                let words = package.words();
                if words.len() < 2 {
                    None
                } else {
                    Some(
                        PackageView::versioned(
                            words[0],
                            Some(words[1]),
                            InstallState::Installed,
                        ),
                    )
                }
            },
        }
    }
}

fn list_row(line: &[char]) -> (r: Option<DubPackage>)
    ensures
        r.deep() == list_row_spec(line@),
{
    if !text::begins_blank(line) {
        return None;
    }
    match text::cut(line, ":") {
        None => None,
        Some((package, _)) => {
            let words = text::words(package);
            if words.len() < 2 {
                return None;
            }
            Some(
                DubPackage {
                    name: text::string(words[0]),
                    version: Some(text::string(words[1])),
                    state: InstallState::Installed,
                    ..DubPackage::default()
                },
            )
        },
    }
}

/// The packages that `dub list` prints below its banner.
pub open spec fn parse_list_spec(stdout: Seq<char>) -> Seq<PackageView> {
    rows::select(stdout.lines(), |line: Seq<char>| list_row_spec(line))
}

pub fn parse_list(stdout: &str) -> (r: Vec<DubPackage>)
    ensures
        r@.deep() == parse_list_spec(stdout@),
        crate::package::all_named(r@.deep()),
        crate::package::all_in(r@.deep(), InstallState::Installed),
{
    proof {
        rows::selected_have(
            stdout@.lines(),
            |line: Seq<char>| list_row_spec(line),
            |p: PackageView| p.name.len() > 0 && p.state == InstallState::Installed,
        );
    }
    rows::select_rows(stdout, list_row, Ghost(|line: Seq<char>| list_row_spec(line)))
}

/// A package of the registry: `name (version): description`. A branch has a
/// tilde for a version.
pub open spec fn search_row_spec(line: Seq<char>) -> Option<PackageView> {
    match line.trim().cut(" ("@) {
        None => None,
        Some((name, rest)) => if name.len() == 0 || name.has_blank() {
            None
        } else {
            match rest.cut(")"@) {
                None => None,
                Some((version, rest)) => if !version.begins_digit() && !version.begins("~"@) {
                    None
                } else {
                    Some(
                        PackageView {
                            description: rest.trim().trim_front(":-"@).trim_start().filled(),
                            ..PackageView::versioned(
                                name,
                                Some(version),
                                InstallState::Available,
                            )
                        },
                    )
                },
            }
        },
    }
}

fn search_row(line: &[char]) -> (r: Option<DubPackage>)
    ensures
        r.deep() == search_row_spec(line@),
{
    let (name, rest) = match text::cut(text::trim(line), " (") {
        None => {
            return None;
        },
        Some(pair) => pair,
    };
    if name.len() == 0 || text::has_blank(name) {
        return None;
    }
    match text::cut(rest, ")") {
        None => None,
        Some((version, rest)) => {
            if !text::begins_digit(version) && !text::begins(version, "~") {
                return None;
            }
            let description = text::trim_start(text::trim_front(text::trim(rest), ":-"));
            Some(
                DubPackage {
                    name: text::string(name),
                    version: Some(text::string(version)),
                    description: text::maybe_string(text::filled(description)),
                    state: InstallState::Available,
                    ..DubPackage::default()
                },
            )
        },
    }
}

/// The packages that `dub search` prints.
pub open spec fn parse_search_spec(stdout: Seq<char>) -> Seq<PackageView> {
    rows::select(stdout.lines(), |line: Seq<char>| search_row_spec(line))
}

pub fn parse_search(stdout: &str) -> (r: Vec<DubPackage>)
    ensures
        r@.deep() == parse_search_spec(stdout@),
        crate::package::all_named(r@.deep()),
        crate::package::all_in(r@.deep(), InstallState::Available),
{
    proof {
        rows::selected_have(
            stdout@.lines(),
            |line: Seq<char>| search_row_spec(line),
            |p: PackageView| p.name.len() > 0 && p.state == InstallState::Available,
        );
    }
    rows::select_rows(stdout, search_row, Ghost(|line: Seq<char>| search_row_spec(line)))
}

/// The last version of a package in the cache.
pub open spec fn cached_spec(packages: Seq<PackageView>, name: Seq<char>) -> Option<PackageView> {
    rows::last(packages, |p: PackageView| p.name == name)
}

pub fn cached(packages: Vec<DubPackage>, name: &str) -> (r: Option<DubPackage>)
    ensures
        r.deep() == cached_spec(packages@.deep(), name@),
{
    let same = |p: &DubPackage| -> (b: bool)
        ensures
            b == (p@.name == name@),
        { text::equal(&p.name, name) };
    rows::take_last(packages, same, Ghost(|p: PackageView| p.name == name@))
}

/// What the registry and the cache say of a package.
pub open spec fn merge_spec(
    remote: Option<PackageView>,
    installed: Option<PackageView>,
) -> Option<PackageView> {
    match (remote, installed) {
        (Some(package), Some(local)) => Some(
            if local.version is Some && local.version != package.version {
                PackageView {
                    version: local.version,
                    latest_version: package.version,
                    state: InstallState::Installed,
                    ..package
                }
            } else {
                PackageView { state: InstallState::Installed, ..package }
            },
        ),
        (Some(package), None) => Some(package),
        (None, installed) => installed,
    }
}

pub fn merge(remote: Option<DubPackage>, installed: Option<DubPackage>) -> (r: Option<DubPackage>)
    ensures
        r.deep() == merge_spec(remote.deep(), installed.deep()),
{
    match (remote, installed) {
        (Some(package), Some(local)) => {
            if local.version.is_some() && !text::equal_maybe(&local.version, &package.version) {
                Some(
                    DubPackage {
                        version: local.version,
                        latest_version: package.version,
                        state: InstallState::Installed,
                        ..package
                    },
                )
            } else {
                Some(DubPackage { state: InstallState::Installed, ..package })
            }
        },
        (Some(package), None) => Some(package),
        (None, installed) => installed,
    }
}

/// The names of packages, each one once and in order.
pub open spec fn names_spec(packages: Seq<PackageView>) -> Seq<Seq<char>> {
    order::sorted_set(packages.map_values(|p: PackageView| p.name))
}

pub fn names(packages: &Vec<DubPackage>) -> (r: Vec<String>)
    ensures
        r@.deep() == names_spec(packages@.deep()),
{
    let name = |p: &DubPackage| -> (s: String)
        ensures
            s@ == p@.name,
        { text::copy(&p.name) };
    order::sort_set(rows::map_refs(packages, name, Ghost(|p: PackageView| p.name)))
}

impl Manager {
    pub fn install(&self, packages: &[PackageRequest], ctx: &OpContext) -> (r: Plan)
        ensures
            command::plan(r) == if ctx.dry_run {
                Err(ErrorView::Other("dub: install has no dry-run mode"@))
            } else {
                Ok(
                    packages@.deep().map_values(
                        |q: RequestView|
                            CmdView::new(self.program@).arg("fetch"@).arg(q.pinned("@"@)),
                    ),
                )
            },
            command::all_elevated(command::plan(r), false),
            ctx.dry_run ==> r is Err,
    {
        if ctx.dry_run {
            return Err(error::other("dub: install has no dry-run mode"));
        }
        let each = |q: &PackageRequest| -> (c: Cmd)
            ensures
                c@ == CmdView::new(self.program@).arg("fetch"@).arg(q@.pinned("@"@)),
            { Cmd::new(&self.program).arg("fetch").arg(&q.pinned("@")) };
        Ok(
            command::one_each(
                packages,
                each,
                Ghost(
                    |q: RequestView|
                        CmdView::new(self.program@).arg("fetch"@).arg(q.pinned("@"@)),
                ),
            ),
        )
    }

    pub fn remove(&self, packages: &[PackageRequest], ctx: &OpContext) -> (r: Plan)
        ensures
            command::plan(r) == if ctx.dry_run {
                Err(ErrorView::Other("dub: remove has no dry-run mode"@))
            } else {
                Ok(
                    packages@.deep().map_values(
                        |q: RequestView|
                            CmdView::new(self.program@).arg("remove"@).arg(q.name),
                    ),
                )
            },
            command::all_elevated(command::plan(r), false),
            ctx.dry_run ==> r is Err,
    {
        if ctx.dry_run {
            return Err(error::other("dub: remove has no dry-run mode"));
        }
        let each = |q: &PackageRequest| -> (c: Cmd)
            ensures
                c@ == CmdView::new(self.program@).arg("remove"@).arg(q@.name),
            { Cmd::new(&self.program).arg("remove").arg(&q.name) };
        Ok(
            command::one_each(
                packages,
                each,
                Ghost(
                    |q: RequestView|
                        CmdView::new(self.program@).arg("remove"@).arg(q.name),
                ),
            ),
        )
    }

    pub fn list_installed(&self, replies: &[Reply]) -> (r: Step<Listing<DubPackage>>)
        ensures
            r@ == session::listed(
                CmdView::query(self.program@).arg("list"@),
                replies@.deep(),
                |out: Seq<char>| parse_list_spec(out),
            ),
            r@.only_looks(),
            r@.in_c_locale(),
    {
        session::list(
            Cmd::query(&self.program).arg("list"),
            replies,
            parse_list,
            Ghost(|out: Seq<char>| parse_list_spec(out)),
        )
    }

    /// What the output says counts, whatever the exit code: dub fails when
    /// nothing is found.
    pub fn search(&self, query: &str, replies: &[Reply]) -> (r: Step<Listing<DubPackage>>)
        ensures
            r@ == (if replies@.len() == 0 {
                session::ask(CmdView::query(self.program@).arg("search"@).arg(query@))
            } else {
                StepView::Done(parse_search_spec(replies@[0].stdout@))
            }),
            r@.only_looks(),
            r@.in_c_locale(),
    {
        if replies.len() == 0 {
            return session::query(Cmd::query(&self.program).arg("search").arg(query));
        }
        Step::Done(Listing { packages: parse_search(&replies[0].stdout) })
    }

    /// The registry may be out of reach; the cache still answers.
    pub fn info(&self, name: &str, replies: &[Reply]) -> (r: Step<DubPackage>)
        ensures
            r@ == (if replies@.len() == 0 {
                StepView::Act(
                    ActionView::Probe(
                        CmdView::query(self.program@).arg("search"@).arg(name@),
                    ),
                )
            } else if replies@.len() == 1 {
                session::ask(CmdView::query(self.program@).arg("list"@))
            } else if !replies@[1].success {
                StepView::Fail(replies@[1]@.failure())
            } else {
                session::found(
                    merge_spec(
                        session::called(parse_search_spec(replies@[0].stdout@), name@),
                        cached_spec(parse_list_spec(replies@[1].stdout@), name@),
                    ),
                    name@,
                )
            }),
            r@.only_looks(),
            r@.in_c_locale(),
    {
        if replies.len() == 0 {
            return Step::Act(
                Action::Probe(Cmd::query(&self.program).arg("search").arg(name)),
            );
        }
        if replies.len() == 1 {
            return session::query(Cmd::query(&self.program).arg("list"));
        }
        if !replies[1].success {
            return Step::Fail(replies[1].failure());
        }
        let remote = session::take_called(parse_search(&replies[0].stdout), name);
        let installed = cached(parse_list(&replies[1].stdout), name);
        session::find(merge(remote, installed), name)
    }

    /// What fetches a package.
    pub open spec fn fetch_spec(self, target: Seq<char>) -> CmdView {
        CmdView::new(self.program@).arg("fetch"@).arg(target)
    }

    fn fetch(&self, target: &str) -> (r: Cmd)
        ensures
            r@ == self.fetch_spec(target@),
    {
        Cmd::new(&self.program).arg("fetch").arg(target)
    }

    /// Fetches the newest release of what is named, or else of everything in
    /// the cache.
    pub open spec fn upgrade_spec(
        self,
        packages: Seq<RequestView>,
        ctx: OpContext,
        replies: Seq<ReplyView>,
    ) -> StepView<()> {
        if ctx.dry_run {
            StepView::Fail(ErrorView::Other("dub: upgrade has no dry-run mode"@))
        } else if packages.len() > 0 {
            session::running_all(
                packages.map_values(|q: RequestView| self.fetch_spec(q.pinned("@"@))),
                replies,
            ).whole()
        } else if replies.len() == 0 {
            session::ask(CmdView::query(self.program@).arg("list"@))
        } else if !replies[0].success {
            StepView::Fail(replies[0].failure())
        } else {
            session::running_all(
                names_spec(parse_list_spec(replies[0].stdout)).map_values(
                    |name: Seq<char>| self.fetch_spec(name),
                ),
                replies.skip(1),
            ).whole()
        }
    }

    pub fn upgrade(
        &self,
        packages: &[PackageRequest],
        ctx: &OpContext,
        replies: &[Reply],
    ) -> (r: Step<Finished>)
        ensures
            r@ == self.upgrade_spec(packages@.deep(), *ctx, replies@.deep()),
            ctx.dry_run ==> r is Fail,
            r@.unprivileged(),
    {
        if ctx.dry_run {
            return Step::Fail(error::other("dub: upgrade has no dry-run mode"));
        }
        if packages.len() > 0 {
            let each = |q: &PackageRequest| -> (c: Cmd)
                ensures
                    c@ == self.fetch_spec(q@.pinned("@"@)),
                { self.fetch(&spec(q)) };
            return session::run_all(
                command::one_each(
                    packages,
                    each,
                    Ghost(|q: RequestView| self.fetch_spec(q.pinned("@"@))),
                ),
                replies,
            ).whole();
        }
        if replies.len() == 0 {
            return session::query(Cmd::query(&self.program).arg("list"));
        }
        let reply = session::next(replies);
        if !reply.success {
            return Step::Fail(reply.failure());
        }
        let again = |name: &String| -> (c: Cmd)
            ensures
                c@ == self.fetch_spec(name@),
            { self.fetch(name) };
        session::run_all(
            rows::map_refs(
                &names(&parse_list(&reply.stdout)),
                again,
                Ghost(|name: Seq<char>| self.fetch_spec(name)),
            ),
            session::later(replies),
        ).whole()
    }
}

} // verus!
