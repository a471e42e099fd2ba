//! .NET's global tools.
//!
//! Packages of projects are left to projects. The tables are read from the
//! dashed line below their heading on, in a fixed language and without the
//! banner of a first run, which has dashed lines of its own. dotnet never
//! asks and has no dry run. Everything is upgraded by one command, or where
//! that is not known yet by one for each tool. What is outdated is found out
//! by asking the registry for each tool.

use vstd::prelude::*;

use crate::command::{self, Cmd, CmdView, Plan};
use crate::detect::{self, Detection};
use crate::error::{self, Error, ErrorView};
use crate::package::{Details, InstallState, Package, PackageView};
use crate::profile::{basic_capabilities, Capabilities, ManagerKind, Profile};
use crate::request::{OpContext, PackageRequest, RequestView};
use crate::rows::{self, Scanner};
use crate::session::{
    self, Action, ActionView, Finished, Listing, Part, PartView, Reply, ReplyView, Step, StepView,
};
use crate::text::{self, chars, Deep, Pieces, Text};

verus! {

/// Finds the manager and sets it up.
#[derive(Clone, Copy, Debug)]
pub struct Factory;

/// The factory of this backend.
pub fn factory() -> (r: Factory)
    ensures
        r == Factory,
{
    Factory
}

impl Factory {
    pub fn id(&self) -> (r: &'static str)
        ensures
            r@ == "dotnet"@,
    {
        "dotnet"
    }

    /// The programs to look for, in the order of preference.
    pub fn programs(&self) -> (r: Vec<&'static str>)
        ensures
            r@.deep() == seq!["dotnet"@],
    {
        let mut out: Vec<&'static str> = Vec::new();
        out.push("dotnet");
        assert(out@.deep() =~= seq!["dotnet"@]);
        out
    }

    /// Whether the backend can be used, given where each program was found.
    pub fn detect(&self, found: &[Option<String>]) -> (r: Detection)
        ensures
            r@ == detect::detected(found@, "`dotnet` not found on PATH"@),
    {
        detect::detect(found, "`dotnet` not found on PATH")
    }

    /// The manager, given where each program was found.
    pub fn create(&self, found: &[Option<String>]) -> (r: Result<Manager, Error>)
        ensures
            match r {
                Ok(manager) => detect::required(found@, "dotnet"@) == Ok::<Seq<char>, ErrorView>(
                    manager.program@,
                ),
                Err(error) => detect::required(found@, "dotnet"@) == Err::<Seq<char>, ErrorView>(
                    error@,
                ),
            },
    {
        match detect::require(found, "dotnet") {
            Ok(program) => Ok(Manager { program }),
            Err(error) => Err(error),
        }
    }
}

/// The manager, driving `program`.
#[derive(Debug)]
pub struct Manager {
    pub program: String,
}

impl Manager {
    /// What the manager says of itself.
    pub fn profile(&self) -> (r: Profile)
        ensures
            r.id@ == "dotnet"@,
            r.display_name@ == "NuGet (dotnet)"@,
            r.kind == ManagerKind::Language,
            r.database_id@ == "nuget"@,
            r.capabilities == (Capabilities {
                search: true,
                upgrade: true,
                list_outdated: true,
                pin_version: true,
                ..Capabilities::basic()
            }),
            r.elevates == false,
    {
        Profile {
            id: "dotnet",
            display_name: "NuGet (dotnet)",
            kind: ManagerKind::Language,
            database_id: "nuget",
            capabilities: Capabilities {
                search: true,
                upgrade: true,
                list_outdated: true,
                pin_version: true,
                ..basic_capabilities()
            },
            elevates: false,
        }
    }
}

/// A global tool as dotnet describes it.
#[derive(Debug)]
pub struct DotnetPackage {
    pub name: String,
    pub version: Option<String>,
    pub latest_version: Option<String>,
    pub description: Option<String>,
    pub state: InstallState,
}

impl View for DotnetPackage {
    type V = PackageView;

    open spec fn view(&self) -> PackageView {
        PackageView {
            name: self.name@,
            version: self.version.deep(),
            latest_version: self.latest_version.deep(),
            description: self.description.deep(),
            state: self.state,
            ..PackageView::blank()
        }
    }
}

impl Default for DotnetPackage {
    fn default() -> (r: DotnetPackage)
        ensures
            r@ == PackageView::blank(),
    {
        DotnetPackage {
            name: String::new(),
            version: None,
            latest_version: None,
            description: None,
            state: InstallState::Unknown,
        }
    }
}

impl Package for DotnetPackage {
    open spec fn manager_id() -> Seq<char> {
        "dotnet"@
    }

    fn manager(&self) -> (r: &'static str) {
        "dotnet"
    }

    fn details(&self) -> (r: Details<'_>) {
        Details {
            version: self.version.as_ref(),
            latest_version: self.latest_version.as_ref(),
            description: self.description.as_ref(),
            ..Details::of(&self.name, self.state)
        }
    }
}

/// Whether a line consists of dashes.
pub open spec fn is_separator_spec(line: Seq<char>) -> bool {
    line.trim().len() > 0 && line.trim().only("-"@)
}

pub fn is_separator(line: &str) -> (r: bool)
    ensures
        r == is_separator_spec(line@),
{
    separates(&chars(line))
}

fn separates(line: &[char]) -> (r: bool)
    ensures
        r == is_separator_spec(line@),
{
    let line = text::trim(line);
    line.len() > 0 && text::only(line, "-")
}

/// A tool in a table: its id and a version.
pub open spec fn table_row_spec(line: Seq<char>, state: InstallState) -> Option<PackageView> {
    match line.words().nth(0) {
        None => None,
        Some(name) => Some(PackageView::versioned(name, line.words().nth(1), state)),
    }
}

fn table_row(line: &[char], state: InstallState) -> (r: Option<DotnetPackage>)
    ensures
        r.deep() == table_row_spec(line@, state),
{
    let words = text::words(line);
    match text::nth(&words, 0) {
        None => None,
        Some(name) => Some(
            DotnetPackage {
                name: text::string(name),
                version: text::maybe_string(text::nth(&words, 1)),
                state,
                ..DotnetPackage::default()
            },
        ),
    }
}

/// The lines below the first dashed line.
pub open spec fn table_spec(lines: Seq<Seq<char>>) -> Seq<Seq<char>> {
    let at = rows::index(lines, |line: Seq<char>| is_separator_spec(line));
    if at < 0 {
        seq![]
    } else {
        text::rest_of(lines, at + 1)
    }
}

/// The tools in the table that `dotnet tool list` and `dotnet tool search`
/// print.
pub open spec fn parse_table_spec(stdout: Seq<char>, state: InstallState) -> Seq<PackageView> {
    rows::select(
        table_spec(stdout.lines()),
        |line: Seq<char>| table_row_spec(line, state),
    )
}

pub fn parse_table(stdout: &str, state: InstallState) -> (r: Vec<DotnetPackage>)
    ensures
        r@.deep() == parse_table_spec(stdout@, state),
{
    let t = chars(stdout);
    let lines = text::lines(&t);
    let dashed = |line: &&[char]| -> (b: bool)
        ensures
            b == is_separator_spec(line@),
        { separates(*line) };
    let at = match rows::position(
        &lines,
        dashed,
        Ghost(|line: Seq<char>| is_separator_spec(line)),
    ) {
        None => {
            return rows::empty();
        },
        Some(at) => at,
    };
    assert(at + 1 <= lines.len());
    let row = |line: &[char]| -> (o: Option<DotnetPackage>)
        ensures
            o.deep() == table_row_spec(line@, state),
        { table_row(line, state) };
    rows::select_lines(
        text::rest(&lines, at + 1),
        row,
        Ghost(|line: Seq<char>| table_row_spec(line, state)),
    )
}

/// The reading of `dotnet tool search --detail`.
struct DetailScan {
    packages: Vec<DotnetPackage>,
    expecting: bool,
}

/// The model of the reading of `dotnet tool search --detail`.
pub struct DetailScanView {
    pub packages: Seq<PackageView>,
    pub expecting: bool,
}

impl DetailScanView {
    pub open spec fn start() -> DetailScanView {
        DetailScanView {
            packages: seq![],
            expecting: false,
        }
    }
}

/// A tool after one of its fields, `key: value`.
pub open spec fn field_spec(package: PackageView, line: Seq<char>) -> PackageView {
    match line.cut(":"@) {
        None => package,
        Some((key, value)) => {
            let key = key.trim();
            let value = value.trim();
            if value.len() == 0 {
                package
            } else if key == "Latest Version"@ {
                PackageView { version: Some(value), ..package }
            } else if key == "Description"@ || (key == "Summary"@ && package.description is None) {
                PackageView { description: Some(value), ..package }
            } else {
                package
            }
        },
    }
}

fn field(package: DotnetPackage, line: &[char]) -> (r: DotnetPackage)
    ensures
        r@ == field_spec(package@, line@),
{
    match text::cut(line, ":") {
        None => package,
        Some((key, value)) => {
            let key = text::trim(key);
            let value = text::trim(value);
            if value.len() == 0 {
                package
            } else if text::is(key, "Latest Version") {
                DotnetPackage { version: Some(text::string(value)), ..package }
            } else if text::is(key, "Description") || (text::is(key, "Summary")
                && package.description.is_none()) {
                DotnetPackage { description: Some(text::string(value)), ..package }
            } else {
                package
            }
        },
    }
}

/// The reading of `dotnet tool search --detail` after one more line: behind a
/// dashed line comes an id, then its fields; indented lines are passed over.
pub open spec fn detail_next_spec(state: DetailScanView, line: Seq<char>) -> DetailScanView {
    if is_separator_spec(line) {
        DetailScanView { expecting: true, ..state }
    } else if state.expecting {
        if line.trim().len() == 0 {
            state
        } else {
            DetailScanView {
                packages: state.packages.push(
                    PackageView::named(line.trim(), InstallState::Available),
                ),
                expecting: false,
            }
        }
    } else if line.begins_blank() || state.packages.len() == 0 {
        state
    } else {
        DetailScanView {
            packages: state.packages.drop_last().push(field_spec(state.packages.last(), line)),
            ..state
        }
    }
}

impl Scanner for DetailScan {
    type State = DetailScanView;

    closed spec fn state(&self) -> DetailScanView {
        DetailScanView {
            packages: self.packages@.deep(),
            expecting: self.expecting,
        }
    }

    open spec fn next(state: DetailScanView, line: Seq<char>) -> DetailScanView {
        detail_next_spec(state, line)
    }

    fn feed(&mut self, line: &[char]) {
        if separates(line) {
            self.expecting = true;
        } else if self.expecting {
            let id = text::trim(line);
            if id.len() > 0 {
                rows::push(
                    &mut self.packages,
                    DotnetPackage {
                        name: text::string(id),
                        state: InstallState::Available,
                        ..DotnetPackage::default()
                    },
                );
                self.expecting = false;
            }
        } else if !text::begins_blank(line) {
            if let Some(package) = rows::pop(&mut self.packages) {
                rows::push(&mut self.packages, field(package, line));
            }
        }
    }
}

/// The tools that `dotnet tool search --detail` describes.
pub open spec fn parse_detail_spec(stdout: Seq<char>) -> Seq<PackageView> {
    rows::scan(
        DetailScanView::start(),
        stdout.lines(),
        |state: DetailScanView, line: Seq<char>| detail_next_spec(state, line),
    ).packages
}

pub fn parse_detail(stdout: &str) -> (r: Vec<DotnetPackage>)
    ensures
        r@.deep() == parse_detail_spec(stdout@),
{
    let start = DetailScan {
        packages: Vec::new(),
        expecting: false,
    };
    assert(start.packages@.deep() =~= seq![]);
    rows::scan_output(
        start,
        stdout,
        Ghost(|state: DetailScanView, line: Seq<char>| detail_next_spec(state, line)),
    ).packages
}

/// What the registry and the list of installed tools say of a tool.
pub open spec fn merge_spec(
    found: Option<PackageView>,
    installed: Option<PackageView>,
) -> Option<PackageView> {
    match (found, installed) {
        (Some(package), Some(local)) => Some(
            if local.version is Some && local.version != package.version {
                PackageView {
                    version: local.version,
                    latest_version: package.version,
                    state: InstallState::Upgradable,
                    ..package
                }
            } else {
                PackageView {
                    version: local.version,
                    state: InstallState::Installed,
                    ..package
                }
            },
        ),
        (Some(package), None) => Some(package),
        (None, installed) => installed,
    }
}

pub fn merge(found: Option<DotnetPackage>, installed: Option<DotnetPackage>) -> (r: Option<
    DotnetPackage,
>)
    ensures
        r.deep() == merge_spec(found.deep(), installed.deep()),
{
    match (found, installed) {
        (Some(package), Some(local)) => {
            if local.version.is_some() && !text::equal_maybe(&local.version, &package.version) {
                Some(
                    DotnetPackage {
                        version: local.version,
                        latest_version: package.version,
                        state: InstallState::Upgradable,
                        ..package
                    },
                )
            } else {
                Some(
                    DotnetPackage {
                        version: local.version,
                        state: InstallState::Installed,
                        ..package
                    },
                )
            }
        },
        (Some(package), None) => Some(package),
        (None, installed) => installed,
    }
}

/// An installed tool with the version of the registry, if that is another.
pub open spec fn newer_spec(installed: PackageView, found: Seq<PackageView>) -> Option<
    PackageView,
> {
    match session::called_but_case(found, installed.name) {
        None => None,
        Some(latest) => if latest.version is None || latest.version == installed.version {
            None
        } else {
            Some(
                PackageView {
                    latest_version: latest.version,
                    state: InstallState::Upgradable,
                    ..installed
                },
            )
        },
    }
}

pub fn newer(installed: &DotnetPackage, found: Vec<DotnetPackage>) -> (r: Option<DotnetPackage>)
    ensures
        r.deep() == newer_spec(installed@, found@.deep()),
{
    match session::take_called_but_case(found, &installed.name) {
        None => None,
        Some(latest) => {
            if latest.version.is_none() || text::equal_maybe(
                &latest.version,
                &installed.version,
            ) {
                return None;
            }
            Some(
                DotnetPackage {
                    name: text::copy(&installed.name),
                    version: text::copy_maybe(&installed.version),
                    latest_version: latest.version,
                    description: text::copy_maybe(&installed.description),
                    state: InstallState::Upgradable,
                },
            )
        },
    }
}

impl Manager {
    /// A query without the banner of a first run.
    pub open spec fn query_spec(self) -> CmdView {
        CmdView::query(self.program@).env("DOTNET_NOLOGO"@, "1"@)
    }

    fn query(&self) -> (r: Cmd)
        ensures
            r@ == self.query_spec(),
    {
        Cmd::query(&self.program).env("DOTNET_NOLOGO", "1")
    }

    /// One tool at a time.
    pub fn install(&self, packages: &[PackageRequest], ctx: &OpContext) -> (r: Plan)
        ensures
            command::plan(r) == if ctx.dry_run {
                Err(ErrorView::Other("dotnet: install has no dry-run mode"@))
            } else {
                Ok(
                    packages@.deep().map_values(
                        |q: RequestView|
                            CmdView::new(self.program@).arg("tool"@).arg("install"@)
                                .arg("--global"@).option("--version"@, q.version).arg(q.name),
                    ),
                )
            },
            command::all_elevated(command::plan(r), false),
            ctx.dry_run ==> r is Err,
    {
        if ctx.dry_run {
            return Err(error::other("dotnet: install has no dry-run mode"));
        }
        let each = |q: &PackageRequest| -> (c: Cmd)
            ensures
                c@ == CmdView::new(self.program@).arg("tool"@).arg("install"@).arg("--global"@)
                    .option("--version"@, q@.version).arg(q@.name),
            { Cmd::new(&self.program).arg("tool").arg("install").arg("--global")
                  .option("--version", &q.version).arg(&q.name) };
        Ok(
            command::one_each(
                packages,
                each,
                Ghost(
                    |q: RequestView|
                        CmdView::new(self.program@).arg("tool"@).arg("install"@)
                            .arg("--global"@).option("--version"@, q.version).arg(q.name),
                ),
            ),
        )
    }

    /// One tool at a time.
    pub fn remove(&self, packages: &[PackageRequest], ctx: &OpContext) -> (r: Plan)
        ensures
            command::plan(r) == if ctx.dry_run {
                Err(ErrorView::Other("dotnet: uninstall has no dry-run mode"@))
            } else {
                Ok(
                    packages@.deep().map_values(
                        |q: RequestView|
                            CmdView::new(self.program@).arg("tool"@).arg("uninstall"@)
                                .arg("--global"@).arg(q.name),
                    ),
                )
            },
            command::all_elevated(command::plan(r), false),
            ctx.dry_run ==> r is Err,
    {
        if ctx.dry_run {
            return Err(error::other("dotnet: uninstall has no dry-run mode"));
        }
        let each = |q: &PackageRequest| -> (c: Cmd)
            ensures
                c@ == CmdView::new(self.program@).arg("tool"@).arg("uninstall"@).arg("--global"@)
                    .arg(q@.name),
            { Cmd::new(&self.program).arg("tool").arg("uninstall").arg("--global").arg(&q.name) };
        Ok(
            command::one_each(
                packages,
                each,
                Ghost(
                    |q: RequestView|
                        CmdView::new(self.program@).arg("tool"@).arg("uninstall"@)
                            .arg("--global"@).arg(q.name),
                ),
            ),
        )
    }

    pub fn list_installed(&self, replies: &[Reply]) -> (r: Step<Listing<DotnetPackage>>)
        ensures
            r@ == session::listed(
                self.query_spec().arg("tool"@).arg("list"@).arg("--global"@),
                replies@.deep(),
                |out: Seq<char>| parse_table_spec(out, InstallState::Installed),
            ),
            r@.only_looks(),
            r@.in_c_locale(),
            r@ == session::listed(
                CmdView::query(self.program@).env(
                    "DOTNET_NOLOGO"@,
                    "1"@,
                ).arg("tool"@).arg("list"@).arg("--global"@),
                replies@.deep(),
                |out: Seq<char>| parse_table_spec(out, InstallState::Installed),
            ),
    {
        let parse = |out: &str| -> (v: Vec<DotnetPackage>)
            ensures
                v@.deep() == parse_table_spec(out@, InstallState::Installed),
            { parse_table(out, InstallState::Installed) };
        session::list(
            self.query().arg("tool").arg("list").arg("--global"),
            replies,
            parse,
            Ghost(|out: Seq<char>| parse_table_spec(out, InstallState::Installed)),
        )
    }

    pub fn search(&self, query: &str, replies: &[Reply]) -> (r: Step<Listing<DotnetPackage>>)
        ensures
            r@ == session::listed(
                self.query_spec().arg("tool"@).arg("search"@).arg(query@),
                replies@.deep(),
                |out: Seq<char>| parse_table_spec(out, InstallState::Available),
            ),
            r@.only_looks(),
            r@.in_c_locale(),
            r@ == session::listed(
                CmdView::query(self.program@).env(
                    "DOTNET_NOLOGO"@,
                    "1"@,
                ).arg("tool"@).arg("search"@).arg(query@),
                replies@.deep(),
                |out: Seq<char>| parse_table_spec(out, InstallState::Available),
            ),
    {
        let parse = |out: &str| -> (v: Vec<DotnetPackage>)
            ensures
                v@.deep() == parse_table_spec(out@, InstallState::Available),
            { parse_table(out, InstallState::Available) };
        session::list(
            self.query().arg("tool").arg("search").arg(query),
            replies,
            parse,
            Ghost(|out: Seq<char>| parse_table_spec(out, InstallState::Available)),
        )
    }

    /// The installed tools.
    pub open spec fn installed_spec(self, replies: Seq<ReplyView>) -> PartView<Seq<PackageView>> {
        if replies.len() == 0 {
            PartView::Act(
                ActionView::Query(self.query_spec().arg("tool"@).arg("list"@).arg("--global"@)),
            )
        } else if !replies[0].success {
            PartView::Fail(replies[0].failure())
        } else {
            PartView::Got(
                parse_table_spec(replies[0].stdout, InstallState::Installed),
                replies.skip(1),
            )
        }
    }

    fn installed<'a>(&self, replies: &'a [Reply]) -> (r: Part<'a, Listing<DotnetPackage>>)
        ensures
            r@ == self.installed_spec(replies@.deep()),
    {
        if replies.len() == 0 {
            return Part::Act(
                Action::Query(self.query().arg("tool").arg("list").arg("--global")),
            );
        }
        let reply = session::next(replies);
        if !reply.success {
            return Part::Fail(reply.failure());
        }
        Part::Got(
            Listing { packages: parse_table(&reply.stdout, InstallState::Installed) },
            session::later(replies),
        )
    }

    /// A search that does not succeed just finds nothing; what is installed
    /// may still answer. Ids are the same in upper and lower case.
    pub open spec fn info_spec(self, name: Seq<char>, replies: Seq<ReplyView>) -> StepView<
        PackageView,
    > {
        if replies.len() == 0 {
            session::ask(
                self.query_spec().arg("tool"@).arg("search"@).arg("--detail"@).arg(name),
            )
        } else {
            match self.installed_spec(replies.skip(1)) {
                PartView::Act(action) => StepView::Act(action),
                PartView::Fail(error) => StepView::Fail(error),
                PartView::Got(installed, _) => session::found(
                    merge_spec(
                        session::called_but_case(parse_detail_spec(replies[0].stdout), name),
                        session::called_but_case(installed, name),
                    ),
                    name,
                ),
            }
        }
    }

    pub fn info(&self, name: &str, replies: &[Reply]) -> (r: Step<DotnetPackage>)
        ensures
            r@ == self.info_spec(name@, replies@.deep()),
            r@.only_looks(),
            r@.in_c_locale(),
    {
        if replies.len() == 0 {
            return session::query(
                self.query().arg("tool").arg("search").arg("--detail").arg(name),
            );
        }
        let search = session::next(replies);
        match self.installed(session::later(replies)) {
            Part::Act(action) => Step::Act(action),
            Part::Fail(error) => Step::Fail(error),
            Part::Got(listing, _) => {
                let found = session::take_called_but_case(parse_detail(&search.stdout), name);
                let installed = session::take_called_but_case(listing.packages, name);
                session::find(merge(found, installed), name)
            },
        }
    }

    /// What upgrades a tool.
    pub open spec fn update_spec(self, name: Seq<char>, version: Option<Seq<char>>) -> CmdView {
        CmdView::new(self.program@).arg("tool"@).arg("update"@).arg("--global"@).option(
            "--version"@,
            version,
        ).arg(name)
    }

    fn update(&self, name: &str, version: &Option<String>) -> (r: Cmd)
        ensures
            r@ == self.update_spec(name@, version.deep()),
    {
        Cmd::new(&self.program).arg("tool").arg("update").arg("--global").option(
            "--version",
            version,
        ).arg(name)
    }

    /// Without names everything is upgraded: at once, or where that fails tool
    /// by tool.
    pub open spec fn upgrade_spec(
        self,
        packages: Seq<RequestView>,
        ctx: OpContext,
        replies: Seq<ReplyView>,
    ) -> StepView<()> {
        if ctx.dry_run {
            StepView::Fail(ErrorView::Other("dotnet: update has no dry-run mode"@))
        } else if packages.len() > 0 {
            session::running_all(
                packages.map_values(|q: RequestView| self.update_spec(q.name, q.version)),
                replies,
            ).whole()
        } else if replies.len() == 0 {
            StepView::Act(
                ActionView::Attempt(
                    CmdView::new(self.program@).arg("tool"@).arg("update"@).arg("--global"@).arg(
                        "--all"@,
                    ),
                ),
            )
        } else if replies[0].success {
            StepView::Done(())
        } else {
            match self.installed_spec(replies.skip(1)) {
                PartView::Act(action) => StepView::Act(action),
                PartView::Fail(error) => StepView::Fail(error),
                PartView::Got(installed, rest) => session::running_all(
                    installed.map_values(|p: PackageView| self.update_spec(p.name, None)),
                    rest,
                ).whole(),
            }
        }
    }

    pub fn upgrade(
        &self,
        packages: &[PackageRequest],
        ctx: &OpContext,
        replies: &[Reply],
    ) -> (r: Step<Finished>)
        ensures
            r@ == self.upgrade_spec(packages@.deep(), *ctx, replies@.deep()),
            ctx.dry_run ==> r is Fail,
            r@.unprivileged(),
    {
        if ctx.dry_run {
            return Step::Fail(error::other("dotnet: update has no dry-run mode"));
        }
        if packages.len() > 0 {
            let each = |q: &PackageRequest| -> (c: Cmd)
                ensures
                    c@ == self.update_spec(q@.name, q@.version),
                { self.update(&q.name, &q.version) };
            return session::run_all(
                command::one_each(
                    packages,
                    each,
                    Ghost(|q: RequestView| self.update_spec(q.name, q.version)),
                ),
                replies,
            ).whole();
        }
        if replies.len() == 0 {
            return Step::Act(
                Action::Attempt(
                    Cmd::new(&self.program).arg("tool").arg("update").arg("--global").arg(
                        "--all",
                    ),
                ),
            );
        }
        if session::next(replies).success {
            return Step::Done(Finished);
        }
        match self.installed(session::later(replies)) {
            Part::Act(action) => Step::Act(action),
            Part::Fail(error) => Step::Fail(error),
            Part::Got(listing, rest) => {
                let again = |p: &DotnetPackage| -> (c: Cmd)
                    ensures
                        c@ == self.update_spec(p@.name, None),
                    { self.update(&p.name, &None) };
                session::run_all(
                    rows::map_refs(
                        &listing.packages,
                        again,
                        Ghost(|p: PackageView| self.update_spec(p.name, None)),
                    ),
                    rest,
                ).whole()
            },
        }
    }

    /// The outdated ones among installed tools, after those that are known:
    /// the registry is asked for each of them, for enough results that the
    /// tool itself is likely to be among them.
    pub open spec fn outdated_spec(
        self,
        known: Seq<PackageView>,
        installed: Seq<PackageView>,
        replies: Seq<ReplyView>,
    ) -> StepView<Seq<PackageView>>
        decreases installed.len(),
    {
        if installed.len() == 0 {
            StepView::Done(known)
        } else if replies.len() == 0 {
            session::ask(
                self.query_spec().arg("tool"@).arg("search"@).arg(installed[0].name).arg(
                    "--take"@,
                ).arg("200"@),
            )
        } else if !replies[0].success {
            StepView::Fail(replies[0].failure())
        } else {
            self.outdated_spec(
                rows::added(
                    known,
                    newer_spec(
                        installed[0],
                        parse_table_spec(replies[0].stdout, InstallState::Available),
                    ),
                ),
                installed.skip(1),
                replies.skip(1),
            )
        }
    }

    proof fn lemma_outdated_looks(
        self,
        known: Seq<PackageView>,
        installed: Seq<PackageView>,
        replies: Seq<ReplyView>,
    )
        ensures
            self.outdated_spec(known, installed, replies).only_looks(),
            self.outdated_spec(known, installed, replies).in_c_locale(),
        decreases installed.len(),
    {
        if installed.len() > 0 && replies.len() > 0 {
            let more = rows::added(
                known,
                newer_spec(
                    installed[0],
                    parse_table_spec(replies[0].stdout, InstallState::Available),
                ),
            );
            self.lemma_outdated_looks(more, installed.skip(1), replies.skip(1));
        }
    }

    fn outdated(&self, installed: Vec<DotnetPackage>, replies: &[Reply]) -> (r: Step<
        Listing<DotnetPackage>,
    >)
        ensures
            r@ == self.outdated_spec(seq![], installed@.deep(), replies@.deep()),
    {
        let ghost all = installed@.deep();
        let ghost start = replies@.deep();
        let mut packages: Vec<DotnetPackage> = rows::empty();
        let mut rest = replies;
        let mut i: usize = 0;
        assert(all.skip(0) =~= all);
        while i < installed.len()
            invariant
                i <= installed.len(),
                all == installed@.deep(),
                start == replies@.deep(),
                self.outdated_spec(seq![], all, start) == self.outdated_spec(
                    packages@.deep(),
                    all.skip(i as int),
                    rest@.deep(),
                ),
            decreases installed.len() - i,
        {
            assert(all.skip(i as int)[0] == installed@[i as int]@);
            assert(all.skip(i as int).skip(1) =~= all.skip(i + 1));
            if rest.len() == 0 {
                return session::query(
                    self.query().arg("tool").arg("search").arg(&installed[i].name).arg(
                        "--take",
                    ).arg("200"),
                );
            }
            let reply = session::next(rest);
            if !reply.success {
                return Step::Fail(reply.failure());
            }
            rows::push_some(
                &mut packages,
                newer(&installed[i], parse_table(&reply.stdout, InstallState::Available)),
            );
            rest = session::later(rest);
            i += 1;
        }
        Step::Done(Listing { packages })
    }

    pub fn list_outdated(&self, replies: &[Reply]) -> (r: Step<Listing<DotnetPackage>>)
        ensures
            r@ == match self.installed_spec(replies@.deep()) {
                PartView::Act(action) => StepView::Act(action),
                PartView::Fail(error) => StepView::Fail(error),
                PartView::Got(installed, rest) => self.outdated_spec(seq![], installed, rest),
            },
            r@.only_looks(),
            r@.in_c_locale(),
    {
        proof {
            if let PartView::Got(installed, rest) = self.installed_spec(replies@.deep()) {
                self.lemma_outdated_looks(seq![], installed, rest);
            }
        }
        match self.installed(replies) {
            Part::Act(action) => Step::Act(action),
            Part::Fail(error) => Step::Fail(error),
            Part::Got(listing, rest) => self.outdated(listing.packages, rest),
        }
    }
}

} // verus!
