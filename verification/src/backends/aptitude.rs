//! aptitude.
//!
//! aptitude works on the database of dpkg. It has patterns to search by and
//! formats to print in, so that listings can be read without guessing at
//! columns. Mutations are elevated and can be simulated.

use vstd::prelude::*;

use crate::command::{self, Cmd, CmdView, Plan};
use crate::detect::{self, Detection};
use crate::error::{self, Error, ErrorView};
use crate::package::{self, Details, InstallState, Package, PackageView};
use crate::profile::{basic_capabilities, Capabilities, ManagerKind, Profile};
use crate::request::{OpContext, PackageRequest};
use crate::rows::{self, Scanner};
use crate::session::{self, Listing, Reply, Step};
use crate::text::{self, chars, Deep, Pieces, Text};

verus! {

broadcast use command::group_carries;

/// Finds the manager and sets it up.
#[derive(Clone, Copy, Debug)]
pub struct Factory;

/// The factory of this backend.
pub fn factory() -> (r: Factory)
    ensures
        r == Factory,
{
    Factory
}

impl Factory {
    pub fn id(&self) -> (r: &'static str)
        ensures
            r@ == "aptitude"@,
    {
        "aptitude"
    }

    /// The programs to look for, in the order of preference.
    pub fn programs(&self) -> (r: Vec<&'static str>)
        ensures
            r@.deep() == seq!["aptitude"@],
    {
        let mut out: Vec<&'static str> = Vec::new();
        out.push("aptitude");
        assert(out@.deep() =~= seq!["aptitude"@]);
        out
    }

    /// Whether the backend can be used, given where each program was found.
    pub fn detect(&self, found: &[Option<String>]) -> (r: Detection)
        ensures
            r@ == detect::detected(found@, "`aptitude` not found on PATH"@),
    {
        detect::detect(found, "`aptitude` not found on PATH")
    }

    /// The manager, given where each program was found.
    pub fn create(&self, found: &[Option<String>]) -> (r: Result<Manager, Error>)
        ensures
            match r {
                Ok(manager) => detect::required(found@, "aptitude"@) == Ok::<Seq<char>, ErrorView>(
                    manager.program@,
                ),
                Err(error) => detect::required(found@, "aptitude"@) == Err::<Seq<char>, ErrorView>(
                    error@,
                ),
            },
    {
        match detect::require(found, "aptitude") {
            Ok(program) => Ok(Manager { program }),
            Err(error) => Err(error),
        }
    }
}

/// The manager, driving `program`.
#[derive(Debug)]
pub struct Manager {
    pub program: String,
}

impl Manager {
    /// What the manager says of itself.
    pub fn profile(&self) -> (r: Profile)
        ensures
            r.id@ == "aptitude"@,
            r.display_name@ == "Aptitude"@,
            r.kind == ManagerKind::System,
            r.database_id@ == "dpkg"@,
            r.capabilities == (Capabilities {
                search: true,
                refresh: true,
                upgrade: true,
                list_outdated: true,
                pin_version: true,
                ..Capabilities::basic()
            }),
            r.elevates == true,
    {
        Profile {
            id: "aptitude",
            display_name: "Aptitude",
            kind: ManagerKind::System,
            database_id: "dpkg",
            capabilities: Capabilities {
                search: true,
                refresh: true,
                upgrade: true,
                list_outdated: true,
                pin_version: true,
                ..basic_capabilities()
            },
            elevates: true,
        }
    }
}

/// A package as aptitude describes it.
#[derive(Debug)]
pub struct AptitudePackage {
    pub name: String,
    pub version: Option<String>,
    pub latest_version: Option<String>,
    pub description: Option<String>,
    pub homepage: Option<String>,
    pub architecture: Option<String>,
    pub origin: Option<String>,
    pub dependencies: Option<Vec<String>>,
    pub state: InstallState,
}

impl View for AptitudePackage {
    type V = PackageView;

    open spec fn view(&self) -> PackageView {
        PackageView {
            name: self.name@,
            version: self.version.deep(),
            latest_version: self.latest_version.deep(),
            description: self.description.deep(),
            homepage: self.homepage.deep(),
            architecture: self.architecture.deep(),
            origin: self.origin.deep(),
            dependencies: package::maybe_strings(self.dependencies),
            state: self.state,
            ..PackageView::blank()
        }
    }
}

impl Default for AptitudePackage {
    fn default() -> (r: AptitudePackage)
        ensures
            r@ == PackageView::blank(),
    {
        AptitudePackage {
            name: String::new(),
            version: None,
            latest_version: None,
            description: None,
            homepage: None,
            architecture: None,
            origin: None,
            dependencies: None,
            state: InstallState::Unknown,
        }
    }
}

impl Package for AptitudePackage {
    open spec fn manager_id() -> Seq<char> {
        "aptitude"@
    }

    fn manager(&self) -> (r: &'static str) {
        "aptitude"
    }

    fn details(&self) -> (r: Details<'_>) {
        Details {
            version: self.version.as_ref(),
            latest_version: self.latest_version.as_ref(),
            description: self.description.as_ref(),
            homepage: self.homepage.as_ref(),
            architecture: self.architecture.as_ref(),
            origin: self.origin.as_ref(),
            dependencies: self.dependencies.as_ref(),
            ..Details::of(&self.name, self.state)
        }
    }
}

/// `name=version` when the request pins one, the bare name otherwise.
pub fn spec(request: &PackageRequest) -> (r: String)
    ensures
        r@ == request@.pinned("="@),
{
    request.pinned("=")
}

/// A version, unless it is said that there is none.
pub open spec fn optional_version_spec(version: Seq<char>) -> Option<Seq<char>> {
    if version == "<none>"@ {
        None
    } else {
        Some(version)
    }
}

pub fn optional_version(version: &str) -> (r: Option<String>)
    ensures
        r.deep() == optional_version_spec(version@),
{
    known_version(&chars(version))
}

fn known_version(version: &[char]) -> (r: Option<String>)
    ensures
        r.deep() == optional_version_spec(version@),
{
    if text::is(version, "<none>") {
        None
    } else {
        Some(text::string(version))
    }
}

/// The last field of a row, if there is one.
pub open spec fn remark_spec(field: Option<Seq<char>>) -> Option<Seq<char>> {
    match field {
        Some(text) => text.trim().filled(),
        None => None,
    }
}

fn remark(field: Option<&[char]>) -> (r: Option<String>)
    ensures
        r.deep() == remark_spec(field.deep()),
{
    match field {
        Some(text) => text::maybe_string(text::filled(text::trim(text))),
        None => None,
    }
}

/// An installed package: name, version and description.
pub open spec fn installed_row_spec(line: Seq<char>) -> Option<PackageView> {
    let parts = line.split_some(3, " "@);
    if parts.len() < 2 || parts[0].len() == 0 {
        None
    } else {
        Some(
            PackageView {
                description: remark_spec(parts.nth(2)),
                ..PackageView::versioned(
                    parts[0],
                    optional_version_spec(parts[1]),
                    InstallState::Installed,
                )
            },
        )
    }
}

fn installed_row(line: &[char]) -> (r: Option<AptitudePackage>)
    ensures
        r.deep() == installed_row_spec(line@),
{
    let parts = text::split_some(line, 3, " ");
    if parts.len() < 2 || parts[0].len() == 0 {
        return None;
    }
    Some(
        AptitudePackage {
            name: text::string(parts[0]),
            version: known_version(parts[1]),
            description: remark(text::nth(&parts, 2)),
            state: InstallState::Installed,
            ..AptitudePackage::default()
        },
    )
}

/// The packages in the format `%p %v %d`.
pub open spec fn parse_installed_spec(stdout: Seq<char>) -> Seq<PackageView> {
    rows::select(stdout.lines(), |line: Seq<char>| installed_row_spec(line))
}

pub fn parse_installed(stdout: &str) -> (r: Vec<AptitudePackage>)
    ensures
        r@.deep() == parse_installed_spec(stdout@),
        crate::package::all_named(r@.deep()),
        crate::package::all_in(r@.deep(), InstallState::Installed),
{
    proof {
        rows::selected_have(
            stdout@.lines(),
            |line: Seq<char>| installed_row_spec(line),
            |p: PackageView| p.name.len() > 0 && p.state == InstallState::Installed,
        );
    }
    rows::select_rows(stdout, installed_row, Ghost(|line: Seq<char>| installed_row_spec(line)))
}

/// A hit: a flag for its state, name, version to install and description.
pub open spec fn search_row_spec(line: Seq<char>) -> Option<PackageView> {
    let parts = line.split_some(4, " "@);
    if parts.len() < 3 || parts[1].len() == 0 {
        None
    } else {
        Some(
            PackageView {
                description: remark_spec(parts.nth(3)),
                ..PackageView::versioned(
                    parts[1],
                    optional_version_spec(parts[2]),
                    if parts[0] == "i"@ {
                        InstallState::Installed
                    } else {
                        InstallState::Available
                    },
                )
            },
        )
    }
}

fn search_row(line: &[char]) -> (r: Option<AptitudePackage>)
    ensures
        r.deep() == search_row_spec(line@),
{
    let parts = text::split_some(line, 4, " ");
    if parts.len() < 3 || parts[1].len() == 0 {
        return None;
    }
    let state = if text::is(parts[0], "i") {
        InstallState::Installed
    } else {
        InstallState::Available
    };
    Some(
        AptitudePackage {
            name: text::string(parts[1]),
            version: known_version(parts[2]),
            description: remark(text::nth(&parts, 3)),
            state,
            ..AptitudePackage::default()
        },
    )
}

/// The packages in the format `%c %p %V %d`.
pub open spec fn parse_search_spec(stdout: Seq<char>) -> Seq<PackageView> {
    rows::select(stdout.lines(), |line: Seq<char>| search_row_spec(line))
}

pub fn parse_search(stdout: &str) -> (r: Vec<AptitudePackage>)
    ensures
        r@.deep() == parse_search_spec(stdout@),
        crate::package::all_named(r@.deep()),
{
    proof {
        rows::selected_have(
            stdout@.lines(),
            |line: Seq<char>| search_row_spec(line),
            |p: PackageView| p.name.len() > 0,
        );
    }
    rows::select_rows(stdout, search_row, Ghost(|line: Seq<char>| search_row_spec(line)))
}

/// An outdated package: name, version, version to install and description.
pub open spec fn outdated_row_spec(line: Seq<char>) -> Option<PackageView> {
    let parts = line.split_some(4, " "@);
    if parts.len() < 3 || parts[0].len() == 0 {
        None
    } else {
        Some(
            PackageView {
                latest_version: optional_version_spec(parts[2]),
                description: remark_spec(parts.nth(3)),
                ..PackageView::versioned(
                    parts[0],
                    optional_version_spec(parts[1]),
                    InstallState::Upgradable,
                )
            },
        )
    }
}

fn outdated_row(line: &[char]) -> (r: Option<AptitudePackage>)
    ensures
        r.deep() == outdated_row_spec(line@),
{
    let parts = text::split_some(line, 4, " ");
    if parts.len() < 3 || parts[0].len() == 0 {
        return None;
    }
    Some(
        AptitudePackage {
            name: text::string(parts[0]),
            version: known_version(parts[1]),
            latest_version: known_version(parts[2]),
            description: remark(text::nth(&parts, 3)),
            state: InstallState::Upgradable,
            ..AptitudePackage::default()
        },
    )
}

/// The packages in the format `%p %v %V %d`.
pub open spec fn parse_outdated_spec(stdout: Seq<char>) -> Seq<PackageView> {
    rows::select(stdout.lines(), |line: Seq<char>| outdated_row_spec(line))
}

pub fn parse_outdated(stdout: &str) -> (r: Vec<AptitudePackage>)
    ensures
        r@.deep() == parse_outdated_spec(stdout@),
        crate::package::all_named(r@.deep()),
        crate::package::all_in(r@.deep(), InstallState::Upgradable),
{
    proof {
        rows::selected_have(
            stdout@.lines(),
            |line: Seq<char>| outdated_row_spec(line),
            |p: PackageView| p.name.len() > 0 && p.state == InstallState::Upgradable,
        );
    }
    rows::select_rows(stdout, outdated_row, Ghost(|line: Seq<char>| outdated_row_spec(line)))
}

/// The reading of `aptitude show`.
struct ShowScan {
    package: AptitudePackage,
}

/// The model of the reading of `aptitude show`.
pub struct ShowScanView {
    pub package: PackageView,
}

impl ShowScanView {
    pub open spec fn start() -> ShowScanView {
        ShowScanView {
            package: PackageView::blank(),
        }
    }
}

/// A package after the field `key` with a value.
pub open spec fn keyed_spec(package: PackageView, key: Seq<char>, value: Seq<char>) -> PackageView {
    if key == "Package"@ {
        PackageView { name: value, ..package }
    } else if key == "Version"@ {
        PackageView { version: Some(value), ..package }
    } else if key == "Description"@ {
        PackageView { description: Some(value), ..package }
    } else if key == "Homepage"@ {
        PackageView { homepage: Some(value), ..package }
    } else if key == "Section"@ {
        PackageView { origin: Some(value), ..package }
    } else if key == "Architecture"@ {
        PackageView { architecture: Some(value), ..package }
    } else if key == "State"@ {
        PackageView {
            state: if value == "installed"@ {
                InstallState::Installed
            } else {
                InstallState::Available
            },
            ..package
        }
    } else if key == "Depends"@ {
        PackageView { dependencies: Some(package::dependency_names(value)), ..package }
    } else {
        package
    }
}

fn keyed(package: AptitudePackage, key: &[char], value: &[char]) -> (r: AptitudePackage)
    ensures
        r@ == keyed_spec(package@, key@, value@),
{
    let given = text::string(value);
    if text::is(key, "Package") {
        AptitudePackage { name: given, ..package }
    } else if text::is(key, "Version") {
        AptitudePackage { version: Some(given), ..package }
    } else if text::is(key, "Description") {
        AptitudePackage { description: Some(given), ..package }
    } else if text::is(key, "Homepage") {
        AptitudePackage { homepage: Some(given), ..package }
    } else if text::is(key, "Section") {
        AptitudePackage { origin: Some(given), ..package }
    } else if text::is(key, "Architecture") {
        AptitudePackage { architecture: Some(given), ..package }
    } else if text::is(key, "State") {
        let state = if text::is(value, "installed") {
            InstallState::Installed
        } else {
            InstallState::Available
        };
        AptitudePackage { state, ..package }
    } else if text::is(key, "Depends") {
        AptitudePackage { dependencies: Some(package::names_of_dependencies(value)), ..package }
    } else {
        package
    }
}

/// The reading of `aptitude show` after one more line; indented lines go on
/// with the long description and are passed over.
pub open spec fn show_next_spec(state: ShowScanView, line: Seq<char>) -> ShowScanView {
    if line.begins_blank() {
        state
    } else {
        match line.cut(":"@) {
            None => state,
            Some((key, value)) => if value.trim().len() == 0 {
                state
            } else {
                ShowScanView { package: keyed_spec(state.package, key.trim(), value.trim()) }
            },
        }
    }
}

impl Scanner for ShowScan {
    type State = ShowScanView;

    closed spec fn state(&self) -> ShowScanView {
        ShowScanView {
            package: self.package@,
        }
    }

    open spec fn next(state: ShowScanView, line: Seq<char>) -> ShowScanView {
        show_next_spec(state, line)
    }

    fn feed(&mut self, line: &[char]) {
        if text::begins_blank(line) {
            return;
        }
        if let Some((key, value)) = text::cut(line, ":") {
            let value = text::trim(value);
            if value.len() > 0 {
                let mut package = AptitudePackage::default();
                std::mem::swap(&mut self.package, &mut package);
                self.package = keyed(package, text::trim(key), value);
            }
        }
    }
}

/// The package that `aptitude show` describes.
pub open spec fn parse_show_spec(stdout: Seq<char>) -> Option<PackageView> {
    let end = rows::scan(
        ShowScanView::start(),
        stdout.lines(),
        |state: ShowScanView, line: Seq<char>| show_next_spec(state, line),
    );
    if end.package.name.len() == 0 {
        None
    } else {
        Some(end.package)
    }
}

pub fn parse_show(stdout: &str) -> (r: Option<AptitudePackage>)
    ensures
        r.deep() == parse_show_spec(stdout@),
{
    let start = ShowScan {
        package: AptitudePackage::default(),
    };
    let end = rows::scan_output(
        start,
        stdout,
        Ghost(|state: ShowScanView, line: Seq<char>| show_next_spec(state, line)),
    );
    if package::is_nameless(&end.package) {
        None
    } else {
        Some(end.package)
    }
}

impl Manager {
    /// An elevated subcommand, simulated on a dry run.
    pub open spec fn mutation_spec(self, subcommand: Seq<char>, ctx: OpContext) -> CmdView {
        CmdView::new(self.program@).arg(subcommand).elevated().flag(ctx.assume_yes, "-y"@).flag(
            ctx.dry_run,
            "-s"@,
        )
    }

    fn mutation(&self, subcommand: &str, ctx: &OpContext) -> (r: Cmd)
        ensures
            r@ == self.mutation_spec(subcommand@, *ctx),
    {
        Cmd::new(&self.program).arg(subcommand).elevated().flag(ctx.assume_yes, "-y").flag(
            ctx.dry_run,
            "-s",
        )
    }

    pub fn install(&self, packages: &[PackageRequest], ctx: &OpContext) -> (r: Plan)
        ensures
            command::plan(r) == command::just(
                self.mutation_spec("install"@, *ctx).pinned(packages@.deep(), "="@),
            ),
            command::all_elevated(command::plan(r), true),
            ctx.dry_run ==> command::all_carry(command::plan(r), "-s"@),
            ctx.assume_yes ==> command::all_carry(command::plan(r), "-y"@),
            command::plan(r) == command::just(
                CmdView::new(self.program@).arg("install"@).elevated().flag(
                    ctx.assume_yes,
                    "-y"@,
                ).flag(ctx.dry_run, "-s"@).pinned(
                    packages@.deep(),
                    "="@,
                ),
            ),
    {
        Ok(command::one(self.mutation("install", ctx).pinned(packages, "=")))
    }

    pub fn remove(&self, packages: &[PackageRequest], ctx: &OpContext) -> (r: Plan)
        ensures
            command::plan(r) == command::just(
                self.mutation_spec("remove"@, *ctx).names(packages@.deep()),
            ),
            command::all_elevated(command::plan(r), true),
            ctx.dry_run ==> command::all_carry(command::plan(r), "-s"@),
            ctx.assume_yes ==> command::all_carry(command::plan(r), "-y"@),
            command::plan(r) == command::just(
                CmdView::new(self.program@).arg("remove"@).elevated().flag(
                    ctx.assume_yes,
                    "-y"@,
                ).flag(ctx.dry_run, "-s"@).names(packages@.deep()),
            ),
    {
        Ok(command::one(self.mutation("remove", ctx).names(packages)))
    }

    /// Without names everything is upgraded; an install of what is there
    /// already upgrades it.
    pub fn upgrade(&self, packages: &[PackageRequest], ctx: &OpContext) -> (r: Plan)
        ensures
            command::plan(r) == (if packages@.len() == 0 {
                command::just(self.mutation_spec("safe-upgrade"@, *ctx))
            } else {
                command::just(
                    self.mutation_spec("install"@, *ctx).pinned(packages@.deep(), "="@),
                )
            }),
            command::all_elevated(command::plan(r), true),
            ctx.dry_run ==> command::all_carry(command::plan(r), "-s"@),
            ctx.assume_yes ==> command::all_carry(command::plan(r), "-y"@),
            command::plan(r) == (
                if packages@.len() == 0 {
                    command::just(
                        CmdView::new(self.program@).arg("safe-upgrade"@).elevated().flag(
                            ctx.assume_yes,
                            "-y"@,
                        ).flag(ctx.dry_run, "-s"@),
                    )
                } else {
                    command::just(
                        CmdView::new(self.program@).arg("install"@).elevated().flag(
                            ctx.assume_yes,
                            "-y"@,
                        ).flag(ctx.dry_run, "-s"@).pinned(
                            packages@.deep(),
                            "="@,
                        ),
                    )
                }
            ),
    {
        if packages.len() == 0 {
            return Ok(command::one(self.mutation("safe-upgrade", ctx)));
        }
        Ok(
            command::one(
                self.mutation("install", ctx).pinned(packages, "="),
            ),
        )
    }

    pub fn refresh(&self, ctx: &OpContext) -> (r: Plan)
        ensures
            command::plan(r) == if ctx.dry_run {
                Err(ErrorView::Other("aptitude: refresh has no dry-run mode"@))
            } else {
                command::just(CmdView::new(self.program@).arg("update"@).elevated())
            },
            command::all_elevated(command::plan(r), true),
            ctx.dry_run ==> r is Err,
    {
        if ctx.dry_run {
            return Err(error::other("aptitude: refresh has no dry-run mode"));
        }
        Ok(command::one(Cmd::new(&self.program).arg("update").elevated()))
    }

    pub fn list_installed(&self, replies: &[Reply]) -> (r: Step<Listing<AptitudePackage>>)
        ensures
            r@ == session::listed(
                CmdView::query(self.program@)
                    .arg("search"@)
                    .arg("--disable-columns"@)
                    .arg("-F"@)
                    .arg("%p %v %d"@)
                    .arg("~i"@),
                replies@.deep(),
                |out: Seq<char>| parse_installed_spec(out),
            ),
            r@.only_looks(),
            r@.in_c_locale(),
    {
        session::list(
            Cmd::query(&self.program)
                .arg("search")
                .arg("--disable-columns")
                .arg("-F")
                .arg("%p %v %d")
                .arg("~i"),
            replies,
            parse_installed,
            Ghost(|out: Seq<char>| parse_installed_spec(out)),
        )
    }

    pub fn search(&self, query: &str, replies: &[Reply]) -> (r: Step<Listing<AptitudePackage>>)
        ensures
            r@ == session::searched(
                CmdView::query(self.program@)
                    .arg("search"@)
                    .arg("--disable-columns"@)
                    .arg("-F"@)
                    .arg("%c %p %V %d"@)
                    .arg(query@),
                replies@.deep(),
                |out: Seq<char>| parse_search_spec(out),
            ),
            r@.only_looks(),
            r@.in_c_locale(),
    {
        session::search(
            Cmd::query(&self.program)
                .arg("search")
                .arg("--disable-columns")
                .arg("-F")
                .arg("%c %p %V %d")
                .arg(query),
            replies,
            parse_search,
            Ghost(|out: Seq<char>| parse_search_spec(out)),
        )
    }

    pub fn list_outdated(&self, replies: &[Reply]) -> (r: Step<Listing<AptitudePackage>>)
        ensures
            r@ == session::searched(
                CmdView::query(self.program@)
                    .arg("search"@)
                    .arg("--disable-columns"@)
                    .arg("-F"@)
                    .arg("%p %v %V %d"@)
                    .arg("~U"@),
                replies@.deep(),
                |out: Seq<char>| parse_outdated_spec(out),
            ),
            r@.only_looks(),
            r@.in_c_locale(),
    {
        session::search(
            Cmd::query(&self.program)
                .arg("search")
                .arg("--disable-columns")
                .arg("-F")
                .arg("%p %v %V %d")
                .arg("~U"),
            replies,
            parse_outdated,
            Ghost(|out: Seq<char>| parse_outdated_spec(out)),
        )
    }

    /// What the output says counts: an unknown package need not be told by
    /// the exit code.
    pub fn info(&self, name: &str, replies: &[Reply]) -> (r: Step<AptitudePackage>)
        ensures
            r@ == (if replies@.len() == 0 {
                session::ask(CmdView::query(self.program@).arg("show"@).arg(name@))
            } else {
                session::found(parse_show_spec(replies@[0].stdout@), name@)
            }),
            r@.only_looks(),
            r@.in_c_locale(),
    {
        if replies.len() == 0 {
            return session::query(Cmd::query(&self.program).arg("show").arg(name));
        }
        session::find(parse_show(&replies[0].stdout), name)
    }
}

} // verus!
