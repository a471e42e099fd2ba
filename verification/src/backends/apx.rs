//! apx, of Vanilla OS.
//!
//! apx puts a container around a stock package manager, so everything runs as
//! the user. Its first generation is driven here, whose output is that of the
//! apt in the container. It cannot be told not to ask, and has no dry run.

use vstd::prelude::*;

use crate::command::{self, Cmd, CmdView, Plan};
use crate::detect::{self, Detection};
use crate::error::{self, Error, ErrorView};
use crate::package::{self, Details, InstallState, Package, PackageView};
use crate::profile::{basic_capabilities, Capabilities, ManagerKind, Profile};
use crate::request::{self, OpContext, PackageRequest, RequestView};
use crate::rows::{self, Scanner};
use crate::session::{self, Listing, Reply, ReplyView, Step, StepView};
use crate::text::{self, Deep, Pieces, Text};

verus! {

/// Finds the manager and sets it up.
#[derive(Clone, Copy, Debug)]
pub struct Factory;

/// The factory of this backend.
pub fn factory() -> (r: Factory)
    ensures
        r == Factory,
{
    Factory
}

impl Factory {
    pub fn id(&self) -> (r: &'static str)
        ensures
            r@ == "apx"@,
    {
        "apx"
    }

    /// The programs to look for, in the order of preference.
    pub fn programs(&self) -> (r: Vec<&'static str>)
        ensures
            r@.deep() == seq!["apx"@],
    {
        let mut out: Vec<&'static str> = Vec::new();
        out.push("apx");
        assert(out@.deep() =~= seq!["apx"@]);
        out
    }

    /// Whether the backend can be used, given where each program was found.
    pub fn detect(&self, found: &[Option<String>]) -> (r: Detection)
        ensures
            r@ == detect::detected(found@, "`apx` not found on PATH"@),
    {
        detect::detect(found, "`apx` not found on PATH")
    }

    /// The manager, given where each program was found.
    pub fn create(&self, found: &[Option<String>]) -> (r: Result<Manager, Error>)
        ensures
            match r {
                Ok(manager) => detect::required(found@, "apx"@) == Ok::<Seq<char>, ErrorView>(
                    manager.program@,
                ),
                Err(error) => detect::required(found@, "apx"@) == Err::<Seq<char>, ErrorView>(
                    error@,
                ),
            },
    {
        match detect::require(found, "apx") {
            Ok(program) => Ok(Manager { program }),
            Err(error) => Err(error),
        }
    }
}

/// The manager, driving `program`.
#[derive(Debug)]
pub struct Manager {
    pub program: String,
}

impl Manager {
    /// What the manager says of itself.
    pub fn profile(&self) -> (r: Profile)
        ensures
            r.id@ == "apx"@,
            r.display_name@ == "apx"@,
            r.kind == ManagerKind::System,
            r.database_id@ == "apx"@,
            r.capabilities == (Capabilities {
                search: true,
                upgrade: true,
                ..Capabilities::basic()
            }),
            r.elevates == false,
    {
        Profile {
            id: "apx",
            display_name: "apx",
            kind: ManagerKind::System,
            database_id: "apx",
            capabilities: Capabilities { search: true, upgrade: true, ..basic_capabilities() },
            elevates: false,
        }
    }
}

/// A package as the container of apx describes it.
#[derive(Debug)]
pub struct ApxPackage {
    pub name: String,
    pub version: Option<String>,
    pub latest_version: Option<String>,
    pub description: Option<String>,
    pub homepage: Option<String>,
    pub architecture: Option<String>,
    pub origin: Option<String>,
    pub dependencies: Option<Vec<String>>,
    pub state: InstallState,
}

impl View for ApxPackage {
    type V = PackageView;

    open spec fn view(&self) -> PackageView {
        PackageView {
            name: self.name@,
            version: self.version.deep(),
            latest_version: self.latest_version.deep(),
            description: self.description.deep(),
            homepage: self.homepage.deep(),
            architecture: self.architecture.deep(),
            origin: self.origin.deep(),
            dependencies: package::maybe_strings(self.dependencies),
            state: self.state,
            ..PackageView::blank()
        }
    }
}

impl Default for ApxPackage {
    fn default() -> (r: ApxPackage)
        ensures
            r@ == PackageView::blank(),
    {
        ApxPackage {
            name: String::new(),
            version: None,
            latest_version: None,
            description: None,
            homepage: None,
            architecture: None,
            origin: None,
            dependencies: None,
            state: InstallState::Unknown,
        }
    }
}

impl Package for ApxPackage {
    open spec fn manager_id() -> Seq<char> {
        "apx"@
    }

    fn manager(&self) -> (r: &'static str) {
        "apx"
    }

    fn details(&self) -> (r: Details<'_>) {
        Details {
            version: self.version.as_ref(),
            latest_version: self.latest_version.as_ref(),
            description: self.description.as_ref(),
            homepage: self.homepage.as_ref(),
            architecture: self.architecture.as_ref(),
            origin: self.origin.as_ref(),
            dependencies: self.dependencies.as_ref(),
            ..Details::of(&self.name, self.state)
        }
    }
}

/// The manager in the container decides on versions.
pub open spec fn reject_pins_spec(requests: Seq<RequestView>) -> Result<(), ErrorView> {
    request::pins_refused(
        requests,
        "apx: `"@,
        "` pins a version, but apx installs whatever its container resolves"@,
    )
}

pub fn reject_pins(requests: &[PackageRequest]) -> (r: Result<(), Error>)
    ensures
        error::outcome(r) == reject_pins_spec(requests@.deep()),
{
    request::refuse_pins(
        requests,
        "apx: `",
        "` pins a version, but apx installs whatever its container resolves",
    )
}

/// A package: `name/suites version arch [markers]`. The markers tell whether
/// it is installed, and which version where that is not the newest.
pub open spec fn list_row_spec(line: Seq<char>) -> Option<PackageView> {
    match line.cut("/"@) {
        None => None,
        Some((name, rest)) => {
            let parts = rest.words();
            if name.len() == 0 || name.has_blank() || parts.len() < 2 {
                None
            } else {
                let package = PackageView {
                    origin: Some(parts[0]),
                    architecture: parts.nth(2),
                    ..PackageView::named(name, InstallState::Available)
                };
                Some(
                    match line.cut("[upgradable from: "@) {
                        Some((_, from)) => PackageView {
                            version: Some(from.trim_back("]"@)),
                            latest_version: Some(parts[1]),
                            state: InstallState::Upgradable,
                            ..package
                        },
                        None => PackageView {
                            version: Some(parts[1]),
                            state: if line.has("[installed"@) {
                                InstallState::Installed
                            } else {
                                InstallState::Available
                            },
                            ..package
                        },
                    },
                )
            }
        },
    }
}

fn list_row(line: &[char]) -> (r: Option<ApxPackage>)
    ensures
        r.deep() == list_row_spec(line@),
{
    let (name, rest) = match text::cut(line, "/") {
        None => {
            return None;
        },
        Some(pair) => pair,
    };
    let parts = text::words(rest);
    if name.len() == 0 || text::has_blank(name) || parts.len() < 2 {
        return None;
    }
    let package = ApxPackage {
        name: text::string(name),
        origin: Some(text::string(parts[0])),
        architecture: text::maybe_string(text::nth(&parts, 2)),
        state: InstallState::Available,
        ..ApxPackage::default()
    };
    let version = text::string(parts[1]);
    match text::cut(line, "[upgradable from: ") {
        Some((_, from)) => Some(
            ApxPackage {
                version: Some(text::string(text::trim_back(from, "]"))),
                latest_version: Some(version),
                state: InstallState::Upgradable,
                ..package
            },
        ),
        None => {
            let state = if text::has(line, "[installed") {
                InstallState::Installed
            } else {
                InstallState::Available
            };
            Some(ApxPackage { version: Some(version), state, ..package })
        },
    }
}

/// The packages that `apx list` prints.
pub open spec fn parse_list_spec(stdout: Seq<char>) -> Seq<PackageView> {
    rows::select(stdout.lines(), |line: Seq<char>| list_row_spec(line))
}

pub fn parse_list(stdout: &str) -> (r: Vec<ApxPackage>)
    ensures
        r@.deep() == parse_list_spec(stdout@),
        crate::package::all_named(r@.deep()),
{
    proof {
        rows::selected_have(
            stdout@.lines(),
            |line: Seq<char>| list_row_spec(line),
            |p: PackageView| p.name.len() > 0,
        );
    }
    rows::select_rows(stdout, list_row, Ghost(|line: Seq<char>| list_row_spec(line)))
}

/// The reading of `apx search`.
struct SearchScan {
    packages: Vec<ApxPackage>,
}

/// The model of the reading of `apx search`.
pub struct SearchScanView {
    pub packages: Seq<PackageView>,
}

impl SearchScanView {
    pub open spec fn start() -> SearchScanView {
        SearchScanView {
            packages: seq![],
        }
    }
}

/// Packages with a description for the last one, if that has none.
pub open spec fn described_spec(packages: Seq<PackageView>, text: Seq<char>) -> Seq<PackageView> {
    if packages.len() > 0 && text.len() > 0 && packages.last().description is None {
        packages.drop_last().push(
            PackageView { description: Some(text), ..packages.last() },
        )
    } else {
        packages
    }
}

fn describe(packages: &mut Vec<ApxPackage>, text: &[char])
    ensures
        final(packages)@.deep() == described_spec(old(packages)@.deep(), text@),
{
    if text.len() == 0 {
        return;
    }
    if let Some(last) = rows::pop(packages) {
        if last.description.is_none() {
            rows::push(
                packages,
                ApxPackage { description: Some(text::string(text)), ..last },
            );
        } else {
            let ghost before = old(packages)@.deep();
            assert(before.drop_last().push(before.last()) =~= before);
            rows::push(packages, last);
        }
    }
}

/// The reading of `apx search` after one more line: an indented line describes
/// the package above it.
pub open spec fn search_next_spec(state: SearchScanView, line: Seq<char>) -> SearchScanView {
    SearchScanView {
        packages: if line.begins_blank() {
            described_spec(state.packages, line.trim())
        } else {
            rows::added(state.packages, list_row_spec(line))
        },
    }
}

impl Scanner for SearchScan {
    type State = SearchScanView;

    closed spec fn state(&self) -> SearchScanView {
        SearchScanView {
            packages: self.packages@.deep(),
        }
    }

    open spec fn next(state: SearchScanView, line: Seq<char>) -> SearchScanView {
        search_next_spec(state, line)
    }

    fn feed(&mut self, line: &[char]) {
        if text::begins_blank(line) {
            describe(&mut self.packages, text::trim(line));
        } else {
            rows::push_some(&mut self.packages, list_row(line));
        }
    }
}

/// The packages that `apx search` prints, each with a description below it.
pub open spec fn parse_search_spec(stdout: Seq<char>) -> Seq<PackageView> {
    rows::scan(
        SearchScanView::start(),
        stdout.lines(),
        |state: SearchScanView, line: Seq<char>| search_next_spec(state, line),
    ).packages
}

pub fn parse_search(stdout: &str) -> (r: Vec<ApxPackage>)
    ensures
        r@.deep() == parse_search_spec(stdout@),
{
    let start = SearchScan {
        packages: Vec::new(),
    };
    assert(start.packages@.deep() =~= seq![]);
    rows::scan_output(
        start,
        stdout,
        Ghost(|state: SearchScanView, line: Seq<char>| search_next_spec(state, line)),
    ).packages
}

/// The reading of `apx show`.
struct ShowScan {
    package: ApxPackage,
}

/// The model of the reading of `apx show`.
pub struct ShowScanView {
    pub package: PackageView,
}

impl ShowScanView {
    pub open spec fn start() -> ShowScanView {
        ShowScanView {
            package: PackageView::named(seq![], InstallState::Available),
        }
    }
}

/// A package after the field `key` with a value.
pub open spec fn keyed_spec(package: PackageView, key: Seq<char>, value: Seq<char>) -> PackageView {
    if key == "Package"@ {
        PackageView { name: value, ..package }
    } else if key == "Version"@ {
        PackageView { version: Some(value), ..package }
    } else if key == "Description"@ || key == "Description-en"@ {
        PackageView { description: Some(value), ..package }
    } else if key == "Homepage"@ {
        PackageView { homepage: Some(value), ..package }
    } else if key == "Section"@ {
        PackageView { origin: Some(value), ..package }
    } else if key == "Architecture"@ {
        PackageView { architecture: Some(value), ..package }
    } else if key == "Depends"@ {
        PackageView { dependencies: Some(package::dependency_names(value)), ..package }
    } else {
        package
    }
}

fn keyed(package: ApxPackage, key: &[char], value: &[char]) -> (r: ApxPackage)
    ensures
        r@ == keyed_spec(package@, key@, value@),
{
    let given = text::string(value);
    if text::is(key, "Package") {
        ApxPackage { name: given, ..package }
    } else if text::is(key, "Version") {
        ApxPackage { version: Some(given), ..package }
    } else if text::is(key, "Description") || text::is(key, "Description-en") {
        ApxPackage { description: Some(given), ..package }
    } else if text::is(key, "Homepage") {
        ApxPackage { homepage: Some(given), ..package }
    } else if text::is(key, "Section") {
        ApxPackage { origin: Some(given), ..package }
    } else if text::is(key, "Architecture") {
        ApxPackage { architecture: Some(given), ..package }
    } else if text::is(key, "Depends") {
        ApxPackage { dependencies: Some(package::names_of_dependencies(value)), ..package }
    } else {
        package
    }
}

/// The reading of `apx show` after one more line; indented lines go on with
/// the long description and are passed over.
pub open spec fn show_next_spec(state: ShowScanView, line: Seq<char>) -> ShowScanView {
    if line.begins_blank() {
        state
    } else {
        match line.cut(":"@) {
            None => state,
            Some((key, value)) => if value.trim().len() == 0 {
                state
            } else {
                ShowScanView { package: keyed_spec(state.package, key.trim(), value.trim()) }
            },
        }
    }
}

impl Scanner for ShowScan {
    type State = ShowScanView;

    closed spec fn state(&self) -> ShowScanView {
        ShowScanView {
            package: self.package@,
        }
    }

    open spec fn next(state: ShowScanView, line: Seq<char>) -> ShowScanView {
        show_next_spec(state, line)
    }

    fn feed(&mut self, line: &[char]) {
        if text::begins_blank(line) {
            return;
        }
        if let Some((key, value)) = text::cut(line, ":") {
            let value = text::trim(value);
            if value.len() > 0 {
                let mut package = ApxPackage::default();
                std::mem::swap(&mut self.package, &mut package);
                self.package = keyed(package, text::trim(key), value);
            }
        }
    }
}

/// The package that `apx show` describes.
pub open spec fn parse_show_spec(stdout: Seq<char>) -> Option<PackageView> {
    let end = rows::scan(
        ShowScanView::start(),
        stdout.lines(),
        |state: ShowScanView, line: Seq<char>| show_next_spec(state, line),
    );
    if end.package.name.len() == 0 {
        None
    } else {
        Some(end.package)
    }
}

pub fn parse_show(stdout: &str) -> (r: Option<ApxPackage>)
    ensures
        r.deep() == parse_show_spec(stdout@),
{
    let start = ShowScan {
        package: ApxPackage { state: InstallState::Available, ..ApxPackage::default() },
    };
    let end = rows::scan_output(
        start,
        stdout,
        Ghost(|state: ShowScanView, line: Seq<char>| show_next_spec(state, line)),
    );
    if package::is_nameless(&end.package) {
        None
    } else {
        Some(end.package)
    }
}

/// A package of the repositories, completed by what the list says of it.
pub open spec fn merge_spec(package: PackageView, listed: Option<PackageView>) -> PackageView {
    match listed {
        None => package,
        Some(local) => if local.state == InstallState::Installed {
            PackageView {
                version: local.version,
                state: InstallState::Installed,
                ..package
            }
        } else if local.state == InstallState::Upgradable {
            PackageView {
                version: local.version,
                latest_version: local.latest_version,
                state: InstallState::Upgradable,
                ..package
            }
        } else {
            package
        },
    }
}

pub fn merge(package: ApxPackage, listed: Option<ApxPackage>) -> (r: ApxPackage)
    ensures
        r@ == merge_spec(package@, listed.deep()),
{
    match listed {
        None => package,
        Some(local) => {
            if local.state == InstallState::Installed {
                ApxPackage {
                    version: local.version,
                    state: InstallState::Installed,
                    ..package
                }
            } else if local.state == InstallState::Upgradable {
                ApxPackage {
                    version: local.version,
                    latest_version: local.latest_version,
                    state: InstallState::Upgradable,
                    ..package
                }
            } else {
                package
            }
        },
    }
}

impl Manager {
    pub fn install(&self, packages: &[PackageRequest], ctx: &OpContext) -> (r: Plan)
        ensures
            command::plan(r) == match reject_pins_spec(packages@.deep()) {
                Err(error) => Err(error),
                Ok(_) => if ctx.dry_run {
                    Err(ErrorView::Other("apx: install has no dry-run mode"@))
                } else {
                    command::just(
                        CmdView::new(self.program@).arg("install"@).names(packages@.deep()),
                    )
                },
            },
            command::all_elevated(command::plan(r), false),
            ctx.dry_run ==> r is Err,
            request::first_pin(packages@.deep()) is Some ==> r is Err,
            command::plan(r) == match (
                request::pins_refused(
                    packages@.deep(),
                    "apx: `"@,
                    "` pins a version, but apx installs whatever its container resolves"@,
                )
            ) {
                Err(error) => Err(error),
                Ok(_) => if ctx.dry_run {
                    Err(ErrorView::Other("apx: install has no dry-run mode"@))
                } else {
                    command::just(
                        CmdView::new(self.program@).arg("install"@).names(packages@.deep()),
                    )
                },
            },
    {
        if let Err(error) = reject_pins(packages) {
            return Err(error);
        }
        if ctx.dry_run {
            return Err(error::other("apx: install has no dry-run mode"));
        }
        Ok(
            command::one(
                Cmd::new(&self.program).arg("install").names(packages),
            ),
        )
    }

    pub fn remove(&self, packages: &[PackageRequest], ctx: &OpContext) -> (r: Plan)
        ensures
            command::plan(r) == if ctx.dry_run {
                Err(ErrorView::Other("apx: remove has no dry-run mode"@))
            } else {
                command::just(
                    CmdView::new(self.program@).arg("remove"@).names(packages@.deep()),
                )
            },
            command::all_elevated(command::plan(r), false),
            ctx.dry_run ==> r is Err,
    {
        if ctx.dry_run {
            return Err(error::other("apx: remove has no dry-run mode"));
        }
        Ok(
            command::one(
                Cmd::new(&self.program).arg("remove").names(packages),
            ),
        )
    }

    /// Without names everything is upgraded; an install of what is there
    /// already upgrades it.
    pub fn upgrade(&self, packages: &[PackageRequest], ctx: &OpContext) -> (r: Plan)
        ensures
            command::plan(r) == match reject_pins_spec(packages@.deep()) {
                Err(error) => Err(error),
                Ok(_) => if ctx.dry_run {
                    Err(ErrorView::Other("apx: upgrade has no dry-run mode"@))
                } else if packages@.len() == 0 {
                    command::just(CmdView::new(self.program@).arg("upgrade"@))
                } else {
                    command::just(
                        CmdView::new(self.program@).arg("install"@).names(packages@.deep()),
                    )
                },
            },
            command::all_elevated(command::plan(r), false),
            ctx.dry_run ==> r is Err,
            request::first_pin(packages@.deep()) is Some ==> r is Err,
            command::plan(r) == match (
                request::pins_refused(
                    packages@.deep(),
                    "apx: `"@,
                    "` pins a version, but apx installs whatever its container resolves"@,
                )
            ) {
                Err(error) => Err(error),
                Ok(_) => if ctx.dry_run {
                    Err(ErrorView::Other("apx: upgrade has no dry-run mode"@))
                } else if packages@.len() == 0 {
                    command::just(CmdView::new(self.program@).arg("upgrade"@))
                } else {
                    command::just(
                        CmdView::new(self.program@).arg("install"@).names(packages@.deep()),
                    )
                },
            },
    {
        if let Err(error) = reject_pins(packages) {
            return Err(error);
        }
        if ctx.dry_run {
            return Err(error::other("apx: upgrade has no dry-run mode"));
        }
        if packages.len() == 0 {
            return Ok(command::one(Cmd::new(&self.program).arg("upgrade")));
        }
        Ok(
            command::one(
                Cmd::new(&self.program).arg("install").names(packages),
            ),
        )
    }

    pub fn list_installed(&self, replies: &[Reply]) -> (r: Step<Listing<ApxPackage>>)
        ensures
            r@ == session::listed(
                CmdView::query(self.program@).arg("list"@),
                replies@.deep(),
                |out: Seq<char>| parse_list_spec(out),
            ),
            r@.only_looks(),
            r@.in_c_locale(),
    {
        session::list(
            Cmd::query(&self.program).arg("list"),
            replies,
            parse_list,
            Ghost(|out: Seq<char>| parse_list_spec(out)),
        )
    }

    pub fn search(&self, query: &str, replies: &[Reply]) -> (r: Step<Listing<ApxPackage>>)
        ensures
            r@ == session::listed(
                CmdView::query(self.program@).arg("search"@).arg(query@),
                replies@.deep(),
                |out: Seq<char>| parse_search_spec(out),
            ),
            r@.only_looks(),
            r@.in_c_locale(),
    {
        session::list(
            Cmd::query(&self.program).arg("search").arg(query),
            replies,
            parse_search,
            Ghost(|out: Seq<char>| parse_search_spec(out)),
        )
    }

    /// The container describes a package; the list tells what is installed.
    pub open spec fn info_spec(self, name: Seq<char>, replies: Seq<ReplyView>) -> StepView<
        PackageView,
    > {
        if replies.len() == 0 {
            session::ask(CmdView::query(self.program@).arg("show"@).arg(name))
        } else if !replies[0].success || replies[0].stdout.trim().len() == 0 {
            StepView::Fail(ErrorView::NotFound(name))
        } else {
            match parse_show_spec(replies[0].stdout) {
                None => StepView::Fail(
                    ErrorView::Parse {
                        what: "apx show output"@,
                        detail: "no `Package` field for `"@ + name + "`"@,
                    },
                ),
                Some(package) => if replies.len() == 1 {
                    session::ask(CmdView::query(self.program@).arg("list"@))
                } else {
                    StepView::Done(
                        merge_spec(
                            package,
                            session::called(parse_list_spec(replies[1].stdout), package.name),
                        ),
                    )
                },
            }
        }
    }

    pub fn info(&self, name: &str, replies: &[Reply]) -> (r: Step<ApxPackage>)
        ensures
            r@ == self.info_spec(name@, replies@.deep()),
            r@.only_looks(),
            r@.in_c_locale(),
    {
        if replies.len() == 0 {
            return session::query(Cmd::query(&self.program).arg("show").arg(name));
        }
        assert(replies@.deep()[0] == replies@[0]@);
        if !replies[0].success || session::is_empty(&replies[0].stdout) {
            return Step::Fail(error::not_found(name));
        }
        let package = match parse_show(&replies[0].stdout) {
            None => {
                return Step::Fail(
                    Error::Parse {
                        what: text::copy("apx show output"),
                        detail: text::cat3("no `Package` field for `", name, "`"),
                    },
                );
            },
            Some(package) => package,
        };
        if replies.len() == 1 {
            return session::query(Cmd::query(&self.program).arg("list"));
        }
        assert(replies@.deep()[1] == replies@[1]@);
        let listed = session::take_called(parse_list(&replies[1].stdout), &package.name);
        Step::Done(merge(package, listed))
    }
}

} // verus!
