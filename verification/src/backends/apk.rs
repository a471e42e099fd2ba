//! Alpine's apk-tools.
//!
//! apk never asks unless it is told to, so `assume_yes` has nothing to do.
//! `add`, `del` and `upgrade` take `--simulate`; the index refresh does not.
//! apk writes `name-version-rN` throughout, parted at the last hyphen that is
//! followed by a digit.

use vstd::prelude::*;

use crate::command::{self, Cmd, CmdView, Plan};
use crate::detect::{self, Detection};
use crate::error::{self, Error, ErrorView};
use crate::package::{self, Details, InstallState, Package, PackageView};
use crate::profile::{basic_capabilities, Capabilities, ManagerKind, Profile};
use crate::request::{OpContext, PackageRequest};
use crate::rows::{self, Scanner};
use crate::session::{self, Listing, Reply, Step, StepView};
use crate::text::{self, chars, Deep, Pieces, Text};
use crate::version;

verus! {

broadcast use command::group_carries;

/// Finds the manager and sets it up.
#[derive(Clone, Copy, Debug)]
pub struct Factory;

/// The factory of this backend.
pub fn factory() -> (r: Factory)
    ensures
        r == Factory,
{
    Factory
}

impl Factory {
    pub fn id(&self) -> (r: &'static str)
        ensures
            r@ == "apk"@,
    {
        "apk"
    }

    /// The programs to look for, in the order of preference.
    pub fn programs(&self) -> (r: Vec<&'static str>)
        ensures
            r@.deep() == seq!["apk"@],
    {
        let mut out: Vec<&'static str> = Vec::new();
        out.push("apk");
        assert(out@.deep() =~= seq!["apk"@]);
        out
    }

    /// Whether the backend can be used, given where each program was found.
    pub fn detect(&self, found: &[Option<String>]) -> (r: Detection)
        ensures
            r@ == detect::detected(found@, "`apk` not found on PATH"@),
    {
        detect::detect(found, "`apk` not found on PATH")
    }

    /// The manager, given where each program was found.
    pub fn create(&self, found: &[Option<String>]) -> (r: Result<Manager, Error>)
        ensures
            match r {
                Ok(manager) => detect::required(found@, "apk"@) == Ok::<Seq<char>, ErrorView>(
                    manager.program@,
                ),
                Err(error) => detect::required(found@, "apk"@) == Err::<Seq<char>, ErrorView>(
                    error@,
                ),
            },
    {
        match detect::require(found, "apk") {
            Ok(program) => Ok(Manager { program }),
            Err(error) => Err(error),
        }
    }
}

/// The manager, driving `program`.
#[derive(Debug)]
pub struct Manager {
    pub program: String,
}

impl Manager {
    /// What the manager says of itself.
    pub fn profile(&self) -> (r: Profile)
        ensures
            r.id@ == "apk"@,
            r.display_name@ == "apk-tools"@,
            r.kind == ManagerKind::System,
            r.database_id@ == "apkdb"@,
            r.capabilities == (Capabilities {
                search: true,
                refresh: true,
                upgrade: true,
                list_outdated: true,
                pin_version: true,
                ..Capabilities::basic()
            }),
            r.elevates == true,
    {
        Profile {
            id: "apk",
            display_name: "apk-tools",
            kind: ManagerKind::System,
            database_id: "apkdb",
            capabilities: Capabilities {
                search: true,
                refresh: true,
                upgrade: true,
                list_outdated: true,
                pin_version: true,
                ..basic_capabilities()
            },
            elevates: true,
        }
    }
}

/// A package as apk describes it.
#[derive(Debug)]
pub struct ApkPackage {
    pub name: String,
    pub version: Option<String>,
    pub latest_version: Option<String>,
    pub description: Option<String>,
    pub homepage: Option<String>,
    pub license: Option<String>,
    pub architecture: Option<String>,
    pub origin: Option<String>,
    pub dependencies: Option<Vec<String>>,
    pub state: InstallState,
}

impl View for ApkPackage {
    type V = PackageView;

    open spec fn view(&self) -> PackageView {
        PackageView {
            name: self.name@,
            version: self.version.deep(),
            latest_version: self.latest_version.deep(),
            description: self.description.deep(),
            homepage: self.homepage.deep(),
            license: self.license.deep(),
            architecture: self.architecture.deep(),
            origin: self.origin.deep(),
            dependencies: package::maybe_strings(self.dependencies),
            state: self.state,
            ..PackageView::blank()
        }
    }
}

impl Default for ApkPackage {
    fn default() -> (r: ApkPackage)
        ensures
            r@ == PackageView::blank(),
    {
        ApkPackage {
            name: String::new(),
            version: None,
            latest_version: None,
            description: None,
            homepage: None,
            license: None,
            architecture: None,
            origin: None,
            dependencies: None,
            state: InstallState::Unknown,
        }
    }
}

impl Package for ApkPackage {
    open spec fn manager_id() -> Seq<char> {
        "apk"@
    }

    fn manager(&self) -> (r: &'static str) {
        "apk"
    }

    fn details(&self) -> (r: Details<'_>) {
        Details {
            version: self.version.as_ref(),
            latest_version: self.latest_version.as_ref(),
            description: self.description.as_ref(),
            homepage: self.homepage.as_ref(),
            license: self.license.as_ref(),
            architecture: self.architecture.as_ref(),
            origin: self.origin.as_ref(),
            dependencies: self.dependencies.as_ref(),
            ..Details::of(&self.name, self.state)
        }
    }
}

impl Manager {
    /// An elevated subcommand, simulated on a dry run.
    pub open spec fn mutation_spec(self, subcommand: Seq<char>, ctx: OpContext) -> CmdView {
        CmdView::new(self.program@).arg(subcommand).elevated().flag(ctx.dry_run, "--simulate"@)
    }

    fn mutation(&self, subcommand: &str, ctx: &OpContext) -> (r: Cmd)
        ensures
            r@ == self.mutation_spec(subcommand@, *ctx),
    {
        Cmd::new(&self.program).arg(subcommand).elevated().flag(ctx.dry_run, "--simulate")
    }

    pub fn install(&self, packages: &[PackageRequest], ctx: &OpContext) -> (r: Plan)
        ensures
            command::plan(r) == command::just(
                self.mutation_spec("add"@, *ctx).pinned(packages@.deep(), "="@),
            ),
            command::all_elevated(command::plan(r), true),
            ctx.dry_run ==> command::all_carry(command::plan(r), "--simulate"@),
            command::plan(r) == command::just(
                CmdView::new(self.program@).arg("add"@).elevated().flag(
                    ctx.dry_run,
                    "--simulate"@,
                ).pinned(packages@.deep(), "="@),
            ),
    {
        Ok(command::one(self.mutation("add", ctx).pinned(packages, "=")))
    }

    pub fn remove(&self, packages: &[PackageRequest], ctx: &OpContext) -> (r: Plan)
        ensures
            command::plan(r) == command::just(
                self.mutation_spec("del"@, *ctx).names(packages@.deep()),
            ),
            command::all_elevated(command::plan(r), true),
            ctx.dry_run ==> command::all_carry(command::plan(r), "--simulate"@),
            command::plan(r) == command::just(
                CmdView::new(self.program@).arg("del"@).elevated().flag(
                    ctx.dry_run,
                    "--simulate"@,
                ).names(packages@.deep()),
            ),
    {
        Ok(command::one(self.mutation("del", ctx).names(packages)))
    }

    /// Without names everything is upgraded; with names, just those move, to
    /// the version each asks for.
    pub fn upgrade(&self, packages: &[PackageRequest], ctx: &OpContext) -> (r: Plan)
        ensures
            command::plan(r) == command::just(
                if packages@.len() == 0 {
                    self.mutation_spec("upgrade"@, *ctx)
                } else {
                    self.mutation_spec("add"@, *ctx).arg("--upgrade"@).pinned(
                        packages@.deep(),
                        "="@,
                    )
                },
            ),
            command::all_elevated(command::plan(r), true),
            ctx.dry_run ==> command::all_carry(command::plan(r), "--simulate"@),
            command::plan(r) == command::just(
                if packages@.len() == 0 {
                    CmdView::new(self.program@).arg("upgrade"@).elevated().flag(
                        ctx.dry_run,
                        "--simulate"@,
                    )
                } else {
                    CmdView::new(self.program@).arg("add"@).elevated().flag(
                        ctx.dry_run,
                        "--simulate"@,
                    ).arg("--upgrade"@).pinned(packages@.deep(), "="@)
                },
            ),
    {
        if packages.len() == 0 {
            Ok(command::one(self.mutation("upgrade", ctx)))
        } else {
            Ok(command::one(self.mutation("add", ctx).arg("--upgrade").pinned(packages, "=")))
        }
    }

    pub fn refresh(&self, ctx: &OpContext) -> (r: Plan)
        ensures
            command::plan(r) == if ctx.dry_run {
                Err(ErrorView::Other("apk: refresh has no dry-run mode"@))
            } else {
                command::just(CmdView::new(self.program@).arg("update"@).elevated())
            },
            command::all_elevated(command::plan(r), true),
            ctx.dry_run ==> r is Err,
    {
        if ctx.dry_run {
            return Err(error::other("apk: refresh has no dry-run mode"));
        }
        Ok(command::one(Cmd::new(&self.program).arg("update").elevated()))
    }

    pub fn list_installed(&self, replies: &[Reply]) -> (r: Step<Listing<ApkPackage>>)
        ensures
            r@ == session::listed(
                CmdView::query(self.program@).arg("list"@).arg("--installed"@),
                replies@.deep(),
                |out: Seq<char>| parse_list_spec(out),
            ),
            r@.only_looks(),
            r@.in_c_locale(),
    {
        session::list(
            Cmd::query(&self.program).arg("list").arg("--installed"),
            replies,
            parse_list,
            Ghost(|out: Seq<char>| parse_list_spec(out)),
        )
    }

    pub fn list_outdated(&self, replies: &[Reply]) -> (r: Step<Listing<ApkPackage>>)
        ensures
            r@ == session::listed(
                CmdView::query(self.program@).arg("list"@).arg("--upgradable"@),
                replies@.deep(),
                |out: Seq<char>| parse_list_spec(out),
            ),
            r@.only_looks(),
            r@.in_c_locale(),
    {
        session::list(
            Cmd::query(&self.program).arg("list").arg("--upgradable"),
            replies,
            parse_list,
            Ghost(|out: Seq<char>| parse_list_spec(out)),
        )
    }

    pub fn search(&self, query: &str, replies: &[Reply]) -> (r: Step<Listing<ApkPackage>>)
        ensures
            r@ == session::listed(
                CmdView::query(self.program@).arg("search"@).arg("-v"@).arg(query@),
                replies@.deep(),
                |out: Seq<char>| parse_search_spec(out),
            ),
            r@.only_looks(),
            r@.in_c_locale(),
    {
        session::list(
            Cmd::query(&self.program).arg("search").arg("-v").arg(query),
            replies,
            parse_search,
            Ghost(|out: Seq<char>| parse_search_spec(out)),
        )
    }

    /// `apk list` tells version, architecture, origin, license and state;
    /// `apk info` adds description, webpage and dependencies.
    pub fn info(&self, name: &str, replies: &[Reply]) -> (r: Step<ApkPackage>)
        ensures
            r@ == (if replies@.len() == 0 {
                session::ask(CmdView::query(self.program@).arg("list"@).arg(name@))
            } else if replies@.len() == 1 {
                session::ask(
                    CmdView::query(self.program@).arg("info"@).arg("-d"@).arg("-w"@).arg("-R"@).arg(
                        name@,
                    ),
                )
            } else {
                match merge_info_spec(name@, replies@[0].stdout@, replies@[1].stdout@) {
                    Some(package) => StepView::Done(package),
                    None => StepView::Fail(ErrorView::NotFound(name@)),
                }
            }),
            r@.only_looks(),
            r@.in_c_locale(),
    {
        if replies.len() == 0 {
            return session::query(Cmd::query(&self.program).arg("list").arg(name));
        }
        if replies.len() == 1 {
            return session::query(
                Cmd::query(&self.program).arg("info").arg("-d").arg("-w").arg("-R").arg(name),
            );
        }
        match merge_info(name, &replies[0].stdout, &replies[1].stdout) {
            Some(package) => Step::Done(package),
            None => Step::Fail(error::not_found(name)),
        }
    }
}

/// What a listing and a description together say of the package `name`. Of
/// several listed entries the last installed one counts, else the last.
pub open spec fn merge_info_spec(
    name: Seq<char>,
    listing: Seq<char>,
    details: Seq<char>,
) -> Option<PackageView> {
    let listed = parse_list_spec(listing);
    let installed = rows::last(
        listed,
        |p: PackageView| p.name == name && p.state != InstallState::Available,
    );
    let package = if installed is Some {
        installed
    } else {
        rows::last(listed, |p: PackageView| p.name == name)
    };
    match (package, parse_info_spec(details)) {
        (Some(package), Some(described)) if described.name == name => Some(
            PackageView {
                description: described.description,
                homepage: described.homepage,
                dependencies: described.dependencies,
                ..package
            },
        ),
        (None, Some(described)) if described.name == name => Some(described),
        (package, _) => package,
    }
}

pub fn merge_info(name: &str, listing: &str, details: &str) -> (r: Option<ApkPackage>)
    ensures
        r.deep() == merge_info_spec(name@, listing@, details@),
{
    let is_installed = |p: &ApkPackage| -> (b: bool)
        ensures
            b == (p@.name == name@ && p@.state != InstallState::Available),
        { text::equal(&p.name, name) && p.state != InstallState::Available };
    let is_named = |p: &ApkPackage| -> (b: bool)
        ensures
            b == (p@.name == name@),
        { text::equal(&p.name, name) };
    let installed = rows::take_last(
        parse_list(listing),
        is_installed,
        Ghost(|p: PackageView| p.name == name@ && p.state != InstallState::Available),
    );
    let package = match installed {
        Some(package) => Some(package),
        None => rows::take_last(
            parse_list(listing),
            is_named,
            Ghost(|p: PackageView| p.name == name@),
        ),
    };
    match (package, parse_info(details)) {
        (Some(package), Some(described)) => {
            if text::equal(&described.name, name) {
                Some(
                    ApkPackage {
                        description: described.description,
                        homepage: described.homepage,
                        dependencies: described.dependencies,
                        ..package
                    },
                )
            } else {
                Some(package)
            }
        },
        (None, Some(described)) => {
            if text::equal(&described.name, name) {
                Some(described)
            } else {
                None
            }
        },
        (package, None) => package,
    }
}

/// `name=version` when the request pins one, the bare name otherwise.
pub fn spec(request: &PackageRequest) -> (r: String)
    ensures
        r@ == request@.pinned("="@),
{
    request.pinned("=")
}

/// `name-1.2.3-r0` is `name` at `1.2.3-r0`: the version starts behind the last
/// hyphen followed by a digit.
pub fn split_pkgver(pkgver: &str) -> (r: (String, Option<String>))
    ensures
        version::name_and_version(r) == version::split_last(pkgver@),
{
    version::split_at_last(pkgver)
}

/// The text between the first `open` and the last `close`.
pub open spec fn between_spec(line: Seq<char>, open: char, close: char) -> Option<Seq<char>> {
    let start = text::find_set(line, seq![open], true) + 1;
    let end = text::find_last(line, close);
    if start <= line.len() && start <= end {
        Some(line.subrange(start as int, end))
    } else {
        None
    }
}

fn slice_between(line: &[char], open: char, close: char) -> (r: Option<&[char]>)
    ensures
        r.deep() == between_spec(line@, open, close),
{
    let set: [char; 1] = [open];
    assert(set@ =~= seq![open]);
    let start = text::position(line, &set, true);
    if start >= line.len() {
        return None;
    }
    match text::rfind(line, close) {
        Some(end) => {
            if start + 1 <= end {
                Some(text::part(line, start + 1, end))
            } else {
                None
            }
        },
        None => None,
    }
}

/// The text between the first `open` and the last `close`.
pub fn between(line: &str, open: char, close: char) -> (r: Option<String>)
    ensures
        r.deep() == between_spec(line@, open, close),
{
    let t = chars(line);
    text::maybe_string(slice_between(&t, open, close))
}

/// A line of `apk list`: `pkgver arch {origin} (license) [markers]`, where
/// `[upgradable from: pkgver]` names the installed version.
pub open spec fn list_row_spec(line: Seq<char>) -> Option<PackageView> {
    let words = line.words();
    if words.len() == 0 {
        None
    } else {
        match version::split_last(words[0]) {
            (name, Some(listed)) => {
                let package = PackageView {
                    architecture: words.nth(1),
                    origin: between_spec(line, '{', '}'),
                    license: between_spec(line, '(', ')'),
                    ..PackageView::named(name, InstallState::Available)
                };
                match line.cut("[upgradable from: "@) {
                    Some((_, from)) => Some(
                        PackageView {
                            version: version::split_last(from.trim_back("]"@)).1,
                            latest_version: Some(listed),
                            state: InstallState::Upgradable,
                            ..package
                        },
                    ),
                    None => Some(
                        PackageView {
                            version: Some(listed),
                            state: if line.has("[installed"@) {
                                InstallState::Installed
                            } else {
                                InstallState::Available
                            },
                            ..package
                        },
                    ),
                }
            },
            (_, None) => None,
        }
    }
}

fn list_row(line: &[char]) -> (r: Option<ApkPackage>)
    ensures
        r.deep() == list_row_spec(line@),
{
    let words = text::words(line);
    if words.len() == 0 {
        return None;
    }
    let (name, listed) = match version::at_last_dash(words[0]) {
        (name, Some(listed)) => (name, listed),
        (_, None) => {
            return None;
        },
    };
    let package = ApkPackage {
        name: text::string(name),
        architecture: text::maybe_string(text::nth(&words, 1)),
        origin: text::maybe_string(slice_between(line, '{', '}')),
        license: text::maybe_string(slice_between(line, '(', ')')),
        ..ApkPackage::default()
    };
    match text::cut(line, "[upgradable from: ") {
        Some((_, from)) => {
            let (_, current) = version::at_last_dash(text::trim_back(from, "]"));
            Some(
                ApkPackage {
                    version: text::maybe_string(current),
                    latest_version: Some(text::string(listed)),
                    state: InstallState::Upgradable,
                    ..package
                },
            )
        },
        None => Some(
            ApkPackage {
                version: Some(text::string(listed)),
                state: if text::has(line, "[installed") {
                    InstallState::Installed
                } else {
                    InstallState::Available
                },
                ..package
            },
        ),
    }
}

/// The packages that `apk list` prints.
pub open spec fn parse_list_spec(stdout: Seq<char>) -> Seq<PackageView> {
    rows::select(stdout.lines(), |line: Seq<char>| list_row_spec(line))
}

pub fn parse_list(stdout: &str) -> (r: Vec<ApkPackage>)
    ensures
        r@.deep() == parse_list_spec(stdout@),
{
    rows::select_rows(stdout, list_row, Ghost(|line: Seq<char>| list_row_spec(line)))
}

/// A line of `apk search -v`: `pkgver - description`; the index knows no
/// install state.
pub open spec fn search_row_spec(line: Seq<char>) -> Option<PackageView> {
    let (pkgver, description) = match line.cut(" - "@) {
        Some((pkgver, description)) => (pkgver, description.trim().filled()),
        None => (line.trim(), None),
    };
    match version::split_last(pkgver) {
        (name, Some(version)) => Some(
            PackageView {
                description,
                ..PackageView::versioned(name, Some(version), InstallState::Available)
            },
        ),
        (_, None) => None,
    }
}

fn search_row(line: &[char]) -> (r: Option<ApkPackage>)
    ensures
        r.deep() == search_row_spec(line@),
{
    let (pkgver, description) = match text::cut(line, " - ") {
        Some((pkgver, description)) => (pkgver, text::filled(text::trim(description))),
        None => (text::trim(line), None),
    };
    match version::at_last_dash(pkgver) {
        (name, Some(version)) => Some(
            ApkPackage {
                name: text::string(name),
                version: Some(text::string(version)),
                description: text::maybe_string(description),
                state: InstallState::Available,
                ..ApkPackage::default()
            },
        ),
        (_, None) => None,
    }
}

/// The packages that `apk search -v` prints.
pub open spec fn parse_search_spec(stdout: Seq<char>) -> Seq<PackageView> {
    rows::select(stdout.lines(), |line: Seq<char>| search_row_spec(line))
}

pub fn parse_search(stdout: &str) -> (r: Vec<ApkPackage>)
    ensures
        r@.deep() == parse_search_spec(stdout@),
        crate::package::all_in(r@.deep(), InstallState::Available),
{
    proof {
        rows::selected_have(
            stdout@.lines(),
            |line: Seq<char>| search_row_spec(line),
            |p: PackageView| p.state == InstallState::Available,
        );
    }
    rows::select_rows(stdout, search_row, Ghost(|line: Seq<char>| search_row_spec(line)))
}

/// Where the reading of `apk info` stands: the package so far, and the
/// section that the next line belongs to.
struct InfoScan {
    package: Option<ApkPackage>,
    section: Option<String>,
}

/// The model of the reading of `apk info`.
pub struct InfoScanView {
    pub package: Option<PackageView>,
    pub section: Option<Seq<char>>,
}

/// The header of a section, `<pkgver> <label>:`, as name, version and label.
pub open spec fn info_header_spec(line: Seq<char>) -> Option<(Seq<char>, Seq<char>, Seq<char>)> {
    match line.without_suffix(":"@) {
        Some(header) => match header.cut(" "@) {
            Some((pkgver, label)) => match version::split_last(pkgver) {
                (name, Some(version)) => Some((name, version, label)),
                (_, None) => None,
            },
            None => None,
        },
        None => None,
    }
}

fn info_header(line: &[char]) -> (r: Option<(&[char], &[char], &[char])>)
    ensures
        r.deep() == info_header_spec(line@),
{
    match text::without_suffix(line, ":") {
        Some(header) => match text::cut(header, " ") {
            Some((pkgver, label)) => match version::at_last_dash(pkgver) {
                (name, Some(version)) => Some((name, version, label)),
                (_, None) => None,
            },
            None => None,
        },
        None => None,
    }
}

/// The package after a line of the given section.
pub open spec fn info_line_spec(
    package: PackageView,
    section: Option<Seq<char>>,
    line: Seq<char>,
) -> PackageView {
    if section == Some("description"@) {
        PackageView {
            description: Some(
                match package.description {
                    Some(description) => description + " "@ + line,
                    None => line,
                },
            ),
            ..package
        }
    } else if section == Some("webpage"@) && package.homepage is None {
        PackageView { homepage: Some(line), ..package }
    } else if section == Some("depends on"@) {
        PackageView {
            dependencies: Some(
                match package.dependencies {
                    Some(dependencies) => dependencies.push(line),
                    None => seq![line],
                },
            ),
            ..package
        }
    } else {
        package
    }
}

fn info_line(package: ApkPackage, section: &Option<String>, line: &[char]) -> (r: ApkPackage)
    ensures
        r@ == info_line_spec(package@, section.deep(), line@),
{
    let section = match section {
        Some(section) => chars(section),
        None => {
            return package;
        },
    };
    let mut package = package;
    if text::is(&section, "description") {
        package.description = Some(
            match package.description {
                Some(description) => text::cat3(&description, " ", &text::string(line)),
                None => text::string(line),
            },
        );
    } else if text::is(&section, "webpage") && package.homepage.is_none() {
        package.homepage = Some(text::string(line));
    } else if text::is(&section, "depends on") {
        let mut dependencies = match package.dependencies {
            Some(dependencies) => dependencies,
            None => Vec::new(),
        };
        let ghost before = dependencies@;
        dependencies.push(text::string(line));
        assert(dependencies@.deep() =~= before.deep().push(line@));
        assert(before.len() == 0 ==> dependencies@.deep() =~= seq![line@]);
        package.dependencies = Some(dependencies);
    }
    package
}

impl Scanner for InfoScan {
    type State = InfoScanView;

    closed spec fn state(&self) -> InfoScanView {
        InfoScanView { package: self.package.deep(), section: self.section.deep() }
    }

    open spec fn next(state: InfoScanView, line: Seq<char>) -> InfoScanView {
        info_next_spec(state, line)
    }

    fn feed(&mut self, line: &[char]) {
        let line = text::trim_end(line);
        if line.len() == 0 {
            self.section = None;
            return;
        }
        if let Some((name, version, label)) = info_header(line) {
            if self.package.is_none() {
                self.package = Some(
                    ApkPackage {
                        name: text::string(name),
                        version: Some(text::string(version)),
                        state: InstallState::Available,
                        ..ApkPackage::default()
                    },
                );
            }
            self.section = Some(text::string(label));
            return;
        }
        if let Some(package) = self.package.take() {
            self.package = Some(info_line(package, &self.section, line));
        }
    }
}

/// The reading of `apk info` after one more line. The first header names the
/// package; an empty line ends a section.
pub open spec fn info_next_spec(state: InfoScanView, line: Seq<char>) -> InfoScanView {
    let line = line.trim_end();
    if line.len() == 0 {
        InfoScanView { section: None, ..state }
    } else {
        match info_header_spec(line) {
            Some((name, version, label)) => InfoScanView {
                package: match state.package {
                    Some(package) => Some(package),
                    None => Some(
                        PackageView::versioned(name, Some(version), InstallState::Available),
                    ),
                },
                section: Some(label),
            },
            None => InfoScanView {
                package: match state.package {
                    Some(package) => Some(info_line_spec(package, state.section, line)),
                    None => None,
                },
                ..state
            },
        }
    }
}

/// The package that `apk info -d -w -R` describes.
pub open spec fn parse_info_spec(stdout: Seq<char>) -> Option<PackageView> {
    rows::scan(
        InfoScanView { package: None, section: None },
        stdout.lines(),
        |state: InfoScanView, line: Seq<char>| info_next_spec(state, line),
    ).package
}

pub fn parse_info(stdout: &str) -> (r: Option<ApkPackage>)
    ensures
        r.deep() == parse_info_spec(stdout@),
{
    rows::scan_output(
        InfoScan { package: None, section: None },
        stdout,
        Ghost(|state: InfoScanView, line: Seq<char>| info_next_spec(state, line)),
    ).package
}

} // verus!
