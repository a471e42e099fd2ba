//! Homebrew, as far as formulae go.
//!
//! Homebrew refuses to run as root, so nothing is elevated. A formula is
//! always installed at its current version; `python@3.11` and the like are
//! names of their own. `info` and `outdated` print JSON.

use vstd::prelude::*;

use crate::command::{self, Cmd, CmdView, Plan};
use crate::data::{self, Data, DataView};
use crate::detect::{self, Detection};
use crate::error::{self, Error, ErrorView};
use crate::package::{self, Details, InstallState, Package, PackageView};
use crate::profile::{basic_capabilities, Capabilities, ManagerKind, Profile};
use crate::request::{self, OpContext, PackageRequest, RequestView};
use crate::rows::{self, Scanner};
use crate::session::{self, Listing, Reply, Step, StepView};
use crate::text::{self, chars, Deep, Text};

verus! {

broadcast use command::group_carries;

/// Finds the manager and sets it up.
#[derive(Clone, Copy, Debug)]
pub struct Factory;

/// The factory of this backend.
pub fn factory() -> (r: Factory)
    ensures
        r == Factory,
{
    Factory
}

impl Factory {
    pub fn id(&self) -> (r: &'static str)
        ensures
            r@ == "brew"@,
    {
        "brew"
    }

    /// The programs to look for, in the order of preference.
    pub fn programs(&self) -> (r: Vec<&'static str>)
        ensures
            r@.deep() == seq!["brew"@],
    {
        let mut out: Vec<&'static str> = Vec::new();
        out.push("brew");
        assert(out@.deep() =~= seq!["brew"@]);
        out
    }

    /// Whether the backend can be used, given where each program was found.
    pub fn detect(&self, found: &[Option<String>]) -> (r: Detection)
        ensures
            r@ == detect::detected(found@, "`brew` not found on PATH"@),
    {
        detect::detect(found, "`brew` not found on PATH")
    }

    /// The manager, given where each program was found.
    pub fn create(&self, found: &[Option<String>]) -> (r: Result<Manager, Error>)
        ensures
            match r {
                Ok(manager) => detect::required(found@, "brew"@) == Ok::<Seq<char>, ErrorView>(
                    manager.program@,
                ),
                Err(error) => detect::required(found@, "brew"@) == Err::<Seq<char>, ErrorView>(
                    error@,
                ),
            },
    {
        match detect::require(found, "brew") {
            Ok(program) => Ok(Manager { program }),
            Err(error) => Err(error),
        }
    }
}

/// The manager, driving `program`.
#[derive(Debug)]
pub struct Manager {
    pub program: String,
}

impl Manager {
    /// What the manager says of itself.
    pub fn profile(&self) -> (r: Profile)
        ensures
            r.id@ == "brew"@,
            r.display_name@ == "Homebrew"@,
            r.kind == ManagerKind::Universal,
            r.database_id@ == "brew"@,
            r.capabilities == (Capabilities {
                search: true,
                refresh: true,
                upgrade: true,
                list_outdated: true,
                ..Capabilities::basic()
            }),
            r.elevates == false,
    {
        Profile {
            id: "brew",
            display_name: "Homebrew",
            kind: ManagerKind::Universal,
            database_id: "brew",
            capabilities: Capabilities {
                search: true,
                refresh: true,
                upgrade: true,
                list_outdated: true,
                ..basic_capabilities()
            },
            elevates: false,
        }
    }
}

/// A package as brew describes it.
#[derive(Debug)]
pub struct BrewPackage {
    pub name: String,
    pub version: Option<String>,
    pub latest_version: Option<String>,
    pub description: Option<String>,
    pub homepage: Option<String>,
    pub license: Option<String>,
    pub dependencies: Option<Vec<String>>,
    pub state: InstallState,
}

impl View for BrewPackage {
    type V = PackageView;

    open spec fn view(&self) -> PackageView {
        PackageView {
            name: self.name@,
            version: self.version.deep(),
            latest_version: self.latest_version.deep(),
            description: self.description.deep(),
            homepage: self.homepage.deep(),
            license: self.license.deep(),
            dependencies: package::maybe_strings(self.dependencies),
            state: self.state,
            ..PackageView::blank()
        }
    }
}

impl Default for BrewPackage {
    fn default() -> (r: BrewPackage)
        ensures
            r@ == PackageView::blank(),
    {
        BrewPackage {
            name: String::new(),
            version: None,
            latest_version: None,
            description: None,
            homepage: None,
            license: None,
            dependencies: None,
            state: InstallState::Unknown,
        }
    }
}

impl Package for BrewPackage {
    open spec fn manager_id() -> Seq<char> {
        "brew"@
    }

    fn manager(&self) -> (r: &'static str) {
        "brew"
    }

    fn details(&self) -> (r: Details<'_>) {
        Details {
            version: self.version.as_ref(),
            latest_version: self.latest_version.as_ref(),
            description: self.description.as_ref(),
            homepage: self.homepage.as_ref(),
            license: self.license.as_ref(),
            dependencies: self.dependencies.as_ref(),
            ..Details::of(&self.name, self.state)
        }
    }
}

/// brew cannot install an arbitrary older version of a formula.
pub open spec fn reject_pins_spec(requests: Seq<RequestView>) -> Result<(), ErrorView> {
    request::pins_refused(
        requests,
        "brew: `"@,
        "` pins a version; brew only installs a formula's current version (versioned formulae like `python@3.11` are separate names)"@,
    )
}

pub fn reject_pins(requests: &[PackageRequest]) -> (r: Result<(), Error>)
    ensures
        error::outcome(r) == reject_pins_spec(requests@.deep()),
{
    request::refuse_pins(
        requests,
        "brew: `",
        "` pins a version; brew only installs a formula's current version (versioned formulae like `python@3.11` are separate names)",
    )
}

impl Manager {
    pub fn install(&self, packages: &[PackageRequest], ctx: &OpContext) -> (r: Plan)
        ensures
            command::plan(r) == match reject_pins_spec(packages@.deep()) {
                Err(error) => Err(error),
                Ok(_) => command::just(
                    CmdView::new(self.program@).arg("install"@).flag(
                        ctx.dry_run,
                        "--dry-run"@,
                    ).names(packages@.deep()),
                ),
            },
            command::all_elevated(command::plan(r), false),
            ctx.dry_run ==> command::all_carry(command::plan(r), "--dry-run"@),
            request::first_pin(packages@.deep()) is Some ==> r is Err,
            command::plan(r) == match (
                request::pins_refused(
                    packages@.deep(),
                    "brew: `"@,
                    "` pins a version; brew only installs a formula's current version (versioned formulae like `python@3.11` are separate names)"@,
                )
            ) {
                Err(error) => Err(error),
                Ok(_) => command::just(
                    CmdView::new(self.program@).arg("install"@).flag(
                        ctx.dry_run,
                        "--dry-run"@,
                    ).names(packages@.deep()),
                ),
            },
    {
        match reject_pins(packages) {
            Err(error) => Err(error),
            Ok(_) => Ok(
                command::one(
                    Cmd::new(&self.program).arg("install").flag(ctx.dry_run, "--dry-run").names(
                        packages,
                    ),
                ),
            ),
        }
    }

    pub fn remove(&self, packages: &[PackageRequest], ctx: &OpContext) -> (r: Plan)
        ensures
            command::plan(r) == if ctx.dry_run {
                Err(ErrorView::Other("brew: uninstall has no dry-run mode"@))
            } else {
                command::just(
                    CmdView::new(self.program@).arg("uninstall"@).names(packages@.deep()),
                )
            },
            command::all_elevated(command::plan(r), false),
            ctx.dry_run ==> r is Err,
    {
        if ctx.dry_run {
            return Err(error::other("brew: uninstall has no dry-run mode"));
        }
        Ok(command::one(Cmd::new(&self.program).arg("uninstall").names(packages)))
    }

    /// Without names everything is upgraded.
    pub fn upgrade(&self, packages: &[PackageRequest], ctx: &OpContext) -> (r: Plan)
        ensures
            command::plan(r) == match reject_pins_spec(packages@.deep()) {
                Err(error) => Err(error),
                Ok(_) => command::just(
                    CmdView::new(self.program@).arg("upgrade"@).flag(
                        ctx.dry_run,
                        "--dry-run"@,
                    ).names(packages@.deep()),
                ),
            },
            command::all_elevated(command::plan(r), false),
            ctx.dry_run ==> command::all_carry(command::plan(r), "--dry-run"@),
            request::first_pin(packages@.deep()) is Some ==> r is Err,
            command::plan(r) == match (
                request::pins_refused(
                    packages@.deep(),
                    "brew: `"@,
                    "` pins a version; brew only installs a formula's current version (versioned formulae like `python@3.11` are separate names)"@,
                )
            ) {
                Err(error) => Err(error),
                Ok(_) => command::just(
                    CmdView::new(self.program@).arg("upgrade"@).flag(
                        ctx.dry_run,
                        "--dry-run"@,
                    ).names(packages@.deep()),
                ),
            },
    {
        match reject_pins(packages) {
            Err(error) => Err(error),
            Ok(_) => Ok(
                command::one(
                    Cmd::new(&self.program).arg("upgrade").flag(ctx.dry_run, "--dry-run").names(
                        packages,
                    ),
                ),
            ),
        }
    }

    pub fn refresh(&self, ctx: &OpContext) -> (r: Plan)
        ensures
            command::plan(r) == if ctx.dry_run {
                Err(ErrorView::Other("brew: update has no dry-run mode"@))
            } else {
                command::just(CmdView::new(self.program@).arg("update"@))
            },
            command::all_elevated(command::plan(r), false),
            ctx.dry_run ==> r is Err,
    {
        if ctx.dry_run {
            return Err(error::other("brew: update has no dry-run mode"));
        }
        Ok(command::one(Cmd::new(&self.program).arg("update")))
    }

    pub fn list_installed(&self, replies: &[Reply]) -> (r: Step<Listing<BrewPackage>>)
        ensures
            r@ == session::listed(
                CmdView::new(self.program@).arg("list"@).arg("--versions"@),
                replies@.deep(),
                |out: Seq<char>| parse_versions_spec(out),
            ),
            r@.only_looks(),
    {
        session::list(
            Cmd::new(&self.program).arg("list").arg("--versions"),
            replies,
            parse_versions,
            Ghost(|out: Seq<char>| parse_versions_spec(out)),
        )
    }

    /// brew exits with an error when nothing matches.
    pub fn search(&self, query: &str, replies: &[Reply]) -> (r: Step<Listing<BrewPackage>>)
        ensures
            r@ == (if replies@.len() == 0 {
                session::ask(CmdView::new(self.program@).arg("search"@).arg(query@))
            } else if replies@[0].success {
                StepView::Done(parse_search_spec(replies@[0].stdout@))
            } else if replies@[0].stderr@.has("No formulae or casks found"@) {
                StepView::Done(seq![])
            } else {
                StepView::Fail(replies@[0]@.failure())
            }),
            r@.only_looks(),
    {
        if replies.len() == 0 {
            return session::query(Cmd::new(&self.program).arg("search").arg(query));
        }
        if replies[0].success {
            return Step::Done(Listing { packages: parse_search(&replies[0].stdout) });
        }
        if text::has(&chars(&replies[0].stderr), "No formulae or casks found") {
            return Step::Done(session::nothing());
        }
        Step::Fail(replies[0].failure())
    }

    pub fn info(&self, name: &str, replies: &[Reply]) -> (r: Step<BrewPackage>)
        ensures
            r@ == (if replies@.len() == 0 {
                session::ask(CmdView::new(self.program@).arg("info"@).arg("--json=v2"@).arg(name@))
            } else if !replies@[0].success {
                StepView::Fail(ErrorView::NotFound(name@))
            } else {
                match parse_json_spec("info output"@, replies@[0].stdout@) {
                    Err(error) => StepView::Fail(error),
                    Ok(json) => session::found(parse_info_spec(json), name@),
                }
            }),
            r@.only_looks(),
    {
        if replies.len() == 0 {
            return session::query(
                Cmd::new(&self.program).arg("info").arg("--json=v2").arg(name),
            );
        }
        if !replies[0].success {
            return Step::Fail(error::not_found(name));
        }
        match parse_json("info output", &replies[0].stdout) {
            Err(error) => Step::Fail(error),
            Ok(json) => session::find(parse_info(&json), name),
        }
    }

    pub fn list_outdated(&self, replies: &[Reply]) -> (r: Step<Listing<BrewPackage>>)
        ensures
            r@ == (if replies@.len() == 0 {
                session::ask(CmdView::new(self.program@).arg("outdated"@).arg("--json=v2"@))
            } else if !replies@[0].success {
                StepView::Fail(replies@[0]@.failure())
            } else {
                match parse_json_spec("outdated output"@, replies@[0].stdout@) {
                    Err(error) => StepView::Fail(error),
                    Ok(json) => StepView::Done(parse_outdated_spec(json)),
                }
            }),
            r@.only_looks(),
    {
        if replies.len() == 0 {
            return session::query(Cmd::new(&self.program).arg("outdated").arg("--json=v2"));
        }
        if !replies[0].success {
            return Step::Fail(replies[0].failure());
        }
        match parse_json("outdated output", &replies[0].stdout) {
            Err(error) => Step::Fail(error),
            Ok(json) => Step::Done(Listing { packages: parse_outdated(&json) }),
        }
    }
}

/// JSON that a command prints, or what is wrong with it.
pub open spec fn parse_json_spec(what: Seq<char>, stdout: Seq<char>) -> Result<
    DataView,
    ErrorView,
> {
    match data::json_text(stdout) {
        Ok(json) => Ok(json),
        Err(detail) => Err(ErrorView::Parse { what: "brew "@ + what, detail }),
    }
}

pub fn parse_json(what: &str, stdout: &str) -> (r: Result<Data, Error>)
    ensures
        error::outcome_of(r) == parse_json_spec(what@, stdout@),
{
    match data::parse_json(stdout) {
        Ok(json) => Ok(json),
        Err(detail) => Err(Error::Parse { what: text::cat("brew ", what), detail }),
    }
}

/// A line of `brew list --versions`: the name and the installed versions, the
/// newest last.
pub open spec fn versions_row_spec(line: Seq<char>) -> Option<PackageView> {
    let words = line.words();
    if words.len() == 0 {
        None
    } else {
        Some(
            PackageView::versioned(
                words[0],
                if words.len() > 1 {
                    Some(words.last())
                } else {
                    None
                },
                InstallState::Installed,
            ),
        )
    }
}

fn versions_row(line: &[char]) -> (r: Option<BrewPackage>)
    ensures
        r.deep() == versions_row_spec(line@),
{
    let words = text::words(line);
    if words.len() == 0 {
        return None;
    }
    Some(
        BrewPackage {
            name: text::string(words[0]),
            version: if words.len() > 1 {
                Some(text::string(words[words.len() - 1]))
            } else {
                None
            },
            state: InstallState::Installed,
            ..BrewPackage::default()
        },
    )
}

/// The packages that `brew list --versions` prints.
pub open spec fn parse_versions_spec(stdout: Seq<char>) -> Seq<PackageView> {
    rows::select(stdout.lines(), |line: Seq<char>| versions_row_spec(line))
}

pub fn parse_versions(stdout: &str) -> (r: Vec<BrewPackage>)
    ensures
        r@.deep() == parse_versions_spec(stdout@),
        crate::package::all_named(r@.deep()),
        crate::package::all_in(r@.deep(), InstallState::Installed),
{
    proof {
        rows::selected_have(
            stdout@.lines(),
            |line: Seq<char>| versions_row_spec(line),
            |p: PackageView| p.name.len() > 0 && p.state == InstallState::Installed,
        );
    }
    rows::select_rows(stdout, versions_row, Ghost(|line: Seq<char>| versions_row_spec(line)))
}

/// The texts in a list.
pub open spec fn texts_spec(value: DataView) -> Option<Seq<Seq<char>>> {
    match value.items() {
        Some(items) => Some(rows::select(items, |item: DataView| item.text())),
        None => None,
    }
}

fn texts_of(table: &Data, key: &str) -> (r: Option<Vec<String>>)
    ensures
        package::maybe_strings(r) == texts_spec(table@.get(key@)),
{
    let text = |item: &Data| -> (o: Option<String>)
        ensures
            o.deep() == item@.text(),
        { item.string() };
    match table.items_of(key) {
        Some(items) => Some(data::select(items, text, Ghost(|item: DataView| item.text()))),
        None => None,
    }
}

/// The formula that `brew info --json=v2` describes: the first one.
pub open spec fn parse_info_spec(json: DataView) -> Option<PackageView> {
    match json.get("formulae"@).items() {
        Some(formulae) => if formulae.len() > 0 {
            formula_spec(formulae[0])
        } else {
            None
        },
        None => None,
    }
}

/// A formula: at the version that was installed last, or else at the stable
/// one.
pub open spec fn formula_spec(formula: DataView) -> Option<PackageView> {
    let stable = formula.get("versions"@).get("stable"@).text();
    let installed = formula.get("installed"@).last().get("version"@).text();
    match formula.get("name"@).text() {
        None => None,
        Some(name) => Some(
            PackageView {
                latest_version: if installed is Some && stable is Some && stable != installed {
                    stable
                } else {
                    None
                },
                description: formula.get("desc"@).text(),
                homepage: formula.get("homepage"@).text(),
                license: formula.get("license"@).text(),
                dependencies: texts_spec(formula.get("dependencies"@)),
                ..PackageView::versioned(
                    name,
                    if installed is Some {
                        installed
                    } else {
                        stable
                    },
                    if installed is Some {
                        InstallState::Installed
                    } else {
                        InstallState::Available
                    },
                )
            },
        ),
    }
}

fn formula_package(formula: &Data) -> (r: Option<BrewPackage>)
    ensures
        r.deep() == formula_spec(formula@),
{
    let stable = match formula.find("versions") {
        Some(versions) => versions.string_of("stable"),
        None => None,
    };
    let installed = match formula.items_of("installed") {
        Some(installs) => {
            if installs.len() > 0 {
                installs[installs.len() - 1].string_of("version")
            } else {
                None
            }
        },
        None => None,
    };
    let name = match formula.string_of("name") {
        None => {
            return None;
        },
        Some(name) => name,
    };
    let package = BrewPackage {
        name,
        description: formula.string_of("desc"),
        homepage: formula.string_of("homepage"),
        license: formula.string_of("license"),
        dependencies: texts_of(formula, "dependencies"),
        ..BrewPackage::default()
    };
    if installed.is_some() {
        let newer = stable.is_some() && !text::equal_maybe(&stable, &installed);
        Some(
            BrewPackage {
                version: installed,
                latest_version: if newer {
                    stable
                } else {
                    None
                },
                state: InstallState::Installed,
                ..package
            },
        )
    } else {
        Some(BrewPackage { version: stable, state: InstallState::Available, ..package })
    }
}

pub fn parse_info(json: &Data) -> (r: Option<BrewPackage>)
    ensures
        r.deep() == parse_info_spec(json@),
{
    match json.items_of("formulae") {
        Some(formulae) => {
            if formulae.len() > 0 {
                formula_package(&formulae[0])
            } else {
                None
            }
        },
        None => None,
    }
}

/// The reading of `brew search`.
struct SearchScan {
    packages: Vec<BrewPackage>,
    in_formulae: bool,
}

/// The model of the reading of `brew search`.
pub struct SearchScanView {
    pub packages: Seq<PackageView>,
    pub in_formulae: bool,
}

/// The reading of `brew search` after one more line: only what stands below
/// `==> Formulae`, or below no header, is a formula.
pub open spec fn search_next_spec(state: SearchScanView, line: Seq<char>) -> SearchScanView {
    let text = line.trim();
    match text.without_prefix("==>"@) {
        Some(section) => SearchScanView { in_formulae: section.trim() == "Formulae"@, ..state },
        None => if text.len() > 0 && state.in_formulae {
            SearchScanView {
                packages: state.packages.push(PackageView::named(text, InstallState::Available)),
                ..state
            }
        } else {
            state
        },
    }
}

impl Scanner for SearchScan {
    type State = SearchScanView;

    closed spec fn state(&self) -> SearchScanView {
        SearchScanView { packages: self.packages@.deep(), in_formulae: self.in_formulae }
    }

    open spec fn next(state: SearchScanView, line: Seq<char>) -> SearchScanView {
        search_next_spec(state, line)
    }

    fn feed(&mut self, line: &[char]) {
        let text = text::trim(line);
        if let Some(section) = text::without_prefix(text, "==>") {
            self.in_formulae = text::is(text::trim(section), "Formulae");
        } else if text.len() > 0 && self.in_formulae {
            rows::push(
                &mut self.packages,
                BrewPackage {
                    name: text::string(text),
                    state: InstallState::Available,
                    ..BrewPackage::default()
                },
            );
        }
    }
}

/// The formulae that `brew search` prints.
pub open spec fn parse_search_spec(stdout: Seq<char>) -> Seq<PackageView> {
    rows::scan(
        SearchScanView { packages: seq![], in_formulae: true },
        stdout.lines(),
        |state: SearchScanView, line: Seq<char>| search_next_spec(state, line),
    ).packages
}

pub fn parse_search(stdout: &str) -> (r: Vec<BrewPackage>)
    ensures
        r@.deep() == parse_search_spec(stdout@),
{
    rows::scan_output(
        SearchScan { packages: rows::empty(), in_formulae: true },
        stdout,
        Ghost(|state: SearchScanView, line: Seq<char>| search_next_spec(state, line)),
    ).packages
}

/// An outdated formula, with the installed and the current version.
pub open spec fn outdated_entry_spec(formula: DataView) -> Option<PackageView> {
    match formula.get("name"@).text() {
        None => None,
        Some(name) => Some(
            PackageView {
                latest_version: formula.get("current_version"@).text(),
                ..PackageView::versioned(
                    name,
                    formula.get("installed_versions"@).last().text(),
                    InstallState::Upgradable,
                )
            },
        ),
    }
}

fn outdated_entry(formula: &Data) -> (r: Option<BrewPackage>)
    ensures
        r.deep() == outdated_entry_spec(formula@),
{
    let version = match formula.items_of("installed_versions") {
        Some(versions) => {
            if versions.len() > 0 {
                versions[versions.len() - 1].string()
            } else {
                None
            }
        },
        None => None,
    };
    match formula.string_of("name") {
        None => None,
        Some(name) => Some(
            BrewPackage {
                name,
                version,
                latest_version: formula.string_of("current_version"),
                state: InstallState::Upgradable,
                ..BrewPackage::default()
            },
        ),
    }
}

/// The formulae that `brew outdated --json=v2` prints.
pub open spec fn parse_outdated_spec(json: DataView) -> Seq<PackageView> {
    match json.get("formulae"@).items() {
        Some(formulae) => rows::select(formulae, |formula: DataView| outdated_entry_spec(formula)),
        None => seq![],
    }
}

pub fn parse_outdated(json: &Data) -> (r: Vec<BrewPackage>)
    ensures
        r@.deep() == parse_outdated_spec(json@),
{
    match json.items_of("formulae") {
        Some(formulae) => data::select(
            formulae,
            outdated_entry,
            Ghost(|formula: DataView| outdated_entry_spec(formula)),
        ),
        None => rows::empty(),
    }
}

} // verus!
