//! Haskell's cabal-install.
//!
//! The store only grows, so nothing can be removed. The installed packages
//! are those of the GHC package databases. Replacing an executable takes
//! `--overwrite-policy=always`: an upgrade always passes it, an install does
//! when questions are to be answered with yes. A version is asked for with a
//! constraint beside the bare name.

use vstd::prelude::*;

use crate::command::{self, Cmd, CmdView, Plan};
use crate::detect::{self, Detection};
use crate::error::{self, Error, ErrorView};
use crate::package::{self, Details, InstallState, Package, PackageView};
use crate::profile::{basic_capabilities, Capabilities, ManagerKind, Operation, Profile};
use crate::request::{OpContext, PackageRequest, RequestView};
use crate::rows::{self, Scanner};
use crate::session::{self, Listing, Reply, Step, StepView};
use crate::text::{self, chars, Deep, Pieces, Text};

verus! {

broadcast use command::group_carries;

/// Finds the manager and sets it up.
#[derive(Clone, Copy, Debug)]
pub struct Factory;

/// The factory of this backend.
pub fn factory() -> (r: Factory)
    ensures
        r == Factory,
{
    Factory
}

impl Factory {
    pub fn id(&self) -> (r: &'static str)
        ensures
            r@ == "cabal"@,
    {
        "cabal"
    }

    /// The programs to look for, in the order of preference.
    pub fn programs(&self) -> (r: Vec<&'static str>)
        ensures
            r@.deep() == seq!["cabal"@],
    {
        let mut out: Vec<&'static str> = Vec::new();
        out.push("cabal");
        assert(out@.deep() =~= seq!["cabal"@]);
        out
    }

    /// Whether the backend can be used, given where each program was found.
    pub fn detect(&self, found: &[Option<String>]) -> (r: Detection)
        ensures
            r@ == detect::detected(found@, "`cabal` not found on PATH"@),
    {
        detect::detect(found, "`cabal` not found on PATH")
    }

    /// The manager, given where each program was found.
    pub fn create(&self, found: &[Option<String>]) -> (r: Result<Manager, Error>)
        ensures
            match r {
                Ok(manager) => detect::required(found@, "cabal"@) == Ok::<Seq<char>, ErrorView>(
                    manager.program@,
                ),
                Err(error) => detect::required(found@, "cabal"@) == Err::<Seq<char>, ErrorView>(
                    error@,
                ),
            },
    {
        match detect::require(found, "cabal") {
            Ok(program) => Ok(Manager { program }),
            Err(error) => Err(error),
        }
    }
}

/// The manager, driving `program`.
#[derive(Debug)]
pub struct Manager {
    pub program: String,
}

impl Manager {
    /// What the manager says of itself.
    pub fn profile(&self) -> (r: Profile)
        ensures
            r.id@ == "cabal"@,
            r.display_name@ == "Cabal"@,
            r.kind == ManagerKind::Language,
            r.database_id@ == "haskell"@,
            r.capabilities == (Capabilities {
                search: true,
                refresh: true,
                upgrade: true,
                pin_version: true,
                remove: false,
                ..Capabilities::basic()
            }),
            r.elevates == false,
    {
        Profile {
            id: "cabal",
            display_name: "Cabal",
            kind: ManagerKind::Language,
            database_id: "haskell",
            capabilities: Capabilities {
                search: true,
                refresh: true,
                upgrade: true,
                pin_version: true,
                remove: false,
                ..basic_capabilities()
            },
            elevates: false,
        }
    }
}

/// A package as cabal describes it.
#[derive(Debug)]
pub struct CabalPackage {
    pub name: String,
    pub version: Option<String>,
    pub latest_version: Option<String>,
    pub description: Option<String>,
    pub homepage: Option<String>,
    pub license: Option<String>,
    pub dependencies: Option<Vec<String>>,
    pub state: InstallState,
}

impl View for CabalPackage {
    type V = PackageView;

    open spec fn view(&self) -> PackageView {
        PackageView {
            name: self.name@,
            version: self.version.deep(),
            latest_version: self.latest_version.deep(),
            description: self.description.deep(),
            homepage: self.homepage.deep(),
            license: self.license.deep(),
            dependencies: package::maybe_strings(self.dependencies),
            state: self.state,
            ..PackageView::blank()
        }
    }
}

impl Default for CabalPackage {
    fn default() -> (r: CabalPackage)
        ensures
            r@ == PackageView::blank(),
    {
        CabalPackage {
            name: String::new(),
            version: None,
            latest_version: None,
            description: None,
            homepage: None,
            license: None,
            dependencies: None,
            state: InstallState::Unknown,
        }
    }
}

impl Package for CabalPackage {
    open spec fn manager_id() -> Seq<char> {
        "cabal"@
    }

    fn manager(&self) -> (r: &'static str) {
        "cabal"
    }

    fn details(&self) -> (r: Details<'_>) {
        Details {
            version: self.version.as_ref(),
            latest_version: self.latest_version.as_ref(),
            description: self.description.as_ref(),
            homepage: self.homepage.as_ref(),
            license: self.license.as_ref(),
            dependencies: self.dependencies.as_ref(),
            ..Details::of(&self.name, self.state)
        }
    }
}

/// The constraint that asks for the version of a request.
pub open spec fn pin_constraint_spec(request: RequestView) -> Option<Seq<char>> {
    match request.version {
        Some(version) => Some("--constraint="@ + request.name + "=="@ + version),
        None => None,
    }
}

pub fn pin_constraint(request: &PackageRequest) -> (r: Option<String>)
    ensures
        r.deep() == pin_constraint_spec(request@),
{
    match &request.version {
        Some(version) => Some(text::cat4("--constraint=", &request.name, "==", version)),
        None => None,
    }
}

/// The constraints of all requests, then their names.
pub open spec fn with_targets_spec(cmd: CmdView, packages: Seq<RequestView>) -> CmdView {
    cmd.args(rows::select(packages, |q: RequestView| pin_constraint_spec(q))).names(packages)
}

fn with_targets(cmd: Cmd, packages: &[PackageRequest]) -> (r: Cmd)
    ensures
        r@ == with_targets_spec(cmd@, packages@.deep()),
{
    let mut pins: Vec<String> = rows::empty();
    let ghost all = packages@.deep();
    let mut i: usize = 0;
    while i < packages.len()
        invariant
            i <= packages.len(),
            all == packages@.deep(),
            pins@.deep() == rows::select(
                all.take(i as int),
                |q: RequestView| pin_constraint_spec(q),
            ),
        decreases packages.len() - i,
    {
        assert(all.take(i + 1).drop_last() =~= all.take(i as int));
        if let Some(pin) = pin_constraint(&packages[i]) {
            rows::push(&mut pins, pin);
        }
        i += 1;
    }
    assert(all.take(all.len() as int) =~= all);
    cmd.args(&pins).names(packages)
}

impl Manager {
    pub fn install(&self, packages: &[PackageRequest], ctx: &OpContext) -> (r: Plan)
        ensures
            command::plan(r) == command::just(
                with_targets_spec(
                    CmdView::new(self.program@).arg("install"@).flag(
                        ctx.assume_yes,
                        "--overwrite-policy=always"@,
                    ).flag(ctx.dry_run, "--dry-run"@),
                    packages@.deep(),
                ),
            ),
            command::all_elevated(command::plan(r), false),
            ctx.dry_run ==> command::all_carry(command::plan(r), "--dry-run"@),
            ctx.assume_yes ==> command::all_carry(command::plan(r), "--overwrite-policy=always"@),
            command::plan(r) == command::just(
                (
                    (
                        CmdView::new(self.program@).arg("install"@).flag(
                            ctx.assume_yes,
                            "--overwrite-policy=always"@,
                        ).flag(ctx.dry_run, "--dry-run"@)
                    ).args(
                        rows::select(packages@.deep(), |q: RequestView| pin_constraint_spec(q)),
                    ).names(packages@.deep())
                ),
            ),
    {
        Ok(
            command::one(
                with_targets(
                    Cmd::new(&self.program).arg("install").flag(
                        ctx.assume_yes,
                        "--overwrite-policy=always",
                    ).flag(ctx.dry_run, "--dry-run"),
                    packages,
                ),
            ),
        )
    }

    /// There is nothing that removes a package.
    pub fn remove(&self, packages: &[PackageRequest], ctx: &OpContext) -> (r: Plan)
        ensures
            command::plan(r) == Err::<Seq<CmdView>, ErrorView>(
                ErrorView::Unsupported { manager: "cabal"@, operation: Operation::Remove },
            ),
    {
        Err(error::unsupported("cabal", Operation::Remove))
    }

    /// The named executables are installed again; nothing covers all of them.
    pub fn upgrade(&self, packages: &[PackageRequest], ctx: &OpContext) -> (r: Plan)
        ensures
            command::plan(r) == if packages@.len() == 0 {
                Err(
                    ErrorView::Other(
                        "cabal: cabal has no upgrade-all verb; name the executables to reinstall"@,
                    ),
                )
            } else {
                command::just(
                    with_targets_spec(
                        CmdView::new(self.program@).arg("install"@).arg(
                            "--overwrite-policy=always"@,
                        ).flag(ctx.dry_run, "--dry-run"@),
                        packages@.deep(),
                    ),
                )
            },
            command::all_elevated(command::plan(r), false),
            ctx.dry_run ==> command::all_carry(command::plan(r), "--dry-run"@),
            ctx.assume_yes ==> command::all_carry(command::plan(r), "--overwrite-policy=always"@),
            command::plan(r) == if packages@.len() == 0 {
                Err(
                    ErrorView::Other(
                        "cabal: cabal has no upgrade-all verb; name the executables to reinstall"@,
                    ),
                )
            } else {
                command::just(
                    (
                        (
                            CmdView::new(self.program@).arg("install"@).arg(
                                "--overwrite-policy=always"@,
                            ).flag(ctx.dry_run, "--dry-run"@)
                        ).args(
                            rows::select(
                                packages@.deep(),
                                |q: RequestView| pin_constraint_spec(q),
                            ),
                        ).names(packages@.deep())
                    ),
                )
            },
    {
        if packages.len() == 0 {
            return Err(
                error::other(
                    "cabal: cabal has no upgrade-all verb; name the executables to reinstall",
                ),
            );
        }
        Ok(
            command::one(
                with_targets(
                    Cmd::new(&self.program).arg("install").arg("--overwrite-policy=always").flag(
                        ctx.dry_run,
                        "--dry-run",
                    ),
                    packages,
                ),
            ),
        )
    }

    pub fn refresh(&self, ctx: &OpContext) -> (r: Plan)
        ensures
            command::plan(r) == if ctx.dry_run {
                Err(ErrorView::Other("cabal: refresh has no dry-run mode"@))
            } else {
                command::just(CmdView::new(self.program@).arg("update"@))
            },
            command::all_elevated(command::plan(r), false),
            ctx.dry_run ==> r is Err,
    {
        if ctx.dry_run {
            return Err(error::other("cabal: refresh has no dry-run mode"));
        }
        Ok(command::one(Cmd::new(&self.program).arg("update")))
    }

    pub fn list_installed(&self, replies: &[Reply]) -> (r: Step<Listing<CabalPackage>>)
        ensures
            r@ == session::listed(
                CmdView::query(self.program@)
                    .arg("list"@)
                    .arg("--installed"@)
                    .arg("--simple-output"@),
                replies@.deep(),
                |out: Seq<char>| parse_simple_list_spec(out),
            ),
            r@.only_looks(),
            r@.in_c_locale(),
    {
        session::list(
            Cmd::query(&self.program).arg("list").arg("--installed").arg("--simple-output"),
            replies,
            parse_simple_list,
            Ghost(|out: Seq<char>| parse_simple_list_spec(out)),
        )
    }

    pub fn search(&self, query: &str, replies: &[Reply]) -> (r: Step<Listing<CabalPackage>>)
        ensures
            r@ == session::listed(
                CmdView::query(self.program@).arg("list"@).arg(query@),
                replies@.deep(),
                |out: Seq<char>| parse_summary_spec(out),
            ),
            r@.only_looks(),
            r@.in_c_locale(),
    {
        session::list(
            Cmd::query(&self.program).arg("list").arg(query),
            replies,
            parse_summary,
            Ghost(|out: Seq<char>| parse_summary_spec(out)),
        )
    }

    /// `cabal info` tells the installed versions too.
    pub fn info(&self, name: &str, replies: &[Reply]) -> (r: Step<CabalPackage>)
        ensures
            r@ == (if replies@.len() == 0 {
                session::ask(CmdView::query(self.program@).arg("info"@).arg(name@))
            } else if !replies@[0].success {
                StepView::Fail(ErrorView::NotFound(name@))
            } else {
                match parse_info_spec(replies@[0].stdout@) {
                    Some(package) => StepView::Done(package),
                    None => StepView::Fail(
                        ErrorView::Parse {
                            what: "cabal info output"@,
                            detail: "no `* package` header for `"@ + name@ + "`"@,
                        },
                    ),
                }
            }),
            r@.only_looks(),
            r@.in_c_locale(),
    {
        if replies.len() == 0 {
            return session::query(Cmd::query(&self.program).arg("info").arg(name));
        }
        if !replies[0].success {
            return Step::Fail(error::not_found(name));
        }
        match parse_info(&replies[0].stdout) {
            Some(package) => Step::Done(package),
            None => Step::Fail(
                Error::Parse {
                    what: text::copy("cabal info output"),
                    detail: text::cat3("no `* package` header for `", name, "`"),
                },
            ),
        }
    }
}

/// The last version of a list that may end in a note in parentheses.
pub open spec fn last_version_spec(value: Seq<char>) -> Option<Seq<char>> {
    match rows::last(
        value.split("("@)[0].split(","@),
        |version: Seq<char>| version.trim().len() > 0,
    ) {
        Some(version) => Some(version.trim()),
        None => None,
    }
}

fn newest(value: &[char]) -> (r: Option<String>)
    ensures
        r.deep() == last_version_spec(value@),
{
    let parts = text::split(value, "(");
    proof {
        text::lemma_split_some(value@, "("@);
    }
    let versions = text::split(parts[0], ",");
    let given = |version: &&[char]| -> (b: bool)
        ensures
            b == (version@.trim().len() > 0),
        { text::trim(*version).len() > 0 };
    match rows::take_last(
        versions,
        given,
        Ghost(|version: Seq<char>| version.trim().len() > 0),
    ) {
        Some(version) => Some(text::string(text::trim(version))),
        None => None,
    }
}

pub fn last_version(value: &str) -> (r: Option<String>)
    ensures
        r.deep() == last_version_spec(value@),
{
    let t = chars(value);
    newest(&t)
}

/// A line of `cabal list --simple-output`: `name version`.
pub open spec fn simple_row_spec(line: Seq<char>) -> Option<PackageView> {
    let words = line.words();
    if words.len() >= 2 && words[1].begins_digit() {
        Some(PackageView::versioned(words[0], Some(words[1]), InstallState::Installed))
    } else {
        None
    }
}

fn simple_row(line: &[char]) -> (r: Option<CabalPackage>)
    ensures
        r.deep() == simple_row_spec(line@),
{
    let words = text::words(line);
    if words.len() >= 2 && text::begins_digit(words[1]) {
        Some(
            CabalPackage {
                name: text::string(words[0]),
                version: Some(text::string(words[1])),
                state: InstallState::Installed,
                ..CabalPackage::default()
            },
        )
    } else {
        None
    }
}

/// The packages that `cabal list --simple-output` prints.
pub open spec fn parse_simple_list_spec(stdout: Seq<char>) -> Seq<PackageView> {
    rows::select(stdout.lines(), |line: Seq<char>| simple_row_spec(line))
}

pub fn parse_simple_list(stdout: &str) -> (r: Vec<CabalPackage>)
    ensures
        r@.deep() == parse_simple_list_spec(stdout@),
        crate::package::all_named(r@.deep()),
        crate::package::all_in(r@.deep(), InstallState::Installed),
{
    proof {
        rows::selected_have(
            stdout@.lines(),
            |line: Seq<char>| simple_row_spec(line),
            |p: PackageView| p.name.len() > 0 && p.state == InstallState::Installed,
        );
    }
    rows::select_rows(stdout, simple_row, Ghost(|line: Seq<char>| simple_row_spec(line)))
}

/// A package after a `Key: Value` line of `cabal list`. Values in brackets
/// stand for missing ones.
pub open spec fn summary_field_spec(package: PackageView, line: Seq<char>) -> PackageView {
    match line.trim().cut(":"@) {
        None => package,
        Some((key, value)) => {
            let key = key.trim();
            let value = value.trim();
            if value.len() == 0 || value.begins("["@) {
                package
            } else if key == "Synopsis"@ {
                PackageView { description: Some(value), ..package }
            } else if key == "Default available version"@ {
                PackageView { version: Some(value), ..package }
            } else if key == "Installed versions"@ || key == "Versions installed"@ {
                match last_version_spec(value) {
                    None => package,
                    Some(installed) => if package.version is Some && package.version != Some(
                        installed,
                    ) {
                        PackageView {
                            version: Some(installed),
                            latest_version: package.version,
                            state: InstallState::Upgradable,
                            ..package
                        }
                    } else {
                        PackageView {
                            version: Some(installed),
                            state: InstallState::Installed,
                            ..package
                        }
                    },
                }
            } else if key == "Homepage"@ {
                PackageView { homepage: Some(value), ..package }
            } else if key == "License"@ {
                PackageView { license: Some(value), ..package }
            } else {
                package
            }
        },
    }
}

fn summary_field(package: CabalPackage, line: &[char]) -> (r: CabalPackage)
    ensures
        r@ == summary_field_spec(package@, line@),
{
    let mut package = package;
    if let Some((key, value)) = text::cut(text::trim(line), ":") {
        let key = text::trim(key);
        let value = text::trim(value);
        if value.len() == 0 || text::begins(value, "[") {
            return package;
        }
        if text::is(key, "Synopsis") {
            package.description = Some(text::string(value));
        } else if text::is(key, "Default available version") {
            package.version = Some(text::string(value));
        } else if text::is(key, "Installed versions") || text::is(key, "Versions installed") {
            let installed = newest(value);
            if installed.is_some() {
                if package.version.is_some() && !text::equal_maybe(&package.version, &installed) {
                    package.latest_version = package.version;
                    package.state = InstallState::Upgradable;
                } else {
                    package.state = InstallState::Installed;
                }
                package.version = installed;
            }
        } else if text::is(key, "Homepage") {
            package.homepage = Some(text::string(value));
        } else if text::is(key, "License") {
            package.license = Some(text::string(value));
        }
    }
    package
}

/// The reading of `cabal list`.
struct SummaryScan {
    packages: Vec<CabalPackage>,
}

/// The packages of `cabal list` after one more line: `* name` opens one.
pub open spec fn summary_next_spec(packages: Seq<PackageView>, line: Seq<char>) -> Seq<
    PackageView,
> {
    match line.without_prefix("* "@) {
        Some(header) => match header.words().nth(0) {
            Some(name) => packages.push(PackageView::named(name, InstallState::Available)),
            None => packages,
        },
        None => if packages.len() == 0 {
            packages
        } else {
            packages.drop_last().push(summary_field_spec(packages.last(), line))
        },
    }
}

impl Scanner for SummaryScan {
    type State = Seq<PackageView>;

    closed spec fn state(&self) -> Seq<PackageView> {
        self.packages@.deep()
    }

    open spec fn next(state: Seq<PackageView>, line: Seq<char>) -> Seq<PackageView> {
        summary_next_spec(state, line)
    }

    fn feed(&mut self, line: &[char]) {
        if let Some(header) = text::without_prefix(line, "* ") {
            let words = text::words(header);
            if let Some(name) = text::nth(&words, 0) {
                rows::push(
                    &mut self.packages,
                    CabalPackage {
                        name: text::string(name),
                        state: InstallState::Available,
                        ..CabalPackage::default()
                    },
                );
            }
        } else if let Some(package) = rows::pop(&mut self.packages) {
            rows::push(&mut self.packages, summary_field(package, line));
        }
    }
}

/// The packages that `cabal list` prints.
pub open spec fn parse_summary_spec(stdout: Seq<char>) -> Seq<PackageView> {
    rows::scan(
        seq![],
        stdout.lines(),
        |state: Seq<PackageView>, line: Seq<char>| summary_next_spec(state, line),
    )
}

pub fn parse_summary(stdout: &str) -> (r: Vec<CabalPackage>)
    ensures
        r@.deep() == parse_summary_spec(stdout@),
{
    rows::scan_output(
        SummaryScan { packages: rows::empty() },
        stdout,
        Ghost(|state: Seq<PackageView>, line: Seq<char>| summary_next_spec(state, line)),
    ).packages
}

/// How many bytes the blanks before a line take, in UTF-8.
pub open spec fn indent_spec(line: Seq<char>) -> nat {
    text::utf8_len(line.take(text::find_blank(line, false) as int))
}

/// The reading of `cabal info`: the name, and the fields with their values.
struct InfoScan {
    name: Option<String>,
    fields: Vec<(String, String)>,
}

/// The model of the reading of `cabal info`.
pub struct InfoScanView {
    pub name: Option<Seq<char>>,
    pub fields: Seq<(Seq<char>, Seq<char>)>,
}

/// The reading of `cabal info` after one more line: the first `* name` counts;
/// a field is indented by four, and what is indented otherwise goes on with
/// the field before it.
pub open spec fn info_next_spec(state: InfoScanView, line: Seq<char>) -> InfoScanView {
    let text = line.trim();
    match line.without_prefix("* "@) {
        Some(header) => InfoScanView {
            name: if state.name is None {
                header.words().nth(0)
            } else {
                state.name
            },
            ..state
        },
        None => if text.len() == 0 {
            state
        } else if indent_spec(line) == 4 && text.cut(":"@) is Some {
            let (key, value) = text.cut(":"@)->0;
            InfoScanView { fields: state.fields.push((key.trim(), value.trim())), ..state }
        } else if state.fields.len() > 0 {
            InfoScanView {
                fields: state.fields.drop_last().push(
                    (state.fields.last().0, state.fields.last().1 + " "@ + text),
                ),
                ..state
            }
        } else {
            state
        },
    }
}

impl Scanner for InfoScan {
    type State = InfoScanView;

    closed spec fn state(&self) -> InfoScanView {
        InfoScanView { name: self.name.deep(), fields: self.fields@.deep() }
    }

    open spec fn next(state: InfoScanView, line: Seq<char>) -> InfoScanView {
        info_next_spec(state, line)
    }

    fn feed(&mut self, line: &[char]) {
        if let Some(header) = text::without_prefix(line, "* ") {
            if self.name.is_none() {
                let words = text::words(header);
                self.name = text::maybe_string(text::nth(&words, 0));
            }
            return;
        }
        let text = text::trim(line);
        if text.len() == 0 {
            return;
        }
        let blanks = text::head(line, text::position_blank(line, false));
        if text::is_utf8_len(blanks, 4) {
            if let Some((key, value)) = text::cut(text, ":") {
                rows::push(
                    &mut self.fields,
                    (text::string(text::trim(key)), text::string(text::trim(value))),
                );
                return;
            }
        }
        if let Some((key, value)) = rows::pop(&mut self.fields) {
            rows::push(&mut self.fields, (key, text::cat3(&value, " ", &text::string(text))));
        }
    }
}

/// What the fields of `cabal info` say: a package, and the newest available
/// and installed version.
struct Gathered {
    package: CabalPackage,
    available: Option<String>,
    installed: Option<String>,
}

/// The model of what the fields say.
pub struct GatheredView {
    pub package: PackageView,
    pub available: Option<Seq<char>>,
    pub installed: Option<Seq<char>>,
}

impl View for Gathered {
    type V = GatheredView;

    closed spec fn view(&self) -> GatheredView {
        GatheredView {
            package: self.package@,
            available: self.available.deep(),
            installed: self.installed.deep(),
        }
    }
}

/// The dependencies of a package: the first word between each two commas.
pub open spec fn dependencies_spec(value: Seq<char>) -> Seq<Seq<char>> {
    rows::select(value.split(","@), |part: Seq<char>| part.words().nth(0))
}

fn dependencies(value: &[char]) -> (r: Vec<String>)
    ensures
        r@.deep() == dependencies_spec(value@),
{
    let parts = text::split(value, ",");
    let first = |part: &[char]| -> (o: Option<String>)
        ensures
            o.deep() == part@.words().nth(0),
        {
            let words = text::words(part);
            text::maybe_string(text::nth(&words, 0))
        };
    rows::select_lines(&parts, first, Ghost(|part: Seq<char>| part.words().nth(0)))
}

/// What is known after one more field.
pub open spec fn info_field_spec(g: GatheredView, key: Seq<char>, value: Seq<char>) -> GatheredView {
    let package = g.package;
    if value.len() == 0 || value.begins("["@) {
        g
    } else if key == "Synopsis"@ || (key == "Description"@ && package.description is None) {
        GatheredView { package: PackageView { description: Some(value), ..package }, ..g }
    } else if key == "Versions available"@ {
        GatheredView { available: last_version_spec(value), ..g }
    } else if key == "Versions installed"@ || key == "Installed versions"@ {
        GatheredView { installed: last_version_spec(value), ..g }
    } else if key == "Homepage"@ {
        GatheredView { package: PackageView { homepage: Some(value), ..package }, ..g }
    } else if key == "License"@ {
        GatheredView { package: PackageView { license: Some(value), ..package }, ..g }
    } else if key == "Dependencies"@ {
        GatheredView {
            package: PackageView { dependencies: Some(dependencies_spec(value)), ..package },
            ..g
        }
    } else {
        g
    }
}

fn info_field(g: Gathered, key: &str, value: &str) -> (r: Gathered)
    ensures
        r@ == info_field_spec(g@, key@, value@),
{
    let mut g = g;
    let text = chars(value);
    let key = chars(key);
    if text.len() == 0 || text::begins(&text, "[") {
        return g;
    }
    if text::is(&key, "Synopsis") || (text::is(&key, "Description")
        && g.package.description.is_none()) {
        g.package.description = Some(text::copy(value));
    } else if text::is(&key, "Versions available") {
        g.available = newest(&text);
    } else if text::is(&key, "Versions installed") || text::is(&key, "Installed versions") {
        g.installed = newest(&text);
    } else if text::is(&key, "Homepage") {
        g.package.homepage = Some(text::copy(value));
    } else if text::is(&key, "License") {
        g.package.license = Some(text::copy(value));
    } else if text::is(&key, "Dependencies") {
        g.package.dependencies = Some(dependencies(&text));
    }
    g
}

/// What is known after all fields.
pub open spec fn info_fields_spec(
    start: GatheredView,
    fields: Seq<(Seq<char>, Seq<char>)>,
) -> GatheredView
    decreases fields.len(),
{
    if fields.len() == 0 {
        start
    } else {
        info_field_spec(
            info_fields_spec(start, fields.drop_last()),
            fields.last().0,
            fields.last().1,
        )
    }
}

/// The package, at its installed version if it has one: it can be upgraded
/// where the newest available version differs.
pub open spec fn gathered_spec(g: GatheredView) -> PackageView {
    if g.installed is None {
        PackageView { version: g.available, ..g.package }
    } else if g.available is Some && g.available != g.installed {
        PackageView {
            version: g.installed,
            latest_version: g.available,
            state: InstallState::Upgradable,
            ..g.package
        }
    } else {
        PackageView { version: g.installed, state: InstallState::Installed, ..g.package }
    }
}

/// The package that `cabal info` describes.
pub open spec fn parse_info_spec(stdout: Seq<char>) -> Option<PackageView> {
    let end = rows::scan(
        InfoScanView { name: None, fields: seq![] },
        stdout.lines(),
        |state: InfoScanView, line: Seq<char>| info_next_spec(state, line),
    );
    match end.name {
        None => None,
        Some(name) => Some(
            gathered_spec(
                info_fields_spec(
                    GatheredView {
                        package: PackageView::named(name, InstallState::Available),
                        available: None,
                        installed: None,
                    },
                    end.fields,
                ),
            ),
        ),
    }
}

pub fn parse_info(stdout: &str) -> (r: Option<CabalPackage>)
    ensures
        r.deep() == parse_info_spec(stdout@),
{
    let end = rows::scan_output(
        InfoScan { name: None, fields: rows::empty() },
        stdout,
        Ghost(|state: InfoScanView, line: Seq<char>| info_next_spec(state, line)),
    );
    let name = match end.name {
        None => {
            return None;
        },
        Some(name) => name,
    };
    let fields = end.fields;
    let ghost all = fields@.deep();
    let mut g = Gathered {
        package: CabalPackage { name, state: InstallState::Available, ..CabalPackage::default() },
        available: None,
        installed: None,
    };
    let ghost start = g@;
    let mut i: usize = 0;
    while i < fields.len()
        invariant
            i <= fields.len(),
            all == fields@.deep(),
            g@ == info_fields_spec(start, all.take(i as int)),
        decreases fields.len() - i,
    {
        assert(all.take(i + 1).drop_last() =~= all.take(i as int));
        assert(all.take(i + 1).last() == fields@[i as int]@);
        g = info_field(g, &fields[i].0, &fields[i].1);
        i += 1;
    }
    assert(all.take(all.len() as int) =~= all);
    if g.installed.is_none() {
        Some(CabalPackage { version: g.available, ..g.package })
    } else if g.available.is_some() && !text::equal_maybe(&g.available, &g.installed) {
        Some(
            CabalPackage {
                version: g.installed,
                latest_version: g.available,
                state: InstallState::Upgradable,
                ..g.package
            },
        )
    } else {
        Some(
            CabalPackage {
                version: g.installed,
                state: InstallState::Installed,
                ..g.package
            },
        )
    }
}

} // verus!
