//! GNU Guix.
//!
//! Profiles belong to the user and the daemon builds, so nothing is ever
//! elevated and nothing is asked. `install`, `remove` and `upgrade` take
//! `--dry-run`; `refresh` is `guix pull`. `guix search` and `guix show` print
//! recutils records, the listings are separated by tabs. No command tells
//! what is outdated, so the listings of what is installed and of what is to be
//! had are compared.

use vstd::prelude::*;

use crate::command::{self, Cmd, CmdView, Plan};
use crate::detect::{self, Detection};
use crate::error::{self, Error, ErrorView};
use crate::package::{self, Details, InstallState, Package, PackageView};
use crate::profile::{basic_capabilities, Capabilities, ManagerKind, Profile};
use crate::request::{OpContext, PackageRequest};
use crate::rows::{self, Scanner};
use crate::session::{self, Listing, Reply, ReplyView, Step, StepView};
use crate::text::{self, chars, Deep, Pieces, Text};
use crate::version;

verus! {

broadcast use command::group_carries;

/// Finds the manager and sets it up.
#[derive(Clone, Copy, Debug)]
pub struct Factory;

/// The factory of this backend.
pub fn factory() -> (r: Factory)
    ensures
        r == Factory,
{
    Factory
}

impl Factory {
    pub fn id(&self) -> (r: &'static str)
        ensures
            r@ == "guix"@,
    {
        "guix"
    }

    /// The programs to look for, in the order of preference.
    pub fn programs(&self) -> (r: Vec<&'static str>)
        ensures
            r@.deep() == seq!["guix"@],
    {
        let mut out: Vec<&'static str> = Vec::new();
        out.push("guix");
        assert(out@.deep() =~= seq!["guix"@]);
        out
    }

    /// Whether the backend can be used, given where each program was found.
    pub fn detect(&self, found: &[Option<String>]) -> (r: Detection)
        ensures
            r@ == detect::detected(found@, "`guix` not found on PATH"@),
    {
        detect::detect(found, "`guix` not found on PATH")
    }

    /// The manager, given where each program was found.
    pub fn create(&self, found: &[Option<String>]) -> (r: Result<Manager, Error>)
        ensures
            match r {
                Ok(manager) => detect::required(found@, "guix"@) == Ok::<Seq<char>, ErrorView>(
                    manager.program@,
                ),
                Err(error) => detect::required(found@, "guix"@) == Err::<Seq<char>, ErrorView>(
                    error@,
                ),
            },
    {
        match detect::require(found, "guix") {
            Ok(program) => Ok(Manager { program }),
            Err(error) => Err(error),
        }
    }
}

/// The manager, driving `program`.
#[derive(Debug)]
pub struct Manager {
    pub program: String,
}

impl Manager {
    /// What the manager says of itself.
    pub fn profile(&self) -> (r: Profile)
        ensures
            r.id@ == "guix"@,
            r.display_name@ == "Guix"@,
            r.kind == ManagerKind::Universal,
            r.database_id@ == "guix"@,
            r.capabilities == (Capabilities {
                search: true,
                refresh: true,
                upgrade: true,
                list_outdated: true,
                pin_version: true,
                ..Capabilities::basic()
            }),
            r.elevates == false,
    {
        Profile {
            id: "guix",
            display_name: "Guix",
            kind: ManagerKind::Universal,
            database_id: "guix",
            capabilities: Capabilities {
                search: true,
                refresh: true,
                upgrade: true,
                list_outdated: true,
                pin_version: true,
                ..basic_capabilities()
            },
            elevates: false,
        }
    }
}

/// A package as guix describes it.
#[derive(Debug)]
pub struct GuixPackage {
    pub name: String,
    pub version: Option<String>,
    pub latest_version: Option<String>,
    pub description: Option<String>,
    pub homepage: Option<String>,
    pub license: Option<String>,
    pub dependencies: Option<Vec<String>>,
    pub state: InstallState,
}

impl View for GuixPackage {
    type V = PackageView;

    open spec fn view(&self) -> PackageView {
        PackageView {
            name: self.name@,
            version: self.version.deep(),
            latest_version: self.latest_version.deep(),
            description: self.description.deep(),
            homepage: self.homepage.deep(),
            license: self.license.deep(),
            dependencies: package::maybe_strings(self.dependencies),
            state: self.state,
            ..PackageView::blank()
        }
    }
}

impl Default for GuixPackage {
    fn default() -> (r: GuixPackage)
        ensures
            r@ == PackageView::blank(),
    {
        GuixPackage {
            name: String::new(),
            version: None,
            latest_version: None,
            description: None,
            homepage: None,
            license: None,
            dependencies: None,
            state: InstallState::Unknown,
        }
    }
}

impl Package for GuixPackage {
    open spec fn manager_id() -> Seq<char> {
        "guix"@
    }

    fn manager(&self) -> (r: &'static str) {
        "guix"
    }

    fn details(&self) -> (r: Details<'_>) {
        Details {
            version: self.version.as_ref(),
            latest_version: self.latest_version.as_ref(),
            description: self.description.as_ref(),
            homepage: self.homepage.as_ref(),
            license: self.license.as_ref(),
            dependencies: self.dependencies.as_ref(),
            ..Details::of(&self.name, self.state)
        }
    }
}

/// `name@version` when the request pins one, the bare name otherwise.
pub fn spec(request: &PackageRequest) -> (r: String)
    ensures
        r@ == request@.pinned("@"@),
{
    request.pinned("@")
}

impl Manager {
    /// What lists the profile.
    pub open spec fn installed_spec(self) -> CmdView {
        CmdView::query(self.program@).arg("package"@).arg("--list-installed"@)
    }

    fn installed(&self) -> (r: Cmd)
        ensures
            r@ == self.installed_spec(),
    {
        Cmd::query(&self.program).arg("package").arg("--list-installed")
    }

    pub fn install(&self, packages: &[PackageRequest], ctx: &OpContext) -> (r: Plan)
        ensures
            command::plan(r) == command::just(
                CmdView::new(self.program@).arg("install"@).flag(
                    ctx.dry_run,
                    "--dry-run"@,
                ).pinned(packages@.deep(), "@"@),
            ),
            command::all_elevated(command::plan(r), false),
            ctx.dry_run ==> command::all_carry(command::plan(r), "--dry-run"@),
    {
        Ok(
            command::one(
                Cmd::new(&self.program).arg("install").flag(ctx.dry_run, "--dry-run").pinned(
                    packages,
                    "@",
                ),
            ),
        )
    }

    pub fn remove(&self, packages: &[PackageRequest], ctx: &OpContext) -> (r: Plan)
        ensures
            command::plan(r) == command::just(
                CmdView::new(self.program@).arg("remove"@).flag(ctx.dry_run, "--dry-run"@).names(
                    packages@.deep(),
                ),
            ),
            command::all_elevated(command::plan(r), false),
            ctx.dry_run ==> command::all_carry(command::plan(r), "--dry-run"@),
    {
        Ok(
            command::one(
                Cmd::new(&self.program).arg("remove").flag(ctx.dry_run, "--dry-run").names(
                    packages,
                ),
            ),
        )
    }

    /// Named packages are upgraded by installing them again: that honors
    /// versions, and takes no name for a pattern.
    pub fn upgrade(&self, packages: &[PackageRequest], ctx: &OpContext) -> (r: Plan)
        ensures
            command::plan(r) == command::just(
                (if packages@.len() == 0 {
                    CmdView::new(self.program@).arg("upgrade"@)
                } else {
                    CmdView::new(self.program@).arg("install"@).pinned(packages@.deep(), "@"@)
                }).flag(ctx.dry_run, "--dry-run"@),
            ),
            command::all_elevated(command::plan(r), false),
            ctx.dry_run ==> command::all_carry(command::plan(r), "--dry-run"@),
    {
        let cmd = if packages.len() == 0 {
            Cmd::new(&self.program).arg("upgrade")
        } else {
            Cmd::new(&self.program).arg("install").pinned(packages, "@")
        };
        Ok(command::one(cmd.flag(ctx.dry_run, "--dry-run")))
    }

    pub fn refresh(&self, ctx: &OpContext) -> (r: Plan)
        ensures
            command::plan(r) == if ctx.dry_run {
                Err(ErrorView::Other("guix: refresh (guix pull) has no dry-run mode"@))
            } else {
                command::just(CmdView::new(self.program@).arg("pull"@))
            },
            command::all_elevated(command::plan(r), false),
            ctx.dry_run ==> r is Err,
    {
        if ctx.dry_run {
            return Err(error::other("guix: refresh (guix pull) has no dry-run mode"));
        }
        Ok(command::one(Cmd::new(&self.program).arg("pull")))
    }

    pub fn list_installed(&self, replies: &[Reply]) -> (r: Step<Listing<GuixPackage>>)
        ensures
            r@ == session::listed(
                self.installed_spec(),
                replies@.deep(),
                |out: Seq<char>| parse_installed_spec(out),
            ),
            r@.only_looks(),
            r@.in_c_locale(),
            r@ == session::listed(
                CmdView::query(self.program@).arg("package"@).arg("--list-installed"@),
                replies@.deep(),
                |out: Seq<char>| parse_installed_spec(out),
            ),
    {
        session::list(
            self.installed(),
            replies,
            parse_installed,
            Ghost(|out: Seq<char>| parse_installed_spec(out)),
        )
    }

    /// Nothing printed means nothing found, whatever the exit code.
    pub fn search(&self, query: &str, replies: &[Reply]) -> (r: Step<Listing<GuixPackage>>)
        ensures
            r@ == (if replies@.len() == 0 {
                session::ask(CmdView::query(self.program@).arg("search"@).arg(query@))
            } else if replies@[0].success {
                StepView::Done(parse_records_spec(replies@[0].stdout@))
            } else if replies@[0].stdout@.trim().len() == 0 {
                StepView::Done(seq![])
            } else {
                StepView::Fail(replies@[0]@.failure())
            }),
            r@.only_looks(),
            r@.in_c_locale(),
    {
        if replies.len() == 0 {
            return session::query(Cmd::query(&self.program).arg("search").arg(query));
        }
        if replies[0].success {
            return Step::Done(Listing { packages: parse_records(&replies[0].stdout) });
        }
        if session::is_empty(&replies[0].stdout) {
            return Step::Done(session::nothing());
        }
        Step::Fail(replies[0].failure())
    }

    /// `guix show` prints a record for each version to be had, of which the
    /// newest counts; the profile tells what is installed.
    pub open spec fn info_spec(self, name: Seq<char>, replies: Seq<ReplyView>) -> StepView<
        PackageView,
    > {
        if replies.len() == 0 {
            session::ask(CmdView::query(self.program@).arg("show"@).arg(name))
        } else if !replies[0].success {
            StepView::Fail(ErrorView::NotFound(name))
        } else {
            match newest_spec(parse_records_spec(replies[0].stdout), name) {
                None => StepView::Fail(ErrorView::NotFound(name)),
                Some(package) => if replies.len() == 1 {
                    session::ask(self.installed_spec())
                } else if !replies[1].success {
                    StepView::Fail(replies[1].failure())
                } else {
                    StepView::Done(
                        merge_installed_spec(package, parse_columns_spec(replies[1].stdout)),
                    )
                },
            }
        }
    }

    pub fn info(&self, name: &str, replies: &[Reply]) -> (r: Step<GuixPackage>)
        ensures
            r@ == self.info_spec(name@, replies@.deep()),
            r@.only_looks(),
            r@.in_c_locale(),
    {
        if replies.len() == 0 {
            return session::query(Cmd::query(&self.program).arg("show").arg(name));
        }
        assert(replies@.deep()[0] == replies@[0]@);
        if !replies[0].success {
            return Step::Fail(error::not_found(name));
        }
        let package = match newest(parse_records(&replies[0].stdout), name) {
            None => {
                return Step::Fail(error::not_found(name));
            },
            Some(package) => package,
        };
        if replies.len() == 1 {
            return session::query(self.installed());
        }
        assert(replies@.deep()[1] == replies@[1]@);
        if !replies[1].success {
            return Step::Fail(replies[1].failure());
        }
        Step::Done(merge_installed(package, parse_columns(&replies[1].stdout)))
    }

    /// What is installed, then what is to be had, then the difference.
    pub open spec fn list_outdated_spec(self, replies: Seq<ReplyView>) -> StepView<
        Seq<PackageView>,
    > {
        if replies.len() == 0 {
            session::ask(self.installed_spec())
        } else if !replies[0].success {
            StepView::Fail(replies[0].failure())
        } else if replies.len() == 1 {
            session::ask(
                CmdView::query(self.program@).arg("package"@).arg("--list-available"@),
            )
        } else if !replies[1].success {
            StepView::Fail(replies[1].failure())
        } else {
            StepView::Done(
                outdated_spec(
                    parse_columns_spec(replies[0].stdout),
                    parse_columns_spec(replies[1].stdout),
                ),
            )
        }
    }

    pub fn list_outdated(&self, replies: &[Reply]) -> (r: Step<Listing<GuixPackage>>)
        ensures
            r@ == self.list_outdated_spec(replies@.deep()),
            r@.only_looks(),
            r@.in_c_locale(),
    {
        if replies.len() == 0 {
            return session::query(self.installed());
        }
        assert(replies@.deep()[0] == replies@[0]@);
        if !replies[0].success {
            return Step::Fail(replies[0].failure());
        }
        if replies.len() == 1 {
            return session::query(
                Cmd::query(&self.program).arg("package").arg("--list-available"),
            );
        }
        assert(replies@.deep()[1] == replies@[1]@);
        if !replies[1].success {
            return Step::Fail(replies[1].failure());
        }
        Step::Done(
            Listing {
                packages: outdated(
                    &parse_columns(&replies[0].stdout),
                    &parse_columns(&replies[1].stdout),
                ),
            },
        )
    }
}

/// A row of a listing: name and version, then columns that do not matter.
pub open spec fn columns_row_spec(line: Seq<char>) -> Option<(Seq<char>, Seq<char>)> {
    let fields = line.split("\t"@);
    if fields.len() < 2 || fields[0].trim().len() == 0 {
        None
    } else {
        Some((fields[0].trim(), fields[1].trim()))
    }
}

fn columns_row(line: &[char]) -> (r: Option<(String, String)>)
    ensures
        r.deep() == columns_row_spec(line@),
{
    let fields = text::split(line, "\t");
    if fields.len() < 2 || text::trim(fields[0]).len() == 0 {
        return None;
    }
    Some((text::string(text::trim(fields[0])), text::string(text::trim(fields[1]))))
}

/// The names and versions of a listing.
pub open spec fn parse_columns_spec(stdout: Seq<char>) -> Seq<(Seq<char>, Seq<char>)> {
    rows::select(stdout.lines(), |line: Seq<char>| columns_row_spec(line))
}

pub fn parse_columns(stdout: &str) -> (r: Vec<(String, String)>)
    ensures
        r@.deep() == parse_columns_spec(stdout@),
{
    rows::select_rows(stdout, columns_row, Ghost(|line: Seq<char>| columns_row_spec(line)))
}

/// An installed package.
pub open spec fn installed_row_spec(line: Seq<char>) -> Option<PackageView> {
    match columns_row_spec(line) {
        Some((name, version)) => Some(
            PackageView::versioned(name, version.filled(), InstallState::Installed),
        ),
        None => None,
    }
}

fn installed_row(line: &[char]) -> (r: Option<GuixPackage>)
    ensures
        r.deep() == installed_row_spec(line@),
{
    match columns_row(line) {
        Some((name, version)) => Some(
            GuixPackage {
                name,
                version: given(version),
                state: InstallState::Installed,
                ..GuixPackage::default()
            },
        ),
        None => None,
    }
}

fn given(version: String) -> (r: Option<String>)
    ensures
        r.deep() == version@.filled(),
{
    if chars(&version).len() > 0 {
        Some(version)
    } else {
        None
    }
}

/// The installed packages.
pub open spec fn parse_installed_spec(stdout: Seq<char>) -> Seq<PackageView> {
    rows::select(stdout.lines(), |line: Seq<char>| installed_row_spec(line))
}

pub fn parse_installed(stdout: &str) -> (r: Vec<GuixPackage>)
    ensures
        r@.deep() == parse_installed_spec(stdout@),
        crate::package::all_named(r@.deep()),
        crate::package::all_in(r@.deep(), InstallState::Installed),
{
    proof {
        rows::selected_have(
            stdout@.lines(),
            |line: Seq<char>| installed_row_spec(line),
            |p: PackageView| p.name.len() > 0 && p.state == InstallState::Installed,
        );
    }
    rows::select_rows(stdout, installed_row, Ghost(|line: Seq<char>| installed_row_spec(line)))
}

/// The dependencies of a package, without their versions.
pub open spec fn dependencies_spec(value: Seq<char>) -> Seq<Seq<char>> {
    rows::select(value.words(), |word: Seq<char>| word.split("@"@).nth(0))
}

fn dependencies(value: &[char]) -> (r: Vec<String>)
    ensures
        r@.deep() == dependencies_spec(value@),
{
    let words = text::words(value);
    let name = |word: &[char]| -> (o: Option<String>)
        ensures
            o.deep() == word@.split("@"@).nth(0),
        {
            let parts = text::split(word, "@");
            text::maybe_string(text::nth(&parts, 0))
        };
    rows::select_lines(&words, name, Ghost(|word: Seq<char>| word.split("@"@).nth(0)))
}

/// A package after the field `key` with a value.
pub open spec fn field_spec(package: PackageView, key: Seq<char>, value: Seq<char>) -> PackageView {
    if value.len() == 0 {
        package
    } else if key == "name"@ {
        PackageView { name: value, ..package }
    } else if key == "version"@ {
        PackageView { version: Some(value), ..package }
    } else if key == "synopsis"@ {
        PackageView { description: Some(value), ..package }
    } else if key == "homepage"@ {
        PackageView { homepage: Some(value), ..package }
    } else if key == "license"@ {
        PackageView { license: Some(value), ..package }
    } else if key == "dependencies"@ {
        PackageView { dependencies: Some(dependencies_spec(value)), ..package }
    } else {
        package
    }
}

fn field(package: GuixPackage, key: &[char], value: &[char]) -> (r: GuixPackage)
    ensures
        r@ == field_spec(package@, key@, value@),
{
    let mut package = package;
    if value.len() == 0 {
        return package;
    }
    if text::is(key, "name") {
        package.name = text::string(value);
    } else if text::is(key, "version") {
        package.version = Some(text::string(value));
    } else if text::is(key, "synopsis") {
        package.description = Some(text::string(value));
    } else if text::is(key, "homepage") {
        package.homepage = Some(text::string(value));
    } else if text::is(key, "license") {
        package.license = Some(text::string(value));
    } else if text::is(key, "dependencies") {
        package.dependencies = Some(dependencies(value));
    }
    package
}

/// The reading of recutils records.
struct RecordScan {
    packages: Vec<GuixPackage>,
    current: Option<GuixPackage>,
    last_key: String,
}

/// The model of the reading of records.
pub struct RecordScanView {
    pub packages: Seq<PackageView>,
    pub current: Option<PackageView>,
    pub last_key: Seq<char>,
}

impl RecordScanView {
    pub open spec fn start() -> RecordScanView {
        RecordScanView { packages: seq![], current: None, last_key: ""@ }
    }

    /// The packages, with the one that is being read if it has a name.
    pub open spec fn finish(self) -> Seq<PackageView> {
        match self.current {
            Some(package) if package.name.len() > 0 => self.packages.push(package),
            _ => self.packages,
        }
    }
}

/// A value with what a further line adds to it.
pub open spec fn wrapped_spec(value: Seq<char>, more: Seq<char>) -> Seq<char> {
    if value.len() == 0 {
        more
    } else {
        value + " "@ + more
    }
}

/// [`wrapped_spec`] of a field that may be missing so far.
pub open spec fn maybe_wrapped_spec(value: Option<Seq<char>>, more: Seq<char>) -> Option<
    Seq<char>,
> {
    match value {
        Some(value) => Some(wrapped_spec(value, more)),
        None => Some(more),
    }
}

fn wrapped(value: &str, more: &[char]) -> (r: String)
    ensures
        r@ == wrapped_spec(value@, more@),
{
    if chars(value).len() == 0 {
        text::string(more)
    } else {
        text::cat3(value, " ", &text::string(more))
    }
}

fn maybe_wrapped(value: &Option<String>, more: &[char]) -> (r: Option<String>)
    ensures
        r.deep() == maybe_wrapped_spec(value.deep(), more@),
{
    match value {
        Some(value) => Some(wrapped(value, more)),
        None => Some(text::string(more)),
    }
}

/// A package after a line that goes on with the field `key`.
pub open spec fn continued_spec(package: PackageView, key: Seq<char>, more: Seq<char>) ->
    PackageView {
    if more.len() == 0 {
        package
    } else if key == "name"@ {
        PackageView { name: wrapped_spec(package.name, more), ..package }
    } else if key == "version"@ {
        PackageView { version: maybe_wrapped_spec(package.version, more), ..package }
    } else if key == "synopsis"@ {
        PackageView { description: maybe_wrapped_spec(package.description, more), ..package }
    } else if key == "homepage"@ {
        PackageView { homepage: maybe_wrapped_spec(package.homepage, more), ..package }
    } else if key == "license"@ {
        PackageView { license: maybe_wrapped_spec(package.license, more), ..package }
    } else if key == "dependencies"@ {
        PackageView {
            dependencies: Some(
                match package.dependencies {
                    Some(names) => names + dependencies_spec(more),
                    None => dependencies_spec(more),
                },
            ),
            ..package
        }
    } else {
        package
    }
}

fn more_dependencies(names: Option<Vec<String>>, more: &[char]) -> (r: Vec<String>)
    ensures
        r@.deep() == match names {
            Some(names) => names@.deep() + dependencies_spec(more@),
            None => dependencies_spec(more@),
        },
{
    let mut further = dependencies(more);
    match names {
        Some(names) => {
            let mut names = names;
            let ghost known = names@;
            let ghost added = further@;
            names.append(&mut further);
            assert((known + added).deep() =~= known.deep() + added.deep());
            names
        },
        None => further,
    }
}

fn continued(package: GuixPackage, key: &str, more: &[char]) -> (r: GuixPackage)
    ensures
        r@ == continued_spec(package@, key@, more@),
{
    let mut package = package;
    if more.len() == 0 {
        return package;
    }
    if text::equal(key, "name") {
        package.name = wrapped(&package.name, more);
    } else if text::equal(key, "version") {
        package.version = maybe_wrapped(&package.version, more);
    } else if text::equal(key, "synopsis") {
        package.description = maybe_wrapped(&package.description, more);
    } else if text::equal(key, "homepage") {
        package.homepage = maybe_wrapped(&package.homepage, more);
    } else if text::equal(key, "license") {
        package.license = maybe_wrapped(&package.license, more);
    } else if text::equal(key, "dependencies") {
        package.dependencies = Some(more_dependencies(package.dependencies.take(), more));
    }
    package
}

/// The reading of records after one more line: an empty line ends a record,
/// and a `+` goes on with the field before.
pub open spec fn record_next_spec(state: RecordScanView, line: Seq<char>) -> RecordScanView {
    if line.trim().len() == 0 {
        RecordScanView { packages: state.finish(), current: None, last_key: ""@ }
    } else {
        match line.without_prefix("+"@) {
            Some(more) => match state.current {
                Some(package) => RecordScanView {
                    current: Some(continued_spec(package, state.last_key, more.trim())),
                    ..state
                },
                None => state,
            },
            None => match line.cut(":"@) {
                Some((key, value)) => RecordScanView {
                    current: Some(
                        field_spec(
                            match state.current {
                                Some(package) => package,
                                None => PackageView::blank(),
                            },
                            key.trim(),
                            value.trim(),
                        ),
                    ),
                    last_key: key.trim(),
                    ..state
                },
                None => state,
            },
        }
    }
}

fn finish_record(packages: &mut Vec<GuixPackage>, current: Option<GuixPackage>)
    ensures
        forall|last_key: Seq<char>|
            final(packages)@.deep() == #[trigger] (RecordScanView {
                packages: old(packages)@.deep(),
                current: current.deep(),
                last_key,
            }).finish(),
{
    if let Some(package) = current {
        if chars(&package.name).len() > 0 {
            rows::push(packages, package);
        }
    }
}

impl Scanner for RecordScan {
    type State = RecordScanView;

    closed spec fn state(&self) -> RecordScanView {
        RecordScanView {
            packages: self.packages@.deep(),
            current: self.current.deep(),
            last_key: self.last_key@,
        }
    }

    open spec fn next(state: RecordScanView, line: Seq<char>) -> RecordScanView {
        record_next_spec(state, line)
    }

    fn feed(&mut self, line: &[char]) {
        if text::trim(line).len() == 0 {
            let current = self.current.take();
            finish_record(&mut self.packages, current);
            self.last_key = text::copy("");
            return;
        }
        if let Some(more) = text::without_prefix(line, "+") {
            if let Some(package) = self.current.take() {
                self.current = Some(continued(package, &self.last_key, text::trim(more)));
            }
            return;
        }
        if let Some((key, value)) = text::cut(line, ":") {
            let package = match self.current.take() {
                Some(package) => package,
                None => GuixPackage::default(),
            };
            self.current = Some(field(package, text::trim(key), text::trim(value)));
            self.last_key = text::string(text::trim(key));
        }
    }
}

/// The packages in the records that `guix search` and `guix show` print.
pub open spec fn parse_records_spec(stdout: Seq<char>) -> Seq<PackageView> {
    rows::scan(
        RecordScanView::start(),
        stdout.lines(),
        |state: RecordScanView, line: Seq<char>| record_next_spec(state, line),
    ).finish()
}

pub fn parse_records(stdout: &str) -> (r: Vec<GuixPackage>)
    ensures
        r@.deep() == parse_records_spec(stdout@),
{
    let end = rows::scan_output(
        RecordScan { packages: rows::empty(), current: None, last_key: text::copy("") },
        stdout,
        Ghost(|state: RecordScanView, line: Seq<char>| record_next_spec(state, line)),
    );
    let ghost last = end.state();
    let mut packages = end.packages;
    finish_record(&mut packages, end.current);
    assert(packages@.deep() == last.finish());
    packages
}

/// Whether version `a` is newer than `b`: chunks between dots, hyphens and
/// underscores count as numbers where both are, and a longer version is newer
/// than its own beginning.
pub open spec fn version_newer_spec(a: Seq<char>, b: Seq<char>) -> bool {
    version::rank_spec(a, b, ".-_"@) == version::Rank::Greater
}

pub fn version_newer(a: &str, b: &str) -> (r: bool)
    ensures
        r == version_newer_spec(a@, b@),
{
    version::rank(a, b, ".-_") == version::Rank::Greater
}

/// No version is newer than itself, and of two versions at most one is newer
/// than the other.
pub proof fn newer_is_strict(a: Seq<char>, b: Seq<char>)
    ensures
        !version_newer_spec(a, a),
        version_newer_spec(a, b) ==> !version_newer_spec(b, a),
{
    version::ranks_equal_itself(a, ".-_"@);
    version::ranks_reverse(a, b, ".-_"@);
}

/// Whether a record is to be preferred to the best one so far.
pub open spec fn better_spec(candidate: PackageView, best: PackageView) -> bool {
    match (candidate.version, best.version) {
        (Some(new), Some(old)) => version_newer_spec(new, old),
        (Some(_), None) => true,
        (None, _) => false,
    }
}

fn better(candidate: &GuixPackage, best: &GuixPackage) -> (r: bool)
    ensures
        r == better_spec(candidate@, best@),
{
    match (&candidate.version, &best.version) {
        (Some(new), Some(old)) => version_newer(new, old),
        (Some(_), None) => true,
        (None, _) => false,
    }
}

/// The newest record of the package `name`; of equal ones the first.
pub open spec fn newest_spec(packages: Seq<PackageView>, name: Seq<char>) -> Option<PackageView>
    decreases packages.len(),
{
    if packages.len() == 0 {
        None
    } else {
        let candidate = packages.last();
        match newest_spec(packages.drop_last(), name) {
            Some(best) => Some(
                if candidate.name == name && better_spec(candidate, best) {
                    candidate
                } else {
                    best
                },
            ),
            None => if candidate.name == name {
                Some(candidate)
            } else {
                None
            },
        }
    }
}

fn newest(packages: Vec<GuixPackage>, name: &str) -> (r: Option<GuixPackage>)
    ensures
        r.deep() == newest_spec(packages@.deep(), name@),
{
    let ghost all = packages@.deep();
    let n: usize = packages.len();
    let mut best: Option<GuixPackage> = None;
    let mut i: usize = 0;
    for candidate in it: packages
        invariant
            all == it.seq().deep(),
            i == it.index(),
            all.len() == n,
            i <= n,
            best.deep() == newest_spec(all.take(i as int), name@),
    {
        assert(all.take(i + 1).drop_last() =~= all.take(i as int));
        assert(all.take(i + 1).last() == candidate@);
        if text::equal(&candidate.name, name) {
            let take = match &best {
                Some(best) => better(&candidate, best),
                None => true,
            };
            if take {
                best = Some(candidate);
            }
        }
        i += 1;
    }
    assert(all.take(all.len() as int) =~= all);
    best
}

/// A record, completed by what the profile holds: an installed package can be
/// upgraded where the record is newer.
pub open spec fn merge_installed_spec(
    package: PackageView,
    installed: Seq<(Seq<char>, Seq<char>)>,
) -> PackageView {
    match rows::first(installed, |entry: (Seq<char>, Seq<char>)| entry.0 == package.name) {
        None => package,
        Some((_, version)) => {
            let current = version.filled();
            if current is Some && current != package.version {
                PackageView {
                    version: current,
                    latest_version: package.version,
                    state: if package.version is Some && version_newer_spec(
                        package.version->0,
                        version,
                    ) {
                        InstallState::Upgradable
                    } else {
                        InstallState::Installed
                    },
                    ..package
                }
            } else {
                PackageView { state: InstallState::Installed, ..package }
            }
        },
    }
}

fn merge_installed(package: GuixPackage, installed: Vec<(String, String)>) -> (r: GuixPackage)
    ensures
        r@ == merge_installed_spec(package@, installed@.deep()),
{
    let local = {
        let wanted = &package.name;
        let same = |entry: &(String, String)| -> (b: bool)
            ensures
                b == (entry@.0 == wanted@),
            { text::equal(&entry.0, wanted) };
        rows::take_first(
            installed,
            same,
            Ghost(|entry: (Seq<char>, Seq<char>)| entry.0 == package@.name),
        )
    };
    match local {
        None => package,
        Some((_, version)) => {
            let current = given(version);
            if current.is_some() && !text::equal_maybe(&current, &package.version) {
                let newer = match (&package.version, &current) {
                    (Some(latest), Some(current)) => version_newer(latest, current),
                    _ => false,
                };
                GuixPackage {
                    version: current,
                    latest_version: package.version,
                    state: if newer {
                        InstallState::Upgradable
                    } else {
                        InstallState::Installed
                    },
                    ..package
                }
            } else {
                GuixPackage { state: InstallState::Installed, ..package }
            }
        },
    }
}

/// The best version to be had of the package `name`: the first one, unless a
/// later one is newer.
pub open spec fn best_spec(available: Seq<(Seq<char>, Seq<char>)>, name: Seq<char>) -> Option<
    Seq<char>,
>
    decreases available.len(),
{
    if available.len() == 0 {
        None
    } else {
        let (candidate, version) = available.last();
        match best_spec(available.drop_last(), name) {
            Some(best) => Some(
                if candidate == name && version_newer_spec(version, best) {
                    version
                } else {
                    best
                },
            ),
            None => if candidate == name {
                Some(version)
            } else {
                None
            },
        }
    }
}

fn best<'a>(available: &'a [(String, String)], name: &str) -> (r: Option<&'a String>)
    ensures
        r.deep() == best_spec(available@.deep(), name@),
{
    let ghost all = available@.deep();
    let mut best: Option<&'a String> = None;
    let mut i: usize = 0;
    while i < available.len()
        invariant
            i <= available.len(),
            all == available@.deep(),
            best.deep() == best_spec(all.take(i as int), name@),
        decreases available.len() - i,
    {
        assert(all.take(i + 1).drop_last() =~= all.take(i as int));
        assert(all.take(i + 1).last() == available@[i as int]@);
        if text::equal(&available[i].0, name) {
            let take = match best {
                Some(best) => version_newer(&available[i].1, best),
                None => true,
            };
            if take {
                best = Some(&available[i].1);
            }
        }
        i += 1;
    }
    assert(all.take(all.len() as int) =~= all);
    best
}

/// An installed package that is behind the best version to be had.
pub open spec fn outdated_row_spec(
    entry: (Seq<char>, Seq<char>),
    available: Seq<(Seq<char>, Seq<char>)>,
) -> Option<PackageView> {
    match best_spec(available, entry.0) {
        Some(latest) if version_newer_spec(latest, entry.1) => Some(
            PackageView {
                latest_version: Some(latest),
                ..PackageView::versioned(entry.0, Some(entry.1), InstallState::Upgradable)
            },
        ),
        _ => None,
    }
}

/// The installed packages of which a newer version is to be had.
pub open spec fn outdated_spec(
    installed: Seq<(Seq<char>, Seq<char>)>,
    available: Seq<(Seq<char>, Seq<char>)>,
) -> Seq<PackageView> {
    rows::select(installed, |entry: (Seq<char>, Seq<char>)| outdated_row_spec(entry, available))
}

pub fn outdated(installed: &[(String, String)], available: &[(String, String)]) -> (r: Vec<
    GuixPackage,
>)
    ensures
        r@.deep() == outdated_spec(installed@.deep(), available@.deep()),
{
    let ghost all = installed@.deep();
    let ghost g = |entry: (Seq<char>, Seq<char>)| outdated_row_spec(entry, available@.deep());
    let mut out: Vec<GuixPackage> = rows::empty();
    let mut i: usize = 0;
    while i < installed.len()
        invariant
            i <= installed.len(),
            all == installed@.deep(),
            g == (|entry: (Seq<char>, Seq<char>)| outdated_row_spec(entry, available@.deep())),
            out@.deep() == rows::select(all.take(i as int), g),
        decreases installed.len() - i,
    {
        assert(all.take(i + 1).drop_last() =~= all.take(i as int));
        assert(all.take(i + 1).last() == installed@[i as int]@);
        let (name, version) = (&installed[i].0, &installed[i].1);
        if let Some(latest) = best(available, name) {
            if version_newer(latest, version) {
                rows::push(
                    &mut out,
                    GuixPackage {
                        name: text::copy(name),
                        version: Some(text::copy(version)),
                        latest_version: Some(text::copy(latest)),
                        state: InstallState::Upgradable,
                        ..GuixPackage::default()
                    },
                );
            }
        }
        i += 1;
    }
    assert(all.take(all.len() as int) =~= all);
    out
}

/// What is reported as outdated is installed, in the same order, and the
/// version reported as the latest is newer than the installed one.
pub proof fn outdated_is_newer(
    installed: Seq<(Seq<char>, Seq<char>)>,
    available: Seq<(Seq<char>, Seq<char>)>,
)
    ensures
        forall|i: int|
            0 <= i < outdated_spec(installed, available).len() ==> ({
                let package = #[trigger] outdated_spec(installed, available)[i];
                &&& package.state == InstallState::Upgradable
                &&& package.version is Some
                &&& package.latest_version is Some
                &&& installed.contains((package.name, package.version->0))
                &&& version_newer_spec(package.latest_version->0, package.version->0)
            }),
    decreases installed.len(),
{
    if installed.len() > 0 {
        let front = installed.drop_last();
        outdated_is_newer(front, available);
        let all = outdated_spec(installed, available);
        let rest = outdated_spec(front, available);
        assert forall|i: int| 0 <= i < all.len() implies ({
            let package = #[trigger] all[i];
            &&& package.state == InstallState::Upgradable
            &&& package.version is Some
            &&& package.latest_version is Some
            &&& installed.contains((package.name, package.version->0))
            &&& version_newer_spec(package.latest_version->0, package.version->0)
        }) by {
            if i < rest.len() {
                assert(all[i] == rest[i]);
                let entry = (rest[i].name, rest[i].version->0);
                let at = choose|at: int| 0 <= at < front.len() && front[at] == entry;
                assert(installed[at] == entry);
            } else {
                assert(installed[installed.len() - 1] == (all[i].name, all[i].version->0));
            }
        }
    }
}

/// What is no better than a record is no better than a better record either,
/// for versions made of numbers.
proof fn lemma_better_chains(a: PackageView, best: PackageView, better: PackageView)
    requires
        a.version is Some ==> version::is_numeric(a.version->0, ".-_"@),
        best.version is Some ==> version::is_numeric(best.version->0, ".-_"@),
        better.version is Some ==> version::is_numeric(better.version->0, ".-_"@),
        !better_spec(a, best),
        better_spec(better, best),
    ensures
        !better_spec(a, better),
{
    if a.version is Some && best.version is Some {
        let (new, old, other) = (better.version->0, best.version->0, a.version->0);
        version::ranks_reverse(other, old, ".-_"@);
        version::numeric_ranks_chain(new, old, other, ".-_"@);
        version::ranks_reverse(new, other, ".-_"@);
    }
}

/// The record that is picked as the newest is one of the package's, and none
/// of them is better, as long as their versions are made of numbers: `2`, `10`
/// and `1a` each beat one of the others.
pub proof fn the_newest_is_unbeaten(packages: Seq<PackageView>, name: Seq<char>)
    requires
        forall|i: int|
            0 <= i < packages.len() && (#[trigger] packages[i]).name == name
                && packages[i].version is Some ==> version::is_numeric(
                packages[i].version->0,
                ".-_"@,
            ),
    ensures
        match newest_spec(packages, name) {
            Some(best) => {
                &&& best.name == name
                &&& packages.contains(best)
                &&& forall|i: int|
                    0 <= i < packages.len() && (#[trigger] packages[i]).name == name
                        ==> !better_spec(packages[i], best)
            },
            None => forall|i: int|
                0 <= i < packages.len() ==> (#[trigger] packages[i]).name != name,
        },
    decreases packages.len(),
{
    if packages.len() > 0 {
        let front = packages.drop_last();
        let last = packages.last();
        assert(forall|i: int| 0 <= i < front.len() ==> #[trigger] front[i] == packages[i]);
        the_newest_is_unbeaten(front, name);
        assert(packages[packages.len() - 1] == last);
        if last.version is Some {
            version::ranks_equal_itself(last.version->0, ".-_"@);
        }
        match newest_spec(front, name) {
            Some(best) => {
                let at = choose|at: int| 0 <= at < front.len() && front[at] == best;
                assert(packages[at] == best);
                if last.name == name && better_spec(last, best) {
                    assert forall|i: int|
                        0 <= i < packages.len() && (#[trigger] packages[i]).name
                            == name implies !better_spec(packages[i], last) by {
                        if i < front.len() {
                            assert(front[i] == packages[i]);
                            lemma_better_chains(packages[i], best, last);
                        }
                    }
                } else {
                    assert forall|i: int|
                        0 <= i < packages.len() && (#[trigger] packages[i]).name
                            == name implies !better_spec(packages[i], best) by {
                        if i < front.len() {
                            assert(front[i] == packages[i]);
                        }
                    }
                }
            },
            None => {
                assert forall|i: int|
                    0 <= i < packages.len() && (#[trigger] packages[i]).name
                        == name implies i == packages.len() - 1 by {
                    if i < front.len() {
                        assert(front[i] == packages[i]);
                    }
                }
            },
        }
    }
}

/// No version to be had of a package is newer than the one that counts as the
/// best, as long as they are made of numbers.
pub proof fn the_best_is_unbeaten(available: Seq<(Seq<char>, Seq<char>)>, name: Seq<char>)
    requires
        forall|i: int|
            0 <= i < available.len() && (#[trigger] available[i]).0 == name
                ==> version::is_numeric(available[i].1, ".-_"@),
    ensures
        match best_spec(available, name) {
            Some(best) => {
                &&& available.contains((name, best))
                &&& forall|i: int|
                    0 <= i < available.len() && (#[trigger] available[i]).0 == name
                        ==> !version_newer_spec(available[i].1, best)
            },
            None => forall|i: int| 0 <= i < available.len() ==> (#[trigger] available[i]).0 != name,
        },
    decreases available.len(),
{
    if available.len() > 0 {
        let front = available.drop_last();
        let last = available.last();
        assert(forall|i: int| 0 <= i < front.len() ==> #[trigger] front[i] == available[i]);
        the_best_is_unbeaten(front, name);
        assert(available[available.len() - 1] == last);
        version::ranks_equal_itself(last.1, ".-_"@);
        match best_spec(front, name) {
            Some(best) => {
                let at = choose|at: int| 0 <= at < front.len() && front[at] == (name, best);
                assert(available[at] == (name, best));
                if last.0 == name && version_newer_spec(last.1, best) {
                    assert(available[available.len() - 1] == (name, last.1));
                    assert forall|i: int|
                        0 <= i < available.len() && (#[trigger] available[i]).0
                            == name implies !version_newer_spec(available[i].1, last.1) by {
                        if i < front.len() {
                            assert(front[i] == available[i]);
                            let other = available[i].1;
                            version::ranks_reverse(other, best, ".-_"@);
                            version::numeric_ranks_chain(last.1, best, other, ".-_"@);
                            version::ranks_reverse(last.1, other, ".-_"@);
                        }
                    }
                } else {
                    assert forall|i: int|
                        0 <= i < available.len() && (#[trigger] available[i]).0
                            == name implies !version_newer_spec(available[i].1, best) by {
                        if i < front.len() {
                            assert(front[i] == available[i]);
                        }
                    }
                }
            },
            None => {
                if last.0 == name {
                    assert(available[available.len() - 1] == (name, last.1));
                }
                assert forall|i: int|
                    0 <= i < available.len() && (#[trigger] available[i]).0
                        == name implies i == available.len() - 1 by {
                    if i < front.len() {
                        assert(front[i] == available[i]);
                    }
                }
            },
        }
    }
}

/// A version is newer than its own beginning, but for further zeros behind a
/// last chunk that is zero.
pub proof fn longer_is_newer(a: Seq<char>, more: Seq<char>)
    requires
        more.len() > 0,
    ensures
        version_newer_spec(a + more, a) == !(more.split(".-_"@).len() == 1 && version::adds_zeros(
            a.split(".-_"@).last(),
            more,
        )),
{
    version::longer_is_newer(a, more, ".-_"@);
}

} // verus!
