//! dpkg, the low-level tool of Debian.
//!
//! dpkg resolves no dependencies and knows no remotes: what it installs is
//! the path of a `.deb` file. Reads go through `dpkg-query`, which prints what
//! a format asks for. A dry run is built in. dpkg only asks about changed
//! configuration files, so `assume_yes` has nothing to do.

use vstd::prelude::*;

use crate::command::{self, Cmd, CmdView, Plan};
use crate::detect::{Detection, DetectionView};
use crate::error::{self, Error, ErrorView};
use crate::package::{self, Details, InstallState, Package, PackageView};
use crate::profile::{basic_capabilities, Capabilities, ManagerKind, Profile};
use crate::request::{self, OpContext, PackageRequest, RequestView};
use crate::rows::{self, Scanner};
use crate::session::{self, Listing, Reply, Step};
use crate::text::{self, chars, Deep, Pieces, Text};

verus! {

broadcast use command::group_carries;

impl Manager {
    /// What the manager says of itself.
    pub fn profile(&self) -> (r: Profile)
        ensures
            r.id@ == "dpkg"@,
            r.display_name@ == "dpkg"@,
            r.kind == ManagerKind::System,
            r.database_id@ == "dpkg"@,
            r.capabilities == Capabilities::basic(),
            r.elevates == true,
    {
        Profile {
            id: "dpkg",
            display_name: "dpkg",
            kind: ManagerKind::System,
            database_id: "dpkg",
            capabilities: basic_capabilities(),
            elevates: true,
        }
    }
}

/// Finds the manager and sets it up.
#[derive(Clone, Copy, Debug)]
pub struct Factory;

/// The factory of this backend.
pub fn factory() -> (r: Factory)
    ensures
        r == Factory,
{
    Factory
}

impl Factory {
    pub fn id(&self) -> (r: &'static str)
        ensures
            r@ == "dpkg"@,
    {
        "dpkg"
    }

    /// The programs to look for: the one that acts, then the one that reads.
    pub fn programs(&self) -> (r: Vec<&'static str>)
        ensures
            r@.deep() == seq!["dpkg"@, "dpkg-query"@],
    {
        let mut out: Vec<&'static str> = Vec::new();
        out.push("dpkg");
        out.push("dpkg-query");
        assert(out@.deep() =~= seq!["dpkg"@, "dpkg-query"@]);
        out
    }

    /// Whether the backend can be used: the program that acts decides.
    pub fn detect(&self, dpkg: Option<String>) -> (r: Detection)
        ensures
            r@ == match dpkg {
                Some(program) => DetectionView::Available { program: program@ },
                None => DetectionView::Unavailable { reason: "`dpkg` not found on PATH"@ },
            },
    {
        match dpkg {
            Some(program) => Detection::Available { program },
            None => Detection::Unavailable { reason: text::copy("`dpkg` not found on PATH") },
        }
    }

    /// The manager, which needs both programs.
    pub fn create(&self, dpkg: Option<String>, dpkg_query: Option<String>) -> (r: Result<
        Manager,
        Error,
    >)
        ensures
            match (dpkg, dpkg_query) {
                (Some(program), Some(query_program)) => r matches Ok(manager) && manager.program
                    == program && manager.query_program == query_program,
                _ => r matches Err(error) && error@ == ErrorView::Unavailable("dpkg"@),
            },
    {
        match (dpkg, dpkg_query) {
            (Some(program), Some(query_program)) => Ok(Manager { program, query_program }),
            _ => Err(Error::Unavailable(text::copy("dpkg"))),
        }
    }
}

/// The manager, driving `program`, and `query_program` for what is installed.
#[derive(Debug)]
pub struct Manager {
    pub program: String,
    pub query_program: String,
}

/// A package as the database of dpkg describes it.
#[derive(Debug)]
pub struct DpkgPackage {
    pub name: String,
    pub version: Option<String>,
    pub description: Option<String>,
    pub homepage: Option<String>,
    pub architecture: Option<String>,
    pub origin: Option<String>,
    pub installed_size: Option<u64>,
    pub dependencies: Option<Vec<String>>,
    pub state: InstallState,
}

impl View for DpkgPackage {
    type V = PackageView;

    open spec fn view(&self) -> PackageView {
        PackageView {
            name: self.name@,
            version: self.version.deep(),
            description: self.description.deep(),
            homepage: self.homepage.deep(),
            architecture: self.architecture.deep(),
            origin: self.origin.deep(),
            installed_size: self.installed_size,
            dependencies: package::maybe_strings(self.dependencies),
            state: self.state,
            ..PackageView::blank()
        }
    }
}

impl Default for DpkgPackage {
    fn default() -> (r: DpkgPackage)
        ensures
            r@ == PackageView::blank(),
    {
        DpkgPackage {
            name: String::new(),
            version: None,
            description: None,
            homepage: None,
            architecture: None,
            origin: None,
            installed_size: None,
            dependencies: None,
            state: InstallState::Unknown,
        }
    }
}

impl Package for DpkgPackage {
    open spec fn manager_id() -> Seq<char> {
        "dpkg"@
    }

    fn manager(&self) -> (r: &'static str) {
        "dpkg"
    }

    fn details(&self) -> (r: Details<'_>) {
        Details {
            version: self.version.as_ref(),
            description: self.description.as_ref(),
            homepage: self.homepage.as_ref(),
            architecture: self.architecture.as_ref(),
            origin: self.origin.as_ref(),
            installed_size: self.installed_size,
            dependencies: self.dependencies.as_ref(),
            ..Details::of(&self.name, self.state)
        }
    }
}

/// A file holds one version.
pub open spec fn reject_pins_spec(requests: Seq<RequestView>) -> Result<(), ErrorView> {
    request::pins_refused(
        requests,
        "dpkg: `"@,
        "` pins a version, but dpkg installs the version inside the given .deb file"@,
    )
}

pub fn reject_pins(requests: &[PackageRequest]) -> (r: Result<(), Error>)
    ensures
        error::outcome(r) == reject_pins_spec(requests@.deep()),
{
    request::refuse_pins(
        requests,
        "dpkg: `",
        "` pins a version, but dpkg installs the version inside the given .deb file",
    )
}

/// Whether a status, `want flag state`, ends in `installed`.
pub open spec fn status_installed_spec(status: Seq<char>) -> bool {
    let words = status.words();
    words.len() > 0 && words.last() == "installed"@
}

pub fn status_installed(status: &str) -> (r: bool)
    ensures
        r == status_installed_spec(status@),
{
    is_installed(&chars(status))
}

fn is_installed(status: &[char]) -> (r: bool)
    ensures
        r == status_installed_spec(status@),
{
    let words = text::words(status);
    let n: usize = words.len();
    if n == 0 {
        return false;
    }
    assert(words@.deep().last() == words@[n - 1]@);
    text::is(words[n - 1], "installed")
}

/// A package of the list: name, version, architecture, status and summary.
/// What was removed but has files left is listed too, and left out here.
pub open spec fn list_row_spec(line: Seq<char>) -> Option<PackageView> {
    let fields = line.split("\t"@);
    if fields.len() < 4 || !status_installed_spec(fields[3]) {
        None
    } else {
        Some(
            PackageView {
                architecture: Some(fields[2]),
                description: match fields.nth(4) {
                    Some(summary) => summary.filled(),
                    None => None,
                },
                ..PackageView::versioned(fields[0], Some(fields[1]), InstallState::Installed)
            },
        )
    }
}

fn list_row(line: &[char]) -> (r: Option<DpkgPackage>)
    ensures
        r.deep() == list_row_spec(line@),
{
    let fields = text::split(line, "\t");
    if fields.len() < 4 || !is_installed(fields[3]) {
        return None;
    }
    let description = match text::nth(&fields, 4) {
        Some(summary) => text::maybe_string(text::filled(summary)),
        None => None,
    };
    Some(
        DpkgPackage {
            name: text::string(fields[0]),
            version: Some(text::string(fields[1])),
            architecture: Some(text::string(fields[2])),
            description,
            state: InstallState::Installed,
            ..DpkgPackage::default()
        },
    )
}

/// The installed packages that `dpkg-query -W` prints.
pub open spec fn parse_list_spec(stdout: Seq<char>) -> Seq<PackageView> {
    rows::select(stdout.lines(), |line: Seq<char>| list_row_spec(line))
}

pub fn parse_list(stdout: &str) -> (r: Vec<DpkgPackage>)
    ensures
        r@.deep() == parse_list_spec(stdout@),
        crate::package::all_in(r@.deep(), InstallState::Installed),
{
    proof {
        rows::selected_have(
            stdout@.lines(),
            |line: Seq<char>| list_row_spec(line),
            |p: PackageView| p.state == InstallState::Installed,
        );
    }
    rows::select_rows(stdout, list_row, Ghost(|line: Seq<char>| list_row_spec(line)))
}

/// A size that is written in KiB, in bytes, if they fit 64 bits.
pub open spec fn kib_spec(value: Seq<char>) -> Option<u64> {
    match value.number() {
        Some(kib) => if kib * 1024 <= u64::MAX {
            Some((kib * 1024) as u64)
        } else {
            None
        },
        None => None,
    }
}

fn kib(value: &[char]) -> (r: Option<u64>)
    ensures
        r == kib_spec(value@),
{
    match text::number(value) {
        Some(kib) => kib.checked_mul(1024),
        None => None,
    }
}

/// The reading of `dpkg-query -s`.
struct StatusScan {
    package: DpkgPackage,
    installed: bool,
}

/// The model of the reading of `dpkg-query -s`.
pub struct StatusScanView {
    pub package: PackageView,
    pub installed: bool,
}

impl StatusScanView {
    pub open spec fn start() -> StatusScanView {
        StatusScanView {
            package: PackageView::named(seq![], InstallState::Installed),
            installed: false,
        }
    }
}

/// A package after the field `key` with a value.
pub open spec fn keyed_spec(package: PackageView, key: Seq<char>, value: Seq<char>) -> PackageView {
    if key == "Package"@ {
        PackageView { name: value, ..package }
    } else if key == "Version"@ {
        PackageView { version: Some(value), ..package }
    } else if key == "Architecture"@ {
        PackageView { architecture: Some(value), ..package }
    } else if key == "Section"@ {
        PackageView { origin: Some(value), ..package }
    } else if key == "Homepage"@ {
        PackageView { homepage: Some(value), ..package }
    } else if key == "Installed-Size"@ {
        PackageView { installed_size: kib_spec(value), ..package }
    } else if key == "Depends"@ {
        PackageView { dependencies: Some(package::dependency_names(value)), ..package }
    } else if key == "Description"@ {
        PackageView { description: Some(value), ..package }
    } else {
        package
    }
}

fn keyed(package: DpkgPackage, key: &[char], value: &[char]) -> (r: DpkgPackage)
    ensures
        r@ == keyed_spec(package@, key@, value@),
{
    let given = text::string(value);
    if text::is(key, "Package") {
        DpkgPackage { name: given, ..package }
    } else if text::is(key, "Version") {
        DpkgPackage { version: Some(given), ..package }
    } else if text::is(key, "Architecture") {
        DpkgPackage { architecture: Some(given), ..package }
    } else if text::is(key, "Section") {
        DpkgPackage { origin: Some(given), ..package }
    } else if text::is(key, "Homepage") {
        DpkgPackage { homepage: Some(given), ..package }
    } else if text::is(key, "Installed-Size") {
        DpkgPackage { installed_size: kib(value), ..package }
    } else if text::is(key, "Depends") {
        DpkgPackage { dependencies: Some(package::names_of_dependencies(value)), ..package }
    } else if text::is(key, "Description") {
        DpkgPackage { description: Some(given), ..package }
    } else {
        package
    }
}

/// The reading of `dpkg-query -s` after one more line; an indented line goes
/// on with the field above it and is passed over.
pub open spec fn status_next_spec(state: StatusScanView, line: Seq<char>) -> StatusScanView {
    if line.begins_blank() {
        state
    } else {
        match line.cut(":"@) {
            None => state,
            Some((key, value)) => if value.trim().len() == 0 {
                state
            } else if key.trim() == "Status"@ {
                StatusScanView { installed: status_installed_spec(value.trim()), ..state }
            } else {
                StatusScanView {
                    package: keyed_spec(state.package, key.trim(), value.trim()),
                    ..state
                }
            },
        }
    }
}

impl Scanner for StatusScan {
    type State = StatusScanView;

    closed spec fn state(&self) -> StatusScanView {
        StatusScanView {
            package: self.package@,
            installed: self.installed,
        }
    }

    open spec fn next(state: StatusScanView, line: Seq<char>) -> StatusScanView {
        status_next_spec(state, line)
    }

    fn feed(&mut self, line: &[char]) {
        if text::begins_blank(line) {
            return;
        }
        if let Some((key, value)) = text::cut(line, ":") {
            let key = text::trim(key);
            let value = text::trim(value);
            if value.len() == 0 {
                return;
            }
            if text::is(key, "Status") {
                self.installed = is_installed(value);
            } else {
                let mut package = DpkgPackage::default();
                std::mem::swap(&mut self.package, &mut package);
                self.package = keyed(package, key, value);
            }
        }
    }
}

/// The package that `dpkg-query -s` describes, if it is installed.
pub open spec fn parse_status_spec(stdout: Seq<char>) -> Option<PackageView> {
    let end = rows::scan(
        StatusScanView::start(),
        stdout.lines(),
        |state: StatusScanView, line: Seq<char>| status_next_spec(state, line),
    );
    if end.installed && end.package.name.len() > 0 {
        Some(end.package)
    } else {
        None
    }
}

pub fn parse_status(stdout: &str) -> (r: Option<DpkgPackage>)
    ensures
        r.deep() == parse_status_spec(stdout@),
{
    let start = StatusScan {
        package: DpkgPackage { state: InstallState::Installed, ..DpkgPackage::default() },
        installed: false,
    };
    let end = rows::scan_output(
        start,
        stdout,
        Ghost(|state: StatusScanView, line: Seq<char>| status_next_spec(state, line)),
    );
    if end.installed && !package::is_nameless(&end.package) {
        Some(end.package)
    } else {
        None
    }
}

impl Manager {
    /// A command of `dpkg-query`.
    pub open spec fn query_spec(self) -> CmdView {
        CmdView::query(self.query_program@)
    }

    fn query(&self) -> (r: Cmd)
        ensures
            r@ == self.query_spec(),
    {
        Cmd::query(&self.query_program)
    }

    /// An elevated command, which on a dry run has no effect.
    pub open spec fn mutation_spec(self, flag: Seq<char>, ctx: OpContext) -> CmdView {
        CmdView::new(self.program@).elevated().flag(ctx.dry_run, "--dry-run"@).arg(flag)
    }

    fn mutation(&self, flag: &str, ctx: &OpContext) -> (r: Cmd)
        ensures
            r@ == self.mutation_spec(flag@, *ctx),
    {
        Cmd::new(&self.program).elevated().flag(ctx.dry_run, "--dry-run").arg(flag)
    }

    pub fn install(&self, packages: &[PackageRequest], ctx: &OpContext) -> (r: Plan)
        ensures
            command::plan(r) == match reject_pins_spec(packages@.deep()) {
                Err(error) => Err(error),
                Ok(_) => command::just(self.mutation_spec("-i"@, *ctx).names(packages@.deep())),
            },
            command::all_elevated(command::plan(r), true),
            ctx.dry_run ==> command::all_carry(command::plan(r), "--dry-run"@),
            request::first_pin(packages@.deep()) is Some ==> r is Err,
            command::plan(r) == match (
                request::pins_refused(
                    packages@.deep(),
                    "dpkg: `"@,
                    "` pins a version, but dpkg installs the version inside the given .deb file"@,
                )
            ) {
                Err(error) => Err(error),
                Ok(_) => command::just(
                    CmdView::new(self.program@).elevated().flag(
                        ctx.dry_run,
                        "--dry-run"@,
                    ).arg("-i"@).names(packages@.deep()),
                ),
            },
    {
        if let Err(error) = reject_pins(packages) {
            return Err(error);
        }
        Ok(command::one(self.mutation("-i", ctx).names(packages)))
    }

    pub fn remove(&self, packages: &[PackageRequest], ctx: &OpContext) -> (r: Plan)
        ensures
            command::plan(r) == command::just(
                self.mutation_spec("-r"@, *ctx).names(packages@.deep()),
            ),
            command::all_elevated(command::plan(r), true),
            ctx.dry_run ==> command::all_carry(command::plan(r), "--dry-run"@),
            command::plan(r) == command::just(
                CmdView::new(self.program@).elevated().flag(
                    ctx.dry_run,
                    "--dry-run"@,
                ).arg("-r"@).names(packages@.deep()),
            ),
    {
        Ok(command::one(self.mutation("-r", ctx).names(packages)))
    }

    pub fn list_installed(&self, replies: &[Reply]) -> (r: Step<Listing<DpkgPackage>>)
        ensures
            r@ == session::listed(
                self.query_spec()
                    .arg("-W"@)
                    .arg("-f"@)
                    .arg("${Package}\\t${Version}\\t${Architecture}\\t${Status}\\t${binary:Summary}\\n"@),
                replies@.deep(),
                |out: Seq<char>| parse_list_spec(out),
            ),
            r@.only_looks(),
            r@.in_c_locale(),
            r@ == session::listed(
                CmdView::query(self.query_program@) .arg("-W"@) .arg("-f"@) .arg(
                    "${Package}\\t${Version}\\t${Architecture}\\t${Status}\\t${binary:Summary}\\n"@,
                ),
                replies@.deep(),
                |out: Seq<char>| parse_list_spec(out),
            ),
    {
        session::list(
            self.query()
                .arg("-W")
                .arg("-f")
                .arg("${Package}\\t${Version}\\t${Architecture}\\t${Status}\\t${binary:Summary}\\n"),
            replies,
            parse_list,
            Ghost(|out: Seq<char>| parse_list_spec(out)),
        )
    }

    pub fn info(&self, name: &str, replies: &[Reply]) -> (r: Step<DpkgPackage>)
        ensures
            r@ == session::described(
                self.query_spec().arg("-s"@).arg(name@),
                replies@.deep(),
                name@,
                |out: Seq<char>| parse_status_spec(out),
            ),
            r@.only_looks(),
            r@.in_c_locale(),
            r@ == session::described(
                CmdView::query(self.query_program@).arg("-s"@).arg(name@),
                replies@.deep(),
                name@,
                |out: Seq<char>| parse_status_spec(out),
            ),
    {
        session::describe(
            self.query().arg("-s").arg(name),
            replies,
            name,
            parse_status,
            Ghost(|out: Seq<char>| parse_status_spec(out)),
        )
    }
}

} // verus!
