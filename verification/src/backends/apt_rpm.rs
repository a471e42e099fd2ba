//! APT for rpm packages, as PCLinuxOS and ALT have it.
//!
//! The commands are those of the classic `apt-get` and `apt-cache`. What is
//! installed is asked of `rpm`. `-s` simulates, and the simulation of an
//! upgrade tells what is outdated. Named packages are upgraded by an install,
//! which also installs what is not there.

use vstd::prelude::*;

use crate::command::{self, Cmd, CmdView, Plan};
use crate::detect::{Detection, DetectionView};
use crate::error::{self, Error, ErrorView};
use crate::package::{self, Details, InstallState, Package, PackageView};
use crate::profile::{basic_capabilities, Capabilities, ManagerKind, Profile};
use crate::request::{OpContext, PackageRequest};
use crate::rows::{self, Scanner};
use crate::session::{self, Listing, Reply, ReplyView, Step, StepView};
use crate::text::{self, chars, Deep, Pieces, Text};

verus! {

broadcast use command::group_carries;

impl Manager {
    /// What the manager says of itself.
    pub fn profile(&self) -> (r: Profile)
        ensures
            r.id@ == "apt-rpm"@,
            r.display_name@ == "APT-RPM"@,
            r.kind == ManagerKind::System,
            r.database_id@ == "rpmdb"@,
            r.capabilities == (Capabilities {
                search: true,
                refresh: true,
                upgrade: true,
                list_outdated: true,
                pin_version: true,
                ..Capabilities::basic()
            }),
            r.elevates == true,
    {
        Profile {
            id: "apt-rpm",
            display_name: "APT-RPM",
            kind: ManagerKind::System,
            database_id: "rpmdb",
            capabilities: Capabilities {
                search: true,
                refresh: true,
                upgrade: true,
                list_outdated: true,
                pin_version: true,
                ..basic_capabilities()
            },
            elevates: true,
        }
    }
}

/// Finds the manager and sets it up.
#[derive(Clone, Copy, Debug)]
pub struct Factory;

/// The factory of this backend.
pub fn factory() -> (r: Factory)
    ensures
        r == Factory,
{
    Factory
}

impl Factory {
    pub fn id(&self) -> (r: &'static str)
        ensures
            r@ == "apt-rpm"@,
    {
        "apt-rpm"
    }

    /// The programs to look for: the one that acts, then the two that read.
    pub fn programs(&self) -> (r: Vec<&'static str>)
        ensures
            r@.deep() == seq!["apt-get"@, "apt-cache"@, "rpm"@],
    {
        let mut out: Vec<&'static str> = Vec::new();
        out.push("apt-get");
        out.push("apt-cache");
        out.push("rpm");
        assert(out@.deep() =~= seq!["apt-get"@, "apt-cache"@, "rpm"@]);
        out
    }

    /// Whether the backend can be used: on a system that is like one of the
    /// two, if the program that acts is there.
    pub fn detect(
        &self,
        like_altlinux: bool,
        like_pclinuxos: bool,
        apt_get: Option<String>,
    ) -> (r: Detection)
        ensures
            r@ == (if !like_altlinux && !like_pclinuxos {
                DetectionView::Unavailable { reason: "not a altlinux / pclinuxos based distro"@ }
            } else {
                match apt_get {
                    Some(program) => DetectionView::Available { program: program@ },
                    None => DetectionView::Unavailable { reason: "`apt-get` not found on PATH"@ },
                }
            }),
    {
        if !like_altlinux && !like_pclinuxos {
            return Detection::Unavailable {
                reason: text::copy("not a altlinux / pclinuxos based distro"),
            };
        }
        match apt_get {
            Some(program) => Detection::Available { program },
            None => Detection::Unavailable { reason: text::copy("`apt-get` not found on PATH") },
        }
    }

    /// The manager, which needs all three programs.
    pub fn create(
        &self,
        apt_get: Option<String>,
        apt_cache: Option<String>,
        rpm: Option<String>,
    ) -> (r: Result<Manager, Error>)
        ensures
            match (apt_get, apt_cache, rpm) {
                (Some(program), Some(cache_program), Some(rpm_program)) => r matches Ok(manager)
                    && manager.program == program && manager.cache_program == cache_program
                    && manager.rpm_program == rpm_program,
                _ => r matches Err(error) && error@ == ErrorView::Unavailable("apt-rpm"@),
            },
    {
        match (apt_get, apt_cache, rpm) {
            (Some(program), Some(cache_program), Some(rpm_program)) => Ok(
                Manager { program, cache_program, rpm_program },
            ),
            _ => Err(Error::Unavailable(text::copy("apt-rpm"))),
        }
    }
}

/// The manager, driving `program`, and two other programs for what there is
/// and what is installed.
#[derive(Debug)]
pub struct Manager {
    pub program: String,
    pub cache_program: String,
    pub rpm_program: String,
}

/// A package as apt-rpm describes it.
#[derive(Debug)]
pub struct AptRpmPackage {
    pub name: String,
    pub version: Option<String>,
    pub latest_version: Option<String>,
    pub description: Option<String>,
    pub homepage: Option<String>,
    pub architecture: Option<String>,
    pub origin: Option<String>,
    pub download_size: Option<u64>,
    pub dependencies: Option<Vec<String>>,
    pub state: InstallState,
}

impl View for AptRpmPackage {
    type V = PackageView;

    open spec fn view(&self) -> PackageView {
        PackageView {
            name: self.name@,
            version: self.version.deep(),
            latest_version: self.latest_version.deep(),
            description: self.description.deep(),
            homepage: self.homepage.deep(),
            architecture: self.architecture.deep(),
            origin: self.origin.deep(),
            download_size: self.download_size,
            dependencies: package::maybe_strings(self.dependencies),
            state: self.state,
            ..PackageView::blank()
        }
    }
}

impl Default for AptRpmPackage {
    fn default() -> (r: AptRpmPackage)
        ensures
            r@ == PackageView::blank(),
    {
        AptRpmPackage {
            name: String::new(),
            version: None,
            latest_version: None,
            description: None,
            homepage: None,
            architecture: None,
            origin: None,
            download_size: None,
            dependencies: None,
            state: InstallState::Unknown,
        }
    }
}

impl Package for AptRpmPackage {
    open spec fn manager_id() -> Seq<char> {
        "apt-rpm"@
    }

    fn manager(&self) -> (r: &'static str) {
        "apt-rpm"
    }

    fn details(&self) -> (r: Details<'_>) {
        Details {
            version: self.version.as_ref(),
            latest_version: self.latest_version.as_ref(),
            description: self.description.as_ref(),
            homepage: self.homepage.as_ref(),
            architecture: self.architecture.as_ref(),
            origin: self.origin.as_ref(),
            download_size: self.download_size,
            dependencies: self.dependencies.as_ref(),
            ..Details::of(&self.name, self.state)
        }
    }
}

/// `name=version` when the request pins one, the bare name otherwise.
pub fn spec(request: &PackageRequest) -> (r: String)
    ensures
        r@ == request@.pinned("="@),
{
    request.pinned("=")
}

/// An installed package: name, version with release, and architecture.
pub open spec fn rpm_row_spec(line: Seq<char>) -> Option<PackageView> {
    let fields = line.split("\t"@);
    if fields[0].len() == 0 {
        None
    } else {
        Some(
            PackageView {
                architecture: fields.nth(2),
                ..PackageView::versioned(fields[0], fields.nth(1), InstallState::Installed)
            },
        )
    }
}

fn rpm_row(line: &[char]) -> (r: Option<AptRpmPackage>)
    ensures
        r.deep() == rpm_row_spec(line@),
{
    let fields = text::split(line, "\t");
    proof {
        text::lemma_split_some(line@, "\t"@);
    }
    if fields[0].len() == 0 {
        return None;
    }
    Some(
        AptRpmPackage {
            name: text::string(fields[0]),
            version: text::maybe_string(text::nth(&fields, 1)),
            architecture: text::maybe_string(text::nth(&fields, 2)),
            state: InstallState::Installed,
            ..AptRpmPackage::default()
        },
    )
}

/// The installed packages that `rpm -qa` prints.
pub open spec fn parse_rpm_list_spec(stdout: Seq<char>) -> Seq<PackageView> {
    rows::select(stdout.lines(), |line: Seq<char>| rpm_row_spec(line))
}

pub fn parse_rpm_list(stdout: &str) -> (r: Vec<AptRpmPackage>)
    ensures
        r@.deep() == parse_rpm_list_spec(stdout@),
        crate::package::all_named(r@.deep()),
        crate::package::all_in(r@.deep(), InstallState::Installed),
{
    proof {
        rows::selected_have(
            stdout@.lines(),
            |line: Seq<char>| rpm_row_spec(line),
            |p: PackageView| p.name.len() > 0 && p.state == InstallState::Installed,
        );
    }
    rows::select_rows(stdout, rpm_row, Ghost(|line: Seq<char>| rpm_row_spec(line)))
}

/// A hit: `name - description`.
pub open spec fn search_row_spec(line: Seq<char>) -> Option<PackageView> {
    match line.cut(" - "@) {
        None => None,
        Some((name, description)) => if name.trim().len() == 0 || name.trim().has_blank() {
            None
        } else {
            Some(
                PackageView {
                    description: Some(description.trim()),
                    ..PackageView::named(name.trim(), InstallState::Available)
                },
            )
        },
    }
}

fn search_row(line: &[char]) -> (r: Option<AptRpmPackage>)
    ensures
        r.deep() == search_row_spec(line@),
{
    match text::cut(line, " - ") {
        None => None,
        Some((name, description)) => {
            let name = text::trim(name);
            if name.len() == 0 || text::has_blank(name) {
                return None;
            }
            Some(
                AptRpmPackage {
                    name: text::string(name),
                    description: Some(text::string(text::trim(description))),
                    state: InstallState::Available,
                    ..AptRpmPackage::default()
                },
            )
        },
    }
}

/// The packages that `apt-cache search` prints.
pub open spec fn parse_search_spec(stdout: Seq<char>) -> Seq<PackageView> {
    rows::select(stdout.lines(), |line: Seq<char>| search_row_spec(line))
}

pub fn parse_search(stdout: &str) -> (r: Vec<AptRpmPackage>)
    ensures
        r@.deep() == parse_search_spec(stdout@),
        crate::package::all_named(r@.deep()),
        crate::package::all_in(r@.deep(), InstallState::Available),
{
    proof {
        rows::selected_have(
            stdout@.lines(),
            |line: Seq<char>| search_row_spec(line),
            |p: PackageView| p.name.len() > 0 && p.state == InstallState::Available,
        );
    }
    rows::select_rows(stdout, search_row, Ghost(|line: Seq<char>| search_row_spec(line)))
}

/// The reading of `apt-cache show`.
struct ShowScan {
    package: AptRpmPackage,
    started: bool,
    done: bool,
}

/// The model of the reading of `apt-cache show`.
pub struct ShowScanView {
    pub package: PackageView,
    pub started: bool,
    pub done: bool,
}

impl ShowScanView {
    pub open spec fn start() -> ShowScanView {
        ShowScanView {
            package: PackageView::named(seq![], InstallState::Available),
            started: false,
            done: false,
        }
    }
}

/// A package after the field `key` with a value.
pub open spec fn keyed_spec(package: PackageView, key: Seq<char>, value: Seq<char>) -> PackageView {
    if key == "Package"@ {
        PackageView { name: value, ..package }
    } else if key == "Version"@ {
        PackageView { version: Some(value), ..package }
    } else if key == "Architecture"@ {
        PackageView { architecture: Some(value), ..package }
    } else if key == "Section"@ {
        PackageView { origin: Some(value), ..package }
    } else if key == "Homepage"@ {
        PackageView { homepage: Some(value), ..package }
    } else if key == "Size"@ {
        PackageView { download_size: value.number(), ..package }
    } else if key == "Depends"@ {
        PackageView { dependencies: Some(package::dependency_names(value)), ..package }
    } else if key == "Description"@ {
        PackageView { description: Some(value), ..package }
    } else {
        package
    }
}

fn keyed(package: AptRpmPackage, key: &[char], value: &[char]) -> (r: AptRpmPackage)
    ensures
        r@ == keyed_spec(package@, key@, value@),
{
    let given = text::string(value);
    if text::is(key, "Package") {
        AptRpmPackage { name: given, ..package }
    } else if text::is(key, "Version") {
        AptRpmPackage { version: Some(given), ..package }
    } else if text::is(key, "Architecture") {
        AptRpmPackage { architecture: Some(given), ..package }
    } else if text::is(key, "Section") {
        AptRpmPackage { origin: Some(given), ..package }
    } else if text::is(key, "Homepage") {
        AptRpmPackage { homepage: Some(given), ..package }
    } else if text::is(key, "Size") {
        AptRpmPackage { download_size: text::number(value), ..package }
    } else if text::is(key, "Depends") {
        AptRpmPackage { dependencies: Some(package::names_of_dependencies(value)), ..package }
    } else if text::is(key, "Description") {
        AptRpmPackage { description: Some(given), ..package }
    } else {
        package
    }
}

/// The reading of `apt-cache show` after one more line. There is a stanza for
/// each version, and reading ends behind the first one that names a package;
/// indented lines go on with the long description and are passed over.
pub open spec fn show_next_spec(state: ShowScanView, line: Seq<char>) -> ShowScanView {
    if state.done || (line.trim().len() == 0 && state.started) {
        ShowScanView { done: true, ..state }
    } else if line.trim().len() == 0 || line.begins_blank() {
        state
    } else {
        match line.cut(":"@) {
            None => state,
            Some((key, value)) => if value.trim().len() == 0 {
                state
            } else {
                ShowScanView {
                    package: keyed_spec(state.package, key.trim(), value.trim()),
                    started: state.started || key.trim() == "Package"@,
                    done: false,
                }
            },
        }
    }
}

impl Scanner for ShowScan {
    type State = ShowScanView;

    closed spec fn state(&self) -> ShowScanView {
        ShowScanView {
            package: self.package@,
            started: self.started,
            done: self.done,
        }
    }

    open spec fn next(state: ShowScanView, line: Seq<char>) -> ShowScanView {
        show_next_spec(state, line)
    }

    fn feed(&mut self, line: &[char]) {
        let blank = text::trim(line).len() == 0;
        if self.done || (blank && self.started) {
            self.done = true;
            return;
        }
        if blank || text::begins_blank(line) {
            return;
        }
        if let Some((key, value)) = text::cut(line, ":") {
            let key = text::trim(key);
            let value = text::trim(value);
            if value.len() > 0 {
                let mut package = AptRpmPackage::default();
                std::mem::swap(&mut self.package, &mut package);
                self.package = keyed(package, key, value);
                if text::is(key, "Package") {
                    self.started = true;
                }
            }
        }
    }
}

/// The package that `apt-cache show` describes.
pub open spec fn parse_show_spec(stdout: Seq<char>) -> Option<PackageView> {
    let end = rows::scan(
        ShowScanView::start(),
        stdout.lines(),
        |state: ShowScanView, line: Seq<char>| show_next_spec(state, line),
    );
    if end.package.name.len() == 0 {
        None
    } else {
        Some(end.package)
    }
}

pub fn parse_show(stdout: &str) -> (r: Option<AptRpmPackage>)
    ensures
        r.deep() == parse_show_spec(stdout@),
{
    let start = ShowScan {
        package: AptRpmPackage { state: InstallState::Available, ..AptRpmPackage::default() },
        started: false,
        done: false,
    };
    let end = rows::scan_output(
        start,
        stdout,
        Ghost(|state: ShowScanView, line: Seq<char>| show_next_spec(state, line)),
    );
    if package::is_nameless(&end.package) {
        None
    } else {
        Some(end.package)
    }
}

/// What stands between brackets that `open` begins and `close` ends.
pub open spec fn bracketed_spec(
    word: Option<Seq<char>>,
    open: Seq<char>,
    close: Seq<char>,
) -> Option<Seq<char>> {
    match word {
        None => None,
        Some(word) => match word.without_prefix(open) {
            None => None,
            Some(rest) => Some(rest.trim_back(close)),
        },
    }
}

fn bracketed<'a>(word: Option<&'a [char]>, open: &str, close: &str) -> (r: Option<&'a [char]>)
    ensures
        r.deep() == bracketed_spec(word.deep(), open@, close@),
{
    match word {
        None => None,
        Some(word) => match text::without_prefix(word, open) {
            None => None,
            Some(rest) => Some(text::trim_back(rest, close)),
        },
    }
}

/// An upgrade in a simulation: `Inst name [old] (new …)`. Without an old
/// version it is a new install.
pub open spec fn outdated_row_spec(line: Seq<char>) -> Option<PackageView> {
    match line.without_prefix("Inst "@) {
        None => None,
        Some(rest) => {
            let parts = rest.words();
            let old_version = bracketed_spec(parts.nth(1), "["@, "]"@);
            let new_version = bracketed_spec(parts.nth(2), "("@, ")"@);
            if parts.len() == 0 || old_version is None || new_version is None {
                None
            } else {
                Some(
                    PackageView {
                        latest_version: new_version,
                        ..PackageView::versioned(parts[0], old_version, InstallState::Upgradable)
                    },
                )
            }
        },
    }
}

fn outdated_row(line: &[char]) -> (r: Option<AptRpmPackage>)
    ensures
        r.deep() == outdated_row_spec(line@),
{
    match text::without_prefix(line, "Inst ") {
        None => None,
        Some(rest) => {
            let parts = text::words(rest);
            let old_version = bracketed(text::nth(&parts, 1), "[", "]");
            let new_version = bracketed(text::nth(&parts, 2), "(", ")");
            if parts.len() == 0 || old_version.is_none() || new_version.is_none() {
                return None;
            }
            Some(
                AptRpmPackage {
                    name: text::string(parts[0]),
                    version: text::maybe_string(old_version),
                    latest_version: text::maybe_string(new_version),
                    state: InstallState::Upgradable,
                    ..AptRpmPackage::default()
                },
            )
        },
    }
}

/// The upgrades that `apt-get -s dist-upgrade` announces.
pub open spec fn parse_outdated_spec(stdout: Seq<char>) -> Seq<PackageView> {
    rows::select(stdout.lines(), |line: Seq<char>| outdated_row_spec(line))
}

pub fn parse_outdated(stdout: &str) -> (r: Vec<AptRpmPackage>)
    ensures
        r@.deep() == parse_outdated_spec(stdout@),
        crate::package::all_named(r@.deep()),
        crate::package::all_in(r@.deep(), InstallState::Upgradable),
{
    proof {
        rows::selected_have(
            stdout@.lines(),
            |line: Seq<char>| outdated_row_spec(line),
            |p: PackageView| p.name.len() > 0 && p.state == InstallState::Upgradable,
        );
    }
    rows::select_rows(stdout, outdated_row, Ghost(|line: Seq<char>| outdated_row_spec(line)))
}

/// The installed version that `rpm -q` tells.
pub open spec fn installed_version_spec(reply: ReplyView) -> Option<Seq<char>> {
    if !reply.success {
        None
    } else {
        match reply.stdout.lines().nth(0) {
            Some(line) => line.trim().filled(),
            None => None,
        }
    }
}

pub fn installed_version(reply: &Reply) -> (r: Option<String>)
    ensures
        r.deep() == installed_version_spec(reply@),
{
    if !reply.success {
        return None;
    }
    let t = chars(&reply.stdout);
    match text::nth(&text::lines(&t), 0) {
        Some(line) => text::maybe_string(text::filled(text::trim(line))),
        None => None,
    }
}

/// A package of the repositories, completed by the installed version.
pub open spec fn merge_spec(package: PackageView, installed: Option<Seq<char>>) -> PackageView {
    match installed {
        None => package,
        Some(version) => if package.version == Some(version) {
            PackageView { state: InstallState::Installed, ..package }
        } else {
            PackageView {
                version: Some(version),
                latest_version: package.version,
                state: InstallState::Upgradable,
                ..package
            }
        },
    }
}

pub fn merge(package: AptRpmPackage, installed: Option<String>) -> (r: AptRpmPackage)
    ensures
        r@ == merge_spec(package@, installed.deep()),
{
    if installed.is_none() {
        return package;
    }
    if text::equal_maybe(&package.version, &installed) {
        AptRpmPackage { state: InstallState::Installed, ..package }
    } else {
        AptRpmPackage {
            version: installed,
            latest_version: package.version,
            state: InstallState::Upgradable,
            ..package
        }
    }
}

impl Manager {
    /// An elevated subcommand, simulated on a dry run.
    pub open spec fn mutation_spec(self, subcommand: Seq<char>, ctx: OpContext) -> CmdView {
        CmdView::new(self.program@).arg(subcommand).elevated().flag(ctx.assume_yes, "-y"@).flag(
            ctx.dry_run,
            "-s"@,
        )
    }

    fn mutation(&self, subcommand: &str, ctx: &OpContext) -> (r: Cmd)
        ensures
            r@ == self.mutation_spec(subcommand@, *ctx),
    {
        Cmd::new(&self.program).arg(subcommand).elevated().flag(ctx.assume_yes, "-y").flag(
            ctx.dry_run,
            "-s",
        )
    }

    pub fn install(&self, packages: &[PackageRequest], ctx: &OpContext) -> (r: Plan)
        ensures
            command::plan(r) == command::just(
                self.mutation_spec("install"@, *ctx).pinned(packages@.deep(), "="@),
            ),
            command::all_elevated(command::plan(r), true),
            ctx.dry_run ==> command::all_carry(command::plan(r), "-s"@),
            ctx.assume_yes ==> command::all_carry(command::plan(r), "-y"@),
            command::plan(r) == command::just(
                CmdView::new(self.program@).arg("install"@).elevated().flag(
                    ctx.assume_yes,
                    "-y"@,
                ).flag(ctx.dry_run, "-s"@).pinned(
                    packages@.deep(),
                    "="@,
                ),
            ),
    {
        Ok(command::one(self.mutation("install", ctx).pinned(packages, "=")))
    }

    pub fn remove(&self, packages: &[PackageRequest], ctx: &OpContext) -> (r: Plan)
        ensures
            command::plan(r) == command::just(
                self.mutation_spec("remove"@, *ctx).names(packages@.deep()),
            ),
            command::all_elevated(command::plan(r), true),
            ctx.dry_run ==> command::all_carry(command::plan(r), "-s"@),
            ctx.assume_yes ==> command::all_carry(command::plan(r), "-y"@),
            command::plan(r) == command::just(
                CmdView::new(self.program@).arg("remove"@).elevated().flag(
                    ctx.assume_yes,
                    "-y"@,
                ).flag(ctx.dry_run, "-s"@).names(packages@.deep()),
            ),
    {
        Ok(command::one(self.mutation("remove", ctx).names(packages)))
    }

    /// Without names everything is upgraded.
    pub fn upgrade(&self, packages: &[PackageRequest], ctx: &OpContext) -> (r: Plan)
        ensures
            command::plan(r) == (if packages@.len() == 0 {
                command::just(self.mutation_spec("dist-upgrade"@, *ctx))
            } else {
                command::just(
                    self.mutation_spec("install"@, *ctx).pinned(packages@.deep(), "="@),
                )
            }),
            command::all_elevated(command::plan(r), true),
            ctx.dry_run ==> command::all_carry(command::plan(r), "-s"@),
            ctx.assume_yes ==> command::all_carry(command::plan(r), "-y"@),
            command::plan(r) == (
                if packages@.len() == 0 {
                    command::just(
                        CmdView::new(self.program@).arg("dist-upgrade"@).elevated().flag(
                            ctx.assume_yes,
                            "-y"@,
                        ).flag(ctx.dry_run, "-s"@),
                    )
                } else {
                    command::just(
                        CmdView::new(self.program@).arg("install"@).elevated().flag(
                            ctx.assume_yes,
                            "-y"@,
                        ).flag(ctx.dry_run, "-s"@).pinned(
                            packages@.deep(),
                            "="@,
                        ),
                    )
                }
            ),
    {
        if packages.len() == 0 {
            return Ok(command::one(self.mutation("dist-upgrade", ctx)));
        }
        Ok(
            command::one(
                self.mutation("install", ctx).pinned(packages, "="),
            ),
        )
    }

    pub fn refresh(&self, ctx: &OpContext) -> (r: Plan)
        ensures
            command::plan(r) == if ctx.dry_run {
                Err(ErrorView::Other("apt-rpm: refresh has no dry-run mode"@))
            } else {
                command::just(CmdView::new(self.program@).arg("update"@).elevated())
            },
            command::all_elevated(command::plan(r), true),
            ctx.dry_run ==> r is Err,
    {
        if ctx.dry_run {
            return Err(error::other("apt-rpm: refresh has no dry-run mode"));
        }
        Ok(command::one(Cmd::new(&self.program).arg("update").elevated()))
    }

    pub fn list_installed(&self, replies: &[Reply]) -> (r: Step<Listing<AptRpmPackage>>)
        ensures
            r@ == session::listed(
                CmdView::query(self.rpm_program@)
                    .arg("-qa"@)
                    .arg("--queryformat"@)
                    .arg("%{NAME}\\t%{VERSION}-%{RELEASE}\\t%{ARCH}\\n"@),
                replies@.deep(),
                |out: Seq<char>| parse_rpm_list_spec(out),
            ),
            r@.only_looks(),
            r@.in_c_locale(),
    {
        session::list(
            Cmd::query(&self.rpm_program)
                .arg("-qa")
                .arg("--queryformat")
                .arg("%{NAME}\\t%{VERSION}-%{RELEASE}\\t%{ARCH}\\n"),
            replies,
            parse_rpm_list,
            Ghost(|out: Seq<char>| parse_rpm_list_spec(out)),
        )
    }

    pub fn search(&self, query: &str, replies: &[Reply]) -> (r: Step<Listing<AptRpmPackage>>)
        ensures
            r@ == session::listed(
                CmdView::query(self.cache_program@).arg("search"@).arg(query@),
                replies@.deep(),
                |out: Seq<char>| parse_search_spec(out),
            ),
            r@.only_looks(),
            r@.in_c_locale(),
    {
        session::list(
            Cmd::query(&self.cache_program).arg("search").arg(query),
            replies,
            parse_search,
            Ghost(|out: Seq<char>| parse_search_spec(out)),
        )
    }

    pub fn list_outdated(&self, replies: &[Reply]) -> (r: Step<Listing<AptRpmPackage>>)
        ensures
            r@ == session::listed(
                CmdView::query(self.program@).arg("-s"@).arg("dist-upgrade"@),
                replies@.deep(),
                |out: Seq<char>| parse_outdated_spec(out),
            ),
            r@.only_looks(),
            r@.in_c_locale(),
    {
        session::list(
            Cmd::query(&self.program).arg("-s").arg("dist-upgrade"),
            replies,
            parse_outdated,
            Ghost(|out: Seq<char>| parse_outdated_spec(out)),
        )
    }

    /// The repositories describe a package; rpm tells what is installed.
    pub open spec fn info_spec(self, name: Seq<char>, replies: Seq<ReplyView>) -> StepView<
        PackageView,
    > {
        if replies.len() == 0 {
            session::ask(CmdView::query(self.cache_program@).arg("show"@).arg(name))
        } else if !replies[0].success {
            StepView::Fail(ErrorView::NotFound(name))
        } else {
            match parse_show_spec(replies[0].stdout) {
                None => StepView::Fail(ErrorView::NotFound(name)),
                Some(package) => if replies.len() == 1 {
                    session::ask(
                        CmdView::query(self.rpm_program@).arg("-q"@).arg("--queryformat"@).arg(
                            "%{VERSION}-%{RELEASE}\\n"@,
                        ).arg(package.name),
                    )
                } else {
                    StepView::Done(merge_spec(package, installed_version_spec(replies[1])))
                },
            }
        }
    }

    pub fn info(&self, name: &str, replies: &[Reply]) -> (r: Step<AptRpmPackage>)
        ensures
            r@ == self.info_spec(name@, replies@.deep()),
            r@.only_looks(),
            r@.in_c_locale(),
    {
        if replies.len() == 0 {
            return session::query(Cmd::query(&self.cache_program).arg("show").arg(name));
        }
        assert(replies@.deep()[0] == replies@[0]@);
        if !replies[0].success {
            return Step::Fail(error::not_found(name));
        }
        let package = match parse_show(&replies[0].stdout) {
            None => {
                return Step::Fail(error::not_found(name));
            },
            Some(package) => package,
        };
        if replies.len() == 1 {
            return session::query(
                Cmd::query(&self.rpm_program).arg("-q").arg("--queryformat").arg(
                    "%{VERSION}-%{RELEASE}\\n",
                ).arg(&package.name),
            );
        }
        assert(replies@.deep()[1] == replies@[1]@);
        Step::Done(merge(package, installed_version(&replies[1])))
    }
}

} // verus!
