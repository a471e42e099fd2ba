//! eepm, ALT Linux's front end to whatever package manager the host has.
//!
//! `epm` gets its privileges itself, so it is never elevated here. What it
//! prints is mostly what the manager behind it prints, with the commands that
//! it ran in between, so only what is common to all of them is read. Options
//! stand before the verb. `--auto` keeps it from asking. Only a removal has a
//! dry run; an install can be simulated.

use vstd::prelude::*;

use crate::command::{self, Cmd, CmdView, Plan};
use crate::detect::{self, Detection};
use crate::error::{self, Error, ErrorView};
use crate::package::{self, Details, InstallState, Package, PackageView};
use crate::profile::{basic_capabilities, Capabilities, ManagerKind, Profile};
use crate::request::{self, OpContext, PackageRequest, RequestView};
use crate::rows::{self, Scanner};
use crate::session::{self, Listing, Reply, ReplyView, Step, StepView};
use crate::text::{self, chars, Deep, Pieces, Text};
use crate::version;

verus! {

broadcast use command::group_carries;

/// Finds the manager and sets it up.
#[derive(Clone, Copy, Debug)]
pub struct Factory;

/// The factory of this backend.
pub fn factory() -> (r: Factory)
    ensures
        r == Factory,
{
    Factory
}

impl Factory {
    pub fn id(&self) -> (r: &'static str)
        ensures
            r@ == "eepm"@,
    {
        "eepm"
    }

    /// The programs to look for, in the order of preference.
    pub fn programs(&self) -> (r: Vec<&'static str>)
        ensures
            r@.deep() == seq!["epm"@],
    {
        let mut out: Vec<&'static str> = Vec::new();
        out.push("epm");
        assert(out@.deep() =~= seq!["epm"@]);
        out
    }

    /// Whether the backend can be used, given where each program was found.
    pub fn detect(&self, found: &[Option<String>]) -> (r: Detection)
        ensures
            r@ == detect::detected(found@, "`epm` not found on PATH"@),
    {
        detect::detect(found, "`epm` not found on PATH")
    }

    /// The manager, given where each program was found.
    pub fn create(&self, found: &[Option<String>]) -> (r: Result<Manager, Error>)
        ensures
            match r {
                Ok(manager) => detect::required(found@, "eepm"@) == Ok::<Seq<char>, ErrorView>(
                    manager.program@,
                ),
                Err(error) => detect::required(found@, "eepm"@) == Err::<Seq<char>, ErrorView>(
                    error@,
                ),
            },
    {
        match detect::require(found, "eepm") {
            Ok(program) => Ok(Manager { program }),
            Err(error) => Err(error),
        }
    }
}

/// The manager, driving `program`.
#[derive(Debug)]
pub struct Manager {
    pub program: String,
}

impl Manager {
    /// What the manager says of itself.
    pub fn profile(&self) -> (r: Profile)
        ensures
            r.id@ == "eepm"@,
            r.display_name@ == "eepm"@,
            r.kind == ManagerKind::Other,
            r.database_id@ == "eepm"@,
            r.capabilities == (Capabilities {
                search: true,
                refresh: true,
                upgrade: true,
                list_outdated: true,
                ..Capabilities::basic()
            }),
            r.elevates == false,
    {
        Profile {
            id: "eepm",
            display_name: "eepm",
            kind: ManagerKind::Other,
            database_id: "eepm",
            capabilities: Capabilities {
                search: true,
                refresh: true,
                upgrade: true,
                list_outdated: true,
                ..basic_capabilities()
            },
            elevates: false,
        }
    }
}

/// A package as epm describes it.
#[derive(Debug)]
pub struct EepmPackage {
    pub name: String,
    pub version: Option<String>,
    pub latest_version: Option<String>,
    pub description: Option<String>,
    pub homepage: Option<String>,
    pub license: Option<String>,
    pub architecture: Option<String>,
    pub origin: Option<String>,
    pub state: InstallState,
}

impl View for EepmPackage {
    type V = PackageView;

    open spec fn view(&self) -> PackageView {
        PackageView {
            name: self.name@,
            version: self.version.deep(),
            latest_version: self.latest_version.deep(),
            description: self.description.deep(),
            homepage: self.homepage.deep(),
            license: self.license.deep(),
            architecture: self.architecture.deep(),
            origin: self.origin.deep(),
            state: self.state,
            ..PackageView::blank()
        }
    }
}

impl Default for EepmPackage {
    fn default() -> (r: EepmPackage)
        ensures
            r@ == PackageView::blank(),
    {
        EepmPackage {
            name: String::new(),
            version: None,
            latest_version: None,
            description: None,
            homepage: None,
            license: None,
            architecture: None,
            origin: None,
            state: InstallState::Unknown,
        }
    }
}

impl Package for EepmPackage {
    open spec fn manager_id() -> Seq<char> {
        "eepm"@
    }

    fn manager(&self) -> (r: &'static str) {
        "eepm"
    }

    fn details(&self) -> (r: Details<'_>) {
        Details {
            version: self.version.as_ref(),
            latest_version: self.latest_version.as_ref(),
            description: self.description.as_ref(),
            homepage: self.homepage.as_ref(),
            license: self.license.as_ref(),
            architecture: self.architecture.as_ref(),
            origin: self.origin.as_ref(),
            ..Details::of(&self.name, self.state)
        }
    }
}

/// The manager behind epm decides on versions.
pub open spec fn reject_pins_spec(requests: Seq<RequestView>) -> Result<(), ErrorView> {
    request::pins_refused(
        requests,
        "eepm: `"@,
        "` pins a version, but epm only installs what the wrapped manager resolves"@,
    )
}

pub fn reject_pins(requests: &[PackageRequest]) -> (r: Result<(), Error>)
    ensures
        error::outcome(r) == reject_pins_spec(requests@.deep()),
{
    request::refuse_pins(
        requests,
        "eepm: `",
        "` pins a version, but epm only installs what the wrapped manager resolves",
    )
}

/// Whether a line is not about packages: the echo of a command, or an
/// indented line.
pub open spec fn is_noise_spec(line: Seq<char>) -> bool {
    line.len() == 0 || line.begins_blank() || line.begins("$"@) || line.begins("#"@)
}

pub fn is_noise(line: &str) -> (r: bool)
    ensures
        r == is_noise_spec(line@),
{
    noise(&chars(line))
}

fn noise(line: &[char]) -> (r: bool)
    ensures
        r == is_noise_spec(line@),
{
    line.len() == 0 || text::begins_blank(line) || text::begins(line, "$") || text::begins(
        line,
        "#",
    )
}

/// `name-version-release` parted at the last hyphen but one, if a digit
/// follows it.
pub open spec fn split_nvr_spec(token: Seq<char>) -> (Seq<char>, Option<Seq<char>>) {
    let release = text::find_last(token, '-');
    let at = text::find_last(token.take(release), '-');
    if release < 0 || at < 0 || !token.skip(at + 1).begins_digit() {
        (token, None)
    } else {
        (token.take(at), Some(token.skip(at + 1)))
    }
}

pub fn split_nvr(token: &str) -> (r: (String, Option<String>))
    ensures
        version::name_and_version(r) == split_nvr_spec(token@),
{
    let t = chars(token);
    let (name, version) = nvr(&t);
    (text::string(name), text::maybe_string(version))
}

fn nvr(token: &[char]) -> (r: (&[char], Option<&[char]>))
    ensures
        (r.0@, r.1.deep()) == split_nvr_spec(token@),
{
    let release = match text::rfind(token, '-') {
        None => {
            return (token, None);
        },
        Some(at) => at,
    };
    let at = match text::rfind(text::head(token, release), '-') {
        None => {
            return (token, None);
        },
        Some(at) => at,
    };
    assert(at + 1 <= token.len());
    let version = text::tail(token, at + 1);
    if !text::begins_digit(version) {
        return (token, None);
    }
    (text::head(token, at), Some(version))
}

/// An installed package, in the form that rpm gives it or by its bare name.
pub open spec fn qa_row_spec(line: Seq<char>) -> Option<PackageView> {
    if is_noise_spec(line) {
        None
    } else {
        match line.words().nth(0) {
            None => None,
            Some(token) => {
                let (name, version) = split_nvr_spec(token);
                Some(PackageView::versioned(name, version, InstallState::Installed))
            },
        }
    }
}

fn qa_row(line: &[char]) -> (r: Option<EepmPackage>)
    ensures
        r.deep() == qa_row_spec(line@),
{
    if noise(line) {
        return None;
    }
    match text::nth(&text::words(line), 0) {
        None => None,
        Some(token) => {
            let (name, version) = nvr(token);
            Some(
                EepmPackage {
                    name: text::string(name),
                    version: text::maybe_string(version),
                    state: InstallState::Installed,
                    ..EepmPackage::default()
                },
            )
        },
    }
}

/// The installed packages that `epm qa` prints.
pub open spec fn parse_qa_spec(stdout: Seq<char>) -> Seq<PackageView> {
    rows::select(stdout.lines(), |line: Seq<char>| qa_row_spec(line))
}

pub fn parse_qa(stdout: &str) -> (r: Vec<EepmPackage>)
    ensures
        r@.deep() == parse_qa_spec(stdout@),
        crate::package::all_in(r@.deep(), InstallState::Installed),
{
    proof {
        rows::selected_have(
            stdout@.lines(),
            |line: Seq<char>| qa_row_spec(line),
            |p: PackageView| p.state == InstallState::Installed,
        );
    }
    rows::select_rows(stdout, qa_row, Ghost(|line: Seq<char>| qa_row_spec(line)))
}

/// A hit: `name - summary`.
pub open spec fn search_row_spec(line: Seq<char>) -> Option<PackageView> {
    if is_noise_spec(line) {
        None
    } else {
        match line.cut(" - "@) {
            None => None,
            Some((name, description)) => if name.trim().len() == 0 || name.trim().has_blank() {
                None
            } else {
                Some(
                    PackageView {
                        description: Some(description.trim()),
                        ..PackageView::named(name.trim(), InstallState::Available)
                    },
                )
            },
        }
    }
}

fn search_row(line: &[char]) -> (r: Option<EepmPackage>)
    ensures
        r.deep() == search_row_spec(line@),
{
    if noise(line) {
        return None;
    }
    match text::cut(line, " - ") {
        None => None,
        Some((name, description)) => {
            let name = text::trim(name);
            if name.len() == 0 || text::has_blank(name) {
                return None;
            }
            Some(
                EepmPackage {
                    name: text::string(name),
                    description: Some(text::string(text::trim(description))),
                    state: InstallState::Available,
                    ..EepmPackage::default()
                },
            )
        },
    }
}

/// The packages that `epm search` prints.
pub open spec fn parse_search_spec(stdout: Seq<char>) -> Seq<PackageView> {
    rows::select(stdout.lines(), |line: Seq<char>| search_row_spec(line))
}

pub fn parse_search(stdout: &str) -> (r: Vec<EepmPackage>)
    ensures
        r@.deep() == parse_search_spec(stdout@),
        crate::package::all_named(r@.deep()),
        crate::package::all_in(r@.deep(), InstallState::Available),
{
    proof {
        rows::selected_have(
            stdout@.lines(),
            |line: Seq<char>| search_row_spec(line),
            |p: PackageView| p.name.len() > 0 && p.state == InstallState::Available,
        );
    }
    rows::select_rows(stdout, search_row, Ghost(|line: Seq<char>| search_row_spec(line)))
}

/// The reading of `epm info`.
struct InfoScan {
    package: EepmPackage,
    version: Option<String>,
    release: Option<String>,
}

/// The model of the reading of `epm info`.
pub struct InfoScanView {
    pub package: PackageView,
    pub version: Option<Seq<char>>,
    pub release: Option<Seq<char>>,
}

impl InfoScanView {
    pub open spec fn start() -> InfoScanView {
        InfoScanView {
            package: PackageView::named(seq![], InstallState::Available),
            version: None,
            release: None,
        }
    }
}

/// A package after the field `key` with a value. The first name and the first
/// summary count.
pub open spec fn keyed_spec(package: PackageView, key: Seq<char>, value: Seq<char>) -> PackageView {
    if key == "Name"@ || key == "Package"@ {
        if package.name.len() == 0 {
            PackageView { name: value, ..package }
        } else {
            package
        }
    } else if key == "Summary"@ || key == "Description"@ {
        if package.description is None {
            PackageView { description: Some(value), ..package }
        } else {
            package
        }
    } else if key == "URL"@ || key == "Homepage"@ {
        PackageView { homepage: Some(value), ..package }
    } else if key == "License"@ {
        PackageView { license: Some(value), ..package }
    } else if key == "Architecture"@ {
        PackageView { architecture: Some(value), ..package }
    } else if key == "Group"@ || key == "Section"@ {
        PackageView { origin: Some(value), ..package }
    } else {
        package
    }
}

fn keyed(package: EepmPackage, key: &[char], value: &[char]) -> (r: EepmPackage)
    ensures
        r@ == keyed_spec(package@, key@, value@),
{
    let given = text::string(value);
    if text::is(key, "Name") || text::is(key, "Package") {
        if package::is_nameless(&package) {
            EepmPackage { name: given, ..package }
        } else {
            package
        }
    } else if text::is(key, "Summary") || text::is(key, "Description") {
        if package.description.is_none() {
            EepmPackage { description: Some(given), ..package }
        } else {
            package
        }
    } else if text::is(key, "URL") || text::is(key, "Homepage") {
        EepmPackage { homepage: Some(given), ..package }
    } else if text::is(key, "License") {
        EepmPackage { license: Some(given), ..package }
    } else if text::is(key, "Architecture") {
        EepmPackage { architecture: Some(given), ..package }
    } else if text::is(key, "Group") || text::is(key, "Section") {
        EepmPackage { origin: Some(given), ..package }
    } else {
        package
    }
}

/// The reading of `epm info` after one more line.
pub open spec fn info_next_spec(state: InfoScanView, line: Seq<char>) -> InfoScanView {
    if is_noise_spec(line) {
        state
    } else {
        match line.cut(":"@) {
            None => state,
            Some((key, value)) => if value.trim().len() == 0 {
                state
            } else if key.trim() == "Version"@ {
                InfoScanView { version: Some(value.trim()), ..state }
            } else if key.trim() == "Release"@ {
                InfoScanView { release: Some(value.trim()), ..state }
            } else {
                InfoScanView {
                    package: keyed_spec(state.package, key.trim(), value.trim()),
                    ..state
                }
            },
        }
    }
}

impl Scanner for InfoScan {
    type State = InfoScanView;

    closed spec fn state(&self) -> InfoScanView {
        InfoScanView {
            package: self.package@,
            version: self.version.deep(),
            release: self.release.deep(),
        }
    }

    open spec fn next(state: InfoScanView, line: Seq<char>) -> InfoScanView {
        info_next_spec(state, line)
    }

    fn feed(&mut self, line: &[char]) {
        if noise(line) {
            return;
        }
        if let Some((key, value)) = text::cut(line, ":") {
            let key = text::trim(key);
            let value = text::trim(value);
            if value.len() == 0 {
                return;
            }
            if text::is(key, "Version") {
                self.version = Some(text::string(value));
            } else if text::is(key, "Release") {
                self.release = Some(text::string(value));
            } else {
                let mut package = EepmPackage::default();
                std::mem::swap(&mut self.package, &mut package);
                self.package = keyed(package, key, value);
            }
        }
    }
}

/// A version, with its release if that is told apart.
pub open spec fn full_version_spec(
    version: Option<Seq<char>>,
    release: Option<Seq<char>>,
) -> Option<Seq<char>> {
    match (version, release) {
        (Some(version), Some(release)) => Some(version + "-"@ + release),
        (version, _) => version,
    }
}

/// The package that `epm info` describes.
pub open spec fn parse_info_spec(stdout: Seq<char>) -> Option<PackageView> {
    let end = rows::scan(
        InfoScanView::start(),
        stdout.lines(),
        |state: InfoScanView, line: Seq<char>| info_next_spec(state, line),
    );
    if end.package.name.len() == 0 {
        None
    } else {
        Some(
            PackageView {
                version: full_version_spec(end.version, end.release),
                ..end.package
            },
        )
    }
}

pub fn parse_info(stdout: &str) -> (r: Option<EepmPackage>)
    ensures
        r.deep() == parse_info_spec(stdout@),
{
    let start = InfoScan {
        package: EepmPackage { state: InstallState::Available, ..EepmPackage::default() },
        version: None,
        release: None,
    };
    let end = rows::scan_output(
        start,
        stdout,
        Ghost(|state: InfoScanView, line: Seq<char>| info_next_spec(state, line)),
    );
    if package::is_nameless(&end.package) {
        return None;
    }
    let version = match (end.version, end.release) {
        (Some(version), Some(release)) => Some(text::cat3(&version, "-", &release)),
        (version, _) => version,
    };
    Some(EepmPackage { version, ..end.package })
}

/// A package that can be upgraded: a bare name.
pub open spec fn upgradable_row_spec(line: Seq<char>) -> Option<PackageView> {
    if is_noise_spec(line) || line.trim().has_blank() {
        None
    } else {
        Some(PackageView::named(line.trim(), InstallState::Upgradable))
    }
}

fn upgradable_row(line: &[char]) -> (r: Option<EepmPackage>)
    ensures
        r.deep() == upgradable_row_spec(line@),
{
    let name = text::trim(line);
    if noise(line) || text::has_blank(name) {
        return None;
    }
    Some(
        EepmPackage {
            name: text::string(name),
            state: InstallState::Upgradable,
            ..EepmPackage::default()
        },
    )
}

/// The names that `epm --short list --upgradable` prints.
pub open spec fn parse_upgradable_spec(stdout: Seq<char>) -> Seq<PackageView> {
    rows::select(stdout.lines(), |line: Seq<char>| upgradable_row_spec(line))
}

pub fn parse_upgradable(stdout: &str) -> (r: Vec<EepmPackage>)
    ensures
        r@.deep() == parse_upgradable_spec(stdout@),
        crate::package::all_in(r@.deep(), InstallState::Upgradable),
{
    proof {
        rows::selected_have(
            stdout@.lines(),
            |line: Seq<char>| upgradable_row_spec(line),
            |p: PackageView| p.state == InstallState::Upgradable,
        );
    }
    rows::select_rows(stdout, upgradable_row, Ghost(|line: Seq<char>| upgradable_row_spec(line)))
}

/// A package, completed by the installed one of the same name.
pub open spec fn merge_spec(package: PackageView, installed: Option<PackageView>) -> PackageView {
    match installed {
        None => package,
        Some(local) => if local.version is Some && local.version != package.version {
            PackageView {
                version: local.version,
                latest_version: package.version,
                state: InstallState::Installed,
                ..package
            }
        } else {
            PackageView { state: InstallState::Installed, ..package }
        },
    }
}

pub fn merge(package: EepmPackage, installed: Option<EepmPackage>) -> (r: EepmPackage)
    ensures
        r@ == merge_spec(package@, installed.deep()),
{
    match installed {
        None => package,
        Some(local) => {
            if local.version.is_some() && !text::equal_maybe(&local.version, &package.version) {
                EepmPackage {
                    version: local.version,
                    latest_version: package.version,
                    state: InstallState::Installed,
                    ..package
                }
            } else {
                EepmPackage { state: InstallState::Installed, ..package }
            }
        },
    }
}

impl Manager {
    /// A verb, with the options before it.
    pub open spec fn mutation_spec(self, verb: Seq<char>, ctx: OpContext) -> CmdView {
        CmdView::new(self.program@).flag(ctx.assume_yes, "--auto"@).arg(verb)
    }

    fn mutation(&self, verb: &str, ctx: &OpContext) -> (r: Cmd)
        ensures
            r@ == self.mutation_spec(verb@, *ctx),
    {
        Cmd::new(&self.program).flag(ctx.assume_yes, "--auto").arg(verb)
    }

    /// An install, or on a dry run its simulation.
    pub open spec fn install_spec(self, packages: Seq<RequestView>, ctx: OpContext) -> CmdView {
        if ctx.dry_run {
            CmdView::new(self.program@).arg("simulate"@).names(packages)
        } else {
            self.mutation_spec("install"@, ctx).names(packages)
        }
    }

    fn install_command(&self, packages: &[PackageRequest], ctx: &OpContext) -> (r: Cmd)
        ensures
            r@ == self.install_spec(packages@.deep(), *ctx),
    {
        if ctx.dry_run {
            Cmd::new(&self.program).arg("simulate").names(packages)
        } else {
            self.mutation("install", ctx).names(packages)
        }
    }

    pub fn install(&self, packages: &[PackageRequest], ctx: &OpContext) -> (r: Plan)
        ensures
            command::plan(r) == match reject_pins_spec(packages@.deep()) {
                Err(error) => Err(error),
                Ok(_) => command::just(self.install_spec(packages@.deep(), *ctx)),
            },
            command::all_elevated(command::plan(r), false),
            ctx.dry_run ==> command::all_carry(command::plan(r), "simulate"@),
            request::first_pin(packages@.deep()) is Some ==> r is Err,
            command::plan(r) == match (
                request::pins_refused(
                    packages@.deep(),
                    "eepm: `"@,
                    "` pins a version, but epm only installs what the wrapped manager resolves"@,
                )
            ) {
                Err(error) => Err(error),
                Ok(_) => command::just(
                    (
                        if ctx.dry_run {
                            CmdView::new(self.program@).arg("simulate"@).names(packages@.deep())
                        } else {
                            CmdView::new(self.program@).flag(
                                ctx.assume_yes,
                                "--auto"@,
                            ).arg("install"@).names(packages@.deep())
                        }
                    ),
                ),
            },
    {
        if let Err(error) = reject_pins(packages) {
            return Err(error);
        }
        Ok(command::one(self.install_command(packages, ctx)))
    }

    pub fn remove(&self, packages: &[PackageRequest], ctx: &OpContext) -> (r: Plan)
        ensures
            command::plan(r) == command::just(
                CmdView::new(self.program@).flag(ctx.assume_yes, "--auto"@)
                    .flag(ctx.dry_run, "--dry-run"@).arg("remove"@).names(packages@.deep()),
            ),
            command::all_elevated(command::plan(r), false),
            ctx.dry_run ==> command::all_carry(command::plan(r), "--dry-run"@),
            ctx.assume_yes ==> command::all_carry(command::plan(r), "--auto"@),
    {
        Ok(
            command::one(
                Cmd::new(&self.program).flag(ctx.assume_yes, "--auto")
                    .flag(ctx.dry_run, "--dry-run").arg("remove").names(packages),
            ),
        )
    }

    /// Without names everything is upgraded; an install of what is there
    /// already upgrades it.
    pub fn upgrade(&self, packages: &[PackageRequest], ctx: &OpContext) -> (r: Plan)
        ensures
            command::plan(r) == match reject_pins_spec(packages@.deep()) {
                Err(error) => Err(error),
                Ok(_) => if packages@.len() > 0 {
                    command::just(self.install_spec(packages@.deep(), *ctx))
                } else if ctx.dry_run {
                    Err(ErrorView::Other("eepm: upgrade has no dry-run mode"@))
                } else {
                    command::just(self.mutation_spec("upgrade"@, *ctx))
                },
            },
            command::all_elevated(command::plan(r), false),
            ctx.dry_run ==> command::all_carry(command::plan(r), "simulate"@),
            request::first_pin(packages@.deep()) is Some ==> r is Err,
            command::plan(r) == match (
                request::pins_refused(
                    packages@.deep(),
                    "eepm: `"@,
                    "` pins a version, but epm only installs what the wrapped manager resolves"@,
                )
            ) {
                Err(error) => Err(error),
                Ok(_) => if packages@.len() > 0 {
                    command::just(
                        (
                            if ctx.dry_run {
                                CmdView::new(self.program@).arg("simulate"@).names(
                                    packages@.deep(),
                                )
                            } else {
                                CmdView::new(self.program@).flag(
                                    ctx.assume_yes,
                                    "--auto"@,
                                ).arg("install"@).names(packages@.deep())
                            }
                        ),
                    )
                } else if ctx.dry_run {
                    Err(ErrorView::Other("eepm: upgrade has no dry-run mode"@))
                } else {
                    command::just(
                        CmdView::new(self.program@).flag(
                            ctx.assume_yes,
                            "--auto"@,
                        ).arg("upgrade"@),
                    )
                },
            },
    {
        if let Err(error) = reject_pins(packages) {
            return Err(error);
        }
        if packages.len() > 0 {
            return Ok(command::one(self.install_command(packages, ctx)));
        }
        if ctx.dry_run {
            return Err(error::other("eepm: upgrade has no dry-run mode"));
        }
        Ok(command::one(self.mutation("upgrade", ctx)))
    }

    pub fn refresh(&self, ctx: &OpContext) -> (r: Plan)
        ensures
            command::plan(r) == if ctx.dry_run {
                Err(ErrorView::Other("eepm: update has no dry-run mode"@))
            } else {
                command::just(self.mutation_spec("update"@, *ctx))
            },
            command::all_elevated(command::plan(r), false),
            ctx.dry_run ==> r is Err,
            ctx.assume_yes ==> command::all_carry(command::plan(r), "--auto"@),
            command::plan(r) == if ctx.dry_run {
                Err(ErrorView::Other("eepm: update has no dry-run mode"@))
            } else {
                command::just(
                    CmdView::new(self.program@).flag(ctx.assume_yes, "--auto"@).arg("update"@),
                )
            },
    {
        if ctx.dry_run {
            return Err(error::other("eepm: update has no dry-run mode"));
        }
        Ok(command::one(self.mutation("update", ctx)))
    }

    pub fn list_installed(&self, replies: &[Reply]) -> (r: Step<Listing<EepmPackage>>)
        ensures
            r@ == session::listed(
                CmdView::query(self.program@).arg("qa"@),
                replies@.deep(),
                |out: Seq<char>| parse_qa_spec(out),
            ),
            r@.only_looks(),
            r@.in_c_locale(),
    {
        session::list(
            Cmd::query(&self.program).arg("qa"),
            replies,
            parse_qa,
            Ghost(|out: Seq<char>| parse_qa_spec(out)),
        )
    }

    pub fn search(&self, query: &str, replies: &[Reply]) -> (r: Step<Listing<EepmPackage>>)
        ensures
            r@ == session::listed(
                CmdView::query(self.program@).arg("search"@).arg(query@),
                replies@.deep(),
                |out: Seq<char>| parse_search_spec(out),
            ),
            r@.only_looks(),
            r@.in_c_locale(),
    {
        session::list(
            Cmd::query(&self.program).arg("search").arg(query),
            replies,
            parse_search,
            Ghost(|out: Seq<char>| parse_search_spec(out)),
        )
    }

    pub fn list_outdated(&self, replies: &[Reply]) -> (r: Step<Listing<EepmPackage>>)
        ensures
            r@ == session::listed(
                CmdView::query(self.program@).arg("--short"@).arg("list"@).arg("--upgradable"@),
                replies@.deep(),
                |out: Seq<char>| parse_upgradable_spec(out),
            ),
            r@.only_looks(),
            r@.in_c_locale(),
    {
        session::list(
            Cmd::query(&self.program).arg("--short").arg("list").arg("--upgradable"),
            replies,
            parse_upgradable,
            Ghost(|out: Seq<char>| parse_upgradable_spec(out)),
        )
    }

    /// What epm knows of a package, and what is installed of it.
    pub open spec fn info_spec(self, name: Seq<char>, replies: Seq<ReplyView>) -> StepView<
        PackageView,
    > {
        if replies.len() == 0 {
            session::ask(CmdView::query(self.program@).arg("info"@).arg(name))
        } else if !replies[0].success {
            StepView::Fail(ErrorView::NotFound(name))
        } else {
            match parse_info_spec(replies[0].stdout) {
                None => StepView::Fail(ErrorView::NotFound(name)),
                Some(package) => if replies.len() == 1 {
                    session::ask(CmdView::query(self.program@).arg("qa"@).arg(package.name))
                } else {
                    StepView::Done(
                        merge_spec(
                            package,
                            if replies[1].success {
                                session::called(parse_qa_spec(replies[1].stdout), package.name)
                            } else {
                                None
                            },
                        ),
                    )
                },
            }
        }
    }

    pub fn info(&self, name: &str, replies: &[Reply]) -> (r: Step<EepmPackage>)
        ensures
            r@ == self.info_spec(name@, replies@.deep()),
            r@.only_looks(),
            r@.in_c_locale(),
    {
        if replies.len() == 0 {
            return session::query(Cmd::query(&self.program).arg("info").arg(name));
        }
        assert(replies@.deep()[0] == replies@[0]@);
        if !replies[0].success {
            return Step::Fail(error::not_found(name));
        }
        let package = match parse_info(&replies[0].stdout) {
            None => {
                return Step::Fail(error::not_found(name));
            },
            Some(package) => package,
        };
        if replies.len() == 1 {
            return session::query(Cmd::query(&self.program).arg("qa").arg(&package.name));
        }
        assert(replies@.deep()[1] == replies@[1]@);
        let installed = if replies[1].success {
            session::take_called(parse_qa(&replies[1].stdout), &package.name)
        } else {
            None
        };
        Step::Done(merge(package, installed))
    }
}

/// Name and version of a token, with a dash between them, make up the token.
pub proof fn tokens_split_without_loss(token: Seq<char>)
    ensures
        match split_nvr_spec(token) {
            (name, Some(version)) => token == name.push('-') + version,
            (name, None) => name == token,
        },
{
    text::lemma_find_last(token, '-');
    let release = text::find_last(token, '-');
    if release >= 0 {
        text::lemma_find_last(token.take(release), '-');
        let at = text::find_last(token.take(release), '-');
        if at >= 0 {
            assert(token[at] == '-');
            assert(token =~= token.take(at).push('-') + token.skip(at + 1));
        }
    }
}

} // verus!
