//! Solus's eopkg.
//!
//! `--yes-all` answers questions and `--dry-run` simulates. The listings
//! carry no versions. `eopkg info` prints stanzas for the installed package
//! and for the one of the repository, so that it tells the install state by
//! itself. Versions are written `version-release`: Solus ships updates that
//! move only the release.

use vstd::prelude::*;

use crate::command::{self, Cmd, CmdView, Plan};
use crate::detect::{self, Detection};
use crate::error::{self, Error, ErrorView};
use crate::package::{self, Details, InstallState, Package, PackageView};
use crate::profile::{basic_capabilities, Capabilities, ManagerKind, Profile};
use crate::request::{self, OpContext, PackageRequest, RequestView};
use crate::rows::{self, Scanner};
use crate::session::{self, Listing, Reply, Step};
use crate::size;
use crate::text::{self, chars, Deep, Text};
use crate::version;

verus! {

broadcast use command::group_carries;

/// Finds the manager and sets it up.
#[derive(Clone, Copy, Debug)]
pub struct Factory;

/// The factory of this backend.
pub fn factory() -> (r: Factory)
    ensures
        r == Factory,
{
    Factory
}

impl Factory {
    pub fn id(&self) -> (r: &'static str)
        ensures
            r@ == "eopkg"@,
    {
        "eopkg"
    }

    /// The programs to look for, in the order of preference.
    pub fn programs(&self) -> (r: Vec<&'static str>)
        ensures
            r@.deep() == seq!["eopkg"@],
    {
        let mut out: Vec<&'static str> = Vec::new();
        out.push("eopkg");
        assert(out@.deep() =~= seq!["eopkg"@]);
        out
    }

    /// Whether the backend can be used, given where each program was found.
    pub fn detect(&self, found: &[Option<String>]) -> (r: Detection)
        ensures
            r@ == detect::detected(found@, "`eopkg` not found on PATH"@),
    {
        detect::detect(found, "`eopkg` not found on PATH")
    }

    /// The manager, given where each program was found.
    pub fn create(&self, found: &[Option<String>]) -> (r: Result<Manager, Error>)
        ensures
            match r {
                Ok(manager) => detect::required(found@, "eopkg"@) == Ok::<Seq<char>, ErrorView>(
                    manager.program@,
                ),
                Err(error) => detect::required(found@, "eopkg"@) == Err::<Seq<char>, ErrorView>(
                    error@,
                ),
            },
    {
        match detect::require(found, "eopkg") {
            Ok(program) => Ok(Manager { program }),
            Err(error) => Err(error),
        }
    }
}

/// The manager, driving `program`.
#[derive(Debug)]
pub struct Manager {
    pub program: String,
}

impl Manager {
    /// What the manager says of itself.
    pub fn profile(&self) -> (r: Profile)
        ensures
            r.id@ == "eopkg"@,
            r.display_name@ == "eopkg"@,
            r.kind == ManagerKind::System,
            r.database_id@ == "eopkg"@,
            r.capabilities == (Capabilities {
                search: true,
                refresh: true,
                upgrade: true,
                list_outdated: true,
                ..Capabilities::basic()
            }),
            r.elevates == true,
    {
        Profile {
            id: "eopkg",
            display_name: "eopkg",
            kind: ManagerKind::System,
            database_id: "eopkg",
            capabilities: Capabilities {
                search: true,
                refresh: true,
                upgrade: true,
                list_outdated: true,
                ..basic_capabilities()
            },
            elevates: true,
        }
    }
}

/// A package as eopkg describes it.
#[derive(Debug)]
pub struct EopkgPackage {
    pub name: String,
    pub version: Option<String>,
    pub latest_version: Option<String>,
    pub description: Option<String>,
    pub license: Option<String>,
    pub architecture: Option<String>,
    pub origin: Option<String>,
    pub installed_size: Option<u64>,
    pub download_size: Option<u64>,
    pub dependencies: Option<Vec<String>>,
    pub state: InstallState,
}

impl View for EopkgPackage {
    type V = PackageView;

    open spec fn view(&self) -> PackageView {
        PackageView {
            name: self.name@,
            version: self.version.deep(),
            latest_version: self.latest_version.deep(),
            description: self.description.deep(),
            license: self.license.deep(),
            architecture: self.architecture.deep(),
            origin: self.origin.deep(),
            installed_size: self.installed_size,
            download_size: self.download_size,
            dependencies: package::maybe_strings(self.dependencies),
            state: self.state,
            ..PackageView::blank()
        }
    }
}

impl Default for EopkgPackage {
    fn default() -> (r: EopkgPackage)
        ensures
            r@ == PackageView::blank(),
    {
        EopkgPackage {
            name: String::new(),
            version: None,
            latest_version: None,
            description: None,
            license: None,
            architecture: None,
            origin: None,
            installed_size: None,
            download_size: None,
            dependencies: None,
            state: InstallState::Unknown,
        }
    }
}

impl Package for EopkgPackage {
    open spec fn manager_id() -> Seq<char> {
        "eopkg"@
    }

    fn manager(&self) -> (r: &'static str) {
        "eopkg"
    }

    fn details(&self) -> (r: Details<'_>) {
        Details {
            version: self.version.as_ref(),
            latest_version: self.latest_version.as_ref(),
            description: self.description.as_ref(),
            license: self.license.as_ref(),
            architecture: self.architecture.as_ref(),
            origin: self.origin.as_ref(),
            installed_size: self.installed_size,
            download_size: self.download_size,
            dependencies: self.dependencies.as_ref(),
            ..Details::of(&self.name, self.state)
        }
    }
}

/// eopkg always installs the current version of the repository.
pub open spec fn reject_pins_spec(requests: Seq<RequestView>) -> Result<(), ErrorView> {
    request::pins_refused(
        requests,
        "eopkg: `"@,
        "` pins a version, but eopkg always installs the repository's current version"@,
    )
}

pub fn reject_pins(requests: &[PackageRequest]) -> (r: Result<(), Error>)
    ensures
        error::outcome(r) == reject_pins_spec(requests@.deep()),
{
    request::refuse_pins(
        requests,
        "eopkg: `",
        "` pins a version, but eopkg always installs the repository's current version",
    )
}

impl Manager {
    /// An elevated subcommand, simulated on a dry run.
    pub open spec fn mutation_spec(self, subcommand: Seq<char>, ctx: OpContext) -> CmdView {
        CmdView::new(self.program@).arg(subcommand).elevated().flag(
            ctx.assume_yes,
            "--yes-all"@,
        ).flag(ctx.dry_run, "--dry-run"@)
    }

    fn mutation(&self, subcommand: &str, ctx: &OpContext) -> (r: Cmd)
        ensures
            r@ == self.mutation_spec(subcommand@, *ctx),
    {
        Cmd::new(&self.program).arg(subcommand).elevated().flag(ctx.assume_yes, "--yes-all").flag(
            ctx.dry_run,
            "--dry-run",
        )
    }

    pub fn install(&self, packages: &[PackageRequest], ctx: &OpContext) -> (r: Plan)
        ensures
            command::plan(r) == match reject_pins_spec(packages@.deep()) {
                Err(error) => Err(error),
                Ok(_) => command::just(
                    self.mutation_spec("install"@, *ctx).names(packages@.deep()),
                ),
            },
            command::all_elevated(command::plan(r), true),
            ctx.dry_run ==> command::all_carry(command::plan(r), "--dry-run"@),
            request::first_pin(packages@.deep()) is Some ==> r is Err,
            ctx.assume_yes ==> command::all_carry(command::plan(r), "--yes-all"@),
            command::plan(r) == match (
                request::pins_refused(
                    packages@.deep(),
                    "eopkg: `"@,
                    "` pins a version, but eopkg always installs the repository's current version"@,
                )
            ) {
                Err(error) => Err(error),
                Ok(_) => command::just(
                    CmdView::new(self.program@).arg("install"@).elevated().flag(
                        ctx.assume_yes,
                        "--yes-all"@,
                    ).flag(ctx.dry_run, "--dry-run"@).names(packages@.deep()),
                ),
            },
    {
        match reject_pins(packages) {
            Err(error) => Err(error),
            Ok(_) => Ok(command::one(self.mutation("install", ctx).names(packages))),
        }
    }

    pub fn remove(&self, packages: &[PackageRequest], ctx: &OpContext) -> (r: Plan)
        ensures
            command::plan(r) == command::just(
                self.mutation_spec("remove"@, *ctx).names(packages@.deep()),
            ),
            command::all_elevated(command::plan(r), true),
            ctx.dry_run ==> command::all_carry(command::plan(r), "--dry-run"@),
            ctx.assume_yes ==> command::all_carry(command::plan(r), "--yes-all"@),
            command::plan(r) == command::just(
                CmdView::new(self.program@).arg("remove"@).elevated().flag(
                    ctx.assume_yes,
                    "--yes-all"@,
                ).flag(ctx.dry_run, "--dry-run"@).names(packages@.deep()),
            ),
    {
        Ok(command::one(self.mutation("remove", ctx).names(packages)))
    }

    /// Without names everything is upgraded.
    pub fn upgrade(&self, packages: &[PackageRequest], ctx: &OpContext) -> (r: Plan)
        ensures
            command::plan(r) == match reject_pins_spec(packages@.deep()) {
                Err(error) => Err(error),
                Ok(_) => command::just(
                    self.mutation_spec("upgrade"@, *ctx).names(packages@.deep()),
                ),
            },
            command::all_elevated(command::plan(r), true),
            ctx.dry_run ==> command::all_carry(command::plan(r), "--dry-run"@),
            request::first_pin(packages@.deep()) is Some ==> r is Err,
            ctx.assume_yes ==> command::all_carry(command::plan(r), "--yes-all"@),
            command::plan(r) == match (
                request::pins_refused(
                    packages@.deep(),
                    "eopkg: `"@,
                    "` pins a version, but eopkg always installs the repository's current version"@,
                )
            ) {
                Err(error) => Err(error),
                Ok(_) => command::just(
                    CmdView::new(self.program@).arg("upgrade"@).elevated().flag(
                        ctx.assume_yes,
                        "--yes-all"@,
                    ).flag(ctx.dry_run, "--dry-run"@).names(packages@.deep()),
                ),
            },
    {
        match reject_pins(packages) {
            Err(error) => Err(error),
            Ok(_) => Ok(command::one(self.mutation("upgrade", ctx).names(packages))),
        }
    }

    pub fn refresh(&self, ctx: &OpContext) -> (r: Plan)
        ensures
            command::plan(r) == if ctx.dry_run {
                Err(ErrorView::Other("eopkg: refresh has no dry-run mode"@))
            } else {
                command::just(CmdView::new(self.program@).arg("update-repo"@).elevated())
            },
            command::all_elevated(command::plan(r), true),
            ctx.dry_run ==> r is Err,
    {
        if ctx.dry_run {
            return Err(error::other("eopkg: refresh has no dry-run mode"));
        }
        Ok(command::one(Cmd::new(&self.program).arg("update-repo").elevated()))
    }

    pub fn list_installed(&self, replies: &[Reply]) -> (r: Step<Listing<EopkgPackage>>)
        ensures
            r@ == session::listed(
                CmdView::query(self.program@).arg("list-installed"@),
                replies@.deep(),
                |out: Seq<char>| parse_listing_spec(out, InstallState::Installed),
            ),
            r@.only_looks(),
            r@.in_c_locale(),
    {
        let read = |out: &str| -> (v: Vec<EopkgPackage>)
            ensures
                v@.deep() == parse_listing_spec(out@, InstallState::Installed),
            { parse_listing(out, InstallState::Installed) };
        session::list(
            Cmd::query(&self.program).arg("list-installed"),
            replies,
            read,
            Ghost(|out: Seq<char>| parse_listing_spec(out, InstallState::Installed)),
        )
    }

    pub fn list_outdated(&self, replies: &[Reply]) -> (r: Step<Listing<EopkgPackage>>)
        ensures
            r@ == session::listed(
                CmdView::query(self.program@).arg("list-upgrades"@),
                replies@.deep(),
                |out: Seq<char>| parse_listing_spec(out, InstallState::Upgradable),
            ),
            r@.only_looks(),
            r@.in_c_locale(),
    {
        let read = |out: &str| -> (v: Vec<EopkgPackage>)
            ensures
                v@.deep() == parse_listing_spec(out@, InstallState::Upgradable),
            { parse_listing(out, InstallState::Upgradable) };
        session::list(
            Cmd::query(&self.program).arg("list-upgrades"),
            replies,
            read,
            Ghost(|out: Seq<char>| parse_listing_spec(out, InstallState::Upgradable)),
        )
    }

    pub fn search(&self, query: &str, replies: &[Reply]) -> (r: Step<Listing<EopkgPackage>>)
        ensures
            r@ == session::listed(
                CmdView::query(self.program@).arg("search"@).arg(query@),
                replies@.deep(),
                |out: Seq<char>| parse_listing_spec(out, InstallState::Available),
            ),
            r@.only_looks(),
            r@.in_c_locale(),
    {
        let read = |out: &str| -> (v: Vec<EopkgPackage>)
            ensures
                v@.deep() == parse_listing_spec(out@, InstallState::Available),
            { parse_listing(out, InstallState::Available) };
        session::list(
            Cmd::query(&self.program).arg("search").arg(query),
            replies,
            read,
            Ghost(|out: Seq<char>| parse_listing_spec(out, InstallState::Available)),
        )
    }

    pub fn info(&self, name: &str, replies: &[Reply]) -> (r: Step<EopkgPackage>)
        ensures
            r@ == session::described(
                CmdView::query(self.program@).arg("info"@).arg(name@),
                replies@.deep(),
                name@,
                |out: Seq<char>| parse_info_spec(out),
            ),
            r@.only_looks(),
            r@.in_c_locale(),
    {
        session::describe(
            Cmd::query(&self.program).arg("info").arg(name),
            replies,
            name,
            parse_info,
            Ghost(|out: Seq<char>| parse_info_spec(out)),
        )
    }
}

/// A line of a listing, `name - summary`; the name may be padded. Headers and
/// notices have no such separator, or blanks before it.
pub open spec fn listing_row_spec(line: Seq<char>, state: InstallState) -> Option<PackageView> {
    match line.cut(" - "@) {
        None => None,
        Some((name, summary)) => {
            let name = name.trim();
            if name.len() == 0 || name.has_blank() {
                None
            } else {
                Some(
                    PackageView {
                        description: summary.trim().filled(),
                        ..PackageView::named(name, state)
                    },
                )
            }
        },
    }
}

fn listing_row(line: &[char], state: InstallState) -> (r: Option<EopkgPackage>)
    ensures
        r.deep() == listing_row_spec(line@, state),
{
    match text::cut(line, " - ") {
        None => None,
        Some((name, summary)) => {
            let name = text::trim(name);
            if name.len() == 0 || text::has_blank(name) {
                return None;
            }
            Some(
                EopkgPackage {
                    name: text::string(name),
                    description: text::maybe_string(text::filled(text::trim(summary))),
                    state,
                    ..EopkgPackage::default()
                },
            )
        },
    }
}

/// The packages of a listing, all in one state.
pub open spec fn parse_listing_spec(stdout: Seq<char>, state: InstallState) -> Seq<PackageView> {
    rows::select(stdout.lines(), |line: Seq<char>| listing_row_spec(line, state))
}

pub fn parse_listing(stdout: &str, state: InstallState) -> (r: Vec<EopkgPackage>)
    ensures
        r@.deep() == parse_listing_spec(stdout@, state),
        crate::package::all_named(r@.deep()),
        crate::package::all_in(r@.deep(), state),
{
    proof {
        rows::selected_have(
            stdout@.lines(),
            |line: Seq<char>| listing_row_spec(line, state),
            |p: PackageView| p.name.len() > 0 && p.state == state,
        );
    }
    let row = |line: &[char]| -> (o: Option<EopkgPackage>)
        ensures
            o.deep() == listing_row_spec(line@, state),
        { listing_row(line, state) };
    rows::select_rows(stdout, row, Ghost(|line: Seq<char>| listing_row_spec(line, state)))
}

/// What a unit is worth, as a power of two: eopkg divides by 1024 whatever it
/// writes.
pub open spec fn unit_spec(unit: Seq<char>) -> Option<u8> {
    if unit == "B"@ || unit == "bytes"@ {
        Some(0)
    } else if unit == "KB"@ || unit == "KiB"@ {
        Some(10)
    } else if unit == "MB"@ || unit == "MiB"@ {
        Some(20)
    } else if unit == "GB"@ || unit == "GiB"@ {
        Some(30)
    } else {
        None
    }
}

fn unit(name: &[char]) -> (r: Option<u8>)
    ensures
        r == unit_spec(name@),
        r is Some ==> r->0 <= 30,
{
    if text::is(name, "B") || text::is(name, "bytes") {
        Some(0)
    } else if text::is(name, "KB") || text::is(name, "KiB") {
        Some(10)
    } else if text::is(name, "MB") || text::is(name, "MiB") {
        Some(20)
    } else if text::is(name, "GB") || text::is(name, "GiB") {
        Some(30)
    } else {
        None
    }
}

/// A size like `4.45 MB`, in bytes.
pub open spec fn parse_size_spec(value: Seq<char>) -> Option<u64> {
    size::size_spec(value, |u: Seq<char>| unit_spec(u))
}

fn read_size(value: &[char]) -> (r: Option<u64>)
    ensures
        r == parse_size_spec(value@),
{
    size::size(value, unit, Ghost(|u: Seq<char>| unit_spec(u)))
}

pub fn parse_size(value: &str) -> (r: Option<u64>)
    ensures
        r == parse_size_spec(value@),
{
    let t = chars(value);
    read_size(&t)
}

/// A stanza of `eopkg info`: the installed package, or that of a repository.
struct Section {
    installed: bool,
    repo: Option<String>,
    package: EopkgPackage,
}

/// The model of a stanza.
pub struct SectionView {
    pub installed: bool,
    pub repo: Option<Seq<char>>,
    pub package: PackageView,
}

impl View for Section {
    type V = SectionView;

    closed spec fn view(&self) -> SectionView {
        SectionView {
            installed: self.installed,
            repo: self.repo.deep(),
            package: self.package@,
        }
    }
}

/// The header of a stanza.
pub open spec fn section_header_spec(line: Seq<char>) -> Option<SectionView> {
    let line = line.trim();
    if line == "Installed package:"@ {
        Some(SectionView { installed: true, repo: None, package: PackageView::blank() })
    } else {
        match line.without_prefix("Package found in "@) {
            Some(rest) => match rest.without_suffix(" repository:"@) {
                Some(repo) => Some(
                    SectionView {
                        installed: false,
                        repo: Some(repo),
                        package: PackageView::blank(),
                    },
                ),
                None => None,
            },
            None => None,
        }
    }
}

fn section_header(line: &[char]) -> (r: Option<Section>)
    ensures
        r.deep() == section_header_spec(line@),
{
    let line = text::trim(line);
    if text::is(line, "Installed package:") {
        return Some(Section { installed: true, repo: None, package: EopkgPackage::default() });
    }
    match text::without_prefix(line, "Package found in ") {
        Some(rest) => match text::without_suffix(rest, " repository:") {
            Some(repo) => Some(
                Section {
                    installed: false,
                    repo: Some(text::string(repo)),
                    package: EopkgPackage::default(),
                },
            ),
            None => None,
        },
        None => None,
    }
}

/// The value of the last `key: value` among the parts.
pub open spec fn attribute_spec(parts: Seq<Seq<char>>, key: Seq<char>) -> Option<Seq<char>>
    decreases parts.len(),
{
    if parts.len() == 0 {
        None
    } else {
        match parts.last().cut(":"@) {
            Some((k, v)) if k.trim() == key => Some(v.trim()),
            _ => attribute_spec(parts.drop_last(), key),
        }
    }
}

fn attribute<'a>(parts: &[&'a [char]], key: &str) -> (r: Option<&'a [char]>)
    ensures
        r.deep() == attribute_spec(parts@.deep(), key@),
{
    let mut n: usize = parts.len();
    let ghost all = parts@.deep();
    assert(all.take(all.len() as int) =~= all);
    while n > 0
        invariant
            n <= parts.len(),
            all == parts@.deep(),
            attribute_spec(all, key@) == attribute_spec(all.take(n as int), key@),
        decreases n,
    {
        assert(all.take(n as int).last() == parts@[n - 1]@);
        assert(all.take(n as int).drop_last() =~= all.take(n - 1));
        if let Some((k, v)) = text::cut(parts[n - 1], ":") {
            if text::is(text::trim(k), key) {
                return Some(text::trim(v));
            }
        }
        n -= 1;
    }
    None
}

/// `name, version: X, release: Y` as the name and `X-Y`.
pub open spec fn identity_spec(value: Seq<char>) -> (Seq<char>, Option<Seq<char>>) {
    let parts = value.split(","@);
    let rest = text::rest_of(parts, 1);
    (
        parts[0].trim(),
        match (attribute_spec(rest, "version"@), attribute_spec(rest, "release"@)) {
            (Some(version), Some(release)) => Some(version + "-"@ + release),
            (version, _) => version,
        },
    )
}

fn identity(value: &[char]) -> (r: (String, Option<String>))
    ensures
        version::name_and_version(r) == identity_spec(value@),
{
    let parts = text::split(value, ",");
    proof {
        text::lemma_split_some(value@, ","@);
    }
    let rest = text::rest(&parts, 1);
    let version = match (attribute(rest, "version"), attribute(rest, "release")) {
        (Some(version), Some(release)) => Some(
            text::cat3(&text::string(version), "-", &text::string(release)),
        ),
        (version, _) => text::maybe_string(version),
    };
    (text::string(text::trim(parts[0])), version)
}

/// The dependencies of a package: words, with commas behind them or not.
pub open spec fn dependencies_spec(value: Seq<char>) -> Option<Seq<Seq<char>>> {
    let names = rows::select(value.words(), |word: Seq<char>| Some(word.trim_back(","@)));
    if names.len() == 0 {
        None
    } else {
        Some(names)
    }
}

fn dependencies(value: &[char]) -> (r: Option<Vec<String>>)
    ensures
        package::maybe_strings(r) == dependencies_spec(value@),
{
    let words = text::words(value);
    let name = |word: &[char]| -> (o: Option<String>)
        ensures
            o.deep() == Some(word@.trim_back(","@)),
        { Some(text::string(text::trim_back(word, ","))) };
    let names = rows::select_lines(
        &words,
        name,
        Ghost(|word: Seq<char>| Some(word.trim_back(","@))),
    );
    if names.len() == 0 {
        None
    } else {
        Some(names)
    }
}

/// A package after a `Key : Value` line.
pub open spec fn field_spec(package: PackageView, line: Seq<char>) -> PackageView {
    match line.cut(":"@) {
        None => package,
        Some((key, value)) => {
            let key = key.trim();
            let value = value.trim();
            if value.len() == 0 {
                package
            } else if key == "Name"@ {
                let (name, version) = identity_spec(value);
                PackageView { name, version, ..package }
            } else if key == "Summary"@ || (key == "Description"@ && package.description is None) {
                PackageView { description: Some(value), ..package }
            } else if key == "Licenses"@ {
                PackageView { license: Some(value), ..package }
            } else if key == "Architecture"@ {
                PackageView { architecture: Some(value), ..package }
            } else if key == "Dependencies"@ {
                PackageView { dependencies: dependencies_spec(value), ..package }
            } else if key == "Installed Size"@ {
                PackageView { installed_size: parse_size_spec(value), ..package }
            } else if key == "Package Size"@ {
                PackageView { download_size: parse_size_spec(value), ..package }
            } else {
                package
            }
        },
    }
}

fn field(package: EopkgPackage, line: &[char]) -> (r: EopkgPackage)
    ensures
        r@ == field_spec(package@, line@),
{
    let mut package = package;
    if let Some((key, value)) = text::cut(line, ":") {
        let key = text::trim(key);
        let value = text::trim(value);
        if value.len() == 0 {
            return package;
        }
        if text::is(key, "Name") {
            let (name, version) = identity(value);
            package.name = name;
            package.version = version;
        } else if text::is(key, "Summary") || (text::is(key, "Description")
            && package.description.is_none()) {
            package.description = Some(text::string(value));
        } else if text::is(key, "Licenses") {
            package.license = Some(text::string(value));
        } else if text::is(key, "Architecture") {
            package.architecture = Some(text::string(value));
        } else if text::is(key, "Dependencies") {
            package.dependencies = dependencies(value);
        } else if text::is(key, "Installed Size") {
            package.installed_size = read_size(value);
        } else if text::is(key, "Package Size") {
            package.download_size = read_size(value);
        }
    }
    package
}

/// The reading of `eopkg info`.
struct InfoScan {
    sections: Vec<Section>,
}

/// The stanzas after one more line.
pub open spec fn info_next_spec(sections: Seq<SectionView>, line: Seq<char>) -> Seq<SectionView> {
    match section_header_spec(line) {
        Some(section) => sections.push(section),
        None => if sections.len() == 0 {
            sections
        } else {
            sections.drop_last().push(
                SectionView {
                    package: field_spec(sections.last().package, line),
                    ..sections.last()
                },
            )
        },
    }
}

impl Scanner for InfoScan {
    type State = Seq<SectionView>;

    closed spec fn state(&self) -> Seq<SectionView> {
        self.sections@.deep()
    }

    open spec fn next(state: Seq<SectionView>, line: Seq<char>) -> Seq<SectionView> {
        info_next_spec(state, line)
    }

    fn feed(&mut self, line: &[char]) {
        let ghost before = self.sections@;
        if let Some(section) = section_header(line) {
            self.sections.push(section);
            assert(self.sections@.deep() =~= before.deep().push(section@));
        } else if let Some(section) = self.sections.pop() {
            let package = field(section.package, line);
            let section = Section { package, ..section };
            self.sections.push(section);
            assert(self.sections@.deep() =~= before.deep().drop_last().push(section@));
        }
    }
}

/// The first stanza with a name that is of the given sort.
pub open spec fn section_spec(sections: Seq<SectionView>, installed: bool) -> Option<SectionView> {
    rows::first(
        sections,
        |s: SectionView| s.installed == installed && s.package.name.len() > 0,
    )
}

/// What the stanzas together say: the installed package, which can be
/// upgraded where the repository has another version, or that of the
/// repository.
pub open spec fn merge_sections_spec(sections: Seq<SectionView>) -> Option<PackageView> {
    match (section_spec(sections, true), section_spec(sections, false)) {
        (Some(local), Some(remote)) => Some(
            PackageView {
                origin: remote.repo,
                latest_version: if remote.package.version != local.package.version {
                    remote.package.version
                } else {
                    local.package.latest_version
                },
                state: if remote.package.version != local.package.version {
                    InstallState::Upgradable
                } else {
                    InstallState::Installed
                },
                download_size: if local.package.download_size is None {
                    remote.package.download_size
                } else {
                    local.package.download_size
                },
                ..local.package
            },
        ),
        (Some(local), None) => Some(
            PackageView { state: InstallState::Installed, ..local.package },
        ),
        (None, Some(remote)) => Some(
            PackageView {
                origin: remote.repo,
                state: InstallState::Available,
                ..remote.package
            },
        ),
        (None, None) => None,
    }
}

fn merge_sections(sections: Vec<Section>) -> (r: Option<EopkgPackage>)
    ensures
        r.deep() == merge_sections_spec(sections@.deep()),
{
    let ghost all = sections@.deep();
    let mut local: Option<Section> = None;
    let mut remote: Option<Section> = None;
    let mut i: usize = 0;
    let n: usize = sections.len();
    assert(all.take(0) =~= seq![]);
    for section in it: sections
        invariant
            all == it.seq().deep(),
            i == it.index(),
            all.len() == n,
            i <= n,
            local.deep() == section_spec(all.take(i as int), true),
            remote.deep() == section_spec(all.take(i as int), false),
    {
        assert(all.take(i + 1) =~= all.take(i as int).push(section@));
        proof {
            rows::lemma_first_push(
                all.take(i as int),
                section@,
                |s: SectionView| s.installed == true && s.package.name.len() > 0,
            );
            rows::lemma_first_push(
                all.take(i as int),
                section@,
                |s: SectionView| s.installed == false && s.package.name.len() > 0,
            );
        }
        if chars(&section.package.name).len() > 0 {
            if section.installed {
                if local.is_none() {
                    local = Some(section);
                }
            } else if remote.is_none() {
                remote = Some(section);
            }
        }
        i += 1;
    }
    assert(all.take(all.len() as int) =~= all);
    match (local, remote) {
        (Some(local), Some(remote)) => {
            let mut package = local.package;
            package.origin = remote.repo;
            if !text::equal_maybe(&remote.package.version, &package.version) {
                package.latest_version = remote.package.version;
                package.state = InstallState::Upgradable;
            } else {
                package.state = InstallState::Installed;
            }
            if package.download_size.is_none() {
                package.download_size = remote.package.download_size;
            }
            Some(package)
        },
        (Some(local), None) => Some(
            EopkgPackage { state: InstallState::Installed, ..local.package },
        ),
        (None, Some(remote)) => Some(
            EopkgPackage {
                origin: remote.repo,
                state: InstallState::Available,
                ..remote.package
            },
        ),
        (None, None) => None,
    }
}

/// The package that `eopkg info` describes.
pub open spec fn parse_info_spec(stdout: Seq<char>) -> Option<PackageView> {
    merge_sections_spec(
        rows::scan(
            seq![],
            stdout.lines(),
            |state: Seq<SectionView>, line: Seq<char>| info_next_spec(state, line),
        ),
    )
}

pub fn parse_info(stdout: &str) -> (r: Option<EopkgPackage>)
    ensures
        r.deep() == parse_info_spec(stdout@),
{
    let start = InfoScan { sections: Vec::new() };
    assert(start.sections@.deep() =~= seq![]);
    let end = rows::scan_output(
        start,
        stdout,
        Ghost(|state: Seq<SectionView>, line: Seq<char>| info_next_spec(state, line)),
    );
    merge_sections(end.sections)
}

} // verus!
