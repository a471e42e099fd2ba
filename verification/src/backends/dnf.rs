//! DNF, in both of its generations.
//!
//! `dnf5` is preferred where both are there. Neither `--assumeno` nor any
//! other switch simulates a change in both generations, so a dry run is
//! refused; `-y` answers questions. Reads run in the `C` locale, and the
//! installed packages are listed by `repoquery` with an explicit format.

use vstd::prelude::*;

use crate::command::{self, Cmd, CmdView, Plan};
use crate::detect::{self, Detection};
use crate::error::{self, Error, ErrorView};
use crate::package::{Details, InstallState, Package, PackageView};
use crate::profile::{basic_capabilities, Capabilities, ManagerKind, Profile};
use crate::request::{OpContext, PackageRequest};
use crate::rows::{self, Scanner};
use crate::session::{self, Listing, Reply, Step, StepView};
use crate::text::{self, chars, Deep, Text};

verus! {

broadcast use command::group_carries;

/// Finds the manager and sets it up.
#[derive(Clone, Copy, Debug)]
pub struct Factory;

/// The factory of this backend.
pub fn factory() -> (r: Factory)
    ensures
        r == Factory,
{
    Factory
}

impl Factory {
    pub fn id(&self) -> (r: &'static str)
        ensures
            r@ == "dnf"@,
    {
        "dnf"
    }

    /// The programs to look for, in the order of preference.
    pub fn programs(&self) -> (r: Vec<&'static str>)
        ensures
            r@.deep() == seq!["dnf5"@, "dnf"@],
    {
        let mut out: Vec<&'static str> = Vec::new();
        out.push("dnf5");
        out.push("dnf");
        assert(out@.deep() =~= seq!["dnf5"@, "dnf"@]);
        out
    }

    /// Whether the backend can be used, given where each program was found.
    pub fn detect(&self, found: &[Option<String>]) -> (r: Detection)
        ensures
            r@ == detect::detected(found@, "none of [\"dnf5\", \"dnf\"] found on PATH"@),
    {
        detect::detect(found, "none of [\"dnf5\", \"dnf\"] found on PATH")
    }

    /// The manager, given where each program was found.
    pub fn create(&self, found: &[Option<String>]) -> (r: Result<Manager, Error>)
        ensures
            match r {
                Ok(manager) => detect::required(found@, "dnf"@) == Ok::<Seq<char>, ErrorView>(
                    manager.program@,
                ),
                Err(error) => detect::required(found@, "dnf"@) == Err::<Seq<char>, ErrorView>(
                    error@,
                ),
            },
    {
        match detect::require(found, "dnf") {
            Ok(program) => Ok(Manager { program }),
            Err(error) => Err(error),
        }
    }
}

/// The manager, driving `program`.
#[derive(Debug)]
pub struct Manager {
    pub program: String,
}

impl Manager {
    /// What the manager says of itself.
    pub fn profile(&self) -> (r: Profile)
        ensures
            r.id@ == "dnf"@,
            r.display_name@ == "DNF"@,
            r.kind == ManagerKind::System,
            r.database_id@ == "rpmdb"@,
            r.capabilities == (Capabilities {
                search: true,
                refresh: true,
                upgrade: true,
                list_outdated: true,
                pin_version: true,
                ..Capabilities::basic()
            }),
            r.elevates == true,
    {
        Profile {
            id: "dnf",
            display_name: "DNF",
            kind: ManagerKind::System,
            database_id: "rpmdb",
            capabilities: Capabilities {
                search: true,
                refresh: true,
                upgrade: true,
                list_outdated: true,
                pin_version: true,
                ..basic_capabilities()
            },
            elevates: true,
        }
    }
}

/// A package as dnf describes it.
#[derive(Debug)]
pub struct DnfPackage {
    pub name: String,
    pub version: Option<String>,
    pub latest_version: Option<String>,
    pub description: Option<String>,
    pub homepage: Option<String>,
    pub license: Option<String>,
    pub architecture: Option<String>,
    pub origin: Option<String>,
    pub state: InstallState,
}

impl View for DnfPackage {
    type V = PackageView;

    open spec fn view(&self) -> PackageView {
        PackageView {
            name: self.name@,
            version: self.version.deep(),
            latest_version: self.latest_version.deep(),
            description: self.description.deep(),
            homepage: self.homepage.deep(),
            license: self.license.deep(),
            architecture: self.architecture.deep(),
            origin: self.origin.deep(),
            state: self.state,
            ..PackageView::blank()
        }
    }
}

impl Default for DnfPackage {
    fn default() -> (r: DnfPackage)
        ensures
            r@ == PackageView::blank(),
    {
        DnfPackage {
            name: String::new(),
            version: None,
            latest_version: None,
            description: None,
            homepage: None,
            license: None,
            architecture: None,
            origin: None,
            state: InstallState::Unknown,
        }
    }
}

impl Package for DnfPackage {
    open spec fn manager_id() -> Seq<char> {
        "dnf"@
    }

    fn manager(&self) -> (r: &'static str) {
        "dnf"
    }

    fn details(&self) -> (r: Details<'_>) {
        Details {
            version: self.version.as_ref(),
            latest_version: self.latest_version.as_ref(),
            description: self.description.as_ref(),
            homepage: self.homepage.as_ref(),
            license: self.license.as_ref(),
            architecture: self.architecture.as_ref(),
            origin: self.origin.as_ref(),
            ..Details::of(&self.name, self.state)
        }
    }
}

/// `name-version` when the request pins one, the bare name otherwise.
pub fn spec(request: &PackageRequest) -> (r: String)
    ensures
        r@ == request@.pinned("-"@),
{
    request.pinned("-")
}

impl Manager {
    /// An elevated subcommand; there is no dry run.
    pub open spec fn mutation_spec(self, subcommand: Seq<char>, ctx: OpContext) -> Result<
        CmdView,
        ErrorView,
    > {
        if ctx.dry_run {
            Err(
                ErrorView::Other(
                    "dnf: "@ + subcommand + " has no dry-run mode shared by dnf4 and dnf5"@,
                ),
            )
        } else {
            Ok(CmdView::new(self.program@).arg(subcommand).elevated().flag(ctx.assume_yes, "-y"@))
        }
    }

    fn mutation(&self, subcommand: &str, ctx: &OpContext) -> (r: Result<Cmd, Error>)
        ensures
            error::outcome_of(r) == self.mutation_spec(subcommand@, *ctx),
    {
        if ctx.dry_run {
            return Err(
                Error::Other(
                    text::cat3(
                        "dnf: ",
                        subcommand,
                        " has no dry-run mode shared by dnf4 and dnf5",
                    ),
                ),
            );
        }
        Ok(Cmd::new(&self.program).arg(subcommand).elevated().flag(ctx.assume_yes, "-y"))
    }

    pub fn install(&self, packages: &[PackageRequest], ctx: &OpContext) -> (r: Plan)
        ensures
            command::plan(r) == match self.mutation_spec("install"@, *ctx) {
                Ok(cmd) => command::just(cmd.pinned(packages@.deep(), "-"@)),
                Err(error) => Err(error),
            },
            command::plan(r) == if ctx.dry_run {
                Err(
                    ErrorView::Other(
                        "dnf: "@ + "install"@ + " has no dry-run mode shared by dnf4 and dnf5"@,
                    ),
                )
            } else {
                command::just(
                    CmdView::new(self.program@).arg("install"@).elevated().flag(
                        ctx.assume_yes,
                        "-y"@,
                    ).pinned(packages@.deep(), "-"@),
                )
            },
            command::all_elevated(command::plan(r), true),
            ctx.dry_run ==> r is Err,
            ctx.assume_yes ==> command::all_carry(command::plan(r), "-y"@),
    {
        match self.mutation("install", ctx) {
            Ok(cmd) => Ok(command::one(cmd.pinned(packages, "-"))),
            Err(error) => Err(error),
        }
    }

    pub fn remove(&self, packages: &[PackageRequest], ctx: &OpContext) -> (r: Plan)
        ensures
            command::plan(r) == match self.mutation_spec("remove"@, *ctx) {
                Ok(cmd) => command::just(cmd.names(packages@.deep())),
                Err(error) => Err(error),
            },
            command::plan(r) == if ctx.dry_run {
                Err(
                    ErrorView::Other(
                        "dnf: "@ + "remove"@ + " has no dry-run mode shared by dnf4 and dnf5"@,
                    ),
                )
            } else {
                command::just(
                    CmdView::new(self.program@).arg("remove"@).elevated().flag(
                        ctx.assume_yes,
                        "-y"@,
                    ).names(packages@.deep()),
                )
            },
            command::all_elevated(command::plan(r), true),
            ctx.dry_run ==> r is Err,
            ctx.assume_yes ==> command::all_carry(command::plan(r), "-y"@),
    {
        match self.mutation("remove", ctx) {
            Ok(cmd) => Ok(command::one(cmd.names(packages))),
            Err(error) => Err(error),
        }
    }

    /// Without names everything is upgraded.
    pub fn upgrade(&self, packages: &[PackageRequest], ctx: &OpContext) -> (r: Plan)
        ensures
            command::plan(r) == match self.mutation_spec("upgrade"@, *ctx) {
                Ok(cmd) => command::just(cmd.pinned(packages@.deep(), "-"@)),
                Err(error) => Err(error),
            },
            command::plan(r) == if ctx.dry_run {
                Err(
                    ErrorView::Other(
                        "dnf: "@ + "upgrade"@ + " has no dry-run mode shared by dnf4 and dnf5"@,
                    ),
                )
            } else {
                command::just(
                    CmdView::new(self.program@).arg("upgrade"@).elevated().flag(
                        ctx.assume_yes,
                        "-y"@,
                    ).pinned(packages@.deep(), "-"@),
                )
            },
            command::all_elevated(command::plan(r), true),
            ctx.dry_run ==> r is Err,
            ctx.assume_yes ==> command::all_carry(command::plan(r), "-y"@),
    {
        match self.mutation("upgrade", ctx) {
            Ok(cmd) => Ok(command::one(cmd.pinned(packages, "-"))),
            Err(error) => Err(error),
        }
    }

    pub fn refresh(&self, ctx: &OpContext) -> (r: Plan)
        ensures
            command::plan(r) == if ctx.dry_run {
                Err(ErrorView::Other("dnf: refresh has no dry-run mode"@))
            } else {
                command::just(
                    CmdView::new(self.program@).arg("makecache"@).arg("--refresh"@).elevated(),
                )
            },
            command::all_elevated(command::plan(r), true),
            ctx.dry_run ==> r is Err,
    {
        if ctx.dry_run {
            return Err(error::other("dnf: refresh has no dry-run mode"));
        }
        Ok(command::one(Cmd::new(&self.program).arg("makecache").arg("--refresh").elevated()))
    }

    /// One `name<TAB>version-release<TAB>arch<TAB>summary` record per line;
    /// the newline is explicit because dnf5 adds none.
    pub fn list_installed(&self, replies: &[Reply]) -> (r: Step<Listing<DnfPackage>>)
        ensures
            r@ == session::listed(
                CmdView::query(self.program@).arg("repoquery"@).arg("--installed"@).arg(
                    "--queryformat"@,
                ).arg("%{name}\t%{version}-%{release}\t%{arch}\t%{summary}\n"@),
                replies@.deep(),
                |out: Seq<char>| parse_installed_spec(out),
            ),
            r@.only_looks(),
            r@.in_c_locale(),
    {
        session::list(
            Cmd::query(&self.program).arg("repoquery").arg("--installed").arg(
                "--queryformat",
            ).arg("%{name}\t%{version}-%{release}\t%{arch}\t%{summary}\n"),
            replies,
            parse_installed,
            Ghost(|out: Seq<char>| parse_installed_spec(out)),
        )
    }

    pub fn search(&self, query: &str, replies: &[Reply]) -> (r: Step<Listing<DnfPackage>>)
        ensures
            r@ == session::searched(
                CmdView::query(self.program@).arg("search"@).arg(query@),
                replies@.deep(),
                |out: Seq<char>| parse_search_spec(out),
            ),
            r@.only_looks(),
            r@.in_c_locale(),
    {
        session::search(
            Cmd::query(&self.program).arg("search").arg(query),
            replies,
            parse_search,
            Ghost(|out: Seq<char>| parse_search_spec(out)),
        )
    }

    pub fn info(&self, name: &str, replies: &[Reply]) -> (r: Step<DnfPackage>)
        ensures
            r@ == session::described(
                CmdView::query(self.program@).arg("info"@).arg(name@),
                replies@.deep(),
                name@,
                |out: Seq<char>| choose_stanza_spec(parse_info_spec(out)),
            ),
            r@.only_looks(),
            r@.in_c_locale(),
    {
        let read = |out: &str| -> (o: Option<DnfPackage>)
            ensures
                o.deep() == choose_stanza_spec(parse_info_spec(out@)),
            { choose_stanza(parse_info(out)) };
        session::describe(
            Cmd::query(&self.program).arg("info").arg(name),
            replies,
            name,
            read,
            Ghost(|out: Seq<char>| choose_stanza_spec(parse_info_spec(out))),
        )
    }

    /// `check-update` exits with 100 when there are updates.
    pub fn list_outdated(&self, replies: &[Reply]) -> (r: Step<Listing<DnfPackage>>)
        ensures
            r@ == (if replies@.len() == 0 {
                session::ask(CmdView::query(self.program@).arg("check-update"@))
            } else if replies@[0].code == Some(100i32) {
                StepView::Done(parse_updates_spec(replies@[0].stdout@))
            } else if !replies@[0].success {
                StepView::Fail(replies@[0]@.failure())
            } else {
                StepView::Done(seq![])
            }),
            r@.only_looks(),
            r@.in_c_locale(),
    {
        if replies.len() == 0 {
            return session::query(Cmd::query(&self.program).arg("check-update"));
        }
        let updates = match replies[0].code {
            Some(code) => code == 100,
            None => false,
        };
        if updates {
            return Step::Done(Listing { packages: parse_updates(&replies[0].stdout) });
        }
        if !replies[0].success {
            return Step::Fail(replies[0].failure());
        }
        Step::Done(session::nothing())
    }
}

/// A record of the installed packages, as `list_installed` asks for it.
pub open spec fn installed_row_spec(line: Seq<char>) -> Option<PackageView> {
    let fields = line.split("\t"@);
    if fields.len() < 4 || fields[0].len() == 0 {
        None
    } else {
        Some(
            PackageView {
                architecture: Some(fields[2]),
                description: fields[3].filled(),
                ..PackageView::versioned(fields[0], Some(fields[1]), InstallState::Installed)
            },
        )
    }
}

fn installed_row(line: &[char]) -> (r: Option<DnfPackage>)
    ensures
        r.deep() == installed_row_spec(line@),
{
    let fields = text::split(line, "\t");
    if fields.len() < 4 || fields[0].len() == 0 {
        return None;
    }
    Some(
        DnfPackage {
            name: text::string(fields[0]),
            version: Some(text::string(fields[1])),
            architecture: Some(text::string(fields[2])),
            description: text::maybe_string(text::filled(fields[3])),
            state: InstallState::Installed,
            ..DnfPackage::default()
        },
    )
}

/// The installed packages.
pub open spec fn parse_installed_spec(stdout: Seq<char>) -> Seq<PackageView> {
    rows::select(stdout.lines(), |line: Seq<char>| installed_row_spec(line))
}

pub fn parse_installed(stdout: &str) -> (r: Vec<DnfPackage>)
    ensures
        r@.deep() == parse_installed_spec(stdout@),
        crate::package::all_named(r@.deep()),
        crate::package::all_in(r@.deep(), InstallState::Installed),
{
    proof {
        rows::selected_have(
            stdout@.lines(),
            |line: Seq<char>| installed_row_spec(line),
            |p: PackageView| p.name.len() > 0 && p.state == InstallState::Installed,
        );
    }
    rows::select_rows(stdout, installed_row, Ghost(|line: Seq<char>| installed_row_spec(line)))
}

/// A result of `dnf search`, `name.arch : summary`; banners have a blank
/// before their first colon.
pub open spec fn search_row_spec(line: Seq<char>) -> Option<PackageView> {
    match line.cut(":"@) {
        None => None,
        Some((left, summary)) => {
            let left = left.trim();
            if left.len() == 0 || left.has_blank() {
                None
            } else {
                match left.cut_last('.') {
                    None => None,
                    Some((name, arch)) => Some(
                        PackageView {
                            architecture: Some(arch),
                            description: summary.trim().filled(),
                            ..PackageView::named(name, InstallState::Available)
                        },
                    ),
                }
            }
        },
    }
}

fn search_row(line: &[char]) -> (r: Option<DnfPackage>)
    ensures
        r.deep() == search_row_spec(line@),
{
    match text::cut(line, ":") {
        None => None,
        Some((left, summary)) => {
            let left = text::trim(left);
            if left.len() == 0 || text::has_blank(left) {
                return None;
            }
            match text::cut_last(left, '.') {
                None => None,
                Some((name, arch)) => Some(
                    DnfPackage {
                        name: text::string(name),
                        architecture: Some(text::string(arch)),
                        description: text::maybe_string(text::filled(text::trim(summary))),
                        state: InstallState::Available,
                        ..DnfPackage::default()
                    },
                ),
            }
        },
    }
}

/// The packages that `dnf search` prints.
pub open spec fn parse_search_spec(stdout: Seq<char>) -> Seq<PackageView> {
    rows::select(stdout.lines(), |line: Seq<char>| search_row_spec(line))
}

pub fn parse_search(stdout: &str) -> (r: Vec<DnfPackage>)
    ensures
        r@.deep() == parse_search_spec(stdout@),
        crate::package::all_in(r@.deep(), InstallState::Available),
{
    proof {
        rows::selected_have(
            stdout@.lines(),
            |line: Seq<char>| search_row_spec(line),
            |p: PackageView| p.state == InstallState::Available,
        );
    }
    rows::select_rows(stdout, search_row, Ghost(|line: Seq<char>| search_row_spec(line)))
}

/// The reading of `dnf check-update`: the packages so far, a name whose row
/// goes on in the next line, and whether the report has ended.
struct UpdateScan {
    packages: Vec<DnfPackage>,
    pending: Option<String>,
    done: bool,
}

/// The model of the reading of `dnf check-update`.
pub struct UpdateScanView {
    pub packages: Seq<PackageView>,
    pub pending: Option<Seq<char>>,
    pub done: bool,
}

impl UpdateScanView {
    pub open spec fn start() -> UpdateScanView {
        UpdateScanView { packages: seq![], pending: None, done: false }
    }
}

/// The package of a complete `name.arch  version  repo` row.
pub open spec fn update_row_spec(fields: Seq<Seq<char>>) -> Option<PackageView> {
    if fields.len() != 3 {
        None
    } else {
        match fields[0].cut_last('.') {
            None => None,
            Some((name, arch)) => Some(
                PackageView {
                    architecture: Some(arch),
                    latest_version: Some(fields[1]),
                    origin: Some(fields[2]),
                    ..PackageView::named(name, InstallState::Upgradable)
                },
            ),
        }
    }
}

fn update_row(fields: &[&[char]]) -> (r: Option<DnfPackage>)
    ensures
        r.deep() == update_row_spec(fields@.deep()),
{
    if fields.len() != 3 {
        return None;
    }
    match text::cut_last(fields[0], '.') {
        None => None,
        Some((name, arch)) => Some(
            DnfPackage {
                name: text::string(name),
                architecture: Some(text::string(arch)),
                latest_version: Some(text::string(fields[1])),
                origin: Some(text::string(fields[2])),
                state: InstallState::Upgradable,
                ..DnfPackage::default()
            },
        ),
    }
}

/// The reading of `dnf check-update` after one more line. A row whose name
/// stands alone goes on in the next line; everything from `Obsoleting` on is
/// another report.
pub open spec fn update_next_spec(state: UpdateScanView, line: Seq<char>) -> UpdateScanView {
    if state.done || line.trim_start().begins("Obsoleting"@) {
        UpdateScanView { done: true, ..state }
    } else {
        let fields = (match state.pending {
            Some(name) => name + " "@ + line,
            None => line,
        }).words();
        UpdateScanView {
            packages: match update_row_spec(fields) {
                Some(package) => state.packages.push(package),
                None => state.packages,
            },
            pending: if fields.len() == 1 && fields[0].has("."@) {
                Some(fields[0])
            } else {
                None
            },
            done: false,
        }
    }
}

impl Scanner for UpdateScan {
    type State = UpdateScanView;

    closed spec fn state(&self) -> UpdateScanView {
        UpdateScanView {
            packages: self.packages@.deep(),
            pending: self.pending.deep(),
            done: self.done,
        }
    }

    open spec fn next(state: UpdateScanView, line: Seq<char>) -> UpdateScanView {
        update_next_spec(state, line)
    }

    fn feed(&mut self, line: &[char]) {
        if self.done || text::begins(text::trim_start(line), "Obsoleting") {
            self.done = true;
            return;
        }
        let whole = match self.pending.take() {
            Some(name) => chars(&text::cat3(&name, " ", &text::string(line))),
            None => chars(&text::string(line)),
        };
        let fields = text::words(&whole);
        if let Some(package) = update_row(&fields) {
            let ghost before = self.packages@;
            self.packages.push(package);
            assert(self.packages@.deep() =~= before.deep().push(package@));
        }
        if fields.len() == 1 && text::has(fields[0], ".") {
            self.pending = Some(text::string(fields[0]));
        }
    }
}

/// The packages that `dnf check-update` announces.
pub open spec fn parse_updates_spec(stdout: Seq<char>) -> Seq<PackageView> {
    rows::scan(
        UpdateScanView::start(),
        stdout.lines(),
        |state: UpdateScanView, line: Seq<char>| update_next_spec(state, line),
    ).packages
}

pub fn parse_updates(stdout: &str) -> (r: Vec<DnfPackage>)
    ensures
        r@.deep() == parse_updates_spec(stdout@),
{
    let start = UpdateScan { packages: Vec::new(), pending: None, done: false };
    assert(start.packages@.deep() =~= seq![]);
    rows::scan_output(
        start,
        stdout,
        Ghost(|state: UpdateScanView, line: Seq<char>| update_next_spec(state, line)),
    ).packages
}

/// A stanza of `dnf info`, with the two halves of its version.
struct Stanza {
    package: DnfPackage,
    version: Option<String>,
    release: Option<String>,
}

/// The model of a stanza.
pub struct StanzaView {
    pub package: PackageView,
    pub version: Option<Seq<char>>,
    pub release: Option<Seq<char>>,
}

impl View for Stanza {
    type V = StanzaView;

    closed spec fn view(&self) -> StanzaView {
        StanzaView {
            package: self.package@,
            version: self.version.deep(),
            release: self.release.deep(),
        }
    }
}

impl StanzaView {
    /// The package of a stanza, at `version-release`.
    pub open spec fn close(self) -> PackageView {
        PackageView {
            version: match (self.version, self.release) {
                (Some(version), Some(release)) => Some(version + "-"@ + release),
                (version, _) => version,
            },
            ..self.package
        }
    }
}

/// The reading of `dnf info`.
struct InfoScan {
    packages: Vec<DnfPackage>,
    state: InstallState,
    current: Option<Stanza>,
    last_key: String,
}

/// The model of the reading of `dnf info`.
pub struct InfoScanView {
    pub packages: Seq<PackageView>,
    pub state: InstallState,
    pub current: Option<StanzaView>,
    pub last_key: Seq<char>,
}

impl InfoScanView {
    pub open spec fn start() -> InfoScanView {
        InfoScanView {
            packages: seq![],
            state: InstallState::Unknown,
            current: None,
            last_key: seq![],
        }
    }

    /// The packages, with the one that is being read if it has a name.
    pub open spec fn finish(self) -> Seq<PackageView> {
        match self.current {
            Some(stanza) if stanza.package.name.len() > 0 => self.packages.push(stanza.close()),
            _ => self.packages,
        }
    }
}

/// A stanza after the field `key` with a value.
pub open spec fn field_spec(stanza: StanzaView, key: Seq<char>, value: Seq<char>) -> StanzaView {
    let package = stanza.package;
    if key == "Version"@ {
        StanzaView { version: Some(value), ..stanza }
    } else if key == "Release"@ {
        StanzaView { release: Some(value), ..stanza }
    } else if key == "Architecture"@ || key == "Arch"@ {
        StanzaView { package: PackageView { architecture: Some(value), ..package }, ..stanza }
    } else if key == "Summary"@ {
        StanzaView { package: PackageView { description: Some(value), ..package }, ..stanza }
    } else if key == "URL"@ {
        StanzaView { package: PackageView { homepage: Some(value), ..package }, ..stanza }
    } else if key == "License"@ {
        StanzaView { package: PackageView { license: Some(value), ..package }, ..stanza }
    } else if (key == "Repository"@ && value != "@System"@) || key == "From repo"@ || key
        == "From repository"@ {
        StanzaView { package: PackageView { origin: Some(value), ..package }, ..stanza }
    } else {
        stanza
    }
}

fn field(stanza: Stanza, key: &[char], value: &[char]) -> (r: Stanza)
    ensures
        r@ == field_spec(stanza@, key@, value@),
{
    let mut stanza = stanza;
    let given = Some(text::string(value));
    if text::is(key, "Version") {
        stanza.version = given;
    } else if text::is(key, "Release") {
        stanza.release = given;
    } else if text::is(key, "Architecture") || text::is(key, "Arch") {
        stanza.package.architecture = given;
    } else if text::is(key, "Summary") {
        stanza.package.description = given;
    } else if text::is(key, "URL") {
        stanza.package.homepage = given;
    } else if text::is(key, "License") {
        stanza.package.license = given;
    } else if (text::is(key, "Repository") && !text::is(value, "@System")) || text::is(
        key,
        "From repo",
    ) || text::is(key, "From repository") {
        stanza.package.origin = given;
    }
    stanza
}

/// A stanza after a line that goes on with the summary.
pub open spec fn continued_spec(stanza: StanzaView, value: Seq<char>) -> StanzaView {
    match stanza.package.description {
        Some(description) => StanzaView {
            package: PackageView {
                description: Some(description + " "@ + value),
                ..stanza.package
            },
            ..stanza
        },
        None => stanza,
    }
}

fn continued(stanza: Stanza, value: &[char]) -> (r: Stanza)
    ensures
        r@ == continued_spec(stanza@, value@),
{
    let mut stanza = stanza;
    if let Some(description) = stanza.package.description {
        stanza.package.description = Some(
            text::cat3(&description, " ", &text::string(value)),
        );
    }
    stanza
}

/// The reading of `dnf info` after one more line. A line without a key goes
/// on with the field before it, of which only the summary matters.
pub open spec fn info_next_spec(state: InfoScanView, line: Seq<char>) -> InfoScanView {
    let lower = line.trim().lower();
    if lower.begins("installed package"@) {
        InfoScanView { state: InstallState::Installed, ..state }
    } else if lower.begins("available package"@) {
        InfoScanView { state: InstallState::Available, ..state }
    } else {
        match line.cut(":"@) {
            None => state,
            Some((key, value)) => {
                let key = key.trim();
                let value = value.trim();
                if key.len() == 0 {
                    match state.current {
                        Some(stanza) if state.last_key == "Summary"@ && value.len() > 0 =>
                        InfoScanView { current: Some(continued_spec(stanza, value)), ..state },
                        _ => state,
                    }
                } else if key == "Name"@ {
                    InfoScanView {
                        packages: state.finish(),
                        current: Some(
                            StanzaView {
                                package: PackageView::named(value, state.state),
                                version: None,
                                release: None,
                            },
                        ),
                        last_key: key,
                        ..state
                    }
                } else {
                    match state.current {
                        Some(stanza) if value.len() > 0 => InfoScanView {
                            current: Some(field_spec(stanza, key, value)),
                            last_key: key,
                            ..state
                        },
                        _ => InfoScanView { last_key: key, ..state },
                    }
                }
            },
        }
    }
}

fn finish_stanza(packages: &mut Vec<DnfPackage>, current: Option<Stanza>)
    ensures
        forall|state: InstallState, last_key: Seq<char>|
            final(packages)@.deep() == #[trigger] (InfoScanView {
                packages: old(packages)@.deep(),
                state,
                current: current.deep(),
                last_key,
            }).finish(),
{
    if let Some(stanza) = current {
        let version = match (stanza.version, stanza.release) {
            (Some(version), Some(release)) => Some(text::cat3(&version, "-", &release)),
            (version, None) => version,
            (None, _) => None,
        };
        if chars(&stanza.package.name).len() > 0 {
            let ghost before = packages@;
            let package = DnfPackage { version, ..stanza.package };
            packages.push(package);
            assert(packages@.deep() =~= before.deep().push(package@));
        }
    }
}

impl Scanner for InfoScan {
    type State = InfoScanView;

    closed spec fn state(&self) -> InfoScanView {
        InfoScanView {
            packages: self.packages@.deep(),
            state: self.state,
            current: self.current.deep(),
            last_key: self.last_key@,
        }
    }

    open spec fn next(state: InfoScanView, line: Seq<char>) -> InfoScanView {
        info_next_spec(state, line)
    }

    fn feed(&mut self, line: &[char]) {
        let lower = text::lower(text::trim(line));
        if text::begins(&lower, "installed package") {
            self.state = InstallState::Installed;
            return;
        }
        if text::begins(&lower, "available package") {
            self.state = InstallState::Available;
            return;
        }
        let (key, value) = match text::cut(line, ":") {
            None => {
                return;
            },
            Some((key, value)) => (text::trim(key), text::trim(value)),
        };
        if key.len() == 0 {
            if text::equal(&self.last_key, "Summary") && value.len() > 0 {
                if let Some(stanza) = self.current.take() {
                    self.current = Some(continued(stanza, value));
                }
            }
            return;
        }
        self.last_key = text::string(key);
        if text::is(key, "Name") {
            let current = self.current.take();
            finish_stanza(&mut self.packages, current);
            self.current = Some(
                Stanza {
                    package: DnfPackage {
                        name: text::string(value),
                        state: self.state,
                        ..DnfPackage::default()
                    },
                    version: None,
                    release: None,
                },
            );
            return;
        }
        if value.len() > 0 {
            if let Some(stanza) = self.current.take() {
                self.current = Some(field(stanza, key, value));
            }
        }
    }
}

/// The stanzas of `dnf info`: `Key : Value` lines below headers for installed
/// and for available packages.
pub open spec fn parse_info_spec(stdout: Seq<char>) -> Seq<PackageView> {
    rows::scan(
        InfoScanView::start(),
        stdout.lines(),
        |state: InfoScanView, line: Seq<char>| info_next_spec(state, line),
    ).finish()
}

pub fn parse_info(stdout: &str) -> (r: Vec<DnfPackage>)
    ensures
        r@.deep() == parse_info_spec(stdout@),
{
    let start = InfoScan {
        packages: Vec::new(),
        state: InstallState::Unknown,
        current: None,
        last_key: text::copy(""),
    };
    proof {
        reveal_strlit("");
    }
    assert(start.packages@.deep() =~= seq![]);
    assert(start.last_key@ =~= seq![]);
    let end = rows::scan_output(
        start,
        stdout,
        Ghost(|state: InfoScanView, line: Seq<char>| info_next_spec(state, line)),
    );
    let ghost last = end.state();
    let mut packages = end.packages;
    finish_stanza(&mut packages, end.current);
    assert(packages@.deep() == last.finish());
    packages
}

/// The stanza that describes the package: the installed one, which can be
/// upgraded where an available one has another version; else the first.
pub open spec fn choose_stanza_spec(stanzas: Seq<PackageView>) -> Option<PackageView> {
    match rows::first(stanzas, |p: PackageView| p.state == InstallState::Installed) {
        Some(package) => match rows::first(
            stanzas,
            |p: PackageView|
                p.state == InstallState::Available && p.version is Some && p.version
                    != package.version,
        ) {
            Some(available) => Some(
                PackageView {
                    latest_version: available.version,
                    state: InstallState::Upgradable,
                    ..package
                },
            ),
            None => Some(package),
        },
        None => if stanzas.len() > 0 {
            Some(stanzas[0])
        } else {
            None
        },
    }
}

pub fn choose_stanza(stanzas: Vec<DnfPackage>) -> (r: Option<DnfPackage>)
    ensures
        r.deep() == choose_stanza_spec(stanzas@.deep()),
{
    let ghost all = stanzas@.deep();
    let is_installed = |p: &DnfPackage| -> (b: bool)
        ensures
            b == (p@.state == InstallState::Installed),
        { p.state == InstallState::Installed };
    let at = rows::position(
        &stanzas,
        is_installed,
        Ghost(|p: PackageView| p.state == InstallState::Installed),
    );
    proof {
        rows::lemma_index_is_first(all, |p: PackageView| p.state == InstallState::Installed);
    }
    match at {
        Some(at) => {
            let latest = {
                let version = &stanzas[at].version;
                let newer = |p: &DnfPackage| -> (b: bool)
                    ensures
                        b == (p@.state == InstallState::Available && p@.version is Some && p@.version
                            != version.deep()),
                    {
                        p.state == InstallState::Available && p.version.is_some()
                            && !text::equal_maybe(&p.version, version)
                    };
                let ghost wanted = |p: PackageView|
                    p.state == InstallState::Available && p.version is Some && p.version
                        != all[at as int].version;
                proof {
                    rows::lemma_index_is_first(all, wanted);
                }
                match rows::position(&stanzas, newer, Ghost(wanted)) {
                    Some(i) => text::copy_maybe(&stanzas[i].version),
                    None => None,
                }
            };
            let mut stanzas = stanzas;
            let package = stanzas.swap_remove(at);
            if latest.is_some() {
                Some(
                    DnfPackage {
                        latest_version: latest,
                        state: InstallState::Upgradable,
                        ..package
                    },
                )
            } else {
                Some(package)
            }
        },
        None => {
            let mut stanzas = stanzas;
            if stanzas.len() > 0 {
                Some(stanzas.swap_remove(0))
            } else {
                None
            }
        },
    }
}

} // verus!
