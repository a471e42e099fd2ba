//! Ruby's Bundler.
//!
//! Everything acts on the Gemfile that `bundle` finds from the working
//! directory. The Gemfile governs versions, so a version cannot be asked for.
//! `bundle outdated` exits with an error when there are updates. Bundler asks
//! nothing and simulates nothing.

use vstd::prelude::*;

use crate::command::{self, Cmd, CmdView, Plan};
use crate::detect::{self, Detection};
use crate::error::{self, Error, ErrorView};
use crate::package::{Details, InstallState, Package, PackageView};
use crate::profile::{basic_capabilities, Capabilities, ManagerKind, Profile};
use crate::request::{self, OpContext, PackageRequest, RequestView};
use crate::rows::{self, Scanner};
use crate::session::{self, Listing, Reply, Step, StepView};
use crate::text::{self, chars, Deep, Pieces, Text};

verus! {

/// Finds the manager and sets it up.
#[derive(Clone, Copy, Debug)]
pub struct Factory;

/// The factory of this backend.
pub fn factory() -> (r: Factory)
    ensures
        r == Factory,
{
    Factory
}

impl Factory {
    pub fn id(&self) -> (r: &'static str)
        ensures
            r@ == "bundler"@,
    {
        "bundler"
    }

    /// The programs to look for, in the order of preference.
    pub fn programs(&self) -> (r: Vec<&'static str>)
        ensures
            r@.deep() == seq!["bundle"@],
    {
        let mut out: Vec<&'static str> = Vec::new();
        out.push("bundle");
        assert(out@.deep() =~= seq!["bundle"@]);
        out
    }

    /// Whether the backend can be used, given where each program was found.
    pub fn detect(&self, found: &[Option<String>]) -> (r: Detection)
        ensures
            r@ == detect::detected(found@, "`bundle` not found on PATH"@),
    {
        detect::detect(found, "`bundle` not found on PATH")
    }

    /// The manager, given where each program was found.
    pub fn create(&self, found: &[Option<String>]) -> (r: Result<Manager, Error>)
        ensures
            match r {
                Ok(manager) => detect::required(found@, "bundler"@) == Ok::<Seq<char>, ErrorView>(
                    manager.program@,
                ),
                Err(error) => detect::required(found@, "bundler"@) == Err::<Seq<char>, ErrorView>(
                    error@,
                ),
            },
    {
        match detect::require(found, "bundler") {
            Ok(program) => Ok(Manager { program }),
            Err(error) => Err(error),
        }
    }
}

/// The manager, driving `program`.
#[derive(Debug)]
pub struct Manager {
    pub program: String,
}

impl Manager {
    /// What the manager says of itself.
    pub fn profile(&self) -> (r: Profile)
        ensures
            r.id@ == "bundler"@,
            r.display_name@ == "Bundler"@,
            r.kind == ManagerKind::Language,
            r.database_id@ == "rubygems"@,
            r.capabilities == (Capabilities {
                upgrade: true,
                list_outdated: true,
                ..Capabilities::basic()
            }),
            r.elevates == false,
    {
        Profile {
            id: "bundler",
            display_name: "Bundler",
            kind: ManagerKind::Language,
            database_id: "rubygems",
            capabilities: Capabilities {
                upgrade: true,
                list_outdated: true,
                ..basic_capabilities()
            },
            elevates: false,
        }
    }
}

/// A package as bundler describes it.
#[derive(Debug)]
pub struct BundlerPackage {
    pub name: String,
    pub version: Option<String>,
    pub latest_version: Option<String>,
    pub description: Option<String>,
    pub homepage: Option<String>,
    pub state: InstallState,
}

impl View for BundlerPackage {
    type V = PackageView;

    open spec fn view(&self) -> PackageView {
        PackageView {
            name: self.name@,
            version: self.version.deep(),
            latest_version: self.latest_version.deep(),
            description: self.description.deep(),
            homepage: self.homepage.deep(),
            state: self.state,
            ..PackageView::blank()
        }
    }
}

impl Default for BundlerPackage {
    fn default() -> (r: BundlerPackage)
        ensures
            r@ == PackageView::blank(),
    {
        BundlerPackage {
            name: String::new(),
            version: None,
            latest_version: None,
            description: None,
            homepage: None,
            state: InstallState::Unknown,
        }
    }
}

impl Package for BundlerPackage {
    open spec fn manager_id() -> Seq<char> {
        "bundler"@
    }

    fn manager(&self) -> (r: &'static str) {
        "bundler"
    }

    fn details(&self) -> (r: Details<'_>) {
        Details {
            version: self.version.as_ref(),
            latest_version: self.latest_version.as_ref(),
            description: self.description.as_ref(),
            homepage: self.homepage.as_ref(),
            ..Details::of(&self.name, self.state)
        }
    }
}

/// The Gemfile governs versions.
pub open spec fn reject_pins_spec(requests: Seq<RequestView>) -> Result<(), ErrorView> {
    request::pins_refused(
        requests,
        "bundler: `"@,
        "` pins a version, but the bundle's Gemfile governs versions"@,
    )
}

pub fn reject_pins(requests: &[PackageRequest]) -> (r: Result<(), Error>)
    ensures
        error::outcome(r) == reject_pins_spec(requests@.deep()),
{
    request::refuse_pins(
        requests,
        "bundler: `",
        "` pins a version, but the bundle's Gemfile governs versions",
    )
}

impl Manager {
    /// One gem at a time: only recent releases add several.
    pub fn install(&self, packages: &[PackageRequest], ctx: &OpContext) -> (r: Plan)
        ensures
            command::plan(r) == match reject_pins_spec(packages@.deep()) {
                Err(error) => Err(error),
                Ok(_) => if ctx.dry_run {
                    Err(ErrorView::Other("bundler: install has no dry-run mode"@))
                } else {
                    Ok(
                        packages@.deep().map_values(
                            |q: RequestView|
                                CmdView::new(self.program@).arg("add"@).arg(q.name),
                        ),
                    )
                },
            },
            command::all_elevated(command::plan(r), false),
            ctx.dry_run ==> r is Err,
            request::first_pin(packages@.deep()) is Some ==> r is Err,
            command::plan(r) == match (
                request::pins_refused(
                    packages@.deep(),
                    "bundler: `"@,
                    "` pins a version, but the bundle's Gemfile governs versions"@,
                )
            ) {
                Err(error) => Err(error),
                Ok(_) => if ctx.dry_run {
                    Err(ErrorView::Other("bundler: install has no dry-run mode"@))
                } else {
                    Ok(
                        packages@.deep().map_values(
                            |q: RequestView| CmdView::new(self.program@).arg("add"@).arg(q.name),
                        ),
                    )
                },
            },
    {
        if let Err(error) = reject_pins(packages) {
            return Err(error);
        }
        if ctx.dry_run {
            return Err(error::other("bundler: install has no dry-run mode"));
        }
        let add = |q: &PackageRequest| -> (c: Cmd)
            ensures
                c@ == CmdView::new(self.program@).arg("add"@).arg(q@.name),
            { Cmd::new(&self.program).arg("add").arg(&q.name) };
        Ok(
            command::one_each(
                packages,
                add,
                Ghost(|q: RequestView| CmdView::new(self.program@).arg("add"@).arg(q.name)),
            ),
        )
    }

    pub fn remove(&self, packages: &[PackageRequest], ctx: &OpContext) -> (r: Plan)
        ensures
            command::plan(r) == if ctx.dry_run {
                Err(ErrorView::Other("bundler: remove has no dry-run mode"@))
            } else {
                command::just(
                    CmdView::new(self.program@).arg("remove"@).names(packages@.deep()),
                )
            },
            command::all_elevated(command::plan(r), false),
            ctx.dry_run ==> r is Err,
    {
        if ctx.dry_run {
            return Err(error::other("bundler: remove has no dry-run mode"));
        }
        Ok(command::one(Cmd::new(&self.program).arg("remove").names(packages)))
    }

    pub fn upgrade(&self, packages: &[PackageRequest], ctx: &OpContext) -> (r: Plan)
        ensures
            command::plan(r) == match reject_pins_spec(packages@.deep()) {
                Err(error) => Err(error),
                Ok(_) => if ctx.dry_run {
                    Err(ErrorView::Other("bundler: upgrade has no dry-run mode"@))
                } else if packages@.len() == 0 {
                    command::just(CmdView::new(self.program@).arg("update"@).arg("--all"@))
                } else {
                    command::just(
                        CmdView::new(self.program@).arg("update"@).names(packages@.deep()),
                    )
                },
            },
            command::all_elevated(command::plan(r), false),
            ctx.dry_run ==> r is Err,
            request::first_pin(packages@.deep()) is Some ==> r is Err,
            command::plan(r) == match (
                request::pins_refused(
                    packages@.deep(),
                    "bundler: `"@,
                    "` pins a version, but the bundle's Gemfile governs versions"@,
                )
            ) {
                Err(error) => Err(error),
                Ok(_) => if ctx.dry_run {
                    Err(ErrorView::Other("bundler: upgrade has no dry-run mode"@))
                } else if packages@.len() == 0 {
                    command::just(CmdView::new(self.program@).arg("update"@).arg("--all"@))
                } else {
                    command::just(
                        CmdView::new(self.program@).arg("update"@).names(packages@.deep()),
                    )
                },
            },
    {
        if let Err(error) = reject_pins(packages) {
            return Err(error);
        }
        if ctx.dry_run {
            return Err(error::other("bundler: upgrade has no dry-run mode"));
        }
        if packages.len() == 0 {
            Ok(command::one(Cmd::new(&self.program).arg("update").arg("--all")))
        } else {
            Ok(command::one(Cmd::new(&self.program).arg("update").names(packages)))
        }
    }

    pub fn list_installed(&self, replies: &[Reply]) -> (r: Step<Listing<BundlerPackage>>)
        ensures
            r@ == session::listed(
                CmdView::query(self.program@).arg("list"@),
                replies@.deep(),
                |out: Seq<char>| parse_list_spec(out),
            ),
            r@.only_looks(),
            r@.in_c_locale(),
    {
        session::list(
            Cmd::query(&self.program).arg("list"),
            replies,
            parse_list,
            Ghost(|out: Seq<char>| parse_list_spec(out)),
        )
    }

    pub fn info(&self, name: &str, replies: &[Reply]) -> (r: Step<BundlerPackage>)
        ensures
            r@ == session::described(
                CmdView::query(self.program@).arg("info"@).arg(name@),
                replies@.deep(),
                name@,
                |out: Seq<char>| parse_info_spec(out),
            ),
            r@.only_looks(),
            r@.in_c_locale(),
    {
        session::describe(
            Cmd::query(&self.program).arg("info").arg(name),
            replies,
            name,
            parse_info,
            Ghost(|out: Seq<char>| parse_info_spec(out)),
        )
    }

    /// An unsuccessful run that lists updates is none; one that lists nothing
    /// failed.
    pub fn list_outdated(&self, replies: &[Reply]) -> (r: Step<Listing<BundlerPackage>>)
        ensures
            r@ == (if replies@.len() == 0 {
                session::ask(CmdView::query(self.program@).arg("outdated"@))
            } else if !replies@[0].success && parse_outdated_spec(replies@[0].stdout@).len()
                == 0 {
                StepView::Fail(replies@[0]@.failure())
            } else {
                StepView::Done(parse_outdated_spec(replies@[0].stdout@))
            }),
            r@.only_looks(),
            r@.in_c_locale(),
    {
        if replies.len() == 0 {
            return session::query(Cmd::query(&self.program).arg("outdated"));
        }
        let packages = parse_outdated(&replies[0].stdout);
        if !replies[0].success && packages.len() == 0 {
            return Step::Fail(replies[0].failure());
        }
        Step::Done(Listing { packages })
    }
}

/// `* name (version)`.
pub open spec fn parse_entry_spec(line: Seq<char>) -> Option<(Seq<char>, Seq<char>)> {
    match line.without_prefix("* "@) {
        None => None,
        Some(rest) => match rest.cut(" ("@) {
            None => None,
            Some((name, version)) => match version.without_suffix(")"@) {
                None => None,
                Some(inner) => match inner.words().nth(0) {
                    None => None,
                    Some(version) => Some((name, version)),
                },
            },
        },
    }
}

fn read_entry(line: &[char]) -> (r: Option<(String, String)>)
    ensures
        r.deep() == parse_entry_spec(line@),
{
    match text::without_prefix(line, "* ") {
        None => None,
        Some(rest) => match text::cut(rest, " (") {
            None => None,
            Some((name, version)) => match text::without_suffix(version, ")") {
                None => None,
                Some(inner) => {
                    let words = text::words(inner);
                    match text::nth(&words, 0) {
                        None => None,
                        Some(version) => Some((text::string(name), text::string(version))),
                    }
                },
            },
        },
    }
}

pub fn parse_entry(line: &str) -> (r: Option<(String, String)>)
    ensures
        r.deep() == parse_entry_spec(line@),
{
    let t = chars(line);
    read_entry(&t)
}

/// A gem in `bundle list`.
pub open spec fn list_row_spec(line: Seq<char>) -> Option<PackageView> {
    match parse_entry_spec(line.trim()) {
        Some((name, version)) => Some(
            PackageView::versioned(name, Some(version), InstallState::Installed),
        ),
        None => None,
    }
}

fn list_row(line: &[char]) -> (r: Option<BundlerPackage>)
    ensures
        r.deep() == list_row_spec(line@),
{
    match read_entry(text::trim(line)) {
        Some((name, version)) => Some(
            BundlerPackage {
                name,
                version: Some(version),
                state: InstallState::Installed,
                ..BundlerPackage::default()
            },
        ),
        None => None,
    }
}

/// The gems that `bundle list` prints.
pub open spec fn parse_list_spec(stdout: Seq<char>) -> Seq<PackageView> {
    rows::select(stdout.lines(), |line: Seq<char>| list_row_spec(line))
}

pub fn parse_list(stdout: &str) -> (r: Vec<BundlerPackage>)
    ensures
        r@.deep() == parse_list_spec(stdout@),
        crate::package::all_in(r@.deep(), InstallState::Installed),
{
    proof {
        rows::selected_have(
            stdout@.lines(),
            |line: Seq<char>| list_row_spec(line),
            |p: PackageView| p.state == InstallState::Installed,
        );
    }
    rows::select_rows(stdout, list_row, Ghost(|line: Seq<char>| list_row_spec(line)))
}

/// The reading of `bundle info`.
struct InfoScan {
    package: Option<BundlerPackage>,
}

/// The package of `bundle info` after one more line: the first gem counts,
/// and the fields below it.
pub open spec fn info_next_spec(package: Option<PackageView>, line: Seq<char>) -> Option<
    PackageView,
> {
    match package {
        None => list_row_spec(line),
        Some(package) => match line.trim().cut(":"@) {
            Some((key, value)) => if key.trim() == "Summary"@ {
                Some(PackageView { description: Some(value.trim()), ..package })
            } else if key.trim() == "Homepage"@ {
                Some(PackageView { homepage: Some(value.trim()), ..package })
            } else {
                Some(package)
            },
            None => Some(package),
        },
    }
}

impl Scanner for InfoScan {
    type State = Option<PackageView>;

    closed spec fn state(&self) -> Option<PackageView> {
        self.package.deep()
    }

    open spec fn next(state: Option<PackageView>, line: Seq<char>) -> Option<PackageView> {
        info_next_spec(state, line)
    }

    fn feed(&mut self, line: &[char]) {
        match self.package.take() {
            None => {
                self.package = list_row(line);
            },
            Some(package) => {
                let mut package = package;
                if let Some((key, value)) = text::cut(text::trim(line), ":") {
                    if text::is(text::trim(key), "Summary") {
                        package.description = Some(text::string(text::trim(value)));
                    } else if text::is(text::trim(key), "Homepage") {
                        package.homepage = Some(text::string(text::trim(value)));
                    }
                }
                self.package = Some(package);
            },
        }
    }
}

/// The gem that `bundle info` describes.
pub open spec fn parse_info_spec(stdout: Seq<char>) -> Option<PackageView> {
    rows::scan(
        None,
        stdout.lines(),
        |state: Option<PackageView>, line: Seq<char>| info_next_spec(state, line),
    )
}

pub fn parse_info(stdout: &str) -> (r: Option<BundlerPackage>)
    ensures
        r.deep() == parse_info_spec(stdout@),
{
    rows::scan_output(
        InfoScan { package: None },
        stdout,
        Ghost(|state: Option<PackageView>, line: Seq<char>| info_next_spec(state, line)),
    ).package
}

/// A gem that can be upgraded.
pub open spec fn upgrade_spec(
    name: Seq<char>,
    current: Seq<char>,
    latest: Seq<char>,
) -> PackageView {
    PackageView {
        latest_version: Some(latest),
        ..PackageView::versioned(name, Some(current), InstallState::Upgradable)
    }
}

fn upgrade_of(name: &[char], current: &[char], latest: &[char]) -> (r: BundlerPackage)
    ensures
        r@ == upgrade_spec(name@, current@, latest@),
{
    BundlerPackage {
        name: text::string(name),
        version: Some(text::string(current)),
        latest_version: Some(text::string(latest)),
        state: InstallState::Upgradable,
        ..BundlerPackage::default()
    }
}

/// `name (newest X, installed Y…)`, as older releases print it.
pub open spec fn bullet_spec(bullet: Seq<char>) -> Option<PackageView> {
    match bullet.cut(" (newest "@) {
        None => None,
        Some((name, rest)) => match rest.cut(", installed "@) {
            None => None,
            Some((latest, rest)) => Some(
                upgrade_spec(
                    name,
                    rest.take(text::find_set(rest, ",)"@, true) as int),
                    latest,
                ),
            ),
        },
    }
}

fn bullet_row(bullet: &[char]) -> (r: Option<BundlerPackage>)
    ensures
        r.deep() == bullet_spec(bullet@),
{
    match text::cut(bullet, " (newest ") {
        None => None,
        Some((name, rest)) => match text::cut(rest, ", installed ") {
            None => None,
            Some((latest, rest)) => {
                let marks = chars(",)");
                let current = text::head(rest, text::position(rest, &marks, true));
                Some(upgrade_of(name, current, latest))
            },
        },
    }
}

/// The reading of `bundle outdated`.
struct OutdatedScan {
    packages: Vec<BundlerPackage>,
    in_table: bool,
}

/// The model of the reading of `bundle outdated`.
pub struct OutdatedScanView {
    pub packages: Seq<PackageView>,
    pub in_table: bool,
}

/// The reading of `bundle outdated` after one more line: bullets, or the rows
/// below a `Gem Current …` header.
pub open spec fn outdated_next_spec(state: OutdatedScanView, line: Seq<char>) -> OutdatedScanView {
    let text = line.trim();
    let words = text.words();
    match text.without_prefix("* "@) {
        Some(bullet) => match bullet_spec(bullet) {
            Some(package) => OutdatedScanView { packages: state.packages.push(package), ..state },
            None => state,
        },
        None => if text.len() == 0 {
            state
        } else if !state.in_table {
            OutdatedScanView {
                in_table: words.nth(0) == Some("Gem"@) && words.nth(1) == Some("Current"@),
                ..state
            }
        } else if words.len() >= 3 {
            OutdatedScanView {
                packages: state.packages.push(upgrade_spec(words[0], words[1], words[2])),
                ..state
            }
        } else {
            state
        },
    }
}

impl Scanner for OutdatedScan {
    type State = OutdatedScanView;

    closed spec fn state(&self) -> OutdatedScanView {
        OutdatedScanView { packages: self.packages@.deep(), in_table: self.in_table }
    }

    open spec fn next(state: OutdatedScanView, line: Seq<char>) -> OutdatedScanView {
        outdated_next_spec(state, line)
    }

    fn feed(&mut self, line: &[char]) {
        let text = text::trim(line);
        if let Some(bullet) = text::without_prefix(text, "* ") {
            if let Some(package) = bullet_row(bullet) {
                rows::push(&mut self.packages, package);
            }
            return;
        }
        if text.len() == 0 {
            return;
        }
        let words = text::words(text);
        if !self.in_table {
            self.in_table = words.len() >= 2 && text::is(words[0], "Gem") && text::is(
                words[1],
                "Current",
            );
        } else if words.len() >= 3 {
            rows::push(&mut self.packages, upgrade_of(words[0], words[1], words[2]));
        }
    }
}

/// The gems that `bundle outdated` prints.
pub open spec fn parse_outdated_spec(stdout: Seq<char>) -> Seq<PackageView> {
    rows::scan(
        OutdatedScanView { packages: seq![], in_table: false },
        stdout.lines(),
        |state: OutdatedScanView, line: Seq<char>| outdated_next_spec(state, line),
    ).packages
}

pub fn parse_outdated(stdout: &str) -> (r: Vec<BundlerPackage>)
    ensures
        r@.deep() == parse_outdated_spec(stdout@),
{
    rows::scan_output(
        OutdatedScan { packages: rows::empty(), in_table: false },
        stdout,
        Ghost(|state: OutdatedScanView, line: Seq<char>| outdated_next_spec(state, line)),
    ).packages
}

} // verus!
