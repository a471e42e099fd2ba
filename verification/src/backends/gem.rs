//! RubyGems.
//!
//! gem works for the user, in the environment of the active Ruby. Several
//! versions of a gem live side by side, so a listing tells the newest, and an
//! upgrade to a version is an install of it. `install` and `update` never ask
//! and can explain instead of acting; `uninstall` does ask, unless it is told
//! to take all versions with their executables and to ignore dependencies,
//! and it has no dry run.

use vstd::prelude::*;

use crate::command::{self, Cmd, CmdView, Plan};
use crate::detect::{self, Detection};
use crate::error::{self, Error, ErrorView};
use crate::package::{Details, InstallState, Package, PackageView};
use crate::pattern;
use crate::profile::{basic_capabilities, Capabilities, ManagerKind, Profile};
use crate::request::{OpContext, PackageRequest, RequestView};
use crate::rows::{self, Scanner};
use crate::session::{self, Listing, Reply, ReplyView, Step, StepView};
use crate::text::{self, chars, Deep, Pieces, Text};

verus! {

broadcast use command::group_carries;

/// Finds the manager and sets it up.
#[derive(Clone, Copy, Debug)]
pub struct Factory;

/// The factory of this backend.
pub fn factory() -> (r: Factory)
    ensures
        r == Factory,
{
    Factory
}

impl Factory {
    pub fn id(&self) -> (r: &'static str)
        ensures
            r@ == "gem"@,
    {
        "gem"
    }

    /// The programs to look for, in the order of preference.
    pub fn programs(&self) -> (r: Vec<&'static str>)
        ensures
            r@.deep() == seq!["gem"@],
    {
        let mut out: Vec<&'static str> = Vec::new();
        out.push("gem");
        assert(out@.deep() =~= seq!["gem"@]);
        out
    }

    /// Whether the backend can be used, given where each program was found.
    pub fn detect(&self, found: &[Option<String>]) -> (r: Detection)
        ensures
            r@ == detect::detected(found@, "`gem` not found on PATH"@),
    {
        detect::detect(found, "`gem` not found on PATH")
    }

    /// The manager, given where each program was found.
    pub fn create(&self, found: &[Option<String>]) -> (r: Result<Manager, Error>)
        ensures
            match r {
                Ok(manager) => detect::required(found@, "gem"@) == Ok::<Seq<char>, ErrorView>(
                    manager.program@,
                ),
                Err(error) => detect::required(found@, "gem"@) == Err::<Seq<char>, ErrorView>(
                    error@,
                ),
            },
    {
        match detect::require(found, "gem") {
            Ok(program) => Ok(Manager { program }),
            Err(error) => Err(error),
        }
    }
}

/// The manager, driving `program`.
#[derive(Debug)]
pub struct Manager {
    pub program: String,
}

impl Manager {
    /// What the manager says of itself.
    pub fn profile(&self) -> (r: Profile)
        ensures
            r.id@ == "gem"@,
            r.display_name@ == "RubyGems"@,
            r.kind == ManagerKind::Language,
            r.database_id@ == "rubygems"@,
            r.capabilities == (Capabilities {
                search: true,
                upgrade: true,
                list_outdated: true,
                pin_version: true,
                ..Capabilities::basic()
            }),
            r.elevates == false,
    {
        Profile {
            id: "gem",
            display_name: "RubyGems",
            kind: ManagerKind::Language,
            database_id: "rubygems",
            capabilities: Capabilities {
                search: true,
                upgrade: true,
                list_outdated: true,
                pin_version: true,
                ..basic_capabilities()
            },
            elevates: false,
        }
    }
}

/// A package as RubyGems describes it.
#[derive(Debug)]
pub struct GemPackage {
    pub name: String,
    pub version: Option<String>,
    pub latest_version: Option<String>,
    pub description: Option<String>,
    pub homepage: Option<String>,
    pub license: Option<String>,
    pub state: InstallState,
}

impl View for GemPackage {
    type V = PackageView;

    open spec fn view(&self) -> PackageView {
        PackageView {
            name: self.name@,
            version: self.version.deep(),
            latest_version: self.latest_version.deep(),
            description: self.description.deep(),
            homepage: self.homepage.deep(),
            license: self.license.deep(),
            state: self.state,
            ..PackageView::blank()
        }
    }
}

impl Default for GemPackage {
    fn default() -> (r: GemPackage)
        ensures
            r@ == PackageView::blank(),
    {
        GemPackage {
            name: String::new(),
            version: None,
            latest_version: None,
            description: None,
            homepage: None,
            license: None,
            state: InstallState::Unknown,
        }
    }
}

impl Package for GemPackage {
    open spec fn manager_id() -> Seq<char> {
        "gem"@
    }

    fn manager(&self) -> (r: &'static str) {
        "gem"
    }

    fn details(&self) -> (r: Details<'_>) {
        Details {
            version: self.version.as_ref(),
            latest_version: self.latest_version.as_ref(),
            description: self.description.as_ref(),
            homepage: self.homepage.as_ref(),
            license: self.license.as_ref(),
            ..Details::of(&self.name, self.state)
        }
    }
}

/// What `gem install` takes for one request; a version holds for the whole
/// command.
pub open spec fn install_args_spec(request: RequestView) -> Seq<Seq<char>> {
    match request.version {
        Some(version) => seq![request.name, "-v"@, version],
        None => seq![request.name],
    }
}

pub fn install_args(request: &PackageRequest) -> (r: Vec<String>)
    ensures
        r@.deep() == install_args_spec(request@),
{
    let mut args: Vec<String> = rows::empty();
    rows::push(&mut args, text::copy(&request.name));
    if let Some(version) = &request.version {
        rows::push(&mut args, text::copy("-v"));
        rows::push(&mut args, text::copy(version));
    }
    assert(args@.deep() =~= install_args_spec(request@));
    args
}

/// A name inside a pattern: characters that could mean something else there
/// are escaped.
pub open spec fn regex_escape_spec(name: Seq<char>) -> Seq<char> {
    pattern::escaped(name, "_-"@)
}

pub fn regex_escape(name: &str) -> (r: String)
    ensures
        r@ == regex_escape_spec(name@),
{
    pattern::escape(name, "_-")
}

/// The name before ` (`, and what stands behind it, if the name is one word.
pub open spec fn opening_spec(line: Seq<char>) -> Option<(Seq<char>, Seq<char>)> {
    match line.cut(" ("@) {
        None => None,
        Some((name, rest)) => if name.len() == 0 || name.has_blank() {
            None
        } else {
            Some((name, rest))
        },
    }
}

fn opening(line: &[char]) -> (r: Option<(&[char], &[char])>)
    ensures
        r.deep() == opening_spec(line@),
{
    match text::cut(line, " (") {
        None => None,
        Some((name, rest)) => {
            if name.len() == 0 || text::has_blank(name) {
                None
            } else {
                Some((name, rest))
            }
        },
    }
}

/// A gem with its newest version: `name (versions…)`, the newest one first.
/// A default gem is marked so, and a platform may follow the version.
pub open spec fn parse_header_spec(line: Seq<char>) -> Option<(Seq<char>, Seq<char>)> {
    match opening_spec(line) {
        None => None,
        Some((name, rest)) => match rest.without_suffix(")"@) {
            None => None,
            Some(versions) => {
                let newest = versions.split(","@)[0].trim();
                let version = match newest.without_prefix("default: "@) {
                    Some(version) => version,
                    None => newest,
                };
                match version.words().nth(0) {
                    None => None,
                    Some(version) => Some((name, version)),
                }
            },
        },
    }
}

pub fn parse_header(line: &str) -> (r: Option<(String, String)>)
    ensures
        r.deep() == parse_header_spec(line@),
{
    header(&chars(line))
}

fn header(line: &[char]) -> (r: Option<(String, String)>)
    ensures
        r.deep() == parse_header_spec(line@),
{
    let (name, rest) = match opening(line) {
        None => {
            return None;
        },
        Some(pair) => pair,
    };
    let versions = match text::without_suffix(rest, ")") {
        None => {
            return None;
        },
        Some(versions) => versions,
    };
    let all = text::split(versions, ",");
    proof {
        text::lemma_split_some(versions@, ","@);
    }
    let newest = text::trim(all[0]);
    let version = match text::without_prefix(newest, "default: ") {
        Some(version) => version,
        None => newest,
    };
    match text::nth(&text::words(version), 0) {
        None => None,
        Some(version) => Some((text::string(name), text::string(version))),
    }
}

/// A gem in a list, which is not indented.
pub open spec fn gem_row_spec(line: Seq<char>, state: InstallState) -> Option<PackageView> {
    if line.begins_blank() {
        None
    } else {
        match parse_header_spec(line) {
            None => None,
            Some((name, version)) => Some(PackageView::versioned(name, Some(version), state)),
        }
    }
}

fn gem_row(line: &[char], state: InstallState) -> (r: Option<GemPackage>)
    ensures
        r.deep() == gem_row_spec(line@, state),
{
    if text::begins_blank(line) {
        return None;
    }
    match header(line) {
        None => None,
        Some((name, version)) => Some(
            GemPackage { name, version: Some(version), state, ..GemPackage::default() },
        ),
    }
}

/// The gems that `gem list` and `gem search` print.
pub open spec fn parse_gem_lines_spec(stdout: Seq<char>, state: InstallState) -> Seq<PackageView> {
    rows::select(stdout.lines(), |line: Seq<char>| gem_row_spec(line, state))
}

pub fn parse_gem_lines(stdout: &str, state: InstallState) -> (r: Vec<GemPackage>)
    ensures
        r@.deep() == parse_gem_lines_spec(stdout@, state),
        crate::package::all_named(r@.deep()),
        crate::package::all_in(r@.deep(), state),
{
    proof {
        rows::selected_have(
            stdout@.lines(),
            |line: Seq<char>| gem_row_spec(line, state),
            |p: PackageView| p.name.len() > 0 && p.state == state,
        );
    }
    let row = |line: &[char]| -> (o: Option<GemPackage>)
        ensures
            o.deep() == gem_row_spec(line@, state),
        { gem_row(line, state) };
    rows::select_rows(stdout, row, Ghost(|line: Seq<char>| gem_row_spec(line, state)))
}

/// The reading of `gem info`.
struct DetailScan {
    packages: Vec<GemPackage>,
    prose: bool,
    state: InstallState,
}

/// The model of the reading of `gem info`.
pub struct DetailScanView {
    pub packages: Seq<PackageView>,
    pub prose: bool,
    pub state: InstallState,
}

impl DetailScanView {
    pub open spec fn start() -> DetailScanView {
        DetailScanView {
            packages: seq![],
            prose: false,
            state: InstallState::Unknown,
        }
    }
}

/// A gem after one of its indented lines: a line of its description, or a
/// field.
pub open spec fn detail_spec(package: PackageView, text: Seq<char>, prose: bool) -> PackageView {
    if prose {
        PackageView {
            description: Some(
                match package.description {
                    Some(description) => description + " "@ + text,
                    None => text,
                },
            ),
            ..package
        }
    } else {
        match text.cut(":"@) {
            None => package,
            Some((key, value)) => if key.trim() == "Homepage"@ {
                PackageView { homepage: Some(value.trim()), ..package }
            } else if key.trim() == "License"@ || key.trim() == "Licenses"@ {
                PackageView { license: Some(value.trim()), ..package }
            } else {
                package
            },
        }
    }
}

fn detail(package: GemPackage, text: &[char], prose: bool) -> (r: GemPackage)
    ensures
        r@ == detail_spec(package@, text@, prose),
{
    if prose {
        let description = match &package.description {
            Some(description) => text::cat3(description, " ", &text::string(text)),
            None => text::string(text),
        };
        return GemPackage { description: Some(description), ..package };
    }
    match text::cut(text, ":") {
        None => package,
        Some((key, value)) => {
            let key = text::trim(key);
            let given = Some(text::string(text::trim(value)));
            if text::is(key, "Homepage") {
                GemPackage { homepage: given, ..package }
            } else if text::is(key, "License") || text::is(key, "Licenses") {
                GemPackage { license: given, ..package }
            } else {
                package
            }
        },
    }
}

/// The reading of `gem info` after one more line. Fields follow a header;
/// after a blank line everything is prose.
pub open spec fn detail_next_spec(state: DetailScanView, line: Seq<char>) -> DetailScanView {
    if line.trim().len() == 0 {
        DetailScanView { prose: state.packages.len() > 0, ..state }
    } else if !line.begins_blank() {
        match parse_header_spec(line) {
            None => state,
            Some((name, version)) => DetailScanView {
                packages: state.packages.push(
                    PackageView::versioned(name, Some(version), state.state),
                ),
                prose: false,
                ..state
            },
        }
    } else if state.packages.len() == 0 {
        state
    } else {
        DetailScanView {
            packages: state.packages.drop_last().push(
                detail_spec(state.packages.last(), line.trim(), state.prose),
            ),
            ..state
        }
    }
}

impl Scanner for DetailScan {
    type State = DetailScanView;

    closed spec fn state(&self) -> DetailScanView {
        DetailScanView {
            packages: self.packages@.deep(),
            prose: self.prose,
            state: self.state,
        }
    }

    open spec fn next(state: DetailScanView, line: Seq<char>) -> DetailScanView {
        detail_next_spec(state, line)
    }

    fn feed(&mut self, line: &[char]) {
        let text = text::trim(line);
        if text.len() == 0 {
            self.prose = self.packages.len() > 0;
        } else if !text::begins_blank(line) {
            if let Some((name, version)) = header(line) {
                rows::push(
                    &mut self.packages,
                    GemPackage {
                        name,
                        version: Some(version),
                        state: self.state,
                        ..GemPackage::default()
                    },
                );
                self.prose = false;
            }
        } else if let Some(package) = rows::pop(&mut self.packages) {
            rows::push(&mut self.packages, detail(package, text, self.prose));
        }
    }
}

/// The gems that `gem info` and `gem search --details` describe.
pub open spec fn parse_details_spec(stdout: Seq<char>, state: InstallState) -> Seq<PackageView> {
    rows::scan(
        DetailScanView { state, ..DetailScanView::start() },
        stdout.lines(),
        |state: DetailScanView, line: Seq<char>| detail_next_spec(state, line),
    ).packages
}

pub fn parse_details(stdout: &str, state: InstallState) -> (r: Vec<GemPackage>)
    ensures
        r@.deep() == parse_details_spec(stdout@, state),
{
    let start = DetailScan { packages: Vec::new(), prose: false, state };
    assert(start.packages@.deep() =~= seq![]);
    rows::scan_output(
        start,
        stdout,
        Ghost(|state: DetailScanView, line: Seq<char>| detail_next_spec(state, line)),
    ).packages
}

/// An outdated gem: `name (current < latest)`.
pub open spec fn outdated_row_spec(line: Seq<char>) -> Option<PackageView> {
    match opening_spec(line) {
        None => None,
        Some((name, rest)) => match rest.without_suffix(")"@) {
            None => None,
            Some(versions) => match versions.cut(" < "@) {
                None => None,
                Some((current, latest)) => Some(
                    PackageView {
                        latest_version: Some(latest),
                        ..PackageView::versioned(name, Some(current), InstallState::Upgradable)
                    },
                ),
            },
        },
    }
}

fn outdated_row(line: &[char]) -> (r: Option<GemPackage>)
    ensures
        r.deep() == outdated_row_spec(line@),
{
    let (name, rest) = match opening(line) {
        None => {
            return None;
        },
        Some(pair) => pair,
    };
    let versions = match text::without_suffix(rest, ")") {
        None => {
            return None;
        },
        Some(versions) => versions,
    };
    match text::cut(versions, " < ") {
        None => None,
        Some((current, latest)) => Some(
            GemPackage {
                name: text::string(name),
                version: Some(text::string(current)),
                latest_version: Some(text::string(latest)),
                state: InstallState::Upgradable,
                ..GemPackage::default()
            },
        ),
    }
}

/// The gems that `gem outdated` prints.
pub open spec fn parse_outdated_spec(stdout: Seq<char>) -> Seq<PackageView> {
    rows::select(stdout.lines(), |line: Seq<char>| outdated_row_spec(line))
}

pub fn parse_outdated(stdout: &str) -> (r: Vec<GemPackage>)
    ensures
        r@.deep() == parse_outdated_spec(stdout@),
        crate::package::all_named(r@.deep()),
        crate::package::all_in(r@.deep(), InstallState::Upgradable),
{
    proof {
        rows::selected_have(
            stdout@.lines(),
            |line: Seq<char>| outdated_row_spec(line),
            |p: PackageView| p.name.len() > 0 && p.state == InstallState::Upgradable,
        );
    }
    rows::select_rows(stdout, outdated_row, Ghost(|line: Seq<char>| outdated_row_spec(line)))
}

impl Manager {
    /// What installs one gem.
    pub open spec fn install_spec(self, request: RequestView, ctx: OpContext) -> CmdView {
        CmdView::new(self.program@).arg("install"@).args(install_args_spec(request)).flag(
            ctx.dry_run,
            "--explain"@,
        )
    }

    fn install_one(&self, request: &PackageRequest, ctx: &OpContext) -> (r: Cmd)
        ensures
            r@ == self.install_spec(request@, *ctx),
    {
        Cmd::new(&self.program).arg("install").args(&install_args(request)).flag(
            ctx.dry_run,
            "--explain",
        )
    }

    /// One gem at a time.
    pub fn install(&self, packages: &[PackageRequest], ctx: &OpContext) -> (r: Plan)
        ensures
            command::plan(r) == Ok::<Seq<CmdView>, ErrorView>(
                packages@.deep().map_values(|q: RequestView| self.install_spec(q, *ctx)),
            ),
            command::all_elevated(command::plan(r), false),
            ctx.dry_run ==> command::all_carry(command::plan(r), "--explain"@),
    {
        let each = |q: &PackageRequest| -> (c: Cmd)
            ensures
                c@ == self.install_spec(q@, *ctx),
            { self.install_one(q, ctx) };
        Ok(
            command::one_each(
                packages,
                each,
                Ghost(|q: RequestView| self.install_spec(q, *ctx)),
            ),
        )
    }

    pub fn remove(&self, packages: &[PackageRequest], ctx: &OpContext) -> (r: Plan)
        ensures
            command::plan(r) == if ctx.dry_run {
                Err(ErrorView::Other("gem: remove has no dry-run mode"@))
            } else {
                command::just(
                    CmdView::new(self.program@).arg("uninstall"@).flag(ctx.assume_yes, "-a"@)
                        .flag(ctx.assume_yes, "-x"@).flag(ctx.assume_yes, "-I"@)
                        .names(packages@.deep()),
                )
            },
            command::all_elevated(command::plan(r), false),
            ctx.dry_run ==> r is Err,
            ctx.assume_yes ==> command::all_carry(command::plan(r), "-x"@),
    {
        if ctx.dry_run {
            return Err(error::other("gem: remove has no dry-run mode"));
        }
        Ok(
            command::one(
                Cmd::new(&self.program).arg("uninstall").flag(ctx.assume_yes, "-a")
                    .flag(ctx.assume_yes, "-x").flag(ctx.assume_yes, "-I").names(packages),
            ),
        )
    }

    /// What upgrades one gem: to a version by installing it.
    pub open spec fn upgrade_spec(self, request: RequestView, ctx: OpContext) -> CmdView {
        match request.version {
            Some(_) => self.install_spec(request, ctx),
            None => CmdView::new(self.program@).arg("update"@).arg(request.name).flag(
                ctx.dry_run,
                "--explain"@,
            ),
        }
    }

    fn upgrade_one(&self, request: &PackageRequest, ctx: &OpContext) -> (r: Cmd)
        ensures
            r@ == self.upgrade_spec(request@, *ctx),
    {
        match &request.version {
            Some(_) => self.install_one(request, ctx),
            None => Cmd::new(&self.program).arg("update").arg(&request.name).flag(
                ctx.dry_run,
                "--explain",
            ),
        }
    }

    /// Without names everything is upgraded.
    pub fn upgrade(&self, packages: &[PackageRequest], ctx: &OpContext) -> (r: Plan)
        ensures
            command::plan(r) == (if packages@.len() == 0 {
                command::just(
                    CmdView::new(self.program@).arg("update"@).flag(ctx.dry_run, "--explain"@),
                )
            } else {
                Ok(packages@.deep().map_values(|q: RequestView| self.upgrade_spec(q, *ctx)))
            }),
            command::all_elevated(command::plan(r), false),
            ctx.dry_run ==> command::all_carry(command::plan(r), "--explain"@),
    {
        if packages.len() == 0 {
            return Ok(
                command::one(
                    Cmd::new(&self.program).arg("update").flag(ctx.dry_run, "--explain"),
                ),
            );
        }
        let each = |q: &PackageRequest| -> (c: Cmd)
            ensures
                c@ == self.upgrade_spec(q@, *ctx),
            { self.upgrade_one(q, ctx) };
        Ok(
            command::one_each(
                packages,
                each,
                Ghost(|q: RequestView| self.upgrade_spec(q, *ctx)),
            ),
        )
    }

    pub fn list_installed(&self, replies: &[Reply]) -> (r: Step<Listing<GemPackage>>)
        ensures
            r@ == session::listed(
                CmdView::query(self.program@).arg("list"@).arg("--local"@),
                replies@.deep(),
                |out: Seq<char>| parse_gem_lines_spec(out, InstallState::Installed),
            ),
            r@.only_looks(),
            r@.in_c_locale(),
    {
        let parse = |out: &str| -> (v: Vec<GemPackage>)
            ensures
                v@.deep() == parse_gem_lines_spec(out@, InstallState::Installed),
            { parse_gem_lines(out, InstallState::Installed) };
        session::list(
            Cmd::query(&self.program).arg("list").arg("--local"),
            replies,
            parse,
            Ghost(|out: Seq<char>| parse_gem_lines_spec(out, InstallState::Installed)),
        )
    }

    pub fn search(&self, query: &str, replies: &[Reply]) -> (r: Step<Listing<GemPackage>>)
        ensures
            r@ == session::listed(
                CmdView::query(self.program@).arg("search"@).arg("--remote"@).arg(query@),
                replies@.deep(),
                |out: Seq<char>| parse_gem_lines_spec(out, InstallState::Available),
            ),
            r@.only_looks(),
            r@.in_c_locale(),
    {
        let parse = |out: &str| -> (v: Vec<GemPackage>)
            ensures
                v@.deep() == parse_gem_lines_spec(out@, InstallState::Available),
            { parse_gem_lines(out, InstallState::Available) };
        session::list(
            Cmd::query(&self.program).arg("search").arg("--remote").arg(query),
            replies,
            parse,
            Ghost(|out: Seq<char>| parse_gem_lines_spec(out, InstallState::Available)),
        )
    }

    pub fn list_outdated(&self, replies: &[Reply]) -> (r: Step<Listing<GemPackage>>)
        ensures
            r@ == session::listed(
                CmdView::query(self.program@).arg("outdated"@),
                replies@.deep(),
                |out: Seq<char>| parse_outdated_spec(out),
            ),
            r@.only_looks(),
            r@.in_c_locale(),
    {
        session::list(
            Cmd::query(&self.program).arg("outdated"),
            replies,
            parse_outdated,
            Ghost(|out: Seq<char>| parse_outdated_spec(out)),
        )
    }

    /// What is installed is described; anything else is asked of the
    /// registry, by a pattern that fits this gem alone.
    pub open spec fn info_spec(self, name: Seq<char>, replies: Seq<ReplyView>) -> StepView<
        PackageView,
    > {
        if replies.len() == 0 {
            session::ask(CmdView::query(self.program@).arg("info"@).arg(name))
        } else {
            let local = session::called(
                parse_details_spec(replies[0].stdout, InstallState::Installed),
                name,
            );
            if replies[0].success && local is Some {
                StepView::Done(local->0)
            } else if replies.len() == 1 {
                session::ask(
                    CmdView::query(self.program@).arg("search"@).arg("--remote"@).arg(
                        "--details"@,
                    ).arg("^"@ + regex_escape_spec(name) + "$"@),
                )
            } else if !replies[1].success {
                StepView::Fail(ErrorView::NotFound(name))
            } else {
                session::found(
                    session::called(
                        parse_details_spec(replies[1].stdout, InstallState::Available),
                        name,
                    ),
                    name,
                )
            }
        }
    }

    pub fn info(&self, name: &str, replies: &[Reply]) -> (r: Step<GemPackage>)
        ensures
            r@ == self.info_spec(name@, replies@.deep()),
            r@.only_looks(),
            r@.in_c_locale(),
    {
        if replies.len() == 0 {
            return session::query(Cmd::query(&self.program).arg("info").arg(name));
        }
        assert(replies@.deep()[0] == replies@[0]@);
        if replies[0].success {
            let local = parse_details(&replies[0].stdout, InstallState::Installed);
            if let Some(package) = session::take_called(local, name) {
                return Step::Done(package);
            }
        }
        if replies.len() == 1 {
            return session::query(
                Cmd::query(&self.program).arg("search").arg("--remote").arg("--details").arg(
                    &text::cat3("^", &regex_escape(name), "$"),
                ),
            );
        }
        assert(replies@.deep()[1] == replies@[1]@);
        if !replies[1].success {
            return Step::Fail(error::not_found(name));
        }
        session::find(
            session::take_called(
                parse_details(&replies[1].stdout, InstallState::Available),
                name,
            ),
            name,
        )
    }
}

} // verus!
