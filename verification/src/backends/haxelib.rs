//! haxelib, in its global repository.
//!
//! Each library is installed, removed and updated by a command of its own,
//! with its version behind it when one is asked for. `--always` keeps haxelib
//! from asking. It has no dry run.

use vstd::prelude::*;

use crate::command::{self, Cmd, CmdView, Plan};
use crate::detect::{self, Detection};
use crate::error::{self, Error, ErrorView};
use crate::package::{Details, InstallState, Package, PackageView};
use crate::profile::{basic_capabilities, Capabilities, ManagerKind, Profile};
use crate::request::{OpContext, PackageRequest, RequestView};
use crate::rows::{self, Scanner};
use crate::session::{self, Listing, Reply, ReplyView, Step, StepView};
use crate::text::{self, Deep, Text};

verus! {

broadcast use command::group_carries;

/// Finds the manager and sets it up.
#[derive(Clone, Copy, Debug)]
pub struct Factory;

/// The factory of this backend.
pub fn factory() -> (r: Factory)
    ensures
        r == Factory,
{
    Factory
}

impl Factory {
    pub fn id(&self) -> (r: &'static str)
        ensures
            r@ == "haxelib"@,
    {
        "haxelib"
    }

    /// The programs to look for, in the order of preference.
    pub fn programs(&self) -> (r: Vec<&'static str>)
        ensures
            r@.deep() == seq!["haxelib"@],
    {
        let mut out: Vec<&'static str> = Vec::new();
        out.push("haxelib");
        assert(out@.deep() =~= seq!["haxelib"@]);
        out
    }

    /// Whether the backend can be used, given where each program was found.
    pub fn detect(&self, found: &[Option<String>]) -> (r: Detection)
        ensures
            r@ == detect::detected(found@, "`haxelib` not found on PATH"@),
    {
        detect::detect(found, "`haxelib` not found on PATH")
    }

    /// The manager, given where each program was found.
    pub fn create(&self, found: &[Option<String>]) -> (r: Result<Manager, Error>)
        ensures
            match r {
                Ok(manager) => detect::required(found@, "haxelib"@) == Ok::<Seq<char>, ErrorView>(
                    manager.program@,
                ),
                Err(error) => detect::required(found@, "haxelib"@) == Err::<Seq<char>, ErrorView>(
                    error@,
                ),
            },
    {
        match detect::require(found, "haxelib") {
            Ok(program) => Ok(Manager { program }),
            Err(error) => Err(error),
        }
    }
}

/// The manager, driving `program`.
#[derive(Debug)]
pub struct Manager {
    pub program: String,
}

impl Manager {
    /// What the manager says of itself.
    pub fn profile(&self) -> (r: Profile)
        ensures
            r.id@ == "haxelib"@,
            r.display_name@ == "haxelib"@,
            r.kind == ManagerKind::Language,
            r.database_id@ == "haxelib"@,
            r.capabilities == (Capabilities {
                search: true,
                upgrade: true,
                pin_version: true,
                ..Capabilities::basic()
            }),
            r.elevates == false,
    {
        Profile {
            id: "haxelib",
            display_name: "haxelib",
            kind: ManagerKind::Language,
            database_id: "haxelib",
            capabilities: Capabilities {
                search: true,
                upgrade: true,
                pin_version: true,
                ..basic_capabilities()
            },
            elevates: false,
        }
    }
}

/// A library as haxelib describes it.
#[derive(Debug)]
pub struct HaxelibPackage {
    pub name: String,
    pub version: Option<String>,
    pub description: Option<String>,
    pub state: InstallState,
}

impl View for HaxelibPackage {
    type V = PackageView;

    open spec fn view(&self) -> PackageView {
        PackageView {
            name: self.name@,
            version: self.version.deep(),
            description: self.description.deep(),
            state: self.state,
            ..PackageView::blank()
        }
    }
}

impl Package for HaxelibPackage {
    open spec fn manager_id() -> Seq<char> {
        "haxelib"@
    }

    fn manager(&self) -> (r: &'static str) {
        "haxelib"
    }

    fn details(&self) -> (r: Details<'_>) {
        Details {
            version: self.version.as_ref(),
            description: self.description.as_ref(),
            ..Details::of(&self.name, self.state)
        }
    }
}

/// A command with the library, and its version if one is asked for.
pub open spec fn add_request_spec(cmd: CmdView, request: RequestView) -> CmdView {
    match request.version {
        Some(version) => cmd.arg(request.name).arg(version),
        None => cmd.arg(request.name),
    }
}

pub fn add_request(cmd: Cmd, request: &PackageRequest) -> (r: Cmd)
    ensures
        r@ == add_request_spec(cmd@, request@),
{
    let cmd = cmd.arg(&request.name);
    match &request.version {
        Some(version) => cmd.arg(version),
        None => cmd,
    }
}

/// Whether a version is the active one, which stands in brackets.
pub open spec fn is_active(version: Seq<char>) -> bool {
    version.begins("["@) && version.ends("]"@)
}

/// The active one among versions, without its brackets and with dots for
/// commas.
pub open spec fn active_spec(versions: Seq<char>) -> Option<Seq<char>> {
    match rows::first(versions.words(), |v: Seq<char>| is_active(v)) {
        None => None,
        Some(v) => Some(v.trim_front("[]"@).trim_back("[]"@).replace(',', "."@)),
    }
}

fn active(versions: &[char]) -> (r: Option<String>)
    ensures
        r.deep() == active_spec(versions@),
{
    let words = text::words(versions);
    let bracketed = |v: &&[char]| -> (b: bool)
        ensures
            b == is_active(v@),
        { text::begins(*v, "[") && text::ends(*v, "]") };
    match rows::find(&words, bracketed, Ghost(|v: Seq<char>| is_active(v))) {
        None => None,
        Some(v) => {
            let bare = text::trim_back(text::trim_front(v, "[]"), "[]");
            Some(text::string(&text::replace(bare, ',', ".")))
        },
    }
}

/// An installed library: `name: versions`.
pub open spec fn list_row_spec(line: Seq<char>) -> Option<PackageView> {
    match line.cut(":"@) {
        None => None,
        Some((name, versions)) => Some(
            PackageView::versioned(name.trim(), active_spec(versions), InstallState::Installed),
        ),
    }
}

fn list_row(line: &[char]) -> (r: Option<HaxelibPackage>)
    ensures
        r.deep() == list_row_spec(line@),
{
    match text::cut(line, ":") {
        None => None,
        Some((name, versions)) => Some(
            HaxelibPackage {
                name: text::string(text::trim(name)),
                version: active(versions),
                description: None,
                state: InstallState::Installed,
            },
        ),
    }
}

/// The libraries that `haxelib list` prints.
pub open spec fn parse_list_spec(stdout: Seq<char>) -> Seq<PackageView> {
    rows::select(stdout.lines(), |line: Seq<char>| list_row_spec(line))
}

pub fn parse_list(stdout: &str) -> (r: Vec<HaxelibPackage>)
    ensures
        r@.deep() == parse_list_spec(stdout@),
        crate::package::all_in(r@.deep(), InstallState::Installed),
{
    proof {
        rows::selected_have(
            stdout@.lines(),
            |line: Seq<char>| list_row_spec(line),
            |p: PackageView| p.state == InstallState::Installed,
        );
    }
    rows::select_rows(stdout, list_row, Ghost(|line: Seq<char>| list_row_spec(line)))
}

/// The reading of `haxelib info`.
struct InfoScan {
    name: Option<String>,
    version: Option<String>,
    description: Option<String>,
}

/// The model of the reading of `haxelib info`.
pub struct InfoScanView {
    pub name: Option<Seq<char>>,
    pub version: Option<Seq<char>>,
    pub description: Option<Seq<char>>,
}

impl InfoScanView {
    pub open spec fn start() -> InfoScanView {
        InfoScanView {
            name: None,
            version: None,
            description: None,
        }
    }
}

/// The reading of `haxelib info` after one more line, `key: value`. Keys are
/// the same in upper and lower case.
pub open spec fn info_next_spec(state: InfoScanView, line: Seq<char>) -> InfoScanView {
    match line.cut(":"@) {
        None => state,
        Some((key, value)) => {
            let key = key.trim().lower();
            if key == "name"@ || key == "project"@ {
                InfoScanView { name: Some(value.trim()), ..state }
            } else if key == "current version"@ || key == "version"@ {
                InfoScanView { version: Some(value.trim()), ..state }
            } else if key == "description"@ {
                InfoScanView { description: Some(value.trim()), ..state }
            } else {
                state
            }
        },
    }
}

impl Scanner for InfoScan {
    type State = InfoScanView;

    closed spec fn state(&self) -> InfoScanView {
        InfoScanView {
            name: self.name.deep(),
            version: self.version.deep(),
            description: self.description.deep(),
        }
    }

    open spec fn next(state: InfoScanView, line: Seq<char>) -> InfoScanView {
        info_next_spec(state, line)
    }

    fn feed(&mut self, line: &[char]) {
        if let Some((key, value)) = text::cut(line, ":") {
            let key = text::lower(text::trim(key));
            let given = Some(text::string(text::trim(value)));
            if text::is(&key, "name") || text::is(&key, "project") {
                self.name = given;
            } else if text::is(&key, "current version") || text::is(&key, "version") {
                self.version = given;
            } else if text::is(&key, "description") {
                self.description = given;
            }
        }
    }
}

/// The library that `haxelib info` describes.
pub open spec fn parse_info_spec(stdout: Seq<char>) -> Option<PackageView> {
    let end = rows::scan(
        InfoScanView::start(),
        stdout.lines(),
        |state: InfoScanView, line: Seq<char>| info_next_spec(state, line),
    );
    match end.name {
        None => None,
        Some(name) => Some(
            PackageView {
                description: end.description,
                ..PackageView::versioned(name, end.version, InstallState::Available)
            },
        ),
    }
}

pub fn parse_info(stdout: &str) -> (r: Option<HaxelibPackage>)
    ensures
        r.deep() == parse_info_spec(stdout@),
{
    let start = InfoScan { name: None, version: None, description: None };
    let end = rows::scan_output(
        start,
        stdout,
        Ghost(|state: InfoScanView, line: Seq<char>| info_next_spec(state, line)),
    );
    match end.name {
        None => None,
        Some(name) => Some(
            HaxelibPackage {
                name,
                version: end.version,
                description: end.description,
                state: InstallState::Available,
            },
        ),
    }
}

/// A hit: a name, perhaps with a description behind a colon. The banner of the
/// search is no hit.
pub open spec fn search_row_spec(line: Seq<char>) -> Option<PackageView> {
    let line = line.trim();
    if line.len() == 0 || line.begins("Search"@) {
        None
    } else {
        match line.cut(":"@) {
            Some((name, description)) => Some(
                PackageView {
                    description: Some(description.trim()),
                    ..PackageView::named(name.trim(), InstallState::Available)
                },
            ),
            None => Some(PackageView::named(line.trim(), InstallState::Available)),
        }
    }
}

fn search_row(line: &[char]) -> (r: Option<HaxelibPackage>)
    ensures
        r.deep() == search_row_spec(line@),
{
    let line = text::trim(line);
    if line.len() == 0 || text::begins(line, "Search") {
        return None;
    }
    let (name, description) = match text::cut(line, ":") {
        Some((name, description)) => (name, Some(text::string(text::trim(description)))),
        None => (line, None),
    };
    Some(
        HaxelibPackage {
            name: text::string(text::trim(name)),
            version: None,
            description,
            state: InstallState::Available,
        },
    )
}

/// The libraries that `haxelib search` prints.
pub open spec fn parse_search_spec(stdout: Seq<char>) -> Seq<PackageView> {
    rows::select(stdout.lines(), |line: Seq<char>| search_row_spec(line))
}

pub fn parse_search(stdout: &str) -> (r: Vec<HaxelibPackage>)
    ensures
        r@.deep() == parse_search_spec(stdout@),
        crate::package::all_in(r@.deep(), InstallState::Available),
{
    proof {
        rows::selected_have(
            stdout@.lines(),
            |line: Seq<char>| search_row_spec(line),
            |p: PackageView| p.state == InstallState::Available,
        );
    }
    rows::select_rows(stdout, search_row, Ghost(|line: Seq<char>| search_row_spec(line)))
}

/// A library of the registry, completed by the first one in the list.
pub open spec fn merge_spec(package: PackageView, listed: Seq<PackageView>) -> PackageView {
    if listed.len() == 0 {
        package
    } else {
        PackageView { version: listed[0].version, state: InstallState::Installed, ..package }
    }
}

pub fn merge(package: HaxelibPackage, listed: Vec<HaxelibPackage>) -> (r: HaxelibPackage)
    ensures
        r@ == merge_spec(package@, listed@.deep()),
{
    if listed.len() == 0 {
        return package;
    }
    assert(listed@.deep()[0] == listed@[0]@);
    HaxelibPackage {
        version: text::copy_maybe(&listed[0].version),
        state: InstallState::Installed,
        ..package
    }
}

impl Manager {
    /// A verb, with the option before it that keeps haxelib from asking.
    pub open spec fn mutation_spec(self, verb: Seq<char>, ctx: OpContext) -> CmdView {
        CmdView::new(self.program@).flag(ctx.assume_yes, "--always"@).arg(verb)
    }

    fn mutation(&self, verb: &str, ctx: &OpContext) -> (r: Cmd)
        ensures
            r@ == self.mutation_spec(verb@, *ctx),
    {
        Cmd::new(&self.program).flag(ctx.assume_yes, "--always").arg(verb)
    }

    /// A verb for each library. A dry run is refused as soon as there is
    /// anything to do.
    pub open spec fn each_spec(
        self,
        verb: Seq<char>,
        packages: Seq<RequestView>,
        ctx: OpContext,
    ) -> Result<Seq<CmdView>, ErrorView> {
        if ctx.dry_run && packages.len() > 0 {
            Err(ErrorView::Other("haxelib: "@ + verb + " has no dry-run mode"@))
        } else {
            Ok(
                packages.map_values(
                    |q: RequestView| add_request_spec(self.mutation_spec(verb, ctx), q),
                ),
            )
        }
    }

    fn each(&self, verb: &str, packages: &[PackageRequest], ctx: &OpContext) -> (r: Plan)
        ensures
            command::plan(r) == self.each_spec(verb@, packages@.deep(), *ctx),
    {
        if ctx.dry_run && packages.len() > 0 {
            return Err(Error::Other(text::cat3("haxelib: ", verb, " has no dry-run mode")));
        }
        let one = |q: &PackageRequest| -> (c: Cmd)
            ensures
                c@ == add_request_spec(self.mutation_spec(verb@, *ctx), q@),
            { add_request(self.mutation(verb, ctx), q) };
        Ok(
            command::one_each(
                packages,
                one,
                Ghost(
                    |q: RequestView| add_request_spec(self.mutation_spec(verb@, *ctx), q),
                ),
            ),
        )
    }

    pub fn install(&self, packages: &[PackageRequest], ctx: &OpContext) -> (r: Plan)
        ensures
            command::plan(r) == self.each_spec("install"@, packages@.deep(), *ctx),
            command::all_elevated(command::plan(r), false),
            ctx.dry_run ==> (command::plan(r) matches Ok(commands) ==> commands.len() == 0),
            ctx.assume_yes ==> command::all_carry(command::plan(r), "--always"@),
            command::plan(r) == (
                if ctx.dry_run && (packages@.deep()).len() > 0 {
                    Err(ErrorView::Other("haxelib: "@ + "install"@ + " has no dry-run mode"@))
                } else {
                    Ok(
                        (packages@.deep()).map_values(
                            |q: RequestView| add_request_spec(
                                self.mutation_spec("install"@, *ctx),
                                q,
                            ),
                        ),
                    )
                }
            ),
    {
        self.each("install", packages, ctx)
    }

    pub fn remove(&self, packages: &[PackageRequest], ctx: &OpContext) -> (r: Plan)
        ensures
            command::plan(r) == self.each_spec("remove"@, packages@.deep(), *ctx),
            command::all_elevated(command::plan(r), false),
            ctx.dry_run ==> (command::plan(r) matches Ok(commands) ==> commands.len() == 0),
            ctx.assume_yes ==> command::all_carry(command::plan(r), "--always"@),
            command::plan(r) == (
                if ctx.dry_run && (packages@.deep()).len() > 0 {
                    Err(ErrorView::Other("haxelib: "@ + "remove"@ + " has no dry-run mode"@))
                } else {
                    Ok(
                        (packages@.deep()).map_values(
                            |q: RequestView| add_request_spec(
                                self.mutation_spec("remove"@, *ctx),
                                q,
                            ),
                        ),
                    )
                }
            ),
    {
        self.each("remove", packages, ctx)
    }

    /// Without names everything is upgraded.
    pub fn upgrade(&self, packages: &[PackageRequest], ctx: &OpContext) -> (r: Plan)
        ensures
            command::plan(r) == (if packages@.len() > 0 {
                self.each_spec("update"@, packages@.deep(), *ctx)
            } else if ctx.dry_run {
                Err(ErrorView::Other("haxelib: update has no dry-run mode"@))
            } else {
                command::just(self.mutation_spec("update"@, *ctx))
            }),
            command::all_elevated(command::plan(r), false),
            ctx.dry_run ==> r is Err,
            ctx.assume_yes ==> command::all_carry(command::plan(r), "--always"@),
            command::plan(r) == (
                if packages@.len() > 0 {
                    (
                        if ctx.dry_run && (packages@.deep()).len() > 0 {
                            Err(
                                ErrorView::Other(
                                    "haxelib: "@ + "update"@ + " has no dry-run mode"@,
                                ),
                            )
                        } else {
                            Ok(
                                (packages@.deep()).map_values(
                                    |q: RequestView| add_request_spec(
                                        self.mutation_spec("update"@, *ctx),
                                        q,
                                    ),
                                ),
                            )
                        }
                    )
                } else if ctx.dry_run {
                    Err(ErrorView::Other("haxelib: update has no dry-run mode"@))
                } else {
                    command::just(
                        CmdView::new(self.program@).flag(
                            ctx.assume_yes,
                            "--always"@,
                        ).arg("update"@),
                    )
                }
            ),
    {
        if packages.len() > 0 {
            return self.each("update", packages, ctx);
        }
        if ctx.dry_run {
            return Err(error::other("haxelib: update has no dry-run mode"));
        }
        Ok(command::one(self.mutation("update", ctx)))
    }

    pub fn list_installed(&self, replies: &[Reply]) -> (r: Step<Listing<HaxelibPackage>>)
        ensures
            r@ == session::listed(
                CmdView::new(self.program@).arg("list"@),
                replies@.deep(),
                |out: Seq<char>| parse_list_spec(out),
            ),
            r@.only_looks(),
    {
        session::list(
            Cmd::new(&self.program).arg("list"),
            replies,
            parse_list,
            Ghost(|out: Seq<char>| parse_list_spec(out)),
        )
    }

    pub fn search(&self, query: &str, replies: &[Reply]) -> (r: Step<Listing<HaxelibPackage>>)
        ensures
            r@ == session::listed(
                CmdView::new(self.program@).arg("search"@).arg(query@),
                replies@.deep(),
                |out: Seq<char>| parse_search_spec(out),
            ),
            r@.only_looks(),
    {
        session::list(
            Cmd::new(&self.program).arg("search").arg(query),
            replies,
            parse_search,
            Ghost(|out: Seq<char>| parse_search_spec(out)),
        )
    }

    /// The registry describes a library; the list tells what is installed.
    pub open spec fn info_spec(self, name: Seq<char>, replies: Seq<ReplyView>) -> StepView<
        PackageView,
    > {
        if replies.len() == 0 {
            session::ask(CmdView::new(self.program@).arg("info"@).arg(name))
        } else if !replies[0].success {
            StepView::Fail(ErrorView::NotFound(name))
        } else {
            match parse_info_spec(replies[0].stdout) {
                None => StepView::Fail(ErrorView::NotFound(name)),
                Some(package) => if replies.len() == 1 {
                    session::ask(CmdView::new(self.program@).arg("list"@).arg(name))
                } else {
                    StepView::Done(merge_spec(package, parse_list_spec(replies[1].stdout)))
                },
            }
        }
    }

    pub fn info(&self, name: &str, replies: &[Reply]) -> (r: Step<HaxelibPackage>)
        ensures
            r@ == self.info_spec(name@, replies@.deep()),
            r@.only_looks(),
    {
        if replies.len() == 0 {
            return session::query(Cmd::new(&self.program).arg("info").arg(name));
        }
        assert(replies@.deep()[0] == replies@[0]@);
        if !replies[0].success {
            return Step::Fail(error::not_found(name));
        }
        let package = match parse_info(&replies[0].stdout) {
            None => {
                return Step::Fail(error::not_found(name));
            },
            Some(package) => package,
        };
        if replies.len() == 1 {
            return session::query(Cmd::new(&self.program).arg("list").arg(name));
        }
        assert(replies@.deep()[1] == replies@[1]@);
        Step::Done(merge(package, parse_list(&replies[1].stdout)))
    }
}

} // verus!
