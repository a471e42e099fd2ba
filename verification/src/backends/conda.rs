//! Conda, in its base environment.
//!
//! The environments of single projects are theirs alone. Every read prints
//! JSON, so no locale matters. conda reports that nothing matches by an exit
//! code, with a `PackagesNotFoundError` in the JSON. Nothing tells what is
//! outdated but the plan of an update that is not carried out. Environments
//! belong to the user, so nothing is elevated.

use vstd::prelude::*;

use crate::command::{self, Cmd, CmdView, Plan};
use crate::data::{self, Data, DataView};
use crate::detect::{self, Detection};
use crate::error::{self, Error, ErrorView};
use crate::package::{self, Details, InstallState, Package, PackageView};
use crate::profile::{basic_capabilities, Capabilities, ManagerKind, Profile};
use crate::request::{self, OpContext, PackageRequest};
use crate::rows;
use crate::session::{self, Listing, Reply, ReplyView, Step, StepView};
use crate::text::{self, chars, Deep, Pieces, Text};

verus! {

broadcast use command::group_carries;

/// Finds the manager and sets it up.
#[derive(Clone, Copy, Debug)]
pub struct Factory;

/// The factory of this backend.
pub fn factory() -> (r: Factory)
    ensures
        r == Factory,
{
    Factory
}

impl Factory {
    pub fn id(&self) -> (r: &'static str)
        ensures
            r@ == "conda"@,
    {
        "conda"
    }

    /// The programs to look for, in the order of preference.
    pub fn programs(&self) -> (r: Vec<&'static str>)
        ensures
            r@.deep() == seq!["conda"@],
    {
        let mut out: Vec<&'static str> = Vec::new();
        out.push("conda");
        assert(out@.deep() =~= seq!["conda"@]);
        out
    }

    /// Whether the backend can be used, given where each program was found.
    pub fn detect(&self, found: &[Option<String>]) -> (r: Detection)
        ensures
            r@ == detect::detected(found@, "`conda` not found on PATH"@),
    {
        detect::detect(found, "`conda` not found on PATH")
    }

    /// The manager, given where each program was found.
    pub fn create(&self, found: &[Option<String>]) -> (r: Result<Manager, Error>)
        ensures
            match r {
                Ok(manager) => detect::required(found@, "conda"@) == Ok::<Seq<char>, ErrorView>(
                    manager.program@,
                ),
                Err(error) => detect::required(found@, "conda"@) == Err::<Seq<char>, ErrorView>(
                    error@,
                ),
            },
    {
        match detect::require(found, "conda") {
            Ok(program) => Ok(Manager { program }),
            Err(error) => Err(error),
        }
    }
}

/// The manager, driving `program`.
#[derive(Debug)]
pub struct Manager {
    pub program: String,
}

impl Manager {
    /// What the manager says of itself.
    pub fn profile(&self) -> (r: Profile)
        ensures
            r.id@ == "conda"@,
            r.display_name@ == "Conda"@,
            r.kind == ManagerKind::Universal,
            r.database_id@ == "conda"@,
            r.capabilities == (Capabilities {
                search: true,
                upgrade: true,
                list_outdated: true,
                pin_version: true,
                ..Capabilities::basic()
            }),
            r.elevates == false,
    {
        Profile {
            id: "conda",
            display_name: "Conda",
            kind: ManagerKind::Universal,
            database_id: "conda",
            capabilities: Capabilities {
                search: true,
                upgrade: true,
                list_outdated: true,
                pin_version: true,
                ..basic_capabilities()
            },
            elevates: false,
        }
    }
}

/// A package as conda describes it.
#[derive(Debug)]
pub struct CondaPackage {
    pub name: String,
    pub version: Option<String>,
    pub latest_version: Option<String>,
    pub license: Option<String>,
    pub architecture: Option<String>,
    pub origin: Option<String>,
    pub download_size: Option<u64>,
    pub dependencies: Option<Vec<String>>,
    pub state: InstallState,
}

impl View for CondaPackage {
    type V = PackageView;

    open spec fn view(&self) -> PackageView {
        PackageView {
            name: self.name@,
            version: self.version.deep(),
            latest_version: self.latest_version.deep(),
            license: self.license.deep(),
            architecture: self.architecture.deep(),
            origin: self.origin.deep(),
            download_size: self.download_size,
            dependencies: package::maybe_strings(self.dependencies),
            state: self.state,
            ..PackageView::blank()
        }
    }
}

impl Default for CondaPackage {
    fn default() -> (r: CondaPackage)
        ensures
            r@ == PackageView::blank(),
    {
        CondaPackage {
            name: String::new(),
            version: None,
            latest_version: None,
            license: None,
            architecture: None,
            origin: None,
            download_size: None,
            dependencies: None,
            state: InstallState::Unknown,
        }
    }
}

impl Package for CondaPackage {
    open spec fn manager_id() -> Seq<char> {
        "conda"@
    }

    fn manager(&self) -> (r: &'static str) {
        "conda"
    }

    fn details(&self) -> (r: Details<'_>) {
        Details {
            version: self.version.as_ref(),
            latest_version: self.latest_version.as_ref(),
            license: self.license.as_ref(),
            architecture: self.architecture.as_ref(),
            origin: self.origin.as_ref(),
            download_size: self.download_size,
            dependencies: self.dependencies.as_ref(),
            ..Details::of(&self.name, self.state)
        }
    }
}

/// `name=version` when the request pins one, the bare name otherwise.
pub fn spec(request: &PackageRequest) -> (r: String)
    ensures
        r@ == request@.pinned("="@),
{
    request.pinned("=")
}

/// JSON that a command prints, or what is wrong with it.
pub open spec fn parse_json_spec(what: Seq<char>, stdout: Seq<char>) -> Result<
    DataView,
    ErrorView,
> {
    match data::json_text(stdout) {
        Ok(json) => Ok(json),
        Err(detail) => Err(ErrorView::Parse { what: "conda "@ + what, detail }),
    }
}

pub fn parse_json(what: &str, stdout: &str) -> (r: Result<Data, Error>)
    ensures
        error::outcome_of(r) == parse_json_spec(what@, stdout@),
{
    match data::parse_json(stdout) {
        Ok(json) => Ok(json),
        Err(detail) => Err(Error::Parse { what: text::cat("conda ", what), detail }),
    }
}

/// The pattern of a search: a plain query may occur anywhere in a name.
pub open spec fn search_pattern_spec(query: Seq<char>) -> Seq<char> {
    if query.has("*"@) {
        query
    } else {
        "*"@ + query + "*"@
    }
}

fn search_pattern(query: &str) -> (r: String)
    ensures
        r@ == search_pattern_spec(query@),
{
    if text::has(&chars(query), "*") {
        text::copy(query)
    } else {
        text::cat3("*", query, "*")
    }
}

impl Manager {
    /// A subcommand on the base environment, simulated on a dry run.
    pub open spec fn mutation_spec(self, subcommand: Seq<char>, ctx: OpContext) -> CmdView {
        CmdView::new(self.program@).arg(subcommand).arg("-n"@).arg("base"@).flag(
            ctx.assume_yes,
            "-y"@,
        ).flag(ctx.dry_run, "--dry-run"@)
    }

    fn mutation(&self, subcommand: &str, ctx: &OpContext) -> (r: Cmd)
        ensures
            r@ == self.mutation_spec(subcommand@, *ctx),
    {
        Cmd::new(&self.program).arg(subcommand).arg("-n").arg("base").flag(
            ctx.assume_yes,
            "-y",
        ).flag(ctx.dry_run, "--dry-run")
    }

    /// What lists the base environment.
    pub open spec fn installed_spec(self) -> CmdView {
        CmdView::new(self.program@).arg("list"@).arg("-n"@).arg("base"@).arg("--json"@)
    }

    fn installed(&self) -> (r: Cmd)
        ensures
            r@ == self.installed_spec(),
    {
        Cmd::new(&self.program).arg("list").arg("-n").arg("base").arg("--json")
    }

    /// What searches the channels.
    pub open spec fn channels_spec(self, pattern: Seq<char>) -> CmdView {
        CmdView::new(self.program@).arg("search"@).arg(pattern).arg("--json"@)
    }

    fn channels(&self, pattern: &str) -> (r: Cmd)
        ensures
            r@ == self.channels_spec(pattern@),
    {
        Cmd::new(&self.program).arg("search").arg(pattern).arg("--json")
    }

    pub fn install(&self, packages: &[PackageRequest], ctx: &OpContext) -> (r: Plan)
        ensures
            command::plan(r) matches Ok(commands) && forall|i: int|
                0 <= i < commands.len() ==> (#[trigger] commands[i]).args[0] == "install"@,
            command::plan(r) == command::just(
                self.mutation_spec("install"@, *ctx).pinned(packages@.deep(), "="@),
            ),
            command::all_elevated(command::plan(r), false),
            ctx.dry_run ==> command::all_carry(command::plan(r), "--dry-run"@),
            ctx.assume_yes ==> command::all_carry(command::plan(r), "-y"@),
            command::plan(r) == command::just(
                CmdView::new(self.program@).arg("install"@).arg("-n"@).arg("base"@).flag(
                    ctx.assume_yes,
                    "-y"@,
                ).flag(
                    ctx.dry_run,
                    "--dry-run"@,
                ).pinned(packages@.deep(), "="@),
            ),
    {
        Ok(command::one(self.mutation("install", ctx).pinned(packages, "=")))
    }

    pub fn remove(&self, packages: &[PackageRequest], ctx: &OpContext) -> (r: Plan)
        ensures
            command::plan(r) matches Ok(commands) && forall|i: int|
                0 <= i < commands.len() ==> (#[trigger] commands[i]).args[0] == "remove"@,
            command::plan(r) == command::just(
                self.mutation_spec("remove"@, *ctx).names(packages@.deep()),
            ),
            command::all_elevated(command::plan(r), false),
            ctx.dry_run ==> command::all_carry(command::plan(r), "--dry-run"@),
            ctx.assume_yes ==> command::all_carry(command::plan(r), "-y"@),
            command::plan(r) == command::just(
                CmdView::new(self.program@).arg("remove"@).arg("-n"@).arg("base"@).flag(
                    ctx.assume_yes,
                    "-y"@,
                ).flag(
                    ctx.dry_run,
                    "--dry-run"@,
                ).names(packages@.deep()),
            ),
    {
        Ok(command::one(self.mutation("remove", ctx).names(packages)))
    }

    /// An update only moves to the newest version; a version that is asked for
    /// is installed.
    pub fn upgrade(&self, packages: &[PackageRequest], ctx: &OpContext) -> (r: Plan)
        ensures
            command::plan(r) matches Ok(commands) && forall|i: int|
                0 <= i < commands.len() ==> (#[trigger] commands[i]).args[0] == if request::first_pin(
                    packages@.deep(),
                ) is Some {
                    "install"@
                } else {
                    "update"@
                },
            command::plan(r) == command::just(
                if packages@.len() == 0 {
                    self.mutation_spec("update"@, *ctx).arg("--all"@)
                } else if request::first_pin(packages@.deep()) is Some {
                    self.mutation_spec("install"@, *ctx).pinned(packages@.deep(), "="@)
                } else {
                    self.mutation_spec("update"@, *ctx).pinned(packages@.deep(), "="@)
                },
            ),
            command::all_elevated(command::plan(r), false),
            ctx.dry_run ==> command::all_carry(command::plan(r), "--dry-run"@),
            ctx.assume_yes ==> command::all_carry(command::plan(r), "-y"@),
            command::plan(r) == command::just(
                if packages@.len() == 0 {
                    CmdView::new(self.program@).arg("update"@).arg("-n"@).arg("base"@).flag(
                        ctx.assume_yes,
                        "-y"@,
                    ).flag(
                        ctx.dry_run,
                        "--dry-run"@,
                    ).arg("--all"@)
                } else if request::first_pin(packages@.deep()) is Some {
                    CmdView::new(self.program@).arg("install"@).arg("-n"@).arg("base"@).flag(
                        ctx.assume_yes,
                        "-y"@,
                    ).flag(
                        ctx.dry_run,
                        "--dry-run"@,
                    ).pinned(packages@.deep(), "="@)
                } else {
                    CmdView::new(self.program@).arg("update"@).arg("-n"@).arg("base"@).flag(
                        ctx.assume_yes,
                        "-y"@,
                    ).flag(
                        ctx.dry_run,
                        "--dry-run"@,
                    ).pinned(packages@.deep(), "="@)
                },
            ),
    {
        if packages.len() == 0 {
            return Ok(command::one(self.mutation("update", ctx).arg("--all")));
        }
        if request::any_pin(packages) {
            Ok(command::one(self.mutation("install", ctx).pinned(packages, "=")))
        } else {
            Ok(command::one(self.mutation("update", ctx).pinned(packages, "=")))
        }
    }

    pub fn list_installed(&self, replies: &[Reply]) -> (r: Step<Listing<CondaPackage>>)
        ensures
            r@ == (if replies@.len() == 0 {
                session::ask(self.installed_spec())
            } else {
                match read_installed_spec(replies@[0]@) {
                    Ok(packages) => StepView::Done(packages),
                    Err(error) => StepView::Fail(error),
                }
            }),
            r@.only_looks(),
            r@ == (
                if replies@.len() == 0 {
                    session::ask(
                        CmdView::new(
                            self.program@,
                        ).arg("list"@).arg("-n"@).arg("base"@).arg("--json"@),
                    )
                } else {
                    match read_installed_spec(replies@[0]@) {
                        Ok(packages) => StepView::Done(packages),
                        Err(error) => StepView::Fail(error),
                    }
                }
            ),
    {
        if replies.len() == 0 {
            return session::query(self.installed());
        }
        match read_installed(&replies[0]) {
            Ok(packages) => Step::Done(Listing { packages }),
            Err(error) => Step::Fail(error),
        }
    }

    pub fn search(&self, query: &str, replies: &[Reply]) -> (r: Step<Listing<CondaPackage>>)
        ensures
            r@ == (if replies@.len() == 0 {
                session::ask(self.channels_spec(search_pattern_spec(query@)))
            } else {
                match read_channels_spec(
                    data::json_text(replies@[0].stdout@),
                    replies@[0]@,
                ) {
                    Ok(packages) => StepView::Done(packages),
                    Err(error) => StepView::Fail(error),
                }
            }),
            r@.only_looks(),
            r@ == (
                if replies@.len() == 0 {
                    session::ask(
                        CmdView::new(self.program@).arg("search"@).arg(
                            ((if query@.has("*"@) { query@ } else { "*"@ + query@ + "*"@ })),
                        ).arg("--json"@),
                    )
                } else {
                    match read_channels_spec(data::json_text(replies@[0].stdout@), replies@[0]@) {
                        Ok(packages) => StepView::Done(packages),
                        Err(error) => StepView::Fail(error),
                    }
                }
            ),
    {
        if replies.len() == 0 {
            return session::query(self.channels(&search_pattern(query)));
        }
        match read_channels(&data::parse_json(&replies[0].stdout), &replies[0]) {
            Ok(packages) => Step::Done(Listing { packages }),
            Err(error) => Step::Fail(error),
        }
    }

    /// The channels describe the package; the base environment tells whether
    /// it is installed.
    pub open spec fn info_spec(self, name: Seq<char>, replies: Seq<ReplyView>) -> StepView<
        PackageView,
    > {
        if replies.len() == 0 {
            session::ask(self.channels_spec(name))
        } else {
            match read_channels_spec(data::json_text(replies[0].stdout), replies[0]) {
                Err(error) => StepView::Fail(error),
                Ok(packages) => match session::called(packages, name) {
                    None => StepView::Fail(ErrorView::NotFound(name)),
                    Some(package) => if replies.len() == 1 {
                        session::ask(self.installed_spec())
                    } else {
                        match read_installed_spec(replies[1]) {
                            Err(error) => StepView::Fail(error),
                            Ok(installed) => StepView::Done(
                                merge_installed_spec(package, installed),
                            ),
                        }
                    },
                },
            }
        }
    }

    pub fn info(&self, name: &str, replies: &[Reply]) -> (r: Step<CondaPackage>)
        ensures
            r@ == self.info_spec(name@, replies@.deep()),
            r@.only_looks(),
    {
        if replies.len() == 0 {
            return session::query(self.channels(name));
        }
        assert(replies@.deep()[0] == replies@[0]@);
        let packages = match read_channels(&data::parse_json(&replies[0].stdout), &replies[0]) {
            Err(error) => {
                return Step::Fail(error);
            },
            Ok(packages) => packages,
        };
        let package = match session::take_called(packages, name) {
            None => {
                return Step::Fail(error::not_found(name));
            },
            Some(package) => package,
        };
        if replies.len() == 1 {
            return session::query(self.installed());
        }
        assert(replies@.deep()[1] == replies@[1]@);
        match read_installed(&replies[1]) {
            Err(error) => Step::Fail(error),
            Ok(installed) => Step::Done(merge_installed(package, installed)),
        }
    }

    /// The plan of an update of everything that is not carried out.
    pub fn list_outdated(&self, replies: &[Reply]) -> (r: Step<Listing<CondaPackage>>)
        ensures
            r@ == (if replies@.len() == 0 {
                session::ask(
                    CmdView::new(self.program@).arg("update"@).arg("-n"@).arg("base"@).arg(
                        "--all"@,
                    ).arg("--dry-run"@).arg("--json"@),
                )
            } else {
                match read_plan_spec(data::json_text(replies@[0].stdout@), replies@[0]@) {
                    Ok(packages) => StepView::Done(packages),
                    Err(error) => StepView::Fail(error),
                }
            }),
            r@.only_looks(),
    {
        if replies.len() == 0 {
            return session::query(
                Cmd::new(&self.program).arg("update").arg("-n").arg("base").arg("--all").arg(
                    "--dry-run",
                ).arg("--json"),
            );
        }
        match read_plan(&data::parse_json(&replies[0].stdout), &replies[0]) {
            Ok(packages) => Step::Done(Listing { packages }),
            Err(error) => Step::Fail(error),
        }
    }
}

/// What the listing of the base environment says.
pub open spec fn read_installed_spec(reply: ReplyView) -> Result<Seq<PackageView>, ErrorView> {
    if !reply.success {
        Err(reply.failure())
    } else {
        match parse_json_spec("list output"@, reply.stdout) {
            Ok(json) => Ok(parse_list_spec(json)),
            Err(error) => Err(error),
        }
    }
}

fn read_installed(reply: &Reply) -> (r: Result<Vec<CondaPackage>, Error>)
    ensures
        error::outcome_list(r) == read_installed_spec(reply@),
{
    if !reply.success {
        return Err(reply.failure());
    }
    match parse_json("list output", &reply.stdout) {
        Ok(json) => Ok(parse_list(&json)),
        Err(error) => Err(error),
    }
}

/// What a search says, given what its output reads as: a body that says that
/// nothing was found is an empty result, whatever the exit code.
pub open spec fn read_channels_spec(
    parsed: Result<DataView, Seq<char>>,
    reply: ReplyView,
) -> Result<Seq<PackageView>, ErrorView> {
    match parsed {
        Ok(json) => if json.get("exception_name"@).text() == Some("PackagesNotFoundError"@) {
            Ok(seq![])
        } else if !reply.success {
            Err(reply.failure())
        } else {
            Ok(parse_search_spec(json))
        },
        Err(_) => if !reply.success {
            Err(reply.failure())
        } else {
            Ok(seq![])
        },
    }
}

pub fn read_channels(parsed: &Result<Data, String>, reply: &Reply) -> (r: Result<
    Vec<CondaPackage>,
    Error,
>)
    ensures
        error::outcome_list(r) == read_channels_spec(data::reading(*parsed), reply@),
{
    match parsed {
        Ok(json) => {
            let nothing = match json.text_of("exception_name") {
                Some(name) => text::equal(name, "PackagesNotFoundError"),
                None => false,
            };
            if nothing {
                Ok(rows::empty())
            } else if !reply.success {
                Err(reply.failure())
            } else {
                Ok(parse_search(json))
            }
        },
        Err(_) => {
            if !reply.success {
                Err(reply.failure())
            } else {
                Ok(rows::empty())
            }
        },
    }
}

/// What a plan says, given what its output reads as.
pub open spec fn read_plan_spec(
    parsed: Result<DataView, Seq<char>>,
    reply: ReplyView,
) -> Result<Seq<PackageView>, ErrorView> {
    match parsed {
        Ok(json) => Ok(parse_outdated_spec(json)),
        Err(_) => if !reply.success {
            Err(reply.failure())
        } else {
            Ok(seq![])
        },
    }
}

pub fn read_plan(parsed: &Result<Data, String>, reply: &Reply) -> (r: Result<
    Vec<CondaPackage>,
    Error,
>)
    ensures
        error::outcome_list(r) == read_plan_spec(data::reading(*parsed), reply@),
{
    match parsed {
        Ok(json) => Ok(parse_outdated(json)),
        Err(_) => {
            if !reply.success {
                Err(reply.failure())
            } else {
                Ok(rows::empty())
            }
        },
    }
}

/// A package, completed by the installed one of the same name.
pub open spec fn merge_installed_spec(
    package: PackageView,
    installed: Seq<PackageView>,
) -> PackageView {
    match session::called(installed, package.name) {
        None => package,
        Some(local) => if local.version is Some && local.version != package.version {
            PackageView {
                version: local.version,
                latest_version: package.version,
                state: InstallState::Installed,
                ..package
            }
        } else {
            PackageView { state: InstallState::Installed, ..package }
        },
    }
}

pub fn merge_installed(package: CondaPackage, installed: Vec<CondaPackage>) -> (r: CondaPackage)
    ensures
        r@ == merge_installed_spec(package@, installed@.deep()),
{
    match session::take_called(installed, &package.name) {
        None => package,
        Some(local) => {
            if local.version.is_some() && !text::equal_maybe(&local.version, &package.version) {
                CondaPackage {
                    version: local.version,
                    latest_version: package.version,
                    state: InstallState::Installed,
                    ..package
                }
            } else {
                CondaPackage { state: InstallState::Installed, ..package }
            }
        },
    }
}

/// An installed package.
pub open spec fn list_entry_spec(entry: DataView) -> Option<PackageView> {
    match entry.get("name"@).text() {
        None => None,
        Some(name) => Some(
            PackageView {
                origin: entry.get("channel"@).text(),
                architecture: entry.get("platform"@).text(),
                ..PackageView::versioned(
                    name,
                    entry.get("version"@).text(),
                    InstallState::Installed,
                )
            },
        ),
    }
}

fn list_entry(entry: &Data) -> (r: Option<CondaPackage>)
    ensures
        r.deep() == list_entry_spec(entry@),
{
    match entry.string_of("name") {
        None => None,
        Some(name) => Some(
            CondaPackage {
                name,
                version: entry.string_of("version"),
                origin: entry.string_of("channel"),
                architecture: entry.string_of("platform"),
                state: InstallState::Installed,
                ..CondaPackage::default()
            },
        ),
    }
}

/// The packages that `conda list --json` prints.
pub open spec fn parse_list_spec(json: DataView) -> Seq<PackageView> {
    match json.items() {
        Some(entries) => rows::select(entries, |entry: DataView| list_entry_spec(entry)),
        None => seq![],
    }
}

pub fn parse_list(json: &Data) -> (r: Vec<CondaPackage>)
    ensures
        r@.deep() == parse_list_spec(json@),
{
    match json.items() {
        Some(entries) => data::select(
            entries,
            list_entry,
            Ghost(|entry: DataView| list_entry_spec(entry)),
        ),
        None => rows::empty(),
    }
}

/// The name of a dependency: the first word of its constraint.
pub open spec fn dependency_spec(dep: DataView) -> Option<Seq<char>> {
    match dep.text() {
        Some(text) => text.words().nth(0),
        None => None,
    }
}

fn dependency(dep: &Data) -> (r: Option<String>)
    ensures
        r.deep() == dependency_spec(dep@),
{
    match dep.text() {
        Some(text) => {
            let t = chars(text);
            let words = text::words(&t);
            text::maybe_string(text::nth(&words, 0))
        },
        None => None,
    }
}

/// The names of the dependencies of a build.
pub open spec fn dependencies_spec(deps: DataView) -> Option<Seq<Seq<char>>> {
    match deps.items() {
        Some(items) => Some(rows::select(items, |dep: DataView| dependency_spec(dep))),
        None => None,
    }
}

fn dependencies(build: &Data) -> (r: Option<Vec<String>>)
    ensures
        package::maybe_strings(r) == dependencies_spec(build@.get("depends"@)),
{
    match build.items_of("depends") {
        Some(items) => Some(
            data::select(items, dependency, Ghost(|dep: DataView| dependency_spec(dep))),
        ),
        None => None,
    }
}

/// A package of the channels: its builds are sorted, so the last one
/// describes it.
pub open spec fn search_entry_spec(entry: (Seq<char>, DataView)) -> Option<PackageView> {
    match entry.1.items() {
        Some(builds) => if builds.len() > 0 {
            let build = builds.last();
            Some(
                PackageView {
                    license: match build.get("license"@).text() {
                        Some(license) => license.filled(),
                        None => None,
                    },
                    architecture: build.get("subdir"@).text(),
                    origin: build.get("channel"@).text(),
                    download_size: build.get("size"@).count(),
                    dependencies: dependencies_spec(build.get("depends"@)),
                    ..PackageView::versioned(
                        entry.0,
                        build.get("version"@).text(),
                        InstallState::Available,
                    )
                },
            )
        } else {
            None
        },
        None => None,
    }
}

fn search_entry(name: &str, builds: &Data) -> (r: Option<CondaPackage>)
    ensures
        r.deep() == search_entry_spec((name@, builds@)),
{
    match builds.items() {
        Some(builds) => {
            if builds.len() == 0 {
                return None;
            }
            let build = &builds[builds.len() - 1];
            let license = match build.text_of("license") {
                Some(license) => text::maybe_string(text::filled(&chars(license))),
                None => None,
            };
            let download_size = match build.find("size") {
                Some(size) => size.count(),
                None => None,
            };
            Some(
                CondaPackage {
                    name: text::copy(name),
                    version: build.string_of("version"),
                    license,
                    architecture: build.string_of("subdir"),
                    origin: build.string_of("channel"),
                    download_size,
                    dependencies: dependencies(build),
                    state: InstallState::Available,
                    ..CondaPackage::default()
                },
            )
        },
        None => None,
    }
}

/// The packages that `conda search --json` prints: a table of builds by name.
pub open spec fn parse_search_spec(json: DataView) -> Seq<PackageView> {
    match json.entries() {
        Some(entries) => rows::select(
            entries,
            |entry: (Seq<char>, DataView)| search_entry_spec(entry),
        ),
        None => seq![],
    }
}

pub fn parse_search(json: &Data) -> (r: Vec<CondaPackage>)
    ensures
        r@.deep() == parse_search_spec(json@),
{
    let mut out: Vec<CondaPackage> = rows::empty();
    let entries = match json.entries() {
        Some(entries) => entries,
        None => {
            return out;
        },
    };
    let ghost all = entries@.deep();
    let mut i: usize = 0;
    while i < entries.len()
        invariant
            i <= entries.len(),
            all == entries@.deep(),
            out@.deep() == rows::select(
                all.take(i as int),
                |entry: (Seq<char>, DataView)| search_entry_spec(entry),
            ),
        decreases entries.len() - i,
    {
        assert(all.take(i + 1).drop_last() =~= all.take(i as int));
        assert(all.take(i + 1).last() == entries@[i as int]@);
        if let Some(package) = search_entry(&entries[i].0, &entries[i].1) {
            rows::push(&mut out, package);
        }
        i += 1;
    }
    assert(all.take(all.len() as int) =~= all);
    out
}

/// What a plan takes away: a name and a version.
pub open spec fn unlinked_spec(entry: DataView) -> Option<(Seq<char>, Seq<char>)> {
    match (entry.get("name"@).text(), entry.get("version"@).text()) {
        (Some(name), Some(version)) => Some((name, version)),
        _ => None,
    }
}

fn unlinked(entry: &Data) -> (r: Option<(String, String)>)
    ensures
        r.deep() == unlinked_spec(entry@),
{
    match (entry.string_of("name"), entry.string_of("version")) {
        (Some(name), Some(version)) => Some((name, version)),
        _ => None,
    }
}

/// The first of what a plan takes away under a name.
pub open spec fn taken_spec(taken: Seq<(Seq<char>, Seq<char>)>, name: Seq<char>) -> Option<
    (Seq<char>, Seq<char>),
> {
    rows::first(taken, |pair: (Seq<char>, Seq<char>)| pair.0 == name)
}

/// What a plan puts in place of another version of the same package.
pub open spec fn linked_spec(entry: DataView, taken: Seq<(Seq<char>, Seq<char>)>) -> Option<
    PackageView,
> {
    match unlinked_spec(entry) {
        None => None,
        Some((name, latest)) => match taken_spec(taken, name) {
            None => None,
            Some((_, current)) => if current == latest {
                None
            } else {
                Some(
                    PackageView {
                        latest_version: Some(latest),
                        origin: entry.get("channel"@).text(),
                        ..PackageView::versioned(name, Some(current), InstallState::Upgradable)
                    },
                )
            },
        },
    }
}

fn linked(entry: &Data, taken: &Vec<(String, String)>) -> (r: Option<CondaPackage>)
    ensures
        r.deep() == linked_spec(entry@, taken@.deep()),
{
    let (name, latest) = match unlinked(entry) {
        None => {
            return None;
        },
        Some(pair) => pair,
    };
    let ghost called = |pair: (Seq<char>, Seq<char>)| pair.0 == name@;
    let same = |pair: &(String, String)| -> (b: bool)
        ensures
            b == (pair@.0 == name@),
        { text::equal(&pair.0, &name) };
    proof {
        rows::lemma_index_is_first(taken@.deep(), called);
    }
    assert(taken_spec(taken@.deep(), name@) == rows::first(taken@.deep(), called));
    match rows::position(taken, same, Ghost(called)) {
        Some(i) => {
            assert(taken@.deep()[i as int] == taken@[i as int]@);
            let current = &taken[i].1;
            if text::equal(current, &latest) {
                return None;
            }
            Some(
                CondaPackage {
                    name: text::copy(&name),
                    version: Some(text::copy(current)),
                    latest_version: Some(latest),
                    origin: entry.string_of("channel"),
                    state: InstallState::Upgradable,
                    ..CondaPackage::default()
                },
            )
        },
        None => None,
    }
}

/// The upgrades in a plan: what it links in place of another version. New
/// dependencies and other builds of the same version are none.
pub open spec fn parse_outdated_spec(json: DataView) -> Seq<PackageView> {
    let actions = json.get("actions"@);
    let taken = match actions.get("UNLINK"@).items() {
        Some(entries) => rows::select(entries, |entry: DataView| unlinked_spec(entry)),
        None => seq![],
    };
    match actions.get("LINK"@).items() {
        Some(links) => rows::select(links, |entry: DataView| linked_spec(entry, taken)),
        None => seq![],
    }
}

pub fn parse_outdated(json: &Data) -> (r: Vec<CondaPackage>)
    ensures
        r@.deep() == parse_outdated_spec(json@),
{
    let actions = match json.find("actions") {
        Some(actions) => actions,
        None => {
            return rows::empty();
        },
    };
    let taken: Vec<(String, String)> = match actions.items_of("UNLINK") {
        Some(entries) => data::select(
            entries,
            unlinked,
            Ghost(|entry: DataView| unlinked_spec(entry)),
        ),
        None => rows::empty(),
    };
    match actions.items_of("LINK") {
        Some(links) => {
            let link = |entry: &Data| -> (o: Option<CondaPackage>)
                ensures
                    o.deep() == linked_spec(entry@, taken@.deep()),
                { linked(entry, &taken) };
            data::select(links, link, Ghost(|entry: DataView| linked_spec(entry, taken@.deep())))
        },
        None => rows::empty(),
    }
}

/// What is planned is an upgrade only where an installed version gives way to
/// another one.
pub proof fn outdated_versions_differ(json: DataView, i: int)
    requires
        0 <= i < parse_outdated_spec(json).len(),
    ensures
        ({
            let package = parse_outdated_spec(json)[i];
            &&& package.state == InstallState::Upgradable
            &&& package.version is Some
            &&& package.latest_version is Some
            &&& package.version != package.latest_version
        }),
{
    let actions = json.get("actions"@);
    let taken = match actions.get("UNLINK"@).items() {
        Some(entries) => rows::select(entries, |entry: DataView| unlinked_spec(entry)),
        None => seq![],
    };
    if let Some(links) = actions.get("LINK"@).items() {
        rows::selected_have(
            links,
            |entry: DataView| linked_spec(entry, taken),
            |p: PackageView|
                p.state == InstallState::Upgradable && p.version is Some && p.latest_version is Some
                    && p.version != p.latest_version,
        );
    }
}

} // verus!
