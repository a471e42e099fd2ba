//! PHP's Composer, in its global scope.
//!
//! The trees of single projects are theirs alone. `show --format=json` lists
//! what is installed; search and the view of the registry are text.
//! `--no-interaction` answers questions, and `--dry-run` simulates.

use vstd::prelude::*;

use crate::command::{self, Cmd, CmdView, Plan};
use crate::data::{self, Data, DataView};
use crate::detect::{self, Detection};
use crate::error::{self, Error, ErrorView};
use crate::package::{self, Details, InstallState, Package, PackageView};
use crate::profile::{basic_capabilities, Capabilities, ManagerKind, Profile};
use crate::request::{OpContext, PackageRequest};
use crate::rows::{self, Scanner};
use crate::session::{self, Listing, Reply, ReplyView, Step, StepView};
use crate::text::{self, chars, Deep, Pieces, Text};

verus! {

broadcast use command::group_carries;

/// Finds the manager and sets it up.
#[derive(Clone, Copy, Debug)]
pub struct Factory;

/// The factory of this backend.
pub fn factory() -> (r: Factory)
    ensures
        r == Factory,
{
    Factory
}

impl Factory {
    pub fn id(&self) -> (r: &'static str)
        ensures
            r@ == "composer"@,
    {
        "composer"
    }

    /// The programs to look for, in the order of preference.
    pub fn programs(&self) -> (r: Vec<&'static str>)
        ensures
            r@.deep() == seq!["composer"@],
    {
        let mut out: Vec<&'static str> = Vec::new();
        out.push("composer");
        assert(out@.deep() =~= seq!["composer"@]);
        out
    }

    /// Whether the backend can be used, given where each program was found.
    pub fn detect(&self, found: &[Option<String>]) -> (r: Detection)
        ensures
            r@ == detect::detected(found@, "`composer` not found on PATH"@),
    {
        detect::detect(found, "`composer` not found on PATH")
    }

    /// The manager, given where each program was found.
    pub fn create(&self, found: &[Option<String>]) -> (r: Result<Manager, Error>)
        ensures
            match r {
                Ok(manager) => detect::required(found@, "composer"@) == Ok::<Seq<char>, ErrorView>(
                    manager.program@,
                ),
                Err(error) => detect::required(found@, "composer"@) == Err::<Seq<char>, ErrorView>(
                    error@,
                ),
            },
    {
        match detect::require(found, "composer") {
            Ok(program) => Ok(Manager { program }),
            Err(error) => Err(error),
        }
    }
}

/// The manager, driving `program`.
#[derive(Debug)]
pub struct Manager {
    pub program: String,
}

impl Manager {
    /// What the manager says of itself.
    pub fn profile(&self) -> (r: Profile)
        ensures
            r.id@ == "composer"@,
            r.display_name@ == "Composer"@,
            r.kind == ManagerKind::Language,
            r.database_id@ == "composer"@,
            r.capabilities == (Capabilities {
                search: true,
                upgrade: true,
                list_outdated: true,
                pin_version: true,
                ..Capabilities::basic()
            }),
            r.elevates == false,
    {
        Profile {
            id: "composer",
            display_name: "Composer",
            kind: ManagerKind::Language,
            database_id: "composer",
            capabilities: Capabilities {
                search: true,
                upgrade: true,
                list_outdated: true,
                pin_version: true,
                ..basic_capabilities()
            },
            elevates: false,
        }
    }
}

/// A package as composer describes it.
#[derive(Debug)]
pub struct ComposerPackage {
    pub name: String,
    pub version: Option<String>,
    pub latest_version: Option<String>,
    pub description: Option<String>,
    pub homepage: Option<String>,
    pub license: Option<String>,
    pub dependencies: Option<Vec<String>>,
    pub state: InstallState,
}

impl View for ComposerPackage {
    type V = PackageView;

    open spec fn view(&self) -> PackageView {
        PackageView {
            name: self.name@,
            version: self.version.deep(),
            latest_version: self.latest_version.deep(),
            description: self.description.deep(),
            homepage: self.homepage.deep(),
            license: self.license.deep(),
            dependencies: package::maybe_strings(self.dependencies),
            state: self.state,
            ..PackageView::blank()
        }
    }
}

impl Default for ComposerPackage {
    fn default() -> (r: ComposerPackage)
        ensures
            r@ == PackageView::blank(),
    {
        ComposerPackage {
            name: String::new(),
            version: None,
            latest_version: None,
            description: None,
            homepage: None,
            license: None,
            dependencies: None,
            state: InstallState::Unknown,
        }
    }
}

impl Package for ComposerPackage {
    open spec fn manager_id() -> Seq<char> {
        "composer"@
    }

    fn manager(&self) -> (r: &'static str) {
        "composer"
    }

    fn details(&self) -> (r: Details<'_>) {
        Details {
            version: self.version.as_ref(),
            latest_version: self.latest_version.as_ref(),
            description: self.description.as_ref(),
            homepage: self.homepage.as_ref(),
            license: self.license.as_ref(),
            dependencies: self.dependencies.as_ref(),
            ..Details::of(&self.name, self.state)
        }
    }
}

/// `vendor/name:version` when the request pins one, the bare name otherwise.
pub fn spec(request: &PackageRequest) -> (r: String)
    ensures
        r@ == request@.pinned(":"@),
{
    request.pinned(":")
}

impl Manager {
    /// A global subcommand, simulated on a dry run.
    pub open spec fn mutation_spec(self, subcommand: Seq<char>, ctx: OpContext) -> CmdView {
        CmdView::new(self.program@).arg("global"@).arg(subcommand).flag(
            ctx.assume_yes,
            "--no-interaction"@,
        ).flag(ctx.dry_run, "--dry-run"@)
    }

    fn mutation(&self, subcommand: &str, ctx: &OpContext) -> (r: Cmd)
        ensures
            r@ == self.mutation_spec(subcommand@, *ctx),
    {
        Cmd::new(&self.program).arg("global").arg(subcommand).flag(
            ctx.assume_yes,
            "--no-interaction",
        ).flag(ctx.dry_run, "--dry-run")
    }

    /// What lists the installed packages, or only the outdated ones.
    pub open spec fn global_show_spec(self, outdated: bool) -> CmdView {
        CmdView::new(self.program@).arg("global"@).arg("show"@).arg("--format=json"@).flag(
            outdated,
            "--outdated"@,
        )
    }

    fn global_show(&self, outdated: bool) -> (r: Cmd)
        ensures
            r@ == self.global_show_spec(outdated),
    {
        Cmd::new(&self.program).arg("global").arg("show").arg("--format=json").flag(
            outdated,
            "--outdated",
        )
    }

    pub fn install(&self, packages: &[PackageRequest], ctx: &OpContext) -> (r: Plan)
        ensures
            command::plan(r) == command::just(
                self.mutation_spec("require"@, *ctx).pinned(packages@.deep(), ":"@),
            ),
            command::all_elevated(command::plan(r), false),
            ctx.dry_run ==> command::all_carry(command::plan(r), "--dry-run"@),
            ctx.assume_yes ==> command::all_carry(command::plan(r), "--no-interaction"@),
            command::plan(r) == command::just(
                CmdView::new(self.program@).arg("global"@).arg("require"@).flag(
                    ctx.assume_yes,
                    "--no-interaction"@,
                ).flag(ctx.dry_run, "--dry-run"@).pinned(packages@.deep(), ":"@),
            ),
    {
        Ok(command::one(self.mutation("require", ctx).pinned(packages, ":")))
    }

    pub fn remove(&self, packages: &[PackageRequest], ctx: &OpContext) -> (r: Plan)
        ensures
            command::plan(r) == command::just(
                self.mutation_spec("remove"@, *ctx).names(packages@.deep()),
            ),
            command::all_elevated(command::plan(r), false),
            ctx.dry_run ==> command::all_carry(command::plan(r), "--dry-run"@),
            ctx.assume_yes ==> command::all_carry(command::plan(r), "--no-interaction"@),
            command::plan(r) == command::just(
                CmdView::new(self.program@).arg("global"@).arg("remove"@).flag(
                    ctx.assume_yes,
                    "--no-interaction"@,
                ).flag(ctx.dry_run, "--dry-run"@).names(packages@.deep()),
            ),
    {
        Ok(command::one(self.mutation("remove", ctx).names(packages)))
    }

    /// Named packages are required again: that resolves a new constraint,
    /// where an update stays within the recorded one.
    pub fn upgrade(&self, packages: &[PackageRequest], ctx: &OpContext) -> (r: Plan)
        ensures
            command::plan(r) == command::just(
                if packages@.len() == 0 {
                    self.mutation_spec("update"@, *ctx)
                } else {
                    self.mutation_spec("require"@, *ctx).pinned(packages@.deep(), ":"@)
                },
            ),
            command::all_elevated(command::plan(r), false),
            ctx.dry_run ==> command::all_carry(command::plan(r), "--dry-run"@),
            ctx.assume_yes ==> command::all_carry(command::plan(r), "--no-interaction"@),
            command::plan(r) == command::just(
                if packages@.len() == 0 {
                    CmdView::new(self.program@).arg("global"@).arg("update"@).flag(
                        ctx.assume_yes,
                        "--no-interaction"@,
                    ).flag(ctx.dry_run, "--dry-run"@)
                } else {
                    CmdView::new(self.program@).arg("global"@).arg("require"@).flag(
                        ctx.assume_yes,
                        "--no-interaction"@,
                    ).flag(ctx.dry_run, "--dry-run"@).pinned(packages@.deep(), ":"@)
                },
            ),
    {
        if packages.len() == 0 {
            Ok(command::one(self.mutation("update", ctx)))
        } else {
            self.install(packages, ctx)
        }
    }

    /// The listing of the global scope.
    pub open spec fn show_step_spec(self, outdated: bool, replies: Seq<ReplyView>) -> StepView<
        Seq<PackageView>,
    > {
        if replies.len() == 0 {
            session::ask(self.global_show_spec(outdated))
        } else {
            match read_show_spec(data::json_text(replies[0].stdout), replies[0]) {
                Ok(packages) => StepView::Done(packages),
                Err(error) => StepView::Fail(error),
            }
        }
    }

    fn show_step(&self, outdated: bool, replies: &[Reply]) -> (r: Step<Listing<ComposerPackage>>)
        ensures
            r@ == self.show_step_spec(outdated, replies@.deep()),
    {
        if replies.len() == 0 {
            return session::query(self.global_show(outdated));
        }
        assert(replies@.deep()[0] == replies@[0]@);
        match read_show(&data::parse_json(&replies[0].stdout), &replies[0]) {
            Ok(packages) => Step::Done(Listing { packages }),
            Err(error) => Step::Fail(error),
        }
    }

    pub fn list_installed(&self, replies: &[Reply]) -> (r: Step<Listing<ComposerPackage>>)
        ensures
            r@ == self.show_step_spec(false, replies@.deep()),
            r@.only_looks(),
    {
        self.show_step(false, replies)
    }

    pub fn list_outdated(&self, replies: &[Reply]) -> (r: Step<Listing<ComposerPackage>>)
        ensures
            r@ == self.show_step_spec(true, replies@.deep()),
            r@.only_looks(),
    {
        self.show_step(true, replies)
    }

    pub fn search(&self, query: &str, replies: &[Reply]) -> (r: Step<Listing<ComposerPackage>>)
        ensures
            r@ == session::listed(
                CmdView::query(self.program@).arg("global"@).arg("search"@).arg(query@),
                replies@.deep(),
                |out: Seq<char>| parse_search_spec(out),
            ),
            r@.only_looks(),
            r@.in_c_locale(),
    {
        session::list(
            Cmd::query(&self.program).arg("global").arg("search").arg(query),
            replies,
            parse_search,
            Ghost(|out: Seq<char>| parse_search_spec(out)),
        )
    }

    /// The registry describes the package; the global scope tells whether it
    /// is installed.
    pub open spec fn info_spec(self, name: Seq<char>, replies: Seq<ReplyView>) -> StepView<
        PackageView,
    > {
        if replies.len() == 0 {
            session::ask(
                CmdView::query(self.program@).arg("global"@).arg("show"@).arg("--all"@).arg(name),
            )
        } else if !replies[0].success {
            StepView::Fail(ErrorView::NotFound(name))
        } else {
            match parse_show_text_spec(replies[0].stdout) {
                None => StepView::Fail(ErrorView::NotFound(name)),
                Some(package) => if replies.len() == 1 {
                    session::ask(self.global_show_spec(false))
                } else {
                    match read_show_spec(data::json_text(replies[1].stdout), replies[1]) {
                        Err(error) => StepView::Fail(error),
                        Ok(installed) => StepView::Done(merge_installed_spec(package, installed)),
                    }
                },
            }
        }
    }

    pub fn info(&self, name: &str, replies: &[Reply]) -> (r: Step<ComposerPackage>)
        ensures
            r@ == self.info_spec(name@, replies@.deep()),
            r@.only_looks(),
    {
        if replies.len() == 0 {
            return session::query(
                Cmd::query(&self.program).arg("global").arg("show").arg("--all").arg(name),
            );
        }
        assert(replies@.deep()[0] == replies@[0]@);
        if !replies[0].success {
            return Step::Fail(error::not_found(name));
        }
        let package = match parse_show_text(&replies[0].stdout) {
            None => {
                return Step::Fail(error::not_found(name));
            },
            Some(package) => package,
        };
        if replies.len() == 1 {
            return session::query(self.global_show(false));
        }
        assert(replies@.deep()[1] == replies@[1]@);
        match read_show(&data::parse_json(&replies[1].stdout), &replies[1]) {
            Err(error) => Step::Fail(error),
            Ok(installed) => Step::Done(merge_installed(package, installed)),
        }
    }
}

/// What a listing of the global scope says, given what its output reads as. A
/// scope that was never used has no `composer.json`, and nothing is installed
/// there.
pub open spec fn read_show_spec(
    parsed: Result<DataView, Seq<char>>,
    reply: ReplyView,
) -> Result<Seq<PackageView>, ErrorView> {
    match parsed {
        Ok(json) => Ok(parse_show_json_spec(json)),
        Err(_) => if reply.success || reply.stderr.has("composer.json"@) {
            Ok(seq![])
        } else {
            Err(reply.failure())
        },
    }
}

pub fn read_show(parsed: &Result<Data, String>, reply: &Reply) -> (r: Result<
    Vec<ComposerPackage>,
    Error,
>)
    ensures
        error::outcome_list(r) == read_show_spec(data::reading(*parsed), reply@),
{
    match parsed {
        Ok(json) => Ok(parse_show_json(json)),
        Err(_) => {
            if reply.success || text::has(&chars(&reply.stderr), "composer.json") {
                Ok(rows::empty())
            } else {
                Err(reply.failure())
            }
        },
    }
}

/// A package, completed by the installed one of the same name.
pub open spec fn merge_installed_spec(
    package: PackageView,
    installed: Seq<PackageView>,
) -> PackageView {
    match session::called(installed, package.name) {
        None => package,
        Some(local) => if local.version is Some && local.version != package.version {
            PackageView {
                version: local.version,
                latest_version: package.version,
                state: InstallState::Installed,
                ..package
            }
        } else {
            PackageView { state: InstallState::Installed, ..package }
        },
    }
}

pub fn merge_installed(package: ComposerPackage, installed: Vec<ComposerPackage>) -> (r:
    ComposerPackage)
    ensures
        r@ == merge_installed_spec(package@, installed@.deep()),
{
    match session::take_called(installed, &package.name) {
        None => package,
        Some(local) => {
            if local.version.is_some() && !text::equal_maybe(&local.version, &package.version) {
                ComposerPackage {
                    version: local.version,
                    latest_version: package.version,
                    state: InstallState::Installed,
                    ..package
                }
            } else {
                ComposerPackage { state: InstallState::Installed, ..package }
            }
        },
    }
}

/// An entry of the listing: `name`, `version`, `description` and, if it is
/// outdated, `latest`.
pub open spec fn show_entry_spec(entry: DataView) -> Option<PackageView> {
    let latest = entry.get("latest"@).text();
    match entry.get("name"@).text() {
        None => None,
        Some(name) => Some(
            PackageView {
                latest_version: latest,
                description: entry.get("description"@).text(),
                ..PackageView::versioned(
                    name,
                    entry.get("version"@).text(),
                    if latest is Some {
                        InstallState::Upgradable
                    } else {
                        InstallState::Installed
                    },
                )
            },
        ),
    }
}

fn show_entry(entry: &Data) -> (r: Option<ComposerPackage>)
    ensures
        r.deep() == show_entry_spec(entry@),
{
    let latest_version = entry.string_of("latest");
    match entry.string_of("name") {
        None => None,
        Some(name) => Some(
            ComposerPackage {
                name,
                version: entry.string_of("version"),
                description: entry.string_of("description"),
                state: if latest_version.is_some() {
                    InstallState::Upgradable
                } else {
                    InstallState::Installed
                },
                latest_version,
                ..ComposerPackage::default()
            },
        ),
    }
}

/// The packages of the listing: the entries of `installed`.
pub open spec fn parse_show_json_spec(json: DataView) -> Seq<PackageView> {
    match json.get("installed"@).items() {
        Some(entries) => rows::select(entries, |entry: DataView| show_entry_spec(entry)),
        None => seq![],
    }
}

pub fn parse_show_json(json: &Data) -> (r: Vec<ComposerPackage>)
    ensures
        r@.deep() == parse_show_json_spec(json@),
{
    match json.items_of("installed") {
        Some(entries) => data::select(
            entries,
            show_entry,
            Ghost(|entry: DataView| show_entry_spec(entry)),
        ),
        None => rows::empty(),
    }
}

/// A hit of `composer search`: `vendor/name description…`.
pub open spec fn search_row_spec(line: Seq<char>) -> Option<PackageView> {
    let end = text::find_blank(line, true) as int;
    let name = line.take(end);
    if !name.has("/"@) {
        None
    } else {
        Some(
            PackageView {
                description: if end < line.len() {
                    line.skip(end + 1).trim().filled()
                } else {
                    None
                },
                ..PackageView::named(name, InstallState::Available)
            },
        )
    }
}

fn search_row(line: &[char]) -> (r: Option<ComposerPackage>)
    ensures
        r.deep() == search_row_spec(line@),
{
    let end = text::position_blank(line, true);
    let name = text::head(line, end);
    if !text::has(name, "/") {
        return None;
    }
    let description = if end < line.len() {
        text::filled(text::trim(text::tail(line, end + 1)))
    } else {
        None
    };
    Some(
        ComposerPackage {
            name: text::string(name),
            description: text::maybe_string(description),
            state: InstallState::Available,
            ..ComposerPackage::default()
        },
    )
}

/// The packages that `composer search` prints.
pub open spec fn parse_search_spec(stdout: Seq<char>) -> Seq<PackageView> {
    rows::select(stdout.lines(), |line: Seq<char>| search_row_spec(line))
}

pub fn parse_search(stdout: &str) -> (r: Vec<ComposerPackage>)
    ensures
        r@.deep() == parse_search_spec(stdout@),
        crate::package::all_in(r@.deep(), InstallState::Available),
{
    proof {
        rows::selected_have(
            stdout@.lines(),
            |line: Seq<char>| search_row_spec(line),
            |p: PackageView| p.state == InstallState::Available,
        );
    }
    rows::select_rows(stdout, search_row, Ghost(|line: Seq<char>| search_row_spec(line)))
}

/// The versions of a list, without the mark of the installed one.
pub open spec fn version_entries_spec(list: Seq<char>) -> Seq<Seq<char>> {
    rows::select(
        list.split(","@),
        |entry: Seq<char>| entry.trim().trim_front("*"@).trim_start().filled(),
    )
}

/// The first released version of a list; branches under development stand
/// before the releases.
pub open spec fn pick_version_spec(list: Seq<char>) -> Option<Seq<char>> {
    let entries = version_entries_spec(list);
    let released = rows::first(entries, |entry: Seq<char>| !entry.has("dev"@));
    if released is Some {
        released
    } else {
        entries.nth(0)
    }
}

fn choose_version(list: &[char]) -> (r: Option<String>)
    ensures
        r.deep() == pick_version_spec(list@),
{
    let parts = text::split(list, ",");
    let clean = |entry: &[char]| -> (o: Option<String>)
        ensures
            o.deep() == entry@.trim().trim_front("*"@).trim_start().filled(),
        {
            text::maybe_string(
                text::filled(text::trim_start(text::trim_front(text::trim(entry), "*"))),
            )
        };
    let mut entries = rows::select_lines(
        &parts,
        clean,
        Ghost(|entry: Seq<char>| entry.trim().trim_front("*"@).trim_start().filled()),
    );
    let released = |entry: &String| -> (b: bool)
        ensures
            b == !entry@.has("dev"@),
        { !text::has(&chars(entry), "dev") };
    proof {
        rows::lemma_index_is_first(entries@.deep(), |entry: Seq<char>| !entry.has("dev"@));
    }
    match rows::position(&entries, released, Ghost(|entry: Seq<char>| !entry.has("dev"@))) {
        Some(i) => Some(entries.swap_remove(i)),
        None => {
            if entries.len() > 0 {
                Some(entries.swap_remove(0))
            } else {
                None
            }
        },
    }
}

pub fn pick_version(list: &str) -> (r: Option<String>)
    ensures
        r.deep() == pick_version_spec(list@),
{
    let t = chars(list);
    choose_version(&t)
}

/// Whether a word names a dependency: a package, or a part of the platform.
pub open spec fn is_dependency_name_spec(token: Seq<char>) -> bool {
    ||| token.has("/"@)
    ||| token == "php"@
    ||| token.begins("php-"@)
    ||| token.begins("ext-"@)
    ||| token.begins("lib-"@)
    ||| token.begins("composer-"@)
}

fn names_dependency(token: &[char]) -> (r: bool)
    ensures
        r == is_dependency_name_spec(token@),
{
    text::has(token, "/") || text::is(token, "php") || text::begins(token, "php-")
        || text::begins(token, "ext-") || text::begins(token, "lib-") || text::begins(
        token,
        "composer-",
    )
}

pub fn is_dependency_name(token: &str) -> (r: bool)
    ensures
        r == is_dependency_name_spec(token@),
{
    let t = chars(token);
    names_dependency(&t)
}

/// The reading of `composer show --all`.
struct ShowScan {
    package: ComposerPackage,
    in_requires: bool,
}

/// The model of the reading of `composer show --all`.
pub struct ShowScanView {
    pub package: PackageView,
    pub in_requires: bool,
}

/// The field that a line holds: a key without a space, and a value.
pub open spec fn show_field_spec(line: Seq<char>) -> Option<(Seq<char>, Seq<char>)> {
    match line.cut(":"@) {
        Some((key, value)) => if key.trim().len() > 0 && !key.trim().has(" "@) {
            Some((key.trim(), value.trim()))
        } else {
            None
        },
        None => None,
    }
}

fn show_field(line: &[char]) -> (r: Option<(&[char], &[char])>)
    ensures
        r.deep() == show_field_spec(line@),
{
    match text::cut(line, ":") {
        Some((key, value)) => {
            let key = text::trim(key);
            if key.len() > 0 && !text::has(key, " ") {
                Some((key, text::trim(value)))
            } else {
                None
            }
        },
        None => None,
    }
}

/// A package after a field.
pub open spec fn set_field_spec(package: PackageView, key: Seq<char>, value: Seq<char>) ->
    PackageView {
    if value.len() == 0 {
        package
    } else if key == "name"@ {
        PackageView { name: value, ..package }
    } else if key == "descrip."@ {
        PackageView { description: Some(value), ..package }
    } else if key == "homepage"@ {
        PackageView { homepage: Some(value), ..package }
    } else if key == "license"@ {
        PackageView { license: Some(value), ..package }
    } else if key == "versions"@ {
        PackageView { version: pick_version_spec(value), ..package }
    } else {
        package
    }
}

fn set_field(package: ComposerPackage, key: &[char], value: &[char]) -> (r: ComposerPackage)
    ensures
        r@ == set_field_spec(package@, key@, value@),
{
    let mut package = package;
    if value.len() == 0 {
        return package;
    }
    if text::is(key, "name") {
        package.name = text::string(value);
    } else if text::is(key, "descrip.") {
        package.description = Some(text::string(value));
    } else if text::is(key, "homepage") {
        package.homepage = Some(text::string(value));
    } else if text::is(key, "license") {
        package.license = Some(text::string(value));
    } else if text::is(key, "versions") {
        package.version = choose_version(value);
    }
    package
}

/// The reading of `composer show --all` after one more line: fields, and below
/// `requires` the dependencies, up to the first line that names none.
pub open spec fn show_next_spec(state: ShowScanView, line: Seq<char>) -> ShowScanView {
    let text = line.trim();
    let package = state.package;
    if text.len() == 0 {
        state
    } else if text == "requires"@ {
        ShowScanView {
            package: PackageView {
                dependencies: if package.dependencies is None {
                    Some(seq![])
                } else {
                    package.dependencies
                },
                ..package
            },
            in_requires: true,
        }
    } else {
        match show_field_spec(line) {
            Some((key, value)) => ShowScanView {
                package: set_field_spec(package, key, value),
                in_requires: false,
            },
            None => match text.words().nth(0) {
                Some(word) if state.in_requires && is_dependency_name_spec(word) => ShowScanView {
                    package: PackageView {
                        dependencies: match package.dependencies {
                            Some(dependencies) => Some(dependencies.push(word)),
                            None => None,
                        },
                        ..package
                    },
                    ..state
                },
                _ => ShowScanView { in_requires: false, ..state },
            },
        }
    }
}

fn add_dependency(package: ComposerPackage, word: &[char]) -> (r: ComposerPackage)
    ensures
        r@ == (PackageView {
            dependencies: match package@.dependencies {
                Some(dependencies) => Some(dependencies.push(word@)),
                None => None,
            },
            ..package@
        }),
{
    let mut package = package;
    if let Some(dependencies) = package.dependencies {
        let mut dependencies = dependencies;
        rows::push(&mut dependencies, text::string(word));
        package.dependencies = Some(dependencies);
    }
    package
}

impl Scanner for ShowScan {
    type State = ShowScanView;

    closed spec fn state(&self) -> ShowScanView {
        ShowScanView { package: self.package@, in_requires: self.in_requires }
    }

    open spec fn next(state: ShowScanView, line: Seq<char>) -> ShowScanView {
        show_next_spec(state, line)
    }

    fn feed(&mut self, line: &[char]) {
        let text = text::trim(line);
        if text.len() == 0 {
            return;
        }
        if text::is(text, "requires") {
            if self.package.dependencies.is_none() {
                self.package.dependencies = Some(rows::empty());
            }
            self.in_requires = true;
            return;
        }
        let mut package = ComposerPackage::default();
        std::mem::swap(&mut package, &mut self.package);
        if let Some((key, value)) = show_field(line) {
            self.package = set_field(package, key, value);
            self.in_requires = false;
            return;
        }
        let words = text::words(text);
        if self.in_requires && words.len() > 0 && names_dependency(words[0]) {
            self.package = add_dependency(package, words[0]);
        } else {
            self.package = package;
            self.in_requires = false;
        }
    }
}

/// The package that `composer show --all` describes.
pub open spec fn parse_show_text_spec(stdout: Seq<char>) -> Option<PackageView> {
    let package = rows::scan(
        ShowScanView {
            package: PackageView::named(seq![], InstallState::Available),
            in_requires: false,
        },
        stdout.lines(),
        |state: ShowScanView, line: Seq<char>| show_next_spec(state, line),
    ).package;
    if package.name.len() > 0 {
        Some(package)
    } else {
        None
    }
}

pub fn parse_show_text(stdout: &str) -> (r: Option<ComposerPackage>)
    ensures
        r.deep() == parse_show_text_spec(stdout@),
{
    let package = rows::scan_output(
        ShowScan {
            package: ComposerPackage {
                state: InstallState::Available,
                ..ComposerPackage::default()
            },
            in_requires: false,
        },
        stdout,
        Ghost(|state: ShowScanView, line: Seq<char>| show_next_spec(state, line)),
    ).package;
    if chars(&package.name).len() > 0 {
        Some(package)
    } else {
        None
    }
}

} // verus!
