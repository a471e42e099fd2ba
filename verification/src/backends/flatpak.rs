//! Flatpak applications.
//!
//! Only applications are listed: runtimes come and go with them. Names are
//! application ids. Reads name the columns that they want, which come parted
//! by tabs and without a heading. Flatpak asks for its privileges itself, so
//! nothing is elevated, and it has no dry run.

use vstd::prelude::*;

use crate::command::{self, Cmd, CmdView, Plan};
use crate::detect::{self, Detection};
use crate::error::{self, Error, ErrorView};
use crate::package::{self, Details, InstallState, Package, PackageView};
use crate::profile::{basic_capabilities, Capabilities, ManagerKind, Profile};
use crate::request::{self, OpContext, PackageRequest, RequestView};
use crate::rows::{self, Scanner};
use crate::session::{self, Listing, Reply, ReplyView, Step, StepView};
use crate::text::{self, chars, Deep, Text};

verus! {

broadcast use command::group_carries;

/// Finds the manager and sets it up.
#[derive(Clone, Copy, Debug)]
pub struct Factory;

/// The factory of this backend.
pub fn factory() -> (r: Factory)
    ensures
        r == Factory,
{
    Factory
}

impl Factory {
    pub fn id(&self) -> (r: &'static str)
        ensures
            r@ == "flatpak"@,
    {
        "flatpak"
    }

    /// The programs to look for, in the order of preference.
    pub fn programs(&self) -> (r: Vec<&'static str>)
        ensures
            r@.deep() == seq!["flatpak"@],
    {
        let mut out: Vec<&'static str> = Vec::new();
        out.push("flatpak");
        assert(out@.deep() =~= seq!["flatpak"@]);
        out
    }

    /// Whether the backend can be used, given where each program was found.
    pub fn detect(&self, found: &[Option<String>]) -> (r: Detection)
        ensures
            r@ == detect::detected(found@, "`flatpak` not found on PATH"@),
    {
        detect::detect(found, "`flatpak` not found on PATH")
    }

    /// The manager, given where each program was found.
    pub fn create(&self, found: &[Option<String>]) -> (r: Result<Manager, Error>)
        ensures
            match r {
                Ok(manager) => detect::required(found@, "flatpak"@) == Ok::<Seq<char>, ErrorView>(
                    manager.program@,
                ),
                Err(error) => detect::required(found@, "flatpak"@) == Err::<Seq<char>, ErrorView>(
                    error@,
                ),
            },
    {
        match detect::require(found, "flatpak") {
            Ok(program) => Ok(Manager { program }),
            Err(error) => Err(error),
        }
    }
}

/// The manager, driving `program`.
#[derive(Debug)]
pub struct Manager {
    pub program: String,
}

impl Manager {
    /// What the manager says of itself.
    pub fn profile(&self) -> (r: Profile)
        ensures
            r.id@ == "flatpak"@,
            r.display_name@ == "Flatpak"@,
            r.kind == ManagerKind::Universal,
            r.database_id@ == "flatpak"@,
            r.capabilities == (Capabilities {
                search: true,
                refresh: true,
                upgrade: true,
                list_outdated: true,
                ..Capabilities::basic()
            }),
            r.elevates == false,
    {
        Profile {
            id: "flatpak",
            display_name: "Flatpak",
            kind: ManagerKind::Universal,
            database_id: "flatpak",
            capabilities: Capabilities {
                search: true,
                refresh: true,
                upgrade: true,
                list_outdated: true,
                ..basic_capabilities()
            },
            elevates: false,
        }
    }
}

/// A package as flatpak describes it.
#[derive(Debug)]
pub struct FlatpakPackage {
    pub name: String,
    pub version: Option<String>,
    pub latest_version: Option<String>,
    pub description: Option<String>,
    pub license: Option<String>,
    pub architecture: Option<String>,
    pub origin: Option<String>,
    pub dependencies: Option<Vec<String>>,
    pub state: InstallState,
}

impl View for FlatpakPackage {
    type V = PackageView;

    open spec fn view(&self) -> PackageView {
        PackageView {
            name: self.name@,
            version: self.version.deep(),
            latest_version: self.latest_version.deep(),
            description: self.description.deep(),
            license: self.license.deep(),
            architecture: self.architecture.deep(),
            origin: self.origin.deep(),
            dependencies: package::maybe_strings(self.dependencies),
            state: self.state,
            ..PackageView::blank()
        }
    }
}

impl Default for FlatpakPackage {
    fn default() -> (r: FlatpakPackage)
        ensures
            r@ == PackageView::blank(),
    {
        FlatpakPackage {
            name: String::new(),
            version: None,
            latest_version: None,
            description: None,
            license: None,
            architecture: None,
            origin: None,
            dependencies: None,
            state: InstallState::Unknown,
        }
    }
}

impl Package for FlatpakPackage {
    open spec fn manager_id() -> Seq<char> {
        "flatpak"@
    }

    fn manager(&self) -> (r: &'static str) {
        "flatpak"
    }

    fn details(&self) -> (r: Details<'_>) {
        Details {
            version: self.version.as_ref(),
            latest_version: self.latest_version.as_ref(),
            description: self.description.as_ref(),
            license: self.license.as_ref(),
            architecture: self.architecture.as_ref(),
            origin: self.origin.as_ref(),
            dependencies: self.dependencies.as_ref(),
            ..Details::of(&self.name, self.state)
        }
    }
}

/// A ref has branches, no versions.
pub open spec fn reject_pins_spec(requests: Seq<RequestView>) -> Result<(), ErrorView> {
    request::pins_refused(
        requests,
        "flatpak: `"@,
        "` pins a version, but flatpak only installs a ref's branch head"@,
    )
}

pub fn reject_pins(requests: &[PackageRequest]) -> (r: Result<(), Error>)
    ensures
        error::outcome(r) == reject_pins_spec(requests@.deep()),
{
    request::refuse_pins(
        requests,
        "flatpak: `",
        "` pins a version, but flatpak only installs a ref's branch head",
    )
}

impl Manager {
    /// A subcommand, which does not ask when told so.
    pub open spec fn mutation_spec(self, subcommand: Seq<char>, ctx: OpContext) -> CmdView {
        CmdView::new(self.program@).arg(subcommand).flag(
            ctx.assume_yes,
            "--noninteractive"@,
        ).flag(ctx.assume_yes, "--assumeyes"@)
    }

    fn mutation(&self, subcommand: &str, ctx: &OpContext) -> (r: Cmd)
        ensures
            r@ == self.mutation_spec(subcommand@, *ctx),
    {
        Cmd::new(&self.program).arg(subcommand).flag(ctx.assume_yes, "--noninteractive").flag(
            ctx.assume_yes,
            "--assumeyes",
        )
    }

    /// What lists the installed applications.
    pub open spec fn list_command_spec(self) -> CmdView {
        CmdView::query(self.program@).arg("list"@).arg("--app"@).arg(
            "--columns=application,version,name,origin"@,
        )
    }

    fn list_command(&self) -> (r: Cmd)
        ensures
            r@ == self.list_command_spec(),
    {
        Cmd::query(&self.program).arg("list").arg("--app").arg(
            "--columns=application,version,name,origin",
        )
    }

    /// What searches the remotes.
    pub open spec fn search_command_spec(self, query: Seq<char>) -> CmdView {
        CmdView::query(self.program@).arg("search"@).arg(
            "--columns=application,version,remotes,description"@,
        ).arg(query)
    }

    fn search_command(&self, query: &str) -> (r: Cmd)
        ensures
            r@ == self.search_command_spec(query@),
    {
        Cmd::query(&self.program).arg("search").arg(
            "--columns=application,version,remotes,description",
        ).arg(query)
    }

    pub fn install(&self, packages: &[PackageRequest], ctx: &OpContext) -> (r: Plan)
        ensures
            command::plan(r) == match reject_pins_spec(packages@.deep()) {
                Err(error) => Err(error),
                Ok(_) => if ctx.dry_run {
                    Err(ErrorView::Other("flatpak: install has no dry-run mode"@))
                } else {
                    command::just(self.mutation_spec("install"@, *ctx).names(packages@.deep()))
                },
            },
            command::all_elevated(command::plan(r), false),
            ctx.dry_run ==> r is Err,
            request::first_pin(packages@.deep()) is Some ==> r is Err,
            ctx.assume_yes ==> command::all_carry(command::plan(r), "--noninteractive"@),
            command::plan(r) == match (
                request::pins_refused(
                    packages@.deep(),
                    "flatpak: `"@,
                    "` pins a version, but flatpak only installs a ref's branch head"@,
                )
            ) {
                Err(error) => Err(error),
                Ok(_) => if ctx.dry_run {
                    Err(ErrorView::Other("flatpak: install has no dry-run mode"@))
                } else {
                    command::just(
                        CmdView::new(self.program@).arg("install"@).flag(
                            ctx.assume_yes,
                            "--noninteractive"@,
                        ).flag(ctx.assume_yes, "--assumeyes"@).names(packages@.deep()),
                    )
                },
            },
    {
        if let Err(error) = reject_pins(packages) {
            return Err(error);
        }
        if ctx.dry_run {
            return Err(error::other("flatpak: install has no dry-run mode"));
        }
        Ok(command::one(self.mutation("install", ctx).names(packages)))
    }

    pub fn remove(&self, packages: &[PackageRequest], ctx: &OpContext) -> (r: Plan)
        ensures
            command::plan(r) == if ctx.dry_run {
                Err(ErrorView::Other("flatpak: uninstall has no dry-run mode"@))
            } else {
                command::just(self.mutation_spec("uninstall"@, *ctx).names(packages@.deep()))
            },
            command::all_elevated(command::plan(r), false),
            ctx.dry_run ==> r is Err,
            ctx.assume_yes ==> command::all_carry(command::plan(r), "--noninteractive"@),
            command::plan(r) == if ctx.dry_run {
                Err(ErrorView::Other("flatpak: uninstall has no dry-run mode"@))
            } else {
                command::just(
                    CmdView::new(self.program@).arg("uninstall"@).flag(
                        ctx.assume_yes,
                        "--noninteractive"@,
                    ).flag(ctx.assume_yes, "--assumeyes"@).names(packages@.deep()),
                )
            },
    {
        if ctx.dry_run {
            return Err(error::other("flatpak: uninstall has no dry-run mode"));
        }
        Ok(command::one(self.mutation("uninstall", ctx).names(packages)))
    }

    /// Without names everything is upgraded.
    pub fn upgrade(&self, packages: &[PackageRequest], ctx: &OpContext) -> (r: Plan)
        ensures
            command::plan(r) == match reject_pins_spec(packages@.deep()) {
                Err(error) => Err(error),
                Ok(_) => if ctx.dry_run {
                    Err(ErrorView::Other("flatpak: upgrade has no dry-run mode"@))
                } else {
                    command::just(self.mutation_spec("update"@, *ctx).names(packages@.deep()))
                },
            },
            command::all_elevated(command::plan(r), false),
            ctx.dry_run ==> r is Err,
            request::first_pin(packages@.deep()) is Some ==> r is Err,
            ctx.assume_yes ==> command::all_carry(command::plan(r), "--noninteractive"@),
            command::plan(r) == match (
                request::pins_refused(
                    packages@.deep(),
                    "flatpak: `"@,
                    "` pins a version, but flatpak only installs a ref's branch head"@,
                )
            ) {
                Err(error) => Err(error),
                Ok(_) => if ctx.dry_run {
                    Err(ErrorView::Other("flatpak: upgrade has no dry-run mode"@))
                } else {
                    command::just(
                        CmdView::new(self.program@).arg("update"@).flag(
                            ctx.assume_yes,
                            "--noninteractive"@,
                        ).flag(ctx.assume_yes, "--assumeyes"@).names(packages@.deep()),
                    )
                },
            },
    {
        if let Err(error) = reject_pins(packages) {
            return Err(error);
        }
        if ctx.dry_run {
            return Err(error::other("flatpak: upgrade has no dry-run mode"));
        }
        Ok(command::one(self.mutation("update", ctx).names(packages)))
    }

    /// What can be refreshed is the metadata of the remotes.
    pub fn refresh(&self, ctx: &OpContext) -> (r: Plan)
        ensures
            command::plan(r) == if ctx.dry_run {
                Err(ErrorView::Other("flatpak: refresh has no dry-run mode"@))
            } else {
                command::just(self.mutation_spec("update"@, *ctx).arg("--appstream"@))
            },
            command::all_elevated(command::plan(r), false),
            ctx.dry_run ==> r is Err,
            ctx.assume_yes ==> command::all_carry(command::plan(r), "--noninteractive"@),
            command::plan(r) == if ctx.dry_run {
                Err(ErrorView::Other("flatpak: refresh has no dry-run mode"@))
            } else {
                command::just(
                    CmdView::new(self.program@).arg("update"@).flag(
                        ctx.assume_yes,
                        "--noninteractive"@,
                    ).flag(ctx.assume_yes, "--assumeyes"@).arg("--appstream"@),
                )
            },
    {
        if ctx.dry_run {
            return Err(error::other("flatpak: refresh has no dry-run mode"));
        }
        Ok(command::one(self.mutation("update", ctx).arg("--appstream")))
    }

    pub fn list_installed(&self, replies: &[Reply]) -> (r: Step<Listing<FlatpakPackage>>)
        ensures
            r@ == session::listed(
                self.list_command_spec(),
                replies@.deep(),
                |out: Seq<char>| parse_list_spec(out),
            ),
            r@.only_looks(),
            r@.in_c_locale(),
            r@ == session::listed(
                CmdView::query(self.program@).arg("list"@).arg("--app"@).arg(
                    "--columns=application,version,name,origin"@,
                ),
                replies@.deep(),
                |out: Seq<char>| parse_list_spec(out),
            ),
    {
        session::list(
            self.list_command(),
            replies,
            parse_list,
            Ghost(|out: Seq<char>| parse_list_spec(out)),
        )
    }

    pub fn search(&self, query: &str, replies: &[Reply]) -> (r: Step<Listing<FlatpakPackage>>)
        ensures
            r@ == session::listed(
                self.search_command_spec(query@),
                replies@.deep(),
                |out: Seq<char>| parse_search_spec(out),
            ),
            r@.only_looks(),
            r@.in_c_locale(),
            r@ == session::listed(
                CmdView::query(self.program@).arg("search"@).arg(
                    "--columns=application,version,remotes,description"@,
                ).arg(query@),
                replies@.deep(),
                |out: Seq<char>| parse_search_spec(out),
            ),
    {
        session::list(
            self.search_command(query),
            replies,
            parse_search,
            Ghost(|out: Seq<char>| parse_search_spec(out)),
        )
    }

    /// `flatpak info` knows what is installed; anything else is looked up by
    /// its id in the remotes.
    pub open spec fn info_spec(self, name: Seq<char>, replies: Seq<ReplyView>) -> StepView<
        PackageView,
    > {
        if replies.len() == 0 {
            session::ask(CmdView::query(self.program@).arg("info"@).arg(name))
        } else if replies[0].success && parse_info_spec(replies[0].stdout) is Some {
            StepView::Done(parse_info_spec(replies[0].stdout)->0)
        } else if replies.len() == 1 {
            session::ask(self.search_command_spec(name))
        } else if !replies[1].success {
            StepView::Fail(replies[1].failure())
        } else {
            session::found(
                session::called_but_case(parse_search_spec(replies[1].stdout), name),
                name,
            )
        }
    }

    pub fn info(&self, name: &str, replies: &[Reply]) -> (r: Step<FlatpakPackage>)
        ensures
            r@ == self.info_spec(name@, replies@.deep()),
            r@.only_looks(),
            r@.in_c_locale(),
    {
        if replies.len() == 0 {
            return session::query(Cmd::query(&self.program).arg("info").arg(name));
        }
        assert(replies@.deep()[0] == replies@[0]@);
        if replies[0].success {
            if let Some(package) = parse_info(&replies[0].stdout) {
                return Step::Done(package);
            }
        }
        if replies.len() == 1 {
            return session::query(self.search_command(name));
        }
        assert(replies@.deep()[1] == replies@[1]@);
        if !replies[1].success {
            return Step::Fail(replies[1].failure());
        }
        session::find(
            session::take_called_but_case(parse_search(&replies[1].stdout), name),
            name,
        )
    }

    /// The updates of the remotes, and what is installed in their place.
    pub open spec fn list_outdated_spec(self, replies: Seq<ReplyView>) -> StepView<
        Seq<PackageView>,
    > {
        if replies.len() == 0 {
            session::ask(
                CmdView::query(self.program@).arg("remote-ls"@).arg("--updates"@).arg(
                    "--app"@,
                ).arg("--columns=application,version,origin"@),
            )
        } else if !replies[0].success {
            StepView::Fail(replies[0].failure())
        } else {
            let outdated = parse_updates_spec(replies[0].stdout);
            if outdated.len() == 0 {
                StepView::Done(seq![])
            } else if replies.len() == 1 {
                session::ask(self.list_command_spec())
            } else if !replies[1].success {
                StepView::Fail(replies[1].failure())
            } else {
                let installed = parse_list_spec(replies[1].stdout);
                StepView::Done(
                    outdated.map_values(|package: PackageView| current_spec(package, installed)),
                )
            }
        }
    }

    pub fn list_outdated(&self, replies: &[Reply]) -> (r: Step<Listing<FlatpakPackage>>)
        ensures
            r@ == self.list_outdated_spec(replies@.deep()),
            r@.only_looks(),
            r@.in_c_locale(),
    {
        if replies.len() == 0 {
            return session::query(
                Cmd::query(&self.program).arg("remote-ls").arg("--updates").arg("--app").arg(
                    "--columns=application,version,origin",
                ),
            );
        }
        assert(replies@.deep()[0] == replies@[0]@);
        if !replies[0].success {
            return Step::Fail(replies[0].failure());
        }
        let outdated = parse_updates(&replies[0].stdout);
        if outdated.len() == 0 {
            return Step::Done(session::nothing());
        }
        if replies.len() == 1 {
            return session::query(self.list_command());
        }
        assert(replies@.deep()[1] == replies@[1]@);
        if !replies[1].success {
            return Step::Fail(replies[1].failure());
        }
        let installed = parse_list(&replies[1].stdout);
        let fill = |package: FlatpakPackage| -> (p: FlatpakPackage)
            ensures
                p@ == current_spec(package@, installed@.deep()),
            { current(package, &installed) };
        Step::Done(
            Listing {
                packages: rows::map_items(
                    outdated,
                    fill,
                    Ghost(|package: PackageView| current_spec(package, installed@.deep())),
                ),
            },
        )
    }
}

/// An update, with what is installed under the same id.
pub open spec fn current_spec(package: PackageView, installed: Seq<PackageView>) -> PackageView {
    match session::called(installed, package.name) {
        None => package,
        Some(current) => PackageView {
            version: current.version,
            description: current.description,
            ..package
        },
    }
}

fn current(package: FlatpakPackage, installed: &Vec<FlatpakPackage>) -> (r: FlatpakPackage)
    ensures
        r@ == current_spec(package@, installed@.deep()),
{
    match session::find_called(installed, &package.name) {
        None => package,
        Some(current) => FlatpakPackage {
            version: text::copy_maybe(&current.version),
            description: text::copy_maybe(&current.description),
            ..package
        },
    }
}

/// A column, unless it is blank.
pub open spec fn field_spec(value: Seq<char>) -> Option<Seq<char>> {
    value.trim().filled()
}

pub fn field(value: &str) -> (r: Option<String>)
    ensures
        r.deep() == field_spec(value@),
{
    column(&chars(value))
}

fn column(value: &[char]) -> (r: Option<String>)
    ensures
        r.deep() == field_spec(value@),
{
    text::maybe_string(text::filled(text::trim(value)))
}

/// An installed application: id, version, name and origin. The name that
/// people know it by stands in for a description.
pub open spec fn list_row_spec(line: Seq<char>) -> Option<PackageView> {
    let fields = line.split("\t"@);
    if fields.len() < 4 || fields[0].trim().len() == 0 {
        None
    } else {
        Some(
            PackageView {
                description: field_spec(fields[2]),
                origin: field_spec(fields[3]),
                ..PackageView::versioned(
                    fields[0].trim(),
                    field_spec(fields[1]),
                    InstallState::Installed,
                )
            },
        )
    }
}

fn list_row(line: &[char]) -> (r: Option<FlatpakPackage>)
    ensures
        r.deep() == list_row_spec(line@),
{
    let fields = text::split(line, "\t");
    if fields.len() < 4 || text::trim(fields[0]).len() == 0 {
        return None;
    }
    Some(
        FlatpakPackage {
            name: text::string(text::trim(fields[0])),
            version: column(fields[1]),
            description: column(fields[2]),
            origin: column(fields[3]),
            state: InstallState::Installed,
            ..FlatpakPackage::default()
        },
    )
}

/// The applications that `flatpak list` prints.
pub open spec fn parse_list_spec(stdout: Seq<char>) -> Seq<PackageView> {
    rows::select(stdout.lines(), |line: Seq<char>| list_row_spec(line))
}

pub fn parse_list(stdout: &str) -> (r: Vec<FlatpakPackage>)
    ensures
        r@.deep() == parse_list_spec(stdout@),
        crate::package::all_named(r@.deep()),
        crate::package::all_in(r@.deep(), InstallState::Installed),
{
    proof {
        rows::selected_have(
            stdout@.lines(),
            |line: Seq<char>| list_row_spec(line),
            |p: PackageView| p.name.len() > 0 && p.state == InstallState::Installed,
        );
    }
    rows::select_rows(stdout, list_row, Ghost(|line: Seq<char>| list_row_spec(line)))
}

/// An application of the remotes: id, version, remotes and description, which
/// may hold tabs itself.
pub open spec fn search_row_spec(line: Seq<char>) -> Option<PackageView> {
    let fields = line.split_some(4, "\t"@);
    if fields.len() < 4 || fields[0].trim().len() == 0 {
        None
    } else {
        Some(
            PackageView {
                origin: field_spec(fields[2]),
                description: field_spec(fields[3]),
                ..PackageView::versioned(
                    fields[0].trim(),
                    field_spec(fields[1]),
                    InstallState::Available,
                )
            },
        )
    }
}

fn search_row(line: &[char]) -> (r: Option<FlatpakPackage>)
    ensures
        r.deep() == search_row_spec(line@),
{
    let fields = text::split_some(line, 4, "\t");
    if fields.len() < 4 || text::trim(fields[0]).len() == 0 {
        return None;
    }
    Some(
        FlatpakPackage {
            name: text::string(text::trim(fields[0])),
            version: column(fields[1]),
            origin: column(fields[2]),
            description: column(fields[3]),
            state: InstallState::Available,
            ..FlatpakPackage::default()
        },
    )
}

/// The applications that `flatpak search` prints.
pub open spec fn parse_search_spec(stdout: Seq<char>) -> Seq<PackageView> {
    rows::select(stdout.lines(), |line: Seq<char>| search_row_spec(line))
}

pub fn parse_search(stdout: &str) -> (r: Vec<FlatpakPackage>)
    ensures
        r@.deep() == parse_search_spec(stdout@),
        crate::package::all_named(r@.deep()),
        crate::package::all_in(r@.deep(), InstallState::Available),
{
    proof {
        rows::selected_have(
            stdout@.lines(),
            |line: Seq<char>| search_row_spec(line),
            |p: PackageView| p.name.len() > 0 && p.state == InstallState::Available,
        );
    }
    rows::select_rows(stdout, search_row, Ghost(|line: Seq<char>| search_row_spec(line)))
}

/// An update: id, the version it would install, and origin.
pub open spec fn update_row_spec(line: Seq<char>) -> Option<PackageView> {
    let fields = line.split("\t"@);
    if fields.len() < 3 || fields[0].trim().len() == 0 {
        None
    } else {
        Some(
            PackageView {
                latest_version: field_spec(fields[1]),
                origin: field_spec(fields[2]),
                ..PackageView::named(fields[0].trim(), InstallState::Upgradable)
            },
        )
    }
}

fn update_row(line: &[char]) -> (r: Option<FlatpakPackage>)
    ensures
        r.deep() == update_row_spec(line@),
{
    let fields = text::split(line, "\t");
    if fields.len() < 3 || text::trim(fields[0]).len() == 0 {
        return None;
    }
    Some(
        FlatpakPackage {
            name: text::string(text::trim(fields[0])),
            latest_version: column(fields[1]),
            origin: column(fields[2]),
            state: InstallState::Upgradable,
            ..FlatpakPackage::default()
        },
    )
}

/// The updates that `flatpak remote-ls --updates` prints.
pub open spec fn parse_updates_spec(stdout: Seq<char>) -> Seq<PackageView> {
    rows::select(stdout.lines(), |line: Seq<char>| update_row_spec(line))
}

pub fn parse_updates(stdout: &str) -> (r: Vec<FlatpakPackage>)
    ensures
        r@.deep() == parse_updates_spec(stdout@),
        crate::package::all_named(r@.deep()),
        crate::package::all_in(r@.deep(), InstallState::Upgradable),
{
    proof {
        rows::selected_have(
            stdout@.lines(),
            |line: Seq<char>| update_row_spec(line),
            |p: PackageView| p.name.len() > 0 && p.state == InstallState::Upgradable,
        );
    }
    rows::select_rows(stdout, update_row, Ghost(|line: Seq<char>| update_row_spec(line)))
}

/// The reading of `flatpak info`.
struct InfoScan {
    package: FlatpakPackage,
    started: bool,
}

/// The model of the reading of `flatpak info`.
pub struct InfoScanView {
    pub package: PackageView,
    pub started: bool,
}

impl InfoScanView {
    pub open spec fn start() -> InfoScanView {
        InfoScanView {
            package: PackageView::named(seq![], InstallState::Installed),
            started: false,
        }
    }
}

/// A package after the field `key` with a value.
pub open spec fn keyed_spec(package: PackageView, key: Seq<char>, value: Seq<char>) -> PackageView {
    if key == "ID"@ {
        PackageView { name: value, ..package }
    } else if key == "Version"@ {
        PackageView { version: Some(value), ..package }
    } else if key == "License"@ {
        PackageView { license: Some(value), ..package }
    } else if key == "Arch"@ {
        PackageView { architecture: Some(value), ..package }
    } else if key == "Origin"@ {
        PackageView { origin: Some(value), ..package }
    } else if key == "Runtime"@ {
        PackageView { dependencies: Some(seq![value]), ..package }
    } else {
        package
    }
}

fn keyed(package: FlatpakPackage, key: &[char], value: &[char]) -> (r: FlatpakPackage)
    ensures
        r@ == keyed_spec(package@, key@, value@),
{
    let given = text::string(value);
    if text::is(key, "ID") {
        FlatpakPackage { name: given, ..package }
    } else if text::is(key, "Version") {
        FlatpakPackage { version: Some(given), ..package }
    } else if text::is(key, "License") {
        FlatpakPackage { license: Some(given), ..package }
    } else if text::is(key, "Arch") {
        FlatpakPackage { architecture: Some(given), ..package }
    } else if text::is(key, "Origin") {
        FlatpakPackage { origin: Some(given), ..package }
    } else if text::is(key, "Runtime") {
        let mut runtime: Vec<String> = rows::empty();
        rows::push(&mut runtime, given);
        assert(runtime@.deep() =~= seq![value@]);
        FlatpakPackage { dependencies: Some(runtime), ..package }
    } else {
        package
    }
}

/// A package after a line with a field, `key: value`.
pub open spec fn field_line_spec(package: PackageView, line: Seq<char>) -> PackageView {
    match line.cut(":"@) {
        Some((key, value)) => if value.trim().len() > 0 {
            keyed_spec(package, key.trim(), value.trim())
        } else {
            package
        },
        None => package,
    }
}

fn field_line(package: FlatpakPackage, line: &[char]) -> (r: FlatpakPackage)
    ensures
        r@ == field_line_spec(package@, line@),
{
    match text::cut(line, ":") {
        Some((key, value)) => {
            let value = text::trim(value);
            if value.len() > 0 {
                keyed(package, text::trim(key), value)
            } else {
                package
            }
        },
        None => package,
    }
}

/// The reading of `flatpak info` after one more line. The first line that is
/// not blank may be a headline, `Name - Description`.
pub open spec fn info_next_spec(state: InfoScanView, line: Seq<char>) -> InfoScanView {
    let line = line.trim();
    if line.len() == 0 {
        state
    } else {
        InfoScanView {
            package: match line.cut(" - "@) {
                Some((title, description)) => if !state.started && !title.has(":"@) {
                    PackageView { description: field_spec(description), ..state.package }
                } else {
                    field_line_spec(state.package, line)
                },
                None => field_line_spec(state.package, line),
            },
            started: true,
        }
    }
}

impl Scanner for InfoScan {
    type State = InfoScanView;

    closed spec fn state(&self) -> InfoScanView {
        InfoScanView {
            package: self.package@,
            started: self.started,
        }
    }

    open spec fn next(state: InfoScanView, line: Seq<char>) -> InfoScanView {
        info_next_spec(state, line)
    }

    fn feed(&mut self, line: &[char]) {
        let line = text::trim(line);
        if line.len() == 0 {
            return;
        }
        let mut package = FlatpakPackage::default();
        std::mem::swap(&mut self.package, &mut package);
        let started = self.started;
        self.started = true;
        if let Some((title, description)) = text::cut(line, " - ") {
            if !started && !text::has(title, ":") {
                self.package = FlatpakPackage { description: column(description), ..package };
                return;
            }
        }
        self.package = field_line(package, line);
    }
}

/// The application that `flatpak info` describes.
pub open spec fn parse_info_spec(stdout: Seq<char>) -> Option<PackageView> {
    let end = rows::scan(
        InfoScanView::start(),
        stdout.lines(),
        |state: InfoScanView, line: Seq<char>| info_next_spec(state, line),
    );
    if end.package.name.len() == 0 {
        None
    } else {
        Some(end.package)
    }
}

pub fn parse_info(stdout: &str) -> (r: Option<FlatpakPackage>)
    ensures
        r.deep() == parse_info_spec(stdout@),
{
    let start = InfoScan {
        package: FlatpakPackage { state: InstallState::Installed, ..FlatpakPackage::default() },
        started: false,
    };
    let end = rows::scan_output(
        start,
        stdout,
        Ghost(|state: InfoScanView, line: Seq<char>| info_next_spec(state, line)),
    );
    if package::is_nameless(&end.package) {
        None
    } else {
        Some(end.package)
    }
}

} // verus!
