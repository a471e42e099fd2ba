//! Paludis, through its `cave` client.
//!
//! `cave resolve` and `cave uninstall` only display what they would do unless
//! they are given `-x`, which makes them their own dry run. Names are
//! `category/name`. `cave print-ids` is meant for scripts; what `search`,
//! `show` and `resolve` display is not, so it is read with tolerance.

use vstd::prelude::*;

use crate::command::{self, Cmd, CmdView, Plan};
use crate::detect::{self, Detection};
use crate::error::{self, Error, ErrorView};
use crate::package::{Details, InstallState, Package, PackageView};
use crate::profile::{basic_capabilities, Capabilities, ManagerKind, Profile};
use crate::request::{self, OpContext, PackageRequest, RequestView};
use crate::rows::{self, Scanner};
use crate::session::{self, Listing, Reply, ReplyView, Step, StepView};
use crate::text::{self, chars, Deep, Pieces, Text};
use crate::version;

verus! {

broadcast use command::group_carries;

/// Finds the manager and sets it up.
#[derive(Clone, Copy, Debug)]
pub struct Factory;

/// The factory of this backend.
pub fn factory() -> (r: Factory)
    ensures
        r == Factory,
{
    Factory
}

impl Factory {
    pub fn id(&self) -> (r: &'static str)
        ensures
            r@ == "cave"@,
    {
        "cave"
    }

    /// The programs to look for, in the order of preference.
    pub fn programs(&self) -> (r: Vec<&'static str>)
        ensures
            r@.deep() == seq!["cave"@],
    {
        let mut out: Vec<&'static str> = Vec::new();
        out.push("cave");
        assert(out@.deep() =~= seq!["cave"@]);
        out
    }

    /// Whether the backend can be used, given where each program was found.
    pub fn detect(&self, found: &[Option<String>]) -> (r: Detection)
        ensures
            r@ == detect::detected(found@, "`cave` not found on PATH"@),
    {
        detect::detect(found, "`cave` not found on PATH")
    }

    /// The manager, given where each program was found.
    pub fn create(&self, found: &[Option<String>]) -> (r: Result<Manager, Error>)
        ensures
            match r {
                Ok(manager) => detect::required(found@, "cave"@) == Ok::<Seq<char>, ErrorView>(
                    manager.program@,
                ),
                Err(error) => detect::required(found@, "cave"@) == Err::<Seq<char>, ErrorView>(
                    error@,
                ),
            },
    {
        match detect::require(found, "cave") {
            Ok(program) => Ok(Manager { program }),
            Err(error) => Err(error),
        }
    }
}

/// The manager, driving `program`.
#[derive(Debug)]
pub struct Manager {
    pub program: String,
}

impl Manager {
    /// What the manager says of itself.
    pub fn profile(&self) -> (r: Profile)
        ensures
            r.id@ == "cave"@,
            r.display_name@ == "Paludis"@,
            r.kind == ManagerKind::System,
            r.database_id@ == "portage"@,
            r.capabilities == (Capabilities {
                search: true,
                refresh: true,
                upgrade: true,
                list_outdated: true,
                pin_version: true,
                ..Capabilities::basic()
            }),
            r.elevates == true,
    {
        Profile {
            id: "cave",
            display_name: "Paludis",
            kind: ManagerKind::System,
            database_id: "portage",
            capabilities: Capabilities {
                search: true,
                refresh: true,
                upgrade: true,
                list_outdated: true,
                pin_version: true,
                ..basic_capabilities()
            },
            elevates: true,
        }
    }
}

/// A package as Paludis describes it.
#[derive(Debug)]
pub struct CavePackage {
    /// `category/name`.
    pub name: String,
    pub version: Option<String>,
    pub latest_version: Option<String>,
    pub description: Option<String>,
    pub homepage: Option<String>,
    pub license: Option<String>,
    pub origin: Option<String>,
    pub state: InstallState,
}

impl View for CavePackage {
    type V = PackageView;

    open spec fn view(&self) -> PackageView {
        PackageView {
            name: self.name@,
            version: self.version.deep(),
            latest_version: self.latest_version.deep(),
            description: self.description.deep(),
            homepage: self.homepage.deep(),
            license: self.license.deep(),
            origin: self.origin.deep(),
            state: self.state,
            ..PackageView::blank()
        }
    }
}

impl Default for CavePackage {
    fn default() -> (r: CavePackage)
        ensures
            r@ == PackageView::blank(),
    {
        CavePackage {
            name: String::new(),
            version: None,
            latest_version: None,
            description: None,
            homepage: None,
            license: None,
            origin: None,
            state: InstallState::Unknown,
        }
    }
}

impl Package for CavePackage {
    open spec fn manager_id() -> Seq<char> {
        "cave"@
    }

    fn manager(&self) -> (r: &'static str) {
        "cave"
    }

    fn details(&self) -> (r: Details<'_>) {
        Details {
            version: self.version.as_ref(),
            latest_version: self.latest_version.as_ref(),
            description: self.description.as_ref(),
            homepage: self.homepage.as_ref(),
            license: self.license.as_ref(),
            origin: self.origin.as_ref(),
            ..Details::of(&self.name, self.state)
        }
    }
}

/// `=name-version` when the request pins one, the bare name otherwise.
pub open spec fn exact_spec(request: RequestView) -> Seq<char> {
    match request.version {
        Some(version) => "="@ + request.name + "-"@ + version,
        None => request.name,
    }
}

pub fn spec(request: &PackageRequest) -> (r: String)
    ensures
        r@ == exact_spec(request@),
{
    match &request.version {
        Some(version) => text::cat4("=", &request.name, "-", version),
        None => text::copy(&request.name),
    }
}

/// A dry run is carried out only where a target itself says so.
proof fn lemma_not_carried_out(
    manager: Manager,
    subcommand: Seq<char>,
    ctx: OpContext,
    targets: Seq<Seq<char>>,
)
    requires
        subcommand == "resolve"@ || subcommand == "uninstall"@,
    ensures
        ctx.dry_run ==> manager.mutation_spec(subcommand, ctx).args(targets).carries("-x"@)
            == targets.contains("-x"@),
{
    reveal_strlit("-x");
    reveal_strlit("resolve");
    reveal_strlit("uninstall");
    let bare = manager.mutation_spec(subcommand, ctx);
    if ctx.dry_run {
        assert(bare.args =~= seq![subcommand]);
        assert("-x"@.len() != subcommand.len());
        assert(!bare.carries("-x"@));
    }
    command::lemma_args_carry(bare, targets, "-x"@);
}

impl Manager {
    /// An elevated subcommand, carried out unless this is a dry run.
    pub open spec fn mutation_spec(self, subcommand: Seq<char>, ctx: OpContext) -> CmdView {
        CmdView::new(self.program@).arg(subcommand).elevated().flag(!ctx.dry_run, "-x"@)
    }

    fn mutation(&self, subcommand: &str, ctx: &OpContext) -> (r: Cmd)
        ensures
            r@ == self.mutation_spec(subcommand@, *ctx),
    {
        Cmd::new(&self.program).arg(subcommand).elevated().flag(!ctx.dry_run, "-x")
    }

    /// What lists everything that is installed.
    pub open spec fn installed_spec(self) -> CmdView {
        CmdView::query(self.program@).arg("print-ids"@).arg("-m"@).arg("*/*::/"@).arg("-f"@).arg(
            "%c/%p %v\\n"@,
        )
    }

    fn installed(&self) -> (r: Cmd)
        ensures
            r@ == self.installed_spec(),
    {
        Cmd::query(&self.program).arg("print-ids").arg("-m").arg("*/*::/").arg("-f").arg(
            "%c/%p %v\\n",
        )
    }

    pub fn install(&self, packages: &[PackageRequest], ctx: &OpContext) -> (r: Plan)
        ensures
            command::plan(r) == command::just(
                self.mutation_spec("resolve"@, *ctx).args(
                    packages@.deep().map_values(|q: RequestView| exact_spec(q)),
                ),
            ),
            command::all_elevated(command::plan(r), true),
            !ctx.dry_run ==> command::all_carry(command::plan(r), "-x"@),
            ctx.dry_run && !packages@.deep().map_values(|q: RequestView| exact_spec(q)).contains(
                "-x"@,
            ) ==> command::none_carries(command::plan(r), "-x"@),
            command::plan(r) == command::just(
                CmdView::new(self.program@).arg("resolve"@).elevated().flag(
                    !ctx.dry_run,
                    "-x"@,
                ).args(
                    packages@.deep().map_values(|q: RequestView| exact_spec(q)),
                ),
            ),
    {
        proof {
            lemma_not_carried_out(
                *self,
                "resolve"@,
                *ctx,
                packages@.deep().map_values(|q: RequestView| exact_spec(q)),
            );
        }
        Ok(
            command::one(
                self.mutation("resolve", ctx).each(
                    packages,
                    spec,
                    Ghost(|q: RequestView| exact_spec(q)),
                ),
            ),
        )
    }

    pub fn remove(&self, packages: &[PackageRequest], ctx: &OpContext) -> (r: Plan)
        ensures
            command::plan(r) == command::just(
                self.mutation_spec("uninstall"@, *ctx).names(packages@.deep()),
            ),
            command::all_elevated(command::plan(r), true),
            !ctx.dry_run ==> command::all_carry(command::plan(r), "-x"@),
            ctx.dry_run && !request::names(packages@.deep()).contains("-x"@)
                ==> command::none_carries(command::plan(r), "-x"@),
            command::plan(r) == command::just(
                CmdView::new(self.program@).arg("uninstall"@).elevated().flag(
                    !ctx.dry_run,
                    "-x"@,
                ).names(packages@.deep()),
            ),
    {
        proof {
            lemma_not_carried_out(*self, "uninstall"@, *ctx, request::names(packages@.deep()));
        }
        Ok(command::one(self.mutation("uninstall", ctx).names(packages)))
    }

    pub fn upgrade(&self, packages: &[PackageRequest], ctx: &OpContext) -> (r: Plan)
        ensures
            command::plan(r) == command::just(
                if packages@.len() == 0 {
                    self.mutation_spec("resolve"@, *ctx).arg("world"@)
                } else {
                    self.mutation_spec("resolve"@, *ctx).args(
                        packages@.deep().map_values(|q: RequestView| exact_spec(q)),
                    )
                },
            ),
            command::all_elevated(command::plan(r), true),
            !ctx.dry_run ==> command::all_carry(command::plan(r), "-x"@),
            ctx.dry_run && !packages@.deep().map_values(|q: RequestView| exact_spec(q)).contains(
                "-x"@,
            ) ==> command::none_carries(command::plan(r), "-x"@),
            command::plan(r) == command::just(
                if packages@.len() == 0 {
                    CmdView::new(self.program@).arg("resolve"@).elevated().flag(
                        !ctx.dry_run,
                        "-x"@,
                    ).arg("world"@)
                } else {
                    CmdView::new(self.program@).arg("resolve"@).elevated().flag(
                        !ctx.dry_run,
                        "-x"@,
                    ).args(
                        packages@.deep().map_values(|q: RequestView| exact_spec(q)),
                    )
                },
            ),
    {
        proof {
            let bare = self.mutation_spec("resolve"@, *ctx);
            lemma_not_carried_out(*self, "resolve"@, *ctx, seq!["world"@]);
            assert(bare.arg("world"@).args =~= bare.args(seq!["world"@]).args);
            reveal_strlit("-x");
            reveal_strlit("world");
            assert("-x"@.len() != "world"@.len());
        }
        if packages.len() == 0 {
            Ok(command::one(self.mutation("resolve", ctx).arg("world")))
        } else {
            self.install(packages, ctx)
        }
    }

    pub fn refresh(&self, ctx: &OpContext) -> (r: Plan)
        ensures
            command::plan(r) == if ctx.dry_run {
                Err(ErrorView::Other("cave: refresh has no dry-run mode"@))
            } else {
                command::just(CmdView::new(self.program@).arg("sync"@).elevated())
            },
            command::all_elevated(command::plan(r), true),
            ctx.dry_run ==> r is Err,
    {
        if ctx.dry_run {
            return Err(error::other("cave: refresh has no dry-run mode"));
        }
        Ok(command::one(Cmd::new(&self.program).arg("sync").elevated()))
    }

    pub fn list_installed(&self, replies: &[Reply]) -> (r: Step<Listing<CavePackage>>)
        ensures
            r@ == session::listed(
                self.installed_spec(),
                replies@.deep(),
                |out: Seq<char>| parse_print_ids_spec(out),
            ),
            r@.only_looks(),
            r@.in_c_locale(),
            r@ == session::listed(
                CmdView::query(
                    self.program@,
                ).arg("print-ids"@).arg("-m"@).arg("*/*::/"@).arg("-f"@).arg(
                    "%c/%p %v\\n"@,
                ),
                replies@.deep(),
                |out: Seq<char>| parse_print_ids_spec(out),
            ),
    {
        session::list(
            self.installed(),
            replies,
            parse_print_ids,
            Ghost(|out: Seq<char>| parse_print_ids_spec(out)),
        )
    }

    pub fn search(&self, query: &str, replies: &[Reply]) -> (r: Step<Listing<CavePackage>>)
        ensures
            r@ == session::listed(
                CmdView::query(self.program@).arg("search"@).arg(query@),
                replies@.deep(),
                |out: Seq<char>| parse_search_spec(out),
            ),
            r@.only_looks(),
            r@.in_c_locale(),
    {
        session::list(
            Cmd::query(&self.program).arg("search").arg(query),
            replies,
            parse_search,
            Ghost(|out: Seq<char>| parse_search_spec(out)),
        )
    }

    /// A resolution of the world that is not carried out is the only preview
    /// of upgrades.
    pub fn list_outdated(&self, replies: &[Reply]) -> (r: Step<Listing<CavePackage>>)
        ensures
            r@ == session::listed(
                CmdView::query(self.program@).arg("resolve"@).arg("world"@),
                replies@.deep(),
                |out: Seq<char>| parse_resolution_spec(out),
            ),
            r@.only_looks(),
            r@.in_c_locale(),
    {
        session::list(
            Cmd::query(&self.program).arg("resolve").arg("world"),
            replies,
            parse_resolution,
            Ghost(|out: Seq<char>| parse_resolution_spec(out)),
        )
    }

    /// What `cave show` says. Where that names no installed instance, the
    /// installed packages are asked for too.
    pub open spec fn info_spec(self, name: Seq<char>, replies: Seq<ReplyView>) -> StepView<
        PackageView,
    > {
        if replies.len() == 0 {
            session::ask(CmdView::query(self.program@).arg("show"@).arg(name))
        } else if !replies[0].success {
            StepView::Fail(ErrorView::NotFound(name))
        } else {
            match parse_show_spec(replies[0].stdout) {
                None => StepView::Fail(ErrorView::NotFound(name)),
                Some(package) => if package.state == InstallState::Installed || package.state
                    == InstallState::Upgradable {
                    StepView::Done(package)
                } else if replies.len() == 1 {
                    session::ask(self.installed_spec())
                } else if !replies[1].success {
                    StepView::Fail(replies[1].failure())
                } else {
                    StepView::Done(
                        merge_installed_spec(package, parse_print_ids_spec(replies[1].stdout)),
                    )
                },
            }
        }
    }

    pub fn info(&self, name: &str, replies: &[Reply]) -> (r: Step<CavePackage>)
        ensures
            r@ == self.info_spec(name@, replies@.deep()),
            r@.only_looks(),
            r@.in_c_locale(),
    {
        if replies.len() == 0 {
            return session::query(Cmd::query(&self.program).arg("show").arg(name));
        }
        assert(replies@.deep()[0] == replies@[0]@);
        if !replies[0].success {
            return Step::Fail(error::not_found(name));
        }
        let package = match parse_show(&replies[0].stdout) {
            None => {
                return Step::Fail(error::not_found(name));
            },
            Some(package) => package,
        };
        if package.state == InstallState::Installed || package.state == InstallState::Upgradable {
            return Step::Done(package);
        }
        if replies.len() == 1 {
            return session::query(self.installed());
        }
        assert(replies@.deep()[1] == replies@[1]@);
        if !replies[1].success {
            return Step::Fail(replies[1].failure());
        }
        Step::Done(merge_installed(package, parse_print_ids(&replies[1].stdout)))
    }
}

/// A shown package, completed by the installed one of the same name, with or
/// without its category.
pub open spec fn merge_installed_spec(
    package: PackageView,
    installed: Seq<PackageView>,
) -> PackageView {
    match rows::first(
        installed,
        |p: PackageView| p.name == package.name || p.name.after_last('/') == package.name,
    ) {
        None => package,
        Some(local) => if local.version is Some && local.version != package.version {
            PackageView {
                version: local.version,
                latest_version: package.version,
                state: InstallState::Upgradable,
                ..package
            }
        } else {
            PackageView { state: InstallState::Installed, ..package }
        },
    }
}

pub fn merge_installed(package: CavePackage, installed: Vec<CavePackage>) -> (r: CavePackage)
    ensures
        r@ == merge_installed_spec(package@, installed@.deep()),
{
    let local = {
        let wanted = &package.name;
        let matching = |p: &CavePackage| -> (b: bool)
            ensures
                b == (p@.name == wanted@ || p@.name.after_last('/') == wanted@),
            {
                let name = chars(&p.name);
                text::is(&name, wanted) || text::is(text::after_last(&name, '/'), wanted)
            };
        rows::take_first(
            installed,
            matching,
            Ghost(
                |p: PackageView|
                    p.name == package@.name || p.name.after_last('/') == package@.name,
            ),
        )
    };
    match local {
        None => package,
        Some(local) => {
            if local.version.is_some() && !text::equal_maybe(&local.version, &package.version) {
                CavePackage {
                    version: local.version,
                    latest_version: package.version,
                    state: InstallState::Upgradable,
                    ..package
                }
            } else {
                CavePackage { state: InstallState::Installed, ..package }
            }
        },
    }
}

/// `name-1.2.3-r1` is `name` at `1.2.3-r1`: the version starts behind the last
/// hyphen followed by a digit.
pub fn split_pv(pf: &str) -> (r: (String, Option<String>))
    ensures
        version::name_and_version(r) == version::split_last(pf@),
{
    version::split_at_last(pf)
}

/// `category/name-version:slot::repo` as `category/name`, version and
/// repository; version and slot are optional.
pub open spec fn parse_id_spec(token: Seq<char>) -> Option<
    (Seq<char>, Option<Seq<char>>, Option<Seq<char>>),
> {
    let (left, repo) = match token.cut("::"@) {
        Some((left, repo)) => (left, Some(repo)),
        None => (token, None),
    };
    match left.split(":"@)[0].cut("/"@) {
        Some((category, pf)) => {
            let (name, version) = version::split_last(pf);
            Some((category + "/"@ + name, version, repo))
        },
        None => None,
    }
}

/// The model of a package id.
pub open spec fn id_parts(
    r: Option<(String, Option<String>, Option<String>)>,
) -> Option<(Seq<char>, Option<Seq<char>>, Option<Seq<char>>)> {
    match r {
        Some((name, version, repo)) => Some((name@, version.deep(), repo.deep())),
        None => None,
    }
}

fn read_id(token: &[char]) -> (r: Option<(String, Option<String>, Option<String>)>)
    ensures
        id_parts(r) == parse_id_spec(token@),
{
    let (left, repo) = match text::cut(token, "::") {
        Some((left, repo)) => (left, Some(repo)),
        None => (token, None),
    };
    let parts = text::split(left, ":");
    proof {
        text::lemma_split_some(left@, ":"@);
    }
    match text::cut(parts[0], "/") {
        Some((category, pf)) => {
            let (name, version) = version::at_last_dash(pf);
            Some(
                (
                    text::cat3(&text::string(category), "/", &text::string(name)),
                    text::maybe_string(version),
                    text::maybe_string(repo),
                ),
            )
        },
        None => None,
    }
}

pub fn parse_id(token: &str) -> (r: Option<(String, Option<String>, Option<String>)>)
    ensures
        id_parts(r) == parse_id_spec(token@),
{
    let t = chars(token);
    read_id(&t)
}

/// A line of `cave print-ids`: `category/name version`.
pub open spec fn print_ids_row_spec(line: Seq<char>) -> Option<PackageView> {
    let words = line.words();
    if words.len() > 0 && words[0].has("/"@) {
        Some(PackageView::versioned(words[0], words.nth(1), InstallState::Installed))
    } else {
        None
    }
}

fn print_ids_row(line: &[char]) -> (r: Option<CavePackage>)
    ensures
        r.deep() == print_ids_row_spec(line@),
{
    let words = text::words(line);
    if words.len() > 0 && text::has(words[0], "/") {
        Some(
            CavePackage {
                name: text::string(words[0]),
                version: text::maybe_string(text::nth(&words, 1)),
                state: InstallState::Installed,
                ..CavePackage::default()
            },
        )
    } else {
        None
    }
}

/// The packages that `cave print-ids` prints.
pub open spec fn parse_print_ids_spec(stdout: Seq<char>) -> Seq<PackageView> {
    rows::select(stdout.lines(), |line: Seq<char>| print_ids_row_spec(line))
}

pub fn parse_print_ids(stdout: &str) -> (r: Vec<CavePackage>)
    ensures
        r@.deep() == parse_print_ids_spec(stdout@),
        crate::package::all_named(r@.deep()),
        crate::package::all_in(r@.deep(), InstallState::Installed),
{
    proof {
        rows::selected_have(
            stdout@.lines(),
            |line: Seq<char>| print_ids_row_spec(line),
            |p: PackageView| p.name.len() > 0 && p.state == InstallState::Installed,
        );
    }
    rows::select_rows(stdout, print_ids_row, Ghost(|line: Seq<char>| print_ids_row_spec(line)))
}

/// A package with the version that is installed and the one that is to be
/// had: it can be upgraded where they differ.
pub open spec fn settled_spec(
    package: PackageView,
    installed: Option<Seq<char>>,
    available: Option<Seq<char>>,
) -> PackageView {
    match installed {
        Some(version) => if available is Some && available != installed {
            PackageView {
                version: installed,
                latest_version: available,
                state: InstallState::Upgradable,
                ..package
            }
        } else {
            PackageView { version: installed, state: InstallState::Installed, ..package }
        },
        None => PackageView { version: available, state: InstallState::Available, ..package },
    }
}

fn settled(
    package: CavePackage,
    installed: Option<String>,
    available: Option<String>,
) -> (r: CavePackage)
    ensures
        r@ == settled_spec(package@, installed.deep(), available.deep()),
{
    if installed.is_some() {
        if available.is_some() && !text::equal_maybe(&available, &installed) {
            CavePackage {
                version: installed,
                latest_version: available,
                state: InstallState::Upgradable,
                ..package
            }
        } else {
            CavePackage { version: installed, state: InstallState::Installed, ..package }
        }
    } else {
        CavePackage { version: available, state: InstallState::Available, ..package }
    }
}

/// The name in an unindented header; some versions prefix `* `.
pub open spec fn header_word_spec(line: Seq<char>) -> Option<Seq<char>> {
    line.trim_front("*"@).trim().words().nth(0)
}

fn header_word(line: &[char]) -> (r: Option<&[char]>)
    ensures
        r.deep() == header_word_spec(line@),
{
    let words = text::words(text::trim(text::trim_front(line, "*")));
    text::nth(&words, 0)
}

/// A package under its header in `cave search`, and the versions seen so far.
struct Block {
    package: CavePackage,
    installed: Option<String>,
    available: Option<String>,
}

/// The model of a package under its header.
pub struct BlockView {
    pub package: PackageView,
    pub installed: Option<Seq<char>>,
    pub available: Option<Seq<char>>,
}

impl View for Block {
    type V = BlockView;

    closed spec fn view(&self) -> BlockView {
        BlockView {
            package: self.package@,
            installed: self.installed.deep(),
            available: self.available.deep(),
        }
    }
}

impl BlockView {
    /// A block right after its header.
    pub open spec fn open(name: Seq<char>) -> BlockView {
        BlockView {
            package: PackageView::named(name, InstallState::Unknown),
            installed: None,
            available: None,
        }
    }

    /// The package of the block.
    pub open spec fn close(self) -> PackageView {
        settled_spec(self.package, self.installed, self.available)
    }
}

/// The reading of `cave search`.
struct SearchScan {
    packages: Vec<CavePackage>,
    current: Option<Block>,
}

/// The model of the reading of `cave search`.
pub struct SearchScanView {
    pub packages: Seq<PackageView>,
    pub current: Option<BlockView>,
}

impl SearchScanView {
    pub open spec fn start() -> SearchScanView {
        SearchScanView { packages: seq![], current: None }
    }

    /// The packages, with the one that is being read.
    pub open spec fn finish(self) -> Seq<PackageView> {
        match self.current {
            Some(block) => self.packages.push(block.close()),
            None => self.packages,
        }
    }
}

/// The version in a `::repo version…` line: the first word behind the
/// repository that begins with a digit.
pub open spec fn repo_version_spec(words: Seq<Seq<char>>) -> Option<Seq<char>> {
    match rows::first(text::rest_of(words, 1), |w: Seq<char>| w.begins_digit()) {
        Some(token) => Some(token.trim_back("*"@)),
        None => None,
    }
}

fn repo_version<'a>(words: &[&'a [char]]) -> (r: Option<&'a [char]>)
    ensures
        r.deep() == repo_version_spec(words@.deep()),
{
    let digit = |w: &&'a [char]| -> (b: bool)
        ensures
            b == w@.begins_digit(),
        { text::begins_digit(*w) };
    match rows::find(text::rest(words, 1), digit, Ghost(|w: Seq<char>| w.begins_digit())) {
        Some(token) => Some(text::trim_back(token, "*")),
        None => None,
    }
}

/// A block after one of its indented lines: a `::repo version…` line, or a
/// description, which may be quoted.
pub open spec fn block_line_spec(block: BlockView, line: Seq<char>) -> BlockView {
    let text = line.trim();
    match text.without_prefix("::"@) {
        Some(rest) => {
            let words = rest.words();
            let repo = if words.len() > 0 {
                words[0]
            } else {
                ""@
            };
            let version = repo_version_spec(words);
            if repo.has("installed"@) {
                BlockView { installed: version, ..block }
            } else {
                BlockView {
                    package: PackageView {
                        origin: if block.package.origin is None {
                            Some(repo)
                        } else {
                            block.package.origin
                        },
                        ..block.package
                    },
                    available: if version is Some {
                        version
                    } else {
                        block.available
                    },
                    ..block
                }
            }
        },
        None => if text.len() > 0 && block.package.description is None {
            BlockView {
                package: PackageView {
                    description: Some(text.trim_front("\""@).trim_back("\""@)),
                    ..block.package
                },
                ..block
            }
        } else {
            block
        },
    }
}

fn block_line(block: Block, line: &[char]) -> (r: Block)
    ensures
        r@ == block_line_spec(block@, line@),
{
    let mut block = block;
    let text = text::trim(line);
    match text::without_prefix(text, "::") {
        Some(rest) => {
            let words = text::words(rest);
            let nothing = chars("");
            let repo: &[char] = if words.len() > 0 {
                words[0]
            } else {
                &nothing
            };
            let version = repo_version(&words);
            if text::has(repo, "installed") {
                block.installed = text::maybe_string(version);
            } else {
                if block.package.origin.is_none() {
                    block.package.origin = Some(text::string(repo));
                }
                if version.is_some() {
                    block.available = text::maybe_string(version);
                }
            }
        },
        None => {
            if text.len() > 0 && block.package.description.is_none() {
                let quoted = text::trim_back(text::trim_front(text, "\""), "\"");
                block.package.description = Some(text::string(quoted));
            }
        },
    }
    block
}

/// The reading of `cave search` after one more line.
pub open spec fn search_next_spec(state: SearchScanView, line: Seq<char>) -> SearchScanView {
    if !line.begins_blank() {
        match header_word_spec(line) {
            Some(name) if name.has("/"@) => SearchScanView {
                packages: state.finish(),
                current: Some(BlockView::open(name)),
            },
            _ => state,
        }
    } else {
        match state.current {
            Some(block) => SearchScanView { current: Some(block_line_spec(block, line)), ..state },
            None => state,
        }
    }
}

fn finish_block(packages: &mut Vec<CavePackage>, current: Option<Block>)
    ensures
        final(packages)@.deep() == (SearchScanView {
            packages: old(packages)@.deep(),
            current: current.deep(),
        }).finish(),
{
    if let Some(block) = current {
        let ghost before = packages@;
        let package = settled(block.package, block.installed, block.available);
        packages.push(package);
        assert(packages@.deep() =~= before.deep().push(package@));
    }
}

impl Scanner for SearchScan {
    type State = SearchScanView;

    closed spec fn state(&self) -> SearchScanView {
        SearchScanView { packages: self.packages@.deep(), current: self.current.deep() }
    }

    open spec fn next(state: SearchScanView, line: Seq<char>) -> SearchScanView {
        search_next_spec(state, line)
    }

    fn feed(&mut self, line: &[char]) {
        if !text::begins_blank(line) {
            if let Some(name) = header_word(line) {
                if text::has(name, "/") {
                    let current = self.current.take();
                    finish_block(&mut self.packages, current);
                    self.current = Some(
                        Block {
                            package: CavePackage {
                                name: text::string(name),
                                ..CavePackage::default()
                            },
                            installed: None,
                            available: None,
                        },
                    );
                }
            }
        } else if let Some(block) = self.current.take() {
            self.current = Some(block_line(block, line));
        }
    }
}

/// The packages that `cave search` prints: unindented `category/name` headers,
/// each followed by indented `::repo version…` lines and a description.
pub open spec fn parse_search_spec(stdout: Seq<char>) -> Seq<PackageView> {
    rows::scan(
        SearchScanView::start(),
        stdout.lines(),
        |state: SearchScanView, line: Seq<char>| search_next_spec(state, line),
    ).finish()
}

pub fn parse_search(stdout: &str) -> (r: Vec<CavePackage>)
    ensures
        r@.deep() == parse_search_spec(stdout@),
{
    let start = SearchScan { packages: Vec::new(), current: None };
    assert(start.packages@.deep() =~= seq![]);
    let end = rows::scan_output(
        start,
        stdout,
        Ghost(|state: SearchScanView, line: Seq<char>| search_next_spec(state, line)),
    );
    let mut packages = end.packages;
    finish_block(&mut packages, end.current);
    packages
}

/// The package of `cave show` after a header line: only ids of the package
/// that was named first count.
pub open spec fn show_header_spec(block: BlockView, line: Seq<char>) -> BlockView {
    match header_word_spec(line) {
        None => block,
        Some(token) => match parse_id_spec(token) {
            None => block,
            Some((name, version, repo)) => {
                let named = block.package.name.len() == 0;
                let package = PackageView {
                    name: if named {
                        name
                    } else {
                        block.package.name
                    },
                    ..block.package
                };
                if !named && block.package.name != name {
                    block
                } else if repo is Some && repo->0.has("installed"@) {
                    BlockView {
                        package,
                        installed: if version is Some {
                            version
                        } else {
                            block.installed
                        },
                        ..block
                    }
                } else {
                    BlockView {
                        package: PackageView {
                            origin: if package.origin is None {
                                repo
                            } else {
                                package.origin
                            },
                            ..package
                        },
                        available: if version is Some {
                            version
                        } else {
                            block.available
                        },
                        ..block
                    }
                }
            },
        },
    }
}

fn show_header(block: Block, line: &[char]) -> (r: Block)
    ensures
        r@ == show_header_spec(block@, line@),
{
    let token = match header_word(line) {
        None => {
            return block;
        },
        Some(token) => token,
    };
    let (name, version, repo) = match read_id(token) {
        None => {
            return block;
        },
        Some(id) => id,
    };
    let mut block = block;
    let known = chars(&block.package.name);
    if known.len() == 0 {
        block.package.name = name;
    } else if !text::is(&known, &name) {
        return block;
    }
    let of_installed = match &repo {
        Some(repo) => text::has(&chars(repo), "installed"),
        None => false,
    };
    if of_installed {
        if version.is_some() {
            block.installed = version;
        }
    } else {
        if version.is_some() {
            block.available = version;
        }
        if block.package.origin.is_none() {
            block.package.origin = repo;
        }
    }
    block
}

/// The package of `cave show` after an indented `Key    Value` line.
pub open spec fn show_field_spec(package: PackageView, line: Seq<char>) -> PackageView {
    match line.trim().cut("  "@) {
        None => package,
        Some((key, value)) => {
            let key = key.trim();
            let value = value.trim();
            if value.len() == 0 {
                package
            } else if key == "Summary"@ || (key == "Description"@ && package.description is None) {
                PackageView { description: Some(value), ..package }
            } else if key == "Homepage"@ || key == "Homepages"@ {
                PackageView { homepage: Some(value), ..package }
            } else if key == "Licences"@ || key == "Licenses"@ || key == "License"@ {
                PackageView { license: Some(value), ..package }
            } else {
                package
            }
        },
    }
}

fn show_field(package: CavePackage, line: &[char]) -> (r: CavePackage)
    ensures
        r@ == show_field_spec(package@, line@),
{
    let mut package = package;
    if let Some((key, value)) = text::cut(text::trim(line), "  ") {
        let key = text::trim(key);
        let value = text::trim(value);
        if value.len() == 0 {
            return package;
        }
        if text::is(key, "Summary") || (text::is(key, "Description")
            && package.description.is_none()) {
            package.description = Some(text::string(value));
        } else if text::is(key, "Homepage") || text::is(key, "Homepages") {
            package.homepage = Some(text::string(value));
        } else if text::is(key, "Licences") || text::is(key, "Licenses") || text::is(
            key,
            "License",
        ) {
            package.license = Some(text::string(value));
        }
    }
    package
}

/// The reading of `cave show` after one more line.
pub open spec fn show_next_spec(block: BlockView, line: Seq<char>) -> BlockView {
    if !line.begins_blank() {
        show_header_spec(block, line)
    } else {
        BlockView { package: show_field_spec(block.package, line), ..block }
    }
}

/// The reading of `cave show`.
struct ShowScan {
    block: Block,
}

impl Scanner for ShowScan {
    type State = BlockView;

    closed spec fn state(&self) -> BlockView {
        self.block@
    }

    open spec fn next(state: BlockView, line: Seq<char>) -> BlockView {
        show_next_spec(state, line)
    }

    fn feed(&mut self, line: &[char]) {
        let mut block = Block {
            package: CavePackage::default(),
            installed: None,
            available: None,
        };
        std::mem::swap(&mut block, &mut self.block);
        if !text::begins_blank(line) {
            self.block = show_header(block, line);
        } else {
            self.block = Block { package: show_field(block.package, line), ..block };
        }
    }
}

/// The package that `cave show` describes: `category/name-version:slot::repo`
/// ids with indented fields below them; an id of an `installed` repository
/// tells the installed version.
pub open spec fn parse_show_spec(stdout: Seq<char>) -> Option<PackageView> {
    let package = rows::scan(
        BlockView::open(seq![]),
        stdout.lines(),
        |state: BlockView, line: Seq<char>| show_next_spec(state, line),
    ).close();
    if package.name.len() > 0 {
        Some(package)
    } else {
        None
    }
}

pub fn parse_show(stdout: &str) -> (r: Option<CavePackage>)
    ensures
        r.deep() == parse_show_spec(stdout@),
{
    let end = rows::scan_output(
        ShowScan {
            block: Block { package: CavePackage::default(), installed: None, available: None },
        },
        stdout,
        Ghost(|state: BlockView, line: Seq<char>| show_next_spec(state, line)),
    ).block;
    let package = settled(end.package, end.installed, end.available);
    if chars(&package.name).len() > 0 {
        Some(package)
    } else {
        None
    }
}

/// The word at `i`, if it looks like a version.
pub open spec fn version_at_spec(words: Seq<Seq<char>>, i: int) -> Option<Seq<char>> {
    match words.nth(i) {
        Some(word) if word.begins_digit() => Some(word),
        _ => None,
    }
}

fn version_at<'a>(words: &[&'a [char]], i: usize) -> (r: Option<&'a [char]>)
    ensures
        r.deep() == version_at_spec(words@.deep(), i as int),
{
    match text::nth(words, i) {
        Some(word) => {
            if text::begins_digit(word) {
                Some(word)
            } else {
                None
            }
        },
        None => None,
    }
}

/// The position of the word `wanted`, or -1.
pub open spec fn word_spec(words: Seq<Seq<char>>, wanted: Seq<char>) -> int {
    rows::index(words, |w: Seq<char>| w == wanted)
}

fn word(words: &[&[char]], wanted: &str) -> (r: Option<usize>)
    ensures
        match r {
            Some(i) => i == word_spec(words@.deep(), wanted@) && i < words@.len(),
            None => word_spec(words@.deep(), wanted@) == -1,
        },
{
    let same = |w: &&[char]| -> (b: bool)
        ensures
            b == (w@ == wanted@),
        { text::is(*w, wanted) };
    rows::position(words, same, Ghost(|w: Seq<char>| w == wanted@))
}

/// The versions of an upgrade, given the words of its line, the position of
/// the id and the version in it: `old -> new`, or `replacing old`.
pub open spec fn upgrade_versions_spec(
    words: Seq<Seq<char>>,
    id_at: int,
    id_version: Option<Seq<char>>,
) -> (Option<Seq<char>>, Option<Seq<char>>) {
    let arrow = word_spec(words, "->"@);
    let replacing = word_spec(words, "replacing"@);
    if arrow >= 0 {
        let new = version_at_spec(words, arrow + 1);
        (
            version_at_spec(words, arrow - 1),
            if new is Some {
                new
            } else {
                id_version
            },
        )
    } else if replacing >= 0 {
        (
            match words.nth(replacing + 1) {
                Some(word) if word.trim_back(","@).begins_digit() => Some(word.trim_back(","@)),
                _ => None,
            },
            if id_version is Some {
                id_version
            } else {
                version_at_spec(words, id_at + 1)
            },
        )
    } else {
        (None, None)
    }
}

fn upgrade_versions(words: &[&[char]], id_at: usize, id_version: Option<String>) -> (r: (
    Option<String>,
    Option<String>,
))
    requires
        id_at < words@.len(),
    ensures
        (r.0.deep(), r.1.deep()) == upgrade_versions_spec(
            words@.deep(),
            id_at as int,
            id_version.deep(),
        ),
{
    let count: usize = words.len();
    if let Some(arrow) = word(words, "->") {
        let old = if arrow > 0 {
            version_at(words, arrow - 1)
        } else {
            None
        };
        let new = match version_at(words, arrow + 1) {
            Some(new) => Some(text::string(new)),
            None => id_version,
        };
        return (text::maybe_string(old), new);
    }
    if let Some(replacing) = word(words, "replacing") {
        let old = match text::nth(words, replacing + 1) {
            Some(word) => {
                let word = text::trim_back(word, ",");
                if text::begins_digit(word) {
                    Some(text::string(word))
                } else {
                    None
                }
            },
            None => None,
        };
        let new = if id_version.is_some() {
            id_version
        } else {
            text::maybe_string(version_at(words, id_at + 1))
        };
        return (old, new);
    }
    (None, None)
}

/// An upgrade in the display of a resolution: a line with an id and the old
/// and new version.
pub open spec fn resolution_row_spec(line: Seq<char>) -> Option<PackageView> {
    let words = line.words();
    let id_at = rows::index(words, |w: Seq<char>| w.has("/"@));
    if id_at < 0 {
        None
    } else {
        match parse_id_spec(words[id_at]) {
            None => None,
            Some((name, id_version, _)) => match upgrade_versions_spec(words, id_at, id_version) {
                (Some(old), Some(new)) => Some(
                    PackageView {
                        latest_version: Some(new),
                        ..PackageView::versioned(name, Some(old), InstallState::Upgradable)
                    },
                ),
                _ => None,
            },
        }
    }
}

fn resolution_row(line: &[char]) -> (r: Option<CavePackage>)
    ensures
        r.deep() == resolution_row_spec(line@),
{
    let words = text::words(line);
    let with_slash = |w: &&[char]| -> (b: bool)
        ensures
            b == w@.has("/"@),
        { text::has(*w, "/") };
    let id_at = match rows::position(&words, with_slash, Ghost(|w: Seq<char>| w.has("/"@))) {
        None => {
            return None;
        },
        Some(id_at) => id_at,
    };
    let (name, id_version, _) = match read_id(words[id_at]) {
        None => {
            return None;
        },
        Some(id) => id,
    };
    match upgrade_versions(&words, id_at, id_version) {
        (Some(old), Some(new)) => Some(
            CavePackage {
                name,
                version: Some(old),
                latest_version: Some(new),
                state: InstallState::Upgradable,
                ..CavePackage::default()
            },
        ),
        _ => None,
    }
}

/// The upgrades that a resolution of the world displays.
pub open spec fn parse_resolution_spec(stdout: Seq<char>) -> Seq<PackageView> {
    rows::select(stdout.lines(), |line: Seq<char>| resolution_row_spec(line))
}

pub fn parse_resolution(stdout: &str) -> (r: Vec<CavePackage>)
    ensures
        r@.deep() == parse_resolution_spec(stdout@),
        crate::package::all_in(r@.deep(), InstallState::Upgradable),
{
    proof {
        rows::selected_have(
            stdout@.lines(),
            |line: Seq<char>| resolution_row_spec(line),
            |p: PackageView| p.state == InstallState::Upgradable,
        );
    }
    rows::select_rows(stdout, resolution_row, Ghost(|line: Seq<char>| resolution_row_spec(line)))
}

} // verus!
