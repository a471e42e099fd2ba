//! KISS Linux's package manager.
//!
//! A port has to be built before it can be installed, so an install, and an
//! upgrade of named ports, is `kiss b` and then `kiss i`. `kiss u` pulls the
//! repositories and rebuilds what changed. kiss does not run as root: it gets
//! its privileges itself, so it is never elevated here, though the user may be
//! asked for a password. With `KISS_PROMPT=0` it does not ask anything else.
//! Ports have no descriptions.

use vstd::prelude::*;

use crate::command::{self, Cmd, CmdView, Plan};
use crate::detect::{self, Detection};
use crate::error::{self, Error, ErrorView};
use crate::package::{Details, InstallState, Package, PackageView};
use crate::path;
use crate::profile::{basic_capabilities, Capabilities, ManagerKind, Profile};
use crate::request::{self, OpContext, PackageRequest, RequestView};
use crate::rows;
use crate::session::{
    self, Action, ActionView, Listing, Part, PartView, Reply, ReplyView, Step, StepView,
};
use crate::text::{self, chars, Deep, Text};

verus! {

broadcast use command::group_carries;

/// Finds the manager and sets it up.
#[derive(Clone, Copy, Debug)]
pub struct Factory;

/// The factory of this backend.
pub fn factory() -> (r: Factory)
    ensures
        r == Factory,
{
    Factory
}

impl Factory {
    pub fn id(&self) -> (r: &'static str)
        ensures
            r@ == "kiss"@,
    {
        "kiss"
    }

    /// The programs to look for, in the order of preference.
    pub fn programs(&self) -> (r: Vec<&'static str>)
        ensures
            r@.deep() == seq!["kiss"@],
    {
        let mut out: Vec<&'static str> = Vec::new();
        out.push("kiss");
        assert(out@.deep() =~= seq!["kiss"@]);
        out
    }

    /// Whether the backend can be used, given where each program was found.
    pub fn detect(&self, found: &[Option<String>]) -> (r: Detection)
        ensures
            r@ == detect::detected(found@, "`kiss` not found on PATH"@),
    {
        detect::detect(found, "`kiss` not found on PATH")
    }

    /// The manager, given where each program was found.
    pub fn create(&self, found: &[Option<String>]) -> (r: Result<Manager, Error>)
        ensures
            match r {
                Ok(manager) => detect::required(found@, "kiss"@) == Ok::<Seq<char>, ErrorView>(
                    manager.program@,
                ),
                Err(error) => detect::required(found@, "kiss"@) == Err::<Seq<char>, ErrorView>(
                    error@,
                ),
            },
    {
        match detect::require(found, "kiss") {
            Ok(program) => Ok(Manager { program }),
            Err(error) => Err(error),
        }
    }
}

/// The manager, driving `program`.
#[derive(Debug)]
pub struct Manager {
    pub program: String,
}

impl Manager {
    /// What the manager says of itself.
    pub fn profile(&self) -> (r: Profile)
        ensures
            r.id@ == "kiss"@,
            r.display_name@ == "kiss"@,
            r.kind == ManagerKind::System,
            r.database_id@ == "kiss"@,
            r.capabilities == (Capabilities {
                search: true,
                upgrade: true,
                ..Capabilities::basic()
            }),
            r.elevates == true,
    {
        Profile {
            id: "kiss",
            display_name: "kiss",
            kind: ManagerKind::System,
            database_id: "kiss",
            capabilities: Capabilities { search: true, upgrade: true, ..basic_capabilities() },
            elevates: true,
        }
    }
}

/// A package as kiss describes it.
#[derive(Debug)]
pub struct KissPackage {
    pub name: String,
    pub version: Option<String>,
    pub latest_version: Option<String>,
    pub origin: Option<String>,
    pub state: InstallState,
}

impl View for KissPackage {
    type V = PackageView;

    open spec fn view(&self) -> PackageView {
        PackageView {
            name: self.name@,
            version: self.version.deep(),
            latest_version: self.latest_version.deep(),
            origin: self.origin.deep(),
            state: self.state,
            ..PackageView::blank()
        }
    }
}

impl Default for KissPackage {
    fn default() -> (r: KissPackage)
        ensures
            r@ == PackageView::blank(),
    {
        KissPackage {
            name: String::new(),
            version: None,
            latest_version: None,
            origin: None,
            state: InstallState::Unknown,
        }
    }
}

impl Package for KissPackage {
    open spec fn manager_id() -> Seq<char> {
        "kiss"@
    }

    fn manager(&self) -> (r: &'static str) {
        "kiss"
    }

    fn details(&self) -> (r: Details<'_>) {
        Details {
            version: self.version.as_ref(),
            latest_version: self.latest_version.as_ref(),
            origin: self.origin.as_ref(),
            ..Details::of(&self.name, self.state)
        }
    }
}

/// A port is built in the version that the repository has.
pub open spec fn reject_pins_spec(requests: Seq<RequestView>) -> Result<(), ErrorView> {
    request::pins_refused(
        requests,
        "kiss: `"@,
        "` pins a version, but kiss builds whatever version the repository ports carry"@,
    )
}

pub fn reject_pins(requests: &[PackageRequest]) -> (r: Result<(), Error>)
    ensures
        error::outcome(r) == reject_pins_spec(requests@.deep()),
{
    request::refuse_pins(
        requests,
        "kiss: `",
        "` pins a version, but kiss builds whatever version the repository ports carry",
    )
}

/// The pattern of a search: a plain query may occur anywhere in a name.
pub open spec fn search_pattern_spec(query: Seq<char>) -> Seq<char> {
    if query.has_any("*?["@) {
        query
    } else {
        "*"@ + query + "*"@
    }
}

pub fn search_pattern(query: &str) -> (r: String)
    ensures
        r@ == search_pattern_spec(query@),
{
    if text::has_any(&chars(query), "*?[") {
        text::copy(query)
    } else {
        text::cat3("*", query, "*")
    }
}

/// A version as its file tells it: version and release, one space between
/// them.
pub open spec fn parse_version_file_spec(contents: Seq<char>) -> Option<Seq<char>> {
    text::folded(contents)
}

pub fn parse_version_file(contents: &str) -> (r: Option<String>)
    ensures
        r.deep() == parse_version_file_spec(contents@),
{
    text::fold(&chars(contents))
}

/// An installed package: `name version release`, where the release is a part
/// of the version.
pub open spec fn list_row_spec(line: Seq<char>) -> Option<PackageView> {
    let words = line.words();
    if words.len() == 0 {
        None
    } else {
        Some(
            PackageView::versioned(
                words[0],
                if words.len() > 1 {
                    Some(text::join_of(text::rest_of(words, 1), " "@))
                } else {
                    None
                },
                InstallState::Installed,
            ),
        )
    }
}

fn list_row(line: &[char]) -> (r: Option<KissPackage>)
    ensures
        r.deep() == list_row_spec(line@),
{
    let words = text::words(line);
    if words.len() == 0 {
        return None;
    }
    let version = if words.len() > 1 {
        Some(text::string(&text::join(text::rest(&words, 1), " ")))
    } else {
        None
    };
    Some(
        KissPackage {
            name: text::string(words[0]),
            version,
            state: InstallState::Installed,
            ..KissPackage::default()
        },
    )
}

/// The packages that `kiss l` prints.
pub open spec fn parse_list_spec(stdout: Seq<char>) -> Seq<PackageView> {
    rows::select(stdout.lines(), |line: Seq<char>| list_row_spec(line))
}

pub fn parse_list(stdout: &str) -> (r: Vec<KissPackage>)
    ensures
        r@.deep() == parse_list_spec(stdout@),
        crate::package::all_named(r@.deep()),
        crate::package::all_in(r@.deep(), InstallState::Installed),
{
    proof {
        rows::selected_have(
            stdout@.lines(),
            |line: Seq<char>| list_row_spec(line),
            |p: PackageView| p.name.len() > 0 && p.state == InstallState::Installed,
        );
    }
    rows::select_rows(stdout, list_row, Ghost(|line: Seq<char>| list_row_spec(line)))
}

/// A port: its directory has its name, in a directory with the name of the
/// repository; `installed` is the database of what is installed.
pub open spec fn search_row_spec(line: Seq<char>) -> Option<PackageView> {
    let path = line.trim();
    match path::file_name_spec(path) {
        None => None,
        Some(name) => Some(
            if path::parent_name_spec(path) == Some("installed"@) {
                PackageView::named(name, InstallState::Installed)
            } else {
                PackageView {
                    origin: path::parent_name_spec(path),
                    ..PackageView::named(name, InstallState::Available)
                }
            },
        ),
    }
}

fn search_row(line: &[char]) -> (r: Option<KissPackage>)
    ensures
        r.deep() == search_row_spec(line@),
{
    let path = text::trim(line);
    let name = match path::file_name(path) {
        None => {
            return None;
        },
        Some(name) => text::string(name),
    };
    match path::parent_name(path) {
        Some(parent) => {
            if text::is(parent, "installed") {
                Some(
                    KissPackage {
                        name,
                        state: InstallState::Installed,
                        ..KissPackage::default()
                    },
                )
            } else {
                Some(
                    KissPackage {
                        name,
                        origin: Some(text::string(parent)),
                        state: InstallState::Available,
                        ..KissPackage::default()
                    },
                )
            }
        },
        None => Some(
            KissPackage { name, state: InstallState::Available, ..KissPackage::default() },
        ),
    }
}

/// The ports that `kiss s` prints, one path in each line.
pub open spec fn parse_search_spec(stdout: Seq<char>) -> Seq<PackageView> {
    rows::select(stdout.lines(), |line: Seq<char>| search_row_spec(line))
}

pub fn parse_search(stdout: &str) -> (r: Vec<KissPackage>)
    ensures
        r@.deep() == parse_search_spec(stdout@),
{
    rows::select_rows(stdout, search_row, Ghost(|line: Seq<char>| search_row_spec(line)))
}

/// The path of a port in a repository, and the repository.
pub open spec fn hit_row_spec(line: Seq<char>) -> Option<(Seq<char>, Seq<char>)> {
    let path = line.trim();
    match path::parent_name_spec(path) {
        None => None,
        Some(parent) => if parent == "installed"@ {
            None
        } else {
            Some((path, parent))
        },
    }
}

fn hit_row(line: &[char]) -> (r: Option<(String, String)>)
    ensures
        r.deep() == hit_row_spec(line@),
{
    let path = text::trim(line);
    match path::parent_name(path) {
        None => None,
        Some(parent) => {
            if text::is(parent, "installed") {
                None
            } else {
                Some((text::string(path), text::string(parent)))
            }
        },
    }
}

/// The first port in a repository that a search prints.
pub open spec fn repo_hit_spec(stdout: Seq<char>) -> Option<(Seq<char>, Seq<char>)> {
    let hits = rows::select(stdout.lines(), |line: Seq<char>| hit_row_spec(line));
    if hits.len() == 0 {
        None
    } else {
        Some(hits[0])
    }
}

pub fn repo_hit(stdout: &str) -> (r: Option<(String, String)>)
    ensures
        r.deep() == repo_hit_spec(stdout@),
{
    let mut hits: Vec<(String, String)> = rows::select_rows(
        stdout,
        hit_row,
        Ghost(|line: Seq<char>| hit_row_spec(line)),
    );
    if hits.len() == 0 {
        return None;
    }
    assert(hits@.deep()[0] == hits@[0]@);
    Some(hits.swap_remove(0))
}

/// A port, completed by the installed package of the same name.
pub open spec fn merge_spec(package: PackageView, installed: Option<PackageView>) -> PackageView {
    match installed {
        None => package,
        Some(installed) => match installed.version {
            None => PackageView { state: InstallState::Installed, ..package },
            Some(version) => PackageView {
                version: Some(version),
                latest_version: if package.version is Some && package.version != Some(version) {
                    package.version
                } else {
                    package.latest_version
                },
                state: InstallState::Installed,
                ..package
            },
        },
    }
}

pub fn merge(package: KissPackage, installed: Option<KissPackage>) -> (r: KissPackage)
    ensures
        r@ == merge_spec(package@, installed.deep()),
{
    let installed = match installed {
        None => {
            return package;
        },
        Some(installed) => installed,
    };
    if installed.version.is_none() {
        return KissPackage { state: InstallState::Installed, ..package };
    }
    if package.version.is_some() && !text::equal_maybe(&package.version, &installed.version) {
        KissPackage {
            version: installed.version,
            latest_version: package.version,
            state: InstallState::Installed,
            ..package
        }
    } else {
        KissPackage {
            version: installed.version,
            state: InstallState::Installed,
            ..package
        }
    }
}

impl Manager {
    /// A command with an effect, which does not ask when told so.
    pub open spec fn mutation_spec(self, action: Seq<char>, ctx: OpContext) -> CmdView {
        let cmd = CmdView::new(self.program@).arg(action);
        if ctx.assume_yes {
            cmd.env("KISS_PROMPT"@, "0"@)
        } else {
            cmd
        }
    }

    fn mutation(&self, action: &str, ctx: &OpContext) -> (r: Cmd)
        ensures
            r@ == self.mutation_spec(action@, *ctx),
    {
        let cmd = Cmd::new(&self.program).arg(action);
        if ctx.assume_yes {
            cmd.env("KISS_PROMPT", "0")
        } else {
            cmd
        }
    }

    /// Builds, then installs what was built.
    pub open spec fn build_and_install_spec(
        self,
        packages: Seq<RequestView>,
        ctx: OpContext,
    ) -> Seq<CmdView> {
        seq![
            self.mutation_spec("b"@, ctx).names(packages),
            self.mutation_spec("i"@, ctx).names(packages),
        ]
    }

    fn build_and_install(&self, packages: &[PackageRequest], ctx: &OpContext) -> (r: Vec<Cmd>)
        ensures
            r@.deep() == self.build_and_install_spec(packages@.deep(), *ctx),
    {
        let r = command::and(
            command::one(self.mutation("b", ctx).names(packages)),
            self.mutation("i", ctx).names(packages),
        );
        assert(r@.deep() =~= self.build_and_install_spec(packages@.deep(), *ctx));
        r
    }

    pub fn install(&self, packages: &[PackageRequest], ctx: &OpContext) -> (r: Plan)
        ensures
            command::plan(r) == match reject_pins_spec(packages@.deep()) {
                Err(error) => Err(error),
                Ok(_) => if ctx.dry_run {
                    Err(ErrorView::Other("kiss: install has no dry-run mode"@))
                } else {
                    Ok(self.build_and_install_spec(packages@.deep(), *ctx))
                },
            },
            command::all_elevated(command::plan(r), false),
            ctx.dry_run ==> r is Err,
            request::first_pin(packages@.deep()) is Some ==> r is Err,
            ctx.assume_yes ==> command::all_set(command::plan(r), "KISS_PROMPT"@, "0"@),
            request::first_pin(packages@.deep()) is None && !ctx.dry_run ==> ({
                let names = request::names(packages@.deep());
                let prompts = if ctx.assume_yes {
                    seq![("KISS_PROMPT"@, "0"@)]
                } else {
                    seq![]
                };
                &&& command::plan(r) matches Ok(commands)
                &&& commands.len() == 2
                &&& commands[0].program == self.program@ && commands[1].program == self.program@
                &&& commands[0].args == seq!["b"@] + names
                &&& commands[1].args == seq!["i"@] + names
                &&& commands[0].envs == prompts && commands[1].envs == prompts
            }),
    {
        if let Err(error) = reject_pins(packages) {
            return Err(error);
        }
        if ctx.dry_run {
            return Err(error::other("kiss: install has no dry-run mode"));
        }
        Ok(self.build_and_install(packages, ctx))
    }

    pub fn remove(&self, packages: &[PackageRequest], ctx: &OpContext) -> (r: Plan)
        ensures
            command::plan(r) == if ctx.dry_run {
                Err(ErrorView::Other("kiss: remove has no dry-run mode"@))
            } else {
                command::just(self.mutation_spec("r"@, *ctx).names(packages@.deep()))
            },
            command::all_elevated(command::plan(r), false),
            ctx.dry_run ==> r is Err,
            ctx.assume_yes ==> command::all_set(command::plan(r), "KISS_PROMPT"@, "0"@),
            command::plan(r) == if ctx.dry_run {
                Err(ErrorView::Other("kiss: remove has no dry-run mode"@))
            } else {
                command::just(
                    (
                        {
                            let cmd = CmdView::new(self.program@).arg("r"@);
                            if ctx.assume_yes { cmd.env("KISS_PROMPT"@, "0"@) } else { cmd }
                        }
                    ).names(packages@.deep()),
                )
            },
    {
        if ctx.dry_run {
            return Err(error::other("kiss: remove has no dry-run mode"));
        }
        Ok(command::one(self.mutation("r", ctx).names(packages)))
    }

    /// Without names everything is upgraded; a named port is built again.
    pub fn upgrade(&self, packages: &[PackageRequest], ctx: &OpContext) -> (r: Plan)
        ensures
            command::plan(r) == match reject_pins_spec(packages@.deep()) {
                Err(error) => Err(error),
                Ok(_) => if ctx.dry_run {
                    Err(ErrorView::Other("kiss: upgrade has no dry-run mode"@))
                } else if packages@.len() == 0 {
                    command::just(self.mutation_spec("u"@, *ctx))
                } else {
                    Ok(self.build_and_install_spec(packages@.deep(), *ctx))
                },
            },
            command::all_elevated(command::plan(r), false),
            ctx.dry_run ==> r is Err,
            request::first_pin(packages@.deep()) is Some ==> r is Err,
            ctx.assume_yes ==> command::all_set(command::plan(r), "KISS_PROMPT"@, "0"@),
            request::first_pin(packages@.deep()) is None && !ctx.dry_run && packages@.len() > 0 ==> ({
                let names = request::names(packages@.deep());
                let prompts = if ctx.assume_yes {
                    seq![("KISS_PROMPT"@, "0"@)]
                } else {
                    seq![]
                };
                &&& command::plan(r) matches Ok(commands)
                &&& commands.len() == 2
                &&& commands[0].program == self.program@ && commands[1].program == self.program@
                &&& commands[0].args == seq!["b"@] + names
                &&& commands[1].args == seq!["i"@] + names
                &&& commands[0].envs == prompts && commands[1].envs == prompts
            }),
            !ctx.dry_run && packages@.len() == 0 ==> ({
                &&& command::plan(r) matches Ok(commands)
                &&& commands.len() == 1
                &&& commands[0].program == self.program@
                &&& commands[0].args == seq!["u"@]
            }),
    {
        if let Err(error) = reject_pins(packages) {
            return Err(error);
        }
        if ctx.dry_run {
            return Err(error::other("kiss: upgrade has no dry-run mode"));
        }
        if packages.len() == 0 {
            return Ok(command::one(self.mutation("u", ctx)));
        }
        Ok(self.build_and_install(packages, ctx))
    }

    pub fn list_installed(&self, replies: &[Reply]) -> (r: Step<Listing<KissPackage>>)
        ensures
            r@ == session::listed(
                CmdView::query(self.program@).arg("l"@),
                replies@.deep(),
                |out: Seq<char>| parse_list_spec(out),
            ),
            r@.only_looks(),
            r@.in_c_locale(),
    {
        session::list(
            Cmd::query(&self.program).arg("l"),
            replies,
            parse_list,
            Ghost(|out: Seq<char>| parse_list_spec(out)),
        )
    }

    pub fn search(&self, query: &str, replies: &[Reply]) -> (r: Step<Listing<KissPackage>>)
        ensures
            r@ == session::searched(
                CmdView::query(self.program@).arg("s"@).arg(search_pattern_spec(query@)),
                replies@.deep(),
                |out: Seq<char>| parse_search_spec(out),
            ),
            r@.only_looks(),
            r@.in_c_locale(),
            r@ == session::searched(
                CmdView::query(self.program@).arg("s"@).arg(
                    (if query@.has_any("*?["@) { query@ } else { "*"@ + query@ + "*"@ }),
                ),
                replies@.deep(),
                |out: Seq<char>| parse_search_spec(out),
            ),
    {
        session::search(
            Cmd::query(&self.program).arg("s").arg(&search_pattern(query)),
            replies,
            parse_search,
            Ghost(|out: Seq<char>| parse_search_spec(out)),
        )
    }

    /// What the repositories have of a port: its version is in a file.
    pub open spec fn port_spec(
        self,
        name: Seq<char>,
        hit: Option<(Seq<char>, Seq<char>)>,
        replies: Seq<ReplyView>,
    ) -> PartView<PackageView> {
        match hit {
            None => PartView::Got(PackageView::named(name, InstallState::Available), replies),
            Some((path, origin)) => if replies.len() == 0 {
                PartView::Act(ActionView::ReadFile(path::join_spec(path, "version"@)))
            } else {
                PartView::Got(
                    PackageView {
                        origin: Some(origin),
                        ..PackageView::versioned(
                            name,
                            if replies[0].success {
                                parse_version_file_spec(replies[0].stdout)
                            } else {
                                None
                            },
                            InstallState::Available,
                        )
                    },
                    replies.skip(1),
                )
            },
        }
    }

    fn port<'a>(
        &self,
        name: &str,
        hit: Option<(String, String)>,
        replies: &'a [Reply],
    ) -> (r: Part<'a, KissPackage>)
        ensures
            r@ == self.port_spec(name@, hit.deep(), replies@.deep()),
    {
        match hit {
            None => Part::Got(
                KissPackage {
                    name: text::copy(name),
                    state: InstallState::Available,
                    ..KissPackage::default()
                },
                replies,
            ),
            Some((path, origin)) => {
                if replies.len() == 0 {
                    return Part::Act(Action::ReadFile(path::join(&path, "version")));
                }
                let reply = session::next(replies);
                let version = if reply.success {
                    parse_version_file(&reply.stdout)
                } else {
                    None
                };
                Part::Got(
                    KissPackage {
                        name: text::copy(name),
                        version,
                        origin: Some(origin),
                        state: InstallState::Available,
                        ..KissPackage::default()
                    },
                    session::later(replies),
                )
            },
        }
    }

    /// The port in a repository, and what is installed of it.
    pub open spec fn info_spec(self, name: Seq<char>, replies: Seq<ReplyView>) -> StepView<
        PackageView,
    > {
        if replies.len() == 0 {
            session::ask(CmdView::query(self.program@).arg("s"@).arg(name))
        } else if !replies[0].success || replies[0].stdout.trim().len() == 0 {
            StepView::Fail(ErrorView::NotFound(name))
        } else {
            match self.port_spec(name, repo_hit_spec(replies[0].stdout), replies.skip(1)) {
                PartView::Act(action) => StepView::Act(action),
                PartView::Fail(error) => StepView::Fail(error),
                PartView::Got(package, rest) => if rest.len() == 0 {
                    session::ask(CmdView::query(self.program@).arg("l"@).arg(name))
                } else {
                    StepView::Done(
                        merge_spec(
                            package,
                            if rest[0].success {
                                session::called(parse_list_spec(rest[0].stdout), name)
                            } else {
                                None
                            },
                        ),
                    )
                },
            }
        }
    }

    pub fn info(&self, name: &str, replies: &[Reply]) -> (r: Step<KissPackage>)
        ensures
            r@ == self.info_spec(name@, replies@.deep()),
            r@.only_looks(),
            r@.in_c_locale(),
    {
        if replies.len() == 0 {
            return session::query(Cmd::query(&self.program).arg("s").arg(name));
        }
        let search = session::next(replies);
        if !search.success || session::is_empty(&search.stdout) {
            return Step::Fail(error::not_found(name));
        }
        let (package, rest) = match self.port(
            name,
            repo_hit(&search.stdout),
            session::later(replies),
        ) {
            Part::Act(action) => {
                return Step::Act(action);
            },
            Part::Fail(error) => {
                return Step::Fail(error);
            },
            Part::Got(package, rest) => (package, rest),
        };
        if rest.len() == 0 {
            return session::query(Cmd::query(&self.program).arg("l").arg(name));
        }
        let list = session::next(rest);
        let installed = if list.success {
            session::take_called(parse_list(&list.stdout), name)
        } else {
            None
        };
        Step::Done(merge(package, installed))
    }
}

/// A pattern is searched for as it is.
pub proof fn patterns_stay(query: Seq<char>)
    ensures
        search_pattern_spec(search_pattern_spec(query)) == search_pattern_spec(query),
{
    reveal_strlit("*");
    reveal_strlit("*?[");
    let pattern = "*"@ + query + "*"@;
    text::lemma_find_set(pattern, "*?["@, true);
    assert("*?["@[0] == '*');
    assert(pattern[0] == '*');
    assert("*?["@.contains(pattern[0]));
}

/// A version keeps the words of its file, and is kept as it is when it is read
/// again.
pub proof fn versions_keep_the_words(contents: Seq<char>)
    ensures
        match parse_version_file_spec(contents) {
            Some(version) => {
                &&& version.words() == contents.words()
                &&& parse_version_file_spec(version) == Some(version)
            },
            None => true,
        },
        parse_version_file_spec(contents) is None <==> contents.words().len() == 0,
{
    text::folding_keeps_the_words(contents);
}

} // verus!
