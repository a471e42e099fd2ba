//! The binaries that `go install` puts in place.
//!
//! Go has no package database: the directory of the binaries is it. `go
//! version -m` tells which module each was built from, and to remove one is
//! to delete it. What to install is named by its full module path.

use vstd::prelude::*;

use crate::command::{self, Cmd, CmdView, Plan};
use crate::detect::{self, Detection};
use crate::error::{self, Error, ErrorView};
use crate::package::{self, Details, InstallState, Package, PackageView};
use crate::path;
use crate::profile::{basic_capabilities, Capabilities, ManagerKind, Profile};
use crate::request::{OpContext, PackageRequest, RequestView};
use crate::rows::{self, Scanner};
use crate::session::{
    self, Action, ActionView, Finished, Listing, Part, PartView, Reply, ReplyView, Step, StepView,
};
use crate::text::{self, chars, Deep, Text};

verus! {

broadcast use command::group_carries;

/// Finds the manager and sets it up.
#[derive(Clone, Copy, Debug)]
pub struct Factory;

/// The factory of this backend.
pub fn factory() -> (r: Factory)
    ensures
        r == Factory,
{
    Factory
}

impl Factory {
    pub fn id(&self) -> (r: &'static str)
        ensures
            r@ == "go"@,
    {
        "go"
    }

    /// The programs to look for, in the order of preference.
    pub fn programs(&self) -> (r: Vec<&'static str>)
        ensures
            r@.deep() == seq!["go"@],
    {
        let mut out: Vec<&'static str> = Vec::new();
        out.push("go");
        assert(out@.deep() =~= seq!["go"@]);
        out
    }

    /// Whether the backend can be used, given where each program was found.
    pub fn detect(&self, found: &[Option<String>]) -> (r: Detection)
        ensures
            r@ == detect::detected(found@, "`go` not found on PATH"@),
    {
        detect::detect(found, "`go` not found on PATH")
    }

    /// The manager, given where each program was found.
    pub fn create(&self, found: &[Option<String>]) -> (r: Result<Manager, Error>)
        ensures
            match r {
                Ok(manager) => detect::required(found@, "go"@) == Ok::<Seq<char>, ErrorView>(
                    manager.program@,
                ),
                Err(error) => detect::required(found@, "go"@) == Err::<Seq<char>, ErrorView>(
                    error@,
                ),
            },
    {
        match detect::require(found, "go") {
            Ok(program) => Ok(Manager { program }),
            Err(error) => Err(error),
        }
    }
}

/// The manager, driving `program`.
#[derive(Debug)]
pub struct Manager {
    pub program: String,
}

impl Manager {
    /// What the manager says of itself.
    pub fn profile(&self) -> (r: Profile)
        ensures
            r.id@ == "go"@,
            r.display_name@ == "Go"@,
            r.kind == ManagerKind::Language,
            r.database_id@ == "go"@,
            r.capabilities == (Capabilities {
                upgrade: true,
                pin_version: true,
                ..Capabilities::basic()
            }),
            r.elevates == false,
    {
        Profile {
            id: "go",
            display_name: "Go",
            kind: ManagerKind::Language,
            database_id: "go",
            capabilities: Capabilities { upgrade: true, pin_version: true, ..basic_capabilities() },
            elevates: false,
        }
    }
}

/// A binary as `go version -m` describes it.
#[derive(Debug)]
pub struct GoPackage {
    /// The import path of the main package.
    pub name: String,
    pub version: Option<String>,
    pub state: InstallState,
}

impl View for GoPackage {
    type V = PackageView;

    open spec fn view(&self) -> PackageView {
        PackageView {
            name: self.name@,
            version: self.version.deep(),
            state: self.state,
            ..PackageView::blank()
        }
    }
}

impl Default for GoPackage {
    fn default() -> (r: GoPackage)
        ensures
            r@ == PackageView::blank(),
    {
        GoPackage {
            name: String::new(),
            version: None,
            state: InstallState::Unknown,
        }
    }
}

impl Package for GoPackage {
    open spec fn manager_id() -> Seq<char> {
        "go"@
    }

    fn manager(&self) -> (r: &'static str) {
        "go"
    }

    fn details(&self) -> (r: Details<'_>) {
        Details {
            version: self.version.as_ref(),
            ..Details::of(&self.name, self.state)
        }
    }
}

/// What `go install` takes: `path@version`, with the `v` that Go wants before
/// a number, or `path@latest`.
pub open spec fn spec_spec(request: RequestView) -> Seq<char> {
    match request.version {
        Some(version) => if version.begins_digit() {
            request.name + "@v"@ + version
        } else {
            request.name + "@"@ + version
        },
        None => request.name + "@latest"@,
    }
}

pub fn spec(request: &PackageRequest) -> (r: String)
    ensures
        r@ == spec_spec(request@),
{
    match &request.version {
        Some(version) => {
            if text::begins_digit(&chars(version)) {
                text::cat3(&request.name, "@v", version)
            } else {
                text::cat3(&request.name, "@", version)
            }
        },
        None => text::cat(&request.name, "@latest"),
    }
}

/// Whether a segment of a module path tells a major version: `v2`, `v10`.
pub open spec fn is_major_spec(segment: Seq<char>) -> bool {
    segment.len() > 1 && segment[0] == 'v' && segment.skip(1).only("0123456789"@)
}

fn is_major(segment: &[char]) -> (r: bool)
    ensures
        r == is_major_spec(segment@),
{
    segment.len() > 1 && segment[0] == 'v' && text::only(text::tail(segment, 1), "0123456789")
}

/// The binary that a module makes: the last segment of its path, without a
/// segment for the major version.
pub open spec fn binary_name_spec(module: Seq<char>) -> Seq<char> {
    let segments = module.trim_back("/"@).split("/"@);
    if is_major_spec(segments.last()) && segments.len() > 1 {
        segments[segments.len() - 2]
    } else {
        segments.last()
    }
}

pub fn binary_name(module: &str) -> (r: String)
    ensures
        r@ == binary_name_spec(module@),
{
    let t = chars(module);
    let path = text::trim_back(&t, "/");
    let segments = text::split(path, "/");
    proof {
        text::lemma_split_some(path@, "/"@);
    }
    let n: usize = segments.len();
    assert(segments@.deep()[n - 1] == segments@[n - 1]@);
    if n > 1 && is_major(segments[n - 1]) {
        text::string(segments[n - 2])
    } else {
        text::string(segments[n - 1])
    }
}

/// Where `go install` puts binaries, given what `go env GOBIN GOPATH` prints:
/// the one if it is set, or else `bin` below the first path of the other.
pub open spec fn gobin_spec(stdout: Seq<char>) -> Result<Seq<char>, ErrorView> {
    let lines = stdout.lines();
    if lines.len() > 0 && lines[0].trim().len() > 0 {
        Ok(lines[0].trim())
    } else if lines.len() > 1 && lines[1].trim().split(":"@)[0].len() > 0 {
        Ok(path::join_spec(lines[1].trim().split(":"@)[0], "bin"@))
    } else {
        Err(ErrorView::Other("go: neither GOBIN nor GOPATH is set"@))
    }
}

pub fn gobin(stdout: &str) -> (r: Result<String, Error>)
    ensures
        error::outcome_of(r) == gobin_spec(stdout@),
{
    let t = chars(stdout);
    let lines = text::lines(&t);
    if lines.len() > 0 {
        let gobin = text::trim(lines[0]);
        if gobin.len() > 0 {
            return Ok(text::string(gobin));
        }
    }
    if lines.len() > 1 {
        let gopath = text::trim(lines[1]);
        let paths = text::split(gopath, ":");
        proof {
            text::lemma_split_some(gopath@, ":"@);
        }
        if paths[0].len() > 0 {
            return Ok(path::join(&text::string(paths[0]), "bin"));
        }
    }
    Err(error::other("go: neither GOBIN nor GOPATH is set"))
}

/// The reading of `go version -m`.
struct VersionScan {
    packages: Vec<GoPackage>,
    current: Option<GoPackage>,
}

/// The model of the reading of `go version -m`.
pub struct VersionScanView {
    pub packages: Seq<PackageView>,
    pub current: Option<PackageView>,
}

impl VersionScanView {
    pub open spec fn start() -> VersionScanView {
        VersionScanView {
            packages: seq![],
            current: None,
        }
    }
}

/// A binary after one of its records, whose fields are parted by tabs.
pub open spec fn record_spec(package: PackageView, fields: Seq<Seq<char>>) -> PackageView {
    if fields.len() > 2 && fields[1] == "path"@ {
        PackageView { name: fields[2], ..package }
    } else if fields.len() > 3 && fields[1] == "mod"@ {
        PackageView { version: Some(fields[3]), ..package }
    } else {
        package
    }
}

fn record(package: GoPackage, fields: &[&[char]]) -> (r: GoPackage)
    ensures
        r@ == record_spec(package@, fields@.deep()),
{
    if fields.len() > 2 && text::is(fields[1], "path") {
        GoPackage { name: text::string(fields[2]), ..package }
    } else if fields.len() > 3 && text::is(fields[1], "mod") {
        GoPackage { version: Some(text::string(fields[3])), ..package }
    } else {
        package
    }
}

/// The reading of `go version -m` after one more line: a line that is not
/// indented begins a binary.
pub open spec fn version_next_spec(state: VersionScanView, line: Seq<char>) -> VersionScanView {
    if !line.begins("\t"@) {
        VersionScanView {
            packages: package::closed(state.packages, state.current),
            current: Some(PackageView::named(seq![], InstallState::Installed)),
        }
    } else {
        VersionScanView {
            current: match state.current {
                Some(package) => Some(record_spec(package, line.split("\t"@))),
                None => None,
            },
            ..state
        }
    }
}

impl Scanner for VersionScan {
    type State = VersionScanView;

    closed spec fn state(&self) -> VersionScanView {
        VersionScanView {
            packages: self.packages@.deep(),
            current: self.current.deep(),
        }
    }

    open spec fn next(state: VersionScanView, line: Seq<char>) -> VersionScanView {
        version_next_spec(state, line)
    }

    fn feed(&mut self, line: &[char]) {
        let current = self.current.take();
        if !text::begins(line, "\t") {
            package::close(&mut self.packages, current);
            self.current = Some(
                GoPackage { state: InstallState::Installed, ..GoPackage::default() },
            );
        } else if let Some(package) = current {
            self.current = Some(record(package, &text::split(line, "\t")));
        }
    }
}

/// The binaries that `go version -m` prints, each with its records below it.
pub open spec fn parse_version_m_spec(stdout: Seq<char>) -> Seq<PackageView> {
    let end = rows::scan(
        VersionScanView::start(),
        stdout.lines(),
        |state: VersionScanView, line: Seq<char>| version_next_spec(state, line),
    );
    package::closed(end.packages, end.current)
}

pub fn parse_version_m(stdout: &str) -> (r: Vec<GoPackage>)
    ensures
        r@.deep() == parse_version_m_spec(stdout@),
{
    let start = VersionScan {
        packages: Vec::new(),
        current: None,
    };
    assert(start.packages@.deep() =~= seq![]);
    let end = rows::scan_output(
        start,
        stdout,
        Ghost(|state: VersionScanView, line: Seq<char>| version_next_spec(state, line)),
    );
    let mut packages = end.packages;
    package::close(&mut packages, end.current);
    packages
}

impl Manager {
    pub open spec fn install_spec(self, ctx: OpContext) -> CmdView {
        CmdView::new(self.program@).arg("install"@).flag(ctx.dry_run, "-n"@)
    }

    fn install_command(&self, ctx: &OpContext) -> (r: Cmd)
        ensures
            r@ == self.install_spec(*ctx),
    {
        Cmd::new(&self.program).arg("install").flag(ctx.dry_run, "-n")
    }

    /// On a dry run the steps of the build are printed.
    pub fn install(&self, packages: &[PackageRequest], ctx: &OpContext) -> (r: Plan)
        ensures
            command::plan(r) == command::just(
                self.install_spec(*ctx).args(
                    packages@.deep().map_values(|q: RequestView| spec_spec(q)),
                ),
            ),
            command::all_elevated(command::plan(r), false),
            ctx.dry_run ==> command::all_carry(command::plan(r), "-n"@),
            command::plan(r) == command::just(
                CmdView::new(self.program@).arg("install"@).flag(ctx.dry_run, "-n"@).args(
                    packages@.deep().map_values(|q: RequestView| spec_spec(q)),
                ),
            ),
    {
        Ok(
            command::one(
                self.install_command(ctx).each(packages, spec, Ghost(|q: RequestView| spec_spec(q))),
            ),
        )
    }

    /// The directory of the binaries.
    pub open spec fn directory_spec(self, replies: Seq<ReplyView>) -> PartView<Seq<char>> {
        if replies.len() == 0 {
            PartView::Act(
                ActionView::Query(
                    CmdView::new(self.program@).arg("env"@).arg("GOBIN"@).arg("GOPATH"@),
                ),
            )
        } else if !replies[0].success {
            PartView::Fail(replies[0].failure())
        } else {
            match gobin_spec(replies[0].stdout) {
                Ok(dir) => PartView::Got(dir, replies.skip(1)),
                Err(error) => PartView::Fail(error),
            }
        }
    }

    fn directory<'a>(&self, replies: &'a [Reply]) -> (r: Part<'a, String>)
        ensures
            r@ == self.directory_spec(replies@.deep()),
    {
        if replies.len() == 0 {
            return Part::Act(
                Action::Query(Cmd::new(&self.program).arg("env").arg("GOBIN").arg("GOPATH")),
            );
        }
        let reply = session::next(replies);
        if !reply.success {
            return Part::Fail(reply.failure());
        }
        match gobin(&reply.stdout) {
            Ok(dir) => Part::Got(dir, session::later(replies)),
            Err(error) => Part::Fail(error),
        }
    }

    /// The binaries in the directory; without a directory there are none.
    pub open spec fn installed_spec(self, replies: Seq<ReplyView>) -> PartView<Seq<PackageView>> {
        match self.directory_spec(replies) {
            PartView::Act(action) => PartView::Act(action),
            PartView::Fail(error) => PartView::Fail(error),
            PartView::Got(dir, rest) => if rest.len() == 0 {
                PartView::Act(ActionView::IsDirectory(dir))
            } else if !rest[0].success {
                PartView::Got(seq![], rest.skip(1))
            } else if rest.len() == 1 {
                PartView::Act(
                    ActionView::Query(
                        CmdView::new(self.program@).arg("version"@).arg("-m"@).arg(dir),
                    ),
                )
            } else if !rest[1].success {
                PartView::Fail(rest[1].failure())
            } else {
                PartView::Got(parse_version_m_spec(rest[1].stdout), rest.skip(1).skip(1))
            },
        }
    }

    fn installed<'a>(&self, replies: &'a [Reply]) -> (r: Part<'a, Listing<GoPackage>>)
        ensures
            r@ == self.installed_spec(replies@.deep()),
    {
        let (dir, rest) = match self.directory(replies) {
            Part::Act(action) => {
                return Part::Act(action);
            },
            Part::Fail(error) => {
                return Part::Fail(error);
            },
            Part::Got(dir, rest) => (dir, rest),
        };
        if rest.len() == 0 {
            return Part::Act(Action::IsDirectory(dir));
        }
        let is_directory = session::next(rest).success;
        let after = session::later(rest);
        if !is_directory {
            return Part::Got(session::nothing(), after);
        }
        if rest.len() == 1 {
            return Part::Act(
                Action::Query(Cmd::new(&self.program).arg("version").arg("-m").arg(&dir)),
            );
        }
        assert(rest@.deep()[1] == rest@[1]@);
        if !rest[1].success {
            return Part::Fail(rest[1].failure());
        }
        Part::Got(
            Listing { packages: parse_version_m(&rest[1].stdout) },
            session::later(after),
        )
    }

    /// Deletes one binary and says so; on a dry run it only says so.
    pub open spec fn remove_one_spec(
        self,
        dir: Seq<char>,
        name: Seq<char>,
        ctx: OpContext,
        replies: Seq<ReplyView>,
    ) -> PartView<()> {
        let path = path::join_spec(dir, binary_name_spec(name));
        if replies.len() == 0 {
            PartView::Act(ActionView::IsFile(path))
        } else if !replies[0].success {
            PartView::Fail(ErrorView::NotFound(name))
        } else if ctx.dry_run {
            session::reporting("would remove "@ + path, replies.skip(1))
        } else if replies.len() == 1 {
            PartView::Act(ActionView::RemoveFile(path))
        } else if !replies[1].success {
            PartView::Fail(replies[1].failure())
        } else {
            session::reporting("removed "@ + path, replies.skip(1).skip(1))
        }
    }

    fn remove_one<'a>(
        &self,
        dir: &str,
        name: &str,
        ctx: &OpContext,
        replies: &'a [Reply],
    ) -> (r: Part<'a, Finished>)
        ensures
            r@ == self.remove_one_spec(dir@, name@, *ctx, replies@.deep()),
    {
        let path = path::join(dir, &binary_name(name));
        if replies.len() == 0 {
            return Part::Act(Action::IsFile(path));
        }
        let is_file = session::next(replies).success;
        let rest = session::later(replies);
        if !is_file {
            return Part::Fail(error::not_found(name));
        }
        if ctx.dry_run {
            return session::report(text::cat("would remove ", &path), rest);
        }
        if replies.len() == 1 {
            return Part::Act(Action::RemoveFile(path));
        }
        assert(replies@.deep()[1] == replies@[1]@);
        if !replies[1].success {
            return Part::Fail(replies[1].failure());
        }
        session::report(text::cat("removed ", &path), session::later(rest))
    }

    /// Deletes binaries one after the other.
    pub open spec fn remove_each_spec(
        self,
        dir: Seq<char>,
        packages: Seq<RequestView>,
        ctx: OpContext,
        replies: Seq<ReplyView>,
    ) -> StepView<()>
        decreases packages.len(),
    {
        if packages.len() == 0 {
            StepView::Done(())
        } else {
            match self.remove_one_spec(dir, packages[0].name, ctx, replies) {
                PartView::Act(action) => StepView::Act(action),
                PartView::Fail(error) => StepView::Fail(error),
                PartView::Got(_, rest) => self.remove_each_spec(
                    dir,
                    packages.skip(1),
                    ctx,
                    rest,
                ),
            }
        }
    }

    pub fn remove(
        &self,
        packages: &[PackageRequest],
        ctx: &OpContext,
        replies: &[Reply],
    ) -> (r: Step<Finished>)
        ensures
            r@ == match self.directory_spec(replies@.deep()) {
                PartView::Act(action) => StepView::Act(action),
                PartView::Fail(error) => StepView::Fail(error),
                PartView::Got(dir, rest) => self.remove_each_spec(
                    dir,
                    packages@.deep(),
                    *ctx,
                    rest,
                ),
            },
            ctx.dry_run ==> r@.deletes_nothing(),
            r@.unprivileged(),
    {
        let (dir, after) = match self.directory(replies) {
            Part::Act(action) => {
                return Step::Act(action);
            },
            Part::Fail(error) => {
                return Step::Fail(error);
            },
            Part::Got(dir, rest) => (dir, rest),
        };
        let ghost all = packages@.deep();
        let mut rest = after;
        let mut i: usize = 0;
        assert(all.skip(0) =~= all);
        while i < packages.len()
            invariant
                i <= packages.len(),
                all == packages@.deep(),
                self.directory_spec(replies@.deep()) == PartView::Got(dir@, after@.deep()),
                self.remove_each_spec(dir@, all, *ctx, after@.deep()) == self.remove_each_spec(
                    dir@,
                    all.skip(i as int),
                    *ctx,
                    rest@.deep(),
                ),
            decreases packages.len() - i,
        {
            assert(all.skip(i as int)[0] == packages@[i as int]@);
            assert(all.skip(i as int).skip(1) =~= all.skip(i + 1));
            rest =
            match self.remove_one(&dir, &packages[i].name, ctx, rest) {
                Part::Act(action) => {
                    return Step::Act(action);
                },
                Part::Fail(error) => {
                    return Step::Fail(error);
                },
                Part::Got(_, rest) => rest,
            };
            i += 1;
        }
        Step::Done(Finished)
    }

    pub fn list_installed(&self, replies: &[Reply]) -> (r: Step<Listing<GoPackage>>)
        ensures
            r@ == self.installed_spec(replies@.deep()).whole(),
            r@.only_looks(),
    {
        self.installed(replies).whole()
    }

    /// A module is found by its path or by the name of its binary.
    pub fn info(&self, name: &str, replies: &[Reply]) -> (r: Step<GoPackage>)
        ensures
            r@ == match self.installed_spec(replies@.deep()) {
                PartView::Act(action) => StepView::Act(action),
                PartView::Fail(error) => StepView::Fail(error),
                PartView::Got(packages, _) => session::found(
                    known_as_spec(packages, name@),
                    name@,
                ),
            },
            r@.only_looks(),
    {
        match self.installed(replies) {
            Part::Act(action) => Step::Act(action),
            Part::Fail(error) => Step::Fail(error),
            Part::Got(listing, _) => session::find(known_as(listing.packages, name), name),
        }
    }

    /// Installs again: what is named, or else every binary at its latest
    /// version.
    pub open spec fn upgrade_spec(
        self,
        packages: Seq<RequestView>,
        ctx: OpContext,
        replies: Seq<ReplyView>,
    ) -> StepView<()> {
        if packages.len() > 0 {
            session::running(
                self.install_spec(ctx).args(packages.map_values(|q: RequestView| spec_spec(q))),
                replies,
            ).whole()
        } else {
            match self.installed_spec(replies) {
                PartView::Act(action) => StepView::Act(action),
                PartView::Fail(error) => StepView::Fail(error),
                PartView::Got(installed, rest) => if installed.len() == 0 {
                    StepView::Done(())
                } else {
                    session::running(
                        self.install_spec(ctx).args(
                            installed.map_values(|p: PackageView| p.name + "@latest"@),
                        ),
                        rest,
                    ).whole()
                },
            }
        }
    }

    pub fn upgrade(
        &self,
        packages: &[PackageRequest],
        ctx: &OpContext,
        replies: &[Reply],
    ) -> (r: Step<Finished>)
        ensures
            r@ == self.upgrade_spec(packages@.deep(), *ctx, replies@.deep()),
            ctx.dry_run ==> r@.runs_with("-n"@),
            r@.unprivileged(),
            packages@.len() == 0 && replies@.len() == 3 && replies@[0].success && replies@[1].success
                && replies@[2].success && gobin_spec(replies@[0].stdout@) is Ok ==> ({
                let installed = parse_version_m_spec(replies@[2].stdout@);
                if installed.len() == 0 {
                    r@ == StepView::Done(())
                } else {
                    &&& r@ matches StepView::Act(ActionView::Run(command))
                    &&& command.program == self.program@
                    &&& command.args.len() == installed.len() + if ctx.dry_run {
                        2int
                    } else {
                        1int
                    }
                    &&& command.args[0] == "install"@
                    &&& ctx.dry_run ==> command.args[1] == "-n"@
                    &&& forall|i: int|
                        0 <= i < installed.len() ==> command.args[command.args.len()
                            - installed.len() + i] == (#[trigger] installed[i]).name + "@latest"@
                }
            }),
            packages@.len() == 0 && replies@.len() == 2 && replies@[0].success
                && !replies@[1].success && gobin_spec(replies@[0].stdout@) is Ok ==> r@
                == StepView::Done(()),
            packages@.len() > 0 && replies@.len() == 0 ==> ({
                &&& r@ matches StepView::Act(ActionView::Run(command))
                &&& command.program == self.program@
                &&& command.args.len() == packages@.len() + if ctx.dry_run {
                    2int
                } else {
                    1int
                }
                &&& command.args[0] == "install"@
                &&& ctx.dry_run ==> command.args[1] == "-n"@
                &&& forall|i: int|
                    0 <= i < packages@.len() && (#[trigger] packages@[i])@.version is None
                        ==> command.args[command.args.len() - packages@.len() + i]
                        == packages@[i].name@ + "@latest"@
            }),
    {
        proof {
            let given = replies@.deep();
            if given.len() == 3 {
                assert(given.skip(1).skip(1).skip(1) =~= seq![]);
            }
            assert forall|i: int| 0 <= i < packages@.len() implies packages@.deep()[i]
                == #[trigger] packages@[i]@ by {}
        }
        if packages.len() > 0 {
            return session::run(
                self.install_command(ctx).each(packages, spec, Ghost(|q: RequestView| spec_spec(q))),
                replies,
            ).whole();
        }
        match self.installed(replies) {
            Part::Act(action) => Step::Act(action),
            Part::Fail(error) => Step::Fail(error),
            Part::Got(listing, rest) => {
                if listing.packages.len() == 0 {
                    return Step::Done(Finished);
                }
                session::run(
                    self.install_command(ctx).args(&latest(&listing.packages)),
                    rest,
                ).whole()
            },
        }
    }
}

/// The first package with that path or that binary.
pub open spec fn known_as_spec(packages: Seq<PackageView>, name: Seq<char>) -> Option<PackageView> {
    rows::first(
        packages,
        |p: PackageView| p.name == name || binary_name_spec(p.name) == name,
    )
}

pub fn known_as(packages: Vec<GoPackage>, name: &str) -> (r: Option<GoPackage>)
    ensures
        r.deep() == known_as_spec(packages@.deep(), name@),
{
    let known = |p: &GoPackage| -> (b: bool)
        ensures
            b == (p@.name == name@ || binary_name_spec(p@.name) == name@),
        { text::equal(&p.name, name) || text::equal(&binary_name(&p.name), name) };
    rows::take_first(
        packages,
        known,
        Ghost(|p: PackageView| p.name == name@ || binary_name_spec(p.name) == name@),
    )
}

fn latest(packages: &Vec<GoPackage>) -> (r: Vec<String>)
    ensures
        r@.deep() == packages@.deep().map_values(|p: PackageView| p.name + "@latest"@),
{
    let ghost all = packages@.deep().map_values(|p: PackageView| p.name + "@latest"@);
    let mut out: Vec<String> = rows::empty();
    let mut i: usize = 0;
    assert(all.take(0) =~= seq![]);
    while i < packages.len()
        invariant
            i <= packages.len(),
            all == packages@.deep().map_values(|p: PackageView| p.name + "@latest"@),
            out@.deep() == all.take(i as int),
        decreases packages.len() - i,
    {
        rows::push(&mut out, text::cat(&packages[i].name, "@latest"));
        assert(all[i as int] == packages@[i as int]@.name + "@latest"@);
        assert(all.take(i + 1) =~= all.take(i as int).push(all[i as int]));
        i += 1;
    }
    assert(all.take(all.len() as int) =~= all);
    out
}

/// A binary is a file in the directory: no slash is in its name.
pub proof fn binaries_have_no_directory(module: Seq<char>)
    ensures
        !binary_name_spec(module).contains('/'),
{
    reveal_strlit("/");
    let path = module.trim_back("/"@);
    let segments = path.split("/"@);
    text::lemma_split_some(path, "/"@);
    let i = if is_major_spec(segments.last()) && segments.len() > 1 {
        segments.len() - 2
    } else {
        segments.len() - 1
    };
    let name = segments[i];
    assert forall|j: int| 0 <= j < name.len() implies #[trigger] name[j] != '/' by {
        text::pieces_have_no_separator(path, "/"@, i, j);
        assert("/"@[0] == '/');
    }
}

} // verus!
