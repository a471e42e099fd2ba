//! Leiningen, Clojure's build tool, in the project of the working directory.
//!
//! What is installed is the dependencies of the project; a search asks the
//! registries. `lein change` adds a dependency to `project.clj`, at Maven's
//! `RELEASE`, and `lein deps` fetches it. Nothing takes a dependency out
//! again. lein never asks, and nothing is elevated.

use vstd::prelude::*;

use crate::command::{self, Cmd, CmdView, Plan};
use crate::detect::{self, Detection};
use crate::error::{self, Error, ErrorView};
use crate::package::{Details, InstallState, Package, PackageView};
use crate::profile::{basic_capabilities, Capabilities, ManagerKind, Profile};
use crate::request::{self, OpContext, PackageRequest, RequestView};
use crate::rows::{self, Scanner};
use crate::session::{self, Action, ActionView, Listing, Reply, ReplyView, Step, StepView};
use crate::text::{self, chars, Deep, Pieces, Text};

verus! {

/// Finds the manager and sets it up.
#[derive(Clone, Copy, Debug)]
pub struct Factory;

/// The factory of this backend.
pub fn factory() -> (r: Factory)
    ensures
        r == Factory,
{
    Factory
}

impl Factory {
    pub fn id(&self) -> (r: &'static str)
        ensures
            r@ == "leiningen"@,
    {
        "leiningen"
    }

    /// The programs to look for, in the order of preference.
    pub fn programs(&self) -> (r: Vec<&'static str>)
        ensures
            r@.deep() == seq!["lein"@],
    {
        let mut out: Vec<&'static str> = Vec::new();
        out.push("lein");
        assert(out@.deep() =~= seq!["lein"@]);
        out
    }

    /// Whether the backend can be used, given where each program was found.
    pub fn detect(&self, found: &[Option<String>]) -> (r: Detection)
        ensures
            r@ == detect::detected(found@, "`lein` not found on PATH"@),
    {
        detect::detect(found, "`lein` not found on PATH")
    }

    /// The manager, given where each program was found.
    pub fn create(&self, found: &[Option<String>]) -> (r: Result<Manager, Error>)
        ensures
            match r {
                Ok(manager) => detect::required(found@, "leiningen"@) == Ok::<Seq<char>, ErrorView>(
                    manager.program@,
                ),
                Err(error) => detect::required(found@, "leiningen"@) == Err::<Seq<char>, ErrorView>(
                    error@,
                ),
            },
    {
        match detect::require(found, "leiningen") {
            Ok(program) => Ok(Manager { program }),
            Err(error) => Err(error),
        }
    }
}

/// The manager, driving `program`.
#[derive(Debug)]
pub struct Manager {
    pub program: String,
}

impl Manager {
    /// What the manager says of itself.
    pub fn profile(&self) -> (r: Profile)
        ensures
            r.id@ == "leiningen"@,
            r.display_name@ == "Leiningen"@,
            r.kind == ManagerKind::Language,
            r.database_id@ == "jvm"@,
            r.capabilities == (Capabilities {
                search: true,
                remove: false,
                ..Capabilities::basic()
            }),
            r.elevates == false,
    {
        Profile {
            id: "leiningen",
            display_name: "Leiningen",
            kind: ManagerKind::Language,
            database_id: "jvm",
            capabilities: Capabilities { search: true, remove: false, ..basic_capabilities() },
            elevates: false,
        }
    }
}

/// A package as lein describes it.
#[derive(Debug)]
pub struct LeiningenPackage {
    /// The artifact, with its group where that differs.
    pub name: String,
    pub version: Option<String>,
    pub latest_version: Option<String>,
    pub description: Option<String>,
    pub state: InstallState,
}

impl View for LeiningenPackage {
    type V = PackageView;

    open spec fn view(&self) -> PackageView {
        PackageView {
            name: self.name@,
            version: self.version.deep(),
            latest_version: self.latest_version.deep(),
            description: self.description.deep(),
            state: self.state,
            ..PackageView::blank()
        }
    }
}

impl Default for LeiningenPackage {
    fn default() -> (r: LeiningenPackage)
        ensures
            r@ == PackageView::blank(),
    {
        LeiningenPackage {
            name: String::new(),
            version: None,
            latest_version: None,
            description: None,
            state: InstallState::Unknown,
        }
    }
}

impl Package for LeiningenPackage {
    open spec fn manager_id() -> Seq<char> {
        "leiningen"@
    }

    fn manager(&self) -> (r: &'static str) {
        "leiningen"
    }

    fn details(&self) -> (r: Details<'_>) {
        Details {
            version: self.version.as_ref(),
            latest_version: self.latest_version.as_ref(),
            description: self.description.as_ref(),
            ..Details::of(&self.name, self.state)
        }
    }
}

/// A dependency is added at its newest release.
pub open spec fn reject_pins_spec(requests: Seq<RequestView>) -> Result<(), ErrorView> {
    request::pins_refused(
        requests,
        "leiningen: `"@,
        "` pins a version, but this backend always adds the newest release"@,
    )
}

pub fn reject_pins(requests: &[PackageRequest]) -> (r: Result<(), Error>)
    ensures
        error::outcome(r) == reject_pins_spec(requests@.deep()),
{
    request::refuse_pins(
        requests,
        "leiningen: `",
        "` pins a version, but this backend always adds the newest release",
    )
}

/// The vector of a dependency, as `lein change` takes it.
pub open spec fn dependency_vector_spec(name: Seq<char>) -> Seq<char> {
    "["@ + name + " \"RELEASE\"]"@
}

pub fn dependency_vector(name: &str) -> (r: String)
    ensures
        r@ == dependency_vector_spec(name@),
{
    text::cat3("[", name, " \"RELEASE\"]")
}

/// Whether an artifact is the one that is asked for: a name without a group
/// fits the artifact of any group.
pub open spec fn matches_name_spec(printed: Seq<char>, requested: Seq<char>) -> bool {
    printed == requested || (!requested.has("/"@) && match printed.cut_last('/') {
        Some((_, artifact)) => artifact == requested,
        None => false,
    })
}

pub fn matches_name(printed: &str, requested: &str) -> (r: bool)
    ensures
        r == matches_name_spec(printed@, requested@),
{
    if text::equal(printed, requested) {
        return true;
    }
    if text::has(&chars(requested), "/") {
        return false;
    }
    match text::cut_last(&chars(printed), '/') {
        Some((_, artifact)) => text::is(artifact, requested),
        None => false,
    }
}

/// The artifact and its version inside a vector, `name "version" …`.
pub open spec fn parse_coordinates_spec(inner: Seq<char>) -> Option<
    (Seq<char>, Option<Seq<char>>),
> {
    match inner.words().nth(0) {
        None => None,
        Some(name) => Some((name, inner.split("\""@).nth(1))),
    }
}

pub fn parse_coordinates(inner: &str) -> (r: Option<(String, Option<String>)>)
    ensures
        coordinates_model(r) == parse_coordinates_spec(inner@),
{
    coordinates(&chars(inner))
}

/// The model of coordinates.
pub open spec fn coordinates_model(r: Option<(String, Option<String>)>) -> Option<
    (Seq<char>, Option<Seq<char>>),
> {
    match r {
        Some((name, version)) => Some((name@, version.deep())),
        None => None,
    }
}

fn coordinates(inner: &[char]) -> (r: Option<(String, Option<String>)>)
    ensures
        coordinates_model(r) == parse_coordinates_spec(inner@),
{
    match text::nth(&text::words(inner), 0) {
        None => None,
        Some(name) => Some(
            (text::string(name), text::maybe_string(text::nth(&text::split(inner, "\""), 1))),
        ),
    }
}

/// The reading of `lein search`.
struct SearchScan {
    packages: Vec<LeiningenPackage>,
}

/// The model of the reading of `lein search`.
pub struct SearchScanView {
    pub packages: Seq<PackageView>,
}

impl SearchScanView {
    pub open spec fn start() -> SearchScanView {
        SearchScanView {
            packages: seq![],
        }
    }
}

/// Packages with a description for the last one, if that has none.
pub open spec fn described_spec(packages: Seq<PackageView>, text: Seq<char>) -> Seq<PackageView> {
    if packages.len() > 0 && text.len() > 0 && packages.last().description is None {
        packages.drop_last().push(
            PackageView { description: Some(text), ..packages.last() },
        )
    } else {
        packages
    }
}

fn describe(packages: &mut Vec<LeiningenPackage>, text: &[char])
    ensures
        final(packages)@.deep() == described_spec(old(packages)@.deep(), text@),
{
    if text.len() == 0 {
        return;
    }
    if let Some(last) = rows::pop(packages) {
        if last.description.is_none() {
            rows::push(
                packages,
                LeiningenPackage { description: Some(text::string(text)), ..last },
            );
        } else {
            let ghost before = old(packages)@.deep();
            assert(before.drop_last().push(before.last()) =~= before);
            rows::push(packages, last);
        }
    }
}

/// A header, `[name "version"]`, perhaps with a description behind it.
pub open spec fn header_spec(line: Seq<char>) -> Option<PackageView> {
    match line.without_prefix("["@) {
        None => None,
        Some(rest) => match rest.cut("]"@) {
            None => None,
            Some((inner, trailing)) => match parse_coordinates_spec(inner) {
                None => None,
                Some((name, version)) => Some(
                    PackageView {
                        description: trailing.trim().filled(),
                        ..PackageView::versioned(name, version, InstallState::Available)
                    },
                ),
            },
        },
    }
}

fn header(line: &[char]) -> (r: Option<LeiningenPackage>)
    ensures
        r.deep() == header_spec(line@),
{
    let rest = match text::without_prefix(line, "[") {
        None => {
            return None;
        },
        Some(rest) => rest,
    };
    let (inner, trailing) = match text::cut(rest, "]") {
        None => {
            return None;
        },
        Some(pair) => pair,
    };
    match coordinates(inner) {
        None => None,
        Some((name, version)) => Some(
            LeiningenPackage {
                name,
                version,
                description: text::maybe_string(text::filled(text::trim(trailing))),
                state: InstallState::Available,
                ..LeiningenPackage::default()
            },
        ),
    }
}

/// The reading of `lein search` after one more line: an indented line
/// describes the package above it.
pub open spec fn search_next_spec(state: SearchScanView, line: Seq<char>) -> SearchScanView {
    SearchScanView {
        packages: if line.begins_blank() {
            described_spec(state.packages, line.trim())
        } else {
            rows::added(state.packages, header_spec(line))
        },
    }
}

impl Scanner for SearchScan {
    type State = SearchScanView;

    closed spec fn state(&self) -> SearchScanView {
        SearchScanView {
            packages: self.packages@.deep(),
        }
    }

    open spec fn next(state: SearchScanView, line: Seq<char>) -> SearchScanView {
        search_next_spec(state, line)
    }

    fn feed(&mut self, line: &[char]) {
        if text::begins_blank(line) {
            describe(&mut self.packages, text::trim(line));
        } else {
            rows::push_some(&mut self.packages, header(line));
        }
    }
}

/// The packages that `lein search` prints, between its banners.
pub open spec fn parse_search_spec(stdout: Seq<char>) -> Seq<PackageView> {
    rows::scan(
        SearchScanView::start(),
        stdout.lines(),
        |state: SearchScanView, line: Seq<char>| search_next_spec(state, line),
    ).packages
}

pub fn parse_search(stdout: &str) -> (r: Vec<LeiningenPackage>)
    ensures
        r@.deep() == parse_search_spec(stdout@),
{
    let start = SearchScan {
        packages: Vec::new(),
    };
    assert(start.packages@.deep() =~= seq![]);
    rows::scan_output(
        start,
        stdout,
        Ghost(|state: SearchScanView, line: Seq<char>| search_next_spec(state, line)),
    ).packages
}

/// A resolved artifact: an indented vector. Banners and warnings are not
/// indented.
pub open spec fn tree_row_spec(line: Seq<char>) -> Option<PackageView> {
    if !line.begins_blank() {
        None
    } else {
        match line.trim().without_prefix("["@) {
            None => None,
            Some(inner) => match parse_coordinates_spec(inner) {
                None => None,
                Some((name, version)) => Some(
                    PackageView::versioned(name, version, InstallState::Installed),
                ),
            },
        }
    }
}

fn tree_row(line: &[char]) -> (r: Option<LeiningenPackage>)
    ensures
        r.deep() == tree_row_spec(line@),
{
    if !text::begins_blank(line) {
        return None;
    }
    match text::without_prefix(text::trim(line), "[") {
        None => None,
        Some(inner) => match coordinates(inner) {
            None => None,
            Some((name, version)) => Some(
                LeiningenPackage {
                    name,
                    version,
                    state: InstallState::Installed,
                    ..LeiningenPackage::default()
                },
            ),
        },
    }
}

/// The artifacts that `lein deps :tree` prints.
pub open spec fn parse_tree_spec(stdout: Seq<char>) -> Seq<PackageView> {
    rows::select(stdout.lines(), |line: Seq<char>| tree_row_spec(line))
}

pub fn parse_tree(stdout: &str) -> (r: Vec<LeiningenPackage>)
    ensures
        r@.deep() == parse_tree_spec(stdout@),
        crate::package::all_named(r@.deep()),
        crate::package::all_in(r@.deep(), InstallState::Installed),
{
    proof {
        rows::selected_have(
            stdout@.lines(),
            |line: Seq<char>| tree_row_spec(line),
            |p: PackageView| p.name.len() > 0 && p.state == InstallState::Installed,
        );
    }
    rows::select_rows(stdout, tree_row, Ghost(|line: Seq<char>| tree_row_spec(line)))
}

/// The tree, which different versions of lein print to different streams.
pub open spec fn deps_tree_spec(reply: ReplyView) -> Seq<PackageView> {
    let packages = parse_tree_spec(reply.stdout);
    if packages.len() == 0 {
        parse_tree_spec(reply.stderr)
    } else {
        packages
    }
}

pub fn deps_tree(reply: &Reply) -> (r: Vec<LeiningenPackage>)
    ensures
        r@.deep() == deps_tree_spec(reply@),
{
    let packages = parse_tree(&reply.stdout);
    if packages.len() == 0 {
        parse_tree(&reply.stderr)
    } else {
        packages
    }
}

/// The first package that fits a name.
pub open spec fn matching_spec(packages: Seq<PackageView>, name: Seq<char>) -> Option<PackageView> {
    rows::first(packages, |p: PackageView| matches_name_spec(p.name, name))
}

pub fn matching(packages: Vec<LeiningenPackage>, name: &str) -> (r: Option<LeiningenPackage>)
    ensures
        r.deep() == matching_spec(packages@.deep(), name@),
{
    let fits = |p: &LeiningenPackage| -> (b: bool)
        ensures
            b == matches_name_spec(p@.name, name@),
        { matches_name(&p.name, name) };
    rows::take_first(
        packages,
        fits,
        Ghost(|p: PackageView| matches_name_spec(p.name, name@)),
    )
}

/// What the registries and the project say of a package.
pub open spec fn merge_spec(
    found: Option<PackageView>,
    installed: Option<PackageView>,
) -> Option<PackageView> {
    match (found, installed) {
        (Some(package), Some(local)) => Some(
            if local.version is Some && local.version != package.version {
                PackageView {
                    version: local.version,
                    latest_version: package.version,
                    state: InstallState::Installed,
                    ..package
                }
            } else {
                PackageView { state: InstallState::Installed, ..package }
            },
        ),
        (Some(package), None) => Some(package),
        (None, installed) => installed,
    }
}

pub fn merge(found: Option<LeiningenPackage>, installed: Option<LeiningenPackage>) -> (r: Option<
    LeiningenPackage,
>)
    ensures
        r.deep() == merge_spec(found.deep(), installed.deep()),
{
    match (found, installed) {
        (Some(package), Some(local)) => {
            if local.version.is_some() && !text::equal_maybe(&local.version, &package.version) {
                Some(
                    LeiningenPackage {
                        version: local.version,
                        latest_version: package.version,
                        state: InstallState::Installed,
                        ..package
                    },
                )
            } else {
                Some(LeiningenPackage { state: InstallState::Installed, ..package })
            }
        },
        (Some(package), None) => Some(package),
        (None, installed) => installed,
    }
}

impl Manager {
    /// What prints the tree of dependencies.
    pub open spec fn tree_command_spec(self) -> CmdView {
        CmdView::query(self.program@).arg("deps"@).arg(":tree"@)
    }

    fn tree_command(&self) -> (r: Cmd)
        ensures
            r@ == self.tree_command_spec(),
    {
        Cmd::query(&self.program).arg("deps").arg(":tree")
    }

    /// Adds each dependency, then fetches them all.
    pub fn install(&self, packages: &[PackageRequest], ctx: &OpContext) -> (r: Plan)
        ensures
            command::plan(r) == match reject_pins_spec(packages@.deep()) {
                Err(error) => Err(error),
                Ok(_) => if ctx.dry_run {
                    Err(ErrorView::Other("leiningen: install has no dry-run mode"@))
                } else {
                    Ok(
                        packages@.deep().map_values(
                            |q: RequestView|
                                CmdView::new(self.program@).arg("change"@).arg(
                                    ":dependencies"@,
                                ).arg("conj"@).arg(dependency_vector_spec(q.name)),
                        ).push(CmdView::new(self.program@).arg("deps"@)),
                    )
                },
            },
            command::all_elevated(command::plan(r), false),
            ctx.dry_run ==> r is Err,
            request::first_pin(packages@.deep()) is Some ==> r is Err,
            command::plan(r) == match (
                request::pins_refused(
                    packages@.deep(),
                    "leiningen: `"@,
                    "` pins a version, but this backend always adds the newest release"@,
                )
            ) {
                Err(error) => Err(error),
                Ok(_) => if ctx.dry_run {
                    Err(ErrorView::Other("leiningen: install has no dry-run mode"@))
                } else {
                    Ok(
                        packages@.deep().map_values(
                            |q: RequestView| CmdView::new(self.program@).arg("change"@).arg(
                                ":dependencies"@,
                            ).arg("conj"@).arg(
                                dependency_vector_spec(q.name),
                            ),
                        ).push(CmdView::new(self.program@).arg("deps"@)),
                    )
                },
            },
    {
        if let Err(error) = reject_pins(packages) {
            return Err(error);
        }
        if ctx.dry_run {
            return Err(error::other("leiningen: install has no dry-run mode"));
        }
        let change = |q: &PackageRequest| -> (c: Cmd)
            ensures
                c@ == CmdView::new(self.program@).arg("change"@).arg(":dependencies"@).arg(
                    "conj"@,
                ).arg(dependency_vector_spec(q@.name)),
            {
                Cmd::new(&self.program).arg("change").arg(":dependencies").arg("conj").arg(
                    &dependency_vector(&q.name),
                )
            };
        let commands = command::one_each(
            packages,
            change,
            Ghost(
                |q: RequestView|
                    CmdView::new(self.program@).arg("change"@).arg(":dependencies"@).arg(
                        "conj"@,
                    ).arg(dependency_vector_spec(q.name)),
            ),
        );
        Ok(command::and(commands, Cmd::new(&self.program).arg("deps")))
    }

    /// A dependency has to be taken out by hand.
    pub fn remove(&self, packages: &[PackageRequest], ctx: &OpContext) -> (r: Plan)
        ensures
            command::plan(r) == Err::<Seq<CmdView>, ErrorView>(
                ErrorView::Other(
                    "leiningen: lein has no verb that removes a dependency; delete "@
                        + text::join_of(request::names(packages@.deep()), ", "@)
                        + " from project.clj by hand"@,
                ),
            ),
    {
        Err(
            Error::Other(
                text::cat3(
                    "leiningen: lein has no verb that removes a dependency; delete ",
                    &request::joined_names(packages, ", "),
                    " from project.clj by hand",
                ),
            ),
        )
    }

    pub fn list_installed(&self, replies: &[Reply]) -> (r: Step<Listing<LeiningenPackage>>)
        ensures
            r@ == (if replies@.len() == 0 {
                session::ask(self.tree_command_spec())
            } else if !replies@[0].success {
                StepView::Fail(replies@[0]@.failure())
            } else {
                StepView::Done(deps_tree_spec(replies@[0]@))
            }),
            r@.only_looks(),
            r@.in_c_locale(),
            r@ == (
                if replies@.len() == 0 {
                    session::ask(CmdView::query(self.program@).arg("deps"@).arg(":tree"@))
                } else if !replies@[0].success { StepView::Fail(replies@[0]@.failure()) } else {
                    StepView::Done(deps_tree_spec(replies@[0]@))
                }
            ),
    {
        if replies.len() == 0 {
            return session::query(self.tree_command());
        }
        if !replies[0].success {
            return Step::Fail(replies[0].failure());
        }
        Step::Done(Listing { packages: deps_tree(&replies[0]) })
    }

    pub fn search(&self, query: &str, replies: &[Reply]) -> (r: Step<Listing<LeiningenPackage>>)
        ensures
            r@ == session::listed(
                CmdView::query(self.program@).arg("search"@).arg(query@),
                replies@.deep(),
                |out: Seq<char>| parse_search_spec(out),
            ),
            r@.only_looks(),
            r@.in_c_locale(),
    {
        session::list(
            Cmd::query(&self.program).arg("search").arg(query),
            replies,
            parse_search,
            Ghost(|out: Seq<char>| parse_search_spec(out)),
        )
    }

    /// The registries are asked, then the project; outside a project nothing
    /// is installed.
    pub fn info(&self, name: &str, replies: &[Reply]) -> (r: Step<LeiningenPackage>)
        ensures
            r@ == (if replies@.len() == 0 {
                session::ask(CmdView::query(self.program@).arg("search"@).arg(name@))
            } else if !replies@[0].success {
                StepView::Fail(replies@[0]@.failure())
            } else if replies@.len() == 1 {
                StepView::Act(ActionView::Probe(self.tree_command_spec()))
            } else {
                session::found(
                    merge_spec(
                        matching_spec(parse_search_spec(replies@[0].stdout@), name@),
                        if replies@[1].success {
                            matching_spec(deps_tree_spec(replies@[1]@), name@)
                        } else {
                            None
                        },
                    ),
                    name@,
                )
            }),
            r@.only_looks(),
            r@.in_c_locale(),
            r@ == (
                if replies@.len() == 0 {
                    session::ask(CmdView::query(self.program@).arg("search"@).arg(name@))
                } else if !replies@[0].success {
                    StepView::Fail(replies@[0]@.failure())
                } else if replies@.len() == 1 {
                    StepView::Act(
                        ActionView::Probe(
                            CmdView::query(self.program@).arg("deps"@).arg(":tree"@),
                        ),
                    )
                } else {
                    session::found(
                        merge_spec(
                            matching_spec(parse_search_spec(replies@[0].stdout@), name@),
                            if replies@[1].success {
                                matching_spec(deps_tree_spec(replies@[1]@), name@)
                            } else { None },
                        ),
                        name@,
                    )
                }
            ),
    {
        if replies.len() == 0 {
            return session::query(Cmd::query(&self.program).arg("search").arg(name));
        }
        if !replies[0].success {
            return Step::Fail(replies[0].failure());
        }
        if replies.len() == 1 {
            return Step::Act(Action::Probe(self.tree_command()));
        }
        let found = matching(parse_search(&replies[0].stdout), name);
        let installed = if replies[1].success {
            matching(deps_tree(&replies[1]), name)
        } else {
            None
        };
        session::find(merge(found, installed), name)
    }
}

} // verus!
