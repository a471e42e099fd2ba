//! Gradle, in the project of the working directory.
//!
//! Gradle builds projects. Dependencies are declared in the build script, so
//! nothing can be installed or removed by a command. What can be read is the
//! tree of resolved dependencies, over all configurations.

use vstd::prelude::*;

use crate::command::{self, Cmd, CmdView, Plan};
use crate::detect::{self, Detection};
use crate::error::{self, Error, ErrorView};
use crate::package::{Details, InstallState, Package, PackageView};
use crate::profile::{basic_capabilities, Capabilities, ManagerKind, Profile};
use crate::request::{OpContext, PackageRequest};
use crate::rows::{self, Scanner};
use crate::session::{self, Listing, Reply, Step, StepView};
use crate::text::{self, chars, Deep, Pieces, Text};

verus! {

/// Finds the manager and sets it up.
#[derive(Clone, Copy, Debug)]
pub struct Factory;

/// The factory of this backend.
pub fn factory() -> (r: Factory)
    ensures
        r == Factory,
{
    Factory
}

impl Factory {
    pub fn id(&self) -> (r: &'static str)
        ensures
            r@ == "gradle"@,
    {
        "gradle"
    }

    /// The programs to look for, in the order of preference.
    pub fn programs(&self) -> (r: Vec<&'static str>)
        ensures
            r@.deep() == seq!["gradle"@],
    {
        let mut out: Vec<&'static str> = Vec::new();
        out.push("gradle");
        assert(out@.deep() =~= seq!["gradle"@]);
        out
    }

    /// Whether the backend can be used, given where each program was found.
    pub fn detect(&self, found: &[Option<String>]) -> (r: Detection)
        ensures
            r@ == detect::detected(found@, "`gradle` not found on PATH"@),
    {
        detect::detect(found, "`gradle` not found on PATH")
    }

    /// The manager, given where each program was found.
    pub fn create(&self, found: &[Option<String>]) -> (r: Result<Manager, Error>)
        ensures
            match r {
                Ok(manager) => detect::required(found@, "gradle"@) == Ok::<Seq<char>, ErrorView>(
                    manager.program@,
                ),
                Err(error) => detect::required(found@, "gradle"@) == Err::<Seq<char>, ErrorView>(
                    error@,
                ),
            },
    {
        match detect::require(found, "gradle") {
            Ok(program) => Ok(Manager { program }),
            Err(error) => Err(error),
        }
    }
}

/// The manager, driving `program`.
#[derive(Debug)]
pub struct Manager {
    pub program: String,
}

impl Manager {
    /// What the manager says of itself.
    pub fn profile(&self) -> (r: Profile)
        ensures
            r.id@ == "gradle"@,
            r.display_name@ == "Gradle"@,
            r.kind == ManagerKind::Language,
            r.database_id@ == "jvm"@,
            r.capabilities == (Capabilities {
                install: false,
                remove: false,
                ..Capabilities::basic()
            }),
            r.elevates == false,
    {
        Profile {
            id: "gradle",
            display_name: "Gradle",
            kind: ManagerKind::Language,
            database_id: "jvm",
            capabilities: Capabilities { install: false, remove: false, ..basic_capabilities() },
            elevates: false,
        }
    }
}

/// A dependency as `gradle dependencies` describes it.
#[derive(Debug)]
pub struct GradlePackage {
    /// The coordinate, `group:artifact`.
    pub name: String,
    pub version: Option<String>,
    pub state: InstallState,
}

impl View for GradlePackage {
    type V = PackageView;

    open spec fn view(&self) -> PackageView {
        PackageView {
            name: self.name@,
            version: self.version.deep(),
            state: self.state,
            ..PackageView::blank()
        }
    }
}

impl Package for GradlePackage {
    open spec fn manager_id() -> Seq<char> {
        "gradle"@
    }

    fn manager(&self) -> (r: &'static str) {
        "gradle"
    }

    fn details(&self) -> (r: Details<'_>) {
        Details {
            version: self.version.as_ref(),
            ..Details::of(&self.name, self.state)
        }
    }
}

/// A version, unless there is none or a constraint stands in its place.
pub open spec fn plain_version_spec(version: Seq<char>) -> Option<Seq<char>> {
    if version.len() == 0 || version.begins("{"@) || version.begins("("@) {
        None
    } else {
        Some(version)
    }
}

fn plain_version(version: &[char]) -> (r: Option<String>)
    ensures
        r.deep() == plain_version_spec(version@),
{
    if version.len() == 0 || text::begins(version, "{") || text::begins(version, "(") {
        None
    } else {
        Some(text::string(version))
    }
}

/// A coordinate, `group:artifact[:version]`, in the version that was resolved
/// if one is told.
pub open spec fn coordinate_spec(coordinate: Seq<char>, resolved: Option<Seq<char>>) -> Option<
    (Seq<char>, Option<Seq<char>>),
> {
    let segments = coordinate.split(":"@);
    if segments.len() < 2 || segments[0].len() == 0 || segments[1].len() == 0 {
        None
    } else {
        let version = match resolved {
            Some(version) => plain_version_spec(version),
            None => if segments.len() > 2 {
                plain_version_spec(segments[2])
            } else {
                None
            },
        };
        Some((segments[0] + ":"@ + segments[1], version))
    }
}

/// What an entry of the tree resolves to: a whole coordinate behind the arrow
/// replaces the one before it, a version replaces its version.
pub open spec fn split_coordinate_spec(
    coordinate: Seq<char>,
    resolved: Option<Seq<char>>,
) -> Option<(Seq<char>, Option<Seq<char>>)> {
    if resolved is Some && resolved->0.has(":"@) {
        coordinate_spec(resolved->0, None)
    } else {
        coordinate_spec(coordinate, resolved)
    }
}

/// The model of a coordinate with a version.
pub open spec fn coordinate_model(r: Option<(String, Option<String>)>) -> Option<
    (Seq<char>, Option<Seq<char>>),
> {
    match r {
        Some((name, version)) => Some((name@, version.deep())),
        None => None,
    }
}

fn plain_coordinate(coordinate: &[char], resolved: Option<&[char]>) -> (r: Option<
    (String, Option<String>),
>)
    ensures
        coordinate_model(r) == coordinate_spec(coordinate@, resolved.deep()),
{
    let segments = text::split(coordinate, ":");
    if segments.len() < 2 || segments[0].len() == 0 || segments[1].len() == 0 {
        return None;
    }
    let version = match resolved {
        Some(version) => plain_version(version),
        None => {
            if segments.len() > 2 {
                plain_version(segments[2])
            } else {
                None
            }
        },
    };
    let name = text::cat3(&text::string(segments[0]), ":", &text::string(segments[1]));
    Some((name, version))
}

fn resolve(coordinate: &[char], resolved: Option<&[char]>) -> (r: Option<
    (String, Option<String>),
>)
    ensures
        coordinate_model(r) == split_coordinate_spec(coordinate@, resolved.deep()),
{
    if let Some(replacement) = resolved {
        if text::has(replacement, ":") {
            return plain_coordinate(replacement, None);
        }
    }
    plain_coordinate(coordinate, resolved)
}

pub fn split_coordinate(coordinate: &str, resolved: Option<&str>) -> (r: Option<
    (String, Option<String>),
>)
    ensures
        coordinate_model(r) == split_coordinate_spec(coordinate@, resolved.deep()),
{
    match resolved {
        Some(resolved) => resolve(&chars(coordinate), Some(&chars(resolved))),
        None => resolve(&chars(coordinate), None),
    }
}

/// The words behind the arrow of an entry, which say what was resolved.
pub open spec fn resolved_spec(tokens: Seq<Seq<char>>) -> Seq<Seq<char>> {
    let at = rows::index(tokens, |token: Seq<char>| token == "->"@);
    if at < 0 {
        seq![]
    } else {
        text::rest_of(tokens, at + 1)
    }
}

/// Whether a project of the build was resolved, `project :x`.
pub open spec fn is_project_spec(resolved: Seq<Seq<char>>) -> bool {
    resolved.len() > 1 && resolved[0] == "project"@ && resolved[1].begins(":"@)
}

fn behind_arrow<'a, 'b>(tokens: &'b [&'a [char]]) -> (r: &'b [&'a [char]])
    ensures
        r@.deep() == resolved_spec(tokens@.deep()),
{
    let arrow = |token: &&[char]| -> (b: bool)
        ensures
            b == (token@ == "->"@),
        { text::is(*token, "->") };
    let end: usize = tokens.len();
    match rows::position(tokens, arrow, Ghost(|token: Seq<char>| token == "->"@)) {
        None => {
            let none = text::rest(tokens, end);
            assert(none@.deep() =~= seq![]);
            none
        },
        Some(at) => text::rest(tokens, at + 1),
    }
}

/// The dependency in a line of the tree. The other projects of a build are
/// none, whether they are named or resolved, and marks of repetitions are
/// passed over.
pub open spec fn tree_row_spec(line: Seq<char>) -> Option<PackageView> {
    match line.cut("--- "@) {
        None => None,
        Some((_, entry)) => {
            let tokens = entry.words();
            let resolved = resolved_spec(tokens);
            if entry.begins("project "@) || tokens.len() == 0 || is_project_spec(resolved) {
                None
            } else {
                match split_coordinate_spec(tokens[0], resolved.nth(0)) {
                    None => None,
                    Some((name, version)) => Some(
                        PackageView::versioned(name, version, InstallState::Installed),
                    ),
                }
            }
        },
    }
}

fn tree_row(line: &[char]) -> (r: Option<GradlePackage>)
    ensures
        r.deep() == tree_row_spec(line@),
{
    let entry = match text::cut(line, "--- ") {
        None => {
            return None;
        },
        Some((_, entry)) => entry,
    };
    let tokens = text::words(entry);
    if text::begins(entry, "project ") || tokens.len() == 0 {
        return None;
    }
    let resolved = behind_arrow(&tokens);
    if resolved.len() > 1 && text::is(resolved[0], "project") && text::begins(resolved[1], ":") {
        return None;
    }
    match resolve(tokens[0], text::nth(resolved, 0)) {
        None => None,
        Some((name, version)) => Some(
            GradlePackage { name, version, state: InstallState::Installed },
        ),
    }
}

/// The reading of `gradle dependencies`.
struct TreeScan {
    packages: Vec<GradlePackage>,
}

/// The model of the reading of `gradle dependencies`.
pub struct TreeScanView {
    pub packages: Seq<PackageView>,
}

impl TreeScanView {
    pub open spec fn start() -> TreeScanView {
        TreeScanView {
            packages: seq![],
        }
    }
}

/// Dependencies with one more, unless it is there already.
pub open spec fn joined_spec(packages: Seq<PackageView>, package: Option<PackageView>) -> Seq<
    PackageView,
> {
    match package {
        None => packages,
        Some(package) => if packages.contains(package) {
            packages
        } else {
            packages.push(package)
        },
    }
}

fn is_among(packages: &Vec<GradlePackage>, package: &GradlePackage) -> (r: bool)
    ensures
        r == packages@.deep().contains(package@),
{
    let mut i: usize = 0;
    while i < packages.len()
        invariant
            i <= packages.len(),
            forall|j: int| 0 <= j < i ==> #[trigger] packages@[j]@ != package@,
        decreases packages.len() - i,
    {
        let other = &packages[i];
        if text::equal(&other.name, &package.name) && text::equal_maybe(
            &other.version,
            &package.version,
        ) && other.state == package.state {
            assert(packages@.deep()[i as int] == package@);
            return true;
        }
        i += 1;
    }
    assert(!packages@.deep().contains(package@)) by {
        if packages@.deep().contains(package@) {
            let j = choose|j: int|
                0 <= j < packages@.deep().len() && packages@.deep()[j] == package@;
            assert(packages@[j]@ == package@);
        }
    }
    false
}

/// The reading of `gradle dependencies` after one more line.
pub open spec fn tree_next_spec(state: TreeScanView, line: Seq<char>) -> TreeScanView {
    TreeScanView { packages: joined_spec(state.packages, tree_row_spec(line)) }
}

impl Scanner for TreeScan {
    type State = TreeScanView;

    closed spec fn state(&self) -> TreeScanView {
        TreeScanView {
            packages: self.packages@.deep(),
        }
    }

    open spec fn next(state: TreeScanView, line: Seq<char>) -> TreeScanView {
        tree_next_spec(state, line)
    }

    fn feed(&mut self, line: &[char]) {
        if let Some(package) = tree_row(line) {
            if !is_among(&self.packages, &package) {
                rows::push(&mut self.packages, package);
            }
        }
    }
}

/// The dependencies in the tree that `gradle dependencies` prints, each one once.
pub open spec fn parse_dependency_tree_spec(stdout: Seq<char>) -> Seq<PackageView> {
    rows::scan(
        TreeScanView::start(),
        stdout.lines(),
        |state: TreeScanView, line: Seq<char>| tree_next_spec(state, line),
    ).packages
}

pub fn parse_dependency_tree(stdout: &str) -> (r: Vec<GradlePackage>)
    ensures
        r@.deep() == parse_dependency_tree_spec(stdout@),
{
    let start = TreeScan {
        packages: Vec::new(),
    };
    assert(start.packages@.deep() =~= seq![]);
    rows::scan_output(
        start,
        stdout,
        Ghost(|state: TreeScanView, line: Seq<char>| tree_next_spec(state, line)),
    ).packages
}

proof fn lemma_tree_is_distinct(lines: Seq<Seq<char>>)
    ensures
        rows::scan(
            TreeScanView::start(),
            lines,
            |state: TreeScanView, line: Seq<char>| tree_next_spec(state, line),
        ).packages.no_duplicates(),
    decreases lines.len(),
{
    if lines.len() > 0 {
        lemma_tree_is_distinct(lines.drop_last());
    }
}

/// However many configurations have a dependency, it is listed once.
pub proof fn dependencies_are_distinct(stdout: Seq<char>)
    ensures
        parse_dependency_tree_spec(stdout).no_duplicates(),
{
    lemma_tree_is_distinct(stdout.lines());
}

/// The first dependency with that coordinate or that artifact.
pub open spec fn known_as_spec(packages: Seq<PackageView>, name: Seq<char>) -> Option<PackageView> {
    rows::first(
        packages,
        |p: PackageView| p.name == name || p.name.split(":"@).nth(1) == Some(name),
    )
}

pub fn known_as(packages: Vec<GradlePackage>, name: &str) -> (r: Option<GradlePackage>)
    ensures
        r.deep() == known_as_spec(packages@.deep(), name@),
{
    let known = |p: &GradlePackage| -> (b: bool)
        ensures
            b == (p@.name == name@ || p@.name.split(":"@).nth(1) == Some(name@)),
        {
            let t = chars(&p.name);
            text::is(&t, name) || match text::nth(&text::split(&t, ":"), 1) {
                Some(artifact) => text::is(artifact, name),
                None => false,
            }
        };
    rows::take_first(
        packages,
        known,
        Ghost(|p: PackageView| p.name == name@ || p.name.split(":"@).nth(1) == Some(name@)),
    )
}

impl Manager {
    /// Nothing can be installed from outside a build.
    pub fn install(&self, packages: &[PackageRequest], ctx: &OpContext) -> (r: Plan)
        ensures
            command::plan(r) == Err::<Seq<CmdView>, ErrorView>(
                ErrorView::Other(
                    "gradle: gradle has no install verb - dependencies are declared in the project's build script and resolved at build time"@,
                ),
            ),
    {
        Err(
            error::other(
                "gradle: gradle has no install verb - dependencies are declared in the project's build script and resolved at build time",
            ),
        )
    }

    /// Nothing can be removed from outside a build.
    pub fn remove(&self, packages: &[PackageRequest], ctx: &OpContext) -> (r: Plan)
        ensures
            command::plan(r) == Err::<Seq<CmdView>, ErrorView>(
                ErrorView::Other(
                    "gradle: gradle has no remove verb - dependencies are declared in the project's build script and resolved at build time"@,
                ),
            ),
    {
        Err(
            error::other(
                "gradle: gradle has no remove verb - dependencies are declared in the project's build script and resolved at build time",
            ),
        )
    }

    pub fn list_installed(&self, replies: &[Reply]) -> (r: Step<Listing<GradlePackage>>)
        ensures
            r@ == session::listed(
                CmdView::query(self.program@)
                    .arg("-q"@)
                    .arg("--console=plain"@)
                    .arg("dependencies"@),
                replies@.deep(),
                |out: Seq<char>| parse_dependency_tree_spec(out),
            ),
            r@.only_looks(),
            r@.in_c_locale(),
    {
        session::list(
            Cmd::query(&self.program).arg("-q").arg("--console=plain").arg("dependencies"),
            replies,
            parse_dependency_tree,
            Ghost(|out: Seq<char>| parse_dependency_tree_spec(out)),
        )
    }

    /// A dependency is found by its coordinate or by its artifact.
    pub fn info(&self, name: &str, replies: &[Reply]) -> (r: Step<GradlePackage>)
        ensures
            r@ == (if replies@.len() == 0 {
                session::ask(
                    CmdView::query(self.program@).arg("-q"@).arg("--console=plain"@).arg(
                        "dependencies"@,
                    ),
                )
            } else if !replies@[0].success {
                StepView::Fail(replies@[0]@.failure())
            } else {
                session::found(
                    known_as_spec(parse_dependency_tree_spec(replies@[0].stdout@), name@),
                    name@,
                )
            }),
            r@.only_looks(),
            r@.in_c_locale(),
    {
        if replies.len() == 0 {
            return session::query(
                Cmd::query(&self.program).arg("-q").arg("--console=plain").arg("dependencies"),
            );
        }
        if !replies[0].success {
            return Step::Fail(replies[0].failure());
        }
        session::find(known_as(parse_dependency_tree(&replies[0].stdout), name), name)
    }
}

} // verus!
