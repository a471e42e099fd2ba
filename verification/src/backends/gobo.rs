//! GoboLinux's Compile.
//!
//! GoboLinux keeps no package database: the tree `/Programs` is it. Each
//! program is a directory with one directory for each version, the link
//! `Current` to the version in use, and texts under `Resources`. `Compile`
//! builds from recipes and `RemoveProgram` deletes; both get their privileges
//! themselves, and neither can be tried without effect.

use vstd::prelude::*;

use crate::command::{self, Cmd, CmdView, Plan};
use crate::detect::{Detection, DetectionView};
use crate::error::{self, Error, ErrorView};
use crate::order;
use crate::package::{self, Details, InstallState, Package, PackageView};
use crate::path;
use crate::profile::{basic_capabilities, Capabilities, ManagerKind, Profile};
use crate::request::{self, OpContext, PackageRequest, RequestView};
use crate::rows;
use crate::session::{
    self, Action, ActionView, Listing, Part, PartView, Reply, ReplyView, Step, StepView,
};
use crate::text::{self, chars, Deep, Pieces, Text};

verus! {

broadcast use command::group_carries;

impl Manager {
    /// What the manager says of itself.
    pub fn profile(&self) -> (r: Profile)
        ensures
            r.id@ == "gobo"@,
            r.display_name@ == "GoboLinux Compile"@,
            r.kind == ManagerKind::System,
            r.database_id@ == "gobo"@,
            r.capabilities == Capabilities::basic(),
            r.elevates == true,
    {
        Profile {
            id: "gobo",
            display_name: "GoboLinux Compile",
            kind: ManagerKind::System,
            database_id: "gobo",
            capabilities: basic_capabilities(),
            elevates: true,
        }
    }
}

/// Finds the manager and sets it up.
#[derive(Clone, Copy, Debug)]
pub struct Factory;

/// The factory of this backend.
pub fn factory() -> (r: Factory)
    ensures
        r == Factory,
{
    Factory
}

impl Factory {
    pub fn id(&self) -> (r: &'static str)
        ensures
            r@ == "gobo"@,
    {
        "gobo"
    }

    /// The programs to look for: the one that builds, then the one that
    /// removes.
    pub fn programs(&self) -> (r: Vec<&'static str>)
        ensures
            r@.deep() == seq!["Compile"@, "RemoveProgram"@],
    {
        let mut out: Vec<&'static str> = Vec::new();
        out.push("Compile");
        out.push("RemoveProgram");
        assert(out@.deep() =~= seq!["Compile"@, "RemoveProgram"@]);
        out
    }

    /// Whether the backend can be used: the program that builds decides.
    pub fn detect(&self, compile: Option<String>) -> (r: Detection)
        ensures
            r@ == match compile {
                Some(program) => DetectionView::Available { program: program@ },
                None => DetectionView::Unavailable { reason: "`Compile` not found on PATH"@ },
            },
    {
        match compile {
            Some(program) => Detection::Available { program },
            None => Detection::Unavailable { reason: text::copy("`Compile` not found on PATH") },
        }
    }

    /// The manager, which needs both programs.
    pub fn create(&self, compile: Option<String>, remove_program: Option<String>) -> (r: Result<
        Manager,
        Error,
    >)
        ensures
            match (compile, remove_program) {
                (Some(compile), Some(remove_program)) => r matches Ok(manager) && manager.compile
                    == compile && manager.remove_program == remove_program
                    && manager.programs_root@ == "/Programs"@,
                _ => r matches Err(error) && error@ == ErrorView::Unavailable("gobo"@),
            },
    {
        match (compile, remove_program) {
            (Some(compile), Some(remove_program)) => Ok(
                Manager { compile, remove_program, programs_root: text::copy("/Programs") },
            ),
            _ => Err(Error::Unavailable(text::copy("gobo"))),
        }
    }
}

/// The manager, with its two programs and the tree that it looks after.
#[derive(Debug)]
pub struct Manager {
    pub compile: String,
    pub remove_program: String,
    pub programs_root: String,
}

/// A program in the tree.
#[derive(Debug)]
pub struct GoboPackage {
    pub name: String,
    pub version: Option<String>,
    pub description: Option<String>,
    pub dependencies: Option<Vec<String>>,
    pub state: InstallState,
}

impl View for GoboPackage {
    type V = PackageView;

    open spec fn view(&self) -> PackageView {
        PackageView {
            name: self.name@,
            version: self.version.deep(),
            description: self.description.deep(),
            dependencies: package::maybe_strings(self.dependencies),
            state: self.state,
            ..PackageView::blank()
        }
    }
}

impl Default for GoboPackage {
    fn default() -> (r: GoboPackage)
        ensures
            r@ == PackageView::blank(),
    {
        GoboPackage {
            name: String::new(),
            version: None,
            description: None,
            dependencies: None,
            state: InstallState::Unknown,
        }
    }
}

impl Package for GoboPackage {
    open spec fn manager_id() -> Seq<char> {
        "gobo"@
    }

    fn manager(&self) -> (r: &'static str) {
        "gobo"
    }

    fn details(&self) -> (r: Details<'_>) {
        Details {
            version: self.version.as_ref(),
            description: self.description.as_ref(),
            dependencies: self.dependencies.as_ref(),
            ..Details::of(&self.name, self.state)
        }
    }
}

/// A recipe is built in its own version.
pub open spec fn reject_pins_spec(requests: Seq<RequestView>) -> Result<(), ErrorView> {
    request::pins_refused(
        requests,
        "gobo: `"@,
        "` pins a version, but Compile builds the recipe's current version"@,
    )
}

pub fn reject_pins(requests: &[PackageRequest]) -> (r: Result<(), Error>)
    ensures
        error::outcome(r) == reject_pins_spec(requests@.deep()),
{
    request::refuse_pins(
        requests,
        "gobo: `",
        "` pins a version, but Compile builds the recipe's current version",
    )
}

/// Whether a directory of a program is a version: the others are for
/// bookkeeping.
pub open spec fn is_version_spec(name: Seq<char>) -> bool {
    name != "Settings"@ && name != "Variable"@ && name != "Current"@
}

fn is_version(name: &String) -> (r: bool)
    ensures
        r == is_version_spec(name@),
{
    !text::equal(name, "Settings") && !text::equal(name, "Variable") && !text::equal(
        name,
        "Current",
    )
}

fn copies(names: &Vec<String>) -> (r: Vec<String>)
    ensures
        r@.deep() == rows::keep(names@.deep(), |name: Seq<char>| is_version_spec(name)),
{
    let ghost all = names@.deep();
    let mut out: Vec<String> = rows::empty();
    let mut i: usize = 0;
    while i < names.len()
        invariant
            i <= names.len(),
            all == names@.deep(),
            out@.deep() == rows::keep(
                all.take(i as int),
                |name: Seq<char>| is_version_spec(name),
            ),
        decreases names.len() - i,
    {
        assert(all.take(i + 1).drop_last() =~= all.take(i as int));
        assert(all.take(i + 1).last() == names@[i as int]@);
        if is_version(&names[i]) {
            rows::push(&mut out, text::copy(&names[i]));
        }
        i += 1;
    }
    assert(all.take(all.len() as int) =~= all);
    out
}

/// The version in use: the one that `Current` points to if it is there,
/// otherwise the last one in order.
pub open spec fn pick_version_spec(
    versions: Seq<Seq<char>>,
    current: Option<Seq<char>>,
) -> Option<Seq<char>> {
    if current is Some && versions.contains(current->0) {
        current
    } else if versions.len() == 0 {
        None
    } else {
        Some(
            order::sorted(versions, |a: Seq<char>, b: Seq<char>| a.before(b)).last(),
        )
    }
}

pub fn pick_version(versions: Vec<String>, current: Option<&str>) -> (r: Option<String>)
    ensures
        r.deep() == pick_version_spec(versions@.deep(), current.deep()),
{
    if let Some(name) = current {
        let mut i: usize = 0;
        while i < versions.len()
            invariant
                i <= versions.len(),
                current == Some(name),
                forall|j: int| 0 <= j < i ==> versions@[j]@ != name@,
            decreases versions.len() - i,
        {
            if text::equal(&versions[i], name) {
                assert(versions@.deep()[i as int] == name@);
                return Some(text::copy(name));
            }
            i += 1;
        }
        assert(!versions@.deep().contains(name@)) by {
            if versions@.deep().contains(name@) {
                let j = choose|j: int| 0 <= j < versions@.len() && versions@.deep()[j] == name@;
                assert(versions@[j]@ == name@);
            }
        }
    }
    proof {
        order::lemma_sorted_len(
            versions@.deep(),
            |a: Seq<char>, b: Seq<char>| a.before(b),
        );
    }
    let mut sorted = order::sort_strings(versions);
    rows::pop(&mut sorted)
}

/// A text folded into one line.
pub open spec fn parse_description_spec(text: Seq<char>) -> Option<Seq<char>> {
    text::folded(text)
}

pub fn parse_description(text: &str) -> (r: Option<String>)
    ensures
        r.deep() == parse_description_spec(text@),
{
    text::fold(&chars(text))
}

/// The dependency in a line, `Name [op version]`; comments begin with `#`.
pub open spec fn dependency_spec(line: Seq<char>) -> Option<Seq<char>> {
    let line = line.trim();
    if line.len() == 0 || line.begins("#"@) {
        None
    } else {
        line.words().nth(0)
    }
}

fn dependency(line: &[char]) -> (r: Option<String>)
    ensures
        r.deep() == dependency_spec(line@),
{
    let line = text::trim(line);
    if line.len() == 0 || text::begins(line, "#") {
        return None;
    }
    let words = text::words(line);
    text::maybe_string(text::nth(&words, 0))
}

/// The dependencies of a program, one in each line, if there are any.
pub open spec fn parse_dependencies_spec(text: Seq<char>) -> Option<Seq<Seq<char>>> {
    let dependencies = rows::select(text.lines(), |line: Seq<char>| dependency_spec(line));
    if dependencies.len() == 0 {
        None
    } else {
        Some(dependencies)
    }
}

pub fn parse_dependencies(text: &str) -> (r: Option<Vec<String>>)
    ensures
        package::maybe_strings(r) == parse_dependencies_spec(text@),
{
    let dependencies: Vec<String> = rows::select_rows(
        text,
        dependency,
        Ghost(|line: Seq<char>| dependency_spec(line)),
    );
    if dependencies.len() == 0 {
        None
    } else {
        Some(dependencies)
    }
}

/// The package of a program, given its directories and its link.
pub open spec fn program_spec(
    name: Seq<char>,
    directories: Seq<Seq<char>>,
    link: ReplyView,
) -> Option<PackageView> {
    let current = if link.success {
        path::file_name_spec(link.stdout)
    } else {
        None
    };
    match pick_version_spec(
        rows::keep(directories, |name: Seq<char>| is_version_spec(name)),
        current,
    ) {
        None => None,
        Some(version) => Some(
            PackageView::versioned(name, Some(version), InstallState::Installed),
        ),
    }
}

pub fn program(name: &str, directories: &Vec<String>, link: &Reply) -> (r: Option<GoboPackage>)
    ensures
        r.deep() == program_spec(name@, directories@.deep(), link@),
{
    let target = chars(&link.stdout);
    let current: Option<String> = if link.success {
        text::maybe_string(path::file_name(&target))
    } else {
        None
    };
    let versions = copies(directories);
    let version = match &current {
        Some(current) => pick_version(versions, Some(current.as_str())),
        None => pick_version(versions, None),
    };
    match version {
        None => None,
        Some(version) => Some(
            GoboPackage {
                name: text::copy(name),
                version: Some(version),
                state: InstallState::Installed,
                ..GoboPackage::default()
            },
        ),
    }
}

impl Manager {
    /// One recipe at a time.
    pub fn install(&self, packages: &[PackageRequest], ctx: &OpContext) -> (r: Plan)
        ensures
            command::plan(r) == match reject_pins_spec(packages@.deep()) {
                Err(error) => Err(error),
                Ok(_) => if ctx.dry_run {
                    Err(ErrorView::Other("gobo: install has no dry-run mode"@))
                } else {
                    Ok(
                        packages@.deep().map_values(
                            |q: RequestView|
                                CmdView::new(self.compile@).flag(ctx.assume_yes, "--batch"@).arg(
                                    q.name,
                                ),
                        ),
                    )
                },
            },
            command::all_elevated(command::plan(r), false),
            ctx.dry_run ==> r is Err,
            request::first_pin(packages@.deep()) is Some ==> r is Err,
            ctx.assume_yes ==> command::all_carry(command::plan(r), "--batch"@),
            command::plan(r) == match (
                request::pins_refused(
                    packages@.deep(),
                    "gobo: `"@,
                    "` pins a version, but Compile builds the recipe's current version"@,
                )
            ) {
                Err(error) => Err(error),
                Ok(_) => if ctx.dry_run {
                    Err(ErrorView::Other("gobo: install has no dry-run mode"@))
                } else {
                    Ok(
                        packages@.deep().map_values(
                            |q: RequestView| CmdView::new(self.compile@).flag(
                                ctx.assume_yes,
                                "--batch"@,
                            ).arg(q.name),
                        ),
                    )
                },
            },
    {
        if let Err(error) = reject_pins(packages) {
            return Err(error);
        }
        if ctx.dry_run {
            return Err(error::other("gobo: install has no dry-run mode"));
        }
        let install = |q: &PackageRequest| -> (c: Cmd)
            ensures
                c@ == CmdView::new(self.compile@).flag(ctx.assume_yes, "--batch"@).arg(q@.name),
            { Cmd::new(&self.compile).flag(ctx.assume_yes, "--batch").arg(&q.name) };
        Ok(
            command::one_each(
                packages,
                install,
                Ghost(
                    |q: RequestView|
                        CmdView::new(self.compile@).flag(ctx.assume_yes, "--batch"@).arg(q.name),
                ),
            ),
        )
    }

    /// One program at a time.
    pub fn remove(&self, packages: &[PackageRequest], ctx: &OpContext) -> (r: Plan)
        ensures
            command::plan(r) == if ctx.dry_run {
                Err(ErrorView::Other("gobo: remove has no dry-run mode"@))
            } else {
                Ok(
                    packages@.deep().map_values(
                        |q: RequestView| CmdView::new(self.remove_program@).arg(q.name),
                    ),
                )
            },
            command::all_elevated(command::plan(r), false),
            ctx.dry_run ==> r is Err,
    {
        if ctx.dry_run {
            return Err(error::other("gobo: remove has no dry-run mode"));
        }
        let remove = |q: &PackageRequest| -> (c: Cmd)
            ensures
                c@ == CmdView::new(self.remove_program@).arg(q@.name),
            { Cmd::new(&self.remove_program).arg(&q.name) };
        Ok(
            command::one_each(
                packages,
                remove,
                Ghost(|q: RequestView| CmdView::new(self.remove_program@).arg(q.name)),
            ),
        )
    }

    /// One program of the tree: its directories, then its link. A program
    /// that cannot be looked into is passed over.
    pub open spec fn look_spec(self, name: Seq<char>, replies: Seq<ReplyView>) -> PartView<
        Seq<PackageView>,
    > {
        let path = path::join_spec(self.programs_root@, name);
        if replies.len() == 0 {
            PartView::Act(ActionView::Directories { path, links: false, lenient: true })
        } else if !replies[0].success {
            PartView::Got(seq![], replies.skip(1))
        } else if replies.len() == 1 {
            PartView::Act(ActionView::ReadLink(path::join_spec(path, "Current"@)))
        } else {
            PartView::Got(
                rows::added(seq![], program_spec(name, replies[0].entries, replies[1])),
                replies.skip(1).skip(1),
            )
        }
    }

    fn look<'a>(&self, name: &str, replies: &'a [Reply]) -> (r: Part<'a, Listing<GoboPackage>>)
        ensures
            r@ == self.look_spec(name@, replies@.deep()),
    {
        let path = path::join(&self.programs_root, name);
        if replies.len() == 0 {
            return Part::Act(Action::Directories { path, links: false, lenient: true });
        }
        let mut packages: Vec<GoboPackage> = rows::empty();
        let directories = session::next(replies);
        let rest = session::later(replies);
        if !directories.success {
            return Part::Got(Listing { packages }, rest);
        }
        if replies.len() == 1 {
            return Part::Act(Action::ReadLink(path::join(&path, "Current")));
        }
        assert(replies@.deep()[1] == replies@[1]@);
        rows::push_some(&mut packages, program(name, &directories.entries, &replies[1]));
        Part::Got(Listing { packages }, session::later(rest))
    }

    /// The programs of the tree, after those that are known.
    pub open spec fn look_at_spec(
        self,
        known: Seq<PackageView>,
        names: Seq<Seq<char>>,
        replies: Seq<ReplyView>,
    ) -> PartView<Seq<PackageView>>
        decreases names.len(),
    {
        if names.len() == 0 {
            PartView::Got(
                order::sorted(known, |a: PackageView, b: PackageView| a.name.before(b.name)),
                replies,
            )
        } else {
            match self.look_spec(names[0], replies) {
                PartView::Act(action) => PartView::Act(action),
                PartView::Fail(error) => PartView::Fail(error),
                PartView::Got(found, rest) => self.look_at_spec(
                    known + found,
                    names.skip(1),
                    rest,
                ),
            }
        }
    }

    proof fn lemma_look_at_looks(
        self,
        known: Seq<PackageView>,
        names: Seq<Seq<char>>,
        replies: Seq<ReplyView>,
    )
        ensures
            self.look_at_spec(known, names, replies).whole().only_looks(),
        decreases names.len(),
    {
        if names.len() > 0 {
            if let PartView::Got(found, rest) = self.look_spec(names[0], replies) {
                self.lemma_look_at_looks(known + found, names.skip(1), rest);
            }
        }
    }

    fn look_at<'a>(&self, names: &Vec<String>, replies: &'a [Reply]) -> (r: Part<
        'a,
        Listing<GoboPackage>,
    >)
        ensures
            r@ == self.look_at_spec(seq![], names@.deep(), replies@.deep()),
    {
        let ghost all = names@.deep();
        let ghost start = replies@.deep();
        let mut packages: Vec<GoboPackage> = rows::empty();
        let mut rest = replies;
        let mut i: usize = 0;
        assert(all.skip(0) =~= all);
        while i < names.len()
            invariant
                i <= names.len(),
                all == names@.deep(),
                start == replies@.deep(),
                self.look_at_spec(seq![], all, start) == self.look_at_spec(
                    packages@.deep(),
                    all.skip(i as int),
                    rest@.deep(),
                ),
            decreases names.len() - i,
        {
            assert(all.skip(i as int)[0] == names@[i as int]@);
            assert(all.skip(i as int).skip(1) =~= all.skip(i + 1));
            match self.look(&names[i], rest) {
                Part::Act(action) => {
                    return Part::Act(action);
                },
                Part::Fail(error) => {
                    return Part::Fail(error);
                },
                Part::Got(listing, after) => {
                    rows::append(&mut packages, listing.packages);
                    rest = after;
                },
            }
            i += 1;
        }
        let earlier = |a: &GoboPackage, b: &GoboPackage| -> (less: bool)
            ensures
                less == a@.name.before(b@.name),
            { text::string_before(&a.name, &b.name) };
        let sorted = order::sort(
            packages,
            earlier,
            Ghost(|a: PackageView, b: PackageView| a.name.before(b.name)),
        );
        Part::Got(Listing { packages: sorted }, rest)
    }

    /// Every directory of the tree is a program. The programs are listed by
    /// name.
    pub open spec fn tree_spec(self, replies: Seq<ReplyView>) -> PartView<Seq<PackageView>> {
        if replies.len() == 0 {
            PartView::Act(
                ActionView::Directories { path: self.programs_root@, links: true, lenient: true },
            )
        } else if !replies[0].success {
            PartView::Fail(replies[0].failure())
        } else {
            self.look_at_spec(seq![], replies[0].entries, replies.skip(1))
        }
    }

    fn tree<'a>(&self, replies: &'a [Reply]) -> (r: Part<'a, Listing<GoboPackage>>)
        ensures
            r@ == self.tree_spec(replies@.deep()),
    {
        if replies.len() == 0 {
            return Part::Act(
                Action::Directories {
                    path: text::copy(&self.programs_root),
                    links: true,
                    lenient: true,
                },
            );
        }
        let programs = session::next(replies);
        if !programs.success {
            return Part::Fail(programs.failure());
        }
        self.look_at(&programs.entries, session::later(replies))
    }

    pub fn list_installed(&self, replies: &[Reply]) -> (r: Step<Listing<GoboPackage>>)
        ensures
            r@ == self.tree_spec(replies@.deep()).whole(),
            r@.only_looks(),
    {
        proof {
            if replies@.len() > 0 {
                self.lemma_look_at_looks(
                    seq![],
                    replies@.deep()[0].entries,
                    replies@.deep().skip(1),
                );
            }
        }
        self.tree(replies).whole()
    }

    /// The directory of the texts of a program.
    pub open spec fn resources_spec(self, name: Seq<char>, version: Seq<char>) -> Seq<char> {
        path::join_spec(
            path::join_spec(path::join_spec(self.programs_root@, name), version),
            "Resources"@,
        )
    }

    /// The program in the tree, with what the texts of its version say.
    pub open spec fn info_spec(self, name: Seq<char>, replies: Seq<ReplyView>) -> StepView<
        PackageView,
    > {
        match self.tree_spec(replies) {
            PartView::Act(action) => StepView::Act(action),
            PartView::Fail(error) => StepView::Fail(error),
            PartView::Got(packages, rest) => match session::called(packages, name) {
                None => StepView::Fail(ErrorView::NotFound(name)),
                Some(package) => match package.version {
                    None => StepView::Done(package),
                    Some(version) => {
                        let resources = self.resources_spec(package.name, version);
                        if rest.len() == 0 {
                            StepView::Act(
                                ActionView::ReadFile(path::join_spec(resources, "Description"@)),
                            )
                        } else if rest.len() == 1 {
                            StepView::Act(
                                ActionView::ReadFile(path::join_spec(resources, "Dependencies"@)),
                            )
                        } else {
                            StepView::Done(
                                PackageView {
                                    description: if rest[0].success {
                                        parse_description_spec(rest[0].stdout)
                                    } else {
                                        None
                                    },
                                    dependencies: if rest[1].success {
                                        parse_dependencies_spec(rest[1].stdout)
                                    } else {
                                        None
                                    },
                                    ..package
                                },
                            )
                        }
                    },
                },
            },
        }
    }

    pub fn info(&self, name: &str, replies: &[Reply]) -> (r: Step<GoboPackage>)
        ensures
            r@ == self.info_spec(name@, replies@.deep()),
            r@.only_looks(),
    {
        proof {
            if replies@.len() > 0 {
                self.lemma_look_at_looks(
                    seq![],
                    replies@.deep()[0].entries,
                    replies@.deep().skip(1),
                );
            }
        }
        let (listing, rest) = match self.tree(replies) {
            Part::Act(action) => {
                return Step::Act(action);
            },
            Part::Fail(error) => {
                return Step::Fail(error);
            },
            Part::Got(listing, rest) => (listing, rest),
        };
        let package = match session::take_called(listing.packages, name) {
            None => {
                return Step::Fail(error::not_found(name));
            },
            Some(package) => package,
        };
        let resources = match &package.version {
            None => {
                return Step::Done(package);
            },
            Some(version) => path::join(
                &path::join(&path::join(&self.programs_root, &package.name), version),
                "Resources",
            ),
        };
        if rest.len() == 0 {
            return Step::Act(Action::ReadFile(path::join(&resources, "Description")));
        }
        if rest.len() == 1 {
            return Step::Act(Action::ReadFile(path::join(&resources, "Dependencies")));
        }
        assert(rest@.deep()[0] == rest@[0]@);
        assert(rest@.deep()[1] == rest@[1]@);
        let description = if rest[0].success {
            parse_description(&rest[0].stdout)
        } else {
            None
        };
        let dependencies = if rest[1].success {
            parse_dependencies(&rest[1].stdout)
        } else {
            None
        };
        Step::Done(GoboPackage { description, dependencies, ..package })
    }
}

/// The version of a program is one of its directories: the one that the link
/// names, or else one that no other comes after.
pub proof fn the_highest_version_is_picked(versions: Seq<Seq<char>>, current: Option<Seq<char>>)
    ensures
        match pick_version_spec(versions, current) {
            Some(version) => versions.contains(version) && (Some(version) == current || forall|
                i: int,
            |
                0 <= i < versions.len() ==> !version.before(#[trigger] versions[i])),
            None => versions.len() == 0,
        },
{
    broadcast use vstd::seq_lib::group_to_multiset_ensures;

    let less = |a: Seq<char>, b: Seq<char>| a.before(b);
    let sorted = order::sorted(versions, less);
    order::texts_are_ordered();
    order::sorting_orders(versions, less);
    if versions.len() > 0 {
        let last = sorted.last();
        assert(sorted.contains(last));
        assert(versions.to_multiset().count(last) == sorted.to_multiset().count(last));
        assert(versions.contains(last));
        assert forall|i: int| 0 <= i < versions.len() implies !last.before(
            #[trigger] versions[i],
        ) by {
            let other = versions[i];
            assert(versions.contains(other));
            assert(sorted.to_multiset().count(other) == versions.to_multiset().count(other));
            assert(sorted.contains(other));
            let j = choose|j: int| 0 <= j < sorted.len() && sorted[j] == other;
            if j < sorted.len() - 1 {
                assert(!less(sorted[sorted.len() - 1], sorted[j]));
            } else {
                assert(!less(other, other));
            }
        }
    }
}

/// A description keeps the words of the text in their order, with single
/// spaces between them, and is kept as it is when it is read again. There is
/// none exactly where the text has no word.
pub proof fn descriptions_keep_the_words(text: Seq<char>)
    ensures
        match parse_description_spec(text) {
            Some(description) => {
                &&& description == text::join_of(text.words(), " "@)
                &&& description.words() == text.words()
                &&& parse_description_spec(description) == Some(description)
            },
            None => true,
        },
        parse_description_spec(text) is None <==> text.words().len() == 0,
        parse_description_spec(text) is None <==> (forall|i: int|
            0 <= i < text.len() ==> text::is_blank(#[trigger] text[i])),
{
    text::folding_keeps_the_words(text);
}

} // verus!
