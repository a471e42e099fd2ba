//! Ivy, driven through Ant.
//!
//! Ivy has no command of its own here: modules are retrieved by tasks inside
//! a build file, so nothing can be installed. What there is to look after is
//! the cache of resolved modules, `~/.ivy2/cache`: a directory for each
//! organisation, in it a directory for each module, and in that a descriptor
//! `ivy-<revision>.xml` for each revision. To remove a module is to delete its
//! directory. Names are coordinates, `org:module`.

use vstd::prelude::*;

use crate::command::{self, CmdView, Plan};
use crate::detect::{self, Detection};
use crate::error::{self, Error, ErrorView};
use crate::order;
use crate::package::{Details, InstallState, Package, PackageView};
use crate::path;
use crate::profile::{basic_capabilities, Capabilities, ManagerKind, Profile};
use crate::request::{OpContext, PackageRequest, RequestView};
use crate::rows;
use crate::session::{
    self, Action, ActionView, Finished, Listing, Part, PartView, Reply, ReplyView, Step, StepView,
};
use crate::text::{self, chars, Deep, Pieces, Text};
use crate::version::{self, Rank};
use std::cmp::Ordering;

verus! {

impl Manager {
    /// What the manager says of itself.
    pub fn profile(&self) -> (r: Profile)
        ensures
            r.id@ == "ivy"@,
            r.display_name@ == "Ant + Ivy"@,
            r.kind == ManagerKind::Language,
            r.database_id@ == "jvm"@,
            r.capabilities == Capabilities::basic(),
            r.elevates == false,
    {
        Profile {
            id: "ivy",
            display_name: "Ant + Ivy",
            kind: ManagerKind::Language,
            database_id: "jvm",
            capabilities: basic_capabilities(),
            elevates: false,
        }
    }
}

/// Finds the manager and sets it up.
#[derive(Clone, Copy, Debug)]
pub struct Factory;

/// The factory of this backend.
pub fn factory() -> (r: Factory)
    ensures
        r == Factory,
{
    Factory
}

impl Factory {
    pub fn id(&self) -> (r: &'static str)
        ensures
            r@ == "ivy"@,
    {
        "ivy"
    }

    /// The programs to look for.
    pub fn programs(&self) -> (r: Vec<&'static str>)
        ensures
            r@.deep() == seq!["ant"@],
    {
        let mut out: Vec<&'static str> = Vec::new();
        out.push("ant");
        assert(out@.deep() =~= seq!["ant"@]);
        out
    }

    /// Whether the backend can be used, given where each program was found.
    pub fn detect(&self, found: &[Option<String>]) -> (r: Detection)
        ensures
            r@ == detect::detected(found@, "`ant` not found on PATH"@),
    {
        detect::detect(found, "`ant` not found on PATH")
    }

    /// The manager, which works on the cache alone.
    pub fn create(&self) -> (r: Manager)
        ensures
            r == Manager,
    {
        Manager
    }
}

/// The manager of the cache.
#[derive(Clone, Copy, Debug)]
pub struct Manager;

/// A module in the cache.
#[derive(Debug)]
pub struct IvyPackage {
    /// The coordinate, `org:module`.
    pub name: String,
    pub version: Option<String>,
    pub state: InstallState,
}

impl View for IvyPackage {
    type V = PackageView;

    open spec fn view(&self) -> PackageView {
        PackageView {
            name: self.name@,
            version: self.version.deep(),
            state: self.state,
            ..PackageView::blank()
        }
    }
}

impl Package for IvyPackage {
    open spec fn manager_id() -> Seq<char> {
        "ivy"@
    }

    fn manager(&self) -> (r: &'static str) {
        "ivy"
    }

    fn details(&self) -> (r: Details<'_>) {
        Details {
            version: self.version.as_ref(),
            ..Details::of(&self.name, self.state)
        }
    }
}

/// The organisation and the module of a coordinate; a revision behind them is
/// of no interest.
pub open spec fn split_coordinate_spec(name: Seq<char>) -> Result<
    (Seq<char>, Seq<char>),
    ErrorView,
> {
    let segments = name.split(":"@);
    if segments.len() > 1 && segments[0].len() > 0 && segments[1].len() > 0 {
        Ok((segments[0], segments[1]))
    } else {
        Err(ErrorView::Other("ivy: `"@ + name + "` is not an `org:module` coordinate"@))
    }
}

pub fn split_coordinate(name: &str) -> (r: Result<(String, String), Error>)
    ensures
        error::outcome_of(r) == split_coordinate_spec(name@),
{
    let t = chars(name);
    let segments = text::split(&t, ":");
    if segments.len() > 1 && segments[0].len() > 0 && segments[1].len() > 0 {
        Ok((text::string(segments[0]), text::string(segments[1])))
    } else {
        Err(Error::Other(text::cat3("ivy: `", name, "` is not an `org:module` coordinate")))
    }
}

/// The revision in the name of a descriptor, `ivy-<revision>.xml`; other files
/// are no descriptors.
pub open spec fn revision_from_descriptor_spec(file_name: Seq<char>) -> Option<Seq<char>> {
    match file_name.without_prefix("ivy-"@) {
        None => None,
        Some(rest) => rest.without_suffix(".xml"@),
    }
}

pub fn revision_from_descriptor(file_name: &str) -> (r: Option<String>)
    ensures
        r.deep() == revision_from_descriptor_spec(file_name@),
{
    let t = chars(file_name);
    match text::without_prefix(&t, "ivy-") {
        None => None,
        Some(rest) => text::maybe_string(text::without_suffix(rest, ".xml")),
    }
}

/// How one revision stands to another: they are compared chunk by chunk, as
/// numbers where both chunks are numbers and as texts otherwise.
pub fn compare_versions(a: &str, b: &str) -> (r: Ordering)
    ensures
        match r {
            Ordering::Less => version::rank_spec(a@, b@, ".-"@) == Rank::Less,
            Ordering::Equal => version::rank_spec(a@, b@, ".-"@) == Rank::Equal,
            Ordering::Greater => version::rank_spec(a@, b@, ".-"@) == Rank::Greater,
        },
{
    match version::rank(a, b, ".-") {
        Rank::Less => Ordering::Less,
        Rank::Equal => Ordering::Equal,
        Rank::Greater => Ordering::Greater,
    }
}

/// The revision of a module, empty if it has none.
pub open spec fn revision_spec(package: PackageView) -> Seq<char> {
    match package.version {
        Some(version) => version,
        None => ""@,
    }
}

fn revision(package: &IvyPackage) -> (r: &str)
    ensures
        r@ == revision_spec(package@),
{
    match &package.version {
        Some(version) => version.as_str(),
        None => "",
    }
}

/// Whether a module has a newer revision than another.
pub open spec fn is_newer_spec(a: PackageView, b: PackageView) -> bool {
    version::rank_spec(revision_spec(a), revision_spec(b), ".-"@) == Rank::Greater
}

fn is_newer(a: &IvyPackage, b: &IvyPackage) -> (r: bool)
    ensures
        r == is_newer_spec(a@, b@),
{
    match compare_versions(revision(a), revision(b)) {
        Ordering::Greater => true,
        _ => false,
    }
}

/// The module with the newest revision, the last of those that are as new.
pub open spec fn newest_spec(packages: Seq<PackageView>) -> Option<PackageView>
    decreases packages.len(),
{
    if packages.len() == 0 {
        None
    } else {
        let last = packages.last();
        match newest_spec(packages.drop_last()) {
            Some(best) => if is_newer_spec(best, last) {
                Some(best)
            } else {
                Some(last)
            },
            None => Some(last),
        }
    }
}

pub fn newest(packages: Vec<IvyPackage>) -> (r: Option<IvyPackage>)
    ensures
        r.deep() == newest_spec(packages@.deep()),
{
    let ghost all = packages@.deep();
    let mut best: Option<IvyPackage> = None;
    let n: usize = packages.len();
    let mut i: usize = 0;
    for package in it: packages
        invariant
            all == it.seq().deep(),
            i == it.index(),
            i <= all.len(),
            all.len() == n,
            best.deep() == newest_spec(all.take(i as int)),
    {
        assert(all.take(i + 1).drop_last() =~= all.take(i as int));
        assert(all.take(i + 1).last() == package@);
        best =
        match best {
            Some(best) => {
                if is_newer(&best, &package) {
                    Some(best)
                } else {
                    Some(package)
                }
            },
            None => Some(package),
        };
        i += 1;
    }
    assert(all.take(all.len() as int) =~= all);
    best
}

/// Whether one module stands before another: by name, then by version.
pub open spec fn stands_before(a: PackageView, b: PackageView) -> bool {
    a.name.before(b.name) || (a.name == b.name && match (a.version, b.version) {
        (Some(a), Some(b)) => a.before(b),
        (None, Some(_)) => true,
        _ => false,
    })
}

fn is_before(a: &IvyPackage, b: &IvyPackage) -> (r: bool)
    ensures
        r == stands_before(a@, b@),
{
    text::string_before(&a.name, &b.name) || (text::equal(&a.name, &b.name) && match (
        &a.version,
        &b.version,
    ) {
        (Some(a), Some(b)) => text::string_before(a, b),
        (None, Some(_)) => true,
        _ => false,
    })
}

/// Whether a module has the coordinate, and the revision if one is asked for.
pub open spec fn is_asked_for(
    package: PackageView,
    coordinate: Seq<char>,
    requested: Option<Seq<char>>,
) -> bool {
    package.name == coordinate && (requested is None || package.version == requested)
}

/// The cache below a home directory.
pub open spec fn cache_dir_spec(home: Seq<char>) -> Seq<char> {
    path::join_spec(path::join_spec(home, ".ivy2"@), "cache"@)
}

fn cache_dir(home: &str) -> (r: String)
    ensures
        r@ == cache_dir_spec(home@),
{
    path::join(&path::join(home, ".ivy2"), "cache")
}

/// Where the cache lies.
pub open spec fn cache_spec(replies: Seq<ReplyView>) -> PartView<Seq<char>> {
    if replies.len() == 0 {
        PartView::Act(ActionView::Variable("HOME"@))
    } else if !replies[0].success {
        PartView::Fail(ErrorView::Other("ivy: HOME is not set"@))
    } else {
        PartView::Got(cache_dir_spec(replies[0].stdout), replies.skip(1))
    }
}

fn cache<'a>(replies: &'a [Reply]) -> (r: Part<'a, String>)
    ensures
        r@ == cache_spec(replies@.deep()),
{
    if replies.len() == 0 {
        return Part::Act(Action::Variable(text::copy("HOME")));
    }
    let reply = session::next(replies);
    if !reply.success {
        return Part::Fail(error::other("ivy: HOME is not set"));
    }
    Part::Got(cache_dir(&reply.stdout), session::later(replies))
}

/// The directories in a directory of the cache.
pub open spec fn directories_spec(path: Seq<char>) -> ActionView {
    ActionView::Directories { path, links: true, lenient: false }
}

/// A revision of a module, if a file is a descriptor.
pub open spec fn revision_row_spec(name: Seq<char>, file: Seq<char>) -> Option<PackageView> {
    match revision_from_descriptor_spec(file) {
        None => None,
        Some(revision) => Some(
            PackageView::versioned(name, Some(revision), InstallState::Installed),
        ),
    }
}

/// The revisions of a module, given the names in its directory.
pub open spec fn revisions_spec(name: Seq<char>, files: Seq<Seq<char>>) -> Seq<PackageView> {
    rows::select(files, |file: Seq<char>| revision_row_spec(name, file))
}

pub fn revisions(name: &str, files: &Vec<String>) -> (r: Vec<IvyPackage>)
    ensures
        r@.deep() == revisions_spec(name@, files@.deep()),
{
    let ghost all = files@.deep();
    let mut out: Vec<IvyPackage> = rows::empty();
    let mut i: usize = 0;
    while i < files.len()
        invariant
            i <= files.len(),
            all == files@.deep(),
            out@.deep() == revisions_spec(name@, all.take(i as int)),
        decreases files.len() - i,
    {
        assert(all.take(i + 1).drop_last() =~= all.take(i as int));
        assert(all.take(i + 1).last() == files@[i as int]@);
        if let Some(revision) = revision_from_descriptor(&files[i]) {
            rows::push(
                &mut out,
                IvyPackage {
                    name: text::copy(name),
                    version: Some(revision),
                    state: InstallState::Installed,
                },
            );
        }
        i += 1;
    }
    assert(all.take(all.len() as int) =~= all);
    out
}

/// The modules of an organisation, after those that are known.
pub open spec fn modules_of_spec(
    known: Seq<PackageView>,
    org: Seq<char>,
    path: Seq<char>,
    modules: Seq<Seq<char>>,
    replies: Seq<ReplyView>,
) -> PartView<Seq<PackageView>>
    decreases modules.len(),
{
    if modules.len() == 0 {
        PartView::Got(known, replies)
    } else if replies.len() == 0 {
        PartView::Act(ActionView::Entries(path::join_spec(path, modules[0])))
    } else if !replies[0].success {
        PartView::Fail(replies[0].failure())
    } else {
        modules_of_spec(
            known + revisions_spec(org + ":"@ + modules[0], replies[0].entries),
            org,
            path,
            modules.skip(1),
            replies.skip(1),
        )
    }
}

proof fn lemma_modules_of_looks(
    known: Seq<PackageView>,
    org: Seq<char>,
    path: Seq<char>,
    modules: Seq<Seq<char>>,
    replies: Seq<ReplyView>,
)
    ensures
        modules_of_spec(known, org, path, modules, replies).whole().only_looks(),
    decreases modules.len(),
{
    if modules.len() > 0 && replies.len() > 0 {
        let more = known + revisions_spec(org + ":"@ + modules[0], replies[0].entries);
        lemma_modules_of_looks(more, org, path, modules.skip(1), replies.skip(1));
    }
}

fn modules_of<'a>(
    known: Vec<IvyPackage>,
    org: &str,
    path: &str,
    modules: &Vec<String>,
    replies: &'a [Reply],
) -> (r: Part<'a, Listing<IvyPackage>>)
    ensures
        r@ == modules_of_spec(known@.deep(), org@, path@, modules@.deep(), replies@.deep()),
{
    let ghost all = modules@.deep();
    let ghost start = replies@.deep();
    let ghost before = known@.deep();
    let mut packages = known;
    let mut rest = replies;
    let mut i: usize = 0;
    assert(all.skip(0) =~= all);
    while i < modules.len()
        invariant
            i <= modules.len(),
            all == modules@.deep(),
            start == replies@.deep(),
            before == known@.deep(),
            modules_of_spec(before, org@, path@, all, start) == modules_of_spec(
                packages@.deep(),
                org@,
                path@,
                all.skip(i as int),
                rest@.deep(),
            ),
        decreases modules.len() - i,
    {
        assert(all.skip(i as int)[0] == modules@[i as int]@);
        assert(all.skip(i as int).skip(1) =~= all.skip(i + 1));
        if rest.len() == 0 {
            return Part::Act(Action::Entries(path::join(path, &modules[i])));
        }
        let reply = session::next(rest);
        if !reply.success {
            return Part::Fail(reply.failure());
        }
        rows::append(
            &mut packages,
            revisions(&text::cat3(org, ":", &modules[i]), &reply.entries),
        );
        rest = session::later(rest);
        i += 1;
    }
    Part::Got(Listing { packages }, rest)
}

/// The modules of all organisations, after those that are known.
pub open spec fn modules_below_spec(
    known: Seq<PackageView>,
    cache: Seq<char>,
    orgs: Seq<Seq<char>>,
    replies: Seq<ReplyView>,
) -> PartView<Seq<PackageView>>
    decreases orgs.len(),
{
    if orgs.len() == 0 {
        PartView::Got(known, replies)
    } else {
        let path = path::join_spec(cache, orgs[0]);
        if replies.len() == 0 {
            PartView::Act(directories_spec(path))
        } else if !replies[0].success {
            PartView::Fail(replies[0].failure())
        } else {
            match modules_of_spec(known, orgs[0], path, replies[0].entries, replies.skip(1)) {
                PartView::Act(action) => PartView::Act(action),
                PartView::Fail(error) => PartView::Fail(error),
                PartView::Got(packages, rest) => modules_below_spec(packages, cache, orgs.skip(1), rest),
            }
        }
    }
}

proof fn lemma_modules_below_looks(
    known: Seq<PackageView>,
    cache: Seq<char>,
    orgs: Seq<Seq<char>>,
    replies: Seq<ReplyView>,
)
    ensures
        modules_below_spec(known, cache, orgs, replies).whole().only_looks(),
    decreases orgs.len(),
{
    if orgs.len() > 0 && replies.len() > 0 {
        let path = path::join_spec(cache, orgs[0]);
        let modules = replies[0].entries;
        lemma_modules_of_looks(known, orgs[0], path, modules, replies.skip(1));
        if let PartView::Got(packages, rest) = modules_of_spec(
            known,
            orgs[0],
            path,
            modules,
            replies.skip(1),
        ) {
            lemma_modules_below_looks(packages, cache, orgs.skip(1), rest);
        }
    }
}

fn modules_below<'a>(cache: &str, orgs: &Vec<String>, replies: &'a [Reply]) -> (r: Part<
    'a,
    Listing<IvyPackage>,
>)
    ensures
        r@ == modules_below_spec(seq![], cache@, orgs@.deep(), replies@.deep()),
{
    let ghost all = orgs@.deep();
    let ghost start = replies@.deep();
    let mut packages: Vec<IvyPackage> = rows::empty();
    let mut rest = replies;
    let mut i: usize = 0;
    assert(all.skip(0) =~= all);
    while i < orgs.len()
        invariant
            i <= orgs.len(),
            all == orgs@.deep(),
            start == replies@.deep(),
            modules_below_spec(seq![], cache@, all, start) == modules_below_spec(
                packages@.deep(),
                cache@,
                all.skip(i as int),
                rest@.deep(),
            ),
        decreases orgs.len() - i,
    {
        assert(all.skip(i as int)[0] == orgs@[i as int]@);
        assert(all.skip(i as int).skip(1) =~= all.skip(i + 1));
        let path = path::join(cache, &orgs[i]);
        if rest.len() == 0 {
            return Part::Act(Action::Directories { path, links: true, lenient: false });
        }
        let reply = session::next(rest);
        if !reply.success {
            return Part::Fail(reply.failure());
        }
        match modules_of(packages, &orgs[i], &path, &reply.entries, session::later(rest)) {
            Part::Act(action) => {
                return Part::Act(action);
            },
            Part::Fail(error) => {
                return Part::Fail(error);
            },
            Part::Got(listing, after) => {
                packages = listing.packages;
                rest = after;
            },
        }
        i += 1;
    }
    Part::Got(Listing { packages }, rest)
}

/// The modules in the cache, by name and revision; without a cache there are
/// none.
pub open spec fn scan_cache_spec(replies: Seq<ReplyView>) -> StepView<Seq<PackageView>> {
    match cache_spec(replies) {
        PartView::Act(action) => StepView::Act(action),
        PartView::Fail(error) => StepView::Fail(error),
        PartView::Got(cache, rest) => if rest.len() == 0 {
            StepView::Act(ActionView::IsDirectory(cache))
        } else if !rest[0].success {
            StepView::Done(seq![])
        } else if rest.len() == 1 {
            StepView::Act(directories_spec(cache))
        } else if !rest[1].success {
            StepView::Fail(rest[1].failure())
        } else {
            match modules_below_spec(seq![], cache, rest[1].entries, rest.skip(1).skip(1)) {
                PartView::Act(action) => StepView::Act(action),
                PartView::Fail(error) => StepView::Fail(error),
                PartView::Got(packages, _) => StepView::Done(
                    order::sorted(
                        packages,
                        |a: PackageView, b: PackageView| stands_before(a, b),
                    ),
                ),
            }
        },
    }
}

pub fn scan_cache(replies: &[Reply]) -> (r: Step<Listing<IvyPackage>>)
    ensures
        r@ == scan_cache_spec(replies@.deep()),
        r@.only_looks(),
{
    proof {
        if let PartView::Got(cache, rest) = cache_spec(replies@.deep()) {
            if rest.len() > 1 {
                lemma_modules_below_looks(seq![], cache, rest[1].entries, rest.skip(1).skip(1));
            }
        }
    }
    let (cache, rest) = match cache(replies) {
        Part::Act(action) => {
            return Step::Act(action);
        },
        Part::Fail(error) => {
            return Step::Fail(error);
        },
        Part::Got(cache, rest) => (cache, rest),
    };
    if rest.len() == 0 {
        return Step::Act(Action::IsDirectory(cache));
    }
    if !session::next(rest).success {
        return Step::Done(session::nothing());
    }
    if rest.len() == 1 {
        return Step::Act(Action::Directories { path: cache, links: true, lenient: false });
    }
    assert(rest@.deep()[1] == rest@[1]@);
    if !rest[1].success {
        return Step::Fail(rest[1].failure());
    }
    match modules_below(&cache, &rest[1].entries, session::later(session::later(rest))) {
        Part::Act(action) => Step::Act(action),
        Part::Fail(error) => Step::Fail(error),
        Part::Got(listing, _) => Step::Done(
            Listing {
                packages: order::sort(
                    listing.packages,
                    is_before,
                    Ghost(|a: PackageView, b: PackageView| stands_before(a, b)),
                ),
            },
        ),
    }
}

impl Manager {
    /// Nothing can be installed from outside a build.
    pub fn install(&self, packages: &[PackageRequest], ctx: &OpContext) -> (r: Plan)
        ensures
            command::plan(r) == Err::<Seq<CmdView>, ErrorView>(
                ErrorView::Other(
                    "ivy: ivy retrieval runs through Ivy's Ant tasks inside a project build file (or standalone `java -jar ivy.jar`); bare `ant` has no verb for it"@,
                ),
            ),
    {
        Err(
            error::other(
                "ivy: ivy retrieval runs through Ivy's Ant tasks inside a project build file (or standalone `java -jar ivy.jar`); bare `ant` has no verb for it",
            ),
        )
    }

    /// Deletes the directory of one module and says so; on a dry run it only
    /// says so.
    pub open spec fn remove_one_spec(
        self,
        cache: Seq<char>,
        name: Seq<char>,
        ctx: OpContext,
        replies: Seq<ReplyView>,
    ) -> PartView<()> {
        match split_coordinate_spec(name) {
            Err(error) => PartView::Fail(error),
            Ok((org, module)) => {
                let path = path::join_spec(path::join_spec(cache, org), module);
                if replies.len() == 0 {
                    PartView::Act(ActionView::IsDirectory(path))
                } else if !replies[0].success {
                    PartView::Fail(ErrorView::NotFound(name))
                } else if ctx.dry_run {
                    session::reporting("would remove "@ + path, replies.skip(1))
                } else if replies.len() == 1 {
                    PartView::Act(ActionView::RemoveTree(path))
                } else if !replies[1].success {
                    PartView::Fail(replies[1].failure())
                } else {
                    session::reporting("removed "@ + path, replies.skip(1).skip(1))
                }
            },
        }
    }

    fn remove_one<'a>(
        &self,
        cache: &str,
        name: &str,
        ctx: &OpContext,
        replies: &'a [Reply],
    ) -> (r: Part<'a, Finished>)
        ensures
            r@ == self.remove_one_spec(cache@, name@, *ctx, replies@.deep()),
    {
        let (org, module) = match split_coordinate(name) {
            Err(error) => {
                return Part::Fail(error);
            },
            Ok(pair) => pair,
        };
        let path = path::join(&path::join(cache, &org), &module);
        if replies.len() == 0 {
            return Part::Act(Action::IsDirectory(path));
        }
        let is_directory = session::next(replies).success;
        let rest = session::later(replies);
        if !is_directory {
            return Part::Fail(error::not_found(name));
        }
        if ctx.dry_run {
            return session::report(text::cat("would remove ", &path), rest);
        }
        if replies.len() == 1 {
            return Part::Act(Action::RemoveTree(path));
        }
        assert(replies@.deep()[1] == replies@[1]@);
        if !replies[1].success {
            return Part::Fail(replies[1].failure());
        }
        session::report(text::cat("removed ", &path), session::later(rest))
    }

    /// Deletes modules one after the other.
    pub open spec fn remove_each_spec(
        self,
        cache: Seq<char>,
        packages: Seq<RequestView>,
        ctx: OpContext,
        replies: Seq<ReplyView>,
    ) -> StepView<()>
        decreases packages.len(),
    {
        if packages.len() == 0 {
            StepView::Done(())
        } else {
            match self.remove_one_spec(cache, packages[0].name, ctx, replies) {
                PartView::Act(action) => StepView::Act(action),
                PartView::Fail(error) => StepView::Fail(error),
                PartView::Got(_, rest) => self.remove_each_spec(
                    cache,
                    packages.skip(1),
                    ctx,
                    rest,
                ),
            }
        }
    }

    pub fn remove(
        &self,
        packages: &[PackageRequest],
        ctx: &OpContext,
        replies: &[Reply],
    ) -> (r: Step<Finished>)
        ensures
            r@ == match cache_spec(replies@.deep()) {
                PartView::Act(action) => StepView::Act(action),
                PartView::Fail(error) => StepView::Fail(error),
                PartView::Got(cache, rest) => self.remove_each_spec(
                    cache,
                    packages@.deep(),
                    *ctx,
                    rest,
                ),
            },
            ctx.dry_run ==> r@.deletes_nothing(),
            r@.unprivileged(),
    {
        let (cache, after) = match cache(replies) {
            Part::Act(action) => {
                return Step::Act(action);
            },
            Part::Fail(error) => {
                return Step::Fail(error);
            },
            Part::Got(cache, rest) => (cache, rest),
        };
        let ghost all = packages@.deep();
        let mut rest = after;
        let mut i: usize = 0;
        assert(all.skip(0) =~= all);
        while i < packages.len()
            invariant
                i <= packages.len(),
                all == packages@.deep(),
                cache_spec(replies@.deep()) == PartView::Got(cache@, after@.deep()),
                self.remove_each_spec(cache@, all, *ctx, after@.deep()) == self.remove_each_spec(
                    cache@,
                    all.skip(i as int),
                    *ctx,
                    rest@.deep(),
                ),
            decreases packages.len() - i,
        {
            assert(all.skip(i as int)[0] == packages@[i as int]@);
            assert(all.skip(i as int).skip(1) =~= all.skip(i + 1));
            rest =
            match self.remove_one(&cache, &packages[i].name, ctx, rest) {
                Part::Act(action) => {
                    return Step::Act(action);
                },
                Part::Fail(error) => {
                    return Step::Fail(error);
                },
                Part::Got(_, rest) => rest,
            };
            i += 1;
        }
        Step::Done(Finished)
    }

    pub fn list_installed(&self, replies: &[Reply]) -> (r: Step<Listing<IvyPackage>>)
        ensures
            r@ == scan_cache_spec(replies@.deep()),
            r@.only_looks(),
    {
        scan_cache(replies)
    }

    /// The module of a coordinate in the revision that it names, or else in
    /// its newest revision.
    pub open spec fn info_spec(self, name: Seq<char>, replies: Seq<ReplyView>) -> StepView<
        PackageView,
    > {
        match split_coordinate_spec(name) {
            Err(error) => StepView::Fail(error),
            Ok((org, module)) => match scan_cache_spec(replies) {
                StepView::Act(action) => StepView::Act(action),
                StepView::Fail(error) => StepView::Fail(error),
                StepView::Done(packages) => session::found(
                    asked_for_spec(packages, org + ":"@ + module, name.split(":"@).nth(2)),
                    name,
                ),
            },
        }
    }

    pub fn info(&self, name: &str, replies: &[Reply]) -> (r: Step<IvyPackage>)
        ensures
            r@ == self.info_spec(name@, replies@.deep()),
            r@.only_looks(),
    {
        let (org, module) = match split_coordinate(name) {
            Err(error) => {
                return Step::Fail(error);
            },
            Ok(pair) => pair,
        };
        let t = chars(name);
        let requested = text::maybe_string(text::nth(&text::split(&t, ":"), 2));
        match scan_cache(replies) {
            Step::Act(action) => Step::Act(action),
            Step::Fail(error) => Step::Fail(error),
            Step::Done(listing) => session::find(
                asked_for(listing.packages, &text::cat3(&org, ":", &module), &requested),
                name,
            ),
        }
    }
}

/// The newest of the modules with a coordinate, and with a revision if one is
/// asked for.
pub open spec fn asked_for_spec(
    packages: Seq<PackageView>,
    coordinate: Seq<char>,
    requested: Option<Seq<char>>,
) -> Option<PackageView> {
    newest_spec(
        rows::keep(packages, |p: PackageView| is_asked_for(p, coordinate, requested)),
    )
}

pub fn asked_for(
    packages: Vec<IvyPackage>,
    coordinate: &str,
    requested: &Option<String>,
) -> (r: Option<IvyPackage>)
    ensures
        r.deep() == asked_for_spec(packages@.deep(), coordinate@, requested.deep()),
{
    let asked = |p: &IvyPackage| -> (b: bool)
        ensures
            b == is_asked_for(p@, coordinate@, requested.deep()),
        {
            text::equal(&p.name, coordinate) && (requested.is_none() || text::equal_maybe(
                &p.version,
                requested,
            ))
        };
    newest(
        rows::retain(
            packages,
            asked,
            Ghost(|p: PackageView| is_asked_for(p, coordinate@, requested.deep())),
        ),
    )
}

/// The modules of the cache are listed by name, and those of one name by
/// revision.
pub proof fn modules_are_listed_in_order(replies: Seq<ReplyView>)
    ensures
        scan_cache_spec(replies) matches StepView::Done(packages) ==> order::in_order(
            packages,
            |a: PackageView, b: PackageView| stands_before(a, b),
        ),
{
    let less = |a: PackageView, b: PackageView| stands_before(a, b);
    let by_text = |a: Seq<char>, b: Seq<char>| a.before(b);
    order::texts_are_ordered();
    assert forall|a: PackageView, b: PackageView| #![trigger less(a, b)] less(a, b) implies !less(
        b,
        a,
    ) by {
        assert(by_text(a.name, b.name) ==> !by_text(b.name, a.name));
        assert(by_text(b.name, a.name) ==> !by_text(a.name, b.name));
        if a.version is Some && b.version is Some {
            assert(by_text(a.version->0, b.version->0) ==> !by_text(b.version->0, a.version->0));
        }
    }
    assert forall|a: PackageView, b: PackageView, c: PackageView|
        #![trigger less(a, b), less(b, c)]
        !less(a, b) && !less(b, c) implies !less(a, c) by {
        assert(!by_text(a.name, b.name) && !by_text(b.name, c.name) ==> !by_text(a.name, c.name));
        order::lemma_before_total(a.name, b.name);
        order::lemma_before_total(b.name, c.name);
        assert(by_text(a.name, c.name) ==> !by_text(c.name, a.name));
        assert(by_text(b.name, a.name) ==> !by_text(a.name, b.name));
        assert(by_text(c.name, b.name) ==> !by_text(b.name, c.name));
        assert(!by_text(c.name, b.name) && !by_text(b.name, a.name) ==> !by_text(c.name, a.name));
        if a.version is Some && b.version is Some && c.version is Some {
            assert(!by_text(a.version->0, b.version->0) && !by_text(b.version->0, c.version->0)
                ==> !by_text(a.version->0, c.version->0));
        }
    }
    if let PartView::Got(cache, rest) = cache_spec(replies) {
        if rest.len() > 1 {
            if let PartView::Got(packages, _) = modules_below_spec(
                seq![],
                cache,
                rest[1].entries,
                rest.skip(1).skip(1),
            ) {
                order::sorting_orders(packages, less);
            }
        }
    }
}

/// No module is newer than the one that is picked as the newest, as long as
/// the revisions are made of numbers.
pub proof fn the_newest_is_unbeaten(packages: Seq<PackageView>)
    requires
        forall|i: int|
            0 <= i < packages.len() ==> version::is_numeric(
                revision_spec(#[trigger] packages[i]),
                ".-"@,
            ),
    ensures
        match newest_spec(packages) {
            Some(best) => {
                &&& packages.contains(best)
                &&& forall|i: int|
                    0 <= i < packages.len() ==> !is_newer_spec(#[trigger] packages[i], best)
            },
            None => packages.len() == 0,
        },
    decreases packages.len(),
{
    if packages.len() > 0 {
        let front = packages.drop_last();
        let last = packages.last();
        assert(forall|i: int| 0 <= i < front.len() ==> #[trigger] front[i] == packages[i]);
        the_newest_is_unbeaten(front);
        assert(packages[packages.len() - 1] == last);
        version::ranks_equal_itself(revision_spec(last), ".-"@);
        if let Some(best) = newest_spec(front) {
            let at = choose|at: int| 0 <= at < front.len() && front[at] == best;
            assert(packages[at] == best);
            version::ranks_reverse(revision_spec(best), revision_spec(last), ".-"@);
            if is_newer_spec(best, last) {
                assert forall|i: int| 0 <= i < packages.len() implies !is_newer_spec(
                    #[trigger] packages[i],
                    best,
                ) by {
                    if i < front.len() {
                        assert(front[i] == packages[i]);
                    }
                }
            } else {
                assert forall|i: int| 0 <= i < packages.len() implies !is_newer_spec(
                    #[trigger] packages[i],
                    last,
                ) by {
                    if i < front.len() {
                        assert(front[i] == packages[i]);
                        let other = revision_spec(packages[i]);
                        version::ranks_reverse(other, revision_spec(best), ".-"@);
                        version::numeric_ranks_chain(
                            revision_spec(last),
                            revision_spec(best),
                            other,
                            ".-"@,
                        );
                        version::ranks_reverse(revision_spec(last), other, ".-"@);
                    }
                }
            }
        }
    }
}

} // verus!
