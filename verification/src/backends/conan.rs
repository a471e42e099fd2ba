//! Conan, the C and C++ package manager, in its second generation.
//!
//! Packages are recipes with a binary in the local cache. Reads print JSON,
//! and a remote search covers every configured remote. Without a version an
//! open range is required, which Conan resolves to the newest recipe.

use vstd::prelude::*;

use crate::command::{self, Cmd, CmdView, Plan};
use crate::data::{self, Data, DataView};
use crate::detect::{self, Detection};
use crate::error::{self, Error, ErrorView};
use crate::order;
use crate::package::{Details, InstallState, Package, PackageView};
use crate::profile::{basic_capabilities, Capabilities, ManagerKind, Profile};
use crate::request::{OpContext, PackageRequest, RequestView};
use crate::rows;
use crate::session::{self, Listing, Reply, ReplyView, Step, StepView};
use crate::text::{self, chars, Deep, Text};

verus! {

broadcast use command::group_carries;

/// Finds the manager and sets it up.
#[derive(Clone, Copy, Debug)]
pub struct Factory;

/// The factory of this backend.
pub fn factory() -> (r: Factory)
    ensures
        r == Factory,
{
    Factory
}

impl Factory {
    pub fn id(&self) -> (r: &'static str)
        ensures
            r@ == "conan"@,
    {
        "conan"
    }

    /// The programs to look for, in the order of preference.
    pub fn programs(&self) -> (r: Vec<&'static str>)
        ensures
            r@.deep() == seq!["conan"@],
    {
        let mut out: Vec<&'static str> = Vec::new();
        out.push("conan");
        assert(out@.deep() =~= seq!["conan"@]);
        out
    }

    /// Whether the backend can be used, given where each program was found.
    pub fn detect(&self, found: &[Option<String>]) -> (r: Detection)
        ensures
            r@ == detect::detected(found@, "`conan` not found on PATH"@),
    {
        detect::detect(found, "`conan` not found on PATH")
    }

    /// The manager, given where each program was found.
    pub fn create(&self, found: &[Option<String>]) -> (r: Result<Manager, Error>)
        ensures
            match r {
                Ok(manager) => detect::required(found@, "conan"@) == Ok::<Seq<char>, ErrorView>(
                    manager.program@,
                ),
                Err(error) => detect::required(found@, "conan"@) == Err::<Seq<char>, ErrorView>(
                    error@,
                ),
            },
    {
        match detect::require(found, "conan") {
            Ok(program) => Ok(Manager { program }),
            Err(error) => Err(error),
        }
    }
}

/// The manager, driving `program`.
#[derive(Debug)]
pub struct Manager {
    pub program: String,
}

impl Manager {
    /// What the manager says of itself.
    pub fn profile(&self) -> (r: Profile)
        ensures
            r.id@ == "conan"@,
            r.display_name@ == "Conan"@,
            r.kind == ManagerKind::Language,
            r.database_id@ == "conan"@,
            r.capabilities == (Capabilities {
                search: true,
                pin_version: true,
                ..Capabilities::basic()
            }),
            r.elevates == false,
    {
        Profile {
            id: "conan",
            display_name: "Conan",
            kind: ManagerKind::Language,
            database_id: "conan",
            capabilities: Capabilities { search: true, pin_version: true, ..basic_capabilities() },
            elevates: false,
        }
    }
}

/// A recipe in a cache or on a remote.
#[derive(Debug)]
pub struct ConanPackage {
    pub name: String,
    pub version: Option<String>,
    pub description: Option<String>,
    pub state: InstallState,
}

impl View for ConanPackage {
    type V = PackageView;

    open spec fn view(&self) -> PackageView {
        PackageView {
            name: self.name@,
            version: self.version.deep(),
            description: self.description.deep(),
            state: self.state,
            ..PackageView::blank()
        }
    }
}

impl Default for ConanPackage {
    fn default() -> (r: ConanPackage)
        ensures
            r@ == PackageView::blank(),
    {
        ConanPackage {
            name: String::new(),
            version: None,
            description: None,
            state: InstallState::Unknown,
        }
    }
}

impl Package for ConanPackage {
    open spec fn manager_id() -> Seq<char> {
        "conan"@
    }

    fn manager(&self) -> (r: &'static str) {
        "conan"
    }

    fn details(&self) -> (r: Details<'_>) {
        Details {
            version: self.version.as_ref(),
            description: self.description.as_ref(),
            ..Details::of(&self.name, self.state)
        }
    }
}

/// The requirement of an install.
pub open spec fn install_ref_spec(package: RequestView) -> Seq<char> {
    match package.version {
        Some(version) => package.name + "/"@ + version,
        None => if package.name.has("/"@) {
            package.name
        } else {
            package.name + "/[>=0]"@
        },
    }
}

pub fn install_ref(package: &PackageRequest) -> (r: String)
    ensures
        r@ == install_ref_spec(package@),
{
    match &package.version {
        Some(version) => text::cat3(&package.name, "/", version),
        None => {
            if text::has(&chars(&package.name), "/") {
                text::copy(&package.name)
            } else {
                text::cat(&package.name, "/[>=0]")
            }
        },
    }
}

/// The pattern of a removal.
pub open spec fn remove_pattern_spec(package: RequestView) -> Seq<char> {
    match package.version {
        Some(version) => package.name + "/"@ + version,
        None => if package.name.has("/"@) {
            package.name
        } else {
            package.name + "/*"@
        },
    }
}

pub fn remove_pattern(package: &PackageRequest) -> (r: String)
    ensures
        r@ == remove_pattern_spec(package@),
{
    match &package.version {
        Some(version) => text::cat3(&package.name, "/", version),
        None => {
            if text::has(&chars(&package.name), "/") {
                text::copy(&package.name)
            } else {
                text::cat(&package.name, "/*")
            }
        },
    }
}

/// The pattern of a search: a plain query may occur anywhere in a name.
pub open spec fn search_pattern_spec(query: Seq<char>) -> Seq<char> {
    if query.has("/"@) {
        query
    } else {
        "*"@ + query + "*/*"@
    }
}

pub fn search_pattern(query: &str) -> (r: String)
    ensures
        r@ == search_pattern_spec(query@),
{
    if text::has(&chars(query), "/") {
        text::copy(query)
    } else {
        text::cat3("*", query, "*/*")
    }
}

/// The pattern of a package in the cache, with its binaries.
pub open spec fn local_pattern_spec(name: Seq<char>) -> Seq<char> {
    if name.has("/"@) {
        name + ":*"@
    } else {
        name + "/*:*"@
    }
}

fn local_pattern(name: &str) -> (r: String)
    ensures
        r@ == local_pattern_spec(name@),
{
    if text::has(&chars(name), "/") {
        text::cat(name, ":*")
    } else {
        text::cat(name, "/*:*")
    }
}

/// The pattern of a package on the remotes.
pub open spec fn remote_pattern_spec(name: Seq<char>) -> Seq<char> {
    if name.has("/"@) {
        name
    } else {
        name + "/*"@
    }
}

fn remote_pattern(name: &str) -> (r: String)
    ensures
        r@ == remote_pattern_spec(name@),
{
    if text::has(&chars(name), "/") {
        text::copy(name)
    } else {
        text::cat(name, "/*")
    }
}

impl Manager {
    /// What lists the recipes of a pattern, in the cache or on the remotes.
    pub open spec fn list_spec(self, pattern: Seq<char>, remotes: bool) -> CmdView {
        CmdView::query(self.program@).arg("list"@).arg(pattern).arg("--format=json"@).flag(
            remotes,
            "--remote=*"@,
        )
    }

    fn list(&self, pattern: &str, remotes: bool) -> (r: Cmd)
        ensures
            r@ == self.list_spec(pattern@, remotes),
    {
        Cmd::query(&self.program).arg("list").arg(pattern).arg("--format=json").flag(
            remotes,
            "--remote=*",
        )
    }

    pub fn install(&self, packages: &[PackageRequest], ctx: &OpContext) -> (r: Plan)
        ensures
            command::plan(r) == if ctx.dry_run {
                Err(ErrorView::Other("conan: install has no dry-run mode"@))
            } else {
                command::just(
                    CmdView::new(self.program@).arg("install"@).args(
                        packages@.deep().map_values(
                            |q: RequestView| "--requires="@ + install_ref_spec(q),
                        ),
                    ),
                )
            },
            command::all_elevated(command::plan(r), false),
            ctx.dry_run ==> r is Err,
    {
        if ctx.dry_run {
            return Err(error::other("conan: install has no dry-run mode"));
        }
        let requirement = |q: &PackageRequest| -> (s: String)
            ensures
                s@ == "--requires="@ + install_ref_spec(q@),
            { text::cat("--requires=", &install_ref(q)) };
        Ok(
            command::one(
                Cmd::new(&self.program).arg("install").each(
                    packages,
                    requirement,
                    Ghost(|q: RequestView| "--requires="@ + install_ref_spec(q)),
                ),
            ),
        )
    }

    /// One pattern at a time.
    pub fn remove(&self, packages: &[PackageRequest], ctx: &OpContext) -> (r: Plan)
        ensures
            command::plan(r) == Ok::<Seq<CmdView>, ErrorView>(
                packages@.deep().map_values(
                    |q: RequestView|
                        CmdView::new(self.program@).arg("remove"@).arg(remove_pattern_spec(q)).arg(
                            "--confirm"@,
                        ).flag(ctx.dry_run, "--dry-run"@),
                ),
            ),
            command::all_elevated(command::plan(r), false),
            ctx.dry_run ==> command::all_carry(command::plan(r), "--dry-run"@),
    {
        let remove = |q: &PackageRequest| -> (c: Cmd)
            ensures
                c@ == CmdView::new(self.program@).arg("remove"@).arg(remove_pattern_spec(q@)).arg(
                    "--confirm"@,
                ).flag(ctx.dry_run, "--dry-run"@),
            {
                Cmd::new(&self.program).arg("remove").arg(&remove_pattern(q)).arg("--confirm").flag(
                    ctx.dry_run,
                    "--dry-run",
                )
            };
        Ok(
            command::one_each(
                packages,
                remove,
                Ghost(
                    |q: RequestView|
                        CmdView::new(self.program@).arg("remove"@).arg(remove_pattern_spec(q)).arg(
                            "--confirm"@,
                        ).flag(ctx.dry_run, "--dry-run"@),
                ),
            ),
        )
    }

    /// The recipes of a pattern.
    pub open spec fn list_step_spec(
        self,
        pattern: Seq<char>,
        remotes: bool,
        replies: Seq<ReplyView>,
    ) -> StepView<Seq<PackageView>> {
        if replies.len() == 0 {
            session::ask(self.list_spec(pattern, remotes))
        } else {
            match listing_spec(replies[0], remotes) {
                Ok(packages) => StepView::Done(packages),
                Err(error) => StepView::Fail(error),
            }
        }
    }

    fn list_step(&self, pattern: &str, remotes: bool, replies: &[Reply]) -> (r: Step<
        Listing<ConanPackage>,
    >)
        ensures
            r@ == self.list_step_spec(pattern@, remotes, replies@.deep()),
    {
        if replies.len() == 0 {
            return session::query(self.list(pattern, remotes));
        }
        assert(replies@.deep()[0] == replies@[0]@);
        match listing(&replies[0], remotes) {
            Ok(packages) => Step::Done(Listing { packages }),
            Err(error) => Step::Fail(error),
        }
    }

    pub fn list_installed(&self, replies: &[Reply]) -> (r: Step<Listing<ConanPackage>>)
        ensures
            r@ == self.list_step_spec("*/*:*"@, false, replies@.deep()),
            r@.only_looks(),
            r@.in_c_locale(),
    {
        self.list_step("*/*:*", false, replies)
    }

    pub fn search(&self, query: &str, replies: &[Reply]) -> (r: Step<Listing<ConanPackage>>)
        ensures
            r@ == self.list_step_spec(search_pattern_spec(query@), true, replies@.deep()),
            r@.only_looks(),
            r@.in_c_locale(),
            r@ == self.list_step_spec(
                (if query@.has("/"@) { query@ } else { "*"@ + query@ + "*/*"@ }),
                true,
                replies@.deep(),
            ),
    {
        self.list_step(&search_pattern(query), true, replies)
    }

    /// The cache is asked first, the remotes only if it has nothing.
    pub open spec fn info_spec(self, name: Seq<char>, replies: Seq<ReplyView>) -> StepView<
        PackageView,
    > {
        if replies.len() == 0 {
            session::ask(self.list_spec(local_pattern_spec(name), false))
        } else {
            match listing_spec(replies[0], false) {
                Err(error) => StepView::Fail(error),
                Ok(local) => if local.len() > 0 {
                    StepView::Done(local[0])
                } else if replies.len() == 1 {
                    session::ask(self.list_spec(remote_pattern_spec(name), true))
                } else {
                    match listing_spec(replies[1], true) {
                        Err(error) => StepView::Fail(error),
                        Ok(remote) => session::found(
                            if remote.len() > 0 {
                                Some(remote[0])
                            } else {
                                None
                            },
                            name,
                        ),
                    }
                },
            }
        }
    }

    pub fn info(&self, name: &str, replies: &[Reply]) -> (r: Step<ConanPackage>)
        ensures
            r@ == self.info_spec(name@, replies@.deep()),
            r@.only_looks(),
            r@.in_c_locale(),
    {
        if replies.len() == 0 {
            return session::query(self.list(&local_pattern(name), false));
        }
        assert(replies@.deep()[0] == replies@[0]@);
        let mut local = match listing(&replies[0], false) {
            Err(error) => {
                return Step::Fail(error);
            },
            Ok(local) => local,
        };
        if local.len() > 0 {
            return Step::Done(local.swap_remove(0));
        }
        if replies.len() == 1 {
            return session::query(self.list(&remote_pattern(name), true));
        }
        assert(replies@.deep()[1] == replies@[1]@);
        let mut remote = match listing(&replies[1], true) {
            Err(error) => {
                return Step::Fail(error);
            },
            Ok(remote) => remote,
        };
        if remote.len() > 0 {
            Step::Done(remote.swap_remove(0))
        } else {
            Step::Fail(error::not_found(name))
        }
    }
}

/// The recipes that a listing prints: those of the cache are installed.
pub open spec fn listing_spec(reply: ReplyView, remotes: bool) -> Result<
    Seq<PackageView>,
    ErrorView,
> {
    if !reply.success {
        Err(reply.failure())
    } else {
        parse_list_json_spec(
            reply.stdout,
            if remotes {
                InstallState::Available
            } else {
                InstallState::Installed
            },
        )
    }
}

fn listing(reply: &Reply, remotes: bool) -> (r: Result<Vec<ConanPackage>, Error>)
    ensures
        error::outcome_list(r) == listing_spec(reply@, remotes),
{
    if !reply.success {
        return Err(reply.failure());
    }
    parse_list_json(
        &reply.stdout,
        if remotes {
            InstallState::Available
        } else {
            InstallState::Installed
        },
    )
}

/// A recipe reference, `name/version`, without its revision.
pub open spec fn parse_reference_spec(reference: Seq<char>, state: InstallState) -> Option<
    PackageView,
> {
    match reference.split("#"@)[0].cut("/"@) {
        Some((name, version)) => Some(PackageView::versioned(name, Some(version), state)),
        None => None,
    }
}

pub fn parse_reference(reference: &str, state: InstallState) -> (r: Option<ConanPackage>)
    ensures
        r.deep() == parse_reference_spec(reference@, state),
{
    let t = chars(reference);
    let parts = text::split(&t, "#");
    proof {
        text::lemma_split_some(reference@, "#"@);
    }
    match text::cut(parts[0], "/") {
        Some((name, version)) => Some(
            ConanPackage {
                name: text::string(name),
                version: Some(text::string(version)),
                description: None,
                state,
            },
        ),
        None => None,
    }
}

/// The keys of the tables among the values of a table, as they come.
pub open spec fn references_spec(sources: Seq<(Seq<char>, DataView)>) -> Seq<Seq<char>>
    decreases sources.len(),
{
    if sources.len() == 0 {
        seq![]
    } else {
        references_spec(sources.drop_last()) + (match sources.last().1.entries() {
            Some(entries) => entries.map_values(|e: (Seq<char>, DataView)| e.0),
            None => seq![],
        })
    }
}

fn references(sources: &Vec<(String, Data)>) -> (r: Vec<String>)
    ensures
        r@.deep() == references_spec(sources@.deep()),
{
    let ghost all = sources@.deep();
    let mut out: Vec<String> = rows::empty();
    let mut i: usize = 0;
    while i < sources.len()
        invariant
            i <= sources.len(),
            all == sources@.deep(),
            out@.deep() == references_spec(all.take(i as int)),
        decreases sources.len() - i,
    {
        assert(all.take(i + 1).drop_last() =~= all.take(i as int));
        assert(all.take(i + 1).last() == sources@[i as int]@);
        if let Some(entries) = sources[i].1.entries() {
            let ghost start = out@.deep();
            let ghost keys = entries@.deep().map_values(|e: (Seq<char>, DataView)| e.0);
            let mut j: usize = 0;
            assert(out@.deep() =~= start + keys.take(0));
            while j < entries.len()
                invariant
                    j <= entries.len(),
                    keys == entries@.deep().map_values(|e: (Seq<char>, DataView)| e.0),
                    out@.deep() == start + keys.take(j as int),
                decreases entries.len() - j,
            {
                rows::push(&mut out, text::copy(&entries[j].0));
                assert(keys[j as int] == entries@[j as int].0@);
                assert(out@.deep() =~= start + keys.take(j + 1));
                j += 1;
            }
            assert(keys.take(keys.len() as int) =~= keys);
        } else {
            assert(out@.deep() + Seq::<Seq<char>>::empty() =~= out@.deep());
        }
        i += 1;
    }
    assert(all.take(all.len() as int) =~= all);
    out
}

/// The recipes in what `conan list` prints: the references of all sources,
/// each one once and in order.
pub open spec fn list_rows_spec(
    parsed: Result<DataView, Seq<char>>,
    state: InstallState,
) -> Result<Seq<PackageView>, ErrorView> {
    match parsed {
        Err(detail) => Err(ErrorView::Parse { what: "conan list JSON"@, detail }),
        Ok(root) => match root.entries() {
            None => Err(
                ErrorView::Parse {
                    what: "conan list JSON"@,
                    detail: "top-level value is not an object"@,
                },
            ),
            Some(sources) => Ok(
                rows::select(
                    order::sorted_set(references_spec(sources)),
                    |reference: Seq<char>| parse_reference_spec(reference, state),
                ),
            ),
        },
    }
}

pub fn list_rows(parsed: Result<Data, String>, state: InstallState) -> (r: Result<
    Vec<ConanPackage>,
    Error,
>)
    ensures
        error::outcome_list(r) == list_rows_spec(data::reading(parsed), state),
{
    let root = match parsed {
        Err(detail) => {
            return Err(Error::Parse { what: text::copy("conan list JSON"), detail });
        },
        Ok(root) => root,
    };
    let sources = match root.entries() {
        None => {
            return Err(
                Error::Parse {
                    what: text::copy("conan list JSON"),
                    detail: text::copy("top-level value is not an object"),
                },
            );
        },
        Some(sources) => sources,
    };
    let all = order::sort_set(references(sources));
    let ghost texts = all@.deep();
    let mut out: Vec<ConanPackage> = rows::empty();
    let mut i: usize = 0;
    while i < all.len()
        invariant
            i <= all.len(),
            texts == all@.deep(),
            out@.deep() == rows::select(
                texts.take(i as int),
                |reference: Seq<char>| parse_reference_spec(reference, state),
            ),
        decreases all.len() - i,
    {
        assert(texts.take(i + 1).drop_last() =~= texts.take(i as int));
        assert(texts.take(i + 1).last() == all@[i as int]@);
        if let Some(package) = parse_reference(&all[i], state) {
            rows::push(&mut out, package);
        }
        i += 1;
    }
    assert(texts.take(texts.len() as int) =~= texts);
    Ok(out)
}

/// The recipes that `conan list --format=json` prints.
pub open spec fn parse_list_json_spec(stdout: Seq<char>, state: InstallState) -> Result<
    Seq<PackageView>,
    ErrorView,
> {
    list_rows_spec(data::json_text(stdout), state)
}

pub fn parse_list_json(stdout: &str, state: InstallState) -> (r: Result<Vec<ConanPackage>, Error>)
    ensures
        error::outcome_list(r) == parse_list_json_spec(stdout@, state),
{
    list_rows(data::parse_json(stdout), state)
}

} // verus!
