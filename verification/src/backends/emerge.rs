//! Gentoo's Portage, through `emerge`.
//!
//! The installed packages are read from Portage's database below
//! `/var/db/pkg`, since `emerge` itself does not list them. `--pretend` is the
//! dry run. Packages are removed with `--depclean`, which refuses to break
//! dependencies.

use vstd::prelude::*;

use crate::command::{self, Cmd, CmdView, Plan};
use crate::detect::{self, Detection};
use crate::error::{self, Error, ErrorView};
use crate::order;
use crate::package::{Details, InstallState, Package, PackageView};
use crate::pattern;
use crate::profile::{basic_capabilities, Capabilities, ManagerKind, Profile};
use crate::request::{OpContext, PackageRequest, RequestView};
use crate::rows::{self, Scanner};
use crate::session::{self, Action, ActionView, Listing, Reply, ReplyView, Step, StepView};
use crate::size;
use crate::text::{self, chars, Deep, Pieces, Text};
use crate::version;

verus! {

broadcast use command::group_carries;

/// Finds the manager and sets it up.
#[derive(Clone, Copy, Debug)]
pub struct Factory;

/// The factory of this backend.
pub fn factory() -> (r: Factory)
    ensures
        r == Factory,
{
    Factory
}

impl Factory {
    pub fn id(&self) -> (r: &'static str)
        ensures
            r@ == "emerge"@,
    {
        "emerge"
    }

    /// The programs to look for, in the order of preference.
    pub fn programs(&self) -> (r: Vec<&'static str>)
        ensures
            r@.deep() == seq!["emerge"@],
    {
        let mut out: Vec<&'static str> = Vec::new();
        out.push("emerge");
        assert(out@.deep() =~= seq!["emerge"@]);
        out
    }

    /// Whether the backend can be used, given where each program was found.
    pub fn detect(&self, found: &[Option<String>]) -> (r: Detection)
        ensures
            r@ == detect::detected(found@, "`emerge` not found on PATH"@),
    {
        detect::detect(found, "`emerge` not found on PATH")
    }

    /// The manager, given where each program was found.
    pub fn create(&self, found: &[Option<String>]) -> (r: Result<Manager, Error>)
        ensures
            match r {
                Ok(manager) => detect::required(found@, "emerge"@) == Ok::<Seq<char>, ErrorView>(
                    manager.program@,
                ),
                Err(error) => detect::required(found@, "emerge"@) == Err::<Seq<char>, ErrorView>(
                    error@,
                ),
            },
    {
        match detect::require(found, "emerge") {
            Ok(program) => Ok(Manager { program }),
            Err(error) => Err(error),
        }
    }
}

/// The manager, driving `program`.
#[derive(Debug)]
pub struct Manager {
    pub program: String,
}

impl Manager {
    /// What the manager says of itself.
    pub fn profile(&self) -> (r: Profile)
        ensures
            r.id@ == "emerge"@,
            r.display_name@ == "Portage"@,
            r.kind == ManagerKind::System,
            r.database_id@ == "portage"@,
            r.capabilities == (Capabilities {
                search: true,
                refresh: true,
                upgrade: true,
                list_outdated: true,
                pin_version: true,
                ..Capabilities::basic()
            }),
            r.elevates == true,
    {
        Profile {
            id: "emerge",
            display_name: "Portage",
            kind: ManagerKind::System,
            database_id: "portage",
            capabilities: Capabilities {
                search: true,
                refresh: true,
                upgrade: true,
                list_outdated: true,
                pin_version: true,
                ..basic_capabilities()
            },
            elevates: true,
        }
    }
}

/// A package as Portage describes it.
#[derive(Debug)]
pub struct EmergePackage {
    /// `category/name`.
    pub name: String,
    pub version: Option<String>,
    pub latest_version: Option<String>,
    pub description: Option<String>,
    pub homepage: Option<String>,
    pub license: Option<String>,
    pub download_size: Option<u64>,
    pub state: InstallState,
}

impl View for EmergePackage {
    type V = PackageView;

    open spec fn view(&self) -> PackageView {
        PackageView {
            name: self.name@,
            version: self.version.deep(),
            latest_version: self.latest_version.deep(),
            description: self.description.deep(),
            homepage: self.homepage.deep(),
            license: self.license.deep(),
            download_size: self.download_size,
            state: self.state,
            ..PackageView::blank()
        }
    }
}

impl Default for EmergePackage {
    fn default() -> (r: EmergePackage)
        ensures
            r@ == PackageView::blank(),
    {
        EmergePackage {
            name: String::new(),
            version: None,
            latest_version: None,
            description: None,
            homepage: None,
            license: None,
            download_size: None,
            state: InstallState::Unknown,
        }
    }
}

impl Package for EmergePackage {
    open spec fn manager_id() -> Seq<char> {
        "emerge"@
    }

    fn manager(&self) -> (r: &'static str) {
        "emerge"
    }

    fn details(&self) -> (r: Details<'_>) {
        Details {
            version: self.version.as_ref(),
            latest_version: self.latest_version.as_ref(),
            description: self.description.as_ref(),
            homepage: self.homepage.as_ref(),
            license: self.license.as_ref(),
            download_size: self.download_size,
            ..Details::of(&self.name, self.state)
        }
    }
}

/// `=name-version` when the request pins one, the bare name otherwise.
pub open spec fn exact_spec(request: RequestView) -> Seq<char> {
    match request.version {
        Some(version) => "="@ + request.name + "-"@ + version,
        None => request.name,
    }
}

pub fn spec(request: &PackageRequest) -> (r: String)
    ensures
        r@ == exact_spec(request@),
{
    match &request.version {
        Some(version) => text::cat4("=", &request.name, "-", version),
        None => text::copy(&request.name),
    }
}

impl Manager {
    /// A command whose output is read, without colors.
    pub open spec fn query_spec(self) -> CmdView {
        CmdView::query(self.program@).arg("--color=n"@)
    }

    fn query(&self) -> (r: Cmd)
        ensures
            r@ == self.query_spec(),
    {
        Cmd::query(&self.program).arg("--color=n")
    }

    /// An elevated command, simulated on a dry run.
    pub open spec fn mutation_spec(self, ctx: OpContext) -> CmdView {
        CmdView::new(self.program@).elevated().flag(ctx.dry_run, "--pretend"@)
    }

    fn mutation(&self, ctx: &OpContext) -> (r: Cmd)
        ensures
            r@ == self.mutation_spec(*ctx),
    {
        Cmd::new(&self.program).elevated().flag(ctx.dry_run, "--pretend")
    }

    pub fn install(&self, packages: &[PackageRequest], ctx: &OpContext) -> (r: Plan)
        ensures
            command::plan(r) == command::just(
                self.mutation_spec(*ctx).args(
                    packages@.deep().map_values(|q: RequestView| exact_spec(q)),
                ),
            ),
            command::all_elevated(command::plan(r), true),
            ctx.dry_run ==> command::all_carry(command::plan(r), "--pretend"@),
            command::plan(r) == command::just(
                CmdView::new(self.program@).elevated().flag(ctx.dry_run, "--pretend"@).args(
                    packages@.deep().map_values(|q: RequestView| exact_spec(q)),
                ),
            ),
    {
        Ok(
            command::one(
                self.mutation(ctx).each(packages, spec, Ghost(|q: RequestView| exact_spec(q))),
            ),
        )
    }

    pub fn remove(&self, packages: &[PackageRequest], ctx: &OpContext) -> (r: Plan)
        ensures
            command::plan(r) == command::just(
                self.mutation_spec(*ctx).arg("--depclean"@).names(packages@.deep()),
            ),
            command::all_elevated(command::plan(r), true),
            ctx.dry_run ==> command::all_carry(command::plan(r), "--pretend"@),
            command::plan(r) == command::just(
                CmdView::new(self.program@).elevated().flag(
                    ctx.dry_run,
                    "--pretend"@,
                ).arg("--depclean"@).names(packages@.deep()),
            ),
    {
        Ok(command::one(self.mutation(ctx).arg("--depclean").names(packages)))
    }

    pub fn upgrade(&self, packages: &[PackageRequest], ctx: &OpContext) -> (r: Plan)
        ensures
            command::plan(r) == ({
                let cmd = self.mutation_spec(*ctx).arg("--update"@).arg("--deep"@).arg("--newuse"@);
                command::just(
                    if packages@.len() == 0 {
                        cmd.arg("@world"@)
                    } else {
                        cmd.args(packages@.deep().map_values(|q: RequestView| exact_spec(q)))
                    },
                )
            }),
            command::all_elevated(command::plan(r), true),
            ctx.dry_run ==> command::all_carry(command::plan(r), "--pretend"@),
            command::plan(r) == (
                {
                    let cmd = CmdView::new(self.program@).elevated().flag(
                        ctx.dry_run,
                        "--pretend"@,
                    ).arg("--update"@).arg("--deep"@).arg("--newuse"@);
                    command::just(
                        if packages@.len() == 0 { cmd.arg("@world"@) } else {
                            cmd.args(packages@.deep().map_values(|q: RequestView| exact_spec(q)))
                        },
                    )
                }
            ),
    {
        let cmd = self.mutation(ctx).arg("--update").arg("--deep").arg("--newuse");
        if packages.len() == 0 {
            Ok(command::one(cmd.arg("@world")))
        } else {
            Ok(command::one(cmd.each(packages, spec, Ghost(|q: RequestView| exact_spec(q)))))
        }
    }

    pub fn refresh(&self, ctx: &OpContext) -> (r: Plan)
        ensures
            command::plan(r) == if ctx.dry_run {
                Err(ErrorView::Other("emerge: refresh has no dry-run mode"@))
            } else {
                command::just(CmdView::new(self.program@).arg("--sync"@).elevated())
            },
            command::all_elevated(command::plan(r), true),
            ctx.dry_run ==> r is Err,
    {
        if ctx.dry_run {
            return Err(error::other("emerge: refresh has no dry-run mode"));
        }
        Ok(command::one(Cmd::new(&self.program).arg("--sync").elevated()))
    }

    pub fn search(&self, query: &str, replies: &[Reply]) -> (r: Step<Listing<EmergePackage>>)
        ensures
            r@ == session::listed(
                self.query_spec().arg("--search"@).arg(query@),
                replies@.deep(),
                |out: Seq<char>| parse_search_spec(out),
            ),
            r@.only_looks(),
            r@.in_c_locale(),
            r@ == session::listed(
                CmdView::query(self.program@).arg("--color=n"@).arg("--search"@).arg(query@),
                replies@.deep(),
                |out: Seq<char>| parse_search_spec(out),
            ),
    {
        session::list(
            self.query().arg("--search").arg(query),
            replies,
            parse_search,
            Ghost(|out: Seq<char>| parse_search_spec(out)),
        )
    }

    pub fn list_outdated(&self, replies: &[Reply]) -> (r: Step<Listing<EmergePackage>>)
        ensures
            r@ == session::listed(
                self.query_spec().arg("--pretend"@).arg("--update"@).arg("--deep"@).arg(
                    "--newuse"@,
                ).arg("@world"@),
                replies@.deep(),
                |out: Seq<char>| parse_pretend_spec(out),
            ),
            r@.only_looks(),
            r@.in_c_locale(),
            r@ == session::listed(
                CmdView::query(
                    self.program@,
                ).arg(
                    "--color=n"@,
                ).arg(
                    "--pretend"@,
                ).arg("--update"@).arg("--deep"@).arg("--newuse"@).arg("@world"@),
                replies@.deep(),
                |out: Seq<char>| parse_pretend_spec(out),
            ),
    {
        session::list(
            self.query().arg("--pretend").arg("--update").arg("--deep").arg("--newuse").arg(
                "@world",
            ),
            replies,
            parse_pretend,
            Ghost(|out: Seq<char>| parse_pretend_spec(out)),
        )
    }

    /// The search for exactly this name, as an anchored pattern; a name with
    /// its category is compared as a whole.
    pub fn info(&self, name: &str, replies: &[Reply]) -> (r: Step<EmergePackage>)
        ensures
            r@ == (if replies@.len() == 0 {
                session::ask(self.query_spec().arg("--search"@).arg(name_pattern_spec(name@)))
            } else if !replies@[0].success {
                StepView::Fail(replies@[0]@.failure())
            } else {
                session::found(
                    find_name_spec(parse_search_spec(replies@[0].stdout@), name@),
                    name@,
                )
            }),
            r@.only_looks(),
            r@.in_c_locale(),
            r@ == (
                if replies@.len() == 0 {
                    session::ask(
                        CmdView::query(self.program@).arg("--color=n"@).arg("--search"@).arg(
                            (
                                if name@.has("/"@) {
                                    "%@^"@ + regex_escape_spec(name@) + "$"@
                                } else { "%^"@ + regex_escape_spec(name@) + "$"@ }
                            ),
                        ),
                    )
                } else if !replies@[0].success { StepView::Fail(replies@[0]@.failure()) } else {
                    session::found(
                        find_name_spec(parse_search_spec(replies@[0].stdout@), name@),
                        name@,
                    )
                }
            ),
    {
        if replies.len() == 0 {
            return session::query(self.query().arg("--search").arg(&name_pattern(name)));
        }
        if !replies[0].success {
            return Step::Fail(replies[0].failure());
        }
        session::find(find_name(parse_search(&replies[0].stdout), name), name)
    }

    /// The categories are the directories of the database; the packages are
    /// the directories in each of them.
    pub open spec fn list_installed_spec(self, replies: Seq<ReplyView>) -> StepView<
        Seq<PackageView>,
    > {
        if replies.len() == 0 {
            StepView::Act(directories_spec("/var/db/pkg"@))
        } else if session::failed(replies) is Some {
            StepView::Fail(session::failed(replies)->0)
        } else {
            let categories = rows::keep(replies[0].entries, |name: Seq<char>| is_entry_spec(name));
            if replies.len() <= categories.len() {
                StepView::Act(directories_spec("/var/db/pkg/"@ + categories[replies.len() - 1]))
            } else {
                StepView::Done(
                    scan_vdb_spec(
                        categories,
                        replies.skip(1).map_values(|r: ReplyView| r.entries),
                    ),
                )
            }
        }
    }

    pub fn list_installed(&self, replies: &[Reply]) -> (r: Step<Listing<EmergePackage>>)
        ensures
            r@ == self.list_installed_spec(replies@.deep()),
            r@.only_looks(),
            r@.in_c_locale(),
            replies@.len() == 0 ==> r@ == StepView::<Seq<PackageView>>::Act(
                ActionView::Directories { path: "/var/db/pkg"@, links: false, lenient: false },
            ),
            replies@.len() > 0 && (forall|i: int|
                0 <= i < replies@.len() ==> (#[trigger] replies@[i]).success) ==> ({
                let accepted = rows::keep(
                    replies@[0].entries@.deep(),
                    |name: Seq<char>| !name.begins("."@) && !name.begins("-"@),
                );
                let read = replies@.len() - 1;
                if read < accepted.len() {
                    r@ == StepView::<Seq<PackageView>>::Act(
                        ActionView::Directories {
                            path: "/var/db/pkg/"@ + accepted[read],
                            links: false,
                            lenient: false,
                        },
                    )
                } else {
                    r is Done
                }
            }),
    {
        proof {
            if replies@.len() > 0 {
                lemma_entries_are_kept(replies@[0].entries@.deep());
                if forall|i: int| 0 <= i < replies@.len() ==> (#[trigger] replies@[i]).success {
                    session::lemma_none_failed(replies@.deep());
                }
            }
        }
        if replies.len() == 0 {
            return Step::Act(directories(text::copy("/var/db/pkg")));
        }
        if let Some(error) = session::first_failure(replies) {
            return Step::Fail(error);
        }
        assert(replies@.deep()[0] == replies@[0]@);
        let categories = accepted(&replies[0].entries);
        if replies.len() <= categories.len() {
            return Step::Act(
                directories(text::cat("/var/db/pkg/", &categories[replies.len() - 1])),
            );
        }
        let mut entries: Vec<Vec<String>> = Vec::new();
        let mut i: usize = 1;
        let ghost all = replies@.deep().skip(1).map_values(|r: ReplyView| r.entries);
        while i < replies.len()
            invariant
                1 <= i <= replies.len(),
                all == replies@.deep().skip(1).map_values(|r: ReplyView| r.entries),
                listings(entries@) == all.take(i - 1),
            decreases replies.len() - i,
        {
            let ghost before = entries@;
            entries.push(copies(&replies[i].entries));
            assert(all[i - 1] == replies@[i as int].entries@.deep());
            assert(listings(entries@) =~= listings(before).push(all[i - 1]));
            assert(listings(entries@) =~= all.take(i as int));
            i += 1;
        }
        assert(all.take(all.len() as int) =~= all);
        Step::Done(Listing { packages: scan_vdb(&categories, &entries) })
    }
}

proof fn lemma_entries_are_kept(entries: Seq<Seq<char>>)
    ensures
        rows::keep(entries, |name: Seq<char>| is_entry_spec(name)) == rows::keep(
            entries,
            |name: Seq<char>| !name.begins("."@) && !name.begins("-"@),
        ),
{
    rows::kept_alike(
        entries,
        |name: Seq<char>| is_entry_spec(name),
        |name: Seq<char>| !name.begins("."@) && !name.begins("-"@),
    );
}

/// A level of the database: its directories, no links.
pub open spec fn directories_spec(path: Seq<char>) -> ActionView {
    ActionView::Directories { path, links: false, lenient: false }
}

fn directories(path: String) -> (r: Action)
    ensures
        r@ == directories_spec(path@),
{
    Action::Directories { path, links: false, lenient: false }
}

/// The model of the entries of several directories.
pub open spec fn listings(v: Seq<Vec<String>>) -> Seq<Seq<Seq<char>>> {
    v.map_values(|names: Vec<String>| names@.deep())
}

fn copies(names: &Vec<String>) -> (r: Vec<String>)
    ensures
        r@.deep() == names@.deep(),
{
    let mut out: Vec<String> = Vec::new();
    let mut i: usize = 0;
    while i < names.len()
        invariant
            i <= names.len(),
            out@.deep() == names@.deep().take(i as int),
        decreases names.len() - i,
    {
        let ghost before = out@;
        out.push(text::copy(&names[i]));
        assert(out@.deep() =~= before.deep().push(names@[i as int]@));
        assert(out@.deep() =~= names@.deep().take(i + 1));
        i += 1;
    }
    assert(names@.deep().take(names@.len() as int) =~= names@.deep());
    out
}

/// A name in the database: hidden directories and merges that are under way
/// (`-MERGING-…`) are none.
pub open spec fn is_entry_spec(name: Seq<char>) -> bool {
    !name.begins("."@) && !name.begins("-"@)
}

fn is_entry(name: &str) -> (r: bool)
    ensures
        r == is_entry_spec(name@),
{
    let t = chars(name);
    !text::begins(&t, ".") && !text::begins(&t, "-")
}

fn accepted(names: &Vec<String>) -> (r: Vec<String>)
    ensures
        r@.deep() == rows::keep(names@.deep(), |name: Seq<char>| is_entry_spec(name)),
{
    let keep = |name: &String| -> (b: bool)
        ensures
            b == is_entry_spec(name@),
        { is_entry(name) };
    rows::retain(copies(names), keep, Ghost(|name: Seq<char>| is_entry_spec(name)))
}

/// The installed package of a directory `<category>/<name-version>`.
pub open spec fn vdb_row_spec(category: Seq<char>, pf: Seq<char>) -> Option<PackageView> {
    if is_entry_spec(pf) {
        let (name, version) = version::split_last(pf);
        Some(PackageView::versioned(category + "/"@ + name, version, InstallState::Installed))
    } else {
        None
    }
}

fn vdb_row(category: &str, pf: &str) -> (r: Option<EmergePackage>)
    ensures
        r.deep() == vdb_row_spec(category@, pf@),
{
    if !is_entry(pf) {
        return None;
    }
    let (name, version) = split_pv(pf);
    Some(
        EmergePackage {
            name: text::cat3(category, "/", &name),
            version,
            state: InstallState::Installed,
            ..EmergePackage::default()
        },
    )
}

/// The installed packages of one category.
pub open spec fn category_spec(category: Seq<char>, entries: Seq<Seq<char>>) -> Seq<PackageView> {
    rows::select(entries, |pf: Seq<char>| vdb_row_spec(category, pf))
}

/// The installed packages of all categories, as they come.
pub open spec fn vdb_spec(categories: Seq<Seq<char>>, entries: Seq<Seq<Seq<char>>>) -> Seq<
    PackageView,
>
    decreases categories.len(),
{
    if categories.len() == 0 || categories.len() > entries.len() {
        seq![]
    } else {
        vdb_spec(categories.drop_last(), entries) + category_spec(
            categories.last(),
            entries[categories.len() - 1],
        )
    }
}

/// The installed packages by name, given the categories of the database and
/// the entries of each.
pub open spec fn scan_vdb_spec(
    categories: Seq<Seq<char>>,
    entries: Seq<Seq<Seq<char>>>,
) -> Seq<PackageView> {
    order::sorted(
        vdb_spec(categories, entries),
        |a: PackageView, b: PackageView| a.name.before(b.name),
    )
}

pub fn scan_vdb(categories: &Vec<String>, entries: &Vec<Vec<String>>) -> (r: Vec<EmergePackage>)
    requires
        categories@.len() <= entries@.len(),
    ensures
        r@.deep() == scan_vdb_spec(categories@.deep(), listings(entries@)),
{
    let mut packages: Vec<EmergePackage> = Vec::new();
    let mut i: usize = 0;
    let ghost names = categories@.deep();
    let ghost lists = listings(entries@);
    assert(packages@.deep() =~= vdb_spec(names.take(0), lists));
    while i < categories.len()
        invariant
            i <= categories.len() <= entries.len(),
            names == categories@.deep(),
            lists == listings(entries@),
            packages@.deep() == vdb_spec(names.take(i as int), lists),
        decreases categories.len() - i,
    {
        assert(names.take(i + 1).drop_last() =~= names.take(i as int));
        let ghost start = packages@.deep();
        let ghost category = names[i as int];
        let ghost list = lists[i as int];
        let mut j: usize = 0;
        assert(packages@.deep() =~= start + category_spec(category, list.take(0)));
        while j < entries[i].len()
            invariant
                i < categories.len() <= entries.len(),
                names == categories@.deep(),
                lists == listings(entries@),
                category == names[i as int],
                list == lists[i as int],
                j <= entries@[i as int]@.len(),
                packages@.deep() == start + category_spec(category, list.take(j as int)),
            decreases entries@[i as int]@.len() - j,
        {
            assert(list.take(j + 1).drop_last() =~= list.take(j as int));
            assert(list[j as int] == entries@[i as int]@[j as int]@);
            let ghost before = packages@;
            if let Some(package) = vdb_row(&categories[i], &entries[i][j]) {
                packages.push(package);
                assert(packages@.deep() =~= before.deep().push(package@));
                assert(packages@.deep() =~= start + category_spec(category, list.take(j + 1)));
            }
            j += 1;
        }
        assert(list.take(list.len() as int) =~= list);
        i += 1;
    }
    assert(names.take(names.len() as int) =~= names);
    let by_name = |a: &EmergePackage, b: &EmergePackage| -> (l: bool)
        ensures
            l == a@.name.before(b@.name),
        { text::string_before(&a.name, &b.name) };
    order::sort(
        packages,
        by_name,
        Ghost(|a: PackageView, b: PackageView| a.name.before(b.name)),
    )
}

/// The installed packages are listed by name, whatever order the directories
/// are read in, and none is lost.
pub proof fn installed_packages_are_sorted(
    categories: Seq<Seq<char>>,
    entries: Seq<Seq<Seq<char>>>,
)
    ensures
        forall|i: int, j: int|
            0 <= i < j < scan_vdb_spec(categories, entries).len() ==> !(
            #[trigger] scan_vdb_spec(categories, entries)[j]).name.before(
                (#[trigger] scan_vdb_spec(categories, entries)[i]).name,
            ),
        scan_vdb_spec(categories, entries).to_multiset() == vdb_spec(
            categories,
            entries,
        ).to_multiset(),
{
    let less = |a: PackageView, b: PackageView| a.name.before(b.name);
    let texts = |a: Seq<char>, b: Seq<char>| a.before(b);
    order::texts_are_ordered();
    assert forall|a: PackageView, b: PackageView| #![trigger less(a, b)] less(a, b) implies !less(
        b,
        a,
    ) by {
        assert(texts(a.name, b.name) == less(a, b));
    }
    assert forall|a: PackageView, b: PackageView, c: PackageView|
        #![trigger less(a, b), less(b, c)]
        !less(a, b) && !less(b, c) implies !less(a, c) by {
        assert(texts(a.name, b.name) == less(a, b));
        assert(texts(b.name, c.name) == less(b, c));
    }
    order::sorting_orders(vdb_spec(categories, entries), less);
    let all = scan_vdb_spec(categories, entries);
    assert forall|i: int, j: int| 0 <= i < j < all.len() implies !(#[trigger] all[j]).name.before(
        (#[trigger] all[i]).name,
    ) by {
        assert(!less(all[j], all[i]));
    }
}

/// The pattern that finds exactly `name`: `%` makes it a regular expression,
/// `@` compares the category too.
pub open spec fn name_pattern_spec(name: Seq<char>) -> Seq<char> {
    if name.has("/"@) {
        "%@^"@ + regex_escape_spec(name) + "$"@
    } else {
        "%^"@ + regex_escape_spec(name) + "$"@
    }
}

pub fn name_pattern(name: &str) -> (r: String)
    ensures
        r@ == name_pattern_spec(name@),
{
    if text::has(&chars(name), "/") {
        text::cat3("%@^", &regex_escape(name), "$")
    } else {
        text::cat3("%^", &regex_escape(name), "$")
    }
}

/// The first package of that name, with or without its category.
pub open spec fn find_name_spec(packages: Seq<PackageView>, name: Seq<char>) -> Option<
    PackageView,
> {
    rows::first(packages, |p: PackageView| p.name == name || p.name.after_last('/') == name)
}

fn find_name(packages: Vec<EmergePackage>, name: &str) -> (r: Option<EmergePackage>)
    ensures
        r.deep() == find_name_spec(packages@.deep(), name@),
{
    let matching = |p: &EmergePackage| -> (b: bool)
        ensures
            b == (p@.name == name@ || p@.name.after_last('/') == name@),
        {
            let t = chars(&p.name);
            text::is(&t, name) || text::is(text::after_last(&t, '/'), name)
        };
    rows::take_first(
        packages,
        matching,
        Ghost(|p: PackageView| p.name == name@ || p.name.after_last('/') == name@),
    )
}

/// A name inside a pattern: characters that could mean something else there
/// are escaped.
pub open spec fn regex_escape_spec(name: Seq<char>) -> Seq<char> {
    pattern::escaped(name, "_-/"@)
}

pub fn regex_escape(name: &str) -> (r: String)
    ensures
        r@ == regex_escape_spec(name@),
{
    pattern::escape(name, "_-/")
}

/// `ripgrep-14.1.0-r1` is `ripgrep` at `14.1.0-r1`: the version starts behind
/// the last hyphen followed by a digit.
pub fn split_pv(pf: &str) -> (r: (String, Option<String>))
    ensures
        version::name_and_version(r) == version::split_last(pf@),
{
    version::split_at_last(pf)
}

/// What a unit is worth, as a power of two.
pub open spec fn unit_spec(unit: Seq<char>) -> Option<u8> {
    if unit == "B"@ || unit == "bytes"@ {
        Some(0)
    } else if unit == "KiB"@ || unit == "KB"@ || unit == "kB"@ {
        Some(10)
    } else if unit == "MiB"@ || unit == "MB"@ {
        Some(20)
    } else if unit == "GiB"@ || unit == "GB"@ {
        Some(30)
    } else {
        None
    }
}

fn unit(name: &[char]) -> (r: Option<u8>)
    ensures
        r == unit_spec(name@),
        r is Some ==> r->0 <= 30,
{
    if text::is(name, "B") || text::is(name, "bytes") {
        Some(0)
    } else if text::is(name, "KiB") || text::is(name, "KB") || text::is(name, "kB") {
        Some(10)
    } else if text::is(name, "MiB") || text::is(name, "MB") {
        Some(20)
    } else if text::is(name, "GiB") || text::is(name, "GB") {
        Some(30)
    } else {
        None
    }
}

/// A size like `2,352 KiB`, in bytes.
pub open spec fn parse_size_spec(value: Seq<char>) -> Option<u64> {
    size::size_spec(value, |u: Seq<char>| unit_spec(u))
}

fn read_size(value: &[char]) -> (r: Option<u64>)
    ensures
        r == parse_size_spec(value@),
{
    size::size(value, unit, Ghost(|u: Seq<char>| unit_spec(u)))
}

pub fn parse_size(value: &str) -> (r: Option<u64>)
    ensures
        r == parse_size_spec(value@),
{
    let t = chars(value);
    read_size(&t)
}

/// A package under its header in `emerge --search`, and the versions seen so
/// far.
struct Block {
    package: EmergePackage,
    installed: Option<String>,
    available: Option<String>,
}

/// The model of a package under its header.
pub struct BlockView {
    pub package: PackageView,
    pub installed: Option<Seq<char>>,
    pub available: Option<Seq<char>>,
}

impl View for Block {
    type V = BlockView;

    closed spec fn view(&self) -> BlockView {
        BlockView {
            package: self.package@,
            installed: self.installed.deep(),
            available: self.available.deep(),
        }
    }
}

impl BlockView {
    /// A block right after its header.
    pub open spec fn open(name: Seq<char>) -> BlockView {
        BlockView {
            package: PackageView::named(name, InstallState::Unknown),
            installed: None,
            available: None,
        }
    }

    /// The package of the block: it can be upgraded where the available
    /// version differs from the installed one.
    pub open spec fn close(self) -> PackageView {
        match self.installed {
            Some(version) => if self.available is Some && self.available != self.installed {
                PackageView {
                    version: self.installed,
                    latest_version: self.available,
                    state: InstallState::Upgradable,
                    ..self.package
                }
            } else {
                PackageView {
                    version: self.installed,
                    state: InstallState::Installed,
                    ..self.package
                }
            },
            None => PackageView {
                version: self.available,
                state: InstallState::Available,
                ..self.package
            },
        }
    }
}

fn close(block: Block) -> (r: EmergePackage)
    ensures
        r@ == block@.close(),
{
    if block.installed.is_some() {
        if block.available.is_some() && !text::equal_maybe(&block.available, &block.installed) {
            EmergePackage {
                version: block.installed,
                latest_version: block.available,
                state: InstallState::Upgradable,
                ..block.package
            }
        } else {
            EmergePackage {
                version: block.installed,
                state: InstallState::Installed,
                ..block.package
            }
        }
    } else {
        EmergePackage { version: block.available, state: InstallState::Available, ..block.package }
    }
}

/// A block after a `Key: Value` line. A version that is not there is shown in
/// brackets.
pub open spec fn block_line_spec(block: BlockView, line: Seq<char>) -> BlockView {
    match line.cut(":"@) {
        None => block,
        Some((key, value)) => {
            let key = key.trim();
            let value = value.trim();
            let package = block.package;
            if value.len() == 0 {
                block
            } else if key == "Latest version available"@ {
                BlockView { available: Some(value), ..block }
            } else if key == "Latest version installed"@ && !value.begins("["@) {
                BlockView { installed: Some(value), ..block }
            } else if key == "Size of files"@ {
                BlockView {
                    package: PackageView { download_size: parse_size_spec(value), ..package },
                    ..block
                }
            } else if key == "Homepage"@ {
                BlockView { package: PackageView { homepage: Some(value), ..package }, ..block }
            } else if key == "Description"@ {
                BlockView { package: PackageView { description: Some(value), ..package }, ..block }
            } else if key == "License"@ {
                BlockView { package: PackageView { license: Some(value), ..package }, ..block }
            } else {
                block
            }
        },
    }
}

fn block_line(block: Block, line: &[char]) -> (r: Block)
    ensures
        r@ == block_line_spec(block@, line@),
{
    let mut block = block;
    if let Some((key, value)) = text::cut(line, ":") {
        let key = text::trim(key);
        let value = text::trim(value);
        if value.len() == 0 {
            return block;
        }
        if text::is(key, "Latest version available") {
            block.available = Some(text::string(value));
        } else if text::is(key, "Latest version installed") && !text::begins(value, "[") {
            block.installed = Some(text::string(value));
        } else if text::is(key, "Size of files") {
            block.package.download_size = read_size(value);
        } else if text::is(key, "Homepage") {
            block.package.homepage = Some(text::string(value));
        } else if text::is(key, "Description") {
            block.package.description = Some(text::string(value));
        } else if text::is(key, "License") {
            block.package.license = Some(text::string(value));
        }
    }
    block
}

/// The reading of `emerge --search`.
struct SearchScan {
    packages: Vec<EmergePackage>,
    current: Option<Block>,
}

/// The model of the reading of `emerge --search`.
pub struct SearchScanView {
    pub packages: Seq<PackageView>,
    pub current: Option<BlockView>,
}

impl SearchScanView {
    pub open spec fn start() -> SearchScanView {
        SearchScanView { packages: seq![], current: None }
    }

    /// The packages, with the one that is being read.
    pub open spec fn finish(self) -> Seq<PackageView> {
        match self.current {
            Some(block) if block.package.name.len() > 0 => self.packages.push(block.close()),
            _ => self.packages,
        }
    }
}

/// The reading of `emerge --search` after one more line: `*  category/name`
/// opens a block.
pub open spec fn search_next_spec(state: SearchScanView, line: Seq<char>) -> SearchScanView {
    match line.without_prefix("*"@) {
        Some(header) => SearchScanView {
            packages: state.finish(),
            current: match header.words().nth(0) {
                Some(name) => Some(BlockView::open(name)),
                None => None,
            },
        },
        None => match state.current {
            Some(block) => SearchScanView { current: Some(block_line_spec(block, line)), ..state },
            None => state,
        },
    }
}

fn finish_block(packages: &mut Vec<EmergePackage>, current: Option<Block>)
    ensures
        final(packages)@.deep() == (SearchScanView {
            packages: old(packages)@.deep(),
            current: current.deep(),
        }).finish(),
{
    if let Some(block) = current {
        if chars(&block.package.name).len() > 0 {
            let ghost before = packages@;
            let package = close(block);
            packages.push(package);
            assert(packages@.deep() =~= before.deep().push(package@));
        }
    }
}

impl Scanner for SearchScan {
    type State = SearchScanView;

    closed spec fn state(&self) -> SearchScanView {
        SearchScanView { packages: self.packages@.deep(), current: self.current.deep() }
    }

    open spec fn next(state: SearchScanView, line: Seq<char>) -> SearchScanView {
        search_next_spec(state, line)
    }

    fn feed(&mut self, line: &[char]) {
        if let Some(header) = text::without_prefix(line, "*") {
            let current = self.current.take();
            finish_block(&mut self.packages, current);
            let words = text::words(header);
            if let Some(name) = text::nth(&words, 0) {
                self.current = Some(
                    Block {
                        package: EmergePackage {
                            name: text::string(name),
                            ..EmergePackage::default()
                        },
                        installed: None,
                        available: None,
                    },
                );
            }
        } else if let Some(block) = self.current.take() {
            self.current = Some(block_line(block, line));
        }
    }
}

/// The packages that `emerge --search` prints.
pub open spec fn parse_search_spec(stdout: Seq<char>) -> Seq<PackageView> {
    rows::scan(
        SearchScanView::start(),
        stdout.lines(),
        |state: SearchScanView, line: Seq<char>| search_next_spec(state, line),
    ).finish()
}

pub fn parse_search(stdout: &str) -> (r: Vec<EmergePackage>)
    ensures
        r@.deep() == parse_search_spec(stdout@),
{
    let start = SearchScan { packages: Vec::new(), current: None };
    assert(start.packages@.deep() =~= seq![]);
    let end = rows::scan_output(
        start,
        stdout,
        Ghost(|state: SearchScanView, line: Seq<char>| search_next_spec(state, line)),
    );
    let mut packages = end.packages;
    finish_block(&mut packages, end.current);
    packages
}

/// The installed version in an upgrade, in brackets.
pub open spec fn bracketed_version_spec(word: Option<Seq<char>>) -> Option<Seq<char>> {
    match word {
        Some(token) => match token.without_prefix("["@) {
            Some(rest) => match rest.without_suffix("]"@) {
                Some(inner) => if inner.begins_digit() {
                    Some(inner)
                } else {
                    None
                },
                None => None,
            },
            None => None,
        },
        None => None,
    }
}

fn bracketed_version(word: Option<&[char]>) -> (r: Option<&[char]>)
    ensures
        r.deep() == bracketed_version_spec(word.deep()),
{
    match word {
        Some(token) => match text::without_prefix(token, "[") {
            Some(rest) => match text::without_suffix(rest, "]") {
                Some(inner) => {
                    if text::begins_digit(inner) {
                        Some(inner)
                    } else {
                        None
                    }
                },
                None => None,
            },
            None => None,
        },
        None => None,
    }
}

/// A line of `emerge --pretend`: `[ebuild  U  ] category/name-version
/// [old-version] …`, where `U` marks a package that replaces another version.
pub open spec fn pretend_row_spec(line: Seq<char>) -> Option<PackageView> {
    let rest = match line.without_prefix("[ebuild"@) {
        Some(rest) => Some(rest),
        None => line.without_prefix("[binary"@),
    };
    match rest {
        None => None,
        Some(rest) => match rest.cut("]"@) {
            None => None,
            Some((flags, rest)) => {
                let words = rest.words();
                if !flags.has("U"@) || words.len() == 0 {
                    None
                } else {
                    match words[0].cut("/"@) {
                        None => None,
                        Some((category, pf)) => {
                            let (name, latest) = version::split_last(pf);
                            Some(
                                PackageView {
                                    latest_version: latest,
                                    ..PackageView::versioned(
                                        category + "/"@ + name,
                                        bracketed_version_spec(words.nth(1)),
                                        InstallState::Upgradable,
                                    )
                                },
                            )
                        },
                    }
                }
            },
        },
    }
}

fn pretend_row(line: &[char]) -> (r: Option<EmergePackage>)
    ensures
        r.deep() == pretend_row_spec(line@),
{
    let rest = match text::without_prefix(line, "[ebuild") {
        Some(rest) => rest,
        None => match text::without_prefix(line, "[binary") {
            Some(rest) => rest,
            None => {
                return None;
            },
        },
    };
    match text::cut(rest, "]") {
        None => None,
        Some((flags, rest)) => {
            let words = text::words(rest);
            if !text::has(flags, "U") || words.len() == 0 {
                return None;
            }
            match text::cut(words[0], "/") {
                None => None,
                Some((category, pf)) => {
                    let (name, latest) = version::at_last_dash(pf);
                    Some(
                        EmergePackage {
                            name: text::cat3(&text::string(category), "/", &text::string(name)),
                            version: text::maybe_string(bracketed_version(text::nth(&words, 1))),
                            latest_version: text::maybe_string(latest),
                            state: InstallState::Upgradable,
                            ..EmergePackage::default()
                        },
                    )
                },
            }
        },
    }
}

/// The upgrades that `emerge --pretend` announces.
pub open spec fn parse_pretend_spec(stdout: Seq<char>) -> Seq<PackageView> {
    rows::select(stdout.lines(), |line: Seq<char>| pretend_row_spec(line))
}

pub fn parse_pretend(stdout: &str) -> (r: Vec<EmergePackage>)
    ensures
        r@.deep() == parse_pretend_spec(stdout@),
        crate::package::all_in(r@.deep(), InstallState::Upgradable),
{
    proof {
        rows::selected_have(
            stdout@.lines(),
            |line: Seq<char>| pretend_row_spec(line),
            |p: PackageView| p.state == InstallState::Upgradable,
        );
    }
    rows::select_rows(stdout, pretend_row, Ghost(|line: Seq<char>| pretend_row_spec(line)))
}

} // verus!
