//! Helm, the package manager for Kubernetes.
//!
//! Installed packages are releases, while search and install speak of charts.
//! A bare install target is a chart, and Helm makes up the name of the
//! release. `release=chart` names it, and `namespace/release=chart` puts it
//! into a namespace. An upgrade finds the chart of a release in the
//! repositories, or takes the same spelling where that is ambiguous.

use vstd::prelude::*;

use crate::command::{self, Cmd, CmdView, Plan};
use crate::data::{self, Data, DataView};
use crate::detect::{self, Detection};
use crate::error::{self, Error, ErrorView};
use crate::package::{Details, InstallState, Package, PackageView};
use crate::profile::{basic_capabilities, Capabilities, ManagerKind, Profile};
use crate::request::{OpContext, PackageRequest, RequestView};
use crate::rows;
use crate::session::{
    self, Action, ActionView, Finished, Listing, Part, PartView, Reply, ReplyView, Step, StepView,
};
use crate::text::{self, chars, Deep, Text};
use crate::version;

verus! {

broadcast use command::group_carries;

/// Finds the manager and sets it up.
#[derive(Clone, Copy, Debug)]
pub struct Factory;

/// The factory of this backend.
pub fn factory() -> (r: Factory)
    ensures
        r == Factory,
{
    Factory
}

impl Factory {
    pub fn id(&self) -> (r: &'static str)
        ensures
            r@ == "helm"@,
    {
        "helm"
    }

    /// The programs to look for, in the order of preference.
    pub fn programs(&self) -> (r: Vec<&'static str>)
        ensures
            r@.deep() == seq!["helm"@],
    {
        let mut out: Vec<&'static str> = Vec::new();
        out.push("helm");
        assert(out@.deep() =~= seq!["helm"@]);
        out
    }

    /// Whether the backend can be used, given where each program was found.
    pub fn detect(&self, found: &[Option<String>]) -> (r: Detection)
        ensures
            r@ == detect::detected(found@, "`helm` not found on PATH"@),
    {
        detect::detect(found, "`helm` not found on PATH")
    }

    /// The manager, given where each program was found.
    pub fn create(&self, found: &[Option<String>]) -> (r: Result<Manager, Error>)
        ensures
            match r {
                Ok(manager) => detect::required(found@, "helm"@) == Ok::<Seq<char>, ErrorView>(
                    manager.program@,
                ),
                Err(error) => detect::required(found@, "helm"@) == Err::<Seq<char>, ErrorView>(
                    error@,
                ),
            },
    {
        match detect::require(found, "helm") {
            Ok(program) => Ok(Manager { program }),
            Err(error) => Err(error),
        }
    }
}

/// The manager, driving `program`.
#[derive(Debug)]
pub struct Manager {
    pub program: String,
}

impl Manager {
    /// What the manager says of itself.
    pub fn profile(&self) -> (r: Profile)
        ensures
            r.id@ == "helm"@,
            r.display_name@ == "Helm"@,
            r.kind == ManagerKind::Other,
            r.database_id@ == "helm"@,
            r.capabilities == (Capabilities {
                search: true,
                refresh: true,
                upgrade: true,
                list_outdated: true,
                pin_version: true,
                ..Capabilities::basic()
            }),
            r.elevates == false,
    {
        Profile {
            id: "helm",
            display_name: "Helm",
            kind: ManagerKind::Other,
            database_id: "helm",
            capabilities: Capabilities {
                search: true,
                refresh: true,
                upgrade: true,
                list_outdated: true,
                pin_version: true,
                ..basic_capabilities()
            },
            elevates: false,
        }
    }
}

/// A deployed release, or a chart of a repository.
#[derive(Debug)]
pub struct HelmPackage {
    pub name: String,
    pub version: Option<String>,
    pub latest_version: Option<String>,
    pub description: Option<String>,
    /// Empty for a chart.
    pub namespace: String,
    pub chart: Option<String>,
    pub app_version: Option<String>,
    pub state: InstallState,
}

impl View for HelmPackage {
    type V = PackageView;

    open spec fn view(&self) -> PackageView {
        PackageView {
            name: self.name@,
            version: self.version.deep(),
            latest_version: self.latest_version.deep(),
            description: self.description.deep(),
            origin: origin_spec(self.namespace@),
            chart: self.chart.deep(),
            app_version: self.app_version.deep(),
            state: self.state,
            ..PackageView::blank()
        }
    }
}

impl Package for HelmPackage {
    open spec fn manager_id() -> Seq<char> {
        "helm"@
    }

    fn manager(&self) -> (r: &'static str) {
        "helm"
    }

    fn details(&self) -> (r: Details<'_>) {
        Details {
            version: self.version.as_ref(),
            latest_version: self.latest_version.as_ref(),
            description: self.description.as_ref(),
            origin: if text::equal(&self.namespace, "") {
                None
            } else {
                Some(&self.namespace)
            },
            chart: self.chart.as_ref(),
            app_version: self.app_version.as_ref(),
            ..Details::of(&self.name, self.state)
        }
    }
}

/// A release comes from its namespace, a chart from nowhere.
pub open spec fn origin_spec(namespace: Seq<char>) -> Option<Seq<char>> {
    if namespace == ""@ {
        None
    } else {
        Some(namespace)
    }
}

/// The namespace of a release; empty for a chart.
pub open spec fn namespace_spec(package: PackageView) -> Seq<char> {
    match package.origin {
        Some(namespace) => namespace,
        None => ""@,
    }
}

/// The namespace of a locator, if it names one, and the release.
pub open spec fn release_locator_spec(locator: Seq<char>) -> (Option<Seq<char>>, Seq<char>) {
    match locator.cut("/"@) {
        Some((namespace, release)) => (Some(namespace), release),
        None => (None, locator),
    }
}

pub fn release_locator(locator: &str) -> (r: (Option<String>, String))
    ensures
        (r.0.deep(), r.1@) == release_locator_spec(locator@),
{
    let t = chars(locator);
    match text::cut(&t, "/") {
        Some((namespace, release)) => (Some(text::string(namespace)), text::string(release)),
        None => (None, text::copy(locator)),
    }
}

/// The release that an install names, if it names one, and the chart.
pub open spec fn install_target_spec(name: Seq<char>) -> (
    Option<(Option<Seq<char>>, Seq<char>)>,
    Seq<char>,
) {
    match name.cut("="@) {
        Some((locator, chart)) => (Some(release_locator_spec(locator)), chart),
        None => (None, name),
    }
}

pub fn install_target(name: &str) -> (r: (Option<(Option<String>, String)>, String))
    ensures
        install_target_spec(name@) == (
            match r.0 {
                Some((namespace, release)) => Some((namespace.deep(), release@)),
                None => None,
            },
            r.1@,
        ),
{
    let t = chars(name);
    match text::cut(&t, "=") {
        Some((locator, chart)) => (
            Some(release_locator(&text::string(locator))),
            text::string(chart),
        ),
        None => (None, text::copy(name)),
    }
}

/// What installs one chart.
pub open spec fn install_spec(
    program: Seq<char>,
    package: RequestView,
    ctx: OpContext,
) -> CmdView {
    let (release, chart) = install_target_spec(package.name);
    options_spec(
        match release {
            Some((namespace, release)) => {
                let cmd = CmdView::new(program).arg("install"@).arg(release).arg(chart);
                match namespace {
                    Some(namespace) => cmd.arg("--namespace"@).arg(namespace),
                    None => cmd,
                }
            },
            None => CmdView::new(program).arg("install"@).arg("--generate-name"@).arg(chart),
        },
        package.version,
        ctx,
    )
}

/// A command with the version that is asked for, on a dry run simulated.
pub open spec fn options_spec(
    cmd: CmdView,
    version: Option<Seq<char>>,
    ctx: OpContext,
) -> CmdView {
    (match version {
        Some(version) => cmd.arg("--version"@).arg(version),
        None => cmd,
    }).flag(ctx.dry_run, "--dry-run"@)
}

fn options(cmd: Cmd, version: &Option<String>, ctx: &OpContext) -> (r: Cmd)
    ensures
        r@ == options_spec(cmd@, version.deep(), *ctx),
{
    let cmd = match version {
        Some(version) => cmd.arg("--version").arg(version),
        None => cmd,
    };
    cmd.flag(ctx.dry_run, "--dry-run")
}

impl Manager {
    fn install_one(&self, package: &PackageRequest, ctx: &OpContext) -> (r: Cmd)
        ensures
            r@ == install_spec(self.program@, package@, *ctx),
    {
        let (release, chart) = install_target(&package.name);
        let cmd = match release {
            Some((namespace, release)) => {
                let cmd = Cmd::new(&self.program).arg("install").arg(&release).arg(&chart);
                match namespace {
                    Some(namespace) => cmd.arg("--namespace").arg(&namespace),
                    None => cmd,
                }
            },
            None => Cmd::new(&self.program).arg("install").arg("--generate-name").arg(&chart),
        };
        options(cmd, &package.version, ctx)
    }

    /// One release at a time: its name, namespace and version are its own.
    pub fn install(&self, packages: &[PackageRequest], ctx: &OpContext) -> (r: Plan)
        ensures
            command::plan(r) == Ok::<Seq<CmdView>, ErrorView>(
                packages@.deep().map_values(
                    |q: RequestView| install_spec(self.program@, q, *ctx),
                ),
            ),
            command::all_elevated(command::plan(r), false),
            ctx.dry_run ==> command::all_carry(command::plan(r), "--dry-run"@),
    {
        let install = |q: &PackageRequest| -> (c: Cmd)
            ensures
                c@ == install_spec(self.program@, q@, *ctx),
            { self.install_one(q, ctx) };
        Ok(
            command::one_each(
                packages,
                install,
                Ghost(|q: RequestView| install_spec(self.program@, q, *ctx)),
            ),
        )
    }

    pub fn refresh(&self, ctx: &OpContext) -> (r: Plan)
        ensures
            command::plan(r) == if ctx.dry_run {
                Err(ErrorView::Other("helm: refresh has no dry-run mode"@))
            } else {
                command::just(CmdView::new(self.program@).arg("repo"@).arg("update"@))
            },
            command::all_elevated(command::plan(r), false),
            ctx.dry_run ==> r is Err,
    {
        if ctx.dry_run {
            return Err(error::other("helm: refresh has no dry-run mode"));
        }
        Ok(command::one(Cmd::new(&self.program).arg("repo").arg("update")))
    }

    /// The page of releases after `offset` of them.
    pub open spec fn page_spec(self, offset: nat) -> CmdView {
        CmdView::query(self.program@).arg("list"@).arg("--all-namespaces"@).arg(
            "--output=json"@,
        ).arg("--max=256"@).arg("--offset="@ + text::decimal_of(offset))
    }

    fn page(&self, offset: usize) -> (r: Cmd)
        ensures
            r@ == self.page_spec(offset as nat),
    {
        Cmd::query(&self.program).arg("list").arg("--all-namespaces").arg("--output=json").arg(
            "--max=256",
        ).arg(&text::cat("--offset=", &text::decimal(offset)))
    }

    /// The releases, page by page after those that are known; a page that is
    /// not full is the last one.
    pub open spec fn installed_spec(
        self,
        known: Seq<PackageView>,
        replies: Seq<ReplyView>,
    ) -> PartView<Seq<PackageView>>
        decreases replies.len(),
    {
        if replies.len() == 0 {
            PartView::Act(ActionView::Query(self.page_spec(known.len())))
        } else if !replies[0].success {
            PartView::Fail(replies[0].failure())
        } else {
            match parse_release_json_spec(replies[0].stdout) {
                Err(error) => PartView::Fail(error),
                Ok(page) => if page.len() < 256 {
                    PartView::Got(known + page, replies.skip(1))
                } else {
                    self.installed_spec(known + page, replies.skip(1))
                },
            }
        }
    }

    proof fn lemma_installed_looks(self, known: Seq<PackageView>, replies: Seq<ReplyView>)
        ensures
            self.installed_spec(known, replies).whole().only_looks(),
            self.installed_spec(known, replies).whole().in_c_locale(),
        decreases replies.len(),
    {
        if replies.len() > 0 {
            if let Ok(page) = parse_release_json_spec(replies[0].stdout) {
                self.lemma_installed_looks(known + page, replies.skip(1));
            }
        }
    }

    fn installed<'a>(&self, replies: &'a [Reply]) -> (r: Part<'a, Listing<HelmPackage>>)
        ensures
            r@ == self.installed_spec(seq![], replies@.deep()),
            r@.whole().only_looks(),
    {
        proof {
            self.lemma_installed_looks(seq![], replies@.deep());
        }
        let ghost all = replies@.deep();
        let mut packages: Vec<HelmPackage> = rows::empty();
        let mut rest = replies;
        while rest.len() > 0
            invariant
                all == replies@.deep(),
                self.installed_spec(seq![], all) == self.installed_spec(
                    packages@.deep(),
                    rest@.deep(),
                ),
            decreases rest@.len(),
        {
            let reply = session::next(rest);
            if !reply.success {
                return Part::Fail(reply.failure());
            }
            let page = match parse_release_json(&reply.stdout) {
                Err(error) => {
                    return Part::Fail(error);
                },
                Ok(page) => page,
            };
            let last = page.len() < 256;
            rows::append(&mut packages, page);
            rest = session::later(rest);
            if last {
                return Part::Got(Listing { packages }, rest);
            }
        }
        Part::Act(Action::Query(self.page(packages.len())))
    }

    /// The charts that a query finds in the repositories.
    pub open spec fn search_repo_spec(
        self,
        query: Seq<char>,
        replies: Seq<ReplyView>,
    ) -> PartView<Seq<PackageView>> {
        if replies.len() == 0 {
            PartView::Act(
                ActionView::Query(
                    CmdView::query(self.program@).arg("search"@).arg("repo"@).arg(query).arg(
                        "--output=json"@,
                    ),
                ),
            )
        } else if !replies[0].success {
            PartView::Fail(replies[0].failure())
        } else {
            match parse_search_json_spec(replies[0].stdout) {
                Err(error) => PartView::Fail(error),
                Ok(charts) => PartView::Got(charts, replies.skip(1)),
            }
        }
    }

    fn search_repo<'a>(&self, query: &str, replies: &'a [Reply]) -> (r: Part<
        'a,
        Listing<HelmPackage>,
    >)
        ensures
            r@ == self.search_repo_spec(query@, replies@.deep()),
    {
        if replies.len() == 0 {
            return Part::Act(
                Action::Query(
                    Cmd::query(&self.program).arg("search").arg("repo").arg(query).arg(
                        "--output=json",
                    ),
                ),
            );
        }
        let reply = session::next(replies);
        if !reply.success {
            return Part::Fail(reply.failure());
        }
        match parse_search_json(&reply.stdout) {
            Err(error) => Part::Fail(error),
            Ok(packages) => Part::Got(Listing { packages }, session::later(replies)),
        }
    }

    /// The release that a locator names.
    pub open spec fn release_spec(
        self,
        locator: Seq<char>,
        replies: Seq<ReplyView>,
    ) -> PartView<PackageView> {
        match self.installed_spec(seq![], replies) {
            PartView::Act(action) => PartView::Act(action),
            PartView::Fail(error) => PartView::Fail(error),
            PartView::Got(packages, rest) => match locate_spec(packages, locator) {
                Ok(release) => PartView::Got(release, rest),
                Err(error) => PartView::Fail(error),
            },
        }
    }

    fn release<'a>(&self, locator: &str, replies: &'a [Reply]) -> (r: Part<'a, HelmPackage>)
        ensures
            r@ == self.release_spec(locator@, replies@.deep()),
            r@.whole().only_looks(),
    {
        match self.installed(replies) {
            Part::Act(action) => Part::Act(action),
            Part::Fail(error) => Part::Fail(error),
            Part::Got(listing, rest) => match locate(listing.packages, locator) {
                Ok(release) => Part::Got(release, rest),
                Err(error) => Part::Fail(error),
            },
        }
    }

    /// The chart of a repository from which a release can be upgraded.
    pub open spec fn chart_for_spec(
        self,
        release: PackageView,
        replies: Seq<ReplyView>,
    ) -> PartView<Seq<char>> {
        match release.chart {
            None => PartView::Fail(
                ErrorView::Parse {
                    what: "helm release metadata"@,
                    detail: "release `"@ + release.name + "` has no chart name"@,
                },
            ),
            Some(chart) => match self.search_repo_spec(chart, replies) {
                PartView::Act(action) => PartView::Act(action),
                PartView::Fail(error) => PartView::Fail(error),
                PartView::Got(charts, rest) => match candidate_spec(charts, chart) {
                    Some(package) => PartView::Got(package.name, rest),
                    None => PartView::Fail(
                        ErrorView::Other(
                            "helm: cannot map installed chart `"@ + chart
                                + "` to a configured repository; use release=repo/chart"@,
                        ),
                    ),
                },
            },
        }
    }

    fn chart_for<'a>(&self, release: &HelmPackage, replies: &'a [Reply]) -> (r: Part<'a, String>)
        ensures
            r@ == self.chart_for_spec(release@, replies@.deep()),
    {
        let chart = match &release.chart {
            None => {
                return Part::Fail(
                    Error::Parse {
                        what: text::copy("helm release metadata"),
                        detail: text::cat3("release `", &release.name, "` has no chart name"),
                    },
                );
            },
            Some(chart) => chart,
        };
        match self.search_repo(chart, replies) {
            Part::Act(action) => Part::Act(action),
            Part::Fail(error) => Part::Fail(error),
            Part::Got(listing, rest) => match candidate(listing.packages, chart) {
                Some(package) => Part::Got(package.name, rest),
                None => Part::Fail(
                    Error::Other(
                        text::cat3(
                            "helm: cannot map installed chart `",
                            chart,
                            "` to a configured repository; use release=repo/chart",
                        ),
                    ),
                ),
            },
        }
    }

    /// What upgrades a release from a chart.
    pub open spec fn upgrade_command_spec(
        self,
        release: PackageView,
        chart: Seq<char>,
        version: Option<Seq<char>>,
        ctx: OpContext,
    ) -> CmdView {
        options_spec(
            CmdView::new(self.program@).arg("upgrade"@).arg(release.name).arg(chart).arg(
                "--namespace"@,
            ).arg(namespace_spec(release)),
            version,
            ctx,
        )
    }

    /// Upgrades one release: from the chart that is given, or else from the
    /// one that the repositories have for it.
    pub open spec fn upgrade_one_spec(
        self,
        package: RequestView,
        ctx: OpContext,
        replies: Seq<ReplyView>,
    ) -> PartView<()> {
        let (locator, explicit) = match package.name.cut("="@) {
            Some((locator, chart)) => (locator, Some(chart)),
            None => (package.name, None),
        };
        match self.release_spec(locator, replies) {
            PartView::Act(action) => PartView::Act(action),
            PartView::Fail(error) => PartView::Fail(error),
            PartView::Got(release, rest) => match explicit {
                Some(chart) => session::running(
                    self.upgrade_command_spec(release, chart, package.version, ctx),
                    rest,
                ),
                None => match self.chart_for_spec(release, rest) {
                    PartView::Act(action) => PartView::Act(action),
                    PartView::Fail(error) => PartView::Fail(error),
                    PartView::Got(chart, rest) => session::running(
                        self.upgrade_command_spec(release, chart, package.version, ctx),
                        rest,
                    ),
                },
            },
        }
    }

    fn upgrade_one<'a>(
        &self,
        package: &PackageRequest,
        ctx: &OpContext,
        replies: &'a [Reply],
    ) -> (r: Part<'a, Finished>)
        ensures
            r@ == self.upgrade_one_spec(package@, *ctx, replies@.deep()),
            ctx.dry_run ==> r@.whole().runs_with("--dry-run"@),
            r@.whole().unprivileged(),
    {
        let t = chars(&package.name);
        let (locator, explicit) = match text::cut(&t, "=") {
            Some((locator, chart)) => (text::string(locator), Some(text::string(chart))),
            None => (text::copy(&package.name), None),
        };
        let (release, rest) = match self.release(&locator, replies) {
            Part::Act(action) => {
                return Part::Act(action);
            },
            Part::Fail(error) => {
                return Part::Fail(error);
            },
            Part::Got(release, rest) => (release, rest),
        };
        let (chart, rest) = match explicit {
            Some(chart) => (chart, rest),
            None => match self.chart_for(&release, rest) {
                Part::Act(action) => {
                    return Part::Act(action);
                },
                Part::Fail(error) => {
                    return Part::Fail(error);
                },
                Part::Got(chart, rest) => (chart, rest),
            },
        };
        session::run(
            options(
                Cmd::new(&self.program).arg("upgrade").arg(&release.name).arg(&chart).arg(
                    "--namespace",
                ).arg(&release.namespace),
                &package.version,
                ctx,
            ),
            rest,
        )
    }

    /// Upgrades releases one after the other.
    pub open spec fn upgrade_each_spec(
        self,
        packages: Seq<RequestView>,
        ctx: OpContext,
        replies: Seq<ReplyView>,
    ) -> PartView<()>
        decreases packages.len(),
    {
        if packages.len() == 0 {
            PartView::Got((), replies)
        } else {
            match self.upgrade_one_spec(packages[0], ctx, replies) {
                PartView::Act(action) => PartView::Act(action),
                PartView::Fail(error) => PartView::Fail(error),
                PartView::Got(_, rest) => self.upgrade_each_spec(packages.skip(1), ctx, rest),
            }
        }
    }

    fn upgrade_each<'a>(
        &self,
        packages: &[PackageRequest],
        ctx: &OpContext,
        replies: &'a [Reply],
    ) -> (r: Part<'a, Finished>)
        ensures
            r@ == self.upgrade_each_spec(packages@.deep(), *ctx, replies@.deep()),
            ctx.dry_run ==> r@.whole().runs_with("--dry-run"@),
            r@.whole().unprivileged(),
    {
        let ghost all = packages@.deep();
        let ghost start = replies@.deep();
        let mut rest = replies;
        let mut i: usize = 0;
        assert(all.skip(0) =~= all);
        while i < packages.len()
            invariant
                i <= packages.len(),
                all == packages@.deep(),
                start == replies@.deep(),
                self.upgrade_each_spec(all, *ctx, start) == self.upgrade_each_spec(
                    all.skip(i as int),
                    *ctx,
                    rest@.deep(),
                ),
            decreases packages.len() - i,
        {
            assert(all.skip(i as int)[0] == packages@[i as int]@);
            assert(all.skip(i as int).skip(1) =~= all.skip(i + 1));
            rest =
            match self.upgrade_one(&packages[i], ctx, rest) {
                Part::Act(action) => {
                    return Part::Act(action);
                },
                Part::Fail(error) => {
                    return Part::Fail(error);
                },
                Part::Got(_, rest) => rest,
            };
            i += 1;
        }
        Part::Got(Finished, rest)
    }

    /// Without names every release is upgraded.
    pub open spec fn upgrade_spec(
        self,
        packages: Seq<RequestView>,
        ctx: OpContext,
        replies: Seq<ReplyView>,
    ) -> StepView<()> {
        if packages.len() == 0 {
            match self.installed_spec(seq![], replies) {
                PartView::Act(action) => StepView::Act(action),
                PartView::Fail(error) => StepView::Fail(error),
                PartView::Got(releases, rest) => self.upgrade_each_spec(
                    releases.map_values(|release: PackageView| locator_spec(release)),
                    ctx,
                    rest,
                ).whole(),
            }
        } else {
            self.upgrade_each_spec(packages, ctx, replies).whole()
        }
    }

    pub fn upgrade(
        &self,
        packages: &[PackageRequest],
        ctx: &OpContext,
        replies: &[Reply],
    ) -> (r: Step<Finished>)
        ensures
            r@ == self.upgrade_spec(packages@.deep(), *ctx, replies@.deep()),
            ctx.dry_run ==> r@.runs_with("--dry-run"@),
            r@.unprivileged(),
    {
        if packages.len() > 0 {
            return self.upgrade_each(packages, ctx, replies).whole();
        }
        match self.installed(replies) {
            Part::Act(action) => Step::Act(action),
            Part::Fail(error) => Step::Fail(error),
            Part::Got(listing, rest) => self.upgrade_each(
                &locators(&listing.packages),
                ctx,
                rest,
            ).whole(),
        }
    }

    /// Removes releases one after the other.
    pub open spec fn remove_spec(
        self,
        packages: Seq<RequestView>,
        ctx: OpContext,
        replies: Seq<ReplyView>,
    ) -> StepView<()>
        decreases packages.len(),
    {
        if packages.len() == 0 {
            StepView::Done(())
        } else {
            match self.release_spec(packages[0].name, replies) {
                PartView::Act(action) => StepView::Act(action),
                PartView::Fail(error) => StepView::Fail(error),
                PartView::Got(release, rest) => match session::running(
                    self.uninstall_spec(release, ctx),
                    rest,
                ) {
                    PartView::Act(action) => StepView::Act(action),
                    PartView::Fail(error) => StepView::Fail(error),
                    PartView::Got(_, rest) => self.remove_spec(packages.skip(1), ctx, rest),
                },
            }
        }
    }

    /// What removes a release.
    pub open spec fn uninstall_spec(self, release: PackageView, ctx: OpContext) -> CmdView {
        CmdView::new(self.program@).arg("uninstall"@).arg(release.name).arg("--namespace"@).arg(
            namespace_spec(release),
        ).flag(ctx.dry_run, "--dry-run"@)
    }

    pub fn remove(
        &self,
        packages: &[PackageRequest],
        ctx: &OpContext,
        replies: &[Reply],
    ) -> (r: Step<Finished>)
        ensures
            r@ == self.remove_spec(packages@.deep(), *ctx, replies@.deep()),
            ctx.dry_run ==> r@.runs_with("--dry-run"@),
            r@.unprivileged(),
    {
        let ghost all = packages@.deep();
        let ghost start = replies@.deep();
        let mut rest = replies;
        let mut i: usize = 0;
        assert(all.skip(0) =~= all);
        while i < packages.len()
            invariant
                i <= packages.len(),
                all == packages@.deep(),
                start == replies@.deep(),
                self.remove_spec(all, *ctx, start) == self.remove_spec(
                    all.skip(i as int),
                    *ctx,
                    rest@.deep(),
                ),
            decreases packages.len() - i,
        {
            assert(all.skip(i as int)[0] == packages@[i as int]@);
            assert(all.skip(i as int).skip(1) =~= all.skip(i + 1));
            let (release, after) = match self.release(&packages[i].name, rest) {
                Part::Act(action) => {
                    return Step::Act(action);
                },
                Part::Fail(error) => {
                    return Step::Fail(error);
                },
                Part::Got(release, after) => (release, after),
            };
            let uninstall = Cmd::new(&self.program).arg("uninstall").arg(&release.name).arg(
                "--namespace",
            ).arg(&release.namespace).flag(ctx.dry_run, "--dry-run");
            rest =
            match session::run(uninstall, after) {
                Part::Act(action) => {
                    return Step::Act(action);
                },
                Part::Fail(error) => {
                    return Step::Fail(error);
                },
                Part::Got(_, rest) => rest,
            };
            i += 1;
        }
        Step::Done(Finished)
    }

    pub fn list_installed(&self, replies: &[Reply]) -> (r: Step<Listing<HelmPackage>>)
        ensures
            r@ == self.installed_spec(seq![], replies@.deep()).whole(),
            r@.only_looks(),
            r@.in_c_locale(),
    {
        proof {
            self.lemma_installed_looks(seq![], replies@.deep());
        }
        self.installed(replies).whole()
    }

    pub fn search(&self, query: &str, replies: &[Reply]) -> (r: Step<Listing<HelmPackage>>)
        ensures
            r@ == self.search_repo_spec(query@, replies@.deep()).whole(),
            r@.only_looks(),
            r@.in_c_locale(),
    {
        self.search_repo(query, replies).whole()
    }

    /// A release, or else the chart of that name.
    pub open spec fn info_spec(self, name: Seq<char>, replies: Seq<ReplyView>) -> StepView<
        PackageView,
    > {
        match self.installed_spec(seq![], replies) {
            PartView::Act(action) => StepView::Act(action),
            PartView::Fail(error) => StepView::Fail(error),
            PartView::Got(packages, rest) => match locate_spec(packages, name) {
                Ok(release) => StepView::Done(release),
                Err(ErrorView::NotFound(_)) => match self.search_repo_spec(name, rest) {
                    PartView::Act(action) => StepView::Act(action),
                    PartView::Fail(error) => StepView::Fail(error),
                    PartView::Got(charts, _) => session::found(
                        session::called(charts, name),
                        name,
                    ),
                },
                Err(error) => StepView::Fail(error),
            },
        }
    }

    pub fn info(&self, name: &str, replies: &[Reply]) -> (r: Step<HelmPackage>)
        ensures
            r@ == self.info_spec(name@, replies@.deep()),
            r@.only_looks(),
            r@.in_c_locale(),
    {
        proof {
            self.lemma_installed_looks(seq![], replies@.deep());
        }
        let (listing, rest) = match self.installed(replies) {
            Part::Act(action) => {
                return Step::Act(action);
            },
            Part::Fail(error) => {
                return Step::Fail(error);
            },
            Part::Got(listing, rest) => (listing, rest),
        };
        match locate(listing.packages, name) {
            Ok(release) => Step::Done(release),
            Err(Error::NotFound(_)) => match self.search_repo(name, rest) {
                Part::Act(action) => Step::Act(action),
                Part::Fail(error) => Step::Fail(error),
                Part::Got(charts, _) => session::find(
                    session::take_called(charts.packages, name),
                    name,
                ),
            },
            Err(error) => Step::Fail(error),
        }
    }

    /// The outdated ones among releases, after those that are known: a
    /// release of which the repositories have another version.
    pub open spec fn outdated_spec(
        self,
        known: Seq<PackageView>,
        releases: Seq<PackageView>,
        replies: Seq<ReplyView>,
    ) -> StepView<Seq<PackageView>>
        decreases releases.len(),
    {
        if releases.len() == 0 {
            StepView::Done(known)
        } else {
            match releases[0].chart {
                None => self.outdated_spec(known, releases.skip(1), replies),
                Some(chart) => match self.search_repo_spec(chart, replies) {
                    PartView::Act(action) => StepView::Act(action),
                    PartView::Fail(error) => StepView::Fail(error),
                    PartView::Got(charts, rest) => self.outdated_spec(
                        match newer_spec(releases[0], candidate_spec(charts, chart)) {
                            Some(package) => known.push(package),
                            None => known,
                        },
                        releases.skip(1),
                        rest,
                    ),
                },
            }
        }
    }

    proof fn lemma_outdated_looks(
        self,
        known: Seq<PackageView>,
        releases: Seq<PackageView>,
        replies: Seq<ReplyView>,
    )
        ensures
            self.outdated_spec(known, releases, replies).only_looks(),
            self.outdated_spec(known, releases, replies).in_c_locale(),
        decreases releases.len(),
    {
        if releases.len() > 0 {
            match releases[0].chart {
                None => self.lemma_outdated_looks(known, releases.skip(1), replies),
                Some(chart) => {
                    if let PartView::Got(charts, rest) = self.search_repo_spec(chart, replies) {
                        let more = match newer_spec(releases[0], candidate_spec(charts, chart)) {
                            Some(package) => known.push(package),
                            None => known,
                        };
                        self.lemma_outdated_looks(more, releases.skip(1), rest);
                    }
                },
            }
        }
    }

    fn outdated(&self, releases: Vec<HelmPackage>, replies: &[Reply]) -> (r: Step<
        Listing<HelmPackage>,
    >)
        ensures
            r@ == self.outdated_spec(seq![], releases@.deep(), replies@.deep()),
    {
        let ghost all = releases@.deep();
        let ghost start = replies@.deep();
        let mut packages: Vec<HelmPackage> = rows::empty();
        let mut rest = replies;
        let mut i: usize = 0;
        assert(all.skip(0) =~= all);
        while i < releases.len()
            invariant
                i <= releases.len(),
                all == releases@.deep(),
                start == replies@.deep(),
                self.outdated_spec(seq![], all, start) == self.outdated_spec(
                    packages@.deep(),
                    all.skip(i as int),
                    rest@.deep(),
                ),
            decreases releases.len() - i,
        {
            assert(all.skip(i as int)[0] == releases@[i as int]@);
            assert(all.skip(i as int).skip(1) =~= all.skip(i + 1));
            let release = &releases[i];
            if let Some(chart) = &release.chart {
                let charts;
                match self.search_repo(chart, rest) {
                    Part::Act(action) => {
                        return Step::Act(action);
                    },
                    Part::Fail(error) => {
                        return Step::Fail(error);
                    },
                    Part::Got(listing, after) => {
                        charts = listing.packages;
                        rest = after;
                    },
                };
                if let Some(package) = newer(release, candidate(charts, chart)) {
                    rows::push(&mut packages, package);
                }
            }
            i += 1;
        }
        Step::Done(Listing { packages })
    }

    pub fn list_outdated(&self, replies: &[Reply]) -> (r: Step<Listing<HelmPackage>>)
        ensures
            r@ == match self.installed_spec(seq![], replies@.deep()) {
                PartView::Act(action) => StepView::Act(action),
                PartView::Fail(error) => StepView::Fail(error),
                PartView::Got(releases, rest) => self.outdated_spec(seq![], releases, rest),
            },
            r@.only_looks(),
            r@.in_c_locale(),
    {
        proof {
            self.lemma_installed_looks(seq![], replies@.deep());
            if let PartView::Got(releases, rest) = self.installed_spec(seq![], replies@.deep()) {
                self.lemma_outdated_looks(seq![], releases, rest);
            }
        }
        match self.installed(replies) {
            Part::Act(action) => Step::Act(action),
            Part::Fail(error) => Step::Fail(error),
            Part::Got(listing, rest) => self.outdated(listing.packages, rest),
        }
    }
}

/// Whether a release is the one that a locator names.
pub open spec fn is_located(package: PackageView, locator: Seq<char>) -> bool {
    let (namespace, release) = release_locator_spec(locator);
    package.name == release && match namespace {
        Some(namespace) => namespace_spec(package) == namespace,
        None => true,
    }
}

/// The one release that a locator names.
pub open spec fn locate_spec(packages: Seq<PackageView>, locator: Seq<char>) -> Result<
    PackageView,
    ErrorView,
> {
    let matches = rows::keep(packages, |package: PackageView| is_located(package, locator));
    if matches.len() == 0 {
        Err(ErrorView::NotFound(locator))
    } else if matches.len() == 1 {
        Ok(matches[0])
    } else {
        Err(
            ErrorView::Other(
                "helm: release `"@ + locator
                    + "` exists in multiple namespaces; use namespace/release"@,
            ),
        )
    }
}

pub fn locate(packages: Vec<HelmPackage>, locator: &str) -> (r: Result<HelmPackage, Error>)
    ensures
        error::outcome_of(r) == locate_spec(packages@.deep(), locator@),
{
    let (namespace, release) = release_locator(locator);
    let located = |package: &HelmPackage| -> (b: bool)
        ensures
            b == is_located(package@, locator@),
        {
            text::equal(&package.name, &release) && match &namespace {
                Some(namespace) => text::equal(&package.namespace, namespace),
                None => true,
            }
        };
    let mut matches = rows::retain(
        packages,
        located,
        Ghost(|package: PackageView| is_located(package, locator@)),
    );
    if matches.len() == 0 {
        Err(error::not_found(locator))
    } else if matches.len() == 1 {
        assert(matches@.deep()[0] == matches@[0]@);
        Ok(matches.swap_remove(0))
    } else {
        Err(
            Error::Other(
                text::cat3(
                    "helm: release `",
                    locator,
                    "` exists in multiple namespaces; use namespace/release",
                ),
            ),
        )
    }
}

/// The chart of a repository that has a release's chart.
pub open spec fn candidate_spec(charts: Seq<PackageView>, chart: Seq<char>) -> Option<
    PackageView,
> {
    rows::first(charts, |package: PackageView| package.name.after_last('/') == chart)
}

pub fn candidate(charts: Vec<HelmPackage>, chart: &str) -> (r: Option<HelmPackage>)
    ensures
        r.deep() == candidate_spec(charts@.deep(), chart@),
{
    let same = |package: &HelmPackage| -> (b: bool)
        ensures
            b == (package@.name.after_last('/') == chart@),
        {
            let name = chars(&package.name);
            text::is(text::after_last(&name, '/'), chart)
        };
    rows::take_first(
        charts,
        same,
        Ghost(|package: PackageView| package.name.after_last('/') == chart@),
    )
}

/// A release with the version that the repositories have, if it is another.
pub open spec fn newer_spec(release: PackageView, candidate: Option<PackageView>) -> Option<
    PackageView,
> {
    match candidate {
        None => None,
        Some(candidate) => if release.version == candidate.version {
            None
        } else {
            Some(
                PackageView {
                    latest_version: candidate.version,
                    state: InstallState::Upgradable,
                    ..release
                },
            )
        },
    }
}

pub fn newer(release: &HelmPackage, candidate: Option<HelmPackage>) -> (r: Option<HelmPackage>)
    ensures
        r.deep() == newer_spec(release@, candidate.deep()),
        r.deep() matches Some(package) ==> package.version != package.latest_version
            && package.state == InstallState::Upgradable,
{
    match candidate {
        None => None,
        Some(candidate) => {
            if text::equal_maybe(&release.version, &candidate.version) {
                return None;
            }
            Some(
                HelmPackage {
                    name: text::copy(&release.name),
                    version: text::copy_maybe(&release.version),
                    latest_version: candidate.version,
                    description: text::copy_maybe(&release.description),
                    namespace: text::copy(&release.namespace),
                    chart: text::copy_maybe(&release.chart),
                    app_version: text::copy_maybe(&release.app_version),
                    state: InstallState::Upgradable,
                },
            )
        },
    }
}

/// The request that names a release with its namespace.
pub open spec fn locator_spec(release: PackageView) -> RequestView {
    RequestView { name: namespace_spec(release) + "/"@ + release.name, version: None }
}

fn locators(releases: &Vec<HelmPackage>) -> (r: Vec<PackageRequest>)
    ensures
        r@.deep() == releases@.deep().map_values(|release: PackageView| locator_spec(release)),
{
    let ghost all = releases@.deep().map_values(|release: PackageView| locator_spec(release));
    let mut out: Vec<PackageRequest> = rows::empty();
    let mut i: usize = 0;
    assert(all.take(0) =~= seq![]);
    while i < releases.len()
        invariant
            i <= releases.len(),
            all == releases@.deep().map_values(|release: PackageView| locator_spec(release)),
            out@.deep() == all.take(i as int),
        decreases releases.len() - i,
    {
        let release = &releases[i];
        rows::push(
            &mut out,
            PackageRequest {
                name: text::cat3(&release.namespace, "/", &release.name),
                version: None,
            },
        );
        assert(all[i as int] == locator_spec(releases@[i as int]@));
        assert(all.take(i + 1) =~= all.take(i as int).push(all[i as int]));
        i += 1;
    }
    assert(all.take(all.len() as int) =~= all);
    out
}

/// The first of two keys that an entry has, as a text.
pub open spec fn either_spec(row: DataView, key: Seq<char>, other: Seq<char>) -> Option<
    Seq<char>,
> {
    match row.find(key) {
        Some(value) => value.text(),
        None => row.get(other).text(),
    }
}

fn either(row: &Data, key: &str, other: &str) -> (r: Option<String>)
    ensures
        r.deep() == either_spec(row@, key@, other@),
{
    match row.find(key) {
        Some(value) => value.string(),
        None => row.string_of(other),
    }
}

/// A release in the list.
pub open spec fn release_row_spec(row: DataView) -> Option<PackageView> {
    match row.get("name"@).text() {
        None => None,
        Some(name) => {
            let (chart, version) = split_chart_version_spec(
                match row.get("chart"@).text() {
                    Some(chart) => chart,
                    None => ""@,
                },
            );
            let app_version = either_spec(row, "app_version"@, "appVersion"@);
            Some(
                PackageView {
                    description: match app_version {
                        Some(version) => Some("app "@ + version),
                        None => None,
                    },
                    origin: origin_spec(
                        match row.get("namespace"@).text() {
                            Some(namespace) => namespace,
                            None => "default"@,
                        },
                    ),
                    chart,
                    app_version,
                    ..PackageView::versioned(name, version, InstallState::Installed)
                },
            )
        },
    }
}

fn release_row(row: &Data) -> (r: Option<HelmPackage>)
    ensures
        r.deep() == release_row_spec(row@),
{
    let name = match row.string_of("name") {
        None => {
            return None;
        },
        Some(name) => name,
    };
    let (chart, version) = match row.text_of("chart") {
        Some(chart) => split_chart_version(chart),
        None => split_chart_version(""),
    };
    let app_version = either(row, "app_version", "appVersion");
    let description = match &app_version {
        Some(version) => Some(text::cat("app ", version)),
        None => None,
    };
    let namespace = match row.string_of("namespace") {
        Some(namespace) => namespace,
        None => text::copy("default"),
    };
    Some(
        HelmPackage {
            name,
            version,
            latest_version: None,
            description,
            namespace,
            chart,
            app_version,
            state: InstallState::Installed,
        },
    )
}

/// A chart in the search results.
pub open spec fn search_row_spec(row: DataView) -> Option<PackageView> {
    match row.get("name"@).text() {
        None => None,
        Some(name) => Some(
            PackageView {
                description: row.get("description"@).text(),
                chart: match name.cut_last('/') {
                    Some((_, chart)) => Some(chart),
                    None => None,
                },
                app_version: either_spec(row, "app_version"@, "appVersion"@),
                ..PackageView::versioned(
                    name,
                    either_spec(row, "version"@, "chart_version"@),
                    InstallState::Available,
                )
            },
        ),
    }
}

fn search_row(row: &Data) -> (r: Option<HelmPackage>)
    ensures
        r.deep() == search_row_spec(row@),
{
    let name = match row.string_of("name") {
        None => {
            return None;
        },
        Some(name) => name,
    };
    let chart = match text::cut_last(&chars(&name), '/') {
        Some((_, chart)) => Some(text::string(chart)),
        None => None,
    };
    Some(
        HelmPackage {
            name,
            version: either(row, "version", "chart_version"),
            latest_version: None,
            description: row.string_of("description"),
            namespace: text::copy(""),
            chart,
            app_version: either(row, "app_version", "appVersion"),
            state: InstallState::Available,
        },
    )
}

/// The rows of a table, given what it reads as.
pub open spec fn table_spec(
    parsed: Result<DataView, Seq<char>>,
    what: Seq<char>,
    row: spec_fn(DataView) -> Option<PackageView>,
) -> Result<Seq<PackageView>, ErrorView> {
    match parsed {
        Err(detail) => Err(ErrorView::Parse { what, detail }),
        Ok(json) => match json.items() {
            None => Err(
                ErrorView::Parse { what, detail: "top-level value is not an array"@ },
            ),
            Some(items) => Ok(rows::select(items, row)),
        },
    }
}

/// The releases in a list, given what it reads as.
pub fn release_rows(parsed: Result<Data, String>) -> (r: Result<Vec<HelmPackage>, Error>)
    ensures
        error::outcome_list(r) == table_spec(
            data::reading(parsed),
            "helm list JSON"@,
            |row: DataView| release_row_spec(row),
        ),
{
    match parsed {
        Err(detail) => Err(Error::Parse { what: text::copy("helm list JSON"), detail }),
        Ok(json) => match json.items() {
            None => Err(
                Error::Parse {
                    what: text::copy("helm list JSON"),
                    detail: text::copy("top-level value is not an array"),
                },
            ),
            Some(items) => Ok(
                data::select(items, release_row, Ghost(|row: DataView| release_row_spec(row))),
            ),
        },
    }
}

/// The charts in search results, given what they read as.
pub fn search_rows(parsed: Result<Data, String>) -> (r: Result<Vec<HelmPackage>, Error>)
    ensures
        error::outcome_list(r) == table_spec(
            data::reading(parsed),
            "helm search JSON"@,
            |row: DataView| search_row_spec(row),
        ),
{
    match parsed {
        Err(detail) => Err(Error::Parse { what: text::copy("helm search JSON"), detail }),
        Ok(json) => match json.items() {
            None => Err(
                Error::Parse {
                    what: text::copy("helm search JSON"),
                    detail: text::copy("top-level value is not an array"),
                },
            ),
            Some(items) => Ok(
                data::select(items, search_row, Ghost(|row: DataView| search_row_spec(row))),
            ),
        },
    }
}

/// The releases that `helm list --output=json` prints.
pub open spec fn parse_release_json_spec(stdout: Seq<char>) -> Result<
    Seq<PackageView>,
    ErrorView,
> {
    if stdout.trim().len() == 0 {
        Ok(seq![])
    } else {
        table_spec(
            data::json_text(stdout),
            "helm list JSON"@,
            |row: DataView| release_row_spec(row),
        )
    }
}

pub fn parse_release_json(stdout: &str) -> (r: Result<Vec<HelmPackage>, Error>)
    ensures
        error::outcome_list(r) == parse_release_json_spec(stdout@),
{
    if session::is_empty(stdout) {
        return Ok(rows::empty());
    }
    release_rows(data::parse_json(stdout))
}

/// The charts that `helm search repo --output=json` prints.
pub open spec fn parse_search_json_spec(stdout: Seq<char>) -> Result<
    Seq<PackageView>,
    ErrorView,
> {
    if stdout.trim().len() == 0 {
        Ok(seq![])
    } else {
        table_spec(
            data::json_text(stdout),
            "helm search JSON"@,
            |row: DataView| search_row_spec(row),
        )
    }
}

pub fn parse_search_json(stdout: &str) -> (r: Result<Vec<HelmPackage>, Error>)
    ensures
        error::outcome_list(r) == parse_search_json_spec(stdout@),
{
    if session::is_empty(stdout) {
        return Ok(rows::empty());
    }
    search_rows(data::parse_json(stdout))
}

/// A chart with its version, `name-version`, parted at the last hyphen that
/// is followed by a digit.
pub open spec fn split_chart_version_spec(value: Seq<char>) -> (
    Option<Seq<char>>,
    Option<Seq<char>>,
) {
    match version::split_last(value) {
        (name, Some(version)) => (Some(name), Some(version)),
        (name, None) => (
            if name.len() == 0 {
                None
            } else {
                Some(name)
            },
            None,
        ),
    }
}

pub fn split_chart_version(value: &str) -> (r: (Option<String>, Option<String>))
    ensures
        (r.0.deep(), r.1.deep()) == split_chart_version_spec(value@),
{
    match version::split_at_last(value) {
        (name, Some(version)) => (Some(name), Some(version)),
        (name, None) => {
            proof {
                reveal_strlit("");
                if name@.len() == 0 {
                    assert(name@ =~= ""@);
                }
            }
            if text::equal(&name, "") {
                (None, None)
            } else {
                (Some(name), None)
            }
        },
    }
}

/// A locator names a release only where it is the only one that fits.
pub proof fn only_one_release_fits(packages: Seq<PackageView>, locator: Seq<char>)
    ensures
        match locate_spec(packages, locator) {
            Ok(release) => exists|i: int|
                0 <= i < packages.len() && #[trigger] packages[i] == release && is_located(
                    packages[i],
                    locator,
                ) && forall|j: int|
                    0 <= j < packages.len() && j != i ==> !is_located(
                        #[trigger] packages[j],
                        locator,
                    ),
            Err(ErrorView::NotFound(_)) => forall|i: int|
                0 <= i < packages.len() ==> !is_located(#[trigger] packages[i], locator),
            Err(_) => rows::keep(
                packages,
                |package: PackageView| is_located(package, locator),
            ).len() > 1,
        },
{
    let fits = |package: PackageView| is_located(package, locator);
    rows::the_only_one_kept(packages, fits);
    assert(forall|i: int| #![trigger packages[i]] fits(packages[i]) == is_located(packages[i], locator));
}

/// The locator of a release fits the release.
pub proof fn locators_fit(release: PackageView)
    requires
        !namespace_spec(release).contains('/'),
    ensures
        is_located(release, locator_spec(release).name),
{
    reveal_strlit("/");
    assert("/"@ =~= seq!['/']);
    text::first_cut_undoes(namespace_spec(release), '/', release.name);
}

} // verus!
