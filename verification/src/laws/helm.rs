//! What `helm` says, and what is asked of it.

use vstd::prelude::*;

use crate::backends::helm;
use crate::command::CmdView;
use crate::data::{self, DataView};
use crate::error::ErrorView;
use crate::form;
use crate::package::{InstallState, PackageView};
use crate::request::{OpContext, RequestView};
use crate::rows;
use crate::session::{self, ActionView, PartView, ReplyView, StepView};
use crate::text::{self, Text};
use crate::version;

verus! {

/// A release is written `namespace/release`, or without its namespace; a chart
/// to be installed is written `release=chart`, or without its release.
pub proof fn locators_are_read(namespace: Seq<char>, release: Seq<char>, chart: Seq<char>)
    requires
        !namespace.contains('/') && !namespace.contains('='),
        !release.contains('/') && !release.contains('='),
        !chart.contains('='),
    ensures
        helm::release_locator_spec(namespace + "/"@ + release) == (Some(namespace), release),
        helm::release_locator_spec(release) == (None::<Seq<char>>, release),
        helm::install_target_spec(release + "="@ + chart) == (
            Some((None::<Seq<char>>, release)),
            chart,
        ),
        helm::install_target_spec(chart) == (None::<(Option<Seq<char>>, Seq<char>)>, chart),
{
    reveal_strlit("/");
    reveal_strlit("=");
    form::a_cut_is_found(namespace, "/"@, release);
    form::no_cut_is_found(release, "/"@);
    form::a_cut_is_found(release, "="@, chart);
    form::no_cut_is_found(chart, "="@);
}

/// A chart is installed under its release and in its namespace where they are
/// given, and else under a name that is made up; its version is passed on.
pub proof fn charts_are_installed(
    program: Seq<char>,
    package: RequestView,
    namespace: Seq<char>,
    release: Seq<char>,
    chart: Seq<char>,
    version: Seq<char>,
    ctx: OpContext,
)
    ensures
        helm::install_target_spec(package.name) == (
            Some((Some(namespace), release)),
            chart,
        ) && package.version is None ==> helm::install_spec(program, package, ctx) == CmdView::new(
            program,
        ).arg("install"@).arg(release).arg(chart).arg("--namespace"@).arg(namespace).flag(
            ctx.dry_run,
            "--dry-run"@,
        ),
        helm::install_target_spec(package.name) == (
            Some((None::<Seq<char>>, release)),
            chart,
        ) && package.version == Some(version) ==> helm::install_spec(program, package, ctx)
            == CmdView::new(program).arg("install"@).arg(release).arg(chart).arg("--version"@).arg(
            version,
        ).flag(ctx.dry_run, "--dry-run"@),
        helm::install_target_spec(package.name) == (
            None::<(Option<Seq<char>>, Seq<char>)>,
            chart,
        ) && package.version is None ==> helm::install_spec(program, package, ctx) == CmdView::new(
            program,
        ).arg("install"@).arg("--generate-name"@).arg(chart).flag(ctx.dry_run, "--dry-run"@),
{
}

/// Releases are listed page by page, each from where the last one ended, until a
/// page is not full.
pub proof fn releases_are_listed_in_pages(
    manager: helm::Manager,
    known: Seq<PackageView>,
    page: Seq<PackageView>,
    replies: Seq<ReplyView>,
)
    ensures
        replies.len() == 0 ==> manager.installed_spec(known, replies) == PartView::<
            Seq<PackageView>,
        >::Act(
            ActionView::Query(
                CmdView::query(manager.program@).arg("list"@).arg("--all-namespaces"@).arg(
                    "--output=json"@,
                ).arg("--max=256"@).arg("--offset="@ + text::decimal_of(known.len())),
            ),
        ),
        replies.len() > 0 && !replies[0].success ==> manager.installed_spec(known, replies)
            == PartView::<Seq<PackageView>>::Fail(replies[0].failure()),
        replies.len() > 0 && replies[0].success && helm::parse_release_json_spec(
            replies[0].stdout,
        )
            == Ok::<_, ErrorView>(page) && page.len() < 256
                ==> manager.installed_spec(known, replies)
            == PartView::Got(known + page, replies.skip(1)),
        replies.len() > 0 && replies[0].success && helm::parse_release_json_spec(
            replies[0].stdout,
        )
            == Ok::<_, ErrorView>(page) && page.len() >= 256 ==> manager.installed_spec(
            known,
            replies,
        ) == manager.installed_spec(known + page, replies.skip(1)),
{
}

/// A release is what its row says: its name, its namespace, and its chart with
/// the version.
pub proof fn releases_are_read(
    row: DataView,
    name: Seq<char>,
    namespace: Seq<char>,
    chart: Seq<char>,
    chart_name: Seq<char>,
    version: Seq<char>,
)
    requires
        row.get("name"@).text() == Some(name),
        row.get("chart"@).text() == Some(chart),
        version::split_last(chart) == (chart_name, Some(version)),
        row.get("namespace"@).text() == Some(namespace),
        namespace.len() > 0,
    ensures
        ({
            &&& helm::release_row_spec(row) matches Some(package)
            &&& package.name == name
            &&& package.version == Some(version)
            &&& package.chart == Some(chart_name)
            &&& package.origin == Some(namespace)
            &&& package.state == InstallState::Installed
            &&& package.latest_version is None
            &&& package.app_version is Some ==> package.description == Some(
                "app "@ + package.app_version->0,
            )
        }),
{
    reveal_strlit("");
    assert(""@.len() == 0);
}

/// A chart is what its row says, and the last part of its name is the chart.
pub proof fn charts_are_read(row: DataView, repository: Seq<char>, chart: Seq<char>)
    requires
        row.get("name"@).text() == Some(repository + "/"@ + chart),
        !chart.contains('/'),
    ensures
        ({
            &&& helm::search_row_spec(row) matches Some(package)
            &&& package.name == repository + "/"@ + chart
            &&& package.chart == Some(chart)
            &&& package.description == row.get("description"@).text()
            &&& package.version == helm::either_spec(row, "version"@, "chart_version"@)
            &&& package.app_version == helm::either_spec(row, "app_version"@, "appVersion"@)
            &&& package.state == InstallState::Available
            &&& package.latest_version is None
        }),
{
    reveal_strlit("/");
    let name = repository + "/"@ + chart;
    assert("/"@ =~= seq!['/']);
    assert(name =~= repository.push('/') + chart);
    text::last_cut_undoes(repository, '/', chart);
}

/// A release is outdated exactly where the chart that is found for it has
/// another version.
pub proof fn releases_are_compared(release: PackageView, candidate: PackageView)
    ensures
        helm::newer_spec(release, None) is None,
        release.version == candidate.version
            ==> helm::newer_spec(release, Some(candidate)) is None,
        release.version != candidate.version ==> helm::newer_spec(release, Some(candidate)) == Some(
            PackageView {
                latest_version: candidate.version,
                state: InstallState::Upgradable,
                ..release
            },
        ),
{
}

/// The chart of a release is found by the last part of its name.
pub proof fn charts_are_found(charts: Seq<PackageView>, chart: Seq<char>, i: int)
    requires
        0 <= i < charts.len(),
    ensures
        charts[i].name.after_last('/') == chart ==> helm::candidate_spec(charts, chart) is Some,
        helm::candidate_spec(charts, chart) matches Some(p) ==> charts.contains(p)
            && p.name.after_last('/') == chart,
{
    lemma_found(charts, chart);
}

proof fn lemma_found(packages: Seq<PackageView>, chart: Seq<char>)
    ensures
        match helm::candidate_spec(packages, chart) {
            Some(p) => packages.contains(p) && (p.name.after_last('/') == chart),
            None => forall|i: int| 0 <= i < packages.len() ==> !(
                (#[trigger] packages[i]).name.after_last('/') == chart
            ),
        },
    decreases packages.len(),
{
    if packages.len() > 0 {
        let rest = packages.skip(1);
        lemma_found(rest, chart);
        assert(packages[0] == packages.first());
        if (packages[0].name.after_last('/') == chart) {
            assert(packages.contains(packages[0]));
        } else {
            match helm::candidate_spec(rest, chart) {
                Some(p) => {
                    let i = choose|i: int| 0 <= i < rest.len() && rest[i] == p;
                    assert(packages[i + 1] == p);
                },
                None => {
                    assert forall|i: int| 0 <= i < packages.len() implies !((#[trigger] packages[i]).name.after_last('/') == chart) by {
                        if i > 0 {
                            assert(rest[i - 1] == packages[i]);
                        }
                    }
                },
            }
        }
    }
}


/// The chart of each release is searched for in its turn.
pub proof fn releases_are_looked_up_in_turn(
    manager: helm::Manager,
    known: Seq<PackageView>,
    releases: Seq<PackageView>,
    chart: Seq<char>,
    charts: Seq<PackageView>,
    replies: Seq<ReplyView>,
)
    requires
        releases.len() > 0,
    ensures
        releases[0].chart is None ==> manager.outdated_spec(known, releases, replies)
            == manager.outdated_spec(known, releases.skip(1), replies),
        releases[0].chart == Some(chart) && replies.len() == 0 ==> manager.outdated_spec(
            known,
            releases,
            replies,
        ) == session::ask::<Seq<PackageView>>(
            CmdView::query(manager.program@).arg("search"@).arg("repo"@).arg(chart).arg(
                "--output=json"@,
            ),
        ),
        releases[0].chart == Some(chart) && replies.len() > 0 && replies[0].success
            && helm::parse_search_json_spec(replies[0].stdout) == Ok::<_, ErrorView>(charts)
            ==> manager.outdated_spec(known, releases, replies) == manager.outdated_spec(
            match helm::newer_spec(releases[0], helm::candidate_spec(charts, chart)) {
                Some(package) => known.push(package),
                None => known,
            },
            releases.skip(1),
            replies.skip(1),
        ),
        manager.outdated_spec(known, seq![], replies) == StepView::Done(known),
{
}

/// A release is upgraded in its namespace to the chart, and removed from its
/// namespace.
pub proof fn releases_are_changed_in_their_namespace(
    manager: helm::Manager,
    release: PackageView,
    namespace: Seq<char>,
    chart: Seq<char>,
    version: Seq<char>,
    ctx: OpContext,
)
    requires
        release.origin == Some(namespace),
    ensures
        manager.upgrade_command_spec(release, chart, None, ctx) == CmdView::new(
            manager.program@,
        ).arg("upgrade"@).arg(release.name).arg(chart).arg("--namespace"@).arg(namespace).flag(
            ctx.dry_run,
            "--dry-run"@,
        ),
        manager.upgrade_command_spec(release, chart, Some(version), ctx) == CmdView::new(
            manager.program@,
        ).arg("upgrade"@).arg(release.name).arg(chart).arg("--namespace"@).arg(namespace).arg(
            "--version"@,
        ).arg(version).flag(ctx.dry_run, "--dry-run"@),
        manager.uninstall_spec(release, ctx) == CmdView::new(manager.program@).arg(
            "uninstall"@,
        ).arg(release.name).arg("--namespace"@).arg(namespace).flag(ctx.dry_run, "--dry-run"@),
        helm::locator_spec(release).name == namespace + "/"@ + release.name,
        helm::locator_spec(release).version is None,
{
}

/// With the releases listed, the one that is named is removed; where it is not
/// there, nothing is run.
pub proof fn the_named_release_is_removed(
    manager: helm::Manager,
    packages: Seq<RequestView>,
    ctx: OpContext,
    replies: Seq<ReplyView>,
    releases: Seq<PackageView>,
    rest: Seq<ReplyView>,
    release: PackageView,
)
    requires
        packages.len() > 0,
        manager.installed_spec(seq![], replies) == PartView::Got(releases, rest),
    ensures
        helm::locate_spec(
            releases,
            packages[0].name,
        ) == Ok::<_, ErrorView>(release) && rest.len() == 0
            ==> manager.remove_spec(packages, ctx, replies) == StepView::<()>::Act(
            ActionView::Run(manager.uninstall_spec(release, ctx)),
        ),
        helm::locate_spec(
            releases,
            packages[0].name,
        ) == Ok::<_, ErrorView>(release) && rest.len() > 0
            && rest[0].success ==> manager.remove_spec(packages, ctx, replies) == manager.remove_spec(
            packages.skip(1),
            ctx,
            rest.skip(1),
        ),
        helm::locate_spec(releases, packages[0].name) is Err ==> manager.remove_spec(
            packages,
            ctx,
            replies,
        ) is Fail,
        manager.remove_spec(seq![], ctx, replies) == StepView::Done(()),
{
}

/// With the releases listed, the one that is named is upgraded: to the chart
/// that is given, or to the one that is found for it.
pub proof fn the_named_release_is_upgraded(
    manager: helm::Manager,
    package: RequestView,
    ctx: OpContext,
    replies: Seq<ReplyView>,
    releases: Seq<PackageView>,
    release: PackageView,
    locator: Seq<char>,
    chart: Seq<char>,
)
    requires
        manager.installed_spec(seq![], replies) == PartView::Got(
            releases,
            Seq::<ReplyView>::empty(),
        ),
        helm::locate_spec(releases, locator) == Ok::<_, ErrorView>(release),
    ensures
        package.name.cut("="@) == Some((locator, chart)) ==> manager.upgrade_one_spec(
            package,
            ctx,
            replies,
        ) == PartView::<()>::Act(
            ActionView::Run(manager.upgrade_command_spec(release, chart, package.version, ctx)),
        ),
        package.name.cut("="@) is None && package.name == locator && release.chart == Some(chart)
            ==> manager.upgrade_one_spec(package, ctx, replies) == PartView::<()>::Act(
            ActionView::Query(
                CmdView::query(manager.program@).arg("search"@).arg("repo"@).arg(chart).arg(
                    "--output=json"@,
                ),
            ),
        ),
{
}

/// Each of the named releases is upgraded in its turn; where none is named, each
/// release is.
pub proof fn every_release_is_upgraded(
    manager: helm::Manager,
    packages: Seq<RequestView>,
    ctx: OpContext,
    replies: Seq<ReplyView>,
    releases: Seq<PackageView>,
    rest: Seq<ReplyView>,
)
    ensures
        packages.len() > 0 ==> manager.upgrade_spec(packages, ctx, replies)
            == manager.upgrade_each_spec(packages, ctx, replies).whole(),
        packages.len() > 0 ==> match manager.upgrade_one_spec(packages[0], ctx, replies) {
            PartView::Got(_, later) => manager.upgrade_each_spec(packages, ctx, replies)
                == manager.upgrade_each_spec(packages.skip(1), ctx, later),
            other => manager.upgrade_each_spec(packages, ctx, replies) == other,
        },
        manager.installed_spec(
            seq![],
            replies,
        ) == PartView::Got(releases, rest) && releases.len() > 0
            ==> manager.upgrade_spec(seq![], ctx, replies) == manager.upgrade_each_spec(
            releases.map_values(|release: PackageView| helm::locator_spec(release)),
            ctx,
            rest,
        ).whole(),
        manager.installed_spec(seq![], replies) == PartView::Got(releases, rest) && releases.len()
            == 0 ==> manager.upgrade_spec(seq![], ctx, replies) == StepView::Done(()),
{
}

/// A release without a namespace is in the default one, and one without a chart
/// has none.
pub proof fn releases_have_defaults(row: DataView, name: Seq<char>)
    requires
        row.get("name"@).text() == Some(name),
    ensures
        row.get("namespace"@).text() is None ==> helm::release_row_spec(row)->0.origin == Some(
            "default"@,
        ),
        row.get("chart"@).text() is None ==> helm::release_row_spec(row)->0.chart is None
            && helm::release_row_spec(row)->0.version is None,
        helm::release_row_spec(row)->0.app_version == helm::either_spec(
            row,
            "app_version"@,
            "appVersion"@,
        ),
{
    reveal_strlit("default");
    reveal_strlit("");
    assert("default"@.len() == 7);
    assert(""@.len() == 0);
    version::last_split_is_lossless(""@);
    match version::split_last(""@) {
        (n, Some(v)) => {
            assert(""@.len() == n.len() + 1 + v.len());
        },
        (n, None) => {},
    }
}

/// A value is looked for under its key, and under the other one where the first
/// is not there.
pub proof fn keys_have_alternatives(row: DataView, key: Seq<char>, other: Seq<char>)
    ensures
        row.find(key) is Some ==> helm::either_spec(row, key, other) == row.find(key)->0.text(),
        row.find(key) is None ==> helm::either_spec(row, key, other) == row.get(other).text(),
{
}

/// Empty output is an empty table; a table is a list, each row of which is read.
pub proof fn tables_are_read(
    stdout: Seq<char>,
    items: Seq<DataView>,
    row: DataView,
    package: PackageView,
)
    ensures
        stdout.trim().len() == 0 ==> helm::parse_release_json_spec(stdout) == Ok::<_, ErrorView>(
            Seq::<PackageView>::empty(),
        ) && helm::parse_search_json_spec(stdout) == Ok::<_, ErrorView>(
            Seq::<PackageView>::empty(),
        ),
        stdout.trim().len() > 0 && data::json_text(stdout) == Ok::<_, Seq<char>>(
            DataView::List(seq![row]),
        ) && helm::release_row_spec(row) == Some(package) ==> helm::parse_release_json_spec(stdout)
            == Ok::<_, ErrorView>(seq![package]),
        stdout.trim().len() > 0 && data::json_text(stdout) == Ok::<_, Seq<char>>(
            DataView::List(seq![row]),
        ) && helm::search_row_spec(row) == Some(package) ==> helm::parse_search_json_spec(stdout)
            == Ok::<_, ErrorView>(seq![package]),
        stdout.trim().len() > 0 && data::json_text(stdout) == Ok::<_, Seq<char>>(DataView::Other)
            ==> helm::parse_release_json_spec(stdout) is Err && helm::parse_search_json_spec(
            stdout,
        ) is Err,
{
    reveal_with_fuel(rows::select, 2);
    assert(seq![row].drop_last() =~= seq![] && seq![row].last() == row);
    let none = Seq::<PackageView>::empty();
    assert(none.push(package) =~= seq![package]);
}

/// What is installed is described, and what is not is looked for among the
/// charts.
pub proof fn descriptions_are_looked_for_in_order(
    manager: helm::Manager,
    name: Seq<char>,
    replies: Seq<ReplyView>,
    releases: Seq<PackageView>,
    rest: Seq<ReplyView>,
    release: PackageView,
    charts: Seq<PackageView>,
)
    requires
        manager.installed_spec(seq![], replies) == PartView::Got(releases, rest),
    ensures
        helm::locate_spec(releases, name) == Ok::<_, ErrorView>(release) ==> manager.info_spec(
            name,
            replies,
        ) == StepView::Done(release),
        helm::locate_spec(releases, name) == Err::<PackageView, _>(ErrorView::NotFound(name))
            && rest.len() == 0 ==> manager.info_spec(name, replies) == session::ask::<PackageView>(
            CmdView::query(manager.program@).arg("search"@).arg("repo"@).arg(name).arg(
                "--output=json"@,
            ),
        ),
        helm::locate_spec(releases, name) == Err::<PackageView, _>(ErrorView::NotFound(name))
            && rest.len() == 1 && rest[0].success && helm::parse_search_json_spec(rest[0].stdout)
            == Ok::<_, ErrorView>(charts) ==> manager.info_spec(name, replies) == session::found(
            session::called(charts, name),
            name,
        ),
{
}

/// Charts are searched for once, and what fails is told.
pub proof fn charts_are_searched_for(
    manager: helm::Manager,
    query: Seq<char>,
    replies: Seq<ReplyView>,
    charts: Seq<PackageView>,
)
    ensures
        replies.len() == 0 ==> manager.search_repo_spec(query, replies) == PartView::<
            Seq<PackageView>,
        >::Act(
            ActionView::Query(
                CmdView::query(manager.program@).arg("search"@).arg("repo"@).arg(query).arg(
                    "--output=json"@,
                ),
            ),
        ),
        replies.len() > 0 && !replies[0].success ==> manager.search_repo_spec(query, replies)
            == PartView::<Seq<PackageView>>::Fail(replies[0].failure()),
        replies.len() > 0 && replies[0].success && helm::parse_search_json_spec(replies[0].stdout)
            == Ok::<_, ErrorView>(charts) ==> manager.search_repo_spec(query, replies)
            == PartView::Got(charts, replies.skip(1)),
{
}

/// A release is upgraded to the chart that is found for it; where none is found
/// the upgrade fails.
pub proof fn charts_are_found_for_releases(
    manager: helm::Manager,
    release: PackageView,
    chart: Seq<char>,
    charts: Seq<PackageView>,
    found: PackageView,
    replies: Seq<ReplyView>,
)
    requires
        release.chart == Some(chart),
        replies.len() > 0 && replies[0].success,
        helm::parse_search_json_spec(replies[0].stdout) == Ok::<_, ErrorView>(charts),
    ensures
        helm::candidate_spec(charts, chart) == Some(found)
            ==> manager.chart_for_spec(release, replies)
            == PartView::Got(found.name, replies.skip(1)),
        helm::candidate_spec(charts, chart) is None ==> manager.chart_for_spec(release, replies)
            == PartView::<Seq<char>>::Fail(
            ErrorView::Other(
                "helm: cannot map installed chart `"@ + chart
                    + "` to a configured repository; use release=repo/chart"@,
            ),
        ),
        manager.chart_for_spec(PackageView { chart: None, ..release }, replies) is Fail,
{
}

/// A release is located by its name, and by its namespace where one is given.
pub proof fn releases_are_located(package: PackageView, namespace: Seq<char>, release: Seq<char>)
    requires
        !namespace.contains('/') && !release.contains('/'),
    ensures
        helm::is_located(package, release) == (package.name == release),
        package.origin is Some ==> helm::is_located(package, namespace + "/"@ + release) == (
        package.name == release && package.origin == Some(namespace)),
        package.origin is None ==> helm::is_located(package, namespace + "/"@ + release) == (
        package.name == release && namespace.len() == 0),
{
    reveal_strlit("/");
    reveal_strlit("");
    assert(""@.len() == 0);
    form::a_cut_is_found(namespace, "/"@, release);
    form::no_cut_is_found(release, "/"@);
    if namespace.len() == 0 {
        assert(namespace =~= ""@);
    }
}

/// One release that fits is the one meant; none is not found, and several are
/// refused.
pub proof fn the_meaning_is_unique(a: PackageView, b: PackageView, locator: Seq<char>)
    requires
        helm::is_located(a, locator) && helm::is_located(b, locator),
    ensures
        helm::locate_spec(seq![], locator) == Err::<PackageView, _>(ErrorView::NotFound(locator)),
        helm::locate_spec(seq![a], locator) == Ok::<_, ErrorView>(a),
        helm::locate_spec(seq![a, b], locator) == Err::<PackageView, _>(
            ErrorView::Other(
                "helm: release `"@ + locator
                    + "` exists in multiple namespaces; use namespace/release"@,
            ),
        ),
{
    reveal_with_fuel(rows::keep, 3);
    assert(seq![a].drop_last() =~= seq![] && seq![a].last() == a);
    assert(seq![a, b].drop_last() =~= seq![a] && seq![a, b].last() == b);
}

/// A chart without a version is a name alone.
pub proof fn charts_may_have_no_version(value: Seq<char>)
    requires
        value.len() > 0,
    ensures
        version::split_last(value).1 is None ==> helm::split_chart_version_spec(value) == (
            Some(value),
            None::<Seq<char>>,
        ),
        version::split_last(value).1 is Some ==> helm::split_chart_version_spec(value) == (
            Some(version::split_last(value).0),
            version::split_last(value).1,
        ),
{
    version::last_split_is_lossless(value);
}

/// Output that is not JSON, or no list, is refused with the reason.
pub proof fn output_has_to_be_a_list(stdout: Seq<char>, json: DataView, detail: Seq<char>)
    requires
        stdout.trim().len() > 0,
    ensures
        data::json_text(stdout) == Err::<DataView, _>(detail) ==> helm::parse_release_json_spec(
            stdout,
        ) == Err::<Seq<PackageView>, _>(ErrorView::Parse { what: "helm list JSON"@, detail })
            && helm::parse_search_json_spec(stdout) == Err::<Seq<PackageView>, _>(
            ErrorView::Parse { what: "helm search JSON"@, detail },
        ),
        data::json_text(stdout) == Ok::<_, Seq<char>>(json) && json.items() is None
            ==> helm::parse_release_json_spec(stdout) == Err::<Seq<PackageView>, _>(
            ErrorView::Parse {
                what: "helm list JSON"@,
                detail: "top-level value is not an array"@,
            },
        ),
{
}

} // verus!
