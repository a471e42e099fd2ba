//! How commands are put together, and what requests become.

use vstd::prelude::*;

use crate::command::{self, CmdView};
use crate::error::ErrorView;
use crate::form;
use crate::package::{self, InstallState, PackageView};
use crate::pattern;
use crate::profile::{Capabilities, Operation};
use crate::request::{self, RequestView};
use crate::rows;
use crate::text::{self, Text};

verus! {

/// A command starts without arguments, variables or privileges, and each of its
/// parts is added behind what is there.
pub proof fn commands_are_put_together(
    cmd: CmdView,
    program: Seq<char>,
    arg: Seq<char>,
    more: Seq<Seq<char>>,
    key: Seq<char>,
    value: Seq<char>,
)
    ensures
        CmdView::new(program).program == program,
        CmdView::new(program).args.len() == 0,
        CmdView::new(program).envs.len() == 0,
        !CmdView::new(program).elevated,
        cmd.arg(arg).args == cmd.args + seq![arg],
        cmd.arg(arg).program == cmd.program && cmd.arg(arg).envs == cmd.envs && cmd.arg(
            arg,
        ).elevated == cmd.elevated,
        cmd.args(more).args == cmd.args + more,
        cmd.args(more).program == cmd.program && cmd.args(more).envs == cmd.envs && cmd.args(
            more,
        ).elevated == cmd.elevated,
        cmd.flag(true, arg) == cmd.arg(arg),
        cmd.flag(false, arg) == cmd,
        cmd.option(arg, Some(value)) == cmd.arg(arg).arg(value),
        cmd.option(arg, None) == cmd,
        cmd.env(key, value).envs == cmd.envs + seq![(key, value)],
        cmd.env(key, value).args == cmd.args && cmd.env(key, value).program == cmd.program
            && cmd.env(key, value).elevated == cmd.elevated,
        cmd.elevated().elevated,
        cmd.elevated().args == cmd.args && cmd.elevated().program == cmd.program
            && cmd.elevated().envs == cmd.envs,
        CmdView::query(program) == CmdView::new(program).env("LC_ALL"@, "C"@),
{
    assert(cmd.arg(arg).args =~= cmd.args + seq![arg]);
    assert(cmd.env(key, value).envs =~= cmd.envs + seq![(key, value)]);
}

/// Every request becomes one argument, in its place: its name, and where it is
/// wanted the version behind the separator.
pub proof fn requests_become_arguments(
    cmd: CmdView,
    requests: Seq<RequestView>,
    separator: Seq<char>,
    i: int,
)
    requires
        0 <= i < requests.len(),
    ensures
        cmd.names(requests).args.len() == cmd.args.len() + requests.len(),
        cmd.names(requests).args[cmd.args.len() + i] == requests[i].name,
        cmd.pinned(requests, separator).args.len() == cmd.args.len() + requests.len(),
        cmd.pinned(requests, separator).args[cmd.args.len() + i] == match requests[i].version {
            Some(version) => requests[i].name + separator + version,
            None => requests[i].name,
        },
        cmd.names(requests).args.take(cmd.args.len() as int) == cmd.args,
        cmd.pinned(requests, separator).args.take(cmd.args.len() as int) == cmd.args,
        cmd.names(requests).program == cmd.program,
        cmd.pinned(requests, separator).program == cmd.program,
        request::names(requests)[i] == requests[i].name,
        request::names(requests).len() == requests.len(),
{
    assert(cmd.names(requests).args.take(cmd.args.len() as int) =~= cmd.args);
    assert(cmd.pinned(requests, separator).args.take(cmd.args.len() as int) =~= cmd.args);
}

/// A request is read as a name and the version behind the last `@`; an `@` at
/// either end belongs to the name.
pub proof fn requests_are_read(name: Seq<char>, version: Seq<char>)
    requires
        name.len() > 0 && version.len() > 0 && !version.contains('@'),
    ensures
        RequestView::read(name + "@"@ + version) == (
            RequestView { name, version: Some(version) }
        ),
        RequestView::read("@"@ + version) == (
            RequestView { name: "@"@ + version, version: None }
        ),
        RequestView::read(version) == (RequestView { name: version, version: None }),
{
    reveal_strlit("@");
    assert("@"@ =~= seq!['@']);
    assert(name + "@"@ + version =~= name.push('@') + version);
    text::last_cut_undoes(name, '@', version);
    let empty = Seq::<char>::empty();
    assert("@"@ + version =~= empty.push('@') + version);
    text::last_cut_undoes(empty, '@', version);
    text::lemma_find_last(version, '@');
    if text::find_last(version, '@') >= 0 {
        assert(version.contains(version[text::find_last(version, '@')]));
    }
}

/// The first request with a version is the first pin, and there is none exactly
/// where no request has one.
pub proof fn the_first_pin_is_found(requests: Seq<RequestView>, i: int)
    requires
        0 <= i < requests.len(),
    ensures
        requests[i].version is Some && (
            forall|j: int| 0 <= j < i ==> (#[trigger] requests[j]).version is None
        )
            ==> request::first_pin(requests) == Some(requests[i]),
        request::first_pin(requests) is None ==> requests[i].version is None,
    decreases requests.len(),
{
    if i > 0 && requests[0].version is None {
        let rest = requests.skip(1);
        if forall|j: int| 0 <= j < i ==> (#[trigger] requests[j]).version is None {
            assert forall|j: int| 0 <= j < i - 1 implies (#[trigger] rest[j]).version is None by {
                assert(rest[j] == requests[j + 1]);
            }
        }
        the_first_pin_is_found(rest, i - 1);
        assert(rest[i - 1] == requests[i]);
    } else if i > 0 {
        assert(requests[0].version is Some);
    }
}

/// Of a package of which nothing is known, nothing is known; a name, a version
/// and a state can be known of it.
pub proof fn packages_start_blank(
    name: Seq<char>,
    version: Option<Seq<char>>,
    state: InstallState,
)
    ensures
        ({
            let blank = PackageView::blank();
            &&& blank.name.len() == 0
            &&& blank.version is None && blank.latest_version is None
            &&& blank.description is None && blank.homepage is None && blank.license is None
            &&& blank.architecture is None && blank.origin is None && blank.dependencies is None
            &&& blank.download_size is None && blank.installed_size is None
            &&& blank.chart is None && blank.app_version is None
            &&& blank.state == InstallState::Unknown
        }),
        PackageView::named(name, state) == (PackageView { name, state, ..PackageView::blank() }),
        PackageView::versioned(name, version, state) == (PackageView {
            name,
            version,
            state,
            ..PackageView::blank()
        }),
{
}

/// The package that is being read is added where it has a name.
pub proof fn named_packages_are_added(packages: Seq<PackageView>, package: PackageView)
    ensures
        package.name.len() > 0
            ==> package::closed(packages, Some(package)) == packages.push(package),
        package.name.len() == 0 ==> package::closed(packages, Some(package)) == packages,
        package::closed(packages, None) == packages,
{
}

/// A dependency is the first word of its entry; the entries are parted by
/// commas.
pub proof fn dependencies_are_named(first: Seq<char>, rest: Seq<char>)
    requires
        text::is_word(first) && !first.contains(','),
    ensures
        package::dependency_names(first) == seq![first],
        package::dependency_names(first + ","@ + rest) == seq![first] + package::dependency_names(
            rest,
        ),
{
    reveal_strlit(",");
    let f = |dep: Seq<char>| package::dependency_name(dep);
    form::a_piece_is_split_off(first, ","@, rest);
    form::a_word_is_a_phrase(first);
    let one = seq![first];
    reveal_with_fuel(rows::select, 2);
    assert(one.drop_last() =~= seq![] && one.last() == first);
    assert(rows::select(one, f) =~= seq![first]);
    rows::lemma_select_adds_up(one, rest.split(","@), f);
}

/// A plan of one command is that command.
pub proof fn plans_can_be_one_command(cmd: CmdView)
    ensures
        command::just(cmd) == Ok::<Seq<CmdView>, ErrorView>(seq![cmd]),
{
}

/// What every manager can do, and what may be asked of it.
pub proof fn capabilities_allow_operations(capabilities: Capabilities)
    ensures
        Capabilities::basic() == (Capabilities {
            install: true,
            remove: true,
            list_installed: true,
            info: true,
            search: false,
            refresh: false,
            upgrade: false,
            list_outdated: false,
            pin_version: false,
        }),
        capabilities.allows(Operation::Install) == capabilities.install,
        capabilities.allows(Operation::Remove) == capabilities.remove,
        capabilities.allows(Operation::Upgrade) == capabilities.upgrade,
        capabilities.allows(Operation::Refresh) == capabilities.refresh,
        capabilities.allows(Operation::ListInstalled) == capabilities.list_installed,
        capabilities.allows(Operation::Info) == capabilities.info,
        capabilities.allows(Operation::Search) == capabilities.search,
        capabilities.allows(Operation::ListOutdated) == capabilities.list_outdated,
{
}

/// A row that was read is added, and one that was not is not.
pub proof fn rows_are_added<A>(s: Seq<A>, a: A)
    ensures
        rows::added(s, Some(a)) == s.push(a),
        rows::added(s, None) == s,
{
}

/// What is kept and what is read stays in its order.
pub proof fn order_is_kept<A, B>(
    s: Seq<A>,
    a: A,
    b: B,
    keeps: spec_fn(A) -> bool,
    reads: spec_fn(A) -> Option<B>,
)
    ensures
        keeps(a) ==> rows::keep(s.push(a), keeps) == rows::keep(s, keeps).push(a),
        !keeps(a) ==> rows::keep(s.push(a), keeps) == rows::keep(s, keeps),
        reads(a) == Some(b) ==> rows::select(s.push(a), reads) == rows::select(s, reads).push(b),
        reads(a) is None ==> rows::select(s.push(a), reads) == rows::select(s, reads),
        keeps(a) ==> rows::last(s.push(a), keeps) == Some(a),
        !keeps(a) ==> rows::last(s.push(a), keeps) == rows::last(s, keeps),
{
    assert(s.push(a).drop_last() =~= s);
}

/// Letters, digits and what is plain stay in a pattern, and everything else is
/// escaped.
pub proof fn patterns_escape_the_rest(c: char, rest: Seq<char>, plain: Seq<char>)
    ensures
        text::is_alphanumeric(c) || plain.contains(c) ==> pattern::escaped(seq![c] + rest, plain)
            == seq![c] + pattern::escaped(rest, plain),
        !text::is_alphanumeric(c) && !plain.contains(c)
            ==> pattern::escaped(seq![c] + rest, plain)
            == seq!['\\', c] + pattern::escaped(rest, plain),
        pattern::escaped(seq![], plain).len() == 0,
{
    assert((seq![c] + rest).skip(1) =~= rest);
}

} // verus!
