//! EasyBuild, which builds software for clusters.
//!
//! Software is named by easyconfigs, `zlib-1.2.13.eb`. `eb` resolves what they
//! depend on with `--robot`, which has to stand behind them: it would take a
//! name behind it for a path. Nothing uninstalls. What is installed is known
//! by name only. A dry run is built in, and nothing is elevated.

use vstd::prelude::*;

use crate::command::{self, Cmd, CmdView, Plan};
use crate::detect::{self, Detection};
use crate::error::{self, Error, ErrorView};
use crate::package::{Details, InstallState, Package, PackageView};
use crate::profile::{basic_capabilities, Capabilities, ManagerKind, Operation, Profile};
use crate::request::{self, OpContext, PackageRequest, RequestView};
use crate::rows;
use crate::session::{self, Listing, Reply, ReplyView, Step, StepView};
use crate::text::{self, chars, Deep, Text};
use crate::version;

verus! {

broadcast use command::group_carries;

/// Finds the manager and sets it up.
#[derive(Clone, Copy, Debug)]
pub struct Factory;

/// The factory of this backend.
pub fn factory() -> (r: Factory)
    ensures
        r == Factory,
{
    Factory
}

impl Factory {
    pub fn id(&self) -> (r: &'static str)
        ensures
            r@ == "easybuild"@,
    {
        "easybuild"
    }

    /// The programs to look for, in the order of preference.
    pub fn programs(&self) -> (r: Vec<&'static str>)
        ensures
            r@.deep() == seq!["eb"@],
    {
        let mut out: Vec<&'static str> = Vec::new();
        out.push("eb");
        assert(out@.deep() =~= seq!["eb"@]);
        out
    }

    /// Whether the backend can be used, given where each program was found.
    pub fn detect(&self, found: &[Option<String>]) -> (r: Detection)
        ensures
            r@ == detect::detected(found@, "`eb` not found on PATH"@),
    {
        detect::detect(found, "`eb` not found on PATH")
    }

    /// The manager, given where each program was found.
    pub fn create(&self, found: &[Option<String>]) -> (r: Result<Manager, Error>)
        ensures
            match r {
                Ok(manager) => detect::required(found@, "easybuild"@) == Ok::<Seq<char>, ErrorView>(
                    manager.program@,
                ),
                Err(error) => detect::required(found@, "easybuild"@) == Err::<Seq<char>, ErrorView>(
                    error@,
                ),
            },
    {
        match detect::require(found, "easybuild") {
            Ok(program) => Ok(Manager { program }),
            Err(error) => Err(error),
        }
    }
}

/// The manager, driving `program`.
#[derive(Debug)]
pub struct Manager {
    pub program: String,
}

impl Manager {
    /// What the manager says of itself.
    pub fn profile(&self) -> (r: Profile)
        ensures
            r.id@ == "easybuild"@,
            r.display_name@ == "EasyBuild"@,
            r.kind == ManagerKind::Universal,
            r.database_id@ == "easybuild"@,
            r.capabilities == (Capabilities {
                search: true,
                remove: false,
                ..Capabilities::basic()
            }),
            r.elevates == false,
    {
        Profile {
            id: "easybuild",
            display_name: "EasyBuild",
            kind: ManagerKind::Universal,
            database_id: "easybuild",
            capabilities: Capabilities { search: true, remove: false, ..basic_capabilities() },
            elevates: false,
        }
    }
}

/// A package as EasyBuild describes it.
#[derive(Debug)]
pub struct EasybuildPackage {
    pub name: String,
    pub version: Option<String>,
    pub state: InstallState,
}

impl View for EasybuildPackage {
    type V = PackageView;

    open spec fn view(&self) -> PackageView {
        PackageView {
            name: self.name@,
            version: self.version.deep(),
            state: self.state,
            ..PackageView::blank()
        }
    }
}

impl Package for EasybuildPackage {
    open spec fn manager_id() -> Seq<char> {
        "easybuild"@
    }

    fn manager(&self) -> (r: &'static str) {
        "easybuild"
    }

    fn details(&self) -> (r: Details<'_>) {
        Details {
            version: self.version.as_ref(),
            ..Details::of(&self.name, self.state)
        }
    }
}

/// A version is a part of the name of an easyconfig.
pub open spec fn reject_pins_spec(requests: Seq<RequestView>) -> Result<(), ErrorView> {
    match request::first_pin(requests) {
        None => Ok(()),
        Some(pinned) => Err(
            ErrorView::Other(
                "easybuild: `"@ + pinned.written()
                    + "` pins a version, but eb installs by easyconfig name (try `"@
                    + pinned.pinned("-"@) + "`)"@,
            ),
        ),
    }
}

pub fn reject_pins(requests: &[PackageRequest]) -> (r: Result<(), Error>)
    ensures
        error::outcome(r) == reject_pins_spec(requests@.deep()),
{
    match request::find_pin(requests) {
        None => Ok(()),
        Some(pinned) => Err(
            Error::Other(
                text::cat5(
                    "easybuild: `",
                    &pinned.written(),
                    "` pins a version, but eb installs by easyconfig name (try `",
                    &pinned.pinned("-"),
                    "`)",
                ),
            ),
        ),
    }
}

/// The file of an easyconfig.
pub open spec fn easyconfig_spec(name: Seq<char>) -> Seq<char> {
    if name.ends(".eb"@) {
        name
    } else {
        name + ".eb"@
    }
}

pub fn easyconfig(name: &str) -> (r: String)
    ensures
        r@ == easyconfig_spec(name@),
{
    if text::ends(&chars(name), ".eb") {
        text::copy(name)
    } else {
        text::cat(name, ".eb")
    }
}

/// A file that is named so already is not named again.
pub proof fn easyconfigs_stay(name: Seq<char>)
    ensures
        easyconfig_spec(easyconfig_spec(name)) == easyconfig_spec(name),
{
    reveal_strlit(".eb");
    let file = name + ".eb"@;
    assert(file.skip(file.len() - 3) =~= ".eb"@);
}

/// The software and its version, toolchain and all: parted at the first
/// hyphen that is followed by a digit.
pub fn split_easyconfig(file: &str) -> (r: (String, Option<String>))
    ensures
        version::name_and_version(r) == version::split_first(file@),
{
    version::split_at_first(file)
}

/// A hit: `* <path>.eb`. Lines about the status are no hits.
pub open spec fn search_row_spec(line: Seq<char>) -> Option<PackageView> {
    match line.trim().without_prefix("* "@) {
        None => None,
        Some(path) => match path.trim().after_last('/').without_suffix(".eb"@) {
            None => None,
            Some(file) => {
                let (name, version) = version::split_first(file);
                Some(PackageView::versioned(name, version, InstallState::Available))
            },
        },
    }
}

fn search_row(line: &[char]) -> (r: Option<EasybuildPackage>)
    ensures
        r.deep() == search_row_spec(line@),
{
    match text::without_prefix(text::trim(line), "* ") {
        None => None,
        Some(path) => match text::without_suffix(
            text::after_last(text::trim(path), '/'),
            ".eb",
        ) {
            None => None,
            Some(file) => {
                let (name, version) = version::at_first_dash(file);
                Some(
                    EasybuildPackage {
                        name: text::string(name),
                        version: text::maybe_string(version),
                        state: InstallState::Available,
                    },
                )
            },
        },
    }
}

/// The easyconfigs that `eb --search` prints.
pub open spec fn parse_search_spec(stdout: Seq<char>) -> Seq<PackageView> {
    rows::select(stdout.lines(), |line: Seq<char>| search_row_spec(line))
}

pub fn parse_search(stdout: &str) -> (r: Vec<EasybuildPackage>)
    ensures
        r@.deep() == parse_search_spec(stdout@),
        crate::package::all_in(r@.deep(), InstallState::Available),
{
    proof {
        rows::selected_have(
            stdout@.lines(),
            |line: Seq<char>| search_row_spec(line),
            |p: PackageView| p.state == InstallState::Available,
        );
    }
    rows::select_rows(stdout, search_row, Ghost(|line: Seq<char>| search_row_spec(line)))
}

/// An installed software: `* <name>`.
pub open spec fn installed_row_spec(line: Seq<char>) -> Option<PackageView> {
    match line.trim().without_prefix("* "@) {
        None => None,
        Some(name) => if name.trim().len() == 0 {
            None
        } else {
            Some(PackageView::named(name.trim(), InstallState::Installed))
        },
    }
}

fn installed_row(line: &[char]) -> (r: Option<EasybuildPackage>)
    ensures
        r.deep() == installed_row_spec(line@),
{
    match text::without_prefix(text::trim(line), "* ") {
        None => None,
        Some(name) => {
            let name = text::trim(name);
            if name.len() == 0 {
                None
            } else {
                Some(
                    EasybuildPackage {
                        name: text::string(name),
                        version: None,
                        state: InstallState::Installed,
                    },
                )
            }
        },
    }
}

/// The software that `eb --list-installed-software` prints.
pub open spec fn parse_installed_spec(stdout: Seq<char>) -> Seq<PackageView> {
    rows::select(stdout.lines(), |line: Seq<char>| installed_row_spec(line))
}

pub fn parse_installed(stdout: &str) -> (r: Vec<EasybuildPackage>)
    ensures
        r@.deep() == parse_installed_spec(stdout@),
        crate::package::all_named(r@.deep()),
        crate::package::all_in(r@.deep(), InstallState::Installed),
{
    proof {
        rows::selected_have(
            stdout@.lines(),
            |line: Seq<char>| installed_row_spec(line),
            |p: PackageView| p.name.len() > 0 && p.state == InstallState::Installed,
        );
    }
    rows::select_rows(stdout, installed_row, Ghost(|line: Seq<char>| installed_row_spec(line)))
}

/// The last easyconfig of that name, which is the newest.
pub open spec fn newest_spec(packages: Seq<PackageView>, name: Seq<char>) -> Option<PackageView> {
    rows::last(packages, |p: PackageView| p.name == name)
}

pub fn newest(packages: Vec<EasybuildPackage>, name: &str) -> (r: Option<EasybuildPackage>)
    ensures
        r.deep() == newest_spec(packages@.deep(), name@),
{
    let same = |p: &EasybuildPackage| -> (b: bool)
        ensures
            b == (p@.name == name@),
        { text::equal(&p.name, name) };
    rows::take_last(packages, same, Ghost(|p: PackageView| p.name == name@))
}

/// An easyconfig, marked if the software is installed.
pub open spec fn merge_spec(package: PackageView, installed: Seq<PackageView>) -> PackageView {
    if session::called(installed, package.name) is Some {
        PackageView { state: InstallState::Installed, ..package }
    } else {
        package
    }
}

pub fn merge(package: EasybuildPackage, installed: Vec<EasybuildPackage>) -> (r: EasybuildPackage)
    ensures
        r@ == merge_spec(package@, installed@.deep()),
{
    if session::find_called(&installed, &package.name).is_some() {
        EasybuildPackage { state: InstallState::Installed, ..package }
    } else {
        package
    }
}

impl Manager {
    pub fn install(&self, packages: &[PackageRequest], ctx: &OpContext) -> (r: Plan)
        ensures
            command::plan(r) == match reject_pins_spec(packages@.deep()) {
                Err(error) => Err(error),
                Ok(_) => command::just(
                    CmdView::new(self.program@).args(
                        packages@.deep().map_values(|q: RequestView| easyconfig_spec(q.name)),
                    ).arg("--robot"@).flag(ctx.dry_run, "--dry-run"@),
                ),
            },
            command::all_elevated(command::plan(r), false),
            ctx.dry_run ==> command::all_carry(command::plan(r), "--dry-run"@),
            request::first_pin(packages@.deep()) is Some ==> r is Err,
            command::plan(r) == match (
                match request::first_pin(packages@.deep()) {
                    None => Ok(()),
                    Some(pinned) => Err(
                        ErrorView::Other(
                            "easybuild: `"@ + pinned.written() + "` pins a version, but eb installs by easyconfig name (try `"@ + pinned.pinned("-"@) + "`)"@,
                        ),
                    ),
                }
            ) {
                Err(error) => Err(error),
                Ok(_) => command::just(
                    CmdView::new(self.program@).args(
                        packages@.deep().map_values(|q: RequestView| easyconfig_spec(q.name)),
                    ).arg("--robot"@).flag(ctx.dry_run, "--dry-run"@),
                ),
            },
    {
        if let Err(error) = reject_pins(packages) {
            return Err(error);
        }
        let file = |q: &PackageRequest| -> (s: String)
            ensures
                s@ == easyconfig_spec(q@.name),
            { easyconfig(&q.name) };
        Ok(
            command::one(
                Cmd::new(&self.program).each(
                    packages,
                    file,
                    Ghost(|q: RequestView| easyconfig_spec(q.name)),
                ).arg("--robot").flag(ctx.dry_run, "--dry-run"),
            ),
        )
    }

    /// Nothing uninstalls.
    pub fn remove(&self, packages: &[PackageRequest], ctx: &OpContext) -> (r: Plan)
        ensures
            command::plan(r) == Err::<Seq<CmdView>, ErrorView>(
                ErrorView::Unsupported { manager: "easybuild"@, operation: Operation::Remove },
            ),
    {
        Err(error::unsupported("easybuild", Operation::Remove))
    }

    pub fn list_installed(&self, replies: &[Reply]) -> (r: Step<Listing<EasybuildPackage>>)
        ensures
            r@ == session::listed(
                CmdView::query(self.program@).arg("--list-installed-software"@),
                replies@.deep(),
                |out: Seq<char>| parse_installed_spec(out),
            ),
            r@.only_looks(),
            r@.in_c_locale(),
    {
        session::list(
            Cmd::query(&self.program).arg("--list-installed-software"),
            replies,
            parse_installed,
            Ghost(|out: Seq<char>| parse_installed_spec(out)),
        )
    }

    pub fn search(&self, query: &str, replies: &[Reply]) -> (r: Step<Listing<EasybuildPackage>>)
        ensures
            r@ == session::listed(
                CmdView::query(self.program@).arg("--search"@).arg(query@),
                replies@.deep(),
                |out: Seq<char>| parse_search_spec(out),
            ),
            r@.only_looks(),
            r@.in_c_locale(),
    {
        session::list(
            Cmd::query(&self.program).arg("--search").arg(query),
            replies,
            parse_search,
            Ghost(|out: Seq<char>| parse_search_spec(out)),
        )
    }

    /// The newest easyconfig, and whether anything was built from it.
    pub open spec fn info_spec(self, name: Seq<char>, replies: Seq<ReplyView>) -> StepView<
        PackageView,
    > {
        if replies.len() == 0 {
            session::ask(CmdView::query(self.program@).arg("--search"@).arg(name))
        } else if !replies[0].success {
            StepView::Fail(ErrorView::NotFound(name))
        } else {
            match newest_spec(parse_search_spec(replies[0].stdout), name) {
                None => StepView::Fail(ErrorView::NotFound(name)),
                Some(package) => if replies.len() == 1 {
                    session::ask(
                        CmdView::query(self.program@).arg("--list-installed-software"@),
                    )
                } else if replies[1].success {
                    StepView::Done(
                        merge_spec(package, parse_installed_spec(replies[1].stdout)),
                    )
                } else {
                    StepView::Done(package)
                },
            }
        }
    }

    pub fn info(&self, name: &str, replies: &[Reply]) -> (r: Step<EasybuildPackage>)
        ensures
            r@ == self.info_spec(name@, replies@.deep()),
            r@.only_looks(),
            r@.in_c_locale(),
    {
        if replies.len() == 0 {
            return session::query(Cmd::query(&self.program).arg("--search").arg(name));
        }
        assert(replies@.deep()[0] == replies@[0]@);
        if !replies[0].success {
            return Step::Fail(error::not_found(name));
        }
        let package = match newest(parse_search(&replies[0].stdout), name) {
            None => {
                return Step::Fail(error::not_found(name));
            },
            Some(package) => package,
        };
        if replies.len() == 1 {
            return session::query(
                Cmd::query(&self.program).arg("--list-installed-software"),
            );
        }
        assert(replies@.deep()[1] == replies@[1]@);
        if replies[1].success {
            Step::Done(merge(package, parse_installed(&replies[1].stdout)))
        } else {
            Step::Done(package)
        }
    }
}

} // verus!
