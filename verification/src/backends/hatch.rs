//! Hatch's Python distributions.
//!
//! Hatch looks after projects and has no command that installs a package.
//! What it installs for a user is distributions of Python, so the packages
//! here are `3.12` or `pypy3.10`. Its tables are drawn with lines, which are
//! read with colours switched off. No command has a dry run.

use vstd::prelude::*;

use crate::command::{self, Cmd, CmdView, Plan};
use crate::detect::{self, Detection};
use crate::error::{self, Error, ErrorView};
use crate::package::{Details, InstallState, Package, PackageView};
use crate::profile::{basic_capabilities, Capabilities, ManagerKind, Profile};
use crate::request::{self, OpContext, PackageRequest, RequestView};
use crate::rows::{self, Scanner};
use crate::session::{self, Listing, Reply, Step, StepView};
use crate::text::{self, chars, Deep, Text};

verus! {

/// Finds the manager and sets it up.
#[derive(Clone, Copy, Debug)]
pub struct Factory;

/// The factory of this backend.
pub fn factory() -> (r: Factory)
    ensures
        r == Factory,
{
    Factory
}

impl Factory {
    pub fn id(&self) -> (r: &'static str)
        ensures
            r@ == "hatch"@,
    {
        "hatch"
    }

    /// The programs to look for, in the order of preference.
    pub fn programs(&self) -> (r: Vec<&'static str>)
        ensures
            r@.deep() == seq!["hatch"@],
    {
        let mut out: Vec<&'static str> = Vec::new();
        out.push("hatch");
        assert(out@.deep() =~= seq!["hatch"@]);
        out
    }

    /// Whether the backend can be used, given where each program was found.
    pub fn detect(&self, found: &[Option<String>]) -> (r: Detection)
        ensures
            r@ == detect::detected(found@, "`hatch` not found on PATH"@),
    {
        detect::detect(found, "`hatch` not found on PATH")
    }

    /// The manager, given where each program was found.
    pub fn create(&self, found: &[Option<String>]) -> (r: Result<Manager, Error>)
        ensures
            match r {
                Ok(manager) => detect::required(found@, "hatch"@) == Ok::<Seq<char>, ErrorView>(
                    manager.program@,
                ),
                Err(error) => detect::required(found@, "hatch"@) == Err::<Seq<char>, ErrorView>(
                    error@,
                ),
            },
    {
        match detect::require(found, "hatch") {
            Ok(program) => Ok(Manager { program }),
            Err(error) => Err(error),
        }
    }
}

/// The manager, driving `program`.
#[derive(Debug)]
pub struct Manager {
    pub program: String,
}

impl Manager {
    /// What the manager says of itself.
    pub fn profile(&self) -> (r: Profile)
        ensures
            r.id@ == "hatch"@,
            r.display_name@ == "Hatch"@,
            r.kind == ManagerKind::Language,
            r.database_id@ == "python"@,
            r.capabilities == (Capabilities { upgrade: true, ..Capabilities::basic() }),
            r.elevates == false,
    {
        Profile {
            id: "hatch",
            display_name: "Hatch",
            kind: ManagerKind::Language,
            database_id: "python",
            capabilities: Capabilities { upgrade: true, ..basic_capabilities() },
            elevates: false,
        }
    }
}

/// A distribution as `hatch python show` describes it.
#[derive(Debug)]
pub struct HatchPackage {
    pub name: String,
    pub version: Option<String>,
    pub state: InstallState,
}

impl View for HatchPackage {
    type V = PackageView;

    open spec fn view(&self) -> PackageView {
        PackageView {
            name: self.name@,
            version: self.version.deep(),
            state: self.state,
            ..PackageView::blank()
        }
    }
}

impl Default for HatchPackage {
    fn default() -> (r: HatchPackage)
        ensures
            r@ == PackageView::blank(),
    {
        HatchPackage {
            name: String::new(),
            version: None,
            state: InstallState::Unknown,
        }
    }
}

impl Package for HatchPackage {
    open spec fn manager_id() -> Seq<char> {
        "hatch"@
    }

    fn manager(&self) -> (r: &'static str) {
        "hatch"
    }

    fn details(&self) -> (r: Details<'_>) {
        Details {
            version: self.version.as_ref(),
            ..Details::of(&self.name, self.state)
        }
    }
}

/// The name of a distribution stands for one build.
pub open spec fn reject_pins_spec(requests: Seq<RequestView>) -> Result<(), ErrorView> {
    request::pins_refused(
        requests,
        "hatch: `"@,
        "` pins a version, but `hatch python` always installs the current build of a distribution"@,
    )
}

pub fn reject_pins(requests: &[PackageRequest]) -> (r: Result<(), Error>)
    ensures
        error::outcome(r) == reject_pins_spec(requests@.deep()),
{
    request::refuse_pins(
        requests,
        "hatch: `",
        "` pins a version, but `hatch python` always installs the current build of a distribution",
    )
}

/// A cell of a table, without the blanks around it.
pub open spec fn cell_spec(cell: Seq<char>) -> Option<Seq<char>> {
    cell.trim().filled()
}

fn cell(text: &[char]) -> (r: Option<String>)
    ensures
        r.deep() == cell_spec(text@),
{
    text::maybe_string(text::filled(text::trim(text)))
}

/// The reading of `hatch python show`.
struct ShowScan {
    packages: Vec<HatchPackage>,
    state: InstallState,
}

/// The model of the reading of `hatch python show`.
pub struct ShowScanView {
    pub packages: Seq<PackageView>,
    pub state: InstallState,
}

impl ShowScanView {
    pub open spec fn start() -> ShowScanView {
        ShowScanView {
            packages: seq![],
            state: InstallState::Unknown,
        }
    }
}

/// A row of a table: a name and a version. Borders and headings have no
/// version.
pub open spec fn show_row_spec(line: Seq<char>, state: InstallState) -> Option<PackageView> {
    let cells = rows::select(line.split("│┃|"@), |cell: Seq<char>| cell_spec(cell));
    if cells.len() < 2 || state == InstallState::Unknown || !cells[1].begins_digit() {
        None
    } else {
        Some(PackageView::versioned(cells[0], Some(cells[1]), state))
    }
}

fn show_row(line: &[char], state: InstallState) -> (r: Option<HatchPackage>)
    ensures
        r.deep() == show_row_spec(line@, state),
{
    let mut cells: Vec<String> = rows::select_lines(
        &text::split(line, "│┃|"),
        cell,
        Ghost(|cell: Seq<char>| cell_spec(cell)),
    );
    let ghost all = cells@.deep();
    if cells.len() < 2 {
        return None;
    }
    assert(all[0] == cells@[0]@ && all[1] == cells@[1]@);
    if state == InstallState::Unknown || !text::begins_digit(&chars(&cells[1])) {
        return None;
    }
    Some(
        HatchPackage {
            name: text::copy(&cells[0]),
            version: Some(text::copy(&cells[1])),
            state,
        },
    )
}

/// The reading of `hatch python show` after one more line: a title tells
/// which table follows.
pub open spec fn show_next_spec(state: ShowScanView, line: Seq<char>) -> ShowScanView {
    let text = line.trim();
    if text == "Installed"@ {
        ShowScanView { state: InstallState::Installed, ..state }
    } else if text == "Available"@ {
        ShowScanView { state: InstallState::Available, ..state }
    } else {
        ShowScanView {
            packages: rows::added(state.packages, show_row_spec(text, state.state)),
            ..state
        }
    }
}

impl Scanner for ShowScan {
    type State = ShowScanView;

    closed spec fn state(&self) -> ShowScanView {
        ShowScanView {
            packages: self.packages@.deep(),
            state: self.state,
        }
    }

    open spec fn next(state: ShowScanView, line: Seq<char>) -> ShowScanView {
        show_next_spec(state, line)
    }

    fn feed(&mut self, line: &[char]) {
        let text = text::trim(line);
        if text::is(text, "Installed") {
            self.state = InstallState::Installed;
        } else if text::is(text, "Available") {
            self.state = InstallState::Available;
        } else {
            rows::push_some(&mut self.packages, show_row(text, self.state));
        }
    }
}

/// The distributions in the tables that `hatch python show` prints.
pub open spec fn parse_python_show_spec(stdout: Seq<char>) -> Seq<PackageView> {
    rows::scan(
        ShowScanView::start(),
        stdout.lines(),
        |state: ShowScanView, line: Seq<char>| show_next_spec(state, line),
    ).packages
}

pub fn parse_python_show(stdout: &str) -> (r: Vec<HatchPackage>)
    ensures
        r@.deep() == parse_python_show_spec(stdout@),
{
    let start = ShowScan {
        packages: Vec::new(),
        state: InstallState::Unknown,
    };
    assert(start.packages@.deep() =~= seq![]);
    rows::scan_output(
        start,
        stdout,
        Ghost(|state: ShowScanView, line: Seq<char>| show_next_spec(state, line)),
    ).packages
}

/// The installed ones among distributions.
pub open spec fn installed_spec(packages: Seq<PackageView>) -> Seq<PackageView> {
    rows::keep(packages, |p: PackageView| p.state == InstallState::Installed)
}

pub fn installed(packages: Vec<HatchPackage>) -> (r: Vec<HatchPackage>)
    ensures
        r@.deep() == installed_spec(packages@.deep()),
{
    let is_installed = |p: &HatchPackage| -> (b: bool)
        ensures
            b == (p@.state == InstallState::Installed),
        { p.state == InstallState::Installed };
    rows::retain(
        packages,
        is_installed,
        Ghost(|p: PackageView| p.state == InstallState::Installed),
    )
}

/// The distribution of a name, the installed one if there is one.
pub open spec fn choice_spec(packages: Seq<PackageView>, name: Seq<char>) -> Option<PackageView> {
    match rows::first(
        packages,
        |p: PackageView| p.name == name && p.state == InstallState::Installed,
    ) {
        Some(package) => Some(package),
        None => session::called(packages, name),
    }
}

pub fn choice(packages: Vec<HatchPackage>, name: &str) -> (r: Option<HatchPackage>)
    ensures
        r.deep() == choice_spec(packages@.deep(), name@),
{
    let ghost both = |p: PackageView| p.name == name@ && p.state == InstallState::Installed;
    let fits = |p: &HatchPackage| -> (b: bool)
        ensures
            b == (p@.name == name@ && p@.state == InstallState::Installed),
        { text::equal(&p.name, name) && p.state == InstallState::Installed };
    proof {
        rows::lemma_index_is_first(packages@.deep(), both);
    }
    match rows::position(&packages, fits, Ghost(both)) {
        Some(i) => {
            assert(packages@.deep()[i as int] == packages@[i as int]@);
            let mut packages = packages;
            Some(packages.swap_remove(i))
        },
        None => session::take_called(packages, name),
    }
}

impl Manager {
    /// A query whose tables come without colours.
    pub open spec fn query_spec(self) -> CmdView {
        CmdView::query(self.program@).env("NO_COLOR"@, "1"@)
    }

    fn query(&self) -> (r: Cmd)
        ensures
            r@ == self.query_spec(),
    {
        Cmd::query(&self.program).env("NO_COLOR", "1")
    }

    /// One distribution at a time.
    pub fn install(&self, packages: &[PackageRequest], ctx: &OpContext) -> (r: Plan)
        ensures
            command::plan(r) == match reject_pins_spec(packages@.deep()) {
                Err(error) => Err(error),
                Ok(_) => if ctx.dry_run {
                    Err(ErrorView::Other("hatch: install has no dry-run mode"@))
                } else {
                    Ok(
                        packages@.deep().map_values(
                            |q: RequestView|
                                CmdView::new(self.program@).arg("python"@).arg("install"@).arg(
                                    q.name,
                                ),
                        ),
                    )
                },
            },
            command::all_elevated(command::plan(r), false),
            ctx.dry_run ==> r is Err,
            request::first_pin(packages@.deep()) is Some ==> r is Err,
            command::plan(r) == match (
                request::pins_refused(
                    packages@.deep(),
                    "hatch: `"@,
                    "` pins a version, but `hatch python` always installs the current build of a distribution"@,
                )
            ) {
                Err(error) => Err(error),
                Ok(_) => if ctx.dry_run {
                    Err(ErrorView::Other("hatch: install has no dry-run mode"@))
                } else {
                    Ok(
                        packages@.deep().map_values(
                            |q: RequestView| CmdView::new(
                                self.program@,
                            ).arg("python"@).arg("install"@).arg(q.name),
                        ),
                    )
                },
            },
    {
        if let Err(error) = reject_pins(packages) {
            return Err(error);
        }
        if ctx.dry_run {
            return Err(error::other("hatch: install has no dry-run mode"));
        }
        let install = |q: &PackageRequest| -> (c: Cmd)
            ensures
                c@ == CmdView::new(self.program@).arg("python"@).arg("install"@).arg(q@.name),
            { Cmd::new(&self.program).arg("python").arg("install").arg(&q.name) };
        Ok(
            command::one_each(
                packages,
                install,
                Ghost(
                    |q: RequestView|
                        CmdView::new(self.program@).arg("python"@).arg("install"@).arg(q.name),
                ),
            ),
        )
    }

    /// One distribution at a time.
    pub fn remove(&self, packages: &[PackageRequest], ctx: &OpContext) -> (r: Plan)
        ensures
            command::plan(r) == if ctx.dry_run {
                Err(ErrorView::Other("hatch: remove has no dry-run mode"@))
            } else {
                Ok(
                    packages@.deep().map_values(
                        |q: RequestView|
                            CmdView::new(self.program@).arg("python"@).arg("remove"@).arg(q.name),
                    ),
                )
            },
            command::all_elevated(command::plan(r), false),
            ctx.dry_run ==> r is Err,
    {
        if ctx.dry_run {
            return Err(error::other("hatch: remove has no dry-run mode"));
        }
        let remove = |q: &PackageRequest| -> (c: Cmd)
            ensures
                c@ == CmdView::new(self.program@).arg("python"@).arg("remove"@).arg(q@.name),
            { Cmd::new(&self.program).arg("python").arg("remove").arg(&q.name) };
        Ok(
            command::one_each(
                packages,
                remove,
                Ghost(
                    |q: RequestView|
                        CmdView::new(self.program@).arg("python"@).arg("remove"@).arg(q.name),
                ),
            ),
        )
    }

    /// Without names all distributions are upgraded.
    pub fn upgrade(&self, packages: &[PackageRequest], ctx: &OpContext) -> (r: Plan)
        ensures
            command::plan(r) == match reject_pins_spec(packages@.deep()) {
                Err(error) => Err(error),
                Ok(_) => if ctx.dry_run {
                    Err(ErrorView::Other("hatch: upgrade has no dry-run mode"@))
                } else {
                    let update = CmdView::new(self.program@).arg("python"@).arg("update"@);
                    command::just(
                        if packages@.len() == 0 {
                            update.arg("all"@)
                        } else {
                            update.names(packages@.deep())
                        },
                    )
                },
            },
            command::all_elevated(command::plan(r), false),
            ctx.dry_run ==> r is Err,
            request::first_pin(packages@.deep()) is Some ==> r is Err,
            command::plan(r) == match (
                request::pins_refused(
                    packages@.deep(),
                    "hatch: `"@,
                    "` pins a version, but `hatch python` always installs the current build of a distribution"@,
                )
            ) {
                Err(error) => Err(error),
                Ok(_) => if ctx.dry_run {
                    Err(ErrorView::Other("hatch: upgrade has no dry-run mode"@))
                } else {
                    let update = CmdView::new(self.program@).arg("python"@).arg("update"@);
                    command::just(
                        if packages@.len() == 0 { update.arg("all"@) } else {
                            update.names(packages@.deep())
                        },
                    )
                },
            },
    {
        if let Err(error) = reject_pins(packages) {
            return Err(error);
        }
        if ctx.dry_run {
            return Err(error::other("hatch: upgrade has no dry-run mode"));
        }
        let update = Cmd::new(&self.program).arg("python").arg("update");
        if packages.len() == 0 {
            Ok(command::one(update.arg("all")))
        } else {
            Ok(command::one(update.names(packages)))
        }
    }

    pub fn list_installed(&self, replies: &[Reply]) -> (r: Step<Listing<HatchPackage>>)
        ensures
            r@ == session::listed(
                self.query_spec().arg("python"@).arg("show"@),
                replies@.deep(),
                |out: Seq<char>| installed_spec(parse_python_show_spec(out)),
            ),
            r@.only_looks(),
            r@.in_c_locale(),
            r@ == session::listed(
                CmdView::query(self.program@).env("NO_COLOR"@, "1"@).arg("python"@).arg("show"@),
                replies@.deep(),
                |out: Seq<char>| installed_spec(parse_python_show_spec(out)),
            ),
    {
        let show = |out: &str| -> (v: Vec<HatchPackage>)
            ensures
                v@.deep() == installed_spec(parse_python_show_spec(out@)),
            { installed(parse_python_show(out)) };
        session::list(
            self.query().arg("python").arg("show"),
            replies,
            show,
            Ghost(|out: Seq<char>| installed_spec(parse_python_show_spec(out))),
        )
    }

    pub fn info(&self, name: &str, replies: &[Reply]) -> (r: Step<HatchPackage>)
        ensures
            r@ == (if replies@.len() == 0 {
                session::ask(self.query_spec().arg("python"@).arg("show"@))
            } else if !replies@[0].success {
                StepView::Fail(replies@[0]@.failure())
            } else {
                session::found(
                    choice_spec(parse_python_show_spec(replies@[0].stdout@), name@),
                    name@,
                )
            }),
            r@.only_looks(),
            r@.in_c_locale(),
            r@ == (
                if replies@.len() == 0 {
                    session::ask(
                        CmdView::query(self.program@).env(
                            "NO_COLOR"@,
                            "1"@,
                        ).arg("python"@).arg("show"@),
                    )
                } else if !replies@[0].success { StepView::Fail(replies@[0]@.failure()) } else {
                    session::found(
                        choice_spec(parse_python_show_spec(replies@[0].stdout@), name@),
                        name@,
                    )
                }
            ),
    {
        if replies.len() == 0 {
            return session::query(self.query().arg("python").arg("show"));
        }
        if !replies[0].success {
            return Step::Fail(replies[0].failure());
        }
        session::find(choice(parse_python_show(&replies[0].stdout), name), name)
    }
}

} // verus!
