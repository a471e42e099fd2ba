//! Perl's CPAN client.
//!
//! `cpan` installs, searches and tells what is outdated; the inventory of
//! installed modules is read, and modules are removed, by `perl` itself. The
//! client has no dry run, and no version can be asked for.

use vstd::prelude::*;

use crate::command::{self, Cmd, CmdView, Plan};
use crate::detect::{Detection, DetectionView};
use crate::error::{self, Error, ErrorView};
use crate::package::{Details, InstallState, Package, PackageView};
use crate::profile::{basic_capabilities, Capabilities, ManagerKind, Profile};
use crate::request::{self, OpContext, PackageRequest, RequestView};
use crate::rows::{self, Scanner};
use crate::session::{self, Listing, Reply, ReplyView, Step, StepView};
use crate::text::{self, chars, Deep, Pieces, Text};

verus! {

broadcast use command::group_carries;

impl Manager {
    /// What the manager says of itself.
    pub fn profile(&self) -> (r: Profile)
        ensures
            r.id@ == "cpan"@,
            r.display_name@ == "CPAN"@,
            r.kind == ManagerKind::Language,
            r.database_id@ == "cpan"@,
            r.capabilities == (Capabilities {
                search: true,
                upgrade: true,
                list_outdated: true,
                ..Capabilities::basic()
            }),
            r.elevates == false,
    {
        Profile {
            id: "cpan",
            display_name: "CPAN",
            kind: ManagerKind::Language,
            database_id: "cpan",
            capabilities: Capabilities {
                search: true,
                upgrade: true,
                list_outdated: true,
                ..basic_capabilities()
            },
            elevates: false,
        }
    }
}

/// Finds the manager and sets it up.
#[derive(Clone, Copy, Debug)]
pub struct Factory;

/// The factory of this backend.
pub fn factory() -> (r: Factory)
    ensures
        r == Factory,
{
    Factory
}

impl Factory {
    pub fn id(&self) -> (r: &'static str)
        ensures
            r@ == "cpan"@,
    {
        "cpan"
    }

    /// The programs to look for: the client, then the interpreter.
    pub fn programs(&self) -> (r: Vec<&'static str>)
        ensures
            r@.deep() == seq!["cpan"@, "perl"@],
    {
        let mut out: Vec<&'static str> = Vec::new();
        out.push("cpan");
        out.push("perl");
        assert(out@.deep() =~= seq!["cpan"@, "perl"@]);
        out
    }

    /// Whether the backend can be used: the client decides.
    pub fn detect(&self, cpan: Option<String>) -> (r: Detection)
        ensures
            r@ == match cpan {
                Some(program) => DetectionView::Available { program: program@ },
                None => DetectionView::Unavailable { reason: "`cpan` not found on PATH"@ },
            },
    {
        match cpan {
            Some(program) => Detection::Available { program },
            None => Detection::Unavailable { reason: text::copy("`cpan` not found on PATH") },
        }
    }

    /// The manager, which needs both programs.
    pub fn create(&self, cpan: Option<String>, perl: Option<String>) -> (r: Result<
        Manager,
        Error,
    >)
        ensures
            match (cpan, perl) {
                (Some(program), Some(interpreter)) => r matches Ok(manager) && manager.program
                    == program && manager.perl == interpreter,
                (None, _) => r matches Err(error) && error@ == ErrorView::Unavailable("cpan"@),
                (Some(_), None) => r matches Err(error) && error@ == ErrorView::Unavailable(
                    "cpan: `perl` not found on PATH"@,
                ),
            },
    {
        match (cpan, perl) {
            (Some(program), Some(perl)) => Ok(Manager { program, perl }),
            (None, _) => Err(Error::Unavailable(text::copy("cpan"))),
            (Some(_), None) => Err(
                Error::Unavailable(text::copy("cpan: `perl` not found on PATH")),
            ),
        }
    }
}

/// The manager, driving `program`, and `perl` for what is installed.
#[derive(Debug)]
pub struct Manager {
    pub program: String,
    pub perl: String,
}

/// A module as the CPAN client describes it.
#[derive(Debug)]
pub struct CpanPackage {
    pub name: String,
    pub version: Option<String>,
    pub latest_version: Option<String>,
    pub description: Option<String>,
    pub state: InstallState,
}

impl View for CpanPackage {
    type V = PackageView;

    open spec fn view(&self) -> PackageView {
        PackageView {
            name: self.name@,
            version: self.version.deep(),
            latest_version: self.latest_version.deep(),
            description: self.description.deep(),
            state: self.state,
            ..PackageView::blank()
        }
    }
}

impl Default for CpanPackage {
    fn default() -> (r: CpanPackage)
        ensures
            r@ == PackageView::blank(),
    {
        CpanPackage {
            name: String::new(),
            version: None,
            latest_version: None,
            description: None,
            state: InstallState::Unknown,
        }
    }
}

impl Package for CpanPackage {
    open spec fn manager_id() -> Seq<char> {
        "cpan"@
    }

    fn manager(&self) -> (r: &'static str) {
        "cpan"
    }

    fn details(&self) -> (r: Details<'_>) {
        Details {
            version: self.version.as_ref(),
            latest_version: self.latest_version.as_ref(),
            description: self.description.as_ref(),
            ..Details::of(&self.name, self.state)
        }
    }
}

/// The client always installs the newest version.
pub open spec fn reject_pins_spec(requests: Seq<RequestView>) -> Result<(), ErrorView> {
    request::pins_refused(
        requests,
        "cpan: `"@,
        "` cannot be pinned by the cpan client"@,
    )
}

pub fn reject_pins(requests: &[PackageRequest]) -> (r: Result<(), Error>)
    ensures
        error::outcome(r) == reject_pins_spec(requests@.deep()),
{
    request::refuse_pins(
        requests,
        "cpan: `",
        "` cannot be pinned by the cpan client",
    )
}

impl Manager {
    /// The client, told not to ask.
    pub open spec fn cmd_spec(self) -> CmdView {
        CmdView::new(self.program@).env("PERL_MM_USE_DEFAULT"@, "1"@).env(
            "NONINTERACTIVE_TESTING"@,
            "1"@,
        ).env("LC_ALL"@, "C"@)
    }

    fn cmd(&self) -> (r: Cmd)
        ensures
            r@ == self.cmd_spec(),
    {
        Cmd::new(&self.program).env("PERL_MM_USE_DEFAULT", "1").env(
            "NONINTERACTIVE_TESTING",
            "1",
        ).env("LC_ALL", "C")
    }

    /// The interpreter, running a script.
    pub open spec fn perl_spec(self, script: Seq<char>) -> CmdView {
        CmdView::new(self.perl@).arg("-MExtUtils::Installed"@).arg("-e"@).arg(script).arg("--"@)
    }

    fn perl(&self, script: &str) -> (r: Cmd)
        ensures
            r@ == self.perl_spec(script@),
    {
        Cmd::new(&self.perl).arg("-MExtUtils::Installed").arg("-e").arg(script).arg("--")
    }

    /// What prints the installed modules, `name<TAB>version` each.
    pub open spec fn installed_spec(self) -> CmdView {
        self.perl_spec(
            "$i=ExtUtils::Installed->new(skip_cwd=>1);for $m(sort grep{$_ ne 'Perl'}$i->modules){$v=eval{$i->version($m)}//' ';$v=~s/[\\t\\r\\n]/ /g;print \"$m\\t$v\\n\"}"@,
        )
    }

    fn installed(&self) -> (r: Cmd)
        ensures
            r@ == self.installed_spec(),
    {
        self.perl(
            "$i=ExtUtils::Installed->new(skip_cwd=>1);for $m(sort grep{$_ ne 'Perl'}$i->modules){$v=eval{$i->version($m)}//' ';$v=~s/[\\t\\r\\n]/ /g;print \"$m\\t$v\\n\"}",
        )
    }

    pub fn install(&self, packages: &[PackageRequest], ctx: &OpContext) -> (r: Plan)
        ensures
            command::plan(r) == match reject_pins_spec(packages@.deep()) {
                Err(error) => Err(error),
                Ok(_) => if ctx.dry_run {
                    Err(ErrorView::Other("cpan: install has no dry-run mode"@))
                } else {
                    command::just(self.cmd_spec().arg("-i"@).names(packages@.deep()))
                },
            },
            command::all_elevated(command::plan(r), false),
            ctx.dry_run ==> r is Err,
            request::first_pin(packages@.deep()) is Some ==> r is Err,
            command::plan(r) == match (
                request::pins_refused(
                    packages@.deep(),
                    "cpan: `"@,
                    "` cannot be pinned by the cpan client"@,
                )
            ) {
                Err(error) => Err(error),
                Ok(_) => if ctx.dry_run {
                    Err(ErrorView::Other("cpan: install has no dry-run mode"@))
                } else {
                    command::just(
                        CmdView::new(self.program@).env("PERL_MM_USE_DEFAULT"@, "1"@).env(
                            "NONINTERACTIVE_TESTING"@,
                            "1"@,
                        ).env("LC_ALL"@, "C"@).arg("-i"@).names(packages@.deep()),
                    )
                },
            },
    {
        if let Err(error) = reject_pins(packages) {
            return Err(error);
        }
        if ctx.dry_run {
            return Err(error::other("cpan: install has no dry-run mode"));
        }
        Ok(command::one(self.cmd().arg("-i").names(packages)))
    }

    /// The files of a module are known from its packing list; the script
    /// takes a dry run from a variable.
    pub fn remove(&self, packages: &[PackageRequest], ctx: &OpContext) -> (r: Plan)
        ensures
            command::plan(r) == match reject_pins_spec(packages@.deep()) {
                Err(error) => Err(error),
                Ok(_) => command::just(
                    self.perl_spec(
                        "use ExtUtils::Install; $i=ExtUtils::Installed->new(skip_cwd=>1);for $m(@ARGV){$p=$i->packlist($m)->packlist_file;ExtUtils::Install::uninstall($p,1,$ENV{SNOWCONE_DRY_RUN}?1:0)}"@,
                    ).env(
                        "SNOWCONE_DRY_RUN"@,
                        if ctx.dry_run {
                            "1"@
                        } else {
                            ""@
                        },
                    ).names(packages@.deep()),
                ),
            },
            command::all_elevated(command::plan(r), false),
            ctx.dry_run ==> command::all_set(command::plan(r), "SNOWCONE_DRY_RUN"@, "1"@),
            command::plan(r) == match (
                request::pins_refused(
                    packages@.deep(),
                    "cpan: `"@,
                    "` cannot be pinned by the cpan client"@,
                )
            ) {
                Err(error) => Err(error),
                Ok(_) => command::just(
                    CmdView::new(self.perl@).arg("-MExtUtils::Installed"@).arg("-e"@).arg(
                        "use ExtUtils::Install; $i=ExtUtils::Installed->new(skip_cwd=>1);for $m(@ARGV){$p=$i->packlist($m)->packlist_file;ExtUtils::Install::uninstall($p,1,$ENV{SNOWCONE_DRY_RUN}?1:0)}"@,
                    ).arg("--"@).env(
                        "SNOWCONE_DRY_RUN"@,
                        if ctx.dry_run { "1"@ } else { ""@ },
                    ).names(packages@.deep()),
                ),
            },
    {
        if let Err(error) = reject_pins(packages) {
            return Err(error);
        }
        Ok(
            command::one(
                self.perl(
                    "use ExtUtils::Install; $i=ExtUtils::Installed->new(skip_cwd=>1);for $m(@ARGV){$p=$i->packlist($m)->packlist_file;ExtUtils::Install::uninstall($p,1,$ENV{SNOWCONE_DRY_RUN}?1:0)}",
                ).env(
                    "SNOWCONE_DRY_RUN",
                    if ctx.dry_run {
                        "1"
                    } else {
                        ""
                    },
                ).names(packages),
            ),
        )
    }

    pub fn upgrade(&self, packages: &[PackageRequest], ctx: &OpContext) -> (r: Plan)
        ensures
            command::plan(r) == match reject_pins_spec(packages@.deep()) {
                Err(error) => Err(error),
                Ok(_) => if ctx.dry_run {
                    Err(ErrorView::Other("cpan: upgrade has no dry-run mode"@))
                } else if packages@.len() == 0 {
                    command::just(self.cmd_spec().arg("-u"@))
                } else {
                    command::just(self.cmd_spec().arg("-i"@).names(packages@.deep()))
                },
            },
            command::all_elevated(command::plan(r), false),
            ctx.dry_run ==> r is Err,
            request::first_pin(packages@.deep()) is Some ==> r is Err,
            command::plan(r) == match (
                request::pins_refused(
                    packages@.deep(),
                    "cpan: `"@,
                    "` cannot be pinned by the cpan client"@,
                )
            ) {
                Err(error) => Err(error),
                Ok(_) => if ctx.dry_run {
                    Err(ErrorView::Other("cpan: upgrade has no dry-run mode"@))
                } else if packages@.len() == 0 {
                    command::just(
                        CmdView::new(self.program@).env("PERL_MM_USE_DEFAULT"@, "1"@).env(
                            "NONINTERACTIVE_TESTING"@,
                            "1"@,
                        ).env("LC_ALL"@, "C"@).arg("-u"@),
                    )
                } else {
                    command::just(
                        CmdView::new(self.program@).env("PERL_MM_USE_DEFAULT"@, "1"@).env(
                            "NONINTERACTIVE_TESTING"@,
                            "1"@,
                        ).env("LC_ALL"@, "C"@).arg("-i"@).names(packages@.deep()),
                    )
                },
            },
    {
        if let Err(error) = reject_pins(packages) {
            return Err(error);
        }
        if ctx.dry_run {
            return Err(error::other("cpan: upgrade has no dry-run mode"));
        }
        if packages.len() == 0 {
            Ok(command::one(self.cmd().arg("-u")))
        } else {
            Ok(command::one(self.cmd().arg("-i").names(packages)))
        }
    }

    pub fn list_installed(&self, replies: &[Reply]) -> (r: Step<Listing<CpanPackage>>)
        ensures
            r@ == session::listed(
                self.installed_spec(),
                replies@.deep(),
                |out: Seq<char>| parse_installed_spec(out),
            ),
            r@.only_looks(),
            r@ == session::listed(
                (
                    CmdView::new(self.perl@).arg("-MExtUtils::Installed"@).arg("-e"@).arg(
                        "$i=ExtUtils::Installed->new(skip_cwd=>1);for $m(sort grep{$_ ne 'Perl'}$i->modules){$v=eval{$i->version($m)}//' ';$v=~s/[\\t\\r\\n]/ /g;print \"$m\\t$v\\n\"}"@,
                    ).arg("--"@)
                ),
                replies@.deep(),
                |out: Seq<char>| parse_installed_spec(out),
            ),
    {
        session::list(
            self.installed(),
            replies,
            parse_installed,
            Ghost(|out: Seq<char>| parse_installed_spec(out)),
        )
    }

    pub fn list_outdated(&self, replies: &[Reply]) -> (r: Step<Listing<CpanPackage>>)
        ensures
            r@ == session::listed(
                self.cmd_spec().arg("-O"@),
                replies@.deep(),
                |out: Seq<char>| parse_outdated_spec(out),
            ),
            r@.only_looks(),
            r@ == session::listed(
                CmdView::new(self.program@).env("PERL_MM_USE_DEFAULT"@, "1"@).env(
                    "NONINTERACTIVE_TESTING"@,
                    "1"@,
                ).env("LC_ALL"@, "C"@).arg("-O"@),
                replies@.deep(),
                |out: Seq<char>| parse_outdated_spec(out),
            ),
    {
        session::list(
            self.cmd().arg("-O"),
            replies,
            parse_outdated,
            Ghost(|out: Seq<char>| parse_outdated_spec(out)),
        )
    }

    /// The names of all modules are searched here, without regard to case.
    pub fn search(&self, query: &str, replies: &[Reply]) -> (r: Step<Listing<CpanPackage>>)
        ensures
            r@ == session::listed(
                self.cmd_spec().arg("-X"@),
                replies@.deep(),
                |out: Seq<char>| matching_spec(parse_namespaces_spec(out), query@),
            ),
            r@.only_looks(),
            r@ == session::listed(
                CmdView::new(self.program@).env("PERL_MM_USE_DEFAULT"@, "1"@).env(
                    "NONINTERACTIVE_TESTING"@,
                    "1"@,
                ).env("LC_ALL"@, "C"@).arg("-X"@),
                replies@.deep(),
                |out: Seq<char>| matching_spec(parse_namespaces_spec(out), query@),
            ),
    {
        let read = |out: &str| -> (v: Vec<CpanPackage>)
            ensures
                v@.deep() == matching_spec(parse_namespaces_spec(out@), query@),
            { matching(parse_namespaces(out), query) };
        session::list(
            self.cmd().arg("-X"),
            replies,
            read,
            Ghost(|out: Seq<char>| matching_spec(parse_namespaces_spec(out), query@)),
        )
    }

    /// `cpan -D` succeeds even for modules that do not exist, so what it
    /// prints decides.
    pub open spec fn info_spec(self, name: Seq<char>, replies: Seq<ReplyView>) -> StepView<
        PackageView,
    > {
        if replies.len() == 0 {
            session::ask(self.cmd_spec().arg("-D"@).arg(name))
        } else if !replies[0].success {
            StepView::Fail(ErrorView::NotFound(name))
        } else if replies.len() == 1 {
            session::ask(self.installed_spec())
        } else if !replies[1].success {
            StepView::Fail(replies[1].failure())
        } else {
            session::found(
                parse_details_spec(
                    replies[0].stdout,
                    name,
                    session::called(parse_installed_spec(replies[1].stdout), name),
                ),
                name,
            )
        }
    }

    pub fn info(&self, name: &str, replies: &[Reply]) -> (r: Step<CpanPackage>)
        ensures
            r@ == self.info_spec(name@, replies@.deep()),
            r@.only_looks(),
    {
        if replies.len() == 0 {
            return session::query(self.cmd().arg("-D").arg(name));
        }
        assert(replies@.deep()[0] == replies@[0]@);
        if !replies[0].success {
            return Step::Fail(error::not_found(name));
        }
        if replies.len() == 1 {
            return session::query(self.installed());
        }
        assert(replies@.deep()[1] == replies@[1]@);
        if !replies[1].success {
            return Step::Fail(replies[1].failure());
        }
        let installed = session::take_called(parse_installed(&replies[1].stdout), name);
        session::find(parse_details(&replies[0].stdout, name, installed), name)
    }
}

/// The modules whose name holds `query`, without regard to case.
pub open spec fn matching_spec(packages: Seq<PackageView>, query: Seq<char>) -> Seq<PackageView> {
    rows::keep(packages, |p: PackageView| p.name.lower().has(query.lower()))
}

fn matching(packages: Vec<CpanPackage>, query: &str) -> (r: Vec<CpanPackage>)
    ensures
        r@.deep() == matching_spec(packages@.deep(), query@),
{
    let wanted = text::string(&text::lower(&chars(query)));
    let holds = |p: &CpanPackage| -> (b: bool)
        ensures
            b == p@.name.lower().has(query@.lower()),
        { text::has(&text::lower(&chars(&p.name)), &wanted) };
    rows::retain(
        packages,
        holds,
        Ghost(|p: PackageView| p.name.lower().has(query@.lower())),
    )
}

/// An installed module, `name<TAB>version`.
pub open spec fn installed_row_spec(line: Seq<char>) -> Option<PackageView> {
    match line.cut("\t"@) {
        Some((name, version)) => Some(
            PackageView::versioned(name, version.trim().filled(), InstallState::Installed),
        ),
        None => None,
    }
}

fn installed_row(line: &[char]) -> (r: Option<CpanPackage>)
    ensures
        r.deep() == installed_row_spec(line@),
{
    match text::cut(line, "\t") {
        Some((name, version)) => Some(
            CpanPackage {
                name: text::string(name),
                version: text::maybe_string(text::filled(text::trim(version))),
                state: InstallState::Installed,
                ..CpanPackage::default()
            },
        ),
        None => None,
    }
}

/// The installed modules.
pub open spec fn parse_installed_spec(stdout: Seq<char>) -> Seq<PackageView> {
    rows::select(stdout.lines(), |line: Seq<char>| installed_row_spec(line))
}

pub fn parse_installed(stdout: &str) -> (r: Vec<CpanPackage>)
    ensures
        r@.deep() == parse_installed_spec(stdout@),
        crate::package::all_in(r@.deep(), InstallState::Installed),
{
    proof {
        rows::selected_have(
            stdout@.lines(),
            |line: Seq<char>| installed_row_spec(line),
            |p: PackageView| p.state == InstallState::Installed,
        );
    }
    rows::select_rows(stdout, installed_row, Ghost(|line: Seq<char>| installed_row_spec(line)))
}

/// A module in the dump of all names: its name holds `::` or begins with an
/// upper case letter.
pub open spec fn namespace_row_spec(line: Seq<char>) -> Option<PackageView> {
    match line.words().nth(0) {
        Some(name) if name.has("::"@) || (name.len() > 0 && text::unicode_uppercase(name[0])) =>
        Some(PackageView::named(name, InstallState::Available)),
        _ => None,
    }
}

fn namespace_row(line: &[char]) -> (r: Option<CpanPackage>)
    ensures
        r.deep() == namespace_row_spec(line@),
{
    let words = text::words(line);
    match text::nth(&words, 0) {
        Some(name) => {
            if text::has(name, "::") || (name.len() > 0 && text::uppercase(name[0])) {
                Some(
                    CpanPackage {
                        name: text::string(name),
                        state: InstallState::Available,
                        ..CpanPackage::default()
                    },
                )
            } else {
                None
            }
        },
        None => None,
    }
}

/// All modules there are.
pub open spec fn parse_namespaces_spec(stdout: Seq<char>) -> Seq<PackageView> {
    rows::select(stdout.lines(), |line: Seq<char>| namespace_row_spec(line))
}

pub fn parse_namespaces(stdout: &str) -> (r: Vec<CpanPackage>)
    ensures
        r@.deep() == parse_namespaces_spec(stdout@),
        crate::package::all_named(r@.deep()),
        crate::package::all_in(r@.deep(), InstallState::Available),
{
    proof {
        rows::selected_have(
            stdout@.lines(),
            |line: Seq<char>| namespace_row_spec(line),
            |p: PackageView| p.name.len() > 0 && p.state == InstallState::Available,
        );
    }
    rows::select_rows(stdout, namespace_row, Ghost(|line: Seq<char>| namespace_row_spec(line)))
}

/// The reading of `cpan -D`.
struct DetailScan {
    name: Option<String>,
    description: Option<String>,
    installed: Option<String>,
    latest: Option<String>,
    current: bool,
    ruled: bool,
    detailed: bool,
}

/// The model of the reading of `cpan -D`: the name so far, what the details
/// say, whether the newest version is installed, and whether the rule and the
/// first detail have been read.
pub struct DetailScanView {
    pub name: Option<Seq<char>>,
    pub description: Option<Seq<char>>,
    pub installed: Option<Seq<char>>,
    pub latest: Option<Seq<char>>,
    pub current: bool,
    pub ruled: bool,
    pub detailed: bool,
}

impl DetailScanView {
    pub open spec fn start() -> DetailScanView {
        DetailScanView {
            name: None,
            description: None,
            installed: None,
            latest: None,
            current: false,
            ruled: false,
            detailed: false,
        }
    }
}

/// The reading of `cpan -D` after one more line. The name stands right above
/// a rule of dashes; indented details follow, the description first.
pub open spec fn detail_next_spec(state: DetailScanView, line: Seq<char>) -> DetailScanView {
    let text = line.trim();
    if text.len() == 0 {
        state
    } else if !line.begins_blank() {
        if text.len() >= 4 && text.only("-"@) {
            DetailScanView { ruled: true, ..state }
        } else if !state.ruled {
            DetailScanView { name: Some(text), ..state }
        } else {
            state
        }
    } else if !state.ruled {
        state
    } else {
        match (text.without_prefix("Installed:"@), text.without_prefix("CPAN:"@)) {
            (Some(version), _) => DetailScanView {
                installed: if version.trim().len() > 0 && version.trim() != "not installed"@ {
                    Some(version.trim())
                } else {
                    state.installed
                },
                detailed: true,
                ..state
            },
            (None, Some(version)) => DetailScanView {
                latest: version.words().nth(0),
                current: !version.has("Not up to date"@),
                detailed: true,
                ..state
            },
            (None, None) => DetailScanView {
                description: if !state.detailed && text != "(no description)"@ {
                    Some(text)
                } else {
                    state.description
                },
                detailed: true,
                ..state
            },
        }
    }
}

impl Scanner for DetailScan {
    type State = DetailScanView;

    closed spec fn state(&self) -> DetailScanView {
        DetailScanView {
            name: self.name.deep(),
            description: self.description.deep(),
            installed: self.installed.deep(),
            latest: self.latest.deep(),
            current: self.current,
            ruled: self.ruled,
            detailed: self.detailed,
        }
    }

    open spec fn next(state: DetailScanView, line: Seq<char>) -> DetailScanView {
        detail_next_spec(state, line)
    }

    fn feed(&mut self, line: &[char]) {
        let text = text::trim(line);
        if text.len() == 0 {
            return;
        }
        if !text::begins_blank(line) {
            if text.len() >= 4 && text::only(text, "-") {
                self.ruled = true;
            } else if !self.ruled {
                self.name = Some(text::string(text));
            }
            return;
        }
        if !self.ruled {
            return;
        }
        if let Some(version) = text::without_prefix(text, "Installed:") {
            let version = text::trim(version);
            if version.len() > 0 && !text::is(version, "not installed") {
                self.installed = Some(text::string(version));
            }
        } else if let Some(version) = text::without_prefix(text, "CPAN:") {
            let words = text::words(version);
            self.latest = text::maybe_string(text::nth(&words, 0));
            self.current = !text::has(version, "Not up to date");
        } else if !self.detailed && !text::is(text, "(no description)") {
            self.description = Some(text::string(text));
        }
        self.detailed = true;
    }
}

/// The module that `cpan -D` describes, given what the inventory says of it.
/// Without a rule or a version on CPAN there is none.
pub open spec fn parse_details_spec(
    stdout: Seq<char>,
    fallback: Seq<char>,
    installed: Option<PackageView>,
) -> Option<PackageView> {
    let end = rows::scan(
        DetailScanView::start(),
        stdout.lines(),
        |state: DetailScanView, line: Seq<char>| detail_next_spec(state, line),
    );
    let name = match end.name {
        Some(name) => name,
        None => fallback,
    };
    let version = match (end.installed, installed) {
        (Some(version), _) => Some(version),
        (None, Some(package)) => package.version,
        (None, None) => None,
    };
    if !end.ruled || end.latest is None {
        None
    } else if version is Some || installed is Some {
        Some(
            PackageView {
                description: end.description,
                latest_version: if end.current {
                    None
                } else {
                    end.latest
                },
                ..PackageView::versioned(
                    name,
                    if version is Some {
                        version
                    } else {
                        end.latest
                    },
                    if end.current {
                        InstallState::Installed
                    } else {
                        InstallState::Upgradable
                    },
                )
            },
        )
    } else {
        Some(
            PackageView {
                description: end.description,
                ..PackageView::versioned(name, end.latest, InstallState::Available)
            },
        )
    }
}

pub fn parse_details(stdout: &str, fallback: &str, installed: Option<CpanPackage>) -> (r: Option<
    CpanPackage,
>)
    ensures
        r.deep() == parse_details_spec(stdout@, fallback@, installed.deep()),
{
    let end = rows::scan_output(
        DetailScan {
            name: None,
            description: None,
            installed: None,
            latest: None,
            current: false,
            ruled: false,
            detailed: false,
        },
        stdout,
        Ghost(|state: DetailScanView, line: Seq<char>| detail_next_spec(state, line)),
    );
    if !end.ruled || end.latest.is_none() {
        return None;
    }
    let name = match end.name {
        Some(name) => name,
        None => text::copy(fallback),
    };
    let inventoried = installed.is_some();
    let version = match (end.installed, installed) {
        (Some(version), _) => Some(version),
        (None, Some(package)) => package.version,
        (None, None) => None,
    };
    if version.is_some() || inventoried {
        Some(
            CpanPackage {
                name,
                version: match version {
                    Some(version) => Some(version),
                    None => text::copy_maybe(&end.latest),
                },
                latest_version: if end.current {
                    None
                } else {
                    end.latest
                },
                description: end.description,
                state: if end.current {
                    InstallState::Installed
                } else {
                    InstallState::Upgradable
                },
            },
        )
    } else {
        Some(
            CpanPackage {
                name,
                version: end.latest,
                latest_version: None,
                description: end.description,
                state: InstallState::Available,
            },
        )
    }
}

/// A row of `cpan -O`: name, installed and newest version, and nothing else.
pub open spec fn outdated_row_spec(line: Seq<char>) -> Option<PackageView> {
    let words = line.words();
    if words.len() == 3 && words[1].begins_digit() && words[2].begins_digit() {
        Some(
            PackageView {
                latest_version: Some(words[2]),
                ..PackageView::versioned(words[0], Some(words[1]), InstallState::Upgradable)
            },
        )
    } else {
        None
    }
}

fn outdated_row(line: &[char]) -> (r: Option<CpanPackage>)
    ensures
        r.deep() == outdated_row_spec(line@),
{
    let words = text::words(line);
    if words.len() == 3 && text::begins_digit(words[1]) && text::begins_digit(words[2]) {
        Some(
            CpanPackage {
                name: text::string(words[0]),
                version: Some(text::string(words[1])),
                latest_version: Some(text::string(words[2])),
                state: InstallState::Upgradable,
                ..CpanPackage::default()
            },
        )
    } else {
        None
    }
}

/// The modules that `cpan -O` prints.
pub open spec fn parse_outdated_spec(stdout: Seq<char>) -> Seq<PackageView> {
    rows::select(stdout.lines(), |line: Seq<char>| outdated_row_spec(line))
}

pub fn parse_outdated(stdout: &str) -> (r: Vec<CpanPackage>)
    ensures
        r@.deep() == parse_outdated_spec(stdout@),
        crate::package::all_named(r@.deep()),
        crate::package::all_in(r@.deep(), InstallState::Upgradable),
{
    proof {
        rows::selected_have(
            stdout@.lines(),
            |line: Seq<char>| outdated_row_spec(line),
            |p: PackageView| p.name.len() > 0 && p.state == InstallState::Upgradable,
        );
    }
    rows::select_rows(stdout, outdated_row, Ghost(|line: Seq<char>| outdated_row_spec(line)))
}

} // verus!
