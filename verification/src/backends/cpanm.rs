//! cpanminus, which installs Perl modules.
//!
//! It can only install. What is installed is read, and modules are removed, by
//! `perl` itself. An install has no dry run; a removal has one.

use vstd::prelude::*;

use crate::command::{self, Cmd, CmdView, Plan};
use crate::detect::{Detection, DetectionView};
use crate::error::{self, Error, ErrorView};
use crate::package::{Details, InstallState, Package, PackageView};
use crate::profile::{basic_capabilities, Capabilities, ManagerKind, Profile};
use crate::request::{OpContext, PackageRequest};
use crate::rows;
use crate::session::{self, Listing, Reply, Step};
use crate::text::{self, Deep, Text};

verus! {

broadcast use command::group_carries;

impl Manager {
    /// What the manager says of itself.
    pub fn profile(&self) -> (r: Profile)
        ensures
            r.id@ == "cpanm"@,
            r.display_name@ == "cpanminus"@,
            r.kind == ManagerKind::Language,
            r.database_id@ == "cpan"@,
            r.capabilities == (Capabilities { pin_version: true, ..Capabilities::basic() }),
            r.elevates == false,
    {
        Profile {
            id: "cpanm",
            display_name: "cpanminus",
            kind: ManagerKind::Language,
            database_id: "cpan",
            capabilities: Capabilities { pin_version: true, ..basic_capabilities() },
            elevates: false,
        }
    }
}

/// Finds the manager and sets it up.
#[derive(Clone, Copy, Debug)]
pub struct Factory;

/// The factory of this backend.
pub fn factory() -> (r: Factory)
    ensures
        r == Factory,
{
    Factory
}

impl Factory {
    pub fn id(&self) -> (r: &'static str)
        ensures
            r@ == "cpanm"@,
    {
        "cpanm"
    }

    /// The programs to look for: the client, then the interpreter.
    pub fn programs(&self) -> (r: Vec<&'static str>)
        ensures
            r@.deep() == seq!["cpanm"@, "perl"@],
    {
        let mut out: Vec<&'static str> = Vec::new();
        out.push("cpanm");
        out.push("perl");
        assert(out@.deep() =~= seq!["cpanm"@, "perl"@]);
        out
    }

    /// Whether the backend can be used: the client decides.
    pub fn detect(&self, cpanm: Option<String>) -> (r: Detection)
        ensures
            r@ == match cpanm {
                Some(program) => DetectionView::Available { program: program@ },
                None => DetectionView::Unavailable { reason: "`cpanm` not found on PATH"@ },
            },
    {
        match cpanm {
            Some(program) => Detection::Available { program },
            None => Detection::Unavailable { reason: text::copy("`cpanm` not found on PATH") },
        }
    }

    /// The manager, which needs both programs.
    pub fn create(&self, cpanm: Option<String>, perl: Option<String>) -> (r: Result<
        Manager,
        Error,
    >)
        ensures
            match (cpanm, perl) {
                (Some(program), Some(interpreter)) => r matches Ok(manager) && manager.program
                    == program && manager.perl == interpreter,
                (None, _) => r matches Err(error) && error@ == ErrorView::Unavailable("cpanm"@),
                (Some(_), None) => r matches Err(error) && error@ == ErrorView::Unavailable(
                    "cpanm: `perl` not found on PATH"@,
                ),
            },
    {
        match (cpanm, perl) {
            (Some(program), Some(perl)) => Ok(Manager { program, perl }),
            (None, _) => Err(Error::Unavailable(text::copy("cpanm"))),
            (Some(_), None) => Err(
                Error::Unavailable(text::copy("cpanm: `perl` not found on PATH")),
            ),
        }
    }
}

/// The manager, driving `program`, and `perl` for what is installed.
#[derive(Debug)]
pub struct Manager {
    pub program: String,
    pub perl: String,
}

/// A module in the library of the active Perl.
#[derive(Debug)]
pub struct CpanmPackage {
    pub name: String,
    pub version: Option<String>,
    pub description: Option<String>,
    pub state: InstallState,
}

impl View for CpanmPackage {
    type V = PackageView;

    open spec fn view(&self) -> PackageView {
        PackageView {
            name: self.name@,
            version: self.version.deep(),
            description: self.description.deep(),
            state: self.state,
            ..PackageView::blank()
        }
    }
}

impl Package for CpanmPackage {
    open spec fn manager_id() -> Seq<char> {
        "cpanm"@
    }

    fn manager(&self) -> (r: &'static str) {
        "cpanm"
    }

    fn details(&self) -> (r: Details<'_>) {
        Details {
            version: self.version.as_ref(),
            description: self.description.as_ref(),
            ..Details::of(&self.name, self.state)
        }
    }
}

/// `name@version` when the request pins one, the bare name otherwise.
pub fn spec(package: &PackageRequest) -> (r: String)
    ensures
        r@ == package@.pinned("@"@),
{
    package.pinned("@")
}

/// An installed module: a name, a tab and a version that may be blank.
pub open spec fn installed_row_spec(line: Seq<char>) -> Option<PackageView> {
    match line.cut("\t"@) {
        None => None,
        Some((name, version)) => Some(
            PackageView::versioned(name, version.trim().filled(), InstallState::Installed),
        ),
    }
}

fn installed_row(line: &[char]) -> (r: Option<CpanmPackage>)
    ensures
        r.deep() == installed_row_spec(line@),
{
    match text::cut(line, "\t") {
        None => None,
        Some((name, version)) => Some(
            CpanmPackage {
                name: text::string(name),
                version: text::maybe_string(text::filled(text::trim(version))),
                description: None,
                state: InstallState::Installed,
            },
        ),
    }
}

/// The modules that the script for it prints.
pub open spec fn parse_installed_spec(stdout: Seq<char>) -> Seq<PackageView> {
    rows::select(stdout.lines(), |line: Seq<char>| installed_row_spec(line))
}

pub fn parse_installed(stdout: &str) -> (r: Vec<CpanmPackage>)
    ensures
        r@.deep() == parse_installed_spec(stdout@),
        crate::package::all_in(r@.deep(), InstallState::Installed),
{
    proof {
        rows::selected_have(
            stdout@.lines(),
            |line: Seq<char>| installed_row_spec(line),
            |p: PackageView| p.state == InstallState::Installed,
        );
    }
    rows::select_rows(stdout, installed_row, Ghost(|line: Seq<char>| installed_row_spec(line)))
}

impl Manager {
    /// The client, told not to ask.
    pub open spec fn cmd_spec(self) -> CmdView {
        CmdView::new(self.program@).env("PERL_MM_USE_DEFAULT"@, "1"@).env(
            "NONINTERACTIVE_TESTING"@,
            "1"@,
        ).env("LC_ALL"@, "C"@)
    }

    fn cmd(&self) -> (r: Cmd)
        ensures
            r@ == self.cmd_spec(),
    {
        Cmd::new(&self.program).env("PERL_MM_USE_DEFAULT", "1").env(
            "NONINTERACTIVE_TESTING",
            "1",
        ).env("LC_ALL", "C")
    }

    /// The interpreter, running a script.
    pub open spec fn perl_spec(self, script: Seq<char>) -> CmdView {
        CmdView::new(self.perl@).arg("-MExtUtils::Installed"@).arg("-e"@).arg(script).arg("--"@)
    }

    fn perl(&self, script: &str) -> (r: Cmd)
        ensures
            r@ == self.perl_spec(script@),
    {
        Cmd::new(&self.perl).arg("-MExtUtils::Installed").arg("-e").arg(script).arg("--")
    }

    /// What prints the installed modules, `name<TAB>version` each.
    pub open spec fn installed_spec(self) -> CmdView {
        self.perl_spec(
            "$i=ExtUtils::Installed->new(skip_cwd=>1);for $m(sort grep{$_ ne 'Perl'}$i->modules){$v=eval{$i->version($m)}//'';$v=~s/[\\t\\r\\n]/ /g;print \"$m\\t$v\\n\"}"@,
        )
    }

    fn installed(&self) -> (r: Cmd)
        ensures
            r@ == self.installed_spec(),
    {
        self.perl(
            "$i=ExtUtils::Installed->new(skip_cwd=>1);for $m(sort grep{$_ ne 'Perl'}$i->modules){$v=eval{$i->version($m)}//'';$v=~s/[\\t\\r\\n]/ /g;print \"$m\\t$v\\n\"}",
        )
    }

    pub fn install(&self, packages: &[PackageRequest], ctx: &OpContext) -> (r: Plan)
        ensures
            command::plan(r) == if ctx.dry_run {
                Err(ErrorView::Other("cpanm: install has no dry-run mode"@))
            } else {
                command::just(self.cmd_spec().pinned(packages@.deep(), "@"@))
            },
            command::all_elevated(command::plan(r), false),
            ctx.dry_run ==> r is Err,
            command::plan(r) == if ctx.dry_run {
                Err(ErrorView::Other("cpanm: install has no dry-run mode"@))
            } else {
                command::just(
                    CmdView::new(self.program@).env("PERL_MM_USE_DEFAULT"@, "1"@).env(
                        "NONINTERACTIVE_TESTING"@,
                        "1"@,
                    ).env("LC_ALL"@, "C"@).pinned(packages@.deep(), "@"@),
                )
            },
    {
        if ctx.dry_run {
            return Err(error::other("cpanm: install has no dry-run mode"));
        }
        Ok(command::one(self.cmd().pinned(packages, "@")))
    }

    /// The files of a module are known from its packing list; the script
    /// takes a dry run from a variable.
    pub fn remove(&self, packages: &[PackageRequest], ctx: &OpContext) -> (r: Plan)
        ensures
            command::plan(r) == command::just(
                self.perl_spec(
                    "use ExtUtils::Install; $i=ExtUtils::Installed->new(skip_cwd=>1);for $m(@ARGV){$p=$i->packlist($m)->packlist_file;ExtUtils::Install::uninstall($p,1,$ENV{SNOWCONE_DRY_RUN}?1:0)}"@,
                ).env(
                    "SNOWCONE_DRY_RUN"@,
                    if ctx.dry_run {
                        "1"@
                    } else {
                        ""@
                    },
                ).names(packages@.deep()),
            ),
            command::all_elevated(command::plan(r), false),
            ctx.dry_run ==> command::all_set(command::plan(r), "SNOWCONE_DRY_RUN"@, "1"@),
            command::plan(r) == command::just(
                CmdView::new(self.perl@).arg("-MExtUtils::Installed"@).arg("-e"@).arg(
                    "use ExtUtils::Install; $i=ExtUtils::Installed->new(skip_cwd=>1);for $m(@ARGV){$p=$i->packlist($m)->packlist_file;ExtUtils::Install::uninstall($p,1,$ENV{SNOWCONE_DRY_RUN}?1:0)}"@,
                ).arg("--"@).env(
                    "SNOWCONE_DRY_RUN"@,
                    if ctx.dry_run { "1"@ } else { ""@ },
                ).names(packages@.deep()),
            ),
    {
        Ok(
            command::one(
                self.perl(
                    "use ExtUtils::Install; $i=ExtUtils::Installed->new(skip_cwd=>1);for $m(@ARGV){$p=$i->packlist($m)->packlist_file;ExtUtils::Install::uninstall($p,1,$ENV{SNOWCONE_DRY_RUN}?1:0)}",
                ).env(
                    "SNOWCONE_DRY_RUN",
                    if ctx.dry_run {
                        "1"
                    } else {
                        ""
                    },
                ).names(packages),
            ),
        )
    }

    pub fn list_installed(&self, replies: &[Reply]) -> (r: Step<Listing<CpanmPackage>>)
        ensures
            r@ == session::listed(
                self.installed_spec(),
                replies@.deep(),
                |out: Seq<char>| parse_installed_spec(out),
            ),
            r@.only_looks(),
            r@ == session::listed(
                (
                    CmdView::new(self.perl@).arg("-MExtUtils::Installed"@).arg("-e"@).arg(
                        "$i=ExtUtils::Installed->new(skip_cwd=>1);for $m(sort grep{$_ ne 'Perl'}$i->modules){$v=eval{$i->version($m)}//'';$v=~s/[\\t\\r\\n]/ /g;print \"$m\\t$v\\n\"}"@,
                    ).arg("--"@)
                ),
                replies@.deep(),
                |out: Seq<char>| parse_installed_spec(out),
            ),
    {
        session::list(
            self.installed(),
            replies,
            parse_installed,
            Ghost(|out: Seq<char>| parse_installed_spec(out)),
        )
    }

    pub fn info(&self, name: &str, replies: &[Reply]) -> (r: Step<CpanmPackage>)
        ensures
            r@ == session::picked(
                self.installed_spec(),
                replies@.deep(),
                name@,
                |out: Seq<char>| parse_installed_spec(out),
            ),
            r@.only_looks(),
            r@ == session::picked(
                (
                    CmdView::new(self.perl@).arg("-MExtUtils::Installed"@).arg("-e"@).arg(
                        "$i=ExtUtils::Installed->new(skip_cwd=>1);for $m(sort grep{$_ ne 'Perl'}$i->modules){$v=eval{$i->version($m)}//'';$v=~s/[\\t\\r\\n]/ /g;print \"$m\\t$v\\n\"}"@,
                    ).arg("--"@)
                ),
                replies@.deep(),
                name@,
                |out: Seq<char>| parse_installed_spec(out),
            ),
    {
        session::pick(
            self.installed(),
            replies,
            name,
            parse_installed,
            Ghost(|out: Seq<char>| parse_installed_spec(out)),
        )
    }
}

} // verus!
