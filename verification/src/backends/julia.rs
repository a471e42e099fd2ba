//! Julia's Pkg, in the active environment.
//!
//! Everything is done by scripts that Julia runs. Requests are handed to them
//! as `name@version`. There is no dry run.

use vstd::prelude::*;

use crate::command::{self, Cmd, CmdView, Plan};
use crate::detect::{self, Detection};
use crate::error::{self, Error, ErrorView};
use crate::package::{Details, InstallState, Package, PackageView};
use crate::profile::{basic_capabilities, Capabilities, ManagerKind, Profile};
use crate::request::{OpContext, PackageRequest};
use crate::rows;
use crate::session::{self, Listing, Reply, Step};
use crate::text::{self, Deep, Text};

verus! {

/// Finds the manager and sets it up.
#[derive(Clone, Copy, Debug)]
pub struct Factory;

/// The factory of this backend.
pub fn factory() -> (r: Factory)
    ensures
        r == Factory,
{
    Factory
}

impl Factory {
    pub fn id(&self) -> (r: &'static str)
        ensures
            r@ == "julia"@,
    {
        "julia"
    }

    /// The programs to look for, in the order of preference.
    pub fn programs(&self) -> (r: Vec<&'static str>)
        ensures
            r@.deep() == seq!["julia"@],
    {
        let mut out: Vec<&'static str> = Vec::new();
        out.push("julia");
        assert(out@.deep() =~= seq!["julia"@]);
        out
    }

    /// Whether the backend can be used, given where each program was found.
    pub fn detect(&self, found: &[Option<String>]) -> (r: Detection)
        ensures
            r@ == detect::detected(found@, "`julia` not found on PATH"@),
    {
        detect::detect(found, "`julia` not found on PATH")
    }

    /// The manager, given where each program was found.
    pub fn create(&self, found: &[Option<String>]) -> (r: Result<Manager, Error>)
        ensures
            match r {
                Ok(manager) => detect::required(found@, "julia"@) == Ok::<Seq<char>, ErrorView>(
                    manager.program@,
                ),
                Err(error) => detect::required(found@, "julia"@) == Err::<Seq<char>, ErrorView>(
                    error@,
                ),
            },
    {
        match detect::require(found, "julia") {
            Ok(program) => Ok(Manager { program }),
            Err(error) => Err(error),
        }
    }
}

/// The manager, driving `program`.
#[derive(Debug)]
pub struct Manager {
    pub program: String,
}

impl Manager {
    /// What the manager says of itself.
    pub fn profile(&self) -> (r: Profile)
        ensures
            r.id@ == "julia"@,
            r.display_name@ == "Julia Pkg"@,
            r.kind == ManagerKind::Language,
            r.database_id@ == "julia"@,
            r.capabilities == (Capabilities {
                upgrade: true,
                list_outdated: true,
                pin_version: true,
                ..Capabilities::basic()
            }),
            r.elevates == false,
    {
        Profile {
            id: "julia",
            display_name: "Julia Pkg",
            kind: ManagerKind::Language,
            database_id: "julia",
            capabilities: Capabilities {
                upgrade: true,
                list_outdated: true,
                pin_version: true,
                ..basic_capabilities()
            },
            elevates: false,
        }
    }
}

/// A package as Pkg describes it.
#[derive(Debug)]
pub struct JuliaPackage {
    pub name: String,
    pub version: Option<String>,
    pub description: Option<String>,
    pub state: InstallState,
}

impl View for JuliaPackage {
    type V = PackageView;

    open spec fn view(&self) -> PackageView {
        PackageView {
            name: self.name@,
            version: self.version.deep(),
            description: self.description.deep(),
            state: self.state,
            ..PackageView::blank()
        }
    }
}

impl Package for JuliaPackage {
    open spec fn manager_id() -> Seq<char> {
        "julia"@
    }

    fn manager(&self) -> (r: &'static str) {
        "julia"
    }

    fn details(&self) -> (r: Details<'_>) {
        Details {
            version: self.version.as_ref(),
            description: self.description.as_ref(),
            ..Details::of(&self.name, self.state)
        }
    }
}

/// `name@version` when the request pins one, the bare name otherwise.
pub fn spec(request: &PackageRequest) -> (r: String)
    ensures
        r@ == request@.pinned("@"@),
{
    request.pinned("@")
}

/// A package of the environment: a name, a tab and a version that may be
/// empty.
pub open spec fn list_row_spec(line: Seq<char>) -> Option<PackageView> {
    match line.cut("\t"@) {
        None => None,
        Some((name, version)) => if name.len() == 0 {
            None
        } else {
            Some(PackageView::versioned(name, version.filled(), InstallState::Installed))
        },
    }
}

fn list_row(line: &[char]) -> (r: Option<JuliaPackage>)
    ensures
        r.deep() == list_row_spec(line@),
{
    match text::cut(line, "\t") {
        None => None,
        Some((name, version)) => {
            if name.len() == 0 {
                return None;
            }
            Some(
                JuliaPackage {
                    name: text::string(name),
                    version: text::maybe_string(text::filled(version)),
                    description: None,
                    state: InstallState::Installed,
                },
            )
        },
    }
}

/// The packages that the script for it prints.
pub open spec fn parse_list_spec(stdout: Seq<char>) -> Seq<PackageView> {
    rows::select(stdout.lines(), |line: Seq<char>| list_row_spec(line))
}

pub fn parse_list(stdout: &str) -> (r: Vec<JuliaPackage>)
    ensures
        r@.deep() == parse_list_spec(stdout@),
        crate::package::all_named(r@.deep()),
        crate::package::all_in(r@.deep(), InstallState::Installed),
{
    proof {
        rows::selected_have(
            stdout@.lines(),
            |line: Seq<char>| list_row_spec(line),
            |p: PackageView| p.name.len() > 0 && p.state == InstallState::Installed,
        );
    }
    rows::select_rows(stdout, list_row, Ghost(|line: Seq<char>| list_row_spec(line)))
}

/// An outdated package: marked in front, with its name and version behind the
/// bracket that its identifier ends in.
pub open spec fn outdated_row_spec(line: Seq<char>) -> Option<PackageView> {
    let line = line.trim();
    if !line.begins("⌃"@) && !line.begins("⌅"@) {
        None
    } else {
        match line.cut("]"@) {
            None => None,
            Some((_, rest)) => {
                let fields = rest.trim().words();
                if fields.len() < 2 {
                    None
                } else {
                    Some(
                        PackageView::versioned(
                            fields[0],
                            fields[1].trim_front("v"@).filled(),
                            InstallState::Upgradable,
                        ),
                    )
                }
            },
        }
    }
}

fn outdated_row(line: &[char]) -> (r: Option<JuliaPackage>)
    ensures
        r.deep() == outdated_row_spec(line@),
{
    let line = text::trim(line);
    if !text::begins(line, "⌃") && !text::begins(line, "⌅") {
        return None;
    }
    match text::cut(line, "]") {
        None => None,
        Some((_, rest)) => {
            let fields = text::words(text::trim(rest));
            if fields.len() < 2 {
                return None;
            }
            Some(
                JuliaPackage {
                    name: text::string(fields[0]),
                    version: text::maybe_string(
                        text::filled(text::trim_front(fields[1], "v")),
                    ),
                    description: None,
                    state: InstallState::Upgradable,
                },
            )
        },
    }
}

/// The packages that Pkg marks as outdated.
pub open spec fn parse_outdated_spec(stdout: Seq<char>) -> Seq<PackageView> {
    rows::select(stdout.lines(), |line: Seq<char>| outdated_row_spec(line))
}

pub fn parse_outdated(stdout: &str) -> (r: Vec<JuliaPackage>)
    ensures
        r@.deep() == parse_outdated_spec(stdout@),
        crate::package::all_named(r@.deep()),
        crate::package::all_in(r@.deep(), InstallState::Upgradable),
{
    proof {
        rows::selected_have(
            stdout@.lines(),
            |line: Seq<char>| outdated_row_spec(line),
            |p: PackageView| p.name.len() > 0 && p.state == InstallState::Upgradable,
        );
    }
    rows::select_rows(stdout, outdated_row, Ghost(|line: Seq<char>| outdated_row_spec(line)))
}

impl Manager {
    /// Julia, running a script on its own.
    pub open spec fn expr_spec(self, script: Seq<char>) -> CmdView {
        CmdView::new(self.program@).arg("--startup-file=no"@).arg("--history-file=no"@).arg(
            "-e"@,
        ).arg(script).arg("--"@)
    }

    fn expr(&self, script: &str) -> (r: Cmd)
        ensures
            r@ == self.expr_spec(script@),
    {
        Cmd::new(&self.program).arg("--startup-file=no").arg("--history-file=no").arg("-e").arg(
            script,
        ).arg("--")
    }

    /// What prints the direct dependencies of the environment.
    pub open spec fn installed_spec(self) -> CmdView {
        self.expr_spec(
            "using Pkg; for (_,p) in sort!(collect(Pkg.dependencies());by=x->x[2].name); p.is_direct_dep || continue; println(replace(p.name,r\"[\\t\\r\\n]\"=>\" \"),'\\t',isnothing(p.version) ? \"\" : string(p.version)); end"@,
        )
    }

    fn installed(&self) -> (r: Cmd)
        ensures
            r@ == self.installed_spec(),
    {
        self.expr(
            "using Pkg; for (_,p) in sort!(collect(Pkg.dependencies());by=x->x[2].name); p.is_direct_dep || continue; println(replace(p.name,r\"[\\t\\r\\n]\"=>\" \"),'\\t',isnothing(p.version) ? \"\" : string(p.version)); end",
        )
    }

    pub fn install(&self, packages: &[PackageRequest], ctx: &OpContext) -> (r: Plan)
        ensures
            command::plan(r) == if ctx.dry_run {
                Err(ErrorView::Other("julia: install has no dry-run mode"@))
            } else {
                command::just(
                    self.expr_spec(
                        "using Pkg; spec(s)=begin p=split(s,'@';limit=2); length(p)==2 ? PackageSpec(name=p[1],version=p[2]) : PackageSpec(name=s) end; Pkg.add([spec(s) for s in ARGS])"@,
                    ).pinned(packages@.deep(), "@"@),
                )
            },
            command::all_elevated(command::plan(r), false),
            ctx.dry_run ==> r is Err,
            command::plan(r) == if ctx.dry_run {
                Err(ErrorView::Other("julia: install has no dry-run mode"@))
            } else {
                command::just(
                    CmdView::new(self.program@).arg(
                        "--startup-file=no"@,
                    ).arg("--history-file=no"@).arg("-e"@).arg(
                        "using Pkg; spec(s)=begin p=split(s,'@';limit=2); length(p)==2 ? PackageSpec(name=p[1],version=p[2]) : PackageSpec(name=s) end; Pkg.add([spec(s) for s in ARGS])"@,
                    ).arg("--"@).pinned(packages@.deep(), "@"@),
                )
            },
    {
        if ctx.dry_run {
            return Err(error::other("julia: install has no dry-run mode"));
        }
        Ok(
            command::one(
                self.expr(
                    "using Pkg; spec(s)=begin p=split(s,'@';limit=2); length(p)==2 ? PackageSpec(name=p[1],version=p[2]) : PackageSpec(name=s) end; Pkg.add([spec(s) for s in ARGS])",
                ).pinned(packages, "@"),
            ),
        )
    }

    pub fn remove(&self, packages: &[PackageRequest], ctx: &OpContext) -> (r: Plan)
        ensures
            command::plan(r) == if ctx.dry_run {
                Err(ErrorView::Other("julia: remove has no dry-run mode"@))
            } else {
                command::just(
                    self.expr_spec("using Pkg; Pkg.rm(ARGS)"@).names(packages@.deep()),
                )
            },
            command::all_elevated(command::plan(r), false),
            ctx.dry_run ==> r is Err,
            command::plan(r) == if ctx.dry_run {
                Err(ErrorView::Other("julia: remove has no dry-run mode"@))
            } else {
                command::just(
                    CmdView::new(self.program@).arg(
                        "--startup-file=no"@,
                    ).arg("--history-file=no"@).arg("-e"@).arg(
                        "using Pkg; Pkg.rm(ARGS)"@,
                    ).arg("--"@).names(packages@.deep()),
                )
            },
    {
        if ctx.dry_run {
            return Err(error::other("julia: remove has no dry-run mode"));
        }
        Ok(command::one(self.expr("using Pkg; Pkg.rm(ARGS)").names(packages)))
    }

    /// Without names everything is upgraded; a package with a version is added
    /// in that version.
    pub fn upgrade(&self, packages: &[PackageRequest], ctx: &OpContext) -> (r: Plan)
        ensures
            command::plan(r) == if ctx.dry_run {
                Err(ErrorView::Other("julia: upgrade has no dry-run mode"@))
            } else if packages@.len() == 0 {
                command::just(self.expr_spec("using Pkg; Pkg.update()"@))
            } else {
                command::just(
                    self.expr_spec(
                        "using Pkg; spec(s)=begin p=split(s,'@';limit=2); length(p)==2 ? PackageSpec(name=p[1],version=p[2]) : PackageSpec(name=s) end; pinned=[spec(s) for s in ARGS if occursin('@',s)]; names=[s for s in ARGS if !occursin('@',s)]; !isempty(pinned) && Pkg.add(pinned); !isempty(names) && Pkg.update(names)"@,
                    ).pinned(packages@.deep(), "@"@),
                )
            },
            command::all_elevated(command::plan(r), false),
            ctx.dry_run ==> r is Err,
            command::plan(r) == if ctx.dry_run {
                Err(ErrorView::Other("julia: upgrade has no dry-run mode"@))
            } else if packages@.len() == 0 {
                command::just(
                    CmdView::new(self.program@).arg(
                        "--startup-file=no"@,
                    ).arg("--history-file=no"@).arg("-e"@).arg(
                        "using Pkg; Pkg.update()"@,
                    ).arg("--"@),
                )
            } else {
                command::just(
                    CmdView::new(self.program@).arg(
                        "--startup-file=no"@,
                    ).arg("--history-file=no"@).arg("-e"@).arg(
                        "using Pkg; spec(s)=begin p=split(s,'@';limit=2); length(p)==2 ? PackageSpec(name=p[1],version=p[2]) : PackageSpec(name=s) end; pinned=[spec(s) for s in ARGS if occursin('@',s)]; names=[s for s in ARGS if !occursin('@',s)]; !isempty(pinned) && Pkg.add(pinned); !isempty(names) && Pkg.update(names)"@,
                    ).arg("--"@).pinned(packages@.deep(), "@"@),
                )
            },
    {
        if ctx.dry_run {
            return Err(error::other("julia: upgrade has no dry-run mode"));
        }
        if packages.len() == 0 {
            return Ok(command::one(self.expr("using Pkg; Pkg.update()")));
        }
        Ok(
            command::one(
                self.expr(
                    "using Pkg; spec(s)=begin p=split(s,'@';limit=2); length(p)==2 ? PackageSpec(name=p[1],version=p[2]) : PackageSpec(name=s) end; pinned=[spec(s) for s in ARGS if occursin('@',s)]; names=[s for s in ARGS if !occursin('@',s)]; !isempty(pinned) && Pkg.add(pinned); !isempty(names) && Pkg.update(names)",
                ).pinned(packages, "@"),
            ),
        )
    }

    pub fn list_installed(&self, replies: &[Reply]) -> (r: Step<Listing<JuliaPackage>>)
        ensures
            r@ == session::listed(
                self.installed_spec(),
                replies@.deep(),
                |out: Seq<char>| parse_list_spec(out),
            ),
            r@.only_looks(),
            r@ == session::listed(
                (
                    CmdView::new(self.program@).arg(
                        "--startup-file=no"@,
                    ).arg("--history-file=no"@).arg("-e"@).arg(
                        "using Pkg; for (_,p) in sort!(collect(Pkg.dependencies());by=x->x[2].name); p.is_direct_dep || continue; println(replace(p.name,r\"[\\t\\r\\n]\"=>\" \"),'\\t',isnothing(p.version) ? \"\" : string(p.version)); end"@,
                    ).arg("--"@)
                ),
                replies@.deep(),
                |out: Seq<char>| parse_list_spec(out),
            ),
    {
        session::list(
            self.installed(),
            replies,
            parse_list,
            Ghost(|out: Seq<char>| parse_list_spec(out)),
        )
    }

    pub fn info(&self, name: &str, replies: &[Reply]) -> (r: Step<JuliaPackage>)
        ensures
            r@ == session::picked(
                self.installed_spec(),
                replies@.deep(),
                name@,
                |out: Seq<char>| parse_list_spec(out),
            ),
            r@.only_looks(),
            r@ == session::picked(
                (
                    CmdView::new(self.program@).arg(
                        "--startup-file=no"@,
                    ).arg("--history-file=no"@).arg("-e"@).arg(
                        "using Pkg; for (_,p) in sort!(collect(Pkg.dependencies());by=x->x[2].name); p.is_direct_dep || continue; println(replace(p.name,r\"[\\t\\r\\n]\"=>\" \"),'\\t',isnothing(p.version) ? \"\" : string(p.version)); end"@,
                    ).arg("--"@)
                ),
                replies@.deep(),
                name@,
                |out: Seq<char>| parse_list_spec(out),
            ),
    {
        session::pick(
            self.installed(),
            replies,
            name,
            parse_list,
            Ghost(|out: Seq<char>| parse_list_spec(out)),
        )
    }

    pub fn list_outdated(&self, replies: &[Reply]) -> (r: Step<Listing<JuliaPackage>>)
        ensures
            r@ == session::listed(
                self.expr_spec(
                    "using Pkg; io=IOBuffer(); Pkg.status(;outdated=true,io=io); print(String(take!(io)))"@,
                ),
                replies@.deep(),
                |out: Seq<char>| parse_outdated_spec(out),
            ),
            r@.only_looks(),
            r@ == session::listed(
                CmdView::new(self.program@).arg(
                    "--startup-file=no"@,
                ).arg("--history-file=no"@).arg("-e"@).arg(
                    "using Pkg; io=IOBuffer(); Pkg.status(;outdated=true,io=io); print(String(take!(io)))"@,
                ).arg("--"@),
                replies@.deep(),
                |out: Seq<char>| parse_outdated_spec(out),
            ),
    {
        session::list(
            self.expr(
                "using Pkg; io=IOBuffer(); Pkg.status(;outdated=true,io=io); print(String(take!(io)))",
            ),
            replies,
            parse_outdated,
            Ghost(|out: Seq<char>| parse_outdated_spec(out)),
        )
    }
}

} // verus!
