//! Fortran's fpm.
//!
//! Dependencies belong to a project and are declared in `fpm.toml`. `fpm
//! update --fetch-only` fetches what is declared, `fpm update` upgrades it.
//! What is resolved is read from fpm's cache below the build directory. No
//! command takes a declaration away.

use vstd::prelude::*;

use crate::command::{self, Cmd, CmdView, Plan};
use crate::data::{self, Data, DataView};
use crate::detect::{self, Detection};
use crate::error::{self, Error, ErrorView};
use crate::package::{Details, InstallState, Package, PackageView};
use crate::path;
use crate::profile::{basic_capabilities, Capabilities, ManagerKind, Profile};
use crate::request::{self, OpContext, PackageRequest, RequestView};
use crate::rows;
use crate::session::{self, Action, ActionView, Listing, Reply, ReplyView, Step, StepView};
use crate::text::{self, chars, Deep, Text};

verus! {

/// Finds the manager and sets it up.
#[derive(Clone, Copy, Debug)]
pub struct Factory;

/// The factory of this backend.
pub fn factory() -> (r: Factory)
    ensures
        r == Factory,
{
    Factory
}

impl Factory {
    pub fn id(&self) -> (r: &'static str)
        ensures
            r@ == "fpm"@,
    {
        "fpm"
    }

    /// The programs to look for, in the order of preference.
    pub fn programs(&self) -> (r: Vec<&'static str>)
        ensures
            r@.deep() == seq!["fpm"@],
    {
        let mut out: Vec<&'static str> = Vec::new();
        out.push("fpm");
        assert(out@.deep() =~= seq!["fpm"@]);
        out
    }

    /// Whether the backend can be used, given where each program was found.
    pub fn detect(&self, found: &[Option<String>]) -> (r: Detection)
        ensures
            r@ == detect::detected(found@, "`fpm` not found on PATH"@),
    {
        detect::detect(found, "`fpm` not found on PATH")
    }

    /// The manager, given where each program was found.
    pub fn create(&self, found: &[Option<String>]) -> (r: Result<Manager, Error>)
        ensures
            match r {
                Ok(manager) => detect::required(found@, "fpm"@) == Ok::<Seq<char>, ErrorView>(
                    manager.program@,
                ),
                Err(error) => detect::required(found@, "fpm"@) == Err::<Seq<char>, ErrorView>(
                    error@,
                ),
            },
    {
        match detect::require(found, "fpm") {
            Ok(program) => Ok(Manager { program }),
            Err(error) => Err(error),
        }
    }
}

/// The manager, driving `program`.
#[derive(Debug)]
pub struct Manager {
    pub program: String,
}

impl Manager {
    /// What the manager says of itself.
    pub fn profile(&self) -> (r: Profile)
        ensures
            r.id@ == "fpm"@,
            r.display_name@ == "Fortran fpm"@,
            r.kind == ManagerKind::Language,
            r.database_id@ == "fpm"@,
            r.capabilities == (Capabilities { upgrade: true, ..Capabilities::basic() }),
            r.elevates == false,
    {
        Profile {
            id: "fpm",
            display_name: "Fortran fpm",
            kind: ManagerKind::Language,
            database_id: "fpm",
            capabilities: Capabilities { upgrade: true, ..basic_capabilities() },
            elevates: false,
        }
    }
}

/// A dependency resolved into the build cache.
#[derive(Debug)]
pub struct FpmPackage {
    pub name: String,
    pub version: Option<String>,
    pub description: Option<String>,
    /// Where the dependency lies.
    pub path: Option<String>,
    pub state: InstallState,
}

impl View for FpmPackage {
    type V = PackageView;

    open spec fn view(&self) -> PackageView {
        PackageView {
            name: self.name@,
            version: self.version.deep(),
            description: self.description.deep(),
            origin: self.path.deep(),
            state: self.state,
            ..PackageView::blank()
        }
    }
}

impl Package for FpmPackage {
    open spec fn manager_id() -> Seq<char> {
        "fpm"@
    }

    fn manager(&self) -> (r: &'static str) {
        "fpm"
    }

    fn details(&self) -> (r: Details<'_>) {
        Details {
            version: self.version.as_ref(),
            description: self.description.as_ref(),
            origin: self.path.as_ref(),
            ..Details::of(&self.name, self.state)
        }
    }
}

/// A version belongs into `fpm.toml`.
pub open spec fn reject_pins_spec(requests: Seq<RequestView>) -> Result<(), ErrorView> {
    request::pins_refused(
        requests,
        "fpm: `"@,
        "` cannot be pinned on the command line; set its `v` constraint in fpm.toml"@,
    )
}

pub fn reject_pins(requests: &[PackageRequest]) -> (r: Result<(), Error>)
    ensures
        error::outcome(r) == reject_pins_spec(requests@.deep()),
{
    request::refuse_pins(
        requests,
        "fpm: `",
        "` cannot be pinned on the command line; set its `v` constraint in fpm.toml",
    )
}

impl Manager {
    pub fn install(&self, packages: &[PackageRequest], ctx: &OpContext) -> (r: Plan)
        ensures
            command::plan(r) == match reject_pins_spec(packages@.deep()) {
                Err(error) => Err(error),
                Ok(_) => if ctx.dry_run {
                    Err(ErrorView::Other("fpm: install has no dry-run mode"@))
                } else {
                    command::just(
                        CmdView::new(self.program@).arg("update"@).arg("--fetch-only"@).names(
                            packages@.deep(),
                        ),
                    )
                },
            },
            command::all_elevated(command::plan(r), false),
            ctx.dry_run ==> r is Err,
            request::first_pin(packages@.deep()) is Some ==> r is Err,
            command::plan(r) == match (
                request::pins_refused(
                    packages@.deep(),
                    "fpm: `"@,
                    "` cannot be pinned on the command line; set its `v` constraint in fpm.toml"@,
                )
            ) {
                Err(error) => Err(error),
                Ok(_) => if ctx.dry_run {
                    Err(ErrorView::Other("fpm: install has no dry-run mode"@))
                } else {
                    command::just(
                        CmdView::new(self.program@).arg("update"@).arg("--fetch-only"@).names(
                            packages@.deep(),
                        ),
                    )
                },
            },
    {
        if let Err(error) = reject_pins(packages) {
            return Err(error);
        }
        if ctx.dry_run {
            return Err(error::other("fpm: install has no dry-run mode"));
        }
        Ok(
            command::one(
                Cmd::new(&self.program).arg("update").arg("--fetch-only").names(packages),
            ),
        )
    }

    /// A declaration has to be taken out by hand.
    pub fn remove(&self, packages: &[PackageRequest], ctx: &OpContext) -> (r: Plan)
        ensures
            command::plan(r) == Err::<Seq<CmdView>, ErrorView>(
                ErrorView::Other(
                    "fpm: cannot remove `"@ + (if packages@.len() > 0 {
                        packages@[0].name@
                    } else {
                        "a dependency"@
                    })
                        + "` by command; remove it from fpm.toml, then run `fpm update --clean`"@,
                ),
            ),
    {
        Err(
            Error::Other(
                text::cat3(
                    "fpm: cannot remove `",
                    if packages.len() > 0 {
                        &packages[0].name
                    } else {
                        "a dependency"
                    },
                    "` by command; remove it from fpm.toml, then run `fpm update --clean`",
                ),
            ),
        )
    }

    /// Without names everything is upgraded.
    pub fn upgrade(&self, packages: &[PackageRequest], ctx: &OpContext) -> (r: Plan)
        ensures
            command::plan(r) == match reject_pins_spec(packages@.deep()) {
                Err(error) => Err(error),
                Ok(_) => if ctx.dry_run {
                    Err(ErrorView::Other("fpm: upgrade has no dry-run mode"@))
                } else {
                    command::just(
                        CmdView::new(self.program@).arg("update"@).names(packages@.deep()),
                    )
                },
            },
            command::all_elevated(command::plan(r), false),
            ctx.dry_run ==> r is Err,
            request::first_pin(packages@.deep()) is Some ==> r is Err,
            command::plan(r) == match (
                request::pins_refused(
                    packages@.deep(),
                    "fpm: `"@,
                    "` cannot be pinned on the command line; set its `v` constraint in fpm.toml"@,
                )
            ) {
                Err(error) => Err(error),
                Ok(_) => if ctx.dry_run {
                    Err(ErrorView::Other("fpm: upgrade has no dry-run mode"@))
                } else {
                    command::just(
                        CmdView::new(self.program@).arg("update"@).names(packages@.deep()),
                    )
                },
            },
    {
        if let Err(error) = reject_pins(packages) {
            return Err(error);
        }
        if ctx.dry_run {
            return Err(error::other("fpm: upgrade has no dry-run mode"));
        }
        Ok(command::one(Cmd::new(&self.program).arg("update").names(packages)))
    }

    /// The cache lies in the directory that a variable names, or in `build`.
    pub open spec fn list_installed_spec(self, replies: Seq<ReplyView>) -> StepView<
        Seq<PackageView>,
    > {
        if replies.len() == 0 {
            StepView::Act(ActionView::Variable("FPM_BUILD_DIR"@))
        } else {
            let cache = cache_path_spec(replies[0]);
            if replies.len() == 1 {
                StepView::Act(ActionView::ReadFile(cache))
            } else if !replies[1].success {
                StepView::Fail(
                    ErrorView::Other(
                        "fpm: cannot read resolved dependency cache `"@ + cache + "`: "@
                            + replies[1].stderr + "; run `fpm update --fetch-only` first"@,
                    ),
                )
            } else {
                match parse_cache_spec(replies[1].stdout) {
                    Ok(packages) => StepView::Done(packages),
                    Err(error) => StepView::Fail(error),
                }
            }
        }
    }

    pub fn list_installed(&self, replies: &[Reply]) -> (r: Step<Listing<FpmPackage>>)
        ensures
            r@ == self.list_installed_spec(replies@.deep()),
            r@.only_looks(),
            r@.in_c_locale(),
    {
        if replies.len() == 0 {
            return Step::Act(Action::Variable(text::copy("FPM_BUILD_DIR")));
        }
        assert(replies@.deep()[0] == replies@[0]@);
        let cache = cache_path(&replies[0]);
        if replies.len() == 1 {
            return Step::Act(Action::ReadFile(cache));
        }
        assert(replies@.deep()[1] == replies@[1]@);
        if !replies[1].success {
            return Step::Fail(
                Error::Other(
                    text::cat5(
                        "fpm: cannot read resolved dependency cache `",
                        &cache,
                        "`: ",
                        &replies[1].stderr,
                        "; run `fpm update --fetch-only` first",
                    ),
                ),
            );
        }
        match parse_cache(&replies[1].stdout) {
            Ok(packages) => Step::Done(Listing { packages }),
            Err(error) => Step::Fail(error),
        }
    }

    pub fn info(&self, name: &str, replies: &[Reply]) -> (r: Step<FpmPackage>)
        ensures
            r@ == match self.list_installed_spec(replies@.deep()) {
                StepView::Act(action) => StepView::Act(action),
                StepView::Fail(error) => StepView::Fail(error),
                StepView::Done(packages) => session::found(
                    session::called(packages, name@),
                    name@,
                ),
            },
            r@.only_looks(),
            r@.in_c_locale(),
    {
        match self.list_installed(replies) {
            Step::Act(action) => Step::Act(action),
            Step::Fail(error) => Step::Fail(error),
            Step::Done(listing) => session::find(
                session::take_called(listing.packages, name),
                name,
            ),
        }
    }
}

/// Where the cache lies, given the variable that names the build directory.
pub open spec fn cache_path_spec(variable: ReplyView) -> Seq<char> {
    path::join_spec(
        if variable.success {
            variable.stdout
        } else {
            "build"@
        },
        "cache.toml"@,
    )
}

fn cache_path(variable: &Reply) -> (r: String)
    ensures
        r@ == cache_path_spec(variable@),
{
    path::join(
        if variable.success {
            &variable.stdout
        } else {
            "build"
        },
        "cache.toml",
    )
}

/// A dependency in the cache. The project itself stands there too, in the
/// directory `.`; a dependency without a version has a revision.
pub open spec fn cache_entry_spec(entry: (Seq<char>, DataView)) -> Option<PackageView> {
    let (name, table) = entry;
    let directory = table.get("proj-dir"@).text();
    let version = table.get("version"@).text();
    let revision = match table.get("revision"@).text() {
        Some(revision) => revision.filled(),
        None => None,
    };
    if table.entries() is None || directory == Some("."@) {
        None
    } else {
        Some(
            PackageView {
                origin: directory,
                ..PackageView::versioned(
                    name,
                    if version is Some {
                        version
                    } else {
                        revision
                    },
                    InstallState::Installed,
                )
            },
        )
    }
}

fn cache_entry(name: &str, table: &Data) -> (r: Option<FpmPackage>)
    ensures
        r.deep() == cache_entry_spec((name@, table@)),
{
    if table.entries().is_none() {
        return None;
    }
    let directory = table.string_of("proj-dir");
    let is_project = match &directory {
        Some(directory) => text::equal(directory, "."),
        None => false,
    };
    if is_project {
        return None;
    }
    let version = match table.string_of("version") {
        Some(version) => Some(version),
        None => match table.text_of("revision") {
            Some(revision) => text::maybe_string(text::filled(&chars(revision))),
            None => None,
        },
    };
    Some(
        FpmPackage {
            name: text::copy(name),
            version,
            description: None,
            path: directory,
            state: InstallState::Installed,
        },
    )
}

/// The dependencies in a cache, given what it reads as.
pub open spec fn cache_rows_spec(parsed: Result<DataView, Seq<char>>) -> Result<
    Seq<PackageView>,
    ErrorView,
> {
    match parsed {
        Err(detail) => Err(ErrorView::Parse { what: "fpm dependency cache"@, detail }),
        Ok(document) => match document.get("dependencies"@).entries() {
            None => Err(
                ErrorView::Parse {
                    what: "fpm dependency cache"@,
                    detail: "missing [dependencies] table"@,
                },
            ),
            Some(entries) => Ok(
                rows::select(entries, |entry: (Seq<char>, DataView)| cache_entry_spec(entry)),
            ),
        },
    }
}

pub fn cache_rows(parsed: Result<Data, String>) -> (r: Result<Vec<FpmPackage>, Error>)
    ensures
        error::outcome_list(r) == cache_rows_spec(data::reading(parsed)),
{
    let document = match parsed {
        Err(detail) => {
            return Err(Error::Parse { what: text::copy("fpm dependency cache"), detail });
        },
        Ok(document) => document,
    };
    let table = match document.find("dependencies") {
        Some(table) => table.entries(),
        None => None,
    };
    let entries = match table {
        None => {
            return Err(
                Error::Parse {
                    what: text::copy("fpm dependency cache"),
                    detail: text::copy("missing [dependencies] table"),
                },
            );
        },
        Some(entries) => entries,
    };
    let ghost all = entries@.deep();
    let mut out: Vec<FpmPackage> = rows::empty();
    let mut i: usize = 0;
    while i < entries.len()
        invariant
            i <= entries.len(),
            all == entries@.deep(),
            out@.deep() == rows::select(
                all.take(i as int),
                |entry: (Seq<char>, DataView)| cache_entry_spec(entry),
            ),
        decreases entries.len() - i,
    {
        assert(all.take(i + 1).drop_last() =~= all.take(i as int));
        assert(all.take(i + 1).last() == entries@[i as int]@);
        if let Some(package) = cache_entry(&entries[i].0, &entries[i].1) {
            rows::push(&mut out, package);
        }
        i += 1;
    }
    assert(all.take(all.len() as int) =~= all);
    Ok(out)
}

/// The dependencies in a cache.
pub open spec fn parse_cache_spec(contents: Seq<char>) -> Result<Seq<PackageView>, ErrorView> {
    cache_rows_spec(data::toml_text(contents))
}

pub fn parse_cache(contents: &str) -> (r: Result<Vec<FpmPackage>, Error>)
    ensures
        error::outcome_list(r) == parse_cache_spec(contents@),
{
    cache_rows(data::parse_toml(contents))
}

} // verus!
