//! aura, for Arch Linux.
//!
//! aura shares pacman's database. It tells operations on the repositories
//! (`-S`) from those on the user repository, the AUR (`-A`), so each package
//! is looked up first: what `-Si` finds is in the repositories, anything else
//! is taken for the AUR's. aura gets its privileges itself and is never
//! elevated, because packages are not built as root.

use vstd::prelude::*;

use crate::command::{self, Cmd, CmdView, Plan};
use crate::detect::{self, Detection};
use crate::error::{self, Error, ErrorView};
use crate::package::{self, Details, InstallState, Package, PackageView};
use crate::profile::{basic_capabilities, Capabilities, ManagerKind, Profile};
use crate::request::{self, OpContext, PackageRequest, RequestView};
use crate::rows::{self, Scanner};
use crate::session::{self, Finished, Listing, Reply, ReplyView, Step, StepView};
use crate::text::{self, chars, Deep, Pieces, Text};

verus! {

broadcast use command::group_carries;

/// Finds the manager and sets it up.
#[derive(Clone, Copy, Debug)]
pub struct Factory;

/// The factory of this backend.
pub fn factory() -> (r: Factory)
    ensures
        r == Factory,
{
    Factory
}

impl Factory {
    pub fn id(&self) -> (r: &'static str)
        ensures
            r@ == "aura"@,
    {
        "aura"
    }

    /// The programs to look for, in the order of preference.
    pub fn programs(&self) -> (r: Vec<&'static str>)
        ensures
            r@.deep() == seq!["aura"@],
    {
        let mut out: Vec<&'static str> = Vec::new();
        out.push("aura");
        assert(out@.deep() =~= seq!["aura"@]);
        out
    }

    /// Whether the backend can be used, given where each program was found.
    pub fn detect(&self, found: &[Option<String>]) -> (r: Detection)
        ensures
            r@ == detect::detected(found@, "`aura` not found on PATH"@),
    {
        detect::detect(found, "`aura` not found on PATH")
    }

    /// The manager, given where each program was found.
    pub fn create(&self, found: &[Option<String>]) -> (r: Result<Manager, Error>)
        ensures
            match r {
                Ok(manager) => detect::required(found@, "aura"@) == Ok::<Seq<char>, ErrorView>(
                    manager.program@,
                ),
                Err(error) => detect::required(found@, "aura"@) == Err::<Seq<char>, ErrorView>(
                    error@,
                ),
            },
    {
        match detect::require(found, "aura") {
            Ok(program) => Ok(Manager { program }),
            Err(error) => Err(error),
        }
    }
}

/// The manager, driving `program`.
#[derive(Debug)]
pub struct Manager {
    pub program: String,
}

impl Manager {
    /// What the manager says of itself.
    pub fn profile(&self) -> (r: Profile)
        ensures
            r.id@ == "aura"@,
            r.display_name@ == "Aura"@,
            r.kind == ManagerKind::System,
            r.database_id@ == "alpm"@,
            r.capabilities == (Capabilities {
                search: true,
                refresh: true,
                upgrade: true,
                list_outdated: true,
                ..Capabilities::basic()
            }),
            r.elevates == false,
    {
        Profile {
            id: "aura",
            display_name: "Aura",
            kind: ManagerKind::System,
            database_id: "alpm",
            capabilities: Capabilities {
                search: true,
                refresh: true,
                upgrade: true,
                list_outdated: true,
                ..basic_capabilities()
            },
            elevates: false,
        }
    }
}

/// A package as aura describes it.
#[derive(Debug)]
pub struct AuraPackage {
    pub name: String,
    pub version: Option<String>,
    pub latest_version: Option<String>,
    pub description: Option<String>,
    pub homepage: Option<String>,
    pub license: Option<String>,
    pub architecture: Option<String>,
    pub origin: Option<String>,
    pub dependencies: Option<Vec<String>>,
    pub state: InstallState,
}

impl View for AuraPackage {
    type V = PackageView;

    open spec fn view(&self) -> PackageView {
        PackageView {
            name: self.name@,
            version: self.version.deep(),
            latest_version: self.latest_version.deep(),
            description: self.description.deep(),
            homepage: self.homepage.deep(),
            license: self.license.deep(),
            architecture: self.architecture.deep(),
            origin: self.origin.deep(),
            dependencies: package::maybe_strings(self.dependencies),
            state: self.state,
            ..PackageView::blank()
        }
    }
}

impl Default for AuraPackage {
    fn default() -> (r: AuraPackage)
        ensures
            r@ == PackageView::blank(),
    {
        AuraPackage {
            name: String::new(),
            version: None,
            latest_version: None,
            description: None,
            homepage: None,
            license: None,
            architecture: None,
            origin: None,
            dependencies: None,
            state: InstallState::Unknown,
        }
    }
}

impl Package for AuraPackage {
    open spec fn manager_id() -> Seq<char> {
        "aura"@
    }

    fn manager(&self) -> (r: &'static str) {
        "aura"
    }

    fn details(&self) -> (r: Details<'_>) {
        Details {
            version: self.version.as_ref(),
            latest_version: self.latest_version.as_ref(),
            description: self.description.as_ref(),
            homepage: self.homepage.as_ref(),
            license: self.license.as_ref(),
            architecture: self.architecture.as_ref(),
            origin: self.origin.as_ref(),
            dependencies: self.dependencies.as_ref(),
            ..Details::of(&self.name, self.state)
        }
    }
}

/// There is only the latest version.
pub open spec fn reject_pins_spec(requests: Seq<RequestView>) -> Result<(), ErrorView> {
    request::pins_refused(
        requests,
        "aura: `"@,
        "` pins a version, but alpm only installs the latest"@,
    )
}

pub fn reject_pins(requests: &[PackageRequest]) -> (r: Result<(), Error>)
    ensures
        error::outcome(r) == reject_pins_spec(requests@.deep()),
{
    request::refuse_pins(
        requests,
        "aura: `",
        "` pins a version, but alpm only installs the latest",
    )
}

/// An installed package: `name version`.
pub open spec fn installed_row_spec(line: Seq<char>) -> Option<PackageView> {
    match line.words().nth(0) {
        None => None,
        Some(name) => Some(
            PackageView::versioned(name, line.words().nth(1), InstallState::Installed),
        ),
    }
}

fn installed_row(line: &[char]) -> (r: Option<AuraPackage>)
    ensures
        r.deep() == installed_row_spec(line@),
{
    let words = text::words(line);
    match text::nth(&words, 0) {
        None => None,
        Some(name) => Some(
            AuraPackage {
                name: text::string(name),
                version: text::maybe_string(text::nth(&words, 1)),
                state: InstallState::Installed,
                ..AuraPackage::default()
            },
        ),
    }
}

/// The packages that `aura -Q` prints.
pub open spec fn parse_installed_spec(stdout: Seq<char>) -> Seq<PackageView> {
    rows::select(stdout.lines(), |line: Seq<char>| installed_row_spec(line))
}

pub fn parse_installed(stdout: &str) -> (r: Vec<AuraPackage>)
    ensures
        r@.deep() == parse_installed_spec(stdout@),
        crate::package::all_named(r@.deep()),
        crate::package::all_in(r@.deep(), InstallState::Installed),
{
    proof {
        rows::selected_have(
            stdout@.lines(),
            |line: Seq<char>| installed_row_spec(line),
            |p: PackageView| p.name.len() > 0 && p.state == InstallState::Installed,
        );
    }
    rows::select_rows(stdout, installed_row, Ghost(|line: Seq<char>| installed_row_spec(line)))
}

/// The reading of `aura -Ss`.
struct SearchScan {
    packages: Vec<AuraPackage>,
}

/// The model of the reading of `aura -Ss`.
pub struct SearchScanView {
    pub packages: Seq<PackageView>,
}

impl SearchScanView {
    pub open spec fn start() -> SearchScanView {
        SearchScanView {
            packages: seq![],
        }
    }
}

/// A description with more text.
pub open spec fn longer_spec(description: Option<Seq<char>>, text: Seq<char>) -> Seq<char> {
    match description {
        Some(description) => description + " "@ + text,
        None => text,
    }
}

/// Packages with more description for the last one.
pub open spec fn described_spec(packages: Seq<PackageView>, text: Seq<char>) -> Seq<PackageView> {
    if packages.len() > 0 && text.len() > 0 {
        packages.drop_last().push(
            PackageView {
                description: Some(longer_spec(packages.last().description, text)),
                ..packages.last()
            },
        )
    } else {
        packages
    }
}

fn describe(packages: &mut Vec<AuraPackage>, text: &[char])
    ensures
        final(packages)@.deep() == described_spec(old(packages)@.deep(), text@),
{
    if text.len() == 0 {
        return;
    }
    if let Some(last) = rows::pop(packages) {
        let description = match &last.description {
            Some(description) => text::cat3(description, " ", &text::string(text)),
            None => text::string(text),
        };
        rows::push(packages, AuraPackage { description: Some(description), ..last });
    }
}

/// A hit: `repo/name version [markers]`.
pub open spec fn header_spec(line: Seq<char>) -> Option<PackageView> {
    let words = line.words();
    match words.nth(0) {
        None => None,
        Some(first) => match first.cut("/"@) {
            None => None,
            Some((origin, name)) => Some(
                PackageView {
                    origin: Some(origin),
                    ..PackageView::versioned(
                        name,
                        words.nth(1),
                        if line.has("[installed"@) {
                            InstallState::Installed
                        } else {
                            InstallState::Available
                        },
                    )
                },
            ),
        },
    }
}

fn header(line: &[char]) -> (r: Option<AuraPackage>)
    ensures
        r.deep() == header_spec(line@),
{
    let words = text::words(line);
    match text::nth(&words, 0) {
        None => None,
        Some(first) => match text::cut(first, "/") {
            None => None,
            Some((origin, name)) => {
                let state = if text::has(line, "[installed") {
                    InstallState::Installed
                } else {
                    InstallState::Available
                };
                Some(
                    AuraPackage {
                        name: text::string(name),
                        version: text::maybe_string(text::nth(&words, 1)),
                        origin: Some(text::string(origin)),
                        state,
                        ..AuraPackage::default()
                    },
                )
            },
        },
    }
}

/// The reading of `aura -Ss` after one more line: indented lines describe the
/// package above them.
pub open spec fn search_next_spec(state: SearchScanView, line: Seq<char>) -> SearchScanView {
    SearchScanView {
        packages: if line.begins_blank() {
            described_spec(state.packages, line.trim())
        } else {
            rows::added(state.packages, header_spec(line))
        },
    }
}

impl Scanner for SearchScan {
    type State = SearchScanView;

    closed spec fn state(&self) -> SearchScanView {
        SearchScanView {
            packages: self.packages@.deep(),
        }
    }

    open spec fn next(state: SearchScanView, line: Seq<char>) -> SearchScanView {
        search_next_spec(state, line)
    }

    fn feed(&mut self, line: &[char]) {
        if text::begins_blank(line) {
            describe(&mut self.packages, text::trim(line));
        } else {
            rows::push_some(&mut self.packages, header(line));
        }
    }
}

/// The packages that `aura -Ss` and `aura -As` print.
pub open spec fn parse_search_spec(stdout: Seq<char>) -> Seq<PackageView> {
    rows::scan(
        SearchScanView::start(),
        stdout.lines(),
        |state: SearchScanView, line: Seq<char>| search_next_spec(state, line),
    ).packages
}

pub fn parse_search(stdout: &str) -> (r: Vec<AuraPackage>)
    ensures
        r@.deep() == parse_search_spec(stdout@),
{
    let start = SearchScan {
        packages: Vec::new(),
    };
    assert(start.packages@.deep() =~= seq![]);
    rows::scan_output(
        start,
        stdout,
        Ghost(|state: SearchScanView, line: Seq<char>| search_next_spec(state, line)),
    ).packages
}

/// An outdated package: `name current -> latest`.
pub open spec fn outdated_row_spec(line: Seq<char>) -> Option<PackageView> {
    let words = line.words();
    if words.len() < 4 || words[2] != "->"@ {
        None
    } else {
        Some(
            PackageView {
                latest_version: Some(words[3]),
                ..PackageView::versioned(words[0], Some(words[1]), InstallState::Upgradable)
            },
        )
    }
}

fn outdated_row(line: &[char]) -> (r: Option<AuraPackage>)
    ensures
        r.deep() == outdated_row_spec(line@),
{
    let words = text::words(line);
    if words.len() < 4 || !text::is(words[2], "->") {
        return None;
    }
    Some(
        AuraPackage {
            name: text::string(words[0]),
            version: Some(text::string(words[1])),
            latest_version: Some(text::string(words[3])),
            state: InstallState::Upgradable,
            ..AuraPackage::default()
        },
    )
}

/// The packages that `aura -Qu` prints.
pub open spec fn parse_outdated_spec(stdout: Seq<char>) -> Seq<PackageView> {
    rows::select(stdout.lines(), |line: Seq<char>| outdated_row_spec(line))
}

pub fn parse_outdated(stdout: &str) -> (r: Vec<AuraPackage>)
    ensures
        r@.deep() == parse_outdated_spec(stdout@),
        crate::package::all_named(r@.deep()),
        crate::package::all_in(r@.deep(), InstallState::Upgradable),
{
    proof {
        rows::selected_have(
            stdout@.lines(),
            |line: Seq<char>| outdated_row_spec(line),
            |p: PackageView| p.name.len() > 0 && p.state == InstallState::Upgradable,
        );
    }
    rows::select_rows(stdout, outdated_row, Ghost(|line: Seq<char>| outdated_row_spec(line)))
}

/// The reading of the fields of a package.
struct FieldScan {
    fields: Vec<(String, String)>,
}

/// The model of the reading of the fields of a package.
pub struct FieldScanView {
    pub fields: Seq<(Seq<char>, Seq<char>)>,
}

/// The fields after one more line: `key : value`, or a line that goes on with
/// the value above it.
pub open spec fn field_next_spec(state: FieldScanView, line: Seq<char>) -> FieldScanView {
    if line.begins_blank() || !line.has(":"@) {
        if state.fields.len() > 0 && line.trim().len() > 0 {
            let last = state.fields.last();
            FieldScanView {
                fields: state.fields.drop_last().push((last.0, last.1 + " "@ + line.trim())),
            }
        } else {
            state
        }
    } else {
        match line.cut(":"@) {
            Some((key, value)) => FieldScanView {
                fields: state.fields.push((key.trim(), value.trim())),
            },
            None => state,
        }
    }
}

impl Scanner for FieldScan {
    type State = FieldScanView;

    closed spec fn state(&self) -> FieldScanView {
        FieldScanView { fields: self.fields@.deep() }
    }

    open spec fn next(state: FieldScanView, line: Seq<char>) -> FieldScanView {
        field_next_spec(state, line)
    }

    fn feed(&mut self, line: &[char]) {
        if text::begins_blank(line) || !text::has(line, ":") {
            let text = text::trim(line);
            if text.len() > 0 {
                if let Some((key, value)) = rows::pop(&mut self.fields) {
                    let value = text::cat3(&value, " ", &text::string(text));
                    rows::push(&mut self.fields, (key, value));
                }
            }
        } else if let Some((key, value)) = text::cut(line, ":") {
            rows::push(
                &mut self.fields,
                (text::string(text::trim(key)), text::string(text::trim(value))),
            );
        }
    }
}

/// A package after the field `key` with a value.
pub open spec fn keyed_spec(package: PackageView, key: Seq<char>, value: Seq<char>) -> PackageView {
    if value.len() == 0 || value == "None"@ {
        package
    } else if key == "Name"@ {
        PackageView { name: value, ..package }
    } else if key == "Version"@ {
        PackageView { version: Some(value), ..package }
    } else if key == "Description"@ {
        PackageView { description: Some(value), ..package }
    } else if key == "URL"@ {
        PackageView { homepage: Some(value), ..package }
    } else if key == "Licenses"@ || key == "License"@ {
        PackageView { license: Some(value), ..package }
    } else if key == "Architecture"@ {
        PackageView { architecture: Some(value), ..package }
    } else if key == "Repository"@ {
        PackageView { origin: Some(value), ..package }
    } else if key == "Depends On"@ || key == "Depends"@ {
        PackageView { dependencies: Some(value.words()), ..package }
    } else {
        package
    }
}

fn keyed(package: AuraPackage, key: &str, value: &str) -> (r: AuraPackage)
    ensures
        r@ == keyed_spec(package@, key@, value@),
{
    let t = chars(value);
    if t.len() == 0 || text::equal(value, "None") {
        return package;
    }
    let given = text::copy(value);
    if text::equal(key, "Name") {
        AuraPackage { name: given, ..package }
    } else if text::equal(key, "Version") {
        AuraPackage { version: Some(given), ..package }
    } else if text::equal(key, "Description") {
        AuraPackage { description: Some(given), ..package }
    } else if text::equal(key, "URL") {
        AuraPackage { homepage: Some(given), ..package }
    } else if text::equal(key, "Licenses") || text::equal(key, "License") {
        AuraPackage { license: Some(given), ..package }
    } else if text::equal(key, "Architecture") {
        AuraPackage { architecture: Some(given), ..package }
    } else if text::equal(key, "Repository") {
        AuraPackage { origin: Some(given), ..package }
    } else if text::equal(key, "Depends On") || text::equal(key, "Depends") {
        AuraPackage { dependencies: Some(text::strings(&text::words(&t))), ..package }
    } else {
        package
    }
}

/// A package after all of its fields.
pub open spec fn filled_spec(package: PackageView, fields: Seq<(Seq<char>, Seq<char>)>) -> PackageView
    decreases fields.len(),
{
    if fields.len() == 0 {
        package
    } else {
        keyed_spec(
            filled_spec(package, fields.drop_last()),
            fields.last().0,
            fields.last().1,
        )
    }
}

/// The package that `aura -Qi`, `aura -Si` and `aura -Ai` describe.
pub open spec fn parse_info_spec(stdout: Seq<char>, state: InstallState) -> Option<PackageView> {
    let package = filled_spec(
        PackageView::named(seq![], state),
        rows::scan(
            FieldScanView { fields: seq![] },
            stdout.lines(),
            |state: FieldScanView, line: Seq<char>| field_next_spec(state, line),
        ).fields,
    );
    if package.name.len() == 0 {
        None
    } else {
        Some(package)
    }
}

pub fn parse_info(stdout: &str, state: InstallState) -> (r: Option<AuraPackage>)
    ensures
        r.deep() == parse_info_spec(stdout@, state),
{
    let start = FieldScan { fields: Vec::new() };
    assert(start.fields@.deep() =~= seq![]);
    let fields = rows::scan_output(
        start,
        stdout,
        Ghost(|state: FieldScanView, line: Seq<char>| field_next_spec(state, line)),
    ).fields;
    let ghost all = fields@.deep();
    let mut package = AuraPackage { state, ..AuraPackage::default() };
    let ghost blank = package@;
    let mut i: usize = 0;
    while i < fields.len()
        invariant
            i <= fields.len(),
            all == fields@.deep(),
            package@ == filled_spec(blank, all.take(i as int)),
        decreases fields.len() - i,
    {
        assert(all.take(i + 1).drop_last() =~= all.take(i as int));
        assert(all.take(i + 1).last() == fields@[i as int]@);
        package = keyed(package, &fields[i].0, &fields[i].1);
        i += 1;
    }
    assert(all.take(all.len() as int) =~= all);
    if package::is_nameless(&package) {
        None
    } else {
        Some(package)
    }
}

/// What a search found: a command that does not succeed and prints nothing
/// found nothing.
pub open spec fn hits_spec(reply: ReplyView) -> Seq<PackageView> {
    if reply.success || reply.stdout.trim().len() > 0 {
        parse_search_spec(reply.stdout)
    } else {
        seq![]
    }
}

fn hits(reply: &Reply) -> (r: Vec<AuraPackage>)
    ensures
        r@.deep() == hits_spec(reply@),
{
    if reply.success || !session::is_empty(&reply.stdout) {
        parse_search(&reply.stdout)
    } else {
        rows::empty()
    }
}

/// The names among `names` whose look-up came out as `found`.
pub open spec fn classified_spec(
    names: Seq<Seq<char>>,
    replies: Seq<ReplyView>,
    found: bool,
) -> Seq<Seq<char>>
    decreases names.len(),
{
    if names.len() == 0 {
        seq![]
    } else {
        let rest = classified_spec(names.drop_last(), replies, found);
        if replies[names.len() - 1].success == found {
            rest.push(names.last())
        } else {
            rest
        }
    }
}

fn classified(packages: &[PackageRequest], replies: &[Reply], found: bool) -> (r: Vec<String>)
    requires
        packages@.len() <= replies@.len(),
    ensures
        r@.deep() == classified_spec(request::names(packages@.deep()), replies@.deep(), found),
{
    let ghost all = request::names(packages@.deep());
    let mut out: Vec<String> = rows::empty();
    let mut i: usize = 0;
    while i < packages.len()
        invariant
            i <= packages.len(),
            packages@.len() <= replies@.len(),
            all == request::names(packages@.deep()),
            out@.deep() == classified_spec(all.take(i as int), replies@.deep(), found),
        decreases packages.len() - i,
    {
        assert(all.take(i + 1).drop_last() =~= all.take(i as int));
        assert(all.take(i + 1).last() == packages@[i as int].name@);
        assert(replies@.deep()[i as int] == replies@[i as int]@);
        if replies[i].success == found {
            rows::push(&mut out, text::copy(&packages[i].name));
        }
        i += 1;
    }
    assert(all.take(all.len() as int) =~= all);
    out
}

impl Manager {
    /// One command for the packages of the repositories, one for those of the
    /// AUR, as far as there are any.
    pub open spec fn both_spec(
        self,
        repo: Seq<Seq<char>>,
        aur: Seq<Seq<char>>,
        needed: bool,
        ctx: OpContext,
    ) -> Seq<CmdView> {
        let sync = CmdView::new(self.program@).arg("-S"@).flag(needed, "--needed"@).flag(
            ctx.assume_yes,
            "--noconfirm"@,
        ).args(repo);
        let build = CmdView::new(self.program@).arg("-A"@).flag(
            ctx.assume_yes,
            "--noconfirm"@,
        ).args(aur);
        (if repo.len() > 0 {
            seq![sync]
        } else {
            seq![]
        }) + (if aur.len() > 0 {
            seq![build]
        } else {
            seq![]
        })
    }

    fn both(&self, repo: Vec<String>, aur: Vec<String>, needed: bool, ctx: &OpContext) -> (r: Vec<
        Cmd,
    >)
        ensures
            r@.deep() == self.both_spec(repo@.deep(), aur@.deep(), needed, *ctx),
    {
        let mut out: Vec<Cmd> = rows::empty();
        if repo.len() > 0 {
            rows::push(
                &mut out,
                Cmd::new(&self.program).arg("-S").flag(needed, "--needed").flag(
                    ctx.assume_yes,
                    "--noconfirm",
                ).args(&repo),
            );
        }
        if aur.len() > 0 {
            rows::push(
                &mut out,
                Cmd::new(&self.program).arg("-A").flag(ctx.assume_yes, "--noconfirm").args(&aur),
            );
        }
        assert(out@.deep() =~= self.both_spec(repo@.deep(), aur@.deep(), needed, *ctx));
        out
    }

    /// Looks every package up, then installs it from where it is.
    pub open spec fn sorted_install_spec(
        self,
        packages: Seq<RequestView>,
        needed: bool,
        ctx: OpContext,
        replies: Seq<ReplyView>,
    ) -> StepView<()> {
        let names = request::names(packages);
        if replies.len() < names.len() {
            session::ask(
                CmdView::query(self.program@).arg("-Si"@).arg(names[replies.len() as int]),
            )
        } else {
            session::running_all(
                self.both_spec(
                    classified_spec(names, replies, true),
                    classified_spec(names, replies, false),
                    needed,
                    ctx,
                ),
                replies.skip(names.len() as int),
            ).whole()
        }
    }

    fn sorted_install(
        &self,
        packages: &[PackageRequest],
        needed: bool,
        ctx: &OpContext,
        replies: &[Reply],
    ) -> (r: Step<Finished>)
        ensures
            r@ == self.sorted_install_spec(packages@.deep(), needed, *ctx, replies@.deep()),
            r@.unprivileged(),
    {
        if replies.len() < packages.len() {
            assert(request::names(packages@.deep())[replies@.len() as int]
                == packages@[replies@.len() as int].name@);
            return session::query(
                Cmd::query(&self.program).arg("-Si").arg(&packages[replies.len()].name),
            );
        }
        let commands = self.both(
            classified(packages, replies, true),
            classified(packages, replies, false),
            needed,
            ctx,
        );
        session::run_all(commands, session::from(replies, packages.len())).whole()
    }

    pub fn install(
        &self,
        packages: &[PackageRequest],
        ctx: &OpContext,
        replies: &[Reply],
    ) -> (r: Step<Finished>)
        ensures
            r@ == match reject_pins_spec(packages@.deep()) {
                Err(error) => StepView::Fail(error),
                Ok(_) => if ctx.dry_run {
                    StepView::Fail(
                        ErrorView::Other("aura: install has no reliable dry-run mode"@),
                    )
                } else {
                    self.sorted_install_spec(packages@.deep(), true, *ctx, replies@.deep())
                },
            },
            ctx.dry_run ==> r is Fail,
            request::first_pin(packages@.deep()) is Some ==> r is Fail,
            r@.unprivileged(),
            r@ == match (
                request::pins_refused(
                    packages@.deep(),
                    "aura: `"@,
                    "` pins a version, but alpm only installs the latest"@,
                )
            ) {
                Err(error) => StepView::Fail(error),
                Ok(_) => if ctx.dry_run {
                    StepView::Fail(
                        ErrorView::Other("aura: install has no reliable dry-run mode"@),
                    )
                } else {
                    self.sorted_install_spec(packages@.deep(), true, *ctx, replies@.deep())
                },
            },
    {
        if let Err(error) = reject_pins(packages) {
            return Step::Fail(error);
        }
        if ctx.dry_run {
            return Step::Fail(error::other("aura: install has no reliable dry-run mode"));
        }
        self.sorted_install(packages, true, ctx, replies)
    }

    pub fn remove(&self, packages: &[PackageRequest], ctx: &OpContext) -> (r: Plan)
        ensures
            command::plan(r) == if ctx.dry_run {
                Err(ErrorView::Other("aura: remove has no reliable dry-run mode"@))
            } else {
                command::just(
                    CmdView::new(self.program@).arg("-R"@).flag(ctx.assume_yes, "--noconfirm"@)
                        .names(packages@.deep()),
                )
            },
            command::all_elevated(command::plan(r), false),
            ctx.dry_run ==> r is Err,
            ctx.assume_yes ==> command::all_carry(command::plan(r), "--noconfirm"@),
    {
        if ctx.dry_run {
            return Err(error::other("aura: remove has no reliable dry-run mode"));
        }
        Ok(
            command::one(
                Cmd::new(&self.program).arg("-R").flag(ctx.assume_yes, "--noconfirm")
                    .names(packages),
            ),
        )
    }

    pub fn refresh(&self, ctx: &OpContext) -> (r: Plan)
        ensures
            command::plan(r) == if ctx.dry_run {
                Err(ErrorView::Other("aura: refresh has no reliable dry-run mode"@))
            } else {
                command::just(CmdView::new(self.program@).arg("-Sy"@))
            },
            command::all_elevated(command::plan(r), false),
            ctx.dry_run ==> r is Err,
    {
        if ctx.dry_run {
            return Err(error::other("aura: refresh has no reliable dry-run mode"));
        }
        Ok(command::one(Cmd::new(&self.program).arg("-Sy")))
    }

    /// Without names the repositories are upgraded, then the AUR.
    pub open spec fn upgrade_all_spec(self, ctx: OpContext) -> Seq<CmdView> {
        seq![
            CmdView::new(self.program@).arg("-Syu"@).flag(ctx.assume_yes, "--noconfirm"@),
            CmdView::new(self.program@).arg("-Au"@).flag(ctx.assume_yes, "--noconfirm"@),
        ]
    }

    pub fn upgrade(
        &self,
        packages: &[PackageRequest],
        ctx: &OpContext,
        replies: &[Reply],
    ) -> (r: Step<Finished>)
        ensures
            r@ == match reject_pins_spec(packages@.deep()) {
                Err(error) => StepView::Fail(error),
                Ok(_) => if ctx.dry_run {
                    StepView::Fail(
                        ErrorView::Other("aura: upgrade has no reliable dry-run mode"@),
                    )
                } else if packages@.len() == 0 {
                    session::running_all(self.upgrade_all_spec(*ctx), replies@.deep()).whole()
                } else {
                    self.sorted_install_spec(packages@.deep(), false, *ctx, replies@.deep())
                },
            },
            ctx.dry_run ==> r is Fail,
            request::first_pin(packages@.deep()) is Some ==> r is Fail,
            r@.unprivileged(),
            r@ == match (
                request::pins_refused(
                    packages@.deep(),
                    "aura: `"@,
                    "` pins a version, but alpm only installs the latest"@,
                )
            ) {
                Err(error) => StepView::Fail(error),
                Ok(_) => if ctx.dry_run {
                    StepView::Fail(
                        ErrorView::Other("aura: upgrade has no reliable dry-run mode"@),
                    )
                } else if packages@.len() == 0 {
                    session::running_all(
                        (
                            seq![
                                CmdView::new(self.program@).arg("-Syu"@).flag(
                                    ctx.assume_yes,
                                    "--noconfirm"@,
                                ),
                                CmdView::new(self.program@).arg("-Au"@).flag(
                                    ctx.assume_yes,
                                    "--noconfirm"@,
                                ),
                            ]
                        ),
                        replies@.deep(),
                    ).whole()
                } else {
                    self.sorted_install_spec(packages@.deep(), false, *ctx, replies@.deep())
                },
            },
    {
        if let Err(error) = reject_pins(packages) {
            return Step::Fail(error);
        }
        if ctx.dry_run {
            return Step::Fail(error::other("aura: upgrade has no reliable dry-run mode"));
        }
        if packages.len() == 0 {
            let commands = command::and(
                command::one(
                    Cmd::new(&self.program).arg("-Syu").flag(ctx.assume_yes, "--noconfirm"),
                ),
                Cmd::new(&self.program).arg("-Au").flag(ctx.assume_yes, "--noconfirm"),
            );
            assert(commands@.deep() =~= self.upgrade_all_spec(*ctx));
            return session::run_all(commands, replies).whole();
        }
        self.sorted_install(packages, false, ctx, replies)
    }

    pub fn list_installed(&self, replies: &[Reply]) -> (r: Step<Listing<AuraPackage>>)
        ensures
            r@ == session::listed(
                CmdView::query(self.program@).arg("-Q"@),
                replies@.deep(),
                |out: Seq<char>| parse_installed_spec(out),
            ),
            r@.only_looks(),
            r@.in_c_locale(),
    {
        session::list(
            Cmd::query(&self.program).arg("-Q"),
            replies,
            parse_installed,
            Ghost(|out: Seq<char>| parse_installed_spec(out)),
        )
    }

    /// The updates of the repositories; those of the AUR cannot be told.
    pub fn list_outdated(&self, replies: &[Reply]) -> (r: Step<Listing<AuraPackage>>)
        ensures
            r@ == session::searched(
                CmdView::query(self.program@).arg("-Qu"@),
                replies@.deep(),
                |out: Seq<char>| parse_outdated_spec(out),
            ),
            r@.only_looks(),
            r@.in_c_locale(),
    {
        session::search(
            Cmd::query(&self.program).arg("-Qu"),
            replies,
            parse_outdated,
            Ghost(|out: Seq<char>| parse_outdated_spec(out)),
        )
    }

    /// The hits in the repositories, then those in the AUR.
    pub fn search(&self, query: &str, replies: &[Reply]) -> (r: Step<Listing<AuraPackage>>)
        ensures
            r@ == (if replies@.len() == 0 {
                session::ask(CmdView::query(self.program@).arg("-Ss"@).arg(query@))
            } else if replies@.len() == 1 {
                session::ask(CmdView::query(self.program@).arg("-As"@).arg(query@))
            } else {
                StepView::Done(hits_spec(replies@[0]@) + hits_spec(replies@[1]@))
            }),
            r@.only_looks(),
            r@.in_c_locale(),
    {
        if replies.len() == 0 {
            return session::query(Cmd::query(&self.program).arg("-Ss").arg(query));
        }
        if replies.len() == 1 {
            return session::query(Cmd::query(&self.program).arg("-As").arg(query));
        }
        let mut packages = hits(&replies[0]);
        rows::append(&mut packages, hits(&replies[1]));
        Step::Done(Listing { packages })
    }

    /// What one of the look-ups says.
    pub open spec fn description_spec(reply: ReplyView, state: InstallState) -> Option<PackageView> {
        if reply.success {
            parse_info_spec(reply.stdout, state)
        } else {
            None
        }
    }

    fn description(reply: &Reply, state: InstallState) -> (r: Option<AuraPackage>)
        ensures
            r.deep() == Self::description_spec(reply@, state),
    {
        if reply.success {
            parse_info(&reply.stdout, state)
        } else {
            None
        }
    }

    /// What is installed, then the repositories, then the AUR: the first that
    /// knows the package describes it.
    pub open spec fn info_spec(self, name: Seq<char>, replies: Seq<ReplyView>) -> StepView<
        PackageView,
    > {
        if replies.len() == 0 {
            session::ask(CmdView::query(self.program@).arg("-Qi"@).arg(name))
        } else {
            match Self::description_spec(replies[0], InstallState::Installed) {
                Some(package) => StepView::Done(package),
                None => if replies.len() == 1 {
                    session::ask(CmdView::query(self.program@).arg("-Si"@).arg(name))
                } else {
                    match Self::description_spec(replies[1], InstallState::Available) {
                        Some(package) => StepView::Done(package),
                        None => if replies.len() == 2 {
                            session::ask(CmdView::query(self.program@).arg("-Ai"@).arg(name))
                        } else {
                            session::found(
                                Self::description_spec(replies[2], InstallState::Available),
                                name,
                            )
                        },
                    }
                },
            }
        }
    }

    pub fn info(&self, name: &str, replies: &[Reply]) -> (r: Step<AuraPackage>)
        ensures
            r@ == self.info_spec(name@, replies@.deep()),
            r@.only_looks(),
            r@.in_c_locale(),
    {
        if replies.len() == 0 {
            return session::query(Cmd::query(&self.program).arg("-Qi").arg(name));
        }
        assert(replies@.deep()[0] == replies@[0]@);
        if let Some(package) = Self::description(&replies[0], InstallState::Installed) {
            return Step::Done(package);
        }
        if replies.len() == 1 {
            return session::query(Cmd::query(&self.program).arg("-Si").arg(name));
        }
        assert(replies@.deep()[1] == replies@[1]@);
        if let Some(package) = Self::description(&replies[1], InstallState::Available) {
            return Step::Done(package);
        }
        if replies.len() == 2 {
            return session::query(Cmd::query(&self.program).arg("-Ai").arg(name));
        }
        assert(replies@.deep()[2] == replies@[2]@);
        session::find(Self::description(&replies[2], InstallState::Available), name)
    }
}

} // verus!
