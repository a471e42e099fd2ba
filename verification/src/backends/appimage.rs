//! AppImages, through `am`.
//!
//! `zap` and `appimaged` are found too, but only `am` can be driven as a
//! package manager; of the others it is said what to install. `am` gets its
//! privileges itself, so it is never elevated here, though the user may be
//! asked for a password. It draws its tables with bullets, bars and colours
//! even into a pipe. It has no dry run, and does not tell what is outdated.

use vstd::prelude::*;

use crate::command::{self, Cmd, CmdView, Plan};
use crate::detect::{self, Detection};
use crate::error::{self, Error, ErrorView};
use crate::package::{Details, InstallState, Package, PackageView};
use crate::path;
use crate::profile::{basic_capabilities, Capabilities, ManagerKind, Profile};
use crate::request::{self, OpContext, PackageRequest, RequestView};
use crate::rows;
use crate::session::{self, Listing, Reply, ReplyView, Step, StepView};
use crate::text::{self, chars, Deep, Pieces, Text};

verus! {

/// Finds the manager and sets it up.
#[derive(Clone, Copy, Debug)]
pub struct Factory;

/// The factory of this backend.
pub fn factory() -> (r: Factory)
    ensures
        r == Factory,
{
    Factory
}

impl Factory {
    pub fn id(&self) -> (r: &'static str)
        ensures
            r@ == "appimage"@,
    {
        "appimage"
    }

    /// The programs to look for, in the order of preference.
    pub fn programs(&self) -> (r: Vec<&'static str>)
        ensures
            r@.deep() == seq!["am"@, "zap"@, "appimaged"@],
    {
        let mut out: Vec<&'static str> = Vec::new();
        out.push("am");
        out.push("zap");
        out.push("appimaged");
        assert(out@.deep() =~= seq!["am"@, "zap"@, "appimaged"@]);
        out
    }

    /// Whether the backend can be used, given where each program was found.
    pub fn detect(&self, found: &[Option<String>]) -> (r: Detection)
        ensures
            r@ == detect::detected(
                found@,
                "none of [\"am\", \"zap\", \"appimaged\"] found on PATH"@,
            ),
    {
        detect::detect(found, "none of [\"am\", \"zap\", \"appimaged\"] found on PATH")
    }

    /// The manager, given where each program was found.
    pub fn create(&self, found: &[Option<String>]) -> (r: Result<Manager, Error>)
        ensures
            match r {
                Ok(manager) => detect::required(found@, "appimage"@) == Ok::<Seq<char>, ErrorView>(
                    manager.program@,
                ),
                Err(error) => detect::required(found@, "appimage"@) == Err::<Seq<char>, ErrorView>(
                    error@,
                ),
            },
    {
        match detect::require(found, "appimage") {
            Ok(program) => Ok(Manager { program }),
            Err(error) => Err(error),
        }
    }
}

/// The manager, driving `program`.
#[derive(Debug)]
pub struct Manager {
    pub program: String,
}

impl Manager {
    /// What the manager says of itself.
    pub fn profile(&self) -> (r: Profile)
        ensures
            r.id@ == "appimage"@,
            r.display_name@ == "AppImage"@,
            r.kind == ManagerKind::Universal,
            r.database_id@ == "appimage"@,
            r.capabilities == (Capabilities {
                search: true,
                upgrade: true,
                ..Capabilities::basic()
            }),
            r.elevates == true,
    {
        Profile {
            id: "appimage",
            display_name: "AppImage",
            kind: ManagerKind::Universal,
            database_id: "appimage",
            capabilities: Capabilities { search: true, upgrade: true, ..basic_capabilities() },
            elevates: true,
        }
    }
}

/// A package as AM describes it.
#[derive(Debug)]
pub struct AppimagePackage {
    pub name: String,
    pub version: Option<String>,
    pub description: Option<String>,
    pub state: InstallState,
}

impl View for AppimagePackage {
    type V = PackageView;

    open spec fn view(&self) -> PackageView {
        PackageView {
            name: self.name@,
            version: self.version.deep(),
            description: self.description.deep(),
            state: self.state,
            ..PackageView::blank()
        }
    }
}

impl Default for AppimagePackage {
    fn default() -> (r: AppimagePackage)
        ensures
            r@ == PackageView::blank(),
    {
        AppimagePackage {
            name: String::new(),
            version: None,
            description: None,
            state: InstallState::Unknown,
        }
    }
}

impl Package for AppimagePackage {
    open spec fn manager_id() -> Seq<char> {
        "appimage"@
    }

    fn manager(&self) -> (r: &'static str) {
        "appimage"
    }

    fn details(&self) -> (r: Details<'_>) {
        Details {
            version: self.version.as_ref(),
            description: self.description.as_ref(),
            ..Details::of(&self.name, self.state)
        }
    }
}

/// The latest release of an application is installed.
pub open spec fn reject_pins_spec(requests: Seq<RequestView>) -> Result<(), ErrorView> {
    request::pins_refused(
        requests,
        "appimage: `"@,
        "` pins a version, but AM only installs an app's latest release"@,
    )
}

pub fn reject_pins(requests: &[PackageRequest]) -> (r: Result<(), Error>)
    ensures
        error::outcome(r) == reject_pins_spec(requests@.deep()),
{
    request::refuse_pins(
        requests,
        "appimage: `",
        "` pins a version, but AM only installs an app's latest release",
    )
}

/// What is left of a control sequence once its opening is read: everything
/// behind the character that ends it.
pub open spec fn after_sequence(s: Seq<char>) -> Seq<char>
    decreases s.len(),
{
    if s.len() == 0 {
        s
    } else if '@' <= s[0] <= '~' {
        s.skip(1)
    } else {
        after_sequence(s.skip(1))
    }
}

/// A control sequence ends within its text.
pub proof fn lemma_after_sequence(s: Seq<char>)
    ensures
        after_sequence(s).len() <= s.len(),
    decreases s.len(),
{
    if s.len() > 0 && !('@' <= s[0] <= '~') {
        lemma_after_sequence(s.skip(1));
    }
}

/// A text without escape sequences: an escape and the character behind it are
/// dropped, and with `[` the whole control sequence.
pub open spec fn strip_ansi_spec(text: Seq<char>) -> Seq<char>
    decreases text.len(),
{
    proof {
        if text.len() > 2 {
            lemma_after_sequence(text.skip(2));
        }
    }
    if text.len() == 0 {
        seq![]
    } else if text[0] != '\u{1b}' {
        seq![text[0]] + strip_ansi_spec(text.skip(1))
    } else if text.len() <= 2 {
        seq![]
    } else if text[1] == '[' {
        strip_ansi_spec(after_sequence(text.skip(2)))
    } else {
        strip_ansi_spec(text.skip(2))
    }
}

fn sequence_end(t: &[char], from: usize) -> (r: usize)
    requires
        from <= t@.len(),
    ensures
        from <= r <= t@.len(),
        t@.skip(r as int) == after_sequence(t@.skip(from as int)),
{
    let mut i: usize = from;
    while i < t.len()
        invariant
            from <= i <= t.len(),
            after_sequence(t@.skip(from as int)) == after_sequence(t@.skip(i as int)),
        decreases t.len() - i,
    {
        assert(t@.skip(i as int)[0] == t@[i as int]);
        assert(t@.skip(i as int).skip(1) =~= t@.skip(i + 1));
        let c = t[i];
        i += 1;
        if '@' <= c && c <= '~' {
            return i;
        }
    }
    i
}

pub fn strip_ansi(text: &str) -> (r: String)
    ensures
        r@ == strip_ansi_spec(text@),
{
    let t = chars(text);
    let n: usize = t.len();
    let mut out: Vec<char> = Vec::new();
    let mut i: usize = 0;
    assert(t@.skip(0) =~= t@);
    while i < n
        invariant
            i <= n,
            n == t@.len(),
            t@ == text@,
            strip_ansi_spec(text@) == out@ + strip_ansi_spec(t@.skip(i as int)),
        decreases n - i,
    {
        let ghost rest = t@.skip(i as int);
        let c = t[i];
        assert(rest[0] == c);
        if c != '\u{1b}' {
            assert(rest.skip(1) =~= t@.skip(i + 1));
            out.push(c);
            i += 1;
            assert(strip_ansi_spec(text@) =~= out@ + strip_ansi_spec(t@.skip(i as int)));
        } else if n - i <= 2 {
            i = n;
            assert(t@.skip(n as int) =~= seq![]);
        } else {
            assert(rest[1] == t@[i + 1]);
            assert(rest.skip(2) =~= t@.skip(i + 2));
            if t[i + 1] == '[' {
                i = sequence_end(&t, i + 2);
            } else {
                i += 2;
            }
        }
    }
    assert(out@ =~= out@ + strip_ansi_spec(t@.skip(i as int)));
    text::string(&out)
}

/// No escape is left in a stripped text.
pub proof fn stripping_leaves_no_escape(text: Seq<char>)
    ensures
        !strip_ansi_spec(text).contains('\u{1b}'),
    decreases text.len(),
{
    if text.len() == 0 {
    } else if text[0] != '\u{1b}' {
        let rest = strip_ansi_spec(text.skip(1));
        stripping_leaves_no_escape(text.skip(1));
        let all = seq![text[0]] + rest;
        assert forall|i: int| 0 <= i < all.len() implies all[i] != '\u{1b}' by {
            if i > 0 {
                assert(all[i] == rest[i - 1]);
                assert(rest.contains(rest[i - 1]));
            }
        }
    } else if text.len() > 2 {
        lemma_after_sequence(text.skip(2));
        if text[1] == '[' {
            stripping_leaves_no_escape(after_sequence(text.skip(2)));
        } else {
            stripping_leaves_no_escape(text.skip(2));
        }
    }
}

/// A text without escapes is left as it is.
pub proof fn plain_text_is_kept(text: Seq<char>)
    requires
        !text.contains('\u{1b}'),
    ensures
        strip_ansi_spec(text) == text,
    decreases text.len(),
{
    if text.len() > 0 {
        assert(text.contains(text[0]));
        assert forall|i: int| 0 <= i < text.skip(1).len() implies text.skip(1)[i]
            != '\u{1b}' by {
            assert(text.contains(text[i + 1]));
        }
        plain_text_is_kept(text.skip(1));
        assert(seq![text[0]] + text.skip(1) =~= text);
    }
}

/// A row of the table: the name behind a bullet, then the version, before
/// which a database may be named.
pub open spec fn file_row_spec(line: Seq<char>, named_database: bool) -> Option<PackageView> {
    match line.trim().without_prefix("\u{25c6}"@) {
        None => None,
        Some(row) => {
            let fields = row.split("|"@);
            let name = fields[0].trim();
            let version = if named_database {
                fields.nth(2)
            } else {
                fields.nth(1)
            };
            if version is None || name.len() == 0 {
                None
            } else {
                Some(
                    PackageView::versioned(
                        name,
                        version->0.trim().filled(),
                        InstallState::Installed,
                    ),
                )
            }
        },
    }
}

fn file_row(line: &[char], named_database: bool) -> (r: Option<AppimagePackage>)
    ensures
        r.deep() == file_row_spec(line@, named_database),
{
    let row = match text::without_prefix(text::trim(line), "\u{25c6}") {
        None => {
            return None;
        },
        Some(row) => row,
    };
    let fields = text::split(row, "|");
    proof {
        text::lemma_split_some(row@, "|"@);
    }
    let name = text::trim(fields[0]);
    let version = if named_database {
        text::nth(&fields, 2)
    } else {
        text::nth(&fields, 1)
    };
    match version {
        None => None,
        Some(version) => {
            if name.len() == 0 {
                return None;
            }
            Some(
                AppimagePackage {
                    name: text::string(name),
                    version: text::maybe_string(text::filled(text::trim(version))),
                    description: None,
                    state: InstallState::Installed,
                },
            )
        },
    }
}

/// Whether a heading has a column for the database.
pub open spec fn names_database(line: Seq<char>) -> bool {
    line.has("APPNAME"@) && line.has("| DB |"@)
}

/// The programs in the table that `am -f` prints.
pub open spec fn parse_files_spec(stdout: Seq<char>) -> Seq<PackageView> {
    let lines = strip_ansi_spec(stdout).lines();
    let named = rows::first(lines, |line: Seq<char>| names_database(line)) is Some;
    rows::select(lines, |line: Seq<char>| file_row_spec(line, named))
}

pub fn parse_files(stdout: &str) -> (r: Vec<AppimagePackage>)
    ensures
        r@.deep() == parse_files_spec(stdout@),
{
    let plain = chars(&strip_ansi(stdout));
    let lines = text::lines(&plain);
    let heading = |line: &&[char]| -> (b: bool)
        ensures
            b == names_database(line@),
        { text::has(*line, "APPNAME") && text::has(*line, "| DB |") };
    let named = rows::find(
        &lines,
        heading,
        Ghost(|line: Seq<char>| names_database(line)),
    ).is_some();
    let row = |line: &[char]| -> (o: Option<AppimagePackage>)
        ensures
            o.deep() == file_row_spec(line@, named),
        { file_row(line, named) };
    rows::select_lines(&lines, row, Ghost(|line: Seq<char>| file_row_spec(line, named)))
}

/// A hit: a name behind a bullet, and a description behind a colon.
pub open spec fn query_row_spec(line: Seq<char>) -> Option<PackageView> {
    match line.trim().without_prefix("\u{25c6}"@) {
        None => None,
        Some(row) => {
            let (name, description) = match row.trim().cut(":"@) {
                Some((name, description)) => (name.trim(), description.trim().filled()),
                None => (row.trim(), None),
            };
            if name.len() == 0 {
                None
            } else {
                Some(
                    PackageView {
                        description,
                        ..PackageView::named(name, InstallState::Available)
                    },
                )
            }
        },
    }
}

fn query_row(line: &[char]) -> (r: Option<AppimagePackage>)
    ensures
        r.deep() == query_row_spec(line@),
{
    let row = match text::without_prefix(text::trim(line), "\u{25c6}") {
        None => {
            return None;
        },
        Some(row) => text::trim(row),
    };
    let (name, description) = match text::cut(row, ":") {
        Some((name, description)) => (
            text::trim(name),
            text::filled(text::trim(description)),
        ),
        None => (row, None),
    };
    if name.len() == 0 {
        return None;
    }
    Some(
        AppimagePackage {
            name: text::string(name),
            version: None,
            description: text::maybe_string(description),
            state: InstallState::Available,
        },
    )
}

/// The hits that `am -q` prints.
pub open spec fn parse_query_spec(stdout: Seq<char>) -> Seq<PackageView> {
    rows::select(
        strip_ansi_spec(stdout).lines(),
        |line: Seq<char>| query_row_spec(line),
    )
}

pub fn parse_query(stdout: &str) -> (r: Vec<AppimagePackage>)
    ensures
        r@.deep() == parse_query_spec(stdout@),
{
    rows::select_rows(
        &strip_ansi(stdout),
        query_row,
        Ghost(|line: Seq<char>| query_row_spec(line)),
    )
}

/// What a query found: a command that does not succeed and prints nothing
/// found nothing.
pub open spec fn database_spec(reply: ReplyView) -> Seq<PackageView> {
    if reply.success || reply.stdout.trim().len() > 0 {
        parse_query_spec(reply.stdout)
    } else {
        seq![]
    }
}

pub fn database(reply: &Reply) -> (r: Vec<AppimagePackage>)
    ensures
        r@.deep() == database_spec(reply@),
{
    if reply.success || !session::is_empty(&reply.stdout) {
        parse_query(&reply.stdout)
    } else {
        rows::empty()
    }
}

/// An installed program with the description of the database, or else the hit
/// itself.
pub open spec fn merge_spec(
    installed: Option<PackageView>,
    described: Option<PackageView>,
) -> Option<PackageView> {
    match installed {
        None => described,
        Some(package) => Some(
            PackageView {
                description: match described {
                    Some(hit) => hit.description,
                    None => None,
                },
                ..package
            },
        ),
    }
}

pub fn merge(installed: Option<AppimagePackage>, described: Option<AppimagePackage>) -> (r: Option<
    AppimagePackage,
>)
    ensures
        r.deep() == merge_spec(installed.deep(), described.deep()),
{
    match installed {
        None => described,
        Some(package) => {
            let description = match described {
                Some(hit) => hit.description,
                None => None,
            };
            Some(AppimagePackage { description, ..package })
        },
    }
}

impl Manager {
    /// Only `am` can be driven.
    pub open spec fn require_am_spec(self) -> Result<(), ErrorView> {
        if path::file_name_spec(self.program@) == Some("am"@) {
            Ok(())
        } else {
            Err(
                ErrorView::Other(
                    "appimage: found `"@ + self.program@
                        + "`, but this backend drives `am` (ivan-hc/AM) - install `am` to manage AppImages through snowcone"@,
                ),
            )
        }
    }

    fn require_am(&self) -> (r: Result<(), Error>)
        ensures
            error::outcome(r) == self.require_am_spec(),
    {
        let is_am = match path::file_name(&chars(&self.program)) {
            Some(name) => text::is(name, "am"),
            None => false,
        };
        if is_am {
            Ok(())
        } else {
            Err(
                Error::Other(
                    text::cat3(
                        "appimage: found `",
                        &self.program,
                        "`, but this backend drives `am` (ivan-hc/AM) - install `am` to manage AppImages through snowcone",
                    ),
                ),
            )
        }
    }

    /// One application at a time.
    pub fn install(&self, packages: &[PackageRequest], ctx: &OpContext) -> (r: Plan)
        ensures
            command::plan(r) == match self.require_am_spec() {
                Err(error) => Err(error),
                Ok(_) => match reject_pins_spec(packages@.deep()) {
                    Err(error) => Err(error),
                    Ok(_) => if ctx.dry_run {
                        Err(ErrorView::Other("appimage: install has no dry-run mode"@))
                    } else {
                        Ok(
                            packages@.deep().map_values(
                                |q: RequestView|
                                    CmdView::new(self.program@).arg("-i"@).arg(q.name),
                            ),
                        )
                    },
                },
            },
            command::all_elevated(command::plan(r), false),
            ctx.dry_run ==> r is Err,
            request::first_pin(packages@.deep()) is Some ==> r is Err,
            command::plan(r) == match (
                if path::file_name_spec(self.program@) == Some("am"@) { Ok(()) } else {
                    Err(
                        ErrorView::Other(
                            "appimage: found `"@ + self.program@ + "`, but this backend drives `am` (ivan-hc/AM) - install `am` to manage AppImages through snowcone"@,
                        ),
                    )
                }
            ) {
                Err(error) => Err(error),
                Ok(_) => match (
                    request::pins_refused(
                        packages@.deep(),
                        "appimage: `"@,
                        "` pins a version, but AM only installs an app's latest release"@,
                    )
                ) {
                    Err(error) => Err(error),
                    Ok(_) => if ctx.dry_run {
                        Err(ErrorView::Other("appimage: install has no dry-run mode"@))
                    } else {
                        Ok(
                            packages@.deep().map_values(
                                |q: RequestView| CmdView::new(
                                    self.program@,
                                ).arg("-i"@).arg(q.name),
                            ),
                        )
                    },
                },
            },
    {
        if let Err(error) = self.require_am() {
            return Err(error);
        }
        if let Err(error) = reject_pins(packages) {
            return Err(error);
        }
        if ctx.dry_run {
            return Err(error::other("appimage: install has no dry-run mode"));
        }
        let each = |q: &PackageRequest| -> (c: Cmd)
            ensures
                c@ == CmdView::new(self.program@).arg("-i"@).arg(q@.name),
            { Cmd::new(&self.program).arg("-i").arg(&q.name) };
        Ok(
            command::one_each(
                packages,
                each,
                Ghost(
                    |q: RequestView|
                        CmdView::new(self.program@).arg("-i"@).arg(q.name),
                ),
            ),
        )
    }

    /// One application at a time, without a question when told so.
    pub fn remove(&self, packages: &[PackageRequest], ctx: &OpContext) -> (r: Plan)
        ensures
            command::plan(r) == match self.require_am_spec() {
                Err(error) => Err(error),
                Ok(_) => if ctx.dry_run {
                    Err(ErrorView::Other("appimage: remove has no dry-run mode"@))
                } else {
                    Ok(
                        packages@.deep().map_values(
                            |q: RequestView|
                                CmdView::new(self.program@).arg(
                                    if ctx.assume_yes {
                                        "-R"@
                                    } else {
                                        "-r"@
                                    },
                                ).arg(q.name),
                        ),
                    )
                },
            },
            command::all_elevated(command::plan(r), false),
            ctx.dry_run ==> r is Err,
            command::plan(r) == match (
                if path::file_name_spec(self.program@) == Some("am"@) { Ok(()) } else {
                    Err(
                        ErrorView::Other(
                            "appimage: found `"@ + self.program@ + "`, but this backend drives `am` (ivan-hc/AM) - install `am` to manage AppImages through snowcone"@,
                        ),
                    )
                }
            ) {
                Err(error) => Err(error),
                Ok(_) => if ctx.dry_run {
                    Err(ErrorView::Other("appimage: remove has no dry-run mode"@))
                } else {
                    Ok(
                        packages@.deep().map_values(
                            |q: RequestView| CmdView::new(self.program@).arg(
                                if ctx.assume_yes { "-R"@ } else { "-r"@ },
                            ).arg(q.name),
                        ),
                    )
                },
            },
    {
        if let Err(error) = self.require_am() {
            return Err(error);
        }
        if ctx.dry_run {
            return Err(error::other("appimage: remove has no dry-run mode"));
        }
        let flag = if ctx.assume_yes {
            "-R"
        } else {
            "-r"
        };
        let remove = |q: &PackageRequest| -> (c: Cmd)
            ensures
                c@ == CmdView::new(self.program@).arg(flag@).arg(q@.name),
            { Cmd::new(&self.program).arg(flag).arg(&q.name) };
        let r = command::one_each(
            packages,
            remove,
            Ghost(|q: RequestView| CmdView::new(self.program@).arg(flag@).arg(q.name)),
        );
        assert(r@.deep() =~= packages@.deep().map_values(
            |q: RequestView|
                CmdView::new(self.program@).arg(
                    if ctx.assume_yes {
                        "-R"@
                    } else {
                        "-r"@
                    },
                ).arg(q.name),
        ));
        Ok(r)
    }

    /// Without names everything is upgraded.
    pub fn upgrade(&self, packages: &[PackageRequest], ctx: &OpContext) -> (r: Plan)
        ensures
            command::plan(r) == match self.require_am_spec() {
                Err(error) => Err(error),
                Ok(_) => match reject_pins_spec(packages@.deep()) {
                    Err(error) => Err(error),
                    Ok(_) => if ctx.dry_run {
                        Err(ErrorView::Other("appimage: upgrade has no dry-run mode"@))
                    } else if packages@.len() == 0 {
                        command::just(CmdView::new(self.program@).arg("-u"@))
                    } else {
                        Ok(
                            packages@.deep().map_values(
                                |q: RequestView|
                                    CmdView::new(self.program@).arg("-u"@).arg(q.name),
                            ),
                        )
                    },
                },
            },
            command::all_elevated(command::plan(r), false),
            ctx.dry_run ==> r is Err,
            request::first_pin(packages@.deep()) is Some ==> r is Err,
            command::plan(r) == match (
                if path::file_name_spec(self.program@) == Some("am"@) { Ok(()) } else {
                    Err(
                        ErrorView::Other(
                            "appimage: found `"@ + self.program@ + "`, but this backend drives `am` (ivan-hc/AM) - install `am` to manage AppImages through snowcone"@,
                        ),
                    )
                }
            ) {
                Err(error) => Err(error),
                Ok(_) => match (
                    request::pins_refused(
                        packages@.deep(),
                        "appimage: `"@,
                        "` pins a version, but AM only installs an app's latest release"@,
                    )
                ) {
                    Err(error) => Err(error),
                    Ok(_) => if ctx.dry_run {
                        Err(ErrorView::Other("appimage: upgrade has no dry-run mode"@))
                    } else if packages@.len() == 0 {
                        command::just(CmdView::new(self.program@).arg("-u"@))
                    } else {
                        Ok(
                            packages@.deep().map_values(
                                |q: RequestView| CmdView::new(
                                    self.program@,
                                ).arg("-u"@).arg(q.name),
                            ),
                        )
                    },
                },
            },
    {
        if let Err(error) = self.require_am() {
            return Err(error);
        }
        if let Err(error) = reject_pins(packages) {
            return Err(error);
        }
        if ctx.dry_run {
            return Err(error::other("appimage: upgrade has no dry-run mode"));
        }
        if packages.len() == 0 {
            return Ok(command::one(Cmd::new(&self.program).arg("-u")));
        }
        let each = |q: &PackageRequest| -> (c: Cmd)
            ensures
                c@ == CmdView::new(self.program@).arg("-u"@).arg(q@.name),
            { Cmd::new(&self.program).arg("-u").arg(&q.name) };
        Ok(
            command::one_each(
                packages,
                each,
                Ghost(
                    |q: RequestView|
                        CmdView::new(self.program@).arg("-u"@).arg(q.name),
                ),
            ),
        )
    }

    pub fn list_installed(&self, replies: &[Reply]) -> (r: Step<Listing<AppimagePackage>>)
        ensures
            r@ == match self.require_am_spec() {
                Err(error) => StepView::Fail(error),
                Ok(_) => session::listed(
                    CmdView::query(self.program@).arg("-f"@),
                    replies@.deep(),
                    |out: Seq<char>| parse_files_spec(out),
                ),
            },
            r@.only_looks(),
            r@.in_c_locale(),
            r@ == match (
                if path::file_name_spec(self.program@) == Some("am"@) { Ok(()) } else {
                    Err(
                        ErrorView::Other(
                            "appimage: found `"@ + self.program@ + "`, but this backend drives `am` (ivan-hc/AM) - install `am` to manage AppImages through snowcone"@,
                        ),
                    )
                }
            ) {
                Err(error) => StepView::Fail(error),
                Ok(_) => session::listed(
                    CmdView::query(self.program@).arg("-f"@),
                    replies@.deep(),
                    |out: Seq<char>| parse_files_spec(out),
                ),
            },
    {
        if let Err(error) = self.require_am() {
            return Step::Fail(error);
        }
        session::list(
            Cmd::query(&self.program).arg("-f"),
            replies,
            parse_files,
            Ghost(|out: Seq<char>| parse_files_spec(out)),
        )
    }

    pub fn search(&self, query: &str, replies: &[Reply]) -> (r: Step<Listing<AppimagePackage>>)
        ensures
            r@ == match self.require_am_spec() {
                Err(error) => StepView::Fail(error),
                Ok(_) => if replies@.len() == 0 {
                    session::ask(CmdView::query(self.program@).arg("-q"@).arg(query@))
                } else {
                    StepView::Done(database_spec(replies@[0]@))
                },
            },
            r@.only_looks(),
            r@.in_c_locale(),
            r@ == match (
                if path::file_name_spec(self.program@) == Some("am"@) { Ok(()) } else {
                    Err(
                        ErrorView::Other(
                            "appimage: found `"@ + self.program@ + "`, but this backend drives `am` (ivan-hc/AM) - install `am` to manage AppImages through snowcone"@,
                        ),
                    )
                }
            ) {
                Err(error) => StepView::Fail(error),
                Ok(_) => if replies@.len() == 0 {
                    session::ask(CmdView::query(self.program@).arg("-q"@).arg(query@))
                } else { StepView::Done(database_spec(replies@[0]@)) },
            },
    {
        if let Err(error) = self.require_am() {
            return Step::Fail(error);
        }
        if replies.len() == 0 {
            return session::query(Cmd::query(&self.program).arg("-q").arg(query));
        }
        Step::Done(Listing { packages: database(&replies[0]) })
    }

    /// What is installed has no description; the database has one.
    pub open spec fn info_spec(self, name: Seq<char>, replies: Seq<ReplyView>) -> StepView<
        PackageView,
    > {
        match self.require_am_spec() {
            Err(error) => StepView::Fail(error),
            Ok(_) => if replies.len() == 0 {
                session::ask(CmdView::query(self.program@).arg("-f"@))
            } else if !replies[0].success {
                StepView::Fail(replies[0].failure())
            } else if replies.len() == 1 {
                session::ask(CmdView::query(self.program@).arg("-q"@).arg(name))
            } else {
                session::found(
                    merge_spec(
                        session::called(parse_files_spec(replies[0].stdout), name),
                        session::called(database_spec(replies[1]), name),
                    ),
                    name,
                )
            },
        }
    }

    pub fn info(&self, name: &str, replies: &[Reply]) -> (r: Step<AppimagePackage>)
        ensures
            r@ == self.info_spec(name@, replies@.deep()),
            r@.only_looks(),
            r@.in_c_locale(),
    {
        if let Err(error) = self.require_am() {
            return Step::Fail(error);
        }
        if replies.len() == 0 {
            return session::query(Cmd::query(&self.program).arg("-f"));
        }
        assert(replies@.deep()[0] == replies@[0]@);
        if !replies[0].success {
            return Step::Fail(replies[0].failure());
        }
        if replies.len() == 1 {
            return session::query(Cmd::query(&self.program).arg("-q").arg(name));
        }
        assert(replies@.deep()[1] == replies@[1]@);
        let installed = session::take_called(parse_files(&replies[0].stdout), name);
        let described = session::take_called(database(&replies[1]), name);
        session::find(merge(installed, described), name)
    }
}

} // verus!
