//! The tools of Clojure's command line.
//!
//! `clojure -Ttools` looks after tools of the user. A request names a library,
//! `io.github.seancorfield/deps-new`; the tool is called by what stands behind
//! the last slash, and either name removes it. The newest release is
//! installed. Arguments are read as EDN, so a name to remove is quoted. Nothing
//! is asked, and nothing is elevated.

use vstd::prelude::*;

use crate::command::{self, Cmd, CmdView, Plan};
use crate::detect::{self, Detection};
use crate::error::{self, Error, ErrorView};
use crate::package::{Details, InstallState, Package, PackageView};
use crate::pattern;
use crate::profile::{basic_capabilities, Capabilities, ManagerKind, Profile};
use crate::request::{self, OpContext, PackageRequest, RequestView};
use crate::rows;
use crate::session::{self, Listing, Reply, Step, StepView};
use crate::text::{self, chars, Deep, Pieces, Text};

verus! {

/// Finds the manager and sets it up.
#[derive(Clone, Copy, Debug)]
pub struct Factory;

/// The factory of this backend.
pub fn factory() -> (r: Factory)
    ensures
        r == Factory,
{
    Factory
}

impl Factory {
    pub fn id(&self) -> (r: &'static str)
        ensures
            r@ == "clojure"@,
    {
        "clojure"
    }

    /// The programs to look for, in the order of preference.
    pub fn programs(&self) -> (r: Vec<&'static str>)
        ensures
            r@.deep() == seq!["clojure"@, "clj"@],
    {
        let mut out: Vec<&'static str> = Vec::new();
        out.push("clojure");
        out.push("clj");
        assert(out@.deep() =~= seq!["clojure"@, "clj"@]);
        out
    }

    /// Whether the backend can be used, given where each program was found.
    pub fn detect(&self, found: &[Option<String>]) -> (r: Detection)
        ensures
            r@ == detect::detected(found@, "none of [\"clojure\", \"clj\"] found on PATH"@),
    {
        detect::detect(found, "none of [\"clojure\", \"clj\"] found on PATH")
    }

    /// The manager, given where each program was found.
    pub fn create(&self, found: &[Option<String>]) -> (r: Result<Manager, Error>)
        ensures
            match r {
                Ok(manager) => detect::required(found@, "clojure"@) == Ok::<Seq<char>, ErrorView>(
                    manager.program@,
                ),
                Err(error) => detect::required(found@, "clojure"@) == Err::<Seq<char>, ErrorView>(
                    error@,
                ),
            },
    {
        match detect::require(found, "clojure") {
            Ok(program) => Ok(Manager { program }),
            Err(error) => Err(error),
        }
    }
}

/// The manager, driving `program`.
#[derive(Debug)]
pub struct Manager {
    pub program: String,
}

impl Manager {
    /// What the manager says of itself.
    pub fn profile(&self) -> (r: Profile)
        ensures
            r.id@ == "clojure"@,
            r.display_name@ == "Clojure tools.deps"@,
            r.kind == ManagerKind::Language,
            r.database_id@ == "jvm"@,
            r.capabilities == Capabilities::basic(),
            r.elevates == false,
    {
        Profile {
            id: "clojure",
            display_name: "Clojure tools.deps",
            kind: ManagerKind::Language,
            database_id: "jvm",
            capabilities: basic_capabilities(),
            elevates: false,
        }
    }
}

/// A tool as `clojure -Ttools list` describes it.
#[derive(Debug)]
pub struct ClojurePackage {
    /// The name of the tool, not of its library.
    pub name: String,
    /// A version or the tag of a repository.
    pub version: Option<String>,
    /// The library that the tool was installed from.
    pub origin: Option<String>,
    pub state: InstallState,
}

impl View for ClojurePackage {
    type V = PackageView;

    open spec fn view(&self) -> PackageView {
        PackageView {
            name: self.name@,
            version: self.version.deep(),
            origin: self.origin.deep(),
            state: self.state,
            ..PackageView::blank()
        }
    }
}

impl Default for ClojurePackage {
    fn default() -> (r: ClojurePackage)
        ensures
            r@ == PackageView::blank(),
    {
        ClojurePackage {
            name: String::new(),
            version: None,
            origin: None,
            state: InstallState::Unknown,
        }
    }
}

impl Package for ClojurePackage {
    open spec fn manager_id() -> Seq<char> {
        "clojure"@
    }

    fn manager(&self) -> (r: &'static str) {
        "clojure"
    }

    fn details(&self) -> (r: Details<'_>) {
        Details {
            version: self.version.as_ref(),
            origin: self.origin.as_ref(),
            ..Details::of(&self.name, self.state)
        }
    }
}

/// The newest release is installed.
pub open spec fn reject_pins_spec(requests: Seq<RequestView>) -> Result<(), ErrorView> {
    request::pins_refused(
        requests,
        "clojure: `"@,
        "` pins a version, but tools install only the latest release"@,
    )
}

pub fn reject_pins(requests: &[PackageRequest]) -> (r: Result<(), Error>)
    ensures
        error::outcome(r) == reject_pins_spec(requests@.deep()),
{
    request::refuse_pins(
        requests,
        "clojure: `",
        "` pins a version, but tools install only the latest release",
    )
}

/// The name of the tool that a library makes.
pub open spec fn tool_alias_spec(name: Seq<char>) -> Seq<char> {
    name.after_last('/')
}

pub fn tool_alias(name: &str) -> (r: String)
    ensures
        r@ == tool_alias_spec(name@),
{
    text::string(text::after_last(&chars(name), '/'))
}

/// Whether a character has to be escaped in a string of EDN.
pub open spec fn is_special(c: char) -> bool {
    c == '"' || c == '\\'
}

/// A text as it is written between the quotes of a string of EDN.
pub open spec fn edn_escaped(s: Seq<char>) -> Seq<char>
    decreases s.len(),
{
    if s.len() == 0 {
        seq![]
    } else if is_special(s.last()) {
        edn_escaped(s.drop_last()).push('\\').push(s.last())
    } else {
        edn_escaped(s.drop_last()).push(s.last())
    }
}

/// A name as a string of EDN.
pub open spec fn edn_string_spec(name: Seq<char>) -> Seq<char> {
    "\""@ + edn_escaped(name) + "\""@
}

pub fn edn_string(name: &str) -> (r: String)
    ensures
        r@ == edn_string_spec(name@),
{
    let t = chars(name);
    let mut out: Vec<char> = Vec::new();
    let mut i: usize = 0;
    assert(t@.take(0) =~= seq![]);
    while i < t.len()
        invariant
            i <= t.len(),
            t@ == name@,
            out@ == edn_escaped(t@.take(i as int)),
        decreases t.len() - i,
    {
        let c = t[i];
        assert(t@.take(i + 1).drop_last() =~= t@.take(i as int));
        if c == '"' || c == '\\' {
            out.push('\\');
        }
        out.push(c);
        i += 1;
    }
    assert(t@.take(t@.len() as int) =~= t@);
    text::cat3("\"", &text::string(&out), "\"")
}

/// A tool in the table: name, library, kind and version. The heading has no
/// kind.
pub open spec fn tools_row_spec(line: Seq<char>) -> Option<PackageView> {
    let parts = line.words();
    if parts.len() < 3 || !parts[2].begins(":"@) {
        None
    } else {
        Some(
            PackageView {
                origin: Some(parts[1]),
                ..PackageView::versioned(parts[0], parts.nth(3), InstallState::Installed)
            },
        )
    }
}

fn tools_row(line: &[char]) -> (r: Option<ClojurePackage>)
    ensures
        r.deep() == tools_row_spec(line@),
{
    let parts = text::words(line);
    if parts.len() < 3 || !text::begins(parts[2], ":") {
        return None;
    }
    Some(
        ClojurePackage {
            name: text::string(parts[0]),
            version: text::maybe_string(text::nth(&parts, 3)),
            origin: Some(text::string(parts[1])),
            state: InstallState::Installed,
        },
    )
}

/// The tools in the table that `clojure -Ttools list` prints.
pub open spec fn parse_tools_list_spec(stdout: Seq<char>) -> Seq<PackageView> {
    rows::select(stdout.lines(), |line: Seq<char>| tools_row_spec(line))
}

pub fn parse_tools_list(stdout: &str) -> (r: Vec<ClojurePackage>)
    ensures
        r@.deep() == parse_tools_list_spec(stdout@),
        crate::package::all_named(r@.deep()),
        crate::package::all_in(r@.deep(), InstallState::Installed),
{
    proof {
        rows::selected_have(
            stdout@.lines(),
            |line: Seq<char>| tools_row_spec(line),
            |p: PackageView| p.name.len() > 0 && p.state == InstallState::Installed,
        );
    }
    rows::select_rows(stdout, tools_row, Ghost(|line: Seq<char>| tools_row_spec(line)))
}

/// The first request that does not name a library.
pub open spec fn unqualified_spec(packages: Seq<RequestView>) -> Option<RequestView> {
    rows::first(packages, |q: RequestView| !q.name.has("/"@))
}

fn unqualified(packages: &[PackageRequest]) -> (r: Option<&PackageRequest>)
    ensures
        r.deep() == unqualified_spec(packages@.deep()),
{
    let ghost bare = |q: RequestView| !q.name.has("/"@);
    let is_bare = |q: &PackageRequest| -> (b: bool)
        ensures
            b == !q@.name.has("/"@),
        { !text::has(&chars(&q.name), "/") };
    proof {
        rows::lemma_index_is_first(packages@.deep(), bare);
    }
    assert(unqualified_spec(packages@.deep()) == rows::first(packages@.deep(), bare));
    match rows::position(packages, is_bare, Ghost(bare)) {
        Some(i) => {
            assert(packages@.deep()[i as int] == packages@[i as int]@);
            Some(&packages[i])
        },
        None => None,
    }
}

/// The first tool that is called so, or that a library of that name makes, or
/// that comes from it.
pub open spec fn known_as_spec(packages: Seq<PackageView>, name: Seq<char>) -> Option<PackageView> {
    rows::first(
        packages,
        |p: PackageView|
            p.name == name || p.name == tool_alias_spec(name) || p.origin == Some(name),
    )
}

pub fn known_as(packages: Vec<ClojurePackage>, name: &str) -> (r: Option<ClojurePackage>)
    ensures
        r.deep() == known_as_spec(packages@.deep(), name@),
{
    let alias = tool_alias(name);
    let known = |p: &ClojurePackage| -> (b: bool)
        ensures
            b == (p@.name == name@ || p@.name == tool_alias_spec(name@) || p@.origin == Some(
                name@,
            )),
        {
            text::equal(&p.name, name) || text::equal(&p.name, &alias) || match &p.origin {
                Some(origin) => text::equal(origin, name),
                None => false,
            }
        };
    rows::take_first(
        packages,
        known,
        Ghost(
            |p: PackageView|
                p.name == name@ || p.name == tool_alias_spec(name@) || p.origin == Some(name@),
        ),
    )
}

impl Manager {
    /// What installs a tool.
    pub open spec fn install_spec(self, name: Seq<char>) -> CmdView {
        CmdView::new(self.program@).arg("-Ttools"@).arg("install-latest"@).arg(":lib"@).arg(
            name,
        ).arg(":as"@).arg(tool_alias_spec(name))
    }

    fn install_one(&self, name: &str) -> (r: Cmd)
        ensures
            r@ == self.install_spec(name@),
    {
        Cmd::new(&self.program).arg("-Ttools").arg("install-latest").arg(":lib").arg(name).arg(
            ":as",
        ).arg(&tool_alias(name))
    }

    /// One tool at a time, each by its library.
    pub fn install(&self, packages: &[PackageRequest], ctx: &OpContext) -> (r: Plan)
        ensures
            command::plan(r) == match reject_pins_spec(packages@.deep()) {
                Err(error) => Err(error),
                Ok(_) => if ctx.dry_run {
                    Err(ErrorView::Other("clojure: install has no dry-run mode"@))
                } else {
                    match unqualified_spec(packages@.deep()) {
                        Some(request) => Err(
                            ErrorView::Other(
                                "clojure: `"@ + request.name
                                    + "` is not a qualified lib - tools install by coordinate, e.g. `io.github.seancorfield/deps-new`"@,
                            ),
                        ),
                        None => Ok(
                            packages@.deep().map_values(
                                |q: RequestView| self.install_spec(q.name),
                            ),
                        ),
                    }
                },
            },
            command::all_elevated(command::plan(r), false),
            ctx.dry_run ==> r is Err,
            request::first_pin(packages@.deep()) is Some ==> r is Err,
            command::plan(r) == match (
                request::pins_refused(
                    packages@.deep(),
                    "clojure: `"@,
                    "` pins a version, but tools install only the latest release"@,
                )
            ) {
                Err(error) => Err(error),
                Ok(_) => if ctx.dry_run {
                    Err(ErrorView::Other("clojure: install has no dry-run mode"@))
                } else {
                    match unqualified_spec(packages@.deep()) {
                        Some(request) => Err(
                            ErrorView::Other(
                                "clojure: `"@ + request.name + "` is not a qualified lib - tools install by coordinate, e.g. `io.github.seancorfield/deps-new`"@,
                            ),
                        ),
                        None => Ok(
                            packages@.deep().map_values(
                                |q: RequestView| self.install_spec(q.name),
                            ),
                        ),
                    }
                },
            },
    {
        if let Err(error) = reject_pins(packages) {
            return Err(error);
        }
        if ctx.dry_run {
            return Err(error::other("clojure: install has no dry-run mode"));
        }
        if let Some(request) = unqualified(packages) {
            return Err(
                Error::Other(
                    text::cat3(
                        "clojure: `",
                        &request.name,
                        "` is not a qualified lib - tools install by coordinate, e.g. `io.github.seancorfield/deps-new`",
                    ),
                ),
            );
        }
        let each = |q: &PackageRequest| -> (c: Cmd)
            ensures
                c@ == self.install_spec(q@.name),
            { self.install_one(&q.name) };
        Ok(
            command::one_each(
                packages,
                each,
                Ghost(|q: RequestView| self.install_spec(q.name)),
            ),
        )
    }

    /// One tool at a time.
    pub fn remove(&self, packages: &[PackageRequest], ctx: &OpContext) -> (r: Plan)
        ensures
            command::plan(r) == if ctx.dry_run {
                Err(ErrorView::Other("clojure: remove has no dry-run mode"@))
            } else {
                Ok(
                    packages@.deep().map_values(
                        |q: RequestView|
                            CmdView::new(self.program@).arg("-Ttools"@).arg("remove"@).arg(
                                ":tool"@,
                            ).arg(edn_string_spec(tool_alias_spec(q.name))),
                    ),
                )
            },
            command::all_elevated(command::plan(r), false),
            ctx.dry_run ==> r is Err,
    {
        if ctx.dry_run {
            return Err(error::other("clojure: remove has no dry-run mode"));
        }
        let each = |q: &PackageRequest| -> (c: Cmd)
            ensures
                c@ == CmdView::new(self.program@).arg("-Ttools"@).arg("remove"@).arg(
                    ":tool"@,
                ).arg(edn_string_spec(tool_alias_spec(q@.name))),
            {
                Cmd::new(&self.program).arg("-Ttools").arg("remove").arg(":tool").arg(
                    &edn_string(&tool_alias(&q.name)),
                )
            };
        Ok(
            command::one_each(
                packages,
                each,
                Ghost(
                    |q: RequestView|
                        CmdView::new(self.program@).arg("-Ttools"@).arg("remove"@).arg(
                            ":tool"@,
                        ).arg(edn_string_spec(tool_alias_spec(q.name))),
                ),
            ),
        )
    }

    pub fn list_installed(&self, replies: &[Reply]) -> (r: Step<Listing<ClojurePackage>>)
        ensures
            r@ == session::listed(
                CmdView::query(self.program@).arg("-Ttools"@).arg("list"@),
                replies@.deep(),
                |out: Seq<char>| parse_tools_list_spec(out),
            ),
            r@.only_looks(),
            r@.in_c_locale(),
    {
        session::list(
            Cmd::query(&self.program).arg("-Ttools").arg("list"),
            replies,
            parse_tools_list,
            Ghost(|out: Seq<char>| parse_tools_list_spec(out)),
        )
    }

    pub fn info(&self, name: &str, replies: &[Reply]) -> (r: Step<ClojurePackage>)
        ensures
            r@ == (if replies@.len() == 0 {
                session::ask(CmdView::query(self.program@).arg("-Ttools"@).arg("list"@))
            } else if !replies@[0].success {
                StepView::Fail(replies@[0]@.failure())
            } else {
                session::found(
                    known_as_spec(parse_tools_list_spec(replies@[0].stdout@), name@),
                    name@,
                )
            }),
            r@.only_looks(),
            r@.in_c_locale(),
    {
        if replies.len() == 0 {
            return session::query(Cmd::query(&self.program).arg("-Ttools").arg("list"));
        }
        if !replies[0].success {
            return Step::Fail(replies[0].failure());
        }
        session::find(known_as(parse_tools_list(&replies[0].stdout), name), name)
    }
}

/// A tool has the same local name whether it is named by that or by its lib.
pub proof fn aliases_are_their_own(name: Seq<char>)
    ensures
        tool_alias_spec(tool_alias_spec(name)) == tool_alias_spec(name),
{
    let alias = tool_alias_spec(name);
    text::lemma_find_last(name, '/');
    text::lemma_find_last(alias, '/');
    let at = text::find_last(alias, '/');
    if at >= 0 {
        assert(alias[at] == name[text::find_last(name, '/') + 1 + at]);
    }
    assert(alias.skip(0) =~= alias);
}

proof fn lemma_read_back(s: Seq<char>, rest: Seq<char>)
    ensures
        pattern::unescaped(edn_escaped(s) + rest) == s + pattern::unescaped(rest),
    decreases s.len(),
{
    if s.len() == 0 {
        assert(edn_escaped(s) + rest =~= rest);
        assert(s + pattern::unescaped(rest) =~= pattern::unescaped(rest));
    } else {
        let front = s.drop_last();
        let c = s.last();
        let tail = if is_special(c) {
            seq!['\\', c] + rest
        } else {
            seq![c] + rest
        };
        assert(edn_escaped(s) + rest =~= edn_escaped(front) + tail);
        lemma_read_back(front, tail);
        if is_special(c) {
            assert(tail.skip(2) =~= rest);
        } else {
            assert(tail.skip(1) =~= rest);
        }
        assert(pattern::unescaped(tail) == seq![c] + pattern::unescaped(rest));
        assert(front + (seq![c] + pattern::unescaped(rest)) =~= s + pattern::unescaped(rest));
    }
}

/// A string of EDN loses nothing: what stands between its quotes, read with a
/// backslash standing for the character behind it, is the name.
pub proof fn strings_are_read_back(name: Seq<char>)
    ensures
        pattern::unescaped(edn_escaped(name)) == name,
{
    lemma_read_back(name, seq![]);
    assert(edn_escaped(name) + Seq::<char>::empty() =~= edn_escaped(name));
    assert(name + pattern::unescaped(seq![]) =~= name);
}

/// A name without quotes and backslashes is quoted as it is.
pub proof fn plain_names_stay(name: Seq<char>)
    requires
        forall|i: int| 0 <= i < name.len() ==> !is_special(#[trigger] name[i]),
    ensures
        edn_string_spec(name) == "\""@ + name + "\""@,
{
    lemma_plain(name);
}

proof fn lemma_plain(name: Seq<char>)
    requires
        forall|i: int| 0 <= i < name.len() ==> !is_special(#[trigger] name[i]),
    ensures
        edn_escaped(name) == name,
    decreases name.len(),
{
    if name.len() > 0 {
        let front = name.drop_last();
        assert(forall|i: int| 0 <= i < front.len() ==> #[trigger] front[i] == name[i]);
        lemma_plain(front);
        assert(!is_special(name[name.len() - 1]));
        assert(front.push(name.last()) =~= name);
    } else {
        assert(name =~= seq![]);
    }
}

} // verus!
