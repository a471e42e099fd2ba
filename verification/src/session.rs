//! Operations that alternate between asking and deciding.
//!
//! Such an operation is a function of the replies received so far: it names
//! the next action, or the result. The caller performs the action, appends
//! its reply and asks again.

use vstd::prelude::*;
use vstd::slice::slice_subrange;

use crate::command::{Cmd, CmdView};
use crate::error::{self, Error, ErrorView};
use crate::package::{Package, PackageView};
use crate::rows;
use crate::text::{self, chars, copy, Deep, Text};

verus! {

/// What the caller is to do next.
#[derive(Debug)]
pub enum Action {
    /// Run a command for its effect. If it does not succeed the operation
    /// fails with what the command reported.
    Run(Cmd),
    /// Run a command for its effect, and report whether it succeeded.
    Attempt(Cmd),
    /// Run a command and read its output. If it cannot be started the
    /// operation fails.
    Query(Cmd),
    /// Run a command and read its output; one that cannot be started is
    /// reported as unsuccessful.
    Probe(Cmd),
    /// Read a variable of the environment.
    Variable(String),
    /// Read a file.
    ReadFile(String),
    /// List the directories in a directory. With `links`, links to directories
    /// are among them. With `lenient`, what cannot be looked at is passed over
    /// and every name is made a text; without, the former fails the action
    /// and a name that is no text is passed over.
    Directories { path: String, links: bool, lenient: bool },
    /// List everything in a directory.
    Entries(String),
    /// List the files in a directory that may be executed.
    Executables(String),
    /// Read where a symbolic link points to.
    ReadLink(String),
    /// Ask whether a path is a directory.
    IsDirectory(String),
    /// Ask whether a path is a file.
    IsFile(String),
    /// Delete a file. If that fails the operation fails.
    RemoveFile(String),
    /// Delete a directory with everything in it. If that fails the operation
    /// fails.
    RemoveTree(String),
    /// Tell the user.
    Report(String),
}

/// The model of an [`Action`].
pub enum ActionView {
    Run(CmdView),
    Attempt(CmdView),
    Query(CmdView),
    Probe(CmdView),
    Variable(Seq<char>),
    ReadFile(Seq<char>),
    Directories { path: Seq<char>, links: bool, lenient: bool },
    Entries(Seq<char>),
    Executables(Seq<char>),
    ReadLink(Seq<char>),
    IsDirectory(Seq<char>),
    IsFile(Seq<char>),
    RemoveFile(Seq<char>),
    RemoveTree(Seq<char>),
    Report(Seq<char>),
}

impl View for Action {
    type V = ActionView;

    open spec fn view(&self) -> ActionView {
        match *self {
            Action::Run(cmd) => ActionView::Run(cmd@),
            Action::Attempt(cmd) => ActionView::Attempt(cmd@),
            Action::Query(cmd) => ActionView::Query(cmd@),
            Action::Probe(cmd) => ActionView::Probe(cmd@),
            Action::Variable(s) => ActionView::Variable(s@),
            Action::ReadFile(s) => ActionView::ReadFile(s@),
            Action::Directories { path, links, lenient } => ActionView::Directories {
                path: path@,
                links,
                lenient,
            },
            Action::Entries(s) => ActionView::Entries(s@),
            Action::Executables(s) => ActionView::Executables(s@),
            Action::ReadLink(s) => ActionView::ReadLink(s@),
            Action::IsDirectory(s) => ActionView::IsDirectory(s@),
            Action::IsFile(s) => ActionView::IsFile(s@),
            Action::RemoveFile(s) => ActionView::RemoveFile(s@),
            Action::RemoveTree(s) => ActionView::RemoveTree(s@),
            Action::Report(s) => ActionView::Report(s@),
        }
    }
}

/// What came of an action.
#[derive(Debug, Default)]
pub struct Reply {
    /// The command succeeded, the text could be read, the answer is yes.
    pub success: bool,
    /// What the action is about does not exist.
    pub missing: bool,
    /// The exit code of a command that ended with one.
    pub code: Option<i32>,
    /// The output of a command, or the text that was read.
    pub stdout: String,
    /// The error output of a command, or why a text could not be read.
    pub stderr: String,
    /// The names in a directory.
    pub entries: Vec<String>,
}

/// The model of a [`Reply`].
pub struct ReplyView {
    pub success: bool,
    pub missing: bool,
    pub code: Option<i32>,
    pub stdout: Seq<char>,
    pub stderr: Seq<char>,
    pub entries: Seq<Seq<char>>,
}

impl View for Reply {
    type V = ReplyView;

    open spec fn view(&self) -> ReplyView {
        ReplyView {
            success: self.success,
            missing: self.missing,
            code: self.code,
            stdout: self.stdout@,
            stderr: self.stderr@,
            entries: self.entries@.deep(),
        }
    }
}

impl ReplyView {
    /// The error of a command that did not succeed.
    pub open spec fn failure(self) -> ErrorView {
        ErrorView::Failed { code: self.code, stderr: self.stderr }
    }
}

impl Reply {
    /// The error of a command that did not succeed.
    pub fn failure(&self) -> (r: Error)
        ensures
            r@ == self@.failure(),
    {
        Error::Failed { code: self.code, stderr: copy(&self.stderr) }
    }
}

/// The next action, or the result.
#[derive(Debug)]
pub enum Step<T> {
    Act(Action),
    Done(T),
    Fail(Error),
}

/// The model of a [`Step`].
pub enum StepView<V> {
    Act(ActionView),
    Done(V),
    Fail(ErrorView),
}

impl<T: View> View for Step<T> {
    type V = StepView<T::V>;

    open spec fn view(&self) -> StepView<T::V> {
        match *self {
            Step::Act(action) => StepView::Act(action@),
            Step::Done(value) => StepView::Done(value@),
            Step::Fail(error) => StepView::Fail(error@),
        }
    }
}

impl<V> StepView<V> {
    /// Nothing is changed: commands are run for their output alone and without
    /// privileges, and files are only looked at.
    pub open spec fn only_looks(self) -> bool {
        match self {
            StepView::Act(action) => match action {
                ActionView::Query(cmd) => !cmd.elevated,
                ActionView::Probe(cmd) => !cmd.elevated,
                ActionView::Run(_) => false,
                ActionView::Attempt(_) => false,
                ActionView::RemoveFile(_) => false,
                ActionView::RemoveTree(_) => false,
                ActionView::Report(_) => false,
                _ => true,
            },
            _ => true,
        }
    }

    /// No command is run for its effect but with the argument `word`.
    pub open spec fn runs_with(self, word: Seq<char>) -> bool {
        match self {
            StepView::Act(ActionView::Run(cmd)) => cmd.carries(word),
            StepView::Act(ActionView::Attempt(cmd)) => cmd.carries(word),
            _ => true,
        }
    }

    /// Nothing is deleted.
    pub open spec fn deletes_nothing(self) -> bool {
        match self {
            StepView::Act(ActionView::RemoveFile(_)) => false,
            StepView::Act(ActionView::RemoveTree(_)) => false,
            _ => true,
        }
    }

    /// No command is run with privileges.
    pub open spec fn unprivileged(self) -> bool {
        match self {
            StepView::Act(ActionView::Run(cmd)) => !cmd.elevated,
            StepView::Act(ActionView::Attempt(cmd)) => !cmd.elevated,
            StepView::Act(ActionView::Query(cmd)) => !cmd.elevated,
            StepView::Act(ActionView::Probe(cmd)) => !cmd.elevated,
            _ => true,
        }
    }

    /// A command is read in the `C` locale.
    pub open spec fn in_c_locale(self) -> bool {
        match self {
            StepView::Act(ActionView::Query(cmd)) => cmd.is_in_c_locale(),
            StepView::Act(ActionView::Probe(cmd)) => cmd.is_in_c_locale(),
            _ => true,
        }
    }
}

/// Packages, in the order in which the manager lists them.
#[derive(Debug)]
pub struct Listing<P> {
    pub packages: Vec<P>,
}

impl<P: View> View for Listing<P> {
    type V = Seq<P::V>;

    open spec fn view(&self) -> Seq<P::V> {
        self.packages@.deep()
    }
}

/// The result of an operation that has none but its effect.
#[derive(Clone, Copy, Debug)]
pub struct Finished;

impl View for Finished {
    type V = ();

    open spec fn view(&self) -> () {
        ()
    }
}

/// One part of an operation: the next action, or the result of this part with
/// the replies that are left for the parts after it.
#[derive(Debug)]
pub enum Part<'a, T> {
    Act(Action),
    Got(T, &'a [Reply]),
    Fail(Error),
}

/// The model of a [`Part`].
pub enum PartView<V> {
    Act(ActionView),
    Got(V, Seq<ReplyView>),
    Fail(ErrorView),
}

impl<'a, T: View> View for Part<'a, T> {
    type V = PartView<T::V>;

    open spec fn view(&self) -> PartView<T::V> {
        match *self {
            Part::Act(action) => PartView::Act(action@),
            Part::Got(value, rest) => PartView::Got(value@, rest@.deep()),
            Part::Fail(error) => PartView::Fail(error@),
        }
    }
}

impl<V> PartView<V> {
    /// The whole operation, if this is its last part.
    pub open spec fn whole(self) -> StepView<V> {
        match self {
            PartView::Act(action) => StepView::Act(action),
            PartView::Got(value, _) => StepView::Done(value),
            PartView::Fail(error) => StepView::Fail(error),
        }
    }
}

impl<'a, T: View> Part<'a, T> {
    /// The whole operation, if this is its last part.
    pub fn whole(self) -> (r: Step<T>)
        ensures
            r@ == self@.whole(),
    {
        match self {
            Part::Act(action) => Step::Act(action),
            Part::Got(value, _) => Step::Done(value),
            Part::Fail(error) => Step::Fail(error),
        }
    }
}

/// The replies after the first.
pub fn later(replies: &[Reply]) -> (r: &[Reply])
    requires
        replies@.len() > 0,
    ensures
        r@.deep() == replies@.deep().skip(1),
{
    let r = slice_subrange(replies, 1, replies.len());
    assert(r@.deep() =~= replies@.deep().skip(1));
    r
}

/// The replies after the first `n`.
pub fn from(replies: &[Reply], n: usize) -> (r: &[Reply])
    requires
        n <= replies@.len(),
    ensures
        r@.deep() == replies@.deep().skip(n as int),
{
    let r = slice_subrange(replies, n, replies.len());
    assert(r@.deep() =~= replies@.deep().skip(n as int));
    r
}

/// The first reply.
pub fn next(replies: &[Reply]) -> (r: &Reply)
    requires
        replies@.len() > 0,
    ensures
        r@ == replies@.deep()[0],
{
    assert(replies@.deep()[0] == replies@[0]@);
    &replies[0]
}

/// Runs a command for its effect.
pub open spec fn running(cmd: CmdView, replies: Seq<ReplyView>) -> PartView<()> {
    if replies.len() == 0 {
        PartView::Act(ActionView::Run(cmd))
    } else if !replies[0].success {
        PartView::Fail(replies[0].failure())
    } else {
        PartView::Got((), replies.skip(1))
    }
}

pub fn run<'a>(cmd: Cmd, replies: &'a [Reply]) -> (r: Part<'a, Finished>)
    ensures
        r@ == running(cmd@, replies@.deep()),
{
    if replies.len() == 0 {
        return Part::Act(Action::Run(cmd));
    }
    let reply = next(replies);
    if !reply.success {
        return Part::Fail(reply.failure());
    }
    Part::Got(Finished, later(replies))
}

/// Runs commands one after the other.
pub open spec fn running_all(commands: Seq<CmdView>, replies: Seq<ReplyView>) -> PartView<()>
    decreases commands.len(),
{
    if commands.len() == 0 {
        PartView::Got((), replies)
    } else {
        match running(commands[0], replies) {
            PartView::Act(action) => PartView::Act(action),
            PartView::Fail(error) => PartView::Fail(error),
            PartView::Got(_, rest) => running_all(commands.skip(1), rest),
        }
    }
}

pub fn run_all<'a>(commands: Vec<Cmd>, replies: &'a [Reply]) -> (r: Part<'a, Finished>)
    ensures
        r@ == running_all(commands@.deep(), replies@.deep()),
        r@ matches PartView::Act(action) ==> exists|i: int|
            0 <= i < commands@.deep().len() && action == ActionView::Run(
                #[trigger] commands@.deep()[i],
            ),
{
    let ghost all = commands@.deep();
    let ghost start = replies@.deep();
    let mut left = commands;
    let mut rest = replies;
    let mut i: usize = 0;
    assert(all.skip(0) =~= all);
    while i < left.len()
        invariant
            i <= left.len(),
            left@ == commands@,
            all == commands@.deep(),
            start == replies@.deep(),
            running_all(all, start) == running_all(all.skip(i as int), rest@.deep()),
        decreases left.len() - i,
    {
        assert(all.skip(i as int)[0] == commands@[i as int]@);
        assert(all.skip(i as int).skip(1) =~= all.skip(i + 1));
        if rest.len() == 0 {
            assert(all[i as int] == left@[i as int]@);
            return Part::Act(Action::Run(left.swap_remove(i)));
        }
        let reply = next(rest);
        if !reply.success {
            return Part::Fail(reply.failure());
        }
        rest = later(rest);
        i += 1;
    }
    Part::Got(Finished, rest)
}

/// Tells the user.
pub open spec fn reporting(message: Seq<char>, replies: Seq<ReplyView>) -> PartView<()> {
    if replies.len() == 0 {
        PartView::Act(ActionView::Report(message))
    } else {
        PartView::Got((), replies.skip(1))
    }
}

pub fn report<'a>(message: String, replies: &'a [Reply]) -> (r: Part<'a, Finished>)
    ensures
        r@ == reporting(message@, replies@.deep()),
{
    if replies.len() == 0 {
        return Part::Act(Action::Report(message));
    }
    Part::Got(Finished, later(replies))
}

/// A step that asks for the output of a command.
pub open spec fn ask<V>(cmd: CmdView) -> StepView<V> {
    StepView::Act(ActionView::Query(cmd))
}

pub fn query<T: View>(cmd: Cmd) -> (r: Step<T>)
    ensures
        r@ == ask::<T::V>(cmd@),
{
    Step::Act(Action::Query(cmd))
}

/// Lists what `f` reads from the output of one command, which has to succeed.
pub open spec fn listed<V>(
    cmd: CmdView,
    replies: Seq<ReplyView>,
    f: spec_fn(Seq<char>) -> Seq<V>,
) -> StepView<Seq<V>> {
    if replies.len() == 0 {
        ask(cmd)
    } else if !replies[0].success {
        StepView::Fail(replies[0].failure())
    } else {
        StepView::Done(f(replies[0].stdout))
    }
}

pub fn list<P: View, F: Fn(&str) -> Vec<P>>(
    cmd: Cmd,
    replies: &[Reply],
    f: F,
    Ghost(g): Ghost<spec_fn(Seq<char>) -> Seq<P::V>>,
) -> (r: Step<Listing<P>>)
    requires
        forall|s: &str| #[trigger] f.requires((s,)),
        forall|s: &str, v: Vec<P>| #[trigger] f.ensures((s,), v) ==> v@.deep() == g(s@),
    ensures
        r@ == listed(cmd@, replies@.deep(), g),
{
    if replies.len() == 0 {
        return query(cmd);
    }
    assert(replies@.deep()[0] == replies@[0]@);
    if !replies[0].success {
        return Step::Fail(replies[0].failure());
    }
    Step::Done(Listing { packages: f(&replies[0].stdout) })
}

/// The result, or that there is no package of that name.
pub open spec fn found<V>(o: Option<V>, name: Seq<char>) -> StepView<V> {
    match o {
        Some(value) => StepView::Done(value),
        None => StepView::Fail(ErrorView::NotFound(name)),
    }
}

pub fn find<P: View>(o: Option<P>, name: &str) -> (r: Step<P>)
    ensures
        r@ == found(o.deep(), name@),
{
    match o {
        Some(value) => Step::Done(value),
        None => Step::Fail(error::not_found(name)),
    }
}

/// What `f` reads from the output of one command; a command that does not
/// succeed knows no such package.
pub open spec fn described<V>(
    cmd: CmdView,
    replies: Seq<ReplyView>,
    name: Seq<char>,
    f: spec_fn(Seq<char>) -> Option<V>,
) -> StepView<V> {
    if replies.len() == 0 {
        ask(cmd)
    } else if !replies[0].success {
        StepView::Fail(ErrorView::NotFound(name))
    } else {
        found(f(replies[0].stdout), name)
    }
}

pub fn describe<P: View, F: Fn(&str) -> Option<P>>(
    cmd: Cmd,
    replies: &[Reply],
    name: &str,
    f: F,
    Ghost(g): Ghost<spec_fn(Seq<char>) -> Option<P::V>>,
) -> (r: Step<P>)
    requires
        forall|s: &str| #[trigger] f.requires((s,)),
        forall|s: &str, o: Option<P>| #[trigger] f.ensures((s,), o) ==> o.deep() == g(s@),
    ensures
        r@ == described(cmd@, replies@.deep(), name@, g),
{
    if replies.len() == 0 {
        return query(cmd);
    }
    assert(replies@.deep()[0] == replies@[0]@);
    if !replies[0].success {
        return Step::Fail(error::not_found(name));
    }
    find(f(&replies[0].stdout), name)
}

/// The first package called `name`.
pub open spec fn called(packages: Seq<PackageView>, name: Seq<char>) -> Option<PackageView> {
    rows::first(packages, |p: PackageView| p.name == name)
}

/// Takes the first package called `name`.
pub fn take_called<P: Package>(packages: Vec<P>, name: &str) -> (r: Option<P>)
    ensures
        r.deep() == called(packages@.deep(), name@),
{
    let same = |p: &P| -> (b: bool)
        ensures
            b == (p@.name == name@),
        { text::equal(p.name(), name) };
    rows::take_first(packages, same, Ghost(|p: PackageView| p.name == name@))
}

/// The first package called `name`, upper and lower case not told apart.
pub open spec fn called_but_case(packages: Seq<PackageView>, name: Seq<char>) -> Option<
    PackageView,
> {
    rows::first(packages, |p: PackageView| p.name.lower() == name.lower())
}

pub fn take_called_but_case<P: Package>(packages: Vec<P>, name: &str) -> (r: Option<P>)
    ensures
        r.deep() == called_but_case(packages@.deep(), name@),
{
    let same = |p: &P| -> (b: bool)
        ensures
            b == (p@.name.lower() == name@.lower()),
        { text::equal_but_case(p.name(), name) };
    rows::take_first(
        packages,
        same,
        Ghost(|p: PackageView| p.name.lower() == name@.lower()),
    )
}

/// The first package called `name`, which stays where it is.
pub fn find_called<'a, P: Package>(packages: &'a [P], name: &str) -> (r: Option<&'a P>)
    ensures
        r.deep() == called(packages@.deep(), name@),
{
    let ghost same = |p: PackageView| p.name == name@;
    let is_called = |p: &P| -> (b: bool)
        ensures
            b == (p@.name == name@),
        { text::equal(p.name(), name) };
    proof {
        rows::lemma_index_is_first(packages@.deep(), same);
    }
    assert(called(packages@.deep(), name@) == rows::first(packages@.deep(), same));
    match rows::position(packages, is_called, Ghost(same)) {
        Some(i) => {
            assert(packages@.deep()[i as int] == packages@[i as int]@);
            Some(&packages[i])
        },
        None => None,
    }
}

/// The package called `name` among those that `f` reads from the output of
/// one command, which has to succeed.
pub open spec fn picked(
    cmd: CmdView,
    replies: Seq<ReplyView>,
    name: Seq<char>,
    f: spec_fn(Seq<char>) -> Seq<PackageView>,
) -> StepView<PackageView> {
    if replies.len() == 0 {
        ask(cmd)
    } else if !replies[0].success {
        StepView::Fail(replies[0].failure())
    } else {
        found(called(f(replies[0].stdout), name), name)
    }
}

pub fn pick<P: Package, F: Fn(&str) -> Vec<P>>(
    cmd: Cmd,
    replies: &[Reply],
    name: &str,
    f: F,
    Ghost(g): Ghost<spec_fn(Seq<char>) -> Seq<PackageView>>,
) -> (r: Step<P>)
    requires
        forall|s: &str| #[trigger] f.requires((s,)),
        forall|s: &str, v: Vec<P>| #[trigger] f.ensures((s,), v) ==> v@.deep() == g(s@),
    ensures
        r@ == picked(cmd@, replies@.deep(), name@, g),
{
    if replies.len() == 0 {
        return query(cmd);
    }
    assert(replies@.deep()[0] == replies@[0]@);
    if !replies[0].success {
        return Step::Fail(replies[0].failure());
    }
    find(take_called(f(&replies[0].stdout), name), name)
}

/// Lists what `f` reads from the output of one command. A command that does
/// not succeed and prints nothing found nothing.
pub open spec fn searched<V>(
    cmd: CmdView,
    replies: Seq<ReplyView>,
    f: spec_fn(Seq<char>) -> Seq<V>,
) -> StepView<Seq<V>> {
    if replies.len() == 0 {
        ask(cmd)
    } else if !replies[0].success && replies[0].stdout.trim().len() == 0 {
        StepView::Done(seq![])
    } else {
        StepView::Done(f(replies[0].stdout))
    }
}

pub fn search<P: View, F: Fn(&str) -> Vec<P>>(
    cmd: Cmd,
    replies: &[Reply],
    f: F,
    Ghost(g): Ghost<spec_fn(Seq<char>) -> Seq<P::V>>,
) -> (r: Step<Listing<P>>)
    requires
        forall|s: &str| #[trigger] f.requires((s,)),
        forall|s: &str, v: Vec<P>| #[trigger] f.ensures((s,), v) ==> v@.deep() == g(s@),
    ensures
        r@ == searched(cmd@, replies@.deep(), g),
{
    if replies.len() == 0 {
        return query(cmd);
    }
    assert(replies@.deep()[0] == replies@[0]@);
    if !replies[0].success && is_empty(&replies[0].stdout) {
        return Step::Done(nothing());
    }
    Step::Done(Listing { packages: f(&replies[0].stdout) })
}

/// The error of the first action that did not succeed.
pub open spec fn failed(replies: Seq<ReplyView>) -> Option<ErrorView>
    decreases replies.len(),
{
    if replies.len() == 0 {
        None
    } else if !replies[0].success {
        Some(replies[0].failure())
    } else {
        failed(replies.skip(1))
    }
}

pub fn first_failure(replies: &[Reply]) -> (r: Option<Error>)
    ensures
        r.deep() == failed(replies@.deep()),
{
    let mut i: usize = 0;
    let ghost all = replies@.deep();
    assert(all.skip(0) =~= all);
    while i < replies.len()
        invariant
            i <= replies.len(),
            all == replies@.deep(),
            failed(all) == failed(all.skip(i as int)),
        decreases replies.len() - i,
    {
        assert(all.skip(i as int)[0] == replies@[i as int]@);
        if !replies[i].success {
            return Some(replies[i].failure());
        }
        assert(all.skip(i as int).skip(1) =~= all.skip(i + 1));
        i += 1;
    }
    None
}

/// Whether a text holds nothing but blanks.
pub fn is_empty(s: &str) -> (r: bool)
    ensures
        r == (s@.trim().len() == 0),
{
    let t = chars(s);
    text::trim(&t).len() == 0
}

/// A list of no packages.
pub fn nothing<P: View>() -> (r: Listing<P>)
    ensures
        r@ == Seq::<P::V>::empty(),
{
    let r = Listing { packages: Vec::new() };
    assert(r.packages@.deep() =~= seq![]);
    r
}

// ---------------------------------------------------------------------- laws

/// Where every action succeeded, none has failed.
pub proof fn lemma_none_failed(replies: Seq<ReplyView>)
    requires
        forall|i: int| 0 <= i < replies.len() ==> (#[trigger] replies[i]).success,
    ensures
        failed(replies) is None,
    decreases replies.len(),
{
    if replies.len() > 0 {
        assert(replies[0].success);
        assert forall|i: int| 0 <= i < replies.len() - 1 implies (#[trigger] replies.skip(
            1,
        )[i]).success by {
            assert(replies.skip(1)[i] == replies[i + 1]);
        }
        lemma_none_failed(replies.skip(1));
    }
}

/// Commands are run in their order, each once.
pub proof fn commands_run_in_order(commands: Seq<CmdView>, replies: Seq<ReplyView>)
    requires
        forall|i: int|
            0 <= i < commands.len() && i < replies.len() ==> (#[trigger] replies[i]).success,
    ensures
        running_all(commands, replies) == if replies.len() < commands.len() {
            PartView::Act(ActionView::Run(commands[replies.len() as int]))
        } else {
            PartView::<()>::Got((), replies.skip(commands.len() as int))
        },
    decreases commands.len(),
{
    if commands.len() == 0 {
        assert(replies.skip(0) =~= replies);
    } else if replies.len() > 0 {
        let rest = replies.skip(1);
        assert forall|i: int| 0 <= i < commands.len() - 1 && i < rest.len() implies (
        #[trigger] rest[i]).success by {
            assert(rest[i] == replies[i + 1]);
        }
        commands_run_in_order(commands.skip(1), rest);
        if replies.len() >= commands.len() {
            assert(rest.skip(commands.len() - 1) =~= replies.skip(commands.len() as int));
        }
    }
}

/// After a command that does not succeed no further one is run, and its error
/// is the error of all.
pub proof fn a_failure_ends_the_run(commands: Seq<CmdView>, replies: Seq<ReplyView>, n: int)
    requires
        0 <= n < commands.len(),
        n < replies.len(),
        forall|i: int| 0 <= i < n ==> (#[trigger] replies[i]).success,
        !replies[n].success,
    ensures
        running_all(commands, replies) == PartView::<()>::Fail(replies[n].failure()),
    decreases n,
{
    if n > 0 {
        assert(replies[0].success);
        let rest = replies.skip(1);
        assert forall|i: int| 0 <= i < n - 1 implies (#[trigger] rest[i]).success by {
            assert(rest[i] == replies[i + 1]);
        }
        assert(rest[n - 1] == replies[n]);
        a_failure_ends_the_run(commands.skip(1), rest, n - 1);
    }
}

/// A package that is found by its name is one of the packages and has the
/// name; where none is found no package has it.
pub proof fn called_has_the_name(packages: Seq<PackageView>, name: Seq<char>)
    ensures
        match called(packages, name) {
            Some(package) => package.name == name && packages.contains(package),
            None => forall|i: int|
                0 <= i < packages.len() ==> (#[trigger] packages[i]).name != name,
        },
{
    rows::first_has(packages, |p: PackageView| p.name == name);
}

} // verus!
