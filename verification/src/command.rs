//! Command lines.

use vstd::prelude::*;

use crate::error::{Error, ErrorView};
use crate::request::{PackageRequest, RequestView};
use crate::text::{copy, Deep};

verus! {

/// A command line to be run.
#[derive(Clone, Debug)]
pub struct Cmd {
    pub program: String,
    pub args: Vec<String>,
    /// Variables set for the command, on top of the inherited ones.
    pub envs: Vec<(String, String)>,
    /// Whether to run it through the elevation helper.
    pub elevated: bool,
}

/// The model of a [`Cmd`].
pub struct CmdView {
    pub program: Seq<char>,
    pub args: Seq<Seq<char>>,
    pub envs: Seq<(Seq<char>, Seq<char>)>,
    pub elevated: bool,
}

impl View for Cmd {
    type V = CmdView;

    open spec fn view(&self) -> CmdView {
        CmdView {
            program: self.program@,
            args: self.args@.deep(),
            envs: self.envs@.deep(),
            elevated: self.elevated,
        }
    }
}

impl CmdView {
    pub open spec fn new(program: Seq<char>) -> CmdView {
        CmdView { program, args: seq![], envs: seq![], elevated: false }
    }

    /// With one more argument.
    pub open spec fn arg(self, arg: Seq<char>) -> CmdView {
        CmdView { args: self.args.push(arg), ..self }
    }

    /// With more arguments.
    pub open spec fn args(self, args: Seq<Seq<char>>) -> CmdView {
        CmdView { args: self.args + args, ..self }
    }

    /// With one more argument, if `given`.
    pub open spec fn flag(self, given: bool, arg: Seq<char>) -> CmdView {
        if given {
            self.arg(arg)
        } else {
            self
        }
    }

    /// With an option and its value, if there is one.
    pub open spec fn option(self, option: Seq<char>, value: Option<Seq<char>>) -> CmdView {
        match value {
            Some(value) => self.arg(option).arg(value),
            None => self,
        }
    }

    /// With one more variable.
    pub open spec fn env(self, key: Seq<char>, value: Seq<char>) -> CmdView {
        CmdView { envs: self.envs.push((key, value)), ..self }
    }

    pub open spec fn elevated(self) -> CmdView {
        CmdView { elevated: true, ..self }
    }

    /// With the names of the requested packages.
    pub open spec fn names(self, requests: Seq<RequestView>) -> CmdView {
        self.args(crate::request::names(requests))
    }

    /// With the requested packages, each with its version behind `separator`.
    pub open spec fn pinned(self, requests: Seq<RequestView>, separator: Seq<char>) -> CmdView {
        self.args(crate::request::pinned_all(requests, separator))
    }

    /// Whether `word` is an argument.
    pub open spec fn carries(self, word: Seq<char>) -> bool {
        self.args.contains(word)
    }

    /// Whether the first variable that is set is the `C` locale.
    pub open spec fn is_in_c_locale(self) -> bool {
        self.envs.len() > 0 && self.envs[0] == ("LC_ALL"@, "C"@)
    }

    /// A command whose output is to be read: in the `C` locale, so that the
    /// output does not depend on the user's language.
    pub open spec fn query(program: Seq<char>) -> CmdView {
        CmdView::new(program).env("LC_ALL"@, "C"@)
    }
}

/// What one more argument adds.
pub broadcast proof fn arg_carries(cmd: CmdView, arg: Seq<char>, word: Seq<char>)
    ensures
        #[trigger] cmd.arg(arg).carries(word) == (cmd.carries(word) || arg == word),
{
    let args = cmd.arg(arg).args;
    assert(args.last() == arg);
    if cmd.carries(word) {
        let i = choose|i: int| 0 <= i < cmd.args.len() && cmd.args[i] == word;
        assert(args[i] == word);
    }
    if args.contains(word) && arg != word {
        let i = choose|i: int| 0 <= i < args.len() && args[i] == word;
        assert(cmd.args[i] == word);
    }
}

/// More arguments take none away.
pub broadcast proof fn args_carry(cmd: CmdView, more: Seq<Seq<char>>, word: Seq<char>)
    requires
        cmd.carries(word),
    ensures
        #[trigger] cmd.args(more).carries(word),
{
    let i = choose|i: int| 0 <= i < cmd.args.len() && cmd.args[i] == word;
    assert(cmd.args(more).args[i] == word);
}

/// A variable that is set is among the variables.
pub broadcast proof fn env_is_set(cmd: CmdView, key: Seq<char>, value: Seq<char>)
    ensures
        (#[trigger] cmd.env(key, value)).envs.contains((key, value)),
{
    assert(cmd.env(key, value).envs.last() == (key, value));
}

/// What a command carries.
pub broadcast group group_carries {
    arg_carries,
    args_carry,
    env_is_set,
}

impl Cmd {
    pub fn new(program: &str) -> (r: Cmd)
        ensures
            r@ == CmdView::new(program@),
    {
        let r = Cmd { program: copy(program), args: Vec::new(), envs: Vec::new(), elevated: false };
        assert(r.args@.deep() =~= seq![]);
        assert(r.envs@.deep() =~= seq![]);
        r
    }

    pub fn arg(self, arg: &str) -> (r: Cmd)
        ensures
            r@ == self@.arg(arg@),
    {
        let mut cmd = self;
        cmd.args.push(copy(arg));
        assert(cmd.args@.deep() =~= self.args@.deep().push(arg@));
        cmd
    }

    pub fn flag(self, given: bool, arg: &str) -> (r: Cmd)
        ensures
            r@ == self@.flag(given, arg@),
    {
        if given {
            self.arg(arg)
        } else {
            self
        }
    }

    pub fn option(self, option: &str, value: &Option<String>) -> (r: Cmd)
        ensures
            r@ == self@.option(option@, value.deep()),
    {
        match value {
            Some(value) => self.arg(option).arg(value),
            None => self,
        }
    }

    pub fn env(self, key: &str, value: &str) -> (r: Cmd)
        ensures
            r@ == self@.env(key@, value@),
    {
        let mut cmd = self;
        cmd.envs.push((copy(key), copy(value)));
        assert(cmd.envs@.deep() =~= self.envs@.deep().push((key@, value@)));
        cmd
    }

    pub fn elevated(self) -> (r: Cmd)
        ensures
            r@ == self@.elevated(),
    {
        let mut cmd = self;
        cmd.elevated = true;
        cmd
    }

    /// With an argument for each request.
    pub fn each<F: Fn(&PackageRequest) -> String>(
        self,
        requests: &[PackageRequest],
        f: F,
        Ghost(g): Ghost<spec_fn(RequestView) -> Seq<char>>,
    ) -> (r: Cmd)
        requires
            forall|q: &PackageRequest| #[trigger] f.requires((q,)),
            forall|q: &PackageRequest, s: String| #[trigger] f.ensures((q,), s) ==> s@ == g(q@),
        ensures
            r@ == self@.args(requests@.deep().map_values(g)),
    {
        let mut cmd = self;
        let mut i: usize = 0;
        let ghost all = requests@.deep().map_values(g);
        assert(cmd.args@.deep() =~= self.args@.deep() + all.take(0));
        while i < requests.len()
            invariant
                i <= requests.len(),
                forall|q: &PackageRequest| #[trigger] f.requires((q,)),
                forall|q: &PackageRequest, s: String| #[trigger]
                    f.ensures((q,), s) ==> s@ == g(q@),
                all == requests@.deep().map_values(g),
                cmd.program == self.program,
                cmd.envs == self.envs,
                cmd.elevated == self.elevated,
                cmd.args@.deep() == self.args@.deep() + all.take(i as int),
            decreases requests.len() - i,
        {
            let ghost before = cmd.args@;
            let arg = f(&requests[i]);
            cmd.args.push(arg);
            assert(cmd.args@.deep() =~= before.deep().push(all[i as int]));
            assert(cmd.args@.deep() =~= self.args@.deep() + all.take(i + 1));
            i += 1;
        }
        assert(all.take(all.len() as int) =~= all);
        cmd
    }

    pub fn names(self, requests: &[PackageRequest]) -> (r: Cmd)
        ensures
            r@ == self@.names(requests@.deep()),
    {
        let name = |q: &PackageRequest| -> (s: String)
            ensures
                s@ == q@.name,
            { copy(&q.name) };
        self.each(requests, name, Ghost(|q: RequestView| q.name))
    }

    pub fn pinned(self, requests: &[PackageRequest], separator: &str) -> (r: Cmd)
        ensures
            r@ == self@.pinned(requests@.deep(), separator@),
    {
        let pin = |q: &PackageRequest| -> (s: String)
            ensures
                s@ == q@.pinned(separator@),
            { q.pinned(separator) };
        self.each(requests, pin, Ghost(|q: RequestView| q.pinned(separator@)))
    }

    /// With copies of the given strings as arguments.
    pub fn args(self, more: &[String]) -> (r: Cmd)
        ensures
            r@ == self@.args(more@.deep()),
    {
        let mut cmd = self;
        let mut i: usize = 0;
        let ghost all = more@.deep();
        assert(cmd.args@.deep() =~= self.args@.deep() + all.take(0));
        while i < more.len()
            invariant
                i <= more.len(),
                all == more@.deep(),
                cmd.program == self.program,
                cmd.envs == self.envs,
                cmd.elevated == self.elevated,
                cmd.args@.deep() == self.args@.deep() + all.take(i as int),
            decreases more.len() - i,
        {
            let ghost before = cmd.args@;
            cmd.args.push(copy(&more[i]));
            assert(cmd.args@.deep() =~= before.deep().push(all[i as int]));
            assert(cmd.args@.deep() =~= self.args@.deep() + all.take(i + 1));
            i += 1;
        }
        assert(all.take(all.len() as int) =~= all);
        cmd
    }

    /// A command whose output is to be read, in the `C` locale.
    pub fn query(program: &str) -> (r: Cmd)
        ensures
            r@ == CmdView::query(program@),
    {
        Cmd::new(program).env("LC_ALL", "C")
    }
}

/// Commands to be run one after the other, each of which has to succeed, or
/// the reason why there are none.
pub type Plan = Result<Vec<Cmd>, Error>;

/// The model of a [`Plan`].
pub type PlanView = Result<Seq<CmdView>, ErrorView>;

pub open spec fn plan(r: Plan) -> PlanView {
    match r {
        Ok(commands) => Ok(commands@.deep()),
        Err(error) => Err(error@),
    }
}

/// Every command of a plan is run through the elevation helper, or none is.
pub open spec fn all_elevated(p: PlanView, elevated: bool) -> bool {
    p matches Ok(commands) ==> forall|i: int|
        0 <= i < commands.len() ==> (#[trigger] commands[i]).elevated == elevated
}

/// Every command of a plan has the argument `word`. A plan that is refused has
/// no commands.
pub open spec fn all_carry(p: PlanView, word: Seq<char>) -> bool {
    p matches Ok(commands) ==> forall|i: int|
        0 <= i < commands.len() ==> (#[trigger] commands[i]).carries(word)
}

/// No command of a plan has the argument `word`.
pub open spec fn none_carries(p: PlanView, word: Seq<char>) -> bool {
    p matches Ok(commands) ==> forall|i: int|
        0 <= i < commands.len() ==> !(#[trigger] commands[i]).carries(word)
}

/// What more arguments add.
pub proof fn lemma_args_carry(cmd: CmdView, more: Seq<Seq<char>>, word: Seq<char>)
    ensures
        cmd.args(more).carries(word) == (cmd.carries(word) || more.contains(word)),
{
    let all = cmd.args(more).args;
    if cmd.carries(word) {
        args_carry(cmd, more, word);
    }
    if more.contains(word) {
        let i = choose|i: int| 0 <= i < more.len() && more[i] == word;
        assert(all[cmd.args.len() + i] == word);
    }
    if all.contains(word) {
        let i = choose|i: int| 0 <= i < all.len() && all[i] == word;
        if i < cmd.args.len() {
            assert(cmd.args[i] == word);
        } else {
            assert(more[i - cmd.args.len()] == word);
        }
    }
}

/// Every command of a plan has the variable `key` set to `value`.
pub open spec fn all_set(p: PlanView, key: Seq<char>, value: Seq<char>) -> bool {
    p matches Ok(commands) ==> forall|i: int|
        0 <= i < commands.len() ==> (#[trigger] commands[i]).envs.contains((key, value))
}

/// The plan of one command.
pub open spec fn just(cmd: CmdView) -> PlanView {
    Ok(seq![cmd])
}

pub fn one(cmd: Cmd) -> (r: Vec<Cmd>)
    ensures
        r@.deep() == seq![cmd@],
{
    let mut out: Vec<Cmd> = Vec::new();
    out.push(cmd);
    assert(out@.deep() =~= seq![cmd@]);
    out
}

/// `commands`, then `cmd`.
pub fn and(commands: Vec<Cmd>, cmd: Cmd) -> (r: Vec<Cmd>)
    ensures
        r@.deep() == commands@.deep().push(cmd@),
{
    let mut out = commands;
    out.push(cmd);
    assert(out@.deep() =~= commands@.deep().push(cmd@));
    out
}

/// One command for each request.
pub fn one_each<F: Fn(&PackageRequest) -> Cmd>(
    requests: &[PackageRequest],
    f: F,
    Ghost(g): Ghost<spec_fn(RequestView) -> CmdView>,
) -> (r: Vec<Cmd>)
    requires
        forall|q: &PackageRequest| #[trigger] f.requires((q,)),
        forall|q: &PackageRequest, c: Cmd| #[trigger] f.ensures((q,), c) ==> c@ == g(q@),
    ensures
        r@.deep() == requests@.deep().map_values(g),
{
    let mut out: Vec<Cmd> = Vec::new();
    let mut i: usize = 0;
    let ghost all = requests@.deep().map_values(g);
    assert(out@.deep() =~= all.take(0));
    while i < requests.len()
        invariant
            i <= requests.len(),
            forall|q: &PackageRequest| #[trigger] f.requires((q,)),
            forall|q: &PackageRequest, c: Cmd| #[trigger] f.ensures((q,), c) ==> c@ == g(q@),
            all == requests@.deep().map_values(g),
            out@.deep() == all.take(i as int),
        decreases requests.len() - i,
    {
        let ghost before = out@;
        let cmd = f(&requests[i]);
        out.push(cmd);
        assert(out@.deep() =~= before.deep().push(all[i as int]));
        assert(out@.deep() =~= all.take(i + 1));
        i += 1;
    }
    assert(all.take(all.len() as int) =~= all);
    out
}

} // verus!
