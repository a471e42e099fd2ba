//! What the caller asks for.

use vstd::prelude::*;

use crate::error::{Error, ErrorView};
use crate::text::{self, cat3, chars, copy, Deep, Text};

verus! {

/// A package by name, and a version where one is asked for.
#[derive(Debug)]
pub struct PackageRequest {
    pub name: String,
    pub version: Option<String>,
}

/// The model of a [`PackageRequest`].
pub struct RequestView {
    pub name: Seq<char>,
    pub version: Option<Seq<char>>,
}

impl View for PackageRequest {
    type V = RequestView;

    open spec fn view(&self) -> RequestView {
        RequestView { name: self.name@, version: self.version.deep() }
    }
}

impl RequestView {
    /// The name, followed by `separator` and the version where there is one.
    pub open spec fn pinned(self, separator: Seq<char>) -> Seq<char> {
        match self.version {
            Some(version) => self.name + separator + version,
            None => self.name,
        }
    }

    /// The request as it is written: `name` or `name@version`.
    pub open spec fn written(self) -> Seq<char> {
        self.pinned("@"@)
    }

    /// The request that a text writes: the version follows the last `@`,
    /// unless that is the first or the last character.
    pub open spec fn read(text: Seq<char>) -> RequestView {
        match text.cut_last('@') {
            Some((name, version)) => if name.len() > 0 && version.len() > 0 {
                RequestView { name, version: Some(version) }
            } else {
                RequestView { name: text, version: None }
            },
            None => RequestView { name: text, version: None },
        }
    }
}

impl PackageRequest {
    /// Reads `name` or `name@version`.
    pub fn parse(text: &str) -> (r: PackageRequest)
        ensures
            r@ == RequestView::read(text@),
    {
        let t = chars(text);
        match text::cut_last(&t, '@') {
            Some((name, version)) => {
                if name.len() > 0 && version.len() > 0 {
                    return PackageRequest {
                        name: text::string(name),
                        version: Some(text::string(version)),
                    };
                }
            },
            None => {},
        }
        PackageRequest { name: copy(text), version: None }
    }

    /// The name, followed by `separator` and the version where there is one.
    pub fn pinned(&self, separator: &str) -> (r: String)
        ensures
            r@ == self@.pinned(separator@),
    {
        match &self.version {
            Some(version) => cat3(&self.name, separator, version),
            None => copy(&self.name),
        }
    }

    /// `name` or `name@version`.
    pub fn written(&self) -> (r: String)
        ensures
            r@ == self@.written(),
    {
        self.pinned("@")
    }
}

/// How an operation is to be carried out.
#[derive(Clone, Copy, Debug, Default)]
pub struct OpContext {
    /// Show what would happen, change nothing.
    pub dry_run: bool,
    /// Answer the tool's questions with yes.
    pub assume_yes: bool,
}

/// The names of the requested packages.
pub open spec fn names(requests: Seq<RequestView>) -> Seq<Seq<char>> {
    requests.map_values(|r: RequestView| r.name)
}

/// The requested packages, each with its version behind `separator`.
pub open spec fn pinned_all(requests: Seq<RequestView>, separator: Seq<char>) -> Seq<Seq<char>> {
    requests.map_values(|r: RequestView| r.pinned(separator))
}

/// The first request that names a version, as it is written.
pub open spec fn first_pin(requests: Seq<RequestView>) -> Option<RequestView>
    decreases requests.len(),
{
    if requests.len() == 0 {
        None
    } else if requests[0].version is Some {
        Some(requests[0])
    } else {
        first_pin(requests.skip(1))
    }
}

/// A refusal of the first request that names a version, in words around it.
pub open spec fn pins_refused(
    requests: Seq<RequestView>,
    before: Seq<char>,
    after: Seq<char>,
) -> Result<(), ErrorView> {
    match first_pin(requests) {
        Some(request) => Err(ErrorView::Other(before + request.written() + after)),
        None => Ok(()),
    }
}

/// The first request that names a version.
pub fn find_pin(requests: &[PackageRequest]) -> (r: Option<&PackageRequest>)
    ensures
        r.deep() == first_pin(requests@.deep()),
{
    let mut i: usize = 0;
    let ghost all = requests@.deep();
    assert(all.skip(0) =~= all);
    while i < requests.len()
        invariant
            i <= requests.len(),
            all == requests@.deep(),
            first_pin(all) == first_pin(all.skip(i as int)),
        decreases requests.len() - i,
    {
        assert(all.skip(i as int)[0] == requests@[i as int]@);
        if requests[i].version.is_some() {
            return Some(&requests[i]);
        }
        assert(all.skip(i as int).skip(1) =~= all.skip(i + 1));
        i += 1;
    }
    None
}

/// Refuses requests that name a version.
pub fn refuse_pins(requests: &[PackageRequest], before: &str, after: &str) -> (r: Result<(), Error>)
    ensures
        crate::error::outcome(r) == pins_refused(requests@.deep(), before@, after@),
{
    match find_pin(requests) {
        Some(request) => Err(Error::Other(cat3(before, &request.written(), after))),
        None => Ok(()),
    }
}

/// The names of the requests, with `separator` between each two of them.
pub fn joined_names(requests: &[PackageRequest], separator: &str) -> (r: String)
    ensures
        r@ == text::join_of(names(requests@.deep()), separator@),
{
    let ghost all = names(requests@.deep());
    let mut out = text::copy("");
    let mut i: usize = 0;
    proof {
        reveal_strlit("");
        assert(out@ =~= text::join_of(all.take(0), separator@));
    }
    while i < requests.len()
        invariant
            i <= requests.len(),
            all == names(requests@.deep()),
            out@ == text::join_of(all.take(i as int), separator@),
        decreases requests.len() - i,
    {
        assert(all[i as int] == requests@[i as int].name@);
        assert(all.take(i + 1).drop_last() =~= all.take(i as int));
        if i == 0 {
            out = text::copy(&requests[i].name);
        } else {
            out = text::cat3(&out, separator, &requests[i].name);
        }
        i += 1;
    }
    assert(all.take(all.len() as int) =~= all);
    out
}

/// Whether any request names a version.
pub fn any_pin(requests: &[PackageRequest]) -> (r: bool)
    ensures
        r == (first_pin(requests@.deep()) is Some),
{
    find_pin(requests).is_some()
}

/// Requests without versions are never refused, and a refused list names one.
pub proof fn pins_are_refused_exactly(
    requests: Seq<RequestView>,
    before: Seq<char>,
    after: Seq<char>,
)
    ensures
        pins_refused(requests, before, after) is Err <==> exists|i: int|
            0 <= i < requests.len() && (#[trigger] requests[i]).version is Some,
    decreases requests.len(),
{
    if requests.len() > 0 {
        let rest = requests.skip(1);
        pins_are_refused_exactly(rest, before, after);
        if requests[0].version is None {
            if exists|i: int| 0 <= i < requests.len() && (#[trigger] requests[i]).version is Some {
                let i = choose|i: int|
                    0 <= i < requests.len() && (#[trigger] requests[i]).version is Some;
                assert(rest[i - 1].version is Some);
            }
            if exists|i: int| 0 <= i < rest.len() && (#[trigger] rest[i]).version is Some {
                let i = choose|i: int| 0 <= i < rest.len() && (#[trigger] rest[i]).version is Some;
                assert(requests[i + 1].version is Some);
            }
        }
    }
}

/// A text is read into a request that is written as that text.
pub proof fn reading_is_lossless(text: Seq<char>)
    ensures
        RequestView::read(text).written() == text,
{
    reveal_strlit("@");
    text::last_cut_is_lossless(text, '@');
    if let Some((name, version)) = text.cut_last('@') {
        assert(name + "@"@ + version =~= name.push('@') + version);
    }
}

/// A request is read back from the text it is written as, where the name and
/// the version are not empty and the part behind the last `@` is the version.
pub proof fn writing_is_lossless(request: RequestView)
    requires
        match request.version {
            Some(version) => request.name.len() > 0 && version.len() > 0 && !version.contains('@'),
            None => !request.name.contains('@'),
        },
    ensures
        RequestView::read(request.written()) == request,
{
    reveal_strlit("@");
    match request.version {
        Some(version) => {
            assert(request.written() =~= request.name.push('@') + version);
            text::last_cut_undoes(request.name, '@', version);
        },
        None => {
            text::last_cut_is_lossless(request.name, '@');
            if let Some((name, version)) = request.name.cut_last('@') {
                assert((name.push('@') + version)[name.len() as int] == '@');
            }
        },
    }
}

} // verus!
