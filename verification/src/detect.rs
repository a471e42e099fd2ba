//! Finding out whether a manager is there.

use vstd::prelude::*;

use crate::error::{Error, ErrorView};
use crate::text::{copy, Deep};

verus! {

/// Whether a backend can be used.
#[derive(Debug)]
pub enum Detection {
    Available { program: String },
    Unavailable { reason: String },
}

/// The model of a [`Detection`].
pub enum DetectionView {
    Available { program: Seq<char> },
    Unavailable { reason: Seq<char> },
}

impl View for Detection {
    type V = DetectionView;

    open spec fn view(&self) -> DetectionView {
        match *self {
            Detection::Available { program } => DetectionView::Available { program: program@ },
            Detection::Unavailable { reason } => DetectionView::Unavailable { reason: reason@ },
        }
    }
}

/// The first program that was found, given where each was found.
pub open spec fn first_found(found: Seq<Option<String>>) -> Option<Seq<char>>
    decreases found.len(),
{
    if found.len() == 0 {
        None
    } else {
        match found[0] {
            Some(path) => Some(path@),
            None => first_found(found.skip(1)),
        }
    }
}

/// A backend is available when one of its programs was found.
pub open spec fn detected(found: Seq<Option<String>>, reason: Seq<char>) -> DetectionView {
    match first_found(found) {
        Some(program) => DetectionView::Available { program },
        None => DetectionView::Unavailable { reason },
    }
}

/// Where the program to drive is, or that the manager is unavailable.
pub open spec fn required(found: Seq<Option<String>>, id: Seq<char>) -> Result<
    Seq<char>,
    ErrorView,
> {
    match first_found(found) {
        Some(program) => Ok(program),
        None => Err(ErrorView::Unavailable(id)),
    }
}

/// The first program that was found, given where each was found.
pub fn pick(found: &[Option<String>]) -> (r: Option<String>)
    ensures
        r.deep() == first_found(found@),
{
    let mut i: usize = 0;
    assert(found@.skip(0) =~= found@);
    while i < found.len()
        invariant
            i <= found.len(),
            first_found(found@) == first_found(found@.skip(i as int)),
        decreases found.len() - i,
    {
        assert(found@.skip(i as int)[0] == found@[i as int]);
        if let Some(path) = &found[i] {
            return Some(copy(path));
        }
        assert(found@.skip(i as int).skip(1) =~= found@.skip(i + 1));
        i += 1;
    }
    None
}

/// Whether a backend can be used, given where its programs were found and
/// what to say when none was.
pub fn detect(found: &[Option<String>], reason: &str) -> (r: Detection)
    ensures
        r@ == detected(found@, reason@),
{
    match pick(found) {
        Some(program) => Detection::Available { program },
        None => Detection::Unavailable { reason: copy(reason) },
    }
}

/// The program to drive.
pub fn require(found: &[Option<String>], id: &str) -> (r: Result<String, Error>)
    ensures
        crate::error::outcome_of(r) == required(found@, id@),
{
    match pick(found) {
        Some(program) => Ok(program),
        None => Err(Error::Unavailable(copy(id))),
    }
}

/// The program that is driven is the first of those that were found; a backend
/// is unavailable exactly where none was.
pub proof fn the_first_program_is_driven(found: Seq<Option<String>>, id: Seq<char>)
    ensures
        match required(found, id) {
            Ok(program) => exists|i: int|
                0 <= i < found.len() && (#[trigger] found[i]).deep() == Some(program) && forall|
                    j: int,
                |
                    0 <= j < i ==> (#[trigger] found[j]) is None,
            Err(error) => error == ErrorView::Unavailable(id) && forall|i: int|
                0 <= i < found.len() ==> (#[trigger] found[i]) is None,
        },
    decreases found.len(),
{
    if found.len() > 0 {
        if found[0] is Some {
            assert(found[0].deep() == Some(found[0]->0@));
        } else {
            let rest = found.skip(1);
            the_first_program_is_driven(rest, id);
            match required(rest, id) {
                Ok(program) => {
                    let i = choose|i: int|
                        0 <= i < rest.len() && (#[trigger] rest[i]).deep() == Some(program)
                            && forall|j: int| 0 <= j < i ==> (#[trigger] rest[j]) is None;
                    assert(found[i + 1].deep() == Some(program));
                    assert forall|j: int| 0 <= j < i + 1 implies (#[trigger] found[j]) is None by {
                        if j > 0 {
                            assert(found[j] == rest[j - 1]);
                        }
                    }
                },
                Err(_) => {
                    assert forall|i: int| 0 <= i < found.len() implies (
                    #[trigger] found[i]) is None by {
                        if i > 0 {
                            assert(found[i] == rest[i - 1]);
                        }
                    }
                },
            }
        }
    }
}

} // verus!
