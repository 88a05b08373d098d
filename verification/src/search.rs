//! The search, one file at a time. The caller owns the directories and reads
//! the files; the functions here say which directory to read next and when
//! the search is over, so that no file is read once the outcome is known.

use crate::descriptor::{outcome_view, Descriptor, DescriptorView, ResolveError};
use crate::resolve::{examine, probe, resolution, CandidateView};
use vstd::prelude::*;

verus! {

/// What the caller is to do next.
#[derive(Debug)]
pub enum Action {
    /// Read the file in the search directory with this index, and come back
    /// with what was read.
    Read(usize),
    /// Stop: the search has this outcome.
    Finish(Result<Descriptor, ResolveError>),
}

/// [`Action`] as mathematical values.
pub enum ActionView {
    Read(usize),
    Finish(Result<DescriptorView, ResolveError>),
}

impl View for Action {
    type V = ActionView;

    open spec fn view(&self) -> ActionView {
        match *self {
            Action::Read(index) => ActionView::Read(index),
            Action::Finish(outcome) => ActionView::Finish(outcome_view(outcome)),
        }
    }
}

/// The first action of a search over `count` directories.
pub open spec fn first_action(count: usize) -> ActionView {
    if count == 0 {
        ActionView::Finish(Err(ResolveError::NotFound))
    } else {
        ActionView::Read(0)
    }
}

/// The action that follows the reading of directory `index` out of `count`,
/// where `candidate` is what was read there.
pub open spec fn next_action(count: usize, index: usize, candidate: CandidateView) -> ActionView {
    match probe(candidate) {
        Some(outcome) => ActionView::Finish(outcome),
        None => if index + 1 < count {
            ActionView::Read((index + 1) as usize)
        } else {
            ActionView::Finish(Err(ResolveError::NotFound))
        },
    }
}

/// Where a search that follows the actions ends, once it is to read
/// directory `index` of `candidates`.
pub open spec fn search_from(candidates: Seq<CandidateView>, index: usize) -> Result<
    DescriptorView,
    ResolveError,
>
    decreases candidates.len() - index,
{
    if index >= candidates.len() || candidates.len() > usize::MAX {
        Err(ResolveError::NotFound)
    } else {
        match next_action(candidates.len() as usize, index, candidates[index as int]) {
            ActionView::Finish(outcome) => outcome,
            ActionView::Read(next) => search_from(candidates, next),
        }
    }
}

/// Where a search that follows the actions ends, from its first action on.
pub open spec fn search(candidates: Seq<CandidateView>) -> Result<DescriptorView, ResolveError> {
    match first_action(candidates.len() as usize) {
        ActionView::Finish(outcome) => outcome,
        ActionView::Read(index) => search_from(candidates, index),
    }
}

/// Starts a search over `count` directories: with none there is nothing to
/// find, and else the first is to be read.
pub fn begin(count: usize) -> (action: Action)
    ensures
        action@ == first_action(count),
{
    if count == 0 {
        Action::Finish(Err(ResolveError::NotFound))
    } else {
        Action::Read(0)
    }
}

/// Goes on after directory `index` out of `count` was read: `path` is the
/// file there, `contents` its text where it could be read. A file that parses
/// ends the search; one that does not sends the caller to the next directory,
/// and behind the last directory the identifier is not found.
pub fn proceed(count: usize, index: usize, path: &str, contents: Option<&str>) -> (action: Action)
    ensures
        action@ == next_action(
            count,
            index,
            CandidateView {
                path: path@,
                contents: match contents {
                    Some(text) => Some(text@),
                    None => None,
                },
            },
        ),
{
    match examine(path, contents) {
        Some(outcome) => Action::Finish(outcome),
        None => if count > 0 && index < count - 1 {
            Action::Read(index + 1)
        } else {
            Action::Finish(Err(ResolveError::NotFound))
        },
    }
}

proof fn search_from_is_resolution_of_rest(candidates: Seq<CandidateView>, index: usize)
    requires
        index <= candidates.len() <= usize::MAX,
    ensures
        search_from(candidates, index) == resolution(candidates.skip(index as int)),
    decreases candidates.len() - index,
{
    let rest = candidates.skip(index as int);
    if index < candidates.len() {
        assert(rest[0] == candidates[index as int]);
        assert(rest.drop_first() == candidates.skip(index + 1));
        if probe(candidates[index as int]) is None {
            if index + 1 < candidates.len() {
                search_from_is_resolution_of_rest(candidates, (index + 1) as usize);
            } else {
                assert(rest.drop_first().len() == 0);
            }
        }
    }
}

/// A caller that follows the actions, and hands back for each directory what
/// it read there, ends with the outcome that [`crate::resolve::resolve`]
/// gives for the files of all the directories.
pub proof fn search_is_resolution(candidates: Seq<CandidateView>)
    requires
        candidates.len() <= usize::MAX,
    ensures
        search(candidates) == resolution(candidates),
{
    if candidates.len() > 0 {
        search_from_is_resolution_of_rest(candidates, 0);
        assert(candidates.skip(0) == candidates);
    }
}

} // verus!
