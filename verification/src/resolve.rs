//! Finding the desktop entry of an identifier: the search directories are
//! tried in order, and the first one whose file can be read and parsed
//! decides.

use crate::decode::{parse, parsed};
use crate::descriptor::{
    outcome_view, select, Descriptor, DescriptorView, EntryFieldsView, ResolveError,
};
use vstd::prelude::*;
use vstd::string::StringExecFns;

verus! {

/// The name of the file that describes `identifier`.
pub open spec fn file_name_of(identifier: Seq<char>) -> Seq<char> {
    identifier + ".desktop"@
}

/// The name of the file that describes `identifier`: the identifier with the
/// extension `.desktop`.
pub fn file_name(identifier: &str) -> (r: String)
    ensures
        r@ == file_name_of(identifier@),
{
    String::from_str(identifier).concat(".desktop")
}

/// The file of one search directory: where it lies, and what was read from
/// it. A file that is absent, or cannot be read as text, has no content.
#[derive(Debug, Clone)]
pub struct Candidate {
    pub path: String,
    pub contents: Option<String>,
}

/// [`Candidate`] as mathematical values.
pub struct CandidateView {
    pub path: Seq<char>,
    pub contents: Option<Seq<char>>,
}

impl View for Candidate {
    type V = CandidateView;

    open spec fn view(&self) -> CandidateView {
        CandidateView {
            path: self.path@,
            contents: match self.contents {
                Some(text) => Some(text@),
                None => None,
            },
        }
    }
}

/// The candidates of a list, each by its view.
pub open spec fn views(candidates: Seq<Candidate>) -> Seq<CandidateView> {
    Seq::new(candidates.len(), |i: int| candidates[i]@)
}

/// What one search directory settles. A file without content, or with a
/// content that does not parse, settles nothing, and the search goes on. A
/// file that parses ends the search, with its descriptor or with the required
/// field that it lacks.
pub open spec fn probe(candidate: CandidateView) -> Option<Result<DescriptorView, ResolveError>> {
    match candidate.contents {
        None => None,
        Some(text) => match parsed(candidate.path, text) {
            None => None,
            Some(fields) => Some(select(fields)),
        },
    }
}

/// The outcome of the search over `candidates`, in their order: what the
/// first of them that settles anything settles, and `NotFound` where none
/// does.
pub open spec fn resolution(candidates: Seq<CandidateView>) -> Result<DescriptorView, ResolveError>
    decreases candidates.len(),
{
    if candidates.len() == 0 {
        Err(ResolveError::NotFound)
    } else {
        match probe(candidates[0]) {
            Some(outcome) => outcome,
            None => resolution(candidates.drop_first()),
        }
    }
}

/// Looks at the file of one search directory: `None` where it settles
/// nothing, and else the end of the search.
pub fn examine(path: &str, contents: Option<&str>) -> (r: Option<Result<Descriptor, ResolveError>>)
    ensures
        match r {
            Some(outcome) => probe(
                CandidateView {
                    path: path@,
                    contents: match contents {
                        Some(text) => Some(text@),
                        None => None,
                    },
                },
            ) == Some(outcome_view(outcome)),
            None => probe(
                CandidateView {
                    path: path@,
                    contents: match contents {
                        Some(text) => Some(text@),
                        None => None,
                    },
                },
            ) is None,
        },
{
    match contents {
        None => None,
        Some(text) => match parse(path, text) {
            None => None,
            Some(fields) => Some(Descriptor::from_fields(fields)),
        },
    }
}

/// Resolves an identifier from the files of its search directories, given in
/// the order of the search path. The first file that can be read and parsed
/// decides alone: it gives the descriptor, or the error of the required field
/// that it lacks. Where no file can be read and parsed, the identifier is not
/// found.
pub fn resolve(candidates: &Vec<Candidate>) -> (r: Result<Descriptor, ResolveError>)
    ensures
        outcome_view(r) == resolution(views(candidates@)),
{
    let mut i: usize = 0;
    assert(views(candidates@).skip(0) == views(candidates@));
    while i < candidates.len()
        invariant
            i <= candidates.len(),
            resolution(views(candidates@)) == resolution(views(candidates@).skip(i as int)),
        decreases candidates.len() - i,
    {
        let candidate = &candidates[i];
        let contents = match &candidate.contents {
            Some(text) => Some(text.as_str()),
            None => None,
        };
        proof {
            let rest = views(candidates@).skip(i as int);
            assert(rest[0] == candidate@);
            assert(rest.drop_first() == views(candidates@).skip(i + 1));
        }
        match examine(candidate.path.as_str(), contents) {
            Some(outcome) => {
                return outcome;
            },
            None => {},
        }
        i += 1;
    }
    Err(ResolveError::NotFound)
}

/// First match wins. Where the directories in front of one settle nothing and
/// that one settles something, the search ends with what it settles, whatever
/// the directories behind it hold.
pub proof fn first_match_wins(candidates: Seq<CandidateView>, i: int)
    requires
        0 <= i < candidates.len(),
        probe(candidates[i]) is Some,
        forall|j: int| 0 <= j < i ==> probe(#[trigger] candidates[j]) is None,
    ensures
        Some(resolution(candidates)) == probe(candidates[i]),
    decreases i,
{
    if i > 0 {
        let rest = candidates.drop_first();
        assert(probe(candidates[0]) is None);
        assert forall|j: int| 0 <= j < i - 1 implies probe(#[trigger] rest[j]) is None by {
            assert(rest[j] == candidates[j + 1]);
        }
        first_match_wins(rest, i - 1);
    }
}

/// A search that has ended on one list of directories is not changed by
/// directories that follow; one that found nothing goes on with them.
pub proof fn front_decides(front: Seq<CandidateView>, back: Seq<CandidateView>)
    ensures
        resolution(front + back) == if resolution(front) matches Err(ResolveError::NotFound) {
            resolution(back)
        } else {
            resolution(front)
        },
    decreases front.len(),
{
    if front.len() == 0 {
        assert(front + back == back);
    } else {
        assert((front + back)[0] == front[0]);
        assert((front + back).drop_first() == front.drop_first() + back);
        front_decides(front.drop_first(), back);
    }
}

/// The search ends with `NotFound` exactly where no directory holds a file
/// that can be read and parsed.
pub proof fn not_found_means_no_match(candidates: Seq<CandidateView>)
    ensures
        resolution(candidates) matches Err(ResolveError::NotFound) <==> forall|i: int|
            0 <= i < candidates.len() ==> probe(#[trigger] candidates[i]) is None,
    decreases candidates.len(),
{
    if candidates.len() > 0 {
        let rest = candidates.drop_first();
        not_found_means_no_match(rest);
        if probe(candidates[0]) is None {
            if forall|i: int| 0 <= i < rest.len() ==> probe(#[trigger] rest[i]) is None {
                assert forall|i: int| 0 <= i < candidates.len() implies probe(
                    #[trigger] candidates[i],
                ) is None by {
                    if i > 0 {
                        assert(candidates[i] == rest[i - 1]);
                    }
                }
            } else {
                let i = choose|i: int| 0 <= i < rest.len() && !(probe(#[trigger] rest[i]) is None);
                assert(rest[i] == candidates[i + 1]);
            }
        }
    }
}

/// A file that parses and gives both a name and a command, neither of them
/// empty, is resolved to the descriptor with exactly its values, where the
/// directories in front of it settle nothing.
pub proof fn found_fields_are_kept(
    candidates: Seq<CandidateView>,
    i: int,
    name: Seq<char>,
    icon: Option<Seq<char>>,
    command: Seq<char>,
)
    requires
        0 <= i < candidates.len(),
        forall|j: int| 0 <= j < i ==> probe(#[trigger] candidates[j]) is None,
        candidates[i].contents matches Some(text) && parsed(candidates[i].path, text) == Some(
            EntryFieldsView { name: Some(name), icon, command: Some(command) },
        ),
        name.len() > 0,
        command.len() > 0,
    ensures
        resolution(candidates) matches Ok(found) && found == (DescriptorView {
            name,
            icon,
            command,
        }),
{
    first_match_wins(candidates, i);
}

/// A file that parses but lacks a required field ends the search with the
/// error of that field, which is never `NotFound`. A key that the file does
/// not have is named before one whose value is empty: the error is
/// `MissingName` where the name is absent, or is empty beside a command that
/// is there; it is `MissingCommand` where the name is there and the command
/// is absent, or is empty beside a name that is not.
pub proof fn missing_field_is_reported(
    candidates: Seq<CandidateView>,
    i: int,
    fields: EntryFieldsView,
)
    requires
        0 <= i < candidates.len(),
        forall|j: int| 0 <= j < i ==> probe(#[trigger] candidates[j]) is None,
        candidates[i].contents matches Some(text) && parsed(candidates[i].path, text) == Some(
            fields,
        ),
    ensures
        resolution(candidates) == select(fields),
        !(resolution(candidates) matches Err(ResolveError::NotFound)),
        resolution(candidates) matches Err(ResolveError::MissingName) <==> (fields.name is None || (
        fields.command is Some && fields.name->0.len() == 0)),
        resolution(candidates) matches Err(ResolveError::MissingCommand) <==> (fields.name is Some
            && (fields.command is None || (fields.name->0.len() > 0 && fields.command->0.len()
            == 0))),
{
    first_match_wins(candidates, i);
}

} // verus!
