//! The whole search for a repository reference, as the answers of a file
//! system decide it, and what holds of every search.

use crate::git::{
    after_canonical_dir, after_current_dir, after_head, after_marker_text, after_ref, ancestor,
    lemma_marker_indirection, lemma_search_exhausts_ancestors, lemma_search_stops_at_nearest,
    link_prefix,
    marker_step, ref_prefix, search, GitDirView, GitError, Marker, RepoReferenceView, RequestView,
    StepView,
};
use crate::text::{first_chars, has_prefix, trimmed};
use vstd::prelude::*;

verus! {

/// What a file system answers to the questions of a search.
pub ghost struct Answers {
    /// Whether the working directory can be had.
    pub current_dir: Result<(), std::io::Error>,
    /// The components of its canonical form.
    pub canonical_dir: Result<Seq<Seq<char>>, std::io::Error>,
    /// What each directory holds under the marker's name.
    pub markers: spec_fn(Seq<Seq<char>>) -> Marker,
    /// The text of the marker file in each directory.
    pub marker_texts: spec_fn(Seq<Seq<char>>) -> Result<Seq<char>, std::io::Error>,
    /// The text of `HEAD` in each metadata directory.
    pub heads: spec_fn(GitDirView) -> Result<Seq<char>, std::io::Error>,
    /// The text of the file at each path in each metadata directory.
    pub references: spec_fn(GitDirView, Seq<char>) -> Result<Seq<char>, std::io::Error>,
}

/// The step that follows `request` when `answers` answers it.
pub open spec fn answered(answers: Answers, request: RequestView) -> StepView {
    match request {
        RequestView::CurrentDir => after_current_dir(answers.current_dir),
        RequestView::Canonicalize => after_canonical_dir(answers.canonical_dir),
        RequestView::ProbeMarker(dir) => marker_step(dir, (answers.markers)(dir)),
        RequestView::ReadMarker(dir) => after_marker_text((answers.marker_texts)(dir)),
        RequestView::ReadHead(git_dir) => after_head(git_dir, (answers.heads)(git_dir)),
        RequestView::ReadRef(git_dir, ref_path) => after_ref(
            ref_path,
            (answers.references)(git_dir, ref_path),
        ),
    }
}

/// A bound on the questions that are still asked once `request` is: each
/// step that asks again lowers it.
pub open spec fn questions_left(answers: Answers, request: RequestView) -> nat {
    let depth = match answers.canonical_dir {
        Ok(dir) => dir.len(),
        Err(_) => 0,
    };
    match request {
        RequestView::CurrentDir => depth + 6,
        RequestView::Canonicalize => depth + 5,
        RequestView::ProbeMarker(dir) => dir.len() + 4,
        RequestView::ReadMarker(_) => 3,
        RequestView::ReadHead(_) => 2,
        RequestView::ReadRef(_, _) => 1,
    }
}

/// How the search ends that goes on from `request`, each question answered
/// by `answers`.
pub open spec fn outcome(answers: Answers, request: RequestView) -> Result<
    RepoReferenceView,
    GitError,
>
    decreases questions_left(answers, request),
{
    match answered(answers, request) {
        StepView::Ask(next) => outcome(answers, next),
        StepView::Done(reference) => Ok(reference),
        StepView::Failed(error) => Err(error),
    }
}

/// How a search ends that `answers` answers from its first question on.
pub open spec fn resolution(answers: Answers) -> Result<RepoReferenceView, GitError> {
    outcome(answers, RequestView::CurrentDir)
}

/// Whether no ancestor of `dir` holds the marker: not `dir`, no directory
/// above it, and not the root.
pub open spec fn no_marker_above(dir: Seq<Seq<char>>, markers: spec_fn(Seq<Seq<char>>) -> Marker) -> bool {
    forall|depth: int| 0 <= depth <= dir.len() ==> markers(#[trigger] ancestor(dir, depth)) is Missing
}

/// Every search ends: a step that asks again leaves fewer questions.
pub proof fn lemma_search_ends(answers: Answers, request: RequestView)
    ensures
        answered(answers, request) matches StepView::Ask(next) ==> questions_left(answers, next)
            < questions_left(answers, request),
{
}

/// The upward part of a search ends as the step does at which the walk
/// from `dir` stops: with its failure, or as the search from the question
/// that it asks.
pub proof fn lemma_outcome_of_walk(answers: Answers, dir: Seq<Seq<char>>)
    ensures
        outcome(answers, RequestView::ProbeMarker(dir)) == match search(dir, answers.markers) {
            StepView::Ask(next) => outcome(answers, next),
            StepView::Done(reference) => Ok(reference),
            StepView::Failed(error) => Err(error),
        },
    decreases dir.len(),
{
    if (answers.markers)(dir) is Missing && dir.len() > 0 {
        lemma_outcome_of_walk(answers, dir.drop_last());
    }
}

/// A search that has found a metadata directory never ends as "not a
/// repository".
pub proof fn lemma_found_is_a_repository(answers: Answers, request: RequestView)
    requires
        request is ReadMarker || request is ReadHead || request is ReadRef,
    ensures
        outcome(answers, request) != Err::<RepoReferenceView, GitError>(GitError::NotGitRepo),
{
    reveal_with_fuel(outcome, 4);
}

/// A search fails as "not a repository" exactly when the working directory
/// is found and no ancestor of it, up to the root, holds the marker: never
/// before every ancestor has been asked for.
pub proof fn lemma_not_a_repository(answers: Answers)
    ensures
        resolution(answers) == Err::<RepoReferenceView, GitError>(GitError::NotGitRepo) <==> {
            &&& answers.current_dir is Ok
            &&& answers.canonical_dir matches Ok(dir)
            &&& no_marker_above(dir, answers.markers)
        },
{
    reveal_with_fuel(outcome, 3);
    if answers.current_dir is Ok && answers.canonical_dir is Ok {
        let dir = answers.canonical_dir->Ok_0;
        lemma_outcome_of_walk(answers, dir);
        lemma_search_exhausts_ancestors(dir, answers.markers);
        match search(dir, answers.markers) {
            StepView::Ask(next) => {
                lemma_walk_asks_for_metadata(dir, answers.markers);
                lemma_found_is_a_repository(answers, next);
            },
            _ => {},
        }
    }
}

/// The walk never ends by asking for another directory, and never with a
/// reference: it fails or asks for a marker file or a head.
pub proof fn lemma_walk_asks_for_metadata(dir: Seq<Seq<char>>, markers: spec_fn(Seq<Seq<char>>) -> Marker)
    ensures
        match search(dir, markers) {
            StepView::Ask(next) => next is ReadMarker || next is ReadHead,
            StepView::Done(_) => false,
            StepView::Failed(error) => error == GitError::NotGitRepo,
        },
    decreases dir.len(),
{
    if markers(dir) is Missing && dir.len() > 0 {
        lemma_walk_asks_for_metadata(dir.drop_last(), markers);
    }
}

/// Where the nearest marker above the working directory is a file that
/// holds `gitdir: ` and a path, the search ends as the search does that
/// reads `HEAD` in that path, trimmed: the directory that holds the marker
/// plays no part in where the metadata is read.
pub proof fn lemma_marker_file_leads_away(answers: Answers, depth: int, path: Seq<char>)
    requires
        answers.current_dir is Ok,
        answers.canonical_dir is Ok,
        0 <= depth <= answers.canonical_dir->Ok_0.len(),
        (answers.markers)(ancestor(answers.canonical_dir->Ok_0, depth)) is File,
        forall|deeper: int|
            depth < deeper <= answers.canonical_dir->Ok_0.len() ==> (answers.markers)(
                #[trigger] ancestor(answers.canonical_dir->Ok_0, deeper),
            ) is Missing,
        (answers.marker_texts)(ancestor(answers.canonical_dir->Ok_0, depth)) == Ok::<
            Seq<char>,
            std::io::Error,
        >(link_prefix() + path),
    ensures
        resolution(answers) == outcome(
            answers,
            RequestView::ReadHead(GitDirView::Linked(trimmed(path))),
        ),
{
    reveal_with_fuel(outcome, 4);
    let dir = answers.canonical_dir->Ok_0;
    lemma_outcome_of_walk(answers, dir);
    lemma_search_stops_at_nearest(dir, answers.markers, depth);
    lemma_marker_indirection(path);
}

/// A head that does not begin with `ref: ` ends the search with its first
/// fourteen characters, whatever the reference files hold: none is read.
pub proof fn lemma_detached_reads_no_reference(
    answers: Answers,
    git_dir: GitDirView,
    content: Seq<char>,
    other_references: spec_fn(GitDirView, Seq<char>) -> Result<Seq<char>, std::io::Error>,
)
    requires
        (answers.heads)(git_dir) == Ok::<Seq<char>, std::io::Error>(content),
        !has_prefix(content, ref_prefix()),
    ensures
        outcome(answers, RequestView::ReadHead(git_dir)) == Ok::<RepoReferenceView, GitError>(
            RepoReferenceView::Detached(first_chars(content, 14)),
        ),
        outcome(Answers { references: other_references, ..answers }, RequestView::ReadHead(git_dir))
            == outcome(answers, RequestView::ReadHead(git_dir)),
{
    reveal_with_fuel(outcome, 2);
}

} // verus!
