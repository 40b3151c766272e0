//! Finding the repository that encloses a directory and describing what it
//! has checked out.
//!
//! Reading the file system is the caller's part. The rules stand here as
//! one function per question that can be pending: each takes the answer and
//! gives the next [`Step`], which asks another question or ends the search.

use crate::color::{hex_rgb, is_hex_color, without_hash, Color};
use crate::style::{DecoratedString, Style, StyledText};
use crate::text::{
    after, file_name, final_component, first_chars, has_prefix, strip_prefix, take_chars, trim,
    trimmed,
};
use vstd::prelude::*;

verus! {

/// `std::io::Error`, the system's error for failed input and output. It is
/// declared so that the errors of a search can carry it; nothing is claimed
/// of what a value holds.
#[verifier::external_type_specification]
#[verifier::external_body]
pub struct ExIoError(std::io::Error);

/// Why no repository reference could be given. Each failed read has a
/// variant of its own, which keeps the system's error.
#[derive(Debug)]
pub enum GitError {
    NoCwd(std::io::Error),
    CanonicalCwd(std::io::Error),
    ReadGitFile(std::io::Error),
    ReadHead(std::io::Error),
    NotGitRepo,
    UnexpectedGitContent,
    ReadRef(std::io::Error),
    NoRefName,
}

/// What a directory holds under the marker's name, `.git`.
#[derive(Debug, Clone, Copy, PartialEq, Eq, Structural)]
pub enum Marker {
    /// Nothing of that name.
    Missing,
    /// A regular file, which names the metadata directory.
    File,
    /// Anything else, taken to be the metadata directory itself.
    Directory,
}

/// Where a repository's metadata directory is.
#[derive(Debug, PartialEq, Eq)]
pub enum GitDir {
    /// The marker inside the directory whose components, from the root
    /// down, are given.
    Marker(Vec<String>),
    /// The path that a marker file names, as it is written there.
    Linked(String),
}

/// What a [`GitDir`] holds.
pub ghost enum GitDirView {
    Marker(Seq<Seq<char>>),
    Linked(Seq<char>),
}

impl View for GitDir {
    type V = GitDirView;

    open spec fn view(&self) -> GitDirView {
        match self {
            GitDir::Marker(dir) => GitDirView::Marker(dir.deep_view()),
            GitDir::Linked(path) => GitDirView::Linked(path@),
        }
    }
}

/// A question to the file system. Directories are given by their
/// components from the root down; the root has none.
#[derive(Debug, PartialEq, Eq)]
pub enum Request {
    /// Which directory is the working directory?
    CurrentDir,
    /// What is its canonical form?
    Canonicalize,
    /// What does this directory hold under the marker's name?
    ProbeMarker(Vec<String>),
    /// What is the text of the marker file in this directory?
    ReadMarker(Vec<String>),
    /// What is the text of `HEAD` in this metadata directory?
    ReadHead(GitDir),
    /// What is the text of the file at this path, taken relative to this
    /// metadata directory?
    ReadRef(GitDir, String),
}

/// What a [`Request`] holds.
pub ghost enum RequestView {
    CurrentDir,
    Canonicalize,
    ProbeMarker(Seq<Seq<char>>),
    ReadMarker(Seq<Seq<char>>),
    ReadHead(GitDirView),
    ReadRef(GitDirView, Seq<char>),
}

impl View for Request {
    type V = RequestView;

    open spec fn view(&self) -> RequestView {
        match self {
            Request::CurrentDir => RequestView::CurrentDir,
            Request::Canonicalize => RequestView::Canonicalize,
            Request::ProbeMarker(dir) => RequestView::ProbeMarker(dir.deep_view()),
            Request::ReadMarker(dir) => RequestView::ReadMarker(dir.deep_view()),
            Request::ReadHead(git_dir) => RequestView::ReadHead(git_dir@),
            Request::ReadRef(git_dir, path) => RequestView::ReadRef(git_dir@, path@),
        }
    }
}

/// What a repository has checked out.
#[derive(Debug, PartialEq, Eq)]
pub enum RepoReference {
    /// A symbolic reference: its short name, the first characters of the
    /// object id it points to, and whether the id had more of them.
    Symbolic { name: String, short_hash: String, truncated: bool },
    /// An object id that the head names directly, cut to its first
    /// characters.
    Detached(String),
}

/// What a [`RepoReference`] holds.
pub ghost enum RepoReferenceView {
    Symbolic { name: Seq<char>, short_hash: Seq<char>, truncated: bool },
    Detached(Seq<char>),
}

impl View for RepoReference {
    type V = RepoReferenceView;

    open spec fn view(&self) -> RepoReferenceView {
        match self {
            RepoReference::Symbolic { name, short_hash, truncated } => RepoReferenceView::Symbolic {
                name: name@,
                short_hash: short_hash@,
                truncated: *truncated,
            },
            RepoReference::Detached(id) => RepoReferenceView::Detached(id@),
        }
    }
}

/// How the search goes on after an answer.
#[derive(Debug)]
pub enum Step {
    /// Another question is to be answered.
    Ask(Request),
    /// The reference is found.
    Done(RepoReference),
    /// The search has failed.
    Failed(GitError),
}

/// What a [`Step`] holds.
pub ghost enum StepView {
    Ask(RequestView),
    Done(RepoReferenceView),
    Failed(GitError),
}

impl View for Step {
    type V = StepView;

    open spec fn view(&self) -> StepView {
        match self {
            Step::Ask(request) => StepView::Ask(request@),
            Step::Done(reference) => StepView::Done(reference@),
            Step::Failed(error) => StepView::Failed(*error),
        }
    }
}

/// How many characters of an object id are shown.
pub const SHORT_HASH_LEN: usize = 5;

/// How many characters of a head that names an object id are shown.
pub const DETACHED_LEN: usize = 14;

/// The words a marker file begins with, before the path it names.
pub open spec fn link_prefix() -> Seq<char> {
    seq!['g', 'i', 't', 'd', 'i', 'r', ':', ' ']
}

/// The words a head begins with, before the path of a symbolic reference.
pub open spec fn ref_prefix() -> Seq<char> {
    seq!['r', 'e', 'f', ':', ' ']
}

/// The two dots that stand for the characters left out of an object id.
pub open spec fn truncation_marker() -> Seq<char> {
    seq!['.', '.']
}

/// What was read, where the read succeeded.
pub open spec fn text_read(content: Result<String, std::io::Error>) -> Result<
    Seq<char>,
    std::io::Error,
> {
    match content {
        Ok(text) => Ok(text@),
        Err(cause) => Err(cause),
    }
}

/// The components of the directory that was found, where it was found.
pub open spec fn dir_found(dir: Result<Vec<String>, std::io::Error>) -> Result<
    Seq<Seq<char>>,
    std::io::Error,
> {
    match dir {
        Ok(dir) => Ok(dir.deep_view()),
        Err(cause) => Err(cause),
    }
}

/// The step after asking for the working directory: its canonical form is
/// asked for next.
pub open spec fn after_current_dir(found: Result<(), std::io::Error>) -> StepView {
    match found {
        Ok(_) => StepView::Ask(RequestView::Canonicalize),
        Err(cause) => StepView::Failed(GitError::NoCwd(cause)),
    }
}

/// The step after asking for the canonical working directory: the search
/// for the marker starts in that directory itself.
pub open spec fn after_canonical_dir(dir: Result<Seq<Seq<char>>, std::io::Error>) -> StepView {
    match dir {
        Ok(dir) => StepView::Ask(RequestView::ProbeMarker(dir)),
        Err(cause) => StepView::Failed(GitError::CanonicalCwd(cause)),
    }
}

/// The step after trying to read a marker file.
pub open spec fn after_marker_text(content: Result<Seq<char>, std::io::Error>) -> StepView {
    match content {
        Ok(text) => link_step(text),
        Err(cause) => StepView::Failed(GitError::ReadGitFile(cause)),
    }
}

/// The step after trying to read `HEAD` in `git_dir`.
pub open spec fn after_head(
    git_dir: GitDirView,
    content: Result<Seq<char>, std::io::Error>,
) -> StepView {
    match content {
        Ok(text) => head_step(git_dir, text),
        Err(cause) => StepView::Failed(GitError::ReadHead(cause)),
    }
}

/// The step after trying to read the reference at `ref_path`. A failed
/// read is reported even where the path has no name to show.
pub open spec fn after_ref(ref_path: Seq<char>, content: Result<Seq<char>, std::io::Error>) -> StepView {
    match content {
        Ok(text) => ref_step(ref_path, text),
        Err(cause) => StepView::Failed(GitError::ReadRef(cause)),
    }
}

/// The step after learning what `dir` holds under the marker's name: with
/// nothing there the search moves to the parent, and fails at the root,
/// which has none; a file is read for the path it names; anything else is
/// the metadata directory.
pub open spec fn marker_step(dir: Seq<Seq<char>>, marker: Marker) -> StepView {
    match marker {
        Marker::Missing => if dir.len() == 0 {
            StepView::Failed(GitError::NotGitRepo)
        } else {
            StepView::Ask(RequestView::ProbeMarker(dir.drop_last()))
        },
        Marker::File => StepView::Ask(RequestView::ReadMarker(dir)),
        Marker::Directory => StepView::Ask(RequestView::ReadHead(GitDirView::Marker(dir))),
    }
}

/// The step after reading a marker file: the trimmed text behind
/// `gitdir: ` is the metadata directory; any other content is refused.
pub open spec fn link_step(content: Seq<char>) -> StepView {
    if has_prefix(content, link_prefix()) {
        StepView::Ask(
            RequestView::ReadHead(
                GitDirView::Linked(trimmed(after(content, link_prefix().len()))),
            ),
        )
    } else {
        StepView::Failed(GitError::UnexpectedGitContent)
    }
}

/// The step after reading `HEAD` in `git_dir`: the trimmed text behind
/// `ref: ` is the path of the reference to read; any other content is an
/// object id, of which the first fourteen characters are the result.
pub open spec fn head_step(git_dir: GitDirView, content: Seq<char>) -> StepView {
    if has_prefix(content, ref_prefix()) {
        StepView::Ask(RequestView::ReadRef(git_dir, trimmed(after(content, ref_prefix().len()))))
    } else {
        StepView::Done(RepoReferenceView::Detached(first_chars(content, DETACHED_LEN as nat)))
    }
}

/// The symbolic reference `name` that points to the object `id`: of the id
/// the first five characters are kept, and it is noted whether that cut it.
pub open spec fn symbolic_reference(name: Seq<char>, id: Seq<char>) -> RepoReferenceView {
    RepoReferenceView::Symbolic {
        name,
        short_hash: first_chars(id, SHORT_HASH_LEN as nat),
        truncated: id.len() > SHORT_HASH_LEN,
    }
}

/// The step after reading the reference at `ref_path`: its trimmed content
/// is the object id, the final component of the path is the name.
pub open spec fn ref_step(ref_path: Seq<char>, content: Seq<char>) -> StepView {
    match final_component(ref_path) {
        Some(name) => StepView::Done(symbolic_reference(name, trimmed(content))),
        None => StepView::Failed(GitError::NoRefName),
    }
}

/// Where the upward search that starts in `dir` ends, when `markers` tells
/// what each directory holds under the marker's name: the step taken at
/// the first directory, from `dir` up, at which the search does not move to
/// the parent.
pub open spec fn search(dir: Seq<Seq<char>>, markers: spec_fn(Seq<Seq<char>>) -> Marker) -> StepView
    decreases dir.len(),
{
    if markers(dir) is Missing && dir.len() > 0 {
        search(dir.drop_last(), markers)
    } else {
        marker_step(dir, markers(dir))
    }
}

/// The ancestor of `dir` that has `depth` components; `dir` itself where
/// `depth` is its length, the root where it is 0.
pub open spec fn ancestor(dir: Seq<Seq<char>>, depth: int) -> Seq<Seq<char>> {
    dir.subrange(0, depth)
}

impl RepoReferenceView {
    /// Whether the reference is cut as a search cuts it: a short hash of at
    /// most five characters, of exactly five where it is marked as cut, and
    /// a detached id of at most fourteen.
    pub open spec fn is_short(self) -> bool {
        match self {
            RepoReferenceView::Symbolic { name, short_hash, truncated } => short_hash.len()
                <= SHORT_HASH_LEN && (truncated ==> short_hash.len() == SHORT_HASH_LEN),
            RepoReferenceView::Detached(id) => id.len() <= DETACHED_LEN,
        }
    }

    /// The reference as shown: the name, a space and the short hash, with
    /// the truncation marker behind it where the id was cut; for a detached
    /// head, the cut id alone.
    pub open spec fn display(self) -> Seq<char> {
        match self {
            RepoReferenceView::Symbolic { name, short_hash, truncated } => name + seq![' ']
                + short_hash + if truncated {
                truncation_marker()
            } else {
                Seq::empty()
            },
            RepoReferenceView::Detached(id) => id,
        }
    }
}

/// The first question of a search.
pub fn begin() -> (request: Request)
    ensures
        request@ == RequestView::CurrentDir,
{
    Request::CurrentDir
}

/// The step after asking for the working directory.
pub fn on_current_dir(found: Result<(), std::io::Error>) -> (step: Step)
    ensures
        step@ == after_current_dir(found),
{
    match found {
        Ok(_) => Step::Ask(Request::Canonicalize),
        Err(cause) => Step::Failed(GitError::NoCwd(cause)),
    }
}

/// The step after asking for the canonical working directory.
pub fn on_canonical_dir(dir: Result<Vec<String>, std::io::Error>) -> (step: Step)
    ensures
        step@ == after_canonical_dir(dir_found(dir)),
{
    match dir {
        Ok(dir) => Step::Ask(Request::ProbeMarker(dir)),
        Err(cause) => Step::Failed(GitError::CanonicalCwd(cause)),
    }
}

/// The step after learning what `dir` holds under the marker's name.
pub fn on_marker(dir: Vec<String>, marker: Marker) -> (step: Step)
    ensures
        step@ == marker_step(dir.deep_view(), marker),
{
    match marker {
        Marker::Missing => {
            let mut parent = dir;
            match parent.pop() {
                Some(_) => {
                    assert(parent.deep_view() =~= dir.deep_view().drop_last());
                    Step::Ask(Request::ProbeMarker(parent))
                },
                None => Step::Failed(GitError::NotGitRepo),
            }
        },
        Marker::File => Step::Ask(Request::ReadMarker(dir)),
        Marker::Directory => Step::Ask(Request::ReadHead(GitDir::Marker(dir))),
    }
}

/// The step after reading a marker file.
pub fn on_marker_text(content: Result<String, std::io::Error>) -> (step: Step)
    ensures
        step@ == after_marker_text(text_read(content)),
{
    match content {
        Ok(text) => {
            proof {
                reveal_strlit("gitdir: ");
                assert("gitdir: "@ =~= link_prefix());
            }
            match strip_prefix(text.as_str(), "gitdir: ") {
                Some(path) => Step::Ask(
                    Request::ReadHead(GitDir::Linked(String::from_str(trim(path)))),
                ),
                None => Step::Failed(GitError::UnexpectedGitContent),
            }
        },
        Err(cause) => Step::Failed(GitError::ReadGitFile(cause)),
    }
}

/// The step after reading `HEAD` in `git_dir`. A head that names an object
/// id ends the search: no reference is read.
pub fn on_head(git_dir: GitDir, content: Result<String, std::io::Error>) -> (step: Step)
    ensures
        step@ == after_head(git_dir@, text_read(content)),
{
    match content {
        Ok(text) => {
            proof {
                reveal_strlit("ref: ");
                assert("ref: "@ =~= ref_prefix());
            }
            match strip_prefix(text.as_str(), "ref: ") {
                Some(path) => Step::Ask(Request::ReadRef(git_dir, String::from_str(trim(path)))),
                None => Step::Done(
                    RepoReference::Detached(
                        String::from_str(take_chars(text.as_str(), DETACHED_LEN)),
                    ),
                ),
            }
        },
        Err(cause) => Step::Failed(GitError::ReadHead(cause)),
    }
}

/// The step after reading the reference at `ref_path`, which ends the
/// search.
pub fn on_ref(ref_path: String, content: Result<String, std::io::Error>) -> (step: Step)
    ensures
        step@ == after_ref(ref_path@, text_read(content)),
{
    match content {
        Ok(text) => {
            let id = trim(text.as_str());
            match file_name(ref_path.as_str()) {
                Some(name) => Step::Done(
                    RepoReference::Symbolic {
                        name: String::from_str(name),
                        short_hash: String::from_str(take_chars(id, SHORT_HASH_LEN)),
                        truncated: id.unicode_len() > SHORT_HASH_LEN,
                    },
                ),
                None => Step::Failed(GitError::NoRefName),
            }
        },
        Err(cause) => Step::Failed(GitError::ReadRef(cause)),
    }
}

impl RepoReference {
    /// The reference as the prompt shows it.
    pub fn display(&self) -> (out: String)
        ensures
            out@ == self@.display(),
    {
        match self {
            RepoReference::Symbolic { name, short_hash, truncated } => {
                proof {
                    reveal_strlit(" ");
                    reveal_strlit("..");
                }
                let mut out = name.clone();
                out.append(" ");
                out.append(short_hash.as_str());
                if *truncated {
                    out.append("..");
                }
                out
            },
            RepoReference::Detached(id) => id.clone(),
        }
    }
}

impl GitError {
    /// What the error says of itself.
    pub open spec fn message_text(self) -> Seq<char> {
        match self {
            GitError::NoCwd(_) => "failed to get cwd"@,
            GitError::CanonicalCwd(_) => "failed to canonicalize cwd"@,
            GitError::ReadGitFile(_) => "failed to read .git file"@,
            GitError::ReadHead(_) => "failed to read git HEAD"@,
            GitError::NotGitRepo => "not a git repo"@,
            GitError::UnexpectedGitContent => "unexpected git content"@,
            GitError::ReadRef(_) => "failed to read ref"@,
            GitError::NoRefName => "failed to get ref name"@,
        }
    }

    /// The system error behind this one, where a read failed.
    pub open spec fn cause(self) -> Option<std::io::Error> {
        match self {
            GitError::NoCwd(cause) => Some(cause),
            GitError::CanonicalCwd(cause) => Some(cause),
            GitError::ReadGitFile(cause) => Some(cause),
            GitError::ReadHead(cause) => Some(cause),
            GitError::NotGitRepo => None,
            GitError::UnexpectedGitContent => None,
            GitError::ReadRef(cause) => Some(cause),
            GitError::NoRefName => None,
        }
    }

    /// What the error says of itself: which step failed.
    pub fn message(&self) -> (out: String)
        ensures
            out@ == self.message_text(),
    {
        let text = match self {
            GitError::NoCwd(_) => "failed to get cwd",
            GitError::CanonicalCwd(_) => "failed to canonicalize cwd",
            GitError::ReadGitFile(_) => "failed to read .git file",
            GitError::ReadHead(_) => "failed to read git HEAD",
            GitError::NotGitRepo => "not a git repo",
            GitError::UnexpectedGitContent => "unexpected git content",
            GitError::ReadRef(_) => "failed to read ref",
            GitError::NoRefName => "failed to get ref name",
        };
        String::from_str(text)
    }

    /// The system error behind this one, where a read failed.
    pub fn source(&self) -> (cause: Option<&std::io::Error>)
        ensures
            match cause {
                Some(cause) => self.cause() == Some(*cause),
                None => self.cause() is None,
            },
    {
        match self {
            GitError::NoCwd(cause) => Some(cause),
            GitError::CanonicalCwd(cause) => Some(cause),
            GitError::ReadGitFile(cause) => Some(cause),
            GitError::ReadHead(cause) => Some(cause),
            GitError::NotGitRepo => None,
            GitError::UnexpectedGitContent => None,
            GitError::ReadRef(cause) => Some(cause),
            GitError::NoRefName => None,
        }
    }
}

/// The color in which the prompt shows a repository reference.
pub open spec fn reference_color() -> Color {
    Color::Rgb(0x98, 0xBF, 0xAE)
}

/// The reference color's notation reads as its parts.
proof fn lemma_reference_color()
    ensures
        hex_rgb("#98BFAE"@) == (0x98u8, 0xBFu8, 0xAEu8),
{
    reveal_strlit("#98BFAE");
    let digits = without_hash("#98BFAE"@);
    assert(digits =~= seq!['9', '8', 'B', 'F', 'A', 'E']);
    assert(is_hex_color("#98BFAE"@));
}

/// The prompt's segment for a repository reference: its display, bold, in
/// the reference color.
pub fn get_git_info(reference: &RepoReference) -> (segment: DecoratedString)
    ensures
        segment@ == StyledText::plain(reference@.display()).wrapped(Style::Bold).wrapped(
            Style::Colored(reference_color()),
        ),
{
    proof {
        lemma_reference_color();
    }
    DecoratedString::new(reference.display()).bold().colored(Color::hex("#98BFAE"))
}

/// Every reference that a search ends with is cut to its short form.
pub proof fn lemma_results_are_short(git_dir: GitDirView, ref_path: Seq<char>, content: Seq<char>)
    ensures
        head_step(git_dir, content) matches StepView::Done(reference) ==> reference.is_short(),
        ref_step(ref_path, content) matches StepView::Done(reference) ==> reference.is_short(),
{
}

/// An object id of more than five characters is shown as its first five
/// characters and the truncation marker; a shorter one is shown whole,
/// without the marker.
pub proof fn lemma_truncation_marker(name: Seq<char>, id: Seq<char>)
    ensures
        id.len() > 5 ==> symbolic_reference(name, id).display() == name + seq![' ']
            + id.subrange(0, 5) + truncation_marker(),
        id.len() <= 5 ==> symbolic_reference(name, id).display() == name + seq![' '] + id,
{
    if id.len() <= 5 {
        assert(symbolic_reference(name, id).display() =~= name + seq![' '] + id);
    }
}

/// A marker file that holds `gitdir: ` and a path sends the search to that
/// path, trimmed, as the metadata directory: `HEAD` is read there and not
/// beside the marker.
pub proof fn lemma_marker_indirection(path: Seq<char>)
    ensures
        link_step(link_prefix() + path) == StepView::Ask(
            RequestView::ReadHead(GitDirView::Linked(trimmed(path))),
        ),
{
    let content = link_prefix() + path;
    assert(content.subrange(0, link_prefix().len() as int) =~= link_prefix());
    assert(after(content, link_prefix().len()) =~= path);
}

/// A head that does not begin with `ref: ` ends the search at once, with
/// its first fourteen characters as the result: no reference is asked for.
pub proof fn lemma_detached_head(git_dir: GitDirView, content: Seq<char>)
    requires
        !has_prefix(content, ref_prefix()),
    ensures
        head_step(git_dir, content) == StepView::Done(
            RepoReferenceView::Detached(first_chars(content, 14)),
        ),
        !(head_step(git_dir, content) is Ask),
{
}

/// The upward search fails, and then as "not a repository", exactly when no
/// ancestor of the starting directory holds the marker: the directory
/// itself, each directory above it, and the root.
pub proof fn lemma_search_exhausts_ancestors(
    dir: Seq<Seq<char>>,
    markers: spec_fn(Seq<Seq<char>>) -> Marker,
)
    ensures
        search(dir, markers) is Failed <==> forall|depth: int|
            0 <= depth <= dir.len() ==> markers(#[trigger] ancestor(dir, depth)) is Missing,
        search(dir, markers) is Failed ==> search(dir, markers) == StepView::Failed(
            GitError::NotGitRepo,
        ),
    decreases dir.len(),
{
    assert(ancestor(dir, dir.len() as int) =~= dir);
    if markers(dir) is Missing && dir.len() > 0 {
        let parent = dir.drop_last();
        lemma_search_exhausts_ancestors(parent, markers);
        assert forall|depth: int| 0 <= depth <= parent.len() implies #[trigger] ancestor(
            parent,
            depth,
        ) == ancestor(dir, depth) by {
            assert(ancestor(parent, depth) =~= ancestor(dir, depth));
        }
        if search(dir, markers) is Failed {
            assert forall|depth: int| 0 <= depth <= dir.len() implies markers(
                #[trigger] ancestor(dir, depth),
            ) is Missing by {
                if depth < dir.len() {
                    assert(ancestor(parent, depth) == ancestor(dir, depth));
                }
            }
        }
        if forall|depth: int|
            0 <= depth <= dir.len() ==> markers(#[trigger] ancestor(dir, depth)) is Missing {
            assert forall|depth: int| 0 <= depth <= parent.len() implies markers(
                #[trigger] ancestor(parent, depth),
            ) is Missing by {
                assert(ancestor(parent, depth) == ancestor(dir, depth));
            }
        }
    } else if markers(dir) is Missing {
        assert forall|depth: int| 0 <= depth <= dir.len() implies markers(
            #[trigger] ancestor(dir, depth),
        ) is Missing by {
            assert(ancestor(dir, depth) =~= dir);
        }
    }
}

/// The upward search stops at the nearest ancestor that holds the marker:
/// where the ancestor of `depth` components holds it and no directory
/// between it and the starting directory does, the search takes the step
/// that belongs to that ancestor.
pub proof fn lemma_search_stops_at_nearest(
    dir: Seq<Seq<char>>,
    markers: spec_fn(Seq<Seq<char>>) -> Marker,
    depth: int,
)
    requires
        0 <= depth <= dir.len(),
        !(markers(ancestor(dir, depth)) is Missing),
        forall|deeper: int|
            depth < deeper <= dir.len() ==> markers(#[trigger] ancestor(dir, deeper)) is Missing,
    ensures
        search(dir, markers) == marker_step(ancestor(dir, depth), markers(ancestor(dir, depth))),
        search(dir, markers) is Ask,
    decreases dir.len(),
{
    assert(ancestor(dir, dir.len() as int) =~= dir);
    if depth < dir.len() {
        let parent = dir.drop_last();
        assert(ancestor(parent, depth) =~= ancestor(dir, depth));
        assert forall|deeper: int| depth < deeper <= parent.len() implies markers(
            #[trigger] ancestor(parent, deeper),
        ) is Missing by {
            assert(ancestor(parent, deeper) =~= ancestor(dir, deeper));
        }
        lemma_search_stops_at_nearest(parent, markers, depth);
    }
}

} // verus!
