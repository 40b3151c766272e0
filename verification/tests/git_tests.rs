use shell_prompt::color::Color;
use shell_prompt::git::{
    begin, get_git_info, on_canonical_dir, on_current_dir, on_head, on_marker, on_marker_text,
    on_ref, GitDir, GitError, Marker, RepoReference, Request, Step,
};
use shell_prompt::style::DecoratedString;
use std::collections::HashMap;
use std::io;

fn dir(components: &[&str]) -> Vec<String> {
    components.iter().map(|c| c.to_string()).collect()
}

fn denied() -> io::Error {
    io::Error::new(io::ErrorKind::PermissionDenied, "denied")
}

fn plain(code: &str) -> String {
    code.to_string()
}

/// A file system in memory: what each directory holds under the marker's
/// name, and the text of each file by its path.
struct Files {
    cwd: Option<Vec<String>>,
    markers: HashMap<Vec<String>, Marker>,
    texts: HashMap<String, String>,
}

impl Files {
    fn new(cwd: &[&str]) -> Files {
        Files { cwd: Some(dir(cwd)), markers: HashMap::new(), texts: HashMap::new() }
    }

    fn marker(mut self, at: &[&str], marker: Marker) -> Files {
        self.markers.insert(dir(at), marker);
        self
    }

    fn text(mut self, path: &str, text: &str) -> Files {
        self.texts.insert(path.to_string(), text.to_string());
        self
    }

    fn read(&self, path: &str) -> Result<String, io::Error> {
        match self.texts.get(path) {
            Some(text) => Ok(text.clone()),
            None => Err(io::Error::new(io::ErrorKind::NotFound, path.to_string())),
        }
    }

    fn base(git_dir: &GitDir) -> String {
        match git_dir {
            GitDir::Marker(at) => {
                let mut path = String::new();
                for component in at {
                    path.push('/');
                    path.push_str(component);
                }
                path.push_str("/.git");
                path
            }
            GitDir::Linked(path) => path.clone(),
        }
    }

    /// Answers the questions of a search until it ends; returns how it
    /// ended and every question that was asked.
    fn resolve(&self) -> (Result<RepoReference, GitError>, Vec<String>) {
        let mut asked = Vec::new();
        let mut request = begin();
        loop {
            asked.push(format!("{:?}", request));
            let step = match request {
                Request::CurrentDir => on_current_dir(match &self.cwd {
                    Some(_) => Ok(()),
                    None => Err(io::Error::new(io::ErrorKind::NotFound, "no cwd")),
                }),
                Request::Canonicalize => on_canonical_dir(Ok(self.cwd.clone().unwrap())),
                Request::ProbeMarker(at) => {
                    let marker = self.markers.get(&at).copied().unwrap_or(Marker::Missing);
                    on_marker(at, marker)
                }
                Request::ReadMarker(at) => {
                    let path = Files::base(&GitDir::Marker(at));
                    on_marker_text(self.read(&path))
                }
                Request::ReadHead(git_dir) => {
                    let path = format!("{}/HEAD", Files::base(&git_dir));
                    on_head(git_dir, self.read(&path))
                }
                Request::ReadRef(git_dir, ref_path) => {
                    let path = format!("{}/{}", Files::base(&git_dir), ref_path);
                    on_ref(ref_path, self.read(&path))
                }
            };
            match step {
                Step::Ask(next) => request = next,
                Step::Done(reference) => return (Ok(reference), asked),
                Step::Failed(error) => return (Err(error), asked),
            }
        }
    }
}

const FULL_ID: &str = "abcd1234abcd1234abcd1234abcd1234abcd1234";

#[test]
fn end_to_end_branch_in_a_repository() {
    let files = Files::new(&["home", "u", "proj"])
        .marker(&["home", "u", "proj"], Marker::Directory)
        .text("/home/u/proj/.git/HEAD", "ref: refs/heads/main")
        .text("/home/u/proj/.git/refs/heads/main", FULL_ID);
    let (result, _) = files.resolve();
    let reference = result.unwrap();
    assert_eq!(
        reference,
        RepoReference::Symbolic {
            name: "main".to_string(),
            short_hash: "abcd1".to_string(),
            truncated: true,
        }
    );
    assert_eq!(reference.display(), "main abcd1..");
    let segment = get_git_info(&reference);
    assert_eq!(
        segment,
        DecoratedString::new("main abcd1..".to_string()).bold().colored(Color::Rgb(0x98, 0xBF, 0xAE))
    );
    assert_eq!(
        segment.to_ansi(&plain),
        "\x1b[38;2;152;191;174m\x1b[1mmain abcd1..\x1b[22m\x1b[39m"
    );
}

#[test]
fn files_as_git_writes_them_end_in_a_newline() {
    let files = Files::new(&["home", "u", "proj"])
        .marker(&["home", "u", "proj"], Marker::Directory)
        .text("/home/u/proj/.git/HEAD", "ref: refs/heads/main\n")
        .text("/home/u/proj/.git/refs/heads/main", "abcd1234abcd1234abcd1234abcd1234abcd1234\n");
    let (result, asked) = files.resolve();
    assert_eq!(result.unwrap().display(), "main abcd1..");
    assert_eq!(
        asked.last().unwrap(),
        &format!(
            "{:?}",
            Request::ReadRef(
                GitDir::Marker(dir(&["home", "u", "proj"])),
                "refs/heads/main".to_string()
            )
        )
    );
}

#[test]
fn the_search_walks_up_to_the_nearest_marker() {
    let files = Files::new(&["home", "u", "proj", "src", "deep"])
        .marker(&["home", "u", "proj"], Marker::Directory)
        .marker(&["home"], Marker::Directory)
        .text("/home/u/proj/.git/HEAD", "ref: refs/heads/dev")
        .text("/home/u/proj/.git/refs/heads/dev", "0123456789")
        .text("/home/.git/HEAD", "ref: refs/heads/other")
        .text("/home/.git/refs/heads/other", "ffffffffff");
    let (result, asked) = files.resolve();
    assert_eq!(result.unwrap().display(), "dev 01234..");
    let expected: Vec<String> = vec![
        format!("{:?}", Request::CurrentDir),
        format!("{:?}", Request::Canonicalize),
        format!("{:?}", Request::ProbeMarker(dir(&["home", "u", "proj", "src", "deep"]))),
        format!("{:?}", Request::ProbeMarker(dir(&["home", "u", "proj", "src"]))),
        format!("{:?}", Request::ProbeMarker(dir(&["home", "u", "proj"]))),
        format!("{:?}", Request::ReadHead(GitDir::Marker(dir(&["home", "u", "proj"])))),
        format!(
            "{:?}",
            Request::ReadRef(GitDir::Marker(dir(&["home", "u", "proj"])), "refs/heads/dev".to_string())
        ),
    ];
    assert_eq!(asked, expected);
}

#[test]
fn upward_search_fails_only_after_the_root() {
    let files = Files::new(&["a", "b", "c", "d", "e", "f"]);
    let (result, asked) = files.resolve();
    assert!(matches!(result, Err(GitError::NotGitRepo)));
    let expected: Vec<String> = vec![
        format!("{:?}", Request::CurrentDir),
        format!("{:?}", Request::Canonicalize),
        format!("{:?}", Request::ProbeMarker(dir(&["a", "b", "c", "d", "e", "f"]))),
        format!("{:?}", Request::ProbeMarker(dir(&["a", "b", "c", "d", "e"]))),
        format!("{:?}", Request::ProbeMarker(dir(&["a", "b", "c", "d"]))),
        format!("{:?}", Request::ProbeMarker(dir(&["a", "b", "c"]))),
        format!("{:?}", Request::ProbeMarker(dir(&["a", "b"]))),
        format!("{:?}", Request::ProbeMarker(dir(&["a"]))),
        format!("{:?}", Request::ProbeMarker(dir(&[]))),
    ];
    assert_eq!(asked, expected);
}

#[test]
fn a_marker_in_the_root_is_found() {
    let files = Files::new(&["a", "b"])
        .marker(&[], Marker::Directory)
        .text("/.git/HEAD", "ref: refs/heads/root")
        .text("/.git/refs/heads/root", "12345");
    let (result, _) = files.resolve();
    assert_eq!(result.unwrap().display(), "root 12345");
}

#[test]
fn missing_marker_moves_to_the_parent() {
    match on_marker(dir(&["a", "b"]), Marker::Missing) {
        Step::Ask(request) => assert_eq!(request, Request::ProbeMarker(dir(&["a"]))),
        other => panic!("{:?}", other),
    }
    match on_marker(dir(&["a"]), Marker::Missing) {
        Step::Ask(request) => assert_eq!(request, Request::ProbeMarker(dir(&[]))),
        other => panic!("{:?}", other),
    }
    assert!(matches!(on_marker(dir(&[]), Marker::Missing), Step::Failed(GitError::NotGitRepo)));
}

#[test]
fn a_marker_directory_is_the_metadata_directory() {
    match on_marker(dir(&["a", "b"]), Marker::Directory) {
        Step::Ask(request) => {
            assert_eq!(request, Request::ReadHead(GitDir::Marker(dir(&["a", "b"]))))
        }
        other => panic!("{:?}", other),
    }
}

#[test]
fn a_marker_file_is_read() {
    match on_marker(dir(&["a", "b"]), Marker::File) {
        Step::Ask(request) => assert_eq!(request, Request::ReadMarker(dir(&["a", "b"]))),
        other => panic!("{:?}", other),
    }
}

#[test]
fn marker_indirection_uses_the_named_path() {
    match on_marker_text(Ok("gitdir: /some/path".to_string())) {
        Step::Ask(request) => {
            assert_eq!(request, Request::ReadHead(GitDir::Linked("/some/path".to_string())))
        }
        other => panic!("{:?}", other),
    }
    let files = Files::new(&["work", "tree"])
        .marker(&["work", "tree"], Marker::File)
        .text("/work/tree/.git", "gitdir: /some/path\n")
        .text("/some/path/HEAD", "ref: refs/heads/linked\n")
        .text("/some/path/refs/heads/linked", "fedcba9876\n")
        .text("/work/tree/HEAD", "ref: refs/heads/wrong\n")
        .text("/work/HEAD", "ref: refs/heads/wrong\n");
    let (result, asked) = files.resolve();
    assert_eq!(result.unwrap().display(), "linked fedcb..");
    assert!(asked.contains(&format!(
        "{:?}",
        Request::ReadHead(GitDir::Linked("/some/path".to_string()))
    )));
}

#[test]
fn marker_indirection_trims_the_path_and_keeps_it_relative() {
    match on_marker_text(Ok("gitdir:   ../real/.git/worktrees/x \n".to_string())) {
        Step::Ask(request) => assert_eq!(
            request,
            Request::ReadHead(GitDir::Linked("../real/.git/worktrees/x".to_string()))
        ),
        other => panic!("{:?}", other),
    }
}

#[test]
fn other_marker_content_is_refused() {
    for content in ["", "gitdir:", "gitdir:/x", " gitdir: /x", "Gitdir: /x", "ref: refs/heads/main"] {
        assert!(
            matches!(
                on_marker_text(Ok(content.to_string())),
                Step::Failed(GitError::UnexpectedGitContent)
            ),
            "{:?}",
            content
        );
    }
}

#[test]
fn detached_head_gives_fourteen_characters_and_reads_nothing_more() {
    let git_dir = GitDir::Marker(dir(&["p"]));
    match on_head(git_dir, Ok(format!("{}\n", FULL_ID))) {
        Step::Done(reference) => {
            assert_eq!(reference, RepoReference::Detached("abcd1234abcd12".to_string()));
            assert_eq!(reference.display(), "abcd1234abcd12");
        }
        other => panic!("{:?}", other),
    }
    let files = Files::new(&["p"])
        .marker(&["p"], Marker::Directory)
        .text("/p/.git/HEAD", FULL_ID);
    let (result, asked) = files.resolve();
    assert_eq!(result.unwrap(), RepoReference::Detached("abcd1234abcd12".to_string()));
    assert_eq!(
        asked.last().unwrap(),
        &format!("{:?}", Request::ReadHead(GitDir::Marker(dir(&["p"]))))
    );
    assert_eq!(asked.len(), 4);
}

#[test]
fn a_short_detached_head_is_shown_whole() {
    for (content, shown) in [("", ""), ("abc", "abc"), ("ref:", "ref:"), ("0123456789abcd", "0123456789abcd")] {
        match on_head(GitDir::Linked("g".to_string()), Ok(content.to_string())) {
            Step::Done(reference) => assert_eq!(reference.display(), shown),
            other => panic!("{:?}", other),
        }
    }
}

#[test]
fn a_symbolic_head_asks_for_the_reference() {
    match on_head(GitDir::Linked("g".to_string()), Ok("ref:  refs/tags/v1 \n".to_string())) {
        Step::Ask(request) => assert_eq!(
            request,
            Request::ReadRef(GitDir::Linked("g".to_string()), "refs/tags/v1".to_string())
        ),
        other => panic!("{:?}", other),
    }
}

#[test]
fn truncation_marker_only_for_ids_longer_than_five() {
    let cases = [
        ("", "main "),
        ("a", "main a"),
        ("abcd", "main abcd"),
        ("abcde", "main abcde"),
        ("abcdef", "main abcde.."),
        (FULL_ID, "main abcd1.."),
        ("  abcde\n", "main abcde"),
        ("abcdef\n", "main abcde.."),
    ];
    for (id, shown) in cases {
        match on_ref("refs/heads/main".to_string(), Ok(id.to_string())) {
            Step::Done(reference) => assert_eq!(reference.display(), shown, "{:?}", id),
            other => panic!("{:?}", other),
        }
    }
}

#[test]
fn the_short_hash_counts_characters() {
    match on_ref("refs/heads/ü".to_string(), Ok("éééééé".to_string())) {
        Step::Done(reference) => assert_eq!(
            reference,
            RepoReference::Symbolic {
                name: "ü".to_string(),
                short_hash: "ééééé".to_string(),
                truncated: true,
            }
        ),
        other => panic!("{:?}", other),
    }
}

#[test]
fn a_reference_path_without_a_name_fails() {
    for path in ["", "/", "..", "refs/.."] {
        assert!(
            matches!(
                on_ref(path.to_string(), Ok(FULL_ID.to_string())),
                Step::Failed(GitError::NoRefName)
            ),
            "{:?}",
            path
        );
    }
}

#[test]
fn each_failed_read_has_its_own_error() {
    assert!(matches!(on_current_dir(Err(denied())), Step::Failed(GitError::NoCwd(_))));
    assert!(matches!(on_canonical_dir(Err(denied())), Step::Failed(GitError::CanonicalCwd(_))));
    assert!(matches!(on_marker_text(Err(denied())), Step::Failed(GitError::ReadGitFile(_))));
    assert!(matches!(
        on_head(GitDir::Linked("g".to_string()), Err(denied())),
        Step::Failed(GitError::ReadHead(_))
    ));
    assert!(matches!(
        on_ref("refs/heads/main".to_string(), Err(denied())),
        Step::Failed(GitError::ReadRef(_))
    ));
    assert!(matches!(on_ref("".to_string(), Err(denied())), Step::Failed(GitError::ReadRef(_))));
}

#[test]
fn a_failed_read_keeps_the_system_error() {
    match on_head(GitDir::Linked("g".to_string()), Err(denied())) {
        Step::Failed(error) => {
            let cause = error.source().unwrap();
            assert_eq!(cause.kind(), io::ErrorKind::PermissionDenied);
            assert_eq!(cause.to_string(), "denied");
        }
        other => panic!("{:?}", other),
    }
    assert!(GitError::NotGitRepo.source().is_none());
    assert!(GitError::UnexpectedGitContent.source().is_none());
    assert!(GitError::NoRefName.source().is_none());
    assert!(GitError::NoCwd(denied()).source().is_some());
    assert!(GitError::CanonicalCwd(denied()).source().is_some());
    assert!(GitError::ReadGitFile(denied()).source().is_some());
    assert!(GitError::ReadRef(denied()).source().is_some());
}

#[test]
fn the_search_begins_with_the_working_directory() {
    assert_eq!(begin(), Request::CurrentDir);
    match on_current_dir(Ok(())) {
        Step::Ask(request) => assert_eq!(request, Request::Canonicalize),
        other => panic!("{:?}", other),
    }
    match on_canonical_dir(Ok(dir(&["x", "y"]))) {
        Step::Ask(request) => assert_eq!(request, Request::ProbeMarker(dir(&["x", "y"]))),
        other => panic!("{:?}", other),
    }
}

#[test]
fn a_missing_file_fails_the_step_that_reads_it() {
    let files = Files::new(&["p"]).marker(&["p"], Marker::Directory);
    assert!(matches!(files.resolve().0, Err(GitError::ReadHead(_))));
    let files = Files::new(&["p"])
        .marker(&["p"], Marker::Directory)
        .text("/p/.git/HEAD", "ref: refs/heads/gone");
    assert!(matches!(files.resolve().0, Err(GitError::ReadRef(_))));
    let files = Files::new(&["p"]).marker(&["p"], Marker::File);
    assert!(matches!(files.resolve().0, Err(GitError::ReadGitFile(_))));
    let mut files = Files::new(&["p"]);
    files.cwd = None;
    assert!(matches!(files.resolve().0, Err(GitError::NoCwd(_))));
}

#[test]
fn git_error_messages() {
    assert_eq!(GitError::NoCwd(denied()).message(), "failed to get cwd");
    assert_eq!(GitError::CanonicalCwd(denied()).message(), "failed to canonicalize cwd");
    assert_eq!(GitError::ReadGitFile(denied()).message(), "failed to read .git file");
    assert_eq!(GitError::ReadHead(denied()).message(), "failed to read git HEAD");
    assert_eq!(GitError::NotGitRepo.message(), "not a git repo");
    assert_eq!(GitError::UnexpectedGitContent.message(), "unexpected git content");
    assert_eq!(GitError::ReadRef(denied()).message(), "failed to read ref");
    assert_eq!(GitError::NoRefName.message(), "failed to get ref name");
}
