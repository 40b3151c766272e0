//! The prompt line: the segments that could be had, rendered for the shell
//! that shows them.

use crate::error::MainError;
use crate::git::GitError;
use crate::nix::NotInNixShell;
use crate::style::{computes, lemma_computes, lemma_render_nesting, rendered, DecoratedString};
use crate::text::{same_text, text_of};
use vstd::prelude::*;

verus! {

/// A control sequence as the shell `shell_type` wants it written in a
/// prompt, so that it counts for no width: between `%{` and `%}` for zsh,
/// between `\[` and `\]` for bash, and as it is for any other shell.
pub open spec fn escaped(shell_type: Seq<char>, code: Seq<char>) -> Seq<char> {
    if shell_type == "zsh"@ {
        "%{"@ + code + "%}"@
    } else if shell_type == "bash"@ {
        "\\["@ + code + "\\]"@
    } else {
        code
    }
}

/// The escape of the shell `shell_type`.
pub open spec fn shell_escape(shell_type: Seq<char>) -> spec_fn(Seq<char>) -> Seq<char> {
    |code: Seq<char>| escaped(shell_type, code)
}

/// Each of `components` rendered under `escape` and followed by a space.
pub open spec fn segments_text(
    components: Seq<DecoratedString>,
    escape: spec_fn(Seq<char>) -> Seq<char>,
) -> Seq<char>
    decreases components.len(),
{
    if components.len() == 0 {
        Seq::empty()
    } else {
        segments_text(components.drop_last(), escape) + rendered(components.last()@, escape)
            + seq![' ']
    }
}

/// The prompt line for the shell `shell_type`: a space, the segments and
/// the arrow that ends the prompt.
pub open spec fn prompt_line(components: Seq<DecoratedString>, shell_type: Seq<char>) -> Seq<char> {
    seq![' '] + segments_text(components, shell_escape(shell_type)) + "-> "@
}

/// The segments that could be had, in the prompt's order: the working
/// directory, then the repository, then the Nix shell.
pub open spec fn successes(
    cwd: DecoratedString,
    git: Result<DecoratedString, GitError>,
    nix: Result<DecoratedString, NotInNixShell>,
) -> Seq<DecoratedString> {
    seq![cwd] + had(git) + had(nix)
}

/// The segment of a result, if it holds one.
pub open spec fn had<E>(result: Result<DecoratedString, E>) -> Seq<DecoratedString> {
    match result {
        Ok(segment) => seq![segment],
        Err(_) => Seq::empty(),
    }
}

/// The failures of the segments that could not be had, in the same order.
pub open spec fn failures(
    git: Result<DecoratedString, GitError>,
    nix: Result<DecoratedString, NotInNixShell>,
) -> Seq<MainError> {
    let of_git = match git {
        Ok(_) => Seq::empty(),
        Err(error) => seq![MainError::Git(error)],
    };
    let of_nix = match nix {
        Ok(_) => Seq::empty(),
        Err(error) => seq![MainError::NixShell(error)],
    };
    of_git + of_nix
}

/// A control sequence as the shell `shell_type` wants it written in a
/// prompt.
pub fn escape_ansi(shell_type: &str, s: &str) -> (out: String)
    ensures
        out@ == escaped(shell_type@, s@),
{
    if same_text(shell_type, "zsh") {
        let mut out = String::from_str("%{");
        out.append(s);
        out.append("%}");
        out
    } else if same_text(shell_type, "bash") {
        let mut out = String::from_str("\\[");
        out.append(s);
        out.append("\\]");
        out
    } else {
        String::from_str(s)
    }
}

/// Whether failures are to be reported: only where the debug flag is set
/// to `1`.
pub fn debug_enabled(flag: Option<&str>) -> (enabled: bool)
    ensures
        enabled == (text_of(flag) == Some("1"@)),
{
    match flag {
        Some(value) => same_text(value, "1"),
        None => false,
    }
}

/// Parts the segments that could be had from the failures of the others,
/// each in the prompt's order. A failure never takes a segment that was
/// had with it.
pub fn partition(
    cwd: DecoratedString,
    git: Result<DecoratedString, GitError>,
    nix: Result<DecoratedString, NotInNixShell>,
) -> (parts: (Vec<DecoratedString>, Vec<MainError>))
    ensures
        parts.0@ == successes(cwd, git, nix),
        parts.1@ == failures(git, nix),
{
    let mut components: Vec<DecoratedString> = Vec::new();
    let mut errors: Vec<MainError> = Vec::new();
    components.push(cwd);
    match git {
        Ok(segment) => components.push(segment),
        Err(error) => errors.push(MainError::Git(error)),
    }
    match nix {
        Ok(segment) => components.push(segment),
        Err(error) => errors.push(MainError::NixShell(error)),
    }
    (components, errors)
}

/// The prompt line for the shell `shell_type`: a space, each segment
/// rendered with its control sequences escaped for that shell and followed
/// by a space, and the arrow.
pub fn render_prompt(components: &Vec<DecoratedString>, shell_type: &str) -> (out: String)
    ensures
        out@ == prompt_line(components@, shell_type@),
{
    let escape = |code: &str| -> (escaped_code: String)
        ensures
            escaped_code@ == escaped(shell_type@, code@),
        { escape_ansi(shell_type, code) };
    let ghost model = shell_escape(shell_type@);
    proof {
        lemma_computes(&escape, model);
    }
    let mut out = String::from_str(" ");
    let mut i: usize = 0;
    proof {
        reveal_strlit(" ");
    }
    while i < components.len()
        invariant
            i <= components.len(),
            computes(&escape, model),
            forall|raw: &str| call_requires(&escape, (raw,)),
            " "@ == seq![' '],
            out@ == seq![' '] + segments_text(components@.subrange(0, i as int), model),
        decreases components.len() - i,
    {
        let piece = components[i].to_ansi(&escape);
        proof {
            lemma_render_nesting(
                components[i as int]@.styles,
                components[i as int]@.text,
                &escape,
                model,
                piece@,
            );
            let upto = components@.subrange(0, i + 1);
            assert(upto.drop_last() =~= components@.subrange(0, i as int));
        }
        out.append(piece.as_str());
        out.append(" ");
        i += 1;
    }
    assert(components@.subrange(0, i as int) =~= components@);
    out.append("-> ");
    out
}

} // verus!
