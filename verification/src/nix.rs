//! The prompt's segment for a Nix shell.

use crate::color::{hex_rgb, is_hex_color, without_hash, Color};
use crate::style::{DecoratedString, Style, StyledText};
use crate::text::{same_text, split, split_on, text_of};
use vstd::prelude::*;

verus! {

/// The answer where no Nix shell is found.
#[derive(Debug, Clone, Copy, PartialEq, Eq, Structural)]
pub struct NotInNixShell;

/// The kind of Nix shell that a process runs in.
#[derive(Debug, Clone, Copy, PartialEq, Eq, Structural)]
pub enum NixShellType {
    Pure,
    Impure,
    /// A Nix shell of a kind that is not known: one that does not say, as a
    /// `nix shell` shell does not.
    Unknown,
}

/// Whether a segment of a path names nothing: it is empty or `.`.
pub open spec fn names_nothing(segment: Seq<char>) -> bool {
    segment.len() == 0 || segment == seq!['.']
}

/// The index of the first of `parts`, from `from` on, that names
/// something; the length of `parts` where none does.
pub open spec fn next_name(parts: Seq<Seq<char>>, from: int) -> int
    decreases parts.len() - from,
{
    if from < 0 || from >= parts.len() {
        parts.len() as int
    } else if names_nothing(parts[from]) {
        next_name(parts, from + 1)
    } else {
        from
    }
}

/// Whether a search path entry lies in the Nix store, `/nix/store`: it is
/// an absolute path whose first two names are `nix` and `store`. Segments
/// that name nothing are passed over.
pub open spec fn in_store(entry: Seq<char>) -> bool {
    let parts = split(entry, '/');
    let first = next_name(parts, 0);
    let second = next_name(parts, first + 1);
    &&& entry.len() > 0
    &&& entry[0] == '/'
    &&& second < parts.len()
    &&& parts[first] == "nix"@
    &&& parts[second] == "store"@
}

/// Whether some entry of a search path lies in the Nix store.
pub open spec fn reaches_store(entries: Seq<Seq<char>>) -> bool {
    exists|i: int| 0 <= i < entries.len() && in_store(#[trigger] entries[i])
}

/// The kind that a value of the variable `IN_NIX_SHELL` names.
pub open spec fn named_type(value: Seq<char>) -> NixShellType {
    if value == "pure"@ {
        NixShellType::Pure
    } else if value == "impure"@ {
        NixShellType::Impure
    } else {
        NixShellType::Unknown
    }
}

/// The kind of Nix shell, from the value of `IN_NIX_SHELL` and the entries
/// of the search path as far as the two are set. The variable decides
/// where it is set. Otherwise a search path with an entry in the Nix store
/// tells of a shell of unknown kind, and nothing else tells of one.
pub open spec fn detected(
    in_nix_shell: Option<Seq<char>>,
    search_path: Option<Seq<Seq<char>>>,
) -> Result<NixShellType, NotInNixShell> {
    match in_nix_shell {
        Some(value) => Ok(named_type(value)),
        None => match search_path {
            Some(entries) => if reaches_store(entries) {
                Ok(NixShellType::Unknown)
            } else {
                Err(NotInNixShell)
            },
            None => Err(NotInNixShell),
        },
    }
}

/// What a search path holds.
pub open spec fn entries_of(search_path: Option<&Vec<String>>) -> Option<Seq<Seq<char>>> {
    match search_path {
        Some(entries) => Some(entries.deep_view()),
        None => None,
    }
}

/// The color in which the prompt shows a Nix shell.
pub open spec fn nix_color() -> Color {
    Color::Rgb(0xE0, 0x6C, 0x76)
}

/// The prompt's text for a Nix shell of the given kind.
pub open spec fn nix_label(shell_type: NixShellType) -> Seq<char> {
    "(nix: "@ + shell_type.name_text() + ")"@
}

/// The segment for a Nix shell of the given kind: its label, bold, in the
/// Nix color.
pub open spec fn nix_segment(shell_type: NixShellType) -> StyledText {
    StyledText::plain(nix_label(shell_type)).wrapped(Style::Bold).wrapped(
        Style::Colored(nix_color()),
    )
}

impl NotInNixShell {
    /// What the answer says of itself.
    pub fn message(&self) -> (out: String)
        ensures
            out@ == "not in a nix shell"@,
    {
        String::from_str("not in a nix shell")
    }
}

/// The index of the first of `parts`, from `from` on, that names
/// something.
fn next_name_index(parts: &Vec<String>, from: usize) -> (at: usize)
    requires
        from <= parts.len(),
    ensures
        at == next_name(parts.deep_view(), from as int),
        from <= at <= parts.len(),
{
    proof {
        reveal_strlit(".");
    }
    let mut at: usize = from;
    while at < parts.len() && (parts[at].as_str().unicode_len() == 0 || same_text(
        parts[at].as_str(),
        ".",
    ))
        invariant
            from <= at <= parts.len(),
            "."@ == seq!['.'],
            next_name(parts.deep_view(), from as int) == next_name(parts.deep_view(), at as int),
        decreases parts.len() - at,
    {
        at += 1;
    }
    at
}

/// Whether a search path entry lies in the Nix store.
pub fn is_in_store(entry: &str) -> (found: bool)
    ensures
        found == in_store(entry@),
{
    if entry.unicode_len() == 0 || entry.get_char(0) != '/' {
        return false;
    }
    let parts = split_on(entry, '/');
    let first = next_name_index(&parts, 0);
    if first >= parts.len() {
        return false;
    }
    let second = next_name_index(&parts, first + 1);
    second < parts.len() && same_text(parts[first].as_str(), "nix") && same_text(
        parts[second].as_str(),
        "store",
    )
}

impl NixShellType {
    /// The word for the kind.
    pub open spec fn name_text(self) -> Seq<char> {
        match self {
            NixShellType::Pure => "pure"@,
            NixShellType::Impure => "impure"@,
            NixShellType::Unknown => "unknown"@,
        }
    }

    /// The word for the kind.
    pub fn name(&self) -> (out: &'static str)
        ensures
            out@ == self.name_text(),
    {
        match self {
            NixShellType::Pure => "pure",
            NixShellType::Impure => "impure",
            NixShellType::Unknown => "unknown",
        }
    }

    /// The kind of Nix shell that the process runs in, from the value of
    /// the variable `IN_NIX_SHELL` and the entries of the search path, as
    /// far as the two are set.
    pub fn detect_shell_type(in_nix_shell: Option<&str>, search_path: Option<&Vec<String>>) -> (res:
        Result<NixShellType, NotInNixShell>)
        ensures
            res == detected(text_of(in_nix_shell), entries_of(search_path)),
    {
        match in_nix_shell {
            Some(value) => {
                if same_text(value, "pure") {
                    return Ok(NixShellType::Pure);
                } else if same_text(value, "impure") {
                    return Ok(NixShellType::Impure);
                } else {
                    return Ok(NixShellType::Unknown);
                }
            },
            None => {},
        }
        let entries = match search_path {
            Some(entries) => entries,
            None => {
                return Err(NotInNixShell);
            },
        };
        let mut i: usize = 0;
        while i < entries.len()
            invariant
                i <= entries.len(),
                in_nix_shell is None,
                search_path == Some(entries),
                forall|j: int| 0 <= j < i ==> !in_store(#[trigger] entries.deep_view()[j]),
            decreases entries.len() - i,
        {
            if is_in_store(entries[i].as_str()) {
                assert(in_store(entries.deep_view()[i as int]));
                return Ok(NixShellType::Unknown);
            }
            i += 1;
        }
        Err(NotInNixShell)
    }
}

/// The Nix color's notation reads as its parts.
proof fn lemma_nix_color()
    ensures
        hex_rgb("#E06C76"@) == (0xE0u8, 0x6Cu8, 0x76u8),
{
    reveal_strlit("#E06C76");
    let digits = without_hash("#E06C76"@);
    assert(digits =~= seq!['E', '0', '6', 'C', '7', '6']);
    assert(is_hex_color("#E06C76"@));
}

/// The prompt's segment for the Nix shell that the process runs in, if it
/// runs in one.
pub fn get_nix_shell(in_nix_shell: Option<&str>, search_path: Option<&Vec<String>>) -> (res: Result<
    DecoratedString,
    NotInNixShell,
>)
    ensures
        match detected(text_of(in_nix_shell), entries_of(search_path)) {
            Ok(shell_type) => res is Ok && res->Ok_0@ == nix_segment(shell_type),
            Err(_) => res is Err,
        },
{
    let shell_type = match NixShellType::detect_shell_type(in_nix_shell, search_path) {
        Ok(shell_type) => shell_type,
        Err(not_found) => {
            return Err(not_found);
        },
    };
    let mut label = String::from_str("(nix: ");
    label.append(shell_type.name());
    label.append(")");
    proof {
        lemma_nix_color();
    }
    Ok(DecoratedString::new(label).bold().colored(Color::hex("#E06C76")))
}

} // verus!
