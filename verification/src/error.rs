//! Why a segment of the prompt is missing, and the report of it.

use crate::git::GitError;
use crate::nix::NotInNixShell;
use crate::text::text_of;
use vstd::prelude::*;

verus! {

/// The failure of one of the prompt's optional segments.
#[derive(Debug)]
pub enum MainError {
    NixShell(NotInNixShell),
    Git(GitError),
}

/// The end of a line.
pub open spec fn newline() -> Seq<char> {
    seq!['\n']
}

impl MainError {
    /// Which segment is missing.
    pub open spec fn headline(self) -> Seq<char> {
        match self {
            MainError::NixShell(_) => "failed to get nix info"@,
            MainError::Git(_) => "failed to get git info"@,
        }
    }

    /// What the failure behind this one says of itself.
    pub open spec fn reason(self) -> Seq<char> {
        match self {
            MainError::NixShell(_) => "not in a nix shell"@,
            MainError::Git(error) => error.message_text(),
        }
    }

    /// The system error at the bottom of the failure, if there is one.
    pub open spec fn cause(self) -> Option<std::io::Error> {
        match self {
            MainError::NixShell(_) => None,
            MainError::Git(error) => error.cause(),
        }
    }

    /// The report of the failure where its system error, if it has one,
    /// reads `cause_text`: the headline, `Caused by:`, the reason and the
    /// system error's text, each on a line of its own.
    pub open spec fn report_text(self, cause_text: Option<Seq<char>>) -> Seq<char> {
        self.headline() + newline() + "Caused by:"@ + newline() + self.reason() + newline()
            + match cause_text {
            Some(text) => text + newline(),
            None => Seq::empty(),
        }
    }

    /// The report of the failure, given the text of its system error where
    /// it has one.
    pub fn report_with(&self, cause_text: Option<&str>) -> (out: String)
        ensures
            out@ == self.report_text(text_of(cause_text)),
    {
        proof {
            reveal_strlit("\n");
        }
        let mut out = match self {
            MainError::NixShell(_) => String::from_str("failed to get nix info"),
            MainError::Git(_) => String::from_str("failed to get git info"),
        };
        out.append("\n");
        out.append("Caused by:");
        out.append("\n");
        match self {
            MainError::NixShell(not_found) => out.append(not_found.message().as_str()),
            MainError::Git(error) => out.append(error.message().as_str()),
        }
        out.append("\n");
        match cause_text {
            Some(text) => {
                out.append(text);
                out.append("\n");
            },
            None => {},
        }
        out
    }

    /// The report of the failure, with the text that the system error gives
    /// of itself where there is one.
    pub fn report(&self) -> (out: String)
        ensures
            match self.cause() {
                Some(_) => exists|text: Seq<char>| out@ == #[trigger] self.report_text(Some(text)),
                None => out@ == self.report_text(None),
            },
    {
        let cause = match self {
            MainError::NixShell(_) => None,
            MainError::Git(error) => error.source(),
        };
        match cause {
            Some(cause) => {
                let text = describe(cause);
                self.report_with(Some(text.as_str()))
            },
            None => self.report_with(None),
        }
    }
}

/// Calls `to_string` on a `std::io::Error`, which gives the text that the
/// error displays. The text depends on the system; nothing is claimed of it.
#[verifier::external_body]
fn describe(cause: &std::io::Error) -> (text: String) {
    cause.to_string()
}

} // verus!
