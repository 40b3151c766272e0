//! The prompt's segment for the working directory.

use crate::color::Color;
use crate::style::{DecoratedString, Style, StyledText};
use crate::text::{
    has_prefix, join, replace, replace_all, same_text, split, split_on, strip_prefix, text_of,
};
use vstd::prelude::*;

verus! {

/// The sign that stands for the home directory.
pub open spec fn tilde() -> Seq<char> {
    seq!['~']
}

/// What is shown where the working directory is not known.
pub open spec fn unknown_cwd() -> Seq<char> {
    seq!['!', '!', '!']
}

/// The working directory with the home directory written as `~`, where the
/// home directory is known and the working directory begins with it. Every
/// occurrence of the home directory's text is replaced then.
pub open spec fn home_as_tilde(cwd: Seq<char>, home: Option<Seq<char>>) -> Seq<char> {
    match home {
        Some(home) => if has_prefix(cwd, home) {
            replace_all(cwd, home, tilde())
        } else {
            cwd
        },
        None => cwd,
    }
}

/// One component of the path as shown: its first character only, unless it
/// is empty, is `~`, or reads as the last component does.
pub open spec fn abbreviated(part: Seq<char>, last: Seq<char>) -> Seq<char> {
    if part != last && part.len() > 0 && part != tilde() {
        part.subrange(0, 1)
    } else {
        part
    }
}

/// Each of `parts` as shown.
pub open spec fn abbreviate_all(parts: Seq<Seq<char>>) -> Seq<Seq<char>> {
    Seq::new(parts.len(), |i: int| abbreviated(parts[i], parts.last()))
}

/// The working directory as shown: the home directory as `~`, and each
/// component but the last cut to its first character.
pub open spec fn shortened(cwd: Seq<char>, home: Option<Seq<char>>) -> Seq<char> {
    join(abbreviate_all(split(home_as_tilde(cwd, home), '/')), '/')
}

/// The segment for the working directory `pwd` of a user whose home
/// directory is `home`: the shortened path in bold white, or `!!!` in bold
/// red where the working directory is not known.
pub open spec fn cwd_segment(pwd: Option<Seq<char>>, home: Option<Seq<char>>) -> StyledText {
    match pwd {
        Some(cwd) => StyledText::plain(shortened(cwd, home)).wrapped(Style::Bold).wrapped(
            Style::Colored(Color::White),
        ),
        None => StyledText::plain(unknown_cwd()).wrapped(Style::Bold).wrapped(
            Style::Colored(Color::Red),
        ),
    }
}

/// `parts` joined by `/`, each but the last cut to its first character.
pub fn shorten_parts(parts: &Vec<String>) -> (out: String)
    ensures
        out@ == join(abbreviate_all(parts.deep_view()), '/'),
{
    let n = parts.len();
    if n == 0 {
        return String::new();
    }
    let last = parts[n - 1].as_str();
    let ghost shown = abbreviate_all(parts.deep_view());
    let mut out = String::new();
    let mut i: usize = 0;
    proof {
        reveal_strlit("/");
        reveal_strlit("~");
    }
    while i < n
        invariant
            i <= n,
            n == parts.len(),
            n >= 1,
            last@ == parts.deep_view().last(),
            shown == abbreviate_all(parts.deep_view()),
            "/"@ == seq!['/'],
            "~"@ == tilde(),
            out@ == join(shown.subrange(0, i as int), '/'),
        decreases n - i,
    {
        if i > 0 {
            out.append("/");
        }
        let part = parts[i].as_str();
        if !same_text(part, last) && part.unicode_len() > 0 && !same_text(part, "~") {
            out.append(part.substring_char(0, 1));
        } else {
            out.append(part);
        }
        proof {
            let upto = shown.subrange(0, i + 1);
            assert(upto.drop_last() =~= shown.subrange(0, i as int));
        }
        i += 1;
    }
    assert(shown.subrange(0, n as int) =~= shown);
    out
}

/// The prompt's segment for the working directory, from the values of the
/// variables `PWD` and `HOME` as far as they are set.
pub fn get_cwd(pwd: Option<&str>, home: Option<&str>) -> (segment: DecoratedString)
    ensures
        segment@ == cwd_segment(text_of(pwd), text_of(home)),
{
    let cwd = match pwd {
        Some(cwd) => cwd,
        None => {
            proof {
                reveal_strlit("!!!");
                assert("!!!"@ =~= unknown_cwd());
            }
            return DecoratedString::new(String::from_str("!!!")).bold().colored(Color::Red);
        },
    };
    proof {
        reveal_strlit("~");
        assert("~"@ =~= tilde());
    }
    let written = match home {
        Some(home) => match strip_prefix(cwd, home) {
            Some(_) => replace(cwd, home, "~"),
            None => String::from_str(cwd),
        },
        None => String::from_str(cwd),
    };
    let parts = split_on(written.as_str(), '/');
    DecoratedString::new(shorten_parts(&parts)).bold().colored(Color::White)
}

} // verus!
