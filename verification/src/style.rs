//! Text wrapped in styles, and its rendering as control sequences around
//! the text.

use crate::color::{decimal, decimal_string, Color};
use vstd::prelude::*;

verus! {

/// `std::fmt::Error`, the error that formatting can end with. It is declared
/// so that a signature can name it; nothing is claimed of its values, and
/// writing into a `String` never gives one.
#[verifier::external_type_specification]
#[verifier::external_body]
pub struct ExFormatError(std::fmt::Error);

/// One style that text can be wrapped in.
#[derive(Debug, Clone, Copy, PartialEq, Eq, Structural)]
pub enum Style {
    Bold,
    Colored(Color),
    Background(Color),
    Underlined,
    Italic,
}

/// The control sequence that selects the graphic rendition `param`:
/// the escape character, `[`, the parameter and `m`.
pub open spec fn control_sequence(param: Seq<char>) -> Seq<char> {
    seq!['\x1b', '['] + param + seq!['m']
}

impl Style {
    /// The parameter that switches the style on.
    pub open spec fn start_param(self) -> Seq<char> {
        match self {
            Style::Bold => decimal(1),
            Style::Colored(color) => color.foreground_param(),
            Style::Background(color) => color.background_param(),
            Style::Underlined => decimal(4),
            Style::Italic => decimal(3),
        }
    }

    /// The number that switches the style off again.
    pub open spec fn end_number(self) -> nat {
        match self {
            Style::Bold => 22,
            Style::Colored(_) => 39,
            Style::Background(_) => 49,
            Style::Underlined => 24,
            Style::Italic => 23,
        }
    }

    /// The control sequence that switches the style on.
    pub open spec fn start_code(self) -> Seq<char> {
        control_sequence(self.start_param())
    }

    /// The control sequence that switches the style off again.
    pub open spec fn end_code(self) -> Seq<char> {
        control_sequence(decimal(self.end_number()))
    }

    /// The control sequence that switches the style on.
    pub fn start(&self) -> (code: String)
        ensures
            code@ == self.start_code(),
    {
        let param = match self {
            Style::Bold => decimal_string(1),
            Style::Colored(color) => color.to_ansi(),
            Style::Background(color) => color.to_ansi_bg(),
            Style::Underlined => decimal_string(4),
            Style::Italic => decimal_string(3),
        };
        sequence_of(param.as_str())
    }

    /// The control sequence that switches the style off again.
    pub fn end(&self) -> (code: String)
        ensures
            code@ == self.end_code(),
    {
        let number: u8 = match self {
            Style::Bold => 22,
            Style::Colored(_) => 39,
            Style::Background(_) => 49,
            Style::Underlined => 24,
            Style::Italic => 23,
        };
        sequence_of(decimal_string(number).as_str())
    }
}

/// The control sequence that selects the graphic rendition `param`.
fn sequence_of(param: &str) -> (code: String)
    ensures
        code@ == control_sequence(param@),
{
    proof {
        reveal_strlit("\x1b[");
        reveal_strlit("m");
    }
    let mut code = String::from_str("\x1b[");
    code.append(param);
    code.append("m");
    assert(code@ =~= control_sequence(param@));
    code
}

/// What a styled text is: the styles around it, the outermost first, and the
/// text that they surround.
pub ghost struct StyledText {
    pub styles: Seq<Style>,
    pub text: Seq<char>,
}

impl StyledText {
    /// Text without any style.
    pub open spec fn plain(text: Seq<char>) -> StyledText {
        StyledText { styles: Seq::empty(), text }
    }

    /// This styled text inside one more style.
    pub open spec fn wrapped(self, style: Style) -> StyledText {
        StyledText { styles: seq![style] + self.styles, text: self.text }
    }
}

/// Text wrapped in any number of styles. A value is never changed: each
/// builder consumes it and returns the wrapped value.
#[derive(Debug, PartialEq, Eq)]
pub enum DecoratedString {
    Bold(Box<DecoratedString>),
    Colored(Box<DecoratedString>, Color),
    Background(Box<DecoratedString>, Color),
    Underlined(Box<DecoratedString>),
    Italic(Box<DecoratedString>),
    Default(String),
}

impl DecoratedString {
    /// The styles around the text, the outermost first, and the text.
    pub open spec fn styled(self) -> StyledText
        decreases self,
    {
        match self {
            DecoratedString::Bold(inner) => inner.styled().wrapped(Style::Bold),
            DecoratedString::Colored(inner, color) => inner.styled().wrapped(Style::Colored(color)),
            DecoratedString::Background(inner, color) => inner.styled().wrapped(
                Style::Background(color),
            ),
            DecoratedString::Underlined(inner) => inner.styled().wrapped(Style::Underlined),
            DecoratedString::Italic(inner) => inner.styled().wrapped(Style::Italic),
            DecoratedString::Default(text) => StyledText::plain(text@),
        }
    }
}

impl View for DecoratedString {
    type V = StyledText;

    open spec fn view(&self) -> StyledText {
        self.styled()
    }
}

/// Whether `escape` may answer `out` when it is handed the control sequence
/// `code`.
pub open spec fn escapes_to<F: Fn(&str) -> String>(
    escape: &F,
    code: Seq<char>,
    out: Seq<char>,
) -> bool {
    exists|raw: &str, escaped: String|
        raw@ == code && escaped@ == out && #[trigger] call_ensures(escape, (raw,), escaped)
}

/// A rendering put together: what stands for the start code, the rendering
/// of what the style surrounds, and what stands for the end code.
pub open spec fn enclosed(start: Seq<char>, inner: Seq<char>, end: Seq<char>) -> Seq<char> {
    start + inner + end
}

/// Whether `out` is a rendering of `text` inside `styles` under `escape`:
/// each style contributes what `escape` makes of its start code, then the
/// rendering of what it surrounds, then what `escape` makes of its end code.
/// The text itself stands as it is.
pub open spec fn renders_to<F: Fn(&str) -> String>(
    styles: Seq<Style>,
    text: Seq<char>,
    escape: &F,
    out: Seq<char>,
) -> bool
    decreases styles.len(),
{
    if styles.len() == 0 {
        out == text
    } else {
        exists|start: Seq<char>, inner: Seq<char>, end: Seq<char>|
            {
                &&& out == #[trigger] enclosed(start, inner, end)
                &&& escapes_to(escape, styles[0].start_code(), start)
                &&& renders_to(styles.drop_first(), text, escape, inner)
                &&& escapes_to(escape, styles[0].end_code(), end)
            }
    }
}

/// Whether `escape` answers each control sequence in one way only.
pub open spec fn is_function<F: Fn(&str) -> String>(escape: &F) -> bool {
    forall|code: Seq<char>, a: Seq<char>, b: Seq<char>|
        #[trigger] escapes_to(escape, code, a) && #[trigger] escapes_to(escape, code, b) ==> a == b
}

/// Whether `escape` answers each control sequence `code` with `model(code)`.
pub open spec fn computes<F: Fn(&str) -> String>(
    escape: &F,
    model: spec_fn(Seq<char>) -> Seq<char>,
) -> bool {
    forall|code: Seq<char>, out: Seq<char>| #[trigger]
        escapes_to(escape, code, out) ==> out == model(code)
}

/// The start codes of `styles` under `escape`, from the outermost style in.
pub open spec fn start_codes(styles: Seq<Style>, escape: spec_fn(Seq<char>) -> Seq<char>) -> Seq<
    char,
>
    decreases styles.len(),
{
    if styles.len() == 0 {
        Seq::empty()
    } else {
        escape(styles[0].start_code()) + start_codes(styles.drop_first(), escape)
    }
}

/// The end codes of `styles` under `escape`, from the innermost style out.
pub open spec fn end_codes(styles: Seq<Style>, escape: spec_fn(Seq<char>) -> Seq<char>) -> Seq<
    char,
>
    decreases styles.len(),
{
    if styles.len() == 0 {
        Seq::empty()
    } else {
        end_codes(styles.drop_first(), escape) + escape(styles[0].end_code())
    }
}

/// The rendering of `styled` where `escape` is applied to each control
/// sequence: start codes outside-in, the text, end codes inside-out.
pub open spec fn rendered(styled: StyledText, escape: spec_fn(Seq<char>) -> Seq<char>) -> Seq<
    char,
> {
    start_codes(styled.styles, escape) + styled.text + end_codes(styled.styles, escape)
}

impl DecoratedString {
    /// Appends a rendering of `val` to `s`. `escape_fn` is handed each
    /// control sequence and what it returns is written in its place; the
    /// text itself is written as it is. Never fails.
    pub fn append_to_ansi<F: Fn(&str) -> String>(
        val: &DecoratedString,
        s: &mut String,
        escape_fn: &F,
    ) -> (res: Result<(), std::fmt::Error>)
        requires
            forall|raw: &str| call_requires(escape_fn, (raw,)),
        ensures
            res is Ok,
            exists|piece: Seq<char>| #[trigger]
                renders_to(val@.styles, val@.text, escape_fn, piece) && final(s)@ == old(s)@
                    + piece,
        decreases val,
    {
        let (style, inner): (Style, &DecoratedString) = match val {
            DecoratedString::Bold(inner) => (Style::Bold, &**inner),
            DecoratedString::Colored(inner, color) => (Style::Colored(*color), &**inner),
            DecoratedString::Background(inner, color) => (Style::Background(*color), &**inner),
            DecoratedString::Underlined(inner) => (Style::Underlined, &**inner),
            DecoratedString::Italic(inner) => (Style::Italic, &**inner),
            DecoratedString::Default(text) => {
                s.append(text.as_str());
                assert(renders_to(val@.styles, val@.text, escape_fn, text@));
                return Ok(());
            },
        };
        assert(val@.styles[0] == style);
        assert(val@.styles.drop_first() =~= inner@.styles);
        let start_code = style.start();
        let start = escape_fn(start_code.as_str());
        s.append(start.as_str());
        let ghost before_inner = s@;
        Self::append_to_ansi(inner, s, escape_fn)?;
        let ghost piece = choose|piece: Seq<char>| #[trigger]
            renders_to(inner@.styles, inner@.text, escape_fn, piece) && s@ == before_inner
                + piece;
        let end_code = style.end();
        let end = escape_fn(end_code.as_str());
        s.append(end.as_str());
        proof {
            assert(escapes_to(escape_fn, style.start_code(), start@));
            assert(escapes_to(escape_fn, style.end_code(), end@));
            let whole = enclosed(start@, piece, end@);
            assert(val@.text == inner@.text);
            assert(renders_to(val@.styles.drop_first(), val@.text, escape_fn, piece));
            assert(renders_to(val@.styles, val@.text, escape_fn, whole));
            assert(s@ =~= old(s)@ + whole);
        }
        Ok(())
    }

    /// A rendering of this styled text, with each control sequence replaced
    /// by what `escape_fn` returns for it.
    pub fn to_ansi<F: Fn(&str) -> String>(&self, escape_fn: &F) -> (out: String)
        requires
            forall|raw: &str| call_requires(escape_fn, (raw,)),
        ensures
            renders_to(self@.styles, self@.text, escape_fn, out@),
    {
        let mut ret = String::new();
        let _ = Self::append_to_ansi(self, &mut ret, escape_fn);
        proof {
            let piece = choose|piece: Seq<char>| #[trigger]
                renders_to(self@.styles, self@.text, escape_fn, piece) && ret@ == Seq::<
                    char,
                >::empty() + piece;
            assert(ret@ =~= piece);
        }
        ret
    }

    /// This text in bold.
    pub fn bold(self) -> (out: DecoratedString)
        ensures
            out@ == self@.wrapped(Style::Bold),
    {
        DecoratedString::Bold(Box::new(self))
    }

    /// This text in the foreground color `color`.
    pub fn colored(self, color: Color) -> (out: DecoratedString)
        ensures
            out@ == self@.wrapped(Style::Colored(color)),
    {
        DecoratedString::Colored(Box::new(self), color)
    }

    /// This text on the background color `color`.
    pub fn background(self, color: Color) -> (out: DecoratedString)
        ensures
            out@ == self@.wrapped(Style::Background(color)),
    {
        DecoratedString::Background(Box::new(self), color)
    }

    /// This text underlined.
    pub fn underlined(self) -> (out: DecoratedString)
        ensures
            out@ == self@.wrapped(Style::Underlined),
    {
        DecoratedString::Underlined(Box::new(self))
    }

    /// This text in italics.
    pub fn italic(self) -> (out: DecoratedString)
        ensures
            out@ == self@.wrapped(Style::Italic),
    {
        DecoratedString::Italic(Box::new(self))
    }

    /// The text `s` without any style.
    pub fn new(s: String) -> (out: DecoratedString)
        ensures
            out@ == StyledText::plain(s@),
    {
        DecoratedString::Default(s)
    }
}

/// An escape whose every answer to a control sequence `raw` reads
/// `model(raw)` computes `model`, and so answers each control sequence in
/// one way only.
pub proof fn lemma_computes<F: Fn(&str) -> String>(
    escape: &F,
    model: spec_fn(Seq<char>) -> Seq<char>,
)
    requires
        forall|raw: &str, answer: String| #[trigger]
            call_ensures(escape, (raw,), answer) ==> answer@ == model(raw@),
    ensures
        computes(escape, model),
        is_function(escape),
{
    assert forall|code: Seq<char>, out: Seq<char>| #[trigger]
        escapes_to(escape, code, out) implies out == model(code) by {
        let (raw, answer) = choose|raw: &str, answer: String|
            raw@ == code && answer@ == out && #[trigger] call_ensures(escape, (raw,), answer);
    }
}

/// Rendering is a function of the styled text and the escape: where
/// `escape` answers each control sequence in one way only, any two
/// renderings of the same styled text are the same.
pub proof fn lemma_render_deterministic<F: Fn(&str) -> String>(
    styles: Seq<Style>,
    text: Seq<char>,
    escape: &F,
    first: Seq<char>,
    second: Seq<char>,
)
    requires
        is_function(escape),
        renders_to(styles, text, escape, first),
        renders_to(styles, text, escape, second),
    ensures
        first == second,
    decreases styles.len(),
{
    if styles.len() > 0 {
        let (start1, inner1, end1) = choose|start: Seq<char>, inner: Seq<char>, end: Seq<char>|
            {
                &&& first == #[trigger] enclosed(start, inner, end)
                &&& escapes_to(escape, styles[0].start_code(), start)
                &&& renders_to(styles.drop_first(), text, escape, inner)
                &&& escapes_to(escape, styles[0].end_code(), end)
            };
        let (start2, inner2, end2) = choose|start: Seq<char>, inner: Seq<char>, end: Seq<char>|
            {
                &&& second == #[trigger] enclosed(start, inner, end)
                &&& escapes_to(escape, styles[0].start_code(), start)
                &&& renders_to(styles.drop_first(), text, escape, inner)
                &&& escapes_to(escape, styles[0].end_code(), end)
            };
        lemma_render_deterministic(styles.drop_first(), text, escape, inner1, inner2);
    }
}

/// Styles nest: where `escape` answers each control sequence `code` with
/// `model(code)`, the one rendering is the start codes from the outermost
/// style in, the text, and the end codes from the innermost style out.
pub proof fn lemma_render_nesting<F: Fn(&str) -> String>(
    styles: Seq<Style>,
    text: Seq<char>,
    escape: &F,
    model: spec_fn(Seq<char>) -> Seq<char>,
    out: Seq<char>,
)
    requires
        computes(escape, model),
        renders_to(styles, text, escape, out),
    ensures
        out == rendered(StyledText { styles, text }, model),
    decreases styles.len(),
{
    if styles.len() == 0 {
        assert(out =~= rendered(StyledText { styles, text }, model));
    } else {
        let (start, inner, end) = choose|start: Seq<char>, inner: Seq<char>, end: Seq<char>|
            {
                &&& out == #[trigger] enclosed(start, inner, end)
                &&& escapes_to(escape, styles[0].start_code(), start)
                &&& renders_to(styles.drop_first(), text, escape, inner)
                &&& escapes_to(escape, styles[0].end_code(), end)
            };
        lemma_render_nesting(styles.drop_first(), text, escape, model, inner);
        assert(out =~= rendered(StyledText { styles, text }, model));
    }
}

/// One more style around a styled text adds its start code in front of the
/// rendering and its end code behind it.
pub proof fn lemma_wrapped_rendering(
    styled: StyledText,
    style: Style,
    escape: spec_fn(Seq<char>) -> Seq<char>,
)
    ensures
        rendered(styled.wrapped(style), escape) == escape(style.start_code()) + rendered(
            styled,
            escape,
        ) + escape(style.end_code()),
{
    let outer = styled.wrapped(style);
    assert(outer.styles.drop_first() =~= styled.styles);
    assert(rendered(outer, escape) =~= escape(style.start_code()) + rendered(styled, escape)
        + escape(style.end_code()));
}

} // verus!
