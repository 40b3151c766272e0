//! Colors of styled text and the parameters they contribute to a
//! "select graphic rendition" control sequence.

use vstd::prelude::*;

verus! {

/// A color that styled text can be drawn in: one of the sixteen named
/// terminal colors, or a 24-bit color.
#[derive(Debug, Clone, Copy, PartialEq, Eq, Structural)]
pub enum Color {
    Red,
    Green,
    Yellow,
    Blue,
    Magenta,
    Cyan,
    White,
    Black,
    BrightRed,
    BrightGreen,
    BrightYellow,
    BrightBlue,
    BrightMagenta,
    BrightCyan,
    BrightWhite,
    BrightBlack,
    /// 24-bit color given by its red, green and blue parts.
    Rgb(u8, u8, u8),
}

/// The character that writes the decimal digit `d`.
pub open spec fn digit_char(d: nat) -> char {
    if d == 0 {
        '0'
    } else if d == 1 {
        '1'
    } else if d == 2 {
        '2'
    } else if d == 3 {
        '3'
    } else if d == 4 {
        '4'
    } else if d == 5 {
        '5'
    } else if d == 6 {
        '6'
    } else if d == 7 {
        '7'
    } else if d == 8 {
        '8'
    } else {
        '9'
    }
}

/// The decimal numeral of `n`, without leading zeros.
pub open spec fn decimal(n: nat) -> Seq<char>
    decreases n,
{
    if n < 10 {
        seq![digit_char(n)]
    } else {
        decimal(n / 10).push(digit_char(n % 10))
    }
}

/// The value of `c` read as a hexadecimal digit of either case, if it is one.
pub open spec fn hex_digit_value(c: char) -> Option<nat> {
    if '0' <= c <= '9' {
        Some((c as u32 - '0' as u32) as nat)
    } else if 'a' <= c <= 'f' {
        Some((c as u32 - 'a' as u32 + 10) as nat)
    } else if 'A' <= c <= 'F' {
        Some((c as u32 - 'A' as u32 + 10) as nat)
    } else {
        None
    }
}

/// A color notation without the `#` that may stand in front of it.
pub open spec fn without_hash(hex: Seq<char>) -> Seq<char> {
    if hex.len() > 0 && hex[0] == '#' {
        hex.subrange(1, hex.len() as int)
    } else {
        hex
    }
}

/// Whether `hex` is six hexadecimal digits, optionally preceded by one `#`.
pub open spec fn is_hex_color(hex: Seq<char>) -> bool {
    let digits = without_hash(hex);
    &&& digits.len() == 6
    &&& forall|i: int| 0 <= i < 6 ==> (#[trigger] hex_digit_value(digits[i])) is Some
}

/// The byte written by the two hexadecimal digits of `digits` that start at `at`.
pub open spec fn hex_byte(digits: Seq<char>, at: int) -> u8 {
    (16 * hex_digit_value(digits[at]).unwrap() + hex_digit_value(digits[at + 1]).unwrap()) as u8
}

/// The red, green and blue parts that the notation `hex` stands for. A
/// notation that is not a hex color stands for opaque white.
pub open spec fn hex_rgb(hex: Seq<char>) -> (u8, u8, u8) {
    if is_hex_color(hex) {
        let digits = without_hash(hex);
        (hex_byte(digits, 0), hex_byte(digits, 2), hex_byte(digits, 4))
    } else {
        (255u8, 255u8, 255u8)
    }
}

/// The separator between the fields of a control sequence parameter.
pub open spec fn field_separator() -> Seq<char> {
    seq![';']
}

/// The fields `;2;R;G;B` that select a 24-bit color after the `38` or `48`
/// that says which layer is colored.
pub open spec fn true_color_fields(r: u8, g: u8, b: u8) -> Seq<char> {
    field_separator() + decimal(2) + field_separator() + decimal(r as nat) + field_separator()
        + decimal(g as nat) + field_separator() + decimal(b as nat)
}

impl Color {
    /// The number that selects a named color as the foreground; `None` for
    /// a 24-bit color, which has no number of its own.
    pub open spec fn foreground_number(self) -> Option<nat> {
        match self {
            Color::Black => Some(30),
            Color::Red => Some(31),
            Color::Green => Some(32),
            Color::Yellow => Some(33),
            Color::Blue => Some(34),
            Color::Magenta => Some(35),
            Color::Cyan => Some(36),
            Color::White => Some(37),
            Color::BrightBlack => Some(90),
            Color::BrightRed => Some(91),
            Color::BrightGreen => Some(92),
            Color::BrightYellow => Some(93),
            Color::BrightBlue => Some(94),
            Color::BrightMagenta => Some(95),
            Color::BrightCyan => Some(96),
            Color::BrightWhite => Some(97),
            Color::Rgb(_, _, _) => None,
        }
    }

    /// The parameter that selects this color as the foreground.
    pub open spec fn foreground_param(self) -> Seq<char> {
        match self {
            Color::Rgb(r, g, b) => decimal(38) + true_color_fields(r, g, b),
            _ => decimal(self.foreground_number().unwrap()),
        }
    }

    /// The parameter that selects this color as the background: a named
    /// color's background number is ten above its foreground number.
    pub open spec fn background_param(self) -> Seq<char> {
        match self {
            Color::Rgb(r, g, b) => decimal(48) + true_color_fields(r, g, b),
            _ => decimal(self.foreground_number().unwrap() + 10),
        }
    }

    /// The number that a parameter for the foreground begins with.
    fn named_number(&self) -> (n: u8)
        ensures
            match self.foreground_number() {
                Some(number) => n == number,
                None => n == 38,
            },
    {
        match self {
            Color::Black => 30,
            Color::Red => 31,
            Color::Green => 32,
            Color::Yellow => 33,
            Color::Blue => 34,
            Color::Magenta => 35,
            Color::Cyan => 36,
            Color::White => 37,
            Color::BrightBlack => 90,
            Color::BrightRed => 91,
            Color::BrightGreen => 92,
            Color::BrightYellow => 93,
            Color::BrightBlue => 94,
            Color::BrightMagenta => 95,
            Color::BrightCyan => 96,
            Color::BrightWhite => 97,
            Color::Rgb(_, _, _) => 38,
        }
    }

    /// The parameter for the foreground, or for the background, whose
    /// numbers lie `offset` above.
    fn layer_param(&self, offset: u8) -> (out: String)
        requires
            offset == 0 || offset == 10,
        ensures
            offset == 0 ==> out@ == self.foreground_param(),
            offset == 10 ==> out@ == self.background_param(),
    {
        let mut out = decimal_string(self.named_number() + offset);
        match self {
            Color::Rgb(r, g, b) => {
                proof {
                    reveal_strlit(";2;");
                    reveal_strlit(";");
                    reveal_with_fuel(decimal, 2);
                }
                out.append(";2;");
                out.append(decimal_string(*r).as_str());
                out.append(";");
                out.append(decimal_string(*g).as_str());
                out.append(";");
                out.append(decimal_string(*b).as_str());
            },
            _ => {},
        }
        out
    }

    /// The parameter that selects this color as the foreground: the fixed
    /// number of a named color, `38;2;R;G;B` for a 24-bit color.
    pub fn to_ansi(&self) -> (out: String)
        ensures
            out@ == self.foreground_param(),
    {
        self.layer_param(0)
    }

    /// The parameter that selects this color as the background: the fixed
    /// number of a named color, `48;2;R;G;B` for a 24-bit color.
    pub fn to_ansi_bg(&self) -> (out: String)
        ensures
            out@ == self.background_param(),
    {
        self.layer_param(10)
    }

    /// Reads a color notation of six hexadecimal digits, with or without a
    /// leading `#`, as red, green and blue. Anything else reads as white.
    pub fn hex_to_rgb(hex: &str) -> (rgb: (u8, u8, u8))
        ensures
            rgb == hex_rgb(hex@),
    {
        let len = hex.unicode_len();
        let start: usize = if len > 0 && hex.get_char(0) == '#' {
            1
        } else {
            0
        };
        if len - start != 6 {
            return (255, 255, 255);
        }
        let ghost digits = without_hash(hex@);
        let mut values: [u8; 6] = [0, 0, 0, 0, 0, 0];
        let mut i: usize = 0;
        while i < 6
            invariant
                0 <= i <= 6,
                start <= 1,
                len == hex@.len(),
                len == start + 6,
                digits == without_hash(hex@),
                digits.len() == 6,
                forall|j: int| 0 <= j < 6 ==> digits[j] == hex@[start + j],
                forall|j: int|
                    0 <= j < i ==> #[trigger] hex_digit_value(digits[j]) == Some(values[j] as nat)
                        && values[j] < 16,
            decreases 6 - i,
        {
            match hex_digit(hex.get_char(start + i)) {
                Some(v) => {
                    values[i] = v;
                },
                None => {
                    return (255, 255, 255);
                },
            }
            i += 1;
        }
        assert forall|k: int| 0 <= k < 6 implies values[k] < 16 by {
            assert(hex_digit_value(digits[k]) is Some);
        }
        (
            16 * values[0] + values[1],
            16 * values[2] + values[3],
            16 * values[4] + values[5],
        )
    }

    /// The 24-bit color with the given parts.
    pub fn rgb(r: u8, g: u8, b: u8) -> (color: Color)
        ensures
            color == Color::Rgb(r, g, b),
    {
        Color::Rgb(r, g, b)
    }

    /// The 24-bit color that a hex notation stands for, white where the
    /// notation is malformed.
    pub fn hex(hex: &str) -> (color: Color)
        ensures
            color == Color::Rgb(hex_rgb(hex@).0, hex_rgb(hex@).1, hex_rgb(hex@).2),
    {
        let (r, g, b) = Color::hex_to_rgb(hex);
        Color::Rgb(r, g, b)
    }
}

/// The value of a hexadecimal digit of either case.
pub fn hex_digit(c: char) -> (value: Option<u8>)
    ensures
        match value {
            Some(v) => v < 16 && hex_digit_value(c) == Some(v as nat),
            None => hex_digit_value(c) is None,
        },
{
    if '0' <= c && c <= '9' {
        Some((c as u32 - '0' as u32) as u8)
    } else if 'a' <= c && c <= 'f' {
        Some((c as u32 - 'a' as u32 + 10) as u8)
    } else if 'A' <= c && c <= 'F' {
        Some((c as u32 - 'A' as u32 + 10) as u8)
    } else {
        None
    }
}

/// The numeral of a single digit.
fn digit_str(d: u8) -> (out: &'static str)
    requires
        d < 10,
    ensures
        out@ == seq![digit_char(d as nat)],
{
    proof {
        reveal_strlit("0");
        reveal_strlit("1");
        reveal_strlit("2");
        reveal_strlit("3");
        reveal_strlit("4");
        reveal_strlit("5");
        reveal_strlit("6");
        reveal_strlit("7");
        reveal_strlit("8");
        reveal_strlit("9");
    }
    let out = match d {
        0 => "0",
        1 => "1",
        2 => "2",
        3 => "3",
        4 => "4",
        5 => "5",
        6 => "6",
        7 => "7",
        8 => "8",
        _ => "9",
    };
    out
}

/// Writes a byte as a decimal numeral.
pub fn decimal_string(n: u8) -> (out: String)
    ensures
        out@ == decimal(n as nat),
{
    proof {
        reveal_with_fuel(decimal, 3);
    }
    let mut out = String::new();
    if n >= 100 {
        out.append(digit_str(n / 100));
    }
    if n >= 10 {
        out.append(digit_str((n / 10) % 10));
    }
    out.append(digit_str(n % 10));
    out
}

} // verus!
