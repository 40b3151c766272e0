use shell_prompt::color::{decimal_string, hex_digit, Color};

#[test]
fn named_colors_have_their_foreground_numbers() {
    let expected = [
        (Color::Black, "30"),
        (Color::Red, "31"),
        (Color::Green, "32"),
        (Color::Yellow, "33"),
        (Color::Blue, "34"),
        (Color::Magenta, "35"),
        (Color::Cyan, "36"),
        (Color::White, "37"),
        (Color::BrightBlack, "90"),
        (Color::BrightRed, "91"),
        (Color::BrightGreen, "92"),
        (Color::BrightYellow, "93"),
        (Color::BrightBlue, "94"),
        (Color::BrightMagenta, "95"),
        (Color::BrightCyan, "96"),
        (Color::BrightWhite, "97"),
    ];
    for (color, code) in expected {
        assert_eq!(color.to_ansi(), code, "{:?}", color);
    }
}

#[test]
fn named_colors_have_their_background_numbers() {
    let expected = [
        (Color::Black, "40"),
        (Color::Red, "41"),
        (Color::Green, "42"),
        (Color::Yellow, "43"),
        (Color::Blue, "44"),
        (Color::Magenta, "45"),
        (Color::Cyan, "46"),
        (Color::White, "47"),
        (Color::BrightBlack, "100"),
        (Color::BrightRed, "101"),
        (Color::BrightGreen, "102"),
        (Color::BrightYellow, "103"),
        (Color::BrightBlue, "104"),
        (Color::BrightMagenta, "105"),
        (Color::BrightCyan, "106"),
        (Color::BrightWhite, "107"),
    ];
    for (color, code) in expected {
        assert_eq!(color.to_ansi_bg(), code, "{:?}", color);
    }
}

#[test]
fn rgb_uses_the_true_color_form() {
    assert_eq!(Color::rgb(1, 22, 255).to_ansi(), "38;2;1;22;255");
    assert_eq!(Color::rgb(1, 22, 255).to_ansi_bg(), "48;2;1;22;255");
    assert_eq!(Color::Rgb(0, 0, 0).to_ansi(), "38;2;0;0;0");
    assert_eq!(Color::Rgb(100, 10, 9).to_ansi_bg(), "48;2;100;10;9");
}

#[test]
fn rgb_builds_the_variant() {
    assert_eq!(Color::rgb(7, 8, 9), Color::Rgb(7, 8, 9));
}

#[test]
fn hex_reads_six_digits_with_or_without_hash() {
    assert_eq!(Color::hex_to_rgb("#00ff00"), (0, 255, 0));
    assert_eq!(Color::hex_to_rgb("00ff00"), (0, 255, 0));
    assert_eq!(Color::hex_to_rgb("#98BFAE"), (0x98, 0xBF, 0xAE));
    assert_eq!(Color::hex_to_rgb("e06c76"), (0xE0, 0x6C, 0x76));
    assert_eq!(Color::hex_to_rgb("#000000"), (0, 0, 0));
    assert_eq!(Color::hex_to_rgb("#1a2B3c"), (0x1A, 0x2B, 0x3C));
    assert_eq!(Color::hex("#00ff00"), Color::Rgb(0, 255, 0));
}

#[test]
fn malformed_hex_falls_back_to_white() {
    assert_eq!(Color::hex("zzzzzz"), Color::Rgb(255, 255, 255));
    assert_eq!(Color::hex("abc"), Color::Rgb(255, 255, 255));
    assert_eq!(Color::hex_to_rgb("zzzzzz"), (255, 255, 255));
    assert_eq!(Color::hex_to_rgb("abc"), (255, 255, 255));
    assert_eq!(Color::hex_to_rgb(""), (255, 255, 255));
    assert_eq!(Color::hex_to_rgb("#"), (255, 255, 255));
    assert_eq!(Color::hex_to_rgb("#00ff0"), (255, 255, 255));
    assert_eq!(Color::hex_to_rgb("#00ff000"), (255, 255, 255));
    assert_eq!(Color::hex_to_rgb("00ff00#"), (255, 255, 255));
}

#[test]
fn one_bad_digit_makes_the_whole_color_white() {
    assert_eq!(Color::hex_to_rgb("zz00ff"), (255, 255, 255));
    assert_eq!(Color::hex_to_rgb("#0000fg"), (255, 255, 255));
    assert_eq!(Color::hex_to_rgb("+f+f+f"), (255, 255, 255));
    assert_eq!(Color::hex_to_rgb("00 f00"), (255, 255, 255));
}

#[test]
fn only_one_hash_is_passed_over() {
    assert_eq!(Color::hex_to_rgb("##00ff00"), (255, 255, 255));
    assert_eq!(Color::hex_to_rgb("##00ff0"), (255, 255, 255));
}

#[test]
fn hex_counts_characters_not_bytes() {
    assert_eq!(Color::hex_to_rgb("é0000"), (255, 255, 255));
    assert_eq!(Color::hex_to_rgb("é00000"), (255, 255, 255));
    assert_eq!(Color::hex_to_rgb("#ｆｆ"), (255, 255, 255));
}

#[test]
fn hex_rendered_as_a_color_is_true_color() {
    assert_eq!(Color::hex("#00ff00").to_ansi(), "38;2;0;255;0");
    assert_eq!(Color::hex("nonsense").to_ansi_bg(), "48;2;255;255;255");
}

#[test]
fn hex_digit_values() {
    assert_eq!(hex_digit('0'), Some(0));
    assert_eq!(hex_digit('9'), Some(9));
    assert_eq!(hex_digit('a'), Some(10));
    assert_eq!(hex_digit('f'), Some(15));
    assert_eq!(hex_digit('A'), Some(10));
    assert_eq!(hex_digit('F'), Some(15));
    assert_eq!(hex_digit('g'), None);
    assert_eq!(hex_digit('G'), None);
    assert_eq!(hex_digit('/'), None);
    assert_eq!(hex_digit(':'), None);
    assert_eq!(hex_digit('@'), None);
    assert_eq!(hex_digit('`'), None);
    assert_eq!(hex_digit('#'), None);
}

#[test]
fn decimal_numerals() {
    assert_eq!(decimal_string(0), "0");
    assert_eq!(decimal_string(9), "9");
    assert_eq!(decimal_string(10), "10");
    assert_eq!(decimal_string(99), "99");
    assert_eq!(decimal_string(100), "100");
    assert_eq!(decimal_string(109), "109");
    assert_eq!(decimal_string(255), "255");
    for n in 0..=255u8 {
        assert_eq!(decimal_string(n), n.to_string());
    }
}
