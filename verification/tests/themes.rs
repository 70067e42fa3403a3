use prompter::themes::default::default_theme;
use prompter::themes::painter;
use prompter::themes::{get_symbolset_for_name, USERNAME_FG};

#[test]
fn test_color_output() {
    println!("\x1B[38;5;250m\x1B[48;5;240m \\u \x1B[48;5;238m\x1B[38;5;240m\x1B[38;5;250m\x1B[48;5;238m \\h \x1B[48;5;237m\x1B[38;5;238m\x1B[0m ");
}

#[test]
fn test_color_output_short() {
    println!("\x1B[38;5;250m\x1B[48;5;240m SHORT \x1B[48;5;238m\x1B[38;5;240m\x1B[0m ");
}

#[test]
fn test_painter() {
    println!(
        "\nTEST: --|{}{}VALUE{}{}{}|--",
        painter::fgcolor(250),
        painter::bgcolor(240),
        painter::bgcolor(238),
        painter::fgcolor(240),
        painter::reset()
    );

    let theme = default_theme();

    assert!(theme[USERNAME_FG] == 250);
}

#[test]
fn test_symbols_lookup() {
    let symbols = get_symbolset_for_name("flat");
    assert!(symbols.network == "SSH");
    assert!(symbols.lock == "\u{E0A2}");
}

#[test]
fn painter_writes_the_documented_sequences() {
    assert_eq!(painter::fgcolor(250), "\\[\\e[38;5;250m\\]");
    assert_eq!(painter::bgcolor(238), "\\[\\e[48;5;238m\\]");
    assert_eq!(painter::fgcolor(0), "\\[\\e[38;5;0m\\]");
    assert_eq!(painter::bgcolor(-1), "\\[\\e[48;5;-1m\\]");
    assert_eq!(painter::color("38", 7), "\\[\\e[38;5;7m\\]");
    assert_eq!(painter::color("48", i32::MIN), "\\[\\e[48;5;-2147483648m\\]");
    assert_eq!(painter::color("48", i32::MAX), "\\[\\e[48;5;2147483647m\\]");
    assert_eq!(painter::reset(), "\\[\\e[0m\\]");
}

#[test]
fn default_theme_fills_every_slot() {
    let theme = default_theme();
    let expected: [i32; 53] = [
        -1, 250, 240, 124, 250, 238, 1, 31, 15, 237, 250, 254, 244, 124, 254, 166, 254, 148, 0,
        161, 15, 39, 238, 236, 15, 161, 15, 148, 22, 240, 250, 240, 250, 22, 15, 130, 15, 52, 15,
        9, 15, 221, 0, 35, 0, 22, 7, 196, 7, 39, 238, 250, 238,
    ];
    assert_eq!(theme, expected);
}

#[test]
fn symbol_sets_by_name() {
    let compatible = get_symbolset_for_name("compatible");
    assert_eq!(compatible.lock, "RO");
    assert_eq!(compatible.network, "SSH");
    assert_eq!(compatible.separator, "\u{25B6}");
    assert_eq!(compatible.separator_thin, "\u{276F}");

    let patched = get_symbolset_for_name("patched");
    assert_eq!(patched.lock, "\u{E0A2}");
    assert_eq!(patched.network, "SSH");
    assert_eq!(patched.separator, "\u{E0B0}");
    assert_eq!(patched.separator_thin, "\u{E0B1}");

    let flat = get_symbolset_for_name("flat");
    assert_eq!(flat.separator, "");
    assert_eq!(flat.separator_thin, "");

    let other = get_symbolset_for_name("Patched?");
    assert_eq!(other.separator, "\u{E0B0}");
    assert_eq!(other.lock, "\u{E0A2}");
}

#[test]
fn color_templates_by_shell() {
    assert_eq!(prompter::themes::_get_color_templates("bash"), "\x1B[{}]");
    assert_eq!(prompter::themes::_get_color_templates("tcsh"), "%%{\x1B%s%%}");
    assert_eq!(prompter::themes::_get_color_templates("zsh"), "%%{%%}");
    assert_eq!(prompter::themes::_get_color_templates("bare"), "");
    assert_eq!(prompter::themes::_get_color_templates("fish"), "");
}
