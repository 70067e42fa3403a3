use prompter::host::{Execution, Host};
use prompter::prompt::Prompt;
use prompter::render::{compute_chain, render, render_prompt};
use prompter::segments::dummy::_DummySegment;
use prompter::segments::ResultSet;
use prompter::themes::default::default_theme;
use prompter::themes::get_symbolset_for_name;

fn render_host() -> Host {
    Host {
        user: String::from("al"),
        variables: Vec::new(),
        current_dir: None,
        writable: true,
        parent_id: 1,
        process_list: Execution::NotStarted,
        git_status: Execution::NotStarted,
        git_describe: Execution::NotStarted,
        commands: Vec::new(),
    }
}

fn render_context(symbols: &str) -> Prompt {
    Prompt { theme: default_theme(), symbols: get_symbolset_for_name(symbols), host: render_host() }
}

fn render_fg(code: i32) -> String {
    format!("\\[\\e[38;5;{}m\\]", code)
}

fn render_bg(code: i32) -> String {
    format!("\\[\\e[48;5;{}m\\]", code)
}

fn render_block(text: &str, fg: i32, bg: i32, separator: &str, separator_fg: i32) -> ResultSet {
    (String::from(text), fg, bg, String::from(separator), separator_fg)
}

fn render_named(name: &str) -> _DummySegment<'static> {
    _DummySegment { options: None, name: String::from(name) }
}

const RENDER_RESET: &str = "\\[\\e[0m\\]";

#[test]
fn empty_chain_renders_reset_and_space() {
    let prompt = render_context("patched");
    assert_eq!(render_prompt(Vec::new(), &prompt), "\\[\\e[0m\\] ");
}

#[test]
fn single_block_ends_with_reset_glyph_reset_space() {
    let prompt = render_context("patched");
    let chain = vec![render_block(" \\u ", 250, 240, "", -1)];
    let expected = format!(
        "{}{} \\u {}{}\u{E0B0}{} ",
        render_fg(250),
        render_bg(240),
        RENDER_RESET,
        render_fg(240),
        RENDER_RESET
    );
    assert_eq!(render_prompt(chain, &prompt), expected);
    assert_eq!(
        expected,
        "\\[\\e[38;5;250m\\]\\[\\e[48;5;240m\\] \\u \\[\\e[0m\\]\\[\\e[38;5;240m\\]\u{E0B0}\\[\\e[0m\\] "
    );
}

#[test]
fn separator_takes_the_background_of_the_next_block() {
    let prompt = render_context("patched");
    let chain = vec![
        render_block(" \\u ", 250, 240, "", -1),
        render_block(" \\h ", 250, 238, "", -1),
        render_block(" x ", 15, 31, "", -1),
    ];
    let expected = format!(
        "{}{} \\u {}{}\u{E0B0}{}{} \\h {}{}\u{E0B0}{}{} x {}{}\u{E0B0}{} ",
        render_fg(250),
        render_bg(240),
        render_bg(238),
        render_fg(240),
        render_fg(250),
        render_bg(238),
        render_bg(31),
        render_fg(238),
        render_fg(15),
        render_bg(31),
        RENDER_RESET,
        render_fg(31),
        RENDER_RESET
    );
    assert_eq!(render_prompt(chain, &prompt), expected);
}

#[test]
fn separator_colour_and_glyph_of_the_block_win() {
    let prompt = render_context("compatible");
    let chain = vec![
        render_block("a", 1, 2, ">", 3),
        render_block("b", 4, 5, "", 6),
        render_block("c", 7, 8, "|", -1),
    ];
    let expected = format!(
        "{}{}a{}{}>{}{}b{}{}\u{25B6}{}{}c{}{}|{} ",
        render_fg(1),
        render_bg(2),
        render_bg(5),
        render_fg(3),
        render_fg(4),
        render_bg(5),
        render_bg(8),
        render_fg(6),
        render_fg(7),
        render_bg(8),
        RENDER_RESET,
        render_fg(8),
        RENDER_RESET
    );
    assert_eq!(render_prompt(chain, &prompt), expected);
}

#[test]
fn flat_symbols_render_no_glyph() {
    let prompt = render_context("flat");
    let chain = vec![render_block(" a ", 1, 2, "", -1)];
    let expected =
        format!("{}{} a {}{}{} ", render_fg(1), render_bg(2), RENDER_RESET, render_fg(2), RENDER_RESET);
    assert_eq!(render_prompt(chain, &prompt), expected);
}

#[test]
fn compute_chain_drops_empty_blocks_and_keeps_the_order() {
    let prompt = render_context("patched");
    let chain = vec![
        render_named(""),
        render_named("one"),
        render_named(""),
        render_named(""),
        render_named("two"),
        render_named("three"),
        render_named(""),
    ];
    let blocks = compute_chain(chain, &prompt);
    let texts: Vec<&str> = blocks.iter().map(|b| b.0.as_str()).collect();
    assert_eq!(texts, vec!["one", "two", "three"]);
    for block in &blocks {
        assert_eq!((block.1, block.2, block.3.as_str(), block.4), (-1, -1, "", -1));
    }
    assert_eq!(compute_chain(Vec::<_DummySegment>::new(), &prompt).len(), 0);
    assert_eq!(compute_chain(vec![render_named(""), render_named("")], &prompt).len(), 0);
}

#[test]
fn empty_segments_leave_no_trace_in_the_prompt() {
    let prompt = render_context("patched");
    let with = vec![render_named("a"), render_named(""), render_named("b"), render_named("")];
    let without = vec![render_named("a"), render_named("b")];
    let rendered_with = render_prompt(compute_chain(with, &prompt), &prompt);
    let rendered_without = render_prompt(compute_chain(without, &prompt), &prompt);
    assert_eq!(rendered_with, rendered_without);
    assert_eq!(rendered_with.matches("\u{E0B0}").count(), 2);
    assert_eq!(rendered_with.matches("\\[\\e[38;5;").count(), 4);
}

#[test]
fn rendering_twice_gives_the_same_bytes() {
    let prompt = render_context("patched");
    let make = || {
        vec![
            render_block(" a ", 1, 2, "", -1),
            render_block(" b ", 3, 4, "x", 9),
            render_block(" c ", 5, 6, "", -1),
        ]
    };
    let first = render_prompt(make(), &prompt);
    let second = render_prompt(make(), &prompt);
    assert_eq!(first.as_bytes(), second.as_bytes());
}

#[test]
fn prompt_ends_with_reset_and_exactly_one_space() {
    let prompt = render_context("patched");
    for chain in [
        Vec::new(),
        vec![render_block(" a ", 1, 2, "", -1)],
        vec![render_block(" a ", 1, 2, " ", -1), render_block("b ", 3, 4, " ", 7)],
    ] {
        let text = render_prompt(chain, &prompt);
        assert!(text.ends_with("\\[\\e[0m\\] "));
        assert!(!text.ends_with("  "));
        let body = &text[..text.len() - "\\[\\e[0m\\] ".len()];
        assert!(!body.ends_with("m\\]"));
    }
}

#[test]
fn render_is_compute_then_render_prompt() {
    let prompt = render_context("patched");
    let make = || vec![render_named("a"), render_named(""), render_named("b")];
    assert_eq!(render(make(), &prompt), render_prompt(compute_chain(make(), &prompt), &prompt));
    let expected = format!(
        "{}{}a{}{}\u{E0B0}{}{}b{}{}\u{E0B0}{} ",
        render_fg(-1),
        render_bg(-1),
        render_bg(-1),
        render_fg(-1),
        render_fg(-1),
        render_bg(-1),
        RENDER_RESET,
        render_fg(-1),
        RENDER_RESET
    );
    assert_eq!(render(make(), &prompt), expected);
    assert_eq!(render(Vec::<_DummySegment>::new(), &prompt), "\\[\\e[0m\\] ");
}
