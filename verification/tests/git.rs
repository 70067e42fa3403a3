use prompter::host::{Execution, Host};
use prompter::prompt::Prompt;
use prompter::segments::git::{
    add_vcs_details, add_vcs_part, ahead_badge, behind_badge, branch_info_from, changed_badge,
    conflicted_badge, get_fg_bg_for_repo_set, get_git_detached_branch, new_badge, number_or_blank,
    parse_git_branch_info, parse_git_stats, staged_badge, status_block, BranchInfo, GitSegment,
    RepoStats, BRANCH_PATTERN,
};
use prompter::segments::Segment;
use prompter::themes::default::default_theme;
use prompter::themes::get_symbolset_for_name;
use regex::Regex;

fn git_host(status: Execution, describe: Execution) -> Host {
    Host {
        user: String::from("al"),
        variables: Vec::new(),
        current_dir: None,
        writable: true,
        parent_id: 1,
        process_list: Execution::NotStarted,
        git_status: status,
        git_describe: describe,
        commands: Vec::new(),
    }
}

fn git_context(status: Execution, describe: Execution) -> Prompt {
    Prompt {
        theme: default_theme(),
        symbols: get_symbolset_for_name("patched"),
        host: git_host(status, describe),
    }
}

fn git_finished(output: &str) -> Execution {
    Execution::Finished { success: true, output: Some(String::from(output)) }
}

fn git_lines(lines: &[&str]) -> Vec<String> {
    lines.iter().map(|l| l.to_string()).collect()
}

fn git_fg(code: i32) -> String {
    format!("\\[\\e[38;5;{}m\\]", code)
}

fn git_bg(code: i32) -> String {
    format!("\\[\\e[48;5;{}m\\]", code)
}

fn git_badge(upstream: i32, fg: i32, bg: i32, body: &str) -> String {
    format!("{}{}\u{E0B0}{}{} {} ", git_fg(upstream), git_bg(bg), git_fg(fg), git_bg(bg), body)
}

fn git_counts(stats: &RepoStats) -> (i32, i32, i32, i32, i32, i32) {
    (stats.new, stats.conflicted, stats.changed, stats.staged, stats.ahead, stats.behind)
}

fn git_branch(info: &Option<BranchInfo>) -> Option<(&str, &str, i32, i32)> {
    info.as_ref().map(|b| (b.local.as_str(), b.remote.as_str(), b.ahead, b.behind))
}

#[test]
fn test_regex_differences() {
    let input = "## master...origin/master [ahead 1, behind 7]";

    println!("Processing: |{}|", input);

    let re = Regex::new(
        r###"^## (?P<local>\S+?)(\.{3}(?P<remote>\S+?)( \[(ahead (?P<ahead>\d+)(, )?)?(behind (?P<behind>\d+))?\])?)?$"###
    ).expect("Regex could not be parsed.");

    println!("Found : {}", re.is_match(input));

    let caps = re.captures(input).unwrap();

    println!("Len: {}", caps.len());

    println!("local  : {}", caps.name("local").unwrap().as_str());
    println!("remote : {}", caps.name("remote").unwrap().as_str());
    println!("ahead  : {}", caps.name("ahead").unwrap().as_str());
    println!("behind : {}", caps.name("behind").unwrap().as_str());

    assert_eq!(
        BRANCH_PATTERN,
        r###"^## (?P<local>\S+?)(\.{3}(?P<remote>\S+?)( \[(ahead (?P<ahead>\d+)(, )?)?(behind (?P<behind>\d+))?\])?)?$"###
    );
}

#[test]
fn branch_line_with_remote_ahead_and_behind() {
    let info = parse_git_branch_info("## master...origin/master [ahead 1, behind 7]");
    assert_eq!(git_branch(&info), Some(("master", "origin/master", 1, 7)));
}

#[test]
fn branch_line_with_local_branch_only() {
    let info = parse_git_branch_info("## master");
    assert_eq!(git_branch(&info), Some(("master", "", 0, 0)));
}

#[test]
fn branch_lines_of_other_shapes() {
    assert_eq!(
        git_branch(&parse_git_branch_info("## main...origin/main")),
        Some(("main", "origin/main", 0, 0))
    );
    assert_eq!(
        git_branch(&parse_git_branch_info("## main...origin/main [ahead 12]")),
        Some(("main", "origin/main", 12, 0))
    );
    assert_eq!(
        git_branch(&parse_git_branch_info("## feature/x...up/feature/x [behind 3]")),
        Some(("feature/x", "up/feature/x", 0, 3))
    );
    assert_eq!(
        git_branch(&parse_git_branch_info("## main...origin/main [ahead 99999999999]")),
        Some(("main", "origin/main", 0, 0))
    );
    assert_eq!(git_branch(&parse_git_branch_info("## HEAD (no branch)")), None);
    assert_eq!(git_branch(&parse_git_branch_info("# master")), None);
    assert_eq!(git_branch(&parse_git_branch_info("")), None);
    assert_eq!(git_branch(&parse_git_branch_info(" M file")), None);
}

#[test]
fn branch_info_from_reads_four_groups() {
    let text = |s: &str| Some(String::from(s));
    assert_eq!(git_branch(&branch_info_from(None)), None);
    assert_eq!(
        git_branch(&branch_info_from(Some(vec![text("a"), text("b"), text("3"), text("-4")]))),
        Some(("a", "b", 3, -4))
    );
    assert_eq!(
        git_branch(&branch_info_from(Some(vec![text("a"), None, None, text("x")]))),
        Some(("a", "", 0, 0))
    );
    assert_eq!(
        git_branch(&branch_info_from(Some(vec![None, text("b")]))),
        Some(("", "b", 0, 0))
    );
    assert_eq!(git_branch(&branch_info_from(Some(Vec::new()))), Some(("", "", 0, 0)));
    assert_eq!(
        git_branch(&branch_info_from(Some(vec![text("a"), text("b"), text("2147483648"), text("+5")]))),
        Some(("a", "b", 0, 5))
    );
}

#[test]
fn status_lines_are_counted_by_their_codes() {
    assert_eq!(git_counts(&parse_git_stats(&git_lines(&["?? newfile.txt"]))), (1, 0, 0, 0, 0, 0));
    assert_eq!(git_counts(&parse_git_stats(&git_lines(&["M  changed.txt"]))), (0, 0, 0, 1, 0, 0));
    assert_eq!(git_counts(&parse_git_stats(&git_lines(&[" M changed.txt"]))), (0, 0, 1, 0, 0, 0));
    assert_eq!(git_counts(&parse_git_stats(&git_lines(&["UU conflict.txt"]))), (0, 1, 0, 0, 0, 0));
    assert_eq!(git_counts(&parse_git_stats(&git_lines(&[]))), (0, 0, 0, 0, 0, 0));
}

#[test]
fn status_codes_of_every_kind() {
    for code in ["DD", "AU", "UD", "UA", "DU", "AA", "UU"] {
        let line = format!("{} f", code);
        assert_eq!(git_counts(&parse_git_stats(&[line])), (0, 1, 0, 0, 0, 0));
    }
    assert_eq!(git_counts(&parse_git_stats(&git_lines(&["MM both.txt"]))), (0, 0, 1, 1, 0, 0));
    assert_eq!(git_counts(&parse_git_stats(&git_lines(&["A  added"]))), (0, 0, 0, 1, 0, 0));
    assert_eq!(git_counts(&parse_git_stats(&git_lines(&["AD x"]))), (0, 0, 1, 1, 0, 0));
    assert_eq!(git_counts(&parse_git_stats(&git_lines(&["R  a -> b"]))), (0, 0, 0, 1, 0, 0));
    assert_eq!(git_counts(&parse_git_stats(&git_lines(&["?  odd"]))), (0, 0, 0, 1, 0, 0));
    assert_eq!(git_counts(&parse_git_stats(&git_lines(&[" ? odd"]))), (0, 0, 1, 0, 0, 0));
    assert_eq!(git_counts(&parse_git_stats(&git_lines(&["", "M", " ", "  "]))), (0, 0, 0, 1, 0, 0));
    assert_eq!(
        git_counts(&parse_git_stats(&git_lines(&[
            "?? a", "?? b", "M  c", " M d", "UU e", "MM f", "AA g", "?? h", " D i",
        ]))),
        (3, 2, 3, 2, 0, 0)
    );
}

#[test]
fn dirty_when_any_file_is_pending() {
    let clean = RepoStats { new: 0, conflicted: 0, changed: 0, staged: 0, ahead: 3, behind: 4 };
    assert!(!clean.dirty());
    for stats in [
        RepoStats { new: 1, conflicted: 0, changed: 0, staged: 0, ahead: 0, behind: 0 },
        RepoStats { new: 0, conflicted: 1, changed: 0, staged: 0, ahead: 0, behind: 0 },
        RepoStats { new: 0, conflicted: 0, changed: 1, staged: 0, ahead: 0, behind: 0 },
        RepoStats { new: 0, conflicted: 0, changed: 0, staged: 1, ahead: 0, behind: 0 },
        RepoStats {
            new: i32::MAX,
            conflicted: i32::MAX,
            changed: i32::MAX,
            staged: i32::MAX,
            ahead: 0,
            behind: 0,
        },
    ] {
        assert!(stats.dirty());
    }
    let cancelled = RepoStats { new: 1, conflicted: -1, changed: 0, staged: 0, ahead: 0, behind: 0 };
    assert!(!cancelled.dirty());
}

#[test]
fn number_or_blank_hides_one() {
    assert_eq!(number_or_blank(-3), "");
    assert_eq!(number_or_blank(0), "");
    assert_eq!(number_or_blank(1), "");
    assert_eq!(number_or_blank(2), "2");
    assert_eq!(number_or_blank(17), "17");
    assert_eq!(number_or_blank(i32::MAX), "2147483647");
}

#[test]
fn badges_name_their_glyph_and_slots() {
    let theme = default_theme();
    assert_eq!(ahead_badge().symbol, "\u{2B06}");
    assert_eq!(behind_badge().symbol, "\u{2B07}");
    assert_eq!(staged_badge().symbol, "\u{2714}");
    assert_eq!(changed_badge().symbol, "\u{270E}");
    assert_eq!(new_badge().symbol, "?");
    assert_eq!(conflicted_badge().symbol, "\u{273C}");
    assert_eq!(get_fg_bg_for_repo_set(theme, &ahead_badge()), (250, 240));
    assert_eq!(get_fg_bg_for_repo_set(theme, &behind_badge()), (250, 240));
    assert_eq!(get_fg_bg_for_repo_set(theme, &staged_badge()), (15, 22));
    assert_eq!(get_fg_bg_for_repo_set(theme, &changed_badge()), (15, 130));
    assert_eq!(get_fg_bg_for_repo_set(theme, &new_badge()), (15, 52));
    assert_eq!(get_fg_bg_for_repo_set(theme, &conflicted_badge()), (15, 9));
}

#[test]
fn a_badge_is_written_for_a_positive_count() {
    let theme = default_theme();
    let symbols = get_symbolset_for_name("patched");
    assert_eq!(add_vcs_part(theme, symbols, 0, &staged_badge(), 148), (String::new(), 148));
    assert_eq!(add_vcs_part(theme, symbols, -1, &staged_badge(), 148), (String::new(), 148));
    assert_eq!(
        add_vcs_part(theme, symbols, 1, &staged_badge(), 148),
        (git_badge(148, 15, 22, "\u{2714}"), 22)
    );
    assert_eq!(
        add_vcs_part(theme, symbols, 12, &new_badge(), 22),
        (git_badge(22, 15, 52, "12?"), 52)
    );
}

#[test]
fn badges_follow_each_other_in_a_fixed_order() {
    let theme = default_theme();
    let symbols = get_symbolset_for_name("patched");
    let none = RepoStats { new: 0, conflicted: 0, changed: 0, staged: 0, ahead: 0, behind: 0 };
    assert_eq!(add_vcs_details(theme, symbols, 148, none), (String::new(), 148));

    let all = RepoStats { new: 5, conflicted: 6, changed: 4, staged: 3, ahead: 1, behind: 2 };
    let expected = [
        git_badge(161, 250, 240, "\u{2B06}"),
        git_badge(240, 250, 240, "2\u{2B07}"),
        git_badge(240, 15, 22, "3\u{2714}"),
        git_badge(22, 15, 130, "4\u{270E}"),
        git_badge(130, 15, 52, "5?"),
        git_badge(52, 15, 9, "6\u{273C}"),
    ]
    .concat();
    assert_eq!(add_vcs_details(theme, symbols, 161, all), (expected, 9));

    let some = RepoStats { new: 2, conflicted: 0, changed: 0, staged: 0, ahead: 0, behind: 1 };
    let expected = [git_badge(161, 250, 240, "\u{2B07}"), git_badge(240, 15, 52, "2?")].concat();
    assert_eq!(add_vcs_details(theme, symbols, 161, some), (expected, 52));
}

#[test]
fn detached_head_is_named_by_the_description() {
    assert_eq!(
        get_git_detached_branch(&git_finished("v1.2-3-gabc\n")),
        Some(String::from("v1.2-3-gabc"))
    );
    assert_eq!(get_git_detached_branch(&git_finished("")), Some(String::new()));
    assert_eq!(get_git_detached_branch(&git_finished(" v1 \t\n")), Some(String::from(" v1")));
}

#[test]
fn failed_description_gives_no_name() {
    assert_eq!(get_git_detached_branch(&Execution::NotStarted), None);
    assert_eq!(
        get_git_detached_branch(&Execution::Finished { success: true, output: None }),
        None
    );
    assert_eq!(
        get_git_detached_branch(&Execution::Finished {
            success: false,
            output: Some(String::from("fatal\n"))
        }),
        None
    );
    assert_eq!(
        get_git_detached_branch(&Execution::Finished { success: false, output: None }),
        None
    );
}

#[test]
fn detached_head_without_description_shows_nothing() {
    let status = "## HEAD (no branch)\n M a\n?? b\n";
    let segment = GitSegment { options: None };
    for describe in [
        Execution::NotStarted,
        Execution::Finished { success: true, output: None },
        Execution::Finished { success: false, output: Some(String::from("fatal\n")) },
    ] {
        let prompt = git_context(git_finished(status), describe);
        assert!(GitSegment::needs_describe(&prompt.host.git_status));
        assert_eq!(segment.compute(&prompt), (String::new(), -1, -1, String::new(), -1));
    }
}

#[test]
fn clean_repository_on_a_branch() {
    let prompt = git_context(git_finished("## master...origin/master\n"), Execution::NotStarted);
    let segment = GitSegment { options: None };
    assert_eq!(segment.compute(&prompt), (String::from(" master "), 0, 148, String::new(), 148));
    assert!(!GitSegment::needs_describe(&prompt.host.git_status));
}

#[test]
fn dirty_repository_shows_its_badges() {
    let status = "## master...origin/master [ahead 1, behind 7]\n?? newfile.txt\nM  changed.txt\n M changed.txt\nUU conflict.txt\n";
    let prompt = git_context(git_finished(status), Execution::NotStarted);
    let segment = GitSegment { options: None };
    let expected = [
        String::from(" master "),
        git_badge(161, 250, 240, "\u{2B06}"),
        git_badge(240, 250, 240, "7\u{2B07}"),
        git_badge(240, 15, 22, "\u{2714}"),
        git_badge(22, 15, 130, "\u{270E}"),
        git_badge(130, 15, 52, "?"),
        git_badge(52, 15, 9, "\u{273C}"),
    ]
    .concat();
    assert_eq!(segment.compute(&prompt), (expected, 15, 161, String::new(), 9));
}

#[test]
fn detached_head_uses_the_description() {
    let status = "## HEAD (no branch)\n M a\n";
    let prompt = git_context(git_finished(status), git_finished("v0.3-2-g1234567\n"));
    assert!(GitSegment::needs_describe(&prompt.host.git_status));
    let segment = GitSegment { options: None };
    let expected = [String::from(" v0.3-2-g1234567 "), git_badge(161, 15, 130, "\u{270E}")].concat();
    assert_eq!(segment.compute(&prompt), (expected, 15, 161, String::new(), 130));
}

#[test]
fn no_repository_and_no_git() {
    let segment = GitSegment { options: None };
    let prompt = git_context(git_finished(""), Execution::NotStarted);
    assert_eq!(segment.compute(&prompt), (String::new(), -1, -1, String::new(), -1));
    assert!(!GitSegment::needs_describe(&prompt.host.git_status));

    let prompt = git_context(Execution::Finished { success: false, output: None }, Execution::NotStarted);
    assert_eq!(segment.compute(&prompt), (String::new(), -1, -1, String::new(), -1));

    let prompt = git_context(Execution::NotStarted, git_finished("v1\n"));
    assert_eq!(segment.compute(&prompt), (String::new(), -1, -1, String::new(), -1));
    assert!(!GitSegment::needs_describe(&prompt.host.git_status));
}

#[test]
fn status_block_takes_the_branch_as_given() {
    let prompt = git_context(Execution::NotStarted, Execution::NotStarted);
    let branch = BranchInfo {
        local: String::from("topic"),
        remote: String::from("origin/topic"),
        ahead: 2,
        behind: 0,
    };
    let lines = git_lines(&["ignored first line", "?? a", "?? b"]);
    let expected = [
        String::from(" topic "),
        git_badge(161, 250, 240, "2\u{2B06}"),
        git_badge(240, 15, 52, "2?"),
    ]
    .concat();
    assert_eq!(
        status_block(&lines, Some(branch), &Execution::NotStarted, &prompt),
        (expected, 15, 161, String::new(), 52)
    );
    assert_eq!(
        status_block(&git_lines(&["x"]), None, &Execution::NotStarted, &prompt),
        (String::new(), -1, -1, String::new(), -1)
    );
    assert_eq!(
        status_block(&git_lines(&["x", "?? a"]), None, &git_finished("abc1234\n"), &prompt),
        (
            [String::from(" abc1234 "), git_badge(161, 15, 52, "?")].concat(),
            15,
            161,
            String::new(),
            52
        )
    );
    assert_eq!(
        status_block(&git_lines(&[]), None, &Execution::NotStarted, &prompt),
        (String::new(), -1, -1, String::new(), -1)
    );
}
