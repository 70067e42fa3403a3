//! The state of the git repository in the working directory: the branch,
//! then a badge for each kind of pending change.

use vstd::prelude::*;
use vstd::slice::*;
use vstd::string::*;
use crate::config::ConfigMap;
use crate::host::{written, Execution};
use crate::prompt::Prompt;
use crate::segments::{empty_outcome, empty_result, ResultSet, ResultView, Segment};
use crate::text::{
    decimal, lines, lines_text, parse_i32, parsed_i32, push_decimal, trim_end, trimmed_end,
};
use crate::themes::painter::{bg_text, bgcolor, fg_text, fgcolor};
use crate::themes::{
    Colorcode, Symbols, Theme, GIT_AHEAD_BG, GIT_AHEAD_FG, GIT_BEHIND_BG, GIT_BEHIND_FG,
    GIT_CONFLICTED_BG, GIT_CONFLICTED_FG, GIT_NOTSTAGED_BG, GIT_NOTSTAGED_FG, GIT_STAGED_BG,
    GIT_STAGED_FG, GIT_UNTRACKED_BG, GIT_UNTRACKED_FG, REPO_CLEAN_BG, REPO_CLEAN_FG, REPO_DIRTY_BG,
    REPO_DIRTY_FG, THEME_SIZE,
};

verus! {

/// The glyph of a badge and the palette slots of its colours.
pub struct RepoSet {
    pub symbol: &'static str,
    pub fg: usize,
    pub bg: usize,
}

impl RepoSet {
    /// Both slots are slots of the palette.
    pub open spec fn wf(&self) -> bool {
        self.fg < THEME_SIZE && self.bg < THEME_SIZE
    }
}

/// The badge for commits that the remote branch lacks.
pub open spec fn ahead_set() -> RepoSet {
    RepoSet { symbol: "\u{2B06}", fg: GIT_AHEAD_FG, bg: GIT_AHEAD_BG }
}

/// The badge for commits that the remote branch lacks.
pub fn ahead_badge() -> (r: RepoSet)
    ensures
        r == ahead_set(),
{
    RepoSet { symbol: "\u{2B06}", fg: GIT_AHEAD_FG, bg: GIT_AHEAD_BG }
}

/// The badge for commits that the local branch lacks.
pub open spec fn behind_set() -> RepoSet {
    RepoSet { symbol: "\u{2B07}", fg: GIT_BEHIND_FG, bg: GIT_BEHIND_BG }
}

/// The badge for commits that the local branch lacks.
pub fn behind_badge() -> (r: RepoSet)
    ensures
        r == behind_set(),
{
    RepoSet { symbol: "\u{2B07}", fg: GIT_BEHIND_FG, bg: GIT_BEHIND_BG }
}

/// The badge for staged changes.
pub open spec fn staged_set() -> RepoSet {
    RepoSet { symbol: "\u{2714}", fg: GIT_STAGED_FG, bg: GIT_STAGED_BG }
}

/// The badge for staged changes.
pub fn staged_badge() -> (r: RepoSet)
    ensures
        r == staged_set(),
{
    RepoSet { symbol: "\u{2714}", fg: GIT_STAGED_FG, bg: GIT_STAGED_BG }
}

/// The badge for changes that are not staged.
pub open spec fn changed_set() -> RepoSet {
    RepoSet { symbol: "\u{270E}", fg: GIT_NOTSTAGED_FG, bg: GIT_NOTSTAGED_BG }
}

/// The badge for changes that are not staged.
pub fn changed_badge() -> (r: RepoSet)
    ensures
        r == changed_set(),
{
    RepoSet { symbol: "\u{270E}", fg: GIT_NOTSTAGED_FG, bg: GIT_NOTSTAGED_BG }
}

/// The badge for untracked files.
pub open spec fn new_set() -> RepoSet {
    RepoSet { symbol: "?", fg: GIT_UNTRACKED_FG, bg: GIT_UNTRACKED_BG }
}

/// The badge for untracked files.
pub fn new_badge() -> (r: RepoSet)
    ensures
        r == new_set(),
{
    RepoSet { symbol: "?", fg: GIT_UNTRACKED_FG, bg: GIT_UNTRACKED_BG }
}

/// The badge for files in conflict.
pub open spec fn conflicted_set() -> RepoSet {
    RepoSet { symbol: "\u{273C}", fg: GIT_CONFLICTED_FG, bg: GIT_CONFLICTED_BG }
}

/// The badge for files in conflict.
pub fn conflicted_badge() -> (r: RepoSet)
    ensures
        r == conflicted_set(),
{
    RepoSet { symbol: "\u{273C}", fg: GIT_CONFLICTED_FG, bg: GIT_CONFLICTED_BG }
}

/// The colours of a badge in a palette.
pub fn get_fg_bg_for_repo_set(theme: Theme, reposet: &RepoSet) -> (r: (Colorcode, Colorcode))
    requires
        reposet.wf(),
    ensures
        r == (theme[reposet.fg as int], theme[reposet.bg as int]),
{
    (theme[reposet.fg], theme[reposet.bg])
}

/// Shows the branch and the pending changes of the repository.
pub struct GitSegment<'a> {
    /// The options of this one segment, where its entry gave any.
    pub options: Option<&'a ConfigMap>,
}

/// What the branch line of a status tells.
pub struct BranchInfo {
    pub local: String,
    pub remote: String,
    pub ahead: i32,
    pub behind: i32,
}

/// A `BranchInfo` with its names as sequences of characters.
pub struct BranchInfoView {
    pub local: Seq<char>,
    pub remote: Seq<char>,
    pub ahead: i32,
    pub behind: i32,
}

impl View for BranchInfo {
    type V = BranchInfoView;

    open spec fn view(&self) -> BranchInfoView {
        BranchInfoView {
            local: self.local@,
            remote: self.remote@,
            ahead: self.ahead,
            behind: self.behind,
        }
    }
}

/// The branch line of a porcelain status: `## local`, then, where the
/// branch tracks another, three dots, the remote branch and, in square
/// brackets, by how many commits the local one is ahead and behind.
pub const BRANCH_PATTERN: &'static str =
    r"^## (?P<local>\S+?)(\.{3}(?P<remote>\S+?)( \[(ahead (?P<ahead>\d+)(, )?)?(behind (?P<behind>\d+))?\])?)?$";

/// What a search of `haystack` for the regular expression `pattern` finds
/// for the capture groups called `names`: `None` where the pattern does not
/// compile or matches nowhere; else, for the leftmost match, the
/// text of each named group in the order of `names`, `None` for a group that
/// took no part in the match or that the pattern does not have.
pub uninterp spec fn named_captures(
    pattern: Seq<char>,
    haystack: Seq<char>,
    names: Seq<Seq<char>>,
) -> Option<Seq<Option<Seq<char>>>>;

/// Searches with the `regex` crate: `Regex::new` compiles the pattern,
/// `Regex::captures` finds the leftmost match, and `Captures::name` gives
/// the text of each group asked for. The contract claims that the outcome
/// depends on the three arguments alone and calls it `named_captures`;
/// nothing here proves what the crate finds.
#[verifier::external_body]
fn search(pattern: &str, haystack: &str, names: &Vec<&str>) -> (r: Option<Vec<Option<String>>>)
    ensures
        r.deep_view() == named_captures(pattern@, haystack@, names.deep_view()),
{
    match regex::Regex::new(pattern) {
        Ok(re) => re.captures(haystack).map(
            |caps| names.iter().map(|n| caps.name(n).map(|m| m.as_str().to_string())).collect(),
        ),
        Err(_) => None,
    }
}

/// The text of group `i`, if the group matched.
pub open spec fn group(groups: Seq<Option<Seq<char>>>, i: int) -> Option<Seq<char>> {
    if 0 <= i < groups.len() {
        groups[i]
    } else {
        None
    }
}

/// The text of a group that matched, the empty text for one that did not.
pub open spec fn name_of(group: Option<Seq<char>>) -> Seq<char> {
    match group {
        Some(text) => text,
        None => Seq::<char>::empty(),
    }
}

/// The number that a group holds; 0 for a group that did not match or that
/// holds no number that an `i32` can hold.
pub open spec fn count_of(group: Option<Seq<char>>) -> i32 {
    match group {
        Some(text) => match parsed_i32(text) {
            Some(v) => v,
            None => 0,
        },
        None => 0,
    }
}

/// What the groups `local`, `remote`, `ahead` and `behind` of a matched
/// branch line tell, in this order; nothing where the line did not match.
pub open spec fn branch_info_of(found: Option<Seq<Option<Seq<char>>>>) -> Option<BranchInfoView> {
    match found {
        Some(groups) => Some(
            BranchInfoView {
                local: name_of(group(groups, 0)),
                remote: name_of(group(groups, 1)),
                ahead: count_of(group(groups, 2)),
                behind: count_of(group(groups, 3)),
            },
        ),
        None => None,
    }
}

fn group_text(groups: &Vec<Option<String>>, i: usize) -> (r: String)
    ensures
        r@ == name_of(group(groups.deep_view(), i as int)),
{
    if i < groups.len() {
        match &groups[i] {
            Some(text) => text.clone(),
            None => String::new(),
        }
    } else {
        String::new()
    }
}

fn group_count(groups: &Vec<Option<String>>, i: usize) -> (r: i32)
    ensures
        r == count_of(group(groups.deep_view(), i as int)),
{
    if i < groups.len() {
        match &groups[i] {
            Some(text) => match parse_i32(text.as_str()) {
                Some(v) => v,
                None => 0,
            },
            None => 0,
        }
    } else {
        0
    }
}

/// Reads the branch information off the groups `local`, `remote`, `ahead`
/// and `behind` of a matched branch line.
pub fn branch_info_from(found: Option<Vec<Option<String>>>) -> (r: Option<BranchInfo>)
    ensures
        r.is_some() == found.is_some(),
        r matches Some(info) ==> Some(info@) == branch_info_of(found.deep_view()),
{
    match found {
        Some(groups) => Some(
            BranchInfo {
                local: group_text(&groups, 0),
                remote: group_text(&groups, 1),
                ahead: group_count(&groups, 2),
                behind: group_count(&groups, 3),
            },
        ),
        None => None,
    }
}

/// The names of the groups that `branch_info_from` reads, in its order.
pub open spec fn branch_groups() -> Seq<Seq<char>> {
    seq!["local"@, "remote"@, "ahead"@, "behind"@]
}

/// What the branch line `input` tells; nothing where it is no branch line.
pub open spec fn branch_info(input: Seq<char>) -> Option<BranchInfoView> {
    branch_info_of(named_captures(BRANCH_PATTERN@, input, branch_groups()))
}

/// Reads the branch line of a porcelain status.
pub fn parse_git_branch_info(input: &str) -> (r: Option<BranchInfo>)
    ensures
        r.is_some() == branch_info(input@).is_some(),
        r matches Some(info) ==> Some(info@) == branch_info(input@),
{
    let names: Vec<&str> = vec!["local", "remote", "ahead", "behind"];
    assert(names.deep_view() =~= branch_groups());
    branch_info_from(search(BRANCH_PATTERN, input, &names))
}

/// A count in a badge: nothing for less than two, else the numeral.
pub open spec fn number_or_blank_text(number: i32) -> Seq<char> {
    if number < 2 {
        Seq::<char>::empty()
    } else {
        decimal(number as int)
    }
}

/// A count as a badge shows it: nothing for less than two.
pub fn number_or_blank(number: i32) -> (r: String)
    ensures
        r@ == number_or_blank_text(number),
{
    let mut r = String::new();
    if number >= 2 {
        push_decimal(&mut r, number as i64);
    }
    r
}

/// How many files of each kind a status lists.
pub struct RepoStats {
    pub new: i32,
    pub conflicted: i32,
    pub changed: i32,
    pub staged: i32,
    /// Commits ahead of the remote branch, from the branch line.
    pub ahead: i32,
    /// Commits behind the remote branch, from the branch line.
    pub behind: i32,
}

impl RepoStats {
    /// Whether the working tree differs from the last commit.
    pub open spec fn spec_dirty(&self) -> bool {
        self.new + self.conflicted + self.changed + self.staged > 0
    }

    /// Whether the working tree differs from the last commit.
    pub fn dirty(&self) -> (r: bool)
        ensures
            r == self.spec_dirty(),
    {
        (self.new as i64) + (self.conflicted as i64) + (self.changed as i64) + (self.staged as i64)
            > 0
    }
}

/// Character `i` of a status line; a space where the line is too short.
pub open spec fn code_char(line: Seq<char>, i: int) -> char {
    if 0 <= i < line.len() {
        line[i]
    } else {
        ' '
    }
}

/// Whether a status line lists an untracked file: its code is `??`.
pub open spec fn is_untracked(line: Seq<char>) -> bool {
    code_char(line, 0) == '?' && code_char(line, 1) == '?'
}

/// Whether a status line lists a file in conflict: its code is one of `DD`,
/// `AU`, `UD`, `UA`, `DU`, `AA` and `UU`.
pub open spec fn is_conflict(line: Seq<char>) -> bool {
    let x = code_char(line, 0);
    let y = code_char(line, 1);
    ||| (x == 'D' && y == 'D')
    ||| (x == 'A' && y == 'U')
    ||| (x == 'U' && y == 'D')
    ||| (x == 'U' && y == 'A')
    ||| (x == 'D' && y == 'U')
    ||| (x == 'A' && y == 'A')
    ||| (x == 'U' && y == 'U')
}

/// Whether a status line lists a change that is not staged: neither
/// untracked nor in conflict, and the second character of its code is no
/// space.
pub open spec fn is_changed(line: Seq<char>) -> bool {
    !is_untracked(line) && !is_conflict(line) && code_char(line, 1) != ' '
}

/// Whether a status line lists a staged change: neither untracked nor in
/// conflict, and the first character of its code is no space.
pub open spec fn is_staged(line: Seq<char>) -> bool {
    !is_untracked(line) && !is_conflict(line) && code_char(line, 0) != ' '
}

/// One for a true condition, nothing for a false one.
pub open spec fn one_if(b: bool) -> nat {
    if b {
        1
    } else {
        0
    }
}

/// How many of the lines are untracked, in conflict, changed and staged, in
/// this order.
pub open spec fn tally(lines: Seq<Seq<char>>) -> (nat, nat, nat, nat)
    decreases lines.len(),
{
    if lines.len() == 0 {
        (0, 0, 0, 0)
    } else {
        let t = tally(lines.drop_last());
        let line = lines.last();
        (
            t.0 + one_if(is_untracked(line)),
            t.1 + one_if(is_conflict(line)),
            t.2 + one_if(is_changed(line)),
            t.3 + one_if(is_staged(line)),
        )
    }
}

/// A count as an `i32` holds it: the largest `i32` for any greater count.
pub open spec fn capped(n: nat) -> i32 {
    if n > i32::MAX {
        i32::MAX
    } else {
        n as i32
    }
}

/// The statistics of the file lines of a status; nothing is known of the
/// branch.
pub open spec fn stats_of(lines: Seq<Seq<char>>) -> RepoStats {
    let t = tally(lines);
    RepoStats {
        new: capped(t.0),
        conflicted: capped(t.1),
        changed: capped(t.2),
        staged: capped(t.3),
        ahead: 0,
        behind: 0,
    }
}

fn count_up(n: i32) -> (r: i32)
    requires
        n >= 0,
    ensures
        n < i32::MAX ==> r == n + 1,
        n == i32::MAX ==> r == n,
{
    if n < i32::MAX {
        n + 1
    } else {
        n
    }
}

/// Counts the file lines of a porcelain status by their two-letter codes.
pub fn parse_git_stats(lines: &[String]) -> (r: RepoStats)
    ensures
        r == stats_of(lines.deep_view()),
{
    let mut new: i32 = 0;
    let mut conflicted: i32 = 0;
    let mut changed: i32 = 0;
    let mut staged: i32 = 0;
    let ghost all = lines.deep_view();
    let mut i: usize = 0;
    assert(all.take(0) =~= Seq::<Seq<char>>::empty());
    while i < lines.len()
        invariant
            i <= lines.len(),
            all == lines.deep_view(),
            new == capped(tally(all.take(i as int)).0),
            conflicted == capped(tally(all.take(i as int)).1),
            changed == capped(tally(all.take(i as int)).2),
            staged == capped(tally(all.take(i as int)).3),
        decreases lines.len() - i,
    {
        let line = lines[i].as_str();
        assert(all.take(i + 1).drop_last() =~= all.take(i as int));
        assert(all.take(i + 1).last() == line@);
        let n = line.unicode_len();
        let x = if n > 0 {
            line.get_char(0)
        } else {
            ' '
        };
        let y = if n > 1 {
            line.get_char(1)
        } else {
            ' '
        };
        assert(x == code_char(line@, 0) && y == code_char(line@, 1));
        if x == '?' && y == '?' {
            new = count_up(new);
        } else if (x == 'D' && y == 'D') || (x == 'A' && y == 'U') || (x == 'U' && y == 'D') || (x
            == 'U' && y == 'A') || (x == 'D' && y == 'U') || (x == 'A' && y == 'A') || (x == 'U' && y
            == 'U') {
            conflicted = count_up(conflicted);
        } else {
            if y != ' ' {
                changed = count_up(changed);
            }
            if x != ' ' {
                staged = count_up(staged);
            }
        }
        i += 1;
    }
    assert(all.take(i as int) =~= all);
    RepoStats { new, conflicted, changed, staged, ahead: 0, behind: 0 }
}

/// One badge: nothing for a count below one. Else a separator in the
/// colour `upstream` on the badge's background, then the count and the
/// glyph in the badge's colours. With it goes the background that the next
/// separator continues: the badge's own, or `upstream` where nothing was
/// written.
pub open spec fn vcs_part(
    theme: Theme,
    symbols: Symbols,
    value: i32,
    repo_set: RepoSet,
    upstream: Colorcode,
) -> (Seq<char>, Colorcode) {
    if value < 1 {
        (Seq::<char>::empty(), upstream)
    } else {
        let fg = theme[repo_set.fg as int];
        let bg = theme[repo_set.bg as int];
        (
            fg_text(upstream) + bg_text(bg) + symbols.separator@ + fg_text(fg) + bg_text(bg)
                + seq![' '] + number_or_blank_text(value) + repo_set.symbol@ + seq![' '],
            bg,
        )
    }
}

/// Writes one badge.
pub fn add_vcs_part(
    theme: Theme,
    symbols: Symbols,
    value: i32,
    repo_set: &RepoSet,
    upstream: Colorcode,
) -> (r: (String, Colorcode))
    requires
        repo_set.wf(),
    ensures
        r@ == vcs_part(theme, symbols, value, *repo_set, upstream),
{
    if value < 1 {
        return (String::new(), upstream);
    }
    let (fg, bg) = get_fg_bg_for_repo_set(theme, repo_set);
    proof {
        reveal_strlit(" ");
        assert(" "@ =~= seq![' ']);
    }
    let mut ret_val = fgcolor(upstream);
    ret_val.append(bgcolor(bg).as_str());
    ret_val.append(symbols.separator);
    ret_val.append(fgcolor(fg).as_str());
    ret_val.append(bgcolor(bg).as_str());
    ret_val.append(" ");
    ret_val.append(number_or_blank(value).as_str());
    ret_val.append(repo_set.symbol);
    ret_val.append(" ");
    assert(ret_val@ =~= vcs_part(theme, symbols, value, *repo_set, upstream).0);
    (ret_val, bg)
}

/// The badges of a status one after the other: ahead, behind, staged,
/// changed, untracked, in conflict. Each separator takes its colour from
/// the badge before it, the first from `upstream`. With them goes the
/// background of the last badge written.
pub open spec fn vcs_details(
    theme: Theme,
    symbols: Symbols,
    upstream: Colorcode,
    repo_stats: RepoStats,
) -> (Seq<char>, Colorcode) {
    let a = vcs_part(theme, symbols, repo_stats.ahead, ahead_set(), upstream);
    let b = vcs_part(theme, symbols, repo_stats.behind, behind_set(), a.1);
    let c = vcs_part(theme, symbols, repo_stats.staged, staged_set(), b.1);
    let d = vcs_part(theme, symbols, repo_stats.changed, changed_set(), c.1);
    let e = vcs_part(theme, symbols, repo_stats.new, new_set(), d.1);
    let f = vcs_part(theme, symbols, repo_stats.conflicted, conflicted_set(), e.1);
    (a.0 + b.0 + c.0 + d.0 + e.0 + f.0, f.1)
}

/// Writes the badges of a status.
pub fn add_vcs_details(
    theme: Theme,
    symbols: Symbols,
    upstream: Colorcode,
    repo_stats: RepoStats,
) -> (r: (String, Colorcode))
    ensures
        r@ == vcs_details(theme, symbols, upstream, repo_stats),
{
    let mut result = String::new();

    let (data, cc) = add_vcs_part(theme, symbols, repo_stats.ahead, &ahead_badge(), upstream);
    result.append(data.as_str());

    let (data, cc) = add_vcs_part(theme, symbols, repo_stats.behind, &behind_badge(), cc);
    result.append(data.as_str());

    let (data, cc) = add_vcs_part(theme, symbols, repo_stats.staged, &staged_badge(), cc);
    result.append(data.as_str());

    let (data, cc) = add_vcs_part(theme, symbols, repo_stats.changed, &changed_badge(), cc);
    result.append(data.as_str());

    let (data, cc) = add_vcs_part(theme, symbols, repo_stats.new, &new_badge(), cc);
    result.append(data.as_str());

    let (data, cc) = add_vcs_part(theme, symbols, repo_stats.conflicted, &conflicted_badge(), cc);
    result.append(data.as_str());

    assert(result@ =~= vcs_details(theme, symbols, upstream, repo_stats).0);
    (result, cc)
}

/// The name shown for a head that is on no branch, from the run of
/// `git describe`: what it wrote, without the white space at its end. There
/// is no name where the run could not be started, did not succeed or wrote
/// no valid text.
pub open spec fn detached_name(describe: Execution) -> Option<Seq<char>> {
    match describe {
        Execution::Finished { success: true, output: Some(text) } => Some(trimmed_end(text@)),
        _ => None,
    }
}

/// The name shown for a head that is on no branch, if the run of `git
/// describe` gave one.
pub fn get_git_detached_branch(describe: &Execution) -> (r: Option<String>)
    ensures
        r.deep_view() == detached_name(*describe),
{
    match describe {
        Execution::Finished { success: true, output: Some(text) } => Some(trim_end(text.as_str())),
        _ => None,
    }
}

/// The view of branch information that may be missing.
pub open spec fn branch_view(branch: Option<BranchInfo>) -> Option<BranchInfoView> {
    match branch {
        Some(info) => Some(info@),
        None => None,
    }
}

/// The statistics of a status: the counts of its file lines (all lines but
/// the first), and ahead and behind as the branch line tells.
pub open spec fn status_stats(lines: Seq<Seq<char>>, branch: Option<BranchInfoView>) -> RepoStats {
    let counts = stats_of(lines.skip(1));
    RepoStats {
        new: counts.new,
        conflicted: counts.conflicted,
        changed: counts.changed,
        staged: counts.staged,
        ahead: match branch {
            Some(info) => info.ahead,
            None => 0,
        },
        behind: match branch {
            Some(info) => info.behind,
            None => 0,
        },
    }
}

/// The name that a status is shown under: the local branch, or for a head
/// on no branch the description of its commit, if there is one.
pub open spec fn shown_branch(branch: Option<BranchInfoView>, describe: Execution) -> Option<
    Seq<char>,
> {
    match branch {
        Some(info) => Some(info.local),
        None => detached_name(describe),
    }
}

/// The block for the lines of a status under the name `name`: the name
/// and the badges, in the dirty colours where files are pending and in the
/// clean ones otherwise; its separator continues the last badge.
pub open spec fn named_outcome(
    lines: Seq<Seq<char>>,
    branch: Option<BranchInfoView>,
    name: Seq<char>,
    prompt: &Prompt,
) -> ResultView {
    let stats = status_stats(lines, branch);
    let dirty = stats.spec_dirty();
    let fg = if dirty {
        prompt.theme[REPO_DIRTY_FG as int]
    } else {
        prompt.theme[REPO_CLEAN_FG as int]
    };
    let bg = if dirty {
        prompt.theme[REPO_DIRTY_BG as int]
    } else {
        prompt.theme[REPO_CLEAN_BG as int]
    };
    let details = vcs_details(prompt.theme, prompt.symbols, bg, stats);
    (seq![' '] + name + seq![' '] + details.0, fg, bg, Seq::<char>::empty(), details.1)
}

/// The block for the lines of a status, given what its branch line tells
/// (`branch`) and the run of `git describe`. No line means no repository
/// and no block. A head on no branch whose commit could not be described
/// gives no block either. Else the block holds the branch, or the
/// description of the commit, and the badges.
pub open spec fn status_outcome(
    lines: Seq<Seq<char>>,
    branch: Option<BranchInfoView>,
    describe: Execution,
    prompt: &Prompt,
) -> ResultView {
    if lines.len() == 0 {
        empty_outcome(prompt)
    } else {
        match shown_branch(branch, describe) {
            Some(name) => named_outcome(lines, branch, name, prompt),
            None => empty_outcome(prompt),
        }
    }
}

/// Computes the block for the lines of a status.
pub fn status_block(
    lines: &Vec<String>,
    branch: Option<BranchInfo>,
    describe: &Execution,
    prompt: &Prompt,
) -> (r: ResultSet)
    ensures
        r@ == status_outcome(lines.deep_view(), branch_view(branch), *describe, prompt),
{
    if lines.len() == 0 {
        return empty_result(prompt);
    }
    let files = slice_subrange(lines.as_slice(), 1, lines.len());
    assert(files.deep_view() =~= lines.deep_view().skip(1));
    let mut repo_stats = parse_git_stats(files);

    let branch_name = match branch {
        Some(bi) => {
            repo_stats.ahead = bi.ahead;
            repo_stats.behind = bi.behind;
            bi.local
        },
        None => match get_git_detached_branch(describe) {
            Some(name) => name,
            None => {
                return empty_result(prompt);
            },
        },
    };
    assert(repo_stats == status_stats(lines.deep_view(), branch_view(branch)));
    assert(Some(branch_name@) == shown_branch(branch_view(branch), *describe));

    let fg;
    let bg;
    if repo_stats.dirty() {
        fg = prompt.theme[REPO_DIRTY_FG];
        bg = prompt.theme[REPO_DIRTY_BG];
    } else {
        fg = prompt.theme[REPO_CLEAN_FG];
        bg = prompt.theme[REPO_CLEAN_BG];
    }

    proof {
        reveal_strlit(" ");
        assert(" "@ =~= seq![' ']);
    }
    let mut git_line = String::from_str(" ");
    git_line.append(branch_name.as_str());
    git_line.append(" ");

    let (data, cc) = add_vcs_details(prompt.theme, prompt.symbols, bg, repo_stats);
    git_line.append(data.as_str());

    (git_line, fg, bg, String::new(), cc)
}

/// What the first line of a status tells of the branch.
pub open spec fn branch_of(lines: Seq<Seq<char>>) -> Option<BranchInfoView> {
    if lines.len() > 0 {
        branch_info(lines[0])
    } else {
        None
    }
}

/// The block for the run of `git status`: nothing where git could not be
/// started, else the block of the status that it wrote.
pub open spec fn git_outcome(prompt: &Prompt) -> ResultView {
    match prompt.host.git_status {
        Execution::NotStarted => empty_outcome(prompt),
        Execution::Finished { success, output } => {
            let lines = lines_text(written(output));
            status_outcome(lines, branch_of(lines), prompt.host.git_describe, prompt)
        },
    }
}

/// Whether the block for a status needs the run of `git describe`: the
/// status has a first line, and that is no branch line.
pub open spec fn describe_needed(status: Execution) -> bool {
    match status {
        Execution::NotStarted => false,
        Execution::Finished { success, output } => {
            let lines = lines_text(written(output));
            lines.len() > 0 && branch_of(lines).is_none()
        },
    }
}

fn status_lines(output: &Option<String>) -> (r: Vec<String>)
    ensures
        r.deep_view() == lines_text(written(*output)),
{
    match output {
        Some(text) => lines(text.as_str()),
        None => {
            proof {
                reveal_strlit("");
            }
            lines("")
        },
    }
}

fn first_line_branch(lines: &Vec<String>) -> (r: Option<BranchInfo>)
    ensures
        branch_view(r) == branch_of(lines.deep_view()),
{
    if lines.len() > 0 {
        assert(lines.deep_view()[0] == lines@[0]@);
        parse_git_branch_info(lines[0].as_str())
    } else {
        None
    }
}

/// A git that cannot be run leaves no trace: there is no block where
/// `git status` could not be started, and none for a head on no branch where
/// `git describe` could not be started, did not succeed or wrote no valid
/// text.
pub proof fn lemma_failed_git_gives_no_block(prompt: &Prompt)
    ensures
        prompt.host.git_status is NotStarted ==> git_outcome(prompt) == empty_outcome(prompt),
        describe_needed(prompt.host.git_status) && detached_name(prompt.host.git_describe).is_none()
            ==> git_outcome(prompt) == empty_outcome(prompt),
{
}

impl<'a> GitSegment<'a> {
    /// Whether the block for the status `status` needs the run of `git
    /// describe`. Where it does not, the block is the same whatever that run
    /// gave.
    pub fn needs_describe(status: &Execution) -> (r: bool)
        ensures
            r == describe_needed(*status),
    {
        match status {
            Execution::NotStarted => false,
            Execution::Finished { success, output } => {
                let lines = status_lines(output);
                lines.len() > 0 && first_line_branch(&lines).is_none()
            },
        }
    }
}

impl<'a> Segment for GitSegment<'a> {
    open spec fn outcome(&self, prompt: &Prompt) -> ResultView {
        git_outcome(prompt)
    }

    fn compute(&self, prompt: &Prompt) -> (r: ResultSet) {
        match &prompt.host.git_status {
            Execution::NotStarted => empty_result(prompt),
            Execution::Finished { success, output } => {
                let lines = status_lines(output);
                let branch = first_line_branch(&lines);
                status_block(&lines, branch, &prompt.host.git_describe, prompt)
            },
        }
    }
}

} // verus!
