//! The working directory: home replaced by a marker, the middle of a deep
//! path cut out, each component a colour block of its own.

use vstd::prelude::*;
use vstd::string::*;
use crate::config::{ConfigMap, ConfigValue};
use crate::host::Host;
use crate::prompt::Prompt;
use crate::segments::{empty_outcome, empty_result, ResultSet, ResultView, Segment};
use crate::text::{
    followed_by, join, join_text, lowered, lowered_is, split, split_text, starts_with, str_eq,
    take_chars,
};
use crate::themes::painter::{bg_text, bgcolor, fg_text, fgcolor};
use crate::themes::{
    Colorcode, Theme, CWD_FG, HOME_BG, HOME_FG, HOME_SPECIAL_DISPLAY, PATH_BG, PATH_FG, RESET,
    SEPARATOR_FG,
};

verus! {

/// Shows the working directory.
pub struct CwdSegment<'a> {
    /// The options of this one segment, where its entry gave any.
    pub options: Option<&'a ConfigMap>,
    /// The options that the configuration holds for all `cwd` segments:
    /// `mode`, `max_dir_size`, `max_depth` and `full_cwd`.
    pub global_config: Option<&'a ConfigMap>,
}

/// How the path is laid out.
#[derive(PartialEq, Eq, Structural, Clone, Copy, Debug)]
pub enum Mode {
    /// One block with the path as plain text.
    Plain,
    /// Only the last component.
    DirOnly,
    /// Every component a block of its own.
    Expand,
}

/// The placeholder for the components that were cut out of a deep path.
pub const ELLIPSIS: &'static str = "\u{2026}";

/// The name that stands for the home directory.
pub const HOME_MARKER: &'static str = "~";

/// The depth beyond which a path is cut, where the configuration gives none.
pub const DEFAULT_MAX_DEPTH: u64 = 5;

/// The boolean that `config` holds under `key`; false where it holds none.
pub open spec fn flag_of(config: Option<&ConfigMap>, key: Seq<char>) -> bool {
    match config {
        Some(gc) => match gc.spec_get(key) {
            Some(ConfigValue::Bool(v)) => v,
            _ => false,
        },
        None => false,
    }
}

/// The number that `config` holds under `key`; `default_value` where it
/// holds none, or one that is no whole number from 0 to 2^64 - 1.
pub open spec fn number_of(config: Option<&ConfigMap>, key: Seq<char>, default_value: u64) -> u64 {
    match config {
        Some(gc) => match gc.spec_get(key) {
            Some(ConfigValue::Number(Some(v))) => v,
            _ => default_value,
        },
        None => default_value,
    }
}

/// The mode that `config` names under `mode`, whatever the case of its
/// letters: `Expand` where it names none, or one that is not known.
pub open spec fn mode_of(config: Option<&ConfigMap>) -> Mode {
    match config {
        Some(gc) => match gc.spec_get("mode"@) {
            Some(ConfigValue::String(s)) => if lowered(s@) == "plain"@ {
                Mode::Plain
            } else if lowered(s@) == "dironly"@ {
                Mode::DirOnly
            } else {
                Mode::Expand
            },
            _ => Mode::Expand,
        },
        None => Mode::Expand,
    }
}

/// `path` with a leading `home` replaced by the home marker.
pub open spec fn home_replaced(path: Seq<char>, home: Option<Seq<char>>) -> Seq<char> {
    match home {
        Some(h) => if h.is_prefix_of(path) {
            HOME_MARKER@ + path.skip(h.len() as int)
        } else {
            path
        },
        None => path,
    }
}

/// The components of `path`: what stands between its slashes, a leading
/// slash left aside.
pub open spec fn path_components(path: Seq<char>) -> Seq<Seq<char>> {
    if path.len() > 0 && path[0] == '/' {
        split_text(path.skip(1), '/')
    } else {
        split_text(path, '/')
    }
}

/// The path to show: the variable `PWD` where it is set, else the working
/// directory of the process, if that is known.
pub open spec fn working_path(host: &Host) -> Option<Seq<char>> {
    match host.spec_variable("PWD"@) {
        Some(p) => Some(p),
        None => match host.current_dir {
            Some(d) => Some(d@),
            None => None,
        },
    }
}

/// The components of the path to show, with the home directory (the
/// variable `HOME`) replaced; none where the path is not known.
pub open spec fn cwd_names(host: &Host) -> Seq<Seq<char>> {
    match working_path(host) {
        Some(p) => path_components(home_replaced(p, host.spec_variable("HOME"@))),
        None => Seq::<Seq<char>>::empty(),
    }
}

/// How many leading components a path cut to `max_depth` keeps: two, or
/// `max_depth - 1` where that is less.
pub open spec fn kept_before(max_depth: u64) -> int {
    if max_depth > 2 {
        2
    } else {
        max_depth - 1
    }
}

/// The components after the cut. A path of more than `max_depth` components
/// keeps `kept_before(max_depth)` of them at its start, then the ellipsis,
/// then one more than that from its end. A `max_depth` of 0 cuts nothing.
pub open spec fn shortened(names: Seq<Seq<char>>, max_depth: u64) -> Seq<Seq<char>> {
    if max_depth >= 1 && names.len() > max_depth {
        let n = kept_before(max_depth);
        names.take(n) + seq![ELLIPSIS@] + names.skip(names.len() - (n + 1))
    } else {
        names
    }
}

/// Whether a component is shown as the home marker.
pub open spec fn is_home_marker(name: Seq<char>, home_special_display: bool) -> bool {
    name == HOME_MARKER@ && home_special_display
}

/// Foreground and background of a component, and whether it is shown as the
/// home marker.
pub open spec fn component_colors(
    name: Seq<char>,
    theme: &Theme,
    is_last_dir: bool,
    home_special_display: bool,
) -> (Colorcode, Colorcode, bool) {
    if is_home_marker(name, home_special_display) {
        (theme[HOME_FG as int], theme[HOME_BG as int], true)
    } else if is_last_dir {
        (theme[CWD_FG as int], theme[PATH_BG as int], false)
    } else {
        (theme[PATH_FG as int], theme[PATH_BG as int], false)
    }
}

/// A name cut to its first `max_dir_size` characters. A `max_dir_size` of 0
/// cuts nothing, and the ellipsis is never cut.
pub open spec fn shortened_name(name: Seq<char>, max_dir_size: u64) -> Seq<char> {
    if max_dir_size > 0 && max_dir_size < name.len() && name != ELLIPSIS@ {
        name.take(max_dir_size as int)
    } else {
        name
    }
}

/// The name as it is shown: cut to `max_dir_size`, but for the last
/// component where `full_cwd` is set.
pub open spec fn shown_name(
    name: Seq<char>,
    is_last_dir: bool,
    full_cwd: bool,
    max_dir_size: u64,
) -> Seq<char> {
    if is_last_dir && full_cwd {
        name
    } else {
        shortened_name(name, max_dir_size)
    }
}

/// What is written for component `i`: the separator from the component
/// before it (a thick one on the path background after the home marker, a
/// thin one otherwise; none before the first), then the component's colours
/// and its shown name between two spaces.
pub open spec fn component_text(
    names: Seq<Seq<char>>,
    i: int,
    prompt: &Prompt,
    full_cwd: bool,
    max_dir_size: u64,
) -> Seq<char> {
    let special = prompt.theme[HOME_SPECIAL_DISPLAY as int] == 1;
    let is_last = i == names.len() - 1;
    let colors = component_colors(names[i], &prompt.theme, is_last, special);
    (if i == 0 {
        Seq::<char>::empty()
    } else if is_home_marker(names[i - 1], special) {
        bg_text(prompt.theme[PATH_BG as int]) + fg_text(prompt.theme[HOME_BG as int])
            + prompt.symbols.separator@
    } else {
        fg_text(prompt.theme[SEPARATOR_FG as int]) + prompt.symbols.separator_thin@
    }) + bg_text(colors.1) + fg_text(colors.0) + seq![' '] + shown_name(
        names[i],
        is_last,
        full_cwd,
        max_dir_size,
    ) + seq![' ']
}

/// What is written for each component, in order.
pub open spec fn component_texts(
    names: Seq<Seq<char>>,
    prompt: &Prompt,
    full_cwd: bool,
    max_dir_size: u64,
) -> Seq<Seq<char>> {
    Seq::new(names.len(), |i: int| component_text(names, i, prompt, full_cwd, max_dir_size))
}

/// Whether one of the components is shown as the home marker.
pub open spec fn home_shown(names: Seq<Seq<char>>, home_special_display: bool) -> bool {
    exists|i: int| 0 <= i < names.len() && is_home_marker(#[trigger] names[i], home_special_display)
}

/// The block of a path laid out component by component. The block takes
/// the home colours where the home marker is among the components.
pub open spec fn expanded_outcome(
    names: Seq<Seq<char>>,
    prompt: &Prompt,
    full_cwd: bool,
    max_dir_size: u64,
) -> ResultView {
    let found = home_shown(names, prompt.theme[HOME_SPECIAL_DISPLAY as int] == 1);
    (
        component_texts(names, prompt, full_cwd, max_dir_size).flatten(),
        if found {
            prompt.theme[HOME_FG as int]
        } else {
            prompt.theme[CWD_FG as int]
        },
        if found {
            prompt.theme[HOME_BG as int]
        } else {
            prompt.theme[PATH_BG as int]
        },
        Seq::<char>::empty(),
        if found && names.len() == 1 {
            prompt.theme[HOME_BG as int]
        } else {
            prompt.theme[PATH_BG as int]
        },
    )
}

/// The block of a path written as plain text between two spaces.
pub open spec fn plain_outcome(names: Seq<Seq<char>>, prompt: &Prompt) -> ResultView {
    (
        seq![' '] + join_text(names, seq!['/']) + seq![' '],
        prompt.theme[CWD_FG as int],
        prompt.theme[PATH_BG as int],
        Seq::<char>::empty(),
        prompt.theme[RESET as int],
    )
}

/// The block for the components `names` of the working directory: nothing
/// where there are none; else the path is cut to `max_depth`, and laid out
/// as `mode` says.
pub open spec fn cwd_outcome(
    names: Seq<Seq<char>>,
    prompt: &Prompt,
    mode: Mode,
    full_cwd: bool,
    max_depth: u64,
    max_dir_size: u64,
) -> ResultView {
    let cut = shortened(names, max_depth);
    if names.len() == 0 {
        empty_outcome(prompt)
    } else if mode == Mode::Plain {
        plain_outcome(cut, prompt)
    } else if mode == Mode::DirOnly {
        expanded_outcome(seq![cut.last()], prompt, full_cwd, max_dir_size)
    } else {
        expanded_outcome(cut, prompt, full_cwd, max_dir_size)
    }
}

/// Cutting names to `max_dir_size` never shortens the ellipsis, and never
/// the last component where `full_cwd` is set.
pub proof fn lemma_cut_spares_ellipsis_and_full_cwd(
    name: Seq<char>,
    is_last_dir: bool,
    full_cwd: bool,
    max_dir_size: u64,
)
    ensures
        shown_name(ELLIPSIS@, is_last_dir, full_cwd, max_dir_size) == ELLIPSIS@,
        full_cwd ==> shown_name(name, true, full_cwd, max_dir_size) == name,
        shown_name(name, is_last_dir, full_cwd, max_dir_size).is_prefix_of(name),
{
    let shown = shown_name(name, is_last_dir, full_cwd, max_dir_size);
    assert(shown =~= name.subrange(0, shown.len() as int));
}

/// What is written for a component ends with its shown name between two
/// spaces: with the whole ellipsis where the component is the ellipsis, and
/// with the whole name where it is the last one and `full_cwd` is set.
pub proof fn lemma_component_text_ends_with_shown_name(
    names: Seq<Seq<char>>,
    i: int,
    prompt: &Prompt,
    full_cwd: bool,
    max_dir_size: u64,
)
    requires
        0 <= i < names.len(),
    ensures
        ({
            let text = component_text(names, i, prompt, full_cwd, max_dir_size);
            let tail = seq![' '] + shown_name(names[i], i == names.len() - 1, full_cwd, max_dir_size)
                + seq![' '];
            &&& tail.len() <= text.len()
            &&& text.subrange(text.len() - tail.len(), text.len() as int) == tail
            &&& names[i] == ELLIPSIS@ ==> tail == seq![' '] + ELLIPSIS@ + seq![' ']
            &&& full_cwd && i == names.len() - 1 ==> tail == seq![' '] + names[i] + seq![' ']
        }),
{
    let text = component_text(names, i, prompt, full_cwd, max_dir_size);
    let tail = seq![' '] + shown_name(names[i], i == names.len() - 1, full_cwd, max_dir_size) + seq![
        ' ',
    ];
    assert(text.subrange(text.len() - tail.len(), text.len() as int) =~= tail);
}

/// A path that is cut keeps its two ends. The cut path holds the first
/// `kept_before(max_depth)` components in their places, then the ellipsis,
/// then the last `kept_before(max_depth) + 1` components; its last
/// component is the path's last, and from a depth of 2 on its first is the
/// path's first.
pub proof fn lemma_cut_keeps_both_ends(names: Seq<Seq<char>>, max_depth: u64)
    requires
        max_depth >= 1,
        names.len() > max_depth,
    ensures
        ({
            let cut = shortened(names, max_depth);
            let n = kept_before(max_depth);
            &&& cut.len() == 2 * n + 2
            &&& cut.take(n) == names.take(n)
            &&& cut[n] == ELLIPSIS@
            &&& cut.skip(n + 1) == names.skip(names.len() - (n + 1))
            &&& cut.last() == names.last()
            &&& max_depth >= 2 ==> cut[0] == names[0]
        }),
{
    let cut = shortened(names, max_depth);
    let n = kept_before(max_depth);
    assert(cut.take(n) =~= names.take(n));
    assert(cut.skip(n + 1) =~= names.skip(names.len() - (n + 1)));
}

/// A path of no more than `max_depth` components is not cut, and a
/// `max_depth` of 0 cuts nothing.
pub proof fn lemma_short_path_is_kept(names: Seq<Seq<char>>, max_depth: u64)
    requires
        max_depth == 0 || names.len() <= max_depth,
    ensures
        shortened(names, max_depth) == names,
{
}

impl<'a> CwdSegment<'a> {
    /// Whether the last component is shown in full (`full_cwd`).
    pub fn get_full_cwd(&self) -> (r: bool)
        ensures
            r == flag_of(self.global_config, "full_cwd"@),
    {
        if let Some(gc) = self.global_config {
            if let Some(val) = gc.get("full_cwd") {
                match val {
                    ConfigValue::Bool(v) => {
                        return *v;
                    },
                    _ => {
                        return false;
                    },
                }
            }
            return false;
        }
        false
    }

    /// The layout (`mode`).
    pub fn get_mode(&self) -> (r: Mode)
        ensures
            r == mode_of(self.global_config),
    {
        if let Some(gc) = self.global_config {
            if let Some(val) = gc.get("mode") {
                match val {
                    ConfigValue::String(s) => {
                        if lowered_is(s.as_str(), "plain") {
                            return Mode::Plain;
                        } else if lowered_is(s.as_str(), "dironly") {
                            return Mode::DirOnly;
                        } else {
                            return Mode::Expand;
                        }
                    },
                    _ => {},
                }
            }
        }
        Mode::Expand
    }

    /// The number of characters that a component is cut to
    /// (`max_dir_size`); 0 stands for "no limit" and is the default.
    pub fn get_max_dir_size(&self) -> (r: u64)
        ensures
            r == number_of(self.global_config, "max_dir_size"@, 0),
    {
        self.get_number_or_default("max_dir_size", 0)
    }

    /// The number of components beyond which a path is cut (`max_depth`).
    pub fn get_max_depth(&self) -> (r: u64)
        ensures
            r == number_of(self.global_config, "max_depth"@, DEFAULT_MAX_DEPTH),
    {
        self.get_number_or_default("max_depth", DEFAULT_MAX_DEPTH)
    }

    /// The number configured under `key`, or `default_value`.
    pub fn get_number_or_default(&self, key: &str, default_value: u64) -> (r: u64)
        ensures
            r == number_of(self.global_config, key@, default_value),
    {
        if let Some(gc) = self.global_config {
            if let Some(val) = gc.get(key) {
                match val {
                    ConfigValue::Number(num) => {
                        if let Some(ret_val) = num {
                            return *ret_val;
                        }
                    },
                    _ => {
                        return default_value;
                    },
                }
            }
        }
        default_value
    }

    /// Replaces the home directory at the start of `path` by the marker.
    /// Without a variable `HOME` the path stays as it is.
    pub fn replace_homedir(&self, path: &str, host: &Host) -> (r: String)
        ensures
            r@ == home_replaced(path@, host.spec_variable("HOME"@)),
    {
        match host.variable("HOME") {
            Some(homedir) => {
                if starts_with(path, homedir.as_str()) {
                    let len = homedir.as_str().unicode_len();
                    let end = path.unicode_len();
                    followed_by(HOME_MARKER, path.substring_char(len, end))
                } else {
                    String::from_str(path)
                }
            },
            None => String::from_str(path),
        }
    }

    /// Foreground and background of a component, and whether it is shown as
    /// the home marker.
    pub fn get_fg_bg(
        &self,
        name: &str,
        theme: &Theme,
        is_last_dir: bool,
        home_special_display: bool,
    ) -> (r: (Colorcode, Colorcode, bool))
        ensures
            r == component_colors(name@, theme, is_last_dir, home_special_display),
    {
        if self.requires_special_home_display(home_special_display, name) {
            return (theme[HOME_FG], theme[HOME_BG], true);
        }
        if is_last_dir {
            (theme[CWD_FG], theme[PATH_BG], false)
        } else {
            (theme[PATH_FG], theme[PATH_BG], false)
        }
    }

    /// Whether a component is shown as the home marker.
    pub fn requires_special_home_display(&self, home_special_display: bool, name: &str) -> (r:
        bool)
        ensures
            r == is_home_marker(name@, home_special_display),
    {
        str_eq(name, HOME_MARKER) && home_special_display
    }

    /// Cuts a name to its first `max_dir_size` characters, unless that is 0
    /// or the name is the ellipsis.
    pub fn maybe_shorten_name(&self, name: &str, max_dir_size: u64) -> (r: String)
        ensures
            r@ == shortened_name(name@, max_dir_size),
    {
        if max_dir_size > 0 && !str_eq(name, ELLIPSIS) {
            take_chars(name, max_dir_size)
        } else {
            String::from_str(name)
        }
    }

    /// The components of the path to show; none where the path is not
    /// known.
    pub fn get_cwd(&self, host: &Host) -> (names: Vec<String>)
        ensures
            names.deep_view() == cwd_names(host),
            working_path(host).is_some() ==> names.len() >= 1,
    {
        let can_path = match host.variable("PWD") {
            Some(env_value) => self.replace_homedir(env_value.as_str(), host),
            None => match &host.current_dir {
                Some(p) => self.replace_homedir(p.as_str(), host),
                None => {
                    let none: Vec<String> = Vec::new();
                    assert(none.deep_view() =~= Seq::<Seq<char>>::empty());
                    return none;
                },
            },
        };
        let len = can_path.as_str().unicode_len();
        if len > 0 && can_path.as_str().get_char(0) == '/' {
            let rest = can_path.as_str().substring_char(1, len);
            assert(rest@ =~= can_path@.skip(1));
            split(rest, '/')
        } else {
            split(can_path.as_str(), '/')
        }
    }
}

/// Appends copies of `names[from..to]` to `out`.
fn extend_with(out: &mut Vec<String>, names: &Vec<String>, from: usize, to: usize)
    requires
        from <= to <= names.len(),
    ensures
        final(out).deep_view() == old(out).deep_view() + names.deep_view().subrange(
            from as int,
            to as int,
        ),
{
    let mut i = from;
    assert(out.deep_view() =~= old(out).deep_view() + names.deep_view().subrange(
        from as int,
        from as int,
    ));
    while i < to
        invariant
            from <= i <= to <= names.len(),
            out.deep_view() == old(out).deep_view() + names.deep_view().subrange(
                from as int,
                i as int,
            ),
        decreases to - i,
    {
        let ghost before = out.deep_view();
        out.push(names[i].clone());
        assert(out.deep_view() =~= before.push(names@[i as int]@));
        assert(names.deep_view().subrange(from as int, i + 1) =~= names.deep_view().subrange(
            from as int,
            i as int,
        ).push(names@[i as int]@));
        i += 1;
    }
}

/// Cuts the middle out of a path of more than `max_depth` components.
pub fn shorten(names: Vec<String>, max_depth: u64) -> (r: Vec<String>)
    ensures
        r.deep_view() == shortened(names.deep_view(), max_depth),
{
    if max_depth >= 1 && names.len() as u64 > max_depth {
        let n_before: usize = if max_depth > 2 {
            2
        } else {
            (max_depth - 1) as usize
        };
        let mut new_names: Vec<String> = Vec::new();
        assert(new_names.deep_view() =~= Seq::<Seq<char>>::empty());
        extend_with(&mut new_names, &names, 0, n_before);
        let ghost head = new_names.deep_view();
        new_names.push(String::from_str(ELLIPSIS));
        assert(new_names.deep_view() =~= head.push(ELLIPSIS@));
        extend_with(&mut new_names, &names, names.len() - (n_before + 1), names.len());
        assert(new_names.deep_view() =~= shortened(names.deep_view(), max_depth));
        new_names
    } else {
        names
    }
}

/// Writes component `idx` with the separator in front of it.
fn render_component(
    segment: &CwdSegment,
    names: &Vec<String>,
    idx: usize,
    prompt: &Prompt,
    full_cwd: bool,
    max_dir_size: u64,
) -> (out: String)
    requires
        idx < names.len(),
    ensures
        out@ == component_text(names.deep_view(), idx as int, prompt, full_cwd, max_dir_size),
{
    let home_special_display = prompt.theme[HOME_SPECIAL_DISPLAY] == 1;
    let is_last_dir = idx == names.len() - 1;
    let name = names[idx].as_str();
    assert(names.deep_view()[idx as int] == name@);
    let (fg, bg, _) = segment.get_fg_bg(name, &prompt.theme, is_last_dir, home_special_display);

    let shorty = if !(is_last_dir && full_cwd) {
        segment.maybe_shorten_name(name, max_dir_size)
    } else {
        String::from_str(name)
    };

    let mut out = String::new();
    if idx != 0 {
        assert(names.deep_view()[idx - 1] == names@[idx - 1]@);
        if segment.requires_special_home_display(home_special_display, names[idx - 1].as_str()) {
            out.append(bgcolor(prompt.theme[PATH_BG]).as_str());
            out.append(fgcolor(prompt.theme[HOME_BG]).as_str());
            out.append(prompt.symbols.separator);
        } else {
            out.append(fgcolor(prompt.theme[SEPARATOR_FG]).as_str());
            out.append(prompt.symbols.separator_thin);
        }
    }
    out.append(bgcolor(bg).as_str());
    out.append(fgcolor(fg).as_str());
    proof {
        reveal_strlit(" ");
        assert(" "@ =~= seq![' ']);
    }
    out.append(" ");
    out.append(shorty.as_str());
    out.append(" ");
    assert(out@ =~= component_text(names.deep_view(), idx as int, prompt, full_cwd, max_dir_size));
    out
}

/// Lays the components out, each a block of its own.
pub fn expand(
    segment: &CwdSegment,
    names: &Vec<String>,
    prompt: &Prompt,
    full_cwd: bool,
    max_dir_size: u64,
) -> (r: ResultSet)
    ensures
        r@ == expanded_outcome(names.deep_view(), prompt, full_cwd, max_dir_size),
{
    let home_special_display = prompt.theme[HOME_SPECIAL_DISPLAY] == 1;
    let mut cwd_result_string = String::new();
    let mut homedir_found = false;
    let ghost texts = component_texts(names.deep_view(), prompt, full_cwd, max_dir_size);
    let mut idx: usize = 0;
    assert(texts.take(0) =~= Seq::<Seq<char>>::empty());
    assert(cwd_result_string@ =~= texts.take(0).flatten());
    while idx < names.len()
        invariant
            idx <= names.len(),
            home_special_display == (prompt.theme[HOME_SPECIAL_DISPLAY as int] == 1),
            texts == component_texts(names.deep_view(), prompt, full_cwd, max_dir_size),
            cwd_result_string@ == texts.take(idx as int).flatten(),
            homedir_found == home_shown(names.deep_view().take(idx as int), home_special_display),
        decreases names.len() - idx,
    {
        let ghost seen = names.deep_view().take(idx as int);
        let ghost next = names.deep_view().take(idx + 1);
        assert(names.deep_view()[idx as int] == names@[idx as int]@);
        if segment.requires_special_home_display(home_special_display, names[idx].as_str()) {
            homedir_found = true;
            assert(is_home_marker(next[idx as int], home_special_display));
        } else {
            assert(home_shown(next, home_special_display) ==> home_shown(
                seen,
                home_special_display,
            )) by {
                if home_shown(next, home_special_display) {
                    let j = choose|j: int|
                        0 <= j < next.len() && is_home_marker(#[trigger] next[j], home_special_display);
                    assert(is_home_marker(seen[j], home_special_display));
                }
            }
            assert(home_shown(seen, home_special_display) ==> home_shown(
                next,
                home_special_display,
            )) by {
                if home_shown(seen, home_special_display) {
                    let j = choose|j: int|
                        0 <= j < seen.len() && is_home_marker(#[trigger] seen[j], home_special_display);
                    assert(is_home_marker(next[j], home_special_display));
                }
            }
        }
        let block = render_component(segment, names, idx, prompt, full_cwd, max_dir_size);
        cwd_result_string.append(block.as_str());
        proof {
            broadcast use Seq::lemma_flatten_push;

            assert(texts.take(idx + 1) =~= texts.take(idx as int).push(block@));
        }
        idx += 1;
    }
    assert(texts.take(idx as int) =~= texts);
    assert(names.deep_view().take(idx as int) =~= names.deep_view());

    let downstream = if homedir_found && names.len() == 1 {
        prompt.theme[HOME_BG]
    } else {
        prompt.theme[PATH_BG]
    };
    let fg = if homedir_found {
        prompt.theme[HOME_FG]
    } else {
        prompt.theme[CWD_FG]
    };
    let bg = if homedir_found {
        prompt.theme[HOME_BG]
    } else {
        prompt.theme[PATH_BG]
    };
    (cwd_result_string, fg, bg, String::new(), downstream)
}

/// Computes the block for the components `names` of the working directory.
pub fn layout(
    segment: &CwdSegment,
    names: Vec<String>,
    prompt: &Prompt,
    mode: Mode,
    full_cwd: bool,
    max_depth: u64,
    max_dir_size: u64,
) -> (r: ResultSet)
    ensures
        r@ == cwd_outcome(names.deep_view(), prompt, mode, full_cwd, max_depth, max_dir_size),
{
    if names.len() == 0 {
        return empty_result(prompt);
    }
    let names = shorten(names, max_depth);
    assert(names.len() >= 1) by {
        assert(names.deep_view().len() == names.len());
    }
    if mode == Mode::Plain {
        proof {
            reveal_strlit(" ");
            reveal_strlit("/");
            assert(" "@ =~= seq![' ']);
            assert("/"@ =~= seq!['/']);
        }
        let mut text = String::from_str(" ");
        text.append(join(&names, "/").as_str());
        text.append(" ");
        (text, prompt.theme[CWD_FG], prompt.theme[PATH_BG], String::new(), prompt.theme[RESET])
    } else if mode == Mode::DirOnly {
        let mut last: Vec<String> = Vec::new();
        last.push(names[names.len() - 1].clone());
        assert(last.deep_view() =~= seq![names.deep_view().last()]);
        expand(segment, &last, prompt, full_cwd, max_dir_size)
    } else {
        expand(segment, &names, prompt, full_cwd, max_dir_size)
    }
}

impl<'a> Segment for CwdSegment<'a> {
    open spec fn outcome(&self, prompt: &Prompt) -> ResultView {
        cwd_outcome(
            cwd_names(&prompt.host),
            prompt,
            mode_of(self.global_config),
            flag_of(self.global_config, "full_cwd"@),
            number_of(self.global_config, "max_depth"@, DEFAULT_MAX_DEPTH),
            number_of(self.global_config, "max_dir_size"@, 0),
        )
    }

    fn compute(&self, prompt: &Prompt) -> (r: ResultSet) {
        let names = self.get_cwd(&prompt.host);
        let full_cwd = self.get_full_cwd();
        let mode = self.get_mode();
        let max_depth = self.get_max_depth();
        let max_dir_size = self.get_max_dir_size();
        layout(self, names, prompt, mode, full_cwd, max_depth, max_dir_size)
    }
}

} // verus!
