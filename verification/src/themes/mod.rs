//! Colour codes, the palette and the glyph sets.

use vstd::prelude::*;
use vstd::string::*;
use crate::text::str_eq;

pub mod default;
pub mod painter;

verus! {

/// A terminal colour: an index into the 256-colour table, or the one reserved
/// value held by the palette's `RESET` slot, which stands for "no colour".
pub type Colorcode = i32;

/// The number of slots in a palette.
pub const THEME_SIZE: usize = 53;

/// A palette: one colour for each named slot.
pub type Theme = [Colorcode; THEME_SIZE];

pub const RESET: usize = 0;

pub const USERNAME_FG: usize = 1;

pub const USERNAME_BG: usize = 2;

pub const USERNAME_ROOT_BG: usize = 3;

pub const HOSTNAME_FG: usize = 4;

pub const HOSTNAME_BG: usize = 5;

/// A switch rather than a colour: 1 when the home marker gets colours of its own.
pub const HOME_SPECIAL_DISPLAY: usize = 6;

pub const HOME_BG: usize = 7;

pub const HOME_FG: usize = 8;

pub const PATH_BG: usize = 9;

pub const PATH_FG: usize = 10;

pub const CWD_FG: usize = 11;

pub const SEPARATOR_FG: usize = 12;

pub const READONLY_BG: usize = 13;

pub const READONLY_FG: usize = 14;

pub const SSH_BG: usize = 15;

pub const SSH_FG: usize = 16;

pub const REPO_CLEAN_BG: usize = 17;

pub const REPO_CLEAN_FG: usize = 18;

pub const REPO_DIRTY_BG: usize = 19;

pub const REPO_DIRTY_FG: usize = 20;

pub const JOBS_FG: usize = 21;

pub const JOBS_BG: usize = 22;

pub const CMD_PASSED_BG: usize = 23;

pub const CMD_PASSED_FG: usize = 24;

pub const CMD_FAILED_BG: usize = 25;

pub const CMD_FAILED_FG: usize = 26;

pub const SVN_CHANGES_BG: usize = 27;

pub const SVN_CHANGES_FG: usize = 28;

pub const GIT_AHEAD_BG: usize = 29;

pub const GIT_AHEAD_FG: usize = 30;

pub const GIT_BEHIND_BG: usize = 31;

pub const GIT_BEHIND_FG: usize = 32;

pub const GIT_STAGED_BG: usize = 33;

pub const GIT_STAGED_FG: usize = 34;

pub const GIT_NOTSTAGED_BG: usize = 35;

pub const GIT_NOTSTAGED_FG: usize = 36;

pub const GIT_UNTRACKED_BG: usize = 37;

pub const GIT_UNTRACKED_FG: usize = 38;

pub const GIT_CONFLICTED_BG: usize = 39;

pub const GIT_CONFLICTED_FG: usize = 40;

pub const GIT_STASH_BG: usize = 41;

pub const GIT_STASH_FG: usize = 42;

pub const VIRTUAL_ENV_BG: usize = 43;

pub const VIRTUAL_ENV_FG: usize = 44;

pub const BATTERY_NORMAL_BG: usize = 45;

pub const BATTERY_NORMAL_FG: usize = 46;

pub const BATTERY_LOW_BG: usize = 47;

pub const BATTERY_LOW_FG: usize = 48;

pub const AWS_PROFILE_FG: usize = 49;

pub const AWS_PROFILE_BG: usize = 50;

pub const TIME_FG: usize = 51;

pub const TIME_BG: usize = 52;

/// The glyphs a prompt is drawn with.
#[derive(Clone, Copy)]
pub struct Symbols {
    pub lock: &'static str,
    pub network: &'static str,
    pub separator: &'static str,
    pub separator_thin: &'static str,
}

/// The glyph set for fonts without the extra prompt glyphs.
pub open spec fn compatible_symbols() -> Symbols {
    Symbols { lock: "RO", network: "SSH", separator: "\u{25B6}", separator_thin: "\u{276F}" }
}

/// The glyph set for fonts patched with the prompt glyphs.
pub open spec fn patched_symbols() -> Symbols {
    Symbols {
        lock: "\u{E0A2}",
        network: "SSH",
        separator: "\u{E0B0}",
        separator_thin: "\u{E0B1}",
    }
}

/// The glyph set without separators.
pub open spec fn flat_symbols() -> Symbols {
    Symbols { lock: "\u{E0A2}", network: "SSH", separator: "", separator_thin: "" }
}

/// The glyph set that a name selects: the patched one for any unknown name.
pub open spec fn symbolset_for_name(name: Seq<char>) -> Symbols {
    if name == "compatible"@ {
        compatible_symbols()
    } else if name == "flat"@ {
        flat_symbols()
    } else {
        patched_symbols()
    }
}

/// Selects a glyph set by name; any name but "compatible" and "flat" gives
/// the patched set.
pub fn get_symbolset_for_name(name: &str) -> (r: Symbols)
    ensures
        r == symbolset_for_name(name@),
{
    if str_eq(name, "compatible") {
        Symbols { lock: "RO", network: "SSH", separator: "\u{25B6}", separator_thin: "\u{276F}" }
    } else if str_eq(name, "flat") {
        Symbols { lock: "\u{E0A2}", network: "SSH", separator: "", separator_thin: "" }
    } else {
        Symbols {
            lock: "\u{E0A2}",
            network: "SSH",
            separator: "\u{E0B0}",
            separator_thin: "\u{E0B1}",
        }
    }
}

/// The escape template that a shell's name selects; empty for "bare" and for
/// any unknown shell.
pub open spec fn color_template(shell: Seq<char>) -> Seq<char> {
    if shell == "bash"@ {
        "\x1B[{}]"@
    } else if shell == "tcsh"@ {
        "%%{\x1B%s%%}"@
    } else if shell == "zsh"@ {
        "%%{%%}"@
    } else {
        Seq::<char>::empty()
    }
}

/// The escape template for the shell named `s`.
pub fn _get_color_templates(s: &str) -> (r: String)
    ensures
        r@ == color_template(s@),
{
    if str_eq(s, "bash") {
        String::from_str("\x1B[{}]")
    } else if str_eq(s, "tcsh") {
        String::from_str("%%{\x1B%s%%}")
    } else if str_eq(s, "zsh") {
        String::from_str("%%{%%}")
    } else {
        String::new()
    }
}

} // verus!
