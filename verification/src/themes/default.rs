//! The palette that ships with the library.

use vstd::prelude::*;
use crate::themes::{
    Colorcode, Theme, THEME_SIZE, RESET, USERNAME_FG, USERNAME_BG, USERNAME_ROOT_BG, HOSTNAME_FG,
    HOSTNAME_BG, HOME_SPECIAL_DISPLAY, HOME_BG, HOME_FG, PATH_BG, PATH_FG, CWD_FG, SEPARATOR_FG,
    READONLY_BG, READONLY_FG, SSH_BG, SSH_FG, REPO_CLEAN_BG, REPO_CLEAN_FG, REPO_DIRTY_BG,
    REPO_DIRTY_FG, JOBS_FG, JOBS_BG, CMD_PASSED_BG, CMD_PASSED_FG, CMD_FAILED_BG, CMD_FAILED_FG,
    SVN_CHANGES_BG, SVN_CHANGES_FG, GIT_AHEAD_BG, GIT_AHEAD_FG, GIT_BEHIND_BG, GIT_BEHIND_FG,
    GIT_STAGED_BG, GIT_STAGED_FG, GIT_NOTSTAGED_BG, GIT_NOTSTAGED_FG, GIT_UNTRACKED_BG,
    GIT_UNTRACKED_FG, GIT_CONFLICTED_BG, GIT_CONFLICTED_FG, GIT_STASH_BG, GIT_STASH_FG,
    VIRTUAL_ENV_BG, VIRTUAL_ENV_FG, BATTERY_NORMAL_BG, BATTERY_NORMAL_FG, BATTERY_LOW_BG,
    BATTERY_LOW_FG, AWS_PROFILE_FG, AWS_PROFILE_BG, TIME_FG, TIME_BG,
};

verus! {

/// Whether `theme` holds the default colour in every slot.
pub open spec fn is_default_theme(theme: Theme) -> bool {
    &&& theme[RESET as int] == -1
    &&& theme[USERNAME_FG as int] == 250
    &&& theme[USERNAME_BG as int] == 240
    &&& theme[USERNAME_ROOT_BG as int] == 124
    &&& theme[HOSTNAME_FG as int] == 250
    &&& theme[HOSTNAME_BG as int] == 238
    &&& theme[HOME_SPECIAL_DISPLAY as int] == 1
    &&& theme[HOME_BG as int] == 31
    &&& theme[HOME_FG as int] == 15
    &&& theme[PATH_BG as int] == 237
    &&& theme[PATH_FG as int] == 250
    &&& theme[CWD_FG as int] == 254
    &&& theme[SEPARATOR_FG as int] == 244
    &&& theme[READONLY_BG as int] == 124
    &&& theme[READONLY_FG as int] == 254
    &&& theme[SSH_BG as int] == 166
    &&& theme[SSH_FG as int] == 254
    &&& theme[REPO_CLEAN_BG as int] == 148
    &&& theme[REPO_CLEAN_FG as int] == 0
    &&& theme[REPO_DIRTY_BG as int] == 161
    &&& theme[REPO_DIRTY_FG as int] == 15
    &&& theme[JOBS_FG as int] == 39
    &&& theme[JOBS_BG as int] == 238
    &&& theme[CMD_PASSED_BG as int] == 236
    &&& theme[CMD_PASSED_FG as int] == 15
    &&& theme[CMD_FAILED_BG as int] == 161
    &&& theme[CMD_FAILED_FG as int] == 15
    &&& theme[SVN_CHANGES_BG as int] == 148
    &&& theme[SVN_CHANGES_FG as int] == 22
    &&& theme[GIT_AHEAD_BG as int] == 240
    &&& theme[GIT_AHEAD_FG as int] == 250
    &&& theme[GIT_BEHIND_BG as int] == 240
    &&& theme[GIT_BEHIND_FG as int] == 250
    &&& theme[GIT_STAGED_BG as int] == 22
    &&& theme[GIT_STAGED_FG as int] == 15
    &&& theme[GIT_NOTSTAGED_BG as int] == 130
    &&& theme[GIT_NOTSTAGED_FG as int] == 15
    &&& theme[GIT_UNTRACKED_BG as int] == 52
    &&& theme[GIT_UNTRACKED_FG as int] == 15
    &&& theme[GIT_CONFLICTED_BG as int] == 9
    &&& theme[GIT_CONFLICTED_FG as int] == 15
    &&& theme[GIT_STASH_BG as int] == 221
    &&& theme[GIT_STASH_FG as int] == 0
    &&& theme[VIRTUAL_ENV_BG as int] == 35
    &&& theme[VIRTUAL_ENV_FG as int] == 0
    &&& theme[BATTERY_NORMAL_BG as int] == 22
    &&& theme[BATTERY_NORMAL_FG as int] == 7
    &&& theme[BATTERY_LOW_BG as int] == 196
    &&& theme[BATTERY_LOW_FG as int] == 7
    &&& theme[AWS_PROFILE_FG as int] == 39
    &&& theme[AWS_PROFILE_BG as int] == 238
    &&& theme[TIME_FG as int] == 250
    &&& theme[TIME_BG as int] == 238
}

/// The default palette: greys for user, host and path, blue for the home
/// marker, green and red for a clean and a dirty repository.
pub fn default_theme() -> (theme: Theme)
    ensures
        is_default_theme(theme),
{
    let mut theme: Theme = [0; THEME_SIZE];
    theme[RESET] = -1;

    theme[USERNAME_FG] = 250;
    theme[USERNAME_BG] = 240;
    theme[USERNAME_ROOT_BG] = 124;

    theme[HOSTNAME_FG] = 250;
    theme[HOSTNAME_BG] = 238;

    theme[HOME_SPECIAL_DISPLAY] = 1;
    theme[HOME_BG] = 31;
    theme[HOME_FG] = 15;
    theme[PATH_BG] = 237;
    theme[PATH_FG] = 250;
    theme[CWD_FG] = 254;
    theme[SEPARATOR_FG] = 244;

    theme[READONLY_BG] = 124;
    theme[READONLY_FG] = 254;

    theme[SSH_BG] = 166;
    theme[SSH_FG] = 254;

    theme[REPO_CLEAN_BG] = 148;
    theme[REPO_CLEAN_FG] = 0;
    theme[REPO_DIRTY_BG] = 161;
    theme[REPO_DIRTY_FG] = 15;

    theme[JOBS_FG] = 39;
    theme[JOBS_BG] = 238;

    theme[CMD_PASSED_BG] = 236;
    theme[CMD_PASSED_FG] = 15;
    theme[CMD_FAILED_BG] = 161;
    theme[CMD_FAILED_FG] = 15;

    theme[SVN_CHANGES_BG] = 148;
    theme[SVN_CHANGES_FG] = 22;

    theme[GIT_AHEAD_BG] = 240;
    theme[GIT_AHEAD_FG] = 250;
    theme[GIT_BEHIND_BG] = 240;
    theme[GIT_BEHIND_FG] = 250;
    theme[GIT_STAGED_BG] = 22;
    theme[GIT_STAGED_FG] = 15;
    theme[GIT_NOTSTAGED_BG] = 130;
    theme[GIT_NOTSTAGED_FG] = 15;
    theme[GIT_UNTRACKED_BG] = 52;
    theme[GIT_UNTRACKED_FG] = 15;
    theme[GIT_CONFLICTED_BG] = 9;
    theme[GIT_CONFLICTED_FG] = 15;

    theme[GIT_STASH_BG] = 221;
    theme[GIT_STASH_FG] = 0;

    theme[VIRTUAL_ENV_BG] = 35;
    theme[VIRTUAL_ENV_FG] = 0;

    theme[BATTERY_NORMAL_BG] = 22;
    theme[BATTERY_NORMAL_FG] = 7;
    theme[BATTERY_LOW_BG] = 196;
    theme[BATTERY_LOW_FG] = 7;

    theme[AWS_PROFILE_FG] = 39;
    theme[AWS_PROFILE_BG] = 238;

    theme[TIME_FG] = 250;
    theme[TIME_BG] = 238;

    theme
}

/// In the default palette the reset value is the only one that is no
/// colour: every other slot holds an index into the 256-colour table (the
/// switch for the home marker holds 1).
pub proof fn lemma_default_theme_holds_colours(theme: Theme, slot: int)
    requires
        is_default_theme(theme),
        0 <= slot < THEME_SIZE,
    ensures
        theme[RESET as int] == -1,
        slot != RESET ==> 0 <= theme[slot] <= 255,
{
}

} // verus!
