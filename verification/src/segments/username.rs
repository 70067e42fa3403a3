//! The user's name, left to the shell to fill in; the superuser stands out.

use vstd::prelude::*;
use vstd::string::*;
use crate::config::ConfigMap;
use crate::prompt::Prompt;
use crate::segments::{ResultSet, ResultView, Segment};
use crate::text::str_eq;
use crate::themes::{RESET, USERNAME_BG, USERNAME_FG, USERNAME_ROOT_BG};

verus! {

/// Shows the shell's placeholder for the user name.
pub struct UsernameSegment<'a> {
    /// The options of this one segment, where its entry gave any.
    pub options: Option<&'a ConfigMap>,
}

impl<'a> Segment for UsernameSegment<'a> {
    /// The placeholder on the background for `root` where that is the
    /// user, on the ordinary one for anyone else.
    open spec fn outcome(&self, prompt: &Prompt) -> ResultView {
        (
            " \\u "@,
            prompt.theme[USERNAME_FG as int],
            if prompt.host.user@ == "root"@ {
                prompt.theme[USERNAME_ROOT_BG as int]
            } else {
                prompt.theme[USERNAME_BG as int]
            },
            Seq::<char>::empty(),
            prompt.theme[RESET as int],
        )
    }

    fn compute(&self, prompt: &Prompt) -> (r: ResultSet) {
        let mut bgcolor = prompt.theme[USERNAME_BG];

        if str_eq(prompt.host.user.as_str(), "root") {
            bgcolor = prompt.theme[USERNAME_ROOT_BG];
        }
        (
            String::from_str(" \\u "),
            prompt.theme[USERNAME_FG],
            bgcolor,
            String::new(),
            prompt.theme[RESET],
        )
    }
}

} // verus!
