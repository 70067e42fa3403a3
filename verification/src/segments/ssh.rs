//! A mark for a session that came in over the network.

use vstd::prelude::*;
use vstd::string::*;
use crate::config::ConfigMap;
use crate::prompt::Prompt;
use crate::segments::{ResultSet, ResultView, Segment};
use crate::themes::{RESET, SSH_BG, SSH_FG};

verus! {

/// Shows the network glyph where the variable `SSH_CLIENT` is set.
pub struct SshSegment<'a> {
    /// The options of this one segment, where its entry gave any.
    pub options: Option<&'a ConfigMap>,
}

impl<'a> Segment for SshSegment<'a> {
    open spec fn outcome(&self, prompt: &Prompt) -> ResultView {
        (
            if prompt.host.spec_variable("SSH_CLIENT"@).is_some() {
                seq![' '] + prompt.symbols.network@ + seq![' ']
            } else {
                Seq::<char>::empty()
            },
            prompt.theme[SSH_FG as int],
            prompt.theme[SSH_BG as int],
            Seq::<char>::empty(),
            prompt.theme[RESET as int],
        )
    }

    fn compute(&self, prompt: &Prompt) -> (r: ResultSet) {
        let mut result = String::new();

        if prompt.host.variable("SSH_CLIENT").is_some() {
            proof {
                reveal_strlit(" ");
                assert(" "@ =~= seq![' ']);
            }
            result.append(" ");
            result.append(prompt.symbols.network);
            result.append(" ");
            assert(result@ =~= seq![' '] + prompt.symbols.network@ + seq![' ']);
        }
        (result, prompt.theme[SSH_FG], prompt.theme[SSH_BG], String::new(), prompt.theme[RESET])
    }
}

} // verus!
