//! The value of an environment variable that the configuration names.

use vstd::prelude::*;
use vstd::string::*;
use crate::config::{ConfigMap, ConfigValue};
use crate::prompt::Prompt;
use crate::segments::{empty_outcome, empty_result, ResultSet, ResultView, Segment};
use crate::themes::{RESET, SVN_CHANGES_BG, SVN_CHANGES_FG};

verus! {

/// Shows the value of the variable that its option `var` names.
pub struct EnvSegment<'a> {
    /// The options of this one segment, where its entry gave any.
    pub options: Option<&'a ConfigMap>,
}

/// The variable that the options name, if they name one.
pub open spec fn named_variable(options: Option<&ConfigMap>) -> Option<Seq<char>> {
    match options {
        Some(val) => match val.spec_get("var"@) {
            Some(ConfigValue::String(name)) => Some(name@),
            _ => None,
        },
        None => None,
    }
}

/// The text of the segment where it has one: the variable's value between
/// two spaces; a note where `var` names no variable, or where no options
/// were given. There is no text where the variable is not set.
pub open spec fn env_text(options: Option<&ConfigMap>, prompt: &Prompt) -> Option<Seq<char>> {
    match options {
        Some(_) => match named_variable(options) {
            Some(name) => match prompt.host.spec_variable(name) {
                Some(value) => Some(seq![' '] + value + seq![' ']),
                None => None,
            },
            None => Some("Variable name not found"@),
        },
        None => Some("No option given"@),
    }
}

/// The block of the segment: its text in the colours of the segment, or
/// nothing where the variable is not set.
pub open spec fn env_outcome(options: Option<&ConfigMap>, prompt: &Prompt) -> ResultView {
    match env_text(options, prompt) {
        Some(text) => (
            text,
            prompt.theme[SVN_CHANGES_FG as int],
            prompt.theme[SVN_CHANGES_BG as int],
            Seq::<char>::empty(),
            prompt.theme[RESET as int],
        ),
        None => empty_outcome(prompt),
    }
}

impl<'a> Segment for EnvSegment<'a> {
    open spec fn outcome(&self, prompt: &Prompt) -> ResultView {
        env_outcome(self.options, prompt)
    }

    fn compute(&self, prompt: &Prompt) -> (r: ResultSet) {
        let fg = prompt.theme[SVN_CHANGES_FG];
        let bg = prompt.theme[SVN_CHANGES_BG];

        let text = match self.options {
            Some(val) => match val.get("var") {
                Some(ConfigValue::String(name)) => match prompt.host.variable(name.as_str()) {
                    Some(env_value) => {
                        proof {
                            reveal_strlit(" ");
                            assert(" "@ =~= seq![' ']);
                        }
                        let mut text = String::from_str(" ");
                        text.append(env_value.as_str());
                        text.append(" ");
                        text
                    },
                    None => {
                        return empty_result(prompt);
                    },
                },
                _ => String::from_str("Variable name not found"),
            },
            None => String::from_str("No option given"),
        };
        (text, fg, bg, String::new(), prompt.theme[RESET])
    }
}

} // verus!
