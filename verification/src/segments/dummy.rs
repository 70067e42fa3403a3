//! A segment with a fixed text.

use vstd::prelude::*;
use vstd::string::*;
use crate::config::ConfigMap;
use crate::prompt::Prompt;
use crate::segments::{ResultSet, ResultView, Segment};
use crate::themes::RESET;

verus! {

/// Shows its name, without colours.
#[allow(non_camel_case_types)]
pub struct _DummySegment<'a> {
    /// The options of this one segment, where its entry gave any.
    pub options: Option<&'a ConfigMap>,
    pub name: String,
}

impl<'a> Segment for _DummySegment<'a> {
    open spec fn outcome(&self, prompt: &Prompt) -> ResultView {
        (
            self.name@,
            prompt.theme[RESET as int],
            prompt.theme[RESET as int],
            Seq::<char>::empty(),
            prompt.theme[RESET as int],
        )
    }

    fn compute(&self, prompt: &Prompt) -> (r: ResultSet) {
        (
            self.name.clone(),
            prompt.theme[RESET],
            prompt.theme[RESET],
            String::new(),
            prompt.theme[RESET],
        )
    }
}

} // verus!
