//! The number of jobs that the invoking shell has running.

use vstd::prelude::*;
use vstd::string::*;
use crate::config::ConfigMap;
use crate::host::{written, Execution};
use crate::prompt::Prompt;
use crate::segments::{empty_outcome, empty_result, ResultSet, ResultView, Segment};
use crate::text::{digits, lines, lines_text, parse_u32, parsed_u32, push_digits, trim, trimmed};
use crate::themes::{JOBS_BG, JOBS_FG, RESET};

verus! {

/// Shows how many processes the invoking shell has started, the one that
/// listed them left aside.
pub struct JobsSegment<'a> {
    /// The options of this one segment, where its entry gave any.
    pub options: Option<&'a ConfigMap>,
}

/// Whether a line of the listing names the process `parent`: the white
/// space at its ends left aside, it reads as that number.
pub open spec fn names_parent(line: Seq<char>, parent: u32) -> bool {
    parsed_u32(trimmed(line)) == Some(parent)
}

/// How many of the lines name the process `parent`.
pub open spec fn children(lines: Seq<Seq<char>>, parent: u32) -> nat
    decreases lines.len(),
{
    if lines.len() == 0 {
        0
    } else {
        children(lines.drop_last(), parent) + if names_parent(lines.last(), parent) {
            1nat
        } else {
            0nat
        }
    }
}

/// The block for a listing of parent process ids in which `count` lines
/// name the invoking shell. One of them is the process that wrote the
/// listing; the others are shown, if there are any.
pub open spec fn jobs_block(count: nat, prompt: &Prompt) -> ResultView {
    if count > 1 {
        (
            seq![' '] + digits((count - 1) as nat) + seq![' '],
            prompt.theme[JOBS_FG as int],
            prompt.theme[JOBS_BG as int],
            Seq::<char>::empty(),
            prompt.theme[RESET as int],
        )
    } else {
        empty_outcome(prompt)
    }
}

/// The block for the run of the process listing: nothing where it could
/// not be started.
pub open spec fn jobs_outcome(prompt: &Prompt) -> ResultView {
    match prompt.host.process_list {
        Execution::NotStarted => empty_outcome(prompt),
        Execution::Finished { success, output } => jobs_block(
            children(lines_text(written(output)), prompt.host.parent_id),
            prompt,
        ),
    }
}

/// Counts the lines of `listing` that name the process `parent`.
pub fn count_children(listing: &str, parent: u32) -> (count: usize)
    ensures
        count == children(lines_text(listing@), parent),
{
    let all = lines(listing);
    let mut counter: usize = 0;
    let mut i: usize = 0;
    assert(all.deep_view().take(0) =~= Seq::<Seq<char>>::empty());
    while i < all.len()
        invariant
            i <= all.len(),
            counter <= i,
            counter == children(all.deep_view().take(i as int), parent),
        decreases all.len() - i,
    {
        assert(all.deep_view().take(i + 1).drop_last() =~= all.deep_view().take(i as int));
        assert(all.deep_view().take(i + 1).last() == all@[i as int]@);
        if let Some(val) = parse_u32(trim(all[i].as_str()).as_str()) {
            if val == parent {
                counter += 1;
            }
        }
        i += 1;
    }
    assert(all.deep_view().take(i as int) =~= all.deep_view());
    counter
}

impl<'a> Segment for JobsSegment<'a> {
    open spec fn outcome(&self, prompt: &Prompt) -> ResultView {
        jobs_outcome(prompt)
    }

    fn compute(&self, prompt: &Prompt) -> (r: ResultSet) {
        match &prompt.host.process_list {
            Execution::NotStarted => empty_result(prompt),
            Execution::Finished { success, output } => {
                let counter = match output {
                    Some(text) => count_children(text.as_str(), prompt.host.parent_id),
                    None => {
                        proof {
                            reveal_strlit("");
                        }
                        count_children("", prompt.host.parent_id)
                    },
                };
                if counter > 1 {
                    proof {
                        reveal_strlit(" ");
                        assert(" "@ =~= seq![' ']);
                    }
                    let mut text = String::from_str(" ");
                    push_digits(&mut text, (counter - 1) as u64);
                    text.append(" ");
                    (
                        text,
                        prompt.theme[JOBS_FG],
                        prompt.theme[JOBS_BG],
                        String::new(),
                        prompt.theme[RESET],
                    )
                } else {
                    empty_result(prompt)
                }
            },
        }
    }
}

} // verus!
