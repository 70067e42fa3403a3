//! What a configured command writes to its standard output.

use vstd::prelude::*;
use vstd::string::*;
use crate::config::{ConfigMap, ConfigValue};
use crate::host::{written, Execution};
use crate::prompt::Prompt;
use crate::segments::{empty_outcome, empty_result, ResultSet, ResultView, Segment};
use crate::text::{trim_end, trimmed_end};
use crate::themes::{PATH_BG, PATH_FG, RESET};

verus! {

/// Shows the output of the command that its option `command` gives: a list
/// with the program first and its arguments after it.
pub struct StdoutSegment<'a> {
    /// The options of this one segment, where its entry gave any.
    pub options: Option<&'a ConfigMap>,
}

/// The strings among the first `n` values, in their order.
pub open spec fn strings_of(values: Seq<ConfigValue>, n: int) -> Seq<Seq<char>>
    decreases n,
{
    if n <= 0 || n > values.len() {
        Seq::<Seq<char>>::empty()
    } else {
        match values[n - 1] {
            ConfigValue::String(s) => strings_of(values, n - 1).push(s@),
            _ => strings_of(values, n - 1),
        }
    }
}

/// The command line that the options give: the strings of the list
/// `command`, where that list begins with a string. Entries after the
/// first that are no strings are left out.
pub open spec fn command_line(options: Option<&ConfigMap>) -> Option<Seq<Seq<char>>> {
    match options {
        Some(o) => match o.spec_get("command"@) {
            Some(ConfigValue::Array(arr)) => if arr.len() > 0 && arr@[0] is String {
                Some(strings_of(arr@, arr.len() as int))
            } else {
                None
            },
            _ => None,
        },
        None => None,
    }
}

/// The block for the run of the command: its output between two spaces,
/// without the white space at its end. Nothing where the options give no
/// command, or the command was not run or could not be started.
pub open spec fn stdout_outcome(options: Option<&ConfigMap>, prompt: &Prompt) -> ResultView {
    match command_line(options) {
        Some(argv) => match prompt.host.spec_run(argv) {
            Some(Execution::Finished { success, output }) => (
                seq![' '] + trimmed_end(written(output)) + seq![' '],
                prompt.theme[PATH_FG as int],
                prompt.theme[PATH_BG as int],
                Seq::<char>::empty(),
                prompt.theme[RESET as int],
            ),
            _ => empty_outcome(prompt),
        },
        None => empty_outcome(prompt),
    }
}

impl<'a> StdoutSegment<'a> {
    /// The command line to run for this segment, if its options give one.
    pub fn command(&self) -> (r: Option<Vec<String>>)
        ensures
            r.deep_view() == command_line(self.options),
    {
        if let Some(options) = self.options {
            if let Some(ConfigValue::Array(arr)) = options.get("command") {
                if arr.len() > 0 {
                    if let ConfigValue::String(binary) = &arr[0] {
                        let mut argv: Vec<String> = Vec::new();
                        argv.push(binary.clone());
                        assert(argv.deep_view() =~= strings_of(arr@, 1)) by {
                            reveal_with_fuel(strings_of, 2);
                        }
                        let mut i: usize = 1;
                        while i < arr.len()
                            invariant
                                1 <= i <= arr.len(),
                                argv.deep_view() == strings_of(arr@, i as int),
                            decreases arr.len() - i,
                        {
                            if let ConfigValue::String(a) = &arr[i] {
                                let ghost before = argv.deep_view();
                                argv.push(a.clone());
                                assert(argv.deep_view() =~= before.push(a@));
                            }
                            i += 1;
                        }
                        return Some(argv);
                    }
                }
            }
        }
        None
    }
}

impl<'a> Segment for StdoutSegment<'a> {
    open spec fn outcome(&self, prompt: &Prompt) -> ResultView {
        stdout_outcome(self.options, prompt)
    }

    fn compute(&self, prompt: &Prompt) -> (r: ResultSet) {
        if let Some(argv) = self.command() {
            if let Some(Execution::Finished { success, output }) = prompt.host.run(&argv) {
                proof {
                    reveal_strlit(" ");
                    reveal_strlit("");
                    assert(" "@ =~= seq![' ']);
                }
                let mut text = String::from_str(" ");
                match output {
                    Some(std_out_value) => {
                        text.append(trim_end(std_out_value.as_str()).as_str());
                    },
                    None => {
                        text.append(trim_end("").as_str());
                    },
                }
                text.append(" ");
                return (
                    text,
                    prompt.theme[PATH_FG],
                    prompt.theme[PATH_BG],
                    String::new(),
                    prompt.theme[RESET],
                );
            }
        }
        empty_result(prompt)
    }
}

} // verus!
