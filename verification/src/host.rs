//! What a prompt shows of the machine it runs on, gathered before any
//! segment is computed.

use vstd::prelude::*;
use vstd::string::*;
use crate::text::str_eq;

verus! {

/// How the run of an outside program ended.
pub enum Execution {
    /// The program could not be started.
    NotStarted,
    /// The program ran to its end. `success` tells whether it reported
    /// success; `output` is what it wrote to its standard output, or `None`
    /// where that is not valid UTF-8.
    Finished { success: bool, output: Option<String> },
}

/// The observations that segments draw on.
pub struct Host {
    /// The name of the user who runs the process.
    pub user: String,
    /// The environment: names with their values. The first entry of a name
    /// counts.
    pub variables: Vec<(String, String)>,
    /// The working directory of the process, if it can be determined.
    pub current_dir: Option<String>,
    /// Whether the working directory can be written to.
    pub writable: bool,
    /// The process id of the invoking shell.
    pub parent_id: u32,
    /// The listing of parent process ids, one per line.
    pub process_list: Execution,
    /// The porcelain status of the repository in the working directory,
    /// with the branch line first.
    pub git_status: Execution,
    /// The description of the checked-out commit, which names a detached
    /// head.
    pub git_describe: Execution,
    /// The commands that were run for the prompt: the program with its
    /// arguments, and how the run ended.
    pub commands: Vec<(Vec<String>, Execution)>,
}

/// The value of the first of `variables[from..]` that is named `name`.
pub open spec fn lookup_from(variables: Seq<(String, String)>, name: Seq<char>, from: int) -> Option<
    Seq<char>,
>
    decreases variables.len() - from,
{
    if from < 0 || from >= variables.len() {
        None
    } else if variables[from].0@ == name {
        Some(variables[from].1@)
    } else {
        lookup_from(variables, name, from + 1)
    }
}

/// The text that a run wrote; nothing where it wrote no valid text.
pub open spec fn written(output: Option<String>) -> Seq<char> {
    match output {
        Some(text) => text@,
        None => Seq::<char>::empty(),
    }
}

/// The run of the first of `commands[from..]` whose command line is `argv`.
pub open spec fn run_from(
    commands: Seq<(Vec<String>, Execution)>,
    argv: Seq<Seq<char>>,
    from: int,
) -> Option<Execution>
    decreases commands.len() - from,
{
    if from < 0 || from >= commands.len() {
        None
    } else if commands[from].0.deep_view() == argv {
        Some(commands[from].1)
    } else {
        run_from(commands, argv, from + 1)
    }
}

/// Whether two command lines read the same.
fn same_words(a: &Vec<String>, b: &Vec<String>) -> (r: bool)
    ensures
        r == (a.deep_view() == b.deep_view()),
{
    if a.len() != b.len() {
        assert(a.deep_view().len() != b.deep_view().len());
        return false;
    }
    let mut i: usize = 0;
    while i < a.len()
        invariant
            i <= a.len(),
            a.len() == b.len(),
            forall|j: int| 0 <= j < i ==> a@[j]@ == b@[j]@,
        decreases a.len() - i,
    {
        if !str_eq(a[i].as_str(), b[i].as_str()) {
            assert(a.deep_view()[i as int] != b.deep_view()[i as int]);
            return false;
        }
        i += 1;
    }
    assert(a.deep_view() =~= b.deep_view());
    true
}

/// Asks the `whoami` crate for the name of the user who runs the process
/// (`whoami::username`). The name depends on the machine and on the moment,
/// so the contract claims nothing of it.
#[verifier::external_body]
fn current_user() -> String {
    whoami::username()
}

impl Host {
    /// These observations with the name of the user who runs the process
    /// put in. Nothing else changes.
    pub fn with_current_user(self) -> (r: Host)
        ensures
            r.variables == self.variables,
            r.current_dir == self.current_dir,
            r.writable == self.writable,
            r.parent_id == self.parent_id,
            r.process_list == self.process_list,
            r.git_status == self.git_status,
            r.git_describe == self.git_describe,
            r.commands == self.commands,
    {
        self.with_user(current_user())
    }

    /// These observations with `user` as the user who runs the process.
    pub open spec fn spec_with_user(self, user: String) -> Host {
        Host {
            user,
            variables: self.variables,
            current_dir: self.current_dir,
            writable: self.writable,
            parent_id: self.parent_id,
            process_list: self.process_list,
            git_status: self.git_status,
            git_describe: self.git_describe,
            commands: self.commands,
        }
    }

    /// Puts `user` in as the user who runs the process. Nothing else
    /// changes.
    pub fn with_user(self, user: String) -> (r: Host)
        ensures
            r == self.spec_with_user(user),
    {
        Host {
            user,
            variables: self.variables,
            current_dir: self.current_dir,
            writable: self.writable,
            parent_id: self.parent_id,
            process_list: self.process_list,
            git_status: self.git_status,
            git_describe: self.git_describe,
            commands: self.commands,
        }
    }

    /// The value of the environment variable `name`, if it is set.
    pub open spec fn spec_variable(&self, name: Seq<char>) -> Option<Seq<char>> {
        lookup_from(self.variables@, name, 0)
    }

    /// The value of the environment variable `name`, if it is set.
    pub fn variable(&self, name: &str) -> (r: Option<&String>)
        ensures
            r.is_some() == self.spec_variable(name@).is_some(),
            r matches Some(value) ==> self.spec_variable(name@) == Some(value@),
    {
        let mut i: usize = 0;
        while i < self.variables.len()
            invariant
                i <= self.variables.len(),
                self.spec_variable(name@) == lookup_from(self.variables@, name@, i as int),
            decreases self.variables.len() - i,
        {
            if str_eq(self.variables[i].0.as_str(), name) {
                return Some(&self.variables[i].1);
            }
            i += 1;
        }
        None
    }

    /// How the run of the command line `argv` ended, if it was run.
    pub open spec fn spec_run(&self, argv: Seq<Seq<char>>) -> Option<Execution> {
        run_from(self.commands@, argv, 0)
    }

    /// How the run of the command line `argv` ended, if it was run.
    pub fn run(&self, argv: &Vec<String>) -> (r: Option<&Execution>)
        ensures
            r.is_some() == self.spec_run(argv.deep_view()).is_some(),
            r matches Some(execution) ==> self.spec_run(argv.deep_view()) == Some(*execution),
    {
        let mut i: usize = 0;
        while i < self.commands.len()
            invariant
                i <= self.commands.len(),
                self.spec_run(argv.deep_view()) == run_from(
                    self.commands@,
                    argv.deep_view(),
                    i as int,
                ),
            decreases self.commands.len() - i,
        {
            if same_words(&self.commands[i].0, argv) {
                return Some(&self.commands[i].1);
            }
            i += 1;
        }
        None
    }
}

} // verus!
