//! From a configuration to the prompt: the builder that resolves the
//! configured names into segments, and the whole way through.

use vstd::prelude::*;
use vstd::string::*;
use crate::config::{ConfigMap, ConfigValue};
use crate::host::Host;
use crate::prompt::Prompt;
use crate::render::{chain_text, computed_blocks, render};
use crate::segments::cwd::CwdSegment;
use crate::segments::env::EnvSegment;
use crate::segments::exit_code::ExitCodeSegment;
use crate::segments::git::GitSegment;
use crate::segments::hostname::HostnameSegment;
use crate::segments::jobs::JobsSegment;
use crate::segments::read_only::ReadOnlySegment;
use crate::segments::root::RootSegment;
use crate::segments::ssh::SshSegment;
use crate::segments::stdout::StdoutSegment;
use crate::segments::username::UsernameSegment;
use crate::segments::virtual_env::VirtualEnvSegment;
use crate::segments::{ResultSet, ResultView, Segment};
use crate::text::{followed_by, lowered, lowered_is, str_eq};
use crate::themes::default::{default_theme, is_default_theme};
use crate::themes::{get_symbolset_for_name, patched_symbols};

verus! {

/// One of the known segments.
pub enum Provider<'a> {
    Hostname(HostnameSegment<'a>),
    Username(UsernameSegment<'a>),
    Cwd(CwdSegment<'a>),
    Git(GitSegment<'a>),
    Env(EnvSegment<'a>),
    VirtualEnv(VirtualEnvSegment<'a>),
    ReadOnly(ReadOnlySegment<'a>),
    Ssh(SshSegment<'a>),
    ExitCode(ExitCodeSegment<'a>),
    Stdout(StdoutSegment<'a>),
    Jobs(JobsSegment<'a>),
    Root(RootSegment<'a>),
}

impl<'a> Segment for Provider<'a> {
    /// The block of the segment that the provider holds.
    open spec fn outcome(&self, prompt: &Prompt) -> ResultView {
        match self {
            Provider::Hostname(segment) => segment.outcome(prompt),
            Provider::Username(segment) => segment.outcome(prompt),
            Provider::Cwd(segment) => segment.outcome(prompt),
            Provider::Git(segment) => segment.outcome(prompt),
            Provider::Env(segment) => segment.outcome(prompt),
            Provider::VirtualEnv(segment) => segment.outcome(prompt),
            Provider::ReadOnly(segment) => segment.outcome(prompt),
            Provider::Ssh(segment) => segment.outcome(prompt),
            Provider::ExitCode(segment) => segment.outcome(prompt),
            Provider::Stdout(segment) => segment.outcome(prompt),
            Provider::Jobs(segment) => segment.outcome(prompt),
            Provider::Root(segment) => segment.outcome(prompt),
        }
    }

    fn compute(&self, prompt: &Prompt) -> (r: ResultSet) {
        match self {
            Provider::Hostname(segment) => segment.compute(prompt),
            Provider::Username(segment) => segment.compute(prompt),
            Provider::Cwd(segment) => segment.compute(prompt),
            Provider::Git(segment) => segment.compute(prompt),
            Provider::Env(segment) => segment.compute(prompt),
            Provider::VirtualEnv(segment) => segment.compute(prompt),
            Provider::ReadOnly(segment) => segment.compute(prompt),
            Provider::Ssh(segment) => segment.compute(prompt),
            Provider::ExitCode(segment) => segment.compute(prompt),
            Provider::Stdout(segment) => segment.compute(prompt),
            Provider::Jobs(segment) => segment.compute(prompt),
            Provider::Root(segment) => segment.compute(prompt),
        }
    }
}

/// The segment that a name selects, whatever the case of its letters, with
/// what it is given; none for a name that is not known.
pub open spec fn segment_for<'a>(
    name: Seq<char>,
    opt: Option<&'a ConfigMap>,
    prev_error: i32,
    global_config: Option<&'a ConfigMap>,
) -> Option<Provider<'a>> {
    let lower = lowered(name);
    if lower == "hostname"@ {
        Some(Provider::Hostname(HostnameSegment { options: opt }))
    } else if lower == "username"@ {
        Some(Provider::Username(UsernameSegment { options: opt }))
    } else if lower == "cwd"@ {
        Some(Provider::Cwd(CwdSegment { options: opt, global_config }))
    } else if lower == "git"@ {
        Some(Provider::Git(GitSegment { options: opt }))
    } else if lower == "env"@ {
        Some(Provider::Env(EnvSegment { options: opt }))
    } else if lower == "virtual_env"@ {
        Some(Provider::VirtualEnv(VirtualEnvSegment { options: opt }))
    } else if lower == "read_only"@ {
        Some(Provider::ReadOnly(ReadOnlySegment { options: opt }))
    } else if lower == "ssh"@ {
        Some(Provider::Ssh(SshSegment { options: opt }))
    } else if lower == "exit_code"@ {
        Some(Provider::ExitCode(ExitCodeSegment { options: opt, prev_error }))
    } else if lower == "stdout"@ {
        Some(Provider::Stdout(StdoutSegment { options: opt }))
    } else if lower == "jobs"@ {
        Some(Provider::Jobs(JobsSegment { options: opt }))
    } else if lower == "root"@ {
        Some(Provider::Root(RootSegment { options: opt, prev_error }))
    } else {
        None
    }
}

/// The message for a name that selects no segment.
pub open spec fn not_found_text(name: Seq<char>) -> Seq<char> {
    "Path segment not found: "@ + name
}

/// Resolves a segment's name into the segment. The segment gets the
/// options of its entry (`opt`) and, where it is the working directory, the
/// options shared by all of its kind (`global_config`); those that show the
/// fate of the previous command get its exit code.
pub fn get_segment_for_string<'a>(
    s: String,
    opt: Option<&'a ConfigMap>,
    prev_error: i32,
    global_config: Option<&'a ConfigMap>,
) -> (r: Result<Provider<'a>, String>)
    ensures
        r matches Ok(provider) ==> segment_for(s@, opt, prev_error, global_config) == Some(
            provider,
        ),
        r matches Err(reason) ==> segment_for(s@, opt, prev_error, global_config).is_none()
            && reason@ == not_found_text(s@),
{
    let name = s.as_str();
    if lowered_is(name, "hostname") {
        Ok(Provider::Hostname(HostnameSegment { options: opt }))
    } else if lowered_is(name, "username") {
        Ok(Provider::Username(UsernameSegment { options: opt }))
    } else if lowered_is(name, "cwd") {
        Ok(Provider::Cwd(CwdSegment { options: opt, global_config }))
    } else if lowered_is(name, "git") {
        Ok(Provider::Git(GitSegment { options: opt }))
    } else if lowered_is(name, "env") {
        Ok(Provider::Env(EnvSegment { options: opt }))
    } else if lowered_is(name, "virtual_env") {
        Ok(Provider::VirtualEnv(VirtualEnvSegment { options: opt }))
    } else if lowered_is(name, "read_only") {
        Ok(Provider::ReadOnly(ReadOnlySegment { options: opt }))
    } else if lowered_is(name, "ssh") {
        Ok(Provider::Ssh(SshSegment { options: opt }))
    } else if lowered_is(name, "exit_code") {
        Ok(Provider::ExitCode(ExitCodeSegment { options: opt, prev_error }))
    } else if lowered_is(name, "stdout") {
        Ok(Provider::Stdout(StdoutSegment { options: opt }))
    } else if lowered_is(name, "jobs") {
        Ok(Provider::Jobs(JobsSegment { options: opt }))
    } else if lowered_is(name, "root") {
        Ok(Provider::Root(RootSegment { options: opt, prev_error }))
    } else {
        Err(followed_by("Path segment not found: ", name))
    }
}

/// What an entry of the segment list resolves to.
pub ghost enum Resolution<'a> {
    /// A segment for the chain.
    Built(Provider<'a>),
    /// A message for the diagnostic output.
    Reported(Seq<char>),
    /// Nothing at all.
    Skipped,
}

/// The report for an entry that is neither a name nor a set of options
/// with a name.
pub open spec fn not_usable_text() -> Seq<char> {
    "Not usable"@
}

/// The report for a name that selects no segment.
pub open spec fn error_text(name: Seq<char>) -> Seq<char> {
    "Error: "@ + not_found_text(name)
}

/// The set of options that the configuration holds under `name`, if it
/// holds a set there.
pub open spec fn options_under<'a>(map: &'a ConfigMap, name: Seq<char>) -> Option<&'a ConfigMap> {
    match map.spec_get(name) {
        Some(ConfigValue::Object(config)) => Some(&config),
        _ => None,
    }
}

/// The set of options that the configuration holds under `name`.
pub fn get_cwd_config<'a>(map: &'a ConfigMap, name: &str) -> (r: Option<&'a ConfigMap>)
    ensures
        r == options_under(map, name@),
{
    if let Some(ConfigValue::Object(cwd_config)) = map.get(name) {
        return Some(cwd_config);
    }
    None
}

/// The options that a segment written as a bare name shares with all of
/// its kind: for the name `cwd` the set that the configuration holds under
/// `cwd`, for any other name, or where there is no such set, `no_options`.
pub open spec fn shared_options<'a>(
    name: Seq<char>,
    map: &'a ConfigMap,
    no_options: &'a ConfigMap,
) -> &'a ConfigMap {
    if name == "cwd"@ {
        match options_under(map, "cwd"@) {
            Some(cwd_config) => cwd_config,
            None => no_options,
        }
    } else {
        no_options
    }
}

/// What one entry of the segment list resolves to. A string is a
/// segment's name; the segment gets the shared options and none of its
/// own. A set of options with a string under `type` is a segment of that
/// name, with the set as its own options and no shared ones; a set without
/// `type` is passed over in silence. A name that is not known is reported,
/// and so is any other entry.
pub open spec fn resolve<'a>(
    item: &'a ConfigValue,
    map: &'a ConfigMap,
    no_options: &'a ConfigMap,
    prev_error: i32,
) -> Resolution<'a> {
    match item {
        ConfigValue::String(s) => match segment_for(
            s@,
            None,
            prev_error,
            Some(shared_options(s@, map, no_options)),
        ) {
            Some(provider) => Resolution::Built(provider),
            None => Resolution::Reported(error_text(s@)),
        },
        ConfigValue::Object(o) => match o.spec_get("type"@) {
            Some(ConfigValue::String(seg)) => match segment_for(seg@, Some(o), prev_error, None) {
                Some(provider) => Resolution::Built(provider),
                None => Resolution::Reported(error_text(seg@)),
            },
            Some(_) => Resolution::Reported(not_usable_text()),
            None => Resolution::Skipped,
        },
        _ => Resolution::Reported(not_usable_text()),
    }
}

/// The entries of the segment lists among the first `n` entries of the
/// configuration: the lists under a name that reads `segments`, whatever the
/// case of its letters, one after the other.
pub open spec fn definitions(map: &ConfigMap, n: int) -> Seq<ConfigValue>
    decreases n,
{
    if n <= 0 || n > map.entries.len() {
        Seq::<ConfigValue>::empty()
    } else {
        let rest = definitions(map, n - 1);
        let entry = map.entries@[n - 1];
        if lowered(entry.0@) == "segments"@ {
            match entry.1 {
                ConfigValue::Array(items) => rest + items@,
                _ => rest,
            }
        } else {
            rest
        }
    }
}

/// The segments that the first `n` of `items` resolve to, in their order.
pub open spec fn built<'a>(
    items: Seq<ConfigValue>,
    n: int,
    map: &'a ConfigMap,
    no_options: &'a ConfigMap,
    prev_error: i32,
) -> Seq<Provider<'a>>
    decreases n,
{
    if n <= 0 || n > items.len() {
        Seq::<Provider<'a>>::empty()
    } else {
        let rest = built(items, n - 1, map, no_options, prev_error);
        match resolve(&items[n - 1], map, no_options, prev_error) {
            Resolution::Built(provider) => rest.push(provider),
            _ => rest,
        }
    }
}

/// The reports that the first `n` of `items` give rise to, in their order.
pub open spec fn reported(
    items: Seq<ConfigValue>,
    n: int,
    map: &ConfigMap,
    no_options: &ConfigMap,
    prev_error: i32,
) -> Seq<Seq<char>>
    decreases n,
{
    if n <= 0 || n > items.len() {
        Seq::<Seq<char>>::empty()
    } else {
        let rest = reported(items, n - 1, map, no_options, prev_error);
        match resolve(&items[n - 1], map, no_options, prev_error) {
            Resolution::Reported(text) => rest.push(text),
            _ => rest,
        }
    }
}

/// The chain of segments that a configuration asks for.
pub open spec fn chain_of<'a>(
    map: &'a ConfigMap,
    no_options: &'a ConfigMap,
    prev_error: i32,
) -> Seq<Provider<'a>> {
    let items = definitions(map, map.entries.len() as int);
    built(items, items.len() as int, map, no_options, prev_error)
}

/// The reports on the entries of a configuration that give no segment.
pub open spec fn reports_of(map: &ConfigMap, no_options: &ConfigMap, prev_error: i32) -> Seq<
    Seq<char>,
> {
    let items = definitions(map, map.entries.len() as int);
    reported(items, items.len() as int, map, no_options, prev_error)
}

/// Collects the entries of the segment lists.
fn segment_definitions<'a>(map: &'a ConfigMap) -> (items: Vec<&'a ConfigValue>)
    ensures
        items.len() == definitions(map, map.entries.len() as int).len(),
        forall|i: int|
            0 <= i < items.len() ==> *#[trigger] items@[i] == definitions(
                map,
                map.entries.len() as int,
            )[i],
{
    let mut items: Vec<&'a ConfigValue> = Vec::new();
    let mut k: usize = 0;
    while k < map.entries.len()
        invariant
            k <= map.entries.len(),
            items.len() == definitions(map, k as int).len(),
            forall|i: int|
                0 <= i < items.len() ==> *#[trigger] items@[i] == definitions(map, k as int)[i],
        decreases map.entries.len() - k,
    {
        let entry = &map.entries[k];
        if lowered_is(entry.0.as_str(), "segments") {
            if let ConfigValue::Array(list) = &entry.1 {
                let ghost before = definitions(map, k as int);
                let mut j: usize = 0;
                while j < list.len()
                    invariant
                        j <= list.len(),
                        items.len() == before.len() + j,
                        forall|i: int|
                            0 <= i < items.len() ==> *#[trigger] items@[i] == (before + list@)[i],
                    decreases list.len() - j,
                {
                    items.push(&list[j]);
                    j += 1;
                }
            }
        }
        k += 1;
    }
    items
}

/// Resolves one entry of the segment list into a segment or a report.
fn resolve_item<'a>(
    item: &'a ConfigValue,
    map: &'a ConfigMap,
    no_options: &'a ConfigMap,
    prev_error: i32,
) -> (r: Option<Result<Provider<'a>, String>>)
    ensures
        match resolve(item, map, no_options, prev_error) {
            Resolution::Built(provider) => r == Some(Ok::<Provider<'a>, String>(provider)),
            Resolution::Reported(text) => r matches Some(Err(reason)) && reason@ == text,
            Resolution::Skipped => r.is_none(),
        },
{
    match item {
        ConfigValue::String(s) => {
            let mut global_config: &'a ConfigMap = no_options;
            if str_eq(s.as_str(), "cwd") {
                if let Some(cwd_config) = get_cwd_config(map, "cwd") {
                    global_config = cwd_config;
                }
            }
            match get_segment_for_string(s.clone(), None, prev_error, Some(global_config)) {
                Ok(value) => Some(Ok(value)),
                Err(reason) => Some(Err(followed_by("Error: ", reason.as_str()))),
            }
        },
        ConfigValue::Object(o) => {
            match o.get("type") {
                Some(ConfigValue::String(seg)) => {
                    match get_segment_for_string(seg.clone(), Some(o), prev_error, None) {
                        Ok(value) => Some(Ok(value)),
                        Err(reason) => Some(Err(followed_by("Error: ", reason.as_str()))),
                    }
                },
                Some(_) => Some(Err(String::from_str("Not usable"))),
                None => None,
            }
        },
        _ => Some(Err(String::from_str("Not usable"))),
    }
}

/// Builds the chain of segments that a configuration asks for, in the
/// order of its segment list, and the reports on the entries that give no
/// segment. Such an entry is left out; the others are not affected.
/// `no_options` is what a segment written as a bare name gets where the
/// configuration holds no options for its kind: an empty set, as a rule.
pub fn build_chain<'a>(map: &'a ConfigMap, no_options: &'a ConfigMap, prev_error: i32) -> (r: (
    Vec<Provider<'a>>,
    Vec<String>,
))
    ensures
        r.0@ == chain_of(map, no_options, prev_error),
        r.1.deep_view() == reports_of(map, no_options, prev_error),
{
    let items = segment_definitions(map);
    let ghost all = definitions(map, map.entries.len() as int);
    let mut segment_chain: Vec<Provider<'a>> = Vec::new();
    let mut reports: Vec<String> = Vec::new();
    let mut i: usize = 0;
    assert(reports.deep_view() =~= reported(all, 0, map, no_options, prev_error));
    while i < items.len()
        invariant
            i <= items.len(),
            items.len() == all.len(),
            forall|k: int| 0 <= k < items.len() ==> *#[trigger] items@[k] == all[k],
            segment_chain@ == built(all, i as int, map, no_options, prev_error),
            reports.deep_view() == reported(all, i as int, map, no_options, prev_error),
        decreases items.len() - i,
    {
        let item = items[i];
        assert(*item == all[i as int]);
        match resolve_item(item, map, no_options, prev_error) {
            Some(Ok(value)) => {
                segment_chain.push(value);
            },
            Some(Err(reason)) => {
                let ghost before = reports.deep_view();
                reports.push(reason);
                assert(reports.deep_view() =~= before.push(reason@));
            },
            None => {},
        }
        i += 1;
    }
    (segment_chain, reports)
}

/// The set of shared options that holds nothing.
pub fn no_options() -> (r: ConfigMap)
    ensures
        r.entries@.len() == 0,
        r.unique_names(),
{
    ConfigMap { entries: Vec::new() }
}

/// Whether `prompt` is the context that `create_prompt` computes in: the
/// default palette, the patched glyphs and the observations `host`.
pub open spec fn is_default_context(prompt: &Prompt, host: Host) -> bool {
    &&& is_default_theme(prompt.theme)
    &&& prompt.symbols == patched_symbols()
    &&& prompt.host == host
}

/// The blocks of the chain that a configuration asks for, in the context
/// `prompt`.
pub open spec fn created_blocks(
    map: &ConfigMap,
    no_options: &ConfigMap,
    prev_error: i32,
    prompt: &Prompt,
) -> Seq<ResultView> {
    computed_blocks(chain_of(map, no_options, prev_error), prompt)
}

/// The prompt of the chain that a configuration asks for, in the context
/// `prompt`.
pub open spec fn created_text(
    map: &ConfigMap,
    no_options: &ConfigMap,
    prev_error: i32,
    prompt: &Prompt,
) -> Seq<char> {
    chain_text(chain_of(map, no_options, prev_error), prompt)
}

/// The segments of a list in two parts are those of the first part, then
/// those of the second: the chain keeps the order of the list, and an entry
/// that gives no segment takes nothing from the others.
pub proof fn lemma_chain_keeps_the_order_of_the_list(
    first: Seq<ConfigValue>,
    second: Seq<ConfigValue>,
    map: &ConfigMap,
    no_options: &ConfigMap,
    prev_error: i32,
)
    ensures
        built(first + second, (first + second).len() as int, map, no_options, prev_error) == built(
            first,
            first.len() as int,
            map,
            no_options,
            prev_error,
        ) + built(second, second.len() as int, map, no_options, prev_error),
    decreases second.len(),
{
    let all = first + second;
    if second.len() == 0 {
        assert(all =~= first);
        assert(built(first, first.len() as int, map, no_options, prev_error) + Seq::<
            Provider,
        >::empty() =~= built(first, first.len() as int, map, no_options, prev_error));
    } else {
        let front = second.drop_last();
        lemma_chain_keeps_the_order_of_the_list(first, front, map, no_options, prev_error);
        lemma_built_reads_a_prefix(all, first + front, map, no_options, prev_error);
        lemma_built_reads_a_prefix(second, front, map, no_options, prev_error);
        assert(all[all.len() - 1] == second[second.len() - 1]);
        let a = built(first, first.len() as int, map, no_options, prev_error);
        let b = built(front, front.len() as int, map, no_options, prev_error);
        match resolve(&second[second.len() - 1], map, no_options, prev_error) {
            Resolution::Built(p) => {
                assert((a + b).push(p) =~= a + b.push(p));
            },
            _ => {},
        }
    }
}

/// What the first entries of a list resolve to does not depend on the
/// entries after them.
proof fn lemma_built_reads_a_prefix(
    items: Seq<ConfigValue>,
    prefix: Seq<ConfigValue>,
    map: &ConfigMap,
    no_options: &ConfigMap,
    prev_error: i32,
)
    requires
        prefix.is_prefix_of(items),
    ensures
        built(items, prefix.len() as int, map, no_options, prev_error) == built(
            prefix,
            prefix.len() as int,
            map,
            no_options,
            prev_error,
        ),
    decreases prefix.len(),
{
    if prefix.len() > 0 {
        let front = prefix.drop_last();
        lemma_built_reads_a_prefix(items, front, map, no_options, prev_error);
        lemma_built_reads_a_prefix(prefix, front, map, no_options, prev_error);
        assert(items[prefix.len() - 1] == prefix[prefix.len() - 1]);
    }
}

/// One entry of the segment list computes the same block, and gives the
/// same report, whichever empty set stands for the shared options that the
/// configuration lacks.
proof fn lemma_resolve_with_any_empty_options(
    item: &ConfigValue,
    map: &ConfigMap,
    first: &ConfigMap,
    second: &ConfigMap,
    prev_error: i32,
    prompt: &Prompt,
)
    requires
        first.entries@.len() == 0,
        second.entries@.len() == 0,
    ensures
        match resolve(item, map, first, prev_error) {
            Resolution::Built(a) => resolve(item, map, second, prev_error) matches Resolution::Built(b)
                && a.outcome(prompt) == b.outcome(prompt),
            other => resolve(item, map, second, prev_error) == other,
        },
{
}

/// The first `n` entries compute the same blocks whichever empty set
/// stands for the missing shared options.
proof fn lemma_built_with_any_empty_options(
    items: Seq<ConfigValue>,
    n: int,
    map: &ConfigMap,
    first: &ConfigMap,
    second: &ConfigMap,
    prev_error: i32,
    prompt: &Prompt,
)
    requires
        first.entries@.len() == 0,
        second.entries@.len() == 0,
    ensures
        computed_blocks(built(items, n, map, first, prev_error), prompt) == computed_blocks(
            built(items, n, map, second, prev_error),
            prompt,
        ),
    decreases n,
{
    if n <= 0 || n > items.len() {
    } else {
        lemma_built_with_any_empty_options(items, n - 1, map, first, second, prev_error, prompt);
        lemma_resolve_with_any_empty_options(&items[n - 1], map, first, second, prev_error, prompt);
        let a = built(items, n - 1, map, first, prev_error);
        let b = built(items, n - 1, map, second, prev_error);
        match resolve(&items[n - 1], map, first, prev_error) {
            Resolution::Built(p) => {
                let q = resolve(&items[n - 1], map, second, prev_error)->Built_0;
                assert(computed_blocks(a.push(p), prompt) =~= computed_blocks(a, prompt).push(
                    p.outcome(prompt),
                ));
                assert(computed_blocks(b.push(q), prompt) =~= computed_blocks(b, prompt).push(
                    q.outcome(prompt),
                ));
            },
            _ => {},
        }
    }
}

/// The prompt of a configuration does not depend on which empty set stands
/// for the shared options that the configuration lacks.
pub proof fn lemma_any_empty_options_give_the_same_prompt(
    map: &ConfigMap,
    first: &ConfigMap,
    second: &ConfigMap,
    prev_error: i32,
    prompt: &Prompt,
)
    requires
        first.entries@.len() == 0,
        second.entries@.len() == 0,
    ensures
        created_blocks(map, first, prev_error, prompt) == created_blocks(
            map,
            second,
            prev_error,
            prompt,
        ),
        created_text(map, first, prev_error, prompt) == created_text(
            map,
            second,
            prev_error,
            prompt,
        ),
{
    let items = definitions(map, map.entries.len() as int);
    lemma_built_with_any_empty_options(
        items,
        items.len() as int,
        map,
        first,
        second,
        prev_error,
        prompt,
    );
}

/// Builds the chain that the configuration asks for, computes it and
/// renders the prompt: in the default palette, with the patched glyphs, and
/// with an empty set for the shared options that the configuration lacks.
pub fn create_prompt(map: &ConfigMap, prev_error: i32, host: Host) -> (ps1: String)
    ensures
        forall|prompt: Prompt, empty: ConfigMap|
            is_default_context(&prompt, host) && empty.entries@.len() == 0 ==> ps1@
                == #[trigger] created_text(map, &empty, prev_error, &prompt),
{
    let empty = no_options();
    let (segment_chain, _) = build_chain(map, &empty, prev_error);
    let prompt = Prompt {
        theme: default_theme(),
        symbols: get_symbolset_for_name("patched"),
        host,
    };
    let ps1 = render(segment_chain, &prompt);
    proof {
        reveal_strlit("patched");
        reveal_strlit("compatible");
        reveal_strlit("flat");
        assert("patched"@.len() == 7 && "compatible"@.len() == 10 && "flat"@.len() == 4);
        assert(is_default_context(&prompt, host));
        assert forall|other: Prompt, any: ConfigMap|
            is_default_context(&other, host) && any.entries@.len() == 0 implies ps1@
            == #[trigger] created_text(map, &any, prev_error, &other) by {
            assert(other.theme =~= prompt.theme);
            assert(other == prompt);
            lemma_any_empty_options_give_the_same_prompt(map, &empty, &any, prev_error, &prompt);
        }
    }
    ps1
}

} // verus!
