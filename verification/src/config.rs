//! The configuration of a prompt as a tree of plain values.

use vstd::prelude::*;
use vstd::string::*;
use crate::text::str_eq;

verus! {

/// One value of a configuration.
pub enum ConfigValue {
    Null,
    Bool(bool),
    /// A number: its value where it is a whole number from 0 to 2^64 - 1,
    /// `None` for any other number.
    Number(Option<u64>),
    String(String),
    Array(Vec<ConfigValue>),
    Object(ConfigMap),
}

/// Named values, in the order in which they were written. A map that was
/// read from a document holds no name twice (`unique_names`); where a name
/// does occur twice, its first entry counts.
pub struct ConfigMap {
    pub entries: Vec<(String, ConfigValue)>,
}

/// The index of the first of `entries[from..]` that is named `key`.
pub open spec fn position_from(entries: Seq<(String, ConfigValue)>, key: Seq<char>, from: int) -> Option<
    int,
>
    decreases entries.len() - from,
{
    if from < 0 || from >= entries.len() {
        None
    } else if entries[from].0@ == key {
        Some(from)
    } else {
        position_from(entries, key, from + 1)
    }
}

/// Where none of the entries before `i` is named as entry `i` is, a search
/// from any place up to `i` finds entry `i`.
proof fn lemma_position_from_finds(entries: Seq<(String, ConfigValue)>, from: int, i: int)
    requires
        0 <= from <= i < entries.len(),
        forall|k: int| 0 <= k < i ==> (#[trigger] entries[k]).0@ != entries[i].0@,
    ensures
        position_from(entries, entries[i].0@, from) == Some(i),
    decreases i - from,
{
    if from < i {
        lemma_position_from_finds(entries, from + 1, i);
    }
}

/// In a map that holds no name twice, the value under a name is that of
/// the one entry so named, wherever it stands.
pub proof fn lemma_unique_name_is_found(map: ConfigMap, i: int)
    requires
        map.unique_names(),
        0 <= i < map.entries@.len(),
    ensures
        map.spec_get(map.entries@[i].0@) == Some(map.entries@[i].1),
{
    lemma_position_from_finds(map.entries@, 0, i);
}

impl ConfigMap {
    /// No name occurs twice.
    pub open spec fn unique_names(&self) -> bool {
        forall|i: int, j: int|
            0 <= i < j < self.entries@.len() ==> (#[trigger] self.entries@[i]).0@
                != (#[trigger] self.entries@[j]).0@
    }

    /// Whether no name occurs twice.
    pub fn has_unique_names(&self) -> (r: bool)
        ensures
            r == self.unique_names(),
    {
        let mut j: usize = 0;
        while j < self.entries.len()
            invariant
                j <= self.entries.len(),
                forall|a: int, b: int|
                    0 <= a < b < j ==> (#[trigger] self.entries@[a]).0@
                        != (#[trigger] self.entries@[b]).0@,
            decreases self.entries.len() - j,
        {
            let mut i: usize = 0;
            while i < j
                invariant
                    i <= j < self.entries.len(),
                    forall|a: int| 0 <= a < i ==> (#[trigger] self.entries@[a]).0@
                        != self.entries@[j as int].0@,
                decreases j - i,
            {
                if str_eq(self.entries[i].0.as_str(), self.entries[j].0.as_str()) {
                    return false;
                }
                i += 1;
            }
            j += 1;
        }
        true
    }

    /// The value that is named `key`, if there is one.
    pub open spec fn spec_get(&self, key: Seq<char>) -> Option<ConfigValue> {
        match position_from(self.entries@, key, 0) {
            Some(i) => Some(self.entries@[i].1),
            None => None,
        }
    }

    /// Whether a value is named `key`.
    pub open spec fn spec_contains_key(&self, key: Seq<char>) -> bool {
        self.spec_get(key).is_some()
    }

    /// The value that is named `key`, if there is one.
    pub fn get(&self, key: &str) -> (r: Option<&ConfigValue>)
        ensures
            r.is_some() == self.spec_get(key@).is_some(),
            r matches Some(value) ==> self.spec_get(key@) == Some(*value),
    {
        let mut i: usize = 0;
        while i < self.entries.len()
            invariant
                i <= self.entries.len(),
                position_from(self.entries@, key@, 0) == position_from(
                    self.entries@,
                    key@,
                    i as int,
                ),
            decreases self.entries.len() - i,
        {
            if str_eq(self.entries[i].0.as_str(), key) {
                return Some(&self.entries[i].1);
            }
            i += 1;
        }
        None
    }

    /// Whether a value is named `key`.
    pub fn contains_key(&self, key: &str) -> (r: bool)
        ensures
            r == self.spec_contains_key(key@),
    {
        self.get(key).is_some()
    }
}

} // verus!
