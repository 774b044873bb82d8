//! A structured value of arbitrary shape, as carried in contract views.

use vstd::prelude::*;

verus! {

/// A dynamically shaped value: null, a boolean, a number kept as its decimal
/// text, a string, a sequence of values, or a mapping from keys to values.
///
/// A mapping is an ordered list of entries. Where a key occurs more than once,
/// lookups see the first occurrence.
#[derive(Debug)]
pub enum ViewValue {
    Null,
    Bool(bool),
    Number(String),
    Text(String),
    Sequence(Vec<ViewValue>),
    Mapping(Vec<(String, ViewValue)>),
}

/// The value of the first entry at or after `from` whose key is `key`.
pub open spec fn entry_from(entries: Seq<(String, ViewValue)>, key: Seq<char>, from: int) -> Option<
    ViewValue,
>
    decreases entries.len() - from,
{
    if from < 0 || from >= entries.len() {
        None
    } else if entries[from].0@ == key {
        Some(entries[from].1)
    } else {
        entry_from(entries, key, from + 1)
    }
}

/// `entry_from` finds the entry with the smallest index whose key matches, and
/// finds nothing exactly when no key from `from` on matches.
pub proof fn entry_from_is_first_match(entries: Seq<(String, ViewValue)>, key: Seq<char>, from: int)
    requires
        0 <= from,
    ensures
        match entry_from(entries, key, from) {
            Some(v) => exists|i: int|
                from <= i < entries.len() && #[trigger] entries[i].0@ == key && entries[i].1 == v
                    && forall|j: int| from <= j < i ==> #[trigger] entries[j].0@ != key,
            None => forall|i: int| from <= i < entries.len() ==> #[trigger] entries[i].0@ != key,
        },
    decreases entries.len() - from,
{
    if from < entries.len() && entries[from].0@ != key {
        entry_from_is_first_match(entries, key, from + 1);
        match entry_from(entries, key, from) {
            Some(v) => {
                let i = choose|i: int|
                    from + 1 <= i < entries.len() && #[trigger] entries[i].0@ == key
                        && entries[i].1 == v && forall|j: int|
                        from + 1 <= j < i ==> #[trigger] entries[j].0@ != key;
                assert(from <= i < entries.len() && entries[i].0@ == key && entries[i].1 == v
                    && forall|j: int| from <= j < i ==> #[trigger] entries[j].0@ != key);
            },
            None => {},
        }
    } else if from < entries.len() {
        assert(from <= from < entries.len() && entries[from].0@ == key && entries[from].1
            == entries[from].1 && forall|j: int|
            from <= j < from ==> #[trigger] entries[j].0@ != key);
    }
}

impl ViewValue {
    /// The field `key` of a mapping. A value that is no mapping has no fields.
    pub open spec fn field(self, key: Seq<char>) -> Option<ViewValue> {
        match self {
            ViewValue::Mapping(entries) => entry_from(entries@, key, 0),
            _ => None,
        }
    }

    /// The text held by a string value.
    pub open spec fn text(self) -> Option<Seq<char>> {
        match self {
            ViewValue::Text(s) => Some(s@),
            _ => None,
        }
    }

    /// Looks up `key` in a mapping. Returns `None` for a missing key and for
    /// a value that is not a mapping; never fails.
    pub fn get(&self, key: &str) -> (found: Option<&ViewValue>)
        ensures
            match found {
                Some(v) => self.field(key@) == Some(*v),
                None => self.field(key@) is None,
            },
    {
        match self {
            ViewValue::Mapping(entries) => {
                let wanted = key.to_owned();
                let mut i: usize = 0;
                while i < entries.len()
                    invariant
                        *self == ViewValue::Mapping(*entries),
                        wanted@ == key@,
                        i <= entries.len(),
                        entry_from(entries@, key@, 0) == entry_from(entries@, key@, i as int),
                    decreases entries.len() - i,
                {
                    if entries[i].0 == wanted {
                        assert(entry_from(entries@, key@, i as int) == Some(entries@[i as int].1));
                        return Some(&entries[i].1);
                    }
                    i += 1;
                }
                None
            },
            _ => None,
        }
    }

    /// The string held by a string value, `None` for every other kind.
    pub fn as_str(&self) -> (s: Option<&str>)
        ensures
            match s {
                Some(t) => self.text() == Some(t@),
                None => self.text() is None,
            },
    {
        match self {
            ViewValue::Text(s) => Some(s.as_str()),
            _ => None,
        }
    }

    /// Whether this is the null value.
    pub fn is_null(&self) -> (b: bool)
        ensures
            b == (*self == ViewValue::Null),
    {
        match self {
            ViewValue::Null => true,
            _ => false,
        }
    }
}

} // verus!
