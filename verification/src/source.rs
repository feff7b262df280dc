//! Where the signals come from: a lookup of named variables, and the question
//! whether a stream is a terminal.

use crate::text;
use vstd::prelude::*;

verus! {

/// A stream that can tell whether it is a terminal.
pub trait IsTerminal {
    /// Whether the stream is a terminal.
    fn is_terminal(&self) -> bool;
}

/// A source of named variables. A lookup never fails: a variable is there or
/// it is not.
pub trait EnvVarSource {
    /// Looks the variable `key` up.
    fn var(&self, key: &str) -> Option<String>;
}

/// Whether `source`, asked for `key`, may answer `value`. Of a source that
/// promises nothing every answer may come; of one that states what it
/// answers, only that.
pub open spec fn may_answer<S: EnvVarSource>(source: &S, key: &str, value: Option<String>) -> bool {
    call_ensures(S::var, (source, key), value)
}

/// Whether `out`, asked whether it is a terminal, may answer `answer`.
pub open spec fn may_report<T: IsTerminal>(out: &T, answer: bool) -> bool {
    call_ensures(T::is_terminal, (out,), answer)
}

/// The map that a list of bindings stands for: a later binding of a name
/// replaces an earlier one.
pub open spec fn bindings_map(entries: Seq<(String, String)>) -> Map<Seq<char>, Seq<char>>
    decreases entries.len(),
{
    if entries.len() == 0 {
        Map::empty()
    } else {
        bindings_map(entries.drop_last()).insert(entries.last().0@, entries.last().1@)
    }
}

/// Variables held in memory.
#[derive(Debug)]
pub struct VarMap {
    entries: Vec<(String, String)>,
}

impl View for VarMap {
    type V = Map<Seq<char>, Seq<char>>;

    closed spec fn view(&self) -> Map<Seq<char>, Seq<char>> {
        bindings_map(self.entries@)
    }
}

impl VarMap {
    /// What a lookup of `key` gives.
    pub open spec fn lookup(&self, key: Seq<char>) -> Option<Seq<char>> {
        if self@.contains_key(key) {
            Some(self@[key])
        } else {
            None
        }
    }

    /// A source without variables.
    pub fn new() -> (r: VarMap)
        ensures
            r@ == Map::<Seq<char>, Seq<char>>::empty(),
    {
        VarMap { entries: Vec::new() }
    }

    /// Binds `key` to `value`, in place of what it was bound to.
    pub fn set(&mut self, key: &str, value: &str)
        ensures
            final(self)@ == old(self)@.insert(key@, value@),
    {
        self.entries.push((key.to_owned(), value.to_owned()));
        proof {
            assert(self.entries@.drop_last() =~= old(self).entries@);
        }
    }

    /// The source that holds `pairs`, each a name and its value; where a name
    /// comes twice the later pair counts.
    pub fn from_pairs(pairs: &[(&str, &str)]) -> (r: VarMap)
        ensures
            forall|i: int|
                0 <= i < pairs@.len() && (forall|j: int|
                    i < j < pairs@.len() ==> pairs@[j].0@ != pairs@[i].0@) ==> r.lookup(
                    #[trigger] pairs@[i].0@,
                ) == Some(pairs@[i].1@),
            forall|key: Seq<char>|
                (forall|i: int| 0 <= i < pairs@.len() ==> pairs@[i].0@ != key) ==> r.lookup(key)
                    is None,
    {
        let mut map = VarMap::new();
        let n = pairs.len();
        let mut at: usize = 0;
        while at < n
            invariant
                at <= n,
                n == pairs@.len(),
                forall|i: int|
                    0 <= i < at && (forall|j: int| i < j < at ==> pairs@[j].0@ != pairs@[i].0@)
                        ==> map.lookup(#[trigger] pairs@[i].0@) == Some(pairs@[i].1@),
                forall|key: Seq<char>|
                    (forall|i: int| 0 <= i < at ==> pairs@[i].0@ != key) ==> map.lookup(key)
                        is None,
            decreases n - at,
        {
            let ghost before = map;
            map.set(pairs[at].0, pairs[at].1);
            proof {
                assert forall|i: int|
                    0 <= i < at + 1 && (forall|j: int|
                        i < j < at + 1 ==> pairs@[j].0@ != pairs@[i].0@) implies map.lookup(
                    #[trigger] pairs@[i].0@,
                ) == Some(pairs@[i].1@) by {
                    if i < at {
                        assert(pairs@[at as int].0@ != pairs@[i].0@);
                        assert(forall|j: int| i < j < at ==> pairs@[j].0@ != pairs@[i].0@);
                        assert(before.lookup(pairs@[i].0@) == Some(pairs@[i].1@));
                    }
                }
                assert forall|key: Seq<char>|
                    (forall|i: int| 0 <= i < at + 1 ==> pairs@[i].0@ != key) implies map.lookup(
                    key,
                ) is None by {
                    assert(pairs@[at as int].0@ != key);
                    assert(forall|i: int| 0 <= i < at ==> pairs@[i].0@ != key);
                    assert(before.lookup(key) is None);
                }
            }
            at += 1;
        }
        map
    }
}

proof fn lemma_bindings_absent(entries: Seq<(String, String)>, key: Seq<char>)
    requires
        forall|i: int| 0 <= i < entries.len() ==> entries[i].0@ != key,
    ensures
        !bindings_map(entries).contains_key(key),
    decreases entries.len(),
{
    if entries.len() > 0 {
        assert forall|i: int| 0 <= i < entries.drop_last().len() implies entries.drop_last()[i].0@
            != key by {
            assert(entries.drop_last()[i] == entries[i]);
        }
        lemma_bindings_absent(entries.drop_last(), key);
        assert(entries.last().0@ != key);
    }
}

proof fn lemma_bindings_last(entries: Seq<(String, String)>, key: Seq<char>, at: int)
    requires
        0 <= at < entries.len(),
        entries[at].0@ == key,
        forall|i: int| at < i < entries.len() ==> entries[i].0@ != key,
    ensures
        bindings_map(entries).contains_key(key),
        bindings_map(entries)[key] == entries[at].1@,
    decreases entries.len(),
{
    if at < entries.len() - 1 {
        assert forall|i: int| at < i < entries.drop_last().len() implies entries.drop_last()[i].0@
            != key by {
            assert(entries.drop_last()[i] == entries[i]);
        }
        assert(entries.drop_last()[at] == entries[at]);
        lemma_bindings_last(entries.drop_last(), key, at);
        assert(entries.last().0@ != key);
    }
}

impl EnvVarSource for VarMap {
    /// The value that `key` is bound to, if it is bound.
    fn var(&self, key: &str) -> (value: Option<String>)
        ensures
            crate::termvar::text_of(value) == self.lookup(key@),
    {
        let mut at: usize = self.entries.len();
        while at > 0
            invariant
                at <= self.entries@.len(),
                forall|i: int| at <= i < self.entries@.len() ==> self.entries@[i].0@ != key@,
            decreases at,
        {
            at -= 1;
            if text::equal(self.entries[at].0.as_str(), key) {
                proof {
                    lemma_bindings_last(self.entries@, key@, at as int);
                }
                return Some(self.entries[at].1.clone());
            }
        }
        proof {
            lemma_bindings_absent(self.entries@, key@);
        }
        None
    }
}

} // verus!
