//! Texts by name.

use crate::text::texts;
use vstd::prelude::*;

verus! {

/// Texts by name, in the order in which they came. A name occurs once.
#[derive(Clone, Debug)]
pub struct TextMap {
    pub entries: Vec<(String, String)>,
}

/// Where `name` stands among the entries; their number if it does not.
pub open spec fn key_index(entries: Seq<(String, String)>, name: Seq<char>) -> int
    decreases entries.len(),
{
    if entries.len() == 0 || entries[0].0@ == name {
        0
    } else {
        1 + key_index(entries.drop_first(), name)
    }
}

proof fn lemma_key_index(entries: Seq<(String, String)>, name: Seq<char>)
    ensures
        0 <= key_index(entries, name) <= entries.len(),
        key_index(entries, name) < entries.len() ==> entries[key_index(
            entries,
            name,
        )].0@ == name,
        forall|i: int| 0 <= i < key_index(entries, name) ==> (#[trigger] entries[i]).0@ != name,
    decreases entries.len(),
{
    if entries.len() > 0 && entries[0].0@ != name {
        let rest = entries.drop_first();
        lemma_key_index(rest, name);
        assert forall|i: int| 0 <= i < key_index(entries, name) implies (
        #[trigger] entries[i]).0@ != name by {
            if i > 0 {
                assert(entries[i] == rest[i - 1]);
            }
        }
        if key_index(entries, name) < entries.len() {
            assert(entries[key_index(entries, name)] == rest[key_index(entries, name)
                - 1]);
        }
    }
}

impl TextMap {
    /// No name occurs twice.
    pub open spec fn wf(self) -> bool {
        forall|i: int, j: int|
            0 <= i < j < self.entries@.len() ==> (#[trigger] self.entries@[i]).0@ != (
            #[trigger] self.entries@[j]).0@
    }

    /// Text by name.
    pub open spec fn view(self) -> Map<Seq<char>, Seq<char>> {
        Map::new(
            |name: Seq<char>| key_index(self.entries@, name) < self.entries@.len(),
            |name: Seq<char>| self.entries@[key_index(self.entries@, name)].1@,
        )
    }

    /// `before` with the text of `name` set: in its place if it had one, else last.
    pub open spec fn adds(self, before: TextMap, name: Seq<char>, value: Seq<char>) -> bool {
        &&& self@ == before@.insert(name, value)
        &&& texts(names(self.entries@)) == (if before@.dom().contains(name) {
            texts(names(before.entries@))
        } else {
            texts(names(before.entries@)).push(name)
        })
    }

    /// `before` without `name`, the others in their order.
    pub open spec fn lacks(self, before: TextMap, name: Seq<char>) -> bool {
        &&& self@ == before@.remove(name)
        &&& self.entries@ == (if before@.dom().contains(name) {
            before.entries@.remove(key_index(before.entries@, name))
        } else {
            before.entries@
        })
    }

    /// The texts of the first `n` entries.
    pub open spec fn upto(self, n: int) -> Map<Seq<char>, Seq<char>> {
        Map::new(
            |name: Seq<char>| key_index(self.entries@, name) < n,
            |name: Seq<char>| self.entries@[key_index(self.entries@, name)].1@,
        )
    }

    /// No entries hold no texts, all of them hold all, and one more holds one more.
    pub proof fn lemma_upto(self, n: int)
        requires
            0 <= n <= self.entries@.len(),
            self.wf(),
        ensures
            n == 0 ==> self.upto(n) == Map::<Seq<char>, Seq<char>>::empty(),
            n == self.entries@.len() ==> self.upto(n) == self@,
            n > 0 ==> self.upto(n) == self.upto(n - 1).insert(
                self.entries@[n - 1].0@,
                self.entries@[n - 1].1@,
            ),
    {
        assert forall|name: Seq<char>| #[trigger] key_index(self.entries@, name) >= 0 by {
            lemma_key_index(self.entries@, name);
        }
        if n == 0 {
            assert(self.upto(n) =~= Map::<Seq<char>, Seq<char>>::empty());
        }
        if n == self.entries@.len() {
            assert(self.upto(n) =~= self@);
        }
        if n > 0 {
            let key = self.entries@[n - 1].0@;
            lemma_key_index(self.entries@, key);
            let at = key_index(self.entries@, key);
            if at < n - 1 {
                assert(self.entries@[at].0@ != self.entries@[n - 1].0@);
            }
            assert forall|name: Seq<char>| #[trigger]
                key_index(self.entries@, name) == n - 1 implies name == key by {
                lemma_key_index(self.entries@, name);
            }
            assert(self.upto(n) =~= self.upto(n - 1).insert(key, self.entries@[n - 1].1@));
        }
    }

    /// A name that has a text takes an entry.
    pub proof fn lemma_nonempty(self, name: Seq<char>)
        requires
            self@.dom().contains(name),
        ensures
            self.entries@.len() > 0,
    {
        lemma_key_index(self.entries@, name);
    }

    /// No texts.
    pub fn new() -> (r: TextMap)
        ensures
            r.wf(),
            r@ == Map::<Seq<char>, Seq<char>>::empty(),
            r.entries@.len() == 0,
    {
        let r = TextMap { entries: Vec::new() };
        assert(r@ =~= Map::<Seq<char>, Seq<char>>::empty());
        r
    }

    /// The text of `name`.
    pub fn get(&self, name: &str) -> (r: Option<&String>)
        ensures
            match r {
                Some(t) => self@.dom().contains(name@) && self@[name@] == t@,
                None => !self@.dom().contains(name@),
            },
    {
        let key = name.to_owned();
        let i = self.position(&key);
        proof {
            lemma_key_index(self.entries@, name@);
        }
        if i < self.entries.len() {
            Some(&self.entries[i].1)
        } else {
            None
        }
    }

    fn position(&self, name: &String) -> (i: usize)
        ensures
            i == key_index(self.entries@, name@),
            i <= self.entries@.len(),
    {
        let mut i: usize = 0;
        assert(self.entries@.skip(0) =~= self.entries@);
        while i < self.entries.len() && self.entries[i].0 != *name
            invariant
                i <= self.entries@.len(),
                key_index(self.entries@, name@) == i + key_index(
                    self.entries@.skip(i as int),
                    name@,
                ),
            decreases self.entries@.len() - i,
        {
            assert(self.entries@.skip(i as int).drop_first() =~= self.entries@.skip(i + 1));
            i += 1;
        }
        i
    }

    /// Sets the text of `name`, in its place if it has one already, else last.
    pub fn insert(&mut self, name: String, value: String)
        requires
            old(self).wf(),
        ensures
            final(self).wf(),
            final(self).adds(*old(self), name@, value@),
    {
        let i = self.position(&name);
        let ghost before = self.entries@;
        let ghost key = name@;
        let ghost text = value@;
        proof {
            lemma_key_index(before, key);
        }
        if i < self.entries.len() {
            let kept = self.entries[i].0.clone();
            self.entries.set(i, (kept, value));
        } else {
            self.entries.push((name, value));
        }
        proof {
            let after = self.entries@;
            assert forall|k: Seq<char>| #[trigger]
                key_index(after, k) == (if k == key {
                    i as int
                } else if key_index(before, k) < before.len() {
                    key_index(before, k)
                } else {
                    after.len() as int
                }) by {
                lemma_key_index(before, k);
                lemma_key_index(after, k);
                let a = key_index(after, k);
                let b = key_index(before, k);
                if k == key {
                    assert(after[i as int].0@ == key);
                    if a < i {
                        assert(after[a].0@ == before[a].0@);
                    }
                } else if b < before.len() {
                    assert(after[b].0@ == k);
                    if a < b {
                        assert(before[a].0@ == k);
                    }
                } else if a < after.len() {
                    assert(after[a].0@ == k);
                    if a < before.len() {
                        assert(before[a].0@ == k);
                    }
                }
            }
            let expected = old(self)@.insert(key, text);
            assert forall|k: Seq<char>| self@.dom().contains(k) == expected.dom().contains(k) && (
            self@.dom().contains(k) ==> #[trigger] self@[k] == expected[k]) by {
                lemma_key_index(before, k);
                lemma_key_index(after, k);
                assert(key_index(after, k) >= 0);
                if k != key && key_index(before, k) < before.len() {
                    assert(before[key_index(before, k)].0@ == k);
                    assert(after[key_index(before, k)] == before[key_index(
                        before,
                        k,
                    )]);
                }
            }
            assert(self@ =~= expected);
            assert(texts(names(after)) =~= (if old(self)@.dom().contains(key) {
                texts(names(before))
            } else {
                texts(names(before)).push(key)
            }));
        }
    }

    /// Forgets `name`. The order of the others stays.
    pub fn remove(&mut self, name: &String)
        requires
            old(self).wf(),
        ensures
            final(self).wf(),
            final(self).lacks(*old(self), name@),
    {
        let i = self.position(name);
        let ghost before = self.entries@;
        proof {
            lemma_key_index(before, name@);
        }
        if i < self.entries.len() {
            self.entries.remove(i);
        }
        proof {
            let after = self.entries@;
            assert forall|k: Seq<char>| #[trigger]
                key_index(after, k) == (if k == name@ || key_index(before, k)
                    >= before.len() {
                    after.len() as int
                } else if key_index(before, k) < i {
                    key_index(before, k)
                } else {
                    key_index(before, k) - 1
                }) by {
                lemma_key_index(before, k);
                lemma_key_index(after, k);
                let a = key_index(after, k);
                let b = key_index(before, k);
                if a < after.len() {
                    let origin = if a < i {
                        a
                    } else {
                        a + 1
                    };
                    assert(i < before.len() ==> after[a] == before[origin]);
                    assert(i >= before.len() ==> after[a] == before[a]);
                }
                if b < before.len() && k != name@ {
                    assert(i < before.len() ==> after[if b < i {
                        b
                    } else {
                        b - 1
                    }] == before[b]);
                    assert(i >= before.len() ==> after[b] == before[b]);
                }
            }
            let expected = old(self)@.remove(name@);
            assert forall|k: Seq<char>| self@.dom().contains(k) == expected.dom().contains(k) && (
            self@.dom().contains(k) ==> #[trigger] self@[k] == expected[k]) by {
                lemma_key_index(before, k);
                lemma_key_index(after, k);
                assert(key_index(after, k) >= 0);
            }
            assert(self@ =~= expected);
        }
    }
}

/// The names of the entries, in their order.
pub open spec fn names(entries: Seq<(String, String)>) -> Seq<String> {
    Seq::new(entries.len(), |i: int| entries[i].0)
}

/// Every entry is found under its name, with its text, and nothing else is found.
pub proof fn entries_are_found_by_name(map: TextMap, name: Seq<char>, i: int)
    requires
        map.wf(),
    ensures
        0 <= i < map.entries@.len() ==> {
            &&& map@.dom().contains(map.entries@[i].0@)
            &&& map@[map.entries@[i].0@] == map.entries@[i].1@
        },
        map@.dom().contains(name) <==> exists|k: int|
            0 <= k < map.entries@.len() && (#[trigger] map.entries@[k]).0@ == name,
{
    lemma_key_index(map.entries@, name);
    if 0 <= i < map.entries@.len() {
        let key = map.entries@[i].0@;
        lemma_key_index(map.entries@, key);
        let at = key_index(map.entries@, key);
        if at < i {
            assert(map.entries@[at].0@ != map.entries@[i].0@);
        }
        assert(at == i);
    }
    if exists|k: int| 0 <= k < map.entries@.len() && (#[trigger] map.entries@[k]).0@ == name {
        let k = choose|k: int| 0 <= k < map.entries@.len() && (#[trigger] map.entries@[k]).0@ == name;
        assert(key_index(map.entries@, name) <= k);
    }
}

/// A text that is set is found under its name, and the others stay. A new name comes last; one
/// that was there keeps its place.
pub proof fn set_texts_are_found(
    after: TextMap,
    before: TextMap,
    name: Seq<char>,
    value: Seq<char>,
    other: Seq<char>,
    i: int,
)
    requires
        after.adds(before, name, value),
    ensures
        after@.dom().contains(name),
        after@[name] == value,
        other != name ==> after@.dom().contains(other) == before@.dom().contains(other),
        other != name && before@.dom().contains(other) ==> after@[other] == before@[other],
        before@.dom().contains(name) ==> after.entries@.len() == before.entries@.len(),
        !before@.dom().contains(name) ==> {
            &&& after.entries@.len() == before.entries@.len() + 1
            &&& after.entries@.last().0@ == name
        },
        0 <= i < before.entries@.len() ==> after.entries@[i].0@ == before.entries@[i].0@,
{
    let was = texts(names(before.entries@));
    let now = texts(names(after.entries@));
    assert(was.len() == before.entries@.len() && now.len() == after.entries@.len());
    if 0 <= i < before.entries@.len() {
        assert(now[i] == was[i]);
        assert(now[i] == after.entries@[i].0@);
    }
    if !before@.dom().contains(name) {
        assert(now[now.len() - 1] == name);
        assert(now[now.len() - 1] == after.entries@[now.len() - 1].0@);
    }
}

/// A name that is removed is not found any more, and the other names keep their texts.
pub proof fn removed_names_are_gone(
    after: TextMap,
    before: TextMap,
    name: Seq<char>,
    other: Seq<char>,
)
    requires
        after.lacks(before, name),
    ensures
        !after@.dom().contains(name),
        other != name ==> after@.dom().contains(other) == before@.dom().contains(other),
        other != name && before@.dom().contains(other) ==> after@[other] == before@[other],
        before@.dom().contains(name) ==> after.entries@.len() == before.entries@.len() - 1,
        !before@.dom().contains(name) ==> after.entries@ == before.entries@,
{
    lemma_key_index(before.entries@, name);
}

} // verus!
