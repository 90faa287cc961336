//! Collections keyed by the type of their data.

use crate::text::same_text;
use vstd::prelude::*;

verus! {

/// The types of a list, without their order.
pub open spec fn types_of(v: Seq<String>) -> Set<Seq<char>> {
    Set::new(|t: Seq<char>| lists_type(v, t))
}

/// The type is in the list.
pub open spec fn lists_type(v: Seq<String>, t: Seq<char>) -> bool {
    exists|i: int| 0 <= i < v.len() && (#[trigger] v[i])@ == t
}

/// Whether the type is in the list.
pub fn has_type(v: &Vec<String>, t: &str) -> (r: bool)
    ensures
        r == types_of(v@).contains(t@),
{
    let mut i: usize = 0;
    while i < v.len()
        invariant
            i <= v@.len(),
            forall|k: int| 0 <= k < i ==> (#[trigger] v@[k])@ != t@,
        decreases v@.len() - i,
    {
        if same_text(v[i].as_str(), t) {
            return true;
        }
        i += 1;
    }
    false
}

fn includes(a: &Vec<String>, b: &Vec<String>) -> (r: bool)
    ensures
        r == types_of(b@).subset_of(types_of(a@)),
{
    let mut i: usize = 0;
    while i < b.len()
        invariant
            i <= b@.len(),
            forall|k: int| 0 <= k < i ==> types_of(a@).contains((#[trigger] b@[k])@),
        decreases b@.len() - i,
    {
        if !has_type(a, b[i].as_str()) {
            assert(types_of(b@).contains(b@[i as int]@));
            return false;
        }
        i += 1;
    }
    true
}

/// Whether two lists hold the same types.
pub fn same_types(a: &Vec<String>, b: &Vec<String>) -> (r: bool)
    ensures
        r == (types_of(a@) == types_of(b@)),
{
    let r = includes(a, b) && includes(b, a);
    assert(r ==> types_of(a@) =~= types_of(b@));
    r
}

/// A copy of the list.
pub fn copy_types(v: &Vec<String>) -> (r: Vec<String>)
    ensures
        r@ == v@,
{
    let mut r: Vec<String> = Vec::new();
    let mut i: usize = 0;
    while i < v.len()
        invariant
            i <= v@.len(),
            r@ =~= v@.take(i as int),
        decreases v@.len() - i,
    {
        r.push(v[i].clone());
        i += 1;
    }
    assert(v@.take(i as int) =~= v@);
    r
}

/// No type is in the list twice.
pub open spec fn once_each(v: Seq<String>) -> bool {
    forall|i: int, j: int| 0 <= i < j < v.len() ==> (#[trigger] v[i])@ != (#[trigger] v[j])@
}

/// Adds a type to the list, where it is not in it already.
pub fn add_type(v: &mut Vec<String>, t: &str)
    ensures
        types_of(final(v)@) == types_of(old(v)@).insert(t@),
        once_each(old(v)@) ==> once_each(final(v)@),
{
    let ghost before = v@;
    if has_type(v, t) {
        assert(types_of(v@) =~= types_of(before).insert(t@));
        return;
    }
    v.push(t.to_owned());
    assert forall|i: int, j: int| once_each(before) && 0 <= i < j < v@.len() implies (
    #[trigger] v@[i])@ != (#[trigger] v@[j])@ by {
        assert(v@[i] == before[i]);
        if j < before.len() {
            assert(v@[j] == before[j]);
        } else {
            assert(types_of(before).contains(before[i]@));
        }
    }
    proof {
        lemma_one_more(before, v@.last());
        assert(v@ =~= before.push(v@.last()));
    }
}

/// The types of a list, each of them once.
pub fn each_once(v: &Vec<String>) -> (r: Vec<String>)
    ensures
        types_of(r@) == types_of(v@),
        once_each(r@),
{
    let mut r: Vec<String> = Vec::new();
    let mut i: usize = 0;
    assert(types_of(r@) =~= types_of(v@.take(0)));
    while i < v.len()
        invariant
            i <= v@.len(),
            types_of(r@) == types_of(v@.take(i as int)),
            once_each(r@),
        decreases v@.len() - i,
    {
        let ghost head = v@.take(i as int);
        add_type(&mut r, v[i].as_str());
        assert(types_of(v@.take(i + 1)) =~= types_of(head).insert(v@[i as int]@)) by {
            lemma_one_more(head, v@[i as int]);
            assert(v@.take(i + 1) =~= head.push(v@[i as int]));
        }
        i += 1;
    }
    assert(v@.take(i as int) =~= v@);
    r
}

proof fn lemma_one_more(v: Seq<String>, t: String)
    ensures
        types_of(v.push(t)) == types_of(v).insert(t@),
{
    let more = v.push(t);
    assert forall|x: Seq<char>| types_of(v).insert(t@).contains(x) implies types_of(
        more,
    ).contains(x) by {
        if types_of(v).contains(x) {
            let i = choose|i: int| 0 <= i < v.len() && (#[trigger] v[i])@ == x;
            assert(more[i]@ == x);
        } else {
            assert(more[v.len() as int]@ == x);
        }
    }
    assert forall|x: Seq<char>| types_of(more).contains(x) implies types_of(v).insert(
        t@,
    ).contains(x) by {
        let i = choose|i: int| 0 <= i < more.len() && (#[trigger] more[i])@ == x;
        if i < v.len() {
            assert(v[i]@ == x);
        }
    }
    assert(types_of(more) =~= types_of(v).insert(t@));
}

/// Data of one type.
#[derive(Debug)]
pub struct TypedData {
    pub mime_type: String,
    pub data: Vec<u8>,
}

/// What the entries hold, where later ones win.
pub open spec fn contents(entries: Seq<TypedData>) -> Map<Seq<char>, Seq<u8>>
    decreases entries.len(),
{
    if entries.len() == 0 {
        Map::empty()
    } else {
        contents(entries.drop_last()).insert(entries.last().mime_type@, entries.last().data@)
    }
}

/// No type occurs twice.
pub open spec fn distinct(entries: Seq<TypedData>) -> bool {
    forall|i: int, j: int|
        0 <= i < j < entries.len() ==> (#[trigger] entries[i]).mime_type@ != (
        #[trigger] entries[j]).mime_type@
}

/// What distinct entries hold is what each of them says.
pub proof fn lemma_contents(entries: Seq<TypedData>)
    requires
        distinct(entries),
    ensures
        forall|i: int|
            0 <= i < entries.len() ==> contents(entries).dom().contains(
                (#[trigger] entries[i]).mime_type@,
            ) && contents(entries)[entries[i].mime_type@] == entries[i].data@,
        forall|t: Seq<char>| #[trigger]
            contents(entries).dom().contains(t) ==> exists|i: int|
                0 <= i < entries.len() && (#[trigger] entries[i]).mime_type@ == t,
    decreases entries.len(),
{
    if entries.len() > 0 {
        let before = entries.drop_last();
        lemma_contents(before);
        assert forall|i: int| 0 <= i < entries.len() implies contents(entries).dom().contains(
            (#[trigger] entries[i]).mime_type@,
        ) && contents(entries)[entries[i].mime_type@] == entries[i].data@ by {
            if i < before.len() {
                assert(before[i] == entries[i]);
            }
        }
        assert forall|t: Seq<char>| #[trigger]
            contents(entries).dom().contains(t) implies exists|i: int|
            0 <= i < entries.len() && (#[trigger] entries[i]).mime_type@ == t by {
            if t == entries.last().mime_type@ {
                assert(entries[entries.len() - 1].mime_type@ == t);
            } else {
                assert(contents(before).dom().contains(t));
                let i = choose|i: int|
                    0 <= i < before.len() && (#[trigger] before[i]).mime_type@ == t;
                assert(entries[i].mime_type@ == t);
            }
        }
    }
}

/// Data by its type.
#[derive(Debug)]
pub struct DataMap {
    pub entries: Vec<TypedData>,
}

impl DataMap {
    /// No type occurs twice.
    pub open spec fn wf(self) -> bool {
        distinct(self.entries@)
    }

    /// The data by its type.
    pub open spec fn view(self) -> Map<Seq<char>, Seq<u8>> {
        contents(self.entries@)
    }

    /// No data.
    pub fn new() -> (r: Self)
        ensures
            r.wf(),
            r@ == Map::<Seq<char>, Seq<u8>>::empty(),
    {
        DataMap { entries: Vec::new() }
    }

    /// The data of a type.
    pub fn get(&self, mime_type: &str) -> (r: Option<&Vec<u8>>)
        requires
            self.wf(),
        ensures
            match r {
                Some(d) => self@.dom().contains(mime_type@) && self@[mime_type@] == d@,
                None => !self@.dom().contains(mime_type@),
            },
    {
        proof {
            lemma_contents(self.entries@);
        }
        let mut i: usize = 0;
        while i < self.entries.len()
            invariant
                i <= self.entries@.len(),
                forall|k: int|
                    0 <= k < self.entries@.len() ==> self@.dom().contains(
                        (#[trigger] self.entries@[k]).mime_type@,
                    ) && self@[self.entries@[k].mime_type@] == self.entries@[k].data@,
                forall|k: int|
                    0 <= k < i ==> (#[trigger] self.entries@[k]).mime_type@ != mime_type@,
            decreases self.entries@.len() - i,
        {
            if same_text(self.entries[i].mime_type.as_str(), mime_type) {
                return Some(&self.entries[i].data);
            }
            i += 1;
        }
        None
    }

    /// Puts data in, in place of any of the same type.
    pub fn insert(&mut self, mime_type: &str, data: Vec<u8>)
        requires
            old(self).wf(),
        ensures
            final(self).wf(),
            final(self)@ == old(self)@.insert(mime_type@, data@),
    {
        let ghost before = self.entries@;
        let mut kept: Vec<TypedData> = Vec::new();
        let mut rest: Vec<TypedData> = Vec::new();
        std::mem::swap(&mut rest, &mut self.entries);
        let mut reversed: Vec<TypedData> = Vec::new();
        while rest.len() > 0
            invariant
                rest@.len() + reversed@.len() == before.len(),
                rest@ =~= before.take(rest@.len() as int),
                forall|i: int|
                    0 <= i < reversed@.len() ==> #[trigger] reversed@[i] == before[before.len() - 1
                        - i],
            decreases rest@.len(),
        {
            if let Some(e) = rest.pop() {
                reversed.push(e);
            }
        }
        while reversed.len() > 0
            invariant
                reversed@.len() <= before.len(),
                distinct(before),
                forall|i: int|
                    0 <= i < reversed@.len() ==> #[trigger] reversed@[i] == before[before.len() - 1
                        - i],
                distinct(kept@),
                forall|i: int|
                    0 <= i < kept@.len() ==> (#[trigger] kept@[i]).mime_type@ != mime_type@,
                forall|i: int, j: int|
                    0 <= i < kept@.len() && before.len() - reversed@.len() <= j < before.len()
                        ==> (#[trigger] kept@[i]).mime_type@ != (#[trigger] before[j]).mime_type@,
                contents(kept@) =~= contents(
                    before.take(before.len() - reversed@.len()),
                ).remove(mime_type@),
            decreases reversed@.len(),
        {
            let ghost at = before.len() - reversed@.len();
            if let Some(e) = reversed.pop() {
                assert(before.take(at + 1).drop_last() =~= before.take(at));
                assert(before.take(at + 1).last() == before[at]);
                assert(e == before[at]);
                if !same_text(e.mime_type.as_str(), mime_type) {
                    let ghost old_kept = kept@;
                    kept.push(e);
                    assert(kept@.drop_last() =~= old_kept);
                    assert(contents(kept@) =~= contents(old_kept).insert(e.mime_type@, e.data@));
                }
            }
        }
        assert(before.take(before.len() as int) =~= before);
        let ghost old_kept = kept@;
        kept.push(TypedData { mime_type: mime_type.to_owned(), data });
        assert(kept@.drop_last() =~= old_kept);
        self.entries = kept;
        assert(self@ =~= contents(before).insert(mime_type@, data@));
    }

    /// The types of the data, one for each entry.
    pub fn types(&self) -> (r: Vec<String>)
        requires
            self.wf(),
        ensures
            types_of(r@) == self@.dom(),
            once_each(r@),
    {
        let mut r: Vec<String> = Vec::new();
        let mut i: usize = 0;
        while i < self.entries.len()
            invariant
                i <= self.entries@.len(),
                r@.len() == i,
                forall|k: int| 0 <= k < i ==> (#[trigger] r@[k])@ == self.entries@[k].mime_type@,
            decreases self.entries@.len() - i,
        {
            r.push(self.entries[i].mime_type.clone());
            i += 1;
        }
        proof {
            lemma_contents(self.entries@);
            assert forall|t: Seq<char>| self@.dom().contains(t) implies types_of(r@).contains(t) by {
                let k = choose|k: int|
                    0 <= k < self.entries@.len() && (#[trigger] self.entries@[k]).mime_type@ == t;
                assert(r@[k]@ == t);
            }
            assert forall|t: Seq<char>| types_of(r@).contains(t) implies self@.dom().contains(t) by {
                let k = choose|k: int| 0 <= k < r@.len() && (#[trigger] r@[k])@ == t;
                assert(self.entries@[k].mime_type@ == t);
            }
            assert(types_of(r@) =~= self@.dom());
        }
        r
    }

    /// A copy of the data.
    pub fn duplicate(&self) -> (r: Self)
        requires
            self.wf(),
        ensures
            r.wf(),
            r@ == self@,
    {
        let mut r: Vec<TypedData> = Vec::new();
        let mut i: usize = 0;
        while i < self.entries.len()
            invariant
                i <= self.entries@.len(),
                r@.len() == i,
                forall|k: int|
                    0 <= k < i ==> (#[trigger] r@[k]).mime_type@ == self.entries@[k].mime_type@
                        && r@[k].data@ == self.entries@[k].data@,
            decreases self.entries@.len() - i,
        {
            let data = self.entries[i].data.clone();
            assert(data@ =~= self.entries@[i as int].data@);
            r.push(TypedData { mime_type: self.entries[i].mime_type.clone(), data });
            i += 1;
        }
        proof {
            lemma_same_contents(r@, self.entries@);
            assert forall|i: int, j: int| 0 <= i < j < r@.len() implies (
            #[trigger] r@[i]).mime_type@ != (#[trigger] r@[j]).mime_type@ by {
                assert(self.entries@[i].mime_type@ != self.entries@[j].mime_type@);
            }
        }
        DataMap { entries: r }
    }
}

proof fn lemma_same_contents(a: Seq<TypedData>, b: Seq<TypedData>)
    requires
        a.len() == b.len(),
        forall|k: int|
            0 <= k < a.len() ==> (#[trigger] a[k]).mime_type@ == b[k].mime_type@ && a[k].data@
                == b[k].data@,
    ensures
        contents(a) == contents(b),
    decreases a.len(),
{
    if a.len() > 0 {
        lemma_same_contents(a.drop_last(), b.drop_last());
        assert(a[a.len() - 1].mime_type@ == b[a.len() - 1].mime_type@);
    }
}

/// Of several entries of one type the last one counts, and an entry changes nothing for the
/// other types.
pub proof fn last_entry_counts(entries: Seq<TypedData>, last: TypedData, t: Seq<char>)
    ensures
        contents(entries.push(last))[last.mime_type@] == last.data@,
        contents(entries.push(last)).dom().contains(last.mime_type@),
        t != last.mime_type@ ==> (contents(entries.push(last)).dom().contains(t) <==> contents(
            entries,
        ).dom().contains(t)),
        t != last.mime_type@ && contents(entries).dom().contains(t) ==> contents(
            entries.push(last),
        )[t] == contents(entries)[t],
{
    assert(entries.push(last).drop_last() =~= entries);
}

/// The types of a list are those that stand in it, however often and in whatever order.
pub proof fn types_have_no_order(a: Seq<String>, b: Seq<String>, t: Seq<char>)
    ensures
        types_of(a).contains(t) <==> exists|i: int| 0 <= i < a.len() && (#[trigger] a[i])@ == t,
        types_of(a + b) == types_of(a).union(types_of(b)),
{
    let all = a + b;
    assert forall|x: Seq<char>| types_of(a).union(types_of(b)).contains(x) implies types_of(
        all,
    ).contains(x) by {
        if types_of(a).contains(x) {
            let i = choose|i: int| 0 <= i < a.len() && (#[trigger] a[i])@ == x;
            assert(all[i]@ == x);
        } else {
            let i = choose|i: int| 0 <= i < b.len() && (#[trigger] b[i])@ == x;
            assert(all[a.len() + i]@ == x);
        }
    }
    assert forall|x: Seq<char>| types_of(all).contains(x) implies types_of(a).union(
        types_of(b),
    ).contains(x) by {
        let i = choose|i: int| 0 <= i < all.len() && (#[trigger] all[i])@ == x;
        if i < a.len() {
            assert(a[i]@ == x);
        } else {
            assert(b[i - a.len()]@ == x);
        }
    }
    assert(types_of(all) =~= types_of(a).union(types_of(b)));
}

/// A list that holds each type once holds different types in any two of its places.
pub proof fn types_are_listed_once(v: Seq<String>, i: int, j: int)
    requires
        0 <= i < v.len(),
        0 <= j < v.len(),
        i != j,
    ensures
        once_each(v) ==> v[i]@ != v[j]@,
        v.len() == 1 ==> once_each(v),
        v.len() == 2 && v[i]@ != v[j]@ ==> once_each(v),
{
}

} // verus!
