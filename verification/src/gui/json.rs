//! JSON documents as plain values.

use crate::text::same_text;
use vstd::prelude::*;

verus! {

/// A JSON document.
#[derive(Debug)]
pub enum Json {
    Null,
    Bool(bool),
    /// A natural number.
    Number(u64),
    /// Any other number, by its text.
    OtherNumber(String),
    Str(String),
    Array(Vec<Json>),
    Object(Vec<(String, Json)>),
}

/// What a JSON document says.
pub enum JsonTree {
    Null,
    Bool(bool),
    Number(u64),
    OtherNumber(Seq<char>),
    Str(Seq<char>),
    Array(Seq<JsonTree>),
    Object(Seq<(Seq<char>, JsonTree)>),
}

/// How many lists and objects inside one another `serde_json::from_str` reads.
pub const READ_DEPTH: u8 = 127;

/// What `serde_json::from_str` reads in a text, or how it describes its failure.
pub uninterp spec fn parsed_json(text: Seq<char>) -> Result<JsonTree, Seq<char>>;

/// What `serde_json::to_string_pretty` writes for a document.
pub uninterp spec fn printed_json(tree: JsonTree) -> Seq<char>;

/// A document of `serde_json`.
#[verifier::external_type_specification]
#[verifier::external_body]
pub struct ExValue(serde_json::Value);

impl Json {
    /// What the document says.
    pub open spec fn tree(self) -> JsonTree
        decreases self,
    {
        match self {
            Json::Null => JsonTree::Null,
            Json::Bool(b) => JsonTree::Bool(b),
            Json::Number(n) => JsonTree::Number(n),
            Json::OtherNumber(t) => JsonTree::OtherNumber(t@),
            Json::Str(s) => JsonTree::Str(s@),
            Json::Array(items) => JsonTree::Array(
                Seq::new(
                    items@.len(),
                    |i: int|
                        if 0 <= i < items@.len() {
                            items@[i].tree()
                        } else {
                            JsonTree::Null
                        },
                ),
            ),
            Json::Object(entries) => JsonTree::Object(
                Seq::new(
                    entries@.len(),
                    |i: int|
                        if 0 <= i < entries@.len() {
                            (entries@[i].0@, entries@[i].1.tree())
                        } else {
                            (Seq::empty(), JsonTree::Null)
                        },
                ),
            ),
        }
    }
}

/// The value of the first entry under `key`.
pub open spec fn entry(entries: Seq<(Seq<char>, JsonTree)>, key: Seq<char>) -> Option<JsonTree>
    decreases entries.len(),
{
    if entries.len() == 0 {
        None
    } else if entries[0].0 == key {
        Some(entries[0].1)
    } else {
        entry(entries.drop_first(), key)
    }
}

impl JsonTree {
    /// The member `key` of an object.
    pub open spec fn member(self, key: Seq<char>) -> Option<JsonTree> {
        match self {
            JsonTree::Object(entries) => entry(entries, key),
            _ => None,
        }
    }

    /// The member `key` of an object; `Null` if there is none.
    pub open spec fn section(self, key: Seq<char>) -> JsonTree {
        match self.member(key) {
            Some(j) => j,
            None => JsonTree::Null,
        }
    }

    /// The text under `key`.
    pub open spec fn text(self, key: Seq<char>) -> Option<Seq<char>> {
        match self.member(key) {
            Some(JsonTree::Str(s)) => Some(s),
            _ => None,
        }
    }

    /// The natural number under `key`.
    pub open spec fn natural(self, key: Seq<char>) -> Option<u64> {
        match self.member(key) {
            Some(JsonTree::Number(n)) => Some(n),
            _ => None,
        }
    }

    /// The truth value under `key`.
    pub open spec fn truth(self, key: Seq<char>) -> Option<bool> {
        match self.member(key) {
            Some(JsonTree::Bool(b)) => Some(b),
            _ => None,
        }
    }

    /// The items of the list under `key`; none if there is no list.
    pub open spec fn items(self, key: Seq<char>) -> Seq<JsonTree> {
        match self.member(key) {
            Some(JsonTree::Array(items)) => items,
            _ => Seq::empty(),
        }
    }
}

/// No name stands twice among the entries.
pub open spec fn distinct_names(entries: Seq<(Seq<char>, JsonTree)>) -> bool {
    forall|i: int, j: int|
        0 <= i < j < entries.len() ==> (#[trigger] entries[i]).0 != (#[trigger] entries[j]).0
}

/// The document has no numbers but natural ones, no name stands twice in an object, and no more
/// than `n` lists and objects stand inside one another.
pub open spec fn fits(j: JsonTree, n: nat) -> bool
    decreases n,
{
    match j {
        JsonTree::OtherNumber(_) => false,
        JsonTree::Array(items) => if n == 0 {
            false
        } else {
            forall|i: int| 0 <= i < items.len() ==> fits(#[trigger] items[i], (n - 1) as nat)
        },
        JsonTree::Object(entries) => if n == 0 {
            false
        } else {
            distinct_names(entries) && forall|i: int|
                0 <= i < entries.len() ==> fits((#[trigger] entries[i]).1, (n - 1) as nat)
        },
        _ => true,
    }
}

/// Two documents with at most `n` lists and objects inside one another say the same: in lists
/// item by item, in objects under each name, whatever the order of the names.
pub open spec fn agrees(a: JsonTree, b: JsonTree, n: nat) -> bool
    decreases n,
{
    match (a, b) {
        (JsonTree::Array(x), JsonTree::Array(y)) => if n == 0 {
            false
        } else {
            x.len() == y.len() && forall|i: int|
                0 <= i < x.len() ==> agrees(#[trigger] x[i], y[i], (n - 1) as nat)
        },
        (JsonTree::Object(x), JsonTree::Object(y)) => if n == 0 {
            false
        } else {
            forall|name: Seq<char>|
                match (#[trigger] entry(x, name), entry(y, name)) {
                    (Some(p), Some(q)) => agrees(p, q, (n - 1) as nat),
                    (None, None) => true,
                    _ => false,
                }
        },
        _ => a == b,
    }
}

/// The text is that of a document which says the same as the given one.
pub open spec fn reads_as(text: Seq<char>, j: JsonTree) -> bool {
    parsed_json(text) matches Ok(read) && agrees(read, j, READ_DEPTH as nat)
}

/// What agreeing objects hold under a name agrees.
pub proof fn lemma_agreeing_members(a: JsonTree, b: JsonTree, n: nat, name: Seq<char>)
    requires
        agrees(a, b, n),
        b is Object,
    ensures
        n > 0,
        a is Object,
        a.text(name) == b.text(name),
        a.natural(name) == b.natural(name),
        a.truth(name) == b.truth(name),
        match (a.member(name), b.member(name)) {
            (Some(p), Some(q)) => agrees(p, q, (n - 1) as nat),
            (None, None) => true,
            _ => false,
        },
        a.items(name).len() == b.items(name).len(),
        forall|i: int|
            0 <= i < b.items(name).len() ==> n > 1 && agrees(
                #[trigger] a.items(name)[i],
                b.items(name)[i],
                (n - 2) as nat,
            ),
{
    reveal_with_fuel(agrees, 3);
    assert(entry(a->Object_0, name) == a.member(name));
}

/// The contents of an optional text.
pub open spec fn text_of(t: Option<String>) -> Option<Seq<char>> {
    match t {
        Some(s) => Some(s@),
        None => None,
    }
}

impl Json {
    /// The member `key` of an object.
    pub fn get(&self, key: &str) -> (r: Option<&Json>)
        ensures
            match r {
                Some(j) => self.tree().member(key@) == Some(j.tree()),
                None => self.tree().member(key@) is None,
            },
    {
        match self {
            Json::Object(entries) => {
                let ghost all = self.tree()->Object_0;
                assert(all.skip(0) =~= all);
                let mut i: usize = 0;
                while i < entries.len()
                    invariant
                        i <= entries@.len(),
                        self.tree() == JsonTree::Object(all),
                        all.len() == entries@.len(),
                        forall|k: int|
                            0 <= k < entries@.len() ==> #[trigger] all[k] == (
                                entries@[k].0@,
                                entries@[k].1.tree(),
                            ),
                        entry(all, key@) == entry(all.skip(i as int), key@),
                    decreases entries@.len() - i,
                {
                    assert(all.skip(i as int)[0] == all[i as int]);
                    if same_text(entries[i].0.as_str(), key) {
                        assert(all[i as int].0 == key@);
                        return Some(&entries[i].1);
                    }
                    assert(all.skip(i as int).drop_first() =~= all.skip(i + 1));
                    i += 1;
                }
                None
            },
            _ => None,
        }
    }

    /// The text under `key`.
    pub fn get_text(&self, key: &str) -> (r: Option<String>)
        ensures
            text_of(r) == self.tree().text(key@),
    {
        match self.get(key) {
            Some(Json::Str(s)) => Some(s.clone()),
            _ => None,
        }
    }

    /// The text under `key`, or a default.
    pub fn get_text_or(&self, key: &str, default: &str) -> (r: String)
        ensures
            r@ == (match self.tree().text(key@) {
                Some(t) => t,
                None => default@,
            }),
    {
        match self.get_text(key) {
            Some(s) => s,
            None => default.to_owned(),
        }
    }

    /// The natural number under `key`.
    pub fn get_natural(&self, key: &str) -> (r: Option<u64>)
        ensures
            r == self.tree().natural(key@),
    {
        match self.get(key) {
            Some(Json::Number(n)) => Some(*n),
            _ => None,
        }
    }

    /// The truth value under `key`.
    pub fn get_truth(&self, key: &str) -> (r: Option<bool>)
        ensures
            r == self.tree().truth(key@),
    {
        match self.get(key) {
            Some(Json::Bool(b)) => Some(*b),
            _ => None,
        }
    }

    /// The items of the list under `key`.
    pub fn get_items(&self, key: &str) -> (r: Option<&Vec<Json>>)
        ensures
            match r {
                Some(v) => self.tree().items(key@) == trees(v@),
                None => self.tree().items(key@) == Seq::<JsonTree>::empty(),
            },
    {
        match self.get(key) {
            Some(Json::Array(v)) => {
                assert(self.tree().items(key@) =~= trees(v@));
                Some(v)
            },
            _ => None,
        }
    }
}

/// What the documents of a list say.
pub open spec fn trees(v: Seq<Json>) -> Seq<JsonTree> {
    Seq::new(v.len(), |i: int| v[i].tree())
}

/// What the entries of an object say.
pub open spec fn entry_trees(v: Seq<(String, Json)>) -> Seq<(Seq<char>, JsonTree)> {
    Seq::new(v.len(), |i: int| (v[i].0@, v[i].1.tree()))
}

/// An object with the given entries.
pub fn object(entries: Vec<(String, Json)>) -> (r: Json)
    ensures
        r.tree() == JsonTree::Object(entry_trees(entries@)),
{
    let r = Json::Object(entries);
    assert(r.tree()->Object_0 =~= entry_trees(entries@));
    r
}

/// A list of the given documents.
pub fn array(items: Vec<Json>) -> (r: Json)
    ensures
        r.tree() == JsonTree::Array(trees(items@)),
{
    let r = Json::Array(items);
    assert(r.tree()->Array_0 =~= trees(items@));
    r
}

/// Adds an entry to those of an object.
pub fn push_entry(entries: &mut Vec<(String, Json)>, key: &str, value: Json)
    ensures
        entry_trees(final(entries)@) == entry_trees(old(entries)@).push((key@, value.tree())),
{
    entries.push((key.to_owned(), value));
    assert(entry_trees(entries@) =~= entry_trees(old(entries)@).push((key@, value.tree())));
}

/// Turns a document of `serde_json` into one of this library, variant by variant.
/// Which of the two number variants stands for a number is decided by
/// `serde_json::Number::as_u64`.
#[verifier::external_body]
fn json_of(value: serde_json::Value) -> Json {
    match value {
        serde_json::Value::Null => Json::Null,
        serde_json::Value::Bool(b) => Json::Bool(b),
        serde_json::Value::Number(n) => match n.as_u64() {
            Some(u) => Json::Number(u),
            None => Json::OtherNumber(n.to_string()),
        },
        serde_json::Value::String(s) => Json::Str(s),
        serde_json::Value::Array(a) => Json::Array(a.into_iter().map(json_of).collect()),
        serde_json::Value::Object(o) => {
            Json::Object(o.into_iter().map(|(k, v)| (k, json_of(v))).collect())
        },
    }
}

/// Turns a document of this library into one of `serde_json`, variant by variant.
#[verifier::external_body]
fn value_of(json: &Json) -> serde_json::Value {
    match json {
        Json::Null => serde_json::Value::Null,
        Json::Bool(b) => serde_json::Value::Bool(*b),
        Json::Number(n) => serde_json::Value::from(*n),
        Json::OtherNumber(t) => t.parse().map_or(serde_json::Value::Null, serde_json::Value::Number),
        Json::Str(s) => serde_json::Value::String(s.clone()),
        Json::Array(a) => serde_json::Value::Array(a.iter().map(value_of).collect()),
        Json::Object(o) => {
            serde_json::Value::Object(o.iter().map(|(k, v)| (k.clone(), value_of(v))).collect())
        },
    }
}

/// Calls `serde_json::from_str`. What it reads, or how it describes its failure, depends
/// on the text alone.
#[verifier::external_body]
pub(crate) fn parse_json(text: &str) -> (r: Result<Json, String>)
    ensures
        match r {
            Ok(j) => parsed_json(text@) == Ok::<JsonTree, Seq<char>>(j.tree()),
            Err(e) => parsed_json(text@) == Err::<JsonTree, Seq<char>>(e@),
        },
{
    serde_json::from_str(text).map(json_of).map_err(|e| e.to_string())
}

/// Calls `serde_json::to_string_pretty`, which fails on no document, for the names of an object
/// are texts. What it writes depends on the document alone, and `serde_json::from_str` reads it
/// as a document that says the same, with the names of an object in its own order.
#[verifier::external_body]
pub(crate) fn print_json(json: &Json) -> (r: Result<String, String>)
    requires
        fits(json.tree(), READ_DEPTH as nat),
    ensures
        r is Ok,
        r->Ok_0@ == printed_json(json.tree()),
        reads_as(r->Ok_0@, json.tree()),
{
    serde_json::to_string_pretty(&value_of(json)).map_err(|e| e.to_string())
}

/// A member is what its first entry says, and a name that no entry has is no member.
pub proof fn first_entry_counts(entries: Seq<(Seq<char>, JsonTree)>, key: Seq<char>, at: int)
    requires
        0 <= at <= entries.len(),
        forall|i: int| 0 <= i < at ==> (#[trigger] entries[i]).0 != key,
        at < entries.len() ==> entries[at].0 == key,
    ensures
        at < entries.len() ==> JsonTree::Object(entries).member(key) == Some(entries[at].1),
        at == entries.len() ==> JsonTree::Object(entries).member(key) is None,
    decreases entries.len(),
{
    if entries.len() > 0 && at > 0 {
        let rest = entries.drop_first();
        assert forall|i: int| 0 <= i < at - 1 implies (#[trigger] rest[i]).0 != key by {
            assert(rest[i] == entries[i + 1]);
        }
        if at < entries.len() {
            assert(rest[at - 1] == entries[at]);
        }
        assert(entries[0].0 != key);
        first_entry_counts(rest, key, at - 1);
    }
}

/// Only an object has members, and each is read as what it is: a text, a natural number, a
/// truth value or a list, never as two of them.
pub proof fn members_are_what_they_are(j: JsonTree, key: Seq<char>)
    ensures
        !(j is Object) ==> j.member(key) is None,
        j.text(key) is Some <==> j.member(key) is Some && j.member(key)->0 is Str,
        j.text(key) is Some ==> j.member(key)->0->Str_0 == j.text(key)->0,
        j.natural(key) is Some <==> j.member(key) is Some && j.member(key)->0 is Number,
        j.natural(key) is Some ==> j.member(key)->0->Number_0 == j.natural(key)->0,
        j.truth(key) is Some <==> j.member(key) is Some && j.member(key)->0 is Bool,
        j.truth(key) is Some ==> j.member(key)->0->Bool_0 == j.truth(key)->0,
        j.items(key).len() > 0 ==> j.member(key) is Some && j.member(key)->0 is Array,
        j.member(key) is Some && j.member(key)->0 is Array ==> j.items(key)
            == j.member(key)->0->Array_0,
        j.member(key) is Some ==> j.section(key) == j.member(key)->0,
        j.member(key) is None ==> j.section(key) is Null,
{
}

} // verus!
