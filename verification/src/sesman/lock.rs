//! The session lock and the leftovers of earlier runs.

use crate::paths::{file_name, file_name_of, parent, parent_of};
use crate::text::{
    chars_of,
    decimal,
    ends_with,
    find_from,
    first_at,
    has_prefix,
    has_suffix,
    is_space,
    lemma_first_at,
    numbers_are_written_plainly,
    parse_i32,
    parsed_signed,
    signed_text_round_trip,
    starts_with,
    text_of,
    trim,
    trimmed,
    trimming_undoes_padding,
};
use vstd::prelude::*;

verus! {

/// The process that a lock file names.
pub open spec fn owner_of(content: Seq<char>) -> Option<int> {
    parsed_signed(trimmed(content), i32::MIN as int, i32::MAX as int)
}

/// The process that a lock file names, if it names one.
pub fn lock_owner(content: &str) -> (r: Option<i32>)
    ensures
        match r {
            Some(pid) => owner_of(content@) == Some(pid as int),
            None => owner_of(content@) is None,
        },
{
    parse_i32(trim(content).as_str())
}

/// A lock that exists already is stale: it names no process, or one that is gone.
pub open spec fn is_stale(owner: Option<i32>, owner_alive: bool) -> bool {
    owner is None || !owner_alive
}

/// Whether a lock that exists already is stale: it names no process, or one that is gone.
pub fn stale_lock(owner: Option<i32>, owner_alive: bool) -> (r: bool)
    ensures
        r == is_stale(owner, owner_alive),
{
    owner.is_none() || !owner_alive
}

/// What to do about a lock that exists already.
#[derive(Debug)]
pub enum LockDecision {
    /// Remove it and try again.
    Replace,
    /// Another manager works on the session.
    Refuse(String),
}

/// What is done about a lock that exists already: a stale one is replaced, another is respected.
pub open spec fn lock_decided(
    path: Seq<char>,
    owner: Option<i32>,
    owner_alive: bool,
    r: LockDecision,
) -> bool {
    if is_stale(owner, owner_alive) {
        r is Replace
    } else {
        r matches LockDecision::Refuse(e) && e@ == "session is already locked: "@ + path
    }
}

/// Decides about a lock that exists already.
pub fn lock_decision(path: &str, owner: Option<i32>, owner_alive: bool) -> (r: LockDecision)
    ensures
        lock_decided(path@, owner, owner_alive, r),
{
    if stale_lock(owner, owner_alive) {
        LockDecision::Replace
    } else {
        LockDecision::Refuse("session is already locked: ".to_owned().concat(path))
    }
}

/// What a cleanup pattern asks to remove.
#[derive(Debug)]
pub enum Cleanup {
    /// One file.
    File(String),
    /// The files of a directory whose names start and end so.
    Matching { dir: String, prefix: String, suffix: String },
    /// Nothing.
    Nothing,
}

/// The pattern asks for what the cleanup says: without a star it is one file; with one,
/// it is split at the first star, and the part before it at its last component.
pub open spec fn asks_for(pattern: Seq<char>, r: Cleanup) -> bool {
    let star = first_at(pattern, '*');
    if star == pattern.len() {
        r matches Cleanup::File(path) && path@ == pattern
    } else {
        match file_name_of(pattern.take(star)) {
            Some(name) => {
                &&& r is Matching
                &&& r->dir@ == (match parent_of(pattern.take(star)) {
                    Some(d) => d,
                    None => "."@,
                })
                &&& r->prefix@ == name
                &&& r->suffix@ == pattern.skip(star + 1)
            },
            None => r is Nothing,
        }
    }
}

/// What a cleanup pattern asks to remove.
pub fn cleanup_simple_glob(pattern: &str) -> (r: Cleanup)
    ensures
        asks_for(pattern@, r),
{
    let v = chars_of(pattern);
    let star = find_from(&v, 0, '*');
    assert(v@.skip(0) =~= pattern@);
    let n: usize = v.len();
    if star == n {
        return Cleanup::File(pattern.to_owned());
    }
    let before = text_of(&v, 0, star);
    let suffix = text_of(&v, star + 1, n);
    assert(before@ =~= pattern@.take(star as int));
    assert(suffix@ =~= pattern@.skip(star + 1));
    let dir = match parent(before.as_str()) {
        Some(d) => d,
        None => ".".to_owned(),
    };
    match file_name(before.as_str()) {
        Some(prefix) => Cleanup::Matching { dir, prefix, suffix },
        None => Cleanup::Nothing,
    }
}

/// A file's name starts and ends so.
pub open spec fn name_matches(name: Seq<char>, prefix: Seq<char>, suffix: Seq<char>) -> bool {
    has_prefix(name, prefix) && has_suffix(name, suffix)
}

/// Whether a file of the directory is to be removed.
pub fn matches_glob(file_name: &str, prefix: &str, suffix: &str) -> (r: bool)
    ensures
        r == name_matches(file_name@, prefix@, suffix@),
{
    starts_with(file_name, prefix) && ends_with(file_name, suffix)
}

/// A lock that names a living process is respected, and refused with the lock's path. A lock
/// that names no process, or one that is gone, is replaced.
pub proof fn living_owners_keep_their_lock(path: Seq<char>, pid: i32, r: LockDecision)
    ensures
        lock_decided(path, Some(pid), true, r) ==> (r matches LockDecision::Refuse(e) && e@
            == "session is already locked: "@ + path),
        lock_decided(path, Some(pid), false, r) ==> r is Replace,
        lock_decided(path, None, true, r) ==> r is Replace,
        lock_decided(path, None, false, r) ==> r is Replace,
        is_stale(Some(pid), false),
        is_stale(None, true),
        !is_stale(Some(pid), true),
{
}

/// A lock file that holds the number of a process and a line feed names that process.
pub proof fn lock_files_name_their_owner(pid: nat)
    requires
        pid <= i32::MAX,
    ensures
        owner_of(decimal(pid) + seq!['\n']) == Some(pid as int),
        owner_of(Seq::<char>::empty()) is None,
{
    let s = decimal(pid);
    numbers_are_written_plainly(pid, 0);
    numbers_are_written_plainly(pid, s.len() - 1);
    let first = s[0];
    let last = s.last();
    assert(!is_space(first));
    assert(!is_space(last));
    let nothing = Seq::<char>::empty();
    trimming_undoes_padding(nothing, s, seq!['\n']);
    assert(nothing + s + seq!['\n'] =~= s + seq!['\n']);
    signed_text_round_trip(pid as int, i32::MIN as int, i32::MAX as int);
}

/// A pattern without a star asks for the one file that it names.
pub proof fn plain_patterns_name_one_file(pattern: Seq<char>, r: Cleanup)
    requires
        !pattern.contains('*'),
        asks_for(pattern, r),
    ensures
        r matches Cleanup::File(path) && path@ == pattern,
{
    lemma_first_at(pattern, '*');
}

/// A pattern with a star asks for the files of one directory: those whose names begin with what
/// stands before the star in its last component and end with all that follows the star.
pub proof fn star_patterns_name_files_of_one_directory(
    before: Seq<char>,
    after: Seq<char>,
    r: Cleanup,
)
    requires
        !before.contains('*'),
        asks_for(before + seq!['*'] + after, r),
    ensures
        !(r is File),
        file_name_of(before) is None ==> r is Nothing,
        file_name_of(before) matches Some(name) ==> (r matches Cleanup::Matching {
            dir,
            prefix,
            suffix,
        } && prefix@ == name && suffix@ == after && (parent_of(before) matches Some(d) ==> dir@
            == d) && (parent_of(before) is None ==> dir@ == "."@)),
{
    let pattern = before + seq!['*'] + after;
    lemma_first_at(pattern, '*');
    let star = first_at(pattern, '*');
    assert(pattern[before.len() as int] == '*');
    if star < before.len() {
        assert(pattern[star] == before[star]);
        assert(before.contains('*'));
    }
    assert(star == before.len());
    assert(pattern.take(star) =~= before);
    assert(pattern.skip(star + 1) =~= after);
}

/// Whatever stands in place of the star, a name made of the beginning and the end matches.
pub proof fn stars_stand_for_anything(prefix: Seq<char>, middle: Seq<char>, suffix: Seq<char>)
    ensures
        name_matches(prefix + middle + suffix, prefix, suffix),
{
    let name = prefix + middle + suffix;
    assert(name.take(prefix.len() as int) =~= prefix);
    assert(name.skip(name.len() - suffix.len()) =~= suffix);
}

/// A name that does not begin or end as asked for is left alone.
pub proof fn other_names_are_left_alone(name: Seq<char>, prefix: Seq<char>, suffix: Seq<char>)
    requires
        name_matches(name, prefix, suffix),
    ensures
        prefix.len() <= name.len(),
        suffix.len() <= name.len(),
        forall|i: int| 0 <= i < prefix.len() ==> name[i] == #[trigger] prefix[i],
        forall|i: int|
            0 <= i < suffix.len() ==> name[name.len() - suffix.len() + i] == #[trigger] suffix[i],
{
    assert forall|i: int| 0 <= i < prefix.len() implies name[i] == #[trigger] prefix[i] by {
        assert(name.take(prefix.len() as int)[i] == prefix[i]);
    }
    assert forall|i: int| 0 <= i < suffix.len() implies name[name.len() - suffix.len() + i]
        == #[trigger] suffix[i] by {
        assert(name.skip(name.len() - suffix.len())[i] == suffix[i]);
    }
}

} // verus!
