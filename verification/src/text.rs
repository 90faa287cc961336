//! Text helpers shared by the whole crate.
//!
//! A text is modelled by its sequence of characters (`s@`). The helpers here
//! compare, slice, trim and split texts, and turn numbers into decimal digits
//! and back.

use vstd::prelude::*;

verus! {

/// The characters that Unicode gives the property `White_Space`.
pub open spec fn is_space(c: char) -> bool {
    let n = c as u32;
    ||| 0x09 <= n <= 0x0d
    ||| n == 0x20
    ||| n == 0x85
    ||| n == 0xa0
    ||| n == 0x1680
    ||| 0x2000 <= n <= 0x200a
    ||| n == 0x2028
    ||| n == 0x2029
    ||| n == 0x202f
    ||| n == 0x205f
    ||| n == 0x3000
}

/// All characters are ASCII.
pub open spec fn is_ascii_text(s: Seq<char>) -> bool {
    forall|i: int| 0 <= i < s.len() ==> (#[trigger] s[i]) as u32 <= 127
}

/// An ASCII letter in lower case; any other character as it is.
pub open spec fn ascii_lower(c: char) -> char {
    if 'A' <= c && c <= 'Z' {
        (c as u32 + 32) as char
    } else {
        c
    }
}

/// An ASCII letter in upper case; any other character as it is.
pub open spec fn ascii_upper(c: char) -> char {
    if 'a' <= c && c <= 'z' {
        (c as u32 - 32) as char
    } else {
        c
    }
}

/// A text with its ASCII letters in lower case.
pub open spec fn ascii_lowered(s: Seq<char>) -> Seq<char> {
    Seq::new(s.len(), |i: int| ascii_lower(s[i]))
}

/// A text with its ASCII letters in upper case.
pub open spec fn ascii_uppered(s: Seq<char>) -> Seq<char> {
    Seq::new(s.len(), |i: int| ascii_upper(s[i]))
}

/// What `str::to_lowercase` makes of a text with other characters than ASCII ones.
pub uninterp spec fn unicode_lowercase(s: Seq<char>) -> Seq<char>;

/// What `str::to_uppercase` makes of a text with other characters than ASCII ones.
pub uninterp spec fn unicode_uppercase(s: Seq<char>) -> Seq<char>;

/// A text in lower case.
pub open spec fn lowercase(s: Seq<char>) -> Seq<char> {
    if is_ascii_text(s) {
        ascii_lowered(s)
    } else {
        unicode_lowercase(s)
    }
}

/// A text in upper case.
pub open spec fn uppercase(s: Seq<char>) -> Seq<char> {
    if is_ascii_text(s) {
        ascii_uppered(s)
    } else {
        unicode_uppercase(s)
    }
}

/// `String::push` appends exactly the given character.
pub assume_specification[ String::push ](s: &mut String, c: char)
    ensures
        final(s)@ == old(s)@.push(c),
;

/// Calls `char::is_whitespace`, which accepts the characters with the property `White_Space`
/// of Unicode.
#[verifier::external_body]
fn char_is_space(c: char) -> (r: bool)
    ensures
        r == is_space(c),
{
    c.is_whitespace()
}

/// Calls `str::to_lowercase`. In an ASCII text it turns the letters `A` to `Z` into `a` to `z`
/// and leaves everything else; the result for any other text depends on the text alone.
#[verifier::external_body]
pub(crate) fn to_lowercase(s: &str) -> (r: String)
    ensures
        is_ascii_text(s@) ==> r@ == ascii_lowered(s@),
        !is_ascii_text(s@) ==> r@ == unicode_lowercase(s@),
{
    s.to_lowercase()
}

/// Calls `str::to_uppercase`. In an ASCII text it turns the letters `a` to `z` into `A` to `Z`
/// and leaves everything else; the result for any other text depends on the text alone.
#[verifier::external_body]
pub(crate) fn to_uppercase(s: &str) -> (r: String)
    ensures
        is_ascii_text(s@) ==> r@ == ascii_uppered(s@),
        !is_ascii_text(s@) ==> r@ == unicode_uppercase(s@),
{
    s.to_uppercase()
}

/// Whether two texts hold the same characters.
pub fn same_text(a: &str, b: &str) -> (r: bool)
    ensures
        r == (a@ == b@),
{
    a.to_owned() == b.to_owned()
}

/// The characters of a text.
pub fn chars_of(s: &str) -> (v: Vec<char>)
    ensures
        v@ == s@,
{
    let mut v: Vec<char> = Vec::new();
    for c in it: s.chars()
        invariant
            v@ == s@.take(it.index() as int),
            it.seq() == s@,
    {
        assert(s@.take(it.index() as int).push(c) =~= s@.take(it.index() + 1));
        v.push(c);
    }
    assert(s@.take(s@.len() as int) =~= s@);
    v
}

/// The text made of the characters `v[from..to]`.
pub fn text_of(v: &Vec<char>, from: usize, to: usize) -> (s: String)
    requires
        from <= to <= v@.len(),
    ensures
        s@ == v@.subrange(from as int, to as int),
{
    let mut s = String::new();
    let mut i: usize = from;
    while i < to
        invariant
            from <= i <= to <= v@.len(),
            s@ == v@.subrange(from as int, i as int),
        decreases to - i,
    {
        s.push(v[i]);
        assert(v@.subrange(from as int, i as int).push(v@[i as int]) =~= v@.subrange(
            from as int,
            i + 1,
        ));
        i += 1;
    }
    s
}


/// A set of characters that can be trimmed off a text.
#[derive(Clone, Copy)]
pub enum CharClass {
    /// Everything `char::is_whitespace` accepts.
    Space,
    /// One character.
    One(char),
    /// Either of two characters.
    Either(char, char),
}

impl CharClass {
    /// Whether the class holds `c`.
    pub open spec fn holds(self, c: char) -> bool {
        match self {
            CharClass::Space => is_space(c),
            CharClass::One(a) => c == a,
            CharClass::Either(a, b) => c == a || c == b,
        }
    }

    fn accepts(self, c: char) -> (r: bool)
        ensures
            r == self.holds(c),
    {
        match self {
            CharClass::Space => char_is_space(c),
            CharClass::One(a) => c == a,
            CharClass::Either(a, b) => c == a || c == b,
        }
    }
}

/// `s` without its leading characters of the class.
pub open spec fn skip_start(s: Seq<char>, class: CharClass) -> Seq<char>
    decreases s.len(),
{
    if s.len() > 0 && class.holds(s[0]) {
        skip_start(s.drop_first(), class)
    } else {
        s
    }
}

/// `s` without its trailing characters of the class.
pub open spec fn skip_end(s: Seq<char>, class: CharClass) -> Seq<char>
    decreases s.len(),
{
    if s.len() > 0 && class.holds(s.last()) {
        skip_end(s.drop_last(), class)
    } else {
        s
    }
}

/// `s` without leading and trailing white space.
pub open spec fn trimmed(s: Seq<char>) -> Seq<char> {
    skip_end(skip_start(s, CharClass::Space), CharClass::Space)
}

/// Where `v[from..to]` starts once leading characters of the class are skipped.
fn start_past(v: &Vec<char>, from: usize, to: usize, class: CharClass) -> (i: usize)
    requires
        from <= to <= v@.len(),
    ensures
        from <= i <= to,
        v@.subrange(i as int, to as int) == skip_start(v@.subrange(from as int, to as int), class),
{
    let mut i: usize = from;
    while i < to && class.accepts(v[i])
        invariant
            from <= i <= to <= v@.len(),
            skip_start(v@.subrange(from as int, to as int), class) == skip_start(
                v@.subrange(i as int, to as int),
                class,
            ),
        decreases to - i,
    {
        assert(v@.subrange(i as int, to as int).drop_first() =~= v@.subrange(i + 1, to as int));
        i += 1;
    }
    i
}

/// Where `v[from..to]` ends once trailing characters of the class are skipped.
fn end_before(v: &Vec<char>, from: usize, to: usize, class: CharClass) -> (i: usize)
    requires
        from <= to <= v@.len(),
    ensures
        from <= i <= to,
        v@.subrange(from as int, i as int) == skip_end(v@.subrange(from as int, to as int), class),
{
    let mut i: usize = to;
    while i > from && class.accepts(v[i - 1])
        invariant
            from <= i <= to <= v@.len(),
            skip_end(v@.subrange(from as int, to as int), class) == skip_end(
                v@.subrange(from as int, i as int),
                class,
            ),
        decreases i,
    {
        assert(v@.subrange(from as int, i as int).drop_last() =~= v@.subrange(from as int, i - 1));
        i -= 1;
    }
    i
}

/// A text without the leading characters of `head` and the trailing ones of `tail`.
pub fn strip(s: &str, head: CharClass, tail: CharClass) -> (r: String)
    ensures
        r@ == skip_end(skip_start(s@, head), tail),
{
    let v = chars_of(s);
    let from = start_past(&v, 0, v.len(), head);
    assert(v@.subrange(0, v@.len() as int) =~= s@);
    let to = end_before(&v, from, v.len(), tail);
    text_of(&v, from, to)
}

/// A text without leading and trailing white space.
pub fn trim(s: &str) -> (r: String)
    ensures
        r@ == trimmed(s@),
{
    strip(s, CharClass::Space, CharClass::Space)
}

/// Where `c` first occurs in `s`; its length if it does not.
pub open spec fn first_at(s: Seq<char>, c: char) -> int
    decreases s.len(),
{
    if s.len() == 0 || s[0] == c {
        0
    } else {
        1 + first_at(s.drop_first(), c)
    }
}

/// Where `c` last occurs in `s`; -1 if it does not.
pub open spec fn last_at(s: Seq<char>, c: char) -> int
    decreases s.len(),
{
    if s.len() == 0 || s.last() == c {
        s.len() - 1
    } else {
        last_at(s.drop_last(), c)
    }
}

/// What `first_at` finds.
pub proof fn lemma_first_at(s: Seq<char>, c: char)
    ensures
        0 <= first_at(s, c) <= s.len(),
        first_at(s, c) < s.len() ==> s[first_at(s, c)] == c,
        forall|i: int| 0 <= i < first_at(s, c) ==> s[i] != c,
        s.contains(c) <==> first_at(s, c) < s.len(),
    decreases s.len(),
{
    if s.len() > 0 && s[0] != c {
        lemma_first_at(s.drop_first(), c);
        let rest = s.drop_first();
        assert forall|i: int| 0 <= i < first_at(s, c) implies s[i] != c by {
            if i > 0 {
                assert(s[i] == rest[i - 1]);
            }
        }
        if s.contains(c) {
            let k = choose|k: int| 0 <= k < s.len() && s[k] == c;
            assert(rest[k - 1] == c);
        }
        if first_at(s, c) < s.len() {
            assert(s[first_at(s, c)] == rest[first_at(s, c) - 1]);
        }
    }
}

/// Where `c` first occurs in `v[from..]`; the length of `v` if it does not.
pub fn find_from(v: &Vec<char>, from: usize, c: char) -> (i: usize)
    requires
        from <= v@.len(),
    ensures
        from <= i <= v@.len(),
        i - from == first_at(v@.skip(from as int), c),
{
    let mut i: usize = from;
    while i < v.len() && v[i] != c
        invariant
            from <= i <= v@.len(),
            first_at(v@.skip(from as int), c) == i - from + first_at(v@.skip(i as int), c),
        decreases v@.len() - i,
    {
        assert(v@.skip(i as int).drop_first() =~= v@.skip(i + 1));
        i += 1;
    }
    i
}

/// Where `c` last occurs in `v`, if it does.
fn find_last(v: &Vec<char>, c: char) -> (r: Option<usize>)
    ensures
        match r {
            Some(i) => i == last_at(v@, c) && i < v@.len(),
            None => last_at(v@, c) == -1,
        },
{
    let mut i: usize = v.len();
    assert(v@.take(i as int) =~= v@);
    while i > 0 && v[i - 1] != c
        invariant
            i <= v@.len(),
            last_at(v@, c) == last_at(v@.take(i as int), c),
        decreases i,
    {
        assert(v@.take(i as int).drop_last() =~= v@.take(i - 1));
        i -= 1;
    }
    if i == 0 {
        None
    } else {
        Some(i - 1)
    }
}

/// The contents of a list of texts.
pub open spec fn texts(v: Seq<String>) -> Seq<Seq<char>> {
    Seq::new(v.len(), |i: int| v[i]@)
}

/// `s` cut at the occurrences of `c` into at most `n` parts, from the left.
pub open spec fn split_at_most(s: Seq<char>, n: nat, c: char) -> Seq<Seq<char>>
    decreases n,
{
    if n <= 1 || first_at(s, c) == s.len() {
        seq![s]
    } else {
        seq![s.take(first_at(s, c))] + split_at_most(s.skip(first_at(s, c) + 1), (n - 1) as nat, c)
    }
}

/// Cuts a text at the occurrences of `c` into at most `n` parts.
pub fn splitn(s: &str, n: usize, c: char) -> (r: Vec<String>)
    ensures
        texts(r@) == split_at_most(s@, n as nat, c),
{
    let v = chars_of(s);
    let mut r: Vec<String> = Vec::new();
    let mut from: usize = 0;
    let mut left: usize = n;
    let mut end: usize = find_from(&v, from, c);
    assert(v@.skip(0) =~= s@);
    assert(texts(r@) + split_at_most(v@.skip(0), n as nat, c) =~= split_at_most(s@, n as nat, c));
    while left > 1 && end < v.len()
        invariant
            from <= end <= v@.len(),
            end - from == first_at(v@.skip(from as int), c),
            texts(r@) + split_at_most(v@.skip(from as int), left as nat, c) == split_at_most(
                s@,
                n as nat,
                c,
            ),
        decreases left,
    {
        let ghost before = r@;
        let ghost rest = v@.skip(from as int);
        let part = text_of(&v, from, end);
        r.push(part);
        assert(rest.take(end - from) =~= v@.subrange(from as int, end as int));
        assert(rest.skip(end - from + 1) =~= v@.skip(end + 1));
        assert(texts(r@) =~= texts(before).push(part@));
        assert(texts(before) + (seq![part@] + split_at_most(
            v@.skip(end + 1),
            (left - 1) as nat,
            c,
        )) =~= texts(r@) + split_at_most(v@.skip(end + 1), (left - 1) as nat, c));
        from = end + 1;
        left -= 1;
        end = find_from(&v, from, c);
    }
    let ghost before = r@;
    r.push(text_of(&v, from, v.len()));
    assert(v@.skip(from as int) =~= v@.subrange(from as int, v@.len() as int));
    assert(texts(r@) =~= texts(before) + seq![v@.skip(from as int)]);
    r
}

/// `s` without one trailing carriage return.
pub open spec fn without_carriage_return(s: Seq<char>) -> Seq<char> {
    if s.len() > 0 && s.last() == '\r' {
        s.drop_last()
    } else {
        s
    }
}

/// The lines of `s`: cut at every line feed, each cut line without the carriage
/// return right before the line feed, and no empty line after a final line feed.
pub open spec fn lines_of(s: Seq<char>) -> Seq<Seq<char>>
    decreases s.len(),
{
    if s.len() == 0 {
        Seq::empty()
    } else if first_at(s, '\n') == s.len() {
        seq![s]
    } else {
        proof {
            lemma_first_at(s, '\n');
        }
        seq![without_carriage_return(s.take(first_at(s, '\n')))] + lines_of(
            s.skip(first_at(s, '\n') + 1),
        )
    }
}

/// The lines that hold more than white space, trimmed.
pub open spec fn kept_lines(ls: Seq<Seq<char>>) -> Seq<Seq<char>>
    decreases ls.len(),
{
    if ls.len() == 0 {
        Seq::empty()
    } else {
        let rest = kept_lines(ls.drop_last());
        if trimmed(ls.last()).len() > 0 {
            rest.push(trimmed(ls.last()))
        } else {
            rest
        }
    }
}

/// The lines of a text.
fn lines(s: &str) -> (r: Vec<String>)
    ensures
        texts(r@) == lines_of(s@),
{
    let v = chars_of(s);
    let mut r: Vec<String> = Vec::new();
    let mut from: usize = 0;
    assert(v@.skip(0) =~= s@);
    assert(texts(r@) + lines_of(s@) =~= lines_of(s@));
    while from < v.len()
        invariant
            from <= v@.len(),
            texts(r@) + lines_of(v@.skip(from as int)) == lines_of(s@),
        decreases v@.len() - from,
    {
        let ghost before = r@;
        let ghost rest = v@.skip(from as int);
        let end = find_from(&v, from, '\n');
        if end == v.len() {
            r.push(text_of(&v, from, end));
            assert(rest =~= v@.subrange(from as int, end as int));
            assert(texts(r@) =~= texts(before) + seq![rest]);
            from = end;
            assert(v@.skip(from as int) =~= Seq::<char>::empty());
            assert(texts(r@) + lines_of(v@.skip(from as int)) =~= texts(r@));
        } else {
            let mut stop: usize = end;
            if end > from && v[end - 1] == '\r' {
                stop = end - 1;
            }
            let part = text_of(&v, from, stop);
            r.push(part);
            assert(rest.take(end - from) =~= v@.subrange(from as int, end as int));
            assert(part@ =~= without_carriage_return(rest.take(end - from)));
            assert(rest.skip(end - from + 1) =~= v@.skip(end + 1));
            assert(texts(r@) =~= texts(before).push(part@));
            assert(texts(before) + (seq![part@] + lines_of(v@.skip(end + 1))) =~= texts(r@)
                + lines_of(v@.skip(end + 1)));
            from = end + 1;
        }
    }
    assert(v@.skip(from as int) =~= Seq::<char>::empty());
    assert(texts(r@) + lines_of(v@.skip(from as int)) =~= texts(r@));
    r
}

/// The lines of a text that hold more than white space, trimmed.
pub fn nonblank_lines(s: &str) -> (r: Vec<String>)
    ensures
        texts(r@) == kept_lines(lines_of(s@)),
{
    let ls = lines(s);
    let mut r: Vec<String> = Vec::new();
    let mut i: usize = 0;
    assert(texts(ls@).take(0) =~= Seq::<Seq<char>>::empty());
    assert(texts(r@) =~= kept_lines(texts(ls@).take(0)));
    while i < ls.len()
        invariant
            i <= ls@.len(),
            texts(r@) == kept_lines(texts(ls@).take(i as int)),
        decreases ls@.len() - i,
    {
        let ghost before = r@;
        let line = trim(ls[i].as_str());
        assert(texts(ls@).take(i + 1).drop_last() =~= texts(ls@).take(i as int));
        if !line.as_str().is_empty() {
            r.push(line);
            assert(texts(r@) =~= texts(before).push(line@));
        }
        i += 1;
    }
    assert(texts(ls@).take(i as int) =~= texts(ls@));
    r
}

/// `ts` put together with `sep` between neighbours.
pub open spec fn joined(ts: Seq<Seq<char>>, sep: Seq<char>) -> Seq<char>
    decreases ts.len(),
{
    if ts.len() == 0 {
        Seq::empty()
    } else if ts.len() == 1 {
        ts[0]
    } else {
        joined(ts.drop_last(), sep) + sep + ts.last()
    }
}

/// Puts the texts `v[from..]` together with `sep` between neighbours.
pub fn join_from(v: &Vec<String>, from: usize, sep: &str) -> (r: String)
    requires
        from <= v@.len(),
    ensures
        r@ == joined(texts(v@).skip(from as int), sep@),
{
    let mut r = String::new();
    let mut i: usize = from;
    let ghost all = texts(v@).skip(from as int);
    assert(all.take(0) =~= Seq::<Seq<char>>::empty());
    while i < v.len()
        invariant
            from <= i <= v@.len(),
            all == texts(v@).skip(from as int),
            r@ == joined(all.take(i - from), sep@),
        decreases v@.len() - i,
    {
        assert(all.take(i - from + 1).drop_last() =~= all.take(i - from));
        if i > from {
            r.append(sep);
        }
        r.append(v[i].as_str());
        i += 1;
        assert(r@ =~= joined(all.take(i - from), sep@));
    }
    assert(all.take(i - from) =~= all);
    r
}

/// Puts the texts together with `sep` between neighbours.
pub fn join(v: &Vec<String>, sep: &str) -> (r: String)
    ensures
        r@ == joined(texts(v@), sep@),
{
    assert(texts(v@).skip(0) =~= texts(v@));
    join_from(v, 0, sep)
}

/// `s` starts with `head`.
pub open spec fn has_prefix(s: Seq<char>, head: Seq<char>) -> bool {
    head.len() <= s.len() && s.take(head.len() as int) == head
}

/// `s` ends with `tail`.
pub open spec fn has_suffix(s: Seq<char>, tail: Seq<char>) -> bool {
    tail.len() <= s.len() && s.skip(s.len() - tail.len()) == tail
}

/// Whether a text starts with another.
pub fn starts_with(s: &str, head: &str) -> (r: bool)
    ensures
        r == has_prefix(s@, head@),
{
    let n: usize = head.unicode_len();
    if n > s.unicode_len() {
        return false;
    }
    same_text(s.substring_char(0, n), head)
}

/// Whether a text ends with another.
pub fn ends_with(s: &str, tail: &str) -> (r: bool)
    ensures
        r == has_suffix(s@, tail@),
{
    let n: usize = tail.unicode_len();
    let m: usize = s.unicode_len();
    if n > m {
        return false;
    }
    same_text(s.substring_char(m - n, m), tail)
}

/// `part` stands somewhere in `s`.
pub open spec fn has_part(s: Seq<char>, part: Seq<char>) -> bool {
    exists|i: int| #[trigger] part_at(s, part, i)
}

/// `part` stands at `i` in `s`.
pub open spec fn part_at(s: Seq<char>, part: Seq<char>, i: int) -> bool {
    0 <= i && i + part.len() <= s.len() && s.subrange(i, i + part.len()) == part
}

/// Whether a text stands somewhere in another.
pub fn contains_text(s: &str, part: &str) -> (r: bool)
    ensures
        r == has_part(s@, part@),
{
    let n: usize = s.unicode_len();
    let m: usize = part.unicode_len();
    if m > n {
        return false;
    }
    let last: usize = n - m;
    let mut i: usize = 0;
    while i < last && !same_text(s.substring_char(i, i + m), part)
        invariant
            n == s@.len(),
            m == part@.len(),
            last == n - m,
            i <= last,
            forall|k: int| 0 <= k < i ==> !#[trigger] part_at(s@, part@, k),
        decreases last - i,
    {
        i += 1;
    }
    let found = same_text(s.substring_char(i, i + m), part);
    assert(found == part_at(s@, part@, i as int));
    found
}

/// Whether a text holds the character.
pub fn has_char(s: &str, c: char) -> (r: bool)
    ensures
        r == s@.contains(c),
{
    let v = chars_of(s);
    let i = find_from(&v, 0, c);
    proof {
        assert(v@.skip(0) =~= s@);
        lemma_first_at(s@, c);
    }
    i < v.len()
}

/// The two sides of the last occurrence of `c`, if there is one.
pub open spec fn split_last(s: Seq<char>, c: char) -> Option<(Seq<char>, Seq<char>)> {
    if last_at(s, c) >= 0 {
        Some((s.take(last_at(s, c)), s.skip(last_at(s, c) + 1)))
    } else {
        None
    }
}

/// Cuts a text at the last occurrence of `c`.
pub fn rsplit_once(s: &str, c: char) -> (r: Option<(String, String)>)
    ensures
        match r {
            Some(p) => split_last(s@, c) == Some((p.0@, p.1@)),
            None => split_last(s@, c) is None,
        },
{
    let v = chars_of(s);
    let n: usize = v.len();
    match find_last(&v, c) {
        Some(i) => {
            let head = text_of(&v, 0, i);
            let tail = text_of(&v, i + 1, n);
            assert(head@ =~= s@.take(i as int));
            assert(tail@ =~= s@.skip(i + 1));
            Some((head, tail))
        },
        None => None,
    }
}

/// The decimal digit of a value below ten.
pub open spec fn digit(d: int) -> char {
    if d == 0 {
        '0'
    } else if d == 1 {
        '1'
    } else if d == 2 {
        '2'
    } else if d == 3 {
        '3'
    } else if d == 4 {
        '4'
    } else if d == 5 {
        '5'
    } else if d == 6 {
        '6'
    } else if d == 7 {
        '7'
    } else if d == 8 {
        '8'
    } else {
        '9'
    }
}

/// The decimal digits of `n`, without leading zeros.
pub open spec fn decimal(n: nat) -> Seq<char>
    decreases n,
{
    if n < 10 {
        seq![digit(n as int)]
    } else {
        decimal(n / 10).push(digit((n % 10) as int))
    }
}

/// The decimal digits of `n` with a minus sign before those of a negative number.
pub open spec fn signed_decimal(n: int) -> Seq<char> {
    if n < 0 {
        seq!['-'] + decimal((-n) as nat)
    } else {
        decimal(n as nat)
    }
}

fn digit_char(d: u64) -> (c: char)
    requires
        d < 10,
    ensures
        c == digit(d as int),
{
    match d {
        0 => '0',
        1 => '1',
        2 => '2',
        3 => '3',
        4 => '4',
        5 => '5',
        6 => '6',
        7 => '7',
        8 => '8',
        _ => '9',
    }
}

/// Appends the decimal digits of a number.
pub fn push_number(s: &mut String, n: u64)
    ensures
        final(s)@ == old(s)@ + decimal(n as nat),
    decreases n,
{
    if n >= 10 {
        push_number(s, n / 10);
    }
    s.push(digit_char(n % 10));
    assert(s@ =~= old(s)@ + decimal(n as nat));
}

/// The decimal digits of a number.
pub fn number(n: u64) -> (r: String)
    ensures
        r@ == decimal(n as nat),
{
    let mut s = String::new();
    push_number(&mut s, n);
    assert(s@ =~= decimal(n as nat));
    s
}

/// The decimal text of a signed number.
pub fn signed_number(n: i64) -> (r: String)
    ensures
        r@ == signed_decimal(n as int),
{
    let mut s = String::new();
    if n < 0 {
        s.push('-');
        let m: i128 = -(n as i128);
        push_number(&mut s, m as u64);
        assert(s@ =~= signed_decimal(n as int));
    } else {
        push_number(&mut s, n as u64);
        assert(s@ =~= signed_decimal(n as int));
    }
    s
}

/// The value of a decimal digit, if the character is one.
pub open spec fn digit_value(c: char) -> Option<nat> {
    if c == '0' {
        Some(0)
    } else if c == '1' {
        Some(1)
    } else if c == '2' {
        Some(2)
    } else if c == '3' {
        Some(3)
    } else if c == '4' {
        Some(4)
    } else if c == '5' {
        Some(5)
    } else if c == '6' {
        Some(6)
    } else if c == '7' {
        Some(7)
    } else if c == '8' {
        Some(8)
    } else if c == '9' {
        Some(9)
    } else {
        None
    }
}

/// The number that a non-empty run of decimal digits stands for.
pub open spec fn digits_value(s: Seq<char>) -> Option<nat>
    decreases s.len(),
{
    if s.len() == 0 {
        None
    } else if s.len() == 1 {
        digit_value(s[0])
    } else {
        match (digits_value(s.drop_last()), digit_value(s.last())) {
            (Some(head), Some(d)) => Some(head * 10 + d),
            _ => None,
        }
    }
}

/// The number no larger than `max` that a text stands for: decimal digits, with
/// at most one plus sign before them.
pub open spec fn parsed(s: Seq<char>, max: nat) -> Option<nat> {
    let digits = if s.len() > 0 && s[0] == '+' {
        s.drop_first()
    } else {
        s
    };
    match digits_value(digits) {
        Some(n) => if n <= max {
            Some(n)
        } else {
            None
        },
        None => None,
    }
}

fn digit_of(c: char) -> (r: Option<u64>)
    ensures
        match r {
            Some(d) => digit_value(c) == Some(d as nat) && d < 10,
            None => digit_value(c) is None,
        },
{
    match c {
        '0' => Some(0),
        '1' => Some(1),
        '2' => Some(2),
        '3' => Some(3),
        '4' => Some(4),
        '5' => Some(5),
        '6' => Some(6),
        '7' => Some(7),
        '8' => Some(8),
        '9' => Some(9),
        _ => None,
    }
}

/// Appending digits never makes a number smaller, nor a text a number.
proof fn lemma_digits_prefix(s: Seq<char>, k: int)
    requires
        1 <= k <= s.len(),
        digits_value(s) is Some,
    ensures
        digits_value(s.take(k)) is Some,
        digits_value(s.take(k))->0 <= digits_value(s)->0,
    decreases s.len(),
{
    if k == s.len() {
        assert(s.take(k) =~= s);
    } else {
        lemma_digits_prefix(s.drop_last(), k);
        assert(s.drop_last().take(k) =~= s.take(k));
    }
}

/// Reads a number no larger than `max`.
pub fn parse_number(s: &str, max: u64) -> (r: Option<u64>)
    ensures
        match r {
            Some(n) => parsed(s@, max as nat) == Some(n as nat) && n <= max,
            None => parsed(s@, max as nat) is None,
        },
{
    let v = chars_of(s);
    let from: usize = if v.len() > 0 && v[0] == '+' {
        1
    } else {
        0
    };
    let ghost digits = v@.skip(from as int);
    assert(from == 1 ==> digits =~= s@.drop_first());
    assert(from == 0 ==> digits =~= s@);
    if from == v.len() {
        return None;
    }
    let mut n: u64 = 0;
    let mut i: usize = from;
    while i < v.len()
        invariant
            from <= i <= v@.len(),
            from < v@.len(),
            digits == v@.skip(from as int),
            i == from ==> n == 0,
            i > from ==> digits_value(digits.take(i - from)) == Some(n as nat),
            n <= max,
            digits == (if s@.len() > 0 && s@[0] == '+' {
                s@.drop_first()
            } else {
                s@
            }),
        decreases v@.len() - i,
    {
        let ghost upto = digits.take(i - from + 1);
        assert(upto.drop_last() =~= digits.take(i - from));
        assert(upto.last() == v@[i as int]);
        match digit_of(v[i]) {
            None => {
                proof {
                    if digits_value(digits) is Some {
                        lemma_digits_prefix(digits, i - from + 1);
                    }
                }
                return None;
            },
            Some(d) => {
                if n > max / 10 || d > max - n * 10 {
                    proof {
                        assert(digits_value(upto) == Some((n * 10 + d) as nat));
                        if digits_value(digits) is Some {
                            lemma_digits_prefix(digits, i - from + 1);
                        }
                    }
                    return None;
                }
                n = n * 10 + d;
            },
        }
        i += 1;
    }
    assert(digits.take(i - from) =~= digits);
    Some(n)
}

/// The number between `min` and `max` that a text stands for: decimal digits, with at
/// most one sign before them.
pub open spec fn parsed_signed(s: Seq<char>, min: int, max: int) -> Option<int> {
    let value = if s.len() > 0 && s[0] == '-' {
        match digits_value(s.drop_first()) {
            Some(n) => Some(-(n as int)),
            None => None,
        }
    } else if s.len() > 0 && s[0] == '+' {
        match digits_value(s.drop_first()) {
            Some(n) => Some(n as int),
            None => None,
        }
    } else {
        match digits_value(s) {
            Some(n) => Some(n as int),
            None => None,
        }
    };
    match value {
        Some(n) => if min <= n <= max {
            Some(n)
        } else {
            None
        },
        None => None,
    }
}

/// Reads a number of 32 bits.
pub fn parse_i32(s: &str) -> (r: Option<i32>)
    ensures
        match r {
            Some(n) => parsed_signed(s@, i32::MIN as int, i32::MAX as int) == Some(n as int),
            None => parsed_signed(s@, i32::MIN as int, i32::MAX as int) is None,
        },
{
    let n: usize = s.unicode_len();
    if n > 0 && s.get_char(0) == '-' {
        let digits = s.substring_char(1, n);
        assert(digits@ =~= s@.drop_first());
        proof {
            lemma_sign_is_no_digit(digits@);
        }
        if n > 1 && s.get_char(1) == '+' {
            return None;
        }
        match parse_number(digits, 0x8000_0000) {
            Some(v) => Some((-(v as i64)) as i32),
            None => None,
        }
    } else {
        proof {
            lemma_sign_is_no_digit(s@);
        }
        match parse_number(s, 0x7fff_ffff) {
            Some(v) => Some(v as i32),
            None => None,
        }
    }
}

/// A text that starts with a sign is no run of digits.
proof fn lemma_sign_is_no_digit(s: Seq<char>)
    ensures
        s.len() > 0 && (s[0] == '+' || s[0] == '-') ==> digits_value(s) is None,
    decreases s.len(),
{
    if s.len() > 1 {
        lemma_sign_is_no_digit(s.drop_last());
    }
}

/// What a number is written as reads back as that number.
pub proof fn number_text_round_trip(n: nat, max: nat)
    requires
        n <= max,
    ensures
        parsed(decimal(n), max) == Some(n),
{
    lemma_decimal_value(n);
}

proof fn lemma_decimal_value(n: nat)
    ensures
        digits_value(decimal(n)) == Some(n),
        decimal(n).len() > 0,
        decimal(n)[0] != '+',
    decreases n,
{
    if n >= 10 {
        lemma_decimal_value(n / 10);
        assert(decimal(n).drop_last() =~= decimal(n / 10));
    }
}

proof fn lemma_skip_start(s: Seq<char>, class: CharClass)
    ensures
        skip_start(s, class).len() <= s.len(),
        s.skip(s.len() - skip_start(s, class).len()) == skip_start(s, class),
        forall|i: int|
            0 <= i < s.len() - skip_start(s, class).len() ==> class.holds(#[trigger] s[i]),
        skip_start(s, class).len() > 0 ==> !class.holds(skip_start(s, class)[0]),
    decreases s.len(),
{
    if s.len() > 0 && class.holds(s[0]) {
        let rest = s.drop_first();
        lemma_skip_start(rest, class);
        let n = s.len() - skip_start(s, class).len();
        assert(s.skip(n) =~= rest.skip(n - 1));
        assert forall|i: int| 0 <= i < n implies class.holds(#[trigger] s[i]) by {
            if i > 0 {
                assert(rest[i - 1] == s[i]);
            }
        }
    } else {
        assert(s.skip(0) =~= s);
    }
}

proof fn lemma_skip_end(s: Seq<char>, class: CharClass)
    ensures
        skip_end(s, class).len() <= s.len(),
        s.take(skip_end(s, class).len() as int) == skip_end(s, class),
        forall|i: int| skip_end(s, class).len() <= i < s.len() ==> class.holds(#[trigger] s[i]),
        skip_end(s, class).len() > 0 ==> !class.holds(skip_end(s, class).last()),
    decreases s.len(),
{
    if s.len() > 0 && class.holds(s.last()) {
        let rest = s.drop_last();
        lemma_skip_end(rest, class);
        assert(s.take(skip_end(s, class).len() as int) =~= rest.take(
            skip_end(s, class).len() as int,
        ));
        assert forall|i: int| skip_end(s, class).len() <= i < s.len() implies class.holds(
            #[trigger] s[i],
        ) by {
            if i < s.len() - 1 {
                assert(rest[i] == s[i]);
            }
        }
    } else {
        assert(s.take(s.len() as int) =~= s);
    }
}

/// Trimming takes white space off both ends and nothing else: what is left stands in the text
/// with only white space before and after it, and neither begins nor ends with any.
pub proof fn trimming_takes_white_space_only(s: Seq<char>)
    ensures
        exists|from: int, to: int|
            {
                &&& 0 <= from <= to <= s.len()
                &&& trimmed(s) == #[trigger] s.subrange(from, to)
                &&& forall|i: int| 0 <= i < from ==> is_space(#[trigger] s[i])
                &&& forall|i: int| to <= i < s.len() ==> is_space(#[trigger] s[i])
            },
        trimmed(s).len() > 0 ==> !is_space(trimmed(s)[0]) && !is_space(trimmed(s).last()),
{
    let class = CharClass::Space;
    let head = skip_start(s, class);
    lemma_skip_start(s, class);
    lemma_skip_end(head, class);
    let from = s.len() - head.len();
    let to = from + trimmed(s).len();
    assert(trimmed(s) =~= s.subrange(from, to));
    assert forall|i: int| to <= i < s.len() implies is_space(#[trigger] s[i]) by {
        assert(head[i - from] == s[i]);
        assert(class.holds(head[i - from]));
    }
    assert forall|i: int| 0 <= i < from implies is_space(#[trigger] s[i]) by {
        assert(class.holds(s[i]));
    }
    if trimmed(s).len() > 0 {
        assert(trimmed(s)[0] == head[0]);
    }
}

/// A text that neither begins nor ends with white space is left as it is, whatever white space
/// is put before and after it.
pub proof fn trimming_undoes_padding(before: Seq<char>, s: Seq<char>, after: Seq<char>)
    requires
        s.len() > 0,
        !is_space(s[0]),
        !is_space(s.last()),
        forall|i: int| 0 <= i < before.len() ==> is_space(#[trigger] before[i]),
        forall|i: int| 0 <= i < after.len() ==> is_space(#[trigger] after[i]),
    ensures
        trimmed(before + s + after) == s,
{
    let all = before + s + after;
    let class = CharClass::Space;
    lemma_skip_start(all, class);
    let head = skip_start(all, class);
    let n = all.len() - head.len();
    assert(all[before.len() as int] == s[0]);
    if n > before.len() {
        assert(class.holds(all[before.len() as int]));
    }
    if n < before.len() {
        assert(head[0] == all[n]);
        assert(all[n] == before[n]);
    }
    assert(head =~= s + after);
    lemma_skip_end(head, class);
    let kept = skip_end(head, class);
    assert(head[s.len() - 1] == s.last());
    if kept.len() < s.len() {
        assert(class.holds(head[s.len() - 1]));
    }
    if kept.len() > s.len() {
        assert(kept.last() == head[kept.len() - 1]);
        assert(head[kept.len() - 1] == after[kept.len() - 1 - s.len()]);
    }
    assert(kept =~= s);
}

/// Ten digits stand for the numbers below ten, in the order of their codes; no other character
/// stands for a number.
pub proof fn digits_are_in_order(d: int, c: char)
    ensures
        0 <= d < 10 ==> digit(d) as u32 == 48 + d,
        digit_value(c) is Some <==> 48 <= c as u32 <= 57,
        48 <= c as u32 <= 57 ==> digit_value(c) == Some((c as u32 - 48) as nat),
{
}

/// The text of a number is made of digits alone, and does not begin with a zero unless it is
/// that of zero. It begins with the text of a tenth of the number and ends with the last digit.
pub proof fn numbers_are_written_plainly(n: nat, i: int)
    requires
        0 <= i < decimal(n).len(),
    ensures
        48 <= decimal(n)[i] as u32 <= 57,
        n > 0 ==> decimal(n)[0] != '0',
        n >= 10 ==> decimal(n).drop_last() == decimal(n / 10),
        decimal(n).last() as u32 == 48 + n % 10,
    decreases n,
{
    if n >= 10 {
        assert(decimal(n).drop_last() =~= decimal(n / 10));
        numbers_are_written_plainly(n / 10, 0);
        if i < decimal(n).len() - 1 {
            numbers_are_written_plainly(n / 10, i);
            assert(decimal(n)[i] == decimal(n / 10)[i]);
        }
    }
}

/// A text is a number exactly if it is not empty and made of digits alone. Another digit at the
/// end makes ten times as much of it and adds its own value.
pub proof fn numbers_are_digits(s: Seq<char>)
    ensures
        digits_value(s) is Some <==> (s.len() > 0 && forall|i: int|
            0 <= i < s.len() ==> digit_value(#[trigger] s[i]) is Some),
        s.len() > 1 && digits_value(s) is Some ==> digits_value(s.drop_last()) is Some
            && digits_value(s)->0 == 10 * digits_value(s.drop_last())->0 + digit_value(
            s.last(),
        )->0,
    decreases s.len(),
{
    if s.len() == 1 {
        assert(digits_value(s) == digit_value(s[0]));
    }
    if s.len() > 1 {
        let rest = s.drop_last();
        numbers_are_digits(rest);
        if digits_value(s) is Some {
            assert forall|i: int| 0 <= i < s.len() implies digit_value(
                #[trigger] s[i],
            ) is Some by {
                if i < s.len() - 1 {
                    assert(rest[i] == s[i]);
                }
            }
        }
        if forall|i: int| 0 <= i < s.len() ==> digit_value(#[trigger] s[i]) is Some {
            assert forall|i: int| 0 <= i < rest.len() implies digit_value(
                #[trigger] rest[i],
            ) is Some by {
                assert(rest[i] == s[i]);
            }
            assert(digit_value(s[s.len() - 1]) is Some);
        }
    }
}

/// What a number with a sign is written as reads back as that number, as long as it lies
/// between the limits; beyond them it is refused.
pub proof fn signed_text_round_trip(n: int, min: int, max: int)
    ensures
        min <= n <= max ==> parsed_signed(signed_decimal(n), min, max) == Some(n),
        !(min <= n <= max) ==> parsed_signed(signed_decimal(n), min, max) is None,
{
    if n < 0 {
        lemma_decimal_value((-n) as nat);
        assert(signed_decimal(n).drop_first() =~= decimal((-n) as nat));
    } else {
        lemma_decimal_value(n as nat);
        numbers_are_written_plainly(n as nat, 0);
    }
}

/// A number beyond the limit is refused.
pub proof fn large_numbers_are_refused(n: nat, max: nat)
    requires
        n > max,
    ensures
        parsed(decimal(n), max) is None,
{
    lemma_decimal_value(n);
}

/// Cutting a text and putting the parts together again gives the text back. There are no more
/// parts than asked for, and none but the last holds the character that was cut at.
pub proof fn cutting_loses_nothing(s: Seq<char>, n: nat, c: char)
    ensures
        1 <= split_at_most(s, n, c).len(),
        n >= 1 ==> split_at_most(s, n, c).len() <= n,
        forall|i: int|
            0 <= i < split_at_most(s, n, c).len() - 1 ==> !(#[trigger] split_at_most(
                s,
                n,
                c,
            )[i]).contains(c),
        split_at_most(s, n, c).len() < n ==> !split_at_most(s, n, c).last().contains(c),
        glued(split_at_most(s, n, c), c) == s,
    decreases n,
{
    lemma_first_at(s, c);
    let at = first_at(s, c);
    if n <= 1 || at == s.len() {
        assert(split_at_most(s, n, c) =~= seq![s]);
    } else {
        let rest = split_at_most(s.skip(at + 1), (n - 1) as nat, c);
        cutting_loses_nothing(s.skip(at + 1), (n - 1) as nat, c);
        let all = split_at_most(s, n, c);
        assert(all.drop_first() =~= rest);
        assert(all.last() == rest.last());
        assert forall|i: int| 0 <= i < all.len() - 1 implies !(#[trigger] all[i]).contains(c) by {
            if i > 0 {
                assert(all[i] == rest[i - 1]);
            }
        }
        assert(glued(all, c) =~= s.take(at) + seq![c] + s.skip(at + 1));
        assert(s.take(at) + seq![c] + s.skip(at + 1) =~= s);
    }
}

/// The parts with the character between neighbours, from the first on.
pub open spec fn glued(parts: Seq<Seq<char>>, c: char) -> Seq<char>
    decreases parts.len(),
{
    if parts.len() == 0 {
        seq![]
    } else if parts.len() == 1 {
        parts[0]
    } else {
        parts[0] + seq![c] + glued(parts.drop_first(), c)
    }
}

/// What follows the last occurrence of a character does not hold it, and the two sides with
/// the character between them make up the text.
pub proof fn last_cut_is_last(s: Seq<char>, c: char)
    ensures
        split_last(s, c) is Some <==> s.contains(c),
        split_last(s, c) matches Some(p) ==> p.0 + seq![c] + p.1 == s && !p.1.contains(c),
    decreases s.len(),
{
    lemma_last_at(s, c);
    let at = last_at(s, c);
    if at >= 0 {
        assert(s[at] == c);
        assert(s.take(at) + seq![c] + s.skip(at + 1) =~= s);
        let tail = s.skip(at + 1);
        assert forall|i: int| 0 <= i < tail.len() implies #[trigger] tail[i] != c by {
            assert(tail[i] == s[at + 1 + i]);
        }
    }
}

proof fn lemma_last_at(s: Seq<char>, c: char)
    ensures
        -1 <= last_at(s, c) < s.len(),
        last_at(s, c) >= 0 ==> s[last_at(s, c)] == c,
        forall|i: int| last_at(s, c) < i < s.len() ==> s[i] != c,
    decreases s.len(),
{
    if s.len() > 0 && s.last() != c {
        let rest = s.drop_last();
        lemma_last_at(rest, c);
        assert forall|i: int| last_at(s, c) < i < s.len() implies s[i] != c by {
            if i < s.len() - 1 {
                assert(rest[i] == s[i]);
            }
        }
    }
}

/// A text is cut into lines at its line feeds, and what stands before one is a line without
/// the carriage return at its end.
pub proof fn lines_end_at_line_feeds(line: Seq<char>, rest: Seq<char>)
    requires
        !line.contains('\n'),
    ensures
        line.len() > 0 && line.last() == '\r' ==> lines_of(line + seq!['\n'] + rest) == seq![
            line.drop_last(),
        ] + lines_of(rest),
        !(line.len() > 0 && line.last() == '\r') ==> lines_of(line + seq!['\n'] + rest) == seq![
            line,
        ] + lines_of(rest),
        line.len() > 0 ==> lines_of(line) == seq![line],
        lines_of(Seq::<char>::empty()).len() == 0,
{
    let all = line + seq!['\n'] + rest;
    lemma_first_at(all, '\n');
    lemma_first_at(line, '\n');
    let at = first_at(all, '\n');
    assert(all[line.len() as int] == '\n');
    if at < line.len() {
        assert(all[at] == line[at]);
        assert(line.contains('\n'));
    }
    assert(at == line.len());
    assert(all.take(at) =~= line);
    assert(all.skip(at + 1) =~= rest);
}

/// A list of texts that is put together begins with the first and goes on with the separator
/// before each of the others.
pub proof fn joining_puts_the_separator_between(ts: Seq<Seq<char>>, last: Seq<char>, sep: Seq<char>)
    ensures
        joined(Seq::<Seq<char>>::empty(), sep).len() == 0,
        joined(seq![last], sep) == last,
        ts.len() > 0 ==> joined(ts.push(last), sep) == joined(ts, sep) + sep + last,
{
    assert(ts.push(last).drop_last() =~= ts);
}

/// Lower case differs from upper case in the letters of the alphabet only, by thirty-two.
pub proof fn case_is_about_letters(c: char)
    ensures
        65 <= c as u32 <= 90 ==> ascii_lower(c) as u32 == c as u32 + 32,
        !(65 <= c as u32 <= 90) ==> ascii_lower(c) == c,
        97 <= c as u32 <= 122 ==> ascii_upper(c) as u32 == c as u32 - 32,
        !(97 <= c as u32 <= 122) ==> ascii_upper(c) == c,
{
}

/// White space is the blank, what moves on a line or a page, and the spaces of other widths,
/// of which all eleven from the en quad to the hair space count. No letter, figure or sign of
/// ASCII is.
pub proof fn white_space_is_blank(c: char)
    ensures
        c == ' ' || c == '\t' || c == '\n' || c == '\r' ==> is_space(c),
        0x21 <= c as u32 <= 0x7e ==> !is_space(c),
        c as u32 <= 8 ==> !is_space(c),
        0x0e <= c as u32 <= 0x1f ==> !is_space(c),
        c as u32 == 0x0b || c as u32 == 0x0c ==> is_space(c),
        c as u32 == 0x85 || c as u32 == 0xa0 || c as u32 == 0x1680 ==> is_space(c),
        0x2000 <= c as u32 <= 0x200a ==> is_space(c),
        c as u32 == 0x200b || c as u32 == 0x1fff ==> !is_space(c),
        c as u32 == 0x2028 || c as u32 == 0x2029 || c as u32 == 0x202f ==> is_space(c),
        c as u32 == 0x205f || c as u32 == 0x3000 ==> is_space(c),
        0x3001 <= c as u32 ==> !is_space(c),
{
}

/// A text is ASCII exactly if each of its characters is, and so is what is put together of
/// such texts.
pub proof fn ascii_goes_by_character(a: Seq<char>, b: Seq<char>, i: int)
    requires
        0 <= i < a.len(),
    ensures
        is_ascii_text(a) ==> a[i] as u32 <= 127,
        a[i] as u32 > 127 ==> !is_ascii_text(a + b),
        is_ascii_text(a + b) <==> is_ascii_text(a) && is_ascii_text(b),
{
    let both = a + b;
    assert forall|k: int| 0 <= k < a.len() implies #[trigger] a[k] == both[k] by {}
    assert forall|k: int| 0 <= k < b.len() implies #[trigger] b[k] == both[a.len() + k] by {}
    assert(both[i] == a[i]);
    if is_ascii_text(a) && is_ascii_text(b) {
        assert forall|k: int| 0 <= k < both.len() implies (#[trigger] both[k]) as u32 <= 127 by {
            if k < a.len() {
                assert(both[k] == a[k]);
            } else {
                assert(both[k] == b[k - a.len()]);
            }
        }
    }
}

} // verus!
