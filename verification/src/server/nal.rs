//! The units of an H.264 byte stream, for diagnostics.

use crate::text::{decimal, join, joined, number, texts};
use vstd::prelude::*;

verus! {

/// Units that are listed of one frame.
pub const MAX_LISTED_UNITS: usize = 10;

/// Bytes that are shown of a parameter set.
pub const PREVIEW_BYTES: usize = 16;

/// The short start code stands at `i`.
pub open spec fn short_code_at(d: Seq<u8>, i: int) -> bool {
    0 <= i && i + 3 <= d.len() && d[i] == 0 && d[i + 1] == 0 && d[i + 2] == 1
}

/// The length of the start code at `i`, or zero where there is none.
pub open spec fn code_len(d: Seq<u8>, i: int) -> nat {
    if 0 <= i && i + 4 <= d.len() && d[i] == 0 && short_code_at(d, i + 1) {
        4
    } else if short_code_at(d, i) {
        3
    } else {
        0
    }
}

/// The first short start code at or after `i`, or the end.
pub open spec fn next_code(d: Seq<u8>, i: int) -> int
    decreases d.len() - i,
{
    if i >= d.len() - 2 {
        d.len() as int
    } else if short_code_at(d, i) {
        i
    } else {
        next_code(d, i + 1)
    }
}

/// Where the unit that starts at `start` ends: before the start code that follows its first
/// byte, long or short, or at the end.
pub open spec fn unit_end(d: Seq<u8>, start: int) -> int {
    let j = next_code(d, start + 1);
    if j < d.len() && d[j - 1] == 0 {
        j - 1
    } else {
        j
    }
}

/// Where a unit lies: its first byte, and the byte after its last.
pub struct UnitSpan {
    pub start: nat,
    pub end: nat,
}

/// At most `n` units, from `offset` on. A start code without a byte behind it starts none.
pub open spec fn units(d: Seq<u8>, offset: int, n: nat) -> Seq<UnitSpan>
    decreases d.len() - offset,
{
    if offset < 0 || offset >= d.len() || n == 0 {
        seq![]
    } else if code_len(d, offset) == 0 {
        units(d, offset + 1, n)
    } else {
        let start = offset + code_len(d, offset);
        let end = unit_end(d, start);
        if start >= d.len() || !(offset < end <= d.len()) {
            seq![]
        } else {
            seq![UnitSpan { start: start as nat, end: end as nat }] + units(
                d,
                end,
                (n - 1) as nat,
            )
        }
    }
}

proof fn lemma_next_code(d: Seq<u8>, i: int)
    requires
        0 <= i <= d.len(),
    ensures
        i <= next_code(d, i) <= d.len(),
        next_code(d, i) < d.len() ==> short_code_at(d, next_code(d, i)),
    decreases d.len() - i,
{
    if i >= d.len() - 2 || short_code_at(d, i) {
    } else {
        lemma_next_code(d, i + 1);
    }
}

fn is_short_code(d: &Vec<u8>, i: usize) -> (r: bool)
    requires
        i <= d@.len(),
    ensures
        r == short_code_at(d@, i as int),
{
    let n: usize = d.len();
    n - i >= 3 && d[i] == 0 && d[i + 1] == 0 && d[i + 2] == 1
}

fn find_unit_end(d: &Vec<u8>, start: usize) -> (r: usize)
    requires
        start < d@.len(),
    ensures
        r == unit_end(d@, start as int),
        start <= r <= d@.len(),
{
    let n: usize = d.len();
    let mut j: usize = start + 1;
    proof {
        lemma_next_code(d@, start + 1);
    }
    while n - j > 2
        invariant
            n == d@.len(),
            start < j <= n,
            next_code(d@, start + 1) == next_code(d@, j as int),
        decreases n - j,
    {
        if is_short_code(d, j) {
            return if d[j - 1] == 0 {
                j - 1
            } else {
                j
            };
        }
        j += 1;
    }
    n
}

/// One unit: its header fields, its length, and the first bytes of a parameter set.
#[derive(Debug)]
pub struct NalUnit {
    pub kind: u8,
    pub ref_idc: u8,
    pub len: usize,
    pub preview: Vec<u8>,
}

impl NalUnit {
    /// The unit that lies at the span.
    pub open spec fn is_at(self, d: Seq<u8>, span: UnitSpan) -> bool {
        let size = (span.end - span.start) as nat;
        &&& self.kind == d[span.start as int] & 0x1f
        &&& self.ref_idc == (d[span.start as int] >> 5) & 0x03
        &&& self.len == size
        &&& self.preview@ == if self.kind == 7 || self.kind == 8 {
            d.subrange(span.start as int, span.start + if size < PREVIEW_BYTES {
                size as int
            } else {
                PREVIEW_BYTES as int
            })
        } else {
            seq![]
        }
    }

    /// The name of the unit's kind.
    pub open spec fn name(self) -> Seq<char> {
        if self.kind == 1 {
            "P-slice"@
        } else if self.kind == 5 {
            "IDR"@
        } else if self.kind == 6 {
            "SEI"@
        } else if self.kind == 7 {
            "SPS"@
        } else if self.kind == 8 {
            "PPS"@
        } else if self.kind == 9 {
            "AUD"@
        } else {
            "Other"@
        }
    }

    /// The unit in words.
    pub open spec fn description(self) -> Seq<char> {
        let head = self.name() + "("@ + decimal(self.len as nat) + "b,ref="@ + decimal(
            self.ref_idc as nat,
        ) + ")"@;
        if self.kind == 7 || self.kind == 8 {
            head + "["@ + joined(hex_texts(self.preview@), " "@) + "]"@
        } else {
            head
        }
    }

    fn kind_name(&self) -> (r: &'static str)
        ensures
            r@ == self.name(),
    {
        match self.kind {
            1 => "P-slice",
            5 => "IDR",
            6 => "SEI",
            7 => "SPS",
            8 => "PPS",
            9 => "AUD",
            _ => "Other",
        }
    }

    /// The unit in words: its kind, length and reference level, and the first bytes of a
    /// parameter set.
    pub fn describe(&self) -> (r: String)
        ensures
            r@ == self.description(),
    {
        let mut r = self.kind_name().to_owned();
        r.append("(");
        r.append(number(self.len as u64).as_str());
        r.append("b,ref=");
        r.append(number(self.ref_idc as u64).as_str());
        r.append(")");
        if self.kind == 7 || self.kind == 8 {
            r.append("[");
            r.append(join(&hex_bytes(&self.preview), " ").as_str());
            r.append("]");
        }
        r
    }
}

/// A hexadecimal digit.
pub open spec fn hex_digit(n: int) -> char {
    "0123456789abcdef"@[n]
}

/// A byte as two hexadecimal digits.
pub open spec fn hex_text(b: u8) -> Seq<char> {
    seq![hex_digit(b as int / 16), hex_digit(b as int % 16)]
}

/// Each byte as two hexadecimal digits.
pub open spec fn hex_texts(s: Seq<u8>) -> Seq<Seq<char>> {
    Seq::new(s.len(), |i: int| hex_text(s[i]))
}

fn hex_bytes(bytes: &Vec<u8>) -> (r: Vec<String>)
    ensures
        texts(r@) == hex_texts(bytes@),
{
    let digits = "0123456789abcdef";
    let mut r: Vec<String> = Vec::new();
    let mut i: usize = 0;
    while i < bytes.len()
        invariant
            i <= bytes@.len(),
            digits@ == "0123456789abcdef"@,
            texts(r@) =~= hex_texts(bytes@).take(i as int),
        decreases bytes@.len() - i,
    {
        proof {
            reveal_strlit("0123456789abcdef");
        }
        let b: u8 = bytes[i];
        let mut t = String::new();
        t.push(digits.get_char((b / 16) as usize));
        t.push(digits.get_char((b % 16) as usize));
        assert(t@ =~= hex_text(b));
        let ghost before = r@;
        r.push(t);
        assert(texts(r@) =~= texts(before).push(t@));
        i += 1;
    }
    assert(hex_texts(bytes@).take(i as int) =~= hex_texts(bytes@));
    r
}

/// The units of an H.264 byte stream, up to the listed number of them.
pub fn nal_units(data: &Vec<u8>) -> (r: Vec<NalUnit>)
    ensures
        r@.len() == units(data@, 0, MAX_LISTED_UNITS as nat).len(),
        forall|i: int|
            0 <= i < r@.len() ==> (#[trigger] r@[i]).is_at(
                data@,
                units(data@, 0, MAX_LISTED_UNITS as nat)[i],
            ),
{
    let n: usize = data.len();
    let mut r: Vec<NalUnit> = Vec::new();
    let mut offset: usize = 0;
    let ghost all = units(data@, 0, MAX_LISTED_UNITS as nat);
    proof {
        assert(all.skip(0) =~= all);
    }
    while offset < n && r.len() < MAX_LISTED_UNITS
        invariant
            n == data@.len(),
            offset <= n,
            all == units(data@, 0, MAX_LISTED_UNITS as nat),
            r@.len() <= all.len(),
            r@.len() <= MAX_LISTED_UNITS,
            all.skip(r@.len() as int) == units(
                data@,
                offset as int,
                (MAX_LISTED_UNITS - r@.len()) as nat,
            ),
            forall|i: int| 0 <= i < r@.len() ==> (#[trigger] r@[i]).is_at(data@, all[i]),
        decreases n - offset,
    {
        let code: usize = if offset < n - 1 && data[offset] == 0 && is_short_code(data, offset + 1) {
            4
        } else if is_short_code(data, offset) {
            3
        } else {
            0
        };
        assert(code == code_len(data@, offset as int));
        if code == 0 {
            offset += 1;
            continue;
        }
        let start: usize = offset + code;
        if start >= n {
            offset = n;
            continue;
        }
        let end: usize = find_unit_end(data, start);
        let header: u8 = data[start];
        let kind: u8 = header & 0x1f;
        let len: usize = end - start;
        let mut preview: Vec<u8> = Vec::new();
        if kind == 7 || kind == 8 {
            let shown: usize = if len < PREVIEW_BYTES {
                len
            } else {
                PREVIEW_BYTES
            };
            let mut k: usize = 0;
            while k < shown
                invariant
                    k <= shown,
                    n == data@.len(),
                    start + shown <= n,
                    preview@ =~= data@.subrange(start as int, start + k),
                decreases shown - k,
            {
                preview.push(data[start + k]);
                k += 1;
            }
        }
        let unit = NalUnit { kind, ref_idc: (header >> 5) & 0x03, len, preview };
        let ghost span = UnitSpan { start: start as nat, end: end as nat };
        proof {
            let rest = all.skip(r@.len() as int);
            assert(rest == units(
                data@,
                offset as int,
                (MAX_LISTED_UNITS - r@.len()) as nat,
            ));
            assert(rest.len() > 0 && rest[0] == span);
            assert(all[r@.len() as int] == rest[0]);
            assert(all.skip(r@.len() as int + 1) =~= rest.skip(1));
            assert(rest.skip(1) =~= units(
                data@,
                end as int,
                (MAX_LISTED_UNITS - r@.len() - 1) as nat,
            ));
            assert(unit.is_at(data@, span));
        }
        r.push(unit);
        offset = end;
    }
    r
}

/// The units of a frame in words, with an ellipsis where the list is full.
pub open spec fn summary(units: Seq<NalUnit>) -> Seq<Seq<char>> {
    let described = Seq::new(units.len(), |i: int| units[i].description());
    if units.len() >= MAX_LISTED_UNITS {
        described.push("..."@)
    } else {
        described
    }
}

/// The units of a frame in words, with an ellipsis where the list is full.
pub fn nal_summary(units: &Vec<NalUnit>) -> (r: Vec<String>)
    ensures
        texts(r@) == summary(units@),
{
    let mut r: Vec<String> = Vec::new();
    let mut i: usize = 0;
    while i < units.len()
        invariant
            i <= units@.len(),
            texts(r@) =~= Seq::new(i as nat, |k: int| units@[k].description()),
        decreases units@.len() - i,
    {
        let ghost before = r@;
        let t = units[i].describe();
        r.push(t);
        assert(texts(r@) =~= texts(before).push(t@));
        i += 1;
    }
    if units.len() >= MAX_LISTED_UNITS {
        let ghost before = r@;
        let dots = "...".to_owned();
        r.push(dots);
        assert(texts(r@) =~= texts(before).push(dots@));
    }
    r
}

/// The spans lie one after the other between the two places, and none overlaps another.
pub open spec fn in_order(spans: Seq<UnitSpan>, from: int, to: int) -> bool {
    &&& forall|i: int|
        0 <= i < spans.len() ==> from < (#[trigger] spans[i]).start <= spans[i].end <= to
    &&& forall|i: int, j: int|
        0 <= i < j < spans.len() ==> (#[trigger] spans[i]).end <= (#[trigger] spans[j]).start
}

/// The units of a frame lie one after the other inside it, and never overlap.
pub proof fn units_are_disjoint(d: Seq<u8>, offset: int, n: nat)
    requires
        0 <= offset,
    ensures
        in_order(units(d, offset, n), offset, d.len() as int),
    decreases d.len() - offset,
{
    if offset >= d.len() || n == 0 {
    } else if code_len(d, offset) == 0 {
        units_are_disjoint(d, offset + 1, n);
    } else {
        let start = offset + code_len(d, offset);
        let end = unit_end(d, start);
        if start < d.len() {
            lemma_next_code(d, start + 1);
            units_are_disjoint(d, end, (n - 1) as nat);
            let rest = units(d, end, (n - 1) as nat);
            let spans = seq![UnitSpan { start: start as nat, end: end as nat }] + rest;
            assert(units(d, offset, n) == spans);
            assert forall|i: int, j: int| 0 <= i < j < spans.len() implies (
            #[trigger] spans[i]).end <= (#[trigger] spans[j]).start by {
                assert(spans[j] == rest[j - 1]);
                if i > 0 {
                    assert(spans[i] == rest[i - 1]);
                }
            }
            assert forall|i: int| 0 <= i < spans.len() implies offset < (
            #[trigger] spans[i]).start <= spans[i].end <= d.len() by {
                if i > 0 {
                    assert(spans[i] == rest[i - 1]);
                }
            }
        }
    }
}

/// A unit begins behind a start code of three or four bytes: zeros and a one.
pub proof fn start_codes_are_zeros_and_a_one(d: Seq<u8>, i: int)
    requires
        0 <= i,
        i + 4 <= d.len(),
    ensures
        d[i] == 0 && d[i + 1] == 0 && d[i + 2] == 0 && d[i + 3] == 1 ==> code_len(d, i) == 4,
        d[i] == 0 && d[i + 1] == 0 && d[i + 2] == 1 ==> code_len(d, i) == 3,
        d[i] != 0 ==> code_len(d, i) == 0,
        d[i + 1] != 0 ==> code_len(d, i) == 0,
{
}

/// A stream of one unit behind a start code is listed as that unit, from its header to the end.
pub proof fn single_units_are_listed_whole(d: Seq<u8>, n: nat)
    requires
        n > 0,
        d.len() > 4,
        d[0] == 0 && d[1] == 0 && d[2] == 0 && d[3] == 1,
        forall|i: int| 4 < i < d.len() ==> !#[trigger] short_code_at(d, i),
    ensures
        units(d, 0, n).len() == 1,
        units(d, 0, n)[0].start == 4,
        units(d, 0, n)[0].end == d.len(),
{
    lemma_no_code(d, 5);
    assert(unit_end(d, 4) == d.len());
    assert(units(d, d.len() as int, (n - 1) as nat).len() == 0);
}

proof fn lemma_no_code(d: Seq<u8>, i: int)
    requires
        4 < i,
        forall|k: int| 4 < k < d.len() ==> !#[trigger] short_code_at(d, k),
    ensures
        i <= d.len() ==> next_code(d, i) == d.len(),
    decreases d.len() - i,
{
    if i < d.len() - 2 {
        assert(!short_code_at(d, i));
        lemma_no_code(d, i + 1);
    }
}

/// No more units are listed than asked for.
pub proof fn listed_units_are_limited(d: Seq<u8>, offset: int, n: nat)
    ensures
        units(d, offset, n).len() <= n,
    decreases d.len() - offset,
{
    if offset < 0 || offset >= d.len() || n == 0 {
    } else if code_len(d, offset) == 0 {
        listed_units_are_limited(d, offset + 1, n);
    } else {
        let start = offset + code_len(d, offset);
        let end = unit_end(d, start);
        if !(start >= d.len() || !(offset < end <= d.len())) {
            listed_units_are_limited(d, end, (n - 1) as nat);
        }
    }
}

/// The header of a unit holds its kind in the lower five bits and its importance in the two
/// above them, and a parameter set shows its first sixteen bytes at most.
pub proof fn headers_tell_the_kind(unit: NalUnit, d: Seq<u8>, span: UnitSpan)
    requires
        unit.is_at(d, span),
        span.start < span.end <= d.len(),
    ensures
        unit.kind == d[span.start as int] & 0x1f,
        unit.ref_idc == (d[span.start as int] >> 5) & 0x03,
        unit.len == span.end - span.start,
        unit.kind == 7 || unit.kind == 8 ==> unit.preview@.len() <= 16 && (unit.len >= 16
            ==> unit.preview@.len() == 16) && (unit.len < 16 ==> unit.preview@.len() == unit.len)
            && unit.preview@[0] == d[span.start as int],
        unit.kind != 7 && unit.kind != 8 ==> unit.preview@.len() == 0,
{
}

/// The kinds have the names of the standard.
pub proof fn kinds_have_their_names(unit: NalUnit)
    ensures
        unit.kind == 1 ==> unit.name() == "P-slice"@,
        unit.kind == 5 ==> unit.name() == "IDR"@,
        unit.kind == 6 ==> unit.name() == "SEI"@,
        unit.kind == 7 ==> unit.name() == "SPS"@,
        unit.kind == 8 ==> unit.name() == "PPS"@,
        unit.kind == 9 ==> unit.name() == "AUD"@,
        unit.kind == 0 || 2 <= unit.kind <= 4 || unit.kind > 9 ==> unit.name() == "Other"@,
{
}

/// A byte is written with its upper half first, the digits above nine as letters from `a` on.
pub proof fn bytes_are_written_in_hexadecimal(b: u8)
    ensures
        hex_text(b).len() == 2,
        b < 160 ==> hex_text(b)[0] as int == 48 + b / 16,
        b >= 160 ==> hex_text(b)[0] as int == 87 + b / 16,
        b % 16 < 10 ==> hex_text(b)[1] as int == 48 + b % 16,
        b % 16 >= 10 ==> hex_text(b)[1] as int == 87 + b % 16,
{
    reveal_strlit("0123456789abcdef");
}

/// A unit ends where the next start code begins, a zero before three bytes being part of that
/// code; without another start code it ends with the stream.
pub proof fn units_end_at_the_next_start_code(d: Seq<u8>, start: int, at: int)
    requires
        0 <= start,
        start < at <= d.len(),
        forall|i: int| start < i < at ==> !#[trigger] short_code_at(d, i),
    ensures
        short_code_at(d, at) && d[at - 1] != 0 ==> unit_end(d, start) == at,
        short_code_at(d, at) && d[at - 1] == 0 ==> unit_end(d, start) == at - 1,
        at == d.len() ==> unit_end(d, start) == d.len(),
{
    if at == d.len() || short_code_at(d, at) {
        lemma_next_code_at(d, start + 1, at);
    }
}

proof fn lemma_next_code_at(d: Seq<u8>, i: int, at: int)
    requires
        0 <= i <= at <= d.len(),
        forall|k: int| i <= k < at ==> !#[trigger] short_code_at(d, k),
        at == d.len() || short_code_at(d, at),
    ensures
        next_code(d, i) == at,
    decreases at - i,
{
    if i < at && i < d.len() - 2 {
        assert(!short_code_at(d, i));
        lemma_next_code_at(d, i + 1, at);
    }
}

/// Parameter sets are described with their first bytes, two digits to each; other units are
/// not. Every description begins with the name, the size and the weight of the unit.
pub proof fn parameter_sets_show_their_bytes(unit: NalUnit)
    ensures
        ({
            let head = unit.name() + "("@ + decimal(unit.len as nat) + "b,ref="@ + decimal(
                unit.ref_idc as nat,
            ) + ")"@;
            &&& unit.name() == "SPS"@ || unit.name() == "PPS"@ ==> unit.description() == head + "["@
                + joined(hex_texts(unit.preview@), " "@) + "]"@
            &&& unit.name() != "SPS"@ && unit.name() != "PPS"@ ==> unit.description() == head
        }),
{
    reveal_strlit("P-slice");
    reveal_strlit("IDR");
    reveal_strlit("SEI");
    reveal_strlit("SPS");
    reveal_strlit("PPS");
    reveal_strlit("AUD");
    reveal_strlit("Other");
    assert("P-slice"@.len() == 7 && "Other"@.len() == 5 && "SPS"@.len() == 3 && "PPS"@.len() == 3);
    assert("IDR"@[0] == 'I' && "SEI"@[1] == 'E' && "AUD"@[0] == 'A' && "SPS"@[0] == 'S');
    assert("SPS"@[1] == 'P' && "PPS"@[0] == 'P' && "SEI"@[0] == 'S');
}

} // verus!
