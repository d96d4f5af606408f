//! `Range: bytes=...` header parsing.
use vstd::prelude::*;

verus! {

/// A byte range `[start, start + length)` of a resource.
#[derive(Clone, Copy, Debug, PartialEq, Eq, Structural)]
pub struct HttpRange {
    pub start: u64,
    pub length: u64,
}

/// What one comma-separated element of a `Range` header denotes.
#[derive(Clone, Copy, Debug, PartialEq, Eq, Structural)]
pub enum RangeItem {
    /// Blank element, ignored.
    Blank,
    /// Malformed element: the whole header is rejected.
    Malformed,
    /// Well-formed but selects no byte of the resource.
    Unsatisfiable,
    /// A satisfiable range.
    Range(HttpRange),
}

pub open spec fn is_space(b: u8) -> bool {
    b == 32 || (9 <= b && b <= 13)
}

pub open spec fn is_digit(b: u8) -> bool {
    48 <= b && b <= 57
}

/// First index in `[i, hi)` holding `b`, or `hi` if there is none.
pub open spec fn find_from(s: Seq<u8>, i: int, b: u8, hi: int) -> int
    decreases hi - i,
{
    if i >= hi {
        hi
    } else if s[i] == b {
        i
    } else {
        find_from(s, i + 1, b, hi)
    }
}

/// First index in `[i, hi)` that is not white space, or `hi`.
pub open spec fn skip_space(s: Seq<u8>, i: int, hi: int) -> int
    decreases hi - i,
{
    if i >= hi {
        hi
    } else if is_space(s[i]) {
        skip_space(s, i + 1, hi)
    } else {
        i
    }
}

/// End of `[lo, j)` once trailing white space is removed.
pub open spec fn drop_space(s: Seq<u8>, lo: int, j: int) -> int
    decreases j - lo,
{
    if j <= lo {
        lo
    } else if is_space(s[j - 1]) {
        drop_space(s, lo, j - 1)
    } else {
        j
    }
}

/// Value of the decimal digits in `[lo, hi)`.
pub open spec fn digits_value(s: Seq<u8>, lo: int, hi: int) -> nat
    decreases hi - lo,
{
    if hi <= lo {
        0
    } else {
        digits_value(s, lo, hi - 1) * 10 + (s[hi - 1] - 48) as nat
    }
}

pub open spec fn all_digits(s: Seq<u8>, lo: int, hi: int) -> bool {
    forall|k: int| lo <= k < hi ==> is_digit(#[trigger] s[k])
}

pub const I64_MAX: u64 = 0x7fff_ffff_ffff_ffff;

/// An unsigned decimal integer as Rust's integer parsing reads it: an optional
/// `+`, then at least one digit, not above `max`.
pub open spec fn parse_bounded(s: Seq<u8>, lo: int, hi: int, max: nat) -> Option<nat> {
    let d = if lo < hi && s[lo] == 43 {
        lo + 1
    } else {
        lo
    };
    if d < hi && all_digits(s, d, hi) && digits_value(s, d, hi) <= max {
        Some(digits_value(s, d, hi))
    } else {
        None
    }
}

/// A signed 64-bit decimal integer without a minus sign.
pub open spec fn parse_count(s: Seq<u8>, lo: int, hi: int) -> Option<nat> {
    parse_bounded(s, lo, hi, I64_MAX as nat)
}

pub open spec fn min_nat(a: nat, b: nat) -> nat {
    if a <= b {
        a
    } else {
        b
    }
}

/// A suffix range `-n`: the last `n` bytes, or the whole resource if it is shorter.
pub open spec fn suffix_item(n: nat, size: nat) -> RangeItem {
    let len = min_nat(n, size);
    if len == 0 {
        RangeItem::Unsatisfiable
    } else {
        RangeItem::Range(HttpRange { start: (size - len) as u64, length: len as u64 })
    }
}

/// A range `start-` or `start-end`, where `end` is the text in `[ea, eb)`.
pub open spec fn bounded_item(s: Seq<u8>, start: nat, ea: int, eb: int, size: nat) -> RangeItem {
    if start >= size {
        RangeItem::Unsatisfiable
    } else if ea >= eb {
        RangeItem::Range(HttpRange { start: start as u64, length: (size - start) as u64 })
    } else {
        match parse_count(s, ea, eb) {
            None => RangeItem::Malformed,
            Some(end) => if start > end {
                RangeItem::Malformed
            } else {
                let last = min_nat(end, (size - 1) as nat);
                RangeItem::Range(HttpRange { start: start as u64, length: (last - start + 1) as u64 })
            },
        }
    }
}

/// Meaning of the header element in `[lo, hi)`: white space around it is
/// ignored; it is `start-end`, `start-` or `-suffix`, and text after a second `-`
/// is ignored.
pub open spec fn range_item(s: Seq<u8>, lo: int, hi: int, size: nat) -> RangeItem {
    let a = skip_space(s, lo, hi);
    let b = drop_space(s, a, hi);
    let d = find_from(s, a, 45, b);
    if a >= b {
        RangeItem::Blank
    } else if d >= b {
        RangeItem::Malformed
    } else {
        let sa = skip_space(s, a, d);
        let sb = drop_space(s, sa, d);
        let e = find_from(s, d + 1, 45, b);
        let ea = skip_space(s, d + 1, e);
        let eb = drop_space(s, ea, e);
        if sa >= sb {
            match parse_count(s, ea, eb) {
                None => RangeItem::Malformed,
                Some(n) => suffix_item(n, size),
            }
        } else {
            match parse_count(s, sa, sb) {
                None => RangeItem::Malformed,
                Some(start) => bounded_item(s, start, ea, eb, size),
            }
        }
    }
}

/// What the elements read so far amount to.
pub struct RangeScan {
    pub malformed: bool,
    pub unsatisfiable: bool,
    pub ranges: Seq<HttpRange>,
}

pub open spec fn add_item(acc: RangeScan, item: RangeItem) -> RangeScan {
    match item {
        RangeItem::Blank => acc,
        RangeItem::Malformed => RangeScan { malformed: true, ..acc },
        RangeItem::Unsatisfiable => RangeScan { unsatisfiable: true, ..acc },
        RangeItem::Range(r) => RangeScan { ranges: acc.ranges.push(r), ..acc },
    }
}

/// Reads the comma-separated elements from `pos` on.
pub open spec fn scan_items(s: Seq<u8>, pos: int, size: nat, acc: RangeScan) -> RangeScan
    decreases s.len() - pos,
    via scan_items_decreases
{
    let c = find_from(s, pos, 44, s.len() as int);
    let next = add_item(acc, range_item(s, pos, c, size));
    if pos < 0 || c >= s.len() {
        next
    } else {
        scan_items(s, c + 1, size, next)
    }
}

pub proof fn lemma_find_from_bounds(s: Seq<u8>, i: int, b: u8, hi: int)
    ensures
        i <= hi ==> i <= find_from(s, i, b, hi) <= hi,
    decreases hi - i,
{
    if i < hi && s[i] != b {
        lemma_find_from_bounds(s, i + 1, b, hi);
    }
}

#[via_fn]
proof fn scan_items_decreases(s: Seq<u8>, pos: int, size: nat, acc: RangeScan) {
    lemma_find_from_bounds(s, pos, 44, s.len() as int);
}

/// A range that selects at least one byte and none past the end.
pub open spec fn valid_range(r: HttpRange, size: nat) -> bool {
    r.length >= 1 && r.start + r.length <= size
}

pub open spec fn all_valid(rs: Seq<HttpRange>, size: nat) -> bool {
    forall|i: int| 0 <= i < rs.len() ==> valid_range(#[trigger] rs[i], size)
}

proof fn lemma_item_valid(s: Seq<u8>, lo: int, hi: int, size: nat)
    requires
        size <= u64::MAX,
    ensures
        range_item(s, lo, hi, size) matches RangeItem::Range(r) ==> valid_range(r, size),
{
}

proof fn lemma_scan_valid(s: Seq<u8>, pos: int, size: nat, acc: RangeScan)
    requires
        all_valid(acc.ranges, size),
        size <= u64::MAX,
    ensures
        all_valid(scan_items(s, pos, size, acc).ranges, size),
    decreases s.len() - pos,
{
    let c = find_from(s, pos, 44, s.len() as int);
    lemma_find_from_bounds(s, pos, 44, s.len() as int);
    lemma_item_valid(s, pos, c, size);
    let next = add_item(acc, range_item(s, pos, c, size));
    assert(all_valid(next.ranges, size)) by {
        if range_item(s, pos, c, size) matches RangeItem::Range(r) {
            assert forall|i: int| 0 <= i < next.ranges.len() implies valid_range(
                #[trigger] next.ranges[i],
                size,
            ) by {
                if i < acc.ranges.len() {
                    assert(next.ranges[i] == acc.ranges[i]);
                }
            }
        }
    }
    if !(pos < 0 || c >= s.len()) {
        lemma_scan_valid(s, c + 1, size, next);
    }
}

/// Every range that a header yields lies within the resource and is non-empty.
pub proof fn lemma_parsed_ranges_valid(h: Seq<u8>, size: nat)
    requires
        size <= u64::MAX,
    ensures
        parse_ranges(h, size) matches Ok(rs) ==> all_valid(rs, size),
{
    if h.len() >= 6 {
        lemma_scan_valid(
            h,
            6,
            size,
            RangeScan { malformed: false, unsatisfiable: false, ranges: Seq::empty() },
        );
    }
}

/// `bytes=`
pub open spec fn bytes_prefix() -> Seq<u8> {
    seq![98, 121, 116, 101, 115, 61]
}

/// Meaning of a whole `Range` header against a resource of `size` bytes: `Err`
/// when it is malformed, or when every element is unsatisfiable; otherwise the
/// satisfiable ranges in order (none for an empty header).
pub open spec fn parse_ranges(h: Seq<u8>, size: nat) -> Result<Seq<HttpRange>, ()> {
    if h.len() == 0 {
        Ok(Seq::empty())
    } else if h.len() < 6 || h.subrange(0, 6) != bytes_prefix() {
        Err(())
    } else {
        let r = scan_items(h, 6, size, RangeScan { malformed: false, unsatisfiable: false, ranges: Seq::empty() });
        if r.malformed || (r.unsatisfiable && r.ranges.len() == 0) {
            Err(())
        } else {
            Ok(r.ranges)
        }
    }
}

fn find_byte(s: &[u8], i: usize, b: u8, hi: usize) -> (r: usize)
    requires
        i <= hi <= s@.len(),
    ensures
        r == find_from(s@, i as int, b, hi as int),
        i <= r <= hi,
{
    let mut j = i;
    while j < hi
        invariant
            i <= j <= hi,
            hi <= s@.len(),
            find_from(s@, i as int, b, hi as int) == find_from(s@, j as int, b, hi as int),
        decreases hi - j,
    {
        if s[j] == b {
            return j;
        }
        j = j + 1;
    }
    j
}

fn skip_spaces(s: &[u8], i: usize, hi: usize) -> (r: usize)
    requires
        i <= hi <= s@.len(),
    ensures
        r == skip_space(s@, i as int, hi as int),
        i <= r <= hi,
{
    let mut j = i;
    while j < hi
        invariant
            i <= j <= hi,
            hi <= s@.len(),
            skip_space(s@, i as int, hi as int) == skip_space(s@, j as int, hi as int),
        decreases hi - j,
    {
        let c = s[j];
        if !(c == 32 || (9 <= c && c <= 13)) {
            return j;
        }
        j = j + 1;
    }
    j
}

fn drop_spaces(s: &[u8], lo: usize, hi: usize) -> (r: usize)
    requires
        lo <= hi <= s@.len(),
    ensures
        r == drop_space(s@, lo as int, hi as int),
        lo <= r <= hi,
{
    let mut j = hi;
    while j > lo
        invariant
            lo <= j <= hi,
            hi <= s@.len(),
            drop_space(s@, lo as int, hi as int) == drop_space(s@, lo as int, j as int),
        decreases j - lo,
    {
        let c = s[j - 1];
        if !(c == 32 || (9 <= c && c <= 13)) {
            return j;
        }
        j = j - 1;
    }
    j
}

proof fn lemma_digits_monotone(s: Seq<u8>, lo: int, i: int, hi: int)
    requires
        lo <= i <= hi,
    ensures
        digits_value(s, lo, i) <= digits_value(s, lo, hi),
    decreases hi - i,
{
    if i < hi {
        lemma_digits_monotone(s, lo, i, hi - 1);
    }
}

/// Reads the unsigned decimal integer in `s[lo..hi)`, as [`parse_bounded`] states.
pub fn parse_decimal(s: &[u8], lo: usize, hi: usize, max: u64) -> (r: Option<u64>)
    requires
        lo <= hi <= s@.len(),
    ensures
        match parse_bounded(s@, lo as int, hi as int, max as nat) {
            Some(n) => r == Some(n as u64),
            None => r is None,
        },
{
    let d = if lo < hi && s[lo] == 43 {
        lo + 1
    } else {
        lo
    };
    if d >= hi {
        return None;
    }
    let mut acc: u64 = 0;
    let mut i = d;
    while i < hi
        invariant
            d <= i <= hi,
            hi <= s@.len(),
            d == (if lo < hi && s@[lo as int] == 43 {
                lo + 1
            } else {
                lo as int
            }),
            all_digits(s@, d as int, i as int),
            acc as nat == digits_value(s@, d as int, i as int),
            acc <= max,
        decreases hi - i,
    {
        let c = s[i];
        if !(48 <= c && c <= 57) {
            proof {
                assert(!is_digit(s@[i as int]));
                assert(!all_digits(s@, d as int, hi as int));
            }
            return None;
        }
        let v = (c - 48) as u64;
        if v > max || acc > (max - v) / 10 {
            proof {
                assert(acc * 10 + v > max) by (nonlinear_arith)
                    requires
                        v > max || acc > (max - v) / 10,
                        v <= 9,
                        acc >= 0,
                ;
                assert(digits_value(s@, d as int, i + 1) == acc * 10 + v);
                lemma_digits_monotone(s@, d as int, i + 1, hi as int);
                assert(digits_value(s@, d as int, hi as int) > max);
            }
            return None;
        }
        proof {
            assert(acc * 10 + v <= max) by (nonlinear_arith)
                requires
                    v <= max,
                    acc <= (max - v) / 10,
                    v <= 9,
            ;
        }
        acc = acc * 10 + v;
        i = i + 1;
    }
    Some(acc)
}

fn min_u64(a: u64, b: u64) -> (r: u64)
    ensures
        r == min_nat(a as nat, b as nat),
{
    if a <= b {
        a
    } else {
        b
    }
}

fn read_item(s: &[u8], lo: usize, hi: usize, size: u64) -> (r: RangeItem)
    requires
        lo <= hi <= s@.len(),
    ensures
        r == range_item(s@, lo as int, hi as int, size as nat),
{
    let a = skip_spaces(s, lo, hi);
    let b = drop_spaces(s, a, hi);
    let d = find_byte(s, a, 45, b);
    if a >= b {
        return RangeItem::Blank;
    }
    if d >= b {
        return RangeItem::Malformed;
    }
    let sa = skip_spaces(s, a, d);
    let sb = drop_spaces(s, sa, d);
    let e = find_byte(s, d + 1, 45, b);
    let ea = skip_spaces(s, d + 1, e);
    let eb = drop_spaces(s, ea, e);
    if sa >= sb {
        match parse_decimal(s, ea, eb, I64_MAX) {
            None => RangeItem::Malformed,
            Some(n) => {
                let len = min_u64(n, size);
                if len == 0 {
                    RangeItem::Unsatisfiable
                } else {
                    RangeItem::Range(HttpRange { start: size - len, length: len })
                }
            },
        }
    } else {
        match parse_decimal(s, sa, sb, I64_MAX) {
            None => RangeItem::Malformed,
            Some(start) => {
                if start >= size {
                    RangeItem::Unsatisfiable
                } else if ea >= eb {
                    RangeItem::Range(HttpRange { start, length: size - start })
                } else {
                    match parse_decimal(s, ea, eb, I64_MAX) {
                        None => RangeItem::Malformed,
                        Some(end) => {
                            if start > end {
                                RangeItem::Malformed
                            } else {
                                let last = min_u64(end, size - 1);
                                RangeItem::Range(HttpRange { start, length: last - start + 1 })
                            }
                        },
                    }
                }
            },
        }
    }
}

impl HttpRange {
    /// Parses a `Range` header against a resource of `size` bytes.
    pub fn parse(header: &[u8], size: u64) -> (r: Result<Vec<HttpRange>, ()>)
        ensures
            match parse_ranges(header@, size as nat) {
                Ok(rs) => r matches Ok(v) && v@ == rs,
                Err(_) => r is Err,
            },
    {
        if header.len() == 0 {
            return Ok(Vec::new());
        }
        if header.len() < 6 || header[0] != 98 || header[1] != 121 || header[2] != 116
            || header[3] != 101 || header[4] != 115 || header[5] != 61 {
            proof {
                if header@.len() >= 6 && header@.subrange(0, 6) == bytes_prefix() {
                    assert(header@[0] == header@.subrange(0, 6)[0]);
                    assert(header@[1] == header@.subrange(0, 6)[1]);
                    assert(header@[2] == header@.subrange(0, 6)[2]);
                    assert(header@[3] == header@.subrange(0, 6)[3]);
                    assert(header@[4] == header@.subrange(0, 6)[4]);
                    assert(header@[5] == header@.subrange(0, 6)[5]);
                }
            }
            return Err(());
        }
        proof {
            assert(header@.subrange(0, 6) =~= bytes_prefix());
        }
        let ghost init = RangeScan { malformed: false, unsatisfiable: false, ranges: Seq::empty() };
        let mut malformed = false;
        let mut unsatisfiable = false;
        let mut ranges: Vec<HttpRange> = Vec::new();
        let mut pos: usize = 6;
        loop
            invariant_except_break
                scan_items(header@, 6, size as nat, init) == scan_items(
                    header@,
                    pos as int,
                    size as nat,
                    RangeScan { malformed, unsatisfiable, ranges: ranges@ },
                ),
            invariant
                6 <= pos <= header@.len(),
            ensures
                scan_items(header@, 6, size as nat, init) == (RangeScan {
                    malformed,
                    unsatisfiable,
                    ranges: ranges@,
                }),
            decreases header@.len() - pos,
        {
            let ghost before = RangeScan { malformed, unsatisfiable, ranges: ranges@ };
            let c = find_byte(header, pos, 44, header.len());
            match read_item(header, pos, c, size) {
                RangeItem::Blank => {},
                RangeItem::Malformed => {
                    malformed = true;
                },
                RangeItem::Unsatisfiable => {
                    unsatisfiable = true;
                },
                RangeItem::Range(r) => {
                    ranges.push(r);
                },
            }
            proof {
                assert(RangeScan { malformed, unsatisfiable, ranges: ranges@ } == add_item(
                    before,
                    range_item(header@, pos as int, c as int, size as nat),
                ));
            }
            if c >= header.len() {
                break;
            }
            pos = c + 1;
        }
        if malformed || (unsatisfiable && ranges.len() == 0) {
            Err(())
        } else {
            Ok(ranges)
        }
    }
}

} // verus!
