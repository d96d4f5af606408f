//! Properties of the file responder over every resource and request.
use vstd::prelude::*;
use crate::http::{BodyView, HttpRequest, Method, TagCondition, bytes_opt, tags_view};
use crate::named::{
    NamedFileView, RangeOutcome, precondition_failed, content_range_text, file_response, lists_weak_match,
    range_outcome, unsatisfied_range_text, validator_etag, validator_last_modified, visible_ascii,
};
use crate::range::{
    HttpRange, I64_MAX, RangeScan, bytes_prefix, digits_value, drop_space, find_from,
    is_digit, is_space, parse_count, parse_ranges, range_item, scan_items, skip_space,
};
use crate::text::{decimal, digit_char};

verus! {

/// `bytes={first}-{last}`
pub open spec fn range_header(first: nat, last: nat) -> Seq<u8> {
    bytes_prefix() + decimal(first) + seq![45u8] + decimal(last)
}

proof fn lemma_numeral_digits(n: nat)
    ensures
        decimal(n).len() >= 1,
        forall|k: int| 0 <= k < decimal(n).len() ==> is_digit(#[trigger] decimal(n)[k]),
        digits_value(decimal(n), 0, decimal(n).len() as int) == n,
    decreases n,
{
    if n >= 10 {
        lemma_numeral_digits(n / 10);
        let p = decimal(n / 10);
        let c = digit_char(n % 10);
        assert(decimal(n) == p.push(c));
        lemma_digits_prefix(p.push(c), 0, p.len() as int, p);
        assert(digits_value(p.push(c), 0, p.len() as int + 1) == digits_value(p.push(c), 0, p.len() as int)
            * 10 + (c - 48) as nat);
        assert(p.push(c)[p.len() as int] == c);
        assert((c - 48) as nat == n % 10);
        assert(n == (n / 10) * 10 + n % 10);
    } else {
        let d = decimal(n);
        assert(d == seq![digit_char(n)]);
        assert(digits_value(d, 0, 0) == 0);
        assert(digits_value(d, 0, 1) == digits_value(d, 0, 0) * 10 + (d[0] - 48) as nat);
    }
}

/// The value of digits depends only on the digits themselves.
proof fn lemma_digits_prefix(s: Seq<u8>, lo: int, hi: int, t: Seq<u8>)
    requires
        0 <= lo <= hi <= s.len(),
        t.len() >= hi - lo,
        forall|k: int| 0 <= k < hi - lo ==> t[k] == s[lo + k],
    ensures
        digits_value(s, lo, hi) == digits_value(t, 0, hi - lo),
    decreases hi - lo,
{
    if hi > lo {
        lemma_digits_prefix(s, lo, hi - 1, t);
        assert(t[hi - lo - 1] == s[hi - 1]);
    }
}

proof fn lemma_find_absent(s: Seq<u8>, i: int, b: u8, hi: int)
    requires
        forall|k: int| i <= k < hi ==> s[k] != b,
    ensures
        i <= hi ==> find_from(s, i, b, hi) == hi,
    decreases hi - i,
{
    if i < hi {
        lemma_find_absent(s, i + 1, b, hi);
    }
}

proof fn lemma_find_at(s: Seq<u8>, i: int, b: u8, hi: int, j: int)
    requires
        i <= j < hi,
        s[j] == b,
        forall|k: int| i <= k < j ==> s[k] != b,
    ensures
        find_from(s, i, b, hi) == j,
    decreases j - i,
{
    if i < j {
        lemma_find_at(s, i + 1, b, hi, j);
    }
}

/// A numeral read back from within a header gives its value.
proof fn lemma_count_of_numeral(h: Seq<u8>, lo: int, n: nat)
    requires
        0 <= lo,
        lo + decimal(n).len() <= h.len(),
        h.subrange(lo, lo + decimal(n).len()) == decimal(n),
    ensures
        parse_count(h, lo, lo + decimal(n).len()) == if n <= I64_MAX {
            Some(n)
        } else {
            None::<nat>
        },
{
    let d = decimal(n);
    let hi = lo + d.len();
    lemma_numeral_digits(n);
    assert forall|k: int| 0 <= k < hi - lo implies d[k] == h[lo + k] by {
        assert(h.subrange(lo, hi)[k] == h[lo + k]);
    }
    lemma_digits_prefix(h, lo, hi, d);
    assert(h[lo] == d[0]);
    assert(is_digit(d[0]));
    assert forall|k: int| lo <= k < hi implies is_digit(#[trigger] h[k]) by {
        assert(h[k] == d[k - lo]);
    }
}

/// Position facts of `bytes={a}-{b}`.
proof fn lemma_header_layout(a: nat, b: nat)
    ensures
        ({
            let h = range_header(a, b);
            let da = decimal(a);
            let db = decimal(b);
            let d = 6 + da.len() as int;
            &&& h.len() == d + 1 + db.len()
            &&& h.subrange(6, d) == da
            &&& h.subrange(d + 1, h.len() as int) == db
            &&& h[d] == 45
            &&& h.subrange(0, 6) == bytes_prefix()
            &&& forall|k: int| 6 <= k < d ==> is_digit(#[trigger] h[k])
            &&& forall|k: int| d + 1 <= k < h.len() ==> is_digit(#[trigger] h[k])
            &&& visible_ascii(h)
        }),
{
    let h = range_header(a, b);
    let da = decimal(a);
    let db = decimal(b);
    let d = 6 + da.len() as int;
    lemma_numeral_digits(a);
    lemma_numeral_digits(b);
    assert(h.subrange(6, d) =~= da);
    assert(h.subrange(d + 1, h.len() as int) =~= db);
    assert(h.subrange(0, 6) =~= bytes_prefix());
    assert forall|k: int| 6 <= k < d implies is_digit(#[trigger] h[k]) by {
        assert(h[k] == da[k - 6]);
    }
    assert forall|k: int| d + 1 <= k < h.len() implies is_digit(#[trigger] h[k]) by {
        assert(h[k] == db[k - d - 1]);
    }
    assert forall|k: int| 0 <= k < h.len() implies (#[trigger] h[k] == 9 || (32 <= h[k] && h[k]
        <= 126)) by {
        if k < 6 {
            assert(h[k] == bytes_prefix()[k]);
        } else if k < d {
            assert(is_digit(h[k]));
        } else if k > d {
            assert(is_digit(h[k]));
        }
    }
}

/// `bytes={a}-{b}` is one element `[6, len)` with its dash after the first numeral.
proof fn lemma_header_item(a: nat, b: nat, size: nat)
    ensures
        parse_ranges(range_header(a, b), size) == match range_item(
            range_header(a, b),
            6,
            range_header(a, b).len() as int,
            size,
        ) {
            crate::range::RangeItem::Range(r) => Ok::<Seq<HttpRange>, ()>(seq![r]),
            crate::range::RangeItem::Blank => Ok::<Seq<HttpRange>, ()>(Seq::empty()),
            _ => Err(()),
        },
        range_item(range_header(a, b), 6, range_header(a, b).len() as int, size) == (if a > I64_MAX {
            crate::range::RangeItem::Malformed
        } else if a >= size {
            crate::range::RangeItem::Unsatisfiable
        } else if b > I64_MAX || a > b {
            crate::range::RangeItem::Malformed
        } else {
            crate::range::RangeItem::Range(
                HttpRange {
                    start: a as u64,
                    length: (crate::range::min_nat(b, (size - 1) as nat) - a + 1) as u64,
                },
            )
        }),
{
    let h = range_header(a, b);
    let da = decimal(a);
    let d = 6 + da.len() as int;
    let len = h.len() as int;
    lemma_header_layout(a, b);
    lemma_find_absent(h, 6, 44, len);
    assert(is_digit(h[6]));
    assert(!is_space(h[6]));
    assert(skip_space(h, 6, len) == 6);
    assert(is_digit(h[len - 1]));
    assert(drop_space(h, 6, len) == len);
    lemma_find_at(h, 6, 45, len, d);
    assert(skip_space(h, 6, d) == 6);
    assert(is_digit(h[d - 1]));
    assert(drop_space(h, 6, d) == d);
    lemma_find_absent(h, d + 1, 45, len);
    assert(is_digit(h[d + 1]));
    assert(skip_space(h, d + 1, len) == d + 1);
    assert(drop_space(h, d + 1, len) == len);
    lemma_count_of_numeral(h, 6, a);
    lemma_count_of_numeral(h, d + 1, b);
    let init = RangeScan { malformed: false, unsatisfiable: false, ranges: Seq::empty() };
    assert(scan_items(h, 6, size, init) == crate::range::add_item(init, range_item(h, 6, len, size)));
    if let crate::range::RangeItem::Range(r) = range_item(h, 6, len, size) {
        assert(init.ranges.push(r) =~= seq![r]);
    }
}

/// A request with only a method and a `Range` header.
pub open spec fn plain_range_request(req: HttpRequest, header: Seq<u8>) -> bool {
    &&& req.if_match is None
    &&& req.if_none_match is None
    &&& req.if_modified_since is None
    &&& req.if_unmodified_since is None
    &&& bytes_opt(req.range) == Some(header)
}

/// A resource served normally: status 200 and the request's method allowed.
pub open spec fn serves(f: NamedFileView, m: Method) -> bool {
    f.status_code == 200 && f.allowed_methods.contains(m)
}

/// A single satisfiable range `bytes=s-(s+l-1)` is served with `206`, a
/// `Content-Range` of `bytes s-(s+l-1)/len`, and exactly the `l` bytes from `s`.
pub proof fn lemma_single_range_served(f: NamedFileView, req: HttpRequest, s: nat, l: nat)
    requires
        serves(f, req.method),
        req.method == Method::Get,
        l >= 1,
        s + l <= f.md.len,
        f.md.len <= I64_MAX,
        plain_range_request(req, range_header(s, (s + l - 1) as nat)),
    ensures
        file_response(f, req).status == 206,
        file_response(f, req).headers.content_range == Some(
            content_range_text(HttpRange { start: s as u64, length: l as u64 }, f.md.len as nat),
        ),
        file_response(f, req).headers.content_length == Some(l),
        file_response(f, req).body == (BodyView::File { offset: s, length: l }),
{
    let size = f.md.len as nat;
    lemma_header_item(s, (s + l - 1) as nat, size);
    lemma_header_layout(s, (s + l - 1) as nat);
    let r = HttpRange { start: s as u64, length: l as u64 };
    assert(range_outcome(bytes_opt(req.range), size) == RangeOutcome::Part(r));
}

/// A range that starts at or past the end of the resource is answered with
/// `416`, `Content-Range: bytes */len` and no body.
pub proof fn lemma_out_of_bounds_range(f: NamedFileView, req: HttpRequest, s: nat, e: nat)
    requires
        serves(f, req.method),
        s >= f.md.len,
        bytes_opt(req.range) == Some(range_header(s, e)),
    ensures
        file_response(f, req).status == 416,
        file_response(f, req).headers.content_range == Some(
            unsatisfied_range_text(f.md.len as nat),
        ),
        file_response(f, req).body == BodyView::Empty,
{
    lemma_header_item(s, e, f.md.len as nat);
    lemma_header_layout(s, e);
}

/// Any `Range` header that is not text, or yields no satisfiable range, is
/// answered with `416`, `Content-Range: bytes */len` and no body.
pub proof fn lemma_unsatisfiable_range(f: NamedFileView, req: HttpRequest, h: Seq<u8>)
    requires
        serves(f, req.method),
        bytes_opt(req.range) == Some(h),
        !visible_ascii(h) || match parse_ranges(h, f.md.len as nat) {
            Err(_) => true,
            Ok(rs) => rs.len() == 0,
        },
    ensures
        file_response(f, req).status == 416,
        file_response(f, req).headers.content_range == Some(
            unsatisfied_range_text(f.md.len as nat),
        ),
        file_response(f, req).body == BodyView::Empty,
{
}

/// A range header that does not stop the request: absent or satisfiable.
pub open spec fn range_passes(f: NamedFileView, req: HttpRequest) -> bool {
    range_outcome(bytes_opt(req.range), f.md.len as nat) matches RangeOutcome::Whole
        || range_outcome(bytes_opt(req.range), f.md.len as nat) matches RangeOutcome::Part(_)
}

/// `If-None-Match` naming the current validator yields `304` with no body, for
/// GET and HEAD alike, once the preconditions hold.
pub proof fn lemma_matching_none_match(f: NamedFileView, req: HttpRequest)
    requires
        serves(f, req.method),
        req.method == Method::Get || req.method == Method::Head,
        !precondition_failed(f, req),
        range_passes(f, req),
        validator_etag(f) is Some,
        req.if_none_match matches Some(TagCondition::Items(items)) && lists_weak_match(
            tags_view(items@),
            validator_etag(f).unwrap(),
        ),
    ensures
        file_response(f, req).status == 304,
        file_response(f, req).body == BodyView::Empty,
{
}

/// A request whose `If-Modified-Since` is the resource's own `Last-Modified`,
/// with no `If-None-Match` and nothing else conditional, gets `304` with no body.
pub proof fn lemma_unchanged_since_own_date(f: NamedFileView, req: HttpRequest)
    requires
        serves(f, req.method),
        req.if_match is None,
        req.if_none_match is None,
        req.if_unmodified_since is None,
        req.range is None,
        validator_last_modified(f) is Some,
        req.if_modified_since matches Some(since) && since == validator_last_modified(f).unwrap(),
    ensures
        file_response(f, req).status == 304,
        file_response(f, req).body == BodyView::Empty,
{
}

/// `If-Match` listing only tags that do not strongly match the validator yields
/// `412` with no body, no `Content-Range`, and the whole length as `Content-Length`.
pub proof fn lemma_failed_if_match(f: NamedFileView, req: HttpRequest)
    requires
        serves(f, req.method),
        range_passes(f, req),
        req.if_match matches Some(TagCondition::Items(items)) && forall|i: int|
            0 <= i < items@.len() ==> !(validator_etag(f) matches Some(e)
                && crate::http::strong_match(#[trigger] tags_view(items@)[i], e)),
    ensures
        file_response(f, req).status == 412,
        file_response(f, req).body == BodyView::Empty,
        file_response(f, req).headers.content_range is None,
        file_response(f, req).headers.content_length == Some(f.md.len as nat),
{
}

/// The same request against an unchanged resource gets the same status and
/// validators.
pub proof fn lemma_repeatable(f: NamedFileView, g: NamedFileView, req: HttpRequest)
    requires
        f == g,
    ensures
        file_response(f, req).status == file_response(g, req).status,
        file_response(f, req).headers.etag == file_response(g, req).headers.etag,
        file_response(f, req).headers.last_modified == file_response(g, req).headers.last_modified,
        file_response(f, req).headers.etag == (if file_response(f, req).status == 405 {
            None
        } else if f.status_code == 200 {
            validator_etag(f)
        } else {
            None
        }),
{
}

/// HEAD gets the status and headers of GET, and no body.
pub proof fn lemma_head_like_get(f: NamedFileView, req: HttpRequest)
    requires
        f.allowed_methods.contains(Method::Get),
        f.allowed_methods.contains(Method::Head),
        req.method == Method::Get,
    ensures
        file_response(f, HttpRequest { method: Method::Head, ..req }).status == file_response(
            f,
            req,
        ).status,
        file_response(f, HttpRequest { method: Method::Head, ..req }).headers == file_response(
            f,
            req,
        ).headers,
        file_response(f, HttpRequest { method: Method::Head, ..req }).body == BodyView::Empty,
{
}

} // verus!
