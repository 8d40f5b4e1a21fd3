//! Parsing a `Link`-style response header for the pagination continuation.
//!
//! The header is a comma-separated list of `<url>; rel="name"` segments.
//! The first segment whose relation is `next` — one of the `;`-separated
//! parameters after its URL part is `rel="next"` — supplies the next
//! page's URL: the part before the segment's first `;`, with its angle
//! brackets stripped. That URL is server-supplied and already absolute;
//! it is used verbatim for the next request.

use vstd::prelude::*;
use vstd::string::StrSliceExecFns;

use crate::text::chars_of;

verus! {

/// The characters `str::trim` removes: Unicode whitespace.
pub open spec fn spec_is_whitespace(c: char) -> bool {
    let u = c as u32;
    u == 0x09 || u == 0x0A || u == 0x0B || u == 0x0C || u == 0x0D || u == 0x20 || u == 0x85
        || u == 0xA0 || u == 0x1680 || (0x2000 <= u && u <= 0x200A) || u == 0x2028 || u == 0x2029
        || u == 0x202F || u == 0x205F || u == 0x3000
}

/// The first position in `s` at or after `i` holding `c`, or `s.len()`.
pub open spec fn spec_find(s: Seq<char>, c: char, i: nat) -> nat
    decreases s.len() - i,
{
    if i >= s.len() {
        s.len()
    } else if s[i as int] == c {
        i
    } else {
        spec_find(s, c, i + 1)
    }
}

/// The first position in `s` at or after `i` holding a non-whitespace
/// character, or `s.len()`.
pub open spec fn spec_trim_from(s: Seq<char>, i: nat) -> nat
    decreases s.len() - i,
{
    if i >= s.len() {
        s.len()
    } else if spec_is_whitespace(s[i as int]) {
        spec_trim_from(s, i + 1)
    } else {
        i
    }
}

/// The end of `s` once trailing whitespace before position `i` is dropped.
pub open spec fn spec_trim_upto(s: Seq<char>, i: nat) -> nat
    decreases i,
{
    if i == 0 {
        0
    } else if spec_is_whitespace(s[i - 1]) {
        spec_trim_upto(s, (i - 1) as nat)
    } else {
        i
    }
}

/// `s` without leading and trailing whitespace, as `str::trim` leaves it.
pub open spec fn spec_trim(s: Seq<char>) -> Seq<char> {
    let lo = spec_trim_from(s, 0);
    if lo == s.len() {
        Seq::empty()
    } else {
        s.subrange(lo as int, spec_trim_upto(s, s.len()) as int)
    }
}

/// The parameter that names the continuation relation.
pub open spec fn spec_rel_next() -> Seq<char> {
    seq!['r', 'e', 'l', '=', '"', 'n', 'e', 'x', 't', '"']
}

/// Whether one of the `;`-separated parameters, trimmed, is `rel="next"`.
pub open spec fn spec_params_have_next(params: Seq<char>) -> bool
    decreases params.len(),
{
    let e = spec_find(params, ';', 0);
    if e < params.len() {
        spec_trim(params.subrange(0, e as int)) == spec_rel_next() || spec_params_have_next(
            params.subrange(e as int + 1, params.len() as int),
        )
    } else {
        spec_trim(params) == spec_rel_next()
    }
}

/// Whether the segment's relation is `next`: among the parameters after
/// its URL part — after its first `;` — one is `rel="next"`.
pub open spec fn spec_relation_is_next(seg: Seq<char>) -> bool {
    let e = spec_find(seg, ';', 0);
    if e < seg.len() {
        spec_params_have_next(seg.subrange(e as int + 1, seg.len() as int))
    } else {
        false
    }
}

/// The URL carried by a segment: the part before the first `;`, with its
/// first and last characters (the angle brackets) stripped; empty when
/// that part is shorter than two characters.
pub open spec fn spec_extract_url(seg: Seq<char>) -> Seq<char> {
    let e = spec_find(seg, ';', 0);
    let piece = seg.subrange(0, e as int);
    if piece.len() >= 2 {
        piece.subrange(1, piece.len() - 1)
    } else {
        Seq::empty()
    }
}

/// The next-page URL of a header value: segments are split on `,` and
/// trimmed; the first one whose relation is `next` supplies the URL; with
/// no such segment there is no next page.
pub open spec fn spec_next_url(h: Seq<char>) -> Option<Seq<char>>
    decreases h.len(),
{
    let i = spec_find(h, ',', 0);
    if i < h.len() {
        let seg = spec_trim(h.subrange(0, i as int));
        if spec_relation_is_next(seg) {
            Some(spec_extract_url(seg))
        } else {
            spec_next_url(h.subrange(i as int + 1, h.len() as int))
        }
    } else {
        let seg = spec_trim(h);
        if spec_relation_is_next(seg) {
            Some(spec_extract_url(seg))
        } else {
            None
        }
    }
}

/// `spec_find` lands on the first occurrence.
proof fn lemma_find_at(s: Seq<char>, c: char, i: nat, t: nat)
    requires
        i <= t <= s.len(),
        forall|m: int| i <= m < t ==> s[m] != c,
        t == s.len() || s[t as int] == c,
    ensures
        spec_find(s, c, i) == t,
    decreases t - i,
{
    if i < t {
        lemma_find_at(s, c, i + 1, t);
    }
}

/// `spec_trim_from` lands on the first non-whitespace position.
proof fn lemma_trim_from_at(s: Seq<char>, i: nat, t: nat)
    requires
        i <= t <= s.len(),
        forall|m: int| i <= m < t ==> spec_is_whitespace(s[m]),
        t == s.len() || !spec_is_whitespace(s[t as int]),
    ensures
        spec_trim_from(s, i) == t,
    decreases t - i,
{
    if i < t {
        lemma_trim_from_at(s, i + 1, t);
    }
}

/// `spec_trim_upto` lands just after the last non-whitespace position.
proof fn lemma_trim_upto_at(s: Seq<char>, i: nat, t: nat)
    requires
        t <= i <= s.len(),
        forall|m: int| t <= m < i ==> spec_is_whitespace(s[m]),
        t == 0 || !spec_is_whitespace(s[t - 1]),
    ensures
        spec_trim_upto(s, i) == t,
    decreases i - t,
{
    if t < i {
        lemma_trim_upto_at(s, (i - 1) as nat, t);
    }
}

/// Whether `c` is Unicode whitespace.
fn is_space(c: char) -> (r: bool)
    ensures
        r == spec_is_whitespace(c),
{
    let u = c as u32;
    u == 0x09 || u == 0x0A || u == 0x0B || u == 0x0C || u == 0x0D || u == 0x20 || u == 0x85
        || u == 0xA0 || u == 0x1680 || (0x2000 <= u && u <= 0x200A) || u == 0x2028 || u == 0x2029
        || u == 0x202F || u == 0x205F || u == 0x3000
}

/// The first position of `c` in `v` within `[from, to)`, or `to`.
fn scan_to_char(v: &Vec<char>, c: char, from: usize, to: usize) -> (r: usize)
    requires
        from <= to <= v@.len(),
    ensures
        from <= r <= to,
        spec_find(v@.subrange(from as int, to as int), c, 0) == r - from,
        r < to ==> v@[r as int] == c,
{
    let mut j = from;
    while j < to && v[j] != c
        invariant
            from <= j <= to,
            to <= v@.len(),
            forall|m: int| from <= m < j ==> v@[m] != c,
        decreases to - j,
    {
        j = j + 1;
    }
    proof {
        let s = v@.subrange(from as int, to as int);
        assert(forall|m: int| 0 <= m < j - from ==> s[m] != c);
        assert(j - from == s.len() || s[j - from] == c);
        lemma_find_at(s, c, 0, (j - from) as nat);
    }
    j
}

/// The bounds of the trimmed text of `v` within `[from, to)`.
fn trim_range(v: &Vec<char>, from: usize, to: usize) -> (r: (usize, usize))
    requires
        from <= to <= v@.len(),
    ensures
        from <= r.0 <= r.1 <= to,
        spec_trim(v@.subrange(from as int, to as int)) == v@.subrange(r.0 as int, r.1 as int),
{
    let ghost s = v@.subrange(from as int, to as int);
    let mut ta = from;
    while ta < to && is_space(v[ta])
        invariant
            from <= ta <= to,
            to <= v@.len(),
            forall|m: int| from <= m < ta ==> spec_is_whitespace(v@[m]),
        decreases to - ta,
    {
        ta = ta + 1;
    }
    proof {
        assert(forall|m: int| 0 <= m < ta - from ==> s[m] == v@[from + m] && spec_is_whitespace(
            s[m],
        ));
        lemma_trim_from_at(s, 0, (ta - from) as nat);
    }
    if ta == to {
        proof {
            assert(spec_trim(s) =~= v@.subrange(ta as int, ta as int));
        }
        return (ta, ta);
    }
    let mut tb = to;
    while tb > ta && is_space(v[tb - 1])
        invariant
            ta <= tb <= to,
            to <= v@.len(),
            forall|m: int| tb <= m < to ==> spec_is_whitespace(v@[m]),
        decreases tb,
    {
        tb = tb - 1;
    }
    proof {
        assert(tb > ta);
        assert(forall|m: int| tb - from <= m < s.len() ==> s[m] == v@[from + m]
            && spec_is_whitespace(s[m]));
        assert(!spec_is_whitespace(s[tb - from - 1]));
        lemma_trim_upto_at(s, s.len(), (tb - from) as nat);
        assert(spec_trim(s) =~= v@.subrange(ta as int, tb as int));
    }
    (ta, tb)
}

/// Whether `v` within `[from, to)` is exactly the `rel="next"` parameter.
fn param_is_rel_next(v: &Vec<char>, from: usize, to: usize) -> (r: bool)
    requires
        from <= to <= v@.len(),
    ensures
        r == (v@.subrange(from as int, to as int) == spec_rel_next()),
{
    let ghost p = v@.subrange(from as int, to as int);
    if to - from != 10 {
        proof {
            assert(p.len() != spec_rel_next().len());
        }
        return false;
    }
    let m = v[from] == 'r' && v[from + 1] == 'e' && v[from + 2] == 'l' && v[from + 3] == '=' && v[
        from + 4] == '"' && v[from + 5] == 'n' && v[from + 6] == 'e' && v[from + 7] == 'x' && v[from
        + 8] == 't' && v[from + 9] == '"';
    proof {
        assert(forall|i: int| 0 <= i < 10 ==> p[i] == v@[from + i]);
        if m {
            assert(p =~= spec_rel_next());
        } else {
            assert(p != spec_rel_next()) by {
                if p == spec_rel_next() {
                    assert(p[0] == 'r' && p[1] == 'e' && p[2] == 'l' && p[3] == '=' && p[4] == '"'
                        && p[5] == 'n' && p[6] == 'e' && p[7] == 'x' && p[8] == 't' && p[9] == '"');
                }
            }
        }
    }
    m
}

/// Whether the relation of the segment held by `v` within `[from, to)` is
/// `next`.
fn relation_is_next(v: &Vec<char>, from: usize, to: usize) -> (r: bool)
    requires
        from <= to <= v@.len(),
    ensures
        r == spec_relation_is_next(v@.subrange(from as int, to as int)),
{
    let ghost seg = v@.subrange(from as int, to as int);
    let e = scan_to_char(v, ';', from, to);
    if e == to {
        proof {
            assert(spec_find(seg, ';', 0) == seg.len());
            assert(!spec_relation_is_next(seg));
        }
        return false;
    }
    let ghost whole = v@.subrange(e + 1, to as int);
    proof {
        assert(spec_find(seg, ';', 0) == e - from);
        assert(seg.subrange(e - from + 1, seg.len() as int) =~= whole);
        assert(spec_relation_is_next(seg) == spec_params_have_next(whole));
    }
    let mut cur = e + 1;
    loop
        invariant
            from <= e < to <= v@.len(),
            e + 1 <= cur <= to,
            seg == v@.subrange(from as int, to as int),
            whole == v@.subrange(e + 1, to as int),
            spec_params_have_next(whole) == spec_params_have_next(
                v@.subrange(cur as int, to as int),
            ),
            spec_relation_is_next(seg) == spec_params_have_next(whole),
        decreases to - cur,
    {
        let p = scan_to_char(v, ';', cur, to);
        let (pa, pb) = trim_range(v, cur, p);
        let ghost rest = v@.subrange(cur as int, to as int);
        let ghost piece = v@.subrange(cur as int, p as int);
        proof {
            assert(spec_find(rest, ';', 0) == p - cur);
            assert(rest.subrange(0, p - cur) =~= piece);
            assert(spec_trim(piece) == v@.subrange(pa as int, pb as int));
            if p == to {
                assert(rest =~= piece);
            }
        }
        if param_is_rel_next(v, pa, pb) {
            proof {
                assert(spec_params_have_next(rest));
            }
            return true;
        }
        if p == to {
            proof {
                assert(!spec_params_have_next(rest));
            }
            return false;
        }
        proof {
            assert(rest.subrange(p - cur + 1, rest.len() as int) =~= v@.subrange(
                p + 1,
                to as int,
            ));
            assert(spec_params_have_next(rest) == spec_params_have_next(
                v@.subrange(p + 1, to as int),
            ));
        }
        cur = p + 1;
    }
}

/// The next-page URL carried by a `Link` header value, if any: the first
/// comma-separated segment whose relation is `next`, cut before its first
/// `;` and stripped of its angle brackets.
pub fn get_next_url(header: &str) -> (r: Option<String>)
    ensures
        match r {
            Some(u) => spec_next_url(header@) == Some(u@),
            None => spec_next_url(header@) is None,
        },
{
    let v = chars_of(header);
    let n = v.len();
    proof {
        assert(header@.subrange(0, n as int) =~= header@);
    }
    let mut start: usize = 0;
    loop
        invariant
            start <= n,
            n == header@.len(),
            v@ == header@,
            spec_next_url(header@) == spec_next_url(header@.subrange(start as int, n as int)),
        decreases n - start,
    {
        let j = scan_to_char(&v, ',', start, n);
        let (ta, tb) = trim_range(&v, start, j);
        let ghost hs = header@.subrange(start as int, n as int);
        let ghost seg0 = header@.subrange(start as int, j as int);
        let ghost seg = header@.subrange(ta as int, tb as int);
        proof {
            assert(hs.subrange(0, j - start) =~= seg0);
            assert(v@.subrange(start as int, n as int) == hs);
            assert(v@.subrange(start as int, j as int) == seg0);
            assert(spec_find(hs, ',', 0) == j - start);
            assert(spec_trim(seg0) == seg);
            if j < n {
                assert(hs.subrange(0, spec_find(hs, ',', 0) as int) == seg0);
            } else {
                assert(hs =~= seg0);
            }
        }
        if relation_is_next(&v, ta, tb) {
            proof {
                assert(spec_relation_is_next(seg));
                assert(spec_next_url(hs) == Some(spec_extract_url(seg)));
            }
            let e = scan_to_char(&v, ';', ta, tb);
            proof {
                assert(spec_find(seg, ';', 0) == e - ta);
                assert(seg.subrange(0, e - ta) =~= header@.subrange(ta as int, e as int));
            }
            if e - ta >= 2 {
                let url = header.substring_char(ta + 1, e - 1);
                proof {
                    assert(seg.subrange(0, e - ta).subrange(1, e - ta - 1) =~= header@.subrange(
                        ta + 1,
                        e - 1,
                    ));
                    assert(spec_extract_url(seg) == url@);
                }
                return Some(url.to_owned());
            } else {
                proof {
                    assert(spec_extract_url(seg) =~= Seq::<char>::empty());
                }
                return Some(String::new());
            }
        }
        if j == n {
            proof {
                assert(!spec_relation_is_next(seg));
                assert(spec_next_url(hs) is None);
            }
            return None;
        }
        proof {
            assert(!spec_relation_is_next(seg));
            assert(spec_next_url(hs) == spec_next_url(hs.subrange(j - start + 1, hs.len() as int)));
            assert(hs.subrange(j - start + 1, hs.len() as int) =~= header@.subrange(
                j + 1,
                n as int,
            ));
        }
        start = j + 1;
    }
}

} // verus!
