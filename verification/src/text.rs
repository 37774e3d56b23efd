//! Character-level text utilities: a whitespace model, trimming, substring
//! search, and first-occurrence replacement, each proved against a direct
//! mathematical statement over `Seq<char>`.

use vstd::prelude::*;
use vstd::string::*;

verus! {

/// The white-space characters, as Unicode's `White_Space` property lists them.
pub open spec fn is_space(c: char) -> bool {
    let u = c as u32;
    (0x09 <= u && u <= 0x0d) || u == 0x20 || u == 0x85 || u == 0xa0 || u == 0x1680 || (0x2000
        <= u && u <= 0x200a) || u == 0x2028 || u == 0x2029 || u == 0x202f || u == 0x205f || u
        == 0x3000
}

pub fn is_space_char(c: char) -> (r: bool)
    ensures
        r == is_space(c),
{
    let u = c as u32;
    (0x09 <= u && u <= 0x0d) || u == 0x20 || u == 0x85 || u == 0xa0 || u == 0x1680 || (0x2000
        <= u && u <= 0x200a) || u == 0x2028 || u == 0x2029 || u == 0x202f || u == 0x205f || u
        == 0x3000
}

/// The sequence with its leading white space removed.
pub open spec fn trim_start_spec(s: Seq<char>) -> Seq<char>
    decreases s.len(),
{
    if s.len() > 0 && is_space(s[0]) {
        trim_start_spec(s.drop_first())
    } else {
        s
    }
}

/// The sequence with its trailing white space removed.
pub open spec fn trim_end_spec(s: Seq<char>) -> Seq<char>
    decreases s.len(),
{
    if s.len() > 0 && is_space(s.last()) {
        trim_end_spec(s.drop_last())
    } else {
        s
    }
}

/// The sequence with leading and trailing white space removed.
pub open spec fn trim_spec(s: Seq<char>) -> Seq<char> {
    trim_end_spec(trim_start_spec(s))
}

/// True when the sequence neither starts nor ends with white space.
pub open spec fn space_free_edges(s: Seq<char>) -> bool {
    s.len() == 0 || (!is_space(s[0]) && !is_space(s[s.len() - 1]))
}

proof fn lemma_trim_start_at(s: Seq<char>, i: int)
    requires
        0 <= i <= s.len(),
        forall|k: int| 0 <= k < i ==> is_space(s[k]),
        i == s.len() || !is_space(s[i]),
    ensures
        trim_start_spec(s) =~= s.subrange(i, s.len() as int),
    decreases i,
{
    if i == 0 {
        assert(s.subrange(0, s.len() as int) =~= s);
    } else {
        assert(is_space(s[0]));
        let t = s.drop_first();
        assert forall|k: int| 0 <= k < i - 1 implies is_space(t[k]) by {
            assert(t[k] == s[k + 1]);
        }
        assert(i - 1 == t.len() || !is_space(t[i - 1]));
        lemma_trim_start_at(t, i - 1);
        assert(t.subrange(i - 1, t.len() as int) =~= s.subrange(i, s.len() as int));
    }
}

proof fn lemma_trim_end_at(s: Seq<char>, j: int)
    requires
        0 <= j <= s.len(),
        forall|k: int| j <= k < s.len() ==> is_space(s[k]),
        j == 0 || !is_space(s[j - 1]),
    ensures
        trim_end_spec(s) =~= s.subrange(0, j),
    decreases s.len() - j,
{
    if j == s.len() {
        if s.len() == 0 {
            assert(s.subrange(0, 0) =~= s);
        } else {
            assert(!is_space(s.last()));
            assert(s.subrange(0, s.len() as int) =~= s);
        }
    } else {
        assert(is_space(s.last()));
        let t = s.drop_last();
        assert forall|k: int| j <= k < t.len() implies is_space(t[k]) by {
            assert(t[k] == s[k]);
        }
        lemma_trim_end_at(t, j);
        assert(t.subrange(0, j) =~= s.subrange(0, j));
    }
}

/// Removes leading and trailing white space, exactly as `trim_spec` describes.
pub fn trim_str(s: &str) -> (r: &str)
    ensures
        r@ == trim_spec(s@),
{
    let n = s.unicode_len();
    let mut start: usize = 0;
    while start < n && is_space_char(s.get_char(start))
        invariant
            n == s@.len(),
            start <= n,
            forall|k: int| 0 <= k < start ==> is_space(s@[k]),
        decreases n - start,
    {
        start = start + 1;
    }
    let mut end: usize = n;
    while end > start && is_space_char(s.get_char(end - 1))
        invariant
            n == s@.len(),
            start <= end <= n,
            forall|k: int| end <= k < n ==> is_space(s@[k]),
        decreases end,
    {
        end = end - 1;
    }
    let r = s.substring_char(start, end);
    proof {
        lemma_trim_start_at(s@, start as int);
        let t = s@.subrange(start as int, n as int);
        assert forall|k: int| end - start <= k < t.len() implies is_space(t[k]) by {
            assert(t[k] == s@[start + k]);
        }
        if end > start {
            assert(t[end - start - 1] == s@[end - 1]);
        }
        lemma_trim_end_at(t, end - start);
        assert(t.subrange(0, end - start) =~= s@.subrange(start as int, end as int));
        assert(r@ =~= trim_spec(s@));
    }
    r
}

proof fn lemma_trim_start_edges(s: Seq<char>)
    ensures
        trim_start_spec(s).len() > 0 ==> !is_space(trim_start_spec(s)[0]),
        trim_start_spec(s).len() > 0 ==> trim_start_spec(s).last() == s.last(),
    decreases s.len(),
{
    if s.len() > 0 && is_space(s[0]) {
        lemma_trim_start_edges(s.drop_first());
    }
}

proof fn lemma_trim_end_edges(s: Seq<char>)
    ensures
        trim_end_spec(s).len() > 0 ==> !is_space(trim_end_spec(s).last()),
        trim_end_spec(s).len() > 0 ==> trim_end_spec(s)[0] == s[0],
    decreases s.len(),
{
    if s.len() > 0 && is_space(s.last()) {
        lemma_trim_end_edges(s.drop_last());
    }
}

/// What trimming leaves behind never starts or ends with white space.
pub proof fn lemma_trim_spec_edges(s: Seq<char>)
    ensures
        space_free_edges(trim_spec(s)),
{
    let t = trim_start_spec(s);
    lemma_trim_start_edges(s);
    lemma_trim_end_edges(t);
    let u = trim_end_spec(t);
    if u.len() > 0 {
        assert(u[0] == t[0]);
    }
}

/// A sequence without white space at either edge trims to itself.
pub proof fn lemma_trim_fixed_point(s: Seq<char>)
    requires
        space_free_edges(s),
    ensures
        trim_spec(s) == s,
{
    assert(trim_start_spec(s) == s);
    assert(trim_end_spec(s) == s);
}

/// Trimming twice is the same as trimming once.
pub proof fn lemma_trim_idempotent(s: Seq<char>)
    ensures
        trim_spec(trim_spec(s)) == trim_spec(s),
{
    lemma_trim_spec_edges(s);
    lemma_trim_fixed_point(trim_spec(s));
}

/// The views of an optional piece of text, for contracts over `Option<String>`.
pub open spec fn opt_text(o: Option<String>) -> Option<Seq<char>> {
    match o {
        Some(s) => Some(s@),
        None => None,
    }
}

/// Character-for-character equality of two pieces of text.
pub fn str_eq(a: &str, b: &str) -> (r: bool)
    ensures
        r == (a@ == b@),
{
    let n = a.unicode_len();
    let m = b.unicode_len();
    if n != m {
        proof {
            if a@ == b@ {
                assert(a@.len() == b@.len());
            }
        }
        return false;
    }
    let mut i: usize = 0;
    while i < n
        invariant
            n == a@.len(),
            n == b@.len(),
            i <= n,
            forall|k: int| 0 <= k < i ==> a@[k] == b@[k],
        decreases n - i,
    {
        if a.get_char(i) != b.get_char(i) {
            return false;
        }
        i = i + 1;
    }
    proof {
        assert(a@ =~= b@);
    }
    true
}

/// The concatenation of two pieces of text.
pub fn concat2(a: &str, b: &str) -> (r: String)
    ensures
        r@ == a@ + b@,
{
    let s = String::from_str(a);
    s.concat(b)
}

/// The concatenation of three pieces of text.
pub fn concat3(a: &str, b: &str, c: &str) -> (r: String)
    ensures
        r@ == a@ + b@ + c@,
{
    let s = String::from_str(a);
    s.concat(b).concat(c)
}

/// True when `needle` occurs in `hay` starting at position `i`.
pub open spec fn match_at(hay: Seq<char>, needle: Seq<char>, i: int) -> bool {
    &&& 0 <= i
    &&& i + needle.len() <= hay.len()
    &&& hay.subrange(i, i + needle.len()) == needle
}

/// The position of the first occurrence of `needle` at or after `i`, if any.
pub open spec fn first_match_from(hay: Seq<char>, needle: Seq<char>, i: int) -> Option<int>
    decreases hay.len() + 1 - i,
{
    if i < 0 || i + needle.len() > hay.len() {
        None
    } else if match_at(hay, needle, i) {
        Some(i)
    } else {
        first_match_from(hay, needle, i + 1)
    }
}

/// The position of the first occurrence of `needle` in `hay`, if any.
pub open spec fn first_match(hay: Seq<char>, needle: Seq<char>) -> Option<int> {
    first_match_from(hay, needle, 0)
}

/// `hay` with the range `[i, i + n)` replaced by `repl`.
pub open spec fn splice(hay: Seq<char>, i: int, n: int, repl: Seq<char>) -> Seq<char> {
    hay.subrange(0, i) + repl + hay.subrange(i + n, hay.len() as int)
}

proof fn lemma_first_match_found(hay: Seq<char>, needle: Seq<char>, i: int, r: int)
    requires
        first_match_from(hay, needle, i) == Some(r),
    ensures
        match_at(hay, needle, r),
        i <= r,
    decreases hay.len() + 1 - i,
{
    if !(i < 0 || i + needle.len() > hay.len()) && !match_at(hay, needle, i) {
        lemma_first_match_found(hay, needle, i + 1, r);
    }
}

/// Finds the first occurrence of `needle` in `hay`, scanning left to right.
pub fn find_first(hay: &str, needle: &str) -> (r: Option<usize>)
    ensures
        match r {
            Some(i) => first_match(hay@, needle@) == Some(i as int),
            None => first_match(hay@, needle@) is None,
        },
{
    let hn = hay.unicode_len();
    let nn = needle.unicode_len();
    if nn > hn {
        return None;
    }
    let mut i: usize = 0;
    loop
        invariant
            hn == hay@.len(),
            nn == needle@.len(),
            nn <= hn,
            i <= hn - nn + 1,
            first_match(hay@, needle@) == first_match_from(hay@, needle@, i as int),
        decreases hn - i,
    {
        if i > hn - nn {
            return None;
        }
        let mut j: usize = 0;
        let mut matched = true;
        proof {
            assert(hay@.subrange(i as int, i as int) =~= needle@.subrange(0, 0));
        }
        while j < nn
            invariant
                hn == hay@.len(),
                nn == needle@.len(),
                i + nn <= hn,
                j <= nn,
                matched <==> hay@.subrange(i as int, i + j) == needle@.subrange(0, j as int),
            decreases nn - j,
        {
            let hc = hay.get_char(i + j);
            let nc = needle.get_char(j);
            proof {
                let hpre = hay@.subrange(i as int, i + j);
                let npre = needle@.subrange(0, j as int);
                let hext = hay@.subrange(i as int, i + j + 1);
                let next = needle@.subrange(0, j + 1);
                assert(hext =~= hpre + seq![hay@[i + j]]);
                assert(next =~= npre + seq![needle@[j as int]]);
                if matched && hc == nc {
                    assert(hext =~= next);
                }
                if hext == next {
                    assert(hpre =~= hext.subrange(0, j as int));
                    assert(npre =~= next.subrange(0, j as int));
                    assert(hay@[i + j] == hext[j as int] && needle@[j as int] == next[j as int]);
                }
            }
            if hc != nc {
                matched = false;
            }
            j = j + 1;
        }
        if matched {
            proof {
                assert(needle@.subrange(0, nn as int) =~= needle@);
                assert(match_at(hay@, needle@, i as int));
            }
            return Some(i);
        }
        proof {
            assert(needle@.subrange(0, nn as int) =~= needle@);
            assert(!match_at(hay@, needle@, i as int));
            assert(nn > 0) by {
                if nn == 0 {
                    assert(hay@.subrange(i as int, i as int) =~= needle@.subrange(0, 0));
                }
            }
            assert(first_match_from(hay@, needle@, i as int) == first_match_from(
                hay@,
                needle@,
                i as int + 1,
            ));
        }
        i = i + 1;
    }
}

/// `hay` with the first occurrence of `needle` replaced by `repl`; `None`
/// when `needle` does not occur.
pub fn replace_first(hay: &str, needle: &str, repl: &str) -> (r: Option<String>)
    ensures
        match r {
            Some(out) => {
                &&& first_match(hay@, needle@) is Some
                &&& out@ == splice(
                    hay@,
                    first_match(hay@, needle@)->Some_0,
                    needle@.len() as int,
                    repl@,
                )
            },
            None => first_match(hay@, needle@) is None,
        },
{
    match find_first(hay, needle) {
        None => None,
        Some(i) => {
            proof {
                lemma_first_match_found(hay@, needle@, 0, i as int);
            }
            let nn = needle.unicode_len();
            let hn = hay.unicode_len();
            let prefix = hay.substring_char(0, i);
            let suffix = hay.substring_char(i + nn, hn);
            let out = String::from_str(prefix).concat(repl).concat(suffix);
            Some(out)
        },
    }
}

} // verus!
