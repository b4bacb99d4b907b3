//! Plain-text searching used by the message builders and response readers:
//! first occurrence of a pattern, text between two tags, ASCII
//! case-insensitive comparison, UTF-8 byte length, and trailing-separator
//! trimming.

use vstd::prelude::*;

verus! {

/// The position of the first occurrence of the character `c` in `s` at or
/// after `i`, or `-1` when there is none.
pub open spec fn find_char_from(s: Seq<char>, c: char, i: int) -> int
    decreases s.len() - i,
{
    if i < 0 || i >= s.len() {
        -1
    } else if s[i] == c {
        i
    } else {
        find_char_from(s, c, i + 1)
    }
}

/// `p` occurs in `s` starting exactly at position `i`.
pub open spec fn is_match_at(s: Seq<char>, p: Seq<char>, i: int) -> bool {
    &&& 0 <= i
    &&& i + p.len() <= s.len()
    &&& s.subrange(i, i + p.len()) == p
}

/// The position of the first occurrence of `p` in `s` at or after `i`, or
/// `-1` when there is none.
pub open spec fn find_seq_from(s: Seq<char>, p: Seq<char>, i: int) -> int
    decreases s.len() - i,
{
    if i < 0 || i + p.len() > s.len() {
        -1
    } else if p.len() == 0 {
        i
    } else if is_match_at(s, p, i) {
        i
    } else {
        find_seq_from(s, p, i + 1)
    }
}

/// `p` occurs somewhere in `s`.
pub open spec fn contains_seq(s: Seq<char>, p: Seq<char>) -> bool {
    find_seq_from(s, p, 0) >= 0
}

/// Case-insensitive equality of two characters, over the ASCII letters only:
/// equal outright, or the same letter in the other case.
pub open spec fn chars_ieq(a: char, b: char) -> bool {
    ||| a == b
    ||| (65 <= a as int <= 90 && b as int == a as int + 32)
    ||| (65 <= b as int <= 90 && a as int == b as int + 32)
}

/// `p` occurs in `s` at position `i` up to ASCII letter case.
pub open spec fn is_imatch_at(s: Seq<char>, p: Seq<char>, i: int) -> bool {
    &&& 0 <= i
    &&& i + p.len() <= s.len()
    &&& forall|j: int| 0 <= j < p.len() ==> chars_ieq(s[i + j], p[j])
}

/// The two texts are equal up to ASCII letter case.
pub open spec fn seq_ieq(a: Seq<char>, b: Seq<char>) -> bool {
    a.len() == b.len() && (forall|j: int| 0 <= j < a.len() ==> chars_ieq(a[j], b[j]))
}

/// `s` without its trailing `/` characters.
pub open spec fn trim_trailing_slashes(s: Seq<char>) -> Seq<char>
    decreases s.len(),
{
    if s.len() > 0 && s[s.len() - 1] == '/' {
        trim_trailing_slashes(s.drop_last())
    } else {
        s
    }
}

/// Position of the first `c` in `s` at or after `from`.
pub fn find_char(s: &str, c: char, from: usize) -> (r: Option<usize>)
    requires
        from <= s@.len(),
    ensures
        match r {
            Some(i) => i == find_char_from(s@, c, from as int) && from <= i < s@.len()
                && s@[i as int] == c,
            None => find_char_from(s@, c, from as int) == -1,
        },
{
    let n = s.unicode_len();
    let mut i: usize = from;
    while i < n
        invariant
            from <= i <= n,
            n == s@.len(),
            find_char_from(s@, c, from as int) == find_char_from(s@, c, i as int),
        decreases n - i,
    {
        if s.get_char(i) == c {
            return Some(i);
        }
        i = i + 1;
    }
    None
}

/// Whether `p` occurs in `s` exactly at `i`.
fn match_at(s: &str, p: &str, i: usize) -> (r: bool)
    requires
        i + p@.len() <= s@.len(),
        s@.len() <= usize::MAX,
    ensures
        r == is_match_at(s@, p@, i as int),
{
    let m = p.unicode_len();
    let mut j: usize = 0;
    while j < m
        invariant
            j <= m,
            m == p@.len(),
            i + m <= s@.len(),
            s@.len() <= usize::MAX,
            forall|k: int| 0 <= k < j ==> s@[i + k] == p@[k],
        decreases m - j,
    {
        if s.get_char(i + j) != p.get_char(j) {
            proof {
                assert(s@.subrange(i as int, i + m) != p@) by {
                    assert(s@.subrange(i as int, i + m)[j as int] == s@[i + j]);
                }
            }
            return false;
        }
        j = j + 1;
    }
    proof {
        assert(s@.subrange(i as int, i + m) =~= p@);
    }
    true
}

/// The position of the first occurrence of `p` in `s` at or after `from`.
pub fn find_from(s: &str, p: &str, from: usize) -> (r: Option<usize>)
    requires
        from <= s@.len(),
    ensures
        (match r {
            Some(i) => i as int,
            None => -1,
        }) == find_seq_from(s@, p@, from as int),
        r is Some ==> from <= r->0 && r->0 + p@.len() <= s@.len(),
{
    let n = s.unicode_len();
    let m = p.unicode_len();
    if m == 0 {
        return Some(from);
    }
    if m > n || from > n - m {
        return None;
    }
    let mut i: usize = from;
    while i <= n - m
        invariant
            from <= i,
            i <= n - m + 1,
            1 <= m <= n,
            n == s@.len(),
            m == p@.len(),
            find_seq_from(s@, p@, from as int) == find_seq_from(s@, p@, i as int),
        decreases n - i,
    {
        if match_at(s, p, i) {
            return Some(i);
        }
        i = i + 1;
    }
    None
}

/// Whether `p` occurs anywhere in `s`.
pub fn contains_sub(s: &str, p: &str) -> (r: bool)
    ensures
        r == contains_seq(s@, p@),
{
    match find_from(s, p, 0) {
        Some(_) => true,
        None => false,
    }
}

/// Whether `p` occurs in `s` exactly at `i`, up to ASCII letter case.
fn imatch_at(s: &str, p: &str, i: usize) -> (r: bool)
    requires
        i + p@.len() <= s@.len(),
        s@.len() <= usize::MAX,
    ensures
        r == is_imatch_at(s@, p@, i as int),
{
    let m = p.unicode_len();
    let mut j: usize = 0;
    while j < m
        invariant
            j <= m,
            m == p@.len(),
            i + m <= s@.len(),
            s@.len() <= usize::MAX,
            forall|k: int| 0 <= k < j ==> chars_ieq(s@[i + k], p@[k]),
        decreases m - j,
    {
        let a = s.get_char(i + j);
        let b = p.get_char(j);
        let same = if a == b {
            true
        } else {
            let x = a as u32;
            let y = b as u32;
            (65 <= x && x <= 90 && y == x + 32) || (65 <= y && y <= 90 && x == y + 32)
        };
        if !same {
            return false;
        }
        j = j + 1;
    }
    true
}

/// Whether `a` and `b` are equal up to ASCII letter case.
pub fn eq_ignore_ascii(a: &str, b: &str) -> (r: bool)
    ensures
        r == seq_ieq(a@, b@),
{
    let n = a.unicode_len();
    let m = b.unicode_len();
    if n != m {
        return false;
    }
    if imatch_at(a, b, 0) {
        true
    } else {
        false
    }
}

/// The text between the first `open` and the following `close`, as the
/// remote services bracket their fields: everything after the first `open`,
/// cut at the next `open` (or the end), then cut at the first `close` within
/// that stretch. When `open` does not occur at all, `dflt` comes back.
pub open spec fn between_or_spec(
    s: Seq<char>,
    open: Seq<char>,
    close: Seq<char>,
    dflt: Seq<char>,
) -> Seq<char> {
    let i = find_seq_from(s, open, 0);
    if i < 0 {
        dflt
    } else {
        let start = i + open.len();
        let j = find_seq_from(s, open, start);
        let lim = if j < 0 {
            s.len() as int
        } else {
            j
        };
        let seg = s.subrange(start, lim);
        let k = find_seq_from(seg, close, 0);
        if k < 0 {
            seg
        } else {
            seg.subrange(0, k)
        }
    }
}

/// The text between the first `open` and the following `close`, or `dflt`
/// when `open` never occurs.
pub fn between_or(s: &str, open: &str, close: &str, dflt: &str) -> (r: String)
    ensures
        r@ == between_or_spec(s@, open@, close@, dflt@),
{
    match find_from(s, open, 0) {
        None => dflt.to_owned(),
        Some(i) => {
            let n = s.unicode_len();
            let start = i + open.unicode_len();
            let lim = match find_from(s, open, start) {
                None => n,
                Some(j) => j,
            };
            let seg = s.substring_char(start, lim);
            let k = match find_from(seg, close, 0) {
                None => seg.unicode_len(),
                Some(kk) => kk,
            };
            proof {
                if find_seq_from(seg@, close@, 0) < 0 {
                    assert(seg@.subrange(0, seg@.len() as int) =~= seg@);
                }
            }
            seg.substring_char(0, k).to_owned()
        },
    }
}

/// How many bytes the character takes in UTF-8.
pub open spec fn char_utf8_len(c: char) -> int {
    if (c as int) < 0x80 {
        1
    } else if (c as int) < 0x800 {
        2
    } else if (c as int) < 0x10000 {
        3
    } else {
        4
    }
}

/// The UTF-8 byte length of the text from position `i` on.
pub open spec fn utf8_len_from(s: Seq<char>, i: int) -> int
    decreases s.len() - i,
{
    if i < 0 || i >= s.len() {
        0
    } else {
        char_utf8_len(s[i]) + utf8_len_from(s, i + 1)
    }
}

/// The UTF-8 byte length of the text: the number `str::len` reports for it.
pub open spec fn utf8_len(s: Seq<char>) -> int {
    utf8_len_from(s, 0)
}

/// The byte length of any tail is non-negative.
proof fn lemma_utf8_len_from_nonneg(s: Seq<char>, i: int)
    ensures
        utf8_len_from(s, i) >= 0,
    decreases s.len() - i,
{
    if 0 <= i < s.len() {
        lemma_utf8_len_from_nonneg(s, i + 1);
    }
}

/// Whether the text takes at least `k` bytes in UTF-8.
pub fn utf8_len_at_least(s: &str, k: usize) -> (r: bool)
    requires
        k <= usize::MAX - 4,
    ensures
        r == (utf8_len(s@) >= k),
{
    if k == 0 {
        proof {
            lemma_utf8_len_from_nonneg(s@, 0);
        }
        return true;
    }
    let n = s.unicode_len();
    let mut i: usize = 0;
    let mut acc: usize = 0;
    while i < n
        invariant
            i <= n,
            n == s@.len(),
            k <= usize::MAX - 4,
            acc < k,
            utf8_len(s@) == acc + utf8_len_from(s@, i as int),
        decreases n - i,
    {
        let c = s.get_char(i);
        let x = c as u32;
        let width: usize = if x < 0x80 {
            1
        } else if x < 0x800 {
            2
        } else if x < 0x10000 {
            3
        } else {
            4
        };
        acc = acc + width;
        i = i + 1;
        if acc >= k {
            proof {
                lemma_utf8_len_from_nonneg(s@, i as int);
            }
            return true;
        }
    }
    false
}

/// `s` without its trailing `/` characters.
pub fn trim_end_slashes(s: &str) -> (r: String)
    ensures
        r@ == trim_trailing_slashes(s@),
{
    let n = s.unicode_len();
    let mut end = n;
    let mut done = false;
    proof {
        assert(s@.subrange(0, n as int) =~= s@);
    }
    while !done
        invariant
            end <= n,
            n == s@.len(),
            trim_trailing_slashes(s@) == trim_trailing_slashes(s@.subrange(0, end as int)),
            done ==> end == 0 || s@[end - 1] != '/',
        decreases end + (if done {
            0int
        } else {
            1int
        }),
    {
        if end == 0 {
            done = true;
        } else if s.get_char(end - 1) != '/' {
            done = true;
        } else {
            proof {
                assert(s@.subrange(0, end as int).drop_last() =~= s@.subrange(0, end - 1));
            }
            end = end - 1;
        }
    }
    s.substring_char(0, end).to_owned()
}

} // verus!
