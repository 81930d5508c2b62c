//! Verified character-level string utilities.
//!
//! Queries, keywords and titles are compared character by character, so the
//! trimming, prefix, substring and first-occurrence operations used by the
//! trigger and ranking logic are implemented here against `Seq<char>` specs.
use vstd::prelude::*;

verus! {

/// The characters with the Unicode `White_Space` property: the set that
/// Rust's `str::trim` family strips.
pub open spec fn is_space(c: char) -> bool {
    ||| c == ' '
    ||| c == '\t'
    ||| c == '\n'
    ||| c == '\r'
    ||| c == '\u{0b}'
    ||| c == '\u{0c}'
    ||| c == '\u{85}'
    ||| c == '\u{a0}'
    ||| c == '\u{1680}'
    ||| c == '\u{2000}'
    ||| c == '\u{2001}'
    ||| c == '\u{2002}'
    ||| c == '\u{2003}'
    ||| c == '\u{2004}'
    ||| c == '\u{2005}'
    ||| c == '\u{2006}'
    ||| c == '\u{2007}'
    ||| c == '\u{2008}'
    ||| c == '\u{2009}'
    ||| c == '\u{200a}'
    ||| c == '\u{2028}'
    ||| c == '\u{2029}'
    ||| c == '\u{202f}'
    ||| c == '\u{205f}'
    ||| c == '\u{3000}'
}

pub fn is_space_char(c: char) -> (r: bool)
    ensures
        r == is_space(c),
{
    c == ' ' || c == '\t' || c == '\n' || c == '\r' || c == '\u{0b}' || c == '\u{0c}'
        || c == '\u{85}' || c == '\u{a0}' || c == '\u{1680}' || c == '\u{2000}' || c == '\u{2001}'
        || c == '\u{2002}' || c == '\u{2003}' || c == '\u{2004}' || c == '\u{2005}'
        || c == '\u{2006}' || c == '\u{2007}' || c == '\u{2008}' || c == '\u{2009}'
        || c == '\u{200a}' || c == '\u{2028}' || c == '\u{2029}' || c == '\u{202f}'
        || c == '\u{205f}' || c == '\u{3000}'
}

/// Number of whitespace characters at the front of `s`.
pub open spec fn leading_spaces(s: Seq<char>) -> int
    decreases s.len(),
{
    if s.len() == 0 {
        0
    } else if !is_space(s[0]) {
        0
    } else {
        1 + leading_spaces(s.drop_first())
    }
}

/// Number of whitespace characters at the back of `s`.
pub open spec fn trailing_spaces(s: Seq<char>) -> int
    decreases s.len(),
{
    if s.len() == 0 {
        0
    } else if !is_space(s.last()) {
        0
    } else {
        1 + trailing_spaces(s.drop_last())
    }
}

pub open spec fn trim_start_spec(s: Seq<char>) -> Seq<char> {
    s.skip(leading_spaces(s))
}

pub open spec fn trim_end_spec(s: Seq<char>) -> Seq<char> {
    s.take(s.len() - trailing_spaces(s))
}

/// What `str::trim` leaves: the text with leading and trailing whitespace
/// removed.
pub open spec fn trim_spec(s: Seq<char>) -> Seq<char> {
    trim_end_spec(trim_start_spec(s))
}

pub proof fn lemma_leading_spaces(s: Seq<char>)
    ensures
        0 <= leading_spaces(s) <= s.len(),
        forall|j: int| 0 <= j < leading_spaces(s) ==> is_space(s[j]),
        leading_spaces(s) < s.len() ==> !is_space(s[leading_spaces(s)]),
    decreases s.len(),
{
    if s.len() != 0 && is_space(s[0]) {
        lemma_leading_spaces(s.drop_first());
        assert forall|j: int| 0 <= j < leading_spaces(s) implies is_space(s[j]) by {
            if j > 0 {
                assert(is_space(s.drop_first()[j - 1]));
            }
        }
    }
}

pub proof fn lemma_trailing_spaces(s: Seq<char>)
    ensures
        0 <= trailing_spaces(s) <= s.len(),
        forall|j: int| s.len() - trailing_spaces(s) <= j < s.len() ==> is_space(s[j]),
        trailing_spaces(s) < s.len() ==> !is_space(s[s.len() - trailing_spaces(s) - 1]),
    decreases s.len(),
{
    if s.len() != 0 && is_space(s.last()) {
        lemma_trailing_spaces(s.drop_last());
        assert forall|j: int| s.len() - trailing_spaces(s) <= j < s.len() implies is_space(
            s[j],
        ) by {
            if j < s.len() - 1 {
                assert(is_space(s.drop_last()[j]));
            }
        }
    }
}

/// `str::trim_start`: drop the leading whitespace.
pub fn trim_start_str<'a>(s: &'a str) -> (r: &'a str)
    ensures
        r@ == trim_start_spec(s@),
{
    let n = s.unicode_len();
    let mut i: usize = 0;
    while i < n && is_space_char(s.get_char(i))
        invariant
            0 <= i <= n,
            n == s@.len(),
            forall|j: int| 0 <= j < i ==> is_space(s@[j]),
        decreases n - i,
    {
        i = i + 1;
    }
    proof {
        lemma_leading_spaces(s@);
        assert(leading_spaces(s@) == i as int) by {
            if leading_spaces(s@) < i as int {
                assert(is_space(s@[leading_spaces(s@)]));
            }
        }
        assert(s@.subrange(i as int, n as int) =~= trim_start_spec(s@));
    }
    s.substring_char(i, n)
}

/// `str::trim_end`: drop the trailing whitespace.
pub fn trim_end_str<'a>(s: &'a str) -> (r: &'a str)
    ensures
        r@ == trim_end_spec(s@),
{
    let n = s.unicode_len();
    let mut i: usize = n;
    while i > 0 && is_space_char(s.get_char(i - 1))
        invariant
            0 <= i <= n,
            n == s@.len(),
            forall|j: int| i <= j < n ==> is_space(s@[j]),
        decreases i,
    {
        i = i - 1;
    }
    proof {
        lemma_trailing_spaces(s@);
        assert(trailing_spaces(s@) == n - i) by {
            if trailing_spaces(s@) < n - i {
                assert(is_space(s@[s@.len() - trailing_spaces(s@) - 1]));
            }
        }
        assert(s@.subrange(0, i as int) =~= trim_end_spec(s@));
    }
    s.substring_char(0, i)
}

/// `str::trim`: drop whitespace on both ends.
pub fn trim_str<'a>(s: &'a str) -> (r: &'a str)
    ensures
        r@ == trim_spec(s@),
{
    let a = trim_start_str(s);
    trim_end_str(a)
}

/// `str::starts_with`: is `prefix` a literal prefix of `s`?
pub fn starts_with_str(s: &str, prefix: &str) -> (r: bool)
    ensures
        r == prefix@.is_prefix_of(s@),
{
    let n = s.unicode_len();
    let m = prefix.unicode_len();
    if m > n {
        return false;
    }
    let mut i: usize = 0;
    while i < m
        invariant
            0 <= i <= m <= n,
            n == s@.len(),
            m == prefix@.len(),
            forall|j: int| 0 <= j < i ==> s@[j] == prefix@[j],
        decreases m - i,
    {
        if s.get_char(i) != prefix.get_char(i) {
            proof {
                assert(s@.subrange(0, m as int)[i as int] != prefix@[i as int]);
            }
            return false;
        }
        i = i + 1;
    }
    proof {
        assert(prefix@ =~= s@.subrange(0, m as int));
    }
    true
}

/// Does `needle` occur as a contiguous run of characters inside `s`?
pub open spec fn has_substring(s: Seq<char>, needle: Seq<char>) -> bool {
    exists|k: int|
        0 <= k <= s.len() - needle.len() && needle == #[trigger] s.subrange(
            k,
            k + needle.len() as int,
        )
}

fn match_at(s: &str, needle: &str, k: usize, n: usize, m: usize) -> (r: bool)
    requires
        n == s@.len(),
        m == needle@.len(),
        k + m <= n,
    ensures
        r == (needle@ == s@.subrange(k as int, k as int + m as int)),
{
    let mut i: usize = 0;
    while i < m
        invariant
            0 <= i <= m,
            n == s@.len(),
            m == needle@.len(),
            k + m <= n,
            forall|j: int| 0 <= j < i ==> s@[k + j] == needle@[j],
        decreases m - i,
    {
        if s.get_char(k + i) != needle.get_char(i) {
            proof {
                assert(s@.subrange(k as int, k as int + m as int)[i as int] != needle@[i as int]);
            }
            return false;
        }
        i = i + 1;
    }
    proof {
        assert(needle@ =~= s@.subrange(k as int, k as int + m as int));
    }
    true
}

/// `str::contains`: substring search.
pub fn contains_str(s: &str, needle: &str) -> (r: bool)
    ensures
        r == has_substring(s@, needle@),
{
    let n = s.unicode_len();
    let m = needle.unicode_len();
    if m > n {
        return false;
    }
    if m == 0 {
        proof {
            assert(needle@ =~= s@.subrange(0, 0 + needle@.len() as int));
        }
        return true;
    }
    let mut k: usize = 0;
    while k <= n - m
        invariant
            0 <= k <= n - m + 1,
            1 <= m <= n,
            n == s@.len(),
            m == needle@.len(),
            forall|k2: int|
                0 <= k2 < k ==> needle@ != #[trigger] s@.subrange(k2, k2 + needle@.len() as int),
        decreases n - m + 1 - k,
    {
        if match_at(s, needle, k, n, m) {
            return true;
        }
        k = k + 1;
    }
    false
}

/// Character-wise string equality.
pub fn str_eq(a: &str, b: &str) -> (r: bool)
    ensures
        r == (a@ == b@),
{
    let n = a.unicode_len();
    let m = b.unicode_len();
    if n != m {
        return false;
    }
    let mut i: usize = 0;
    while i < n
        invariant
            0 <= i <= n,
            n == a@.len(),
            n == b@.len(),
            forall|j: int| 0 <= j < i ==> a@[j] == b@[j],
        decreases n - i,
    {
        if a.get_char(i) != b.get_char(i) {
            return false;
        }
        i = i + 1;
    }
    proof {
        assert(a@ =~= b@);
    }
    true
}

/// Index of the first occurrence of `c` in `s`, or -1 when absent.
pub open spec fn first_idx(s: Seq<char>, c: char) -> int
    decreases s.len(),
{
    if s.len() == 0 {
        -1
    } else if s[0] == c {
        0
    } else {
        let r = first_idx(s.drop_first(), c);
        if r < 0 {
            -1
        } else {
            1 + r
        }
    }
}

pub proof fn lemma_first_idx(s: Seq<char>, c: char)
    ensures
        first_idx(s, c) >= 0 ==> 0 <= first_idx(s, c) < s.len() && s[first_idx(s, c)] == c
            && (forall|j: int| 0 <= j < first_idx(s, c) ==> s[j] != c),
        first_idx(s, c) < 0 ==> forall|j: int| 0 <= j < s.len() ==> s[j] != c,
    decreases s.len(),
{
    if s.len() != 0 && s[0] != c {
        lemma_first_idx(s.drop_first(), c);
        if first_idx(s, c) >= 0 {
            assert forall|j: int| 0 <= j < first_idx(s, c) implies s[j] != c by {
                if j > 0 {
                    assert(s.drop_first()[j - 1] != c);
                }
            }
        } else {
            assert forall|j: int| 0 <= j < s.len() implies s[j] != c by {
                if j > 0 {
                    assert(s.drop_first()[j - 1] != c);
                }
            }
        }
    }
}

/// First occurrence of `c` in `s`, as `first_idx` describes it.
pub fn find_char(s: &str, c: char) -> (r: Option<usize>)
    ensures
        match r {
            Some(i) => i as int == first_idx(s@, c),
            None => first_idx(s@, c) < 0,
        },
{
    let n = s.unicode_len();
    let mut i: usize = 0;
    while i < n
        invariant
            0 <= i <= n,
            n == s@.len(),
            forall|j: int| 0 <= j < i ==> s@[j] != c,
        decreases n - i,
    {
        if s.get_char(i) == c {
            proof {
                lemma_first_idx(s@, c);
                assert(first_idx(s@, c) == i as int) by {
                    if first_idx(s@, c) >= 0 && first_idx(s@, c) < i as int {
                        assert(s@[first_idx(s@, c)] != c);
                    }
                }
            }
            return Some(i);
        }
        i = i + 1;
    }
    proof {
        lemma_first_idx(s@, c);
    }
    None
}

} // verus!
