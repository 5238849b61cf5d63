//! Character-level text helpers used by request validation and title
//! derivation: whitespace trimming, bounded prefixes, and substring search.
//! Whitespace here means the ASCII space, tab, line feed, and carriage
//! return characters.

use vstd::prelude::*;
use vstd::string::*;

verus! {

use crate::TITLE_MAX_CHARS;

/// Characters treated as whitespace when trimming an utterance.
pub open spec fn is_space(c: char) -> bool {
    c == ' ' || c == '\t' || c == '\n' || c == '\r'
}

/// `s` with its leading whitespace removed.
pub open spec fn ltrim(s: Seq<char>) -> Seq<char>
    decreases s.len(),
{
    if s.len() > 0 && is_space(s[0]) {
        ltrim(s.drop_first())
    } else {
        s
    }
}

/// `s` with its trailing whitespace removed.
pub open spec fn rtrim(s: Seq<char>) -> Seq<char>
    decreases s.len(),
{
    if s.len() > 0 && is_space(s[s.len() - 1]) {
        rtrim(s.drop_last())
    } else {
        s
    }
}

/// `s` with leading and trailing whitespace removed.
pub open spec fn trimmed(s: Seq<char>) -> Seq<char> {
    rtrim(ltrim(s))
}

/// If everything before index `i` is whitespace and `i` is either the end
/// of `s` or a non-whitespace position, the left trim of `s` starts at `i`.
proof fn lemma_ltrim_at(s: Seq<char>, i: int)
    requires
        0 <= i <= s.len(),
        forall|k: int| 0 <= k < i ==> is_space(s[k]),
        i == s.len() || !is_space(s[i]),
    ensures
        ltrim(s) == s.subrange(i, s.len() as int),
    decreases i,
{
    if i == 0 {
        assert(s.subrange(0, s.len() as int) =~= s);
    } else {
        assert(is_space(s[0]));
        let t = s.drop_first();
        assert(t =~= s.subrange(1, s.len() as int));
        lemma_ltrim_at(t, i - 1);
        assert(t.subrange(i - 1, t.len() as int) =~= s.subrange(i, s.len() as int));
    }
}

/// If everything from index `j` on is whitespace and `j` is either the
/// start of `s` or follows a non-whitespace position, the right trim of
/// `s` ends at `j`.
proof fn lemma_rtrim_at(s: Seq<char>, j: int)
    requires
        0 <= j <= s.len(),
        forall|k: int| j <= k < s.len() ==> is_space(s[k]),
        j == 0 || !is_space(s[j - 1]),
    ensures
        rtrim(s) == s.subrange(0, j),
    decreases s.len(),
{
    if j == s.len() {
        if s.len() > 0 {
            assert(!is_space(s[s.len() - 1]));
        }
        assert(s.subrange(0, s.len() as int) =~= s);
    } else {
        assert(is_space(s[s.len() - 1]));
        let t = s.drop_last();
        assert(t =~= s.subrange(0, s.len() - 1));
        lemma_rtrim_at(t, j);
        assert(t.subrange(0, j) =~= s.subrange(0, j));
    }
}

/// Whether `c` is whitespace, as executable code.
pub fn is_space_char(c: char) -> (b: bool)
    ensures
        b == is_space(c),
{
    c == ' ' || c == '\t' || c == '\n' || c == '\r'
}

/// A copy of `s` with leading and trailing whitespace removed.
pub fn trim_str(s: &str) -> (r: String)
    ensures
        r@ == trimmed(s@),
{
    let n = s.unicode_len();
    let mut lo: usize = 0;
    while lo < n && is_space_char(s.get_char(lo))
        invariant
            0 <= lo <= n,
            n == s@.len(),
            forall|k: int| 0 <= k < lo ==> is_space(s@[k]),
        decreases n - lo,
    {
        lo = lo + 1;
    }
    let mut hi: usize = n;
    while hi > lo && is_space_char(s.get_char(hi - 1))
        invariant
            lo <= hi <= n,
            n == s@.len(),
            forall|k: int| 0 <= k < lo ==> is_space(s@[k]),
            lo == n || !is_space(s@[lo as int]),
            forall|k: int| hi <= k < n ==> is_space(s@[k]),
        decreases hi,
    {
        hi = hi - 1;
    }
    let out = s.substring_char(lo, hi).to_owned();
    proof {
        lemma_ltrim_at(s@, lo as int);
        let t = s@.subrange(lo as int, n as int);
        if hi == lo {
            lemma_rtrim_at(t, 0);
        } else {
            assert(!is_space(t[hi - lo - 1]));
            lemma_rtrim_at(t, hi - lo);
        }
        assert(t.subrange(0, hi - lo) =~= s@.subrange(lo as int, hi as int));
    }
    out
}

/// The number of characters in `s`.
pub fn char_count(s: &str) -> (n: usize)
    ensures
        n == s@.len(),
{
    s.unicode_len()
}

/// `needle` occurs in `haystack` starting at character position `i`.
pub open spec fn contains_at(haystack: Seq<char>, needle: Seq<char>, i: int) -> bool {
    &&& 0 <= i
    &&& i + needle.len() <= haystack.len()
    &&& haystack.subrange(i, i + needle.len()) == needle
}

/// `needle` occurs somewhere in `haystack`.
pub open spec fn contains_seq(haystack: Seq<char>, needle: Seq<char>) -> bool {
    exists|i: int| contains_at(haystack, needle, i)
}

/// Whether `needle` occurs in `haystack`, comparing character by character.
pub fn contains_str(haystack: &str, needle: &str) -> (b: bool)
    ensures
        b == contains_seq(haystack@, needle@),
{
    let hn = haystack.unicode_len();
    let nn = needle.unicode_len();
    if nn > hn {
        assert(forall|i: int| !contains_at(haystack@, needle@, i));
        return false;
    }
    if nn == 0 {
        proof {
            assert(haystack@.subrange(0, 0) =~= needle@);
            assert(contains_at(haystack@, needle@, 0));
        }
        return true;
    }
    let mut i: usize = 0;
    while i <= hn - nn
        invariant
            1 <= nn <= hn,
            hn == haystack@.len(),
            nn == needle@.len(),
            0 <= i <= hn - nn + 1,
            forall|p: int| 0 <= p < i ==> !contains_at(haystack@, needle@, p),
        decreases hn - nn - i + 1,
    {
        let mut j: usize = 0;
        let mut matches_here = true;
        while j < nn
            invariant
                1 <= nn <= hn,
                hn == haystack@.len(),
                nn == needle@.len(),
                0 <= i <= hn - nn,
                0 <= j <= nn,
                matches_here ==> forall|q: int| 0 <= q < j ==> haystack@[i + q] == needle@[q],
                !matches_here ==> !contains_at(haystack@, needle@, i as int),
            decreases nn - j,
        {
            if haystack.get_char(i + j) != needle.get_char(j) {
                proof {
                    if contains_at(haystack@, needle@, i as int) {
                        assert(haystack@.subrange(i as int, i + nn)[j as int] == needle@[
                            j as int
                        ]);
                    }
                }
                matches_here = false;
            }
            j = j + 1;
        }
        if matches_here {
            proof {
                assert(haystack@.subrange(i as int, i + nn) =~= needle@);
                assert(contains_at(haystack@, needle@, i as int));
            }
            return true;
        }
        i = i + 1;
    }
    proof {
        assert(forall|p: int| contains_at(haystack@, needle@, p) ==> 0 <= p <= hn - nn);
    }
    false
}

/// The title derived from an utterance: the trimmed text, cut to
/// `TITLE_MAX_CHARS` characters and ellipsised when longer.
pub open spec fn title_of(msg: Seq<char>) -> Seq<char> {
    let t = trimmed(msg);
    if t.len() > TITLE_MAX_CHARS {
        t.subrange(0, TITLE_MAX_CHARS as int).push('\u{2026}')
    } else {
        t
    }
}

/// Derives a conversation title from the first utterance of a thread.
pub fn derive_title(message: &str) -> (r: String)
    ensures
        r@ == title_of(message@),
{
    let t = trim_str(message);
    let n = t.as_str().unicode_len();
    if n > TITLE_MAX_CHARS {
        let mut out = t.as_str().substring_char(0, TITLE_MAX_CHARS).to_owned();
        out.append("\u{2026}");
        proof {
            reveal_strlit("\u{2026}");
            assert(out@ =~= trimmed(message@).subrange(0, TITLE_MAX_CHARS as int).push(
                '\u{2026}',
            ));
        }
        out
    } else {
        t
    }
}

/// `c` is an ASCII lowercase letter.
pub open spec fn is_lower(c: char) -> bool {
    97 <= c as int && c as int <= 122
}

/// `c` mapped to ASCII uppercase; any other character is left alone.
pub open spec fn upper_char(c: char) -> char {
    if is_lower(c) {
        (((c as int) - 32) as u8) as char
    } else {
        c
    }
}

/// `s` mapped to ASCII uppercase, character by character.
pub open spec fn upper_of(s: Seq<char>) -> Seq<char> {
    Seq::new(s.len(), |i: int| upper_char(s[i]))
}

/// Whether `c` is an ASCII lowercase letter, as executable code.
fn is_lower_char(c: char) -> (b: bool)
    ensures
        b == is_lower(c),
{
    let v = c as u32;
    97 <= v && v <= 122
}

/// The one-character string for the uppercase of an ASCII lowercase letter.
fn upper_letter_str(c: char) -> (r: &'static str)
    requires
        is_lower(c),
    ensures
        r@ == seq![upper_char(c)],
{
    proof {
        reveal_strlit("A");
        reveal_strlit("B");
        reveal_strlit("C");
        reveal_strlit("D");
        reveal_strlit("E");
        reveal_strlit("F");
        reveal_strlit("G");
        reveal_strlit("H");
        reveal_strlit("I");
        reveal_strlit("J");
        reveal_strlit("K");
        reveal_strlit("L");
        reveal_strlit("M");
        reveal_strlit("N");
        reveal_strlit("O");
        reveal_strlit("P");
        reveal_strlit("Q");
        reveal_strlit("R");
        reveal_strlit("S");
        reveal_strlit("T");
        reveal_strlit("U");
        reveal_strlit("V");
        reveal_strlit("W");
        reveal_strlit("X");
        reveal_strlit("Y");
        reveal_strlit("Z");
    }
    let r = match c {
        'a' => "A",
        'b' => "B",
        'c' => "C",
        'd' => "D",
        'e' => "E",
        'f' => "F",
        'g' => "G",
        'h' => "H",
        'i' => "I",
        'j' => "J",
        'k' => "K",
        'l' => "L",
        'm' => "M",
        'n' => "N",
        'o' => "O",
        'p' => "P",
        'q' => "Q",
        'r' => "R",
        's' => "S",
        't' => "T",
        'u' => "U",
        'v' => "V",
        'w' => "W",
        'x' => "X",
        'y' => "Y",
        _ => "Z",
    };
    proof {
        assert(r@ =~= seq![upper_char(c)]);
    }
    r
}

/// A copy of `s` with ASCII lowercase letters raised to uppercase.
/// Everything else, non-ASCII text included, passes through in runs.
pub fn ascii_upper(s: &str) -> (r: String)
    ensures
        r@ == upper_of(s@),
{
    let n = s.unicode_len();
    let mut out = String::new();
    let mut start: usize = 0;
    let mut i: usize = 0;
    while i < n
        invariant
            n == s@.len(),
            0 <= start <= i <= n,
            forall|k: int| start <= k < i ==> !is_lower(s@[k]),
            out@ == upper_of(s@.subrange(0, start as int)),
        decreases n - i,
    {
        let c = s.get_char(i);
        if is_lower_char(c) {
            out.append(s.substring_char(start, i));
            proof {
                assert(out@ =~= upper_of(s@.subrange(0, i as int)));
            }
            out.append(upper_letter_str(c));
            proof {
                assert(out@ =~= upper_of(s@.subrange(0, i + 1)));
            }
            i = i + 1;
            start = i;
        } else {
            i = i + 1;
        }
    }
    out.append(s.substring_char(start, n));
    proof {
        assert(out@ =~= upper_of(s@.subrange(0, n as int)));
        assert(s@.subrange(0, n as int) =~= s@);
    }
    out
}

/// The two characters stand for the same letter, ignoring ASCII case.
pub open spec fn char_eq_ci(a: char, b: char) -> bool {
    let x = a as int;
    let y = b as int;
    ||| x == y
    ||| (97 <= x <= 122 && y == x - 32)
    ||| (65 <= x <= 90 && y == x + 32)
}

/// The two sequences are equal ignoring ASCII case.
pub open spec fn seq_eq_ci(a: Seq<char>, b: Seq<char>) -> bool {
    a.len() == b.len() && forall|i: int| 0 <= i < a.len() ==> char_eq_ci(a[i], b[i])
}

/// Whether the two characters stand for the same letter, ignoring ASCII case.
pub fn char_ci(a: char, b: char) -> (r: bool)
    ensures
        r == char_eq_ci(a, b),
{
    let x = a as u32;
    let y = b as u32;
    x == y || (97 <= x && x <= 122 && y == x - 32) || (65 <= x && x <= 90 && y == x + 32)
}

/// Whether the two strings are equal ignoring ASCII case.
pub fn eq_ignore_case(a: &str, b: &str) -> (r: bool)
    ensures
        r == seq_eq_ci(a@, b@),
{
    let an = a.unicode_len();
    let bn = b.unicode_len();
    if an != bn {
        return false;
    }
    let mut i: usize = 0;
    while i < an
        invariant
            an == a@.len(),
            an == b@.len(),
            0 <= i <= an,
            forall|k: int| 0 <= k < i ==> char_eq_ci(a@[k], b@[k]),
        decreases an - i,
    {
        if !char_ci(a.get_char(i), b.get_char(i)) {
            return false;
        }
        i = i + 1;
    }
    true
}

} // verus!
