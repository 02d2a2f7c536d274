//! Character-sequence helpers shared by every reader.
//!
//! Text is carried as `Vec<char>` and reasoned about as `Seq<char>`; the `&str` a caller hands in
//! is read into one once, and a `String` is built from one once at the end.

use vstd::prelude::*;

verus! {

/// `char::is_whitespace`: the Unicode `White_Space` property.
pub open spec fn is_ws(c: char) -> bool {
    ||| c == '\t'
    ||| c == '\n'
    ||| c == '\u{0B}'
    ||| c == '\u{0C}'
    ||| c == '\r'
    ||| c == ' '
    ||| c == '\u{85}'
    ||| c == '\u{A0}'
    ||| c == '\u{1680}'
    ||| ('\u{2000}' <= c && c <= '\u{200A}')
    ||| c == '\u{2028}'
    ||| c == '\u{2029}'
    ||| c == '\u{202F}'
    ||| c == '\u{205F}'
    ||| c == '\u{3000}'
}

/// Executable [`is_ws`].
pub fn char_is_ws(c: char) -> (r: bool)
    ensures
        r == is_ws(c),
{
    c == '\t' || c == '\n' || c == '\u{0B}' || c == '\u{0C}' || c == '\r' || c == ' '
        || c == '\u{85}' || c == '\u{A0}' || c == '\u{1680}' || ('\u{2000}' <= c && c
        <= '\u{200A}') || c == '\u{2028}' || c == '\u{2029}' || c == '\u{202F}' || c
        == '\u{205F}' || c == '\u{3000}'
}

/// `s` without its leading whitespace (`str::trim_start`).
pub open spec fn trim_start(s: Seq<char>) -> Seq<char>
    decreases s.len(),
{
    if s.len() > 0 && is_ws(s[0]) {
        trim_start(s.drop_first())
    } else {
        s
    }
}

/// `s` without its trailing whitespace (`str::trim_end`).
pub open spec fn trim_end(s: Seq<char>) -> Seq<char>
    decreases s.len(),
{
    if s.len() > 0 && is_ws(s.last()) {
        trim_end(s.drop_last())
    } else {
        s
    }
}

/// `s` without leading and trailing whitespace (`str::trim`).
pub open spec fn trim(s: Seq<char>) -> Seq<char> {
    trim_end(trim_start(s))
}

/// ASCII lower-casing of one character (`char::to_ascii_lowercase`).
pub open spec fn lower_char(c: char) -> char {
    if 'A' <= c && c <= 'Z' {
        ((c as u32) + 32) as char
    } else {
        c
    }
}

/// ASCII lower-casing of a sequence (`str::to_ascii_lowercase`).
pub open spec fn lower(s: Seq<char>) -> Seq<char> {
    s.map_values(|c: char| lower_char(c))
}

/// `s` starts with `p`.
pub open spec fn starts_with(s: Seq<char>, p: Seq<char>) -> bool {
    p.len() <= s.len() && s.subrange(0, p.len() as int) == p
}

/// `s` ends with `p`.
pub open spec fn ends_with(s: Seq<char>, p: Seq<char>) -> bool {
    p.len() <= s.len() && s.subrange(s.len() - p.len(), s.len() as int) == p
}

/// `p` occurs in `s` at index `i`.
pub open spec fn occurs_at(s: Seq<char>, p: Seq<char>, i: int) -> bool {
    0 <= i && i + p.len() <= s.len() && s.subrange(i, i + p.len()) == p
}

/// `p` occurs somewhere in `s` (`str::contains`).
pub open spec fn contains(s: Seq<char>, p: Seq<char>) -> bool {
    exists|i: int| occurs_at(s, p, i)
}

/// The first index at or after `from` where `p` occurs in `s` (`str::find` from `from`).
pub open spec fn find_from(s: Seq<char>, p: Seq<char>, from: int) -> Option<int> {
    if exists|i: int| from <= i && occurs_at(s, p, i) {
        Some(choose|i: int| from <= i && occurs_at(s, p, i) && forall|j: int| from <= j < i ==> !occurs_at(s, p, j))
    } else {
        None
    }
}

/// The last index where `p` occurs in `s` (`str::rfind`).
pub open spec fn rfind(s: Seq<char>, p: Seq<char>) -> Option<int> {
    if exists|i: int| occurs_at(s, p, i) {
        Some(choose|i: int| occurs_at(s, p, i) && forall|j: int| i < j ==> !occurs_at(s, p, j))
    } else {
        None
    }
}

/// The first index of the character `c` in `s`, at or after `from`.
pub open spec fn find_char_from(s: Seq<char>, c: char, from: int) -> Option<int> {
    if exists|i: int| from <= i < s.len() && s[i] == c {
        Some(choose|i: int| from <= i < s.len() && s[i] == c && forall|j: int| from <= j < i ==> s[j] != c)
    } else {
        None
    }
}

/// The characters of `s`, in order.
pub fn chars_of(s: &str) -> (v: Vec<char>)
    ensures
        v@ == s@,
{
    let mut v: Vec<char> = Vec::new();
    for c in it: s.chars()
        invariant
            v@ == it.seq().take(it.index() as int),
    {
        v.push(c);
    }
    v
}

/// `String` holding exactly `v` (`FromIterator<char>`).
#[verifier::external_body]
pub(crate) fn string_of(v: &[char]) -> (s: String)
    ensures
        s@ == v@,
{
    v.iter().collect()
}

/// A copy of `s[lo..hi]`.
pub fn slice_vec(s: &[char], lo: usize, hi: usize) -> (r: Vec<char>)
    requires
        lo <= hi <= s@.len(),
    ensures
        r@ == s@.subrange(lo as int, hi as int),
{
    let mut r: Vec<char> = Vec::new();
    let mut i = lo;
    while i < hi
        invariant
            lo <= i <= hi <= s@.len(),
            r@ == s@.subrange(lo as int, i as int),
        decreases hi - i,
    {
        r.push(s[i]);
        i += 1;
    }
    r
}

/// Append `s[lo..hi]` to `out`.
pub fn push_range(out: &mut Vec<char>, s: &[char], lo: usize, hi: usize)
    requires
        lo <= hi <= s@.len(),
    ensures
        final(out)@ == old(out)@ + s@.subrange(lo as int, hi as int),
{
    let mut i = lo;
    while i < hi
        invariant
            lo <= i <= hi <= s@.len(),
            out@ == old(out)@ + s@.subrange(lo as int, i as int),
        decreases hi - i,
    {
        out.push(s[i]);
        i += 1;
        assert(s@.subrange(lo as int, i as int) == s@.subrange(lo as int, i - 1) + seq![s@[i - 1]]);
    }
}

/// Append all of `s` to `out`.
pub fn push_all(out: &mut Vec<char>, s: &[char])
    ensures
        final(out)@ == old(out)@ + s@,
{
    push_range(out, s, 0, s.len());
    assert(s@.subrange(0, s@.len() as int) == s@);
}

/// Append `n` copies of `c` to `out`.
pub fn push_n(out: &mut Vec<char>, c: char, n: usize)
    ensures
        final(out)@ == old(out)@ + Seq::new(n as nat, |_i: int| c),
{
    let mut i: usize = 0;
    while i < n
        invariant
            i <= n,
            out@ == old(out)@ + Seq::new(i as nat, |_i: int| c),
        decreases n - i,
    {
        out.push(c);
        i += 1;
        assert(Seq::new(i as nat, |_i: int| c) == Seq::new((i - 1) as nat, |_i: int| c).push(c));
    }
}

/// Whether `a[alo..ahi] == b`.
pub fn range_eq(a: &[char], alo: usize, ahi: usize, b: &[char]) -> (r: bool)
    requires
        alo <= ahi <= a@.len(),
    ensures
        r == (a@.subrange(alo as int, ahi as int) == b@),
{
    if ahi - alo != b.len() {
        return false;
    }
    let mut i: usize = 0;
    while i < b.len()
        invariant
            ahi - alo == b@.len(),
            alo <= ahi <= a@.len(),
            i <= b@.len(),
            forall|j: int| 0 <= j < i ==> a@[alo + j] == b@[j],
        decreases b@.len() - i,
    {
        if a[alo + i] != b[i] {
            assert(a@.subrange(alo as int, ahi as int)[i as int] != b@[i as int]);
            return false;
        }
        i += 1;
    }
    assert(a@.subrange(alo as int, ahi as int) =~= b@);
    true
}

/// Whether `a == b`.
pub fn seq_eq(a: &[char], b: &[char]) -> (r: bool)
    ensures
        r == (a@ == b@),
{
    let r = range_eq(a, 0, a.len(), b);
    assert(a@.subrange(0, a@.len() as int) == a@);
    r
}

/// Whether `p` occurs in `s` at `i`.
pub fn is_at(s: &[char], p: &[char], i: usize) -> (r: bool)
    ensures
        r == occurs_at(s@, p@, i as int),
{
    if i > s.len() || s.len() - i < p.len() {
        return false;
    }
    range_eq(s, i, i + p.len(), p)
}

/// Whether `s` starts with `p`.
pub fn has_prefix(s: &[char], p: &[char]) -> (r: bool)
    ensures
        r == starts_with(s@, p@),
{
    is_at(s, p, 0)
}

/// Whether `s` ends with `p`.
pub fn has_suffix(s: &[char], p: &[char]) -> (r: bool)
    ensures
        r == ends_with(s@, p@),
{
    if p.len() > s.len() {
        return false;
    }
    range_eq(s, s.len() - p.len(), s.len(), p)
}

/// A first occurrence found by search is the one [`find_from`] names.
pub proof fn lemma_find_from_is(s: Seq<char>, p: Seq<char>, from: int, i: int)
    requires
        from <= i,
        occurs_at(s, p, i),
        forall|j: int| from <= j < i ==> !occurs_at(s, p, j),
    ensures
        find_from(s, p, from) == Some(i),
{
    let w = choose|k: int| from <= k && occurs_at(s, p, k) && forall|j: int| from <= j < k ==> !occurs_at(s, p, j);
    assert(from <= w && occurs_at(s, p, w) && forall|j: int| from <= j < w ==> !occurs_at(s, p, j));
    if w < i {
        assert(!occurs_at(s, p, w));
    } else if w > i {
        assert(!occurs_at(s, p, i));
    }
}

/// What [`find_from`] promises.
pub proof fn lemma_find_from_props(s: Seq<char>, p: Seq<char>, from: int)
    ensures
        match find_from(s, p, from) {
            Some(i) => from <= i && occurs_at(s, p, i) && forall|j: int| from <= j < i ==> !occurs_at(s, p, j),
            None => forall|j: int| from <= j ==> !occurs_at(s, p, j),
        },
{
    if exists|i: int| from <= i && occurs_at(s, p, i) {
        let w = choose|i: int| from <= i && occurs_at(s, p, i);
        lemma_first_occurrence(s, p, from, w);
    }
}

/// If `p` occurs at or after `from`, a first such occurrence exists.
pub proof fn lemma_first_occurrence(s: Seq<char>, p: Seq<char>, from: int, w: int)
    requires
        from <= w,
        occurs_at(s, p, w),
    ensures
        exists|i: int| from <= i && occurs_at(s, p, i) && forall|j: int| from <= j < i ==> !occurs_at(s, p, j),
    decreases w - from,
{
    if exists|j: int| from <= j < w && occurs_at(s, p, j) {
        let j = choose|j: int| from <= j < w && occurs_at(s, p, j);
        lemma_first_occurrence(s, p, from, j);
    } else {
        assert(from <= w && occurs_at(s, p, w) && forall|j: int| from <= j < w ==> !occurs_at(s, p, j));
    }
}

/// No occurrence at all when [`find_from`] is `None`.
pub proof fn lemma_find_from_none_all(s: Seq<char>, p: Seq<char>, from: int, i: int)
    requires
        find_from(s, p, from) is None,
        from <= i,
    ensures
        !occurs_at(s, p, i),
{
    lemma_find_from_props(s, p, from);
}

/// The first occurrence of `p` in `s` at or after `from`.
pub fn find_seq_from(s: &[char], p: &[char], from: usize) -> (r: Option<usize>)
    ensures
        match r {
            Some(i) => find_from(s@, p@, from as int) == Some(i as int),
            None => find_from(s@, p@, from as int) is None,
        },
{
    if from > s.len() {
        proof {
            lemma_find_from_none(s@, p@, from as int);
        }
        return None;
    }
    let mut i = from;
    loop
        invariant_except_break
            from <= i <= s@.len(),
            forall|j: int| from <= j < i ==> !occurs_at(s@, p@, j),
        ensures
            i == s@.len(),
            forall|j: int| from <= j <= i ==> !occurs_at(s@, p@, j),
        decreases s@.len() - i,
    {
        if is_at(s, p, i) {
            proof {
                lemma_find_from_is(s@, p@, from as int, i as int);
            }
            return Some(i);
        }
        if i == s.len() {
            break;
        }
        i += 1;
    }
    assert(i == s@.len());
    proof {
        lemma_find_from_none(s@, p@, from as int);
    }
    None
}

/// No occurrence past `s.len()`, and none found before it: [`find_from`] is `None`.
pub proof fn lemma_find_from_none(s: Seq<char>, p: Seq<char>, from: int)
    requires
        forall|j: int| from <= j <= s.len() ==> !occurs_at(s, p, j),
    ensures
        find_from(s, p, from) is None,
{
    assert forall|k: int| from <= k implies !occurs_at(s, p, k) by {
        if k > s.len() {
            assert(!(k + p.len() <= s.len()));
        }
    }
}

/// Whether `p` occurs in `s`.
pub fn contains_seq(s: &[char], p: &[char]) -> (r: bool)
    ensures
        r == contains(s@, p@),
{
    match find_seq_from(s, p, 0) {
        Some(_) => true,
        None => {
            assert forall|i: int| !occurs_at(s@, p@, i) by {
                if i >= 0 {
                    assert(!occurs_at(s@, p@, i));
                }
            }
            false
        },
    }
}

/// A first occurrence found by search is the one [`find_char_from`] names.
pub proof fn lemma_find_char_is(s: Seq<char>, c: char, from: int, i: int)
    requires
        from <= i < s.len(),
        s[i] == c,
        forall|j: int| from <= j < i ==> s[j] != c,
    ensures
        find_char_from(s, c, from) == Some(i),
{
    let w = choose|k: int| from <= k < s.len() && s[k] == c && forall|j: int| from <= j < k ==> s[j] != c;
    assert(from <= w < s.len() && s[w] == c && forall|j: int| from <= j < w ==> s[j] != c);
    if w < i {
        assert(s[w] != c);
    } else if w > i {
        assert(s[i] != c);
    }
}

/// The first occurrence of `c` in `s` at or after `from`.
pub fn find_char(s: &[char], c: char, from: usize) -> (r: Option<usize>)
    ensures
        match r {
            Some(i) => find_char_from(s@, c, from as int) == Some(i as int),
            None => find_char_from(s@, c, from as int) is None,
        },
{
    let mut i = from;
    while i < s.len()
        invariant
            from <= i,
            forall|j: int| from <= j < i && j < s@.len() ==> s@[j] != c,
        decreases s@.len() - i,
    {
        if s[i] == c {
            proof {
                lemma_find_char_is(s@, c, from as int, i as int);
            }
            return Some(i);
        }
        i += 1;
    }
    None
}

/// The first index at or after `lo` and before `hi` that is not whitespace, or `hi`.
pub fn skip_ws(s: &[char], lo: usize, hi: usize) -> (r: usize)
    requires
        lo <= hi <= s@.len(),
    ensures
        lo <= r <= hi,
        s@.subrange(r as int, hi as int) == trim_start(s@.subrange(lo as int, hi as int)),
{
    let mut i = lo;
    while i < hi && char_is_ws(s[i])
        invariant
            lo <= i <= hi <= s@.len(),
            trim_start(s@.subrange(i as int, hi as int)) == trim_start(s@.subrange(lo as int, hi as int)),
        decreases hi - i,
    {
        assert(s@.subrange(i as int, hi as int).drop_first() == s@.subrange(i + 1, hi as int));
        i += 1;
    }
    i
}

/// The index just past the last non-whitespace character in `s[lo..hi]`, or `lo`.
pub fn back_ws(s: &[char], lo: usize, hi: usize) -> (r: usize)
    requires
        lo <= hi <= s@.len(),
    ensures
        lo <= r <= hi,
        s@.subrange(lo as int, r as int) == trim_end(s@.subrange(lo as int, hi as int)),
{
    let mut j = hi;
    while j > lo && char_is_ws(s[j - 1])
        invariant
            lo <= j <= hi <= s@.len(),
            trim_end(s@.subrange(lo as int, j as int)) == trim_end(s@.subrange(lo as int, hi as int)),
        decreases j - lo,
    {
        assert(s@.subrange(lo as int, j as int).drop_last() == s@.subrange(lo as int, j - 1));
        j -= 1;
    }
    j
}

/// The bounds of `trim(s[lo..hi])`.
pub fn trim_bounds(s: &[char], lo: usize, hi: usize) -> (r: (usize, usize))
    requires
        lo <= hi <= s@.len(),
    ensures
        lo <= r.0 <= r.1 <= hi,
        s@.subrange(r.0 as int, r.1 as int) == trim(s@.subrange(lo as int, hi as int)),
{
    let a = skip_ws(s, lo, hi);
    let b = back_ws(s, a, hi);
    proof {
        let t = s@.subrange(a as int, hi as int);
        lemma_trim_start_no_ws(s@.subrange(lo as int, hi as int));
        lemma_trim_start_fixed(t);
        assert(trim_start(t) == t);
    }
    (a, b)
}

/// `trim_start(s)`, as a new vector.
pub fn trimmed_start(s: &[char]) -> (r: Vec<char>)
    ensures
        r@ == trim_start(s@),
{
    let a = skip_ws(s, 0, s.len());
    assert(s@.subrange(0, s@.len() as int) == s@);
    slice_vec(s, a, s.len())
}

/// `trim_end(s)`, as a new vector.
pub fn trimmed_end(s: &[char]) -> (r: Vec<char>)
    ensures
        r@ == trim_end(s@),
{
    let b = back_ws(s, 0, s.len());
    assert(s@.subrange(0, s@.len() as int) == s@);
    slice_vec(s, 0, b)
}

/// `trim(s)`, as a new vector.
pub fn trimmed(s: &[char]) -> (r: Vec<char>)
    ensures
        r@ == trim(s@),
{
    let (a, b) = trim_bounds(s, 0, s.len());
    assert(s@.subrange(0, s@.len() as int) == s@);
    slice_vec(s, a, b)
}

/// A last occurrence found by search is the one [`rfind`] names.
pub proof fn lemma_rfind_is(s: Seq<char>, p: Seq<char>, i: int)
    requires
        occurs_at(s, p, i),
        forall|j: int| i < j ==> !occurs_at(s, p, j),
    ensures
        rfind(s, p) == Some(i),
{
    let w = choose|k: int| occurs_at(s, p, k) && forall|j: int| k < j ==> !occurs_at(s, p, j);
    assert(occurs_at(s, p, w) && forall|j: int| w < j ==> !occurs_at(s, p, j));
    if w < i {
        assert(!occurs_at(s, p, i));
    } else if w > i {
        assert(!occurs_at(s, p, w));
    }
}

/// What [`rfind`] promises.
pub proof fn lemma_rfind_props(s: Seq<char>, p: Seq<char>)
    ensures
        match rfind(s, p) {
            Some(i) => occurs_at(s, p, i) && forall|j: int| i < j ==> !occurs_at(s, p, j),
            None => forall|j: int| !occurs_at(s, p, j),
        },
{
    if exists|i: int| occurs_at(s, p, i) {
        let w = choose|i: int| occurs_at(s, p, i);
        lemma_last_occurrence(s, p, w);
    }
}

/// If `p` occurs in `s` at all, a last occurrence exists.
pub proof fn lemma_last_occurrence(s: Seq<char>, p: Seq<char>, w: int)
    requires
        occurs_at(s, p, w),
    ensures
        exists|i: int| occurs_at(s, p, i) && forall|j: int| i < j ==> !occurs_at(s, p, j),
    decreases s.len() - w,
{
    if exists|j: int| w < j && occurs_at(s, p, j) {
        let j = choose|j: int| w < j && occurs_at(s, p, j);
        lemma_last_occurrence(s, p, j);
    } else {
        assert(occurs_at(s, p, w) && forall|j: int| w < j ==> !occurs_at(s, p, j));
    }
}

/// The last occurrence of `p` in `s` (`str::rfind`).
pub fn rfind_seq(s: &[char], p: &[char]) -> (r: Option<usize>)
    ensures
        match r {
            Some(i) => rfind(s@, p@) == Some(i as int) && i + p@.len() <= s@.len(),
            None => rfind(s@, p@) is None,
        },
{
    let n = s.len();
    if p.len() > n {
        proof {
            lemma_rfind_props(s@, p@);
        }
        return None;
    }
    let mut i = n - p.len();
    if is_at(s, p, i) {
        proof {
            lemma_rfind_is(s@, p@, i as int);
        }
        return Some(i);
    }
    while i > 0
        invariant
            p@.len() <= n == s@.len(),
            i <= n - p@.len(),
            forall|j: int| i <= j ==> !occurs_at(s@, p@, j),
        decreases i,
    {
        i -= 1;
        if is_at(s, p, i) {
            proof {
                lemma_rfind_is(s@, p@, i as int);
            }
            return Some(i);
        }
    }
    proof {
        lemma_rfind_props(s@, p@);
    }
    None
}

/// `trim_start` never grows a sequence.
pub proof fn lemma_trim_start_len(s: Seq<char>)
    ensures
        trim_start(s).len() <= s.len(),
    decreases s.len(),
{
    if s.len() > 0 && is_ws(s[0]) {
        lemma_trim_start_len(s.drop_first());
    }
}

/// `trim_start` leaves no leading whitespace.
pub proof fn lemma_trim_start_no_ws(s: Seq<char>)
    ensures
        trim_start(s).len() == 0 || !is_ws(trim_start(s)[0]),
    decreases s.len(),
{
    if s.len() > 0 && is_ws(s[0]) {
        lemma_trim_start_no_ws(s.drop_first());
    }
}

/// A sequence that does not start with whitespace is its own `trim_start`.
pub proof fn lemma_trim_start_fixed(s: Seq<char>)
    ensures
        (s.len() == 0 || !is_ws(s[0])) ==> trim_start(s) == s,
{
}

/// ASCII lower-casing of one character.
pub fn char_lower(c: char) -> (r: char)
    ensures
        r == lower_char(c),
{
    if 'A' <= c && c <= 'Z' {
        let b = (c as u8) + 32;
        b as char
    } else {
        c
    }
}

} // verus!

verus! {

/// What `str::to_lowercase` returns for `s` (Unicode lower-casing).
pub uninterp spec fn unicode_lower(s: Seq<char>) -> Seq<char>;

/// `str::to_lowercase`: the full Unicode lower-casing of `text`. On ASCII text it is the ASCII
/// lower-casing: std documents `to_lowercase` as mapping each character by the Unicode
/// `Lowercase` mapping, which on ASCII turns `A`–`Z` into `a`–`z` and leaves the rest alone.
#[verifier::external_body]
pub(crate) fn to_lowercase(text: &[char]) -> (r: Vec<char>)
    ensures
        r@ == unicode_lower(text@),
        (forall|i: int| 0 <= i < text@.len() ==> (text@[i] as u32) < 128) ==> r@ == lower(text@),
{
    let s: String = text.iter().collect();
    s.to_lowercase().chars().collect()
}

/// A code point is a Unicode scalar value (what `char::from_u32` accepts).
pub open spec fn is_scalar(v: int) -> bool {
    (0 <= v < 0xD800) || (0xE000 <= v <= 0x10FFFF)
}

/// `char::from_u32`: the character with code point `v`, if `v` is a Unicode scalar value.
#[verifier::external_body]
pub(crate) fn char_from_u32(v: u32) -> (r: Option<char>)
    ensures
        r is Some <==> is_scalar(v as int),
        r matches Some(c) ==> c as int == v as int,
{
    char::from_u32(v)
}

/// The first line of `s` and what follows it, as `str::lines` splits: at a `\n`, with the `\r`
/// of a `\r\n` dropped.
pub open spec fn first_line(s: Seq<char>) -> (Seq<char>, Seq<char>) {
    match find_char_from(s, '\n', 0) {
        Some(i) => (strip_cr(s.subrange(0, i)), s.skip(i + 1)),
        None => (s, Seq::empty()),
    }
}

/// `l` without one trailing `\r`.
pub open spec fn strip_cr(l: Seq<char>) -> Seq<char> {
    if l.len() > 0 && l.last() == '\r' {
        l.drop_last()
    } else {
        l
    }
}

/// What [`find_char_from`] promises.
pub proof fn lemma_find_char_props(s: Seq<char>, c: char, from: int)
    ensures
        match find_char_from(s, c, from) {
            Some(i) => from <= i < s.len() && s[i] == c && forall|j: int| from <= j < i ==> s[j] != c,
            None => forall|j: int| from <= j < s.len() ==> s[j] != c,
        },
{
    if exists|i: int| from <= i < s.len() && s[i] == c {
        let w = choose|i: int| from <= i < s.len() && s[i] == c;
        lemma_first_char(s, c, from, w);
    }
}

/// If `c` occurs in `s[from..]` then a first occurrence exists.
pub proof fn lemma_first_char(s: Seq<char>, c: char, from: int, w: int)
    requires
        from <= w < s.len(),
        s[w] == c,
    ensures
        exists|i: int| from <= i < s.len() && s[i] == c && forall|j: int| from <= j < i ==> s[j] != c,
    decreases w - from,
{
    if exists|j: int| from <= j < w && s[j] == c {
        let j = choose|j: int| from <= j < w && s[j] == c;
        lemma_first_char(s, c, from, j);
    } else {
        assert(from <= w < s.len() && s[w] == c && forall|j: int| from <= j < w ==> s[j] != c);
    }
}

/// The rest after the first line is shorter than a non-empty `s`.
pub proof fn lemma_first_line_shrinks(s: Seq<char>)
    requires
        s.len() > 0,
    ensures
        first_line(s).1.len() < s.len(),
{
    lemma_find_char_props(s, '\n', 0);
}

/// The bounds of the first line of `s[start..]` and where the line after it starts.
#[verifier::rlimit(40)]
pub fn next_line(s: &[char], start: usize) -> (r: (usize, usize, usize))
    requires
        start < s@.len(),
    ensures
        start <= r.0 <= r.1 <= r.2 <= s@.len(),
        start < r.2,
        s@.subrange(r.0 as int, r.1 as int) == first_line(s@.skip(start as int)).0,
        s@.skip(r.2 as int) == first_line(s@.skip(start as int)).1,
{
    let ghost rest = s@.skip(start as int);
    let mut j = start;
    while j < s.len() && s[j] != '\n'
        invariant
            start <= j <= s@.len(),
            rest == s@.skip(start as int),
            forall|k: int| 0 <= k < j - start ==> rest[k] != '\n',
        decreases s@.len() - j,
    {
        j += 1;
    }
    if j < s.len() {
        proof {
            lemma_find_char_is(rest, '\n', 0, j - start);
            assert(rest.subrange(0, j - start) == s@.subrange(start as int, j as int));
            assert(rest.skip(j - start + 1) == s@.skip(j + 1));
        }
        let hi = if j > start && s[j - 1] == '\r' {
            j - 1
        } else {
            j
        };
        proof {
            if j > start && s@[j - 1] == '\r' {
                assert(s@.subrange(start as int, j as int).drop_last() == s@.subrange(start as int, j - 1));
            }
        }
        (start, hi, j + 1)
    } else {
        proof {
            lemma_find_char_props(rest, '\n', 0);
            assert(s@.subrange(start as int, s@.len() as int) == rest);
            assert(s@.skip(s@.len() as int) == Seq::<char>::empty());
        }
        (start, s.len(), s.len())
    }
}

} // verus!

verus! {

/// ASCII letter or digit (`u8::is_ascii_alphanumeric` on the character's byte).
pub open spec fn is_ascii_alnum(c: char) -> bool {
    ('0' <= c && c <= '9') || ('a' <= c && c <= 'z') || ('A' <= c && c <= 'Z')
}

/// Executable [`is_ascii_alnum`].
pub fn char_is_ascii_alnum(c: char) -> (r: bool)
    ensures
        r == is_ascii_alnum(c),
{
    ('0' <= c && c <= '9') || ('a' <= c && c <= 'z') || ('A' <= c && c <= 'Z')
}

/// The last index of `c` in `s`.
pub open spec fn rfind_char(s: Seq<char>, c: char) -> Option<int> {
    if exists|i: int| 0 <= i < s.len() && s[i] == c {
        Some(choose|i: int| 0 <= i < s.len() && s[i] == c && forall|j: int| i < j < s.len() ==> s[j] != c)
    } else {
        None
    }
}

/// What [`rfind_char`] promises.
pub proof fn lemma_rfind_char_props(s: Seq<char>, c: char)
    ensures
        match rfind_char(s, c) {
            Some(i) => 0 <= i < s.len() && s[i] == c && forall|j: int| i < j < s.len() ==> s[j] != c,
            None => forall|j: int| 0 <= j < s.len() ==> s[j] != c,
        },
{
    if exists|i: int| 0 <= i < s.len() && s[i] == c {
        let w = choose|i: int| 0 <= i < s.len() && s[i] == c;
        lemma_last_char(s, c, w);
    }
}

/// If `c` occurs in `s`, a last occurrence exists.
pub proof fn lemma_last_char(s: Seq<char>, c: char, w: int)
    requires
        0 <= w < s.len(),
        s[w] == c,
    ensures
        exists|i: int| 0 <= i < s.len() && s[i] == c && forall|j: int| i < j < s.len() ==> s[j] != c,
    decreases s.len() - w,
{
    if exists|j: int| w < j < s.len() && s[j] == c {
        let j = choose|j: int| w < j < s.len() && s[j] == c;
        lemma_last_char(s, c, j);
    } else {
        assert(0 <= w < s.len() && s[w] == c && forall|j: int| w < j < s.len() ==> s[j] != c);
    }
}

/// The last occurrence of `c` in `s`.
pub fn rfind_char_exec(s: &[char], c: char) -> (r: Option<usize>)
    ensures
        match r {
            Some(i) => rfind_char(s@, c) == Some(i as int),
            None => rfind_char(s@, c) is None,
        },
{
    let mut i = s.len();
    while i > 0
        invariant
            i <= s@.len(),
            forall|j: int| i <= j < s@.len() ==> s@[j] != c,
        decreases i,
    {
        i -= 1;
        if s[i] == c {
            proof {
                let w = choose|k: int| 0 <= k < s@.len() && s@[k] == c && forall|j: int| k < j < s@.len() ==> s@[j] != c;
                assert(0 <= w < s@.len() && s@[w] == c && forall|j: int| w < j < s@.len() ==> s@[j] != c);
                if w < i as int {
                    assert(s@[i as int] != c);
                } else if w > i as int {
                    assert(s@[w] != c);
                }
            }
            return Some(i);
        }
    }
    None
}

/// Whether `c` occurs in `s`.
pub fn has_char(s: &[char], c: char) -> (r: bool)
    ensures
        r == s@.contains(c),
{
    let mut i: usize = 0;
    while i < s.len()
        invariant
            i <= s@.len(),
            forall|j: int| 0 <= j < i ==> s@[j] != c,
        decreases s@.len() - i,
    {
        if s[i] == c {
            assert(s@[i as int] == c);
            return true;
        }
        i += 1;
    }
    false
}

} // verus!
