//! The string-to-typed coercions a native setting's text goes through on its way into a typed
//! importer model.
//!
//! Every native config format in scope lowers to a flat set of **string-valued** settings, and
//! every model field reads one of them through a coercion here. A value that does not parse
//! leaves the field unset rather than failing the import: native configs carry stray and
//! tool-specific values that are treated as "unset".

use vstd::prelude::*;

use crate::import::kv::KvMap;
use crate::import::strings_view;
use crate::strs::{
    back_ws, find_char, find_char_from, lemma_find_char_props, skip_ws, slice_vec, to_lowercase,
    trim, trim_bounds, unicode_lower, string_of,
};

verus! {

/// A decimal digit.
pub open spec fn is_digit(c: char) -> bool {
    '0' <= c && c <= '9'
}

/// Every character of `d` is a decimal digit.
pub open spec fn all_digits(d: Seq<char>) -> bool {
    forall|i: int| 0 <= i < d.len() ==> is_digit(#[trigger] d[i])
}

/// The number the decimal digits `d` spell.
pub open spec fn digits_value(d: Seq<char>) -> int
    decreases d.len(),
{
    if d.len() == 0 {
        0
    } else {
        digits_value(d.drop_last()) * 10 + (d.last() as int - '0' as int)
    }
}

/// The value of an unsigned integer literal as `FromStr` reads one: an optional `+`, then one or
/// more decimal digits. The type's range is checked separately.
pub open spec fn unsigned_value(s: Seq<char>) -> Option<int> {
    let d = if s.len() > 0 && s[0] == '+' { s.drop_first() } else { s };
    if d.len() > 0 && all_digits(d) {
        Some(digits_value(d))
    } else {
        None
    }
}

/// The value of a signed integer literal as `FromStr` reads one: an optional `+` or `-`, then one
/// or more decimal digits.
pub open spec fn signed_value(s: Seq<char>) -> Option<int> {
    if s.len() > 0 && s[0] == '-' {
        let d = s.drop_first();
        if d.len() > 0 && all_digits(d) {
            Some(-digits_value(d))
        } else {
            None
        }
    } else {
        unsigned_value(s)
    }
}

/// `unsigned_value` within `0..=max`.
pub open spec fn unsigned_in(s: Seq<char>, max: int) -> Option<int> {
    match unsigned_value(s) {
        Some(v) => if v <= max { Some(v) } else { None },
        None => None,
    }
}

/// `s.trim().parse::<usize>().ok()`.
pub open spec fn opt_usize_spec(s: Seq<char>) -> Option<usize> {
    match unsigned_in(trim(s), usize::MAX as int) {
        Some(v) => Some(v as usize),
        None => None,
    }
}

/// `s.trim().parse::<u32>().ok()`.
pub open spec fn opt_u32_spec(s: Seq<char>) -> Option<u32> {
    match unsigned_in(trim(s), u32::MAX as int) {
        Some(v) => Some(v as u32),
        None => None,
    }
}

/// `s.trim().parse::<i64>().ok()`.
pub open spec fn opt_i64_spec(s: Seq<char>) -> Option<i64> {
    match signed_value(trim(s)) {
        Some(v) => if i64::MIN <= v <= i64::MAX { Some(v as i64) } else { None },
        None => None,
    }
}

/// A `true` / `false` token, matched after trimming and lower-casing.
pub open spec fn opt_bool_spec(s: Seq<char>) -> Option<bool> {
    let t = unicode_lower(trim(s));
    if t == seq!['t', 'r', 'u', 'e'] {
        Some(true)
    } else if t == seq!['f', 'a', 'l', 's', 'e'] {
        Some(false)
    } else {
        None
    }
}

/// The tab flag `USE_TAB_CHARACTER` spells either as the scheme's `true` / `false` or as the
/// editorconfig `indent_style`'s `tab` / `space`.
pub open spec fn opt_tab_flag_spec(s: Seq<char>) -> Option<bool> {
    let t = unicode_lower(trim(s));
    if t == seq!['t', 'r', 'u', 'e'] || t == seq!['t', 'a', 'b'] {
        Some(true)
    } else if t == seq!['f', 'a', 'l', 's', 'e'] || t == seq!['s', 'p', 'a', 'c', 'e'] {
        Some(false)
    } else {
        None
    }
}

/// The digits of a decimal literal as a lemma-friendly prefix chain: each longer prefix is at
/// least the shorter one.
pub proof fn lemma_digits_value_monotone(d: Seq<char>, i: int, j: int)
    requires
        0 <= i <= j <= d.len(),
        all_digits(d),
    ensures
        0 <= digits_value(d.subrange(0, i)) <= digits_value(d.subrange(0, j)),
    decreases j - i,
{
    if i < j {
        lemma_digits_value_monotone(d, i, j - 1);
        assert(d.subrange(0, j).drop_last() == d.subrange(0, j - 1));
        assert(is_digit(d[j - 1]));
    } else {
        lemma_digits_value_nonneg(d.subrange(0, i));
    }
}

/// A digit string's value is not negative.
pub proof fn lemma_digits_value_nonneg(d: Seq<char>)
    requires
        all_digits(d),
    ensures
        digits_value(d) >= 0,
    decreases d.len(),
{
    if d.len() > 0 {
        assert(all_digits(d.drop_last()));
        lemma_digits_value_nonneg(d.drop_last());
        assert(is_digit(d.last()));
    }
}

/// The digits `s[lo..hi]` as a number no greater than `max`.
fn digits_upto(s: &[char], lo: usize, hi: usize, max: u128) -> (r: Option<u128>)
    requires
        lo < hi <= s@.len(),
        max < 0x1_0000_0000_0000_0000_0000,
    ensures
        match r {
            Some(v) => all_digits(s@.subrange(lo as int, hi as int)) && v as int == digits_value(s@.subrange(lo as int, hi as int)) && v <= max,
            None => !all_digits(s@.subrange(lo as int, hi as int)) || digits_value(s@.subrange(lo as int, hi as int)) > max,
        },
{
    let ghost d = s@.subrange(lo as int, hi as int);
    let mut acc: u128 = 0;
    let mut i = lo;
    while i < hi
        invariant
            lo <= i <= hi <= s@.len(),
            max < 0x1_0000_0000_0000_0000_0000,
            d == s@.subrange(lo as int, hi as int),
            all_digits(d.subrange(0, i - lo)),
            acc as int == digits_value(d.subrange(0, i - lo)),
            acc <= max,
        decreases hi - i,
    {
        let c = s[i];
        if !('0' <= c && c <= '9') {
            assert(d[i - lo] == c);
            return None;
        }
        let digit = (c as u32 - '0' as u32) as u128;
        proof {
            assert(d.subrange(0, i + 1 - lo).drop_last() == d.subrange(0, i - lo));
            assert(d.subrange(0, i + 1 - lo).last() == c);
        }
        if digit > max || acc > (max - digit) / 10 {
            proof {
                if digit <= max {
                    assert(acc * 10 + digit > max) by (nonlinear_arith)
                        requires
                            acc > (max - digit) / 10,
                            digit <= max,
                    ;
                }
            }
            // The rest are either all digits, and then the value only grows, or not.
            proof {
                if all_digits(d) {
                    lemma_digits_value_monotone(d, i + 1 - lo, d.len() as int);
                    assert(d.subrange(0, d.len() as int) == d);
                }
            }
            return None;
        }
        proof {
            assert(acc * 10 + digit <= max) by (nonlinear_arith)
                requires
                    acc <= (max - digit) / 10,
                    digit <= max,
            ;
        }
        acc = acc * 10 + digit;
        i += 1;
    }
    assert(d.subrange(0, hi - lo) == d);
    Some(acc)
}

/// The string-to-typed coercions, grouped so they are not free functions.
pub struct Kv;

impl Kv {
    /// The value of the unsigned literal `s[lo..hi]` within `0..=max`.
    fn unsigned(s: &[char], lo: usize, hi: usize, max: u128) -> (r: Option<u128>)
        requires
            lo <= hi <= s@.len(),
            max < 0x1_0000_0000_0000_0000_0000,
        ensures
            match r {
                Some(v) => unsigned_in(s@.subrange(lo as int, hi as int), max as int) == Some(v as int),
                None => unsigned_in(s@.subrange(lo as int, hi as int), max as int) is None,
            },
    {
        let ghost t = s@.subrange(lo as int, hi as int);
        let start = if lo < hi && s[lo] == '+' { lo + 1 } else { lo };
        assert(s@.subrange(start as int, hi as int) == (if t.len() > 0 && t[0] == '+' { t.drop_first() } else { t }));
        if start == hi {
            return None;
        }
        digits_upto(s, start, hi, max)
    }

    /// `raw.trim().parse::<usize>().ok()`.
    pub fn opt_usize(raw: &[char]) -> (r: Option<usize>)
        ensures
            r == opt_usize_spec(raw@),
    {
        let (a, b) = trim_bounds(raw, 0, raw.len());
        assert(raw@.subrange(0, raw@.len() as int) == raw@);
        match Self::unsigned(raw, a, b, usize::MAX as u128) {
            Some(v) => Some(v as usize),
            None => None,
        }
    }

    /// `raw.trim().parse::<u32>().ok()`.
    pub fn opt_u32(raw: &[char]) -> (r: Option<u32>)
        ensures
            r == opt_u32_spec(raw@),
    {
        let (a, b) = trim_bounds(raw, 0, raw.len());
        assert(raw@.subrange(0, raw@.len() as int) == raw@);
        match Self::unsigned(raw, a, b, u32::MAX as u128) {
            Some(v) => Some(v as u32),
            None => None,
        }
    }

    /// `raw.trim().parse::<i64>().ok()`.
    pub fn opt_i64(raw: &[char]) -> (r: Option<i64>)
        ensures
            r == opt_i64_spec(raw@),
    {
        let (a, b) = trim_bounds(raw, 0, raw.len());
        assert(raw@.subrange(0, raw@.len() as int) == raw@);
        let ghost t = raw@.subrange(a as int, b as int);
        if a < b && raw[a] == '-' {
            assert(raw@.subrange(a + 1, b as int) == t.drop_first());
            if a + 1 == b {
                return None;
            }
            match digits_upto(raw, a + 1, b, 0x8000_0000_0000_0000u128) {
                Some(v) => {
                    if v == 0x8000_0000_0000_0000u128 {
                        Some(i64::MIN)
                    } else {
                        Some(-(v as i64))
                    }
                },
                None => None,
            }
        } else {
            match Self::unsigned(raw, a, b, i64::MAX as u128) {
                Some(v) => Some(v as i64),
                None => None,
            }
        }
    }

    /// A `true` / `false` token, matched after trimming and lower-casing (`None` otherwise).
    ///
    /// Lower-casing only widens what parses: editorconfig values are case-insensitive per spec
    /// (`= TRUE`), while every native source emits canonical lowercase.
    pub fn opt_bool(raw: &[char]) -> (r: Option<bool>)
        ensures
            r == opt_bool_spec(raw@),
    {
        let (a, b) = trim_bounds(raw, 0, raw.len());
        assert(raw@.subrange(0, raw@.len() as int) == raw@);
        let t = to_lowercase(&slice_vec(raw, a, b));
        if t.len() == 4 && t[0] == 't' && t[1] == 'r' && t[2] == 'u' && t[3] == 'e' {
            assert(t@ =~= seq!['t', 'r', 'u', 'e']);
            Some(true)
        } else if t.len() == 5 && t[0] == 'f' && t[1] == 'a' && t[2] == 'l' && t[3] == 's' && t[4] == 'e' {
            assert(t@ =~= seq!['f', 'a', 'l', 's', 'e']);
            Some(false)
        } else {
            None
        }
    }

    /// `USE_TAB_CHARACTER`: `true` / `tab` set it, `false` / `space` clear it, after trimming and
    /// lower-casing; anything else leaves it unset.
    pub fn opt_tab_flag(raw: &[char]) -> (r: Option<bool>)
        ensures
            r == opt_tab_flag_spec(raw@),
    {
        let (a, b) = trim_bounds(raw, 0, raw.len());
        assert(raw@.subrange(0, raw@.len() as int) == raw@);
        let t = to_lowercase(&slice_vec(raw, a, b));
        if t.len() == 4 && t[0] == 't' && t[1] == 'r' && t[2] == 'u' && t[3] == 'e' {
            assert(t@ =~= seq!['t', 'r', 'u', 'e']);
            Some(true)
        } else if t.len() == 3 && t[0] == 't' && t[1] == 'a' && t[2] == 'b' {
            assert(t@ =~= seq!['t', 'a', 'b']);
            Some(true)
        } else if t.len() == 5 && t[0] == 'f' && t[1] == 'a' && t[2] == 'l' && t[3] == 's' && t[4] == 'e' {
            assert(t@ =~= seq!['f', 'a', 'l', 's', 'e']);
            Some(false)
        } else if t.len() == 5 && t[0] == 's' && t[1] == 'p' && t[2] == 'a' && t[3] == 'c' && t[4] == 'e' {
            assert(t@ =~= seq!['s', 'p', 'a', 'c', 'e']);
            Some(false)
        } else {
            None
        }
    }

    /// One setting's text, trimmed.
    pub fn read(raw: &[char]) -> (r: Vec<char>)
        ensures
            r@ == trim(raw@),
    {
        let (a, b) = trim_bounds(raw, 0, raw.len());
        assert(raw@.subrange(0, raw@.len() as int) == raw@);
        slice_vec(raw, a, b)
    }
}

} // verus!

verus! {

/// A native value vocabulary: each value is spelled by one token (or more).
pub trait Token: Sized {
    /// The value `t` spells, if any.
    spec fn spec_from_token(t: Seq<char>) -> Option<Self>;

    /// The value `t` spells, if any.
    fn from_token(t: &[char]) -> (r: Option<Self>)
        ensures
            r == Self::spec_from_token(t@);
}

/// `t` spells exactly the literal `lit`.
pub fn is_token(t: &[char], lit: &str) -> (r: bool)
    ensures
        r == (t@ == lit@),
{
    let l = crate::strs::chars_of(lit);
    crate::strs::seq_eq(t, &l)
}

/// The value of `key` in `m`, if any.
pub open spec fn lookup(m: Map<Seq<char>, Seq<char>>, key: Seq<char>) -> Option<Seq<char>> {
    if m.contains_key(key) {
        Some(m[key])
    } else {
        None
    }
}

/// A setting read as a `true` / `false` token.
pub open spec fn lookup_bool(m: Map<Seq<char>, Seq<char>>, key: Seq<char>) -> Option<bool> {
    match lookup(m, key) {
        Some(v) => opt_bool_spec(v),
        None => None,
    }
}

/// A setting read as a tab flag.
pub open spec fn lookup_tab_flag(m: Map<Seq<char>, Seq<char>>, key: Seq<char>) -> Option<bool> {
    match lookup(m, key) {
        Some(v) => opt_tab_flag_spec(v),
        None => None,
    }
}

/// A setting read as a count.
pub open spec fn lookup_usize(m: Map<Seq<char>, Seq<char>>, key: Seq<char>) -> Option<usize> {
    match lookup(m, key) {
        Some(v) => opt_usize_spec(v),
        None => None,
    }
}

/// A setting read as a signed integer.
pub open spec fn lookup_i64(m: Map<Seq<char>, Seq<char>>, key: Seq<char>) -> Option<i64> {
    match lookup(m, key) {
        Some(v) => opt_i64_spec(v),
        None => None,
    }
}

/// A setting read as an unsigned 32-bit integer.
pub open spec fn lookup_u32(m: Map<Seq<char>, Seq<char>>, key: Seq<char>) -> Option<u32> {
    match lookup(m, key) {
        Some(v) => opt_u32_spec(v),
        None => None,
    }
}

/// A setting read as a lower-cased enum token.
pub open spec fn lookup_enum<T: Token>(m: Map<Seq<char>, Seq<char>>, key: Seq<char>) -> Option<T> {
    match lookup(m, key) {
        Some(v) => T::spec_from_token(unicode_lower(v)),
        None => None,
    }
}

/// A setting read as a trimmed, case-sensitive token.
pub open spec fn lookup_trimmed<T: Token>(m: Map<Seq<char>, Seq<char>>, key: Seq<char>) -> Option<T> {
    match lookup(m, key) {
        Some(v) => T::spec_from_token(trim(v)),
        None => None,
    }
}

/// The view of an optional string.
pub open spec fn opt_view(o: Option<String>) -> Option<Seq<char>> {
    match o {
        Some(s) => Some(s@),
        None => None,
    }
}

impl Kv {
    /// A setting read as a `true` / `false` token.
    pub fn field_bool(m: &KvMap, key: &str) -> (r: Option<bool>)
        ensures
            r == lookup_bool(m@, key@),
    {
        match m.get_str(key) {
            Some(v) => Self::opt_bool(v),
            None => None,
        }
    }

    /// A setting read as a tab flag.
    pub fn field_tab_flag(m: &KvMap, key: &str) -> (r: Option<bool>)
        ensures
            r == lookup_tab_flag(m@, key@),
    {
        match m.get_str(key) {
            Some(v) => Self::opt_tab_flag(v),
            None => None,
        }
    }

    /// A setting read as a count.
    pub fn field_usize(m: &KvMap, key: &str) -> (r: Option<usize>)
        ensures
            r == lookup_usize(m@, key@),
    {
        match m.get_str(key) {
            Some(v) => Self::opt_usize(v),
            None => None,
        }
    }

    /// A setting read as a signed integer.
    pub fn field_i64(m: &KvMap, key: &str) -> (r: Option<i64>)
        ensures
            r == lookup_i64(m@, key@),
    {
        match m.get_str(key) {
            Some(v) => Self::opt_i64(v),
            None => None,
        }
    }

    /// A setting read as an unsigned 32-bit integer.
    pub fn field_u32(m: &KvMap, key: &str) -> (r: Option<u32>)
        ensures
            r == lookup_u32(m@, key@),
    {
        match m.get_str(key) {
            Some(v) => Self::opt_u32(v),
            None => None,
        }
    }

    /// A setting read as a lower-cased enum token; a token that is not one of `T`'s leaves the
    /// setting unset.
    pub fn field_enum<T: Token>(m: &KvMap, key: &str) -> (r: Option<T>)
        ensures
            r == lookup_enum::<T>(m@, key@),
    {
        match m.get_str(key) {
            Some(v) => T::from_token(&to_lowercase(v)),
            None => None,
        }
    }

    /// A setting read as a trimmed, case-sensitive token.
    pub fn field_trimmed<T: Token>(m: &KvMap, key: &str) -> (r: Option<T>)
        ensures
            r == lookup_trimmed::<T>(m@, key@),
    {
        match m.get_str(key) {
            Some(v) => T::from_token(&Self::read(v)),
            None => None,
        }
    }

    /// A setting read verbatim.
    pub fn field_string(m: &KvMap, key: &str) -> (r: Option<String>)
        ensures
            opt_view(r) == lookup(m@, key@),
    {
        m.get_string(key)
    }
}

/// The non-empty trimmed items of the comma-separated list `s` from index `pos` on.
#[verifier::opaque]
pub open spec fn items_from(s: Seq<char>, pos: int) -> Seq<Seq<char>>
    decreases s.len() - pos,
{
    if pos < 0 || pos > s.len() {
        Seq::empty()
    } else {
        match find_char_from(s, ',', pos) {
            Some(i) => if pos <= i < s.len() {
                item_of(s.subrange(pos, i)) + items_from(s, i + 1)
            } else {
                Seq::empty()
            },
            None => item_of(s.subrange(pos, s.len() as int)),
        }
    }
}

/// One list item, trimmed: itself, or nothing when empty.
pub open spec fn item_of(raw: Seq<char>) -> Seq<Seq<char>> {
    if trim(raw).len() == 0 {
        Seq::empty()
    } else {
        seq![trim(raw)]
    }
}

/// One step of [`items_from`]: the item up to the next comma, then the rest.
pub proof fn lemma_items_step(s: Seq<char>, pos: int)
    requires
        0 <= pos <= s.len(),
    ensures
        match find_char_from(s, ',', pos) {
            Some(i) => pos <= i < s.len() && items_from(s, pos) == item_of(s.subrange(pos, i)) + items_from(s, i + 1),
            None => items_from(s, pos) == item_of(s.subrange(pos, s.len() as int)),
        },
{
    reveal(items_from);
    lemma_find_char_props(s, ',', pos);
}

/// A comma-separated list setting: its non-empty trimmed items, or absent when it has none.
pub open spec fn list_spec(s: Seq<char>) -> Option<Seq<Seq<char>>> {
    if items_from(s, 0).len() == 0 {
        None
    } else {
        Some(items_from(s, 0))
    }
}

/// A setting read as a comma-separated list.
pub open spec fn lookup_list(m: Map<Seq<char>, Seq<char>>, key: Seq<char>) -> Option<Seq<Seq<char>>> {
    match lookup(m, key) {
        Some(v) => list_spec(v),
        None => None,
    }
}

/// The view of an optional list of strings.
pub open spec fn opt_strings_view(o: Option<Vec<String>>) -> Option<Seq<Seq<char>>> {
    match o {
        Some(v) => Some(strings_view(v@)),
        None => None,
    }
}

impl Kv {
    /// A comma-separated list: the items trimmed, empty ones dropped, and no list at all when
    /// none is left.
    pub fn opt_list(raw: &[char]) -> (r: Option<Vec<String>>)
        ensures
            opt_strings_view(r) == list_spec(raw@),
    {
        let mut items: Vec<String> = Vec::new();
        let mut pos: usize = 0;
        assert(strings_view(items@) =~= Seq::<Seq<char>>::empty());
        loop
            invariant
                pos <= raw@.len(),
                items_from(raw@, 0) == strings_view(items@) + items_from(raw@, pos as int),
            decreases raw@.len() - pos,
        {
            let comma = find_char(raw, ',', pos);
            proof {
                lemma_items_step(raw@, pos as int);
            }
            let end = match comma {
                Some(i) => i,
                None => raw.len(),
            };
            let (a, b) = trim_bounds(raw, pos, end);
            let ghost before = strings_view(items@);
            if a < b {
                let item = string_of(&slice_vec(raw, a, b));
                items.push(item);
                assert(strings_view(items@) =~= before.push(raw@.subrange(a as int, b as int)));
            }
            assert(strings_view(items@) =~= before + item_of(raw@.subrange(pos as int, end as int)));
            match comma {
                Some(i) => {
                    assert(find_char_from(raw@, ',', pos as int) == Some(i as int));
                    assert(i < raw.len());
                    assert(items_from(raw@, 0) =~= strings_view(items@) + items_from(raw@, i + 1));
                    pos = i + 1;
                },
                None => {
                    assert(items_from(raw@, 0) =~= strings_view(items@));
                    if items.len() == 0 {
                        return None;
                    }
                    return Some(items);
                },
            }
        }
    }

    /// A setting read as a comma-separated list.
    pub fn field_list(m: &KvMap, key: &str) -> (r: Option<Vec<String>>)
        ensures
            opt_strings_view(r) == lookup_list(m@, key@),
    {
        match m.get_str(key) {
            Some(v) => Self::opt_list(v),
            None => None,
        }
    }
}

} // verus!
