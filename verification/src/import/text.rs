//! Readers for the two non-XML native config formats: Eclipse's
//! `.settings/org.eclipse.jdt.core.prefs` (a Java *properties* file) and IntelliJ's
//! `.editorconfig` (an INI-like file). Both lower to a flat `key → value` [`KvMap`] that the
//! typed models are then read from.

use vstd::prelude::*;

use crate::import::kv::KvMap;
use crate::strs::{
    char_is_ascii_alnum, find_char, find_char_from, find_seq_from, has_char, is_ascii_alnum,
    lemma_find_from_none_all, lemma_find_from_props, lemma_find_char_props, lemma_rfind_char_props, occurs_at, rfind_char, rfind_char_exec,
    to_lowercase, trim, trim_bounds, unicode_lower,
    back_ws, char_from_u32, chars_of, first_line, has_prefix, is_scalar, lemma_first_line_shrinks, next_line,
    skip_ws, slice_vec, starts_with, trim_end, trim_start,
};

verus! {

/// Prefix shared by every Eclipse formatter setting id (`org.eclipse.jdt.core.formatter.*`). A
/// `.prefs` file also carries `compiler.*` / `codeComplete.*` namespaces that are dropped.
pub const ECLIPSE_FORMATTER_PREFIX: &'static str = "org.eclipse.jdt.core.formatter.";

/// Apply an optional write to a map.
pub open spec fn apply(acc: Map<Seq<char>, Seq<char>>, entry: Option<(Seq<char>, Seq<char>)>) -> Map<Seq<char>, Seq<char>> {
    match entry {
        Some((k, v)) => acc.insert(k, v),
        None => acc,
    }
}

// ------------------------------------------------------------------------------------------
// Java properties
// ------------------------------------------------------------------------------------------

/// The index of the first `=` or `:` in `s` at or after `i` that no `\` escapes.
pub open spec fn sep_index(s: Seq<char>, i: int, escaped: bool) -> Option<int>
    decreases s.len() - i,
{
    if i < 0 || i >= s.len() {
        None
    } else if escaped {
        sep_index(s, i + 1, false)
    } else if s[i] == '\\' {
        sep_index(s, i + 1, true)
    } else if s[i] == '=' || s[i] == ':' {
        Some(i)
    } else {
        sep_index(s, i + 1, false)
    }
}

/// A properties line split at its first unescaped `=` or `:` into a trimmed key and value.
pub open spec fn split_spec(line: Seq<char>) -> Option<(Seq<char>, Seq<char>)> {
    match sep_index(line, 0, false) {
        Some(i) => Some((trim_end(line.subrange(0, i)), trim_start(line.skip(i + 1)))),
        None => None,
    }
}

/// The value of a hexadecimal digit.
pub open spec fn hex_digit(c: char) -> Option<int> {
    if '0' <= c && c <= '9' {
        Some(c as int - '0' as int)
    } else if 'a' <= c && c <= 'f' {
        Some(c as int - 'a' as int + 10)
    } else if 'A' <= c && c <= 'F' {
        Some(c as int - 'A' as int + 10)
    } else {
        None
    }
}

/// Every character of `d` is a hexadecimal digit.
pub open spec fn all_hex(d: Seq<char>) -> bool {
    forall|i: int| 0 <= i < d.len() ==> hex_digit(#[trigger] d[i]) is Some
}

/// The number the hexadecimal digits `d` spell.
pub open spec fn hex_digits_value(d: Seq<char>) -> int
    decreases d.len(),
{
    if d.len() == 0 {
        0
    } else {
        hex_digits_value(d.drop_last()) * 16 + hex_digit(d.last()).unwrap()
    }
}

/// `u32::from_str_radix(h, 16)` for the at most four characters `h`: an optional `+`, then one
/// or more hexadecimal digits.
pub open spec fn hex_value(h: Seq<char>) -> Option<int> {
    let d = if h.len() > 0 && h[0] == '+' { h.drop_first() } else { h };
    if d.len() > 0 && all_hex(d) {
        Some(hex_digits_value(d))
    } else {
        None
    }
}

/// The character a one-letter escape stands for.
pub open spec fn escaped_char(e: char) -> char {
    if e == 't' {
        '\t'
    } else if e == 'n' {
        '\n'
    } else if e == 'r' {
        '\r'
    } else if e == 'f' {
        '\u{0C}'
    } else {
        e
    }
}

/// A properties value with its `\uXXXX` / `\t` / `\n` / `\r` / `\f` / `\<c>` escapes decoded.
///
/// `\u` takes the next four characters (fewer at the end of the value); when they are not a
/// hexadecimal scalar value they are dropped. A trailing lone `\` is dropped.
pub open spec fn unescape_spec(s: Seq<char>) -> Seq<char>
    decreases s.len(),
{
    if s.len() == 0 {
        Seq::empty()
    } else if s[0] != '\\' {
        seq![s[0]] + unescape_spec(s.drop_first())
    } else if s.len() == 1 {
        Seq::empty()
    } else if s[1] == 'u' {
        let end = if s.len() < 6 { s.len() as int } else { 6 };
        let rest = unescape_spec(s.skip(end));
        match hex_value(s.subrange(2, end)) {
            Some(v) => if is_scalar(v) {
                seq![v as char] + rest
            } else {
                rest
            },
            None => rest,
        }
    } else {
        seq![escaped_char(s[1])] + unescape_spec(s.skip(2))
    }
}

/// The setting one properties line contributes, if any.
pub open spec fn property_entry(line: Seq<char>) -> Option<(Seq<char>, Seq<char>)> {
    let line = trim_start(line);
    if line.len() == 0 || line[0] == '#' || line[0] == '!' {
        None
    } else {
        match split_spec(line) {
            Some((k, v)) => if starts_with(k, ECLIPSE_FORMATTER_PREFIX@) {
                Some((k, unescape_spec(v)))
            } else {
                None
            },
            None => None,
        }
    }
}

/// The settings the lines of `rest` add to `acc`.
pub open spec fn properties_from(acc: Map<Seq<char>, Seq<char>>, rest: Seq<char>) -> Map<Seq<char>, Seq<char>>
    decreases rest.len(),
{
    if rest.len() == 0 {
        acc
    } else {
        proof {
            lemma_first_line_shrinks(rest);
        }
        properties_from(apply(acc, property_entry(first_line(rest).0)), first_line(rest).1)
    }
}

/// The formatter settings of a properties file.
pub open spec fn properties_spec(src: Seq<char>) -> Map<Seq<char>, Seq<char>> {
    properties_from(Map::empty(), src)
}

/// Reader for a Java *properties* file (Eclipse `.prefs`).
pub struct Properties;

impl Properties {
    /// Parse a properties file, keeping only formatter settings.
    ///
    /// Java properties rules honored for the formatter subset: `#` / `!` line comments, `=` or
    /// `:` key/value separator, and `\uXXXX` / `\:` / `\=` / `\\` escapes in the value. Line
    /// continuations (`\` at end of line) are not used by exported Eclipse prefs and are not
    /// handled. Only keys under [`ECLIPSE_FORMATTER_PREFIX`] are retained, under their full id.
    pub fn parse(src: &str) -> (r: KvMap)
        ensures
            r@ == properties_spec(src@),
    {
        let s = chars_of(src);
        let prefix = chars_of(ECLIPSE_FORMATTER_PREFIX);
        let mut out = KvMap::new();
        let mut start: usize = 0;
        assert(s@.skip(0) == s@);
        while start < s.len()
            invariant
                start <= s@.len(),
                prefix@ == ECLIPSE_FORMATTER_PREFIX@,
                properties_from(out@, s@.skip(start as int)) == properties_spec(src@),
                s@ == src@,
            decreases s@.len() - start,
        {
            let (lo, hi, next) = next_line(&s, start);
            let lo2 = skip_ws(&s, lo, hi);
            proof {
                assert(trim_start(first_line(s@.skip(start as int)).0) == s@.subrange(lo2 as int, hi as int));
            }
            if lo2 < hi && s[lo2] != '#' && s[lo2] != '!' {
                let line = slice_vec(&s, lo2, hi);
                match Self::split(&line) {
                    Some((klo, khi, vlo)) => {
                        let key = slice_vec(&line, klo, khi);
                        if has_prefix(&key, &prefix) {
                            let value = Self::unescape(&line, vlo);
                            out.insert_chars(key, value);
                        }
                    },
                    None => {},
                }
            }
            start = next;
        }
        assert(s@.skip(start as int).len() == 0);
        out
    }

    /// Split a properties line at its first unescaped `=` or `:`: the bounds of the trimmed key
    /// and where the trimmed value starts.
    pub fn split(line: &[char]) -> (r: Option<(usize, usize, usize)>)
        ensures
            match r {
                Some((klo, khi, vlo)) => klo <= khi <= vlo <= line@.len() && split_spec(line@) == Some((
                    line@.subrange(klo as int, khi as int),
                    line@.skip(vlo as int),
                )),
                None => split_spec(line@) is None,
            },
    {
        let mut escaped = false;
        let mut i: usize = 0;
        while i < line.len()
            invariant
                i <= line@.len(),
                sep_index(line@, i as int, escaped) == sep_index(line@, 0, false),
            decreases line@.len() - i,
        {
            if escaped {
                escaped = false;
            } else if line[i] == '\\' {
                escaped = true;
            } else if line[i] == '=' || line[i] == ':' {
                let khi = back_ws(line, 0, i);
                let vlo = skip_ws(line, i + 1, line.len());
                assert(line@.subrange(i + 1, line@.len() as int) == line@.skip(i + 1));
                assert(line@.subrange(vlo as int, line@.len() as int) == line@.skip(vlo as int));
                return Some((0, khi, vlo));
            }
            i += 1;
        }
        None
    }

    /// Decode the escapes of the value that starts at `from` in `line`.
    pub fn unescape(line: &[char], from: usize) -> (r: Vec<char>)
        requires
            from <= line@.len(),
        ensures
            r@ == unescape_spec(line@.skip(from as int)),
    {
        let mut out: Vec<char> = Vec::new();
        let mut i = from;
        while i < line.len()
            invariant
                from <= i <= line@.len(),
                out@ + unescape_spec(line@.skip(i as int)) == unescape_spec(line@.skip(from as int)),
            decreases line@.len() - i,
        {
            let ghost rest = line@.skip(i as int);
            let c = line[i];
            if c != '\\' {
                out.push(c);
                assert(rest.drop_first() == line@.skip(i + 1));
                i += 1;
            } else if i + 1 == line.len() {
                i += 1;
            } else if line[i + 1] == 'u' {
                let end = if line.len() - i < 6 { line.len() } else { i + 6 };
                assert(rest.skip(end - i) == line@.skip(end as int));
                assert(rest.subrange(2, end - i) == line@.subrange(i + 2, end as int));
                match Self::hex(line, i + 2, end) {
                    Some(v) => {
                        match char_from_u32(v) {
                            Some(d) => {
                                out.push(d);
                            },
                            None => {},
                        }
                    },
                    None => {},
                }
                i = end;
            } else {
                let e = line[i + 1];
                let d = if e == 't' {
                    '\t'
                } else if e == 'n' {
                    '\n'
                } else if e == 'r' {
                    '\r'
                } else if e == 'f' {
                    '\u{0C}'
                } else {
                    e
                };
                out.push(d);
                assert(rest.skip(2) == line@.skip(i + 2));
                i += 2;
            }
        }
        assert(line@.skip(i as int).len() == 0);
        out
    }

    /// `u32::from_str_radix(line[lo..hi], 16)` for at most four characters.
    fn hex(line: &[char], lo: usize, hi: usize) -> (r: Option<u32>)
        requires
            lo <= hi <= line@.len(),
            hi - lo <= 4,
        ensures
            match r {
                Some(v) => hex_value(line@.subrange(lo as int, hi as int)) == Some(v as int),
                None => hex_value(line@.subrange(lo as int, hi as int)) is None,
            },
    {
        let ghost h = line@.subrange(lo as int, hi as int);
        let start = if lo < hi && line[lo] == '+' { lo + 1 } else { lo };
        let ghost d = line@.subrange(start as int, hi as int);
        assert(d == (if h.len() > 0 && h[0] == '+' { h.drop_first() } else { h }));
        if start == hi {
            return None;
        }
        let mut v: u32 = 0;
        let mut i = start;
        while i < hi
            invariant
                lo <= start <= i <= hi <= line@.len(),
                hi - start <= 4,
                all_hex(line@.subrange(start as int, i as int)),
                v as int == hex_digits_value(line@.subrange(start as int, i as int)),
                v < pow16(i - start),
                d == line@.subrange(start as int, hi as int),
                h == line@.subrange(lo as int, hi as int),
                d == (if h.len() > 0 && h[0] == '+' { h.drop_first() } else { h }),
                d.len() > 0,
            decreases hi - i,
        {
            let c = line[i];
            let digit: u32 = if '0' <= c && c <= '9' {
                (c as u32) - ('0' as u32)
            } else if 'a' <= c && c <= 'f' {
                (c as u32) - ('a' as u32) + 10
            } else if 'A' <= c && c <= 'F' {
                (c as u32) - ('A' as u32) + 10
            } else {
                proof {
                    assert(d[i - start] == c);
                    assert(hex_digit(d[i - start]) is None);
                }
                return None;
            };
            proof {
                reveal_with_fuel(pow16, 5);
                assert(pow16(i + 1 - start) <= 65536);
                assert(line@.subrange(start as int, i + 1).drop_last() == line@.subrange(start as int, i as int));
                assert(v * 16 + digit < pow16(i + 1 - start)) by (nonlinear_arith)
                    requires
                        v < pow16(i - start),
                        digit < 16,
                        pow16(i + 1 - start) == pow16(i - start) * 16,
                ;
            }
            v = v * 16 + digit;
            i += 1;
        }
        Some(v)
    }
}

/// `16^n` for the small `n` a `\u` escape needs.
pub open spec fn pow16(n: int) -> int
    decreases n,
{
    if n <= 0 {
        1
    } else {
        pow16(n - 1) * 16
    }
}

} // verus!

verus! {

// ------------------------------------------------------------------------------------------
// .editorconfig
// ------------------------------------------------------------------------------------------

/// A comment character of a section header.
pub open spec fn is_comment_char(c: char) -> bool {
    c == '#' || c == ';'
}

/// The first index of a `#` or `;` in `s`.
pub open spec fn comment_index(s: Seq<char>) -> Option<int> {
    if exists|i: int| 0 <= i < s.len() && is_comment_char(s[i]) {
        Some(choose|i: int| 0 <= i < s.len() && is_comment_char(s[i]) && forall|j: int| 0 <= j < i ==> !is_comment_char(s[j]))
    } else {
        None
    }
}

/// A section-header line without its trailing `#` / `;` comment.
pub open spec fn strip_comment_spec(line: Seq<char>) -> Seq<char> {
    match comment_index(line) {
        Some(at) => trim_end(line.subrange(0, at)),
        None => line,
    }
}

/// `java` occurs at `i` as a whole glob segment that is not a directory component.
pub open spec fn java_at(h: Seq<char>, i: int) -> bool {
    &&& occurs_at(h, seq!['j', 'a', 'v', 'a'], i)
    &&& !(i > 0 && is_ascii_alnum(h[i - 1]))
    &&& !(i + 4 < h.len() && is_ascii_alnum(h[i + 4]))
    &&& !(i + 4 < h.len() && h[i + 4] == '/')
}

/// Whether `java` occurs in `h` as a whole glob segment that is not a directory component.
pub open spec fn names_java_spec(h: Seq<char>) -> bool {
    exists|i: int| java_at(h, i)
}

/// The file-name component of a glob: what follows its last `/`.
pub open spec fn file_component(h: Seq<char>) -> Seq<char> {
    match rfind_char(h, '/') {
        Some(k) => h.skip(k + 1),
        None => h,
    }
}

/// Whether the glob's file-name component names an extension at all.
pub open spec fn names_an_extension_spec(h: Seq<char>) -> bool {
    file_component(h).contains('.')
}

/// Whether an `.editorconfig` section header applies to `*.java` files.
pub open spec fn section_matches_java_spec(h: Seq<char>) -> bool {
    names_java_spec(h) || !names_an_extension_spec(h)
}

/// The section state a header line selects.
pub open spec fn header_selects_java(rest: Seq<char>) -> bool {
    let r = strip_comment_spec(rest);
    r.len() > 0 && r.last() == ']' && section_matches_java_spec(r.drop_last())
}

/// What one trimmed line does to the map and to the section state.
pub open spec fn editorconfig_step(acc: Map<Seq<char>, Seq<char>>, in_java: bool, line: Seq<char>) -> (Map<Seq<char>, Seq<char>>, bool) {
    if line.len() == 0 || line[0] == '#' || line[0] == ';' {
        (acc, in_java)
    } else if line[0] == '[' {
        (acc, header_selects_java(line.drop_first()))
    } else if !in_java {
        (acc, in_java)
    } else {
        match find_char_from(line, '=', 0) {
            Some(i) => (acc.insert(unicode_lower(trim(line.subrange(0, i))), trim(line.skip(i + 1))), in_java),
            None => (acc, in_java),
        }
    }
}

/// The properties the lines of `rest` add to `acc`, `in_java` telling whether the section open
/// when `rest` starts applies to Java.
pub open spec fn editorconfig_from(acc: Map<Seq<char>, Seq<char>>, in_java: bool, rest: Seq<char>) -> Map<Seq<char>, Seq<char>>
    decreases rest.len(),
{
    if rest.len() == 0 {
        acc
    } else {
        proof {
            lemma_first_line_shrinks(rest);
        }
        let (acc2, in2) = editorconfig_step(acc, in_java, trim(first_line(rest).0));
        editorconfig_from(acc2, in2, first_line(rest).1)
    }
}

/// Every property of an `.editorconfig` that applies to `*.java` files.
pub open spec fn editorconfig_spec(src: Seq<char>) -> Map<Seq<char>, Seq<char>> {
    editorconfig_from(Map::empty(), false, src)
}

/// Reader for an `.editorconfig` file (IntelliJ's primary form).
pub struct EditorConfig;

impl EditorConfig {
    /// Parse an `.editorconfig`, collecting every property that applies to `*.java` files.
    ///
    /// Sections are glob headers; a property applies to Java when its section matches a `*.java`
    /// path — approximated as `[*]` or any header whose glob names `java` as its extension. Later
    /// matching sections override earlier ones. Keys are lower-cased (per spec); values keep
    /// their case. `root = true` and non-matching sections are ignored.
    pub fn parse(src: &str) -> (r: KvMap)
        ensures
            r@ == editorconfig_spec(src@),
    {
        let s = chars_of(src);
        let mut out = KvMap::new();
        let mut in_java = false;
        let mut start: usize = 0;
        assert(s@.skip(0) == s@);
        while start < s.len()
            invariant
                start <= s@.len(),
                editorconfig_from(out@, in_java, s@.skip(start as int)) == editorconfig_spec(src@),
                s@ == src@,
            decreases s@.len() - start,
        {
            let (lo, hi, next) = next_line(&s, start);
            let (a, b) = trim_bounds(&s, lo, hi);
            let line = slice_vec(&s, a, b);
            in_java = Self::step(&mut out, in_java, &line);
            start = next;
        }
        assert(s@.skip(start as int).len() == 0);
        out
    }

    /// Apply one trimmed line to the map; the section state after it.
    fn step(out: &mut KvMap, in_java: bool, line: &[char]) -> (r: bool)
        ensures
            (final(out)@, r) == editorconfig_step(old(out)@, in_java, line@),
    {
        if line.len() == 0 || line[0] == '#' || line[0] == ';' {
            in_java
        } else if line[0] == '[' {
            let header = slice_vec(line, 1, line.len());
            assert(header@ == line@.drop_first());
            Self::header_selects_java(&header)
        } else if in_java {
            let found = find_char(line, '=', 0);
            proof {
                lemma_find_char_props(line@, '=', 0);
            }
            match found {
                Some(i) => {
                    let (ka, kb) = trim_bounds(line, 0, i);
                    let key = to_lowercase(&slice_vec(line, ka, kb));
                    let (va, vb) = trim_bounds(line, i + 1, line.len());
                    let value = slice_vec(line, va, vb);
                    assert(line@.subrange(i + 1, line@.len() as int) == line@.skip(i + 1));
                    out.insert_chars(key, value);
                },
                None => {},
            }
            in_java
        } else {
            in_java
        }
    }

    /// The section state a header line (after its `[`) selects.
    fn header_selects_java(rest: &[char]) -> (r: bool)
        ensures
            r == header_selects_java(rest@),
    {
        let stripped = Self::strip_comment(rest);
        if stripped.len() > 0 && stripped[stripped.len() - 1] == ']' {
            let glob = slice_vec(&stripped, 0, stripped.len() - 1);
            assert(glob@ == stripped@.drop_last());
            Self::section_matches_java(&glob)
        } else {
            false
        }
    }

    /// Drop a trailing `#` / `;` comment from a section-header line.
    pub fn strip_comment(line: &[char]) -> (r: Vec<char>)
        ensures
            r@ == strip_comment_spec(line@),
    {
        let mut i: usize = 0;
        while i < line.len()
            invariant
                i <= line@.len(),
                forall|j: int| 0 <= j < i ==> !is_comment_char(line@[j]),
            decreases line@.len() - i,
        {
            if line[i] == '#' || line[i] == ';' {
                proof {
                    let w = choose|k: int| 0 <= k < line@.len() && is_comment_char(line@[k]) && forall|j: int| 0 <= j < k ==> !is_comment_char(line@[j]);
                    assert(0 <= w < line@.len() && is_comment_char(line@[w]) && forall|j: int| 0 <= j < w ==> !is_comment_char(line@[j]));
                    if w < i as int {
                        assert(!is_comment_char(line@[w]));
                    } else if w > i as int {
                        assert(!is_comment_char(line@[i as int]));
                    }
                }
                let end = back_ws(line, 0, i);
                return slice_vec(line, 0, end);
            }
            i += 1;
        }
        let r = slice_vec(line, 0, line.len());
        assert(r@ == line@);
        r
    }

    /// Whether an `.editorconfig` section header applies to `*.java` files.
    ///
    /// The decision is taken from the **extension** the glob selects, never from a directory
    /// component: `[*.java]`, `[{*.java,*.kt}]`, `[*.{java,kt}]` match; `[*.javascript]`,
    /// `[*.jsp]`, `[*.kt]`, `[src/main/java/**/*.xml]` do not; `[*]`, `[**]`,
    /// `[src/main/java/**]` match, because they name no extension at all.
    pub fn section_matches_java(header: &[char]) -> (r: bool)
        ensures
            r == section_matches_java_spec(header@),
    {
        Self::names_java(header) || !Self::names_an_extension(header)
    }

    /// Whether `java` occurs in `header` as a whole glob segment that is not a directory
    /// component (`*.java`, `*.{java,kt}` — but not `java/**`).
    pub fn names_java(header: &[char]) -> (r: bool)
        ensures
            r == names_java_spec(header@),
    {
        let java = chars_of("java");
        proof {
            reveal_strlit("java");
            assert(java@ == seq!['j', 'a', 'v', 'a']);
        }
        let mut from: usize = 0;
        while from <= header.len()
            invariant
                java@ == seq!['j', 'a', 'v', 'a'],
                forall|i: int| 0 <= i < from ==> !java_at(header@, i),
            decreases header@.len() + 1 - from,
        {
            match find_seq_from(header, &java, from) {
                None => {
                    proof {
                        assert forall|i: int| from <= i implies !occurs_at(header@, java@, i) by {
                            lemma_find_from_none_all(header@, java@, from as int, i);
                        }
                    }
                    assert forall|i: int| #![auto] !java_at(header@, i) by {
                        if i >= from {
                            assert(!occurs_at(header@, java@, i));
                        }
                    }
                    return false;
                },
                Some(start) => {
                    proof {
                        lemma_find_from_props(header@, java@, from as int);
                    }
                    let end = start + 4;
                    let preceded = start > 0 && char_is_ascii_alnum(header[start - 1]);
                    let followed = end < header.len() && char_is_ascii_alnum(header[end]);
                    let slash = end < header.len() && header[end] == '/';
                    if !preceded && !followed && !slash {
                        assert(java_at(header@, start as int));
                        return true;
                    }
                    proof {
                        assert(!java_at(header@, start as int));
                        assert forall|i: int| 0 <= i < end implies !java_at(header@, i) by {
                            if from <= i < start {
                                assert(!occurs_at(header@, java@, i));
                            } else if start < i < end {
                                assert(header@[i] == header@.subrange(start as int, end as int)[i - start]);
                                assert(header@[i] != 'j');
                                assert(!occurs_at(header@, java@, i)) by {
                                    if occurs_at(header@, java@, i) {
                                        assert(header@.subrange(i, i + 4)[0] == 'j');
                                    }
                                }
                            }
                        }
                    }
                    from = end;
                },
            }
        }
        assert forall|i: int| #![auto] !java_at(header@, i) by {
            if i >= from {
                assert(!(i + 4 <= header@.len()));
            }
        }
        false
    }

    /// Whether the header's file-name component names an extension at all — `*.xml` does,
    /// `**` and `src/main/java/**` do not.
    pub fn names_an_extension(header: &[char]) -> (r: bool)
        ensures
            r == names_an_extension_spec(header@),
    {
        let found = rfind_char_exec(header, '/');
        proof {
            lemma_rfind_char_props(header@, '/');
        }
        match found {
            Some(k) => {
                assert(k < header.len());
                let file = slice_vec(header, k + 1, header.len());
                assert(file@ == header@.skip(k + 1));
                has_char(&file, '.')
            },
            None => has_char(header, '.'),
        }
    }
}

} // verus!
