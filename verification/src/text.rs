//! Small string primitives shared by the rest of the crate: equality,
//! Unicode whitespace, trimming, word counting, ASCII case folding,
//! decimal rendering of integers, and joining.

use vstd::prelude::*;
use vstd::string::*;

verus! {

/// Character-wise equality of two string slices.
pub fn str_eq(a: &str, b: &str) -> (r: bool)
    ensures
        r == (a@ == b@),
{
    let x = String::from_str(a);
    let y = String::from_str(b);
    x == y
}

/// Copy a slice into an owned `String`.
pub fn to_owned_string(s: &str) -> (r: String)
    ensures
        r@ == s@,
{
    String::from_str(s)
}

/// True for `[A-Za-z0-9]`.
pub open spec fn is_ascii_alnum(c: char) -> bool {
    ('a' <= c && c <= 'z') || ('A' <= c && c <= 'Z') || ('0' <= c && c <= '9')
}

pub fn char_is_ascii_alnum(c: char) -> (r: bool)
    ensures
        r == is_ascii_alnum(c),
{
    ('a' <= c && c <= 'z') || ('A' <= c && c <= 'Z') || ('0' <= c && c <= '9')
}

/// The Unicode `White_Space` property, as `char::is_whitespace` documents it.
pub open spec fn is_ws(c: char) -> bool {
    ('\u{9}' <= c && c <= '\u{d}') || c == ' ' || c == '\u{85}' || c == '\u{a0}' || c
        == '\u{1680}' || ('\u{2000}' <= c && c <= '\u{200a}') || c == '\u{2028}' || c
        == '\u{2029}' || c == '\u{202f}' || c == '\u{205f}' || c == '\u{3000}'
}

pub fn char_is_ws(c: char) -> (r: bool)
    ensures
        r == is_ws(c),
{
    ('\u{9}' <= c && c <= '\u{d}') || c == ' ' || c == '\u{85}' || c == '\u{a0}' || c
        == '\u{1680}' || ('\u{2000}' <= c && c <= '\u{200a}') || c == '\u{2028}' || c
        == '\u{2029}' || c == '\u{202f}' || c == '\u{205f}' || c == '\u{3000}'
}

/// Every character is whitespace (so trimming leaves nothing).
pub open spec fn is_blank(s: Seq<char>) -> bool {
    forall|i: int| 0 <= i < s.len() ==> is_ws(#[trigger] s[i])
}

pub fn str_is_blank(s: &str) -> (r: bool)
    ensures
        r == is_blank(s@),
{
    let n = s.unicode_len();
    let mut i: usize = 0;
    while i < n
        invariant
            n == s@.len(),
            i <= n,
            forall|j: int| 0 <= j < i ==> is_ws(#[trigger] s@[j]),
        decreases n - i,
    {
        if !char_is_ws(s.get_char(i)) {
            return false;
        }
        i = i + 1;
    }
    true
}

/// Index of the first non-whitespace character.
pub open spec fn is_first_non_ws(s: Seq<char>, a: int) -> bool {
    &&& 0 <= a < s.len()
    &&& !is_ws(s[a])
    &&& forall|j: int| 0 <= j < a ==> is_ws(#[trigger] s[j])
}

/// Index just past the last non-whitespace character.
pub open spec fn is_end_non_ws(s: Seq<char>, b: int) -> bool {
    &&& 0 < b <= s.len()
    &&& !is_ws(s[b - 1])
    &&& forall|j: int| b <= j < s.len() ==> is_ws(#[trigger] s[j])
}

/// `str::trim`: the string without leading and trailing whitespace.
pub open spec fn spec_trim(s: Seq<char>) -> Seq<char> {
    if is_blank(s) {
        Seq::empty()
    } else {
        let a = choose|a: int| is_first_non_ws(s, a);
        let b = choose|b: int| is_end_non_ws(s, b);
        s.subrange(a, b)
    }
}

proof fn lemma_first_unique(s: Seq<char>, a: int, a2: int)
    requires
        is_first_non_ws(s, a),
        is_first_non_ws(s, a2),
    ensures
        a == a2,
{
    if a < a2 {
        assert(is_ws(s[a]));
    }
    if a2 < a {
        assert(is_ws(s[a2]));
    }
}

proof fn lemma_end_unique(s: Seq<char>, b: int, b2: int)
    requires
        is_end_non_ws(s, b),
        is_end_non_ws(s, b2),
    ensures
        b == b2,
{
    if b < b2 {
        assert(is_ws(s[b2 - 1]));
    }
    if b2 < b {
        assert(is_ws(s[b - 1]));
    }
}

pub fn trim(s: &str) -> (r: &str)
    ensures
        r@ == spec_trim(s@),
{
    let n = s.unicode_len();
    let mut a: usize = 0;
    while a < n && char_is_ws(s.get_char(a))
        invariant
            n == s@.len(),
            a <= n,
            forall|j: int| 0 <= j < a ==> is_ws(#[trigger] s@[j]),
        decreases n - a,
    {
        a = a + 1;
    }
    if a == n {
        assert(is_blank(s@));
        proof {
            reveal_strlit("");
        }
        return "";
    }
    assert(is_first_non_ws(s@, a as int));
    let mut b: usize = n;
    while b > a && char_is_ws(s.get_char(b - 1))
        invariant
            n == s@.len(),
            a < b <= n,
            is_first_non_ws(s@, a as int),
            forall|j: int| b <= j < n ==> is_ws(#[trigger] s@[j]),
        decreases b,
    {
        b = b - 1;
    }
    proof {
        assert(b > a);
        assert(is_end_non_ws(s@, b as int));
        assert(!is_blank(s@)) by {
            assert(!is_ws(s@[a as int]));
        }
        let ca = choose|x: int| is_first_non_ws(s@, x);
        let cb = choose|x: int| is_end_non_ws(s@, x);
        lemma_first_unique(s@, a as int, ca);
        lemma_end_unique(s@, b as int, cb);
    }
    s.substring_char(a, b)
}

/// Number of indices below `n` where a whitespace-separated word starts.
pub open spec fn word_starts(s: Seq<char>, n: int) -> nat
    decreases n,
{
    if n <= 0 {
        0
    } else {
        let i = n - 1;
        word_starts(s, i) + if !is_ws(s[i]) && (i == 0 || is_ws(s[i - 1])) {
            1nat
        } else {
            0nat
        }
    }
}

/// `s.split_whitespace().count()`.
pub open spec fn spec_word_count(s: Seq<char>) -> nat {
    word_starts(s, s.len() as int)
}

proof fn lemma_word_starts_le(s: Seq<char>, n: int)
    requires
        0 <= n,
    ensures
        word_starts(s, n) <= n,
    decreases n,
{
    if n > 0 {
        lemma_word_starts_le(s, n - 1);
    }
}

pub fn word_count(s: &str) -> (r: usize)
    ensures
        r == spec_word_count(s@),
{
    let n = s.unicode_len();
    let mut count: usize = 0;
    let mut prev_ws = true;
    let mut i: usize = 0;
    while i < n
        invariant
            n == s@.len(),
            i <= n,
            count == word_starts(s@, i as int),
            prev_ws == (i == 0 || is_ws(s@[i - 1])),
        decreases n - i,
    {
        let c = s.get_char(i);
        let w = char_is_ws(c);
        proof {
            lemma_word_starts_le(s@, i as int);
        }
        if !w && prev_ws {
            count = count + 1;
        }
        prev_ws = w;
        i = i + 1;
    }
    count
}

/// ASCII case folding of one character, as a code point.
pub open spec fn lower_code(c: char) -> u32 {
    if 'A' <= c && c <= 'Z' {
        (c as u32 + 32) as u32
    } else {
        c as u32
    }
}

pub fn char_lower_code(c: char) -> (r: u32)
    ensures
        r == lower_code(c),
{
    let u = c as u32;
    if 'A' <= c && c <= 'Z' {
        u + 32
    } else {
        u
    }
}

/// `a.to_ascii_lowercase() == b.to_ascii_lowercase()`.
pub open spec fn ascii_eq_ignore_case(a: Seq<char>, b: Seq<char>) -> bool {
    &&& a.len() == b.len()
    &&& forall|i: int| 0 <= i < a.len() ==> lower_code(#[trigger] a[i]) == lower_code(b[i])
}

pub fn str_eq_ignore_ascii_case(a: &str, b: &str) -> (r: bool)
    ensures
        r == ascii_eq_ignore_case(a@, b@),
{
    let n = a.unicode_len();
    let m = b.unicode_len();
    if n != m {
        return false;
    }
    let mut i: usize = 0;
    while i < n
        invariant
            n == a@.len(),
            n == b@.len(),
            i <= n,
            forall|j: int| 0 <= j < i ==> lower_code(#[trigger] a@[j]) == lower_code(b@[j]),
        decreases n - i,
    {
        if char_lower_code(a.get_char(i)) != char_lower_code(b.get_char(i)) {
            return false;
        }
        i = i + 1;
    }
    true
}

/// The decimal digit `d` as a one-character string.
pub open spec fn digit_str(d: nat) -> Seq<char> {
    if d == 0 {
        "0"@
    } else if d == 1 {
        "1"@
    } else if d == 2 {
        "2"@
    } else if d == 3 {
        "3"@
    } else if d == 4 {
        "4"@
    } else if d == 5 {
        "5"@
    } else if d == 6 {
        "6"@
    } else if d == 7 {
        "7"@
    } else if d == 8 {
        "8"@
    } else {
        "9"@
    }
}

/// Decimal rendering of a natural number, most significant digit first.
pub open spec fn nat_decimal(n: nat) -> Seq<char>
    decreases n,
{
    if n < 10 {
        digit_str(n)
    } else {
        nat_decimal(n / 10) + digit_str(n % 10)
    }
}

/// `Display` of a signed integer: a `-` before the magnitude when negative.
pub open spec fn int_decimal(n: int) -> Seq<char> {
    if n < 0 {
        "-"@ + nat_decimal((-n) as nat)
    } else {
        nat_decimal(n as nat)
    }
}

fn digit_text(d: u64) -> (r: &'static str)
    requires
        d < 10,
    ensures
        r@ == digit_str(d as nat),
{
    if d == 0 {
        "0"
    } else if d == 1 {
        "1"
    } else if d == 2 {
        "2"
    } else if d == 3 {
        "3"
    } else if d == 4 {
        "4"
    } else if d == 5 {
        "5"
    } else if d == 6 {
        "6"
    } else if d == 7 {
        "7"
    } else if d == 8 {
        "8"
    } else {
        "9"
    }
}

/// Append the decimal digits of `n` to `out`.
pub fn push_u64_decimal(out: &mut String, n: u64)
    ensures
        final(out)@ == old(out)@ + nat_decimal(n as nat),
    decreases n,
{
    if n < 10 {
        out.append(digit_text(n));
    } else {
        push_u64_decimal(out, n / 10);
        out.append(digit_text(n % 10));
        proof {
            assert(old(out)@ + nat_decimal((n / 10) as nat) + digit_str((n % 10) as nat)
                =~= old(out)@ + nat_decimal(n as nat));
        }
    }
}

/// Append `n` as `i64::to_string` renders it.
pub fn push_i64_decimal(out: &mut String, n: i64)
    ensures
        final(out)@ == old(out)@ + int_decimal(n as int),
{
    if n < 0 {
        out.append("-");
        let m: u64 = if n == i64::MIN {
            9223372036854775808u64
        } else {
            (-n) as u64
        };
        push_u64_decimal(out, m);
        proof {
            assert(old(out)@ + "-"@ + nat_decimal(m as nat) =~= old(out)@ + int_decimal(
                n as int,
            ));
        }
    } else {
        push_u64_decimal(out, n as u64);
    }
}

/// `i64::to_string`.
pub fn i64_to_decimal(n: i64) -> (r: String)
    ensures
        r@ == int_decimal(n as int),
{
    let mut s = String::new();
    push_i64_decimal(&mut s, n);
    proof {
        assert(Seq::<char>::empty() + int_decimal(n as int) =~= int_decimal(n as int));
    }
    s
}

/// `parts.join(sep)`.
pub open spec fn spec_join(parts: Seq<Seq<char>>, sep: Seq<char>) -> Seq<char>
    decreases parts.len(),
{
    if parts.len() == 0 {
        Seq::empty()
    } else if parts.len() == 1 {
        parts[0]
    } else {
        spec_join(parts.drop_last(), sep) + sep + parts.last()
    }
}

/// The views of a vector of strings.
pub open spec fn views(v: Seq<String>) -> Seq<Seq<char>> {
    v.map_values(|s: String| s@)
}

pub fn join_strings(parts: &Vec<String>, sep: &str) -> (r: String)
    ensures
        r@ == spec_join(views(parts@), sep@),
{
    let mut out = String::new();
    let mut i: usize = 0;
    while i < parts.len()
        invariant
            i <= parts.len(),
            out@ == spec_join(views(parts@.take(i as int)), sep@),
        decreases parts.len() - i,
    {
        proof {
            assert(views(parts@.take(i + 1)).drop_last() =~= views(parts@.take(i as int)));
            assert(views(parts@.take(i + 1)).last() == parts@[i as int]@);
        }
        if i > 0 {
            out.append(sep);
        } else {
            assert(out@ =~= Seq::<char>::empty());
        }
        out.append(parts[i].as_str());
        i = i + 1;
    }
    assert(parts@.take(parts@.len() as int) =~= parts@);
    out
}

/// `s.contains(c)` for a single character.
pub open spec fn has_char(s: Seq<char>, c: char) -> bool {
    exists|i: int| 0 <= i < s.len() && s[i] == c
}

/// Position of the first occurrence of `c`, as `str::split_once` uses it.
pub fn find_char(s: &str, c: char) -> (r: Option<usize>)
    ensures
        match r {
            Some(i) => i < s@.len() && s@[i as int] == c && forall|j: int|
                0 <= j < i ==> s@[j] != c,
            None => !has_char(s@, c),
        },
{
    let n = s.unicode_len();
    let mut i: usize = 0;
    while i < n
        invariant
            n == s@.len(),
            i <= n,
            forall|j: int| 0 <= j < i ==> s@[j] != c,
        decreases n - i,
    {
        if s.get_char(i) == c {
            return Some(i);
        }
        i = i + 1;
    }
    None
}

/// First index of `c` in `s`, when there is one.
pub open spec fn first_index(s: Seq<char>, c: char) -> int
    recommends
        has_char(s, c),
{
    choose|i: int| 0 <= i < s.len() && s[i] == c && forall|j: int| 0 <= j < i ==> s[j] != c
}

pub proof fn lemma_first_index(s: Seq<char>, c: char, i: int)
    requires
        0 <= i < s.len(),
        s[i] == c,
        forall|j: int| 0 <= j < i ==> s[j] != c,
    ensures
        first_index(s, c) == i,
{
    let k = first_index(s, c);
    assert(0 <= k < s.len() && s[k] == c && forall|j: int| 0 <= j < k ==> s[j] != c);
    if k < i {
        assert(s[k] != c);
    }
    if i < k {
        assert(s[i] != c);
    }
}

/// When `c` occurs, a first occurrence exists.
pub proof fn lemma_first_index_exists(s: Seq<char>, c: char, k: int)
    requires
        0 <= k < s.len(),
        s[k] == c,
    ensures
        0 <= first_index(s, c) <= k,
        s[first_index(s, c)] == c,
        forall|j: int| 0 <= j < first_index(s, c) ==> s[j] != c,
    decreases k,
{
    if exists|j: int| 0 <= j < k && s[j] == c {
        let j = choose|j: int| 0 <= j < k && s[j] == c;
        lemma_first_index_exists(s, c, j);
    } else {
        lemma_first_index(s, c, k);
    }
}

/// The text before the first `c` (empty when there is none).
pub open spec fn split_left(s: Seq<char>, c: char) -> Seq<char> {
    match spec_split_once(s, c) {
        Some((a, _)) => a,
        None => Seq::empty(),
    }
}

/// The text after the first `c` (empty when there is none).
pub open spec fn split_right(s: Seq<char>, c: char) -> Seq<char> {
    match spec_split_once(s, c) {
        Some((_, b)) => b,
        None => Seq::empty(),
    }
}

/// The two sides of a split are shorter than the whole.
pub proof fn lemma_split_lengths(s: Seq<char>, c: char)
    requires
        spec_split_once(s, c) is Some,
    ensures
        split_left(s, c).len() < s.len(),
        split_right(s, c).len() < s.len(),
{
    let k = choose|i: int| 0 <= i < s.len() && s[i] == c;
    lemma_first_index_exists(s, c, k);
}

/// `str::split_once(c)`: the text before and after the first `c`.
pub open spec fn spec_split_once(s: Seq<char>, c: char) -> Option<(Seq<char>, Seq<char>)> {
    if has_char(s, c) {
        let i = first_index(s, c);
        Some((s.take(i), s.skip(i + 1)))
    } else {
        None
    }
}

pub fn split_once<'a>(s: &'a str, c: char) -> (r: Option<(&'a str, &'a str)>)
    ensures
        match r {
            Some((x, y)) => spec_split_once(s@, c) == Some((x@, y@)) && x@.len() + y@.len() + 1
                == s@.len(),
            None => spec_split_once(s@, c) is None,
        },
{
    match find_char(s, c) {
        Some(i) => {
            proof {
                lemma_first_index(s@, c, i as int);
            }
            let n = s.unicode_len();
            let left = s.substring_char(0, i);
            let right = s.substring_char(i + 1, n);
            assert(left@ =~= s@.take(i as int));
            assert(right@ =~= s@.skip(i + 1));
            Some((left, right))
        },
        None => None,
    }
}

/// `s.ends_with(suffix)`.
pub open spec fn ends_with(s: Seq<char>, suffix: Seq<char>) -> bool {
    suffix.len() <= s.len() && s.skip(s.len() - suffix.len()) == suffix
}

pub fn str_ends_with(s: &str, suffix: &str) -> (r: bool)
    ensures
        r == ends_with(s@, suffix@),
{
    let n = s.unicode_len();
    let m = suffix.unicode_len();
    if m > n {
        return false;
    }
    let tail = s.substring_char(n - m, n);
    assert(tail@ =~= s@.skip(n - m));
    str_eq(tail, suffix)
}

/// An owned copy of an optional string.
pub fn clone_opt_string(o: &Option<String>) -> (r: Option<String>)
    ensures
        r == *o,
{
    match o {
        Some(s) => Some(s.clone()),
        None => None,
    }
}

/// An owned copy of a list of strings.
pub fn clone_strings(v: &Vec<String>) -> (r: Vec<String>)
    ensures
        r@ == v@,
{
    let mut out: Vec<String> = Vec::new();
    let mut i: usize = 0;
    while i < v.len()
        invariant
            i <= v.len(),
            out@ == v@.take(i as int),
        decreases v.len() - i,
    {
        out.push(v[i].clone());
        i = i + 1;
        assert(out@ =~= v@.take(i as int));
    }
    assert(v@.take(v@.len() as int) =~= v@);
    out
}

/// `needle` occurs in `hay` (the empty text occurs everywhere).
pub open spec fn contains_text(hay: Seq<char>, needle: Seq<char>) -> bool {
    exists|i: int| 0 <= i <= hay.len() - needle.len() && #[trigger] hay.subrange(i, i + needle.len()) == needle
}

/// `str::contains` for a text pattern.
pub fn str_contains(hay: &str, needle: &str) -> (r: bool)
    ensures
        r == contains_text(hay@, needle@),
{
    let n = hay.unicode_len();
    let m = needle.unicode_len();
    if m > n {
        return false;
    }
    let mut i: usize = 0;
    while i <= n - m
        invariant
            n == hay@.len(),
            m == needle@.len(),
            m <= n,
            i <= n - m + 1,
            forall|k: int| 0 <= k < i ==> #[trigger] hay@.subrange(k, k + m) != needle@,
        decreases n - m + 1 - i,
    {
        let mut k: usize = 0;
        let mut same = true;
        while k < m
            invariant
                n == hay@.len(),
                m == needle@.len(),
                i + m <= n,
                k <= m,
                same == (forall|t: int| 0 <= t < k ==> hay@[i + t] == needle@[t]),
            decreases m - k,
        {
            if hay.get_char(i + k) != needle.get_char(k) {
                same = false;
            }
            k = k + 1;
        }
        if same {
            assert(hay@.subrange(i as int, i + m) =~= needle@);
            return true;
        }
        proof {
            let t = choose|t: int| 0 <= t < m && hay@[i + t] != needle@[t];
            assert(hay@.subrange(i as int, i + m)[t] == hay@[i + t]);
        }
        i = i + 1;
    }
    false
}

/// How many bytes UTF-8 takes for a character.
pub open spec fn char_utf8_len(c: char) -> nat {
    if (c as u32) < 0x80 {
        1
    } else if (c as u32) < 0x800 {
        2
    } else if (c as u32) < 0x10000 {
        3
    } else {
        4
    }
}

/// The longest prefix of `s` whose UTF-8 encoding takes at most `max`
/// bytes: whole characters are kept while they fit.
pub open spec fn truncate_from(s: Seq<char>, max: nat) -> Seq<char>
    decreases s.len(),
{
    if s.len() == 0 || char_utf8_len(s[0]) > max {
        Seq::empty()
    } else {
        seq![s[0]] + truncate_from(s.drop_first(), (max - char_utf8_len(s[0])) as nat)
    }
}

/// How many bytes UTF-8 takes for a text.
pub open spec fn utf8_len(s: Seq<char>) -> nat
    decreases s.len(),
{
    if s.len() == 0 {
        0
    } else {
        char_utf8_len(s[0]) + utf8_len(s.drop_first())
    }
}

proof fn lemma_truncate_fits(s: Seq<char>, max: nat)
    ensures
        utf8_len(truncate_from(s, max)) <= max,
    decreases s.len(),
{
    if s.len() > 0 && char_utf8_len(s[0]) <= max {
        let rest = (max - char_utf8_len(s[0])) as nat;
        lemma_truncate_fits(s.drop_first(), rest);
        let t = truncate_from(s, max);
        assert(t[0] == s[0]);
        assert(t.drop_first() =~= truncate_from(s.drop_first(), rest));
    }
}

proof fn lemma_truncate_prefix(s: Seq<char>, max: nat)
    ensures
        truncate_from(s, max).len() <= s.len(),
        s.take(truncate_from(s, max).len() as int) == truncate_from(s, max),
    decreases s.len(),
{
    if s.len() > 0 && char_utf8_len(s[0]) <= max {
        let rest = (max - char_utf8_len(s[0])) as nat;
        lemma_truncate_prefix(s.drop_first(), rest);
        let t = truncate_from(s.drop_first(), rest);
        assert(s.take(t.len() + 1int) =~= seq![s[0]] + s.drop_first().take(t.len() as int));
    }
}

fn char_utf8_width(c: char) -> (r: usize)
    ensures
        r == char_utf8_len(c),
{
    let n = c as u32;
    if n < 0x80 {
        1
    } else if n < 0x800 {
        2
    } else if n < 0x10000 {
        3
    } else {
        4
    }
}

/// Cut a text to at most `max` bytes of UTF-8 without splitting a
/// character: the longest such prefix.
pub fn truncate_to_bytes(s: &str, max: usize) -> (r: &str)
    ensures
        r@ == truncate_from(s@, max as nat),
        s@.take(r@.len() as int) == r@,
        utf8_len(r@) <= max,
{
    let n = s.unicode_len();
    let mut i: usize = 0;
    let mut room: usize = max;
    proof {
        assert(s@.skip(0) =~= s@);
        assert(s@.take(0) + truncate_from(s@, max as nat) =~= truncate_from(s@, max as nat));
    }
    loop
        invariant
            n == s@.len(),
            i <= n,
            room <= max,
            truncate_from(s@, max as nat) == s@.take(i as int) + truncate_from(
                s@.skip(i as int),
                room as nat,
            ),
        ensures
            i <= n,
            truncate_from(s@, max as nat) == s@.take(i as int),
        decreases n - i,
    {
        if i == n {
            proof {
                assert(s@.skip(n as int) =~= Seq::<char>::empty());
                assert(s@.take(i as int) + Seq::<char>::empty() =~= s@.take(i as int));
            }
            break;
        }
        let w = char_utf8_width(s.get_char(i));
        if w > room {
            proof {
                assert(s@.skip(i as int)[0] == s@[i as int]);
                assert(s@.take(i as int) + Seq::<char>::empty() =~= s@.take(i as int));
            }
            break;
        }
        proof {
            let t = s@.skip(i as int);
            assert(t[0] == s@[i as int]);
            assert(t.drop_first() =~= s@.skip(i + 1));
            assert(s@.take(i + 1) =~= s@.take(i as int) + seq![s@[i as int]]);
            assert(s@.take(i as int) + (seq![s@[i as int]] + truncate_from(
                s@.skip(i + 1),
                (room - w) as nat,
            )) =~= s@.take(i + 1) + truncate_from(s@.skip(i + 1), (room - w) as nat));
        }
        room = room - w;
        i = i + 1;
    }
    proof {
        assert(s@.take(i as int) =~= s@.subrange(0, i as int));
        lemma_truncate_prefix(s@, max as nat);
        lemma_truncate_fits(s@, max as nat);
    }
    s.substring_char(0, i)
}

} // verus!
