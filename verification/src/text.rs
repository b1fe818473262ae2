//! Text helpers shared by the parsers and normalisers: conversions between
//! strings and character vectors, decimal formatting, trimming and ASCII
//! case handling.
use vstd::prelude::*;
use vstd::utf8::{decode_utf8, valid_utf8};

verus! {

/// The characters of `s`, in order.
pub(crate) fn str_chars(s: &str) -> (v: Vec<char>)
    ensures
        v@ == s@,
{
    broadcast use vstd::string::axiom_spec_iter;

    let mut v: Vec<char> = Vec::new();
    for c in it: s.chars()
        invariant
            v@ == it.seq().take(it.index() as int),
            it.seq() == s@,
    {
        v.push(c);
    }
    v
}

/// The string made of `chars`, in order: wraps collecting the characters
/// into a `String` (vstd states no way to add a character to a `String`).
#[verifier::external_body]
pub(crate) fn string_from_chars(chars: &[char]) -> (s: String)
    ensures
        s@ == chars@,
{
    chars.iter().collect()
}

/// The text that `String::from_utf8_lossy` makes of `bytes`.
pub uninterp spec fn utf8_lossy(bytes: Seq<u8>) -> Seq<char>;

/// Wraps `String::from_utf8_lossy`: valid UTF-8 is decoded as it stands;
/// invalid sequences are replaced by U+FFFD (which replacements are made is
/// named, not stated).
#[verifier::external_body]
pub(crate) fn from_utf8_lossy(bytes: &[u8]) -> (s: String)
    ensures
        s@ == utf8_lossy(bytes@),
        valid_utf8(bytes@) ==> s@ == decode_utf8(bytes@),
{
    String::from_utf8_lossy(bytes).into_owned()
}

/// Wraps `String::from_utf8`: `Some` exactly when `bytes` is valid UTF-8,
/// with the decoded text.
#[verifier::external_body]
pub(crate) fn from_utf8(bytes: Vec<u8>) -> (s: Option<String>)
    ensures
        s.is_some() == valid_utf8(bytes@),
        s matches Some(t) ==> t@ == decode_utf8(bytes@),
{
    String::from_utf8(bytes).ok()
}

/// The character of a decimal digit.
pub open spec fn digit_char(d: nat) -> char {
    ((d % 10) + 48) as char
}

/// The decimal representation of `n`, without sign or leading zeros.
pub open spec fn decimal(n: nat) -> Seq<char>
    decreases n,
{
    if n < 10 {
        seq![digit_char(n)]
    } else {
        decimal(n / 10).push(digit_char(n % 10))
    }
}

/// Formats `n` in decimal, as `Display` for integers does.
pub fn decimal_string(n: u128) -> (s: String)
    ensures
        s@ == decimal(n as nat),
{
    let mut digits: Vec<char> = Vec::new();
    let mut m: u128 = n;
    loop
        invariant_except_break
            decimal(n as nat) == decimal(m as nat) + digits@.reverse(),
        ensures
            decimal(n as nat) == digits@.reverse(),
        decreases m,
    {
        let c = char_from_digit((m % 10) as u32);
        let ghost old_digits = digits@;
        digits.push(c);
        proof {
            assert(digits@.reverse() =~= seq![c] + old_digits.reverse());
        }
        if m < 10 {
            proof {
                assert(decimal(m as nat) == seq![c]);
                assert(decimal(n as nat) =~= digits@.reverse());
            }
            break;
        }
        proof {
            assert(decimal(m as nat) == decimal((m / 10) as nat).push(c));
            assert(decimal((m / 10) as nat).push(c) + old_digits.reverse() =~= decimal(
                (m / 10) as nat,
            ) + digits@.reverse());
        }
        m = m / 10;
    }
    let mut rev: Vec<char> = Vec::new();
    let mut i: usize = digits.len();
    while i > 0
        invariant
            i <= digits@.len(),
            rev@ =~= digits@.subrange(i as int, digits@.len() as int).reverse(),
        decreases i,
    {
        i = i - 1;
        rev.push(digits[i]);
        proof {
            assert(digits@.subrange(i as int, digits@.len() as int).reverse() =~= digits@.subrange(
                i + 1,
                digits@.len() as int,
            ).reverse().push(digits@[i as int]));
        }
    }
    proof {
        assert(digits@.subrange(0, digits@.len() as int) =~= digits@);
    }
    string_from_chars(rev.as_slice())
}

/// The lower-case character of a hexadecimal digit.
pub open spec fn hex_char(d: nat) -> char {
    if d % 16 < 10 {
        ((d % 16) + 48) as char
    } else {
        ((d % 16) + 87) as char
    }
}

/// The lower-case hexadecimal representation of `n`, without leading zeros.
pub open spec fn hex(n: nat) -> Seq<char>
    decreases n,
{
    if n < 16 {
        seq![hex_char(n)]
    } else {
        hex(n / 16).push(hex_char(n % 16))
    }
}

/// The character of hexadecimal digit `d`.
fn char_from_hex_digit(d: u64) -> (c: char)
    requires
        d < 16,
    ensures
        c == hex_char(d as nat),
{
    if d < 10 {
        ((d + 48) as u8) as char
    } else {
        ((d + 87) as u8) as char
    }
}

/// Formats `n` in lower-case hexadecimal, as `{:x}` does.
pub fn hex_string(n: u64) -> (s: String)
    ensures
        s@ == hex(n as nat),
{
    let mut digits: Vec<char> = Vec::new();
    let mut m: u64 = n;
    loop
        invariant_except_break
            hex(n as nat) == hex(m as nat) + digits@.reverse(),
        ensures
            hex(n as nat) == digits@.reverse(),
        decreases m,
    {
        let c = char_from_hex_digit(m % 16);
        let ghost old_digits = digits@;
        digits.push(c);
        proof {
            assert(digits@.reverse() =~= seq![c] + old_digits.reverse());
        }
        if m < 16 {
            proof {
                assert(hex(m as nat) == seq![c]);
                assert(hex(n as nat) =~= digits@.reverse());
            }
            break;
        }
        proof {
            assert(hex(m as nat) == hex((m / 16) as nat).push(c));
            assert(hex((m / 16) as nat).push(c) + old_digits.reverse() =~= hex((m / 16) as nat)
                + digits@.reverse());
        }
        m = m / 16;
    }
    let mut rev: Vec<char> = Vec::new();
    let mut i: usize = digits.len();
    while i > 0
        invariant
            i <= digits@.len(),
            rev@ =~= digits@.subrange(i as int, digits@.len() as int).reverse(),
        decreases i,
    {
        i = i - 1;
        rev.push(digits[i]);
        proof {
            assert(digits@.subrange(i as int, digits@.len() as int).reverse() =~= digits@.subrange(
                i + 1,
                digits@.len() as int,
            ).reverse().push(digits@[i as int]));
        }
    }
    proof {
        assert(digits@.subrange(0, digits@.len() as int) =~= digits@);
    }
    string_from_chars(rev.as_slice())
}

fn char_from_digit(d: u32) -> (c: char)
    requires
        d < 10,
    ensures
        c == digit_char(d as nat),
{
    match d {
        0 => '0',
        1 => '1',
        2 => '2',
        3 => '3',
        4 => '4',
        5 => '5',
        6 => '6',
        7 => '7',
        8 => '8',
        _ => '9',
    }
}

/// Whether `c` has the Unicode `White_Space` property, which is what
/// `str::trim` removes.
pub open spec fn is_unicode_whitespace(c: char) -> bool {
    ||| ('\u{9}' <= c && c <= '\u{d}')
    ||| c == ' '
    ||| c == '\u{85}'
    ||| c == '\u{a0}'
    ||| c == '\u{1680}'
    ||| ('\u{2000}' <= c && c <= '\u{200a}')
    ||| c == '\u{2028}'
    ||| c == '\u{2029}'
    ||| c == '\u{202f}'
    ||| c == '\u{205f}'
    ||| c == '\u{3000}'
}

/// Number of leading whitespace characters of `s`.
pub open spec fn leading_ws(s: Seq<char>) -> nat
    decreases s.len(),
{
    if s.len() > 0 && is_unicode_whitespace(s[0]) {
        1 + leading_ws(s.drop_first())
    } else {
        0
    }
}

/// Number of trailing whitespace characters of `s`.
pub open spec fn trailing_ws(s: Seq<char>) -> nat
    decreases s.len(),
{
    if s.len() > 0 && is_unicode_whitespace(s.last()) {
        1 + trailing_ws(s.drop_last())
    } else {
        0
    }
}

/// `s` without leading and trailing whitespace, as `str::trim` gives it.
pub open spec fn trim_spec(s: Seq<char>) -> Seq<char> {
    let start = leading_ws(s);
    if start == s.len() {
        Seq::empty()
    } else {
        s.subrange(start as int, s.len() - trailing_ws(s))
    }
}

proof fn lemma_leading_ws_bound(s: Seq<char>)
    ensures
        leading_ws(s) <= s.len(),
        forall|j: int| 0 <= j < leading_ws(s) ==> is_unicode_whitespace(#[trigger] s[j]),
        leading_ws(s) < s.len() ==> !is_unicode_whitespace(s[leading_ws(s) as int]),
    decreases s.len(),
{
    if s.len() > 0 && is_unicode_whitespace(s[0]) {
        lemma_leading_ws_bound(s.drop_first());
        assert forall|j: int| 0 <= j < leading_ws(s) implies is_unicode_whitespace(#[trigger] s[j]) by {
            if j > 0 {
                assert(s[j] == s.drop_first()[j - 1]);
            }
        }
    }
}

proof fn lemma_trailing_ws_bound(s: Seq<char>)
    ensures
        trailing_ws(s) <= s.len(),
        forall|j: int|
            s.len() - trailing_ws(s) <= j < s.len() ==> is_unicode_whitespace(#[trigger] s[j]),
        trailing_ws(s) < s.len() ==> !is_unicode_whitespace(s[s.len() - trailing_ws(s) - 1]),
    decreases s.len(),
{
    if s.len() > 0 && is_unicode_whitespace(s.last()) {
        lemma_trailing_ws_bound(s.drop_last());
        assert forall|j: int|
            s.len() - trailing_ws(s) <= j < s.len() implies is_unicode_whitespace(
            #[trigger] s[j],
        ) by {
            if j < s.len() - 1 {
                assert(s[j] == s.drop_last()[j]);
            }
        }
    }
}

/// Whether `c` is whitespace in the sense of `char::is_whitespace`.
pub fn is_whitespace(c: char) -> (b: bool)
    ensures
        b == is_unicode_whitespace(c),
{
    ('\u{9}' <= c && c <= '\u{d}') || c == ' ' || c == '\u{85}' || c == '\u{a0}' || c
        == '\u{1680}' || ('\u{2000}' <= c && c <= '\u{200a}') || c == '\u{2028}' || c == '\u{2029}'
        || c == '\u{202f}' || c == '\u{205f}' || c == '\u{3000}'
}

/// `chars` without leading and trailing whitespace.
pub fn trim_chars(chars: &[char]) -> (r: Vec<char>)
    ensures
        r@ == trim_spec(chars@),
{
    let n = chars.len();
    let mut start: usize = 0;
    while start < n && is_whitespace(chars[start])
        invariant
            n == chars@.len(),
            start <= n,
            forall|j: int| 0 <= j < start ==> is_unicode_whitespace(#[trigger] chars@[j]),
        decreases n - start,
    {
        start = start + 1;
    }
    proof {
        lemma_leading_ws_bound(chars@);
        lemma_trailing_ws_bound(chars@);
        let l = leading_ws(chars@);
        if l < start {
            assert(is_unicode_whitespace(chars@[l as int]));
        } else if start < l {
            assert(is_unicode_whitespace(chars@[start as int]));
        }
    }
    if start == n {
        return Vec::new();
    }
    let mut end: usize = n;
    while end > start && is_whitespace(chars[end - 1])
        invariant
            n == chars@.len(),
            start < n,
            start <= end <= n,
            !is_unicode_whitespace(chars@[start as int]),
            forall|j: int| end <= j < n ==> is_unicode_whitespace(#[trigger] chars@[j]),
        decreases end,
    {
        end = end - 1;
    }
    proof {
        let t = trailing_ws(chars@);
        let e = n - t;
        if (end as int) < e {
            assert(is_unicode_whitespace(chars@[e - 1]));
        } else if e < end {
            assert(is_unicode_whitespace(chars@[end - 1]));
        }
    }
    let mut out: Vec<char> = Vec::new();
    let mut i: usize = start;
    while i < end
        invariant
            start <= i <= end <= n,
            n == chars@.len(),
            out@ =~= chars@.subrange(start as int, i as int),
        decreases end - i,
    {
        out.push(chars[i]);
        i = i + 1;
    }
    out
}

/// Whether two character sequences are equal.
pub fn chars_eq(a: &[char], b: &[char]) -> (r: bool)
    ensures
        r == (a@ == b@),
{
    if a.len() != b.len() {
        return false;
    }
    let mut i: usize = 0;
    while i < a.len()
        invariant
            a@.len() == b@.len(),
            i <= a@.len(),
            forall|j: int| 0 <= j < i ==> a@[j] == b@[j],
        decreases a@.len() - i,
    {
        if a[i] != b[i] {
            return false;
        }
        i = i + 1;
    }
    assert(a@ =~= b@);
    true
}

/// Whether two strings hold the same characters.
pub fn str_eq(a: &str, b: &str) -> (r: bool)
    ensures
        r == (a@ == b@),
{
    let x = str_chars(a);
    let y = str_chars(b);
    chars_eq(x.as_slice(), y.as_slice())
}

/// The ASCII lower-case form of `c` (other characters are unchanged).
pub open spec fn ascii_lower(c: char) -> char {
    if 'A' <= c && c <= 'Z' {
        ((c as u32) + 32) as char
    } else {
        c
    }
}

/// The ASCII lower-case form of every character of `s`.
pub open spec fn ascii_lower_seq(s: Seq<char>) -> Seq<char> {
    s.map_values(|c: char| ascii_lower(c))
}

/// `c` in ASCII lower case.
pub fn to_ascii_lower(c: char) -> (r: char)
    ensures
        r == ascii_lower(c),
{
    if 'A' <= c && c <= 'Z' {
        ((c as u32) + 32) as u8 as char
    } else {
        c
    }
}

/// `chars` in ASCII lower case.
pub fn lower_chars(chars: &[char]) -> (r: Vec<char>)
    ensures
        r@ == ascii_lower_seq(chars@),
{
    let mut out: Vec<char> = Vec::new();
    let mut i: usize = 0;
    while i < chars.len()
        invariant
            i <= chars@.len(),
            out@ =~= ascii_lower_seq(chars@.take(i as int)),
        decreases chars@.len() - i,
    {
        out.push(to_ascii_lower(chars[i]));
        i = i + 1;
    }
    assert(chars@.take(chars@.len() as int) =~= chars@);
    out
}

/// Whether `a` and `b` are equal ignoring ASCII case, as `eq_ignore_ascii_case` compares.
pub fn eq_ignore_ascii_case(a: &[char], b: &[char]) -> (r: bool)
    ensures
        r == (ascii_lower_seq(a@) == ascii_lower_seq(b@)),
{
    let x = lower_chars(a);
    let y = lower_chars(b);
    chars_eq(x.as_slice(), y.as_slice())
}

/// Whether `s` ends with `suffix`.
pub open spec fn ends_with(s: Seq<char>, suffix: Seq<char>) -> bool {
    suffix.len() <= s.len() && s.subrange(s.len() - suffix.len(), s.len() as int) == suffix
}

/// Whether `s` starts with `prefix`.
pub open spec fn starts_with(s: Seq<char>, prefix: Seq<char>) -> bool {
    prefix.len() <= s.len() && s.subrange(0, prefix.len() as int) == prefix
}

/// Whether `s` starts with `prefix`.
pub fn chars_start_with(s: &[char], prefix: &[char]) -> (r: bool)
    ensures
        r == starts_with(s@, prefix@),
{
    if prefix.len() > s.len() {
        return false;
    }
    let mut i: usize = 0;
    while i < prefix.len()
        invariant
            prefix@.len() <= s@.len(),
            i <= prefix@.len(),
            forall|j: int| 0 <= j < i ==> s@[j] == prefix@[j],
        decreases prefix@.len() - i,
    {
        if s[i] != prefix[i] {
            return false;
        }
        i = i + 1;
    }
    assert(s@.subrange(0, prefix@.len() as int) =~= prefix@);
    true
}

/// Whether `s` ends with `suffix`.
pub fn chars_end_with(s: &[char], suffix: &[char]) -> (r: bool)
    ensures
        r == ends_with(s@, suffix@),
{
    if suffix.len() > s.len() {
        return false;
    }
    let off: usize = s.len() - suffix.len();
    let mut i: usize = 0;
    while i < suffix.len()
        invariant
            suffix@.len() <= s@.len(),
            off == s@.len() - suffix@.len(),
            off + suffix@.len() == s@.len(),
            s@.len() <= usize::MAX,
            i <= suffix@.len(),
            forall|j: int| 0 <= j < i ==> s@[off + j] == suffix@[j],
        decreases suffix@.len() - i,
    {
        if s[off + i] != suffix[i] {
            assert(s@.subrange(off as int, s@.len() as int)[i as int] == s@[off + i]);
            return false;
        }
        i = i + 1;
    }
    assert(s@.subrange(off as int, s@.len() as int) =~= suffix@);
    true
}

/// Whether `needle` occurs in `s` at position `i`.
pub open spec fn occurs_at(s: Seq<char>, needle: Seq<char>, i: int) -> bool {
    0 <= i && i + needle.len() <= s.len() && s.subrange(i, i + needle.len()) == needle
}

/// Whether `needle` occurs anywhere in `s`.
pub open spec fn contains(s: Seq<char>, needle: Seq<char>) -> bool {
    exists|i: int| occurs_at(s, needle, i)
}

/// Whether `needle` occurs in `s`.
pub fn chars_contain(s: &[char], needle: &[char]) -> (r: bool)
    ensures
        r == contains(s@, needle@),
{
    let mut i: usize = 0;
    while s.len() - i >= needle.len()
        invariant
            i <= s@.len(),
            forall|k: int| 0 <= k < i ==> !occurs_at(s@, needle@, k),
        decreases s@.len() + 1 - i,
    {
        let mut j: usize = 0;
        let mut ok = true;
        while j < needle.len()
            invariant
                i + needle@.len() <= s@.len(),
                s@.len() <= usize::MAX,
                j <= needle@.len(),
                ok ==> forall|t: int| 0 <= t < j ==> s@[i + t] == needle@[t],
                needle@.len() == 0 ==> ok,
                !ok ==> !occurs_at(s@, needle@, i as int),
            decreases needle@.len() - j,
        {
            if s[i + j] != needle[j] {
                assert(s@.subrange(i as int, i + needle@.len())[j as int] == s@[i + j]);
                ok = false;
            }
            j = j + 1;
        }
        if ok {
            assert(s@.subrange(i as int, i + needle@.len()) =~= needle@);
            assert(occurs_at(s@, needle@, i as int));
            return true;
        }
        i = i + 1;
    }
    assert forall|k: int| !occurs_at(s@, needle@, k) by {
        if 0 <= k && k < i {
        }
    }
    false
}


/// The position of the first `c` in `s`, or the length of `s` when there is none.
pub open spec fn first_index(s: Seq<char>, c: char) -> nat
    decreases s.len(),
{
    if s.len() == 0 {
        0
    } else if s[0] == c {
        0
    } else {
        1 + first_index(s.drop_first(), c)
    }
}

/// The pieces of `s` between the occurrences of `c`, as `str::split` gives them.
pub open spec fn split_spec(s: Seq<char>, c: char) -> Seq<Seq<char>>
    decreases s.len(),
{
    let i = first_index(s, c);
    if i >= s.len() {
        seq![s]
    } else {
        seq![s.take(i as int)] + split_spec(s.skip(i + (1 as int)), c)
    }
}

/// `first_index` is the first position holding `c`.
pub proof fn lemma_first_index(s: Seq<char>, c: char, k: int)
    requires
        0 <= k <= s.len(),
        forall|j: int| 0 <= j < k ==> s[j] != c,
        k == s.len() || s[k] == c,
    ensures
        first_index(s, c) == k,
    decreases k,
{
    if k > 0 {
        assert forall|j: int| 0 <= j < k - 1 implies s.drop_first()[j] != c by {
            assert(s.drop_first()[j] == s[j + 1]);
        }
        if k < s.len() {
            assert(s.drop_first()[k - 1] == s[k]);
        }
        lemma_first_index(s.drop_first(), c, k - 1);
    }
}

/// The characters of `chars` from `a` up to `b`.
pub fn slice_chars(chars: &[char], a: usize, b: usize) -> (r: Vec<char>)
    requires
        a <= b <= chars@.len(),
    ensures
        r@ == chars@.subrange(a as int, b as int),
{
    let mut out: Vec<char> = Vec::new();
    let mut i = a;
    while i < b
        invariant
            a <= i <= b,
            b <= chars@.len(),
            out@ =~= chars@.subrange(a as int, i as int),
        decreases b - i,
    {
        out.push(chars[i]);
        i = i + 1;
    }
    out
}

/// The position of the first `c` in `chars` at or after `from`, or the
/// length of `chars` when there is none.
pub fn find_char(chars: &[char], from: usize, c: char) -> (i: usize)
    requires
        from <= chars@.len(),
    ensures
        from <= i <= chars@.len(),
        i == from + first_index(chars@.skip(from as int), c),
{
    let mut i = from;
    while i < chars.len() && chars[i] != c
        invariant
            from <= i <= chars@.len(),
            forall|j: int| from <= j < i ==> chars@[j] != c,
        decreases chars@.len() - i,
    {
        i = i + 1;
    }
    proof {
        let t = chars@.skip(from as int);
        assert forall|j: int| 0 <= j < i - from implies t[j] != c by {
            assert(t[j] == chars@[from + j]);
        }
        if i < chars@.len() {
            assert(t[i - from] == chars@[i as int]);
        }
        lemma_first_index(t, c, i - from);
    }
    i
}

/// The pieces of `chars` between the occurrences of `c`.
pub fn split_chars(chars: &[char], c: char) -> (parts: Vec<Vec<char>>)
    ensures
        parts@.len() == split_spec(chars@, c).len(),
        forall|k: int| 0 <= k < parts@.len() ==> #[trigger] parts@[k]@ == split_spec(chars@, c)[k],
{
    let mut parts: Vec<Vec<char>> = Vec::new();
    let ghost mut done: Seq<Seq<char>> = Seq::empty();
    let mut start: usize = 0;
    assert(chars@.skip(0) =~= chars@);
    loop
        invariant
            start <= chars@.len(),
            parts@.len() == done.len(),
            forall|k: int| 0 <= k < done.len() ==> #[trigger] parts@[k]@ == done[k],
            split_spec(chars@, c) == done + split_spec(chars@.skip(start as int), c),
        decreases chars@.len() - start,
    {
        let i = find_char(chars, start, c);
        let piece = slice_chars(chars, start, i);
        let ghost t = chars@.skip(start as int);
        if i == chars.len() {
            proof {
                assert(piece@ =~= t);
                assert(split_spec(t, c) == seq![t]);
                assert(split_spec(chars@, c) == done.push(t));
                done = done.push(t);
            }
            parts.push(piece);
            return parts;
        }
        proof {
            assert(t.take(i - start) =~= piece@);
            assert(t.skip(i - start + 1) =~= chars@.skip(i + 1));
            assert(split_spec(t, c) == seq![piece@] + split_spec(chars@.skip(i + 1), c));
            assert(done + (seq![piece@] + split_spec(chars@.skip(i + 1), c)) =~= done.push(piece@)
                + split_spec(chars@.skip(i + 1), c));
            done = done.push(piece@);
        }
        parts.push(piece);
        start = i + 1;
    }
}


/// Whether `c` is an ASCII decimal digit.
pub open spec fn is_digit(c: char) -> bool {
    '0' <= c && c <= '9'
}

/// The number that the decimal digits `s` denote.
pub open spec fn digits_value(s: Seq<char>) -> int
    decreases s.len(),
{
    if s.len() == 0 {
        0
    } else {
        digits_value(s.drop_last()) * 10 + (s.last() as int - 48)
    }
}

/// `s` without a leading '+'.
pub open spec fn unsigned_digits(s: Seq<char>) -> Seq<char> {
    if s.len() > 0 && s[0] == '+' {
        s.drop_first()
    } else {
        s
    }
}

/// What parsing `s` as an unsigned integer of at most `max` gives, as the
/// standard library documents it: an optional '+', then one or more decimal
/// digits and nothing else, denoting a number no larger than `max`.
pub open spec fn parse_uint_spec(s: Seq<char>, max: int) -> Option<int> {
    let d = unsigned_digits(s);
    if d.len() == 0 || exists|i: int| 0 <= i < d.len() && !is_digit(#[trigger] d[i]) {
        None
    } else if digits_value(d) <= max {
        Some(digits_value(d))
    } else {
        None
    }
}

/// A longer run of digits denotes no smaller a number.
pub proof fn lemma_digits_value_grows(d: Seq<char>, j: int)
    requires
        0 <= j <= d.len(),
        forall|i: int| 0 <= i < d.len() ==> is_digit(#[trigger] d[i]),
    ensures
        0 <= digits_value(d.take(j)) <= digits_value(d),
    decreases d.len(),
{
    if d.len() > 0 {
        assert forall|i: int| 0 <= i < d.len() - 1 implies is_digit(#[trigger] d.drop_last()[i]) by {
            assert(d.drop_last()[i] == d[i]);
        }
        assert(is_digit(d[d.len() - 1]));
        if j == d.len() {
            assert(d.take(j) =~= d);
            lemma_digits_value_grows(d.drop_last(), d.len() - 1);
            assert(d.drop_last().take(d.len() - 1) =~= d.drop_last());
        } else {
            lemma_digits_value_grows(d.drop_last(), j);
            assert(d.drop_last().take(j) =~= d.take(j));
            lemma_digits_value_grows(d.drop_last(), d.len() - 1);
            assert(d.drop_last().take(d.len() - 1) =~= d.drop_last());
        }
    }
}

/// Parses `s` as a `usize` the way `str::parse::<usize>` does.
pub fn parse_usize(s: &str) -> (r: Option<usize>)
    ensures
        match r {
            Some(v) => parse_uint_spec(s@, usize::MAX as int) == Some(v as int),
            None => parse_uint_spec(s@, usize::MAX as int) is None,
        },
{
    let chars = str_chars(s);
    let mut start: usize = 0;
    if chars.len() > 0 && chars[0] == '+' {
        start = 1;
    }
    let ghost d = chars@.skip(start as int);
    assert(start == 1 ==> d =~= s@.drop_first());
    assert(start == 0 ==> d =~= s@);
    if start == chars.len() {
        return None;
    }
    let mut acc: usize = 0;
    let mut j: usize = start;
    assert(d.take(0) =~= Seq::<char>::empty());
    while j < chars.len()
        invariant
            start <= j <= chars@.len(),
            d == chars@.skip(start as int),
            d == unsigned_digits(s@),
            forall|i: int| 0 <= i < j - start ==> is_digit(#[trigger] d[i]),
            acc == digits_value(d.take(j - start)),
        decreases chars@.len() - j,
    {
        let c = chars[j];
        assert(d[j - start] == c);
        if !('0' <= c && c <= '9') {
            assert(!is_digit(d[j - start]));
            return None;
        }
        let digit: usize = (c as u32 - 48) as usize;
        assert(d.take(j - start + 1).drop_last() =~= d.take(j - start));
        match acc.checked_mul(10) {
            Some(m) => match m.checked_add(digit) {
                Some(v) => {
                    acc = v;
                },
                None => {
                    proof {
                        if forall|i: int| 0 <= i < d.len() ==> is_digit(#[trigger] d[i]) {
                            lemma_digits_value_grows(d, j - start + 1);
                        }
                    }
                    return None;
                },
            },
            None => {
                proof {
                    if forall|i: int| 0 <= i < d.len() ==> is_digit(#[trigger] d[i]) {
                        lemma_digits_value_grows(d, j - start + 1);
                    }
                }
                return None;
            },
        }
        j = j + 1;
    }
    assert(d.take(j - start) =~= d);
    Some(acc)
}


/// A text that neither starts nor ends with whitespace is its own trim.
pub proof fn lemma_trim_plain(s: Seq<char>)
    requires
        s.len() > 0,
        !is_unicode_whitespace(s[0]),
        !is_unicode_whitespace(s.last()),
    ensures
        trim_spec(s) == s,
{
    assert(s.subrange(0, s.len() as int) =~= s);
}

/// Trimming twice is trimming once.
pub proof fn lemma_trim_idempotent(s: Seq<char>)
    ensures
        trim_spec(trim_spec(s)) == trim_spec(s),
{
    lemma_leading_ws_bound(s);
    lemma_trailing_ws_bound(s);
    let t = trim_spec(s);
    if t.len() == 0 {
        assert(leading_ws(t) == 0);
    } else {
        let start = leading_ws(s) as int;
        let end = s.len() - trailing_ws(s);
        assert(t[0] == s[start]);
        if end - 1 < start {
            assert(false);
        }
        assert(t.last() == s[end - 1]);
        lemma_trim_plain(t);
    }
}


/// The decimal representation of a number is a non-empty run of digits
/// that denotes the number.
pub proof fn lemma_decimal_digits(n: nat)
    ensures
        decimal(n).len() > 0,
        forall|i: int| 0 <= i < decimal(n).len() ==> is_digit(#[trigger] decimal(n)[i]),
        digits_value(decimal(n)) == n,
    decreases n,
{
    let c = digit_char(n % 10);
    assert(c as int == n % 10 + 48);
    if n < 10 {
        assert(decimal(n) == seq![c]);
        assert(seq![c].drop_last() =~= Seq::<char>::empty());
        assert(seq![c].last() == c);
        assert(digits_value(seq![c]) == digits_value(Seq::<char>::empty()) * 10 + (c as int - 48));
    } else {
        lemma_decimal_digits(n / 10);
        let d = decimal(n / 10);
        assert(decimal(n) == d.push(c));
        assert(d.push(c).drop_last() =~= d);
        assert(d.push(c).last() == c);
        assert(digits_value(d.push(c)) == digits_value(d) * 10 + (c as int - 48));
        assert((n / 10) * 10 + n % 10 == n);
        assert forall|i: int| 0 <= i < d.push(c).len() implies is_digit(#[trigger] d.push(c)[i]) by {
            if i < d.len() {
                assert(d.push(c)[i] == d[i]);
            }
        }
    }
}

/// Parsing the decimal representation of a number gives the number back.
pub proof fn lemma_parse_decimal(n: nat, max: int)
    requires
        n <= max,
    ensures
        parse_uint_spec(decimal(n), max) == Some(n as int),
{
    lemma_decimal_digits(n);
    let d = decimal(n);
    assert(is_digit(d[0]));
    assert(unsigned_digits(d) == d);
}

} // verus!
