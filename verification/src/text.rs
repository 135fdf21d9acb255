//! Character-level helpers shared by the parsers and the label logic.
//!
//! Text is handled through its view as a sequence of `char`s; the few calls
//! into std that move between `&str`/`String` and `Vec<char>` are wrapped
//! here with contracts taken from std's documentation.
use vstd::prelude::*;

verus! {

/// Unicode `White_Space` as `char::is_whitespace` documents it.
pub open spec fn is_unicode_whitespace(c: char) -> bool {
    let n = c as u32;
    ||| (9 <= n && n <= 13)
    ||| n == 32
    ||| n == 0x85
    ||| n == 0xA0
    ||| n == 0x1680
    ||| (0x2000 <= n && n <= 0x200A)
    ||| n == 0x2028
    ||| n == 0x2029
    ||| n == 0x202F
    ||| n == 0x205F
    ||| n == 0x3000
}

/// ASCII lower-casing of one character; other characters are unchanged.
pub open spec fn ascii_lower(c: char) -> char {
    if 'A' <= c && c <= 'Z' {
        ((c as u32) + 32) as char
    } else {
        c
    }
}

/// ASCII lower-casing of a whole text.
pub open spec fn lower_seq(s: Seq<char>) -> Seq<char> {
    Seq::new(s.len(), |i: int| ascii_lower(s[i]))
}

/// Two texts are equal when ASCII letters are compared without case.
pub open spec fn eq_ignore_case(a: Seq<char>, b: Seq<char>) -> bool {
    lower_seq(a) == lower_seq(b)
}

/// `needle` occurs in `hay` at position `i`.
pub open spec fn occurs_at(hay: Seq<char>, needle: Seq<char>, i: int) -> bool {
    0 <= i && i + needle.len() <= hay.len() && hay.subrange(i, i + needle.len()) == needle
}

/// `needle` occurs somewhere in `hay` (the empty text occurs everywhere).
pub open spec fn seq_contains(hay: Seq<char>, needle: Seq<char>) -> bool {
    exists|i: int| occurs_at(hay, needle, i)
}

/// The first position at which `needle` occurs in `hay`.
pub open spec fn first_occurrence(hay: Seq<char>, needle: Seq<char>) -> Option<int> {
    if seq_contains(hay, needle) {
        Some(
            choose|i: int|
                occurs_at(hay, needle, i) && forall|j: int| 0 <= j < i ==> !occurs_at(hay, needle, j),
        )
    } else {
        None
    }
}

/// Number of leading whitespace characters.
pub open spec fn leading_ws(s: Seq<char>) -> nat
    decreases s.len(),
{
    if s.len() > 0 && is_unicode_whitespace(s[0]) {
        1 + leading_ws(s.drop_first())
    } else {
        0
    }
}

/// Number of trailing whitespace characters.
pub open spec fn trailing_ws(s: Seq<char>) -> nat
    decreases s.len(),
{
    if s.len() > 0 && is_unicode_whitespace(s.last()) {
        1 + trailing_ws(s.drop_last())
    } else {
        0
    }
}

/// `str::trim`: whitespace removed from both ends.
pub open spec fn trim_seq(s: Seq<char>) -> Seq<char> {
    let start = leading_ws(s);
    if start == s.len() {
        Seq::empty()
    } else {
        s.subrange(start as int, s.len() - trailing_ws(s))
    }
}

/// Decimal digits of a number, most significant first, no leading zeros.
pub open spec fn decimal_seq(n: nat) -> Seq<char>
    decreases n,
{
    if n < 10 {
        seq![digit_char(n)]
    } else {
        decimal_seq(n / 10).push(digit_char(n % 10))
    }
}

/// Upper-case hexadecimal digits of a number, no leading zeros.
pub open spec fn hex_seq(n: nat) -> Seq<char>
    decreases n,
{
    if n < 16 {
        seq![digit_char(n)]
    } else {
        hex_seq(n / 16).push(digit_char(n % 16))
    }
}

/// The character of one digit below sixteen (upper case for ten and above).
pub open spec fn digit_char(d: nat) -> char {
    if d < 10 {
        ((d + 48) as u32) as char
    } else {
        ((d + 55) as u32) as char
    }
}

/// The value of a digit character in the given radix, if it is one.
pub open spec fn digit_value(c: char, radix: nat) -> Option<nat> {
    let n = c as u32;
    let v: int = if 48 <= n && n <= 57 {
        n - 48
    } else if 97 <= n && n <= 122 {
        n - 87
    } else if 65 <= n && n <= 90 {
        n - 55
    } else {
        99
    };
    if v < radix {
        Some(v as nat)
    } else {
        None
    }
}

/// Every character of `s` is a digit of `radix`.
pub open spec fn all_digits(s: Seq<char>, radix: nat) -> bool {
    forall|i: int| 0 <= i < s.len() ==> (#[trigger] digit_value(s[i], radix)) is Some
}

/// The number that the digits of `s` spell in `radix` (most significant first).
pub open spec fn digits_value(s: Seq<char>, radix: nat) -> nat
    decreases s.len(),
{
    if s.len() == 0 {
        0
    } else {
        digits_value(s.drop_last(), radix) * radix + digit_value(s.last(), radix).unwrap_or(0)
    }
}

/// What `u32::from_str_radix` accepts: an optional `+`, then at least one
/// digit of the radix, and a value that fits in 32 bits. `None` when std
/// returns an error.
pub open spec fn parse_u32_radix(s: Seq<char>, radix: nat) -> Option<u32> {
    let digits = if s.len() > 0 && s[0] == '+' { s.drop_first() } else { s };
    if digits.len() > 0 && all_digits(digits, radix) && digits_value(digits, radix) <= u32::MAX {
        Some(digits_value(digits, radix) as u32)
    } else {
        None
    }
}

#[verifier::external_type_specification]
#[verifier::external_body]
pub struct ExParseIntError(std::num::ParseIntError);

/// `u32::from_str_radix`: `Ok` exactly on the texts that `parse_u32_radix`
/// describes (an optional `+` and digits of the radix, with a value that fits),
/// and then with that value, as std's documentation states it.
#[verifier::external_body]
pub(crate) fn u32_from_str_radix(s: &str, radix: u32) -> (r: Result<u32, std::num::ParseIntError>)
    requires
        2 <= radix <= 36,
    ensures
        r is Ok <==> parse_u32_radix(s@, radix as nat) is Some,
        r matches Ok(v) ==> parse_u32_radix(s@, radix as nat) == Some(v),
{
    u32::from_str_radix(s, radix)
}

/// What `usize::from_str` accepts: an optional `+`, then at least one
/// decimal digit, and a value that fits in a `usize`.
pub open spec fn parse_usize_dec(s: Seq<char>) -> Option<usize> {
    let digits = if s.len() > 0 && s[0] == '+' { s.drop_first() } else { s };
    if digits.len() > 0 && all_digits(digits, 10) && digits_value(digits, 10) <= usize::MAX {
        Some(digits_value(digits, 10) as usize)
    } else {
        None
    }
}

/// `str::parse::<usize>`: a value exactly on the texts that
/// `parse_usize_dec` describes, as std's documentation states it.
#[verifier::external_body]
pub(crate) fn usize_from_str(s: &str) -> (r: Option<usize>)
    ensures
        r == parse_usize_dec(s@),
{
    s.parse::<usize>().ok()
}

/// The characters of a text, in order.
pub(crate) fn chars_of(s: &str) -> (v: Vec<char>)
    ensures
        v@ == s@,
{
    let n = s.unicode_len();
    let mut v: Vec<char> = Vec::new();
    let mut i: usize = 0;
    while i < n
        invariant
            n == s@.len(),
            i <= n,
            v@ == s@.subrange(0, i as int),
        decreases n - i,
    {
        v.push(s.get_char(i));
        i = i + 1;
    }
    assert(s@.subrange(0, n as int) =~= s@);
    v
}

/// `String::push`: the text with one more character at its end, as std's
/// documentation states it.
#[verifier::external_body]
fn push_char(s: &mut String, c: char)
    ensures
        final(s)@ == old(s)@.push(c),
{
    s.push(c)
}

/// The text made of the given characters.
pub(crate) fn string_from_chars(v: &[char]) -> (s: String)
    ensures
        s@ == v@,
{
    let mut s = String::new();
    let mut i: usize = 0;
    while i < v.len()
        invariant
            i <= v.len(),
            s@ == v@.subrange(0, i as int),
        decreases v.len() - i,
    {
        push_char(&mut s, v[i]);
        assert(s@ =~= v@.subrange(0, i + 1));
        i = i + 1;
    }
    assert(v@.subrange(0, v@.len() as int) =~= v@);
    s
}

/// `char::is_whitespace`, written out from its documented definition.
pub fn is_whitespace(c: char) -> (r: bool)
    ensures
        r == is_unicode_whitespace(c),
{
    let n = c as u32;
    (9 <= n && n <= 13) || n == 32 || n == 0x85 || n == 0xA0 || n == 0x1680 || (0x2000 <= n && n
        <= 0x200A) || n == 0x2028 || n == 0x2029 || n == 0x202F || n == 0x205F || n == 0x3000
}

/// ASCII lower-casing of one character.
pub fn to_ascii_lower(c: char) -> (r: char)
    ensures
        r == ascii_lower(c),
{
    if 'A' <= c && c <= 'Z' {
        let b = (c as u32) as u8;
        (b + 32) as char
    } else {
        c
    }
}

/// ASCII lower-casing of a character vector.
pub fn lower_chars(s: &Vec<char>) -> (r: Vec<char>)
    ensures
        r@ == lower_seq(s@),
{
    let mut r: Vec<char> = Vec::new();
    let mut i: usize = 0;
    while i < s.len()
        invariant
            i <= s.len(),
            r@ == lower_seq(s@.subrange(0, i as int)),
        decreases s.len() - i,
    {
        let c = to_ascii_lower(s[i]);
        r.push(c);
        i = i + 1;
        assert(lower_seq(s@.subrange(0, i as int)) =~= r@);
    }
    assert(s@.subrange(0, s.len() as int) =~= s@);
    r
}

/// `str::to_ascii_lowercase` as a `String`.
pub fn to_ascii_lowercase(s: &str) -> (r: String)
    ensures
        r@ == lower_seq(s@),
{
    let v = chars_of(s);
    let l = lower_chars(&v);
    string_from_chars(l.as_slice())
}

/// Whether two character vectors are equal.
pub fn chars_eq(a: &Vec<char>, b: &Vec<char>) -> (r: bool)
    ensures
        r == (a@ == b@),
{
    if a.len() != b.len() {
        return false;
    }
    let mut i: usize = 0;
    while i < a.len()
        invariant
            a.len() == b.len(),
            i <= a.len(),
            forall|j: int| 0 <= j < i ==> a@[j] == b@[j],
        decreases a.len() - i,
    {
        if a[i] != b[i] {
            return false;
        }
        i = i + 1;
    }
    assert(a@ =~= b@);
    true
}

/// Text equality (`str == str`).
pub fn str_eq(a: &str, b: &str) -> (r: bool)
    ensures
        r == (a@ == b@),
{
    chars_eq(&chars_of(a), &chars_of(b))
}

/// `str::eq_ignore_ascii_case`.
pub fn eq_ignore_ascii_case(a: &str, b: &str) -> (r: bool)
    ensures
        r == eq_ignore_case(a@, b@),
{
    let la = lower_chars(&chars_of(a));
    let lb = lower_chars(&chars_of(b));
    chars_eq(&la, &lb)
}

/// Whether `needle` occurs at `i` in `hay`.
pub fn chars_occur_at(hay: &Vec<char>, needle: &Vec<char>, i: usize) -> (r: bool)
    requires
        i <= hay.len(),
    ensures
        r == occurs_at(hay@, needle@, i as int),
{
    if needle.len() > hay.len() - i {
        return false;
    }
    let mut j: usize = 0;
    while j < needle.len()
        invariant
            i + needle.len() <= hay.len(),
            j <= needle.len(),
            forall|k: int| 0 <= k < j ==> hay@[i + k] == needle@[k],
        decreases needle.len() - j,
    {
        if hay[i + j] != needle[j] {
            assert(hay@.subrange(i as int, i + needle.len())[j as int] != needle@[j as int]);
            return false;
        }
        j = j + 1;
    }
    assert(hay@.subrange(i as int, i + needle.len()) =~= needle@);
    true
}

/// Substring search on character vectors (`str::contains`).
pub fn chars_contain(hay: &Vec<char>, needle: &Vec<char>) -> (r: bool)
    ensures
        r == seq_contains(hay@, needle@),
{
    let mut i: usize = 0;
    while i < hay.len()
        invariant
            i <= hay.len(),
            forall|k: int| 0 <= k < i ==> !occurs_at(hay@, needle@, k),
        decreases hay.len() - i,
    {
        if chars_occur_at(hay, needle, i) {
            return true;
        }
        i = i + 1;
    }
    if chars_occur_at(hay, needle, hay.len()) {
        return true;
    }
    assert forall|k: int| !occurs_at(hay@, needle@, k) by {
        if 0 <= k && k + needle@.len() <= hay@.len() {
            assert(k <= hay.len());
        }
    }
    false
}

proof fn lemma_earliest_occurrence(hay: Seq<char>, needle: Seq<char>, i: int)
    requires
        occurs_at(hay, needle, i),
    ensures
        exists|k: int|
            occurs_at(hay, needle, k) && forall|j: int| 0 <= j < k ==> !occurs_at(hay, needle, j),
    decreases i,
{
    if exists|j: int| 0 <= j < i && occurs_at(hay, needle, j) {
        let j = choose|j: int| 0 <= j < i && occurs_at(hay, needle, j);
        lemma_earliest_occurrence(hay, needle, j);
    }
}

/// The first occurrence is an occurrence, with none before it.
pub proof fn lemma_first_occurrence(hay: Seq<char>, needle: Seq<char>)
    ensures
        match first_occurrence(hay, needle) {
            Some(i) => occurs_at(hay, needle, i) && forall|j: int|
                0 <= j < i ==> !occurs_at(hay, needle, j),
            None => forall|j: int| !occurs_at(hay, needle, j),
        },
{
    if seq_contains(hay, needle) {
        let i = choose|i: int| occurs_at(hay, needle, i);
        lemma_earliest_occurrence(hay, needle, i);
    }
}

/// The first position at which `needle` occurs in `hay` (`str::find`).
pub fn find_chars(hay: &Vec<char>, needle: &Vec<char>) -> (r: Option<usize>)
    ensures
        match first_occurrence(hay@, needle@) {
            Some(i) => r == Some(i as usize),
            None => r is None,
        },
{
    let mut i: usize = 0;
    loop
        invariant
            i <= hay.len(),
            forall|k: int| 0 <= k < i ==> !occurs_at(hay@, needle@, k),
        ensures
            i == hay.len(),
            forall|k: int| 0 <= k <= i ==> !occurs_at(hay@, needle@, k),
        decreases hay.len() - i,
    {
        if chars_occur_at(hay, needle, i) {
            proof {
                let f = choose|k: int|
                    occurs_at(hay@, needle@, k) && forall|j: int|
                        0 <= j < k ==> !occurs_at(hay@, needle@, j);
                assert(occurs_at(hay@, needle@, i as int));
                if f < i {
                } else if f > i {
                    assert(!occurs_at(hay@, needle@, i as int));
                }
            }
            return Some(i);
        }
        if i == hay.len() {
            break;
        }
        i = i + 1;
    }
    assert forall|k: int| !occurs_at(hay@, needle@, k) by {
        if 0 <= k && k + needle@.len() <= hay@.len() {
            assert(k <= i);
        }
    }
    None
}

/// Case-insensitive (ASCII) substring test.
pub fn contains_ignore_ascii_case(hay: &str, needle: &str) -> (r: bool)
    ensures
        r == seq_contains(lower_seq(hay@), lower_seq(needle@)),
{
    let h = lower_chars(&chars_of(hay));
    let n = lower_chars(&chars_of(needle));
    chars_contain(&h, &n)
}

proof fn lemma_leading_ws_bound(s: Seq<char>)
    ensures
        leading_ws(s) <= s.len(),
        forall|k: int| 0 <= k < leading_ws(s) ==> is_unicode_whitespace(#[trigger] s[k]),
        leading_ws(s) < s.len() ==> !is_unicode_whitespace(s[leading_ws(s) as int]),
    decreases s.len(),
{
    if s.len() > 0 && is_unicode_whitespace(s[0]) {
        lemma_leading_ws_bound(s.drop_first());
        assert forall|k: int| 0 <= k < leading_ws(s) implies is_unicode_whitespace(#[trigger] s[k]) by {
            if k > 0 {
                assert(s[k] == s.drop_first()[k - 1]);
            }
        }
    }
}

proof fn lemma_trailing_ws_bound(s: Seq<char>)
    ensures
        trailing_ws(s) <= s.len(),
        forall|k: int| s.len() - trailing_ws(s) <= k < s.len() ==> is_unicode_whitespace(#[trigger] s[k]),
        trailing_ws(s) < s.len() ==> !is_unicode_whitespace(s[s.len() - trailing_ws(s) - 1]),
    decreases s.len(),
{
    if s.len() > 0 && is_unicode_whitespace(s.last()) {
        lemma_trailing_ws_bound(s.drop_last());
        assert forall|k: int| s.len() - trailing_ws(s) <= k < s.len() implies is_unicode_whitespace(#[trigger] s[k]) by {
            if k < s.len() - 1 {
                assert(s[k] == s.drop_last()[k]);
            }
        }
    }
}

proof fn lemma_leading_ws_prefix(s: Seq<char>, n: nat)
    requires
        n <= s.len(),
        forall|k: int| 0 <= k < n ==> is_unicode_whitespace(#[trigger] s[k]),
        n < s.len() ==> !is_unicode_whitespace(s[n as int]),
    ensures
        leading_ws(s) == n,
    decreases n,
{
    if n > 0 {
        assert(is_unicode_whitespace(s[0]));
        let t = s.drop_first();
        assert forall|k: int| 0 <= k < n - 1 implies is_unicode_whitespace(#[trigger] t[k]) by {
            assert(t[k] == s[k + 1]);
        }
        if n - 1 < t.len() {
            assert(t[n - 1] == s[n as int]);
        }
        lemma_leading_ws_prefix(t, (n - 1) as nat);
    }
}

proof fn lemma_trailing_ws_suffix(s: Seq<char>, n: nat)
    requires
        n <= s.len(),
        forall|k: int| s.len() - n <= k < s.len() ==> is_unicode_whitespace(#[trigger] s[k]),
        n < s.len() ==> !is_unicode_whitespace(s[s.len() - n - 1]),
    ensures
        trailing_ws(s) == n,
    decreases n,
{
    if n > 0 {
        assert(is_unicode_whitespace(s[s.len() - 1]));
        let t = s.drop_last();
        assert forall|k: int| t.len() - (n - 1) <= k < t.len() implies is_unicode_whitespace(#[trigger] t[k]) by {
            assert(t[k] == s[k]);
        }
        if n - 1 < t.len() {
            assert(t[t.len() - (n - 1) - 1] == s[s.len() - n - 1]);
        }
        lemma_trailing_ws_suffix(t, (n - 1) as nat);
    }
}

/// `str::trim` on a character vector.
pub fn trim_chars(s: &Vec<char>) -> (r: Vec<char>)
    ensures
        r@ == trim_seq(s@),
{
    proof {
        lemma_leading_ws_bound(s@);
        lemma_trailing_ws_bound(s@);
    }
    let mut start: usize = 0;
    while start < s.len() && is_whitespace(s[start])
        invariant
            start <= s.len(),
            forall|k: int| 0 <= k < start ==> is_unicode_whitespace(#[trigger] s@[k]),
        decreases s.len() - start,
    {
        start = start + 1;
    }
    proof {
        lemma_leading_ws_prefix(s@, start as nat);
    }
    if start == s.len() {
        return Vec::new();
    }
    let mut end: usize = s.len();
    while end > start && is_whitespace(s[end - 1])
        invariant
            start < s.len(),
            start <= end <= s.len(),
            forall|k: int| end <= k < s.len() ==> is_unicode_whitespace(#[trigger] s@[k]),
            !is_unicode_whitespace(s@[start as int]),
        decreases end,
    {
        end = end - 1;
    }
    proof {
        lemma_trailing_ws_suffix(s@, (s.len() - end) as nat);
    }
    let mut r: Vec<char> = Vec::new();
    let mut i: usize = start;
    while i < end
        invariant
            start <= i <= end <= s.len(),
            r@ == s@.subrange(start as int, i as int),
        decreases end - i,
    {
        r.push(s[i]);
        i = i + 1;
        assert(r@ =~= s@.subrange(start as int, i as int));
    }
    r
}

/// `str::trim` returning a `String`.
pub fn trim_str(s: &str) -> (r: String)
    ensures
        r@ == trim_seq(s@),
{
    let v = chars_of(s);
    let t = trim_chars(&v);
    string_from_chars(t.as_slice())
}

/// The character of a digit below sixteen.
pub fn digit_to_char(d: u64) -> (c: char)
    requires
        d < 16,
    ensures
        c == digit_char(d as nat),
{
    if d < 10 {
        ((d as u8) + 48) as char
    } else {
        ((d as u8) + 55) as char
    }
}

/// Decimal text of a number (`u64::to_string`).
pub fn decimal_string(n: u64) -> (s: String)
    ensures
        s@ == decimal_seq(n as nat),
{
    let mut digits: Vec<char> = Vec::new();
    let mut rest: u64 = n;
    // Collect digits least significant first.
    let mut rev: Vec<char> = Vec::new();
    while rest >= 10
        invariant
            decimal_seq(n as nat) == decimal_seq(rest as nat) + rev@.reverse(),
        decreases rest,
    {
        let d = rest % 10;
        let c = digit_to_char(d);
        proof {
            assert(decimal_seq(rest as nat) == decimal_seq((rest / 10) as nat).push(digit_char((rest % 10) as nat)));
            assert(rev@.push(c).reverse() =~= seq![c] + rev@.reverse());
            assert(decimal_seq(rest as nat) + rev@.reverse() =~= decimal_seq((rest / 10) as nat) + rev@.push(c).reverse());
        }
        rev.push(c);
        rest = rest / 10;
    }
    let c0 = digit_to_char(rest);
    rev.push(c0);
    proof {
        assert(decimal_seq(rest as nat) == seq![c0]);
        assert(rev@.reverse() =~= seq![c0] + rev@.drop_last().reverse());
    }
    let mut i: usize = rev.len();
    while i > 0
        invariant
            i <= rev.len(),
            digits@ == rev@.subrange(i as int, rev.len() as int).reverse(),
        decreases i,
    {
        i = i - 1;
        digits.push(rev[i]);
        assert(digits@ =~= rev@.subrange(i as int, rev.len() as int).reverse());
    }
    assert(rev@.subrange(0, rev.len() as int) =~= rev@);
    string_from_chars(digits.as_slice())
}

/// Upper-case hexadecimal text of a number (`format!("{:X}", n)`).
pub fn hex_string(n: u64) -> (s: String)
    ensures
        s@ == hex_seq(n as nat),
{
    let mut digits: Vec<char> = Vec::new();
    let mut rest: u64 = n;
    let mut rev: Vec<char> = Vec::new();
    while rest >= 16
        invariant
            hex_seq(n as nat) == hex_seq(rest as nat) + rev@.reverse(),
        decreases rest,
    {
        let d = rest % 16;
        let c = digit_to_char(d);
        proof {
            assert(hex_seq(rest as nat) == hex_seq((rest / 16) as nat).push(digit_char((rest % 16) as nat)));
            assert(rev@.push(c).reverse() =~= seq![c] + rev@.reverse());
            assert(hex_seq(rest as nat) + rev@.reverse() =~= hex_seq((rest / 16) as nat) + rev@.push(c).reverse());
        }
        rev.push(c);
        rest = rest / 16;
    }
    let c0 = digit_to_char(rest);
    rev.push(c0);
    proof {
        assert(hex_seq(rest as nat) == seq![c0]);
        assert(rev@.reverse() =~= seq![c0] + rev@.drop_last().reverse());
    }
    let mut i: usize = rev.len();
    while i > 0
        invariant
            i <= rev.len(),
            digits@ == rev@.subrange(i as int, rev.len() as int).reverse(),
        decreases i,
    {
        i = i - 1;
        digits.push(rev[i]);
        assert(digits@ =~= rev@.subrange(i as int, rev.len() as int).reverse());
    }
    assert(rev@.subrange(0, rev.len() as int) =~= rev@);
    string_from_chars(digits.as_slice())
}

/// Concatenation of two texts into a new `String`.
pub fn concat2(a: &str, b: &str) -> (r: String)
    ensures
        r@ == a@ + b@,
{
    let mut r = String::from_str(a);
    r.append(b);
    r
}

/// Concatenation of three texts into a new `String`.
pub fn concat3(a: &str, b: &str, c: &str) -> (r: String)
    ensures
        r@ == a@ + b@ + c@,
{
    let mut r = String::from_str(a);
    r.append(b);
    r.append(c);
    r
}


/// The text without its leading occurrences of `c`.
pub open spec fn drop_leading_char(s: Seq<char>, c: char) -> Seq<char>
    decreases s.len(),
{
    if s.len() > 0 && s[0] == c {
        drop_leading_char(s.subrange(1, s.len() as int), c)
    } else {
        s
    }
}

/// The text without its trailing occurrences of `c`.
pub open spec fn drop_trailing_char(s: Seq<char>, c: char) -> Seq<char>
    decreases s.len(),
{
    if s.len() > 0 && s.last() == c {
        drop_trailing_char(s.drop_last(), c)
    } else {
        s
    }
}

/// The text without `c` at either end (`str::trim_matches` with one character).
pub open spec fn trim_char_seq(s: Seq<char>, c: char) -> Seq<char> {
    drop_trailing_char(drop_leading_char(s, c), c)
}

proof fn lemma_drop_leading_step(s: Seq<char>, c: char, i: int)
    requires
        0 <= i < s.len(),
        s[i] == c,
    ensures
        drop_leading_char(s.subrange(i, s.len() as int), c) == drop_leading_char(
            s.subrange(i + 1, s.len() as int),
            c,
        ),
{
    assert(s.subrange(i, s.len() as int).subrange(1, s.len() - i) =~= s.subrange(
        i + 1,
        s.len() as int,
    ));
}

proof fn lemma_drop_trailing_step(s: Seq<char>, c: char, start: int, end: int)
    requires
        0 <= start < end <= s.len(),
        s[end - 1] == c,
    ensures
        drop_trailing_char(s.subrange(start, end), c) == drop_trailing_char(
            s.subrange(start, end - 1),
            c,
        ),
{
    assert(s.subrange(start, end).drop_last() =~= s.subrange(start, end - 1));
}

/// The characters without `c` at either end.
pub fn trim_char(chars: &Vec<char>, c: char) -> (r: Vec<char>)
    ensures
        r@ == trim_char_seq(chars@, c),
{
    let ghost s = chars@;
    assert(s.subrange(0, s.len() as int) =~= s);
    let mut start: usize = 0;
    while start < chars.len() && chars[start] == c
        invariant
            start <= chars.len(),
            s == chars@,
            drop_leading_char(s, c) == drop_leading_char(s.subrange(start as int, s.len() as int), c),
        decreases chars.len() - start,
    {
        proof {
            lemma_drop_leading_step(s, c, start as int);
        }
        start = start + 1;
    }
    let mut end: usize = chars.len();
    while end > start && chars[end - 1] == c
        invariant
            start <= end <= chars.len(),
            s == chars@,
            drop_trailing_char(s.subrange(start as int, s.len() as int), c) == drop_trailing_char(
                s.subrange(start as int, end as int),
                c,
            ),
        decreases end,
    {
        proof {
            lemma_drop_trailing_step(s, c, start as int, end as int);
        }
        end = end - 1;
    }
    let mut middle: Vec<char> = Vec::new();
    let mut i: usize = start;
    while i < end
        invariant
            start <= i <= end <= chars.len(),
            middle@ == s.subrange(start as int, i as int),
            s == chars@,
        decreases end - i,
    {
        middle.push(chars[i]);
        i = i + 1;
        assert(middle@ =~= s.subrange(start as int, i as int));
    }
    proof {
        let u = s.subrange(start as int, s.len() as int);
        assert(drop_leading_char(u, c) == u) by {
            if u.len() > 0 {
                assert(u[0] == s[start as int]);
            }
        }
        let m = s.subrange(start as int, end as int);
        assert(drop_trailing_char(m, c) == m) by {
            if m.len() > 0 {
                assert(m.last() == s[end - 1]);
            }
        }
    }
    middle
}

} // verus!
