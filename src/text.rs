//! Small string utilities with exact specifications over `Seq<char>`.

use vstd::prelude::*;

verus! {

/// `needle` occurs in `hay` starting at position `i`.
pub open spec fn occurs_at(hay: Seq<char>, needle: Seq<char>, i: int) -> bool {
    0 <= i && i + needle.len() <= hay.len() && hay.subrange(i, i + needle.len()) == needle
}

/// `needle` occurs somewhere in `hay`.
pub open spec fn seq_contains(hay: Seq<char>, needle: Seq<char>) -> bool {
    exists|i: int| occurs_at(hay, needle, i)
}

pub open spec fn is_digit(c: char) -> bool {
    '0' <= c && c <= '9'
}

pub open spec fn is_hex_char(c: char) -> bool {
    is_digit(c) || ('a' <= c && c <= 'f') || ('A' <= c && c <= 'F')
}

pub open spec fn is_alnum_or_colon(c: char) -> bool {
    is_digit(c) || ('a' <= c && c <= 'z') || ('A' <= c && c <= 'Z') || c == ':'
}

/// A non-empty string of hex digits.
pub open spec fn is_hex_str(s: Seq<char>) -> bool {
    s.len() > 0 && forall|i: int| 0 <= i < s.len() ==> is_hex_char(#[trigger] s[i])
}

/// A non-empty string of ASCII letters, digits and colons.
pub open spec fn is_alnum_colon_str(s: Seq<char>) -> bool {
    s.len() > 0 && forall|i: int| 0 <= i < s.len() ==> is_alnum_or_colon(#[trigger] s[i])
}

pub open spec fn digit_char(d: nat) -> char {
    if d == 0 { '0' } else if d == 1 { '1' } else if d == 2 { '2' } else if d == 3 { '3' }
    else if d == 4 { '4' } else if d == 5 { '5' } else if d == 6 { '6' } else if d == 7 { '7' }
    else if d == 8 { '8' } else { '9' }
}

/// Decimal rendering of a natural number, without leading zeros.
pub open spec fn dec(n: nat) -> Seq<char>
    decreases n,
{
    if n < 10 {
        seq![digit_char(n)]
    } else {
        dec(n / 10).push(digit_char(n % 10))
    }
}

/// Value of a string of decimal digits.
pub open spec fn digits_value(s: Seq<char>) -> nat
    decreases s.len(),
{
    if s.len() == 0 {
        0
    } else {
        digits_value(s.drop_last()) * 10 + ((s.last() as nat) - ('0' as nat)) as nat
    }
}

pub open spec fn all_digits(s: Seq<char>) -> bool {
    forall|i: int| 0 <= i < s.len() ==> is_digit(#[trigger] s[i])
}

/// The digits that std's unsigned integer parsing reads: an optional `+`
/// followed by at least one decimal digit.
pub open spec fn unsigned_digits(s: Seq<char>) -> Option<Seq<char>> {
    let body = if s.len() > 0 && s[0] == '+' { s.drop_first() } else { s };
    if body.len() > 0 && all_digits(body) {
        Some(body)
    } else {
        None
    }
}

/// What `str::parse::<u32>` yields: the value when the text is a decimal
/// number (with an optional `+`) that fits in 32 bits.
pub open spec fn parse_u32_spec(s: Seq<char>) -> Option<u32> {
    match unsigned_digits(s) {
        Some(d) => if digits_value(d) <= u32::MAX {
            Some(digits_value(d) as u32)
        } else {
            None
        },
        None => None,
    }
}

/// Same as `parse_u32_spec`, for 64 bits.
pub open spec fn parse_u64_spec(s: Seq<char>) -> Option<u64> {
    match unsigned_digits(s) {
        Some(d) => if digits_value(d) <= u64::MAX {
            Some(digits_value(d) as u64)
        } else {
            None
        },
        None => None,
    }
}

pub open spec fn lower_char(c: char) -> char {
    if 'A' <= c && c <= 'Z' {
        ((c as u8) + 32) as u8 as char
    } else {
        c
    }
}

/// ASCII lower-casing; other characters are kept.
pub open spec fn lower(s: Seq<char>) -> Seq<char> {
    s.map_values(|c: char| lower_char(c))
}

/// The characters that `char::is_whitespace` accepts (Unicode `White_Space`).
pub open spec fn is_ws(c: char) -> bool {
    ('\t' <= c && c <= '\r') || c == ' ' || c == '\u{85}' || c == '\u{a0}' || c == '\u{1680}'
        || ('\u{2000}' <= c && c <= '\u{200a}') || c == '\u{2028}' || c == '\u{2029}'
        || c == '\u{202f}' || c == '\u{205f}' || c == '\u{3000}'
}

/// Index of the first non-whitespace character at or after `i`.
pub open spec fn first_non_ws(s: Seq<char>, i: int) -> int
    decreases s.len() - i,
{
    if i >= s.len() || !is_ws(s[i]) {
        i
    } else {
        first_non_ws(s, i + 1)
    }
}

/// One past the last non-whitespace character before `j`.
pub open spec fn last_non_ws(s: Seq<char>, j: int) -> int
    decreases j,
{
    if j <= 0 || !is_ws(s[j - 1]) {
        j
    } else {
        last_non_ws(s, j - 1)
    }
}

/// `str::trim`: the text without leading and trailing whitespace.
pub open spec fn trim_spec(s: Seq<char>) -> Seq<char> {
    let a = first_non_ws(s, 0);
    if a >= s.len() {
        Seq::empty()
    } else {
        s.subrange(a, last_non_ws(s, s.len() as int))
    }
}

/// Text without the tool's command separator `;` or a line break.
pub open spec fn clean_text(s: Seq<char>) -> bool {
    forall|i: int| 0 <= i < s.len() ==> !(#[trigger] s[i] == ';' || s[i] == '\n' || s[i] == '\r')
}

/// A non-empty string of decimal digits.
pub open spec fn is_dec_str(s: Seq<char>) -> bool {
    s.len() > 0 && all_digits(s)
}

pub broadcast proof fn lemma_clean_concat(a: Seq<char>, b: Seq<char>)
    requires
        clean_text(a),
        clean_text(b),
    ensures
        #[trigger] clean_text(a + b),
{
    assert forall|i: int| 0 <= i < (a + b).len() implies !(#[trigger] (a + b)[i] == ';' || (a
        + b)[i] == '\n' || (a + b)[i] == '\r') by {
        if i < a.len() {
            assert((a + b)[i] == a[i]);
        } else {
            assert((a + b)[i] == b[i - a.len()]);
        }
    }
}

proof fn lemma_dec_clean_rec(n: nat)
    ensures
        clean_text(dec(n)),
        all_digits(dec(n)),
    decreases n,
{
    if n >= 10 {
        lemma_dec_clean_rec(n / 10);
        let d = dec(n / 10);
        assert forall|i: int| 0 <= i < d.push(digit_char(n % 10)).len() implies is_digit(
            #[trigger] d.push(digit_char(n % 10))[i],
        ) by {
            if i < d.len() {
                assert(d.push(digit_char(n % 10))[i] == d[i]);
            }
        }
    }
}

pub broadcast proof fn lemma_dec_clean(n: nat)
    ensures
        #[trigger] clean_text(dec(n)),
{
    lemma_dec_clean_rec(n);
}

/// Hex strings, decimal strings and UIDs of letters, digits and colons hold
/// no separator or line break.
pub proof fn lemma_alphabets_clean(s: Seq<char>)
    ensures
        is_hex_str(s) ==> clean_text(s),
        is_dec_str(s) ==> clean_text(s),
        is_alnum_colon_str(s) ==> clean_text(s),
{
}

/// Whether `s` is a non-empty string of decimal digits.
pub fn is_decimal(s: &str) -> (r: bool)
    ensures
        r == is_dec_str(s@),
{
    let v = chars_of(s);
    if v.len() == 0 {
        return false;
    }
    let mut i: usize = 0;
    while i < v.len()
        invariant
            v@ == s@,
            i <= v.len(),
            forall|k: int| 0 <= k < i ==> is_digit(#[trigger] v@[k]),
        decreases v.len() - i,
    {
        if !('0' <= v[i] && v[i] <= '9') {
            assert(!is_digit(s@[i as int]));
            return false;
        }
        i = i + 1;
    }
    true
}

/// Relies on `String::push`: appends one character.
#[verifier::external_body]
pub fn push_char(s: &mut String, c: char)
    ensures
        final(s)@ == old(s)@.push(c),
{
    s.push(c)
}

/// The characters of `s`, in order.
pub fn chars_of(s: &str) -> (r: Vec<char>)
    ensures
        r@ == s@,
{
    let mut r: Vec<char> = Vec::new();
    for c in it: s.chars()
        invariant
            r@ == it.seq().take(it.index() as int),
    {
        r.push(c);
    }
    r
}

/// A `String` holding exactly the given characters.
pub fn string_of(v: &Vec<char>) -> (r: String)
    ensures
        r@ == v@,
{
    let mut r = String::new();
    let mut i: usize = 0;
    while i < v.len()
        invariant
            i <= v.len(),
            r@ == v@.take(i as int),
        decreases v.len() - i,
    {
        push_char(&mut r, v[i]);
        assert(v@.take(i as int).push(v@[i as int]) =~= v@.take(i + 1));
        i = i + 1;
    }
    assert(v@.take(v.len() as int) =~= v@);
    r
}

/// `a` followed by `b`.
pub fn cat(a: &str, b: &str) -> (r: String)
    ensures
        r@ == a@ + b@,
{
    let mut r = String::from_str(a);
    r.append(b);
    r
}

/// Appends `b` to `s`.
pub fn append_str(s: &mut String, b: &str)
    ensures
        final(s)@ == old(s)@ + b@,
{
    s.append(b);
}

/// Equality of two strings by their characters.
pub fn str_eq(a: &str, b: &str) -> (r: bool)
    ensures
        r == (a@ == b@),
{
    let av = chars_of(a);
    let bv = chars_of(b);
    seq_eq(&av, &bv)
}

pub fn seq_eq(a: &Vec<char>, b: &Vec<char>) -> (r: bool)
    ensures
        r == (a@ == b@),
{
    if a.len() != b.len() {
        return false;
    }
    let mut i: usize = 0;
    while i < a.len()
        invariant
            a.len() == b.len(),
            i <= a.len(),
            forall|k: int| 0 <= k < i ==> a@[k] == b@[k],
        decreases a.len() - i,
    {
        if a[i] != b[i] {
            return false;
        }
        i = i + 1;
    }
    assert(a@ =~= b@);
    true
}

/// Whether `needle` occurs in `hay` at position `i`.
pub fn occurs_at_exec(hay: &Vec<char>, needle: &Vec<char>, i: usize) -> (r: bool)
    ensures
        r == occurs_at(hay@, needle@, i as int),
{
    if i > hay.len() || needle.len() > hay.len() - i {
        return false;
    }
    let mut k: usize = 0;
    while k < needle.len()
        invariant
            i + needle.len() <= hay.len(),
            k <= needle.len(),
            forall|j: int| 0 <= j < k ==> hay@[i + j] == needle@[j],
        decreases needle.len() - k,
    {
        if hay[i + k] != needle[k] {
            assert(hay@.subrange(i as int, i + needle.len())[k as int] != needle@[k as int]);
            return false;
        }
        k = k + 1;
    }
    assert(hay@.subrange(i as int, i + needle.len()) =~= needle@);
    true
}

/// Position of the first occurrence of `needle` in `hay` at or after `from`.
pub fn find_from(hay: &Vec<char>, needle: &Vec<char>, from: usize) -> (r: Option<usize>)
    ensures
        match r {
            Some(i) => from <= i && occurs_at(hay@, needle@, i as int) && forall|j: int|
                from <= j < i ==> !occurs_at(hay@, needle@, j),
            None => forall|j: int| from <= j ==> !occurs_at(hay@, needle@, j),
        },
{
    if from > hay.len() {
        return None;
    }
    let mut i: usize = from;
    while i < hay.len()
        invariant
            from <= i <= hay.len(),
            forall|j: int| from <= j < i ==> !occurs_at(hay@, needle@, j),
        decreases hay.len() - i,
    {
        if occurs_at_exec(hay, needle, i) {
            return Some(i);
        }
        i = i + 1;
    }
    if occurs_at_exec(hay, needle, i) {
        return Some(i);
    }
    None
}

/// Whether `needle` occurs anywhere in `hay`.
pub fn contains(hay: &Vec<char>, needle: &str) -> (r: bool)
    ensures
        r == seq_contains(hay@, needle@),
{
    let n = chars_of(needle);
    match find_from(hay, &n, 0) {
        Some(_) => true,
        None => false,
    }
}

pub fn is_hex(s: &str) -> (r: bool)
    ensures
        r == is_hex_str(s@),
{
    let v = chars_of(s);
    if v.len() == 0 {
        return false;
    }
    let mut i: usize = 0;
    while i < v.len()
        invariant
            v@ == s@,
            i <= v.len(),
            forall|k: int| 0 <= k < i ==> is_hex_char(#[trigger] v@[k]),
        decreases v.len() - i,
    {
        let c = v[i];
        if !(('0' <= c && c <= '9') || ('a' <= c && c <= 'f') || ('A' <= c && c <= 'F')) {
            return false;
        }
        i = i + 1;
    }
    true
}

pub fn is_alnum_colon(s: &str) -> (r: bool)
    ensures
        r == is_alnum_colon_str(s@),
{
    let v = chars_of(s);
    if v.len() == 0 {
        return false;
    }
    let mut i: usize = 0;
    while i < v.len()
        invariant
            v@ == s@,
            i <= v.len(),
            forall|k: int| 0 <= k < i ==> is_alnum_or_colon(#[trigger] v@[k]),
        decreases v.len() - i,
    {
        let c = v[i];
        if !(('0' <= c && c <= '9') || ('a' <= c && c <= 'z') || ('A' <= c && c <= 'Z') || c
            == ':') {
            return false;
        }
        i = i + 1;
    }
    true
}

fn digit_of(d: u64) -> (c: char)
    requires
        d < 10,
    ensures
        c == digit_char(d as nat),
{
    if d == 0 { '0' } else if d == 1 { '1' } else if d == 2 { '2' } else if d == 3 { '3' }
    else if d == 4 { '4' } else if d == 5 { '5' } else if d == 6 { '6' } else if d == 7 { '7' }
    else if d == 8 { '8' } else { '9' }
}

fn dec_chars(n: u64) -> (r: Vec<char>)
    ensures
        r@ == dec(n as nat),
    decreases n,
{
    if n < 10 {
        let c = digit_of(n);
        let mut v: Vec<char> = Vec::new();
        v.push(c);
        assert(v@ =~= seq![c]);
        v
    } else {
        let mut v = dec_chars(n / 10);
        v.push(digit_of(n % 10));
        v
    }
}

/// Decimal rendering of `n`, as `format!("{}", n)` writes it.
pub fn dec_string(n: u64) -> (r: String)
    ensures
        r@ == dec(n as nat),
{
    let v = dec_chars(n);
    string_of(&v)
}

proof fn lemma_digits_value_take(s: Seq<char>, i: int)
    requires
        0 <= i < s.len(),
    ensures
        digits_value(s.take(i + 1)) == digits_value(s.take(i)) * 10 + ((s[i] as nat) - (
        '0' as nat)) as nat,
{
    assert(s.take(i + 1).drop_last() =~= s.take(i));
}

proof fn lemma_prefix_value_le(s: Seq<char>, k: int)
    requires
        all_digits(s),
        0 <= k <= s.len(),
    ensures
        digits_value(s.take(k)) <= digits_value(s),
    decreases s.len(),
{
    if k == s.len() {
        assert(s.take(k) =~= s);
    } else {
        let t = s.drop_last();
        assert(all_digits(t)) by {
            assert forall|i: int| 0 <= i < t.len() implies is_digit(#[trigger] t[i]) by {
                assert(t[i] == s[i]);
            }
        }
        lemma_prefix_value_le(t, k);
        assert(t.take(k) =~= s.take(k));
        assert(is_digit(s[s.len() - 1]));
    }
}

/// Reads an unsigned decimal number as std's integer parsing does, accepting
/// it only when its value is at most `max`.
pub fn parse_unsigned(s: &str, max: u64) -> (r: Option<u64>)
    ensures
        r == (match unsigned_digits(s@) {
            Some(d) => if digits_value(d) <= max {
                Some(digits_value(d) as u64)
            } else {
                None::<u64>
            },
            None => None,
        }),
{
    let v = chars_of(s);
    let mut start: usize = 0;
    if v.len() > 0 && v[0] == '+' {
        start = 1;
    }
    let ghost body = if s@.len() > 0 && s@[0] == '+' { s@.drop_first() } else { s@ };
    assert(body =~= v@.subrange(start as int, v.len() as int));
    assert(unsigned_digits(s@) == if body.len() > 0 && all_digits(body) {
        Some(body)
    } else {
        None
    });
    if start >= v.len() {
        assert(body.len() == 0);
        return None;
    }
    let mut i: usize = start;
    let mut val: u128 = 0;
    while i < v.len()
        invariant
            v@ == s@,
            start <= i <= v.len(),
            start < v.len(),
            body == v@.subrange(start as int, v.len() as int),
            forall|k: int| 0 <= k < i - start ==> is_digit(#[trigger] body[k]),
            val as nat == digits_value(body.take(i - start)),
            val <= max,
            unsigned_digits(s@) == if body.len() > 0 && all_digits(body) {
                Some(body)
            } else {
                None
            },
        decreases v.len() - i,
    {
        let c = v[i];
        if !('0' <= c && c <= '9') {
            assert(body[i - start] == v@[i as int]);
            assert(!is_digit(body[i - start]));
            assert(!all_digits(body));
            return None;
        }
        let d: u128 = (c as u32 - '0' as u32) as u128;
        proof {
            lemma_digits_value_take(body, i - start);
        }
        val = val * 10 + d;
        i = i + 1;
        if val > max as u128 {
            proof {
                if all_digits(body) {
                    lemma_prefix_value_le(body, (i - start) as int);
                }
            }
            return None;
        }
    }
    assert(body.take(i - start) =~= body);
    Some(val as u64)
}

pub open spec fn hex_char_value(c: char) -> nat {
    if '0' <= c && c <= '9' {
        ((c as u32) - ('0' as u32)) as nat
    } else if 'a' <= c && c <= 'f' {
        ((c as u32) - ('a' as u32) + 10) as nat
    } else {
        ((c as u32) - ('A' as u32) + 10) as nat
    }
}

/// Value of a string of hex digits.
pub open spec fn hex_value(s: Seq<char>) -> nat
    decreases s.len(),
{
    if s.len() == 0 {
        0
    } else {
        hex_value(s.drop_last()) * 16 + hex_char_value(s.last())
    }
}

proof fn lemma_hex_prefix_le(s: Seq<char>, k: int)
    requires
        0 <= k <= s.len(),
    ensures
        hex_value(s.take(k)) <= hex_value(s),
    decreases s.len(),
{
    if k < s.len() {
        lemma_hex_prefix_le(s.drop_last(), k);
        assert(s.drop_last().take(k) =~= s.take(k));
    } else {
        assert(s.take(k) =~= s);
    }
}

/// A non-empty string of hex digits read as a number, when it fits in 32
/// bits (what `u32::from_str_radix(s, 16)` gives on such strings).
pub fn parse_hex_u32(s: &str) -> (r: Option<u32>)
    ensures
        r == (if is_hex_str(s@) && hex_value(s@) <= u32::MAX {
            Some(hex_value(s@) as u32)
        } else {
            None::<u32>
        }),
{
    let v = chars_of(s);
    if v.len() == 0 {
        return None;
    }
    let mut val: u64 = 0;
    let mut i: usize = 0;
    while i < v.len()
        invariant
            v@ == s@,
            i <= v.len(),
            val <= 0xffff_ffff,
            val as nat == hex_value(v@.take(i as int)),
            forall|k: int| 0 <= k < i ==> is_hex_char(#[trigger] v@[k]),
        decreases v.len() - i,
    {
        let c = v[i];
        let d: u64 = if '0' <= c && c <= '9' {
            (c as u32 - '0' as u32) as u64
        } else if 'a' <= c && c <= 'f' {
            (c as u32 - 'a' as u32 + 10) as u64
        } else if 'A' <= c && c <= 'F' {
            (c as u32 - 'A' as u32 + 10) as u64
        } else {
            assert(!is_hex_char(s@[i as int]));
            return None;
        };
        assert(v@.take(i + 1).drop_last() =~= v@.take(i as int));
        val = val * 16 + d;
        i = i + 1;
        if val > 0xffff_ffff {
            proof {
                lemma_hex_prefix_le(s@, i as int);
            }
            return None;
        }
    }
    assert(v@.take(i as int) =~= v@);
    Some(val as u32)
}

/// `str::parse::<u32>`.
pub fn parse_u32(s: &str) -> (r: Option<u32>)
    ensures
        r == parse_u32_spec(s@),
{
    match parse_unsigned(s, 0xffff_ffff) {
        Some(v) => Some(v as u32),
        None => None,
    }
}

/// `str::parse::<u64>`.
pub fn parse_u64(s: &str) -> (r: Option<u64>)
    ensures
        r == parse_u64_spec(s@),
{
    parse_unsigned(s, 0xffff_ffff_ffff_ffff)
}

/// What `str::to_uppercase` gives: Unicode upper-casing.
pub uninterp spec fn upper_of(s: Seq<char>) -> Seq<char>;

/// What `str::to_lowercase` gives: Unicode lower-casing.
pub uninterp spec fn lower_of(s: Seq<char>) -> Seq<char>;

pub open spec fn upper_char(c: char) -> char {
    if 'a' <= c && c <= 'z' {
        ((c as u8) - 32) as u8 as char
    } else {
        c
    }
}

/// ASCII upper-casing; other characters are kept.
pub open spec fn upper(s: Seq<char>) -> Seq<char> {
    s.map_values(|c: char| upper_char(c))
}

/// Every character is ASCII.
pub open spec fn is_ascii_text(s: Seq<char>) -> bool {
    forall|i: int| 0 <= i < s.len() ==> (#[trigger] s[i] as u32) < 128
}

/// Relies on `str::to_uppercase`: the result depends on the characters
/// alone, and on ASCII text it maps `a`-`z` to `A`-`Z` and keeps the rest.
#[verifier::external_body]
pub fn to_upper(s: &str) -> (r: String)
    ensures
        r@ == upper_of(s@),
        is_ascii_text(s@) ==> r@ == upper(s@),
{
    s.to_uppercase()
}

/// Relies on `str::to_lowercase`: the result depends on the characters
/// alone, and on ASCII text it maps `A`-`Z` to `a`-`z` and keeps the rest.
#[verifier::external_body]
pub fn to_lower(s: &str) -> (r: String)
    ensures
        r@ == lower_of(s@),
        is_ascii_text(s@) ==> r@ == lower(s@),
{
    s.to_lowercase()
}

/// Equality after ASCII lower-casing, as `str::eq_ignore_ascii_case`.
pub fn eq_ignore_case(a: &str, b: &str) -> (r: bool)
    ensures
        r == (lower(a@) == lower(b@)),
{
    let av = chars_of(a);
    let bv = chars_of(b);
    if av.len() != bv.len() {
        assert(lower(a@).len() != lower(b@).len());
        return false;
    }
    let mut i: usize = 0;
    while i < av.len()
        invariant
            av@ == a@,
            bv@ == b@,
            av.len() == bv.len(),
            i <= av.len(),
            forall|k: int| 0 <= k < i ==> lower_char(av@[k]) == lower_char(bv@[k]),
        decreases av.len() - i,
    {
        let x = av[i];
        let y = bv[i];
        let lx = if 'A' <= x && x <= 'Z' {
            ((x as u8) + 32) as char
        } else {
            x
        };
        let ly = if 'A' <= y && y <= 'Z' {
            ((y as u8) + 32) as char
        } else {
            y
        };
        if lx != ly {
            assert(lower(a@)[i as int] != lower(b@)[i as int]);
            return false;
        }
        i = i + 1;
    }
    assert(lower(a@) =~= lower(b@));
    true
}

/// `char::is_whitespace`.
pub fn is_ws_char(c: char) -> (r: bool)
    ensures
        r == is_ws(c),
{
    ('\t' <= c && c <= '\r') || c == ' ' || c == '\u{85}' || c == '\u{a0}' || c == '\u{1680}'
        || ('\u{2000}' <= c && c <= '\u{200a}') || c == '\u{2028}' || c == '\u{2029}' || c
        == '\u{202f}' || c == '\u{205f}' || c == '\u{3000}'
}

/// `str::trim`: `s` without leading and trailing whitespace.
pub fn trim(s: &str) -> (r: String)
    ensures
        r@ == trim_spec(s@),
{
    let v = chars_of(s);
    let mut a: usize = 0;
    while a < v.len() && is_ws_char(v[a])
        invariant
            v@ == s@,
            a <= v.len(),
            first_non_ws(v@, 0) == first_non_ws(v@, a as int),
        decreases v.len() - a,
    {
        a = a + 1;
    }
    if a >= v.len() {
        return String::new();
    }
    let mut b: usize = v.len();
    while b > 0 && is_ws_char(v[b - 1])
        invariant
            v@ == s@,
            a < v.len(),
            !is_ws(v@[a as int]),
            a < b <= v.len(),
            last_non_ws(v@, v.len() as int) == last_non_ws(v@, b as int),
        decreases b,
    {
        b = b - 1;
    }
    let mut out: Vec<char> = Vec::new();
    let mut i: usize = a;
    while i < b
        invariant
            a <= i <= b,
            b <= v.len(),
            out@ == v@.subrange(a as int, i as int),
        decreases b - i,
    {
        out.push(v[i]);
        i = i + 1;
    }
    string_of(&out)
}

/// `s` without its whitespace characters.
pub open spec fn without_ws(s: Seq<char>) -> Seq<char> {
    s.filter(|c: char| !is_ws(c))
}

/// `s` with only its ASCII hex digits.
pub open spec fn hex_only(s: Seq<char>) -> Seq<char> {
    s.filter(|c: char| is_hex_char(c))
}

/// `s` with every whitespace character removed.
pub fn remove_ws(s: &str) -> (r: String)
    ensures
        r@ == without_ws(s@),
{
    let v = chars_of(s);
    let mut out: Vec<char> = Vec::new();
    let mut i: usize = 0;
    while i < v.len()
        invariant
            v@ == s@,
            i <= v.len(),
            out@ == v@.take(i as int).filter(|c: char| !is_ws(c)),
        decreases v.len() - i,
    {
        assert(v@.take(i + 1).drop_last() =~= v@.take(i as int));
        proof {
            reveal(Seq::filter);
        }
        if !is_ws_char(v[i]) {
            out.push(v[i]);
        }
        i = i + 1;
    }
    assert(v@.take(v.len() as int) =~= v@);
    string_of(&out)
}

/// `s` with only its ASCII hex digits kept.
pub fn keep_hex(s: &str) -> (r: String)
    ensures
        r@ == hex_only(s@),
{
    let v = chars_of(s);
    let mut out: Vec<char> = Vec::new();
    let mut i: usize = 0;
    while i < v.len()
        invariant
            v@ == s@,
            i <= v.len(),
            out@ == v@.take(i as int).filter(|c: char| is_hex_char(c)),
        decreases v.len() - i,
    {
        assert(v@.take(i + 1).drop_last() =~= v@.take(i as int));
        proof {
            reveal(Seq::filter);
        }
        let c = v[i];
        if ('0' <= c && c <= '9') || ('a' <= c && c <= 'f') || ('A' <= c && c <= 'F') {
            out.push(c);
        }
        i = i + 1;
    }
    assert(v@.take(v.len() as int) =~= v@);
    string_of(&out)
}

/// The whitespace-separated words of `s` from position `i` on, `cur` being
/// the part of the current word already read.
pub open spec fn words_from(s: Seq<char>, i: int, cur: Seq<char>) -> Seq<Seq<char>>
    decreases s.len() - i,
{
    if i < 0 || i >= s.len() {
        if cur.len() > 0 {
            seq![cur]
        } else {
            Seq::empty()
        }
    } else if is_ws(s[i]) {
        (if cur.len() > 0 {
            seq![cur]
        } else {
            Seq::empty()
        }) + words_from(s, i + 1, Seq::empty())
    } else {
        words_from(s, i + 1, cur.push(s[i]))
    }
}

/// The whitespace-separated words of `s`, as `str::split_whitespace` gives them.
pub open spec fn words(s: Seq<char>) -> Seq<Seq<char>> {
    words_from(s, 0, Seq::empty())
}

/// Words upper-cased and joined by single spaces.
pub open spec fn join_upper(ws: Seq<Seq<char>>) -> Seq<char>
    decreases ws.len(),
{
    if ws.len() == 0 {
        Seq::empty()
    } else if ws.len() == 1 {
        upper_of(ws[0])
    } else {
        join_upper(ws.drop_last()) + " "@ + upper_of(ws.last())
    }
}

/// The whitespace-separated words of `s`, upper-cased and joined by single
/// spaces.
pub open spec fn words_upper(s: Seq<char>) -> Seq<char> {
    join_upper(words(s))
}

fn split_words(s: &str) -> (r: Vec<Vec<char>>)
    ensures
        r@.map_values(|w: Vec<char>| w@) == words(s@),
{
    let v = chars_of(s);
    let mut out: Vec<Vec<char>> = Vec::new();
    let mut cur: Vec<char> = Vec::new();
    let mut i: usize = 0;
    while i < v.len()
        invariant
            v@ == s@,
            i <= v.len(),
            out@.map_values(|w: Vec<char>| w@) + words_from(v@, i as int, cur@) == words(v@),
        decreases v.len() - i,
    {
        let ghost before = out@.map_values(|w: Vec<char>| w@);
        let ghost c0 = cur@;
        if is_ws_char(v[i]) {
            if cur.len() > 0 {
                out.push(cur);
                cur = Vec::new();
                assert(out@.map_values(|w: Vec<char>| w@) =~= before.push(c0));
                assert(before + words_from(v@, i as int, c0) =~= out@.map_values(
                    |w: Vec<char>| w@,
                ) + words_from(v@, i + 1, cur@));
            } else {
                assert(c0 =~= Seq::<char>::empty());
                assert(words_from(v@, i as int, c0) =~= words_from(v@, i + 1, cur@));
                assert(before + words_from(v@, i as int, c0) =~= before + words_from(
                    v@,
                    i + 1,
                    cur@,
                ));
            }
        } else {
            cur.push(v[i]);
        }
        i = i + 1;
    }
    let ghost before = out@.map_values(|w: Vec<char>| w@);
    if cur.len() > 0 {
        let ghost c0 = cur@;
        out.push(cur);
        assert(out@.map_values(|w: Vec<char>| w@) =~= before.push(c0));
    }
    assert(out@.map_values(|w: Vec<char>| w@) =~= words(v@));
    out
}

/// The whitespace-separated words of `s`, upper-cased and joined by single
/// spaces.
pub fn join_words_upper(s: &str) -> (r: String)
    ensures
        r@ == words_upper(s@),
{
    let ws = split_words(s);
    let ghost wv = ws@.map_values(|w: Vec<char>| w@);
    let mut r = String::new();
    let mut i: usize = 0;
    while i < ws.len()
        invariant
            i <= ws.len(),
            wv == ws@.map_values(|w: Vec<char>| w@),
            r@ == join_upper(wv.take(i as int)),
        decreases ws.len() - i,
    {
        let w = string_of(&ws[i]);
        let u = to_upper(w.as_str());
        if i > 0 {
            append_str(&mut r, " ");
        }
        append_str(&mut r, u.as_str());
        assert(wv.take(i + 1).drop_last() =~= wv.take(i as int));
        assert(wv.take(i + 1).last() == wv[i as int]);
        if i == 0 {
            assert(r@ =~= join_upper(wv.take(1)));
        }
        i = i + 1;
    }
    assert(wv.take(ws.len() as int) =~= wv);
    r
}

/// A line without the `\r` of a `\r\n` terminator.
pub open spec fn drop_cr(l: Seq<char>) -> Seq<char> {
    if l.len() > 0 && l.last() == '\r' {
        l.drop_last()
    } else {
        l
    }
}

/// The lines of `s` from position `i` on, `cur` being the part of the
/// current line already read.
pub open spec fn lines_from(s: Seq<char>, i: int, cur: Seq<char>) -> Seq<Seq<char>>
    decreases s.len() - i,
{
    if i < 0 || i >= s.len() {
        if cur.len() > 0 {
            seq![cur]
        } else {
            Seq::empty()
        }
    } else if s[i] == '\n' {
        seq![drop_cr(cur)] + lines_from(s, i + 1, Seq::empty())
    } else {
        lines_from(s, i + 1, cur.push(s[i]))
    }
}

/// The lines of `s` as `str::lines` splits them: at `\n` or `\r\n`, with
/// no empty line after a final terminator.
pub open spec fn lines_spec(s: Seq<char>) -> Seq<Seq<char>> {
    lines_from(s, 0, Seq::empty())
}

pub open spec fn views(v: Seq<String>) -> Seq<Seq<char>> {
    v.map_values(|l: String| l@)
}

/// The lines of `s`, as `str::lines` gives them.
pub fn lines_of(s: &str) -> (r: Vec<String>)
    ensures
        views(r@) == lines_spec(s@),
{
    let v = chars_of(s);
    let mut lines: Vec<String> = Vec::new();
    let mut cur: Vec<char> = Vec::new();
    let mut i: usize = 0;
    while i < v.len()
        invariant
            v@ == s@,
            i <= v.len(),
            views(lines@) + lines_from(v@, i as int, cur@) == lines_spec(v@),
        decreases v.len() - i,
    {
        let ghost before = views(lines@);
        let ghost c0 = cur@;
        if v[i] == '\n' {
            if cur.len() > 0 && cur[cur.len() - 1] == '\r' {
                cur.pop();
            }
            lines.push(string_of(&cur));
            assert(views(lines@) =~= before.push(drop_cr(c0)));
            cur = Vec::new();
            assert(before + lines_from(v@, i as int, c0) =~= views(lines@) + lines_from(
                v@,
                i + 1,
                cur@,
            ));
        } else {
            cur.push(v[i]);
        }
        i = i + 1;
    }
    let ghost before = views(lines@);
    if cur.len() > 0 {
        lines.push(string_of(&cur));
        assert(views(lines@) =~= before.push(cur@));
    }
    assert(views(lines@) =~= lines_spec(v@));
    lines
}

} // verus!
