//! Character-level helpers shared by the request builders and the parsers
//! of command output: decimal numbers, lines, fields and white space.
use vstd::prelude::*;
use vstd::string::*;

verus! {

/// Appends one character to a `String` (`String::push`).
#[verifier::external_body]
pub(crate) fn push_char(s: &mut String, c: char)
    ensures
        final(s)@ == old(s)@.push(c),
{
    s.push(c);
}

/// Appends a string slice to a `String` (`String::push_str`).
#[verifier::external_body]
pub(crate) fn push_str(s: &mut String, t: &str)
    ensures
        final(s)@ == old(s)@ + t@,
{
    s.push_str(t);
}

/// The ASCII character of a decimal digit.
pub open spec fn digit_char(d: int) -> char {
    ((48 + d) as u8) as char
}

/// The decimal representation of a natural number, without leading zeros.
pub open spec fn decimal(n: nat) -> Seq<char>
    decreases n,
{
    if n < 10 {
        seq![digit_char(n as int)]
    } else {
        decimal(n / 10).push(digit_char((n % 10) as int))
    }
}

/// The decimal representation of an integer, with a leading `-` when negative.
pub open spec fn signed_decimal(n: int) -> Seq<char> {
    if n < 0 {
        seq!['-'] + decimal((-n) as nat)
    } else {
        decimal(n as nat)
    }
}

fn digit(d: u64) -> (c: char)
    requires
        d < 10,
    ensures
        c == digit_char(d as int),
{
    ((48u64 + d) as u8) as char
}

/// Appends the decimal representation of `n`.
pub fn push_decimal(s: &mut String, n: u64)
    ensures
        final(s)@ == old(s)@ + decimal(n as nat),
    decreases n,
{
    if n >= 10 {
        push_decimal(s, n / 10);
    }
    let c = digit(n % 10);
    push_char(s, c);
    assert(s@ =~= old(s)@ + decimal(n as nat));
}

/// Appends the decimal representation of a signed number.
pub fn push_decimal_wide(s: &mut String, n: u128)
    ensures
        final(s)@ == old(s)@ + decimal(n as nat),
    decreases n,
{
    if n >= 10 {
        push_decimal_wide(s, n / 10);
    }
    let c = digit((n % 10) as u64);
    push_char(s, c);
    assert(s@ =~= old(s)@ + decimal(n as nat));
}

pub fn push_signed_decimal_wide(s: &mut String, n: i128)
    ensures
        final(s)@ == old(s)@ + signed_decimal(n as int),
{
    if n < 0 {
        push_char(s, '-');
        let magnitude: u128 = ((-(n + 1)) as u128) + 1;
        push_decimal_wide(s, magnitude);
        assert(s@ =~= old(s)@ + signed_decimal(n as int));
    } else {
        push_decimal_wide(s, n as u128);
    }
}

pub fn push_signed_decimal(s: &mut String, n: i64)
    ensures
        final(s)@ == old(s)@ + signed_decimal(n as int),
{
    if n < 0 {
        push_char(s, '-');
        let magnitude: u64 = ((-(n + 1)) as u64) + 1;
        push_decimal(s, magnitude);
        assert(s@ =~= old(s)@ + signed_decimal(n as int));
    } else {
        push_decimal(s, n as u64);
    }
}

/// The decimal text of `n` as a new `String`.
pub fn decimal_string(n: u64) -> (s: String)
    ensures
        s@ == decimal(n as nat),
{
    let mut s = String::new();
    push_decimal(&mut s, n);
    assert(s@ =~= decimal(n as nat));
    s
}

} // verus!

verus! {

/// Unicode `White_Space`, the set that `char::is_whitespace` tests.
pub open spec fn is_white_space(c: char) -> bool {
    let u = c as u32;
    ||| 0x09 <= u <= 0x0d
    ||| u == 0x20
    ||| u == 0x85
    ||| u == 0xa0
    ||| u == 0x1680
    ||| 0x2000 <= u <= 0x200a
    ||| u == 0x2028
    ||| u == 0x2029
    ||| u == 0x202f
    ||| u == 0x205f
    ||| u == 0x3000
}

/// Whether a character is Unicode white space.
pub fn white_space(c: char) -> (b: bool)
    ensures
        b == is_white_space(c),
{
    let u = c as u32;
    (0x09 <= u && u <= 0x0d) || u == 0x20 || u == 0x85 || u == 0xa0 || u == 0x1680 || (0x2000
        <= u && u <= 0x200a) || u == 0x2028 || u == 0x2029 || u == 0x202f || u == 0x205f || u
        == 0x3000
}

/// Whether a text is empty once white space is trimmed from both ends.
pub open spec fn is_blank(s: Seq<char>) -> bool {
    forall|i: int| 0 <= i < s.len() ==> is_white_space(#[trigger] s[i])
}

/// Tests `s.trim().is_empty()`.
pub fn blank(s: &str) -> (b: bool)
    ensures
        b == is_blank(s@),
{
    let n = s.unicode_len();
    let mut i: usize = 0;
    while i < n
        invariant
            n == s@.len(),
            i <= n,
            forall|j: int| 0 <= j < i ==> is_white_space(#[trigger] s@[j]),
        decreases n - i,
    {
        if !white_space(s.get_char(i)) {
            return false;
        }
        i += 1;
    }
    true
}

} // verus!

verus! {

pub open spec fn is_digit(c: char) -> bool {
    48 <= (c as u32) <= 57
}

pub open spec fn all_digits(s: Seq<char>) -> bool {
    forall|i: int| 0 <= i < s.len() ==> is_digit(#[trigger] s[i])
}

/// The number that a string of decimal digits denotes.
pub open spec fn digits_value(s: Seq<char>) -> nat
    decreases s.len(),
{
    if s.len() == 0 {
        0
    } else {
        digits_value(s.drop_last()) * 10 + ((s.last() as u32) - 48) as nat
    }
}

/// An optional `+` sign is dropped before the digits.
pub open spec fn unsigned_digits(s: Seq<char>) -> Seq<char> {
    if s.len() > 0 && s[0] == '+' {
        s.drop_first()
    } else {
        s
    }
}

/// What `str::parse` gives for an unsigned integer type whose largest value
/// is `max`: an optional `+` and then at least one ASCII digit, with the
/// value no larger than `max`.
pub open spec fn parse_unsigned(s: Seq<char>, max: nat) -> Option<nat> {
    let d = unsigned_digits(s);
    if d.len() > 0 && all_digits(d) && digits_value(d) <= max {
        Some(digits_value(d))
    } else {
        None
    }
}

/// What `str::parse` gives for a signed integer type with range
/// `-neg_limit ..= max`: an optional sign and then at least one ASCII digit.
pub open spec fn parse_signed(s: Seq<char>, neg_limit: nat, max: nat) -> Option<int> {
    if s.len() > 0 && s[0] == '-' {
        let d = s.drop_first();
        if d.len() > 0 && all_digits(d) && digits_value(d) <= neg_limit {
            Some(-(digits_value(d) as int))
        } else {
            None
        }
    } else {
        match parse_unsigned(s, max) {
            Some(v) => Some(v as int),
            None => None,
        }
    }
}

proof fn lemma_digits_value_prefix(s: Seq<char>, k: int)
    requires
        0 <= k <= s.len(),
    ensures
        digits_value(s.take(k)) <= digits_value(s),
    decreases s.len(),
{
    if k < s.len() {
        assert(s.drop_last().take(k) =~= s.take(k));
        lemma_digits_value_prefix(s.drop_last(), k);
    } else {
        assert(s.take(k) =~= s);
    }
}

/// Reads the digits of `s` from `start` to the end, as `str::parse` does for
/// an unsigned type with largest value `max`.
fn parse_digits_from(s: &str, start: usize, max: u64) -> (r: Option<u64>)
    requires
        start <= s@.len(),
    ensures
        ({
            let d = s@.skip(start as int);
            match r {
                Some(v) => d.len() > 0 && all_digits(d) && digits_value(d) <= max && v
                    == digits_value(d),
                None => !(d.len() > 0 && all_digits(d) && digits_value(d) <= max),
            }
        }),
{
    let n = s.unicode_len();
    if start == n {
        return None;
    }
    let ghost d = s@.skip(start as int);
    let mut acc: u64 = 0;
    let mut i: usize = start;
    while i < n
        invariant
            n == s@.len(),
            start < n,
            start <= i <= n,
            d == s@.skip(start as int),
            all_digits(d.take(i - start)),
            acc == digits_value(d.take(i - start)),
            acc <= max,
        decreases n - i,
    {
        let c = s.get_char(i);
        let u = c as u32;
        if u < 48 || u > 57 {
            assert(d[i - start] == c);
            return None;
        }
        let next: u128 = (acc as u128) * 10 + ((u - 48) as u128);
        assert(d.take(i + 1 - start).drop_last() =~= d.take(i - start));
        assert(d.take(i + 1 - start).last() == c);
        if next > max as u128 {
            proof {
                lemma_digits_value_prefix(d, i + 1 - start);
            }
            return None;
        }
        acc = next as u64;
        i += 1;
        assert forall|j: int| 0 <= j < i - start implies is_digit(#[trigger] d.take(i - start)[j]) by {
            if j < i - 1 - start {
                assert(d.take(i - start)[j] == d.take(i - 1 - start)[j]);
            }
        }
    }
    assert(d.take(n - start) =~= d);
    Some(acc)
}

/// `str::parse::<u64>`-style parsing limited to values up to `max`.
pub fn parse_unsigned_str(s: &str, max: u64) -> (r: Option<u64>)
    ensures
        match r {
            Some(v) => parse_unsigned(s@, max as nat) == Some(v as nat),
            None => parse_unsigned(s@, max as nat) is None,
        },
{
    let n = s.unicode_len();
    if n > 0 && s.get_char(0) == '+' {
        assert(s@.skip(1) =~= s@.drop_first());
        parse_digits_from(s, 1, max)
    } else {
        assert(s@.skip(0) =~= s@);
        parse_digits_from(s, 0, max)
    }
}

/// `str::parse::<u16>`.
pub fn parse_u16(s: &str) -> (r: Option<u16>)
    ensures
        match r {
            Some(v) => parse_unsigned(s@, 65535) == Some(v as nat),
            None => parse_unsigned(s@, 65535) is None,
        },
{
    match parse_unsigned_str(s, 65535) {
        Some(v) => Some(v as u16),
        None => None,
    }
}

/// `str::parse::<u8>`.
pub fn parse_u8(s: &str) -> (r: Option<u8>)
    ensures
        match r {
            Some(v) => parse_unsigned(s@, 255) == Some(v as nat),
            None => parse_unsigned(s@, 255) is None,
        },
{
    match parse_unsigned_str(s, 255) {
        Some(v) => Some(v as u8),
        None => None,
    }
}

/// `str::parse::<u32>`.
pub fn parse_u32(s: &str) -> (r: Option<u32>)
    ensures
        match r {
            Some(v) => parse_unsigned(s@, 4294967295) == Some(v as nat),
            None => parse_unsigned(s@, 4294967295) is None,
        },
{
    match parse_unsigned_str(s, 4294967295) {
        Some(v) => Some(v as u32),
        None => None,
    }
}

/// `str::parse::<i32>`.
pub fn parse_i32(s: &str) -> (r: Option<i32>)
    ensures
        match r {
            Some(v) => parse_signed(s@, 2147483648, 2147483647) == Some(v as int),
            None => parse_signed(s@, 2147483648, 2147483647) is None,
        },
{
    let n = s.unicode_len();
    if n > 0 && s.get_char(0) == '-' {
        assert(s@.skip(1) =~= s@.drop_first());
        match parse_digits_from(s, 1, 2147483648) {
            Some(v) => Some((-(v as i64)) as i32),
            None => None,
        }
    } else {
        match parse_unsigned_str(s, 2147483647) {
            Some(v) => Some(v as i32),
            None => None,
        }
    }
}

} // verus!

verus! {

/// What follows the first `c` in `s`, if `s` holds a `c`.
pub open spec fn after_first(s: Seq<char>, c: char) -> Option<Seq<char>>
    decreases s.len(),
{
    if s.len() == 0 {
        None
    } else if s[0] == c {
        Some(s.drop_first())
    } else {
        after_first(s.drop_first(), c)
    }
}

/// What precedes the first `c` in `s` (all of `s` when it holds none).
pub open spec fn before_first(s: Seq<char>, c: char) -> Seq<char>
    decreases s.len(),
{
    if s.len() == 0 {
        s
    } else if s[0] == c {
        Seq::empty()
    } else {
        seq![s[0]] + before_first(s.drop_first(), c)
    }
}

pub proof fn lemma_after_first_at(s: Seq<char>, c: char, i: int)
    requires
        0 <= i < s.len(),
        s[i] == c,
        forall|j: int| 0 <= j < i ==> s[j] != c,
    ensures
        after_first(s, c) == Some(s.skip(i + 1)),
        before_first(s, c) == s.take(i),
    decreases i,
{
    if i > 0 {
        lemma_after_first_at(s.drop_first(), c, i - 1);
        assert(s.drop_first().skip(i) =~= s.skip(i + 1));
        assert(seq![s[0]] + s.drop_first().take(i - 1) =~= s.take(i));
    } else {
        assert(s.skip(1) =~= s.drop_first());
        assert(s.take(0) =~= Seq::<char>::empty());
    }
}

pub proof fn lemma_after_first_none(s: Seq<char>, c: char)
    requires
        forall|j: int| 0 <= j < s.len() ==> s[j] != c,
    ensures
        after_first(s, c) is None,
        before_first(s, c) == s,
    decreases s.len(),
{
    if s.len() > 0 {
        lemma_after_first_none(s.drop_first(), c);
        assert(seq![s[0]] + s.drop_first() =~= s);
    }
}

/// `a + [c] + b` splits at the `c` when `a` holds no `c`.
pub proof fn lemma_after_first_concat(a: Seq<char>, c: char, b: Seq<char>)
    requires
        forall|j: int| 0 <= j < a.len() ==> a[j] != c,
    ensures
        after_first(a + seq![c] + b, c) == Some(b),
        before_first(a + seq![c] + b, c) == a,
{
    let s = a + seq![c] + b;
    lemma_after_first_at(s, c, a.len() as int);
    assert(s.skip(a.len() + 1int) =~= b);
    assert(s.take(a.len() as int) =~= a);
}

/// The first index of `c` in `s`.
pub fn find_char(s: &str, c: char) -> (r: Option<usize>)
    ensures
        match r {
            Some(i) => i < s@.len() && s@[i as int] == c && forall|j: int|
                0 <= j < i ==> s@[j] != c,
            None => forall|j: int| 0 <= j < s@.len() ==> s@[j] != c,
        },
{
    let n = s.unicode_len();
    let mut i: usize = 0;
    while i < n
        invariant
            n == s@.len(),
            i <= n,
            forall|j: int| 0 <= j < i ==> s@[j] != c,
        decreases n - i,
    {
        if s.get_char(i) == c {
            return Some(i);
        }
        i += 1;
    }
    None
}

/// The text after the first `c` (`str::split_once`'s second part).
pub fn split_after(s: &str, c: char) -> (r: Option<String>)
    ensures
        match r {
            Some(t) => after_first(s@, c) == Some(t@),
            None => after_first(s@, c) is None,
        },
{
    match find_char(s, c) {
        Some(i) => {
            proof {
                lemma_after_first_at(s@, c, i as int);
            }
            let n = s.unicode_len();
            let t = s.substring_char(i + 1, n);
            assert(t@ =~= s@.skip(i + 1));
            Some(t.to_owned())
        },
        None => {
            proof {
                lemma_after_first_none(s@, c);
            }
            None
        },
    }
}

/// The decimal digits of a number are ASCII digits.
pub proof fn lemma_decimal_digits(n: nat)
    ensures
        all_digits(decimal(n)),
        decimal(n).len() > 0,
    decreases n,
{
    if n >= 10 {
        lemma_decimal_digits(n / 10);
        assert forall|i: int| 0 <= i < decimal(n).len() implies is_digit(#[trigger] decimal(n)[i]) by {
            if i < decimal(n / 10).len() {
                assert(decimal(n)[i] == decimal(n / 10)[i]);
            }
        }
    }
}

/// A signed decimal number holds no `c` other than digits and `-`.
pub proof fn lemma_signed_decimal_free_of(n: int, c: char)
    requires
        !is_digit(c),
        c != '-',
    ensures
        forall|j: int| 0 <= j < signed_decimal(n).len() ==> signed_decimal(n)[j] != c,
{
    let m: nat = if n < 0 { (-n) as nat } else { n as nat };
    lemma_decimal_digits(m);
    assert forall|j: int| 0 <= j < signed_decimal(n).len() implies signed_decimal(n)[j] != c by {
        if n < 0 {
            if j > 0 {
                assert(signed_decimal(n)[j] == decimal(m)[j - 1]);
            }
        } else {
            assert(is_digit(decimal(m)[j]));
        }
    }
}

} // verus!

verus! {

/// The lower-case hexadecimal digit of `d`.
pub open spec fn hex_digit_char(d: int) -> char {
    if d < 10 {
        ((48 + d) as u8) as char
    } else {
        ((87 + d) as u8) as char
    }
}

pub fn hex_digit(d: u32) -> (c: char)
    requires
        d < 16,
    ensures
        c == hex_digit_char(d as int),
{
    if d < 10 {
        ((48 + d) as u8) as char
    } else {
        ((87 + d) as u8) as char
    }
}

/// How `serde_json` writes one character inside a string: `"` and `\`
/// escaped, control characters as `\b \f \n \r \t` or `\u00XX`.
pub open spec fn json_escaped_char(c: char) -> Seq<char> {
    let u = c as u32;
    if c == '"' {
        seq!['\\', '"']
    } else if c == '\\' {
        seq!['\\', '\\']
    } else if u == 8 {
        seq!['\\', 'b']
    } else if u == 12 {
        seq!['\\', 'f']
    } else if u == 10 {
        seq!['\\', 'n']
    } else if u == 13 {
        seq!['\\', 'r']
    } else if u == 9 {
        seq!['\\', 't']
    } else if u < 0x20 {
        seq!['\\', 'u', '0', '0', hex_digit_char((u / 16) as int), hex_digit_char((u % 16) as int)]
    } else {
        seq![c]
    }
}

/// The escaped characters of a JSON string.
pub open spec fn json_escaped(s: Seq<char>) -> Seq<char>
    decreases s.len(),
{
    if s.len() == 0 {
        Seq::empty()
    } else {
        json_escaped(s.drop_last()) + json_escaped_char(s.last())
    }
}

/// Text of printable characters other than `"` and `\` is written as it
/// stands inside a JSON string.
pub proof fn lemma_json_escaped_plain(s: Seq<char>)
    requires
        forall|i: int|
            0 <= i < s.len() ==> (#[trigger] s[i] as u32) >= 0x20 && s[i] != '"' && s[i] != '\\',
    ensures
        json_escaped(s) == s,
    decreases s.len(),
{
    if s.len() > 0 {
        lemma_json_escaped_plain(s.drop_last());
        assert(s.last() as u32 >= 0x20);
        assert(json_escaped(s) =~= s);
    }
}

/// A JSON string literal as `serde_json` writes it.
pub open spec fn json_string(s: Seq<char>) -> Seq<char> {
    seq!['"'] + json_escaped(s) + seq!['"']
}

fn push_json_char(s: &mut String, c: char)
    ensures
        final(s)@ == old(s)@ + json_escaped_char(c),
{
    let u = c as u32;
    if c == '"' {
        push_char(s, '\\');
        push_char(s, '"');
    } else if c == '\\' {
        push_char(s, '\\');
        push_char(s, '\\');
    } else if u == 8 {
        push_char(s, '\\');
        push_char(s, 'b');
    } else if u == 12 {
        push_char(s, '\\');
        push_char(s, 'f');
    } else if u == 10 {
        push_char(s, '\\');
        push_char(s, 'n');
    } else if u == 13 {
        push_char(s, '\\');
        push_char(s, 'r');
    } else if u == 9 {
        push_char(s, '\\');
        push_char(s, 't');
    } else if u < 0x20 {
        push_char(s, '\\');
        push_char(s, 'u');
        push_char(s, '0');
        push_char(s, '0');
        push_char(s, hex_digit(u / 16));
        push_char(s, hex_digit(u % 16));
    } else {
        push_char(s, c);
    }
    assert(s@ =~= old(s)@ + json_escaped_char(c));
}

/// Appends `t` as a JSON string literal.
pub fn push_json_string(s: &mut String, t: &str)
    ensures
        final(s)@ == old(s)@ + json_string(t@),
{
    push_char(s, '"');
    let n = t.unicode_len();
    let mut i: usize = 0;
    while i < n
        invariant
            n == t@.len(),
            i <= n,
            s@ == old(s)@ + seq!['"'] + json_escaped(t@.take(i as int)),
        decreases n - i,
    {
        let c = t.get_char(i);
        push_json_char(s, c);
        assert(t@.take(i + 1).drop_last() =~= t@.take(i as int));
        assert(s@ =~= old(s)@ + seq!['"'] + json_escaped(t@.take(i + 1)));
        i += 1;
    }
    assert(t@.take(n as int) =~= t@);
    push_char(s, '"');
    assert(s@ =~= old(s)@ + json_string(t@));
}

} // verus!

verus! {

/// Whether `s` starts with `p`.
pub open spec fn has_prefix(s: Seq<char>, p: Seq<char>) -> bool {
    p.len() <= s.len() && s.take(p.len() as int) == p
}

/// Whether `p` occurs in `s` at position `i`.
pub open spec fn occurs_at(s: Seq<char>, p: Seq<char>, i: int) -> bool {
    0 <= i && i + p.len() <= s.len() && s.subrange(i, i + p.len()) == p
}

/// Whether `p` occurs in `s`.
pub open spec fn contains_text(s: Seq<char>, p: Seq<char>) -> bool {
    exists|i: int| occurs_at(s, p, i)
}

fn matches_at(s: &str, p: &str, i: usize) -> (r: bool)
    requires
        i <= s@.len(),
    ensures
        r == occurs_at(s@, p@, i as int),
{
    let n = s.unicode_len();
    let m = p.unicode_len();
    if m > n - i {
        return false;
    }
    let mut k: usize = 0;
    while k < m
        invariant
            n == s@.len(),
            m == p@.len(),
            i + m <= n,
            k <= m,
            forall|j: int| 0 <= j < k ==> s@[i + j] == p@[j],
        decreases m - k,
    {
        if s.get_char(i + k) != p.get_char(k) {
            assert(s@.subrange(i as int, i + m)[k as int] != p@[k as int]);
            return false;
        }
        k += 1;
    }
    assert(s@.subrange(i as int, i + m) =~= p@);
    true
}

/// `str::starts_with`.
pub fn starts_with(s: &str, p: &str) -> (r: bool)
    ensures
        r == has_prefix(s@, p@),
{
    let r = matches_at(s, p, 0);
    assert(s@.subrange(0, p@.len() as int) =~= s@.take(p@.len() as int));
    r
}

/// `str::contains` with a string pattern.
pub fn contains(s: &str, p: &str) -> (r: bool)
    ensures
        r == contains_text(s@, p@),
{
    let n = s.unicode_len();
    let mut i: usize = 0;
    while i <= n
        invariant
            n == s@.len(),
            i <= n + 1,
            forall|j: int| 0 <= j < i ==> !occurs_at(s@, p@, j),
        decreases n + 1 - i,
    {
        if matches_at(s, p, i) {
            return true;
        }
        if i == n {
            assert forall|j: int| !occurs_at(s@, p@, j) by {
                if j > n as int {
                    assert(!(j + p@.len() <= s@.len()));
                }
            }
            return false;
        }
        i += 1;
    }
    false
}

} // verus!

verus! {

/// The texts of a sequence of strings.
pub open spec fn texts(v: Seq<String>) -> Seq<Seq<char>> {
    Seq::new(v.len(), |i: int| v[i]@)
}

/// The pieces of `s` between the occurrences of `c` (`str::split` with a
/// character): always at least one piece.
pub open spec fn split_fields(s: Seq<char>, c: char) -> Seq<Seq<char>>
    decreases s.len(),
{
    if s.len() == 0 {
        seq![Seq::empty()]
    } else {
        let f = split_fields(s.drop_last(), c);
        if s.last() == c {
            f.push(Seq::empty())
        } else {
            f.update(f.len() - 1, f.last().push(s.last()))
        }
    }
}

pub proof fn lemma_split_fields_len(s: Seq<char>, c: char)
    ensures
        split_fields(s, c).len() >= 1,
    decreases s.len(),
{
    if s.len() > 0 {
        lemma_split_fields_len(s.drop_last(), c);
    }
}

/// `str::split` on a character.
pub fn split_on(s: &str, c: char) -> (r: Vec<String>)
    ensures
        texts(r@) == split_fields(s@, c),
{
    let n = s.unicode_len();
    let mut fields: Vec<String> = Vec::new();
    let mut cur = String::new();
    let mut i: usize = 0;
    assert(s@.take(0) =~= Seq::<char>::empty());
    assert(texts(fields@).push(cur@) =~= split_fields(s@.take(0), c));
    while i < n
        invariant
            n == s@.len(),
            i <= n,
            texts(fields@).push(cur@) == split_fields(s@.take(i as int), c),
        decreases n - i,
    {
        let ch = s.get_char(i);
        let ghost before = texts(fields@).push(cur@);
        assert(s@.take(i + 1).drop_last() =~= s@.take(i as int));
        assert(s@.take(i + 1).last() == ch);
        if ch == c {
            fields.push(cur);
            cur = String::new();
            assert(texts(fields@).push(cur@) =~= before.push(Seq::empty()));
        } else {
            push_char(&mut cur, ch);
            assert(texts(fields@).push(cur@) =~= before.update(
                before.len() - 1,
                before.last().push(ch),
            ));
        }
        i += 1;
    }
    fields.push(cur);
    assert(s@.take(n as int) =~= s@);
    assert(texts(fields@) =~= split_fields(s@, c));
    fields
}

/// A line without the `\r` of a `\r\n` ending.
pub open spec fn strip_cr(l: Seq<char>) -> Seq<char> {
    if l.len() > 0 && l.last() == '\r' {
        l.drop_last()
    } else {
        l
    }
}

/// The lines of a text, as `str::lines` gives them: split at `\n`, a `\r`
/// before the `\n` dropped, and no empty line after a final `\n`.
pub open spec fn text_lines(s: Seq<char>) -> Seq<Seq<char>> {
    let p = split_fields(s, '\n');
    let ended = Seq::new((p.len() - 1) as nat, |k: int| strip_cr(p[k]));
    if p.last().len() == 0 {
        ended
    } else {
        ended.push(p.last())
    }
}

fn without_cr(l: &String) -> (r: String)
    ensures
        r@ == strip_cr(l@),
{
    let n = l.as_str().unicode_len();
    if n > 0 && l.as_str().get_char(n - 1) == '\r' {
        let t = l.as_str().substring_char(0, n - 1);
        assert(t@ =~= l@.drop_last());
        t.to_owned()
    } else {
        l.clone()
    }
}

/// `str::lines`.
pub fn lines(s: &str) -> (r: Vec<String>)
    ensures
        texts(r@) == text_lines(s@),
{
    let pieces = split_on(s, '\n');
    proof {
        lemma_split_fields_len(s@, '\n');
    }
    let ghost p = split_fields(s@, '\n');
    let last = pieces.len() - 1;
    let mut r: Vec<String> = Vec::new();
    let mut k: usize = 0;
    while k < last
        invariant
            texts(pieces@) == p,
            last == p.len() - 1,
            k <= last,
            texts(r@) =~= Seq::new(k as nat, |j: int| strip_cr(p[j])),
        decreases last - k,
    {
        assert(pieces@[k as int]@ == p[k as int]);
        let t = without_cr(&pieces[k]);
        let ghost before = texts(r@);
        r.push(t);
        assert(texts(r@) =~= before.push(strip_cr(p[k as int])));
        k += 1;
    }
    assert(pieces@[last as int]@ == p.last());
    if pieces[last].as_str().unicode_len() > 0 {
        r.push(pieces[last].clone());
    }
    assert(texts(r@) =~= text_lines(s@));
    r
}

/// The words of a text: the maximal runs of characters that are not white
/// space (`str::split_whitespace`).
pub open spec fn words(s: Seq<char>) -> Seq<Seq<char>>
    decreases s.len(),
{
    if s.len() == 0 {
        Seq::empty()
    } else {
        let w = words(s.drop_last());
        if is_white_space(s.last()) {
            w
        } else if s.len() >= 2 && !is_white_space(s[s.len() - 2]) {
            w.update(w.len() - 1, w.last().push(s.last()))
        } else {
            w.push(seq![s.last()])
        }
    }
}

pub proof fn lemma_words_in_word(s: Seq<char>)
    requires
        s.len() > 0,
        !is_white_space(s.last()),
    ensures
        words(s).len() >= 1,
    decreases s.len(),
{
    if s.len() >= 2 && !is_white_space(s[s.len() - 2]) {
        lemma_words_in_word(s.drop_last());
    }
}

/// `str::split_whitespace`.
pub fn split_words(s: &str) -> (r: Vec<String>)
    ensures
        texts(r@) == words(s@),
{
    let n = s.unicode_len();
    let mut r: Vec<String> = Vec::new();
    let mut in_word = false;
    let mut i: usize = 0;
    assert(s@.take(0) =~= Seq::<char>::empty());
    assert(texts(r@) =~= words(s@.take(0)));
    while i < n
        invariant
            n == s@.len(),
            i <= n,
            texts(r@) == words(s@.take(i as int)),
            in_word == (i > 0 && !is_white_space(s@[i - 1])),
        decreases n - i,
    {
        let ch = s.get_char(i);
        let ghost before = texts(r@);
        let ghost t = s@.take(i + 1);
        assert(t.drop_last() =~= s@.take(i as int));
        assert(t.last() == ch);
        if white_space(ch) {
            in_word = false;
        } else if in_word {
            assert(t[t.len() - 2] == s@[i - 1]);
            proof {
                lemma_words_in_word(s@.take(i as int));
            }
            let mut w = r.pop().unwrap();
            push_char(&mut w, ch);
            r.push(w);
            assert(texts(r@) =~= before.update(before.len() - 1, before.last().push(ch)));
        } else {
            let mut w = String::new();
            push_char(&mut w, ch);
            r.push(w);
            assert(i > 0 ==> t[t.len() - 2] == s@[i - 1]);
            assert(texts(r@) =~= before.push(seq![ch]));
            in_word = true;
        }
        i += 1;
    }
    assert(s@.take(n as int) =~= s@);
    r
}

} // verus!

verus! {

/// The dotted-decimal text of an IPv4 address.
pub open spec fn ipv4_text(a: [u8; 4]) -> Seq<char> {
    decimal(a[0] as nat) + "."@ + decimal(a[1] as nat) + "."@ + decimal(a[2] as nat) + "."@
        + decimal(a[3] as nat)
}

/// Appends the dotted-decimal text of an IPv4 address.
pub fn push_ipv4(s: &mut String, a: [u8; 4])
    ensures
        final(s)@ == old(s)@ + ipv4_text(a),
{
    push_decimal(s, a[0] as u64);
    push_str(s, ".");
    push_decimal(s, a[1] as u64);
    push_str(s, ".");
    push_decimal(s, a[2] as u64);
    push_str(s, ".");
    push_decimal(s, a[3] as u64);
    assert(s@ =~= old(s)@ + ipv4_text(a));
}

} // verus!

verus! {

/// The number of bytes that UTF-8 takes for one character.
fn utf8_width(c: char) -> (w: usize)
    ensures
        w == vstd::utf8::encode_scalar(c as u32).len(),
{
    let u = c as u32;
    if u <= 0x7f {
        1
    } else if u <= 0x7ff {
        2
    } else if u <= 0xffff {
        3
    } else {
        4
    }
}

/// Whether the UTF-8 encoding of `s` is shorter than `k` bytes
/// (`s.len() < k`).
pub fn utf8_shorter_than(s: &str, k: usize) -> (r: bool)
    ensures
        r == (vstd::utf8::encode_utf8(s@).len() < k),
{
    if k == 0 {
        return false;
    }
    let n = s.unicode_len();
    let mut total: usize = 0;
    let mut i: usize = 0;
    assert(s@.skip(0) =~= s@);
    while i < n
        invariant
            n == s@.len(),
            i <= n,
            total < k,
            vstd::utf8::encode_utf8(s@).len() == total + vstd::utf8::encode_utf8(s@.skip(i as int)).len(),
        decreases n - i,
    {
        let c = s.get_char(i);
        let ghost rest = s@.skip(i as int);
        assert(rest[0] == c);
        assert(rest.drop_first() =~= s@.skip(i + 1));
        let w = utf8_width(c);
        if w >= k - total {
            return false;
        }
        total = total + w;
        i += 1;
    }
    assert(s@.skip(n as int) =~= Seq::<char>::empty());
    true
}

} // verus!
