//! Text primitives on bytes: blanks and trimming, searching, unsigned decimal fields.
//!
//! The wire protocol is ASCII, so text is handled as bytes and a byte outside ASCII
//! is like any other byte that no token contains.

use vstd::prelude::*;
use vstd::slice::slice_subrange;

verus! {

/// Line terminator of the wire protocol.
pub const NEWLINE: u8 = '\n' as u8;

/// Separator between the channels of one line.
pub const SEMICOLON: u8 = ';' as u8;

/// The blank that the device writes between a label and its field.
pub const SPACE: u8 = ' ' as u8;

/// Optional sign in front of an unsigned decimal field.
pub const PLUS: u8 = '+' as u8;

/// The pattern that is the single byte `b`.
pub open spec fn one(b: u8) -> Seq<u8> {
    seq![b]
}

/// The line terminator, as a pattern.
pub open spec fn line_end() -> Seq<u8> {
    one(NEWLINE)
}

/// Whether the byte `b` does not occur in `s`.
pub open spec fn free_of(s: Seq<u8>, b: u8) -> bool {
    forall|i: int| 0 <= i < s.len() ==> #[trigger] s[i] != b
}

/// White space: horizontal tab, line feed, vertical tab, form feed, carriage return, space.
pub open spec fn is_blank(b: u8) -> bool {
    (9 <= b && b <= 13) || b == 32
}

/// White space that does not end a line: space and horizontal tab.
pub open spec fn is_inline_blank(b: u8) -> bool {
    b == 32 || b == 9
}

/// ASCII decimal digit.
pub open spec fn is_digit(b: u8) -> bool {
    '0' as u8 <= b && b <= '9' as u8
}

/// `s` without its leading blanks.
pub open spec fn trimmed_start(s: Seq<u8>) -> Seq<u8>
    decreases s.len(),
{
    if s.len() > 0 && is_blank(s[0]) {
        trimmed_start(s.drop_first())
    } else {
        s
    }
}

/// `s` without its trailing blanks.
pub open spec fn trimmed_end(s: Seq<u8>) -> Seq<u8>
    decreases s.len(),
{
    if s.len() > 0 && is_blank(s.last()) {
        trimmed_end(s.drop_last())
    } else {
        s
    }
}

/// `s` without leading and trailing blanks.
pub open spec fn trimmed(s: Seq<u8>) -> Seq<u8> {
    trimmed_end(trimmed_start(s))
}

/// Whether `p` stands in `s` at index `i`.
pub open spec fn occurs_at(s: Seq<u8>, p: Seq<u8>, i: int) -> bool {
    0 <= i && i + p.len() <= s.len() && s.subrange(i, i + p.len()) == p
}

/// `o` moved right by `k`.
pub open spec fn shifted(o: Option<int>, k: int) -> Option<int> {
    match o {
        Some(i) => Some(i + k),
        None => None,
    }
}

/// Index of the first occurrence of `p` in `s`, if there is one.
pub open spec fn first_match(s: Seq<u8>, p: Seq<u8>) -> Option<int>
    decreases s.len(),
{
    if occurs_at(s, p, 0) {
        Some(0)
    } else if s.len() == 0 {
        None
    } else {
        shifted(first_match(s.drop_first(), p), 1)
    }
}

/// Value of one decimal digit; 0 for any other byte.
pub open spec fn digit_value(b: u8) -> nat {
    if is_digit(b) {
        (b - '0' as u8) as nat
    } else {
        0
    }
}

/// Value of `s` read as a decimal numeral, most significant digit first.
pub open spec fn decimal_value(s: Seq<u8>) -> nat
    decreases s.len(),
{
    if s.len() == 0 {
        0
    } else {
        10 * decimal_value(s.drop_last()) + digit_value(s.last())
    }
}

/// Whether every byte of `s` is a decimal digit.
pub open spec fn all_digits(s: Seq<u8>) -> bool {
    forall|i: int| 0 <= i < s.len() ==> is_digit(#[trigger] s[i])
}

/// `s` without a single leading plus sign.
pub open spec fn unsigned_digits(s: Seq<u8>) -> Seq<u8> {
    if s.len() > 0 && s[0] == PLUS {
        s.drop_first()
    } else {
        s
    }
}

/// The value that `s` denotes as an unsigned decimal field with values up to `max`: an
/// optional plus sign, then one or more decimal digits and nothing else. Leading zeros
/// are allowed.
pub open spec fn parsed_decimal(s: Seq<u8>, max: nat) -> Option<nat> {
    let digits = unsigned_digits(s);
    if digits.len() > 0 && all_digits(digits) && decimal_value(digits) <= max {
        Some(decimal_value(digits))
    } else {
        None
    }
}

/// The value that `s` denotes as an unsigned decimal field of 16 bits.
pub open spec fn parsed_u16(s: Seq<u8>) -> Option<u16> {
    match parsed_decimal(s, u16::MAX as nat) {
        Some(value) => Some(value as u16),
        None => None,
    }
}

/// The value that `s` denotes as an unsigned decimal field of 32 bits.
pub open spec fn parsed_u32(s: Seq<u8>) -> Option<u32> {
    match parsed_decimal(s, u32::MAX as nat) {
        Some(value) => Some(value as u32),
        None => None,
    }
}

/// The digit that stands for `d`.
pub open spec fn digit_byte(d: nat) -> u8 {
    ('0' as u8 + d) as u8
}

/// The decimal numeral of `n`, without sign or leading zeros.
pub open spec fn decimal_text(n: nat) -> Seq<u8>
    decreases n,
{
    if n < 10 {
        seq![digit_byte(n)]
    } else {
        decimal_text(n / 10).push(digit_byte(n % 10))
    }
}

/// An occurrence behind the first byte is an occurrence in the rest, one index lower.
pub proof fn lemma_occurs_at_rest(s: Seq<u8>, p: Seq<u8>, j: int)
    requires
        s.len() > 0,
        1 <= j,
    ensures
        occurs_at(s, p, j) == occurs_at(s.drop_first(), p, j - 1),
{
    if j + p.len() <= s.len() {
        assert(s.drop_first().subrange(j - 1, j - 1 + p.len()) =~= s.subrange(j, j + p.len()));
    }
}

/// `first_match` finds an occurrence, and none stands before it; where it finds none,
/// there is none.
pub proof fn lemma_first_match(s: Seq<u8>, p: Seq<u8>)
    ensures
        match first_match(s, p) {
            Some(i) => occurs_at(s, p, i) && forall|j: int|
                0 <= j < i ==> !#[trigger] occurs_at(s, p, j),
            None => forall|j: int| !#[trigger] occurs_at(s, p, j),
        },
    decreases s.len(),
{
    if !occurs_at(s, p, 0) && s.len() > 0 {
        let t = s.drop_first();
        lemma_first_match(t, p);
        match first_match(t, p) {
            Some(i) => {
                lemma_occurs_at_rest(s, p, i + 1);
                assert forall|j: int| 0 <= j < i + 1 implies !#[trigger] occurs_at(s, p, j) by {
                    if j >= 1 {
                        lemma_occurs_at_rest(s, p, j);
                    }
                }
            },
            None => {
                assert forall|j: int| !#[trigger] occurs_at(s, p, j) by {
                    if j >= 1 {
                        lemma_occurs_at_rest(s, p, j);
                    }
                }
            },
        }
    }
}

/// The first occurrence is the only index that has an occurrence and none before it.
pub proof fn lemma_first_match_at(s: Seq<u8>, p: Seq<u8>, i: int)
    requires
        occurs_at(s, p, i),
        forall|j: int| 0 <= j < i ==> !#[trigger] occurs_at(s, p, j),
    ensures
        first_match(s, p) == Some(i),
{
    lemma_first_match(s, p);
}

/// A sequence without an occurrence has no first occurrence.
pub proof fn lemma_first_match_none(s: Seq<u8>, p: Seq<u8>)
    requires
        forall|j: int| 0 <= j <= s.len() ==> !#[trigger] occurs_at(s, p, j),
    ensures
        first_match(s, p) is None,
{
    lemma_first_match(s, p);
}

/// Whether `s` neither begins nor ends with a blank.
pub open spec fn tight(s: Seq<u8>) -> bool {
    s.len() > 0 ==> !is_blank(s[0]) && !is_blank(s.last())
}

/// Trimming leaves alone what neither begins nor ends with a blank.
pub proof fn lemma_trimmed_tight(s: Seq<u8>)
    requires
        tight(s),
    ensures
        trimmed(s) == s,
{
}

/// Trimming takes a single leading space off what neither begins nor ends with a
/// blank.
pub proof fn lemma_trimmed_after_space(s: Seq<u8>)
    requires
        tight(s),
    ensures
        trimmed(one(SPACE) + s) == s,
{
    let spaced = one(SPACE) + s;
    assert(spaced.drop_first() =~= s);
    assert(trimmed_start(spaced) == trimmed_start(s));
}

/// Where the first occurrence of a single byte stands.
pub proof fn lemma_first_byte(s: Seq<u8>, b: u8)
    ensures
        match first_match(s, one(b)) {
            Some(i) => 0 <= i < s.len() && s[i] == b && free_of(s.take(i), b),
            None => free_of(s, b),
        },
{
    lemma_first_match(s, one(b));
    match first_match(s, one(b)) {
        Some(i) => {
            assert(s.subrange(i, i + 1)[0] == s[i]);
            assert forall|j: int| 0 <= j < i implies #[trigger] s.take(i)[j] != b by {
                if s[j] == b {
                    assert(s.subrange(j, j + 1) =~= one(b));
                    assert(occurs_at(s, one(b), j));
                }
            }
        },
        None => {
            assert forall|j: int| 0 <= j < s.len() implies #[trigger] s[j] != b by {
                if s[j] == b {
                    assert(s.subrange(j, j + 1) =~= one(b));
                    assert(occurs_at(s, one(b), j));
                }
            }
        },
    }
}

/// A byte with no equal before it is the first of its kind.
pub proof fn lemma_first_byte_at(s: Seq<u8>, b: u8, i: int)
    requires
        0 <= i < s.len(),
        s[i] == b,
        free_of(s.take(i), b),
    ensures
        first_match(s, one(b)) == Some(i),
{
    assert(s.subrange(i, i + 1) =~= one(b));
    assert forall|j: int| 0 <= j < i implies !#[trigger] occurs_at(s, one(b), j) by {
        if occurs_at(s, one(b), j) {
            assert(s.subrange(j, j + 1)[0] == s[j]);
            assert(s.take(i)[j] == s[j]);
        }
    }
    lemma_first_match_at(s, one(b), i);
}

/// A byte that does not occur has no first occurrence.
pub proof fn lemma_no_byte(s: Seq<u8>, b: u8)
    requires
        free_of(s, b),
    ensures
        first_match(s, one(b)) is None,
{
    assert forall|j: int| 0 <= j <= s.len() implies !#[trigger] occurs_at(s, one(b), j) by {
        if occurs_at(s, one(b), j) {
            assert(s.subrange(j, j + 1)[0] == s[j]);
        }
    }
    lemma_first_match_none(s, one(b));
}

/// A longer numeral is worth at least as much as any of its prefixes.
pub proof fn lemma_decimal_value_prefix(s: Seq<u8>, k: int)
    requires
        0 <= k <= s.len(),
    ensures
        decimal_value(s.take(k)) <= decimal_value(s),
    decreases s.len(),
{
    if k == s.len() {
        assert(s.take(k) =~= s);
    } else {
        lemma_decimal_value_prefix(s.drop_last(), k);
        assert(s.drop_last().take(k) =~= s.take(k));
    }
}

/// Tests for white space.
pub fn is_blank_byte(b: u8) -> (r: bool)
    ensures
        r == is_blank(b),
{
    (9 <= b && b <= 13) || b == 32
}

/// Tests for a decimal digit.
pub fn is_digit_byte(b: u8) -> (r: bool)
    ensures
        r == is_digit(b),
{
    '0' as u8 <= b && b <= '9' as u8
}

/// Cuts the leading blanks off `s`.
pub fn trim_start(s: &[u8]) -> (t: &[u8])
    ensures
        t@ == trimmed_start(s@),
{
    let mut i: usize = 0;
    proof {
        assert(s@.skip(0) =~= s@);
    }
    while i < s.len() && is_blank_byte(s[i])
        invariant
            i <= s.len(),
            trimmed_start(s@) == trimmed_start(s@.skip(i as int)),
        decreases s.len() - i,
    {
        proof {
            assert(s@.skip(i as int).drop_first() =~= s@.skip(i + 1));
        }
        i += 1;
    }
    slice_subrange(s, i, s.len())
}

/// Cuts the trailing blanks off `s`.
pub fn trim_end(s: &[u8]) -> (t: &[u8])
    ensures
        t@ == trimmed_end(s@),
{
    let mut n: usize = s.len();
    proof {
        assert(s@.take(n as int) =~= s@);
    }
    while n > 0 && is_blank_byte(s[n - 1])
        invariant
            n <= s.len(),
            trimmed_end(s@) == trimmed_end(s@.take(n as int)),
        decreases n,
    {
        proof {
            assert(s@.take(n as int).drop_last() =~= s@.take(n - 1));
        }
        n -= 1;
    }
    slice_subrange(s, 0, n)
}

/// Cuts the leading and trailing blanks off `s`.
pub fn trim(s: &[u8]) -> (t: &[u8])
    ensures
        t@ == trimmed(s@),
{
    trim_end(trim_start(s))
}

/// Tests whether `p` stands in `s` at index `i`.
pub fn matches_at(s: &[u8], p: &[u8], i: usize) -> (r: bool)
    ensures
        r == occurs_at(s@, p@, i as int),
{
    if i > s.len() || p.len() > s.len() - i {
        return false;
    }
    let mut k: usize = 0;
    while k < p.len()
        invariant
            k <= p.len(),
            i + p.len() <= s.len(),
            forall|j: int| 0 <= j < k ==> s@[i + j] == p@[j],
        decreases p.len() - k,
    {
        if s[i + k] != p[k] {
            return false;
        }
        k += 1;
    }
    proof {
        assert(s@.subrange(i as int, i + p@.len()) =~= p@);
    }
    true
}

/// Finds the first occurrence of `p` in `s`.
pub fn find(s: &[u8], p: &[u8]) -> (r: Option<usize>)
    ensures
        match r {
            Some(i) => first_match(s@, p@) == Some(i as int),
            None => first_match(s@, p@) is None,
        },
{
    let mut i: usize = 0;
    while i < s.len()
        invariant
            i <= s.len(),
            forall|j: int| 0 <= j < i ==> !#[trigger] occurs_at(s@, p@, j),
        decreases s.len() - i,
    {
        if matches_at(s, p, i) {
            proof {
                lemma_first_match_at(s@, p@, i as int);
            }
            return Some(i);
        }
        i += 1;
    }
    if matches_at(s, p, i) {
        proof {
            lemma_first_match_at(s@, p@, i as int);
        }
        return Some(i);
    }
    proof {
        lemma_first_match_none(s@, p@);
    }
    None
}

/// Reads `s` as an unsigned decimal field with values up to `max`.
pub fn parse_decimal(s: &[u8], max: u32) -> (r: Option<u32>)
    ensures
        match r {
            Some(value) => parsed_decimal(s@, max as nat) == Some(value as nat),
            None => parsed_decimal(s@, max as nat) is None,
        },
{
    let n: usize = s.len();
    let start: usize = if n > 0 && s[0] == PLUS {
        1
    } else {
        0
    };
    let ghost digits = unsigned_digits(s@);
    if start == n {
        return None;
    }
    let mut acc: u64 = 0;
    let mut i: usize = start;
    while i < n
        invariant
            start <= i <= n,
            n == s@.len(),
            digits == s@.skip(start as int),
            digits == unsigned_digits(s@),
            all_digits(digits.take(i - start)),
            acc == decimal_value(digits.take(i - start)),
            acc <= max,
        decreases n - i,
    {
        let b: u8 = s[i];
        if !is_digit_byte(b) {
            proof {
                assert(digits[i - start] == b);
            }
            return None;
        }
        let next: u64 = acc * 10 + (b - '0' as u8) as u64;
        proof {
            let longer = digits.take(i + 1 - start);
            assert(longer.drop_last() =~= digits.take(i - start));
        }
        if next > max as u64 {
            proof {
                lemma_decimal_value_prefix(digits, i + 1 - start);
            }
            return None;
        }
        acc = next;
        i += 1;
    }
    proof {
        assert(digits.take(n - start) =~= digits);
    }
    Some(acc as u32)
}

/// Reads `s` as an unsigned decimal field of 16 bits.
pub fn parse_u16(s: &[u8]) -> (r: Option<u16>)
    ensures
        r == parsed_u16(s@),
{
    match parse_decimal(s, 65535) {
        Some(value) => Some(value as u16),
        None => None,
    }
}

/// Reads `s` as an unsigned decimal field of 32 bits.
pub fn parse_u32(s: &[u8]) -> (r: Option<u32>)
    ensures
        r == parsed_u32(s@),
{
    parse_decimal(s, 4294967295)
}

/// Writes `n` as a decimal numeral.
pub fn render_decimal(n: u32) -> (text: Vec<u8>)
    ensures
        text@ == decimal_text(n as nat),
    decreases n,
{
    if n < 10 {
        let mut text: Vec<u8> = Vec::new();
        text.push('0' as u8 + n as u8);
        text
    } else {
        let mut text = render_decimal(n / 10);
        text.push('0' as u8 + (n % 10) as u8);
        text
    }
}

/// Law of the numeral. The decimal numeral of a number is made of digits only, at
/// least one, and reads back as that number wherever the number is in range.
pub proof fn law_decimal_text_reads_back(n: nat, max: nat)
    ensures
        decimal_text(n).len() > 0,
        all_digits(decimal_text(n)),
        decimal_value(decimal_text(n)) == n,
        n <= max ==> parsed_decimal(decimal_text(n), max) == Some(n),
    decreases n,
{
    let text = decimal_text(n);
    if n < 10 {
        assert(decimal_value(text.drop_last()) == 0);
    } else {
        law_decimal_text_reads_back(n / 10, max);
        assert(text.drop_last() =~= decimal_text(n / 10));
    }
}

} // verus!
