//! Decimal and hexadecimal numbers and composite position ids as text.

use vstd::prelude::*;
use vstd::string::*;

verus! {

/// Whether two texts are the same.
pub fn same_text(a: &str, b: &str) -> (same: bool)
    ensures
        same == (a@ == b@),
{
    String::from_str(a) == String::from_str(b)
}

/// The character for the decimal digit `d`.
pub open spec fn digit_char(d: int) -> char {
    ((48 + d) as u8) as char
}

/// The decimal numeral of `n`, without sign or leading zeros.
pub open spec fn decimal_chars(n: nat) -> Seq<char>
    decreases n,
{
    if n < 10 {
        seq![digit_char(n as int)]
    } else {
        decimal_chars(n / 10).push(digit_char((n % 10) as int))
    }
}

fn digit_text(d: u8) -> (text: &'static str)
    requires
        d < 10,
    ensures
        text@ == seq![digit_char(d as int)],
{
    proof {
        reveal_strlit("0");
        reveal_strlit("1");
        reveal_strlit("2");
        reveal_strlit("3");
        reveal_strlit("4");
        reveal_strlit("5");
        reveal_strlit("6");
        reveal_strlit("7");
        reveal_strlit("8");
        reveal_strlit("9");
    }
    let text = if d == 0 {
        "0"
    } else if d == 1 {
        "1"
    } else if d == 2 {
        "2"
    } else if d == 3 {
        "3"
    } else if d == 4 {
        "4"
    } else if d == 5 {
        "5"
    } else if d == 6 {
        "6"
    } else if d == 7 {
        "7"
    } else if d == 8 {
        "8"
    } else {
        "9"
    };
    assert(text@ =~= seq![digit_char(d as int)]);
    text
}

/// Writes `n` in decimal.
pub fn decimal(n: u128) -> (text: String)
    ensures
        text@ == decimal_chars(n as nat),
    decreases n,
{
    if n < 10 {
        String::from_str(digit_text(n as u8))
    } else {
        let mut text = decimal(n / 10);
        let last = digit_text((n % 10) as u8);
        text.append(last);
        assert(text@ =~= decimal_chars((n / 10) as nat).push(digit_char((n % 10) as int)));
        text
    }
}

/// The upper-case hexadecimal digit for `n`, which is below sixteen.
pub open spec fn hex_digit(n: int) -> char {
    if n < 10 {
        ((48 + n) as u8) as char
    } else {
        ((55 + n) as u8) as char
    }
}

/// Two upper-case hexadecimal digits for each byte, high digit first.
pub open spec fn hex_upper(bytes: Seq<u8>) -> Seq<char> {
    Seq::new(
        2 * bytes.len(),
        |i: int|
            hex_digit(
                if i % 2 == 0 {
                    bytes[i / 2] as int / 16
                } else {
                    bytes[i / 2] as int % 16
                },
            ),
    )
}

fn hex_digit_text(n: u8) -> (text: &'static str)
    requires
        n < 16,
    ensures
        text@ == seq![hex_digit(n as int)],
{
    proof {
        reveal_strlit("A");
        reveal_strlit("B");
        reveal_strlit("C");
        reveal_strlit("D");
        reveal_strlit("E");
        reveal_strlit("F");
    }
    if n < 10 {
        digit_text(n)
    } else {
        let text = if n == 10 {
            "A"
        } else if n == 11 {
            "B"
        } else if n == 12 {
            "C"
        } else if n == 13 {
            "D"
        } else if n == 14 {
            "E"
        } else {
            "F"
        };
        assert(text@ =~= seq![hex_digit(n as int)]);
        text
    }
}

/// Writes `bytes` in upper-case hexadecimal, two digits for each byte.
pub fn hex(bytes: &[u8]) -> (text: String)
    ensures
        text@ == hex_upper(bytes@),
{
    let mut text = String::new();
    let mut at: usize = 0;
    assert(text@ =~= hex_upper(bytes@.take(0)));
    while at < bytes.len()
        invariant
            at <= bytes.len(),
            text@ == hex_upper(bytes@.take(at as int)),
        decreases bytes.len() - at,
    {
        let byte = bytes[at];
        let ghost before = text@;
        text.append(hex_digit_text(byte / 16));
        text.append(hex_digit_text(byte % 16));
        proof {
            let shorter = bytes@.take(at as int);
            let longer = bytes@.take(at + 1);
            assert(text@ =~= before + seq![hex_digit(byte as int / 16)] + seq![
                hex_digit(byte as int % 16),
            ]);
            assert forall|k: int| 0 <= k < 2 * longer.len() implies text@[k] == hex_upper(
                longer,
            )[k] by {
                if k < 2 * at {
                    assert(longer[k / 2] == shorter[k / 2]);
                    assert(before[k] == hex_upper(shorter)[k]);
                } else {
                    assert(longer[k / 2] == byte);
                }
            }
            assert(text@ =~= hex_upper(longer));
        }
        at += 1;
    }
    assert(bytes@.take(at as int) =~= bytes@);
    text
}

/// Whether `c` is a decimal digit.
pub open spec fn is_digit(c: char) -> bool {
    48 <= c as u32 <= 57
}

/// The number that the decimal digit `c` stands for.
pub open spec fn digit_value(c: char) -> nat {
    (c as u32 - 48) as nat
}

/// Whether every character of `s` is a decimal digit.
pub open spec fn all_digits(s: Seq<char>) -> bool {
    forall|i: int| 0 <= i < s.len() ==> is_digit(#[trigger] s[i])
}

/// The number that a sequence of decimal digits writes; zero for the empty one.
pub open spec fn digits_value(s: Seq<char>) -> nat
    decreases s.len(),
{
    if s.len() == 0 {
        0
    } else {
        digits_value(s.drop_last()) * 10 + digit_value(s.last())
    }
}

/// The number that `s` writes, if `s` is one or more decimal digits and the
/// number is at most `max`.
pub open spec fn parse_digits(s: Seq<char>, max: nat) -> Option<nat> {
    if s.len() > 0 && all_digits(s) && digits_value(s) <= max {
        Some(digits_value(s))
    } else {
        None
    }
}

/// Reading an unsigned number as the standard library does: an optional plus
/// sign, then one or more decimal digits, the whole at most `max`.
pub open spec fn parse_unsigned(s: Seq<char>, max: nat) -> Option<nat> {
    if s.len() > 0 && s[0] == '+' {
        parse_digits(s.skip(1), max)
    } else {
        parse_digits(s, max)
    }
}

/// Whether `c` is white space in the sense of Unicode.
pub open spec fn is_whitespace(c: char) -> bool {
    let u = c as u32;
    ||| 0x09 <= u <= 0x0D
    ||| u == 0x20
    ||| u == 0x85
    ||| u == 0xA0
    ||| u == 0x1680
    ||| 0x2000 <= u <= 0x200A
    ||| u == 0x2028
    ||| u == 0x2029
    ||| u == 0x202F
    ||| u == 0x205F
    ||| u == 0x3000
}

/// Where the white space at the start of `s[from..to]` ends.
pub open spec fn trim_start(s: Seq<char>, from: int, to: int) -> int
    decreases to - from,
{
    if from < to && is_whitespace(s[from]) {
        trim_start(s, from + 1, to)
    } else {
        from
    }
}

/// Where the white space at the end of `s[from..to]` begins.
pub open spec fn trim_end(s: Seq<char>, from: int, to: int) -> int
    decreases to - from,
{
    if from < to && is_whitespace(s[to - 1]) {
        trim_end(s, from, to - 1)
    } else {
        to
    }
}

/// `s` without the white space at its two ends.
pub open spec fn trimmed(s: Seq<char>) -> Seq<char> {
    let start = trim_start(s, 0, s.len() as int);
    s.subrange(start, trim_end(s, start, s.len() as int))
}

/// The first position at or after `from` that holds `c`, or the length of `s`.
pub open spec fn position_of(s: Seq<char>, c: char, from: int) -> int
    decreases s.len() - from,
{
    if from >= s.len() {
        s.len() as int
    } else if s[from] == c {
        from
    } else {
        position_of(s, c, from + 1)
    }
}

fn is_space(c: char) -> (space: bool)
    ensures
        space == is_whitespace(c),
{
    let u: u32 = c as u32;
    (0x09 <= u && u <= 0x0D) || u == 0x20 || u == 0x85 || u == 0xA0 || u == 0x1680 || (0x2000 <= u
        && u <= 0x200A) || u == 0x2028 || u == 0x2029 || u == 0x202F || u == 0x205F || u == 0x3000
}

/// Finds the first `c` of `s` at or after `from`.
pub fn find_char(s: &str, c: char, from: usize) -> (at: usize)
    requires
        from <= s@.len(),
    ensures
        at == position_of(s@, c, from as int),
        from <= at <= s@.len(),
        at < s@.len() ==> s@[at as int] == c,
{
    let len = s.unicode_len();
    let mut at: usize = from;
    while at < len && s.get_char(at) != c
        invariant
            len == s@.len(),
            from <= at <= len,
            position_of(s@, c, from as int) == position_of(s@, c, at as int),
        decreases len - at,
    {
        at += 1;
    }
    at
}

/// Reads the digits `s[from..to]` as a number of at most `max`.
pub fn read_digits(s: &str, from: usize, to: usize, max: u128) -> (number: Option<u128>)
    requires
        from <= to <= s@.len(),
    ensures
        number is Some <==> parse_digits(s@.subrange(from as int, to as int), max as nat) is Some,
        number matches Some(n) ==> parse_digits(s@.subrange(from as int, to as int), max as nat)
            == Some(n as nat),
{
    let ghost digits = s@.subrange(from as int, to as int);
    if from == to {
        return None;
    }
    let mut value: u128 = 0;
    let mut at: usize = from;
    while at < to
        invariant
            from <= at <= to <= s@.len(),
            digits == s@.subrange(from as int, to as int),
            all_digits(digits.take(at - from)),
            value == digits_value(digits.take(at - from)),
            value <= max,
        decreases to - at,
    {
        let c = s.get_char(at);
        let u: u32 = c as u32;
        assert(digits[at - from] == c);
        if u < 48 || u > 57 {
            return None;
        }
        let d: u128 = (u - 48) as u128;
        proof {
            let longer = digits.take(at - from + 1);
            assert(longer.drop_last() =~= digits.take(at - from));
            assert(longer.last() == c);
            assert(all_digits(longer)) by {
                assert forall|i: int| 0 <= i < longer.len() implies is_digit(#[trigger] longer[i]) by {
                    if i < at - from {
                        assert(longer[i] == digits.take(at - from)[i]);
                    }
                }
            }
            lemma_digits_value_prefix(digits, at - from + 1);
        }
        if d > max || value > (max - d) / 10 {
            return None;
        }
        value = value * 10 + d;
        at += 1;
    }
    assert(digits.take(to - from) =~= digits);
    Some(value)
}

/// Reads `s` as the standard library reads an unsigned number of at most `max`.
pub fn read_unsigned(s: &str, max: u128) -> (number: Option<u128>)
    ensures
        number is Some <==> parse_unsigned(s@, max as nat) is Some,
        number matches Some(n) ==> parse_unsigned(s@, max as nat) == Some(n as nat),
{
    let len = s.unicode_len();
    if len > 0 && s.get_char(0) == '+' {
        assert(s@.subrange(1, len as int) =~= s@.skip(1));
        read_digits(s, 1, len, max)
    } else {
        assert(s@.subrange(0, len as int) =~= s@);
        read_digits(s, 0, len, max)
    }
}

/// Cuts the white space off the two ends of `s`.
pub fn trim(s: &str) -> (cut: &str)
    ensures
        cut@ == trimmed(s@),
{
    let len = s.unicode_len();
    let mut start: usize = 0;
    while start < len && is_space(s.get_char(start))
        invariant
            len == s@.len(),
            start <= len,
            trim_start(s@, 0, len as int) == trim_start(s@, start as int, len as int),
        decreases len - start,
    {
        start += 1;
    }
    let mut end: usize = len;
    while start < end && is_space(s.get_char(end - 1))
        invariant
            start <= end <= len == s@.len(),
            trim_end(s@, start as int, len as int) == trim_end(s@, start as int, end as int),
        decreases end - start,
    {
        end -= 1;
    }
    s.substring_char(start, end)
}

/// The id under which the position `index` of `validator` is known outside
/// the ledger: the validator, a slash, the index in decimal.
pub open spec fn position_id_chars(validator: Seq<char>, index: nat) -> Seq<char> {
    validator + seq!['/'] + decimal_chars(index)
}

/// The validator and index that a position id names. The validator is the text
/// before the first slash; the index is the text up to the next slash or the
/// end, read without the white space around it. An id without a slash, or
/// whose index is not a number that fits thirty-two bits, names nothing.
pub open spec fn position_key(id: Seq<char>) -> Option<(Seq<char>, nat)> {
    let cut = position_of(id, '/', 0);
    if cut >= id.len() {
        None
    } else {
        let end = position_of(id, '/', cut + 1);
        match parse_unsigned(trimmed(id.subrange(cut + 1, end)), u32::MAX as nat) {
            Some(index) => Some((id.take(cut), index)),
            None => None,
        }
    }
}

/// Writes the id of the position `index` of `validator`.
pub fn position_id(validator: &str, index: u32) -> (id: String)
    ensures
        id@ == position_id_chars(validator@, index as nat),
{
    proof {
        reveal_strlit("/");
    }
    let mut id = String::from_str(validator);
    id.append("/");
    let number = decimal(index as u128);
    id.append(number.as_str());
    assert("/"@ =~= seq!['/']);
    id
}

/// Reads a position id.
pub fn parse_position_id(id: &str) -> (key: Option<(String, u32)>)
    ensures
        key is Some <==> position_key(id@) is Some,
        key matches Some((validator, index)) ==> position_key(id@) == Some(
            (validator@, index as nat),
        ),
{
    let len = id.unicode_len();
    let cut = find_char(id, '/', 0);
    if cut >= len {
        return None;
    }
    let end = find_char(id, '/', cut + 1);
    let segment = trim(id.substring_char(cut + 1, end));
    match read_unsigned(segment, 0xffff_ffff) {
        Some(index) => {
            assert(id@.subrange(0, cut as int) =~= id@.take(cut as int));
            Some((String::from_str(id.substring_char(0, cut)), index as u32))
        },
        None => None,
    }
}

/// Where the digits at the start of `s[from..]` end.
pub open spec fn digits_end(s: Seq<char>, from: int) -> int
    decreases s.len() - from,
{
    if from < s.len() && is_digit(s[from]) {
        digits_end(s, from + 1)
    } else {
        from
    }
}

/// The amount that a receipt reports: the decimal number at the start of the
/// text, which a denomination may follow. A text that does not start with a
/// digit, or whose number does not fit 128 bits, reports nothing.
pub open spec fn reported_amount(text: Seq<char>) -> Option<nat> {
    parse_digits(text.take(digits_end(text, 0)), u128::MAX as nat)
}

/// Reads the amount that a receipt reports.
pub fn parse_amount(text: &str) -> (amount: Option<u128>)
    ensures
        amount is Some <==> reported_amount(text@) is Some,
        amount matches Some(n) ==> reported_amount(text@) == Some(n as nat),
{
    let len = text.unicode_len();
    let mut end: usize = 0;
    while end < len && is_numeral(text.get_char(end))
        invariant
            len == text@.len(),
            end <= len,
            digits_end(text@, 0) == digits_end(text@, end as int),
        decreases len - end,
    {
        end += 1;
    }
    assert(text@.subrange(0, end as int) =~= text@.take(end as int));
    read_digits(text, 0, end, u128::MAX)
}

fn is_numeral(c: char) -> (numeral: bool)
    ensures
        numeral == is_digit(c),
{
    let u: u32 = c as u32;
    48 <= u && u <= 57
}

/// A longer run of digits writes a number that is no smaller.
pub proof fn lemma_digits_value_prefix(s: Seq<char>, k: int)
    requires
        0 <= k <= s.len(),
    ensures
        digits_value(s.take(k)) <= digits_value(s),
    decreases s.len(),
{
    if k == s.len() {
        assert(s.take(k) =~= s);
    } else {
        assert(s.drop_last().take(k) =~= s.take(k));
        lemma_digits_value_prefix(s.drop_last(), k);
    }
}

/// Where `position_of` lands: at `k`, if `c` is not between `from` and `k` and
/// `k` holds it or is the end.
pub proof fn lemma_position_of(s: Seq<char>, c: char, from: int, k: int)
    requires
        0 <= from <= k <= s.len(),
        forall|j: int| from <= j < k ==> s[j] != c,
        k < s.len() ==> s[k] == c,
    ensures
        position_of(s, c, from) == k,
    decreases k - from,
{
    if from < k {
        lemma_position_of(s, c, from + 1, k);
    }
}

/// A decimal numeral is one or more digits and writes its number.
pub proof fn lemma_decimal_chars(n: nat)
    ensures
        decimal_chars(n).len() > 0,
        all_digits(decimal_chars(n)),
        digits_value(decimal_chars(n)) == n,
    decreases n,
{
    if n < 10 {
        let numeral = decimal_chars(n);
        assert(numeral.drop_last() =~= Seq::<char>::empty());
        assert(digits_value(numeral.drop_last()) == 0);
    } else {
        lemma_decimal_chars(n / 10);
        let shorter = decimal_chars(n / 10);
        let numeral = decimal_chars(n);
        assert(numeral.drop_last() =~= shorter);
        assert(numeral.last() == digit_char((n % 10) as int));
        assert forall|i: int| 0 <= i < numeral.len() implies is_digit(#[trigger] numeral[i]) by {
            if i < shorter.len() {
                assert(numeral[i] == shorter[i]);
            }
        }
    }
}

/// An id reads back as the validator and index that it was written from,
/// provided that the validator holds no slash and the index fits thirty-two
/// bits.
pub proof fn lemma_position_id_reads_back(validator: Seq<char>, index: nat)
    requires
        forall|j: int| 0 <= j < validator.len() ==> validator[j] != '/',
        index <= u32::MAX,
    ensures
        position_key(position_id_chars(validator, index)) == Some((validator, index)),
{
    let numeral = decimal_chars(index);
    let id = position_id_chars(validator, index);
    let cut = validator.len() as int;
    lemma_decimal_chars(index);
    assert(id.len() == cut + 1 + numeral.len());
    assert(id[cut] == '/');
    assert forall|j: int| 0 <= j < cut implies id[j] != '/' by {
        assert(id[j] == validator[j]);
    }
    lemma_position_of(id, '/', 0, cut);
    assert forall|j: int| cut + 1 <= j < id.len() implies id[j] != '/' by {
        assert(id[j] == numeral[j - cut - 1]);
        assert(is_digit(numeral[j - cut - 1]));
    }
    lemma_position_of(id, '/', cut + 1, id.len() as int);
    let segment = id.subrange(cut + 1, id.len() as int);
    assert(segment =~= numeral);
    assert(is_digit(numeral[0]));
    assert(is_digit(numeral[numeral.len() - 1]));
    assert(trimmed(numeral) =~= numeral);
    assert(id.take(cut) =~= validator);
}

} // verus!
