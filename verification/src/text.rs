//! Searching and rendering text.

use vstd::prelude::*;

verus! {

/// Whether `needle` occurs in `haystack` at position `at`.
pub open spec fn occurs_at(haystack: Seq<u8>, needle: Seq<u8>, at: int) -> bool {
    0 <= at && at + needle.len() <= haystack.len() && haystack.subrange(
        at,
        at + needle.len() as int,
    ) == needle
}

/// Whether `needle` occurs in `haystack`.
pub open spec fn spec_contains(haystack: Seq<u8>, needle: Seq<u8>) -> bool {
    exists|at: int| occurs_at(haystack, needle, at)
}

/// Whether the first `upto` bytes of `needle` are found in `haystack` from
/// position `at` on.
pub open spec fn prefix_matches(haystack: Seq<u8>, needle: Seq<u8>, at: int, upto: int) -> bool {
    forall|k: int| 0 <= k < upto ==> #[trigger] haystack[at + k] == needle[k]
}

fn matches_at(haystack: &[u8], needle: &[u8], at: usize) -> (found: bool)
    requires
        at + needle@.len() <= haystack@.len(),
    ensures
        found == occurs_at(haystack@, needle@, at as int),
{
    let length = haystack.len();
    let mut k: usize = 0;
    while k < needle.len()
        invariant
            k <= needle@.len(),
            length == haystack@.len(),
            at + needle@.len() <= length,
            prefix_matches(haystack@, needle@, at as int, k as int),
        decreases needle@.len() - k,
    {
        if haystack[at + k] != needle[k] {
            proof {
                let window = haystack@.subrange(at as int, at + needle@.len() as int);
                assert(window[k as int] == haystack@[at + k]);
            }
            return false;
        }
        k = k + 1;
    }
    proof {
        let window = haystack@.subrange(at as int, at + needle@.len() as int);
        assert forall|j: int| 0 <= j < needle@.len() implies window[j] == needle@[j] by {
            assert(haystack@[at + j] == needle@[j]);
        }
        assert(window =~= needle@);
    }
    true
}

/// Whether `needle` occurs in `haystack`. The empty needle occurs in
/// every haystack.
pub fn contains(haystack: &[u8], needle: &[u8]) -> (found: bool)
    ensures
        found == spec_contains(haystack@, needle@),
{
    if needle.len() > haystack.len() {
        assert forall|at: int| !occurs_at(haystack@, needle@, at) by {}
        return false;
    }
    let last = haystack.len() - needle.len();
    let mut at: usize = 0;
    while at < last
        invariant
            at <= last,
            last == haystack@.len() - needle@.len(),
            forall|earlier: int| 0 <= earlier < at ==> !occurs_at(haystack@, needle@, earlier),
        decreases last - at,
    {
        if matches_at(haystack, needle, at) {
            assert(occurs_at(haystack@, needle@, at as int));
            return true;
        }
        at = at + 1;
    }
    if matches_at(haystack, needle, last) {
        assert(occurs_at(haystack@, needle@, last as int));
        return true;
    }
    assert forall|any: int| !occurs_at(haystack@, needle@, any) by {}
    false
}

/// The digit of a value below ten.
pub open spec fn digit_char(value: int) -> char {
    if value == 0 {
        '0'
    } else if value == 1 {
        '1'
    } else if value == 2 {
        '2'
    } else if value == 3 {
        '3'
    } else if value == 4 {
        '4'
    } else if value == 5 {
        '5'
    } else if value == 6 {
        '6'
    } else if value == 7 {
        '7'
    } else if value == 8 {
        '8'
    } else {
        '9'
    }
}

/// The upper-case hexadecimal digit of a value below sixteen.
pub open spec fn hex_char(value: int) -> char {
    if value < 10 {
        digit_char(value)
    } else if value == 10 {
        'A'
    } else if value == 11 {
        'B'
    } else if value == 12 {
        'C'
    } else if value == 13 {
        'D'
    } else if value == 14 {
        'E'
    } else {
        'F'
    }
}

/// The decimal digits of a number, without leading zeros.
pub open spec fn spec_decimal(value: nat) -> Seq<char>
    decreases value,
{
    if value < 10 {
        seq![digit_char(value as int)]
    } else {
        spec_decimal(value / 10).push(digit_char((value % 10) as int))
    }
}

/// The last `digits` hexadecimal digits of a number, in upper case.
pub open spec fn spec_hex(value: nat, digits: nat) -> Seq<char>
    decreases digits,
{
    if digits == 0 {
        Seq::empty()
    } else {
        spec_hex(value / 16, (digits - 1) as nat).push(hex_char((value % 16) as int))
    }
}

fn hex_digit(value: u32) -> (text: &'static str)
    requires
        value < 16,
    ensures
        text@ == seq![hex_char(value as int)],
{
    proof {
        reveal_strlit("0");
        reveal_strlit("1");
        reveal_strlit("2");
        reveal_strlit("3");
        reveal_strlit("4");
        reveal_strlit("5");
        reveal_strlit("6");
        reveal_strlit("7");
        reveal_strlit("8");
        reveal_strlit("9");
        reveal_strlit("A");
        reveal_strlit("B");
        reveal_strlit("C");
        reveal_strlit("D");
        reveal_strlit("E");
        reveal_strlit("F");
    }
    let text = if value == 0 {
        "0"
    } else if value == 1 {
        "1"
    } else if value == 2 {
        "2"
    } else if value == 3 {
        "3"
    } else if value == 4 {
        "4"
    } else if value == 5 {
        "5"
    } else if value == 6 {
        "6"
    } else if value == 7 {
        "7"
    } else if value == 8 {
        "8"
    } else if value == 9 {
        "9"
    } else if value == 10 {
        "A"
    } else if value == 11 {
        "B"
    } else if value == 12 {
        "C"
    } else if value == 13 {
        "D"
    } else if value == 14 {
        "E"
    } else {
        "F"
    };
    assert(text@ =~= seq![hex_char(value as int)]);
    text
}

/// Appends the decimal digits of `value` to `text`.
pub fn push_decimal(text: &mut String, value: u64)
    ensures
        final(text)@ == old(text)@ + spec_decimal(value as nat),
    decreases value,
{
    if value >= 10 {
        push_decimal(text, value / 10);
    }
    let digit = hex_digit((value % 10) as u32);
    text.append(digit);
    proof {
        if value >= 10 {
            assert(final(text)@ =~= old(text)@ + spec_decimal(value as nat));
        } else {
            assert(final(text)@ =~= old(text)@ + spec_decimal(value as nat));
        }
    }
}

/// Appends the last `digits` hexadecimal digits of `value`, in upper case.
pub fn push_hex(text: &mut String, value: u32, digits: u32)
    ensures
        final(text)@ == old(text)@ + spec_hex(value as nat, digits as nat),
    decreases digits,
{
    if digits == 0 {
        assert(text@ =~= old(text)@ + spec_hex(value as nat, 0));
    } else {
        push_hex(text, value / 16, digits - 1);
        text.append(hex_digit(value % 16));
        assert(final(text)@ =~= old(text)@ + spec_hex(value as nat, digits as nat));
    }
}

/// Appends a 32-bit value as eight hexadecimal digits in upper case.
pub fn push_hex32(text: &mut String, value: u32)
    ensures
        final(text)@ == old(text)@ + spec_hex(value as nat, 8),
{
    push_hex(text, value, 8);
}

/// The radix of a number in text.
#[derive(Clone, Copy, Debug, PartialEq, Eq, Structural)]
pub enum Radix {
    Decimal,
    Hexadecimal,
}

impl Radix {
    /// The number of digits of the radix.
    #[verifier::allow_in_spec]
    pub fn base(self) -> u32
        returns
            (match self {
                Radix::Decimal => 10u32,
                Radix::Hexadecimal => 16u32,
            }),
    {
        match self {
            Radix::Decimal => 10,
            Radix::Hexadecimal => 16,
        }
    }
}

/// The value of one digit in the given radix. Hexadecimal digits may be of
/// either case.
pub open spec fn spec_digit_value(byte: u8, radix: Radix) -> Option<u32> {
    if 48 <= byte <= 57 {
        Some((byte - 48) as u32)
    } else if radix == Radix::Hexadecimal && 97 <= byte <= 102 {
        Some((byte - 87) as u32)
    } else if radix == Radix::Hexadecimal && 65 <= byte <= 70 {
        Some((byte - 55) as u32)
    } else {
        None
    }
}

#[verifier::when_used_as_spec(spec_digit_value)]
pub fn digit_value(byte: u8, radix: Radix) -> (value: Option<u32>)
    ensures
        value == spec_digit_value(byte, radix),
        value matches Some(v) ==> v < 16,
{
    if 48 <= byte && byte <= 57 {
        Some((byte - 48) as u32)
    } else if radix == Radix::Hexadecimal && 97 <= byte && byte <= 102 {
        Some((byte - 87) as u32)
    } else if radix == Radix::Hexadecimal && 65 <= byte && byte <= 70 {
        Some((byte - 55) as u32)
    } else {
        None
    }
}

/// Whether every byte is a digit of the radix.
pub open spec fn all_digits(text: Seq<u8>, radix: Radix) -> bool {
    forall|i: int| 0 <= i < text.len() ==> (#[trigger] spec_digit_value(text[i], radix)) is Some
}

/// The number that a string of digits denotes.
pub open spec fn digits_value(text: Seq<u8>, radix: Radix) -> nat
    decreases text.len(),
{
    if text.len() == 0 {
        0
    } else {
        digits_value(text.drop_last(), radix) * (radix.base() as nat) + (match spec_digit_value(
            text.last(),
            radix,
        ) {
            Some(v) => v as nat,
            None => 0,
        })
    }
}

/// The number that `text` denotes, if it denotes one within `max`: an
/// optional plus sign followed by one or more digits of the radix, and
/// nothing else.
pub open spec fn spec_parse_unsigned(text: Seq<u8>, radix: Radix, max: u32) -> Option<u32> {
    let digits = if text.len() > 0 && text[0] == 43 {
        text.skip(1)
    } else {
        text
    };
    if digits.len() > 0 && all_digits(digits, radix) && digits_value(digits, radix) <= max {
        Some(digits_value(digits, radix) as u32)
    } else {
        None
    }
}

/// More digits never denote less.
pub proof fn lemma_digits_monotone(text: Seq<u8>, k: int, radix: Radix)
    requires
        0 <= k <= text.len(),
    ensures
        digits_value(text.take(k), radix) <= digits_value(text, radix),
    decreases text.len() - k,
{
    if k == text.len() {
        assert(text.take(k) =~= text);
    } else {
        let shorter = text.drop_last();
        lemma_digits_monotone(shorter, k, radix);
        assert(shorter.take(k) =~= text.take(k));
        let base = radix.base() as nat;
        assert(digits_value(shorter, radix) * base >= digits_value(shorter, radix))
            by (nonlinear_arith)
            requires
                base >= 1,
        ;
    }
}

/// Parses an unsigned number.
pub fn parse_unsigned(text: &[u8], radix: Radix, max: u32) -> (value: Option<u32>)
    ensures
        value == spec_parse_unsigned(text@, radix, max),
{
    let length = text.len();
    let start: usize = if length > 0 && text[0] == 43 {
        1
    } else {
        0
    };
    if start == length {
        return None;
    }
    let ghost digits = text@.skip(start as int);
    proof {
        assert(text@.skip(0) =~= text@);
    }
    let base: u64 = radix.base() as u64;
    let mut total: u64 = 0;
    let mut i: usize = start;
    while i < length
        invariant
            start <= i <= length,
            length == text@.len(),
            digits == text@.skip(start as int),
            digits == (if text@.len() > 0 && text@[0] == 43 {
                text@.skip(1)
            } else {
                text@
            }),
            digits.len() == length - start,
            start < length,
            base == radix.base(),
            total <= max,
            total == digits_value(digits.take(i - start), radix),
            all_digits(digits.take(i - start), radix),
        decreases length - i,
    {
        let ghost prefix = digits.take(i - start);
        let ghost longer = digits.take(i - start + 1);
        proof {
            assert(longer.drop_last() =~= prefix);
            assert(longer.last() == text@[i as int]);
        }
        match digit_value(text[i], radix) {
            None => {
                proof {
                    assert(digits[i - start] == text@[i as int]);
                    assert(!all_digits(digits, radix));
                }
                return None;
            },
            Some(digit) => {
                assert(total * base + digit <= 0xFFFF_FFFF * 16 + 15) by (nonlinear_arith)
                    requires
                        total <= 0xFFFF_FFFF,
                        base <= 16,
                        digit < 16,
                ;
                let next: u64 = total * base + digit as u64;
                proof {
                    assert(digits_value(longer, radix) == next);
                    assert forall|j: int| 0 <= j < longer.len() implies (
                    #[trigger] spec_digit_value(longer[j], radix)) is Some by {
                        if j < prefix.len() {
                            assert(longer[j] == prefix[j]);
                        }
                    }
                }
                if next > max as u64 {
                    proof {
                        lemma_digits_monotone(digits, i - start + 1, radix);
                    }
                    return None;
                }
                total = next;
            },
        }
        i = i + 1;
    }
    proof {
        assert(digits.take(length - start) =~= digits);
    }
    Some(total as u32)
}

/// Whether a byte is blank: a space, a tab, a line feed, a vertical tab, a
/// form feed or a carriage return.
#[verifier::allow_in_spec]
pub fn is_blank(byte: u8) -> bool
    returns
        byte == 32 || (9 <= byte && byte <= 13),
{
    byte == 32 || (9 <= byte && byte <= 13)
}

/// The first position from `from` on at which `needle` occurs in
/// `haystack`, or the length of `haystack` if there is none.
pub open spec fn spec_position_from(haystack: Seq<u8>, needle: Seq<u8>, from: nat) -> int
    decreases haystack.len() - from,
{
    if from >= haystack.len() || from + needle.len() > haystack.len() {
        haystack.len() as int
    } else if occurs_at(haystack, needle, from as int) {
        from as int
    } else {
        spec_position_from(haystack, needle, from + 1)
    }
}

/// The first position at which `needle` occurs in `haystack`, or the
/// length of `haystack` if it does not occur.
pub open spec fn spec_position(haystack: Seq<u8>, needle: Seq<u8>) -> int {
    spec_position_from(haystack, needle, 0)
}

/// Finds the first position at which `needle` occurs in `haystack`. A
/// needle that does not occur is reported at the length of the haystack.
pub fn position(haystack: &[u8], needle: &[u8]) -> (at: usize)
    ensures
        at == spec_position(haystack@, needle@),
        at <= haystack@.len(),
        at < haystack@.len() ==> occurs_at(haystack@, needle@, at as int),
{
    let length = haystack.len();
    if needle.len() > length {
        return length;
    }
    let last = length - needle.len();
    let mut at: usize = 0;
    while at < last
        invariant
            at <= last,
            length == haystack@.len(),
            last == haystack@.len() - needle@.len(),
            spec_position(haystack@, needle@) == spec_position_from(haystack@, needle@, at as nat),
        decreases last - at,
    {
        if matches_at(haystack, needle, at) {
            return at;
        }
        at = at + 1;
    }
    if matches_at(haystack, needle, last) {
        if last == length {
            // Only the empty needle occurs at the very end.
            assert(spec_position_from(haystack@, needle@, last as nat) == last);
        }
        return last;
    }
    assert(spec_position_from(haystack@, needle@, (last + 1) as nat) == length);
    length
}

/// The number of blank bytes that `text` begins with.
pub open spec fn leading_blanks(text: Seq<u8>) -> int
    decreases text.len(),
{
    if text.len() == 0 || !is_blank(text[0]) {
        0
    } else {
        1 + leading_blanks(text.skip(1))
    }
}

/// The number of blank bytes that `text` ends with.
pub open spec fn trailing_blanks(text: Seq<u8>) -> int
    decreases text.len(),
{
    if text.len() == 0 || !is_blank(text.last()) {
        0
    } else {
        1 + trailing_blanks(text.drop_last())
    }
}

/// The number of bytes that are not blank that `text` begins with.
pub open spec fn leading_word(text: Seq<u8>) -> int
    decreases text.len(),
{
    if text.len() == 0 || is_blank(text[0]) {
        0
    } else {
        1 + leading_word(text.skip(1))
    }
}

/// `text` without the blanks around it.
pub open spec fn spec_trim(text: Seq<u8>) -> Seq<u8> {
    let rest = text.skip(leading_blanks(text));
    rest.take(rest.len() - trailing_blanks(rest))
}

/// The first word of `text`: its first bytes that are not blank, up to the
/// next blank. A text of blanks has none.
pub open spec fn spec_first_word(text: Seq<u8>) -> Option<Seq<u8>> {
    let rest = text.skip(leading_blanks(text));
    if rest.len() == 0 {
        None
    } else {
        Some(rest.take(leading_word(rest)))
    }
}

fn count_leading(text: &[u8], from: usize, blank: bool) -> (count: usize)
    requires
        from <= text@.len(),
    ensures
        from + count <= text@.len(),
        blank ==> count == leading_blanks(text@.skip(from as int)),
        !blank ==> count == leading_word(text@.skip(from as int)),
{
    let length = text.len();
    let mut at: usize = from;
    while at < length && is_blank(text[at]) == blank
        invariant
            from <= at <= length,
            length == text@.len(),
            blank ==> leading_blanks(text@.skip(from as int)) == (at - from) + leading_blanks(
                text@.skip(at as int),
            ),
            !blank ==> leading_word(text@.skip(from as int)) == (at - from) + leading_word(
                text@.skip(at as int),
            ),
        decreases length - at,
    {
        proof {
            assert(text@.skip(at as int)[0] == text@[at as int]);
            assert(text@.skip(at as int).skip(1) =~= text@.skip(at + 1));
        }
        at = at + 1;
    }
    proof {
        if at < length {
            assert(text@.skip(at as int)[0] == text@[at as int]);
        }
    }
    at - from
}

fn count_trailing(text: &[u8], from: usize) -> (count: usize)
    requires
        from <= text@.len(),
    ensures
        from + count <= text@.len(),
        count == trailing_blanks(text@.skip(from as int)),
{
    let length = text.len();
    let mut end: usize = length;
    proof {
        assert(text@.skip(from as int).take(length - from) =~= text@.skip(from as int));
    }
    while end > from && is_blank(text[end - 1])
        invariant
            from <= end <= length,
            length == text@.len(),
            trailing_blanks(text@.skip(from as int)) == (length - end) + trailing_blanks(
                text@.skip(from as int).take(end - from),
            ),
        decreases end,
    {
        proof {
            let kept = text@.skip(from as int).take(end - from);
            assert(kept.last() == text@[end - 1]);
            assert(kept.drop_last() =~= text@.skip(from as int).take(end - from - 1));
        }
        end = end - 1;
    }
    proof {
        let kept = text@.skip(from as int).take(end - from);
        if end > from {
            assert(kept.last() == text@[end - 1]);
        }
    }
    length - end
}

/// `text` without the blanks around it.
pub fn trim(text: &[u8]) -> (trimmed: Vec<u8>)
    ensures
        trimmed@ == spec_trim(text@),
{
    let start = count_leading(text, 0, true);
    proof {
        assert(text@.skip(0) =~= text@);
    }
    let trailing = count_trailing(text, start);
    let end = text.len() - trailing;
    let kept = vstd::slice::slice_subrange(text, start, end);
    assert(kept@ =~= spec_trim(text@));
    vstd::slice::slice_to_vec(kept)
}

/// The first word of `text`.
pub fn first_word(text: &[u8]) -> (word: Option<Vec<u8>>)
    ensures
        match word {
            Some(bytes) => spec_first_word(text@) == Some(bytes@),
            None => spec_first_word(text@) is None,
        },
{
    let start = count_leading(text, 0, true);
    proof {
        assert(text@.skip(0) =~= text@);
    }
    if start == text.len() {
        return None;
    }
    let length = count_leading(text, start, false);
    let kept = vstd::slice::slice_subrange(text, start, start + length);
    assert(kept@ =~= text@.skip(start as int).take(length as int));
    Some(vstd::slice::slice_to_vec(kept))
}

} // verus!
