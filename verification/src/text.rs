//! Character-level helpers: character classes, trimming, splitting and
//! number syntax, all stated over sequences of characters.

use vstd::prelude::*;

verus! {

/// The characters of `s`, in order.
pub fn chars_of(s: &str) -> (out: Vec<char>)
    ensures
        out@ == s@,
{
    let mut out: Vec<char> = Vec::new();
    for c in it: s.chars()
        invariant
            out@ == it.seq().take(it.index()),
            it.seq() == s@,
    {
        out.push(c);
    }
    out
}

/// Unicode white space: the characters that separate words and that
/// trimming removes.
pub open spec fn is_space(c: char) -> bool {
    let n = c as u32;
    (0x09 <= n <= 0x0D) || n == 0x20 || n == 0x85 || n == 0xA0 || n == 0x1680 || (0x2000 <= n
        <= 0x200A) || n == 0x2028 || n == 0x2029 || n == 0x202F || n == 0x205F || n == 0x3000
}

/// An ASCII letter.
pub open spec fn is_ascii_letter(c: char) -> bool {
    ('a' <= c <= 'z') || ('A' <= c <= 'Z')
}

/// A decimal digit.
pub open spec fn is_decimal_digit(c: char) -> bool {
    '0' <= c <= '9'
}

/// A digit of base 16, in either case.
pub open spec fn is_hex_digit(c: char) -> bool {
    ('0' <= c <= '9') || ('a' <= c <= 'f') || ('A' <= c <= 'F')
}

/// The value of a digit in base 16; decimal digits keep their value.
pub open spec fn digit_value(c: char) -> nat {
    if '0' <= c <= '9' {
        (c as u32 - '0' as u32) as nat
    } else if 'a' <= c <= 'f' {
        (c as u32 - 'a' as u32 + 10) as nat
    } else if 'A' <= c <= 'F' {
        (c as u32 - 'A' as u32 + 10) as nat
    } else {
        0
    }
}

/// Executable form of [`is_space`].
pub fn char_is_space(c: char) -> (b: bool)
    ensures
        b == is_space(c),
{
    let n: u32 = c as u32;
    (0x09 <= n && n <= 0x0D) || n == 0x20 || n == 0x85 || n == 0xA0 || n == 0x1680 || (0x2000 <= n
        && n <= 0x200A) || n == 0x2028 || n == 0x2029 || n == 0x202F || n == 0x205F || n == 0x3000
}

/// Executable form of [`is_ascii_letter`].
pub fn char_is_ascii_letter(c: char) -> (b: bool)
    ensures
        b == is_ascii_letter(c),
{
    let n: u32 = c as u32;
    (0x61 <= n && n <= 0x7A) || (0x41 <= n && n <= 0x5A)
}

/// Executable form of [`is_decimal_digit`].
pub fn char_is_decimal_digit(c: char) -> (b: bool)
    ensures
        b == is_decimal_digit(c),
{
    let n: u32 = c as u32;
    0x30 <= n && n <= 0x39
}

/// The value of `c` as a digit of the given base (10 or 16), if it is one.
pub fn char_digit(c: char, base: u32) -> (d: Option<u32>)
    requires
        base == 10 || base == 16,
    ensures
        d is Some <==> (if base == 10 {
            is_decimal_digit(c)
        } else {
            is_hex_digit(c)
        }),
        d matches Some(v) ==> v == digit_value(c) && v < base,
{
    let n: u32 = c as u32;
    if 0x30 <= n && n <= 0x39 {
        Some(n - 0x30)
    } else if base == 16 && 0x61 <= n && n <= 0x66 {
        Some(n - 0x61 + 10)
    } else if base == 16 && 0x41 <= n && n <= 0x46 {
        Some(n - 0x41 + 10)
    } else {
        None
    }
}

/// The number that a run of digits denotes in the given base, most
/// significant digit first.
pub open spec fn digits_value(digits: Seq<char>, base: nat) -> nat
    decreases digits.len(),
{
    if digits.len() == 0 {
        0
    } else {
        digits_value(digits.drop_last(), base) * base + digit_value(digits.last())
    }
}

/// Whether every character is a digit of the base, 10 or 16.
pub open spec fn all_digits(digits: Seq<char>, base: nat) -> bool {
    forall|i: int|
        0 <= i < digits.len() ==> if base == 10 {
            is_decimal_digit(#[trigger] digits[i])
        } else {
            is_hex_digit(digits[i])
        }
}

/// What follows an optional leading plus sign.
pub open spec fn without_plus(s: Seq<char>) -> Seq<char> {
    if s.len() > 0 && s[0] == '+' {
        s.subrange(1, s.len() as int)
    } else {
        s
    }
}

/// An unsigned number: an optional plus sign, then at least one digit and
/// nothing else, denoting a value of at most `max`.
pub open spec fn unsigned_value(s: Seq<char>, base: nat, max: nat) -> Option<nat> {
    let digits = without_plus(s);
    if digits.len() > 0 && all_digits(digits, base) && digits_value(digits, base) <= max {
        Some(digits_value(digits, base))
    } else {
        None
    }
}

/// A run of digits denotes at least what any of its beginnings denotes.
pub proof fn lemma_digits_value_grows(digits: Seq<char>, base: nat, k: int)
    requires
        0 <= k <= digits.len(),
        base >= 1,
    ensures
        digits_value(digits.take(k), base) <= digits_value(digits, base),
    decreases digits.len() - k,
{
    if k < digits.len() {
        lemma_digits_value_grows(digits, base, k + 1);
        let longer = digits.take(k + 1);
        assert(longer.drop_last() == digits.take(k));
        assert(digits_value(longer, base) == digits_value(digits.take(k), base) * base
            + digit_value(longer.last()));
        assert(digits_value(digits.take(k), base) * base >= digits_value(digits.take(k), base))
            by (nonlinear_arith)
            requires
                base >= 1,
        ;
    } else {
        assert(digits.take(k) == digits);
    }
}

/// Reads `chars[from..to]` as an unsigned number in base 10 or 16.
pub fn parse_unsigned(chars: &Vec<char>, from: usize, to: usize, base: u32, max: u64) -> (out:
    Option<u64>)
    requires
        from <= to <= chars.len(),
        base == 10 || base == 16,
    ensures
        out is Some <==> unsigned_value(chars@.subrange(from as int, to as int), base as nat, max as nat)
            is Some,
        out matches Some(v) ==> v as nat == unsigned_value(
            chars@.subrange(from as int, to as int),
            base as nat,
            max as nat,
        )->0,
{
    let ghost s = chars@.subrange(from as int, to as int);
    let mut start: usize = from;
    if from < to && chars[from] == '+' {
        start = from + 1;
    }
    let ghost digits = chars@.subrange(start as int, to as int);
    assert(digits == without_plus(s));
    if start == to {
        return None;
    }
    let mut value: u64 = 0;
    let mut i: usize = start;
    while i < to
        invariant
            from <= start <= i <= to <= chars.len(),
            start < to,
            base == 10 || base == 16,
            digits == chars@.subrange(start as int, to as int),
            digits == without_plus(chars@.subrange(from as int, to as int)),
            all_digits(digits.take(i - start), base as nat),
            value as nat == digits_value(digits.take(i - start), base as nat),
            value <= max,
        decreases to - i,
    {
        let ghost k = i - start;
        let d = char_digit(chars[i], base);
        match d {
            None => {
                assert(!all_digits(digits, base as nat)) by {
                    assert(digits[k] == chars@[i as int]);
                }
                return None;
            },
            Some(v) => {
                let ghost before = digits.take(k);
                let ghost after = digits.take(k + 1);
                proof {
                    assert(after.drop_last() == before);
                    assert(after.last() == chars@[i as int]);
                    assert(digits_value(after, base as nat) == value as nat * base as nat + v as nat);
                    lemma_digits_value_grows(digits, base as nat, k + 1);
                }
                let scaled: Option<u64> = value.checked_mul(base as u64);
                let next: Option<u64> = match scaled {
                    None => None,
                    Some(m) => m.checked_add(v as u64),
                };
                match next {
                    None => {
                        return None;
                    },
                    Some(n) => {
                        if n > max {
                            return None;
                        }
                        assert forall|j: int| 0 <= j < after.len() implies if base == 10 {
                            is_decimal_digit(#[trigger] after[j])
                        } else {
                            is_hex_digit(after[j])
                        } by {
                            if j < k {
                                assert(after[j] == before[j]);
                            }
                        }
                        value = n;
                        i = i + 1;
                    },
                }
            },
        }
    }
    assert(digits.take(i - start) == digits);
    Some(value)
}

/// The index of the first character of `s` at or after `from` that is
/// white space (`space` true) or that is not; the length where none is.
pub open spec fn scan(s: Seq<char>, from: int, space: bool) -> int
    decreases s.len() - from,
{
    if from < 0 || from >= s.len() {
        s.len() as int
    } else if is_space(s[from]) == space {
        from
    } else {
        scan(s, from + 1, space)
    }
}

/// Executable form of [`scan`].
pub fn scan_from(chars: &Vec<char>, from: usize, space: bool) -> (at: usize)
    requires
        from <= chars.len(),
    ensures
        at == scan(chars@, from as int, space),
        from <= at <= chars.len(),
{
    let mut i: usize = from;
    while i < chars.len() && char_is_space(chars[i]) != space
        invariant
            from <= i <= chars.len(),
            scan(chars@, from as int, space) == scan(chars@, i as int, space),
        decreases chars.len() - i,
    {
        i = i + 1;
    }
    i
}

/// The end of `s` once trailing white space is dropped: the least `end`
/// such that everything from `end` on is white space.
pub open spec fn trimmed_end(s: Seq<char>) -> int
    decreases s.len(),
{
    if s.len() > 0 && is_space(s.last()) {
        trimmed_end(s.drop_last())
    } else {
        s.len() as int
    }
}

/// `s` without leading and trailing white space.
pub open spec fn trimmed(s: Seq<char>) -> Seq<char> {
    let start = scan(s, 0, false);
    let end = trimmed_end(s);
    if start <= end {
        s.subrange(start, end)
    } else {
        Seq::empty()
    }
}

/// The trimmed end lies within the text.
pub proof fn lemma_trimmed_end_bounds(s: Seq<char>)
    ensures
        0 <= trimmed_end(s) <= s.len(),
    decreases s.len(),
{
    if s.len() > 0 && is_space(s.last()) {
        lemma_trimmed_end_bounds(s.drop_last());
    }
}

/// The bounds of `chars` once white space is trimmed from both ends.
pub fn trim_bounds(chars: &Vec<char>) -> (out: (usize, usize))
    ensures
        out.0 <= out.1 <= chars.len(),
        chars@.subrange(out.0 as int, out.1 as int) == trimmed(chars@),
{
    let start: usize = scan_from(chars, 0, false);
    let mut end: usize = chars.len();
    assert(chars@.take(end as int) == chars@);
    while end > 0 && char_is_space(chars[end - 1])
        invariant
            end <= chars.len(),
            trimmed_end(chars@) == trimmed_end(chars@.take(end as int)),
        decreases end,
    {
        assert(chars@.take(end as int).drop_last() == chars@.take(end - 1));
        end = end - 1;
    }
    proof {
        assert(chars@.take(chars.len() as int) == chars@);
        lemma_trimmed_end_bounds(chars@);
        let t = chars@.take(end as int);
        if end > 0 {
            assert(t.last() == chars@[end - 1]);
        }
        assert(trimmed_end(chars@) == end);
    }
    if start <= end {
        (start, end)
    } else {
        assert(chars@.subrange(end as int, end as int) == Seq::<char>::empty());
        (end, end)
    }
}

/// The index of the first `sep` in `s` at or after `from`; the length
/// where there is none.
pub open spec fn find(s: Seq<char>, from: int, sep: char) -> int
    decreases s.len() - from,
{
    if from < 0 || from >= s.len() {
        s.len() as int
    } else if s[from] == sep {
        from
    } else {
        find(s, from + 1, sep)
    }
}

/// Executable form of [`find`].
pub fn find_from(chars: &Vec<char>, from: usize, sep: char) -> (at: usize)
    requires
        from <= chars.len(),
    ensures
        at == find(chars@, from as int, sep),
        from <= at <= chars.len(),
{
    let mut i: usize = from;
    while i < chars.len() && chars[i] != sep
        invariant
            from <= i <= chars.len(),
            find(chars@, from as int, sep) == find(chars@, i as int, sep),
        decreases chars.len() - i,
    {
        i = i + 1;
    }
    i
}

/// The pieces of `s` between occurrences of `sep`, starting at `from`.
/// There is always at least one piece; a separator at the very end is
/// followed by an empty piece.
pub open spec fn pieces(s: Seq<char>, from: int, sep: char) -> Seq<Seq<char>>
    decreases s.len() - from,
{
    if from < 0 || from > s.len() {
        Seq::empty()
    } else {
        let at = find(s, from, sep);
        if at >= s.len() {
            seq![s.subrange(from, s.len() as int)]
        } else if at < from {
            Seq::empty()
        } else {
            seq![s.subrange(from, at)] + pieces(s, at + 1, sep)
        }
    }
}

/// The bounds of the pieces of `chars` between occurrences of `sep`.
pub fn split_bounds(chars: &Vec<char>, sep: char) -> (out: Vec<(usize, usize)>)
    ensures
        out@.len() == pieces(chars@, 0, sep).len(),
        forall|k: int|
            0 <= k < out@.len() ==> (#[trigger] out@[k]).0 <= out@[k].1 <= chars.len()
                && chars@.subrange(out@[k].0 as int, out@[k].1 as int) == pieces(chars@, 0, sep)[k],
{
    let mut out: Vec<(usize, usize)> = Vec::new();
    let mut from: usize = 0;
    let ghost mut done: Seq<Seq<char>> = Seq::empty();
    loop
        invariant
            from <= chars.len(),
            done.len() == out@.len(),
            pieces(chars@, 0, sep) == done + pieces(chars@, from as int, sep),
            forall|k: int|
                0 <= k < out@.len() ==> (#[trigger] out@[k]).0 <= out@[k].1 <= chars.len()
                    && chars@.subrange(out@[k].0 as int, out@[k].1 as int) == done[k],
        decreases chars.len() - from,
    {
        let at: usize = find_from(chars, from, sep);
        let ghost piece = chars@.subrange(from as int, at as int);
        let ghost before = done;
        out.push((from, at));
        proof {
            done = done.push(piece);
            assert forall|k: int| 0 <= k < out@.len() implies (#[trigger] out@[k]).0 <= out@[k].1
                <= chars.len() && chars@.subrange(out@[k].0 as int, out@[k].1 as int)
                == done[k] by {
                if k < before.len() {
                    assert(done[k] == before[k]);
                }
            }
        }
        if at >= chars.len() {
            proof {
                assert(pieces(chars@, from as int, sep) == seq![piece]);
                assert(done == before + seq![piece]);
                assert(pieces(chars@, 0, sep) == done);
            }
            return out;
        }
        proof {
            assert(pieces(chars@, from as int, sep) == seq![piece] + pieces(
                chars@,
                at + 1,
                sep,
            ));
            assert(before + (seq![piece] + pieces(chars@, at + 1, sep)) == done + pieces(
                chars@,
                at + 1,
                sep,
            ));
        }
        from = at + 1;
    }
}

/// Whether `s` begins with `prefix`.
pub open spec fn has_prefix(s: Seq<char>, prefix: Seq<char>) -> bool {
    prefix.len() <= s.len() && s.subrange(0, prefix.len() as int) == prefix
}

/// Whether `chars[from..to]` begins with `prefix`.
pub fn starts_with(chars: &Vec<char>, from: usize, to: usize, prefix: &Vec<char>) -> (b: bool)
    requires
        from <= to <= chars.len(),
    ensures
        b == has_prefix(chars@.subrange(from as int, to as int), prefix@),
{
    let ghost s = chars@.subrange(from as int, to as int);
    if prefix.len() > to - from {
        return false;
    }
    let mut i: usize = 0;
    while i < prefix.len()
        invariant
            i <= prefix.len() <= to - from,
            from <= to <= chars.len(),
            s == chars@.subrange(from as int, to as int),
            forall|j: int| 0 <= j < i ==> s[j] == prefix@[j],
        decreases prefix.len() - i,
    {
        if chars[from + i] != prefix[i] {
            assert(s.subrange(0, prefix.len() as int)[i as int] != prefix@[i as int]);
            return false;
        }
        i = i + 1;
    }
    assert(s.subrange(0, prefix.len() as int) == prefix@);
    true
}

/// Appends one character to `out`.
///
/// Calls `String::push`, which the standard library documents as appending
/// the given character to the end of the string.
#[verifier::external_body]
pub(crate) fn push_char(out: &mut String, c: char)
    ensures
        final(out)@ == old(out)@.push(c),
{
    out.push(c);
}

/// The character for a decimal digit.
pub open spec fn digit_char(d: nat) -> char {
    (d + 0x30) as char
}

/// The decimal numeral of `n`, without sign or leading zeros.
pub open spec fn decimal_text(n: nat) -> Seq<char>
    decreases n,
{
    if n < 10 {
        seq![digit_char(n)]
    } else {
        decimal_text(n / 10).push(digit_char(n % 10))
    }
}

/// Appends the decimal numeral of `n` to `out`.
pub fn push_decimal(out: &mut String, n: u64)
    ensures
        final(out)@ == old(out)@ + decimal_text(n as nat),
    decreases n,
{
    if n >= 10 {
        push_decimal(out, n / 10);
    }
    let d: u8 = (n % 10) as u8;
    let c: char = (d + 0x30) as char;
    push_char(out, c);
    assert(c == digit_char((n % 10) as nat));
    if n >= 10 {
        assert(old(out)@ + decimal_text((n / 10) as nat).push(c) == (old(out)@ + decimal_text(
            (n / 10) as nat,
        )).push(c));
    } else {
        assert(old(out)@ + seq![c] == old(out)@.push(c));
    }
}

/// The characters of `chars[from..to]` as a vector of their own.
pub fn part_of(chars: &Vec<char>, from: usize, to: usize) -> (out: Vec<char>)
    requires
        from <= to <= chars.len(),
    ensures
        out@ == chars@.subrange(from as int, to as int),
{
    let mut out: Vec<char> = Vec::new();
    let mut i: usize = from;
    while i < to
        invariant
            from <= i <= to <= chars.len(),
            out@ == chars@.subrange(from as int, i as int),
        decreases to - i,
    {
        out.push(chars[i]);
        i = i + 1;
    }
    out
}

/// Why a text is no number of 32 bits with sign.
#[derive(Clone, Copy, Debug, PartialEq, Eq, Structural)]
pub enum NumberFault {
    /// There is no text.
    Empty,
    /// A character that is no digit, or a sign with nothing after it.
    InvalidDigit,
    /// The number is above the largest of the type.
    TooLarge,
    /// The number is below the smallest of the type.
    TooSmall,
}

/// The index of the first character at or after `from` that is no decimal
/// digit; the length where all are.
pub open spec fn digits_end(s: Seq<char>, from: int) -> int
    decreases s.len() - from,
{
    if from < 0 || from >= s.len() {
        s.len() as int
    } else if !is_decimal_digit(s[from]) {
        from
    } else {
        digits_end(s, from + 1)
    }
}

/// The number that a text denotes: an optional sign, then decimal digits
/// and nothing else, in the range of 32 bits with sign. The text is read
/// from the left, so a number that leaves the range before a character
/// that is no digit is met is out of range.
pub open spec fn signed_value(s: Seq<char>) -> Result<int, NumberFault> {
    if s.len() == 0 {
        Err(NumberFault::Empty)
    } else {
        let negative = s[0] == '-';
        let digits = if s[0] == '-' || s[0] == '+' {
            s.subrange(1, s.len() as int)
        } else {
            s
        };
        let end = digits_end(digits, 0);
        let magnitude = digits_value(digits.take(end), 10);
        if digits.len() == 0 {
            Err(NumberFault::InvalidDigit)
        } else if !negative && magnitude > i32::MAX {
            Err(NumberFault::TooLarge)
        } else if negative && magnitude > -(i32::MIN as int) {
            Err(NumberFault::TooSmall)
        } else if end < digits.len() {
            Err(NumberFault::InvalidDigit)
        } else if negative {
            Ok(-(magnitude as int))
        } else {
            Ok(magnitude as int)
        }
    }
}

/// Reads `chars[from..to]` as a number of 32 bits with sign.
#[verifier::loop_isolation(false)]
pub fn parse_signed(chars: &Vec<char>, from: usize, to: usize) -> (out: Result<i32, NumberFault>)
    requires
        from <= to <= chars.len(),
    ensures
        match out {
            Ok(v) => signed_value(chars@.subrange(from as int, to as int)) == Ok::<int, NumberFault>(
                v as int,
            ),
            Err(e) => signed_value(chars@.subrange(from as int, to as int)) == Err::<
                int,
                NumberFault,
            >(e),
        },
{
    let ghost s = chars@.subrange(from as int, to as int);
    if from == to {
        return Err(NumberFault::Empty);
    }
    let negative: bool = chars[from] == '-';
    let start: usize = if chars[from] == '-' || chars[from] == '+' {
        from + 1
    } else {
        from
    };
    let ghost digits = chars@.subrange(start as int, to as int);
    assert(digits == if s[0] == '-' || s[0] == '+' {
        s.subrange(1, s.len() as int)
    } else {
        s
    });
    if start == to {
        return Err(NumberFault::InvalidDigit);
    }
    let limit: u64 = if negative {
        0x8000_0000
    } else {
        0x7fff_ffff
    };
    let mut value: u64 = 0;
    let mut i: usize = start;
    while i < to
        invariant
            start <= i <= to <= chars.len(),
            forall|j: int| 0 <= j < i - start ==> is_decimal_digit(#[trigger] digits[j]),
            value as nat == digits_value(digits.take(i - start), 10),
            value <= limit <= 0x8000_0000,
        decreases to - i,
    {
        let ghost k = i - start;
        match char_digit(chars[i], 10) {
            None => {
                assert(digits[k] == chars@[i as int]);
                proof {
                    lemma_digits_end_skip(digits, k);
                    assert(digits_end(digits, k) == k);
                }
                return Err(NumberFault::InvalidDigit);
            },
            Some(v) => {
                let ghost before = digits.take(k);
                let ghost after = digits.take(k + 1);
                proof {
                    assert(digits[k] == chars@[i as int]);
                    assert(after.drop_last() == before);
                    assert(after.last() == chars@[i as int]);
                    assert(digits_value(after, 10) == value as nat * 10 + v as nat);
                    lemma_digits_end_skip(digits, k + 1);
                    lemma_digits_end_range(digits, k + 1);
                    lemma_digits_value_grows(digits.take(digits_end(digits, 0)), 10, k + 1);
                    assert(digits.take(digits_end(digits, 0)).take(k + 1) == after);
                }
                let next: u64 = value * 10 + v as u64;
                if next > limit {
                    return Err(
                        if negative {
                            NumberFault::TooSmall
                        } else {
                            NumberFault::TooLarge
                        },
                    );
                }
                value = next;
                i = i + 1;
            },
        }
    }
    proof {
        assert(digits.take(i - start) == digits);
        lemma_digits_end_skip(digits, digits.len() as int);
        assert(digits_end(digits, digits.len() as int) == digits.len());
    }
    if negative {
        if value == 0x8000_0000 {
            Ok(i32::MIN)
        } else {
            Ok(-(value as i32))
        }
    } else {
        Ok(value as i32)
    }
}

/// The end of a run of digits lies between its start and the end of the
/// text.
pub proof fn lemma_digits_end_range(s: Seq<char>, from: int)
    requires
        0 <= from <= s.len(),
    ensures
        from <= digits_end(s, from) <= s.len(),
    decreases s.len() - from,
{
    if from < s.len() && is_decimal_digit(s[from]) {
        lemma_digits_end_range(s, from + 1);
    }
}

/// Where everything before `from` is a digit, the run of digits from
/// the start ends where the run from `from` ends.
pub proof fn lemma_digits_end_skip(s: Seq<char>, from: int)
    requires
        0 <= from <= s.len(),
        forall|i: int| 0 <= i < from ==> is_decimal_digit(#[trigger] s[i]),
    ensures
        digits_end(s, 0) == digits_end(s, from),
    decreases from,
{
    if from > 0 {
        lemma_digits_end_skip(s, from - 1);
        assert(is_decimal_digit(s[from - 1]));
    }
}

} // verus!
