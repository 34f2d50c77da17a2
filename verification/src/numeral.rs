//! Numbers as text: hexadecimal digests and decimal quantities.

use vstd::prelude::*;

use crate::text::chars_of;

verus! {

/// The hexadecimal digit of a number below sixteen.
pub open spec fn hex_digit(n: int) -> char {
    "0123456789abcdef"@[n]
}

/// Two digits for each byte.
pub open spec fn hex_of(bytes: Seq<u8>) -> Seq<char> {
    Seq::new(
        2 * bytes.len(),
        |i: int| hex_digit(if i % 2 == 0 { bytes[i / 2] / 16 } else { bytes[i / 2] % 16 } as int),
    )
}

/// The hexadecimal digit of a number below sixteen.
fn digit(n: u8) -> (c: char)
    requires
        n < 16,
    ensures
        c == hex_digit(n as int),
{
    proof {
        reveal_strlit("0123456789abcdef");
    }
    match n {
        0 => '0',
        1 => '1',
        2 => '2',
        3 => '3',
        4 => '4',
        5 => '5',
        6 => '6',
        7 => '7',
        8 => '8',
        9 => '9',
        10 => 'a',
        11 => 'b',
        12 => 'c',
        13 => 'd',
        14 => 'e',
        _ => 'f',
    }
}

/// Writes bytes in hexadecimal, two lower-case digits for each.
pub fn hex(bytes: &[u8]) -> (s: String)
    ensures
        s@ == hex_of(bytes@),
{
    let mut out = String::new();
    for i in 0..bytes.len()
        invariant
            out@ == hex_of(bytes@.take(i as int)),
    {
        out.push(digit(bytes[i] / 16));
        out.push(digit(bytes[i] % 16));
        let ghost done = bytes@.take(i as int);
        let ghost more = bytes@.take(i + 1);
        assert(more =~= done.push(bytes@[i as int]));
        assert(hex_of(more) =~= hex_of(done).push(hex_digit((bytes@[i as int] / 16) as int)).push(
            hex_digit((bytes@[i as int] % 16) as int),
        ));
    }
    assert(bytes@.take(bytes@.len() as int) =~= bytes@);
    out
}

/// No two hexadecimal digits look alike.
pub proof fn hex_digits_differ(m: int, n: int)
    requires
        0 <= m < 16,
        0 <= n < 16,
        hex_digit(m) == hex_digit(n),
    ensures
        m == n,
{
    reveal_strlit("0123456789abcdef");
}

/// Hexadecimal text tells byte strings apart: where the first `2 * n` digits agree, so do the
/// first `n` bytes.
pub proof fn hex_tells_bytes_apart(a: Seq<u8>, b: Seq<u8>, n: int)
    requires
        0 <= n <= a.len(),
        n <= b.len(),
        hex_of(a).take(2 * n) == hex_of(b).take(2 * n),
    ensures
        a.take(n) == b.take(n),
{
    assert forall|i: int| 0 <= i < n implies a[i] == b[i] by {
        let x = hex_of(a).take(2 * n);
        let y = hex_of(b).take(2 * n);
        assert(x[2 * i] == hex_digit((a[i] / 16) as int));
        assert(y[2 * i] == hex_digit((b[i] / 16) as int));
        assert(x[2 * i + 1] == hex_digit((a[i] % 16) as int));
        assert(y[2 * i + 1] == hex_digit((b[i] % 16) as int));
        hex_digits_differ((a[i] / 16) as int, (b[i] / 16) as int);
        hex_digits_differ((a[i] % 16) as int, (b[i] % 16) as int);
    }
    assert(a.take(n) =~= b.take(n));
}

/// Whether a character is a decimal digit.
pub open spec fn is_decimal(c: char) -> bool {
    '0' <= c <= '9'
}

/// The number that a run of decimal digits spells.
pub open spec fn decimal_value(s: Seq<char>) -> nat
    decreases s.len(),
{
    if s.len() == 0 {
        0
    } else {
        10 * decimal_value(s.drop_last()) + (s.last() as int - '0' as int) as nat
    }
}

/// What stands behind an optional plus sign.
pub open spec fn unsigned_part(s: Seq<char>) -> Seq<char> {
    if s.len() > 0 && s[0] == '+' {
        s.drop_first()
    } else {
        s
    }
}

/// The unsigned number that `s` spells: an optional plus sign and at least one decimal digit,
/// nothing else, with a value that fits in 64 bits.
pub open spec fn unsigned_value(s: Seq<char>) -> Option<nat> {
    let digits = unsigned_part(s);
    if digits.len() > 0 && (forall|i: int| 0 <= i < digits.len() ==> is_decimal(digits[i]))
        && decimal_value(digits) <= u64::MAX {
        Some(decimal_value(digits))
    } else {
        None
    }
}

proof fn decimal_value_grows(s: Seq<char>, n: int)
    requires
        0 <= n <= s.len(),
    ensures
        decimal_value(s.take(n)) <= decimal_value(s),
    decreases s.len(),
{
    if n < s.len() {
        decimal_value_grows(s.drop_last(), n);
        assert(s.drop_last().take(n) =~= s.take(n));
    } else {
        assert(s.take(n) =~= s);
    }
}

/// Reads an unsigned decimal number.
pub fn parse_unsigned(s: &str) -> (n: Option<u64>)
    ensures
        match n {
            Some(v) => unsigned_value(s@) == Some(v as nat),
            None => unsigned_value(s@) is None,
        },
{
    let chars = chars_of(s);
    let start: usize = if chars.len() > 0 && chars[0] == '+' {
        1
    } else {
        0
    };
    let ghost digits = unsigned_part(s@);
    assert(digits =~= s@.skip(start as int));
    if chars.len() == start {
        return None;
    }
    let mut value: u64 = 0;
    let mut i: usize = start;
    assert(digits.take(0) =~= Seq::<char>::empty());
    while i < chars.len()
        invariant
            chars@ == s@,
            digits == unsigned_part(s@),
            digits == s@.skip(start as int),
            start <= i <= s@.len(),
            digits.len() > 0,
            forall|j: int| 0 <= j < i - start ==> is_decimal(digits[j]),
            value == decimal_value(digits.take(i - start)),
        decreases chars.len() - i,
    {
        let c = chars[i];
        assert(digits[i - start] == c);
        if c < '0' || c > '9' {
            return None;
        }
        let d: u64 = (c as u32 - '0' as u32) as u64;
        proof {
            assert(digits.take(i + 1 - start).drop_last() =~= digits.take(i - start));
            assert(digits.take(i + 1 - start).last() == c);
            decimal_value_grows(digits, i + 1 - start);
        }
        if value > (u64::MAX - d) / 10 {
            assert(10 * value + d > u64::MAX);
            return None;
        }
        value = 10 * value + d;
        i = i + 1;
    }
    assert(digits.take(digits.len() as int) =~= digits);
    Some(value)
}

/// The number that a hexadecimal digit stands for.
pub open spec fn hex_value(c: char) -> int {
    if '0' <= c <= '9' {
        c as int - '0' as int
    } else {
        c as int - 'a' as int + 10
    }
}

/// Each byte is two lower-case digits, the high one first, and can be read back from them.
pub proof fn hex_is_read_back(bytes: Seq<u8>, i: int)
    requires
        0 <= i < bytes.len(),
    ensures
        hex_of(bytes).len() == 2 * bytes.len(),
        16 * hex_value(hex_of(bytes)[2 * i]) + hex_value(hex_of(bytes)[2 * i + 1]) == bytes[i],
        0 <= hex_value(hex_of(bytes)[2 * i]) < 16,
        0 <= hex_value(hex_of(bytes)[2 * i + 1]) < 16,
        ({
            let c = hex_of(bytes)[2 * i];
            '0' <= c <= '9' || 'a' <= c <= 'f'
        }),
        ({
            let c = hex_of(bytes)[2 * i + 1];
            '0' <= c <= '9' || 'a' <= c <= 'f'
        }),
{
    reveal_strlit("0123456789abcdef");
    let hi = (bytes[i] / 16) as int;
    let lo = (bytes[i] % 16) as int;
    assert(hex_of(bytes)[2 * i] == hex_digit(hi));
    assert(hex_of(bytes)[2 * i + 1] == hex_digit(lo));
    assert(0 <= hi < 16 && 0 <= lo < 16);
    assert(hex_value(hex_digit(hi)) == hi);
    assert(hex_value(hex_digit(lo)) == lo);
}

/// A digit alone spells its own value, and so does one behind a plus sign.
pub proof fn digit_is_a_number(c: char)
    requires
        '0' <= c <= '9',
    ensures
        unsigned_value(seq![c]) == Some((c as int - '0' as int) as nat),
        unsigned_value(seq!['+', c]) == Some((c as int - '0' as int) as nat),
{
    let one = seq![c];
    assert(unsigned_part(one) =~= one);
    assert(one.drop_last() =~= Seq::empty());
    assert(unsigned_part(seq!['+', c]) =~= one);
    reveal_with_fuel(decimal_value, 2);
}

/// A digit more makes a number ten times as large, and adds its own value, as long as 64 bits
/// hold it.
pub proof fn digit_is_added(s: Seq<char>, v: nat, c: char)
    requires
        unsigned_value(s) == Some(v),
        '0' <= c <= '9',
    ensures
        ({
            let n = 10 * v + (c as int - '0' as int);
            unsigned_value(s.push(c)) == (if n <= 0xffff_ffff_ffff_ffff {
                Some(n as nat)
            } else {
                None
            })
        }),
{
    let digits = unsigned_part(s);
    let more = unsigned_part(s.push(c));
    assert(more =~= digits.push(c));
    assert(more.drop_last() =~= digits);
    assert(decimal_value(more) == 10 * decimal_value(digits) + (c as int - '0' as int) as nat);
    assert forall|i: int| 0 <= i < more.len() implies is_decimal(more[i]) by {
        if i < digits.len() {
            assert(is_decimal(digits[i]));
        }
    }
}

/// What holds a character that is no digit, but for a plus sign at the start, spells no number;
/// neither does nothing.
pub proof fn others_are_no_numbers(s: Seq<char>, at: int)
    requires
        s.len() == 0 || (0 <= at < s.len() && !('0' <= s[at] <= '9') && (at > 0 || s[at] != '+')),
    ensures
        unsigned_value(s) is None,
{
    let digits = unsigned_part(s);
    if s.len() > 0 {
        if s[0] == '+' {
            assert(digits[at - 1] == s[at]);
        } else {
            assert(digits[at] == s[at]);
        }
    }
}

}
