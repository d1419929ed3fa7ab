//! Small verified text helpers: decimal and hexadecimal rendering.
use vstd::prelude::*;

verus! {

/// Appends one character to a string.
///
/// Trusted: calls `String::push`, which std documents as appending the given
/// `char` to the end of the string.
#[verifier::external_body]
pub(crate) fn push_char(s: &mut String, c: char)
    ensures
        final(s)@ == old(s)@.push(c),
{
    s.push(c);
}

/// The decimal digit character for `d` (which must be below ten).
pub open spec fn digit_char(d: nat) -> char {
    (d + 48) as char
}

/// The decimal rendering of a natural number, without leading zeros.
pub open spec fn decimal_nat(n: nat) -> Seq<char>
    decreases n,
{
    if n < 10 {
        seq![digit_char(n)]
    } else {
        decimal_nat(n / 10).push(digit_char(n % 10))
    }
}

/// The decimal rendering of an integer, with a leading `-` when negative.
pub open spec fn decimal_int(i: int) -> Seq<char> {
    if i < 0 {
        seq!['-'] + decimal_nat((-i) as nat)
    } else {
        decimal_nat(i as nat)
    }
}

/// Appends the decimal rendering of `n` to `s`.
pub fn push_decimal(s: &mut String, n: u64)
    ensures
        final(s)@ == old(s)@ + decimal_nat(n as nat),
    decreases n,
{
    if n >= 10 {
        push_decimal(s, n / 10);
    }
    let d: u64 = n % 10;
    let c: char = ((d as u8) + 48u8) as char;
    assert(c == digit_char((n % 10) as nat));
    push_char(s, c);
}

/// Appends the decimal rendering of a signed 32-bit integer to `s`.
pub fn push_decimal_i32(s: &mut String, v: i32)
    ensures
        final(s)@ == old(s)@ + decimal_int(v as int),
{
    if v < 0 {
        push_char(s, '-');
        let m: u64 = (-(v as i64)) as u64;
        push_decimal(s, m);
        assert(final(s)@ =~= old(s)@ + decimal_int(v as int));
    } else {
        push_decimal(s, v as u64);
    }
}

/// Lower-case hexadecimal digit for a nibble.
pub open spec fn hex_digit(n: nat) -> char {
    if n < 10 {
        (n + 48) as char
    } else {
        (n - 10 + 97) as char
    }
}

/// Two lower-case hexadecimal characters per byte, most significant nibble first.
pub open spec fn hex_lower(data: Seq<u8>) -> Seq<char>
    decreases data.len(),
{
    if data.len() == 0 {
        seq![]
    } else {
        hex_lower(data.drop_last()) + seq![
            hex_digit((data.last() / 16) as nat),
            hex_digit((data.last() % 16) as nat),
        ]
    }
}

/// True of the characters that std's `char::is_ascii_hexdigit` accepts.
pub open spec fn is_hex_char(c: char) -> bool {
    ('0' <= c && c <= '9') || ('a' <= c && c <= 'f') || ('A' <= c && c <= 'F')
}

pub proof fn lemma_hex_lower_len(data: Seq<u8>)
    ensures
        hex_lower(data).len() == 2 * data.len(),
    decreases data.len(),
{
    if data.len() > 0 {
        lemma_hex_lower_len(data.drop_last());
    }
}

pub proof fn lemma_hex_lower_is_hex(data: Seq<u8>)
    ensures
        forall|i: int| 0 <= i < hex_lower(data).len() ==> is_hex_char(#[trigger] hex_lower(data)[i]),
    decreases data.len(),
{
    if data.len() > 0 {
        lemma_hex_lower_is_hex(data.drop_last());
        lemma_hex_lower_len(data.drop_last());
    }
}

/// The value of a hexadecimal digit of either case, or -1 for any other character.
pub open spec fn hex_value(c: char) -> int {
    if '0' <= c && c <= '9' {
        c as int - 48
    } else if 'a' <= c && c <= 'f' {
        c as int - 97 + 10
    } else if 'A' <= c && c <= 'F' {
        c as int - 65 + 10
    } else {
        -1
    }
}

/// Whether a character is a lower-case hexadecimal digit.
pub open spec fn is_lower_hex_char(c: char) -> bool {
    ('0' <= c && c <= '9') || ('a' <= c && c <= 'f')
}

/// The digit rendered for a nibble is a lower-case hexadecimal digit whose
/// value is the nibble.
pub proof fn lemma_hex_digit_value(n: nat)
    requires
        n < 16,
    ensures
        is_lower_hex_char(hex_digit(n)),
        hex_value(hex_digit(n)) == n,
{
}

/// Reading a lower-case hex rendering back gives the bytes: it has two digits
/// per byte, and the digits at `2i` and `2i + 1` are the high and the low nibble
/// of byte `i`.
pub proof fn lemma_hex_lower_decodes(data: Seq<u8>)
    ensures
        hex_lower(data).len() == 2 * data.len(),
        forall|i: int| 0 <= i < hex_lower(data).len() ==> is_lower_hex_char(#[trigger] hex_lower(data)[i]),
        forall|i: int|
            #![trigger data[i]]
            0 <= i < data.len() ==> 16 * hex_value(hex_lower(data)[2 * i]) + hex_value(
                hex_lower(data)[2 * i + 1],
            ) == data[i],
    decreases data.len(),
{
    lemma_hex_lower_len(data);
    if data.len() > 0 {
        let init = data.drop_last();
        lemma_hex_lower_decodes(init);
        lemma_hex_lower_len(init);
        let b = data.last();
        lemma_hex_digit_value((b / 16) as nat);
        lemma_hex_digit_value((b % 16) as nat);
        let h = hex_lower(data);
        assert(h == hex_lower(init) + seq![hex_digit((b / 16) as nat), hex_digit((b % 16) as nat)]);
        assert forall|i: int| 0 <= i < h.len() implies is_lower_hex_char(#[trigger] h[i]) by {
            if i < hex_lower(init).len() {
                assert(h[i] == hex_lower(init)[i]);
            }
        }
        assert forall|i: int| 0 <= i < data.len() implies 16 * hex_value(h[2 * i]) + hex_value(
            h[2 * i + 1],
        ) == data[i] by {
            if i < init.len() {
                assert(init[i] == data[i]);
                assert(h[2 * i] == hex_lower(init)[2 * i]);
                assert(h[2 * i + 1] == hex_lower(init)[2 * i + 1]);
            } else {
                assert(i == init.len());
                assert(b == 16 * (b / 16) + b % 16);
            }
        }
    }
}

/// Upper-case hexadecimal digit for a nibble.
pub open spec fn upper_hex_digit(n: nat) -> char {
    if n < 10 {
        (n + 48) as char
    } else {
        (n - 10 + 65) as char
    }
}

/// The characters that `is_hex_char` accepts are exactly the hexadecimal digits
/// of the sixteen nibble values, in lower or upper case; each has the value of
/// its nibble.
pub proof fn lemma_hex_chars(c: char)
    ensures
        forall|n: nat|
            n < 16 ==> is_hex_char(#[trigger] hex_digit(n)) && is_hex_char(upper_hex_digit(n))
                && hex_value(upper_hex_digit(n)) == n,
        is_hex_char(c) ==> exists|n: nat|
            n < 16 && (c == #[trigger] hex_digit(n) || c == upper_hex_digit(n)),
        is_hex_char(c) <==> 0 <= hex_value(c) < 16,
{
    assert forall|n: nat| n < 16 implies is_hex_char(#[trigger] hex_digit(n)) && is_hex_char(
        upper_hex_digit(n),
    ) && hex_value(upper_hex_digit(n)) == n by {
        lemma_hex_digit_value(n);
    }
    if is_hex_char(c) {
        let n: nat = hex_value(c) as nat;
        if 'A' <= c && c <= 'F' {
            assert(c == hex_digit(n) || c == upper_hex_digit(n));
        } else {
            assert(c == hex_digit(n));
        }
    }
}

fn hex_nibble(n: u8) -> (c: char)
    requires
        n < 16,
    ensures
        c == hex_digit(n as nat),
{
    if n < 10 {
        (n + 48u8) as char
    } else {
        (n - 10 + 97u8) as char
    }
}

/// Renders bytes as lower-case hexadecimal, two characters per byte.
pub fn to_hex_lower(data: &[u8]) -> (r: String)
    ensures
        r@ == hex_lower(data@),
{
    let mut r = String::new();
    let n = data.len();
    for i in 0..n
        invariant
            n == data@.len(),
            r@ == hex_lower(data@.take(i as int)),
    {
        let b = data[i];
        push_char(&mut r, hex_nibble(b / 16));
        push_char(&mut r, hex_nibble(b % 16));
        assert(data@.take(i + 1).drop_last() =~= data@.take(i as int));
    }
    assert(data@.take(n as int) =~= data@);
    r
}

} // verus!
