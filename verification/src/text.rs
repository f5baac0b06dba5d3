//! Text building blocks: comparison, decimal and hexadecimal digits, whitespace.
use vstd::prelude::*;

verus! {

/// `String::push` puts one character behind the text.
pub assume_specification[ String::push ](text: &mut String, c: char)
    ensures
        final(text)@ == old(text)@.push(c),
;

/// Two texts with the same UTF-8 bytes are the same text.
pub proof fn lemma_utf8_injective(a: Seq<char>, b: Seq<char>)
    requires
        vstd::utf8::encode_utf8(a) == vstd::utf8::encode_utf8(b),
    ensures
        a == b,
{
    vstd::utf8::encode_utf8_decode_utf8(a);
    vstd::utf8::encode_utf8_decode_utf8(b);
    assert(vstd::utf8::decode_utf8(vstd::utf8::encode_utf8(a)) == vstd::utf8::decode_utf8(
        vstd::utf8::encode_utf8(b),
    ));
}

/// Whether two texts are equal.
pub fn same_text(a: &str, b: &str) -> (same: bool)
    ensures
        same == (a@ == b@),
{
    let left = a.as_bytes();
    let right = b.as_bytes();
    if left.len() != right.len() {
        return false;
    }
    let mut i: usize = 0;
    while i < left.len()
        invariant
            i <= left@.len(),
            left@.len() == right@.len(),
            left@ == vstd::utf8::encode_utf8(a@),
            right@ == vstd::utf8::encode_utf8(b@),
            forall|k: int| 0 <= k < i ==> left@[k] == right@[k],
        decreases left@.len() - i,
    {
        if left[i] != right[i] {
            return false;
        }
        i += 1;
    }
    proof {
        assert(left@ =~= right@);
        lemma_utf8_injective(a@, b@);
    }
    true
}

/// The character of a decimal or hexadecimal digit.
pub open spec fn digit(n: nat) -> char {
    if n < 10 {
        ('0' as nat + n) as char
    } else {
        ('a' as nat + (n - 10)) as char
    }
}

/// The decimal digits of a number, without leading zeros.
pub open spec fn decimal(n: nat) -> Seq<char>
    decreases n,
{
    if n < 10 {
        seq![digit(n)]
    } else {
        decimal(n / 10).push(digit(n % 10))
    }
}

fn digit_char(n: u8) -> (c: char)
    requires
        n < 16,
    ensures
        c == digit(n as nat),
{
    if n < 10 {
        (48 + n) as char
    } else {
        (87 + n) as char
    }
}

/// Writes a number in decimal.
pub fn decimal_text(n: u64) -> (text: String)
    ensures
        text@ == decimal(n as nat),
    decreases n,
{
    let mut text = if n < 10 {
        String::new()
    } else {
        decimal_text(n / 10)
    };
    text.push(digit_char((n % 10) as u8));
    text
}

/// The decimal digits of an integer, behind a minus sign where it is negative.
pub open spec fn integer(n: int) -> Seq<char> {
    if n < 0 {
        seq!['-'] + decimal((-n) as nat)
    } else {
        decimal(n as nat)
    }
}

/// Writes an integer in decimal.
pub fn integer_text(n: i64) -> (text: String)
    ensures
        text@ == integer(n as int),
{
    if n < 0 {
        let size: u64 = (-(n + 1)) as u64 + 1;
        let mut text = String::new();
        text.push('-');
        text.append(decimal_text(size).as_str());
        assert(text@ =~= seq!['-'] + decimal(size as nat));
        text
    } else {
        decimal_text(n as u64)
    }
}

/// Two hexadecimal digits for each byte.
pub open spec fn hex(bytes: Seq<u8>) -> Seq<char> {
    Seq::new(
        2 * bytes.len(),
        |i: int|
            if i % 2 == 0 {
                digit(bytes[i / 2] as nat / 16)
            } else {
                digit(bytes[i / 2] as nat % 16)
            },
    )
}

/// Writes bytes in hexadecimal.
pub fn hex_text(bytes: &[u8]) -> (text: String)
    ensures
        text@ == hex(bytes@),
{
    let mut text = String::new();
    let mut i: usize = 0;
    while i < bytes.len()
        invariant
            i <= bytes@.len(),
            text@ == hex(bytes@.take(i as int)),
        decreases bytes@.len() - i,
    {
        text.push(digit_char(bytes[i] / 16));
        text.push(digit_char(bytes[i] % 16));
        assert(text@ =~= hex(bytes@.take(i + 1)));
        i += 1;
    }
    assert(bytes@.take(i as int) =~= bytes@);
    text
}

/// Whether Unicode counts a character as white space.
pub open spec fn is_white(c: char) -> bool {
    let n = c as u32;
    ||| 0x9 <= n <= 0xd
    ||| n == 0x20
    ||| n == 0x85
    ||| n == 0xa0
    ||| n == 0x1680
    ||| 0x2000 <= n <= 0x200a
    ||| n == 0x2028
    ||| n == 0x2029
    ||| n == 0x202f
    ||| n == 0x205f
    ||| n == 0x3000
}

/// Whether a text is empty or all white space.
pub open spec fn is_blank(text: Seq<char>) -> bool {
    forall|i: int| 0 <= i < text.len() ==> is_white(#[trigger] text[i])
}

/// Whether a character is white space.
pub fn white(c: char) -> (yes: bool)
    ensures
        yes == is_white(c),
{
    let n = c as u32;
    (0x9 <= n && n <= 0xd) || n == 0x20 || n == 0x85 || n == 0xa0 || n == 0x1680 || (0x2000 <= n
        && n <= 0x200a) || n == 0x2028 || n == 0x2029 || n == 0x202f || n == 0x205f || n == 0x3000
}

/// Whether a text is empty or all white space.
pub fn blank(text: &str) -> (yes: bool)
    ensures
        yes == is_blank(text@),
{
    for c in it: text.chars()
        invariant
            it.seq() == text@,
            forall|i: int| 0 <= i < it.index() ==> is_white(#[trigger] text@[i]),
    {
        if !white(c) {
            assert(text@[it.index()] == c);
            return false;
        }
    }
    true
}

/// Different digits have different characters.
pub proof fn lemma_digit_injective(a: nat, b: nat)
    requires
        a < 16,
        b < 16,
        digit(a) == digit(b),
    ensures
        a == b,
{
    assert(digit(a) as nat == if a < 10 { 48 + a } else { 87 + a });
    assert(digit(b) as nat == if b < 10 { 48 + b } else { 87 + b });
}

/// Every character of a decimal number is a digit, and there is at least one.
pub proof fn lemma_decimal_digits(n: nat)
    ensures
        decimal(n).len() > 0,
        forall|i: int| 0 <= i < decimal(n).len() ==> '0' <= #[trigger] decimal(n)[i] <= '9',
    decreases n,
{
    if n >= 10 {
        lemma_decimal_digits(n / 10);
    }
}

/// Different numbers have different digits.
pub proof fn lemma_decimal_injective(a: nat, b: nat)
    requires
        decimal(a) == decimal(b),
    ensures
        a == b,
    decreases a,
{
    lemma_decimal_digits(a / 10);
    lemma_decimal_digits(b / 10);
    assert(decimal(a).last() == decimal(b).last());
    if a >= 10 && b >= 10 {
        assert(decimal(a).drop_last() =~= decimal(a / 10));
        assert(decimal(b).drop_last() =~= decimal(b / 10));
        lemma_decimal_injective(a / 10, b / 10);
        assert(decimal(a).last() == digit(a % 10));
        assert(decimal(b).last() == digit(b % 10));
        lemma_digit_injective(a % 10, b % 10);
    } else {
        assert(a >= 10 ==> decimal(a).len() > 1);
        assert(b >= 10 ==> decimal(b).len() > 1);
        assert(decimal(a)[0] == digit(a));
        assert(decimal(b)[0] == digit(b));
        lemma_digit_injective(a, b);
    }
}

/// Different integers have different digits.
pub proof fn lemma_integer_injective(a: int, b: int)
    requires
        integer(a) == integer(b),
    ensures
        a == b,
{
    let size_a = if a < 0 { (-a) as nat } else { a as nat };
    let size_b = if b < 0 { (-b) as nat } else { b as nat };
    lemma_decimal_digits(size_a);
    lemma_decimal_digits(size_b);
    assert(integer(a)[0] == integer(b)[0]);
    if a < 0 && b < 0 {
        assert(integer(a).drop_first() =~= decimal(size_a));
        assert(integer(b).drop_first() =~= decimal(size_b));
    } else {
        assert(a >= 0 ==> integer(a)[0] == decimal(size_a)[0]);
        assert(b >= 0 ==> integer(b)[0] == decimal(size_b)[0]);
    }
    lemma_decimal_injective(size_a, size_b);
}

/// Different bytes have different hexadecimal digits.
pub proof fn lemma_hex_injective(a: Seq<u8>, b: Seq<u8>)
    requires
        hex(a) == hex(b),
    ensures
        a == b,
{
    assert(hex(a).len() == 2 * a.len());
    assert(hex(b).len() == 2 * b.len());
    assert forall|k: int| 0 <= k < a.len() implies a[k] == b[k] by {
        assert((2 * k) / 2 == k && (2 * k + 1) / 2 == k);
        assert(hex(a)[2 * k] == digit(a[k] as nat / 16));
        assert(hex(b)[2 * k] == digit(b[k] as nat / 16));
        assert(hex(a)[2 * k + 1] == digit(a[k] as nat % 16));
        assert(hex(b)[2 * k + 1] == digit(b[k] as nat % 16));
        lemma_digit_injective(a[k] as nat / 16, b[k] as nat / 16);
        lemma_digit_injective(a[k] as nat % 16, b[k] as nat % 16);
        assert(a[k] == a[k] / 16 * 16 + a[k] % 16);
        assert(b[k] == b[k] / 16 * 16 + b[k] % 16);
    }
    assert(a =~= b);
}

}
