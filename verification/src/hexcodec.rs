//! Lowercase hexadecimal encoding and decoding of byte strings, with the
//! encode/decode round trip proved. Remote key material travels as hex
//! strings, so every orchestration step leans on these functions.

use vstd::prelude::*;
use vstd::string::*;

verus! {

/// The lowercase hex digit for a nibble value.
pub open spec fn hex_char_of(n: u8) -> char
    recommends
        n < 16,
{
    if n == 0 {
        '0'
    } else if n == 1 {
        '1'
    } else if n == 2 {
        '2'
    } else if n == 3 {
        '3'
    } else if n == 4 {
        '4'
    } else if n == 5 {
        '5'
    } else if n == 6 {
        '6'
    } else if n == 7 {
        '7'
    } else if n == 8 {
        '8'
    } else if n == 9 {
        '9'
    } else if n == 10 {
        'a'
    } else if n == 11 {
        'b'
    } else if n == 12 {
        'c'
    } else if n == 13 {
        'd'
    } else if n == 14 {
        'e'
    } else {
        'f'
    }
}

/// Whether a character is a hex digit, upper or lower case.
pub open spec fn is_hex_digit(c: char) -> bool {
    c == '0' || c == '1' || c == '2' || c == '3' || c == '4' || c == '5' || c == '6' || c == '7'
        || c == '8' || c == '9' || c == 'a' || c == 'b' || c == 'c' || c == 'd' || c == 'e'
        || c == 'f' || c == 'A' || c == 'B' || c == 'C' || c == 'D' || c == 'E' || c == 'F'
}

/// The nibble value of a hex digit.
pub open spec fn hex_digit_val(c: char) -> u8
    recommends
        is_hex_digit(c),
{
    if c == '0' {
        0
    } else if c == '1' {
        1
    } else if c == '2' {
        2
    } else if c == '3' {
        3
    } else if c == '4' {
        4
    } else if c == '5' {
        5
    } else if c == '6' {
        6
    } else if c == '7' {
        7
    } else if c == '8' {
        8
    } else if c == '9' {
        9
    } else if c == 'a' || c == 'A' {
        10
    } else if c == 'b' || c == 'B' {
        11
    } else if c == 'c' || c == 'C' {
        12
    } else if c == 'd' || c == 'D' {
        13
    } else if c == 'e' || c == 'E' {
        14
    } else {
        15
    }
}

/// The lowercase hex rendering of a byte string: two digits per byte,
/// high nibble first.
pub open spec fn hex_str_of(bytes: Seq<u8>) -> Seq<char> {
    Seq::new(
        bytes.len() * 2,
        |i: int|
            if i % 2 == 0 {
                hex_char_of((bytes[i / 2] / 16) as u8)
            } else {
                hex_char_of((bytes[i / 2] % 16) as u8)
            },
    )
}

/// Whether every character of the sequence is a hex digit.
pub open spec fn is_hex_seq(s: Seq<char>) -> bool {
    forall|i: int| 0 <= i < s.len() ==> is_hex_digit(#[trigger] s[i])
}

/// The bytes denoted by a hex string of even length, case-insensitively.
pub open spec fn bytes_of_hex(s: Seq<char>) -> Seq<u8>
    recommends
        s.len() % 2 == 0,
        is_hex_seq(s),
{
    Seq::new(
        s.len() / 2,
        |i: int| (hex_digit_val(s[2 * i]) * 16 + hex_digit_val(s[2 * i + 1])) as u8,
    )
}

/// Decoding a nibble's digit gives the nibble back, and the digit is
/// always a lowercase hex digit, never a wrapping or prefix character.
pub proof fn lemma_hex_char_of(n: u8)
    requires
        n < 16,
    ensures
        is_hex_digit(hex_char_of(n)),
        hex_digit_val(hex_char_of(n)) == n,
        hex_char_of(n) != 'x',
        hex_char_of(n) != '"',
        hex_char_of(n) != '\\',
        hex_char_of(n) != '/',
{
}

/// The hex rendering of a byte string decodes back to the same bytes.
pub proof fn lemma_hex_round_trip(bytes: Seq<u8>)
    ensures
        hex_str_of(bytes).len() == 2 * bytes.len(),
        is_hex_seq(hex_str_of(bytes)),
        bytes_of_hex(hex_str_of(bytes)) =~= bytes,
{
    let h = hex_str_of(bytes);
    assert forall|i: int| 0 <= i < h.len() implies is_hex_digit(#[trigger] h[i]) by {
        if i % 2 == 0 {
            lemma_hex_char_of((bytes[i / 2] / 16) as u8);
        } else {
            lemma_hex_char_of((bytes[i / 2] % 16) as u8);
        }
    }
    assert forall|i: int| 0 <= i < bytes.len() implies bytes_of_hex(h)[i] == bytes[i] by {
        let b = bytes[i];
        lemma_hex_char_of((b / 16) as u8);
        lemma_hex_char_of((b % 16) as u8);
        assert(h[2 * i] == hex_char_of((b / 16) as u8));
        assert(h[2 * i + 1] == hex_char_of((b % 16) as u8));
        assert(hex_digit_val(h[2 * i]) * 16 + hex_digit_val(h[2 * i + 1]) == b);
    }
}

/// A sequence of hex digits contains no 'x', no wrapping character and
/// no path separator, so prefix stripping, trimming and path joining
/// leave it intact.
pub proof fn lemma_hex_seq_chars(s: Seq<char>)
    requires
        is_hex_seq(s),
    ensures
        forall|i: int|
            0 <= i < s.len() ==> #[trigger] s[i] != 'x' && s[i] != '"' && s[i] != '\\' && s[i]
                != '/',
{
}

fn nibble_str(n: u8) -> (r: &'static str)
    requires
        n < 16,
    ensures
        r@.len() == 1,
        r@[0] == hex_char_of(n),
{
    proof {
        reveal_strlit("0");
        reveal_strlit("1");
        reveal_strlit("2");
        reveal_strlit("3");
        reveal_strlit("4");
        reveal_strlit("5");
        reveal_strlit("6");
        reveal_strlit("7");
        reveal_strlit("8");
        reveal_strlit("9");
        reveal_strlit("a");
        reveal_strlit("b");
        reveal_strlit("c");
        reveal_strlit("d");
        reveal_strlit("e");
        reveal_strlit("f");
    }
    if n == 0 {
        "0"
    } else if n == 1 {
        "1"
    } else if n == 2 {
        "2"
    } else if n == 3 {
        "3"
    } else if n == 4 {
        "4"
    } else if n == 5 {
        "5"
    } else if n == 6 {
        "6"
    } else if n == 7 {
        "7"
    } else if n == 8 {
        "8"
    } else if n == 9 {
        "9"
    } else if n == 10 {
        "a"
    } else if n == 11 {
        "b"
    } else if n == 12 {
        "c"
    } else if n == 13 {
        "d"
    } else if n == 14 {
        "e"
    } else {
        "f"
    }
}

proof fn lemma_hex_str_step(bytes: Seq<u8>, i: int)
    requires
        0 <= i < bytes.len(),
    ensures
        hex_str_of(bytes.take(i + 1)) =~= hex_str_of(bytes.take(i))
            + seq![hex_char_of((bytes[i] / 16) as u8), hex_char_of((bytes[i] % 16) as u8)],
{
}

/// Renders bytes as lowercase hex, two digits per byte.
pub fn hex_encode(bytes: &[u8]) -> (r: String)
    ensures
        r@ == hex_str_of(bytes@),
{
    let mut r = String::new();
    let mut i: usize = 0;
    while i < bytes.len()
        invariant
            i <= bytes@.len(),
            r@ =~= hex_str_of(bytes@.take(i as int)),
        decreases bytes@.len() - i,
    {
        let b = bytes[i];
        r.append(nibble_str(b / 16));
        r.append(nibble_str(b % 16));
        proof {
            lemma_hex_str_step(bytes@, i as int);
        }
        i = i + 1;
    }
    proof {
        assert(bytes@.take(bytes@.len() as int) =~= bytes@);
    }
    r
}

/// The nibble value of a hex digit, or `None` for any other character.
pub fn hex_digit_value(c: char) -> (r: Option<u8>)
    ensures
        r is Some <==> is_hex_digit(c),
        r is Some ==> r->Some_0 == hex_digit_val(c),
{
    if c == '0' {
        Some(0)
    } else if c == '1' {
        Some(1)
    } else if c == '2' {
        Some(2)
    } else if c == '3' {
        Some(3)
    } else if c == '4' {
        Some(4)
    } else if c == '5' {
        Some(5)
    } else if c == '6' {
        Some(6)
    } else if c == '7' {
        Some(7)
    } else if c == '8' {
        Some(8)
    } else if c == '9' {
        Some(9)
    } else if c == 'a' || c == 'A' {
        Some(10)
    } else if c == 'b' || c == 'B' {
        Some(11)
    } else if c == 'c' || c == 'C' {
        Some(12)
    } else if c == 'd' || c == 'D' {
        Some(13)
    } else if c == 'e' || c == 'E' {
        Some(14)
    } else if c == 'f' || c == 'F' {
        Some(15)
    } else {
        None
    }
}

/// Decodes a hex string to bytes. Succeeds exactly when the length is
/// even and every character is a hex digit, upper or lower case.
pub fn hex_decode(s: &str) -> (r: Option<Vec<u8>>)
    ensures
        r is Some <==> (s@.len() % 2 == 0 && is_hex_seq(s@)),
        r is Some ==> r->Some_0@ == bytes_of_hex(s@),
{
    let n = s.unicode_len();
    if n % 2 != 0 {
        return None;
    }
    let mut v: Vec<u8> = Vec::new();
    let mut i: usize = 0;
    while i < n / 2
        invariant
            n == s@.len(),
            n % 2 == 0,
            i <= n / 2,
            forall|k: int| 0 <= k < 2 * i ==> is_hex_digit(#[trigger] s@[k]),
            v@ =~= bytes_of_hex(s@).take(i as int),
        decreases n / 2 - i,
    {
        let c1 = s.get_char(2 * i);
        let c2 = s.get_char(2 * i + 1);
        let v1 = match hex_digit_value(c1) {
            Some(x) => x,
            None => {
                return None;
            },
        };
        let v2 = match hex_digit_value(c2) {
            Some(x) => x,
            None => {
                return None;
            },
        };
        v.push(v1 * 16 + v2);
        proof {
            assert(bytes_of_hex(s@).take(i + 1) =~= bytes_of_hex(s@).take(i as int).push(
                (hex_digit_val(s@[2 * i]) * 16 + hex_digit_val(s@[2 * i + 1])) as u8,
            ));
        }
        i = i + 1;
    }
    proof {
        assert forall|k: int| 0 <= k < s@.len() implies is_hex_digit(#[trigger] s@[k]) by {
            assert(k == 2 * (k / 2) + k % 2);
            assert(k / 2 < n / 2);
            assert(k < 2 * (n / 2));
        }
        assert(v@ =~= bytes_of_hex(s@));
    }
    Some(v)
}

} // verus!
