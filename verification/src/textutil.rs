//! Character-level text operations the wire protocol depends on:
//! trimming the quote and escape characters that wrap remote hex values,
//! stripping repeated "0x" prefixes, substring search for error phrases,
//! decimal rendering of thresholds, and path-segment joining.

use vstd::prelude::*;
use vstd::string::*;
use crate::hexcodec::hex_char_of;

verus! {

/// The characters a remote node wraps bare hex values in: quote and
/// backslash.
pub open spec fn is_wrapping_char(c: char) -> bool {
    c == '"' || c == '\\'
}

/// The sequence with all leading wrapping characters removed.
pub open spec fn trim_front(s: Seq<char>) -> Seq<char>
    decreases s.len(),
{
    if s.len() > 0 && is_wrapping_char(s[0]) {
        trim_front(s.drop_first())
    } else {
        s
    }
}

/// The sequence with all trailing wrapping characters removed.
pub open spec fn trim_back(s: Seq<char>) -> Seq<char>
    decreases s.len(),
{
    if s.len() > 0 && is_wrapping_char(s[s.len() - 1]) {
        trim_back(s.drop_last())
    } else {
        s
    }
}

/// The sequence with wrapping characters removed from both ends.
pub open spec fn trim_wrapping(s: Seq<char>) -> Seq<char> {
    trim_back(trim_front(s))
}

/// The sequence with every leading "0x" pair removed, one pair at a time.
pub open spec fn strip_hex_prefix(s: Seq<char>) -> Seq<char>
    decreases s.len(),
{
    if s.len() >= 2 && s[0] == '0' && s[1] == 'x' {
        strip_hex_prefix(s.skip(2))
    } else {
        s
    }
}

/// Whether `needle` occurs in `hay` starting at index `i`.
pub open spec fn matches_at(hay: Seq<char>, needle: Seq<char>, i: int) -> bool {
    0 <= i && i + needle.len() <= hay.len() && forall|j: int|
        0 <= j < needle.len() ==> hay[i + j] == #[trigger] needle[j]
}

/// Whether `needle` occurs anywhere in `hay`.
pub open spec fn contains_seq(hay: Seq<char>, needle: Seq<char>) -> bool {
    exists|i: int| matches_at(hay, needle, i)
}

/// The decimal digits of a natural number, most significant first.
pub open spec fn dec_str_of(n: nat) -> Seq<char>
    decreases n,
{
    if n < 10 {
        seq![hex_char_of(n as u8)]
    } else {
        dec_str_of(n / 10).push(hex_char_of((n % 10) as u8))
    }
}

proof fn lemma_trim_front_skip(s: Seq<char>, a: int)
    requires
        0 <= a <= s.len(),
        forall|k: int| 0 <= k < a ==> is_wrapping_char(#[trigger] s[k]),
        a == s.len() || !is_wrapping_char(s[a]),
    ensures
        trim_front(s) =~= s.skip(a),
    decreases a,
{
    if a == 0 {
        assert(s.skip(0) =~= s);
    } else {
        assert(is_wrapping_char(s[0]));
        lemma_trim_front_skip(s.drop_first(), a - 1);
        assert(s.drop_first().skip(a - 1) =~= s.skip(a));
    }
}

proof fn lemma_trim_back_take(s: Seq<char>, b: int)
    requires
        0 <= b <= s.len(),
        forall|k: int| b <= k < s.len() ==> is_wrapping_char(#[trigger] s[k]),
        b == 0 || !is_wrapping_char(s[b - 1]),
    ensures
        trim_back(s) =~= s.take(b),
    decreases s.len(),
{
    if b == s.len() {
        if s.len() > 0 && is_wrapping_char(s[s.len() - 1]) {
            assert(false);
        }
        assert(s.take(b) =~= s);
    } else {
        assert(is_wrapping_char(s[s.len() - 1]));
        lemma_trim_back_take(s.drop_last(), b);
        assert(s.drop_last().take(b) =~= s.take(b));
    }
}

/// Removes the quote and backslash characters that wrap a remote value,
/// from both ends.
pub fn trim_wrapping_chars(s: &str) -> (r: String)
    ensures
        r@ == trim_wrapping(s@),
{
    let n = s.unicode_len();
    let mut a: usize = 0;
    loop
        invariant
            n == s@.len(),
            a <= n,
            forall|k: int| 0 <= k < a ==> is_wrapping_char(#[trigger] s@[k]),
        ensures
            a <= n,
            forall|k: int| 0 <= k < a ==> is_wrapping_char(#[trigger] s@[k]),
            a == n || !is_wrapping_char(s@[a as int]),
        decreases n - a,
    {
        if a >= n {
            break;
        }
        let c = s.get_char(a);
        if !(c == '"' || c == '\\') {
            break;
        }
        a = a + 1;
    }
    let mut b: usize = n;
    loop
        invariant
            n == s@.len(),
            a <= b <= n,
            forall|k: int| b <= k < n ==> is_wrapping_char(#[trigger] s@[k]),
        ensures
            a <= b <= n,
            forall|k: int| b <= k < n ==> is_wrapping_char(#[trigger] s@[k]),
            b == a || !is_wrapping_char(s@[b - 1]),
        decreases b,
    {
        if b <= a {
            break;
        }
        let c = s.get_char(b - 1);
        if !(c == '"' || c == '\\') {
            break;
        }
        b = b - 1;
    }
    proof {
        lemma_trim_front_skip(s@, a as int);
        let t = s@.skip(a as int);
        assert forall|k: int| b - a <= k < t.len() implies is_wrapping_char(#[trigger] t[k]) by {
            assert(t[k] == s@[a + k]);
        }
        if b > a {
            assert(!is_wrapping_char(t[b - a - 1]));
        }
        lemma_trim_back_take(t, b - a);
        assert(t.take(b - a) =~= s@.subrange(a as int, b as int));
    }
    String::from_str(s.substring_char(a, b))
}

/// Removes every leading "0x" from a string, as repeated prefix
/// trimming does.
pub fn strip_hex_prefixes(s: &str) -> (r: String)
    ensures
        r@ == strip_hex_prefix(s@),
{
    let n = s.unicode_len();
    let mut a: usize = 0;
    proof {
        assert(s@.skip(0) =~= s@);
    }
    loop
        invariant
            n == s@.len(),
            a <= n,
            strip_hex_prefix(s@) == strip_hex_prefix(s@.skip(a as int)),
        ensures
            a <= n,
            strip_hex_prefix(s@) == strip_hex_prefix(s@.skip(a as int)),
            !(n - a >= 2 && s@[a as int] == '0' && s@[a + 1] == 'x'),
        decreases n - a,
    {
        if n - a < 2 {
            break;
        }
        let c0 = s.get_char(a);
        let c1 = s.get_char(a + 1);
        if !(c0 == '0' && c1 == 'x') {
            break;
        }
        proof {
            let t = s@.skip(a as int);
            assert(t.len() >= 2 && t[0] == '0' && t[1] == 'x');
            assert(t.skip(2) =~= s@.skip(a + 2));
        }
        a = a + 2;
    }
    proof {
        let t = s@.skip(a as int);
        assert(!(t.len() >= 2 && t[0] == '0' && t[1] == 'x'));
        assert(strip_hex_prefix(t) == t);
        assert(t =~= s@.subrange(a as int, n as int));
    }
    String::from_str(s.substring_char(a, n))
}

/// Whether `needle` occurs as a contiguous substring of `hay`.
pub fn str_contains(hay: &str, needle: &str) -> (b: bool)
    ensures
        b == contains_seq(hay@, needle@),
{
    let h = hay.unicode_len();
    let m = needle.unicode_len();
    if m > h {
        proof {
            assert forall|i: int| !matches_at(hay@, needle@, i) by {}
        }
        return false;
    }
    let mut i: usize = 0;
    while i <= h - m
        invariant
            h == hay@.len(),
            m == needle@.len(),
            m <= h,
            i <= h - m + 1,
            forall|k: int| 0 <= k < i ==> !matches_at(hay@, needle@, k),
        decreases h - m + 1 - i,
    {
        let mut j: usize = 0;
        let mut mismatch = false;
        while j < m
            invariant_except_break
                h == hay@.len(),
                m == needle@.len(),
                i + m <= h,
                j <= m,
                !mismatch,
                forall|k: int| 0 <= k < j ==> hay@[i + k] == #[trigger] needle@[k],
            ensures
                !mismatch ==> forall|k: int| 0 <= k < m ==> hay@[i + k] == #[trigger] needle@[k],
                mismatch ==> !matches_at(hay@, needle@, i as int),
            decreases m - j,
        {
            if hay.get_char(i + j) != needle.get_char(j) {
                proof {
                    assert(hay@[i + j] != needle@[j as int]);
                }
                mismatch = true;
                break;
            }
            j = j + 1;
        }
        if !mismatch {
            proof {
                assert(matches_at(hay@, needle@, i as int));
            }
            return true;
        }
        i = i + 1;
    }
    proof {
        assert forall|k: int| !matches_at(hay@, needle@, k) by {
            if 0 <= k && k + needle@.len() <= hay@.len() {
                assert(k < i);
            }
        }
    }
    false
}

spec fn rev_digit_chars(d: Seq<u8>) -> Seq<char> {
    Seq::new(d.len(), |i: int| hex_char_of(d[d.len() - 1 - i]))
}

/// Renders a threshold as its decimal digits.
pub fn u32_to_dec(n: u32) -> (r: String)
    ensures
        r@ == dec_str_of(n as nat),
{
    let mut digits: Vec<u8> = Vec::new();
    let mut m: u32 = n;
    loop
        invariant_except_break
            digits@.len() > 0 ==> m > 0,
        invariant
            forall|k: int| 0 <= k < digits@.len() ==> #[trigger] digits@[k] < 10,
            digits@.len() == 0 ==> m == n,
            digits@.len() == 0 ==> dec_str_of(n as nat) == dec_str_of(m as nat),
            digits@.len() > 0 && m > 0 ==> dec_str_of(n as nat) =~= dec_str_of(m as nat)
                + rev_digit_chars(digits@),
            digits@.len() > 0 && m == 0 ==> dec_str_of(n as nat) =~= rev_digit_chars(digits@),
        ensures
            digits@.len() > 0,
            forall|k: int| 0 <= k < digits@.len() ==> #[trigger] digits@[k] < 10,
            dec_str_of(n as nat) =~= rev_digit_chars(digits@),
        decreases m,
    {
        let ghost ds_old = digits@;
        let ghost m_old = m as nat;
        let d = (m % 10) as u8;
        digits.push(d);
        m = m / 10;
        proof {
            let ds = digits@;
            assert(ds == ds_old.push(d));
            assert(rev_digit_chars(ds) =~= seq![hex_char_of(d)] + rev_digit_chars(ds_old));
            let prior = if ds_old.len() == 0 {
                dec_str_of(m_old)
            } else {
                dec_str_of(m_old) + rev_digit_chars(ds_old)
            };
            assert(dec_str_of(n as nat) =~= prior);
            if m_old >= 10 {
                assert(dec_str_of(m_old) == dec_str_of(m_old / 10).push(hex_char_of(d)));
                assert(dec_str_of(m_old) =~= dec_str_of(m as nat) + seq![hex_char_of(d)]);
                assert(prior =~= dec_str_of(m as nat) + rev_digit_chars(ds));
            } else {
                assert(m == 0);
                assert(dec_str_of(m_old) == seq![hex_char_of(d)]);
                assert(prior =~= rev_digit_chars(ds));
            }
        }
        if m == 0 {
            break;
        }
    }
    let mut r = String::new();
    let len = digits.len();
    let mut j: usize = 0;
    while j < len
        invariant
            len == digits@.len(),
            len > 0,
            j <= len,
            forall|k: int| 0 <= k < len ==> #[trigger] digits@[k] < 10,
            dec_str_of(n as nat) =~= rev_digit_chars(digits@),
            r@ =~= rev_digit_chars(digits@).take(j as int),
        decreases len - j,
    {
        r.append(nibble_digit_str(digits[len - 1 - j]));
        proof {
            assert(rev_digit_chars(digits@).take(j + 1) =~= rev_digit_chars(digits@).take(
                j as int,
            ).push(hex_char_of(digits@[len - 1 - j])));
        }
        j = j + 1;
    }
    proof {
        assert(rev_digit_chars(digits@).take(len as int) =~= rev_digit_chars(digits@));
    }
    r
}

fn nibble_digit_str(n: u8) -> (r: &'static str)
    requires
        n < 10,
    ensures
        r@.len() == 1,
        r@[0] == hex_char_of(n),
{
    proof {
        reveal_strlit("0");
        reveal_strlit("1");
        reveal_strlit("2");
        reveal_strlit("3");
        reveal_strlit("4");
        reveal_strlit("5");
        reveal_strlit("6");
        reveal_strlit("7");
        reveal_strlit("8");
        reveal_strlit("9");
    }
    if n == 0 {
        "0"
    } else if n == 1 {
        "1"
    } else if n == 2 {
        "2"
    } else if n == 3 {
        "3"
    } else if n == 4 {
        "4"
    } else if n == 5 {
        "5"
    } else if n == 6 {
        "6"
    } else if n == 7 {
        "7"
    } else if n == 8 {
        "8"
    } else {
        "9"
    }
}

/// Joins two path segments with '/'.
pub fn join_path_2(a: &str, b: &str) -> (r: String)
    ensures
        r@ == a@ + seq!['/'] + b@,
{
    proof {
        reveal_strlit("/");
    }
    let mut r = String::from_str(a);
    r.append("/");
    r.append(b);
    proof {
        assert(r@ =~= a@ + seq!['/'] + b@);
    }
    r
}

/// Joins three path segments with '/'.
pub fn join_path_3(a: &str, b: &str, c: &str) -> (r: String)
    ensures
        r@ == a@ + seq!['/'] + b@ + seq!['/'] + c@,
{
    proof {
        reveal_strlit("/");
    }
    let mut r = String::from_str(a);
    r.append("/");
    r.append(b);
    r.append("/");
    r.append(c);
    proof {
        assert(r@ =~= a@ + seq!['/'] + b@ + seq!['/'] + c@);
    }
    r
}

/// Joins four path segments with '/'.
pub fn join_path_4(a: &str, b: &str, c: &str, d: &str) -> (r: String)
    ensures
        r@ == a@ + seq!['/'] + b@ + seq!['/'] + c@ + seq!['/'] + d@,
{
    proof {
        reveal_strlit("/");
    }
    let mut r = String::from_str(a);
    r.append("/");
    r.append(b);
    r.append("/");
    r.append(c);
    r.append("/");
    r.append(d);
    proof {
        assert(r@ =~= a@ + seq!['/'] + b@ + seq!['/'] + c@ + seq!['/'] + d@);
    }
    r
}

/// Relies on `String::from_utf8`: it succeeds exactly on valid UTF-8
/// input and yields the string whose encoding the input is.
#[verifier::external_body]
pub(crate) fn bytes_to_utf8_string(v: Vec<u8>) -> (r: Option<String>)
    ensures
        r is Some <==> vstd::utf8::valid_utf8(v@),
        r is Some ==> r->Some_0@ == vstd::utf8::decode_utf8(v@),
{
    match String::from_utf8(v) {
        Ok(s) => Some(s),
        Err(_) => None,
    }
}

/// Prepends the "0x" marker to a bare hex string.
pub fn with_hex_marker(s: &str) -> (r: String)
    ensures
        r@ == seq!['0', 'x'] + s@,
{
    proof {
        reveal_strlit("0x");
    }
    let mut r = String::from_str("0x");
    r.append(s);
    proof {
        assert(r@ =~= seq!['0', 'x'] + s@);
    }
    r
}

} // verus!
