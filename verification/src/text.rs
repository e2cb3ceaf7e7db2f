//! Small operations on texts, and the decimal numerals of natural numbers.

use vstd::prelude::*;
use vstd::string::StringExecFns;
use vstd::string::StrSliceExecFns;

verus! {

/// Whether two texts hold the same characters.
pub fn same_text(a: &str, b: &str) -> (same: bool)
    ensures
        same == (a@ == b@),
{
    let x = a.as_bytes();
    let y = b.as_bytes();
    proof {
        vstd::utf8::encode_utf8_decode_utf8(a@);
        vstd::utf8::encode_utf8_decode_utf8(b@);
    }
    if x.len() != y.len() {
        return false;
    }
    let mut i: usize = 0;
    while i < x.len()
        invariant
            i <= x.len(),
            x.len() == y.len(),
            x@ == vstd::utf8::encode_utf8(a@),
            y@ == vstd::utf8::encode_utf8(b@),
            forall|k: int| 0 <= k < i ==> x@[k] == y@[k],
        decreases x.len() - i,
    {
        if x[i] != y[i] {
            return false;
        }
        i = i + 1;
    }
    assert(x@ =~= y@);
    true
}

/// The text `a` followed by `b`.
pub fn join2(a: &str, b: &str) -> (r: String)
    ensures
        r@ == a@ + b@,
{
    let mut r = String::from_str(a);
    r.append(b);
    r
}

/// The text `a` followed by `b` and `c`.
pub fn join3(a: &str, b: &str, c: &str) -> (r: String)
    ensures
        r@ == a@ + b@ + c@,
{
    let mut r = String::from_str(a);
    r.append(b);
    r.append(c);
    r
}

/// The ten decimal digits, in order.
pub open spec fn digits() -> Seq<char> {
    "0123456789"@
}

/// The decimal numeral of `n`, without leading zeros.
pub open spec fn decimal(n: nat) -> Seq<char>
    decreases n,
{
    if n < 10 {
        seq![digits()[n as int]]
    } else {
        decimal(n / 10).push(digits()[(n % 10) as int])
    }
}

/// Writes `n` as a decimal numeral.
pub fn decimal_text(n: u64) -> (r: String)
    ensures
        r@ == decimal(n as nat),
    decreases n,
{
    proof {
        reveal_strlit("0123456789");
    }
    if n < 10 {
        let d: usize = n as usize;
        String::from_str("0123456789".substring_ascii(d, d + 1))
    } else {
        let d: usize = (n % 10) as usize;
        let mut r = decimal_text(n / 10);
        r.append("0123456789".substring_ascii(d, d + 1));
        r
    }
}

/// Whether a character is a decimal digit.
pub open spec fn is_digit(c: char) -> bool {
    '0' <= c <= '9'
}

/// The number that a text of digits writes in base ten.
pub open spec fn digits_value(s: Seq<char>) -> nat
    decreases s.len(),
{
    if s.len() == 0 {
        0
    } else {
        (digits_value(s.drop_last()) * 10 + (s.last() as nat - '0' as nat)) as nat
    }
}

/// Whether a text is the decimal numeral of a natural number: digits only, at
/// least one, and no zero in front of another digit.
pub open spec fn is_numeral(s: Seq<char>) -> bool {
    &&& s.len() >= 1
    &&& forall|i: int| 0 <= i < s.len() ==> is_digit(#[trigger] s[i])
    &&& (s.len() == 1 || s[0] != '0')
}

/// The natural number that a text writes, where the text is its numeral.
pub open spec fn numeral_value(s: Seq<char>) -> Option<nat> {
    if is_numeral(s) {
        Some(digits_value(s))
    } else {
        None
    }
}

/// The number that a text writes, where the text is the numeral of a number
/// that a `u64` holds.
pub open spec fn numeral_u64(s: Seq<char>) -> Option<u64> {
    match numeral_value(s) {
        Some(v) => if v <= u64::MAX {
            Some(v as u64)
        } else {
            None
        },
        None => None,
    }
}

/// A longer text of digits writes no smaller number than its beginning.
pub proof fn lemma_digits_value_grows(s: Seq<char>, k: int)
    requires
        0 <= k <= s.len(),
        forall|i: int| 0 <= i < s.len() ==> is_digit(#[trigger] s[i]),
    ensures
        digits_value(s.take(k)) <= digits_value(s),
    decreases s.len(),
{
    if k == s.len() {
        assert(s.take(k) =~= s);
    } else {
        lemma_digits_value_grows(s.drop_last(), k);
        assert(s.drop_last().take(k) =~= s.take(k));
    }
}

/// The decimal numeral of a number is a numeral, and it writes that number:
/// what is written of a number is read back as the same number.
pub proof fn lemma_decimal_reads_back(n: nat)
    ensures
        numeral_value(decimal(n)) == Some(n),
    decreases n,
{
    reveal_strlit("0123456789");
    if n < 10 {
        assert(digits_value(decimal(n).drop_last()) == 0);
    } else {
        lemma_decimal_reads_back(n / 10);
        let before = decimal(n / 10);
        let all = decimal(n);
        assert(all.drop_last() =~= before);
        assert(forall|i: int| 0 <= i < before.len() ==> all[i] == before[i]);
        assert(before.len() == 1 ==> digits_value(before.drop_last()) == 0);
    }
}

/// Reads the decimal numeral of a natural number that a `u64` holds.
pub fn parse_u64(text: &str) -> (value: Option<u64>)
    ensures
        value == numeral_u64(text@),
{
    if !text.is_ascii() {
        assert(is_numeral(text@) ==> vstd::utf8::is_ascii_chars(text@));
        return None;
    }
    let bytes = text.as_bytes();
    proof {
        vstd::utf8::is_ascii_chars_encode_utf8(text@);
    }
    let n = bytes.len();
    if n == 0 {
        return None;
    }
    if n > 1 && bytes[0] == 48 {
        return None;
    }
    let mut acc: u64 = 0;
    let mut i: usize = 0;
    while i < n
        invariant
            i <= n,
            n == text@.len(),
            n == bytes@.len(),
            forall|k: int| 0 <= k < n ==> text@[k] as u8 == #[trigger] bytes@[k],
            forall|k: int| 0 <= k < n ==> '\0' <= #[trigger] text@[k] <= '\u{7f}',
            forall|k: int| 0 <= k < i ==> is_digit(#[trigger] text@[k]),
            acc == digits_value(text@.take(i as int)),
            n == 1 || text@[0] != '0',
        decreases n - i,
    {
        let b = bytes[i];
        if b < 48 || b > 57 {
            return None;
        }
        let d: u64 = (b - 48) as u64;
        proof {
            assert(text@.take(i + 1).drop_last() =~= text@.take(i as int));
        }
        if acc > (u64::MAX - d) / 10 {
            proof {
                if is_numeral(text@) {
                    lemma_digits_value_grows(text@, i + 1);
                }
            }
            return None;
        }
        acc = acc * 10 + d;
        i = i + 1;
    }
    assert(text@.take(n as int) =~= text@);
    Some(acc)
}

} // verus!
