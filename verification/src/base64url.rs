//! The URL-safe base64 encoding without padding.

use vstd::prelude::*;
use vstd::string::StringExecFns;
use vstd::string::StrSliceExecFns;

verus! {

/// The sixty-four symbols of the URL-safe alphabet, by value.
pub open spec fn alphabet() -> Seq<char> {
    "ABCDEFGHIJKLMNOPQRSTUVWXYZabcdefghijklmnopqrstuvwxyz0123456789-_"@
}

/// The byte at position `i`, and zero past the end of the bytes.
pub open spec fn byte_at(bytes: Seq<u8>, i: int) -> int {
    if 0 <= i < bytes.len() {
        bytes[i] as int
    } else {
        0
    }
}

/// The `k`-th group of six bits of the bytes read as one string of bits, most
/// significant bit first, filled up with zero bits at the end.
pub open spec fn sextet(bytes: Seq<u8>, k: int) -> int {
    let first = 3 * (k / 4);
    let b0 = byte_at(bytes, first);
    let b1 = byte_at(bytes, first + 1);
    let b2 = byte_at(bytes, first + 2);
    if k % 4 == 0 {
        b0 / 4
    } else if k % 4 == 1 {
        (b0 % 4) * 16 + b1 / 16
    } else if k % 4 == 2 {
        (b1 % 16) * 4 + b2 / 64
    } else {
        b2 % 64
    }
}

/// How many symbols encode `n` bytes: a symbol for every six bits begun.
pub open spec fn encoded_len(n: nat) -> nat {
    (4 * n + 2) / 3
}

/// The encoding of the bytes: one symbol of the alphabet for each group of six
/// bits, and no padding.
pub open spec fn base64url(bytes: Seq<u8>) -> Seq<char> {
    Seq::new(encoded_len(bytes.len()), |k: int| alphabet()[sextet(bytes, k)])
}

/// Whether a character is a letter, a digit, `-` or `_`.
pub open spec fn is_symbol(c: char) -> bool {
    ||| 'A' <= c <= 'Z'
    ||| 'a' <= c <= 'z'
    ||| '0' <= c <= '9'
    ||| c == '-'
    ||| c == '_'
}

/// Every group of six bits is a value of the alphabet.
pub proof fn lemma_sextet_range(bytes: Seq<u8>, k: int)
    requires
        0 <= k,
    ensures
        0 <= sextet(bytes, k) < 64,
{
}

/// The alphabet holds letters, digits, `-` and `_` only.
pub proof fn lemma_alphabet_symbols()
    ensures
        alphabet().len() == 64,
        forall|v: int| 0 <= v < 64 ==> is_symbol(#[trigger] alphabet()[v]),
{
    reveal_strlit("ABCDEFGHIJKLMNOPQRSTUVWXYZabcdefghijklmnopqrstuvwxyz0123456789-_");
}

/// An encoding has a symbol for every six bits begun and holds letters,
/// digits, `-` and `_` only: in particular no padding character.
pub proof fn lemma_base64url_shape(bytes: Seq<u8>)
    ensures
        base64url(bytes).len() == encoded_len(bytes.len()),
        forall|k: int|
            0 <= k < base64url(bytes).len() ==> is_symbol(#[trigger] base64url(bytes)[k]),
        !base64url(bytes).contains('='),
{
    lemma_alphabet_symbols();
    assert forall|k: int| 0 <= k < base64url(bytes).len() implies is_symbol(
        #[trigger] base64url(bytes)[k],
    ) by {
        lemma_sextet_range(bytes, k);
    }
}

/// The symbol of value `v`, as a text of one character.
fn symbol(v: usize) -> (s: &'static str)
    requires
        v < 64,
    ensures
        s@ == seq![alphabet()[v as int]],
{
    proof {
        reveal_strlit("ABCDEFGHIJKLMNOPQRSTUVWXYZabcdefghijklmnopqrstuvwxyz0123456789-_");
    }
    "ABCDEFGHIJKLMNOPQRSTUVWXYZabcdefghijklmnopqrstuvwxyz0123456789-_".substring_ascii(v, v + 1)
}

/// Encodes bytes in the URL-safe alphabet, without padding.
pub fn encode(bytes: &[u8]) -> (text: String)
    ensures
        text@ == base64url(bytes@),
{
    let n = bytes.len();
    let mut text = String::new();
    let mut i: usize = 0;
    while n - i >= 3
        invariant
            n == bytes@.len(),
            i <= n,
            i % 3 == 0,
            text@.len() == 4 * (i / 3),
            forall|k: int| 0 <= k < text@.len() ==> text@[k] == alphabet()[sextet(bytes@, k)],
        decreases n - i,
    {
        let b0: usize = bytes[i] as usize;
        let b1: usize = bytes[i + 1] as usize;
        let b2: usize = bytes[i + 2] as usize;
        text.append(symbol(b0 / 4));
        text.append(symbol((b0 % 4) * 16 + b1 / 16));
        text.append(symbol((b1 % 16) * 4 + b2 / 64));
        text.append(symbol(b2 % 64));
        i = i + 3;
    }
    if n - i == 1 {
        let b0: usize = bytes[i] as usize;
        text.append(symbol(b0 / 4));
        text.append(symbol((b0 % 4) * 16));
    } else if n - i == 2 {
        let b0: usize = bytes[i] as usize;
        let b1: usize = bytes[i + 1] as usize;
        text.append(symbol(b0 / 4));
        text.append(symbol((b0 % 4) * 16 + b1 / 16));
        text.append(symbol((b1 % 16) * 4));
    }
    text
}

} // verus!
