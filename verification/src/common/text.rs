use vstd::prelude::*;
use vstd::string::*;

verus! {

/// The characters of `s`, in order.
pub fn str_chars(s: &str) -> (res: Vec<char>)
    ensures
        res@ == s@,
{
    let n = s.unicode_len();
    let mut out: Vec<char> = Vec::new();
    let mut i: usize = 0;
    while i < n
        invariant
            n == s@.len(),
            i <= n,
            out@ == s@.take(i as int),
        decreases n - i,
    {
        out.push(s.get_char(i));
        assert(s@.take(i + 1) =~= s@.take(i as int).push(s@[i as int]));
        i = i + 1;
    }
    assert(s@.take(n as int) =~= s@);
    out
}

/// The string made of `chars`, in order.
///
/// Trusted: wraps `String::from_iter` over the characters; the contract says
/// the string holds exactly the given characters.
#[verifier::external_body]
pub(crate) fn chars_to_string(chars: &Vec<char>) -> (res: String)
    ensures
        res@ == chars@,
{
    String::from_iter(chars)
}

/// The sixteen lowercase hexadecimal digits.
pub open spec fn hex_alphabet() -> Seq<char> {
    seq!['0', '1', '2', '3', '4', '5', '6', '7', '8', '9', 'a', 'b', 'c', 'd', 'e', 'f']
}

/// The two lowercase hexadecimal digits of a byte, high nibble first
/// (what `format!("{:02x}", byte)` writes).
pub open spec fn hex_byte(b: u8) -> Seq<char> {
    seq![hex_alphabet()[(b / 16) as int], hex_alphabet()[(b % 16) as int]]
}

/// Lowercase hexadecimal text of a byte string, two digits per byte.
pub open spec fn hex_lower(bytes: Seq<u8>) -> Seq<char>
    decreases bytes.len(),
{
    if bytes.len() == 0 {
        seq![]
    } else {
        hex_lower(bytes.drop_last()) + hex_byte(bytes.last())
    }
}

/// A character is a lowercase hexadecimal digit.
pub open spec fn is_hex_lower_char(c: char) -> bool {
    ('0' <= c && c <= '9') || ('a' <= c && c <= 'f')
}

/// The hexadecimal text of `bytes` has two characters per byte, each a
/// lowercase hexadecimal digit.
pub proof fn lemma_hex_lower_shape(bytes: Seq<u8>)
    ensures
        hex_lower(bytes).len() == 2 * bytes.len(),
        forall|i: int| 0 <= i < hex_lower(bytes).len() ==> is_hex_lower_char(#[trigger] hex_lower(bytes)[i]),
    decreases bytes.len(),
{
    if bytes.len() > 0 {
        lemma_hex_lower_shape(bytes.drop_last());
        let b = bytes.last();
        assert(b / 16 < 16 && b % 16 < 16);
        let prev = hex_lower(bytes.drop_last());
        assert forall|i: int| 0 <= i < hex_lower(bytes).len() implies is_hex_lower_char(#[trigger] hex_lower(bytes)[i]) by {
            if i >= prev.len() {
                let d: int = if i == prev.len() { (b / 16) as int } else { (b % 16) as int };
                assert(hex_lower(bytes)[i] == hex_alphabet()[d]);
            }
        }
    }
}

/// Character `2k` of the hexadecimal text is the high digit of byte `k`,
/// character `2k + 1` its low digit.
pub proof fn lemma_hex_lower_index(bytes: Seq<u8>, k: int)
    requires
        0 <= k < bytes.len(),
    ensures
        hex_lower(bytes).len() == 2 * bytes.len(),
        hex_lower(bytes)[2 * k] == hex_alphabet()[(bytes[k] / 16) as int],
        hex_lower(bytes)[2 * k + 1] == hex_alphabet()[(bytes[k] % 16) as int],
    decreases bytes.len(),
{
    lemma_hex_lower_shape(bytes);
    lemma_hex_lower_shape(bytes.drop_last());
    if k < bytes.len() - 1 {
        lemma_hex_lower_index(bytes.drop_last(), k);
    }
}

/// The lowercase hexadecimal digit of a value below sixteen.
fn hex_digit(n: u8) -> (c: char)
    requires
        n < 16,
    ensures
        c == hex_alphabet()[n as int],
{
    if n < 10 {
        let digits = ['0', '1', '2', '3', '4', '5', '6', '7', '8', '9'];
        digits[n as usize]
    } else {
        let letters = ['a', 'b', 'c', 'd', 'e', 'f'];
        letters[(n - 10) as usize]
    }
}

/// Lowercase hexadecimal text of `bytes`, two digits per byte.
pub fn hex_encode(bytes: &[u8]) -> (res: String)
    ensures
        res@ == hex_lower(bytes@),
{
    let mut out: Vec<char> = Vec::new();
    let mut i: usize = 0;
    while i < bytes.len()
        invariant
            i <= bytes@.len(),
            out@ == hex_lower(bytes@.take(i as int)),
        decreases bytes@.len() - i,
    {
        let b = bytes[i];
        out.push(hex_digit(b / 16));
        out.push(hex_digit(b % 16));
        assert(bytes@.take(i + 1).drop_last() =~= bytes@.take(i as int));
        i = i + 1;
    }
    assert(bytes@.take(bytes@.len() as int) =~= bytes@);
    chars_to_string(&out)
}

} // verus!
