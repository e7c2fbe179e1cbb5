//! Base64 text of an image file, for inline transport to the display layer.
//!
//! The encoding itself is done by the `base64` crate. This module states what
//! that text is, character by character, and proves what the display layer
//! relies on: the text is well formed, and no two files share a text.

use vstd::prelude::*;

verus! {

/// The character that stands for the six-bit value `v` in the standard
/// alphabet: `A`-`Z`, `a`-`z`, `0`-`9`, `+`, `/`.
pub open spec fn alphabet_char(v: int) -> char {
    if v < 26 {
        ((65 + v) as u8) as char
    } else if v < 52 {
        ((97 + (v - 26)) as u8) as char
    } else if v < 62 {
        ((48 + (v - 52)) as u8) as char
    } else if v == 62 {
        '+'
    } else {
        '/'
    }
}

/// Whether `c` is one of the 64 characters of the standard alphabet.
pub open spec fn is_alphabet_char(c: char) -> bool {
    exists|v: int| 0 <= v < 64 && c == #[trigger] alphabet_char(v)
}

/// The byte at index `i`, or zero past the end of the input.
pub open spec fn byte_or_zero(bytes: Seq<u8>, i: int) -> int {
    if 0 <= i < bytes.len() {
        bytes[i] as int
    } else {
        0
    }
}

/// The 24-bit value of the `g`-th group of three bytes, first byte highest.
/// Bytes that the input lacks count as zero.
pub open spec fn group_value(bytes: Seq<u8>, g: int) -> int {
    byte_or_zero(bytes, 3 * g) * 65536 + byte_or_zero(bytes, 3 * g + 1) * 256 + byte_or_zero(
        bytes,
        3 * g + 2,
    )
}

/// The six-bit value at position `p` (0 to 3, highest first) of the 24-bit
/// value `w`.
pub open spec fn sextet(w: int, p: int) -> int {
    if p == 0 {
        w / 262144
    } else if p == 1 {
        w / 4096 % 64
    } else if p == 2 {
        w / 64 % 64
    } else {
        w % 64
    }
}

/// Whether position `k` of the text holds padding: its six bits start past
/// the end of the input.
pub open spec fn is_padding_position(bytes: Seq<u8>, k: int) -> bool {
    3 * (k / 4) + k % 4 > bytes.len()
}

/// The character at position `k` of the text.
pub open spec fn base64_char(bytes: Seq<u8>, k: int) -> char {
    if is_padding_position(bytes, k) {
        '='
    } else {
        alphabet_char(sextet(group_value(bytes, k / 4), k % 4))
    }
}

/// The number of characters in the text: four for every group of three
/// bytes, the last group counted in full.
pub open spec fn base64_len(n: nat) -> nat {
    (4 * ((n + 2) / 3)) as nat
}

/// The padded base64 text of `bytes` in the standard alphabet.
pub open spec fn standard_base64(bytes: Seq<u8>) -> Seq<char> {
    Seq::new(base64_len(bytes.len()), |k: int| base64_char(bytes, k))
}

/// The bytes that `text` is the base64 text of, where there are such bytes.
pub open spec fn base64_decoding(text: Seq<char>) -> Option<Seq<u8>> {
    if exists|bytes: Seq<u8>| standard_base64(bytes) == text {
        Some(choose|bytes: Seq<u8>| standard_base64(bytes) == text)
    } else {
        None
    }
}

/// Whether the text of an input of `n` bytes can be held in memory: its
/// length is at most `isize::MAX`.
pub open spec fn encodable_len(n: nat) -> bool {
    base64_len(n) <= isize::MAX
}

/// Whether the text of an input of `len` bytes can be held in memory.
pub fn can_encode(len: usize) -> (fits: bool)
    ensures
        fits == encodable_len(len as nat),
{
    let groups: usize = len / 3 + if len % 3 == 0 {
        0
    } else {
        1
    };
    groups <= (isize::MAX as usize) / 4
}

/// Encodes `bytes` with `base64::encode`, which uses the crate's `STANDARD`
/// engine.
///
/// The contract is not proved; it restates what the crate documents. That
/// engine writes the alphabet `A`-`Z`, `a`-`z`, `0`-`9`, `+`, `/` and fills
/// the last group of four characters with `=`. The crate panics where the
/// length of the text overflows, and the buffer for the text cannot be
/// allocated beyond `isize::MAX`, so such inputs are left out.
#[verifier::external_body]
#[allow(deprecated)]
pub(crate) fn encode_standard(bytes: &Vec<u8>) -> (text: String)
    requires
        encodable_len(bytes@.len()),
    ensures
        text@ == standard_base64(bytes@),
{
    base64::encode(bytes)
}

/// Distinct six-bit values have distinct characters.
pub proof fn lemma_alphabet_injective(u: int, v: int)
    requires
        0 <= u < 64,
        0 <= v < 64,
        alphabet_char(u) == alphabet_char(v),
    ensures
        u == v,
{
    assert(alphabet_char(u) as int == alphabet_char(v) as int);
}

/// The padding character is not in the alphabet.
pub proof fn lemma_padding_not_in_alphabet(v: int)
    requires
        0 <= v < 64,
    ensures
        alphabet_char(v) != '=',
{
    assert(alphabet_char(v) as int != '=' as int);
}

/// Every six-bit value of a group is below 64, and the three bytes of the
/// group can be read back from its four six-bit values.
proof fn lemma_group_bytes(b0: int, b1: int, b2: int)
    requires
        0 <= b0 < 256,
        0 <= b1 < 256,
        0 <= b2 < 256,
    ensures
        ({
            let w = b0 * 65536 + b1 * 256 + b2;
            &&& 0 <= sextet(w, 0) < 64
            &&& 0 <= sextet(w, 1) < 64
            &&& 0 <= sextet(w, 2) < 64
            &&& 0 <= sextet(w, 3) < 64
            &&& b0 == sextet(w, 0) * 4 + sextet(w, 1) / 16
            &&& b1 == sextet(w, 1) % 16 * 16 + sextet(w, 2) / 4
            &&& b2 == sextet(w, 2) % 4 * 64 + sextet(w, 3)
        }),
{
    let x0: u32 = b0 as u32;
    let x1: u32 = b1 as u32;
    let x2: u32 = b2 as u32;
    let xw: u32 = (b0 * 65536 + b1 * 256 + b2) as u32;
    assert(x0 < 256 && x1 < 256 && x2 < 256 && xw == x0 * 65536 + x1 * 256 + x2 ==> {
        &&& xw / 262144 < 64
        &&& x0 == (xw / 262144) * 4 + (xw / 4096 % 64) / 16
        &&& x1 == (xw / 4096 % 64) % 16 * 16 + (xw / 64 % 64) / 4
        &&& x2 == (xw / 64 % 64) % 4 * 64 + xw % 64
    }) by (bit_vector);
}

/// The text has four characters for every started group of three bytes. Each
/// is a character of the alphabet, but for the one or two `=` that fill up
/// the last group where the input ends inside it.
pub proof fn lemma_base64_well_formed(bytes: Seq<u8>)
    ensures
        standard_base64(bytes).len() == 4 * ((bytes.len() + 2) / 3),
        forall|k: int|
            0 <= k < standard_base64(bytes).len() ==> (#[trigger] standard_base64(bytes)[k] == '='
                <==> is_padding_position(bytes, k)),
        forall|k: int|
            0 <= k < standard_base64(bytes).len() && !is_padding_position(bytes, k)
                ==> is_alphabet_char(#[trigger] standard_base64(bytes)[k]),
        forall|k: int|
            0 <= k < standard_base64(bytes).len() && is_padding_position(bytes, k)
                ==> k + 2 >= standard_base64(bytes).len() && bytes.len() % 3 != 0,
{
    let text = standard_base64(bytes);
    assert forall|k: int| 0 <= k < text.len() && !is_padding_position(bytes, k) implies ({
        &&& is_alphabet_char(#[trigger] text[k])
        &&& text[k] != '='
    }) by {
        let g = k / 4;
        lemma_group_bytes(
            byte_or_zero(bytes, 3 * g),
            byte_or_zero(bytes, 3 * g + 1),
            byte_or_zero(bytes, 3 * g + 2),
        );
        let v = sextet(group_value(bytes, g), k % 4);
        assert(0 <= v < 64);
        assert(text[k] == alphabet_char(v));
        lemma_padding_not_in_alphabet(v);
    }
}

/// Where two inputs of one length have the same character at a position that
/// holds no padding, they have the same six bits there.
proof fn lemma_same_sextet(a: Seq<u8>, b: Seq<u8>, k: int)
    requires
        a.len() == b.len(),
        0 <= k < base64_len(a.len()),
        !is_padding_position(a, k),
        standard_base64(a)[k] == standard_base64(b)[k],
    ensures
        sextet(group_value(a, k / 4), k % 4) == sextet(group_value(b, k / 4), k % 4),
{
    let g = k / 4;
    lemma_group_bytes(byte_or_zero(a, 3 * g), byte_or_zero(a, 3 * g + 1), byte_or_zero(a, 3 * g + 2));
    lemma_group_bytes(byte_or_zero(b, 3 * g), byte_or_zero(b, 3 * g + 1), byte_or_zero(b, 3 * g + 2));
    lemma_alphabet_injective(
        sextet(group_value(a, g), k % 4),
        sextet(group_value(b, g), k % 4),
    );
}

/// No two inputs have the same text: the text determines the bytes.
pub proof fn lemma_base64_injective(a: Seq<u8>, b: Seq<u8>)
    requires
        standard_base64(a) == standard_base64(b),
    ensures
        a == b,
{
    let text = standard_base64(a);
    lemma_base64_well_formed(a);
    lemma_base64_well_formed(b);
    let groups = (a.len() + 2) / 3;
    assert(groups == (b.len() + 2) / 3);
    if groups > 0 {
        // The padding of the last group tells how many bytes it holds.
        let k2 = 4 * (groups - 1) + 2;
        let k3 = 4 * (groups - 1) + 3;
        assert(text[k2] == '=' <==> is_padding_position(a, k2));
        assert(text[k2] == '=' <==> is_padding_position(b, k2));
        assert(text[k3] == '=' <==> is_padding_position(a, k3));
        assert(text[k3] == '=' <==> is_padding_position(b, k3));
    }
    assert(a.len() == b.len());
    assert forall|i: int| 0 <= i < a.len() implies a[i] == b[i] by {
        let g = i / 3;
        lemma_group_bytes(byte_or_zero(a, 3 * g), byte_or_zero(a, 3 * g + 1), byte_or_zero(a, 3 * g + 2));
        lemma_group_bytes(byte_or_zero(b, 3 * g), byte_or_zero(b, 3 * g + 1), byte_or_zero(b, 3 * g + 2));
        lemma_same_sextet(a, b, 4 * g);
        lemma_same_sextet(a, b, 4 * g + 1);
        if 3 * g + 1 < a.len() {
            lemma_same_sextet(a, b, 4 * g + 2);
        }
        if 3 * g + 2 < a.len() {
            lemma_same_sextet(a, b, 4 * g + 3);
        }
    }
    assert(a =~= b);
}

/// Decoding the text of an input gives that input back.
pub proof fn lemma_base64_round_trip(bytes: Seq<u8>)
    ensures
        base64_decoding(standard_base64(bytes)) == Some(bytes),
{
    let text = standard_base64(bytes);
    let decoded = choose|other: Seq<u8>| standard_base64(other) == text;
    lemma_base64_injective(decoded, bytes);
}

} // verus!
