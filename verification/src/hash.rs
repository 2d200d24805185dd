//! Content checksums (SHA-1) and their lowercase hexadecimal rendering.

use sha1::{Digest, Sha1};
use vstd::prelude::*;

verus! {

/// The SHA-1 digest of a byte sequence, as the `sha1` crate computes it.
pub uninterp spec fn sha1_of(data: Seq<u8>) -> Seq<u8>;

/// Calls `<sha1::Sha1 as digest::Digest>::digest`. Trusted to return the
/// digest of exactly the bytes handed to it, which is 20 bytes long
/// (`Sha1Core`'s `OutputSize` is `U20`).
#[verifier::external_body]
fn sha1_digest(data: &[u8]) -> (d: Vec<u8>)
    ensures
        d@ == sha1_of(data@),
        d@.len() == 20,
{
    Sha1::digest(data).to_vec()
}

/// The checksum that identifies a file's content: the SHA-1 digest of its bytes.
pub fn content_checksum(contents: &[u8]) -> (c: Vec<u8>)
    ensures
        c@ == sha1_of(contents@),
        c@.len() == 20,
{
    sha1_digest(contents)
}

/// The lowercase hexadecimal digit for a value `0..=15`.
pub open spec fn hex_digit(v: int) -> char
    recommends
        0 <= v < 16,
{
    if v < 10 {
        (v + 48) as char
    } else {
        (v - 10 + 97) as char
    }
}

/// The two lowercase hexadecimal digits of a byte, high nibble first.
pub open spec fn hex_byte(b: u8) -> Seq<char> {
    seq![hex_digit(b as int / 16), hex_digit(b as int % 16)]
}

/// The lowercase hexadecimal rendering of a byte sequence, two digits per byte.
pub open spec fn hex_of(bytes: Seq<u8>) -> Seq<char>
    decreases bytes.len(),
{
    if bytes.len() == 0 {
        Seq::empty()
    } else {
        hex_of(bytes.drop_last()) + hex_byte(bytes.last())
    }
}

/// The hexadecimal rendering has two digits per byte; a SHA-1 checksum
/// renders as 40 digits.
pub proof fn lemma_hex_length(bytes: Seq<u8>)
    ensures
        hex_of(bytes).len() == 2 * bytes.len(),
    decreases bytes.len(),
{
    if bytes.len() > 0 {
        lemma_hex_length(bytes.drop_last());
    }
}

/// Whether a character is a lowercase hexadecimal digit: `0`-`9` or `a`-`f`.
pub open spec fn is_lower_hex_digit(c: char) -> bool {
    (48 <= c as int <= 57) || (97 <= c as int <= 102)
}

/// The value of a lowercase hexadecimal digit.
pub open spec fn nibble_value(c: char) -> int {
    if c as int <= 57 {
        c as int - 48
    } else {
        c as int - 87
    }
}

proof fn lemma_hex_digit_decodes(v: int)
    requires
        0 <= v < 16,
    ensures
        is_lower_hex_digit(hex_digit(v)),
        nibble_value(hex_digit(v)) == v,
{
    let c = hex_digit(v);
    assert(c as int == (if v < 10 { v + 48 } else { v + 87 }));
}

/// The rendering of a byte sequence holds two lowercase hexadecimal digits
/// per byte, and they decode back to that byte: the `i`-th byte is sixteen
/// times the value of digit `2 i` plus the value of digit `2 i + 1`.
pub proof fn lemma_hex_decodes(bytes: Seq<u8>)
    ensures
        hex_of(bytes).len() == 2 * bytes.len(),
        forall|i: int|
            0 <= i < bytes.len() ==> {
                &&& is_lower_hex_digit(#[trigger] hex_of(bytes)[2 * i])
                &&& is_lower_hex_digit(hex_of(bytes)[2 * i + 1])
                &&& nibble_value(hex_of(bytes)[2 * i]) * 16 + nibble_value(hex_of(bytes)[2 * i + 1]) == bytes[i]
            },
    decreases bytes.len(),
{
    lemma_hex_length(bytes);
    if bytes.len() > 0 {
        let init = bytes.drop_last();
        let last = bytes.last();
        lemma_hex_decodes(init);
        let h = hex_of(bytes);
        assert(h == hex_of(init) + hex_byte(last));
        lemma_hex_digit_decodes(last as int / 16);
        lemma_hex_digit_decodes(last as int % 16);
        assert forall|i: int| 0 <= i < bytes.len() implies {
            &&& is_lower_hex_digit(#[trigger] h[2 * i])
            &&& is_lower_hex_digit(h[2 * i + 1])
            &&& nibble_value(h[2 * i]) * 16 + nibble_value(h[2 * i + 1]) == bytes[i]
        } by {
            if i < init.len() {
                assert(h[2 * i] == hex_of(init)[2 * i]);
                assert(h[2 * i + 1] == hex_of(init)[2 * i + 1]);
                assert(bytes[i] == init[i]);
            } else {
                assert(i == init.len());
                assert(h[2 * i] == hex_byte(last)[0]);
                assert(h[2 * i + 1] == hex_byte(last)[1]);
                assert(bytes[i] == last);
            }
        }
    }
}

/// Rendering a concatenation renders each part in turn.
pub proof fn lemma_hex_concat(a: Seq<u8>, b: Seq<u8>)
    ensures
        hex_of(a + b) == hex_of(a) + hex_of(b),
    decreases b.len(),
{
    if b.len() == 0 {
        assert(a + b =~= a);
        assert(hex_of(a) + hex_of(b) =~= hex_of(a));
    } else {
        lemma_hex_concat(a, b.drop_last());
        assert((a + b).drop_last() =~= a + b.drop_last());
        assert((a + b).last() == b.last());
        assert(hex_of(a + b) =~= hex_of(a) + hex_of(b));
    }
}

proof fn lemma_hex_digit_injective(v: int, w: int)
    requires
        0 <= v < 16,
        0 <= w < 16,
        hex_digit(v) == hex_digit(w),
    ensures
        v == w,
{
    let cv = hex_digit(v);
    let cw = hex_digit(w);
    assert(cv as int == (if v < 10 { v + 48 } else { v + 87 }));
    assert(cw as int == (if w < 10 { w + 48 } else { w + 87 }));
}

/// Distinct byte sequences render differently: the rendering determines the
/// bytes it came from.
pub proof fn lemma_hex_injective(a: Seq<u8>, b: Seq<u8>)
    requires
        hex_of(a) == hex_of(b),
    ensures
        a == b,
    decreases a.len(),
{
    lemma_hex_length(a);
    lemma_hex_length(b);
    if a.len() > 0 {
        let (a0, b0) = (a.drop_last(), b.drop_last());
        let (x, y) = (a.last(), b.last());
        lemma_hex_length(a0);
        lemma_hex_length(b0);
        let ha = hex_of(a);
        assert(ha == hex_of(a0) + hex_byte(x));
        assert(ha == hex_of(b0) + hex_byte(y));
        assert(hex_of(a0) =~= ha.subrange(0, ha.len() - 2));
        assert(hex_of(b0) =~= ha.subrange(0, ha.len() - 2));
        assert(hex_byte(x)[0] == ha[ha.len() - 2]);
        assert(hex_byte(y)[0] == ha[ha.len() - 2]);
        assert(hex_byte(x)[1] == ha[ha.len() - 1]);
        assert(hex_byte(y)[1] == ha[ha.len() - 1]);
        lemma_hex_digit_injective(x as int / 16, y as int / 16);
        lemma_hex_digit_injective(x as int % 16, y as int % 16);
        assert(x == y);
        lemma_hex_injective(a0, b0);
        assert(a =~= a0.push(x));
        assert(b =~= b0.push(y));
    }
}

fn hex_char(v: u8) -> (c: char)
    requires
        v < 16,
    ensures
        c == hex_digit(v as int),
{
    if v < 10 {
        (v + 48) as char
    } else {
        (v - 10 + 97) as char
    }
}

/// Renders a checksum as lowercase hexadecimal, two digits per byte.
pub fn checksum_to_hex(bytes: &[u8]) -> (s: String)
    ensures
        s@ == hex_of(bytes@),
{
    let mut s = String::new();
    let mut i: usize = 0;
    while i < bytes.len()
        invariant
            i <= bytes.len(),
            s@ == hex_of(bytes@.take(i as int)),
        decreases bytes.len() - i,
    {
        let b: u8 = bytes[i];
        s.push(hex_char(b / 16));
        s.push(hex_char(b % 16));
        proof {
            assert(bytes@.take(i + 1).drop_last() =~= bytes@.take(i as int));
        }
        i = i + 1;
    }
    proof {
        assert(bytes@.take(bytes@.len() as int) =~= bytes@);
    }
    s
}

} // verus!
