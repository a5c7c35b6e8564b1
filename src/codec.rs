//! Little-endian binary encoding of vectors.
//!
//! A vector element is held as the 64-bit IEEE-754 bit pattern of its value,
//! so that the codec is exact for every element, NaN and infinities included.
use byteorder::{ByteOrder, LittleEndian};
use vstd::prelude::*;

verus! {

/// The eight little-endian bytes of `n`.
pub open spec fn le_bytes(n: u64) -> Seq<u8> {
    seq![
        (n & 0xff) as u8,
        ((n >> 8u64) & 0xff) as u8,
        ((n >> 16u64) & 0xff) as u8,
        ((n >> 24u64) & 0xff) as u8,
        ((n >> 32u64) & 0xff) as u8,
        ((n >> 40u64) & 0xff) as u8,
        ((n >> 48u64) & 0xff) as u8,
        ((n >> 56u64) & 0xff) as u8,
    ]
}

/// The integer whose little-endian bytes are `b[0..8]`.
pub open spec fn le_value(b: Seq<u8>) -> u64
    recommends
        b.len() >= 8,
{
    (b[0] as u64) | ((b[1] as u64) << 8u64) | ((b[2] as u64) << 16u64) | ((b[3] as u64) << 24u64)
        | ((b[4] as u64) << 32u64) | ((b[5] as u64) << 40u64) | ((b[6] as u64) << 48u64) | ((
    b[7] as u64) << 56u64)
}

/// The byte buffer that stores the elements `v` one after the other.
pub open spec fn encoding(v: Seq<u64>) -> Seq<u8> {
    Seq::new(8 * v.len(), |k: int| le_bytes(v[k / 8])[k % 8])
}

/// The elements read from the complete 8-byte groups of `b`; a trailing
/// incomplete group is ignored.
pub open spec fn decoding(b: Seq<u8>) -> Seq<u64> {
    Seq::new(b.len() / 8, |i: int| le_value(b.subrange(8 * i, 8 * i + 8)))
}

/// Relies on byteorder's `LittleEndian::write_u64`: it writes the eight
/// little-endian bytes of `n` into the first eight bytes of the buffer.
#[verifier::external_body]
fn le_bytes_of(n: u64) -> (r: [u8; 8])
    ensures
        r@ == le_bytes(n),
{
    let mut b = [0u8; 8];
    LittleEndian::write_u64(&mut b, n);
    b
}

/// Relies on byteorder's `LittleEndian::read_u64`: it reads the integer
/// stored little-endian in the first eight bytes of the slice it is given
/// (here the bytes from `start` on) and panics on fewer than eight.
#[verifier::external_body]
fn le_value_at(buf: &[u8], start: usize) -> (r: u64)
    requires
        start + 8 <= buf@.len(),
    ensures
        r == le_value(buf@.subrange(start as int, start + 8)),
{
    LittleEndian::read_u64(&buf[start..])
}

proof fn lemma_le_value_of_bytes(n: u64)
    ensures
        le_value(le_bytes(n)) == n,
{
    let b = le_bytes(n);
    assert(b[0] == (n & 0xff) as u8);
    assert(b[1] == ((n >> 8u64) & 0xff) as u8);
    assert(b[2] == ((n >> 16u64) & 0xff) as u8);
    assert(b[3] == ((n >> 24u64) & 0xff) as u8);
    assert(b[4] == ((n >> 32u64) & 0xff) as u8);
    assert(b[5] == ((n >> 40u64) & 0xff) as u8);
    assert(b[6] == ((n >> 48u64) & 0xff) as u8);
    assert(b[7] == ((n >> 56u64) & 0xff) as u8);
    assert(((n & 0xff) as u8 as u64) | (((n >> 8u64) & 0xff) as u8 as u64) << 8u64 | (((n
        >> 16u64) & 0xff) as u8 as u64) << 16u64 | (((n >> 24u64) & 0xff) as u8 as u64) << 24u64
        | (((n >> 32u64) & 0xff) as u8 as u64) << 32u64 | (((n >> 40u64) & 0xff) as u8 as u64)
        << 40u64 | (((n >> 48u64) & 0xff) as u8 as u64) << 48u64 | (((n >> 56u64) & 0xff) as u8
        as u64) << 56u64 == n) by (bit_vector);
}

proof fn lemma_div_mod_8(i: int, j: int)
    requires
        0 <= j < 8,
    ensures
        (8 * i + j) / 8 == i,
        (8 * i + j) % 8 == j,
{
    assert((8 * i + j) / 8 == i && (8 * i + j) % 8 == j) by (nonlinear_arith)
        requires
            0 <= j < 8,
    ;
}

/// The bytes that `encoding` gives to element `i` are its own eight bytes.
pub proof fn lemma_encoding_group(v: Seq<u64>, i: int)
    requires
        0 <= i < v.len(),
    ensures
        encoding(v).subrange(8 * i, 8 * i + 8) == le_bytes(v[i]),
{
    let e = encoding(v);
    assert forall|j: int| 0 <= j < 8 implies e.subrange(8 * i, 8 * i + 8)[j] == le_bytes(
        v[i],
    )[j] by {
        lemma_div_mod_8(i, j);
        assert(8 * i + j < 8 * v.len()) by (nonlinear_arith)
            requires
                0 <= i < v.len(),
                0 <= j < 8,
        ;
    }
    assert(e.subrange(8 * i, 8 * i + 8) =~= le_bytes(v[i]));
}

/// Decoding an encoded vector gives the vector back, for every length.
pub proof fn lemma_round_trip(v: Seq<u64>)
    ensures
        decoding(encoding(v)) == v,
{
    let e = encoding(v);
    assert(e.len() / 8 == v.len()) by (nonlinear_arith)
        requires
            e.len() == 8 * v.len(),
    ;
    assert forall|i: int| 0 <= i < v.len() implies decoding(e)[i] == v[i] by {
        lemma_encoding_group(v, i);
        lemma_le_value_of_bytes(v[i]);
    }
    assert(decoding(e) =~= v);
}

/// A buffer of any length decodes to `len / 8` elements: a trailing
/// incomplete group is dropped, not refused.
pub proof fn lemma_truncation(b: Seq<u8>)
    ensures
        decoding(b).len() == b.len() / 8,
        b.len() % 8 != 0 ==> decoding(b) == decoding(b.subrange(0, b.len() - b.len() % 8)),
{
    if b.len() % 8 != 0 {
        let t = b.subrange(0, b.len() - b.len() % 8);
        assert(t.len() / 8 == b.len() / 8);
        assert forall|i: int| 0 <= i < b.len() / 8 implies decoding(b)[i] == decoding(t)[i] by {
            assert(8 * i + 8 <= t.len()) by (nonlinear_arith)
                requires
                    0 <= i < b.len() / 8,
                    t.len() == b.len() - b.len() % 8,
            ;
            assert(b.subrange(8 * i, 8 * i + 8) =~= t.subrange(8 * i, 8 * i + 8));
        }
        assert(decoding(b) =~= decoding(t));
    }
}

/// Encodes each element as its eight little-endian bytes, in order.
pub fn serialize_vector(vector: &[u64]) -> (bytes: Vec<u8>)
    requires
        vector@.len() * 8 <= usize::MAX,
    ensures
        bytes@ == encoding(vector@),
{
    let mut bytes: Vec<u8> = Vec::new();
    let n = vector.len();
    for i in 0..n
        invariant
            n == vector@.len(),
            n * 8 <= usize::MAX,
            bytes@ =~= encoding(vector@.subrange(0, i as int)),
    {
        let group = le_bytes_of(vector[i]);
        let ghost before = bytes@;
        for j in 0..8
            invariant
                group@ == le_bytes(vector@[i as int]),
                bytes@ =~= before + group@.subrange(0, j as int),
        {
            bytes.push(group[j]);
        }
        proof {
            let s = vector@.subrange(0, i + 1);
            assert forall|k: int| 0 <= k < 8 * s.len() implies bytes@[k] == encoding(s)[k] by {
                let q = k / 8;
                let r = k % 8;
                assert(k == 8 * q + r);
                assert(0 <= q < s.len()) by (nonlinear_arith)
                    requires
                        0 <= k < 8 * s.len(),
                        q == k / 8,
                ;
                if q < i {
                    assert(k < 8 * i) by (nonlinear_arith)
                        requires
                            q < i,
                            k == 8 * q + r,
                            0 <= r < 8,
                    ;
                } else {
                    assert(k >= 8 * i) by (nonlinear_arith)
                        requires
                            q >= i,
                            k == 8 * q + r,
                            0 <= r < 8,
                    ;
                }
            }
            assert(bytes@.len() == 8 * s.len());
            assert(bytes@ =~= encoding(s));
        }
    }
    assert(vector@.subrange(0, n as int) =~= vector@);
    bytes
}

/// Reads one element from each complete 8-byte group; trailing bytes that do
/// not make a full group are dropped.
pub fn deserialize_vector(bytes: &[u8]) -> (vector: Vec<u64>)
    ensures
        vector@ == decoding(bytes@),
        vector@.len() == bytes@.len() / 8,
{
    let mut vector: Vec<u64> = Vec::new();
    let len = bytes.len();
    let n = len / 8;
    for i in 0..n
        invariant
            n == bytes@.len() / 8,
            len == bytes@.len(),
            vector@ =~= decoding(bytes@).subrange(0, i as int),
    {
        assert(8 * i + 8 <= len) by (nonlinear_arith)
            requires
                i < n,
                n == len / 8,
        ;
        let x = le_value_at(bytes, 8 * i);
        vector.push(x);
    }
    assert(decoding(bytes@).subrange(0, n as int) =~= decoding(bytes@));
    vector
}

} // verus!
