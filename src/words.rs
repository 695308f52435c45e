//! Big-endian 8-byte blocks: the wire form of every number in a checkpoint.
use vstd::prelude::*;

verus! {

/// The eight bytes of `v`, most significant first.
pub open spec fn be_bytes(v: u64) -> Seq<u8> {
    seq![
        (v >> 56u64) as u8,
        (v >> 48u64) as u8,
        (v >> 40u64) as u8,
        (v >> 32u64) as u8,
        (v >> 24u64) as u8,
        (v >> 16u64) as u8,
        (v >> 8u64) as u8,
        v as u8,
    ]
}

/// The number whose big-endian bytes are `b0 .. b7`.
pub open spec fn be_value(b0: u8, b1: u8, b2: u8, b3: u8, b4: u8, b5: u8, b6: u8, b7: u8) -> u64 {
    ((b0 as u64) << 56u64) | ((b1 as u64) << 48u64) | ((b2 as u64) << 40u64) | ((b3 as u64)
        << 32u64) | ((b4 as u64) << 24u64) | ((b5 as u64) << 16u64) | ((b6 as u64) << 8u64) | (
    b7 as u64)
}

/// The number held by the eight bytes of `b` that start at `at`.
pub open spec fn block_value(b: Seq<u8>, at: int) -> u64 {
    be_value(b[at], b[at + 1], b[at + 2], b[at + 3], b[at + 4], b[at + 5], b[at + 6], b[at + 7])
}

/// The blocks of all numbers of `ws`, in order.
pub open spec fn encode_words(ws: Seq<u64>) -> Seq<u8>
    decreases ws.len(),
{
    if ws.len() == 0 {
        Seq::empty()
    } else {
        encode_words(ws.drop_last()) + be_bytes(ws.last())
    }
}

/// The numbers read from the whole 8-byte blocks of `b`, in order; trailing
/// bytes that do not fill a block are not read.
pub open spec fn decode_words(b: Seq<u8>) -> Seq<u64>
    decreases b.len(),
{
    if b.len() < 8 {
        Seq::empty()
    } else {
        let whole = (b.len() - b.len() % 8) as int;
        decode_words(b.subrange(0, whole - 8)).push(block_value(b, whole - 8))
    }
}

proof fn lemma_value_of_bytes(v: u64)
    ensures
        be_value(
            (v >> 56u64) as u8,
            (v >> 48u64) as u8,
            (v >> 40u64) as u8,
            (v >> 32u64) as u8,
            (v >> 24u64) as u8,
            (v >> 16u64) as u8,
            (v >> 8u64) as u8,
            v as u8,
        ) == v,
{
    assert(((((v >> 56u64) as u8) as u64) << 56u64) | ((((v >> 48u64) as u8) as u64) << 48u64)
        | ((((v >> 40u64) as u8) as u64) << 40u64) | ((((v >> 32u64) as u8) as u64) << 32u64) | ((((
    v >> 24u64) as u8) as u64) << 24u64) | ((((v >> 16u64) as u8) as u64) << 16u64) | ((((v
        >> 8u64) as u8) as u64) << 8u64) | ((v as u8) as u64) == v) by (bit_vector);
}

proof fn lemma_bytes_of_value(b0: u8, b1: u8, b2: u8, b3: u8, b4: u8, b5: u8, b6: u8, b7: u8)
    ensures
        be_bytes(be_value(b0, b1, b2, b3, b4, b5, b6, b7)) == seq![b0, b1, b2, b3, b4, b5, b6, b7],
{
    let v = be_value(b0, b1, b2, b3, b4, b5, b6, b7);
    assert((v >> 56u64) as u8 == b0 && (v >> 48u64) as u8 == b1 && (v >> 40u64) as u8 == b2 && (v
        >> 32u64) as u8 == b3 && (v >> 24u64) as u8 == b4 && (v >> 16u64) as u8 == b5 && (v
        >> 8u64) as u8 == b6 && v as u8 == b7) by (bit_vector)
        requires
            v == ((b0 as u64) << 56u64) | ((b1 as u64) << 48u64) | ((b2 as u64) << 40u64) | ((
            b3 as u64) << 32u64) | ((b4 as u64) << 24u64) | ((b5 as u64) << 16u64) | ((b6 as u64)
                << 8u64) | (b7 as u64),
    ;
    assert(be_bytes(v) =~= seq![b0, b1, b2, b3, b4, b5, b6, b7]);
}

pub proof fn lemma_encode_len(ws: Seq<u64>)
    ensures
        encode_words(ws).len() == 8 * ws.len(),
    decreases ws.len(),
{
    if ws.len() > 0 {
        lemma_encode_len(ws.drop_last());
    }
}

/// Reading back what was written gives the same numbers.
pub proof fn lemma_decode_encode(ws: Seq<u64>)
    ensures
        decode_words(encode_words(ws)) == ws,
    decreases ws.len(),
{
    lemma_encode_len(ws);
    if ws.len() > 0 {
        let e = encode_words(ws);
        let prev = encode_words(ws.drop_last());
        lemma_encode_len(ws.drop_last());
        assert(e.len() % 8 == 0);
        assert(e.subrange(0, e.len() - 8) =~= prev);
        lemma_value_of_bytes(ws.last());
        assert(block_value(e, e.len() - 8) == ws.last());
        lemma_decode_encode(ws.drop_last());
        assert(ws.drop_last().push(ws.last()) =~= ws);
    }
}

/// Writing what was read from whole blocks gives the same bytes.
pub proof fn lemma_encode_decode(b: Seq<u8>)
    requires
        b.len() % 8 == 0,
    ensures
        encode_words(decode_words(b)) == b,
    decreases b.len(),
{
    if b.len() >= 8 {
        let n = b.len() as int;
        let rest = b.subrange(0, n - 8);
        assert(rest.len() % 8 == 0);
        lemma_encode_decode(rest);
        let ws = decode_words(b);
        assert(ws.drop_last() =~= decode_words(rest));
        lemma_bytes_of_value(b[n - 8], b[n - 7], b[n - 6], b[n - 5], b[n - 4], b[n - 3], b[n - 2], b[n - 1]);
        assert(encode_words(ws) =~= b);
    } else {
        assert(b =~= Seq::<u8>::empty());
    }
}

/// Appends the eight big-endian bytes of `v`.
pub fn push_be(out: &mut Vec<u8>, v: u64)
    ensures
        final(out)@ == old(out)@ + be_bytes(v),
{
    out.push((v >> 56u64) as u8);
    out.push((v >> 48u64) as u8);
    out.push((v >> 40u64) as u8);
    out.push((v >> 32u64) as u8);
    out.push((v >> 24u64) as u8);
    out.push((v >> 16u64) as u8);
    out.push((v >> 8u64) as u8);
    out.push(v as u8);
    assert(final(out)@ =~= old(out)@ + be_bytes(v));
}

/// Reads the big-endian number in `b[at .. at + 8]`.
pub fn read_be(b: &[u8], at: usize) -> (r: u64)
    requires
        at + 8 <= b@.len(),
    ensures
        r == block_value(b@, at as int),
{
    ((b[at] as u64) << 56u64) | ((b[at + 1] as u64) << 48u64) | ((b[at + 2] as u64) << 40u64) | ((
    b[at + 3] as u64) << 32u64) | ((b[at + 4] as u64) << 24u64) | ((b[at + 5] as u64) << 16u64)
        | ((b[at + 6] as u64) << 8u64) | (b[at + 7] as u64)
}

} // verus!
