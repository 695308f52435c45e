//! The checkpoint: parameters, step values, loss and round counter as
//! big-endian 8-byte blocks, `16 * n + 16` bytes for `n` parameters.
use vstd::prelude::*;
use crate::state::{State, StepInfo};
use crate::words::{
    decode_words, encode_words, lemma_decode_encode, lemma_encode_decode, lemma_encode_len,
    push_be, read_be, block_value,
};

verus! {

/// Why a buffer could not be read as a checkpoint.
#[derive(Clone, Copy, PartialEq, Eq, Structural, Debug)]
pub enum DecodeError {
    /// The buffer is not `16 * num_params + 16` bytes long.
    WrongLength { num_params: usize, found: usize },
}

/// Size of a checkpoint for `n` parameters.
pub open spec fn checkpoint_len(n: nat) -> int {
    16 * n as int + 16
}

/// The bytes of a checkpoint holding these four fields.
pub open spec fn checkpoint_bytes(params: Seq<u64>, steps: Seq<u64>, loss: u64, epoch: u64) -> Seq<
    u8,
> {
    encode_words(params + steps + seq![loss, epoch])
}

/// The four fields read from a checkpoint of `n` parameters:
/// `(parameters, step values, loss, round counter)`.
pub open spec fn checkpoint_fields(b: Seq<u8>, n: nat) -> (Seq<u64>, Seq<u64>, u64, u64) {
    let w = decode_words(b);
    let k = n as int;
    (w.subrange(0, k), w.subrange(k, 2 * k), w[2 * k], w[2 * k + 1])
}

/// Reading a written checkpoint gives back the four fields bit for bit.
pub proof fn lemma_checkpoint_round_trip(params: Seq<u64>, steps: Seq<u64>, loss: u64, epoch: u64)
    requires
        params.len() == steps.len(),
    ensures
        checkpoint_bytes(params, steps, loss, epoch).len() == checkpoint_len(params.len()),
        checkpoint_fields(checkpoint_bytes(params, steps, loss, epoch), params.len()) == (
        params,
        steps,
        loss,
        epoch,
        ),
{
    let ws = params + steps + seq![loss, epoch];
    lemma_encode_len(ws);
    lemma_decode_encode(ws);
    let n = params.len() as int;
    assert(ws.subrange(0, n) =~= params);
    assert(ws.subrange(n, 2 * n) =~= steps);
    assert(ws[2 * n] == loss);
    assert(ws[2 * n + 1] == epoch);
}

/// Writing the fields read from a buffer of the right size gives back the buffer.
pub proof fn lemma_buffer_round_trip(b: Seq<u8>, n: nat)
    requires
        b.len() == checkpoint_len(n),
    ensures
        ({
            let f = checkpoint_fields(b, n);
            checkpoint_bytes(f.0, f.1, f.2, f.3) == b
        }),
{
    lemma_encode_decode(b);
    lemma_decode_len(b);
    let w = decode_words(b);
    let f = checkpoint_fields(b, n);
    assert(f.0 + f.1 + seq![f.2, f.3] =~= w);
}

proof fn lemma_decode_len(b: Seq<u8>)
    ensures
        decode_words(b).len() == b.len() / 8,
    decreases b.len(),
{
    if b.len() >= 8 {
        let whole = (b.len() - b.len() % 8) as int;
        lemma_decode_len(b.subrange(0, whole - 8));
    }
}

/// The blocks of all numbers of `ws`.
pub fn encode_all(ws: &Vec<u64>) -> (r: Vec<u8>)
    ensures
        r@ == encode_words(ws@),
{
    let mut out: Vec<u8> = Vec::new();
    let mut i: usize = 0;
    while i < ws.len()
        invariant
            i <= ws@.len(),
            out@ == encode_words(ws@.take(i as int)),
        decreases ws@.len() - i,
    {
        push_be(&mut out, ws[i]);
        i += 1;
        assert(ws@.take(i as int).drop_last() =~= ws@.take(i - 1));
    }
    assert(ws@.take(i as int) =~= ws@);
    out
}

/// The numbers in the whole 8-byte blocks of `b`.
pub fn decode_all(b: &[u8]) -> (r: Vec<u64>)
    ensures
        r@ == decode_words(b@),
{
    let mut out: Vec<u64> = Vec::new();
    let len = b.len();
    let blocks = len / 8;
    let mut k: usize = 0;
    while k < blocks
        invariant
            len == b@.len(),
            blocks == b@.len() / 8,
            k <= blocks,
            out@ == decode_words(b@.subrange(0, 8 * k)),
        decreases blocks - k,
    {
        assert(8 * k + 8 <= b@.len()) by (nonlinear_arith)
            requires
                k < blocks,
                blocks == b@.len() / 8,
        ;
        let v = read_be(b, 8 * k);
        proof {
            let next = b@.subrange(0, 8 * k + 8);
            assert(next.subrange(0, 8 * k as int) =~= b@.subrange(0, 8 * k));
            assert(block_value(next, 8 * k as int) == block_value(b@, 8 * k as int));
        }
        out.push(v);
        k += 1;
    }
    proof {
        let whole = (b@.len() - b@.len() % 8) as int;
        assert(8 * k == whole);
        if b@.len() >= 8 {
            assert(b@.subrange(0, whole).subrange(0, whole - 8) =~= b@.subrange(0, whole - 8));
            assert(block_value(b@.subrange(0, whole), whole - 8) == block_value(b@, whole - 8));
            assert(decode_words(b@.subrange(0, whole)) == decode_words(b@.subrange(0, whole - 8)).push(block_value(b@, whole - 8)));
        } else {
            assert(whole == 0);
        }
    }
    out
}

impl State {
    /// The checkpoint bytes of this record.
    pub fn serialize(&self) -> (r: Vec<u8>)
        requires
            self.wf(),
        ensures
            r@ == checkpoint_bytes(self.parameters@, self.step_values(), self.loss, self.epoch),
            r@.len() == checkpoint_len(self.parameters@.len()),
    {
        let n = self.parameters.len();
        let mut ws: Vec<u64> = Vec::new();
        let mut i: usize = 0;
        while i < n
            invariant
                n == self.parameters@.len(),
                i <= n,
                ws@ == self.parameters@.take(i as int),
            decreases n - i,
        {
            ws.push(self.parameters[i]);
            i += 1;
            assert(ws@ =~= self.parameters@.take(i as int));
        }
        assert(self.parameters@.take(n as int) =~= self.parameters@);
        let mut j: usize = 0;
        while j < n
            invariant
                self.wf(),
                n == self.parameters@.len(),
                j <= n,
                ws@ == self.parameters@ + self.step_values().take(j as int),
            decreases n - j,
        {
            let v: u64 = match &self.step {
                StepInfo::Distances(d) => d[j],
                StepInfo::Previous(Some(s)) => s[j],
                StepInfo::Previous(None) => 0,
            };
            ws.push(v);
            j += 1;
            assert(ws@ =~= self.parameters@ + self.step_values().take(j as int));
        }
        assert(self.step_values().take(n as int) =~= self.step_values());
        ws.push(self.loss);
        ws.push(self.epoch);
        assert(ws@ =~= self.parameters@ + self.step_values() + seq![self.loss, self.epoch]);
        proof {
            lemma_checkpoint_round_trip(self.parameters@, self.step_values(), self.loss, self.epoch);
        }
        encode_all(&ws)
    }

    /// Reads a checkpoint of `num_params` parameters. Only the four stored
    /// fields come back; the record is a coordinate-search one with fresh
    /// counters and an empty history. A buffer of any other size is refused.
    pub fn deserialize(bytes: &[u8], num_params: usize) -> (r: Result<State, DecodeError>)
        ensures
            r is Ok <==> bytes@.len() == checkpoint_len(num_params as nat),
            r matches Err(e) ==> e == (DecodeError::WrongLength {
                num_params,
                found: bytes@.len() as usize,
            }),
            r matches Ok(s) ==> {
                &&& s.wf()
                &&& s.parameters@.len() == num_params
                &&& s.step is Distances
                &&& (s.parameters@, s.step_values(), s.loss, s.epoch) == checkpoint_fields(
                    bytes@,
                    num_params as nat,
                )
                &&& s.id == 0
                &&& s.successful_turns == 0
                &&& s.failed_turns == 0
                &&& s.last_updated_at.is_none()
                &&& s.losses_over_time@.len() == 0
            },
    {
        let n = num_params;
        if n > (usize::MAX - 16) / 16 || bytes.len() != 16 * n + 16 {
            return Err(DecodeError::WrongLength { num_params, found: bytes.len() });
        }
        let ws = decode_all(bytes);
        proof {
            lemma_decode_len(bytes@);
        }
        let mut params: Vec<u64> = Vec::new();
        let mut dists: Vec<u64> = Vec::new();
        let mut i: usize = 0;
        while i < n
            invariant
                ws@.len() == 2 * n + 2,
                n <= (usize::MAX - 16) / 16,
                i <= n,
                params@ == ws@.subrange(0, i as int),
                dists@ == ws@.subrange(n as int, n + i),
            decreases n - i,
        {
            params.push(ws[i]);
            dists.push(ws[n + i]);
            i += 1;
            assert(params@ =~= ws@.subrange(0, i as int));
            assert(dists@ =~= ws@.subrange(n as int, n + i));
        }
        let mut s = State::new(params, dists);
        s.loss = ws[2 * n];
        s.epoch = ws[2 * n + 1];
        Ok(s)
    }
}

} // verus!
