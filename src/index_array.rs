//! Compressed index arrays: a set of vertex or face indices stored as runs of
//! consecutive values. A 32-bit run count is followed by the runs, each a
//! 32-bit first index and a 16-bit length. Decoding expands the runs in
//! order, keeping every repetition.
use vstd::prelude::*;

use crate::codec::{counted_spec, lemma_seq_width_mono, seq_spec, u16_at, u32_at, Cursor};
use crate::error::DecodeError;

verus! {

/// The indices of one run: `len` consecutive values from `first`, counted
/// modulo 2^32.
pub open spec fn run_values(first: u32, len: u16) -> Seq<u32> {
    Seq::new(len as nat, |k: int| ((first as int + k) % 0x1_0000_0000) as u32)
}

/// The indices of a sequence of runs, run after run.
pub open spec fn expand_runs(runs: Seq<(u32, u16)>) -> Seq<u32>
    decreases runs.len(),
{
    if runs.len() == 0 {
        Seq::empty()
    } else {
        expand_runs(runs.drop_last()) + run_values(runs.last().0, runs.last().1)
    }
}

pub open spec fn run_reader() -> spec_fn(Seq<u8>, int) -> ((u32, u16), nat) {
    |s: Seq<u8>, p: int| ((u32_at(s, p), u16_at(s, p + 4)), 6nat)
}

/// The runs stored at `p`, and their width.
pub open spec fn runs_spec(s: Seq<u8>, p: int) -> (Seq<(u32, u16)>, nat) {
    counted_spec(s, p, run_reader())
}

/// The indices stored at `p`, and the width of their encoding.
pub open spec fn index_array_spec(s: Seq<u8>, p: int) -> (Seq<u32>, nat) {
    (expand_runs(runs_spec(s, p).0), runs_spec(s, p).1)
}

/// An explicit, ordered sequence of indices.
#[derive(Debug, Clone, PartialEq, Eq)]
pub struct CompressedVertexIndexArrayCxx {
    pub edges: Vec<u32>,
}

impl View for CompressedVertexIndexArrayCxx {
    type V = Seq<u32>;

    open spec fn view(&self) -> Seq<u32> {
        self.edges@
    }
}

pub fn read_index_array(c: &mut Cursor) -> (r: Result<CompressedVertexIndexArrayCxx, DecodeError>)
    requires
        old(c).wf(),
    ensures
        old(c).reads(final(c), r, index_array_spec(old(c).bytes(), old(c).pos as int)),
{
    let ghost s = c.data@;
    let n = c.read_u32()?;
    let ghost p0 = c.pos as int;
    let mut out: Vec<u32> = Vec::new();
    let mut i: u32 = 0;
    while i < n
        invariant
            c.wf(),
            c.data@ == s,
            s == old(c).data@,
            c.limit == old(c).limit,
            p0 == old(c).pos + 4,
            n == u32_at(s, old(c).pos as int),
            i <= n,
            c.pos == p0 + seq_spec(s, p0, i as nat, run_reader()).1,
            out@ == expand_runs(seq_spec(s, p0, i as nat, run_reader()).0),
        decreases n - i,
    {
        let first = match c.read_u32() {
            Ok(x) => x,
            Err(e) => {
                proof {
                    lemma_seq_width_mono(s, p0, (i + 1) as nat, n as nat, run_reader());
                }
                return Err(e);
            },
        };
        let len = match c.read_u16() {
            Ok(x) => x,
            Err(e) => {
                proof {
                    lemma_seq_width_mono(s, p0, (i + 1) as nat, n as nat, run_reader());
                }
                return Err(e);
            },
        };
        let ghost prev = out@;
        let ghost runs = seq_spec(s, p0, (i + 1) as nat, run_reader()).0;
        assert(runs.drop_last() =~= seq_spec(s, p0, i as nat, run_reader()).0);
        let mut k: u16 = 0;
        while k < len
            invariant
                k <= len,
                out@ == prev + run_values(first, len).take(k as int),
            decreases len - k,
        {
            out.push(first.wrapping_add(k as u32));
            k = k + 1;
            assert(out@ =~= prev + run_values(first, len).take(k as int));
        }
        assert(run_values(first, len).take(len as int) =~= run_values(first, len));
        i = i + 1;
    }
    Ok(CompressedVertexIndexArrayCxx { edges: out })
}

} // verus!
