use vstd::prelude::*;
use crate::ring::{SampleRing, silence};

verus! {

/// Which value a visualization read reports for each picked sample.
#[derive(Clone, Copy, PartialEq, Eq, Structural, Debug)]
pub enum Rendering {
    /// The signed sample as captured (waveform display).
    Signed,
    /// The sample's absolute value (amplitude-bar display).
    Magnitude,
}

/// Mask that clears the sign bit of a single-precision bit pattern.
pub const MAGNITUDE_MASK: u32 = 0x7fff_ffff;

/// The reported value of one sample: the absolute value of an IEEE-754
/// single is its bit pattern with the sign bit cleared.
pub open spec fn rendered(bits: u32, rendering: Rendering) -> u32 {
    match rendering {
        Rendering::Signed => bits,
        Rendering::Magnitude => bits & MAGNITUDE_MASK,
    }
}

/// A fixed-length read of `s`: when `s` holds fewer than `out_len` samples
/// the read is `out_len` silent samples; otherwise it takes the first
/// sample of each of `out_len` equal strides of `s.len() / out_len`.
pub open spec fn downsampled(s: Seq<u32>, out_len: nat, rendering: Rendering) -> Seq<u32> {
    if s.len() < out_len {
        silence(out_len)
    } else {
        Seq::new(out_len, |i: int| rendered(s[i * (s.len() / out_len) as int], rendering))
    }
}

pub fn render(bits: u32, rendering: Rendering) -> (r: u32)
    ensures
        r == rendered(bits, rendering),
{
    match rendering {
        Rendering::Signed => bits,
        Rendering::Magnitude => bits & MAGNITUDE_MASK,
    }
}

proof fn lemma_stride_in_bounds(i: int, out_len: int, n: int)
    requires
        0 <= i < out_len,
        out_len <= n,
    ensures
        0 <= i * (n / out_len) < n,
        n / out_len >= 1,
{
    let stride = n / out_len;
    assert(stride >= 1) by (nonlinear_arith)
        requires
            0 < out_len <= n,
            stride == n / out_len,
    ;
    assert(0 <= i * stride < n) by (nonlinear_arith)
        requires
            0 <= i < out_len,
            stride == n / out_len,
            stride >= 1,
            out_len > 0,
    ;
}

/// Reads exactly `out_len` values from `ring` for display, without changing
/// it; a ring shorter than `out_len` reads as silence.
pub fn poll(ring: &SampleRing, out_len: usize, rendering: Rendering) -> (r: Vec<u32>)
    requires
        ring.wf(),
    ensures
        r@ == downsampled(ring@, out_len as nat, rendering),
        r@.len() == out_len,
{
    let n = ring.len();
    let mut out: Vec<u32> = Vec::with_capacity(out_len);
    if n < out_len {
        let mut i: usize = 0;
        while i < out_len
            invariant
                i <= out_len,
                out@ == silence(i as nat),
            decreases out_len - i,
        {
            out.push(0);
            assert(out@ =~= silence((i + 1) as nat));
            i = i + 1;
        }
        return out;
    }
    if out_len == 0 {
        assert(out@ =~= downsampled(ring@, 0, rendering));
        return out;
    }
    let stride = n / out_len;
    let mut i: usize = 0;
    while i < out_len
        invariant
            ring.wf(),
            n == ring@.len(),
            0 < out_len <= n,
            stride == n / out_len,
            i <= out_len,
            out@ == downsampled(ring@, out_len as nat, rendering).subrange(0, i as int),
        decreases out_len - i,
    {
        proof {
            lemma_stride_in_bounds(i as int, out_len as int, n as int);
        }
        let x = ring.sample_at(i * stride);
        out.push(render(x, rendering));
        assert(out@ =~= downsampled(ring@, out_len as nat, rendering).subrange(0, i + 1));
        i = i + 1;
    }
    assert(out@ =~= downsampled(ring@, out_len as nat, rendering));
    out
}

/// A visualization read always has exactly the requested length, and reads
/// as silence when fewer samples than that are held.
pub proof fn lemma_poll_fixed_length(s: Seq<u32>, out_len: nat, rendering: Rendering)
    ensures
        downsampled(s, out_len, rendering).len() == out_len,
        s.len() < out_len ==> forall|i: int|
            0 <= i < out_len ==> downsampled(s, out_len, rendering)[i] == 0u32,
{
}

} // verus!
