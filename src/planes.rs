use vstd::prelude::*;

verus! {

/// The samples of the first `k` planes of a delivered buffer, one plane
/// after another.
pub open spec fn joined(planes: Seq<Vec<u32>>, k: nat) -> Seq<u32>
    decreases k,
{
    if k == 0 {
        Seq::empty()
    } else {
        joined(planes, (k - 1) as nat) + planes[k - 1]@
    }
}

/// Joins the planes of one delivered audio buffer into a single chunk, in
/// plane order; empty planes contribute nothing.
pub fn concat_planes(planes: &Vec<Vec<u32>>) -> (r: Vec<u32>)
    ensures
        r@ == joined(planes@, planes@.len()),
{
    let mut out: Vec<u32> = Vec::new();
    let mut k: usize = 0;
    while k < planes.len()
        invariant
            k <= planes@.len(),
            out@ == joined(planes@, k as nat),
        decreases planes@.len() - k,
    {
        let plane = &planes[k];
        let ghost before = out@;
        let mut i: usize = 0;
        while i < plane.len()
            invariant
                i <= plane@.len(),
                out@ == before + plane@.subrange(0, i as int),
            decreases plane@.len() - i,
        {
            out.push(plane[i]);
            assert(out@ =~= before + plane@.subrange(0, i + 1));
            i = i + 1;
        }
        assert(plane@.subrange(0, plane@.len() as int) =~= plane@);
        k = k + 1;
    }
    out
}

} // verus!
