use vstd::prelude::*;

verus! {

/// Triangle `t` of a flat index list, shifted by `offset`, padded to four entries.
pub open spec fn shifted_triangle(indices: Seq<u32>, offset: u32, t: int) -> Seq<u32> {
    seq![
        (indices[3 * t] + offset) as u32,
        (indices[3 * t + 1] + offset) as u32,
        (indices[3 * t + 2] + offset) as u32,
        0u32,
    ]
}

/// Appends the triangles of the flat index list `indices`, three indices each, to `out`,
/// every index shifted by `offset`: the position of the mesh's first vertex in the shared
/// vertex list.
pub fn append_triangles(indices: &Vec<u32>, offset: u32, out: &mut Vec<[u32; 4]>)
    requires
        indices@.len() % 3 == 0,
        forall|i: int| 0 <= i < indices@.len() ==> #[trigger] indices@[i] + offset <= u32::MAX,
    ensures
        final(out)@.len() == old(out)@.len() + indices@.len() / 3,
        forall|k: int| 0 <= k < old(out)@.len() ==> #[trigger] final(out)@[k] == old(out)@[k],
        forall|t: int|
            0 <= t < indices@.len() / 3 ==> #[trigger] final(out)@[old(out)@.len() + t]@
                == shifted_triangle(indices@, offset, t),
{
    let ghost start = old(out)@.len();
    let mut i: usize = 0;
    while i < indices.len()
        invariant
            indices@.len() % 3 == 0,
            forall|j: int| 0 <= j < indices@.len() ==> #[trigger] indices@[j] + offset <= u32::MAX,
            i % 3 == 0,
            i <= indices@.len(),
            start == old(out)@.len(),
            out@.len() == start + i / 3,
            forall|k: int| 0 <= k < start ==> #[trigger] out@[k] == old(out)@[k],
            forall|t: int|
                0 <= t < i / 3 ==> #[trigger] out@[start + t]@ == shifted_triangle(
                    indices@,
                    offset,
                    t,
                ),
        decreases indices@.len() - i,
    {
        assert(i + 2 < indices@.len());
        let a = indices[i] + offset;
        let b = indices[i + 1] + offset;
        let c = indices[i + 2] + offset;
        let tri = [a, b, c, 0];
        out.push(tri);
        proof {
            let t = i as int / 3;
            assert(3 * t == i);
            assert(tri@ =~= shifted_triangle(indices@, offset, t));
        }
        i = i + 3;
    }
}

} // verus!
