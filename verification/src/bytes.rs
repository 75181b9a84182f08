//! Joining byte buffers.

use vstd::prelude::*;

verus! {

broadcast use vstd::seq::Seq::lemma_flatten_push;

/// The views of the buffers in `parts`, in order.
pub open spec fn views(parts: Seq<Vec<u8>>) -> Seq<Seq<u8>> {
    Seq::new(parts.len(), |i: int| parts[i]@)
}

/// Joins the buffers of `parts`, in order and without separators.
pub fn join_buffers(parts: &Vec<Vec<u8>>) -> (joined: Vec<u8>)
    ensures
        joined@ == views(parts@).flatten(),
{
    let mut joined: Vec<u8> = Vec::new();
    let mut i: usize = 0;
    assert(views(parts@).take(0) =~= Seq::<Seq<u8>>::empty());
    while i < parts.len()
        invariant
            i <= parts.len(),
            joined@ == views(parts@).take(i as int).flatten(),
        decreases parts.len() - i,
    {
        let part = &parts[i];
        let ghost before = joined@;
        let mut j: usize = 0;
        while j < part.len()
            invariant
                j <= part.len(),
                joined@ == before + part@.take(j as int),
            decreases part.len() - j,
        {
            joined.push(part[j]);
            j += 1;
            assert(part@.take(j as int) =~= part@.take(j as int - 1).push(part@[j as int - 1]));
        }
        assert(part@.take(j as int) =~= part@);
        assert(views(parts@).take(i as int + 1) =~= views(parts@).take(i as int).push(part@));
        i += 1;
    }
    assert(views(parts@).take(i as int) =~= views(parts@));
    joined
}

/// Joining a single buffer gives that buffer.
pub proof fn lemma_join_of_one(part: Seq<u8>)
    ensures
        seq![part].flatten() == part,
{
    seq![part].lemma_flatten_one_element();
}

} // verus!
