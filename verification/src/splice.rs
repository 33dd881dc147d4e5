use crate::challenge_response::append_bytes;
use vstd::prelude::*;

verus! {

/// The bytes one direction of a splice delivers, given the sequence of reads
/// it performs on its source: the chunks in order, concatenated, up to the
/// first empty read (which signals end-of-stream and terminates the
/// direction). The opposite direction is the same function of its own reads;
/// whichever direction terminates first ends the splice, and both streams
/// are then closed.
pub open spec fn delivered(chunks: Seq<Seq<u8>>) -> Seq<u8>
    decreases chunks.len(),
{
    if chunks.len() == 0 {
        Seq::empty()
    } else if chunks[0].len() == 0 {
        Seq::empty()
    } else {
        chunks[0] + delivered(chunks.subrange(1, chunks.len() as int))
    }
}

/// One direction of the splice, run over a recorded sequence of reads:
/// yields, on the receiving side, exactly the byte sequence read from the
/// sending side up to the point of termination. Zero bytes delivered is a
/// valid outcome.
pub fn splice_direction(chunks: &Vec<Vec<u8>>) -> (out: Vec<u8>)
    ensures
        out@ == delivered(chunks.deep_view()),
{
    let ghost c: Seq<Seq<u8>> = chunks.deep_view();
    let mut out: Vec<u8> = Vec::new();
    let mut i: usize = 0;
    proof {
        assert(c.subrange(0 as int, c.len() as int) =~= c);
        assert(Seq::<u8>::empty() + delivered(c) =~= delivered(c));
    }
    while i < chunks.len()
        invariant
            i <= chunks@.len(),
            c == chunks.deep_view(),
            c.len() == chunks@.len(),
            forall|j: int| 0 <= j < c.len() ==> c[j] == chunks@[j]@,
            delivered(c) == out@ + delivered(c.subrange(i as int, c.len() as int)),
        decreases chunks@.len() - i,
    {
        let ghost rest = c.subrange(i as int, c.len() as int);
        let chunk: &Vec<u8> = &chunks[i];
        if chunk.len() == 0 {
            proof {
                assert(rest[0] == c[i as int]);
                assert(delivered(rest) =~= Seq::<u8>::empty());
                assert(out@ + Seq::<u8>::empty() =~= out@);
            }
            return out;
        }
        append_bytes(&mut out, chunk.as_slice());
        proof {
            assert(rest[0] == c[i as int]);
            assert(rest.subrange(1, rest.len() as int) =~= c.subrange(
                i as int + 1,
                c.len() as int,
            ));
            assert(delivered(rest) == c[i as int] + delivered(
                c.subrange(i as int + 1, c.len() as int),
            ));
        }
        i = i + 1;
    }
    proof {
        assert(c.subrange(c.len() as int, c.len() as int) =~= Seq::<Seq<u8>>::empty());
        assert(delivered(Seq::<Seq<u8>>::empty()) =~= Seq::<u8>::empty());
        assert(out@ + Seq::<u8>::empty() =~= out@);
    }
    out
}

} // verus!
