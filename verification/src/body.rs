//! The pure core of the streamed body-acquisition strategy: once the
//! hosting layer has collected the chunks of an asynchronous byte stream,
//! they are concatenated here, in arrival order, into the raw payload.

use vstd::prelude::*;

verus! {

/// The concatenation of a sequence of chunks, in order.
pub open spec fn concat_of(chunks: Seq<Seq<u8>>) -> Seq<u8>
    decreases chunks.len(),
{
    if chunks.len() == 0 {
        Seq::empty()
    } else {
        concat_of(chunks.drop_last()) + chunks.last()
    }
}

/// Concatenates the collected body chunks into the raw payload bytes.
pub fn assemble_body(chunks: &Vec<Vec<u8>>) -> (r: Vec<u8>)
    ensures
        r@ == concat_of(chunks.deep_view()),
{
    let ghost dv = chunks.deep_view();
    let mut out: Vec<u8> = Vec::new();
    let mut i: usize = 0;
    proof {
        assert(out@ =~= concat_of(dv.take(0)));
    }
    while i < chunks.len()
        invariant
            i <= chunks.len(),
            dv == chunks.deep_view(),
            dv.len() == chunks@.len(),
            out@ == concat_of(dv.take(i as int)),
        decreases chunks.len() - i,
    {
        let chunk = &chunks[i];
        let mut j: usize = 0;
        proof {
            assert(dv[i as int] == chunks@[i as int]@);
            assert(out@ =~= concat_of(dv.take(i as int)) + chunk@.take(0));
        }
        while j < chunk.len()
            invariant
                j <= chunk.len(),
                i < chunks.len(),
                dv == chunks.deep_view(),
                dv.len() == chunks@.len(),
                dv[i as int] == chunks@[i as int]@,
                chunk == chunks@[i as int],
                out@ == concat_of(dv.take(i as int)) + chunk@.take(j as int),
            decreases chunk.len() - j,
        {
            out.push(chunk[j]);
            j += 1;
            proof {
                assert(out@ =~= concat_of(dv.take(i as int)) + chunk@.take(j as int));
            }
        }
        i += 1;
        proof {
            assert(dv.take(i as int).drop_last() =~= dv.take(i as int - 1));
            assert(chunk@.take(chunk@.len() as int) =~= chunk@);
            assert(out@ == concat_of(dv.take(i as int)));
        }
    }
    proof {
        assert(dv.take(chunks@.len() as int) =~= dv);
    }
    out
}

} // verus!
