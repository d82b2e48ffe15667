use vstd::prelude::*;

use crate::hasher::Hasher;
use crate::hasher::blake2b_of;

verus! {

/// Size of the reusable read buffer for the buffered-streaming strategy,
/// matching the widely used coreutils convention.
pub const CHUNK_LEN: usize = 32768;

/// The whole-buffer strategy: feed the entire contents in a single call, as
/// when the input is already resident as one contiguous memory view.
pub fn hash_whole(data: &[u8], out_len: usize) -> (r: Vec<u8>)
    requires
        1 <= out_len <= 64,
    ensures
        r@ == blake2b_of(data@, out_len as nat),
        r@.len() == out_len,
{
    let mut h = Hasher::new(out_len);
    h.update(data);
    proof {
        assert(h.absorbed_bytes() =~= data@);
    }
    h.finalize()
}

/// The buffered strategy over resident bytes: feed the contents in chunks of
/// at most `chunk_len` bytes, as a read loop over a fixed-size buffer does.
/// The digest is the same as the whole-buffer strategy's, whatever the chunk
/// boundaries.
pub fn hash_chunked(data: &[u8], out_len: usize, chunk_len: usize) -> (r: Vec<u8>)
    requires
        1 <= out_len <= 64,
        chunk_len >= 1,
    ensures
        r@ == blake2b_of(data@, out_len as nat),
        r@.len() == out_len,
{
    let mut h = Hasher::new(out_len);
    let mut i: usize = 0;
    while i < data.len()
        invariant
            i <= data.len(),
            chunk_len >= 1,
            h.absorbed_bytes() =~= data@.take(i as int),
            h.out_len() == out_len as nat,
        decreases data.len() - i,
    {
        let end: usize = if data.len() - i < chunk_len {
            data.len()
        } else {
            i + chunk_len
        };
        h.update(&data[i..end]);
        proof {
            assert(data@.take(end as int) =~= data@.take(i as int) + data@.subrange(
                i as int,
                end as int,
            ));
        }
        i = end;
    }
    proof {
        assert(data@.take(data.len() as int) =~= data@);
    }
    h.finalize()
}

/// The concatenation of a sequence of chunks, in order.
pub open spec fn concat_of(chunks: Seq<Seq<u8>>) -> Seq<u8>
    decreases chunks.len(),
{
    if chunks.len() == 0 {
        Seq::<u8>::empty()
    } else {
        concat_of(chunks.drop_last()) + chunks.last()
    }
}

/// Taking one more chunk extends the concatenation by exactly that chunk.
proof fn lemma_concat_of_step(chunks: Seq<Seq<u8>>, i: int)
    requires
        0 <= i < chunks.len(),
    ensures
        concat_of(chunks.take(i + 1)) == concat_of(chunks.take(i)) + chunks[i],
{
    let t = chunks.take(i + 1);
    assert(t.drop_last() =~= chunks.take(i));
    assert(t.last() == chunks[i]);
}

/// The buffered path in its general shape: absorb a sequence of chunks of
/// arbitrary, unequal sizes — as successive reads from a stream return them —
/// and finalize. The digest is that of the chunks' concatenation, so the
/// chunk boundaries chosen by the reads cannot matter.
pub fn hash_pieces(pieces: &Vec<Vec<u8>>, out_len: usize) -> (r: Vec<u8>)
    requires
        1 <= out_len <= 64,
    ensures
        r@ == blake2b_of(concat_of(pieces@.map_values(|p: Vec<u8>| p@)), out_len as nat),
        r@.len() == out_len,
{
    let ghost views = pieces@.map_values(|p: Vec<u8>| p@);
    let mut h = Hasher::new(out_len);
    let mut i: usize = 0;
    while i < pieces.len()
        invariant
            i <= pieces.len(),
            views == pieces@.map_values(|p: Vec<u8>| p@),
            h.absorbed_bytes() =~= concat_of(views.take(i as int)),
            h.out_len() == out_len as nat,
        decreases pieces.len() - i,
    {
        h.update(pieces[i].as_slice());
        proof {
            lemma_concat_of_step(views, i as int);
        }
        i = i + 1;
    }
    proof {
        assert(views.take(pieces@.len() as int) =~= views);
    }
    h.finalize()
}

/// Streaming convergence: two accumulators that absorbed the same bytes at
/// the same output length finalize to the same digest, however differently
/// those bytes were chunked on the way in.
pub proof fn lemma_paths_converge(h1: Hasher, h2: Hasher)
    requires
        h1.absorbed_bytes() =~= h2.absorbed_bytes(),
        h1.out_len() == h2.out_len(),
    ensures
        blake2b_of(h1.absorbed_bytes(), h1.out_len()) == blake2b_of(
            h2.absorbed_bytes(),
            h2.out_len(),
        ),
{
    assert(h1.absorbed_bytes() == h2.absorbed_bytes());
}

/// Determinism: equal byte contents hashed at the same output length give
/// equal digests.
pub proof fn lemma_digest_deterministic(a: Seq<u8>, b: Seq<u8>, out_len: nat)
    requires
        a =~= b,
    ensures
        blake2b_of(a, out_len) == blake2b_of(b, out_len),
{
    assert(a == b);
}

} // verus!
