//! Splitting a wave's path list into fixed-size chunks of work.
//!
//! A chunk is the unit of work handed to one concurrent deletion task: a
//! contiguous run of at most `size` paths, in the order the walk produced
//! them. Every chunk but the last holds exactly `size` paths.

use vstd::prelude::*;
use vstd::arithmetic::div_mod::{
    lemma_fundamental_div_mod, lemma_fundamental_div_mod_converse, lemma_mod_pos_bound,
};
use vstd::seq_lib::lemma_flatten_concat;

verus! {

/// The consecutive chunks of at most `size` paths each that `s` splits into:
/// full chunks of exactly `size` paths, followed by one shorter chunk if
/// `s.len()` is not a multiple of `size`.
pub open spec fn chunked(s: Seq<String>, size: int) -> Seq<Seq<String>>
    decreases s.len(),
{
    if size < 1 || s.len() == 0 {
        Seq::empty()
    } else if s.len() <= size {
        seq![s]
    } else {
        seq![s.take(size)] + chunked(s.skip(size), size)
    }
}

/// The mathematical view of an executable chunk list.
pub open spec fn chunks_view(cs: Seq<Vec<String>>) -> Seq<Seq<String>> {
    cs.map_values(|c: Vec<String>| c@)
}

/// Split `paths` into consecutive chunks of at most `size` paths each,
/// preserving their order.
pub fn split_into_chunks(paths: Vec<String>, size: usize) -> (chunks: Vec<Vec<String>>)
    requires
        size >= 1,
    ensures
        chunks_view(chunks@) == chunked(paths@, size as int),
{
    let ghost all: Seq<String> = paths@;
    let mut rest = paths;
    let mut chunks: Vec<Vec<String>> = Vec::new();
    while rest.len() > 0
        invariant
            size >= 1,
            chunks_view(chunks@) + chunked(rest@, size as int) == chunked(all, size as int),
        decreases rest.len(),
    {
        let ghost r0: Seq<String> = rest@;
        let n = if rest.len() < size {
            rest.len()
        } else {
            size
        };
        let tail = rest.split_off(n);
        proof {
            assert(rest@ =~= r0.take(n as int));
            assert(tail@ =~= r0.skip(n as int));
            if r0.len() <= size {
                assert(chunked(tail@, size as int) =~= Seq::<Seq<String>>::empty());
                assert(rest@ =~= r0);
                assert(chunked(r0, size as int) =~= seq![rest@] + chunked(tail@, size as int));
            } else {
                assert(chunked(r0, size as int) == seq![r0.take(size as int)] + chunked(
                    r0.skip(size as int),
                    size as int,
                ));
            }
        }
        let ghost cs0: Seq<Vec<String>> = chunks@;
        chunks.push(rest);
        proof {
            assert(chunks_view(chunks@) =~= chunks_view(cs0).push(r0.take(n as int)));
            assert(chunks_view(chunks@) + chunked(tail@, size as int) =~= chunks_view(cs0)
                + chunked(r0, size as int));
        }
        rest = tail;
    }
    proof {
        assert(chunked(rest@, size as int) =~= Seq::<Seq<String>>::empty());
        assert(chunks_view(chunks@) =~= chunks_view(chunks@) + chunked(rest@, size as int));
    }
    chunks
}

/// The number of chunks is the number of paths divided by the chunk size,
/// rounded up.
pub proof fn lemma_chunk_count(s: Seq<String>, size: int)
    requires
        size >= 1,
    ensures
        chunked(s, size).len() == (s.len() + size - 1) / size,
    decreases s.len(),
{
    let n = s.len() as int;
    if n == 0 {
        lemma_fundamental_div_mod_converse(size - 1, size, 0, size - 1);
    } else if n <= size {
        lemma_fundamental_div_mod_converse(n + size - 1, size, 1, n - 1);
    } else {
        lemma_chunk_count(s.skip(size), size);
        lemma_fundamental_div_mod(n - 1, size);
        lemma_mod_pos_bound(n - 1, size);
        let q = (n - 1) / size;
        let r = (n - 1) % size;
        assert((q + 1) * size == q * size + size) by (nonlinear_arith);
        lemma_fundamental_div_mod_converse(n + size - 1, size, q + 1, r);
        lemma_fundamental_div_mod_converse(n - size - 1 + size, size, q, r);
    }
}

/// Every chunk except the last holds exactly `size` paths.
pub proof fn lemma_full_chunks(s: Seq<String>, size: int, i: int)
    requires
        size >= 1,
        0 <= i < chunked(s, size).len() - 1,
    ensures
        chunked(s, size)[i].len() == size,
    decreases s.len(),
{
    let n = s.len() as int;
    if n == 0 || n <= size {
        // at most one chunk, so there is no index before the last
    } else if i == 0 {
        assert(chunked(s, size)[0] == s.take(size));
    } else {
        lemma_full_chunks(s.skip(size), size, i - 1);
    }
}

/// The last chunk holds the remainder of the division, or a full `size`
/// paths when the division is even.
pub proof fn lemma_last_chunk_len(s: Seq<String>, size: int)
    requires
        size >= 1,
        s.len() > 0,
    ensures
        chunked(s, size).last().len() == if s.len() as int % size == 0 {
            size
        } else {
            s.len() as int % size
        },
    decreases s.len(),
{
    let n = s.len() as int;
    if n < size {
        lemma_fundamental_div_mod_converse(n, size, 0, n);
    } else if n == size {
        assert(1 * size == size) by (nonlinear_arith);
        lemma_fundamental_div_mod_converse(n, size, 1, 0);
    } else {
        lemma_last_chunk_len(s.skip(size), size);
        lemma_fundamental_div_mod(n - size, size);
        lemma_mod_pos_bound(n - size, size);
        let q = (n - size) / size;
        let r = (n - size) % size;
        assert((q + 1) * size == q * size + size) by (nonlinear_arith);
        lemma_fundamental_div_mod_converse(n, size, q + 1, r);
        assert(chunked(s.skip(size), size).len() >= 1);
        assert(chunked(s, size).last() == chunked(s.skip(size), size).last());
    }
}

/// Joining the chunks in order gives the path list back: chunking loses no
/// path, invents none, and keeps the walk's order.
pub proof fn lemma_chunked_flatten(s: Seq<String>, size: int)
    requires
        size >= 1,
    ensures
        chunked(s, size).flatten() == s,
    decreases s.len(),
{
    let n = s.len() as int;
    if n == 0 {
        assert(chunked(s, size).flatten() =~= s);
    } else if n <= size {
        seq![s].lemma_flatten_one_element();
    } else {
        lemma_chunked_flatten(s.skip(size), size);
        lemma_flatten_concat(seq![s.take(size)], chunked(s.skip(size), size));
        seq![s.take(size)].lemma_flatten_one_element();
        assert(s.take(size) + s.skip(size) =~= s);
    }
}

} // verus!
