//! Splitting of long texts into bounded, ordered, end-marked pieces.

use vstd::prelude::*;
use vstd::string::*;

verus! {

/// Upper bound on the number of characters carried by one chunk.
pub const CHUNK_SIZE: usize = 1500;

/// One piece of a longer text, with its position and the end marker.
#[derive(Debug)]
pub struct Chunk {
    pub text: String,
    pub count: usize,
    pub end: bool,
}

/// Number of chunks that a text of `len` characters is split into.
///
/// The empty text still yields one (empty) chunk.
pub open spec fn chunk_count(len: nat) -> nat {
    if len == 0 {
        1
    } else {
        ((len - 1) / (CHUNK_SIZE as int) + 1) as nat
    }
}

/// First character position of chunk `index`, clipped to the text.
pub open spec fn chunk_start(len: nat, index: int) -> int {
    if index * CHUNK_SIZE <= len {
        index * CHUNK_SIZE
    } else {
        len as int
    }
}

/// Characters `[index * CHUNK_SIZE, index * CHUNK_SIZE + CHUNK_SIZE)` of `text`.
pub open spec fn chunk_at(text: Seq<char>, index: int) -> Seq<char> {
    text.subrange(chunk_start(text.len(), index), chunk_start(text.len(), index + 1))
}

/// Whether `index` is the last chunk of a text of `len` characters.
pub open spec fn is_last_chunk(len: nat, index: int) -> bool {
    index + 1 == chunk_count(len)
}

/// The chunk texts of `text`, in ascending order of their index.
pub open spec fn chunk_texts(text: Seq<char>) -> Seq<Seq<char>> {
    Seq::new(chunk_count(text.len()), |i: int| chunk_at(text, i))
}

/// What `chunk` has to hold to be chunk `index` of `text`.
pub open spec fn is_chunk_of(chunk: Chunk, text: Seq<char>, index: int) -> bool {
    &&& chunk.text@ == chunk_at(text, index)
    &&& chunk.count == index
    &&& chunk.end == is_last_chunk(text.len(), index)
}

proof fn lemma_chunk_count_bounds(len: nat)
    ensures
        chunk_count(len) >= 1,
        (chunk_count(len) - 1) * CHUNK_SIZE <= len,
        len <= chunk_count(len) * CHUNK_SIZE,
        len > 0 ==> (chunk_count(len) - 1) * CHUNK_SIZE < len,
        chunk_count(len) <= len + 1,
{
    if len > 0 {
        let q = (len - 1) / (CHUNK_SIZE as int);
        assert(q * 1500 <= len - 1 < q * 1500 + 1500) by (nonlinear_arith)
            requires
                q == (len - 1) / 1500,
                len >= 1,
        ;
    }
}

/// Every chunk holds at most `CHUNK_SIZE` characters, and every chunk but the
/// last holds exactly that many.
pub proof fn lemma_chunk_lengths(text: Seq<char>, index: int)
    requires
        0 <= index < chunk_count(text.len()),
    ensures
        chunk_at(text, index).len() <= CHUNK_SIZE,
        !is_last_chunk(text.len(), index) ==> chunk_at(text, index).len() == CHUNK_SIZE,
        is_last_chunk(text.len(), index) ==> chunk_at(text, index).len() == text.len() - index
            * CHUNK_SIZE,
{
    lemma_chunk_count_bounds(text.len());
    let n = chunk_count(text.len()) as int;
    assert(index * 1500 <= (n - 1) * 1500) by (nonlinear_arith)
        requires
            index <= n - 1,
    ;
    if index + 1 < n {
        assert((index + 1) * 1500 <= (n - 1) * 1500) by (nonlinear_arith)
            requires
                index + 1 <= n - 1,
        ;
    }
    assert((index + 1) * 1500 == index * 1500 + 1500) by (nonlinear_arith);
}

proof fn lemma_prefix_flatten(text: Seq<char>, k: int)
    requires
        0 <= k <= chunk_count(text.len()),
    ensures
        chunk_texts(text).take(k).flatten() == text.take(chunk_start(text.len(), k)),
    decreases k,
{
    let parts = chunk_texts(text);
    if k == 0 {
        assert(parts.take(0) =~= Seq::<Seq<char>>::empty());
        assert(text.take(0) =~= Seq::<char>::empty());
    } else {
        lemma_prefix_flatten(text, k - 1);
        lemma_chunk_lengths(text, k - 1);
        lemma_chunk_count_bounds(text.len());
        assert(parts.take(k) =~= parts.take(k - 1).push(chunk_at(text, k - 1)));
        parts.take(k - 1).lemma_flatten_push(chunk_at(text, k - 1));
        assert((k - 1) * 1500 <= (chunk_count(text.len()) - 1) * 1500) by (nonlinear_arith)
            requires
                k - 1 <= chunk_count(text.len()) - 1,
        ;
        assert(text.take(chunk_start(text.len(), k - 1)) + chunk_at(text, k - 1) =~= text.take(
            chunk_start(text.len(), k),
        ));
    }
}

/// Joining the chunks of a text in ascending order of their index gives the
/// text back.
pub proof fn lemma_chunks_reassemble(text: Seq<char>)
    ensures
        chunk_texts(text).flatten() == text,
{
    let n = chunk_count(text.len()) as int;
    lemma_prefix_flatten(text, n);
    lemma_chunk_count_bounds(text.len());
    assert(chunk_texts(text).take(n) =~= chunk_texts(text));
    assert(n * 1500 == (n - 1) * 1500 + 1500) by (nonlinear_arith);
    assert(text.take(chunk_start(text.len(), n)) =~= text);
}

/// Whatever `split_chunks` can return for `text`: joined in ascending order
/// of `count`, the chunks give `text` back, and the one chunk that carries
/// the end marker is the last one.
pub proof fn lemma_split_round_trip(chunks: Seq<Chunk>, text: Seq<char>)
    requires
        chunks.len() == chunk_count(text.len()),
        forall|i: int| 0 <= i < chunks.len() ==> is_chunk_of(#[trigger] chunks[i], text, i),
    ensures
        chunks.map_values(|chunk: Chunk| chunk.text@).flatten() == text,
        forall|i: int| 0 <= i < chunks.len() ==> (#[trigger] chunks[i]).count == i,
        forall|i: int|
            0 <= i < chunks.len() ==> ((#[trigger] chunks[i]).end <==> i == chunks.len() - 1),
        chunks.len() >= 1,
{
    lemma_chunks_reassemble(text);
    assert(chunks.map_values(|chunk: Chunk| chunk.text@) =~= chunk_texts(text));
}

/// Number of chunks of a text of `len` characters.
pub fn count_chunks(len: usize) -> (total: usize)
    ensures
        total == chunk_count(len as nat),
{
    if len == 0 {
        1
    } else {
        (len - 1) / CHUNK_SIZE + 1
    }
}

/// Chunk `index` of `text`.
pub fn chunk_of(text: &str, index: usize) -> (chunk: Chunk)
    requires
        index < chunk_count(text@.len()),
    ensures
        is_chunk_of(chunk, text@, index as int),
{
    let len: usize = text.unicode_len();
    let total: usize = count_chunks(len);
    proof {
        lemma_chunk_count_bounds(len as nat);
        lemma_chunk_lengths(text@, index as int);
        assert(index * 1500 <= (total - 1) * 1500) by (nonlinear_arith)
            requires
                index <= total - 1,
        ;
        assert((index + 1) * 1500 == index * 1500 + 1500) by (nonlinear_arith);
    }
    let from: usize = index * CHUNK_SIZE;
    let to: usize = if len - from > CHUNK_SIZE {
        from + CHUNK_SIZE
    } else {
        len
    };
    let piece = text.substring_char(from, to);
    Chunk { text: String::from_str(piece), count: index, end: index + 1 == total }
}

/// Splits `text` into its chunks, in ascending order of their index.
pub fn split_chunks(text: &str) -> (chunks: Vec<Chunk>)
    ensures
        chunks@.len() == chunk_count(text@.len()),
        forall|i: int| 0 <= i < chunks@.len() ==> is_chunk_of(#[trigger] chunks@[i], text@, i),
{
    let total: usize = count_chunks(text.unicode_len());
    let mut chunks: Vec<Chunk> = Vec::new();
    let mut index: usize = 0;
    while index < total
        invariant
            index <= total,
            total == chunk_count(text@.len()),
            chunks@.len() == index,
            forall|i: int| 0 <= i < chunks@.len() ==> is_chunk_of(#[trigger] chunks@[i], text@, i),
        decreases total - index,
    {
        chunks.push(chunk_of(text, index));
        index = index + 1;
    }
    chunks
}

} // verus!
