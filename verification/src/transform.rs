//! The streaming transform: a pure, per-chunk mapping of body bytes.
//!
//! A body is a finite sequence of chunks. The transform maps each chunk on
//! its own, so a caller may hand chunks over one at a time as they arrive and
//! emit each result before the next chunk is there.

use vstd::prelude::*;

verus! {

/// The ASCII-uppercase image of one byte: `a`..`z` move to `A`..`Z`, every
/// other byte (non-ASCII bytes included) stays as it is.
pub open spec fn upper_byte(b: u8) -> u8 {
    if 0x61 <= b && b <= 0x7a {
        (b - 0x20) as u8
    } else {
        b
    }
}

/// The element-wise uppercase image of a chunk.
pub open spec fn upper_bytes(chunk: Seq<u8>) -> Seq<u8> {
    Seq::new(chunk.len(), |i: int| upper_byte(chunk[i]))
}

/// The chunk-wise uppercase image of a body: same chunk count, same chunk
/// boundaries, same order.
pub open spec fn upper_chunks(chunks: Seq<Seq<u8>>) -> Seq<Seq<u8>> {
    Seq::new(chunks.len(), |i: int| upper_bytes(chunks[i]))
}

/// The chunks of a body as sequences of bytes.
pub open spec fn chunks_view(body: Seq<Vec<u8>>) -> Seq<Seq<u8>> {
    Seq::new(body.len(), |i: int| body[i]@)
}

/// All bytes of a body in order, chunk boundaries forgotten.
pub open spec fn flat_bytes(chunks: Seq<Seq<u8>>) -> Seq<u8>
    decreases chunks.len(),
{
    if chunks.len() == 0 {
        Seq::empty()
    } else {
        flat_bytes(chunks.drop_last()) + chunks.last()
    }
}

/// Trusted: `u8::to_ascii_uppercase` of std. Its documentation says that the
/// ASCII letters `a` to `z` are mapped to `A` to `Z` and that every other
/// byte is returned unchanged; the contract claims exactly that.
pub assume_specification[ u8::to_ascii_uppercase ](b: &u8) -> (r: u8)
    ensures
        r == upper_byte(*b),
;

/// Uppercases one byte.
pub fn uppercase_byte(b: u8) -> (r: u8)
    ensures
        r == upper_byte(b),
{
    b.to_ascii_uppercase()
}

/// Uppercases one chunk, byte for byte. The result has the length of the
/// input and depends on nothing but the input.
pub fn uppercase_chunk(chunk: &[u8]) -> (out: Vec<u8>)
    ensures
        out@ == upper_bytes(chunk@),
        out@.len() == chunk@.len(),
{
    let mut out: Vec<u8> = Vec::with_capacity(chunk.len());
    let mut i: usize = 0;
    while i < chunk.len()
        invariant
            i <= chunk@.len(),
            out@.len() == i,
            forall|j: int| 0 <= j < i ==> out@[j] == upper_byte(chunk@[j]),
        decreases chunk@.len() - i,
    {
        out.push(chunk[i].to_ascii_uppercase());
        i += 1;
    }
    assert(out@ =~= upper_bytes(chunk@));
    out
}

/// Transforms one item of an incoming body. A chunk comes out uppercased; a
/// transport failure comes out as it went in, so the output fails at the
/// point that the input reached, after everything emitted before it.
pub fn uppercase_item<E>(item: Result<Vec<u8>, E>) -> (out: Result<Vec<u8>, E>)
    ensures
        match item {
            Ok(chunk) => out is Ok && out->Ok_0@ == upper_bytes(chunk@),
            Err(failure) => out is Err && out->Err_0 == failure,
        },
{
    match item {
        Ok(chunk) => Ok(uppercase_chunk(chunk.as_slice())),
        Err(failure) => Err(failure),
    }
}

/// Uppercases a whole body that is already at hand, chunk by chunk, keeping
/// the chunk count, the chunk boundaries and the order.
pub fn uppercase_transform(body: &Vec<Vec<u8>>) -> (out: Vec<Vec<u8>>)
    ensures
        chunks_view(out@) == upper_chunks(chunks_view(body@)),
        out@.len() == body@.len(),
        forall|i: int| 0 <= i < body@.len() ==> (#[trigger] out@[i])@.len() == body@[i]@.len(),
{
    let mut out: Vec<Vec<u8>> = Vec::with_capacity(body.len());
    let mut i: usize = 0;
    while i < body.len()
        invariant
            i <= body@.len(),
            out@.len() == i,
            forall|j: int| 0 <= j < i ==> out@[j]@ == upper_bytes(body@[j]@),
        decreases body@.len() - i,
    {
        out.push(uppercase_chunk(body[i].as_slice()));
        i += 1;
    }
    assert(chunks_view(out@) =~= upper_chunks(chunks_view(body@)));
    out
}

/// Hands a body back as it came: the echo.
pub fn echo(body: Vec<Vec<u8>>) -> (out: Vec<Vec<u8>>)
    ensures
        out == body,
{
    body
}

/// Uppercasing keeps the chunk count and the length of every chunk, and each
/// output byte is the ASCII-uppercase image of the input byte at its place.
pub proof fn lemma_upper_keeps_shape(chunks: Seq<Seq<u8>>)
    ensures
        upper_chunks(chunks).len() == chunks.len(),
        forall|i: int|
            0 <= i < chunks.len() ==> (#[trigger] upper_chunks(chunks)[i]).len()
                == chunks[i].len(),
        forall|i: int, j: int|
            0 <= i < chunks.len() && 0 <= j < chunks[i].len() ==> #[trigger] upper_chunks(
                chunks,
            )[i][j] == upper_byte(chunks[i][j]),
{
}

/// Uppercasing commutes with forgetting the chunk boundaries: the bytes of
/// the transformed body are the transformed bytes of the body, and so the
/// total length is kept.
pub proof fn lemma_upper_flat(chunks: Seq<Seq<u8>>)
    ensures
        flat_bytes(upper_chunks(chunks)) == upper_bytes(flat_bytes(chunks)),
        flat_bytes(upper_chunks(chunks)).len() == flat_bytes(chunks).len(),
    decreases chunks.len(),
{
    if chunks.len() > 0 {
        let init = chunks.drop_last();
        lemma_upper_flat(init);
        assert(upper_chunks(chunks).drop_last() =~= upper_chunks(init));
        assert(upper_chunks(chunks).last() == upper_bytes(chunks.last()));
        assert(upper_bytes(flat_bytes(init)) + upper_bytes(chunks.last()) =~= upper_bytes(
            flat_bytes(init) + chunks.last(),
        ));
    } else {
        assert(flat_bytes(upper_chunks(chunks)) =~= upper_bytes(flat_bytes(chunks)));
    }
}

/// Uppercasing a byte twice is uppercasing it once.
pub proof fn lemma_upper_byte_idempotent(b: u8)
    ensures
        upper_byte(upper_byte(b)) == upper_byte(b),
{
}

/// Idempotence: transforming a transformed body changes nothing. It holds of
/// every body, ASCII-only or not.
pub proof fn lemma_upper_idempotent(chunks: Seq<Seq<u8>>)
    ensures
        upper_chunks(upper_chunks(chunks)) == upper_chunks(chunks),
{
    assert forall|i: int| 0 <= i < chunks.len() implies #[trigger] upper_chunks(
        upper_chunks(chunks),
    )[i] == upper_chunks(chunks)[i] by {
        assert(upper_bytes(upper_bytes(chunks[i])) =~= upper_bytes(chunks[i]));
    }
    assert(upper_chunks(upper_chunks(chunks)) =~= upper_chunks(chunks));
}

} // verus!
