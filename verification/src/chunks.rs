//! Chunk splitting of cleaned Markdown, with parameter validation: an
//! overlap at or above the chunk size is a configuration error answered
//! with an empty result, never a crash.

use vstd::prelude::*;

use crate::chars::str_views;
use crate::outside::chunks_of;
use crate::outside::splitter_chunks;

verus! {

/// Whether a chunk-size/overlap pair is usable: the size is positive and
/// the overlap, when given, is strictly below it.
pub open spec fn valid_chunking(chunk_size: usize, chunk_overlap: Option<usize>) -> bool {
    chunk_size > 0 && (chunk_overlap is Some ==> chunk_overlap->0 < chunk_size)
}

/// The overlap actually applied: the given one, or zero when none is
/// given.
pub open spec fn overlap_value(chunk_overlap: Option<usize>) -> int {
    match chunk_overlap {
        Some(o) => o as int,
        None => 0,
    }
}

/// Splits Markdown into semantically bounded chunks of at most
/// `chunk_size` characters, consecutive chunks overlapping by
/// `chunk_overlap` when one is given.  Invalid parameters (a zero size,
/// or an overlap not strictly below the size) yield an empty sequence.
pub fn split_markdown(markdown: &str, chunk_size: usize, chunk_overlap: Option<usize>) -> (r: Vec<
    String,
>)
    ensures
        valid_chunking(chunk_size, chunk_overlap) ==> str_views(r@) == chunks_of(
            markdown@,
            chunk_size as int,
            overlap_value(chunk_overlap),
        ),
        !valid_chunking(chunk_size, chunk_overlap) ==> r@.len() == 0,
{
    if chunk_size == 0 {
        return Vec::new();
    }
    let overlap: usize = match chunk_overlap {
        Some(o) => {
            if o >= chunk_size {
                return Vec::new();
            }
            o
        },
        None => 0,
    };
    splitter_chunks(markdown, chunk_size, overlap)
}

} // verus!
