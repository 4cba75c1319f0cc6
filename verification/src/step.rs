//! The transition one `line` call makes, as a function of what the
//! reader already held and the chunk the source shows it.
//!
//! `b` is the unterminated content carried over from earlier calls (it
//! contains no `\n`); `c` is the chunk the source currently exposes. One
//! call either completes a line, retains everything for later, or — on
//! an empty chunk — reports the end of the stream.

use vstd::prelude::*;

use crate::scan::CR;
use crate::scan::LF;
use crate::scan::scan_spec;

verus! {

/// The chunk contains a terminator, so a line is completed this call.
pub open spec fn line_ready(c: Seq<u8>) -> bool {
    scan_spec(c) is Some
}

/// The terminator straddles the carry and the chunk: the carry ends with
/// `\r` and the chunk starts with the matching `\n`, so that `\r` is the
/// first byte of a two-byte terminator, not content.
pub open spec fn straddles_cr(b: Seq<u8>, c: Seq<u8>) -> bool {
    match scan_spec(c) {
        Some((pos, size)) => pos == 0 && size == 1 && b.len() > 0 && b.last() == CR,
        None => false,
    }
}

/// Content of the line completed by this call.
pub open spec fn step_line(b: Seq<u8>, c: Seq<u8>) -> Seq<u8>
    recommends
        line_ready(c),
{
    let (pos, _size): (int, int) = scan_spec(c)->Some_0;
    if straddles_cr(b, c) {
        b.drop_last()
    } else if pos == 0 {
        b
    } else {
        b + c.take(pos)
    }
}

/// The completed line's terminator as it stood in the input: `\r\n` when
/// the scan saw two bytes or when the `\r` came from the carry, `\n`
/// otherwise.
pub open spec fn step_terminator(b: Seq<u8>, c: Seq<u8>) -> Seq<u8>
    recommends
        line_ready(c),
{
    let (_pos, size): (int, int) = scan_spec(c)->Some_0;
    if size == 2 || straddles_cr(b, c) {
        seq![CR, LF]
    } else {
        seq![LF]
    }
}

/// How many bytes of the chunk this call consumes from the source: up to
/// and including the terminator when one is found, the whole chunk
/// otherwise.
pub open spec fn step_eaten(b: Seq<u8>, c: Seq<u8>) -> int {
    match scan_spec(c) {
        Some((pos, size)) => pos + size,
        None => c.len() as int,
    }
}

/// The unterminated content carried into the next call: nothing once a
/// line is completed, the carry plus the whole chunk otherwise.
pub open spec fn step_held(b: Seq<u8>, c: Seq<u8>) -> Seq<u8> {
    if line_ready(c) {
        Seq::empty()
    } else {
        b + c
    }
}

/// What the call reports: the flag is true exactly on end of stream (an
/// empty chunk with no line ready), and the option carries the completed
/// line's content when one is ready.
pub open spec fn step_output(b: Seq<u8>, c: Seq<u8>) -> (bool, Option<Seq<u8>>) {
    if line_ready(c) {
        (false, Some(step_line(b, c)))
    } else if c.len() == 0 {
        (true, None)
    } else {
        (false, None)
    }
}

/// The bytes this call surfaces to the caller, terminator included:
/// empty when no line is completed.
pub open spec fn step_emitted(b: Seq<u8>, c: Seq<u8>) -> Seq<u8> {
    if line_ready(c) {
        step_line(b, c) + step_terminator(b, c)
    } else {
        Seq::empty()
    }
}

/// The carry left after a whole run: starting from `b`, each chunk in
/// turn is fed to the reader.
pub open spec fn run_held(b: Seq<u8>, chunks: Seq<Seq<u8>>) -> Seq<u8>
    decreases chunks.len(),
{
    if chunks.len() == 0 {
        b
    } else {
        run_held(step_held(b, chunks.first()), chunks.drop_first())
    }
}

/// Everything a whole run surfaces: each completed line followed by its
/// terminator, in order.
pub open spec fn run_emitted(b: Seq<u8>, chunks: Seq<Seq<u8>>) -> Seq<u8>
    decreases chunks.len(),
{
    if chunks.len() == 0 {
        Seq::empty()
    } else {
        step_emitted(b, chunks.first()) + run_emitted(
            step_held(b, chunks.first()),
            chunks.drop_first(),
        )
    }
}

/// Everything a whole run consumes from the source, in order.
pub open spec fn run_consumed(b: Seq<u8>, chunks: Seq<Seq<u8>>) -> Seq<u8>
    decreases chunks.len(),
{
    if chunks.len() == 0 {
        Seq::empty()
    } else {
        chunks.first().take(step_eaten(b, chunks.first())) + run_consumed(
            step_held(b, chunks.first()),
            chunks.drop_first(),
        )
    }
}

} // verus!
