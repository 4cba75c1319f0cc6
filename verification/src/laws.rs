//! The properties the splitter is built around, each proved of the
//! transition spec that `StreamReader::feed` and `StreamReader::line`
//! are verified against.

use vstd::prelude::*;

use crate::scan::CR;
use crate::scan::LF;
use crate::scan::lemma_scan_props;
use crate::scan::no_lf;
use crate::scan::scan_spec;
use crate::step::line_ready;
use crate::step::run_consumed;
use crate::step::run_emitted;
use crate::step::run_held;
use crate::step::step_eaten;
use crate::step::step_emitted;
use crate::step::step_held;
use crate::step::step_output;
use crate::step::straddles_cr;

verus! {

/// One call accounts for every byte: the carry plus the bytes the call
/// consumes from the source equal the returned line with its original
/// terminator (when a line is completed) followed by the new carry.
/// Concatenating each line plus its terminator, and the final carry,
/// therefore reconstructs the input exactly.
pub proof fn lemma_step_reconstructs_input(b: Seq<u8>, c: Seq<u8>)
    ensures
        b + c.take(step_eaten(b, c)) == step_emitted(b, c) + step_held(b, c),
{
    lemma_scan_props(c);
    match scan_spec(c) {
        Some((pos, size)) => {
            if straddles_cr(b, c) {
                assert(c.take(1) =~= seq![LF]);
                assert(b.drop_last() + seq![CR, LF] =~= b + c.take(1));
            } else if pos == 0 {
                if size == 1 {
                    assert(c.take(1) =~= seq![LF]);
                } else {
                    assert(c.take(2) =~= seq![CR, LF]);
                }
            } else {
                if size == 1 {
                    assert((b + c.take(pos)) + seq![LF] =~= b + c.take(pos + 1));
                } else {
                    assert((b + c.take(pos)) + seq![CR, LF] =~= b + c.take(pos + 2));
                }
            }
            assert(step_emitted(b, c) + step_held(b, c) =~= step_emitted(b, c));
        },
        None => {
            assert(c.take(c.len() as int) =~= c);
            assert(step_emitted(b, c) + step_held(b, c) =~= b + c);
        },
    }
}

/// A whole run accounts for every byte: starting from carry `b`, feeding
/// any sequence of chunks, the carry plus everything consumed from the
/// source equals every emitted line with its terminator followed by the
/// final carry — the round-trip property for all inputs.
pub proof fn lemma_run_reconstructs_input(b: Seq<u8>, chunks: Seq<Seq<u8>>)
    ensures
        b + run_consumed(b, chunks) == run_emitted(b, chunks) + run_held(b, chunks),
    decreases chunks.len(),
{
    if chunks.len() == 0 {
        assert(b + run_consumed(b, chunks) =~= b);
        assert(run_emitted(b, chunks) + run_held(b, chunks) =~= b);
    } else {
        let c = chunks.first();
        let h = step_held(b, c);
        let rest = chunks.drop_first();
        lemma_step_reconstructs_input(b, c);
        lemma_run_reconstructs_input(h, rest);
        assert(b + run_consumed(b, chunks) =~= (b + c.take(step_eaten(b, c))) + run_consumed(
            h,
            rest,
        ));
        assert((step_emitted(b, c) + h) + run_consumed(h, rest) =~= step_emitted(b, c) + (h
            + run_consumed(h, rest)));
        assert(step_emitted(b, c) + (run_emitted(h, rest) + run_held(h, rest)) =~= run_emitted(
            b,
            chunks,
        ) + run_held(b, chunks));
    }
}

/// Exhaustion is idempotent: an empty chunk — a source with nothing
/// left — reports end of stream, consumes nothing and changes nothing,
/// so every later call on the unchanged carry reports end of stream
/// again.
pub proof fn lemma_exhaustion_idempotent(b: Seq<u8>)
    ensures
        step_output(b, Seq::<u8>::empty()) == (true, None::<Seq<u8>>),
        step_held(b, Seq::<u8>::empty()) == b,
        step_eaten(b, Seq::<u8>::empty()) == 0,
{
    assert(b + Seq::<u8>::empty() =~= b);
}

/// A carriage return with no line feed anywhere after it never breaks a
/// line: a chunk without a line feed — however many `\r` it holds —
/// completes no line, and everything is retained.
pub proof fn lemma_no_line_feed_no_line(b: Seq<u8>, c: Seq<u8>)
    requires
        no_lf(c),
    ensures
        step_output(b, c).1 is None,
        step_held(b, c) == b + c,
{
    lemma_scan_props(c);
    if scan_spec(c) is Some {
        let (pos, size): (int, int) = scan_spec(c)->Some_0;
        if size == 1 {
            assert(c[pos] == LF);
        } else {
            assert(c[pos + 1] == LF);
        }
    }
}

/// However long it goes on, a stream with no line feed anywhere left in
/// it yields no line at all — every `\r` in it is retained as content,
/// never taken for a line break.
pub proof fn lemma_no_line_feed_no_lines_ever(b: Seq<u8>, chunks: Seq<Seq<u8>>)
    requires
        forall|k: int| 0 <= k < chunks.len() ==> no_lf(#[trigger] chunks[k]),
    ensures
        run_emitted(b, chunks) == Seq::<u8>::empty(),
    decreases chunks.len(),
{
    if chunks.len() > 0 {
        let c = chunks.first();
        assert(c == chunks[0]);
        lemma_no_line_feed_no_line(b, c);
        assert(forall|k: int|
            0 <= k < chunks.drop_first().len() ==> #[trigger] chunks.drop_first()[k] == chunks[k
            + 1]);
        lemma_no_line_feed_no_lines_ever(step_held(b, c), chunks.drop_first());
        assert(run_emitted(b, chunks) =~= Seq::<u8>::empty());
    }
}

/// The carry never outgrows the input that feeds it: it is bounded by
/// the unterminated content so far plus one chunk, and completing a line
/// resets it to empty — many short terminated lines cannot make it grow.
pub proof fn lemma_carry_bounded(b: Seq<u8>, c: Seq<u8>)
    ensures
        step_held(b, c).len() <= b.len() + c.len(),
        line_ready(c) ==> step_held(b, c).len() == 0,
{
}

} // verus!
