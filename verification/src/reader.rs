//! The incremental reader: an internal buffer over a `std::io::BufRead`
//! source, yielding one complete line per call.
//!
//! The buffer accumulates unterminated content across partial reads.
//! When a call completes a line the buffer holds exactly that line's
//! bytes, and instead of being emptied at once it is marked for clearing
//! at the start of the next call — the deferred trim that lets the
//! previous result settle before the buffer is touched again.

use std::io::BufRead;

use vstd::prelude::*;

use crate::scan::CR;
use crate::scan::find_new_line;
use crate::scan::no_lf;
use crate::scan::lemma_scan_props;
use crate::step::step_eaten;
use crate::step::step_held;
use crate::step::step_line;
use crate::step::step_output;

verus! {

/// Failure of the underlying byte source: its read reported an error.
/// The reader's buffered state is left as it was, so the call may be
/// retried once the source recovers.
#[derive(Clone, Copy, Debug, PartialEq, Eq, Structural)]
pub enum StreamError {
    /// The source's read operation failed.
    Source,
}

/// Incremental line reader over a buffered byte source.
#[derive(Clone, Debug)]
pub struct StreamReader<T> {
    /// The underlying byte source.
    pub inner: T,
    buffer: Vec<u8>,
    clear_next: bool,
}

/// The spec-level view of a returned line: its bytes, if one was
/// returned.
pub open spec fn opt_view(o: Option<Vec<u8>>) -> Option<Seq<u8>> {
    match o {
        Some(v) => Some(v@),
        None => None,
    }
}

impl<T> StreamReader<T> {
    /// The underlying source, as contracts speak of it.
    pub closed spec fn source(self) -> T {
        self.inner
    }

    /// The unterminated content this reader carries: the buffer, except
    /// that a buffer only kept so the previous call's line could be
    /// returned (and due to be cleared next call) no longer counts.
    pub closed spec fn held(self) -> Seq<u8> {
        if self.clear_next {
            Seq::empty()
        } else {
            self.buffer@
        }
    }

    /// Well-formed reader: the carried content contains no line feed —
    /// had one been read, the line it terminates would already have been
    /// returned.
    pub closed spec fn wf(self) -> bool {
        no_lf(self.held())
    }

    /// Feed the reader the bytes the source currently shows, without
    /// consuming them from the source; this is the whole decision a
    /// `line` call makes. Returns how many of the chunk's bytes the
    /// caller must consume from the source, the end-of-stream flag, and
    /// the completed line, if any.
    pub fn feed(&mut self, chunk: &[u8]) -> (r: (usize, bool, Option<Vec<u8>>))
        ensures
            r.0 as int == step_eaten(old(self).held(), chunk@),
            r.0 <= chunk@.len(),
            (r.1, opt_view(r.2)) == step_output(old(self).held(), chunk@),
            final(self).held() == step_held(old(self).held(), chunk@),
            final(self).source() == old(self).source(),
            old(self).wf() ==> final(self).wf(),
    {
        if self.clear_next {
            self.buffer.clear();
        }
        self.clear_next = false;

        let ghost b = self.buffer@;
        proof {
            lemma_scan_props(chunk@);
        }
        match find_new_line(chunk) {
            Some((pos, size)) => {
                if pos == 0 {
                    if size == 1 && self.buffer.len() > 0 && self.buffer[self.buffer.len() - 1]
                        == CR {
                        // the carry ends with `\r` and the chunk starts with
                        // `\n`: a two-byte terminator split across reads
                        self.buffer.pop();
                        assert(self.buffer@ =~= b.drop_last());
                    }
                } else {
                    extend_bytes(&mut self.buffer, chunk, pos);
                }
                self.clear_next = true;
                let out = clone_bytes(&self.buffer);
                assert(out@ == step_line(b, chunk@));
                let shown: usize = chunk.len();
                assert(pos + size <= shown);
                (pos + size, false, Some(out))
            },
            None => {
                extend_bytes(&mut self.buffer, chunk, chunk.len());
                assert(chunk@.take(chunk@.len() as int) =~= chunk@);
                let eos = chunk.len() == 0;
                proof {
                    if old(self).wf() {
                        assert(no_lf(b + chunk@));
                    }
                }
                (chunk.len(), eos, None)
            },
        }
    }
}

impl<T: BufRead> StreamReader<T> {
    /// Wrap a byte source; the reader starts with nothing carried over.
    pub fn new(inner: T) -> (r: StreamReader<T>)
        ensures
            r.source() == inner,
            r.held() == Seq::<u8>::empty(),
            r.wf(),
    {
        StreamReader { inner, buffer: Vec::new(), clear_next: false }
    }

    /// Retrieve the next line.
    ///
    /// `Ok((false, Some(bytes)))` is a completed line, terminator
    /// stripped; `Ok((false, None))` means no line is ready yet but the
    /// source showed bytes; `Ok((true, None))` is the end of the stream.
    /// `Err` propagates a source failure and leaves the carried content
    /// as it was. Whatever chunk the source showed, the outcome and the
    /// new state are exactly those of feeding that chunk.
    pub fn line(&mut self) -> (res: Result<(bool, Option<Vec<u8>>), StreamError>)
        ensures
            match res {
                Ok(r) => exists|c: Seq<u8>|
                    {
                        &&& (r.0, opt_view(r.1)) == #[trigger] step_output(old(self).held(), c)
                        &&& final(self).held() == step_held(old(self).held(), c)
                    },
                Err(_) => final(self).held() == old(self).held(),
            },
            res matches Ok(r) && r.0 ==> final(self).held() == old(self).held(),
            old(self).wf() ==> final(self).wf(),
    {
        let chunk = match peek_source(&mut self.inner) {
            Ok(c) => c,
            Err(e) => {
                return Err(e);
            },
        };
        let (eaten, eos, out) = self.feed(chunk.as_slice());
        if eaten > 0 {
            consume_source(&mut self.inner, eaten);
        }
        proof {
            let c = chunk@;
            assert((eos, opt_view(out)) == step_output(old(self).held(), c));
            if eos {
                assert(self.held() == old(self).held());
            }
        }
        Ok((eos, out))
    }
}

/// Append the first `n` bytes of `chunk` to `dst`.
fn extend_bytes(dst: &mut Vec<u8>, chunk: &[u8], n: usize)
    requires
        n <= chunk@.len(),
    ensures
        final(dst)@ == old(dst)@ + chunk@.take(n as int),
{
    let mut i: usize = 0;
    while i < n
        invariant
            i <= n <= chunk@.len(),
            dst@ == old(dst)@ + chunk@.take(i as int),
        decreases n - i,
    {
        dst.push(chunk[i]);
        assert(dst@ =~= old(dst)@ + chunk@.take(i + 1));
        i = i + 1;
    }
}

/// An owned copy of `src`.
fn clone_bytes(src: &Vec<u8>) -> (r: Vec<u8>)
    ensures
        r@ == src@,
{
    let mut out: Vec<u8> = Vec::new();
    let mut i: usize = 0;
    while i < src.len()
        invariant
            i <= src@.len(),
            out@ == src@.take(i as int),
        decreases src@.len() - i,
    {
        out.push(src[i]);
        assert(out@ =~= src@.take(i + 1));
        i = i + 1;
    }
    assert(src@.take(src@.len() as int) =~= src@);
    out
}

/// Relies on `std::io::BufRead::fill_buf`: shows the source's currently
/// buffered bytes without consuming them, reading more from the
/// underlying stream only when that buffer is empty; an empty result
/// means the stream is exhausted for now. The bytes are copied out so
/// the borrow ends here; a read failure is mapped to the library's
/// error.
#[verifier::external_body]
fn peek_source<T: BufRead>(source: &mut T) -> (r: Result<Vec<u8>, StreamError>) {
    match source.fill_buf() {
        Ok(bytes) => Ok(bytes.to_vec()),
        Err(_) => Err(StreamError::Source),
    }
}

/// Relies on `std::io::BufRead::consume`: marks `amt` bytes of the
/// source's buffered data — previously shown by `fill_buf` — as read, so
/// they are not shown again. Callers pass at most the length last shown.
#[verifier::external_body]
fn consume_source<T: BufRead>(source: &mut T, amt: usize) {
    source.consume(amt);
}

} // verus!
