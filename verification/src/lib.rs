//! Streaming line splitter.
//!
//! Bytes are pulled incrementally from a `std::io::BufRead` source and
//! complete lines are handed out one per call. A line ends at `\n` or at
//! `\r\n`; a carriage return that is not immediately followed by a line
//! feed is ordinary content. Trailing bytes that never receive a
//! terminator are not surfaced as a line.

pub mod laws;
pub mod reader;
pub mod scan;
pub mod step;

pub use laws::lemma_carry_bounded;
pub use laws::lemma_exhaustion_idempotent;
pub use laws::lemma_no_line_feed_no_line;
pub use laws::lemma_no_line_feed_no_lines_ever;
pub use laws::lemma_run_reconstructs_input;
pub use laws::lemma_step_reconstructs_input;
pub use reader::StreamError;
pub use reader::StreamReader;
pub use scan::find_new_line;
