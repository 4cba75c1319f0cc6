use std::io::Cursor;

use stream_line_reader::StreamError;
use stream_line_reader::StreamReader;

/// A source whose script is a list of entries: `Some(bytes)` is data to
/// show, `None` is one read failure.
struct ScriptedSource {
    entries: Vec<Option<Vec<u8>>>,
    next: usize,
    pos: usize,
}

impl ScriptedSource {
    fn new(entries: Vec<Option<Vec<u8>>>) -> ScriptedSource {
        ScriptedSource { entries, next: 0, pos: 0 }
    }
}

impl std::io::Read for ScriptedSource {
    fn read(&mut self, buf: &mut [u8]) -> std::io::Result<usize> {
        let shown = std::io::BufRead::fill_buf(self)?;
        let n = shown.len().min(buf.len());
        buf[..n].copy_from_slice(&shown[..n]);
        std::io::BufRead::consume(self, n);
        Ok(n)
    }
}

impl std::io::BufRead for ScriptedSource {
    fn fill_buf(&mut self) -> std::io::Result<&[u8]> {
        loop {
            match self.entries.get(self.next) {
                None => return Ok(&[]),
                Some(None) => {
                    self.next += 1;
                    self.pos = 0;
                    return Err(std::io::Error::new(
                        std::io::ErrorKind::Other,
                        "scripted failure",
                    ));
                }
                Some(Some(bytes)) => {
                    if self.pos < bytes.len() {
                        break;
                    }
                    self.next += 1;
                    self.pos = 0;
                }
            }
        }
        match &self.entries[self.next] {
            Some(bytes) => Ok(&bytes[self.pos..]),
            None => unreachable!(),
        }
    }

    fn consume(&mut self, amt: usize) {
        self.pos += amt;
    }
}

#[test]
fn end_of_stream_is_idempotent() {
    let mut r = StreamReader::new(Cursor::new(&b"12\n"[..]));
    assert_eq!(r.line().unwrap(), (false, Some(b"12".to_vec())));
    assert_eq!(r.line().unwrap(), (true, None));
    assert_eq!(r.line().unwrap(), (true, None));
    assert_eq!(r.line().unwrap(), (true, None));
}

#[test]
fn lone_cr_is_content_not_terminator() {
    let mut r = StreamReader::new(Cursor::new(&b"aa\rbb"[..]));
    assert_eq!(r.line().unwrap(), (false, None));
    assert_eq!(r.line().unwrap(), (true, None));
    assert_eq!(r.line().unwrap(), (true, None));
}

#[test]
fn terminator_split_across_reads() {
    let mut r = StreamReader::new(ScriptedSource::new(vec![
        Some(b"abc\r".to_vec()),
        Some(b"\ndef\n".to_vec()),
    ]));
    assert_eq!(r.line().unwrap(), (false, None));
    assert_eq!(r.line().unwrap(), (false, Some(b"abc".to_vec())));
    assert_eq!(r.line().unwrap(), (false, Some(b"def".to_vec())));
    assert_eq!(r.line().unwrap(), (true, None));
}

#[test]
fn split_terminator_is_one_terminator_not_two_lines() {
    // were `\r` alone treated as a terminator, this would yield "abc"
    // and then an empty line
    let mut r = StreamReader::new(ScriptedSource::new(vec![
        Some(b"abc\r".to_vec()),
        Some(b"\n".to_vec()),
    ]));
    assert_eq!(r.line().unwrap(), (false, None));
    assert_eq!(r.line().unwrap(), (false, Some(b"abc".to_vec())));
    assert_eq!(r.line().unwrap(), (true, None));
}

#[test]
fn cr_before_crlf_stays_in_the_line() {
    // the terminator is exactly `\r\n`; an extra `\r` before it is content
    let mut r = StreamReader::new(Cursor::new(&b"a\r\r\nb\n"[..]));
    assert_eq!(r.line().unwrap(), (false, Some(b"a\r".to_vec())));
    assert_eq!(r.line().unwrap(), (false, Some(b"b".to_vec())));
    assert_eq!(r.line().unwrap(), (true, None));
}

#[test]
fn source_failure_is_reported_and_state_kept() {
    let mut r = StreamReader::new(ScriptedSource::new(vec![
        Some(b"ab".to_vec()),
        None,
        Some(b"\ncd\n".to_vec()),
    ]));
    assert_eq!(r.line().unwrap(), (false, None));
    assert_eq!(r.line(), Err(StreamError::Source));
    assert_eq!(r.line().unwrap(), (false, Some(b"ab".to_vec())));
    assert_eq!(r.line().unwrap(), (false, Some(b"cd".to_vec())));
    assert_eq!(r.line().unwrap(), (true, None));
}

#[test]
fn failure_on_first_call_then_recovery() {
    let mut r = StreamReader::new(ScriptedSource::new(vec![
        None,
        Some(b"x\n".to_vec()),
    ]));
    assert_eq!(r.line(), Err(StreamError::Source));
    assert_eq!(r.line().unwrap(), (false, Some(b"x".to_vec())));
    assert_eq!(r.line().unwrap(), (true, None));
}

#[test]
fn many_short_lines_all_surface() {
    let mut input: Vec<u8> = Vec::new();
    for i in 0..1000u32 {
        input.extend_from_slice(format!("{}\n", i).as_bytes());
    }
    let mut r = StreamReader::new(Cursor::new(input));
    for i in 0..1000u32 {
        assert_eq!(r.line().unwrap(), (false, Some(format!("{}", i).into_bytes())));
    }
    assert_eq!(r.line().unwrap(), (true, None));
}

#[test]
fn feed_reports_line_and_bytes_eaten() {
    let mut r = StreamReader::new(Cursor::new(&b""[..]));
    assert_eq!(r.feed(b"12\r\n1"), (4, false, Some(b"12".to_vec())));
    assert_eq!(r.feed(b"1"), (1, false, None));
    assert_eq!(r.feed(b"3\ntest"), (2, false, Some(b"13".to_vec())));
    assert_eq!(r.feed(b""), (0, true, None));
    assert_eq!(r.feed(b""), (0, true, None));
}

#[test]
fn feed_carries_unterminated_content() {
    let mut r = StreamReader::new(Cursor::new(&b""[..]));
    assert_eq!(r.feed(b"aa\rbb"), (5, false, None));
    assert_eq!(r.feed(b"cc"), (2, false, None));
    assert_eq!(r.feed(b"\n"), (1, false, Some(b"aa\rbbcc".to_vec())));
}

#[test]
fn feed_joins_split_crlf() {
    let mut r = StreamReader::new(Cursor::new(&b""[..]));
    assert_eq!(r.feed(b"abc\r"), (4, false, None));
    assert_eq!(r.feed(b"\nxyz"), (1, false, Some(b"abc".to_vec())));
}

#[test]
fn reconstructing_consumed_bytes_from_feed() {
    // every byte handed to feed is accounted for: consumed prefixes
    // concatenate to each line plus its terminator, with the final
    // unterminated remainder retained instead of surfaced
    let input: &[u8] = b"one\ntwo\r\nth";
    let chunks: [&[u8]; 3] = [&input[..5], &input[5..9], &input[9..]];
    let mut r = StreamReader::new(Cursor::new(&b""[..]));
    let mut consumed: Vec<u8> = Vec::new();
    let mut emitted: Vec<u8> = Vec::new();
    for chunk in chunks.iter() {
        let mut rest: &[u8] = chunk;
        loop {
            let (eaten, _eos, out) = r.feed(rest);
            consumed.extend_from_slice(&rest[..eaten]);
            if let Some(line) = out {
                emitted.extend_from_slice(&line);
            }
            if eaten == rest.len() {
                break;
            }
            rest = &rest[eaten..];
        }
    }
    assert_eq!(consumed, input.to_vec());
    assert_eq!(emitted, b"onetwo".to_vec());
}
