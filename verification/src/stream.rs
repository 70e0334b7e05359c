//! Byte-by-byte splitting of a child's output stream into decoded lines.

use vstd::prelude::*;

verus! {

/// What `String::from_utf8` returns for the given bytes: the decoded
/// characters, or nothing when the bytes are not valid UTF-8. The result
/// depends on the bytes alone.
pub uninterp spec fn utf8_decode(bytes: Seq<u8>) -> Option<Seq<char>>;

/// Why a line could not be delivered: the pipe failed, or a completed line
/// was not valid UTF-8 (the offending bytes are kept).
#[derive(Clone, Debug)]
pub enum PipeError {
    IO(String),
    NotUtf8(Vec<u8>),
}

/// One event on a multiplexed output pipe: a decoded line, or the end of
/// the stream.
#[derive(Clone, Debug)]
pub enum PipedLine {
    Line(String),
    Eof,
}

/// Relies on `String::from_utf8`: it decodes exactly the valid UTF-8 byte
/// sequences, and its error hands the input bytes back unchanged.
#[verifier::external_body]
fn decode_utf8(bytes: Vec<u8>) -> (r: Result<String, Vec<u8>>)
    ensures
        match r {
            Ok(s) => utf8_decode(bytes@) == Some(s@),
            Err(b) => b@ == bytes@ && utf8_decode(bytes@) is None,
        },
{
    match String::from_utf8(bytes) {
        Ok(s) => Ok(s),
        Err(e) => Err(e.into_bytes()),
    }
}

/// The line-feed byte that terminates a line.
pub open spec fn spec_is_line_feed(b: u8) -> bool {
    b == 10
}

/// Splits a byte sequence at line feeds: the completed lines, in order,
/// and the bytes accumulated after the last line feed.
pub open spec fn spec_split(bytes: Seq<u8>) -> (Seq<Seq<u8>>, Seq<u8>)
    decreases bytes.len(),
{
    if bytes.len() == 0 {
        (Seq::<Seq<u8>>::empty(), Seq::<u8>::empty())
    } else {
        let (lines, buf) = spec_split(bytes.drop_last());
        if spec_is_line_feed(bytes.last()) {
            (lines.push(buf), Seq::<u8>::empty())
        } else {
            (lines, buf.push(bytes.last()))
        }
    }
}

/// Whether a delivered event correctly stands for the raw bytes of one
/// completed line: the decoded characters when the bytes are valid UTF-8,
/// and the bytes themselves otherwise.
pub open spec fn spec_line_event(event: Result<PipedLine, PipeError>, raw: Seq<u8>) -> bool {
    match event {
        Ok(PipedLine::Line(s)) => utf8_decode(raw) == Some(s@),
        Err(PipeError::NotUtf8(b)) => b@ == raw && utf8_decode(raw) is None,
        _ => false,
    }
}

/// Accumulates the bytes of one output pipe and emits an event for every
/// completed line. A decoding failure is an event, not a fatal error:
/// streaming goes on with the next line.
pub struct LineSplitter {
    pub buf: Vec<u8>,
}

impl LineSplitter {
    pub fn new() -> (r: Self)
        ensures
            r.buf@ == Seq::<u8>::empty(),
    {
        LineSplitter { buf: Vec::new() }
    }

    /// Feeds one byte: a line feed completes the pending line and empties
    /// the accumulator; any other byte is accumulated silently.
    pub fn push_byte(&mut self, byte: u8) -> (r: Option<Result<PipedLine, PipeError>>)
        ensures
            spec_is_line_feed(byte) ==> {
                &&& final(self).buf@ == Seq::<u8>::empty()
                &&& r matches Some(event) && spec_line_event(event, old(self).buf@)
            },
            !spec_is_line_feed(byte) ==> r is None && final(self).buf@ == old(self).buf@.push(
                byte,
            ),
    {
        if byte == 10 {
            let mut line: Vec<u8> = Vec::new();
            core::mem::swap(&mut line, &mut self.buf);
            match decode_utf8(line) {
                Ok(s) => Some(Ok(PipedLine::Line(s))),
                Err(b) => Some(Err(PipeError::NotUtf8(b))),
            }
        } else {
            self.buf.push(byte);
            None
        }
    }

    /// Feeds a whole byte sequence, returning the events of every
    /// completed line, in order. Bytes after the last line feed stay
    /// accumulated: end-of-stream discards them, as the runtime does.
    pub fn push_bytes(&mut self, bytes: &Vec<u8>) -> (r: Vec<Result<PipedLine, PipeError>>)
        requires
            old(self).buf@ == Seq::<u8>::empty(),
        ensures
            final(self).buf@ == spec_split(bytes@).1,
            r@.len() == spec_split(bytes@).0.len(),
            forall|k: int|
                0 <= k < r@.len() ==> spec_line_event(#[trigger] r@[k], spec_split(bytes@).0[k]),
    {
        let mut events: Vec<Result<PipedLine, PipeError>> = Vec::new();
        let mut i: usize = 0;
        proof {
            assert(bytes@.take(0) =~= Seq::<u8>::empty());
        }
        while i < bytes.len()
            invariant
                i <= bytes@.len(),
                self.buf@ == spec_split(bytes@.take(i as int)).1,
                events@.len() == spec_split(bytes@.take(i as int)).0.len(),
                forall|k: int|
                    0 <= k < events@.len() ==> spec_line_event(
                        #[trigger] events@[k],
                        spec_split(bytes@.take(i as int)).0[k],
                    ),
            decreases bytes@.len() - i,
        {
            let ghost prefix = bytes@.take(i as int);
            let event = self.push_byte(bytes[i]);
            proof {
                assert(bytes@.take(i + 1).drop_last() =~= prefix);
                assert(bytes@.take(i + 1).last() == bytes@[i as int]);
            }
            match event {
                Some(e) => {
                    events.push(e);
                },
                None => {},
            }
            i = i + 1;
        }
        proof {
            assert(bytes@.take(bytes@.len() as int) =~= bytes@);
        }
        events
    }
}

} // verus!
