//! The receiving half of a browser's stream.

use crate::buffer::{bytes_from_vec, bytes_to_vec, bytes_view};
use crate::web::error::WebError;
use bytes::Bytes;
use vstd::prelude::*;

verus! {

/// The bytes that a reader may take next: what is buffered, or, with nothing
/// buffered, what was fetched, where the end of the stream counts as nothing.
pub open spec fn available(buffered: Seq<u8>, fetched: Option<Vec<u8>>) -> Seq<u8> {
    if buffered.len() > 0 {
        buffered
    } else {
        match fetched {
            Some(data) => data@,
            None => Seq::<u8>::empty(),
        }
    }
}

/// The number of bytes that a reader with room for `max` takes of `len`.
pub open spec fn taken(max: usize, len: nat) -> int {
    if max <= len {
        max as int
    } else {
        len as int
    }
}

/// The receiving half of a stream: the bytes that the browser delivered and
/// that no reader has taken yet.
///
/// The browser delivers chunks of its own size. A reader that asks for fewer
/// bytes gets the front of the chunk, and the rest waits here.
pub struct RecvStream {
    buffer: Bytes,
}

impl RecvStream {
    /// The bytes that wait for a reader, in order.
    pub closed spec fn buffered(self) -> Seq<u8> {
        bytes_view(self.buffer)
    }

    /// Starts on a stream of the browser. A stream that is locked to another
    /// reader is refused, with the error `locked`; otherwise nothing is
    /// buffered yet.
    pub fn new(locked: bool) -> (made: Result<RecvStream, WebError>)
        ensures
            match made {
                Ok(stream) => !locked && stream.buffered() == Seq::<u8>::empty(),
                Err(e) => locked && e.text() == "locked"@,
            },
    {
        if locked {
            return Err(WebError::new(Some("locked".to_string()), String::new()));
        }
        Ok(RecvStream { buffer: Bytes::new() })
    }

    /// Whether the next chunk has to be fetched from the browser: nothing is
    /// buffered.
    pub fn wants_data(&self) -> (wants: bool)
        ensures
            wants == (self.buffered().len() == 0),
    {
        self.buffer.len() == 0
    }

    /// Hands out the next bytes, at most `max` of them.
    ///
    /// `fetched` is what the browser delivered when it was asked for the next
    /// chunk, `None` for the end of the stream. It counts only where nothing
    /// is buffered. The result is the front of the bytes then at hand, and the
    /// rest stays buffered. An empty result stands for the end of the stream.
    pub fn read_chunk(&mut self, max: usize, fetched: Option<Vec<u8>>) -> (chunk: Bytes)
        ensures
            ({
                let at_hand = available(old(self).buffered(), fetched);
                let n = taken(max, at_hand.len());
                &&& bytes_view(chunk) == at_hand.subrange(0, n)
                &&& final(self).buffered() == at_hand.subrange(n, at_hand.len() as int)
                &&& bytes_view(chunk) + final(self).buffered() == at_hand
            }),
    {
        if self.buffer.len() == 0 {
            match fetched {
                None => {
                    return Bytes::new();
                },
                Some(data) => {
                    self.buffer = bytes_from_vec(data);
                },
            }
        }
        let len: usize = self.buffer.len();
        let n: usize = if max <= len {
            max
        } else {
            len
        };
        self.buffer.split_to(n)
    }

    /// Appends the next bytes to `buf`, at most `max` of them, and returns
    /// their number, or `None` where no bytes are at hand: at the end of the
    /// stream. With bytes at hand and a `max` of `0` the number is `0`.
    ///
    /// `fetched` counts as in [`RecvStream::read_chunk`].
    pub fn read(&mut self, buf: &mut Vec<u8>, max: usize, fetched: Option<Vec<u8>>) -> (count:
        Option<usize>)
        ensures
            ({
                let at_hand = available(old(self).buffered(), fetched);
                let n = taken(max, at_hand.len());
                &&& final(buf)@ == old(buf)@ + at_hand.subrange(0, n)
                &&& final(self).buffered() == at_hand.subrange(n, at_hand.len() as int)
                &&& count == if at_hand.len() == 0 {
                    None
                } else {
                    Some(n as usize)
                }
            }),
    {
        let chunk = self.read_chunk(max, fetched);
        let n: usize = chunk.len();
        let mut bytes = bytes_to_vec(&chunk);
        buf.append(&mut bytes);
        if n == 0 && self.buffer.len() == 0 {
            None
        } else {
            Some(n)
        }
    }
}

} // verus!
