//! Elementary IO used by the muxer and demuxer: what the IO callbacks report
//! back to the native IO context for each outcome of a read, a write, a
//! flush or a seek on the underlying stream, and an in-memory output.
use vstd::prelude::*;

verus! {

/// How a read, a write or a flush on the underlying stream failed: the OS
/// error code, if the error carries one, and whether the operation would
/// have blocked.
#[derive(Copy, Clone)]
pub struct IoFailure {
    pub os_code: Option<i32>,
    pub would_block: bool,
}

/// What an IO callback reports to the native IO context.
#[derive(Copy, Clone, PartialEq, Eq, Structural)]
pub enum IoStatus {
    /// Success, with a count of bytes (0 after a flush).
    Done(i32),
    /// The end of the stream.
    EndOfStream,
    /// An OS error, by its POSIX code.
    Posix(i32),
    /// The operation would block.
    WouldBlock,
    /// Any other error.
    Unknown,
}

/// The status reported for a failed read, write or flush.
pub open spec fn failure_status(f: IoFailure) -> IoStatus {
    match f.os_code {
        Some(code) => IoStatus::Posix(code),
        None => if f.would_block {
            IoStatus::WouldBlock
        } else {
            IoStatus::Unknown
        },
    }
}

fn status_of_failure(f: IoFailure) -> (r: IoStatus)
    ensures
        r == failure_status(f),
{
    match f.os_code {
        Some(code) => IoStatus::Posix(code),
        None => if f.would_block {
            IoStatus::WouldBlock
        } else {
            IoStatus::Unknown
        },
    }
}

/// The status that the read and the write callbacks report for the outcome
/// of reading into, or writing from, the buffer handed to them: the number
/// of bytes transferred (converted with `as`), or the end of the stream when
/// nothing was transferred.
pub fn transfer_status(outcome: Result<usize, IoFailure>) -> (r: IoStatus)
    ensures
        match outcome {
            Ok(n) => if n > 0 {
                r == IoStatus::Done(n as i32)
            } else {
                r == IoStatus::EndOfStream
            },
            Err(f) => r == failure_status(f),
        },
{
    match outcome {
        Ok(n) => if n > 0 {
            IoStatus::Done(n as i32)
        } else {
            IoStatus::EndOfStream
        },
        Err(f) => status_of_failure(f),
    }
}

/// The status that the write callback reports after flushing the stream.
pub fn flush_status(outcome: Result<(), IoFailure>) -> (r: IoStatus)
    ensures
        match outcome {
            Ok(_) => r == IoStatus::Done(0),
            Err(f) => r == failure_status(f),
        },
{
    match outcome {
        Ok(_) => IoStatus::Done(0),
        Err(f) => status_of_failure(f),
    }
}

/// What the write callback does with the buffer handed to it.
#[derive(Copy, Clone, PartialEq, Eq, Structural)]
pub enum WriteAction {
    /// Write the buffer to the stream.
    Write,
    /// No data: flush the stream.
    Flush,
}

/// A buffer that is present and not empty is written; otherwise the stream
/// is flushed.
pub fn write_action(buffer_is_null: bool, buffer_size: i32) -> (r: WriteAction)
    ensures
        r == (if !buffer_is_null && buffer_size > 0 {
            WriteAction::Write
        } else {
            WriteAction::Flush
        }),
{
    if !buffer_is_null && buffer_size > 0 {
        WriteAction::Write
    } else {
        WriteAction::Flush
    }
}

/// What the seek callback does.
#[derive(Copy, Clone, PartialEq, Eq, Structural)]
pub enum SeekAction {
    /// Report the length of the stream (and stay where it is).
    QueryLength,
    /// Move to a given absolute position.
    SeekTo(u64),
}

/// A size query is answered with the stream length; any other request moves
/// to the offset taken as an absolute position (converted with `as`, so a
/// negative offset wraps around).
pub fn seek_action(is_size_query: bool, offset: i64) -> (r: SeekAction)
    ensures
        r == (if is_size_query {
            SeekAction::QueryLength
        } else {
            SeekAction::SeekTo(offset as u64)
        }),
{
    if is_size_query {
        SeekAction::QueryLength
    } else {
        SeekAction::SeekTo(offset as u64)
    }
}

/// What the seek callback reports.
#[derive(Copy, Clone, PartialEq, Eq, Structural)]
pub enum SeekStatus {
    /// The new position, or the length for a size query (converted with
    /// `as`).
    Position(i64),
    /// The seek failed.
    Failed(IoStatus),
}

/// The status that the seek callback reports for the outcome of a seek or a
/// length query: the position, or the error by its POSIX code when it
/// carries one and as unknown otherwise (a seek that would block is not told
/// apart).
pub fn seek_status(outcome: Result<u64, Option<i32>>) -> (r: SeekStatus)
    ensures
        match outcome {
            Ok(pos) => r == SeekStatus::Position(pos as i64),
            Err(Some(code)) => r == SeekStatus::Failed(IoStatus::Posix(code)),
            Err(None) => r == SeekStatus::Failed(IoStatus::Unknown),
        },
{
    match outcome {
        Ok(pos) => SeekStatus::Position(pos as i64),
        Err(Some(code)) => SeekStatus::Failed(IoStatus::Posix(code)),
        Err(None) => SeekStatus::Failed(IoStatus::Unknown),
    }
}

/// Writer that puts everything in memory. It also allows taking the data on
/// the fly.
pub struct MemWriter {
    data: Vec<u8>,
}

impl View for MemWriter {
    type V = Seq<u8>;

    /// The data written and not taken yet.
    closed spec fn view(&self) -> Seq<u8> {
        self.data@
    }
}

impl Default for MemWriter {
    fn default() -> (r: MemWriter)
        ensures
            r@ == Seq::<u8>::empty(),
    {
        MemWriter { data: Vec::new() }
    }
}

impl MemWriter {
    /// Create an empty writer.
    pub fn new() -> (r: MemWriter)
        ensures
            r@ == Seq::<u8>::empty(),
    {
        MemWriter { data: Vec::new() }
    }

    /// Take data from the writer.
    pub fn take_data(&mut self) -> (r: Vec<u8>)
        ensures
            r@ == old(self)@,
            final(self)@ == Seq::<u8>::empty(),
    {
        let mut res: Vec<u8> = Vec::new();
        let mut i: usize = 0;
        while i < self.data.len()
            invariant
                i <= self.data@.len(),
                res@ == self.data@.subrange(0, i as int),
            decreases self.data@.len() - i,
        {
            res.push(self.data[i]);
            i = i + 1;
        }
        assert(self.data@.subrange(0, self.data@.len() as int) == self.data@);
        self.data.clear();
        res
    }

    /// Append a given buffer; all of it is always accepted.
    pub fn write(&mut self, buffer: &[u8]) -> (r: usize)
        ensures
            final(self)@ == old(self)@ + buffer@,
            r == buffer@.len(),
    {
        let mut i: usize = 0;
        let ghost start = self.data@;
        while i < buffer.len()
            invariant
                i <= buffer@.len(),
                self.data@ == start + buffer@.subrange(0, i as int),
            decreases buffer@.len() - i,
        {
            self.data.push(buffer[i]);
            i = i + 1;
        }
        assert(buffer@.subrange(0, buffer@.len() as int) == buffer@);
        buffer.len()
    }

    /// Flush the writer (nothing to do: the data stay in memory).
    pub fn flush(&mut self)
        ensures
            final(self)@ == old(self)@,
    {
    }
}

/// Everything written, in order: the concatenation of the buffers.
pub open spec fn concat_all(buffers: Seq<Seq<u8>>) -> Seq<u8>
    decreases buffers.len(),
{
    if buffers.len() == 0 {
        Seq::empty()
    } else {
        concat_all(buffers.drop_last()) + buffers.last()
    }
}

/// After the buffers `b1, ..., bn` are written, one at a time, to a writer
/// holding `start` (as `write` appends each one), the writer holds `start`
/// followed by every byte of `b1 ++ ... ++ bn`, each once and in write
/// order; `take_data` then hands exactly that back and leaves the writer
/// empty.
pub proof fn lemma_writes_accumulate(start: Seq<u8>, buffers: Seq<Seq<u8>>, states: Seq<Seq<u8>>)
    requires
        states.len() == buffers.len() + 1,
        states[0] == start,
        forall|i: int| 0 <= i < buffers.len() ==> #[trigger] states[i + 1] == states[i] + buffers[i],
    ensures
        states.last() == start + concat_all(buffers),
    decreases buffers.len(),
{
    if buffers.len() == 0 {
        assert(start + concat_all(buffers) =~= start);
    } else {
        let n = buffers.len() - 1;
        lemma_writes_accumulate(start, buffers.drop_last(), states.subrange(0, n + 1));
        assert(states[n + 1] == states[n] + buffers[n]);
        assert(start + concat_all(buffers) =~= (start + concat_all(buffers.drop_last()))
            + buffers.last());
    }
}

} // verus!
