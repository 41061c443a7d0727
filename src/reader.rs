//! Adaptive reader: turns a file into a single-pass sequence of chunks read
//! with a buffer that grows while reads fill it and shrinks when they do not.
//! The blocking read itself is performed by the caller; this type decides how
//! much to ask for and what to emit.
use vstd::prelude::*;

verus! {

/// Bytes in one kilobyte.
pub const KB: usize = 1024;

/// Smallest read buffer, in kilobytes.
pub const MIN_BUF_SIZE_KB: usize = 4;

/// Largest read buffer, in kilobytes.
pub const MAX_BUF_SIZE_KB: usize = 16384;

/// The buffer sizes a reader can hold: the powers of two from the minimum to
/// the maximum, in kilobytes.
pub open spec fn is_buffer_size_kb(kb: int) -> bool {
    ||| kb == 4
    ||| kb == 8
    ||| kb == 16
    ||| kb == 32
    ||| kb == 64
    ||| kb == 128
    ||| kb == 256
    ||| kb == 512
    ||| kb == 1024
    ||| kb == 2048
    ||| kb == 4096
    ||| kb == 8192
    ||| kb == 16384
}

/// Buffer size after a read of `bytes_read` bytes into a buffer of `kb`
/// kilobytes: doubled (up to the maximum) when the read filled the buffer,
/// halved (down to the minimum) when it did not.
pub open spec fn resized_kb(kb: int, bytes_read: int) -> int {
    if bytes_read == kb * KB {
        if kb < MAX_BUF_SIZE_KB { kb * 2 } else { kb }
    } else {
        if kb > MIN_BUF_SIZE_KB { kb / 2 } else { kb }
    }
}

/// Chunks joined end to end.
pub open spec fn flatten(chunks: Seq<Seq<u8>>) -> Seq<u8>
    decreases chunks.len(),
{
    if chunks.len() == 0 {
        Seq::empty()
    } else {
        flatten(chunks.drop_last()) + chunks.last()
    }
}

/// Abstract state of a reader.
pub ghost struct ReaderModel {
    /// Current buffer size in kilobytes.
    pub buf_kb: int,
    /// Chunks emitted so far, in order.
    pub chunks: Seq<Seq<u8>>,
    /// The sequence has ended (end of file or read error).
    pub finished: bool,
}

/// A fresh reader: minimum buffer, nothing emitted.
pub open spec fn initial_model() -> ReaderModel {
    ReaderModel { buf_kb: MIN_BUF_SIZE_KB as int, chunks: Seq::empty(), finished: false }
}

/// Effect of one completed read that returned `data` into a buffer of the
/// current size. An empty read ends the sequence; a finished reader ignores
/// further reads.
pub open spec fn after_read(m: ReaderModel, data: Seq<u8>) -> ReaderModel {
    if m.finished {
        m
    } else if data.len() == 0 {
        ReaderModel { finished: true, ..m }
    } else {
        ReaderModel {
            buf_kb: resized_kb(m.buf_kb, data.len() as int),
            chunks: m.chunks.push(data),
            finished: false,
        }
    }
}

/// A reader fed the reads `reads` in order, starting from `m`.
pub open spec fn after_reads(m: ReaderModel, reads: Seq<Seq<u8>>) -> ReaderModel
    decreases reads.len(),
{
    if reads.len() == 0 {
        m
    } else {
        after_read(after_reads(m, reads.drop_last()), reads.last())
    }
}

/// The reads of a file `file`, in order: each returns the bytes that follow
/// those returned before it, at least one while any remain, and none once the
/// end of the file is reached.
pub open spec fn is_read_sequence(file: Seq<u8>, reads: Seq<Seq<u8>>) -> bool
    decreases reads.len(),
{
    if reads.len() == 0 {
        true
    } else {
        let pos = flatten(reads.drop_last()).len() as int;
        let r = reads.last();
        &&& is_read_sequence(file, reads.drop_last())
        &&& pos + r.len() <= file.len()
        &&& r == file.subrange(pos, pos + r.len())
        &&& (r.len() == 0 <==> pos == file.len())
    }
}

/// Whatever reads a file gives, the chunks the reader emits, joined, are the
/// bytes read so far, which are the start of the file; once the sequence has
/// ended they are the whole file, in order, with no byte repeated or skipped.
pub proof fn lemma_chunks_rebuild_file(file: Seq<u8>, reads: Seq<Seq<u8>>)
    requires
        is_read_sequence(file, reads),
    ensures
        flatten(after_reads(initial_model(), reads).chunks) == flatten(reads),
        flatten(reads) == file.take(flatten(reads).len() as int),
        after_reads(initial_model(), reads).finished ==> flatten(reads) == file,
    decreases reads.len(),
{
    if reads.len() > 0 {
        let prev = reads.drop_last();
        let r = reads.last();
        lemma_chunks_rebuild_file(file, prev);
        let m = after_reads(initial_model(), prev);
        let pos = flatten(prev).len() as int;
        assert(flatten(reads) == flatten(prev) + r);
        assert(file.take(pos) + file.subrange(pos, pos + r.len()) =~= file.take(
            pos + r.len(),
        ));
        if !m.finished && r.len() > 0 {
            assert(after_read(m, r).chunks.drop_last() == m.chunks);
        } else {
            assert(r.len() == 0);
            assert(flatten(reads) =~= flatten(prev));
        }
        if after_reads(initial_model(), reads).finished {
            assert(pos + r.len() == file.len());
            assert(file.take(file.len() as int) =~= file);
        }
    }
}

/// A file with no bytes gives no chunk, and its first read ends the sequence.
pub proof fn lemma_empty_file_no_chunks(reads: Seq<Seq<u8>>)
    requires
        is_read_sequence(Seq::empty(), reads),
    ensures
        after_reads(initial_model(), reads).chunks.len() == 0,
        reads.len() > 0 ==> after_reads(initial_model(), reads).finished,
    decreases reads.len(),
{
    if reads.len() > 0 {
        lemma_empty_file_no_chunks(reads.drop_last());
    }
}

/// One read keeps the buffer size among the allowed sizes, so between the
/// minimum and the maximum; the size doubles only after a read that filled the
/// buffer and halves only after one that returned some bytes but fewer.
pub proof fn lemma_buffer_resizing(m: ReaderModel, data: Seq<u8>)
    requires
        is_buffer_size_kb(m.buf_kb),
    ensures
        is_buffer_size_kb(after_read(m, data).buf_kb),
        MIN_BUF_SIZE_KB <= after_read(m, data).buf_kb <= MAX_BUF_SIZE_KB,
        after_read(m, data).buf_kb == m.buf_kb || after_read(m, data).buf_kb == m.buf_kb * 2
            || after_read(m, data).buf_kb == m.buf_kb / 2,
        after_read(m, data).buf_kb > m.buf_kb ==> !m.finished && data.len() == m.buf_kb * KB,
        after_read(m, data).buf_kb < m.buf_kb ==> !m.finished && 0 < data.len() && data.len()
            != m.buf_kb * KB,
{
}

/// Over any sequence of reads the buffer size stays among the allowed sizes.
pub proof fn lemma_buffer_size_bounded(reads: Seq<Seq<u8>>)
    ensures
        is_buffer_size_kb(after_reads(initial_model(), reads).buf_kb),
        MIN_BUF_SIZE_KB <= after_reads(initial_model(), reads).buf_kb <= MAX_BUF_SIZE_KB,
    decreases reads.len(),
{
    if reads.len() > 0 {
        lemma_buffer_size_bounded(reads.drop_last());
        lemma_buffer_resizing(after_reads(initial_model(), reads.drop_last()), reads.last());
    }
}

/// Where the reader is: waiting for the next request, waiting for a read of
/// `requested` bytes to complete, or done.
pub enum ReadState {
    ReadyToRead,
    ReadPending { requested: usize },
    Finished,
}

/// What a completed read yields.
pub enum ReadStep {
    /// The next chunk of the file.
    Chunk(Vec<u8>),
    /// End of the file: no more chunks.
    End,
}

/// Reader of one file in adaptively sized chunks; at most one read is in
/// flight at a time.
pub struct AdaptiveReader {
    read_multiplier: usize,
    state: ReadState,
    emitted: Ghost<Seq<Seq<u8>>>,
}

impl AdaptiveReader {
    /// The reader's abstract state.
    pub closed spec fn model(&self) -> ReaderModel {
        ReaderModel {
            buf_kb: self.read_multiplier as int,
            chunks: self.emitted@,
            finished: self.state is Finished,
        }
    }

    /// The read in flight, if any.
    pub closed spec fn pending(&self) -> Option<usize> {
        match self.state {
            ReadState::ReadPending { requested } => Some(requested),
            _ => None,
        }
    }

    /// The buffer size is an allowed one, and a read in flight asked for it.
    pub closed spec fn wf(&self) -> bool {
        &&& is_buffer_size_kb(self.read_multiplier as int)
        &&& (self.state matches ReadState::ReadPending { requested } ==> requested
            == self.read_multiplier * KB)
    }

    /// A reader at the start of a file.
    pub fn new() -> (r: Self)
        ensures
            r.wf(),
            r.model() == initial_model(),
            r.pending() is None,
    {
        AdaptiveReader {
            read_multiplier: MIN_BUF_SIZE_KB,
            state: ReadState::ReadyToRead,
            emitted: Ghost(Seq::empty()),
        }
    }

    /// Current buffer size in kilobytes.
    pub fn buffer_size_kb(&self) -> (r: usize)
        requires
            self.wf(),
        ensures
            r == self.model().buf_kb,
            MIN_BUF_SIZE_KB <= r <= MAX_BUF_SIZE_KB,
    {
        self.read_multiplier
    }

    /// Whether the sequence has ended.
    pub fn is_finished(&self) -> (r: bool)
        ensures
            r == self.model().finished,
    {
        matches!(self.state, ReadState::Finished)
    }

    /// Starts the next read: returns how many bytes to read, the current
    /// buffer size.
    pub fn begin_read(&mut self) -> (r: usize)
        requires
            old(self).wf(),
            !old(self).model().finished,
            old(self).pending() is None,
        ensures
            final(self).wf(),
            r == old(self).model().buf_kb * KB,
            final(self).pending() == Some(r),
            final(self).model() == old(self).model(),
    {
        let requested = self.read_multiplier * KB;
        self.state = ReadState::ReadPending { requested };
        requested
    }

    /// Completes the read in flight: `buf` is the buffer of the requested size
    /// and `bytes_read` how much of it the read filled. Emits the filled part,
    /// or ends the sequence when nothing was read, and resizes the buffer.
    pub fn complete_read(&mut self, buf: Vec<u8>, bytes_read: usize) -> (r: ReadStep)
        requires
            old(self).wf(),
            old(self).pending() == Some(buf.len()),
            bytes_read <= buf.len(),
        ensures
            final(self).wf(),
            final(self).pending() is None,
            final(self).model() == after_read(old(self).model(), buf@.take(bytes_read as int)),
            bytes_read == 0 ==> r is End,
            bytes_read > 0 ==> (r matches ReadStep::Chunk(c) && c@ == buf@.take(bytes_read as int)),
    {
        let ghost data = buf@.take(bytes_read as int);
        let mut buf = buf;
        if bytes_read == 0 {
            self.state = ReadState::Finished;
            return ReadStep::End;
        }
        let full = buf.len() == bytes_read;
        if full {
            if self.read_multiplier < MAX_BUF_SIZE_KB {
                self.read_multiplier = self.read_multiplier * 2;
            }
        } else {
            if self.read_multiplier > MIN_BUF_SIZE_KB {
                self.read_multiplier = self.read_multiplier / 2;
            }
            buf.truncate(bytes_read);
        }
        proof {
            assert(buf@ == data);
        }
        self.state = ReadState::ReadyToRead;
        self.emitted = Ghost(self.emitted@.push(buf@));
        ReadStep::Chunk(buf)
    }

    /// Ends the sequence after a failed read; the error is the caller's to
    /// report and the read is not retried.
    pub fn fail_read(&mut self)
        requires
            old(self).wf(),
        ensures
            final(self).wf(),
            final(self).pending() is None,
            final(self).model() == (ReaderModel { finished: true, ..old(self).model() }),
    {
        self.state = ReadState::Finished;
    }
}

} // verus!
