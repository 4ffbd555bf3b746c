use vstd::prelude::*;
use crate::buffer::{framed, flush_step, write_step, LineBuffer};
use crate::level::{passes, Level, LevelFilter};

verus! {

/// The buffer capacity of a sink that was not given one.
pub const DEFAULT_BUFFER_CAPACITY: usize = 100;

/// Lets a file path be carried through the library unchanged.
#[verifier::external_type_specification]
#[verifier::external_body]
pub struct ExPathBuf(std::path::PathBuf);

/// The kind of stream that a sink writes to.
#[derive(Clone, Copy, Debug, PartialEq, Eq, Structural)]
pub enum WriteTarget {
    StdOut,
    File,
}

/// Whether a sink writes on the caller's thread or on a worker of its own.
#[derive(Clone, Copy, Debug, PartialEq, Eq, Structural)]
pub enum WriteMode {
    ThisThread,
    SeparateThread,
}

/// What travels from the producers of a background sink to its worker.
#[derive(Debug)]
pub enum QueueMessage {
    Msg(String),
    Flush,
}

/// Work for the caller to do on a stream: write `bytes`, then flush the
/// stream if `flush` is set.
#[derive(Debug)]
pub struct StreamOps {
    pub bytes: Vec<u8>,
    pub flush: bool,
}

/// What a call on a sink asks of the caller: work on the sink's stream, or
/// a message to send to the sink's worker.
#[derive(Debug)]
pub enum SinkEffect {
    Stream(StreamOps),
    Enqueue(QueueMessage),
}

/// Where a sink's buffer lives. Before `init` there is none; an inline sink
/// owns it; a background sink has handed it to its worker for good.
pub enum SinkState {
    Unopened,
    Inline(LineBuffer),
    Background,
}

/// The worker's answer to one message: the stream operations to perform, and
/// what stays buffered afterwards.
pub open spec fn worker_step(capacity: nat, pending: Seq<u8>, msg: QueueMessage) -> (Seq<u8>, bool, Seq<u8>) {
    match msg {
        QueueMessage::Msg(s) => {
            let (out, kept) = write_step(capacity, pending, framed(s@));
            (out, false, kept)
        },
        QueueMessage::Flush => {
            let (out, kept) = flush_step(pending);
            (out, true, kept)
        },
    }
}

/// The bytes that a sequence of queued messages asks for, in queue order:
/// one framed line per line message; flush requests add nothing.
pub open spec fn sent_bytes(msgs: Seq<QueueMessage>) -> Seq<u8>
    decreases msgs.len(),
{
    if msgs.len() == 0 {
        Seq::empty()
    } else {
        sent_bytes(msgs.drop_last()) + match msgs.last() {
            QueueMessage::Msg(s) => framed(s@),
            QueueMessage::Flush => Seq::empty(),
        }
    }
}

/// A worker whose buffer of `capacity` bytes holds `pending` takes `msgs`
/// from its queue: all bytes it hands to the stream, and what stays buffered.
pub open spec fn run_worker(capacity: nat, pending: Seq<u8>, msgs: Seq<QueueMessage>) -> (Seq<u8>, Seq<u8>)
    decreases msgs.len(),
{
    if msgs.len() == 0 {
        (Seq::empty(), pending)
    } else {
        let (out, kept) = run_worker(capacity, pending, msgs.drop_last());
        let (more, _, rest) = worker_step(capacity, kept, msgs.last());
        (out + more, rest)
    }
}

/// Whatever the interleaving of producers that filled the queue, the worker
/// hands the stream every queued line exactly once, whole, and in queue
/// order; what it has not yet handed over is still buffered and goes out
/// when it finishes.
pub proof fn lemma_worker_delivers_in_order(capacity: nat, pending: Seq<u8>, msgs: Seq<QueueMessage>)
    requires
        pending.len() <= capacity,
    ensures
        run_worker(capacity, pending, msgs).0 + run_worker(capacity, pending, msgs).1
            == pending + sent_bytes(msgs),
        run_worker(capacity, pending, msgs).1.len() <= capacity,
    decreases msgs.len(),
{
    if msgs.len() > 0 {
        lemma_worker_delivers_in_order(capacity, pending, msgs.drop_last());
        let (out, kept) = run_worker(capacity, pending, msgs.drop_last());
        let (more, _, rest) = worker_step(capacity, kept, msgs.last());
        match msgs.last() {
            QueueMessage::Msg(s) => {
                crate::buffer::lemma_write_step_conserves(capacity, kept, framed(s@));
            },
            QueueMessage::Flush => {},
        }
        let tail = match msgs.last() {
            QueueMessage::Msg(s) => framed(s@),
            QueueMessage::Flush => Seq::<u8>::empty(),
        };
        assert(more + rest =~= kept + tail);
        assert(out + more + rest =~= (out + kept) + tail);
        assert(pending + sent_bytes(msgs) =~= (pending + sent_bytes(msgs.drop_last())) + tail);
    }
}

/// A flush request right after another hands nothing more to the stream.
pub proof fn lemma_worker_flush_twice(capacity: nat, pending: Seq<u8>)
    ensures
        worker_step(capacity, worker_step(capacity, pending, QueueMessage::Flush).2, QueueMessage::Flush).0
            == Seq::<u8>::empty(),
{
}

/// One configured output destination with its own buffering, execution mode
/// and minimum severity.
pub struct BufferedWriter {
    target: WriteTarget,
    mode: WriteMode,
    file_path: Option<std::path::PathBuf>,
    buffer_capacity: usize,
    min_level: LevelFilter,
    state: SinkState,
}

impl BufferedWriter {
    pub closed spec fn spec_target(&self) -> WriteTarget {
        self.target
    }

    pub closed spec fn spec_mode(&self) -> WriteMode {
        self.mode
    }

    pub closed spec fn spec_file_path(&self) -> Option<std::path::PathBuf> {
        self.file_path
    }

    pub closed spec fn spec_buffer_capacity(&self) -> nat {
        self.buffer_capacity as nat
    }

    pub closed spec fn spec_min_level(&self) -> LevelFilter {
        self.min_level
    }

    pub closed spec fn spec_state(&self) -> SinkState {
        self.state
    }

    /// The settings, but not the state, of two sinks agree.
    pub open spec fn same_settings(&self, other: BufferedWriter) -> bool {
        &&& self.spec_target() == other.spec_target()
        &&& self.spec_mode() == other.spec_mode()
        &&& self.spec_file_path() == other.spec_file_path()
        &&& self.spec_buffer_capacity() == other.spec_buffer_capacity()
        &&& self.spec_min_level() == other.spec_min_level()
    }

    /// After `init` the state matches the mode, and an inline sink's buffer
    /// has the configured capacity.
    pub open spec fn is_open(&self) -> bool {
        match self.spec_state() {
            SinkState::Unopened => false,
            SinkState::Inline(b) => {
                &&& self.spec_mode() == WriteMode::ThisThread
                &&& b.wf()
                &&& b.spec_capacity() == self.spec_buffer_capacity()
            },
            SinkState::Background => self.spec_mode() == WriteMode::SeparateThread,
        }
    }

    /// A sink on standard output, written on the caller's thread, with the
    /// default capacity and no severity threshold of its own.
    pub fn new() -> (r: BufferedWriter)
        ensures
            r.spec_target() == WriteTarget::StdOut,
            r.spec_mode() == WriteMode::ThisThread,
            r.spec_file_path().is_none(),
            r.spec_buffer_capacity() == DEFAULT_BUFFER_CAPACITY,
            r.spec_min_level() == LevelFilter::Trace,
            r.spec_state() is Unopened,
    {
        BufferedWriter {
            target: WriteTarget::StdOut,
            mode: WriteMode::ThisThread,
            file_path: None,
            buffer_capacity: DEFAULT_BUFFER_CAPACITY,
            min_level: LevelFilter::Trace,
            state: SinkState::Unopened,
        }
    }

    pub fn on_stdout(self) -> (r: BufferedWriter)
        ensures
            r.spec_target() == WriteTarget::StdOut,
            r.spec_mode() == self.spec_mode(),
            r.spec_file_path() == self.spec_file_path(),
            r.spec_buffer_capacity() == self.spec_buffer_capacity(),
            r.spec_min_level() == self.spec_min_level(),
            r.spec_state() == self.spec_state(),
    {
        BufferedWriter { target: WriteTarget::StdOut, ..self }
    }

    pub fn on_file(self, file_path: std::path::PathBuf) -> (r: BufferedWriter)
        ensures
            r.spec_target() == WriteTarget::File,
            r.spec_mode() == self.spec_mode(),
            r.spec_file_path() == Some(file_path),
            r.spec_buffer_capacity() == self.spec_buffer_capacity(),
            r.spec_min_level() == self.spec_min_level(),
            r.spec_state() == self.spec_state(),
    {
        BufferedWriter { target: WriteTarget::File, file_path: Some(file_path), ..self }
    }

    pub fn with_this_thread(self) -> (r: BufferedWriter)
        ensures
            r.spec_target() == self.spec_target(),
            r.spec_mode() == WriteMode::ThisThread,
            r.spec_file_path() == self.spec_file_path(),
            r.spec_buffer_capacity() == self.spec_buffer_capacity(),
            r.spec_min_level() == self.spec_min_level(),
            r.spec_state() == self.spec_state(),
    {
        BufferedWriter { mode: WriteMode::ThisThread, ..self }
    }

    pub fn with_separate_thread(self) -> (r: BufferedWriter)
        ensures
            r.spec_target() == self.spec_target(),
            r.spec_mode() == WriteMode::SeparateThread,
            r.spec_file_path() == self.spec_file_path(),
            r.spec_buffer_capacity() == self.spec_buffer_capacity(),
            r.spec_min_level() == self.spec_min_level(),
            r.spec_state() == self.spec_state(),
    {
        BufferedWriter { mode: WriteMode::SeparateThread, ..self }
    }

    /// Sets the capacity of the buffer; with 0 every line goes straight out.
    pub fn with_buffer_capacity(self, capacity: usize) -> (r: BufferedWriter)
        ensures
            r.spec_target() == self.spec_target(),
            r.spec_mode() == self.spec_mode(),
            r.spec_file_path() == self.spec_file_path(),
            r.spec_buffer_capacity() == capacity,
            r.spec_min_level() == self.spec_min_level(),
            r.spec_state() == self.spec_state(),
    {
        BufferedWriter { buffer_capacity: capacity, ..self }
    }

    /// Sets the sink's own threshold, applied on top of the logger's.
    pub fn with_min_level(self, level: LevelFilter) -> (r: BufferedWriter)
        ensures
            r.spec_target() == self.spec_target(),
            r.spec_mode() == self.spec_mode(),
            r.spec_file_path() == self.spec_file_path(),
            r.spec_buffer_capacity() == self.spec_buffer_capacity(),
            r.spec_min_level() == level,
            r.spec_state() == self.spec_state(),
    {
        BufferedWriter { min_level: level, ..self }
    }

    pub fn target(&self) -> (r: WriteTarget)
        ensures
            r == self.spec_target(),
    {
        self.target
    }

    pub fn mode(&self) -> (r: WriteMode)
        ensures
            r == self.spec_mode(),
    {
        self.mode
    }

    pub fn file_path(&self) -> (r: &Option<std::path::PathBuf>)
        ensures
            *r == self.spec_file_path(),
    {
        &self.file_path
    }

    pub fn buffer_capacity(&self) -> (r: usize)
        ensures
            r == self.spec_buffer_capacity(),
    {
        self.buffer_capacity
    }

    pub fn min_level(&self) -> (r: LevelFilter)
        ensures
            r == self.spec_min_level(),
    {
        self.min_level
    }

    pub fn is_initialized(&self) -> (r: bool)
        ensures
            r == !(self.spec_state() is Unopened),
    {
        !matches!(self.state, SinkState::Unopened)
    }

    /// Whether a record of severity `level` passes this sink's own threshold.
    pub fn admits(&self, level: Level) -> (r: bool)
        ensures
            r == passes(level, self.spec_min_level()),
    {
        self.min_level.admits(level)
    }

    /// Sets up the sink's buffer once its stream has been opened. An inline
    /// sink keeps the buffer; a background sink hands it to the returned
    /// worker, which alone touches it from then on.
    pub fn init(self) -> (r: (BufferedWriter, Option<Worker>))
        requires
            self.spec_state() is Unopened,
        ensures
            r.0.same_settings(self),
            r.0.is_open(),
            self.spec_mode() == WriteMode::ThisThread ==> r.1.is_none() && (match r.0.spec_state() {
                SinkState::Inline(b) => b.spec_pending() == Seq::<u8>::empty(),
                _ => false,
            }),
            self.spec_mode() == WriteMode::SeparateThread ==> r.0.spec_state() is Background
                && r.1.is_some() && r.1.unwrap().wf()
                && r.1.unwrap().spec_capacity() == self.spec_buffer_capacity()
                && r.1.unwrap().spec_pending() == Seq::<u8>::empty(),
    {
        let buffer = LineBuffer::new(self.buffer_capacity);
        match self.mode {
            WriteMode::ThisThread => {
                (BufferedWriter { state: SinkState::Inline(buffer), ..self }, None)
            },
            WriteMode::SeparateThread => {
                (BufferedWriter { state: SinkState::Background, ..self }, Some(Worker { buffer }))
            },
        }
    }

    /// Writes one line. An inline sink buffers it and hands back the bytes
    /// due on its stream; a background sink only hands back the message for
    /// its worker.
    pub fn write(&mut self, message: &str) -> (r: SinkEffect)
        requires
            old(self).is_open(),
        ensures
            final(self).same_settings(*old(self)),
            final(self).is_open(),
            match old(self).spec_state() {
                SinkState::Inline(b) => match (final(self).spec_state(), r) {
                    (SinkState::Inline(b2), SinkEffect::Stream(ops)) => {
                        &&& !ops.flush
                        &&& (b.spec_capacity() == 0 ==> ops.bytes@ == framed(message@))
                        &&& (ops.bytes@, b2.spec_pending()) == write_step(
                            b.spec_capacity(),
                            b.spec_pending(),
                            framed(message@),
                        )
                    },
                    _ => false,
                },
                _ => final(self).spec_state() is Background && match r {
                    SinkEffect::Enqueue(QueueMessage::Msg(s)) => s@ == message@,
                    _ => false,
                },
            },
    {
        match &mut self.state {
            SinkState::Inline(buffer) => {
                let bytes = buffer.write_line(message);
                SinkEffect::Stream(StreamOps { bytes, flush: false })
            },
            _ => SinkEffect::Enqueue(QueueMessage::Msg(message.to_owned())),
        }
    }

    /// Forces the sink's buffered bytes out. An inline sink hands back all of
    /// them, to be written and followed by a flush of the stream; a
    /// background sink hands back a flush request for its worker and does
    /// not wait for it.
    pub fn flush(&mut self) -> (r: SinkEffect)
        requires
            old(self).is_open(),
        ensures
            final(self).same_settings(*old(self)),
            final(self).is_open(),
            match old(self).spec_state() {
                SinkState::Inline(b) => match (final(self).spec_state(), r) {
                    (SinkState::Inline(b2), SinkEffect::Stream(ops)) => {
                        &&& ops.flush
                        &&& (ops.bytes@, b2.spec_pending()) == flush_step(b.spec_pending())
                    },
                    _ => false,
                },
                _ => final(self).spec_state() is Background && r matches SinkEffect::Enqueue(
                    QueueMessage::Flush,
                ),
            },
    {
        match &mut self.state {
            SinkState::Inline(buffer) => {
                let bytes = buffer.flush();
                SinkEffect::Stream(StreamOps { bytes, flush: true })
            },
            _ => SinkEffect::Enqueue(QueueMessage::Flush),
        }
    }
}

/// The single consumer of a background sink's queue, and sole owner of its
/// buffer.
pub struct Worker {
    buffer: LineBuffer,
}

impl Worker {
    pub closed spec fn wf(&self) -> bool {
        self.buffer.wf()
    }

    pub closed spec fn spec_capacity(&self) -> nat {
        self.buffer.spec_capacity()
    }

    pub closed spec fn spec_pending(&self) -> Seq<u8> {
        self.buffer.spec_pending()
    }

    /// Applies one message, taken from the queue in the order it was sent: a
    /// line is buffered, a flush request empties the buffer and asks for a
    /// flush of the stream.
    pub fn handle(&mut self, msg: QueueMessage) -> (r: StreamOps)
        requires
            old(self).wf(),
        ensures
            final(self).wf(),
            final(self).spec_capacity() == old(self).spec_capacity(),
            (r.bytes@, r.flush, final(self).spec_pending()) == worker_step(
                old(self).spec_capacity(),
                old(self).spec_pending(),
                msg,
            ),
            old(self).spec_capacity() == 0 && msg is Msg ==> r.bytes@ == framed(msg->Msg_0@),
    {
        match msg {
            QueueMessage::Msg(line) => {
                let bytes = self.buffer.write_line(line.as_str());
                StreamOps { bytes, flush: false }
            },
            QueueMessage::Flush => {
                let bytes = self.buffer.flush();
                StreamOps { bytes, flush: true }
            },
        }
    }

    /// Ends the worker once its queue is closed and drained; returns the
    /// bytes still buffered, which are the last to reach the stream.
    pub fn finish(self) -> (r: Vec<u8>)
        requires
            self.wf(),
        ensures
            r@ == self.spec_pending(),
    {
        let mut buffer = self.buffer;
        buffer.flush()
    }
}

} // verus!
