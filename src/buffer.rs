use vstd::prelude::*;
use vstd::utf8::encode_utf8;
use vstd::string::StringSliceAdditionalSpecFns;

verus! {

/// Byte that ends every line written to a sink.
pub const LINE_TERMINATOR: u8 = 10;

/// The bytes that one written line contributes to a stream: its UTF-8
/// encoding followed by the line terminator.
pub open spec fn framed(line: Seq<char>) -> Seq<u8> {
    encode_utf8(line).push(LINE_TERMINATOR)
}

/// One write of `data` into a buffer of `capacity` bytes that holds
/// `pending`: the bytes handed to the stream now, and what stays buffered.
/// When `data` does not fit in the spare room, the buffered bytes go out
/// first; data at least as large as the whole capacity bypasses the buffer.
pub open spec fn write_step(capacity: nat, pending: Seq<u8>, data: Seq<u8>) -> (Seq<u8>, Seq<u8>) {
    let spill = pending.len() + data.len() > capacity;
    let direct = data.len() >= capacity;
    let out = (if spill { pending } else { Seq::empty() }) + (if direct { data } else { Seq::empty() });
    let kept = (if spill { Seq::empty() } else { pending }) + (if direct { Seq::empty() } else { data });
    (out, kept)
}

/// A flush: every buffered byte goes out, nothing stays.
pub open spec fn flush_step(pending: Seq<u8>) -> (Seq<u8>, Seq<u8>) {
    (pending, Seq::empty())
}

/// The bytes that a sequence of lines contributes to a stream, in order.
pub open spec fn concat_framed(lines: Seq<Seq<char>>) -> Seq<u8>
    decreases lines.len(),
{
    if lines.len() == 0 {
        Seq::empty()
    } else {
        concat_framed(lines.drop_last()) + framed(lines.last())
    }
}

/// Writes `lines` one after the other into a buffer of `capacity` bytes that
/// holds `pending`: all bytes handed to the stream, and what stays buffered.
pub open spec fn run_lines(capacity: nat, pending: Seq<u8>, lines: Seq<Seq<char>>) -> (Seq<u8>, Seq<u8>)
    decreases lines.len(),
{
    if lines.len() == 0 {
        (Seq::empty(), pending)
    } else {
        let (out, kept) = run_lines(capacity, pending, lines.drop_last());
        let (more, rest) = write_step(capacity, kept, framed(lines.last()));
        (out + more, rest)
    }
}

/// One write neither loses, duplicates nor reorders bytes: what goes out now
/// followed by what stays buffered is what was buffered followed by the data.
pub proof fn lemma_write_step_conserves(capacity: nat, pending: Seq<u8>, data: Seq<u8>)
    requires
        pending.len() <= capacity,
    ensures
        write_step(capacity, pending, data).0 + write_step(capacity, pending, data).1
            == pending + data,
        write_step(capacity, pending, data).1.len() <= capacity,
{
    let (o, k) = write_step(capacity, pending, data);
    assert(o + k =~= pending + data);
}

/// Lines written one at a time, by however many callers whose writes are
/// serialised, reach the stream whole and in the order of the writes: after
/// a final flush the stream holds exactly one framed line per write.
pub proof fn lemma_lines_stay_whole(capacity: nat, pending: Seq<u8>, lines: Seq<Seq<char>>)
    requires
        pending.len() <= capacity,
    ensures
        run_lines(capacity, pending, lines).0 + flush_step(run_lines(capacity, pending, lines).1).0
            == pending + concat_framed(lines),
        flush_step(run_lines(capacity, pending, lines).1).1 == Seq::<u8>::empty(),
        run_lines(capacity, pending, lines).1.len() <= capacity,
    decreases lines.len(),
{
    if lines.len() > 0 {
        lemma_lines_stay_whole(capacity, pending, lines.drop_last());
        let (out, kept) = run_lines(capacity, pending, lines.drop_last());
        lemma_write_step_conserves(capacity, kept, framed(lines.last()));
        let (more, rest) = write_step(capacity, kept, framed(lines.last()));
        assert(out + more + rest =~= (out + kept) + framed(lines.last()));
        assert(pending + concat_framed(lines) =~= pending + concat_framed(lines.drop_last())
            + framed(lines.last()));
    }
}

/// A flush right after a flush hands nothing more to the stream.
pub proof fn lemma_flush_twice(pending: Seq<u8>)
    ensures
        flush_step(flush_step(pending).1).0 == Seq::<u8>::empty(),
        flush_step(flush_step(pending).1).1 == Seq::<u8>::empty(),
{
}

/// With no capacity, every line reaches the stream in the write that takes it.
pub proof fn lemma_unbuffered_writes(data: Seq<u8>)
    ensures
        write_step(0, Seq::empty(), data) == (data, Seq::<u8>::empty()),
{
    let (o, k) = write_step(0, Seq::empty(), data);
    assert(o =~= data);
    assert(k =~= Seq::<u8>::empty());
}

/// A capacity-bounded buffer in front of a byte stream.
///
/// Bytes handed back by its methods are to be written to the stream, in the
/// order in which the methods were called.
pub struct LineBuffer {
    capacity: usize,
    pending: Vec<u8>,
}

impl LineBuffer {
    pub closed spec fn spec_capacity(&self) -> nat {
        self.capacity as nat
    }

    /// Bytes accepted but not yet handed to the stream.
    pub closed spec fn spec_pending(&self) -> Seq<u8> {
        self.pending@
    }

    pub closed spec fn wf(&self) -> bool {
        self.pending@.len() <= self.capacity
    }

    pub fn new(capacity: usize) -> (r: LineBuffer)
        ensures
            r.wf(),
            r.spec_capacity() == capacity,
            r.spec_pending() == Seq::<u8>::empty(),
    {
        LineBuffer { capacity, pending: Vec::new() }
    }

    pub fn capacity(&self) -> (r: usize)
        ensures
            r == self.spec_capacity(),
    {
        self.capacity
    }

    pub fn pending_len(&self) -> (r: usize)
        ensures
            r == self.spec_pending().len(),
    {
        self.pending.len()
    }

    /// Accepts one line and its terminator; returns the bytes that must reach
    /// the stream before this call is considered done.
    pub fn write_line(&mut self, line: &str) -> (r: Vec<u8>)
        requires
            old(self).wf(),
        ensures
            final(self).wf(),
            final(self).spec_capacity() == old(self).spec_capacity(),
            (r@, final(self).spec_pending()) == write_step(
                old(self).spec_capacity(),
                old(self).spec_pending(),
                framed(line@),
            ),
            r@ + final(self).spec_pending() == old(self).spec_pending() + framed(line@),
            old(self).spec_capacity() == 0 ==> r@ == framed(line@),
    {
        let mut data = vstd::slice::slice_to_vec(line.as_bytes());
        data.push(LINE_TERMINATOR);
        let ghost d = data@;
        assert(d == framed(line@));
        let mut out: Vec<u8> = Vec::new();
        let spare = self.capacity - self.pending.len();
        let spill = data.len() > spare;
        if spill {
            out.append(&mut self.pending);
        }
        if data.len() >= self.capacity {
            out.append(&mut data);
        } else {
            self.pending.append(&mut data);
        }
        proof {
            let (o, k) = write_step(self.capacity as nat, old(self).pending@, d);
            assert(out@ =~= o);
            assert(self.pending@ =~= k);
            assert(out@ + self.pending@ =~= old(self).pending@ + d);
        }
        out
    }

    /// Empties the buffer; returns the bytes that must reach the stream,
    /// after which the stream itself is to be flushed.
    pub fn flush(&mut self) -> (r: Vec<u8>)
        requires
            old(self).wf(),
        ensures
            final(self).wf(),
            final(self).spec_capacity() == old(self).spec_capacity(),
            (r@, final(self).spec_pending()) == flush_step(old(self).spec_pending()),
    {
        let mut out: Vec<u8> = Vec::new();
        out.append(&mut self.pending);
        assert(out@ =~= old(self).pending@);
        out
    }
}

} // verus!
