//! In-process stream bridging for the local invocation path.
//!
//! The local path of the dispatcher emulates two independent unidirectional
//! pipes with a bounded single-slot byte channel: a producer blocks (observes
//! `Full`) once the single pending chunk is unread, end-of-input is signalled
//! by an explicit half-close, and a write after the reader dropped its end
//! fails with a `Closed` condition.  Both ends of a dispatched call are a
//! tagged union of the local pipe and a remote transport handle, so callers
//! cannot distinguish locality from the type alone.

use vstd::prelude::*;
use vstd::string::StringExecFns;

verus! {

/// Copy a byte buffer exactly.
pub fn copy_bytes(v: &Vec<u8>) -> (r: Vec<u8>)
    ensures
        r@ == v@,
{
    let n = v.len();
    let mut r: Vec<u8> = Vec::new();
    let mut i: usize = 0;
    while i < n
        invariant
            n == v@.len(),
            0 <= i <= n,
            r@ == v@.subrange(0, i as int),
        decreases n - i,
    {
        r.push(v[i]);
        proof {
            assert(r@ =~= v@.subrange(0, i + 1));
        }
        i += 1;
    }
    proof {
        assert(r@ =~= v@);
    }
    r
}

/// What a write to the in-process stream observed.
pub enum WriteOutcome {
    /// The chunk was accepted into the single slot.
    Accepted,
    /// The slot still holds an unread chunk: back-pressure, try again after
    /// the reader polled.
    Full,
    /// The stream is no longer writable: the reader dropped its end, or the
    /// writer already half-closed.
    Closed,
}

/// What a read from the in-process stream observed.
pub enum ReadOutcome {
    /// The pending chunk.
    Data(Vec<u8>),
    /// No chunk is pending and the writer has not half-closed: the read
    /// would block.
    Pending,
    /// End of stream: no chunk is pending and the writer half-closed, so
    /// every written byte has been consumed.
    Eof,
}

/// One direction of the in-process stream bridge: a bounded channel whose
/// capacity is a single pending chunk, with explicit half-close.  The ghost
/// histories record every byte accepted and every byte handed out.
pub struct MyDuplexStream {
    slot: Option<Vec<u8>>,
    closed: bool,
    reader_live: bool,
    hist_in: Ghost<Seq<u8>>,
    hist_out: Ghost<Seq<u8>>,
}

impl MyDuplexStream {
    /// Every byte ever accepted from the writer, in order.
    pub closed spec fn written(&self) -> Seq<u8> {
        self.hist_in@
    }

    /// Every byte ever handed to the reader, in order.
    pub closed spec fn consumed(&self) -> Seq<u8> {
        self.hist_out@
    }

    /// The bytes of the chunk occupying the slot, if any.
    pub closed spec fn pending(&self) -> Seq<u8> {
        match self.slot {
            Option::Some(b) => b@,
            Option::None => Seq::empty(),
        }
    }

    /// The single slot holds an unread chunk.
    pub closed spec fn has_chunk(&self) -> bool {
        self.slot is Some
    }

    /// The writer signalled end-of-input.
    pub closed spec fn is_closed(&self) -> bool {
        self.closed
    }

    /// The reader still holds its end.
    pub closed spec fn has_reader(&self) -> bool {
        self.reader_live
    }

    /// What was accepted is exactly what was handed out plus what is still
    /// pending in the slot.
    pub open spec fn wf(&self) -> bool {
        self.written() == self.consumed() + self.pending()
    }

    pub fn new() -> (s: Self)
        ensures
            s.wf(),
            !s.is_closed(),
            s.has_reader(),
            !s.has_chunk(),
            s.written() == Seq::<u8>::empty(),
            s.consumed() == Seq::<u8>::empty(),
    {
        let s = MyDuplexStream {
            slot: Option::None,
            closed: false,
            reader_live: true,
            hist_in: Ghost(Seq::empty()),
            hist_out: Ghost(Seq::empty()),
        };
        proof {
            assert(s.written() =~= s.consumed() + s.pending());
        }
        s
    }

    /// Offer one chunk to the stream.
    pub fn write(&mut self, data: Vec<u8>) -> (r: WriteOutcome)
        requires
            old(self).wf(),
        ensures
            final(self).wf(),
            write_transition(*old(self), *final(self), data@, r),
    {
        if self.closed || !self.reader_live {
            return WriteOutcome::Closed;
        }
        if self.slot.is_some() {
            return WriteOutcome::Full;
        }
        let ghost d = data@;
        self.slot = Option::Some(data);
        proof {
            self.hist_in@ = self.hist_in@ + d;
        }
        WriteOutcome::Accepted
    }

    /// Poll the stream for the pending chunk.
    pub fn read(&mut self) -> (r: ReadOutcome)
        requires
            old(self).wf(),
        ensures
            final(self).wf(),
            read_transition(*old(self), *final(self), r),
    {
        let chunk = self.slot.take();
        match chunk {
            Option::Some(d) => {
                proof {
                    self.hist_out@ = self.hist_out@ + d@;
                }
                ReadOutcome::Data(d)
            },
            Option::None => {
                if self.closed {
                    ReadOutcome::Eof
                } else {
                    ReadOutcome::Pending
                }
            },
        }
    }

    /// Half-close: signal end-of-input.  The reader observes end-of-stream
    /// only after consuming every pending byte.
    pub fn shutdown(&mut self)
        requires
            old(self).wf(),
        ensures
            final(self).wf(),
            final(self).is_closed(),
            final(self).written() == old(self).written(),
            final(self).consumed() == old(self).consumed(),
            final(self).pending() == old(self).pending(),
            final(self).has_chunk() == old(self).has_chunk(),
            final(self).has_reader() == old(self).has_reader(),
    {
        self.closed = true;
    }

    /// Flushing is a no-op: the single slot is the only buffer.
    pub fn flush(&mut self)
        requires
            old(self).wf(),
        ensures
            *final(self) == *old(self),
    {
    }

    /// The reader drops its end; later writes observe `Closed`.
    pub fn drop_reader(&mut self)
        requires
            old(self).wf(),
        ensures
            final(self).wf(),
            !final(self).has_reader(),
            final(self).written() == old(self).written(),
            final(self).consumed() == old(self).consumed(),
            final(self).pending() == old(self).pending(),
            final(self).has_chunk() == old(self).has_chunk(),
            final(self).is_closed() == old(self).is_closed(),
    {
        self.reader_live = false;
    }

    /// Hierarchical sub-stream addressing is not supported on the in-process
    /// path in this generation of the design: it fails fast rather than
    /// silently ignoring the path.
    pub fn index(&self, _path: &Vec<usize>) -> (r: Result<MyDuplexStream, String>)
        ensures
            r is Err,
            r matches Err(m) ==> m@ == "Index not implemented for MyDuplexStream"@,
    {
        Err(index_unsupported_message())
    }

    /// Consume the rest of a half-closed stream.
    pub fn read_to_end(&mut self) -> (out: Vec<u8>)
        requires
            old(self).wf(),
            old(self).is_closed(),
        ensures
            final(self).wf(),
            out@ == old(self).pending(),
            final(self).consumed() == old(self).consumed() + out@,
            final(self).consumed() == final(self).written(),
            final(self).written() == old(self).written(),
            !final(self).has_chunk(),
    {
        let mut out: Vec<u8> = Vec::new();
        let r = self.read();
        match r {
            ReadOutcome::Data(mut d) => {
                out.append(&mut d);
                proof {
                    assert(out@ =~= old(self).pending());
                }
            },
            ReadOutcome::Eof => {
                proof {
                    assert(out@ =~= old(self).pending());
                }
            },
            ReadOutcome::Pending => {
                proof {
                    assert(false);
                }
            },
        }
        out
    }
}

fn index_unsupported_message() -> (r: String)
    ensures
        r@ == "Index not implemented for MyDuplexStream"@,
{
    String::from_str("Index not implemented for MyDuplexStream")
}

/// How a write relates the stream before and after the call.
pub open spec fn write_transition(
    pre: MyDuplexStream,
    post: MyDuplexStream,
    data: Seq<u8>,
    r: WriteOutcome,
) -> bool {
    match r {
        WriteOutcome::Accepted => !pre.is_closed() && pre.has_reader() && !pre.has_chunk()
            && post.written() == pre.written() + data && post.consumed() == pre.consumed()
            && post.pending() == data && post.has_chunk() && !post.is_closed()
            && post.has_reader(),
        WriteOutcome::Full => !pre.is_closed() && pre.has_reader() && pre.has_chunk() && post
            == pre,
        WriteOutcome::Closed => (pre.is_closed() || !pre.has_reader()) && post == pre,
    }
}

/// How a read relates the stream before and after the call.
pub open spec fn read_transition(pre: MyDuplexStream, post: MyDuplexStream, r: ReadOutcome) -> bool {
    match r {
        ReadOutcome::Data(d) => pre.has_chunk() && d@ == pre.pending() && post.consumed()
            == pre.consumed() + d@ && post.written() == pre.written() && !post.has_chunk()
            && post.is_closed() == pre.is_closed() && post.has_reader() == pre.has_reader(),
        ReadOutcome::Pending => !pre.has_chunk() && !pre.is_closed() && post == pre,
        ReadOutcome::Eof => !pre.has_chunk() && pre.is_closed() && post == pre && post.consumed()
            == post.written(),
    }
}

/// Local-path round-trip: on a well-formed stream from which nothing has yet
/// been read, the bytes the callee will observe (the pending chunk) are
/// exactly the bytes the caller wrote, in order; and whenever end-of-stream
/// is observed, every written byte has been consumed (`read_transition`,
/// `Eof` case).
pub proof fn lemma_local_round_trip(s: MyDuplexStream, request: Seq<u8>)
    requires
        s.wf(),
        s.written() == request,
        s.consumed() == Seq::<u8>::empty(),
    ensures
        s.pending() == request,
{
    assert(s.consumed() + s.pending() =~= s.pending());
}

/// Build the host-to-guest pipe for a local call: the full request is written
/// as the single pending chunk and end-of-input is signalled, before the
/// callee reads anything.
pub fn send_request(request: Vec<u8>) -> (s: MyDuplexStream)
    ensures
        s.wf(),
        s.written() == request@,
        s.consumed() == Seq::<u8>::empty(),
        s.pending() == request@,
        s.is_closed(),
        s.has_reader(),
{
    let mut s = MyDuplexStream::new();
    let r = s.write(request);
    match r {
        WriteOutcome::Accepted => {},
        _ => {
            proof {
                assert(false);
            }
        },
    }
    s.shutdown();
    proof {
        assert(s.written() =~= request@);
    }
    s
}

/// The write end of a dispatched call: the local in-process pipe, or a handle
/// of the remote transport session.
pub enum EitherOutgoing<R> {
    Local(MyDuplexStream),
    Remote(R),
}

/// The read end of a dispatched call.
pub enum EitherIncoming<R> {
    Local(MyDuplexStream),
    Remote(R),
}

/// A step of a uniform stream operation: either the local pipe completed it,
/// or the caller must drive its remote transport handle.
pub enum LocalStep<T> {
    Done(T),
    Remote,
}

impl<R> EitherOutgoing<R> {
    pub open spec fn is_local(&self) -> bool {
        self is Local
    }

    pub open spec fn local_pipe(&self) -> MyDuplexStream
        recommends
            self.is_local(),
    {
        self->Local_0
    }

    /// Uniform write: serviced by the local pipe, or handed to the remote
    /// transport by the caller.
    pub fn write(&mut self, data: Vec<u8>) -> (r: LocalStep<WriteOutcome>)
        requires
            old(self).is_local() ==> old(self).local_pipe().wf(),
        ensures
            old(self).is_local() ==> final(self).is_local() && final(self).local_pipe().wf() && (
            r matches LocalStep::Done(o) && write_transition(
                old(self).local_pipe(),
                final(self).local_pipe(),
                data@,
                o,
            )),
            !old(self).is_local() ==> r is Remote && *final(self) == *old(self),
    {
        match self {
            EitherOutgoing::Local(s) => LocalStep::Done(s.write(data)),
            EitherOutgoing::Remote(_) => LocalStep::Remote,
        }
    }

    /// Uniform flush.
    pub fn flush(&mut self) -> (r: LocalStep<()>)
        requires
            old(self).is_local() ==> old(self).local_pipe().wf(),
        ensures
            *final(self) == *old(self),
            old(self).is_local() ==> r is Done,
            !old(self).is_local() ==> r is Remote,
    {
        match self {
            EitherOutgoing::Local(s) => {
                s.flush();
                LocalStep::Done(())
            },
            EitherOutgoing::Remote(_) => LocalStep::Remote,
        }
    }

    /// Uniform shutdown: half-close the local pipe, or hand the shutdown to
    /// the remote transport.
    pub fn shutdown(&mut self) -> (r: LocalStep<()>)
        requires
            old(self).is_local() ==> old(self).local_pipe().wf(),
        ensures
            old(self).is_local() ==> final(self).is_local() && final(self).local_pipe().wf()
                && final(self).local_pipe().is_closed() && final(self).local_pipe().written()
                == old(self).local_pipe().written() && final(self).local_pipe().consumed()
                == old(self).local_pipe().consumed() && final(self).local_pipe().pending()
                == old(self).local_pipe().pending() && r is Done,
            !old(self).is_local() ==> r is Remote && *final(self) == *old(self),
    {
        match self {
            EitherOutgoing::Local(s) => {
                s.shutdown();
                LocalStep::Done(())
            },
            EitherOutgoing::Remote(_) => LocalStep::Remote,
        }
    }

    /// Sub-stream addressing: fails fast on the local path, and is the remote
    /// transport's business otherwise.
    pub fn index(&self, _path: &Vec<usize>) -> (r: Result<(), String>)
        ensures
            r is Ok <==> !self.is_local(),
            r matches Err(m) ==> m@ == "Index not implemented for MyDuplexStream"@,
    {
        match self {
            EitherOutgoing::Local(_) => Err(index_unsupported_message()),
            EitherOutgoing::Remote(_) => Ok(()),
        }
    }
}

impl<R> EitherIncoming<R> {
    pub open spec fn is_local(&self) -> bool {
        self is Local
    }

    pub open spec fn local_pipe(&self) -> MyDuplexStream
        recommends
            self.is_local(),
    {
        self->Local_0
    }

    /// Uniform read: serviced by the local pipe, or handed to the remote
    /// transport by the caller.
    pub fn read(&mut self) -> (r: LocalStep<ReadOutcome>)
        requires
            old(self).is_local() ==> old(self).local_pipe().wf(),
        ensures
            old(self).is_local() ==> final(self).is_local() && final(self).local_pipe().wf() && (
            r matches LocalStep::Done(o) && read_transition(
                old(self).local_pipe(),
                final(self).local_pipe(),
                o,
            )),
            !old(self).is_local() ==> r is Remote && *final(self) == *old(self),
    {
        match self {
            EitherIncoming::Local(s) => LocalStep::Done(s.read()),
            EitherIncoming::Remote(_) => LocalStep::Remote,
        }
    }

    /// Sub-stream addressing: fails fast on the local path.
    pub fn index(&self, _path: &Vec<usize>) -> (r: Result<(), String>)
        ensures
            r is Ok <==> !self.is_local(),
            r matches Err(m) ==> m@ == "Index not implemented for MyDuplexStream"@,
    {
        match self {
            EitherIncoming::Local(_) => Err(index_unsupported_message()),
            EitherIncoming::Remote(_) => Ok(()),
        }
    }
}

} // verus!
