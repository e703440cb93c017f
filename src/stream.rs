//! The offloaded stream: construction that hands the resource back on
//! failure, and the read path that absorbs alerts signalled out of band.
use vstd::prelude::*;
use core::marker::PhantomData;
use crate::cmsg::{body_fits, frame_record, framed, spec_record_type_of, Ancillary, CtrlError, ALERT, HEADER_LENGTH};
use crate::codec::{Alert, CheckError, Level, Record};

verus! {

/// Size of the scratch buffer that an out-of-band record is received into.
pub const SCRATCH_LEN: usize = 16 * 1024;

/// Declares std's `std::io::Error`, so that a failed setup can carry the
/// error of the socket call back to the caller; nothing is assumed of it.
#[verifier::external_type_specification]
#[verifier::external_body]
pub struct ExIoError(std::io::Error);

/// A failed setup: the error, and the resource that was handed in.
#[derive(Debug)]
pub struct Error<T> {
    pub error: std::io::Error,
    pub inner: T,
}

/// A record to send out of band: its type and its body.
#[derive(Debug)]
pub struct ControlRecord {
    pub record_type: u8,
    pub payload: Vec<u8>,
}

/// Where a read stands.
#[derive(Debug, Clone, Copy, PartialEq, Eq, Structural)]
pub enum ReadPhase {
    /// No read in progress.
    Idle,
    /// Waiting for the first plain read.
    Reading,
    /// Waiting for the out-of-band record.
    Receiving,
    /// Waiting for the reciprocated close_notify to be sent.
    Reciprocating,
    /// Waiting for the one plain read that follows a non-fatal record.
    Retrying,
}

/// What the caller observed when it carried out the last action.
#[derive(Debug)]
pub enum ReadEvent {
    /// The plain read returned this many bytes.
    Data(usize),
    /// The plain read failed with the error that signals an out-of-band record.
    OutOfBand,
    /// The operation failed with another error, which the caller keeps.
    Failed,
    /// The receive wrote `len` body bytes after the reserved header of
    /// `record`, and reported `entry` as its first ancillary entry;
    /// `truncated` says that the record did not fit and was cut short.
    Received { record: Vec<u8>, len: usize, entry: Option<Ancillary>, truncated: bool },
    /// The record was handed to the send call, whatever its result.
    Sent,
}

/// Why a read failed.
#[derive(Debug, Clone, Copy, PartialEq, Eq, Structural)]
pub enum ReadError {
    /// The last operation failed; its error is the one to report.
    Io,
    /// The out-of-band receive carried application data.
    NotRecord,
    /// The out-of-band record was too large.
    Oversized,
    /// The out-of-band record did not decode.
    Decode(CheckError),
    /// The event does not answer the action that was asked for.
    Unexpected,
}

/// What the caller does next.
#[derive(Debug)]
pub enum ReadAction {
    /// Read plainly from the socket into the caller's buffer.
    Read,
    /// Receive the pending out-of-band record into a scratch buffer of
    /// `SCRATCH_LEN` bytes, after its first `HEADER_LENGTH` bytes.
    Receive,
    /// Send this record out of band, ignoring the outcome.
    Send(ControlRecord),
    /// The read is over, with this result.
    Done(Result<usize, ReadError>),
}

/// A read action with the record to send reduced to its content.
pub enum Step {
    Read,
    Receive,
    Send { record_type: u8, payload: Seq<u8> },
    Done(Result<usize, ReadError>),
}

impl ReadAction {
    /// The step this action stands for.
    pub open spec fn step(&self) -> Step {
        match self {
            ReadAction::Read => Step::Read,
            ReadAction::Receive => Step::Receive,
            ReadAction::Send(c) => Step::Send { record_type: c.record_type, payload: c.payload@ },
            ReadAction::Done(r) => Step::Done(*r),
        }
    }
}

/// The record a receive produced, once framed, or why it cannot be: a
/// record cut short or too long for a header is oversized.
pub open spec fn received_record(
    record: Seq<u8>,
    len: usize,
    entry: Option<Ancillary>,
    truncated: bool,
) -> Result<Seq<u8>, ReadError> {
    if truncated || !body_fits(record.len(), len as nat) {
        Err(ReadError::Oversized)
    } else if spec_record_type_of(entry) is None {
        Err(ReadError::NotRecord)
    } else {
        Ok(
            framed(
                spec_record_type_of(entry)->0,
                record.subrange(HEADER_LENGTH as int, HEADER_LENGTH + len),
            ),
        )
    }
}

/// The reaction to a decoded out-of-band record: a fatal close_notify is
/// reciprocated, any other fatal alert ends the read at end of file, and a
/// warning or a record that is not an alert leads to one more plain read.
pub open spec fn on_record<R: Record>(decoded: Result<Option<(Level, Alert)>, CheckError>) -> (
    ReadPhase,
    Step,
) {
    match decoded {
        Err(e) => (ReadPhase::Idle, Step::Done(Err(ReadError::Decode(e)))),
        Ok(Some((Level::Fatal, Alert::CloseNotify))) => (
            ReadPhase::Reciprocating,
            Step::Send { record_type: ALERT, payload: R::encoded(Level::Fatal, Alert::CloseNotify) },
        ),
        Ok(Some((Level::Fatal, _))) => (ReadPhase::Idle, Step::Done(Ok(0))),
        _ => (ReadPhase::Retrying, Step::Read),
    }
}

/// The read path as a transition: from the phase and the event, the next
/// phase and what to do.
pub open spec fn read_transition<R: Record>(phase: ReadPhase, event: ReadEvent) -> (ReadPhase, Step) {
    match (phase, event) {
        (ReadPhase::Reading, ReadEvent::Data(n)) => (ReadPhase::Idle, Step::Done(Ok(n))),
        (ReadPhase::Retrying, ReadEvent::Data(n)) => (ReadPhase::Idle, Step::Done(Ok(n))),
        (ReadPhase::Reading, ReadEvent::OutOfBand) => (ReadPhase::Receiving, Step::Receive),
        (ReadPhase::Retrying, ReadEvent::OutOfBand) => (ReadPhase::Idle, Step::Done(Err(ReadError::Io))),
        (ReadPhase::Reading, ReadEvent::Failed) => (ReadPhase::Idle, Step::Done(Err(ReadError::Io))),
        (ReadPhase::Retrying, ReadEvent::Failed) => (ReadPhase::Idle, Step::Done(Err(ReadError::Io))),
        (ReadPhase::Receiving, ReadEvent::Failed) => (ReadPhase::Idle, Step::Done(Err(ReadError::Io))),
        (
            ReadPhase::Receiving,
            ReadEvent::Received { record, len, entry, truncated },
        ) => match received_record(record@, len, entry, truncated) {
            Err(e) => (ReadPhase::Idle, Step::Done(Err(e))),
            Ok(framed_record) => on_record::<R>(R::decoded(framed_record)),
        },
        (ReadPhase::Reciprocating, ReadEvent::Sent) => (ReadPhase::Idle, Step::Done(Ok(0))),
        (ReadPhase::Reciprocating, ReadEvent::Failed) => (ReadPhase::Idle, Step::Done(Ok(0))),
        _ => (ReadPhase::Idle, Step::Done(Err(ReadError::Unexpected))),
    }
}

/// A read retries at most once: whatever the retried plain read yields,
/// another out-of-band signal included, the read is over.
pub proof fn lemma_single_retry<R: Record>(event: ReadEvent)
    ensures
        read_transition::<R>(ReadPhase::Retrying, event).0 == ReadPhase::Idle,
        read_transition::<R>(ReadPhase::Retrying, event).1 is Done,
        event is OutOfBand ==> read_transition::<R>(ReadPhase::Retrying, event).1 == Step::Done(
            Err(ReadError::Io),
        ),
{
}

/// A duplex resource whose TLS records are handled by the kernel, read and
/// written as plain data, with `R` decoding the records that arrive out of band.
#[derive(Debug)]
pub struct KtlsStream<IO, R> {
    io: IO,
    is_shutdown: bool,
    reading: ReadPhase,
    _codec: PhantomData<R>,
}

impl<IO, R> KtlsStream<IO, R> {
    /// The wrapped resource.
    pub closed spec fn spec_io(&self) -> IO {
        self.io
    }

    /// Whether close_notify has been sent.
    pub closed spec fn spec_shutdown(&self) -> bool {
        self.is_shutdown
    }

    /// Where the current read stands.
    pub closed spec fn spec_phase(&self) -> ReadPhase {
        self.reading
    }

    /// The wrapped resource.
    pub fn get_ref(&self) -> (r: &IO)
        ensures
            *r == self.spec_io(),
    {
        &self.io
    }

    /// The wrapped resource, mutably.
    pub fn get_mut(&mut self) -> (r: &mut IO)
        ensures
            *r == old(self).spec_io(),
            final(self).spec_io() == *final(r),
            final(self).spec_shutdown() == old(self).spec_shutdown(),
            final(self).spec_phase() == old(self).spec_phase(),
    {
        &mut self.io
    }

    /// Gives the wrapped resource back.
    pub fn into_inner(self) -> (r: IO)
        ensures
            r == self.spec_io(),
    {
        self.io
    }

    /// Whether close_notify has been sent.
    pub fn is_shutdown(&self) -> (r: bool)
        ensures
            r == self.spec_shutdown(),
    {
        self.is_shutdown
    }

    /// Where the current read stands.
    pub fn phase(&self) -> (r: ReadPhase)
        ensures
            r == self.spec_phase(),
    {
        self.reading
    }
}

impl<IO, R: Record> KtlsStream<IO, R> {
    /// Wraps a resource on which the offload was attempted, `started` being
    /// the outcome of setting the options of `sys::start`. On failure the
    /// error comes back together with the very resource that was handed in.
    pub fn new(io: IO, started: Result<(), std::io::Error>) -> (r: Result<Self, Error<IO>>)
        ensures
            started is Ok ==> (r matches Ok(s) && s.spec_io() == io && !s.spec_shutdown()
                && s.spec_phase() == ReadPhase::Idle),
            started matches Err(e) ==> (r matches Err(f) && f.error == e && f.inner == io),
    {
        match started {
            Ok(()) => Ok(KtlsStream { io, is_shutdown: false, reading: ReadPhase::Idle, _codec: PhantomData }),
            Err(error) => Err(Error { error, inner: io }),
        }
    }

    /// The fatal close_notify record, as an alert to send out of band.
    pub fn close_notify_record(&self) -> (r: ControlRecord)
        ensures
            r.record_type == ALERT,
            r.payload@ == R::encoded(Level::Fatal, Alert::CloseNotify),
    {
        ControlRecord { record_type: ALERT, payload: R::build(Level::Fatal, Alert::CloseNotify) }
    }

    /// Starts a read: the first action is a plain read.
    pub fn begin_read(&mut self) -> (r: ReadAction)
        ensures
            r is Read,
            final(self).spec_phase() == ReadPhase::Reading,
            final(self).spec_io() == old(self).spec_io(),
            final(self).spec_shutdown() == old(self).spec_shutdown(),
    {
        self.reading = ReadPhase::Reading;
        ReadAction::Read
    }

    /// Takes the outcome of the last action and says what to do next. A
    /// reciprocated close_notify marks the stream as shut down, whether or
    /// not it could be sent.
    pub fn on_event(&mut self, event: ReadEvent) -> (r: ReadAction)
        ensures
            (final(self).spec_phase(), r.step()) == read_transition::<R>(old(self).spec_phase(), event),
            final(self).spec_io() == old(self).spec_io(),
            final(self).spec_shutdown() == (old(self).spec_shutdown() || (old(self).spec_phase()
                == ReadPhase::Reciprocating && (event is Sent || event is Failed))),
    {
        let phase = self.reading;
        self.reading = ReadPhase::Idle;
        match (phase, event) {
            (ReadPhase::Reading, ReadEvent::Data(n)) => ReadAction::Done(Ok(n)),
            (ReadPhase::Retrying, ReadEvent::Data(n)) => ReadAction::Done(Ok(n)),
            (ReadPhase::Reading, ReadEvent::OutOfBand) => {
                self.reading = ReadPhase::Receiving;
                ReadAction::Receive
            },
            (ReadPhase::Reading, ReadEvent::Failed) => ReadAction::Done(Err(ReadError::Io)),
            (ReadPhase::Retrying, ReadEvent::OutOfBand) => ReadAction::Done(Err(ReadError::Io)),
            (ReadPhase::Retrying, ReadEvent::Failed) => ReadAction::Done(Err(ReadError::Io)),
            (ReadPhase::Receiving, ReadEvent::Failed) => ReadAction::Done(Err(ReadError::Io)),
            (ReadPhase::Receiving, ReadEvent::Received { record, len, entry, truncated }) => {
                self.on_received(record, len, entry, truncated)
            },
            (ReadPhase::Reciprocating, ReadEvent::Sent) => {
                self.is_shutdown = true;
                ReadAction::Done(Ok(0))
            },
            (ReadPhase::Reciprocating, ReadEvent::Failed) => {
                self.is_shutdown = true;
                ReadAction::Done(Ok(0))
            },
            _ => ReadAction::Done(Err(ReadError::Unexpected)),
        }
    }

    /// Frames and decodes a received record, then reacts to it.
    fn on_received(
        &mut self,
        record: Vec<u8>,
        len: usize,
        entry: Option<Ancillary>,
        truncated: bool,
    ) -> (r: ReadAction)
        requires
            old(self).spec_phase() == ReadPhase::Idle,
        ensures
            (final(self).spec_phase(), r.step()) == match received_record(record@, len, entry, truncated) {
                Err(e) => (ReadPhase::Idle, Step::Done(Err(e))),
                Ok(framed_record) => on_record::<R>(R::decoded(framed_record)),
            },
            final(self).spec_io() == old(self).spec_io(),
            final(self).spec_shutdown() == old(self).spec_shutdown(),
    {
        if truncated {
            return ReadAction::Done(Err(ReadError::Oversized));
        }
        let mut record = record;
        let ghost original = record@;
        let total = match frame_record(&mut record, len, entry) {
            Ok(total) => total,
            Err(CtrlError::NotRecord) => return ReadAction::Done(Err(ReadError::NotRecord)),
            Err(CtrlError::Oversized) => return ReadAction::Done(Err(ReadError::Oversized)),
        };
        let whole = vstd::slice::slice_subrange(record.as_slice(), 0, total);
        assert(whole@ == received_record(original, len, entry, truncated)->Ok_0);
        match R::check(whole) {
            Err(e) => ReadAction::Done(Err(ReadError::Decode(e))),
            Ok(Some((Level::Fatal, Alert::CloseNotify))) => {
                self.reading = ReadPhase::Reciprocating;
                ReadAction::Send(self.close_notify_record())
            },
            Ok(Some((Level::Fatal, _))) => ReadAction::Done(Ok(0)),
            _ => {
                self.reading = ReadPhase::Retrying;
                ReadAction::Read
            },
        }
    }

    /// The record to send when the stream is shut down: close_notify, unless
    /// it has been sent already.
    pub fn begin_shutdown(&self) -> (r: Option<ControlRecord>)
        ensures
            self.spec_shutdown() ==> r is None,
            !self.spec_shutdown() ==> (r matches Some(c) && c.record_type == ALERT && c.payload@
                == R::encoded(Level::Fatal, Alert::CloseNotify)),
    {
        if self.is_shutdown {
            None
        } else {
            Some(self.close_notify_record())
        }
    }

    /// Records that close_notify has been sent.
    pub fn close_notify_sent(&mut self)
        ensures
            final(self).spec_shutdown(),
            final(self).spec_io() == old(self).spec_io(),
            final(self).spec_phase() == old(self).spec_phase(),
    {
        self.is_shutdown = true;
    }
}

} // verus!
