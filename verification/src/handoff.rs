//! The handoff protocol: turning one accepted connection into a spawned
//! worker process that holds a working copy of that connection.
//!
//! The protocol runs, strictly in order: pipe creation, process spawn,
//! socket duplication, source-side close, blob transfer, cleanup. Each of
//! those is an operating-system call, so the protocol is a state machine
//! driven by the host program: [`HandoffMachine::next_action`] prescribes
//! the one call to make, the host makes it and reports the outcome, and the
//! machine decides what follows. Every path, success or failure, ends in a
//! release step that closes exactly the handles still open, so a finished
//! handoff leaves no pipe handle and no source descriptor open.

use vstd::prelude::*;

use crate::error::Error;

verus! {

/// Fixed size, in bytes, of the platform's socket-duplication descriptor
/// structure: the exact length of every handoff blob.
pub const HANDOFF_BLOB_SIZE: usize = 628;

/// A duplicated-descriptor blob: the fixed-size binary structure produced by
/// duplicating a socket descriptor for a specific target process. It is
/// valid only in that process's address space, is written once to the pipe,
/// and is discarded afterwards.
#[derive(Debug, Clone)]
pub struct HandoffBlob {
    bytes: Vec<u8>,
}

impl View for HandoffBlob {
    type V = Seq<u8>;

    closed spec fn view(&self) -> Seq<u8> {
        self.bytes@
    }
}

impl HandoffBlob {
    /// Every blob is exactly [`HANDOFF_BLOB_SIZE`] bytes.
    pub open spec fn wf(self) -> bool {
        self@.len() == HANDOFF_BLOB_SIZE
    }

    /// Accepts the duplication facility's output. Succeeds exactly when the
    /// byte string has the fixed blob size, so no blob of another length
    /// can ever be constructed.
    pub fn new(bytes: Vec<u8>) -> (r: Option<HandoffBlob>)
        ensures
            r is Some <==> bytes@.len() == HANDOFF_BLOB_SIZE,
            r matches Some(b) ==> b.wf() && b@ == bytes@,
    {
        if bytes.len() == HANDOFF_BLOB_SIZE {
            Some(HandoffBlob { bytes })
        } else {
            None
        }
    }

    /// Length of the blob in bytes.
    pub fn len(&self) -> (n: usize)
        ensures
            n == self@.len(),
    {
        self.bytes.len()
    }

    /// The bytes to write to the pipe, unchanged.
    pub fn as_bytes(&self) -> (b: &Vec<u8>)
        ensures
            b@ == self@,
    {
        &self.bytes
    }
}

/// A well-formed blob is always exactly [`HANDOFF_BLOB_SIZE`] bytes.
pub proof fn lemma_blob_fixed_size(b: HandoffBlob)
    requires
        b.wf(),
    ensures
        b@.len() == HANDOFF_BLOB_SIZE,
{
}

/// Phase of one handoff in progress.
#[derive(Debug, Clone, Copy, PartialEq, Eq, Structural)]
pub enum HandoffPhase {
    /// Awaiting the outcome of creating the anonymous pipe.
    CreatingPipe,
    /// Awaiting the outcome of spawning the worker process.
    Spawning,
    /// Awaiting the outcome of duplicating the connection for the worker.
    Duplicating,
    /// Awaiting the outcome of closing the dispatcher's own descriptor.
    ClosingSource,
    /// Awaiting the outcome of writing the blob to the pipe.
    WritingBlob,
    /// Awaiting the release of every handle still open.
    Releasing,
    /// The handoff is over; consult [`HandoffMachine::outcome`].
    Finished,
}

/// The one operating-system call the host program must make next.
#[derive(Debug, Clone, Copy, PartialEq, Eq, Structural)]
pub enum HandoffAction {
    /// Create an anonymous pipe whose read end is inheritable.
    CreatePipe,
    /// Spawn the worker with its standard input redirected to the pipe's
    /// read end.
    SpawnWorker,
    /// Duplicate the accepted connection for the worker's address space.
    DuplicateSocket,
    /// Close the dispatcher's own descriptor for the accepted connection.
    CloseSource,
    /// Write the blob to the pipe's write end in a single write of `len`
    /// bytes.
    WriteBlob { len: usize },
    /// Close exactly the handles flagged true, each open and owned by the
    /// dispatcher; no flag is ever set twice over a handoff.
    Release { pipe_read: bool, pipe_write: bool, source: bool },
    /// Nothing is left to do.
    Done,
}

/// State machine for one handoff, with explicit handle accounting.
///
/// `pipe_read_open`, `pipe_write_open` and `source_open` track which
/// operating-system handles the dispatcher currently owns; `close_failed`
/// records a failed source-side close (reported, but non-fatal to the
/// already-completed duplication); `fault` holds the first fatal error.
#[derive(Debug)]
pub struct HandoffMachine {
    pub phase: HandoffPhase,
    pub pipe_read_open: bool,
    pub pipe_write_open: bool,
    pub source_open: bool,
    pub close_failed: bool,
    pub fault: Option<Error>,
    pub blob: Option<HandoffBlob>,
}

impl HandoffMachine {
    /// Phase-indexed well-formedness of the handle accounting: before the
    /// pipe exists no pipe handle is open, the source descriptor is open
    /// until its close step, and a finished handoff holds no handle at all.
    pub open spec fn wf(self) -> bool {
        match self.phase {
            HandoffPhase::CreatingPipe => {
                &&& !self.pipe_read_open
                &&& !self.pipe_write_open
                &&& self.source_open
                &&& !self.close_failed
                &&& self.fault is None
                &&& self.blob is None
            },
            HandoffPhase::Spawning => {
                &&& self.pipe_read_open
                &&& self.pipe_write_open
                &&& self.source_open
                &&& !self.close_failed
                &&& self.fault is None
                &&& self.blob is None
            },
            HandoffPhase::Duplicating => {
                &&& self.pipe_read_open
                &&& self.pipe_write_open
                &&& self.source_open
                &&& !self.close_failed
                &&& self.fault is None
                &&& self.blob is None
            },
            HandoffPhase::ClosingSource => {
                &&& self.pipe_read_open
                &&& self.pipe_write_open
                &&& self.source_open
                &&& !self.close_failed
                &&& self.fault is None
                &&& self.blob matches Some(b) && b.wf()
            },
            HandoffPhase::WritingBlob => {
                &&& self.pipe_read_open
                &&& self.pipe_write_open
                &&& !self.source_open
                &&& self.fault is None
                &&& self.blob matches Some(b) && b.wf()
            },
            HandoffPhase::Releasing => true,
            HandoffPhase::Finished => {
                &&& !self.pipe_read_open
                &&& !self.pipe_write_open
                &&& !self.source_open
            },
        }
    }

    /// The handoff's result once finished: the first fatal error if one
    /// occurred; otherwise `CloseError` if, and only if, the best-effort
    /// source-side close failed; otherwise success.
    pub open spec fn spec_outcome(self) -> Result<(), Error> {
        match self.fault {
            Some(e) => Err(e),
            None => if self.close_failed {
                Err(Error::CloseError)
            } else {
                Ok(())
            },
        }
    }

    /// Starts a handoff for one accepted connection: the dispatcher owns
    /// the source descriptor and nothing else.
    pub fn start() -> (m: Self)
        ensures
            m.wf(),
            m.phase == HandoffPhase::CreatingPipe,
            m.source_open,
            !m.pipe_read_open,
            !m.pipe_write_open,
    {
        Self {
            phase: HandoffPhase::CreatingPipe,
            pipe_read_open: false,
            pipe_write_open: false,
            source_open: true,
            close_failed: false,
            fault: None,
            blob: None,
        }
    }

    /// The one call to make next. In the releasing phase the flags name
    /// exactly the handles still open, so the host closes each open handle
    /// once and never touches a closed one.
    pub fn next_action(&self) -> (a: HandoffAction)
        requires
            self.wf(),
        ensures
            a == match self.phase {
                HandoffPhase::CreatingPipe => HandoffAction::CreatePipe,
                HandoffPhase::Spawning => HandoffAction::SpawnWorker,
                HandoffPhase::Duplicating => HandoffAction::DuplicateSocket,
                HandoffPhase::ClosingSource => HandoffAction::CloseSource,
                HandoffPhase::WritingBlob => (HandoffAction::WriteBlob { len: HANDOFF_BLOB_SIZE }),
                HandoffPhase::Releasing => (HandoffAction::Release {
                    pipe_read: self.pipe_read_open,
                    pipe_write: self.pipe_write_open,
                    source: self.source_open,
                }),
                HandoffPhase::Finished => HandoffAction::Done,
            },
    {
        match self.phase {
            HandoffPhase::CreatingPipe => HandoffAction::CreatePipe,
            HandoffPhase::Spawning => HandoffAction::SpawnWorker,
            HandoffPhase::Duplicating => HandoffAction::DuplicateSocket,
            HandoffPhase::ClosingSource => HandoffAction::CloseSource,
            HandoffPhase::WritingBlob => HandoffAction::WriteBlob { len: HANDOFF_BLOB_SIZE },
            HandoffPhase::Releasing => HandoffAction::Release {
                pipe_read: self.pipe_read_open,
                pipe_write: self.pipe_write_open,
                source: self.source_open,
            },
            HandoffPhase::Finished => HandoffAction::Done,
        }
    }

    /// The pipe was created: both ends are now open in the dispatcher.
    pub fn pipe_created(&mut self)
        requires
            old(self).wf(),
            old(self).phase == HandoffPhase::CreatingPipe,
        ensures
            final(self).wf(),
            final(self).phase == HandoffPhase::Spawning,
            final(self).pipe_read_open,
            final(self).pipe_write_open,
            final(self).source_open,
            final(self).fault is None,
    {
        self.pipe_read_open = true;
        self.pipe_write_open = true;
        self.phase = HandoffPhase::Spawning;
    }

    /// The pipe could not be created: the handoff fails with
    /// `PipeCreationError`; no pipe handle exists, and the source
    /// descriptor remains to be released.
    pub fn pipe_failed(&mut self)
        requires
            old(self).wf(),
            old(self).phase == HandoffPhase::CreatingPipe,
        ensures
            final(self).wf(),
            final(self).phase == HandoffPhase::Releasing,
            final(self).fault == Some(Error::PipeCreationError),
            !final(self).pipe_read_open,
            !final(self).pipe_write_open,
            final(self).source_open == old(self).source_open,
    {
        self.fault = Some(Error::PipeCreationError);
        self.phase = HandoffPhase::Releasing;
    }

    /// The worker process was spawned with the pipe's read end as its
    /// standard input.
    pub fn worker_spawned(&mut self)
        requires
            old(self).wf(),
            old(self).phase == HandoffPhase::Spawning,
        ensures
            final(self).wf(),
            final(self).phase == HandoffPhase::Duplicating,
            final(self).pipe_read_open,
            final(self).pipe_write_open,
            final(self).source_open,
            final(self).fault is None,
    {
        self.phase = HandoffPhase::Duplicating;
    }

    /// The worker could not be spawned: the handoff fails with
    /// `SpawnError`, and the already-created pipe must be closed before
    /// the error is returned.
    pub fn spawn_failed(&mut self)
        requires
            old(self).wf(),
            old(self).phase == HandoffPhase::Spawning,
        ensures
            final(self).wf(),
            final(self).phase == HandoffPhase::Releasing,
            final(self).fault == Some(Error::SpawnError),
            final(self).pipe_read_open == old(self).pipe_read_open,
            final(self).pipe_write_open == old(self).pipe_write_open,
            final(self).source_open == old(self).source_open,
    {
        self.fault = Some(Error::SpawnError);
        self.phase = HandoffPhase::Releasing;
    }

    /// The connection was duplicated for the worker: the blob, of the fixed
    /// size, is now the only valid form of the connection for the worker's
    /// address space; the dispatcher's own descriptor is closed next.
    pub fn socket_duplicated(&mut self, blob: HandoffBlob)
        requires
            old(self).wf(),
            old(self).phase == HandoffPhase::Duplicating,
            blob.wf(),
        ensures
            final(self).wf(),
            final(self).phase == HandoffPhase::ClosingSource,
            final(self).blob == Some(blob),
            final(self).source_open,
    {
        self.blob = Some(blob);
        self.phase = HandoffPhase::ClosingSource;
    }

    /// The connection could not be duplicated: the handoff fails with
    /// `DuplicationError`.
    pub fn duplication_failed(&mut self)
        requires
            old(self).wf(),
            old(self).phase == HandoffPhase::Duplicating,
        ensures
            final(self).wf(),
            final(self).phase == HandoffPhase::Releasing,
            final(self).fault == Some(Error::DuplicationError),
            final(self).pipe_read_open == old(self).pipe_read_open,
            final(self).pipe_write_open == old(self).pipe_write_open,
            final(self).source_open == old(self).source_open,
    {
        self.fault = Some(Error::DuplicationError);
        self.phase = HandoffPhase::Releasing;
    }

    /// The source-side close was attempted. Ownership has conceptually
    /// transferred to the duplicated descriptor, so the dispatcher's
    /// accounting drops the source either way; a failed close is recorded
    /// and surfaces as `CloseError` in the outcome, but the blob transfer
    /// still proceeds.
    pub fn source_closed(&mut self, ok: bool)
        requires
            old(self).wf(),
            old(self).phase == HandoffPhase::ClosingSource,
        ensures
            final(self).wf(),
            final(self).phase == HandoffPhase::WritingBlob,
            !final(self).source_open,
            final(self).close_failed == !ok,
            final(self).fault is None,
            final(self).blob == old(self).blob,
    {
        self.source_open = false;
        self.close_failed = !ok;
        self.phase = HandoffPhase::WritingBlob;
    }

    /// The bytes the host must write to the pipe, in a single write: the
    /// blob, exactly [`HANDOFF_BLOB_SIZE`] bytes.
    pub fn blob_to_write(&self) -> (b: &HandoffBlob)
        requires
            self.wf(),
            self.phase == HandoffPhase::WritingBlob,
        ensures
            *b == self.blob->Some_0,
            b@.len() == HANDOFF_BLOB_SIZE,
    {
        match &self.blob {
            Some(b) => b,
            None => unreached(),
        }
    }

    /// The write returned, having written `written` bytes. The transfer
    /// succeeds only if all bytes went in that one write: anything short is
    /// a protocol violation and fails the handoff with `WriteError` — there
    /// is no partial-write retry. Both pipe handles remain to be released.
    pub fn blob_written(&mut self, written: usize)
        requires
            old(self).wf(),
            old(self).phase == HandoffPhase::WritingBlob,
        ensures
            final(self).wf(),
            final(self).phase == HandoffPhase::Releasing,
            written == HANDOFF_BLOB_SIZE ==> final(self).fault is None,
            written != HANDOFF_BLOB_SIZE ==> final(self).fault == Some(
                Error::WriteError { written },
            ),
            final(self).pipe_read_open == old(self).pipe_read_open,
            final(self).pipe_write_open == old(self).pipe_write_open,
            !final(self).source_open,
            final(self).close_failed == old(self).close_failed,
    {
        if written != HANDOFF_BLOB_SIZE {
            self.fault = Some(Error::WriteError { written });
        }
        self.phase = HandoffPhase::Releasing;
    }

    /// Every handle named by the release action was closed: the handoff is
    /// finished and the dispatcher holds no pipe handle and no source
    /// descriptor, whatever path led here.
    pub fn handles_released(&mut self)
        requires
            old(self).wf(),
            old(self).phase == HandoffPhase::Releasing,
        ensures
            final(self).wf(),
            final(self).phase == HandoffPhase::Finished,
            !final(self).pipe_read_open,
            !final(self).pipe_write_open,
            !final(self).source_open,
            final(self).fault == old(self).fault,
            final(self).close_failed == old(self).close_failed,
    {
        self.pipe_read_open = false;
        self.pipe_write_open = false;
        self.source_open = false;
        self.blob = None;
        self.phase = HandoffPhase::Finished;
    }

    /// The finished handoff's result, exactly [`spec_outcome`]: the first
    /// fatal error; else `CloseError` if the source-side close failed; else
    /// success.
    ///
    /// [`spec_outcome`]: HandoffMachine::spec_outcome
    pub fn outcome(&self) -> (r: Result<(), Error>)
        requires
            self.wf(),
            self.phase == HandoffPhase::Finished,
        ensures
            r == self.spec_outcome(),
    {
        match self.fault {
            Some(e) => Err(e),
            None => {
                if self.close_failed {
                    Err(Error::CloseError)
                } else {
                    Ok(())
                }
            },
        }
    }
}

/// A finished handoff holds no open handle: on every path, success or
/// failure, both pipe handles and the dispatcher's source descriptor have
/// been released by the time the machine is finished.
pub proof fn lemma_finished_releases_everything(m: HandoffMachine)
    requires
        m.wf(),
        m.phase == HandoffPhase::Finished,
    ensures
        !m.pipe_read_open,
        !m.pipe_write_open,
        !m.source_open,
{
}

} // verus!
