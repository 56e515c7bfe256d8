//! Where the data of a session lives, and how a file travels between the
//! local machine and a host.

use crate::ssh::errors::{SshError, SshFault};
use crate::text::{chars_of, join3};
use vstd::prelude::*;

verus! {

/// The local data directory when the command line names none.
pub const DEFAULT_LOCAL_ROOT: &'static str = "kb.data";

/// The remote directory when none is given: the one that a session begins in.
pub const DEFAULT_REMOTE_ROOT: &'static str = ".";

/// The greatest number of bytes that travel in one piece.
pub const CHUNK_SIZE: usize = 32768;

/// `name` inside the directory `root`.
pub fn join_path(root: &str, name: &str) -> (path: String)
    ensures
        path@ == root@ + "/"@ + name@,
{
    join3(root, "/", name)
}

/// The id of a host: its address with `_` in place of every `:` and `.`, so
/// that it can name a directory.
pub open spec fn host_id_of(host: Seq<char>) -> Seq<char> {
    host.map_values(
        |c: char|
            if c == ':' || c == '.' {
                '_'
            } else {
                c
            },
    )
}

/// The per-host paths of a session.
#[derive(Debug, Clone, PartialEq, Eq)]
pub struct SessionData {
    pub host_id: String,
    pub local_root: String,
    pub remote_root: String,
}

/// A `SessionData` as plain values: texts are sequences of characters.
pub struct SessionDataView {
    pub host_id: Seq<char>,
    pub local_root: Seq<char>,
    pub remote_root: Seq<char>,
}

impl View for SessionData {
    type V = SessionDataView;

    open spec fn view(&self) -> SessionDataView {
        SessionDataView {
            host_id: self.host_id@,
            local_root: self.local_root@,
            remote_root: self.remote_root@,
        }
    }
}

impl SessionDataView {
    /// The paths of the session of `host`: its local directory is named by
    /// its id inside the data directory; its remote directory is the given
    /// one, or the default.
    pub open spec fn of(host: Seq<char>, local_root: Seq<char>, remote_root: Option<Seq<char>>)
        -> SessionDataView {
        SessionDataView {
            host_id: host_id_of(host),
            local_root: local_root + "/"@ + host_id_of(host),
            remote_root: match remote_root {
                Some(dir) => dir,
                None => DEFAULT_REMOTE_ROOT@,
            },
        }
    }
}

impl SessionData {
    /// The paths of the session of `host`. The local directory has to be
    /// created before anything is logged into it.
    pub fn new(host: String, local_root: String, remote_root: Option<String>) -> (data: SessionData)
        ensures
            data@ == SessionDataView::of(host@, local_root@, remote_root.deep_view()),
    {
        let chars = chars_of(host.as_str());
        let mut host_id = String::new();
        let mut i: usize = 0;
        while i < chars.len()
            invariant
                i <= chars.len(),
                chars@ == host@,
                host_id@ == host_id_of(host@).take(i as int),
            decreases chars.len() - i,
        {
            let c = chars[i];
            if c == ':' || c == '.' {
                host_id.push('_');
            } else {
                host_id.push(c);
            }
            proof {
                let all = host_id_of(host@);
                assert(all.take(i + 1) =~= all.take(i as int).push(all[i as int]));
            }
            i += 1;
        }
        proof {
            assert(host_id_of(host@).take(chars.len() as int) =~= host_id_of(host@));
        }
        let local_root = join_path(local_root.as_str(), host_id.as_str());
        let remote_root = match remote_root {
            Some(dir) => dir,
            None => DEFAULT_REMOTE_ROOT.to_owned(),
        };
        SessionData { host_id, local_root, remote_root }
    }

    /// The id of the host.
    pub fn host_id(&self) -> (id: &str)
        ensures
            id@ == self@.host_id,
    {
        self.host_id.as_str()
    }

    /// A copy of the paths.
    pub fn duplicate(&self) -> (copy: SessionData)
        ensures
            copy@ == self@,
    {
        SessionData {
            host_id: self.host_id.clone(),
            local_root: self.local_root.clone(),
            remote_root: self.remote_root.clone(),
        }
    }
}

/// The file transfer subsystem of a session, opened by the name `sftp`.
pub struct SFTPConnection {}

/// The name of the file transfer subsystem.
pub const SUBSYSTEM: &'static str = "sftp";

impl SFTPConnection {
    /// Begins to put the local file `source` on the host as `destination`:
    /// the local file is read, and the remote one is created or emptied.
    pub fn upload(source: &str, destination: &str) -> (out: FileTransfer)
        ensures
            out@ == (FileTransferView {
                local_path: source@,
                remote_path: destination@,
                transfer: Transfer::fresh(Direction::Upload),
                first: Transfer::first_step(Direction::Upload),
            }),
    {
        let (transfer, first) = Transfer::start(Direction::Upload);
        FileTransfer {
            local_path: source.to_owned(),
            remote_path: destination.to_owned(),
            transfer,
            first,
        }
    }

    /// Begins to pull the file `source` of the host into the local file
    /// `destination`: the remote file is read, and the local one is created.
    pub fn download(source: &str, destination: &str) -> (out: FileTransfer)
        ensures
            out@ == (FileTransferView {
                local_path: destination@,
                remote_path: source@,
                transfer: Transfer::fresh(Direction::Download),
                first: Transfer::first_step(Direction::Download),
            }),
    {
        let (transfer, first) = Transfer::start(Direction::Download);
        FileTransfer {
            local_path: destination.to_owned(),
            remote_path: source.to_owned(),
            transfer,
            first,
        }
    }
}

/// Which way a file travels.
#[derive(Debug, Clone, Copy, PartialEq, Eq, Structural)]
pub enum Direction {
    /// From the local machine to the host.
    Upload,
    /// From the host to the local machine.
    Download,
}

/// How a remote file is opened.
#[derive(Debug, Clone, Copy, PartialEq, Eq, Structural)]
pub enum OpenMode {
    /// For reading.
    Read,
    /// For writing: the file is created if it is missing and emptied if it
    /// is not.
    CreateTruncateWrite,
}

/// What a transfer asks of its driver.
#[derive(Debug, Clone, Copy, PartialEq, Eq, Structural)]
pub enum TransferStep {
    /// Open the local file: for reading when it is the source, else create it.
    OpenLocal { create: bool },
    /// Open the remote file.
    OpenRemote { mode: OpenMode },
    /// Read at most `limit` bytes from the source.
    Read { limit: usize },
    /// Write the `len` bytes that were read, all of them, to the destination.
    Write { len: usize },
    /// Flush the destination.
    Flush,
    /// Shut the remote file down.
    Shutdown,
    /// The file has arrived: so many bytes were written.
    Done { bytes_written: u64 },
    /// The transfer has failed and asks for nothing more.
    Abort,
}

/// What the driver tells a transfer.
#[derive(Debug, Clone, Copy, PartialEq, Eq, Structural)]
pub enum TransferEvent {
    /// The step that was asked for has been carried out.
    Completed,
    /// So many bytes were read; none at the end of the source.
    Read { len: usize },
    /// The step that was asked for has failed.
    Failed,
}

/// The step of a transfer that is in flight, or how it ended.
#[derive(Debug, Clone, Copy, PartialEq, Eq, Structural)]
pub enum TransferPhase {
    OpeningLocal,
    OpeningRemote,
    Reading,
    Writing { len: usize },
    Flushing,
    ShuttingDown,
    Finished,
    Failed,
}

/// The transfer of one file: its direction, the step in flight, and the
/// number of bytes written so far.
#[derive(Debug, Clone, Copy, PartialEq, Eq, Structural)]
pub struct Transfer {
    pub direction: Direction,
    pub phase: TransferPhase,
    pub bytes_written: u64,
}

impl Transfer {
    /// The transfer as it starts: the local file is opened first.
    pub open spec fn fresh(direction: Direction) -> Transfer {
        Transfer { direction, phase: TransferPhase::OpeningLocal, bytes_written: 0 }
    }

    /// The first step of a transfer.
    pub open spec fn first_step(direction: Direction) -> TransferStep {
        TransferStep::OpenLocal { create: direction == Direction::Download }
    }

    /// How the remote file of a transfer is opened.
    pub open spec fn remote_mode(self) -> OpenMode {
        if self.direction == Direction::Upload {
            OpenMode::CreateTruncateWrite
        } else {
            OpenMode::Read
        }
    }

    /// The transfer goes on with `step` in flight.
    pub open spec fn ask(self, phase: TransferPhase, step: TransferStep) -> (Transfer, TransferStep) {
        (Transfer { phase, ..self }, step)
    }

    /// The transfer ends in failure.
    pub open spec fn abort(self) -> (Transfer, TransferStep) {
        self.ask(TransferPhase::Failed, TransferStep::Abort)
    }

    /// The transfer ends with the file arrived.
    pub open spec fn done(self) -> (Transfer, TransferStep) {
        self.ask(TransferPhase::Finished, TransferStep::Done { bytes_written: self.bytes_written })
    }

    /// One step of a transfer.
    ///
    /// After both files are open, pieces of at most `CHUNK_SIZE` bytes are
    /// read and written in turn until a read brings nothing. Then the
    /// destination is flushed, and the remote file is shut down if it was
    /// written to. Any failure ends the transfer, and so does an answer that
    /// does not fit the step in flight, or a count of bytes that no longer
    /// fits in 64 bits.
    pub open spec fn next(self, event: TransferEvent) -> (Transfer, TransferStep) {
        match (self.phase, event) {
            (TransferPhase::Finished, _) => self.done(),
            (TransferPhase::OpeningLocal, TransferEvent::Completed) => self.ask(
                TransferPhase::OpeningRemote,
                TransferStep::OpenRemote { mode: self.remote_mode() },
            ),
            (TransferPhase::OpeningRemote, TransferEvent::Completed) => self.ask(
                TransferPhase::Reading,
                TransferStep::Read { limit: CHUNK_SIZE },
            ),
            (TransferPhase::Reading, TransferEvent::Read { len }) => if len == 0 {
                self.ask(TransferPhase::Flushing, TransferStep::Flush)
            } else if len <= CHUNK_SIZE {
                self.ask(TransferPhase::Writing { len }, TransferStep::Write { len })
            } else {
                self.abort()
            },
            (TransferPhase::Writing { len }, TransferEvent::Completed) => if self.bytes_written
                + len <= u64::MAX {
                Transfer { bytes_written: (self.bytes_written + len) as u64, ..self }.ask(
                    TransferPhase::Reading,
                    TransferStep::Read { limit: CHUNK_SIZE },
                )
            } else {
                self.abort()
            },
            (TransferPhase::Flushing, TransferEvent::Completed) => if self.direction
                == Direction::Upload {
                self.ask(TransferPhase::ShuttingDown, TransferStep::Shutdown)
            } else {
                self.done()
            },
            (TransferPhase::ShuttingDown, TransferEvent::Completed) => self.done(),
            _ => self.abort(),
        }
    }

    /// The kind of error that a failure in a phase is: opening the remote
    /// file fails in the session, everything else in input and output.
    pub open spec fn blame(phase: TransferPhase) -> SshFault {
        if phase == TransferPhase::OpeningRemote {
            SshFault::SessionError
        } else {
            SshFault::IoError
        }
    }

    /// Starts a transfer and names its first step.
    pub fn start(direction: Direction) -> (out: (Transfer, TransferStep))
        ensures
            out == (Self::fresh(direction), Self::first_step(direction)),
    {
        (
            Transfer { direction, phase: TransferPhase::OpeningLocal, bytes_written: 0 },
            TransferStep::OpenLocal { create: direction == Direction::Download },
        )
    }

    fn ask_for(self, phase: TransferPhase, step: TransferStep) -> (out: (Transfer, TransferStep))
        ensures
            out == self.ask(phase, step),
    {
        (Transfer { phase, ..self }, step)
    }

    /// Steps the transfer with what became of the step that it named last,
    /// and names the next one.
    pub fn step(self, event: TransferEvent) -> (out: (Transfer, TransferStep))
        ensures
            out == self.next(event),
    {
        let done = TransferStep::Done { bytes_written: self.bytes_written };
        match (self.phase, event) {
            (TransferPhase::Finished, _) => self.ask_for(TransferPhase::Finished, done),
            (TransferPhase::OpeningLocal, TransferEvent::Completed) => {
                let mode = match self.direction {
                    Direction::Upload => OpenMode::CreateTruncateWrite,
                    Direction::Download => OpenMode::Read,
                };
                self.ask_for(TransferPhase::OpeningRemote, TransferStep::OpenRemote { mode })
            },
            (TransferPhase::OpeningRemote, TransferEvent::Completed) => self.ask_for(
                TransferPhase::Reading,
                TransferStep::Read { limit: CHUNK_SIZE },
            ),
            (TransferPhase::Reading, TransferEvent::Read { len }) => if len == 0 {
                self.ask_for(TransferPhase::Flushing, TransferStep::Flush)
            } else if len <= CHUNK_SIZE {
                self.ask_for(TransferPhase::Writing { len }, TransferStep::Write { len })
            } else {
                self.ask_for(TransferPhase::Failed, TransferStep::Abort)
            },
            (TransferPhase::Writing { len }, TransferEvent::Completed) => {
                let piece: u64 = len as u64;
                if self.bytes_written <= u64::MAX - piece {
                    Transfer { bytes_written: self.bytes_written + piece, ..self }.ask_for(
                        TransferPhase::Reading,
                        TransferStep::Read { limit: CHUNK_SIZE },
                    )
                } else {
                    self.ask_for(TransferPhase::Failed, TransferStep::Abort)
                }
            },
            (TransferPhase::Flushing, TransferEvent::Completed) => match self.direction {
                Direction::Upload => self.ask_for(
                    TransferPhase::ShuttingDown,
                    TransferStep::Shutdown,
                ),
                Direction::Download => self.ask_for(TransferPhase::Finished, done),
            },
            (TransferPhase::ShuttingDown, TransferEvent::Completed) => self.ask_for(
                TransferPhase::Finished,
                done,
            ),
            _ => self.ask_for(TransferPhase::Failed, TransferStep::Abort),
        }
    }

    /// The error of a failure in a phase, with the driver's words for it.
    pub fn failure(phase: TransferPhase, detail: String) -> (error: SshError)
        ensures
            error@ == (Self::blame(phase), detail@),
    {
        match phase {
            TransferPhase::OpeningRemote => SshError::SessionError(detail),
            _ => SshError::IoError(detail),
        }
    }
}

/// One file on its way: the two files that are opened, the transfer that
/// carries the bytes, and its first step.
#[derive(Debug, Clone, PartialEq, Eq)]
pub struct FileTransfer {
    /// The file on the local machine.
    pub local_path: String,
    /// The file on the host.
    pub remote_path: String,
    /// The transfer as it starts.
    pub transfer: Transfer,
    /// What the transfer asks for first.
    pub first: TransferStep,
}

/// A `FileTransfer` as plain values: texts are sequences of characters.
pub struct FileTransferView {
    pub local_path: Seq<char>,
    pub remote_path: Seq<char>,
    pub transfer: Transfer,
    pub first: TransferStep,
}

impl View for FileTransfer {
    type V = FileTransferView;

    open spec fn view(&self) -> FileTransferView {
        FileTransferView {
            local_path: self.local_path@,
            remote_path: self.remote_path@,
            transfer: self.transfer,
            first: self.first,
        }
    }
}

/// The sum of the lengths of some pieces.
pub open spec fn total_of(pieces: Seq<usize>) -> nat
    decreases pieces.len(),
{
    if pieces.len() == 0 {
        0
    } else {
        total_of(pieces.drop_last()) + pieces.last() as nat
    }
}

impl Transfer {
    /// Where a transfer that reads stands after these pieces were read and
    /// written, each after the other.
    pub open spec fn carry(self, pieces: Seq<usize>) -> (Transfer, TransferStep)
        decreases pieces.len(),
    {
        if pieces.len() == 0 {
            (self, TransferStep::Read { limit: CHUNK_SIZE })
        } else {
            let before = self.carry(pieces.drop_last()).0;
            before.next(TransferEvent::Read { len: pieces.last() }).0.next(TransferEvent::Completed)
        }
    }

    /// Where a transfer ends that has carried its pieces, when the source is
    /// at its end: the destination is flushed, and the remote file is shut
    /// down if it was written to.
    pub open spec fn end(self) -> (Transfer, TransferStep) {
        let flushed = self.next(TransferEvent::Read { len: 0 }).0.next(TransferEvent::Completed);
        if self.direction == Direction::Upload {
            flushed.0.next(TransferEvent::Completed)
        } else {
            flushed
        }
    }
}

/// A file arrives whole. A transfer whose files are open, and that reads and
/// writes pieces of no more than `CHUNK_SIZE` bytes until the source is at
/// its end, reports as written the sum of the pieces, as long as that sum
/// can be counted.
pub proof fn lemma_transfer_counts_every_byte(direction: Direction, pieces: Seq<usize>)
    requires
        forall|i: int| 0 <= i < pieces.len() ==> 0 < (#[trigger] pieces[i]) <= CHUNK_SIZE,
        total_of(pieces) <= u64::MAX,
    ensures
        ({
            let open = Transfer {
                phase: TransferPhase::Reading,
                ..Transfer::fresh(direction)
            };
            let carried = open.carry(pieces).0;
            &&& carried.phase == TransferPhase::Reading
            &&& carried.bytes_written == total_of(pieces)
            &&& carried.end().1 == TransferStep::Done { bytes_written: total_of(pieces) as u64 }
            &&& Transfer::fresh(direction).next(TransferEvent::Completed).0.next(
                TransferEvent::Completed,
            ) == (open, TransferStep::Read { limit: CHUNK_SIZE })
        }),
    decreases pieces.len(),
{
    if pieces.len() > 0 {
        let rest = pieces.drop_last();
        assert forall|i: int| 0 <= i < rest.len() implies 0 < (#[trigger] rest[i]) <= CHUNK_SIZE by {
            assert(rest[i] == pieces[i]);
        }
        lemma_transfer_counts_every_byte(direction, rest);
    }
}

} // verus!
