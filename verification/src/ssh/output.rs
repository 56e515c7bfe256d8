//! Plain output handlers: the console, files on the host, and local files
//! named after the host.
//!
//! These handlers follow the same rule as those of `io`: they say what is
//! to be written where, and the driver writes it.

use crate::ssh::files::join_path;
use crate::ssh::io::{
    copy_bytes, is_record, lemma_stamp_text_is_stamp, local_stamp, log_record, record_of,
    Delivery, Stream, STAMP_FORMAT, STDERR_FILE, STDOUT_FILE,
};
use vstd::prelude::*;
use vstd::string::StringSliceAdditionalSpecFns;

verus! {

/// The choices for output handling: the local data directory, and whether to
/// show the output as well.
#[derive(Debug, Clone, PartialEq, Eq)]
pub enum Output {
    /// Keep the output in local files as it arrives.
    Stream(String, bool),
    /// Keep the output in files on the host.
    Remote(String, bool),
}

/// A trait focused on managing stdout and stderr.
pub trait OutputHandler {
    /// The id of the host.
    spec fn host(&self) -> Seq<char>;

    /// Whether chunks are logged locally as they arrive.
    spec fn logs_locally(&self) -> bool;

    /// Whether chunks are shown on the console, each on the stream that it
    /// came from.
    spec fn shows(&self) -> bool;

    /// The command that runs in place of `command`.
    spec fn rewritten(&self, command: Seq<char>) -> Seq<char>;

    /// ID for host that implementation is handling output for.
    fn host_id(&self) -> (id: &str)
        ensures
            id@ == self.host(),
    ;

    /// Takes a chunk of standard output from the remote host.
    fn stdout(&self, data: &[u8]) -> (delivery: Delivery)
        ensures
            delivery@.stream == Stream::Stdout,
            delivery@.log is Some == self.logs_locally(),
            delivery@.log is Some ==> is_record(delivery@.log->0, data@),
            delivery@.out == (if self.shows() {
                Some(data@)
            } else {
                None
            }),
            delivery@.err is None,
    ;

    /// Takes a chunk of standard error from the remote host.
    fn stderr(&self, data: &[u8]) -> (delivery: Delivery)
        ensures
            delivery@.stream == Stream::Stderr,
            delivery@.log is Some == self.logs_locally(),
            delivery@.log is Some ==> is_record(delivery@.log->0, data@),
            delivery@.out is None,
            delivery@.err == (if self.shows() {
                Some(data@)
            } else {
                None
            }),
    ;

    /// Modifies a command string before execution.
    fn update_command(&self, command: &str) -> (out: String)
        ensures
            out@ == self.rewritten(command@),
    ;
}

/// Basic console output.
#[derive(Debug, Clone, PartialEq, Eq)]
pub struct ConsoleLogger {
    pub host_id: String,
}

impl ConsoleLogger {
    /// The handler of a host that shows its output on the console.
    pub fn new(host_id: &str) -> (handler: ConsoleLogger)
        ensures
            handler.host_id@ == host_id@,
    {
        ConsoleLogger { host_id: host_id.to_owned() }
    }
}

impl OutputHandler for ConsoleLogger {
    open spec fn host(&self) -> Seq<char> {
        self.host_id@
    }

    open spec fn logs_locally(&self) -> bool {
        false
    }

    open spec fn shows(&self) -> bool {
        true
    }

    open spec fn rewritten(&self, command: Seq<char>) -> Seq<char> {
        command
    }

    fn host_id(&self) -> (id: &str) {
        self.host_id.as_str()
    }

    fn stdout(&self, data: &[u8]) -> (delivery: Delivery) {
        Delivery { stream: Stream::Stdout, log: None, out: Some(copy_bytes(data)), err: None }
    }

    fn stderr(&self, data: &[u8]) -> (delivery: Delivery) {
        Delivery { stream: Stream::Stderr, log: None, out: None, err: Some(copy_bytes(data)) }
    }

    fn update_command(&self, command: &str) -> (out: String) {
        command.to_owned()
    }
}

/// Write stdout & stderr to the remote filesystem, minimizing chat between
/// local machine and remotes.
#[derive(Debug, Clone, PartialEq, Eq)]
pub struct RemoteFiles {
    pub host_id: String,
    pub out_path: String,
    pub err_path: String,
}

/// A `RemoteFiles` as plain values: texts are sequences of characters.
pub struct RemoteFilesView {
    pub host_id: Seq<char>,
    pub out_path: Seq<char>,
    pub err_path: Seq<char>,
}

impl View for RemoteFiles {
    type V = RemoteFilesView;

    open spec fn view(&self) -> RemoteFilesView {
        RemoteFilesView {
            host_id: self.host_id@,
            out_path: self.out_path@,
            err_path: self.err_path@,
        }
    }
}

/// The filter that stamps each line with the time and appends it to a file.
pub open spec fn stamp_filter(path: Seq<char>) -> Seq<char> {
    "awk '{ print strftime(\""@ + STAMP_FORMAT@ + "\"), $0 }' >> "@ + path
}

impl RemoteFilesView {
    /// The command with each of its streams sent through the filter of its
    /// file.
    pub open spec fn redirected(self, command: Seq<char>) -> Seq<char> {
        command + " >> >("@ + stamp_filter(self.out_path) + ") 2>> >("@ + stamp_filter(
            self.err_path,
        ) + ")"@
    }
}

/// A path that is given, or a default name.
fn path_or(path: Option<String>, name: &str) -> (out: String)
    ensures
        out@ == match path {
            Some(p) => p@,
            None => name@,
        },
{
    match path {
        Some(p) => p,
        None => name.to_owned(),
    }
}

impl RemoteFiles {
    /// The handler of a host that keeps its output in the given remote
    /// files, or in `stdout.log` and `stderr.log` where none is given.
    pub fn new(host_id: &str, out_path: Option<String>, err_path: Option<String>) -> (handler:
        RemoteFiles)
        ensures
            handler@ == (RemoteFilesView {
                host_id: host_id@,
                out_path: match out_path {
                    Some(p) => p@,
                    None => STDOUT_FILE@,
                },
                err_path: match err_path {
                    Some(p) => p@,
                    None => STDERR_FILE@,
                },
            }),
    {
        RemoteFiles {
            host_id: host_id.to_owned(),
            out_path: path_or(out_path, STDOUT_FILE),
            err_path: path_or(err_path, STDERR_FILE),
        }
    }
}

/// The filter of one file, as text.
fn filter_for(path: &str) -> (filter: String)
    ensures
        filter@ == stamp_filter(path@),
{
    let mut filter = "awk '{ print strftime(\"".to_owned();
    filter.append(STAMP_FORMAT);
    filter.append("\"), $0 }' >> ");
    filter.append(path);
    filter
}

impl OutputHandler for RemoteFiles {
    open spec fn host(&self) -> Seq<char> {
        self.host_id@
    }

    open spec fn logs_locally(&self) -> bool {
        false
    }

    open spec fn shows(&self) -> bool {
        false
    }

    open spec fn rewritten(&self, command: Seq<char>) -> Seq<char> {
        self@.redirected(command)
    }

    fn host_id(&self) -> (id: &str) {
        self.host_id.as_str()
    }

    fn stdout(&self, data: &[u8]) -> (delivery: Delivery) {
        Delivery { stream: Stream::Stdout, log: None, out: None, err: None }
    }

    fn stderr(&self, data: &[u8]) -> (delivery: Delivery) {
        Delivery { stream: Stream::Stderr, log: None, out: None, err: None }
    }

    fn update_command(&self, command: &str) -> (out: String) {
        let redirect_out = filter_for(self.out_path.as_str());
        let redirect_err = filter_for(self.err_path.as_str());
        let mut out = command.to_owned();
        out.append(" >> >(");
        out.append(redirect_out.as_str());
        out.append(") 2>> >(");
        out.append(redirect_err.as_str());
        out.append(")");
        out
    }
}

/// Write remote stdout & stderr to local files as it is streamed from each
/// machine.
#[derive(Debug, Clone, PartialEq, Eq)]
pub struct StreamLogger {
    pub host_id: String,
    /// The local log of standard output.
    pub stdout_path: String,
    /// The local log of standard error.
    pub stderr_path: String,
}

/// The local log of one stream of a host: a file named after the stream,
/// in the directory of the host inside the log directory.
pub open spec fn host_log(log_dir: Seq<char>, host_id: Seq<char>, stream: Stream) -> Seq<char> {
    log_dir + "/"@ + host_id + "/"@ + match stream {
        Stream::Stdout => STDOUT_FILE@,
        Stream::Stderr => STDERR_FILE@,
    }
}

impl StreamLogger {
    /// The handler of a host that logs into `stdout.log` and `stderr.log`
    /// in a directory of its own inside the local directory `log_dir`.
    pub fn new(host_id: &str, log_dir: &str) -> (handler: StreamLogger)
        ensures
            handler.host_id@ == host_id@,
            handler.stdout_path@ == host_log(log_dir@, host_id@, Stream::Stdout),
            handler.stderr_path@ == host_log(log_dir@, host_id@, Stream::Stderr),
    {
        let host_dir = join_path(log_dir, host_id);
        StreamLogger {
            host_id: host_id.to_owned(),
            stdout_path: join_path(host_dir.as_str(), STDOUT_FILE),
            stderr_path: join_path(host_dir.as_str(), STDERR_FILE),
        }
    }

    /// The record of a chunk under a stamp: what one write to a log holds.
    pub fn log_to_file(&self, stamp: &str, data: &[u8]) -> (record: Vec<u8>)
        ensures
            record@ == record_of(stamp.spec_bytes(), data@),
    {
        log_record(stamp, data)
    }

    /// What is delivered for a chunk: its record under the stamp of now.
    fn logged(&self, stream: Stream, data: &[u8]) -> (delivery: Delivery)
        ensures
            delivery@.stream == stream,
            delivery@.log is Some,
            is_record(delivery@.log->0, data@),
            delivery@.out is None,
            delivery@.err is None,
    {
        let stamp = local_stamp(STAMP_FORMAT);
        let text = stamp.as_str();
        let record = self.log_to_file(text, data);
        proof {
            lemma_stamp_text_is_stamp(text);
        }
        Delivery { stream, log: Some(record), out: None, err: None }
    }
}

impl OutputHandler for StreamLogger {
    open spec fn host(&self) -> Seq<char> {
        self.host_id@
    }

    open spec fn logs_locally(&self) -> bool {
        true
    }

    open spec fn shows(&self) -> bool {
        false
    }

    open spec fn rewritten(&self, command: Seq<char>) -> Seq<char> {
        command
    }

    fn host_id(&self) -> (id: &str) {
        self.host_id.as_str()
    }

    fn stdout(&self, data: &[u8]) -> (delivery: Delivery) {
        self.logged(Stream::Stdout, data)
    }

    fn stderr(&self, data: &[u8]) -> (delivery: Delivery) {
        self.logged(Stream::Stderr, data)
    }

    fn update_command(&self, command: &str) -> (out: String) {
        command.to_owned()
    }
}

} // verus!
