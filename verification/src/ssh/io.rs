//! What becomes of the output of a remote command.
//!
//! A handler takes the chunks of standard output and standard error of one
//! host as they arrive, may rewrite a command before it runs so that the
//! remote side keeps its own output, and names the remote files that are to
//! be fetched when the session ends.
//!
//! There are two strategies. `StreamIO` leaves commands as they are and logs
//! every chunk locally, each line stamped with the local time. `RemoteIO`
//! makes the remote shell stamp and append the output to files on the host,
//! and logs nothing locally; the files come back at the end.
//!
//! A handler writes nothing itself. It says what is to be written where, and
//! the driver that owns the files writes it, one delivery at a time.

use crate::ssh::files::join_path;
use crate::text::copy_opt;
use vstd::prelude::*;
use vstd::string::{is_ascii_spec_bytes, StringSliceAdditionalSpecFns};
use vstd::utf8::is_ascii_chars;

verus! {

/// The name of the log of standard output, locally and on the host.
pub const STDOUT_FILE: &'static str = "stdout.log";

/// The name of the log of standard error, locally and on the host.
pub const STDERR_FILE: &'static str = "stderr.log";

/// The form of a time stamp, in `strftime` notation: a bracketed date and
/// time, and a blank.
pub const STAMP_FORMAT: &'static str = "[%Y-%m-%d %H:%M:%S] ";

/// Where a chunk of output came from.
#[derive(Debug, Clone, Copy, PartialEq, Eq, Structural)]
pub enum Stream {
    Stdout,
    Stderr,
}

/// What is to be written for one chunk of output.
#[derive(Debug, Clone, PartialEq, Eq)]
pub struct Delivery {
    /// The stream that the chunk came on.
    pub stream: Stream,
    /// To be appended to the local log of that stream, and flushed, as one
    /// piece.
    pub log: Option<Vec<u8>>,
    /// To be written to the standard output of the driver.
    pub out: Option<Vec<u8>>,
    /// To be written to the standard error of the driver.
    pub err: Option<Vec<u8>>,
}

/// A `Delivery` as plain values: texts are sequences of characters.
pub struct DeliveryView {
    pub stream: Stream,
    pub log: Option<Seq<u8>>,
    pub out: Option<Seq<u8>>,
    pub err: Option<Seq<u8>>,
}

/// The bytes of an optional piece of output.
pub open spec fn bytes_of(piece: Option<Vec<u8>>) -> Option<Seq<u8>> {
    match piece {
        Some(bytes) => Some(bytes@),
        None => None,
    }
}

impl View for Delivery {
    type V = DeliveryView;

    open spec fn view(&self) -> DeliveryView {
        DeliveryView {
            stream: self.stream,
            log: bytes_of(self.log),
            out: bytes_of(self.out),
            err: bytes_of(self.err),
        }
    }
}

/// The byte that ends a line.
pub const LINE_FEED: u8 = 10;

/// Whether `data` ends with a line feed.
pub open spec fn ends_line(data: Seq<u8>) -> bool {
    data.len() > 0 && data.last() == LINE_FEED
}

/// A chunk as whole lines: with a line feed at its end if it has none
/// there. The empty chunk is one empty line.
pub open spec fn closed(data: Seq<u8>) -> Seq<u8> {
    if ends_line(data) {
        data
    } else {
        data.push(LINE_FEED)
    }
}

/// Whether a line begins at `at`: at the beginning, and after every line
/// feed.
pub open spec fn begins_line(text: Seq<u8>, at: int) -> bool {
    at == 0 || text[at - 1] == LINE_FEED
}

/// `text` with the stamp put before each of its lines.
pub open spec fn stamped(stamp: Seq<u8>, text: Seq<u8>) -> Seq<u8>
    decreases text.len(),
{
    if text.len() == 0 {
        Seq::empty()
    } else if begins_line(text, text.len() - 1) {
        stamped(stamp, text.drop_last()) + stamp + seq![text.last()]
    } else {
        stamped(stamp, text.drop_last()).push(text.last())
    }
}

/// The record of one chunk in a local log: the lines of the chunk, each
/// with the stamp before it, and the last one ended by a line feed if the
/// chunk did not end it.
pub open spec fn record_of(stamp: Seq<u8>, data: Seq<u8>) -> Seq<u8> {
    stamped(stamp, closed(data))
}

/// Whether `piece` stands in `text` at `at`.
pub open spec fn found_at(piece: Seq<u8>, text: Seq<u8>, at: int) -> bool {
    0 <= at && at + piece.len() <= text.len() && text.subrange(at, at + piece.len()) == piece
}

/// Whether every line of `record` begins with the stamp.
pub open spec fn every_line_is_stamped(stamp: Seq<u8>, record: Seq<u8>) -> bool {
    forall|at: int|
        0 <= at < record.len() && begins_line(record, at) ==> #[trigger] found_at(
            stamp,
            record,
            at,
        )
}

/// Whether `stamp` holds no line feed.
pub open spec fn on_one_line(stamp: Seq<u8>) -> bool {
    forall|i: int| 0 <= i < stamp.len() ==> stamp[i] != LINE_FEED
}

/// Whether `stamp` has the shape of a time stamp: it opens with a bracket,
/// ends with the closing bracket and a blank, and holds no line feed.
pub open spec fn is_stamp(stamp: Seq<u8>) -> bool {
    &&& stamp.len() >= 3
    &&& stamp.first() == '[' as u8
    &&& stamp[stamp.len() - 2] == ']' as u8
    &&& stamp.last() == ' ' as u8
    &&& on_one_line(stamp)
}

/// Whether `record` is the record of `data` under some time stamp.
pub open spec fn is_record(record: Seq<u8>, data: Seq<u8>) -> bool {
    exists|stamp: Seq<u8>| is_stamp(stamp) && record == record_of(stamp, data)
}

/// Stamping keeps the lines apart: the stamped text ends as the text ends,
/// and each of its lines begins with the stamp.
pub proof fn lemma_stamped_lines(stamp: Seq<u8>, text: Seq<u8>)
    requires
        on_one_line(stamp),
    ensures
        text.len() > 0 ==> stamped(stamp, text).len() > 0 && stamped(stamp, text).last()
            == text.last(),
        text.len() == 0 ==> stamped(stamp, text).len() == 0,
        every_line_is_stamped(stamp, stamped(stamp, text)),
    decreases text.len(),
{
    if text.len() > 0 {
        let before = text.drop_last();
        let head = stamped(stamp, before);
        let whole = stamped(stamp, text);
        lemma_stamped_lines(stamp, before);
        assert forall|at: int| 0 <= at < whole.len() && begins_line(whole, at) implies found_at(
            stamp,
            whole,
            at,
        ) by {
            if at < head.len() {
                assert(begins_line(head, at));
                assert(found_at(stamp, head, at));
                assert(whole.subrange(at, at + stamp.len()) =~= head.subrange(
                    at,
                    at + stamp.len(),
                ));
            } else if begins_line(text, text.len() - 1) {
                if at == head.len() {
                    assert(whole.subrange(at, at + stamp.len()) =~= stamp);
                } else {
                    assert(whole[at - 1] == stamp[at - 1 - head.len()]);
                }
            } else {
                assert(before.last() == text[text.len() - 2]);
            }
        }
    }
}

/// A record is made of whole lines. It ends with a line feed, and each of
/// its lines begins with the stamp, as long as the stamp holds no line feed
/// itself.
pub proof fn lemma_record_is_whole(stamp: Seq<u8>, data: Seq<u8>)
    requires
        on_one_line(stamp),
    ensures
        ends_line(record_of(stamp, data)),
        every_line_is_stamped(stamp, record_of(stamp, data)),
        stamp.is_prefix_of(record_of(stamp, data)),
{
    let record = record_of(stamp, data);
    lemma_stamped_lines(stamp, closed(data));
    assert(found_at(stamp, record, 0));
    assert(record.subrange(0, stamp.len() as int) =~= stamp.subrange(0, stamp.len() as int));
}

/// The text of one line is stamped once.
pub proof fn lemma_one_line_is_stamped_once(stamp: Seq<u8>, text: Seq<u8>)
    requires
        text.len() > 0,
        forall|i: int| 0 <= i < text.len() - 1 ==> text[i] != LINE_FEED,
    ensures
        stamped(stamp, text) == stamp + text,
    decreases text.len(),
{
    let before = text.drop_last();
    if before.len() > 0 {
        lemma_one_line_is_stamped_once(stamp, before);
        assert(stamped(stamp, text) =~= stamp + text);
    } else {
        assert(stamped(stamp, before) =~= Seq::<u8>::empty());
        assert(stamped(stamp, text) =~= stamp + text);
    }
}

/// The record of a chunk of one line is the stamp, the chunk, and a line
/// feed unless the chunk ends with one.
pub proof fn lemma_record_of_one_line(stamp: Seq<u8>, data: Seq<u8>)
    requires
        forall|i: int| 0 <= i < data.len() - 1 ==> data[i] != LINE_FEED,
    ensures
        record_of(stamp, data) == stamp + closed(data),
{
    lemma_one_line_is_stamped_once(stamp, closed(data));
}

/// Whether a time stamp stands in `log` at `at`.
pub open spec fn stamp_at(log: Seq<u8>, at: int) -> bool {
    exists|stamp: Seq<u8>| is_stamp(stamp) && #[trigger] found_at(stamp, log, at)
}

/// Whether a log is made of whole stamped lines: it is empty or ends with
/// a line feed, and a time stamp stands at the beginning of each line.
pub open spec fn is_log(log: Seq<u8>) -> bool {
    &&& log.len() > 0 ==> ends_line(log)
    &&& forall|at: int| 0 <= at < log.len() && begins_line(log, at) ==> #[trigger] stamp_at(log, at)
}

/// No line of a log is torn. A log of whole stamped lines is one still
/// after the record of a chunk has been appended to it in one piece,
/// whatever the chunk holds and whichever records came before.
pub proof fn lemma_log_stays_whole(log: Seq<u8>, record: Seq<u8>, data: Seq<u8>)
    requires
        is_log(log),
        is_record(record, data),
    ensures
        is_log(log + record),
{
    let stamp = choose|stamp: Seq<u8>| is_stamp(stamp) && record == record_of(stamp, data);
    let all = log + record;
    let shift = log.len() as int;
    lemma_record_is_whole(stamp, data);
    assert forall|at: int| 0 <= at < all.len() && begins_line(all, at) implies stamp_at(
        all,
        at,
    ) by {
        if at < shift {
            assert(begins_line(log, at));
            assert(stamp_at(log, at));
            let found = choose|found: Seq<u8>| is_stamp(found) && found_at(found, log, at);
            assert(all.subrange(at, at + found.len()) =~= log.subrange(at, at + found.len()));
            assert(found_at(found, all, at));
        } else {
            if at > shift {
                assert(all[at - 1] == record[at - 1 - shift]);
            }
            assert(begins_line(record, at - shift));
            assert(found_at(stamp, record, at - shift));
            assert(all.subrange(at, at + stamp.len()) =~= record.subrange(
                at - shift,
                at - shift + stamp.len(),
            ));
            assert(found_at(stamp, all, at));
        }
    }
}

/// Whether `text` has the shape of a time stamp, as characters: plain
/// characters that open with a bracket, end with the closing bracket and a
/// blank, and hold no line feed.
pub open spec fn is_stamp_text(text: Seq<char>) -> bool {
    &&& is_ascii_chars(text)
    &&& text.len() >= 3
    &&& text.first() == '['
    &&& text[text.len() - 2] == ']'
    &&& text.last() == ' '
    &&& forall|i: int| 0 <= i < text.len() ==> text[i] != '\n'
}

/// The local time of the call, written by
/// `chrono::Local::now().format(format)` and `to_string`.
///
/// Which time the text gives depends on the clock and on the time zone of
/// the machine, and nothing is claimed of it. Its shape is claimed: chrono
/// writes the brackets, hyphens, colons and blanks of the format as they
/// stand, and each number in digits, with a sign before a year that has
/// more than four digits or lies before the year 0.
///
/// The format has to be the library's own, which holds no escape that chrono
/// cannot write: with such an escape `to_string` would panic. `Local::now`
/// itself panics on a machine whose clock stands before 1970.
#[verifier::external_body]
pub(crate) fn local_stamp(format: &str) -> (stamp: String)
    requires
        format@ == STAMP_FORMAT@,
    ensures
        is_stamp_text(stamp@),
{
    chrono::Local::now().format(format).to_string()
}

/// The bytes of a text in the shape of a time stamp have that shape.
pub proof fn lemma_stamp_text_is_stamp(text: &str)
    requires
        is_stamp_text(text@),
    ensures
        is_stamp(text.spec_bytes()),
{
    is_ascii_spec_bytes(text);
}

/// A copy of a chunk.
pub fn copy_bytes(data: &[u8]) -> (out: Vec<u8>)
    ensures
        out@ == data@,
{
    let mut out: Vec<u8> = Vec::new();
    let mut i: usize = 0;
    while i < data.len()
        invariant
            i <= data.len(),
            out@ == data@.take(i as int),
        decreases data.len() - i,
    {
        out.push(data[i]);
        assert(data@.take(i + 1) =~= data@.take(i as int).push(data@[i as int]));
        i += 1;
    }
    assert(data@.take(data.len() as int) =~= data@);
    out
}

/// Appends `piece` to `record`.
fn put(record: &mut Vec<u8>, piece: &[u8])
    ensures
        final(record)@ == old(record)@ + piece@,
{
    let mut i: usize = 0;
    while i < piece.len()
        invariant
            i <= piece.len(),
            record@ == old(record)@ + piece@.take(i as int),
        decreases piece.len() - i,
    {
        record.push(piece[i]);
        assert(piece@.take(i + 1) =~= piece@.take(i as int).push(piece@[i as int]));
        i += 1;
    }
    assert(piece@.take(piece.len() as int) =~= piece@);
}

/// The record of a chunk under a stamp: what one write to a local log holds.
pub fn log_record(stamp: &str, data: &[u8]) -> (record: Vec<u8>)
    ensures
        record@ == record_of(stamp.spec_bytes(), data@),
{
    let head = stamp.as_bytes();
    let mut record: Vec<u8> = Vec::new();
    let mut i: usize = 0;
    while i < data.len()
        invariant
            i <= data.len(),
            record@ == stamped(head@, data@.take(i as int)),
        decreases data.len() - i,
    {
        proof {
            assert(data@.take(i + 1).drop_last() =~= data@.take(i as int));
        }
        if i == 0 || data[i - 1] == LINE_FEED {
            put(&mut record, head);
        }
        record.push(data[i]);
        assert(record@ =~= stamped(head@, data@.take(i + 1)));
        i += 1;
    }
    proof {
        assert(data@.take(data.len() as int) =~= data@);
        assert(data@.push(LINE_FEED).drop_last() =~= data@);
    }
    if data.len() == 0 {
        put(&mut record, head);
        record.push(LINE_FEED);
    } else if data[data.len() - 1] != LINE_FEED {
        record.push(LINE_FEED);
    }
    assert(record@ =~= record_of(head@, data@));
    record
}

/// How the output of a pool's hosts is kept.
#[derive(Debug, Clone, PartialEq, Eq)]
pub enum IOConfig {
    /// Log locally as the output arrives: the local data directory, and
    /// whether to show the output as well.
    Stream(String, bool),
    /// Log on the hosts and fetch the logs at the end: the local data
    /// directory, the remote directory if it is not the default, and whether
    /// to show the output as well.
    Remote(String, Option<String>, bool),
}

/// An `IOConfig` as plain values: texts are sequences of characters.
pub enum IOConfigView {
    Stream(Seq<char>, bool),
    Remote(Seq<char>, Option<Seq<char>>, bool),
}

impl View for IOConfig {
    type V = IOConfigView;

    open spec fn view(&self) -> IOConfigView {
        match self {
            IOConfig::Stream(local_root, verbose) => IOConfigView::Stream(local_root@, *verbose),
            IOConfig::Remote(local_root, remote_root, verbose) => IOConfigView::Remote(
                local_root@,
                remote_root.deep_view(),
                *verbose,
            ),
        }
    }
}

impl IOConfig {
    /// The policy that the command line asks for.
    pub open spec fn chosen(datadir: Seq<char>, verbose: bool, remote: bool) -> IOConfigView {
        if remote {
            IOConfigView::Remote(datadir, None, verbose)
        } else {
            IOConfigView::Stream(datadir, verbose)
        }
    }

    /// Chooses the policy from the flags of the command line: remote logging
    /// where it is asked for, streaming where it is not.
    pub fn select(datadir: &str, verbose: bool, remote: bool) -> (config: IOConfig)
        ensures
            config@ == Self::chosen(datadir@, verbose, remote),
    {
        if remote {
            IOConfig::Remote(datadir.to_owned(), None, verbose)
        } else {
            IOConfig::Stream(datadir.to_owned(), verbose)
        }
    }

    /// A copy of the policy.
    pub fn duplicate(&self) -> (copy: IOConfig)
        ensures
            copy@ == self@,
    {
        match self {
            IOConfig::Stream(local_root, verbose) => IOConfig::Stream(local_root.clone(), *verbose),
            IOConfig::Remote(local_root, remote_root, verbose) => IOConfig::Remote(
                local_root.clone(),
                copy_opt(remote_root),
                *verbose,
            ),
        }
    }
}

/// Handles the output of the commands of one host.
pub trait IOHandler {
    /// The id of the host.
    spec fn host(&self) -> Seq<char>;

    /// Whether chunks are logged locally as they arrive.
    spec fn logs_locally(&self) -> bool;

    /// Whether chunks are shown on the standard error of the driver.
    spec fn mirrors(&self) -> bool;

    /// The command that runs in place of `command`.
    spec fn rewritten(&self, command: Seq<char>) -> Seq<char>;

    /// The names of the remote files to fetch when the session ends.
    spec fn kept_remotely(&self) -> Seq<Seq<char>>;

    /// ID for host that implementation is handling output for.
    fn host_id(&self) -> (id: &str)
        ensures
            id@ == self.host(),
    ;

    /// Takes a chunk of standard output from the remote host. Where the
    /// handler logs locally, the chunk is logged in one piece, each of its
    /// lines under the stamp of the time of arrival; where the handler
    /// mirrors, the chunk is shown as it is.
    fn stdout(&self, data: &[u8]) -> (delivery: Delivery)
        ensures
            delivery@.stream == Stream::Stdout,
            delivery@.log is Some == self.logs_locally(),
            delivery@.log is Some ==> is_record(delivery@.log->0, data@),
            delivery@.out is None,
            delivery@.err == (if self.mirrors() {
                Some(data@)
            } else {
                None
            }),
    ;

    /// Takes a chunk of standard error from the remote host, in the same way.
    fn stderr(&self, data: &[u8]) -> (delivery: Delivery)
        ensures
            delivery@.stream == Stream::Stderr,
            delivery@.log is Some == self.logs_locally(),
            delivery@.log is Some ==> is_record(delivery@.log->0, data@),
            delivery@.out is None,
            delivery@.err == (if self.mirrors() {
                Some(data@)
            } else {
                None
            }),
    ;

    /// Rewrites a command before it is run.
    fn update_command(&self, command: &str) -> (out: String)
        ensures
            out@ == self.rewritten(command@),
    ;

    /// The names of the remote files to fetch when the session ends.
    fn artifacts(&self) -> (names: Vec<String>)
        ensures
            names.deep_view() == self.kept_remotely(),
    ;
}

/// What a handler that only mirrors delivers.
fn mirrored(stream: Stream, data: &[u8], verbose: bool) -> (delivery: Delivery)
    ensures
        delivery@ == (DeliveryView {
            stream,
            log: None,
            out: None,
            err: if verbose {
                Some(data@)
            } else {
                None
            },
        }),
{
    if verbose {
        Delivery { stream, log: None, out: None, err: Some(copy_bytes(data)) }
    } else {
        Delivery { stream, log: None, out: None, err: None }
    }
}

/// Write stdout & stderr to the remote filesystem, minimizing chat between
/// local machine and remotes.
#[derive(Debug, Clone, PartialEq, Eq)]
pub struct RemoteIO {
    pub host_id: String,
    pub out_path: String,
    pub err_path: String,
    pub verbose: bool,
}

/// A `RemoteIO` as plain values: texts are sequences of characters.
pub struct RemoteIOView {
    pub host_id: Seq<char>,
    pub out_path: Seq<char>,
    pub err_path: Seq<char>,
    pub verbose: bool,
}

impl View for RemoteIO {
    type V = RemoteIOView;

    open spec fn view(&self) -> RemoteIOView {
        RemoteIOView {
            host_id: self.host_id@,
            out_path: self.out_path@,
            err_path: self.err_path@,
            verbose: self.verbose,
        }
    }
}

/// The path of a log: in the root where there is one, else the bare name.
pub open spec fn log_path(log_root: Option<Seq<char>>, name: Seq<char>) -> Seq<char> {
    match log_root {
        Some(root) => root + "/"@ + name,
        None => name,
    }
}

/// The filter that stamps each line of standard output with the time and the
/// host, and appends it to a file.
pub open spec fn out_filter(host_id: Seq<char>, path: Seq<char>) -> Seq<char> {
    "awk '{ print strftime(\""@ + STAMP_FORMAT@ + host_id + " \"), $0, \"\" }' >> "@ + path
}

/// The filter that stamps each line of standard error with the time and the
/// host, and appends it to a file.
pub open spec fn err_filter(host_id: Seq<char>, path: Seq<char>) -> Seq<char> {
    "awk '{ print strftime(\""@ + STAMP_FORMAT@ + host_id + "\"), $0, \"\" }' >> "@ + path
}

impl RemoteIOView {
    /// The command with its output sent through the two filters. Where the
    /// handler is verbose, each stream is also passed on to where it went
    /// before.
    pub open spec fn redirected(self, command: Seq<char>) -> Seq<char> {
        let outh = out_filter(self.host_id, self.out_path);
        let errh = err_filter(self.host_id, self.err_path);
        if self.verbose {
            command + " > >(tee >("@ + outh + ") >&1) 2> >(tee >("@ + errh + ") >&2)"@
        } else {
            command + " > >("@ + outh + ") 2> >("@ + errh + ")"@
        }
    }
}

fn path_in(log_root: Option<&String>, name: &str) -> (path: String)
    ensures
        path@ == log_path(log_root.deep_view(), name@),
{
    match log_root {
        Some(root) => join_path(root.as_str(), name),
        None => name.to_owned(),
    }
}

impl RemoteIO {
    /// The handler of a host that logs into `stdout.log` and `stderr.log` in
    /// the remote directory `log_root`, or in the directory that a session
    /// begins in where no root is given.
    pub fn new(host_id: &str, log_root: Option<&String>, verbose: bool) -> (handler: RemoteIO)
        ensures
            handler@ == (RemoteIOView {
                host_id: host_id@,
                out_path: log_path(log_root.deep_view(), STDOUT_FILE@),
                err_path: log_path(log_root.deep_view(), STDERR_FILE@),
                verbose,
            }),
    {
        RemoteIO {
            host_id: host_id.to_owned(),
            out_path: path_in(log_root, STDOUT_FILE),
            err_path: path_in(log_root, STDERR_FILE),
            verbose,
        }
    }
}

impl IOHandler for RemoteIO {
    open spec fn host(&self) -> Seq<char> {
        self.host_id@
    }

    open spec fn logs_locally(&self) -> bool {
        false
    }

    open spec fn mirrors(&self) -> bool {
        self.verbose
    }

    open spec fn rewritten(&self, command: Seq<char>) -> Seq<char> {
        self@.redirected(command)
    }

    open spec fn kept_remotely(&self) -> Seq<Seq<char>> {
        seq![STDOUT_FILE@, STDERR_FILE@]
    }

    fn host_id(&self) -> (id: &str) {
        self.host_id.as_str()
    }

    /// stdout is not sent from remote unless verbose flag is used
    fn stdout(&self, data: &[u8]) -> (delivery: Delivery) {
        mirrored(Stream::Stdout, data, self.verbose)
    }

    /// stderr is not sent from remote unless verbose flag is used
    fn stderr(&self, data: &[u8]) -> (delivery: Delivery) {
        mirrored(Stream::Stderr, data, self.verbose)
    }

    /// Wraps a command string with code that adds timestamps to output and
    /// redirects both stdout and stderr to files. Output is written to both
    /// files and the console if `verbose` is true.
    fn update_command(&self, command: &str) -> (out: String) {
        let mut outh = "awk '{ print strftime(\"".to_owned();
        outh.append(STAMP_FORMAT);
        outh.append(self.host_id.as_str());
        outh.append(" \"), $0, \"\" }' >> ");
        outh.append(self.out_path.as_str());

        let mut errh = "awk '{ print strftime(\"".to_owned();
        errh.append(STAMP_FORMAT);
        errh.append(self.host_id.as_str());
        errh.append("\"), $0, \"\" }' >> ");
        errh.append(self.err_path.as_str());

        let mut out = command.to_owned();
        if self.verbose {
            out.append(" > >(tee >(");
            out.append(outh.as_str());
            out.append(") >&1) 2> >(tee >(");
            out.append(errh.as_str());
            out.append(") >&2)");
        } else {
            out.append(" > >(");
            out.append(outh.as_str());
            out.append(") 2> >(");
            out.append(errh.as_str());
            out.append(")");
        }
        out
    }

    fn artifacts(&self) -> (names: Vec<String>) {
        let mut names: Vec<String> = Vec::new();
        names.push(STDOUT_FILE.to_owned());
        names.push(STDERR_FILE.to_owned());
        assert(names.deep_view() =~= seq![STDOUT_FILE@, STDERR_FILE@]);
        names
    }
}

/// Keeps the output of a host in local files as it is streamed.
#[derive(Debug, Clone, PartialEq, Eq)]
pub struct StreamIO {
    pub host_id: String,
    /// The local log of standard output.
    pub stdout_path: String,
    /// The local log of standard error.
    pub stderr_path: String,
    pub verbose: bool,
}

/// A `StreamIO` as plain values: texts are sequences of characters.
pub struct StreamIOView {
    pub host_id: Seq<char>,
    pub stdout_path: Seq<char>,
    pub stderr_path: Seq<char>,
    pub verbose: bool,
}

impl View for StreamIO {
    type V = StreamIOView;

    open spec fn view(&self) -> StreamIOView {
        StreamIOView {
            host_id: self.host_id@,
            stdout_path: self.stdout_path@,
            stderr_path: self.stderr_path@,
            verbose: self.verbose,
        }
    }
}

impl StreamIO {
    /// The handler of a host that logs into `stdout.log` and `stderr.log` in
    /// the local directory `log_dir`.
    pub fn new(host_id: &str, log_dir: &str, verbose: bool) -> (handler: StreamIO)
        ensures
            handler@ == (StreamIOView {
                host_id: host_id@,
                stdout_path: log_dir@ + "/"@ + STDOUT_FILE@,
                stderr_path: log_dir@ + "/"@ + STDERR_FILE@,
                verbose,
            }),
    {
        StreamIO {
            host_id: host_id.to_owned(),
            stdout_path: join_path(log_dir, STDOUT_FILE),
            stderr_path: join_path(log_dir, STDERR_FILE),
            verbose,
        }
    }

    /// The record of a chunk under a stamp: what one write to a log of
    /// this handler holds.
    pub fn log_to_file(&self, stamp: &str, data: &[u8]) -> (record: Vec<u8>)
        ensures
            record@ == record_of(stamp.spec_bytes(), data@),
    {
        log_record(stamp, data)
    }

    /// What is delivered for a chunk: its record under the stamp of now, and
    /// the chunk itself for the console where the handler is verbose.
    fn logged(&self, stream: Stream, data: &[u8]) -> (delivery: Delivery)
        ensures
            delivery@.stream == stream,
            delivery@.log is Some,
            is_record(delivery@.log->0, data@),
            delivery@.out is None,
            delivery@.err == (if self.verbose {
                Some(data@)
            } else {
                None
            }),
    {
        let stamp = local_stamp(STAMP_FORMAT);
        let text = stamp.as_str();
        let record = self.log_to_file(text, data);
        proof {
            lemma_stamp_text_is_stamp(text);
        }
        let err = if self.verbose {
            Some(copy_bytes(data))
        } else {
            None
        };
        Delivery { stream, log: Some(record), out: None, err }
    }
}

impl IOHandler for StreamIO {
    open spec fn host(&self) -> Seq<char> {
        self.host_id@
    }

    open spec fn logs_locally(&self) -> bool {
        true
    }

    open spec fn mirrors(&self) -> bool {
        self.verbose
    }

    open spec fn rewritten(&self, command: Seq<char>) -> Seq<char> {
        command
    }

    open spec fn kept_remotely(&self) -> Seq<Seq<char>> {
        Seq::empty()
    }

    fn host_id(&self) -> (id: &str) {
        self.host_id.as_str()
    }

    /// Writes remote stdout to the local log as it is streamed, and a copy to
    /// the console if `verbose` is true.
    fn stdout(&self, data: &[u8]) -> (delivery: Delivery) {
        self.logged(Stream::Stdout, data)
    }

    /// Writes remote stderr to the local log as it is streamed, and a copy to
    /// the console if `verbose` is true.
    fn stderr(&self, data: &[u8]) -> (delivery: Delivery) {
        self.logged(Stream::Stderr, data)
    }

    /// The command runs as it is: its output arrives over the channel.
    fn update_command(&self, command: &str) -> (out: String) {
        command.to_owned()
    }

    fn artifacts(&self) -> (names: Vec<String>) {
        let names: Vec<String> = Vec::new();
        assert(names.deep_view() =~= Seq::<Seq<char>>::empty());
        names
    }
}

} // verus!
