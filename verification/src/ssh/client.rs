//! One transport session to one host: how it is opened and authenticated,
//! and how a command is run over it.
//!
//! The session itself is held by a driver outside the library. The client
//! here decides: it names the next step of the handshake, takes what became
//! of it, and knows when the session may be used.

use crate::ssh::errors::{SshError, SshFault};
use crate::ssh::io::{is_record, Delivery, DeliveryView, IOHandler, Stream};
use crate::text::{chars_of, copy_opt, string_of};
use russh::keys::PrivateKey;
use vstd::prelude::*;

verus! {

/// The port of a host string that names none.
pub const DEFAULT_PORT: u16 = 22;

/// Said when a host string gives no endpoint.
pub const INVALID_ADDRESS: &'static str = "Invalid address";

/// Said when the host refuses a password.
pub const PASSWORD_REFUSED: &'static str = "Password authentication failed";

/// Said when the host offers no way to sign with the key.
pub const NO_RSA_HASH: &'static str = "No suitable RSA hash algorithm found";

/// Said when the host refuses a key.
pub const KEY_REFUSED: &'static str = "Key authentication failed";

/// Said when a command ends without an exit status.
pub const NO_EXIT_STATUS: &'static str = "Command didn't exit properly";

/// Said when the driver reports what the step in flight cannot give.
pub const STRAY_EVENT: &'static str = "the event does not fit the step";

/// The options available for SSH authentication.
#[derive(Debug, Clone, PartialEq, Eq)]
pub enum Auth {
    /// A password.
    Password(String),
    /// The path of a private key file, and its passphrase if it has one.
    KeyFile(String, Option<String>),
    /// A private key as text, and its passphrase if it has one.
    KeyData(String, Option<String>),
}

/// An `Auth` as plain values: texts are sequences of characters.
pub enum AuthView {
    Password(Seq<char>),
    KeyFile(Seq<char>, Option<Seq<char>>),
    KeyData(Seq<char>, Option<Seq<char>>),
}

impl DeepView for Auth {
    type V = AuthView;

    open spec fn deep_view(&self) -> AuthView {
        match self {
            Auth::Password(password) => AuthView::Password(password@),
            Auth::KeyFile(path, passphrase) => AuthView::KeyFile(path@, passphrase.deep_view()),
            Auth::KeyData(data, passphrase) => AuthView::KeyData(data@, passphrase.deep_view()),
        }
    }
}

impl View for Auth {
    type V = AuthView;

    open spec fn view(&self) -> AuthView {
        self.deep_view()
    }
}

impl Auth {
    /// A copy of the credentials.
    pub fn duplicate(&self) -> (copy: Auth)
        ensures
            copy@ == self@,
    {
        match self {
            Auth::Password(password) => Auth::Password(password.clone()),
            Auth::KeyFile(path, passphrase) => Auth::KeyFile(path.clone(), copy_opt(passphrase)),
            Auth::KeyData(data, passphrase) => Auth::KeyData(data.clone(), copy_opt(passphrase)),
        }
    }
}

/// Whether a character is a decimal digit.
pub open spec fn is_digit(c: char) -> bool {
    '0' <= c <= '9'
}

/// The number that decimal digits write.
pub open spec fn decimal_value(digits: Seq<char>) -> nat
    decreases digits.len(),
{
    if digits.len() == 0 {
        0
    } else {
        decimal_value(digits.drop_last()) * 10 + (digits.last() as u8 - 48) as nat
    }
}

/// The port that a text writes: decimal digits, at least one, after at most
/// one plus sign, and no more than a port can be.
pub open spec fn port_of(text: Seq<char>) -> Option<u16> {
    let digits = unsigned(text);
    if digits.len() > 0 && all_digits(digits) && decimal_value(digits) <= u16::MAX {
        Some(decimal_value(digits) as u16)
    } else {
        None
    }
}

/// A text without the plus sign that it may begin with.
pub open spec fn unsigned(text: Seq<char>) -> Seq<char> {
    if text.len() > 0 && text[0] == '+' {
        text.skip(1)
    } else {
        text
    }
}

/// Whether every character of a text is a decimal digit.
pub open spec fn all_digits(text: Seq<char>) -> bool {
    forall|i: int| 0 <= i < text.len() ==> is_digit(#[trigger] text[i])
}

/// Where the first colon of a text stands, or the length of the text where
/// it has none.
pub open spec fn first_colon(text: Seq<char>) -> int
    decreases text.len(),
{
    if text.len() == 0 || text[0] == ':' {
        0
    } else {
        1 + first_colon(text.skip(1))
    }
}

/// The endpoint that a host string names: `host`, with the default port, or
/// `host:port`. A text with more than one colon names none.
pub open spec fn address_of(text: Seq<char>) -> Option<(Seq<char>, u16)> {
    let colon = first_colon(text);
    if colon >= text.len() {
        Some((text, DEFAULT_PORT))
    } else {
        let rest = text.skip(colon + 1);
        if first_colon(rest) < rest.len() {
            None
        } else {
            match port_of(rest) {
                Some(port) => Some((text.take(colon), port)),
                None => None,
            }
        }
    }
}

/// The first colon stands within the text, and nothing before it is a colon.
pub proof fn lemma_first_colon(text: Seq<char>)
    ensures
        0 <= first_colon(text) <= text.len(),
        first_colon(text) < text.len() ==> text[first_colon(text)] == ':',
        forall|i: int| 0 <= i < first_colon(text) ==> #[trigger] text[i] != ':',
    decreases text.len(),
{
    if text.len() > 0 && text[0] != ':' {
        let rest = text.skip(1);
        lemma_first_colon(rest);
        assert forall|i: int| 0 <= i < first_colon(text) implies #[trigger] text[i] != ':' by {
            if i > 0 {
                assert(text[i] == rest[i - 1]);
            }
        }
    }
}

/// Taking more digits never gives a smaller number.
proof fn lemma_value_grows(digits: Seq<char>, n: int)
    requires
        0 <= n <= digits.len(),
    ensures
        decimal_value(digits.take(n)) <= decimal_value(digits),
    decreases digits.len() - n,
{
    if n < digits.len() {
        lemma_value_grows(digits, n + 1);
        assert(digits.take(n + 1).drop_last() =~= digits.take(n));
    } else {
        assert(digits.take(n) =~= digits);
    }
}

/// Finds the first colon at or after `from`.
fn find_colon(chars: &Vec<char>, from: usize) -> (at: usize)
    requires
        from <= chars.len(),
    ensures
        at == from + first_colon(chars@.skip(from as int)),
        from <= at <= chars.len(),
{
    let mut i: usize = from;
    proof {
        lemma_first_colon(chars@.skip(from as int));
    }
    while i < chars.len() && chars[i] != ':'
        invariant
            from <= i <= chars.len(),
            from + first_colon(chars@.skip(from as int)) == i + first_colon(chars@.skip(i as int)),
        decreases chars.len() - i,
    {
        proof {
            assert(chars@.skip(i as int).skip(1) =~= chars@.skip(i + 1));
            assert(chars@.skip(i as int)[0] == chars@[i as int]);
        }
        i += 1;
    }
    proof {
        if i < chars.len() {
            assert(chars@.skip(i as int)[0] == chars@[i as int]);
        }
    }
    i
}

/// Reads the port that `chars[from..]` writes.
fn read_port(chars: &Vec<char>, from: usize) -> (port: Option<u16>)
    requires
        from <= chars.len(),
    ensures
        port == port_of(chars@.skip(from as int)),
{
    let ghost text = chars@.skip(from as int);
    let start: usize = if from < chars.len() && chars[from] == '+' {
        from + 1
    } else {
        from
    };
    let ghost digits = chars@.skip(start as int);
    proof {
        if start > from {
            assert(text[0] == chars@[from as int]);
            assert(text.skip(1) =~= digits);
        } else if from < chars.len() {
            assert(text[0] == chars@[from as int]);
        }
    }
    if start >= chars.len() {
        return None;
    }
    let mut value: u32 = 0;
    let mut i: usize = start;
    proof {
        assert(digits.take(0) =~= Seq::<char>::empty());
    }
    while i < chars.len()
        invariant
            start <= i <= chars.len(),
            start < chars.len(),
            text == chars@.skip(from as int),
            digits == chars@.skip(start as int),
            digits == unsigned(text),
            value == decimal_value(digits.take(i - start)),
            value <= u16::MAX,
            forall|k: int| 0 <= k < i - start ==> is_digit(#[trigger] digits[k]),
        decreases chars.len() - i,
    {
        let c = chars[i];
        proof {
            assert(digits[i - start] == c);
        }
        if c < '0' || c > '9' {
            proof {
                let k = i - start;
                assert(0 <= k < digits.len());
                assert(!is_digit(digits[k]));
            }
            return None;
        }
        let digit: u32 = (c as u8 - 48) as u32;
        value = value * 10 + digit;
        proof {
            assert(digits.take(i - start + 1).drop_last() =~= digits.take(i - start));
            assert(digits.take(i - start + 1).last() == c);
        }
        if value > 65535 {
            proof {
                lemma_value_grows(digits, i - start + 1);
            }
            return None;
        }
        i += 1;
    }
    proof {
        assert(digits.take(chars.len() - start) =~= digits);
    }
    Some(value as u16)
}

/// Reads a host string: the host, and the port that it names or the default.
pub fn parse_address(address: &str) -> (endpoint: Option<(String, u16)>)
    ensures
        match endpoint {
            Some((host, port)) => address_of(address@) == Some((host@, port)),
            None => address_of(address@) is None,
        },
{
    let chars = chars_of(address);
    let colon = find_colon(&chars, 0);
    proof {
        assert(chars@.skip(0) =~= chars@);
    }
    if colon >= chars.len() {
        return Some((address.to_owned(), DEFAULT_PORT));
    }
    let second = find_colon(&chars, colon + 1);
    if second < chars.len() {
        return None;
    }
    match read_port(&chars, colon + 1) {
        Some(port) => {
            proof {
                assert(chars@.take(colon as int) =~= chars@.subrange(0, colon as int));
            }
            Some((string_of(&chars, 0, colon), port))
        },
        None => None,
    }
}

/// A private key, as `russh` holds it. Nothing of it is seen here: it is
/// decoded and handed on to the driver, which presents it to the host.
#[verifier::external_type_specification]
#[verifier::external_body]
pub struct ExPrivateKey(russh::keys::PrivateKey);

/// What `russh::keys::decode_secret_key` makes of the text of a key and of
/// its passphrase: nothing is amiss, or the words of its error.
pub uninterp spec fn key_fault(data: Seq<char>, passphrase: Option<Seq<char>>) -> Option<Seq<char>>;

/// Decodes the text of a private key with `russh::keys::decode_secret_key`,
/// which reads the OpenSSH, PKCS#5, PKCS#8 and PuTTY forms and deciphers
/// the key with the passphrase where it is enciphered. What comes back
/// depends on the text and the passphrase alone. An error is given in its
/// own words.
#[verifier::external_body]
fn decode_secret_key(data: &str, passphrase: &Option<String>) -> (key: Result<PrivateKey, String>)
    ensures
        match key {
            Ok(_) => key_fault(data@, passphrase.deep_view()) is None,
            Err(said) => key_fault(data@, passphrase.deep_view()) == Some(said@),
        },
{
    russh::keys::decode_secret_key(data, passphrase.as_deref()).map_err(|e| e.to_string())
}

/// The step of the handshake that is in flight, or the state of the session.
#[derive(Debug, Clone, Copy, PartialEq, Eq, Structural)]
pub enum ClientPhase {
    Resolving,
    Dialing,
    Password,
    LoadingKey,
    QueryingHash,
    PublicKey,
    /// The session is open and authenticated.
    Ready,
    /// The session was closed by this side.
    Closed,
    Failed,
}

impl ClientPhase {
    /// The kind of error that a failure in this phase is.
    pub open spec fn blame(self) -> SshFault {
        match self {
            ClientPhase::Resolving => SshFault::IoError,
            ClientPhase::LoadingKey => SshFault::KeyError,
            _ => SshFault::ConnectionError,
        }
    }

    /// Whether the handshake is still going on.
    pub open spec fn is_handshake(self) -> bool {
        self != ClientPhase::Ready && self != ClientPhase::Closed && self != ClientPhase::Failed
    }
}

/// What a client asks of its driver.
#[derive(Debug, Clone, PartialEq, Eq)]
pub enum ClientStep {
    /// Look the host up and take the first endpoint.
    Resolve { host: String, port: u16 },
    /// Connect to the endpoint.
    Dial,
    AuthenticatePassword { username: String, password: String },
    /// Load the private key from its file.
    LoadKeyFile { path: String, passphrase: Option<String> },
    /// Ask the host which hash it takes with an RSA key.
    QueryRsaHash,
    /// Authenticate with the key: the one that the client holds, or else
    /// the one that was loaded.
    AuthenticatePublicKey { username: String },
    /// The session is open and authenticated.
    Ready,
    /// The handshake has failed; the client holds the error.
    Abort,
}

/// A `ClientStep` as plain values: texts are sequences of characters.
pub enum ClientStepView {
    Resolve { host: Seq<char>, port: u16 },
    Dial,
    AuthenticatePassword { username: Seq<char>, password: Seq<char> },
    LoadKeyFile { path: Seq<char>, passphrase: Option<Seq<char>> },
    QueryRsaHash,
    AuthenticatePublicKey { username: Seq<char> },
    Ready,
    Abort,
}

impl View for ClientStep {
    type V = ClientStepView;

    open spec fn view(&self) -> ClientStepView {
        match self {
            ClientStep::Resolve { host, port } => ClientStepView::Resolve {
                host: host@,
                port: *port,
            },
            ClientStep::Dial => ClientStepView::Dial,
            ClientStep::AuthenticatePassword {
                username,
                password,
            } => ClientStepView::AuthenticatePassword { username: username@, password: password@ },
            ClientStep::LoadKeyFile { path, passphrase } => ClientStepView::LoadKeyFile {
                path: path@,
                passphrase: passphrase.deep_view(),
            },
            ClientStep::QueryRsaHash => ClientStepView::QueryRsaHash,
            ClientStep::AuthenticatePublicKey { username } => ClientStepView::AuthenticatePublicKey {
                username: username@,
            },
            ClientStep::Ready => ClientStepView::Ready,
            ClientStep::Abort => ClientStepView::Abort,
        }
    }
}

/// What the driver tells a client.
#[derive(Debug, Clone, PartialEq, Eq)]
pub enum ClientEvent {
    /// The host was looked up; whether it has an endpoint.
    Resolved { found: bool },
    Dialed,
    KeyLoaded,
    /// The host was asked for its hash; whether it answered.
    HashKnown { supported: bool },
    /// The host has judged the credentials.
    Authenticated { success: bool },
    /// The step failed, with the driver's words for it.
    Failed { detail: String },
}

/// A `ClientEvent` as plain values: texts are sequences of characters.
pub enum ClientEventView {
    Resolved { found: bool },
    Dialed,
    KeyLoaded,
    HashKnown { supported: bool },
    Authenticated { success: bool },
    Failed { detail: Seq<char> },
}

impl View for ClientEvent {
    type V = ClientEventView;

    open spec fn view(&self) -> ClientEventView {
        match self {
            ClientEvent::Resolved { found } => ClientEventView::Resolved { found: *found },
            ClientEvent::Dialed => ClientEventView::Dialed,
            ClientEvent::KeyLoaded => ClientEventView::KeyLoaded,
            ClientEvent::HashKnown { supported } => ClientEventView::HashKnown {
                supported: *supported,
            },
            ClientEvent::Authenticated { success } => ClientEventView::Authenticated {
                success: *success,
            },
            ClientEvent::Failed { detail } => ClientEventView::Failed { detail: detail@ },
        }
    }
}

/// The client of one session.
#[derive(Debug, Clone, PartialEq, Eq)]
pub struct Client {
    pub host: String,
    pub port: u16,
    pub username: String,
    pub auth: Auth,
    pub phase: ClientPhase,
    /// Why the handshake failed, if it did.
    pub failure: Option<SshError>,
    /// The private key that was decoded from the credentials, if they hold
    /// its text.
    pub key: Option<PrivateKey>,
}

/// A `Client` as plain values: texts are sequences of characters.
pub struct ClientView {
    pub host: Seq<char>,
    pub port: u16,
    pub username: Seq<char>,
    pub auth: AuthView,
    pub phase: ClientPhase,
    pub failure: Option<(SshFault, Seq<char>)>,
    /// Whether the client holds a decoded key.
    pub has_key: bool,
}

impl DeepView for Client {
    type V = ClientView;

    open spec fn deep_view(&self) -> ClientView {
        ClientView {
            host: self.host@,
            port: self.port,
            username: self.username@,
            auth: self.auth@,
            phase: self.phase,
            failure: self.failure.deep_view(),
            has_key: self.key is Some,
        }
    }
}

impl View for Client {
    type V = ClientView;

    open spec fn view(&self) -> ClientView {
        self.deep_view()
    }
}

impl ClientView {
    /// The handshake goes on with `step` in flight.
    pub open spec fn ask(self, phase: ClientPhase, step: ClientStepView) -> (
        ClientView,
        ClientStepView,
    ) {
        (ClientView { phase, ..self }, step)
    }

    /// The handshake ends in failure.
    pub open spec fn fail(self, fault: SshFault, detail: Seq<char>) -> (ClientView, ClientStepView) {
        (
            ClientView { phase: ClientPhase::Failed, failure: Some((fault, detail)), ..self },
            ClientStepView::Abort,
        )
    }

    /// The handshake ends with the session open and authenticated.
    pub open spec fn ready(self) -> (ClientView, ClientStepView) {
        (ClientView { phase: ClientPhase::Ready, ..self }, ClientStepView::Ready)
    }

    /// How a session is opened: the host string is read, and its host is
    /// looked up. A host string that names no endpoint fails at once.
    pub open spec fn connect(address: Seq<char>, username: Seq<char>, auth: AuthView) -> (
        ClientView,
        ClientStepView,
    ) {
        match address_of(address) {
            Some((host, port)) => (
                ClientView {
                    host,
                    port,
                    username,
                    auth,
                    phase: ClientPhase::Resolving,
                    failure: None,
                    has_key: false,
                },
                ClientStepView::Resolve { host, port },
            ),
            None => (
                ClientView {
                    host: address,
                    port: DEFAULT_PORT,
                    username,
                    auth,
                    phase: ClientPhase::Failed,
                    failure: Some((SshFault::AddressError, INVALID_ADDRESS@)),
                    has_key: false,
                },
                ClientStepView::Abort,
            ),
        }
    }

    /// The step that presents the credentials, once the connection stands.
    pub open spec fn authenticate(self) -> (ClientView, ClientStepView) {
        match self.auth {
            AuthView::Password(password) => self.ask(
                ClientPhase::Password,
                ClientStepView::AuthenticatePassword { username: self.username, password },
            ),
            AuthView::KeyFile(path, passphrase) => self.ask(
                ClientPhase::LoadingKey,
                ClientStepView::LoadKeyFile { path, passphrase },
            ),
            AuthView::KeyData(data, passphrase) => self.with_key(key_fault(data, passphrase)),
        }
    }

    /// The step after the text of a key was decoded: the client holds the
    /// key and asks the host for its hash, or the handshake has failed with
    /// the words of the decoder.
    pub open spec fn with_key(self, fault: Option<Seq<char>>) -> (ClientView, ClientStepView) {
        match fault {
            None => ClientView { has_key: true, ..self }.ask(
                ClientPhase::QueryingHash,
                ClientStepView::QueryRsaHash,
            ),
            Some(said) => self.fail(SshFault::KeyError, said),
        }
    }

    /// One step of the handshake.
    ///
    /// The host is looked up, the connection is made, and the credentials
    /// are presented: a password at once; a key after it is loaded from its
    /// file or decoded from its text, and the host has said which hash it
    /// takes. The session is ready when the host
    /// accepts the credentials, and at no other time. A session that is
    /// ready, closed or failed stays as it is.
    pub open spec fn next(self, event: ClientEventView) -> (ClientView, ClientStepView) {
        if !self.phase.is_handshake() {
            (
                self,
                if self.phase == ClientPhase::Ready {
                    ClientStepView::Ready
                } else {
                    ClientStepView::Abort
                },
            )
        } else {
            match (self.phase, event) {
                (_, ClientEventView::Failed { detail }) => self.fail(self.phase.blame(), detail),
                (ClientPhase::Resolving, ClientEventView::Resolved { found }) => if found {
                    self.ask(ClientPhase::Dialing, ClientStepView::Dial)
                } else {
                    self.fail(SshFault::AddressError, INVALID_ADDRESS@)
                },
                (ClientPhase::Dialing, ClientEventView::Dialed) => self.authenticate(),
                (ClientPhase::Password, ClientEventView::Authenticated { success }) => if success {
                    self.ready()
                } else {
                    self.fail(SshFault::AuthenticationFailed, PASSWORD_REFUSED@)
                },
                (ClientPhase::LoadingKey, ClientEventView::KeyLoaded) => self.ask(
                    ClientPhase::QueryingHash,
                    ClientStepView::QueryRsaHash,
                ),
                (ClientPhase::QueryingHash, ClientEventView::HashKnown { supported }) => if supported {
                    self.ask(
                        ClientPhase::PublicKey,
                        ClientStepView::AuthenticatePublicKey { username: self.username },
                    )
                } else {
                    self.fail(SshFault::AuthenticationFailed, NO_RSA_HASH@)
                },
                (ClientPhase::PublicKey, ClientEventView::Authenticated { success }) => if success {
                    self.ready()
                } else {
                    self.fail(SshFault::AuthenticationFailed, KEY_REFUSED@)
                },
                _ => self.fail(SshFault::InvalidResponse, STRAY_EVENT@),
            }
        }
    }
}

/// A session becomes ready only when the host accepts the credentials.
pub proof fn lemma_ready_is_authenticated(client: ClientView, event: ClientEventView)
    requires
        client.phase != ClientPhase::Ready,
        client.next(event).0.phase == ClientPhase::Ready,
    ensures
        event == (ClientEventView::Authenticated { success: true }),
        client.phase == ClientPhase::Password || client.phase == ClientPhase::PublicKey,
{
}

impl ClientPhase {
    /// How far a phase is along the handshake.
    pub open spec fn rank(self) -> nat {
        match self {
            ClientPhase::Resolving => 0,
            ClientPhase::Dialing => 1,
            ClientPhase::Password => 2,
            ClientPhase::LoadingKey => 2,
            ClientPhase::QueryingHash => 3,
            ClientPhase::PublicKey => 4,
            ClientPhase::Ready => 5,
            ClientPhase::Closed => 5,
            ClientPhase::Failed => 5,
        }
    }
}

/// A handshake is over within five steps, and nothing is tried twice: every
/// step takes it further along, a failure ends it, and a handshake that has
/// failed stays failed.
pub proof fn lemma_handshake_advances(client: ClientView, event: ClientEventView)
    ensures
        client.phase.is_handshake() ==> client.next(event).0.phase.rank() > client.phase.rank(),
        client.phase.is_handshake() && event is Failed ==> client.next(event).0.phase
            == ClientPhase::Failed,
        !client.phase.is_handshake() ==> client.next(event).0 == client,
        client.next(event).1 is Abort <==> client.next(event).0.phase != ClientPhase::Ready
            && !client.next(event).0.phase.is_handshake(),
{
}

/// A message of the channel that a command runs on.
#[derive(Debug, Clone, PartialEq, Eq)]
pub enum ChannelMsg {
    /// A chunk of standard output.
    Data(Vec<u8>),
    /// A chunk of another stream; standard error has the number 1.
    ExtendedData { ext: u32, data: Vec<u8> },
    /// The exit status of the command.
    ExitStatus(u32),
    /// Anything else.
    Other,
}

/// A `ChannelMsg` as plain values: texts are sequences of characters.
pub enum ChannelMsgView {
    Data(Seq<u8>),
    ExtendedData { ext: u32, data: Seq<u8> },
    ExitStatus(u32),
    Other,
}

impl DeepView for ChannelMsg {
    type V = ChannelMsgView;

    open spec fn deep_view(&self) -> ChannelMsgView {
        match self {
            ChannelMsg::Data(data) => ChannelMsgView::Data(data@),
            ChannelMsg::ExtendedData { ext, data } => ChannelMsgView::ExtendedData {
                ext: *ext,
                data: data@,
            },
            ChannelMsg::ExitStatus(code) => ChannelMsgView::ExitStatus(*code),
            ChannelMsg::Other => ChannelMsgView::Other,
        }
    }
}

impl View for ChannelMsg {
    type V = ChannelMsgView;

    open spec fn view(&self) -> ChannelMsgView {
        self.deep_view()
    }
}

/// The number of the stream that carries standard error.
pub const STDERR_STREAM: u32 = 1;

/// The chunk of output that a message carries, and the stream that it came
/// on: data is standard output, and extended data of the stream numbered 1
/// is standard error.
pub open spec fn chunk_of(msg: ChannelMsgView) -> Option<(Stream, Seq<u8>)> {
    match msg {
        ChannelMsgView::Data(data) => Some((Stream::Stdout, data)),
        ChannelMsgView::ExtendedData { ext, data } => if ext == STDERR_STREAM {
            Some((Stream::Stderr, data))
        } else {
            None
        },
        _ => None,
    }
}

/// The stream that a message brings a chunk of, if it brings one.
pub open spec fn stream_of(msg: ChannelMsgView) -> Option<Stream> {
    match chunk_of(msg) {
        Some((stream, _)) => Some(stream),
        None => None,
    }
}

impl ChannelMsg {
    /// Tells which stream the chunk of the message came on: standard
    /// output for data, standard error for extended data of the stream
    /// numbered 1, and none for any other message.
    pub fn stream(&self) -> (stream: Option<Stream>)
        ensures
            stream == stream_of(self@),
    {
        match self {
            ChannelMsg::Data(_) => Some(Stream::Stdout),
            ChannelMsg::ExtendedData { ext, data: _ } => if *ext == STDERR_STREAM {
                Some(Stream::Stderr)
            } else {
                None
            },
            _ => None,
        }
    }
}

/// The exit status that the messages of a channel report: the last one, if
/// there is any.
pub open spec fn exit_status_of(msgs: Seq<ChannelMsgView>) -> Option<u32>
    decreases msgs.len(),
{
    if msgs.len() == 0 {
        None
    } else {
        match msgs.last() {
            ChannelMsgView::ExitStatus(code) => Some(code),
            _ => exit_status_of(msgs.drop_last()),
        }
    }
}

/// What a handler delivers for a chunk of a stream: the stream, the record
/// of the chunk where the handler logs locally, and the chunk itself for
/// the console where the handler mirrors.
pub open spec fn delivers<H: IOHandler>(
    handler: &H,
    stream: Stream,
    data: Seq<u8>,
    delivery: DeliveryView,
) -> bool {
    &&& delivery.stream == stream
    &&& delivery.log is Some == handler.logs_locally()
    &&& delivery.log is Some ==> is_record(delivery.log->0, data)
    &&& delivery.out is None
    &&& delivery.err == (if handler.mirrors() {
        Some(data)
    } else {
        None
    })
}

/// The run of one command over a session: the messages of its channel so
/// far, and the exit status that they report.
pub struct Execution {
    pub exit_status: Option<u32>,
    pub seen: Ghost<Seq<ChannelMsgView>>,
}

impl Execution {
    /// The exit status is the one that the messages so far report.
    pub open spec fn wf(&self) -> bool {
        self.exit_status == exit_status_of(self.seen@)
    }

    /// The run of a command as it begins.
    pub fn new() -> (run: Execution)
        ensures
            run.wf(),
            run.seen@ == Seq::<ChannelMsgView>::empty(),
    {
        Execution { exit_status: None, seen: Ghost(Seq::empty()) }
    }

    /// Takes the next message of the channel. A chunk of standard output
    /// goes to the handler's `stdout`, a chunk of standard error to its
    /// `stderr`; every other message delivers nothing.
    pub fn receive<H: IOHandler>(&mut self, handler: &H, msg: &ChannelMsg) -> (delivery: Option<
        Delivery,
    >)
        requires
            old(self).wf(),
        ensures
            final(self).wf(),
            final(self).seen@ == old(self).seen@.push(msg@),
            match chunk_of(msg@) {
                Some((stream, data)) => delivery is Some && delivers(
                    handler,
                    stream,
                    data,
                    delivery->0@,
                ),
                None => delivery is None,
            },
    {
        proof {
            assert(self.seen@.push(msg@).drop_last() =~= self.seen@);
        }
        self.seen = Ghost(self.seen@.push(msg@));
        match msg {
            ChannelMsg::Data(data) => Some(handler.stdout(data.as_slice())),
            ChannelMsg::ExtendedData { ext, data } => {
                if *ext == STDERR_STREAM {
                    Some(handler.stderr(data.as_slice()))
                } else {
                    None
                }
            },
            ChannelMsg::ExitStatus(code) => {
                self.exit_status = Some(*code);
                None
            },
            ChannelMsg::Other => None,
        }
    }

    /// The outcome of the run when its channel has closed: the exit status
    /// that was reported last, or a failure where none was reported.
    pub fn finish(&self) -> (outcome: Result<u32, SshError>)
        requires
            self.wf(),
        ensures
            match exit_status_of(self.seen@) {
                Some(code) => outcome == Ok::<u32, SshError>(code),
                None => outcome is Err && outcome->Err_0@ == (
                    SshFault::CommandError,
                    NO_EXIT_STATUS@,
                ),
            },
    {
        match self.exit_status {
            Some(code) => Ok(code),
            None => Err(SshError::CommandError(NO_EXIT_STATUS.to_owned())),
        }
    }
}

impl Client {
    fn ask(self, phase: ClientPhase, step: ClientStep) -> (out: (Client, ClientStep))
        ensures
            (out.0@, out.1@) == self@.ask(phase, step@),
    {
        (Client { phase, ..self }, step)
    }

    fn fail(self, fault: SshFault, detail: String) -> (out: (Client, ClientStep))
        ensures
            (out.0@, out.1@) == self@.fail(fault, detail@),
    {
        (
            Client {
                phase: ClientPhase::Failed,
                failure: Some(SshError::new(fault, detail)),
                ..self
            },
            ClientStep::Abort,
        )
    }

    fn ready(self) -> (out: (Client, ClientStep))
        ensures
            (out.0@, out.1@) == self@.ready(),
    {
        (Client { phase: ClientPhase::Ready, ..self }, ClientStep::Ready)
    }

    /// Begins to open a session to `address`, which is `host` or
    /// `host:port`, and names the first step of the handshake.
    pub fn connect(address: &str, username: &str, auth: Auth) -> (out: (Client, ClientStep))
        ensures
            (out.0@, out.1@) == ClientView::connect(address@, username@, auth@),
    {
        match parse_address(address) {
            Some((host, port)) => {
                let step = ClientStep::Resolve { host: host.clone(), port };
                (
                    Client {
                        host,
                        port,
                        username: username.to_owned(),
                        auth,
                        phase: ClientPhase::Resolving,
                        failure: None,
                        key: None,
                    },
                    step,
                )
            },
            None => (
                Client {
                    host: address.to_owned(),
                    port: DEFAULT_PORT,
                    username: username.to_owned(),
                    auth,
                    phase: ClientPhase::Failed,
                    failure: Some(SshError::AddressError(INVALID_ADDRESS.to_owned())),
                    key: None,
                },
                ClientStep::Abort,
            ),
        }
    }

    /// Takes what the decoder has made of the text of the key: the key, or
    /// the words of its error. With the key, the client asks the host for
    /// its hash; without it, the handshake has failed.
    pub fn with_key(self, decoded: Result<PrivateKey, String>) -> (out: (Client, ClientStep))
        ensures
            (out.0@, out.1@) == self@.with_key(
                match decoded {
                    Ok(_) => None,
                    Err(said) => Some(said@),
                },
            ),
    {
        match decoded {
            Ok(key) => Client { key: Some(key), ..self }.ask(
                ClientPhase::QueryingHash,
                ClientStep::QueryRsaHash,
            ),
            Err(said) => self.fail(SshFault::KeyError, said),
        }
    }

    fn authenticate(self) -> (out: (Client, ClientStep))
        ensures
            (out.0@, out.1@) == self@.authenticate(),
    {
        match &self.auth {
            Auth::Password(password) => {
                let step = ClientStep::AuthenticatePassword {
                    username: self.username.clone(),
                    password: password.clone(),
                };
                self.ask(ClientPhase::Password, step)
            },
            Auth::KeyFile(path, passphrase) => {
                let step = ClientStep::LoadKeyFile {
                    path: path.clone(),
                    passphrase: copy_opt(passphrase),
                };
                self.ask(ClientPhase::LoadingKey, step)
            },
            Auth::KeyData(data, passphrase) => {
                let decoded = decode_secret_key(data.as_str(), passphrase);
                self.with_key(decoded)
            },
        }
    }

    /// Steps the handshake with what became of the step that was named
    /// last, and names the next one.
    pub fn step(self, event: &ClientEvent) -> (out: (Client, ClientStep))
        ensures
            (out.0@, out.1@) == self@.next(event@),
    {
        match self.phase {
            ClientPhase::Ready => {
                return (self, ClientStep::Ready);
            },
            ClientPhase::Closed => {
                return (self, ClientStep::Abort);
            },
            ClientPhase::Failed => {
                return (self, ClientStep::Abort);
            },
            _ => {},
        }
        match (self.phase, event) {
            (phase, ClientEvent::Failed { detail }) => {
                let fault = match phase {
                    ClientPhase::Resolving => SshFault::IoError,
                    ClientPhase::LoadingKey => SshFault::KeyError,
                    _ => SshFault::ConnectionError,
                };
                self.fail(fault, detail.clone())
            },
            (ClientPhase::Resolving, ClientEvent::Resolved { found }) => if *found {
                self.ask(ClientPhase::Dialing, ClientStep::Dial)
            } else {
                self.fail(SshFault::AddressError, INVALID_ADDRESS.to_owned())
            },
            (ClientPhase::Dialing, ClientEvent::Dialed) => self.authenticate(),
            (ClientPhase::Password, ClientEvent::Authenticated { success }) => if *success {
                self.ready()
            } else {
                self.fail(SshFault::AuthenticationFailed, PASSWORD_REFUSED.to_owned())
            },
            (ClientPhase::LoadingKey, ClientEvent::KeyLoaded) => self.ask(
                ClientPhase::QueryingHash,
                ClientStep::QueryRsaHash,
            ),
            (ClientPhase::QueryingHash, ClientEvent::HashKnown { supported }) => if *supported {
                let step = ClientStep::AuthenticatePublicKey { username: self.username.clone() };
                self.ask(ClientPhase::PublicKey, step)
            } else {
                self.fail(SshFault::AuthenticationFailed, NO_RSA_HASH.to_owned())
            },
            (ClientPhase::PublicKey, ClientEvent::Authenticated { success }) => if *success {
                self.ready()
            } else {
                self.fail(SshFault::AuthenticationFailed, KEY_REFUSED.to_owned())
            },
            _ => self.fail(SshFault::InvalidResponse, STRAY_EVENT.to_owned()),
        }
    }

    /// Whether the session is open and authenticated.
    pub fn is_ready(&self) -> (yes: bool)
        ensures
            yes == (self.phase == ClientPhase::Ready),
    {
        self.phase == ClientPhase::Ready
    }

    /// Begins the run of a command over the session: the command that the
    /// handler makes of it is the one to send.
    pub fn execute<H: IOHandler>(&self, handler: &H, command: &str) -> (out: (Execution, String))
        requires
            self.phase == ClientPhase::Ready,
        ensures
            out.0.wf(),
            out.0.seen@ == Seq::<ChannelMsgView>::empty(),
            out.1@ == handler.rewritten(command@),
    {
        (Execution::new(), handler.update_command(command))
    }

    /// Closes the session from this side.
    pub fn disconnect(self) -> (closed: Client)
        ensures
            closed@ == (ClientView { phase: ClientPhase::Closed, ..self@ }),
    {
        Client { phase: ClientPhase::Closed, ..self }
    }
}

} // verus!
