//! Failures of a shell session.

use crate::text::join2;
use vstd::prelude::*;
use vstd::std_specs::convert::FromSpecImpl;

verus! {

/// The kinds of failure of a shell session.
#[derive(Debug, Clone, Copy, PartialEq, Eq, Structural)]
pub enum SshFault {
    ConnectionError,
    AuthenticationFailed,
    AddressError,
    KeyError,
    IoError,
    SftpError,
    SessionError,
    CommandError,
    ChannelError,
    SubsystemError,
    InvalidResponse,
    EnvError,
    AddrParseError,
    UnsupportedOperation,
    TimeoutError,
}

/// A failure of a shell session, with its detail in words.
#[derive(Debug, Clone, PartialEq, Eq)]
pub enum SshError {
    /// The transport failed.
    ConnectionError(String),
    /// The host refused the credentials.
    AuthenticationFailed(String),
    /// The host string gives no endpoint.
    AddressError(String),
    /// The key could not be loaded.
    KeyError(String),
    /// The local file system failed.
    IoError(String),
    /// The file transfer subsystem answered with a failure status.
    SftpError(String),
    SessionError(String),
    /// The command ended without an exit status.
    CommandError(String),
    ChannelError(String),
    SubsystemError(String),
    InvalidResponse(String),
    EnvError(String),
    AddrParseError(String),
    UnsupportedOperation(String),
    TimeoutError(String),
}

/// An error is modelled by its kind and its detail.
impl DeepView for SshError {
    type V = (SshFault, Seq<char>);

    open spec fn deep_view(&self) -> (SshFault, Seq<char>) {
        match self {
            SshError::ConnectionError(d) => (SshFault::ConnectionError, d@),
            SshError::AuthenticationFailed(d) => (SshFault::AuthenticationFailed, d@),
            SshError::AddressError(d) => (SshFault::AddressError, d@),
            SshError::KeyError(d) => (SshFault::KeyError, d@),
            SshError::IoError(d) => (SshFault::IoError, d@),
            SshError::SftpError(d) => (SshFault::SftpError, d@),
            SshError::SessionError(d) => (SshFault::SessionError, d@),
            SshError::CommandError(d) => (SshFault::CommandError, d@),
            SshError::ChannelError(d) => (SshFault::ChannelError, d@),
            SshError::SubsystemError(d) => (SshFault::SubsystemError, d@),
            SshError::InvalidResponse(d) => (SshFault::InvalidResponse, d@),
            SshError::EnvError(d) => (SshFault::EnvError, d@),
            SshError::AddrParseError(d) => (SshFault::AddrParseError, d@),
            SshError::UnsupportedOperation(d) => (SshFault::UnsupportedOperation, d@),
            SshError::TimeoutError(d) => (SshFault::TimeoutError, d@),
        }
    }
}

impl View for SshError {
    type V = (SshFault, Seq<char>);

    open spec fn view(&self) -> (SshFault, Seq<char>) {
        self.deep_view()
    }
}

/// The words that introduce the detail of a failure.
pub open spec fn headline(fault: SshFault) -> Seq<char> {
    match fault {
        SshFault::ConnectionError => "SSH connection error: "@,
        SshFault::AuthenticationFailed => "Authentication failed: "@,
        SshFault::AddressError => "Address resolution failed: "@,
        SshFault::KeyError => "Key loading failed: "@,
        SshFault::IoError => "IO error: "@,
        SshFault::SftpError => "SFTP error: "@,
        SshFault::SessionError => "Session error: "@,
        SshFault::CommandError => "Command execution error: "@,
        SshFault::ChannelError => "SSH channel error: "@,
        SshFault::SubsystemError => "Subsystem error: "@,
        SshFault::InvalidResponse => "Invalid server response: "@,
        SshFault::EnvError => "Environment variable error: "@,
        SshFault::AddrParseError => "Address parsing error: "@,
        SshFault::UnsupportedOperation => "Unsupported operation: "@,
        SshFault::TimeoutError => "Operation timed out: "@,
    }
}

impl SshError {
    /// The failure of the given kind with the given detail.
    pub fn new(fault: SshFault, detail: String) -> (error: SshError)
        ensures
            error@ == (fault, detail@),
    {
        match fault {
            SshFault::ConnectionError => SshError::ConnectionError(detail),
            SshFault::AuthenticationFailed => SshError::AuthenticationFailed(detail),
            SshFault::AddressError => SshError::AddressError(detail),
            SshFault::KeyError => SshError::KeyError(detail),
            SshFault::IoError => SshError::IoError(detail),
            SshFault::SftpError => SshError::SftpError(detail),
            SshFault::SessionError => SshError::SessionError(detail),
            SshFault::CommandError => SshError::CommandError(detail),
            SshFault::ChannelError => SshError::ChannelError(detail),
            SshFault::SubsystemError => SshError::SubsystemError(detail),
            SshFault::InvalidResponse => SshError::InvalidResponse(detail),
            SshFault::EnvError => SshError::EnvError(detail),
            SshFault::AddrParseError => SshError::AddrParseError(detail),
            SshFault::UnsupportedOperation => SshError::UnsupportedOperation(detail),
            SshFault::TimeoutError => SshError::TimeoutError(detail),
        }
    }

    /// The kind of the failure.
    pub fn fault(&self) -> (fault: SshFault)
        ensures
            fault == self@.0,
    {
        match self {
            SshError::ConnectionError(_) => SshFault::ConnectionError,
            SshError::AuthenticationFailed(_) => SshFault::AuthenticationFailed,
            SshError::AddressError(_) => SshFault::AddressError,
            SshError::KeyError(_) => SshFault::KeyError,
            SshError::IoError(_) => SshFault::IoError,
            SshError::SftpError(_) => SshFault::SftpError,
            SshError::SessionError(_) => SshFault::SessionError,
            SshError::CommandError(_) => SshFault::CommandError,
            SshError::ChannelError(_) => SshFault::ChannelError,
            SshError::SubsystemError(_) => SshFault::SubsystemError,
            SshError::InvalidResponse(_) => SshFault::InvalidResponse,
            SshError::EnvError(_) => SshFault::EnvError,
            SshError::AddrParseError(_) => SshFault::AddrParseError,
            SshError::UnsupportedOperation(_) => SshFault::UnsupportedOperation,
            SshError::TimeoutError(_) => SshFault::TimeoutError,
        }
    }

    /// The detail of the failure.
    pub fn detail(&self) -> (detail: &str)
        ensures
            detail@ == self@.1,
    {
        match self {
            SshError::ConnectionError(d) => d.as_str(),
            SshError::AuthenticationFailed(d) => d.as_str(),
            SshError::AddressError(d) => d.as_str(),
            SshError::KeyError(d) => d.as_str(),
            SshError::IoError(d) => d.as_str(),
            SshError::SftpError(d) => d.as_str(),
            SshError::SessionError(d) => d.as_str(),
            SshError::CommandError(d) => d.as_str(),
            SshError::ChannelError(d) => d.as_str(),
            SshError::SubsystemError(d) => d.as_str(),
            SshError::InvalidResponse(d) => d.as_str(),
            SshError::EnvError(d) => d.as_str(),
            SshError::AddrParseError(d) => d.as_str(),
            SshError::UnsupportedOperation(d) => d.as_str(),
            SshError::TimeoutError(d) => d.as_str(),
        }
    }

    /// The line shown to the user: the kind's headline, then the detail.
    pub fn message(&self) -> (line: String)
        ensures
            line@ == headline(self@.0) + self@.1,
    {
        let head = match self.fault() {
            SshFault::ConnectionError => "SSH connection error: ",
            SshFault::AuthenticationFailed => "Authentication failed: ",
            SshFault::AddressError => "Address resolution failed: ",
            SshFault::KeyError => "Key loading failed: ",
            SshFault::IoError => "IO error: ",
            SshFault::SftpError => "SFTP error: ",
            SshFault::SessionError => "Session error: ",
            SshFault::CommandError => "Command execution error: ",
            SshFault::ChannelError => "SSH channel error: ",
            SshFault::SubsystemError => "Subsystem error: ",
            SshFault::InvalidResponse => "Invalid server response: ",
            SshFault::EnvError => "Environment variable error: ",
            SshFault::AddrParseError => "Address parsing error: ",
            SshFault::UnsupportedOperation => "Unsupported operation: ",
            SshFault::TimeoutError => "Operation timed out: ",
        };
        join2(head, self.detail())
    }

    /// A copy of the error.
    pub fn duplicate(&self) -> (copy: SshError)
        ensures
            copy@ == self@,
    {
        SshError::new(self.fault(), self.detail().to_owned())
    }
}

/// A bare text stands for a response that makes no sense.
impl From<String> for SshError {
    fn from(err: String) -> (error: SshError) {
        SshError::InvalidResponse(err)
    }
}

impl FromSpecImpl<String> for SshError {
    open spec fn obeys_from_spec() -> bool {
        true
    }

    open spec fn from_spec(err: String) -> SshError {
        SshError::InvalidResponse(err)
    }
}

} // verus!
