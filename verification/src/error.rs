//! The error type shared by every component.

use vstd::prelude::*;

verus! {

/// Everything that can go wrong in a session.
///
/// The variants that speak of the transport are raised by whoever drives the
/// transport; the library raises the others itself. A failure reported by the
/// Noise layer is `SnowError` both while the handshake runs (the peer holds
/// another ticket, or is an attacker) and in transport mode (a record did not
/// authenticate).
#[derive(Debug, Clone, Copy, PartialEq, Eq, Structural)]
pub enum Error {
    Unknown,
    /// A frame or a metadata block could not be read: unknown tag, truncated
    /// or oversized payload, a name that is not UTF-8.
    SerializationError,
    AcceptError,
    ConnectionError,
    BindError,
    ConnectError,
    WriteError,
    ReadError,
    ReadExactError,
    ClosedStream,
    MpscSendError,
    AeadError,
    /// The Noise layer refused a handshake message or a transport record.
    SnowError,
    TicketParseError,
    MasterKeyParseError,
    FileReadError,
    /// The same path was enqueued twice in one session.
    FileAlreadyAdded,
    FileIoError,
    /// The hash claimed by the sender differs from the hash of what arrived.
    InvalidBlake3Hash,
    /// A well-formed frame arrived at a point of the exchange where the
    /// protocol does not allow it.
    UnexpectedFrame,
}

impl Error {
    /// The text shown to a user for this error.
    pub open spec fn spec_message(self) -> Seq<char> {
        match self {
            Error::Unknown => "unknown error"@,
            Error::SerializationError => "frame serialization error"@,
            Error::AcceptError => "P2P accept error"@,
            Error::ConnectionError => "P2P connection error"@,
            Error::BindError => "P2P bind error"@,
            Error::ConnectError => "P2P connect error"@,
            Error::WriteError => "P2P write error"@,
            Error::ReadError => "P2P receive error"@,
            Error::ReadExactError => "P2P receive error"@,
            Error::ClosedStream => "P2P connection closed"@,
            Error::MpscSendError => "Could not prepare file to encrypt"@,
            Error::AeadError => "Could not encrypt/decrypt file. Encryption key or nonce is likely invalid."@,
            Error::SnowError => "An error occured in the encryption stream"@,
            Error::TicketParseError => "Could not read ticket. Ticket is invalid"@,
            Error::MasterKeyParseError => "Could not read ticket's master key. Master key is invalid"@,
            Error::FileReadError => "Could not read file. This is either a filesystem error or a lack of permission"@,
            Error::FileAlreadyAdded => "File has already been sent."@,
            Error::FileIoError => "Filesystem IO error"@,
            Error::InvalidBlake3Hash => "Received file does not match the hash announced by the sender"@,
            Error::UnexpectedFrame => "Unexpected frame for this stage of the transfer"@,
        }
    }

    /// The text shown to a user for this error.
    pub fn message(&self) -> (text: String)
        ensures
            text@ == self.spec_message(),
    {
        let text: &str = match self {
            Error::Unknown => "unknown error",
            Error::SerializationError => "frame serialization error",
            Error::AcceptError => "P2P accept error",
            Error::ConnectionError => "P2P connection error",
            Error::BindError => "P2P bind error",
            Error::ConnectError => "P2P connect error",
            Error::WriteError => "P2P write error",
            Error::ReadError => "P2P receive error",
            Error::ReadExactError => "P2P receive error",
            Error::ClosedStream => "P2P connection closed",
            Error::MpscSendError => "Could not prepare file to encrypt",
            Error::AeadError => "Could not encrypt/decrypt file. Encryption key or nonce is likely invalid.",
            Error::SnowError => "An error occured in the encryption stream",
            Error::TicketParseError => "Could not read ticket. Ticket is invalid",
            Error::MasterKeyParseError => "Could not read ticket's master key. Master key is invalid",
            Error::FileReadError => "Could not read file. This is either a filesystem error or a lack of permission",
            Error::FileAlreadyAdded => "File has already been sent.",
            Error::FileIoError => "Filesystem IO error",
            Error::InvalidBlake3Hash => "Received file does not match the hash announced by the sender",
            Error::UnexpectedFrame => "Unexpected frame for this stage of the transfer",
        };
        text.to_owned()
    }
}

} // verus!
