use vstd::prelude::*;

verus! {

/// Every terminal outcome the system classifies: a rejected magnet link, a
/// parameter record that could not be completed, and the five
/// delivery-pipeline stage failures. Each failure is final — nothing is
/// retried — and carries one short, stable, user-facing message.
#[derive(Clone, Copy, Debug, PartialEq, Eq, Structural)]
pub enum ErrorKind {
    /// The input does not match the required `magnet:?xt=urn:btih:<hash>` shape.
    InvalidMagnetFormat,
    /// The configuration document is unreadable, unparsable, or missing a key.
    ConfigurationMissingOrInvalid,
    /// The explicit-flag path is missing a required field.
    ArgumentsIncomplete,
    /// The transport socket to the host could not be opened.
    ConnectionFailed,
    /// The protocol version/key handshake did not complete.
    HandshakeFailed,
    /// The submitted credentials were rejected.
    AuthenticationFailed,
    /// The remote file could not be created.
    RemoteFileCreationFailed,
    /// The payload could not be written to the open channel.
    WriteFailed,
}

impl ErrorKind {
    /// The fixed message shown for this error; underlying transport detail is
    /// deliberately discarded in favour of these stable texts.
    pub open spec fn spec_message(self) -> Seq<char> {
        match self {
            ErrorKind::InvalidMagnetFormat => "Input must match '^magnet:\\?xt=urn:btih:[a-z0-9]+.*'"@,
            ErrorKind::ConfigurationMissingOrInvalid => "Could not read config from file. Needs host, user, pass, and path."@,
            ErrorKind::ArgumentsIncomplete => "Could not read arguments."@,
            ErrorKind::ConnectionFailed => "Could not initialize TcpStream."@,
            ErrorKind::HandshakeFailed => "Unable to successfully handshake."@,
            ErrorKind::AuthenticationFailed => "Incorrect login credentials."@,
            ErrorKind::RemoteFileCreationFailed => "Could not create remote file."@,
            ErrorKind::WriteFailed => "Could not write to remote file."@,
        }
    }

    /// Returns the stable user-facing message for this error.
    pub fn message(&self) -> (r: &'static str)
        ensures
            r@ == self.spec_message(),
    {
        match self {
            ErrorKind::InvalidMagnetFormat => "Input must match '^magnet:\\?xt=urn:btih:[a-z0-9]+.*'",
            ErrorKind::ConfigurationMissingOrInvalid => "Could not read config from file. Needs host, user, pass, and path.",
            ErrorKind::ArgumentsIncomplete => "Could not read arguments.",
            ErrorKind::ConnectionFailed => "Could not initialize TcpStream.",
            ErrorKind::HandshakeFailed => "Unable to successfully handshake.",
            ErrorKind::AuthenticationFailed => "Incorrect login credentials.",
            ErrorKind::RemoteFileCreationFailed => "Could not create remote file.",
            ErrorKind::WriteFailed => "Could not write to remote file.",
        }
    }
}

} // verus!
