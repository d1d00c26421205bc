//! What can go wrong between describing a scene and hearing back from the
//! viewer.

use vstd::prelude::*;

verus! {

/// The failures a caller can meet.
///
/// `EmptyScene`, `UnsupportedMedia` and `OutOfTurn` are structural: they are
/// found before anything reaches the link, and the same input fails again.
/// `EncodingFailure` is a fault of the program: well-formed entities always
/// encode. `TransportFailure` is the one failure to expect while all is in
/// order on this side, and the one that a later attempt may get past.
/// `ConnectionFailure` ends the attempt to open a channel.
#[derive(Clone, Copy, Debug, PartialEq, Eq, Structural)]
pub enum Error {
    /// The endpoint could not be reached when the channel was opened.
    ConnectionFailure,
    /// A scene was assembled from no geometry.
    EmptyScene,
    /// An image file is not a PNG.
    UnsupportedMedia,
    /// The payload of a command could not be encoded.
    EncodingFailure,
    /// Sending the request or receiving its acknowledgement failed.
    TransportFailure,
    /// A step was taken out of turn on a channel: a request while an
    /// acknowledgement is outstanding, or a conclusion with nothing
    /// outstanding.
    OutOfTurn,
}

impl Error {
    /// Whether the failure is one of the transport, which a later attempt
    /// at the same command may get past. Every other failure comes back for
    /// the same input.
    pub open spec fn spec_is_retryable(self) -> bool {
        self is TransportFailure
    }

    /// Whether a later attempt at the same command may get past the failure.
    #[verifier::when_used_as_spec(spec_is_retryable)]
    pub fn is_retryable(self) -> (b: bool)
        ensures
            b == self.spec_is_retryable(),
    {
        match self {
            Error::TransportFailure => true,
            _ => false,
        }
    }

    /// The text of the message for each failure.
    pub open spec fn spec_message(self) -> Seq<char> {
        match self {
            Error::ConnectionFailure => "failed to connect to the viewer"@,
            Error::EmptyScene => "a scene needs at least one geometry"@,
            Error::UnsupportedMedia => "unsupported image type"@,
            Error::EncodingFailure => "the command could not be encoded"@,
            Error::TransportFailure => "the exchange with the viewer failed"@,
            Error::OutOfTurn => "the channel is used out of turn"@,
        }
    }

    /// A message for the failure.
    pub fn message(self) -> (text: String)
        ensures
            text@ == self.spec_message(),
    {
        let text: &str = match self {
            Error::ConnectionFailure => "failed to connect to the viewer",
            Error::EmptyScene => "a scene needs at least one geometry",
            Error::UnsupportedMedia => "unsupported image type",
            Error::EncodingFailure => "the command could not be encoded",
            Error::TransportFailure => "the exchange with the viewer failed",
            Error::OutOfTurn => "the channel is used out of turn",
        };
        text.to_owned()
    }
}

} // verus!
