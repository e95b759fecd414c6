//! The ways in which a negotiation can end without a session.

use crate::source::MediaKind;
use vstd::prelude::*;
use vstd::string::StringExecFns;

verus! {

/// Why no session came out of a negotiation.
#[derive(Debug, Clone, PartialEq, Eq)]
pub enum ConnectError {
    /// The path of a media source is not there. Found before anything is
    /// set up.
    SourceNotFound { kind: MediaKind, path: String },
    /// The offer could not be read. Holds the reader's own words.
    Deserialization(String),
    /// A step of the negotiation failed. Holds the cause as the connection
    /// reported it.
    Negotiation(String),
    /// Candidate gathering ended and no local description could be read.
    IncompleteNegotiation,
}

impl ConnectError {
    /// The text that describes the failure to the requester.
    pub open spec fn text(&self) -> Seq<char> {
        match self {
            ConnectError::SourceNotFound { kind: MediaKind::Video, path } => "video file: '"@
                + path@ + "' not exist"@,
            ConnectError::SourceNotFound { kind: MediaKind::Audio, path } => "audio file: '"@
                + path@ + "' not exist"@,
            ConnectError::Deserialization(cause) => cause@,
            ConnectError::Negotiation(cause) => cause@,
            ConnectError::IncompleteNegotiation => "Failed to get local description"@,
        }
    }

    /// Writes the failure out for the requester.
    pub fn message(&self) -> (message: String)
        ensures
            message@ == self.text(),
    {
        match self {
            ConnectError::SourceNotFound { kind, path } => {
                let mut message = match kind {
                    MediaKind::Video => String::from_str("video file: '"),
                    MediaKind::Audio => String::from_str("audio file: '"),
                };
                message.append(path.as_str());
                message.append("' not exist");
                message
            },
            ConnectError::Deserialization(cause) => cause.clone(),
            ConnectError::Negotiation(cause) => cause.clone(),
            ConnectError::IncompleteNegotiation => String::from_str(
                "Failed to get local description",
            ),
        }
    }
}

} // verus!
