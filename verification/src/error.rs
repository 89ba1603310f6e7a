//! The error taxonomy of the client.
//!
//! Every failure a caller can observe is one of these variants.  The
//! rendered message of each variant is fixed here, so that the front end
//! only prefixes it with `Error: ` before printing.

use vstd::prelude::*;

verus! {

/// One error kind per way an exchange with the DeepL service can fail.
#[derive(Debug)]
pub enum Error {
    /// The provided API key was refused by the DeepL server.
    Authorization,
    /// The server rejected a request; the payload carries the server's own
    /// description of the problem.
    Server(String),
    /// The response body did not match the expected shape for the
    /// operation, although the HTTP layer reported success.
    Deserialization,
    /// The requested resource was not found.
    NotFound,
    /// The request could not be completed at all; the payload carries the
    /// transport layer's description.
    Transport(String),
    /// A local file could not be read or written; the payload carries the
    /// operating system's description.
    Io(String),
}

/// The message text of a server-reported error, as rendered by
/// [`Error::message`].
pub open spec fn server_message_text(m: Seq<char>) -> Seq<char> {
    "An error occurred while communicating with the DeepL server: '"@ + m + "'."@
}

/// The full rendered message of an error, as a sequence of characters.
pub open spec fn message_text(e: Error) -> Seq<char> {
    match e {
        Error::Authorization => "Authorization failed, is your API key correct?"@,
        Error::Server(m) => server_message_text(m@),
        Error::Deserialization => "An error occurred while deserializing the response data."@,
        Error::NotFound => "The requested resource was not found."@,
        Error::Transport(m) => m@,
        Error::Io(m) => m@,
    }
}

impl Error {
    /// Renders the human-readable message for this error.
    pub fn message(&self) -> (r: String)
        ensures
            r@ == message_text(*self),
    {
        match self {
            Error::Authorization => String::from_str(
                "Authorization failed, is your API key correct?",
            ),
            Error::Server(m) => String::from_str(
                "An error occurred while communicating with the DeepL server: '",
            ).concat(m.as_str()).concat("'."),
            Error::Deserialization => String::from_str(
                "An error occurred while deserializing the response data.",
            ),
            Error::NotFound => String::from_str("The requested resource was not found."),
            Error::Transport(m) => m.clone(),
            Error::Io(m) => m.clone(),
        }
    }
}

} // verus!
