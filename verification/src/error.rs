//! The errors that the node distinguishes.

use vstd::prelude::*;
use vstd::string::*;
use crate::text::{decimal_text, push_decimal};

verus! {

/// Why an operation of the node failed.
#[derive(Clone, Debug, PartialEq, Eq)]
pub enum Error {
    /// A frame is not valid UTF-8.
    InvalidUtf8,
    /// A frame has too few tokens to name a command and its target.
    TooFewTokens,
    /// The keyword of a request is not a known command.
    UnknownCommand,
    /// A frame has another number of tokens than its command takes. The
    /// error names the first token of the frame and the number that was
    /// expected.
    WrongArity { command: String, expected: usize },
    /// A virtual node id is not a decimal `u8`.
    BadVirtualNodeId,
    /// A virtual node id names no virtual node of this process.
    VirtualNodeOutOfRange,
    /// A key is not a decimal integer.
    BadKey,
    /// A location has fewer than two or more than three fields.
    BadLocationFields,
    /// The port of a location is not a decimal `u16`.
    BadPort,
    /// The virtual node id of a location is not a decimal `u8`.
    BadLocationVirtualNode,
    /// A response frame does not begin with `RES`.
    NotAResponse,
    /// The keyword of a response is not a known response.
    UnknownResponse,
    /// A pointer that an operation needs is absent.
    MissingState,
    /// An index is past the end of a table.
    IndexOverflow,
    /// A peer answered with a response of another kind than the request.
    UnexpectedResponse,
    /// The buffer size of the configuration is zero.
    ZeroBufferSize,
    /// The identifier width of the configuration is under eight bits.
    IdBitsTooSmall,
    /// The configuration asks for no virtual node.
    ZeroVirtualNodes,
    /// The configuration asks for more than 32 virtual nodes.
    TooManyVirtualNodes,
    /// No host was given and none could be found on the local interfaces.
    NoLocalIp,
    /// The host is not an IP address.
    BadHost,
    /// The operating system gave no seed for a random number generator.
    NoEntropy,
}

/// What an `Error` holds, as mathematical values.
pub enum ErrorView {
    InvalidUtf8,
    TooFewTokens,
    UnknownCommand,
    WrongArity { command: Seq<char>, expected: usize },
    BadVirtualNodeId,
    VirtualNodeOutOfRange,
    BadKey,
    BadLocationFields,
    BadPort,
    BadLocationVirtualNode,
    NotAResponse,
    UnknownResponse,
    MissingState,
    IndexOverflow,
    UnexpectedResponse,
    ZeroBufferSize,
    IdBitsTooSmall,
    ZeroVirtualNodes,
    TooManyVirtualNodes,
    NoLocalIp,
    BadHost,
    NoEntropy,
}

impl View for Error {
    type V = ErrorView;

    open spec fn view(&self) -> ErrorView {
        match *self {
            Error::InvalidUtf8 => ErrorView::InvalidUtf8,
            Error::TooFewTokens => ErrorView::TooFewTokens,
            Error::UnknownCommand => ErrorView::UnknownCommand,
            Error::WrongArity { command, expected } => ErrorView::WrongArity {
                command: command@,
                expected,
            },
            Error::BadVirtualNodeId => ErrorView::BadVirtualNodeId,
            Error::VirtualNodeOutOfRange => ErrorView::VirtualNodeOutOfRange,
            Error::BadKey => ErrorView::BadKey,
            Error::BadLocationFields => ErrorView::BadLocationFields,
            Error::BadPort => ErrorView::BadPort,
            Error::BadLocationVirtualNode => ErrorView::BadLocationVirtualNode,
            Error::NotAResponse => ErrorView::NotAResponse,
            Error::UnknownResponse => ErrorView::UnknownResponse,
            Error::MissingState => ErrorView::MissingState,
            Error::IndexOverflow => ErrorView::IndexOverflow,
            Error::UnexpectedResponse => ErrorView::UnexpectedResponse,
            Error::ZeroBufferSize => ErrorView::ZeroBufferSize,
            Error::IdBitsTooSmall => ErrorView::IdBitsTooSmall,
            Error::ZeroVirtualNodes => ErrorView::ZeroVirtualNodes,
            Error::TooManyVirtualNodes => ErrorView::TooManyVirtualNodes,
            Error::NoLocalIp => ErrorView::NoLocalIp,
            Error::BadHost => ErrorView::BadHost,
            Error::NoEntropy => ErrorView::NoEntropy,
        }
    }
}

/// The view of a result that may hold an error.
pub open spec fn failure<T>(r: Result<T, Error>) -> Result<T, ErrorView> {
    match r {
        Ok(value) => Ok(value),
        Err(e) => Err(e@),
    }
}

impl ErrorView {
    /// The sentence that tells a person what went wrong.
    pub open spec fn sentence(self) -> Seq<char> {
        match self {
            ErrorView::InvalidUtf8 => "Invalid frame. Not valid UTF-8."@,
            ErrorView::TooFewTokens => "Invalid command. More than one parameter required."@,
            ErrorView::UnknownCommand => "Invalid command. Unrecognized command."@,
            ErrorView::WrongArity { command, expected } => "Invalid command. "@ + command
                + " command takes "@ + decimal_text(expected as nat) + " parameters."@,
            ErrorView::BadVirtualNodeId => "Invalid command. Failed to parse virtual node id."@,
            ErrorView::VirtualNodeOutOfRange => "Invalid command. Virtual node number too large."@,
            ErrorView::BadKey => "Invalid command. Failed to parse identifier."@,
            ErrorView::BadLocationFields => "Invalid number of params for making a location."@,
            ErrorView::BadPort => "Invalid location. Failed to parse port."@,
            ErrorView::BadLocationVirtualNode => "Invalid location. Failed to parse virtual node id."@,
            ErrorView::NotAResponse => "Invalid response. The first string is not \"RES\"."@,
            ErrorView::UnknownResponse => "Invalid response. Unrecognized response type."@,
            ErrorView::MissingState => "None error encountered while trying to get something from Option."@,
            ErrorView::IndexOverflow => "Error retrieving finger. Index overflow."@,
            ErrorView::UnexpectedResponse => "Error receiving response. Got unexpected response type."@,
            ErrorView::ZeroBufferSize => "Input buffer size cannot be 0."@,
            ErrorView::IdBitsTooSmall => "Identifier bits cannot be smaller than 8."@,
            ErrorView::ZeroVirtualNodes => "Virtual node number cannot be 0."@,
            ErrorView::TooManyVirtualNodes => "Virtual node number cannot be larger than 32."@,
            ErrorView::NoLocalIp => "Cannot parse local IP"@,
            ErrorView::BadHost => "Host is not an IP address."@,
            ErrorView::NoEntropy => "Cannot seed the random number generator."@,
        }
    }
}

/// The sentence of an error that holds nothing but its kind.
fn plain_sentence(text: &'static str) -> (sentence: String)
    ensures
        sentence@ == text@,
{
    String::from_str(text)
}

impl Error {
    /// The sentence that tells a person what went wrong.
    pub fn message(&self) -> (text: String)
        ensures
            text@ == self@.sentence(),
    {
        match self {
            Error::InvalidUtf8 => plain_sentence("Invalid frame. Not valid UTF-8."),
            Error::TooFewTokens => plain_sentence("Invalid command. More than one parameter required."),
            Error::UnknownCommand => plain_sentence("Invalid command. Unrecognized command."),
            Error::WrongArity { command, expected } => {
                let mut text = String::from_str("Invalid command. ");
                text.append(command.as_str());
                text.append(" command takes ");
                push_decimal(&mut text, *expected as u64);
                text.append(" parameters.");
                text
            },
            Error::BadVirtualNodeId => plain_sentence("Invalid command. Failed to parse virtual node id."),
            Error::VirtualNodeOutOfRange => plain_sentence("Invalid command. Virtual node number too large."),
            Error::BadKey => plain_sentence("Invalid command. Failed to parse identifier."),
            Error::BadLocationFields => plain_sentence("Invalid number of params for making a location."),
            Error::BadPort => plain_sentence("Invalid location. Failed to parse port."),
            Error::BadLocationVirtualNode => plain_sentence("Invalid location. Failed to parse virtual node id."),
            Error::NotAResponse => plain_sentence("Invalid response. The first string is not \"RES\"."),
            Error::UnknownResponse => plain_sentence("Invalid response. Unrecognized response type."),
            Error::MissingState => plain_sentence("None error encountered while trying to get something from Option."),
            Error::IndexOverflow => plain_sentence("Error retrieving finger. Index overflow."),
            Error::UnexpectedResponse => plain_sentence("Error receiving response. Got unexpected response type."),
            Error::ZeroBufferSize => plain_sentence("Input buffer size cannot be 0."),
            Error::IdBitsTooSmall => plain_sentence("Identifier bits cannot be smaller than 8."),
            Error::ZeroVirtualNodes => plain_sentence("Virtual node number cannot be 0."),
            Error::TooManyVirtualNodes => plain_sentence("Virtual node number cannot be larger than 32."),
            Error::NoLocalIp => plain_sentence("Cannot parse local IP"),
            Error::BadHost => plain_sentence("Host is not an IP address."),
            Error::NoEntropy => plain_sentence("Cannot seed the random number generator."),
        }
    }
}

} // verus!
