use vstd::prelude::*;

verus! {

/// Mathematical image of an [`Error`]: the same four-way tag over the
/// text's character sequence.
pub ghost enum ErrorView {
    Config(Seq<char>),
    Discovery(Seq<char>),
    Transport(Seq<char>),
    Protocol(Seq<char>),
}

/// The error container.
///
/// The taxonomy separates configuration mistakes, named-instance discovery
/// failures, transport-level failures (DNS, connect, socket I/O, transport
/// hook), and protocol-level failures (handshake or query). A routing signal
/// from the server is not an error by itself: the connector follows it once,
/// and only a second routing signal in a row is turned into `Protocol`.
#[derive(Debug)]
pub enum Error {
    /// Malformed descriptor input; fatal, never retried.
    Config(String),
    /// Named-instance resolution failed.
    Discovery(String),
    /// DNS, connect or other I/O failure, including a failed transport hook.
    Transport(String),
    /// Handshake or query failure other than a first routing signal.
    Protocol(String),
}

impl View for Error {
    type V = ErrorView;

    open spec fn view(&self) -> ErrorView {
        match self {
            Error::Config(m) => ErrorView::Config(m@),
            Error::Discovery(m) => ErrorView::Discovery(m@),
            Error::Transport(m) => ErrorView::Transport(m@),
            Error::Protocol(m) => ErrorView::Protocol(m@),
        }
    }
}

impl Error {
    /// The human-readable text carried by the error, whichever variant it is.
    pub fn message(&self) -> (r: &String)
        ensures
            r@ == self.message_spec(),
    {
        match self {
            Error::Config(m) => m,
            Error::Discovery(m) => m,
            Error::Transport(m) => m,
            Error::Protocol(m) => m,
        }
    }

    /// The text carried by the error.
    pub open spec fn message_spec(&self) -> Seq<char> {
        match self {
            Error::Config(m) => m@,
            Error::Discovery(m) => m@,
            Error::Transport(m) => m@,
            Error::Protocol(m) => m@,
        }
    }
}

} // verus!
