use vstd::prelude::*;

verus! {

/// `std::io::Error`, carried opaquely inside [`AppError::Io`].
#[verifier::external_type_specification]
#[verifier::external_body]
pub struct ExIoError(std::io::Error);

/// Errors of the application.
#[derive(Debug)]
pub enum AppError {
    /// A serial port could not be opened, read or found.
    Serial(String),
    /// An input/output operation failed.
    Io(std::io::Error),
    /// The configuration could not be located, parsed or written.
    Config(String),
    /// A command could not be handed to a serial worker.
    ChannelSend(String),
    /// Any other failure.
    Other(String),
}

} // verus!
