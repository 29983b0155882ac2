//! What can go wrong when a logger is made, installed or used.

use vstd::prelude::*;

verus! {

/// The three failures of the adapter.
#[derive(Clone, Copy, Debug, PartialEq, Eq, Structural)]
pub enum Error {
    /// The tag holds a null byte.
    InvalidTag,
    /// The process already has a global logger.
    AlreadyInitialized,
    /// The rendered message holds a null byte.
    Encoding,
}

/// `log::SetLoggerError`, the facade's refusal to register a logger. It
/// holds no information and nothing is claimed of it.
#[verifier::external_type_specification]
#[verifier::external_body]
pub struct ExSetLoggerError(log::SetLoggerError);

/// Reads the facade's answer to a request for installation. The facade
/// accepts the first logger of a process and refuses every later one, so a
/// refusal means that the process already has its logger.
pub fn install_result(answer: Result<(), log::SetLoggerError>) -> (result: Result<(), Error>)
    ensures
        result == (match answer {
            Ok(()) => Ok::<(), Error>(()),
            Err(_) => Err::<(), Error>(Error::AlreadyInitialized),
        }),
{
    match answer {
        Ok(()) => Ok(()),
        Err(_) => Err(Error::AlreadyInitialized),
    }
}

} // verus!
