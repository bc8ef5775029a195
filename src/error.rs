use vstd::prelude::*;

verus! {

/// A failure of the transport that carries a request to the node.
#[derive(Clone, Debug, PartialEq, Eq)]
pub struct TransportError {
    pub message: String,
}

/// The kinds of failure that a caller can act on.
#[derive(Clone, Copy, Debug, PartialEq, Eq, Structural)]
pub enum ErrorKind {
    Validation,
    Encoding,
    Transport,
    Decode,
    ChainRejected,
    Signing,
}

/// Errors of the transaction pipeline and the query dispatcher.
#[derive(Clone, Debug, PartialEq, Eq)]
pub enum ChainError {
    /// A coin was built with an empty denomination.
    EmptyDenom,
    /// A wire amount is not a non-negative integer that fits the magnitude.
    MalformedAmount,
    /// A value could not be marshaled to its wire form.
    Encoding,
    /// The transport could not complete the round trip.
    Transport(TransportError),
    /// Response bytes do not unmarshal into the expected type.
    Decode,
    /// The node executed the transaction and rejected it.
    ChainRejected { code: u32, log: String },
    /// The signing key did not produce a signature.
    Signing,
}

/// Errors of the bank module.
#[derive(Clone, Debug, PartialEq, Eq)]
pub enum BankError {
    /// No coins to send, or a coin of zero magnitude.
    EmptyAmount,
    Chain(ChainError),
}

pub open spec fn chain_error_kind(e: ChainError) -> ErrorKind {
    match e {
        ChainError::EmptyDenom => ErrorKind::Validation,
        ChainError::MalformedAmount => ErrorKind::Decode,
        ChainError::Encoding => ErrorKind::Encoding,
        ChainError::Transport(_) => ErrorKind::Transport,
        ChainError::Decode => ErrorKind::Decode,
        ChainError::ChainRejected { .. } => ErrorKind::ChainRejected,
        ChainError::Signing => ErrorKind::Signing,
    }
}

pub open spec fn bank_error_kind(e: BankError) -> ErrorKind {
    match e {
        BankError::EmptyAmount => ErrorKind::Validation,
        BankError::Chain(c) => chain_error_kind(c),
    }
}

impl ErrorKind {
    /// Only a transport failure may be retried as it stands.
    pub fn is_retryable(&self) -> (r: bool)
        ensures
            r == (*self == ErrorKind::Transport),
    {
        match self {
            ErrorKind::Transport => true,
            _ => false,
        }
    }
}

impl ChainError {
    pub fn kind(&self) -> (r: ErrorKind)
        ensures
            r == chain_error_kind(*self),
    {
        match self {
            ChainError::EmptyDenom => ErrorKind::Validation,
            ChainError::MalformedAmount => ErrorKind::Decode,
            ChainError::Encoding => ErrorKind::Encoding,
            ChainError::Transport(_) => ErrorKind::Transport,
            ChainError::Decode => ErrorKind::Decode,
            ChainError::ChainRejected { .. } => ErrorKind::ChainRejected,
            ChainError::Signing => ErrorKind::Signing,
        }
    }
}

impl BankError {
    pub fn kind(&self) -> (r: ErrorKind)
        ensures
            r == bank_error_kind(*self),
    {
        match self {
            BankError::EmptyAmount => ErrorKind::Validation,
            BankError::Chain(c) => c.kind(),
        }
    }
}

} // verus!
