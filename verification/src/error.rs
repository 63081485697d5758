//! The errors of the SDK.

use vstd::prelude::*;

verus! {

/// Why an operation of the SDK failed.
#[derive(Debug, Clone)]
pub enum PrivchatSDKError {
    /// The local database refused an operation.
    Database(String),
    /// A file operation failed.
    IO(String),
    /// The key-value store refused an operation.
    KvStore(String),
    /// A value could not be encoded or decoded.
    Serialization(String),
    /// The operation is not allowed in the present state.
    InvalidOperation(String),
    /// An argument is not acceptable.
    InvalidInput(String),
    /// The configuration is not usable.
    Config(String),
    /// The server refused the user.
    Auth(String),
    /// The connection could not be made or broke.
    Transport(String),
    /// The blocking runtime is not there.
    Runtime(String),
    /// The SDK was not initialized, or was shut down.
    NotInitialized(String),
    /// The SDK is shutting down.
    ShuttingDown(String),
    /// JSON text could not be read or written.
    JsonError(String),
    /// Any other failure.
    Other(String),
    /// There is no connection or no logged-in user.
    NotConnected,
}

/// What an error says.
pub enum ErrorModel {
    Database(Seq<char>),
    IO(Seq<char>),
    KvStore(Seq<char>),
    Serialization(Seq<char>),
    InvalidOperation(Seq<char>),
    InvalidInput(Seq<char>),
    Config(Seq<char>),
    Auth(Seq<char>),
    Transport(Seq<char>),
    Runtime(Seq<char>),
    NotInitialized(Seq<char>),
    ShuttingDown(Seq<char>),
    JsonError(Seq<char>),
    Other(Seq<char>),
    NotConnected,
}

impl View for PrivchatSDKError {
    type V = ErrorModel;

    open spec fn view(&self) -> ErrorModel {
        match *self {
            PrivchatSDKError::Database(m) => ErrorModel::Database(m@),
            PrivchatSDKError::IO(m) => ErrorModel::IO(m@),
            PrivchatSDKError::KvStore(m) => ErrorModel::KvStore(m@),
            PrivchatSDKError::Serialization(m) => ErrorModel::Serialization(m@),
            PrivchatSDKError::InvalidOperation(m) => ErrorModel::InvalidOperation(m@),
            PrivchatSDKError::InvalidInput(m) => ErrorModel::InvalidInput(m@),
            PrivchatSDKError::Config(m) => ErrorModel::Config(m@),
            PrivchatSDKError::Auth(m) => ErrorModel::Auth(m@),
            PrivchatSDKError::Transport(m) => ErrorModel::Transport(m@),
            PrivchatSDKError::Runtime(m) => ErrorModel::Runtime(m@),
            PrivchatSDKError::NotInitialized(m) => ErrorModel::NotInitialized(m@),
            PrivchatSDKError::ShuttingDown(m) => ErrorModel::ShuttingDown(m@),
            PrivchatSDKError::JsonError(m) => ErrorModel::JsonError(m@),
            PrivchatSDKError::Other(m) => ErrorModel::Other(m@),
            PrivchatSDKError::NotConnected => ErrorModel::NotConnected,
        }
    }
}

} // verus!
