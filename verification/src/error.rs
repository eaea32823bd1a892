//! What can go wrong between this client and a chain.
use crate::receipt::{Receipt, ReceiptView};
use vstd::prelude::*;

verus! {

/// Every way in which an operation of the client fails.
///
/// Only an explicit rejection by the application is a `CosmwasmError`. A failure of the network, a
/// response that cannot be decoded and an expired deadline each have a variant of their own, so
/// that none of them passes for a rejection.
#[derive(Clone, Debug)]
pub enum ProcessError {
    /// The configuration cannot be used.
    Config(String),
    /// The signing key cannot be derived.
    Signing(String),
    /// The transport, or the protocol spoken over it, failed.
    Rpc(String),
    /// The transaction was handed to the node and nothing is known of what became of it. It must
    /// not be submitted again automatically.
    Broadcast { hash: String, message: String },
    /// The node answered with something that the protocol does not allow.
    Protocol(String),
    /// The application refused a query.
    Query { code: u32, codespace: String, log: String },
    /// The application refused a transaction.
    CosmwasmError(CosmwasmError),
    /// The deadline passed. Where a transaction had been signed its hash is kept: its outcome may
    /// be unknown, and it must not be submitted again automatically.
    Timeout { hash: Option<String> },
    /// The contract registry does not hold what was asked of it.
    Registry(String),
    /// A file could not be read.
    Io(String),
    /// A value could not be converted to or from JSON.
    Json(String),
}

/// A rejection by the application.
#[derive(Clone, Debug)]
pub enum CosmwasmError {
    /// A rejected transaction.
    TxError(TxError),
}

/// At which point the application rejected a transaction.
#[derive(Clone, Debug)]
pub enum TxError {
    /// The simulation that precedes signing was rejected, so nothing was submitted.
    Simulation { code: u32, codespace: String, log: String },
    /// The submitted transaction was not admitted to a block.
    CheckTx { code: u32, codespace: String, log: String, hash: String },
    /// The transaction was committed and its execution failed.
    Execution {
        code: u32,
        codespace: String,
        log: String,
        hash: String,
        /// The committed data, events and gas of the rejected execution.
        response: Box<Receipt>,
    },
}

/// What a [`TxError`] says.
pub enum TxErrorView {
    Simulation { code: u32, codespace: Seq<char>, log: Seq<char> },
    CheckTx { code: u32, codespace: Seq<char>, log: Seq<char>, hash: Seq<char> },
    Execution {
        code: u32,
        codespace: Seq<char>,
        log: Seq<char>,
        hash: Seq<char>,
        response: ReceiptView,
    },
}

/// What a [`ProcessError`] says.
pub enum ErrorView {
    Config(Seq<char>),
    Signing(Seq<char>),
    Rpc(Seq<char>),
    Broadcast { hash: Seq<char>, message: Seq<char> },
    Protocol(Seq<char>),
    Query { code: u32, codespace: Seq<char>, log: Seq<char> },
    Rejected(TxErrorView),
    Timeout { hash: Option<Seq<char>> },
    Registry(Seq<char>),
    Io(Seq<char>),
    Json(Seq<char>),
}

impl View for TxError {
    type V = TxErrorView;

    open spec fn view(&self) -> TxErrorView {
        match self {
            TxError::Simulation { code, codespace, log } => TxErrorView::Simulation {
                code: *code,
                codespace: codespace@,
                log: log@,
            },
            TxError::CheckTx { code, codespace, log, hash } => TxErrorView::CheckTx {
                code: *code,
                codespace: codespace@,
                log: log@,
                hash: hash@,
            },
            TxError::Execution { code, codespace, log, hash, response } => TxErrorView::Execution {
                code: *code,
                codespace: codespace@,
                log: log@,
                hash: hash@,
                response: response@,
            },
        }
    }
}

impl View for ProcessError {
    type V = ErrorView;

    open spec fn view(&self) -> ErrorView {
        match self {
            ProcessError::Config(text) => ErrorView::Config(text@),
            ProcessError::Signing(text) => ErrorView::Signing(text@),
            ProcessError::Rpc(text) => ErrorView::Rpc(text@),
            ProcessError::Broadcast { hash, message } => ErrorView::Broadcast {
                hash: hash@,
                message: message@,
            },
            ProcessError::Protocol(text) => ErrorView::Protocol(text@),
            ProcessError::Query { code, codespace, log } => ErrorView::Query {
                code: *code,
                codespace: codespace@,
                log: log@,
            },
            ProcessError::CosmwasmError(CosmwasmError::TxError(error)) => ErrorView::Rejected(
                error@,
            ),
            ProcessError::Timeout { hash } => ErrorView::Timeout { hash: optional_text(*hash) },
            ProcessError::Registry(text) => ErrorView::Registry(text@),
            ProcessError::Io(text) => ErrorView::Io(text@),
            ProcessError::Json(text) => ErrorView::Json(text@),
        }
    }
}

/// The characters of an optional text.
pub open spec fn optional_text(text: Option<String>) -> Option<Seq<char>> {
    match text {
        Some(text) => Some(text@),
        None => None,
    }
}

/// What the outcome of an operation says: the view of its value or that of its error.
pub open spec fn outcome<T: View>(result: Result<T, ProcessError>) -> Result<T::V, ErrorView> {
    match result {
        Ok(value) => Ok(value@),
        Err(error) => Err(error@),
    }
}

/// What the outcome of an operation says whose value is its own view.
pub open spec fn plain_outcome<T>(result: Result<T, ProcessError>) -> Result<T, ErrorView> {
    match result {
        Ok(value) => Ok(value),
        Err(error) => Err(error@),
    }
}

/// What an outcome says that describes its error by a text.
pub open spec fn text_outcome<T: View>(result: Result<T, String>) -> Result<T::V, Seq<char>> {
    match result {
        Ok(value) => Ok(value@),
        Err(text) => Err(text@),
    }
}

/// The error for a response that the protocol does not allow.
pub fn protocol(text: &str) -> (error: ProcessError)
    ensures
        error@ == ErrorView::Protocol(text@),
{
    ProcessError::Protocol(text.to_owned())
}

impl From<TxError> for ProcessError {
    fn from(error: TxError) -> (wrapped: ProcessError) {
        ProcessError::CosmwasmError(CosmwasmError::TxError(error))
    }
}

impl vstd::std_specs::convert::FromSpecImpl<TxError> for ProcessError {
    open spec fn obeys_from_spec() -> bool {
        true
    }

    open spec fn from_spec(error: TxError) -> ProcessError {
        ProcessError::CosmwasmError(CosmwasmError::TxError(error))
    }
}

/// An outcome is taken as it is: a value by what it says, an error by what it says, and neither
/// ever for the other.
pub proof fn outcomes_are_taken_as_they_are<T: View>(value: T, error: ProcessError, text: String)
    ensures
        outcome(Ok::<T, ProcessError>(value)) == Ok::<T::V, ErrorView>(value@),
        outcome(Err::<T, ProcessError>(error)) == Err::<T::V, ErrorView>(error@),
        plain_outcome(Ok::<T, ProcessError>(value)) == Ok::<T, ErrorView>(value),
        plain_outcome(Err::<T, ProcessError>(error)) == Err::<T, ErrorView>(error@),
        text_outcome(Ok::<T, String>(value)) == Ok::<T::V, Seq<char>>(value@),
        text_outcome(Err::<T, String>(text)) == Err::<T::V, Seq<char>>(text@),
        optional_text(Some(text)) == Some(text@),
        optional_text(None) is None,
{
}

/// Every error says all that it holds.
pub proof fn errors_say_what_they_hold(
    text: String,
    log: String,
    codespace: String,
    code: u32,
    hash: Option<String>,
    response: Receipt,
)
    ensures
        ProcessError::Config(text)@ == ErrorView::Config(text@),
        ProcessError::Signing(text)@ == ErrorView::Signing(text@),
        ProcessError::Rpc(text)@ == ErrorView::Rpc(text@),
        ProcessError::Protocol(text)@ == ErrorView::Protocol(text@),
        ProcessError::Registry(text)@ == ErrorView::Registry(text@),
        ProcessError::Io(text)@ == ErrorView::Io(text@),
        ProcessError::Json(text)@ == ErrorView::Json(text@),
        (ProcessError::Broadcast { hash: text, message: log })@ == (ErrorView::Broadcast {
            hash: text@,
            message: log@,
        }),
        (ProcessError::Query { code, codespace, log })@ == (ErrorView::Query {
            code,
            codespace: codespace@,
            log: log@,
        }),
        (ProcessError::Timeout { hash: Some(text) })@ == (ErrorView::Timeout {
            hash: Some(text@),
        }),
        (ProcessError::Timeout { hash: None })@ == (ErrorView::Timeout { hash: None }),
        forall|error: TxError|
            #![trigger error@]
            ProcessError::CosmwasmError(CosmwasmError::TxError(error))@ == ErrorView::Rejected(
                error@,
            ),
        (TxError::Simulation { code, codespace, log })@ == (TxErrorView::Simulation {
            code,
            codespace: codespace@,
            log: log@,
        }),
        (TxError::CheckTx { code, codespace, log, hash: text })@ == (TxErrorView::CheckTx {
            code,
            codespace: codespace@,
            log: log@,
            hash: text@,
        }),
        (TxError::Execution { code, codespace, log, hash: text, response: Box::new(response) })@
            == (TxErrorView::Execution {
            code,
            codespace: codespace@,
            log: log@,
            hash: text@,
            response: response@,
        }),
{
}

} // verus!
