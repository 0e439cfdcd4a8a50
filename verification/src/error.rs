use vstd::prelude::*;
use vstd::string::StringExecFns;

verus! {

/// Errors reported by the ingester.
#[derive(Clone, Debug, PartialEq)]
pub enum IngesterError {
    ChangeLogEventMalformed,
    CompressedAssetEventMalformed,
    BatchInitNetworkingError,
    BatchInitIOError,
    StorageListenerError { msg: String },
    StorageWriteError(String),
    NotImplemented,
    DeserializationError(String),
    TaskManagerError(String),
    ConfigurationError { msg: String },
    RpcGetDataError(String),
    RpcDataUnsupportedFormat(String),
    SerializatonError(String),
    MessengerError(String),
    ParsingError(String),
}

/// The mathematical value of an [`IngesterError`]: the same variants, with text as `Seq<char>`.
pub enum ErrorView {
    ChangeLogEventMalformed,
    CompressedAssetEventMalformed,
    BatchInitNetworkingError,
    BatchInitIOError,
    StorageListenerError { msg: Seq<char> },
    StorageWriteError(Seq<char>),
    NotImplemented,
    DeserializationError(Seq<char>),
    TaskManagerError(Seq<char>),
    ConfigurationError { msg: Seq<char> },
    RpcGetDataError(Seq<char>),
    RpcDataUnsupportedFormat(Seq<char>),
    SerializatonError(Seq<char>),
    MessengerError(Seq<char>),
    ParsingError(Seq<char>),
}

impl View for IngesterError {
    type V = ErrorView;

    open spec fn view(&self) -> ErrorView {
        match self {
            IngesterError::ChangeLogEventMalformed => ErrorView::ChangeLogEventMalformed,
            IngesterError::CompressedAssetEventMalformed => ErrorView::CompressedAssetEventMalformed,
            IngesterError::BatchInitNetworkingError => ErrorView::BatchInitNetworkingError,
            IngesterError::BatchInitIOError => ErrorView::BatchInitIOError,
            IngesterError::StorageListenerError { msg } => ErrorView::StorageListenerError { msg: msg@ },
            IngesterError::StorageWriteError(s) => ErrorView::StorageWriteError(s@),
            IngesterError::NotImplemented => ErrorView::NotImplemented,
            IngesterError::DeserializationError(s) => ErrorView::DeserializationError(s@),
            IngesterError::TaskManagerError(s) => ErrorView::TaskManagerError(s@),
            IngesterError::ConfigurationError { msg } => ErrorView::ConfigurationError { msg: msg@ },
            IngesterError::RpcGetDataError(s) => ErrorView::RpcGetDataError(s@),
            IngesterError::RpcDataUnsupportedFormat(s) => ErrorView::RpcDataUnsupportedFormat(s@),
            IngesterError::SerializatonError(s) => ErrorView::SerializatonError(s@),
            IngesterError::MessengerError(s) => ErrorView::MessengerError(s@),
            IngesterError::ParsingError(s) => ErrorView::ParsingError(s@),
        }
    }
}

/// The human-readable message of an error.
pub open spec fn message_of(e: ErrorView) -> Seq<char> {
    match e {
        ErrorView::ChangeLogEventMalformed => "ChangeLog Event Malformed"@,
        ErrorView::CompressedAssetEventMalformed => "Compressed Asset Event Malformed"@,
        ErrorView::BatchInitNetworkingError => "Error downloading batch files"@,
        ErrorView::BatchInitIOError => "Error writing batch files"@,
        ErrorView::StorageListenerError { msg } => "Storage listener error: ("@ + msg + ")"@,
        ErrorView::StorageWriteError(s) => "Storage Write Error "@ + s,
        ErrorView::NotImplemented => "NotImplemented"@,
        ErrorView::DeserializationError(s) => "Deserialization Error "@ + s,
        ErrorView::TaskManagerError(s) => "Task Manager Error "@ + s,
        ErrorView::ConfigurationError { msg } => "Missing or invalid configuration: ("@ + msg + ")"@,
        ErrorView::RpcGetDataError(s) => "Error getting RPC data "@ + s,
        ErrorView::RpcDataUnsupportedFormat(s) => "RPC returned data in unsupported format "@ + s,
        ErrorView::SerializatonError(s) => "Data serializaton error "@ + s,
        ErrorView::MessengerError(s) => "Messenger error "@ + s,
        ErrorView::ParsingError(s) => "Blockbuster Parsing error "@ + s,
    }
}

fn prefixed(prefix: &str, s: &String) -> (r: String)
    ensures
        r@ == prefix@ + s@,
{
    String::from_str(prefix).concat(s.as_str())
}

impl IngesterError {
    /// The message this error displays.
    pub fn message(&self) -> (r: String)
        ensures
            r@ == message_of(self@),
    {
        match self {
            IngesterError::ChangeLogEventMalformed => String::from_str("ChangeLog Event Malformed"),
            IngesterError::CompressedAssetEventMalformed => String::from_str("Compressed Asset Event Malformed"),
            IngesterError::BatchInitNetworkingError => String::from_str("Error downloading batch files"),
            IngesterError::BatchInitIOError => String::from_str("Error writing batch files"),
            IngesterError::StorageListenerError { msg } => prefixed("Storage listener error: (", msg).concat(")"),
            IngesterError::StorageWriteError(s) => prefixed("Storage Write Error ", s),
            IngesterError::NotImplemented => String::from_str("NotImplemented"),
            IngesterError::DeserializationError(s) => prefixed("Deserialization Error ", s),
            IngesterError::TaskManagerError(s) => prefixed("Task Manager Error ", s),
            IngesterError::ConfigurationError { msg } => prefixed("Missing or invalid configuration: (", msg).concat(")"),
            IngesterError::RpcGetDataError(s) => prefixed("Error getting RPC data ", s),
            IngesterError::RpcDataUnsupportedFormat(s) => prefixed("RPC returned data in unsupported format ", s),
            IngesterError::SerializatonError(s) => prefixed("Data serializaton error ", s),
            IngesterError::MessengerError(s) => prefixed("Messenger error ", s),
            IngesterError::ParsingError(s) => prefixed("Blockbuster Parsing error ", s),
        }
    }
}

/// What Rust's `Debug` formatting prints for a string: the text in double quotes, with
/// quotes, backslashes and control characters escaped.
pub uninterp spec fn debug_text(s: Seq<char>) -> Seq<char>;

/// Formats `s` with `Debug`, as `format!("{:?}", s)` from std does. The result is named
/// [`debug_text`] of the text; nothing more is stated of it.
#[verifier::external_body]
fn debug_quoted(s: &str) -> (r: String)
    ensures
        r@ == debug_text(s@),
{
    format!("{:?}", s)
}

/// The error for a task the task manager refused, given the refusal's message already
/// quoted: that text after "Could not create task: ".
pub open spec fn task_manager_error(quoted: Seq<char>) -> ErrorView {
    ErrorView::TaskManagerError("Could not create task: "@ + quoted)
}

/// The error for a background task that could not be handed to the task manager: the
/// sender's message, `Debug`-quoted, after "Could not create task: ".
pub open spec fn task_send_error(text: Seq<char>) -> ErrorView {
    task_manager_error(debug_text(text))
}

impl IngesterError {
    /// The error for a refused task, from the refusal's message as already quoted.
    pub fn task_manager_failure(quoted: &String) -> (r: IngesterError)
        ensures
            r@ == task_manager_error(quoted@),
    {
        IngesterError::TaskManagerError(String::from_str("Could not create task: ").concat(quoted.as_str()))
    }

    /// The error for a task that could not be sent; `text` is the send error's message.
    pub fn task_send_failure(text: &String) -> (r: IngesterError)
        ensures
            r@ == task_send_error(text@),
    {
        let quoted = debug_quoted(text.as_str());
        IngesterError::task_manager_failure(&quoted)
    }
}

/// std's I/O error, carried through opaquely.
#[verifier::external_type_specification]
#[verifier::external_body]
pub struct ExIoError(std::io::Error);

impl From<std::io::Error> for IngesterError {
    /// Any I/O failure is a failure to write the batch files.
    fn from(err: std::io::Error) -> (r: IngesterError) {
        let _ = err;
        IngesterError::BatchInitIOError
    }
}

impl vstd::std_specs::convert::FromSpecImpl<std::io::Error> for IngesterError {
    open spec fn obeys_from_spec() -> bool {
        true
    }

    open spec fn from_spec(err: std::io::Error) -> IngesterError {
        IngesterError::BatchInitIOError
    }
}

} // verus!
