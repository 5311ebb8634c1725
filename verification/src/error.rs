use vstd::prelude::*;
use vstd::string::StringExecFns;

verus! {

/// The ways in which a valuation can fail.
#[derive(Clone, Copy, Debug, PartialEq, Eq, Structural)]
pub enum ErrorKind {
    /// The configuration lacks something: a node for a chain, an account a fund refers to.
    Configuration,
    /// A transport to a node or to a web service failed.
    Network,
    /// A smart contract call failed or answered in an unexpected shape.
    Contract,
    /// A number or a symbol in a response could not be read.
    Parse,
    /// A session was rejected even after a fresh login.
    Auth,
    /// A value broke a rule that the computation relies on, or left the range of `Decimal`.
    InvariantViolation,
    /// A failure that was reported with a message only.
    Unclassified,
}

/// What a failure says: its class and its message.
pub struct Failure {
    pub kind: ErrorKind,
    pub message: Seq<char>,
}

/// The failure of a value that left the range of the numbers in use; `what`
/// names the value.
pub open spec fn out_of_range_failure(what: Seq<char>) -> Failure {
    Failure { kind: ErrorKind::InvariantViolation, message: "Value out of range: "@ + what }
}

/// The failure of a number that could not be read; `text` is what stood in
/// its place.
pub open spec fn parse_failure(text: Seq<char>) -> Failure {
    Failure { kind: ErrorKind::Parse, message: "Error parsing string: "@ + text }
}

/// A failure of a valuation, with a message for the operator.
pub struct ApiError {
    kind: ErrorKind,
    error_message: String,
}

impl Clone for ApiError {
    fn clone(&self) -> (copy: ApiError)
        ensures
            copy.kind() == self.kind(),
            copy.message() == self.message(),
    {
        ApiError { kind: self.kind, error_message: self.error_message.clone() }
    }
}

impl ApiError {
    /// The text of the failure.
    pub closed spec fn message(&self) -> Seq<char> {
        self.error_message@
    }

    /// The class of the failure.
    pub closed spec fn kind(&self) -> ErrorKind {
        self.kind
    }

    /// What the failure says.
    pub open spec fn failure(&self) -> Failure {
        Failure { kind: self.kind(), message: self.message() }
    }

    /// An unclassified error that carries a copy of `error_message`.
    pub fn new(error_message: &String) -> (e: ApiError)
        ensures
            e.message() == error_message@,
            e.kind() == ErrorKind::Unclassified,
    {
        ApiError { kind: ErrorKind::Unclassified, error_message: error_message.clone() }
    }

    /// An error of the given class with the given message.
    pub fn with_kind(kind: ErrorKind, error_message: String) -> (e: ApiError)
        ensures
            e.message() == error_message@,
            e.kind() == kind,
    {
        ApiError { kind, error_message }
    }

    /// An error of the given class whose message is `prefix` followed by `detail`.
    pub fn describe(kind: ErrorKind, prefix: &str, detail: &str) -> (e: ApiError)
        ensures
            e.message() == prefix@ + detail@,
            e.kind() == kind,
    {
        let mut text = String::from_str(prefix);
        text.append(detail);
        ApiError { kind, error_message: text }
    }

    /// The class of this failure.
    pub fn get_kind(&self) -> (k: ErrorKind)
        ensures
            k == self.kind(),
    {
        self.kind
    }

    /// A copy of the message.
    pub fn get_message(&self) -> (m: String)
        ensures
            m@ == self.message(),
    {
        self.error_message.clone()
    }

    /// A value that left the range of the numbers in use; `what` names it.
    pub fn out_of_range(what: &str) -> (e: ApiError)
        ensures
            e.message() == "Value out of range: "@ + what@,
            e.kind() == ErrorKind::InvariantViolation,
    {
        ApiError::describe(ErrorKind::InvariantViolation, "Value out of range: ", what)
    }

    /// A failed call to a blockchain node; `detail` is the transport's own description.
    pub fn from_rpc_failure(detail: &str) -> (e: ApiError)
        ensures
            e.message() == detail@,
            e.kind() == ErrorKind::Network,
    {
        ApiError { kind: ErrorKind::Network, error_message: String::from_str(detail) }
    }

    /// A failed smart contract call; `detail` is the contract layer's own description.
    pub fn from_contract_failure(detail: &str) -> (e: ApiError)
        ensures
            e.message() == "Smart contract error: "@ + detail@,
            e.kind() == ErrorKind::Contract,
    {
        ApiError::describe(ErrorKind::Contract, "Smart contract error: ", detail)
    }

    /// A failed web request; `detail` is the client's own description.
    pub fn from_http_failure(detail: &str) -> (e: ApiError)
        ensures
            e.message() == "HTTP request error: "@ + detail@,
            e.kind() == ErrorKind::Network,
    {
        ApiError::describe(ErrorKind::Network, "HTTP request error: ", detail)
    }

    /// A number that could not be read; `detail` describes what was wrong with it.
    pub fn from_parse_failure(detail: &str) -> (e: ApiError)
        ensures
            e.message() == "Error parsing string: "@ + detail@,
            e.kind() == ErrorKind::Parse,
    {
        ApiError::describe(ErrorKind::Parse, "Error parsing string: ", detail)
    }
}

} // verus!
