//! Allocation errors: their kinds, messages and text rendering.

use std::alloc::LayoutError;
use vstd::prelude::*;
use vstd::string::to_string_from_display_ensures;

verus! {

/// Why an allocation request failed.
#[derive(Debug, Clone, Copy, PartialEq, Eq, Hash, Structural)]
pub enum AllocErrorType {
    /// The requested size and alignment do not make a valid layout.
    LayoutError,
    /// The allocator declined the request (it returned a null address).
    FailedAllocation,
}

/// The fixed text that names each kind of failure.
pub open spec fn kind_text(kind: AllocErrorType) -> Seq<char> {
    match kind {
        AllocErrorType::LayoutError => "layouts error"@,
        AllocErrorType::FailedAllocation => "failed allocation"@,
    }
}

impl AllocErrorType {
    /// The text that names this kind of failure.
    pub fn to_string(&self) -> (r: String)
        ensures
            r@ == kind_text(*self),
    {
        match self {
            AllocErrorType::LayoutError => String::from_str("layouts error"),
            AllocErrorType::FailedAllocation => String::from_str("failed allocation"),
        }
    }
}

/// An allocation failure: its kind and a message that says what was asked.
///
/// Immutable once built; the accessors hand out copies.
#[derive(Debug, Clone, Hash)]
pub struct AllocError {
    error_type: AllocErrorType,
    message: String,
}

/// The text of an error with the given kind and message.
pub open spec fn render(kind: AllocErrorType, message: Seq<char>) -> Seq<char> {
    "error caused by "@ + kind_text(kind) + ", reason: "@ + message
}

impl View for AllocError {
    /// The error's kind and the characters of its message.
    type V = (AllocErrorType, Seq<char>);

    closed spec fn view(&self) -> (AllocErrorType, Seq<char>) {
        (self.error_type, self.message@)
    }
}

impl AllocError {
    /// Builds an error of the given kind that carries a copy of `message`.
    pub fn new(message: &str, error_type: AllocErrorType) -> (r: AllocError)
        ensures
            r@ == (error_type, message@),
    {
        AllocError { error_type, message: message.to_owned() }
    }

    /// A copy of the error's message.
    pub fn message(&self) -> (r: String)
        ensures
            r@ == self@.1,
    {
        self.message.clone()
    }

    /// The error's kind.
    pub fn error_type(&self) -> (r: AllocErrorType)
        ensures
            r == self@.0,
    {
        self.error_type
    }

    /// The error as text: `error caused by <kind text>, reason: <message>`.
    pub fn to_string(&self) -> (r: String)
        ensures
            r@ == render(self@.0, self@.1),
    {
        let r = String::from_str("error caused by ");
        let kind = self.error_type.to_string();
        let r = r.concat(kind.as_str());
        let r = r.concat(", reason: ");
        r.concat(self.message.as_str())
    }
}

/// Reading back the kind and the message of an error gives exactly the kind
/// and the message that it was built from.
pub proof fn lemma_construct_round_trip(
    message: &str,
    error_type: AllocErrorType,
    error: AllocError,
    kind: AllocErrorType,
    text: String,
)
    requires
        call_ensures(AllocError::new, (message, error_type), error),
        call_ensures(AllocError::error_type, (&error,), kind),
        call_ensures(AllocError::message, (&error,), text),
    ensures
        kind == error_type,
        text@ == message@,
{
}

impl From<LayoutError> for AllocError {
    /// An error of kind `LayoutError` whose message is the text of `error`.
    fn from(error: LayoutError) -> (r: AllocError)
        ensures
            r@.0 == AllocErrorType::LayoutError,
            exists|text: String|
                #![trigger to_string_from_display_ensures::<LayoutError>(&error, text)]
                to_string_from_display_ensures::<LayoutError>(&error, text) && text@ == r@.1,
    {
        AllocError { error_type: AllocErrorType::LayoutError, message: error.to_string() }
    }
}

// What `from` returns is stated on `from` itself: its message is std's text
// for the cause, which no spec value of a `String` names.
impl vstd::std_specs::convert::FromSpecImpl<LayoutError> for AllocError {
    open spec fn obeys_from_spec() -> bool {
        false
    }

    open spec fn from_spec(error: LayoutError) -> AllocError {
        arbitrary()
    }
}

} // verus!
