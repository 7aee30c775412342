//! The failures a dispatcher reports to its caller.

use vstd::prelude::*;

verus! {

/// A recoverable failure of one request. Both kinds carry a message for the
/// person in front of the screen; there are no error codes.
#[derive(Debug, Clone, PartialEq, Eq)]
pub enum DispatchError {
    /// The engine could not be instantiated for the resolved configuration.
    CapabilityConstructionFailure(String),
    /// The engine was instantiated, but the input could not be encoded or
    /// decoded.
    OperationFailure(String),
}

/// A `DispatchError` with its message as a sequence of characters.
pub enum FailureView {
    CapabilityConstructionFailure(Seq<char>),
    OperationFailure(Seq<char>),
}

impl FailureView {
    /// The message, whatever the kind.
    pub open spec fn message(self) -> Seq<char> {
        match self {
            FailureView::CapabilityConstructionFailure(text) => text,
            FailureView::OperationFailure(text) => text,
        }
    }
}

impl View for DispatchError {
    type V = FailureView;

    open spec fn view(&self) -> FailureView {
        match self {
            DispatchError::CapabilityConstructionFailure(text) => {
                FailureView::CapabilityConstructionFailure(text@)
            },
            DispatchError::OperationFailure(text) => FailureView::OperationFailure(text@),
        }
    }
}

impl DispatchError {
    /// The message carried by the failure.
    pub fn message(&self) -> (text: &str)
        ensures
            text@ == self@.message(),
    {
        match self {
            DispatchError::CapabilityConstructionFailure(text) => text.as_str(),
            DispatchError::OperationFailure(text) => text.as_str(),
        }
    }

    /// Gives up the failure for its message.
    pub fn into_message(self) -> (text: String)
        ensures
            text@ == self@.message(),
    {
        match self {
            DispatchError::CapabilityConstructionFailure(text) => text,
            DispatchError::OperationFailure(text) => text,
        }
    }

    /// Whether the engine was never instantiated.
    pub fn is_construction_failure(&self) -> (answer: bool)
        ensures
            answer == (self@ is CapabilityConstructionFailure),
    {
        match self {
            DispatchError::CapabilityConstructionFailure(_) => true,
            DispatchError::OperationFailure(_) => false,
        }
    }
}

} // verus!
