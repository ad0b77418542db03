use vstd::prelude::*;

verus! {

/// Errors raised when a subscriber's input fails validation.
#[derive(Debug)]
pub enum Error {
    ValidateSubscriberNameError(String),
    ValidateSubscriberEmailError(String),
}

impl Error {
    /// The text that describes the error.
    pub fn to_string(&self) -> (r: String)
        ensures
            r@ == match self {
                Error::ValidateSubscriberNameError(m) => "invalid subscriber name Error: "@ + m@,
                Error::ValidateSubscriberEmailError(m) => "invalid subscriber email Error: "@ + m@,
            },
    {
        match self {
            Error::ValidateSubscriberNameError(m) => {
                let mut text = String::from_str("invalid subscriber name Error: ");
                text.append(m.as_str());
                text
            },
            Error::ValidateSubscriberEmailError(m) => {
                let mut text = String::from_str("invalid subscriber email Error: ");
                text.append(m.as_str());
                text
            },
        }
    }
}

} // verus!
