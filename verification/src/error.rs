//! Errors that abort a run before any work starts.

use vstd::prelude::*;

verus! {

/// A configuration value that was rejected while resolving a schedule.
///
/// Carries the name of the offending argument, the value that was supplied,
/// and a remediation message.
#[derive(Debug)]
pub enum PostSchedulerError {
    InvalidArgument { argument_name: String, value: String, message: String },
}

impl PostSchedulerError {
    /// The rendered form of this error:
    /// `Invalid value "<value>" for argument <argument_name>. <message>`.
    pub open spec fn describe_spec(&self) -> Seq<char> {
        match self {
            PostSchedulerError::InvalidArgument { argument_name, value, message } => "Invalid value \""@
                + value@ + "\" for argument "@ + argument_name@ + ". "@ + message@,
        }
    }

    /// Renders the error as one human-readable line.
    pub fn describe(&self) -> (r: String)
        ensures
            r@ == self.describe_spec(),
    {
        match self {
            PostSchedulerError::InvalidArgument { argument_name, value, message } => {
                let mut s = String::from_str("Invalid value \"");
                s.append(value.as_str());
                s.append("\" for argument ");
                s.append(argument_name.as_str());
                s.append(". ");
                s.append(message.as_str());
                s
            },
        }
    }
}

} // verus!
