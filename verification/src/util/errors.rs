//! The ways in which building or running a model can fail.
use vstd::prelude::*;
use vstd::string::StringExecFns;

verus! {

/// Errors that building or running a model can end with.
#[derive(Debug)]
pub enum ModelError {
    /// The run was told to halt on a critical frequency condition, and one has
    /// occurred. This is a regular way for a run to end.
    NeedToStop,
    /// The nodes and edges of the graph do not line up with the agents.
    GraphError(String),
    /// The falsified figures of an infected unit can not be put in place.
    InfectionError(String),
    /// A parameter has a value that the model can not work with.
    ParamError {
        /// What is wrong.
        msg: String,
        /// Where it was found.
        context: String,
    },
}

impl ModelError {
    /// What the error says, as a sequence of characters: its heading followed
    /// by its detail.
    pub open spec fn spec_message(self) -> Seq<char> {
        match self {
            ModelError::NeedToStop => "NeedToStop"@,
            ModelError::GraphError(detail) => "Something went wrong with the graph: "@ + detail@,
            ModelError::InfectionError(detail) => "Attack had an error during Infection: "@
                + detail@,
            ModelError::ParamError { msg, context } => "ParamError: "@ + context@ + " - "@ + msg@,
        }
    }

    /// Whether this is the parameter error that says the given words about the
    /// given place.
    pub open spec fn is_param_error(self, msg: Seq<char>, context: Seq<char>) -> bool {
        match self {
            ModelError::ParamError { msg: told, context: place } => told@ == msg && place@
                == context,
            _ => false,
        }
    }

    /// The error in words.
    pub fn message(&self) -> (text: String)
        ensures
            text@ == self.spec_message(),
    {
        match self {
            ModelError::NeedToStop => String::from_str("NeedToStop"),
            ModelError::GraphError(detail) => String::from_str(
                "Something went wrong with the graph: ",
            ).concat(detail.as_str()),
            ModelError::InfectionError(detail) => String::from_str(
                "Attack had an error during Infection: ",
            ).concat(detail.as_str()),
            ModelError::ParamError { msg, context } => String::from_str("ParamError: ").concat(
                context.as_str(),
            ).concat(" - ").concat(msg.as_str()),
        }
    }

    /// Whether the error is the regular signal that ends a run early.
    pub fn is_stop_signal(&self) -> (b: bool)
        ensures
            b == (*self is NeedToStop),
    {
        match self {
            ModelError::NeedToStop => true,
            _ => false,
        }
    }
}

} // verus!
