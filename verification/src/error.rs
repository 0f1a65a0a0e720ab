//! What can go wrong in an agent.
use vstd::prelude::*;

use crate::text::{concat, concat3, contains_text};

verus! {

/// The errors that this library reports.
#[derive(Debug)]
pub enum AgentError {
    /// A value or a setting that cannot be used.
    InvalidValue(String),
    /// A configuration that cannot be used.
    InvalidConfig(String),
    /// A request, a connection or a reply that failed.
    IoError(String),
}

impl AgentError {
    /// The text that a reader of the log sees.
    pub open spec fn text(&self) -> Seq<char> {
        match *self {
            AgentError::InvalidValue(reason) => "Invalid "@ + reason@ + " value"@,
            AgentError::InvalidConfig(reason) => "Configuration error: "@ + reason@,
            AgentError::IoError(reason) => "IO error: "@ + reason@,
        }
    }

    /// Writes the error for a reader of the log.
    pub fn to_text(&self) -> (text: String)
        ensures
            text@ == self.text(),
    {
        match self {
            AgentError::InvalidValue(reason) => concat3("Invalid ", reason.as_str(), " value"),
            AgentError::InvalidConfig(reason) => concat("Configuration error: ", reason.as_str()),
            AgentError::IoError(reason) => concat("IO error: ", reason.as_str()),
        }
    }
}

/// The text of an error ends in the reason, after a word on what kind of error
/// it is; that of an unusable value has the reason in its middle.
pub proof fn law_error_text_gives_the_reason(error: AgentError)
    ensures
        error matches AgentError::IoError(reason) ==> error.text() == seq![
            'I',
            'O',
            ' ',
            'e',
            'r',
            'r',
            'o',
            'r',
            ':',
            ' ',
        ] + reason@,
        error matches AgentError::InvalidConfig(reason) ==> {
            &&& error.text().len() == "Configuration error: "@.len() + reason@.len()
            &&& "Configuration error: "@.is_prefix_of(error.text())
            &&& reason@.is_suffix_of(error.text())
        },
        error matches AgentError::InvalidValue(reason) ==> {
            &&& error.text().len() == "Invalid "@.len() + reason@.len() + " value"@.len()
            &&& "Invalid "@.is_prefix_of(error.text())
            &&& " value"@.is_suffix_of(error.text())
            &&& contains_text(error.text(), reason@)
        },
{
    reveal_strlit("IO error: ");
    let text = error.text();
    match error {
        AgentError::IoError(reason) => {
            assert("IO error: "@ =~= seq!['I', 'O', ' ', 'e', 'r', 'r', 'o', 'r', ':', ' ']);
        },
        AgentError::InvalidConfig(reason) => {
            let start = "Configuration error: "@;
            assert(text.subrange(0, start.len() as int) =~= start);
            assert(text.subrange(text.len() - reason@.len(), text.len() as int) =~= reason@);
        },
        AgentError::InvalidValue(reason) => {
            let start = "Invalid "@;
            let end = " value"@;
            assert(text.subrange(0, start.len() as int) =~= start);
            assert(text.subrange(text.len() - end.len(), text.len() as int) =~= end);
            let at = start.len() as int;
            assert(text.subrange(at, at + reason@.len()) =~= reason@);
        },
    }
}

} // verus!
