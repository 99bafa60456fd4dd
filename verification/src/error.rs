//! The library's uniform error type: a human-readable message, a stable
//! machine-readable kind, and an optional diagnostic description.

use vstd::prelude::*;
use vstd::string::StringExecFns;

verus! {

#[derive(Debug, Clone)]
pub struct Error {
    pub message: String,
    pub kind: String,
    pub description: Option<String>,
}

/// The character sequence produced by displaying an error: the message,
/// followed by the description in parentheses when one is present.
pub open spec fn display_of(message: Seq<char>, description: Option<Seq<char>>) -> Seq<char> {
    match description {
        Some(d) => message + " ("@ + d + ")"@,
        None => message,
    }
}

impl Error {
    pub fn new(message: String, kind: &str, description: Option<String>) -> (e: Error)
        ensures
            e.message@ == message@,
            e.kind@ == kind@,
            e.description is Some <==> description is Some,
            description matches Some(d) ==> e.description matches Some(ed) && ed@ == d@,
    {
        Error { message, kind: String::from_str(kind), description }
    }

    /// Renders the error for display: `message` or `message (description)`.
    pub fn to_display_string(&self) -> (s: String)
        ensures
            s@ == display_of(
                self.message@,
                match self.description {
                    Some(d) => Some(d@),
                    None => None,
                },
            ),
    {
        match &self.description {
            Some(d) => {
                let mut s = self.message.clone();
                s.append(" (");
                s.append(d.as_str());
                s.append(")");
                s
            },
            None => self.message.clone(),
        }
    }
}

/// Builds the error reported when one step of an operation fails: the
/// message is the step's prefix followed by the failure's text, which is
/// also kept as the description.
pub fn step_error(prefix: &str, detail: String, kind: &str) -> (e: Error)
    ensures
        e.message@ == prefix@ + detail@,
        e.kind@ == kind@,
        e.description matches Some(d) && d@ == detail@,
{
    let mut m = String::from_str(prefix);
    m.append(detail.as_str());
    Error::new(m, kind, Some(detail))
}

/// Builds the error reported when one step of an operation fails on a named
/// subject: the message names the subject between the prefix and the
/// failure's text, which is also kept as the description.
pub fn step_error_about(prefix: &str, subject: &str, mid: &str, detail: String, kind: &str) -> (e:
    Error)
    ensures
        e.message@ == prefix@ + subject@ + mid@ + detail@,
        e.kind@ == kind@,
        e.description matches Some(d) && d@ == detail@,
{
    let mut m = String::from_str(prefix);
    m.append(subject);
    m.append(mid);
    m.append(detail.as_str());
    Error::new(m, kind, Some(detail))
}

} // verus!
