//! The error taxonomy shared by every work unit. Each variant carries what a
//! user-facing failure line needs; `message` renders it.

use vstd::prelude::*;
use vstd::string::StringExecFns;
use crate::strutil::spec_decimal;
use crate::strutil::u32_to_string;

verus! {

/// Why a fetch or authentication step failed.
#[derive(Debug, Clone, PartialEq)]
pub enum FetchError {
    /// The connection itself failed; no response arrived.
    Transport(String),
    /// A response arrived with a non-2xx status; carries status and body.
    HttpStatus(u32, String),
    /// A response body did not have the expected shape.
    Parse(String),
    /// A credential is missing or invalid, or the authorization flow ended
    /// in a terminal failure code.
    Auth(String),
    /// An argument was malformed, e.g. a repository identifier not in
    /// `owner/name` form.
    Argument(String),
    /// The external command-line tool is absent or exited nonzero.
    ExternalTool(String),
}

/// The human-readable rendering of an error.
pub open spec fn spec_message(e: FetchError) -> Seq<char> {
    match e {
        FetchError::Transport(s) => "network error: "@ + s@,
        FetchError::HttpStatus(code, body) => "HTTP "@ + spec_decimal(code as nat) + ": "@ + body@,
        FetchError::Parse(s) => "parse error: "@ + s@,
        FetchError::Auth(s) => s@,
        FetchError::Argument(s) => s@,
        FetchError::ExternalTool(s) => s@,
    }
}

impl FetchError {
    /// Renders the error as one line for a `Error` event.
    pub fn message(&self) -> (r: String)
        ensures
            r@ == spec_message(*self),
    {
        match self {
            FetchError::Transport(s) => {
                let mut m = String::from_str("network error: ");
                m.append(s.as_str());
                m
            },
            FetchError::HttpStatus(code, body) => {
                let mut m = String::from_str("HTTP ");
                let code_str = u32_to_string(*code);
                m.append(code_str.as_str());
                m.append(": ");
                m.append(body.as_str());
                assert(m@ =~= spec_message(*self));
                m
            },
            FetchError::Parse(s) => {
                let mut m = String::from_str("parse error: ");
                m.append(s.as_str());
                m
            },
            FetchError::Auth(s) => s.clone(),
            FetchError::Argument(s) => s.clone(),
            FetchError::ExternalTool(s) => s.clone(),
        }
    }
}

} // verus!
