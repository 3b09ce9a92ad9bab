//! Failures of the generation backend, as the backend relay reports them.
use vstd::prelude::*;
use vstd::string::StringExecFns;
use vstd::string::to_string_from_display_ensures;

verus! {

/// Why a call to the generation backend failed.
#[derive(Debug)]
pub enum OllamaError {
    /// The backend could not be reached, or its reply could not be read.
    RequestError(reqwest::Error),
    /// The backend answered with a non-success status and this body text.
    ApiError { status: reqwest::StatusCode, message: String },
}

impl OllamaError {
    /// Whether `d` describes this failure. What an outside error or a status
    /// says of itself is its own `Display` text.
    pub open spec fn describes(&self, d: Seq<char>) -> bool {
        match self {
            OllamaError::RequestError(e) => exists|s: String|
                to_string_from_display_ensures(e, s) && d == "HTTP request failed: "@ + s@,
            OllamaError::ApiError { status, message } => exists|s: String|
                to_string_from_display_ensures(status, s) && d == "Ollama API error: "@ + s@
                    + " - "@ + message@,
        }
    }

    /// The description of the failure.
    pub fn describe(&self) -> (r: String)
        ensures
            self.describes(r@),
    {
        match self {
            OllamaError::RequestError(e) => {
                let s = e.to_string();
                let mut r = "HTTP request failed: ".to_owned();
                r.append(s.as_str());
                r
            },
            OllamaError::ApiError { status, message } => {
                let s = status.to_string();
                let mut r = "Ollama API error: ".to_owned();
                r.append(s.as_str());
                r.append(" - ");
                r.append(message.as_str());
                r
            },
        }
    }
}

} // verus!
