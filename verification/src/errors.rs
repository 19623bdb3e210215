use crate::text::join2;
use vstd::prelude::*;
use vstd::string::StringExecFns;

verus! {

/// The failures that a request can end in. Each variant but the last carries
/// a cause in words.
#[derive(Clone, Debug)]
pub enum AppError {
    /// The knowledge repository failed.
    DatabaseError(String),
    /// The model provider could not be reached or answered out of protocol.
    AIError(String),
    /// A tool or agent definition is malformed, or names a disabled kind.
    ConfigError(String),
    /// The input is empty or otherwise unacceptable.
    ValidationError(String),
    /// A document or a reply could not be parsed.
    ParseError(String),
    /// No agent or tool has the identifier asked for.
    NotFound(String),
    /// An administrative operation was asked for without the force flag.
    SafetyGuardError,
}

impl AppError {
    /// The cause that the error carries; empty for `SafetyGuardError`.
    pub open spec fn cause(self) -> Seq<char> {
        match self {
            AppError::DatabaseError(m) => m@,
            AppError::AIError(m) => m@,
            AppError::ConfigError(m) => m@,
            AppError::ValidationError(m) => m@,
            AppError::ParseError(m) => m@,
            AppError::NotFound(m) => m@,
            AppError::SafetyGuardError => Seq::empty(),
        }
    }

    /// The words that introduce the cause in the error's full text.
    pub open spec fn heading(self) -> Seq<char> {
        match self {
            AppError::DatabaseError(_) => "Database error: "@,
            AppError::AIError(_) => "AI Provider error: "@,
            AppError::ConfigError(_) => "Configuration error: "@,
            AppError::ValidationError(_) => "Validation error: "@,
            AppError::ParseError(_) => "Parsing error: "@,
            AppError::NotFound(_) => "Not found: "@,
            AppError::SafetyGuardError => "Admin operation requires force flag"@,
        }
    }

    /// The error's full text: the heading of its kind, then its cause.
    pub open spec fn text(self) -> Seq<char> {
        self.heading() + self.cause()
    }

    /// The HTTP status that reports the error.
    pub open spec fn status(self) -> u16 {
        match self {
            AppError::ValidationError(_) => 400,
            AppError::SafetyGuardError => 403,
            AppError::NotFound(_) => 404,
            AppError::AIError(_) => 502,
            _ => 500,
        }
    }

    /// The text shown to the caller. Validation, safety, configuration and
    /// not-found errors show their full text; the others a fixed sentence
    /// that leaks nothing of the cause.
    pub open spec fn public_text(self) -> Seq<char> {
        match self {
            AppError::ValidationError(_) => self.text(),
            AppError::SafetyGuardError => self.text(),
            AppError::ConfigError(_) => self.text(),
            AppError::NotFound(_) => self.text(),
            AppError::ParseError(_) => "Error procesando datos"@,
            AppError::AIError(_) => "Error de comunicación con IA"@,
            AppError::DatabaseError(_) => "Internal Server Error"@,
        }
    }

    /// The error's full text.
    pub fn message(&self) -> (r: String)
        ensures
            r@ == self.text(),
    {
        match self {
            AppError::DatabaseError(m) => join2("Database error: ", m.as_str()),
            AppError::AIError(m) => join2("AI Provider error: ", m.as_str()),
            AppError::ConfigError(m) => join2("Configuration error: ", m.as_str()),
            AppError::ValidationError(m) => join2("Validation error: ", m.as_str()),
            AppError::ParseError(m) => join2("Parsing error: ", m.as_str()),
            AppError::NotFound(m) => join2("Not found: ", m.as_str()),
            AppError::SafetyGuardError => {
                let out: String = String::from_str("Admin operation requires force flag");
                assert(out@ =~= self.text());
                out
            },
        }
    }

    /// The HTTP status that reports the error.
    pub fn status_code(&self) -> (r: u16)
        ensures
            r == self.status(),
    {
        match self {
            AppError::ValidationError(_) => 400,
            AppError::SafetyGuardError => 403,
            AppError::NotFound(_) => 404,
            AppError::AIError(_) => 502,
            _ => 500,
        }
    }

    /// The text shown to the caller in the error response.
    pub fn public_message(&self) -> (r: String)
        ensures
            r@ == self.public_text(),
    {
        match self {
            AppError::ParseError(_) => String::from_str("Error procesando datos"),
            AppError::AIError(_) => String::from_str("Error de comunicación con IA"),
            AppError::DatabaseError(_) => String::from_str("Internal Server Error"),
            _ => self.message(),
        }
    }
}

} // verus!
