//! The failures of the bridge, the text each one shows and the HTTP status
//! it is answered with.

use vstd::prelude::*;

verus! {

/// A failure of one request. No failure outlives the request it belongs to.
#[derive(Debug, Clone, PartialEq, Eq)]
pub enum BridgeError {
    /// Printer discovery failed; carries the cause.
    PrinterError(String),
    /// Submission or conversion failed; carries the diagnostic text.
    PrintError(String),
    /// The content type is not accepted; carries the offending tag.
    UnsupportedFormat(String),
    /// A file or a process could not be used; carries the system's message.
    IoError(String),
    /// The payload is not valid base64; carries the decoder's message.
    Base64Error(String),
    /// The persisted configuration is malformed; carries the cause.
    ConfigError(String),
    /// The token is missing or wrong.
    Unauthorized,
    /// The client has used up its quota for the current window.
    RateLimitExceeded,
    /// The payload exceeds the configured size.
    FileTooLarge,
}

/// The mathematical value of a [`BridgeError`].
pub enum ErrorView {
    PrinterError(Seq<char>),
    PrintError(Seq<char>),
    UnsupportedFormat(Seq<char>),
    IoError(Seq<char>),
    Base64Error(Seq<char>),
    ConfigError(Seq<char>),
    Unauthorized,
    RateLimitExceeded,
    FileTooLarge,
}

impl View for BridgeError {
    type V = ErrorView;

    open spec fn view(&self) -> ErrorView {
        match self {
            BridgeError::PrinterError(t) => ErrorView::PrinterError(t@),
            BridgeError::PrintError(t) => ErrorView::PrintError(t@),
            BridgeError::UnsupportedFormat(t) => ErrorView::UnsupportedFormat(t@),
            BridgeError::IoError(t) => ErrorView::IoError(t@),
            BridgeError::Base64Error(t) => ErrorView::Base64Error(t@),
            BridgeError::ConfigError(t) => ErrorView::ConfigError(t@),
            BridgeError::Unauthorized => ErrorView::Unauthorized,
            BridgeError::RateLimitExceeded => ErrorView::RateLimitExceeded,
            BridgeError::FileTooLarge => ErrorView::FileTooLarge,
        }
    }
}

impl ErrorView {
    /// The text shown for the failure.
    pub open spec fn message(self) -> Seq<char> {
        match self {
            ErrorView::PrinterError(t) => "Error de impresora: "@ + t,
            ErrorView::PrintError(t) => "Error de impresión: "@ + t,
            ErrorView::UnsupportedFormat(t) => "Formato no soportado: "@ + t,
            ErrorView::IoError(t) => "Error de IO: "@ + t,
            ErrorView::Base64Error(t) => "Error de decodificación base64: "@ + t,
            ErrorView::ConfigError(t) => "Error de configuración: "@ + t,
            ErrorView::Unauthorized => "No autorizado"@,
            ErrorView::RateLimitExceeded => "Límite de velocidad excedido"@,
            ErrorView::FileTooLarge => "Archivo demasiado grande"@,
        }
    }

    /// The HTTP status the failure is answered with.
    pub open spec fn status_code(self) -> u16 {
        match self {
            ErrorView::UnsupportedFormat(_) => 400,
            ErrorView::Unauthorized => 401,
            ErrorView::FileTooLarge => 413,
            ErrorView::RateLimitExceeded => 429,
            _ => 500,
        }
    }
}

impl BridgeError {
    /// The human-readable text of the failure.
    pub fn message(&self) -> (text: String)
        ensures
            text@ == self@.message(),
    {
        match self {
            BridgeError::PrinterError(t) => String::from_str("Error de impresora: ").concat(
                t.as_str(),
            ),
            BridgeError::PrintError(t) => String::from_str("Error de impresión: ").concat(
                t.as_str(),
            ),
            BridgeError::UnsupportedFormat(t) => String::from_str("Formato no soportado: ").concat(
                t.as_str(),
            ),
            BridgeError::IoError(t) => String::from_str("Error de IO: ").concat(t.as_str()),
            BridgeError::Base64Error(t) => String::from_str(
                "Error de decodificación base64: ",
            ).concat(t.as_str()),
            BridgeError::ConfigError(t) => String::from_str("Error de configuración: ").concat(
                t.as_str(),
            ),
            BridgeError::Unauthorized => String::from_str("No autorizado"),
            BridgeError::RateLimitExceeded => String::from_str("Límite de velocidad excedido"),
            BridgeError::FileTooLarge => String::from_str("Archivo demasiado grande"),
        }
    }

    /// The HTTP status the failure is answered with: 400 for a content type
    /// that is not accepted, 401 for a bad token, 413 for an oversized
    /// payload, 429 for an exhausted quota, 500 for everything else.
    pub fn status_code(&self) -> (code: u16)
        ensures
            code == self@.status_code(),
    {
        match self {
            BridgeError::UnsupportedFormat(_) => 400,
            BridgeError::Unauthorized => 401,
            BridgeError::FileTooLarge => 413,
            BridgeError::RateLimitExceeded => 429,
            _ => 500,
        }
    }
}

} // verus!
