//! The errors of the zlorbrs tools and the line that reports each.
use vstd::prelude::*;
use vstd::string::*;
use crate::text::{path_debug, path_debug_text, str_debug, str_debug_text};
use crate::zlorb_lib::error::prefixed_display;

verus! {

/// Everything that can go wrong in zlorbrs. Paths are held as text.
#[derive(Debug)]
pub enum ZlorbError {
    Io(std::io::Error),
    HomeDirNotFound,
    ConfigNotFound(String),
    ConfigParseError(String),
    InvalidConfig(String),
    FileNotFOund(String),
    PermissionDenied(String),
    SerializationError(String),
    Git(git2::Error),
    Other(String),
}

impl ZlorbError {
    /// The line that reports this error.
    pub fn message(&self) -> (r: String)
        ensures
            match self {
                ZlorbError::Io(e) => prefixed_display(r@, "IO error: "@, e),
                ZlorbError::HomeDirNotFound => r@ == "Could not find home directory"@,
                ZlorbError::ConfigNotFound(p) => r@ == "Config file not found: "@ + path_debug_text(p@),
                ZlorbError::ConfigParseError(m) => r@ == "Failed to parse config: "@ + m@,
                ZlorbError::InvalidConfig(m) => r@ == "Invalid configuration: "@ + m@,
                ZlorbError::FileNotFOund(p) => r@ == "File not found: "@ + path_debug_text(p@),
                ZlorbError::PermissionDenied(p) => r@ == "Permission denied: "@ + str_debug_text(p@),
                ZlorbError::SerializationError(m) => r@ == "Serialization error: "@ + m@,
                ZlorbError::Git(e) => prefixed_display(r@, "Recieved git error: "@, e),
                ZlorbError::Other(m) => r@ == "Other error occured: "@ + m@,
            },
    {
        match self {
            ZlorbError::Io(e) => String::from_str("IO error: ").concat(e.to_string().as_str()),
            ZlorbError::HomeDirNotFound => String::from_str("Could not find home directory"),
            ZlorbError::ConfigNotFound(p) => String::from_str("Config file not found: ").concat(path_debug(p.as_str()).as_str()),
            ZlorbError::ConfigParseError(m) => String::from_str("Failed to parse config: ").concat(m.as_str()),
            ZlorbError::InvalidConfig(m) => String::from_str("Invalid configuration: ").concat(m.as_str()),
            ZlorbError::FileNotFOund(p) => String::from_str("File not found: ").concat(path_debug(p.as_str()).as_str()),
            ZlorbError::PermissionDenied(p) => String::from_str("Permission denied: ").concat(str_debug(p.as_str()).as_str()),
            ZlorbError::SerializationError(m) => String::from_str("Serialization error: ").concat(m.as_str()),
            ZlorbError::Git(e) => String::from_str("Recieved git error: ").concat(e.to_string().as_str()),
            ZlorbError::Other(m) => String::from_str("Other error occured: ").concat(m.as_str()),
        }
    }
}

} // verus!
