//! The errors of the zlorb tools and the line that reports each.
use vstd::prelude::*;
use vstd::string::*;
use crate::text::{path_debug, path_debug_text, str_debug, str_debug_text};

verus! {

/// Everything that can go wrong in zlorb. Paths are held as text.
#[derive(Debug)]
pub enum ZlorbError {
    Io(std::io::Error),
    HomeDirNotFound,
    ConfigNotFound(String),
    ConfigParseError(String),
    InvalidConfig(String),
    FileNotFound(String),
    PermissionDenied(String),
    SerializationErrorGeneric(String),
    SerializationError(serde_json::Error),
    TomlSerializationError(toml::ser::Error),
    TomlDeserializationError(toml::de::Error),
    Git(git2::Error),
    Other(String),
}

impl From<std::io::Error> for ZlorbError {
    /// An I/O failure is an `Io` error.
    fn from(value: std::io::Error) -> (r: Self) {
        ZlorbError::Io(value)
    }
}

impl vstd::std_specs::convert::FromSpecImpl<std::io::Error> for ZlorbError {
    open spec fn obeys_from_spec() -> bool {
        true
    }

    open spec fn from_spec(v: std::io::Error) -> Self {
        ZlorbError::Io(v)
    }
}

/// `r` is `prefix` followed by what `Display` writes for `e`.
pub open spec fn prefixed_display<T: core::fmt::Display>(r: Seq<char>, prefix: Seq<char>, e: &T) -> bool {
    exists|s: String| #[trigger] to_string_from_display_ensures::<T>(e, s) && r == prefix + s@
}

/// `prefix` followed by `rest`.
fn prefixed(prefix: &str, rest: &str) -> (r: String)
    ensures
        r@ == prefix@ + rest@,
{
    let s = String::from_str(prefix);
    s.concat(rest)
}

impl ZlorbError {
    /// The line that reports this error.
    pub fn message(&self) -> (r: String)
        ensures
            match self {
                ZlorbError::Io(e) => prefixed_display(r@, "IO error: "@, e),
                ZlorbError::HomeDirNotFound => r@ == "Could not find home directory"@,
                ZlorbError::ConfigNotFound(p) => r@ == "Config file not found: "@ + path_debug_text(p@),
                ZlorbError::ConfigParseError(m) => r@ == "Failed to parse config: "@ + m@,
                ZlorbError::InvalidConfig(m) => r@ == "Invalid configuration: "@ + m@,
                ZlorbError::FileNotFound(p) => r@ == "File not found: "@ + path_debug_text(p@),
                ZlorbError::PermissionDenied(p) => r@ == "Permission denied: "@ + str_debug_text(p@),
                ZlorbError::SerializationErrorGeneric(m) => r@ == "Generic Serialization error: "@ + m@,
                ZlorbError::SerializationError(e) => prefixed_display(r@, "Serialization error: "@, e),
                ZlorbError::TomlSerializationError(e) => prefixed_display(r@, "Toml Serialization error: "@, e),
                ZlorbError::TomlDeserializationError(e) => prefixed_display(r@, "Toml Deserialization error: "@, e),
                ZlorbError::Git(e) => prefixed_display(r@, "Recieved git error: "@, e),
                ZlorbError::Other(m) => r@ == "Other error occured: "@ + m@,
            },
    {
        match self {
            ZlorbError::Io(e) => {
                let s = e.to_string();
                prefixed("IO error: ", s.as_str())
            },
            ZlorbError::HomeDirNotFound => String::from_str("Could not find home directory"),
            ZlorbError::ConfigNotFound(p) => prefixed("Config file not found: ", path_debug(p.as_str()).as_str()),
            ZlorbError::ConfigParseError(m) => prefixed("Failed to parse config: ", m.as_str()),
            ZlorbError::InvalidConfig(m) => prefixed("Invalid configuration: ", m.as_str()),
            ZlorbError::FileNotFound(p) => prefixed("File not found: ", path_debug(p.as_str()).as_str()),
            ZlorbError::PermissionDenied(p) => prefixed("Permission denied: ", str_debug(p.as_str()).as_str()),
            ZlorbError::SerializationErrorGeneric(m) => prefixed("Generic Serialization error: ", m.as_str()),
            ZlorbError::SerializationError(e) => {
                let s = e.to_string();
                prefixed("Serialization error: ", s.as_str())
            },
            ZlorbError::TomlSerializationError(e) => {
                let s = e.to_string();
                prefixed("Toml Serialization error: ", s.as_str())
            },
            ZlorbError::TomlDeserializationError(e) => {
                let s = e.to_string();
                prefixed("Toml Deserialization error: ", s.as_str())
            },
            ZlorbError::Git(e) => {
                let s = e.to_string();
                prefixed("Recieved git error: ", s.as_str())
            },
            ZlorbError::Other(m) => prefixed("Other error occured: ", m.as_str()),
        }
    }
}

} // verus!
