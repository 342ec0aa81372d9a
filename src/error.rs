//! The failures a packaging run can end in.

use vstd::prelude::*;
use crate::text::join2;

verus! {

/// Why a run stopped. Each variant carries the text that names the cause.
#[derive(Debug, PartialEq, Eq)]
pub enum Error {
    Custom(String),
    Io(String),
    TomlParse(String),
    TomlSerialize(String),
    Image(String),
    Zip(String),
    Walkdir(String),
    CommandFailed(String),
    MissingSource(String),
    ManifestNotFound(String),
    InvalidManifest(String),
    UnsupportedPlatform(String),
}

/// The text a variant carries.
pub open spec fn error_detail(e: Error) -> Seq<char> {
    match e {
        Error::Custom(s) => s@,
        Error::Io(s) => s@,
        Error::TomlParse(s) => s@,
        Error::TomlSerialize(s) => s@,
        Error::Image(s) => s@,
        Error::Zip(s) => s@,
        Error::Walkdir(s) => s@,
        Error::CommandFailed(s) => s@,
        Error::MissingSource(s) => s@,
        Error::ManifestNotFound(s) => s@,
        Error::InvalidManifest(s) => s@,
        Error::UnsupportedPlatform(s) => s@,
    }
}

/// The words put before the carried text when the error is shown.
pub open spec fn error_prefix(e: Error) -> Seq<char> {
    match e {
        Error::Custom(_) => ""@,
        Error::Io(_) => "IO error: "@,
        Error::TomlParse(_) => "TOML parse error: "@,
        Error::TomlSerialize(_) => "TOML serialize error: "@,
        Error::Image(_) => "Image error: "@,
        Error::Zip(_) => "Zip error: "@,
        Error::Walkdir(_) => "Walkdir error: "@,
        Error::CommandFailed(_) => "Command execution failed: "@,
        Error::MissingSource(_) => "Source not found: "@,
        Error::ManifestNotFound(_) => "Manifest not found at path: "@,
        Error::InvalidManifest(_) => "Invalid manifest: "@,
        Error::UnsupportedPlatform(_) => "Platform not supported: "@,
    }
}

impl Error {
    /// A free-form error.
    pub fn custom(msg: &str) -> (r: Self)
        ensures
            r matches Error::Custom(s) && s@ == msg@,
    {
        Error::Custom(String::from_str(msg))
    }

    /// The one-line text shown to the user.
    pub fn message(&self) -> (r: String)
        ensures
            r@ == error_prefix(*self) + error_detail(*self),
    {
        match self {
            Error::Custom(s) => {
                proof {
                    reveal_strlit("");
                }
                join2("", s.as_str())
            },
            Error::Io(s) => join2("IO error: ", s.as_str()),
            Error::TomlParse(s) => join2("TOML parse error: ", s.as_str()),
            Error::TomlSerialize(s) => join2("TOML serialize error: ", s.as_str()),
            Error::Image(s) => join2("Image error: ", s.as_str()),
            Error::Zip(s) => join2("Zip error: ", s.as_str()),
            Error::Walkdir(s) => join2("Walkdir error: ", s.as_str()),
            Error::CommandFailed(s) => join2("Command execution failed: ", s.as_str()),
            Error::MissingSource(s) => join2("Source not found: ", s.as_str()),
            Error::ManifestNotFound(s) => join2("Manifest not found at path: ", s.as_str()),
            Error::InvalidManifest(s) => join2("Invalid manifest: ", s.as_str()),
            Error::UnsupportedPlatform(s) => join2("Platform not supported: ", s.as_str()),
        }
    }
}

impl From<String> for Error {
    /// A free-form error carrying `err`.
    fn from(err: String) -> (r: Self) {
        Error::Custom(err)
    }
}

impl vstd::std_specs::convert::FromSpecImpl<String> for Error {
    open spec fn obeys_from_spec() -> bool {
        true
    }

    open spec fn from_spec(v: String) -> Error {
        Error::Custom(v)
    }
}

impl<'a> From<&'a str> for Error {
    /// A free-form error carrying a copy of `err`.
    fn from(err: &'a str) -> (r: Self) {
        Error::Custom(String::from_str(err))
    }
}

// A `&str` gives no `String` at the level of specifications, so this
// conversion is left unspecified; `Error::custom` states the same result.
impl<'a> vstd::std_specs::convert::FromSpecImpl<&'a str> for Error {
    open spec fn obeys_from_spec() -> bool {
        false
    }

    open spec fn from_spec(v: &'a str) -> Error {
        arbitrary()
    }
}

} // verus!
