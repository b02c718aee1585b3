//! What can stop the daemon.

use vstd::prelude::*;
use vstd::string::*;

verus! {

/// `std::io::Error`, carried through as it came. Nothing is known of what
/// is inside one.
#[verifier::external_type_specification]
#[verifier::external_body]
pub struct ExIoError(std::io::Error);

/// Flag that selects the default profile.
pub const DEFAULT_MODE_ARG: &'static str = "--default";

/// Flag that selects the quiet profile.
pub const QUIET_MODE_ARG: &'static str = "--quiet";

/// Why the daemon stopped.
#[derive(Debug)]
pub enum Error {
    /// The process may not touch the controller's ports.
    NoSudo,
    /// The argument list is empty.
    NoExecName,
    /// The argument is no known flag. Holds the program's name, for the usage
    /// line.
    WrongArgs(String),
    /// The register file could not be read.
    ErrRead(std::io::Error),
    /// Another I/O operation failed.
    IOErr(std::io::Error),
    /// A write to the controller did not go through.
    ErrWrite,
}

impl Error {
    /// The fixed part of the message: all of it where the error holds no
    /// I/O error, else what stands before the I/O error's own text.
    pub open spec fn headline(self) -> Seq<char> {
        match self {
            Error::NoSudo => "Run with sudo!"@,
            Error::NoExecName => "No executable name found in args for some reason"@,
            Error::WrongArgs(name) => "Usage:\n"@ + name@ + " "@ + DEFAULT_MODE_ARG@ + "|"@
                + QUIET_MODE_ARG@,
            Error::ErrRead(_) => "Error on reading: "@,
            Error::IOErr(_) => "IO error: "@,
            Error::ErrWrite => "Error on writing."@,
        }
    }

    /// The I/O error inside, if there is one.
    pub open spec fn io_cause(self) -> Option<std::io::Error> {
        match self {
            Error::ErrRead(e) => Some(e),
            Error::IOErr(e) => Some(e),
            _ => None,
        }
    }

    /// The message for the user: the headline, followed by the text of the
    /// I/O error where the error holds one.
    pub fn message(&self) -> (text: String)
        ensures
            self.io_cause().is_none() ==> text@ == self.headline(),
            self.io_cause().is_some() ==> exists|detail: String|
                #[trigger] to_string_from_display_ensures::<std::io::Error>(
                    &self.io_cause().unwrap(),
                    detail,
                ) && text@ == self.headline() + detail@,
    {
        match self {
            Error::NoSudo => String::from_str("Run with sudo!"),
            Error::NoExecName => String::from_str(
                "No executable name found in args for some reason",
            ),
            Error::WrongArgs(name) => {
                let mut text = String::from_str("Usage:\n");
                text.append(name.as_str());
                text.append(" ");
                text.append(DEFAULT_MODE_ARG);
                text.append("|");
                text.append(QUIET_MODE_ARG);
                text
            },
            Error::ErrRead(e) => {
                let detail = e.to_string();
                let mut text = String::from_str("Error on reading: ");
                text.append(detail.as_str());
                assert(to_string_from_display_ensures::<std::io::Error>(
                    &self.io_cause().unwrap(),
                    detail,
                ));
                text
            },
            Error::IOErr(e) => {
                let detail = e.to_string();
                let mut text = String::from_str("IO error: ");
                text.append(detail.as_str());
                assert(to_string_from_display_ensures::<std::io::Error>(
                    &self.io_cause().unwrap(),
                    detail,
                ));
                text
            },
            Error::ErrWrite => String::from_str("Error on writing."),
        }
    }
}

impl From<std::io::Error> for Error {
    fn from(e: std::io::Error) -> (error: Error) {
        Error::IOErr(e)
    }
}

impl vstd::std_specs::convert::FromSpecImpl<std::io::Error> for Error {
    open spec fn obeys_from_spec() -> bool {
        true
    }

    open spec fn from_spec(e: std::io::Error) -> Error {
        Error::IOErr(e)
    }
}

} // verus!
