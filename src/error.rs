use vstd::prelude::*;

verus! {

/// The three ways that reading the idle time can fail.
#[derive(Clone, Copy, Debug, PartialEq, Eq, Structural)]
pub enum Error {
    /// The connection to the display server could not be opened.
    CannotOpenDisplay,
    /// The server does not offer the screen-saver extension.
    NoScreenSaverExtension,
    /// The info buffer could not be allocated, or the query failed.
    CannotGetScreenSaverInfo,
}

/// The fixed text shown to a user for each kind of failure.
pub open spec fn message_text(e: Error) -> Seq<char> {
    match e {
        Error::CannotOpenDisplay => "Cannot open display"@,
        Error::NoScreenSaverExtension => "Screen doesn't have screen saver extension"@,
        Error::CannotGetScreenSaverInfo => "Cannot get screen saver info"@,
    }
}

impl Error {
    /// The human-readable message for this error.
    pub fn message(&self) -> (r: &'static str)
        ensures
            r@ == message_text(*self),
    {
        match self {
            Error::CannotOpenDisplay => "Cannot open display",
            Error::NoScreenSaverExtension => "Screen doesn't have screen saver extension",
            Error::CannotGetScreenSaverInfo => "Cannot get screen saver info",
        }
    }
}

} // verus!
