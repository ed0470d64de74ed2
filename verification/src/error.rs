//! The one way a session fails: the terminal or the file system said no.

use vstd::prelude::*;
use vstd::string::*;

verus! {

/// `std::io::Error`, carried through as it came. Nothing inside it is read
/// by proved code.
#[verifier::external_type_specification]
#[verifier::external_body]
pub struct ExIoError(std::io::Error);

/// Why a session ended early.
#[derive(Debug)]
pub enum Error {
    /// The operating system refused a change of terminal mode, a write, a
    /// query of the terminal's size, or the listing of a directory.
    Io(std::io::Error),
}

impl From<std::io::Error> for Error {
    fn from(e: std::io::Error) -> (error: Error) {
        Error::Io(e)
    }
}

impl vstd::std_specs::convert::FromSpecImpl<std::io::Error> for Error {
    open spec fn obeys_from_spec() -> bool {
        true
    }

    open spec fn from_spec(e: std::io::Error) -> Error {
        Error::Io(e)
    }
}

/// The text of an `std::io::Error`, through its `Display` impl. Nothing is
/// claimed of it: the operating system words most of these.
#[verifier::external_body]
fn io_text(e: &std::io::Error) -> (text: String) {
    format!("{}", e)
}

impl Error {
    /// The line that reports an I/O failure whose own text is `text`.
    pub open spec fn report(text: Seq<char>) -> Seq<char> {
        "! error: io: "@ + text + "\n"@
    }

    /// Builds the line that reports an I/O failure: see [`Error::report`].
    pub fn line(text: &str) -> (out: String)
        ensures
            out@ == Self::report(text@),
    {
        let mut out = String::from_str("! error: io: ");
        out.append(text);
        out.append("\n");
        out
    }

    /// The line that reports this error: [`Error::report`] of the text that
    /// the underlying error gives of itself.
    pub fn message(&self) -> (out: String)
        ensures
            exists|text: Seq<char>| out@ == Self::report(text),
    {
        match self {
            Error::Io(e) => {
                let text = io_text(e);
                Self::line(text.as_str())
            },
        }
    }
}

} // verus!
