//! What can stop the run command before any program is compiled.
//!
//! The command needs a main source file and a project manifest. It finds out
//! whether they are there; this module holds the two ways in which that can
//! fail, and the message of each.

use vstd::prelude::*;
use vstd::string::StringExecFns;

verus! {

/// What `Debug` formatting writes for the string `text`: the text between
/// double quotes, with the characters that need it escaped.
pub uninterp spec fn debug_quoted(text: Seq<char>) -> Seq<char>;

/// The message for a missing main file, for a path that is already quoted.
pub open spec fn missing_main_file(quoted_path: Seq<char>) -> Seq<char> {
    "main file "@ + quoted_path + " does not exist"@
}

/// A failure to load or validate the project manifest, as the text that the
/// manifest loader gives for it.
#[derive(Debug, PartialEq, Eq)]
pub struct ManifestError {
    pub message: String,
}

/// Why the run command stopped. Neither case can be recovered from: the
/// command ends and the text is shown to the user.
#[derive(Debug, PartialEq, Eq)]
pub enum RunError {
    /// No main file at the path that was tried.
    MainFileDoesNotExist(String),
    /// The manifest could not be loaded.
    ManifestError(ManifestError),
}

impl RunError {
    /// The text shown to the user: for a missing main file a sentence that
    /// quotes the path, for a manifest failure the loader's own text, word for
    /// word.
    pub open spec fn message(&self) -> Seq<char> {
        match self {
            RunError::MainFileDoesNotExist(path) => missing_main_file(debug_quoted(path@)),
            RunError::ManifestError(error) => error.message@,
        }
    }

    /// The text shown to the user.
    pub fn to_string(&self) -> (text: String)
        ensures
            text@ == self.message(),
    {
        match self {
            RunError::MainFileDoesNotExist(path) => main_file_message(debug_format(path)),
            RunError::ManifestError(error) => error.message.clone(),
        }
    }
}

impl From<ManifestError> for RunError {
    fn from(error: ManifestError) -> (run_error: RunError) {
        RunError::ManifestError(error)
    }
}

impl vstd::std_specs::convert::FromSpecImpl<ManifestError> for RunError {
    open spec fn obeys_from_spec() -> bool {
        true
    }

    /// A manifest failure stops the run as it is.
    open spec fn from_spec(error: ManifestError) -> RunError {
        RunError::ManifestError(error)
    }
}

/// The message for a missing main file, given its path as `Debug` formatting
/// writes it.
pub fn main_file_message(quoted_path: String) -> (message: String)
    ensures
        message@ == missing_main_file(quoted_path@),
{
    let message = String::from_str("main file ").concat(quoted_path.as_str()).concat(
        " does not exist",
    );
    assert(message@ =~= missing_main_file(quoted_path@));
    message
}

/// Calls std's `Debug` formatting of a string (`format!` with `{:?}`), which
/// writes the string between double quotes and escapes what is in it.
/// Trusted: the contract gives that result a name and claims nothing else
/// of it.
#[verifier::external_body]
fn debug_format(text: &String) -> (quoted: String)
    ensures
        quoted@ == debug_quoted(text@),
{
    format!("{:?}", text)
}

} // verus!
