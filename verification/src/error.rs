//! The error that drawing can raise.

use vstd::prelude::*;
use vstd::string::to_string_from_display_ensures_for_str;

verus! {

/// The one error that drawing can raise: the rendering context failed to
/// finish the frame.
#[derive(Debug, PartialEq, Eq, Structural)]
pub struct Error {}

impl Error {
    /// The text that describes the error, a line of its own.
    pub fn message(&self) -> (text: String)
        ensures
            text@ == "plotters-piet error\n"@,
    {
        broadcast use to_string_from_display_ensures_for_str;

        "plotters-piet error\n".to_string()
    }
}

} // verus!
