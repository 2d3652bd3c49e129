//! What can go wrong inside the ability itself.

use vstd::prelude::*;
use vstd::string::StringExecFns;

verus! {

/// The text that Rust's debug formatting gives for a string: the string in
/// double quotes, with the characters that need it escaped.
pub uninterp spec fn debug_quoted(text: Seq<char>) -> Seq<char>;

/// Formats a string with `{:?}` of `std::fmt`. The contract names the
/// result; it says nothing of which characters are escaped.
#[verifier::external_body]
fn debug_string(text: &str) -> (r: String)
    ensures
        r@ == debug_quoted(text@),
{
    format!("{:?}", text)
}

/// An error of the ability.
#[derive(Debug)]
pub enum AbilityError {
    /// Something that only works on the main thread was tried elsewhere.
    /// The text says what.
    OnlyRunWithMainThread(String),
}

impl AbilityError {
    /// The message of the error, as a character sequence.
    pub open spec fn spec_message(self) -> Seq<char> {
        match self {
            AbilityError::OnlyRunWithMainThread(what) => "OpenHarmonyAbilityError: "@
                + debug_quoted(what@) + " only run with main thread"@,
        }
    }

    /// The message of the error: what was tried, quoted, between a fixed
    /// head and a fixed tail.
    pub fn message(&self) -> (r: String)
        ensures
            r@ == self.spec_message(),
    {
        match self {
            AbilityError::OnlyRunWithMainThread(what) => {
                let quoted = debug_string(what.as_str());
                let head = String::from_str("OpenHarmonyAbilityError: ");
                let with_what = head.concat(quoted.as_str());
                with_what.concat(" only run with main thread")
            },
        }
    }
}

} // verus!
