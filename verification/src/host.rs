//! What the library takes from the host and from other crates: the user's
//! home directory, and coloured text for a terminal. Nothing in this file is
//! proved; each contract says what the function behind it is relied on for.

use vstd::prelude::*;
use colorful::{Color, Colorful};

verus! {

/// The colours in which availability is reported.
#[derive(Clone, Copy, Debug, PartialEq, Eq, Structural)]
pub enum Tint {
    Green,
    Red,
}

impl Tint {
    /// The number of the colour in the 256-colour palette of a terminal.
    pub open spec fn code(self) -> Seq<char> {
        match self {
            Tint::Green => "2"@,
            Tint::Red => "1"@,
        }
    }
}

/// `text` between the escape sequence that selects the foreground colour
/// `tint` and the one that resets the terminal.
pub open spec fn tinted(text: Seq<char>, tint: Tint) -> Seq<char> {
    "\x1B[38;5;"@ + tint.code() + "m"@ + text + "\x1B[0m"@
}

/// `Colorful::color` of the crate colorful, written out as a string. The
/// crate renders a foreground colour of its palette as the sequence
/// `ESC [ 38 ; 5 ;`, the colour's number and `m`, then the text, then the
/// reset sequence `ESC [ 0 m`; green is number 2 and red is number 1.
#[verifier::external_body]
pub(crate) fn paint(text: &str, tint: Tint) -> (out: String)
    ensures
        out@ == tinted(text@, tint),
{
    let color = match tint {
        Tint::Green => Color::Green,
        Tint::Red => Color::Red,
    };
    text.color(color).to_string()
}

/// `dirs::home_dir`: the home directory of the current user, as the
/// environment or the user database gives it. Nothing is claimed of the
/// answer; there is none where the host knows no home directory or its path
/// is not valid Unicode.
#[verifier::external_body]
pub(crate) fn home_dir() -> (home: Option<String>) {
    dirs::home_dir().and_then(|p| p.into_os_string().into_string().ok())
}

} // verus!
