//! The per-scheme result line: the scheme's name again, after a carriage
//! return, in green when its build succeeded and in red when it failed.
//!
//! Whether colour escapes are emitted at all is decided by the terminal
//! colouring library from the environment, so the rendered text is either the
//! name itself or the name wrapped in a colour escape and a reset.

use colored::Colorize;
use vstd::prelude::*;

verus! {

/// An ANSI select-graphic-rendition escape with the given parameter.
pub open spec fn sgr(code: Seq<char>) -> Seq<char> {
    seq!['\x1b', '['] + code + seq!['m']
}

/// `text` set in the colour `code`, followed by a reset of all attributes.
pub open spec fn painted(text: Seq<char>, code: Seq<char>) -> Seq<char> {
    sgr(code) + text + sgr(seq!['0'])
}

/// The foreground parameter of green.
pub open spec fn green_code() -> Seq<char> {
    seq!['3', '2']
}

/// The foreground parameter of red.
pub open spec fn red_code() -> Seq<char> {
    seq!['3', '1']
}

/// The text as rendered in colour `code`: unchanged when colouring is off,
/// painted when it is on.
pub open spec fn rendered_as(r: Seq<char>, text: Seq<char>, code: Seq<char>) -> bool {
    r == text || r == painted(text, code)
}

/// Relies on colored's `Colorize::green` on a `&str` and the `Display` of the
/// `ColoredString` it returns: the plain text when colouring is off, else the
/// green foreground escape, the text, and the reset escape (text that holds no
/// escape character is written as it is).
#[verifier::external_body]
fn green_text(s: &str) -> (r: String)
    ensures
        !s@.contains('\x1b') ==> rendered_as(r@, s@, green_code()),
{
    s.green().to_string()
}

/// Relies on colored's `Colorize::red` on a `&str` and the `Display` of the
/// `ColoredString` it returns: the plain text when colouring is off, else the
/// red foreground escape, the text, and the reset escape (text that holds no
/// escape character is written as it is).
#[verifier::external_body]
fn red_text(s: &str) -> (r: String)
    ensures
        !s@.contains('\x1b') ==> rendered_as(r@, s@, red_code()),
{
    s.red().to_string()
}

/// The colour that reports an outcome: green for success, red for failure.
pub open spec fn outcome_code(succeeded: bool) -> Seq<char> {
    if succeeded {
        green_code()
    } else {
        red_code()
    }
}

/// The line that reports a scheme's outcome. It starts with a carriage return
/// so that it overwrites the scheme name printed when the build started, then
/// gives the name in the outcome's colour.
pub fn status_line(scheme: &str, succeeded: bool) -> (r: String)
    ensures
        r@.len() >= 1 && r@[0] == '\r',
        !scheme@.contains('\x1b') ==> rendered_as(r@.drop_first(), scheme@, outcome_code(succeeded)),
{
    let name = if succeeded {
        green_text(scheme)
    } else {
        red_text(scheme)
    };
    let r = "\r".to_string().concat(name.as_str());
    proof {
        reveal_strlit("\r");
        assert(r@.drop_first() =~= name@);
    }
    r
}

} // verus!
