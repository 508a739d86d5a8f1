//! Coloured notices for the terminal.
//!
//! The colours come from `owo_colors`; the wording of the notices is this
//! crate's own. Nothing here prints: each function hands back the line to
//! print.

use owo_colors::OwoColorize;
use vstd::prelude::*;
use vstd::string::*;
use crate::text::join2;

verus! {

/// `text` between the escape sequences for a red foreground and bold type.
pub open spec fn bold_red(text: Seq<char>) -> Seq<char> {
    let before = seq!['\u{1b}', '[', '3', '1', 'm', '\u{1b}', '[', '1', 'm'];
    let after = seq!['\u{1b}', '[', '0', 'm', '\u{1b}', '[', '3', '9', 'm'];
    before + text + after
}

/// `text` between the escape sequences for a green foreground.
pub open spec fn green(text: Seq<char>) -> Seq<char> {
    seq!['\u{1b}', '[', '3', '2', 'm'] + text + seq!['\u{1b}', '[', '3', '9', 'm']
}

/// The notice for a configuration that names no destination.
pub open spec fn no_output_notice() -> Seq<char> {
    bold_red("LogConfig"@) + ": No output specified. "@ + green("Defaulting to stdout"@)
}

/// The first line of the notice for a rejected time pattern: what the parser
/// said of it.
pub open spec fn invalid_time_format_notice(complaint: Seq<char>) -> Seq<char> {
    bold_red("Invalid time format:"@) + ": "@ + complaint
}

/// The second line of the notice for a rejected time pattern: the pattern
/// used in its place.
pub open spec fn fallback_pattern_notice(pattern: Seq<char>) -> Seq<char> {
    "Defaulting to pattern: "@ + green(pattern)
}

/// Calls `OwoColorize::bold` and then `OwoColorize::red` on `text` and renders
/// the result with `Display`. Trusted: the rendering is the red-foreground
/// sequence `ESC[31m`, the bold sequence `ESC[1m`, the text, the reset `ESC[0m`
/// and the default-foreground sequence `ESC[39m`.
#[verifier::external_body]
fn paint_bold_red(text: &str) -> (painted: String)
    ensures
        painted@ == bold_red(text@),
{
    format!("{}", text.bold().red())
}

/// Calls `OwoColorize::green` on `text` and renders the result with `Display`.
/// Trusted: the rendering is the green-foreground sequence `ESC[32m`, the text
/// and the default-foreground sequence `ESC[39m`.
#[verifier::external_body]
fn paint_green(text: &str) -> (painted: String)
    ensures
        painted@ == green(text@),
{
    format!("{}", text.green())
}

/// The line to print when a configuration names no destination.
pub fn no_output_warning() -> (line: String)
    ensures
        line@ == no_output_notice(),
{
    let mut line = paint_bold_red("LogConfig");
    line.append(": No output specified. ");
    let tail = paint_green("Defaulting to stdout");
    line.append(tail.as_str());
    line
}

/// The two lines to print when a time pattern was rejected: what the parser
/// said of it, and the pattern used in its place.
pub fn invalid_time_format_warning(complaint: &str, fallback: &str) -> (lines: (String, String))
    ensures
        lines.0@ == invalid_time_format_notice(complaint@),
        lines.1@ == fallback_pattern_notice(fallback@),
{
    let mut first = paint_bold_red("Invalid time format:");
    first.append(": ");
    first.append(complaint);
    let painted = paint_green(fallback);
    let second = join2("Defaulting to pattern: ", painted.as_str());
    (first, second)
}

} // verus!
