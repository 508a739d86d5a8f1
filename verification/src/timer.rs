//! Choosing the pattern that timestamps are written with.
//!
//! A pattern supplied by the user must name at least one component of a
//! timestamp, in brackets, and must not open a bracket inside a component.
//! Such a pattern is handed to the `time` crate's parser. If the parser
//! accepts it, it is used. In every other case the built-in pattern takes
//! its place and the complaint is kept, so that the caller can print a
//! warning. Choosing a pattern never fails.

use vstd::prelude::*;
use vstd::string::*;
use crate::style::{fallback_pattern_notice, invalid_time_format_notice, invalid_time_format_warning};
use crate::text::{chars_of, opt_text};

verus! {

/// The built-in pattern: date and 24-hour time in UTC, with four digits of
/// the subsecond.
pub const DEFAULT_TIME_PATTERN: &'static str =
    "[year]-[month]-[day]T[hour repr:24]:[minute]:[second]::[subsecond digits:4]";

/// The longest pattern, in characters, that is handed to the parser. The
/// parser counts the bytes of a pattern in 32 bits, and a character takes up
/// to four bytes.
pub const MAX_PATTERN_LENGTH: usize = 0x3fff_ffff;

/// What `time::format_description::parse_borrowed::<1>` says of `pattern`:
/// `None` where it accepts the pattern, else the text of its error.
pub uninterp spec fn time_format_complaint(pattern: Seq<char>) -> Option<Seq<char>>;

/// What a walk over the brackets of a pattern finds.
#[derive(Clone, Copy, Debug, PartialEq, Eq, Structural)]
pub struct Brackets {
    /// Whether a component is opened: a `[` that is not one of a pair `[[`,
    /// which stands for the character itself.
    pub component: bool,
    /// Whether a `[` stands inside a component, before the `]` that closes it.
    pub nested: bool,
}

/// What a walk over `pattern` finds from index `at` on, where `inside` says
/// whether `at` lies inside a component.
pub open spec fn brackets_from(pattern: Seq<char>, at: int, inside: bool) -> Brackets
    decreases pattern.len() - at,
{
    if at < 0 || at >= pattern.len() {
        Brackets { component: false, nested: false }
    } else if inside {
        if pattern[at] == '[' {
            Brackets { component: false, nested: true }
        } else {
            brackets_from(pattern, at + 1, pattern[at] != ']')
        }
    } else if pattern[at] != '[' {
        brackets_from(pattern, at + 1, false)
    } else if at + 1 < pattern.len() && pattern[at + 1] == '[' {
        brackets_from(pattern, at + 2, false)
    } else {
        Brackets { component: true, nested: brackets_from(pattern, at + 1, true).nested }
    }
}

/// What a walk over the whole of `pattern` finds.
pub open spec fn brackets_of(pattern: Seq<char>) -> Brackets {
    brackets_from(pattern, 0, false)
}

/// What is said of a pattern that is too long to be parsed.
pub open spec fn too_long_complaint() -> Seq<char> {
    "the pattern is too long"@
}

/// What is said of a pattern that opens a bracket inside a component.
pub open spec fn nested_complaint() -> Seq<char> {
    "the pattern opens a bracket inside a component"@
}

/// What is said of a pattern that names no component of a timestamp.
pub open spec fn no_component_complaint() -> Seq<char> {
    "the pattern names no component"@
}

/// Whether `pattern` may be handed to the parser: it is not too long, and no
/// `[` stands inside a component.
pub open spec fn parseable(pattern: Seq<char>) -> bool {
    pattern.len() <= MAX_PATTERN_LENGTH && !brackets_of(pattern).nested
}

/// The complaint about `pattern`, if any. Its length and its brackets are
/// judged here; what is left is judged by the parser.
pub open spec fn complaint_about(pattern: Seq<char>) -> Option<Seq<char>> {
    if pattern.len() > MAX_PATTERN_LENGTH {
        Some(too_long_complaint())
    } else if brackets_of(pattern).nested {
        Some(nested_complaint())
    } else if !brackets_of(pattern).component {
        Some(no_component_complaint())
    } else {
        time_format_complaint(pattern)
    }
}

/// The mathematical content of a [`Timer`].
pub ghost struct TimerView {
    pub pattern: Seq<char>,
    pub complaint: Option<Seq<char>>,
}

/// The timer chosen for a requested pattern, given the complaint about it.
pub open spec fn timer_for(requested: Seq<char>, complaint: Option<Seq<char>>) -> TimerView {
    match complaint {
        None => TimerView { pattern: requested, complaint: None },
        Some(text) => TimerView { pattern: DEFAULT_TIME_PATTERN@, complaint: Some(text) },
    }
}

/// The pattern that timestamps are written with, and, where the requested
/// pattern was set aside for the built-in one, the reason.
#[derive(Debug)]
pub struct Timer {
    pub pattern: String,
    pub complaint: Option<String>,
}

impl View for Timer {
    type V = TimerView;

    open spec fn view(&self) -> TimerView {
        TimerView { pattern: self.pattern@, complaint: opt_text(self.complaint) }
    }
}

impl Clone for Timer {
    fn clone(&self) -> (copy: Self)
        ensures
            copy == *self,
    {
        Timer { pattern: self.pattern.clone(), complaint: self.complaint.clone() }
    }
}

/// Calls `time::format_description::parse_borrowed::<1>` on `pattern`, the
/// function that `time::format_description::parse` stands for. Trusted: the
/// outcome depends on the pattern alone, and is `None` where the parser
/// accepts the pattern, else the `Display` text of its error. Two kinds of
/// pattern are left out. The parser counts positions in 32 bits, so the
/// length is bounded. And where a `[` stands inside a component the parser
/// tries a nested description, a path on which it may trip over an
/// assertion of its own.
#[verifier::external_body]
fn parse_complaint(pattern: &str) -> (complaint: Option<String>)
    requires
        parseable(pattern@),
    ensures
        opt_text(complaint) == time_format_complaint(pattern@),
{
    match time::format_description::parse_borrowed::<1>(pattern) {
        Ok(_) => None,
        Err(error) => Some(error.to_string()),
    }
}

/// Walks over the brackets of `chars`.
fn walk_brackets(chars: &Vec<char>) -> (found: Brackets)
    ensures
        found == brackets_of(chars@),
{
    let mut component = false;
    let mut inside = false;
    let mut at: usize = 0;
    while at < chars.len()
        invariant
            at <= chars.len(),
            brackets_of(chars@).nested == brackets_from(chars@, at as int, inside).nested,
            brackets_of(chars@).component == (component || brackets_from(
                chars@,
                at as int,
                inside,
            ).component),
        decreases chars.len() - at,
    {
        if inside {
            if chars[at] == '[' {
                return Brackets { component, nested: true };
            }
            inside = chars[at] != ']';
            at += 1;
        } else if chars[at] != '[' {
            at += 1;
        } else if at + 1 < chars.len() && chars[at + 1] == '[' {
            at += 2;
        } else {
            component = true;
            inside = true;
            at += 1;
        }
    }
    Brackets { component, nested: false }
}

impl Timer {
    /// The timer for `time_format`, given the complaint about it: the pattern
    /// itself where there is none, else the built-in pattern.
    pub fn resolve(time_format: String, complaint: Option<String>) -> (timer: Timer)
        ensures
            timer@ == timer_for(time_format@, opt_text(complaint)),
    {
        match complaint {
            None => Timer { pattern: time_format, complaint: None },
            Some(text) => Timer {
                pattern: DEFAULT_TIME_PATTERN.to_string(),
                complaint: Some(text),
            },
        }
    }

    /// Whether the requested pattern was set aside for the built-in one.
    pub fn fell_back(&self) -> (fell_back: bool)
        ensures
            fell_back == self@.complaint.is_some(),
    {
        self.complaint.is_some()
    }

    /// The two lines to print where the requested pattern was set aside.
    pub fn warning(&self) -> (lines: Option<(String, String)>)
        ensures
            match self@.complaint {
                None => lines is None,
                Some(text) => lines matches Some((first, second)) && first@
                    == invalid_time_format_notice(text) && second@ == fallback_pattern_notice(
                    self@.pattern,
                ),
            },
    {
        match &self.complaint {
            None => None,
            Some(text) => Some(invalid_time_format_warning(text.as_str(), self.pattern.as_str())),
        }
    }
}

/// Judges `pattern`: its length and its brackets here, and what is left by
/// asking the parser.
pub fn check_time_format(pattern: &str) -> (complaint: Option<String>)
    ensures
        opt_text(complaint) == complaint_about(pattern@),
{
    let chars = chars_of(pattern);
    if chars.len() > MAX_PATTERN_LENGTH {
        return Some("the pattern is too long".to_string());
    }
    let found = walk_brackets(&chars);
    if found.nested {
        Some("the pattern opens a bracket inside a component".to_string())
    } else if !found.component {
        Some("the pattern names no component".to_string())
    } else {
        parse_complaint(pattern)
    }
}

/// The timer for a requested pattern. Never fails: a pattern that is rejected
/// gives the built-in pattern.
pub fn get_timer(time_format: String) -> (timer: Timer)
    ensures
        timer@ == timer_for(time_format@, complaint_about(time_format@)),
{
    let complaint = check_time_format(time_format.as_str());
    Timer::resolve(time_format, complaint)
}

/// A rejected pattern gives the built-in pattern, an accepted one itself.
pub proof fn law_time_pattern_fallback(requested: Seq<char>, complaint: Option<Seq<char>>)
    ensures
        complaint is Some ==> timer_for(requested, complaint).pattern == DEFAULT_TIME_PATTERN@,
        complaint is None ==> timer_for(requested, complaint).pattern == requested,
        timer_for(requested, complaint).complaint == complaint,
{
}

/// A walk that starts outside a component and meets no `[` finds nothing.
proof fn lemma_no_bracket_no_component(pattern: Seq<char>, at: int)
    requires
        0 <= at,
        forall|i: int| at <= i < pattern.len() ==> pattern[i] != '[',
    ensures
        brackets_from(pattern, at, false) == (Brackets { component: false, nested: false }),
    decreases pattern.len() - at,
{
    if at < pattern.len() {
        lemma_no_bracket_no_component(pattern, at + 1);
    }
}

/// A pattern without a `[` names no component, so it is always set aside
/// for the built-in pattern, whatever the parser would make of it. Nor is
/// the parser ever asked about a pattern that is too long or that opens a
/// bracket inside a component.
pub proof fn law_pattern_needs_a_component(pattern: Seq<char>)
    ensures
        !pattern.contains('[') ==> complaint_about(pattern) is Some,
        !pattern.contains('[') ==> timer_for(pattern, complaint_about(pattern)).pattern
            == DEFAULT_TIME_PATTERN@,
        !parseable(pattern) ==> complaint_about(pattern) is Some,
        complaint_about(pattern) is None ==> brackets_of(pattern).component
            && time_format_complaint(pattern) is None,
{
    if !pattern.contains('[') {
        assert forall|i: int| 0 <= i < pattern.len() implies pattern[i] != '[' by {
            if pattern[i] == '[' {
                assert(pattern.contains('['));
            }
        }
        lemma_no_bracket_no_component(pattern, 0);
    }
}

} // verus!
