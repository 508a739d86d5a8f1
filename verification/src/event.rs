//! What a logging call hands to the pipeline: the message, with its
//! arguments put in, and the fields that go with it.

use vstd::prelude::*;
use crate::level::Severity;
use crate::text::{opt_text, texts};

verus! {

/// What `dynfmt::SimpleCurlyFormat` makes of `message` with the positional
/// arguments `args`: the formatted text, or `None` where it reports an error.
pub uninterp spec fn curly_formatted(message: Seq<char>, args: Seq<Seq<char>>) -> Option<Seq<char>>;

/// Calls `dynfmt::Format::format` of `dynfmt::SimpleCurlyFormat` on `message`
/// with `args` as the argument list. Trusted: the outcome depends on the
/// message and the arguments alone, and is the formatted text, or `None`
/// where the formatter returns an error (a placeholder with no argument
/// left for it, or one that asks for an argument by name). A placeholder
/// begins with `{`, so a message without that character holds none, and the
/// formatter hands it back as it is.
#[verifier::external_body]
fn curly_format(message: &str, args: &Vec<String>) -> (formatted: Option<String>)
    ensures
        opt_text(formatted) == curly_formatted(message@, texts(args@)),
        !message@.contains('{') ==> opt_text(formatted) == Some(message@),
{
    match dynfmt::Format::format(&dynfmt::SimpleCurlyFormat, message, args) {
        Ok(text) => Some(text.into_owned()),
        Err(_) => None,
    }
}

/// The message that is logged: the formatted text where there are arguments
/// and formatting succeeded, the message as written otherwise.
pub open spec fn rendered(
    message: Seq<char>,
    arg_count: nat,
    formatted: Option<Seq<char>>,
) -> Seq<char> {
    if arg_count > 0 && formatted is Some {
        formatted.unwrap()
    } else {
        message
    }
}

/// The message that is logged for `message` with the arguments `args`: the
/// message as written where there are no arguments or the message holds no
/// `{`, else what the formatter makes of it, or the message as written where
/// the formatter fails.
pub open spec fn formatted_message(message: Seq<char>, args: Seq<Seq<char>>) -> Seq<char> {
    if args.len() == 0 || !message.contains('{') {
        message
    } else {
        rendered(message, args.len(), curly_formatted(message, args))
    }
}

/// The message that is logged for `message` and its optional arguments.
pub open spec fn interpolated(message: Seq<char>, args: Option<Seq<Seq<char>>>) -> Seq<char> {
    match args {
        Some(list) => formatted_message(message, list),
        None => message,
    }
}

/// Chooses the message to log, given what the formatter made of it.
pub fn choose_message(message: &str, arg_count: usize, formatted: Option<String>) -> (text: String)
    ensures
        text@ == rendered(message@, arg_count as nat, opt_text(formatted)),
{
    if arg_count > 0 {
        match formatted {
            Some(text) => text,
            None => message.to_string(),
        }
    } else {
        message.to_string()
    }
}

/// Puts `args` into the `{}` placeholders of `message`, from left to right.
/// With no arguments, or where they do not fit the placeholders, the message
/// is returned as written.
pub fn format_string(message: &str, args: &Vec<String>) -> (text: String)
    ensures
        text@ == formatted_message(message@, texts(args@)),
{
    if args.len() > 0 {
        let formatted = curly_format(message, args);
        choose_message(message, args.len(), formatted)
    } else {
        message.to_string()
    }
}

/// The message to log for `message` and its optional arguments.
pub fn interpolate(message: &str, args: &Option<Vec<String>>) -> (text: String)
    ensures
        text@ == interpolated(
            message@,
            match args {
                Some(list) => Some(texts(list@)),
                None => None,
            },
        ),
{
    match args {
        Some(list) => format_string(message, list),
        None => message.to_string(),
    }
}

/// The arguments of a logging call as the pipeline takes them: `None` where
/// the call had none.
pub fn parse_args(args: Vec<String>) -> (parsed: Option<Vec<String>>)
    ensures
        args@.len() == 0 ==> parsed is None,
        args@.len() > 0 ==> parsed == Some(args),
{
    if args.len() == 0 {
        None
    } else {
        Some(args)
    }
}

/// The views of a list of key and value pairs, in order.
pub open spec fn pair_texts(pairs: Seq<(String, String)>) -> Seq<(Seq<char>, Seq<char>)> {
    pairs.map_values(|pair: (String, String)| (pair.0@, pair.1@))
}

/// The view of optional metadata.
pub open spec fn opt_pairs(
    metadata: Option<Vec<(String, String)>>,
) -> Option<Seq<(Seq<char>, Seq<char>)>> {
    match metadata {
        Some(pairs) => Some(pair_texts(pairs@)),
        None => None,
    }
}

/// The mathematical content of a [`LogEvent`].
pub ghost struct LogEventView {
    pub level: Severity,
    pub message: Seq<char>,
    pub app_env: Seq<char>,
    pub name: Option<Seq<char>>,
    pub metadata: Option<Seq<(Seq<char>, Seq<char>)>>,
}

/// One structured log event, ready to be emitted.
#[derive(Debug)]
pub struct LogEvent {
    pub level: Severity,
    /// The message, with its arguments put in.
    pub message: String,
    /// The environment that the logger is configured for.
    pub app_env: String,
    /// The name of the logger, where it has one.
    pub name: Option<String>,
    /// Keys and values given with this one call.
    pub metadata: Option<Vec<(String, String)>>,
}

impl View for LogEvent {
    type V = LogEventView;

    open spec fn view(&self) -> LogEventView {
        LogEventView {
            level: self.level,
            message: self.message@,
            app_env: self.app_env@,
            name: opt_text(self.name),
            metadata: opt_pairs(self.metadata),
        }
    }
}

impl LogEvent {
    /// The event with `metadata` attached in place of what it carried.
    pub fn with_metadata(self, metadata: Option<Vec<(String, String)>>) -> (event: LogEvent)
        ensures
            event@ == (LogEventView { metadata: opt_pairs(metadata), ..self@ }),
    {
        LogEvent {
            level: self.level,
            message: self.message,
            app_env: self.app_env,
            name: self.name,
            metadata,
        }
    }
}

/// A message is logged as written where the call has no arguments and
/// where the message holds no `{`; otherwise it is the formatted text, or
/// the message as written where the formatter fails.
pub proof fn law_message_as_written(
    message: Seq<char>,
    args: Seq<Seq<char>>,
    formatted: Option<Seq<char>>,
)
    ensures
        interpolated(message, None) == message,
        interpolated(message, Some(Seq::empty())) == message,
        !message.contains('{') ==> interpolated(message, Some(args)) == message,
        rendered(message, 0, formatted) == message,
        rendered(message, args.len(), None) == message,
        args.len() > 0 && formatted is Some ==> rendered(message, args.len(), formatted)
            == formatted.unwrap(),
        formatted_message(message, args) == message || Some(formatted_message(message, args))
            == curly_formatted(message, args),
{
}

} // verus!
