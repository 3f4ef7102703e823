//! The message template and its filter.
//!
//! Templates are parsed and kept by Tera.  This module prepares a Tera
//! instance that holds the configured message template and knows the
//! `humantime` filter, and sorts out why a template was refused.

use vstd::prelude::*;
use vstd::string::StringExecFns;

use crate::error::{BackendError, BackendErrorView};
use crate::scan::list_in_test;

verus! {

/// Name under which the message template is kept.
pub const NOTIFICATION_MESSAGE_TEMPLATE: &'static str = "notification_message_template";

/// Name of the filter that writes a number of seconds for people to read.
pub const HUMANTIME_FILTER: &'static str = "humantime";

/// Tera's engine: a collection of templates and filters.
#[verifier::external_type_specification]
#[verifier::external_body]
pub struct ExTera(tera::Tera);

/// Tera's error type.
#[verifier::external_type_specification]
#[verifier::external_body]
pub struct ExTeraError(tera::Error);

/// Tera's template value, a JSON document.
#[verifier::external_type_specification]
#[verifier::external_body]
pub struct ExTeraValue(tera::Value);

/// The templates that an engine holds: by name, the text that each was parsed
/// from.
pub uninterp spec fn tera_templates(engine: tera::Tera) -> Map<Seq<char>, Seq<char>>;

/// The names of the filters that an engine holds.
pub uninterp spec fn tera_filters(engine: tera::Tera) -> Set<Seq<char>>;

/// Whether `Tera::add_raw_template`, on an engine that holds the templates, can
/// answer the text under the name with the error.
pub uninterp spec fn tera_refuses(
    templates: Map<Seq<char>, Seq<char>>,
    name: Seq<char>,
    content: Seq<char>,
    error: tera::Error,
) -> bool;

/// The text of the cause that an error holds, if it holds one.
pub uninterp spec fn error_source(error: tera::Error) -> Option<Seq<char>>;

/// The text that an error made from a message holds.
pub uninterp spec fn error_message(error: tera::Error) -> Seq<char>;

/// The unsigned number that a value holds, if it holds one.
pub uninterp spec fn value_number(value: tera::Value) -> Option<u64>;

/// The JSON text of a value.
pub uninterp spec fn value_json(value: tera::Value) -> Seq<char>;

/// The string that a value holds, if it holds one.
pub uninterp spec fn value_string(value: tera::Value) -> Option<Seq<char>>;

/// A number of seconds as `humantime` writes it.
pub uninterp spec fn duration_text(seconds: u64) -> Seq<char>;

/// `Tera::default` gives an engine without templates.  Which filters it comes
/// with is left unsaid.
#[verifier::external_body]
fn new_engine() -> (engine: tera::Tera)
    ensures
        tera_templates(engine) == (Map::<Seq<char>, Seq<char>>::empty()),
{
    tera::Tera::default()
}

/// `Tera::add_raw_template` parses `content` and, where it accepts it, keeps
/// it under `name`.  Where it refuses, the error is one that it can answer this
/// text with, and the template may be among those of the engine or not.  The
/// filters stay as they are.  Which contents are accepted
/// is left unsaid: deep nesting is refused according to the stack that is
/// left.  A list literal as the argument of a test is left out: Tera's grammar
/// takes it, and its parser then panics.
#[verifier::external_body]
fn add_raw_template(engine: &mut tera::Tera, name: &str, content: &str) -> (outcome: Result<
    (),
    tera::Error,
>)
    requires
        !list_in_test(content@),
    ensures
        tera_filters(*final(engine)) == tera_filters(*old(engine)),
        outcome is Ok ==> tera_templates(*final(engine)) == tera_templates(*old(engine)).insert(
            name@,
            content@,
        ),
        outcome is Err ==> tera_templates(*final(engine)) == tera_templates(*old(engine)) || tera_templates(
            *final(engine),
        ) == tera_templates(*old(engine)).insert(name@, content@),
        outcome is Err ==> tera_refuses(
            tera_templates(*old(engine)),
            name@,
            content@,
            outcome->Err_0,
        ),
{
    engine.add_raw_template(name, content)
}

/// `Tera::register_filter` keeps a filter, here [`humantime_filter`], under
/// `name`, in place of one that had the name before.
#[verifier::external_body]
fn register_humantime(engine: &mut tera::Tera, name: &str)
    ensures
        tera_filters(*final(engine)) == tera_filters(*old(engine)).insert(name@),
        tera_templates(*final(engine)) == tera_templates(*old(engine)),
{
    engine.register_filter(
        name,
        |value: &tera::Value, _: &std::collections::HashMap<String, tera::Value>| humantime_filter(value),
    );
}

/// `Tera::clone` copies the templates and the filters.
#[verifier::external_body]
pub(crate) fn clone_engine(engine: &tera::Tera) -> (copy: tera::Tera)
    ensures
        tera_templates(copy) == tera_templates(*engine),
        tera_filters(copy) == tera_filters(*engine),
{
    engine.clone()
}

/// `tera::Error::source` gives the error's cause; this is its text.
#[verifier::external_body]
fn source_text(error: &tera::Error) -> (source: Option<String>)
    ensures
        source.deep_view() == error_source(*error),
{
    std::error::Error::source(error).map(|cause| cause.to_string())
}

/// `tera::Error::msg` makes an error that holds the message.
#[verifier::external_body]
fn message_error(message: String) -> (error: tera::Error)
    ensures
        error_message(error) == message@,
{
    tera::Error::msg(message)
}

/// `tera::from_value` reads the value as an unsigned number of 64 bits; it
/// fails on every value that holds none.
#[verifier::external_body]
fn read_number(value: &tera::Value) -> (number: Option<u64>)
    ensures
        number == value_number(*value),
{
    tera::from_value::<u64>(value.clone()).ok()
}

/// `tera::Value::to_string` writes the value as JSON.
#[verifier::external_body]
fn json_text(value: &tera::Value) -> (text: String)
    ensures
        text@ == value_json(*value),
{
    value.to_string()
}

/// `tera::to_value` on a string gives a value that holds the string, and does
/// not fail on one.
#[verifier::external_body]
fn string_value(text: String) -> (outcome: Result<tera::Value, tera::Error>)
    ensures
        outcome is Ok,
        value_string(outcome->Ok_0) == Some(text@),
{
    Ok(tera::to_value(text)?)
}

/// `humantime::format_duration` on whole seconds, written out.  The text
/// depends on the number of seconds alone.
#[verifier::external_body]
fn format_duration(seconds: u64) -> (text: String)
    ensures
        text@ == duration_text(seconds),
{
    humantime::format_duration(std::time::Duration::new(seconds, 0)).to_string()
}

/// The characters that Unicode counts as white space.
pub open spec fn is_white_space(c: char) -> bool {
    ||| '\u{9}' <= c <= '\u{d}'
    ||| c == '\u{20}'
    ||| c == '\u{85}'
    ||| c == '\u{a0}'
    ||| c == '\u{1680}'
    ||| '\u{2000}' <= c <= '\u{200a}'
    ||| c == '\u{2028}'
    ||| c == '\u{2029}'
    ||| c == '\u{202f}'
    ||| c == '\u{205f}'
    ||| c == '\u{3000}'
}

/// A text without the white space at its two ends.
pub open spec fn trimmed(text: Seq<char>) -> Seq<char>
    decreases text.len(),
{
    if text.len() > 0 && is_white_space(text.first()) {
        trimmed(text.drop_first())
    } else if text.len() > 0 && is_white_space(text.last()) {
        trimmed(text.drop_last())
    } else {
        text
    }
}

/// `str::trim` drops the white space at the two ends.
pub assume_specification[ str::trim ](text: &str) -> (result: &str)
    ensures
        result@ == trimmed(text@),
;

/// What the filter answers where its input is no number: the words before and
/// after the input's JSON text.
pub const WRONG_VALUE_START: &'static str = "Filter `humantime_filter` was called on an incorrect value: got `";

pub const WRONG_VALUE_END: &'static str = "` but expected a u64";

/// The filter's decision, given the number that its input holds and the
/// input's JSON text.
pub fn humantime_text(number: Option<u64>, json: &str) -> (answer: Result<String, String>)
    ensures
        match (number, answer) {
            (Some(seconds), Ok(text)) => text@ == duration_text(seconds),
            (None, Err(message)) => message@ == WRONG_VALUE_START@ + json@ + WRONG_VALUE_END@,
            _ => false,
        },
{
    match number {
        Some(seconds) => Ok(format_duration(seconds)),
        None => Err(WRONG_VALUE_START.to_string().concat(json).concat(WRONG_VALUE_END)),
    }
}

/// The `humantime` filter: turns a number of seconds into text for people, and
/// refuses every other value.
pub fn humantime_filter(value: &tera::Value) -> (answer: Result<tera::Value, tera::Error>)
    ensures
        match (value_number(*value), answer) {
            (Some(seconds), Ok(text)) => value_string(text) == Some(duration_text(seconds)),
            (None, Err(error)) => error_message(error) == WRONG_VALUE_START@ + value_json(*value)
                + WRONG_VALUE_END@,
            _ => false,
        },
{
    let json: String = json_text(value);
    match humantime_text(read_number(value), json.as_str()) {
        Ok(text) => string_value(text),
        Err(message) => Err(message_error(message)),
    }
}

/// The backend's error for a template that Tera refused: the text of the cause
/// where the error holds one, else the error itself.
pub fn template_error(source: Option<String>, error: tera::Error) -> (result: BackendError)
    ensures
        result@ == refused_template(source.deep_view(), error),
{
    match source {
        Some(text) => BackendError::TemplateParse(text),
        None => BackendError::Template(error),
    }
}

/// See [`template_error`].
pub open spec fn refused_template(
    source: Option<Seq<char>>,
    error: tera::Error,
) -> BackendErrorView {
    match source {
        Some(text) => BackendErrorView::TemplateParse(text),
        None => BackendErrorView::Template(error),
    }
}

/// What a window needs to write a notification: the prepared engine and the
/// name of the font.
pub struct WindowRenderState {
    pub template: tera::Tera,
    pub font: String,
}

impl WindowRenderState {
    /// The engine holds exactly the message template, without the white space
    /// at its ends, and knows the filter; the font is the one asked for.
    pub open spec fn renders(self, template_raw: Seq<char>, font: Seq<char>) -> bool {
        &&& tera_templates(self.template) == map![
            NOTIFICATION_MESSAGE_TEMPLATE@ => trimmed(template_raw),
        ]
        &&& tera_filters(self.template).contains(HUMANTIME_FILTER@)
        &&& self.font@ == font
    }

    /// The error reports why Tera refused the message template, without the
    /// white space at its ends, on an engine that held none.
    pub open spec fn reports(error: BackendErrorView, template_raw: Seq<char>) -> bool {
        exists|refused: tera::Error|
            #[trigger] tera_refuses(
                Map::empty(),
                NOTIFICATION_MESSAGE_TEMPLATE@,
                trimmed(template_raw),
                refused,
            ) && error == refused_template(error_source(refused), refused)
    }

    /// How a preparation can go.
    pub open spec fn prepares(
        template_raw: Seq<char>,
        font: Seq<char>,
        outcome: Result<Self, BackendError>,
    ) -> bool {
        match outcome {
            Ok(state) => state.renders(template_raw, font),
            Err(error) => Self::reports(error@, template_raw),
        }
    }

    /// Finishes the preparation, given what Tera answered to the template: an
    /// accepted one is completed with the filter and the font, a refused one is
    /// reported.
    pub fn complete(
        engine: tera::Tera,
        answer: Result<(), tera::Error>,
        font: &str,
    ) -> (outcome: Result<Self, BackendError>)
        ensures
            match (answer, outcome) {
                (Ok(()), Ok(state)) => {
                    &&& tera_templates(state.template) == tera_templates(engine)
                    &&& tera_filters(state.template) == tera_filters(engine).insert(
                        HUMANTIME_FILTER@,
                    )
                    &&& state.font@ == font@
                },
                (Err(refused), Err(error)) => error@ == refused_template(
                    error_source(refused),
                    refused,
                ),
                _ => false,
            },
    {
        match answer {
            Ok(()) => {
                let mut template: tera::Tera = engine;
                register_humantime(&mut template, HUMANTIME_FILTER);
                Ok(WindowRenderState { template, font: font.to_string() })
            },
            Err(refused) => {
                let source: Option<String> = source_text(&refused);
                Err(template_error(source, refused))
            },
        }
    }

    /// Prepares the engine.  Tera decides whether it accepts the template; what
    /// follows from its answer is [`WindowRenderState::complete`].  The template
    /// hands no list to a test; [`crate::scan::tests_a_list`] tells.
    pub fn new(template_raw: &str, font: &str) -> (outcome: Result<Self, BackendError>)
        requires
            !list_in_test(trimmed(template_raw@)),
        ensures
            Self::prepares(template_raw@, font@, outcome),
    {
        let mut engine: tera::Tera = new_engine();
        let answer: Result<(), tera::Error> = add_raw_template(
            &mut engine,
            NOTIFICATION_MESSAGE_TEMPLATE,
            template_raw.trim(),
        );
        Self::complete(engine, answer, font)
    }
}

} // verus!
