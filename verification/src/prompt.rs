//! Prompts that a script asks for.
//!
//! A prompt is made in two steps around the prompter, which is not part of this library:
//! first the question is built, as a [`TemplateSlots`]; then the prompter's outcome is
//! turned into what the script gets back.

use crate::error::{ErrorView, VariableError};
use regex::Regex;
use vstd::prelude::*;

verus! {

/// `regex::Regex`, a compiled regular expression.
#[verifier::external_type_specification]
#[verifier::external_body]
pub struct ExRegex(Regex);

/// `regex::Error`, why a pattern did not compile.
#[verifier::external_type_specification]
#[verifier::external_body]
pub struct ExRegexError(regex::Error);

/// What compiling a pattern gives: the regular expression, or why there is none.
pub uninterp spec fn compiled(pattern: Seq<char>) -> Result<Regex, regex::Error>;

/// `Regex::new` compiles the pattern. The outcome depends on the pattern alone: `Ok` with
/// the compiled expression, or `Err` for a pattern that is invalid or compiles to more
/// than the size limit.
pub assume_specification[ Regex::new ](re: &str) -> (outcome: Result<Regex, regex::Error>)
    ensures
        outcome == compiled(re@),
;

/// A question for the prompter.
#[derive(Debug)]
pub struct TemplateSlots {
    /// The variable that the answer is for.
    pub var_name: String,
    /// The kind of answer that is asked for.
    pub var_info: VarInfo,
    /// The text that is shown.
    pub prompt: String,
}

/// The kind of answer that a prompt asks for.
#[derive(Debug)]
pub enum VarInfo {
    /// A boolean.
    Bool { default: Option<bool> },
    /// A string.
    String { entry: Box<StringEntry> },
}

/// How a string may be answered.
#[derive(Debug)]
pub struct StringEntry {
    /// The answer that stands where none is given.
    pub default: Option<String>,
    /// The only answers that are taken, if there is such a list.
    pub choices: Option<Vec<String>>,
    /// The pattern that an answer has to match, if there is one.
    pub regex: Option<Regex>,
}

/// The mathematical content of a [`VarInfo`].
#[allow(inconsistent_fields)]
pub enum InfoView {
    Bool { default: Option<bool> },
    String { default: Option<Seq<char>>, choices: Option<Seq<Seq<char>>>, regex: Option<Regex> },
}

/// The mathematical content of a [`TemplateSlots`].
pub struct SlotsView {
    pub var_name: Seq<char>,
    pub var_info: InfoView,
    pub prompt: Seq<char>,
}

impl View for VarInfo {
    type V = InfoView;

    open spec fn view(&self) -> InfoView {
        match self {
            VarInfo::Bool { default } => InfoView::Bool { default: *default },
            VarInfo::String { entry } => InfoView::String {
                default: match entry.default {
                    Some(text) => Some(text@),
                    None => None,
                },
                choices: match entry.choices {
                    Some(list) => Some(list@.map_values(|choice: String| choice@)),
                    None => None,
                },
                regex: entry.regex,
            },
        }
    }
}

impl View for TemplateSlots {
    type V = SlotsView;

    open spec fn view(&self) -> SlotsView {
        SlotsView { var_name: self.var_name@, var_info: self.var_info@, prompt: self.prompt@ }
    }
}

/// The question with the text `prompt` and the given kind of answer. It is for no
/// variable: its variable name is empty.
pub open spec fn question(prompt: Seq<char>, var_info: InfoView) -> SlotsView {
    SlotsView { var_name: Seq::empty(), var_info, prompt }
}

/// The question for a boolean, with its default.
pub fn bool_prompt(prompt: &str, default_value: bool) -> (slots: TemplateSlots)
    ensures
        slots@ == question(prompt@, InfoView::Bool { default: Some(default_value) }),
{
    TemplateSlots {
        prompt: String::from_str(prompt),
        var_name: String::new(),
        var_info: VarInfo::Bool { default: Some(default_value) },
    }
}

/// The question for a string, with nothing to go by.
pub fn string_prompt(prompt: &str) -> (slots: TemplateSlots)
    ensures
        slots@ == question(
            prompt@,
            InfoView::String { default: None, choices: None, regex: None },
        ),
{
    TemplateSlots {
        prompt: String::from_str(prompt),
        var_name: String::new(),
        var_info: VarInfo::String {
            entry: Box::new(StringEntry { default: None, choices: None, regex: None }),
        },
    }
}

/// The question for a string, with its default.
pub fn string_prompt_with_default(prompt: &str, default_value: &str) -> (slots: TemplateSlots)
    ensures
        slots@ == question(
            prompt@,
            InfoView::String { default: Some(default_value@), choices: None, regex: None },
        ),
{
    TemplateSlots {
        prompt: String::from_str(prompt),
        var_name: String::new(),
        var_info: VarInfo::String {
            entry: Box::new(
                StringEntry {
                    default: Some(String::from_str(default_value)),
                    choices: None,
                    regex: None,
                },
            ),
        },
    }
}

/// What a prompt with a validation pattern comes to, given what compiling the pattern
/// gave: the question that holds the compiled pattern, or the failure for a pattern that
/// did not compile.
pub open spec fn checked_question(
    prompt: Seq<char>,
    default_value: Seq<char>,
    pattern: Result<Regex, regex::Error>,
) -> Result<SlotsView, ErrorView> {
    match pattern {
        Ok(regex) => Ok(
            question(
                prompt,
                InfoView::String {
                    default: Some(default_value),
                    choices: None,
                    regex: Some(regex),
                },
            ),
        ),
        Err(_) => Err(ErrorView::InvalidRegex),
    }
}

/// The question for a string that has to match a pattern, from the pattern as it was
/// compiled. A pattern that did not compile gives the failure, and no question.
pub fn checked_prompt(
    prompt: &str,
    default_value: &str,
    pattern: Result<Regex, regex::Error>,
) -> (outcome: Result<TemplateSlots, VariableError>)
    ensures
        match checked_question(prompt@, default_value@, pattern) {
            Ok(slots) => outcome matches Ok(made) && made@ == slots,
            Err(error) => outcome matches Err(e) && e@ == error,
        },
{
    match pattern {
        Ok(regex) => Ok(
            TemplateSlots {
                prompt: String::from_str(prompt),
                var_name: String::new(),
                var_info: VarInfo::String {
                    entry: Box::new(
                        StringEntry {
                            default: Some(String::from_str(default_value)),
                            choices: None,
                            regex: Some(regex),
                        },
                    ),
                },
            },
        ),
        Err(_) => Err(VariableError::InvalidRegex),
    }
}

/// The question for a string that has to match the pattern `regex`.
///
/// The pattern is compiled first. Where it does not compile there is no question to ask,
/// and the failure says so.
pub fn string_prompt_with_regex(prompt: &str, default_value: &str, regex: &str) -> (outcome:
    Result<TemplateSlots, VariableError>)
    ensures
        match checked_question(prompt@, default_value@, compiled(regex@)) {
            Ok(slots) => outcome matches Ok(made) && made@ == slots,
            Err(error) => outcome matches Err(e) && e@ == error,
        },
{
    checked_prompt(prompt, default_value, Regex::new(regex))
}

/// The question for a string out of a list of choices.
pub fn string_prompt_with_choices(prompt: &str, default_value: &str, choices: Vec<String>) -> (slots:
    TemplateSlots)
    ensures
        slots@ == question(
            prompt@,
            InfoView::String {
                default: Some(default_value@),
                choices: Some(choices@.map_values(|choice: String| choice@)),
                regex: None,
            },
        ),
{
    TemplateSlots {
        prompt: String::from_str(prompt),
        var_name: String::new(),
        var_info: VarInfo::String {
            entry: Box::new(
                StringEntry {
                    default: Some(String::from_str(default_value)),
                    choices: Some(choices),
                    regex: None,
                },
            ),
        },
    }
}

/// The boolean that a text spells: `true`, `false`, or none.
pub open spec fn spelled_bool(text: Seq<char>) -> Option<bool> {
    if text == "true"@ {
        Some(true)
    } else if text == "false"@ {
        Some(false)
    } else {
        None
    }
}

/// What the script gets for a string prompt: the answer as it is, or the prompter's
/// failure with its message.
pub open spec fn string_replied(answer: Result<Seq<char>, Seq<char>>) -> Result<
    Seq<char>,
    ErrorView,
> {
    match answer {
        Ok(text) => Ok(text),
        Err(message) => Err(ErrorView::Prompt { message }),
    }
}

/// What the script gets for a boolean prompt: the boolean that the answer spells, the
/// failure for an answer that spells none, or the prompter's failure with its message.
pub open spec fn bool_replied(answer: Result<Seq<char>, Seq<char>>) -> Result<bool, ErrorView> {
    match answer {
        Ok(text) => match spelled_bool(text) {
            Some(flag) => Ok(flag),
            None => Err(ErrorView::UnparsableBool),
        },
        Err(message) => Err(ErrorView::Prompt { message }),
    }
}

/// The view of a prompter's outcome: the answer, or the message of its failure.
pub open spec fn outcome_view(answer: Result<String, String>) -> Result<Seq<char>, Seq<char>> {
    match answer {
        Ok(text) => Ok(text@),
        Err(message) => Err(message@),
    }
}

/// Turns the prompter's outcome for a string prompt into what the script gets.
pub fn string_reply(answer: Result<String, String>) -> (reply: Result<String, VariableError>)
    ensures
        match string_replied(outcome_view(answer)) {
            Ok(text) => reply matches Ok(given) && given@ == text,
            Err(error) => reply matches Err(e) && e@ == error,
        },
{
    match answer {
        Ok(text) => Ok(text),
        Err(message) => Err(VariableError::Prompt { message }),
    }
}

/// Turns the prompter's outcome for a boolean prompt into what the script gets.
pub fn bool_reply(answer: Result<String, String>) -> (reply: Result<bool, VariableError>)
    ensures
        match bool_replied(outcome_view(answer)) {
            Ok(flag) => reply == Ok::<bool, VariableError>(flag),
            Err(error) => reply matches Err(e) && e@ == error,
        },
{
    match answer {
        Ok(text) => {
            if text == String::from_str("true") {
                Ok(true)
            } else if text == String::from_str("false") {
                Ok(false)
            } else {
                Err(VariableError::UnparsableBool)
            }
        },
        Err(message) => Err(VariableError::Prompt { message }),
    }
}

} // verus!
