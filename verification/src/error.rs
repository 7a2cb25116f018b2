//! Failures that the bindings report to a script.

use vstd::prelude::*;

verus! {

/// Why a binding call failed.
#[derive(Debug, PartialEq, Eq)]
pub enum VariableError {
    /// A string was written to a variable that holds another kind.
    NotAString { name: String },
    /// A boolean was written to a variable that holds another kind.
    NotABool { name: String },
    /// An array was written to a variable that already exists.
    NotAnArray { name: String },
    /// A script value of a kind that the template store cannot hold.
    UnsupportedType { type_label: String },
    /// The validation pattern of a prompt is not a valid regular expression.
    InvalidRegex,
    /// The answer to a boolean prompt is not a boolean literal.
    UnparsableBool,
    /// The prompt itself failed; the message is the prompter's own.
    Prompt { message: String },
}

/// The mathematical content of a [`VariableError`].
pub enum ErrorView {
    NotAString { name: Seq<char> },
    NotABool { name: Seq<char> },
    NotAnArray { name: Seq<char> },
    UnsupportedType { type_label: Seq<char> },
    InvalidRegex,
    UnparsableBool,
    Prompt { message: Seq<char> },
}

impl View for VariableError {
    type V = ErrorView;

    open spec fn view(&self) -> ErrorView {
        match self {
            VariableError::NotAString { name } => ErrorView::NotAString { name: name@ },
            VariableError::NotABool { name } => ErrorView::NotABool { name: name@ },
            VariableError::NotAnArray { name } => ErrorView::NotAnArray { name: name@ },
            VariableError::UnsupportedType { type_label } => ErrorView::UnsupportedType {
                type_label: type_label@,
            },
            VariableError::InvalidRegex => ErrorView::InvalidRegex,
            VariableError::UnparsableBool => ErrorView::UnparsableBool,
            VariableError::Prompt { message } => ErrorView::Prompt { message: message@ },
        }
    }
}

impl ErrorView {
    /// The text that a script sees for this failure.
    pub open spec fn message(self) -> Seq<char> {
        match self {
            ErrorView::NotAString { name } => "Variable "@ + name + " not a String"@,
            ErrorView::NotABool { name } => "Variable "@ + name + " not a bool"@,
            ErrorView::NotAnArray { name } => "Variable "@ + name + " not an array"@,
            ErrorView::UnsupportedType { type_label } =>
                "expecting type to be string, bool or array but found a '"@ + type_label
                    + "' instead"@,
            ErrorView::InvalidRegex => "Invalid regex"@,
            ErrorView::UnparsableBool => "Unable to parse into bool"@,
            ErrorView::Prompt { message } => message,
        }
    }
}

impl VariableError {
    /// The text that a script sees for this failure.
    pub fn message(&self) -> (text: String)
        ensures
            text@ == self@.message(),
    {
        match self {
            VariableError::NotAString { name } => String::from_str("Variable ").concat(
                name.as_str(),
            ).concat(" not a String"),
            VariableError::NotABool { name } => String::from_str("Variable ").concat(
                name.as_str(),
            ).concat(" not a bool"),
            VariableError::NotAnArray { name } => String::from_str("Variable ").concat(
                name.as_str(),
            ).concat(" not an array"),
            VariableError::UnsupportedType { type_label } => String::from_str(
                "expecting type to be string, bool or array but found a '",
            ).concat(type_label.as_str()).concat("' instead"),
            VariableError::InvalidRegex => String::from_str("Invalid regex"),
            VariableError::UnparsableBool => String::from_str("Unable to parse into bool"),
            VariableError::Prompt { message } => message.clone(),
        }
    }
}

} // verus!
