//! Values as a hook script hands them over.

use vstd::prelude::*;

verus! {

/// A value of the scripting runtime.
#[derive(Debug, PartialEq, Eq)]
pub enum ScriptValue {
    /// A boolean.
    Bool(bool),
    /// A string.
    Str(String),
    /// An array of values, in order.
    Array(Vec<ScriptValue>),
    /// A value of any other kind, by the name of its type.
    Other(String),
}

/// The mathematical content of a [`ScriptValue`].
pub enum ScriptView {
    Bool(bool),
    Str(Seq<char>),
    Array(Seq<ScriptView>),
    Other(Seq<char>),
}

impl View for ScriptValue {
    type V = ScriptView;

    open spec fn view(&self) -> ScriptView
        decreases self,
    {
        match self {
            ScriptValue::Bool(b) => ScriptView::Bool(*b),
            ScriptValue::Str(s) => ScriptView::Str(s@),
            ScriptValue::Array(items) => ScriptView::Array(
                Seq::new(
                    items.len() as nat,
                    |i: int|
                        if 0 <= i < items.len() {
                            items[i]@
                        } else {
                            arbitrary()
                        },
                ),
            ),
            ScriptValue::Other(type_label) => ScriptView::Other(type_label@),
        }
    }
}

/// The value that readings of a dynamic value describe. The reading as a boolean goes
/// before the reading as a string, and that before the reading as an array; a value with
/// none of the three is of another kind, known by the name of its type.
pub open spec fn described(
    as_bool: Option<bool>,
    as_string: Option<Seq<char>>,
    as_array: Option<Seq<ScriptView>>,
    type_label: Seq<char>,
) -> ScriptView {
    match as_bool {
        Some(flag) => ScriptView::Bool(flag),
        None => match as_string {
            Some(text) => ScriptView::Str(text),
            None => match as_array {
                Some(items) => ScriptView::Array(items),
                None => ScriptView::Other(type_label),
            },
        },
    }
}

impl ScriptValue {
    /// The script value for a dynamic value of the scripting runtime, from what reading it
    /// as a boolean, as a string and as an array gave, and from the name of its type.
    pub fn from_readings(
        as_bool: Option<bool>,
        as_string: Option<String>,
        as_array: Option<Vec<ScriptValue>>,
        type_label: &str,
    ) -> (value: ScriptValue)
        ensures
            value@ == described(
                as_bool,
                match as_string {
                    Some(text) => Some(text@),
                    None => None,
                },
                match as_array {
                    Some(items) => Some(items@.map_values(|item: ScriptValue| item@)),
                    None => None,
                },
                type_label@,
            ),
    {
        match as_bool {
            Some(flag) => ScriptValue::Bool(flag),
            None => match as_string {
                Some(text) => ScriptValue::Str(text),
                None => match as_array {
                    Some(items) => {
                        proof {
                            lemma_array_view(items);
                        }
                        ScriptValue::Array(items)
                    },
                    None => ScriptValue::Other(String::from_str(type_label)),
                },
            },
        }
    }
}

/// The view of an array is the sequence of its items' views.
pub proof fn lemma_array_view(items: Vec<ScriptValue>)
    ensures
        ScriptValue::Array(items)@ == ScriptView::Array(items@.map_values(|v: ScriptValue| v@)),
{
    reveal_with_fuel(<ScriptValue as View>::view, 2);
    let shapes = ScriptValue::Array(items)@->Array_0;
    assert(shapes =~= items@.map_values(|v: ScriptValue| v@));
}

} // verus!
