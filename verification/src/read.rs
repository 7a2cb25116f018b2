//! Reading a variable of the template store.

use crate::script::{ScriptValue, ScriptView};
use crate::value::{
    object_entries, object_get, scalar_to_bool, scalar_to_kstr, value_as_scalar, Entries,
    StoredView,
};
use liquid::Object;
use vstd::prelude::*;

verus! {

/// What reading a variable by its name finds.
#[derive(Debug, PartialEq, Eq)]
pub enum NamedValue {
    /// No entry of that name, or one that is not a scalar.
    NonExistant,
    /// A boolean scalar.
    Bool(bool),
    /// Any other scalar, by its display string.
    String(String),
}

/// The mathematical content of a [`NamedValue`].
pub enum NamedView {
    NonExistant,
    Bool(bool),
    String(Seq<char>),
}

impl View for NamedValue {
    type V = NamedView;

    open spec fn view(&self) -> NamedView {
        match self {
            NamedValue::NonExistant => NamedView::NonExistant,
            NamedValue::Bool(flag) => NamedView::Bool(*flag),
            NamedValue::String(text) => NamedView::String(text@),
        }
    }
}

/// How the entry under `name` reads: a boolean scalar as that boolean, any other scalar as
/// its display string, and everything else (no entry, an array, an object) as not existing.
/// An array cannot be read, but it keeps its name: no write takes its place.
pub open spec fn named(entries: Entries, name: Seq<char>) -> NamedView {
    if entries.dom().contains(name) {
        match entries[name] {
            StoredView::Bool(flag) => NamedView::Bool(flag),
            StoredView::Text(text) => NamedView::String(text),
            _ => NamedView::NonExistant,
        }
    } else {
        NamedView::NonExistant
    }
}

/// Whether a script sees the variable `name` as set.
pub open spec fn seen(entries: Entries, name: Seq<char>) -> bool {
    !(named(entries, name) is NonExistant)
}

/// What a script gets when it reads the variable `name`: the boolean or the string that
/// the variable reads as, and the empty string where it reads as not existing.
pub open spec fn fetched(entries: Entries, name: Seq<char>) -> ScriptView {
    match named(entries, name) {
        NamedView::NonExistant => ScriptView::Str(Seq::empty()),
        NamedView::Bool(flag) => ScriptView::Bool(flag),
        NamedView::String(text) => ScriptView::Str(text),
    }
}

/// Reads the variable `name` and tells a boolean from a string-like scalar.
///
/// The store is left as it is, and the reading never fails: a name without an entry and
/// an entry that is not a scalar both read as [`NamedValue::NonExistant`].
pub fn get_value(store: &Object, name: &str) -> (found: NamedValue)
    ensures
        found@ == named(object_entries(*store), name@),
{
    match object_get(store, name) {
        Some(value) => match value_as_scalar(value) {
            Some(scalar) => match scalar_to_bool(&scalar) {
                Some(flag) => NamedValue::Bool(flag),
                None => NamedValue::String(scalar_to_kstr(&scalar)),
            },
            None => NamedValue::NonExistant,
        },
        None => NamedValue::NonExistant,
    }
}

/// Whether the variable `name` reads as a boolean or a string.
pub fn is_set(store: &Object, name: &str) -> (set: bool)
    ensures
        set == seen(object_entries(*store), name@),
{
    match get_value(store, name) {
        NamedValue::NonExistant => false,
        _ => true,
    }
}

/// The value of the variable `name` for a script: its boolean, its string, or the empty
/// string where the variable reads as not existing.
pub fn get(store: &Object, name: &str) -> (value: ScriptValue)
    ensures
        value@ == fetched(object_entries(*store), name@),
{
    match get_value(store, name) {
        NamedValue::NonExistant => ScriptValue::Str(String::new()),
        NamedValue::Bool(flag) => ScriptValue::Bool(flag),
        NamedValue::String(text) => ScriptValue::Str(text),
    }
}

/// A name without an entry is not set, and reads as the empty string.
pub proof fn lemma_absent_reads_empty(entries: Entries, name: Seq<char>)
    requires
        !entries.dom().contains(name),
    ensures
        !seen(entries, name),
        fetched(entries, name) == ScriptView::Str(Seq::empty()),
{
}

} // verus!
