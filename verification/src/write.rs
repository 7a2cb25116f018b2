//! Writing a variable of the template store.
//!
//! A variable keeps its kind, which is that of a boolean, of a string or of an array: a
//! string is refused where a boolean or an array stands, and a boolean where a string or an
//! array stands. An array is taken only under a name that the store does not hold yet. A
//! refused write leaves the store as it was.

use crate::convert::{
    conversion, lemma_array_conversion_is_structural, rhai_to_liquid_value, stored_form, supported,
};
use crate::error::{ErrorView, VariableError};
use crate::read::{fetched, seen};
use crate::script::{lemma_array_view, ScriptValue, ScriptView};
use crate::value::{
    object_entries, object_get, object_insert, scalar_to_bool, value_as_scalar, value_from_bool,
    value_from_string, value_is_array, Entries, StoredView,
};
use liquid::Object;
use vstd::prelude::*;

verus! {

/// The kind of a variable.
#[derive(Debug, Clone, Copy, PartialEq, Eq, Structural)]
pub enum Kind {
    /// It holds a boolean scalar.
    Bool,
    /// It holds any other scalar, which stands for its display string.
    String,
    /// It holds an array.
    Array,
}

/// The kind of the variable `name`, or `None` where the store has no entry of that name or
/// one that is neither a scalar nor an array.
pub open spec fn kind(entries: Entries, name: Seq<char>) -> Option<Kind> {
    if entries.dom().contains(name) {
        match entries[name] {
            StoredView::Bool(_) => Some(Kind::Bool),
            StoredView::Text(_) => Some(Kind::String),
            StoredView::Array(_) => Some(Kind::Array),
            StoredView::Opaque => None,
        }
    } else {
        None
    }
}

/// What writing the string `value` to the variable `name` gives: the new entries where the
/// variable has no kind yet or that of a string, and the failure where it has that of a
/// boolean or of an array.
pub open spec fn string_written(
    entries: Entries,
    name: Seq<char>,
    value: Seq<char>,
) -> Result<Entries, ErrorView> {
    match kind(entries, name) {
        None | Some(Kind::String) => Ok(entries.insert(name, StoredView::Text(value))),
        Some(_) => Err(ErrorView::NotAString { name }),
    }
}

/// What writing the boolean `value` to the variable `name` gives: the new entries where the
/// variable has no kind yet or that of a boolean, and the failure where it has that of a
/// string or of an array.
pub open spec fn bool_written(
    entries: Entries,
    name: Seq<char>,
    value: bool,
) -> Result<Entries, ErrorView> {
    match kind(entries, name) {
        None | Some(Kind::Bool) => Ok(entries.insert(name, StoredView::Bool(value))),
        Some(_) => Err(ErrorView::NotABool { name }),
    }
}

/// What writing the array of `items` to the variable `name` gives: the failure where the
/// store has any entry of that name; else the failure of the conversion, if it fails; else
/// the new entries.
pub open spec fn array_written(
    entries: Entries,
    name: Seq<char>,
    items: Seq<ScriptView>,
) -> Result<Entries, ErrorView> {
    if entries.dom().contains(name) {
        Err(ErrorView::NotAnArray { name })
    } else {
        match conversion(ScriptView::Array(items)) {
            Ok(content) => Ok(entries.insert(name, content)),
            Err(error) => Err(error),
        }
    }
}

/// Finds the kind of the variable `name`. The store is left as it is.
pub fn kind_of(store: &Object, name: &str) -> (found: Option<Kind>)
    ensures
        found == kind(object_entries(*store), name@),
{
    match object_get(store, name) {
        Some(value) => {
            if value_is_array(value) {
                Some(Kind::Array)
            } else {
                match value_as_scalar(value) {
                    Some(scalar) => match scalar_to_bool(&scalar) {
                        Some(_) => Some(Kind::Bool),
                        None => Some(Kind::String),
                    },
                    None => None,
                }
            }
        },
        None => None,
    }
}

/// Writes a string to the variable `name`.
///
/// The string is stored where the variable has no kind yet or holds a string. Where it
/// holds a boolean or an array the write fails and the store is left as it was.
pub fn set_string(store: &mut Object, name: &str, value: &str) -> (outcome: Result<
    (),
    VariableError,
>)
    ensures
        match string_written(object_entries(*old(store)), name@, value@) {
            Ok(entries) => outcome is Ok && object_entries(*final(store)) == entries,
            Err(error) => outcome matches Err(e) && e@ == error && *final(store) == *old(store),
        },
{
    match kind_of(store, name) {
        None | Some(Kind::String) => {
            object_insert(store, name, value_from_string(String::from_str(value)));
            Ok(())
        },
        _ => Err(VariableError::NotAString { name: String::from_str(name) }),
    }
}

/// Writes a boolean to the variable `name`.
///
/// The boolean is stored where the variable has no kind yet or holds a boolean. Where it
/// holds a string or an array the write fails and the store is left as it was.
pub fn set_bool(store: &mut Object, name: &str, value: bool) -> (outcome: Result<
    (),
    VariableError,
>)
    ensures
        match bool_written(object_entries(*old(store)), name@, value) {
            Ok(entries) => outcome is Ok && object_entries(*final(store)) == entries,
            Err(error) => outcome matches Err(e) && e@ == error && *final(store) == *old(store),
        },
{
    match kind_of(store, name) {
        None | Some(Kind::Bool) => {
            object_insert(store, name, value_from_bool(value));
            Ok(())
        },
        _ => Err(VariableError::NotABool { name: String::from_str(name) }),
    }
}

/// Writes an array to the variable `name`.
///
/// The array is converted and stored where the store has no entry of that name. Where it
/// has one, of whatever kind, the write fails; it fails too where an item of the array is
/// of a kind that the store cannot hold. A failed write leaves the store as it was.
pub fn set_array(store: &mut Object, name: &str, value: Vec<ScriptValue>) -> (outcome: Result<
    (),
    VariableError,
>)
    ensures
        match array_written(
            object_entries(*old(store)),
            name@,
            value@.map_values(|item: ScriptValue| item@),
        ) {
            Ok(entries) => outcome is Ok && object_entries(*final(store)) == entries,
            Err(error) => outcome matches Err(e) && e@ == error && *final(store) == *old(store),
        },
{
    if object_get(store, name).is_some() {
        return Err(VariableError::NotAnArray { name: String::from_str(name) });
    }
    proof {
        lemma_array_view(value);
    }
    let array = ScriptValue::Array(value);
    match rhai_to_liquid_value(&array) {
        Ok(converted) => {
            object_insert(store, name, converted);
            Ok(())
        },
        Err(error) => Err(error),
    }
}

/// One write that a script may ask for.
pub enum Write {
    String { name: Seq<char>, text: Seq<char> },
    Bool { name: Seq<char>, flag: bool },
    Array { name: Seq<char>, items: Seq<ScriptView> },
}

impl Write {
    /// What this write gives on a store with the given entries.
    pub open spec fn outcome(self, entries: Entries) -> Result<Entries, ErrorView> {
        match self {
            Write::String { name, text } => string_written(entries, name, text),
            Write::Bool { name, flag } => bool_written(entries, name, flag),
            Write::Array { name, items } => array_written(entries, name, items),
        }
    }

    /// The entries after this write: the new ones where it succeeds, the old ones where it
    /// fails.
    pub open spec fn leaves(self, entries: Entries) -> Entries {
        match self.outcome(entries) {
            Ok(written) => written,
            Err(_) => entries,
        }
    }
}

/// The entries after a run of writes, made one after the other from first to last.
pub open spec fn replayed(entries: Entries, writes: Seq<Write>) -> Entries
    decreases writes.len(),
{
    if writes.len() == 0 {
        entries
    } else {
        writes.last().leaves(replayed(entries, writes.drop_last()))
    }
}

/// No run of writes takes a name out of the store, and none changes the kind of a variable
/// that has one. An array, once stored, stays as it is.
pub proof fn lemma_writes_keep_kind(entries: Entries, writes: Seq<Write>, name: Seq<char>)
    ensures
        entries.dom().contains(name) ==> replayed(entries, writes).dom().contains(name),
        kind(entries, name) is Some ==> kind(replayed(entries, writes), name) == kind(
            entries,
            name,
        ),
        kind(entries, name) == Some(Kind::Array) ==> replayed(entries, writes)[name]
            == entries[name],
    decreases writes.len(),
{
    if writes.len() > 0 {
        lemma_writes_keep_kind(entries, writes.drop_last(), name);
    }
}

/// A variable keeps the kind of a string. Once a string has been written to it, then after
/// any further writes a boolean or an array is refused there and leaves the store as it
/// is, and a string is taken and stands in place of the old one.
pub proof fn lemma_string_kind_is_stable(
    entries: Entries,
    name: Seq<char>,
    value: Seq<char>,
    writes: Seq<Write>,
    flag: bool,
    items: Seq<ScriptView>,
    again: Seq<char>,
)
    requires
        string_written(entries, name, value) is Ok,
    ensures
        ({
            let now = replayed(string_written(entries, name, value)->Ok_0, writes);
            &&& kind(now, name) == Some(Kind::String)
            &&& bool_written(now, name, flag) == Err::<Entries, _>(ErrorView::NotABool { name })
            &&& array_written(now, name, items) == Err::<Entries, _>(
                ErrorView::NotAnArray { name },
            )
            &&& Write::Bool { name, flag }.leaves(now) == now
            &&& Write::Array { name, items }.leaves(now) == now
            &&& string_written(now, name, again) == Ok::<_, ErrorView>(
                now.insert(name, StoredView::Text(again)),
            )
        }),
{
    lemma_writes_keep_kind(string_written(entries, name, value)->Ok_0, writes, name);
}

/// A variable keeps the kind of a boolean. Once a boolean has been written to it, then
/// after any further writes a string or an array is refused there and leaves the store as
/// it is, and a boolean is taken and stands in place of the old one.
pub proof fn lemma_bool_kind_is_stable(
    entries: Entries,
    name: Seq<char>,
    value: bool,
    writes: Seq<Write>,
    text: Seq<char>,
    items: Seq<ScriptView>,
    again: bool,
)
    requires
        bool_written(entries, name, value) is Ok,
    ensures
        ({
            let now = replayed(bool_written(entries, name, value)->Ok_0, writes);
            &&& kind(now, name) == Some(Kind::Bool)
            &&& string_written(now, name, text) == Err::<Entries, _>(
                ErrorView::NotAString { name },
            )
            &&& array_written(now, name, items) == Err::<Entries, _>(
                ErrorView::NotAnArray { name },
            )
            &&& Write::String { name, text }.leaves(now) == now
            &&& Write::Array { name, items }.leaves(now) == now
            &&& bool_written(now, name, again) == Ok::<_, ErrorView>(
                now.insert(name, StoredView::Bool(again)),
            )
        }),
{
    lemma_writes_keep_kind(bool_written(entries, name, value)->Ok_0, writes, name);
}

/// A variable keeps the kind of an array. Once an array has been written to it, then after
/// any further writes a string or a boolean is refused there with the failure that names
/// the variable, and so is another array; each leaves the store as it is, and the variable
/// still holds the array that was written first.
pub proof fn lemma_array_kind_is_stable(
    entries: Entries,
    name: Seq<char>,
    items: Seq<ScriptView>,
    writes: Seq<Write>,
    text: Seq<char>,
    flag: bool,
    again: Seq<ScriptView>,
)
    requires
        array_written(entries, name, items) is Ok,
    ensures
        ({
            let first = array_written(entries, name, items)->Ok_0;
            let now = replayed(first, writes);
            &&& kind(now, name) == Some(Kind::Array)
            &&& now[name] == stored_form(ScriptView::Array(items))
            &&& string_written(now, name, text) == Err::<Entries, _>(
                ErrorView::NotAString { name },
            )
            &&& bool_written(now, name, flag) == Err::<Entries, _>(ErrorView::NotABool { name })
            &&& array_written(now, name, again) == Err::<Entries, _>(
                ErrorView::NotAnArray { name },
            )
            &&& Write::String { name, text }.leaves(now) == now
            &&& Write::Bool { name, flag }.leaves(now) == now
            &&& Write::Array { name, items: again }.leaves(now) == now
        }),
{
    let first = array_written(entries, name, items)->Ok_0;
    lemma_array_conversion_is_structural(items);
    lemma_writes_keep_kind(first, writes, name);
}

/// An array is written once. One that the store can hold is taken exactly where the store
/// has no entry of the name, and any array is refused where it has one. Once an array has
/// been taken, every later array for that name is refused, whatever it holds and whatever
/// was written in between.
pub proof fn lemma_array_write_once(
    entries: Entries,
    name: Seq<char>,
    items: Seq<ScriptView>,
    writes: Seq<Write>,
    again: Seq<ScriptView>,
)
    ensures
        supported(ScriptView::Array(items)) ==> (array_written(entries, name, items) is Ok
            <==> !entries.dom().contains(name)),
        entries.dom().contains(name) ==> array_written(entries, name, items) == Err::<
            Entries,
            _,
        >(ErrorView::NotAnArray { name }),
        array_written(entries, name, items) matches Ok(first) ==> array_written(
            replayed(first, writes),
            name,
            again,
        ) == Err::<Entries, _>(ErrorView::NotAnArray { name }),
{
    if array_written(entries, name, items) is Ok {
        lemma_writes_keep_kind(array_written(entries, name, items)->Ok_0, writes, name);
    }
}

/// A boolean that was written is the boolean that is read: after the write the variable
/// is set, and reads as that boolean.
pub proof fn lemma_bool_round_trip(entries: Entries, name: Seq<char>, flag: bool)
    requires
        bool_written(entries, name, flag) is Ok,
    ensures
        seen(bool_written(entries, name, flag)->Ok_0, name),
        fetched(bool_written(entries, name, flag)->Ok_0, name) == ScriptView::Bool(flag),
{
}

/// A string that was written is the string that is read: after the write the variable is
/// set, and reads as that string.
pub proof fn lemma_string_round_trip(entries: Entries, name: Seq<char>, text: Seq<char>)
    requires
        string_written(entries, name, text) is Ok,
    ensures
        seen(string_written(entries, name, text)->Ok_0, name),
        fetched(string_written(entries, name, text)->Ok_0, name) == ScriptView::Str(text),
{
}

} // verus!
