//! Conversion of script values into values of the template store.

use crate::error::{ErrorView, VariableError};
use crate::script::{lemma_array_view, ScriptValue, ScriptView};
use crate::value::{
    value_content, value_from_array, value_from_bool, value_from_string, StoredView,
};
use liquid_core::Value;
use vstd::prelude::*;

verus! {

/// Whether the template store can hold `v`: it is built from booleans, strings and arrays
/// of such values only.
pub open spec fn supported(v: ScriptView) -> bool
    decreases v,
{
    match v {
        ScriptView::Bool(_) => true,
        ScriptView::Str(_) => true,
        ScriptView::Array(items) => forall|i: int|
            0 <= i < items.len() ==> supported(#[trigger] items[i]),
        ScriptView::Other(_) => false,
    }
}

/// The stored value with the shape of `v`: scalar for scalar, and array for array with the
/// items in the same order.
pub open spec fn stored_form(v: ScriptView) -> StoredView
    decreases v,
{
    match v {
        ScriptView::Bool(b) => StoredView::Bool(b),
        ScriptView::Str(s) => StoredView::Text(s),
        ScriptView::Array(items) => StoredView::Array(
            Seq::new(
                items.len(),
                |i: int|
                    if 0 <= i < items.len() {
                        stored_form(items[i])
                    } else {
                        arbitrary()
                    },
            ),
        ),
        ScriptView::Other(_) => StoredView::Opaque,
    }
}

/// The position of the first item that the store cannot hold.
pub open spec fn first_unsupported(items: Seq<ScriptView>) -> int {
    choose|i: int|
        0 <= i < items.len() && !supported(#[trigger] items[i]) && forall|j: int|
            0 <= j < i ==> supported(#[trigger] items[j])
}

/// The type name of the first value inside `v`, in reading order, that the store cannot
/// hold.
pub open spec fn offending_type(v: ScriptView) -> Seq<char>
    decreases v,
{
    match v {
        ScriptView::Other(type_label) => type_label,
        ScriptView::Array(items) => {
            let k = first_unsupported(items);
            if 0 <= k < items.len() {
                offending_type(items[k])
            } else {
                Seq::empty()
            }
        },
        _ => Seq::empty(),
    }
}

/// What converting `v` gives: its stored form, or the failure that names the offending type.
pub open spec fn conversion(v: ScriptView) -> Result<StoredView, ErrorView> {
    if supported(v) {
        Ok(stored_form(v))
    } else {
        Err(ErrorView::UnsupportedType { type_label: offending_type(v) })
    }
}

/// Conversion is structural. An array can be held exactly when each of its items can, and
/// its stored form is an array of the same length whose items are the stored forms of its
/// items, in the same order.
pub proof fn lemma_array_conversion_is_structural(items: Seq<ScriptView>)
    ensures
        supported(ScriptView::Array(items)) <==> forall|i: int|
            0 <= i < items.len() ==> supported(#[trigger] items[i]),
        stored_form(ScriptView::Array(items)) is Array,
        stored_form(ScriptView::Array(items))->Array_0.len() == items.len(),
        forall|i: int|
            0 <= i < items.len() ==> stored_form(ScriptView::Array(items))->Array_0[i]
                == stored_form(#[trigger] items[i]),
{
    assert(ScriptView::Array(items)->Array_0 == items);
}

/// Conversion succeeds on the values that are built from booleans, strings and arrays of
/// such values, and on no others: a value of another kind fails, and so does an array that
/// holds a value that fails.
pub proof fn lemma_conversion_succeeds_iff_supported(v: ScriptView)
    ensures
        conversion(v) is Ok <==> supported(v),
        v is Bool || v is Str ==> supported(v),
        v is Other ==> !supported(v),
        v matches ScriptView::Array(items) ==> (supported(v) <==> forall|i: int|
            0 <= i < items.len() ==> supported(#[trigger] items[i])),
{
    if v is Array {
        assert(ScriptView::Array(v->Array_0)->Array_0 == v->Array_0);
    }
}

/// The failure of an array names the type that the failure of its first failing item
/// names.
pub proof fn lemma_first_unsupported_item_is_named(items: Seq<ScriptView>, at: int)
    requires
        0 <= at < items.len(),
        !supported(items[at]),
        forall|j: int| 0 <= j < at ==> supported(#[trigger] items[j]),
    ensures
        !supported(ScriptView::Array(items)),
        first_unsupported(items) == at,
        offending_type(ScriptView::Array(items)) == offending_type(items[at]),
{
    assert(ScriptView::Array(items)->Array_0 == items);
    let k = first_unsupported(items);
    assert(0 <= k < items.len() && !supported(items[k]) && forall|j: int|
        0 <= j < k ==> supported(#[trigger] items[j]));
    if k < at {
        assert(supported(items[k]));
    }
    if at < k {
        assert(supported(items[at]));
    }
}

/// Converts a script value into a value of the template store.
///
/// A boolean or a string becomes a scalar. An array becomes an array of the converted
/// items, in the same order. Any other value makes the whole conversion fail, and the
/// failure names the type of the first such value met.
pub fn rhai_to_liquid_value(val: &ScriptValue) -> (converted: Result<Value, VariableError>)
    ensures
        match conversion(val@) {
            Ok(content) => converted matches Ok(value) && value_content(value) == content,
            Err(error) => converted matches Err(e) && e@ == error,
        },
    decreases val,
{
    match val {
        ScriptValue::Bool(b) => Ok(value_from_bool(*b)),
        ScriptValue::Str(s) => Ok(value_from_string(s.clone())),
        ScriptValue::Array(items) => {
            let ghost shapes = items@.map_values(|v: ScriptValue| v@);
            proof {
                lemma_array_view(*items);
            }
            let mut values: Vec<Value> = Vec::new();
            let mut i: usize = 0;
            while i < items.len()
                invariant
                    val == ScriptValue::Array(*items),
                    val@ == ScriptView::Array(shapes),
                    shapes.len() == items.len(),
                    forall|j: int| 0 <= j < items.len() ==> shapes[j] == #[trigger] items[j]@,
                    i <= items.len(),
                    values.len() == i,
                    forall|j: int|
                        0 <= j < i ==> supported(#[trigger] shapes[j]) && value_content(values[j])
                            == stored_form(shapes[j]),
                decreases items.len() - i,
            {
                match rhai_to_liquid_value(&items[i]) {
                    Ok(value) => {
                        values.push(value);
                    },
                    Err(e) => {
                        proof {
                            lemma_first_unsupported_item_is_named(shapes, i as int);
                        }
                        return Err(e);
                    },
                }
                i += 1;
            }
            let value = value_from_array(values);
            proof {
                lemma_array_conversion_is_structural(shapes);
                assert(values@.map_values(|item: Value| value_content(item)) =~= stored_form(
                    val@,
                )->Array_0);
            }
            Ok(value)
        },
        ScriptValue::Other(type_label) => Err(
            VariableError::UnsupportedType { type_label: type_label.clone() },
        ),
    }
}

} // verus!
