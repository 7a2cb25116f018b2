//! Values of the template variable store, as `liquid` holds them.
//!
//! Verus does not look inside a `liquid` value or object. What one holds is given a name
//! here, and the functions below are the only ones that make or read them; the contract of
//! each is taken from the source of `liquid-core` and believed without proof.

use liquid::model::ScalarCow;
use liquid::{Object, ValueView};
use liquid_core::Value;
use vstd::prelude::*;

verus! {

/// What a value of the template store holds.
pub enum StoredView {
    /// A boolean scalar.
    Bool(bool),
    /// Any other scalar, by its display string.
    Text(Seq<char>),
    /// An ordered array of values.
    Array(Seq<StoredView>),
    /// Anything that is neither a scalar nor an array.
    Opaque,
}

/// `liquid::Object`, the store of the template variables.
#[verifier::external_type_specification]
#[verifier::external_body]
pub struct ExObject(Object);

/// `liquid_core::Value`, a value of the store.
#[verifier::external_type_specification]
#[verifier::external_body]
pub struct ExValue(Value);

/// `liquid::model::ScalarCow`, a scalar value, owned or borrowed.
#[verifier::external_type_specification]
#[verifier::external_body]
pub struct ExScalarCow<'s>(ScalarCow<'s>);

/// The entries of a store, as a map from each variable name to what is held under it.
pub type Entries = Map<Seq<char>, StoredView>;

/// The entries of a store: what it holds under each variable name.
pub uninterp spec fn object_entries(store: Object) -> Entries;

/// What a template value holds.
pub uninterp spec fn value_content(value: Value) -> StoredView;

/// What a scalar holds: a boolean, or the display string of another scalar.
pub uninterp spec fn scalar_content(scalar: ScalarCow<'_>) -> StoredView;

/// `Object::get`: a reference to the value stored under `name`, or `None` when the store
/// has no entry of that name. The store is not changed.
#[verifier::external_body]
pub(crate) fn object_get<'a>(store: &'a Object, name: &str) -> (found: Option<&'a Value>)
    ensures
        found is Some <==> object_entries(*store).dom().contains(name@),
        found matches Some(value) ==> value_content(*value) == object_entries(*store)[name@],
{
    store.get(name)
}

/// `Object::insert`: puts `value` under `name`, in place of what was there, and leaves
/// every other entry as it was.
#[verifier::external_body]
pub(crate) fn object_insert(store: &mut Object, name: &str, value: Value)
    ensures
        object_entries(*final(store)) == object_entries(*old(store)).insert(
            name@,
            value_content(value),
        ),
{
    store.insert(name.to_string().into(), value);
}

/// `ValueView::as_scalar` on a value: the scalar that the value is, borrowed, or `None`
/// for a value that is no scalar.
#[verifier::external_body]
pub(crate) fn value_as_scalar<'a>(value: &'a Value) -> (scalar: Option<ScalarCow<'a>>)
    ensures
        match value_content(*value) {
            StoredView::Bool(_) | StoredView::Text(_) => scalar matches Some(inner)
                && scalar_content(inner) == value_content(*value),
            _ => scalar is None,
        },
{
    value.as_scalar()
}

/// `ValueView::is_array` on a value: whether the value is an array.
#[verifier::external_body]
pub(crate) fn value_is_array(value: &Value) -> (is_array: bool)
    ensures
        is_array == value_content(*value) is Array,
{
    value.is_array()
}

/// `ScalarCow::to_bool`: the boolean of a boolean scalar, and `None` for every other
/// scalar; a string is not parsed.
#[verifier::external_body]
pub(crate) fn scalar_to_bool(scalar: &ScalarCow<'_>) -> (flag: Option<bool>)
    ensures
        flag == match scalar_content(*scalar) {
            StoredView::Bool(b) => Some(b),
            _ => None,
        },
{
    scalar.to_bool()
}

/// `ValueView::to_kstr` on a scalar: its display string, which for a string scalar is the
/// string itself.
#[verifier::external_body]
pub(crate) fn scalar_to_kstr(scalar: &ScalarCow<'_>) -> (shown: String)
    ensures
        scalar_content(*scalar) matches StoredView::Text(text) ==> shown@ == text,
{
    scalar.to_kstr().into_string()
}

/// `Value::scalar` of a boolean: the boolean scalar.
#[verifier::external_body]
pub(crate) fn value_from_bool(flag: bool) -> (value: Value)
    ensures
        value_content(value) == StoredView::Bool(flag),
{
    Value::scalar(flag)
}

/// `Value::scalar` of a string: the string scalar, which is no boolean and whose display
/// string is the string itself.
#[verifier::external_body]
pub(crate) fn value_from_string(text: String) -> (value: Value)
    ensures
        value_content(value) == StoredView::Text(text@),
{
    Value::scalar(text)
}

/// `Value::array`: the array of the given values, in their order.
#[verifier::external_body]
pub(crate) fn value_from_array(items: Vec<Value>) -> (value: Value)
    ensures
        value_content(value) == StoredView::Array(
            items@.map_values(|item: Value| value_content(item)),
        ),
{
    Value::array(items)
}

} // verus!
