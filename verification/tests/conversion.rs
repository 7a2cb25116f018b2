use hook_variables::convert::rhai_to_liquid_value;
use hook_variables::error::VariableError;
use hook_variables::script::ScriptValue;
use liquid_core::Value;

/// The structure of a value, exactly: `==` on template values is looser (every scalar
/// equals the boolean `true`).
fn shape<T: std::fmt::Debug>(value: T) -> String {
    format!("{:?}", value)
}

fn text(s: &str) -> ScriptValue {
    ScriptValue::Str(s.to_string())
}

fn other(s: &str) -> ScriptValue {
    ScriptValue::Other(s.to_string())
}

#[test]
fn bool_becomes_a_bool_scalar() {
    assert_eq!(
        shape(rhai_to_liquid_value(&ScriptValue::Bool(true))),
        "Ok(Scalar(Bool(true)))"
    );
    assert_eq!(
        shape(rhai_to_liquid_value(&ScriptValue::Bool(false))),
        "Ok(Scalar(Bool(false)))"
    );
    assert_eq!(
        rhai_to_liquid_value(&ScriptValue::Bool(false)),
        Ok(Value::scalar(false))
    );
}

#[test]
fn string_becomes_a_string_scalar() {
    assert_eq!(rhai_to_liquid_value(&text("abc")), Ok(Value::scalar("abc")));
    assert_eq!(
        shape(rhai_to_liquid_value(&text("abc"))),
        "Ok(Scalar(Str(\"abc\")))"
    );
    assert_eq!(shape(rhai_to_liquid_value(&text(""))), "Ok(Scalar(Str(\"\")))");
    assert_eq!(
        shape(rhai_to_liquid_value(&text("true"))),
        "Ok(Scalar(Str(\"true\")))"
    );
}

#[test]
fn nested_array_mirrors_the_input() {
    let input = ScriptValue::Array(vec![
        text("a"),
        ScriptValue::Array(vec![text("b"), text("c")]),
    ]);
    let expected = Value::Array(vec![
        Value::scalar("a"),
        Value::Array(vec![Value::scalar("b"), Value::scalar("c")]),
    ]);
    let converted = rhai_to_liquid_value(&input).unwrap();
    assert_eq!(converted, expected);
    assert_eq!(shape(&converted), shape(&expected));
    assert_eq!(
        shape(&converted),
        "Array([Scalar(Str(\"a\")), Array([Scalar(Str(\"b\")), Scalar(Str(\"c\"))])])"
    );
}

#[test]
fn array_order_is_kept() {
    let input = ScriptValue::Array(vec![text("1"), text("2"), text("3"), ScriptValue::Bool(true)]);
    let converted = rhai_to_liquid_value(&input).unwrap();
    let items = converted.into_array().unwrap();
    assert_eq!(items.len(), 4);
    assert_eq!(shape(&items[0]), shape(Value::scalar("1")));
    assert_eq!(shape(&items[1]), shape(Value::scalar("2")));
    assert_eq!(shape(&items[2]), shape(Value::scalar("3")));
    assert_eq!(shape(&items[3]), shape(Value::scalar(true)));
}

#[test]
fn deep_nesting_is_converted() {
    let mut input = text("leaf");
    let mut expected = Value::scalar("leaf");
    for _ in 0..50 {
        input = ScriptValue::Array(vec![input]);
        expected = Value::Array(vec![expected]);
    }
    assert_eq!(shape(rhai_to_liquid_value(&input)), shape(Ok::<Value, VariableError>(expected)));
}

#[test]
fn empty_array_is_converted() {
    assert_eq!(
        shape(rhai_to_liquid_value(&ScriptValue::Array(vec![]))),
        "Ok(Array([]))"
    );
}

#[test]
fn other_kind_fails_with_its_type() {
    let failed = rhai_to_liquid_value(&other("i64"));
    assert_eq!(
        failed,
        Err(VariableError::UnsupportedType {
            type_label: "i64".to_string()
        })
    );
    assert_eq!(
        failed.unwrap_err().message(),
        "expecting type to be string, bool or array but found a 'i64' instead"
    );
}

#[test]
fn other_kind_inside_an_array_fails() {
    let input = ScriptValue::Array(vec![
        text("a"),
        ScriptValue::Array(vec![ScriptValue::Bool(true), other("f64")]),
    ]);
    assert_eq!(
        rhai_to_liquid_value(&input),
        Err(VariableError::UnsupportedType {
            type_label: "f64".to_string()
        })
    );
}

#[test]
fn first_failing_item_is_named() {
    let input = ScriptValue::Array(vec![text("a"), other("i64"), other("char")]);
    assert_eq!(
        rhai_to_liquid_value(&input),
        Err(VariableError::UnsupportedType {
            type_label: "i64".to_string()
        })
    );

    let nested = ScriptValue::Array(vec![
        ScriptValue::Array(vec![text("a"), other("map")]),
        other("()"),
    ]);
    assert_eq!(
        rhai_to_liquid_value(&nested),
        Err(VariableError::UnsupportedType {
            type_label: "map".to_string()
        })
    );
}

#[test]
fn readings_are_taken_in_order() {
    assert_eq!(
        ScriptValue::from_readings(Some(true), Some("s".to_string()), Some(vec![]), "bool"),
        ScriptValue::Bool(true)
    );
    assert_eq!(
        ScriptValue::from_readings(None, Some("s".to_string()), Some(vec![]), "string"),
        text("s")
    );
    assert_eq!(
        ScriptValue::from_readings(None, None, Some(vec![text("a")]), "array"),
        ScriptValue::Array(vec![text("a")])
    );
    assert_eq!(
        ScriptValue::from_readings(None, None, None, "i64"),
        other("i64")
    );
}
