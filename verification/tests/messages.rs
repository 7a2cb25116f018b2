use hook_variables::error::VariableError;

#[test]
fn every_failure_has_its_text() {
    let name = "v".to_string();
    assert_eq!(
        VariableError::NotAString { name: name.clone() }.message(),
        "Variable v not a String"
    );
    assert_eq!(
        VariableError::NotABool { name: name.clone() }.message(),
        "Variable v not a bool"
    );
    assert_eq!(
        VariableError::NotAnArray { name }.message(),
        "Variable v not an array"
    );
    assert_eq!(
        VariableError::UnsupportedType {
            type_label: "i64".to_string()
        }
        .message(),
        "expecting type to be string, bool or array but found a 'i64' instead"
    );
    assert_eq!(VariableError::InvalidRegex.message(), "Invalid regex");
    assert_eq!(
        VariableError::UnparsableBool.message(),
        "Unable to parse into bool"
    );
    assert_eq!(
        VariableError::Prompt {
            message: "gone".to_string()
        }
        .message(),
        "gone"
    );
}

#[test]
fn name_is_embedded_as_it_is() {
    assert_eq!(
        VariableError::NotAString {
            name: "".to_string()
        }
        .message(),
        "Variable  not a String"
    );
    assert_eq!(
        VariableError::NotABool {
            name: "a b".to_string()
        }
        .message(),
        "Variable a b not a bool"
    );
}
