use hook_variables::error::VariableError;
use hook_variables::prompt::{
    bool_prompt, bool_reply, checked_prompt, string_prompt, string_prompt_with_choices,
    string_prompt_with_default, string_prompt_with_regex, string_reply, StringEntry, VarInfo,
};
use regex::Regex;

fn entry_of(info: VarInfo) -> StringEntry {
    match info {
        VarInfo::String { entry } => *entry,
        VarInfo::Bool { .. } => panic!("a string prompt was expected"),
    }
}

#[test]
fn invalid_pattern_fails_before_any_prompt() {
    let failed = string_prompt_with_regex("Pick", "y", "not a regex(");
    match failed {
        Err(e) => {
            assert_eq!(e, VariableError::InvalidRegex);
            assert_eq!(e.message(), "Invalid regex");
        }
        Ok(_) => panic!("the pattern should not compile"),
    }
}

#[test]
fn valid_pattern_is_compiled_into_the_question() {
    let slots = match string_prompt_with_regex("Pick", "y", "^[a-z]+$") {
        Ok(slots) => slots,
        Err(e) => panic!("unexpected failure: {}", e.message()),
    };
    assert_eq!(slots.prompt, "Pick");
    assert_eq!(slots.var_name, "");
    let entry = entry_of(slots.var_info);
    assert_eq!(entry.default, Some("y".to_string()));
    assert_eq!(entry.choices, None);
    let regex = entry.regex.unwrap();
    assert_eq!(regex.as_str(), "^[a-z]+$");
    assert!(regex.is_match("abc"));
    assert!(!regex.is_match("ABC"));
}

#[test]
fn oversized_pattern_is_invalid() {
    assert!(matches!(
        string_prompt_with_regex("Pick", "y", "\\w{1000}"),
        Err(VariableError::InvalidRegex)
    ));
}

#[test]
fn checked_prompt_follows_the_compilation() {
    let slots = match checked_prompt("Name", "n", Regex::new("a+")) {
        Ok(slots) => slots,
        Err(e) => panic!("unexpected failure: {}", e.message()),
    };
    assert_eq!(slots.prompt, "Name");
    assert_eq!(slots.var_name, "");
    let entry = entry_of(slots.var_info);
    assert_eq!(entry.default, Some("n".to_string()));
    assert_eq!(entry.regex.unwrap().as_str(), "a+");

    assert!(matches!(
        checked_prompt("Name", "n", Regex::new("(")),
        Err(VariableError::InvalidRegex)
    ));
}

#[test]
fn bool_prompt_carries_its_default() {
    for default in [true, false] {
        let slots = bool_prompt("Sure?", default);
        assert_eq!(slots.prompt, "Sure?");
        assert_eq!(slots.var_name, "");
        match slots.var_info {
            VarInfo::Bool { default: d } => assert_eq!(d, Some(default)),
            VarInfo::String { .. } => panic!("a bool prompt was expected"),
        }
    }
}

#[test]
fn bare_string_prompt_has_no_refinement() {
    let slots = string_prompt("Name?");
    assert_eq!(slots.prompt, "Name?");
    assert_eq!(slots.var_name, "");
    let entry = entry_of(slots.var_info);
    assert_eq!(entry.default, None);
    assert_eq!(entry.choices, None);
    assert!(entry.regex.is_none());
}

#[test]
fn string_prompt_carries_its_default() {
    let slots = string_prompt_with_default("Name?", "demo");
    assert_eq!(slots.prompt, "Name?");
    assert_eq!(slots.var_name, "");
    let entry = entry_of(slots.var_info);
    assert_eq!(entry.default, Some("demo".to_string()));
    assert_eq!(entry.choices, None);
    assert!(entry.regex.is_none());
}

#[test]
fn choices_are_kept_in_order() {
    let slots = string_prompt_with_choices(
        "Pick",
        "b",
        vec!["a".to_string(), "b".to_string(), "c".to_string()],
    );
    assert_eq!(slots.prompt, "Pick");
    assert_eq!(slots.var_name, "");
    let entry = entry_of(slots.var_info);
    assert_eq!(entry.default, Some("b".to_string()));
    assert_eq!(
        entry.choices,
        Some(vec!["a".to_string(), "b".to_string(), "c".to_string()])
    );
    assert!(entry.regex.is_none());
}

#[test]
fn bool_reply_parses_the_two_literals() {
    assert_eq!(bool_reply(Ok("true".to_string())), Ok(true));
    assert_eq!(bool_reply(Ok("false".to_string())), Ok(false));
}

#[test]
fn bool_reply_refuses_everything_else() {
    for answer in ["", "yes", "no", "True", "FALSE", " true", "true ", "1", "0", "t"] {
        let reply = bool_reply(Ok(answer.to_string()));
        assert_eq!(reply, Err(VariableError::UnparsableBool));
        assert_eq!(reply.unwrap_err().message(), "Unable to parse into bool");
        assert!(answer.parse::<bool>().is_err());
    }
}

#[test]
fn prompt_failure_is_passed_on_with_its_message() {
    let reply = bool_reply(Err("no terminal".to_string()));
    assert_eq!(
        reply,
        Err(VariableError::Prompt {
            message: "no terminal".to_string()
        })
    );
    assert_eq!(reply.unwrap_err().message(), "no terminal");

    assert_eq!(
        string_reply(Err("interrupted".to_string())),
        Err(VariableError::Prompt {
            message: "interrupted".to_string()
        })
    );
}

#[test]
fn string_reply_is_the_answer_unmodified() {
    for answer in ["", "x", " padded ", "true", "line\nbreak"] {
        assert_eq!(string_reply(Ok(answer.to_string())), Ok(answer.to_string()));
    }
}
