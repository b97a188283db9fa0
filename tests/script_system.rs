use koto_bevy::script_system::{parse_system_args, ScriptArg, SystemArgError};

fn function() -> ScriptArg {
    ScriptArg::Function { type_string: "Function".to_string() }
}

fn text(s: &str) -> ScriptArg {
    ScriptArg::Str(s.to_string())
}

#[test]
fn function_and_components_are_read() {
    let args = vec![function(), text("Name"), text("Health")];
    let sys = parse_system_args(&args).unwrap();
    assert_eq!(sys.fn_name, "Function");
    assert_eq!(sys.query_data_components, vec!["Name".to_string(), "Health".to_string()]);
}

#[test]
fn function_alone_has_no_components() {
    let args = vec![function()];
    let sys = parse_system_args(&args).unwrap();
    assert_eq!(sys.fn_name, "Function");
    assert!(sys.query_data_components.is_empty());
}

#[test]
fn no_arguments_is_refused() {
    let args: Vec<ScriptArg> = Vec::new();
    assert_eq!(parse_system_args(&args).unwrap_err(), SystemArgError::MissingFunction);
}

#[test]
fn first_argument_must_be_a_function() {
    let args = vec![text("Health"), function()];
    assert_eq!(parse_system_args(&args).unwrap_err(), SystemArgError::NotAFunction);
    let args = vec![ScriptArg::Other { type_string: "Number".to_string() }];
    assert_eq!(parse_system_args(&args).unwrap_err(), SystemArgError::NotAFunction);
}

#[test]
fn first_non_string_component_is_reported() {
    let args = vec![
        function(),
        text("Name"),
        ScriptArg::Other { type_string: "Number".to_string() },
        function(),
    ];
    assert_eq!(
        parse_system_args(&args).unwrap_err(),
        SystemArgError::NotAString { index: 2 }
    );
}
