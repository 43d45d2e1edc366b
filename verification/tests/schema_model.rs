use service_schema::kind::{at_most_signed, at_most_unsigned, contains_text, same_texts};
use service_schema::{
    Action, FieldValue, Output, Parameter, ParameterType, ServiceMeta, ValidationError,
};

fn action(name: &str, description: &str) -> Action {
    Action {
        action_name: name.to_string(),
        description: description.to_string(),
        parameters: vec![],
        outputs: vec![],
    }
}

fn schema(actions: Vec<Action>) -> ServiceMeta {
    ServiceMeta { service_name: "s".to_string(), description: "d".to_string(), actions }
}

fn strings(values: &[&str]) -> Vec<String> {
    values.iter().map(|v| v.to_string()).collect()
}

#[test]
fn lookup_returns_the_action_of_that_name() {
    let service = schema(vec![action("a", "1"), action("b", "2"), action("c", "3")]);
    for declared in service.actions.iter() {
        assert_eq!(service.find_action(&declared.action_name), Some(declared));
    }
    assert_eq!(service.find_action("d"), None);
    assert_eq!(service.find_action("A"), None);
    assert_eq!(service.find_action(""), None);
    assert_eq!(service.find_action("a "), None);
}

#[test]
fn lookup_takes_the_first_of_a_repeated_name() {
    let service = schema(vec![action("a", "first"), action("b", "x"), action("a", "second")]);
    assert_eq!(service.find_action("a").unwrap().description, "first");
    assert_eq!(service.find_action("b").unwrap().description, "x");
}

#[test]
fn lookup_in_an_empty_schema() {
    assert_eq!(ServiceMeta::default().find_action("a"), None);
}

#[test]
fn default_schema_is_empty() {
    let empty = ServiceMeta::default();
    assert_eq!(empty.service_name, "");
    assert_eq!(empty.description, "");
    assert!(empty.actions.is_empty());
}

#[test]
fn mock_is_the_sample_schema() {
    let expected = ServiceMeta {
        service_name: "service_1".to_string(),
        description: "a test service".to_string(),
        actions: vec![Action {
            action_name: "action_1".to_string(),
            description: "action 1 does something".to_string(),
            parameters: vec![
                Parameter {
                    param_name: "a_number_1".to_string(),
                    description: "this number can be only positive and is required!"
                        .to_string(),
                    type_: ParameterType::Uint32,
                    required: true,
                    default: None,
                },
                Parameter {
                    param_name: "a_number_2".to_string(),
                    description: "this number can be positive and negative and is not required"
                        .to_string(),
                    type_: ParameterType::Int32,
                    required: false,
                    default: Some("0".to_string()),
                },
            ],
            outputs: vec![Output {
                param_name: "message".to_string(),
                description: "a message of success or failure".to_string(),
                type_: ParameterType::Enum(vec!["ENUM_1".to_string(), "ENUM_2".to_string()]),
            }],
        }],
    };
    assert_eq!(ServiceMeta::mock(), expected);
}

#[test]
fn kinds_compare_structurally() {
    assert_eq!(ParameterType::Bool, ParameterType::Bool);
    assert_ne!(ParameterType::Float, ParameterType::Double);
    assert_ne!(ParameterType::Int64, ParameterType::Uint64);
    assert_ne!(ParameterType::String, ParameterType::Enum(vec![]));
    assert_eq!(ParameterType::Enum(strings(&["A", "B"])), ParameterType::Enum(strings(&["A", "B"])));
    assert_ne!(ParameterType::Enum(strings(&["A", "B"])), ParameterType::Enum(strings(&["B", "A"])));
    assert_ne!(ParameterType::Enum(strings(&["A", "B"])), ParameterType::Enum(strings(&["A"])));
    assert_ne!(ParameterType::Enum(strings(&["A"])), ParameterType::Enum(strings(&["a"])));
    assert_eq!(ParameterType::Enum(vec![]), ParameterType::Enum(vec![]));
}

#[test]
fn schema_values_compare_by_every_field() {
    let base = ServiceMeta::mock();
    assert_eq!(base, base.clone());

    let mut other = base.clone();
    other.service_name.push('x');
    assert_ne!(base, other);

    let mut other = base.clone();
    other.description.clear();
    assert_ne!(base, other);

    let mut other = base.clone();
    other.actions[0].action_name = "action_2".to_string();
    assert_ne!(base, other);

    let mut other = base.clone();
    other.actions[0].parameters[0].required = false;
    assert_ne!(base, other);

    let mut other = base.clone();
    other.actions[0].parameters[1].default = None;
    assert_ne!(base, other);

    let mut other = base.clone();
    other.actions[0].parameters[1].default = Some("1".to_string());
    assert_ne!(base, other);

    let mut other = base.clone();
    other.actions[0].parameters[0].type_ = ParameterType::Uint16;
    assert_ne!(base, other);

    let mut other = base.clone();
    other.actions[0].parameters.pop();
    assert_ne!(base, other);

    let mut other = base.clone();
    other.actions[0].outputs[0].description.push('!');
    assert_ne!(base, other);

    let mut other = base.clone();
    other.actions[0].outputs.clear();
    assert_ne!(base, other);

    let mut other = base.clone();
    other.actions.push(action("more", ""));
    assert_ne!(base, other);
}

#[test]
fn same_texts_compares_in_order() {
    assert!(same_texts(&strings(&[]), &strings(&[])));
    assert!(same_texts(&strings(&["a", "b"]), &strings(&["a", "b"])));
    assert!(!same_texts(&strings(&["a", "b"]), &strings(&["b", "a"])));
    assert!(!same_texts(&strings(&["a"]), &strings(&["a", "a"])));
}

#[test]
fn contains_text_finds_exact_matches() {
    let allowed = strings(&["RED", "BLUE"]);
    assert!(contains_text(&allowed, "RED"));
    assert!(contains_text(&allowed, "BLUE"));
    assert!(!contains_text(&allowed, "blue"));
    assert!(!contains_text(&allowed, ""));
    assert!(!contains_text(&strings(&[]), "RED"));
}

#[test]
fn accepts_on_values_read_from_a_document() {
    assert!(ParameterType::Uint32.accepts(&FieldValue::Unsigned(4294967295)));
    assert!(!ParameterType::Uint32.accepts(&FieldValue::Unsigned(4294967296)));
    assert!(ParameterType::Uint32.accepts(&FieldValue::Signed(5)));
    assert!(!ParameterType::Uint32.accepts(&FieldValue::Signed(-5)));
    assert!(ParameterType::Int32.accepts(&FieldValue::Signed(-2147483648)));
    assert!(ParameterType::Int32.accepts(&FieldValue::Signed(i64::MIN)));
    assert!(ParameterType::Int32.accepts(&FieldValue::Unsigned(2147483647)));
    assert!(!ParameterType::Int32.accepts(&FieldValue::Unsigned(2147483648)));
    assert!(!ParameterType::Int32.accepts(&FieldValue::Float));
    assert!(ParameterType::Int64.accepts(&FieldValue::Unsigned(9223372036854775807)));
    assert!(!ParameterType::Int64.accepts(&FieldValue::Unsigned(9223372036854775808)));
    assert!(ParameterType::Double.accepts(&FieldValue::Float));
    assert!(ParameterType::Float.accepts(&FieldValue::Signed(-1)));
    assert!(!ParameterType::Float.accepts(&FieldValue::Other));
    assert!(ParameterType::Bool.accepts(&FieldValue::Bool(false)));
    assert!(!ParameterType::Bool.accepts(&FieldValue::Text("false")));
    assert!(ParameterType::String.accepts(&FieldValue::Text("")));
    assert!(!ParameterType::String.accepts(&FieldValue::Other));
    let colors = ParameterType::Enum(strings(&["RED", "BLUE"]));
    assert!(colors.accepts(&FieldValue::Text("RED")));
    assert!(!colors.accepts(&FieldValue::Text("ORANGE")));
    assert!(!colors.accepts(&FieldValue::Bool(true)));
}

#[test]
fn integer_bounds() {
    assert!(at_most_unsigned(&FieldValue::Unsigned(255), 255));
    assert!(!at_most_unsigned(&FieldValue::Unsigned(256), 255));
    assert!(at_most_unsigned(&FieldValue::Signed(0), 0));
    assert!(!at_most_unsigned(&FieldValue::Signed(-1), u64::MAX));
    assert!(at_most_unsigned(&FieldValue::Signed(i64::MAX), u64::MAX));
    assert!(!at_most_unsigned(&FieldValue::Float, u64::MAX));
    assert!(at_most_signed(&FieldValue::Signed(i64::MIN), -1));
    assert!(!at_most_signed(&FieldValue::Signed(0), -1));
    assert!(!at_most_signed(&FieldValue::Unsigned(0), -1));
    assert!(at_most_signed(&FieldValue::Unsigned(127), 127));
    assert!(!at_most_signed(&FieldValue::Unsigned(u64::MAX), i64::MAX));
    assert!(!at_most_signed(&FieldValue::Text("1"), 127));
}

#[test]
fn diagnostics_name_what_is_at_fault() {
    assert_eq!(ValidationError::ActionNotFound { action_name: None }.message(), "action not found");
    assert_eq!(
        ValidationError::ActionNotFound { action_name: Some("action_4".to_string()) }.message(),
        "action not found: action_4"
    );
    assert_eq!(
        ValidationError::MissingRequiredParameter { param_name: "a_number_1".to_string() }
            .message(),
        "Parameter not found: a_number_1"
    );
}

#[test]
fn errors_compare_by_kind_and_name() {
    let none = ValidationError::ActionNotFound { action_name: None };
    let a = ValidationError::ActionNotFound { action_name: Some("a".to_string()) };
    let b = ValidationError::ActionNotFound { action_name: Some("b".to_string()) };
    let p = ValidationError::MissingRequiredParameter { param_name: "a".to_string() };
    assert_eq!(none, none.clone());
    assert_eq!(a, a.clone());
    assert_eq!(p, p.clone());
    assert_ne!(none, a);
    assert_ne!(a, b);
    assert_ne!(a, p);
}
