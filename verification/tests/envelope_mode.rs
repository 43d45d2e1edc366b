use service_schema::{
    Action, Parameter, ParameterType, RequestParameter, ServiceMeta, ServiceRequest,
    ServiceResponse, ValidationError,
};

fn entry(name: &str, value: &str, kind: ParameterType) -> RequestParameter {
    RequestParameter { param_name: name.to_string(), value: value.to_string(), type_: kind }
}

fn request(action: &str, entries: Vec<RequestParameter>) -> ServiceRequest {
    ServiceRequest::new(action.to_string(), 1, entries)
}

fn colors(values: &[&str]) -> ParameterType {
    ParameterType::Enum(values.iter().map(|v| v.to_string()).collect())
}

fn missing(name: &str) -> Result<(), ValidationError> {
    Err(ValidationError::MissingRequiredParameter { param_name: name.to_string() })
}

fn not_found(name: &str) -> Result<(), ValidationError> {
    Err(ValidationError::ActionNotFound { action_name: Some(name.to_string()) })
}

#[test]
fn request_with_matching_entries_is_accepted() {
    let service = ServiceMeta::mock();
    let ok = request("action_1", vec![entry("a_number_1", "33", ParameterType::Uint32)]);
    assert_eq!(service.validate_request(&ok), Ok(()));
}

#[test]
fn request_for_undeclared_action_is_rejected() {
    let service = ServiceMeta::mock();
    assert_eq!(service.validate_request(&request("action_4", vec![])), not_found("action_4"));
    let full = request(
        "action_4",
        vec![
            entry("a_number_1", "33", ParameterType::Uint32),
            entry("a_number_2", "1", ParameterType::Int32),
        ],
    );
    assert_eq!(service.validate_request(&full), not_found("action_4"));
    assert_eq!(service.validate_request(&request("", vec![])), not_found(""));
    assert_eq!(
        ServiceMeta::default().validate_request(&request("action_1", vec![])),
        not_found("action_1")
    );
}

#[test]
fn request_with_mismatched_kind_is_rejected() {
    let service = ServiceMeta::mock();
    let wrong = request("action_1", vec![entry("a_number_1", "33", ParameterType::String)]);
    assert_eq!(service.validate_request(&wrong), missing("a_number_1"));
    let close = request("action_1", vec![entry("a_number_1", "33", ParameterType::Uint64)]);
    assert_eq!(service.validate_request(&close), missing("a_number_1"));
}

#[test]
fn request_without_required_entry_is_rejected() {
    let service = ServiceMeta::mock();
    assert_eq!(service.validate_request(&request("action_1", vec![])), missing("a_number_1"));
    let other_name = request("action_1", vec![entry("a_number_2", "1", ParameterType::Uint32)]);
    assert_eq!(service.validate_request(&other_name), missing("a_number_1"));
}

#[test]
fn textual_values_are_never_inspected() {
    let service = ServiceMeta::mock();
    for text in ["33", "-1", "not a number", "", "99999999999999999999"] {
        let r = request("action_1", vec![entry("a_number_1", text, ParameterType::Uint32)]);
        assert_eq!(service.validate_request(&r), Ok(()));
    }
}

#[test]
fn a_later_entry_may_satisfy_the_parameter() {
    let service = ServiceMeta::mock();
    let r = request(
        "action_1",
        vec![
            entry("a_number_1", "x", ParameterType::String),
            entry("unknown", "x", ParameterType::Bool),
            entry("a_number_1", "33", ParameterType::Uint32),
        ],
    );
    assert_eq!(service.validate_request(&r), Ok(()));
}

#[test]
fn optional_and_undeclared_entries_are_passed_over() {
    let service = ServiceMeta::mock();
    let r = request(
        "action_1",
        vec![
            entry("a_number_2", "x", ParameterType::Bool),
            entry("extra", "1", ParameterType::Double),
            entry("a_number_1", "33", ParameterType::Uint32),
        ],
    );
    assert_eq!(service.validate_request(&r), Ok(()));
}

#[test]
fn enumerated_kinds_match_by_their_allowed_values() {
    let mut service = ServiceMeta::mock();
    service.actions[0].parameters[0].type_ = colors(&["RED", "BLUE"]);
    let same = request("action_1", vec![entry("a_number_1", "RED", colors(&["RED", "BLUE"]))]);
    assert_eq!(service.validate_request(&same), Ok(()));
    let reordered =
        request("action_1", vec![entry("a_number_1", "RED", colors(&["BLUE", "RED"]))]);
    assert_eq!(service.validate_request(&reordered), missing("a_number_1"));
    let shorter = request("action_1", vec![entry("a_number_1", "RED", colors(&["RED"]))]);
    assert_eq!(service.validate_request(&shorter), missing("a_number_1"));
    let text = request("action_1", vec![entry("a_number_1", "RED", ParameterType::String)]);
    assert_eq!(service.validate_request(&text), missing("a_number_1"));
}

#[test]
fn first_unsatisfied_parameter_is_named() {
    let service = ServiceMeta {
        service_name: "s".to_string(),
        description: String::new(),
        actions: vec![Action {
            action_name: "act".to_string(),
            description: String::new(),
            parameters: vec![
                Parameter {
                    param_name: "first".to_string(),
                    description: String::new(),
                    type_: ParameterType::Bool,
                    required: true,
                    default: None,
                },
                Parameter {
                    param_name: "second".to_string(),
                    description: String::new(),
                    type_: ParameterType::Int64,
                    required: true,
                    default: None,
                },
            ],
            outputs: vec![],
        }],
    };
    assert_eq!(service.validate_request(&request("act", vec![])), missing("first"));
    let only_first = request("act", vec![entry("first", "true", ParameterType::Bool)]);
    assert_eq!(service.validate_request(&only_first), missing("second"));
    let only_second = request("act", vec![entry("second", "1", ParameterType::Int64)]);
    assert_eq!(service.validate_request(&only_second), missing("first"));
    let both = request(
        "act",
        vec![entry("second", "1", ParameterType::Int64), entry("first", "true", ParameterType::Bool)],
    );
    assert_eq!(service.validate_request(&both), Ok(()));
}

#[test]
fn supplies_looks_for_name_and_kind() {
    let service = ServiceMeta::mock();
    let parameter = &service.actions[0].parameters[0];
    assert!(request("x", vec![entry("a_number_1", "", ParameterType::Uint32)]).supplies(parameter));
    assert!(!request("x", vec![entry("a_number_1", "", ParameterType::Int32)]).supplies(parameter));
    assert!(!request("x", vec![entry("a_number_2", "", ParameterType::Uint32)]).supplies(parameter));
    assert!(!request("x", vec![]).supplies(parameter));
}

#[test]
fn request_keeps_what_it_is_made_of() {
    let entries = vec![entry("a", "1", ParameterType::Uint8)];
    let r = ServiceRequest::new("act".to_string(), 0xffff_ffff_ffff_ffff_ffff_ffff_ffff_ffff, entries.clone());
    assert_eq!(r.action_name, "act");
    assert_eq!(r.correlation_id, u128::MAX);
    assert_eq!(r.parameters, entries);
}

#[test]
fn response_echoes_the_identifier_of_the_request() {
    let r = ServiceRequest::new("act".to_string(), 42, vec![]);
    let outputs = vec![entry("message", "ENUM_1", colors(&["ENUM_1", "ENUM_2"]))];
    let response = ServiceResponse::reply_to(&r, "done".to_string(), outputs.clone());
    assert_eq!(response.correlation_id, 42);
    assert_eq!(response.message, "done");
    assert_eq!(response.parameters, outputs);
    assert!(response.answers(&r));
    assert!(!response.answers(&ServiceRequest::new("act".to_string(), 43, vec![])));
}

#[test]
fn envelopes_compare_by_their_fields() {
    let a = request("act", vec![entry("p", "1", ParameterType::Uint8)]);
    assert_eq!(a, a.clone());
    assert_ne!(a, request("act", vec![entry("p", "2", ParameterType::Uint8)]));
    assert_ne!(a, request("act", vec![entry("p", "1", ParameterType::Uint16)]));
    assert_ne!(a, request("act", vec![]));
    assert_ne!(a, request("other", vec![entry("p", "1", ParameterType::Uint8)]));
    assert_ne!(a, ServiceRequest::new("act".to_string(), 2, vec![entry("p", "1", ParameterType::Uint8)]));
    let x = ServiceResponse::reply_to(&a, "m".to_string(), vec![]);
    assert_eq!(x, x.clone());
    assert_ne!(x, ServiceResponse::reply_to(&a, "n".to_string(), vec![]));
}
