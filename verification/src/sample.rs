//! A small sample schema, for examples and tests.

use crate::kind::{texts, KindView, ParameterType};
use crate::schema::{
    action_views, output_views, parameter_views, Action, ActionView, Output, OutputView,
    Parameter, ParameterView, ServiceMeta, ServiceMetaView,
};
use vstd::prelude::*;

verus! {

/// The value of the sample schema: the service `service_1` with the single
/// action `action_1`, which takes a required `Uint32` and an optional
/// `Int32` with the default `0`, and gives one enumerated output.
pub open spec fn sample_schema() -> ServiceMetaView {
    ServiceMetaView {
        service_name: "service_1"@,
        description: "a test service"@,
        actions: seq![
            ActionView {
                action_name: "action_1"@,
                description: "action 1 does something"@,
                parameters: seq![
                    ParameterView {
                        param_name: "a_number_1"@,
                        description: "this number can be only positive and is required!"@,
                        type_: KindView::Uint32,
                        required: true,
                        default: None,
                    },
                    ParameterView {
                        param_name: "a_number_2"@,
                        description: "this number can be positive and negative and is not required"@,
                        type_: KindView::Int32,
                        required: false,
                        default: Some("0"@),
                    },
                ],
                outputs: seq![
                    OutputView {
                        param_name: "message"@,
                        description: "a message of success or failure"@,
                        type_: KindView::Enum(seq!["ENUM_1"@, "ENUM_2"@]),
                    },
                ],
            },
        ],
    }
}

impl ServiceMeta {
    /// The sample schema.
    pub fn mock() -> (schema: ServiceMeta)
        ensures
            schema@ == sample_schema(),
    {
        let mut allowed: Vec<String> = Vec::new();
        allowed.push("ENUM_1".to_owned());
        allowed.push("ENUM_2".to_owned());
        assert(texts(allowed@) =~= seq!["ENUM_1"@, "ENUM_2"@]);
        let mut outputs: Vec<Output> = Vec::new();
        outputs.push(
            Output {
                param_name: "message".to_owned(),
                description: "a message of success or failure".to_owned(),
                type_: ParameterType::Enum(allowed),
            },
        );
        let mut parameters: Vec<Parameter> = Vec::new();
        parameters.push(
            Parameter {
                param_name: "a_number_1".to_owned(),
                description: "this number can be only positive and is required!".to_owned(),
                type_: ParameterType::Uint32,
                required: true,
                default: None,
            },
        );
        parameters.push(
            Parameter {
                param_name: "a_number_2".to_owned(),
                description: "this number can be positive and negative and is not required".to_owned(),
                type_: ParameterType::Int32,
                required: false,
                default: Some("0".to_owned()),
            },
        );
        assert(output_views(outputs@) =~= sample_schema().actions[0].outputs);
        assert(parameter_views(parameters@) =~= sample_schema().actions[0].parameters);
        let mut actions: Vec<Action> = Vec::new();
        actions.push(
            Action {
                action_name: "action_1".to_owned(),
                description: "action 1 does something".to_owned(),
                parameters,
                outputs,
            },
        );
        assert(action_views(actions@) =~= sample_schema().actions);
        ServiceMeta {
            service_name: "service_1".to_owned(),
            description: "a test service".to_owned(),
            actions,
        }
    }
}

} // verus!
