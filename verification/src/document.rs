//! Document mode: a free-form JSON document is held against the schema by
//! the values that it carries.
//!
//! The document names its action in the field `action_name` and carries one
//! flat top-level field for each parameter, keyed by the parameter's name.

use crate::error::{verdict_view, ValidationError, ValidationErrorView};
use crate::json::{
    field_view, json_model, model_field, read_field, FieldValue, JsonModel,
};
use crate::kind::kind_accepts;
use crate::schema::{
    declares, first_unsatisfied, law_lookup_finds_declared_names, lemma_first_unsatisfied, lookup,
    Action, Parameter, ParameterView, ServiceMeta, ServiceMetaView,
};
use serde_json::Value;
use vstd::prelude::*;

verus! {

/// The name of the action that a document asks for: the text of its field
/// `action_name`, where the document has that field and it is a string.
pub open spec fn requested_action(document: JsonModel) -> Option<Seq<char>> {
    match model_field(document, "action_name"@) {
        Some(JsonModel::Text(name)) => Some(name),
        _ => None,
    }
}

/// Whether a document satisfies one parameter: a parameter that is not
/// required is satisfied whatever the document holds; a required one needs
/// a top-level field of its name whose value is compatible with its kind.
pub open spec fn document_satisfies(parameter: ParameterView, document: JsonModel) -> bool {
    !parameter.required || (model_field(document, parameter.param_name) matches Some(value)
        && kind_accepts(parameter.type_, field_view(value)))
}

/// The outcome of checking a document against a schema.
///
/// The document must name an action that the schema declares. Then the
/// parameters of that action are taken in the order of declaration, and the
/// first required one that the document does not satisfy is reported.
pub open spec fn document_verdict(schema: ServiceMetaView, document: JsonModel) -> Result<
    (),
    ValidationErrorView,
> {
    match requested_action(document) {
        None => Err(ValidationErrorView::ActionNotFound { action_name: None }),
        Some(name) => match lookup(schema, name) {
            None => Err(ValidationErrorView::ActionNotFound { action_name: Some(name) }),
            Some(action) => {
                let at = first_unsatisfied(
                    action.parameters,
                    |p: ParameterView| document_satisfies(p, document),
                    0,
                );
                if at < action.parameters.len() {
                    Err(
                        ValidationErrorView::MissingRequiredParameter {
                            param_name: action.parameters[at].param_name,
                        },
                    )
                } else {
                    Ok(())
                }
            },
        },
    }
}

/// A document that has no string field `action_name`, or that names an
/// action which the schema does not declare, is rejected because the action
/// was not found, whatever else it holds.
pub proof fn law_document_needs_declared_action(schema: ServiceMetaView, document: JsonModel)
    requires
        requested_action(document) matches Some(name) ==> !declares(schema, name),
    ensures
        document_verdict(schema, document) == Err::<(), ValidationErrorView>(
            ValidationErrorView::ActionNotFound { action_name: requested_action(document) },
        ),
{
    if let Some(name) = requested_action(document) {
        law_lookup_finds_declared_names(schema, name);
    }
}

/// A document is accepted exactly when it names a declared action and
/// satisfies each required parameter of that action. Fields that belong to
/// no required parameter play no part: they may be absent, or present with
/// any value.
pub proof fn law_document_accepted_on_required_parameters(
    schema: ServiceMetaView,
    document: JsonModel,
)
    ensures
        document_verdict(schema, document) is Ok <==> (requested_action(document) matches Some(
            name,
        ) && lookup(schema, name) matches Some(action) && forall|i: int|
            0 <= i < action.parameters.len() ==> document_satisfies(
                #[trigger] action.parameters[i],
                document,
            )),
{
    if let Some(name) = requested_action(document) {
        if let Some(action) = lookup(schema, name) {
            let satisfied = |p: ParameterView| document_satisfies(p, document);
            lemma_first_unsatisfied(action.parameters, satisfied, 0);
            let at = first_unsatisfied(action.parameters, satisfied, 0);
            if at < action.parameters.len() {
                assert(!satisfied(action.parameters[at]));
            } else {
                assert forall|i: int| 0 <= i < action.parameters.len() implies document_satisfies(
                    #[trigger] action.parameters[i],
                    document,
                ) by {
                    if action.parameters[i].required {
                        assert(satisfied(action.parameters[i]));
                    }
                }
            }
        }
    }
}

/// The rejection of a document names the first required parameter, in the
/// order of declaration, that the document does not satisfy.
pub proof fn law_document_reports_first_failure(schema: ServiceMetaView, document: JsonModel)
    ensures
        document_verdict(schema, document) matches Err(
            ValidationErrorView::MissingRequiredParameter { param_name },
        ) ==> requested_action(document) matches Some(name) && lookup(schema, name) matches Some(
            action,
        ) && exists|at: int|
            0 <= at < action.parameters.len() && (#[trigger] action.parameters[at]).param_name
                == param_name && !document_satisfies(action.parameters[at], document)
                && forall|j: int|
                0 <= j < at ==> document_satisfies(#[trigger] action.parameters[j], document),
{
    if let Some(name) = requested_action(document) {
        if let Some(action) = lookup(schema, name) {
            let satisfied = |p: ParameterView| document_satisfies(p, document);
            lemma_first_unsatisfied(action.parameters, satisfied, 0);
            let at = first_unsatisfied(action.parameters, satisfied, 0);
            if at < action.parameters.len() {
                assert(!satisfied(action.parameters[at]));
                assert forall|j: int| 0 <= j < at implies document_satisfies(
                    #[trigger] action.parameters[j],
                    document,
                ) by {
                    if action.parameters[j].required {
                        assert(satisfied(action.parameters[j]));
                    }
                }
            }
        }
    }
}

/// The name of the action that a document asks for.
pub fn requested_name<'a>(request: &'a Value) -> (name: Option<&'a str>)
    ensures
        match name {
            Some(text) => requested_action(json_model(*request)) == Some(text@),
            None => requested_action(json_model(*request)) is None,
        },
{
    match read_field(request, "action_name") {
        Some(FieldValue::Text(text)) => Some(text),
        _ => None,
    }
}

impl ServiceMeta {
    /// Checks a document against the schema, by the values that it carries.
    pub fn caters(&self, request: &Value) -> (verdict: Result<(), ValidationError>)
        ensures
            verdict_view(verdict) == document_verdict(self@, json_model(*request)),
    {
        let action = match self.get_action(request) {
            Some(action) => action,
            None => {
                let action_name = match requested_name(request) {
                    Some(name) => Some(name.to_owned()),
                    None => None,
                };
                return Err(ValidationError::ActionNotFound { action_name });
            },
        };
        let ghost satisfied = |p: ParameterView| document_satisfies(p, json_model(*request));
        let mut i: usize = 0;
        while i < action.parameters.len()
            invariant
                i <= action.parameters.len(),
                requested_action(json_model(*request)) matches Some(name) && lookup(self@, name)
                    == Some(action@),
                satisfied == (|p: ParameterView| document_satisfies(p, json_model(*request))),
                first_unsatisfied(action@.parameters, satisfied, 0) == first_unsatisfied(
                    action@.parameters,
                    satisfied,
                    i as int,
                ),
            decreases action.parameters.len() - i,
        {
            let parameter = &action.parameters[i];
            assert(action@.parameters[i as int] == parameter@);
            if !self.caters_parameter(parameter, request) {
                return Err(
                    ValidationError::MissingRequiredParameter {
                        param_name: parameter.param_name.clone(),
                    },
                );
            }
            i += 1;
        }
        Ok(())
    }

    /// The action that a document asks for, where the schema declares it.
    pub fn get_action(&self, request: &Value) -> (found: Option<&Action>)
        ensures
            match found {
                Some(action) => requested_action(json_model(*request)) matches Some(name)
                    && lookup(self@, name) == Some(action@),
                None => requested_action(json_model(*request)) matches Some(name) ==> lookup(
                    self@,
                    name,
                ) is None,
            },
    {
        match requested_name(request) {
            Some(name) => self.find_action(name),
            None => None,
        }
    }

    /// Whether a document satisfies one parameter.
    pub fn caters_parameter(&self, parameter: &Parameter, request: &Value) -> (satisfied: bool)
        ensures
            satisfied == document_satisfies(parameter@, json_model(*request)),
    {
        if !parameter.required {
            return true;
        }
        match read_field(request, parameter.param_name.as_str()) {
            Some(field) => parameter.type_.accepts(&field),
            None => false,
        }
    }
}

} // verus!
