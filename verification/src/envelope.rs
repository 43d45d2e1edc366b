//! Envelope mode: a typed request, in which every value travels with the
//! kind that its sender declares for it, is held against the schema by those
//! declared kinds alone. The textual values are never inspected.

use crate::error::{verdict_view, ValidationError, ValidationErrorView};
use crate::kind::{KindView, ParameterType};
use crate::schema::{
    declares, first_unsatisfied, law_lookup_finds_declared_names, lemma_first_unsatisfied, lookup,
    Parameter, ParameterView, ServiceMeta, ServiceMetaView,
};
use vstd::prelude::*;

verus! {

/// One value of a request or of a response: its name, its text, and the
/// kind that the sender says it has.
#[derive(Debug, Eq)]
pub struct RequestParameter {
    pub param_name: String,
    pub value: String,
    pub type_: ParameterType,
}

/// A call of an action, with the identifier that ties it to its response.
#[derive(Debug, Eq)]
pub struct ServiceRequest {
    pub action_name: String,
    pub correlation_id: u128,
    pub parameters: Vec<RequestParameter>,
}

/// The answer to a request. Its parameters carry the outputs back.
#[derive(Debug, Eq)]
pub struct ServiceResponse {
    pub message: String,
    pub correlation_id: u128,
    pub parameters: Vec<RequestParameter>,
}

/// The mathematical value of a [`RequestParameter`].
pub struct RequestParameterView {
    pub param_name: Seq<char>,
    pub value: Seq<char>,
    pub type_: KindView,
}

/// The mathematical value of a [`ServiceRequest`].
pub struct ServiceRequestView {
    pub action_name: Seq<char>,
    pub correlation_id: u128,
    pub parameters: Seq<RequestParameterView>,
}

/// The mathematical value of a [`ServiceResponse`].
pub struct ServiceResponseView {
    pub message: Seq<char>,
    pub correlation_id: u128,
    pub parameters: Seq<RequestParameterView>,
}

impl View for RequestParameter {
    type V = RequestParameterView;

    open spec fn view(&self) -> RequestParameterView {
        RequestParameterView {
            param_name: self.param_name@,
            value: self.value@,
            type_: self.type_@,
        }
    }
}

/// The values of a sequence of request parameters, in order.
pub open spec fn entry_views(entries: Seq<RequestParameter>) -> Seq<RequestParameterView> {
    Seq::new(entries.len(), |i: int| entries[i]@)
}

impl View for ServiceRequest {
    type V = ServiceRequestView;

    open spec fn view(&self) -> ServiceRequestView {
        ServiceRequestView {
            action_name: self.action_name@,
            correlation_id: self.correlation_id,
            parameters: entry_views(self.parameters@),
        }
    }
}

impl View for ServiceResponse {
    type V = ServiceResponseView;

    open spec fn view(&self) -> ServiceResponseView {
        ServiceResponseView {
            message: self.message@,
            correlation_id: self.correlation_id,
            parameters: entry_views(self.parameters@),
        }
    }
}

/// Whether an entry of a request matches a parameter of the schema: it has
/// the parameter's name and declares the parameter's kind, exactly. Two
/// enumerated kinds are the same only with the same allowed values in the
/// same order.
pub open spec fn entry_matches(entry: RequestParameterView, parameter: ParameterView) -> bool {
    entry.param_name == parameter.param_name && entry.type_ == parameter.type_
}

/// Whether a list of entries holds one that matches a parameter.
pub open spec fn supplies(entries: Seq<RequestParameterView>, parameter: ParameterView) -> bool {
    exists|i: int| 0 <= i < entries.len() && entry_matches(#[trigger] entries[i], parameter)
}

/// Whether a request satisfies one parameter: a parameter that is not
/// required is satisfied by any request; a required one needs a matching
/// entry.
pub open spec fn request_satisfies(parameter: ParameterView, request: ServiceRequestView) -> bool {
    !parameter.required || supplies(request.parameters, parameter)
}

/// The outcome of checking a typed request against a schema.
///
/// The request must name an action that the schema declares. Then the
/// parameters of that action are taken in the order of declaration, and the
/// first required one for which the request has no matching entry is
/// reported. Entries that the schema does not declare are passed over.
pub open spec fn request_verdict(schema: ServiceMetaView, request: ServiceRequestView) -> Result<
    (),
    ValidationErrorView,
> {
    match lookup(schema, request.action_name) {
        None => Err(
            ValidationErrorView::ActionNotFound { action_name: Some(request.action_name) },
        ),
        Some(action) => {
            let at = first_unsatisfied(
                action.parameters,
                |p: ParameterView| request_satisfies(p, request),
                0,
            );
            if at < action.parameters.len() {
                Err(
                    ValidationErrorView::MissingRequiredParameter {
                        param_name: action.parameters[at].param_name,
                    },
                )
            } else {
                Ok(())
            }
        },
    }
}

/// A request that names an action which the schema does not declare is
/// rejected because the action was not found, whatever its parameters are.
pub proof fn law_request_needs_declared_action(
    schema: ServiceMetaView,
    request: ServiceRequestView,
)
    requires
        !declares(schema, request.action_name),
    ensures
        request_verdict(schema, request) == Err::<(), ValidationErrorView>(
            ValidationErrorView::ActionNotFound { action_name: Some(request.action_name) },
        ),
{
    law_lookup_finds_declared_names(schema, request.action_name);
}

/// A request is accepted exactly when it names a declared action and has a
/// matching entry for each required parameter of that action. Parameters
/// that are not required, and entries that the schema does not declare,
/// play no part.
pub proof fn law_request_accepted_on_required_parameters(
    schema: ServiceMetaView,
    request: ServiceRequestView,
)
    ensures
        request_verdict(schema, request) is Ok <==> (lookup(schema, request.action_name) matches Some(
            action,
        ) && forall|i: int|
            0 <= i < action.parameters.len() ==> request_satisfies(
                #[trigger] action.parameters[i],
                request,
            )),
{
    if let Some(action) = lookup(schema, request.action_name) {
        let satisfied = |p: ParameterView| request_satisfies(p, request);
        lemma_first_unsatisfied(action.parameters, satisfied, 0);
        let at = first_unsatisfied(action.parameters, satisfied, 0);
        if at < action.parameters.len() {
            assert(!satisfied(action.parameters[at]));
        } else {
            assert forall|i: int| 0 <= i < action.parameters.len() implies request_satisfies(
                #[trigger] action.parameters[i],
                request,
            ) by {
                if action.parameters[i].required {
                    assert(satisfied(action.parameters[i]));
                }
            }
        }
    }
}

/// A request whose action has a required parameter for which every entry
/// of that name declares another kind is rejected for a missing required
/// parameter. The parameter that the rejection names is that one, unless
/// an earlier required parameter is unsatisfied as well.
pub proof fn law_request_kind_mismatch_rejected(
    schema: ServiceMetaView,
    request: ServiceRequestView,
    position: int,
)
    requires
        lookup(schema, request.action_name) is Some,
        0 <= position < lookup(schema, request.action_name)->0.parameters.len(),
        lookup(schema, request.action_name)->0.parameters[position].required,
        forall|i: int|
            0 <= i < request.parameters.len() && (#[trigger] request.parameters[i]).param_name
                == lookup(schema, request.action_name)->0.parameters[position].param_name
                ==> request.parameters[i].type_ != lookup(
                schema,
                request.action_name,
            )->0.parameters[position].type_,
    ensures
        request_verdict(schema, request) matches Err(
            ValidationErrorView::MissingRequiredParameter { param_name },
        ) && ((forall|j: int|
            0 <= j < position ==> request_satisfies(
                #[trigger] lookup(schema, request.action_name)->0.parameters[j],
                request,
            )) ==> param_name == lookup(
            schema,
            request.action_name,
        )->0.parameters[position].param_name),
{
    let action = lookup(schema, request.action_name)->0;
    let satisfied = |p: ParameterView| request_satisfies(p, request);
    lemma_first_unsatisfied(action.parameters, satisfied, 0);
    let at = first_unsatisfied(action.parameters, satisfied, 0);
    assert(!supplies(request.parameters, action.parameters[position]));
    assert(!satisfied(action.parameters[position]));
    if at < action.parameters.len() {
        assert(!satisfied(action.parameters[at]));
    }
}

impl ServiceRequest {
    /// A request for `action_name` under the identifier `correlation_id`.
    /// The caller supplies the identifier, so that it decides how fresh
    /// ones are made.
    pub fn new(action_name: String, correlation_id: u128, parameters: Vec<RequestParameter>) -> (request:
        ServiceRequest)
        ensures
            request.action_name == action_name,
            request.correlation_id == correlation_id,
            request.parameters == parameters,
    {
        ServiceRequest { action_name, correlation_id, parameters }
    }

    /// Whether the request has an entry that matches `parameter` in name
    /// and in declared kind.
    pub fn supplies(&self, parameter: &Parameter) -> (found: bool)
        ensures
            found == supplies(self@.parameters, parameter@),
    {
        let mut i: usize = 0;
        while i < self.parameters.len()
            invariant
                i <= self.parameters.len(),
                forall|j: int|
                    0 <= j < i ==> !entry_matches(#[trigger] self@.parameters[j], parameter@),
            decreases self.parameters.len() - i,
        {
            let entry = &self.parameters[i];
            assert(self@.parameters[i as int] == entry@);
            if entry.param_name == parameter.param_name && entry.type_ == parameter.type_ {
                return true;
            }
            i += 1;
        }
        false
    }
}

impl ServiceResponse {
    /// The response to `request`: it carries the identifier of the request.
    pub fn reply_to(request: &ServiceRequest, message: String, parameters: Vec<RequestParameter>) -> (response:
        ServiceResponse)
        ensures
            response.message == message,
            response.correlation_id == request.correlation_id,
            response.parameters == parameters,
    {
        ServiceResponse { message, correlation_id: request.correlation_id, parameters }
    }

    /// Whether this response answers `request`: whether it carries the
    /// identifier of the request.
    pub fn answers(&self, request: &ServiceRequest) -> (echoed: bool)
        ensures
            echoed == (self.correlation_id == request.correlation_id),
    {
        self.correlation_id == request.correlation_id
    }
}

impl ServiceMeta {
    /// Checks a typed request against the schema, by the kinds that the
    /// request declares.
    pub fn validate_request(&self, request: &ServiceRequest) -> (verdict: Result<
        (),
        ValidationError,
    >)
        ensures
            verdict_view(verdict) == request_verdict(self@, request@),
    {
        let action = match self.find_action(request.action_name.as_str()) {
            Some(action) => action,
            None => {
                return Err(
                    ValidationError::ActionNotFound {
                        action_name: Some(request.action_name.clone()),
                    },
                );
            },
        };
        let ghost satisfied = |p: ParameterView| request_satisfies(p, request@);
        let mut i: usize = 0;
        while i < action.parameters.len()
            invariant
                i <= action.parameters.len(),
                lookup(self@, request@.action_name) == Some(action@),
                satisfied == (|p: ParameterView| request_satisfies(p, request@)),
                first_unsatisfied(action@.parameters, satisfied, 0) == first_unsatisfied(
                    action@.parameters,
                    satisfied,
                    i as int,
                ),
            decreases action.parameters.len() - i,
        {
            let parameter = &action.parameters[i];
            assert(action@.parameters[i as int] == parameter@);
            if parameter.required && !request.supplies(parameter) {
                return Err(
                    ValidationError::MissingRequiredParameter {
                        param_name: parameter.param_name.clone(),
                    },
                );
            }
            i += 1;
        }
        Ok(())
    }
}

impl Clone for RequestParameter {
    /// A copy with the same value.
    fn clone(&self) -> (copy: Self)
        ensures
            copy@ == self@,
    {
        RequestParameter {
            param_name: self.param_name.clone(),
            value: self.value.clone(),
            type_: self.type_.clone(),
        }
    }
}

impl Clone for ServiceRequest {
    /// A copy with the same value.
    fn clone(&self) -> (copy: Self)
        ensures
            copy@ == self@,
    {
        let parameters = self.parameters.clone();
        assert(entry_views(parameters@) =~= entry_views(self.parameters@));
        ServiceRequest {
            action_name: self.action_name.clone(),
            correlation_id: self.correlation_id,
            parameters,
        }
    }
}

impl Clone for ServiceResponse {
    /// A copy with the same value.
    fn clone(&self) -> (copy: Self)
        ensures
            copy@ == self@,
    {
        let parameters = self.parameters.clone();
        assert(entry_views(parameters@) =~= entry_views(self.parameters@));
        ServiceResponse {
            message: self.message.clone(),
            correlation_id: self.correlation_id,
            parameters,
        }
    }
}

/// Whether two lists of entries hold equal entries in the same order.
pub fn same_entries(left: &Vec<RequestParameter>, right: &Vec<RequestParameter>) -> (same: bool)
    ensures
        same == (entry_views(left@) == entry_views(right@)),
{
    if left.len() != right.len() {
        assert(entry_views(left@).len() != entry_views(right@).len());
        return false;
    }
    let mut i: usize = 0;
    while i < left.len()
        invariant
            i <= left.len(),
            left.len() == right.len(),
            forall|j: int| 0 <= j < i ==> left@[j]@ == right@[j]@,
        decreases left.len() - i,
    {
        if left[i] != right[i] {
            assert(entry_views(left@)[i as int] != entry_views(right@)[i as int]);
            return false;
        }
        i += 1;
    }
    assert(entry_views(left@) =~= entry_views(right@));
    true
}

impl PartialEq for RequestParameter {
    fn eq(&self, other: &Self) -> (equal: bool) {
        self.param_name == other.param_name && self.value == other.value && self.type_
            == other.type_
    }
}

impl vstd::std_specs::cmp::PartialEqSpecImpl for RequestParameter {
    open spec fn obeys_eq_spec() -> bool {
        true
    }

    open spec fn eq_spec(&self, other: &Self) -> bool {
        self@ == other@
    }
}

impl PartialEq for ServiceRequest {
    fn eq(&self, other: &Self) -> (equal: bool) {
        self.action_name == other.action_name && self.correlation_id == other.correlation_id
            && same_entries(&self.parameters, &other.parameters)
    }
}

impl vstd::std_specs::cmp::PartialEqSpecImpl for ServiceRequest {
    open spec fn obeys_eq_spec() -> bool {
        true
    }

    open spec fn eq_spec(&self, other: &Self) -> bool {
        self@ == other@
    }
}

impl PartialEq for ServiceResponse {
    fn eq(&self, other: &Self) -> (equal: bool) {
        self.message == other.message && self.correlation_id == other.correlation_id
            && same_entries(&self.parameters, &other.parameters)
    }
}

impl vstd::std_specs::cmp::PartialEqSpecImpl for ServiceResponse {
    open spec fn obeys_eq_spec() -> bool {
        true
    }

    open spec fn eq_spec(&self, other: &Self) -> bool {
        self@ == other@
    }
}

} // verus!
