//! The schema of a service: its actions, their parameters and outputs, and
//! the lookup of an action by name.

use crate::kind::{KindView, ParameterType};
use vstd::prelude::*;

verus! {

/// A value that an action may return. It documents the action and plays no
/// part in validation.
#[derive(Debug, Eq)]
pub struct Output {
    pub param_name: String,
    pub description: String,
    pub type_: ParameterType,
}

/// A named, typed input of an action.
#[derive(Debug, Eq)]
pub struct Parameter {
    pub param_name: String,
    pub description: String,
    pub type_: ParameterType,
    pub required: bool,
    /// A textual default for the producer of a request. It is stored and
    /// never checked or applied.
    pub default: Option<String>,
}

/// One named, independently callable operation of a service.
#[derive(Debug, Eq)]
pub struct Action {
    pub action_name: String,
    pub description: String,
    pub parameters: Vec<Parameter>,
    pub outputs: Vec<Output>,
}

/// The schema of a service: its name, its description and its actions.
#[derive(Debug, Eq)]
pub struct ServiceMeta {
    pub service_name: String,
    pub description: String,
    pub actions: Vec<Action>,
}

/// The mathematical value of an [`Output`].
pub struct OutputView {
    pub param_name: Seq<char>,
    pub description: Seq<char>,
    pub type_: KindView,
}

/// The mathematical value of a [`Parameter`].
pub struct ParameterView {
    pub param_name: Seq<char>,
    pub description: Seq<char>,
    pub type_: KindView,
    pub required: bool,
    pub default: Option<Seq<char>>,
}

/// The mathematical value of an [`Action`].
pub struct ActionView {
    pub action_name: Seq<char>,
    pub description: Seq<char>,
    pub parameters: Seq<ParameterView>,
    pub outputs: Seq<OutputView>,
}

/// The mathematical value of a [`ServiceMeta`].
pub struct ServiceMetaView {
    pub service_name: Seq<char>,
    pub description: Seq<char>,
    pub actions: Seq<ActionView>,
}

impl View for Output {
    type V = OutputView;

    open spec fn view(&self) -> OutputView {
        OutputView {
            param_name: self.param_name@,
            description: self.description@,
            type_: self.type_@,
        }
    }
}

impl View for Parameter {
    type V = ParameterView;

    open spec fn view(&self) -> ParameterView {
        ParameterView {
            param_name: self.param_name@,
            description: self.description@,
            type_: self.type_@,
            required: self.required,
            default: match self.default {
                Some(text) => Some(text@),
                None => None,
            },
        }
    }
}

/// The values of a sequence of outputs, in order.
pub open spec fn output_views(outputs: Seq<Output>) -> Seq<OutputView> {
    Seq::new(outputs.len(), |i: int| outputs[i]@)
}

/// The values of a sequence of parameters, in order.
pub open spec fn parameter_views(parameters: Seq<Parameter>) -> Seq<ParameterView> {
    Seq::new(parameters.len(), |i: int| parameters[i]@)
}

impl View for Action {
    type V = ActionView;

    open spec fn view(&self) -> ActionView {
        ActionView {
            action_name: self.action_name@,
            description: self.description@,
            parameters: parameter_views(self.parameters@),
            outputs: output_views(self.outputs@),
        }
    }
}

/// The values of a sequence of actions, in order.
pub open spec fn action_views(actions: Seq<Action>) -> Seq<ActionView> {
    Seq::new(actions.len(), |i: int| actions[i]@)
}

impl View for ServiceMeta {
    type V = ServiceMetaView;

    open spec fn view(&self) -> ServiceMetaView {
        ServiceMetaView {
            service_name: self.service_name@,
            description: self.description@,
            actions: action_views(self.actions@),
        }
    }
}

/// The position of the first action of `actions` that is named `name`
/// exactly, counting from `from`; the number of actions if there is none.
pub open spec fn first_named(actions: Seq<ActionView>, name: Seq<char>, from: int) -> int
    decreases actions.len() - from,
{
    if from < 0 || from >= actions.len() {
        actions.len() as int
    } else if actions[from].action_name == name {
        from
    } else {
        first_named(actions, name, from + 1)
    }
}

/// The action that a lookup of `name` gives: the first action, in the order
/// of declaration, whose name equals `name` exactly.
pub open spec fn lookup(schema: ServiceMetaView, name: Seq<char>) -> Option<ActionView> {
    let at = first_named(schema.actions, name, 0);
    if at < schema.actions.len() {
        Some(schema.actions[at])
    } else {
        None
    }
}

/// `first_named` finds a position at or after `from` that holds the name,
/// and no position between `from` and it does.
pub proof fn lemma_first_named(actions: Seq<ActionView>, name: Seq<char>, from: int)
    requires
        0 <= from <= actions.len(),
    ensures
        from <= first_named(actions, name, from) <= actions.len(),
        first_named(actions, name, from) < actions.len() ==> actions[first_named(
            actions,
            name,
            from,
        )].action_name == name,
        forall|j: int|
            from <= j < first_named(actions, name, from) ==> (#[trigger] actions[j]).action_name
                != name,
    decreases actions.len() - from,
{
    if from < actions.len() && actions[from].action_name != name {
        lemma_first_named(actions, name, from + 1);
    }
}

/// Whether a schema declares an action named `name`.
pub open spec fn declares(schema: ServiceMetaView, name: Seq<char>) -> bool {
    exists|i: int| 0 <= i < schema.actions.len() && (#[trigger] schema.actions[i]).action_name == name
}

/// A lookup succeeds exactly for the names that the schema declares, and
/// what it gives is an action of the schema that has the name asked for.
pub proof fn law_lookup_finds_declared_names(schema: ServiceMetaView, name: Seq<char>)
    ensures
        lookup(schema, name) is Some <==> declares(schema, name),
        lookup(schema, name) matches Some(action) ==> action.action_name == name
            && schema.actions.contains(action),
{
    lemma_first_named(schema.actions, name, 0);
}

/// Looking up the name of an action of the schema gives that action.
///
/// Among actions that share a name the first one wins, so this is stated of
/// an action before which no different action has the same name. Where the
/// names of a schema are unique that is every action.
pub proof fn law_lookup_is_reflexive(schema: ServiceMetaView, position: int)
    requires
        0 <= position < schema.actions.len(),
        forall|j: int|
            0 <= j < position && (#[trigger] schema.actions[j]).action_name
                == schema.actions[position].action_name ==> schema.actions[j]
                == schema.actions[position],
    ensures
        lookup(schema, schema.actions[position].action_name) == Some(schema.actions[position]),
{
    lemma_first_named(schema.actions, schema.actions[position].action_name, 0);
}

/// The position of the first required parameter, counting from `from`, of
/// which `satisfied` does not hold; the number of parameters if there is
/// none. Parameters that are not required are passed over.
pub open spec fn first_unsatisfied(
    parameters: Seq<ParameterView>,
    satisfied: spec_fn(ParameterView) -> bool,
    from: int,
) -> int
    decreases parameters.len() - from,
{
    if from < 0 || from >= parameters.len() {
        parameters.len() as int
    } else if parameters[from].required && !satisfied(parameters[from]) {
        from
    } else {
        first_unsatisfied(parameters, satisfied, from + 1)
    }
}

/// `first_unsatisfied` finds a position at or after `from` that holds a
/// required parameter of which `satisfied` fails, and `satisfied` holds of
/// every required parameter between `from` and it.
pub proof fn lemma_first_unsatisfied(
    parameters: Seq<ParameterView>,
    satisfied: spec_fn(ParameterView) -> bool,
    from: int,
)
    requires
        0 <= from <= parameters.len(),
    ensures
        from <= first_unsatisfied(parameters, satisfied, from) <= parameters.len(),
        first_unsatisfied(parameters, satisfied, from) < parameters.len() ==> {
            let at = first_unsatisfied(parameters, satisfied, from);
            parameters[at].required && !satisfied(parameters[at])
        },
        forall|j: int|
            from <= j < first_unsatisfied(parameters, satisfied, from) && (
            #[trigger] parameters[j]).required ==> satisfied(parameters[j]),
    decreases parameters.len() - from,
{
    if from < parameters.len() && !(parameters[from].required && !satisfied(parameters[from])) {
        lemma_first_unsatisfied(parameters, satisfied, from + 1);
    }
}

impl ServiceMeta {
    /// Looks an action up by its name: the first action, in the order of
    /// declaration, whose name equals `name` exactly.
    pub fn find_action(&self, name: &str) -> (found: Option<&Action>)
        ensures
            match found {
                Some(action) => lookup(self@, name@) == Some(action@),
                None => lookup(self@, name@) is None,
            },
    {
        let wanted = name.to_owned();
        let mut i: usize = 0;
        while i < self.actions.len()
            invariant
                i <= self.actions.len(),
                wanted@ == name@,
                first_named(self@.actions, name@, 0) == first_named(
                    self@.actions,
                    name@,
                    i as int,
                ),
            decreases self.actions.len() - i,
        {
            if self.actions[i].action_name == wanted {
                return Some(&self.actions[i]);
            }
            i += 1;
        }
        None
    }
}

impl Clone for Output {
    /// A copy with the same value.
    fn clone(&self) -> (copy: Self)
        ensures
            copy@ == self@,
    {
        Output {
            param_name: self.param_name.clone(),
            description: self.description.clone(),
            type_: self.type_.clone(),
        }
    }
}

impl Clone for Parameter {
    /// A copy with the same value.
    fn clone(&self) -> (copy: Self)
        ensures
            copy@ == self@,
    {
        Parameter {
            param_name: self.param_name.clone(),
            description: self.description.clone(),
            type_: self.type_.clone(),
            required: self.required,
            default: match &self.default {
                Some(text) => Some(text.clone()),
                None => None,
            },
        }
    }
}

impl Clone for Action {
    /// A copy with the same value.
    fn clone(&self) -> (copy: Self)
        ensures
            copy@ == self@,
    {
        let parameters = self.parameters.clone();
        let outputs = self.outputs.clone();
        assert(parameter_views(parameters@) =~= parameter_views(self.parameters@));
        assert(output_views(outputs@) =~= output_views(self.outputs@));
        Action {
            action_name: self.action_name.clone(),
            description: self.description.clone(),
            parameters,
            outputs,
        }
    }
}

impl Clone for ServiceMeta {
    /// A copy with the same value.
    fn clone(&self) -> (copy: Self)
        ensures
            copy@ == self@,
    {
        let actions = self.actions.clone();
        assert(action_views(actions@) =~= action_views(self.actions@));
        ServiceMeta {
            service_name: self.service_name.clone(),
            description: self.description.clone(),
            actions,
        }
    }
}

/// Whether two optional strings hold the same text, or are both absent.
pub fn same_optional_text(left: &Option<String>, right: &Option<String>) -> (same: bool)
    ensures
        same == (match (left, right) {
            (Some(l), Some(r)) => l@ == r@,
            (None, None) => true,
            _ => false,
        }),
{
    match (left, right) {
        (Some(l), Some(r)) => *l == *r,
        (None, None) => true,
        _ => false,
    }
}

impl PartialEq for Output {
    fn eq(&self, other: &Self) -> (equal: bool) {
        self.param_name == other.param_name && self.description == other.description
            && self.type_ == other.type_
    }
}

impl vstd::std_specs::cmp::PartialEqSpecImpl for Output {
    open spec fn obeys_eq_spec() -> bool {
        true
    }

    open spec fn eq_spec(&self, other: &Self) -> bool {
        self@ == other@
    }
}

impl PartialEq for Parameter {
    fn eq(&self, other: &Self) -> (equal: bool) {
        self.param_name == other.param_name && self.description == other.description
            && self.type_ == other.type_ && self.required == other.required
            && same_optional_text(&self.default, &other.default)
    }
}

impl vstd::std_specs::cmp::PartialEqSpecImpl for Parameter {
    open spec fn obeys_eq_spec() -> bool {
        true
    }

    open spec fn eq_spec(&self, other: &Self) -> bool {
        self@ == other@
    }
}

/// Whether two lists of outputs hold equal outputs in the same order.
pub fn same_outputs(left: &Vec<Output>, right: &Vec<Output>) -> (same: bool)
    ensures
        same == (output_views(left@) == output_views(right@)),
{
    if left.len() != right.len() {
        assert(output_views(left@).len() != output_views(right@).len());
        return false;
    }
    let mut i: usize = 0;
    while i < left.len()
        invariant
            i <= left.len(),
            left.len() == right.len(),
            forall|j: int| 0 <= j < i ==> left@[j]@ == right@[j]@,
        decreases left.len() - i,
    {
        if left[i] != right[i] {
            assert(output_views(left@)[i as int] != output_views(right@)[i as int]);
            return false;
        }
        i += 1;
    }
    assert(output_views(left@) =~= output_views(right@));
    true
}

/// Whether two lists of parameters hold equal parameters in the same order.
pub fn same_parameters(left: &Vec<Parameter>, right: &Vec<Parameter>) -> (same: bool)
    ensures
        same == (parameter_views(left@) == parameter_views(right@)),
{
    if left.len() != right.len() {
        assert(parameter_views(left@).len() != parameter_views(right@).len());
        return false;
    }
    let mut i: usize = 0;
    while i < left.len()
        invariant
            i <= left.len(),
            left.len() == right.len(),
            forall|j: int| 0 <= j < i ==> left@[j]@ == right@[j]@,
        decreases left.len() - i,
    {
        if left[i] != right[i] {
            assert(parameter_views(left@)[i as int] != parameter_views(right@)[i as int]);
            return false;
        }
        i += 1;
    }
    assert(parameter_views(left@) =~= parameter_views(right@));
    true
}

impl PartialEq for Action {
    fn eq(&self, other: &Self) -> (equal: bool) {
        self.action_name == other.action_name && self.description == other.description
            && same_parameters(&self.parameters, &other.parameters) && same_outputs(
            &self.outputs,
            &other.outputs,
        )
    }
}

impl vstd::std_specs::cmp::PartialEqSpecImpl for Action {
    open spec fn obeys_eq_spec() -> bool {
        true
    }

    open spec fn eq_spec(&self, other: &Self) -> bool {
        self@ == other@
    }
}

/// Whether two lists of actions hold equal actions in the same order.
pub fn same_actions(left: &Vec<Action>, right: &Vec<Action>) -> (same: bool)
    ensures
        same == (action_views(left@) == action_views(right@)),
{
    if left.len() != right.len() {
        assert(action_views(left@).len() != action_views(right@).len());
        return false;
    }
    let mut i: usize = 0;
    while i < left.len()
        invariant
            i <= left.len(),
            left.len() == right.len(),
            forall|j: int| 0 <= j < i ==> left@[j]@ == right@[j]@,
        decreases left.len() - i,
    {
        if left[i] != right[i] {
            assert(action_views(left@)[i as int] != action_views(right@)[i as int]);
            return false;
        }
        i += 1;
    }
    assert(action_views(left@) =~= action_views(right@));
    true
}

impl PartialEq for ServiceMeta {
    fn eq(&self, other: &Self) -> (equal: bool) {
        self.service_name == other.service_name && self.description == other.description
            && same_actions(&self.actions, &other.actions)
    }
}

impl vstd::std_specs::cmp::PartialEqSpecImpl for ServiceMeta {
    open spec fn obeys_eq_spec() -> bool {
        true
    }

    open spec fn eq_spec(&self, other: &Self) -> bool {
        self@ == other@
    }
}

impl Default for ServiceMeta {
    /// The empty schema: no name, no description, no actions.
    fn default() -> (schema: ServiceMeta)
        ensures
            schema@.service_name == Seq::<char>::empty(),
            schema@.description == Seq::<char>::empty(),
            schema@.actions == Seq::<ActionView>::empty(),
    {
        ServiceMeta { service_name: String::new(), description: String::new(), actions: Vec::new() }
    }
}

} // verus!
