//! The two reasons for which a request is rejected.

use vstd::prelude::*;
use vstd::string::StringExecFns;

verus! {

/// Why a request does not satisfy the schema. The first failure found ends
/// the validation; failures are never collected.
#[derive(Debug, Eq)]
pub enum ValidationError {
    /// The request names no action, or one that the schema does not declare.
    /// `action_name` is the name that was asked for, where there is one.
    ActionNotFound { action_name: Option<String> },
    /// A required parameter has no entry in the request that satisfies it.
    MissingRequiredParameter { param_name: String },
}

/// The mathematical value of a [`ValidationError`].
pub enum ValidationErrorView {
    ActionNotFound { action_name: Option<Seq<char>> },
    MissingRequiredParameter { param_name: Seq<char> },
}

impl View for ValidationError {
    type V = ValidationErrorView;

    open spec fn view(&self) -> ValidationErrorView {
        match self {
            ValidationError::ActionNotFound { action_name: Some(name) } => {
                ValidationErrorView::ActionNotFound { action_name: Some(name@) }
            },
            ValidationError::ActionNotFound { action_name: None } => {
                ValidationErrorView::ActionNotFound { action_name: None }
            },
            ValidationError::MissingRequiredParameter { param_name } => {
                ValidationErrorView::MissingRequiredParameter { param_name: param_name@ }
            },
        }
    }
}

/// The mathematical value of the outcome of a validation.
pub open spec fn verdict_view(verdict: Result<(), ValidationError>) -> Result<
    (),
    ValidationErrorView,
> {
    match verdict {
        Ok(()) => Ok(()),
        Err(error) => Err(error@),
    }
}

/// The diagnostic of an error, as text.
pub open spec fn diagnostic(error: ValidationErrorView) -> Seq<char> {
    match error {
        ValidationErrorView::ActionNotFound { action_name: None } => "action not found"@,
        ValidationErrorView::ActionNotFound { action_name: Some(name) } => "action not found: "@
            + name,
        ValidationErrorView::MissingRequiredParameter { param_name } => "Parameter not found: "@
            + param_name,
    }
}

impl ValidationError {
    /// A diagnostic for the originator of the request. It names the action
    /// or the parameter at fault.
    pub fn message(&self) -> (text: String)
        ensures
            text@ == diagnostic(self@),
    {
        match self {
            ValidationError::ActionNotFound { action_name: None } => String::from_str(
                "action not found",
            ),
            ValidationError::ActionNotFound { action_name: Some(name) } => {
                String::from_str("action not found: ").concat(name.as_str())
            },
            ValidationError::MissingRequiredParameter { param_name } => {
                String::from_str("Parameter not found: ").concat(param_name.as_str())
            },
        }
    }
}

impl Clone for ValidationError {
    /// A copy with the same value.
    fn clone(&self) -> (copy: Self)
        ensures
            copy@ == self@,
    {
        match self {
            ValidationError::ActionNotFound { action_name: Some(name) } => {
                ValidationError::ActionNotFound { action_name: Some(name.clone()) }
            },
            ValidationError::ActionNotFound { action_name: None } => {
                ValidationError::ActionNotFound { action_name: None }
            },
            ValidationError::MissingRequiredParameter { param_name } => {
                ValidationError::MissingRequiredParameter { param_name: param_name.clone() }
            },
        }
    }
}

impl PartialEq for ValidationError {
    fn eq(&self, other: &Self) -> (equal: bool) {
        match (self, other) {
            (
                ValidationError::ActionNotFound { action_name: Some(left) },
                ValidationError::ActionNotFound { action_name: Some(right) },
            ) => *left == *right,
            (
                ValidationError::ActionNotFound { action_name: None },
                ValidationError::ActionNotFound { action_name: None },
            ) => true,
            (
                ValidationError::MissingRequiredParameter { param_name: left },
                ValidationError::MissingRequiredParameter { param_name: right },
            ) => *left == *right,
            _ => false,
        }
    }
}

impl vstd::std_specs::cmp::PartialEqSpecImpl for ValidationError {
    open spec fn obeys_eq_spec() -> bool {
        true
    }

    open spec fn eq_spec(&self, other: &Self) -> bool {
        self@ == other@
    }
}

} // verus!
