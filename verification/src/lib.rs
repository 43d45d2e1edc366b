//! A machine-readable description of a service's callable actions, and the
//! checks that decide whether a request satisfies the contract of an action.
//!
//! A [`ServiceMeta`] is the schema of one service. A request is held against
//! it in one of two modes. In document mode ([`ServiceMeta::caters`]) the
//! request is a free-form JSON document and its values are inspected. In
//! envelope mode ([`ServiceMeta::validate_request`]) the request is a typed
//! [`ServiceRequest`] and only the kinds that it declares are compared.

pub mod document;
pub mod envelope;
pub mod error;
pub mod json;
pub mod kind;
pub mod sample;
pub mod schema;

pub use envelope::{RequestParameter, ServiceRequest, ServiceResponse};
pub use error::ValidationError;
pub use json::FieldValue;
pub use kind::ParameterType;
pub use schema::{Action, Output, Parameter, ServiceMeta};
