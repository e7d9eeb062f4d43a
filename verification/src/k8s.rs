//! Declarations of the Kubernetes API types that the engine carries through.
//!
//! The engine never looks inside these values: they are the opaque payload
//! of a container, of a security context, and of a pod specification, and
//! every decision is made on the plain fields that [`crate::model`] extracts
//! beside them. Declaring the types lets verified code hold them and state
//! that they are passed through unchanged.

use vstd::prelude::*;

verus! {

/// Relies on `k8s_openapi::api::core::v1::Container` only as an opaque
/// carrier for the container fields this policy does not interpret.
#[verifier::external_type_specification]
#[verifier::external_body]
pub struct ExContainer(k8s_openapi::api::core::v1::Container);

/// Relies on `k8s_openapi::api::core::v1::SecurityContext` only as an opaque
/// carrier for the security-context fields this policy does not interpret.
#[verifier::external_type_specification]
#[verifier::external_body]
pub struct ExSecurityContext(k8s_openapi::api::core::v1::SecurityContext);

/// Relies on `k8s_openapi::api::core::v1::PodSpec` only as an opaque carrier
/// for the pod-level fields this policy does not interpret.
#[verifier::external_type_specification]
#[verifier::external_body]
pub struct ExPodSpec(k8s_openapi::api::core::v1::PodSpec);

} // verus!
