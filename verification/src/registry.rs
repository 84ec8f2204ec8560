//! The registry holding the active transform policy.
//!
//! Exactly one policy is active at a time.  Replacement is an atomic swap
//! and reads are lock-free: a reader sees the policy active before a
//! concurrent replacement or the one after, never a mixture, and a
//! conversion already in flight completes with the policy it captured.
//! The cell is opaque to the verifier; installing and reading the policy
//! are trusted wrappers over the `arc-swap` crate, while everything done
//! with a policy once read is verified code.  What a policy returns is
//! the policy's own business, so the resolution itself — the part with a
//! contract — stands in [`ErrorValue::resolve`].

use vstd::prelude::*;

use crate::dispatch::{ErrorValue, ReflexiveTransform, Response, ResponseTransform};

verus! {

/// The registry: an atomically swappable cell owning the active policy.
#[verifier::external_body]
pub struct TransformRegistry {
    cell: arc_swap::ArcSwap<Box<dyn ResponseTransform>>,
}

impl TransformRegistry {
    /// Relies on `arc_swap::ArcSwapAny::from`: a registry holding the
    /// built-in reflexive policy.
    #[verifier::external_body]
    pub fn new() -> TransformRegistry {
        TransformRegistry {
            cell: arc_swap::ArcSwap::from(
                std::sync::Arc::new(Box::new(ReflexiveTransform) as Box<dyn ResponseTransform>),
            ),
        }
    }

    /// Relies on `arc_swap::ArcSwapAny::swap`: atomically replaces the
    /// active policy; the registry takes ownership, and every read that
    /// starts after the swap sees the new policy.
    #[verifier::external_body]
    pub fn set_active<T: ResponseTransform + 'static>(&self, policy: T) {
        self.cell.swap(std::sync::Arc::new(Box::new(policy)));
    }

    /// Relies on `arc_swap::ArcSwapAny::load_full`: reads the active
    /// policy without blocking.  Two reads racing a replacement may
    /// return different policies; nothing is assumed of which.
    #[verifier::external_body]
    pub fn current(&self) -> std::sync::Arc<Box<dyn ResponseTransform>> {
        self.cell.load_full()
    }

    /// The active policy's default status.
    pub fn default_status(&self) -> u16 {
        self.current().default_error_status_code()
    }

    /// Hands one classified error to the active policy's transform
    /// operation.
    pub fn apply(
        &self,
        name: &str,
        err: &ErrorValue,
        status: u16,
        reason: Option<serde_json::Value>,
        type_tag: Option<String>,
        details: Option<serde_json::Value>,
    ) -> Response {
        self.current().transform(name, err, status, reason, type_tag, details)
    }
}

/// Converts one error value into a response through the active policy:
/// resolves the four fields — the default status coming from the active
/// policy — and passes the resolved tuple, with the sum-type's name and
/// the error itself, to the active policy's transform operation.  The
/// resolution is pinned by [`ErrorValue::resolve`]; the response is
/// whatever the installed policy builds.
pub fn respond(e: &ErrorValue, registry: &TransformRegistry) -> Response
    requires
        e.wf(),
{
    let default = registry.default_status();
    let r = e.resolve(default);
    registry.apply(e.table.name.as_str(), e, r.status, r.reason, r.type_tag, r.details)
}

/// Converts one error value of a sum-type that opted into a custom
/// transform: the resolved tuple goes to the sum-type's own policy rather
/// than the registry's, while the default status still comes from the
/// registry, as it does for every sum-type.
pub fn respond_custom<T: ResponseTransform>(
    e: &ErrorValue,
    registry: &TransformRegistry,
    own: &T,
) -> Response
    requires
        e.wf(),
{
    let default = registry.default_status();
    let r = e.resolve(default);
    own.transform(e.table.name.as_str(), e, r.status, r.reason, r.type_tag, r.details)
}

} // verus!
