//! The generated dispatch, as data plus resolution logic.
//!
//! For one sum-type the generation pass fixes, per variant, the explicit
//! status, reason, type tag and details accessor, and whether the variant
//! forwards to its payload.  At run time an error value resolves each of
//! the four fields in this order: the explicit entry of its variant if
//! present; else, if the variant forwards, whatever its inner error
//! resolves to; else nothing — and for the status, the default that the
//! active transform policy supplies.

use vstd::prelude::*;

use crate::generate::{Generated, GeneratedV};
use crate::grammar::{StatusValue, StatusValueV, ValueExpr, ValueExprV};
use crate::json::{dup_opt_json, json_string, to_json_string};
use crate::table::opt_view;

verus! {

/// The dispatch data of one sum-type: one cell per variant and column.
/// A `reason` cell holds the serialized reason (`None` inside marks a
/// value whose serialization failed); a `has_details` cell marks a
/// variant with a generated details accessor, whose value lives in the
/// error value itself.
#[derive(Debug, PartialEq)]
pub struct DispatchTable {
    pub name: String,
    pub status: Vec<Option<u16>>,
    pub reason: Vec<Option<Option<serde_json::Value>>>,
    pub type_tag: Vec<Option<String>>,
    pub has_details: Vec<bool>,
    pub forward: Vec<bool>,
}

impl DispatchTable {
    /// The number of variants.
    pub open spec fn spec_len(&self) -> nat {
        self.status@.len()
    }

    /// Every column has one cell per variant.
    pub open spec fn wf(&self) -> bool {
        &&& self.reason@.len() == self.spec_len()
        &&& self.type_tag@.len() == self.spec_len()
        &&& self.has_details@.len() == self.spec_len()
        &&& self.forward@.len() == self.spec_len()
    }

    /// Whether every column has one cell per variant.
    pub fn wf_check(&self) -> (r: bool)
        ensures
            r == self.wf(),
    {
        self.reason.len() == self.status.len() && self.type_tag.len() == self.status.len()
            && self.has_details.len() == self.status.len() && self.forward.len()
            == self.status.len()
    }
}

/// One classifiable error value: which variant of its sum-type it is, the
/// dispatch data of that sum-type, the inner error when the variant wraps
/// one, and the serialized value of the details field when the variant has
/// a details accessor.
#[derive(Debug, PartialEq)]
pub struct ErrorValue {
    pub table: DispatchTable,
    pub variant: usize,
    pub inner: Option<Box<ErrorValue>>,
    pub payload_details: Option<serde_json::Value>,
}

impl ErrorValue {
    /// The value is a variant of its table, a forwarding variant wraps an
    /// inner error, and the inner error is itself well-formed.
    pub open spec fn wf(self) -> bool
        decreases self,
    {
        &&& self.table.wf()
        &&& (self.variant as int) < self.table.spec_len()
        &&& (self.table.forward@[self.variant as int] ==> self.inner is Some)
        &&& match self.inner {
            Some(b) => (*b).wf(),
            None => true,
        }
    }

    /// Whether the value is well-formed.
    pub fn wf_check(&self) -> (r: bool)
        ensures
            r == self.wf(),
        decreases *self,
    {
        if !self.table.wf_check() {
            return false;
        }
        if !(self.variant < self.table.status.len()) {
            return false;
        }
        if self.table.forward[self.variant] && !matches!(self.inner, Some(_)) {
            return false;
        }
        match &self.inner {
            Some(b) => b.wf_check(),
            None => true,
        }
    }
}

// ------------------------------------------------------------------
// Classification: the four explicit lookups
// ------------------------------------------------------------------

/// The explicit status of `e`'s variant, if one was declared.
pub open spec fn spec_status_code(e: ErrorValue) -> Option<u16> {
    e.table.status@[e.variant as int]
}

/// The explicit reason of `e`'s variant, if one was declared.
pub open spec fn spec_reason(e: ErrorValue) -> Option<Option<serde_json::Value>> {
    e.table.reason@[e.variant as int]
}

/// The explicit type tag of `e`'s variant, if one was declared.
pub open spec fn spec_type_tag(e: ErrorValue) -> Option<Option<String>> {
    match e.table.type_tag@[e.variant as int] {
        Some(t) => Some(Some(t)),
        None => None,
    }
}

/// The details of `e`'s variant, if it has a details accessor.
pub open spec fn spec_details(e: ErrorValue) -> Option<Option<serde_json::Value>> {
    if e.table.has_details@[e.variant as int] {
        Some(e.payload_details)
    } else {
        None
    }
}

// ------------------------------------------------------------------
// Resolution: explicit, then forwarded, then nothing or the default
// ------------------------------------------------------------------

/// The resolved status: the explicit status if present — whatever the
/// flags say — else the inner error's resolved status if the variant
/// forwards, else `default`.
pub open spec fn spec_resolved_status(e: ErrorValue, default: u16) -> u16
    decreases e,
{
    match spec_status_code(e) {
        Some(s) => s,
        None => if e.table.forward@[e.variant as int] {
            match e.inner {
                Some(b) => spec_resolved_status(*b, default),
                None => default,
            }
        } else {
            default
        },
    }
}

/// The resolved reason: the explicit reason if present, else the inner
/// error's resolved reason if the variant forwards, else nothing.
pub open spec fn spec_resolved_reason(e: ErrorValue) -> Option<serde_json::Value>
    decreases e,
{
    match spec_reason(e) {
        Some(inner) => inner,
        None => if e.table.forward@[e.variant as int] {
            match e.inner {
                Some(b) => spec_resolved_reason(*b),
                None => None,
            }
        } else {
            None
        },
    }
}

/// The resolved type tag: the explicit tag if present, else the inner
/// error's resolved tag if the variant forwards, else nothing.
pub open spec fn spec_resolved_type_tag(e: ErrorValue) -> Option<String>
    decreases e,
{
    match e.table.type_tag@[e.variant as int] {
        Some(t) => Some(t),
        None => if e.table.forward@[e.variant as int] {
            match e.inner {
                Some(b) => spec_resolved_type_tag(*b),
                None => None,
            }
        } else {
            None
        },
    }
}

/// The resolved details: the variant's own details if it has an accessor,
/// else the inner error's resolved details if the variant forwards, else
/// nothing.
pub open spec fn spec_resolved_details(e: ErrorValue) -> Option<serde_json::Value>
    decreases e,
{
    match spec_details(e) {
        Some(inner) => inner,
        None => if e.table.forward@[e.variant as int] {
            match e.inner {
                Some(b) => spec_resolved_details(*b),
                None => None,
            }
        } else {
            None
        },
    }
}

/// The full resolution of one error value under a given default status.
#[derive(Debug, PartialEq)]
pub struct Resolution {
    pub status: u16,
    pub reason: Option<serde_json::Value>,
    pub type_tag: Option<String>,
    pub details: Option<serde_json::Value>,
}

impl ErrorValue {
    /// The explicit status of this value's variant.
    pub fn status_code(&self) -> (r: Option<u16>)
        requires
            self.wf(),
        ensures
            r == spec_status_code(*self),
    {
        self.table.status[self.variant]
    }

    /// The explicit reason of this value's variant.
    pub fn reason(&self) -> (r: Option<Option<serde_json::Value>>)
        requires
            self.wf(),
        ensures
            r == spec_reason(*self),
    {
        match &self.table.reason[self.variant] {
            None => None,
            Some(inner) => Some(dup_opt_json(inner)),
        }
    }

    /// The explicit type tag of this value's variant.
    pub fn _type(&self) -> (r: Option<Option<String>>)
        requires
            self.wf(),
        ensures
            r == spec_type_tag(*self),
    {
        match &self.table.type_tag[self.variant] {
            None => None,
            Some(t) => Some(Some(t.clone())),
        }
    }

    /// The details of this value's variant, when it has an accessor.
    pub fn details(&self) -> (r: Option<Option<serde_json::Value>>)
        requires
            self.wf(),
        ensures
            r == spec_details(*self),
    {
        if self.table.has_details[self.variant] {
            Some(dup_opt_json(&self.payload_details))
        } else {
            None
        }
    }

    /// The resolved status under `default`.
    pub fn resolved_status(&self, default: u16) -> (r: u16)
        requires
            self.wf(),
        ensures
            r == spec_resolved_status(*self, default),
        decreases *self,
    {
        match self.status_code() {
            Some(s) => s,
            None => if self.table.forward[self.variant] {
                match &self.inner {
                    Some(b) => b.resolved_status(default),
                    None => default,
                }
            } else {
                default
            },
        }
    }

    /// The resolved reason.
    pub fn resolved_reason(&self) -> (r: Option<serde_json::Value>)
        requires
            self.wf(),
        ensures
            r == spec_resolved_reason(*self),
        decreases *self,
    {
        match self.reason() {
            Some(inner) => inner,
            None => if self.table.forward[self.variant] {
                match &self.inner {
                    Some(b) => b.resolved_reason(),
                    None => None,
                }
            } else {
                None
            },
        }
    }

    /// The resolved type tag.
    pub fn resolved_type_tag(&self) -> (r: Option<String>)
        requires
            self.wf(),
        ensures
            r == spec_resolved_type_tag(*self),
        decreases *self,
    {
        match &self.table.type_tag[self.variant] {
            Some(t) => Some(t.clone()),
            None => if self.table.forward[self.variant] {
                match &self.inner {
                    Some(b) => b.resolved_type_tag(),
                    None => None,
                }
            } else {
                None
            },
        }
    }

    /// The resolved details.
    pub fn resolved_details(&self) -> (r: Option<serde_json::Value>)
        requires
            self.wf(),
        ensures
            r == spec_resolved_details(*self),
        decreases *self,
    {
        match self.details() {
            Some(inner) => inner,
            None => if self.table.forward[self.variant] {
                match &self.inner {
                    Some(b) => b.resolved_details(),
                    None => None,
                }
            } else {
                None
            },
        }
    }

    /// Resolves all four fields under `default`.
    pub fn resolve(&self, default: u16) -> (r: Resolution)
        requires
            self.wf(),
        ensures
            r.status == spec_resolved_status(*self, default),
            r.reason == spec_resolved_reason(*self),
            r.type_tag == spec_resolved_type_tag(*self),
            r.details == spec_resolved_details(*self),
    {
        Resolution {
            status: self.resolved_status(default),
            reason: self.resolved_reason(),
            type_tag: self.resolved_type_tag(),
            details: self.resolved_details(),
        }
    }
}

// ------------------------------------------------------------------
// Laws of the resolution order
// ------------------------------------------------------------------

/// A variant with an explicit status resolves to that status, whatever
/// its flags and whatever the default.
pub proof fn lemma_explicit_status_wins(e: ErrorValue, default: u16, s: u16)
    requires
        e.wf(),
        spec_status_code(e) == Some(s),
    ensures
        spec_resolved_status(e, default) == s,
{
}

/// A variant without an explicit status that forwards resolves to its
/// inner error's resolved status.
pub proof fn lemma_forward_status(e: ErrorValue, b: Box<ErrorValue>, default: u16)
    requires
        e.wf(),
        spec_status_code(e) is None,
        e.table.forward@[e.variant as int],
        e.inner == Some(b),
    ensures
        spec_resolved_status(e, default) == spec_resolved_status(*b, default),
{
}

/// A variant with neither an explicit status nor the forward flag
/// resolves to the default status.
pub proof fn lemma_default_status(e: ErrorValue, default: u16)
    requires
        e.wf(),
        spec_status_code(e) is None,
        !e.table.forward@[e.variant as int],
    ensures
        spec_resolved_status(e, default) == default,
{
}

// ------------------------------------------------------------------
// Dispatch data from a generation result whose values are all literal
// ------------------------------------------------------------------

/// Whether a status cell holds no path to a host constant.
pub open spec fn literal_status_cell(o: Option<StatusValueV>) -> bool {
    !(o matches Some(StatusValueV::Path(_)))
}

/// Whether a reason or type cell holds no path to a host constant.
pub open spec fn literal_value_cell(o: Option<ValueExprV>) -> bool {
    !(o matches Some(ValueExprV::Path(_)))
}

/// Whether every explicit value of a generation result is a literal, so
/// that the dispatch data is fixed without the host's name resolution.
pub open spec fn spec_all_literal(g: GeneratedV) -> bool {
    &&& forall|i: int| 0 <= i < g.status.len() ==> literal_status_cell(#[trigger] g.status[i])
    &&& forall|i: int| 0 <= i < g.reason.len() ==> literal_value_cell(#[trigger] g.reason[i])
    &&& forall|i: int| 0 <= i < g.type_tag.len() ==> literal_value_cell(#[trigger] g.type_tag[i])
}

/// The grounded status of a literal status cell.
pub open spec fn ground_status_cell(o: Option<StatusValueV>) -> Option<u16> {
    match o {
        Some(StatusValueV::Code(c)) => Some(c),
        _ => None,
    }
}

/// The grounded reason of a literal reason cell: the JSON string of the
/// literal's content, whose serialization cannot fail.
pub open spec fn ground_reason_cell(o: Option<ValueExprV>) -> Option<Option<serde_json::Value>> {
    match o {
        Some(ValueExprV::StrLit(s)) => Some(Some(json_string(s))),
        _ => None,
    }
}

/// The grounded type tag of a literal type cell.
pub open spec fn ground_type_cell(o: Option<ValueExprV>) -> Option<Seq<char>> {
    match o {
        Some(ValueExprV::StrLit(s)) => Some(s),
        _ => None,
    }
}

/// Builds the dispatch data of a generation result whose explicit values
/// are all literals; a result that names a host constant anywhere has no
/// such data, and the host's generated code supplies it instead.
pub fn literal_dispatch(g: &Generated) -> (r: Option<DispatchTable>)
    requires
        g.wf(),
    ensures
        match r {
            Some(dt) => {
                &&& spec_all_literal(g@)
                &&& dt.wf()
                &&& dt.spec_len() == g.table.spec_len()
                &&& dt.name@ == g.name@
                &&& forall|i: int|
                    0 <= i < dt.spec_len() ==> #[trigger] dt.status@[i] == ground_status_cell(
                        g@.status[i],
                    )
                &&& forall|i: int|
                    0 <= i < dt.spec_len() ==> #[trigger] dt.reason@[i] == ground_reason_cell(
                        g@.reason[i],
                    )
                &&& forall|i: int|
                    0 <= i < dt.spec_len() ==> opt_view(#[trigger] dt.type_tag@[i])
                        == ground_type_cell(g@.type_tag[i])
                &&& forall|i: int|
                    0 <= i < dt.spec_len() ==> #[trigger] dt.has_details@[i] == (g@.details[i]
                        is Some)
                &&& forall|i: int|
                    0 <= i < dt.spec_len() ==> #[trigger] dt.forward@[i] == g@.forward[i]
            },
            None => !spec_all_literal(g@),
        },
{
    let n = g.table.status.len();
    let mut status: Vec<Option<u16>> = Vec::new();
    let mut reason: Vec<Option<Option<serde_json::Value>>> = Vec::new();
    let mut type_tag: Vec<Option<String>> = Vec::new();
    let mut has_details: Vec<bool> = Vec::new();
    let mut forward: Vec<bool> = Vec::new();
    let mut i: usize = 0;
    while i < n
        invariant
            i <= n,
            n == g.table.spec_len(),
            g.wf(),
            status@.len() == i,
            reason@.len() == i,
            type_tag@.len() == i,
            has_details@.len() == i,
            forward@.len() == i,
            forall|k: int|
                0 <= k < i ==> #[trigger] status@[k] == ground_status_cell(g@.status[k]),
            forall|k: int|
                0 <= k < i ==> #[trigger] reason@[k] == ground_reason_cell(g@.reason[k]),
            forall|k: int|
                0 <= k < i ==> opt_view(#[trigger] type_tag@[k]) == ground_type_cell(
                    g@.type_tag[k],
                ),
            forall|k: int|
                0 <= k < i ==> #[trigger] has_details@[k] == (g@.details[k] is Some),
            forall|k: int| 0 <= k < i ==> #[trigger] forward@[k] == g@.forward[k],
            forall|k: int| 0 <= k < i ==> literal_status_cell(#[trigger] g@.status[k]),
            forall|k: int| 0 <= k < i ==> literal_value_cell(#[trigger] g@.reason[k]),
            forall|k: int| 0 <= k < i ==> literal_value_cell(#[trigger] g@.type_tag[k]),
        decreases n - i,
    {
        let status_cell: Option<u16> = match &g.table.status[i] {
            None => None,
            Some(StatusValue::Code(c)) => Some(*c),
            Some(StatusValue::Path(_)) => {
                proof {
                    assert(!literal_status_cell(g@.status[i as int]));
                }
                return None;
            },
        };
        let reason_cell: Option<Option<serde_json::Value>> = match &g.table.reason[i] {
            None => None,
            Some(ValueExpr::StrLit(s)) => Some(to_json_string(s.as_str())),
            Some(ValueExpr::Path(_)) => {
                proof {
                    assert(!literal_value_cell(g@.reason[i as int]));
                }
                return None;
            },
        };
        let type_cell: Option<String> = match &g.table.type_tag[i] {
            None => None,
            Some(ValueExpr::StrLit(s)) => Some(s.clone()),
            Some(ValueExpr::Path(_)) => {
                proof {
                    assert(!literal_value_cell(g@.type_tag[i as int]));
                }
                return None;
            },
        };
        status.push(status_cell);
        reason.push(reason_cell);
        type_tag.push(type_cell);
        has_details.push(g.table.details[i].is_some());
        forward.push(g.table.forward[i]);
        i = i + 1;
    }
    let dt = DispatchTable {
        name: g.name.clone(),
        status,
        reason,
        type_tag,
        has_details,
        forward,
    };
    proof {
        assert(g@.status.len() == n);
        assert(g@.reason.len() == n);
        assert(g@.type_tag.len() == n);
        assert(spec_all_literal(g@));
    }
    Some(dt)
}

// ------------------------------------------------------------------
// The transform policy and the built-in reflexive policy
// ------------------------------------------------------------------

/// The response object the transform policy constructs: the status it
/// chose and an opaque JSON body, if it built one.
#[derive(Debug, PartialEq)]
pub struct Response {
    pub status: u16,
    pub body: Option<serde_json::Value>,
}

/// A transform policy: turns one classified error into a response, and
/// supplies the default status used when no layer of the resolution
/// chain yields one.  Implementors replace both operations at will; a
/// policy must be shareable across request-handling threads, so the
/// trait requires `Send` and `Sync`.
pub trait ResponseTransform: Send + Sync {
    /// Builds the response for one classified error.
    #[allow(unused_variables)]
    fn transform(
        &self,
        name: &str,
        err: &ErrorValue,
        status: u16,
        reason: Option<serde_json::Value>,
        type_tag: Option<String>,
        details: Option<serde_json::Value>,
    ) -> Response {
        Response { status, body: None }
    }

    /// The status used when no layer supplies one.
    fn default_error_status_code(&self) -> u16 {
        500
    }
}

/// The built-in policy installed before any replacement: an empty
/// response under the resolved status, and a default status of 500.
/// Its impl carries the contract the trait's defaults cannot: what this
/// policy returns is fixed.
#[derive(Debug, PartialEq, Eq)]
pub struct ReflexiveTransform;

impl ResponseTransform for ReflexiveTransform {
    /// The response with exactly the given status and no body.
    fn transform(
        &self,
        _name: &str,
        _err: &ErrorValue,
        status: u16,
        _reason: Option<serde_json::Value>,
        _type_tag: Option<String>,
        _details: Option<serde_json::Value>,
    ) -> (r: Response)
        ensures
            r.status == status,
            r.body is None,
    {
        Response { status, body: None }
    }

    /// Always 500.
    fn default_error_status_code(&self) -> (r: u16)
        ensures
            r == 500,
    {
        500
    }
}

} // verus!
