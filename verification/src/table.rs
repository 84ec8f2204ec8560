//! The per-variant metadata table.
//!
//! The parsed entries of every variant of one sum-type fold into a table
//! with one row per variant: the explicit `status`, `reason`, `type` and
//! `details` values (a later entry for the same key overwrites an earlier
//! one), and the `forward` and `internal` flags.

use vstd::prelude::*;

use crate::grammar::{entries_view, AnnotationEntry, EntryV, StatusValue, StatusValueV, ValueExpr,
    ValueExprV};

verus! {

/// One variant's name together with its parsed annotation entries.
#[derive(Debug, PartialEq, Eq)]
pub struct VariantEntries {
    pub name: String,
    pub entries: Vec<AnnotationEntry>,
}

/// The metadata table of one sum-type: one row per variant, in the order
/// the variants were declared.
#[derive(Debug, PartialEq, Eq)]
pub struct MetaTable {
    pub names: Vec<String>,
    pub status: Vec<Option<StatusValue>>,
    pub reason: Vec<Option<ValueExpr>>,
    pub type_tag: Vec<Option<ValueExpr>>,
    pub details: Vec<Option<String>>,
    pub forward: Vec<bool>,
    pub internal: Vec<bool>,
}

impl MetaTable {
    /// Every column has one cell per variant.
    pub open spec fn wf(&self) -> bool {
        &&& self.status@.len() == self.names@.len()
        &&& self.reason@.len() == self.names@.len()
        &&& self.type_tag@.len() == self.names@.len()
        &&& self.details@.len() == self.names@.len()
        &&& self.forward@.len() == self.names@.len()
        &&& self.internal@.len() == self.names@.len()
    }

    /// The number of variants.
    pub open spec fn spec_len(&self) -> nat {
        self.names@.len()
    }
}

/// View of an optional value.
pub open spec fn opt_view<T: View>(o: Option<T>) -> Option<T::V> {
    match o {
        None => None,
        Some(x) => Some(x@),
    }
}

/// The value of the last `status` entry, if any.
pub open spec fn last_status(es: Seq<EntryV>) -> Option<StatusValueV>
    decreases es.len(),
{
    if es.len() == 0 {
        None
    } else {
        match es.last() {
            EntryV::Status(v) => Some(v),
            _ => last_status(es.drop_last()),
        }
    }
}

/// The value of the last `reason` entry, if any.
pub open spec fn last_reason(es: Seq<EntryV>) -> Option<ValueExprV>
    decreases es.len(),
{
    if es.len() == 0 {
        None
    } else {
        match es.last() {
            EntryV::Reason(v) => Some(v),
            _ => last_reason(es.drop_last()),
        }
    }
}

/// The value of the last `type` entry, if any.
pub open spec fn last_type_tag(es: Seq<EntryV>) -> Option<ValueExprV>
    decreases es.len(),
{
    if es.len() == 0 {
        None
    } else {
        match es.last() {
            EntryV::TypeTag(v) => Some(v),
            _ => last_type_tag(es.drop_last()),
        }
    }
}

/// The content of the last `details` entry, if any.
pub open spec fn last_details(es: Seq<EntryV>) -> Option<Seq<char>>
    decreases es.len(),
{
    if es.len() == 0 {
        None
    } else {
        match es.last() {
            EntryV::Details(s) => Some(s),
            _ => last_details(es.drop_last()),
        }
    }
}

/// Whether any entry is the `forward` flag.
pub open spec fn has_forward(es: Seq<EntryV>) -> bool
    decreases es.len(),
{
    if es.len() == 0 {
        false
    } else {
        es.last() is Forward || has_forward(es.drop_last())
    }
}

/// Whether any entry is the `internal` flag.
pub open spec fn has_internal(es: Seq<EntryV>) -> bool
    decreases es.len(),
{
    if es.len() == 0 {
        false
    } else {
        es.last() is Internal || has_internal(es.drop_last())
    }
}

/// Row `i` of the table holds exactly what variant `i`'s entries say: the
/// last value of each key, and whether each flag occurs.
pub open spec fn builds_row(t: MetaTable, variants: Seq<VariantEntries>, i: int) -> bool {
    let es = entries_view(variants[i].entries@);
    &&& t.names@[i]@ == variants[i].name@
    &&& opt_view(t.status@[i]) == last_status(es)
    &&& opt_view(t.reason@[i]) == last_reason(es)
    &&& opt_view(t.type_tag@[i]) == last_type_tag(es)
    &&& opt_view(t.details@[i]) == last_details(es)
    &&& t.forward@[i] == has_forward(es)
    &&& t.internal@[i] == has_internal(es)
}

/// A path holding the same segments as `p`.
fn dup_path(p: &Vec<String>) -> (r: Vec<String>)
    ensures
        r@ == p@,
{
    let mut r: Vec<String> = Vec::new();
    let mut i: usize = 0;
    while i < p.len()
        invariant
            i <= p@.len(),
            r@ == p@.take(i as int),
        decreases p@.len() - i,
    {
        r.push(p[i].clone());
        proof {
            assert(r@ =~= p@.take(i + 1 as int));
        }
        i = i + 1;
    }
    proof {
        assert(p@.take(p@.len() as int) =~= p@);
    }
    r
}

/// A `status` value equal to `v`.
fn dup_status(v: &StatusValue) -> (r: StatusValue)
    ensures
        r@ == v@,
{
    match v {
        StatusValue::Code(c) => StatusValue::Code(*c),
        StatusValue::Path(p) => StatusValue::Path(dup_path(p)),
    }
}

/// A `reason` or `type` value equal to `v`.
fn dup_value_expr(v: &ValueExpr) -> (r: ValueExpr)
    ensures
        r@ == v@,
{
    match v {
        ValueExpr::StrLit(s) => ValueExpr::StrLit(s.clone()),
        ValueExpr::Path(p) => ValueExpr::Path(dup_path(p)),
    }
}

/// Folds the parsed entries of every variant into the metadata table.  A
/// later entry for the same key on the same variant overwrites the earlier
/// one; the flags accumulate.
pub fn build_table(variants: &Vec<VariantEntries>) -> (t: MetaTable)
    ensures
        t.wf(),
        t.spec_len() == variants@.len(),
        forall|i: int| 0 <= i < variants@.len() ==> #[trigger] builds_row(t, variants@, i),
{
    let mut t = MetaTable {
        names: Vec::new(),
        status: Vec::new(),
        reason: Vec::new(),
        type_tag: Vec::new(),
        details: Vec::new(),
        forward: Vec::new(),
        internal: Vec::new(),
    };
    let mut i: usize = 0;
    while i < variants.len()
        invariant
            i <= variants@.len(),
            t.wf(),
            t.spec_len() == i,
            forall|k: int| 0 <= k < i ==> #[trigger] builds_row(t, variants@, k),
        decreases variants@.len() - i,
    {
        let v = &variants[i];
        let mut cur_status: Option<StatusValue> = None;
        let mut cur_reason: Option<ValueExpr> = None;
        let mut cur_type: Option<ValueExpr> = None;
        let mut cur_details: Option<String> = None;
        let mut fwd: bool = false;
        let mut internal: bool = false;
        let mut j: usize = 0;
        proof {
            assert(entries_view(v.entries@.take(0)) =~= Seq::<EntryV>::empty());
        }
        while j < v.entries.len()
            invariant
                j <= v.entries@.len(),
                opt_view(cur_status) == last_status(entries_view(v.entries@.take(j as int))),
                opt_view(cur_reason) == last_reason(entries_view(v.entries@.take(j as int))),
                opt_view(cur_type) == last_type_tag(entries_view(v.entries@.take(j as int))),
                opt_view(cur_details) == last_details(entries_view(v.entries@.take(j as int))),
                fwd == has_forward(entries_view(v.entries@.take(j as int))),
                internal == has_internal(entries_view(v.entries@.take(j as int))),
            decreases v.entries@.len() - j,
        {
            let ghost pre = entries_view(v.entries@.take(j as int));
            let ghost post = entries_view(v.entries@.take(j + 1 as int));
            proof {
                assert(post =~= pre.push(v.entries@[j as int]@));
                assert(post.drop_last() =~= pre);
            }
            match &v.entries[j] {
                AnnotationEntry::Internal => {
                    internal = true;
                },
                AnnotationEntry::Forward => {
                    fwd = true;
                },
                AnnotationEntry::Status(sv) => {
                    cur_status = Some(dup_status(sv));
                },
                AnnotationEntry::Reason(ve) => {
                    cur_reason = Some(dup_value_expr(ve));
                },
                AnnotationEntry::TypeTag(ve) => {
                    cur_type = Some(dup_value_expr(ve));
                },
                AnnotationEntry::Details(s) => {
                    cur_details = Some(s.clone());
                },
            }
            j = j + 1;
        }
        proof {
            assert(v.entries@.take(v.entries@.len() as int) =~= v.entries@);
        }
        let ghost t0 = t;
        t.names.push(v.name.clone());
        t.status.push(cur_status);
        t.reason.push(cur_reason);
        t.type_tag.push(cur_type);
        t.details.push(cur_details);
        t.forward.push(fwd);
        t.internal.push(internal);
        i = i + 1;
        proof {
            assert(builds_row(t, variants@, i - 1));
            assert forall|k: int| 0 <= k < i - 1 implies #[trigger] builds_row(
                t,
                variants@,
                k,
            ) by {
                assert(builds_row(t0, variants@, k));
                assert(t.names@[k] == t0.names@[k]);
                assert(t.status@[k] == t0.status@[k]);
                assert(t.reason@[k] == t0.reason@[k]);
                assert(t.type_tag@[k] == t0.type_tag@[k]);
                assert(t.details@[k] == t0.details@[k]);
                assert(t.forward@[k] == t0.forward@[k]);
                assert(t.internal@[k] == t0.internal@[k]);
            }
        }
    }
    t
}

} // verus!
