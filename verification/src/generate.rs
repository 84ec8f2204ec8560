//! The generation pass for one sum-type.
//!
//! Given the sum-type's name, its own annotation payloads and each
//! variant's annotation payloads, the pass parses every payload, folds the
//! entries into the metadata table, rewrites each `details` value of the
//! shape `{0<suffix>}` into a field access rooted at the bound payload
//! name, and reads the sum-type-level `transform = custom` opt-in.  Any
//! grammar error, any `details` value not of that shape, and any malformed
//! sum-type-level annotation abort the pass with a diagnostic naming the
//! offending variant or token.

use vstd::prelude::*;

use crate::grammar::{combine_entries, entries_view, spec_entries, spec_type_annotation,
    AnnotationEntry, EntryV, GrammarError, GrammarErrorV, StatusValue, StatusValueV, ValueExpr,
    ValueExprV, parse_annotation, parse_type_annotation};
use crate::table::{build_table, builds_row, has_forward, has_internal, last_details, last_reason,
    last_status, last_type_tag, opt_view, MetaTable, VariantEntries};
use crate::text::{push_char, str_to_chars};
use crate::token::Token;

verus! {

// ------------------------------------------------------------------
// Input, output and errors
// ------------------------------------------------------------------

/// One variant's name and its annotation payloads, one per attribute on
/// the variant, in declaration order.
#[derive(Debug, PartialEq, Eq)]
pub struct VariantInput {
    pub name: String,
    pub groups: Vec<Vec<Token>>,
}

/// Why the generation pass aborted.
#[derive(Debug, PartialEq, Eq)]
pub enum GenerateError {
    /// A variant's annotation payload broke the grammar.
    Grammar { variant: String, error: GrammarError },
    /// A variant's `details` value is not of the shape `{0<suffix>}`.
    DetailsPattern { variant: String },
    /// The sum-type-level annotation broke the assignment grammar.
    TypeAnnotation { error: GrammarError },
}

/// Mathematical view of a generation error.
pub enum GenerateErrorV {
    Grammar { variant: Seq<char>, error: GrammarErrorV },
    DetailsPattern { variant: Seq<char> },
    TypeAnnotation { error: GrammarErrorV },
}

impl View for GenerateError {
    type V = GenerateErrorV;

    open spec fn view(&self) -> GenerateErrorV {
        match self {
            GenerateError::Grammar { variant, error } => GenerateErrorV::Grammar {
                variant: variant@,
                error: error@,
            },
            GenerateError::DetailsPattern { variant } => GenerateErrorV::DetailsPattern {
                variant: variant@,
            },
            GenerateError::TypeAnnotation { error } => GenerateErrorV::TypeAnnotation {
                error: error@,
            },
        }
    }
}

/// What the pass emits for one sum-type: the metadata table, the rewritten
/// `details` field access per variant, and the transform opt-in.
#[derive(Debug, PartialEq, Eq)]
pub struct Generated {
    pub name: String,
    pub table: MetaTable,
    pub details_expr: Vec<Option<String>>,
    pub custom_transform: bool,
}

impl Generated {
    /// The table is well-formed and the rewritten details column has one
    /// cell per variant.
    pub open spec fn wf(&self) -> bool {
        &&& self.table.wf()
        &&& self.details_expr@.len() == self.table.spec_len()
    }
}

/// Mathematical view of the pass's output.
pub struct GeneratedV {
    pub name: Seq<char>,
    pub names: Seq<Seq<char>>,
    pub status: Seq<Option<StatusValueV>>,
    pub reason: Seq<Option<ValueExprV>>,
    pub type_tag: Seq<Option<ValueExprV>>,
    pub details: Seq<Option<Seq<char>>>,
    pub forward: Seq<bool>,
    pub internal: Seq<bool>,
    pub details_expr: Seq<Option<Seq<char>>>,
    pub custom_transform: bool,
}

impl View for Generated {
    type V = GeneratedV;

    open spec fn view(&self) -> GeneratedV {
        GeneratedV {
            name: self.name@,
            names: self.table.names@.map_values(|s: String| s@),
            status: self.table.status@.map_values(|o: Option<StatusValue>| opt_view(o)),
            reason: self.table.reason@.map_values(|o: Option<ValueExpr>| opt_view(o)),
            type_tag: self.table.type_tag@.map_values(|o: Option<ValueExpr>| opt_view(o)),
            details: self.table.details@.map_values(|o: Option<String>| opt_view(o)),
            forward: self.table.forward@,
            internal: self.table.internal@,
            details_expr: self.details_expr@.map_values(|o: Option<String>| opt_view(o)),
            custom_transform: self.custom_transform,
        }
    }
}

// ------------------------------------------------------------------
// The details rewrite
// ------------------------------------------------------------------

/// The rewrite of a `details` value: a content of the exact shape
/// `{0<suffix>}` becomes `details<suffix>`, a field access rooted at the
/// bound payload name; any other content has no rewrite.
pub open spec fn spec_details_rewrite(content: Seq<char>) -> Option<Seq<char>> {
    if content.len() >= 3 && content[0] == '{' && content[1] == '0' && content.last() == '}' {
        Some("details"@ + content.subrange(2, content.len() - 1))
    } else {
        None
    }
}

/// Rewrites a `details` value into its field-access expression.
pub fn rewrite_details(content: &String) -> (r: Option<String>)
    ensures
        match r {
            Some(s) => spec_details_rewrite(content@) == Some(s@),
            None => spec_details_rewrite(content@) is None,
        },
{
    let chars = str_to_chars(content.as_str());
    if !(chars.len() >= 3 && chars[0] == '{' && chars[1] == '0' && chars[chars.len() - 1] == '}') {
        return None;
    }
    let mut out: String = "details".to_owned();
    let mut i: usize = 2;
    proof {
        assert(out@ =~= "details"@ + chars@.subrange(2, 2));
    }
    while i < chars.len() - 1
        invariant
            2 <= i <= chars@.len() - 1,
            chars@ == content@,
            chars@.len() >= 3,
            out@ == "details"@ + chars@.subrange(2, i as int),
        decreases chars@.len() - 1 - i,
    {
        push_char(&mut out, chars[i]);
        i = i + 1;
        proof {
            assert(out@ =~= "details"@ + chars@.subrange(2, i as int));
        }
    }
    Some(out)
}

// ------------------------------------------------------------------
// The pass, as recursive specification functions
// ------------------------------------------------------------------

/// The entries of one variant: its payloads parsed and joined in order,
/// or the first grammar error.
pub open spec fn spec_groups_entries_from(groups: Seq<Vec<Token>>, j: int) -> Result<
    Seq<EntryV>,
    GrammarErrorV,
>
    decreases groups.len() - j,
{
    if !(0 <= j < groups.len()) {
        Ok(Seq::empty())
    } else {
        match spec_entries(groups[j]@) {
            Err(e) => Err(e),
            Ok(es) => match spec_groups_entries_from(groups, j + 1) {
                Err(e) => Err(e),
                Ok(rest) => Ok(es + rest),
            },
        }
    }
}

/// The entries of one variant's annotations.
pub open spec fn spec_variant_entries(v: VariantInput) -> Result<Seq<EntryV>, GrammarErrorV> {
    spec_groups_entries_from(v.groups@, 0)
}

/// The entries of every variant from index `i` on, or the first grammar
/// error, named after its variant.
pub open spec fn spec_parsed_variants_from(variants: Seq<VariantInput>, i: int) -> Result<
    Seq<Seq<EntryV>>,
    GenerateErrorV,
>
    decreases variants.len() - i,
{
    if !(0 <= i < variants.len()) {
        Ok(Seq::empty())
    } else {
        match spec_variant_entries(variants[i]) {
            Err(e) => Err(GenerateErrorV::Grammar { variant: variants[i].name@, error: e }),
            Ok(es) => match spec_parsed_variants_from(variants, i + 1) {
                Err(e) => Err(e),
                Ok(rest) => Ok(seq![es] + rest),
            },
        }
    }
}

/// The rewritten `details` column from variant `i` on: the winning
/// `details` value of each variant rewritten, or the first variant whose
/// value has no rewrite.
pub open spec fn spec_details_column_from(
    variants: Seq<VariantInput>,
    parsed: Seq<Seq<EntryV>>,
    i: int,
) -> Result<Seq<Option<Seq<char>>>, GenerateErrorV>
    decreases parsed.len() - i,
{
    if !(0 <= i < parsed.len()) {
        Ok(Seq::empty())
    } else {
        let rest = spec_details_column_from(variants, parsed, i + 1);
        match last_details(parsed[i]) {
            None => match rest {
                Err(e) => Err(e),
                Ok(r) => Ok(seq![None] + r),
            },
            Some(content) => match spec_details_rewrite(content) {
                None => Err(GenerateErrorV::DetailsPattern { variant: variants[i].name@ }),
                Some(expr) => match rest {
                    Err(e) => Err(e),
                    Ok(r) => Ok(seq![Some(expr)] + r),
                },
            },
        }
    }
}

/// The sum-type-level opt-in: whether any payload, read in order, resolves
/// `transform` to `custom`; a payload that breaks the assignment grammar
/// before one does aborts the pass.
pub open spec fn spec_custom_from(groups: Seq<Vec<Token>>, j: int) -> Result<bool, GrammarErrorV>
    decreases groups.len() - j,
{
    if !(0 <= j < groups.len()) {
        Ok(false)
    } else {
        match spec_type_annotation(groups[j]@) {
            Err(e) => Err(e),
            Ok(b) => if b {
                Ok(true)
            } else {
                spec_custom_from(groups, j + 1)
            },
        }
    }
}

/// What the whole pass emits for one sum-type, or why it aborts: grammar
/// errors first, then the details rewrite, then the sum-type-level
/// annotation.
pub open spec fn spec_generate(
    name: Seq<char>,
    type_groups: Seq<Vec<Token>>,
    variants: Seq<VariantInput>,
) -> Result<GeneratedV, GenerateErrorV> {
    match spec_parsed_variants_from(variants, 0) {
        Err(e) => Err(e),
        Ok(parsed) => match spec_details_column_from(variants, parsed, 0) {
            Err(e) => Err(e),
            Ok(dexprs) => match spec_custom_from(type_groups, 0) {
                Err(e) => Err(GenerateErrorV::TypeAnnotation { error: e }),
                Ok(custom) => Ok(
                    GeneratedV {
                        name: name,
                        names: variants.map_values(|v: VariantInput| v.name@),
                        status: parsed.map_values(|es: Seq<EntryV>| last_status(es)),
                        reason: parsed.map_values(|es: Seq<EntryV>| last_reason(es)),
                        type_tag: parsed.map_values(|es: Seq<EntryV>| last_type_tag(es)),
                        details: parsed.map_values(|es: Seq<EntryV>| last_details(es)),
                        forward: parsed.map_values(|es: Seq<EntryV>| has_forward(es)),
                        internal: parsed.map_values(|es: Seq<EntryV>| has_internal(es)),
                        details_expr: dexprs,
                        custom_transform: custom,
                    },
                ),
            },
        },
    }
}

// ------------------------------------------------------------------
// The executable pass
// ------------------------------------------------------------------

/// Prefixes already-parsed variants to a parse result.
pub open spec fn combine_parsed(
    pre: Seq<Seq<EntryV>>,
    r: Result<Seq<Seq<EntryV>>, GenerateErrorV>,
) -> Result<Seq<Seq<EntryV>>, GenerateErrorV> {
    match r {
        Ok(v) => Ok(pre + v),
        Err(e) => Err(e),
    }
}

/// Prefixes already-rewritten cells to a details-column result.
pub open spec fn combine_details(
    pre: Seq<Option<Seq<char>>>,
    r: Result<Seq<Option<Seq<char>>>, GenerateErrorV>,
) -> Result<Seq<Option<Seq<char>>>, GenerateErrorV> {
    match r {
        Ok(v) => Ok(pre + v),
        Err(e) => Err(e),
    }
}

/// Runs the generation pass for one sum-type.
pub fn generate(name: String, type_groups: &Vec<Vec<Token>>, variants: &Vec<VariantInput>) -> (r:
    Result<Generated, GenerateError>)
    ensures
        match r {
            Ok(g) => spec_generate(name@, type_groups@, variants@) == Ok::<_, GenerateErrorV>(g@)
                && g.wf(),
            Err(e) => spec_generate(name@, type_groups@, variants@) == Err::<GeneratedV, _>(e@),
        },
{
    // Parse every variant's payloads.
    let mut parsed: Vec<VariantEntries> = Vec::new();
    let ghost mut pvs: Seq<Seq<EntryV>> = Seq::empty();
    let mut i: usize = 0;
    proof {
        assert(combine_parsed(pvs, spec_parsed_variants_from(variants@, 0))
            == spec_parsed_variants_from(variants@, 0)) by {
            match spec_parsed_variants_from(variants@, 0) {
                Ok(v) => {
                    assert(pvs + v =~= v);
                },
                Err(_) => {},
            }
        }
    }
    while i < variants.len()
        invariant
            i <= variants@.len(),
            parsed@.len() == i,
            pvs.len() == i,
            forall|k: int|
                0 <= k < i ==> (#[trigger] parsed@[k]).name@ == variants@[k].name@ && entries_view(
                    parsed@[k].entries@,
                ) == pvs[k],
            combine_parsed(pvs, spec_parsed_variants_from(variants@, i as int))
                == spec_parsed_variants_from(variants@, 0),
        decreases variants@.len() - i,
    {
        let v = &variants[i];
        let mut es: Vec<AnnotationEntry> = Vec::new();
        let mut j: usize = 0;
        proof {
            assert(combine_entries(
                entries_view(es@),
                spec_groups_entries_from(v.groups@, 0),
            ) == spec_groups_entries_from(v.groups@, 0)) by {
                match spec_groups_entries_from(v.groups@, 0) {
                    Ok(w) => {
                        assert(entries_view(es@) + w =~= w);
                    },
                    Err(_) => {},
                }
            }
        }
        while j < v.groups.len()
            invariant
                j <= v.groups@.len(),
                i < variants@.len(),
                *v == variants@[i as int],
                combine_parsed(pvs, spec_parsed_variants_from(variants@, i as int))
                    == spec_parsed_variants_from(variants@, 0),
                combine_entries(entries_view(es@), spec_groups_entries_from(v.groups@, j as int))
                    == spec_groups_entries_from(v.groups@, 0),
            decreases v.groups@.len() - j,
        {
            match parse_annotation(&v.groups[j]) {
                Err(e) => {
                    proof {
                        assert(spec_groups_entries_from(v.groups@, j as int) == Err::<
                            Seq<EntryV>,
                            _,
                        >(e@));
                        assert(spec_groups_entries_from(v.groups@, 0) == Err::<Seq<EntryV>, _>(
                            e@,
                        ));
                        assert(spec_variant_entries(variants@[i as int]) == Err::<
                            Seq<EntryV>,
                            _,
                        >(e@));
                        assert(spec_parsed_variants_from(variants@, i as int) == Err::<
                            Seq<Seq<EntryV>>,
                            _,
                        >(
                            GenerateErrorV::Grammar {
                                variant: variants@[i as int].name@,
                                error: e@,
                            },
                        ));
                    }
                    return Err(GenerateError::Grammar { variant: v.name.clone(), error: e });
                },
                Ok(mut more) => {
                    let ghost pre = entries_view(es@);
                    let ghost add = entries_view(more@);
                    es.append(&mut more);
                    proof {
                        assert(entries_view(es@) =~= pre + add);
                        match spec_groups_entries_from(v.groups@, j + 1) {
                            Ok(rest) => {
                                assert((pre + add) + rest =~= pre + (add + rest));
                            },
                            Err(_) => {},
                        }
                    }
                    j = j + 1;
                },
            }
        }
        proof {
            assert(entries_view(es@) + Seq::<EntryV>::empty() =~= entries_view(es@));
            assert(spec_variant_entries(variants@[i as int]) == Ok::<_, GrammarErrorV>(
                entries_view(es@),
            ));
        }
        let ghost pvs0 = pvs;
        proof {
            pvs = pvs0 + seq![entries_view(es@)];
        }
        parsed.push(VariantEntries { name: v.name.clone(), entries: es });
        proof {
            assert(pvs[i as int] == entries_view(parsed@[i as int].entries@));
            match spec_parsed_variants_from(variants@, i + 1) {
                Ok(rest) => {
                    assert((pvs0 + seq![pvs[i as int]]) + rest =~= pvs0 + (seq![pvs[i as int]]
                        + rest));
                },
                Err(_) => {},
            }
        }
        i = i + 1;
    }
    proof {
        assert(pvs + Seq::<Seq<EntryV>>::empty() =~= pvs);
        assert(spec_parsed_variants_from(variants@, 0) == Ok::<_, GenerateErrorV>(pvs));
    }
    // Fold the entries into the table.
    let table = build_table(&parsed);
    proof {
        assert forall|k: int| 0 <= k < variants@.len() implies builds_row(table, parsed@, k)
            && entries_view(parsed@[k].entries@) == pvs[k] by {
            assert(builds_row(table, parsed@, k));
        }
    }
    // Rewrite the winning details value of each variant.
    let mut dexprs: Vec<Option<String>> = Vec::new();
    let ghost dvs_spec = spec_details_column_from(variants@, pvs, 0);
    let mut d: usize = 0;
    proof {
        assert(combine_details(
            dexprs@.map_values(|o: Option<String>| opt_view(o)),
            spec_details_column_from(variants@, pvs, 0),
        ) == spec_details_column_from(variants@, pvs, 0)) by {
            match spec_details_column_from(variants@, pvs, 0) {
                Ok(w) => {
                    assert(dexprs@.map_values(|o: Option<String>| opt_view(o)) + w =~= w);
                },
                Err(_) => {},
            }
        }
    }
    while d < parsed.len()
        invariant
            d <= parsed@.len(),
            parsed@.len() == variants@.len(),
            pvs.len() == variants@.len(),
            table.wf(),
            table.spec_len() == variants@.len(),
            dexprs@.len() == d,
            spec_parsed_variants_from(variants@, 0) == Ok::<_, GenerateErrorV>(pvs),
            forall|k: int| 0 <= k < variants@.len() ==> #[trigger] builds_row(table, parsed@, k),
            forall|k: int|
                0 <= k < variants@.len() ==> (#[trigger] parsed@[k]).name@ == variants@[k].name@
                    && entries_view(parsed@[k].entries@) == pvs[k],
            combine_details(
                dexprs@.map_values(|o: Option<String>| opt_view(o)),
                spec_details_column_from(variants@, pvs, d as int),
            ) == spec_details_column_from(variants@, pvs, 0),
        decreases parsed@.len() - d,
    {
        let ghost pre = dexprs@.map_values(|o: Option<String>| opt_view(o));
        proof {
            assert(builds_row(table, parsed@, d as int));
        }
        let cell: Option<String> = match &table.details[d] {
            None => None,
            Some(content) => match rewrite_details(content) {
                None => {
                    proof {
                        assert(last_details(pvs[d as int]) == Some(content@));
                        assert(spec_details_column_from(variants@, pvs, d as int) == Err::<
                            Seq<Option<Seq<char>>>,
                            _,
                        >(GenerateErrorV::DetailsPattern { variant: variants@[d as int].name@ }));
                        assert(table.names@[d as int]@ == variants@[d as int].name@);
                    }
                    return Err(GenerateError::DetailsPattern { variant: table.names[d].clone() });
                },
                Some(s) => Some(s),
            },
        };
        dexprs.push(cell);
        proof {
            assert(dexprs@.map_values(|o: Option<String>| opt_view(o)) =~= pre.push(
                opt_view(dexprs@.last()),
            ));
            match spec_details_column_from(variants@, pvs, d + 1) {
                Ok(rest) => {
                    assert((pre + seq![opt_view(dexprs@.last())]) + rest =~= pre + (seq![
                        opt_view(dexprs@.last()),
                    ] + rest));
                },
                Err(_) => {},
            }
            assert(pre.push(opt_view(dexprs@.last())) =~= pre + seq![opt_view(dexprs@.last())]);
        }
        d = d + 1;
    }
    proof {
        assert(dexprs@.map_values(|o: Option<String>| opt_view(o)) + Seq::<
            Option<Seq<char>>,
        >::empty() =~= dexprs@.map_values(|o: Option<String>| opt_view(o)));
        assert(spec_details_column_from(variants@, pvs, 0) == Ok::<_, GenerateErrorV>(
            dexprs@.map_values(|o: Option<String>| opt_view(o)),
        ));
    }
    // Read the sum-type-level opt-in.
    let mut custom: bool = false;
    let mut g: usize = 0;
    while g < type_groups.len() && !custom
        invariant
            g <= type_groups@.len(),
            spec_parsed_variants_from(variants@, 0) == Ok::<_, GenerateErrorV>(pvs),
            spec_details_column_from(variants@, pvs, 0) == Ok::<_, GenerateErrorV>(
                dexprs@.map_values(|o: Option<String>| opt_view(o)),
            ),
            !custom ==> spec_custom_from(type_groups@, g as int) == spec_custom_from(
                type_groups@,
                0,
            ),
            custom ==> spec_custom_from(type_groups@, 0) == Ok::<_, GrammarErrorV>(true),
        decreases type_groups@.len() - g,
    {
        match parse_type_annotation(&type_groups[g]) {
            Err(e) => {
                proof {
                    assert(spec_custom_from(type_groups@, g as int) == Err::<bool, _>(e@));
                }
                return Err(GenerateError::TypeAnnotation { error: e });
            },
            Ok(b) => {
                if b {
                    custom = true;
                }
                g = g + 1;
            },
        }
    }
    let out = Generated { name, table, details_expr: dexprs, custom_transform: custom };
    proof {
        let s = spec_generate(out.name@, type_groups@, variants@);
        assert(out@.names =~= variants@.map_values(|v: VariantInput| v.name@)) by {
            assert forall|k: int| 0 <= k < variants@.len() implies out.table.names@.map_values(
                |s: String| s@,
            )[k] == variants@[k].name@ by {
                assert(builds_row(out.table, parsed@, k));
            }
        }
        assert(out@.status =~= pvs.map_values(|es: Seq<EntryV>| last_status(es))) by {
            assert forall|k: int| 0 <= k < variants@.len() implies out.table.status@.map_values(
                |o: Option<StatusValue>| opt_view(o),
            )[k] == last_status(pvs[k]) by {
                assert(builds_row(out.table, parsed@, k));
            }
        }
        assert(out@.reason =~= pvs.map_values(|es: Seq<EntryV>| last_reason(es))) by {
            assert forall|k: int| 0 <= k < variants@.len() implies out.table.reason@.map_values(
                |o: Option<ValueExpr>| opt_view(o),
            )[k] == last_reason(pvs[k]) by {
                assert(builds_row(out.table, parsed@, k));
            }
        }
        assert(out@.type_tag =~= pvs.map_values(|es: Seq<EntryV>| last_type_tag(es))) by {
            assert forall|k: int| 0 <= k < variants@.len() implies out.table.type_tag@.map_values(
                |o: Option<ValueExpr>| opt_view(o),
            )[k] == last_type_tag(pvs[k]) by {
                assert(builds_row(out.table, parsed@, k));
            }
        }
        assert(out@.details =~= pvs.map_values(|es: Seq<EntryV>| last_details(es))) by {
            assert forall|k: int| 0 <= k < variants@.len() implies out.table.details@.map_values(
                |o: Option<String>| opt_view(o),
            )[k] == last_details(pvs[k]) by {
                assert(builds_row(out.table, parsed@, k));
            }
        }
        assert(out@.forward =~= pvs.map_values(|es: Seq<EntryV>| has_forward(es))) by {
            assert forall|k: int| 0 <= k < variants@.len() implies out.table.forward@[k]
                == has_forward(pvs[k]) by {
                assert(builds_row(out.table, parsed@, k));
            }
        }
        assert(out@.internal =~= pvs.map_values(|es: Seq<EntryV>| has_internal(es))) by {
            assert forall|k: int| 0 <= k < variants@.len() implies out.table.internal@[k]
                == has_internal(pvs[k]) by {
                assert(builds_row(out.table, parsed@, k));
            }
        }
        assert(s == Ok::<_, GenerateErrorV>(out@));
    }
    Ok(out)
}

} // verus!
