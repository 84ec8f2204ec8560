//! The annotation grammar.
//!
//! One variant's annotation payload is a comma-separated list of entries.
//! An entry is either a bare flag (`internal`, `forward`) or a key option
//! (`status`, `reason`, `type`, `details`) followed by `=` and a value.  A
//! value is an identifier path (`a::b::c`), a string literal — ordinary
//! or raw, carried as the characters it stands for — or, for `status`, a
//! decimal literal naming a valid status code.  Anything else is a
//! grammar error naming the offending token.
//!
//! The sum-type-level annotation uses a smaller grammar of its own: a
//! comma-separated list of `name = value` assignments, of which only
//! `transform = custom` is meaningful.

use vstd::prelude::*;

use crate::text::{
    parse_u16, spec_parse_u16, spec_string_lit_content, str_to_chars, string_lit_content, is_word,
};
use crate::token::{dup_token, is_comma, is_punct_tok, punct_is, Token, TokenV};

verus! {

// ------------------------------------------------------------------
// Parsed entries and their views
// ------------------------------------------------------------------

/// The value of a `status` option: a literal status code, or a path to a
/// status-code constant resolved later by the host.
#[derive(Debug, PartialEq, Eq)]
pub enum StatusValue {
    Code(u16),
    Path(Vec<String>),
}

/// The value of a `reason` or `type` option: a string literal (carried
/// as the characters it stands for — escapes resolved, raw-string guards
/// stripped), or a path resolved later by the host.
#[derive(Debug, PartialEq, Eq)]
pub enum ValueExpr {
    StrLit(String),
    Path(Vec<String>),
}

/// One parsed annotation entry.
#[derive(Debug, PartialEq, Eq)]
pub enum AnnotationEntry {
    Internal,
    Forward,
    Status(StatusValue),
    Reason(ValueExpr),
    TypeTag(ValueExpr),
    Details(String),
}

/// View of a path: the sequence of its segments.
pub open spec fn path_view(p: Seq<String>) -> Seq<Seq<char>> {
    p.map_values(|s: String| s@)
}

/// Mathematical view of a `status` value.
pub enum StatusValueV {
    Code(u16),
    Path(Seq<Seq<char>>),
}

/// Mathematical view of a `reason` or `type` value.
pub enum ValueExprV {
    StrLit(Seq<char>),
    Path(Seq<Seq<char>>),
}

/// Mathematical view of one annotation entry.
pub enum EntryV {
    Internal,
    Forward,
    Status(StatusValueV),
    Reason(ValueExprV),
    TypeTag(ValueExprV),
    Details(Seq<char>),
}

impl View for StatusValue {
    type V = StatusValueV;

    open spec fn view(&self) -> StatusValueV {
        match self {
            StatusValue::Code(v) => StatusValueV::Code(*v),
            StatusValue::Path(p) => StatusValueV::Path(path_view(p@)),
        }
    }
}

impl View for ValueExpr {
    type V = ValueExprV;

    open spec fn view(&self) -> ValueExprV {
        match self {
            ValueExpr::StrLit(s) => ValueExprV::StrLit(s@),
            ValueExpr::Path(p) => ValueExprV::Path(path_view(p@)),
        }
    }
}

impl View for AnnotationEntry {
    type V = EntryV;

    open spec fn view(&self) -> EntryV {
        match self {
            AnnotationEntry::Internal => EntryV::Internal,
            AnnotationEntry::Forward => EntryV::Forward,
            AnnotationEntry::Status(v) => EntryV::Status(v@),
            AnnotationEntry::Reason(v) => EntryV::Reason(v@),
            AnnotationEntry::TypeTag(v) => EntryV::TypeTag(v@),
            AnnotationEntry::Details(s) => EntryV::Details(s@),
        }
    }
}

/// View of a sequence of parsed entries.
pub open spec fn entries_view(v: Seq<AnnotationEntry>) -> Seq<EntryV> {
    v.map_values(|e: AnnotationEntry| e@)
}

// ------------------------------------------------------------------
// Grammar errors and their views
// ------------------------------------------------------------------

/// A grammar error, naming the offending token where there is one.
#[derive(Debug, PartialEq, Eq)]
pub enum GrammarError {
    /// An entry names an option the grammar does not recognize.
    UnknownOption(String),
    /// A key option is not followed by `=`.
    MissingEquals(String),
    /// A `status` value is neither an identifier path nor a literal.
    InvalidStatus,
    /// A `status` literal is not a decimal status code in the valid range.
    InvalidStatusLiteral,
    /// A `reason` value is neither an identifier path nor a string literal.
    InvalidReason,
    /// A `type` value is neither an identifier path nor a string literal.
    InvalidType,
    /// A `details` value is not a string literal.
    InvalidDetails,
    /// An identifier path is malformed.
    InvalidPath,
    /// A token stands where only `,` or the end of the payload may.
    UnexpectedToken(Token),
    /// A sum-type-level entry is not of the shape `name = value`.
    InvalidAssignment,
    /// The sum-type-level `transform` names a target other than `custom`.
    UnresolvableTransform(String),
}

/// Mathematical view of a grammar error.
pub enum GrammarErrorV {
    UnknownOption(Seq<char>),
    MissingEquals(Seq<char>),
    InvalidStatus,
    InvalidStatusLiteral,
    InvalidReason,
    InvalidType,
    InvalidDetails,
    InvalidPath,
    UnexpectedToken(TokenV),
    InvalidAssignment,
    UnresolvableTransform(Seq<char>),
}

impl View for GrammarError {
    type V = GrammarErrorV;

    open spec fn view(&self) -> GrammarErrorV {
        match self {
            GrammarError::UnknownOption(s) => GrammarErrorV::UnknownOption(s@),
            GrammarError::MissingEquals(s) => GrammarErrorV::MissingEquals(s@),
            GrammarError::InvalidStatus => GrammarErrorV::InvalidStatus,
            GrammarError::InvalidStatusLiteral => GrammarErrorV::InvalidStatusLiteral,
            GrammarError::InvalidReason => GrammarErrorV::InvalidReason,
            GrammarError::InvalidType => GrammarErrorV::InvalidType,
            GrammarError::InvalidDetails => GrammarErrorV::InvalidDetails,
            GrammarError::InvalidPath => GrammarErrorV::InvalidPath,
            GrammarError::UnexpectedToken(t) => GrammarErrorV::UnexpectedToken(t@),
            GrammarError::InvalidAssignment => GrammarErrorV::InvalidAssignment,
            GrammarError::UnresolvableTransform(s) => GrammarErrorV::UnresolvableTransform(s@),
        }
    }
}

// ------------------------------------------------------------------
// The grammar, as recursive specification functions
// ------------------------------------------------------------------

/// The index of the first comma at or after `i`, or the length of `toks`
/// if there is none.
pub open spec fn first_comma_from(toks: Seq<Token>, i: int) -> int
    decreases toks.len() - i,
{
    if !(0 <= i < toks.len()) {
        toks.len() as int
    } else if is_comma(toks[i]) {
        i
    } else {
        first_comma_from(toks, i + 1)
    }
}

/// Where the first comma at or after `i` stands: never before `i`, never
/// past the end, and nothing before it is a comma.
pub proof fn lemma_first_comma_from(toks: Seq<Token>, i: int)
    requires
        0 <= i <= toks.len(),
    ensures
        i <= first_comma_from(toks, i) <= toks.len(),
        first_comma_from(toks, i) < toks.len() ==> is_comma(toks[first_comma_from(toks, i)]),
        forall|k: int| i <= k < first_comma_from(toks, i) ==> !is_comma(#[trigger] toks[k]),
    decreases toks.len() - i,
{
    if i < toks.len() && !is_comma(toks[i]) {
        lemma_first_comma_from(toks, i + 1);
    }
}

/// A scan that saw no comma in `[i, k)` and a comma (or the end) at `k`
/// has found the first comma.
pub proof fn lemma_first_comma_char(toks: Seq<Token>, i: int, k: int)
    requires
        0 <= i <= k <= toks.len(),
        forall|j: int| i <= j < k ==> !is_comma(#[trigger] toks[j]),
        k < toks.len() ==> is_comma(toks[k]),
    ensures
        first_comma_from(toks, i) == k,
    decreases k - i,
{
    if i < k {
        lemma_first_comma_char(toks, i + 1, k);
    }
}

/// An identifier path after its leading identifier: a possibly empty run
/// of `::`-joined identifiers, ending at the first token that does not
/// continue the path.  Returns the segments gathered so far plus the new
/// ones, and the index just past the path.
pub open spec fn spec_path_rest(toks: Seq<Token>, i: int, hi: int, acc: Seq<Seq<char>>) -> Result<
    (Seq<Seq<char>>, int),
    GrammarErrorV,
>
    decreases hi - i,
{
    if i < hi && is_punct_tok(toks[i], ':') {
        if i + 1 < hi && is_punct_tok(toks[i + 1], ':') {
            if i + 2 < hi {
                match toks[i + 2]@ {
                    TokenV::Ident(s) => spec_path_rest(toks, i + 3, hi, acc.push(s)),
                    _ => Err(GrammarErrorV::InvalidPath),
                }
            } else {
                Err(GrammarErrorV::InvalidPath)
            }
        } else {
            Err(GrammarErrorV::InvalidPath)
        }
    } else {
        Ok((acc, i))
    }
}

/// An identifier path starting at `lo`: an identifier, then `::`-joined
/// identifiers.  Returns the segments and the index just past the path.
pub open spec fn spec_path(toks: Seq<Token>, lo: int, hi: int) -> Result<
    (Seq<Seq<char>>, int),
    GrammarErrorV,
> {
    if lo < hi {
        match toks[lo]@ {
            TokenV::Ident(s) => spec_path_rest(toks, lo + 1, hi, seq![s]),
            _ => Err(GrammarErrorV::InvalidPath),
        }
    } else {
        Err(GrammarErrorV::InvalidPath)
    }
}

/// The value of a `status` option, covering `[lo, hi)` exactly.
pub open spec fn spec_status_value(toks: Seq<Token>, lo: int, hi: int) -> Result<
    StatusValueV,
    GrammarErrorV,
> {
    if lo >= hi {
        Err(GrammarErrorV::InvalidStatus)
    } else {
        match toks[lo]@ {
            TokenV::Ident(_) => match spec_path(toks, lo, hi) {
                Err(e) => Err(e),
                Ok((segs, j)) => if j < hi {
                    Err(GrammarErrorV::UnexpectedToken(toks[j]@))
                } else {
                    Ok(StatusValueV::Path(segs))
                },
            },
            TokenV::Literal(text) => match spec_parse_u16(text) {
                Some(v) => if 100 <= v && v <= 999 {
                    if lo + 1 < hi {
                        Err(GrammarErrorV::UnexpectedToken(toks[lo + 1]@))
                    } else {
                        Ok(StatusValueV::Code(v))
                    }
                } else {
                    Err(GrammarErrorV::InvalidStatusLiteral)
                },
                None => Err(GrammarErrorV::InvalidStatusLiteral),
            },
            _ => Err(GrammarErrorV::InvalidStatus),
        }
    }
}

/// The value of a `reason` or `type` option, covering `[lo, hi)` exactly;
/// `err` is the error naming the option when the value has the wrong shape.
pub open spec fn spec_text_value(toks: Seq<Token>, lo: int, hi: int, err: GrammarErrorV) -> Result<
    ValueExprV,
    GrammarErrorV,
> {
    if lo >= hi {
        Err(err)
    } else {
        match toks[lo]@ {
            TokenV::Ident(_) => match spec_path(toks, lo, hi) {
                Err(e) => Err(e),
                Ok((segs, j)) => if j < hi {
                    Err(GrammarErrorV::UnexpectedToken(toks[j]@))
                } else {
                    Ok(ValueExprV::Path(segs))
                },
            },
            TokenV::Literal(text) => match spec_string_lit_content(text) {
                Some(content) => if lo + 1 < hi {
                    Err(GrammarErrorV::UnexpectedToken(toks[lo + 1]@))
                } else {
                    Ok(ValueExprV::StrLit(content))
                },
                None => Err(err),
            },
            _ => Err(err),
        }
    }
}

/// The value of a `details` option, covering `[lo, hi)` exactly: a string
/// literal and nothing else.
pub open spec fn spec_details_value(toks: Seq<Token>, lo: int, hi: int) -> Result<
    Seq<char>,
    GrammarErrorV,
> {
    if lo >= hi {
        Err(GrammarErrorV::InvalidDetails)
    } else {
        match toks[lo]@ {
            TokenV::Literal(text) => match spec_string_lit_content(text) {
                Some(content) => if lo + 1 < hi {
                    Err(GrammarErrorV::UnexpectedToken(toks[lo + 1]@))
                } else {
                    Ok(content)
                },
                None => Err(GrammarErrorV::InvalidDetails),
            },
            _ => Err(GrammarErrorV::InvalidDetails),
        }
    }
}

/// One comma-delimited chunk `[lo, hi)` of the payload: an empty chunk is
/// no entry; a chunk led by anything but an identifier is skipped if it is
/// that one token, and an error otherwise; an identifier leads a flag or a
/// key option.
pub open spec fn spec_chunk_entry(toks: Seq<Token>, lo: int, hi: int) -> Result<
    Option<EntryV>,
    GrammarErrorV,
> {
    if lo >= hi {
        Ok(None)
    } else {
        match toks[lo]@ {
            TokenV::Ident(w) => {
                if w == "internal"@ {
                    if lo + 1 < hi {
                        Err(GrammarErrorV::UnexpectedToken(toks[lo + 1]@))
                    } else {
                        Ok(Some(EntryV::Internal))
                    }
                } else if w == "forward"@ {
                    if lo + 1 < hi {
                        Err(GrammarErrorV::UnexpectedToken(toks[lo + 1]@))
                    } else {
                        Ok(Some(EntryV::Forward))
                    }
                } else if !(lo + 1 < hi && is_punct_tok(toks[lo + 1], '=')) {
                    Err(GrammarErrorV::MissingEquals(w))
                } else if w == "status"@ {
                    match spec_status_value(toks, lo + 2, hi) {
                        Err(e) => Err(e),
                        Ok(v) => Ok(Some(EntryV::Status(v))),
                    }
                } else if w == "reason"@ {
                    match spec_text_value(toks, lo + 2, hi, GrammarErrorV::InvalidReason) {
                        Err(e) => Err(e),
                        Ok(v) => Ok(Some(EntryV::Reason(v))),
                    }
                } else if w == "type"@ {
                    match spec_text_value(toks, lo + 2, hi, GrammarErrorV::InvalidType) {
                        Err(e) => Err(e),
                        Ok(v) => Ok(Some(EntryV::TypeTag(v))),
                    }
                } else if w == "details"@ {
                    match spec_details_value(toks, lo + 2, hi) {
                        Err(e) => Err(e),
                        Ok(v) => Ok(Some(EntryV::Details(v))),
                    }
                } else {
                    Err(GrammarErrorV::UnknownOption(w))
                }
            },
            _ => {
                if lo + 1 < hi {
                    Err(GrammarErrorV::UnexpectedToken(toks[lo + 1]@))
                } else {
                    Ok(None)
                }
            },
        }
    }
}

/// The entries of an optional chunk result.
pub open spec fn opt_entry_seq(o: Option<EntryV>) -> Seq<EntryV> {
    match o {
        None => Seq::empty(),
        Some(e) => seq![e],
    }
}

/// The entries of the payload from index `i` on: chunk by chunk, first
/// error wins.
pub open spec fn spec_entries_from(toks: Seq<Token>, i: int) -> Result<Seq<EntryV>, GrammarErrorV>
    decreases toks.len() - i,
{
    if !(0 <= i < toks.len()) {
        Ok(Seq::empty())
    } else {
        let k = first_comma_from(toks, i);
        match spec_chunk_entry(toks, i, k) {
            Err(e) => Err(e),
            Ok(ent) => if k >= toks.len() {
                Ok(opt_entry_seq(ent))
            } else {
                proof {
                    lemma_first_comma_from(toks, i);
                }
                match spec_entries_from(toks, k + 1) {
                    Err(e) => Err(e),
                    Ok(rest) => Ok(opt_entry_seq(ent) + rest),
                }
            },
        }
    }
}

/// The entries of a whole variant annotation payload.
pub open spec fn spec_entries(toks: Seq<Token>) -> Result<Seq<EntryV>, GrammarErrorV> {
    spec_entries_from(toks, 0)
}

// ------------------------------------------------------------------
// The executable parser
// ------------------------------------------------------------------

/// The index of the first comma at or after `from`.
fn find_comma(toks: &Vec<Token>, from: usize) -> (k: usize)
    requires
        from <= toks@.len(),
    ensures
        from <= k <= toks@.len(),
        k == first_comma_from(toks@, from as int),
{
    let mut k: usize = from;
    while k < toks.len() && !punct_is(&toks[k], ',')
        invariant
            from <= k <= toks@.len(),
            forall|j: int| from <= j < k ==> !is_comma(#[trigger] toks@[j]),
        decreases toks@.len() - k,
    {
        k = k + 1;
    }
    proof {
        lemma_first_comma_char(toks@, from as int, k as int);
    }
    k
}

/// An identifier path starting at `lo`, ending at the first token that
/// does not continue it.
fn parse_path(toks: &Vec<Token>, lo: usize, hi: usize) -> (r: Result<
    (Vec<String>, usize),
    GrammarError,
>)
    requires
        lo <= hi <= toks@.len(),
    ensures
        match r {
            Ok((segs, j)) => spec_path(toks@, lo as int, hi as int) == Ok::<
                _,
                GrammarErrorV,
            >((path_view(segs@), j as int)) && lo <= j <= hi,
            Err(e) => spec_path(toks@, lo as int, hi as int) == Err::<
                (Seq<Seq<char>>, int),
                _,
            >(e@),
        },
{
    if !(lo < hi) {
        return Err(GrammarError::InvalidPath);
    }
    let first: String = match &toks[lo] {
        Token::Ident(s) => s.clone(),
        _ => {
            return Err(GrammarError::InvalidPath);
        },
    };
    let mut segs: Vec<String> = Vec::new();
    segs.push(first);
    let mut j: usize = lo + 1;
    proof {
        assert(path_view(segs@) =~= seq![toks@[lo as int]@->Ident_0]);
    }
    while j < hi && punct_is(&toks[j], ':')
        invariant
            lo < j <= hi <= toks@.len(),
            spec_path(toks@, lo as int, hi as int) == spec_path_rest(
                toks@,
                j as int,
                hi as int,
                path_view(segs@),
            ),
        decreases hi - j,
    {
        if !(j + 1 < hi && punct_is(&toks[j + 1], ':')) {
            return Err(GrammarError::InvalidPath);
        }
        if !(j + 2 < hi) {
            return Err(GrammarError::InvalidPath);
        }
        let seg: String = match &toks[j + 2] {
            Token::Ident(s) => s.clone(),
            _ => {
                return Err(GrammarError::InvalidPath);
            },
        };
        let ghost old_segs = segs@;
        segs.push(seg);
        proof {
            assert(path_view(segs@) =~= path_view(old_segs).push(toks@[j + 2]@->Ident_0));
        }
        j = j + 3;
    }
    Ok((segs, j))
}

/// The value of a `status` option covering `[lo, hi)`.
fn parse_status_value(toks: &Vec<Token>, lo: usize, hi: usize) -> (r: Result<
    StatusValue,
    GrammarError,
>)
    requires
        lo <= hi <= toks@.len(),
    ensures
        match r {
            Ok(v) => spec_status_value(toks@, lo as int, hi as int) == Ok::<_, GrammarErrorV>(v@),
            Err(e) => spec_status_value(toks@, lo as int, hi as int) == Err::<StatusValueV, _>(e@),
        },
{
    if !(lo < hi) {
        return Err(GrammarError::InvalidStatus);
    }
    match &toks[lo] {
        Token::Ident(_) => match parse_path(toks, lo, hi) {
            Err(e) => Err(e),
            Ok((segs, j)) => if j < hi {
                Err(GrammarError::UnexpectedToken(dup_token(&toks[j])))
            } else {
                Ok(StatusValue::Path(segs))
            },
        },
        Token::Literal(text) => {
            let chars = str_to_chars(text.as_str());
            match parse_u16(&chars) {
                Some(v) => if 100 <= v && v <= 999 {
                    if lo + 1 < hi {
                        Err(GrammarError::UnexpectedToken(dup_token(&toks[lo + 1])))
                    } else {
                        Ok(StatusValue::Code(v))
                    }
                } else {
                    Err(GrammarError::InvalidStatusLiteral)
                },
                None => Err(GrammarError::InvalidStatusLiteral),
            }
        },
        _ => Err(GrammarError::InvalidStatus),
    }
}

/// The value of a `reason` or `type` option covering `[lo, hi)`; for a
/// `type` option the shape errors name `type` rather than `reason`.
fn parse_text_value(toks: &Vec<Token>, lo: usize, hi: usize, is_type: bool) -> (r: Result<
    ValueExpr,
    GrammarError,
>)
    requires
        lo <= hi <= toks@.len(),
    ensures
        ({
            let err = if is_type {
                GrammarErrorV::InvalidType
            } else {
                GrammarErrorV::InvalidReason
            };
            match r {
                Ok(v) => spec_text_value(toks@, lo as int, hi as int, err) == Ok::<
                    _,
                    GrammarErrorV,
                >(v@),
                Err(e) => spec_text_value(toks@, lo as int, hi as int, err) == Err::<
                    ValueExprV,
                    _,
                >(e@),
            }
        }),
{
    let shape_err = if is_type {
        GrammarError::InvalidType
    } else {
        GrammarError::InvalidReason
    };
    if !(lo < hi) {
        return Err(shape_err);
    }
    match &toks[lo] {
        Token::Ident(_) => match parse_path(toks, lo, hi) {
            Err(e) => Err(e),
            Ok((segs, j)) => if j < hi {
                Err(GrammarError::UnexpectedToken(dup_token(&toks[j])))
            } else {
                Ok(ValueExpr::Path(segs))
            },
        },
        Token::Literal(text) => match string_lit_content(text) {
            Some(content) => if lo + 1 < hi {
                Err(GrammarError::UnexpectedToken(dup_token(&toks[lo + 1])))
            } else {
                Ok(ValueExpr::StrLit(content))
            },
            None => Err(shape_err),
        },
        _ => Err(shape_err),
    }
}

/// The value of a `details` option covering `[lo, hi)`.
fn parse_details_value(toks: &Vec<Token>, lo: usize, hi: usize) -> (r: Result<String, GrammarError>)
    requires
        lo <= hi <= toks@.len(),
    ensures
        match r {
            Ok(v) => spec_details_value(toks@, lo as int, hi as int) == Ok::<_, GrammarErrorV>(v@),
            Err(e) => spec_details_value(toks@, lo as int, hi as int) == Err::<Seq<char>, _>(e@),
        },
{
    if !(lo < hi) {
        return Err(GrammarError::InvalidDetails);
    }
    match &toks[lo] {
        Token::Literal(text) => match string_lit_content(text) {
            Some(content) => if lo + 1 < hi {
                Err(GrammarError::UnexpectedToken(dup_token(&toks[lo + 1])))
            } else {
                Ok(content)
            },
            None => Err(GrammarError::InvalidDetails),
        },
        _ => Err(GrammarError::InvalidDetails),
    }
}

/// View of an optional parsed entry.
pub open spec fn opt_entry_view(o: Option<AnnotationEntry>) -> Option<EntryV> {
    match o {
        None => None,
        Some(e) => Some(e@),
    }
}

/// One comma-delimited chunk `[lo, hi)` of the payload.
fn parse_chunk(toks: &Vec<Token>, lo: usize, hi: usize) -> (r: Result<
    Option<AnnotationEntry>,
    GrammarError,
>)
    requires
        lo <= hi <= toks@.len(),
    ensures
        match r {
            Ok(o) => spec_chunk_entry(toks@, lo as int, hi as int) == Ok::<_, GrammarErrorV>(
                opt_entry_view(o),
            ),
            Err(e) => spec_chunk_entry(toks@, lo as int, hi as int) == Err::<Option<EntryV>, _>(
                e@,
            ),
        },
{
    if !(lo < hi) {
        return Ok(None);
    }
    match &toks[lo] {
        Token::Ident(w) => {
            if is_word(w, "internal") {
                if lo + 1 < hi {
                    Err(GrammarError::UnexpectedToken(dup_token(&toks[lo + 1])))
                } else {
                    Ok(Some(AnnotationEntry::Internal))
                }
            } else if is_word(w, "forward") {
                if lo + 1 < hi {
                    Err(GrammarError::UnexpectedToken(dup_token(&toks[lo + 1])))
                } else {
                    Ok(Some(AnnotationEntry::Forward))
                }
            } else if !(lo + 1 < hi && punct_is(&toks[lo + 1], '=')) {
                Err(GrammarError::MissingEquals(w.clone()))
            } else if is_word(w, "status") {
                match parse_status_value(toks, lo + 2, hi) {
                    Err(e) => Err(e),
                    Ok(v) => Ok(Some(AnnotationEntry::Status(v))),
                }
            } else if is_word(w, "reason") {
                match parse_text_value(toks, lo + 2, hi, false) {
                    Err(e) => Err(e),
                    Ok(v) => Ok(Some(AnnotationEntry::Reason(v))),
                }
            } else if is_word(w, "type") {
                match parse_text_value(toks, lo + 2, hi, true) {
                    Err(e) => Err(e),
                    Ok(v) => Ok(Some(AnnotationEntry::TypeTag(v))),
                }
            } else if is_word(w, "details") {
                match parse_details_value(toks, lo + 2, hi) {
                    Err(e) => Err(e),
                    Ok(v) => Ok(Some(AnnotationEntry::Details(v))),
                }
            } else {
                Err(GrammarError::UnknownOption(w.clone()))
            }
        },
        _ => {
            if lo + 1 < hi {
                Err(GrammarError::UnexpectedToken(dup_token(&toks[lo + 1])))
            } else {
                Ok(None)
            }
        },
    }
}

/// Prefixes an already-parsed run of entries to a parse result.
pub open spec fn combine_entries(pre: Seq<EntryV>, r: Result<Seq<EntryV>, GrammarErrorV>) -> Result<
    Seq<EntryV>,
    GrammarErrorV,
> {
    match r {
        Ok(v) => Ok(pre + v),
        Err(e) => Err(e),
    }
}

/// Parses one variant's annotation payload into its entries, or the first
/// grammar error.
pub fn parse_annotation(toks: &Vec<Token>) -> (r: Result<Vec<AnnotationEntry>, GrammarError>)
    ensures
        match r {
            Ok(v) => spec_entries(toks@) == Ok::<_, GrammarErrorV>(entries_view(v@)),
            Err(e) => spec_entries(toks@) == Err::<Seq<EntryV>, _>(e@),
        },
{
    let mut out: Vec<AnnotationEntry> = Vec::new();
    let mut pos: usize = 0;
    proof {
        assert(combine_entries(entries_view(out@), spec_entries_from(toks@, 0)) == spec_entries_from(
            toks@,
            0,
        )) by {
            match spec_entries_from(toks@, 0) {
                Ok(v) => {
                    assert(entries_view(out@) + v =~= v);
                },
                Err(_) => {},
            }
        }
    }
    loop
        invariant
            pos <= toks@.len(),
            combine_entries(entries_view(out@), spec_entries_from(toks@, pos as int))
                == spec_entries_from(toks@, 0),
        decreases toks@.len() - pos,
    {
        if pos >= toks.len() {
            proof {
                assert(entries_view(out@) + Seq::<EntryV>::empty() =~= entries_view(out@));
            }
            return Ok(out);
        }
        let k = find_comma(toks, pos);
        let chunk = parse_chunk(toks, pos, k);
        match chunk {
            Err(e) => {
                return Err(e);
            },
            Ok(o) => {
                let ghost pre = entries_view(out@);
                let ghost ent = opt_entry_view(o);
                match o {
                    Some(e) => out.push(e),
                    None => {},
                }
                proof {
                    assert(entries_view(out@) =~= pre + opt_entry_seq(ent));
                }
                if k >= toks.len() {
                    proof {
                        assert(spec_entries_from(toks@, pos as int) == Ok::<_, GrammarErrorV>(
                            opt_entry_seq(ent),
                        ));
                    }
                    return Ok(out);
                }
                proof {
                    match spec_entries_from(toks@, k + 1) {
                        Ok(rest) => {
                            assert((pre + opt_entry_seq(ent)) + rest =~= pre + (opt_entry_seq(ent)
                                + rest));
                        },
                        Err(_) => {},
                    }
                }
                pos = k + 1;
            },
        }
    }
}

// ------------------------------------------------------------------
// The sum-type-level annotation: `name = value` assignments
// ------------------------------------------------------------------

/// One side of an assignment: an identifier path or a literal.  Only a
/// single plain identifier is recorded; any other well-formed operand is
/// read over and ignored.  Returns the recorded identifier, if any, and
/// the index just past the operand.
pub open spec fn spec_operand(toks: Seq<Token>, lo: int, hi: int) -> Result<
    (Option<Seq<char>>, int),
    GrammarErrorV,
> {
    if lo >= hi {
        Err(GrammarErrorV::InvalidAssignment)
    } else {
        match toks[lo]@ {
            TokenV::Ident(_) => match spec_path(toks, lo, hi) {
                Err(_) => Err(GrammarErrorV::InvalidAssignment),
                Ok((segs, j)) => Ok(
                    (
                        if segs.len() == 1 {
                            Some(segs[0])
                        } else {
                            None
                        },
                        j,
                    ),
                ),
            },
            TokenV::Literal(_) => Ok((None, lo + 1)),
            _ => Err(GrammarErrorV::InvalidAssignment),
        }
    }
}

/// One comma-delimited chunk of the sum-type-level annotation: empty, or
/// `operand = operand` covering the chunk exactly.  The pair is recorded
/// only when both sides are single plain identifiers.
pub open spec fn spec_assign_chunk(toks: Seq<Token>, lo: int, hi: int) -> Result<
    Option<(Seq<char>, Seq<char>)>,
    GrammarErrorV,
> {
    if lo >= hi {
        Ok(None)
    } else {
        match spec_operand(toks, lo, hi) {
            Err(e) => Err(e),
            Ok((l, j)) => if j < hi && is_punct_tok(toks[j], '=') {
                match spec_operand(toks, j + 1, hi) {
                    Err(e) => Err(e),
                    Ok((r0, k)) => if k == hi {
                        match (l, r0) {
                            (Some(a), Some(b)) => Ok(Some((a, b))),
                            _ => Ok(None),
                        }
                    } else {
                        Err(GrammarErrorV::InvalidAssignment)
                    },
                }
            } else {
                Err(GrammarErrorV::InvalidAssignment)
            },
        }
    }
}

/// The pairs of an optional assignment result.
pub open spec fn opt_pair_seq(o: Option<(Seq<char>, Seq<char>)>) -> Seq<(Seq<char>, Seq<char>)> {
    match o {
        None => Seq::empty(),
        Some(p) => seq![p],
    }
}

/// The recorded assignment pairs from index `i` on, chunk by chunk.
pub open spec fn spec_assigns_from(toks: Seq<Token>, i: int) -> Result<
    Seq<(Seq<char>, Seq<char>)>,
    GrammarErrorV,
>
    decreases toks.len() - i,
{
    if !(0 <= i < toks.len()) {
        Ok(Seq::empty())
    } else {
        let k = first_comma_from(toks, i);
        match spec_assign_chunk(toks, i, k) {
            Err(e) => Err(e),
            Ok(p) => if k >= toks.len() {
                Ok(opt_pair_seq(p))
            } else {
                proof {
                    lemma_first_comma_from(toks, i);
                }
                match spec_assigns_from(toks, k + 1) {
                    Err(e) => Err(e),
                    Ok(rest) => Ok(opt_pair_seq(p) + rest),
                }
            },
        }
    }
}

/// The last value assigned to `key`, if any.
pub open spec fn last_assign(pairs: Seq<(Seq<char>, Seq<char>)>, key: Seq<char>) -> Option<
    Seq<char>,
>
    decreases pairs.len(),
{
    if pairs.len() == 0 {
        None
    } else if pairs.last().0 == key {
        Some(pairs.last().1)
    } else {
        last_assign(pairs.drop_last(), key)
    }
}

/// Whether one sum-type-level annotation payload opts into the custom
/// transform: its recorded assignments give `transform` the final value
/// `custom`.  A `transform` whose final target is anything else is
/// unresolvable, a generation-time failure naming that target.
pub open spec fn spec_type_annotation(toks: Seq<Token>) -> Result<bool, GrammarErrorV> {
    match spec_assigns_from(toks, 0) {
        Err(e) => Err(e),
        Ok(pairs) => match last_assign(pairs, "transform"@) {
            Some(v) => if v == "custom"@ {
                Ok(true)
            } else {
                Err(GrammarErrorV::UnresolvableTransform(v))
            },
            None => Ok(false),
        },
    }
}

/// One side of an assignment.
fn parse_operand(toks: &Vec<Token>, lo: usize, hi: usize) -> (r: Result<
    (Option<String>, usize),
    GrammarError,
>)
    requires
        lo <= hi <= toks@.len(),
    ensures
        match r {
            Ok((l, j)) => spec_operand(toks@, lo as int, hi as int) == Ok::<_, GrammarErrorV>(
                (opt_string_view(l), j as int),
            ) && lo <= j <= hi,
            Err(e) => spec_operand(toks@, lo as int, hi as int) == Err::<
                (Option<Seq<char>>, int),
                _,
            >(e@),
        },
{
    if !(lo < hi) {
        return Err(GrammarError::InvalidAssignment);
    }
    match &toks[lo] {
        Token::Ident(_) => match parse_path(toks, lo, hi) {
            Err(_) => Err(GrammarError::InvalidAssignment),
            Ok((mut segs, j)) => {
                if segs.len() == 1 {
                    let seg = segs.pop().unwrap();
                    proof {
                        assert(path_view(segs@.push(seg))[0] == seg@);
                    }
                    Ok((Some(seg), j))
                } else {
                    Ok((None, j))
                }
            },
        },
        Token::Literal(_) => Ok((None, lo + 1)),
        _ => Err(GrammarError::InvalidAssignment),
    }
}

/// View of an optional recorded identifier.
pub open spec fn opt_string_view(o: Option<String>) -> Option<Seq<char>> {
    match o {
        None => None,
        Some(s) => Some(s@),
    }
}

/// View of an optional recorded pair.
pub open spec fn opt_pair_view(o: Option<(String, String)>) -> Option<(Seq<char>, Seq<char>)> {
    match o {
        None => None,
        Some(p) => Some((p.0@, p.1@)),
    }
}

/// One comma-delimited chunk of the sum-type-level annotation.
fn parse_assign_chunk(toks: &Vec<Token>, lo: usize, hi: usize) -> (r: Result<
    Option<(String, String)>,
    GrammarError,
>)
    requires
        lo <= hi <= toks@.len(),
    ensures
        match r {
            Ok(o) => spec_assign_chunk(toks@, lo as int, hi as int) == Ok::<_, GrammarErrorV>(
                opt_pair_view(o),
            ),
            Err(e) => spec_assign_chunk(toks@, lo as int, hi as int) == Err::<
                Option<(Seq<char>, Seq<char>)>,
                _,
            >(e@),
        },
{
    if !(lo < hi) {
        return Ok(None);
    }
    match parse_operand(toks, lo, hi) {
        Err(e) => Err(e),
        Ok((l, j)) => {
            if !(j < hi && punct_is(&toks[j], '=')) {
                return Err(GrammarError::InvalidAssignment);
            }
            match parse_operand(toks, j + 1, hi) {
                Err(e) => Err(e),
                Ok((r0, k)) => {
                    if k != hi {
                        return Err(GrammarError::InvalidAssignment);
                    }
                    match (l, r0) {
                        (Some(a), Some(b)) => Ok(Some((a, b))),
                        _ => Ok(None),
                    }
                },
            }
        },
    }
}

/// Prefixes already-recorded pairs to an assignment-list result.
pub open spec fn combine_assigns(
    pre: Seq<(Seq<char>, Seq<char>)>,
    r: Result<Seq<(Seq<char>, Seq<char>)>, GrammarErrorV>,
) -> Result<Seq<(Seq<char>, Seq<char>)>, GrammarErrorV> {
    match r {
        Ok(v) => Ok(pre + v),
        Err(e) => Err(e),
    }
}

/// Parses one sum-type-level annotation payload; `true` means the
/// sum-type opts into the custom transform, and a `transform` naming any
/// other target is an error.
pub fn parse_type_annotation(toks: &Vec<Token>) -> (r: Result<bool, GrammarError>)
    ensures
        match r {
            Ok(b) => spec_type_annotation(toks@) == Ok::<_, GrammarErrorV>(b),
            Err(e) => spec_type_annotation(toks@) == Err::<bool, _>(e@),
        },
{
    let mut cur: Option<String> = None;
    let ghost mut pairs: Seq<(Seq<char>, Seq<char>)> = Seq::empty();
    let mut pos: usize = 0;
    proof {
        assert(combine_assigns(pairs, spec_assigns_from(toks@, 0)) == spec_assigns_from(toks@, 0))
            by {
            match spec_assigns_from(toks@, 0) {
                Ok(v) => {
                    assert(pairs + v =~= v);
                },
                Err(_) => {},
            }
        }
    }
    loop
        invariant
            pos <= toks@.len(),
            combine_assigns(pairs, spec_assigns_from(toks@, pos as int)) == spec_assigns_from(
                toks@,
                0,
            ),
            opt_string_view(cur) == last_assign(pairs, "transform"@),
        decreases toks@.len() - pos,
    {
        if pos >= toks.len() {
            proof {
                assert(pairs + Seq::<(Seq<char>, Seq<char>)>::empty() =~= pairs);
            }
            return match cur {
                Some(s) => if is_word(&s, "custom") {
                    Ok(true)
                } else {
                    Err(GrammarError::UnresolvableTransform(s))
                },
                None => Ok(false),
            };
        }
        let k = find_comma(toks, pos);
        match parse_assign_chunk(toks, pos, k) {
            Err(e) => {
                return Err(e);
            },
            Ok(o) => {
                let ghost pre = pairs;
                let ghost p = opt_pair_view(o);
                proof {
                    pairs = pre + opt_pair_seq(p);
                }
                match o {
                    Some((a, b)) => {
                        proof {
                            assert(pairs =~= pre.push((a@, b@)));
                            assert(pairs.drop_last() =~= pre);
                        }
                        if is_word(&a, "transform") {
                            cur = Some(b);
                        } else {
                        }
                    },
                    None => {
                        proof {
                            assert(pairs =~= pre);
                        }
                    },
                }
                if k >= toks.len() {
                    proof {
                        assert(pairs + Seq::<(Seq<char>, Seq<char>)>::empty() =~= pairs);
                    }
                    return match cur {
                        Some(s) => if is_word(&s, "custom") {
                            Ok(true)
                        } else {
                            Err(GrammarError::UnresolvableTransform(s))
                        },
                        None => Ok(false),
                    };
                }
                proof {
                    match spec_assigns_from(toks@, k + 1) {
                        Ok(rest) => {
                            assert((pre + opt_pair_seq(p)) + rest =~= pre + (opt_pair_seq(p)
                                + rest));
                        },
                        Err(_) => {},
                    }
                }
                pos = k + 1;
            },
        }
    }
}

} // verus!
