//! Hover answers: compose the resolved element with the schema snapshot.

use vstd::prelude::*;
use crate::resolve::{
    lemma_resolved_range_in_source, resolve, spec_resolve, EnrichedAst, Hoverable, HoverableView,
    SyntaxTree, Token,
};
use crate::schema::{spec_find_table, SchemaCache, Table};
use crate::text::TextRange;

verus! {

/// Everything a hover request carries: the cursor offset, the document text,
/// the parse artifacts, and the snapshot to answer from.
pub struct HoverParams {
    pub position: u32,
    pub source: String,
    pub ast: Option<EnrichedAst>,
    pub tree: SyntaxTree,
    pub schema_cache: SchemaCache,
}

/// A hover answer: its content, and the source range of the reference it
/// describes.
#[derive(Debug)]
pub struct HoverResult {
    pub range: Option<TextRange>,
    pub content: String,
}

/// Mathematical image of a hover answer.
pub struct HoverResultView {
    pub range: Option<TextRange>,
    pub content: Seq<char>,
}

/// The content shown for a table: its name, and its comment on a following
/// line when one exists.
pub open spec fn spec_hover_content(t: Table) -> Seq<char> {
    match t.comment {
        Some(c) => t.name@ + "\n"@ + c@,
        None => t.name@,
    }
}

/// The hover rule: resolve the element under the cursor; a relation
/// reference that the snapshot knows yields the table's content at the
/// reference's own range; anything else yields nothing.
pub open spec fn spec_hover(
    position: u32,
    source: Seq<char>,
    ast: Option<EnrichedAst>,
    tokens: Seq<Token>,
    tables: Seq<Table>,
) -> Option<HoverResultView> {
    match spec_resolve(ast, tokens, source, position) {
        Some(HoverableView::Relation(rv)) => match spec_find_table(tables, rv.name, rv.schema) {
            Some(ti) => Some(
                HoverResultView { range: Some(rv.range), content: spec_hover_content(tables[ti]) },
            ),
            None => None,
        },
        Some(HoverableView::Column(_)) => None,
        None => None,
    }
}

/// The view of an optional hover answer.
pub open spec fn opt_hover_view(r: Option<HoverResult>) -> Option<HoverResultView> {
    match r {
        Some(h) => Some(HoverResultView { range: h.range, content: h.content@ }),
        None => None,
    }
}

/// Answer a hover request against an immutable snapshot. Pure and free of
/// side effects: concurrent requests may share one snapshot.
pub fn hover(params: HoverParams) -> (r: Option<HoverResult>)
    requires
        params.tree.wf(params.source@.len() as int),
        params.ast matches Some(a) ==> a.wf(params.source@.len() as int),
    ensures
        opt_hover_view(r) == spec_hover(
            params.position,
            params.source@,
            params.ast,
            params.tree.tokens@,
            params.schema_cache.tables@,
        ),
        match r {
            Some(h) => match h.range {
                Some(rg) => rg.wf() && rg.end <= params.source@.len(),
                None => true,
            },
            None => true,
        },
{
    proof {
        lemma_hover_range_in_source(
            params.position,
            params.source@,
            params.ast,
            params.tree,
            params.schema_cache.tables@,
        );
    }
    let elem = resolve(params.position, params.ast, &params.tree, params.source.as_str());
    match elem {
        Some(Hoverable::Relation(rr)) => {
            let schema_ref: Option<&str> = match &rr.schema {
                Some(s) => Some(s.as_str()),
                None => None,
            };
            match params.schema_cache.find_table(rr.name.as_str(), schema_ref) {
                Some(t) => {
                    let mut content = t.name.clone();
                    match &t.comment {
                        Some(c) => {
                            content.append("\n");
                            content.append(c.as_str());
                        },
                        None => {},
                    }
                    Some(HoverResult { range: Some(rr.range), content })
                },
                None => None,
            }
        },
        Some(Hoverable::Column(_)) => None,
        None => None,
    }
}

/// A hover answer's range, when present, is always a sub-range of the
/// document text that produced it.
pub proof fn lemma_hover_range_in_source(
    position: u32,
    source: Seq<char>,
    ast: Option<EnrichedAst>,
    tree: SyntaxTree,
    tables: Seq<Table>,
)
    requires
        ast matches Some(a) ==> a.wf(source.len() as int),
        tree.wf(source.len() as int),
    ensures
        match spec_hover(position, source, ast, tree.tokens@, tables) {
            Some(hv) => hv.range matches Some(rg) && rg.wf() && rg.end <= source.len(),
            None => true,
        },
{
    lemma_resolved_range_in_source(ast, tree, source, position);
}

} // verus!
