//! Mapping a cursor offset to the semantic element under it.
//!
//! Two strategies exist. When an enriched AST is available its nodes already
//! carry resolved meanings, and the smallest node containing the offset wins.
//! When only a raw token stream is available, a less precise heuristic
//! classifies an identifier by the reserved keyword in front of it. The
//! enriched AST, when present, is used exclusively.

use vstd::prelude::*;
use crate::strutil::{seq_eq_ci, str_eq_ci};
use crate::text::TextRange;

verus! {

/// Mathematical image of a relation reference.
pub struct RelationRefView {
    pub name: Seq<char>,
    pub schema: Option<Seq<char>>,
    pub range: TextRange,
}

/// Mathematical image of a column reference.
pub struct ColumnRefView {
    pub name: Seq<char>,
    pub range: TextRange,
}

/// Mathematical image of a hoverable element.
pub enum HoverableView {
    Relation(RelationRefView),
    Column(ColumnRefView),
}

/// A reference to a relation, optionally qualified by a schema name, found at
/// a source range.
#[derive(Debug)]
pub struct RelationRef {
    pub name: String,
    pub schema: Option<String>,
    pub range: TextRange,
}

/// A reference to a column, found at a source range.
#[derive(Debug)]
pub struct ColumnRef {
    pub name: String,
    pub range: TextRange,
}

/// A classified semantic element found under a cursor offset.
#[derive(Debug)]
pub enum Hoverable {
    Relation(RelationRef),
    Column(ColumnRef),
}

impl View for RelationRef {
    type V = RelationRefView;

    open spec fn view(&self) -> RelationRefView {
        RelationRefView {
            name: self.name@,
            schema: match self.schema {
                Some(s) => Some(s@),
                None => None,
            },
            range: self.range,
        }
    }
}

impl View for ColumnRef {
    type V = ColumnRefView;

    open spec fn view(&self) -> ColumnRefView {
        ColumnRefView { name: self.name@, range: self.range }
    }
}

impl View for Hoverable {
    type V = HoverableView;

    open spec fn view(&self) -> HoverableView {
        match self {
            Hoverable::Relation(r) => HoverableView::Relation(r@),
            Hoverable::Column(c) => HoverableView::Column(c@),
        }
    }
}

/// The view of an optional hoverable.
pub open spec fn opt_hoverable_view(r: Option<Hoverable>) -> Option<HoverableView> {
    match r {
        Some(h) => Some(h@),
        None => None,
    }
}

/// What a node of the enriched AST means, as resolved at parse time.
#[derive(Debug)]
pub enum NodeMeaning {
    Relation { name: String, schema: Option<String> },
    Column { name: String },
    Plain,
}

/// One node of the enriched AST: a source range and its resolved meaning.
#[derive(Debug)]
pub struct AstNode {
    pub range: TextRange,
    pub meaning: NodeMeaning,
}

/// The semantic parse artifact: nodes with resolved meanings.
#[derive(Debug)]
pub struct EnrichedAst {
    pub nodes: Vec<AstNode>,
}

impl EnrichedAst {
    /// Every node range is well formed and lies inside the source text.
    pub open spec fn wf(self, source_len: int) -> bool {
        forall|i: int|
            0 <= i < self.nodes@.len() ==> (#[trigger] self.nodes@[i]).range.wf()
                && self.nodes@[i].range.end <= source_len
    }
}

/// Among the first `n` nodes, the index of the smallest node containing
/// `offset`; the earliest such node wins a tie.
pub open spec fn best_node_upto(nodes: Seq<AstNode>, offset: u32, n: int) -> Option<int>
    decreases n,
{
    if n <= 0 {
        None
    } else {
        let prev = best_node_upto(nodes, offset, n - 1);
        let j = n - 1;
        if nodes[j].range.spec_contains(offset) {
            match prev {
                Some(k) => if nodes[j].range.spec_len() < nodes[k].range.spec_len() {
                    Some(j)
                } else {
                    Some(k)
                },
                None => Some(j),
            }
        } else {
            prev
        }
    }
}

/// Turn the winning node into a hoverable element; a node with no semantic
/// meaning yields nothing.
pub open spec fn classify(node: AstNode) -> Option<HoverableView> {
    match node.meaning {
        NodeMeaning::Relation { name, schema } => Some(
            HoverableView::Relation(
                RelationRefView {
                    name: name@,
                    schema: match schema {
                        Some(s) => Some(s@),
                        None => None,
                    },
                    range: node.range,
                },
            ),
        ),
        NodeMeaning::Column { name } => Some(
            HoverableView::Column(ColumnRefView { name: name@, range: node.range }),
        ),
        NodeMeaning::Plain => None,
    }
}

/// Resolution through the enriched AST: classify the smallest node whose
/// range contains the offset.
pub open spec fn spec_resolve_ast(nodes: Seq<AstNode>, offset: u32) -> Option<HoverableView> {
    match best_node_upto(nodes, offset, nodes.len() as int) {
        Some(i) => classify(nodes[i]),
        None => None,
    }
}

/// Walk the semantic AST for the smallest node whose source range contains
/// the cursor offset, and classify it.
pub fn resolve_from_enriched_ast(position: u32, ast: EnrichedAst) -> (r: Option<Hoverable>)
    ensures
        opt_hoverable_view(r) == spec_resolve_ast(ast.nodes@, position),
{
    let n = ast.nodes.len();
    let mut best: Option<usize> = None;
    let mut i: usize = 0;
    while i < n
        invariant
            n == ast.nodes@.len(),
            i <= n,
            match best {
                Some(b) => b < i && best_node_upto(ast.nodes@, position, i as int) == Some(
                    b as int,
                ) && ast.nodes@[b as int].range.spec_contains(position),
                None => best_node_upto(ast.nodes@, position, i as int) is None,
            },
        decreases n - i,
    {
        if ast.nodes[i].range.contains(position) {
            match best {
                Some(b) => {
                    if ast.nodes[i].range.len() < ast.nodes[b].range.len() {
                        best = Some(i);
                    }
                },
                None => {
                    best = Some(i);
                },
            }
        }
        i = i + 1;
    }
    match best {
        Some(b) => {
            match &ast.nodes[b].meaning {
                NodeMeaning::Relation { name, schema } => {
                    let schema_copy: Option<String> = match schema {
                        Some(s) => Some(s.clone()),
                        None => None,
                    };
                    Some(
                        Hoverable::Relation(
                            RelationRef {
                                name: name.clone(),
                                schema: schema_copy,
                                range: ast.nodes[b].range,
                            },
                        ),
                    )
                },
                NodeMeaning::Column { name } => Some(
                    Hoverable::Column(ColumnRef { name: name.clone(), range: ast.nodes[b].range }),
                ),
                NodeMeaning::Plain => None,
            }
        },
        None => None,
    }
}

/// What kind of terminal a token of the raw syntax tree is.
#[derive(Clone, Copy, PartialEq, Eq, Structural, Debug)]
pub enum TokenKind {
    Keyword,
    Ident,
    Dot,
    Other,
}

/// One terminal of the raw syntax tree: its kind and its source range.
#[derive(Clone, Copy, PartialEq, Eq, Structural, Debug)]
pub struct Token {
    pub kind: TokenKind,
    pub range: TextRange,
}

/// The raw parse artifact: the terminals of the concrete syntax tree in
/// source order.
#[derive(Debug)]
pub struct SyntaxTree {
    pub tokens: Vec<Token>,
}

impl SyntaxTree {
    /// Tokens are non-empty, lie inside the source, and come in source order
    /// without overlapping.
    pub open spec fn wf(self, source_len: int) -> bool {
        &&& forall|i: int|
            0 <= i < self.tokens@.len() ==> (#[trigger] self.tokens@[i]).range.start
                < self.tokens@[i].range.end && self.tokens@[i].range.end <= source_len
        &&& forall|i: int, j: int|
            0 <= i < j < self.tokens@.len() ==> (#[trigger] self.tokens@[i]).range.end <= (
            #[trigger] self.tokens@[j]).range.start
    }
}

/// Index of the first token whose range contains the offset.
pub open spec fn token_at(tokens: Seq<Token>, offset: u32) -> Option<int>
    decreases tokens.len(),
{
    if tokens.len() == 0 {
        None
    } else {
        match token_at(tokens.drop_last(), offset) {
            Some(i) => Some(i),
            None => {
                let j = tokens.len() - 1;
                if tokens[j].range.spec_contains(offset) {
                    Some(j)
                } else {
                    None
                }
            },
        }
    }
}

/// The characters a token covers.
pub open spec fn token_text(source: Seq<char>, t: Token) -> Seq<char> {
    source.subrange(t.range.start as int, t.range.end as int)
}

/// The reserved keywords after which an identifier names a relation.
pub open spec fn is_relation_keyword(s: Seq<char>) -> bool {
    ||| seq_eq_ci(s, "from"@)
    ||| seq_eq_ci(s, "join"@)
    ||| seq_eq_ci(s, "update"@)
    ||| seq_eq_ci(s, "into"@)
}

/// Resolution through the raw tokens: the identifier under the cursor names
/// a relation when it directly follows a relation keyword, or when it
/// completes a `qualifier.name` pair whose qualifier follows one.
pub open spec fn spec_resolve_tree(tokens: Seq<Token>, source: Seq<char>, offset: u32) -> Option<
    HoverableView,
> {
    match token_at(tokens, offset) {
        None => None,
        Some(i) => {
            let t = tokens[i];
            if !(t.kind is Ident) {
                None
            } else if i >= 1 && tokens[i - 1].kind is Keyword && is_relation_keyword(
                token_text(source, tokens[i - 1]),
            ) {
                Some(
                    HoverableView::Relation(
                        RelationRefView {
                            name: token_text(source, t),
                            schema: None,
                            range: t.range,
                        },
                    ),
                )
            } else if i >= 3 && tokens[i - 1].kind is Dot && tokens[i - 2].kind is Ident && tokens[i
                - 3].kind is Keyword && is_relation_keyword(token_text(source, tokens[i - 3])) {
                Some(
                    HoverableView::Relation(
                        RelationRefView {
                            name: token_text(source, t),
                            schema: Some(token_text(source, tokens[i - 2])),
                            range: t.range,
                        },
                    ),
                )
            } else {
                None
            }
        },
    }
}

/// Once a prefix scan has found a containing token, the longer prefixes and
/// the full sequence report that same first hit.
proof fn lemma_token_at_extend(tokens: Seq<Token>, offset: u32, k: int)
    requires
        0 <= k <= tokens.len(),
        token_at(tokens.take(k), offset) is Some,
    ensures
        token_at(tokens, offset) == token_at(tokens.take(k), offset),
    decreases tokens.len() - k,
{
    if k < tokens.len() {
        assert(tokens.take(k + 1).drop_last() =~= tokens.take(k));
        lemma_token_at_extend(tokens, offset, k + 1);
    } else {
        assert(tokens.take(k) =~= tokens);
    }
}

/// Decide whether a string is one of the relation keywords, up to ASCII case.
fn relation_keyword(s: &str) -> (r: bool)
    ensures
        r == is_relation_keyword(s@),
{
    str_eq_ci(s, "from") || str_eq_ci(s, "join") || str_eq_ci(s, "update") || str_eq_ci(s, "into")
}

/// Find the index of the first token whose range contains the offset.
fn find_token_at(tree: &SyntaxTree, position: u32) -> (r: Option<usize>)
    ensures
        match r {
            Some(idx) => token_at(tree.tokens@, position) == Some(idx as int) && idx
                < tree.tokens@.len(),
            None => token_at(tree.tokens@, position) is None,
        },
{
    let n = tree.tokens.len();
    let mut i: usize = 0;
    while i < n
        invariant
            n == tree.tokens@.len(),
            i <= n,
            token_at(tree.tokens@.take(i as int), position) is None,
        decreases n - i,
    {
        proof {
            assert(tree.tokens@.take(i + 1).drop_last() =~= tree.tokens@.take(i as int));
            assert(tree.tokens@.take(i + 1)[i as int] == tree.tokens@[i as int]);
        }
        if tree.tokens[i].range.contains(position) {
            proof {
                assert(token_at(tree.tokens@.take(i + 1), position) == Some(i as int));
                lemma_token_at_extend(tree.tokens@, position, i + 1);
            }
            return Some(i);
        }
        i = i + 1;
    }
    proof {
        assert(tree.tokens@.take(n as int) =~= tree.tokens@);
    }
    None
}

/// Locate the terminal covering the offset in the raw token stream and
/// heuristically classify it against the source text.
#[verifier::rlimit(30)]
pub fn resolve_from_tree_sitter(position: u32, tree: &SyntaxTree, source: &str) -> (r: Option<
    Hoverable,
>)
    requires
        tree.wf(source@.len() as int),
    ensures
        opt_hoverable_view(r) == spec_resolve_tree(tree.tokens@, source@, position),
{
    let hit = find_token_at(tree, position);
    match hit {
        None => None,
        Some(idx) => {
            let t = tree.tokens[idx];
            if !matches!(t.kind, TokenKind::Ident) {
                return None;
            }
            if idx >= 1 {
                let prev = tree.tokens[idx - 1];
                if matches!(prev.kind, TokenKind::Keyword) {
                    let kw = source.substring_char(
                        prev.range.start as usize,
                        prev.range.end as usize,
                    );
                    if relation_keyword(kw) {
                        let name_str = source.substring_char(
                            t.range.start as usize,
                            t.range.end as usize,
                        );
                        return Some(
                            Hoverable::Relation(
                                RelationRef {
                                    name: String::from_str(name_str),
                                    schema: None,
                                    range: t.range,
                                },
                            ),
                        );
                    }
                }
            }
            if idx >= 3 {
                let dot = tree.tokens[idx - 1];
                let qual = tree.tokens[idx - 2];
                let kw_tok = tree.tokens[idx - 3];
                if matches!(dot.kind, TokenKind::Dot) && matches!(qual.kind, TokenKind::Ident)
                    && matches!(kw_tok.kind, TokenKind::Keyword) {
                    let kw = source.substring_char(
                        kw_tok.range.start as usize,
                        kw_tok.range.end as usize,
                    );
                    if relation_keyword(kw) {
                        let name_str = source.substring_char(
                            t.range.start as usize,
                            t.range.end as usize,
                        );
                        let qual_str = source.substring_char(
                            qual.range.start as usize,
                            qual.range.end as usize,
                        );
                        return Some(
                            Hoverable::Relation(
                                RelationRef {
                                    name: String::from_str(name_str),
                                    schema: Some(String::from_str(qual_str)),
                                    range: t.range,
                                },
                            ),
                        );
                    }
                }
            }
            None
        },
    }
}

/// The artifact priority rule: an enriched AST, when present, is used
/// exclusively; the token heuristic serves only as a fallback.
pub open spec fn spec_resolve(
    ast: Option<EnrichedAst>,
    tokens: Seq<Token>,
    source: Seq<char>,
    position: u32,
) -> Option<HoverableView> {
    match ast {
        Some(a) => spec_resolve_ast(a.nodes@, position),
        None => spec_resolve_tree(tokens, source, position),
    }
}

/// Resolve the element under the cursor from whichever parse artifact is
/// available, preferring the enriched AST unconditionally.
pub fn resolve(position: u32, ast: Option<EnrichedAst>, tree: &SyntaxTree, source: &str) -> (r:
    Option<Hoverable>)
    requires
        tree.wf(source@.len() as int),
    ensures
        opt_hoverable_view(r) == spec_resolve(ast, tree.tokens@, source@, position),
{
    match ast {
        Some(a) => resolve_from_enriched_ast(position, a),
        None => resolve_from_tree_sitter(position, tree, source),
    }
}

/// The winning node always exists among the first `n` and contains the
/// offset.
proof fn lemma_best_node_in_bounds(nodes: Seq<AstNode>, offset: u32, n: int)
    requires
        0 <= n <= nodes.len(),
    ensures
        best_node_upto(nodes, offset, n) matches Some(k) ==> 0 <= k < n && nodes[
            k
        ].range.spec_contains(offset),
    decreases n,
{
    if n > 0 {
        lemma_best_node_in_bounds(nodes, offset, n - 1);
    }
}

/// The hit token always exists and contains the offset.
proof fn lemma_token_at_in_bounds(tokens: Seq<Token>, offset: u32)
    ensures
        token_at(tokens, offset) matches Some(k) ==> 0 <= k < tokens.len() && tokens[
            k
        ].range.spec_contains(offset),
    decreases tokens.len(),
{
    if tokens.len() > 0 {
        lemma_token_at_in_bounds(tokens.drop_last(), offset);
    }
}

/// Whichever strategy resolves the element, its range lies inside the
/// document text the parse artifacts were built from.
pub proof fn lemma_resolved_range_in_source(
    ast: Option<EnrichedAst>,
    tree: SyntaxTree,
    source: Seq<char>,
    position: u32,
)
    requires
        ast matches Some(a) ==> a.wf(source.len() as int),
        tree.wf(source.len() as int),
    ensures
        match spec_resolve(ast, tree.tokens@, source, position) {
            Some(HoverableView::Relation(rv)) => rv.range.wf() && rv.range.end <= source.len(),
            Some(HoverableView::Column(cv)) => cv.range.wf() && cv.range.end <= source.len(),
            None => true,
        },
{
    match ast {
        Some(a) => {
            lemma_best_node_in_bounds(a.nodes@, position, a.nodes@.len() as int);
        },
        None => {
            lemma_token_at_in_bounds(tree.tokens@, position);
        },
    }
}

/// Resolver priority: with an enriched AST present, the resolved element is
/// the AST's answer, whatever the raw tokens would have suggested.
pub proof fn lemma_resolver_priority(
    ast: EnrichedAst,
    tokens: Seq<Token>,
    source: Seq<char>,
    position: u32,
)
    ensures
        spec_resolve(Some(ast), tokens, source, position) == spec_resolve_ast(ast.nodes@, position),
{
}

} // verus!
