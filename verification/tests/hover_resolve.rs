use pg_lsp::hover::{hover, HoverParams};
use pg_lsp::resolve::{
    resolve, AstNode, EnrichedAst, Hoverable, NodeMeaning, SyntaxTree, Token, TokenKind,
};
use pg_lsp::schema::{SchemaCache, Table};
use pg_lsp::text::TextRange;

fn table(schema: &str, name: &str, comment: Option<&str>) -> Table {
    Table {
        schema: schema.to_string(),
        name: name.to_string(),
        comment: comment.map(|c| c.to_string()),
        columns: Vec::new(),
    }
}

fn relation_node(name: &str, schema: Option<&str>, start: u32, end: u32) -> AstNode {
    AstNode {
        range: TextRange { start, end },
        meaning: NodeMeaning::Relation {
            name: name.to_string(),
            schema: schema.map(|s| s.to_string()),
        },
    }
}

/// Tokens of `select * from users`.
fn users_tokens() -> Vec<Token> {
    vec![
        Token { kind: TokenKind::Keyword, range: TextRange { start: 0, end: 6 } },
        Token { kind: TokenKind::Other, range: TextRange { start: 7, end: 8 } },
        Token { kind: TokenKind::Keyword, range: TextRange { start: 9, end: 13 } },
        Token { kind: TokenKind::Ident, range: TextRange { start: 14, end: 19 } },
    ]
}

#[test]
fn hover_round_trip_over_users() {
    let source = "select * from users".to_string();
    let params = HoverParams {
        position: 16,
        source,
        ast: Some(EnrichedAst { nodes: vec![relation_node("users", None, 14, 19)] }),
        tree: SyntaxTree { tokens: users_tokens() },
        schema_cache: SchemaCache { tables: vec![table("public", "users", Some("app users"))] },
    };
    let result = hover(params).expect("a known table must produce a hover");
    assert_eq!(result.content, "users\napp users");
    let range = result.range.expect("the reference's own range is reported");
    assert_eq!(range, TextRange { start: 14, end: 19 });
    assert_eq!(range.end - range.start, 5);
}

#[test]
fn hover_without_comment_shows_only_the_name() {
    let source = "select * from users".to_string();
    let params = HoverParams {
        position: 14,
        source,
        ast: Some(EnrichedAst { nodes: vec![relation_node("users", None, 14, 19)] }),
        tree: SyntaxTree { tokens: users_tokens() },
        schema_cache: SchemaCache { tables: vec![table("public", "users", None)] },
    };
    let result = hover(params).expect("a known table must produce a hover");
    assert_eq!(result.content, "users");
}

#[test]
fn hover_through_the_token_fallback() {
    let source = "select * from users".to_string();
    let params = HoverParams {
        position: 16,
        source,
        ast: None,
        tree: SyntaxTree { tokens: users_tokens() },
        schema_cache: SchemaCache { tables: vec![table("public", "users", Some("app users"))] },
    };
    let result = hover(params).expect("the fallback must find the reference");
    assert_eq!(result.content, "users\napp users");
    assert_eq!(result.range, Some(TextRange { start: 14, end: 19 }));
}

#[test]
fn resolver_prefers_the_enriched_ast() {
    // The raw tokens alone would classify `users` (after `from`) as the
    // relation under the cursor; the enriched AST says the node is a column
    // reference. The AST must win unconditionally.
    let source = "select * from users";
    let ast = EnrichedAst {
        nodes: vec![AstNode {
            range: TextRange { start: 14, end: 19 },
            meaning: NodeMeaning::Column { name: "users".to_string() },
        }],
    };
    let tree = SyntaxTree { tokens: users_tokens() };
    let from_ast = resolve(16, Some(ast), &tree, source);
    match from_ast {
        Some(Hoverable::Column(c)) => assert_eq!(c.name, "users"),
        other => panic!("the enriched AST's answer must be used, got {other:?}"),
    }
    let from_tree = resolve(16, None, &tree, source);
    match from_tree {
        Some(Hoverable::Relation(r)) => assert_eq!(r.name, "users"),
        other => panic!("the fallback alone sees a relation, got {other:?}"),
    }
}

#[test]
fn smallest_containing_node_wins() {
    let ast = EnrichedAst {
        nodes: vec![
            relation_node("outer_stmt", None, 0, 19),
            relation_node("users", None, 14, 19),
        ],
    };
    let tree = SyntaxTree { tokens: Vec::new() };
    match resolve(16, Some(ast), &tree, "select * from users") {
        Some(Hoverable::Relation(r)) => {
            assert_eq!(r.name, "users");
            assert_eq!(r.range, TextRange { start: 14, end: 19 });
        },
        other => panic!("expected the inner relation, got {other:?}"),
    }
}

#[test]
fn whitespace_resolves_to_nothing() {
    let source = "select * from users".to_string();
    let params = HoverParams {
        position: 13,
        source,
        ast: None,
        tree: SyntaxTree { tokens: users_tokens() },
        schema_cache: SchemaCache { tables: vec![table("public", "users", None)] },
    };
    assert!(hover(params).is_none());
}

#[test]
fn plain_ast_node_resolves_to_nothing() {
    let ast = EnrichedAst {
        nodes: vec![AstNode {
            range: TextRange { start: 0, end: 6 },
            meaning: NodeMeaning::Plain,
        }],
    };
    let tree = SyntaxTree { tokens: Vec::new() };
    assert!(resolve(3, Some(ast), &tree, "select").is_none());
}

#[test]
fn unqualified_ambiguous_name_does_not_resolve() {
    let source = "select * from orders".to_string();
    let cache = SchemaCache {
        tables: vec![
            table("public", "orders", Some("public orders")),
            table("billing", "orders", Some("billing orders")),
        ],
    };
    let params = HoverParams {
        position: 15,
        source,
        ast: Some(EnrichedAst { nodes: vec![relation_node("orders", None, 14, 20)] }),
        tree: SyntaxTree { tokens: Vec::new() },
        schema_cache: cache,
    };
    assert!(hover(params).is_none());
}

#[test]
fn qualified_name_disambiguates() {
    let source = "select * from billing.orders".to_string();
    let cache = SchemaCache {
        tables: vec![
            table("public", "orders", Some("public orders")),
            table("billing", "orders", Some("billing orders")),
        ],
    };
    let params = HoverParams {
        position: 23,
        source,
        ast: Some(EnrichedAst {
            nodes: vec![relation_node("orders", Some("billing"), 22, 28)],
        }),
        tree: SyntaxTree { tokens: Vec::new() },
        schema_cache: cache,
    };
    let result = hover(params).expect("the qualifier must disambiguate");
    assert_eq!(result.content, "orders\nbilling orders");
    assert_eq!(result.range, Some(TextRange { start: 22, end: 28 }));
}

#[test]
fn qualified_reference_through_the_token_fallback() {
    let source = "select * from billing.orders".to_string();
    let tokens = vec![
        Token { kind: TokenKind::Keyword, range: TextRange { start: 0, end: 6 } },
        Token { kind: TokenKind::Other, range: TextRange { start: 7, end: 8 } },
        Token { kind: TokenKind::Keyword, range: TextRange { start: 9, end: 13 } },
        Token { kind: TokenKind::Ident, range: TextRange { start: 14, end: 21 } },
        Token { kind: TokenKind::Dot, range: TextRange { start: 21, end: 22 } },
        Token { kind: TokenKind::Ident, range: TextRange { start: 22, end: 28 } },
    ];
    let tree = SyntaxTree { tokens };
    match resolve(24, None, &tree, &source) {
        Some(Hoverable::Relation(r)) => {
            assert_eq!(r.name, "orders");
            assert_eq!(r.schema.as_deref(), Some("billing"));
            assert_eq!(r.range, TextRange { start: 22, end: 28 });
        },
        other => panic!("expected a qualified relation, got {other:?}"),
    }
}

#[test]
fn keyword_case_does_not_matter_for_the_fallback() {
    let source = "SELECT * FROM users";
    let tree = SyntaxTree { tokens: users_tokens() };
    match resolve(16, None, &tree, source) {
        Some(Hoverable::Relation(r)) => assert_eq!(r.name, "users"),
        other => panic!("expected a relation, got {other:?}"),
    }
}

#[test]
fn unknown_table_yields_no_hover() {
    let source = "select * from missing".to_string();
    let params = HoverParams {
        position: 15,
        source,
        ast: Some(EnrichedAst { nodes: vec![relation_node("missing", None, 14, 21)] }),
        tree: SyntaxTree { tokens: Vec::new() },
        schema_cache: SchemaCache { tables: vec![table("public", "users", None)] },
    };
    assert!(hover(params).is_none());
}

#[test]
fn token_ranges_are_half_open() {
    let tree = SyntaxTree { tokens: users_tokens() };
    let source = "select * from users";
    // Offset 19 is one past the last character of `users`: no token covers it.
    assert!(resolve(19, None, &tree, source).is_none());
    // Offset 14 is the first character of `users`.
    assert!(resolve(14, None, &tree, source).is_some());
}

#[test]
fn identifier_without_relation_keyword_is_not_a_relation() {
    // `users` directly follows `select`, which marks no relation position.
    let source = "select users";
    let tokens = vec![
        Token { kind: TokenKind::Keyword, range: TextRange { start: 0, end: 6 } },
        Token { kind: TokenKind::Ident, range: TextRange { start: 7, end: 12 } },
    ];
    let tree = SyntaxTree { tokens };
    assert!(resolve(9, None, &tree, source).is_none());
}

#[test]
fn every_relation_keyword_marks_a_relation_position() {
    for (source, kw_start, kw_end) in [
        ("delete from users", 7u32, 11u32),
        ("x join users", 2, 6),
        ("update users", 0, 6),
        ("insert into users", 7, 11),
    ] {
        let name_start = kw_end + 1;
        let name_end = name_start + 5;
        let tokens = vec![
            Token { kind: TokenKind::Keyword, range: TextRange { start: kw_start, end: kw_end } },
            Token { kind: TokenKind::Ident, range: TextRange { start: name_start, end: name_end } },
        ];
        let tree = SyntaxTree { tokens };
        match resolve(name_start, None, &tree, source) {
            Some(Hoverable::Relation(r)) => assert_eq!(r.name, "users"),
            other => panic!("expected a relation after a keyword in {source:?}, got {other:?}"),
        }
    }
}

#[test]
fn find_table_follows_the_disambiguation_rule() {
    let cache = SchemaCache {
        tables: vec![
            table("public", "orders", None),
            table("billing", "orders", None),
            table("public", "users", None),
        ],
    };
    assert!(cache.find_table("orders", None).is_none());
    let t = cache.find_table("orders", Some("billing")).expect("qualified lookup");
    assert_eq!(t.schema, "billing");
    let t = cache.find_table("users", None).expect("unique unqualified lookup");
    assert_eq!(t.schema, "public");
    assert!(cache.find_table("users", Some("billing")).is_none());
    assert!(cache.find_table("absent", None).is_none());
}
