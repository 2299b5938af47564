use biome_rowan::raw_language::{RawLanguageKind, RawSyntaxTreeBuilder};
use biome_rowan::{TextRange, TextSize, TriviaPiece};
use js_imports::error::SyntaxError;
use js_imports::green::{GreenNode, GreenSlot, JsSyntaxNode};
use js_imports::kind::JsSyntaxKind;
use js_imports::nodes::{
    AnyJsBinding, AnyJsImportClause, AnyJsImportSourceLike, AnyJsImportSpecifier,
    AnyJsModuleSource, AnyJsNamedImportSpecifier, JsCallExpression, JsImport,
    JsImportCallExpression, JsModuleSource,
};
use js_imports::token::{inner_string_text, JsSyntaxToken};

fn token(kind: JsSyntaxKind, text: &str) -> JsSyntaxToken {
    JsSyntaxToken::new_detached(kind, "", text, "").unwrap()
}

fn tok(kind: JsSyntaxKind, text: &str) -> GreenSlot {
    GreenSlot::token(token(kind, text))
}

fn string_literal(body: &str) -> JsSyntaxToken {
    token(JsSyntaxKind::JS_STRING_LITERAL, &format!("\"{}\"", body))
}

fn node(kind: JsSyntaxKind, slots: Vec<GreenSlot>) -> GreenSlot {
    GreenSlot::node(GreenNode::new(kind, slots))
}

fn module_source(body: &str) -> GreenSlot {
    node(JsSyntaxKind::JS_MODULE_SOURCE, vec![GreenSlot::token(string_literal(body))])
}

fn metavariable() -> GreenSlot {
    node(JsSyntaxKind::JS_METAVARIABLE, vec![tok(JsSyntaxKind::GRIT_METAVARIABLE, "$source")])
}

fn binding(name: &str) -> GreenSlot {
    node(JsSyntaxKind::JS_IDENTIFIER_BINDING, vec![tok(JsSyntaxKind::IDENT, name)])
}

fn type_marker(present: bool) -> GreenSlot {
    if present {
        tok(JsSyntaxKind::TYPE_KW, "type")
    } else {
        GreenSlot::Empty
    }
}

fn assertion() -> GreenSlot {
    node(
        JsSyntaxKind::JS_IMPORT_ASSERTION,
        vec![
            tok(JsSyntaxKind::WITH_KW, "with"),
            tok(JsSyntaxKind::L_CURLY, "{"),
            node(JsSyntaxKind::JS_IMPORT_ASSERTION_ENTRY_LIST, vec![]),
            tok(JsSyntaxKind::R_CURLY, "}"),
        ],
    )
}

fn bare_clause(source: GreenSlot) -> GreenSlot {
    node(JsSyntaxKind::JS_IMPORT_BARE_CLAUSE, vec![source, GreenSlot::Empty])
}

fn default_clause(marked: bool, name: &str, source: GreenSlot) -> GreenSlot {
    node(
        JsSyntaxKind::JS_IMPORT_DEFAULT_CLAUSE,
        vec![
            type_marker(marked),
            node(JsSyntaxKind::JS_DEFAULT_IMPORT_SPECIFIER, vec![binding(name)]),
            tok(JsSyntaxKind::FROM_KW, "from"),
            source,
            GreenSlot::Empty,
        ],
    )
}

fn named_specifiers(specifiers: Vec<GreenSlot>) -> GreenSlot {
    let mut slots = Vec::new();
    for specifier in specifiers {
        if !slots.is_empty() {
            slots.push(tok(JsSyntaxKind::COMMA, ","));
        }
        slots.push(specifier);
    }
    node(
        JsSyntaxKind::JS_NAMED_IMPORT_SPECIFIERS,
        vec![
            tok(JsSyntaxKind::L_CURLY, "{"),
            node(JsSyntaxKind::JS_NAMED_IMPORT_SPECIFIER_LIST, slots),
            tok(JsSyntaxKind::R_CURLY, "}"),
        ],
    )
}

fn named_clause(marked: bool, specifiers: Vec<GreenSlot>, source: GreenSlot) -> GreenSlot {
    node(
        JsSyntaxKind::JS_IMPORT_NAMED_CLAUSE,
        vec![
            type_marker(marked),
            named_specifiers(specifiers),
            tok(JsSyntaxKind::FROM_KW, "from"),
            source,
            GreenSlot::Empty,
        ],
    )
}

fn namespace_specifier(name: &str) -> GreenSlot {
    node(
        JsSyntaxKind::JS_NAMESPACE_IMPORT_SPECIFIER,
        vec![tok(JsSyntaxKind::STAR, "*"), tok(JsSyntaxKind::AS_KW, "as"), binding(name)],
    )
}

fn namespace_clause(marked: bool, name: &str, source: GreenSlot, with: GreenSlot) -> GreenSlot {
    node(
        JsSyntaxKind::JS_IMPORT_NAMESPACE_CLAUSE,
        vec![
            type_marker(marked),
            namespace_specifier(name),
            tok(JsSyntaxKind::FROM_KW, "from"),
            source,
            with,
        ],
    )
}

fn combined_clause(name: &str, specifiers: Vec<GreenSlot>, source: GreenSlot) -> GreenSlot {
    node(
        JsSyntaxKind::JS_IMPORT_COMBINED_CLAUSE,
        vec![
            node(JsSyntaxKind::JS_DEFAULT_IMPORT_SPECIFIER, vec![binding(name)]),
            tok(JsSyntaxKind::COMMA, ","),
            named_specifiers(specifiers),
            tok(JsSyntaxKind::FROM_KW, "from"),
            source,
            GreenSlot::Empty,
        ],
    )
}

fn shorthand(marked: bool, name: &str) -> GreenSlot {
    node(
        JsSyntaxKind::JS_SHORTHAND_NAMED_IMPORT_SPECIFIER,
        vec![type_marker(marked), binding(name)],
    )
}

fn renamed(marked: bool, name: &str, local: GreenSlot) -> GreenSlot {
    node(
        JsSyntaxKind::JS_NAMED_IMPORT_SPECIFIER,
        vec![
            type_marker(marked),
            node(JsSyntaxKind::JS_LITERAL_EXPORT_NAME, vec![tok(JsSyntaxKind::IDENT, name)]),
            tok(JsSyntaxKind::AS_KW, "as"),
            local,
        ],
    )
}

fn import_syntax(clause: GreenSlot) -> JsSyntaxNode {
    JsSyntaxNode::new_root(GreenNode::new(
        JsSyntaxKind::JS_IMPORT,
        vec![tok(JsSyntaxKind::IMPORT_KW, "import"), clause, GreenSlot::Empty],
    ))
}

fn import(clause: GreenSlot) -> JsImport {
    JsImport::cast(import_syntax(clause)).unwrap()
}

fn clause_of(import: &JsImport) -> AnyJsImportClause {
    import.import_clause().unwrap()
}

/// The specifier at `index` of the braces in slot `braces` of the clause.
fn specifier_at(import: &JsImport, braces: usize, index: usize) -> AnyJsNamedImportSpecifier {
    let clause = import.syntax().node_in_slot(1).unwrap();
    let list = clause.node_in_slot(braces).unwrap().node_in_slot(1).unwrap();
    AnyJsNamedImportSpecifier::cast(list.node_in_slot(2 * index).unwrap()).unwrap()
}

fn string_expression(body: &str) -> GreenSlot {
    node(
        JsSyntaxKind::JS_STRING_LITERAL_EXPRESSION,
        vec![GreenSlot::token(string_literal(body))],
    )
}

fn number_expression(text: &str) -> GreenSlot {
    node(
        JsSyntaxKind::JS_NUMBER_LITERAL_EXPRESSION,
        vec![tok(JsSyntaxKind::JS_NUMBER_LITERAL, text)],
    )
}

fn identifier_expression(name: &str) -> GreenSlot {
    node(
        JsSyntaxKind::JS_IDENTIFIER_EXPRESSION,
        vec![node(JsSyntaxKind::JS_REFERENCE_IDENTIFIER, vec![tok(JsSyntaxKind::IDENT, name)])],
    )
}

fn arguments(items: Vec<GreenSlot>) -> GreenSlot {
    let mut slots = Vec::new();
    for item in items {
        if !slots.is_empty() {
            slots.push(tok(JsSyntaxKind::COMMA, ","));
        }
        slots.push(item);
    }
    node(
        JsSyntaxKind::JS_CALL_ARGUMENTS,
        vec![
            tok(JsSyntaxKind::L_PAREN, "("),
            node(JsSyntaxKind::JS_CALL_ARGUMENT_LIST, slots),
            tok(JsSyntaxKind::R_PAREN, ")"),
        ],
    )
}

fn call(callee: GreenSlot, items: Vec<GreenSlot>) -> JsCallExpression {
    JsCallExpression::cast(JsSyntaxNode::new_root(GreenNode::new(
        JsSyntaxKind::JS_CALL_EXPRESSION,
        vec![callee, GreenSlot::Empty, GreenSlot::Empty, arguments(items)],
    )))
    .unwrap()
}

fn import_call(items: Vec<GreenSlot>) -> JsImportCallExpression {
    JsImportCallExpression::cast(JsSyntaxNode::new_root(GreenNode::new(
        JsSyntaxKind::JS_IMPORT_CALL_EXPRESSION,
        vec![tok(JsSyntaxKind::IMPORT_KW, "import"), arguments(items)],
    )))
    .unwrap()
}

fn detached_source(body: &str) -> JsModuleSource {
    JsModuleSource::cast(JsSyntaxNode::new_root(GreenNode::new(
        JsSyntaxKind::JS_MODULE_SOURCE,
        vec![GreenSlot::token(string_literal(body))],
    )))
    .unwrap()
}

// Tokens and their text

#[test]
fn token_without_trivia_keeps_its_text() {
    let token = token(JsSyntaxKind::IDENT, "React");
    assert_eq!(token.kind(), JsSyntaxKind::IDENT);
    assert_eq!(token.text_trimmed(), "React");
    assert_eq!(token.text(), "React");
    assert_eq!(token.token_text_trimmed().text(), "React");
}

#[test]
fn token_text_includes_trivia_and_trimmed_text_does_not() {
    let token =
        JsSyntaxToken::new_detached(JsSyntaxKind::JS_STRING_LITERAL, " ", "\"react\"", "\n")
            .unwrap();
    assert_eq!(token.text(), " \"react\"\n");
    assert_eq!(token.text_trimmed(), "\"react\"");
    assert_eq!(token.token_text_trimmed().text(), "\"react\"");
    assert_eq!(inner_string_text(&token).text(), "react");
}

#[test]
fn string_literal_without_delimiters_is_no_token() {
    assert!(JsSyntaxToken::new_detached(JsSyntaxKind::JS_STRING_LITERAL, "", "react", "").is_none());
    assert!(JsSyntaxToken::new_detached(JsSyntaxKind::JS_STRING_LITERAL, "", "\"", "").is_none());
    assert!(JsSyntaxToken::new_detached(JsSyntaxKind::JS_STRING_LITERAL, "", "", "").is_none());
    assert!(
        JsSyntaxToken::new_detached(JsSyntaxKind::JS_STRING_LITERAL, "", "\"react'", "").is_none()
    );
    assert!(
        JsSyntaxToken::new_detached(JsSyntaxKind::JSX_STRING_LITERAL, "", "react\"", "").is_none()
    );
    assert!(JsSyntaxToken::new_detached(JsSyntaxKind::IDENT, "", "react", "").is_some());
}

#[test]
fn inner_string_text_strips_either_sort_of_quote() {
    let double = token(JsSyntaxKind::JS_STRING_LITERAL, "\"a'b\"");
    assert_eq!(inner_string_text(&double).text(), "a'b");
    let single = token(JsSyntaxKind::JS_STRING_LITERAL, "'a\"b'");
    assert_eq!(inner_string_text(&single).text(), "a\"b");
    let jsx = token(JsSyntaxKind::JSX_STRING_LITERAL, "'x'");
    assert_eq!(inner_string_text(&jsx).text(), "x");
}

#[test]
fn inner_string_text_of_an_empty_literal_is_empty() {
    let empty = token(JsSyntaxKind::JS_STRING_LITERAL, "\"\"");
    assert_eq!(inner_string_text(&empty).text(), "");
    assert!(inner_string_text(&empty).is_empty());
}

#[test]
fn inner_string_text_leaves_escapes_as_written() {
    let escaped = token(JsSyntaxKind::JS_STRING_LITERAL, "\"a\\n\\\"b\"");
    assert_eq!(inner_string_text(&escaped).text(), "a\\n\\\"b");
}

#[test]
fn inner_string_text_cuts_between_characters_of_any_width() {
    let wide = token(JsSyntaxKind::JS_STRING_LITERAL, "\"é🦀ß\"");
    assert_eq!(inner_string_text(&wide).text(), "é🦀ß");
    let one = token(JsSyntaxKind::JS_STRING_LITERAL, "'🦀'");
    assert_eq!(inner_string_text(&one).text(), "🦀");
}

#[test]
fn inner_string_text_of_another_kind_is_the_whole_text() {
    let name = JsSyntaxToken::new_detached(JsSyntaxKind::IDENT, "  ", "\"x\"", " ").unwrap();
    assert_eq!(inner_string_text(&name).text(), "\"x\"");
}

#[test]
fn inner_string_text_agrees_with_the_text_of_a_parsed_token() {
    let root = RawSyntaxTreeBuilder::wrap_with_node(RawLanguageKind::ROOT, |builder| {
        builder.token_with_trivia(
            RawLanguageKind::STRING_TOKEN,
            "\n 'ré/ß' \t",
            &[TriviaPiece::whitespace(2)],
            &[TriviaPiece::whitespace(2)],
        );
    });
    let parsed = root.first_token().unwrap();
    let trimmed = parsed.token_text_trimmed();
    let range = TextRange::new(TextSize::from(1), trimmed.len() - TextSize::from(1));
    let expected = trimmed.clone().slice(range);

    let token = JsSyntaxToken::new_detached(
        JsSyntaxKind::JS_STRING_LITERAL,
        "\n ",
        parsed.text_trimmed(),
        " \t",
    )
    .unwrap();
    assert_eq!(token.text(), parsed.text());
    assert_eq!(token.text_trimmed(), parsed.text_trimmed());
    assert_eq!(token.token_text_trimmed(), trimmed);
    assert_eq!(inner_string_text(&token), expected);
    assert_eq!(inner_string_text(&token).text(), "ré/ß");
}

#[test]
fn kinds_have_distinct_raw_numbers() {
    assert_eq!(JsSyntaxKind::EOF.to_raw(), 0);
    assert_eq!(JsSyntaxKind::JS_STRING_LITERAL.to_raw(), 3);
    assert_eq!(JsSyntaxKind::JS_IMPORT.to_raw(), 28);
    assert_eq!(JsSyntaxKind::TS_MODULE_BLOCK.to_raw(), 62);
    assert!(JsSyntaxKind::JS_STRING_LITERAL.is_string_literal());
    assert!(JsSyntaxKind::JSX_STRING_LITERAL.is_string_literal());
    assert!(!JsSyntaxKind::IDENT.is_string_literal());
}

// Walking the tree

#[test]
fn handles_walk_down_and_up() {
    let import = import(default_clause(false, "React", module_source("react")));
    let root = import.syntax();
    assert_eq!(root.kind(), JsSyntaxKind::JS_IMPORT);
    assert_eq!(root.slot_count(), 3);
    assert!(root.parent().is_none());
    assert!(root.node_in_slot(0).is_none());
    assert!(root.node_in_slot(2).is_none());
    assert!(root.node_in_slot(3).is_none());
    assert_eq!(root.token_in_slot(0).unwrap().text_trimmed(), "import");
    assert!(root.token_in_slot(1).is_none());
    let clause = root.node_in_slot(1).unwrap();
    assert_eq!(clause.kind(), JsSyntaxKind::JS_IMPORT_DEFAULT_CLAUSE);
    let source = clause.node_in_slot(3).unwrap();
    assert_eq!(source.kind(), JsSyntaxKind::JS_MODULE_SOURCE);
    assert_eq!(source.parent().unwrap().kind(), JsSyntaxKind::JS_IMPORT_DEFAULT_CLAUSE);
    assert_eq!(source.ancestor(0).unwrap().kind(), JsSyntaxKind::JS_MODULE_SOURCE);
    assert_eq!(source.ancestor(2).unwrap().kind(), JsSyntaxKind::JS_IMPORT);
    assert!(source.ancestor(3).is_none());
}

#[test]
fn with_slot_makes_a_tree_of_its_own() {
    let import = import(default_clause(true, "React", module_source("react")));
    let clause = import.syntax().node_in_slot(1).unwrap();
    let changed = clause.with_slot(0, GreenSlot::Empty).unwrap();
    assert!(clause.with_slot(4, GreenSlot::Empty).is_some());
    assert!(clause.with_slot(5, GreenSlot::Empty).is_none());
    assert!(changed.parent().is_none());
    assert_eq!(changed.kind(), JsSyntaxKind::JS_IMPORT_DEFAULT_CLAUSE);
    assert_eq!(changed.slot_count(), 5);
    assert!(changed.token_in_slot(0).is_none());
    assert_eq!(changed.token_in_slot(2).unwrap().text_trimmed(), "from");
    assert_eq!(changed.node_in_slot(3).unwrap().kind(), JsSyntaxKind::JS_MODULE_SOURCE);
    assert_eq!(clause.token_in_slot(0).unwrap().text_trimmed(), "type");
    assert_eq!(clause.parent().unwrap().kind(), JsSyntaxKind::JS_IMPORT);
}

#[test]
fn cast_goes_by_the_kind() {
    let syntax = import_syntax(bare_clause(module_source("a")));
    assert!(JsCallExpression::cast(syntax.clone()).is_none());
    assert!(AnyJsImportClause::cast(syntax.clone()).is_none());
    assert!(AnyJsImportSourceLike::cast(syntax.clone()).is_none());
    assert!(JsImport::cast(syntax.clone()).is_some());
    let clause = syntax.node_in_slot(1).unwrap();
    assert!(matches!(
        AnyJsImportClause::cast(clause.clone()),
        Some(AnyJsImportClause::JsImportBareClause(_))
    ));
    let source = clause.node_in_slot(0).unwrap();
    assert!(matches!(
        AnyJsModuleSource::cast(source.clone()),
        Some(AnyJsModuleSource::JsModuleSource(_))
    ));
    assert!(matches!(
        AnyJsImportSourceLike::cast(source),
        Some(AnyJsImportSourceLike::JsModuleSource(_))
    ));
}

// The `import` declaration

#[test]
fn source_text_of_a_default_import() {
    let import = import(default_clause(false, "React", module_source("react")));
    assert_eq!(import.source_text().unwrap().text(), "react");
}

#[test]
fn source_token_of_a_default_import() {
    let import = import(default_clause(false, "React", module_source("react")));
    assert_eq!(import.source_token().unwrap().text(), "\"react\"");
    assert_eq!(import.source_token().unwrap().kind(), JsSyntaxKind::JS_STRING_LITERAL);
}

#[test]
fn source_of_every_clause_shape() {
    let shapes = vec![
        bare_clause(module_source("./a.css")),
        default_clause(false, "a", module_source("./a.css")),
        named_clause(false, vec![shorthand(false, "a")], module_source("./a.css")),
        namespace_clause(false, "a", module_source("./a.css"), GreenSlot::Empty),
        combined_clause("a", vec![shorthand(false, "b")], module_source("./a.css")),
    ];
    for clause in shapes {
        let import = import(clause);
        assert_eq!(import.source_text().unwrap().text(), "./a.css");
        assert_eq!(import.source_token().unwrap().text(), "\"./a.css\"");
    }
}

#[test]
fn source_keeps_single_quotes_in_the_token() {
    let source = node(
        JsSyntaxKind::JS_MODULE_SOURCE,
        vec![tok(JsSyntaxKind::JS_STRING_LITERAL, "'lodash'")],
    );
    let import = import(bare_clause(source));
    assert_eq!(import.source_text().unwrap().text(), "lodash");
    assert_eq!(import.source_token().unwrap().text(), "'lodash'");
}

#[test]
fn source_text_without_a_clause_is_a_missing_child() {
    let import = import(GreenSlot::Empty);
    assert_eq!(import.source_text().err(), Some(SyntaxError::MissingRequiredChild));
    assert_eq!(import.source_token().err(), Some(SyntaxError::MissingRequiredChild));
    assert!(import.import_clause().is_err());
}

#[test]
fn source_text_without_a_source_is_a_missing_child() {
    let import = import(default_clause(false, "a", GreenSlot::Empty));
    assert_eq!(import.source_text().err(), Some(SyntaxError::MissingRequiredChild));
    assert_eq!(import.source_token().err(), Some(SyntaxError::MissingRequiredChild));
}

#[test]
fn source_text_of_a_metavariable_is_an_error_of_its_own() {
    let import = import(default_clause(false, "a", metavariable()));
    assert_eq!(import.source_text().err(), Some(SyntaxError::UnexpectedMetavariable));
    assert_eq!(import.source_token().err(), Some(SyntaxError::UnexpectedMetavariable));
    assert_eq!(clause_of(&import).source().err(), Some(SyntaxError::UnexpectedMetavariable));
}

#[test]
fn source_text_without_the_token_is_a_missing_child() {
    let source = node(JsSyntaxKind::JS_MODULE_SOURCE, vec![GreenSlot::Empty]);
    let import = import(bare_clause(source));
    assert!(clause_of(&import).source().is_ok());
    assert_eq!(import.source_text().err(), Some(SyntaxError::MissingRequiredChild));
    assert_eq!(import.source_token().err(), Some(SyntaxError::MissingRequiredChild));
}

#[test]
fn clause_source_is_the_module_source() {
    let import = import(default_clause(false, "React", module_source("react")));
    let source = clause_of(&import).source().unwrap();
    assert_eq!(source.inner_string_text().unwrap().text(), "react");
    assert_eq!(source.value_token().unwrap().text(), "\"react\"");
}

#[test]
fn clause_type_token_by_shape() {
    let marked = vec![
        default_clause(true, "a", module_source("m")),
        named_clause(true, vec![shorthand(false, "a")], module_source("m")),
        namespace_clause(true, "a", module_source("m"), GreenSlot::Empty),
    ];
    for clause in marked {
        let import = import(clause);
        assert_eq!(clause_of(&import).type_token().unwrap().text_trimmed(), "type");
    }
    let plain = vec![
        bare_clause(module_source("m")),
        default_clause(false, "a", module_source("m")),
        named_clause(false, vec![shorthand(true, "a")], module_source("m")),
        namespace_clause(false, "a", module_source("m"), GreenSlot::Empty),
        combined_clause("a", vec![shorthand(true, "b")], module_source("m")),
    ];
    for clause in plain {
        let import = import(clause);
        assert!(clause_of(&import).type_token().is_none());
    }
}

#[test]
fn bare_clause_never_has_a_type_token() {
    let clause = node(
        JsSyntaxKind::JS_IMPORT_BARE_CLAUSE,
        vec![tok(JsSyntaxKind::TYPE_KW, "type"), GreenSlot::Empty],
    );
    let import = import(clause);
    assert!(clause_of(&import).type_token().is_none());
}

#[test]
fn clause_assertion_by_shape() {
    let with = namespace_clause(false, "a", module_source("./a.json"), assertion());
    let import = import(with);
    let found = clause_of(&import).assertion().unwrap();
    assert_eq!(found.syntax().kind(), JsSyntaxKind::JS_IMPORT_ASSERTION);
    assert_eq!(found.syntax().token_in_slot(0).unwrap().text_trimmed(), "with");

    let bare = node(JsSyntaxKind::JS_IMPORT_BARE_CLAUSE, vec![module_source("m"), assertion()]);
    assert!(clause_of(&self::import(bare)).assertion().is_some());

    let without = vec![
        bare_clause(module_source("m")),
        default_clause(false, "a", module_source("m")),
        named_clause(false, vec![], module_source("m")),
        combined_clause("a", vec![], module_source("m")),
    ];
    for clause in without {
        assert!(clause_of(&self::import(clause)).assertion().is_none());
    }
}

// Named specifiers

#[test]
fn shorthand_specifier_names() {
    let import = import(named_clause(false, vec![shorthand(false, "React")], module_source("r")));
    let specifier = specifier_at(&import, 1, 0);
    assert_eq!(specifier.imported_name().unwrap().text_trimmed(), "React");
    let local = specifier.local_name().unwrap();
    let name = local.as_js_identifier_binding().unwrap().name_token();
    assert_eq!(name.unwrap().text_trimmed(), "React");
}

#[test]
fn renamed_specifier_reads_its_binding() {
    let import = import(named_clause(
        false,
        vec![shorthand(false, "a"), renamed(false, "b", binding("c"))],
        module_source("m"),
    ));
    let specifier = specifier_at(&import, 1, 1);
    assert!(matches!(specifier, AnyJsNamedImportSpecifier::JsNamedImportSpecifier(_)));
    assert_eq!(specifier.imported_name().unwrap().text_trimmed(), "c");
    assert!(matches!(specifier.local_name(), Some(AnyJsBinding::JsIdentifierBinding(_))));
}

#[test]
fn bogus_specifier_has_nothing() {
    let bogus = node(
        JsSyntaxKind::JS_BOGUS_NAMED_IMPORT_SPECIFIER,
        vec![tok(JsSyntaxKind::TYPE_KW, "type"), binding("a")],
    );
    let import = import(named_clause(false, vec![bogus], module_source("m")));
    let specifier = specifier_at(&import, 1, 0);
    assert!(specifier.type_token().is_none());
    assert!(specifier.local_name().is_none());
    assert!(specifier.imported_name().is_none());
    assert!(!specifier.imports_only_types());
    assert!(specifier.import_clause().is_some());
    let same = specifier.with_type_token(Some(token(JsSyntaxKind::TYPE_KW, "type")));
    assert!(same.type_token().is_none());
    assert!(same.import_clause().is_some());
    assert_eq!(same.syntax().kind(), JsSyntaxKind::JS_BOGUS_NAMED_IMPORT_SPECIFIER);
}

#[test]
fn specifier_with_a_bogus_binding_has_no_imported_name() {
    let bogus = node(JsSyntaxKind::JS_BOGUS_BINDING, vec![tok(JsSyntaxKind::IDENT, "a")]);
    let import =
        import(named_clause(false, vec![renamed(false, "b", bogus)], module_source("m")));
    let specifier = specifier_at(&import, 1, 0);
    assert!(matches!(specifier.local_name(), Some(AnyJsBinding::JsBogusBinding(_))));
    assert!(specifier.imported_name().is_none());
}

#[test]
fn specifier_without_a_binding_has_no_names() {
    let import = import(named_clause(
        false,
        vec![renamed(false, "b", GreenSlot::Empty)],
        module_source("m"),
    ));
    let specifier = specifier_at(&import, 1, 0);
    assert!(specifier.local_name().is_none());
    assert!(specifier.imported_name().is_none());
}

#[test]
fn specifier_finds_its_clause_three_steps_up() {
    let import = import(named_clause(true, vec![shorthand(false, "X")], module_source("m")));
    let specifier = specifier_at(&import, 1, 0);
    let clause = specifier.import_clause().unwrap();
    assert!(matches!(clause, AnyJsImportClause::JsImportNamedClause(_)));
    assert_eq!(clause.source().unwrap().inner_string_text().unwrap().text(), "m");
}

#[test]
fn specifier_of_a_combined_clause_finds_it() {
    let import = import(combined_clause("a", vec![shorthand(false, "X")], module_source("m")));
    let specifier = specifier_at(&import, 2, 0);
    assert!(matches!(
        specifier.import_clause(),
        Some(AnyJsImportClause::JsImportCombinedClause(_))
    ));
    assert!(!specifier.imports_only_types());
}

#[test]
fn specifier_outside_a_clause_finds_none() {
    let alone = AnyJsNamedImportSpecifier::cast(JsSyntaxNode::new_root(GreenNode::new(
        JsSyntaxKind::JS_SHORTHAND_NAMED_IMPORT_SPECIFIER,
        vec![GreenSlot::Empty, binding("X")],
    )))
    .unwrap();
    assert!(alone.import_clause().is_none());
    assert!(!alone.imports_only_types());

    // Three steps up there is a node, and it is no clause.
    let root = JsSyntaxNode::new_root(GreenNode::new(
        JsSyntaxKind::JS_MODULE_ITEM_LIST,
        vec![named_specifiers(vec![shorthand(false, "X")])],
    ));
    let braces = root.node_in_slot(0).unwrap();
    let item = braces.node_in_slot(1).unwrap().node_in_slot(0).unwrap();
    let specifier = AnyJsNamedImportSpecifier::cast(item).unwrap();
    assert!(specifier.import_clause().is_none());
}

#[test]
fn imports_only_types_with_a_marker_on_the_specifier() {
    let import = import(named_clause(false, vec![shorthand(true, "X")], module_source("m")));
    let specifier = specifier_at(&import, 1, 0);
    assert_eq!(specifier.type_token().unwrap().text_trimmed(), "type");
    assert!(specifier.import_clause().unwrap().type_token().is_none());
    assert!(specifier.imports_only_types());
}

#[test]
fn imports_only_types_with_a_marker_on_the_clause() {
    let import = import(named_clause(true, vec![shorthand(false, "X")], module_source("m")));
    let specifier = specifier_at(&import, 1, 0);
    assert!(specifier.type_token().is_none());
    assert!(specifier.imports_only_types());
}

#[test]
fn imports_only_types_without_any_marker() {
    let import = import(named_clause(false, vec![shorthand(false, "X")], module_source("m")));
    let specifier = specifier_at(&import, 1, 0);
    assert!(!specifier.imports_only_types());
}

#[test]
fn imports_only_types_of_a_renamed_specifier() {
    let import = import(named_clause(
        false,
        vec![renamed(true, "X", binding("Y")), renamed(false, "Z", binding("W"))],
        module_source("m"),
    ));
    assert!(specifier_at(&import, 1, 0).imports_only_types());
    assert!(!specifier_at(&import, 1, 1).imports_only_types());
}

#[test]
fn with_type_token_none_removes_the_marker_and_keeps_the_first() {
    let import = import(named_clause(false, vec![shorthand(true, "X")], module_source("m")));
    let before = specifier_at(&import, 1, 0);
    let changed = before.clone().with_type_token(None);
    assert!(changed.type_token().is_none());
    assert_eq!(before.type_token().unwrap().text_trimmed(), "type");
    assert_eq!(changed.imported_name().unwrap().text_trimmed(), "X");
    assert!(!changed.imports_only_types());
    assert!(before.imports_only_types());
    assert!(changed.import_clause().is_none());
    assert!(before.import_clause().is_some());
    assert_eq!(
        specifier_at(&import, 1, 0).type_token().unwrap().text_trimmed(),
        "type"
    );
}

#[test]
fn with_type_token_some_sets_the_marker() {
    let import = import(named_clause(
        false,
        vec![renamed(false, "X", binding("Y"))],
        module_source("m"),
    ));
    let before = specifier_at(&import, 1, 0);
    let changed = before.clone().with_type_token(Some(token(JsSyntaxKind::TYPE_KW, "type")));
    assert_eq!(changed.type_token().unwrap().text_trimmed(), "type");
    assert!(changed.imports_only_types());
    assert!(before.type_token().is_none());
    assert_eq!(changed.imported_name().unwrap().text_trimmed(), "Y");
    assert_eq!(changed.syntax().slot_count(), 4);
    assert!(matches!(changed, AnyJsNamedImportSpecifier::JsNamedImportSpecifier(_)));
}

#[test]
fn with_type_token_on_a_specifier_without_slots_changes_nothing() {
    let empty = AnyJsNamedImportSpecifier::cast(JsSyntaxNode::new_root(GreenNode::new(
        JsSyntaxKind::JS_SHORTHAND_NAMED_IMPORT_SPECIFIER,
        vec![],
    )))
    .unwrap();
    let same = empty.with_type_token(Some(token(JsSyntaxKind::TYPE_KW, "type")));
    assert!(same.type_token().is_none());
    assert_eq!(same.syntax().slot_count(), 0);
}

#[test]
fn local_name_of_every_specifier() {
    let import = import(combined_clause(
        "first",
        vec![shorthand(false, "second"), renamed(false, "x", binding("third"))],
        module_source("m"),
    ));
    let clause = import.syntax().node_in_slot(1).unwrap();
    let default = AnyJsImportSpecifier::cast(clause.node_in_slot(0).unwrap()).unwrap();
    assert!(matches!(default, AnyJsImportSpecifier::JsDefaultImportSpecifier(_)));
    let list = clause.node_in_slot(2).unwrap().node_in_slot(1).unwrap();
    let short = AnyJsImportSpecifier::cast(list.node_in_slot(0).unwrap()).unwrap();
    let named = AnyJsImportSpecifier::cast(list.node_in_slot(2).unwrap()).unwrap();
    let mut names = Vec::new();
    for specifier in [default, short, named] {
        let local = specifier.local_name().unwrap();
        let name = local.as_js_identifier_binding().unwrap().name_token().unwrap();
        names.push(name.text_trimmed().to_string());
    }
    assert_eq!(names, vec!["first", "second", "third"]);
}

#[test]
fn local_name_of_a_namespace_specifier() {
    let root = JsSyntaxNode::new_root(GreenNode::new(
        JsSyntaxKind::JS_MODULE_ITEM_LIST,
        vec![namespace_specifier("ns")],
    ));
    let specifier = AnyJsImportSpecifier::cast(root.node_in_slot(0).unwrap()).unwrap();
    let local = specifier.local_name().unwrap();
    let name = local.as_js_identifier_binding().unwrap().name_token().unwrap();
    assert_eq!(name.text_trimmed(), "ns");
}

#[test]
fn local_name_that_is_missing_is_an_error() {
    let root = JsSyntaxNode::new_root(GreenNode::new(
        JsSyntaxKind::JS_DEFAULT_IMPORT_SPECIFIER,
        vec![GreenSlot::Empty],
    ));
    let specifier = AnyJsImportSpecifier::cast(root).unwrap();
    assert_eq!(specifier.local_name().err(), Some(SyntaxError::MissingRequiredChild));
    assert!(AnyJsImportSpecifier::cast(JsSyntaxNode::new_root(GreenNode::new(
        JsSyntaxKind::JS_BOGUS_NAMED_IMPORT_SPECIFIER,
        vec![],
    )))
    .is_none());
}

// Calls of `require` and dynamic imports

#[test]
fn require_call_is_recognised() {
    let call = call(identifier_expression("require"), vec![string_expression("foo")]);
    assert!(call.is_require_call_expression());
    assert_eq!(call.imported_module_source_text().unwrap().text(), "foo");
    assert_eq!(call.imported_module_source_token().unwrap().text(), "\"foo\"");
}

#[test]
fn call_of_another_name_is_no_require() {
    let call = call(identifier_expression("demand"), vec![string_expression("foo")]);
    assert!(!call.is_require_call_expression());
    assert!(call.imported_module_source_text().is_none());
    assert!(call.imported_module_source_token().is_none());
}

#[test]
fn require_is_matched_letter_for_letter() {
    for name in ["Require", "require2", "requir", "", "REQUIRE"] {
        let call = call(identifier_expression(name), vec![string_expression("foo")]);
        assert!(!call.is_require_call_expression());
        assert!(call.imported_module_source_text().is_none());
    }
}

#[test]
fn require_is_matched_without_trivia() {
    let name = JsSyntaxToken::new_detached(JsSyntaxKind::IDENT, "/* c */ ", "require", " ")
        .unwrap();
    let callee = node(
        JsSyntaxKind::JS_IDENTIFIER_EXPRESSION,
        vec![node(JsSyntaxKind::JS_REFERENCE_IDENTIFIER, vec![GreenSlot::token(name)])],
    );
    let call = call(callee, vec![string_expression("foo")]);
    assert!(call.is_require_call_expression());
    assert_eq!(call.imported_module_source_text().unwrap().text(), "foo");
}

#[test]
fn callee_that_is_no_identifier_is_no_require() {
    let member = node(
        JsSyntaxKind::JS_STATIC_MEMBER_EXPRESSION,
        vec![node(JsSyntaxKind::JS_REFERENCE_IDENTIFIER, vec![tok(JsSyntaxKind::IDENT, "require")])],
    );
    let call = call(member, vec![string_expression("foo")]);
    assert!(!call.is_require_call_expression());
    assert!(call.imported_module_source_token().is_none());
    let missing = self::call(GreenSlot::Empty, vec![string_expression("foo")]);
    assert!(!missing.is_require_call_expression());
    let nameless = self::call(
        node(
            JsSyntaxKind::JS_IDENTIFIER_EXPRESSION,
            vec![node(JsSyntaxKind::JS_REFERENCE_IDENTIFIER, vec![GreenSlot::Empty])],
        ),
        vec![string_expression("foo")],
    );
    assert!(!nameless.is_require_call_expression());
}

#[test]
fn require_without_a_string_argument_names_nothing() {
    let none = call(identifier_expression("require"), vec![]);
    assert!(none.is_require_call_expression());
    assert!(none.imported_module_source_text().is_none());
    assert!(none.imported_module_source_token().is_none());

    let number = call(identifier_expression("require"), vec![number_expression("1")]);
    assert!(number.is_require_call_expression());
    assert!(number.imported_module_source_text().is_none());
    assert!(number.imported_module_source_token().is_none());

    let name = call(identifier_expression("require"), vec![identifier_expression("path")]);
    assert!(name.imported_module_source_text().is_none());

    let spread = call(
        identifier_expression("require"),
        vec![node(
            JsSyntaxKind::JS_SPREAD,
            vec![tok(JsSyntaxKind::DOT3, "..."), string_expression("foo")],
        )],
    );
    assert!(spread.imported_module_source_token().is_none());
}

#[test]
fn require_reads_the_first_argument_only() {
    let two = call(
        identifier_expression("require"),
        vec![string_expression("first"), string_expression("second")],
    );
    assert_eq!(two.imported_module_source_text().unwrap().text(), "first");
    let late = call(
        identifier_expression("require"),
        vec![number_expression("1"), string_expression("second")],
    );
    assert!(late.imported_module_source_text().is_none());
}

#[test]
fn require_without_arguments_node_names_nothing() {
    let call = JsCallExpression::cast(JsSyntaxNode::new_root(GreenNode::new(
        JsSyntaxKind::JS_CALL_EXPRESSION,
        vec![identifier_expression("require"), GreenSlot::Empty, GreenSlot::Empty, GreenSlot::Empty],
    )))
    .unwrap();
    assert!(call.is_require_call_expression());
    assert!(call.imported_module_source_text().is_none());
}

#[test]
fn dynamic_import_names_its_argument() {
    let call = import_call(vec![string_expression("foo")]);
    assert_eq!(call.module_source_text().unwrap().text(), "foo");
    assert_eq!(call.module_source_token().unwrap().text(), "\"foo\"");
}

#[test]
fn dynamic_import_without_arguments_names_nothing() {
    let call = import_call(vec![]);
    assert!(call.module_source_text().is_none());
    assert!(call.module_source_token().is_none());
}

#[test]
fn dynamic_import_of_another_expression_names_nothing() {
    assert!(import_call(vec![number_expression("1")]).module_source_text().is_none());
    assert!(import_call(vec![identifier_expression("name")]).module_source_token().is_none());
    let second = import_call(vec![identifier_expression("name"), string_expression("foo")]);
    assert!(second.module_source_text().is_none());
}

// Any form that names a module

#[test]
fn source_like_of_a_module_source() {
    let like = AnyJsImportSourceLike::JsModuleSource(detached_source("foo"));
    assert_eq!(like.module_source_text().unwrap().text(), "foo");
    assert_eq!(like.module_name_token().unwrap().text(), "\"foo\"");
}

#[test]
fn source_like_of_a_require_call() {
    let like = AnyJsImportSourceLike::JsCallExpression(call(
        identifier_expression("require"),
        vec![string_expression("lodash")],
    ));
    assert_eq!(like.module_source_text().unwrap().text(), "lodash");
    assert_eq!(like.module_name_token().unwrap().text(), "\"lodash\"");
    assert!(!like.is_in_ts_module_declaration());
    let other = AnyJsImportSourceLike::JsCallExpression(call(
        identifier_expression("demand"),
        vec![string_expression("lodash")],
    ));
    assert!(other.module_source_text().is_none());
    assert!(other.module_name_token().is_none());
}

#[test]
fn source_like_of_a_dynamic_import() {
    let like = AnyJsImportSourceLike::JsImportCallExpression(import_call(vec![
        string_expression("lodash"),
    ]));
    assert_eq!(like.module_source_text().unwrap().text(), "lodash");
    assert_eq!(like.module_name_token().unwrap().text(), "\"lodash\"");
    assert!(!like.is_in_ts_module_declaration());
    let empty = AnyJsImportSourceLike::JsImportCallExpression(import_call(vec![]));
    assert!(empty.module_source_text().is_none());
    assert!(empty.module_name_token().is_none());
}

#[test]
fn source_like_without_its_token_names_nothing() {
    let source = JsModuleSource::cast(JsSyntaxNode::new_root(GreenNode::new(
        JsSyntaxKind::JS_MODULE_SOURCE,
        vec![GreenSlot::Empty],
    )))
    .unwrap();
    assert_eq!(source.inner_string_text().err(), Some(SyntaxError::MissingRequiredChild));
    let like = AnyJsImportSourceLike::JsModuleSource(source);
    assert!(like.module_source_text().is_none());
    assert!(like.module_name_token().is_none());
}

fn external_module_declaration(source: GreenSlot) -> JsSyntaxNode {
    JsSyntaxNode::new_root(GreenNode::new(
        JsSyntaxKind::TS_EXTERNAL_MODULE_DECLARATION,
        vec![
            tok(JsSyntaxKind::MODULE_KW, "module"),
            source,
            node(JsSyntaxKind::TS_MODULE_BLOCK, vec![]),
        ],
    ))
}

#[test]
fn module_source_of_a_module_declaration_is_in_it() {
    let declaration = external_module_declaration(module_source("foo"));
    let source = AnyJsImportSourceLike::cast(declaration.node_in_slot(1).unwrap()).unwrap();
    assert!(source.is_in_ts_module_declaration());
    assert_eq!(source.module_source_text().unwrap().text(), "foo");
}

#[test]
fn module_source_elsewhere_is_in_no_module_declaration() {
    let alone = AnyJsImportSourceLike::JsModuleSource(detached_source("bar"));
    assert!(!alone.is_in_ts_module_declaration());

    let import = import(bare_clause(module_source("bar")));
    let source = import.syntax().node_in_slot(1).unwrap().node_in_slot(0).unwrap();
    let inside = AnyJsImportSourceLike::cast(source).unwrap();
    assert!(!inside.is_in_ts_module_declaration());
}

#[test]
fn only_the_parent_counts_for_a_module_declaration() {
    // A source two steps below the declaration is not in it.
    let declaration = JsSyntaxNode::new_root(GreenNode::new(
        JsSyntaxKind::TS_EXTERNAL_MODULE_DECLARATION,
        vec![
            tok(JsSyntaxKind::MODULE_KW, "module"),
            module_source("outer"),
            node(
                JsSyntaxKind::TS_MODULE_BLOCK,
                vec![node(
                    JsSyntaxKind::JS_IMPORT,
                    vec![
                        tok(JsSyntaxKind::IMPORT_KW, "import"),
                        bare_clause(module_source("inner")),
                        GreenSlot::Empty,
                    ],
                )],
            ),
        ],
    ));
    let import = declaration.node_in_slot(2).unwrap().node_in_slot(0).unwrap();
    let inner = import.node_in_slot(1).unwrap().node_in_slot(0).unwrap();
    assert!(!AnyJsImportSourceLike::cast(inner).unwrap().is_in_ts_module_declaration());
    let call_in_declaration = external_module_declaration(node(
        JsSyntaxKind::JS_CALL_EXPRESSION,
        vec![identifier_expression("require"), GreenSlot::Empty, GreenSlot::Empty, arguments(vec![])],
    ));
    let like = AnyJsImportSourceLike::cast(call_in_declaration.node_in_slot(1).unwrap()).unwrap();
    assert!(!like.is_in_ts_module_declaration());
}

// Asking twice

#[test]
fn asking_twice_gives_the_same_answer() {
    let import = import(named_clause(
        true,
        vec![shorthand(true, "X"), renamed(false, "a", binding("b"))],
        module_source("m"),
    ));
    assert_eq!(import.source_text().unwrap(), import.source_text().unwrap());
    assert_eq!(import.source_token(), import.source_token());
    let clause = clause_of(&import);
    assert_eq!(clause.type_token(), clause.type_token());
    assert_eq!(
        clause.source().unwrap().value_token(),
        clause.source().unwrap().value_token()
    );
    assert_eq!(clause.assertion().is_some(), clause.assertion().is_some());
    let specifier = specifier_at(&import, 1, 0);
    assert_eq!(specifier.type_token(), specifier.type_token());
    assert_eq!(specifier.imported_name(), specifier.imported_name());
    assert_eq!(specifier.imports_only_types(), specifier.imports_only_types());
    assert_eq!(
        specifier.import_clause().unwrap().syntax().kind(),
        specifier.import_clause().unwrap().syntax().kind()
    );
    let call = call(identifier_expression("require"), vec![string_expression("foo")]);
    assert_eq!(call.is_require_call_expression(), call.is_require_call_expression());
    assert_eq!(
        call.imported_module_source_text().unwrap(),
        call.imported_module_source_text().unwrap()
    );
    assert_eq!(call.imported_module_source_token(), call.imported_module_source_token());
    let like = AnyJsImportSourceLike::JsModuleSource(detached_source("foo"));
    assert_eq!(like.module_name_token(), like.module_name_token());
    assert_eq!(like.is_in_ts_module_declaration(), like.is_in_ts_module_declaration());
}
