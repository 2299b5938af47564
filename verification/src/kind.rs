//! Kinds of the tokens and nodes that an import can be made of.

use vstd::prelude::*;

verus! {

/// The tag carried by every token and node of a syntax tree.
///
/// Token kinds come first, node kinds after them.
#[allow(non_camel_case_types)]
#[derive(Debug, Clone, Copy, PartialEq, Eq, Hash, Structural)]
pub enum JsSyntaxKind {
    EOF,
    ERROR_TOKEN,
    IDENT,
    JS_STRING_LITERAL,
    JSX_STRING_LITERAL,
    JS_NUMBER_LITERAL,
    GRIT_METAVARIABLE,
    IMPORT_KW,
    TYPE_KW,
    FROM_KW,
    AS_KW,
    WITH_KW,
    ASSERT_KW,
    DECLARE_KW,
    MODULE_KW,
    STAR,
    COMMA,
    COLON,
    SEMICOLON,
    DOT3,
    QUESTIONDOT,
    L_PAREN,
    R_PAREN,
    L_CURLY,
    R_CURLY,
    JS_MODULE,
    JS_MODULE_ITEM_LIST,
    JS_EXPRESSION_STATEMENT,
    JS_IMPORT,
    JS_IMPORT_BARE_CLAUSE,
    JS_IMPORT_DEFAULT_CLAUSE,
    JS_IMPORT_NAMED_CLAUSE,
    JS_IMPORT_NAMESPACE_CLAUSE,
    JS_IMPORT_COMBINED_CLAUSE,
    JS_MODULE_SOURCE,
    JS_METAVARIABLE,
    JS_IMPORT_ASSERTION,
    JS_IMPORT_ASSERTION_ENTRY_LIST,
    JS_IMPORT_ASSERTION_ENTRY,
    JS_NAMED_IMPORT_SPECIFIERS,
    JS_NAMED_IMPORT_SPECIFIER_LIST,
    JS_NAMED_IMPORT_SPECIFIER,
    JS_SHORTHAND_NAMED_IMPORT_SPECIFIER,
    JS_BOGUS_NAMED_IMPORT_SPECIFIER,
    JS_NAMESPACE_IMPORT_SPECIFIER,
    JS_DEFAULT_IMPORT_SPECIFIER,
    JS_LITERAL_EXPORT_NAME,
    JS_IDENTIFIER_BINDING,
    JS_BOGUS_BINDING,
    JS_CALL_EXPRESSION,
    JS_IMPORT_CALL_EXPRESSION,
    JS_CALL_ARGUMENTS,
    JS_CALL_ARGUMENT_LIST,
    JS_SPREAD,
    JS_IDENTIFIER_EXPRESSION,
    JS_REFERENCE_IDENTIFIER,
    JS_STATIC_MEMBER_EXPRESSION,
    JS_STRING_LITERAL_EXPRESSION,
    JS_NUMBER_LITERAL_EXPRESSION,
    JS_BOGUS_EXPRESSION,
    JS_BOGUS,
    TS_EXTERNAL_MODULE_DECLARATION,
    TS_MODULE_BLOCK,
}

impl JsSyntaxKind {
    /// Whether a token of this kind is a quoted string: its text starts and
    /// ends with a quote character.
    pub open spec fn spec_is_string_literal(self) -> bool {
        self == JsSyntaxKind::JS_STRING_LITERAL || self == JsSyntaxKind::JSX_STRING_LITERAL
    }

    /// Whether a token of this kind is a quoted string.
    #[verifier::when_used_as_spec(spec_is_string_literal)]
    pub fn is_string_literal(self) -> (r: bool)
        ensures
            r == self.spec_is_string_literal(),
    {
        match self {
            JsSyntaxKind::JS_STRING_LITERAL | JsSyntaxKind::JSX_STRING_LITERAL => true,
            _ => false,
        }
    }

    /// The position of this kind in the declaration of the enum, tokens
    /// first.
    pub open spec fn spec_to_raw(self) -> u16 {
        match self {
            JsSyntaxKind::EOF => 0,
            JsSyntaxKind::ERROR_TOKEN => 1,
            JsSyntaxKind::IDENT => 2,
            JsSyntaxKind::JS_STRING_LITERAL => 3,
            JsSyntaxKind::JSX_STRING_LITERAL => 4,
            JsSyntaxKind::JS_NUMBER_LITERAL => 5,
            JsSyntaxKind::GRIT_METAVARIABLE => 6,
            JsSyntaxKind::IMPORT_KW => 7,
            JsSyntaxKind::TYPE_KW => 8,
            JsSyntaxKind::FROM_KW => 9,
            JsSyntaxKind::AS_KW => 10,
            JsSyntaxKind::WITH_KW => 11,
            JsSyntaxKind::ASSERT_KW => 12,
            JsSyntaxKind::DECLARE_KW => 13,
            JsSyntaxKind::MODULE_KW => 14,
            JsSyntaxKind::STAR => 15,
            JsSyntaxKind::COMMA => 16,
            JsSyntaxKind::COLON => 17,
            JsSyntaxKind::SEMICOLON => 18,
            JsSyntaxKind::DOT3 => 19,
            JsSyntaxKind::QUESTIONDOT => 20,
            JsSyntaxKind::L_PAREN => 21,
            JsSyntaxKind::R_PAREN => 22,
            JsSyntaxKind::L_CURLY => 23,
            JsSyntaxKind::R_CURLY => 24,
            JsSyntaxKind::JS_MODULE => 25,
            JsSyntaxKind::JS_MODULE_ITEM_LIST => 26,
            JsSyntaxKind::JS_EXPRESSION_STATEMENT => 27,
            JsSyntaxKind::JS_IMPORT => 28,
            JsSyntaxKind::JS_IMPORT_BARE_CLAUSE => 29,
            JsSyntaxKind::JS_IMPORT_DEFAULT_CLAUSE => 30,
            JsSyntaxKind::JS_IMPORT_NAMED_CLAUSE => 31,
            JsSyntaxKind::JS_IMPORT_NAMESPACE_CLAUSE => 32,
            JsSyntaxKind::JS_IMPORT_COMBINED_CLAUSE => 33,
            JsSyntaxKind::JS_MODULE_SOURCE => 34,
            JsSyntaxKind::JS_METAVARIABLE => 35,
            JsSyntaxKind::JS_IMPORT_ASSERTION => 36,
            JsSyntaxKind::JS_IMPORT_ASSERTION_ENTRY_LIST => 37,
            JsSyntaxKind::JS_IMPORT_ASSERTION_ENTRY => 38,
            JsSyntaxKind::JS_NAMED_IMPORT_SPECIFIERS => 39,
            JsSyntaxKind::JS_NAMED_IMPORT_SPECIFIER_LIST => 40,
            JsSyntaxKind::JS_NAMED_IMPORT_SPECIFIER => 41,
            JsSyntaxKind::JS_SHORTHAND_NAMED_IMPORT_SPECIFIER => 42,
            JsSyntaxKind::JS_BOGUS_NAMED_IMPORT_SPECIFIER => 43,
            JsSyntaxKind::JS_NAMESPACE_IMPORT_SPECIFIER => 44,
            JsSyntaxKind::JS_DEFAULT_IMPORT_SPECIFIER => 45,
            JsSyntaxKind::JS_LITERAL_EXPORT_NAME => 46,
            JsSyntaxKind::JS_IDENTIFIER_BINDING => 47,
            JsSyntaxKind::JS_BOGUS_BINDING => 48,
            JsSyntaxKind::JS_CALL_EXPRESSION => 49,
            JsSyntaxKind::JS_IMPORT_CALL_EXPRESSION => 50,
            JsSyntaxKind::JS_CALL_ARGUMENTS => 51,
            JsSyntaxKind::JS_CALL_ARGUMENT_LIST => 52,
            JsSyntaxKind::JS_SPREAD => 53,
            JsSyntaxKind::JS_IDENTIFIER_EXPRESSION => 54,
            JsSyntaxKind::JS_REFERENCE_IDENTIFIER => 55,
            JsSyntaxKind::JS_STATIC_MEMBER_EXPRESSION => 56,
            JsSyntaxKind::JS_STRING_LITERAL_EXPRESSION => 57,
            JsSyntaxKind::JS_NUMBER_LITERAL_EXPRESSION => 58,
            JsSyntaxKind::JS_BOGUS_EXPRESSION => 59,
            JsSyntaxKind::JS_BOGUS => 60,
            JsSyntaxKind::TS_EXTERNAL_MODULE_DECLARATION => 61,
            JsSyntaxKind::TS_MODULE_BLOCK => 62,
        }
    }

    /// The number that stands for this kind where a kind is stored as a bare
    /// `u16`.
    #[verifier::when_used_as_spec(spec_to_raw)]
    pub fn to_raw(self) -> (r: u16)
        ensures
            r == self.spec_to_raw(),
    {
        match self {
            JsSyntaxKind::EOF => 0,
            JsSyntaxKind::ERROR_TOKEN => 1,
            JsSyntaxKind::IDENT => 2,
            JsSyntaxKind::JS_STRING_LITERAL => 3,
            JsSyntaxKind::JSX_STRING_LITERAL => 4,
            JsSyntaxKind::JS_NUMBER_LITERAL => 5,
            JsSyntaxKind::GRIT_METAVARIABLE => 6,
            JsSyntaxKind::IMPORT_KW => 7,
            JsSyntaxKind::TYPE_KW => 8,
            JsSyntaxKind::FROM_KW => 9,
            JsSyntaxKind::AS_KW => 10,
            JsSyntaxKind::WITH_KW => 11,
            JsSyntaxKind::ASSERT_KW => 12,
            JsSyntaxKind::DECLARE_KW => 13,
            JsSyntaxKind::MODULE_KW => 14,
            JsSyntaxKind::STAR => 15,
            JsSyntaxKind::COMMA => 16,
            JsSyntaxKind::COLON => 17,
            JsSyntaxKind::SEMICOLON => 18,
            JsSyntaxKind::DOT3 => 19,
            JsSyntaxKind::QUESTIONDOT => 20,
            JsSyntaxKind::L_PAREN => 21,
            JsSyntaxKind::R_PAREN => 22,
            JsSyntaxKind::L_CURLY => 23,
            JsSyntaxKind::R_CURLY => 24,
            JsSyntaxKind::JS_MODULE => 25,
            JsSyntaxKind::JS_MODULE_ITEM_LIST => 26,
            JsSyntaxKind::JS_EXPRESSION_STATEMENT => 27,
            JsSyntaxKind::JS_IMPORT => 28,
            JsSyntaxKind::JS_IMPORT_BARE_CLAUSE => 29,
            JsSyntaxKind::JS_IMPORT_DEFAULT_CLAUSE => 30,
            JsSyntaxKind::JS_IMPORT_NAMED_CLAUSE => 31,
            JsSyntaxKind::JS_IMPORT_NAMESPACE_CLAUSE => 32,
            JsSyntaxKind::JS_IMPORT_COMBINED_CLAUSE => 33,
            JsSyntaxKind::JS_MODULE_SOURCE => 34,
            JsSyntaxKind::JS_METAVARIABLE => 35,
            JsSyntaxKind::JS_IMPORT_ASSERTION => 36,
            JsSyntaxKind::JS_IMPORT_ASSERTION_ENTRY_LIST => 37,
            JsSyntaxKind::JS_IMPORT_ASSERTION_ENTRY => 38,
            JsSyntaxKind::JS_NAMED_IMPORT_SPECIFIERS => 39,
            JsSyntaxKind::JS_NAMED_IMPORT_SPECIFIER_LIST => 40,
            JsSyntaxKind::JS_NAMED_IMPORT_SPECIFIER => 41,
            JsSyntaxKind::JS_SHORTHAND_NAMED_IMPORT_SPECIFIER => 42,
            JsSyntaxKind::JS_BOGUS_NAMED_IMPORT_SPECIFIER => 43,
            JsSyntaxKind::JS_NAMESPACE_IMPORT_SPECIFIER => 44,
            JsSyntaxKind::JS_DEFAULT_IMPORT_SPECIFIER => 45,
            JsSyntaxKind::JS_LITERAL_EXPORT_NAME => 46,
            JsSyntaxKind::JS_IDENTIFIER_BINDING => 47,
            JsSyntaxKind::JS_BOGUS_BINDING => 48,
            JsSyntaxKind::JS_CALL_EXPRESSION => 49,
            JsSyntaxKind::JS_IMPORT_CALL_EXPRESSION => 50,
            JsSyntaxKind::JS_CALL_ARGUMENTS => 51,
            JsSyntaxKind::JS_CALL_ARGUMENT_LIST => 52,
            JsSyntaxKind::JS_SPREAD => 53,
            JsSyntaxKind::JS_IDENTIFIER_EXPRESSION => 54,
            JsSyntaxKind::JS_REFERENCE_IDENTIFIER => 55,
            JsSyntaxKind::JS_STATIC_MEMBER_EXPRESSION => 56,
            JsSyntaxKind::JS_STRING_LITERAL_EXPRESSION => 57,
            JsSyntaxKind::JS_NUMBER_LITERAL_EXPRESSION => 58,
            JsSyntaxKind::JS_BOGUS_EXPRESSION => 59,
            JsSyntaxKind::JS_BOGUS => 60,
            JsSyntaxKind::TS_EXTERNAL_MODULE_DECLARATION => 61,
            JsSyntaxKind::TS_MODULE_BLOCK => 62,
        }
    }
}

} // verus!
