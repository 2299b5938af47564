//! Asking twice: every query is a function of the handle it is asked of.
//!
//! Each law takes a handle and two answers that the contract of the query
//! allows for it, and shows that they are the same answer: the same token,
//! the same text, the handle on the same place.

use biome_rowan::TokenText;
use vstd::prelude::*;

use crate::error::{SyntaxError, SyntaxResult};
use crate::green::Cursor;
use crate::nodes::{
    AnyJsBinding, AnyJsImportClause, AnyJsImportSourceLike, AnyJsImportSpecifier,
    AnyJsNamedImportSpecifier, JsCallExpression, JsImport, JsImportAssertion,
    JsImportCallExpression, JsModuleSource,
};
use crate::token::{token_text_chars, JsSyntaxToken};

verus! {

/// Two optional texts are the same: both absent, or the same characters.
pub open spec fn same_text(first: Option<TokenText>, second: Option<TokenText>) -> bool {
    match (first, second) {
        (Some(a), Some(b)) => token_text_chars(a) == token_text_chars(b),
        (None, None) => true,
        _ => false,
    }
}

/// Two results of reading a text are the same: the same error, or the same
/// characters.
pub open spec fn same_text_result(
    first: SyntaxResult<TokenText>,
    second: SyntaxResult<TokenText>,
) -> bool {
    match (first, second) {
        (Ok(a), Ok(b)) => token_text_chars(a) == token_text_chars(b),
        (Err(a), Err(b)) => a == b,
        _ => false,
    }
}

/// Two optional handles are the same: both absent, or on the same place.
pub open spec fn same_place<T: View<V = Cursor>>(first: Option<T>, second: Option<T>) -> bool {
    match (first, second) {
        (Some(a), Some(b)) => a@ == b@,
        (None, None) => true,
        _ => false,
    }
}

/// Two results of reading a child are the same: the same error, or handles
/// on the same place.
pub open spec fn same_place_result<T: View<V = Cursor>>(
    first: SyntaxResult<T>,
    second: SyntaxResult<T>,
) -> bool {
    match (first, second) {
        (Ok(a), Ok(b)) => a@ == b@,
        (Err(a), Err(b)) => a == b,
        _ => false,
    }
}

/// Asked twice of one handle, the name of the module of a declaration is the same.
pub proof fn law_js_import_source_text_twice(import: JsImport, first: SyntaxResult<TokenText>, second: SyntaxResult<TokenText>)
    requires
        call_ensures(JsImport::source_text, (&import,), first),
        call_ensures(JsImport::source_text, (&import,), second),
    ensures
        same_text_result(first, second),
{
}

/// Asked twice of one handle, the source token of a declaration is the same.
pub proof fn law_js_import_source_token_twice(import: JsImport, first: SyntaxResult<JsSyntaxToken>, second: SyntaxResult<JsSyntaxToken>)
    requires
        call_ensures(JsImport::source_token, (&import,), first),
        call_ensures(JsImport::source_token, (&import,), second),
    ensures
        first == second,
{
}

/// Asked twice of one handle, the name of the module of a dynamic import is the same.
pub proof fn law_js_import_call_expression_module_source_text_twice(call: JsImportCallExpression, first: Option<TokenText>, second: Option<TokenText>)
    requires
        call_ensures(JsImportCallExpression::module_source_text, (&call,), first),
        call_ensures(JsImportCallExpression::module_source_text, (&call,), second),
    ensures
        same_text(first, second),
{
}

/// Asked twice of one handle, the token of the module of a dynamic import is the same.
pub proof fn law_js_import_call_expression_module_source_token_twice(call: JsImportCallExpression, first: Option<JsSyntaxToken>, second: Option<JsSyntaxToken>)
    requires
        call_ensures(JsImportCallExpression::module_source_token, (&call,), first),
        call_ensures(JsImportCallExpression::module_source_token, (&call,), second),
    ensures
        first == second,
{
}

/// Asked twice of one handle, whether a call is a call of `require` is the same.
pub proof fn law_js_call_expression_is_require_call_expression_twice(call: JsCallExpression, first: bool, second: bool)
    requires
        call_ensures(JsCallExpression::is_require_call_expression, (&call,), first),
        call_ensures(JsCallExpression::is_require_call_expression, (&call,), second),
    ensures
        first == second,
{
}

/// Asked twice of one handle, the name of the module of a call of `require` is the same.
pub proof fn law_js_call_expression_imported_module_source_text_twice(call: JsCallExpression, first: Option<TokenText>, second: Option<TokenText>)
    requires
        call_ensures(JsCallExpression::imported_module_source_text, (&call,), first),
        call_ensures(JsCallExpression::imported_module_source_text, (&call,), second),
    ensures
        same_text(first, second),
{
}

/// Asked twice of one handle, the token of the module of a call of `require` is the same.
pub proof fn law_js_call_expression_imported_module_source_token_twice(call: JsCallExpression, first: Option<JsSyntaxToken>, second: Option<JsSyntaxToken>)
    requires
        call_ensures(JsCallExpression::imported_module_source_token, (&call,), first),
        call_ensures(JsCallExpression::imported_module_source_token, (&call,), second),
    ensures
        first == second,
{
}

/// Asked twice of one handle, the `type` marker of a clause is the same.
pub proof fn law_any_js_import_clause_type_token_twice(clause: AnyJsImportClause, first: Option<JsSyntaxToken>, second: Option<JsSyntaxToken>)
    requires
        call_ensures(AnyJsImportClause::type_token, (&clause,), first),
        call_ensures(AnyJsImportClause::type_token, (&clause,), second),
    ensures
        first == second,
{
}

/// Asked twice of one handle, the module source of a clause is the same.
pub proof fn law_any_js_import_clause_source_twice(clause: AnyJsImportClause, first: SyntaxResult<JsModuleSource>, second: SyntaxResult<JsModuleSource>)
    requires
        call_ensures(AnyJsImportClause::source, (&clause,), first),
        call_ensures(AnyJsImportClause::source, (&clause,), second),
    ensures
        same_place_result(first, second),
{
}

/// Asked twice of one handle, the assertion of a clause is the same.
pub proof fn law_any_js_import_clause_assertion_twice(clause: AnyJsImportClause, first: Option<JsImportAssertion>, second: Option<JsImportAssertion>)
    requires
        call_ensures(AnyJsImportClause::assertion, (&clause,), first),
        call_ensures(AnyJsImportClause::assertion, (&clause,), second),
    ensures
        same_place(first, second),
{
}

/// Asked twice of one handle, the `type` marker of a named specifier is the same.
pub proof fn law_any_js_named_import_specifier_type_token_twice(specifier: AnyJsNamedImportSpecifier, first: Option<JsSyntaxToken>, second: Option<JsSyntaxToken>)
    requires
        call_ensures(AnyJsNamedImportSpecifier::type_token, (&specifier,), first),
        call_ensures(AnyJsNamedImportSpecifier::type_token, (&specifier,), second),
    ensures
        first == second,
{
}

/// Asked twice of one handle, the clause of a named specifier is the same.
pub proof fn law_any_js_named_import_specifier_import_clause_twice(specifier: AnyJsNamedImportSpecifier, first: Option<AnyJsImportClause>, second: Option<AnyJsImportClause>)
    requires
        call_ensures(AnyJsNamedImportSpecifier::import_clause, (&specifier,), first),
        call_ensures(AnyJsNamedImportSpecifier::import_clause, (&specifier,), second),
    ensures
        same_place(first, second),
{
}

/// Asked twice of one handle, whether a named specifier imports a type only is the same.
pub proof fn law_any_js_named_import_specifier_imports_only_types_twice(specifier: AnyJsNamedImportSpecifier, first: bool, second: bool)
    requires
        call_ensures(AnyJsNamedImportSpecifier::imports_only_types, (&specifier,), first),
        call_ensures(AnyJsNamedImportSpecifier::imports_only_types, (&specifier,), second),
    ensures
        first == second,
{
}

/// Asked twice of one handle, the imported name of a named specifier is the same.
pub proof fn law_any_js_named_import_specifier_imported_name_twice(specifier: AnyJsNamedImportSpecifier, first: Option<JsSyntaxToken>, second: Option<JsSyntaxToken>)
    requires
        call_ensures(AnyJsNamedImportSpecifier::imported_name, (&specifier,), first),
        call_ensures(AnyJsNamedImportSpecifier::imported_name, (&specifier,), second),
    ensures
        first == second,
{
}

/// Asked twice of one handle, the binding of a named specifier is the same.
pub proof fn law_any_js_named_import_specifier_local_name_twice(specifier: AnyJsNamedImportSpecifier, first: Option<AnyJsBinding>, second: Option<AnyJsBinding>)
    requires
        call_ensures(AnyJsNamedImportSpecifier::local_name, (&specifier,), first),
        call_ensures(AnyJsNamedImportSpecifier::local_name, (&specifier,), second),
    ensures
        same_place(first, second),
{
}

/// Asked twice of one handle, the inner text of a module source is the same.
pub proof fn law_js_module_source_inner_string_text_twice(source: JsModuleSource, first: SyntaxResult<TokenText>, second: SyntaxResult<TokenText>)
    requires
        call_ensures(JsModuleSource::inner_string_text, (&source,), first),
        call_ensures(JsModuleSource::inner_string_text, (&source,), second),
    ensures
        same_text_result(first, second),
{
}

/// Asked twice of one handle, the name of the module of an import of any form is the same.
pub proof fn law_any_js_import_source_like_module_source_text_twice(source: AnyJsImportSourceLike, first: Option<TokenText>, second: Option<TokenText>)
    requires
        call_ensures(AnyJsImportSourceLike::module_source_text, (&source,), first),
        call_ensures(AnyJsImportSourceLike::module_source_text, (&source,), second),
    ensures
        same_text(first, second),
{
}

/// Asked twice of one handle, the token of the module of an import of any form is the same.
pub proof fn law_any_js_import_source_like_module_name_token_twice(source: AnyJsImportSourceLike, first: Option<JsSyntaxToken>, second: Option<JsSyntaxToken>)
    requires
        call_ensures(AnyJsImportSourceLike::module_name_token, (&source,), first),
        call_ensures(AnyJsImportSourceLike::module_name_token, (&source,), second),
    ensures
        first == second,
{
}

/// Asked twice of one handle, whether a source is in a `declare module` declaration is the same.
pub proof fn law_any_js_import_source_like_is_in_ts_module_declaration_twice(source: AnyJsImportSourceLike, first: bool, second: bool)
    requires
        call_ensures(AnyJsImportSourceLike::is_in_ts_module_declaration, (&source,), first),
        call_ensures(AnyJsImportSourceLike::is_in_ts_module_declaration, (&source,), second),
    ensures
        first == second,
{
}

/// Asked twice of one handle, the binding of a specifier is the same.
pub proof fn law_any_js_import_specifier_local_name_twice(specifier: AnyJsImportSpecifier, first: SyntaxResult<AnyJsBinding>, second: SyntaxResult<AnyJsBinding>)
    requires
        call_ensures(AnyJsImportSpecifier::local_name, (&specifier,), first),
        call_ensures(AnyJsImportSpecifier::local_name, (&specifier,), second),
    ensures
        same_place_result(first, second),
{
}

/// Made twice from one specifier and one marker, the specifier with that
/// marker has the same kind and the same slots.
pub proof fn law_any_js_named_import_specifier_with_type_token_twice(
    specifier: AnyJsNamedImportSpecifier,
    marker: Option<JsSyntaxToken>,
    first: AnyJsNamedImportSpecifier,
    second: AnyJsNamedImportSpecifier,
)
    requires
        call_ensures(AnyJsNamedImportSpecifier::with_type_token, (specifier, marker), first),
        call_ensures(AnyJsNamedImportSpecifier::with_type_token, (specifier, marker), second),
    ensures
        first@.path == second@.path,
        first@.kind() == second@.kind(),
        first@.green().slots@ == second@.green().slots@,
{
    if first@.path.len() == 0 && second@.path.len() == 0 {
        assert(first@.green() == first@.root);
        assert(second@.green() == second@.root);
    }
}

} // verus!
