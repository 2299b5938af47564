//! The queries on the three forms that import a module: the `import`
//! declaration, the dynamic `import(..)` and the call of `require(..)`.

use biome_rowan::TokenText;
use vstd::prelude::*;

use crate::error::{SyntaxError, SyntaxResult};
use crate::green::JsSyntaxNode;
use crate::kind::JsSyntaxKind;
use crate::model;
use crate::nodes::{
    matches_option, matches_result, AnyJsBinding, AnyJsImportClause, AnyJsImportSourceLike,
    AnyJsImportSpecifier, AnyJsModuleSource, AnyJsNamedImportSpecifier, JsCallExpression,
    JsImport, JsImportAssertion, JsImportCallExpression, JsModuleSource,
};
use crate::token::{inner_string_text, matches_text, matches_text_result, JsSyntaxToken};

verus! {

/// The child node in slot `index` of `at`, where its kind is `kind`.
fn node_of_kind(at: &JsSyntaxNode, index: usize, kind: JsSyntaxKind) -> (r: Option<JsSyntaxNode>)
    ensures
        r is Some == model::node_of_kind(at@, index, kind) is Some,
        r matches Some(child) ==> Some(child@) == model::node_of_kind(at@, index, kind)
            && child@.wf(),
{
    match at.node_in_slot(index) {
        Some(child) => if child.kind() == kind {
            Some(child)
        } else {
            None
        },
        None => None,
    }
}

/// The token of the first argument of the call `call`, where that argument
/// is a string literal.
fn string_argument(call: &JsSyntaxNode) -> (r: Option<JsSyntaxToken>)
    ensures
        r == model::string_argument(call@),
{
    let slot: usize = if call.kind() == JsSyntaxKind::JS_IMPORT_CALL_EXPRESSION {
        1
    } else {
        3
    };
    let arguments = match node_of_kind(call, slot, JsSyntaxKind::JS_CALL_ARGUMENTS) {
        Some(arguments) => arguments,
        None => {
            return None;
        },
    };
    let list = match node_of_kind(&arguments, 1, JsSyntaxKind::JS_CALL_ARGUMENT_LIST) {
        Some(list) => list,
        None => {
            return None;
        },
    };
    match list.node_in_slot(0) {
        Some(argument) => if argument.kind() == JsSyntaxKind::JS_STRING_LITERAL_EXPRESSION {
            argument.token_in_slot(0)
        } else {
            None
        },
        None => None,
    }
}

/// The token of the name that the call `call` calls, where its callee is a
/// plain identifier.
fn callee_name(call: &JsSyntaxNode) -> (r: Option<JsSyntaxToken>)
    ensures
        r == model::callee_name(call@),
{
    match node_of_kind(call, 0, JsSyntaxKind::JS_IDENTIFIER_EXPRESSION) {
        Some(callee) => match node_of_kind(&callee, 0, JsSyntaxKind::JS_REFERENCE_IDENTIFIER) {
            Some(name) => name.token_in_slot(0),
            None => None,
        },
        None => None,
    }
}

impl JsImport {
    /// The name of the module that the declaration imports: the text of its
    /// source without the quotes.
    ///
    /// Fails where the clause or its source is missing, and where a
    /// metavariable stands in the place of the source.
    pub fn source_text(&self) -> (r: SyntaxResult<TokenText>)
        ensures
            matches_text_result(r, model::import_source_text(self@)),
    {
        match self.import_clause() {
            Ok(clause) => match clause.source() {
                Ok(source) => source.inner_string_text(),
                Err(error) => Err(error),
            },
            Err(error) => Err(error),
        }
    }

    /// The token that names the module that the declaration imports, quotes
    /// included.
    ///
    /// Fails where `source_text` fails.
    pub fn source_token(&self) -> (r: SyntaxResult<JsSyntaxToken>)
        ensures
            r == model::import_source_token(self@),
    {
        match self.import_clause() {
            Ok(clause) => match clause.source() {
                Ok(source) => source.value_token(),
                Err(error) => Err(error),
            },
            Err(error) => Err(error),
        }
    }
}

impl JsImportCallExpression {
    /// The name of the module that `import("name")` imports; `None` where
    /// the first argument is missing or is no string literal.
    pub fn module_source_text(&self) -> (r: Option<TokenText>)
        ensures
            matches_text(r, model::string_argument_text(self@)),
    {
        match string_argument(self.syntax()) {
            Some(token) => Some(inner_string_text(&token)),
            None => None,
        }
    }

    /// The token of the first argument of `import("name")`, quotes
    /// included; `None` where `module_source_text` gives none.
    pub fn module_source_token(&self) -> (r: Option<JsSyntaxToken>)
        ensures
            r == model::string_argument(self@),
    {
        string_argument(self.syntax())
    }
}

impl JsCallExpression {
    /// Whether this call is written as `require(..)`: its callee is a plain
    /// identifier with the text `require`. What the name is bound to and
    /// what the arguments are plays no part.
    pub fn is_require_call_expression(&self) -> (r: bool)
        ensures
            r == model::is_require_call(self@),
    {
        match callee_name(self.syntax()) {
            Some(name) => name.text_trimmed_is("require"),
            None => false,
        }
    }

    /// The name of the module that `require("name")` loads; `None` where
    /// this is no call of `require`, or its first argument is missing or is
    /// no string literal.
    pub fn imported_module_source_text(&self) -> (r: Option<TokenText>)
        ensures
            matches_text(r, model::required_module_text(self@)),
    {
        if self.is_require_call_expression() {
            match string_argument(self.syntax()) {
                Some(token) => Some(inner_string_text(&token)),
                None => None,
            }
        } else {
            None
        }
    }

    /// The token of the first argument of `require("name")`, quotes
    /// included; `None` where `imported_module_source_text` gives none.
    pub fn imported_module_source_token(&self) -> (r: Option<JsSyntaxToken>)
        ensures
            r == model::required_module_token(self@),
    {
        if self.is_require_call_expression() {
            string_argument(self.syntax())
        } else {
            None
        }
    }
}

impl AnyJsImportClause {
    /// The `type` marker of the clause, as in `import type { X } from "m"`.
    /// A bare clause and a combined clause have no place for one.
    pub fn type_token(&self) -> (r: Option<JsSyntaxToken>)
        ensures
            r == model::type_token(self@),
    {
        match self {
            AnyJsImportClause::JsImportBareClause(clause) => {
                proof {
                    use_type_invariant(clause);
                }
                None
            },
            AnyJsImportClause::JsImportDefaultClause(clause) => clause.type_token(),
            AnyJsImportClause::JsImportNamedClause(clause) => clause.type_token(),
            AnyJsImportClause::JsImportNamespaceClause(clause) => clause.type_token(),
            AnyJsImportClause::JsImportCombinedClause(clause) => {
                proof {
                    use_type_invariant(clause);
                }
                None
            },
        }
    }

    /// The module source of the clause.
    ///
    /// Fails with `MissingRequiredChild` where the source is missing, and
    /// with `UnexpectedMetavariable` where a metavariable stands in its
    /// place.
    pub fn source(&self) -> (r: SyntaxResult<JsModuleSource>)
        ensures
            matches_result(r, model::clause_source(self@)),
    {
        let source = match self {
            AnyJsImportClause::JsImportBareClause(clause) => clause.source(),
            AnyJsImportClause::JsImportDefaultClause(clause) => clause.source(),
            AnyJsImportClause::JsImportNamedClause(clause) => clause.source(),
            AnyJsImportClause::JsImportNamespaceClause(clause) => clause.source(),
            AnyJsImportClause::JsImportCombinedClause(clause) => clause.source(),
        };
        match source {
            Ok(AnyJsModuleSource::JsModuleSource(source)) => {
                proof {
                    use_type_invariant(&source);
                }
                Ok(source)
            },
            Ok(AnyJsModuleSource::JsMetavariable(other)) => {
                proof {
                    use_type_invariant(&other);
                }
                Err(SyntaxError::UnexpectedMetavariable)
            },
            Err(error) => Err(error),
        }
    }

    /// The assertion of the clause, as in `with { type: "json" }`, if it
    /// has one.
    pub fn assertion(&self) -> (r: Option<JsImportAssertion>)
        ensures
            matches_option(r, model::clause_assertion(self@)),
    {
        match self {
            AnyJsImportClause::JsImportBareClause(clause) => clause.assertion(),
            AnyJsImportClause::JsImportDefaultClause(clause) => clause.assertion(),
            AnyJsImportClause::JsImportNamedClause(clause) => clause.assertion(),
            AnyJsImportClause::JsImportNamespaceClause(clause) => clause.assertion(),
            AnyJsImportClause::JsImportCombinedClause(clause) => clause.assertion(),
        }
    }
}

impl AnyJsNamedImportSpecifier {
    /// The `type` marker of the specifier, as in `import { type X }`. A
    /// bogus specifier has none.
    pub fn type_token(&self) -> (r: Option<JsSyntaxToken>)
        ensures
            r == model::type_token(self@),
    {
        match self {
            AnyJsNamedImportSpecifier::JsBogusNamedImportSpecifier(specifier) => {
                proof {
                    use_type_invariant(specifier);
                }
                None
            },
            AnyJsNamedImportSpecifier::JsNamedImportSpecifier(specifier) => specifier.type_token(),
            AnyJsNamedImportSpecifier::JsShorthandNamedImportSpecifier(specifier) => {
                specifier.type_token()
            },
        }
    }

    /// The clause that holds this specifier: the node three steps up, past
    /// the list and the braces. `None` where there is no such node or it is
    /// no clause.
    pub fn import_clause(&self) -> (r: Option<AnyJsImportClause>)
        ensures
            matches_option(r, model::specifier_clause(self@)),
    {
        match self.syntax().ancestor(3) {
            Some(node) => AnyJsImportClause::cast(node),
            None => None,
        }
    }

    /// Whether the specifier imports a type only: it has a `type` marker or
    /// its clause has one.
    pub fn imports_only_types(&self) -> (r: bool)
        ensures
            r == model::imports_only_types(self@),
    {
        if self.type_token().is_some() {
            true
        } else {
            match self.import_clause() {
                Some(clause) => clause.type_token().is_some(),
                None => false,
            }
        }
    }

    /// The token of the name that the specifier imports, read from its
    /// binding; `None` for a bogus specifier and where the binding is
    /// missing or is no identifier.
    pub fn imported_name(&self) -> (r: Option<JsSyntaxToken>)
        ensures
            r == model::named_specifier_imported_name(self@),
    {
        match self.local_name() {
            Some(binding) => match binding.as_js_identifier_binding() {
                Some(identifier) => match identifier.name_token() {
                    Ok(token) => Some(token),
                    Err(_) => None,
                },
                None => None,
            },
            None => None,
        }
    }

    /// The binding that the specifier introduces; `None` for a bogus
    /// specifier and where the binding is missing.
    pub fn local_name(&self) -> (r: Option<AnyJsBinding>)
        ensures
            matches_option(r, model::named_specifier_local_name(self@)),
    {
        match self {
            AnyJsNamedImportSpecifier::JsBogusNamedImportSpecifier(specifier) => {
                proof {
                    use_type_invariant(specifier);
                }
                None
            },
            AnyJsNamedImportSpecifier::JsNamedImportSpecifier(specifier) => {
                proof {
                    use_type_invariant(specifier);
                }
                match specifier.local_name() {
                    Ok(binding) => Some(binding),
                    Err(_) => None,
                }
            },
            AnyJsNamedImportSpecifier::JsShorthandNamedImportSpecifier(specifier) => {
                proof {
                    use_type_invariant(specifier);
                }
                match specifier.local_name() {
                    Ok(binding) => Some(binding),
                    Err(_) => None,
                }
            },
        }
    }

    /// This specifier with `type_token` in the place of its `type` marker.
    ///
    /// The result is a node of a tree of its own: the tree of this
    /// specifier stays as it is. A bogus specifier is handed back
    /// unchanged.
    pub fn with_type_token(self, type_token: Option<JsSyntaxToken>) -> (r:
        AnyJsNamedImportSpecifier)
        ensures
            model::is_with_type_token(r@, self@, type_token),
            r@.wf(),
            r@.kind() == self@.kind(),
    {
        match self {
            AnyJsNamedImportSpecifier::JsBogusNamedImportSpecifier(specifier) => {
                proof {
                    use_type_invariant(&specifier);
                }
                AnyJsNamedImportSpecifier::JsBogusNamedImportSpecifier(specifier)
            },
            AnyJsNamedImportSpecifier::JsNamedImportSpecifier(specifier) => {
                proof {
                    use_type_invariant(&specifier);
                }
                let specifier = specifier.with_type_token(type_token);
                proof {
                    use_type_invariant(&specifier);
                }
                AnyJsNamedImportSpecifier::JsNamedImportSpecifier(specifier)
            },
            AnyJsNamedImportSpecifier::JsShorthandNamedImportSpecifier(specifier) => {
                proof {
                    use_type_invariant(&specifier);
                }
                let specifier = specifier.with_type_token(type_token);
                proof {
                    use_type_invariant(&specifier);
                }
                AnyJsNamedImportSpecifier::JsShorthandNamedImportSpecifier(specifier)
            },
        }
    }
}

impl JsModuleSource {
    /// The text of the source without the trivia around it and without its
    /// quotes. Escape sequences stay as they are written.
    ///
    /// Fails only where the token is missing.
    pub fn inner_string_text(&self) -> (r: SyntaxResult<TokenText>)
        ensures
            matches_text_result(r, model::inner_text(self@)),
    {
        match self.value_token() {
            Ok(token) => Ok(inner_string_text(&token)),
            Err(error) => Err(error),
        }
    }
}

impl AnyJsImportSourceLike {
    /// The name of the module that this form names, without quotes; `None`
    /// wherever it cannot be read.
    pub fn module_source_text(&self) -> (r: Option<TokenText>)
        ensures
            matches_text(r, model::source_like_text(self@)),
    {
        match self {
            AnyJsImportSourceLike::JsModuleSource(source) => {
                proof {
                    use_type_invariant(source);
                }
                match source.inner_string_text() {
                    Ok(text) => Some(text),
                    Err(_) => None,
                }
            },
            AnyJsImportSourceLike::JsCallExpression(expression) => {
                proof {
                    use_type_invariant(expression);
                }
                expression.imported_module_source_text()
            },
            AnyJsImportSourceLike::JsImportCallExpression(import_call) => {
                proof {
                    use_type_invariant(import_call);
                }
                import_call.module_source_text()
            },
        }
    }

    /// The token that names the module, quotes included; `None` wherever
    /// it cannot be read.
    pub fn module_name_token(&self) -> (r: Option<JsSyntaxToken>)
        ensures
            r == model::source_like_token(self@),
    {
        match self {
            AnyJsImportSourceLike::JsModuleSource(source) => {
                proof {
                    use_type_invariant(source);
                }
                match source.value_token() {
                    Ok(token) => Some(token),
                    Err(_) => None,
                }
            },
            AnyJsImportSourceLike::JsCallExpression(expression) => {
                proof {
                    use_type_invariant(expression);
                }
                expression.imported_module_source_token()
            },
            AnyJsImportSourceLike::JsImportCallExpression(import_call) => {
                proof {
                    use_type_invariant(import_call);
                }
                import_call.module_source_token()
            },
        }
    }

    /// Whether this is the source of a `declare module "name" {}`
    /// declaration: a module source whose parent is such a declaration.
    pub fn is_in_ts_module_declaration(&self) -> (r: bool)
        ensures
            r == model::is_in_ts_module_declaration(self@),
    {
        match self {
            AnyJsImportSourceLike::JsModuleSource(source) => {
                match source.syntax().parent() {
                    Some(parent) => parent.kind() == JsSyntaxKind::TS_EXTERNAL_MODULE_DECLARATION,
                    None => false,
                }
            },
            AnyJsImportSourceLike::JsCallExpression(expression) => {
                proof {
                    use_type_invariant(expression);
                }
                false
            },
            AnyJsImportSourceLike::JsImportCallExpression(import_call) => {
                proof {
                    use_type_invariant(import_call);
                }
                false
            },
        }
    }
}

impl AnyJsImportSpecifier {
    /// The binding that the specifier introduces.
    ///
    /// Fails with `MissingRequiredChild` where the binding is missing.
    pub fn local_name(&self) -> (r: SyntaxResult<AnyJsBinding>)
        ensures
            matches_result(r, model::specifier_local_name(self@)),
    {
        match self {
            AnyJsImportSpecifier::JsNamedImportSpecifier(specifier) => {
                proof {
                    use_type_invariant(specifier);
                }
                specifier.local_name()
            },
            AnyJsImportSpecifier::JsShorthandNamedImportSpecifier(specifier) => {
                proof {
                    use_type_invariant(specifier);
                }
                specifier.local_name()
            },
            AnyJsImportSpecifier::JsNamespaceImportSpecifier(specifier) => {
                proof {
                    use_type_invariant(specifier);
                }
                specifier.local_name()
            },
            AnyJsImportSpecifier::JsDefaultImportSpecifier(specifier) => {
                proof {
                    use_type_invariant(specifier);
                }
                specifier.local_name()
            },
        }
    }
}

} // verus!
