//! Typed handles: a handle on a node together with the knowledge of its
//! kind, and the unions of the kinds that can stand in one place.

use vstd::prelude::*;

use crate::error::{SyntaxError, SyntaxResult};
use crate::green::{Cursor, GreenSlot, JsSyntaxNode};
use crate::kind::JsSyntaxKind;
use crate::model;
use crate::token::JsSyntaxToken;

verus! {

/// Whether a typed result stands for what `expected` names: the handle on
/// that place, or that error.
pub open spec fn matches_result<T: View<V = Cursor>>(
    r: SyntaxResult<T>,
    expected: SyntaxResult<Cursor>,
) -> bool {
    match r {
        Ok(node) => expected == Ok::<Cursor, SyntaxError>(node@) && node@.wf(),
        Err(error) => expected == Err::<Cursor, SyntaxError>(error),
    }
}

/// Whether an optional typed handle stands for what `expected` names: the
/// handle on that place, or none.
pub open spec fn matches_option<T: View<V = Cursor>>(r: Option<T>, expected: Option<Cursor>) -> bool {
    match r {
        Some(node) => expected == Some(node@) && node@.wf(),
        None => expected is None,
    }
}

/// The kinds of the three forms that name a module to import.
pub open spec fn is_import_source_like(kind: JsSyntaxKind) -> bool {
    ||| kind == JsSyntaxKind::JS_MODULE_SOURCE
    ||| kind == JsSyntaxKind::JS_CALL_EXPRESSION
    ||| kind == JsSyntaxKind::JS_IMPORT_CALL_EXPRESSION
}

fn any_source_in_slot(syntax: &JsSyntaxNode, index: usize) -> (r: SyntaxResult<AnyJsModuleSource>)
    ensures
        matches_result(
            r,
            match syntax@.node_in_slot(index) {
                Some(source) => if model::is_any_module_source(source.kind()) {
                    Ok(source)
                } else {
                    Err(SyntaxError::MissingRequiredChild)
                },
                None => Err(SyntaxError::MissingRequiredChild),
            },
        ),
{
    match syntax.node_in_slot(index) {
        Some(node) => match AnyJsModuleSource::cast(node) {
            Some(source) => Ok(source),
            None => Err(SyntaxError::MissingRequiredChild),
        },
        None => Err(SyntaxError::MissingRequiredChild),
    }
}

fn assertion_in_slot(syntax: &JsSyntaxNode, index: usize) -> (r: Option<JsImportAssertion>)
    ensures
        matches_option(r, model::node_of_kind(syntax@, index, JsSyntaxKind::JS_IMPORT_ASSERTION)),
{
    match syntax.node_in_slot(index) {
        Some(node) => JsImportAssertion::cast(node),
        None => None,
    }
}

fn binding_in_slot(syntax: &JsSyntaxNode, index: usize) -> (r: SyntaxResult<AnyJsBinding>)
    ensures
        matches_result(
            r,
            match syntax@.node_in_slot(index) {
                Some(binding) => if model::is_binding(binding.kind()) {
                    Ok(binding)
                } else {
                    Err(SyntaxError::MissingRequiredChild)
                },
                None => Err(SyntaxError::MissingRequiredChild),
            },
        ),
{
    match syntax.node_in_slot(index) {
        Some(node) => match AnyJsBinding::cast(node) {
            Some(binding) => Ok(binding),
            None => Err(SyntaxError::MissingRequiredChild),
        },
        None => Err(SyntaxError::MissingRequiredChild),
    }
}

/// An `import` declaration: the keyword, a clause and an optional semicolon.
#[derive(Debug)]
pub struct JsImport {
    syntax: JsSyntaxNode,
}

impl View for JsImport {
    type V = Cursor;

    closed spec fn view(&self) -> Cursor {
        self.syntax@
    }
}

impl Clone for JsImport {
    fn clone(&self) -> (r: Self)
        ensures
            r@ == self@,
    {
        proof {
            use_type_invariant(self);
        }
        JsImport { syntax: self.syntax.clone() }
    }
}

impl JsImport {
    /// A handle of this type is on a node of its kind.
    #[verifier::type_invariant]
    pub(crate) open spec fn inv(self) -> bool {
        self@.wf() && self@.kind() == JsSyntaxKind::JS_IMPORT
    }

    /// The typed handle on `syntax`, where it is a node of this kind.
    pub fn cast(syntax: JsSyntaxNode) -> (r: Option<JsImport>)
        ensures
            r is Some == (syntax@.kind() == JsSyntaxKind::JS_IMPORT),
            r matches Some(node) ==> node@ == syntax@ && node@.wf(),
    {
        if syntax.kind() == JsSyntaxKind::JS_IMPORT {
            Some(JsImport { syntax })
        } else {
            None
        }
    }

    /// The untyped handle on the node.
    pub fn syntax(&self) -> (r: &JsSyntaxNode)
        ensures
            r@ == self@,
            self@.wf(),
            self@.kind() == JsSyntaxKind::JS_IMPORT,
    {
        proof {
            use_type_invariant(self);
        }
        &self.syntax
    }

    /// The clause of the declaration.
    pub fn import_clause(&self) -> (r: SyntaxResult<AnyJsImportClause>)
        ensures
            matches_result(r, model::import_clause(self@)),
    {
        match self.syntax().node_in_slot(1) {
            Some(node) => match AnyJsImportClause::cast(node) {
                Some(clause) => Ok(clause),
                None => Err(SyntaxError::MissingRequiredChild),
            },
            None => Err(SyntaxError::MissingRequiredChild),
        }
    }
}

/// The clause of `import "source"`: a source and an optional assertion.
#[derive(Debug)]
pub struct JsImportBareClause {
    syntax: JsSyntaxNode,
}

impl View for JsImportBareClause {
    type V = Cursor;

    closed spec fn view(&self) -> Cursor {
        self.syntax@
    }
}

impl Clone for JsImportBareClause {
    fn clone(&self) -> (r: Self)
        ensures
            r@ == self@,
    {
        proof {
            use_type_invariant(self);
        }
        JsImportBareClause { syntax: self.syntax.clone() }
    }
}

impl JsImportBareClause {
    /// A handle of this type is on a node of its kind.
    #[verifier::type_invariant]
    pub(crate) open spec fn inv(self) -> bool {
        self@.wf() && self@.kind() == JsSyntaxKind::JS_IMPORT_BARE_CLAUSE
    }

    /// The typed handle on `syntax`, where it is a node of this kind.
    pub fn cast(syntax: JsSyntaxNode) -> (r: Option<JsImportBareClause>)
        ensures
            r is Some == (syntax@.kind() == JsSyntaxKind::JS_IMPORT_BARE_CLAUSE),
            r matches Some(node) ==> node@ == syntax@ && node@.wf(),
    {
        if syntax.kind() == JsSyntaxKind::JS_IMPORT_BARE_CLAUSE {
            Some(JsImportBareClause { syntax })
        } else {
            None
        }
    }

    /// The untyped handle on the node.
    pub fn syntax(&self) -> (r: &JsSyntaxNode)
        ensures
            r@ == self@,
            self@.wf(),
            self@.kind() == JsSyntaxKind::JS_IMPORT_BARE_CLAUSE,
    {
        proof {
            use_type_invariant(self);
        }
        &self.syntax
    }

    /// What stands in the source slot of the clause.
    pub fn source(&self) -> (r: SyntaxResult<AnyJsModuleSource>)
        ensures
            matches_result(r, model::clause_any_source(self@)),
    {
        any_source_in_slot(self.syntax(), 0)
    }

    /// The assertion of the clause.
    pub fn assertion(&self) -> (r: Option<JsImportAssertion>)
        ensures
            matches_option(r, model::clause_assertion(self@)),
    {
        assertion_in_slot(self.syntax(), 1)
    }
}

/// The clause of `import a from "source"`.
#[derive(Debug)]
pub struct JsImportDefaultClause {
    syntax: JsSyntaxNode,
}

impl View for JsImportDefaultClause {
    type V = Cursor;

    closed spec fn view(&self) -> Cursor {
        self.syntax@
    }
}

impl Clone for JsImportDefaultClause {
    fn clone(&self) -> (r: Self)
        ensures
            r@ == self@,
    {
        proof {
            use_type_invariant(self);
        }
        JsImportDefaultClause { syntax: self.syntax.clone() }
    }
}

impl JsImportDefaultClause {
    /// A handle of this type is on a node of its kind.
    #[verifier::type_invariant]
    pub(crate) open spec fn inv(self) -> bool {
        self@.wf() && self@.kind() == JsSyntaxKind::JS_IMPORT_DEFAULT_CLAUSE
    }

    /// The typed handle on `syntax`, where it is a node of this kind.
    pub fn cast(syntax: JsSyntaxNode) -> (r: Option<JsImportDefaultClause>)
        ensures
            r is Some == (syntax@.kind() == JsSyntaxKind::JS_IMPORT_DEFAULT_CLAUSE),
            r matches Some(node) ==> node@ == syntax@ && node@.wf(),
    {
        if syntax.kind() == JsSyntaxKind::JS_IMPORT_DEFAULT_CLAUSE {
            Some(JsImportDefaultClause { syntax })
        } else {
            None
        }
    }

    /// The untyped handle on the node.
    pub fn syntax(&self) -> (r: &JsSyntaxNode)
        ensures
            r@ == self@,
            self@.wf(),
            self@.kind() == JsSyntaxKind::JS_IMPORT_DEFAULT_CLAUSE,
    {
        proof {
            use_type_invariant(self);
        }
        &self.syntax
    }

    /// The `type` marker of the clause.
    pub fn type_token(&self) -> (r: Option<JsSyntaxToken>)
        ensures
            r == model::type_token(self@),
    {
        self.syntax().token_in_slot(0)
    }

    /// What stands in the source slot of the clause.
    pub fn source(&self) -> (r: SyntaxResult<AnyJsModuleSource>)
        ensures
            matches_result(r, model::clause_any_source(self@)),
    {
        any_source_in_slot(self.syntax(), 3)
    }

    /// The assertion of the clause.
    pub fn assertion(&self) -> (r: Option<JsImportAssertion>)
        ensures
            matches_option(r, model::clause_assertion(self@)),
    {
        assertion_in_slot(self.syntax(), 4)
    }
}

/// The clause of `import { a, b as c } from "source"`.
#[derive(Debug)]
pub struct JsImportNamedClause {
    syntax: JsSyntaxNode,
}

impl View for JsImportNamedClause {
    type V = Cursor;

    closed spec fn view(&self) -> Cursor {
        self.syntax@
    }
}

impl Clone for JsImportNamedClause {
    fn clone(&self) -> (r: Self)
        ensures
            r@ == self@,
    {
        proof {
            use_type_invariant(self);
        }
        JsImportNamedClause { syntax: self.syntax.clone() }
    }
}

impl JsImportNamedClause {
    /// A handle of this type is on a node of its kind.
    #[verifier::type_invariant]
    pub(crate) open spec fn inv(self) -> bool {
        self@.wf() && self@.kind() == JsSyntaxKind::JS_IMPORT_NAMED_CLAUSE
    }

    /// The typed handle on `syntax`, where it is a node of this kind.
    pub fn cast(syntax: JsSyntaxNode) -> (r: Option<JsImportNamedClause>)
        ensures
            r is Some == (syntax@.kind() == JsSyntaxKind::JS_IMPORT_NAMED_CLAUSE),
            r matches Some(node) ==> node@ == syntax@ && node@.wf(),
    {
        if syntax.kind() == JsSyntaxKind::JS_IMPORT_NAMED_CLAUSE {
            Some(JsImportNamedClause { syntax })
        } else {
            None
        }
    }

    /// The untyped handle on the node.
    pub fn syntax(&self) -> (r: &JsSyntaxNode)
        ensures
            r@ == self@,
            self@.wf(),
            self@.kind() == JsSyntaxKind::JS_IMPORT_NAMED_CLAUSE,
    {
        proof {
            use_type_invariant(self);
        }
        &self.syntax
    }

    /// The `type` marker of the clause.
    pub fn type_token(&self) -> (r: Option<JsSyntaxToken>)
        ensures
            r == model::type_token(self@),
    {
        self.syntax().token_in_slot(0)
    }

    /// What stands in the source slot of the clause.
    pub fn source(&self) -> (r: SyntaxResult<AnyJsModuleSource>)
        ensures
            matches_result(r, model::clause_any_source(self@)),
    {
        any_source_in_slot(self.syntax(), 3)
    }

    /// The assertion of the clause.
    pub fn assertion(&self) -> (r: Option<JsImportAssertion>)
        ensures
            matches_option(r, model::clause_assertion(self@)),
    {
        assertion_in_slot(self.syntax(), 4)
    }
}

/// The clause of `import * as a from "source"`.
#[derive(Debug)]
pub struct JsImportNamespaceClause {
    syntax: JsSyntaxNode,
}

impl View for JsImportNamespaceClause {
    type V = Cursor;

    closed spec fn view(&self) -> Cursor {
        self.syntax@
    }
}

impl Clone for JsImportNamespaceClause {
    fn clone(&self) -> (r: Self)
        ensures
            r@ == self@,
    {
        proof {
            use_type_invariant(self);
        }
        JsImportNamespaceClause { syntax: self.syntax.clone() }
    }
}

impl JsImportNamespaceClause {
    /// A handle of this type is on a node of its kind.
    #[verifier::type_invariant]
    pub(crate) open spec fn inv(self) -> bool {
        self@.wf() && self@.kind() == JsSyntaxKind::JS_IMPORT_NAMESPACE_CLAUSE
    }

    /// The typed handle on `syntax`, where it is a node of this kind.
    pub fn cast(syntax: JsSyntaxNode) -> (r: Option<JsImportNamespaceClause>)
        ensures
            r is Some == (syntax@.kind() == JsSyntaxKind::JS_IMPORT_NAMESPACE_CLAUSE),
            r matches Some(node) ==> node@ == syntax@ && node@.wf(),
    {
        if syntax.kind() == JsSyntaxKind::JS_IMPORT_NAMESPACE_CLAUSE {
            Some(JsImportNamespaceClause { syntax })
        } else {
            None
        }
    }

    /// The untyped handle on the node.
    pub fn syntax(&self) -> (r: &JsSyntaxNode)
        ensures
            r@ == self@,
            self@.wf(),
            self@.kind() == JsSyntaxKind::JS_IMPORT_NAMESPACE_CLAUSE,
    {
        proof {
            use_type_invariant(self);
        }
        &self.syntax
    }

    /// The `type` marker of the clause.
    pub fn type_token(&self) -> (r: Option<JsSyntaxToken>)
        ensures
            r == model::type_token(self@),
    {
        self.syntax().token_in_slot(0)
    }

    /// What stands in the source slot of the clause.
    pub fn source(&self) -> (r: SyntaxResult<AnyJsModuleSource>)
        ensures
            matches_result(r, model::clause_any_source(self@)),
    {
        any_source_in_slot(self.syntax(), 3)
    }

    /// The assertion of the clause.
    pub fn assertion(&self) -> (r: Option<JsImportAssertion>)
        ensures
            matches_option(r, model::clause_assertion(self@)),
    {
        assertion_in_slot(self.syntax(), 4)
    }
}

/// The clause of `import a, { b } from "source"` and of `import a, * as b from "source"`.
#[derive(Debug)]
pub struct JsImportCombinedClause {
    syntax: JsSyntaxNode,
}

impl View for JsImportCombinedClause {
    type V = Cursor;

    closed spec fn view(&self) -> Cursor {
        self.syntax@
    }
}

impl Clone for JsImportCombinedClause {
    fn clone(&self) -> (r: Self)
        ensures
            r@ == self@,
    {
        proof {
            use_type_invariant(self);
        }
        JsImportCombinedClause { syntax: self.syntax.clone() }
    }
}

impl JsImportCombinedClause {
    /// A handle of this type is on a node of its kind.
    #[verifier::type_invariant]
    pub(crate) open spec fn inv(self) -> bool {
        self@.wf() && self@.kind() == JsSyntaxKind::JS_IMPORT_COMBINED_CLAUSE
    }

    /// The typed handle on `syntax`, where it is a node of this kind.
    pub fn cast(syntax: JsSyntaxNode) -> (r: Option<JsImportCombinedClause>)
        ensures
            r is Some == (syntax@.kind() == JsSyntaxKind::JS_IMPORT_COMBINED_CLAUSE),
            r matches Some(node) ==> node@ == syntax@ && node@.wf(),
    {
        if syntax.kind() == JsSyntaxKind::JS_IMPORT_COMBINED_CLAUSE {
            Some(JsImportCombinedClause { syntax })
        } else {
            None
        }
    }

    /// The untyped handle on the node.
    pub fn syntax(&self) -> (r: &JsSyntaxNode)
        ensures
            r@ == self@,
            self@.wf(),
            self@.kind() == JsSyntaxKind::JS_IMPORT_COMBINED_CLAUSE,
    {
        proof {
            use_type_invariant(self);
        }
        &self.syntax
    }

    /// What stands in the source slot of the clause.
    pub fn source(&self) -> (r: SyntaxResult<AnyJsModuleSource>)
        ensures
            matches_result(r, model::clause_any_source(self@)),
    {
        any_source_in_slot(self.syntax(), 4)
    }

    /// The assertion of the clause.
    pub fn assertion(&self) -> (r: Option<JsImportAssertion>)
        ensures
            matches_option(r, model::clause_assertion(self@)),
    {
        assertion_in_slot(self.syntax(), 5)
    }
}

/// The string literal that names a module.
#[derive(Debug)]
pub struct JsModuleSource {
    syntax: JsSyntaxNode,
}

impl View for JsModuleSource {
    type V = Cursor;

    closed spec fn view(&self) -> Cursor {
        self.syntax@
    }
}

impl Clone for JsModuleSource {
    fn clone(&self) -> (r: Self)
        ensures
            r@ == self@,
    {
        proof {
            use_type_invariant(self);
        }
        JsModuleSource { syntax: self.syntax.clone() }
    }
}

impl JsModuleSource {
    /// A handle of this type is on a node of its kind.
    #[verifier::type_invariant]
    pub(crate) open spec fn inv(self) -> bool {
        self@.wf() && self@.kind() == JsSyntaxKind::JS_MODULE_SOURCE
    }

    /// The typed handle on `syntax`, where it is a node of this kind.
    pub fn cast(syntax: JsSyntaxNode) -> (r: Option<JsModuleSource>)
        ensures
            r is Some == (syntax@.kind() == JsSyntaxKind::JS_MODULE_SOURCE),
            r matches Some(node) ==> node@ == syntax@ && node@.wf(),
    {
        if syntax.kind() == JsSyntaxKind::JS_MODULE_SOURCE {
            Some(JsModuleSource { syntax })
        } else {
            None
        }
    }

    /// The untyped handle on the node.
    pub fn syntax(&self) -> (r: &JsSyntaxNode)
        ensures
            r@ == self@,
            self@.wf(),
            self@.kind() == JsSyntaxKind::JS_MODULE_SOURCE,
    {
        proof {
            use_type_invariant(self);
        }
        &self.syntax
    }

    /// The token of the string literal, quotes included.
    pub fn value_token(&self) -> (r: SyntaxResult<JsSyntaxToken>)
        ensures
            r == model::value_token(self@),
    {
        match self.syntax().token_in_slot(0) {
            Some(token) => Ok(token),
            None => Err(SyntaxError::MissingRequiredChild),
        }
    }
}

/// A placeholder of a pattern, where a concrete node would stand.
#[derive(Debug)]
pub struct JsMetavariable {
    syntax: JsSyntaxNode,
}

impl View for JsMetavariable {
    type V = Cursor;

    closed spec fn view(&self) -> Cursor {
        self.syntax@
    }
}

impl Clone for JsMetavariable {
    fn clone(&self) -> (r: Self)
        ensures
            r@ == self@,
    {
        proof {
            use_type_invariant(self);
        }
        JsMetavariable { syntax: self.syntax.clone() }
    }
}

impl JsMetavariable {
    /// A handle of this type is on a node of its kind.
    #[verifier::type_invariant]
    pub(crate) open spec fn inv(self) -> bool {
        self@.wf() && self@.kind() == JsSyntaxKind::JS_METAVARIABLE
    }

    /// The typed handle on `syntax`, where it is a node of this kind.
    pub fn cast(syntax: JsSyntaxNode) -> (r: Option<JsMetavariable>)
        ensures
            r is Some == (syntax@.kind() == JsSyntaxKind::JS_METAVARIABLE),
            r matches Some(node) ==> node@ == syntax@ && node@.wf(),
    {
        if syntax.kind() == JsSyntaxKind::JS_METAVARIABLE {
            Some(JsMetavariable { syntax })
        } else {
            None
        }
    }

    /// The untyped handle on the node.
    pub fn syntax(&self) -> (r: &JsSyntaxNode)
        ensures
            r@ == self@,
            self@.wf(),
            self@.kind() == JsSyntaxKind::JS_METAVARIABLE,
    {
        proof {
            use_type_invariant(self);
        }
        &self.syntax
    }
}

/// The assertion of a clause: `with { type: "json" }`.
#[derive(Debug)]
pub struct JsImportAssertion {
    syntax: JsSyntaxNode,
}

impl View for JsImportAssertion {
    type V = Cursor;

    closed spec fn view(&self) -> Cursor {
        self.syntax@
    }
}

impl Clone for JsImportAssertion {
    fn clone(&self) -> (r: Self)
        ensures
            r@ == self@,
    {
        proof {
            use_type_invariant(self);
        }
        JsImportAssertion { syntax: self.syntax.clone() }
    }
}

impl JsImportAssertion {
    /// A handle of this type is on a node of its kind.
    #[verifier::type_invariant]
    pub(crate) open spec fn inv(self) -> bool {
        self@.wf() && self@.kind() == JsSyntaxKind::JS_IMPORT_ASSERTION
    }

    /// The typed handle on `syntax`, where it is a node of this kind.
    pub fn cast(syntax: JsSyntaxNode) -> (r: Option<JsImportAssertion>)
        ensures
            r is Some == (syntax@.kind() == JsSyntaxKind::JS_IMPORT_ASSERTION),
            r matches Some(node) ==> node@ == syntax@ && node@.wf(),
    {
        if syntax.kind() == JsSyntaxKind::JS_IMPORT_ASSERTION {
            Some(JsImportAssertion { syntax })
        } else {
            None
        }
    }

    /// The untyped handle on the node.
    pub fn syntax(&self) -> (r: &JsSyntaxNode)
        ensures
            r@ == self@,
            self@.wf(),
            self@.kind() == JsSyntaxKind::JS_IMPORT_ASSERTION,
    {
        proof {
            use_type_invariant(self);
        }
        &self.syntax
    }
}

/// A specifier that renames: `a as b`.
#[derive(Debug)]
pub struct JsNamedImportSpecifier {
    syntax: JsSyntaxNode,
}

impl View for JsNamedImportSpecifier {
    type V = Cursor;

    closed spec fn view(&self) -> Cursor {
        self.syntax@
    }
}

impl Clone for JsNamedImportSpecifier {
    fn clone(&self) -> (r: Self)
        ensures
            r@ == self@,
    {
        proof {
            use_type_invariant(self);
        }
        JsNamedImportSpecifier { syntax: self.syntax.clone() }
    }
}

impl JsNamedImportSpecifier {
    /// A handle of this type is on a node of its kind.
    #[verifier::type_invariant]
    pub(crate) open spec fn inv(self) -> bool {
        self@.wf() && self@.kind() == JsSyntaxKind::JS_NAMED_IMPORT_SPECIFIER
    }

    /// The typed handle on `syntax`, where it is a node of this kind.
    pub fn cast(syntax: JsSyntaxNode) -> (r: Option<JsNamedImportSpecifier>)
        ensures
            r is Some == (syntax@.kind() == JsSyntaxKind::JS_NAMED_IMPORT_SPECIFIER),
            r matches Some(node) ==> node@ == syntax@ && node@.wf(),
    {
        if syntax.kind() == JsSyntaxKind::JS_NAMED_IMPORT_SPECIFIER {
            Some(JsNamedImportSpecifier { syntax })
        } else {
            None
        }
    }

    /// The untyped handle on the node.
    pub fn syntax(&self) -> (r: &JsSyntaxNode)
        ensures
            r@ == self@,
            self@.wf(),
            self@.kind() == JsSyntaxKind::JS_NAMED_IMPORT_SPECIFIER,
    {
        proof {
            use_type_invariant(self);
        }
        &self.syntax
    }

    /// The `type` marker of the specifier.
    pub fn type_token(&self) -> (r: Option<JsSyntaxToken>)
        ensures
            r == model::type_token(self@),
    {
        self.syntax().token_in_slot(0)
    }

    /// This specifier with `marker` in the place of its `type` marker: a
    /// node of a tree of its own, which shares the other slots.
    pub fn with_type_token(self, marker: Option<JsSyntaxToken>) -> (r: Self)
        ensures
            model::is_with_type_token(r@, self@, marker),
    {
        match self.syntax().with_slot(0, GreenSlot::optional_token(marker)) {
            Some(syntax) => JsNamedImportSpecifier { syntax },
            None => self,
        }
    }

    /// The binding that the specifier introduces.
    pub fn local_name(&self) -> (r: SyntaxResult<AnyJsBinding>)
        ensures
            matches_result(r, model::specifier_local_name(self@)),
    {
        binding_in_slot(self.syntax(), 3)
    }
}

/// A specifier that keeps the name: `a`.
#[derive(Debug)]
pub struct JsShorthandNamedImportSpecifier {
    syntax: JsSyntaxNode,
}

impl View for JsShorthandNamedImportSpecifier {
    type V = Cursor;

    closed spec fn view(&self) -> Cursor {
        self.syntax@
    }
}

impl Clone for JsShorthandNamedImportSpecifier {
    fn clone(&self) -> (r: Self)
        ensures
            r@ == self@,
    {
        proof {
            use_type_invariant(self);
        }
        JsShorthandNamedImportSpecifier { syntax: self.syntax.clone() }
    }
}

impl JsShorthandNamedImportSpecifier {
    /// A handle of this type is on a node of its kind.
    #[verifier::type_invariant]
    pub(crate) open spec fn inv(self) -> bool {
        self@.wf() && self@.kind() == JsSyntaxKind::JS_SHORTHAND_NAMED_IMPORT_SPECIFIER
    }

    /// The typed handle on `syntax`, where it is a node of this kind.
    pub fn cast(syntax: JsSyntaxNode) -> (r: Option<JsShorthandNamedImportSpecifier>)
        ensures
            r is Some == (syntax@.kind() == JsSyntaxKind::JS_SHORTHAND_NAMED_IMPORT_SPECIFIER),
            r matches Some(node) ==> node@ == syntax@ && node@.wf(),
    {
        if syntax.kind() == JsSyntaxKind::JS_SHORTHAND_NAMED_IMPORT_SPECIFIER {
            Some(JsShorthandNamedImportSpecifier { syntax })
        } else {
            None
        }
    }

    /// The untyped handle on the node.
    pub fn syntax(&self) -> (r: &JsSyntaxNode)
        ensures
            r@ == self@,
            self@.wf(),
            self@.kind() == JsSyntaxKind::JS_SHORTHAND_NAMED_IMPORT_SPECIFIER,
    {
        proof {
            use_type_invariant(self);
        }
        &self.syntax
    }

    /// The `type` marker of the specifier.
    pub fn type_token(&self) -> (r: Option<JsSyntaxToken>)
        ensures
            r == model::type_token(self@),
    {
        self.syntax().token_in_slot(0)
    }

    /// This specifier with `marker` in the place of its `type` marker: a
    /// node of a tree of its own, which shares the other slots.
    pub fn with_type_token(self, marker: Option<JsSyntaxToken>) -> (r: Self)
        ensures
            model::is_with_type_token(r@, self@, marker),
    {
        match self.syntax().with_slot(0, GreenSlot::optional_token(marker)) {
            Some(syntax) => JsShorthandNamedImportSpecifier { syntax },
            None => self,
        }
    }

    /// The binding that the specifier introduces.
    pub fn local_name(&self) -> (r: SyntaxResult<AnyJsBinding>)
        ensures
            matches_result(r, model::specifier_local_name(self@)),
    {
        binding_in_slot(self.syntax(), 1)
    }
}

/// What the parser left where it could not read a named specifier.
#[derive(Debug)]
pub struct JsBogusNamedImportSpecifier {
    syntax: JsSyntaxNode,
}

impl View for JsBogusNamedImportSpecifier {
    type V = Cursor;

    closed spec fn view(&self) -> Cursor {
        self.syntax@
    }
}

impl Clone for JsBogusNamedImportSpecifier {
    fn clone(&self) -> (r: Self)
        ensures
            r@ == self@,
    {
        proof {
            use_type_invariant(self);
        }
        JsBogusNamedImportSpecifier { syntax: self.syntax.clone() }
    }
}

impl JsBogusNamedImportSpecifier {
    /// A handle of this type is on a node of its kind.
    #[verifier::type_invariant]
    pub(crate) open spec fn inv(self) -> bool {
        self@.wf() && self@.kind() == JsSyntaxKind::JS_BOGUS_NAMED_IMPORT_SPECIFIER
    }

    /// The typed handle on `syntax`, where it is a node of this kind.
    pub fn cast(syntax: JsSyntaxNode) -> (r: Option<JsBogusNamedImportSpecifier>)
        ensures
            r is Some == (syntax@.kind() == JsSyntaxKind::JS_BOGUS_NAMED_IMPORT_SPECIFIER),
            r matches Some(node) ==> node@ == syntax@ && node@.wf(),
    {
        if syntax.kind() == JsSyntaxKind::JS_BOGUS_NAMED_IMPORT_SPECIFIER {
            Some(JsBogusNamedImportSpecifier { syntax })
        } else {
            None
        }
    }

    /// The untyped handle on the node.
    pub fn syntax(&self) -> (r: &JsSyntaxNode)
        ensures
            r@ == self@,
            self@.wf(),
            self@.kind() == JsSyntaxKind::JS_BOGUS_NAMED_IMPORT_SPECIFIER,
    {
        proof {
            use_type_invariant(self);
        }
        &self.syntax
    }
}

/// The specifier `* as a`.
#[derive(Debug)]
pub struct JsNamespaceImportSpecifier {
    syntax: JsSyntaxNode,
}

impl View for JsNamespaceImportSpecifier {
    type V = Cursor;

    closed spec fn view(&self) -> Cursor {
        self.syntax@
    }
}

impl Clone for JsNamespaceImportSpecifier {
    fn clone(&self) -> (r: Self)
        ensures
            r@ == self@,
    {
        proof {
            use_type_invariant(self);
        }
        JsNamespaceImportSpecifier { syntax: self.syntax.clone() }
    }
}

impl JsNamespaceImportSpecifier {
    /// A handle of this type is on a node of its kind.
    #[verifier::type_invariant]
    pub(crate) open spec fn inv(self) -> bool {
        self@.wf() && self@.kind() == JsSyntaxKind::JS_NAMESPACE_IMPORT_SPECIFIER
    }

    /// The typed handle on `syntax`, where it is a node of this kind.
    pub fn cast(syntax: JsSyntaxNode) -> (r: Option<JsNamespaceImportSpecifier>)
        ensures
            r is Some == (syntax@.kind() == JsSyntaxKind::JS_NAMESPACE_IMPORT_SPECIFIER),
            r matches Some(node) ==> node@ == syntax@ && node@.wf(),
    {
        if syntax.kind() == JsSyntaxKind::JS_NAMESPACE_IMPORT_SPECIFIER {
            Some(JsNamespaceImportSpecifier { syntax })
        } else {
            None
        }
    }

    /// The untyped handle on the node.
    pub fn syntax(&self) -> (r: &JsSyntaxNode)
        ensures
            r@ == self@,
            self@.wf(),
            self@.kind() == JsSyntaxKind::JS_NAMESPACE_IMPORT_SPECIFIER,
    {
        proof {
            use_type_invariant(self);
        }
        &self.syntax
    }

    /// The binding that the specifier introduces.
    pub fn local_name(&self) -> (r: SyntaxResult<AnyJsBinding>)
        ensures
            matches_result(r, model::specifier_local_name(self@)),
    {
        binding_in_slot(self.syntax(), 2)
    }
}

/// The specifier of a default import: a binding.
#[derive(Debug)]
pub struct JsDefaultImportSpecifier {
    syntax: JsSyntaxNode,
}

impl View for JsDefaultImportSpecifier {
    type V = Cursor;

    closed spec fn view(&self) -> Cursor {
        self.syntax@
    }
}

impl Clone for JsDefaultImportSpecifier {
    fn clone(&self) -> (r: Self)
        ensures
            r@ == self@,
    {
        proof {
            use_type_invariant(self);
        }
        JsDefaultImportSpecifier { syntax: self.syntax.clone() }
    }
}

impl JsDefaultImportSpecifier {
    /// A handle of this type is on a node of its kind.
    #[verifier::type_invariant]
    pub(crate) open spec fn inv(self) -> bool {
        self@.wf() && self@.kind() == JsSyntaxKind::JS_DEFAULT_IMPORT_SPECIFIER
    }

    /// The typed handle on `syntax`, where it is a node of this kind.
    pub fn cast(syntax: JsSyntaxNode) -> (r: Option<JsDefaultImportSpecifier>)
        ensures
            r is Some == (syntax@.kind() == JsSyntaxKind::JS_DEFAULT_IMPORT_SPECIFIER),
            r matches Some(node) ==> node@ == syntax@ && node@.wf(),
    {
        if syntax.kind() == JsSyntaxKind::JS_DEFAULT_IMPORT_SPECIFIER {
            Some(JsDefaultImportSpecifier { syntax })
        } else {
            None
        }
    }

    /// The untyped handle on the node.
    pub fn syntax(&self) -> (r: &JsSyntaxNode)
        ensures
            r@ == self@,
            self@.wf(),
            self@.kind() == JsSyntaxKind::JS_DEFAULT_IMPORT_SPECIFIER,
    {
        proof {
            use_type_invariant(self);
        }
        &self.syntax
    }

    /// The binding that the specifier introduces.
    pub fn local_name(&self) -> (r: SyntaxResult<AnyJsBinding>)
        ensures
            matches_result(r, model::specifier_local_name(self@)),
    {
        binding_in_slot(self.syntax(), 0)
    }
}

/// A binding that is an identifier.
#[derive(Debug)]
pub struct JsIdentifierBinding {
    syntax: JsSyntaxNode,
}

impl View for JsIdentifierBinding {
    type V = Cursor;

    closed spec fn view(&self) -> Cursor {
        self.syntax@
    }
}

impl Clone for JsIdentifierBinding {
    fn clone(&self) -> (r: Self)
        ensures
            r@ == self@,
    {
        proof {
            use_type_invariant(self);
        }
        JsIdentifierBinding { syntax: self.syntax.clone() }
    }
}

impl JsIdentifierBinding {
    /// A handle of this type is on a node of its kind.
    #[verifier::type_invariant]
    pub(crate) open spec fn inv(self) -> bool {
        self@.wf() && self@.kind() == JsSyntaxKind::JS_IDENTIFIER_BINDING
    }

    /// The typed handle on `syntax`, where it is a node of this kind.
    pub fn cast(syntax: JsSyntaxNode) -> (r: Option<JsIdentifierBinding>)
        ensures
            r is Some == (syntax@.kind() == JsSyntaxKind::JS_IDENTIFIER_BINDING),
            r matches Some(node) ==> node@ == syntax@ && node@.wf(),
    {
        if syntax.kind() == JsSyntaxKind::JS_IDENTIFIER_BINDING {
            Some(JsIdentifierBinding { syntax })
        } else {
            None
        }
    }

    /// The untyped handle on the node.
    pub fn syntax(&self) -> (r: &JsSyntaxNode)
        ensures
            r@ == self@,
            self@.wf(),
            self@.kind() == JsSyntaxKind::JS_IDENTIFIER_BINDING,
    {
        proof {
            use_type_invariant(self);
        }
        &self.syntax
    }

    /// The token of the name that is bound.
    pub fn name_token(&self) -> (r: SyntaxResult<JsSyntaxToken>)
        ensures
            r == model::value_token(self@),
    {
        match self.syntax().token_in_slot(0) {
            Some(token) => Ok(token),
            None => Err(SyntaxError::MissingRequiredChild),
        }
    }
}

/// What the parser left where it could not read a binding.
#[derive(Debug)]
pub struct JsBogusBinding {
    syntax: JsSyntaxNode,
}

impl View for JsBogusBinding {
    type V = Cursor;

    closed spec fn view(&self) -> Cursor {
        self.syntax@
    }
}

impl Clone for JsBogusBinding {
    fn clone(&self) -> (r: Self)
        ensures
            r@ == self@,
    {
        proof {
            use_type_invariant(self);
        }
        JsBogusBinding { syntax: self.syntax.clone() }
    }
}

impl JsBogusBinding {
    /// A handle of this type is on a node of its kind.
    #[verifier::type_invariant]
    pub(crate) open spec fn inv(self) -> bool {
        self@.wf() && self@.kind() == JsSyntaxKind::JS_BOGUS_BINDING
    }

    /// The typed handle on `syntax`, where it is a node of this kind.
    pub fn cast(syntax: JsSyntaxNode) -> (r: Option<JsBogusBinding>)
        ensures
            r is Some == (syntax@.kind() == JsSyntaxKind::JS_BOGUS_BINDING),
            r matches Some(node) ==> node@ == syntax@ && node@.wf(),
    {
        if syntax.kind() == JsSyntaxKind::JS_BOGUS_BINDING {
            Some(JsBogusBinding { syntax })
        } else {
            None
        }
    }

    /// The untyped handle on the node.
    pub fn syntax(&self) -> (r: &JsSyntaxNode)
        ensures
            r@ == self@,
            self@.wf(),
            self@.kind() == JsSyntaxKind::JS_BOGUS_BINDING,
    {
        proof {
            use_type_invariant(self);
        }
        &self.syntax
    }
}

/// A call: a callee, an optional chain, type arguments and arguments.
#[derive(Debug)]
pub struct JsCallExpression {
    syntax: JsSyntaxNode,
}

impl View for JsCallExpression {
    type V = Cursor;

    closed spec fn view(&self) -> Cursor {
        self.syntax@
    }
}

impl Clone for JsCallExpression {
    fn clone(&self) -> (r: Self)
        ensures
            r@ == self@,
    {
        proof {
            use_type_invariant(self);
        }
        JsCallExpression { syntax: self.syntax.clone() }
    }
}

impl JsCallExpression {
    /// A handle of this type is on a node of its kind.
    #[verifier::type_invariant]
    pub(crate) open spec fn inv(self) -> bool {
        self@.wf() && self@.kind() == JsSyntaxKind::JS_CALL_EXPRESSION
    }

    /// The typed handle on `syntax`, where it is a node of this kind.
    pub fn cast(syntax: JsSyntaxNode) -> (r: Option<JsCallExpression>)
        ensures
            r is Some == (syntax@.kind() == JsSyntaxKind::JS_CALL_EXPRESSION),
            r matches Some(node) ==> node@ == syntax@ && node@.wf(),
    {
        if syntax.kind() == JsSyntaxKind::JS_CALL_EXPRESSION {
            Some(JsCallExpression { syntax })
        } else {
            None
        }
    }

    /// The untyped handle on the node.
    pub fn syntax(&self) -> (r: &JsSyntaxNode)
        ensures
            r@ == self@,
            self@.wf(),
            self@.kind() == JsSyntaxKind::JS_CALL_EXPRESSION,
    {
        proof {
            use_type_invariant(self);
        }
        &self.syntax
    }
}

/// A dynamic import: the keyword `import` and arguments.
#[derive(Debug)]
pub struct JsImportCallExpression {
    syntax: JsSyntaxNode,
}

impl View for JsImportCallExpression {
    type V = Cursor;

    closed spec fn view(&self) -> Cursor {
        self.syntax@
    }
}

impl Clone for JsImportCallExpression {
    fn clone(&self) -> (r: Self)
        ensures
            r@ == self@,
    {
        proof {
            use_type_invariant(self);
        }
        JsImportCallExpression { syntax: self.syntax.clone() }
    }
}

impl JsImportCallExpression {
    /// A handle of this type is on a node of its kind.
    #[verifier::type_invariant]
    pub(crate) open spec fn inv(self) -> bool {
        self@.wf() && self@.kind() == JsSyntaxKind::JS_IMPORT_CALL_EXPRESSION
    }

    /// The typed handle on `syntax`, where it is a node of this kind.
    pub fn cast(syntax: JsSyntaxNode) -> (r: Option<JsImportCallExpression>)
        ensures
            r is Some == (syntax@.kind() == JsSyntaxKind::JS_IMPORT_CALL_EXPRESSION),
            r matches Some(node) ==> node@ == syntax@ && node@.wf(),
    {
        if syntax.kind() == JsSyntaxKind::JS_IMPORT_CALL_EXPRESSION {
            Some(JsImportCallExpression { syntax })
        } else {
            None
        }
    }

    /// The untyped handle on the node.
    pub fn syntax(&self) -> (r: &JsSyntaxNode)
        ensures
            r@ == self@,
            self@.wf(),
            self@.kind() == JsSyntaxKind::JS_IMPORT_CALL_EXPRESSION,
    {
        proof {
            use_type_invariant(self);
        }
        &self.syntax
    }
}

/// The clause of an `import` declaration, of any shape.
#[derive(Debug)]
pub enum AnyJsImportClause {
    JsImportBareClause(JsImportBareClause),
    JsImportDefaultClause(JsImportDefaultClause),
    JsImportNamedClause(JsImportNamedClause),
    JsImportNamespaceClause(JsImportNamespaceClause),
    JsImportCombinedClause(JsImportCombinedClause),
}

impl View for AnyJsImportClause {
    type V = Cursor;

    open spec fn view(&self) -> Cursor {
        match self {
            AnyJsImportClause::JsImportBareClause(node) => node@,
            AnyJsImportClause::JsImportDefaultClause(node) => node@,
            AnyJsImportClause::JsImportNamedClause(node) => node@,
            AnyJsImportClause::JsImportNamespaceClause(node) => node@,
            AnyJsImportClause::JsImportCombinedClause(node) => node@,
        }
    }
}

impl Clone for AnyJsImportClause {
    fn clone(&self) -> (r: Self)
        ensures
            r@ == self@,
    {
        match self {
            AnyJsImportClause::JsImportBareClause(node) => AnyJsImportClause::JsImportBareClause(node.clone()),
            AnyJsImportClause::JsImportDefaultClause(node) => AnyJsImportClause::JsImportDefaultClause(node.clone()),
            AnyJsImportClause::JsImportNamedClause(node) => AnyJsImportClause::JsImportNamedClause(node.clone()),
            AnyJsImportClause::JsImportNamespaceClause(node) => AnyJsImportClause::JsImportNamespaceClause(node.clone()),
            AnyJsImportClause::JsImportCombinedClause(node) => AnyJsImportClause::JsImportCombinedClause(node.clone()),
        }
    }
}

impl AnyJsImportClause {
    /// The typed handle on `syntax`, where its kind is one of this union.
    pub fn cast(syntax: JsSyntaxNode) -> (r: Option<AnyJsImportClause>)
        ensures
            r is Some == model::is_import_clause(syntax@.kind()),
            r matches Some(node) ==> node@ == syntax@ && node@.wf(),
    {
        match syntax.kind() {
            JsSyntaxKind::JS_IMPORT_BARE_CLAUSE => match JsImportBareClause::cast(syntax) {
                Some(node) => Some(AnyJsImportClause::JsImportBareClause(node)),
                None => None,
            },
            JsSyntaxKind::JS_IMPORT_DEFAULT_CLAUSE => match JsImportDefaultClause::cast(syntax) {
                Some(node) => Some(AnyJsImportClause::JsImportDefaultClause(node)),
                None => None,
            },
            JsSyntaxKind::JS_IMPORT_NAMED_CLAUSE => match JsImportNamedClause::cast(syntax) {
                Some(node) => Some(AnyJsImportClause::JsImportNamedClause(node)),
                None => None,
            },
            JsSyntaxKind::JS_IMPORT_NAMESPACE_CLAUSE => match JsImportNamespaceClause::cast(syntax) {
                Some(node) => Some(AnyJsImportClause::JsImportNamespaceClause(node)),
                None => None,
            },
            JsSyntaxKind::JS_IMPORT_COMBINED_CLAUSE => match JsImportCombinedClause::cast(syntax) {
                Some(node) => Some(AnyJsImportClause::JsImportCombinedClause(node)),
                None => None,
            },
            _ => None,
        }
    }

    /// The untyped handle on the node.
    pub fn syntax(&self) -> (r: &JsSyntaxNode)
        ensures
            r@ == self@,
            self@.wf(),
            model::is_import_clause(self@.kind()),
    {
        match self {
            AnyJsImportClause::JsImportBareClause(node) => node.syntax(),
            AnyJsImportClause::JsImportDefaultClause(node) => node.syntax(),
            AnyJsImportClause::JsImportNamedClause(node) => node.syntax(),
            AnyJsImportClause::JsImportNamespaceClause(node) => node.syntax(),
            AnyJsImportClause::JsImportCombinedClause(node) => node.syntax(),
        }
    }
}

/// What stands where a module source is expected.
#[derive(Debug)]
pub enum AnyJsModuleSource {
    JsModuleSource(JsModuleSource),
    JsMetavariable(JsMetavariable),
}

impl View for AnyJsModuleSource {
    type V = Cursor;

    open spec fn view(&self) -> Cursor {
        match self {
            AnyJsModuleSource::JsModuleSource(node) => node@,
            AnyJsModuleSource::JsMetavariable(node) => node@,
        }
    }
}

impl Clone for AnyJsModuleSource {
    fn clone(&self) -> (r: Self)
        ensures
            r@ == self@,
    {
        match self {
            AnyJsModuleSource::JsModuleSource(node) => AnyJsModuleSource::JsModuleSource(node.clone()),
            AnyJsModuleSource::JsMetavariable(node) => AnyJsModuleSource::JsMetavariable(node.clone()),
        }
    }
}

impl AnyJsModuleSource {
    /// The typed handle on `syntax`, where its kind is one of this union.
    pub fn cast(syntax: JsSyntaxNode) -> (r: Option<AnyJsModuleSource>)
        ensures
            r is Some == model::is_any_module_source(syntax@.kind()),
            r matches Some(node) ==> node@ == syntax@ && node@.wf(),
    {
        match syntax.kind() {
            JsSyntaxKind::JS_MODULE_SOURCE => match JsModuleSource::cast(syntax) {
                Some(node) => Some(AnyJsModuleSource::JsModuleSource(node)),
                None => None,
            },
            JsSyntaxKind::JS_METAVARIABLE => match JsMetavariable::cast(syntax) {
                Some(node) => Some(AnyJsModuleSource::JsMetavariable(node)),
                None => None,
            },
            _ => None,
        }
    }

    /// The untyped handle on the node.
    pub fn syntax(&self) -> (r: &JsSyntaxNode)
        ensures
            r@ == self@,
            self@.wf(),
            model::is_any_module_source(self@.kind()),
    {
        match self {
            AnyJsModuleSource::JsModuleSource(node) => node.syntax(),
            AnyJsModuleSource::JsMetavariable(node) => node.syntax(),
        }
    }

    /// The module source, where this is one.
    pub fn as_js_module_source(&self) -> (r: Option<&JsModuleSource>)
        ensures
            r is Some == (self@.kind() == JsSyntaxKind::JS_MODULE_SOURCE),
            r matches Some(source) ==> source@ == self@,
    {
        match self {
            AnyJsModuleSource::JsModuleSource(source) => {
                proof {
                    use_type_invariant(source);
                }
                Some(source)
            },
            AnyJsModuleSource::JsMetavariable(other) => {
                proof {
                    use_type_invariant(other);
                }
                None
            },
        }
    }
}

/// A specifier between the braces of a named import.
#[derive(Debug)]
pub enum AnyJsNamedImportSpecifier {
    JsBogusNamedImportSpecifier(JsBogusNamedImportSpecifier),
    JsNamedImportSpecifier(JsNamedImportSpecifier),
    JsShorthandNamedImportSpecifier(JsShorthandNamedImportSpecifier),
}

impl View for AnyJsNamedImportSpecifier {
    type V = Cursor;

    open spec fn view(&self) -> Cursor {
        match self {
            AnyJsNamedImportSpecifier::JsBogusNamedImportSpecifier(node) => node@,
            AnyJsNamedImportSpecifier::JsNamedImportSpecifier(node) => node@,
            AnyJsNamedImportSpecifier::JsShorthandNamedImportSpecifier(node) => node@,
        }
    }
}

impl Clone for AnyJsNamedImportSpecifier {
    fn clone(&self) -> (r: Self)
        ensures
            r@ == self@,
    {
        match self {
            AnyJsNamedImportSpecifier::JsBogusNamedImportSpecifier(node) => AnyJsNamedImportSpecifier::JsBogusNamedImportSpecifier(node.clone()),
            AnyJsNamedImportSpecifier::JsNamedImportSpecifier(node) => AnyJsNamedImportSpecifier::JsNamedImportSpecifier(node.clone()),
            AnyJsNamedImportSpecifier::JsShorthandNamedImportSpecifier(node) => AnyJsNamedImportSpecifier::JsShorthandNamedImportSpecifier(node.clone()),
        }
    }
}

impl AnyJsNamedImportSpecifier {
    /// The typed handle on `syntax`, where its kind is one of this union.
    pub fn cast(syntax: JsSyntaxNode) -> (r: Option<AnyJsNamedImportSpecifier>)
        ensures
            r is Some == model::is_named_import_specifier(syntax@.kind()),
            r matches Some(node) ==> node@ == syntax@ && node@.wf(),
    {
        match syntax.kind() {
            JsSyntaxKind::JS_BOGUS_NAMED_IMPORT_SPECIFIER => match JsBogusNamedImportSpecifier::cast(syntax) {
                Some(node) => Some(AnyJsNamedImportSpecifier::JsBogusNamedImportSpecifier(node)),
                None => None,
            },
            JsSyntaxKind::JS_NAMED_IMPORT_SPECIFIER => match JsNamedImportSpecifier::cast(syntax) {
                Some(node) => Some(AnyJsNamedImportSpecifier::JsNamedImportSpecifier(node)),
                None => None,
            },
            JsSyntaxKind::JS_SHORTHAND_NAMED_IMPORT_SPECIFIER => match JsShorthandNamedImportSpecifier::cast(syntax) {
                Some(node) => Some(AnyJsNamedImportSpecifier::JsShorthandNamedImportSpecifier(node)),
                None => None,
            },
            _ => None,
        }
    }

    /// The untyped handle on the node.
    pub fn syntax(&self) -> (r: &JsSyntaxNode)
        ensures
            r@ == self@,
            self@.wf(),
            model::is_named_import_specifier(self@.kind()),
    {
        match self {
            AnyJsNamedImportSpecifier::JsBogusNamedImportSpecifier(node) => node.syntax(),
            AnyJsNamedImportSpecifier::JsNamedImportSpecifier(node) => node.syntax(),
            AnyJsNamedImportSpecifier::JsShorthandNamedImportSpecifier(node) => node.syntax(),
        }
    }
}

/// A specifier that binds a local name.
#[derive(Debug)]
pub enum AnyJsImportSpecifier {
    JsNamedImportSpecifier(JsNamedImportSpecifier),
    JsShorthandNamedImportSpecifier(JsShorthandNamedImportSpecifier),
    JsNamespaceImportSpecifier(JsNamespaceImportSpecifier),
    JsDefaultImportSpecifier(JsDefaultImportSpecifier),
}

impl View for AnyJsImportSpecifier {
    type V = Cursor;

    open spec fn view(&self) -> Cursor {
        match self {
            AnyJsImportSpecifier::JsNamedImportSpecifier(node) => node@,
            AnyJsImportSpecifier::JsShorthandNamedImportSpecifier(node) => node@,
            AnyJsImportSpecifier::JsNamespaceImportSpecifier(node) => node@,
            AnyJsImportSpecifier::JsDefaultImportSpecifier(node) => node@,
        }
    }
}

impl Clone for AnyJsImportSpecifier {
    fn clone(&self) -> (r: Self)
        ensures
            r@ == self@,
    {
        match self {
            AnyJsImportSpecifier::JsNamedImportSpecifier(node) => AnyJsImportSpecifier::JsNamedImportSpecifier(node.clone()),
            AnyJsImportSpecifier::JsShorthandNamedImportSpecifier(node) => AnyJsImportSpecifier::JsShorthandNamedImportSpecifier(node.clone()),
            AnyJsImportSpecifier::JsNamespaceImportSpecifier(node) => AnyJsImportSpecifier::JsNamespaceImportSpecifier(node.clone()),
            AnyJsImportSpecifier::JsDefaultImportSpecifier(node) => AnyJsImportSpecifier::JsDefaultImportSpecifier(node.clone()),
        }
    }
}

impl AnyJsImportSpecifier {
    /// The typed handle on `syntax`, where its kind is one of this union.
    pub fn cast(syntax: JsSyntaxNode) -> (r: Option<AnyJsImportSpecifier>)
        ensures
            r is Some == model::is_import_specifier(syntax@.kind()),
            r matches Some(node) ==> node@ == syntax@ && node@.wf(),
    {
        match syntax.kind() {
            JsSyntaxKind::JS_NAMED_IMPORT_SPECIFIER => match JsNamedImportSpecifier::cast(syntax) {
                Some(node) => Some(AnyJsImportSpecifier::JsNamedImportSpecifier(node)),
                None => None,
            },
            JsSyntaxKind::JS_SHORTHAND_NAMED_IMPORT_SPECIFIER => match JsShorthandNamedImportSpecifier::cast(syntax) {
                Some(node) => Some(AnyJsImportSpecifier::JsShorthandNamedImportSpecifier(node)),
                None => None,
            },
            JsSyntaxKind::JS_NAMESPACE_IMPORT_SPECIFIER => match JsNamespaceImportSpecifier::cast(syntax) {
                Some(node) => Some(AnyJsImportSpecifier::JsNamespaceImportSpecifier(node)),
                None => None,
            },
            JsSyntaxKind::JS_DEFAULT_IMPORT_SPECIFIER => match JsDefaultImportSpecifier::cast(syntax) {
                Some(node) => Some(AnyJsImportSpecifier::JsDefaultImportSpecifier(node)),
                None => None,
            },
            _ => None,
        }
    }

    /// The untyped handle on the node.
    pub fn syntax(&self) -> (r: &JsSyntaxNode)
        ensures
            r@ == self@,
            self@.wf(),
            model::is_import_specifier(self@.kind()),
    {
        match self {
            AnyJsImportSpecifier::JsNamedImportSpecifier(node) => node.syntax(),
            AnyJsImportSpecifier::JsShorthandNamedImportSpecifier(node) => node.syntax(),
            AnyJsImportSpecifier::JsNamespaceImportSpecifier(node) => node.syntax(),
            AnyJsImportSpecifier::JsDefaultImportSpecifier(node) => node.syntax(),
        }
    }
}

/// What stands where a binding is expected.
#[derive(Debug)]
pub enum AnyJsBinding {
    JsIdentifierBinding(JsIdentifierBinding),
    JsBogusBinding(JsBogusBinding),
    JsMetavariable(JsMetavariable),
}

impl View for AnyJsBinding {
    type V = Cursor;

    open spec fn view(&self) -> Cursor {
        match self {
            AnyJsBinding::JsIdentifierBinding(node) => node@,
            AnyJsBinding::JsBogusBinding(node) => node@,
            AnyJsBinding::JsMetavariable(node) => node@,
        }
    }
}

impl Clone for AnyJsBinding {
    fn clone(&self) -> (r: Self)
        ensures
            r@ == self@,
    {
        match self {
            AnyJsBinding::JsIdentifierBinding(node) => AnyJsBinding::JsIdentifierBinding(node.clone()),
            AnyJsBinding::JsBogusBinding(node) => AnyJsBinding::JsBogusBinding(node.clone()),
            AnyJsBinding::JsMetavariable(node) => AnyJsBinding::JsMetavariable(node.clone()),
        }
    }
}

impl AnyJsBinding {
    /// The typed handle on `syntax`, where its kind is one of this union.
    pub fn cast(syntax: JsSyntaxNode) -> (r: Option<AnyJsBinding>)
        ensures
            r is Some == model::is_binding(syntax@.kind()),
            r matches Some(node) ==> node@ == syntax@ && node@.wf(),
    {
        match syntax.kind() {
            JsSyntaxKind::JS_IDENTIFIER_BINDING => match JsIdentifierBinding::cast(syntax) {
                Some(node) => Some(AnyJsBinding::JsIdentifierBinding(node)),
                None => None,
            },
            JsSyntaxKind::JS_BOGUS_BINDING => match JsBogusBinding::cast(syntax) {
                Some(node) => Some(AnyJsBinding::JsBogusBinding(node)),
                None => None,
            },
            JsSyntaxKind::JS_METAVARIABLE => match JsMetavariable::cast(syntax) {
                Some(node) => Some(AnyJsBinding::JsMetavariable(node)),
                None => None,
            },
            _ => None,
        }
    }

    /// The untyped handle on the node.
    pub fn syntax(&self) -> (r: &JsSyntaxNode)
        ensures
            r@ == self@,
            self@.wf(),
            model::is_binding(self@.kind()),
    {
        match self {
            AnyJsBinding::JsIdentifierBinding(node) => node.syntax(),
            AnyJsBinding::JsBogusBinding(node) => node.syntax(),
            AnyJsBinding::JsMetavariable(node) => node.syntax(),
        }
    }

    /// The identifier binding, where this is one.
    pub fn as_js_identifier_binding(&self) -> (r: Option<&JsIdentifierBinding>)
        ensures
            r is Some == (self@.kind() == JsSyntaxKind::JS_IDENTIFIER_BINDING),
            r matches Some(binding) ==> binding@ == self@,
    {
        match self {
            AnyJsBinding::JsIdentifierBinding(binding) => {
                proof {
                    use_type_invariant(binding);
                }
                Some(binding)
            },
            AnyJsBinding::JsBogusBinding(other) => {
                proof {
                    use_type_invariant(other);
                }
                None
            },
            AnyJsBinding::JsMetavariable(other) => {
                proof {
                    use_type_invariant(other);
                }
                None
            },
        }
    }
}

/// Each form that names a module to import: the source of `import "lodash"`, the call `require("lodash")`, the call `import("lodash")`.
#[derive(Debug)]
pub enum AnyJsImportSourceLike {
    JsModuleSource(JsModuleSource),
    JsCallExpression(JsCallExpression),
    JsImportCallExpression(JsImportCallExpression),
}

impl View for AnyJsImportSourceLike {
    type V = Cursor;

    open spec fn view(&self) -> Cursor {
        match self {
            AnyJsImportSourceLike::JsModuleSource(node) => node@,
            AnyJsImportSourceLike::JsCallExpression(node) => node@,
            AnyJsImportSourceLike::JsImportCallExpression(node) => node@,
        }
    }
}

impl Clone for AnyJsImportSourceLike {
    fn clone(&self) -> (r: Self)
        ensures
            r@ == self@,
    {
        match self {
            AnyJsImportSourceLike::JsModuleSource(node) => AnyJsImportSourceLike::JsModuleSource(node.clone()),
            AnyJsImportSourceLike::JsCallExpression(node) => AnyJsImportSourceLike::JsCallExpression(node.clone()),
            AnyJsImportSourceLike::JsImportCallExpression(node) => AnyJsImportSourceLike::JsImportCallExpression(node.clone()),
        }
    }
}

impl AnyJsImportSourceLike {
    /// The typed handle on `syntax`, where its kind is one of this union.
    pub fn cast(syntax: JsSyntaxNode) -> (r: Option<AnyJsImportSourceLike>)
        ensures
            r is Some == is_import_source_like(syntax@.kind()),
            r matches Some(node) ==> node@ == syntax@ && node@.wf(),
    {
        match syntax.kind() {
            JsSyntaxKind::JS_MODULE_SOURCE => match JsModuleSource::cast(syntax) {
                Some(node) => Some(AnyJsImportSourceLike::JsModuleSource(node)),
                None => None,
            },
            JsSyntaxKind::JS_CALL_EXPRESSION => match JsCallExpression::cast(syntax) {
                Some(node) => Some(AnyJsImportSourceLike::JsCallExpression(node)),
                None => None,
            },
            JsSyntaxKind::JS_IMPORT_CALL_EXPRESSION => match JsImportCallExpression::cast(syntax) {
                Some(node) => Some(AnyJsImportSourceLike::JsImportCallExpression(node)),
                None => None,
            },
            _ => None,
        }
    }

    /// The untyped handle on the node.
    pub fn syntax(&self) -> (r: &JsSyntaxNode)
        ensures
            r@ == self@,
            self@.wf(),
            is_import_source_like(self@.kind()),
    {
        match self {
            AnyJsImportSourceLike::JsModuleSource(node) => node.syntax(),
            AnyJsImportSourceLike::JsCallExpression(node) => node.syntax(),
            AnyJsImportSourceLike::JsImportCallExpression(node) => node.syntax(),
        }
    }
}

} // verus!
