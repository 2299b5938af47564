//! What each query on an import means, stated on places of a tree.
//!
//! A typed handle is a place whose node has the kind of the type. The
//! functions here take places; those on the handles are stated over them.

use vstd::prelude::*;

use crate::error::{SyntaxError, SyntaxResult};
use crate::green::{spec_optional_token, Cursor};
use crate::kind::JsSyntaxKind;
use crate::token::JsSyntaxToken;

verus! {

/// The kinds of the clauses of an `import` declaration.
pub open spec fn is_import_clause(kind: JsSyntaxKind) -> bool {
    ||| kind == JsSyntaxKind::JS_IMPORT_BARE_CLAUSE
    ||| kind == JsSyntaxKind::JS_IMPORT_DEFAULT_CLAUSE
    ||| kind == JsSyntaxKind::JS_IMPORT_NAMED_CLAUSE
    ||| kind == JsSyntaxKind::JS_IMPORT_NAMESPACE_CLAUSE
    ||| kind == JsSyntaxKind::JS_IMPORT_COMBINED_CLAUSE
}

/// The kinds that can stand where a module source is expected.
pub open spec fn is_any_module_source(kind: JsSyntaxKind) -> bool {
    kind == JsSyntaxKind::JS_MODULE_SOURCE || kind == JsSyntaxKind::JS_METAVARIABLE
}

/// The kinds of the specifiers between the braces of a named import.
pub open spec fn is_named_import_specifier(kind: JsSyntaxKind) -> bool {
    ||| kind == JsSyntaxKind::JS_BOGUS_NAMED_IMPORT_SPECIFIER
    ||| kind == JsSyntaxKind::JS_NAMED_IMPORT_SPECIFIER
    ||| kind == JsSyntaxKind::JS_SHORTHAND_NAMED_IMPORT_SPECIFIER
}

/// The kinds of the specifiers that bind a local name.
pub open spec fn is_import_specifier(kind: JsSyntaxKind) -> bool {
    ||| kind == JsSyntaxKind::JS_NAMED_IMPORT_SPECIFIER
    ||| kind == JsSyntaxKind::JS_SHORTHAND_NAMED_IMPORT_SPECIFIER
    ||| kind == JsSyntaxKind::JS_NAMESPACE_IMPORT_SPECIFIER
    ||| kind == JsSyntaxKind::JS_DEFAULT_IMPORT_SPECIFIER
}

/// The kinds that can stand where a binding is expected.
pub open spec fn is_binding(kind: JsSyntaxKind) -> bool {
    ||| kind == JsSyntaxKind::JS_IDENTIFIER_BINDING
    ||| kind == JsSyntaxKind::JS_BOGUS_BINDING
    ||| kind == JsSyntaxKind::JS_METAVARIABLE
}

/// The kinds whose first slot is the place of the `type` marker.
pub open spec fn has_type_slot(kind: JsSyntaxKind) -> bool {
    ||| kind == JsSyntaxKind::JS_IMPORT_DEFAULT_CLAUSE
    ||| kind == JsSyntaxKind::JS_IMPORT_NAMED_CLAUSE
    ||| kind == JsSyntaxKind::JS_IMPORT_NAMESPACE_CLAUSE
    ||| kind == JsSyntaxKind::JS_NAMED_IMPORT_SPECIFIER
    ||| kind == JsSyntaxKind::JS_SHORTHAND_NAMED_IMPORT_SPECIFIER
}

/// The slot of a clause that holds its module source.
pub open spec fn source_slot(kind: JsSyntaxKind) -> usize {
    if kind == JsSyntaxKind::JS_IMPORT_BARE_CLAUSE {
        0
    } else if kind == JsSyntaxKind::JS_IMPORT_COMBINED_CLAUSE {
        4
    } else {
        3
    }
}

/// The slot of a clause that holds its assertion.
pub open spec fn assertion_slot(kind: JsSyntaxKind) -> usize {
    if kind == JsSyntaxKind::JS_IMPORT_BARE_CLAUSE {
        1
    } else if kind == JsSyntaxKind::JS_IMPORT_COMBINED_CLAUSE {
        5
    } else {
        4
    }
}

/// The slot of a specifier that holds its local binding.
pub open spec fn local_name_slot(kind: JsSyntaxKind) -> usize {
    if kind == JsSyntaxKind::JS_NAMED_IMPORT_SPECIFIER {
        3
    } else if kind == JsSyntaxKind::JS_NAMESPACE_IMPORT_SPECIFIER {
        2
    } else if kind == JsSyntaxKind::JS_SHORTHAND_NAMED_IMPORT_SPECIFIER {
        1
    } else {
        0
    }
}

/// The slot of a call that holds its arguments: after the callee, the
/// optional chain and the type arguments in a call, after the keyword in a
/// dynamic import.
pub open spec fn arguments_slot(kind: JsSyntaxKind) -> usize {
    if kind == JsSyntaxKind::JS_IMPORT_CALL_EXPRESSION {
        1
    } else {
        3
    }
}

/// A required child node: the place that was found, or that it is missing.
pub open spec fn required(found: Option<Cursor>) -> SyntaxResult<Cursor> {
    match found {
        Some(place) => Ok(place),
        None => Err(SyntaxError::MissingRequiredChild),
    }
}

/// The child node in slot `index`, if its kind is `kind`.
pub open spec fn node_of_kind(at: Cursor, index: usize, kind: JsSyntaxKind) -> Option<Cursor> {
    match at.node_in_slot(index) {
        Some(child) => if child.kind() == kind {
            Some(child)
        } else {
            None
        },
        None => None,
    }
}

/// The token in the first slot: the value of a module source, a literal or
/// a reference, the name of a binding.
pub open spec fn value_token(at: Cursor) -> SyntaxResult<JsSyntaxToken> {
    match at.token_in_slot(0) {
        Some(token) => Ok(token),
        None => Err(SyntaxError::MissingRequiredChild),
    }
}

/// The text of the value token without trivia and delimiters.
pub open spec fn inner_text(at: Cursor) -> SyntaxResult<Seq<char>> {
    match value_token(at) {
        Ok(token) => Ok(token@.inner_string_text()),
        Err(error) => Err(error),
    }
}

/// The clause of an `import` declaration, which its second slot holds.
pub open spec fn import_clause(import: Cursor) -> SyntaxResult<Cursor> {
    match import.node_in_slot(1) {
        Some(clause) => if is_import_clause(clause.kind()) {
            Ok(clause)
        } else {
            Err(SyntaxError::MissingRequiredChild)
        },
        None => Err(SyntaxError::MissingRequiredChild),
    }
}

/// What stands in the source slot of a clause: a module source or a
/// metavariable.
pub open spec fn clause_any_source(clause: Cursor) -> SyntaxResult<Cursor> {
    match clause.node_in_slot(source_slot(clause.kind())) {
        Some(source) => if is_any_module_source(source.kind()) {
            Ok(source)
        } else {
            Err(SyntaxError::MissingRequiredChild)
        },
        None => Err(SyntaxError::MissingRequiredChild),
    }
}

/// The module source of a clause. A metavariable in its place is an error
/// of its own.
pub open spec fn clause_source(clause: Cursor) -> SyntaxResult<Cursor> {
    match clause_any_source(clause) {
        Ok(source) => if source.kind() == JsSyntaxKind::JS_MODULE_SOURCE {
            Ok(source)
        } else {
            Err(SyntaxError::UnexpectedMetavariable)
        },
        Err(error) => Err(error),
    }
}

/// The assertion of a clause, if it has one.
pub open spec fn clause_assertion(clause: Cursor) -> Option<Cursor> {
    node_of_kind(clause, assertion_slot(clause.kind()), JsSyntaxKind::JS_IMPORT_ASSERTION)
}

/// The `type` marker of a clause or of a named specifier. Bare and
/// combined clauses and bogus specifiers have no place for one.
pub open spec fn type_token(at: Cursor) -> Option<JsSyntaxToken> {
    if has_type_slot(at.kind()) {
        at.token_in_slot(0)
    } else {
        None
    }
}

/// The module source of an `import` declaration.
pub open spec fn import_source(import: Cursor) -> SyntaxResult<Cursor> {
    match import_clause(import) {
        Ok(clause) => clause_source(clause),
        Err(error) => Err(error),
    }
}

/// The token that names the module of an `import` declaration, quotes
/// included.
pub open spec fn import_source_token(import: Cursor) -> SyntaxResult<JsSyntaxToken> {
    match import_source(import) {
        Ok(source) => value_token(source),
        Err(error) => Err(error),
    }
}

/// The name of the module of an `import` declaration.
pub open spec fn import_source_text(import: Cursor) -> SyntaxResult<Seq<char>> {
    match import_source(import) {
        Ok(source) => inner_text(source),
        Err(error) => Err(error),
    }
}

/// The first argument of a call: the node in the first slot of the list
/// that the arguments hold between their parentheses.
pub open spec fn first_argument(call: Cursor) -> Option<Cursor> {
    match node_of_kind(call, arguments_slot(call.kind()), JsSyntaxKind::JS_CALL_ARGUMENTS) {
        Some(arguments) => match node_of_kind(
            arguments,
            1,
            JsSyntaxKind::JS_CALL_ARGUMENT_LIST,
        ) {
            Some(list) => list.node_in_slot(0),
            None => None,
        },
        None => None,
    }
}

/// The token of the first argument of a call, where that argument is a
/// string literal.
pub open spec fn string_argument(call: Cursor) -> Option<JsSyntaxToken> {
    match first_argument(call) {
        Some(argument) => if argument.kind() == JsSyntaxKind::JS_STRING_LITERAL_EXPRESSION {
            argument.token_in_slot(0)
        } else {
            None
        },
        None => None,
    }
}

/// The text of the first argument of a call, where that argument is a
/// string literal, without its quotes.
pub open spec fn string_argument_text(call: Cursor) -> Option<Seq<char>> {
    match string_argument(call) {
        Some(token) => Some(token@.inner_string_text()),
        None => None,
    }
}

/// The name that a call calls, where its callee is a plain identifier.
pub open spec fn callee_name(call: Cursor) -> Option<JsSyntaxToken> {
    match node_of_kind(call, 0, JsSyntaxKind::JS_IDENTIFIER_EXPRESSION) {
        Some(callee) => match node_of_kind(callee, 0, JsSyntaxKind::JS_REFERENCE_IDENTIFIER) {
            Some(name) => name.token_in_slot(0),
            None => None,
        },
        None => None,
    }
}

/// Whether a call is written as a call of `require`: its callee is a plain
/// identifier whose text is `require`, whatever that name is bound to.
pub open spec fn is_require_call(call: Cursor) -> bool {
    match callee_name(call) {
        Some(name) => name@.text == "require"@,
        None => false,
    }
}

/// The token that names the module of a `require` call, quotes included.
pub open spec fn required_module_token(call: Cursor) -> Option<JsSyntaxToken> {
    if is_require_call(call) {
        string_argument(call)
    } else {
        None
    }
}

/// The name of the module of a `require` call.
pub open spec fn required_module_text(call: Cursor) -> Option<Seq<char>> {
    if is_require_call(call) {
        string_argument_text(call)
    } else {
        None
    }
}

/// The clause that a named specifier belongs to: the node three steps up,
/// past the list and the braces, where that node is a clause.
pub open spec fn specifier_clause(specifier: Cursor) -> Option<Cursor> {
    match specifier.ancestor(3) {
        Some(clause) => if is_import_clause(clause.kind()) {
            Some(clause)
        } else {
            None
        },
        None => None,
    }
}

/// The `type` marker of the clause that a named specifier belongs to.
pub open spec fn specifier_clause_type_token(specifier: Cursor) -> Option<JsSyntaxToken> {
    match specifier_clause(specifier) {
        Some(clause) => type_token(clause),
        None => None,
    }
}

/// Whether a named specifier imports a type only: it has the marker, or
/// its clause has.
pub open spec fn imports_only_types(specifier: Cursor) -> bool {
    type_token(specifier) is Some || specifier_clause_type_token(specifier) is Some
}

/// The binding of a specifier of any sort.
pub open spec fn specifier_local_name(specifier: Cursor) -> SyntaxResult<Cursor> {
    match specifier.node_in_slot(local_name_slot(specifier.kind())) {
        Some(binding) => if is_binding(binding.kind()) {
            Ok(binding)
        } else {
            Err(SyntaxError::MissingRequiredChild)
        },
        None => Err(SyntaxError::MissingRequiredChild),
    }
}

/// The binding of a named specifier. A bogus one has none.
pub open spec fn named_specifier_local_name(specifier: Cursor) -> Option<Cursor> {
    if specifier.kind() == JsSyntaxKind::JS_BOGUS_NAMED_IMPORT_SPECIFIER {
        None
    } else {
        match specifier_local_name(specifier) {
            Ok(binding) => Some(binding),
            Err(_) => None,
        }
    }
}

/// The name token of the binding of a named specifier, where the binding
/// is an identifier.
pub open spec fn named_specifier_imported_name(specifier: Cursor) -> Option<JsSyntaxToken> {
    match named_specifier_local_name(specifier) {
        Some(binding) => if binding.kind() == JsSyntaxKind::JS_IDENTIFIER_BINDING {
            binding.token_in_slot(0)
        } else {
            None
        },
        None => None,
    }
}

/// Whether `new` is what replacing the marker of the named specifier `old`
/// by `marker` gives: `old` itself where it has no place for a marker, else
/// the root of a tree of its own that differs from `old` in that slot only.
pub open spec fn is_with_type_token(new: Cursor, old: Cursor, marker: Option<JsSyntaxToken>) -> bool {
    if has_type_slot(old.kind()) && old.slot_count() > 0 {
        new.is_splice_of(old, 0, spec_optional_token(marker))
    } else {
        new == old
    }
}

/// Whether a place is a module source that stands directly in a
/// `declare module "name" {}` declaration.
pub open spec fn is_in_ts_module_declaration(source: Cursor) -> bool {
    &&& source.kind() == JsSyntaxKind::JS_MODULE_SOURCE
    &&& match source.parent() {
        Some(parent) => parent.kind() == JsSyntaxKind::TS_EXTERNAL_MODULE_DECLARATION,
        None => false,
    }
}

/// The name of the module that an import of any form names: a module
/// source, a `require` call or a dynamic import.
pub open spec fn source_like_text(at: Cursor) -> Option<Seq<char>> {
    if at.kind() == JsSyntaxKind::JS_MODULE_SOURCE {
        match inner_text(at) {
            Ok(text) => Some(text),
            Err(_) => None,
        }
    } else if at.kind() == JsSyntaxKind::JS_CALL_EXPRESSION {
        required_module_text(at)
    } else {
        string_argument_text(at)
    }
}

/// The token that names the module that an import of any form names.
pub open spec fn source_like_token(at: Cursor) -> Option<JsSyntaxToken> {
    if at.kind() == JsSyntaxKind::JS_MODULE_SOURCE {
        match value_token(at) {
            Ok(token) => Some(token),
            Err(_) => None,
        }
    } else if at.kind() == JsSyntaxKind::JS_CALL_EXPRESSION {
        required_module_token(at)
    } else {
        string_argument(at)
    }
}

} // verus!
