//! What holds of the queries on every tree.

use vstd::prelude::*;

use crate::error::SyntaxError;
use crate::green::{lemma_node_in_slot, Cursor};
use crate::kind::JsSyntaxKind;
use crate::model::{
    arguments_slot, callee_name, has_type_slot, import_source_text, import_source_token,
    imports_only_types, is_import_clause, is_in_ts_module_declaration,
    is_named_import_specifier, is_require_call, is_with_type_token, required_module_text,
    required_module_token, source_like_text, source_like_token, source_slot, specifier_clause,
    string_argument, string_argument_text, type_token,
};
use crate::token::JsSyntaxToken;

verus! {

/// A string literal token whose text is `body` between two quotes has
/// `body` as its inner text.
pub proof fn law_inner_text_is_the_body(token: JsSyntaxToken, quote: char, body: Seq<char>)
    requires
        token@.kind.is_string_literal(),
        token@.text == seq![quote] + body + seq![quote],
    ensures
        token@.inner_string_text() == body,
{
    let text = token@.text;
    assert(text.subrange(1, text.len() - 1) =~= body);
}

/// An `import` declaration whose clause, of any of the five shapes, holds a
/// module source with the text `body` between quotes names the module
/// `body`, and its source token is that token, quotes included.
pub proof fn law_import_names_its_source(
    import: Cursor,
    clause: Cursor,
    source: Cursor,
    token: JsSyntaxToken,
    quote: char,
    body: Seq<char>,
)
    requires
        import.node_in_slot(1) == Some(clause),
        is_import_clause(clause.kind()),
        clause.node_in_slot(source_slot(clause.kind())) == Some(source),
        source.kind() == JsSyntaxKind::JS_MODULE_SOURCE,
        source.token_in_slot(0) == Some(token),
        token@.kind == JsSyntaxKind::JS_STRING_LITERAL,
        token@.text == seq![quote] + body + seq![quote],
    ensures
        import_source_text(import) == Ok::<Seq<char>, SyntaxError>(body),
        import_source_token(import) == Ok::<JsSyntaxToken, SyntaxError>(token),
        token@.text == seq![quote] + body + seq![quote],
{
    law_inner_text_is_the_body(token, quote, body);
}

/// Whether `argument` is the first argument of `call`: the node in the
/// first slot of `list`, the list between the parentheses of `arguments`,
/// the arguments of the call.
pub open spec fn is_first_argument(
    call: Cursor,
    arguments: Cursor,
    list: Cursor,
    argument: Cursor,
) -> bool {
    &&& call.node_in_slot(arguments_slot(call.kind())) == Some(arguments)
    &&& arguments.kind() == JsSyntaxKind::JS_CALL_ARGUMENTS
    &&& arguments.node_in_slot(1) == Some(list)
    &&& list.kind() == JsSyntaxKind::JS_CALL_ARGUMENT_LIST
    &&& list.node_in_slot(0) == Some(argument)
}

/// Whether the callee of `call` is the identifier expression `callee`,
/// whose reference `reference` has the name token `name`.
pub open spec fn is_callee_name(
    call: Cursor,
    callee: Cursor,
    reference: Cursor,
    name: JsSyntaxToken,
) -> bool {
    &&& call.node_in_slot(0) == Some(callee)
    &&& callee.kind() == JsSyntaxKind::JS_IDENTIFIER_EXPRESSION
    &&& callee.node_in_slot(0) == Some(reference)
    &&& reference.kind() == JsSyntaxKind::JS_REFERENCE_IDENTIFIER
    &&& reference.token_in_slot(0) == Some(name)
}

/// A call whose callee is the identifier `require` and whose first argument
/// is the string literal `body` between quotes is a `require` call, names
/// the module `body`, and its token is that literal, quotes included.
pub proof fn law_require_names_its_argument(
    call: Cursor,
    callee: Cursor,
    reference: Cursor,
    name: JsSyntaxToken,
    arguments: Cursor,
    list: Cursor,
    argument: Cursor,
    token: JsSyntaxToken,
    quote: char,
    body: Seq<char>,
)
    requires
        call.kind() == JsSyntaxKind::JS_CALL_EXPRESSION,
        is_callee_name(call, callee, reference, name),
        name@.text == "require"@,
        is_first_argument(call, arguments, list, argument),
        argument.kind() == JsSyntaxKind::JS_STRING_LITERAL_EXPRESSION,
        argument.token_in_slot(0) == Some(token),
        token@.kind == JsSyntaxKind::JS_STRING_LITERAL,
        token@.text == seq![quote] + body + seq![quote],
    ensures
        is_require_call(call),
        required_module_text(call) == Some(body),
        required_module_token(call) == Some(token),
{
    law_inner_text_is_the_body(token, quote, body);
}

/// A call whose callee is an identifier other than `require` is no
/// `require` call, and names no module, whatever its arguments are.
pub proof fn law_other_callee_names_nothing(
    call: Cursor,
    callee: Cursor,
    reference: Cursor,
    name: JsSyntaxToken,
)
    requires
        is_callee_name(call, callee, reference, name),
        name@.text != "require"@,
    ensures
        !is_require_call(call),
        required_module_text(call) is None,
        required_module_token(call) is None,
{
}

/// A call whose callee is no plain identifier is no `require` call.
pub proof fn law_no_callee_name_names_nothing(call: Cursor)
    requires
        callee_name(call) is None,
    ensures
        !is_require_call(call),
        required_module_text(call) is None,
        required_module_token(call) is None,
{
}

/// A dynamic import whose first argument is the string literal `body`
/// between quotes names the module `body`.
pub proof fn law_dynamic_import_names_its_argument(
    call: Cursor,
    arguments: Cursor,
    list: Cursor,
    argument: Cursor,
    token: JsSyntaxToken,
    quote: char,
    body: Seq<char>,
)
    requires
        call.kind() == JsSyntaxKind::JS_IMPORT_CALL_EXPRESSION,
        is_first_argument(call, arguments, list, argument),
        argument.kind() == JsSyntaxKind::JS_STRING_LITERAL_EXPRESSION,
        argument.token_in_slot(0) == Some(token),
        token@.kind == JsSyntaxKind::JS_STRING_LITERAL,
        token@.text == seq![quote] + body + seq![quote],
    ensures
        string_argument_text(call) == Some(body),
        string_argument(call) == Some(token),
        source_like_text(call) == Some(body),
        source_like_token(call) == Some(token),
{
    law_inner_text_is_the_body(token, quote, body);
}

/// A call with no argument names no module: neither a dynamic import nor a
/// call of `require`.
pub proof fn law_no_argument_names_nothing(call: Cursor, arguments: Cursor, list: Cursor)
    requires
        call.wf(),
        call.node_in_slot(arguments_slot(call.kind())) == Some(arguments),
        arguments.node_in_slot(1) == Some(list),
        list.slot_count() == 0,
    ensures
        string_argument(call) is None,
        string_argument_text(call) is None,
        required_module_text(call) is None,
        required_module_token(call) is None,
{
}

/// A named specifier with a `type` marker of its own imports a type only,
/// whatever its clause says.
pub proof fn law_marked_specifier_imports_only_types(specifier: Cursor)
    requires
        type_token(specifier) is Some,
    ensures
        imports_only_types(specifier),
{
}

/// A named specifier three steps below a clause with a `type` marker
/// imports a type only, with or without a marker of its own.
pub proof fn law_specifier_of_marked_clause_imports_only_types(specifier: Cursor, clause: Cursor)
    requires
        specifier.ancestor(3) == Some(clause),
        is_import_clause(clause.kind()),
        type_token(clause) is Some,
    ensures
        imports_only_types(specifier),
{
}

/// A named specifier without a marker, three steps below a clause without
/// a marker, does not import a type only.
pub proof fn law_plain_specifier_imports_values(specifier: Cursor, clause: Cursor)
    requires
        type_token(specifier) is None,
        specifier.ancestor(3) == Some(clause),
        type_token(clause) is None,
    ensures
        !imports_only_types(specifier),
{
}

/// A named specifier that is not three steps below a clause goes by its
/// own marker alone.
pub proof fn law_specifier_without_clause(specifier: Cursor)
    requires
        specifier_clause(specifier) is None,
    ensures
        imports_only_types(specifier) == (type_token(specifier) is Some),
{
}

/// The specifier that `with_type_token` gives has the new marker, or none
/// where none was given; the specifier that it was made from keeps its own.
pub proof fn law_with_type_token_sets_the_marker(
    old: Cursor,
    new: Cursor,
    marker: Option<JsSyntaxToken>,
)
    requires
        old.wf(),
        is_named_import_specifier(old.kind()),
        is_with_type_token(new, old, marker),
    ensures
        new.wf(),
        new.kind() == old.kind(),
        marker is None ==> type_token(new) is None,
        has_type_slot(old.kind()) && old.slot_count() > 0 ==> type_token(new) == marker,
        !(has_type_slot(old.kind()) && old.slot_count() > 0) ==> new == old,
        forall|index: usize| 0 < index ==> new.token_in_slot(index) == old.token_in_slot(index),
{
    if has_type_slot(old.kind()) && old.slot_count() > 0 {
        assert(new.path =~= Seq::<usize>::empty());
        assert(new.green() == new.root);
    }
}

/// The specifier that `with_type_token` gives is the root of its tree: it
/// belongs to no clause, and goes by its own marker alone.
pub proof fn law_with_type_token_detaches(old: Cursor, new: Cursor, marker: Option<JsSyntaxToken>)
    requires
        has_type_slot(old.kind()),
        old.slot_count() > 0,
        is_with_type_token(new, old, marker),
    ensures
        new.parent() is None,
        specifier_clause(new) is None,
{
}

/// Only a module source whose parent is a `declare module` declaration is
/// in such a declaration.
pub proof fn law_in_ts_module_declaration(at: Cursor)
    ensures
        is_in_ts_module_declaration(at) ==> at.kind() == JsSyntaxKind::JS_MODULE_SOURCE
            && at.parent() is Some && at.parent().unwrap().kind()
            == JsSyntaxKind::TS_EXTERNAL_MODULE_DECLARATION,
        at.kind() != JsSyntaxKind::JS_MODULE_SOURCE ==> !is_in_ts_module_declaration(at),
        at.path.len() == 0 ==> !is_in_ts_module_declaration(at),
{
}

/// The module source in the second slot of a `declare module` declaration
/// is in such a declaration.
pub proof fn law_source_of_ts_module_declaration(declaration: Cursor, source: Cursor)
    requires
        declaration.wf(),
        declaration.kind() == JsSyntaxKind::TS_EXTERNAL_MODULE_DECLARATION,
        declaration.node_in_slot(1) == Some(source),
        source.kind() == JsSyntaxKind::JS_MODULE_SOURCE,
    ensures
        is_in_ts_module_declaration(source),
{
    lemma_node_in_slot(declaration, 1);
}

/// The module source of an `import` declaration is not in a `declare
/// module` declaration.
pub proof fn law_source_of_import_is_not_in_ts_module(clause: Cursor, source: Cursor)
    requires
        clause.wf(),
        is_import_clause(clause.kind()),
        clause.node_in_slot(source_slot(clause.kind())) == Some(source),
    ensures
        !is_in_ts_module_declaration(source),
{
    lemma_node_in_slot(clause, source_slot(clause.kind()));
}

/// Going up `n + 1` steps is going up `n` steps and then to the parent.
pub proof fn law_ancestor_is_repeated_parent(c: Cursor, n: nat)
    ensures
        c.ancestor(n + 1) == match c.ancestor(n) {
            Some(a) => a.parent(),
            None => None,
        },
{
    if n + 1 <= c.path.len() {
        let a = c.ancestor(n).unwrap();
        assert(a.path.take(a.path.len() - 1) =~= c.path.take(c.path.len() - (n + 1)));
    }
}

} // verus!
