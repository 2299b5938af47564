//! Where an import gets its module from.
//!
//! A JavaScript or TypeScript program imports a module in three ways: with
//! an `import` declaration, with a dynamic `import("name")` and with a call
//! of `require("name")`. This library answers, for a node of a parsed
//! program: which module is named, by which token, under which local name,
//! and whether the import brings in a type only.
//!
//! The tree is lossless and immutable. `green` holds the nodes and the
//! handles that walk them, `token` the tokens, `nodes` the typed handles,
//! `imports` the queries, `model` what each query means, and `laws` and
//! `repeat` what holds of them on every tree.

pub mod error;
pub mod green;
pub mod imports;
pub mod kind;
pub mod laws;
pub mod model;
pub mod nodes;
pub mod repeat;
pub mod token;

pub use crate::error::{SyntaxError, SyntaxResult};
pub use crate::green::{GreenNode, GreenSlot, JsSyntaxNode};
pub use crate::kind::JsSyntaxKind;
pub use crate::nodes::{
    AnyJsBinding, AnyJsImportClause, AnyJsImportSourceLike, AnyJsImportSpecifier,
    AnyJsModuleSource, AnyJsNamedImportSpecifier, JsBogusBinding, JsBogusNamedImportSpecifier,
    JsCallExpression, JsDefaultImportSpecifier, JsIdentifierBinding, JsImport,
    JsImportAssertion, JsImportBareClause, JsImportCallExpression, JsImportCombinedClause,
    JsImportDefaultClause, JsImportNamedClause, JsImportNamespaceClause, JsMetavariable,
    JsModuleSource, JsNamedImportSpecifier, JsNamespaceImportSpecifier,
    JsShorthandNamedImportSpecifier,
};
pub use crate::token::{inner_string_text, JsSyntaxToken};
