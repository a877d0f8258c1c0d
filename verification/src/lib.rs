//! A verified parser for the HarmonyOS ArkUI extensions of TypeScript:
//! `struct` component declarations, `@interface` annotation declarations and
//! ArkUI component expressions (`Column() { Text('a') }.width(100)`).
//!
//! The parser works on a token sequence and builds its syntax tree in an
//! arena of plain nodes (see [`ast`]).  Every parse function is proved equal
//! to a recursive specification of the grammar (the `spec_*` functions).

pub mod span;
pub mod token;
pub mod diagnostics;
pub mod modifiers;
pub mod ast;
pub mod parser;
pub mod grammar;
pub mod statements;
pub mod arkui;
pub mod program;
pub mod laws;
pub mod tree_laws;
