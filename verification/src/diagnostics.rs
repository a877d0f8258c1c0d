use vstd::prelude::*;
use crate::span::Span;
use crate::token::Kind;
use crate::modifiers::ModifierKind;

verus! {

/// What went wrong.
#[derive(Clone, Copy, Debug, PartialEq, Eq, Structural)]
pub enum DiagnosticKind {
    /// A declaration stands where only a single statement is allowed.
    ClassDeclaration,
    /// A modifier that this declaration does not accept.
    ModifierCannotBeUsedHere(ModifierKind),
    /// A modifier that a struct or annotation element does not accept.
    CannotAppearOnClassElements(ModifierKind),
    /// A property is marked both optional (`?`) and definite (`!`).
    OptionalDefiniteProperty,
    /// A `get` accessor declares parameters.
    GetterParameters,
    /// A `set` accessor does not declare exactly one parameter.
    SetterParameters,
    /// The token `expected` was required, `found` stands there.
    ExpectToken { expected: Kind, found: Kind },
    /// A token that cannot start the construct being parsed.
    Unexpected(Kind),
}

/// A parse error with the source range it refers to.
#[derive(Clone, Copy, Debug, PartialEq, Eq, Structural)]
pub struct Diagnostic {
    pub kind: DiagnosticKind,
    pub span: Span,
}

} // verus!
