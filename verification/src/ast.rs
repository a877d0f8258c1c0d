use vstd::prelude::*;
use crate::span::Span;
use crate::token::Kind;
use crate::modifiers::Accessibility;

verus! {

/// Index of a node in the parser's node arena.
pub type NodeId = usize;

/// A run of node ids in the parser's list arena: `lists[start .. start + len]`.
#[derive(Clone, Copy, Debug, PartialEq, Eq, Structural)]
pub struct ListRef {
    pub start: usize,
    pub len: usize,
}

#[derive(Clone, Copy, Debug, PartialEq, Eq, Structural)]
pub enum MethodDefinitionType {
    MethodDefinition,
    TSAbstractMethodDefinition,
}

#[derive(Clone, Copy, Debug, PartialEq, Eq, Structural)]
pub enum MethodDefinitionKind {
    Method,
    Getter,
    Setter,
}

#[derive(Clone, Copy, Debug, PartialEq, Eq, Structural)]
pub enum PropertyDefinitionType {
    PropertyDefinition,
}

/// How a child of an ArkUI component was parsed.
#[derive(Clone, Copy, Debug, PartialEq, Eq, Structural)]
pub enum ArkUIChildKind {
    Statement,
    Component,
    Expression,
}

/// A syntax tree node.  Nodes refer to other nodes by [`NodeId`], to lists of
/// nodes by [`ListRef`], and to names by the index of the token that spells
/// them.  Expressions, types and parameters that the ArkUI grammar does not
/// look into are kept as source ranges.
#[allow(inconsistent_fields)]
#[derive(Clone, Copy, Debug, PartialEq, Eq, Structural)]
pub enum Node {
    /// Stands for a construct that could not be parsed.
    Invalid { span: Span },
    IdentifierReference { span: Span, name_token: usize },
    BindingIdentifier { span: Span, name_token: usize },
    IdentifierName { span: Span, name_token: usize },
    ThisExpression { span: Span },
    StaticMemberExpression { span: Span, object: NodeId, property: NodeId },
    CallExpression { span: Span, callee: NodeId, arguments: ListRef },
    /// An expression kept as its source range.
    Expression { span: Span },
    ArkUIComponentExpression {
        span: Span,
        callee: NodeId,
        type_arguments: Option<Span>,
        arguments: ListRef,
        children: ListRef,
        chain_expressions: ListRef,
    },
    ArkUIChild { kind: ArkUIChildKind, node: NodeId },
    StringLiteralKey { span: Span, token: usize },
    NumericLiteralKey { span: Span, token: usize },
    PrivateIdentifierKey { span: Span, name_token: usize },
    ComputedKey { span: Span, expression: NodeId },
    BlockStatement { span: Span, body: ListRef },
    /// A control-flow statement: its keyword, and its parts in order, each a
    /// `TokenRun` (heads such as `(cond)`) or a `BlockStatement`.
    ControlStatement { span: Span, keyword: Kind, parts: ListRef },
    TokenRun { span: Span },
    ExpressionStatement { span: Span, expression: NodeId },
    EmptyStatement { span: Span },
    FormalParameter { span: Span },
    Function {
        span: Span,
        is_async: bool,
        generator: bool,
        type_parameters: Option<Span>,
        params: ListRef,
        return_type: Option<Span>,
        body: Option<NodeId>,
    },
    FunctionBody { span: Span, statements: ListRef },
    Decorator { span: Span, expression: NodeId },
    MethodDefinition {
        span: Span,
        def_type: MethodDefinitionType,
        decorators: ListRef,
        key: NodeId,
        value: NodeId,
        kind: MethodDefinitionKind,
        computed: bool,
        is_static: bool,
        is_override: bool,
        optional: bool,
        accessibility: Option<Accessibility>,
    },
    PropertyDefinition {
        span: Span,
        def_type: PropertyDefinitionType,
        decorators: ListRef,
        key: NodeId,
        type_annotation: Option<Span>,
        value: Option<NodeId>,
        computed: bool,
        is_static: bool,
        declare: bool,
        is_override: bool,
        optional: bool,
        definite: bool,
        readonly: bool,
        accessibility: Option<Accessibility>,
    },
    StructBody { span: Span, body: ListRef },
    StructStatement {
        span: Span,
        decorators: ListRef,
        id: NodeId,
        type_parameters: Option<Span>,
        body: NodeId,
        declare: bool,
    },
    AnnotationBody { span: Span, body: ListRef },
    AnnotationDeclaration {
        span: Span,
        decorators: ListRef,
        id: NodeId,
        body: NodeId,
        declare: bool,
    },
}

} // verus!
