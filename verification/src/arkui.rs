//! ArkUI parsing: struct declarations, annotation declarations, and ArkUI
//! component expressions with their children and chained attribute calls.
use vstd::prelude::*;
use crate::token::{
    Kind, Token, kind_is_binding_identifier, kind_is_control_flow,
    kind_is_identifier_or_keyword, text_is,
};
use crate::ast::{
    ArkUIChildKind, MethodDefinitionKind, MethodDefinitionType, Node, NodeId,
    PropertyDefinitionType,
};
use crate::span::{Span, saturating_add_u32, span_expand_right, span_new};
use crate::diagnostics::{Diagnostic, DiagnosticKind};
use crate::modifiers::{
    ModifierKind, ModifierKinds, Modifiers, accessibility_of, modifiers_contain,
};
use crate::grammar::{
    IdentRole, ModifierDiagnostic, RunMode, lemma_delimited_forward,
    lemma_try_type_arguments_forward, moved_forward, spec_contextual_modifier, spec_decorators,
    spec_delimited, spec_identifier, spec_modifiers, spec_property_name, spec_run_node,
    spec_type_parameters, spec_type_run, spec_verify_modifiers, unexpected_diagnostic,
};
use crate::statements::{spec_function, spec_statement};
use crate::laws::law_only_dsl_membership_matters;
use crate::parser::{
    below, progressed,
    Env, PState, ParserImpl, add_error, add_fatal, at, bump, cur_kind, cur_span, eat, end_span,
    expect, peek_kind, push_list, push_node, rewind_to, start_of, unexpected,
};

verus! {

/// The children block `{ child* }` of a component, if present.  The children
/// are parsed one DSL level deeper.
pub open spec fn spec_children_block(e: Env, d: int, s: PState) -> (Seq<NodeId>, PState)
    decreases e.toks.len() - s.pos, 1int,
{
    let (ate, s1) = eat(e, s, Kind::LCurly);
    if ate && s.pos < s1.pos <= e.toks.len() {
        let (kids, s2) = spec_children(e, d + 1, s1);
        (kids, expect(e, s2, Kind::RCurly))
    } else {
        (Seq::empty(), s1)
    }
}

/// What the children block at `s` is: when `{` opens one, the children are
/// parsed one DSL level deeper, their list ends at the block's `}` or at a
/// fatal error, and the `}` is then expected; otherwise there are no
/// children and nothing is consumed.
pub open spec fn children_block_closes(e: Env, d: int, s: PState) -> bool {
    let (kids, s_end) = spec_children_block(e, d, s);
    if at(e, s, Kind::LCurly) {
        let (inner, s2) = spec_children(e, d + 1, bump(e, s));
        &&& kids == inner
        &&& (at(e, s2, Kind::RCurly) || s2.fatal)
        &&& s_end == expect(e, s2, Kind::RCurly)
    } else {
        kids == Seq::<NodeId>::empty() && s_end == s
    }
}

/// Children up to `}`, each optionally followed by `;`.
pub open spec fn spec_children(e: Env, d: int, s: PState) -> (Seq<NodeId>, PState)
    decreases e.toks.len() - s.pos, 7int,
{
    if at(e, s, Kind::RCurly) || s.fatal {
        (Seq::empty(), s)
    } else {
        let (c, s1) = spec_child(e, d, s);
        let s2 = eat(e, s1, Kind::Semicolon).1;
        if s.pos < s2.pos <= e.toks.len() {
            let (rest, s3) = spec_children(e, d, s2);
            (seq![c] + rest, s3)
        } else {
            (seq![c], s2)
        }
    }
}

/// A child kept as an expression.
pub open spec fn spec_child_expression(e: Env, s: PState) -> (NodeId, PState) {
    let (x, s1) = spec_run_node(e, s, RunMode::Argument, false);
    push_node(s1, Node::ArkUIChild { kind: ArkUIChildKind::Expression, node: x })
}

/// A child of a component: a control-flow statement, a component
/// `Name(args)...`, or an expression.
pub open spec fn spec_child(e: Env, d: int, s: PState) -> (NodeId, PState)
    decreases e.toks.len() - s.pos, 6int,
{
    let k = cur_kind(e, s);
    if kind_is_control_flow(k) {
        let (st, s1) = spec_statement(e, d, s);
        push_node(s1, Node::ArkUIChild { kind: ArkUIChildKind::Statement, node: st })
    } else if kind_is_identifier_or_keyword(k) {
        let (id, s1) = spec_identifier(e, s, IdentRole::Reference);
        if at(e, s1, Kind::LParen) && s.pos < s1.pos <= e.toks.len() {
            let (c, s2) = spec_component(e, d, s1, id);
            push_node(s2, Node::ArkUIChild { kind: ArkUIChildKind::Component, node: c })
        } else {
            spec_child_expression(e, rewind_to(s1, s))
        }
    } else {
        spec_child_expression(e, s)
    }
}

/// A component expression after its callee: type arguments (TypeScript),
/// `(args)`, then the rest as in [`spec_component_after_args`].  The
/// component's span starts at the token after the callee.
pub open spec fn spec_component(e: Env, d: int, s: PState, callee: NodeId) -> (NodeId, PState)
    decreases e.toks.len() - s.pos, 3int,
{
    let start = start_of(e, s);
    let (targs, args, s4) = spec_component_head(e, s);
    proof {
        lemma_component_head_forward(e, s);
    }
    spec_component_after_args(e, d, s4, start, callee, targs, args)
}

/// The head of a component after its callee: type arguments (TypeScript)
/// and `(args)`.
pub open spec fn spec_component_head(e: Env, s: PState) -> (Option<Span>, Seq<NodeId>, PState) {
    let (targs, s1) = if e.is_ts { crate::grammar::spec_try_type_arguments(e, s) } else { (None, s) };
    let s2 = expect(e, s1, Kind::LParen);
    let (args, s3) = spec_delimited(e, s2, Kind::RParen, false, true);
    (targs, args, expect(e, s3, Kind::RParen))
}

/// The head of a component moves the parser forward.
pub proof fn lemma_component_head_forward(e: Env, s: PState)
    ensures
        moved_forward(e, s, spec_component_head(e, s).2),
{
    let s1 = if e.is_ts { crate::grammar::spec_try_type_arguments(e, s).1 } else { s };
    if e.is_ts {
        lemma_try_type_arguments_forward(e, s);
    }
    let s2 = expect(e, s1, Kind::LParen);
    lemma_delimited_forward(e, s2, Kind::RParen, false, true);
}

/// A component expression once its arguments are parsed: the children block
/// if present, then the chained calls `.attr(args)`.  The component's span
/// ends before the chain.
pub open spec fn spec_component_after_args(
    e: Env,
    d: int,
    s: PState,
    start: u32,
    callee: NodeId,
    type_arguments: Option<Span>,
    args: Seq<NodeId>,
) -> (NodeId, PState)
    decreases e.toks.len() - s.pos, 2int,
{
    let (kids, s1) = spec_children_block(e, d, s);
    let span = end_span(s1, start);
    let (chain, s2) = spec_chain(e, s1);
    let (al, s3) = push_list(s2, args);
    let (kl, s4) = push_list(s3, kids);
    let (cl, s5) = push_list(s4, chain);
    push_node(
        s5,
        Node::ArkUIComponentExpression {
            span,
            callee,
            type_arguments,
            arguments: al,
            children: kl,
            chain_expressions: cl,
        },
    )
}

/// Chained attribute calls `.name(args)` after a component.  Each becomes a
/// call of the member `this.name`.  The chain ends at a token other than
/// `.`; at a `.` that no name follows (the `.` is consumed); or at a
/// `.name` that no `(` follows (both are consumed).
pub open spec fn spec_chain(e: Env, s: PState) -> (Seq<NodeId>, PState)
    decreases e.toks.len() - s.pos,
{
    let (ate, s1) = eat(e, s, Kind::Dot);
    if !ate {
        (Seq::empty(), s)
    } else if !kind_is_identifier_or_keyword(cur_kind(e, s1)) {
        (Seq::empty(), s1)
    } else {
        let ident_start = start_of(e, s1);
        let (ident, s2) = spec_identifier(e, s1, IdentRole::Name);
        if !at(e, s2, Kind::LParen) {
            (Seq::empty(), s2)
        } else {
            let member_span = end_span(s2, ident_start);
            let (this, s3) = push_node(s2, Node::ThisExpression { span: member_span });
            let (member, s4) = push_node(
                s3,
                Node::StaticMemberExpression { span: member_span, object: this, property: ident },
            );
            let call_start = start_of(e, s4);
            let s5 = expect(e, s4, Kind::LParen);
            let (args, s6) = spec_delimited(e, s5, Kind::RParen, false, true);
            let s7 = expect(e, s6, Kind::RParen);
            let call_span = end_span(s7, call_start);
            let (al, s8) = push_list(s7, args);
            let (call, s9) = push_node(
                s8,
                Node::CallExpression { span: call_span, callee: member, arguments: al },
            );
            if s.pos < s9.pos <= e.toks.len() {
                let (rest, s10) = spec_chain(e, s9);
                (seq![call] + rest, s10)
            } else {
                (seq![call], s9)
            }
        }
    }
}

} // verus!

verus! {

impl ParserImpl {
    /// Enters one more level of the ArkUI DSL.  When the depth counter is
    /// already at its maximum it stays there: the parser is inside the DSL
    /// either way, and only that matters (see
    /// [`law_only_dsl_membership_matters`]).
    fn enter_arkui_dsl(&mut self) -> (entered: bool)
        requires
            old(self).wf(),
        ensures
            final(self).wf(),
            final(self).env() == old(self).env(),
            final(self).state() == old(self).state(),
            entered == (old(self).depth() < usize::MAX),
            final(self).depth() == if entered { old(self).depth() + 1 } else { old(self).depth() },
    {
        if self.arkui_dsl_depth < usize::MAX {
            self.arkui_dsl_depth = self.arkui_dsl_depth + 1;
            true
        } else {
            false
        }
    }

    /// Leaves the level of the ArkUI DSL that [`Self::enter_arkui_dsl`]
    /// entered.
    fn leave_arkui_dsl(&mut self, entered: bool)
        requires
            old(self).wf(),
            entered ==> old(self).depth() > 0,
        ensures
            final(self).wf(),
            final(self).env() == old(self).env(),
            final(self).state() == old(self).state(),
            final(self).depth() == if entered { old(self).depth() - 1 } else { old(self).depth() },
    {
        if entered {
            self.arkui_dsl_depth = self.arkui_dsl_depth - 1;
        }
    }

    /// Parses the children block `{ child* }` of a component, if one opens
    /// at the cursor, in the ArkUI DSL context.
    pub fn parse_children_block(&mut self) -> (r: Vec<NodeId>)
        requires
            old(self).wf(),
        ensures
            final(self).advanced_from(old(self)),
            children_block_closes(old(self).env(), old(self).depth(), old(self).state()),
            below(r@, final(self).nodes.len() as int),
            (r@, final(self).state()) == spec_children_block(old(self).env(), old(self).depth(), old(self).state()),
        decreases old(self).tokens.len() - old(self).pos, 1int,
    {
        if self.eat(Kind::LCurly) {
            // The children are in the ArkUI DSL context.
            let ghost s1 = self.state();
            let entered = self.enter_arkui_dsl();
            let kids = self.parse_children();
            self.expect(Kind::RCurly);
            self.leave_arkui_dsl(entered);
            proof {
                if !entered {
                    law_only_dsl_membership_matters(self.env(), self.depth(), self.depth() + 1, s1, 0, false, false);
                }
            }
            kids
        } else {
            Vec::new()
        }
    }

    fn parse_children(&mut self) -> (r: Vec<NodeId>)
        requires
            old(self).wf(),
        ensures
            final(self).advanced_from(old(self)),
            at(old(self).env(), final(self).state(), Kind::RCurly) || final(self).state().fatal,
            below(r@, final(self).nodes.len() as int),
            (r@, final(self).state()) == spec_children(old(self).env(), old(self).depth(), old(self).state()),
        decreases old(self).tokens.len() - old(self).pos, 7int,
    {
        let ghost e = self.env();
        let ghost d = self.depth();
        let ghost s0 = self.state();
        let mut list: Vec<NodeId> = Vec::new();
        loop
            invariant_except_break
                spec_children(e, d, s0) == (
                    list@ + spec_children(e, d, self.state()).0,
                    spec_children(e, d, self.state()).1,
                ),
            invariant
                self.advanced_from(old(self)),
                self.env() == e,
                below(list@, self.nodes.len() as int),
                self.depth() == d,
                s0 == old(self).state(),
            ensures
                spec_children(e, d, s0) == (list@, self.state()),
                at(e, self.state(), Kind::RCurly) || self.state().fatal,
            decreases e.toks.len() - self.pos,
        {
            if self.at(Kind::RCurly) || self.has_fatal_error() {
                assert(list@ + Seq::<NodeId>::empty() == list@);
                break;
            }
            let before = self.pos;
            let c = self.parse_arkui_child();
            self.eat(Kind::Semicolon);
            let ghost old_list = list@;
            list.push(c);
            if before < self.pos {
                assert(old_list + (seq![c] + spec_children(e, d, self.state()).0) == list@ + spec_children(e, d, self.state()).0);
            } else {
                assert(old_list + seq![c] == list@);
                break;
            }
        }
        list
    }

    fn parse_child_expression(&mut self) -> (id: NodeId)
        requires
            old(self).wf(),
        ensures
            final(self).advanced_from(old(self)),
            progressed(old(self).state(), final(self).state()),
            id < final(self).nodes.len(),
            (id, final(self).state()) == spec_child_expression(old(self).env(), old(self).state()),
    {
        let x = self.parse_assignment_expression_or_higher();
        self.push_node(Node::ArkUIChild { kind: ArkUIChildKind::Expression, node: x })
    }

    /// Parses an ArkUI child element.
    pub fn parse_arkui_child(&mut self) -> (id: NodeId)
        requires
            old(self).wf(),
        ensures
            final(self).advanced_from(old(self)),
            progressed(old(self).state(), final(self).state()),
            id < final(self).nodes.len(),
            (id, final(self).state()) == spec_child(old(self).env(), old(self).depth(), old(self).state()),
        decreases old(self).tokens.len() - old(self).pos, 6int,
    {
        let k = self.cur_kind();
        // Control flow statements (`if`, `for`, `while`, ...) render
        // children conditionally.
        if k.is_control_flow() {
            let st = self.parse_statement_list_item();
            return self.push_node(Node::ArkUIChild { kind: ArkUIChildKind::Statement, node: st });
        }
        if k.is_identifier_or_keyword() {
            let checkpoint = self.checkpoint();
            let ident = self.parse_identifier_expression();
            if self.at(Kind::LParen) && checkpoint.pos < self.pos {
                let comp = self.parse_arkui_component_expression(ident);
                return self.push_node(Node::ArkUIChild { kind: ArkUIChildKind::Component, node: comp });
            }
            // Not a component: go back and parse an expression.
            self.rewind(checkpoint);
        }
        self.parse_child_expression()
    }

    /// Parses an ArkUI component expression such as
    /// `Column() { Text('Hello') }`, from the token after its callee.
    pub fn parse_arkui_component_expression(&mut self, callee: NodeId) -> (id: NodeId)
        requires
            old(self).wf(),
            callee < old(self).nodes.len(),
        ensures
            final(self).advanced_from(old(self)),
            progressed(old(self).state(), final(self).state()),
            id < final(self).nodes.len(),
            children_block_closes(
                old(self).env(),
                old(self).depth(),
                spec_component_head(old(self).env(), old(self).state()).2,
            ),
            (id, final(self).state()) == spec_component(old(self).env(), old(self).depth(), old(self).state(), callee),
        decreases old(self).tokens.len() - old(self).pos, 3int,
    {
        let start = self.start_span();
        let type_arguments = if self.is_ts { self.try_parse_type_arguments() } else { None };
        self.expect(Kind::LParen);
        let args = self.parse_delimited_list(Kind::RParen, false);
        self.expect(Kind::RParen);
        self.parse_arkui_component_expression_after_args(start, callee, type_arguments, args)
    }

    /// Parses the rest of an ArkUI component expression once its arguments
    /// are parsed: the children block and the chained calls.
    pub fn parse_arkui_component_expression_after_args(
        &mut self,
        start: u32,
        callee: NodeId,
        type_arguments: Option<Span>,
        arguments: Vec<NodeId>,
    ) -> (id: NodeId)
        requires
            old(self).wf(),
            callee < old(self).nodes.len(),
            below(arguments@, old(self).nodes.len() as int),
        ensures
            final(self).advanced_from(old(self)),
            children_block_closes(old(self).env(), old(self).depth(), old(self).state()),
            id < final(self).nodes.len(),
            (id, final(self).state()) == spec_component_after_args(
                old(self).env(),
                old(self).depth(),
                old(self).state(),
                start,
                callee,
                type_arguments,
                arguments@,
            ),
        decreases old(self).tokens.len() - old(self).pos, 2int,
    {
        let children = self.parse_children_block();
        let span = self.end_span(start);
        let chain = self.parse_arkui_component_chain_expressions();
        let al = self.push_list(arguments);
        let kl = self.push_list(children);
        let cl = self.push_list(chain);
        self.push_node(
            Node::ArkUIComponentExpression {
                span,
                callee,
                type_arguments,
                arguments: al,
                children: kl,
                chain_expressions: cl,
            },
        )
    }

    /// Parses the chained attribute calls `.name(args)` after a component.
    pub fn parse_arkui_component_chain_expressions(&mut self) -> (r: Vec<NodeId>)
        requires
            old(self).wf(),
        ensures
            final(self).advanced_from(old(self)),
            below(r@, final(self).nodes.len() as int),
            (r@, final(self).state()) == spec_chain(old(self).env(), old(self).state()),
    {
        let ghost e = self.env();
        let ghost s0 = self.state();
        let mut list: Vec<NodeId> = Vec::new();
        loop
            invariant_except_break
                spec_chain(e, s0) == (list@ + spec_chain(e, self.state()).0, spec_chain(e, self.state()).1),
            invariant
                self.advanced_from(old(self)),
                self.env() == e,
                below(list@, self.nodes.len() as int),
                s0 == old(self).state(),
            ensures
                spec_chain(e, s0) == (list@, self.state()),
            decreases e.toks.len() - self.pos,
        {
            let before = self.pos;
            if !self.eat(Kind::Dot) {
                assert(list@ + Seq::<NodeId>::empty() == list@);
                break;
            }
            if !self.cur_kind().is_identifier_or_keyword() {
                assert(list@ + Seq::<NodeId>::empty() == list@);
                break;
            }
            let ident_start = self.start_span();
            let ident = self.parse_identifier_name();
            if !self.at(Kind::LParen) {
                assert(list@ + Seq::<NodeId>::empty() == list@);
                break;
            }
            let member_span = self.end_span(ident_start);
            let this = self.push_node(Node::ThisExpression { span: member_span });
            let member = self.push_node(
                Node::StaticMemberExpression { span: member_span, object: this, property: ident },
            );
            let call_start = self.start_span();
            self.expect(Kind::LParen);
            let args = self.parse_delimited_list(Kind::RParen, false);
            self.expect(Kind::RParen);
            let call_span = self.end_span(call_start);
            let al = self.push_list(args);
            let call = self.push_node(Node::CallExpression { span: call_span, callee: member, arguments: al });
            let ghost old_list = list@;
            list.push(call);
            if before < self.pos {
                assert(old_list + (seq![call] + spec_chain(e, self.state()).0) == list@ + spec_chain(e, self.state()).0);
            } else {
                assert(old_list + seq![call] == list@);
                break;
            }
        }
        list
    }
}

} // verus!

verus! {

// ---------------------------------------------------------------------------
// Which methods are parsed as ArkUI DSL.

/// Decorator names that make a method an ArkUI DSL body.
pub open spec fn is_dsl_decorator_name(n: Seq<char>) -> bool {
    ||| n == "Builder"@
    ||| n == "LocalBuilder"@
    ||| n == "Extend"@
    ||| n == "AnimatableExtend"@
    ||| n == "Styles"@
}

/// Method names whose bodies are ArkUI DSL.
pub open spec fn is_dsl_method_name(n: Seq<char>) -> bool {
    n == "build"@ || n == "pageTransition"@
}

/// Whether token `t` exists and its text is a DSL decorator name (when
/// `dsl_decorator`) or a DSL method name (otherwise).
pub open spec fn token_named(toks: Seq<Token>, t: int, dsl_decorator: bool) -> bool {
    &&& 0 <= t < toks.len()
    &&& if dsl_decorator { is_dsl_decorator_name(toks[t].text@) } else { is_dsl_method_name(toks[t].text@) }
}

/// Whether the decorator expression `id` names an ArkUI DSL decorator: a
/// DSL name, a member access whose property is a DSL name, or a call of such
/// a decorator (`@Builder`, `@Extend(Text)`, `@ns.Styles`).
pub open spec fn spec_is_arkui_dsl_decorator(toks: Seq<Token>, nodes: Seq<Node>, id: int) -> bool
    decreases id,
{
    if id < 0 || id >= nodes.len() {
        false
    } else {
        match nodes[id] {
            Node::IdentifierReference { name_token, .. } => token_named(toks, name_token as int, true),
            Node::CallExpression { callee, .. } => {
                if callee < id { spec_is_arkui_dsl_decorator(toks, nodes, callee as int) } else { false }
            },
            Node::StaticMemberExpression { property, .. } => {
                &&& property < nodes.len()
                &&& nodes[property as int] matches Node::IdentifierName { name_token, .. }
                &&& token_named(toks, name_token as int, true)
            },
            _ => false,
        }
    }
}

/// Whether decorator node `d` has an ArkUI DSL decorator expression.
pub open spec fn decorator_enables_arkui_dsl(toks: Seq<Token>, nodes: Seq<Node>, d: NodeId) -> bool {
    &&& d < nodes.len()
    &&& nodes[d as int] matches Node::Decorator { expression, .. }
    &&& spec_is_arkui_dsl_decorator(toks, nodes, expression as int)
}

/// Whether any of the decorators `ds` enables the ArkUI DSL.
pub open spec fn spec_decorators_enable_arkui_dsl(toks: Seq<Token>, nodes: Seq<Node>, ds: Seq<NodeId>) -> bool {
    exists|i: int| 0 <= i < ds.len() && decorator_enables_arkui_dsl(toks, nodes, #[trigger] ds[i])
}

/// Whether a property key's static name is a DSL method name.  Only
/// identifier and string keys can spell `build` or `pageTransition`.
pub open spec fn key_names_dsl_method(toks: Seq<Token>, nodes: Seq<Node>, key: NodeId) -> bool {
    &&& key < nodes.len()
    &&& match nodes[key as int] {
        Node::IdentifierName { name_token, .. } => token_named(toks, name_token as int, false),
        Node::StringLiteralKey { token, .. } => token_named(toks, token as int, false),
        _ => false,
    }
}

/// Whether a struct method's body is ArkUI DSL: in ArkUI sources, a method
/// named `build` or `pageTransition` (not computed), or one with a DSL
/// decorator.
pub open spec fn spec_is_arkui_dsl_method(
    e: Env,
    nodes: Seq<Node>,
    name: NodeId,
    computed: bool,
    decorators: Seq<NodeId>,
) -> bool {
    e.is_arkui && ((!computed && key_names_dsl_method(e.toks, nodes, name))
        || spec_decorators_enable_arkui_dsl(e.toks, nodes, decorators))
}

// ---------------------------------------------------------------------------
// Struct elements.

/// The span of `?` grown by one to the right, as the diagnostic for a
/// property that is both optional and definite reports it.
pub open spec fn optional_definite_span(sp: Span) -> Span {
    Span { start: sp.start, end: saturating_add_u32(sp.end, 1) }
}

/// Reports a property that is both optional (`?`) and definite (`!`).
pub open spec fn check_optional_definite(s: PState, optional_span: Option<Span>, definite: bool) -> PState {
    if definite && optional_span is Some {
        add_error(
            s,
            Diagnostic {
                kind: DiagnosticKind::OptionalDefiniteProperty,
                span: optional_definite_span(optional_span.unwrap()),
            },
        )
    } else {
        s
    }
}

/// The `?` at the cursor, if any, consumed.
pub open spec fn spec_optional_mark(e: Env, s: PState) -> (Option<Span>, PState) {
    if at(e, s, Kind::Question) { (Some(cur_span(e, s)), bump(e, s)) } else { (None, s) }
}

/// A property declaration once its name and marks are parsed: type
/// annotation (TypeScript), initializer, optional `;`.
pub open spec fn spec_property_declaration_for_struct(
    e: Env,
    s: PState,
    start: u32,
    name: NodeId,
    computed: bool,
    optional_span: Option<Span>,
    definite: bool,
    ms: Seq<crate::modifiers::Modifier>,
    decorators: Seq<NodeId>,
) -> (NodeId, PState) {
    let (type_annotation, s1) = if e.is_ts && at(e, s, Kind::Colon) {
        let (t, s) = spec_type_run(e, bump(e, s), RunMode::PropertyType);
        (Some(t), s)
    } else {
        (None, s)
    };
    let (value, s2) = if at(e, s1, Kind::Eq) {
        let (x, s) = spec_run_node(e, bump(e, s1), RunMode::Expression, false);
        (Some(x), s)
    } else {
        (None, s1)
    };
    let s3 = eat(e, s2, Kind::Semicolon).1;
    let (dl, s4) = push_list(s3, decorators);
    push_node(
        s4,
        Node::PropertyDefinition {
            span: end_span(s3, start),
            def_type: PropertyDefinitionType::PropertyDefinition,
            decorators: dl,
            key: name,
            type_annotation,
            value,
            computed,
            is_static: modifiers_contain(ms, ModifierKind::Static),
            declare: false,
            is_override: modifiers_contain(ms, ModifierKind::Override),
            optional: optional_span is Some,
            definite,
            readonly: modifiers_contain(ms, ModifierKind::Readonly),
            accessibility: accessibility_of(ms),
        },
    )
}

/// A method of a struct once its name is parsed.  Its function is parsed in
/// the ArkUI DSL context when [`spec_is_arkui_dsl_method`] holds.
pub open spec fn spec_method_declaration_for_struct(
    e: Env,
    d: int,
    s: PState,
    start: u32,
    def_type: MethodDefinitionType,
    generator: bool,
    name: NodeId,
    computed: bool,
    optional: bool,
    ms: Seq<crate::modifiers::Modifier>,
    decorators: Seq<NodeId>,
) -> (NodeId, PState) {
    let dsl = spec_is_arkui_dsl_method(e, s.nodes, name, computed, decorators);
    let (value, s1) = spec_function(
        e,
        if dsl { d + 1 } else { d },
        s,
        modifiers_contain(ms, ModifierKind::Async),
        generator,
    );
    let (dl, s2) = push_list(s1, decorators);
    push_node(
        s2,
        Node::MethodDefinition {
            span: end_span(s1, start),
            def_type,
            decorators: dl,
            key: name,
            value,
            kind: MethodDefinitionKind::Method,
            computed,
            is_static: modifiers_contain(ms, ModifierKind::Static),
            is_override: modifiers_contain(ms, ModifierKind::Override),
            optional,
            accessibility: accessibility_of(ms),
        },
    )
}

/// A struct element that starts with a name, `*` or `[`: a method when `*`,
/// `(` or `<` follows the name (and its optional `?`), otherwise a property.
pub open spec fn spec_property_or_method_declaration_for_struct(
    e: Env,
    d: int,
    s: PState,
    start: u32,
    def_type: MethodDefinitionType,
    ms: Seq<crate::modifiers::Modifier>,
    decorators: Seq<NodeId>,
) -> (NodeId, PState) {
    let (generator, s1) = eat(e, s, Kind::Star);
    let ((name, computed), s2) = spec_property_name(e, s1);
    let (optional_span, s3) = spec_optional_mark(e, s2);
    if generator || at(e, s3, Kind::LParen) || at(e, s3, Kind::LAngle) {
        spec_method_declaration_for_struct(
            e, d, s3, start, def_type, generator, name, computed, optional_span is Some, ms, decorators,
        )
    } else {
        let (definite, s4) = eat(e, s3, Kind::Bang);
        let s5 = check_optional_definite(s4, optional_span, definite);
        spec_property_declaration_for_struct(
            e, s5, start, name, computed, optional_span, definite, ms, decorators,
        )
    }
}

/// The parameters of function node `f`, if it is one.
pub open spec fn function_params_len(nodes: Seq<Node>, f: NodeId) -> Option<(Span, usize)> {
    if f < nodes.len() {
        match nodes[f as int] {
            Node::Function { span, params, .. } => Some((span, params.len)),
            _ => None,
        }
    } else {
        None
    }
}

/// A `get` accessor takes no parameters; a `set` accessor takes one.
pub open spec fn spec_check_accessor(s: PState, kind: MethodDefinitionKind, f: NodeId) -> PState {
    match function_params_len(s.nodes, f) {
        Some((span, n)) => {
            if kind == MethodDefinitionKind::Getter && n != 0 {
                add_error(s, Diagnostic { kind: DiagnosticKind::GetterParameters, span })
            } else if kind == MethodDefinitionKind::Setter && n != 1 {
                add_error(s, Diagnostic { kind: DiagnosticKind::SetterParameters, span })
            } else {
                s
            }
        },
        None => s,
    }
}

/// An accessor `get name() {}` / `set name(v) {}` after its keyword.
pub open spec fn spec_struct_accessor_declaration(
    e: Env,
    d: int,
    s: PState,
    start: u32,
    def_type: MethodDefinitionType,
    kind: MethodDefinitionKind,
    ms: Seq<crate::modifiers::Modifier>,
    decorators: Seq<NodeId>,
) -> (NodeId, PState) {
    let ((name, computed), s1) = spec_property_name(e, s);
    let (value, s2) = spec_function(e, d, s1, modifiers_contain(ms, ModifierKind::Async), false);
    let (dl, s3) = push_list(s2, decorators);
    let (m, s4) = push_node(
        s3,
        Node::MethodDefinition {
            span: end_span(s2, start),
            def_type,
            decorators: dl,
            key: name,
            value,
            kind,
            computed,
            is_static: modifiers_contain(ms, ModifierKind::Static),
            is_override: modifiers_contain(ms, ModifierKind::Override),
            optional: false,
            accessibility: accessibility_of(ms),
        },
    )
    ;
    let s5 = spec_check_accessor(s4, kind, value);
    (
        m,
        spec_verify_modifiers(
            s5,
            ms,
            seq![ModifierKind::Async, ModifierKind::Declare],
            true,
            ModifierDiagnostic::CannotBeUsedHere,
        ),
    )
}

/// A property that starts with neither a name, `*` nor `[`.
pub open spec fn spec_property_definition_for_struct(
    e: Env,
    s: PState,
    start: u32,
    ms: Seq<crate::modifiers::Modifier>,
    decorators: Seq<NodeId>,
) -> (NodeId, PState) {
    let ((name, computed), s1) = spec_property_name(e, s);
    let (optional_span, s2) = spec_optional_mark(e, s1);
    let (definite, s3) = eat(e, s2, Kind::Bang);
    let s4 = check_optional_definite(s3, optional_span, definite);
    spec_property_declaration_for_struct(e, s4, start, name, computed, optional_span, definite, ms, decorators)
}

/// A struct element: decorators, modifiers, then an accessor, a method or a
/// property.
#[verifier::opaque]
pub open spec fn spec_struct_element(e: Env, d: int, s: PState) -> (NodeId, PState) {
    let start = start_of(e, s);
    let (decorators, s1) = spec_decorators(e, s);
    let (ms, s2) = spec_modifiers(e, s1, true);
    let s3 = spec_verify_modifiers(
        s2,
        ms,
        seq![ModifierKind::Export],
        true,
        ModifierDiagnostic::CannotAppearOnClassElements,
    );
    let def_type = if modifiers_contain(ms, ModifierKind::Abstract) {
        MethodDefinitionType::TSAbstractMethodDefinition
    } else {
        MethodDefinitionType::MethodDefinition
    };
    let (is_get, s4) = spec_contextual_modifier(e, s3, Kind::GetKeyword);
    if is_get {
        spec_struct_accessor_declaration(e, d, s4, start, def_type, MethodDefinitionKind::Getter, ms, decorators)
    } else {
        let (is_set, s5) = spec_contextual_modifier(e, s4, Kind::SetKeyword);
        if is_set {
            spec_struct_accessor_declaration(e, d, s5, start, def_type, MethodDefinitionKind::Setter, ms, decorators)
        } else if kind_is_identifier_or_keyword(cur_kind(e, s5)) || at(e, s5, Kind::Star) || at(e, s5, Kind::LBrack) {
            spec_property_or_method_declaration_for_struct(e, d, s5, start, def_type, ms, decorators)
        } else {
            spec_property_definition_for_struct(e, s5, start, ms, decorators)
        }
    }
}

/// Consumes `;` tokens.
pub open spec fn skip_semicolons(e: Env, s: PState) -> PState
    decreases e.toks.len() - s.pos,
{
    let (ate, s1) = eat(e, s, Kind::Semicolon);
    if ate && s.pos < s1.pos <= e.toks.len() { skip_semicolons(e, s1) } else { s1 }
}

/// The elements of a body up to `}`.  Empty elements (`;`) are skipped; `;`s
/// just before `}` end the list.  `annotation` selects annotation elements
/// (properties only) over struct elements.
pub open spec fn spec_body_elements(e: Env, d: int, s: PState, annotation: bool) -> (Seq<NodeId>, PState)
    decreases e.toks.len() - s.pos,
{
    if at(e, s, Kind::RCurly) || s.fatal {
        (Seq::empty(), s)
    } else {
        let (ate, s1) = eat(e, s, Kind::Semicolon);
        let s2 = if ate { skip_semicolons(e, s1) } else { s1 };
        if ate && at(e, s2, Kind::RCurly) {
            (Seq::empty(), s2)
        } else {
            let (el, s3) = if annotation { spec_annotation_element(e, s2) } else { spec_struct_element(e, d, s2) };
            if s.pos < s3.pos <= e.toks.len() {
                let (rest, s4) = spec_body_elements(e, d, s3, annotation);
                (seq![el] + rest, s4)
            } else {
                (seq![el], s3)
            }
        }
    }
}

/// A struct body `{ element* }`, or an annotation body.
pub open spec fn spec_body(e: Env, d: int, s: PState, annotation: bool) -> (NodeId, PState) {
    let start = start_of(e, s);
    let s1 = expect(e, s, Kind::LCurly);
    let (els, s2) = if s.pos < s1.pos <= e.toks.len() {
        spec_body_elements(e, d, s1, annotation)
    } else {
        (Seq::empty(), s1)
    };
    let s3 = expect(e, s2, Kind::RCurly);
    let (l, s4) = push_list(s3, els);
    let span = end_span(s3, start);
    push_node(s4, if annotation { Node::AnnotationBody { span, body: l } } else { Node::StructBody { span, body: l } })
}

/// An annotation element: a property with decorators, modifiers, name, an
/// optional `?`, type annotation (TypeScript) and default value.  The `?` is
/// accepted but not recorded: an annotation element is never marked
/// optional (nor definite).
#[verifier::opaque]
pub open spec fn spec_annotation_element(e: Env, s: PState) -> (NodeId, PState) {
    let start = start_of(e, s);
    let (decorators, s1) = spec_decorators(e, s);
    let (ms, s2) = spec_modifiers(e, s1, true);
    let s3 = spec_verify_modifiers(
        s2,
        ms,
        seq![ModifierKind::Export],
        true,
        ModifierDiagnostic::CannotAppearOnClassElements,
    );
    let ((name, computed), s4) = spec_property_name(e, s3);
    let s5 = spec_optional_mark(e, s4).1;
    spec_property_declaration_for_struct(e, s5, start, name, computed, None, false, ms, decorators)
}

// ---------------------------------------------------------------------------
// Declarations.

/// How a statement is nested: in a statement list, or as the single body of
/// an `if`, a label, or a loop.
#[derive(Clone, Copy, Debug, PartialEq, Eq, Structural)]
pub enum StatementContext {
    If,
    Label,
    Do,
    While,
    With,
    For,
    StatementList,
}

impl StatementContext {
    pub fn is_single_statement(&self) -> (r: bool)
        ensures
            r == (*self != StatementContext::StatementList),
    {
        !matches!(self, StatementContext::StatementList)
    }
}

/// The start of the first decorator, if any.
pub open spec fn first_decorator_start(nodes: Seq<Node>, decorators: Seq<NodeId>) -> Option<u32> {
    if decorators.len() > 0 && decorators[0] < nodes.len() {
        match nodes[decorators[0] as int] {
            Node::Decorator { span, .. } => Some(span.start),
            _ => None,
        }
    } else {
        None
    }
}

/// The declaration's name: a binding identifier, or an unexpected token.
pub open spec fn spec_declaration_name(e: Env, s: PState) -> (NodeId, PState) {
    if kind_is_binding_identifier(cur_kind(e, s)) {
        spec_identifier(e, s, IdentRole::Binding)
    } else {
        unexpected(e, s)
    }
}

/// `struct Name<T> { ... }` from the `struct` keyword.  The span starts at
/// the first decorator when there is one, else at `start`.
pub open spec fn spec_struct_declaration(
    e: Env,
    d: int,
    s: PState,
    start: u32,
    ms: Seq<crate::modifiers::Modifier>,
    decorators: Seq<NodeId>,
) -> (NodeId, PState) {
    let s1 = bump(e, s);
    let start = match first_decorator_start(s1.nodes, decorators) {
        Some(st) => st,
        None => start,
    };
    let (id, s2) = spec_declaration_name(e, s1);
    let (tp, s3) = if e.is_ts { spec_type_parameters(e, s2) } else { (None, s2) };
    let (body, s4) = spec_body(e, d, s3, false);
    let s5 = spec_verify_modifiers(
        s4,
        ms,
        seq![ModifierKind::Declare, ModifierKind::Abstract],
        false,
        ModifierDiagnostic::CannotBeUsedHere,
    );
    let (dl, s6) = push_list(s5, decorators);
    push_node(
        s6,
        Node::StructStatement {
            span: end_span(s5, start),
            decorators: dl,
            id,
            type_parameters: tp,
            body,
            declare: modifiers_contain(ms, ModifierKind::Declare),
        },
    )
}

/// `interface Name { ... }` after the `@` of `@interface`.
pub open spec fn spec_annotation_declaration(
    e: Env,
    d: int,
    s: PState,
    start: u32,
    ms: Seq<crate::modifiers::Modifier>,
    decorators: Seq<NodeId>,
) -> (NodeId, PState) {
    let s1 = if at(e, s, Kind::Interface) { bump(e, s) } else { add_fatal(s, unexpected_diagnostic(e, s)) };
    let (id, s2) = spec_declaration_name(e, s1);
    let (body, s3) = spec_body(e, d, s2, true);
    let s4 = spec_verify_modifiers(
        s3,
        ms,
        seq![ModifierKind::Declare, ModifierKind::Abstract],
        false,
        ModifierDiagnostic::CannotBeUsedHere,
    );
    let (dl, s5) = push_list(s4, decorators);
    push_node(
        s5,
        Node::AnnotationDeclaration {
            span: end_span(s4, start),
            decorators: dl,
            id,
            body,
            declare: modifiers_contain(ms, ModifierKind::Declare),
        },
    )
}

/// The start of declaration `decl` and of its body.
pub open spec fn declaration_and_body_starts(nodes: Seq<Node>, decl: NodeId) -> Option<(u32, u32)> {
    if decl < nodes.len() {
        match nodes[decl as int] {
            Node::StructStatement { span, body, .. } | Node::AnnotationDeclaration { span, body, .. } => {
                if body < nodes.len() {
                    match nodes[body as int] {
                        Node::StructBody { span: bspan, .. } | Node::AnnotationBody { span: bspan, .. } =>
                            Some((span.start, bspan.start)),
                        _ => None,
                    }
                } else {
                    None
                }
            },
            _ => None,
        }
    } else {
        None
    }
}

/// A declaration in a single-statement position is reported, over the range
/// from its start to the start of its body.
pub open spec fn check_declaration_context(s: PState, stmt_ctx: StatementContext, decl: NodeId) -> PState {
    if stmt_ctx != StatementContext::StatementList {
        match declaration_and_body_starts(s.nodes, decl) {
            Some((a, b)) => add_error(
                s,
                Diagnostic { kind: DiagnosticKind::ClassDeclaration, span: Span { start: a, end: b } },
            ),
            None => s,
        }
    } else {
        s
    }
}

/// A struct statement: the declaration, reported when it stands where only a
/// single statement may.
pub open spec fn spec_struct_statement(
    e: Env,
    d: int,
    s: PState,
    start: u32,
    stmt_ctx: StatementContext,
    ms: Seq<crate::modifiers::Modifier>,
    decorators: Seq<NodeId>,
) -> (NodeId, PState) {
    let (decl, s1) = spec_struct_declaration(e, d, s, start, ms, decorators);
    (decl, check_declaration_context(s1, stmt_ctx, decl))
}

/// An annotation statement: as [`spec_struct_statement`], for `@interface`.
pub open spec fn spec_annotation_statement(
    e: Env,
    d: int,
    s: PState,
    start: u32,
    stmt_ctx: StatementContext,
    ms: Seq<crate::modifiers::Modifier>,
    decorators: Seq<NodeId>,
) -> (NodeId, PState) {
    let (decl, s1) = spec_annotation_declaration(e, d, s, start, ms, decorators);
    (decl, check_declaration_context(s1, stmt_ctx, decl))
}

impl ParserImpl {
    fn token_named(&self, t: usize, dsl_decorator: bool) -> (r: bool)
        ensures
            r == token_named(self.tokens@, t as int, dsl_decorator),
    {
        if t >= self.tokens.len() {
            return false;
        }
        let text = &self.tokens[t].text;
        if dsl_decorator {
            text_is(text, "Builder") || text_is(text, "LocalBuilder") || text_is(text, "Extend")
                || text_is(text, "AnimatableExtend") || text_is(text, "Styles")
        } else {
            text_is(text, "build") || text_is(text, "pageTransition")
        }
    }

    /// Whether the decorator expression `expression` is an ArkUI DSL
    /// decorator (`Builder`, `LocalBuilder`, `Extend`, `AnimatableExtend`,
    /// `Styles`), possibly called or reached through a member access.
    pub fn is_arkui_dsl_decorator(&self, expression: NodeId) -> (r: bool)
        ensures
            r == spec_is_arkui_dsl_decorator(self.tokens@, self.nodes@, expression as int),
        decreases expression,
    {
        if expression >= self.nodes.len() {
            return false;
        }
        match self.nodes[expression] {
            Node::IdentifierReference { name_token, .. } => self.token_named(name_token, true),
            Node::CallExpression { callee, .. } => {
                if callee < expression {
                    self.is_arkui_dsl_decorator(callee)
                } else {
                    false
                }
            },
            Node::StaticMemberExpression { property, .. } => {
                if property < self.nodes.len() {
                    match self.nodes[property] {
                        Node::IdentifierName { name_token, .. } => self.token_named(name_token, true),
                        _ => false,
                    }
                } else {
                    false
                }
            },
            _ => false,
        }
    }

    /// Whether any of the decorators enables the ArkUI DSL.
    pub fn decorators_enable_arkui_dsl(&self, decorators: &[NodeId]) -> (r: bool)
        ensures
            r == spec_decorators_enable_arkui_dsl(self.tokens@, self.nodes@, decorators@),
    {
        let mut i: usize = 0;
        while i < decorators.len()
            invariant
                i <= decorators.len(),
                forall|j: int| 0 <= j < i ==> !decorator_enables_arkui_dsl(self.tokens@, self.nodes@, #[trigger] decorators@[j]),
            decreases decorators.len() - i,
        {
            let d = decorators[i];
            if d < self.nodes.len() {
                match self.nodes[d] {
                    Node::Decorator { expression, .. } => {
                        if self.is_arkui_dsl_decorator(expression) {
                            assert(decorator_enables_arkui_dsl(self.tokens@, self.nodes@, decorators@[i as int]));
                            return true;
                        }
                    },
                    _ => {},
                }
            }
            i = i + 1;
        }
        false
    }

    fn key_names_dsl_method(&self, key: NodeId) -> (r: bool)
        ensures
            r == key_names_dsl_method(self.tokens@, self.nodes@, key),
    {
        if key >= self.nodes.len() {
            return false;
        }
        match self.nodes[key] {
            Node::IdentifierName { name_token, .. } => self.token_named(name_token, false),
            Node::StringLiteralKey { token, .. } => self.token_named(token, false),
            _ => false,
        }
    }

    fn parse_optional_mark(&mut self) -> (r: Option<Span>)
        requires
            old(self).wf(),
        ensures
            final(self).advanced_from(old(self)),
            (r, final(self).state()) == spec_optional_mark(old(self).env(), old(self).state()),
    {
        if self.at(Kind::Question) {
            let span = self.cur_token().span;
            self.bump_any();
            Some(span)
        } else {
            None
        }
    }

    fn check_optional_definite(&mut self, optional_span: Option<Span>, definite: bool)
        requires
            old(self).wf(),
        ensures
            final(self).advanced_from(old(self)),
            final(self).state() == check_optional_definite(old(self).state(), optional_span, definite),
    {
        if definite {
            if let Some(sp) = optional_span {
                let span = span_expand_right(sp, 1);
                self.error(Diagnostic { kind: DiagnosticKind::OptionalDefiniteProperty, span });
            }
        }
    }

    /// Parses a property declaration for a struct once its name and marks
    /// are parsed.
    #[verifier::rlimit(50)]
    #[verifier::spinoff_prover]
    pub fn parse_property_declaration_for_struct(
        &mut self,
        start: u32,
        name: NodeId,
        computed: bool,
        optional_span: Option<Span>,
        definite: bool,
        modifiers: &Modifiers,
        decorators: Vec<NodeId>,
    ) -> (id: NodeId)
        requires
            old(self).wf(),
            name < old(self).nodes.len(),
            below(decorators@, old(self).nodes.len() as int),
        ensures
            final(self).advanced_from(old(self)),
            id < final(self).nodes.len(),
            (id, final(self).state()) == spec_property_declaration_for_struct(
                old(self).env(), old(self).state(), start, name, computed, optional_span, definite,
                modifiers.list@, decorators@,
            ),
    {
        let optional = optional_span.is_some();
        let type_annotation = if self.is_ts && self.at(Kind::Colon) {
            self.bump_any();
            Some(self.parse_ts_type(RunMode::PropertyType))
        } else {
            None
        };
        let value = if self.at(Kind::Eq) {
            self.bump_any();
            Some(self.parse_expr())
        } else {
            None
        };
        // The semicolon is optional in struct bodies.
        self.eat(Kind::Semicolon);
        let span = self.end_span(start);
        let dl = self.push_list(decorators);
        self.push_node(
            Node::PropertyDefinition {
                span,
                def_type: PropertyDefinitionType::PropertyDefinition,
                decorators: dl,
                key: name,
                type_annotation,
                value,
                computed,
                is_static: modifiers.contains(ModifierKind::Static),
                declare: false,
                is_override: modifiers.contains(ModifierKind::Override),
                optional,
                definite,
                readonly: modifiers.contains(ModifierKind::Readonly),
                accessibility: modifiers.accessibility(),
            },
        )
    }

    /// Parses a method of a struct once its name is parsed; `build`,
    /// `pageTransition` and DSL-decorated methods of ArkUI sources are parsed
    /// in the ArkUI DSL context.
    #[verifier::rlimit(50)]
    #[verifier::spinoff_prover]
    pub fn parse_method_declaration_for_struct(
        &mut self,
        start: u32,
        def_type: MethodDefinitionType,
        generator: bool,
        name: NodeId,
        computed: bool,
        optional: bool,
        modifiers: &Modifiers,
        decorators: Vec<NodeId>,
    ) -> (id: NodeId)
        requires
            old(self).wf(),
            name < old(self).nodes.len(),
            below(decorators@, old(self).nodes.len() as int),
        ensures
            final(self).advanced_from(old(self)),
            // The DSL depth is back where it was, whether or not the method
            // was parsed as ArkUI DSL.
            final(self).depth() == old(self).depth(),
            progressed(old(self).state(), final(self).state()),
            id < final(self).nodes.len(),
            (id, final(self).state()) == spec_method_declaration_for_struct(
                old(self).env(), old(self).depth(), old(self).state(), start, def_type, generator,
                name, computed, optional, modifiers.list@, decorators@,
            ),
    {
        let is_arkui_dsl_method = self.is_arkui
            && ((!computed && self.key_names_dsl_method(name))
                || self.decorators_enable_arkui_dsl(decorators.as_slice()));
        let is_async = modifiers.contains(ModifierKind::Async);
        let value = if is_arkui_dsl_method {
            let ghost s0 = self.state();
            let entered = self.enter_arkui_dsl();
            let v = self.parse_method(is_async, generator);
            self.leave_arkui_dsl(entered);
            proof {
                if !entered {
                    law_only_dsl_membership_matters(self.env(), self.depth(), self.depth() + 1, s0, 0, is_async, generator);
                }
            }
            v
        } else {
            self.parse_method(is_async, generator)
        };
        let span = self.end_span(start);
        let dl = self.push_list(decorators);
        self.push_node(
            Node::MethodDefinition {
                span,
                def_type,
                decorators: dl,
                key: name,
                value,
                kind: MethodDefinitionKind::Method,
                computed,
                is_static: modifiers.contains(ModifierKind::Static),
                is_override: modifiers.contains(ModifierKind::Override),
                optional,
                accessibility: modifiers.accessibility(),
            },
        )
    }

    /// Parses a struct element that starts with a name, `*` or `[`.
    pub fn parse_property_or_method_declaration_for_struct(
        &mut self,
        start: u32,
        def_type: MethodDefinitionType,
        modifiers: &Modifiers,
        decorators: Vec<NodeId>,
    ) -> (id: NodeId)
        requires
            old(self).wf(),
            below(decorators@, old(self).nodes.len() as int),
        ensures
            final(self).advanced_from(old(self)),
            progressed(old(self).state(), final(self).state()),
            id < final(self).nodes.len(),
            (id, final(self).state()) == spec_property_or_method_declaration_for_struct(
                old(self).env(), old(self).depth(), old(self).state(), start, def_type,
                modifiers.list@, decorators@,
            ),
    {
        let generator = self.eat(Kind::Star);
        let (name, computed) = self.parse_property_name();
        // An optional `?` as in class elements.
        let optional_span = self.parse_optional_mark();
        let optional = optional_span.is_some();
        // A method: a generator, or `(` or `<` follows.
        if generator || self.at(Kind::LParen) || self.at(Kind::LAngle) {
            return self.parse_method_declaration_for_struct(
                start, def_type, generator, name, computed, optional, modifiers, decorators,
            );
        }
        // Otherwise a property.
        let definite = self.eat(Kind::Bang);
        self.check_optional_definite(optional_span, definite);
        self.parse_property_declaration_for_struct(
            start, name, computed, optional_span, definite, modifiers, decorators,
        )
    }

    fn function_params_len(&self, f: NodeId) -> (r: Option<(Span, usize)>)
        ensures
            r == function_params_len(self.nodes@, f),
    {
        if f < self.nodes.len() {
            match self.nodes[f] {
                Node::Function { span, params, .. } => Some((span, params.len)),
                _ => None,
            }
        } else {
            None
        }
    }

    /// A `get` accessor takes no parameters, a `set` accessor exactly one.
    fn check_accessor(&mut self, kind: MethodDefinitionKind, f: NodeId)
        requires
            old(self).wf(),
        ensures
            final(self).advanced_from(old(self)),
            final(self).state() == spec_check_accessor(old(self).state(), kind, f),
    {
        match self.function_params_len(f) {
            Some((span, n)) => {
                if kind == MethodDefinitionKind::Getter && n != 0 {
                    self.error(Diagnostic { kind: DiagnosticKind::GetterParameters, span });
                } else if kind == MethodDefinitionKind::Setter && n != 1 {
                    self.error(Diagnostic { kind: DiagnosticKind::SetterParameters, span });
                }
            },
            None => {},
        }
    }

    /// Parses an accessor declaration (`get` / `set`) of a struct, after its
    /// keyword.
    pub fn parse_struct_accessor_declaration(
        &mut self,
        start: u32,
        def_type: MethodDefinitionType,
        kind: MethodDefinitionKind,
        modifiers: &Modifiers,
        decorators: Vec<NodeId>,
    ) -> (id: NodeId)
        requires
            old(self).wf(),
            below(decorators@, old(self).nodes.len() as int),
        ensures
            final(self).advanced_from(old(self)),
            progressed(old(self).state(), final(self).state()),
            id < final(self).nodes.len(),
            (id, final(self).state()) == spec_struct_accessor_declaration(
                old(self).env(), old(self).depth(), old(self).state(), start, def_type, kind,
                modifiers.list@, decorators@,
            ),
    {
        let (name, computed) = self.parse_property_name();
        let value = self.parse_method(modifiers.contains(ModifierKind::Async), false);
        let span = self.end_span(start);
        let dl = self.push_list(decorators);
        let method_definition = self.push_node(
            Node::MethodDefinition {
                span,
                def_type,
                decorators: dl,
                key: name,
                value,
                kind,
                computed,
                is_static: modifiers.contains(ModifierKind::Static),
                is_override: modifiers.contains(ModifierKind::Override),
                optional: false,
                accessibility: modifiers.accessibility(),
            },
        );
        self.check_accessor(kind, value);
        let allowed = ModifierKinds::all_except(&[ModifierKind::Async, ModifierKind::Declare]);
        assert(allowed.kinds@ == seq![ModifierKind::Async, ModifierKind::Declare]);
        self.verify_modifiers(modifiers, allowed, ModifierDiagnostic::CannotBeUsedHere);
        method_definition
    }

    /// Parses a property of a struct that starts with neither a name, `*`
    /// nor `[`.
    pub fn parse_property_definition_for_struct(
        &mut self,
        start: u32,
        modifiers: &Modifiers,
        decorators: Vec<NodeId>,
    ) -> (id: NodeId)
        requires
            old(self).wf(),
            below(decorators@, old(self).nodes.len() as int),
        ensures
            final(self).advanced_from(old(self)),
            progressed(old(self).state(), final(self).state()),
            id < final(self).nodes.len(),
            (id, final(self).state()) == spec_property_definition_for_struct(
                old(self).env(), old(self).state(), start, modifiers.list@, decorators@,
            ),
    {
        let (name, computed) = self.parse_property_name();
        let optional_span = self.parse_optional_mark();
        let definite = self.eat(Kind::Bang);
        self.check_optional_definite(optional_span, definite);
        self.parse_property_declaration_for_struct(
            start, name, computed, optional_span, definite, modifiers, decorators,
        )
    }

    /// Parses a struct element (property or method).
    pub fn parse_struct_element(&mut self) -> (id: NodeId)
        requires
            old(self).wf(),
        ensures
            final(self).advanced_from(old(self)),
            progressed(old(self).state(), final(self).state()),
            id < final(self).nodes.len(),
            (id, final(self).state()) == spec_struct_element(old(self).env(), old(self).depth(), old(self).state()),
    {
        reveal(spec_struct_element);
        let start = self.start_span();
        let decorators = self.parse_decorators();
        let modifiers = self.parse_modifiers(true);
        let allowed = ModifierKinds::all_except(&[ModifierKind::Export]);
        assert(allowed.kinds@ == seq![ModifierKind::Export]);
        self.verify_modifiers(&modifiers, allowed, ModifierDiagnostic::CannotAppearOnClassElements);
        // Accessors, as in class elements.
        let is_abstract = modifiers.contains(ModifierKind::Abstract);
        let def_type = if is_abstract {
            MethodDefinitionType::TSAbstractMethodDefinition
        } else {
            MethodDefinitionType::MethodDefinition
        };
        if self.parse_contextual_modifier(Kind::GetKeyword) {
            return self.parse_struct_accessor_declaration(
                start, def_type, MethodDefinitionKind::Getter, &modifiers, decorators,
            );
        }
        if self.parse_contextual_modifier(Kind::SetKeyword) {
            return self.parse_struct_accessor_declaration(
                start, def_type, MethodDefinitionKind::Setter, &modifiers, decorators,
            );
        }
        if self.cur_kind().is_identifier_or_keyword() || self.at(Kind::Star) || self.at(Kind::LBrack) {
            return self.parse_property_or_method_declaration_for_struct(
                start, def_type, &modifiers, decorators,
            );
        }
        self.parse_property_definition_for_struct(start, &modifiers, decorators)
    }

    /// Parses an annotation element (a property).
    pub fn parse_annotation_element(&mut self) -> (id: NodeId)
        requires
            old(self).wf(),
        ensures
            final(self).advanced_from(old(self)),
            progressed(old(self).state(), final(self).state()),
            id < final(self).nodes.len(),
            (id, final(self).state()) == spec_annotation_element(old(self).env(), old(self).state()),
    {
        reveal(spec_annotation_element);
        let start = self.start_span();
        let decorators = self.parse_decorators();
        let modifiers = self.parse_modifiers(true);
        let allowed = ModifierKinds::all_except(&[ModifierKind::Export]);
        assert(allowed.kinds@ == seq![ModifierKind::Export]);
        self.verify_modifiers(&modifiers, allowed, ModifierDiagnostic::CannotAppearOnClassElements);
        let (name, computed) = self.parse_property_name();
        // A `?` after the name is accepted; annotation elements are not
        // marked optional.
        let _ = self.parse_optional_mark();
        self.parse_property_declaration_for_struct(start, name, computed, None, false, &modifiers, decorators)
    }

    fn skip_semicolons(&mut self)
        requires
            old(self).wf(),
        ensures
            final(self).advanced_from(old(self)),
            final(self).state() == skip_semicolons(old(self).env(), old(self).state()),
    {
        let ghost e = self.env();
        let ghost s0 = self.state();
        loop
            invariant_except_break
                skip_semicolons(e, s0) == skip_semicolons(e, self.state()),
            invariant
                self.advanced_from(old(self)),
                self.env() == e,
                s0 == old(self).state(),
            ensures
                skip_semicolons(e, s0) == self.state(),
            decreases e.toks.len() - self.pos,
        {
            let before = self.pos;
            let ate = self.eat(Kind::Semicolon);
            if !(ate && before < self.pos) {
                break;
            }
        }
    }

    /// The elements of a struct or annotation body up to `}`.
    fn parse_body_elements(&mut self, annotation: bool) -> (r: Vec<NodeId>)
        requires
            old(self).wf(),
        ensures
            final(self).advanced_from(old(self)),
            at(old(self).env(), final(self).state(), Kind::RCurly) || final(self).state().fatal,
            below(r@, final(self).nodes.len() as int),
            (r@, final(self).state()) == spec_body_elements(old(self).env(), old(self).depth(), old(self).state(), annotation),
    {
        let ghost e = self.env();
        let ghost d = self.depth();
        let ghost s0 = self.state();
        let mut list: Vec<NodeId> = Vec::new();
        loop
            invariant_except_break
                spec_body_elements(e, d, s0, annotation) == (
                    list@ + spec_body_elements(e, d, self.state(), annotation).0,
                    spec_body_elements(e, d, self.state(), annotation).1,
                ),
            invariant
                self.advanced_from(old(self)),
                self.env() == e,
                below(list@, self.nodes.len() as int),
                self.depth() == d,
                s0 == old(self).state(),
            ensures
                spec_body_elements(e, d, s0, annotation) == (list@, self.state()),
                at(e, self.state(), Kind::RCurly) || self.state().fatal,
            decreases e.toks.len() - self.pos,
        {
            if self.at(Kind::RCurly) || self.has_fatal_error() {
                assert(list@ + Seq::<NodeId>::empty() == list@);
                break;
            }
            let before = self.pos;
            // Skip empty elements `;`.
            let ate = self.eat(Kind::Semicolon);
            if ate {
                self.skip_semicolons();
                if self.at(Kind::RCurly) {
                    assert(list@ + Seq::<NodeId>::empty() == list@);
                    break;
                }
            }
            let el = if annotation { self.parse_annotation_element() } else { self.parse_struct_element() };
            let ghost old_list = list@;
            list.push(el);
            if before < self.pos {
                assert(old_list + (seq![el] + spec_body_elements(e, d, self.state(), annotation).0) == list@ + spec_body_elements(e, d, self.state(), annotation).0);
            } else {
                assert(old_list + seq![el] == list@);
                break;
            }
        }
        list
    }

    fn parse_body(&mut self, annotation: bool) -> (id: NodeId)
        requires
            old(self).wf(),
        ensures
            final(self).advanced_from(old(self)),
            id < final(self).nodes.len(),
            (id, final(self).state()) == spec_body(old(self).env(), old(self).depth(), old(self).state(), annotation),
    {
        let start = self.start_span();
        let before = self.pos;
        self.expect(Kind::LCurly);
        let elements = if before < self.pos { self.parse_body_elements(annotation) } else { Vec::new() };
        self.expect(Kind::RCurly);
        let span = self.end_span(start);
        let l = self.push_list(elements);
        if annotation {
            self.push_node(Node::AnnotationBody { span, body: l })
        } else {
            self.push_node(Node::StructBody { span, body: l })
        }
    }

    /// Parses a struct body: its properties and methods.
    pub fn parse_struct_body(&mut self) -> (id: NodeId)
        requires
            old(self).wf(),
        ensures
            final(self).advanced_from(old(self)),
            id < final(self).nodes.len(),
            (id, final(self).state()) == spec_body(old(self).env(), old(self).depth(), old(self).state(), false),
    {
        self.parse_body(false)
    }

    /// Parses an annotation body: its properties.
    pub fn parse_annotation_body(&mut self) -> (id: NodeId)
        requires
            old(self).wf(),
        ensures
            final(self).advanced_from(old(self)),
            id < final(self).nodes.len(),
            (id, final(self).state()) == spec_body(old(self).env(), old(self).depth(), old(self).state(), true),
    {
        self.parse_body(true)
    }

    fn first_decorator_start(&self, decorators: &Vec<NodeId>) -> (r: Option<u32>)
        ensures
            r == first_decorator_start(self.nodes@, decorators@),
    {
        if decorators.len() > 0 && decorators[0] < self.nodes.len() {
            match self.nodes[decorators[0]] {
                Node::Decorator { span, .. } => Some(span.start),
                _ => None,
            }
        } else {
            None
        }
    }

    fn parse_declaration_name(&mut self) -> (id: NodeId)
        requires
            old(self).wf(),
        ensures
            final(self).advanced_from(old(self)),
            progressed(old(self).state(), final(self).state()),
            id < final(self).nodes.len(),
            (id, final(self).state()) == spec_declaration_name(old(self).env(), old(self).state()),
    {
        if self.cur_kind().is_binding_identifier() {
            self.parse_binding_identifier()
        } else {
            self.unexpected()
        }
    }

    /// Parses a struct declaration from its `struct` keyword.
    pub fn parse_struct_declaration(
        &mut self,
        start_span: u32,
        modifiers: &Modifiers,
        decorators: Vec<NodeId>,
    ) -> (id: NodeId)
        requires
            old(self).wf(),
            below(decorators@, old(self).nodes.len() as int),
        ensures
            final(self).advanced_from(old(self)),
            progressed(old(self).state(), final(self).state()),
            id < final(self).nodes.len(),
            (id, final(self).state()) == spec_struct_declaration(
                old(self).env(), old(self).depth(), old(self).state(), start_span, modifiers.list@, decorators@,
            ),
    {
        self.bump_any(); // `struct`
        // The span starts at the first decorator, if any.
        let start = match self.first_decorator_start(&decorators) {
            Some(st) => st,
            None => start_span,
        };
        let id = self.parse_declaration_name();
        let type_parameters = if self.is_ts { self.parse_ts_type_parameters() } else { None };
        let body = self.parse_struct_body();
        let allowed = ModifierKinds::new(&[ModifierKind::Declare, ModifierKind::Abstract]);
        assert(allowed.kinds@ == seq![ModifierKind::Declare, ModifierKind::Abstract]);
        self.verify_modifiers(modifiers, allowed, ModifierDiagnostic::CannotBeUsedHere);
        let span = self.end_span(start);
        let declare = modifiers.contains(ModifierKind::Declare);
        let dl = self.push_list(decorators);
        self.push_node(Node::StructStatement { span, decorators: dl, id, type_parameters, body, declare })
    }

    fn declaration_and_body_starts(&self, decl: NodeId) -> (r: Option<(u32, u32)>)
        ensures
            r == declaration_and_body_starts(self.nodes@, decl),
    {
        if decl >= self.nodes.len() {
            return None;
        }
        let (span, body) = match self.nodes[decl] {
            Node::StructStatement { span, body, .. } => (span, body),
            Node::AnnotationDeclaration { span, body, .. } => (span, body),
            _ => return None,
        };
        if body >= self.nodes.len() {
            return None;
        }
        match self.nodes[body] {
            Node::StructBody { span: bspan, .. } => Some((span.start, bspan.start)),
            Node::AnnotationBody { span: bspan, .. } => Some((span.start, bspan.start)),
            _ => None,
        }
    }

    fn check_declaration_context(&mut self, stmt_ctx: StatementContext, decl: NodeId)
        requires
            old(self).wf(),
        ensures
            final(self).advanced_from(old(self)),
            final(self).state() == check_declaration_context(old(self).state(), stmt_ctx, decl),
    {
        if stmt_ctx.is_single_statement() {
            match self.declaration_and_body_starts(decl) {
                Some((a, b)) => {
                    let span = span_new(a, b);
                    self.error(Diagnostic { kind: DiagnosticKind::ClassDeclaration, span });
                },
                None => {},
            }
        }
    }

    /// Parses a struct statement, from its `struct` keyword; `start_span` is
    /// where the statement started.
    pub fn parse_struct_statement(
        &mut self,
        start_span: u32,
        stmt_ctx: StatementContext,
        modifiers: &Modifiers,
        decorators: Vec<NodeId>,
    ) -> (id: NodeId)
        requires
            old(self).wf(),
            below(decorators@, old(self).nodes.len() as int),
        ensures
            final(self).advanced_from(old(self)),
            progressed(old(self).state(), final(self).state()),
            id < final(self).nodes.len(),
            (id, final(self).state()) == spec_struct_statement(
                old(self).env(), old(self).depth(), old(self).state(), start_span, stmt_ctx,
                modifiers.list@, decorators@,
            ),
    {
        let decl = self.parse_struct_declaration(start_span, modifiers, decorators);
        self.check_declaration_context(stmt_ctx, decl);
        decl
    }

    /// Parses an annotation declaration `interface Name { ... }`, after the
    /// `@` of `@interface`.
    pub fn parse_annotation_declaration(
        &mut self,
        start_span: u32,
        modifiers: &Modifiers,
        decorators: Vec<NodeId>,
    ) -> (id: NodeId)
        requires
            old(self).wf(),
            below(decorators@, old(self).nodes.len() as int),
        ensures
            final(self).advanced_from(old(self)),
            progressed(old(self).state(), final(self).state()),
            id < final(self).nodes.len(),
            (id, final(self).state()) == spec_annotation_declaration(
                old(self).env(), old(self).depth(), old(self).state(), start_span, modifiers.list@, decorators@,
            ),
    {
        // Consume `interface`, which follows the `@`.
        if self.at(Kind::Interface) {
            self.bump_any();
        } else {
            let kind = self.cur_kind();
            let span = self.cur_token().span;
            self.set_fatal_error(Diagnostic { kind: DiagnosticKind::Unexpected(kind), span });
        }
        let id = self.parse_declaration_name();
        let body = self.parse_annotation_body();
        let allowed = ModifierKinds::new(&[ModifierKind::Declare, ModifierKind::Abstract]);
        assert(allowed.kinds@ == seq![ModifierKind::Declare, ModifierKind::Abstract]);
        self.verify_modifiers(modifiers, allowed, ModifierDiagnostic::CannotBeUsedHere);
        let span = self.end_span(start_span);
        let declare = modifiers.contains(ModifierKind::Declare);
        let dl = self.push_list(decorators);
        self.push_node(Node::AnnotationDeclaration { span, decorators: dl, id, body, declare })
    }

    /// Parses an annotation statement `@interface Name { ... }`, after its
    /// `@`; `start_span` is where the `@` started.
    pub fn parse_annotation_statement(
        &mut self,
        start_span: u32,
        stmt_ctx: StatementContext,
        modifiers: &Modifiers,
        decorators: Vec<NodeId>,
    ) -> (id: NodeId)
        requires
            old(self).wf(),
            below(decorators@, old(self).nodes.len() as int),
        ensures
            final(self).advanced_from(old(self)),
            progressed(old(self).state(), final(self).state()),
            id < final(self).nodes.len(),
            (id, final(self).state()) == spec_annotation_statement(
                old(self).env(), old(self).depth(), old(self).state(), start_span, stmt_ctx,
                modifiers.list@, decorators@,
            ),
    {
        let decl = self.parse_annotation_declaration(start_span, modifiers, decorators);
        self.check_declaration_context(stmt_ctx, decl);
        decl
    }
}

} // verus!
