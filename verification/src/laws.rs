//! Properties of the ArkUI grammar that span several parse functions.
use vstd::prelude::*;
use crate::token::{Kind, Token, kind_is_closer, kind_is_control_flow, kind_is_identifier_or_keyword};
use crate::ast::{Node, NodeId};
use crate::arkui::{
    spec_child, spec_child_expression, spec_decorators_enable_arkui_dsl, spec_is_arkui_dsl_decorator,
    spec_is_arkui_dsl_method,
};
use crate::parser::{Env, PState, arena_ok, at, bump, cur_kind, eat, expect, node_ok, peek_kind, start_of};
use crate::grammar::{IdentRole, RunMode, run_from, skip_to, spec_delimited, spec_identifier};
use crate::statements::{
    is_continuation, spec_block_statement, spec_control_parts, spec_control_statement,
    spec_dsl_expression_statement, spec_function, spec_function_body, spec_statement,
    spec_statement_list,
};
use crate::arkui::{spec_children, spec_children_block, spec_component, spec_component_after_args};
use crate::span::Span;

verus! {

/// A called decorator enables the ArkUI DSL exactly when its callee does:
/// `@Extend(Text)` counts as `@Extend`, `@Builder()` as `@Builder`.
pub proof fn law_called_decorator_is_its_callee(toks: Seq<Token>, s: PState, id: int, callee: NodeId)
    requires
        arena_ok(s, toks.len() as int),
        0 <= id < s.nodes.len(),
        s.nodes[id] matches Node::CallExpression { callee: c, .. } && c == callee,
    ensures
        spec_is_arkui_dsl_decorator(toks, s.nodes, id) == spec_is_arkui_dsl_decorator(toks, s.nodes, callee as int),
{
    assert(node_ok(s.nodes[id], id, s.lists, toks.len() as int));
}

/// Only ArkUI sources have DSL methods, and a computed method name never
/// makes a method DSL: only its decorators can.
pub proof fn law_dsl_methods(e: Env, nodes: Seq<Node>, name: NodeId, computed: bool, decorators: Seq<NodeId>)
    ensures
        !e.is_arkui ==> !spec_is_arkui_dsl_method(e, nodes, name, computed, decorators),
        computed ==> (spec_is_arkui_dsl_method(e, nodes, name, computed, decorators)
            == (e.is_arkui && spec_decorators_enable_arkui_dsl(e.toks, nodes, decorators))),
{
}

/// Decorators enable the ArkUI DSL when any one of them does: for two runs
/// of decorators, together they enable it exactly when either run does, in
/// either order.
pub proof fn law_decorators_enable_dsl_when_any_does(
    toks: Seq<Token>,
    nodes: Seq<Node>,
    ds1: Seq<NodeId>,
    ds2: Seq<NodeId>,
)
    ensures
        spec_decorators_enable_arkui_dsl(toks, nodes, ds1 + ds2) == (
            spec_decorators_enable_arkui_dsl(toks, nodes, ds1)
                || spec_decorators_enable_arkui_dsl(toks, nodes, ds2)),
        spec_decorators_enable_arkui_dsl(toks, nodes, ds1 + ds2)
            == spec_decorators_enable_arkui_dsl(toks, nodes, ds2 + ds1),
{
    let a = ds1 + ds2;
    let b = ds2 + ds1;
    if spec_decorators_enable_arkui_dsl(toks, nodes, ds1) {
        let i = choose|i: int| 0 <= i < ds1.len() && crate::arkui::decorator_enables_arkui_dsl(toks, nodes, #[trigger] ds1[i]);
        assert(a[i] == ds1[i]);
        assert(b[ds2.len() + i] == ds1[i]);
    }
    if spec_decorators_enable_arkui_dsl(toks, nodes, ds2) {
        let i = choose|i: int| 0 <= i < ds2.len() && crate::arkui::decorator_enables_arkui_dsl(toks, nodes, #[trigger] ds2[i]);
        assert(a[ds1.len() + i] == ds2[i]);
        assert(b[i] == ds2[i]);
    }
    if spec_decorators_enable_arkui_dsl(toks, nodes, a) {
        let i = choose|i: int| 0 <= i < a.len() && crate::arkui::decorator_enables_arkui_dsl(toks, nodes, #[trigger] a[i]);
        if i < ds1.len() {
            assert(a[i] == ds1[i]);
        } else {
            assert(a[i] == ds2[i - ds1.len()]);
        }
    }
    if spec_decorators_enable_arkui_dsl(toks, nodes, b) {
        let i = choose|i: int| 0 <= i < b.len() && crate::arkui::decorator_enables_arkui_dsl(toks, nodes, #[trigger] b[i]);
        if i < ds2.len() {
            assert(b[i] == ds2[i]);
        } else {
            assert(b[i] == ds1[i - ds2.len()]);
        }
    }
}

/// A child that starts with a name that no `(` follows is an expression, and
/// trying it as a component first leaves no trace: the cursor, the
/// diagnostics and the list arena are as if the expression had been parsed
/// directly; the node arena holds one more node, the unused name.
pub proof fn law_failed_component_attempt_leaves_no_trace(e: Env, d: int, s: PState)
    requires
        0 <= s.pos < e.toks.len(),
        kind_is_identifier_or_keyword(cur_kind(e, s)),
        !kind_is_control_flow(cur_kind(e, s)),
        peek_kind(e, s) != Kind::LParen,
    ensures
        ({
            let tried = spec_child(e, d, s).1;
            let direct = spec_child_expression(e, s).1;
            &&& tried.pos == direct.pos
            &&& tried.prev_end == direct.prev_end
            &&& tried.errors == direct.errors
            &&& tried.fatal == direct.fatal
            &&& tried.lists == direct.lists
            &&& tried.nodes.len() == direct.nodes.len() + 1
        }),
{
    assert(s.errors.take(s.errors.len() as int) == s.errors);
}


/// Two DSL depths that agree on whether the parser is inside the DSL.
pub open spec fn same_dsl(d1: int, d2: int) -> bool {
    d1 >= 0 && d2 >= 0 && (d1 > 0) == (d2 > 0)
}

proof fn depth_statement_list(e: Env, d1: int, d2: int, s: PState)
    requires
        same_dsl(d1, d2),
    ensures
        spec_statement_list(e, d1, s) == spec_statement_list(e, d2, s),
    decreases e.toks.len() - s.pos, 6int,
{
    if !(at(e, s, Kind::RCurly) || at(e, s, Kind::Eof) || s.fatal) {
        depth_statement(e, d1, d2, s);
        let (x, s1) = spec_statement(e, d1, s);
        if s.pos < s1.pos <= e.toks.len() {
            depth_statement_list(e, d1, d2, s1);
        }
    }
}

proof fn depth_block_statement(e: Env, d1: int, d2: int, s: PState)
    requires
        same_dsl(d1, d2),
    ensures
        spec_block_statement(e, d1, s) == spec_block_statement(e, d2, s),
    decreases e.toks.len() - s.pos, 1int,
{
    let s1 = expect(e, s, Kind::LCurly);
    if s.pos < s1.pos <= e.toks.len() {
        depth_statement_list(e, d1, d2, s1);
    }
}

proof fn depth_statement(e: Env, d1: int, d2: int, s: PState)
    requires
        same_dsl(d1, d2),
    ensures
        spec_statement(e, d1, s) == spec_statement(e, d2, s),
    decreases e.toks.len() - s.pos, 5int,
{
    let k = cur_kind(e, s);
    if k == Kind::LCurly {
        depth_block_statement(e, d1, d2, s);
    } else if k == Kind::Semicolon {
    } else if kind_is_control_flow(k) {
        depth_control_statement(e, d1, d2, s);
    } else if d1 > 0 && k == Kind::Ident && peek_kind(e, s) == Kind::LParen {
        depth_dsl_expression_statement(e, d1, d2, s);
    }
}

proof fn depth_control_statement(e: Env, d1: int, d2: int, s: PState)
    requires
        same_dsl(d1, d2),
    ensures
        spec_control_statement(e, d1, s) == spec_control_statement(e, d2, s),
    decreases e.toks.len() - s.pos, 3int,
{
    let s1 = bump(e, s);
    if s.pos < s1.pos <= e.toks.len() {
        depth_control_parts(e, d1, d2, s1, cur_kind(e, s));
    }
}

proof fn depth_control_parts(e: Env, d1: int, d2: int, s: PState, keyword: Kind)
    requires
        same_dsl(d1, d2),
    ensures
        spec_control_parts(e, d1, s, keyword) == spec_control_parts(e, d2, s, keyword),
    decreases e.toks.len() - s.pos, 2int,
{
    if at(e, s, Kind::LCurly) {
        depth_block_statement(e, d1, d2, s);
        let (b, s1) = spec_block_statement(e, d1, s);
        if is_continuation(keyword, cur_kind(e, s1)) && s.pos < s1.pos <= e.toks.len() {
            depth_control_parts(e, d1, d2, s1, keyword);
        }
    } else if at(e, s, Kind::Semicolon) {
    } else if at(e, s, Kind::Eof) || kind_is_closer(cur_kind(e, s)) || s.fatal {
    } else {
        let j = run_from(e, s, RunMode::Header);
        if j > s.pos {
            let s1 = skip_to(e, s, j);
            let s2 = crate::parser::push_node(
                s1,
                Node::TokenRun { span: crate::parser::end_span(s1, start_of(e, s)) },
            ).1;
            if (at(e, s2, Kind::LCurly) || at(e, s2, Kind::Semicolon)) && s.pos < s2.pos <= e.toks.len() {
                depth_control_parts(e, d1, d2, s2, keyword);
            }
        }
    }
}

proof fn depth_dsl_expression_statement(e: Env, d1: int, d2: int, s: PState)
    requires
        same_dsl(d1, d2),
    ensures
        spec_dsl_expression_statement(e, d1, s) == spec_dsl_expression_statement(e, d2, s),
    decreases e.toks.len() - s.pos, 4int,
{
    let (callee, s1) = spec_identifier(e, s, IdentRole::Reference);
    let s2 = expect(e, s1, Kind::LParen);
    let (args, s3) = spec_delimited(e, s2, Kind::RParen, false, true);
    let s4 = expect(e, s3, Kind::RParen);
    if at(e, s4, Kind::LCurly) && s.pos < s4.pos <= e.toks.len() {
        depth_component_after_args(e, d1, d2, s4, start_of(e, s), callee, None, args);
    }
}

proof fn depth_component_after_args(
    e: Env,
    d1: int,
    d2: int,
    s: PState,
    start: u32,
    callee: NodeId,
    type_arguments: Option<Span>,
    args: Seq<NodeId>,
)
    requires
        same_dsl(d1, d2),
    ensures
        spec_component_after_args(e, d1, s, start, callee, type_arguments, args)
            == spec_component_after_args(e, d2, s, start, callee, type_arguments, args),
    decreases e.toks.len() - s.pos, 2int,
{
    depth_children_block(e, d1, d2, s);
}

proof fn depth_children_block(e: Env, d1: int, d2: int, s: PState)
    requires
        d1 >= 0,
        d2 >= 0,
    ensures
        spec_children_block(e, d1, s) == spec_children_block(e, d2, s),
    decreases e.toks.len() - s.pos, 1int,
{
    let (ate, s1) = eat(e, s, Kind::LCurly);
    if ate && s.pos < s1.pos <= e.toks.len() {
        depth_children(e, d1 + 1, d2 + 1, s1);
    }
}

proof fn depth_children(e: Env, d1: int, d2: int, s: PState)
    requires
        same_dsl(d1, d2),
    ensures
        spec_children(e, d1, s) == spec_children(e, d2, s),
    decreases e.toks.len() - s.pos, 7int,
{
    if !(at(e, s, Kind::RCurly) || s.fatal) {
        depth_child(e, d1, d2, s);
        let (c, s1) = spec_child(e, d1, s);
        let s2 = eat(e, s1, Kind::Semicolon).1;
        if s.pos < s2.pos <= e.toks.len() {
            depth_children(e, d1, d2, s2);
        }
    }
}

proof fn depth_child(e: Env, d1: int, d2: int, s: PState)
    requires
        same_dsl(d1, d2),
    ensures
        spec_child(e, d1, s) == spec_child(e, d2, s),
    decreases e.toks.len() - s.pos, 6int,
{
    let k = cur_kind(e, s);
    if kind_is_control_flow(k) {
        depth_statement(e, d1, d2, s);
    } else if kind_is_identifier_or_keyword(k) {
        let (id, s1) = spec_identifier(e, s, IdentRole::Reference);
        if at(e, s1, Kind::LParen) && s.pos < s1.pos <= e.toks.len() {
            depth_component(e, d1, d2, s1, id);
        }
    }
}

proof fn depth_component(e: Env, d1: int, d2: int, s: PState, callee: NodeId)
    requires
        same_dsl(d1, d2),
    ensures
        spec_component(e, d1, s, callee) == spec_component(e, d2, s, callee),
    decreases e.toks.len() - s.pos, 3int,
{
    let (targs, args, s4) = crate::arkui::spec_component_head(e, s);
    crate::arkui::lemma_component_head_forward(e, s);
    depth_component_after_args(e, d1, d2, s4, start_of(e, s), callee, targs, args);
}

/// Only whether the parser is inside the ArkUI DSL matters, not how deeply
/// it is nested: statements, children, components and functions parse the
/// same at any two depths that agree on that.
pub proof fn law_only_dsl_membership_matters(
    e: Env,
    d1: int,
    d2: int,
    s: PState,
    callee: NodeId,
    is_async: bool,
    generator: bool,
)
    requires
        d1 >= 0,
        d2 >= 0,
        (d1 > 0) == (d2 > 0),
    ensures
        spec_statement(e, d1, s) == spec_statement(e, d2, s),
        spec_statement_list(e, d1, s) == spec_statement_list(e, d2, s),
        spec_child(e, d1, s) == spec_child(e, d2, s),
        spec_children(e, d1, s) == spec_children(e, d2, s),
        spec_component(e, d1, s, callee) == spec_component(e, d2, s, callee),
        spec_function(e, d1, s, is_async, generator) == spec_function(e, d2, s, is_async, generator),
{
    depth_statement(e, d1, d2, s);
    depth_statement_list(e, d1, d2, s);
    depth_child(e, d1, d2, s);
    depth_children(e, d1, d2, s);
    depth_component(e, d1, d2, s, callee);
    // The function's body is a statement list after `{`.
    let (tp, s1) = if e.is_ts { crate::grammar::spec_type_parameters(e, s) } else { (None, s) };
    let s2 = expect(e, s1, Kind::LParen);
    let (params, s3) = spec_delimited(e, s2, Kind::RParen, true, true);
    let s4 = expect(e, s3, Kind::RParen);
    let (rt, s5) = if e.is_ts && at(e, s4, Kind::Colon) {
        let (t, s) = crate::grammar::spec_type_run(e, bump(e, s4), RunMode::ReturnType);
        (Some(t), s)
    } else {
        (None, s4)
    };
    if at(e, s5, Kind::LCurly) {
        let b1 = expect(e, s5, Kind::LCurly);
        if s5.pos < b1.pos <= e.toks.len() {
            depth_statement_list(e, d1, d2, b1);
        }
        assert(spec_function_body(e, d1, s5) == spec_function_body(e, d2, s5));
    }
}

/// The children of a component parse alike at any depth: they are always
/// inside the ArkUI DSL.
pub proof fn law_children_parse_alike_at_any_depth(e: Env, d1: int, d2: int, s: PState)
    requires
        d1 >= 0,
        d2 >= 0,
    ensures
        spec_children_block(e, d1, s) == spec_children_block(e, d2, s),
{
    depth_children_block(e, d1, d2, s);
}

} // verus!
