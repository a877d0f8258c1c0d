//! Statements and functions.  Inside the ArkUI DSL (a `build` method, a
//! `@Builder` function, the children of a component), a call that a block
//! follows, `Column() { ... }`, is an ArkUI component; other statements keep
//! their expressions as source ranges.
use vstd::prelude::*;
use crate::token::{Kind, kind_is_closer, kind_is_control_flow};
use crate::ast::{Node, NodeId};
use crate::grammar::{
    IdentRole, RunMode, run_from, skip_to, spec_delimited, spec_identifier, spec_run_node,
    spec_type_parameters, spec_type_run,
};
use crate::arkui::spec_component_after_args;
use crate::parser::{
    below, progressed,
    Env, PState, ParserImpl, at, bump, cur_kind, cur_span, eat, end_span, expect, peek_kind,
    push_list, push_node, rewind_to, start_of,
};

verus! {

/// Statements up to a `}` (not consumed) or the end of input.
pub open spec fn spec_statement_list(e: Env, d: int, s: PState) -> (Seq<NodeId>, PState)
    decreases e.toks.len() - s.pos, 6int,
{
    if at(e, s, Kind::RCurly) || at(e, s, Kind::Eof) || s.fatal {
        (Seq::empty(), s)
    } else {
        let (x, s1) = spec_statement(e, d, s);
        if s.pos < s1.pos <= e.toks.len() {
            let (rest, s2) = spec_statement_list(e, d, s1);
            (seq![x] + rest, s2)
        } else {
            (seq![x], s1)
        }
    }
}

/// `{ statements }`.
pub open spec fn spec_block_statement(e: Env, d: int, s: PState) -> (NodeId, PState)
    decreases e.toks.len() - s.pos, 1int,
{
    let start = start_of(e, s);
    let s1 = expect(e, s, Kind::LCurly);
    let (body, s2) = if s.pos < s1.pos <= e.toks.len() {
        spec_statement_list(e, d, s1)
    } else {
        (Seq::empty(), s1)
    };
    let s3 = expect(e, s2, Kind::RCurly);
    let (l, s4) = push_list(s3, body);
    push_node(s4, Node::BlockStatement { span: end_span(s3, start), body: l })
}

/// A statement; `d` is the ArkUI DSL nesting depth.
pub open spec fn spec_statement(e: Env, d: int, s: PState) -> (NodeId, PState)
    decreases e.toks.len() - s.pos, 5int,
{
    let k = cur_kind(e, s);
    if k == Kind::LCurly {
        spec_block_statement(e, d, s)
    } else if k == Kind::Semicolon {
        push_node(bump(e, s), Node::EmptyStatement { span: cur_span(e, s) })
    } else if kind_is_control_flow(k) {
        spec_control_statement(e, d, s)
    } else if d > 0 && k == Kind::Ident && peek_kind(e, s) == Kind::LParen {
        spec_dsl_expression_statement(e, d, s)
    } else {
        spec_expression_statement(e, s)
    }
}

/// An expression statement whose expression is kept as a source range.
pub open spec fn spec_expression_statement(e: Env, s: PState) -> (NodeId, PState) {
    let (x, s1) = spec_run_node(e, s, RunMode::Expression, false);
    let s2 = eat(e, s1, Kind::Semicolon).1;
    push_node(s2, Node::ExpressionStatement { span: end_span(s2, start_of(e, s)), expression: x })
}

/// Keywords that continue a control statement after a block: `else`,
/// `catch`, `finally`, and `while` after `do`.
pub open spec fn is_continuation(keyword: Kind, k: Kind) -> bool {
    k == Kind::Else || k == Kind::Catch || k == Kind::Finally || (keyword == Kind::Do && k == Kind::While)
}

/// A control statement: its keyword, then heads and blocks.
pub open spec fn spec_control_statement(e: Env, d: int, s: PState) -> (NodeId, PState)
    decreases e.toks.len() - s.pos, 3int,
{
    let keyword = cur_kind(e, s);
    let s1 = bump(e, s);
    let (parts, s2) = if s.pos < s1.pos <= e.toks.len() {
        spec_control_parts(e, d, s1, keyword)
    } else {
        (Seq::empty(), s1)
    };
    let (l, s3) = push_list(s2, parts);
    push_node(s3, Node::ControlStatement { span: end_span(s2, start_of(e, s)), keyword, parts: l })
}

/// The parts of a control statement after its keyword: runs of tokens
/// (`(cond)`, `else`, `return value`) and blocks.  The statement ends after a
/// block that no continuation keyword follows, at a `;` (consumed), at a
/// closing bracket, or after a run that neither `{` nor `;` follows.
pub open spec fn spec_control_parts(e: Env, d: int, s: PState, keyword: Kind) -> (Seq<NodeId>, PState)
    decreases e.toks.len() - s.pos, 2int,
{
    if at(e, s, Kind::LCurly) {
        let (b, s1) = spec_block_statement(e, d, s);
        if is_continuation(keyword, cur_kind(e, s1)) && s.pos < s1.pos <= e.toks.len() {
            let (rest, s2) = spec_control_parts(e, d, s1, keyword);
            (seq![b] + rest, s2)
        } else {
            (seq![b], s1)
        }
    } else if at(e, s, Kind::Semicolon) {
        (Seq::empty(), bump(e, s))
    } else if at(e, s, Kind::Eof) || kind_is_closer(cur_kind(e, s)) || s.fatal {
        (Seq::empty(), s)
    } else {
        let j = run_from(e, s, RunMode::Header);
        if j <= s.pos {
            (Seq::empty(), s)
        } else {
            let s1 = skip_to(e, s, j);
            let (r, s2) = push_node(s1, Node::TokenRun { span: end_span(s1, start_of(e, s)) });
            if (at(e, s2, Kind::LCurly) || at(e, s2, Kind::Semicolon)) && s.pos < s2.pos <= e.toks.len() {
                let (rest, s3) = spec_control_parts(e, d, s2, keyword);
                (seq![r] + rest, s3)
            } else {
                (seq![r], s2)
            }
        }
    }
}

/// Inside the DSL, `Name(args) { ... }` is an ArkUI component; without the
/// block the statement is parsed again as an expression statement.
pub open spec fn spec_dsl_expression_statement(e: Env, d: int, s: PState) -> (NodeId, PState)
    decreases e.toks.len() - s.pos, 4int,
{
    let start = start_of(e, s);
    let (callee, s1) = spec_identifier(e, s, IdentRole::Reference);
    let s2 = expect(e, s1, Kind::LParen);
    let (args, s3) = spec_delimited(e, s2, Kind::RParen, false, true);
    let s4 = expect(e, s3, Kind::RParen);
    if at(e, s4, Kind::LCurly) && s.pos < s4.pos <= e.toks.len() {
        let (c, s5) = spec_component_after_args(e, d, s4, start, callee, None, args);
        let s6 = eat(e, s5, Kind::Semicolon).1;
        push_node(s6, Node::ExpressionStatement { span: end_span(s6, start), expression: c })
    } else {
        spec_expression_statement(e, rewind_to(s4, s))
    }
}

/// A function body `{ statements }`.
pub open spec fn spec_function_body(e: Env, d: int, s: PState) -> (NodeId, PState) {
    let start = start_of(e, s);
    let s1 = expect(e, s, Kind::LCurly);
    let (body, s2) = if s.pos < s1.pos <= e.toks.len() {
        spec_statement_list(e, d, s1)
    } else {
        (Seq::empty(), s1)
    };
    let s3 = expect(e, s2, Kind::RCurly);
    let (l, s4) = push_list(s3, body);
    push_node(s4, Node::FunctionBody { span: end_span(s3, start), statements: l })
}

/// A method's function: type parameters (TypeScript), parameters, return
/// type (TypeScript), and a body (or `;` for a declaration without one).
pub open spec fn spec_function(e: Env, d: int, s: PState, is_async: bool, generator: bool) -> (NodeId, PState) {
    let start = start_of(e, s);
    let (tp, s1) = if e.is_ts { spec_type_parameters(e, s) } else { (None, s) };
    let s2 = expect(e, s1, Kind::LParen);
    let (params, s3) = spec_delimited(e, s2, Kind::RParen, true, true);
    let s4 = expect(e, s3, Kind::RParen);
    let (rt, s5) = if e.is_ts && at(e, s4, Kind::Colon) {
        let (t, s) = spec_type_run(e, bump(e, s4), RunMode::ReturnType);
        (Some(t), s)
    } else {
        (None, s4)
    };
    let (body, s6) = if at(e, s5, Kind::LCurly) {
        let (b, s) = spec_function_body(e, d, s5);
        (Some(b), s)
    } else {
        (None, eat(e, s5, Kind::Semicolon).1)
    };
    let (pl, s7) = push_list(s6, params);
    push_node(
        s7,
        Node::Function {
            span: end_span(s6, start),
            is_async,
            generator,
            type_parameters: tp,
            params: pl,
            return_type: rt,
            body,
        },
    )
}

} // verus!

verus! {

impl ParserImpl {
    pub fn parse_statement_list(&mut self) -> (r: Vec<NodeId>)
        requires
            old(self).wf(),
        ensures
            final(self).advanced_from(old(self)),
            at(old(self).env(), final(self).state(), Kind::RCurly) || at(old(self).env(), final(self).state(), Kind::Eof) || final(self).state().fatal,
            below(r@, final(self).nodes.len() as int),
            (r@, final(self).state()) == spec_statement_list(old(self).env(), old(self).depth(), old(self).state()),
        decreases old(self).tokens.len() - old(self).pos, 6int,
    {
        let ghost e = self.env();
        let ghost d = self.depth();
        let ghost s0 = self.state();
        let mut list: Vec<NodeId> = Vec::new();
        loop
            invariant_except_break
                spec_statement_list(e, d, s0) == (
                    list@ + spec_statement_list(e, d, self.state()).0,
                    spec_statement_list(e, d, self.state()).1,
                ),
            invariant
                self.advanced_from(old(self)),
                self.env() == e,
                below(list@, self.nodes.len() as int),
                self.depth() == d,
                s0 == old(self).state(),
            ensures
                spec_statement_list(e, d, s0) == (list@, self.state()),
                at(e, self.state(), Kind::RCurly) || at(e, self.state(), Kind::Eof) || self.state().fatal,
            decreases e.toks.len() - self.pos,
        {
            if self.at(Kind::RCurly) || self.at(Kind::Eof) || self.has_fatal_error() {
                assert(list@ + Seq::<NodeId>::empty() == list@);
                break;
            }
            let before = self.pos;
            let x = self.parse_statement_list_item();
            let ghost old_list = list@;
            list.push(x);
            if before < self.pos {
                assert(old_list + (seq![x] + spec_statement_list(e, d, self.state()).0) == list@ + spec_statement_list(e, d, self.state()).0);
            } else {
                assert(old_list + seq![x] == list@);
                break;
            }
        }
        list
    }

    pub fn parse_block_statement(&mut self) -> (id: NodeId)
        requires
            old(self).wf(),
        ensures
            final(self).advanced_from(old(self)),
            progressed(old(self).state(), final(self).state()),
            id < final(self).nodes.len(),
            (id, final(self).state()) == spec_block_statement(old(self).env(), old(self).depth(), old(self).state()),
        decreases old(self).tokens.len() - old(self).pos, 1int,
    {
        let start = self.start_span();
        let before = self.pos;
        self.expect(Kind::LCurly);
        let body = if before < self.pos { self.parse_statement_list() } else { Vec::new() };
        self.expect(Kind::RCurly);
        let span = self.end_span(start);
        let l = self.push_list(body);
        self.push_node(Node::BlockStatement { span, body: l })
    }

    /// A statement; inside the DSL, `Name(args) { ... }` is a component.
    pub fn parse_statement_list_item(&mut self) -> (id: NodeId)
        requires
            old(self).wf(),
        ensures
            final(self).advanced_from(old(self)),
            progressed(old(self).state(), final(self).state()),
            id < final(self).nodes.len(),
            (id, final(self).state()) == spec_statement(old(self).env(), old(self).depth(), old(self).state()),
        decreases old(self).tokens.len() - old(self).pos, 5int,
    {
        let k = self.cur_kind();
        if k == Kind::LCurly {
            self.parse_block_statement()
        } else if k == Kind::Semicolon {
            let span = self.tokens[self.pos].span;
            self.bump_any();
            self.push_node(Node::EmptyStatement { span })
        } else if k.is_control_flow() {
            self.parse_control_statement()
        } else if self.is_in_arkui_dsl_context() && k == Kind::Ident && self.peek_kind() == Kind::LParen {
            self.parse_dsl_expression_statement()
        } else {
            self.parse_expression_statement()
        }
    }

    pub fn parse_expression_statement(&mut self) -> (id: NodeId)
        requires
            old(self).wf(),
        ensures
            final(self).advanced_from(old(self)),
            progressed(old(self).state(), final(self).state()),
            id < final(self).nodes.len(),
            (id, final(self).state()) == spec_expression_statement(old(self).env(), old(self).state()),
    {
        let start = self.start_span();
        let x = self.parse_expr();
        self.eat(Kind::Semicolon);
        let span = self.end_span(start);
        self.push_node(Node::ExpressionStatement { span, expression: x })
    }

    fn parse_control_statement(&mut self) -> (id: NodeId)
        requires
            old(self).wf(),
            kind_is_control_flow(cur_kind(old(self).env(), old(self).state())),
        ensures
            final(self).advanced_from(old(self)),
            progressed(old(self).state(), final(self).state()),
            id < final(self).nodes.len(),
            (id, final(self).state()) == spec_control_statement(old(self).env(), old(self).depth(), old(self).state()),
        decreases old(self).tokens.len() - old(self).pos, 3int,
    {
        let start = self.start_span();
        let keyword = self.cur_kind();
        let before = self.pos;
        self.bump_any();
        let parts = if before < self.pos { self.parse_control_parts(keyword) } else { Vec::new() };
        let span = self.end_span(start);
        let l = self.push_list(parts);
        self.push_node(Node::ControlStatement { span, keyword, parts: l })
    }

    fn parse_control_parts(&mut self, keyword: Kind) -> (r: Vec<NodeId>)
        requires
            old(self).wf(),
        ensures
            final(self).advanced_from(old(self)),
            below(r@, final(self).nodes.len() as int),
            (r@, final(self).state()) == spec_control_parts(old(self).env(), old(self).depth(), old(self).state(), keyword),
        decreases old(self).tokens.len() - old(self).pos, 2int,
    {
        let ghost e = self.env();
        let ghost d = self.depth();
        let ghost s0 = self.state();
        let mut list: Vec<NodeId> = Vec::new();
        loop
            invariant_except_break
                spec_control_parts(e, d, s0, keyword) == (
                    list@ + spec_control_parts(e, d, self.state(), keyword).0,
                    spec_control_parts(e, d, self.state(), keyword).1,
                ),
            invariant
                self.advanced_from(old(self)),
                self.env() == e,
                below(list@, self.nodes.len() as int),
                self.depth() == d,
                s0 == old(self).state(),
            ensures
                spec_control_parts(e, d, s0, keyword) == (list@, self.state()),
            decreases e.toks.len() - self.pos,
        {
            let before = self.pos;
            if self.at(Kind::LCurly) {
                let b = self.parse_block_statement();
                let ghost old_list = list@;
                list.push(b);
                let k = self.cur_kind();
                let cont = k == Kind::Else || k == Kind::Catch || k == Kind::Finally
                    || (keyword == Kind::Do && k == Kind::While);
                if cont && before < self.pos {
                    assert(old_list + (seq![b] + spec_control_parts(e, d, self.state(), keyword).0) == list@ + spec_control_parts(e, d, self.state(), keyword).0);
                } else {
                    assert(old_list + seq![b] == list@);
                    break;
                }
            } else if self.at(Kind::Semicolon) {
                self.bump_any();
                assert(list@ + Seq::<NodeId>::empty() == list@);
                break;
            } else if self.at(Kind::Eof) || self.cur_kind().is_closer() || self.has_fatal_error() {
                assert(list@ + Seq::<NodeId>::empty() == list@);
                break;
            } else {
                let start = self.start_span();
                self.skip_run(RunMode::Header);
                if self.pos <= before {
                    assert(list@ + Seq::<NodeId>::empty() == list@);
                    break;
                }
                let span = self.end_span(start);
                let r = self.push_node(Node::TokenRun { span });
                let ghost old_list = list@;
                list.push(r);
                if (self.at(Kind::LCurly) || self.at(Kind::Semicolon)) && before < self.pos {
                    assert(old_list + (seq![r] + spec_control_parts(e, d, self.state(), keyword).0) == list@ + spec_control_parts(e, d, self.state(), keyword).0);
                } else {
                    assert(old_list + seq![r] == list@);
                    break;
                }
            }
        }
        list
    }

    fn parse_dsl_expression_statement(&mut self) -> (id: NodeId)
        requires
            old(self).wf(),
        ensures
            final(self).advanced_from(old(self)),
            progressed(old(self).state(), final(self).state()),
            id < final(self).nodes.len(),
            (id, final(self).state()) == spec_dsl_expression_statement(old(self).env(), old(self).depth(), old(self).state()),
        decreases old(self).tokens.len() - old(self).pos, 4int,
    {
        let start = self.start_span();
        let c = self.checkpoint();
        let callee = self.parse_identifier_expression();
        self.expect(Kind::LParen);
        let args = self.parse_delimited_list(Kind::RParen, false);
        self.expect(Kind::RParen);
        if self.at(Kind::LCurly) && c.pos < self.pos {
            let comp = self.parse_arkui_component_expression_after_args(start, callee, None, args);
            self.eat(Kind::Semicolon);
            let span = self.end_span(start);
            self.push_node(Node::ExpressionStatement { span, expression: comp })
        } else {
            self.rewind(c);
            self.parse_expression_statement()
        }
    }

    pub fn parse_function_body(&mut self) -> (id: NodeId)
        requires
            old(self).wf(),
        ensures
            final(self).advanced_from(old(self)),
            id < final(self).nodes.len(),
            (id, final(self).state()) == spec_function_body(old(self).env(), old(self).depth(), old(self).state()),
    {
        let start = self.start_span();
        let before = self.pos;
        self.expect(Kind::LCurly);
        let body = if before < self.pos { self.parse_statement_list() } else { Vec::new() };
        self.expect(Kind::RCurly);
        let span = self.end_span(start);
        let l = self.push_list(body);
        self.push_node(Node::FunctionBody { span, statements: l })
    }

    /// A method's function, from its type parameters or `(` on.
    pub fn parse_method(&mut self, is_async: bool, generator: bool) -> (id: NodeId)
        requires
            old(self).wf(),
        ensures
            final(self).advanced_from(old(self)),
            progressed(old(self).state(), final(self).state()),
            id < final(self).nodes.len(),
            (id, final(self).state()) == spec_function(old(self).env(), old(self).depth(), old(self).state(), is_async, generator),
    {
        let start = self.start_span();
        let tp = if self.is_ts { self.parse_ts_type_parameters() } else { None };
        self.expect(Kind::LParen);
        let params = self.parse_delimited_list(Kind::RParen, true);
        self.expect(Kind::RParen);
        let rt = if self.is_ts && self.at(Kind::Colon) {
            self.bump_any();
            Some(self.parse_ts_type(RunMode::ReturnType))
        } else {
            None
        };
        let body = if self.at(Kind::LCurly) {
            Some(self.parse_function_body())
        } else {
            self.eat(Kind::Semicolon);
            None
        };
        let span = self.end_span(start);
        let pl = self.push_list(params);
        self.push_node(
            Node::Function {
                span,
                is_async,
                generator,
                type_parameters: tp,
                params: pl,
                return_type: rt,
                body,
            },
        )
    }
}

} // verus!
