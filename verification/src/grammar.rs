//! The parts of the TypeScript grammar that the ArkUI declarations are built
//! from: identifiers, property names, decorators, modifiers, and the
//! expressions, types and parameters that the ArkUI grammar keeps as source
//! ranges ("runs" of balanced tokens).
use vstd::prelude::*;
use crate::span::Span;
use crate::token::{
    Kind, Token, kind_continues_expression, kind_expects_operand, kind_is_closer, kind_is_opener,
    kind_is_identifier_or_keyword,
};
use crate::diagnostics::{Diagnostic, DiagnosticKind};
use crate::ast::{Node, NodeId};
use crate::modifiers::{Modifier, ModifierKind, ModifierKinds, Modifiers};
use crate::parser::{
    below, progressed,
    Env, PState, ParserImpl, at, bump, cur_kind, cur_span, end_span, expect, peek_kind,
    push_list, push_node, start_of, unexpected, add_fatal,
};

verus! {

/// Where a run of tokens stops, besides at a closing bracket of its own
/// nesting level: `Argument` at `,`; `Expression` at `;`; `PropertyType` at
/// `=` and `;`; `ReturnType` and `Header` at `{` and `;`.  All runs also stop
/// at a token that starts a new line, as a statement ends there without a
/// `;`: unless it is the run's first token, the token before it calls for an
/// operand (`a +` / `b`), or it continues the expression (`a` / `+ b`,
/// `Text('a')` / `.width(1)`).
#[derive(Clone, Copy, Debug, PartialEq, Eq, Structural)]
pub enum RunMode {
    Argument,
    Expression,
    PropertyType,
    ReturnType,
    Header,
}

pub open spec fn run_stops(mode: RunMode, k: Kind) -> bool {
    match mode {
        RunMode::Argument => k == Kind::Comma,
        RunMode::Expression => k == Kind::Semicolon,
        RunMode::PropertyType => k == Kind::Eq || k == Kind::Semicolon,
        RunMode::ReturnType => k == Kind::LCurly || k == Kind::Semicolon,
        RunMode::Header => k == Kind::LCurly || k == Kind::Semicolon,
    }
}

impl RunMode {
    pub fn stops(&self, k: Kind) -> (r: bool)
        ensures
            r == run_stops(*self, k),
    {
        match self {
            RunMode::Argument => k == Kind::Comma,
            RunMode::Expression => k == Kind::Semicolon,
            RunMode::PropertyType => k == Kind::Eq || k == Kind::Semicolon,
            RunMode::ReturnType => k == Kind::LCurly || k == Kind::Semicolon,
            RunMode::Header => k == Kind::LCurly || k == Kind::Semicolon,
        }
    }
}

/// Bracket nesting after token kind `k` at nesting `depth`.
pub open spec fn next_depth(k: Kind, depth: nat) -> nat {
    if kind_is_opener(k) {
        depth + 1
    } else if kind_is_closer(k) && depth > 0 {
        (depth - 1) as nat
    } else {
        depth
    }
}

/// Whether a line break between tokens of kinds `prev` and `next` ends an
/// expression.
pub open spec fn line_break_ends_expression(prev: Kind, next: Kind) -> bool {
    !kind_expects_operand(prev) && !kind_continues_expression(next)
}

/// Whether a run stops at token `i` (which it does not consume).  The last
/// token is never consumed.
pub open spec fn run_ends_at(toks: Seq<Token>, i: int, depth: nat, first: bool, mode: RunMode) -> bool {
    let t = toks[i];
    ||| i + 1 >= toks.len()
    ||| t.kind == Kind::Eof
    ||| depth == 0 && kind_is_closer(t.kind)
    ||| depth == 0 && run_stops(mode, t.kind)
    ||| depth == 0 && !first && t.newline_before && line_break_ends_expression(toks[i - 1].kind, t.kind)
}

/// The index at which a run that has reached token `i` at bracket nesting
/// `depth` stops.
pub open spec fn run_end(toks: Seq<Token>, i: int, depth: nat, first: bool, mode: RunMode) -> int
    decreases toks.len() - i,
{
    if i < 0 || i >= toks.len() || run_ends_at(toks, i, depth, first, mode) {
        i
    } else {
        run_end(toks, i + 1, next_depth(toks[i].kind, depth), false, mode)
    }
}

/// The state after consuming every token before index `j`.
pub open spec fn skip_to(e: Env, s: PState, j: int) -> PState {
    if j > s.pos {
        PState { pos: j, prev_end: e.toks[j - 1].span.end, ..s }
    } else {
        s
    }
}

/// The end of the run that starts at the current token.
pub open spec fn run_from(e: Env, s: PState, mode: RunMode) -> int {
    run_end(e.toks, s.pos, 0, true, mode)
}

/// A run kept as an expression (or a parameter) node; an empty run is an
/// unexpected token.
pub open spec fn spec_run_node(e: Env, s: PState, mode: RunMode, param: bool) -> (NodeId, PState) {
    let j = run_from(e, s, mode);
    if j <= s.pos {
        unexpected(e, s)
    } else {
        let s1 = skip_to(e, s, j);
        let span = end_span(s1, start_of(e, s));
        push_node(s1, if param { Node::FormalParameter { span } } else { Node::Expression { span } })
    }
}

/// A run kept as a type annotation's source range.
pub open spec fn spec_type_run(e: Env, s: PState, mode: RunMode) -> (Span, PState) {
    let j = run_from(e, s, mode);
    let start = start_of(e, s);
    if j <= s.pos {
        (
            Span { start, end: start },
            add_fatal(
                s,
                Diagnostic { kind: DiagnosticKind::Unexpected(cur_kind(e, s)), span: cur_span(e, s) },
            ),
        )
    } else {
        let s1 = skip_to(e, s, j);
        (end_span(s1, start), s1)
    }
}

/// Index of the `>` that closes an angle-bracket group, when token `i` is
/// reached at angle nesting `depth`.
pub open spec fn angle_close(toks: Seq<Token>, i: int, depth: nat) -> Option<int>
    decreases toks.len() - i,
{
    if i < 0 || i >= toks.len() || toks[i].kind == Kind::Eof {
        None
    } else if toks[i].kind == Kind::RAngle {
        if depth <= 1 { Some(i) } else { angle_close(toks, i + 1, (depth - 1) as nat) }
    } else if toks[i].kind == Kind::LAngle {
        angle_close(toks, i + 1, depth + 1)
    } else {
        angle_close(toks, i + 1, depth)
    }
}

/// Type parameters `<...>`: `None` when the current token is not `<`; an
/// unclosed group is a fatal error.
pub open spec fn spec_type_parameters(e: Env, s: PState) -> (Option<Span>, PState) {
    if !at(e, s, Kind::LAngle) {
        (None, s)
    } else {
        match angle_close(e.toks, s.pos + 1, 1) {
            Some(j) => {
                let s1 = skip_to(e, s, j + 1);
                (Some(end_span(s1, start_of(e, s))), s1)
            },
            None => (
                None,
                add_fatal(
                    s,
                    Diagnostic {
                        kind: DiagnosticKind::ExpectToken { expected: Kind::RAngle, found: Kind::Eof },
                        span: cur_span(e, s),
                    },
                ),
            ),
        }
    }
}

/// Type arguments `<...>`, tried: when the group does not close, nothing is
/// consumed and the result is `None`.
pub open spec fn spec_try_type_arguments(e: Env, s: PState) -> (Option<Span>, PState) {
    if !at(e, s, Kind::LAngle) {
        (None, s)
    } else {
        match angle_close(e.toks, s.pos + 1, 1) {
            Some(j) => {
                let s1 = skip_to(e, s, j + 1);
                (Some(end_span(s1, start_of(e, s))), s1)
            },
            None => (None, s),
        }
    }
}

#[derive(Clone, Copy, Debug, PartialEq, Eq, Structural)]
pub enum IdentRole {
    Reference,
    Binding,
    Name,
}

pub open spec fn ident_node(role: IdentRole, span: Span, token: usize) -> Node {
    match role {
        IdentRole::Reference => Node::IdentifierReference { span, name_token: token },
        IdentRole::Binding => Node::BindingIdentifier { span, name_token: token },
        IdentRole::Name => Node::IdentifierName { span, name_token: token },
    }
}

/// An identifier (any word) as a node of the given role.
pub open spec fn spec_identifier(e: Env, s: PState, role: IdentRole) -> (NodeId, PState) {
    if kind_is_identifier_or_keyword(cur_kind(e, s)) {
        push_node(bump(e, s), ident_node(role, cur_span(e, s), s.pos as usize))
    } else {
        unexpected(e, s)
    }
}

/// A property name: a word, a string, a number, a private name, or a
/// computed `[expression]`.  The flag says whether it is computed.
pub open spec fn spec_property_name(e: Env, s: PState) -> ((NodeId, bool), PState) {
    let k = cur_kind(e, s);
    let span = cur_span(e, s);
    let tok = s.pos as usize;
    if kind_is_identifier_or_keyword(k) {
        let (n, s1) = push_node(bump(e, s), Node::IdentifierName { span, name_token: tok });
        ((n, false), s1)
    } else if k == Kind::Str {
        let (n, s1) = push_node(bump(e, s), Node::StringLiteralKey { span, token: tok });
        ((n, false), s1)
    } else if k == Kind::Num {
        let (n, s1) = push_node(bump(e, s), Node::NumericLiteralKey { span, token: tok });
        ((n, false), s1)
    } else if k == Kind::PrivateIdent {
        let (n, s1) = push_node(bump(e, s), Node::PrivateIdentifierKey { span, name_token: tok });
        ((n, false), s1)
    } else if k == Kind::LBrack {
        let start = start_of(e, s);
        let (x, s2) = spec_run_node(e, bump(e, s), RunMode::Argument, false);
        let s3 = expect(e, s2, Kind::RBrack);
        let (n, s4) = push_node(s3, Node::ComputedKey { span: end_span(s3, start), expression: x });
        ((n, true), s4)
    } else {
        let (n, s1) = unexpected(e, s);
        ((n, false), s1)
    }
}

/// A comma-separated list of runs up to (not including) `close`; each
/// element is an expression node, or a parameter node when `param` holds.
/// A trailing comma is allowed; a missing comma is a fatal error.
pub open spec fn spec_delimited(
    e: Env,
    s: PState,
    close: Kind,
    param: bool,
    first: bool,
) -> (Seq<NodeId>, PState)
    decreases e.toks.len() - s.pos,
{
    if at(e, s, close) || s.fatal {
        (Seq::empty(), s)
    } else if !first && !at(e, s, Kind::Comma) {
        (Seq::empty(), expect(e, s, Kind::Comma))
    } else {
        let s1 = if first { s } else { bump(e, s) };
        if !first && at(e, s1, close) {
            (Seq::empty(), s1)
        } else {
            let (x, s2) = spec_run_node(e, s1, RunMode::Argument, param);
            if s.pos < s2.pos <= e.toks.len() {
                let (rest, s3) = spec_delimited(e, s2, close, param, false);
                (seq![x] + rest, s3)
            } else {
                (seq![x], s2)
            }
        }
    }
}


/// `t` is `s` or a state further on, within the tokens when it moved at all.
pub open spec fn moved_forward(e: Env, s: PState, t: PState) -> bool {
    s.pos <= t.pos && (t.pos > s.pos ==> t.pos <= e.toks.len())
}

/// A run never ends before it starts, and ends on a token when it moves.
pub proof fn lemma_run_end_forward(toks: Seq<Token>, i: int, depth: nat, first: bool, mode: RunMode)
    ensures
        run_end(toks, i, depth, first, mode) >= i,
        run_end(toks, i, depth, first, mode) > i ==> run_end(toks, i, depth, first, mode) < toks.len(),
    decreases toks.len() - i,
{
    if !(i < 0 || i >= toks.len() || run_ends_at(toks, i, depth, first, mode)) {
        lemma_run_end_forward(toks, i + 1, next_depth(toks[i].kind, depth), false, mode);
    }
}

/// A closing `>` is found on a token at or after where the search starts.
pub proof fn lemma_angle_close_forward(toks: Seq<Token>, i: int, depth: nat)
    ensures
        angle_close(toks, i, depth) matches Some(j) ==> i <= j < toks.len() && toks[j].kind == Kind::RAngle,
    decreases toks.len() - i,
{
    if !(i < 0 || i >= toks.len() || toks[i].kind == Kind::Eof) {
        if toks[i].kind == Kind::RAngle {
            if depth > 1 {
                lemma_angle_close_forward(toks, i + 1, (depth - 1) as nat);
            }
        } else if toks[i].kind == Kind::LAngle {
            lemma_angle_close_forward(toks, i + 1, depth + 1);
        } else {
            lemma_angle_close_forward(toks, i + 1, depth);
        }
    }
}

pub proof fn lemma_try_type_arguments_forward(e: Env, s: PState)
    ensures
        moved_forward(e, s, spec_try_type_arguments(e, s).1),
{
    lemma_angle_close_forward(e.toks, s.pos + 1, 1);
}

pub proof fn lemma_run_node_forward(e: Env, s: PState, mode: RunMode, param: bool)
    ensures
        moved_forward(e, s, spec_run_node(e, s, mode, param).1),
{
    lemma_run_end_forward(e.toks, s.pos, 0, true, mode);
}

/// A delimited list moves the parser forward.
pub proof fn lemma_delimited_forward(e: Env, s: PState, close: Kind, param: bool, first: bool)
    ensures
        moved_forward(e, s, spec_delimited(e, s, close, param, first).1),
    decreases e.toks.len() - s.pos,
{
    if !(at(e, s, close) || s.fatal) && (first || at(e, s, Kind::Comma)) {
        let s1 = if first { s } else { bump(e, s) };
        if !(!first && at(e, s1, close)) {
            lemma_run_node_forward(e, s1, RunMode::Argument, param);
            let s2 = spec_run_node(e, s1, RunMode::Argument, param).1;
            if s.pos < s2.pos <= e.toks.len() {
                lemma_delimited_forward(e, s2, close, param, false);
            }
        }
    }
}

/// The rest of a decorator expression after `expr`, which started at
/// `start`: member accesses `.name` and calls `(args)`.
pub open spec fn spec_decorator_tail(e: Env, s: PState, start: u32, expr: NodeId) -> (NodeId, PState)
    decreases e.toks.len() - s.pos,
{
    if at(e, s, Kind::Dot) {
        let s1 = bump(e, s);
        if kind_is_identifier_or_keyword(cur_kind(e, s1)) {
            let (p, s2) = spec_identifier(e, s1, IdentRole::Name);
            let (m, s3) = push_node(
                s2,
                Node::StaticMemberExpression { span: end_span(s2, start), object: expr, property: p },
            );
            if s.pos < s3.pos <= e.toks.len() {
                spec_decorator_tail(e, s3, start, m)
            } else {
                (m, s3)
            }
        } else {
            (expr, add_fatal(s1, unexpected_diagnostic(e, s1)))
        }
    } else if at(e, s, Kind::LParen) {
        let (args, s2) = spec_delimited(e, bump(e, s), Kind::RParen, false, true);
        let s3 = expect(e, s2, Kind::RParen);
        let (l, s4) = push_list(s3, args);
        let (c, s5) = push_node(
            s4,
            Node::CallExpression { span: end_span(s3, start), callee: expr, arguments: l },
        );
        if s.pos < s5.pos <= e.toks.len() {
            spec_decorator_tail(e, s5, start, c)
        } else {
            (c, s5)
        }
    } else {
        (expr, s)
    }
}

pub open spec fn unexpected_diagnostic(e: Env, s: PState) -> Diagnostic {
    Diagnostic { kind: DiagnosticKind::Unexpected(cur_kind(e, s)), span: cur_span(e, s) }
}

/// The expression of a decorator: a name, then member accesses and calls.
pub open spec fn spec_decorator_expression(e: Env, s: PState) -> (NodeId, PState) {
    if kind_is_identifier_or_keyword(cur_kind(e, s)) {
        let (id, s1) = spec_identifier(e, s, IdentRole::Reference);
        spec_decorator_tail(e, s1, start_of(e, s), id)
    } else {
        unexpected(e, s)
    }
}

/// The decorators `@expr` in front of a declaration, in order.
pub open spec fn spec_decorators(e: Env, s: PState) -> (Seq<NodeId>, PState)
    decreases e.toks.len() - s.pos,
{
    if !at(e, s, Kind::At) {
        (Seq::empty(), s)
    } else {
        let (x, s2) = spec_decorator_expression(e, bump(e, s));
        let (d, s3) = push_node(
            s2,
            Node::Decorator { span: end_span(s2, start_of(e, s)), expression: x },
        );
        if s.pos < s3.pos <= e.toks.len() {
            let (rest, s4) = spec_decorators(e, s3);
            (seq![d] + rest, s4)
        } else {
            (seq![d], s3)
        }
    }
}

/// The modifier that a keyword spells, if any.
pub open spec fn modifier_kind_of(k: Kind, permit_const: bool) -> Option<ModifierKind> {
    match k {
        Kind::Declare => Some(ModifierKind::Declare),
        Kind::Abstract => Some(ModifierKind::Abstract),
        Kind::Export => Some(ModifierKind::Export),
        Kind::Async => Some(ModifierKind::Async),
        Kind::Static => Some(ModifierKind::Static),
        Kind::Readonly => Some(ModifierKind::Readonly),
        Kind::Public => Some(ModifierKind::Public),
        Kind::Private => Some(ModifierKind::Private),
        Kind::Protected => Some(ModifierKind::Protected),
        Kind::Override => Some(ModifierKind::Override),
        Kind::Accessor => Some(ModifierKind::Accessor),
        Kind::Const => if permit_const { Some(ModifierKind::Const) } else { None },
        _ => None,
    }
}

/// Tokens that can follow a modifier keyword: what can start a name.
pub open spec fn can_follow_modifier(k: Kind) -> bool {
    ||| kind_is_identifier_or_keyword(k)
    ||| k == Kind::LBrack
    ||| k == Kind::Star
    ||| k == Kind::Str
    ||| k == Kind::Num
    ||| k == Kind::PrivateIdent
}

/// The modifier keywords at the cursor.  A keyword counts as a modifier only
/// when a name can follow it, so `static()` declares a method named `static`.
pub open spec fn spec_modifiers(e: Env, s: PState, permit_const: bool) -> (Seq<Modifier>, PState)
    decreases e.toks.len() - s.pos,
{
    match modifier_kind_of(cur_kind(e, s), permit_const) {
        Some(mk) => if can_follow_modifier(peek_kind(e, s)) {
            let m = Modifier { kind: mk, span: cur_span(e, s) };
            let s1 = bump(e, s);
            if s.pos < s1.pos <= e.toks.len() {
                let (rest, s2) = spec_modifiers(e, s1, permit_const);
                (seq![m] + rest, s2)
            } else {
                (seq![m], s1)
            }
        } else {
            (Seq::empty(), s)
        },
        None => (Seq::empty(), s),
    }
}

/// Which diagnostic a disallowed modifier gets.
#[derive(Clone, Copy, Debug, PartialEq, Eq, Structural)]
pub enum ModifierDiagnostic {
    CannotBeUsedHere,
    CannotAppearOnClassElements,
}

pub open spec fn modifier_diagnostic(which: ModifierDiagnostic, m: Modifier) -> Diagnostic {
    Diagnostic {
        kind: match which {
            ModifierDiagnostic::CannotBeUsedHere => DiagnosticKind::ModifierCannotBeUsedHere(m.kind),
            ModifierDiagnostic::CannotAppearOnClassElements =>
                DiagnosticKind::CannotAppearOnClassElements(m.kind),
        },
        span: m.span,
    }
}

/// Whether a set of kinds given as `kinds` and `complement` (see
/// [`ModifierKinds`]) holds `k`.
pub open spec fn kinds_allow(kinds: Seq<ModifierKind>, complement: bool, k: ModifierKind) -> bool {
    complement != kinds.contains(k)
}

/// One diagnostic for each modifier of `ms` that the set (`kinds`,
/// `complement`) does not allow, in order.
pub open spec fn disallowed_diagnostics(
    ms: Seq<Modifier>,
    kinds: Seq<ModifierKind>,
    complement: bool,
    which: ModifierDiagnostic,
) -> Seq<Diagnostic>
    decreases ms.len(),
{
    if ms.len() == 0 {
        Seq::empty()
    } else {
        disallowed_diagnostics(ms.drop_last(), kinds, complement, which) + if kinds_allow(kinds, complement, ms.last().kind) {
            Seq::empty()
        } else {
            seq![modifier_diagnostic(which, ms.last())]
        }
    }
}

pub open spec fn spec_verify_modifiers(
    s: PState,
    ms: Seq<Modifier>,
    kinds: Seq<ModifierKind>,
    complement: bool,
    which: ModifierDiagnostic,
) -> PState {
    PState { errors: s.errors + disallowed_diagnostics(ms, kinds, complement, which), ..s }
}

/// `get` or `set` in front of an element is an accessor keyword when a name
/// follows it.
pub open spec fn spec_contextual_modifier(e: Env, s: PState, k: Kind) -> (bool, PState) {
    if at(e, s, k) && can_follow_modifier(peek_kind(e, s)) {
        (true, bump(e, s))
    } else {
        (false, s)
    }
}

impl ParserImpl {
    /// Consumes tokens up to index `j`.
    pub fn advance_to(&mut self, j: usize)
        requires
            old(self).wf(),
            old(self).state().pos <= j < old(self).env().toks.len(),
        ensures
            final(self).advanced_from(old(self)),
            final(self).state() == skip_to(old(self).env(), old(self).state(), j as int),
    {
        let ghost e = self.env();
        let ghost s0 = self.state();
        while self.pos < j
            invariant
                self.advanced_from(old(self)),
                self.env() == e,
                s0 == old(self).state(),
                s0.pos <= self.pos <= j,
                j < e.toks.len(),
                self.state() == skip_to(e, s0, self.pos as int),
            decreases j - self.pos,
        {
            self.bump_any();
        }
    }

    /// Consumes the run that starts at the current token.
    pub fn skip_run(&mut self, mode: RunMode)
        requires
            old(self).wf(),
        ensures
            final(self).advanced_from(old(self)),
            final(self).state() == skip_to(
                old(self).env(),
                old(self).state(),
                run_from(old(self).env(), old(self).state(), mode),
            ),
    {
        let ghost e = self.env();
        let ghost s0 = self.state();
        let mut depth: usize = 0;
        let mut first = true;
        let mut prev = Kind::Eof;
        loop
            invariant
                self.advanced_from(old(self)),
                self.env() == e,
                s0 == old(self).state(),
                s0.pos <= self.pos,
                depth <= self.pos - s0.pos,
                first ==> self.pos == s0.pos,
                !first ==> self.pos >= 1 && prev == e.toks[self.pos - 1].kind,
                run_from(e, s0, mode) == run_end(e.toks, self.pos as int, depth as nat, first, mode),
                self.state() == skip_to(e, s0, self.pos as int),
            ensures
                run_from(e, s0, mode) == self.pos,
            decreases e.toks.len() - self.pos,
        {
            let n = self.tokens.len();
            let k = self.tokens[self.pos].kind;
            let nl = self.tokens[self.pos].newline_before;
            if self.pos + 1 >= n || k == Kind::Eof || (depth == 0 && (k.is_closer() || mode.stops(k)
                || (!first && nl && !prev.expects_operand() && !k.continues_expression()))) {
                break;
            }
            if k.is_opener() {
                depth = depth + 1;
            } else if k.is_closer() && depth > 0 {
                depth = depth - 1;
            }
            first = false;
            prev = k;
            self.bump_any();
        }
    }

    /// The run at the cursor as an expression node (a parameter node when
    /// `param` holds).
    pub fn parse_run_node(&mut self, mode: RunMode, param: bool) -> (id: NodeId)
        requires
            old(self).wf(),
        ensures
            final(self).advanced_from(old(self)),
            progressed(old(self).state(), final(self).state()),
            id < final(self).nodes.len(),
            (id, final(self).state()) == spec_run_node(old(self).env(), old(self).state(), mode, param),
    {
        let start = self.start_span();
        let before = self.pos;
        self.skip_run(mode);
        if self.pos <= before {
            self.unexpected()
        } else {
            let span = self.end_span(start);
            if param {
                self.push_node(Node::FormalParameter { span })
            } else {
                self.push_node(Node::Expression { span })
            }
        }
    }

    /// An assignment expression: a run that ends at `,` or where a line
    /// break ends it.
    pub fn parse_assignment_expression_or_higher(&mut self) -> (id: NodeId)
        requires
            old(self).wf(),
        ensures
            final(self).advanced_from(old(self)),
            progressed(old(self).state(), final(self).state()),
            id < final(self).nodes.len(),
            (id, final(self).state()) == spec_run_node(
                old(self).env(),
                old(self).state(),
                RunMode::Argument,
                false,
            ),
    {
        self.parse_run_node(RunMode::Argument, false)
    }

    /// An expression: a run that ends at `;` or where a line break ends it.
    pub fn parse_expr(&mut self) -> (id: NodeId)
        requires
            old(self).wf(),
        ensures
            final(self).advanced_from(old(self)),
            progressed(old(self).state(), final(self).state()),
            id < final(self).nodes.len(),
            (id, final(self).state()) == spec_run_node(
                old(self).env(),
                old(self).state(),
                RunMode::Expression,
                false,
            ),
    {
        self.parse_run_node(RunMode::Expression, false)
    }

    /// A type, kept as its source range.
    pub fn parse_ts_type(&mut self, mode: RunMode) -> (r: Span)
        requires
            old(self).wf(),
        ensures
            final(self).advanced_from(old(self)),
            (r, final(self).state()) == spec_type_run(old(self).env(), old(self).state(), mode),
    {
        let start = self.start_span();
        let before = self.pos;
        self.skip_run(mode);
        if self.pos <= before {
            let kind = self.cur_kind();
            let span = self.tokens[self.pos].span;
            self.set_fatal_error(Diagnostic { kind: DiagnosticKind::Unexpected(kind), span });
            Span { start, end: start }
        } else {
            self.end_span(start)
        }
    }

    /// Index of the `>` closing the angle group whose `<` is the current
    /// token, if it closes.
    fn find_angle_close(&self) -> (r: Option<usize>)
        requires
            self.wf(),
        ensures
            r matches Some(j) ==> angle_close(self.env().toks, self.state().pos + 1, 1) == Some(j as int),
            r is None ==> angle_close(self.env().toks, self.state().pos + 1, 1) is None,
            r matches Some(j) ==> self.state().pos < j && j + 1 < self.env().toks.len(),
    {
        let ghost toks = self.env().toks;
        let mut i = self.pos + 1;
        let mut depth: usize = 1;
        while i < self.tokens.len()
            invariant
                toks == self.tokens@,
                self.wf(),
                self.pos < i <= self.tokens.len(),
                1 <= depth <= i - self.pos,
                angle_close(toks, self.pos + 1, 1) == angle_close(toks, i as int, depth as nat),
            decreases self.tokens.len() - i,
        {
            let k = self.tokens[i].kind;
            if k == Kind::Eof {
                return None;
            } else if k == Kind::RAngle {
                if depth <= 1 {
                    assert(i + 1 < self.tokens.len());
                    return Some(i);
                }
                depth = depth - 1;
            } else if k == Kind::LAngle {
                depth = depth + 1;
            }
            i = i + 1;
        }
        None
    }

    pub fn parse_ts_type_parameters(&mut self) -> (r: Option<Span>)
        requires
            old(self).wf(),
        ensures
            final(self).advanced_from(old(self)),
            (r, final(self).state()) == spec_type_parameters(old(self).env(), old(self).state()),
    {
        if !self.at(Kind::LAngle) {
            return None;
        }
        let start = self.start_span();
        match self.find_angle_close() {
            Some(j) => {
                self.advance_to(j + 1);
                Some(self.end_span(start))
            },
            None => {
                let span = self.tokens[self.pos].span;
                self.set_fatal_error(
                    Diagnostic {
                        kind: DiagnosticKind::ExpectToken { expected: Kind::RAngle, found: Kind::Eof },
                        span,
                    },
                );
                None
            },
        }
    }

    pub fn try_parse_type_arguments(&mut self) -> (r: Option<Span>)
        requires
            old(self).wf(),
        ensures
            final(self).advanced_from(old(self)),
            (r, final(self).state()) == spec_try_type_arguments(old(self).env(), old(self).state()),
    {
        if !self.at(Kind::LAngle) {
            return None;
        }
        let start = self.start_span();
        match self.find_angle_close() {
            Some(j) => {
                self.advance_to(j + 1);
                Some(self.end_span(start))
            },
            None => None,
        }
    }

    pub fn parse_identifier(&mut self, role: IdentRole) -> (id: NodeId)
        requires
            old(self).wf(),
        ensures
            final(self).advanced_from(old(self)),
            progressed(old(self).state(), final(self).state()),
            id < final(self).nodes.len(),
            (id, final(self).state()) == spec_identifier(old(self).env(), old(self).state(), role),
    {
        if self.cur_kind().is_identifier_or_keyword() {
            let span = self.tokens[self.pos].span;
            let tok = self.pos;
            self.bump_any();
            let n = match role {
                IdentRole::Reference => Node::IdentifierReference { span, name_token: tok },
                IdentRole::Binding => Node::BindingIdentifier { span, name_token: tok },
                IdentRole::Name => Node::IdentifierName { span, name_token: tok },
            };
            self.push_node(n)
        } else {
            self.unexpected()
        }
    }

    pub fn parse_binding_identifier(&mut self) -> (id: NodeId)
        requires
            old(self).wf(),
        ensures
            final(self).advanced_from(old(self)),
            progressed(old(self).state(), final(self).state()),
            id < final(self).nodes.len(),
            (id, final(self).state()) == spec_identifier(
                old(self).env(),
                old(self).state(),
                IdentRole::Binding,
            ),
    {
        self.parse_identifier(IdentRole::Binding)
    }

    pub fn parse_identifier_name(&mut self) -> (id: NodeId)
        requires
            old(self).wf(),
        ensures
            final(self).advanced_from(old(self)),
            progressed(old(self).state(), final(self).state()),
            id < final(self).nodes.len(),
            (id, final(self).state()) == spec_identifier(
                old(self).env(),
                old(self).state(),
                IdentRole::Name,
            ),
    {
        self.parse_identifier(IdentRole::Name)
    }

    pub fn parse_identifier_expression(&mut self) -> (id: NodeId)
        requires
            old(self).wf(),
        ensures
            final(self).advanced_from(old(self)),
            progressed(old(self).state(), final(self).state()),
            id < final(self).nodes.len(),
            (id, final(self).state()) == spec_identifier(
                old(self).env(),
                old(self).state(),
                IdentRole::Reference,
            ),
    {
        self.parse_identifier(IdentRole::Reference)
    }

    pub fn parse_property_name(&mut self) -> (r: (NodeId, bool))
        requires
            old(self).wf(),
        ensures
            final(self).advanced_from(old(self)),
            progressed(old(self).state(), final(self).state()),
            r.0 < final(self).nodes.len(),
            (r, final(self).state()) == spec_property_name(old(self).env(), old(self).state()),
    {
        let k = self.cur_kind();
        let span = self.tokens[self.pos].span;
        let tok = self.pos;
        if k.is_identifier_or_keyword() {
            self.bump_any();
            (self.push_node(Node::IdentifierName { span, name_token: tok }), false)
        } else if k == Kind::Str {
            self.bump_any();
            (self.push_node(Node::StringLiteralKey { span, token: tok }), false)
        } else if k == Kind::Num {
            self.bump_any();
            (self.push_node(Node::NumericLiteralKey { span, token: tok }), false)
        } else if k == Kind::PrivateIdent {
            self.bump_any();
            (self.push_node(Node::PrivateIdentifierKey { span, name_token: tok }), false)
        } else if k == Kind::LBrack {
            let start = self.start_span();
            self.bump_any();
            let x = self.parse_assignment_expression_or_higher();
            self.expect(Kind::RBrack);
            let span = self.end_span(start);
            (self.push_node(Node::ComputedKey { span, expression: x }), true)
        } else {
            (self.unexpected(), false)
        }
    }

    /// A comma-separated list of runs up to `close`, which is not consumed.
    #[verifier::rlimit(40)]
    #[verifier::spinoff_prover]
    pub fn parse_delimited_list(&mut self, close: Kind, param: bool) -> (r: Vec<NodeId>)
        requires
            old(self).wf(),
        ensures
            final(self).advanced_from(old(self)),
            below(r@, final(self).nodes.len() as int),
            (r@, final(self).state()) == spec_delimited(
                old(self).env(),
                old(self).state(),
                close,
                param,
                true,
            ),
    {
        let ghost e = self.env();
        let ghost s0 = self.state();
        let mut list: Vec<NodeId> = Vec::new();
        let mut first = true;
        loop
            invariant_except_break
                first ==> self.state() == s0 && list@.len() == 0,
                spec_delimited(e, s0, close, param, true) == (
                    list@ + spec_delimited(e, self.state(), close, param, first).0,
                    spec_delimited(e, self.state(), close, param, first).1,
                ),
            invariant
                self.advanced_from(old(self)),
                self.env() == e,
                below(list@, self.nodes.len() as int),
                s0 == old(self).state(),
            ensures
                spec_delimited(e, s0, close, param, true) == (list@, self.state()),
            decreases e.toks.len() - self.pos,
        {
            let before = self.pos;
            if self.at(close) || self.has_fatal_error() {
                assert(list@ + Seq::<NodeId>::empty() == list@);
                break;
            }
            if !first && !self.at(Kind::Comma) {
                self.expect(Kind::Comma);
                assert(list@ + Seq::<NodeId>::empty() == list@);
                break;
            }
            if !first {
                self.bump_any();
                if self.at(close) {
                    assert(list@ + Seq::<NodeId>::empty() == list@);
                    break;
                }
            }
            let x = self.parse_run_node(RunMode::Argument, param);
            let ghost s2 = self.state();
            let ghost old_list = list@;
            list.push(x);
            if self.pos > before {
                assert(old_list + (seq![x] + spec_delimited(e, s2, close, param, false).0) == list@ + spec_delimited(e, s2, close, param, false).0);
                first = false;
            } else {
                assert(old_list + seq![x] == list@);
                break;
            }
        }
        list
    }

    fn parse_decorator_tail(&mut self, start: u32, expr: NodeId) -> (id: NodeId)
        requires
            old(self).wf(),
            expr < old(self).nodes.len(),
        ensures
            final(self).advanced_from(old(self)),
            id < final(self).nodes.len(),
            (id, final(self).state()) == spec_decorator_tail(old(self).env(), old(self).state(), start, expr),
        decreases old(self).tokens.len() - old(self).pos,
    {
        let before = self.pos;
        if self.at(Kind::Dot) {
            self.bump_any();
            if self.cur_kind().is_identifier_or_keyword() {
                let p = self.parse_identifier_name();
                let span = self.end_span(start);
                let m = self.push_node(Node::StaticMemberExpression { span, object: expr, property: p });
                if before < self.pos {
                    self.parse_decorator_tail(start, m)
                } else {
                    m
                }
            } else {
                let kind = self.cur_kind();
                let span = self.tokens[self.pos].span;
                self.set_fatal_error(Diagnostic { kind: DiagnosticKind::Unexpected(kind), span });
                expr
            }
        } else if self.at(Kind::LParen) {
            self.bump_any();
            let args = self.parse_delimited_list(Kind::RParen, false);
            self.expect(Kind::RParen);
            let span = self.end_span(start);
            let l = self.push_list(args);
            let c = self.push_node(Node::CallExpression { span, callee: expr, arguments: l });
            if before < self.pos {
                self.parse_decorator_tail(start, c)
            } else {
                c
            }
        } else {
            expr
        }
    }

    pub fn parse_decorator_expression(&mut self) -> (id: NodeId)
        requires
            old(self).wf(),
        ensures
            final(self).advanced_from(old(self)),
            id < final(self).nodes.len(),
            (id, final(self).state()) == spec_decorator_expression(old(self).env(), old(self).state()),
    {
        if self.cur_kind().is_identifier_or_keyword() {
            let start = self.start_span();
            let id = self.parse_identifier_expression();
            self.parse_decorator_tail(start, id)
        } else {
            self.unexpected()
        }
    }

    pub fn parse_decorators(&mut self) -> (r: Vec<NodeId>)
        requires
            old(self).wf(),
        ensures
            final(self).advanced_from(old(self)),
            below(r@, final(self).nodes.len() as int),
            (r@, final(self).state()) == spec_decorators(old(self).env(), old(self).state()),
    {
        let ghost e = self.env();
        let ghost s0 = self.state();
        let mut list: Vec<NodeId> = Vec::new();
        loop
            invariant_except_break
                spec_decorators(e, s0) == (
                    list@ + spec_decorators(e, self.state()).0,
                    spec_decorators(e, self.state()).1,
                ),
            invariant
                self.advanced_from(old(self)),
                self.env() == e,
                below(list@, self.nodes.len() as int),
                s0 == old(self).state(),
            ensures
                spec_decorators(e, s0) == (list@, self.state()),
            decreases e.toks.len() - self.pos,
        {
            if !self.at(Kind::At) {
                assert(list@ + Seq::<NodeId>::empty() == list@);
                break;
            }
            let before = self.pos;
            let start = self.start_span();
            self.bump_any();
            let x = self.parse_decorator_expression();
            let span = self.end_span(start);
            let d = self.push_node(Node::Decorator { span, expression: x });
            let ghost old_list = list@;
            list.push(d);
            if before < self.pos {
                assert(old_list + (seq![d] + spec_decorators(e, self.state()).0) == list@ + spec_decorators(e, self.state()).0);
            } else {
                assert(old_list + seq![d] == list@);
                break;
            }
        }
        list
    }

    pub fn parse_modifiers(&mut self, permit_const_as_modifier: bool) -> (r: Modifiers)
        requires
            old(self).wf(),
        ensures
            final(self).advanced_from(old(self)),
            (r.list@, final(self).state()) == spec_modifiers(
                old(self).env(),
                old(self).state(),
                permit_const_as_modifier,
            ),
    {
        let ghost e = self.env();
        let ghost s0 = self.state();
        let mut list: Vec<Modifier> = Vec::new();
        loop
            invariant_except_break
                spec_modifiers(e, s0, permit_const_as_modifier) == (
                    list@ + spec_modifiers(e, self.state(), permit_const_as_modifier).0,
                    spec_modifiers(e, self.state(), permit_const_as_modifier).1,
                ),
            invariant
                self.advanced_from(old(self)),
                self.env() == e,
                s0 == old(self).state(),
            ensures
                spec_modifiers(e, s0, permit_const_as_modifier) == (list@, self.state()),
            decreases e.toks.len() - self.pos,
        {
            let k = self.cur_kind();
            let mk = match k {
                Kind::Declare => Some(ModifierKind::Declare),
                Kind::Abstract => Some(ModifierKind::Abstract),
                Kind::Export => Some(ModifierKind::Export),
                Kind::Async => Some(ModifierKind::Async),
                Kind::Static => Some(ModifierKind::Static),
                Kind::Readonly => Some(ModifierKind::Readonly),
                Kind::Public => Some(ModifierKind::Public),
                Kind::Private => Some(ModifierKind::Private),
                Kind::Protected => Some(ModifierKind::Protected),
                Kind::Override => Some(ModifierKind::Override),
                Kind::Accessor => Some(ModifierKind::Accessor),
                Kind::Const => if permit_const_as_modifier { Some(ModifierKind::Const) } else { None },
                _ => None,
            };
            let next = self.peek_kind();
            let follows = next.is_identifier_or_keyword() || next == Kind::LBrack || next == Kind::Star
                || next == Kind::Str || next == Kind::Num || next == Kind::PrivateIdent;
            match mk {
                Some(kind) => {
                    if !follows {
                        assert(list@ + Seq::<Modifier>::empty() == list@);
                        break;
                    }
                    let m = Modifier { kind, span: self.tokens[self.pos].span };
                    let before = self.pos;
                    self.bump_any();
                    let ghost old_list = list@;
                    list.push(m);
                    if before < self.pos {
                        assert(old_list + (seq![m] + spec_modifiers(e, self.state(), permit_const_as_modifier).0) == list@ + spec_modifiers(e, self.state(), permit_const_as_modifier).0);
                    } else {
                        assert(old_list + seq![m] == list@);
                        break;
                    }
                },
                None => {
                    assert(list@ + Seq::<Modifier>::empty() == list@);
                    break;
                },
            }
        }
        Modifiers { list }
    }

    pub fn verify_modifiers(
        &mut self,
        modifiers: &Modifiers,
        allowed: ModifierKinds,
        which: ModifierDiagnostic,
    )
        requires
            old(self).wf(),
        ensures
            final(self).advanced_from(old(self)),
            final(self).state() == spec_verify_modifiers(old(self).state(), modifiers.list@, allowed.kinds@, allowed.complement, which),
    {
        let ghost s0 = self.state();
        let mut i: usize = 0;
        assert(modifiers.list@.take(0) == Seq::<Modifier>::empty());
        assert(s0.errors + Seq::<Diagnostic>::empty() == s0.errors);
        while i < modifiers.list.len()
            invariant
                self.advanced_from(old(self)),
                s0 == old(self).state(),
                i <= modifiers.list.len(),
                self.state() == spec_verify_modifiers(s0, modifiers.list@.take(i as int), allowed.kinds@, allowed.complement, which),
            decreases modifiers.list.len() - i,
        {
            let m = modifiers.list[i];
            assert(modifiers.list@.take(i + 1).drop_last() == modifiers.list@.take(i as int));
            if !allowed.contains(m.kind) {
                let kind = match which {
                    ModifierDiagnostic::CannotBeUsedHere => DiagnosticKind::ModifierCannotBeUsedHere(m.kind),
                    ModifierDiagnostic::CannotAppearOnClassElements => DiagnosticKind::CannotAppearOnClassElements(m.kind),
                };
                self.error(Diagnostic { kind, span: m.span });
                assert(self.state().errors == s0.errors + disallowed_diagnostics(modifiers.list@.take(i + 1), allowed.kinds@, allowed.complement, which));
            } else {
                assert(disallowed_diagnostics(modifiers.list@.take(i + 1), allowed.kinds@, allowed.complement, which) == disallowed_diagnostics(modifiers.list@.take(i as int), allowed.kinds@, allowed.complement, which));
            }
            i = i + 1;
        }
        assert(modifiers.list@.take(modifiers.list.len() as int) == modifiers.list@);
    }

    pub fn parse_contextual_modifier(&mut self, k: Kind) -> (r: bool)
        requires
            old(self).wf(),
        ensures
            final(self).advanced_from(old(self)),
            (r, final(self).state()) == spec_contextual_modifier(old(self).env(), old(self).state(), k),
    {
        let next = self.peek_kind();
        let follows = next.is_identifier_or_keyword() || next == Kind::LBrack || next == Kind::Star
            || next == Kind::Str || next == Kind::Num || next == Kind::PrivateIdent;
        if self.at(k) && follows {
            self.bump_any();
            true
        } else {
            false
        }
    }
}

} // verus!
