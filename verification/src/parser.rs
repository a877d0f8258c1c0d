use vstd::prelude::*;
use crate::span::{Span, span_new};
use crate::token::{Kind, Token};
use crate::diagnostics::{Diagnostic, DiagnosticKind};
use crate::ast::{ListRef, Node, NodeId};

verus! {

/// What kind of source the tokens come from.
#[derive(Clone, Copy, Debug, PartialEq, Eq, Structural)]
pub struct SourceType {
    pub is_typescript: bool,
    pub is_arkui: bool,
}

/// The parser's input, as the specifications see it.
pub struct Env {
    pub toks: Seq<Token>,
    pub is_ts: bool,
    pub is_arkui: bool,
}

/// The parser's mutable state, as the specifications see it.
pub struct PState {
    /// Index of the current token.
    pub pos: int,
    /// End offset of the last token consumed.
    pub prev_end: u32,
    pub errors: Seq<Diagnostic>,
    /// Whether a fatal error stopped the parse.
    pub fatal: bool,
    pub nodes: Seq<Node>,
    pub lists: Seq<NodeId>,
}

/// A saved parser position, for backtracking.
#[derive(Clone, Copy, Debug)]
pub struct Checkpoint {
    pub pos: usize,
    pub prev_end: u32,
    pub errors_len: usize,
    pub fatal: bool,
}

/// The parser: a cursor over the tokens, the ArkUI DSL nesting depth, the
/// diagnostics, and the node arena being built.
pub struct ParserImpl {
    pub tokens: Vec<Token>,
    pub is_ts: bool,
    pub is_arkui: bool,
    pub pos: usize,
    pub prev_end: u32,
    pub arkui_dsl_depth: usize,
    pub errors: Vec<Diagnostic>,
    pub fatal: bool,
    pub nodes: Vec<Node>,
    pub lists: Vec<NodeId>,
}

// ---------------------------------------------------------------------------
// The cursor, as specifications.

pub open spec fn cur_tok(e: Env, s: PState) -> Token {
    e.toks[s.pos]
}

pub open spec fn cur_kind(e: Env, s: PState) -> Kind {
    e.toks[s.pos].kind
}

pub open spec fn cur_span(e: Env, s: PState) -> Span {
    e.toks[s.pos].span
}

/// Kind of the token after the current one (`Eof` past the end).
pub open spec fn peek_kind(e: Env, s: PState) -> Kind {
    if s.pos + 1 < e.toks.len() { e.toks[s.pos + 1].kind } else { Kind::Eof }
}

pub open spec fn at(e: Env, s: PState, k: Kind) -> bool {
    cur_kind(e, s) == k
}

/// Moves past the current token; the last token is never moved past.
pub open spec fn bump(e: Env, s: PState) -> PState {
    if s.pos + 1 < e.toks.len() {
        PState { pos: s.pos + 1, prev_end: cur_span(e, s).end, ..s }
    } else {
        s
    }
}

pub open spec fn eat(e: Env, s: PState, k: Kind) -> (bool, PState) {
    if at(e, s, k) { (true, bump(e, s)) } else { (false, s) }
}

pub open spec fn add_error(s: PState, d: Diagnostic) -> PState {
    PState { errors: s.errors.push(d), ..s }
}

/// Records `d` as the fatal error, unless a fatal error is already recorded.
pub open spec fn add_fatal(s: PState, d: Diagnostic) -> PState {
    if s.fatal { s } else { PState { errors: s.errors.push(d), fatal: true, ..s } }
}

pub open spec fn expect(e: Env, s: PState, k: Kind) -> PState {
    if at(e, s, k) {
        bump(e, s)
    } else {
        add_fatal(
            s,
            Diagnostic {
                kind: DiagnosticKind::ExpectToken { expected: k, found: cur_kind(e, s) },
                span: cur_span(e, s),
            },
        )
    }
}

pub open spec fn push_node(s: PState, n: Node) -> (NodeId, PState) {
    (s.nodes.len() as NodeId, PState { nodes: s.nodes.push(n), ..s })
}

pub open spec fn push_list(s: PState, ids: Seq<NodeId>) -> (ListRef, PState) {
    (
        ListRef { start: s.lists.len() as usize, len: ids.len() as usize },
        PState { lists: s.lists + ids, ..s },
    )
}

/// Reports the current token as unexpected (fatal) and stands an `Invalid`
/// node in for what should have been there.
pub open spec fn unexpected(e: Env, s: PState) -> (NodeId, PState) {
    let s1 = add_fatal(
        s,
        Diagnostic { kind: DiagnosticKind::Unexpected(cur_kind(e, s)), span: cur_span(e, s) },
    );
    push_node(s1, Node::Invalid { span: cur_span(e, s) })
}

pub open spec fn start_of(e: Env, s: PState) -> u32 {
    cur_span(e, s).start
}

/// The span from `start` to the end of the last token consumed.
pub open spec fn end_span(s: PState, start: u32) -> Span {
    Span { start, end: s.prev_end }
}

/// The state after going back to `saved`: cursor and diagnostics as they
/// were in `saved`, the arenas as they are in `cur`.
pub open spec fn rewind_to(cur: PState, saved: PState) -> PState {
    PState {
        pos: saved.pos,
        prev_end: saved.prev_end,
        errors: cur.errors.take(saved.errors.len() as int),
        fatal: saved.fatal,
        nodes: cur.nodes,
        lists: cur.lists,
    }
}

/// Every id of `ids` names a node below `n`.
pub open spec fn below(ids: Seq<NodeId>, n: int) -> bool {
    forall|i: int| 0 <= i < ids.len() ==> #[trigger] ids[i] < n
}

/// List `l` lies within `lists` and names only nodes below `i`.
pub open spec fn list_below(lists: Seq<NodeId>, l: ListRef, i: int) -> bool {
    &&& l.start + l.len <= lists.len()
    &&& forall|k: int| l.start <= k < l.start + l.len ==> #[trigger] lists[k] < i
}

pub open spec fn opt_below(o: Option<NodeId>, i: int) -> bool {
    o matches Some(x) ==> x < i
}

/// Node `n`, stored at index `i`, refers only to nodes below `i`, to lists
/// within `lists`, and to tokens below `ntoks`.
pub open spec fn node_ok(n: Node, i: int, lists: Seq<NodeId>, ntoks: int) -> bool {
    match n {
        Node::Invalid { .. } | Node::ThisExpression { .. } | Node::Expression { .. }
        | Node::TokenRun { .. } | Node::EmptyStatement { .. } | Node::FormalParameter { .. } => true,
        Node::IdentifierReference { name_token, .. } => name_token < ntoks,
        Node::BindingIdentifier { name_token, .. } => name_token < ntoks,
        Node::IdentifierName { name_token, .. } => name_token < ntoks,
        Node::PrivateIdentifierKey { name_token, .. } => name_token < ntoks,
        Node::StringLiteralKey { token, .. } => token < ntoks,
        Node::NumericLiteralKey { token, .. } => token < ntoks,
        Node::StaticMemberExpression { object, property, .. } => object < i && property < i,
        Node::CallExpression { callee, arguments, .. } => callee < i && list_below(lists, arguments, i),
        Node::ArkUIComponentExpression { callee, arguments, children, chain_expressions, .. } => {
            &&& callee < i
            &&& list_below(lists, arguments, i)
            &&& list_below(lists, children, i)
            &&& list_below(lists, chain_expressions, i)
        },
        Node::ArkUIChild { node, .. } => node < i,
        Node::ComputedKey { expression, .. } => expression < i,
        Node::BlockStatement { body, .. } => list_below(lists, body, i),
        Node::ControlStatement { parts, .. } => list_below(lists, parts, i),
        Node::ExpressionStatement { expression, .. } => expression < i,
        Node::Function { params, body, .. } => list_below(lists, params, i) && opt_below(body, i),
        Node::FunctionBody { statements, .. } => list_below(lists, statements, i),
        Node::Decorator { expression, .. } => expression < i,
        Node::MethodDefinition { decorators, key, value, .. } => {
            list_below(lists, decorators, i) && key < i && value < i
        },
        Node::PropertyDefinition { decorators, key, value, .. } => {
            list_below(lists, decorators, i) && key < i && opt_below(value, i)
        },
        Node::StructBody { body, .. } => list_below(lists, body, i),
        Node::AnnotationBody { body, .. } => list_below(lists, body, i),
        Node::StructStatement { decorators, id, body, .. } => {
            list_below(lists, decorators, i) && id < i && body < i
        },
        Node::AnnotationDeclaration { decorators, id, body, .. } => {
            list_below(lists, decorators, i) && id < i && body < i
        },
    }
}

/// The arena is acyclic and closed: every node refers only to nodes built
/// before it, every list entry names a node, and every name is a token.
pub open spec fn arena_ok(s: PState, ntoks: int) -> bool {
    &&& forall|i: int| 0 <= i < s.nodes.len() ==> node_ok(#[trigger] s.nodes[i], i, s.lists, ntoks)
    &&& below(s.lists, s.nodes.len() as int)
}

/// Appending to the list arena keeps the lists that a node refers to.
pub proof fn lemma_node_ok_extend(n: Node, i: int, lists: Seq<NodeId>, ids: Seq<NodeId>, ntoks: int)
    requires
        node_ok(n, i, lists, ntoks),
    ensures
        node_ok(n, i, lists + ids, ntoks),
{
    let l2 = lists + ids;
    assert forall|k: int| 0 <= k < lists.len() implies #[trigger] l2[k] == lists[k] by {}
}

/// Whether a parse step consumed a token or stopped on a fatal error.
pub open spec fn progressed(a: PState, b: PState) -> bool {
    b.pos > a.pos || b.fatal
}

/// Whether the state moved forward from `a` to `b` without losing anything.
pub open spec fn extends(a: PState, b: PState) -> bool {
    &&& a.pos <= b.pos
    &&& a.fatal ==> b.fatal
    &&& b.errors.len() >= a.errors.len()
    &&& b.nodes.len() >= a.nodes.len()
    &&& b.lists.len() >= a.lists.len()
}

impl ParserImpl {
    pub open spec fn env(&self) -> Env {
        Env { toks: self.tokens@, is_ts: self.is_ts, is_arkui: self.is_arkui }
    }

    pub open spec fn state(&self) -> PState {
        PState {
            pos: self.pos as int,
            prev_end: self.prev_end,
            errors: self.errors@,
            fatal: self.fatal,
            nodes: self.nodes@,
            lists: self.lists@,
        }
    }

    pub open spec fn depth(&self) -> int {
        self.arkui_dsl_depth as int
    }

    /// Well-formedness: the tokens end with `Eof`, the cursor stands on a
    /// token, and the node arena is acyclic and closed.
    pub open spec fn wf(&self) -> bool {
        &&& self.tokens.len() >= 1
        &&& self.tokens@.last().kind == Kind::Eof
        &&& self.pos < self.tokens.len()
        &&& arena_ok(self.state(), self.tokens.len() as int)
    }

    /// `self` is `old` after a parse step: still well formed, same input,
    /// and its state extends `old`'s.
    pub open spec fn advanced_from(&self, old: &ParserImpl) -> bool {
        &&& self.wf()
        &&& self.same_input(old)
        &&& extends(old.state(), self.state())
    }

    /// `self` parses the same input as `other`, at the same DSL depth.
    pub open spec fn same_input(&self, other: &ParserImpl) -> bool {
        &&& self.tokens@ == other.tokens@
        &&& self.is_ts == other.is_ts
        &&& self.is_arkui == other.is_arkui
        &&& self.arkui_dsl_depth == other.arkui_dsl_depth
    }

    /// A parser over `tokens`.  An `Eof` token is added at the end when the
    /// tokens do not end with one.
    pub fn new(tokens: Vec<Token>, source_type: SourceType) -> (p: ParserImpl)
        ensures
            p.wf(),
            p.depth() == 0,
            p.env().is_ts == source_type.is_typescript,
            p.env().is_arkui == source_type.is_arkui,
            p.state() == (PState {
                pos: 0,
                prev_end: 0,
                errors: Seq::empty(),
                fatal: false,
                nodes: Seq::empty(),
                lists: Seq::empty(),
            }),
            tokens@.len() > 0 && tokens@.last().kind == Kind::Eof ==> p.env().toks == tokens@,
            !(tokens@.len() > 0 && tokens@.last().kind == Kind::Eof) ==> {
                let end: u32 = if tokens@.len() == 0 { 0 } else { tokens@.last().span.end };
                let toks = p.env().toks;
                &&& toks.len() == tokens@.len() + 1
                &&& toks.take(tokens@.len() as int) == tokens@
                &&& toks.last().kind == Kind::Eof
                &&& toks.last().span == (Span { start: end, end })
                &&& !toks.last().newline_before
                &&& toks.last().text@ == Seq::<char>::empty()
            },
    {
        let mut tokens = tokens;
        let ghost input = tokens@;
        let n = tokens.len();
        let needs_eof = if n == 0 { true } else { tokens[n - 1].kind != Kind::Eof };
        if needs_eof {
            let end = if n == 0 { 0 } else { tokens[n - 1].span.end };
            tokens.push(Token {
                kind: Kind::Eof,
                span: Span { start: end, end },
                newline_before: false,
                text: String::new(),
            });
            assert(tokens@.take(n as int) == input);
        }
        ParserImpl {
            tokens,
            is_ts: source_type.is_typescript,
            is_arkui: source_type.is_arkui,
            pos: 0,
            prev_end: 0,
            arkui_dsl_depth: 0,
            errors: Vec::new(),
            fatal: false,
            nodes: Vec::new(),
            lists: Vec::new(),
        }
    }

    pub fn cur_token(&self) -> (t: &Token)
        requires
            self.wf(),
        ensures
            *t == cur_tok(self.env(), self.state()),
    {
        &self.tokens[self.pos]
    }

    pub fn cur_kind(&self) -> (k: Kind)
        requires
            self.wf(),
        ensures
            k == cur_kind(self.env(), self.state()),
    {
        self.tokens[self.pos].kind
    }

    pub fn peek_kind(&self) -> (k: Kind)
        requires
            self.wf(),
        ensures
            k == peek_kind(self.env(), self.state()),
    {
        if self.pos + 1 < self.tokens.len() {
            self.tokens[self.pos + 1].kind
        } else {
            Kind::Eof
        }
    }

    pub fn at(&self, k: Kind) -> (r: bool)
        requires
            self.wf(),
        ensures
            r == at(self.env(), self.state(), k),
    {
        self.tokens[self.pos].kind == k
    }

    pub fn start_span(&self) -> (r: u32)
        requires
            self.wf(),
        ensures
            r == start_of(self.env(), self.state()),
    {
        self.tokens[self.pos].span.start
    }

    pub fn end_span(&self, start: u32) -> (r: Span)
        ensures
            r == end_span(self.state(), start),
    {
        span_new(start, self.prev_end)
    }

    /// Whether the parser is inside an ArkUI DSL body.
    pub fn is_in_arkui_dsl_context(&self) -> (r: bool)
        ensures
            r == (self.depth() > 0),
    {
        self.arkui_dsl_depth > 0
    }

    pub fn has_fatal_error(&self) -> (r: bool)
        ensures
            r == self.state().fatal,
    {
        self.fatal
    }

    pub fn is_ts(&self) -> (r: bool)
        ensures
            r == self.env().is_ts,
    {
        self.is_ts
    }

    pub fn bump_any(&mut self)
        requires
            old(self).wf(),
        ensures
            final(self).wf(),
            final(self).same_input(old(self)),
            final(self).state() == bump(old(self).env(), old(self).state()),
    {
        if self.pos + 1 < self.tokens.len() {
            self.prev_end = self.tokens[self.pos].span.end;
            self.pos = self.pos + 1;
        }
    }

    pub fn eat(&mut self, k: Kind) -> (r: bool)
        requires
            old(self).wf(),
        ensures
            final(self).wf(),
            final(self).same_input(old(self)),
            (r, final(self).state()) == eat(old(self).env(), old(self).state(), k),
    {
        if self.at(k) {
            self.bump_any();
            true
        } else {
            false
        }
    }

    pub fn error(&mut self, d: Diagnostic)
        ensures
            final(self).same_input(old(self)),
            final(self).state() == add_error(old(self).state(), d),
    {
        self.errors.push(d);
    }

    pub fn set_fatal_error(&mut self, d: Diagnostic)
        ensures
            final(self).same_input(old(self)),
            final(self).state() == add_fatal(old(self).state(), d),
    {
        if !self.fatal {
            self.errors.push(d);
            self.fatal = true;
        }
    }

    pub fn expect(&mut self, k: Kind)
        requires
            old(self).wf(),
        ensures
            final(self).wf(),
            final(self).same_input(old(self)),
            final(self).state() == expect(old(self).env(), old(self).state(), k),
    {
        if self.at(k) {
            self.bump_any();
        } else {
            let found = self.cur_kind();
            let span = self.tokens[self.pos].span;
            self.set_fatal_error(
                Diagnostic { kind: DiagnosticKind::ExpectToken { expected: k, found }, span },
            );
        }
    }

    pub fn push_node(&mut self, n: Node) -> (id: NodeId)
        requires
            old(self).wf(),
            node_ok(n, old(self).nodes.len() as int, old(self).lists@, old(self).tokens.len() as int),
        ensures
            final(self).wf(),
            id < final(self).nodes.len(),
            final(self).same_input(old(self)),
            (id, final(self).state()) == push_node(old(self).state(), n),
    {
        let id = self.nodes.len();
        self.nodes.push(n);
        id
    }

    pub fn push_list(&mut self, ids: Vec<NodeId>) -> (r: ListRef)
        requires
            old(self).wf(),
            below(ids@, old(self).nodes.len() as int),
        ensures
            final(self).wf(),
            list_below(final(self).lists@, r, final(self).nodes.len() as int),
            final(self).same_input(old(self)),
            (r, final(self).state()) == push_list(old(self).state(), ids@),
    {
        let start = self.lists.len();
        let len = ids.len();
        let ghost old_lists = self.lists@;
        let ghost old_ids = ids@;
        let mut ids = ids;
        self.lists.append(&mut ids);
        proof {
            assert(self.lists@ == old_lists + old_ids);
            assert forall|i: int| 0 <= i < self.nodes@.len() implies
                node_ok(#[trigger] self.nodes@[i], i, self.lists@, self.tokens.len() as int) by {
                lemma_node_ok_extend(self.nodes@[i], i, old_lists, old_ids, self.tokens.len() as int);
            }
            assert forall|k: int| start <= k < start + len implies #[trigger] self.lists@[k] < self.nodes.len() by {
                assert(self.lists@[k] == old_ids[k - start]);
            }
        }
        ListRef { start, len }
    }

    pub fn unexpected(&mut self) -> (id: NodeId)
        requires
            old(self).wf(),
        ensures
            final(self).wf(),
            final(self).same_input(old(self)),
            (id, final(self).state()) == unexpected(old(self).env(), old(self).state()),
    {
        let kind = self.cur_kind();
        let span = self.tokens[self.pos].span;
        self.set_fatal_error(Diagnostic { kind: DiagnosticKind::Unexpected(kind), span });
        self.push_node(Node::Invalid { span })
    }

    pub(crate) fn checkpoint(&self) -> (c: Checkpoint)
        ensures
            c.pos == self.state().pos,
            c.prev_end == self.state().prev_end,
            c.errors_len == self.state().errors.len(),
            c.fatal == self.state().fatal,
    {
        Checkpoint {
            pos: self.pos,
            prev_end: self.prev_end,
            errors_len: self.errors.len(),
            fatal: self.fatal,
        }
    }

    /// Goes back to `c`: the cursor and the diagnostics are as they were;
    /// nodes built since stay in the arena, unreferenced.
    pub(crate) fn rewind(&mut self, c: Checkpoint)
        requires
            old(self).wf(),
            c.pos < old(self).env().toks.len(),
            c.errors_len <= old(self).state().errors.len(),
        ensures
            final(self).wf(),
            final(self).same_input(old(self)),
            final(self).state() == (PState {
                pos: c.pos as int,
                prev_end: c.prev_end,
                errors: old(self).state().errors.take(c.errors_len as int),
                fatal: c.fatal,
                ..old(self).state()
            }),
    {
        self.pos = c.pos;
        self.prev_end = c.prev_end;
        self.errors.truncate(c.errors_len);
        self.fatal = c.fatal;
    }
}

} // verus!
