//! What the nodes that the ArkUI parse functions build hold, stated against
//! the input tokens and the functions' arguments.
use vstd::prelude::*;
use crate::token::{Kind, Token};
use crate::ast::{ListRef, Node, NodeId};
use crate::parser::{Env, PState, at, bump, expect};
use crate::grammar::{
    RunMode, lemma_angle_close_forward, lemma_run_end_forward, next_depth, run_end,
    run_ends_at, spec_delimited, spec_run_node, spec_try_type_arguments,
};
use crate::arkui::{spec_component, spec_component_head};

verus! {

/// The ids that list `l` names.
pub open spec fn list_of(lists: Seq<NodeId>, l: ListRef) -> Seq<NodeId> {
    lists.subrange(l.start as int, l.start + l.len)
}

/// A token sequence as the parser holds it: it ends with `Eof`, and its
/// indices fit in a `usize`.
pub open spec fn valid_input(e: Env) -> bool {
    &&& e.toks.len() > 0
    &&& e.toks.last().kind == Kind::Eof
    &&& e.toks.len() <= usize::MAX
}

/// The arenas' sizes fit in a `usize`, as those of a parser's vectors do.
pub open spec fn arenas_fit(s: PState) -> bool {
    s.nodes.len() <= usize::MAX && s.lists.len() <= usize::MAX
}

/// `b`'s arenas begin with `a`'s: nodes and lists are only ever appended.
pub open spec fn extends_arenas(a: PState, b: PState) -> bool {
    &&& a.nodes.len() <= b.nodes.len()
    &&& a.lists.len() <= b.lists.len()
    &&& forall|i: int| 0 <= i < a.nodes.len() ==> b.nodes[i] == a.nodes[i]
    &&& forall|i: int| 0 <= i < a.lists.len() ==> b.lists[i] == a.lists[i]
}

proof fn lemma_extends_trans(a: PState, b: PState, c: PState)
    requires
        extends_arenas(a, b),
        extends_arenas(b, c),
    ensures
        extends_arenas(a, c),
{
    assert forall|i: int| 0 <= i < a.nodes.len() implies c.nodes[i] == a.nodes[i] by {
        assert(c.nodes[i] == b.nodes[i]);
    }
    assert forall|i: int| 0 <= i < a.lists.len() implies c.lists[i] == a.lists[i] by {
        assert(c.lists[i] == b.lists[i]);
    }
}

/// The number of non-empty items that top-level commas separate among the
/// tokens `i..j`; `depth` is the bracket nesting at `i`, and `pending` says
/// whether the current item already has a token.  From nesting 0 with
/// nothing pending: `a, b` has 2 items, `a,` has 1, `f(a, b)` has 1 and the
/// empty range has none.
pub open spec fn top_level_items(toks: Seq<Token>, i: int, j: int, depth: nat, pending: bool) -> nat
    decreases j - i,
{
    if i >= j {
        if pending { 1 } else { 0 }
    } else if depth == 0 && toks[i].kind == Kind::Comma {
        (if pending { 1nat } else { 0nat }) + top_level_items(toks, i + 1, j, 0, false)
    } else {
        top_level_items(toks, i + 1, j, next_depth(toks[i].kind, depth), true)
    }
}

/// An argument run holds no top-level comma, and when it ends on a token
/// inside the input it ends back at nesting 0.
proof fn lemma_argument_run_items(toks: Seq<Token>, i: int, depth: nat, first: bool, k: int, pending: bool)
    requires
        0 <= i,
        run_end(toks, i, depth, first, RunMode::Argument) <= k,
        run_end(toks, i, depth, first, RunMode::Argument) + 1 < toks.len(),
        toks[run_end(toks, i, depth, first, RunMode::Argument)].kind != Kind::Eof,
    ensures
        top_level_items(toks, i, k, depth, pending) == top_level_items(
            toks,
            run_end(toks, i, depth, first, RunMode::Argument),
            k,
            0,
            pending || run_end(toks, i, depth, first, RunMode::Argument) > i,
        ),
    decreases toks.len() - i,
{
    if !(i >= toks.len() || run_ends_at(toks, i, depth, first, RunMode::Argument)) {
        lemma_run_end_forward(toks, i + 1, next_depth(toks[i].kind, depth), false, RunMode::Argument);
        lemma_argument_run_items(toks, i + 1, next_depth(toks[i].kind, depth), false, k, true);
    }
}

/// A comma-separated list parsed up to `close` has one entry per non-empty
/// item between where it starts and the `close` it stops at; it only ever
/// appends to the arenas, and a fatal error stays.
pub proof fn lemma_delimited_items(e: Env, s: PState, close: Kind, param: bool, first: bool)
    requires
        valid_input(e),
        0 <= s.pos < e.toks.len(),
        close != Kind::Eof,
        close != Kind::Comma,
    ensures
        ({
            let (args, t) = spec_delimited(e, s, close, param, first);
            &&& s.pos <= t.pos < e.toks.len()
            &&& extends_arenas(s, t)
            &&& (s.fatal ==> t.fatal)
            &&& (!t.fatal ==> at(e, t, close) && args.len() == top_level_items(e.toks, s.pos, t.pos, 0, false))
        }),
    decreases e.toks.len() - s.pos,
{
    if at(e, s, close) || s.fatal {
    } else if !first && !at(e, s, Kind::Comma) {
    } else {
        let s1 = if first { s } else { bump(e, s) };
        if !first {
            assert(top_level_items(e.toks, s.pos, s1.pos, 0, false)
                == top_level_items(e.toks, s1.pos, s1.pos, 0, false));
        }
        if !first && at(e, s1, close) {
        } else {
            let (x, s2) = spec_run_node(e, s1, RunMode::Argument, param);
            lemma_run_end_forward(e.toks, s1.pos, 0, true, RunMode::Argument);
            let j = run_end(e.toks, s1.pos, 0, true, RunMode::Argument);
            assert(extends_arenas(s1, s2));
            assert(s1.nodes == s.nodes && s1.lists == s.lists);
            assert(extends_arenas(s, s2));
            if j <= s1.pos && s.pos < s2.pos {
                // The run was empty: a fatal error, which the rest keeps.
                lemma_delimited_items(e, s2, close, param, false);
                lemma_extends_trans(s, s2, spec_delimited(e, s2, close, param, false).1);
            }
            if j > s1.pos {
                assert(s2.pos == j);
                lemma_delimited_items(e, s2, close, param, false);
                let (rest, t) = spec_delimited(e, s2, close, param, false);
                lemma_extends_trans(s, s2, t);
                if !t.fatal {
                    assert(e.toks[j].kind == close || e.toks[j].kind == Kind::Comma);
                    lemma_argument_run_items(e.toks, s1.pos, 0, true, t.pos, false);
                    if !first {
                        assert(top_level_items(e.toks, s.pos, t.pos, 0, false)
                            == top_level_items(e.toks, s1.pos, t.pos, 0, false));
                    }
                    if e.toks[j].kind == Kind::Comma {
                        assert(j < t.pos);
                        assert(top_level_items(e.toks, j, t.pos, 0, true)
                            == 1 + top_level_items(e.toks, j + 1, t.pos, 0, false));
                        assert(top_level_items(e.toks, j, t.pos, 0, false)
                            == top_level_items(e.toks, j + 1, t.pos, 0, false));
                    } else {
                        assert(t == s2);
                    }
                }
            }
        }
    }
}

/// The `(` of a component's argument list: the token after its type
/// arguments (TypeScript), or the one after its callee.
pub open spec fn component_open_paren(e: Env, s: PState) -> int {
    if e.is_ts { spec_try_type_arguments(e, s).1.pos } else { s.pos }
}

/// The node that finishes a component holds its callee and the arguments it
/// was given, in order.
proof fn lemma_component_node(
    e: Env,
    d: int,
    h: PState,
    start: u32,
    callee: NodeId,
    targs: Option<crate::span::Span>,
    args: Seq<NodeId>,
)
    ensures
        ({
            let (id, t) = crate::arkui::spec_component_after_args(e, d, h, start, callee, targs, args);
            arenas_fit(t) ==> {
                &&& id < t.nodes.len()
                &&& t.nodes[id as int] matches Node::ArkUIComponentExpression { callee: c, arguments, .. }
                &&& c == callee
                &&& list_of(t.lists, arguments) == args
            }
        }),
{
    let (kids, k1) = crate::arkui::spec_children_block(e, d, h);
    let (chain, k2) = crate::arkui::spec_chain(e, k1);
    let (al, k3) = crate::parser::push_list(k2, args);
    let (kl, k4) = crate::parser::push_list(k3, kids);
    let (cl, k5) = crate::parser::push_list(k4, chain);
    let (id, t) = crate::arkui::spec_component_after_args(e, d, h, start, callee, targs, args);
    assert(t.lists == k5.lists);
    if arenas_fit(t) {
        assert(list_of(t.lists, al) =~= args);
    }
}

/// A component's argument list runs from its `(` to its `)` and has one
/// entry per non-empty top-level item between them, unless a fatal error
/// stopped it.
proof fn lemma_component_head_items(e: Env, s: PState)
    requires
        valid_input(e),
        0 <= s.pos < e.toks.len(),
    ensures
        ({
            let o = component_open_paren(e, s);
            let (targs, args, h) = spec_component_head(e, s);
            !h.fatal ==> {
                &&& e.toks[o].kind == Kind::LParen
                &&& e.toks[h.pos - 1].kind == Kind::RParen
                &&& args.len() == top_level_items(e.toks, o + 1, h.pos - 1, 0, false)
            }
        }),
{
    let s1 = if e.is_ts { spec_try_type_arguments(e, s).1 } else { s };
    if e.is_ts {
        lemma_angle_close_forward(e.toks, s.pos + 1, 1);
    }
    assert(0 <= s1.pos < e.toks.len());
    let s2 = expect(e, s1, Kind::LParen);
    lemma_delimited_items(e, s2, Kind::RParen, false, true);
}

/// A component expression is built from its callee and from all of its
/// arguments in source order: when its argument list parses without a fatal
/// error, that list runs from a `(` to a `)`, and the component's arguments
/// list has one entry per non-empty top-level item between them.
pub proof fn law_component_arguments(e: Env, d: int, s: PState, callee: NodeId)
    requires
        valid_input(e),
        0 <= s.pos < e.toks.len(),
    ensures
        ({
            let o = component_open_paren(e, s);
            let (targs, args, h) = spec_component_head(e, s);
            let (id, t) = spec_component(e, d, s, callee);
            arenas_fit(t) ==> {
                &&& id < t.nodes.len()
                &&& t.nodes[id as int] matches Node::ArkUIComponentExpression { callee: c, arguments, .. }
                &&& c == callee
                &&& list_of(t.lists, arguments) == args
                &&& !h.fatal ==> {
                    &&& e.toks[o].kind == Kind::LParen
                    &&& e.toks[h.pos - 1].kind == Kind::RParen
                    &&& args.len() == top_level_items(e.toks, o + 1, h.pos - 1, 0, false)
                }
            }
        }),
{
    let (targs, args, h) = spec_component_head(e, s);
    assert(spec_component(e, d, s, callee) == crate::arkui::spec_component_after_args(
        e, d, h, crate::parser::start_of(e, s), callee, targs, args));
    lemma_component_node(e, d, h, crate::parser::start_of(e, s), callee, targs, args);
    lemma_component_head_items(e, s);
}

/// Call `id` of a chain, `.name(args)` built as the call of member `name`:
/// `name` is token `name_token`, its `(` is the next token, and the call's
/// arguments list has one entry per non-empty top-level item between that
/// `(` and the `)` that ends the call's span.
pub open spec fn chain_call_ok(toks: Seq<Token>, t: PState, id: NodeId) -> bool {
    &&& id < t.nodes.len()
    &&& t.nodes[id as int] matches Node::CallExpression { span, callee, arguments }
    &&& callee < t.nodes.len()
    &&& t.nodes[callee as int] matches Node::StaticMemberExpression { property, .. }
    &&& property < t.nodes.len()
    &&& t.nodes[property as int] matches Node::IdentifierName { name_token, .. }
    &&& arguments.start + arguments.len <= t.lists.len()
    &&& name_token + 1 < toks.len()
    &&& toks[name_token + 1].kind == Kind::LParen
    &&& exists|c: int|
        #![trigger toks[c]]
        name_token + 1 < c < toks.len() && toks[c].kind == Kind::RParen && toks[c].span.end == span.end
            && list_of(t.lists, arguments).len() == top_level_items(toks, name_token + 2, c, 0, false)
}

proof fn lemma_chain_call_ok_extends(toks: Seq<Token>, a: PState, b: PState, id: NodeId)
    requires
        chain_call_ok(toks, a, id),
        extends_arenas(a, b),
    ensures
        chain_call_ok(toks, b, id),
{
    if let Node::CallExpression { span, callee, arguments } = a.nodes[id as int] {
        assert(list_of(b.lists, arguments) =~= list_of(a.lists, arguments));
        if let Node::StaticMemberExpression { property, .. } = a.nodes[callee as int] {
            if let Node::IdentifierName { name_token, .. } = a.nodes[property as int] {
                let c = choose|c: int|
                    #![trigger toks[c]]
                    name_token + 1 < c < toks.len() && toks[c].kind == Kind::RParen && toks[c].span.end == span.end
                        && list_of(a.lists, arguments).len() == top_level_items(toks, name_token + 2, c, 0, false);
                assert(toks[c].kind == Kind::RParen);
            }
        }
    }
}

/// Each call of a chain of attribute calls `.name(args)` is built from all
/// of its arguments: when the chain parses without a fatal error, every call
/// in it satisfies [`chain_call_ok`].  The chain only appends to the arenas.
pub proof fn law_chain_call_arguments(e: Env, s: PState)
    requires
        valid_input(e),
        0 <= s.pos < e.toks.len(),
    ensures
        ({
            let (chain, t) = crate::arkui::spec_chain(e, s);
            &&& s.pos <= t.pos < e.toks.len()
            &&& extends_arenas(s, t)
            &&& (s.fatal ==> t.fatal)
            &&& (!t.fatal && arenas_fit(t)) ==> forall|i: int|
                0 <= i < chain.len() ==> chain_call_ok(e.toks, t, #[trigger] chain[i])
        }),
    decreases e.toks.len() - s.pos,
{
    let (ate, s1) = crate::parser::eat(e, s, Kind::Dot);
    if ate && crate::token::kind_is_identifier_or_keyword(crate::parser::cur_kind(e, s1)) {
        let (ident, s2) = crate::grammar::spec_identifier(e, s1, crate::grammar::IdentRole::Name);
        if at(e, s2, Kind::LParen) {
            let member_span = crate::parser::end_span(s2, crate::parser::start_of(e, s1));
            let (this, s3) = crate::parser::push_node(s2, Node::ThisExpression { span: member_span });
            let (member, s4) = crate::parser::push_node(
                s3,
                Node::StaticMemberExpression { span: member_span, object: this, property: ident },
            );
            let call_start = crate::parser::start_of(e, s4);
            let s5 = expect(e, s4, Kind::LParen);
            assert(s5.pos == s1.pos + 2);
            lemma_delimited_items(e, s5, Kind::RParen, false, true);
            let (args, s6) = spec_delimited(e, s5, Kind::RParen, false, true);
            let s7 = expect(e, s6, Kind::RParen);
            let call_span = crate::parser::end_span(s7, call_start);
            let (al, s8) = crate::parser::push_list(s7, args);
            let (call, s9) = crate::parser::push_node(
                s8,
                Node::CallExpression { span: call_span, callee: member, arguments: al },
            );
            assert(s.pos < s9.pos < e.toks.len());
            law_chain_call_arguments(e, s9);
            let (rest, t) = crate::arkui::spec_chain(e, s9);
            assert(crate::arkui::spec_chain(e, s) == (seq![call] + rest, t));
            assert(extends_arenas(s, s4));
            lemma_extends_trans(s, s4, s6);
            assert(extends_arenas(s6, s9));
            lemma_extends_trans(s, s6, s9);
            lemma_extends_trans(s, s9, t);
            if !t.fatal && arenas_fit(t) {
                assert(!s6.fatal && at(e, s6, Kind::RParen));
                assert(s7.prev_end == e.toks[s6.pos].span.end);
                let c = s6.pos;
                assert(list_of(s9.lists, al) =~= args);
                assert(e.toks[c].kind == Kind::RParen);
                assert(chain_call_ok(e.toks, s9, call));
                lemma_chain_call_ok_extends(e.toks, s9, t, call);
                assert forall|i: int| 0 <= i < rest.len() + 1 implies chain_call_ok(
                    e.toks,
                    t,
                    #[trigger] (seq![call] + rest)[i],
                ) by {
                    if i > 0 {
                        assert((seq![call] + rest)[i] == rest[i - 1]);
                    }
                }
            }
        }
    }
}

// ---------------------------------------------------------------------------
// Struct and annotation elements keep their decorators.

/// The decorators list of a method or property node.
pub open spec fn element_decorators(t: PState, id: NodeId) -> Option<Seq<NodeId>> {
    if id < t.nodes.len() {
        match t.nodes[id as int] {
            Node::MethodDefinition { decorators, .. } => Some(list_of(t.lists, decorators)),
            Node::PropertyDefinition { decorators, .. } => Some(list_of(t.lists, decorators)),
            _ => None,
        }
    } else {
        None
    }
}

/// A struct property is built from the decorators written in front of it,
/// all of them and in order, and from its name and marks.
pub proof fn law_property_keeps_decorators(
    e: Env,
    s: PState,
    start: u32,
    name: NodeId,
    computed: bool,
    optional_span: Option<crate::span::Span>,
    definite: bool,
    ms: Seq<crate::modifiers::Modifier>,
    decorators: Seq<NodeId>,
)
    ensures
        ({
            let (id, t) = crate::arkui::spec_property_declaration_for_struct(
                e, s, start, name, computed, optional_span, definite, ms, decorators,
            );
            arenas_fit(t) ==> {
                &&& element_decorators(t, id) == Some(decorators)
                &&& t.nodes[id as int] matches Node::PropertyDefinition {
                    key,
                    computed: c,
                    optional,
                    definite: df,
                    ..
                }
                &&& key == name
                &&& c == computed
                &&& optional == (optional_span is Some)
                &&& df == definite
            }
        }),
{
    let (id, t) = crate::arkui::spec_property_declaration_for_struct(
        e, s, start, name, computed, optional_span, definite, ms, decorators,
    );
    if arenas_fit(t) {
        if let Node::PropertyDefinition { decorators: dl, .. } = t.nodes[id as int] {
            assert(list_of(t.lists, dl) =~= decorators);
        }
    }
}

/// A struct method is built from the decorators written in front of it, all
/// of them and in order, and from its name.
pub proof fn law_method_keeps_decorators(
    e: Env,
    d: int,
    s: PState,
    start: u32,
    def_type: crate::ast::MethodDefinitionType,
    generator: bool,
    name: NodeId,
    computed: bool,
    optional: bool,
    ms: Seq<crate::modifiers::Modifier>,
    decorators: Seq<NodeId>,
)
    ensures
        ({
            let (id, t) = crate::arkui::spec_method_declaration_for_struct(
                e, d, s, start, def_type, generator, name, computed, optional, ms, decorators,
            );
            arenas_fit(t) ==> {
                &&& element_decorators(t, id) == Some(decorators)
                &&& t.nodes[id as int] matches Node::MethodDefinition { key, kind, computed: c, optional: o, .. }
                &&& key == name
                &&& kind == crate::ast::MethodDefinitionKind::Method
                &&& c == computed
                &&& o == optional
            }
        }),
{
    let (id, t) = crate::arkui::spec_method_declaration_for_struct(
        e, d, s, start, def_type, generator, name, computed, optional, ms, decorators,
    );
    if arenas_fit(t) {
        if let Node::MethodDefinition { decorators: dl, .. } = t.nodes[id as int] {
            assert(list_of(t.lists, dl) =~= decorators);
        }
    }
}

/// A struct accessor is built from the decorators written in front of it,
/// all of them and in order, and has the accessor's kind.
pub proof fn law_accessor_keeps_decorators(
    e: Env,
    d: int,
    s: PState,
    start: u32,
    def_type: crate::ast::MethodDefinitionType,
    kind: crate::ast::MethodDefinitionKind,
    ms: Seq<crate::modifiers::Modifier>,
    decorators: Seq<NodeId>,
)
    ensures
        ({
            let (id, t) = crate::arkui::spec_struct_accessor_declaration(
                e, d, s, start, def_type, kind, ms, decorators,
            );
            arenas_fit(t) ==> {
                &&& element_decorators(t, id) == Some(decorators)
                &&& t.nodes[id as int] matches Node::MethodDefinition { kind: k, .. }
                &&& k == kind
            }
        }),
{
    let (id, t) = crate::arkui::spec_struct_accessor_declaration(
        e, d, s, start, def_type, kind, ms, decorators,
    );
    if arenas_fit(t) {
        if let Node::MethodDefinition { decorators: dl, .. } = t.nodes[id as int] {
            assert(list_of(t.lists, dl) =~= decorators);
        }
    }
}

proof fn lemma_property_or_method_keeps_decorators(
    e: Env,
    d: int,
    s: PState,
    start: u32,
    def_type: crate::ast::MethodDefinitionType,
    ms: Seq<crate::modifiers::Modifier>,
    decorators: Seq<NodeId>,
)
    ensures
        ({
            let (id, t) = crate::arkui::spec_property_or_method_declaration_for_struct(
                e, d, s, start, def_type, ms, decorators,
            );
            arenas_fit(t) ==> element_decorators(t, id) == Some(decorators)
        }),
{
    let (generator, s1) = crate::parser::eat(e, s, Kind::Star);
    let ((name, computed), s2) = crate::grammar::spec_property_name(e, s1);
    let (optional_span, s3) = crate::arkui::spec_optional_mark(e, s2);
    if generator || at(e, s3, Kind::LParen) || at(e, s3, Kind::LAngle) {
        law_method_keeps_decorators(
            e, d, s3, start, def_type, generator, name, computed, optional_span is Some, ms, decorators,
        );
    } else {
        let (definite, s4) = crate::parser::eat(e, s3, Kind::Bang);
        let s5 = crate::arkui::check_optional_definite(s4, optional_span, definite);
        law_property_keeps_decorators(e, s5, start, name, computed, optional_span, definite, ms, decorators);
    }
}

/// A struct element, method, accessor or property, is built from all the
/// decorators written in front of it, in order: its decorators list is the
/// list that parsing those decorators gives.
pub proof fn law_struct_element_keeps_decorators(e: Env, d: int, s: PState)
    ensures
        ({
            let (id, t) = crate::arkui::spec_struct_element(e, d, s);
            arenas_fit(t) ==> element_decorators(t, id) == Some(crate::grammar::spec_decorators(e, s).0)
        }),
{
    reveal(crate::arkui::spec_struct_element);
    let start = crate::parser::start_of(e, s);
    let (decorators, s1) = crate::grammar::spec_decorators(e, s);
    let (ms, s2) = crate::grammar::spec_modifiers(e, s1, true);
    let s3 = crate::grammar::spec_verify_modifiers(
        s2,
        ms,
        seq![crate::modifiers::ModifierKind::Export],
        true,
        crate::grammar::ModifierDiagnostic::CannotAppearOnClassElements,
    );
    let def_type = if crate::modifiers::modifiers_contain(ms, crate::modifiers::ModifierKind::Abstract) {
        crate::ast::MethodDefinitionType::TSAbstractMethodDefinition
    } else {
        crate::ast::MethodDefinitionType::MethodDefinition
    };
    let (is_get, s4) = crate::grammar::spec_contextual_modifier(e, s3, Kind::GetKeyword);
    if is_get {
        law_accessor_keeps_decorators(
            e, d, s4, start, def_type, crate::ast::MethodDefinitionKind::Getter, ms, decorators,
        );
    } else {
        let (is_set, s5) = crate::grammar::spec_contextual_modifier(e, s4, Kind::SetKeyword);
        if is_set {
            law_accessor_keeps_decorators(
                e, d, s5, start, def_type, crate::ast::MethodDefinitionKind::Setter, ms, decorators,
            );
        } else if crate::token::kind_is_identifier_or_keyword(crate::parser::cur_kind(e, s5))
            || at(e, s5, Kind::Star) || at(e, s5, Kind::LBrack) {
            lemma_property_or_method_keeps_decorators(e, d, s5, start, def_type, ms, decorators);
        } else {
            let ((name, computed), t1) = crate::grammar::spec_property_name(e, s5);
            let (optional_span, t2) = crate::arkui::spec_optional_mark(e, t1);
            let (definite, t3) = crate::parser::eat(e, t2, Kind::Bang);
            let t4 = crate::arkui::check_optional_definite(t3, optional_span, definite);
            law_property_keeps_decorators(e, t4, start, name, computed, optional_span, definite, ms, decorators);
        }
    }
}

/// An annotation element is a property built from all the decorators
/// written in front of it, in order, and is never marked optional or
/// definite, even when a `?` follows its name.
pub proof fn law_annotation_element_keeps_decorators(e: Env, s: PState)
    ensures
        ({
            let (id, t) = crate::arkui::spec_annotation_element(e, s);
            arenas_fit(t) ==> {
                &&& element_decorators(t, id) == Some(crate::grammar::spec_decorators(e, s).0)
                &&& t.nodes[id as int] matches Node::PropertyDefinition { optional, definite, .. }
                &&& !optional
                &&& !definite
            }
        }),
{
    reveal(crate::arkui::spec_annotation_element);
    let start = crate::parser::start_of(e, s);
    let (decorators, s1) = crate::grammar::spec_decorators(e, s);
    let (ms, s2) = crate::grammar::spec_modifiers(e, s1, true);
    let s3 = crate::grammar::spec_verify_modifiers(
        s2,
        ms,
        seq![crate::modifiers::ModifierKind::Export],
        true,
        crate::grammar::ModifierDiagnostic::CannotAppearOnClassElements,
    );
    let ((name, computed), s4) = crate::grammar::spec_property_name(e, s3);
    let s5 = crate::arkui::spec_optional_mark(e, s4).1;
    law_property_keeps_decorators(e, s5, start, name, computed, None, false, ms, decorators);
}

// ---------------------------------------------------------------------------
// Control statements.

/// A control statement does not end at a block that a continuation keyword
/// follows (`else`, `catch`, `finally`, or `while` after `do`), whatever
/// token comes after the keyword: the block is one part, and the keyword
/// starts at least one more (`if (c) {..} else if (d) {..}` stays one
/// statement).
pub proof fn law_continuation_keeps_statement_going(e: Env, d: int, s: PState, keyword: Kind)
    requires
        valid_input(e),
        0 <= s.pos < e.toks.len(),
        at(e, s, Kind::LCurly),
    ensures
        ({
            let (b, s1) = crate::statements::spec_block_statement(e, d, s);
            let (parts, t) = crate::statements::spec_control_parts(e, d, s, keyword);
            (crate::statements::is_continuation(keyword, crate::parser::cur_kind(e, s1))
                && s.pos < s1.pos < e.toks.len() && !s1.fatal) ==> {
                &&& parts.len() >= 2
                &&& parts[0] == b
            }
        }),
{
    let (b, s1) = crate::statements::spec_block_statement(e, d, s);
    if crate::statements::is_continuation(keyword, crate::parser::cur_kind(e, s1))
        && s.pos < s1.pos < e.toks.len() && !s1.fatal {
        // The keyword is not the last token, which is `Eof`, so the run
        // that starts at it is not empty.
        assert(s1.pos + 1 < e.toks.len());
        assert(!run_ends_at(e.toks, s1.pos, 0, true, RunMode::Header));
        let k = e.toks[s1.pos].kind;
        lemma_run_end_forward(e.toks, s1.pos + 1, next_depth(k, 0), false, RunMode::Header);
        assert(crate::grammar::run_from(e, s1, RunMode::Header) > s1.pos);
        let rest = crate::statements::spec_control_parts(e, d, s1, keyword).0;
        assert(rest.len() >= 1);
        assert(crate::statements::spec_control_parts(e, d, s, keyword).0 == seq![b] + rest);
    }
}

} // verus!
