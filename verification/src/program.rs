//! Top-level items: struct and annotation declarations with their
//! decorators and modifiers, and other statements.
use vstd::prelude::*;
use crate::token::Kind;
use crate::ast::NodeId;
use crate::grammar::{spec_decorators, spec_modifiers};
use crate::statements::spec_statement;
use crate::arkui::{StatementContext, spec_annotation_statement, spec_struct_statement};
use crate::parser::{
    below, progressed,Env, PState, ParserImpl, at, bump, eat, peek_kind, start_of};

verus! {

/// A top-level item: `@interface` annotations, decorated `struct`s, and
/// statements.  An `export` after the decorators marks the declaration as
/// exported and is not one of its modifiers; decorators and modifiers in
/// front of a statement are dropped.
pub open spec fn spec_top_level_item(e: Env, d: int, s: PState) -> (NodeId, PState) {
    let start = start_of(e, s);
    if at(e, s, Kind::At) && peek_kind(e, s) == Kind::Interface {
        spec_annotation_statement(e, d, bump(e, s), start, StatementContext::StatementList, Seq::empty(), Seq::empty())
    } else {
        let (decorators, s0) = spec_decorators(e, s);
        let s1 = eat(e, s0, Kind::Export).1;
        let (ms, s2) = spec_modifiers(e, s1, false);
        if at(e, s2, Kind::Struct) {
            spec_struct_statement(e, d, s2, start, StatementContext::StatementList, ms, decorators)
        } else if at(e, s2, Kind::At) && peek_kind(e, s2) == Kind::Interface {
            spec_annotation_statement(e, d, bump(e, s2), start, StatementContext::StatementList, ms, decorators)
        } else {
            spec_statement(e, d, s2)
        }
    }
}

/// The top-level items up to the end of input, or up to a fatal error.
pub open spec fn spec_program(e: Env, d: int, s: PState) -> (Seq<NodeId>, PState)
    decreases e.toks.len() - s.pos,
{
    if at(e, s, Kind::Eof) || s.fatal {
        (Seq::empty(), s)
    } else {
        let (x, s1) = spec_top_level_item(e, d, s);
        if s.pos < s1.pos <= e.toks.len() {
            let (rest, s2) = spec_program(e, d, s1);
            (seq![x] + rest, s2)
        } else {
            (seq![x], s1)
        }
    }
}

impl ParserImpl {
    fn parse_top_level_item(&mut self) -> (id: NodeId)
        requires
            old(self).wf(),
        ensures
            final(self).advanced_from(old(self)),
            progressed(old(self).state(), final(self).state()),
            id < final(self).nodes.len(),
            (id, final(self).state()) == spec_top_level_item(old(self).env(), old(self).depth(), old(self).state()),
    {
        let start = self.start_span();
        if self.at(Kind::At) && self.peek_kind() == Kind::Interface {
            self.bump_any();
            let none = crate::modifiers::Modifiers { list: Vec::new() };
            return self.parse_annotation_statement(start, StatementContext::StatementList, &none, Vec::new());
        }
        let decorators = self.parse_decorators();
        self.eat(Kind::Export);
        let modifiers = self.parse_modifiers(false);
        if self.at(Kind::Struct) {
            self.parse_struct_statement(start, StatementContext::StatementList, &modifiers, decorators)
        } else if self.at(Kind::At) && self.peek_kind() == Kind::Interface {
            self.bump_any();
            self.parse_annotation_statement(start, StatementContext::StatementList, &modifiers, decorators)
        } else {
            self.parse_statement_list_item()
        }
    }

    /// Parses the whole input: the top-level items, in order.  It stops
    /// only at the end of the input or at a fatal error.
    pub fn parse_program(&mut self) -> (r: Vec<NodeId>)
        requires
            old(self).wf(),
        ensures
            final(self).advanced_from(old(self)),
            at(old(self).env(), final(self).state(), Kind::Eof) || final(self).state().fatal,
            below(r@, final(self).nodes.len() as int),
            (r@, final(self).state()) == spec_program(old(self).env(), old(self).depth(), old(self).state()),
    {
        let ghost e = self.env();
        let ghost d = self.depth();
        let ghost s0 = self.state();
        let mut list: Vec<NodeId> = Vec::new();
        loop
            invariant_except_break
                spec_program(e, d, s0) == (list@ + spec_program(e, d, self.state()).0, spec_program(e, d, self.state()).1),
            invariant
                self.advanced_from(old(self)),
                self.env() == e,
                below(list@, self.nodes.len() as int),
                self.depth() == d,
                s0 == old(self).state(),
            ensures
                spec_program(e, d, s0) == (list@, self.state()),
                at(e, self.state(), Kind::Eof) || self.state().fatal,
            decreases e.toks.len() - self.pos,
        {
            if self.at(Kind::Eof) || self.has_fatal_error() {
                assert(list@ + Seq::<NodeId>::empty() == list@);
                break;
            }
            let before = self.pos;
            let x = self.parse_top_level_item();
            let ghost old_list = list@;
            list.push(x);
            if before < self.pos {
                assert(old_list + (seq![x] + spec_program(e, d, self.state()).0) == list@ + spec_program(e, d, self.state()).0);
            } else {
                assert(old_list + seq![x] == list@);
                break;
            }
        }
        list
    }
}

} // verus!
