use vstd::prelude::*;
use crate::span::Span;

verus! {

/// The kind of a token.
#[derive(Clone, Copy, Debug, PartialEq, Eq, Structural)]
pub enum Kind {
    /// End of input; the last token of every token sequence.
    Eof,
    Ident,
    PrivateIdent,
    Str,
    Num,
    // Keywords and contextual keywords.
    Struct,
    Interface,
    GetKeyword,
    SetKeyword,
    Async,
    Static,
    Readonly,
    Abstract,
    Declare,
    Public,
    Private,
    Protected,
    Override,
    Accessor,
    Export,
    Const,
    If,
    For,
    While,
    Do,
    Switch,
    Try,
    With,
    Break,
    Continue,
    Return,
    Throw,
    Debugger,
    Else,
    Catch,
    Finally,
    This,
    /// Any other reserved word (`new`, `typeof`, `true`, ...).
    OtherKeyword,
    // Punctuators.
    LCurly,
    RCurly,
    LParen,
    RParen,
    LBrack,
    RBrack,
    LAngle,
    RAngle,
    Semicolon,
    Comma,
    Dot,
    Star,
    Question,
    Bang,
    Colon,
    Eq,
    At,
    /// A binary or assignment operator other than `*`, `<`, `>` and `=`:
    /// `+ - / % ** == != === !== <= >= && || ?? & | ^ << >> >>>`, the
    /// compound assignments, `=>` and `?.`.
    Operator,
    /// Any other punctuator or operator (`++ -- ~ ...`).
    OtherPunct,
}

/// A token of the input: its kind, its source range, whether a line break
/// precedes it, and its text (the name of an identifier, the value of a
/// string literal).
#[derive(Debug)]
pub struct Token {
    pub kind: Kind,
    pub span: Span,
    pub newline_before: bool,
    pub text: String,
}

/// Reserved and contextual words.
pub open spec fn kind_is_keyword(k: Kind) -> bool {
    match k {
        Kind::Struct | Kind::Interface | Kind::GetKeyword | Kind::SetKeyword | Kind::Async | Kind::Static
        | Kind::Readonly | Kind::Abstract | Kind::Declare | Kind::Public | Kind::Private
        | Kind::Protected | Kind::Override | Kind::Accessor | Kind::Export | Kind::Const
        | Kind::If | Kind::For | Kind::While | Kind::Do | Kind::Switch | Kind::Try
        | Kind::With | Kind::Break | Kind::Continue | Kind::Return | Kind::Throw
        | Kind::Debugger | Kind::Else | Kind::Catch | Kind::Finally | Kind::This
        | Kind::OtherKeyword => true,
        _ => false,
    }
}

/// An identifier or any word, reserved or not.
pub open spec fn kind_is_identifier_or_keyword(k: Kind) -> bool {
    k == Kind::Ident || kind_is_keyword(k)
}

/// A word that can name a binding: identifiers and contextual keywords.
pub open spec fn kind_is_binding_identifier(k: Kind) -> bool {
    match k {
        Kind::Ident | Kind::GetKeyword | Kind::SetKeyword | Kind::Async | Kind::Readonly | Kind::Abstract
        | Kind::Declare | Kind::Accessor | Kind::Override | Kind::Struct => true,
        _ => false,
    }
}

/// Keywords that start a control-flow statement.
pub open spec fn kind_is_control_flow(k: Kind) -> bool {
    match k {
        Kind::If | Kind::For | Kind::While | Kind::Do | Kind::Switch | Kind::Try | Kind::With
        | Kind::Break | Kind::Continue | Kind::Return | Kind::Throw | Kind::Debugger => true,
        _ => false,
    }
}

/// Tokens that continue an expression when they start a new line: member
/// access, binary and ternary operators, assignment, calls and indexing.
pub open spec fn kind_continues_expression(k: Kind) -> bool {
    match k {
        Kind::Dot | Kind::Operator | Kind::Star | Kind::Question | Kind::Colon | Kind::Eq
        | Kind::LAngle | Kind::RAngle | Kind::LParen | Kind::LBrack | Kind::Comma => true,
        _ => false,
    }
}

/// Tokens after which an expression needs another operand, so that a line
/// break after them does not end it.
pub open spec fn kind_expects_operand(k: Kind) -> bool {
    match k {
        Kind::Dot | Kind::Operator | Kind::Star | Kind::Question | Kind::Colon | Kind::Eq
        | Kind::LAngle | Kind::Comma => true,
        _ => false,
    }
}

pub open spec fn kind_is_opener(k: Kind) -> bool {
    k == Kind::LParen || k == Kind::LBrack || k == Kind::LCurly
}

pub open spec fn kind_is_closer(k: Kind) -> bool {
    k == Kind::RParen || k == Kind::RBrack || k == Kind::RCurly
}

impl Kind {
    pub fn is_identifier_or_keyword(&self) -> (r: bool)
        ensures
            r == kind_is_identifier_or_keyword(*self),
    {
        match self {
            Kind::Ident | Kind::Struct | Kind::Interface | Kind::GetKeyword | Kind::SetKeyword | Kind::Async
            | Kind::Static | Kind::Readonly | Kind::Abstract | Kind::Declare | Kind::Public
            | Kind::Private | Kind::Protected | Kind::Override | Kind::Accessor | Kind::Export
            | Kind::Const | Kind::If | Kind::For | Kind::While | Kind::Do | Kind::Switch
            | Kind::Try | Kind::With | Kind::Break | Kind::Continue | Kind::Return
            | Kind::Throw | Kind::Debugger | Kind::Else | Kind::Catch | Kind::Finally
            | Kind::This | Kind::OtherKeyword => true,
            _ => false,
        }
    }

    pub fn is_binding_identifier(&self) -> (r: bool)
        ensures
            r == kind_is_binding_identifier(*self),
    {
        match self {
            Kind::Ident | Kind::GetKeyword | Kind::SetKeyword | Kind::Async | Kind::Readonly | Kind::Abstract
            | Kind::Declare | Kind::Accessor | Kind::Override | Kind::Struct => true,
            _ => false,
        }
    }

    pub fn is_control_flow(&self) -> (r: bool)
        ensures
            r == kind_is_control_flow(*self),
    {
        match self {
            Kind::If | Kind::For | Kind::While | Kind::Do | Kind::Switch | Kind::Try
            | Kind::With | Kind::Break | Kind::Continue | Kind::Return | Kind::Throw
            | Kind::Debugger => true,
            _ => false,
        }
    }

    pub fn continues_expression(&self) -> (r: bool)
        ensures
            r == kind_continues_expression(*self),
    {
        match self {
            Kind::Dot | Kind::Operator | Kind::Star | Kind::Question | Kind::Colon | Kind::Eq
            | Kind::LAngle | Kind::RAngle | Kind::LParen | Kind::LBrack | Kind::Comma => true,
            _ => false,
        }
    }

    pub fn expects_operand(&self) -> (r: bool)
        ensures
            r == kind_expects_operand(*self),
    {
        match self {
            Kind::Dot | Kind::Operator | Kind::Star | Kind::Question | Kind::Colon | Kind::Eq
            | Kind::LAngle | Kind::Comma => true,
            _ => false,
        }
    }

    pub fn is_opener(&self) -> (r: bool)
        ensures
            r == kind_is_opener(*self),
    {
        matches!(self, Kind::LParen | Kind::LBrack | Kind::LCurly)
    }

    pub fn is_closer(&self) -> (r: bool)
        ensures
            r == kind_is_closer(*self),
    {
        matches!(self, Kind::RParen | Kind::RBrack | Kind::RCurly)
    }
}

/// Whether `text` is the literal `lit`.
pub fn text_is(text: &String, lit: &str) -> (r: bool)
    ensures
        r == (text@ == lit@),
{
    *text == String::from_str(lit)
}

} // verus!
