use arkui_parser::arkui::StatementContext;
use arkui_parser::ast::{ArkUIChildKind, ListRef, MethodDefinitionKind, Node, NodeId};
use arkui_parser::diagnostics::DiagnosticKind;
use arkui_parser::modifiers::{ModifierKind, Modifiers};
use arkui_parser::parser::{ParserImpl, SourceType};
use arkui_parser::span::Span;
use arkui_parser::token::{Kind, Token, text_is};

fn keyword(word: &str) -> Option<Kind> {
    Some(match word {
        "struct" => Kind::Struct,
        "interface" => Kind::Interface,
        "get" => Kind::GetKeyword,
        "set" => Kind::SetKeyword,
        "async" => Kind::Async,
        "static" => Kind::Static,
        "readonly" => Kind::Readonly,
        "abstract" => Kind::Abstract,
        "declare" => Kind::Declare,
        "public" => Kind::Public,
        "private" => Kind::Private,
        "protected" => Kind::Protected,
        "override" => Kind::Override,
        "accessor" => Kind::Accessor,
        "export" => Kind::Export,
        "const" => Kind::Const,
        "if" => Kind::If,
        "for" => Kind::For,
        "while" => Kind::While,
        "do" => Kind::Do,
        "switch" => Kind::Switch,
        "try" => Kind::Try,
        "with" => Kind::With,
        "break" => Kind::Break,
        "continue" => Kind::Continue,
        "return" => Kind::Return,
        "throw" => Kind::Throw,
        "debugger" => Kind::Debugger,
        "else" => Kind::Else,
        "catch" => Kind::Catch,
        "finally" => Kind::Finally,
        "this" => Kind::This,
        "new" | "typeof" | "true" | "false" | "null" | "let" | "var" | "function" | "class"
        | "case" | "default" | "in" | "of" | "void" | "instanceof" | "delete" | "yield"
        | "await" => Kind::OtherKeyword,
        _ => return None,
    })
}

/// A small lexer for the tests: enough of TypeScript to write examples.
fn lex(src: &str) -> Vec<Token> {
    let b: Vec<char> = src.chars().collect();
    let mut out = Vec::new();
    let mut i = 0;
    let mut newline = false;
    while i < b.len() {
        let c = b[i];
        if c == '\n' {
            newline = true;
            i += 1;
            continue;
        }
        if c.is_whitespace() {
            i += 1;
            continue;
        }
        if c == '/' && i + 1 < b.len() && b[i + 1] == '/' {
            while i < b.len() && b[i] != '\n' {
                i += 1;
            }
            continue;
        }
        if c == '/' && i + 1 < b.len() && b[i + 1] == '*' {
            i += 2;
            while i + 1 < b.len() && !(b[i] == '*' && b[i + 1] == '/') {
                if b[i] == '\n' {
                    newline = true;
                }
                i += 1;
            }
            i += 2;
            continue;
        }
        let start = i;
        let (kind, text) = if c.is_alphabetic() || c == '_' || c == '$' || c == '#' {
            i += 1;
            while i < b.len() && (b[i].is_alphanumeric() || b[i] == '_' || b[i] == '$') {
                i += 1;
            }
            let word: String = b[start..i].iter().collect();
            if c == '#' {
                (Kind::PrivateIdent, word[1..].to_string())
            } else {
                (keyword(&word).unwrap_or(Kind::Ident), word)
            }
        } else if c.is_ascii_digit() {
            while i < b.len() && (b[i].is_ascii_alphanumeric() || b[i] == '.') {
                i += 1;
            }
            (Kind::Num, b[start..i].iter().collect())
        } else if c == '\'' || c == '"' || c == '`' {
            i += 1;
            while i < b.len() && b[i] != c {
                i += 1;
            }
            i += 1;
            (Kind::Str, b[start + 1..i - 1].iter().collect())
        } else {
            let three: String = b[i..(i + 3).min(b.len())].iter().collect();
            let two: String = b[i..(i + 2).min(b.len())].iter().collect();
            if ["===", "!==", "**=", "<<=", ">>="].contains(&three.as_str()) {
                i += 3;
                (Kind::Operator, three)
            } else if three == "..." {
                i += 3;
                (Kind::OtherPunct, three)
            } else if ["=>", "==", "!=", "<=", ">=", "&&", "||", "??", "?.", "+=", "-=", "*=", "/=", "**"]
                .contains(&two.as_str())
            {
                i += 2;
                (Kind::Operator, two)
            } else if two == "++" || two == "--" {
                i += 2;
                (Kind::OtherPunct, two)
            } else {
                i += 1;
                let k = match c {
                    '{' => Kind::LCurly,
                    '}' => Kind::RCurly,
                    '(' => Kind::LParen,
                    ')' => Kind::RParen,
                    '[' => Kind::LBrack,
                    ']' => Kind::RBrack,
                    '<' => Kind::LAngle,
                    '>' => Kind::RAngle,
                    ';' => Kind::Semicolon,
                    ',' => Kind::Comma,
                    '.' => Kind::Dot,
                    '*' => Kind::Star,
                    '?' => Kind::Question,
                    '!' => Kind::Bang,
                    ':' => Kind::Colon,
                    '=' => Kind::Eq,
                    '@' => Kind::At,
                    '+' | '-' | '/' | '%' | '&' | '|' | '^' => Kind::Operator,
                    _ => Kind::OtherPunct,
                };
                (k, c.to_string())
            }
        };
        out.push(Token {
            kind,
            span: Span { start: start as u32, end: i as u32 },
            newline_before: newline,
            text,
        });
        newline = false;
    }
    out.push(Token {
        kind: Kind::Eof,
        span: Span { start: b.len() as u32, end: b.len() as u32 },
        newline_before: newline,
        text: String::new(),
    });
    out
}

const ETS: SourceType = SourceType { is_typescript: true, is_arkui: true };
const TS: SourceType = SourceType { is_typescript: true, is_arkui: false };

fn parse(src: &str, st: SourceType) -> (ParserImpl, Vec<NodeId>) {
    let mut p = ParserImpl::new(lex(src), st);
    let items = p.parse_program();
    (p, items)
}

fn list(p: &ParserImpl, l: ListRef) -> Vec<NodeId> {
    p.lists[l.start..l.start + l.len].to_vec()
}

fn name(p: &ParserImpl, id: NodeId) -> String {
    match p.nodes[id] {
        Node::IdentifierReference { name_token, .. }
        | Node::BindingIdentifier { name_token, .. }
        | Node::IdentifierName { name_token, .. } => p.tokens[name_token].text.clone(),
        ref n => panic!("not a name: {:?}", n),
    }
}

fn error_kinds(p: &ParserImpl) -> Vec<DiagnosticKind> {
    p.errors.iter().map(|d| d.kind).collect()
}

/// The elements of the body of struct statement `id`.
fn struct_elements(p: &ParserImpl, id: NodeId) -> Vec<NodeId> {
    match p.nodes[id] {
        Node::StructStatement { body, .. } => match p.nodes[body] {
            Node::StructBody { body, .. } => list(p, body),
            ref n => panic!("not a struct body: {:?}", n),
        },
        ref n => panic!("not a struct: {:?}", n),
    }
}

/// The statements of method `m`'s body.
fn method_statements(p: &ParserImpl, m: NodeId) -> Vec<NodeId> {
    match p.nodes[m] {
        Node::MethodDefinition { value, .. } => match p.nodes[value] {
            Node::Function { body: Some(b), .. } => match p.nodes[b] {
                Node::FunctionBody { statements, .. } => list(p, statements),
                ref n => panic!("not a body: {:?}", n),
            },
            ref n => panic!("no body: {:?}", n),
        },
        ref n => panic!("not a method: {:?}", n),
    }
}

/// The component that expression statement `st` holds, if it holds one.
fn statement_component(p: &ParserImpl, st: NodeId) -> Option<NodeId> {
    match p.nodes[st] {
        Node::ExpressionStatement { expression, .. } => match p.nodes[expression] {
            Node::ArkUIComponentExpression { .. } => Some(expression),
            _ => None,
        },
        _ => None,
    }
}

fn component_parts(p: &ParserImpl, c: NodeId) -> (String, Vec<NodeId>, Vec<NodeId>, Vec<NodeId>) {
    match p.nodes[c] {
        Node::ArkUIComponentExpression { callee, arguments, children, chain_expressions, .. } => {
            (name(p, callee), list(p, arguments), list(p, children), list(p, chain_expressions))
        }
        ref n => panic!("not a component: {:?}", n),
    }
}

/// The attribute name and argument count of chain call `c`.
fn chain_call(p: &ParserImpl, c: NodeId) -> (String, usize) {
    match p.nodes[c] {
        Node::CallExpression { callee, arguments, .. } => match p.nodes[callee] {
            Node::StaticMemberExpression { object, property, .. } => {
                assert!(matches!(p.nodes[object], Node::ThisExpression { .. }));
                (name(p, property), arguments.len)
            }
            ref n => panic!("not a member: {:?}", n),
        },
        ref n => panic!("not a call: {:?}", n),
    }
}

#[test]
fn component_chain_keeps_source_order() {
    let src = "struct S {\n  build() {\n    Row() {}\n      .width(100)\n      //.disabled(true)\n      .height(200)\n  }\n}\n";
    let (p, items) = parse(src, ETS);
    assert!(p.errors.is_empty(), "{:?}", p.errors);
    assert_eq!(items.len(), 1);
    let els = struct_elements(&p, items[0]);
    assert_eq!(els.len(), 1);
    let stmts = method_statements(&p, els[0]);
    assert_eq!(stmts.len(), 1);
    let comp = statement_component(&p, stmts[0]).expect("a component");
    let (callee, args, kids, chain) = component_parts(&p, comp);
    assert_eq!(callee, "Row");
    assert!(args.is_empty() && kids.is_empty());
    assert_eq!(chain.len(), 2);
    assert_eq!(chain_call(&p, chain[0]), ("width".to_string(), 1));
    assert_eq!(chain_call(&p, chain[1]), ("height".to_string(), 1));
    // The component's span covers `Row() {}` and stops before the chain.
    match p.nodes[comp] {
        Node::ArkUIComponentExpression { span, .. } => {
            assert_eq!(&src[span.start as usize..span.end as usize], "Row() {}");
        }
        _ => unreachable!(),
    }
}

#[test]
fn nested_children_and_control_flow() {
    let src = "struct Index {\n  build() {\n    Column() {\n      Text('Hello')\n        .fontSize(20)\n      if (this.flag) {\n        Button('Click') {}\n      } else {\n        Text('no')\n      }\n      this.message\n      ForEach(this.items, (item) => { Text(item) })\n    }\n  }\n}\n";
    let (p, items) = parse(src, ETS);
    assert!(p.errors.is_empty(), "{:?}", p.errors);
    let stmts = method_statements(&p, struct_elements(&p, items[0])[0]);
    let comp = statement_component(&p, stmts[0]).unwrap();
    let (callee, _, kids, _) = component_parts(&p, comp);
    assert_eq!(callee, "Column");
    let kinds: Vec<ArkUIChildKind> = kids
        .iter()
        .map(|&k| match p.nodes[k] {
            Node::ArkUIChild { kind, .. } => kind,
            ref n => panic!("not a child: {:?}", n),
        })
        .collect();
    assert_eq!(
        kinds,
        vec![
            ArkUIChildKind::Component,
            ArkUIChildKind::Statement,
            ArkUIChildKind::Expression,
            ArkUIChildKind::Component
        ]
    );
    // Text('Hello').fontSize(20)
    let text = match p.nodes[kids[0]] {
        Node::ArkUIChild { node, .. } => node,
        _ => unreachable!(),
    };
    let (tname, targs, _, tchain) = component_parts(&p, text);
    assert_eq!((tname.as_str(), targs.len(), tchain.len()), ("Text", 1, 1));
    // if (...) { Button('Click') {} } else { Text('no') }
    let stmt = match p.nodes[kids[1]] {
        Node::ArkUIChild { node, .. } => node,
        _ => unreachable!(),
    };
    match p.nodes[stmt] {
        Node::ControlStatement { keyword, parts, .. } => {
            assert_eq!(keyword, Kind::If);
            let parts = list(&p, parts);
            assert_eq!(parts.len(), 4);
            assert!(matches!(p.nodes[parts[0]], Node::TokenRun { .. }));
            // Inside the DSL, `Button('Click') {}` is a component.
            match p.nodes[parts[1]] {
                Node::BlockStatement { body, .. } => {
                    let body = list(&p, body);
                    assert_eq!(body.len(), 1);
                    let b = statement_component(&p, body[0]).unwrap();
                    assert_eq!(component_parts(&p, b).0, "Button");
                }
                ref n => panic!("{:?}", n),
            }
            assert!(matches!(p.nodes[parts[2]], Node::TokenRun { .. }));
            assert!(matches!(p.nodes[parts[3]], Node::BlockStatement { .. }));
        }
        ref n => panic!("{:?}", n),
    }
    // ForEach(this.items, (item) => { ... }) is a component with two arguments.
    let fe = match p.nodes[kids[3]] {
        Node::ArkUIChild { node, .. } => node,
        _ => unreachable!(),
    };
    let (fname, fargs, fkids, _) = component_parts(&p, fe);
    assert_eq!((fname.as_str(), fargs.len(), fkids.len()), ("ForEach", 2, 0));
}

#[test]
fn non_arkui_sources_have_no_dsl() {
    let src = "struct S {\n  build() {\n    Row() {}\n  }\n}\n";
    let (p, items) = parse(src, TS);
    let stmts = method_statements(&p, struct_elements(&p, items[0])[0]);
    assert_eq!(stmts.len(), 1);
    assert_eq!(statement_component(&p, stmts[0]), None);
    assert!(matches!(p.nodes[stmts[0]], Node::ExpressionStatement { .. }));
}

#[test]
fn only_dsl_methods_parse_components() {
    let src = "struct S {\n  helper() {\n    Row() {}\n  }\n  pageTransition() {\n    Row() {}\n  }\n  *'build'() {\n    Row() {}\n  }\n  ['build']() {\n    Row() {}\n  }\n}\n";
    let (p, items) = parse(src, ETS);
    assert!(p.errors.is_empty(), "{:?}", p.errors);
    let els = struct_elements(&p, items[0]);
    let dsl: Vec<bool> = els
        .iter()
        .map(|&m| statement_component(&p, method_statements(&p, m)[0]).is_some())
        .collect();
    // A computed key is never a DSL method name.
    assert_eq!(dsl, vec![false, true, true, false]);
}

#[test]
fn dsl_decorators() {
    let src = "struct S {\n  @Builder a() {\n    Row() {}\n  }\n  @Extend(Text) b() {\n    Row() {}\n  }\n  @ns.Styles c() {\n    Row() {}\n  }\n  @Other d() {\n    Row() {}\n  }\n  @Other @LocalBuilder e() {\n    Row() {}\n  }\n  @State f: number = 1\n}\n";
    let (p, items) = parse(src, ETS);
    assert!(p.errors.is_empty(), "{:?}", p.errors);
    let els = struct_elements(&p, items[0]);
    let dsl: Vec<bool> = els[..5]
        .iter()
        .map(|&m| statement_component(&p, method_statements(&p, m)[0]).is_some())
        .collect();
    assert_eq!(dsl, vec![true, true, true, false, true]);
    match p.nodes[els[5]] {
        Node::PropertyDefinition { decorators, value, .. } => {
            assert_eq!(decorators.len, 1);
            assert!(value.is_some());
        }
        ref n => panic!("{:?}", n),
    }
}

#[test]
fn decorator_query_on_nodes() {
    let src = "@Builder @Extend(Text) @a.AnimatableExtend @Component struct S {}";
    let mut p = ParserImpl::new(lex(src), ETS);
    let ds = p.parse_decorators();
    assert_eq!(ds.len(), 4);
    let enabled: Vec<bool> = ds
        .iter()
        .map(|&d| match p.nodes[d] {
            Node::Decorator { expression, .. } => p.is_arkui_dsl_decorator(expression),
            _ => unreachable!(),
        })
        .collect();
    assert_eq!(enabled, vec![true, true, true, false]);
    assert!(p.decorators_enable_arkui_dsl(&ds));
    assert!(!p.decorators_enable_arkui_dsl(&ds[3..]));
    assert!(!p.decorators_enable_arkui_dsl(&[]));
}

#[test]
fn struct_span_starts_at_first_decorator() {
    let src = "@Entry\n@Component\nstruct Index<T> {\n  @State message: string = 'Hello'\n}";
    let (p, items) = parse(src, ETS);
    assert!(p.errors.is_empty(), "{:?}", p.errors);
    match p.nodes[items[0]] {
        Node::StructStatement { span, decorators, id, type_parameters, declare, .. } => {
            assert_eq!(span.start, 0);
            assert_eq!(span.end as usize, src.len());
            assert_eq!(decorators.len, 2);
            assert_eq!(name(&p, id), "Index");
            assert_eq!(type_parameters, Some(Span { start: 30, end: 33 }));
            assert!(!declare);
        }
        ref n => panic!("{:?}", n),
    }
}

#[test]
fn declare_struct_and_disallowed_modifiers() {
    let (p, items) = parse("declare struct A {}\nexport struct B {}\nstatic struct C {}", TS);
    assert_eq!(items.len(), 3);
    assert!(matches!(p.nodes[items[0]], Node::StructStatement { declare: true, .. }));
    assert!(matches!(p.nodes[items[1]], Node::StructStatement { declare: false, .. }));
    assert_eq!(error_kinds(&p), vec![DiagnosticKind::ModifierCannotBeUsedHere(ModifierKind::Static)]);
    assert_eq!(p.errors[0].span, Span { start: 39, end: 45 });
}

#[test]
fn element_modifiers() {
    let src = "struct S {\n  export a: number\n  static readonly private b = 1\n  async get c() { return 1 }\n  static() {}\n}";
    let (p, items) = parse(src, TS);
    assert_eq!(
        error_kinds(&p),
        vec![
            DiagnosticKind::CannotAppearOnClassElements(ModifierKind::Export),
            DiagnosticKind::ModifierCannotBeUsedHere(ModifierKind::Async),
        ]
    );
    let els = struct_elements(&p, items[0]);
    assert_eq!(els.len(), 4);
    match p.nodes[els[1]] {
        Node::PropertyDefinition { is_static, readonly, accessibility, .. } => {
            assert!(is_static && readonly);
            assert_eq!(accessibility, Some(arkui_parser::modifiers::Accessibility::Private));
        }
        ref n => panic!("{:?}", n),
    }
    assert!(matches!(p.nodes[els[2]], Node::MethodDefinition { kind: MethodDefinitionKind::Getter, .. }));
    // `static()` is a method named `static`.
    match p.nodes[els[3]] {
        Node::MethodDefinition { key, is_static, kind, .. } => {
            assert_eq!(name(&p, key), "static");
            assert!(!is_static);
            assert_eq!(kind, MethodDefinitionKind::Method);
        }
        ref n => panic!("{:?}", n),
    }
}

#[test]
fn accessor_parameter_counts() {
    let src = "struct S {\n  get a(x) { return x }\n  set b() {}\n  get c() { return 1 }\n  set d(v) {}\n}";
    let (p, items) = parse(src, TS);
    assert_eq!(error_kinds(&p), vec![DiagnosticKind::GetterParameters, DiagnosticKind::SetterParameters]);
    let els = struct_elements(&p, items[0]);
    let kinds: Vec<MethodDefinitionKind> = els
        .iter()
        .map(|&m| match p.nodes[m] {
            Node::MethodDefinition { kind, .. } => kind,
            ref n => panic!("{:?}", n),
        })
        .collect();
    assert_eq!(
        kinds,
        vec![
            MethodDefinitionKind::Getter,
            MethodDefinitionKind::Setter,
            MethodDefinitionKind::Getter,
            MethodDefinitionKind::Setter
        ]
    );
}

#[test]
fn optional_and_definite_property() {
    let src = "struct S {\n  a?!: number\n  b?: string\n  c!: string\n}";
    let (p, items) = parse(src, TS);
    assert_eq!(error_kinds(&p), vec![DiagnosticKind::OptionalDefiniteProperty]);
    // The `?` grown by one: `?!`.
    assert_eq!(&src[p.errors[0].span.start as usize..p.errors[0].span.end as usize], "?!");
    let flags: Vec<(bool, bool)> = struct_elements(&p, items[0])
        .iter()
        .map(|&e| match p.nodes[e] {
            Node::PropertyDefinition { optional, definite, .. } => (optional, definite),
            ref n => panic!("{:?}", n),
        })
        .collect();
    assert_eq!(flags, vec![(true, true), (true, false), (false, true)]);
}

#[test]
fn empty_struct_elements_are_skipped() {
    let (p, items) = parse("struct S { ;; a: number;; ; b = 2; ; }", TS);
    assert!(p.errors.is_empty(), "{:?}", p.errors);
    assert_eq!(struct_elements(&p, items[0]).len(), 2);
    let (p, items) = parse("struct S { ; }", TS);
    assert!(p.errors.is_empty());
    assert_eq!(struct_elements(&p, items[0]).len(), 0);
}

#[test]
fn annotation_declaration() {
    let src = "@interface MyAnnotation {\n  value: string;\n  count?: number = 1;\n  ;\n}";
    let (p, items) = parse(src, ETS);
    assert!(p.errors.is_empty(), "{:?}", p.errors);
    match p.nodes[items[0]] {
        Node::AnnotationDeclaration { span, id, body, .. } => {
            assert_eq!(span.start, 0);
            assert_eq!(name(&p, id), "MyAnnotation");
            match p.nodes[body] {
                Node::AnnotationBody { body, .. } => {
                    let els = list(&p, body);
                    assert_eq!(els.len(), 2);
                    match p.nodes[els[1]] {
                        Node::PropertyDefinition { optional, definite, value, type_annotation, .. } => {
                            // The `?` is accepted; the element is not marked optional.
                            assert!(!optional);
                            assert!(!definite);
                            assert!(value.is_some());
                            assert!(type_annotation.is_some());
                        }
                        ref n => panic!("{:?}", n),
                    }
                }
                ref n => panic!("{:?}", n),
            }
        }
        ref n => panic!("{:?}", n),
    }
}

#[test]
fn declaration_as_single_statement_is_reported() {
    let src = "struct S { a = 1 }";
    let mut p = ParserImpl::new(lex(src), TS);
    let none = Modifiers { list: Vec::new() };
    let id = p.parse_struct_statement(0, StatementContext::If, &none, Vec::new());
    assert!(matches!(p.nodes[id], Node::StructStatement { .. }));
    assert_eq!(error_kinds(&p), vec![DiagnosticKind::ClassDeclaration]);
    assert_eq!(p.errors[0].span, Span { start: 0, end: 9 });

    let src = "interface A { a: number }";
    let mut p = ParserImpl::new(lex(src), TS);
    p.parse_annotation_statement(0, StatementContext::While, &none, Vec::new());
    assert_eq!(error_kinds(&p), vec![DiagnosticKind::ClassDeclaration]);
    assert_eq!(p.errors[0].span, Span { start: 0, end: 12 });

    let mut p = ParserImpl::new(lex(src), TS);
    p.parse_annotation_statement(0, StatementContext::StatementList, &none, Vec::new());
    assert!(p.errors.is_empty());
}

#[test]
fn missing_tokens_are_fatal() {
    let (p, _) = parse("struct S { build() { Column() { Text('a') } }", ETS);
    assert!(p.fatal);
    // The struct body is not closed: an element is expected at the end.
    assert_eq!(error_kinds(&p), vec![DiagnosticKind::Unexpected(Kind::Eof)]);
    let (p, _) = parse("struct S { build() { Column() { Text('a') }", ETS);
    assert!(p.fatal);
    assert_eq!(
        error_kinds(&p),
        vec![DiagnosticKind::ExpectToken { expected: Kind::RCurly, found: Kind::Eof }]
    );
    let (p, _) = parse("struct { }", TS);
    assert!(p.fatal);
    assert_eq!(error_kinds(&p), vec![DiagnosticKind::Unexpected(Kind::LCurly)]);
}

#[test]
fn chain_stops() {
    // `.` without a name ends the chain after consuming the `.`.
    let src = "Row().width(1).\n";
    let mut p = ParserImpl::new(lex(src), ETS);
    let callee = p.parse_identifier_expression();
    let c = p.parse_arkui_component_expression(callee);
    let (_, _, _, chain) = component_parts(&p, c);
    assert_eq!(chain.len(), 1);
    assert_eq!(p.cur_kind(), Kind::Eof);
    // `.name` without `(` ends the chain after consuming both.
    let mut p = ParserImpl::new(lex("Row().width(1).height + 1"), ETS);
    let callee = p.parse_identifier_expression();
    let c = p.parse_arkui_component_expression(callee);
    assert_eq!(component_parts(&p, c).3.len(), 1);
    assert_eq!(p.cur_kind(), Kind::Operator);
}

#[test]
fn component_type_arguments() {
    // Called on `<string>(1) {}`, with TypeScript on, the type arguments
    // are kept.
    let src = "Foo<string>(1) {}";
    let mut p = ParserImpl::new(lex(src), ETS);
    let callee = p.parse_identifier_expression();
    let c = p.parse_arkui_component_expression(callee);
    assert!(p.errors.is_empty(), "{:?}", p.errors);
    match p.nodes[c] {
        Node::ArkUIComponentExpression { span, type_arguments, arguments, .. } => {
            assert_eq!(type_arguments, Some(Span { start: 3, end: 11 }));
            assert_eq!(arguments.len, 1);
            // The span starts after the callee.
            assert_eq!(span, Span { start: 3, end: 17 });
        }
        ref n => panic!("{:?}", n),
    }
    // As a child, a name must be followed by `(` to start a component.
    let mut p = ParserImpl::new(lex(src), ETS);
    let child = p.parse_arkui_child();
    assert!(matches!(p.nodes[child], Node::ArkUIChild { kind: ArkUIChildKind::Expression, .. }));
}

#[test]
fn dsl_depth_is_restored() {
    let src = "struct S {\n  build() {\n    Column() { Row() { Text('a') } }\n  }\n}";
    let mut p = ParserImpl::new(lex(src), ETS);
    assert!(!p.is_in_arkui_dsl_context());
    p.parse_program();
    assert!(!p.is_in_arkui_dsl_context());
    assert_eq!(p.arkui_dsl_depth, 0);
    assert!(p.errors.is_empty());
}

#[test]
fn failed_component_attempt_leaves_no_trace() {
    // `this.message` starts like a component name but is not followed by `(`.
    let src = "this.message\n";
    let mut p = ParserImpl::new(lex(src), ETS);
    let c = p.parse_arkui_child();
    assert!(p.errors.is_empty());
    assert_eq!(p.cur_kind(), Kind::Eof);
    match p.nodes[c] {
        Node::ArkUIChild { kind: ArkUIChildKind::Expression, node } => match p.nodes[node] {
            Node::Expression { span } => assert_eq!(span, Span { start: 0, end: 12 }),
            ref n => panic!("{:?}", n),
        },
        ref n => panic!("{:?}", n),
    }
}

#[test]
fn text_comparison() {
    assert!(text_is(&"Builder".to_string(), "Builder"));
    assert!(!text_is(&"Build".to_string(), "Builder"));
}

#[test]
fn new_appends_eof() {
    let p = ParserImpl::new(Vec::new(), TS);
    assert_eq!(p.tokens.len(), 1);
    assert_eq!(p.cur_kind(), Kind::Eof);
}

/// The node ids and list ranges that node `n` refers to.
fn references(n: &Node) -> (Vec<NodeId>, Vec<ListRef>) {
    match *n {
        Node::StaticMemberExpression { object, property, .. } => (vec![object, property], vec![]),
        Node::CallExpression { callee, arguments, .. } => (vec![callee], vec![arguments]),
        Node::ArkUIComponentExpression { callee, arguments, children, chain_expressions, .. } => {
            (vec![callee], vec![arguments, children, chain_expressions])
        }
        Node::ArkUIChild { node, .. } => (vec![node], vec![]),
        Node::ComputedKey { expression, .. } => (vec![expression], vec![]),
        Node::BlockStatement { body, .. } => (vec![], vec![body]),
        Node::ControlStatement { parts, .. } => (vec![], vec![parts]),
        Node::ExpressionStatement { expression, .. } => (vec![expression], vec![]),
        Node::Function { params, body, .. } => (body.into_iter().collect(), vec![params]),
        Node::FunctionBody { statements, .. } => (vec![], vec![statements]),
        Node::Decorator { expression, .. } => (vec![expression], vec![]),
        Node::MethodDefinition { decorators, key, value, .. } => (vec![key, value], vec![decorators]),
        Node::PropertyDefinition { decorators, key, value, .. } => {
            let mut ids = vec![key];
            ids.extend(value);
            (ids, vec![decorators])
        }
        Node::StructBody { body, .. } | Node::AnnotationBody { body, .. } => (vec![], vec![body]),
        Node::StructStatement { decorators, id, body, .. }
        | Node::AnnotationDeclaration { decorators, id, body, .. } => (vec![id, body], vec![decorators]),
        _ => (vec![], vec![]),
    }
}

#[test]
fn arena_refers_only_backwards() {
    let src = "@Entry\n@Component\nstruct Index {\n  @State message: string = 'Hello'\n  get a() { return 1 }\n  @Builder item(x: number) {\n    Text(x)\n  }\n  build() {\n    Column() {\n      Text(this.message).fontSize(20).fontWeight(1)\n      if (this.flag) { Row() { Text('a') } }\n      ForEach(this.items, (i) => { Text(i) })\n    }\n  }\n}\n@interface A { v: string }\n";
    let (p, items) = parse(src, ETS);
    assert!(p.errors.is_empty(), "{:?}", p.errors);
    assert_eq!(items.len(), 2);
    for (i, n) in p.nodes.iter().enumerate() {
        let (ids, lists) = references(n);
        for id in ids {
            assert!(id < i, "node {} refers to {}", i, id);
        }
        for l in lists {
            assert!(l.start + l.len <= p.lists.len());
            for &id in &p.lists[l.start..l.start + l.len] {
                assert!(id < i, "node {} lists {}", i, id);
            }
        }
    }
}

#[test]
fn documented_component_example() {
    let src = "Column() {\n  Text('Hello')\n  Button('Click')\n}";
    let mut p = ParserImpl::new(lex(src), ETS);
    let callee = p.parse_identifier_expression();
    let c = p.parse_arkui_component_expression(callee);
    assert!(p.errors.is_empty(), "{:?}", p.errors);
    assert_eq!(p.cur_kind(), Kind::Eof);
    let (name, args, kids, chain) = component_parts(&p, c);
    assert_eq!((name.as_str(), args.len(), kids.len(), chain.len()), ("Column", 0, 2, 0));
    let names: Vec<String> = kids
        .iter()
        .map(|&k| match p.nodes[k] {
            Node::ArkUIChild { kind: ArkUIChildKind::Component, node } => component_parts(&p, node).0,
            ref n => panic!("{:?}", n),
        })
        .collect();
    assert_eq!(names, vec!["Text".to_string(), "Button".to_string()]);
    // The children were parsed in the DSL context, which is left again.
    assert!(!p.is_in_arkui_dsl_context());
}

#[test]
fn decorators_enable_dsl_when_any_does() {
    let mut p = ParserImpl::new(lex("@Other @Styles @Other2 struct S {}"), ETS);
    let ds = p.parse_decorators();
    assert_eq!(ds.len(), 3);
    let other = vec![ds[0], ds[2]];
    let styles = vec![ds[1]];
    assert!(!p.decorators_enable_arkui_dsl(&other));
    assert!(p.decorators_enable_arkui_dsl(&styles));
    let mut a = other.clone();
    a.extend(&styles);
    let mut b = styles.clone();
    b.extend(&other);
    assert!(p.decorators_enable_arkui_dsl(&a));
    assert!(p.decorators_enable_arkui_dsl(&b));
}

#[test]
fn new_keeps_tokens_that_end_with_eof() {
    let toks = lex("struct S {}");
    let n = toks.len();
    let p = ParserImpl::new(toks, TS);
    assert_eq!(p.tokens.len(), n);
    let mut toks = lex("a");
    toks.pop();
    let p = ParserImpl::new(toks, TS);
    assert_eq!(p.tokens.len(), 2);
    assert_eq!(p.tokens[1].kind, Kind::Eof);
    assert_eq!(p.tokens[1].span, Span { start: 1, end: 1 });
}

/// The kinds of node that `statement` holds, as a shape for comparison.
fn statement_shape(p: &ParserImpl, st: NodeId) -> String {
    match p.nodes[st] {
        Node::ExpressionStatement { expression, .. } => match p.nodes[expression] {
            Node::ArkUIComponentExpression { children, .. } => {
                let kids: Vec<String> = list(p, children)
                    .iter()
                    .map(|&k| match p.nodes[k] {
                        Node::ArkUIChild { kind, node } => format!("{:?}:{}", kind, match p.nodes[node] {
                            Node::ArkUIComponentExpression { callee, .. } => name(p, callee),
                            _ => String::from("?"),
                        }),
                        _ => String::from("?"),
                    })
                    .collect();
                format!("component[{}]", kids.join(","))
            }
            _ => String::from("expression"),
        },
        _ => String::from("other"),
    }
}

#[test]
fn dsl_membership_not_depth_matters() {
    let src = "; ; ; Row() { Text('a') }";
    let shape_at = |depth: usize| {
        let mut p = ParserImpl::new(lex(src), ETS);
        for _ in 0..3 {
            p.parse_statement_list_item();
        }
        p.arkui_dsl_depth = depth;
        let st = p.parse_statement_list_item();
        assert_eq!(p.arkui_dsl_depth, depth);
        statement_shape(&p, st)
    };
    assert_eq!(shape_at(0), "expression");
    assert_eq!(shape_at(1), "component[Component:Text]");
    assert_eq!(shape_at(1), shape_at(4));
}

fn property_value_text<'a>(src: &'a str, p: &ParserImpl, el: NodeId) -> &'a str {
    match p.nodes[el] {
        Node::PropertyDefinition { value: Some(v), .. } => match p.nodes[v] {
            Node::Expression { span } => &src[span.start as usize..span.end as usize],
            ref n => panic!("{:?}", n),
        },
        ref n => panic!("{:?}", n),
    }
}

#[test]
fn expressions_continue_across_line_breaks() {
    let src = "struct S {\n  a: number = x\n    + y\n  b = c +\n    d\n  @State e: string = 'a'\n  f = g\n  h = k\n  i = cond\n    ? 1\n    : 2\n}";
    let (p, items) = parse(src, TS);
    assert!(p.errors.is_empty(), "{:?}", p.errors);
    let els = struct_elements(&p, items[0]);
    assert_eq!(els.len(), 6);
    assert_eq!(property_value_text(src, &p, els[0]), "x\n    + y");
    assert_eq!(property_value_text(src, &p, els[1]), "c +\n    d");
    assert_eq!(property_value_text(src, &p, els[2]), "'a'");
    assert_eq!(property_value_text(src, &p, els[3]), "g");
    assert_eq!(property_value_text(src, &p, els[4]), "k");
    assert_eq!(property_value_text(src, &p, els[5]), "cond\n    ? 1\n    : 2");
}

#[test]
fn child_expression_continues_on_a_member_line() {
    let src = "Column() {\n  this.item\n    .width(1)\n  Text('a')\n}";
    let mut p = ParserImpl::new(lex(src), ETS);
    let callee = p.parse_identifier_expression();
    let c = p.parse_arkui_component_expression(callee);
    assert!(p.errors.is_empty(), "{:?}", p.errors);
    let (_, _, kids, _) = component_parts(&p, c);
    assert_eq!(kids.len(), 2);
    match p.nodes[kids[0]] {
        Node::ArkUIChild { kind: ArkUIChildKind::Expression, node } => match p.nodes[node] {
            Node::Expression { span } => {
                assert_eq!(&src[span.start as usize..span.end as usize], "this.item\n    .width(1)")
            }
            ref n => panic!("{:?}", n),
        },
        ref n => panic!("{:?}", n),
    }
}

#[test]
fn children_block_ends_at_its_brace_or_a_fatal_error() {
    // Closed block: the children end at `}`, which is consumed.
    let mut p = ParserImpl::new(lex("{ Text('a'); Text('b') } .x"), ETS);
    let kids = p.parse_children_block();
    assert!(p.errors.is_empty(), "{:?}", p.errors);
    assert_eq!(kids.len(), 2);
    assert_eq!(p.cur_kind(), Kind::Dot);
    assert!(!p.is_in_arkui_dsl_context());
    // Unclosed block: another child is tried at the end of input, which is
    // the fatal error that ends the list; the missing `}` adds no second one.
    let mut p = ParserImpl::new(lex("{ Text('a')"), ETS);
    let kids = p.parse_children_block();
    assert_eq!(kids.len(), 2);
    assert!(p.fatal);
    assert_eq!(error_kinds(&p), vec![DiagnosticKind::Unexpected(Kind::Eof)]);
    assert!(!p.is_in_arkui_dsl_context());
    // No block: nothing is consumed.
    let mut p = ParserImpl::new(lex(".width(1)"), ETS);
    assert!(p.parse_children_block().is_empty());
    assert_eq!(p.cur_kind(), Kind::Dot);
}
