# arkui_parser

A parser for the HarmonyOS ArkUI extensions of TypeScript, written in Verus:

- `struct` component declarations with decorated properties, methods and
  accessors (`@Component struct Index { @State msg: string = 'a'; build() { ... } }`);
- `@interface` annotation declarations;
- ArkUI component expressions with children and chained attribute calls
  (`Column() { Text('Hello').fontSize(20) }.width(100)`), including
  control-flow statements among the children.

The parser reads a token sequence (`token::Token`) and builds an arena of plain
nodes (`ast::Node`) that refer to each other by index.  Expressions, types and
parameters that the ArkUI grammar does not look into are kept as source ranges
("runs" of bracket-balanced tokens).  A run ends at a closing bracket, at
the separator of its context, or at a line break where a statement would end
without `;` (not after an operator, nor before one or before `.`, `(` or
`[`).

Every parse function is proved to return exactly what a recursive
specification of the grammar (the `spec_*` functions) gives, to keep the node
arena acyclic (every node refers only to nodes built before it), never to move
backwards, and to leave the ArkUI DSL nesting depth as it found it.  Laws that
relate several functions are in `src/laws.rs`.

Layout of `src/`:

- `span.rs` — source ranges, built through `oxc_span`;
- `token.rs` — token kinds and their classes;
- `diagnostics.rs`, `modifiers.rs`, `ast.rs` — the parser's data;
- `parser.rs` — the parser state, its cursor, and the arena invariant;
- `grammar.rs` — names, property names, decorators, modifiers, runs;
- `statements.rs` — statements and method bodies;
- `arkui.rs` — components, children, chains, struct and annotation declarations;
- `program.rs` — top-level items;
- `laws.rs` — properties across functions.
