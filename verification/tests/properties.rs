use span_sanitizer::ast::{Span, Ident, PathSegment, Path, ParsedModule, ParseError, Item,
    ItemKind, LetStatement, ModuleDeclaration, BlockExpression, Statement, StatementKind,
    ConstrainStatement, AssignStatement, LValue, ForLoopStatement, ForRange, Expression,
    ExpressionKind, Literal, MethodCallExpression, CastExpression, UseTree, UseTreeKind,
    UnresolvedType, UnresolvedTypeData, UnresolvedTypeExpression, UnresolvedTraitConstraint,
    Pattern, BinaryOp};
use span_sanitizer::sanitize::{empty_parsed_module, empty_statement, empty_expression,
    empty_unresolved_type, empty_pattern, empty_use_tree, empty_lvalue,
    empty_unresolved_type_expression, empty_method_call_expression,
    empty_unresolved_trait_constraint};
use span_sanitizer::sanitize_program;

fn sp(n: u32) -> Span {
    Span { start: n, end: n + 10 }
}

fn zero() -> Span {
    Span { start: 0, end: 0 }
}

fn ident(text: &str, span: Span) -> Ident {
    Ident { text: String::from(text), span }
}

fn single_path(name: &str, span: Span) -> Path {
    Path {
        segments: vec![PathSegment { ident: ident(name, span), span }],
        span,
    }
}

fn string_expression(text: &str, span: Span) -> Expression {
    Expression { kind: ExpressionKind::Literal(Literal::Str(String::from(text))), span }
}

fn sample_module() -> ParsedModule {
    let let_statement = LetStatement {
        pattern: Pattern::Mutable(
            Box::new(Pattern::Identifier(ident("count", sp(1)))),
            sp(2),
            false,
        ),
        typ: UnresolvedType { typ: UnresolvedTypeData::Integer(false, 32), span: sp(3) },
        expression: Expression {
            kind: ExpressionKind::Literal(Literal::Integer(9, false)),
            span: sp(4),
        },
    };
    let constrain = Statement {
        kind: StatementKind::Constrain(ConstrainStatement(
            Expression {
                kind: ExpressionKind::Variable(single_path("ok", sp(5))),
                span: sp(6),
            },
            Some(string_expression("must hold", sp(7))),
        )),
        span: sp(8),
    };
    let assignment = Statement {
        kind: StatementKind::Assign(AssignStatement {
            lvalue: LValue::Index {
                array: Box::new(LValue::Ident(ident("xs", sp(9)))),
                index: Expression {
                    kind: ExpressionKind::Literal(Literal::Integer(0, false)),
                    span: sp(10),
                },
                span: sp(11),
            },
            expression: string_expression("value", sp(12)),
        }),
        span: sp(13),
    };
    let for_loop = Statement {
        kind: StatementKind::For(ForLoopStatement {
            identifier: ident("i", sp(14)),
            range: ForRange::Range(
                Expression {
                    kind: ExpressionKind::Literal(Literal::Integer(0, false)),
                    span: sp(15),
                },
                Expression {
                    kind: ExpressionKind::Literal(Literal::Integer(4, false)),
                    span: sp(16),
                },
            ),
            block: Expression {
                kind: ExpressionKind::Block(BlockExpression {
                    statements: vec![
                        Statement { kind: StatementKind::Break, span: sp(17) },
                        Statement { kind: StatementKind::Continue, span: sp(18) },
                        Statement { kind: StatementKind::Error, span: sp(19) },
                    ],
                }),
                span: sp(20),
            },
            span: sp(41),
        }),
        span: sp(21),
    };
    let comptime = Statement {
        kind: StatementKind::Comptime(Box::new(Statement {
            kind: StatementKind::Semi(Expression { kind: ExpressionKind::Error, span: sp(22) }),
            span: sp(23),
        })),
        span: sp(24),
    };
    let global = Item { kind: ItemKind::Global(let_statement), span: sp(25) };
    let module_decl = Item {
        kind: ItemKind::ModuleDecl(ModuleDeclaration { ident: ident("helpers", sp(26)) }),
        span: sp(27),
    };
    let import = Item {
        kind: ItemKind::Import(UseTree {
            prefix: single_path("dep", sp(28)),
            kind: UseTreeKind::List(vec![
                UseTree {
                    prefix: single_path("a", sp(29)),
                    kind: UseTreeKind::Path(ident("thing", sp(30)), Some(ident("alias", sp(31)))),
                },
                UseTree {
                    prefix: single_path("b", sp(32)),
                    kind: UseTreeKind::Path(ident("other", sp(33)), None),
                },
            ]),
        }),
        span: sp(34),
    };
    let body = Item {
        kind: ItemKind::Global(LetStatement {
            pattern: Pattern::Tuple(
                vec![
                    Pattern::Identifier(ident("left", sp(35))),
                    Pattern::Identifier(ident("right", sp(36))),
                ],
                sp(37),
            ),
            typ: UnresolvedType { typ: UnresolvedTypeData::Unspecified, span: sp(38) },
            expression: Expression {
                kind: ExpressionKind::Block(BlockExpression {
                    statements: vec![constrain, assignment, for_loop, comptime],
                }),
                span: sp(39),
            },
        }),
        span: sp(40),
    };
    ParsedModule { items: vec![global, module_decl, import, body] }
}

/// Sanitizing twice yields the same tree as sanitizing once.
#[test]
fn sanitization_is_idempotent_on_a_sample_tree() {
    let module = sample_module();
    let once = empty_parsed_module(&module);
    let twice = empty_parsed_module(&once);
    assert_eq!(twice, once);
}

/// The mode flag: with it set, the tree is sanitized; without it, the tree
/// and the diagnostics come back exactly as they went in.
#[test]
fn facade_respects_the_mode_flag() {
    let errors = vec![ParseError { message: String::from("unexpected token"), span: sp(90) }];
    let untouched = sanitize_program(sample_module(), errors, false);
    assert_eq!(untouched.0, sample_module());
    assert_eq!(untouched.1.len(), 1);
    assert_eq!(untouched.1[0].message, "unexpected token");
    assert_eq!(untouched.1[0].span, sp(90));

    let errors = vec![ParseError { message: String::from("unexpected token"), span: sp(90) }];
    let sanitized = sanitize_program(sample_module(), errors, true);
    assert_eq!(sanitized.0, empty_parsed_module(&sample_module()));
    assert_eq!(sanitized.1[0].message, "unexpected token");
    assert_eq!(sanitized.1[0].span, sp(90));
}

/// An empty module is a no-op traversal.
#[test]
fn empty_module_is_a_no_op() {
    let module = ParsedModule { items: vec![] };
    assert_eq!(empty_parsed_module(&module), ParsedModule { items: vec![] });
}

/// Identifier text, literal values and operator kinds survive sanitization.
#[test]
fn content_is_preserved() {
    let module = sample_module();
    let sanitized = empty_parsed_module(&module);
    assert_eq!(sanitized.items.len(), module.items.len());
    match (&sanitized.items[0].kind, &module.items[0].kind) {
        (ItemKind::Global(after), ItemKind::Global(before)) => {
            match (&after.pattern, &before.pattern) {
                (Pattern::Mutable(pa, _, fa), Pattern::Mutable(pb, _, fb)) => {
                    assert_eq!(pa, &Box::new(Pattern::Identifier(ident("count", zero()))));
                    assert_eq!(
                        pb,
                        &Box::new(Pattern::Identifier(ident("count", sp(1))))
                    );
                    assert_eq!(fa, fb);
                },
                other => panic!("expected mutable patterns, got {:?}", other),
            }
            assert_eq!(after.typ.typ, UnresolvedTypeData::Integer(false, 32));
            assert_eq!(
                after.expression.kind,
                ExpressionKind::Literal(Literal::Integer(9, false))
            );
        },
        other => panic!("expected global items, got {:?}", other),
    }
}

/// The auxiliary position on a mutable pattern is part of the payload and
/// is not cleared.
#[test]
fn mutable_pattern_keeps_its_auxiliary_position() {
    let pattern = Pattern::Mutable(
        Box::new(Pattern::Identifier(ident("x", sp(1)))),
        sp(2),
        true,
    );
    let expected = Pattern::Mutable(
        Box::new(Pattern::Identifier(ident("x", zero()))),
        sp(2),
        true,
    );
    assert_eq!(empty_pattern(&pattern), expected);
}

/// The auxiliary positions on composite lvalues are not cleared, while the
/// identifiers and index expressions inside them are sanitized.
#[test]
fn lvalue_keeps_its_auxiliary_positions() {
    let lvalue = LValue::MemberAccess {
        object: Box::new(LValue::Dereference(
            Box::new(LValue::Ident(ident("p", sp(1)))),
            sp(2),
        )),
        field_name: ident("field", sp(3)),
        span: sp(4),
    };
    let expected = LValue::MemberAccess {
        object: Box::new(LValue::Dereference(
            Box::new(LValue::Ident(ident("p", zero()))),
            sp(2),
        )),
        field_name: ident("field", zero()),
        span: sp(4),
    };
    assert_eq!(empty_lvalue(&lvalue), expected);
}

/// A compile-time block expression keeps the auxiliary position beside its
/// block, while the block itself is sanitized.
#[test]
fn comptime_expression_keeps_its_auxiliary_position() {
    let expression = Expression {
        kind: ExpressionKind::Comptime(
            BlockExpression {
                statements: vec![Statement {
                    kind: StatementKind::Semi(string_expression("inner", sp(1))),
                    span: sp(2),
                }],
            },
            sp(3),
        ),
        span: sp(4),
    };
    let expected = Expression {
        kind: ExpressionKind::Comptime(
            BlockExpression {
                statements: vec![Statement {
                    kind: StatementKind::Semi(string_expression("inner", zero())),
                    span: zero(),
                }],
            },
            sp(3),
        ),
        span: zero(),
    };
    assert_eq!(empty_expression(&expression), expected);
}

/// The environment type of a function type is carried through untouched,
/// while the argument and return types are sanitized.
#[test]
fn function_type_environment_is_untouched() {
    let unit = |span: Span| UnresolvedType { typ: UnresolvedTypeData::Unit, span };
    let typ = UnresolvedType {
        typ: UnresolvedTypeData::Function(
            vec![unit(sp(1)), unit(sp(2))],
            Box::new(unit(sp(3))),
            Box::new(unit(sp(4))),
        ),
        span: sp(5),
    };
    let expected = UnresolvedType {
        typ: UnresolvedTypeData::Function(
            vec![unit(zero()), unit(zero())],
            Box::new(unit(zero())),
            Box::new(unit(sp(4))),
        ),
        span: zero(),
    };
    assert_eq!(empty_unresolved_type(&typ), expected);
}

/// Type-level expressions: the variable path is sanitized; the auxiliary
/// positions on operations and constants stay.
#[test]
fn type_level_expressions_keep_auxiliary_positions() {
    let expression = UnresolvedTypeExpression::BinaryOperation(
        Box::new(UnresolvedTypeExpression::Variable(single_path("N", sp(1)))),
        BinaryOp::Add,
        Box::new(UnresolvedTypeExpression::Constant(3, sp(2))),
        sp(3),
    );
    let expected = UnresolvedTypeExpression::BinaryOperation(
        Box::new(UnresolvedTypeExpression::Variable(single_path("N", zero()))),
        BinaryOp::Add,
        Box::new(UnresolvedTypeExpression::Constant(3, sp(2))),
        sp(3),
    );
    assert_eq!(empty_unresolved_type_expression(&expression), expected);
}

/// An array type sanitizes both its size expression and its element type.
#[test]
fn array_type_is_sanitized() {
    let typ = UnresolvedType {
        typ: UnresolvedTypeData::Array(
            UnresolvedTypeExpression::Constant(8, sp(1)),
            Box::new(UnresolvedType {
                typ: UnresolvedTypeData::Named(
                    single_path("Thing", sp(2)),
                    vec![UnresolvedType { typ: UnresolvedTypeData::Bool, span: sp(3) }],
                    true,
                ),
                span: sp(4),
            }),
        ),
        span: sp(5),
    };
    let expected = UnresolvedType {
        typ: UnresolvedTypeData::Array(
            UnresolvedTypeExpression::Constant(8, sp(1)),
            Box::new(UnresolvedType {
                typ: UnresolvedTypeData::Named(
                    single_path("Thing", zero()),
                    vec![UnresolvedType { typ: UnresolvedTypeData::Bool, span: zero() }],
                    true,
                ),
                span: zero(),
            }),
        ),
        span: zero(),
    };
    assert_eq!(empty_unresolved_type(&typ), expected);
}

/// Quote, Resolved and Error expressions are terminal: their payloads are
/// not recursed into, and their own locations behave as for any expression.
#[test]
fn terminal_expressions_keep_their_payloads() {
    let quote = Expression {
        kind: ExpressionKind::Quote(String::from("quoted tokens")),
        span: sp(1),
    };
    let sanitized = empty_expression(&quote);
    assert_eq!(
        sanitized,
        Expression { kind: ExpressionKind::Quote(String::from("quoted tokens")), span: zero() }
    );

    let resolved = Expression { kind: ExpressionKind::Resolved(42), span: sp(2) };
    assert_eq!(
        empty_expression(&resolved),
        Expression { kind: ExpressionKind::Resolved(42), span: zero() }
    );

    let error = Expression { kind: ExpressionKind::Error, span: sp(3) };
    assert_eq!(
        empty_expression(&error),
        Expression { kind: ExpressionKind::Error, span: zero() }
    );
}

/// A method call sanitizes its receiver, name, explicit generics and
/// arguments.
#[test]
fn method_call_is_sanitized() {
    let call = MethodCallExpression {
        object: string_expression("receiver", sp(1)),
        method_name: ident("len", sp(2)),
        generics: Some(vec![UnresolvedType {
            typ: UnresolvedTypeData::FieldElement,
            span: sp(3),
        }]),
        arguments: vec![string_expression("argument", sp(4))],
    };
    let expected = MethodCallExpression {
        object: string_expression("receiver", zero()),
        method_name: ident("len", zero()),
        generics: Some(vec![UnresolvedType {
            typ: UnresolvedTypeData::FieldElement,
            span: zero(),
        }]),
        arguments: vec![string_expression("argument", zero())],
    };
    assert_eq!(empty_method_call_expression(&call), expected);
}

/// A cast sanitizes both the operand and the target type.
#[test]
fn cast_is_sanitized() {
    let cast = Expression {
        kind: ExpressionKind::Cast(Box::new(CastExpression {
            lhs: string_expression("operand", sp(1)),
            typ: UnresolvedType { typ: UnresolvedTypeData::Integer(true, 64), span: sp(2) },
        })),
        span: sp(3),
    };
    let expected = Expression {
        kind: ExpressionKind::Cast(Box::new(CastExpression {
            lhs: string_expression("operand", zero()),
            typ: UnresolvedType { typ: UnresolvedTypeData::Integer(true, 64), span: zero() },
        })),
        span: zero(),
    };
    assert_eq!(empty_expression(&cast), expected);
}

/// A where-clause constraint sanitizes its constrained type.
#[test]
fn trait_constraint_is_sanitized() {
    let constraint = UnresolvedTraitConstraint {
        typ: UnresolvedType { typ: UnresolvedTypeData::String(12), span: sp(1) },
    };
    let expected = UnresolvedTraitConstraint {
        typ: UnresolvedType { typ: UnresolvedTypeData::String(12), span: zero() },
    };
    assert_eq!(empty_unresolved_trait_constraint(&constraint), expected);
}

/// Statements that carry no payload keep their variant and only lose their
/// own location.
#[test]
fn payload_free_statements_are_handled() {
    let break_statement = Statement { kind: StatementKind::Break, span: sp(1) };
    assert_eq!(
        empty_statement(&break_statement),
        Statement { kind: StatementKind::Break, span: zero() }
    );
    let continue_statement = Statement { kind: StatementKind::Continue, span: sp(2) };
    assert_eq!(
        empty_statement(&continue_statement),
        Statement { kind: StatementKind::Continue, span: zero() }
    );
    let error_statement = Statement { kind: StatementKind::Error, span: sp(3) };
    assert_eq!(
        empty_statement(&error_statement),
        Statement { kind: StatementKind::Error, span: zero() }
    );
}

/// Nested import lists are sanitized throughout, aliases included.
#[test]
fn nested_imports_are_sanitized() {
    let tree = UseTree {
        prefix: single_path("dep", sp(1)),
        kind: UseTreeKind::List(vec![UseTree {
            prefix: single_path("nested", sp(2)),
            kind: UseTreeKind::Path(ident("name", sp(3)), Some(ident("alias", sp(4)))),
        }]),
    };
    let expected = UseTree {
        prefix: single_path("dep", zero()),
        kind: UseTreeKind::List(vec![UseTree {
            prefix: single_path("nested", zero()),
            kind: UseTreeKind::Path(ident("name", zero()), Some(ident("alias", zero()))),
        }]),
    };
    assert_eq!(empty_use_tree(&tree), expected);
}
