use span_sanitizer::ast::{Span, Ident, PathSegment, Path, ParsedModule, Item, ItemKind,
    NoirFunction, Param, NoirTraitImpl, TraitImplItem, ParsedSubModule, NoirStruct,
    BlockExpression, Statement, StatementKind, Expression, ExpressionKind, Literal, ArrayLiteral,
    InfixExpression, IfExpression, UnresolvedType, UnresolvedTypeData, UnresolvedGeneric,
    FunctionReturnType, Pattern, BinaryOp};
use span_sanitizer::sanitize::{empty_noir_function, empty_item, empty_array_literal,
    empty_trait_impl_item};

fn sp(n: u32) -> Span {
    Span { start: n, end: n + 10 }
}

fn zero() -> Span {
    Span { start: 0, end: 0 }
}

fn ident(text: &str, span: Span) -> Ident {
    Ident { text: String::from(text), span }
}

fn variable(name: &str, path_span: Span, segment_span: Span, ident_span: Span) -> Expression {
    Expression {
        kind: ExpressionKind::Variable(Path {
            segments: vec![PathSegment { ident: ident(name, ident_span), span: segment_span }],
            span: path_span,
        }),
        span: path_span,
    }
}

fn field_type(span: Span) -> UnresolvedType {
    UnresolvedType { typ: UnresolvedTypeData::FieldElement, span }
}

fn integer(value: u128, span: Span) -> Expression {
    Expression { kind: ExpressionKind::Literal(Literal::Integer(value, false)), span }
}

/// A function `fn f(x: Field) -> Field { if x == 0 { 1 } else { x } }` with
/// non-empty locations on every node: after sanitization every location is
/// empty and the conditional's parts are unchanged.
#[test]
fn conditional_function_is_fully_sanitized() {
    let condition = Expression {
        kind: ExpressionKind::Infix(Box::new(InfixExpression {
            lhs: variable("x", sp(1), sp(2), sp(3)),
            operator: BinaryOp::Equal,
            rhs: integer(0, sp(4)),
        })),
        span: sp(5),
    };
    let if_expression = Expression {
        kind: ExpressionKind::If(Box::new(IfExpression {
            condition,
            consequence: integer(1, sp(6)),
            alternative: Some(variable("x", sp(7), sp(8), sp(9))),
        })),
        span: sp(10),
    };
    let function = NoirFunction {
        name: ident("f", sp(11)),
        generics: vec![],
        parameters: vec![Param {
            pattern: Pattern::Identifier(ident("x", sp(12))),
            typ: field_type(sp(13)),
            span: sp(14),
        }],
        where_clause: vec![],
        return_type: FunctionReturnType::Ty(field_type(sp(15))),
        body: BlockExpression {
            statements: vec![Statement {
                kind: StatementKind::Expression(if_expression),
                span: sp(16),
            }],
        },
        span: sp(17),
    };

    let expected_condition = Expression {
        kind: ExpressionKind::Infix(Box::new(InfixExpression {
            lhs: variable("x", zero(), zero(), zero()),
            operator: BinaryOp::Equal,
            rhs: integer(0, zero()),
        })),
        span: zero(),
    };
    let expected_if = Expression {
        kind: ExpressionKind::If(Box::new(IfExpression {
            condition: expected_condition,
            consequence: integer(1, zero()),
            alternative: Some(variable("x", zero(), zero(), zero())),
        })),
        span: zero(),
    };
    let expected = NoirFunction {
        name: ident("f", zero()),
        generics: vec![],
        parameters: vec![Param {
            pattern: Pattern::Identifier(ident("x", zero())),
            typ: field_type(zero()),
            span: zero(),
        }],
        where_clause: vec![],
        return_type: FunctionReturnType::Ty(field_type(zero())),
        body: BlockExpression {
            statements: vec![Statement {
                kind: StatementKind::Expression(expected_if),
                span: zero(),
            }],
        },
        span: zero(),
    };

    assert_eq!(empty_noir_function(&function), expected);
}

/// A struct `struct Pair<T> { a: T, b: T }` nested inside a module: the
/// module name, struct name, field identifiers and the generic parameter's
/// identifier all end up with empty locations; field types are preserved.
#[test]
fn nested_struct_locations_are_emptied() {
    let named_t = |span: Span, inner: Span| UnresolvedType {
        typ: UnresolvedTypeData::Named(
            Path {
                segments: vec![PathSegment { ident: ident("T", inner), span: inner }],
                span: inner,
            },
            vec![],
            false,
        ),
        span,
    };
    let pair = NoirStruct {
        name: ident("Pair", sp(20)),
        fields: vec![
            (ident("a", sp(21)), named_t(sp(22), sp(23))),
            (ident("b", sp(24)), named_t(sp(25), sp(26))),
        ],
        generics: vec![UnresolvedGeneric::Variable(ident("T", sp(27)))],
        span: sp(28),
    };
    let module_item = Item {
        kind: ItemKind::Submodules(ParsedSubModule {
            name: ident("inner", sp(29)),
            contents: ParsedModule {
                items: vec![Item { kind: ItemKind::Struct(pair), span: sp(30) }],
            },
        }),
        span: sp(31),
    };

    let sanitized = empty_item(&module_item);
    assert_eq!(sanitized.span, zero());
    match sanitized.kind {
        ItemKind::Submodules(submodule) => {
            assert_eq!(submodule.name, ident("inner", zero()));
            assert_eq!(submodule.contents.items.len(), 1);
            match &submodule.contents.items[0].kind {
                ItemKind::Struct(s) => {
                    assert_eq!(s.name, ident("Pair", zero()));
                    assert_eq!(s.span, zero());
                    assert_eq!(s.fields[0].0, ident("a", zero()));
                    assert_eq!(s.fields[1].0, ident("b", zero()));
                    assert_eq!(s.fields[0].1, named_t(zero(), zero()));
                    assert_eq!(s.fields[1].1, named_t(zero(), zero()));
                    assert_eq!(
                        s.generics,
                        vec![UnresolvedGeneric::Variable(ident("T", zero()))]
                    );
                },
                other => panic!("expected a struct item, got {:?}", other),
            }
        },
        other => panic!("expected a submodule item, got {:?}", other),
    }
}

/// An array literal with a repeated element `[0; 5]`: after sanitization
/// both the repeated-element expression and the length expression carry
/// empty locations.
#[test]
fn repeated_array_literal_is_sanitized() {
    let literal = ArrayLiteral::Repeated {
        repeated_element: Box::new(integer(0, sp(40))),
        length: Box::new(integer(5, sp(41))),
    };
    let expected = ArrayLiteral::Repeated {
        repeated_element: Box::new(integer(0, zero())),
        length: Box::new(integer(5, zero())),
    };
    assert_eq!(empty_array_literal(&literal), expected);
}

/// A trait implementation with an associated constant carrying a default
/// value expression: the constant's name, type and default value all end up
/// with empty locations.
#[test]
fn trait_impl_constant_is_sanitized() {
    let constant = TraitImplItem::Constant(
        ident("LIMIT", sp(50)),
        field_type(sp(51)),
        integer(7, sp(52)),
    );
    let expected = TraitImplItem::Constant(
        ident("LIMIT", zero()),
        field_type(zero()),
        integer(7, zero()),
    );
    assert_eq!(empty_trait_impl_item(&constant), expected);
}

/// The same trait-implementation constant reached through a whole item.
#[test]
fn trait_impl_item_is_sanitized_through_the_item() {
    let trait_impl = NoirTraitImpl {
        trait_name: Path {
            segments: vec![PathSegment { ident: ident("Bounded", sp(60)), span: sp(61) }],
            span: sp(62),
        },
        impl_generics: vec![],
        object_type: field_type(sp(63)),
        where_clause: vec![],
        items: vec![TraitImplItem::Constant(
            ident("LIMIT", sp(64)),
            field_type(sp(65)),
            integer(7, sp(66)),
        )],
    };
    let item = Item { kind: ItemKind::TraitImpl(trait_impl), span: sp(67) };
    let sanitized = empty_item(&item);
    let expected = Item {
        kind: ItemKind::TraitImpl(NoirTraitImpl {
            trait_name: Path {
                segments: vec![PathSegment { ident: ident("Bounded", zero()), span: zero() }],
                span: zero(),
            },
            impl_generics: vec![],
            object_type: field_type(zero()),
            where_clause: vec![],
            items: vec![TraitImplItem::Constant(
                ident("LIMIT", zero()),
                field_type(zero()),
                integer(7, zero()),
            )],
        }),
        span: zero(),
    };
    assert_eq!(sanitized, expected);
}
