//! The specification of sanitization: for each model type, a function that
//! resets every location attribute to the empty sentinel and leaves all
//! other content exactly as it was.  Terminal variants (scalar literals,
//! primitive types, quoted or already-resolved payloads, error nodes) are
//! not recursed into; auxiliary positions that sit beside a payload (for
//! example on the composite pattern and lvalue forms) are part of the
//! payload and are preserved.

use vstd::prelude::*;
use crate::ast::Span;
use crate::model::{IdentView, PathSegmentView, PathView, ParsedModuleView, ItemView, ItemKindView,
    NoirFunctionView, ParamView, NoirTraitView, TraitItemView, NoirTraitImplView,
    TraitImplItemView, TypeImplView, ParsedSubModuleView, ModuleDeclarationView, UseTreeView,
    UseTreeKindView, NoirStructView, NoirTypeAliasView, LetStatementView, BlockExpressionView,
    StatementView, StatementKindView, ConstrainStatementView, AssignStatementView, LValueView,
    ForLoopStatementView, ForRangeView, ExpressionView, ExpressionKindView, LiteralView,
    ArrayLiteralView, PrefixExpressionView, IndexExpressionView, CallExpressionView,
    MethodCallExpressionView, ConstructorExpressionView, MemberAccessExpressionView,
    CastExpressionView, InfixExpressionView, IfExpressionView, LambdaView, UnresolvedTypeView,
    UnresolvedTypeDataView, UnresolvedTypeExpressionView, UnresolvedGenericView,
    UnresolvedTraitConstraintView, FunctionReturnTypeView, PatternView};

verus! {

/// The sentinel that every cleared location attribute is set to.
pub open spec fn span_empty() -> Span {
    Span { start: 0, end: 0 }
}

pub open spec fn erase_ident(i: IdentView) -> IdentView {
    IdentView { text: i.text, span: span_empty() }
}

pub open spec fn erase_path_segment(s: PathSegmentView) -> PathSegmentView {
    PathSegmentView { ident: erase_ident(s.ident), span: span_empty() }
}

pub open spec fn erase_path_segments(s: Seq<PathSegmentView>) -> Seq<PathSegmentView>
    decreases s,
{
    if s.len() == 0 {
        Seq::empty()
    } else {
        erase_path_segments(s.subrange(0, s.len() - 1)).push(erase_path_segment(s[s.len() - 1]))
    }
}

pub open spec fn erase_path(p: PathView) -> PathView
    decreases p,
{
    PathView { segments: erase_path_segments(p.segments), span: span_empty() }
}

pub open spec fn erase_parsed_module(m: ParsedModuleView) -> ParsedModuleView
    decreases m,
{
    ParsedModuleView { items: erase_items(m.items) }
}

pub open spec fn erase_items(s: Seq<ItemView>) -> Seq<ItemView>
    decreases s,
{
    if s.len() == 0 {
        Seq::empty()
    } else {
        erase_items(s.subrange(0, s.len() - 1)).push(erase_item(s[s.len() - 1]))
    }
}

pub open spec fn erase_item(i: ItemView) -> ItemView
    decreases i,
{
    ItemView { kind: erase_item_kind(i.kind), span: span_empty() }
}

pub open spec fn erase_item_kind(k: ItemKindView) -> ItemKindView
    decreases k,
{
    match k {
        ItemKindView::Function(f) => ItemKindView::Function(erase_noir_function(f)),
        ItemKindView::Trait(t) => ItemKindView::Trait(erase_noir_trait(t)),
        ItemKindView::TraitImpl(t) => ItemKindView::TraitImpl(erase_noir_trait_impl(t)),
        ItemKindView::Impl(t) => ItemKindView::Impl(erase_type_impl(t)),
        ItemKindView::Global(g) => ItemKindView::Global(erase_let_statement(g)),
        ItemKindView::Submodules(s) => ItemKindView::Submodules(erase_parsed_sub_module(s)),
        ItemKindView::ModuleDecl(m) => ItemKindView::ModuleDecl(erase_module_declaration(m)),
        ItemKindView::Import(u) => ItemKindView::Import(erase_use_tree(u)),
        ItemKindView::Struct(s) => ItemKindView::Struct(erase_noir_struct(s)),
        ItemKindView::TypeAlias(a) => ItemKindView::TypeAlias(erase_noir_type_alias(a)),
    }
}

pub open spec fn erase_noir_function(f: NoirFunctionView) -> NoirFunctionView
    decreases f,
{
    NoirFunctionView {
        name: erase_ident(f.name),
        generics: erase_generics(f.generics),
        parameters: erase_params(f.parameters),
        where_clause: erase_constraints(f.where_clause),
        return_type: erase_function_return_type(f.return_type),
        body: erase_block_expression(f.body),
        span: span_empty(),
    }
}

pub open spec fn erase_param(p: ParamView) -> ParamView
    decreases p,
{
    ParamView {
        pattern: erase_pattern(p.pattern),
        typ: erase_unresolved_type(p.typ),
        span: span_empty(),
    }
}

pub open spec fn erase_params(s: Seq<ParamView>) -> Seq<ParamView>
    decreases s,
{
    if s.len() == 0 {
        Seq::empty()
    } else {
        erase_params(s.subrange(0, s.len() - 1)).push(erase_param(s[s.len() - 1]))
    }
}

pub open spec fn erase_noir_trait(t: NoirTraitView) -> NoirTraitView
    decreases t,
{
    NoirTraitView {
        name: erase_ident(t.name),
        generics: erase_generics(t.generics),
        where_clause: erase_constraints(t.where_clause),
        items: erase_trait_items(t.items),
        span: span_empty(),
    }
}

pub open spec fn erase_trait_items(s: Seq<TraitItemView>) -> Seq<TraitItemView>
    decreases s,
{
    if s.len() == 0 {
        Seq::empty()
    } else {
        erase_trait_items(s.subrange(0, s.len() - 1)).push(erase_trait_item(s[s.len() - 1]))
    }
}

pub open spec fn erase_trait_item(t: TraitItemView) -> TraitItemView
    decreases t,
{
    match t {
        TraitItemView::Function { name, generics, parameters, return_type, where_clause, body } => (
            TraitItemView::Function {
                name: erase_ident(name),
                generics: erase_generics(generics),
                parameters: erase_ident_types(parameters),
                return_type: erase_function_return_type(return_type),
                where_clause: erase_constraints(where_clause),
                body: match body {
                    Option::Some(b) => Option::Some(erase_block_expression(b)),
                    Option::None => Option::None,
                },
            }
        ),
        TraitItemView::Constant { name, typ, default_value } => (
            TraitItemView::Constant {
                name: erase_ident(name),
                typ: erase_unresolved_type(typ),
                default_value: match default_value {
                    Option::Some(e) => Option::Some(erase_expression(e)),
                    Option::None => Option::None,
                },
            }
        ),
        TraitItemView::Type { name } => (TraitItemView::Type { name: erase_ident(name) }),
    }
}

pub open spec fn erase_noir_trait_impl(t: NoirTraitImplView) -> NoirTraitImplView
    decreases t,
{
    NoirTraitImplView {
        trait_name: erase_path(t.trait_name),
        impl_generics: erase_generics(t.impl_generics),
        object_type: erase_unresolved_type(t.object_type),
        where_clause: erase_constraints(t.where_clause),
        items: erase_trait_impl_items(t.items),
    }
}

pub open spec fn erase_trait_impl_items(s: Seq<TraitImplItemView>) -> Seq<TraitImplItemView>
    decreases s,
{
    if s.len() == 0 {
        Seq::empty()
    } else {
        erase_trait_impl_items(s.subrange(0, s.len() - 1)).push(
            erase_trait_impl_item(s[s.len() - 1]),
        )
    }
}

pub open spec fn erase_trait_impl_item(t: TraitImplItemView) -> TraitImplItemView
    decreases t,
{
    match t {
        TraitImplItemView::Function(f) => TraitImplItemView::Function(erase_noir_function(f)),
        TraitImplItemView::Constant(name, typ, default_value) => TraitImplItemView::Constant(
            erase_ident(name),
            erase_unresolved_type(typ),
            erase_expression(default_value),
        ),
        TraitImplItemView::Type { name, alias } => (
            TraitImplItemView::Type {
                name: erase_ident(name),
                alias: erase_unresolved_type(alias),
            }
        ),
    }
}

pub open spec fn erase_type_impl(t: TypeImplView) -> TypeImplView
    decreases t,
{
    TypeImplView {
        object_type: erase_unresolved_type(t.object_type),
        type_span: span_empty(),
        generics: erase_generics(t.generics),
        where_clause: erase_constraints(t.where_clause),
        methods: erase_methods(t.methods),
    }
}

pub open spec fn erase_methods(s: Seq<(NoirFunctionView, Span)>) -> Seq<(NoirFunctionView, Span)>
    decreases s,
{
    if s.len() == 0 {
        Seq::empty()
    } else {
        erase_methods(s.subrange(0, s.len() - 1)).push(
            (erase_noir_function(s[s.len() - 1].0), s[s.len() - 1].1),
        )
    }
}

pub open spec fn erase_parsed_sub_module(s: ParsedSubModuleView) -> ParsedSubModuleView
    decreases s,
{
    ParsedSubModuleView { name: erase_ident(s.name), contents: erase_parsed_module(s.contents) }
}

pub open spec fn erase_module_declaration(m: ModuleDeclarationView) -> ModuleDeclarationView {
    ModuleDeclarationView { ident: erase_ident(m.ident) }
}

pub open spec fn erase_use_tree(u: UseTreeView) -> UseTreeView
    decreases u,
{
    UseTreeView { prefix: erase_path(u.prefix), kind: erase_use_tree_kind(u.kind) }
}

pub open spec fn erase_use_tree_kind(k: UseTreeKindView) -> UseTreeKindView
    decreases k,
{
    match k {
        UseTreeKindView::Path(name, alias) => UseTreeKindView::Path(
            erase_ident(name),
            match alias {
                Option::Some(a) => Option::Some(erase_ident(a)),
                Option::None => Option::None,
            },
        ),
        UseTreeKindView::List(trees) => UseTreeKindView::List(erase_use_trees(trees)),
    }
}

pub open spec fn erase_use_trees(s: Seq<UseTreeView>) -> Seq<UseTreeView>
    decreases s,
{
    if s.len() == 0 {
        Seq::empty()
    } else {
        erase_use_trees(s.subrange(0, s.len() - 1)).push(erase_use_tree(s[s.len() - 1]))
    }
}

pub open spec fn erase_noir_struct(s: NoirStructView) -> NoirStructView
    decreases s,
{
    NoirStructView {
        name: erase_ident(s.name),
        fields: erase_ident_types(s.fields),
        generics: erase_generics(s.generics),
        span: span_empty(),
    }
}

pub open spec fn erase_noir_type_alias(a: NoirTypeAliasView) -> NoirTypeAliasView
    decreases a,
{
    NoirTypeAliasView {
        name: erase_ident(a.name),
        typ: erase_unresolved_type(a.typ),
        span: span_empty(),
    }
}

pub open spec fn erase_let_statement(l: LetStatementView) -> LetStatementView
    decreases l,
{
    LetStatementView {
        pattern: erase_pattern(l.pattern),
        typ: erase_unresolved_type(l.typ),
        expression: erase_expression(l.expression),
    }
}

pub open spec fn erase_block_expression(b: BlockExpressionView) -> BlockExpressionView
    decreases b,
{
    BlockExpressionView { statements: erase_statements(b.statements) }
}

pub open spec fn erase_statements(s: Seq<StatementView>) -> Seq<StatementView>
    decreases s,
{
    if s.len() == 0 {
        Seq::empty()
    } else {
        erase_statements(s.subrange(0, s.len() - 1)).push(erase_statement(s[s.len() - 1]))
    }
}

pub open spec fn erase_statement(s: StatementView) -> StatementView
    decreases s,
{
    StatementView { kind: erase_statement_kind(s.kind), span: span_empty() }
}

pub open spec fn erase_statement_kind(k: StatementKindView) -> StatementKindView
    decreases k,
{
    match k {
        StatementKindView::Let(l) => StatementKindView::Let(erase_let_statement(l)),
        StatementKindView::Constrain(c) => StatementKindView::Constrain(
            erase_constrain_statement(c),
        ),
        StatementKindView::Expression(e) => StatementKindView::Expression(erase_expression(e)),
        StatementKindView::Assign(a) => StatementKindView::Assign(erase_assign_statement(a)),
        StatementKindView::For(f) => StatementKindView::For(erase_for_loop_statement(f)),
        StatementKindView::Comptime(s) => StatementKindView::Comptime(
            Box::new(erase_statement(*s)),
        ),
        StatementKindView::Semi(e) => StatementKindView::Semi(erase_expression(e)),
        StatementKindView::Break => StatementKindView::Break,
        StatementKindView::Continue => StatementKindView::Continue,
        StatementKindView::Error => StatementKindView::Error,
    }
}

pub open spec fn erase_constrain_statement(c: ConstrainStatementView) -> ConstrainStatementView
    decreases c,
{
    ConstrainStatementView(
        erase_expression(c.0),
        match c.1 {
            Option::Some(e) => Option::Some(erase_expression(e)),
            Option::None => Option::None,
        },
    )
}

pub open spec fn erase_assign_statement(a: AssignStatementView) -> AssignStatementView
    decreases a,
{
    AssignStatementView {
        lvalue: erase_lvalue(a.lvalue),
        expression: erase_expression(a.expression),
    }
}

pub open spec fn erase_lvalue(l: LValueView) -> LValueView
    decreases l,
{
    match l {
        LValueView::Ident(i) => LValueView::Ident(erase_ident(i)),
        LValueView::MemberAccess { object, field_name, span } => (
            LValueView::MemberAccess {
                object: Box::new(erase_lvalue(*object)),
                field_name: erase_ident(field_name),
                span,
            }
        ),
        LValueView::Index { array, index, span } => (
            LValueView::Index {
                array: Box::new(erase_lvalue(*array)),
                index: erase_expression(index),
                span,
            }
        ),
        LValueView::Dereference(inner, span) => LValueView::Dereference(
            Box::new(erase_lvalue(*inner)),
            span,
        ),
    }
}

pub open spec fn erase_for_loop_statement(f: ForLoopStatementView) -> ForLoopStatementView
    decreases f,
{
    ForLoopStatementView {
        identifier: erase_ident(f.identifier),
        range: erase_for_range(f.range),
        block: erase_expression(f.block),
        span: span_empty(),
    }
}

pub open spec fn erase_for_range(r: ForRangeView) -> ForRangeView
    decreases r,
{
    match r {
        ForRangeView::Range(from, to) => ForRangeView::Range(
            erase_expression(from),
            erase_expression(to),
        ),
        ForRangeView::Array(e) => ForRangeView::Array(erase_expression(e)),
    }
}

pub open spec fn erase_expressions(s: Seq<ExpressionView>) -> Seq<ExpressionView>
    decreases s,
{
    if s.len() == 0 {
        Seq::empty()
    } else {
        erase_expressions(s.subrange(0, s.len() - 1)).push(erase_expression(s[s.len() - 1]))
    }
}

pub open spec fn erase_expression(e: ExpressionView) -> ExpressionView
    decreases e,
{
    ExpressionView { kind: erase_expression_kind(e.kind), span: span_empty() }
}

pub open spec fn erase_expression_kind(k: ExpressionKindView) -> ExpressionKindView
    decreases k,
{
    match k {
        ExpressionKindView::Literal(l) => ExpressionKindView::Literal(erase_literal(l)),
        ExpressionKindView::Block(b) => ExpressionKindView::Block(erase_block_expression(b)),
        ExpressionKindView::Prefix(p) => ExpressionKindView::Prefix(
            Box::new(erase_prefix_expression(*p)),
        ),
        ExpressionKindView::Index(i) => ExpressionKindView::Index(
            Box::new(erase_index_expression(*i)),
        ),
        ExpressionKindView::Call(c) => ExpressionKindView::Call(
            Box::new(erase_call_expression(*c)),
        ),
        ExpressionKindView::MethodCall(m) => ExpressionKindView::MethodCall(
            Box::new(erase_method_call_expression(*m)),
        ),
        ExpressionKindView::Constructor(c) => ExpressionKindView::Constructor(
            Box::new(erase_constructor_expression(*c)),
        ),
        ExpressionKindView::MemberAccess(m) => ExpressionKindView::MemberAccess(
            Box::new(erase_member_access_expression(*m)),
        ),
        ExpressionKindView::Cast(c) => ExpressionKindView::Cast(
            Box::new(erase_cast_expression(*c)),
        ),
        ExpressionKindView::Infix(i) => ExpressionKindView::Infix(
            Box::new(erase_infix_expression(*i)),
        ),
        ExpressionKindView::If(i) => ExpressionKindView::If(Box::new(erase_if_expression(*i))),
        ExpressionKindView::Variable(p) => ExpressionKindView::Variable(erase_path(p)),
        ExpressionKindView::Tuple(es) => ExpressionKindView::Tuple(erase_expressions(es)),
        ExpressionKindView::Lambda(l) => ExpressionKindView::Lambda(Box::new(erase_lambda(*l))),
        ExpressionKindView::Parenthesized(e) => ExpressionKindView::Parenthesized(
            Box::new(erase_expression(*e)),
        ),
        ExpressionKindView::Quote(tokens) => ExpressionKindView::Quote(tokens),
        ExpressionKindView::Unquote(e) => ExpressionKindView::Unquote(
            Box::new(erase_expression(*e)),
        ),
        ExpressionKindView::Comptime(b, span) => ExpressionKindView::Comptime(
            erase_block_expression(b),
            span,
        ),
        ExpressionKindView::Resolved(id) => ExpressionKindView::Resolved(id),
        ExpressionKindView::Error => ExpressionKindView::Error,
    }
}

pub open spec fn erase_literal(l: LiteralView) -> LiteralView
    decreases l,
{
    match l {
        LiteralView::Array(a) => LiteralView::Array(erase_array_literal(a)),
        LiteralView::Slice(a) => LiteralView::Slice(erase_array_literal(a)),
        LiteralView::Bool(b) => LiteralView::Bool(b),
        LiteralView::Integer(v, sign) => LiteralView::Integer(v, sign),
        LiteralView::Str(s) => LiteralView::Str(s),
        LiteralView::RawStr(s, h) => LiteralView::RawStr(s, h),
        LiteralView::FmtStr(s) => LiteralView::FmtStr(s),
        LiteralView::Unit => LiteralView::Unit,
    }
}

pub open spec fn erase_array_literal(a: ArrayLiteralView) -> ArrayLiteralView
    decreases a,
{
    match a {
        ArrayLiteralView::Standard(es) => ArrayLiteralView::Standard(erase_expressions(es)),
        ArrayLiteralView::Repeated { repeated_element, length } => (
            ArrayLiteralView::Repeated {
                repeated_element: Box::new(erase_expression(*repeated_element)),
                length: Box::new(erase_expression(*length)),
            }
        ),
    }
}

pub open spec fn erase_prefix_expression(p: PrefixExpressionView) -> PrefixExpressionView
    decreases p,
{
    PrefixExpressionView { operator: p.operator, rhs: erase_expression(p.rhs) }
}

pub open spec fn erase_index_expression(i: IndexExpressionView) -> IndexExpressionView
    decreases i,
{
    IndexExpressionView {
        collection: erase_expression(i.collection),
        index: erase_expression(i.index),
    }
}

pub open spec fn erase_call_expression(c: CallExpressionView) -> CallExpressionView
    decreases c,
{
    CallExpressionView { func: erase_expression(c.func), arguments: erase_expressions(c.arguments) }
}

pub open spec fn erase_method_call_expression(
    m: MethodCallExpressionView,
) -> MethodCallExpressionView
    decreases m,
{
    MethodCallExpressionView {
        object: erase_expression(m.object),
        method_name: erase_ident(m.method_name),
        generics: match m.generics {
            Option::Some(ts) => Option::Some(erase_unresolved_types(ts)),
            Option::None => Option::None,
        },
        arguments: erase_expressions(m.arguments),
    }
}

pub open spec fn erase_constructor_expression(
    c: ConstructorExpressionView,
) -> ConstructorExpressionView
    decreases c,
{
    ConstructorExpressionView {
        type_path: erase_path(c.type_path),
        fields: erase_ident_expressions(c.fields),
    }
}

pub open spec fn erase_ident_expressions(s: Seq<(IdentView, ExpressionView)>) -> Seq<
    (IdentView, ExpressionView),
>
    decreases s,
{
    if s.len() == 0 {
        Seq::empty()
    } else {
        erase_ident_expressions(s.subrange(0, s.len() - 1)).push(
            (erase_ident(s[s.len() - 1].0), erase_expression(s[s.len() - 1].1)),
        )
    }
}

pub open spec fn erase_member_access_expression(
    m: MemberAccessExpressionView,
) -> MemberAccessExpressionView
    decreases m,
{
    MemberAccessExpressionView { lhs: erase_expression(m.lhs), rhs: erase_ident(m.rhs) }
}

pub open spec fn erase_cast_expression(c: CastExpressionView) -> CastExpressionView
    decreases c,
{
    CastExpressionView { lhs: erase_expression(c.lhs), typ: erase_unresolved_type(c.typ) }
}

pub open spec fn erase_infix_expression(i: InfixExpressionView) -> InfixExpressionView
    decreases i,
{
    InfixExpressionView {
        lhs: erase_expression(i.lhs),
        operator: i.operator,
        rhs: erase_expression(i.rhs),
    }
}

pub open spec fn erase_if_expression(i: IfExpressionView) -> IfExpressionView
    decreases i,
{
    IfExpressionView {
        condition: erase_expression(i.condition),
        consequence: erase_expression(i.consequence),
        alternative: match i.alternative {
            Option::Some(e) => Option::Some(erase_expression(e)),
            Option::None => Option::None,
        },
    }
}

pub open spec fn erase_lambda(l: LambdaView) -> LambdaView
    decreases l,
{
    LambdaView {
        parameters: erase_pattern_types(l.parameters),
        return_type: erase_unresolved_type(l.return_type),
        body: erase_expression(l.body),
    }
}

pub open spec fn erase_pattern_types(s: Seq<(PatternView, UnresolvedTypeView)>) -> Seq<
    (PatternView, UnresolvedTypeView),
>
    decreases s,
{
    if s.len() == 0 {
        Seq::empty()
    } else {
        erase_pattern_types(s.subrange(0, s.len() - 1)).push(
            (erase_pattern(s[s.len() - 1].0), erase_unresolved_type(s[s.len() - 1].1)),
        )
    }
}

pub open spec fn erase_unresolved_types(s: Seq<UnresolvedTypeView>) -> Seq<UnresolvedTypeView>
    decreases s,
{
    if s.len() == 0 {
        Seq::empty()
    } else {
        erase_unresolved_types(s.subrange(0, s.len() - 1)).push(
            erase_unresolved_type(s[s.len() - 1]),
        )
    }
}

pub open spec fn erase_unresolved_type(t: UnresolvedTypeView) -> UnresolvedTypeView
    decreases t,
{
    UnresolvedTypeView { typ: erase_unresolved_type_data(t.typ), span: span_empty() }
}

pub open spec fn erase_unresolved_type_data(d: UnresolvedTypeDataView) -> UnresolvedTypeDataView
    decreases d,
{
    match d {
        UnresolvedTypeDataView::Array(size, elem) => UnresolvedTypeDataView::Array(
            erase_unresolved_type_expression(size),
            Box::new(erase_unresolved_type(*elem)),
        ),
        UnresolvedTypeDataView::Slice(elem) => UnresolvedTypeDataView::Slice(
            Box::new(erase_unresolved_type(*elem)),
        ),
        UnresolvedTypeDataView::Expression(e) => UnresolvedTypeDataView::Expression(
            erase_unresolved_type_expression(e),
        ),
        UnresolvedTypeDataView::FormatString(size, elem) => UnresolvedTypeDataView::FormatString(
            erase_unresolved_type_expression(size),
            Box::new(erase_unresolved_type(*elem)),
        ),
        UnresolvedTypeDataView::Parenthesized(inner) => UnresolvedTypeDataView::Parenthesized(
            Box::new(erase_unresolved_type(*inner)),
        ),
        UnresolvedTypeDataView::Named(path, args, wildcard) => UnresolvedTypeDataView::Named(
            erase_path(path),
            erase_unresolved_types(args),
            wildcard,
        ),
        UnresolvedTypeDataView::TraitAsType(path, args) => UnresolvedTypeDataView::TraitAsType(
            erase_path(path),
            erase_unresolved_types(args),
        ),
        UnresolvedTypeDataView::MutableReference(inner) => (
            UnresolvedTypeDataView::MutableReference(Box::new(erase_unresolved_type(*inner)))
        ),
        UnresolvedTypeDataView::Tuple(elems) => UnresolvedTypeDataView::Tuple(
            erase_unresolved_types(elems),
        ),
        UnresolvedTypeDataView::Function(args, ret, env) => UnresolvedTypeDataView::Function(
            erase_unresolved_types(args),
            Box::new(erase_unresolved_type(*ret)),
            env,
        ),
        UnresolvedTypeDataView::FieldElement => UnresolvedTypeDataView::FieldElement,
        UnresolvedTypeDataView::Integer(sign, bits) => UnresolvedTypeDataView::Integer(sign, bits),
        UnresolvedTypeDataView::Bool => UnresolvedTypeDataView::Bool,
        UnresolvedTypeDataView::String(len) => UnresolvedTypeDataView::String(len),
        UnresolvedTypeDataView::Unit => UnresolvedTypeDataView::Unit,
        UnresolvedTypeDataView::Quoted(q) => UnresolvedTypeDataView::Quoted(q),
        UnresolvedTypeDataView::Resolved(id) => UnresolvedTypeDataView::Resolved(id),
        UnresolvedTypeDataView::Unspecified => UnresolvedTypeDataView::Unspecified,
        UnresolvedTypeDataView::Error => UnresolvedTypeDataView::Error,
    }
}

pub open spec fn erase_unresolved_type_expression(
    e: UnresolvedTypeExpressionView,
) -> UnresolvedTypeExpressionView
    decreases e,
{
    match e {
        UnresolvedTypeExpressionView::Variable(p) => UnresolvedTypeExpressionView::Variable(
            erase_path(p),
        ),
        UnresolvedTypeExpressionView::BinaryOperation(lhs, op, rhs, span) => (
            UnresolvedTypeExpressionView::BinaryOperation(
                Box::new(erase_unresolved_type_expression(*lhs)),
                op,
                Box::new(erase_unresolved_type_expression(*rhs)),
                span,
            )
        ),
        UnresolvedTypeExpressionView::Constant(v, span) => UnresolvedTypeExpressionView::Constant(
            v,
            span,
        ),
    }
}

pub open spec fn erase_generics(s: Seq<UnresolvedGenericView>) -> Seq<UnresolvedGenericView>
    decreases s,
{
    if s.len() == 0 {
        Seq::empty()
    } else {
        erase_generics(s.subrange(0, s.len() - 1)).push(erase_unresolved_generic(s[s.len() - 1]))
    }
}

pub open spec fn erase_unresolved_generic(g: UnresolvedGenericView) -> UnresolvedGenericView
    decreases g,
{
    match g {
        UnresolvedGenericView::Variable(i) => UnresolvedGenericView::Variable(erase_ident(i)),
        UnresolvedGenericView::Numeric { ident, typ } => (
            UnresolvedGenericView::Numeric {
                ident: erase_ident(ident),
                typ: erase_unresolved_type(typ),
            }
        ),
    }
}

pub open spec fn erase_constraints(s: Seq<UnresolvedTraitConstraintView>) -> Seq<
    UnresolvedTraitConstraintView,
>
    decreases s,
{
    if s.len() == 0 {
        Seq::empty()
    } else {
        erase_constraints(s.subrange(0, s.len() - 1)).push(
            erase_unresolved_trait_constraint(s[s.len() - 1]),
        )
    }
}

pub open spec fn erase_unresolved_trait_constraint(
    c: UnresolvedTraitConstraintView,
) -> UnresolvedTraitConstraintView
    decreases c,
{
    UnresolvedTraitConstraintView { typ: erase_unresolved_type(c.typ) }
}

pub open spec fn erase_function_return_type(r: FunctionReturnTypeView) -> FunctionReturnTypeView
    decreases r,
{
    match r {
        FunctionReturnTypeView::Default(span) => FunctionReturnTypeView::Default(span),
        FunctionReturnTypeView::Ty(t) => FunctionReturnTypeView::Ty(erase_unresolved_type(t)),
    }
}

pub open spec fn erase_patterns(s: Seq<PatternView>) -> Seq<PatternView>
    decreases s,
{
    if s.len() == 0 {
        Seq::empty()
    } else {
        erase_patterns(s.subrange(0, s.len() - 1)).push(erase_pattern(s[s.len() - 1]))
    }
}

pub open spec fn erase_ident_patterns(s: Seq<(IdentView, PatternView)>) -> Seq<
    (IdentView, PatternView),
>
    decreases s,
{
    if s.len() == 0 {
        Seq::empty()
    } else {
        erase_ident_patterns(s.subrange(0, s.len() - 1)).push(
            (erase_ident(s[s.len() - 1].0), erase_pattern(s[s.len() - 1].1)),
        )
    }
}

pub open spec fn erase_ident_types(s: Seq<(IdentView, UnresolvedTypeView)>) -> Seq<
    (IdentView, UnresolvedTypeView),
>
    decreases s,
{
    if s.len() == 0 {
        Seq::empty()
    } else {
        erase_ident_types(s.subrange(0, s.len() - 1)).push(
            (erase_ident(s[s.len() - 1].0), erase_unresolved_type(s[s.len() - 1].1)),
        )
    }
}

pub open spec fn erase_pattern(p: PatternView) -> PatternView
    decreases p,
{
    match p {
        PatternView::Identifier(i) => PatternView::Identifier(erase_ident(i)),
        PatternView::Mutable(inner, span, is_synthesized) => PatternView::Mutable(
            Box::new(erase_pattern(*inner)),
            span,
            is_synthesized,
        ),
        PatternView::Tuple(elems, span) => PatternView::Tuple(erase_patterns(elems), span),
        PatternView::Struct(path, fields, span) => PatternView::Struct(
            erase_path(path),
            erase_ident_patterns(fields),
            span,
        ),
    }
}

pub proof fn lemma_erase_path_segments(s: Seq<PathSegmentView>)
    ensures
        erase_path_segments(s).len() == s.len(),
        forall|i: int| 0 <= i < s.len() ==> erase_path_segments(s)[i] == erase_path_segment(s[i]),
    decreases s,
{
    if s.len() > 0 {
        lemma_erase_path_segments(s.subrange(0, s.len() - 1));
    }
}

pub proof fn lemma_erase_items(s: Seq<ItemView>)
    ensures
        erase_items(s).len() == s.len(),
        forall|i: int| 0 <= i < s.len() ==> erase_items(s)[i] == erase_item(s[i]),
    decreases s,
{
    if s.len() > 0 {
        lemma_erase_items(s.subrange(0, s.len() - 1));
    }
}

pub proof fn lemma_erase_params(s: Seq<ParamView>)
    ensures
        erase_params(s).len() == s.len(),
        forall|i: int| 0 <= i < s.len() ==> erase_params(s)[i] == erase_param(s[i]),
    decreases s,
{
    if s.len() > 0 {
        lemma_erase_params(s.subrange(0, s.len() - 1));
    }
}

pub proof fn lemma_erase_trait_items(s: Seq<TraitItemView>)
    ensures
        erase_trait_items(s).len() == s.len(),
        forall|i: int| 0 <= i < s.len() ==> erase_trait_items(s)[i] == erase_trait_item(s[i]),
    decreases s,
{
    if s.len() > 0 {
        lemma_erase_trait_items(s.subrange(0, s.len() - 1));
    }
}

pub proof fn lemma_erase_trait_impl_items(s: Seq<TraitImplItemView>)
    ensures
        erase_trait_impl_items(s).len() == s.len(),
        forall|i: int| 0 <= i < s.len() ==> erase_trait_impl_items(s)[i] == erase_trait_impl_item(
            s[i],
        ),
    decreases s,
{
    if s.len() > 0 {
        lemma_erase_trait_impl_items(s.subrange(0, s.len() - 1));
    }
}

pub proof fn lemma_erase_methods(s: Seq<(NoirFunctionView, Span)>)
    ensures
        erase_methods(s).len() == s.len(),
        forall|i: int| 0 <= i < s.len() ==> erase_methods(s)[i] == (
            (erase_noir_function(s[i].0), s[i].1)
        ),
    decreases s,
{
    if s.len() > 0 {
        lemma_erase_methods(s.subrange(0, s.len() - 1));
    }
}

pub proof fn lemma_erase_use_trees(s: Seq<UseTreeView>)
    ensures
        erase_use_trees(s).len() == s.len(),
        forall|i: int| 0 <= i < s.len() ==> erase_use_trees(s)[i] == erase_use_tree(s[i]),
    decreases s,
{
    if s.len() > 0 {
        lemma_erase_use_trees(s.subrange(0, s.len() - 1));
    }
}

pub proof fn lemma_erase_statements(s: Seq<StatementView>)
    ensures
        erase_statements(s).len() == s.len(),
        forall|i: int| 0 <= i < s.len() ==> erase_statements(s)[i] == erase_statement(s[i]),
    decreases s,
{
    if s.len() > 0 {
        lemma_erase_statements(s.subrange(0, s.len() - 1));
    }
}

pub proof fn lemma_erase_expressions(s: Seq<ExpressionView>)
    ensures
        erase_expressions(s).len() == s.len(),
        forall|i: int| 0 <= i < s.len() ==> erase_expressions(s)[i] == erase_expression(s[i]),
    decreases s,
{
    if s.len() > 0 {
        lemma_erase_expressions(s.subrange(0, s.len() - 1));
    }
}

pub proof fn lemma_erase_ident_expressions(s: Seq<(IdentView, ExpressionView)>)
    ensures
        erase_ident_expressions(s).len() == s.len(),
        forall|i: int| 0 <= i < s.len() ==> erase_ident_expressions(s)[i] == (
            (erase_ident(s[i].0), erase_expression(s[i].1))
        ),
    decreases s,
{
    if s.len() > 0 {
        lemma_erase_ident_expressions(s.subrange(0, s.len() - 1));
    }
}

pub proof fn lemma_erase_pattern_types(s: Seq<(PatternView, UnresolvedTypeView)>)
    ensures
        erase_pattern_types(s).len() == s.len(),
        forall|i: int| 0 <= i < s.len() ==> erase_pattern_types(s)[i] == (
            (erase_pattern(s[i].0), erase_unresolved_type(s[i].1))
        ),
    decreases s,
{
    if s.len() > 0 {
        lemma_erase_pattern_types(s.subrange(0, s.len() - 1));
    }
}

pub proof fn lemma_erase_unresolved_types(s: Seq<UnresolvedTypeView>)
    ensures
        erase_unresolved_types(s).len() == s.len(),
        forall|i: int| 0 <= i < s.len() ==> erase_unresolved_types(s)[i] == erase_unresolved_type(
            s[i],
        ),
    decreases s,
{
    if s.len() > 0 {
        lemma_erase_unresolved_types(s.subrange(0, s.len() - 1));
    }
}

pub proof fn lemma_erase_generics(s: Seq<UnresolvedGenericView>)
    ensures
        erase_generics(s).len() == s.len(),
        forall|i: int| 0 <= i < s.len() ==> erase_generics(s)[i] == erase_unresolved_generic(s[i]),
    decreases s,
{
    if s.len() > 0 {
        lemma_erase_generics(s.subrange(0, s.len() - 1));
    }
}

pub proof fn lemma_erase_constraints(s: Seq<UnresolvedTraitConstraintView>)
    ensures
        erase_constraints(s).len() == s.len(),
        forall|i: int| 0 <= i < s.len() ==> erase_constraints(s)[i]
            == erase_unresolved_trait_constraint(s[i]),
    decreases s,
{
    if s.len() > 0 {
        lemma_erase_constraints(s.subrange(0, s.len() - 1));
    }
}

pub proof fn lemma_erase_patterns(s: Seq<PatternView>)
    ensures
        erase_patterns(s).len() == s.len(),
        forall|i: int| 0 <= i < s.len() ==> erase_patterns(s)[i] == erase_pattern(s[i]),
    decreases s,
{
    if s.len() > 0 {
        lemma_erase_patterns(s.subrange(0, s.len() - 1));
    }
}

pub proof fn lemma_erase_ident_patterns(s: Seq<(IdentView, PatternView)>)
    ensures
        erase_ident_patterns(s).len() == s.len(),
        forall|i: int| 0 <= i < s.len() ==> erase_ident_patterns(s)[i] == (
            (erase_ident(s[i].0), erase_pattern(s[i].1))
        ),
    decreases s,
{
    if s.len() > 0 {
        lemma_erase_ident_patterns(s.subrange(0, s.len() - 1));
    }
}

pub proof fn lemma_erase_ident_types(s: Seq<(IdentView, UnresolvedTypeView)>)
    ensures
        erase_ident_types(s).len() == s.len(),
        forall|i: int| 0 <= i < s.len() ==> erase_ident_types(s)[i] == (
            (erase_ident(s[i].0), erase_unresolved_type(s[i].1))
        ),
    decreases s,
{
    if s.len() > 0 {
        lemma_erase_ident_types(s.subrange(0, s.len() - 1));
    }
}

} // verus!
