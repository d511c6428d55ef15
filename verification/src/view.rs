//! The abstraction functions mapping each concrete tree node to its model.

use vstd::prelude::*;
use crate::ast::{Span, Ident, PathSegment, Path, ParsedModule, Item, ItemKind, NoirFunction, Param,
    NoirTrait, TraitItem, NoirTraitImpl, TraitImplItem, TypeImpl, ParsedSubModule,
    ModuleDeclaration, UseTree, UseTreeKind, NoirStruct, NoirTypeAlias, LetStatement,
    BlockExpression, Statement, StatementKind, ConstrainStatement, AssignStatement, LValue,
    ForLoopStatement, ForRange, Expression, ExpressionKind, Literal, ArrayLiteral,
    PrefixExpression, IndexExpression, CallExpression, MethodCallExpression, ConstructorExpression,
    MemberAccessExpression, CastExpression, InfixExpression, IfExpression, Lambda, UnresolvedType,
    UnresolvedTypeData, UnresolvedTypeExpression, UnresolvedGeneric, UnresolvedTraitConstraint,
    FunctionReturnType, Pattern};
use crate::model::{IdentView, PathSegmentView, PathView, ParsedModuleView, ItemView, ItemKindView,
    NoirFunctionView, ParamView, NoirTraitView, TraitItemView, NoirTraitImplView,
    TraitImplItemView, TypeImplView, ParsedSubModuleView, ModuleDeclarationView, UseTreeView,
    UseTreeKindView, NoirStructView, NoirTypeAliasView, LetStatementView, BlockExpressionView,
    StatementView, StatementKindView, ConstrainStatementView, AssignStatementView, LValueView,
    ForLoopStatementView, ForRangeView, ExpressionView, ExpressionKindView, LiteralView,
    ArrayLiteralView, PrefixExpressionView, IndexExpressionView, CallExpressionView,
    MethodCallExpressionView, ConstructorExpressionView, MemberAccessExpressionView,
    CastExpressionView, InfixExpressionView, IfExpressionView, LambdaView, UnresolvedTypeView,
    UnresolvedTypeDataView, UnresolvedTypeExpressionView, UnresolvedGenericView,
    UnresolvedTraitConstraintView, FunctionReturnTypeView, PatternView};

verus! {

pub open spec fn view_ident(i: Ident) -> IdentView {
    IdentView { text: i.text, span: i.span }
}

pub open spec fn view_path_segment(s: PathSegment) -> PathSegmentView {
    PathSegmentView { ident: view_ident(s.ident), span: s.span }
}

pub open spec fn view_path_segments(s: Seq<PathSegment>) -> Seq<PathSegmentView>
    decreases s,
{
    if s.len() == 0 {
        Seq::empty()
    } else {
        view_path_segments(s.subrange(0, s.len() - 1)).push(view_path_segment(s[s.len() - 1]))
    }
}

pub open spec fn view_path(p: Path) -> PathView
    decreases p,
{
    PathView { segments: view_path_segments(p.segments@), span: p.span }
}

pub open spec fn view_parsed_module(m: ParsedModule) -> ParsedModuleView
    decreases m,
{
    ParsedModuleView { items: view_items(m.items@) }
}

pub open spec fn view_items(s: Seq<Item>) -> Seq<ItemView>
    decreases s,
{
    if s.len() == 0 {
        Seq::empty()
    } else {
        view_items(s.subrange(0, s.len() - 1)).push(view_item(s[s.len() - 1]))
    }
}

pub open spec fn view_item(i: Item) -> ItemView
    decreases i,
{
    ItemView { kind: view_item_kind(i.kind), span: i.span }
}

pub open spec fn view_item_kind(k: ItemKind) -> ItemKindView
    decreases k,
{
    match k {
        ItemKind::Function(f) => ItemKindView::Function(view_noir_function(f)),
        ItemKind::Trait(t) => ItemKindView::Trait(view_noir_trait(t)),
        ItemKind::TraitImpl(t) => ItemKindView::TraitImpl(view_noir_trait_impl(t)),
        ItemKind::Impl(t) => ItemKindView::Impl(view_type_impl(t)),
        ItemKind::Global(g) => ItemKindView::Global(view_let_statement(g)),
        ItemKind::Submodules(s) => ItemKindView::Submodules(view_parsed_sub_module(s)),
        ItemKind::ModuleDecl(m) => ItemKindView::ModuleDecl(view_module_declaration(m)),
        ItemKind::Import(u) => ItemKindView::Import(view_use_tree(u)),
        ItemKind::Struct(s) => ItemKindView::Struct(view_noir_struct(s)),
        ItemKind::TypeAlias(a) => ItemKindView::TypeAlias(view_noir_type_alias(a)),
    }
}

pub open spec fn view_noir_function(f: NoirFunction) -> NoirFunctionView
    decreases f,
{
    NoirFunctionView {
        name: view_ident(f.name),
        generics: view_generics(f.generics@),
        parameters: view_params(f.parameters@),
        where_clause: view_constraints(f.where_clause@),
        return_type: view_function_return_type(f.return_type),
        body: view_block_expression(f.body),
        span: f.span,
    }
}

pub open spec fn view_param(p: Param) -> ParamView
    decreases p,
{
    ParamView { pattern: view_pattern(p.pattern), typ: view_unresolved_type(p.typ), span: p.span }
}

pub open spec fn view_params(s: Seq<Param>) -> Seq<ParamView>
    decreases s,
{
    if s.len() == 0 {
        Seq::empty()
    } else {
        view_params(s.subrange(0, s.len() - 1)).push(view_param(s[s.len() - 1]))
    }
}

pub open spec fn view_noir_trait(t: NoirTrait) -> NoirTraitView
    decreases t,
{
    NoirTraitView {
        name: view_ident(t.name),
        generics: view_generics(t.generics@),
        where_clause: view_constraints(t.where_clause@),
        items: view_trait_items(t.items@),
        span: t.span,
    }
}

pub open spec fn view_trait_items(s: Seq<TraitItem>) -> Seq<TraitItemView>
    decreases s,
{
    if s.len() == 0 {
        Seq::empty()
    } else {
        view_trait_items(s.subrange(0, s.len() - 1)).push(view_trait_item(s[s.len() - 1]))
    }
}

pub open spec fn view_trait_item(t: TraitItem) -> TraitItemView
    decreases t,
{
    match t {
        TraitItem::Function { name, generics, parameters, return_type, where_clause, body } => (
            TraitItemView::Function {
                name: view_ident(name),
                generics: view_generics(generics@),
                parameters: view_ident_types(parameters@),
                return_type: view_function_return_type(return_type),
                where_clause: view_constraints(where_clause@),
                body: match body {
                    Option::Some(b) => Option::Some(view_block_expression(b)),
                    Option::None => Option::None,
                },
            }
        ),
        TraitItem::Constant { name, typ, default_value } => (
            TraitItemView::Constant {
                name: view_ident(name),
                typ: view_unresolved_type(typ),
                default_value: match default_value {
                    Option::Some(e) => Option::Some(view_expression(e)),
                    Option::None => Option::None,
                },
            }
        ),
        TraitItem::Type { name } => (TraitItemView::Type { name: view_ident(name) }),
    }
}

pub open spec fn view_noir_trait_impl(t: NoirTraitImpl) -> NoirTraitImplView
    decreases t,
{
    NoirTraitImplView {
        trait_name: view_path(t.trait_name),
        impl_generics: view_generics(t.impl_generics@),
        object_type: view_unresolved_type(t.object_type),
        where_clause: view_constraints(t.where_clause@),
        items: view_trait_impl_items(t.items@),
    }
}

pub open spec fn view_trait_impl_items(s: Seq<TraitImplItem>) -> Seq<TraitImplItemView>
    decreases s,
{
    if s.len() == 0 {
        Seq::empty()
    } else {
        view_trait_impl_items(s.subrange(0, s.len() - 1)).push(
            view_trait_impl_item(s[s.len() - 1]),
        )
    }
}

pub open spec fn view_trait_impl_item(t: TraitImplItem) -> TraitImplItemView
    decreases t,
{
    match t {
        TraitImplItem::Function(f) => TraitImplItemView::Function(view_noir_function(f)),
        TraitImplItem::Constant(name, typ, default_value) => TraitImplItemView::Constant(
            view_ident(name),
            view_unresolved_type(typ),
            view_expression(default_value),
        ),
        TraitImplItem::Type { name, alias } => (
            TraitImplItemView::Type { name: view_ident(name), alias: view_unresolved_type(alias) }
        ),
    }
}

pub open spec fn view_type_impl(t: TypeImpl) -> TypeImplView
    decreases t,
{
    TypeImplView {
        object_type: view_unresolved_type(t.object_type),
        type_span: t.type_span,
        generics: view_generics(t.generics@),
        where_clause: view_constraints(t.where_clause@),
        methods: view_methods(t.methods@),
    }
}

pub open spec fn view_methods(s: Seq<(NoirFunction, Span)>) -> Seq<(NoirFunctionView, Span)>
    decreases s,
{
    if s.len() == 0 {
        Seq::empty()
    } else {
        view_methods(s.subrange(0, s.len() - 1)).push(
            (view_noir_function(s[s.len() - 1].0), s[s.len() - 1].1),
        )
    }
}

pub open spec fn view_parsed_sub_module(s: ParsedSubModule) -> ParsedSubModuleView
    decreases s,
{
    ParsedSubModuleView { name: view_ident(s.name), contents: view_parsed_module(s.contents) }
}

pub open spec fn view_module_declaration(m: ModuleDeclaration) -> ModuleDeclarationView {
    ModuleDeclarationView { ident: view_ident(m.ident) }
}

pub open spec fn view_use_tree(u: UseTree) -> UseTreeView
    decreases u,
{
    UseTreeView { prefix: view_path(u.prefix), kind: view_use_tree_kind(u.kind) }
}

pub open spec fn view_use_tree_kind(k: UseTreeKind) -> UseTreeKindView
    decreases k,
{
    match k {
        UseTreeKind::Path(name, alias) => UseTreeKindView::Path(
            view_ident(name),
            match alias {
                Option::Some(a) => Option::Some(view_ident(a)),
                Option::None => Option::None,
            },
        ),
        UseTreeKind::List(trees) => UseTreeKindView::List(view_use_trees(trees@)),
    }
}

pub open spec fn view_use_trees(s: Seq<UseTree>) -> Seq<UseTreeView>
    decreases s,
{
    if s.len() == 0 {
        Seq::empty()
    } else {
        view_use_trees(s.subrange(0, s.len() - 1)).push(view_use_tree(s[s.len() - 1]))
    }
}

pub open spec fn view_noir_struct(s: NoirStruct) -> NoirStructView
    decreases s,
{
    NoirStructView {
        name: view_ident(s.name),
        fields: view_ident_types(s.fields@),
        generics: view_generics(s.generics@),
        span: s.span,
    }
}

pub open spec fn view_noir_type_alias(a: NoirTypeAlias) -> NoirTypeAliasView
    decreases a,
{
    NoirTypeAliasView { name: view_ident(a.name), typ: view_unresolved_type(a.typ), span: a.span }
}

pub open spec fn view_let_statement(l: LetStatement) -> LetStatementView
    decreases l,
{
    LetStatementView {
        pattern: view_pattern(l.pattern),
        typ: view_unresolved_type(l.typ),
        expression: view_expression(l.expression),
    }
}

pub open spec fn view_block_expression(b: BlockExpression) -> BlockExpressionView
    decreases b,
{
    BlockExpressionView { statements: view_statements(b.statements@) }
}

pub open spec fn view_statements(s: Seq<Statement>) -> Seq<StatementView>
    decreases s,
{
    if s.len() == 0 {
        Seq::empty()
    } else {
        view_statements(s.subrange(0, s.len() - 1)).push(view_statement(s[s.len() - 1]))
    }
}

pub open spec fn view_statement(s: Statement) -> StatementView
    decreases s,
{
    StatementView { kind: view_statement_kind(s.kind), span: s.span }
}

pub open spec fn view_statement_kind(k: StatementKind) -> StatementKindView
    decreases k,
{
    match k {
        StatementKind::Let(l) => StatementKindView::Let(view_let_statement(l)),
        StatementKind::Constrain(c) => StatementKindView::Constrain(view_constrain_statement(c)),
        StatementKind::Expression(e) => StatementKindView::Expression(view_expression(e)),
        StatementKind::Assign(a) => StatementKindView::Assign(view_assign_statement(a)),
        StatementKind::For(f) => StatementKindView::For(view_for_loop_statement(f)),
        StatementKind::Comptime(s) => StatementKindView::Comptime(Box::new(view_statement(*s))),
        StatementKind::Semi(e) => StatementKindView::Semi(view_expression(e)),
        StatementKind::Break => StatementKindView::Break,
        StatementKind::Continue => StatementKindView::Continue,
        StatementKind::Error => StatementKindView::Error,
    }
}

pub open spec fn view_constrain_statement(c: ConstrainStatement) -> ConstrainStatementView
    decreases c,
{
    ConstrainStatementView(
        view_expression(c.0),
        match c.1 {
            Option::Some(e) => Option::Some(view_expression(e)),
            Option::None => Option::None,
        },
    )
}

pub open spec fn view_assign_statement(a: AssignStatement) -> AssignStatementView
    decreases a,
{
    AssignStatementView { lvalue: view_lvalue(a.lvalue), expression: view_expression(a.expression) }
}

pub open spec fn view_lvalue(l: LValue) -> LValueView
    decreases l,
{
    match l {
        LValue::Ident(i) => LValueView::Ident(view_ident(i)),
        LValue::MemberAccess { object, field_name, span } => (
            LValueView::MemberAccess {
                object: Box::new(view_lvalue(*object)),
                field_name: view_ident(field_name),
                span,
            }
        ),
        LValue::Index { array, index, span } => (
            LValueView::Index {
                array: Box::new(view_lvalue(*array)),
                index: view_expression(index),
                span,
            }
        ),
        LValue::Dereference(inner, span) => LValueView::Dereference(
            Box::new(view_lvalue(*inner)),
            span,
        ),
    }
}

pub open spec fn view_for_loop_statement(f: ForLoopStatement) -> ForLoopStatementView
    decreases f,
{
    ForLoopStatementView {
        identifier: view_ident(f.identifier),
        range: view_for_range(f.range),
        block: view_expression(f.block),
        span: f.span,
    }
}

pub open spec fn view_for_range(r: ForRange) -> ForRangeView
    decreases r,
{
    match r {
        ForRange::Range(from, to) => ForRangeView::Range(view_expression(from), view_expression(to)),
        ForRange::Array(e) => ForRangeView::Array(view_expression(e)),
    }
}

pub open spec fn view_expressions(s: Seq<Expression>) -> Seq<ExpressionView>
    decreases s,
{
    if s.len() == 0 {
        Seq::empty()
    } else {
        view_expressions(s.subrange(0, s.len() - 1)).push(view_expression(s[s.len() - 1]))
    }
}

pub open spec fn view_expression(e: Expression) -> ExpressionView
    decreases e,
{
    ExpressionView { kind: view_expression_kind(e.kind), span: e.span }
}

pub open spec fn view_expression_kind(k: ExpressionKind) -> ExpressionKindView
    decreases k,
{
    match k {
        ExpressionKind::Literal(l) => ExpressionKindView::Literal(view_literal(l)),
        ExpressionKind::Block(b) => ExpressionKindView::Block(view_block_expression(b)),
        ExpressionKind::Prefix(p) => ExpressionKindView::Prefix(
            Box::new(view_prefix_expression(*p)),
        ),
        ExpressionKind::Index(i) => ExpressionKindView::Index(Box::new(view_index_expression(*i))),
        ExpressionKind::Call(c) => ExpressionKindView::Call(Box::new(view_call_expression(*c))),
        ExpressionKind::MethodCall(m) => ExpressionKindView::MethodCall(
            Box::new(view_method_call_expression(*m)),
        ),
        ExpressionKind::Constructor(c) => ExpressionKindView::Constructor(
            Box::new(view_constructor_expression(*c)),
        ),
        ExpressionKind::MemberAccess(m) => ExpressionKindView::MemberAccess(
            Box::new(view_member_access_expression(*m)),
        ),
        ExpressionKind::Cast(c) => ExpressionKindView::Cast(Box::new(view_cast_expression(*c))),
        ExpressionKind::Infix(i) => ExpressionKindView::Infix(Box::new(view_infix_expression(*i))),
        ExpressionKind::If(i) => ExpressionKindView::If(Box::new(view_if_expression(*i))),
        ExpressionKind::Variable(p) => ExpressionKindView::Variable(view_path(p)),
        ExpressionKind::Tuple(es) => ExpressionKindView::Tuple(view_expressions(es@)),
        ExpressionKind::Lambda(l) => ExpressionKindView::Lambda(Box::new(view_lambda(*l))),
        ExpressionKind::Parenthesized(e) => ExpressionKindView::Parenthesized(
            Box::new(view_expression(*e)),
        ),
        ExpressionKind::Quote(tokens) => ExpressionKindView::Quote(tokens),
        ExpressionKind::Unquote(e) => ExpressionKindView::Unquote(Box::new(view_expression(*e))),
        ExpressionKind::Comptime(b, span) => ExpressionKindView::Comptime(
            view_block_expression(b),
            span,
        ),
        ExpressionKind::Resolved(id) => ExpressionKindView::Resolved(id),
        ExpressionKind::Error => ExpressionKindView::Error,
    }
}

pub open spec fn view_literal(l: Literal) -> LiteralView
    decreases l,
{
    match l {
        Literal::Array(a) => LiteralView::Array(view_array_literal(a)),
        Literal::Slice(a) => LiteralView::Slice(view_array_literal(a)),
        Literal::Bool(b) => LiteralView::Bool(b),
        Literal::Integer(v, sign) => LiteralView::Integer(v, sign),
        Literal::Str(s) => LiteralView::Str(s),
        Literal::RawStr(s, h) => LiteralView::RawStr(s, h),
        Literal::FmtStr(s) => LiteralView::FmtStr(s),
        Literal::Unit => LiteralView::Unit,
    }
}

pub open spec fn view_array_literal(a: ArrayLiteral) -> ArrayLiteralView
    decreases a,
{
    match a {
        ArrayLiteral::Standard(es) => ArrayLiteralView::Standard(view_expressions(es@)),
        ArrayLiteral::Repeated { repeated_element, length } => (
            ArrayLiteralView::Repeated {
                repeated_element: Box::new(view_expression(*repeated_element)),
                length: Box::new(view_expression(*length)),
            }
        ),
    }
}

pub open spec fn view_prefix_expression(p: PrefixExpression) -> PrefixExpressionView
    decreases p,
{
    PrefixExpressionView { operator: p.operator, rhs: view_expression(p.rhs) }
}

pub open spec fn view_index_expression(i: IndexExpression) -> IndexExpressionView
    decreases i,
{
    IndexExpressionView {
        collection: view_expression(i.collection),
        index: view_expression(i.index),
    }
}

pub open spec fn view_call_expression(c: CallExpression) -> CallExpressionView
    decreases c,
{
    CallExpressionView { func: view_expression(c.func), arguments: view_expressions(c.arguments@) }
}

pub open spec fn view_method_call_expression(m: MethodCallExpression) -> MethodCallExpressionView
    decreases m,
{
    MethodCallExpressionView {
        object: view_expression(m.object),
        method_name: view_ident(m.method_name),
        generics: match m.generics {
            Option::Some(ts) => Option::Some(view_unresolved_types(ts@)),
            Option::None => Option::None,
        },
        arguments: view_expressions(m.arguments@),
    }
}

pub open spec fn view_constructor_expression(c: ConstructorExpression) -> ConstructorExpressionView
    decreases c,
{
    ConstructorExpressionView {
        type_path: view_path(c.type_path),
        fields: view_ident_expressions(c.fields@),
    }
}

pub open spec fn view_ident_expressions(s: Seq<(Ident, Expression)>) -> Seq<
    (IdentView, ExpressionView),
>
    decreases s,
{
    if s.len() == 0 {
        Seq::empty()
    } else {
        view_ident_expressions(s.subrange(0, s.len() - 1)).push(
            (view_ident(s[s.len() - 1].0), view_expression(s[s.len() - 1].1)),
        )
    }
}

pub open spec fn view_member_access_expression(
    m: MemberAccessExpression,
) -> MemberAccessExpressionView
    decreases m,
{
    MemberAccessExpressionView { lhs: view_expression(m.lhs), rhs: view_ident(m.rhs) }
}

pub open spec fn view_cast_expression(c: CastExpression) -> CastExpressionView
    decreases c,
{
    CastExpressionView { lhs: view_expression(c.lhs), typ: view_unresolved_type(c.typ) }
}

pub open spec fn view_infix_expression(i: InfixExpression) -> InfixExpressionView
    decreases i,
{
    InfixExpressionView {
        lhs: view_expression(i.lhs),
        operator: i.operator,
        rhs: view_expression(i.rhs),
    }
}

pub open spec fn view_if_expression(i: IfExpression) -> IfExpressionView
    decreases i,
{
    IfExpressionView {
        condition: view_expression(i.condition),
        consequence: view_expression(i.consequence),
        alternative: match i.alternative {
            Option::Some(e) => Option::Some(view_expression(e)),
            Option::None => Option::None,
        },
    }
}

pub open spec fn view_lambda(l: Lambda) -> LambdaView
    decreases l,
{
    LambdaView {
        parameters: view_pattern_types(l.parameters@),
        return_type: view_unresolved_type(l.return_type),
        body: view_expression(l.body),
    }
}

pub open spec fn view_pattern_types(s: Seq<(Pattern, UnresolvedType)>) -> Seq<
    (PatternView, UnresolvedTypeView),
>
    decreases s,
{
    if s.len() == 0 {
        Seq::empty()
    } else {
        view_pattern_types(s.subrange(0, s.len() - 1)).push(
            (view_pattern(s[s.len() - 1].0), view_unresolved_type(s[s.len() - 1].1)),
        )
    }
}

pub open spec fn view_unresolved_types(s: Seq<UnresolvedType>) -> Seq<UnresolvedTypeView>
    decreases s,
{
    if s.len() == 0 {
        Seq::empty()
    } else {
        view_unresolved_types(s.subrange(0, s.len() - 1)).push(
            view_unresolved_type(s[s.len() - 1]),
        )
    }
}

pub open spec fn view_unresolved_type(t: UnresolvedType) -> UnresolvedTypeView
    decreases t,
{
    UnresolvedTypeView { typ: view_unresolved_type_data(t.typ), span: t.span }
}

pub open spec fn view_unresolved_type_data(d: UnresolvedTypeData) -> UnresolvedTypeDataView
    decreases d,
{
    match d {
        UnresolvedTypeData::Array(size, elem) => UnresolvedTypeDataView::Array(
            view_unresolved_type_expression(size),
            Box::new(view_unresolved_type(*elem)),
        ),
        UnresolvedTypeData::Slice(elem) => UnresolvedTypeDataView::Slice(
            Box::new(view_unresolved_type(*elem)),
        ),
        UnresolvedTypeData::Expression(e) => UnresolvedTypeDataView::Expression(
            view_unresolved_type_expression(e),
        ),
        UnresolvedTypeData::FormatString(size, elem) => UnresolvedTypeDataView::FormatString(
            view_unresolved_type_expression(size),
            Box::new(view_unresolved_type(*elem)),
        ),
        UnresolvedTypeData::Parenthesized(inner) => UnresolvedTypeDataView::Parenthesized(
            Box::new(view_unresolved_type(*inner)),
        ),
        UnresolvedTypeData::Named(path, args, wildcard) => UnresolvedTypeDataView::Named(
            view_path(path),
            view_unresolved_types(args@),
            wildcard,
        ),
        UnresolvedTypeData::TraitAsType(path, args) => UnresolvedTypeDataView::TraitAsType(
            view_path(path),
            view_unresolved_types(args@),
        ),
        UnresolvedTypeData::MutableReference(inner) => UnresolvedTypeDataView::MutableReference(
            Box::new(view_unresolved_type(*inner)),
        ),
        UnresolvedTypeData::Tuple(elems) => UnresolvedTypeDataView::Tuple(
            view_unresolved_types(elems@),
        ),
        UnresolvedTypeData::Function(args, ret, env) => UnresolvedTypeDataView::Function(
            view_unresolved_types(args@),
            Box::new(view_unresolved_type(*ret)),
            Box::new(view_unresolved_type(*env)),
        ),
        UnresolvedTypeData::FieldElement => UnresolvedTypeDataView::FieldElement,
        UnresolvedTypeData::Integer(sign, bits) => UnresolvedTypeDataView::Integer(sign, bits),
        UnresolvedTypeData::Bool => UnresolvedTypeDataView::Bool,
        UnresolvedTypeData::String(len) => UnresolvedTypeDataView::String(len),
        UnresolvedTypeData::Unit => UnresolvedTypeDataView::Unit,
        UnresolvedTypeData::Quoted(q) => UnresolvedTypeDataView::Quoted(q),
        UnresolvedTypeData::Resolved(id) => UnresolvedTypeDataView::Resolved(id),
        UnresolvedTypeData::Unspecified => UnresolvedTypeDataView::Unspecified,
        UnresolvedTypeData::Error => UnresolvedTypeDataView::Error,
    }
}

pub open spec fn view_unresolved_type_expression(
    e: UnresolvedTypeExpression,
) -> UnresolvedTypeExpressionView
    decreases e,
{
    match e {
        UnresolvedTypeExpression::Variable(p) => UnresolvedTypeExpressionView::Variable(
            view_path(p),
        ),
        UnresolvedTypeExpression::BinaryOperation(lhs, op, rhs, span) => (
            UnresolvedTypeExpressionView::BinaryOperation(
                Box::new(view_unresolved_type_expression(*lhs)),
                op,
                Box::new(view_unresolved_type_expression(*rhs)),
                span,
            )
        ),
        UnresolvedTypeExpression::Constant(v, span) => UnresolvedTypeExpressionView::Constant(
            v,
            span,
        ),
    }
}

pub open spec fn view_generics(s: Seq<UnresolvedGeneric>) -> Seq<UnresolvedGenericView>
    decreases s,
{
    if s.len() == 0 {
        Seq::empty()
    } else {
        view_generics(s.subrange(0, s.len() - 1)).push(view_unresolved_generic(s[s.len() - 1]))
    }
}

pub open spec fn view_unresolved_generic(g: UnresolvedGeneric) -> UnresolvedGenericView
    decreases g,
{
    match g {
        UnresolvedGeneric::Variable(i) => UnresolvedGenericView::Variable(view_ident(i)),
        UnresolvedGeneric::Numeric { ident, typ } => (
            UnresolvedGenericView::Numeric {
                ident: view_ident(ident),
                typ: view_unresolved_type(typ),
            }
        ),
    }
}

pub open spec fn view_constraints(s: Seq<UnresolvedTraitConstraint>) -> Seq<
    UnresolvedTraitConstraintView,
>
    decreases s,
{
    if s.len() == 0 {
        Seq::empty()
    } else {
        view_constraints(s.subrange(0, s.len() - 1)).push(
            view_unresolved_trait_constraint(s[s.len() - 1]),
        )
    }
}

pub open spec fn view_unresolved_trait_constraint(
    c: UnresolvedTraitConstraint,
) -> UnresolvedTraitConstraintView
    decreases c,
{
    UnresolvedTraitConstraintView { typ: view_unresolved_type(c.typ) }
}

pub open spec fn view_function_return_type(r: FunctionReturnType) -> FunctionReturnTypeView
    decreases r,
{
    match r {
        FunctionReturnType::Default(span) => FunctionReturnTypeView::Default(span),
        FunctionReturnType::Ty(t) => FunctionReturnTypeView::Ty(view_unresolved_type(t)),
    }
}

pub open spec fn view_patterns(s: Seq<Pattern>) -> Seq<PatternView>
    decreases s,
{
    if s.len() == 0 {
        Seq::empty()
    } else {
        view_patterns(s.subrange(0, s.len() - 1)).push(view_pattern(s[s.len() - 1]))
    }
}

pub open spec fn view_ident_patterns(s: Seq<(Ident, Pattern)>) -> Seq<(IdentView, PatternView)>
    decreases s,
{
    if s.len() == 0 {
        Seq::empty()
    } else {
        view_ident_patterns(s.subrange(0, s.len() - 1)).push(
            (view_ident(s[s.len() - 1].0), view_pattern(s[s.len() - 1].1)),
        )
    }
}

pub open spec fn view_ident_types(s: Seq<(Ident, UnresolvedType)>) -> Seq<
    (IdentView, UnresolvedTypeView),
>
    decreases s,
{
    if s.len() == 0 {
        Seq::empty()
    } else {
        view_ident_types(s.subrange(0, s.len() - 1)).push(
            (view_ident(s[s.len() - 1].0), view_unresolved_type(s[s.len() - 1].1)),
        )
    }
}

pub open spec fn view_pattern(p: Pattern) -> PatternView
    decreases p,
{
    match p {
        Pattern::Identifier(i) => PatternView::Identifier(view_ident(i)),
        Pattern::Mutable(inner, span, is_synthesized) => PatternView::Mutable(
            Box::new(view_pattern(*inner)),
            span,
            is_synthesized,
        ),
        Pattern::Tuple(elems, span) => PatternView::Tuple(view_patterns(elems@), span),
        Pattern::Struct(path, fields, span) => PatternView::Struct(
            view_path(path),
            view_ident_patterns(fields@),
            span,
        ),
    }
}

pub proof fn lemma_view_path_segments(s: Seq<PathSegment>)
    ensures
        view_path_segments(s).len() == s.len(),
        forall|i: int| 0 <= i < s.len() ==> view_path_segments(s)[i] == view_path_segment(s[i]),
    decreases s,
{
    if s.len() > 0 {
        lemma_view_path_segments(s.subrange(0, s.len() - 1));
    }
}

pub proof fn lemma_view_items(s: Seq<Item>)
    ensures
        view_items(s).len() == s.len(),
        forall|i: int| 0 <= i < s.len() ==> view_items(s)[i] == view_item(s[i]),
    decreases s,
{
    if s.len() > 0 {
        lemma_view_items(s.subrange(0, s.len() - 1));
    }
}

pub proof fn lemma_view_params(s: Seq<Param>)
    ensures
        view_params(s).len() == s.len(),
        forall|i: int| 0 <= i < s.len() ==> view_params(s)[i] == view_param(s[i]),
    decreases s,
{
    if s.len() > 0 {
        lemma_view_params(s.subrange(0, s.len() - 1));
    }
}

pub proof fn lemma_view_trait_items(s: Seq<TraitItem>)
    ensures
        view_trait_items(s).len() == s.len(),
        forall|i: int| 0 <= i < s.len() ==> view_trait_items(s)[i] == view_trait_item(s[i]),
    decreases s,
{
    if s.len() > 0 {
        lemma_view_trait_items(s.subrange(0, s.len() - 1));
    }
}

pub proof fn lemma_view_trait_impl_items(s: Seq<TraitImplItem>)
    ensures
        view_trait_impl_items(s).len() == s.len(),
        forall|i: int| 0 <= i < s.len() ==> view_trait_impl_items(s)[i] == view_trait_impl_item(
            s[i],
        ),
    decreases s,
{
    if s.len() > 0 {
        lemma_view_trait_impl_items(s.subrange(0, s.len() - 1));
    }
}

pub proof fn lemma_view_methods(s: Seq<(NoirFunction, Span)>)
    ensures
        view_methods(s).len() == s.len(),
        forall|i: int| 0 <= i < s.len() ==> view_methods(s)[i] == (
            (view_noir_function(s[i].0), s[i].1)
        ),
    decreases s,
{
    if s.len() > 0 {
        lemma_view_methods(s.subrange(0, s.len() - 1));
    }
}

pub proof fn lemma_view_use_trees(s: Seq<UseTree>)
    ensures
        view_use_trees(s).len() == s.len(),
        forall|i: int| 0 <= i < s.len() ==> view_use_trees(s)[i] == view_use_tree(s[i]),
    decreases s,
{
    if s.len() > 0 {
        lemma_view_use_trees(s.subrange(0, s.len() - 1));
    }
}

pub proof fn lemma_view_statements(s: Seq<Statement>)
    ensures
        view_statements(s).len() == s.len(),
        forall|i: int| 0 <= i < s.len() ==> view_statements(s)[i] == view_statement(s[i]),
    decreases s,
{
    if s.len() > 0 {
        lemma_view_statements(s.subrange(0, s.len() - 1));
    }
}

pub proof fn lemma_view_expressions(s: Seq<Expression>)
    ensures
        view_expressions(s).len() == s.len(),
        forall|i: int| 0 <= i < s.len() ==> view_expressions(s)[i] == view_expression(s[i]),
    decreases s,
{
    if s.len() > 0 {
        lemma_view_expressions(s.subrange(0, s.len() - 1));
    }
}

pub proof fn lemma_view_ident_expressions(s: Seq<(Ident, Expression)>)
    ensures
        view_ident_expressions(s).len() == s.len(),
        forall|i: int| 0 <= i < s.len() ==> view_ident_expressions(s)[i] == (
            (view_ident(s[i].0), view_expression(s[i].1))
        ),
    decreases s,
{
    if s.len() > 0 {
        lemma_view_ident_expressions(s.subrange(0, s.len() - 1));
    }
}

pub proof fn lemma_view_pattern_types(s: Seq<(Pattern, UnresolvedType)>)
    ensures
        view_pattern_types(s).len() == s.len(),
        forall|i: int| 0 <= i < s.len() ==> view_pattern_types(s)[i] == (
            (view_pattern(s[i].0), view_unresolved_type(s[i].1))
        ),
    decreases s,
{
    if s.len() > 0 {
        lemma_view_pattern_types(s.subrange(0, s.len() - 1));
    }
}

pub proof fn lemma_view_unresolved_types(s: Seq<UnresolvedType>)
    ensures
        view_unresolved_types(s).len() == s.len(),
        forall|i: int| 0 <= i < s.len() ==> view_unresolved_types(s)[i] == view_unresolved_type(
            s[i],
        ),
    decreases s,
{
    if s.len() > 0 {
        lemma_view_unresolved_types(s.subrange(0, s.len() - 1));
    }
}

pub proof fn lemma_view_generics(s: Seq<UnresolvedGeneric>)
    ensures
        view_generics(s).len() == s.len(),
        forall|i: int| 0 <= i < s.len() ==> view_generics(s)[i] == view_unresolved_generic(s[i]),
    decreases s,
{
    if s.len() > 0 {
        lemma_view_generics(s.subrange(0, s.len() - 1));
    }
}

pub proof fn lemma_view_constraints(s: Seq<UnresolvedTraitConstraint>)
    ensures
        view_constraints(s).len() == s.len(),
        forall|i: int| 0 <= i < s.len() ==> view_constraints(s)[i]
            == view_unresolved_trait_constraint(s[i]),
    decreases s,
{
    if s.len() > 0 {
        lemma_view_constraints(s.subrange(0, s.len() - 1));
    }
}

pub proof fn lemma_view_patterns(s: Seq<Pattern>)
    ensures
        view_patterns(s).len() == s.len(),
        forall|i: int| 0 <= i < s.len() ==> view_patterns(s)[i] == view_pattern(s[i]),
    decreases s,
{
    if s.len() > 0 {
        lemma_view_patterns(s.subrange(0, s.len() - 1));
    }
}

pub proof fn lemma_view_ident_patterns(s: Seq<(Ident, Pattern)>)
    ensures
        view_ident_patterns(s).len() == s.len(),
        forall|i: int| 0 <= i < s.len() ==> view_ident_patterns(s)[i] == (
            (view_ident(s[i].0), view_pattern(s[i].1))
        ),
    decreases s,
{
    if s.len() > 0 {
        lemma_view_ident_patterns(s.subrange(0, s.len() - 1));
    }
}

pub proof fn lemma_view_ident_types(s: Seq<(Ident, UnresolvedType)>)
    ensures
        view_ident_types(s).len() == s.len(),
        forall|i: int| 0 <= i < s.len() ==> view_ident_types(s)[i] == (
            (view_ident(s[i].0), view_unresolved_type(s[i].1))
        ),
    decreases s,
{
    if s.len() > 0 {
        lemma_view_ident_types(s.subrange(0, s.len() - 1));
    }
}

} // verus!

