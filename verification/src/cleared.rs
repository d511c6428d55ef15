//! The location-erasure predicate: a tree satisfies it exactly when every
//! location attribute that sanitization clears equals the empty sentinel.
//! Auxiliary positions that sanitization leaves in place (on composite
//! patterns, lvalues, type-level operations, the default return type and
//! the block of a compile-time expression) are unconstrained here, as are
//! the terminal variants.

use vstd::prelude::*;
use crate::model::{IdentView, PathSegmentView, PathView, ParsedModuleView, ItemView, ItemKindView,
    NoirFunctionView, ParamView, NoirTraitView, TraitItemView, NoirTraitImplView,
    TraitImplItemView, TypeImplView, ParsedSubModuleView, UseTreeView, UseTreeKindView,
    NoirStructView, NoirTypeAliasView, LetStatementView, BlockExpressionView, StatementView,
    StatementKindView, ConstrainStatementView, AssignStatementView, LValueView,
    ForLoopStatementView, ForRangeView, ExpressionView, ExpressionKindView, LiteralView,
    ArrayLiteralView, MethodCallExpressionView, IfExpressionView, LambdaView, UnresolvedTypeView,
    UnresolvedTypeDataView, UnresolvedTypeExpressionView, UnresolvedGenericView,
    UnresolvedTraitConstraintView, FunctionReturnTypeView, PatternView};
use crate::ast::Span;
use crate::erase::span_empty;

verus! {

pub open spec fn spans_cleared_ident(i: IdentView) -> bool {
    i.span == span_empty()
}

pub open spec fn spans_cleared_path_segment(s: PathSegmentView) -> bool {
    s.span == span_empty() && spans_cleared_ident(s.ident)
}

pub open spec fn spans_cleared_path_segments(s: Seq<PathSegmentView>) -> bool
    decreases s,
{
    s.len() == 0 || (spans_cleared_path_segments(s.subrange(0, s.len() - 1))
        && spans_cleared_path_segment(s[s.len() - 1]))
}

pub open spec fn spans_cleared_path(p: PathView) -> bool
    decreases p,
{
    p.span == span_empty() && spans_cleared_path_segments(p.segments)
}

pub open spec fn spans_cleared_parsed_module(m: ParsedModuleView) -> bool
    decreases m,
{
    spans_cleared_items(m.items)
}

pub open spec fn spans_cleared_items(s: Seq<ItemView>) -> bool
    decreases s,
{
    s.len() == 0 || (spans_cleared_items(s.subrange(0, s.len() - 1)) && spans_cleared_item(
        s[s.len() - 1],
    ))
}

pub open spec fn spans_cleared_item(i: ItemView) -> bool
    decreases i,
{
    i.span == span_empty() && spans_cleared_item_kind(i.kind)
}

pub open spec fn spans_cleared_item_kind(k: ItemKindView) -> bool
    decreases k,
{
    match k {
        ItemKindView::Function(f) => spans_cleared_noir_function(f),
        ItemKindView::Trait(t) => spans_cleared_noir_trait(t),
        ItemKindView::TraitImpl(t) => spans_cleared_noir_trait_impl(t),
        ItemKindView::Impl(t) => spans_cleared_type_impl(t),
        ItemKindView::Global(g) => spans_cleared_let_statement(g),
        ItemKindView::Submodules(s) => spans_cleared_parsed_sub_module(s),
        ItemKindView::ModuleDecl(m) => spans_cleared_ident(m.ident),
        ItemKindView::Import(u) => spans_cleared_use_tree(u),
        ItemKindView::Struct(s) => spans_cleared_noir_struct(s),
        ItemKindView::TypeAlias(a) => spans_cleared_noir_type_alias(a),
    }
}

pub open spec fn spans_cleared_noir_function(f: NoirFunctionView) -> bool
    decreases f,
{
    &&& f.span == span_empty()
    &&& spans_cleared_ident(f.name)
    &&& spans_cleared_generics(f.generics)
    &&& spans_cleared_params(f.parameters)
    &&& spans_cleared_constraints(f.where_clause)
    &&& spans_cleared_function_return_type(f.return_type)
    &&& spans_cleared_block_expression(f.body)
}

pub open spec fn spans_cleared_param(p: ParamView) -> bool
    decreases p,
{
    p.span == span_empty() && spans_cleared_pattern(p.pattern) && spans_cleared_unresolved_type(
        p.typ,
    )
}

pub open spec fn spans_cleared_params(s: Seq<ParamView>) -> bool
    decreases s,
{
    s.len() == 0 || (spans_cleared_params(s.subrange(0, s.len() - 1)) && spans_cleared_param(
        s[s.len() - 1],
    ))
}

pub open spec fn spans_cleared_noir_trait(t: NoirTraitView) -> bool
    decreases t,
{
    &&& t.span == span_empty()
    &&& spans_cleared_ident(t.name)
    &&& spans_cleared_generics(t.generics)
    &&& spans_cleared_constraints(t.where_clause)
    &&& spans_cleared_trait_items(t.items)
}

pub open spec fn spans_cleared_trait_items(s: Seq<TraitItemView>) -> bool
    decreases s,
{
    s.len() == 0 || (spans_cleared_trait_items(s.subrange(0, s.len() - 1))
        && spans_cleared_trait_item(s[s.len() - 1]))
}

pub open spec fn spans_cleared_trait_item(t: TraitItemView) -> bool
    decreases t,
{
    match t {
        TraitItemView::Function { name, generics, parameters, return_type, where_clause, body } => {
            &&& spans_cleared_ident(name)
            &&& spans_cleared_generics(generics)
            &&& spans_cleared_ident_types(parameters)
            &&& spans_cleared_function_return_type(return_type)
            &&& spans_cleared_constraints(where_clause)
            &&& match body {
                Option::Some(b) => spans_cleared_block_expression(b),
                Option::None => true,
            }
        },
        TraitItemView::Constant { name, typ, default_value } => {
            &&& spans_cleared_ident(name)
            &&& spans_cleared_unresolved_type(typ)
            &&& match default_value {
                Option::Some(e) => spans_cleared_expression(e),
                Option::None => true,
            }
        },
        TraitItemView::Type { name } => spans_cleared_ident(name),
    }
}

pub open spec fn spans_cleared_noir_trait_impl(t: NoirTraitImplView) -> bool
    decreases t,
{
    &&& spans_cleared_path(t.trait_name)
    &&& spans_cleared_generics(t.impl_generics)
    &&& spans_cleared_unresolved_type(t.object_type)
    &&& spans_cleared_constraints(t.where_clause)
    &&& spans_cleared_trait_impl_items(t.items)
}

pub open spec fn spans_cleared_trait_impl_items(s: Seq<TraitImplItemView>) -> bool
    decreases s,
{
    s.len() == 0 || (spans_cleared_trait_impl_items(s.subrange(0, s.len() - 1))
        && spans_cleared_trait_impl_item(s[s.len() - 1]))
}

pub open spec fn spans_cleared_trait_impl_item(t: TraitImplItemView) -> bool
    decreases t,
{
    match t {
        TraitImplItemView::Function(f) => spans_cleared_noir_function(f),
        TraitImplItemView::Constant(name, typ, default_value) => {
            &&& spans_cleared_ident(name)
            &&& spans_cleared_unresolved_type(typ)
            &&& spans_cleared_expression(default_value)
        },
        TraitImplItemView::Type { name, alias } => spans_cleared_ident(name)
            && spans_cleared_unresolved_type(alias),
    }
}

pub open spec fn spans_cleared_type_impl(t: TypeImplView) -> bool
    decreases t,
{
    &&& t.type_span == span_empty()
    &&& spans_cleared_unresolved_type(t.object_type)
    &&& spans_cleared_generics(t.generics)
    &&& spans_cleared_constraints(t.where_clause)
    &&& spans_cleared_methods(t.methods)
}

pub open spec fn spans_cleared_methods(s: Seq<(NoirFunctionView, Span)>) -> bool
    decreases s,
{
    s.len() == 0 || (spans_cleared_methods(s.subrange(0, s.len() - 1))
        && spans_cleared_noir_function(s[s.len() - 1].0))
}

pub open spec fn spans_cleared_parsed_sub_module(s: ParsedSubModuleView) -> bool
    decreases s,
{
    spans_cleared_ident(s.name) && spans_cleared_parsed_module(s.contents)
}

pub open spec fn spans_cleared_use_tree(u: UseTreeView) -> bool
    decreases u,
{
    spans_cleared_path(u.prefix) && spans_cleared_use_tree_kind(u.kind)
}

pub open spec fn spans_cleared_use_tree_kind(k: UseTreeKindView) -> bool
    decreases k,
{
    match k {
        UseTreeKindView::Path(name, alias) => spans_cleared_ident(name) && match alias {
            Option::Some(a) => spans_cleared_ident(a),
            Option::None => true,
        },
        UseTreeKindView::List(trees) => spans_cleared_use_trees(trees),
    }
}

pub open spec fn spans_cleared_use_trees(s: Seq<UseTreeView>) -> bool
    decreases s,
{
    s.len() == 0 || (spans_cleared_use_trees(s.subrange(0, s.len() - 1))
        && spans_cleared_use_tree(s[s.len() - 1]))
}

pub open spec fn spans_cleared_noir_struct(s: NoirStructView) -> bool
    decreases s,
{
    &&& s.span == span_empty()
    &&& spans_cleared_ident(s.name)
    &&& spans_cleared_ident_types(s.fields)
    &&& spans_cleared_generics(s.generics)
}

pub open spec fn spans_cleared_noir_type_alias(a: NoirTypeAliasView) -> bool
    decreases a,
{
    a.span == span_empty() && spans_cleared_ident(a.name) && spans_cleared_unresolved_type(a.typ)
}

pub open spec fn spans_cleared_let_statement(l: LetStatementView) -> bool
    decreases l,
{
    spans_cleared_pattern(l.pattern) && spans_cleared_unresolved_type(l.typ)
        && spans_cleared_expression(l.expression)
}

pub open spec fn spans_cleared_block_expression(b: BlockExpressionView) -> bool
    decreases b,
{
    spans_cleared_statements(b.statements)
}

pub open spec fn spans_cleared_statements(s: Seq<StatementView>) -> bool
    decreases s,
{
    s.len() == 0 || (spans_cleared_statements(s.subrange(0, s.len() - 1))
        && spans_cleared_statement(s[s.len() - 1]))
}

pub open spec fn spans_cleared_statement(s: StatementView) -> bool
    decreases s,
{
    s.span == span_empty() && spans_cleared_statement_kind(s.kind)
}

pub open spec fn spans_cleared_statement_kind(k: StatementKindView) -> bool
    decreases k,
{
    match k {
        StatementKindView::Let(l) => spans_cleared_let_statement(l),
        StatementKindView::Constrain(c) => spans_cleared_constrain_statement(c),
        StatementKindView::Expression(e) => spans_cleared_expression(e),
        StatementKindView::Assign(a) => spans_cleared_assign_statement(a),
        StatementKindView::For(f) => spans_cleared_for_loop_statement(f),
        StatementKindView::Comptime(s) => spans_cleared_statement(*s),
        StatementKindView::Semi(e) => spans_cleared_expression(e),
        StatementKindView::Break => true,
        StatementKindView::Continue => true,
        StatementKindView::Error => true,
    }
}

pub open spec fn spans_cleared_constrain_statement(c: ConstrainStatementView) -> bool
    decreases c,
{
    spans_cleared_expression(c.0) && match c.1 {
        Option::Some(e) => spans_cleared_expression(e),
        Option::None => true,
    }
}

pub open spec fn spans_cleared_assign_statement(a: AssignStatementView) -> bool
    decreases a,
{
    spans_cleared_lvalue(a.lvalue) && spans_cleared_expression(a.expression)
}

pub open spec fn spans_cleared_lvalue(l: LValueView) -> bool
    decreases l,
{
    match l {
        LValueView::Ident(i) => spans_cleared_ident(i),
        LValueView::MemberAccess { object, field_name, span: _ } => spans_cleared_lvalue(*object)
            && spans_cleared_ident(field_name),
        LValueView::Index { array, index, span: _ } => spans_cleared_lvalue(*array)
            && spans_cleared_expression(index),
        LValueView::Dereference(inner, _) => spans_cleared_lvalue(*inner),
    }
}

pub open spec fn spans_cleared_for_loop_statement(f: ForLoopStatementView) -> bool
    decreases f,
{
    &&& f.span == span_empty()
    &&& spans_cleared_ident(f.identifier)
    &&& spans_cleared_for_range(f.range)
    &&& spans_cleared_expression(f.block)
}

pub open spec fn spans_cleared_for_range(r: ForRangeView) -> bool
    decreases r,
{
    match r {
        ForRangeView::Range(from, to) => spans_cleared_expression(from) && spans_cleared_expression(
            to,
        ),
        ForRangeView::Array(e) => spans_cleared_expression(e),
    }
}

pub open spec fn spans_cleared_expressions(s: Seq<ExpressionView>) -> bool
    decreases s,
{
    s.len() == 0 || (spans_cleared_expressions(s.subrange(0, s.len() - 1))
        && spans_cleared_expression(s[s.len() - 1]))
}

pub open spec fn spans_cleared_expression(e: ExpressionView) -> bool
    decreases e,
{
    e.span == span_empty() && spans_cleared_expression_kind(e.kind)
}

pub open spec fn spans_cleared_expression_kind(k: ExpressionKindView) -> bool
    decreases k,
{
    match k {
        ExpressionKindView::Literal(l) => spans_cleared_literal(l),
        ExpressionKindView::Block(b) => spans_cleared_block_expression(b),
        ExpressionKindView::Prefix(p) => spans_cleared_expression(p.rhs),
        ExpressionKindView::Index(i) => spans_cleared_expression(i.collection)
            && spans_cleared_expression(i.index),
        ExpressionKindView::Call(c) => spans_cleared_expression(c.func)
            && spans_cleared_expressions(c.arguments),
        ExpressionKindView::MethodCall(m) => spans_cleared_method_call_expression(*m),
        ExpressionKindView::Constructor(c) => spans_cleared_path(c.type_path)
            && spans_cleared_ident_expressions(c.fields),
        ExpressionKindView::MemberAccess(m) => spans_cleared_expression(m.lhs)
            && spans_cleared_ident(m.rhs),
        ExpressionKindView::Cast(c) => spans_cleared_expression(c.lhs)
            && spans_cleared_unresolved_type(c.typ),
        ExpressionKindView::Infix(i) => spans_cleared_expression(i.lhs) && spans_cleared_expression(
            i.rhs,
        ),
        ExpressionKindView::If(i) => spans_cleared_if_expression(*i),
        ExpressionKindView::Variable(p) => spans_cleared_path(p),
        ExpressionKindView::Tuple(es) => spans_cleared_expressions(es),
        ExpressionKindView::Lambda(l) => spans_cleared_lambda(*l),
        ExpressionKindView::Parenthesized(e) => spans_cleared_expression(*e),
        ExpressionKindView::Quote(_) => true,
        ExpressionKindView::Unquote(e) => spans_cleared_expression(*e),
        ExpressionKindView::Comptime(b, _span) => spans_cleared_block_expression(b),
        ExpressionKindView::Resolved(_) => true,
        ExpressionKindView::Error => true,
    }
}

pub open spec fn spans_cleared_method_call_expression(m: MethodCallExpressionView) -> bool
    decreases m,
{
    &&& spans_cleared_expression(m.object)
    &&& spans_cleared_ident(m.method_name)
    &&& match m.generics {
        Option::Some(ts) => spans_cleared_unresolved_types(ts),
        Option::None => true,
    }
    &&& spans_cleared_expressions(m.arguments)
}

pub open spec fn spans_cleared_if_expression(i: IfExpressionView) -> bool
    decreases i,
{
    &&& spans_cleared_expression(i.condition)
    &&& spans_cleared_expression(i.consequence)
    &&& match i.alternative {
        Option::Some(e) => spans_cleared_expression(e),
        Option::None => true,
    }
}

pub open spec fn spans_cleared_lambda(l: LambdaView) -> bool
    decreases l,
{
    &&& spans_cleared_pattern_types(l.parameters)
    &&& spans_cleared_unresolved_type(l.return_type)
    &&& spans_cleared_expression(l.body)
}

pub open spec fn spans_cleared_literal(l: LiteralView) -> bool
    decreases l,
{
    match l {
        LiteralView::Array(a) => spans_cleared_array_literal(a),
        LiteralView::Slice(a) => spans_cleared_array_literal(a),
        LiteralView::Bool(_) => true,
        LiteralView::Integer(_, _) => true,
        LiteralView::Str(_) => true,
        LiteralView::RawStr(_, _) => true,
        LiteralView::FmtStr(_) => true,
        LiteralView::Unit => true,
    }
}

pub open spec fn spans_cleared_array_literal(a: ArrayLiteralView) -> bool
    decreases a,
{
    match a {
        ArrayLiteralView::Standard(es) => spans_cleared_expressions(es),
        ArrayLiteralView::Repeated { repeated_element, length } => spans_cleared_expression(
            *repeated_element,
        ) && spans_cleared_expression(*length),
    }
}

pub open spec fn spans_cleared_ident_expressions(s: Seq<(IdentView, ExpressionView)>) -> bool
    decreases s,
{
    s.len() == 0 || (spans_cleared_ident_expressions(s.subrange(0, s.len() - 1))
        && spans_cleared_ident(s[s.len() - 1].0) && spans_cleared_expression(s[s.len() - 1].1))
}

pub open spec fn spans_cleared_pattern_types(s: Seq<(PatternView, UnresolvedTypeView)>) -> bool
    decreases s,
{
    s.len() == 0 || (spans_cleared_pattern_types(s.subrange(0, s.len() - 1))
        && spans_cleared_pattern(s[s.len() - 1].0) && spans_cleared_unresolved_type(
        s[s.len() - 1].1,
    ))
}

pub open spec fn spans_cleared_unresolved_types(s: Seq<UnresolvedTypeView>) -> bool
    decreases s,
{
    s.len() == 0 || (spans_cleared_unresolved_types(s.subrange(0, s.len() - 1))
        && spans_cleared_unresolved_type(s[s.len() - 1]))
}

pub open spec fn spans_cleared_unresolved_type(t: UnresolvedTypeView) -> bool
    decreases t,
{
    t.span == span_empty() && spans_cleared_unresolved_type_data(t.typ)
}

pub open spec fn spans_cleared_unresolved_type_data(d: UnresolvedTypeDataView) -> bool
    decreases d,
{
    match d {
        UnresolvedTypeDataView::Array(size, elem) => spans_cleared_unresolved_type_expression(size)
            && spans_cleared_unresolved_type(*elem),
        UnresolvedTypeDataView::Slice(elem) => spans_cleared_unresolved_type(*elem),
        UnresolvedTypeDataView::Expression(e) => spans_cleared_unresolved_type_expression(e),
        UnresolvedTypeDataView::FormatString(size, elem) => (
            spans_cleared_unresolved_type_expression(size) && spans_cleared_unresolved_type(*elem)
        ),
        UnresolvedTypeDataView::Parenthesized(inner) => spans_cleared_unresolved_type(*inner),
        UnresolvedTypeDataView::Named(path, args, _) => spans_cleared_path(path)
            && spans_cleared_unresolved_types(args),
        UnresolvedTypeDataView::TraitAsType(path, args) => spans_cleared_path(path)
            && spans_cleared_unresolved_types(args),
        UnresolvedTypeDataView::MutableReference(inner) => spans_cleared_unresolved_type(*inner),
        UnresolvedTypeDataView::Tuple(elems) => spans_cleared_unresolved_types(elems),
        UnresolvedTypeDataView::Function(args, ret, _env) => spans_cleared_unresolved_types(args)
            && spans_cleared_unresolved_type(*ret),
        UnresolvedTypeDataView::FieldElement => true,
        UnresolvedTypeDataView::Integer(_, _) => true,
        UnresolvedTypeDataView::Bool => true,
        UnresolvedTypeDataView::String(_) => true,
        UnresolvedTypeDataView::Unit => true,
        UnresolvedTypeDataView::Quoted(_) => true,
        UnresolvedTypeDataView::Resolved(_) => true,
        UnresolvedTypeDataView::Unspecified => true,
        UnresolvedTypeDataView::Error => true,
    }
}

pub open spec fn spans_cleared_unresolved_type_expression(e: UnresolvedTypeExpressionView) -> bool
    decreases e,
{
    match e {
        UnresolvedTypeExpressionView::Variable(p) => spans_cleared_path(p),
        UnresolvedTypeExpressionView::BinaryOperation(lhs, _, rhs, _) => (
            spans_cleared_unresolved_type_expression(*lhs)
                && spans_cleared_unresolved_type_expression(*rhs)
        ),
        UnresolvedTypeExpressionView::Constant(_, _) => true,
    }
}

pub open spec fn spans_cleared_generics(s: Seq<UnresolvedGenericView>) -> bool
    decreases s,
{
    s.len() == 0 || (spans_cleared_generics(s.subrange(0, s.len() - 1))
        && spans_cleared_unresolved_generic(s[s.len() - 1]))
}

pub open spec fn spans_cleared_unresolved_generic(g: UnresolvedGenericView) -> bool
    decreases g,
{
    match g {
        UnresolvedGenericView::Variable(i) => spans_cleared_ident(i),
        UnresolvedGenericView::Numeric { ident, typ } => spans_cleared_ident(ident)
            && spans_cleared_unresolved_type(typ),
    }
}

pub open spec fn spans_cleared_constraints(s: Seq<UnresolvedTraitConstraintView>) -> bool
    decreases s,
{
    s.len() == 0 || (spans_cleared_constraints(s.subrange(0, s.len() - 1))
        && spans_cleared_unresolved_type(s[s.len() - 1].typ))
}

pub open spec fn spans_cleared_function_return_type(r: FunctionReturnTypeView) -> bool
    decreases r,
{
    match r {
        FunctionReturnTypeView::Default(_) => true,
        FunctionReturnTypeView::Ty(t) => spans_cleared_unresolved_type(t),
    }
}

pub open spec fn spans_cleared_patterns(s: Seq<PatternView>) -> bool
    decreases s,
{
    s.len() == 0 || (spans_cleared_patterns(s.subrange(0, s.len() - 1)) && spans_cleared_pattern(
        s[s.len() - 1],
    ))
}

pub open spec fn spans_cleared_ident_patterns(s: Seq<(IdentView, PatternView)>) -> bool
    decreases s,
{
    s.len() == 0 || (spans_cleared_ident_patterns(s.subrange(0, s.len() - 1))
        && spans_cleared_ident(s[s.len() - 1].0) && spans_cleared_pattern(s[s.len() - 1].1))
}

pub open spec fn spans_cleared_ident_types(s: Seq<(IdentView, UnresolvedTypeView)>) -> bool
    decreases s,
{
    s.len() == 0 || (spans_cleared_ident_types(s.subrange(0, s.len() - 1)) && spans_cleared_ident(
        s[s.len() - 1].0,
    ) && spans_cleared_unresolved_type(s[s.len() - 1].1))
}

pub open spec fn spans_cleared_pattern(p: PatternView) -> bool
    decreases p,
{
    match p {
        PatternView::Identifier(i) => spans_cleared_ident(i),
        PatternView::Mutable(inner, _, _) => spans_cleared_pattern(*inner),
        PatternView::Tuple(elems, _) => spans_cleared_patterns(elems),
        PatternView::Struct(path, fields, _) => spans_cleared_path(path)
            && spans_cleared_ident_patterns(fields),
    }
}

} // verus!
