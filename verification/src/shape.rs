//! Structural preservation: a binary predicate relating two trees that
//! agree on every node tag, child count, child order, identifier text,
//! literal value, operator kind and auxiliary position, and may differ only
//! in the location attributes that sanitization clears; and the proof that
//! every tree stands in this relation to its sanitized form.

use vstd::prelude::*;
use crate::ast::Span;
use crate::model::{IdentView, PathSegmentView, PathView, ParsedModuleView, ItemView, ItemKindView,
    NoirFunctionView, ParamView, NoirTraitView, TraitItemView, NoirTraitImplView,
    TraitImplItemView, TypeImplView, UseTreeView, UseTreeKindView, NoirStructView,
    LetStatementView, BlockExpressionView, StatementView, StatementKindView, LValueView,
    ForRangeView, ExpressionView, ExpressionKindView, LiteralView, ArrayLiteralView,
    UnresolvedTypeView, UnresolvedTypeDataView, UnresolvedTypeExpressionView,
    UnresolvedGenericView, UnresolvedTraitConstraintView, FunctionReturnTypeView, PatternView};
use crate::erase::{erase_ident, erase_path_segment, erase_path_segments, erase_path,
    erase_parsed_module, erase_items, erase_item, erase_item_kind, erase_noir_function,
    erase_param, erase_params, erase_noir_trait, erase_trait_items, erase_trait_item,
    erase_noir_trait_impl, erase_trait_impl_items, erase_trait_impl_item, erase_type_impl,
    erase_methods, erase_use_tree, erase_use_tree_kind, erase_use_trees, erase_noir_struct,
    erase_let_statement, erase_block_expression, erase_statements, erase_statement,
    erase_statement_kind, erase_lvalue, erase_for_range, erase_expressions, erase_expression,
    erase_expression_kind, erase_literal, erase_array_literal, erase_ident_expressions,
    erase_pattern_types, erase_unresolved_types, erase_unresolved_type, erase_unresolved_type_data,
    erase_unresolved_type_expression, erase_generics, erase_unresolved_generic, erase_constraints,
    erase_unresolved_trait_constraint, erase_function_return_type, erase_patterns,
    erase_ident_patterns, erase_ident_types, erase_pattern};

verus! {

pub open spec fn same_shape_ident(a: IdentView, b: IdentView) -> bool {
    a.text == b.text
}

pub open spec fn same_shape_path_segment(a: PathSegmentView, b: PathSegmentView) -> bool {
    same_shape_ident(a.ident, b.ident)
}

pub open spec fn same_shape_path_segments(a: Seq<PathSegmentView>, b: Seq<PathSegmentView>) -> bool
    decreases a,
{
    a.len() == b.len() && (a.len() == 0 || (same_shape_path_segments(
        a.subrange(0, a.len() - 1),
        b.subrange(0, b.len() - 1),
    ) && same_shape_path_segment(a[a.len() - 1], b[b.len() - 1])))
}

pub open spec fn same_shape_path(a: PathView, b: PathView) -> bool
    decreases a,
{
    same_shape_path_segments(a.segments, b.segments)
}

pub open spec fn same_shape_parsed_module(a: ParsedModuleView, b: ParsedModuleView) -> bool
    decreases a,
{
    same_shape_items(a.items, b.items)
}

pub open spec fn same_shape_items(a: Seq<ItemView>, b: Seq<ItemView>) -> bool
    decreases a,
{
    a.len() == b.len() && (a.len() == 0 || (same_shape_items(
        a.subrange(0, a.len() - 1),
        b.subrange(0, b.len() - 1),
    ) && same_shape_item(a[a.len() - 1], b[b.len() - 1])))
}

pub open spec fn same_shape_item(a: ItemView, b: ItemView) -> bool
    decreases a,
{
    same_shape_item_kind(a.kind, b.kind)
}

pub open spec fn same_shape_item_kind(a: ItemKindView, b: ItemKindView) -> bool
    decreases a,
{
    match (a, b) {
        (ItemKindView::Function(fa), ItemKindView::Function(fb)) => same_shape_noir_function(
            fa,
            fb,
        ),
        (ItemKindView::Trait(ta), ItemKindView::Trait(tb)) => same_shape_noir_trait(ta, tb),
        (ItemKindView::TraitImpl(ta), ItemKindView::TraitImpl(tb)) => same_shape_noir_trait_impl(
            ta,
            tb,
        ),
        (ItemKindView::Impl(ta), ItemKindView::Impl(tb)) => same_shape_type_impl(ta, tb),
        (ItemKindView::Global(ga), ItemKindView::Global(gb)) => same_shape_let_statement(ga, gb),
        (ItemKindView::Submodules(sa), ItemKindView::Submodules(sb)) => (
            same_shape_ident(sa.name, sb.name) && same_shape_parsed_module(
                sa.contents,
                sb.contents,
            )
        ),
        (ItemKindView::ModuleDecl(ma), ItemKindView::ModuleDecl(mb)) => same_shape_ident(
            ma.ident,
            mb.ident,
        ),
        (ItemKindView::Import(ua), ItemKindView::Import(ub)) => same_shape_use_tree(ua, ub),
        (ItemKindView::Struct(sa), ItemKindView::Struct(sb)) => same_shape_noir_struct(sa, sb),
        (ItemKindView::TypeAlias(aa), ItemKindView::TypeAlias(ab)) => (
            same_shape_ident(aa.name, ab.name) && same_shape_unresolved_type(aa.typ, ab.typ)
        ),
        _ => false,
    }
}

pub open spec fn same_shape_noir_function(a: NoirFunctionView, b: NoirFunctionView) -> bool
    decreases a,
{
    &&& same_shape_ident(a.name, b.name)
    &&& same_shape_generics(a.generics, b.generics)
    &&& same_shape_params(a.parameters, b.parameters)
    &&& same_shape_constraints(a.where_clause, b.where_clause)
    &&& same_shape_function_return_type(a.return_type, b.return_type)
    &&& same_shape_block_expression(a.body, b.body)
}

pub open spec fn same_shape_param(a: ParamView, b: ParamView) -> bool
    decreases a,
{
    same_shape_pattern(a.pattern, b.pattern) && same_shape_unresolved_type(a.typ, b.typ)
}

pub open spec fn same_shape_params(a: Seq<ParamView>, b: Seq<ParamView>) -> bool
    decreases a,
{
    a.len() == b.len() && (a.len() == 0 || (same_shape_params(
        a.subrange(0, a.len() - 1),
        b.subrange(0, b.len() - 1),
    ) && same_shape_param(a[a.len() - 1], b[b.len() - 1])))
}

pub open spec fn same_shape_noir_trait(a: NoirTraitView, b: NoirTraitView) -> bool
    decreases a,
{
    &&& same_shape_ident(a.name, b.name)
    &&& same_shape_generics(a.generics, b.generics)
    &&& same_shape_constraints(a.where_clause, b.where_clause)
    &&& same_shape_trait_items(a.items, b.items)
}

pub open spec fn same_shape_trait_items(a: Seq<TraitItemView>, b: Seq<TraitItemView>) -> bool
    decreases a,
{
    a.len() == b.len() && (a.len() == 0 || (same_shape_trait_items(
        a.subrange(0, a.len() - 1),
        b.subrange(0, b.len() - 1),
    ) && same_shape_trait_item(a[a.len() - 1], b[b.len() - 1])))
}

pub open spec fn same_shape_trait_item(a: TraitItemView, b: TraitItemView) -> bool
    decreases a,
{
    match (a, b) {
        (
            TraitItemView::Function {
                name: na,
                generics: ga,
                parameters: pa,
                return_type: ra,
                where_clause: wa,
                body: ba,
            },
            TraitItemView::Function {
                name: nb,
                generics: gb,
                parameters: pb,
                return_type: rb,
                where_clause: wb,
                body: bb,
            },
        ) => {
            &&& same_shape_ident(na, nb)
            &&& same_shape_generics(ga, gb)
            &&& same_shape_ident_types(pa, pb)
            &&& same_shape_function_return_type(ra, rb)
            &&& same_shape_constraints(wa, wb)
            &&& match (ba, bb) {
                (Option::Some(xa), Option::Some(xb)) => same_shape_block_expression(xa, xb),
                (Option::None, Option::None) => true,
                _ => false,
            }
        },
        (
            TraitItemView::Constant { name: na, typ: ta, default_value: da },
            TraitItemView::Constant { name: nb, typ: tb, default_value: db },
        ) => {
            &&& same_shape_ident(na, nb)
            &&& same_shape_unresolved_type(ta, tb)
            &&& match (da, db) {
                (Option::Some(xa), Option::Some(xb)) => same_shape_expression(xa, xb),
                (Option::None, Option::None) => true,
                _ => false,
            }
        },
        (TraitItemView::Type { name: na }, TraitItemView::Type { name: nb }) => same_shape_ident(
            na,
            nb,
        ),
        _ => false,
    }
}

pub open spec fn same_shape_noir_trait_impl(a: NoirTraitImplView, b: NoirTraitImplView) -> bool
    decreases a,
{
    &&& same_shape_path(a.trait_name, b.trait_name)
    &&& same_shape_generics(a.impl_generics, b.impl_generics)
    &&& same_shape_unresolved_type(a.object_type, b.object_type)
    &&& same_shape_constraints(a.where_clause, b.where_clause)
    &&& same_shape_trait_impl_items(a.items, b.items)
}

pub open spec fn same_shape_trait_impl_items(
    a: Seq<TraitImplItemView>,
    b: Seq<TraitImplItemView>,
) -> bool
    decreases a,
{
    a.len() == b.len() && (a.len() == 0 || (same_shape_trait_impl_items(
        a.subrange(0, a.len() - 1),
        b.subrange(0, b.len() - 1),
    ) && same_shape_trait_impl_item(a[a.len() - 1], b[b.len() - 1])))
}

pub open spec fn same_shape_trait_impl_item(a: TraitImplItemView, b: TraitImplItemView) -> bool
    decreases a,
{
    match (a, b) {
        (TraitImplItemView::Function(fa), TraitImplItemView::Function(fb)) => (
            same_shape_noir_function(fa, fb)
        ),
        (
            TraitImplItemView::Constant(na, ta, da),
            TraitImplItemView::Constant(nb, tb, db),
        ) => same_shape_ident(na, nb) && same_shape_unresolved_type(ta, tb)
            && same_shape_expression(da, db),
        (
            TraitImplItemView::Type { name: na, alias: aa },
            TraitImplItemView::Type { name: nb, alias: ab },
        ) => same_shape_ident(na, nb) && same_shape_unresolved_type(aa, ab),
        _ => false,
    }
}

pub open spec fn same_shape_type_impl(a: TypeImplView, b: TypeImplView) -> bool
    decreases a,
{
    &&& same_shape_unresolved_type(a.object_type, b.object_type)
    &&& same_shape_generics(a.generics, b.generics)
    &&& same_shape_constraints(a.where_clause, b.where_clause)
    &&& same_shape_methods(a.methods, b.methods)
}

pub open spec fn same_shape_methods(
    a: Seq<(NoirFunctionView, Span)>,
    b: Seq<(NoirFunctionView, Span)>,
) -> bool
    decreases a,
{
    a.len() == b.len() && (a.len() == 0 || (same_shape_methods(
        a.subrange(0, a.len() - 1),
        b.subrange(0, b.len() - 1),
    ) && same_shape_noir_function(a[a.len() - 1].0, b[b.len() - 1].0) && a[a.len() - 1].1 == b[b.len()
        - 1].1))
}

pub open spec fn same_shape_use_tree(a: UseTreeView, b: UseTreeView) -> bool
    decreases a,
{
    same_shape_path(a.prefix, b.prefix) && same_shape_use_tree_kind(a.kind, b.kind)
}

pub open spec fn same_shape_use_tree_kind(a: UseTreeKindView, b: UseTreeKindView) -> bool
    decreases a,
{
    match (a, b) {
        (UseTreeKindView::Path(na, aa), UseTreeKindView::Path(nb, ab)) => same_shape_ident(na, nb)
            && match (aa, ab) {
            (Option::Some(xa), Option::Some(xb)) => same_shape_ident(xa, xb),
            (Option::None, Option::None) => true,
            _ => false,
        },
        (UseTreeKindView::List(ta), UseTreeKindView::List(tb)) => same_shape_use_trees(ta, tb),
        _ => false,
    }
}

pub open spec fn same_shape_use_trees(a: Seq<UseTreeView>, b: Seq<UseTreeView>) -> bool
    decreases a,
{
    a.len() == b.len() && (a.len() == 0 || (same_shape_use_trees(
        a.subrange(0, a.len() - 1),
        b.subrange(0, b.len() - 1),
    ) && same_shape_use_tree(a[a.len() - 1], b[b.len() - 1])))
}

pub open spec fn same_shape_noir_struct(a: NoirStructView, b: NoirStructView) -> bool
    decreases a,
{
    &&& same_shape_ident(a.name, b.name)
    &&& same_shape_ident_types(a.fields, b.fields)
    &&& same_shape_generics(a.generics, b.generics)
}

pub open spec fn same_shape_let_statement(a: LetStatementView, b: LetStatementView) -> bool
    decreases a,
{
    &&& same_shape_pattern(a.pattern, b.pattern)
    &&& same_shape_unresolved_type(a.typ, b.typ)
    &&& same_shape_expression(a.expression, b.expression)
}

pub open spec fn same_shape_block_expression(a: BlockExpressionView, b: BlockExpressionView) -> bool
    decreases a,
{
    same_shape_statements(a.statements, b.statements)
}

pub open spec fn same_shape_statements(a: Seq<StatementView>, b: Seq<StatementView>) -> bool
    decreases a,
{
    a.len() == b.len() && (a.len() == 0 || (same_shape_statements(
        a.subrange(0, a.len() - 1),
        b.subrange(0, b.len() - 1),
    ) && same_shape_statement(a[a.len() - 1], b[b.len() - 1])))
}

pub open spec fn same_shape_statement(a: StatementView, b: StatementView) -> bool
    decreases a,
{
    same_shape_statement_kind(a.kind, b.kind)
}

pub open spec fn same_shape_statement_kind(a: StatementKindView, b: StatementKindView) -> bool
    decreases a,
{
    match (a, b) {
        (StatementKindView::Let(la), StatementKindView::Let(lb)) => same_shape_let_statement(
            la,
            lb,
        ),
        (StatementKindView::Constrain(ca), StatementKindView::Constrain(cb)) => (
            same_shape_expression(ca.0, cb.0) && match (ca.1, cb.1) {
                (Option::Some(xa), Option::Some(xb)) => same_shape_expression(xa, xb),
                (Option::None, Option::None) => true,
                _ => false,
            }
        ),
        (StatementKindView::Expression(ea), StatementKindView::Expression(eb)) => (
            same_shape_expression(ea, eb)
        ),
        (StatementKindView::Assign(aa), StatementKindView::Assign(ab)) => same_shape_lvalue(
            aa.lvalue,
            ab.lvalue,
        ) && same_shape_expression(aa.expression, ab.expression),
        (StatementKindView::For(fa), StatementKindView::For(fb)) => {
            &&& same_shape_ident(fa.identifier, fb.identifier)
            &&& same_shape_for_range(fa.range, fb.range)
            &&& same_shape_expression(fa.block, fb.block)
        },
        (StatementKindView::Comptime(sa), StatementKindView::Comptime(sb)) => (
            same_shape_statement(*sa, *sb)
        ),
        (StatementKindView::Semi(ea), StatementKindView::Semi(eb)) => same_shape_expression(ea, eb),
        (StatementKindView::Break, StatementKindView::Break) => true,
        (StatementKindView::Continue, StatementKindView::Continue) => true,
        (StatementKindView::Error, StatementKindView::Error) => true,
        _ => false,
    }
}

pub open spec fn same_shape_lvalue(a: LValueView, b: LValueView) -> bool
    decreases a,
{
    match (a, b) {
        (LValueView::Ident(ia), LValueView::Ident(ib)) => same_shape_ident(ia, ib),
        (
            LValueView::MemberAccess { object: oa, field_name: fa, span: sa },
            LValueView::MemberAccess { object: ob, field_name: fb, span: sb },
        ) => same_shape_lvalue(*oa, *ob) && same_shape_ident(fa, fb) && sa == sb,
        (
            LValueView::Index { array: aa, index: ia, span: sa },
            LValueView::Index { array: ab, index: ib, span: sb },
        ) => same_shape_lvalue(*aa, *ab) && same_shape_expression(ia, ib) && sa == sb,
        (LValueView::Dereference(la, sa), LValueView::Dereference(lb, sb)) => same_shape_lvalue(
            *la,
            *lb,
        ) && sa == sb,
        _ => false,
    }
}

pub open spec fn same_shape_for_range(a: ForRangeView, b: ForRangeView) -> bool
    decreases a,
{
    match (a, b) {
        (ForRangeView::Range(fa, ta), ForRangeView::Range(fb, tb)) => same_shape_expression(fa, fb)
            && same_shape_expression(ta, tb),
        (ForRangeView::Array(ea), ForRangeView::Array(eb)) => same_shape_expression(ea, eb),
        _ => false,
    }
}

pub open spec fn same_shape_expressions(a: Seq<ExpressionView>, b: Seq<ExpressionView>) -> bool
    decreases a,
{
    a.len() == b.len() && (a.len() == 0 || (same_shape_expressions(
        a.subrange(0, a.len() - 1),
        b.subrange(0, b.len() - 1),
    ) && same_shape_expression(a[a.len() - 1], b[b.len() - 1])))
}

pub open spec fn same_shape_expression(a: ExpressionView, b: ExpressionView) -> bool
    decreases a,
{
    same_shape_expression_kind(a.kind, b.kind)
}

pub open spec fn same_shape_expression_kind(a: ExpressionKindView, b: ExpressionKindView) -> bool
    decreases a,
{
    match (a, b) {
        (ExpressionKindView::Literal(la), ExpressionKindView::Literal(lb)) => same_shape_literal(
            la,
            lb,
        ),
        (ExpressionKindView::Block(ba), ExpressionKindView::Block(bb)) => (
            same_shape_block_expression(ba, bb)
        ),
        (ExpressionKindView::Prefix(pa), ExpressionKindView::Prefix(pb)) => pa.operator
            == pb.operator && same_shape_expression(pa.rhs, pb.rhs),
        (ExpressionKindView::Index(ia), ExpressionKindView::Index(ib)) => same_shape_expression(
            ia.collection,
            ib.collection,
        ) && same_shape_expression(ia.index, ib.index),
        (ExpressionKindView::Call(ca), ExpressionKindView::Call(cb)) => same_shape_expression(
            ca.func,
            cb.func,
        ) && same_shape_expressions(ca.arguments, cb.arguments),
        (ExpressionKindView::MethodCall(ma), ExpressionKindView::MethodCall(mb)) => {
            &&& same_shape_expression(ma.object, mb.object)
            &&& same_shape_ident(ma.method_name, mb.method_name)
            &&& match (ma.generics, mb.generics) {
                (Option::Some(ta), Option::Some(tb)) => same_shape_unresolved_types(ta, tb),
                (Option::None, Option::None) => true,
                _ => false,
            }
            &&& same_shape_expressions(ma.arguments, mb.arguments)
        },
        (ExpressionKindView::Constructor(ca), ExpressionKindView::Constructor(cb)) => (
            same_shape_path(ca.type_path, cb.type_path) && same_shape_ident_expressions(
                ca.fields,
                cb.fields,
            )
        ),
        (ExpressionKindView::MemberAccess(ma), ExpressionKindView::MemberAccess(mb)) => (
            same_shape_expression(ma.lhs, mb.lhs) && same_shape_ident(ma.rhs, mb.rhs)
        ),
        (ExpressionKindView::Cast(ca), ExpressionKindView::Cast(cb)) => same_shape_expression(
            ca.lhs,
            cb.lhs,
        ) && same_shape_unresolved_type(ca.typ, cb.typ),
        (ExpressionKindView::Infix(ia), ExpressionKindView::Infix(ib)) => {
            &&& same_shape_expression(ia.lhs, ib.lhs)
            &&& ia.operator == ib.operator
            &&& same_shape_expression(ia.rhs, ib.rhs)
        },
        (ExpressionKindView::If(ia), ExpressionKindView::If(ib)) => {
            &&& same_shape_expression(ia.condition, ib.condition)
            &&& same_shape_expression(ia.consequence, ib.consequence)
            &&& match (ia.alternative, ib.alternative) {
                (Option::Some(xa), Option::Some(xb)) => same_shape_expression(xa, xb),
                (Option::None, Option::None) => true,
                _ => false,
            }
        },
        (ExpressionKindView::Variable(pa), ExpressionKindView::Variable(pb)) => same_shape_path(
            pa,
            pb,
        ),
        (ExpressionKindView::Tuple(ea), ExpressionKindView::Tuple(eb)) => same_shape_expressions(
            ea,
            eb,
        ),
        (ExpressionKindView::Lambda(la), ExpressionKindView::Lambda(lb)) => {
            &&& same_shape_pattern_types(la.parameters, lb.parameters)
            &&& same_shape_unresolved_type(la.return_type, lb.return_type)
            &&& same_shape_expression(la.body, lb.body)
        },
        (ExpressionKindView::Parenthesized(ea), ExpressionKindView::Parenthesized(eb)) => (
            same_shape_expression(*ea, *eb)
        ),
        (ExpressionKindView::Quote(ta), ExpressionKindView::Quote(tb)) => ta == tb,
        (ExpressionKindView::Unquote(ea), ExpressionKindView::Unquote(eb)) => same_shape_expression(
            *ea,
            *eb,
        ),
        (ExpressionKindView::Comptime(ba, sa), ExpressionKindView::Comptime(bb, sb)) => (
            same_shape_block_expression(ba, bb) && sa == sb
        ),
        (ExpressionKindView::Resolved(ia), ExpressionKindView::Resolved(ib)) => ia == ib,
        (ExpressionKindView::Error, ExpressionKindView::Error) => true,
        _ => false,
    }
}

pub open spec fn same_shape_literal(a: LiteralView, b: LiteralView) -> bool
    decreases a,
{
    match (a, b) {
        (LiteralView::Array(aa), LiteralView::Array(ab)) => same_shape_array_literal(aa, ab),
        (LiteralView::Slice(aa), LiteralView::Slice(ab)) => same_shape_array_literal(aa, ab),
        (LiteralView::Bool(ba), LiteralView::Bool(bb)) => ba == bb,
        (LiteralView::Integer(va, sa), LiteralView::Integer(vb, sb)) => va == vb && sa == sb,
        (LiteralView::Str(sa), LiteralView::Str(sb)) => sa == sb,
        (LiteralView::RawStr(sa, ha), LiteralView::RawStr(sb, hb)) => sa == sb && ha == hb,
        (LiteralView::FmtStr(sa), LiteralView::FmtStr(sb)) => sa == sb,
        (LiteralView::Unit, LiteralView::Unit) => true,
        _ => false,
    }
}

pub open spec fn same_shape_array_literal(a: ArrayLiteralView, b: ArrayLiteralView) -> bool
    decreases a,
{
    match (a, b) {
        (ArrayLiteralView::Standard(ea), ArrayLiteralView::Standard(eb)) => same_shape_expressions(
            ea,
            eb,
        ),
        (
            ArrayLiteralView::Repeated { repeated_element: ra, length: la },
            ArrayLiteralView::Repeated { repeated_element: rb, length: lb },
        ) => same_shape_expression(*ra, *rb) && same_shape_expression(*la, *lb),
        _ => false,
    }
}

pub open spec fn same_shape_ident_expressions(
    a: Seq<(IdentView, ExpressionView)>,
    b: Seq<(IdentView, ExpressionView)>,
) -> bool
    decreases a,
{
    a.len() == b.len() && (a.len() == 0 || (same_shape_ident_expressions(
        a.subrange(0, a.len() - 1),
        b.subrange(0, b.len() - 1),
    ) && same_shape_ident(a[a.len() - 1].0, b[b.len() - 1].0) && same_shape_expression(
        a[a.len() - 1].1,
        b[b.len() - 1].1,
    )))
}

pub open spec fn same_shape_pattern_types(
    a: Seq<(PatternView, UnresolvedTypeView)>,
    b: Seq<(PatternView, UnresolvedTypeView)>,
) -> bool
    decreases a,
{
    a.len() == b.len() && (a.len() == 0 || (same_shape_pattern_types(
        a.subrange(0, a.len() - 1),
        b.subrange(0, b.len() - 1),
    ) && same_shape_pattern(a[a.len() - 1].0, b[b.len() - 1].0) && same_shape_unresolved_type(
        a[a.len() - 1].1,
        b[b.len() - 1].1,
    )))
}

pub open spec fn same_shape_unresolved_types(
    a: Seq<UnresolvedTypeView>,
    b: Seq<UnresolvedTypeView>,
) -> bool
    decreases a,
{
    a.len() == b.len() && (a.len() == 0 || (same_shape_unresolved_types(
        a.subrange(0, a.len() - 1),
        b.subrange(0, b.len() - 1),
    ) && same_shape_unresolved_type(a[a.len() - 1], b[b.len() - 1])))
}

pub open spec fn same_shape_unresolved_type(a: UnresolvedTypeView, b: UnresolvedTypeView) -> bool
    decreases a,
{
    same_shape_unresolved_type_data(a.typ, b.typ)
}

pub open spec fn same_shape_unresolved_type_data(
    a: UnresolvedTypeDataView,
    b: UnresolvedTypeDataView,
) -> bool
    decreases a,
{
    match (a, b) {
        (
            UnresolvedTypeDataView::Array(sa, ea),
            UnresolvedTypeDataView::Array(sb, eb),
        ) => same_shape_unresolved_type_expression(sa, sb) && same_shape_unresolved_type(*ea, *eb),
        (UnresolvedTypeDataView::Slice(ea), UnresolvedTypeDataView::Slice(eb)) => (
            same_shape_unresolved_type(*ea, *eb)
        ),
        (UnresolvedTypeDataView::Expression(ea), UnresolvedTypeDataView::Expression(eb)) => (
            same_shape_unresolved_type_expression(ea, eb)
        ),
        (
            UnresolvedTypeDataView::FormatString(sa, ea),
            UnresolvedTypeDataView::FormatString(sb, eb),
        ) => same_shape_unresolved_type_expression(sa, sb) && same_shape_unresolved_type(*ea, *eb),
        (UnresolvedTypeDataView::Parenthesized(ea), UnresolvedTypeDataView::Parenthesized(eb)) => (
            same_shape_unresolved_type(*ea, *eb)
        ),
        (
            UnresolvedTypeDataView::Named(pa, aa, wa),
            UnresolvedTypeDataView::Named(pb, ab, wb),
        ) => same_shape_path(pa, pb) && same_shape_unresolved_types(aa, ab) && wa == wb,
        (
            UnresolvedTypeDataView::TraitAsType(pa, aa),
            UnresolvedTypeDataView::TraitAsType(pb, ab),
        ) => same_shape_path(pa, pb) && same_shape_unresolved_types(aa, ab),
        (
            UnresolvedTypeDataView::MutableReference(ea),
            UnresolvedTypeDataView::MutableReference(eb),
        ) => same_shape_unresolved_type(*ea, *eb),
        (UnresolvedTypeDataView::Tuple(ea), UnresolvedTypeDataView::Tuple(eb)) => (
            same_shape_unresolved_types(ea, eb)
        ),
        (
            UnresolvedTypeDataView::Function(aa, ra, ea),
            UnresolvedTypeDataView::Function(ab, rb, eb),
        ) => same_shape_unresolved_types(aa, ab) && same_shape_unresolved_type(*ra, *rb) && ea
            == eb,
        (UnresolvedTypeDataView::FieldElement, UnresolvedTypeDataView::FieldElement) => true,
        (
            UnresolvedTypeDataView::Integer(sa, ba),
            UnresolvedTypeDataView::Integer(sb, bb),
        ) => sa == sb && ba == bb,
        (UnresolvedTypeDataView::Bool, UnresolvedTypeDataView::Bool) => true,
        (UnresolvedTypeDataView::String(la), UnresolvedTypeDataView::String(lb)) => la == lb,
        (UnresolvedTypeDataView::Unit, UnresolvedTypeDataView::Unit) => true,
        (UnresolvedTypeDataView::Quoted(qa), UnresolvedTypeDataView::Quoted(qb)) => qa == qb,
        (UnresolvedTypeDataView::Resolved(ia), UnresolvedTypeDataView::Resolved(ib)) => ia == ib,
        (UnresolvedTypeDataView::Unspecified, UnresolvedTypeDataView::Unspecified) => true,
        (UnresolvedTypeDataView::Error, UnresolvedTypeDataView::Error) => true,
        _ => false,
    }
}

pub open spec fn same_shape_unresolved_type_expression(
    a: UnresolvedTypeExpressionView,
    b: UnresolvedTypeExpressionView,
) -> bool
    decreases a,
{
    match (a, b) {
        (
            UnresolvedTypeExpressionView::Variable(pa),
            UnresolvedTypeExpressionView::Variable(pb),
        ) => same_shape_path(pa, pb),
        (
            UnresolvedTypeExpressionView::BinaryOperation(la, oa, ra, sa),
            UnresolvedTypeExpressionView::BinaryOperation(lb, ob, rb, sb),
        ) => {
            &&& same_shape_unresolved_type_expression(*la, *lb)
            &&& oa == ob
            &&& same_shape_unresolved_type_expression(*ra, *rb)
            &&& sa == sb
        },
        (
            UnresolvedTypeExpressionView::Constant(va, sa),
            UnresolvedTypeExpressionView::Constant(vb, sb),
        ) => va == vb && sa == sb,
        _ => false,
    }
}

pub open spec fn same_shape_generics(
    a: Seq<UnresolvedGenericView>,
    b: Seq<UnresolvedGenericView>,
) -> bool
    decreases a,
{
    a.len() == b.len() && (a.len() == 0 || (same_shape_generics(
        a.subrange(0, a.len() - 1),
        b.subrange(0, b.len() - 1),
    ) && same_shape_unresolved_generic(a[a.len() - 1], b[b.len() - 1])))
}

pub open spec fn same_shape_unresolved_generic(
    a: UnresolvedGenericView,
    b: UnresolvedGenericView,
) -> bool
    decreases a,
{
    match (a, b) {
        (UnresolvedGenericView::Variable(ia), UnresolvedGenericView::Variable(ib)) => (
            same_shape_ident(ia, ib)
        ),
        (
            UnresolvedGenericView::Numeric { ident: ia, typ: ta },
            UnresolvedGenericView::Numeric { ident: ib, typ: tb },
        ) => same_shape_ident(ia, ib) && same_shape_unresolved_type(ta, tb),
        _ => false,
    }
}

pub open spec fn same_shape_constraints(
    a: Seq<UnresolvedTraitConstraintView>,
    b: Seq<UnresolvedTraitConstraintView>,
) -> bool
    decreases a,
{
    a.len() == b.len() && (a.len() == 0 || (same_shape_constraints(
        a.subrange(0, a.len() - 1),
        b.subrange(0, b.len() - 1),
    ) && same_shape_unresolved_type(a[a.len() - 1].typ, b[b.len() - 1].typ)))
}

pub open spec fn same_shape_function_return_type(
    a: FunctionReturnTypeView,
    b: FunctionReturnTypeView,
) -> bool
    decreases a,
{
    match (a, b) {
        (FunctionReturnTypeView::Default(sa), FunctionReturnTypeView::Default(sb)) => sa == sb,
        (FunctionReturnTypeView::Ty(ta), FunctionReturnTypeView::Ty(tb)) => (
            same_shape_unresolved_type(ta, tb)
        ),
        _ => false,
    }
}

pub open spec fn same_shape_patterns(a: Seq<PatternView>, b: Seq<PatternView>) -> bool
    decreases a,
{
    a.len() == b.len() && (a.len() == 0 || (same_shape_patterns(
        a.subrange(0, a.len() - 1),
        b.subrange(0, b.len() - 1),
    ) && same_shape_pattern(a[a.len() - 1], b[b.len() - 1])))
}

pub open spec fn same_shape_ident_patterns(
    a: Seq<(IdentView, PatternView)>,
    b: Seq<(IdentView, PatternView)>,
) -> bool
    decreases a,
{
    a.len() == b.len() && (a.len() == 0 || (same_shape_ident_patterns(
        a.subrange(0, a.len() - 1),
        b.subrange(0, b.len() - 1),
    ) && same_shape_ident(a[a.len() - 1].0, b[b.len() - 1].0) && same_shape_pattern(
        a[a.len() - 1].1,
        b[b.len() - 1].1,
    )))
}

pub open spec fn same_shape_ident_types(
    a: Seq<(IdentView, UnresolvedTypeView)>,
    b: Seq<(IdentView, UnresolvedTypeView)>,
) -> bool
    decreases a,
{
    a.len() == b.len() && (a.len() == 0 || (same_shape_ident_types(
        a.subrange(0, a.len() - 1),
        b.subrange(0, b.len() - 1),
    ) && same_shape_ident(a[a.len() - 1].0, b[b.len() - 1].0) && same_shape_unresolved_type(
        a[a.len() - 1].1,
        b[b.len() - 1].1,
    )))
}

pub open spec fn same_shape_pattern(a: PatternView, b: PatternView) -> bool
    decreases a,
{
    match (a, b) {
        (PatternView::Identifier(ia), PatternView::Identifier(ib)) => same_shape_ident(ia, ib),
        (PatternView::Mutable(pa, sa, ma), PatternView::Mutable(pb, sb, mb)) => same_shape_pattern(
            *pa,
            *pb,
        ) && sa == sb && ma == mb,
        (PatternView::Tuple(ea, sa), PatternView::Tuple(eb, sb)) => same_shape_patterns(ea, eb)
            && sa == sb,
        (PatternView::Struct(pa, fa, sa), PatternView::Struct(pb, fb, sb)) => {
            &&& same_shape_path(pa, pb)
            &&& same_shape_ident_patterns(fa, fb)
            &&& sa == sb
        },
        _ => false,
    }
}

pub proof fn lemma_shape_path_segments(s: Seq<PathSegmentView>)
    ensures
        same_shape_path_segments(s, erase_path_segments(s)),
    decreases s,
{
    if s.len() > 0 {
        let prefix = s.subrange(0, s.len() - 1);
        lemma_shape_path_segments(prefix);
        let ep = erase_path_segments(prefix);
        let el = erase_path_segment(s[s.len() - 1]);
        assert(ep.push(el).subrange(0, ep.push(el).len() - 1) =~= ep);
    }
}

pub proof fn lemma_shape_path(p: PathView)
    ensures
        same_shape_path(p, erase_path(p)),
    decreases p,
{
    lemma_shape_path_segments(p.segments);
}

pub proof fn lemma_shape_parsed_module(m: ParsedModuleView)
    ensures
        same_shape_parsed_module(m, erase_parsed_module(m)),
    decreases m,
{
    lemma_shape_items(m.items);
}

pub proof fn lemma_shape_items(s: Seq<ItemView>)
    ensures
        same_shape_items(s, erase_items(s)),
    decreases s,
{
    if s.len() > 0 {
        let prefix = s.subrange(0, s.len() - 1);
        lemma_shape_items(prefix);
        lemma_shape_item(s[s.len() - 1]);
        let ep = erase_items(prefix);
        let el = erase_item(s[s.len() - 1]);
        assert(ep.push(el).subrange(0, ep.push(el).len() - 1) =~= ep);
    }
}

pub proof fn lemma_shape_item(i: ItemView)
    ensures
        same_shape_item(i, erase_item(i)),
    decreases i,
{
    lemma_shape_item_kind(i.kind);
}

pub proof fn lemma_shape_item_kind(k: ItemKindView)
    ensures
        same_shape_item_kind(k, erase_item_kind(k)),
    decreases k,
{
    match k {
        ItemKindView::Function(f) => lemma_shape_noir_function(f),
        ItemKindView::Trait(t) => lemma_shape_noir_trait(t),
        ItemKindView::TraitImpl(t) => lemma_shape_noir_trait_impl(t),
        ItemKindView::Impl(t) => lemma_shape_type_impl(t),
        ItemKindView::Global(g) => lemma_shape_let_statement(g),
        ItemKindView::Submodules(s) => lemma_shape_parsed_module(s.contents),
        ItemKindView::ModuleDecl(_m) => {},
        ItemKindView::Import(u) => lemma_shape_use_tree(u),
        ItemKindView::Struct(s) => lemma_shape_noir_struct(s),
        ItemKindView::TypeAlias(a) => lemma_shape_unresolved_type(a.typ),
    }
}

pub proof fn lemma_shape_noir_function(f: NoirFunctionView)
    ensures
        same_shape_noir_function(f, erase_noir_function(f)),
    decreases f,
{
    lemma_shape_generics(f.generics);
    lemma_shape_params(f.parameters);
    lemma_shape_constraints(f.where_clause);
    lemma_shape_function_return_type(f.return_type);
    lemma_shape_block_expression(f.body);
}

pub proof fn lemma_shape_param(p: ParamView)
    ensures
        same_shape_param(p, erase_param(p)),
    decreases p,
{
    lemma_shape_pattern(p.pattern);
    lemma_shape_unresolved_type(p.typ);
}

pub proof fn lemma_shape_params(s: Seq<ParamView>)
    ensures
        same_shape_params(s, erase_params(s)),
    decreases s,
{
    if s.len() > 0 {
        let prefix = s.subrange(0, s.len() - 1);
        lemma_shape_params(prefix);
        lemma_shape_param(s[s.len() - 1]);
        let ep = erase_params(prefix);
        let el = erase_param(s[s.len() - 1]);
        assert(ep.push(el).subrange(0, ep.push(el).len() - 1) =~= ep);
    }
}

pub proof fn lemma_shape_noir_trait(t: NoirTraitView)
    ensures
        same_shape_noir_trait(t, erase_noir_trait(t)),
    decreases t,
{
    lemma_shape_generics(t.generics);
    lemma_shape_constraints(t.where_clause);
    lemma_shape_trait_items(t.items);
}

pub proof fn lemma_shape_trait_items(s: Seq<TraitItemView>)
    ensures
        same_shape_trait_items(s, erase_trait_items(s)),
    decreases s,
{
    if s.len() > 0 {
        let prefix = s.subrange(0, s.len() - 1);
        lemma_shape_trait_items(prefix);
        lemma_shape_trait_item(s[s.len() - 1]);
        let ep = erase_trait_items(prefix);
        let el = erase_trait_item(s[s.len() - 1]);
        assert(ep.push(el).subrange(0, ep.push(el).len() - 1) =~= ep);
    }
}

pub proof fn lemma_shape_trait_item(t: TraitItemView)
    ensures
        same_shape_trait_item(t, erase_trait_item(t)),
    decreases t,
{
    match t {
        TraitItemView::Function { name: _, generics, parameters, return_type, where_clause, body } => {
            lemma_shape_generics(generics);
            lemma_shape_ident_types(parameters);
            lemma_shape_function_return_type(return_type);
            lemma_shape_constraints(where_clause);
            match body {
                Option::Some(b) => lemma_shape_block_expression(b),
                Option::None => {},
            }
        },
        TraitItemView::Constant { name: _, typ, default_value } => {
            lemma_shape_unresolved_type(typ);
            match default_value {
                Option::Some(e) => lemma_shape_expression(e),
                Option::None => {},
            }
        },
        TraitItemView::Type { name: _ } => {},
    }
}

pub proof fn lemma_shape_noir_trait_impl(t: NoirTraitImplView)
    ensures
        same_shape_noir_trait_impl(t, erase_noir_trait_impl(t)),
    decreases t,
{
    lemma_shape_path(t.trait_name);
    lemma_shape_generics(t.impl_generics);
    lemma_shape_unresolved_type(t.object_type);
    lemma_shape_constraints(t.where_clause);
    lemma_shape_trait_impl_items(t.items);
}

pub proof fn lemma_shape_trait_impl_items(s: Seq<TraitImplItemView>)
    ensures
        same_shape_trait_impl_items(s, erase_trait_impl_items(s)),
    decreases s,
{
    if s.len() > 0 {
        let prefix = s.subrange(0, s.len() - 1);
        lemma_shape_trait_impl_items(prefix);
        lemma_shape_trait_impl_item(s[s.len() - 1]);
        let ep = erase_trait_impl_items(prefix);
        let el = erase_trait_impl_item(s[s.len() - 1]);
        assert(ep.push(el).subrange(0, ep.push(el).len() - 1) =~= ep);
    }
}

pub proof fn lemma_shape_trait_impl_item(t: TraitImplItemView)
    ensures
        same_shape_trait_impl_item(t, erase_trait_impl_item(t)),
    decreases t,
{
    match t {
        TraitImplItemView::Function(f) => lemma_shape_noir_function(f),
        TraitImplItemView::Constant(_name, typ, default_value) => {
            lemma_shape_unresolved_type(typ);
            lemma_shape_expression(default_value);
        },
        TraitImplItemView::Type { name: _, alias } => lemma_shape_unresolved_type(alias),
    }
}

pub proof fn lemma_shape_type_impl(t: TypeImplView)
    ensures
        same_shape_type_impl(t, erase_type_impl(t)),
    decreases t,
{
    lemma_shape_unresolved_type(t.object_type);
    lemma_shape_generics(t.generics);
    lemma_shape_constraints(t.where_clause);
    lemma_shape_methods(t.methods);
}

pub proof fn lemma_shape_methods(s: Seq<(NoirFunctionView, Span)>)
    ensures
        same_shape_methods(s, erase_methods(s)),
    decreases s,
{
    if s.len() > 0 {
        let prefix = s.subrange(0, s.len() - 1);
        lemma_shape_methods(prefix);
        lemma_shape_noir_function(s[s.len() - 1].0);
        let ep = erase_methods(prefix);
        let el = (erase_noir_function(s[s.len() - 1].0), s[s.len() - 1].1);
        assert(ep.push(el).subrange(0, ep.push(el).len() - 1) =~= ep);
    }
}

pub proof fn lemma_shape_use_tree(u: UseTreeView)
    ensures
        same_shape_use_tree(u, erase_use_tree(u)),
    decreases u,
{
    lemma_shape_path(u.prefix);
    lemma_shape_use_tree_kind(u.kind);
}

pub proof fn lemma_shape_use_tree_kind(k: UseTreeKindView)
    ensures
        same_shape_use_tree_kind(k, erase_use_tree_kind(k)),
    decreases k,
{
    match k {
        UseTreeKindView::Path(_name, _alias) => {},
        UseTreeKindView::List(trees) => lemma_shape_use_trees(trees),
    }
}

pub proof fn lemma_shape_use_trees(s: Seq<UseTreeView>)
    ensures
        same_shape_use_trees(s, erase_use_trees(s)),
    decreases s,
{
    if s.len() > 0 {
        let prefix = s.subrange(0, s.len() - 1);
        lemma_shape_use_trees(prefix);
        lemma_shape_use_tree(s[s.len() - 1]);
        let ep = erase_use_trees(prefix);
        let el = erase_use_tree(s[s.len() - 1]);
        assert(ep.push(el).subrange(0, ep.push(el).len() - 1) =~= ep);
    }
}

pub proof fn lemma_shape_noir_struct(s: NoirStructView)
    ensures
        same_shape_noir_struct(s, erase_noir_struct(s)),
    decreases s,
{
    lemma_shape_ident_types(s.fields);
    lemma_shape_generics(s.generics);
}

pub proof fn lemma_shape_let_statement(l: LetStatementView)
    ensures
        same_shape_let_statement(l, erase_let_statement(l)),
    decreases l,
{
    lemma_shape_pattern(l.pattern);
    lemma_shape_unresolved_type(l.typ);
    lemma_shape_expression(l.expression);
}

pub proof fn lemma_shape_block_expression(b: BlockExpressionView)
    ensures
        same_shape_block_expression(b, erase_block_expression(b)),
    decreases b,
{
    lemma_shape_statements(b.statements);
}

pub proof fn lemma_shape_statements(s: Seq<StatementView>)
    ensures
        same_shape_statements(s, erase_statements(s)),
    decreases s,
{
    if s.len() > 0 {
        let prefix = s.subrange(0, s.len() - 1);
        lemma_shape_statements(prefix);
        lemma_shape_statement(s[s.len() - 1]);
        let ep = erase_statements(prefix);
        let el = erase_statement(s[s.len() - 1]);
        assert(ep.push(el).subrange(0, ep.push(el).len() - 1) =~= ep);
    }
}

pub proof fn lemma_shape_statement(s: StatementView)
    ensures
        same_shape_statement(s, erase_statement(s)),
    decreases s,
{
    lemma_shape_statement_kind(s.kind);
}

pub proof fn lemma_shape_statement_kind(k: StatementKindView)
    ensures
        same_shape_statement_kind(k, erase_statement_kind(k)),
    decreases k,
{
    match k {
        StatementKindView::Let(l) => lemma_shape_let_statement(l),
        StatementKindView::Constrain(c) => {
            lemma_shape_expression(c.0);
            match c.1 {
                Option::Some(e) => lemma_shape_expression(e),
                Option::None => {},
            }
        },
        StatementKindView::Expression(e) => lemma_shape_expression(e),
        StatementKindView::Assign(a) => {
            lemma_shape_lvalue(a.lvalue);
            lemma_shape_expression(a.expression);
        },
        StatementKindView::For(f) => {
            lemma_shape_for_range(f.range);
            lemma_shape_expression(f.block);
        },
        StatementKindView::Comptime(s) => lemma_shape_statement(*s),
        StatementKindView::Semi(e) => lemma_shape_expression(e),
        StatementKindView::Break => {},
        StatementKindView::Continue => {},
        StatementKindView::Error => {},
    }
}

pub proof fn lemma_shape_lvalue(l: LValueView)
    ensures
        same_shape_lvalue(l, erase_lvalue(l)),
    decreases l,
{
    match l {
        LValueView::Ident(_i) => {},
        LValueView::MemberAccess { object, field_name: _, span: _ } => lemma_shape_lvalue(*object),
        LValueView::Index { array, index, span: _ } => {
            lemma_shape_lvalue(*array);
            lemma_shape_expression(index);
        },
        LValueView::Dereference(inner, _) => lemma_shape_lvalue(*inner),
    }
}

pub proof fn lemma_shape_for_range(r: ForRangeView)
    ensures
        same_shape_for_range(r, erase_for_range(r)),
    decreases r,
{
    match r {
        ForRangeView::Range(from, to) => {
            lemma_shape_expression(from);
            lemma_shape_expression(to);
        },
        ForRangeView::Array(e) => lemma_shape_expression(e),
    }
}

pub proof fn lemma_shape_expressions(s: Seq<ExpressionView>)
    ensures
        same_shape_expressions(s, erase_expressions(s)),
    decreases s,
{
    if s.len() > 0 {
        let prefix = s.subrange(0, s.len() - 1);
        lemma_shape_expressions(prefix);
        lemma_shape_expression(s[s.len() - 1]);
        let ep = erase_expressions(prefix);
        let el = erase_expression(s[s.len() - 1]);
        assert(ep.push(el).subrange(0, ep.push(el).len() - 1) =~= ep);
    }
}

pub proof fn lemma_shape_expression(e: ExpressionView)
    ensures
        same_shape_expression(e, erase_expression(e)),
    decreases e,
{
    lemma_shape_expression_kind(e.kind);
}

pub proof fn lemma_shape_expression_kind(k: ExpressionKindView)
    ensures
        same_shape_expression_kind(k, erase_expression_kind(k)),
    decreases k,
{
    match k {
        ExpressionKindView::Literal(l) => lemma_shape_literal(l),
        ExpressionKindView::Block(b) => lemma_shape_block_expression(b),
        ExpressionKindView::Prefix(p) => lemma_shape_expression(p.rhs),
        ExpressionKindView::Index(i) => {
            lemma_shape_expression(i.collection);
            lemma_shape_expression(i.index);
        },
        ExpressionKindView::Call(c) => {
            lemma_shape_expression(c.func);
            lemma_shape_expressions(c.arguments);
        },
        ExpressionKindView::MethodCall(m) => {
            lemma_shape_expression(m.object);
            match m.generics {
                Option::Some(ts) => lemma_shape_unresolved_types(ts),
                Option::None => {},
            }
            lemma_shape_expressions(m.arguments);
        },
        ExpressionKindView::Constructor(c) => {
            lemma_shape_path(c.type_path);
            lemma_shape_ident_expressions(c.fields);
        },
        ExpressionKindView::MemberAccess(m) => lemma_shape_expression(m.lhs),
        ExpressionKindView::Cast(c) => {
            lemma_shape_expression(c.lhs);
            lemma_shape_unresolved_type(c.typ);
        },
        ExpressionKindView::Infix(i) => {
            lemma_shape_expression(i.lhs);
            lemma_shape_expression(i.rhs);
        },
        ExpressionKindView::If(i) => {
            lemma_shape_expression(i.condition);
            lemma_shape_expression(i.consequence);
            match i.alternative {
                Option::Some(e) => lemma_shape_expression(e),
                Option::None => {},
            }
        },
        ExpressionKindView::Variable(p) => lemma_shape_path(p),
        ExpressionKindView::Tuple(es) => lemma_shape_expressions(es),
        ExpressionKindView::Lambda(l) => {
            lemma_shape_pattern_types(l.parameters);
            lemma_shape_unresolved_type(l.return_type);
            lemma_shape_expression(l.body);
        },
        ExpressionKindView::Parenthesized(e) => lemma_shape_expression(*e),
        ExpressionKindView::Quote(_) => {},
        ExpressionKindView::Unquote(e) => lemma_shape_expression(*e),
        ExpressionKindView::Comptime(b, _span) => lemma_shape_block_expression(b),
        ExpressionKindView::Resolved(_) => {},
        ExpressionKindView::Error => {},
    }
}

pub proof fn lemma_shape_literal(l: LiteralView)
    ensures
        same_shape_literal(l, erase_literal(l)),
    decreases l,
{
    match l {
        LiteralView::Array(a) => lemma_shape_array_literal(a),
        LiteralView::Slice(a) => lemma_shape_array_literal(a),
        LiteralView::Bool(_) => {},
        LiteralView::Integer(_, _) => {},
        LiteralView::Str(_) => {},
        LiteralView::RawStr(_, _) => {},
        LiteralView::FmtStr(_) => {},
        LiteralView::Unit => {},
    }
}

pub proof fn lemma_shape_array_literal(a: ArrayLiteralView)
    ensures
        same_shape_array_literal(a, erase_array_literal(a)),
    decreases a,
{
    match a {
        ArrayLiteralView::Standard(es) => lemma_shape_expressions(es),
        ArrayLiteralView::Repeated { repeated_element, length } => {
            lemma_shape_expression(*repeated_element);
            lemma_shape_expression(*length);
        },
    }
}

pub proof fn lemma_shape_ident_expressions(s: Seq<(IdentView, ExpressionView)>)
    ensures
        same_shape_ident_expressions(s, erase_ident_expressions(s)),
    decreases s,
{
    if s.len() > 0 {
        let prefix = s.subrange(0, s.len() - 1);
        lemma_shape_ident_expressions(prefix);
        lemma_shape_expression(s[s.len() - 1].1);
        let ep = erase_ident_expressions(prefix);
        let el = (erase_ident(s[s.len() - 1].0), erase_expression(s[s.len() - 1].1));
        assert(ep.push(el).subrange(0, ep.push(el).len() - 1) =~= ep);
    }
}

pub proof fn lemma_shape_pattern_types(s: Seq<(PatternView, UnresolvedTypeView)>)
    ensures
        same_shape_pattern_types(s, erase_pattern_types(s)),
    decreases s,
{
    if s.len() > 0 {
        let prefix = s.subrange(0, s.len() - 1);
        lemma_shape_pattern_types(prefix);
        lemma_shape_pattern(s[s.len() - 1].0);
        lemma_shape_unresolved_type(s[s.len() - 1].1);
        let ep = erase_pattern_types(prefix);
        let el = (erase_pattern(s[s.len() - 1].0), erase_unresolved_type(s[s.len() - 1].1));
        assert(ep.push(el).subrange(0, ep.push(el).len() - 1) =~= ep);
    }
}

pub proof fn lemma_shape_unresolved_types(s: Seq<UnresolvedTypeView>)
    ensures
        same_shape_unresolved_types(s, erase_unresolved_types(s)),
    decreases s,
{
    if s.len() > 0 {
        let prefix = s.subrange(0, s.len() - 1);
        lemma_shape_unresolved_types(prefix);
        lemma_shape_unresolved_type(s[s.len() - 1]);
        let ep = erase_unresolved_types(prefix);
        let el = erase_unresolved_type(s[s.len() - 1]);
        assert(ep.push(el).subrange(0, ep.push(el).len() - 1) =~= ep);
    }
}

pub proof fn lemma_shape_unresolved_type(t: UnresolvedTypeView)
    ensures
        same_shape_unresolved_type(t, erase_unresolved_type(t)),
    decreases t,
{
    lemma_shape_unresolved_type_data(t.typ);
}

pub proof fn lemma_shape_unresolved_type_data(d: UnresolvedTypeDataView)
    ensures
        same_shape_unresolved_type_data(d, erase_unresolved_type_data(d)),
    decreases d,
{
    match d {
        UnresolvedTypeDataView::Array(size, elem) => {
            lemma_shape_unresolved_type_expression(size);
            lemma_shape_unresolved_type(*elem);
        },
        UnresolvedTypeDataView::Slice(elem) => lemma_shape_unresolved_type(*elem),
        UnresolvedTypeDataView::Expression(e) => lemma_shape_unresolved_type_expression(e),
        UnresolvedTypeDataView::FormatString(size, elem) => {
            lemma_shape_unresolved_type_expression(size);
            lemma_shape_unresolved_type(*elem);
        },
        UnresolvedTypeDataView::Parenthesized(inner) => lemma_shape_unresolved_type(*inner),
        UnresolvedTypeDataView::Named(path, args, _) => {
            lemma_shape_path(path);
            lemma_shape_unresolved_types(args);
        },
        UnresolvedTypeDataView::TraitAsType(path, args) => {
            lemma_shape_path(path);
            lemma_shape_unresolved_types(args);
        },
        UnresolvedTypeDataView::MutableReference(inner) => lemma_shape_unresolved_type(*inner),
        UnresolvedTypeDataView::Tuple(elems) => lemma_shape_unresolved_types(elems),
        UnresolvedTypeDataView::Function(args, ret, _env) => {
            lemma_shape_unresolved_types(args);
            lemma_shape_unresolved_type(*ret);
        },
        UnresolvedTypeDataView::FieldElement => {},
        UnresolvedTypeDataView::Integer(_, _) => {},
        UnresolvedTypeDataView::Bool => {},
        UnresolvedTypeDataView::String(_) => {},
        UnresolvedTypeDataView::Unit => {},
        UnresolvedTypeDataView::Quoted(_) => {},
        UnresolvedTypeDataView::Resolved(_) => {},
        UnresolvedTypeDataView::Unspecified => {},
        UnresolvedTypeDataView::Error => {},
    }
}

pub proof fn lemma_shape_unresolved_type_expression(e: UnresolvedTypeExpressionView)
    ensures
        same_shape_unresolved_type_expression(e, erase_unresolved_type_expression(e)),
    decreases e,
{
    match e {
        UnresolvedTypeExpressionView::Variable(p) => lemma_shape_path(p),
        UnresolvedTypeExpressionView::BinaryOperation(lhs, _, rhs, _) => {
            lemma_shape_unresolved_type_expression(*lhs);
            lemma_shape_unresolved_type_expression(*rhs);
        },
        UnresolvedTypeExpressionView::Constant(_, _) => {},
    }
}

pub proof fn lemma_shape_generics(s: Seq<UnresolvedGenericView>)
    ensures
        same_shape_generics(s, erase_generics(s)),
    decreases s,
{
    if s.len() > 0 {
        let prefix = s.subrange(0, s.len() - 1);
        lemma_shape_generics(prefix);
        lemma_shape_unresolved_generic(s[s.len() - 1]);
        let ep = erase_generics(prefix);
        let el = erase_unresolved_generic(s[s.len() - 1]);
        assert(ep.push(el).subrange(0, ep.push(el).len() - 1) =~= ep);
    }
}

pub proof fn lemma_shape_unresolved_generic(g: UnresolvedGenericView)
    ensures
        same_shape_unresolved_generic(g, erase_unresolved_generic(g)),
    decreases g,
{
    match g {
        UnresolvedGenericView::Variable(_i) => {},
        UnresolvedGenericView::Numeric { ident: _, typ } => lemma_shape_unresolved_type(typ),
    }
}

pub proof fn lemma_shape_constraints(s: Seq<UnresolvedTraitConstraintView>)
    ensures
        same_shape_constraints(s, erase_constraints(s)),
    decreases s,
{
    if s.len() > 0 {
        let prefix = s.subrange(0, s.len() - 1);
        lemma_shape_constraints(prefix);
        lemma_shape_unresolved_type(s[s.len() - 1].typ);
        let ep = erase_constraints(prefix);
        let el = erase_unresolved_trait_constraint(s[s.len() - 1]);
        assert(ep.push(el).subrange(0, ep.push(el).len() - 1) =~= ep);
    }
}

pub proof fn lemma_shape_function_return_type(r: FunctionReturnTypeView)
    ensures
        same_shape_function_return_type(r, erase_function_return_type(r)),
    decreases r,
{
    match r {
        FunctionReturnTypeView::Default(_) => {},
        FunctionReturnTypeView::Ty(t) => lemma_shape_unresolved_type(t),
    }
}

pub proof fn lemma_shape_patterns(s: Seq<PatternView>)
    ensures
        same_shape_patterns(s, erase_patterns(s)),
    decreases s,
{
    if s.len() > 0 {
        let prefix = s.subrange(0, s.len() - 1);
        lemma_shape_patterns(prefix);
        lemma_shape_pattern(s[s.len() - 1]);
        let ep = erase_patterns(prefix);
        let el = erase_pattern(s[s.len() - 1]);
        assert(ep.push(el).subrange(0, ep.push(el).len() - 1) =~= ep);
    }
}

pub proof fn lemma_shape_ident_patterns(s: Seq<(IdentView, PatternView)>)
    ensures
        same_shape_ident_patterns(s, erase_ident_patterns(s)),
    decreases s,
{
    if s.len() > 0 {
        let prefix = s.subrange(0, s.len() - 1);
        lemma_shape_ident_patterns(prefix);
        lemma_shape_pattern(s[s.len() - 1].1);
        let ep = erase_ident_patterns(prefix);
        let el = (erase_ident(s[s.len() - 1].0), erase_pattern(s[s.len() - 1].1));
        assert(ep.push(el).subrange(0, ep.push(el).len() - 1) =~= ep);
    }
}

pub proof fn lemma_shape_ident_types(s: Seq<(IdentView, UnresolvedTypeView)>)
    ensures
        same_shape_ident_types(s, erase_ident_types(s)),
    decreases s,
{
    if s.len() > 0 {
        let prefix = s.subrange(0, s.len() - 1);
        lemma_shape_ident_types(prefix);
        lemma_shape_unresolved_type(s[s.len() - 1].1);
        let ep = erase_ident_types(prefix);
        let el = (erase_ident(s[s.len() - 1].0), erase_unresolved_type(s[s.len() - 1].1));
        assert(ep.push(el).subrange(0, ep.push(el).len() - 1) =~= ep);
    }
}

pub proof fn lemma_shape_pattern(p: PatternView)
    ensures
        same_shape_pattern(p, erase_pattern(p)),
    decreases p,
{
    match p {
        PatternView::Identifier(_i) => {},
        PatternView::Mutable(inner, _, _) => lemma_shape_pattern(*inner),
        PatternView::Tuple(elems, _) => lemma_shape_patterns(elems),
        PatternView::Struct(path, fields, _) => {
            lemma_shape_path(path);
            lemma_shape_ident_patterns(fields);
        },
    }
}

/// Structural preservation: a tree and its sanitized form agree on every
/// node tag, child count, child order, identifier text, literal value,
/// operator kind and auxiliary position; only the cleared location
/// attributes may differ.
pub proof fn lemma_sanitize_preserves_shape(m: ParsedModuleView)
    ensures
        same_shape_parsed_module(m, erase_parsed_module(m)),
{
    lemma_shape_parsed_module(m);
}

} // verus!
