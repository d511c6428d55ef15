//! Laws of the sanitizer, proved over the model by mutual induction on the
//! tree: erasure clears every location attribute it is specified to clear,
//! and erasure is idempotent.

use vstd::prelude::*;
use crate::ast::Span;
use crate::model::{IdentView, PathSegmentView, PathView, ParsedModuleView, ItemView, ItemKindView,
    NoirFunctionView, ParamView, NoirTraitView, TraitItemView, NoirTraitImplView,
    TraitImplItemView, TypeImplView, ParsedSubModuleView, UseTreeView, UseTreeKindView,
    NoirStructView, NoirTypeAliasView, LetStatementView, BlockExpressionView, StatementView,
    StatementKindView, ConstrainStatementView, AssignStatementView, LValueView,
    ForLoopStatementView, ForRangeView, ExpressionView, ExpressionKindView, LiteralView,
    ArrayLiteralView, UnresolvedTypeView, UnresolvedTypeDataView, UnresolvedTypeExpressionView,
    UnresolvedGenericView, UnresolvedTraitConstraintView, FunctionReturnTypeView, PatternView};
use crate::erase::{erase_ident, erase_path_segment, erase_path_segments, erase_path,
    erase_parsed_module, erase_items, erase_item, erase_item_kind, erase_noir_function,
    erase_param, erase_params, erase_noir_trait, erase_trait_items, erase_trait_item,
    erase_noir_trait_impl, erase_trait_impl_items, erase_trait_impl_item, erase_type_impl,
    erase_methods, erase_parsed_sub_module, erase_use_tree, erase_use_tree_kind, erase_use_trees,
    erase_noir_struct, erase_noir_type_alias, erase_let_statement, erase_block_expression,
    erase_statements, erase_statement, erase_statement_kind, erase_constrain_statement,
    erase_assign_statement, erase_lvalue, erase_for_loop_statement, erase_for_range,
    erase_expressions, erase_expression, erase_expression_kind, erase_literal, erase_array_literal,
    erase_ident_expressions, erase_pattern_types, erase_unresolved_types, erase_unresolved_type,
    erase_unresolved_type_data, erase_unresolved_type_expression, erase_generics,
    erase_unresolved_generic, erase_constraints, erase_unresolved_trait_constraint,
    erase_function_return_type, erase_patterns, erase_ident_patterns, erase_ident_types,
    erase_pattern};
use crate::cleared::{spans_cleared_path_segments, spans_cleared_path, spans_cleared_parsed_module,
    spans_cleared_items, spans_cleared_item, spans_cleared_item_kind, spans_cleared_noir_function,
    spans_cleared_param, spans_cleared_params, spans_cleared_noir_trait, spans_cleared_trait_items,
    spans_cleared_trait_item, spans_cleared_noir_trait_impl, spans_cleared_trait_impl_items,
    spans_cleared_trait_impl_item, spans_cleared_type_impl, spans_cleared_methods,
    spans_cleared_parsed_sub_module, spans_cleared_use_tree, spans_cleared_use_tree_kind,
    spans_cleared_use_trees, spans_cleared_noir_struct, spans_cleared_noir_type_alias,
    spans_cleared_let_statement, spans_cleared_block_expression, spans_cleared_statements,
    spans_cleared_statement, spans_cleared_statement_kind, spans_cleared_constrain_statement,
    spans_cleared_assign_statement, spans_cleared_lvalue, spans_cleared_for_loop_statement,
    spans_cleared_for_range, spans_cleared_expressions, spans_cleared_expression,
    spans_cleared_expression_kind, spans_cleared_literal, spans_cleared_array_literal,
    spans_cleared_ident_expressions, spans_cleared_pattern_types, spans_cleared_unresolved_types,
    spans_cleared_unresolved_type, spans_cleared_unresolved_type_data,
    spans_cleared_unresolved_type_expression, spans_cleared_generics,
    spans_cleared_unresolved_generic, spans_cleared_constraints,
    spans_cleared_function_return_type, spans_cleared_patterns, spans_cleared_ident_patterns,
    spans_cleared_ident_types, spans_cleared_pattern};

verus! {

pub proof fn lemma_path_segments_erased(s: Seq<PathSegmentView>)
    ensures
        spans_cleared_path_segments(erase_path_segments(s)),
        erase_path_segments(erase_path_segments(s)) == erase_path_segments(s),
    decreases s,
{
    if s.len() > 0 {
        let prefix = s.subrange(0, s.len() - 1);
        lemma_path_segments_erased(prefix);
        let ep = erase_path_segments(prefix);
        let el = erase_path_segment(s[s.len() - 1]);
        assert(ep.push(el).subrange(0, ep.push(el).len() - 1) =~= ep);
    }
}

pub proof fn lemma_path_erased(p: PathView)
    ensures
        spans_cleared_path(erase_path(p)),
        erase_path(erase_path(p)) == erase_path(p),
    decreases p,
{
    lemma_path_segments_erased(p.segments);
}

pub proof fn lemma_parsed_module_erased(m: ParsedModuleView)
    ensures
        spans_cleared_parsed_module(erase_parsed_module(m)),
        erase_parsed_module(erase_parsed_module(m)) == erase_parsed_module(m),
    decreases m,
{
    lemma_items_erased(m.items);
}

pub proof fn lemma_items_erased(s: Seq<ItemView>)
    ensures
        spans_cleared_items(erase_items(s)),
        erase_items(erase_items(s)) == erase_items(s),
    decreases s,
{
    if s.len() > 0 {
        let prefix = s.subrange(0, s.len() - 1);
        lemma_items_erased(prefix);
        lemma_item_erased(s[s.len() - 1]);
        let ep = erase_items(prefix);
        let el = erase_item(s[s.len() - 1]);
        assert(ep.push(el).subrange(0, ep.push(el).len() - 1) =~= ep);
    }
}

pub proof fn lemma_item_erased(i: ItemView)
    ensures
        spans_cleared_item(erase_item(i)),
        erase_item(erase_item(i)) == erase_item(i),
    decreases i,
{
    lemma_item_kind_erased(i.kind);
}

pub proof fn lemma_item_kind_erased(k: ItemKindView)
    ensures
        spans_cleared_item_kind(erase_item_kind(k)),
        erase_item_kind(erase_item_kind(k)) == erase_item_kind(k),
    decreases k,
{
    match k {
        ItemKindView::Function(f) => lemma_noir_function_erased(f),
        ItemKindView::Trait(t) => lemma_noir_trait_erased(t),
        ItemKindView::TraitImpl(t) => lemma_noir_trait_impl_erased(t),
        ItemKindView::Impl(t) => lemma_type_impl_erased(t),
        ItemKindView::Global(g) => lemma_let_statement_erased(g),
        ItemKindView::Submodules(s) => lemma_parsed_sub_module_erased(s),
        ItemKindView::ModuleDecl(_m) => {},
        ItemKindView::Import(u) => lemma_use_tree_erased(u),
        ItemKindView::Struct(s) => lemma_noir_struct_erased(s),
        ItemKindView::TypeAlias(a) => lemma_noir_type_alias_erased(a),
    }
}

pub proof fn lemma_noir_function_erased(f: NoirFunctionView)
    ensures
        spans_cleared_noir_function(erase_noir_function(f)),
        erase_noir_function(erase_noir_function(f)) == erase_noir_function(f),
    decreases f,
{
    lemma_generics_erased(f.generics);
    lemma_params_erased(f.parameters);
    lemma_constraints_erased(f.where_clause);
    lemma_function_return_type_erased(f.return_type);
    lemma_block_expression_erased(f.body);
}

pub proof fn lemma_param_erased(p: ParamView)
    ensures
        spans_cleared_param(erase_param(p)),
        erase_param(erase_param(p)) == erase_param(p),
    decreases p,
{
    lemma_pattern_erased(p.pattern);
    lemma_unresolved_type_erased(p.typ);
}

pub proof fn lemma_params_erased(s: Seq<ParamView>)
    ensures
        spans_cleared_params(erase_params(s)),
        erase_params(erase_params(s)) == erase_params(s),
    decreases s,
{
    if s.len() > 0 {
        let prefix = s.subrange(0, s.len() - 1);
        lemma_params_erased(prefix);
        lemma_param_erased(s[s.len() - 1]);
        let ep = erase_params(prefix);
        let el = erase_param(s[s.len() - 1]);
        assert(ep.push(el).subrange(0, ep.push(el).len() - 1) =~= ep);
    }
}

pub proof fn lemma_noir_trait_erased(t: NoirTraitView)
    ensures
        spans_cleared_noir_trait(erase_noir_trait(t)),
        erase_noir_trait(erase_noir_trait(t)) == erase_noir_trait(t),
    decreases t,
{
    lemma_generics_erased(t.generics);
    lemma_constraints_erased(t.where_clause);
    lemma_trait_items_erased(t.items);
}

pub proof fn lemma_trait_items_erased(s: Seq<TraitItemView>)
    ensures
        spans_cleared_trait_items(erase_trait_items(s)),
        erase_trait_items(erase_trait_items(s)) == erase_trait_items(s),
    decreases s,
{
    if s.len() > 0 {
        let prefix = s.subrange(0, s.len() - 1);
        lemma_trait_items_erased(prefix);
        lemma_trait_item_erased(s[s.len() - 1]);
        let ep = erase_trait_items(prefix);
        let el = erase_trait_item(s[s.len() - 1]);
        assert(ep.push(el).subrange(0, ep.push(el).len() - 1) =~= ep);
    }
}

pub proof fn lemma_trait_item_erased(t: TraitItemView)
    ensures
        spans_cleared_trait_item(erase_trait_item(t)),
        erase_trait_item(erase_trait_item(t)) == erase_trait_item(t),
    decreases t,
{
    match t {
        TraitItemView::Function { name: _, generics, parameters, return_type, where_clause, body } => {
            lemma_generics_erased(generics);
            lemma_ident_types_erased(parameters);
            lemma_function_return_type_erased(return_type);
            lemma_constraints_erased(where_clause);
            match body {
                Option::Some(b) => lemma_block_expression_erased(b),
                Option::None => {},
            }
        },
        TraitItemView::Constant { name: _, typ, default_value } => {
            lemma_unresolved_type_erased(typ);
            match default_value {
                Option::Some(e) => lemma_expression_erased(e),
                Option::None => {},
            }
        },
        TraitItemView::Type { name: _ } => {},
    }
}

pub proof fn lemma_noir_trait_impl_erased(t: NoirTraitImplView)
    ensures
        spans_cleared_noir_trait_impl(erase_noir_trait_impl(t)),
        erase_noir_trait_impl(erase_noir_trait_impl(t)) == erase_noir_trait_impl(t),
    decreases t,
{
    lemma_path_erased(t.trait_name);
    lemma_generics_erased(t.impl_generics);
    lemma_unresolved_type_erased(t.object_type);
    lemma_constraints_erased(t.where_clause);
    lemma_trait_impl_items_erased(t.items);
}

pub proof fn lemma_trait_impl_items_erased(s: Seq<TraitImplItemView>)
    ensures
        spans_cleared_trait_impl_items(erase_trait_impl_items(s)),
        erase_trait_impl_items(erase_trait_impl_items(s)) == erase_trait_impl_items(s),
    decreases s,
{
    if s.len() > 0 {
        let prefix = s.subrange(0, s.len() - 1);
        lemma_trait_impl_items_erased(prefix);
        lemma_trait_impl_item_erased(s[s.len() - 1]);
        let ep = erase_trait_impl_items(prefix);
        let el = erase_trait_impl_item(s[s.len() - 1]);
        assert(ep.push(el).subrange(0, ep.push(el).len() - 1) =~= ep);
    }
}

pub proof fn lemma_trait_impl_item_erased(t: TraitImplItemView)
    ensures
        spans_cleared_trait_impl_item(erase_trait_impl_item(t)),
        erase_trait_impl_item(erase_trait_impl_item(t)) == erase_trait_impl_item(t),
    decreases t,
{
    match t {
        TraitImplItemView::Function(f) => lemma_noir_function_erased(f),
        TraitImplItemView::Constant(_name, typ, default_value) => {
            lemma_unresolved_type_erased(typ);
            lemma_expression_erased(default_value);
        },
        TraitImplItemView::Type { name: _, alias } => lemma_unresolved_type_erased(alias),
    }
}

pub proof fn lemma_type_impl_erased(t: TypeImplView)
    ensures
        spans_cleared_type_impl(erase_type_impl(t)),
        erase_type_impl(erase_type_impl(t)) == erase_type_impl(t),
    decreases t,
{
    lemma_unresolved_type_erased(t.object_type);
    lemma_generics_erased(t.generics);
    lemma_constraints_erased(t.where_clause);
    lemma_methods_erased(t.methods);
}

pub proof fn lemma_methods_erased(s: Seq<(NoirFunctionView, Span)>)
    ensures
        spans_cleared_methods(erase_methods(s)),
        erase_methods(erase_methods(s)) == erase_methods(s),
    decreases s,
{
    if s.len() > 0 {
        let prefix = s.subrange(0, s.len() - 1);
        lemma_methods_erased(prefix);
        lemma_noir_function_erased(s[s.len() - 1].0);
        let ep = erase_methods(prefix);
        let el = (erase_noir_function(s[s.len() - 1].0), s[s.len() - 1].1);
        assert(ep.push(el).subrange(0, ep.push(el).len() - 1) =~= ep);
    }
}

pub proof fn lemma_parsed_sub_module_erased(s: ParsedSubModuleView)
    ensures
        spans_cleared_parsed_sub_module(erase_parsed_sub_module(s)),
        erase_parsed_sub_module(erase_parsed_sub_module(s)) == erase_parsed_sub_module(s),
    decreases s,
{
    lemma_parsed_module_erased(s.contents);
}

pub proof fn lemma_use_tree_erased(u: UseTreeView)
    ensures
        spans_cleared_use_tree(erase_use_tree(u)),
        erase_use_tree(erase_use_tree(u)) == erase_use_tree(u),
    decreases u,
{
    lemma_path_erased(u.prefix);
    lemma_use_tree_kind_erased(u.kind);
}

pub proof fn lemma_use_tree_kind_erased(k: UseTreeKindView)
    ensures
        spans_cleared_use_tree_kind(erase_use_tree_kind(k)),
        erase_use_tree_kind(erase_use_tree_kind(k)) == erase_use_tree_kind(k),
    decreases k,
{
    match k {
        UseTreeKindView::Path(_name, _alias) => {},
        UseTreeKindView::List(trees) => lemma_use_trees_erased(trees),
    }
}

pub proof fn lemma_use_trees_erased(s: Seq<UseTreeView>)
    ensures
        spans_cleared_use_trees(erase_use_trees(s)),
        erase_use_trees(erase_use_trees(s)) == erase_use_trees(s),
    decreases s,
{
    if s.len() > 0 {
        let prefix = s.subrange(0, s.len() - 1);
        lemma_use_trees_erased(prefix);
        lemma_use_tree_erased(s[s.len() - 1]);
        let ep = erase_use_trees(prefix);
        let el = erase_use_tree(s[s.len() - 1]);
        assert(ep.push(el).subrange(0, ep.push(el).len() - 1) =~= ep);
    }
}

pub proof fn lemma_noir_struct_erased(s: NoirStructView)
    ensures
        spans_cleared_noir_struct(erase_noir_struct(s)),
        erase_noir_struct(erase_noir_struct(s)) == erase_noir_struct(s),
    decreases s,
{
    lemma_ident_types_erased(s.fields);
    lemma_generics_erased(s.generics);
}

pub proof fn lemma_noir_type_alias_erased(a: NoirTypeAliasView)
    ensures
        spans_cleared_noir_type_alias(erase_noir_type_alias(a)),
        erase_noir_type_alias(erase_noir_type_alias(a)) == erase_noir_type_alias(a),
    decreases a,
{
    lemma_unresolved_type_erased(a.typ);
}

pub proof fn lemma_let_statement_erased(l: LetStatementView)
    ensures
        spans_cleared_let_statement(erase_let_statement(l)),
        erase_let_statement(erase_let_statement(l)) == erase_let_statement(l),
    decreases l,
{
    lemma_pattern_erased(l.pattern);
    lemma_unresolved_type_erased(l.typ);
    lemma_expression_erased(l.expression);
}

pub proof fn lemma_block_expression_erased(b: BlockExpressionView)
    ensures
        spans_cleared_block_expression(erase_block_expression(b)),
        erase_block_expression(erase_block_expression(b)) == erase_block_expression(b),
    decreases b,
{
    lemma_statements_erased(b.statements);
}

pub proof fn lemma_statements_erased(s: Seq<StatementView>)
    ensures
        spans_cleared_statements(erase_statements(s)),
        erase_statements(erase_statements(s)) == erase_statements(s),
    decreases s,
{
    if s.len() > 0 {
        let prefix = s.subrange(0, s.len() - 1);
        lemma_statements_erased(prefix);
        lemma_statement_erased(s[s.len() - 1]);
        let ep = erase_statements(prefix);
        let el = erase_statement(s[s.len() - 1]);
        assert(ep.push(el).subrange(0, ep.push(el).len() - 1) =~= ep);
    }
}

pub proof fn lemma_statement_erased(s: StatementView)
    ensures
        spans_cleared_statement(erase_statement(s)),
        erase_statement(erase_statement(s)) == erase_statement(s),
    decreases s,
{
    lemma_statement_kind_erased(s.kind);
}

pub proof fn lemma_statement_kind_erased(k: StatementKindView)
    ensures
        spans_cleared_statement_kind(erase_statement_kind(k)),
        erase_statement_kind(erase_statement_kind(k)) == erase_statement_kind(k),
    decreases k,
{
    match k {
        StatementKindView::Let(l) => lemma_let_statement_erased(l),
        StatementKindView::Constrain(c) => lemma_constrain_statement_erased(c),
        StatementKindView::Expression(e) => lemma_expression_erased(e),
        StatementKindView::Assign(a) => lemma_assign_statement_erased(a),
        StatementKindView::For(f) => lemma_for_loop_statement_erased(f),
        StatementKindView::Comptime(s) => lemma_statement_erased(*s),
        StatementKindView::Semi(e) => lemma_expression_erased(e),
        StatementKindView::Break => {},
        StatementKindView::Continue => {},
        StatementKindView::Error => {},
    }
}

pub proof fn lemma_constrain_statement_erased(c: ConstrainStatementView)
    ensures
        spans_cleared_constrain_statement(erase_constrain_statement(c)),
        erase_constrain_statement(erase_constrain_statement(c)) == erase_constrain_statement(c),
    decreases c,
{
    lemma_expression_erased(c.0);
    match c.1 {
        Option::Some(e) => lemma_expression_erased(e),
        Option::None => {},
    }
}

pub proof fn lemma_assign_statement_erased(a: AssignStatementView)
    ensures
        spans_cleared_assign_statement(erase_assign_statement(a)),
        erase_assign_statement(erase_assign_statement(a)) == erase_assign_statement(a),
    decreases a,
{
    lemma_lvalue_erased(a.lvalue);
    lemma_expression_erased(a.expression);
}

pub proof fn lemma_lvalue_erased(l: LValueView)
    ensures
        spans_cleared_lvalue(erase_lvalue(l)),
        erase_lvalue(erase_lvalue(l)) == erase_lvalue(l),
    decreases l,
{
    match l {
        LValueView::Ident(_i) => {},
        LValueView::MemberAccess { object, field_name: _, span: _ } => lemma_lvalue_erased(*object),
        LValueView::Index { array, index, span: _ } => {
            lemma_lvalue_erased(*array);
            lemma_expression_erased(index);
        },
        LValueView::Dereference(inner, _) => lemma_lvalue_erased(*inner),
    }
}

pub proof fn lemma_for_loop_statement_erased(f: ForLoopStatementView)
    ensures
        spans_cleared_for_loop_statement(erase_for_loop_statement(f)),
        erase_for_loop_statement(erase_for_loop_statement(f)) == erase_for_loop_statement(f),
    decreases f,
{
    lemma_for_range_erased(f.range);
    lemma_expression_erased(f.block);
}

pub proof fn lemma_for_range_erased(r: ForRangeView)
    ensures
        spans_cleared_for_range(erase_for_range(r)),
        erase_for_range(erase_for_range(r)) == erase_for_range(r),
    decreases r,
{
    match r {
        ForRangeView::Range(from, to) => {
            lemma_expression_erased(from);
            lemma_expression_erased(to);
        },
        ForRangeView::Array(e) => lemma_expression_erased(e),
    }
}

pub proof fn lemma_expressions_erased(s: Seq<ExpressionView>)
    ensures
        spans_cleared_expressions(erase_expressions(s)),
        erase_expressions(erase_expressions(s)) == erase_expressions(s),
    decreases s,
{
    if s.len() > 0 {
        let prefix = s.subrange(0, s.len() - 1);
        lemma_expressions_erased(prefix);
        lemma_expression_erased(s[s.len() - 1]);
        let ep = erase_expressions(prefix);
        let el = erase_expression(s[s.len() - 1]);
        assert(ep.push(el).subrange(0, ep.push(el).len() - 1) =~= ep);
    }
}

pub proof fn lemma_expression_erased(e: ExpressionView)
    ensures
        spans_cleared_expression(erase_expression(e)),
        erase_expression(erase_expression(e)) == erase_expression(e),
    decreases e,
{
    lemma_expression_kind_erased(e.kind);
}

pub proof fn lemma_expression_kind_erased(k: ExpressionKindView)
    ensures
        spans_cleared_expression_kind(erase_expression_kind(k)),
        erase_expression_kind(erase_expression_kind(k)) == erase_expression_kind(k),
    decreases k,
{
    match k {
        ExpressionKindView::Literal(l) => lemma_literal_erased(l),
        ExpressionKindView::Block(b) => lemma_block_expression_erased(b),
        ExpressionKindView::Prefix(p) => lemma_expression_erased(p.rhs),
        ExpressionKindView::Index(i) => {
            lemma_expression_erased(i.collection);
            lemma_expression_erased(i.index);
        },
        ExpressionKindView::Call(c) => {
            lemma_expression_erased(c.func);
            lemma_expressions_erased(c.arguments);
        },
        ExpressionKindView::MethodCall(m) => {
            lemma_expression_erased(m.object);
            match m.generics {
                Option::Some(ts) => lemma_unresolved_types_erased(ts),
                Option::None => {},
            }
            lemma_expressions_erased(m.arguments);
        },
        ExpressionKindView::Constructor(c) => {
            lemma_path_erased(c.type_path);
            lemma_ident_expressions_erased(c.fields);
        },
        ExpressionKindView::MemberAccess(m) => lemma_expression_erased(m.lhs),
        ExpressionKindView::Cast(c) => {
            lemma_expression_erased(c.lhs);
            lemma_unresolved_type_erased(c.typ);
        },
        ExpressionKindView::Infix(i) => {
            lemma_expression_erased(i.lhs);
            lemma_expression_erased(i.rhs);
        },
        ExpressionKindView::If(i) => {
            lemma_expression_erased(i.condition);
            lemma_expression_erased(i.consequence);
            match i.alternative {
                Option::Some(e) => lemma_expression_erased(e),
                Option::None => {},
            }
        },
        ExpressionKindView::Variable(p) => lemma_path_erased(p),
        ExpressionKindView::Tuple(es) => lemma_expressions_erased(es),
        ExpressionKindView::Lambda(l) => {
            lemma_pattern_types_erased(l.parameters);
            lemma_unresolved_type_erased(l.return_type);
            lemma_expression_erased(l.body);
        },
        ExpressionKindView::Parenthesized(e) => lemma_expression_erased(*e),
        ExpressionKindView::Quote(_) => {},
        ExpressionKindView::Unquote(e) => lemma_expression_erased(*e),
        ExpressionKindView::Comptime(b, _span) => lemma_block_expression_erased(b),
        ExpressionKindView::Resolved(_) => {},
        ExpressionKindView::Error => {},
    }
}

pub proof fn lemma_literal_erased(l: LiteralView)
    ensures
        spans_cleared_literal(erase_literal(l)),
        erase_literal(erase_literal(l)) == erase_literal(l),
    decreases l,
{
    match l {
        LiteralView::Array(a) => lemma_array_literal_erased(a),
        LiteralView::Slice(a) => lemma_array_literal_erased(a),
        LiteralView::Bool(_) => {},
        LiteralView::Integer(_, _) => {},
        LiteralView::Str(_) => {},
        LiteralView::RawStr(_, _) => {},
        LiteralView::FmtStr(_) => {},
        LiteralView::Unit => {},
    }
}

pub proof fn lemma_array_literal_erased(a: ArrayLiteralView)
    ensures
        spans_cleared_array_literal(erase_array_literal(a)),
        erase_array_literal(erase_array_literal(a)) == erase_array_literal(a),
    decreases a,
{
    match a {
        ArrayLiteralView::Standard(es) => lemma_expressions_erased(es),
        ArrayLiteralView::Repeated { repeated_element, length } => {
            lemma_expression_erased(*repeated_element);
            lemma_expression_erased(*length);
        },
    }
}

pub proof fn lemma_ident_expressions_erased(s: Seq<(IdentView, ExpressionView)>)
    ensures
        spans_cleared_ident_expressions(erase_ident_expressions(s)),
        erase_ident_expressions(erase_ident_expressions(s)) == erase_ident_expressions(s),
    decreases s,
{
    if s.len() > 0 {
        let prefix = s.subrange(0, s.len() - 1);
        lemma_ident_expressions_erased(prefix);
        lemma_expression_erased(s[s.len() - 1].1);
        let ep = erase_ident_expressions(prefix);
        let el = (erase_ident(s[s.len() - 1].0), erase_expression(s[s.len() - 1].1));
        assert(ep.push(el).subrange(0, ep.push(el).len() - 1) =~= ep);
    }
}

pub proof fn lemma_pattern_types_erased(s: Seq<(PatternView, UnresolvedTypeView)>)
    ensures
        spans_cleared_pattern_types(erase_pattern_types(s)),
        erase_pattern_types(erase_pattern_types(s)) == erase_pattern_types(s),
    decreases s,
{
    if s.len() > 0 {
        let prefix = s.subrange(0, s.len() - 1);
        lemma_pattern_types_erased(prefix);
        lemma_pattern_erased(s[s.len() - 1].0);
        lemma_unresolved_type_erased(s[s.len() - 1].1);
        let ep = erase_pattern_types(prefix);
        let el = (erase_pattern(s[s.len() - 1].0), erase_unresolved_type(s[s.len() - 1].1));
        assert(ep.push(el).subrange(0, ep.push(el).len() - 1) =~= ep);
    }
}

pub proof fn lemma_unresolved_types_erased(s: Seq<UnresolvedTypeView>)
    ensures
        spans_cleared_unresolved_types(erase_unresolved_types(s)),
        erase_unresolved_types(erase_unresolved_types(s)) == erase_unresolved_types(s),
    decreases s,
{
    if s.len() > 0 {
        let prefix = s.subrange(0, s.len() - 1);
        lemma_unresolved_types_erased(prefix);
        lemma_unresolved_type_erased(s[s.len() - 1]);
        let ep = erase_unresolved_types(prefix);
        let el = erase_unresolved_type(s[s.len() - 1]);
        assert(ep.push(el).subrange(0, ep.push(el).len() - 1) =~= ep);
    }
}

pub proof fn lemma_unresolved_type_erased(t: UnresolvedTypeView)
    ensures
        spans_cleared_unresolved_type(erase_unresolved_type(t)),
        erase_unresolved_type(erase_unresolved_type(t)) == erase_unresolved_type(t),
    decreases t,
{
    lemma_unresolved_type_data_erased(t.typ);
}

pub proof fn lemma_unresolved_type_data_erased(d: UnresolvedTypeDataView)
    ensures
        spans_cleared_unresolved_type_data(erase_unresolved_type_data(d)),
        erase_unresolved_type_data(erase_unresolved_type_data(d)) == erase_unresolved_type_data(d),
    decreases d,
{
    match d {
        UnresolvedTypeDataView::Array(size, elem) => {
            lemma_unresolved_type_expression_erased(size);
            lemma_unresolved_type_erased(*elem);
        },
        UnresolvedTypeDataView::Slice(elem) => lemma_unresolved_type_erased(*elem),
        UnresolvedTypeDataView::Expression(e) => lemma_unresolved_type_expression_erased(e),
        UnresolvedTypeDataView::FormatString(size, elem) => {
            lemma_unresolved_type_expression_erased(size);
            lemma_unresolved_type_erased(*elem);
        },
        UnresolvedTypeDataView::Parenthesized(inner) => lemma_unresolved_type_erased(*inner),
        UnresolvedTypeDataView::Named(path, args, _) => {
            lemma_path_erased(path);
            lemma_unresolved_types_erased(args);
        },
        UnresolvedTypeDataView::TraitAsType(path, args) => {
            lemma_path_erased(path);
            lemma_unresolved_types_erased(args);
        },
        UnresolvedTypeDataView::MutableReference(inner) => lemma_unresolved_type_erased(*inner),
        UnresolvedTypeDataView::Tuple(elems) => lemma_unresolved_types_erased(elems),
        UnresolvedTypeDataView::Function(args, ret, _env) => {
            lemma_unresolved_types_erased(args);
            lemma_unresolved_type_erased(*ret);
        },
        UnresolvedTypeDataView::FieldElement => {},
        UnresolvedTypeDataView::Integer(_, _) => {},
        UnresolvedTypeDataView::Bool => {},
        UnresolvedTypeDataView::String(_) => {},
        UnresolvedTypeDataView::Unit => {},
        UnresolvedTypeDataView::Quoted(_) => {},
        UnresolvedTypeDataView::Resolved(_) => {},
        UnresolvedTypeDataView::Unspecified => {},
        UnresolvedTypeDataView::Error => {},
    }
}

pub proof fn lemma_unresolved_type_expression_erased(e: UnresolvedTypeExpressionView)
    ensures
        spans_cleared_unresolved_type_expression(erase_unresolved_type_expression(e)),
        erase_unresolved_type_expression(erase_unresolved_type_expression(e))
            == erase_unresolved_type_expression(e),
    decreases e,
{
    match e {
        UnresolvedTypeExpressionView::Variable(p) => lemma_path_erased(p),
        UnresolvedTypeExpressionView::BinaryOperation(lhs, _, rhs, _) => {
            lemma_unresolved_type_expression_erased(*lhs);
            lemma_unresolved_type_expression_erased(*rhs);
        },
        UnresolvedTypeExpressionView::Constant(_, _) => {},
    }
}

pub proof fn lemma_generics_erased(s: Seq<UnresolvedGenericView>)
    ensures
        spans_cleared_generics(erase_generics(s)),
        erase_generics(erase_generics(s)) == erase_generics(s),
    decreases s,
{
    if s.len() > 0 {
        let prefix = s.subrange(0, s.len() - 1);
        lemma_generics_erased(prefix);
        lemma_unresolved_generic_erased(s[s.len() - 1]);
        let ep = erase_generics(prefix);
        let el = erase_unresolved_generic(s[s.len() - 1]);
        assert(ep.push(el).subrange(0, ep.push(el).len() - 1) =~= ep);
    }
}

pub proof fn lemma_unresolved_generic_erased(g: UnresolvedGenericView)
    ensures
        spans_cleared_unresolved_generic(erase_unresolved_generic(g)),
        erase_unresolved_generic(erase_unresolved_generic(g)) == erase_unresolved_generic(g),
    decreases g,
{
    match g {
        UnresolvedGenericView::Variable(_i) => {},
        UnresolvedGenericView::Numeric { ident: _, typ } => lemma_unresolved_type_erased(typ),
    }
}

pub proof fn lemma_constraints_erased(s: Seq<UnresolvedTraitConstraintView>)
    ensures
        spans_cleared_constraints(erase_constraints(s)),
        erase_constraints(erase_constraints(s)) == erase_constraints(s),
    decreases s,
{
    if s.len() > 0 {
        let prefix = s.subrange(0, s.len() - 1);
        lemma_constraints_erased(prefix);
        lemma_unresolved_type_erased(s[s.len() - 1].typ);
        let ep = erase_constraints(prefix);
        let el = erase_unresolved_trait_constraint(s[s.len() - 1]);
        assert(ep.push(el).subrange(0, ep.push(el).len() - 1) =~= ep);
    }
}

pub proof fn lemma_function_return_type_erased(r: FunctionReturnTypeView)
    ensures
        spans_cleared_function_return_type(erase_function_return_type(r)),
        erase_function_return_type(erase_function_return_type(r)) == erase_function_return_type(r),
    decreases r,
{
    match r {
        FunctionReturnTypeView::Default(_) => {},
        FunctionReturnTypeView::Ty(t) => lemma_unresolved_type_erased(t),
    }
}

pub proof fn lemma_patterns_erased(s: Seq<PatternView>)
    ensures
        spans_cleared_patterns(erase_patterns(s)),
        erase_patterns(erase_patterns(s)) == erase_patterns(s),
    decreases s,
{
    if s.len() > 0 {
        let prefix = s.subrange(0, s.len() - 1);
        lemma_patterns_erased(prefix);
        lemma_pattern_erased(s[s.len() - 1]);
        let ep = erase_patterns(prefix);
        let el = erase_pattern(s[s.len() - 1]);
        assert(ep.push(el).subrange(0, ep.push(el).len() - 1) =~= ep);
    }
}

pub proof fn lemma_ident_patterns_erased(s: Seq<(IdentView, PatternView)>)
    ensures
        spans_cleared_ident_patterns(erase_ident_patterns(s)),
        erase_ident_patterns(erase_ident_patterns(s)) == erase_ident_patterns(s),
    decreases s,
{
    if s.len() > 0 {
        let prefix = s.subrange(0, s.len() - 1);
        lemma_ident_patterns_erased(prefix);
        lemma_pattern_erased(s[s.len() - 1].1);
        let ep = erase_ident_patterns(prefix);
        let el = (erase_ident(s[s.len() - 1].0), erase_pattern(s[s.len() - 1].1));
        assert(ep.push(el).subrange(0, ep.push(el).len() - 1) =~= ep);
    }
}

pub proof fn lemma_ident_types_erased(s: Seq<(IdentView, UnresolvedTypeView)>)
    ensures
        spans_cleared_ident_types(erase_ident_types(s)),
        erase_ident_types(erase_ident_types(s)) == erase_ident_types(s),
    decreases s,
{
    if s.len() > 0 {
        let prefix = s.subrange(0, s.len() - 1);
        lemma_ident_types_erased(prefix);
        lemma_unresolved_type_erased(s[s.len() - 1].1);
        let ep = erase_ident_types(prefix);
        let el = (erase_ident(s[s.len() - 1].0), erase_unresolved_type(s[s.len() - 1].1));
        assert(ep.push(el).subrange(0, ep.push(el).len() - 1) =~= ep);
    }
}

pub proof fn lemma_pattern_erased(p: PatternView)
    ensures
        spans_cleared_pattern(erase_pattern(p)),
        erase_pattern(erase_pattern(p)) == erase_pattern(p),
    decreases p,
{
    match p {
        PatternView::Identifier(_i) => {},
        PatternView::Mutable(inner, _, _) => lemma_pattern_erased(*inner),
        PatternView::Tuple(elems, _) => lemma_patterns_erased(elems),
        PatternView::Struct(path, fields, _) => {
            lemma_path_erased(path);
            lemma_ident_patterns_erased(fields);
        },
    }
}

/// Location-erasure completeness: after sanitization, every location
/// attribute that the sanitizer is specified to clear equals the empty
/// sentinel, on every tree.
pub proof fn lemma_sanitize_clears_spans(m: ParsedModuleView)
    ensures
        spans_cleared_parsed_module(erase_parsed_module(m)),
{
    lemma_parsed_module_erased(m);
}

/// Idempotence: sanitizing a tree twice yields the same tree as sanitizing
/// it once, on every tree.
pub proof fn lemma_sanitize_idempotent(m: ParsedModuleView)
    ensures
        erase_parsed_module(erase_parsed_module(m)) == erase_parsed_module(m),
{
    lemma_parsed_module_erased(m);
}

} // verus!
