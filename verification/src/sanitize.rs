//! The executable sanitizer: one function per node type, each proved to
//! implement the corresponding erasure function of the model.  The caller
//! hands a node in and receives the sanitized node back; the tree's shape
//! is rebuilt exactly, with every cleared location attribute set to the
//! empty sentinel.

use vstd::prelude::*;
use crate::ast::{Span, Ident, PathSegment, Path, ParsedModule, Item, ItemKind, NoirFunction, Param,
    NoirTrait, TraitItem, NoirTraitImpl, TraitImplItem, TypeImpl, ParsedSubModule,
    ModuleDeclaration, UseTree, UseTreeKind, NoirStruct, NoirTypeAlias, LetStatement,
    BlockExpression, Statement, StatementKind, ConstrainStatement, AssignStatement, LValue,
    ForLoopStatement, ForRange, Expression, ExpressionKind, Literal, ArrayLiteral,
    PrefixExpression, IndexExpression, CallExpression, MethodCallExpression, ConstructorExpression,
    MemberAccessExpression, CastExpression, InfixExpression, IfExpression, Lambda, UnresolvedType,
    UnresolvedTypeData, UnresolvedTypeExpression, UnresolvedGeneric, UnresolvedTraitConstraint,
    FunctionReturnType, Pattern};
use crate::view::{view_ident, view_path_segment, view_path_segments, view_path, view_parsed_module,
    view_items, view_item, view_noir_function, view_param, view_params, view_noir_trait,
    view_trait_items, view_trait_item, view_noir_trait_impl, view_trait_impl_items,
    view_trait_impl_item, view_type_impl, view_methods, view_parsed_sub_module,
    view_module_declaration, view_use_tree, view_use_trees, view_noir_struct, view_noir_type_alias,
    view_let_statement, view_block_expression, view_statements, view_statement,
    view_constrain_statement, view_assign_statement, view_lvalue, view_for_loop_statement,
    view_for_range, view_expressions, view_expression, view_literal, view_array_literal,
    view_prefix_expression, view_index_expression, view_call_expression,
    view_method_call_expression, view_constructor_expression, view_ident_expressions,
    view_member_access_expression, view_cast_expression, view_infix_expression, view_if_expression,
    view_lambda, view_pattern_types, view_unresolved_types, view_unresolved_type,
    view_unresolved_type_expression, view_generics, view_unresolved_generic, view_constraints,
    view_unresolved_trait_constraint, view_function_return_type, view_patterns,
    view_ident_patterns, view_ident_types, view_pattern, lemma_view_path_segments,
    lemma_view_items, lemma_view_params, lemma_view_trait_items, lemma_view_trait_impl_items,
    lemma_view_methods, lemma_view_use_trees, lemma_view_statements, lemma_view_expressions,
    lemma_view_ident_expressions, lemma_view_pattern_types, lemma_view_unresolved_types,
    lemma_view_generics, lemma_view_constraints, lemma_view_patterns, lemma_view_ident_patterns,
    lemma_view_ident_types};
use crate::erase::{erase_ident, erase_path_segment, erase_path_segments, erase_path,
    erase_parsed_module, erase_items, erase_item, erase_noir_function, erase_param, erase_params,
    erase_noir_trait, erase_trait_items, erase_trait_item, erase_noir_trait_impl,
    erase_trait_impl_items, erase_trait_impl_item, erase_type_impl, erase_methods,
    erase_parsed_sub_module, erase_module_declaration, erase_use_tree, erase_use_trees,
    erase_noir_struct, erase_noir_type_alias, erase_let_statement, erase_block_expression,
    erase_statements, erase_statement, erase_constrain_statement, erase_assign_statement,
    erase_lvalue, erase_for_loop_statement, erase_for_range, erase_expressions, erase_expression,
    erase_literal, erase_array_literal, erase_prefix_expression, erase_index_expression,
    erase_call_expression, erase_method_call_expression, erase_constructor_expression,
    erase_ident_expressions, erase_member_access_expression, erase_cast_expression,
    erase_infix_expression, erase_if_expression, erase_lambda, erase_pattern_types,
    erase_unresolved_types, erase_unresolved_type, erase_unresolved_type_expression,
    erase_generics, erase_unresolved_generic, erase_constraints, erase_unresolved_trait_constraint,
    erase_function_return_type, erase_patterns, erase_ident_patterns, erase_ident_types,
    erase_pattern, lemma_erase_path_segments, lemma_erase_items, lemma_erase_params,
    lemma_erase_trait_items, lemma_erase_trait_impl_items, lemma_erase_methods,
    lemma_erase_use_trees, lemma_erase_statements, lemma_erase_expressions,
    lemma_erase_ident_expressions, lemma_erase_pattern_types, lemma_erase_unresolved_types,
    lemma_erase_generics, lemma_erase_constraints, lemma_erase_patterns,
    lemma_erase_ident_patterns, lemma_erase_ident_types};

verus! {

/// Rebuilds an identifier unchanged; the environment type of a function
/// type is carried through sanitization without being visited.
pub fn clone_ident(ident: &Ident) -> (r: Ident)
    ensures
        view_ident(r) == view_ident(*ident),
{
    Ident { text: ident.text.clone(), span: ident.span }
}

pub fn clone_path_segments(segments: &Vec<PathSegment>) -> (r: Vec<PathSegment>)
    ensures
        view_path_segments(r@) == view_path_segments(segments@),
{
    let mut out: Vec<PathSegment> = Vec::new();
    let mut i: usize = 0;
    while i < segments.len()
        invariant
            i <= segments@.len(),
            out@.len() == i,
            forall|j: int| 0 <= j < i ==> view_path_segment(out@[j]) == view_path_segment(
                segments@[j],
            ),
        decreases segments@.len() - i,
    {
        let s = &segments[i];
        let copied = PathSegment { ident: clone_ident(&s.ident), span: s.span };
        out.push(copied);
        i = i + 1;
    }
    proof {
        lemma_view_path_segments(out@);
        lemma_view_path_segments(segments@);
        assert(view_path_segments(out@) =~= view_path_segments(segments@));
    }
    out
}

pub fn clone_path(path: &Path) -> (r: Path)
    ensures
        view_path(r) == view_path(*path),
{
    Path { segments: clone_path_segments(&path.segments), span: path.span }
}

pub fn clone_unresolved_types(types: &Vec<UnresolvedType>) -> (r: Vec<UnresolvedType>)
    ensures
        view_unresolved_types(r@) == view_unresolved_types(types@),
    decreases types@,
{
    let mut out: Vec<UnresolvedType> = Vec::new();
    let mut i: usize = 0;
    while i < types.len()
        invariant
            i <= types@.len(),
            out@.len() == i,
            forall|j: int| 0 <= j < i ==> view_unresolved_type(out@[j]) == view_unresolved_type(
                types@[j],
            ),
        decreases types@.len() - i,
    {
        let copied = clone_unresolved_type(&types[i]);
        out.push(copied);
        i = i + 1;
    }
    proof {
        lemma_view_unresolved_types(out@);
        lemma_view_unresolved_types(types@);
        assert(view_unresolved_types(out@) =~= view_unresolved_types(types@));
    }
    out
}

pub fn clone_unresolved_type_expression(e: &UnresolvedTypeExpression) -> (r:
    UnresolvedTypeExpression)
    ensures
        view_unresolved_type_expression(r) == view_unresolved_type_expression(*e),
    decreases *e,
{
    match e {
        UnresolvedTypeExpression::Variable(path) => UnresolvedTypeExpression::Variable(
            clone_path(path),
        ),
        UnresolvedTypeExpression::BinaryOperation(lhs, op, rhs, span) => (
            UnresolvedTypeExpression::BinaryOperation(
                Box::new(clone_unresolved_type_expression(lhs)),
                *op,
                Box::new(clone_unresolved_type_expression(rhs)),
                *span,
            )
        ),
        UnresolvedTypeExpression::Constant(v, span) => UnresolvedTypeExpression::Constant(
            *v,
            *span,
        ),
    }
}

pub fn clone_unresolved_type(t: &UnresolvedType) -> (r: UnresolvedType)
    ensures
        view_unresolved_type(r) == view_unresolved_type(*t),
    decreases *t,
{
    let typ = match &t.typ {
        UnresolvedTypeData::Array(size, elem) => UnresolvedTypeData::Array(
            clone_unresolved_type_expression(size),
            Box::new(clone_unresolved_type(elem)),
        ),
        UnresolvedTypeData::Slice(elem) => UnresolvedTypeData::Slice(
            Box::new(clone_unresolved_type(elem)),
        ),
        UnresolvedTypeData::Expression(e) => UnresolvedTypeData::Expression(
            clone_unresolved_type_expression(e),
        ),
        UnresolvedTypeData::FormatString(size, elem) => UnresolvedTypeData::FormatString(
            clone_unresolved_type_expression(size),
            Box::new(clone_unresolved_type(elem)),
        ),
        UnresolvedTypeData::Parenthesized(inner) => UnresolvedTypeData::Parenthesized(
            Box::new(clone_unresolved_type(inner)),
        ),
        UnresolvedTypeData::Named(path, args, wildcard) => UnresolvedTypeData::Named(
            clone_path(path),
            clone_unresolved_types(args),
            *wildcard,
        ),
        UnresolvedTypeData::TraitAsType(path, args) => UnresolvedTypeData::TraitAsType(
            clone_path(path),
            clone_unresolved_types(args),
        ),
        UnresolvedTypeData::MutableReference(inner) => UnresolvedTypeData::MutableReference(
            Box::new(clone_unresolved_type(inner)),
        ),
        UnresolvedTypeData::Tuple(elems) => UnresolvedTypeData::Tuple(
            clone_unresolved_types(elems),
        ),
        UnresolvedTypeData::Function(args, ret, env) => UnresolvedTypeData::Function(
            clone_unresolved_types(args),
            Box::new(clone_unresolved_type(ret)),
            Box::new(clone_unresolved_type(env)),
        ),
        UnresolvedTypeData::FieldElement => UnresolvedTypeData::FieldElement,
        UnresolvedTypeData::Integer(sign, bits) => UnresolvedTypeData::Integer(*sign, *bits),
        UnresolvedTypeData::Bool => UnresolvedTypeData::Bool,
        UnresolvedTypeData::String(len) => UnresolvedTypeData::String(*len),
        UnresolvedTypeData::Unit => UnresolvedTypeData::Unit,
        UnresolvedTypeData::Quoted(q) => UnresolvedTypeData::Quoted(*q),
        UnresolvedTypeData::Resolved(id) => UnresolvedTypeData::Resolved(*id),
        UnresolvedTypeData::Unspecified => UnresolvedTypeData::Unspecified,
        UnresolvedTypeData::Error => UnresolvedTypeData::Error,
    };
    UnresolvedType { typ, span: t.span }
}

/// Clears the location of an identifier; its text is kept.
pub fn empty_ident(ident: &Ident) -> (r: Ident)
    ensures
        view_ident(r) == erase_ident(view_ident(*ident)),
{
    Ident { text: ident.text.clone(), span: Span { start: 0, end: 0 } }
}

pub fn empty_path_segment(segment: &PathSegment) -> (r: PathSegment)
    ensures
        view_path_segment(r) == erase_path_segment(view_path_segment(*segment)),
{
    PathSegment { ident: empty_ident(&segment.ident), span: Span { start: 0, end: 0 } }
}

pub fn empty_path_segments(segments: &Vec<PathSegment>) -> (r: Vec<PathSegment>)
    ensures
        view_path_segments(r@) == erase_path_segments(view_path_segments(segments@)),
{
    let mut out: Vec<PathSegment> = Vec::new();
    let mut i: usize = 0;
    while i < segments.len()
        invariant
            i <= segments@.len(),
            out@.len() == i,
            forall|j: int| 0 <= j < i ==> view_path_segment(out@[j]) == erase_path_segment(
                view_path_segment(segments@[j]),
            ),
        decreases segments@.len() - i,
    {
        let sanitized = empty_path_segment(&segments[i]);
        out.push(sanitized);
        i = i + 1;
    }
    proof {
        lemma_view_path_segments(out@);
        lemma_view_path_segments(segments@);
        lemma_erase_path_segments(view_path_segments(segments@));
        assert(view_path_segments(out@) =~= erase_path_segments(view_path_segments(segments@)));
    }
    out
}

pub fn empty_path(path: &Path) -> (r: Path)
    ensures
        view_path(r) == erase_path(view_path(*path)),
{
    Path { segments: empty_path_segments(&path.segments), span: Span { start: 0, end: 0 } }
}

pub fn empty_parsed_module(parsed_module: &ParsedModule) -> (r: ParsedModule)
    ensures
        view_parsed_module(r) == erase_parsed_module(view_parsed_module(*parsed_module)),
    decreases *parsed_module,
{
    ParsedModule { items: empty_items(&parsed_module.items) }
}

pub fn empty_items(items: &Vec<Item>) -> (r: Vec<Item>)
    ensures
        view_items(r@) == erase_items(view_items(items@)),
    decreases items@,
{
    let mut out: Vec<Item> = Vec::new();
    let mut i: usize = 0;
    while i < items.len()
        invariant
            i <= items@.len(),
            out@.len() == i,
            forall|j: int| 0 <= j < i ==> view_item(out@[j]) == erase_item(view_item(items@[j])),
        decreases items@.len() - i,
    {
        let sanitized = empty_item(&items[i]);
        out.push(sanitized);
        i = i + 1;
    }
    proof {
        lemma_view_items(out@);
        lemma_view_items(items@);
        lemma_erase_items(view_items(items@));
        assert(view_items(out@) =~= erase_items(view_items(items@)));
    }
    out
}

pub fn empty_item(item: &Item) -> (r: Item)
    ensures
        view_item(r) == erase_item(view_item(*item)),
    decreases *item,
{
    let kind = match &item.kind {
        ItemKind::Function(noir_function) => ItemKind::Function(
            empty_noir_function(noir_function),
        ),
        ItemKind::Trait(noir_trait) => ItemKind::Trait(empty_noir_trait(noir_trait)),
        ItemKind::TraitImpl(noir_trait_impl) => ItemKind::TraitImpl(
            empty_noir_trait_impl(noir_trait_impl),
        ),
        ItemKind::Impl(type_impl) => ItemKind::Impl(empty_type_impl(type_impl)),
        ItemKind::Global(let_statement) => ItemKind::Global(empty_let_statement(let_statement)),
        ItemKind::Submodules(parsed_submodule) => ItemKind::Submodules(
            empty_parsed_submodule(parsed_submodule),
        ),
        ItemKind::ModuleDecl(module_declaration) => ItemKind::ModuleDecl(
            empty_module_declaration(module_declaration),
        ),
        ItemKind::Import(use_tree) => ItemKind::Import(empty_use_tree(use_tree)),
        ItemKind::Struct(noir_struct) => ItemKind::Struct(empty_noir_struct(noir_struct)),
        ItemKind::TypeAlias(noir_type_alias) => ItemKind::TypeAlias(
            empty_noir_type_alias(noir_type_alias),
        ),
    };
    Item { kind, span: Span { start: 0, end: 0 } }
}

pub fn empty_noir_function(noir_function: &NoirFunction) -> (r: NoirFunction)
    ensures
        view_noir_function(r) == erase_noir_function(view_noir_function(*noir_function)),
    decreases *noir_function,
{
    NoirFunction {
        name: empty_ident(&noir_function.name),
        generics: empty_unresolved_generics(&noir_function.generics),
        parameters: empty_params(&noir_function.parameters),
        where_clause: empty_unresolved_trait_constraints(&noir_function.where_clause),
        return_type: empty_function_return_type(&noir_function.return_type),
        body: empty_block_expression(&noir_function.body),
        span: Span { start: 0, end: 0 },
    }
}

pub fn empty_param(param: &Param) -> (r: Param)
    ensures
        view_param(r) == erase_param(view_param(*param)),
    decreases *param,
{
    Param {
        pattern: empty_pattern(&param.pattern),
        typ: empty_unresolved_type(&param.typ),
        span: Span { start: 0, end: 0 },
    }
}

pub fn empty_params(params: &Vec<Param>) -> (r: Vec<Param>)
    ensures
        view_params(r@) == erase_params(view_params(params@)),
    decreases params@,
{
    let mut out: Vec<Param> = Vec::new();
    let mut i: usize = 0;
    while i < params.len()
        invariant
            i <= params@.len(),
            out@.len() == i,
            forall|j: int| 0 <= j < i ==> view_param(out@[j]) == erase_param(view_param(params@[j])),
        decreases params@.len() - i,
    {
        let sanitized = empty_param(&params[i]);
        out.push(sanitized);
        i = i + 1;
    }
    proof {
        lemma_view_params(out@);
        lemma_view_params(params@);
        lemma_erase_params(view_params(params@));
        assert(view_params(out@) =~= erase_params(view_params(params@)));
    }
    out
}

pub fn empty_noir_trait(noir_trait: &NoirTrait) -> (r: NoirTrait)
    ensures
        view_noir_trait(r) == erase_noir_trait(view_noir_trait(*noir_trait)),
    decreases *noir_trait,
{
    NoirTrait {
        name: empty_ident(&noir_trait.name),
        generics: empty_unresolved_generics(&noir_trait.generics),
        where_clause: empty_unresolved_trait_constraints(&noir_trait.where_clause),
        items: empty_trait_items(&noir_trait.items),
        span: Span { start: 0, end: 0 },
    }
}

pub fn empty_trait_items(items: &Vec<TraitItem>) -> (r: Vec<TraitItem>)
    ensures
        view_trait_items(r@) == erase_trait_items(view_trait_items(items@)),
    decreases items@,
{
    let mut out: Vec<TraitItem> = Vec::new();
    let mut i: usize = 0;
    while i < items.len()
        invariant
            i <= items@.len(),
            out@.len() == i,
            forall|j: int| 0 <= j < i ==> view_trait_item(out@[j]) == erase_trait_item(
                view_trait_item(items@[j]),
            ),
        decreases items@.len() - i,
    {
        let sanitized = empty_trait_item(&items[i]);
        out.push(sanitized);
        i = i + 1;
    }
    proof {
        lemma_view_trait_items(out@);
        lemma_view_trait_items(items@);
        lemma_erase_trait_items(view_trait_items(items@));
        assert(view_trait_items(out@) =~= erase_trait_items(view_trait_items(items@)));
    }
    out
}

pub fn empty_trait_item(trait_item: &TraitItem) -> (r: TraitItem)
    ensures
        view_trait_item(r) == erase_trait_item(view_trait_item(*trait_item)),
    decreases *trait_item,
{
    match trait_item {
        TraitItem::Function { name, generics, parameters, return_type, where_clause, body } => {
            let sanitized_body = match body {
                Option::Some(b) => Option::Some(empty_block_expression(b)),
                Option::None => Option::None,
            };
            TraitItem::Function {
                name: empty_ident(name),
                generics: empty_unresolved_generics(generics),
                parameters: empty_ident_types(parameters),
                return_type: empty_function_return_type(return_type),
                where_clause: empty_unresolved_trait_constraints(where_clause),
                body: sanitized_body,
            }
        },
        TraitItem::Constant { name, typ, default_value } => {
            let sanitized_default = match default_value {
                Option::Some(e) => Option::Some(empty_expression(e)),
                Option::None => Option::None,
            };
            TraitItem::Constant {
                name: empty_ident(name),
                typ: empty_unresolved_type(typ),
                default_value: sanitized_default,
            }
        },
        TraitItem::Type { name } => TraitItem::Type { name: empty_ident(name) },
    }
}

pub fn empty_noir_trait_impl(noir_trait_impl: &NoirTraitImpl) -> (r: NoirTraitImpl)
    ensures
        view_noir_trait_impl(r) == erase_noir_trait_impl(view_noir_trait_impl(*noir_trait_impl)),
    decreases *noir_trait_impl,
{
    NoirTraitImpl {
        trait_name: empty_path(&noir_trait_impl.trait_name),
        impl_generics: empty_unresolved_generics(&noir_trait_impl.impl_generics),
        object_type: empty_unresolved_type(&noir_trait_impl.object_type),
        where_clause: empty_unresolved_trait_constraints(&noir_trait_impl.where_clause),
        items: empty_trait_impl_items(&noir_trait_impl.items),
    }
}

pub fn empty_trait_impl_items(items: &Vec<TraitImplItem>) -> (r: Vec<TraitImplItem>)
    ensures
        view_trait_impl_items(r@) == erase_trait_impl_items(view_trait_impl_items(items@)),
    decreases items@,
{
    let mut out: Vec<TraitImplItem> = Vec::new();
    let mut i: usize = 0;
    while i < items.len()
        invariant
            i <= items@.len(),
            out@.len() == i,
            forall|j: int| 0 <= j < i ==> view_trait_impl_item(out@[j]) == erase_trait_impl_item(
                view_trait_impl_item(items@[j]),
            ),
        decreases items@.len() - i,
    {
        let sanitized = empty_trait_impl_item(&items[i]);
        out.push(sanitized);
        i = i + 1;
    }
    proof {
        lemma_view_trait_impl_items(out@);
        lemma_view_trait_impl_items(items@);
        lemma_erase_trait_impl_items(view_trait_impl_items(items@));
        assert(view_trait_impl_items(out@) =~= erase_trait_impl_items(
            view_trait_impl_items(items@),
        ));
    }
    out
}

pub fn empty_trait_impl_item(trait_impl_item: &TraitImplItem) -> (r: TraitImplItem)
    ensures
        view_trait_impl_item(r) == erase_trait_impl_item(view_trait_impl_item(*trait_impl_item)),
    decreases *trait_impl_item,
{
    match trait_impl_item {
        TraitImplItem::Function(noir_function) => TraitImplItem::Function(
            empty_noir_function(noir_function),
        ),
        TraitImplItem::Constant(name, typ, default_value) => TraitImplItem::Constant(
            empty_ident(name),
            empty_unresolved_type(typ),
            empty_expression(default_value),
        ),
        TraitImplItem::Type { name, alias } => (
            TraitImplItem::Type { name: empty_ident(name), alias: empty_unresolved_type(alias) }
        ),
    }
}

pub fn empty_type_impl(type_impl: &TypeImpl) -> (r: TypeImpl)
    ensures
        view_type_impl(r) == erase_type_impl(view_type_impl(*type_impl)),
    decreases *type_impl,
{
    TypeImpl {
        object_type: empty_unresolved_type(&type_impl.object_type),
        type_span: Span { start: 0, end: 0 },
        generics: empty_unresolved_generics(&type_impl.generics),
        where_clause: empty_unresolved_trait_constraints(&type_impl.where_clause),
        methods: empty_methods(&type_impl.methods),
    }
}

pub fn empty_methods(methods: &Vec<(NoirFunction, Span)>) -> (r: Vec<(NoirFunction, Span)>)
    ensures
        view_methods(r@) == erase_methods(view_methods(methods@)),
    decreases methods@,
{
    let mut out: Vec<(NoirFunction, Span)> = Vec::new();
    let mut i: usize = 0;
    while i < methods.len()
        invariant
            i <= methods@.len(),
            out@.len() == i,
            forall|j: int| 0 <= j < i ==> view_noir_function(out@[j].0) == erase_noir_function(
                view_noir_function(methods@[j].0),
            ) && out@[j].1 == methods@[j].1,
        decreases methods@.len() - i,
    {
        let m = &methods[i];
        let sanitized = (empty_noir_function(&m.0), m.1);
        out.push(sanitized);
        i = i + 1;
    }
    proof {
        lemma_view_methods(out@);
        lemma_view_methods(methods@);
        lemma_erase_methods(view_methods(methods@));
        assert(view_methods(out@) =~= erase_methods(view_methods(methods@)));
    }
    out
}

pub fn empty_let_statement(let_statement: &LetStatement) -> (r: LetStatement)
    ensures
        view_let_statement(r) == erase_let_statement(view_let_statement(*let_statement)),
    decreases *let_statement,
{
    LetStatement {
        pattern: empty_pattern(&let_statement.pattern),
        typ: empty_unresolved_type(&let_statement.typ),
        expression: empty_expression(&let_statement.expression),
    }
}

pub fn empty_parsed_submodule(parsed_submodule: &ParsedSubModule) -> (r: ParsedSubModule)
    ensures
        view_parsed_sub_module(r) == erase_parsed_sub_module(
            view_parsed_sub_module(*parsed_submodule),
        ),
    decreases *parsed_submodule,
{
    ParsedSubModule {
        name: empty_ident(&parsed_submodule.name),
        contents: empty_parsed_module(&parsed_submodule.contents),
    }
}

pub fn empty_module_declaration(module_declaration: &ModuleDeclaration) -> (r: ModuleDeclaration)
    ensures
        view_module_declaration(r) == erase_module_declaration(
            view_module_declaration(*module_declaration),
        ),
{
    ModuleDeclaration { ident: empty_ident(&module_declaration.ident) }
}

pub fn empty_use_tree(use_tree: &UseTree) -> (r: UseTree)
    ensures
        view_use_tree(r) == erase_use_tree(view_use_tree(*use_tree)),
    decreases *use_tree,
{
    let kind = match &use_tree.kind {
        UseTreeKind::Path(name, alias) => {
            let sanitized_alias = match alias {
                Option::Some(a) => Option::Some(empty_ident(a)),
                Option::None => Option::None,
            };
            UseTreeKind::Path(empty_ident(name), sanitized_alias)
        },
        UseTreeKind::List(use_trees) => UseTreeKind::List(empty_use_trees(use_trees)),
    };
    UseTree { prefix: empty_path(&use_tree.prefix), kind }
}

pub fn empty_use_trees(use_trees: &Vec<UseTree>) -> (r: Vec<UseTree>)
    ensures
        view_use_trees(r@) == erase_use_trees(view_use_trees(use_trees@)),
    decreases use_trees@,
{
    let mut out: Vec<UseTree> = Vec::new();
    let mut i: usize = 0;
    while i < use_trees.len()
        invariant
            i <= use_trees@.len(),
            out@.len() == i,
            forall|j: int| 0 <= j < i ==> view_use_tree(out@[j]) == erase_use_tree(
                view_use_tree(use_trees@[j]),
            ),
        decreases use_trees@.len() - i,
    {
        let sanitized = empty_use_tree(&use_trees[i]);
        out.push(sanitized);
        i = i + 1;
    }
    proof {
        lemma_view_use_trees(out@);
        lemma_view_use_trees(use_trees@);
        lemma_erase_use_trees(view_use_trees(use_trees@));
        assert(view_use_trees(out@) =~= erase_use_trees(view_use_trees(use_trees@)));
    }
    out
}

pub fn empty_noir_struct(noir_struct: &NoirStruct) -> (r: NoirStruct)
    ensures
        view_noir_struct(r) == erase_noir_struct(view_noir_struct(*noir_struct)),
    decreases *noir_struct,
{
    NoirStruct {
        name: empty_ident(&noir_struct.name),
        fields: empty_ident_types(&noir_struct.fields),
        generics: empty_unresolved_generics(&noir_struct.generics),
        span: Span { start: 0, end: 0 },
    }
}

pub fn empty_noir_type_alias(noir_type_alias: &NoirTypeAlias) -> (r: NoirTypeAlias)
    ensures
        view_noir_type_alias(r) == erase_noir_type_alias(view_noir_type_alias(*noir_type_alias)),
    decreases *noir_type_alias,
{
    NoirTypeAlias {
        name: empty_ident(&noir_type_alias.name),
        typ: empty_unresolved_type(&noir_type_alias.typ),
        span: Span { start: 0, end: 0 },
    }
}

pub fn empty_ident_types(pairs: &Vec<(Ident, UnresolvedType)>) -> (r: Vec<(Ident, UnresolvedType)>)
    ensures
        view_ident_types(r@) == erase_ident_types(view_ident_types(pairs@)),
    decreases pairs@,
{
    let mut out: Vec<(Ident, UnresolvedType)> = Vec::new();
    let mut i: usize = 0;
    while i < pairs.len()
        invariant
            i <= pairs@.len(),
            out@.len() == i,
            forall|j: int| 0 <= j < i ==> view_ident(out@[j].0) == erase_ident(
                view_ident(pairs@[j].0),
            ) && view_unresolved_type(out@[j].1) == erase_unresolved_type(
                view_unresolved_type(pairs@[j].1),
            ),
        decreases pairs@.len() - i,
    {
        let p = &pairs[i];
        let sanitized = (empty_ident(&p.0), empty_unresolved_type(&p.1));
        out.push(sanitized);
        i = i + 1;
    }
    proof {
        lemma_view_ident_types(out@);
        lemma_view_ident_types(pairs@);
        lemma_erase_ident_types(view_ident_types(pairs@));
        assert(view_ident_types(out@) =~= erase_ident_types(view_ident_types(pairs@)));
    }
    out
}

pub fn empty_block_expression(block_expression: &BlockExpression) -> (r: BlockExpression)
    ensures
        view_block_expression(r) == erase_block_expression(
            view_block_expression(*block_expression),
        ),
    decreases *block_expression,
{
    BlockExpression { statements: empty_statements(&block_expression.statements) }
}

pub fn empty_statements(statements: &Vec<Statement>) -> (r: Vec<Statement>)
    ensures
        view_statements(r@) == erase_statements(view_statements(statements@)),
    decreases statements@,
{
    let mut out: Vec<Statement> = Vec::new();
    let mut i: usize = 0;
    while i < statements.len()
        invariant
            i <= statements@.len(),
            out@.len() == i,
            forall|j: int| 0 <= j < i ==> view_statement(out@[j]) == erase_statement(
                view_statement(statements@[j]),
            ),
        decreases statements@.len() - i,
    {
        let sanitized = empty_statement(&statements[i]);
        out.push(sanitized);
        i = i + 1;
    }
    proof {
        lemma_view_statements(out@);
        lemma_view_statements(statements@);
        lemma_erase_statements(view_statements(statements@));
        assert(view_statements(out@) =~= erase_statements(view_statements(statements@)));
    }
    out
}

pub fn empty_statement(statement: &Statement) -> (r: Statement)
    ensures
        view_statement(r) == erase_statement(view_statement(*statement)),
    decreases *statement,
{
    let kind = match &statement.kind {
        StatementKind::Let(let_statement) => StatementKind::Let(
            empty_let_statement(let_statement),
        ),
        StatementKind::Constrain(constrain_statement) => StatementKind::Constrain(
            empty_constrain_statement(constrain_statement),
        ),
        StatementKind::Expression(expression) => StatementKind::Expression(
            empty_expression(expression),
        ),
        StatementKind::Assign(assign_statement) => StatementKind::Assign(
            empty_assign_statement(assign_statement),
        ),
        StatementKind::For(for_loop_statement) => StatementKind::For(
            empty_for_loop_statement(for_loop_statement),
        ),
        StatementKind::Comptime(inner) => StatementKind::Comptime(
            Box::new(empty_statement(inner)),
        ),
        StatementKind::Semi(expression) => StatementKind::Semi(empty_expression(expression)),
        StatementKind::Break => StatementKind::Break,
        StatementKind::Continue => StatementKind::Continue,
        StatementKind::Error => StatementKind::Error,
    };
    Statement { kind, span: Span { start: 0, end: 0 } }
}

pub fn empty_constrain_statement(constrain_statement: &ConstrainStatement) -> (r:
    ConstrainStatement)
    ensures
        view_constrain_statement(r) == erase_constrain_statement(
            view_constrain_statement(*constrain_statement),
        ),
    decreases *constrain_statement,
{
    let message = match &constrain_statement.1 {
        Option::Some(expression) => Option::Some(empty_expression(expression)),
        Option::None => Option::None,
    };
    ConstrainStatement(empty_expression(&constrain_statement.0), message)
}

pub fn empty_assign_statement(assign_statement: &AssignStatement) -> (r: AssignStatement)
    ensures
        view_assign_statement(r) == erase_assign_statement(
            view_assign_statement(*assign_statement),
        ),
    decreases *assign_statement,
{
    AssignStatement {
        lvalue: empty_lvalue(&assign_statement.lvalue),
        expression: empty_expression(&assign_statement.expression),
    }
}

pub fn empty_lvalue(lvalue: &LValue) -> (r: LValue)
    ensures
        view_lvalue(r) == erase_lvalue(view_lvalue(*lvalue)),
    decreases *lvalue,
{
    match lvalue {
        LValue::Ident(ident) => LValue::Ident(empty_ident(ident)),
        LValue::MemberAccess { object, field_name, span } => (
            LValue::MemberAccess {
                object: Box::new(empty_lvalue(object)),
                field_name: empty_ident(field_name),
                span: *span,
            }
        ),
        LValue::Index { array, index, span } => (
            LValue::Index {
                array: Box::new(empty_lvalue(array)),
                index: empty_expression(index),
                span: *span,
            }
        ),
        LValue::Dereference(inner, span) => LValue::Dereference(
            Box::new(empty_lvalue(inner)),
            *span,
        ),
    }
}

pub fn empty_for_loop_statement(for_loop_statement: &ForLoopStatement) -> (r: ForLoopStatement)
    ensures
        view_for_loop_statement(r) == erase_for_loop_statement(
            view_for_loop_statement(*for_loop_statement),
        ),
    decreases *for_loop_statement,
{
    ForLoopStatement {
        identifier: empty_ident(&for_loop_statement.identifier),
        range: empty_for_range(&for_loop_statement.range),
        block: empty_expression(&for_loop_statement.block),
        span: Span { start: 0, end: 0 },
    }
}

pub fn empty_for_range(for_range: &ForRange) -> (r: ForRange)
    ensures
        view_for_range(r) == erase_for_range(view_for_range(*for_range)),
    decreases *for_range,
{
    match for_range {
        ForRange::Range(from, to) => ForRange::Range(empty_expression(from), empty_expression(to)),
        ForRange::Array(expression) => ForRange::Array(empty_expression(expression)),
    }
}

pub fn empty_expressions(expressions: &Vec<Expression>) -> (r: Vec<Expression>)
    ensures
        view_expressions(r@) == erase_expressions(view_expressions(expressions@)),
    decreases expressions@,
{
    let mut out: Vec<Expression> = Vec::new();
    let mut i: usize = 0;
    while i < expressions.len()
        invariant
            i <= expressions@.len(),
            out@.len() == i,
            forall|j: int| 0 <= j < i ==> view_expression(out@[j]) == erase_expression(
                view_expression(expressions@[j]),
            ),
        decreases expressions@.len() - i,
    {
        let sanitized = empty_expression(&expressions[i]);
        out.push(sanitized);
        i = i + 1;
    }
    proof {
        lemma_view_expressions(out@);
        lemma_view_expressions(expressions@);
        lemma_erase_expressions(view_expressions(expressions@));
        assert(view_expressions(out@) =~= erase_expressions(view_expressions(expressions@)));
    }
    out
}

pub fn empty_expression(expression: &Expression) -> (r: Expression)
    ensures
        view_expression(r) == erase_expression(view_expression(*expression)),
    decreases *expression,
{
    let kind = match &expression.kind {
        ExpressionKind::Literal(literal) => ExpressionKind::Literal(empty_literal(literal)),
        ExpressionKind::Block(block_expression) => ExpressionKind::Block(
            empty_block_expression(block_expression),
        ),
        ExpressionKind::Prefix(prefix_expression) => ExpressionKind::Prefix(
            Box::new(empty_prefix_expression(prefix_expression)),
        ),
        ExpressionKind::Index(index_expression) => ExpressionKind::Index(
            Box::new(empty_index_expression(index_expression)),
        ),
        ExpressionKind::Call(call_expression) => ExpressionKind::Call(
            Box::new(empty_call_expression(call_expression)),
        ),
        ExpressionKind::MethodCall(method_call_expression) => ExpressionKind::MethodCall(
            Box::new(empty_method_call_expression(method_call_expression)),
        ),
        ExpressionKind::Constructor(constructor_expression) => ExpressionKind::Constructor(
            Box::new(empty_constructor_expression(constructor_expression)),
        ),
        ExpressionKind::MemberAccess(member_access_expression) => ExpressionKind::MemberAccess(
            Box::new(empty_member_access_expression(member_access_expression)),
        ),
        ExpressionKind::Cast(cast_expression) => ExpressionKind::Cast(
            Box::new(empty_cast_expression(cast_expression)),
        ),
        ExpressionKind::Infix(infix_expression) => ExpressionKind::Infix(
            Box::new(empty_infix_expression(infix_expression)),
        ),
        ExpressionKind::If(if_expression) => ExpressionKind::If(
            Box::new(empty_if_expression(if_expression)),
        ),
        ExpressionKind::Variable(path) => ExpressionKind::Variable(empty_path(path)),
        ExpressionKind::Tuple(expressions) => ExpressionKind::Tuple(
            empty_expressions(expressions),
        ),
        ExpressionKind::Lambda(lambda) => ExpressionKind::Lambda(Box::new(empty_lambda(lambda))),
        ExpressionKind::Parenthesized(inner) => ExpressionKind::Parenthesized(
            Box::new(empty_expression(inner)),
        ),
        ExpressionKind::Quote(tokens) => ExpressionKind::Quote(tokens.clone()),
        ExpressionKind::Unquote(inner) => ExpressionKind::Unquote(
            Box::new(empty_expression(inner)),
        ),
        ExpressionKind::Comptime(block_expression, span) => ExpressionKind::Comptime(
            empty_block_expression(block_expression),
            *span,
        ),
        ExpressionKind::Resolved(id) => ExpressionKind::Resolved(*id),
        ExpressionKind::Error => ExpressionKind::Error,
    };
    Expression { kind, span: Span { start: 0, end: 0 } }
}

pub fn empty_literal(literal: &Literal) -> (r: Literal)
    ensures
        view_literal(r) == erase_literal(view_literal(*literal)),
    decreases *literal,
{
    match literal {
        Literal::Array(array_literal) => Literal::Array(empty_array_literal(array_literal)),
        Literal::Slice(array_literal) => Literal::Slice(empty_array_literal(array_literal)),
        Literal::Bool(b) => Literal::Bool(*b),
        Literal::Integer(v, sign) => Literal::Integer(*v, *sign),
        Literal::Str(s) => Literal::Str(s.clone()),
        Literal::RawStr(s, hashes) => Literal::RawStr(s.clone(), *hashes),
        Literal::FmtStr(s) => Literal::FmtStr(s.clone()),
        Literal::Unit => Literal::Unit,
    }
}

pub fn empty_array_literal(array_literal: &ArrayLiteral) -> (r: ArrayLiteral)
    ensures
        view_array_literal(r) == erase_array_literal(view_array_literal(*array_literal)),
    decreases *array_literal,
{
    match array_literal {
        ArrayLiteral::Standard(expressions) => ArrayLiteral::Standard(
            empty_expressions(expressions),
        ),
        ArrayLiteral::Repeated { repeated_element, length } => (
            ArrayLiteral::Repeated {
                repeated_element: Box::new(empty_expression(repeated_element)),
                length: Box::new(empty_expression(length)),
            }
        ),
    }
}

pub fn empty_prefix_expression(prefix_expression: &PrefixExpression) -> (r: PrefixExpression)
    ensures
        view_prefix_expression(r) == erase_prefix_expression(
            view_prefix_expression(*prefix_expression),
        ),
    decreases *prefix_expression,
{
    PrefixExpression {
        operator: prefix_expression.operator,
        rhs: empty_expression(&prefix_expression.rhs),
    }
}

pub fn empty_index_expression(index_expression: &IndexExpression) -> (r: IndexExpression)
    ensures
        view_index_expression(r) == erase_index_expression(
            view_index_expression(*index_expression),
        ),
    decreases *index_expression,
{
    IndexExpression {
        collection: empty_expression(&index_expression.collection),
        index: empty_expression(&index_expression.index),
    }
}

pub fn empty_call_expression(call_expression: &CallExpression) -> (r: CallExpression)
    ensures
        view_call_expression(r) == erase_call_expression(view_call_expression(*call_expression)),
    decreases *call_expression,
{
    CallExpression {
        func: empty_expression(&call_expression.func),
        arguments: empty_expressions(&call_expression.arguments),
    }
}

pub fn empty_method_call_expression(method_call_expression: &MethodCallExpression) -> (r:
    MethodCallExpression)
    ensures
        view_method_call_expression(r) == erase_method_call_expression(
            view_method_call_expression(*method_call_expression),
        ),
    decreases *method_call_expression,
{
    let generics = match &method_call_expression.generics {
        Option::Some(types) => Option::Some(empty_unresolved_types(types)),
        Option::None => Option::None,
    };
    MethodCallExpression {
        object: empty_expression(&method_call_expression.object),
        method_name: empty_ident(&method_call_expression.method_name),
        generics,
        arguments: empty_expressions(&method_call_expression.arguments),
    }
}

pub fn empty_constructor_expression(constructor_expression: &ConstructorExpression) -> (r:
    ConstructorExpression)
    ensures
        view_constructor_expression(r) == erase_constructor_expression(
            view_constructor_expression(*constructor_expression),
        ),
    decreases *constructor_expression,
{
    ConstructorExpression {
        type_path: empty_path(&constructor_expression.type_path),
        fields: empty_ident_expressions(&constructor_expression.fields),
    }
}

pub fn empty_ident_expressions(pairs: &Vec<(Ident, Expression)>) -> (r: Vec<(Ident, Expression)>)
    ensures
        view_ident_expressions(r@) == erase_ident_expressions(view_ident_expressions(pairs@)),
    decreases pairs@,
{
    let mut out: Vec<(Ident, Expression)> = Vec::new();
    let mut i: usize = 0;
    while i < pairs.len()
        invariant
            i <= pairs@.len(),
            out@.len() == i,
            forall|j: int| 0 <= j < i ==> view_ident(out@[j].0) == erase_ident(
                view_ident(pairs@[j].0),
            ) && view_expression(out@[j].1) == erase_expression(view_expression(pairs@[j].1)),
        decreases pairs@.len() - i,
    {
        let p = &pairs[i];
        let sanitized = (empty_ident(&p.0), empty_expression(&p.1));
        out.push(sanitized);
        i = i + 1;
    }
    proof {
        lemma_view_ident_expressions(out@);
        lemma_view_ident_expressions(pairs@);
        lemma_erase_ident_expressions(view_ident_expressions(pairs@));
        assert(view_ident_expressions(out@) =~= erase_ident_expressions(
            view_ident_expressions(pairs@),
        ));
    }
    out
}

pub fn empty_member_access_expression(member_access_expression: &MemberAccessExpression) -> (r:
    MemberAccessExpression)
    ensures
        view_member_access_expression(r) == erase_member_access_expression(
            view_member_access_expression(*member_access_expression),
        ),
    decreases *member_access_expression,
{
    MemberAccessExpression {
        lhs: empty_expression(&member_access_expression.lhs),
        rhs: empty_ident(&member_access_expression.rhs),
    }
}

pub fn empty_cast_expression(cast_expression: &CastExpression) -> (r: CastExpression)
    ensures
        view_cast_expression(r) == erase_cast_expression(view_cast_expression(*cast_expression)),
    decreases *cast_expression,
{
    CastExpression {
        lhs: empty_expression(&cast_expression.lhs),
        typ: empty_unresolved_type(&cast_expression.typ),
    }
}

pub fn empty_infix_expression(infix_expression: &InfixExpression) -> (r: InfixExpression)
    ensures
        view_infix_expression(r) == erase_infix_expression(
            view_infix_expression(*infix_expression),
        ),
    decreases *infix_expression,
{
    InfixExpression {
        lhs: empty_expression(&infix_expression.lhs),
        operator: infix_expression.operator,
        rhs: empty_expression(&infix_expression.rhs),
    }
}

pub fn empty_if_expression(if_expression: &IfExpression) -> (r: IfExpression)
    ensures
        view_if_expression(r) == erase_if_expression(view_if_expression(*if_expression)),
    decreases *if_expression,
{
    let alternative = match &if_expression.alternative {
        Option::Some(expression) => Option::Some(empty_expression(expression)),
        Option::None => Option::None,
    };
    IfExpression {
        condition: empty_expression(&if_expression.condition),
        consequence: empty_expression(&if_expression.consequence),
        alternative,
    }
}

pub fn empty_lambda(lambda: &Lambda) -> (r: Lambda)
    ensures
        view_lambda(r) == erase_lambda(view_lambda(*lambda)),
    decreases *lambda,
{
    Lambda {
        parameters: empty_pattern_types(&lambda.parameters),
        return_type: empty_unresolved_type(&lambda.return_type),
        body: empty_expression(&lambda.body),
    }
}

pub fn empty_pattern_types(pairs: &Vec<(Pattern, UnresolvedType)>) -> (r: Vec<
    (Pattern, UnresolvedType),
>)
    ensures
        view_pattern_types(r@) == erase_pattern_types(view_pattern_types(pairs@)),
    decreases pairs@,
{
    let mut out: Vec<(Pattern, UnresolvedType)> = Vec::new();
    let mut i: usize = 0;
    while i < pairs.len()
        invariant
            i <= pairs@.len(),
            out@.len() == i,
            forall|j: int| 0 <= j < i ==> view_pattern(out@[j].0) == erase_pattern(
                view_pattern(pairs@[j].0),
            ) && view_unresolved_type(out@[j].1) == erase_unresolved_type(
                view_unresolved_type(pairs@[j].1),
            ),
        decreases pairs@.len() - i,
    {
        let p = &pairs[i];
        let sanitized = (empty_pattern(&p.0), empty_unresolved_type(&p.1));
        out.push(sanitized);
        i = i + 1;
    }
    proof {
        lemma_view_pattern_types(out@);
        lemma_view_pattern_types(pairs@);
        lemma_erase_pattern_types(view_pattern_types(pairs@));
        assert(view_pattern_types(out@) =~= erase_pattern_types(view_pattern_types(pairs@)));
    }
    out
}

pub fn empty_unresolved_types(unresolved_types: &Vec<UnresolvedType>) -> (r: Vec<UnresolvedType>)
    ensures
        view_unresolved_types(r@) == erase_unresolved_types(
            view_unresolved_types(unresolved_types@),
        ),
    decreases unresolved_types@,
{
    let mut out: Vec<UnresolvedType> = Vec::new();
    let mut i: usize = 0;
    while i < unresolved_types.len()
        invariant
            i <= unresolved_types@.len(),
            out@.len() == i,
            forall|j: int| 0 <= j < i ==> view_unresolved_type(out@[j]) == erase_unresolved_type(
                view_unresolved_type(unresolved_types@[j]),
            ),
        decreases unresolved_types@.len() - i,
    {
        let sanitized = empty_unresolved_type(&unresolved_types[i]);
        out.push(sanitized);
        i = i + 1;
    }
    proof {
        lemma_view_unresolved_types(out@);
        lemma_view_unresolved_types(unresolved_types@);
        lemma_erase_unresolved_types(view_unresolved_types(unresolved_types@));
        assert(view_unresolved_types(out@) =~= erase_unresolved_types(
            view_unresolved_types(unresolved_types@),
        ));
    }
    out
}

pub fn empty_unresolved_type(unresolved_type: &UnresolvedType) -> (r: UnresolvedType)
    ensures
        view_unresolved_type(r) == erase_unresolved_type(view_unresolved_type(*unresolved_type)),
    decreases *unresolved_type,
{
    let typ = match &unresolved_type.typ {
        UnresolvedTypeData::Array(size, elem) => UnresolvedTypeData::Array(
            empty_unresolved_type_expression(size),
            Box::new(empty_unresolved_type(elem)),
        ),
        UnresolvedTypeData::Slice(elem) => UnresolvedTypeData::Slice(
            Box::new(empty_unresolved_type(elem)),
        ),
        UnresolvedTypeData::Expression(type_expression) => UnresolvedTypeData::Expression(
            empty_unresolved_type_expression(type_expression),
        ),
        UnresolvedTypeData::FormatString(size, elem) => UnresolvedTypeData::FormatString(
            empty_unresolved_type_expression(size),
            Box::new(empty_unresolved_type(elem)),
        ),
        UnresolvedTypeData::Parenthesized(inner) => UnresolvedTypeData::Parenthesized(
            Box::new(empty_unresolved_type(inner)),
        ),
        UnresolvedTypeData::Named(path, args, wildcard) => UnresolvedTypeData::Named(
            empty_path(path),
            empty_unresolved_types(args),
            *wildcard,
        ),
        UnresolvedTypeData::TraitAsType(path, args) => UnresolvedTypeData::TraitAsType(
            empty_path(path),
            empty_unresolved_types(args),
        ),
        UnresolvedTypeData::MutableReference(inner) => UnresolvedTypeData::MutableReference(
            Box::new(empty_unresolved_type(inner)),
        ),
        UnresolvedTypeData::Tuple(elems) => UnresolvedTypeData::Tuple(
            empty_unresolved_types(elems),
        ),
        UnresolvedTypeData::Function(args, ret, env) => UnresolvedTypeData::Function(
            empty_unresolved_types(args),
            Box::new(empty_unresolved_type(ret)),
            Box::new(clone_unresolved_type(env)),
        ),
        UnresolvedTypeData::FieldElement => UnresolvedTypeData::FieldElement,
        UnresolvedTypeData::Integer(sign, bits) => UnresolvedTypeData::Integer(*sign, *bits),
        UnresolvedTypeData::Bool => UnresolvedTypeData::Bool,
        UnresolvedTypeData::String(len) => UnresolvedTypeData::String(*len),
        UnresolvedTypeData::Unit => UnresolvedTypeData::Unit,
        UnresolvedTypeData::Quoted(q) => UnresolvedTypeData::Quoted(*q),
        UnresolvedTypeData::Resolved(id) => UnresolvedTypeData::Resolved(*id),
        UnresolvedTypeData::Unspecified => UnresolvedTypeData::Unspecified,
        UnresolvedTypeData::Error => UnresolvedTypeData::Error,
    };
    UnresolvedType { typ, span: Span { start: 0, end: 0 } }
}

pub fn empty_unresolved_type_expression(unresolved_type_expression: &UnresolvedTypeExpression) -> (
    r: UnresolvedTypeExpression)
    ensures
        view_unresolved_type_expression(r) == erase_unresolved_type_expression(
            view_unresolved_type_expression(*unresolved_type_expression),
        ),
    decreases *unresolved_type_expression,
{
    match unresolved_type_expression {
        UnresolvedTypeExpression::Variable(path) => UnresolvedTypeExpression::Variable(
            empty_path(path),
        ),
        UnresolvedTypeExpression::BinaryOperation(lhs, op, rhs, span) => (
            UnresolvedTypeExpression::BinaryOperation(
                Box::new(empty_unresolved_type_expression(lhs)),
                *op,
                Box::new(empty_unresolved_type_expression(rhs)),
                *span,
            )
        ),
        UnresolvedTypeExpression::Constant(v, span) => UnresolvedTypeExpression::Constant(
            *v,
            *span,
        ),
    }
}

pub fn empty_unresolved_generics(generics: &Vec<UnresolvedGeneric>) -> (r: Vec<UnresolvedGeneric>)
    ensures
        view_generics(r@) == erase_generics(view_generics(generics@)),
    decreases generics@,
{
    let mut out: Vec<UnresolvedGeneric> = Vec::new();
    let mut i: usize = 0;
    while i < generics.len()
        invariant
            i <= generics@.len(),
            out@.len() == i,
            forall|j: int| 0 <= j < i ==> view_unresolved_generic(out@[j])
                == erase_unresolved_generic(view_unresolved_generic(generics@[j])),
        decreases generics@.len() - i,
    {
        let sanitized = empty_unresolved_generic(&generics[i]);
        out.push(sanitized);
        i = i + 1;
    }
    proof {
        lemma_view_generics(out@);
        lemma_view_generics(generics@);
        lemma_erase_generics(view_generics(generics@));
        assert(view_generics(out@) =~= erase_generics(view_generics(generics@)));
    }
    out
}

pub fn empty_unresolved_generic(unresolved_generic: &UnresolvedGeneric) -> (r: UnresolvedGeneric)
    ensures
        view_unresolved_generic(r) == erase_unresolved_generic(
            view_unresolved_generic(*unresolved_generic),
        ),
    decreases *unresolved_generic,
{
    match unresolved_generic {
        UnresolvedGeneric::Variable(ident) => UnresolvedGeneric::Variable(empty_ident(ident)),
        UnresolvedGeneric::Numeric { ident, typ } => (
            UnresolvedGeneric::Numeric {
                ident: empty_ident(ident),
                typ: empty_unresolved_type(typ),
            }
        ),
    }
}

pub fn empty_unresolved_trait_constraints(constraints: &Vec<UnresolvedTraitConstraint>) -> (r: Vec<
    UnresolvedTraitConstraint,
>)
    ensures
        view_constraints(r@) == erase_constraints(view_constraints(constraints@)),
    decreases constraints@,
{
    let mut out: Vec<UnresolvedTraitConstraint> = Vec::new();
    let mut i: usize = 0;
    while i < constraints.len()
        invariant
            i <= constraints@.len(),
            out@.len() == i,
            forall|j: int| 0 <= j < i ==> view_unresolved_trait_constraint(out@[j])
                == erase_unresolved_trait_constraint(
                view_unresolved_trait_constraint(constraints@[j]),
            ),
        decreases constraints@.len() - i,
    {
        let sanitized = empty_unresolved_trait_constraint(&constraints[i]);
        out.push(sanitized);
        i = i + 1;
    }
    proof {
        lemma_view_constraints(out@);
        lemma_view_constraints(constraints@);
        lemma_erase_constraints(view_constraints(constraints@));
        assert(view_constraints(out@) =~= erase_constraints(view_constraints(constraints@)));
    }
    out
}

pub fn empty_unresolved_trait_constraint(
    unresolved_trait_constraint: &UnresolvedTraitConstraint,
) -> (r: UnresolvedTraitConstraint)
    ensures
        view_unresolved_trait_constraint(r) == erase_unresolved_trait_constraint(
            view_unresolved_trait_constraint(*unresolved_trait_constraint),
        ),
    decreases *unresolved_trait_constraint,
{
    UnresolvedTraitConstraint { typ: empty_unresolved_type(&unresolved_trait_constraint.typ) }
}

pub fn empty_function_return_type(function_return_type: &FunctionReturnType) -> (r:
    FunctionReturnType)
    ensures
        view_function_return_type(r) == erase_function_return_type(
            view_function_return_type(*function_return_type),
        ),
    decreases *function_return_type,
{
    match function_return_type {
        FunctionReturnType::Default(span) => FunctionReturnType::Default(*span),
        FunctionReturnType::Ty(unresolved_type) => FunctionReturnType::Ty(
            empty_unresolved_type(unresolved_type),
        ),
    }
}

pub fn empty_patterns(patterns: &Vec<Pattern>) -> (r: Vec<Pattern>)
    ensures
        view_patterns(r@) == erase_patterns(view_patterns(patterns@)),
    decreases patterns@,
{
    let mut out: Vec<Pattern> = Vec::new();
    let mut i: usize = 0;
    while i < patterns.len()
        invariant
            i <= patterns@.len(),
            out@.len() == i,
            forall|j: int| 0 <= j < i ==> view_pattern(out@[j]) == erase_pattern(
                view_pattern(patterns@[j]),
            ),
        decreases patterns@.len() - i,
    {
        let sanitized = empty_pattern(&patterns[i]);
        out.push(sanitized);
        i = i + 1;
    }
    proof {
        lemma_view_patterns(out@);
        lemma_view_patterns(patterns@);
        lemma_erase_patterns(view_patterns(patterns@));
        assert(view_patterns(out@) =~= erase_patterns(view_patterns(patterns@)));
    }
    out
}

pub fn empty_ident_patterns(pairs: &Vec<(Ident, Pattern)>) -> (r: Vec<(Ident, Pattern)>)
    ensures
        view_ident_patterns(r@) == erase_ident_patterns(view_ident_patterns(pairs@)),
    decreases pairs@,
{
    let mut out: Vec<(Ident, Pattern)> = Vec::new();
    let mut i: usize = 0;
    while i < pairs.len()
        invariant
            i <= pairs@.len(),
            out@.len() == i,
            forall|j: int| 0 <= j < i ==> view_ident(out@[j].0) == erase_ident(
                view_ident(pairs@[j].0),
            ) && view_pattern(out@[j].1) == erase_pattern(view_pattern(pairs@[j].1)),
        decreases pairs@.len() - i,
    {
        let p = &pairs[i];
        let sanitized = (empty_ident(&p.0), empty_pattern(&p.1));
        out.push(sanitized);
        i = i + 1;
    }
    proof {
        lemma_view_ident_patterns(out@);
        lemma_view_ident_patterns(pairs@);
        lemma_erase_ident_patterns(view_ident_patterns(pairs@));
        assert(view_ident_patterns(out@) =~= erase_ident_patterns(view_ident_patterns(pairs@)));
    }
    out
}

pub fn empty_pattern(pattern: &Pattern) -> (r: Pattern)
    ensures
        view_pattern(r) == erase_pattern(view_pattern(*pattern)),
    decreases *pattern,
{
    match pattern {
        Pattern::Identifier(ident) => Pattern::Identifier(empty_ident(ident)),
        Pattern::Mutable(inner, span, is_synthesized) => Pattern::Mutable(
            Box::new(empty_pattern(inner)),
            *span,
            *is_synthesized,
        ),
        Pattern::Tuple(patterns, span) => Pattern::Tuple(empty_patterns(patterns), *span),
        Pattern::Struct(path, fields, span) => Pattern::Struct(
            empty_path(path),
            empty_ident_patterns(fields),
            *span,
        ),
    }
}

} // verus!
