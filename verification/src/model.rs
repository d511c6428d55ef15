//! The mathematical model of the tree: one abstract type per concrete node
//! type, with `Seq` in place of `Vec`.  All contracts and laws are stated
//! over these types.

use vstd::prelude::*;
use crate::ast::{Span, UnaryOp, BinaryOp};

verus! {

pub struct IdentView {
    pub text: String,
    pub span: Span,
}

pub struct PathSegmentView {
    pub ident: IdentView,
    pub span: Span,
}

pub struct PathView {
    pub segments: Seq<PathSegmentView>,
    pub span: Span,
}

pub struct ParsedModuleView {
    pub items: Seq<ItemView>,
}

pub struct ItemView {
    pub kind: ItemKindView,
    pub span: Span,
}

pub enum ItemKindView {
    Function(NoirFunctionView),
    Trait(NoirTraitView),
    TraitImpl(NoirTraitImplView),
    Impl(TypeImplView),
    Global(LetStatementView),
    Submodules(ParsedSubModuleView),
    ModuleDecl(ModuleDeclarationView),
    Import(UseTreeView),
    Struct(NoirStructView),
    TypeAlias(NoirTypeAliasView),
}

pub struct NoirFunctionView {
    pub name: IdentView,
    pub generics: Seq<UnresolvedGenericView>,
    pub parameters: Seq<ParamView>,
    pub where_clause: Seq<UnresolvedTraitConstraintView>,
    pub return_type: FunctionReturnTypeView,
    pub body: BlockExpressionView,
    pub span: Span,
}

pub struct ParamView {
    pub pattern: PatternView,
    pub typ: UnresolvedTypeView,
    pub span: Span,
}

pub struct NoirTraitView {
    pub name: IdentView,
    pub generics: Seq<UnresolvedGenericView>,
    pub where_clause: Seq<UnresolvedTraitConstraintView>,
    pub items: Seq<TraitItemView>,
    pub span: Span,
}

pub enum TraitItemView {
    Function {
        name: IdentView,
        generics: Seq<UnresolvedGenericView>,
        parameters: Seq<(IdentView, UnresolvedTypeView)>,
        return_type: FunctionReturnTypeView,
        where_clause: Seq<UnresolvedTraitConstraintView>,
        body: Option<BlockExpressionView>,
    },
    Constant { name: IdentView, typ: UnresolvedTypeView, default_value: Option<ExpressionView> },
    Type { name: IdentView },
}

pub struct NoirTraitImplView {
    pub trait_name: PathView,
    pub impl_generics: Seq<UnresolvedGenericView>,
    pub object_type: UnresolvedTypeView,
    pub where_clause: Seq<UnresolvedTraitConstraintView>,
    pub items: Seq<TraitImplItemView>,
}

pub enum TraitImplItemView {
    Function(NoirFunctionView),
    Constant(IdentView, UnresolvedTypeView, ExpressionView),
    Type { name: IdentView, alias: UnresolvedTypeView },
}

pub struct TypeImplView {
    pub object_type: UnresolvedTypeView,
    pub type_span: Span,
    pub generics: Seq<UnresolvedGenericView>,
    pub where_clause: Seq<UnresolvedTraitConstraintView>,
    pub methods: Seq<(NoirFunctionView, Span)>,
}

pub struct ParsedSubModuleView {
    pub name: IdentView,
    pub contents: ParsedModuleView,
}

pub struct ModuleDeclarationView {
    pub ident: IdentView,
}

pub struct UseTreeView {
    pub prefix: PathView,
    pub kind: UseTreeKindView,
}

pub enum UseTreeKindView {
    Path(IdentView, Option<IdentView>),
    List(Seq<UseTreeView>),
}

pub struct NoirStructView {
    pub name: IdentView,
    pub fields: Seq<(IdentView, UnresolvedTypeView)>,
    pub generics: Seq<UnresolvedGenericView>,
    pub span: Span,
}

pub struct NoirTypeAliasView {
    pub name: IdentView,
    pub typ: UnresolvedTypeView,
    pub span: Span,
}

pub struct LetStatementView {
    pub pattern: PatternView,
    pub typ: UnresolvedTypeView,
    pub expression: ExpressionView,
}

pub struct BlockExpressionView {
    pub statements: Seq<StatementView>,
}

pub struct StatementView {
    pub kind: StatementKindView,
    pub span: Span,
}

pub enum StatementKindView {
    Let(LetStatementView),
    Constrain(ConstrainStatementView),
    Expression(ExpressionView),
    Assign(AssignStatementView),
    For(ForLoopStatementView),
    Comptime(Box<StatementView>),
    Semi(ExpressionView),
    Break,
    Continue,
    Error,
}

pub struct ConstrainStatementView(pub ExpressionView, pub Option<ExpressionView>);

pub struct AssignStatementView {
    pub lvalue: LValueView,
    pub expression: ExpressionView,
}

pub enum LValueView {
    Ident(IdentView),
    MemberAccess { object: Box<LValueView>, field_name: IdentView, span: Span },
    Index { array: Box<LValueView>, index: ExpressionView, span: Span },
    Dereference(Box<LValueView>, Span),
}

pub struct ForLoopStatementView {
    pub identifier: IdentView,
    pub range: ForRangeView,
    pub block: ExpressionView,
    pub span: Span,
}

pub enum ForRangeView {
    Range(ExpressionView, ExpressionView),
    Array(ExpressionView),
}

pub struct ExpressionView {
    pub kind: ExpressionKindView,
    pub span: Span,
}

pub enum ExpressionKindView {
    Literal(LiteralView),
    Block(BlockExpressionView),
    Prefix(Box<PrefixExpressionView>),
    Index(Box<IndexExpressionView>),
    Call(Box<CallExpressionView>),
    MethodCall(Box<MethodCallExpressionView>),
    Constructor(Box<ConstructorExpressionView>),
    MemberAccess(Box<MemberAccessExpressionView>),
    Cast(Box<CastExpressionView>),
    Infix(Box<InfixExpressionView>),
    If(Box<IfExpressionView>),
    Variable(PathView),
    Tuple(Seq<ExpressionView>),
    Lambda(Box<LambdaView>),
    Parenthesized(Box<ExpressionView>),
    Quote(String),
    Unquote(Box<ExpressionView>),
    Comptime(BlockExpressionView, Span),
    Resolved(u64),
    Error,
}

pub enum LiteralView {
    Array(ArrayLiteralView),
    Slice(ArrayLiteralView),
    Bool(bool),
    Integer(u128, bool),
    Str(String),
    RawStr(String, u8),
    FmtStr(String),
    Unit,
}

pub enum ArrayLiteralView {
    Standard(Seq<ExpressionView>),
    Repeated { repeated_element: Box<ExpressionView>, length: Box<ExpressionView> },
}

pub struct PrefixExpressionView {
    pub operator: UnaryOp,
    pub rhs: ExpressionView,
}

pub struct IndexExpressionView {
    pub collection: ExpressionView,
    pub index: ExpressionView,
}

pub struct CallExpressionView {
    pub func: ExpressionView,
    pub arguments: Seq<ExpressionView>,
}

pub struct MethodCallExpressionView {
    pub object: ExpressionView,
    pub method_name: IdentView,
    pub generics: Option<Seq<UnresolvedTypeView>>,
    pub arguments: Seq<ExpressionView>,
}

pub struct ConstructorExpressionView {
    pub type_path: PathView,
    pub fields: Seq<(IdentView, ExpressionView)>,
}

pub struct MemberAccessExpressionView {
    pub lhs: ExpressionView,
    pub rhs: IdentView,
}

pub struct CastExpressionView {
    pub lhs: ExpressionView,
    pub typ: UnresolvedTypeView,
}

pub struct InfixExpressionView {
    pub lhs: ExpressionView,
    pub operator: BinaryOp,
    pub rhs: ExpressionView,
}

pub struct IfExpressionView {
    pub condition: ExpressionView,
    pub consequence: ExpressionView,
    pub alternative: Option<ExpressionView>,
}

pub struct LambdaView {
    pub parameters: Seq<(PatternView, UnresolvedTypeView)>,
    pub return_type: UnresolvedTypeView,
    pub body: ExpressionView,
}

pub struct UnresolvedTypeView {
    pub typ: UnresolvedTypeDataView,
    pub span: Span,
}

pub enum UnresolvedTypeDataView {
    Array(UnresolvedTypeExpressionView, Box<UnresolvedTypeView>),
    Slice(Box<UnresolvedTypeView>),
    Expression(UnresolvedTypeExpressionView),
    FormatString(UnresolvedTypeExpressionView, Box<UnresolvedTypeView>),
    Parenthesized(Box<UnresolvedTypeView>),
    Named(PathView, Seq<UnresolvedTypeView>, bool),
    TraitAsType(PathView, Seq<UnresolvedTypeView>),
    MutableReference(Box<UnresolvedTypeView>),
    Tuple(Seq<UnresolvedTypeView>),
    Function(Seq<UnresolvedTypeView>, Box<UnresolvedTypeView>, Box<UnresolvedTypeView>),
    FieldElement,
    Integer(bool, u32),
    Bool,
    String(u32),
    Unit,
    Quoted(u32),
    Resolved(u64),
    Unspecified,
    Error,
}

pub enum UnresolvedTypeExpressionView {
    Variable(PathView),
    BinaryOperation(
        Box<UnresolvedTypeExpressionView>,
        BinaryOp,
        Box<UnresolvedTypeExpressionView>,
        Span,
    ),
    Constant(u128, Span),
}

pub enum UnresolvedGenericView {
    Variable(IdentView),
    Numeric { ident: IdentView, typ: UnresolvedTypeView },
}

pub struct UnresolvedTraitConstraintView {
    pub typ: UnresolvedTypeView,
}

pub enum FunctionReturnTypeView {
    Default(Span),
    Ty(UnresolvedTypeView),
}

pub enum PatternView {
    Identifier(IdentView),
    Mutable(Box<PatternView>, Span, bool),
    Tuple(Seq<PatternView>, Span),
    Struct(PathView, Seq<(IdentView, PatternView)>, Span),
}

} // verus!
