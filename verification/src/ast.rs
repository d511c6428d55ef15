//! The concrete syntax tree that the sanitizer works on: top-level items,
//! statements, expressions, types, generics, patterns, identifiers and
//! paths, each of which may carry a location attribute.

use vstd::prelude::*;

verus! {

/// A source position range attached to a node of the tree.  The sentinel
/// `Span { start: 0, end: 0 }` stands for "no position".
#[derive(Clone, Copy, PartialEq, Eq, Debug)]
pub struct Span {
    pub start: u32,
    pub end: u32,
}

/// A parse diagnostic.  The sanitizer never reads or alters these; they are
/// carried through unchanged.
#[derive(PartialEq, Eq, Debug)]
pub struct ParseError {
    pub message: String,
    pub span: Span,
}

/// A name occurring in the source, together with its own location.
#[derive(PartialEq, Eq, Debug)]
pub struct Ident {
    pub text: String,
    pub span: Span,
}

/// One segment of a dotted path; it carries its own location beside the one
/// of its identifier.
#[derive(PartialEq, Eq, Debug)]
pub struct PathSegment {
    pub ident: Ident,
    pub span: Span,
}

/// A dotted path such as `std::mem::swap`.
#[derive(PartialEq, Eq, Debug)]
pub struct Path {
    pub segments: Vec<PathSegment>,
    pub span: Span,
}

/// A whole parsed source file or submodule body: an ordered sequence of
/// top-level items.
#[derive(PartialEq, Eq, Debug)]
pub struct ParsedModule {
    pub items: Vec<Item>,
}

/// A top-level item together with its location.
#[derive(PartialEq, Eq, Debug)]
pub struct Item {
    pub kind: ItemKind,
    pub span: Span,
}

/// The kinds of top-level item.
#[derive(PartialEq, Eq, Debug)]
pub enum ItemKind {
    Function(NoirFunction),
    Trait(NoirTrait),
    TraitImpl(NoirTraitImpl),
    Impl(TypeImpl),
    Global(LetStatement),
    Submodules(ParsedSubModule),
    ModuleDecl(ModuleDeclaration),
    Import(UseTree),
    Struct(NoirStruct),
    TypeAlias(NoirTypeAlias),
}

/// A function declaration.  The `span` covers its signature.
#[derive(PartialEq, Eq, Debug)]
pub struct NoirFunction {
    pub name: Ident,
    pub generics: Vec<UnresolvedGeneric>,
    pub parameters: Vec<Param>,
    pub where_clause: Vec<UnresolvedTraitConstraint>,
    pub return_type: FunctionReturnType,
    pub body: BlockExpression,
    pub span: Span,
}

/// One function parameter: a binding pattern, its declared type, and the
/// location of the whole parameter.
#[derive(PartialEq, Eq, Debug)]
pub struct Param {
    pub pattern: Pattern,
    pub typ: UnresolvedType,
    pub span: Span,
}

/// A trait declaration.
#[derive(PartialEq, Eq, Debug)]
pub struct NoirTrait {
    pub name: Ident,
    pub generics: Vec<UnresolvedGeneric>,
    pub where_clause: Vec<UnresolvedTraitConstraint>,
    pub items: Vec<TraitItem>,
    pub span: Span,
}

/// A member of a trait declaration.
#[derive(PartialEq, Eq, Debug)]
pub enum TraitItem {
    Function {
        name: Ident,
        generics: Vec<UnresolvedGeneric>,
        parameters: Vec<(Ident, UnresolvedType)>,
        return_type: FunctionReturnType,
        where_clause: Vec<UnresolvedTraitConstraint>,
        body: Option<BlockExpression>,
    },
    Constant { name: Ident, typ: UnresolvedType, default_value: Option<Expression> },
    Type { name: Ident },
}

/// A trait implementation (`impl Trait for Type`).
#[derive(PartialEq, Eq, Debug)]
pub struct NoirTraitImpl {
    pub trait_name: Path,
    pub impl_generics: Vec<UnresolvedGeneric>,
    pub object_type: UnresolvedType,
    pub where_clause: Vec<UnresolvedTraitConstraint>,
    pub items: Vec<TraitImplItem>,
}

/// A member of a trait implementation.
#[derive(PartialEq, Eq, Debug)]
pub enum TraitImplItem {
    Function(NoirFunction),
    Constant(Ident, UnresolvedType, Expression),
    Type { name: Ident, alias: UnresolvedType },
}

/// An inherent implementation (`impl Type`).  Each method keeps an auxiliary
/// location beside the function itself.
#[derive(PartialEq, Eq, Debug)]
pub struct TypeImpl {
    pub object_type: UnresolvedType,
    pub type_span: Span,
    pub generics: Vec<UnresolvedGeneric>,
    pub where_clause: Vec<UnresolvedTraitConstraint>,
    pub methods: Vec<(NoirFunction, Span)>,
}

/// A submodule with its body written in place.
#[derive(PartialEq, Eq, Debug)]
pub struct ParsedSubModule {
    pub name: Ident,
    pub contents: ParsedModule,
}

/// A `mod name;` declaration whose body lives elsewhere.
#[derive(PartialEq, Eq, Debug)]
pub struct ModuleDeclaration {
    pub ident: Ident,
}

/// An import: a path prefix and either a single name (with an optional
/// alias) or a nested list of further imports.
#[derive(PartialEq, Eq, Debug)]
pub struct UseTree {
    pub prefix: Path,
    pub kind: UseTreeKind,
}

/// The shape of an import below its prefix.
#[derive(PartialEq, Eq, Debug)]
pub enum UseTreeKind {
    Path(Ident, Option<Ident>),
    List(Vec<UseTree>),
}

/// A struct declaration: name, fields, generics.
#[derive(PartialEq, Eq, Debug)]
pub struct NoirStruct {
    pub name: Ident,
    pub fields: Vec<(Ident, UnresolvedType)>,
    pub generics: Vec<UnresolvedGeneric>,
    pub span: Span,
}

/// A type alias declaration.
#[derive(PartialEq, Eq, Debug)]
pub struct NoirTypeAlias {
    pub name: Ident,
    pub typ: UnresolvedType,
    pub span: Span,
}

/// A let binding: also the payload of a top-level global.
#[derive(PartialEq, Eq, Debug)]
pub struct LetStatement {
    pub pattern: Pattern,
    pub typ: UnresolvedType,
    pub expression: Expression,
}

/// A block: an ordered sequence of statements.
#[derive(PartialEq, Eq, Debug)]
pub struct BlockExpression {
    pub statements: Vec<Statement>,
}

/// A statement together with its location.
#[derive(PartialEq, Eq, Debug)]
pub struct Statement {
    pub kind: StatementKind,
    pub span: Span,
}

/// The kinds of statement.  `Break`, `Continue` and `Error` carry no
/// payload.
#[derive(PartialEq, Eq, Debug)]
pub enum StatementKind {
    Let(LetStatement),
    Constrain(ConstrainStatement),
    Expression(Expression),
    Assign(AssignStatement),
    For(ForLoopStatement),
    Comptime(Box<Statement>),
    Semi(Expression),
    Break,
    Continue,
    Error,
}

/// An assertion: the asserted expression and an optional message.
#[derive(PartialEq, Eq, Debug)]
pub struct ConstrainStatement(pub Expression, pub Option<Expression>);

/// An assignment to an lvalue.
#[derive(PartialEq, Eq, Debug)]
pub struct AssignStatement {
    pub lvalue: LValue,
    pub expression: Expression,
}

/// The target of an assignment.  The auxiliary locations on the composite
/// forms are part of the payload and are not cleared.
#[derive(PartialEq, Eq, Debug)]
pub enum LValue {
    Ident(Ident),
    MemberAccess { object: Box<LValue>, field_name: Ident, span: Span },
    Index { array: Box<LValue>, index: Expression, span: Span },
    Dereference(Box<LValue>, Span),
}

/// A `for` loop.
#[derive(PartialEq, Eq, Debug)]
pub struct ForLoopStatement {
    pub identifier: Ident,
    pub range: ForRange,
    pub block: Expression,
    pub span: Span,
}

/// The iteration domain of a `for` loop.
#[derive(PartialEq, Eq, Debug)]
pub enum ForRange {
    Range(Expression, Expression),
    Array(Expression),
}

/// An expression node; every expression carries its own location.
#[derive(PartialEq, Eq, Debug)]
pub struct Expression {
    pub kind: ExpressionKind,
    pub span: Span,
}

/// The variants an expression can take.  `Quote` embeds an opaque token
/// stream, `Resolved` an opaque reference to an already-processed node;
/// neither is recursed into, and neither is `Error`.
#[derive(PartialEq, Eq, Debug)]
pub enum ExpressionKind {
    Literal(Literal),
    Block(BlockExpression),
    Prefix(Box<PrefixExpression>),
    Index(Box<IndexExpression>),
    Call(Box<CallExpression>),
    MethodCall(Box<MethodCallExpression>),
    Constructor(Box<ConstructorExpression>),
    MemberAccess(Box<MemberAccessExpression>),
    Cast(Box<CastExpression>),
    Infix(Box<InfixExpression>),
    If(Box<IfExpression>),
    Variable(Path),
    Tuple(Vec<Expression>),
    Lambda(Box<Lambda>),
    Parenthesized(Box<Expression>),
    Quote(String),
    Unquote(Box<Expression>),
    Comptime(BlockExpression, Span),
    Resolved(u64),
    Error,
}

/// A literal.  The scalar forms are terminal; array and slice literals
/// contain further expressions.
#[derive(PartialEq, Eq, Debug)]
pub enum Literal {
    Array(ArrayLiteral),
    Slice(ArrayLiteral),
    Bool(bool),
    Integer(u128, bool),
    Str(String),
    RawStr(String, u8),
    FmtStr(String),
    Unit,
}

/// An array literal: either an explicit element list or a repeated element
/// with a length expression.
#[derive(PartialEq, Eq, Debug)]
pub enum ArrayLiteral {
    Standard(Vec<Expression>),
    Repeated { repeated_element: Box<Expression>, length: Box<Expression> },
}

/// A prefix operator applied to an operand.
#[derive(PartialEq, Eq, Debug)]
pub struct PrefixExpression {
    pub operator: UnaryOp,
    pub rhs: Expression,
}

/// The prefix operators.
#[derive(Clone, Copy, PartialEq, Eq, Debug)]
pub enum UnaryOp {
    Minus,
    Not,
    MutableReference,
    Dereference,
}

/// An indexing expression `collection[index]`.
#[derive(PartialEq, Eq, Debug)]
pub struct IndexExpression {
    pub collection: Expression,
    pub index: Expression,
}

/// A call expression.
#[derive(PartialEq, Eq, Debug)]
pub struct CallExpression {
    pub func: Expression,
    pub arguments: Vec<Expression>,
}

/// A method call, with optional explicit generic type arguments.
#[derive(PartialEq, Eq, Debug)]
pub struct MethodCallExpression {
    pub object: Expression,
    pub method_name: Ident,
    pub generics: Option<Vec<UnresolvedType>>,
    pub arguments: Vec<Expression>,
}

/// A struct constructor expression with named fields.
#[derive(PartialEq, Eq, Debug)]
pub struct ConstructorExpression {
    pub type_path: Path,
    pub fields: Vec<(Ident, Expression)>,
}

/// A member access `base.field`.
#[derive(PartialEq, Eq, Debug)]
pub struct MemberAccessExpression {
    pub lhs: Expression,
    pub rhs: Ident,
}

/// A cast `operand as Type`.
#[derive(PartialEq, Eq, Debug)]
pub struct CastExpression {
    pub lhs: Expression,
    pub typ: UnresolvedType,
}

/// A binary operator applied to two operands.
#[derive(PartialEq, Eq, Debug)]
pub struct InfixExpression {
    pub lhs: Expression,
    pub operator: BinaryOp,
    pub rhs: Expression,
}

/// The binary operators.
#[derive(Clone, Copy, PartialEq, Eq, Debug)]
pub enum BinaryOp {
    Add,
    Subtract,
    Multiply,
    Divide,
    Modulo,
    Equal,
    NotEqual,
    Less,
    LessEqual,
    Greater,
    GreaterEqual,
    And,
    Or,
    Xor,
    ShiftLeft,
    ShiftRight,
}

/// A conditional with an optional alternative.
#[derive(PartialEq, Eq, Debug)]
pub struct IfExpression {
    pub condition: Expression,
    pub consequence: Expression,
    pub alternative: Option<Expression>,
}

/// A lambda: parameters with declared types, a return type, and a body.
#[derive(PartialEq, Eq, Debug)]
pub struct Lambda {
    pub parameters: Vec<(Pattern, UnresolvedType)>,
    pub return_type: UnresolvedType,
    pub body: Expression,
}

/// A type expression as written in the source, with its location.
#[derive(PartialEq, Eq, Debug)]
pub struct UnresolvedType {
    pub typ: UnresolvedTypeData,
    pub span: Span,
}

/// The forms a source-level type can take.  The primitive and terminal
/// forms carry no structure to recurse into; `Quoted` and `Resolved` embed
/// opaque already-processed data.
#[derive(PartialEq, Eq, Debug)]
pub enum UnresolvedTypeData {
    Array(UnresolvedTypeExpression, Box<UnresolvedType>),
    Slice(Box<UnresolvedType>),
    Expression(UnresolvedTypeExpression),
    FormatString(UnresolvedTypeExpression, Box<UnresolvedType>),
    Parenthesized(Box<UnresolvedType>),
    Named(Path, Vec<UnresolvedType>, bool),
    TraitAsType(Path, Vec<UnresolvedType>),
    MutableReference(Box<UnresolvedType>),
    Tuple(Vec<UnresolvedType>),
    Function(Vec<UnresolvedType>, Box<UnresolvedType>, Box<UnresolvedType>),
    FieldElement,
    Integer(bool, u32),
    Bool,
    String(u32),
    Unit,
    Quoted(u32),
    Resolved(u64),
    Unspecified,
    Error,
}

/// A compile-time type-level expression: a variable, a binary operation, or
/// a numeric constant.  The auxiliary locations on the latter two forms are
/// part of the payload and are not cleared.
#[derive(PartialEq, Eq, Debug)]
pub enum UnresolvedTypeExpression {
    Variable(Path),
    BinaryOperation(Box<UnresolvedTypeExpression>, BinaryOp, Box<UnresolvedTypeExpression>, Span),
    Constant(u128, Span),
}

/// A generic parameter: a plain type variable or a numeric generic with a
/// declared type.
#[derive(PartialEq, Eq, Debug)]
pub enum UnresolvedGeneric {
    Variable(Ident),
    Numeric { ident: Ident, typ: UnresolvedType },
}

/// One constraint of a where clause.
#[derive(PartialEq, Eq, Debug)]
pub struct UnresolvedTraitConstraint {
    pub typ: UnresolvedType,
}

/// A declared return type, or the default (unit) return with the location
/// where it was elided.
#[derive(PartialEq, Eq, Debug)]
pub enum FunctionReturnType {
    Default(Span),
    Ty(UnresolvedType),
}

/// A binding pattern.  The auxiliary locations on the composite forms are
/// part of the payload and are not cleared.
#[derive(PartialEq, Eq, Debug)]
pub enum Pattern {
    Identifier(Ident),
    Mutable(Box<Pattern>, Span, bool),
    Tuple(Vec<Pattern>, Span),
    Struct(Path, Vec<(Ident, Pattern)>, Span),
}

} // verus!
