use vstd::prelude::*;

verus! {

/// A primitive type of the target schema language.
#[derive(Clone, Copy, PartialEq, Eq, Structural, Debug)]
pub enum PrimType {
    Int32,
    Int64,
    Float64,
    Boolean,
    Text,
    Bytes,
}

/// A reference to a type: a primitive, another declaration by name, or a
/// composite built from one element type (maps are always string-keyed).
#[derive(Debug)]
pub enum TypeRef {
    Prim(PrimType),
    Decl(String),
    OptionalOf(Box<TypeRef>),
    SequenceOf(Box<TypeRef>),
    MapOf(Box<TypeRef>),
}

/// Whether a pattern must cover the whole value or may match a part of it.
#[derive(Clone, Copy, PartialEq, Eq, Structural, Debug)]
pub enum MatchMode {
    Full,
    Partial,
}

/// A declarative restriction on the values of one field. The model never
/// evaluates a constraint on its own; emitters render it and the runtime
/// checker interprets it.
#[derive(Debug)]
pub enum Constraint {
    Range { min: Option<i64>, max: Option<i64> },
    Length { min: Option<u64>, max: Option<u64> },
    Pattern { pattern: String, mode: MatchMode },
    Email,
}

/// How declared names are turned into external names when no explicit
/// rename is given.
#[derive(Clone, Copy, PartialEq, Eq, Structural, Debug)]
pub enum Convention {
    AsDeclared,
    Camel,
    ScreamingSnake,
}

/// One field of a struct declaration.
#[derive(Debug)]
pub struct FieldDecl {
    pub name: String,
    pub ty: TypeRef,
    pub optional: bool,
    pub rename: Option<String>,
    pub skip: bool,
    pub constraints: Vec<Constraint>,
}

/// One variant of an enum declaration; unit variants carry no payload.
#[derive(Debug)]
pub struct VariantDecl {
    pub name: String,
    pub rename: Option<String>,
    pub payload: Option<TypeRef>,
}

/// The body of a type declaration: a struct's fields or an enum's variants.
#[derive(Debug)]
pub enum TypeBody {
    Struct(Vec<FieldDecl>),
    Enum(Vec<VariantDecl>),
}

/// A named composite type together with its naming convention.
#[derive(Debug)]
pub struct TypeDecl {
    pub name: String,
    pub convention: Convention,
    pub body: TypeBody,
}

/// One parameter of a callable declaration.
#[derive(Debug)]
pub struct ParamDecl {
    pub name: String,
    pub ty: TypeRef,
    pub optional: bool,
}

/// A streaming channel of a callable declaration: an ongoing, ordered
/// delivery of values of the element type from callee to caller.
#[derive(Debug)]
pub struct ChannelDecl {
    pub name: String,
    pub elem: TypeRef,
}

/// A callable declaration. `ret` of None means the call yields no value.
#[derive(Debug)]
pub struct FunctionDecl {
    pub name: String,
    pub params: Vec<ParamDecl>,
    pub ret: Option<TypeRef>,
    pub fallible: bool,
    pub channels: Vec<ChannelDecl>,
    pub asynchronous: bool,
}

/// The whole declaration model of one generator invocation: every type and
/// every callable, in declaration order.
#[derive(Debug)]
pub struct Model {
    pub types: Vec<TypeDecl>,
    pub functions: Vec<FunctionDecl>,
}

} // verus!
