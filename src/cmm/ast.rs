//! Syntax tree of the checked dialect, as the parser hands it over. Every
//! sum type has an `Error` variant that stands for a node the parser could
//! not build; later passes skip it.
use vstd::prelude::*;

verus! {

/// A position in the source text.
#[derive(Clone, Copy, Debug, PartialEq, Eq, Structural)]
pub struct CLoc {
    pub line: usize,
    pub column: usize,
}

/// An identifier.
pub type CIdent = String;

/// An integer literal.
pub type CNum = i32;

/// A local declaration: one type for several names.
pub type CDecl = (CType, Vec<CIdent>);

#[derive(Debug)]
pub enum CStmt {
    Assign(CIdent, Box<CExpr>),
    Error,
}

#[derive(Debug)]
pub enum CExpr {
    Number(CNum),
    Ident(CIdent),
    BinOp(Box<CExpr>, COp, Box<CExpr>),
    Error,
}

#[derive(Clone, Copy, Debug, PartialEq, Eq, Structural)]
pub enum COp {
    Mul,
    Div,
    Add,
    Sub,
}

#[derive(Clone, Copy, Debug, PartialEq, Eq, Structural)]
pub enum CType {
    Char,
    Int,
}

/// A global variable declaration.
#[derive(Clone, Debug)]
pub struct CVarDecl {
    pub loc: CLoc,
    pub ty: CType,
    pub name: CIdent,
}

/// A function signature: return type, name and parameter types.
#[derive(Clone, Debug)]
pub struct CProto {
    pub loc: CLoc,
    pub ret: Option<CType>,
    pub name: CIdent,
    pub params: Vec<CType>,
}

/// A function with its body: the signature, the parameters' names, the
/// local declarations and the statements.
#[derive(Debug)]
pub struct CFunc {
    pub loc: CLoc,
    pub proto: CProto,
    pub params: Vec<CIdent>,
    pub decls: Vec<CDecl>,
    pub body: Vec<CStmt>,
}

/// One top-level element of a program.
#[derive(Debug)]
pub enum CProgElem {
    VarDecl(CVarDecl),
    Proto(CProto),
    Func(CFunc),
    Error,
}

/// A program: its top-level elements in source order.
pub type CProg = Vec<CProgElem>;

/// How an operator is written.
pub open spec fn op_text(op: COp) -> Seq<char> {
    match op {
        COp::Mul => "*"@,
        COp::Div => "/"@,
        COp::Add => "+"@,
        COp::Sub => "-"@,
    }
}

/// How a type is written.
pub open spec fn type_text(t: CType) -> Seq<char> {
    match t {
        CType::Char => "char"@,
        CType::Int => "int"@,
    }
}

impl COp {
    /// The operator as it is written in the source.
    pub fn text(&self) -> (r: &'static str)
        ensures
            r@ == op_text(*self),
    {
        match self {
            COp::Mul => "*",
            COp::Div => "/",
            COp::Add => "+",
            COp::Sub => "-",
        }
    }
}

impl CType {
    /// The type as it is written in the source.
    pub fn text(&self) -> (r: &'static str)
        ensures
            r@ == type_text(*self),
    {
        match self {
            CType::Char => "char",
            CType::Int => "int",
        }
    }
}

} // verus!
