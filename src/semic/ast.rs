//! Syntax tree of the richer dialect. Every node carries its position in the
//! source, and every sum type has an `Error` variant for a node the parser
//! could not build.
use vstd::prelude::*;

verus! {

/// A position in the source text: line and column.
pub type CLoc = (usize, usize);

pub type CInt = i32;

/// A floating-point literal, held as the bit pattern of an IEEE 754
/// single-precision number.
pub type CFloat = u32;

pub type CString = String;

pub type CChar = char;

pub type CIdent = String;

/// A program: its top-level elements in source order.
pub type CProg = Vec<CProgElem>;

#[derive(Debug)]
pub enum CProgElem {
    /// A global variable; with a size, an array.
    Decl(CLoc, CType, CIdent, Option<CExpr>),
    Proto(CLoc, CProto),
    Func(CLoc, CFunc),
    Error,
}

#[derive(Debug)]
pub struct CProto {
    pub ret: Option<CType>,
    pub name: CIdent,
    pub params: Vec<(CType, CIdent)>,
}

#[derive(Debug)]
pub struct CFunc {
    pub proto: CProto,
    pub body: CStmt,
}

#[derive(Debug)]
pub enum CStmt {
    /// A local variable; with a size, an array.
    Decl(CLoc, CType, CIdent, Option<CExpr>),
    /// An assignment, to an array element when an index is given.
    Assign(CLoc, CIdent, Option<CExpr>, CExpr),
    Call(CLoc, CIdent, Vec<Box<CExpr>>),
    Return(CLoc, Option<CExpr>),
    Block(CLoc, Vec<Box<CStmt>>),
    If(CLoc, CExpr, Box<CStmt>, Option<Box<CStmt>>),
    While(CLoc, CExpr, Box<CStmt>),
    /// A print, with an optional format string.
    Print(CLoc, Option<CString>, CExpr),
    Error,
}

#[derive(Debug)]
pub enum CExpr {
    Int(CLoc, CInt),
    Float(CLoc, CFloat),
    Str(CLoc, CString),
    Char(CLoc, CChar),
    Ident(CLoc, CIdent),
    UnOp(CLoc, COp, Box<CExpr>),
    BinOp(CLoc, COp, Box<CExpr>, Box<CExpr>),
    Call(CLoc, CIdent, Vec<Box<CExpr>>),
    Index(CLoc, CIdent, Box<CExpr>),
    Error,
}

#[derive(Clone, Copy, Debug, PartialEq, Eq, Structural)]
pub enum COp {
    Mul,
    Div,
    Add,
    Sub,
    Neq,
    Eq,
    Lt,
    Lte,
    Gt,
    Gte,
    And,
    Or,
    Neg,
    Not,
}

#[derive(Debug, PartialEq)]
pub enum CType {
    Int,
    Char,
    Float,
    /// A pointer to the inner type.
    Ref(Box<CType>),
}

/// How an operator is written.
pub open spec fn op_text(op: COp) -> Seq<char> {
    match op {
        COp::Mul => "*"@,
        COp::Div => "/"@,
        COp::Add => "+"@,
        COp::Sub => "-"@,
        COp::Neq => "!="@,
        COp::Eq => "=="@,
        COp::Lt => "<"@,
        COp::Lte => "<="@,
        COp::Gt => ">"@,
        COp::Gte => ">="@,
        COp::And => "&&"@,
        COp::Or => "||"@,
        COp::Neg => "-"@,
        COp::Not => "!"@,
    }
}

/// How a type is written: a pointer is its target's text followed by `*`.
pub open spec fn type_text(t: CType) -> Seq<char>
    decreases t,
{
    match t {
        CType::Int => "int"@,
        CType::Char => "char"@,
        CType::Float => "float"@,
        CType::Ref(inner) => type_text(*inner) + "*"@,
    }
}

impl COp {
    /// The operator as it is written in the source.
    pub fn text(&self) -> (r: &'static str)
        ensures
            r@ == op_text(*self),
    {
        match self {
            COp::Mul => "*",
            COp::Div => "/",
            COp::Add => "+",
            COp::Sub => "-",
            COp::Neq => "!=",
            COp::Eq => "==",
            COp::Lt => "<",
            COp::Lte => "<=",
            COp::Gt => ">",
            COp::Gte => ">=",
            COp::And => "&&",
            COp::Or => "||",
            COp::Neg => "-",
            COp::Not => "!",
        }
    }
}

impl CType {
    /// The type as it is written in the source.
    pub fn text(&self) -> (r: String)
        ensures
            r@ == type_text(*self),
        decreases *self,
    {
        match self {
            CType::Int => String::from_str("int"),
            CType::Char => String::from_str("char"),
            CType::Float => String::from_str("float"),
            CType::Ref(inner) => {
                let t = inner.text();
                t.concat("*")
            },
        }
    }
}

} // verus!
