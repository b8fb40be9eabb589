use vstd::prelude::*;

verus! {

/// The scalar data types of ANSI SQL:2011, with one case left open for a
/// dialect's own types.
#[derive(Debug, PartialEq, Eq)]
pub enum SQLDataType<T> {
    /// `BOOLEAN`
    Boolean,
    /// `NUMERIC`, `DECIMAL`, `DEC`
    Numeric { precision: usize, scale: Option<usize> },
    /// `SMALLINT`
    SmallInt,
    /// `INT`, `INTEGER`
    Int,
    /// `BIGINT`
    BigInt,
    /// `FLOAT(precision)`
    Float(usize),
    /// `REAL`
    Real,
    /// `DOUBLE PRECISION`
    Double,
    /// `CHAR`, `CHARACTER`: fixed length
    Char(usize),
    /// `VARCHAR`, `CHARACTER VARYING`, `CHAR VARYING`: variable length
    VarChar(usize),
    /// `CLOB`, `CHARACTER LARGE OBJECT`, `CHAR LARGE OBJECT`
    Clob(usize),
    /// `NCHAR`, `NATIONAL CHAR`, `NATIONAL CHARACTER`: fixed length
    NChar(usize),
    /// `NCHAR VARYING`, `NATIONAL CHARACTER VARYING`, `NATIONAL CHAR VARYING`
    NVarChar(usize),
    /// `NCLOB`, `NATIONAL CHARACTER LARGE OBJECT`, `NCHAR LARGE OBJECT`
    NClob(usize),
    /// Binary, fixed length
    Binary(usize),
    /// Binary, variable length
    VarBinary(usize),
    /// Binary large object
    Blob(usize),
    /// `DATE`
    Date,
    /// `TIME [(precision)] [WITH TIME ZONE | WITHOUT TIME ZONE]`
    Time { precision: usize, tz: bool },
    /// `TIMESTAMP [(precision)] [WITH TIME ZONE | WITHOUT TIME ZONE]`
    Timestamp { precision: usize, tz: bool },
    /// A dialect's own type. The payload is carried, never read.
    Custom(T),
}

/// Binary operators of the core grammar, with one case left open for a
/// dialect's own operators.
#[derive(Debug, PartialEq, Eq)]
pub enum SQLOperator<T> {
    Plus,
    Minus,
    Mult,
    Div,
    Eq,
    Gt,
    GtEq,
    Lt,
    LtEq,
    /// A dialect's own operator. The payload is carried, never read.
    Custom(T),
}

/// An expression tree. Every node owns its children.
#[derive(Debug, PartialEq, Eq)]
pub enum SQLExpr<ExprType> {
    /// A table or column name, as written.
    Identifier(String),
    /// A literal, as written.
    Literal(String),
    /// Left operand, operator, right operand.
    Binary(Box<SQLExpr<ExprType>>, SQLOperator<ExprType>, Box<SQLExpr<ExprType>>),
    /// Function name and its arguments in order.
    FunctionCall(String, Vec<SQLExpr<ExprType>>),
    Insert,
    Update,
    Delete,
    Select,
    CreateTable,
    /// A dialect's own expression. The payload is carried, never read.
    Custom(ExprType),
}

} // verus!
