//! The syntax tree of a statically typed, expression-oriented language.
//!
//! Every node owns its children, so a tree is acyclic and rooted at a
//! [`Program`]. The types carry no behaviour of their own beyond the short
//! symbols of the operators; they are built once by a front end and then only
//! read.

use vstd::prelude::*;

verus! {

/// Identifies one occurrence of a variable reference or of an assignment
/// target, for later binding resolution. Nothing here interprets it.
#[derive(Debug, PartialEq, Eq, Hash, Clone, Copy)]
pub struct ExpressionId(pub u32);

/// A construct that produces a value when evaluated.
#[derive(Debug, PartialEq)]
#[allow(inconsistent_fields)]
pub enum Expression {
    /// A sequence of statements; its value is that of the statement marked as
    /// its result.
    Block(Vec<Statement>),
    /// A number literal, held as the decimal text of its 64-bit
    /// floating-point value.
    NumberLiteral(String),
    StringLiteral(String),
    CharLiteral(char),
    Variable { name: String, expression_id: ExpressionId },
    BooleanLiteral(bool),
    FunctionCall { callee: Box<Expression>, args: Vec<Expression> },
    BinaryOperation { left: Box<Expression>, operator: BinaryOperator, right: Box<Expression> },
    UnaryOperation { operator: UnaryOperator, operand: Box<Expression> },
    Assignment { name: String, value: Box<Expression>, expression_id: ExpressionId },
    MemberAccess { object: Box<Expression>, member: String },
    /// A fixed-size array built from an element type, a size and the value
    /// that fills it.
    Array { array_type: Type, size: Box<Expression>, initial_value: Box<Expression> },
    /// A struct value: its type and the fields in the order they were written.
    StructCreation { struct_type: Type, fields: Vec<(String, Box<Expression>)> },
    If {
        condition: Box<Expression>,
        then_branch: Box<Expression>,
        else_branch: Option<Box<Expression>>,
    },
    Loop(LoopType),
}

/// Whether a bound variable may be reassigned after it is initialized.
#[derive(Debug, PartialEq)]
pub enum VariableMutability {
    Mutable,
    Immutable,
}

/// The three forms of loop.
#[derive(Debug, PartialEq)]
pub enum LoopType {
    While { condition: Box<Expression>, body: Box<Expression> },
    Infinite { body: Box<Expression> },
    Iterator {
        mutability: VariableMutability,
        iterator: String,
        iterable: Box<Expression>,
        body: Box<Expression>,
    },
}

#[derive(Debug, PartialEq)]
pub enum BinaryOperator {
    Add,
    Subtract,
    Multiply,
    Divide,
    Modulus,
    And,
    Or,
    Equal,
    NotEqual,
    LessThan,
    GreaterThan,
    LessThanOrEqual,
    GreaterThanOrEqual,
}

#[derive(Debug, PartialEq)]
pub enum UnaryOperator {
    Negate,
    Not,
}

/// A named construct: at the top level of a program, inside a struct, or
/// among the statements of a block.
#[derive(Debug, PartialEq)]
pub enum Declaration {
    Function {
        name: String,
        params: Vec<FunctionParameter>,
        generic_args: Vec<String>,
        return_type: Type,
        body: Box<Expression>,
    },
    Struct { name: String, elements: Vec<StructElement>, generic_args: Vec<String> },
    TypeDeclaration { name: String, generic_args: Vec<String>, alias: Type },
    Import { path: Vec<String> },
}

#[derive(Debug, PartialEq)]
pub enum StructElement {
    Declaration(Declaration),
    Field { name: String, field_type: Type },
}

/// A construct inside a block.
#[derive(Debug, PartialEq)]
pub enum Statement {
    Declaration(Declaration),
    /// An expression; `result` marks the one whose value is the value of the
    /// enclosing block.
    Expression { expression: Box<Expression>, result: bool },
    VariableDeclaration {
        mutability: VariableMutability,
        name: String,
        variable_type: Type,
        value: Box<Expression>,
    },
    Break,
    Continue,
    Return(Option<Box<Expression>>),
}

#[derive(Debug, PartialEq)]
pub struct FunctionParameter {
    pub name: String,
    pub param_type: Type,
}

#[derive(Debug, PartialEq)]
pub enum Type {
    U8,
    U16,
    U32,
    U64,
    I8,
    I16,
    I32,
    I64,
    F32,
    F64,
    Boolean,
    Character,
    /// A named type with its generic arguments; none for a type that is not
    /// generic.
    Identifier { name: String, generics: Vec<Type> },
    Function { params: Vec<Type>, return_type: Box<Type> },
    Array(Box<Type>),
    /// The return type of a function that returns no value. Its only value is
    /// `nil`; a front end accepts it in return position only.
    Nil,
}

/// The root of a tree: the declarations of one compiled unit, in source order.
#[derive(Debug, PartialEq)]
pub struct Program {
    pub declarations: Vec<Declaration>,
}

impl BinaryOperator {
    /// The operator as it is written in source text.
    pub open spec fn symbol(self) -> Seq<char> {
        match self {
            BinaryOperator::Add => "+"@,
            BinaryOperator::Subtract => "-"@,
            BinaryOperator::Multiply => "*"@,
            BinaryOperator::Divide => "/"@,
            BinaryOperator::Modulus => "%"@,
            BinaryOperator::And => "&&"@,
            BinaryOperator::Or => "||"@,
            BinaryOperator::Equal => "=="@,
            BinaryOperator::NotEqual => "!="@,
            BinaryOperator::LessThan => "<"@,
            BinaryOperator::GreaterThan => ">"@,
            BinaryOperator::LessThanOrEqual => "<="@,
            BinaryOperator::GreaterThanOrEqual => ">="@,
        }
    }

    /// Returns the operator's symbol.
    pub fn to_string(&self) -> (text: String)
        ensures
            text@ == self.symbol(),
    {
        let symbol = match self {
            BinaryOperator::Add => "+",
            BinaryOperator::Subtract => "-",
            BinaryOperator::Multiply => "*",
            BinaryOperator::Divide => "/",
            BinaryOperator::Modulus => "%",
            BinaryOperator::And => "&&",
            BinaryOperator::Or => "||",
            BinaryOperator::Equal => "==",
            BinaryOperator::NotEqual => "!=",
            BinaryOperator::LessThan => "<",
            BinaryOperator::GreaterThan => ">",
            BinaryOperator::LessThanOrEqual => "<=",
            BinaryOperator::GreaterThanOrEqual => ">=",
        };
        String::from_str(symbol)
    }
}

impl UnaryOperator {
    /// The operator as it is written in source text.
    pub open spec fn symbol(self) -> Seq<char> {
        match self {
            UnaryOperator::Negate => "-"@,
            UnaryOperator::Not => "!"@,
        }
    }

    /// Returns the operator's symbol.
    pub fn to_string(&self) -> (text: String)
        ensures
            text@ == self.symbol(),
    {
        let symbol = match self {
            UnaryOperator::Negate => "-",
            UnaryOperator::Not => "!",
        };
        String::from_str(symbol)
    }
}

impl VariableMutability {
    /// The word that names this mutability.
    pub open spec fn word(self) -> Seq<char> {
        match self {
            VariableMutability::Mutable => "Mutable"@,
            VariableMutability::Immutable => "Immutable"@,
        }
    }
}

} // verus!
