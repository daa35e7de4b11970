//! What a tree looks like as text.
//!
//! Each function here gives the text of one kind of node at a depth, as a
//! sequence of characters. A node's own lines stand at its depth; what it
//! holds stands one level deeper. The order of the parts is the order in
//! which they are written below.

use vstd::prelude::*;
use crate::ast::{
    Declaration,
    Expression,
    ExpressionId,
    FunctionParameter,
    LoopType,
    Program,
    Statement,
    StructElement,
    Type,
};
use crate::style::{
    indent_guide,
    lemma_styled_line_with_colon,
    styled_line,
    ANSI_BOLD,
    ANSI_GRAY,
    ANSI_RESET,
};

verus! {

/// The views of `strings`, in their order.
pub open spec fn texts(strings: Seq<String>) -> Seq<Seq<char>> {
    strings.map_values(|s: String| s@)
}

/// The `parts` in their order, with `separator` between each two neighbours.
pub open spec fn join(parts: Seq<Seq<char>>, separator: Seq<char>) -> Seq<char>
    decreases parts.len(),
{
    if parts.len() == 0 {
        Seq::empty()
    } else if parts.len() == 1 {
        parts[0]
    } else {
        join(parts.drop_last(), separator) + separator + parts.last()
    }
}

/// The text of a type.
///
/// A named type is its name, followed by its generic arguments between angle
/// brackets where it has any. An array type is the words `Array of` and its
/// element behind them, on the same line. A function type is a block of its
/// own.
pub open spec fn render_type(ty: Type, depth: nat) -> Seq<char>
    decreases ty,
{
    match ty {
        Type::U8 => "U8"@,
        Type::U16 => "U16"@,
        Type::U32 => "U32"@,
        Type::U64 => "U64"@,
        Type::I8 => "I8"@,
        Type::I16 => "I16"@,
        Type::I32 => "I32"@,
        Type::I64 => "I64"@,
        Type::F32 => "F32"@,
        Type::F64 => "F64"@,
        Type::Boolean => "Boolean"@,
        Type::Character => "Character"@,
        Type::Nil => "Nil"@,
        Type::Identifier { name, generics } => {
            if generics@.len() == 0 {
                name@
            } else {
                name@ + "<"@ + join(render_types(generics@, depth), ", "@) + ">"@
            }
        },
        Type::Array(of) => "Array of "@ + render_type(*of, depth + 1),
        Type::Function { params, return_type } => {
            styled_line(depth, "Function:\n"@) + styled_line(depth + 1, "Parameters:\n"@)
                + render_type_entries(params@, depth + 1) + styled_line(
                depth + 1,
                "Return Type: "@ + render_type(*return_type, depth + 1) + "\n"@,
            )
        },
    }
}

/// The text of each of `types`.
pub open spec fn render_types(types: Seq<Type>, depth: nat) -> Seq<Seq<char>>
    decreases types,
{
    if types.len() == 0 {
        Seq::empty()
    } else {
        render_types(types.drop_last(), depth).push(render_type(types.last(), depth))
    }
}

/// One line for each of `types`: a dash and the type.
pub open spec fn render_type_entries(types: Seq<Type>, depth: nat) -> Seq<char>
    decreases types,
{
    if types.len() == 0 {
        Seq::empty()
    } else {
        render_type_entries(types.drop_last(), depth) + styled_line(
            depth,
            "- "@ + render_type(types.last(), depth) + "\n"@,
        )
    }
}

/// The line of something that has a name and a type: a field of a struct, a
/// parameter of a function.
pub open spec fn render_typed_name(name: Seq<char>, ty: Type, depth: nat) -> Seq<char> {
    styled_line(depth, "- "@ + name + ": "@ + render_type(ty, depth) + "\n"@)
}

/// One line for each of `params`, in their order.
pub open spec fn render_parameters(params: Seq<FunctionParameter>, depth: nat) -> Seq<char>
    decreases params.len(),
{
    if params.len() == 0 {
        Seq::empty()
    } else {
        render_parameters(params.drop_last(), depth) + render_typed_name(
            params.last().name@,
            params.last().param_type,
            depth,
        )
    }
}

/// One line for each of `names`: a dash and the name.
pub open spec fn render_names(names: Seq<String>, depth: nat) -> Seq<char>
    decreases names.len(),
{
    if names.len() == 0 {
        Seq::empty()
    } else {
        render_names(names.drop_last(), depth) + styled_line(
            depth,
            "- "@ + names.last()@ + "\n"@,
        )
    }
}

/// The text of a declaration.
pub open spec fn render_declaration(declaration: Declaration, depth: nat) -> Seq<char>
    decreases declaration,
{
    match declaration {
        Declaration::Function { name, params, generic_args, return_type, body } => {
            styled_line(depth, "Function: "@ + name@ + "\n"@) + styled_line(
                depth + 1,
                "Parameters:\n"@,
            ) + render_parameters(params@, depth + 1) + styled_line(
                depth + 1,
                "Return Type: "@ + render_type(return_type, depth + 1) + "\n"@,
            ) + styled_line(depth + 1, "Body: "@) + render_expression(*body, depth + 1)
        },
        Declaration::Import { path } => {
            styled_line(depth, "Import: "@ + join(texts(path@), "."@) + "\n"@)
        },
        Declaration::Struct { name, elements, generic_args } => {
            styled_line(depth, "Struct: "@ + name@ + "\n"@) + styled_line(
                depth + 1,
                "Elements:\n"@,
            ) + render_elements(elements@, depth + 1)
        },
        Declaration::TypeDeclaration { name, generic_args, alias } => {
            styled_line(depth, "Type Declaration: "@ + name@ + "\n"@) + styled_line(
                depth + 1,
                "Alias: "@ + render_type(alias, depth + 1) + "\n"@,
            ) + render_generic_arguments(generic_args@, depth + 1)
        },
    }
}

/// The block that lists the generic parameters of a type declaration. A
/// declaration without any has no such block.
pub open spec fn render_generic_arguments(names: Seq<String>, depth: nat) -> Seq<char> {
    if names.len() == 0 {
        Seq::empty()
    } else {
        styled_line(depth, "Generic Arguments:\n"@) + render_names(names, depth)
    }
}

/// The text of one element of a struct: a line for a field, the declaration's
/// own text for a declaration.
pub open spec fn render_element(element: StructElement, depth: nat) -> Seq<char>
    decreases element,
{
    match element {
        StructElement::Field { name, field_type } => render_typed_name(name@, field_type, depth),
        StructElement::Declaration(declaration) => render_declaration(declaration, depth),
    }
}

/// The texts of `elements`, one after the other.
pub open spec fn render_elements(elements: Seq<StructElement>, depth: nat) -> Seq<char>
    decreases elements,
{
    if elements.len() == 0 {
        Seq::empty()
    } else {
        render_elements(elements.drop_last(), depth) + render_element(elements.last(), depth)
    }
}

/// The texts of `declarations`, one after the other.
pub open spec fn render_declarations(declarations: Seq<Declaration>, depth: nat) -> Seq<char>
    decreases declarations,
{
    if declarations.len() == 0 {
        Seq::empty()
    } else {
        render_declarations(declarations.drop_last(), depth) + render_declaration(
            declarations.last(),
            depth,
        )
    }
}

/// The text of an expression.
pub open spec fn render_expression(expression: Expression, depth: nat) -> Seq<char>
    decreases expression,
{
    match expression {
        Expression::Assignment { name, value, expression_id } => {
            styled_line(depth, "Assignment:\n"@) + styled_line(
                depth + 1,
                "Variable: "@ + name@ + "\n"@,
            ) + styled_line(depth + 1, "Value:\n"@) + render_expression(*value, depth + 1)
        },
        Expression::BinaryOperation { left, operator, right } => {
            styled_line(depth, "Binary Operation: "@ + operator.symbol() + "\n"@) + styled_line(
                depth + 1,
                "Left:\n"@,
            ) + render_expression(*left, depth + 1) + styled_line(depth + 1, "Right:\n"@)
                + render_expression(*right, depth + 1)
        },
        Expression::UnaryOperation { operator, operand } => {
            styled_line(depth, "Unary Operation: "@ + operator.symbol() + "\n"@) + styled_line(
                depth + 1,
                "Operand:\n"@,
            ) + render_expression(*operand, depth + 1)
        },
        Expression::Block(statements) => {
            styled_line(depth, "Block:\n"@) + render_statements(statements@, depth + 1)
        },
        Expression::BooleanLiteral(value) => {
            styled_line(
                depth,
                "Boolean Literal: "@ + (if value {
                    "true"@
                } else {
                    "false"@
                }) + "\n"@,
            )
        },
        Expression::CharLiteral(value) => {
            styled_line(depth, "Character Literal: "@ + seq![value] + "\n"@)
        },
        Expression::NumberLiteral(value) => {
            styled_line(depth, "Number Literal: "@ + value@ + "\n"@)
        },
        Expression::StringLiteral(value) => {
            styled_line(depth, "String Literal: "@ + value@ + "\n"@)
        },
        Expression::FunctionCall { callee, args } => {
            styled_line(depth, "Function Call\n"@) + styled_line(depth + 1, "Callee:\n"@)
                + render_expression(*callee, depth + 1) + styled_line(
                depth + 1,
                "Arguments:\n"@,
            ) + render_expressions(args@, depth + 1)
        },
        Expression::Variable { name, expression_id } => {
            styled_line(depth, "Variable: "@ + name@ + "\n"@)
        },
        Expression::If { condition, then_branch, else_branch } => {
            styled_line(depth, "If Statement:\n"@) + styled_line(depth + 1, "Condition:\n"@)
                + render_expression(*condition, depth + 1) + styled_line(
                depth + 1,
                "Then Branch:\n"@,
            ) + render_expression(*then_branch, depth + 1) + (match else_branch {
                Some(otherwise) => styled_line(depth + 1, "Else Branch:\n"@) + render_expression(
                    *otherwise,
                    depth + 1,
                ),
                None => Seq::empty(),
            })
        },
        Expression::Loop(LoopType::Infinite { body }) => {
            styled_line(depth, "Infinite Loop:\n"@) + render_expression(*body, depth + 1)
        },
        Expression::Loop(LoopType::While { condition, body }) => {
            styled_line(depth, "While Loop:\n"@) + styled_line(depth + 1, "Condition:\n"@)
                + render_expression(*condition, depth + 1) + styled_line(depth + 1, "Body: "@)
                + render_expression(*body, depth + 1)
        },
        Expression::Loop(LoopType::Iterator { mutability, iterator, iterable, body }) => {
            styled_line(depth, "Iterator Loop:\n"@) + styled_line(
                depth + 1,
                "Mutability: "@ + mutability.word() + "\n"@,
            ) + styled_line(depth + 1, "Iterator: "@ + iterator@ + "\n"@) + styled_line(
                depth + 1,
                "Iterable:\n"@,
            ) + render_expression(*iterable, depth + 1) + styled_line(depth + 1, "Body: "@)
                + render_expression(*body, depth + 1)
        },
        Expression::MemberAccess { object, member } => {
            styled_line(depth, "Member Access:\n"@) + styled_line(depth + 1, "Object:\n"@)
                + render_expression(*object, depth + 1) + styled_line(
                depth + 1,
                "Member: "@ + member@ + "\n"@,
            )
        },
        Expression::Array { array_type, size, initial_value } => {
            styled_line(depth, "Array:\n"@) + styled_line(
                depth + 1,
                "Type: "@ + render_type(array_type, depth + 1) + "\n"@,
            ) + styled_line(depth + 1, "Size:\n"@) + render_expression(*size, depth + 1)
                + styled_line(depth + 1, "Initial Value:\n"@) + render_expression(
                *initial_value,
                depth + 1,
            )
        },
        Expression::StructCreation { struct_type, fields } => {
            styled_line(depth, "Struct Creation:\n"@) + styled_line(
                depth + 1,
                "Type: "@ + render_type(struct_type, depth + 1) + "\n"@,
            ) + styled_line(depth + 1, "Fields:\n"@) + render_fields(fields@, depth + 1)
        },
    }
}

/// The texts of `expressions`, one after the other.
pub open spec fn render_expressions(expressions: Seq<Expression>, depth: nat) -> Seq<char>
    decreases expressions,
{
    if expressions.len() == 0 {
        Seq::empty()
    } else {
        render_expressions(expressions.drop_last(), depth) + render_expression(
            expressions.last(),
            depth,
        )
    }
}

/// For each field of a struct value, in their order: a line with its name,
/// and its value one level deeper.
pub open spec fn render_fields(fields: Seq<(String, Box<Expression>)>, depth: nat) -> Seq<char>
    decreases fields,
{
    if fields.len() == 0 {
        Seq::empty()
    } else {
        render_fields(fields.drop_last(), depth) + styled_line(depth, fields.last().0@ + ":\n"@)
            + render_expression(*fields.last().1, depth + 1)
    }
}

/// The text of a statement.
pub open spec fn render_statement(statement: Statement, depth: nat) -> Seq<char>
    decreases statement,
{
    match statement {
        Statement::Declaration(declaration) => render_declaration(declaration, depth),
        Statement::Break => styled_line(depth, "Break\n"@),
        Statement::Continue => styled_line(depth, "Continue\n"@),
        Statement::Expression { expression, result } => {
            styled_line(depth, "Expression:\n"@) + render_expression(*expression, depth + 1) + (
            if result {
                styled_line(depth + 1, "Result: true\n"@)
            } else {
                Seq::empty()
            })
        },
        Statement::Return(value) => {
            styled_line(depth, "Return:\n"@) + (match value {
                Some(value) => render_expression(*value, depth + 1),
                None => styled_line(depth + 1, "No value\n"@),
            })
        },
        Statement::VariableDeclaration { mutability, name, variable_type, value } => {
            styled_line(depth, "Variable Declaration: "@ + name@ + "\n"@) + styled_line(
                depth + 1,
                "Mutability: "@ + mutability.word() + "\n"@,
            ) + styled_line(depth + 1, "Type: "@ + render_type(variable_type, depth + 1) + "\n"@)
                + styled_line(depth + 1, "Value:\n"@) + render_expression(*value, depth + 1)
        },
    }
}

/// The texts of `statements`, one after the other.
pub open spec fn render_statements(statements: Seq<Statement>, depth: nat) -> Seq<char>
    decreases statements,
{
    if statements.len() == 0 {
        Seq::empty()
    } else {
        render_statements(statements.drop_last(), depth) + render_statement(
            statements.last(),
            depth,
        )
    }
}

/// The text of a program: its declarations at depth 0, in their order.
pub open spec fn render_program(program: Program) -> Seq<char> {
    render_declarations(program.declarations@, 0)
}

/// The block of a function declaration that lists its parameters.
pub open spec fn parameters_section(params: Seq<FunctionParameter>, depth: nat) -> Seq<char> {
    styled_line(depth, "Parameters:\n"@) + render_parameters(params, depth)
}

/// The line of a function declaration that names its return type.
pub open spec fn return_type_section(return_type: Type, depth: nat) -> Seq<char> {
    styled_line(depth, "Return Type: "@ + render_type(return_type, depth) + "\n"@)
}

/// The part of a function declaration that shows its body: the header, and
/// the body behind it on the same line.
pub open spec fn body_section(body: Expression, depth: nat) -> Seq<char> {
    styled_line(depth, "Body: "@) + render_expression(body, depth)
}

/// A function declaration is shown as its header line, then its parameters,
/// then its return type, then its body, all three one level deeper: always in
/// this order, and with nothing else between them.
pub proof fn lemma_function_sections_in_order(
    name: String,
    params: Vec<FunctionParameter>,
    generic_args: Vec<String>,
    return_type: Type,
    body: Box<Expression>,
    depth: nat,
)
    ensures
        render_declaration(
            (Declaration::Function { name, params, generic_args, return_type, body }),
            depth,
        ) == styled_line(depth, "Function: "@ + name@ + "\n"@) + parameters_section(
            params@,
            depth + 1,
        ) + return_type_section(return_type, depth + 1) + body_section(*body, depth + 1),
{
}

/// The type `Nil` is shown as the word `Nil`, at whatever depth it stands.
pub proof fn lemma_nil_type_text(depth: nat)
    ensures
        render_type(Type::Nil, depth) == seq!['N', 'i', 'l'],
{
    reveal_strlit("Nil");
}

/// A type declaration without generic parameters is its header line and the
/// line of its alias, and no more. One with generic parameters goes on with a
/// `Generic Arguments:` line and one line for each parameter.
pub proof fn lemma_type_declaration_generic_arguments(
    name: String,
    generic_args: Vec<String>,
    alias: Type,
    depth: nat,
)
    ensures
        generic_args@.len() == 0 ==> render_declaration(
            (Declaration::TypeDeclaration { name, generic_args, alias }),
            depth,
        ) == styled_line(depth, "Type Declaration: "@ + name@ + "\n"@) + styled_line(
            depth + 1,
            "Alias: "@ + render_type(alias, depth + 1) + "\n"@,
        ),
        generic_args@.len() > 0 ==> render_declaration(
            (Declaration::TypeDeclaration { name, generic_args, alias }),
            depth,
        ) == styled_line(depth, "Type Declaration: "@ + name@ + "\n"@) + styled_line(
            depth + 1,
            "Alias: "@ + render_type(alias, depth + 1) + "\n"@,
        ) + styled_line(depth + 1, "Generic Arguments:\n"@) + render_names(
            generic_args@,
            depth + 1,
        ),
        generic_args@.len() == 1 ==> render_names(generic_args@, depth + 1) == styled_line(
            depth + 1,
            "- "@ + generic_args@[0]@ + "\n"@,
        ),
{
    if generic_args@.len() == 1 {
        assert(render_names(generic_args@.drop_last(), depth + 1) == Seq::<char>::empty());
    }
}

/// An expression statement is shown as an `Expression:` line and the
/// expression one level deeper. Where it is marked as the result of its block
/// a `Result: true` line follows the expression, and where it is not, nothing
/// does.
pub proof fn lemma_result_flag(expression: Box<Expression>, depth: nat)
    ensures
        render_statement((Statement::Expression { expression, result: false }), depth)
            == styled_line(depth, "Expression:\n"@) + render_expression(*expression, depth + 1),
        render_statement((Statement::Expression { expression, result: true }), depth)
            == render_statement((Statement::Expression { expression, result: false }), depth)
            + styled_line(depth + 1, "Result: true\n"@),
{
}

/// The identifier of an occurrence is never shown: two variables, or two
/// assignments, that differ in it alone have the same text.
pub proof fn lemma_expression_id_not_shown(
    name: String,
    value: Box<Expression>,
    first: ExpressionId,
    second: ExpressionId,
    depth: nat,
)
    ensures
        render_expression((Expression::Variable { name, expression_id: first }), depth)
            == render_expression((Expression::Variable { name, expression_id: second }), depth),
        render_expression((Expression::Assignment { name, value, expression_id: first }), depth)
            == render_expression(
            (Expression::Assignment { name, value, expression_id: second }),
            depth,
        ),
{
}

/// An import is one line: the guide of its depth, `Import` in bold, then a
/// colon, a space, the segments of its path with a dot between each two, and
/// a line break, whatever the segments hold.
pub proof fn lemma_import_is_one_line(path: Vec<String>, depth: nat)
    ensures
        render_declaration((Declaration::Import { path }), depth) == ANSI_GRAY@ + indent_guide(
            depth,
        ) + ANSI_RESET@ + ANSI_BOLD@ + "Import"@ + ANSI_RESET@ + ": "@ + join(texts(path@), "."@)
            + "\n"@,
{
    reveal_strlit("Import");
    reveal_strlit("Import: ");
    reveal_strlit(": ");
    let rest = " "@ + join(texts(path@), "."@) + "\n"@;
    reveal_strlit(" ");
    assert("Import: "@ + join(texts(path@), "."@) + "\n"@ == "Import"@ + seq![':'] + rest);
    lemma_styled_line_with_colon(depth, "Import"@, rest);
    let lead = ANSI_GRAY@ + indent_guide(depth) + ANSI_RESET@ + ANSI_BOLD@ + "Import"@
        + ANSI_RESET@;
    assert(lead + seq![':'] + rest == lead + ": "@ + join(texts(path@), "."@) + "\n"@);
}

/// An array type is shown on one line with its element: the words `Array of`
/// and the element's text behind them. So an array of `Nil` is
/// `Array of Nil`.
pub proof fn lemma_array_type_is_inline(of: Box<Type>, depth: nat)
    ensures
        render_type(Type::Array(of), depth) == "Array of "@ + render_type(*of, depth + 1),
        *of == Type::Nil ==> render_type(Type::Array(of), depth) == "Array of Nil"@,
{
    reveal_strlit("Array of ");
    reveal_strlit("Nil");
    reveal_strlit("Array of Nil");
    if *of == Type::Nil {
        assert("Array of "@ + "Nil"@ == "Array of Nil"@);
    }
}

} // verus!
