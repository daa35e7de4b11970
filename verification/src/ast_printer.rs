//! The printer: a depth-first walk over a tree that writes the text which
//! [`crate::render`] defines for it.

use vstd::prelude::*;
use crate::ast::{
    Declaration,
    Expression,
    LoopType,
    Program,
    Statement,
    StructElement,
    Type,
    VariableMutability,
};
use crate::render::{
    join,
    render_declaration,
    render_declarations,
    render_element,
    render_elements,
    render_expression,
    render_expressions,
    render_fields,
    render_generic_arguments,
    render_names,
    render_parameters,
    render_program,
    render_statement,
    render_statements,
    render_type,
    render_type_entries,
    render_types,
    texts,
};
use crate::style::{
    header_len,
    indent_guide,
    lemma_header_len_at_colon,
    lemma_header_len_without_colon,
    lemma_indent_guide,
    styled_line,
    ANSI_BOLD,
    ANSI_GRAY,
    ANSI_RESET,
};

verus! {

/// `String::push` of the standard library puts the character at the end of
/// the string and leaves the rest as it was.
pub assume_specification[ String::push ](s: &mut String, ch: char)
    ensures
        final(s)@ == old(s)@.push(ch),
;

/// Walks a tree and writes it out.
///
/// The printer knows how deep in the tree it is. It holds that depth as the
/// indentation guide of a line there, which grows by one piece on the way
/// down and loses one on the way up, so a walk needs no bound on how deep the
/// tree is.
pub struct ASTPrinter {
    guide: Vec<char>,
}

impl ASTPrinter {
    /// The depth the printer is at: the number of pieces that its indentation
    /// guide has.
    pub closed spec fn depth(&self) -> nat {
        (self.guide@.len() / 3) as nat
    }

    /// What the printer holds is the indentation guide of its depth.
    pub closed spec fn well_formed(&self) -> bool {
        self.guide@ == indent_guide(self.depth())
    }

    /// A printer at depth 0.
    pub fn new() -> (printer: Self)
        ensures
            printer.well_formed(),
            printer.depth() == 0,
    {
        ASTPrinter { guide: Vec::new() }
    }

    /// Returns the text of `program`.
    ///
    /// The walk starts at depth 0 whatever the printer did before, so the
    /// text depends on `program` alone, and it leaves the printer at depth 0.
    pub fn print_program(&mut self, program: &Program) -> (out: String)
        ensures
            out@ == render_program(*program),
            final(self).well_formed(),
            final(self).depth() == 0,
    {
        self.guide.clear();
        let mut out = String::new();
        let declarations = &program.declarations;
        for i in 0..declarations.len()
            invariant
                self.well_formed(),
                self.depth() == 0,
                out@ == render_declarations(declarations@.take(i as int), 0),
        {
            out.append(self.print_declaration(&declarations[i]).as_str());
            assert(declarations@.take(i + 1).drop_last() == declarations@.take(i as int));
        }
        assert(declarations@.take(declarations@.len() as int) == declarations@);
        out
    }

    /// Goes one level deeper.
    fn descend(&mut self)
        requires
            old(self).well_formed(),
        ensures
            final(self).well_formed(),
            final(self).depth() == old(self).depth() + 1,
    {
        proof {
            lemma_indent_guide(self.depth());
        }
        self.guide.push('|');
        self.guide.push(' ');
        self.guide.push(' ');
    }

    /// Comes back up one level.
    fn ascend(&mut self)
        requires
            old(self).well_formed(),
            old(self).depth() > 0,
        ensures
            final(self).well_formed(),
            final(self).depth() == old(self).depth() - 1,
    {
        proof {
            lemma_indent_guide(self.depth());
            lemma_indent_guide((self.depth() - 1) as nat);
        }
        let len = self.guide.len();
        self.guide.truncate(len - 3);
        assert(self.guide@ == indent_guide((old(self).depth() - 1) as nat));
    }

    /// Lays out `text` as one line at the printer's depth.
    fn line(&self, text: &str) -> (out: String)
        requires
            self.well_formed(),
        ensures
            out@ == styled_line(self.depth(), text@),
    {
        let mut out = String::from_str(ANSI_GRAY);
        for i in 0..self.guide.len()
            invariant
                out@ == ANSI_GRAY@ + self.guide@.take(i as int),
        {
            out.push(self.guide[i]);
        }
        out.append(ANSI_RESET);
        out.append(ANSI_BOLD);
        let ghost lead = out@;
        let mut in_header = true;
        for ch in it: text.chars()
            invariant
                it.seq() == text@,
                in_header ==> out@ == lead + text@.take(it.index()),
                in_header ==> forall|i: int| 0 <= i < it.index() ==> text@[i] != ':',
                !in_header ==> header_len(text@) < it.index(),
                !in_header ==> out@ == lead + text@.take(header_len(text@) as int) + ANSI_RESET@
                    + text@.subrange(header_len(text@) as int, it.index()),
        {
            if in_header && ch == ':' {
                proof {
                    lemma_header_len_at_colon(text@, it.index());
                }
                out.append(ANSI_RESET);
                in_header = false;
            }
            out.push(ch);
        }
        if in_header {
            proof {
                lemma_header_len_without_colon(text@);
            }
            out.append(ANSI_RESET);
        }
        out
    }

    /// Lays out a label, a value and a line break as one line at the
    /// printer's depth.
    fn entry(&self, label: &str, value: &str) -> (out: String)
        requires
            self.well_formed(),
        ensures
            out@ == styled_line(self.depth(), label@ + value@ + "\n"@),
    {
        let mut text = String::from_str(label);
        text.append(value);
        text.append("\n");
        self.line(text.as_str())
    }

    /// Lays out the line of something that has a name and a type, given the
    /// text of the type.
    fn typed_name(&self, name: &str, type_text: &str) -> (out: String)
        requires
            self.well_formed(),
        ensures
            out@ == styled_line(self.depth(), "- "@ + name@ + ": "@ + type_text@ + "\n"@),
    {
        let mut text = String::from_str("- ");
        text.append(name);
        text.append(": ");
        text.append(type_text);
        text.append("\n");
        self.line(text.as_str())
    }

    /// Returns the text of `ty` at the printer's depth, and leaves the
    /// printer at that depth.
    pub fn print_type(&mut self, ty: &Type) -> (out: String)
        requires
            old(self).well_formed(),
        ensures
            final(self).well_formed(),
            final(self).depth() == old(self).depth(),
            out@ == render_type(*ty, old(self).depth()),
        decreases ty,
    {
        let ghost depth = self.depth();
        match ty {
            Type::Boolean => String::from_str("Boolean"),
            Type::Character => String::from_str("Character"),
            Type::F32 => String::from_str("F32"),
            Type::F64 => String::from_str("F64"),
            Type::I8 => String::from_str("I8"),
            Type::I16 => String::from_str("I16"),
            Type::I32 => String::from_str("I32"),
            Type::I64 => String::from_str("I64"),
            Type::U8 => String::from_str("U8"),
            Type::U16 => String::from_str("U16"),
            Type::U32 => String::from_str("U32"),
            Type::U64 => String::from_str("U64"),
            Type::Nil => String::from_str("Nil"),
            Type::Identifier { name, generics } => {
                let mut out = name.clone();
                if generics.len() != 0 {
                    let mut arguments: Vec<String> = Vec::new();
                    for i in 0..generics.len()
                        invariant
                            self.well_formed(),
                            self.depth() == depth,
                            decreases_to!(ty => generics),
                            texts(arguments@) == render_types(generics@.take(i as int), depth),
                    {
                        let argument = self.print_type(&generics[i]);
                        arguments.push(argument);
                        assert(generics@.take(i + 1).drop_last() == generics@.take(i as int));
                    }
                    assert(generics@.take(generics@.len() as int) == generics@);
                    out.append("<");
                    out.append(join_strings(&arguments, ", ").as_str());
                    out.append(">");
                }
                out
            },
            Type::Array(of) => {
                let mut out = String::from_str("Array of ");
                self.descend();
                out.append(self.print_type(of).as_str());
                self.ascend();
                out
            },
            Type::Function { params, return_type } => {
                let mut out = self.line("Function:\n");
                self.descend();
                out.append(self.line("Parameters:\n").as_str());
                let ghost lead = out@;
                for i in 0..params.len()
                    invariant
                        self.well_formed(),
                        self.depth() == depth + 1,
                        decreases_to!(ty => params),
                        out@ == lead + render_type_entries(params@.take(i as int), depth + 1),
                {
                    let param = self.print_type(&params[i]);
                    out.append(self.entry("- ", param.as_str()).as_str());
                    assert(params@.take(i + 1).drop_last() == params@.take(i as int));
                }
                assert(params@.take(params@.len() as int) == params@);
                let returned = self.print_type(return_type);
                out.append(self.entry("Return Type: ", returned.as_str()).as_str());
                self.ascend();
                out
            },
        }
    }

    /// Returns the text of `declaration` at the printer's depth, and leaves
    /// the printer at that depth.
    #[verifier::rlimit(30)]
    pub fn print_declaration(&mut self, declaration: &Declaration) -> (out: String)
        requires
            old(self).well_formed(),
        ensures
            final(self).well_formed(),
            final(self).depth() == old(self).depth(),
            out@ == render_declaration(*declaration, old(self).depth()),
        decreases declaration,
    {
        let ghost depth = self.depth();
        match declaration {
            Declaration::Function { name, params, generic_args: _, return_type, body } => {
                let mut out = self.entry("Function: ", name.as_str());
                self.descend();
                out.append(self.line("Parameters:\n").as_str());
                let ghost lead = out@;
                for i in 0..params.len()
                    invariant
                        self.well_formed(),
                        self.depth() == depth + 1,
                        out@ == lead + render_parameters(params@.take(i as int), depth + 1),
                {
                    let param = &params[i];
                    let param_type = self.print_type(&param.param_type);
                    out.append(self.typed_name(param.name.as_str(), param_type.as_str()).as_str());
                    assert(params@.take(i + 1).drop_last() == params@.take(i as int));
                }
                assert(params@.take(params@.len() as int) == params@);
                let returned = self.print_type(return_type);
                out.append(self.entry("Return Type: ", returned.as_str()).as_str());
                out.append(self.line("Body: ").as_str());
                out.append(self.print_expression(body).as_str());
                self.ascend();
                out
            },
            Declaration::Import { path } => {
                self.entry("Import: ", join_strings(path, ".").as_str())
            },
            Declaration::Struct { name, elements, generic_args: _ } => {
                let mut out = self.entry("Struct: ", name.as_str());
                self.descend();
                out.append(self.line("Elements:\n").as_str());
                let ghost lead = out@;
                for i in 0..elements.len()
                    invariant
                        self.well_formed(),
                        self.depth() == depth + 1,
                        decreases_to!(declaration => elements),
                        out@ == lead + render_elements(elements@.take(i as int), depth + 1),
                {
                    let element = match &elements[i] {
                        StructElement::Field { name, field_type } => {
                            let field_type = self.print_type(field_type);
                            self.typed_name(name.as_str(), field_type.as_str())
                        },
                        StructElement::Declaration(nested) => self.print_declaration(nested),
                    };
                    assert(element@ == render_element(elements@[i as int], depth + 1));
                    out.append(element.as_str());
                    assert(elements@.take(i + 1).drop_last() == elements@.take(i as int));
                }
                assert(elements@.take(elements@.len() as int) == elements@);
                self.ascend();
                out
            },
            Declaration::TypeDeclaration { name, generic_args, alias } => {
                let mut out = self.entry("Type Declaration: ", name.as_str());
                self.descend();
                let aliased = self.print_type(alias);
                out.append(self.entry("Alias: ", aliased.as_str()).as_str());
                if generic_args.len() != 0 {
                    out.append(self.line("Generic Arguments:\n").as_str());
                    let ghost lead = out@;
                    for i in 0..generic_args.len()
                        invariant
                            self.well_formed(),
                            self.depth() == depth + 1,
                            out@ == lead + render_names(generic_args@.take(i as int), depth + 1),
                    {
                        out.append(self.entry("- ", generic_args[i].as_str()).as_str());
                        assert(generic_args@.take(i + 1).drop_last() == generic_args@.take(i as int));
                    }
                    assert(generic_args@.take(generic_args@.len() as int) == generic_args@);
                }
                self.ascend();
                out
            },
        }
    }

    /// Returns the text of `expression` at the printer's depth, and leaves
    /// the printer at that depth.
    #[verifier::rlimit(30)]
    pub fn print_expression(&mut self, expression: &Expression) -> (out: String)
        requires
            old(self).well_formed(),
        ensures
            final(self).well_formed(),
            final(self).depth() == old(self).depth(),
            out@ == render_expression(*expression, old(self).depth()),
        decreases expression,
    {
        let ghost depth = self.depth();
        match expression {
            Expression::Assignment { name, value, expression_id: _ } => {
                let mut out = self.line("Assignment:\n");
                self.descend();
                out.append(self.entry("Variable: ", name.as_str()).as_str());
                out.append(self.line("Value:\n").as_str());
                out.append(self.print_expression(value).as_str());
                self.ascend();
                out
            },
            Expression::BinaryOperation { left, operator, right } => {
                let mut out = self.entry("Binary Operation: ", operator.to_string().as_str());
                self.descend();
                out.append(self.line("Left:\n").as_str());
                out.append(self.print_expression(left).as_str());
                out.append(self.line("Right:\n").as_str());
                out.append(self.print_expression(right).as_str());
                self.ascend();
                out
            },
            Expression::UnaryOperation { operator, operand } => {
                let mut out = self.entry("Unary Operation: ", operator.to_string().as_str());
                self.descend();
                out.append(self.line("Operand:\n").as_str());
                out.append(self.print_expression(operand).as_str());
                self.ascend();
                out
            },
            Expression::Block(statements) => {
                let mut out = self.line("Block:\n");
                self.descend();
                let ghost lead = out@;
                for i in 0..statements.len()
                    invariant
                        self.well_formed(),
                        self.depth() == depth + 1,
                        decreases_to!(expression => statements),
                        out@ == lead + render_statements(statements@.take(i as int), depth + 1),
                {
                    out.append(self.print_statement(&statements[i]).as_str());
                    assert(statements@.take(i + 1).drop_last() == statements@.take(i as int));
                }
                assert(statements@.take(statements@.len() as int) == statements@);
                self.ascend();
                out
            },
            Expression::BooleanLiteral(value) => {
                self.entry(
                    "Boolean Literal: ",
                    if *value {
                        "true"
                    } else {
                        "false"
                    },
                )
            },
            Expression::CharLiteral(value) => {
                let mut text = String::from_str("Character Literal: ");
                text.push(*value);
                text.append("\n");
                assert("Character Literal: "@.push(*value) == "Character Literal: "@ + seq![*value]);
                self.line(text.as_str())
            },
            Expression::NumberLiteral(value) => self.entry("Number Literal: ", value.as_str()),
            Expression::StringLiteral(value) => self.entry("String Literal: ", value.as_str()),
            Expression::FunctionCall { callee, args } => {
                let mut out = self.line("Function Call\n");
                self.descend();
                out.append(self.line("Callee:\n").as_str());
                out.append(self.print_expression(callee).as_str());
                out.append(self.line("Arguments:\n").as_str());
                let ghost lead = out@;
                for i in 0..args.len()
                    invariant
                        self.well_formed(),
                        self.depth() == depth + 1,
                        decreases_to!(expression => args),
                        out@ == lead + render_expressions(args@.take(i as int), depth + 1),
                {
                    out.append(self.print_expression(&args[i]).as_str());
                    assert(args@.take(i + 1).drop_last() == args@.take(i as int));
                }
                assert(args@.take(args@.len() as int) == args@);
                self.ascend();
                out
            },
            Expression::Variable { name, expression_id: _ } => {
                self.entry("Variable: ", name.as_str())
            },
            Expression::If { condition, then_branch, else_branch } => {
                let mut out = self.line("If Statement:\n");
                self.descend();
                out.append(self.line("Condition:\n").as_str());
                out.append(self.print_expression(condition).as_str());
                out.append(self.line("Then Branch:\n").as_str());
                out.append(self.print_expression(then_branch).as_str());
                if let Some(otherwise) = else_branch {
                    let mut tail = self.line("Else Branch:\n");
                    tail.append(self.print_expression(otherwise).as_str());
                    out.append(tail.as_str());
                }
                self.ascend();
                out
            },
            Expression::Loop(LoopType::Infinite { body }) => {
                let mut out = self.line("Infinite Loop:\n");
                self.descend();
                out.append(self.print_expression(body).as_str());
                self.ascend();
                out
            },
            Expression::Loop(LoopType::While { condition, body }) => {
                let mut out = self.line("While Loop:\n");
                self.descend();
                out.append(self.line("Condition:\n").as_str());
                out.append(self.print_expression(condition).as_str());
                out.append(self.line("Body: ").as_str());
                out.append(self.print_expression(body).as_str());
                self.ascend();
                out
            },
            Expression::Loop(LoopType::Iterator { mutability, iterator, iterable, body }) => {
                let mut out = self.line("Iterator Loop:\n");
                self.descend();
                out.append(self.entry("Mutability: ", mutability_word(mutability)).as_str());
                out.append(self.entry("Iterator: ", iterator.as_str()).as_str());
                out.append(self.line("Iterable:\n").as_str());
                out.append(self.print_expression(iterable).as_str());
                out.append(self.line("Body: ").as_str());
                out.append(self.print_expression(body).as_str());
                self.ascend();
                out
            },
            Expression::MemberAccess { object, member } => {
                let mut out = self.line("Member Access:\n");
                self.descend();
                out.append(self.line("Object:\n").as_str());
                out.append(self.print_expression(object).as_str());
                out.append(self.entry("Member: ", member.as_str()).as_str());
                self.ascend();
                out
            },
            Expression::Array { array_type, size, initial_value } => {
                let mut out = self.line("Array:\n");
                self.descend();
                let element_type = self.print_type(array_type);
                out.append(self.entry("Type: ", element_type.as_str()).as_str());
                out.append(self.line("Size:\n").as_str());
                out.append(self.print_expression(size).as_str());
                out.append(self.line("Initial Value:\n").as_str());
                out.append(self.print_expression(initial_value).as_str());
                self.ascend();
                out
            },
            Expression::StructCreation { struct_type, fields } => {
                let mut out = self.line("Struct Creation:\n");
                self.descend();
                let created = self.print_type(struct_type);
                out.append(self.entry("Type: ", created.as_str()).as_str());
                out.append(self.line("Fields:\n").as_str());
                let ghost lead = out@;
                for i in 0..fields.len()
                    invariant
                        self.well_formed(),
                        self.depth() == depth + 1,
                        decreases_to!(expression => fields),
                        out@ == lead + render_fields(fields@.take(i as int), depth + 1),
                {
                    let field = &fields[i];
                    let mut text = String::from_str(field.0.as_str());
                    text.append(":\n");
                    out.append(self.line(text.as_str()).as_str());
                    self.descend();
                    out.append(self.print_expression(&field.1).as_str());
                    self.ascend();
                    assert(fields@.take(i + 1).drop_last() == fields@.take(i as int));
                }
                assert(fields@.take(fields@.len() as int) == fields@);
                self.ascend();
                out
            },
        }
    }

    /// Returns the text of `statement` at the printer's depth, and leaves
    /// the printer at that depth.
    pub fn print_statement(&mut self, statement: &Statement) -> (out: String)
        requires
            old(self).well_formed(),
        ensures
            final(self).well_formed(),
            final(self).depth() == old(self).depth(),
            out@ == render_statement(*statement, old(self).depth()),
        decreases statement,
    {
        match statement {
            Statement::Declaration(declaration) => self.print_declaration(declaration),
            Statement::Break => self.line("Break\n"),
            Statement::Continue => self.line("Continue\n"),
            Statement::Expression { expression, result } => {
                let mut out = self.line("Expression:\n");
                self.descend();
                out.append(self.print_expression(expression).as_str());
                if *result {
                    out.append(self.line("Result: true\n").as_str());
                }
                self.ascend();
                out
            },
            Statement::Return(value) => {
                let mut out = self.line("Return:\n");
                self.descend();
                if let Some(value) = value {
                    out.append(self.print_expression(value).as_str());
                } else {
                    out.append(self.line("No value\n").as_str());
                }
                self.ascend();
                out
            },
            Statement::VariableDeclaration { mutability, name, variable_type, value } => {
                let mut out = self.entry("Variable Declaration: ", name.as_str());
                self.descend();
                out.append(self.entry("Mutability: ", mutability_word(mutability)).as_str());
                let declared = self.print_type(variable_type);
                out.append(self.entry("Type: ", declared.as_str()).as_str());
                out.append(self.line("Value:\n").as_str());
                out.append(self.print_expression(value).as_str());
                self.ascend();
                out
            },
        }
    }
}

/// The word that names `mutability`.
fn mutability_word(mutability: &VariableMutability) -> (word: &'static str)
    ensures
        word@ == mutability.word(),
{
    match mutability {
        VariableMutability::Mutable => "Mutable",
        VariableMutability::Immutable => "Immutable",
    }
}

/// Puts `parts` one after the other, with `separator` between each two
/// neighbours.
fn join_strings(parts: &Vec<String>, separator: &str) -> (out: String)
    ensures
        out@ == join(texts(parts@), separator@),
{
    let mut out = String::new();
    for i in 0..parts.len()
        invariant
            out@ == join(texts(parts@).take(i as int), separator@),
    {
        if i != 0 {
            out.append(separator);
        }
        out.append(parts[i].as_str());
        assert(texts(parts@).take(i + 1).drop_last() == texts(parts@).take(i as int));
    }
    assert(texts(parts@).take(parts@.len() as int) == texts(parts@));
    out
}

} // verus!
