use syntax_tree::ast::{
    BinaryOperator, Declaration, Expression, ExpressionId, FunctionParameter, LoopType, Program,
    Statement, StructElement, Type, UnaryOperator, VariableMutability,
};

fn sample() -> Program {
    Program {
        declarations: vec![
            Declaration::Import { path: vec!["std".to_string(), "io".to_string()] },
            Declaration::Struct {
                name: "Point".to_string(),
                elements: vec![
                    StructElement::Field { name: "x".to_string(), field_type: Type::F64 },
                    StructElement::Declaration(Declaration::TypeDeclaration {
                        name: "Coordinate".to_string(),
                        generic_args: vec![],
                        alias: Type::F64,
                    }),
                ],
                generic_args: vec![],
            },
            Declaration::Function {
                name: "main".to_string(),
                params: vec![FunctionParameter {
                    name: "args".to_string(),
                    param_type: Type::Array(Box::new(Type::Identifier {
                        name: "String".to_string(),
                        generics: vec![],
                    })),
                }],
                generic_args: vec![],
                return_type: Type::Nil,
                body: Box::new(Expression::Block(vec![
                    Statement::VariableDeclaration {
                        mutability: VariableMutability::Mutable,
                        name: "i".to_string(),
                        variable_type: Type::U32,
                        value: Box::new(Expression::NumberLiteral("0".to_string())),
                    },
                    Statement::Expression {
                        expression: Box::new(Expression::Loop(LoopType::While {
                            condition: Box::new(Expression::BinaryOperation {
                                left: Box::new(Expression::Variable {
                                    name: "i".to_string(),
                                    expression_id: ExpressionId(1),
                                }),
                                operator: BinaryOperator::LessThan,
                                right: Box::new(Expression::NumberLiteral("10".to_string())),
                            }),
                            body: Box::new(Expression::Block(vec![Statement::Break])),
                        })),
                        result: false,
                    },
                    Statement::Return(None),
                ])),
            },
        ],
    }
}

#[test]
fn equal_trees_compare_equal() {
    assert_eq!(sample(), sample());
}

#[test]
fn trees_that_differ_deep_inside_compare_unequal() {
    let mut other = sample();
    if let Declaration::Function { body, .. } = &mut other.declarations[2] {
        if let Expression::Block(statements) = body.as_mut() {
            statements[2] = Statement::Return(Some(Box::new(Expression::BooleanLiteral(true))));
        }
    }
    assert_ne!(sample(), other);
}

#[test]
fn expression_ids_take_part_in_equality() {
    let first = Expression::Variable { name: "x".to_string(), expression_id: ExpressionId(1) };
    let same = Expression::Variable { name: "x".to_string(), expression_id: ExpressionId(1) };
    let other = Expression::Variable { name: "x".to_string(), expression_id: ExpressionId(2) };
    assert_eq!(first, same);
    assert_ne!(first, other);
}

#[test]
fn expression_id_is_a_plain_value() {
    let id = ExpressionId(u32::MAX);
    let copy = id;
    assert_eq!(id, copy);
    assert_eq!(id.0, 4_294_967_295);
    assert_eq!(format!("{:?}", id), "ExpressionId(4294967295)");
    let mut seen = std::collections::HashSet::new();
    assert!(seen.insert(ExpressionId(1)));
    assert!(!seen.insert(ExpressionId(1)));
    assert!(seen.insert(ExpressionId(2)));
}

#[test]
fn variants_of_one_kind_differ() {
    assert_ne!(Type::U8, Type::I8);
    assert_ne!(Type::Nil, Type::Boolean);
    assert_ne!(VariableMutability::Mutable, VariableMutability::Immutable);
    assert_ne!(BinaryOperator::Add, BinaryOperator::Subtract);
    assert_ne!(UnaryOperator::Negate, UnaryOperator::Not);
    assert_ne!(Statement::Break, Statement::Continue);
    assert_ne!(
        Type::Identifier { name: "T".to_string(), generics: vec![] },
        Type::Identifier { name: "T".to_string(), generics: vec![Type::U8] }
    );
}

#[test]
fn nodes_can_be_inspected() {
    let program = sample();
    assert_eq!(program.declarations.len(), 3);
    match &program.declarations[2] {
        Declaration::Function { name, params, return_type, .. } => {
            assert_eq!(name, "main");
            assert_eq!(params[0].name, "args");
            assert_eq!(*return_type, Type::Nil);
        }
        other => panic!("not a function: {:?}", other),
    }
}

#[test]
fn binary_operators_have_their_symbols() {
    assert_eq!(BinaryOperator::Add.to_string(), "+");
    assert_eq!(BinaryOperator::Subtract.to_string(), "-");
    assert_eq!(BinaryOperator::Multiply.to_string(), "*");
    assert_eq!(BinaryOperator::Divide.to_string(), "/");
    assert_eq!(BinaryOperator::Modulus.to_string(), "%");
    assert_eq!(BinaryOperator::And.to_string(), "&&");
    assert_eq!(BinaryOperator::Or.to_string(), "||");
    assert_eq!(BinaryOperator::Equal.to_string(), "==");
    assert_eq!(BinaryOperator::NotEqual.to_string(), "!=");
    assert_eq!(BinaryOperator::LessThan.to_string(), "<");
    assert_eq!(BinaryOperator::GreaterThan.to_string(), ">");
    assert_eq!(BinaryOperator::LessThanOrEqual.to_string(), "<=");
    assert_eq!(BinaryOperator::GreaterThanOrEqual.to_string(), ">=");
}

#[test]
fn unary_operators_have_their_symbols() {
    assert_eq!(UnaryOperator::Negate.to_string(), "-");
    assert_eq!(UnaryOperator::Not.to_string(), "!");
}
