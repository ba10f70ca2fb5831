use expr_engine::expression::Element;
use expr_engine::expression::Expression;
use expr_engine::multiply::Multiply;
use expr_engine::operator::Operator;
use expr_engine::operator::ReductionResult;
use expr_engine::operator::reduce_ops_then_run_if_numeric;

#[test]
fn multiply_numbers() {
    let mut operator = Multiply::try_new(vec![
        Expression::new(Element::Number(2)),
        Expression::new(Element::Number(3)),
    ])
    .unwrap();
    let result = operator.reduce();
    if let ReductionResult::ReducedToNumber(result) = result {
        assert_eq!(result, 6);
    } else {
        panic!("Expected Number, got {result:?}");
    }
}

#[test]
fn multiply_variable_and_number() {
    let mut operator = Multiply::try_new(vec![
        Expression::new(Element::Variable("x".to_string())),
        Expression::new(Element::Number(3)),
    ])
    .unwrap();
    let result = operator.reduce();
    if let ReductionResult::StayedInPlace = result {
        // this is the expected result
    } else {
        panic!("Expected Operator, got {result:?}");
    }
}

#[test]
fn reducibility_num_and_num() {
    let operator = Multiply::try_new(vec![
        Expression::new(Element::Number(2)),
        Expression::new(Element::Number(3)),
    ])
    .unwrap();
    assert!(operator.is_reducible());
}

#[test]
fn reducibility_num_and_var() {
    let operator = Multiply::try_new(vec![
        Expression::new(Element::Number(2)),
        Expression::new(Element::Variable("x".to_string())),
    ])
    .unwrap();
    assert!(!operator.is_reducible());
}

#[test]
fn reducibility_var_and_var() {
    let operator = Multiply::try_new(vec![
        Expression::new(Element::Variable("x".to_string())),
        Expression::new(Element::Variable("y".to_string())),
    ])
    .unwrap();
    assert!(!operator.is_reducible());
}

#[test]
fn reducibility_multnumnum_and_num() {
    let operator = Multiply::try_new(vec![
        Expression::new(Element::Operator(
            expr_engine::expression::OperatorKind::Multiply(
                Multiply::try_new(vec![
                    Expression::new(Element::Number(2)),
                    Expression::new(Element::Number(3)),
                ])
                .unwrap(),
            ),
        )),
        Expression::new(Element::Number(4)),
    ])
    .unwrap();
    assert!(operator.is_reducible());
}

#[test]
fn reducibility_multnumnum_and_var() {
    let operator = Multiply::try_new(vec![
        Expression::new(Element::Operator(
            expr_engine::expression::OperatorKind::Multiply(
                Multiply::try_new(vec![
                    Expression::new(Element::Number(2)),
                    Expression::new(Element::Number(3)),
                ])
                .unwrap(),
            ),
        )),
        Expression::new(Element::Variable("x".to_string())),
    ])
    .unwrap();
    assert!(operator.is_reducible());
}

fn nested_multiply(a: Expression, b: Expression) -> Expression {
    Expression::new(Element::Operator(
        expr_engine::expression::OperatorKind::Multiply(Multiply::try_new(vec![a, b]).unwrap()),
    ))
}

#[test]
fn arity_validation_rejects_zero_one_and_three() {
    let err = Multiply::try_new(vec![]).unwrap_err();
    assert_eq!(err.expected, 2);
    assert_eq!(err.actual, 0);

    let err = Multiply::try_new(vec![Expression::new(Element::Number(1))]).unwrap_err();
    assert_eq!(err.expected, 2);
    assert_eq!(err.actual, 1);

    let err = Multiply::try_new(vec![
        Expression::new(Element::Number(1)),
        Expression::new(Element::Number(2)),
        Expression::new(Element::Number(3)),
    ])
    .unwrap_err();
    assert_eq!(err.expected, 2);
    assert_eq!(err.actual, 3);
}

#[test]
fn arity_validation_accepts_two_of_any_kind() {
    assert!(Multiply::try_new(vec![
        Expression::new(Element::Variable("a".to_string())),
        Expression::new(Element::Variable("b".to_string())),
    ])
    .is_ok());
    assert!(Multiply::try_new(vec![
        Expression::new(Element::Number(0)),
        Expression::new(Element::Variable("b".to_string())),
    ])
    .is_ok());
}

#[test]
fn nested_full_fold() {
    let mut operator = Multiply::try_new(vec![
        Expression::new(Element::Number(2)),
        nested_multiply(
            Expression::new(Element::Number(3)),
            Expression::new(Element::Number(4)),
        ),
    ])
    .unwrap();
    assert_eq!(operator.reduce(), ReductionResult::ReducedToNumber(24));
}

#[test]
fn partial_fold_rewrites_in_place() {
    let mut operator = Multiply::try_new(vec![
        Expression::new(Element::Variable("x".to_string())),
        nested_multiply(
            Expression::new(Element::Number(3)),
            Expression::new(Element::Number(4)),
        ),
    ])
    .unwrap();
    assert_eq!(operator.reduce(), ReductionResult::StayedInPlace);
    assert_eq!(operator.to_string(), "Multiply{Variable{x},Number{12}}");
}

#[test]
fn stuck_render_unchanged() {
    let mut operator = Multiply::try_new(vec![
        Expression::new(Element::Variable("x".to_string())),
        Expression::new(Element::Number(3)),
    ])
    .unwrap();
    assert_eq!(operator.reduce(), ReductionResult::StayedInPlace);
    assert_eq!(operator.to_string(), "Multiply{Variable{x},Number{3}}");
}

#[test]
fn reduce_is_idempotent_on_stuck_operators() {
    let mut operator = Multiply::try_new(vec![
        Expression::new(Element::Variable("x".to_string())),
        nested_multiply(
            Expression::new(Element::Number(3)),
            Expression::new(Element::Number(4)),
        ),
    ])
    .unwrap();
    assert_eq!(operator.reduce(), ReductionResult::StayedInPlace);
    let after_first = operator.to_string();
    assert_eq!(operator.reduce(), ReductionResult::StayedInPlace);
    assert_eq!(operator.to_string(), after_first);
}

#[test]
fn helper_combines_when_all_numeric() {
    let mut args = vec![
        Expression::new(Element::Number(5)),
        Expression::new(Element::Number(7)),
    ];
    let outcome = reduce_ops_then_run_if_numeric(&mut args, |vals: Vec<i64>| vals[0] * vals[1]);
    assert_eq!(outcome, ReductionResult::ReducedToNumber(35));
}

#[test]
fn helper_folds_in_place_when_stuck() {
    let mut args = vec![
        Expression::new(Element::Variable("x".to_string())),
        nested_multiply(
            Expression::new(Element::Number(2)),
            Expression::new(Element::Number(5)),
        ),
    ];
    let outcome = reduce_ops_then_run_if_numeric(&mut args, |vals: Vec<i64>| vals[0] * vals[1]);
    assert_eq!(outcome, ReductionResult::StayedInPlace);
    assert_eq!(args[0].to_string(), "Variable{x}");
    assert_eq!(args[1].to_string(), "Number{10}");
}
