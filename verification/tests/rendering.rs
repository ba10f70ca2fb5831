use expr_engine::errors::NonreduceibleExpressionError;
use expr_engine::errors::WrongNumberOfArgumentsError;
use expr_engine::expression::Element;
use expr_engine::expression::Expression;
use expr_engine::multiply::Multiply;
use expr_engine::operator::Operator;

#[test]
fn render_number() {
    assert_eq!(Element::Number(6).to_string(), "Number{6}");
    assert_eq!(Element::Number(0).to_string(), "Number{0}");
    assert_eq!(Element::Number(1234567890).to_string(), "Number{1234567890}");
}

#[test]
fn render_negative_number() {
    assert_eq!(Element::Number(-7).to_string(), "Number{-7}");
    assert_eq!(
        Element::Number(i64::MIN).to_string(),
        "Number{-9223372036854775808}"
    );
    assert_eq!(
        Element::Number(i64::MAX).to_string(),
        "Number{9223372036854775807}"
    );
}

#[test]
fn render_variable() {
    assert_eq!(
        Element::Variable("velocity".to_string()).to_string(),
        "Variable{velocity}"
    );
    assert_eq!(Element::Variable(String::new()).to_string(), "Variable{}");
}

#[test]
fn render_expression_wraps_element() {
    let expression = Expression::new(Element::Number(42));
    assert_eq!(expression.to_string(), "Number{42}");
}

#[test]
fn render_nested_operator() {
    let inner = Multiply::try_new(vec![
        Expression::new(Element::Number(3)),
        Expression::new(Element::Variable("x".to_string())),
    ])
    .unwrap();
    let outer = Multiply::try_new(vec![
        Expression::new(Element::Number(2)),
        Expression::new(Element::Operator(
            expr_engine::expression::OperatorKind::Multiply(inner),
        )),
    ])
    .unwrap();
    assert_eq!(
        outer.to_string(),
        "Multiply{Number{2},Multiply{Number{3},Variable{x}}}"
    );
}

#[test]
fn wrong_arity_error_message() {
    let err = WrongNumberOfArgumentsError {
        expected: 2,
        actual: 5,
    };
    assert_eq!(
        err.message(),
        "Wrong number of arguments to operator: expected 2, got 5"
    );
}

#[test]
fn nonreduceible_error_message() {
    let err = NonreduceibleExpressionError;
    assert_eq!(
        err.message(),
        "Attempted to reduce a non-reduceible expression"
    );
}
