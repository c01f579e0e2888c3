use rslogo::arithmetic::{checked_difference, checked_product, checked_quotient, checked_sum};
use rslogo::ast::{
    BinaryExpression, BinaryOperation, CallExpression, Callee, ProcedureDeclaration, Statement,
};
use rslogo::commands::control::{
    BackCommand, ForwardCommand, LeftCommand, PenDownCommand, PenUpCommand, RightCommand,
    SetHeadingCommand, SetPenColorCommand, SetXCommand, SetYCommand, TurnCommand,
};
use rslogo::commands::queries::{ColorCommand, HeadingCommand, XCorCommand, YCorCommand};
use rslogo::commands::variables::{AddAssignCommand, MakeCommand};
use rslogo::commands::{
    Assignable, AssignableFactory, Callable, CallableFactory, Literal, Outcome, Procedure, Value,
};
use rslogo::error::LogoError;
use rslogo::evaluator::Evaluator;
use rslogo::heap::Heap;
use rslogo::number::{is_float, parse_int};
use rslogo::semantics::{Action, Calculated, Reply};
use rslogo::table::Table;
use rslogo::text::chars_of;
use rslogo::tokens::{
    AssignmentType, CalculationOperation, CommandType, IdentifierType, LogicalOperation,
    QueryType, ValueType,
};
use rslogo::turtle::{Stroke, Turtle};

fn steps(evaluator: &mut Evaluator) -> Result<(), LogoError> {
    let mut reply = Reply::Nothing;
    for _ in 0..10_000 {
        reply = match evaluator.step(reply)? {
            Action::Done => return Ok(()),
            Action::Continue => Reply::Nothing,
            Action::IntToFloat(number) => Reply::Float((number as f32).to_bits()),
            Action::Line(stroke) => Reply::Position(stroke.x, stroke.distance),
            other => panic!("{:?}", other),
        };
    }
    panic!("no end");
}

fn number(value: i32) -> Value {
    Value::Literal(ValueType::Int(value))
}

fn call(callee: Callee, arguments: Vec<Value>) -> Statement {
    Statement::CallExpression(CallExpression::new(callee, arguments))
}

#[test]
fn table_binds_each_name_once() {
    let mut table: Table<i32> = Table::new();
    let (a, b) = ("a".to_string(), "b".to_string());
    assert_eq!(table.get(&a), None);
    table.insert(a.clone(), 1);
    table.insert(b.clone(), 2);
    table.insert(a.clone(), 3);
    assert_eq!(table.get(&a), Some(3));
    assert_eq!(table.get(&b), Some(2));
    assert_eq!(table.remove(&a), Some(3));
    assert_eq!(table.remove(&a), None);
    assert_eq!(table.get(&a), None);
    assert_eq!(table.get(&b), Some(2));
    let mut other: Table<i32> = Table::new();
    other.insert(b.clone(), 7);
    other.insert("c".to_string(), 8);
    table.insert(a.clone(), 9);
    table.pour_into(&mut other);
    assert_eq!(other.get(&a), Some(9));
    assert_eq!(other.get(&b), Some(2));
    assert_eq!(other.get(&"c".to_string()), Some(8));
}

#[test]
fn integer_arithmetic_stays_in_range() {
    assert_eq!(checked_sum(2147483647, 0), Some(2147483647));
    assert_eq!(checked_sum(2147483647, 1), None);
    assert_eq!(checked_sum(-2147483648, -1), None);
    assert_eq!(checked_difference(-2147483648, 1), None);
    assert_eq!(checked_difference(-2147483647, 1), Some(-2147483648));
    assert_eq!(checked_product(65536, 32768), None);
    assert_eq!(checked_product(-65536, 32768), Some(-2147483648));
    assert_eq!(checked_product(46341, 46341), None);
    assert_eq!(checked_product(46340, 46340), Some(2147395600));
    assert_eq!(checked_quotient(7, 2), Some(3));
    assert_eq!(checked_quotient(-7, 2), Some(-3));
    assert_eq!(checked_quotient(7, -2), Some(-3));
    assert_eq!(checked_quotient(-7, -2), Some(3));
    assert_eq!(checked_quotient(0, -2), Some(0));
    assert_eq!(checked_quotient(7, 0), None);
    assert_eq!(checked_quotient(-2147483648, -1), None);
    assert_eq!(checked_quotient(-2147483648, 1), Some(-2147483648));
    for (a, b) in [(7, 2), (-7, 2), (7, -2), (-7, -2), (1, 3), (-1, 3)] {
        assert_eq!(checked_quotient(a, b), Some(a / b));
    }
}

#[test]
fn integers_and_decimals_in_text() {
    let chars = |text: &str| chars_of(text);
    assert_eq!(chars("añb"), vec!['a', 'ñ', 'b']);
    assert_eq!(parse_int(&chars("12")), Some(12));
    assert_eq!(parse_int(&chars("-12")), Some(-12));
    assert_eq!(parse_int(&chars("+12")), Some(12));
    assert_eq!(parse_int(&chars("")), None);
    assert_eq!(parse_int(&chars("+")), None);
    assert_eq!(parse_int(&chars("1.0")), None);
    assert_eq!(parse_int(&chars("2147483648")), None);
    assert_eq!(parse_int(&chars("0000000000000000000000000000000000000012")), Some(12));
    assert_eq!(parse_int(&chars("99999999999999999999999999999999999999")), None);
    assert_eq!(parse_int(&chars("-99999999999999999999999999999999999999")), None);
    for text in ["12", "1.0", ".5", "5.", "1e9", "-inf", "NAN", "+Infinity", "1E+0"] {
        assert!(is_float(&chars(text)), "{}", text);
        assert!(text.parse::<f32>().is_ok(), "{}", text);
    }
    for text in ["", "+", ".", "e", "1e", "1e-", "in", "infinityy", "1..", "١"] {
        assert!(!is_float(&chars(text)), "{}", text);
        assert!(text.parse::<f32>().is_err(), "{}", text);
    }
}

#[test]
fn operators_on_two_values() {
    let plus = BinaryOperation::Calculation(CalculationOperation::Plus);
    let less = BinaryOperation::Logic(LogicalOperation::Lt);
    let equal = BinaryOperation::Logic(LogicalOperation::Eq);
    let and = BinaryOperation::Logic(LogicalOperation::And);
    assert_eq!(
        BinaryExpression::calculate(plus, Literal::Int(1), Literal::Int(2)),
        Ok(Calculated::Value(Literal::Int(3)))
    );
    assert_eq!(
        BinaryExpression::calculate(plus, Literal::Int(1), Literal::Float(2)),
        Ok(Calculated::WidenLeft(1))
    );
    assert_eq!(
        BinaryExpression::calculate(plus, Literal::Float(1), Literal::Int(2)),
        Ok(Calculated::WidenRight(2))
    );
    assert_eq!(
        BinaryExpression::calculate(plus, Literal::Float(1), Literal::Float(2)),
        Ok(Calculated::Arithmetic(CalculationOperation::Plus, 1, 2))
    );
    assert_eq!(
        BinaryExpression::calculate(less, Literal::Float(1), Literal::Float(2)),
        Ok(Calculated::Comparison(LogicalOperation::Lt, 1, 2))
    );
    assert_eq!(
        BinaryExpression::calculate(less, Literal::Int(1), Literal::Int(2)),
        Ok(Calculated::Value(Literal::Bool(true)))
    );
    assert_eq!(
        BinaryExpression::calculate(equal, Literal::Bool(false), Literal::Bool(false)),
        Ok(Calculated::Value(Literal::Bool(true)))
    );
    assert_eq!(
        BinaryExpression::calculate(less, Literal::Bool(false), Literal::Bool(true)),
        Err(LogoError::TypeError)
    );
    assert_eq!(
        BinaryExpression::calculate(and, Literal::Bool(true), Literal::Bool(false)),
        Ok(Calculated::Value(Literal::Bool(false)))
    );
    assert_eq!(
        BinaryExpression::calculate(and, Literal::Int(1), Literal::Int(1)),
        Err(LogoError::TypeError)
    );
    assert_eq!(
        BinaryExpression::calculate(equal, Literal::Bool(true), Literal::Float(1)),
        Err(LogoError::TypeError)
    );
    assert_eq!(
        Literal::Int(6).calculate(CalculationOperation::Star, Literal::Int(7)),
        Ok(Calculated::Value(Literal::Int(42)))
    );
    assert_eq!(
        Literal::Int(6).compare(LogicalOperation::Ne, Literal::Int(7)),
        Ok(Calculated::Value(Literal::Bool(true)))
    );
    assert_eq!(Literal::Bool(true).expect_bool(), Some(true));
    assert_eq!(Literal::Int(1).expect_bool(), None);
}

#[test]
fn turtle_by_itself() {
    let mut turtle = Turtle::new(1, 2);
    assert_eq!(
        (turtle.pen(), turtle.x(), turtle.y(), turtle.color(), turtle.direction()),
        (false, 1, 2, 7, 0)
    );
    turtle.pen_down();
    turtle.set_color(3);
    turtle.set_direction(350);
    assert_eq!(turtle.turn(20), Ok(()));
    assert_eq!(turtle.direction(), 370);
    assert_eq!(turtle.turn(i32::MAX), Err(LogoError::ArithmeticError));
    assert_eq!(turtle.direction(), 370);
    let line = Stroke {
        pen: true,
        x: 1,
        y: 2,
        direction: 370,
        distance: 9,
        color: 3,
    };
    assert_eq!(turtle.move_forward(9), Ok(line));
    assert_eq!(turtle.move_right(9), Ok(Stroke { direction: 460, ..line }));
    assert_eq!(turtle.move_back(9), Ok(Stroke { direction: 550, ..line }));
    assert_eq!(turtle.move_left(9), Ok(Stroke { direction: 640, ..line }));
    turtle.set_direction(i32::MAX - 100);
    assert_eq!(turtle.move_right(9).map(|stroke| stroke.direction), Ok(i32::MAX - 10));
    assert_eq!(turtle.move_back(9), Err(LogoError::ArithmeticError));
    turtle.set_color(16);
    assert_eq!(turtle.move_forward(9), Err(LogoError::SurfaceError));
    turtle.pen_up();
    turtle.arrive(5, 6);
    turtle.set_x(7);
    assert_eq!((turtle.pen(), turtle.x(), turtle.y()), (false, 7, 6));
    turtle.set_y(8);
    assert_eq!(turtle.y(), 8);
}

#[test]
fn commands_one_by_one() {
    let mut heap = Heap::new(Turtle::new(10, 20));
    (PenDownCommand {}).call(&mut heap);
    assert!(heap.turtle().pen());
    (PenUpCommand {}).call(&mut heap);
    assert!(!heap.turtle().pen());
    let line = Stroke {
        pen: false,
        x: 10,
        y: 20,
        direction: 0,
        distance: 5,
        color: 7,
    };
    assert_eq!(
        (ForwardCommand {}).call(Literal::Float(5), &mut heap),
        Ok(Outcome::Draw(line))
    );
    assert_eq!(
        (BackCommand {}).call(Literal::Float(5), &mut heap),
        Ok(Outcome::Draw(Stroke { direction: 180, ..line }))
    );
    assert_eq!(
        (LeftCommand {}).call(Literal::Float(5), &mut heap),
        Ok(Outcome::Draw(Stroke { direction: 270, ..line }))
    );
    assert_eq!(
        (RightCommand {}).call(Literal::Float(5), &mut heap),
        Ok(Outcome::Draw(Stroke { direction: 90, ..line }))
    );
    assert_eq!(
        (RightCommand {}).call(Literal::Int(5), &mut heap),
        Ok(Outcome::Widen(5))
    );
    assert_eq!(
        (RightCommand {}).call(Literal::Bool(true), &mut heap),
        Ok(Outcome::Finished)
    );
    assert_eq!(
        (SetXCommand {}).call(Literal::Float(11), &mut heap),
        Ok(Outcome::Finished)
    );
    assert_eq!(
        (SetYCommand {}).call(Literal::Int(12), &mut heap),
        Ok(Outcome::Widen(12))
    );
    assert_eq!((heap.turtle().x(), heap.turtle().y()), (11, 20));
    assert_eq!(
        (SetPenColorCommand {}).call(Literal::Int(4), &mut heap),
        Ok(Outcome::Finished)
    );
    assert_eq!(
        (SetPenColorCommand {}).call(Literal::Float(4), &mut heap),
        Ok(Outcome::Whole(4))
    );
    assert_eq!(
        (SetHeadingCommand {}).call(Literal::Bool(true), &mut heap),
        Err(LogoError::TypeError)
    );
    assert_eq!(
        (SetHeadingCommand {}).call(Literal::Int(40), &mut heap),
        Ok(Outcome::Finished)
    );
    assert_eq!(
        (TurnCommand {}).call(Literal::Int(5), &mut heap),
        Ok(Outcome::Finished)
    );
    assert_eq!(
        (TurnCommand {}).call(Literal::Int(i32::MAX), &mut heap),
        Err(LogoError::ArithmeticError)
    );
    assert_eq!((XCorCommand {}).call(&heap), Literal::Float(11));
    assert_eq!((YCorCommand {}).call(&heap), Literal::Float(20));
    assert_eq!((HeadingCommand {}).call(&heap), Literal::Int(45));
    assert_eq!((ColorCommand {}).call(&heap), Literal::Int(4));

    let name = "n".to_string();
    assert_eq!(
        (AddAssignCommand {}).declare(&name, &heap),
        Err(LogoError::UndefinedVariableError)
    );
    (MakeCommand {}).declare(&name, Literal::Int(1), &mut heap);
    assert_eq!((AddAssignCommand {}).declare(&name, &heap), Ok(Literal::Int(1)));
    assert_eq!(heap.variable_value(&name), Some(Literal::Int(1)));
    heap.mut_variables().insert(name.clone(), Literal::Bool(true));
    assert_eq!(heap.variable_value(&name), Some(Literal::Bool(true)));
    heap.mut_turtle().set_color(9);
    assert_eq!(heap.turtle().color(), 9);
}

#[test]
fn factories() {
    assert!(matches!(
        CallableFactory::build(&Callee::Command(CommandType::Turn)),
        Some(Callable::Turn(_))
    ));
    assert!(matches!(
        CallableFactory::build(&Callee::Query(QueryType::Color)),
        Some(Callable::Color(_))
    ));
    assert!(CallableFactory::build(&Callee::Procedure("TURN".to_string())).is_none());
    assert!(matches!(
        AssignableFactory::build(&AssignmentType::Make),
        Some(Assignable::Make(_))
    ));
    let heap = Heap::new(Turtle::new(0, 0));
    assert!(matches!(
        heap.get_assignable(&AssignmentType::Addassign),
        Assignable::AddAssign(_)
    ));
    assert!(matches!(
        heap.declare_variable(&AssignmentType::Make),
        Assignable::Make(_)
    ));
    assert!(matches!(
        heap.get_callable(&Callee::Procedure("BOX".to_string())),
        Err(LogoError::UndefinedCallableError)
    ));
    assert!(matches!(
        heap.get_callable(&Callee::Command(CommandType::Back)),
        Ok(Callable::Back(_))
    ));
}

#[test]
fn procedure_sets_aside_and_gives_back() {
    let formals = vec!["a".to_string(), "b".to_string(), "a".to_string()];
    let body = vec![];
    let procedure = Procedure::new(&formals, &body);
    let mut heap = Heap::new(Turtle::new(0, 0));
    let (a, b, c) = ("a".to_string(), "b".to_string(), "c".to_string());
    heap.mut_variables().insert(a.clone(), Literal::Int(1));
    heap.mut_variables().insert(c.clone(), Literal::Int(3));
    let aside = procedure.call(
        &vec![Literal::Int(10), Literal::Int(20), Literal::Int(30), Literal::Int(40)],
        &mut heap,
    );
    assert_eq!(aside.get(&a), Some(Literal::Int(1)));
    assert_eq!(aside.get(&b), None);
    assert_eq!(aside.get(&c), None);
    assert_eq!(heap.variable_value(&a), Some(Literal::Int(30)));
    assert_eq!(heap.variable_value(&b), Some(Literal::Int(20)));
    assert_eq!(heap.variable_value(&c), Some(Literal::Int(3)));
    heap.mut_variables().insert(c.clone(), Literal::Int(4));
    procedure.recovry_conflicted_variable(&mut heap, aside);
    assert_eq!(heap.variable_value(&a), Some(Literal::Int(1)));
    assert_eq!(heap.variable_value(&b), Some(Literal::Int(20)));
    assert_eq!(heap.variable_value(&c), Some(Literal::Int(4)));

    let aside = procedure.call(&vec![Literal::Int(5)], &mut heap);
    assert_eq!(aside.get(&b), Some(Literal::Int(20)));
    assert_eq!(heap.variable_value(&a), Some(Literal::Int(5)));
    assert_eq!(heap.variable_value(&b), None);
}

#[test]
fn command_where_a_value_is_needed_gives_none() {
    let inner = CallExpression::new(Callee::Command(CommandType::Penup), vec![]);
    let program = vec![call(
        Callee::Command(CommandType::Setheading),
        vec![Value::Statement(Box::new(inner))],
    )];
    let mut evaluator = Evaluator::new(&program, Turtle::new(0, 0));
    evaluator.heap.mut_turtle().pen_down();
    assert_eq!(steps(&mut evaluator), Err(LogoError::MissingResultError));
    assert!(!evaluator.heap().turtle().pen());

    let inner = CallExpression::new(Callee::Procedure("BOX".to_string()), vec![]);
    let program = vec![
        Statement::ProcedureDeclaration(ProcedureDeclaration::new(
            "BOX".to_string(),
            vec![],
            vec![],
        )),
        call(
            Callee::Command(CommandType::Setheading),
            vec![Value::Statement(Box::new(inner))],
        ),
    ];
    let mut evaluator = Evaluator::new(&program, Turtle::new(0, 0));
    assert_eq!(steps(&mut evaluator), Err(LogoError::MissingResultError));
}

#[test]
fn query_as_a_statement_changes_nothing() {
    let program = vec![call(Callee::Query(QueryType::Xcor), vec![])];
    let mut evaluator = Evaluator::new(&program, Turtle::new(3, 4));
    assert_eq!(steps(&mut evaluator), Ok(()));
    assert_eq!(*evaluator.heap().turtle(), Turtle::new(3, 4));
    assert!(evaluator.finished());
}

#[test]
fn command_without_its_argument_is_passed_over() {
    let program = vec![
        call(Callee::Command(CommandType::Forward), vec![]),
        call(Callee::Command(CommandType::Penup), vec![number(1)]),
        call(
            Callee::Command(CommandType::Setheading),
            vec![number(5), Value::Identifier(IdentifierType::Variable("none".to_string()))],
        ),
    ];
    let mut evaluator = Evaluator::new(&program, Turtle::new(3, 4));
    assert_eq!(steps(&mut evaluator), Ok(()));
    assert_eq!(evaluator.heap().turtle().direction(), 5);
}

#[test]
fn procedure_under_the_name_of_a_built_in_comes_first() {
    let program = vec![
        call(Callee::Command(CommandType::Forward), vec![number(3)]),
        Statement::ProcedureDeclaration(ProcedureDeclaration::new(
            "FORWARD".to_string(),
            vec!["far".to_string()],
            vec![call(
                Callee::Command(CommandType::Setheading),
                vec![Value::Identifier(IdentifierType::Variable("far".to_string()))],
            )],
        )),
        call(Callee::Command(CommandType::Forward), vec![number(77)]),
    ];
    let mut evaluator = Evaluator::new(&program, Turtle::new(1, 2));
    assert_eq!(steps(&mut evaluator), Ok(()));
    let turtle = evaluator.heap().turtle();
    assert_eq!(turtle.direction(), 77);
    assert_eq!((turtle.x(), turtle.y()), (1, (3 as f32).to_bits()));
}

#[test]
fn first_steps_of_a_run() {
    let program = vec![call(Callee::Command(CommandType::Forward), vec![number(3)])];
    let mut evaluator = Evaluator::new(&program, Turtle::new(1, 2));
    assert!(!evaluator.finished());
    assert_eq!(evaluator.step(Reply::Nothing), Ok(Action::Continue));
    assert_eq!(evaluator.step(Reply::Nothing), Ok(Action::Continue));
    assert_eq!(evaluator.step(Reply::Nothing), Ok(Action::IntToFloat(3)));
    assert_eq!(evaluator.step(Reply::Float(33)), Ok(Action::Continue));
    assert_eq!(
        evaluator.step(Reply::Nothing),
        Ok(Action::Line(Stroke {
            pen: false,
            x: 1,
            y: 2,
            direction: 0,
            distance: 33,
            color: 7
        }))
    );
    assert_eq!(evaluator.step(Reply::Position(8, 9)), Ok(Action::Continue));
    assert_eq!(evaluator.step(Reply::Nothing), Ok(Action::Continue));
    assert!(evaluator.finished());
    assert_eq!(evaluator.step(Reply::Nothing), Ok(Action::Done));
    assert_eq!(
        (evaluator.heap().turtle().x(), evaluator.heap().turtle().y()),
        (8, 9)
    );
}

#[test]
fn expression_takes_as_many_steps_as_its_tree_counts() {
    let program = rslogo::program::Program::parse_logo(
        &"MAKE \"a + * \"2 \"3 - \"4 \"1".to_string(),
    )
    .unwrap();
    let mut evaluator = program.run(Turtle::new(0, 0));
    assert_eq!(evaluator.step(Reply::Nothing), Ok(Action::Continue));
    for taken in 1..=10 {
        assert!(evaluator.values.is_empty() || taken > 2, "{}", taken);
        assert_eq!(evaluator.step(Reply::Nothing), Ok(Action::Continue));
    }
    assert_eq!(evaluator.values, vec![Literal::Int(9)]);
    assert_eq!(evaluator.tasks.len(), 2);
    assert_eq!(evaluator.step(Reply::Nothing), Ok(Action::Continue));
    assert_eq!(
        evaluator.heap().variable_value(&"a".to_string()),
        Some(Literal::Int(9))
    );
    assert!(evaluator.values.is_empty());
    assert_eq!(evaluator.step(Reply::Nothing), Ok(Action::Continue));
    assert_eq!(evaluator.step(Reply::Nothing), Ok(Action::Done));

    let program =
        rslogo::program::Program::parse_logo(&"MAKE \"a + * \"2 :b - \"4 \"1".to_string())
            .unwrap();
    let mut evaluator = program.run(Turtle::new(0, 0));
    for _ in 0..4 {
        assert_eq!(evaluator.step(Reply::Nothing), Ok(Action::Continue));
    }
    assert_eq!(
        evaluator.step(Reply::Nothing),
        Err(LogoError::UndefinedVariableError)
    );
    assert!(evaluator.finished());
}
