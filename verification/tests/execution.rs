use rslogo::commands::Literal;
use rslogo::error::LogoError;
use rslogo::evaluator::Evaluator;
use rslogo::program::Program;
use rslogo::semantics::{Action, Reply};
use rslogo::tokens::{CalculationOperation, LogicalOperation};
use rslogo::turtle::{Stroke, Turtle};
use unsvg::{Image, COLORS};

fn draw(image: &mut Image, stroke: &Stroke) -> Reply {
    let color = COLORS[stroke.color];
    let x = f32::from_bits(stroke.x);
    let y = f32::from_bits(stroke.y);
    let distance = f32::from_bits(stroke.distance);
    let end = if stroke.pen {
        image.draw_simple_line(x, y, stroke.direction, distance, color)
    } else {
        Image::new(10, 10).draw_simple_line(x, y, stroke.direction, distance, color)
    };
    match end {
        Ok((x, y)) => Reply::Position(x.to_bits(), y.to_bits()),
        Err(_) => Reply::Refused,
    }
}

fn answer(image: &mut Image, action: Action) -> Option<Reply> {
    Some(match action {
        Action::Done => return None,
        Action::Continue => Reply::Nothing,
        Action::ParseFloat(text) => Reply::Float(text.parse::<f32>().unwrap().to_bits()),
        Action::IntToFloat(number) => Reply::Float((number as f32).to_bits()),
        Action::FloatToInt(number) => Reply::Int(f32::from_bits(number) as i32),
        Action::Calculate(operation, a, b) => {
            let (a, b) = (f32::from_bits(a), f32::from_bits(b));
            Reply::Float(
                match operation {
                    CalculationOperation::Plus => a + b,
                    CalculationOperation::Dash => a - b,
                    CalculationOperation::Star => a * b,
                    CalculationOperation::Slash => a / b,
                }
                .to_bits(),
            )
        }
        Action::Compare(operation, a, b) => {
            let (a, b) = (f32::from_bits(a), f32::from_bits(b));
            Reply::Bool(match operation {
                LogicalOperation::Eq => a == b,
                LogicalOperation::Ne => a != b,
                LogicalOperation::Gt => a > b,
                LogicalOperation::Lt => a < b,
                LogicalOperation::And | LogicalOperation::Or => unreachable!(),
            })
        }
        Action::Line(stroke) => draw(image, &stroke),
    })
}

fn drive(evaluator: &mut Evaluator, image: &mut Image) -> Result<(), LogoError> {
    let mut reply = Reply::Nothing;
    loop {
        let action = evaluator.step(reply)?;
        match answer(image, action) {
            Some(next) => reply = next,
            None => return Ok(()),
        }
    }
}

fn start(image: &Image) -> Turtle {
    let (width, height) = image.get_dimensions();
    Turtle::new(
        (width as f32 / 2.0).to_bits(),
        (height as f32 / 2.0).to_bits(),
    )
}

fn init_program_code(code: &str) -> Program {
    Program::parse_logo(&code.to_string()).unwrap()
}

fn run_program(program: &Program) -> Evaluator<'_> {
    let mut image = Image::new(200, 200);
    let mut evaluator = program.run(start(&image));
    drive(&mut evaluator, &mut image).unwrap();
    evaluator
}

fn run_failing(code: &str) -> LogoError {
    let program = init_program_code(code);
    let mut image = Image::new(200, 200);
    let mut evaluator = program.run(start(&image));
    let error = drive(&mut evaluator, &mut image).unwrap_err();
    assert!(evaluator.finished());
    error
}

fn same_literal(found: Literal, expected: Literal) -> bool {
    match (found, expected) {
        (Literal::Float(f1), Literal::Float(f2)) => f32::from_bits(f1) == f32::from_bits(f2),
        (Literal::Int(i1), Literal::Int(i2)) => i1 == i2,
        (Literal::Float(f1), Literal::Int(i2)) => f32::from_bits(f1) == i2 as f32,
        (Literal::Int(i1), Literal::Float(f2)) => i1 as f32 == f32::from_bits(f2),
        (Literal::Bool(b1), Literal::Bool(b2)) => b1 == b2,
        _ => panic!("Unsupported comparison operation"),
    }
}

fn float(number: f32) -> Literal {
    Literal::Float(number.to_bits())
}

fn compare_turtle_position(evaluator: &Evaluator, expected: (f32, f32), abs: bool) {
    let turtle = evaluator.heap().turtle();
    if abs {
        assert_eq!(f32::from_bits(turtle.x()), expected.0);
        assert_eq!(f32::from_bits(turtle.y()), expected.1);
    } else {
        assert_eq!(f32::from_bits(turtle.x()), expected.1 + 100.0);
        assert_eq!(f32::from_bits(turtle.y()), expected.0 * -1.0 + 100.0);
    }
}
fn compare_turtle_direction(evaluator: &Evaluator, expected: i32) {
    let turtle = evaluator.heap().turtle();
    assert_eq!(turtle.direction(), expected);
}
fn compare_turtle_color(evaluator: &Evaluator, expected: i32) {
    let turtle = evaluator.heap().turtle();
    assert_eq!(turtle.color(), expected);
}
fn compare_turtle_pen(evaluator: &Evaluator, expected: bool) {
    let turtle = evaluator.heap().turtle();
    assert_eq!(turtle.pen(), expected);
}
fn compare_vairable_value(evaluator: &Evaluator, variable_name: &str, expected: Literal) {
    let heap = evaluator.heap();
    let variable = heap
        .variable_value(&variable_name.to_string())
        .expect("Variable is not found");
    assert!(
        same_literal(variable, expected),
        "{:?} is not {:?}",
        variable,
        expected
    );
}

#[test]
fn test_turtle_move() {
    let code = "
    PENDOWN
    FORWARD \"10
    BACK \"20
    LEFT \"10
    RIGHT \"20
    TURN \"90
    ";
    let program = init_program_code(code);
    let image = Image::new(200, 200);
    let before = program.run(start(&image));
    compare_turtle_pen(&before, false);
    compare_turtle_position(&before, (0.0, 0.0), false);
    let program = run_program(&program);
    compare_turtle_position(&program, (-10.0, 10.0), false);
    compare_turtle_direction(&program, 90);
    compare_turtle_pen(&program, true);
}

#[test]
fn test_turtle_set() {
    let code = "
    PENDOWN
    FORWARD \"10
    BACK \"20
    LEFT \"10
    RIGHT \"20
    TURN \"90
    SETPENCOLOR \"2
    SETHEADING \"10
    SETX \"90
    SETY \"90
    ";
    let program = init_program_code(code);
    let program = run_program(&program);
    compare_turtle_direction(&program, 10);
    compare_turtle_color(&program, 2);
    compare_turtle_position(&program, (90.0, 90.0), true);
}

#[test]
fn test_variables() {
    let code = "
    MAKE \"variable \"10
    ADDASSIGN \"variable \"10
    FORWARD :variable
    ";
    let program = init_program_code(code);
    let program = run_program(&program);
    compare_vairable_value(&program, "variable", Literal::Int(20));
}

#[test]
fn test_query() {
    let code = "
    SETX \"100
    SETY \"100
    SETHEADING \"100
    SETPENCOLOR \"0
    MAKE \"x XCOR
    MAKE \"y YCOR
    MAKE \"heading HEADING
    MAKE \"color COLOR
    ";
    let program = init_program_code(code);
    let program = run_program(&program);
    compare_vairable_value(&program, "x", float(100.0));
    compare_vairable_value(&program, "y", float(100.0));
    compare_vairable_value(&program, "color", Literal::Int(0));
    compare_vairable_value(&program, "heading", Literal::Int(100));
}

#[test]
fn test_query_variable_move() {
    let code = "
    SETX \"0
    MAKE \"color XCOR
    SETY \"0
    FORWARD YCOR
    SETPENCOLOR :color
    FORWARD YCOR
    ";
    let program = init_program_code(code);
    let program = run_program(&program);
    compare_vairable_value(&program, "color", float(0.0));
    compare_turtle_position(&program, (0.0, 0.0), true);
    compare_turtle_color(&program, 0);
}
#[test]
fn test_if_while() {
    let code = "
    MAKE \"i \"0
    WHILE LT :i \"10 [
        FORWARD \"10
        IF EQ :i \"5 [
            LEFT \"10
        ]
        ADDASSIGN \"i \"1
    ]
    ";
    let program = init_program_code(code);
    let program = run_program(&program);
    compare_turtle_position(&program, (90.0, 0.0), true);
}
#[test]
fn test_math() {
    let code = "
    MAKE \"eq EQ \"10 \"10 
    MAKE \"ne NE \"10 \"10 
    MAKE \"gt GT \"10 \"10 
    MAKE \"lt LT \"10 \"10 
    MAKE \"and AND \"TRUE \"TRUE 
    MAKE \"or OR \"TRUE \"TRUE 
    MAKE \"or_2 OR \"TRUE \"FALSE 
    MAKE \"plus + \"10 \"10 
    MAKE \"sub - \"10 \"10 
    MAKE \"mul * \"10 \"10 
    MAKE \"div / \"10 \"10 
    MAKE \"long1 EQ EQ \"10 \"10 EQ \"10 \"10
    MAKE \"long2 + + \"10 \"10 + \"10 \"10
    MAKE \"long3 + + \"10 :mul + \"10 XCOR

    ";
    let program = init_program_code(code);
    let program = run_program(&program);
    compare_vairable_value(&program, "eq", Literal::Bool(true));
    compare_vairable_value(&program, "ne", Literal::Bool(false));
    compare_vairable_value(&program, "gt", Literal::Bool(false));
    compare_vairable_value(&program, "lt", Literal::Bool(false));
    compare_vairable_value(&program, "and", Literal::Bool(true));
    compare_vairable_value(&program, "or", Literal::Bool(true));
    compare_vairable_value(&program, "or_2", Literal::Bool(true));
    compare_vairable_value(&program, "plus", Literal::Int(20));
    compare_vairable_value(&program, "sub", Literal::Int(0));
    compare_vairable_value(&program, "mul", Literal::Int(100));
    compare_vairable_value(&program, "div", Literal::Int(1));
    compare_vairable_value(&program, "long1", Literal::Bool(true));
    compare_vairable_value(&program, "long2", Literal::Int(40));
    compare_vairable_value(&program, "long3", Literal::Int(220));
}

#[test]
fn test_procedure() {
    let code = "
    MAKE \"Arg \"90
    TO BOX 
        FORWARD \"10
        FORWARD \"10
    END

    TO BOXX \"Arg
        FORWARD :Arg
        FORWARD :Arg
    END

    BOX 
    BOXX \"50


    ";
    let program = init_program_code(code);
    let program = run_program(&program);
    compare_turtle_position(&program, (100.0, -20.0), true);
    compare_vairable_value(&program, "Arg", Literal::Int(90));
}

#[test]
fn mixed_sum_is_a_float() {
    let program = init_program_code("MAKE \"a + \"1 \"2.5\nMAKE \"b + \"2.5 \"1\nMAKE \"c * \"3 \"0.5\n");
    let run = run_program(&program);
    let heap = run.heap();
    assert_eq!(heap.variable_value(&"a".to_string()), Some(float(3.5)));
    assert_eq!(heap.variable_value(&"b".to_string()), Some(float(3.5)));
    assert_eq!(heap.variable_value(&"c".to_string()), Some(float(1.5)));
}

#[test]
fn integer_sum_is_an_integer() {
    let program = init_program_code("MAKE \"a + \"7 \"-9\nMAKE \"b / \"-7 \"2\nMAKE \"c - \"1 \"2\n");
    let run = run_program(&program);
    let heap = run.heap();
    assert_eq!(heap.variable_value(&"a".to_string()), Some(Literal::Int(-2)));
    assert_eq!(heap.variable_value(&"b".to_string()), Some(Literal::Int(-3)));
    assert_eq!(heap.variable_value(&"c".to_string()), Some(Literal::Int(-1)));
}

#[test]
fn comparison_widens_the_integer() {
    let program = init_program_code(
        "MAKE \"a LT \"1.5 \"2\nMAKE \"b GT \"2 \"1.5\nMAKE \"c EQ \"2.0 \"2\nMAKE \"d NE \"2 \"2.5\n",
    );
    let run = run_program(&program);
    let heap = run.heap();
    for name in ["a", "b", "c", "d"] {
        assert_eq!(
            heap.variable_value(&name.to_string()),
            Some(Literal::Bool(true))
        );
    }
}

#[test]
fn truth_value_beside_a_number_is_a_type_error() {
    assert_eq!(run_failing("MAKE \"a EQ \"TRUE \"1\n"), LogoError::TypeError);
    assert_eq!(run_failing("MAKE \"a + \"1 \"FALSE\n"), LogoError::TypeError);
    assert_eq!(run_failing("MAKE \"a LT \"1.5 \"TRUE\n"), LogoError::TypeError);
    assert_eq!(run_failing("MAKE \"a AND \"1 \"TRUE\n"), LogoError::TypeError);
    assert_eq!(run_failing("MAKE \"a GT \"TRUE \"FALSE\n"), LogoError::TypeError);
}

#[test]
fn test_that_is_no_truth_value_is_a_type_error() {
    assert_eq!(run_failing("IF \"1 [\nPENUP\n]\n"), LogoError::TypeError);
    assert_eq!(run_failing("WHILE + \"1 \"1 [\nPENUP\n]\n"), LogoError::TypeError);
}

#[test]
fn reading_an_unset_variable_fails() {
    assert_eq!(run_failing("FORWARD :nothing\n"), LogoError::UndefinedVariableError);
    assert_eq!(
        run_failing("ADDASSIGN \"nothing \"1\n"),
        LogoError::UndefinedVariableError
    );
}

#[test]
fn calling_an_undeclared_procedure_fails() {
    assert_eq!(run_failing("BOX \"1\n"), LogoError::UndefinedCallableError);
}

#[test]
fn procedure_name_in_an_expression_fails_when_read() {
    assert_eq!(run_failing("MAKE \"a BOX\n"), LogoError::SyntaxError);
    let program = init_program_code("IF \"FALSE [\nMAKE \"a BOX\n]\n");
    run_program(&program);
}

#[test]
fn integer_overflow_and_division_by_zero_fail() {
    assert_eq!(
        run_failing("MAKE \"a + \"2147483647 \"1\n"),
        LogoError::ArithmeticError
    );
    assert_eq!(run_failing("MAKE \"a / \"1 \"0\n"), LogoError::ArithmeticError);
    assert_eq!(
        run_failing("MAKE \"a / \"-2147483648 \"-1\n"),
        LogoError::ArithmeticError
    );
    assert_eq!(
        run_failing("SETHEADING \"2147483647\nTURN \"1\n"),
        LogoError::ArithmeticError
    );
}

#[test]
fn colour_off_the_palette_fails_on_the_next_move() {
    let program = init_program_code("SETPENCOLOR \"15\nFORWARD \"1\n");
    run_program(&program);
    assert_eq!(
        run_failing("SETPENCOLOR \"16\nFORWARD \"1\n"),
        LogoError::SurfaceError
    );
    assert_eq!(
        run_failing("SETPENCOLOR \"-1\nFORWARD \"1\n"),
        LogoError::SurfaceError
    );
    let program = init_program_code("SETPENCOLOR \"16\n");
    let run = run_program(&program);
    compare_turtle_color(&run, 16);
}

#[test]
fn whole_float_counts_as_an_integer() {
    let program = init_program_code("TURN \"90.0\nSETPENCOLOR \"3.0\n");
    let run = run_program(&program);
    compare_turtle_direction(&run, 90);
    compare_turtle_color(&run, 3);
    assert_eq!(run_failing("TURN \"90.5\n"), LogoError::TypeError);
    assert_eq!(run_failing("SETHEADING \"nan\n"), LogoError::TypeError);
    assert_eq!(run_failing("SETPENCOLOR \"TRUE\n"), LogoError::TypeError);
}

#[test]
fn truth_value_as_a_distance_is_passed_over() {
    let program = init_program_code("FORWARD \"TRUE\nSETX \"FALSE\n");
    let run = run_program(&program);
    compare_turtle_position(&run, (100.0, 100.0), true);
}

#[test]
fn call_restores_the_global_of_the_same_name() {
    let code = "
    MAKE \"Arg \"90
    MAKE \"seen \"0
    TO BOXX \"Arg
        MAKE \"seen :Arg
        MAKE \"Arg \"7
        FORWARD :Arg
    END
    BOXX \"50
    ";
    let program = init_program_code(code);
    let run = run_program(&program);
    compare_vairable_value(&run, "Arg", Literal::Int(90));
    compare_vairable_value(&run, "seen", Literal::Int(50));
    compare_turtle_position(&run, (100.0, 93.0), true);
}

#[test]
fn parameter_without_a_global_stays_bound() {
    let code = "
    TO BOXX \"Arg \"Other
        FORWARD :Arg
    END
    BOXX \"50 \"60 \"70
    ";
    let program = init_program_code(code);
    let run = run_program(&program);
    compare_vairable_value(&run, "Arg", Literal::Int(50));
    compare_vairable_value(&run, "Other", Literal::Int(60));
}

#[test]
fn parameter_without_an_argument_is_unbound() {
    let code = "
    MAKE \"Other \"1
    TO BOXX \"Arg \"Other
        FORWARD :Other
    END
    BOXX \"50
    ";
    assert_eq!(run_failing(code), LogoError::UndefinedVariableError);
}

#[test]
fn later_declaration_replaces_the_earlier() {
    let code = "
    TO BOX
        SETX \"1
    END
    TO BOX
        SETX \"2
    END
    BOX
    ";
    let program = init_program_code(code);
    let run = run_program(&program);
    compare_turtle_position(&run, (2.0, 100.0), true);
}

#[test]
fn procedure_can_call_itself() {
    let code = "
    MAKE \"n \"0
    TO COUNT \"limit
        IF LT :n :limit [
            ADDASSIGN \"n \"1
            COUNT :limit
        ]
    END
    COUNT \"25
    ";
    let program = init_program_code(code);
    let run = run_program(&program);
    compare_vairable_value(&run, "n", Literal::Int(25));
}

#[test]
fn nested_equalities_evaluate_to_true() {
    let program = init_program_code("MAKE \"long EQ EQ \"10 \"10 EQ \"10 \"10\n");
    let run = run_program(&program);
    assert_eq!(
        run.heap().variable_value(&"long".to_string()),
        Some(Literal::Bool(true))
    );
}

#[test]
fn loop_tests_again_after_every_round() {
    let code = "
    MAKE \"i \"0
    WHILE LT :i \"10 [
        FORWARD \"10
        ADDASSIGN \"i \"1
    ]
    ";
    let program = init_program_code(code);
    let run = run_program(&program);
    compare_vairable_value(&run, "i", Literal::Int(10));
    compare_turtle_position(&run, (100.0, 0.0), true);
}

#[test]
fn loop_on_one_line() {
    let program =
        init_program_code("MAKE \"i \"0  WHILE LT :i \"10 [ FORWARD \"10  ADDASSIGN \"i \"1 ]");
    assert_eq!(program.statements().len(), 1);
    let code = "MAKE \"i \"0\nWHILE LT :i \"10 [ FORWARD \"10\nADDASSIGN \"i \"1 ]";
    let program = init_program_code(code);
    let run = run_program(&program);
    compare_vairable_value(&run, "i", Literal::Int(10));
    compare_turtle_position(&run, (100.0, 0.0), true);
}

#[test]
fn moves_follow_the_heading_whatever_the_pen() {
    let code = "
    PENDOWN
    FORWARD \"10
    BACK \"20
    LEFT \"10
    RIGHT \"20
    TURN \"90
    ";
    let program = init_program_code(code);
    let down = run_program(&program);
    compare_turtle_direction(&down, 90);
    compare_turtle_pen(&down, true);
    compare_turtle_position(&down, (110.0, 110.0), true);
    let program = init_program_code(&code.replace("PENDOWN", "PENUP"));
    let up = run_program(&program);
    compare_turtle_pen(&up, false);
    compare_turtle_position(&up, (110.0, 110.0), true);
}

#[test]
fn answer_that_was_not_asked_for_ends_the_run() {
    let program = init_program_code("MAKE \"a \"1\n");
    let image = Image::new(200, 200);
    let mut evaluator = program.run(start(&image));
    assert_eq!(evaluator.step(Reply::Int(1)), Err(LogoError::ReplyError));
    assert!(evaluator.finished());
    assert_eq!(evaluator.step(Reply::Nothing), Ok(Action::Done));

    let program = init_program_code("MAKE \"a \"1.5\n");
    let mut evaluator = program.run(start(&image));
    assert_eq!(evaluator.step(Reply::Nothing), Ok(Action::Continue));
    assert_eq!(
        evaluator.step(Reply::Nothing),
        Ok(Action::ParseFloat("1.5".to_string()))
    );
    assert_eq!(evaluator.step(Reply::Bool(true)), Err(LogoError::ReplyError));
}

#[test]
fn refused_line_ends_the_run() {
    let program = init_program_code("FORWARD \"1.5\n");
    let image = Image::new(200, 200);
    let mut evaluator = program.run(start(&image));
    let mut reply = Reply::Nothing;
    loop {
        match evaluator.step(reply).unwrap() {
            Action::Line(stroke) => {
                assert_eq!(stroke.direction, 0);
                assert_eq!(stroke.color, 7);
                assert!(!stroke.pen);
                break;
            }
            Action::ParseFloat(text) => {
                reply = Reply::Float(text.parse::<f32>().unwrap().to_bits())
            }
            _ => reply = Reply::Nothing,
        }
    }
    assert_eq!(evaluator.step(Reply::Refused), Err(LogoError::SurfaceError));
}

#[test]
fn failure_inside_a_call_restores_the_globals() {
    let code = "
    MAKE \"Arg \"90
    MAKE \"Other \"1
    TO INNER \"Arg \"Other
        FORWARD :nothing
    END
    TO OUTER \"Arg
        MAKE \"Other \"2
        INNER \"3 \"4
    END
    OUTER \"50
    ";
    let program = init_program_code(code);
    let mut image = Image::new(200, 200);
    let mut evaluator = program.run(start(&image));
    assert_eq!(
        drive(&mut evaluator, &mut image),
        Err(LogoError::UndefinedVariableError)
    );
    compare_vairable_value(&evaluator, "Arg", Literal::Int(90));
    compare_vairable_value(&evaluator, "Other", Literal::Int(2));
    assert!(evaluator.finished());
}
