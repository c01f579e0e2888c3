use rslogo::ast::{
    BinaryExpression, CallExpression, Callee, IfStatement, ProcedureDeclaration, Statement,
    WhileStatement,
};
use rslogo::commands::Value;
use rslogo::error::LogoError;
use rslogo::lexer::Tokenizer;
use rslogo::parsers::binary::BinaryParser;
use rslogo::parsers::controls::ControlsParser;
use rslogo::parsers::ifwhile::{IfStatementParser, WhileStatementParser};
use rslogo::parsers::procedures::ProcedureParser;
use rslogo::parsers::queries::QueriesParser;
use rslogo::parsers::variable::VariableAssignParser;
use rslogo::parsers::{ParserFactory, SelectedParser};
use rslogo::program::Program;
use rslogo::segmenter::ASTParser;
use rslogo::tokens::{
    CalculationOperation, CommandType, IdentifierType, LogicalOperation, QueryType, TokenType,
    ValueType,
};
use rslogo::transpiler::{Piece, Python, Translater};

fn tokens_of(code: &str) -> Vec<TokenType> {
    let text = code.to_string();
    let mut tokenizer = Tokenizer::new(&text);
    tokenizer.scan();
    tokenizer.move_token()
}

fn parse(code: &str) -> Result<Vec<Statement>, LogoError> {
    Program::parse_logo(&code.to_string()).map(|program| program.statements)
}

fn fails(code: &str) {
    assert_eq!(parse(code), Err(LogoError::SyntaxError), "{}", code);
}

fn whole(number: i32) -> Value {
    Value::Literal(ValueType::Int(number))
}

fn forward(argument: Value) -> Statement {
    Statement::CallExpression(CallExpression::new(
        Callee::Command(CommandType::Forward),
        vec![argument],
    ))
}

#[test]
fn wrong_number_of_arguments_is_a_syntax_error() {
    fails("PENUP \"1");
    fails("FORWARD");
    fails("PENDOWN XCOR");
    fails("FORWARD \"1 \"2");
    fails("TURN");
    for word in [
        "FORWARD", "BACK", "LEFT", "RIGHT", "SETPENCOLOR", "TURN", "SETHEADING", "SETX", "SETY",
    ] {
        fails(word);
        fails(&format!("{} \"1 \"2", word));
        assert!(parse(&format!("{} \"1", word)).is_ok());
        assert!(parse(&format!("{} + \"1 * \"2 XCOR", word)).is_ok());
    }
}

#[test]
fn statement_cannot_start_with_any_token() {
    fails("\"1");
    fails(":x");
    fails("XCOR");
    fails("+ \"1 \"2");
    fails("EQ \"1 \"2");
    fails("[");
    fails("]");
    fails("END");
    fails("\"name \"1");
}

#[test]
fn malformed_assignment_is_a_syntax_error() {
    fails("MAKE");
    fails("MAKE \"x");
    fails("MAKE \"1 \"2");
    fails("MAKE x \"2");
    fails("MAKE \"x +");
    fails("MAKE \"x + \"1");
    fails("ADDASSIGN \"x FORWARD");
}

#[test]
fn assignment_reads_one_expression_and_no_more() {
    let parsed = parse("MAKE \"x \"1 \"2 FORWARD").unwrap();
    assert_eq!(parsed.len(), 1);
    assert_eq!(parsed, parse("MAKE \"x \"1").unwrap());
}

#[test]
fn unbalanced_brackets_are_a_syntax_error() {
    fails("IF \"TRUE");
    fails("IF \"TRUE [");
    fails("IF \"TRUE [\nPENUP\n");
    fails("WHILE \"TRUE [\nIF \"TRUE [\nPENUP\n]\n");
    fails("IF \"TRUE ]\nPENUP\n[");
    fails("IF [\nPENUP\n]");
    fails("WHILE \"TRUE [\nPENUP\n] ]");
}

#[test]
fn unmatched_to_and_end_are_syntax_errors() {
    fails("TO BOX\nPENUP\n");
    fails("END");
    fails("PENUP\nEND");
    fails("TO\nPENUP\nEND");
    fails("TO \"BOX\nPENUP\nEND");
    fails("TO BOX PENUP END");
    fails("TO BOX END");
    fails("TO BOX x\nPENUP\nEND");
    fails("TO BOX \"1\nPENUP\nEND");
    fails("TO A\nTO B\nPENUP\nEND\nEND");
    fails("BOX END");
}

#[test]
fn block_on_one_line() {
    let parsed = parse("IF \"TRUE [ FORWARD \"10 ]").unwrap();
    assert_eq!(
        parsed,
        vec![Statement::If(IfStatement::new(
            Value::Literal(ValueType::Bool(true)),
            vec![forward(whole(10))],
        ))]
    );
    assert_eq!(parsed, parse("IF \"TRUE [\n FORWARD \"10\n]\n").unwrap());
    assert_eq!(parsed, parse("IF \"TRUE [\n\n\n FORWARD \"10\n\n]").unwrap());
    let parsed = parse("WHILE \"FALSE [ ]").unwrap();
    assert_eq!(
        parsed,
        vec![Statement::While(WhileStatement::new(
            Value::Literal(ValueType::Bool(false)),
            vec![],
        ))]
    );
}

#[test]
fn statement_after_a_block_on_the_same_line() {
    let parsed = parse("IF \"TRUE [ FORWARD \"10 ] FORWARD \"20").unwrap();
    assert_eq!(parsed.len(), 2);
    assert_eq!(parsed[1], forward(whole(20)));
}

#[test]
fn declaration_reads_parameters_to_the_end_of_the_line() {
    let parsed = parse("TO BOX :a \"b\nFORWARD :a\nEND").unwrap();
    assert_eq!(
        parsed,
        vec![Statement::ProcedureDeclaration(ProcedureDeclaration::new(
            "BOX".to_string(),
            vec!["a".to_string(), "b".to_string()],
            vec![forward(Value::Identifier(IdentifierType::Variable(
                "a".to_string()
            )))],
        ))]
    );
    let parsed = parse("TO BOX\nEND").unwrap();
    assert_eq!(
        parsed,
        vec![Statement::ProcedureDeclaration(ProcedureDeclaration::new(
            "BOX".to_string(),
            vec![],
            vec![],
        ))]
    );
}

#[test]
fn call_takes_any_number_of_arguments() {
    let parsed = parse("BOX\nBOX \"1 + \"2 \"3 XCOR :x").unwrap();
    assert_eq!(parsed.len(), 2);
    let call = parsed[1].expect_callexpression().unwrap();
    assert_eq!(call.callee(), &Callee::Procedure("BOX".to_string()));
    assert_eq!(call.arguments().len(), 4);
    fails("BOX +");
    fails("BOX \"1 ]");
    fails("BOX FORWARD");
}

#[test]
fn decimal_literal_is_kept_as_written() {
    let parsed = parse("FORWARD \"1.50").unwrap();
    assert_eq!(parsed, vec![forward(Value::Real("1.50".to_string()))]);
}

#[test]
fn operators_take_exactly_two_operands_each() {
    let mut tokens = tokens_of("+ * \"1 \"2 - \"3 \"4 \"5");
    assert_eq!(tokens.pop(), Some(TokenType::Space));
    let (value, next) = Value::parse_one(&tokens, 0).unwrap();
    assert_eq!(next, 7);
    let product = Value::BinaryExpression(Box::new(BinaryExpression::new(
        TokenType::Calculation(CalculationOperation::Star),
        whole(1),
        whole(2),
    )));
    let difference = Value::BinaryExpression(Box::new(BinaryExpression::new(
        TokenType::Calculation(CalculationOperation::Dash),
        whole(3),
        whole(4),
    )));
    assert_eq!(
        value,
        Value::BinaryExpression(Box::new(BinaryExpression::new(
            TokenType::Calculation(CalculationOperation::Plus),
            product,
            difference,
        )))
    );
    assert_eq!(Value::parse_one(&tokens, 7), Ok((whole(5), 8)));
    assert_eq!(Value::parse_one(&tokens, 8), Err(LogoError::SyntaxError));
    assert_eq!(Value::parse_one(&tokens, 9), Err(LogoError::SyntaxError));
    assert_eq!(Value::parse_one(&tokens, 100), Err(LogoError::SyntaxError));
    assert_eq!(BinaryParser::parse(&tokens), Ok(value.clone()));
    assert_eq!(BinaryParser::parse(&tokens[..6]), Err(LogoError::SyntaxError));
    assert_eq!(Value::parse_all(&tokens, 0), Ok(vec![value, whole(5)]));
    assert_eq!(Value::parse_all(&tokens, 8), Ok(vec![]));
    assert_eq!(Value::parse_all(&tokens, 9), Ok(vec![]));
    assert_eq!(Value::parse_all(&tokens, 1).map(|all| all.len()), Ok(3));
    assert_eq!(Value::parse_all(&tokens[..4], 0), Err(LogoError::SyntaxError));
}

#[test]
fn operands_of_an_operator_token() {
    let tokens = tokens_of("\"1 \"2");
    let plus = TokenType::Calculation(CalculationOperation::Plus);
    let (sum, next) = BinaryParser::_parse(&plus, &tokens, 0).unwrap().unwrap();
    assert_eq!(next, 2);
    assert_eq!(sum, BinaryExpression::new(plus.clone(), whole(1), whole(2)));
    assert_eq!(
        BinaryParser::_parse(&TokenType::Space, &tokens, 0),
        Ok(None)
    );
    assert_eq!(
        BinaryParser::_parse(&plus, &tokens, 1),
        Err(LogoError::SyntaxError)
    );
}

#[test]
fn leaves_of_expressions() {
    assert_eq!(
        TokenType::Value(ValueType::Bool(true)).to_value(),
        Some(Value::Literal(ValueType::Bool(true)))
    );
    assert_eq!(
        TokenType::Real("1e3".to_string()).to_value(),
        Some(Value::Real("1e3".to_string()))
    );
    assert_eq!(
        TokenType::Query(QueryType::Heading).to_value(),
        Some(Value::Statement(Box::new(CallExpression::new(
            Callee::Query(QueryType::Heading),
            vec![]
        ))))
    );
    assert_eq!(
        TokenType::Identifier(IdentifierType::Procedure("BOX".to_string())).to_value(),
        Some(Value::Identifier(IdentifierType::Procedure(
            "BOX".to_string()
        )))
    );
    assert_eq!(TokenType::Space.to_value(), None);
    assert_eq!(TokenType::Logic(LogicalOperation::Eq).to_value(), None);
    assert_eq!(TokenType::Command(CommandType::Penup).to_value(), None);
}

#[test]
fn parsers_one_by_one() {
    let query = tokens_of("XCOR");
    assert_eq!(
        QueriesParser {}.parse(&query[..1]),
        Ok(Statement::CallExpression(CallExpression::new(
            Callee::Query(QueryType::Xcor),
            vec![]
        )))
    );
    assert_eq!(QueriesParser {}.parse(&query), Err(LogoError::SyntaxError));
    assert_eq!(QueriesParser {}.parse(&[]), Err(LogoError::SyntaxError));

    let command = tokens_of("FORWARD \"1");
    assert_eq!(ControlsParser {}.parse(&command[..2]), Ok(forward(whole(1))));
    assert_eq!(
        ControlsParser {}.parse(&command),
        Err(LogoError::SyntaxError)
    );
    assert_eq!(
        VariableAssignParser {}.parse(&command[..2]),
        Err(LogoError::SyntaxError)
    );
    assert_eq!(
        ProcedureParser {}.parse(&command[..2]),
        Err(LogoError::SyntaxError)
    );

    let block = tokens_of("IF \"TRUE [\nFORWARD \"1\n]");
    let group = &block[..block.len() - 1];
    let body = vec![forward(whole(1))];
    let test = Value::Literal(ValueType::Bool(true));
    assert_eq!(
        IfStatementParser {}.parse(group),
        Ok(Statement::If(IfStatement::new(test.clone(), body.clone())))
    );
    assert_eq!(
        WhileStatementParser {}.parse(group),
        Ok(Statement::While(WhileStatement::new(test, body)))
    );
    assert!(matches!(
        ParserFactory::create(group),
        Ok(SelectedParser::If(_))
    ));
    assert!(matches!(
        ParserFactory::create(&command),
        Ok(SelectedParser::Controls(_))
    ));
    assert!(matches!(
        ParserFactory::create(&query),
        Err(LogoError::SyntaxError)
    ));
    assert!(matches!(
        ParserFactory::create(&[]),
        Err(LogoError::SyntaxError)
    ));
    assert_eq!(
        ParserFactory::create(&command).unwrap().parse(&command[..2]),
        Ok(forward(whole(1)))
    );
}

#[test]
fn parser_takes_all_its_tokens() {
    let mut parser = ASTParser::new(&"FORWARD \"1\nFORWARD \"1".to_string());
    assert_eq!(
        parser.parse_statement(),
        Ok(vec![forward(whole(1)), forward(whole(1))])
    );
    assert_eq!(parser.parse_statement(), Ok(vec![]));
    let mut parser = ASTParser::new_from_tokens(tokens_of("FORWARD"));
    assert_eq!(parser.parse_statement(), Err(LogoError::SyntaxError));
    assert_eq!(parser.parse_statement(), Ok(vec![]));
    assert_eq!(
        ASTParser::parse_from_tokens(&tokens_of("\n\nFORWARD \"1\n\n")),
        Ok(vec![forward(whole(1))])
    );
}

#[test]
fn same_text_parses_to_the_same_statements() {
    let code = "
    TO BOX :a
        WHILE LT :a \"10 [
            ADDASSIGN \"a + \"1 \"0.5
            IF EQ XCOR YCOR [
                FORWARD * :a \"2
            ]
        ]
    END
    BOX \"3
    ";
    let first = parse(code).unwrap();
    let second = parse(code).unwrap();
    assert_eq!(first, second);
    assert_eq!(first.len(), 2);
    assert_eq!(parse("FORWARD"), parse("FORWARD"));
}

#[test]
fn copies_have_the_same_content() {
    let parsed = parse("FORWARD + \"1 * :a XCOR").unwrap();
    let call = parsed[0].expect_callexpression().unwrap();
    assert_eq!(Statement::CallExpression(call.clone()), parsed[0]);
    let argument = &call.arguments()[0];
    assert_eq!(&argument.clone(), argument);
    assert_eq!(&argument.duplicate(), argument);
    assert_eq!(call.callee().duplicate(), Callee::Command(CommandType::Forward));
}

fn print(python: &Python) -> String {
    let mut buf = String::new();
    for piece in &python.pieces {
        match piece {
            Piece::Text(text) => buf.push_str(text),
            Piece::Float(bits) => buf.push_str(&format!("{}", f32::from_bits(*bits))),
            Piece::Real(written) => {
                buf.push_str(&format!("{}", written.parse::<f32>().unwrap()))
            }
        }
    }
    buf
}

#[test]
fn python_words() {
    assert_eq!(CommandType::Setpencolor.to_string(), "setpencolor");
    assert_eq!(QueryType::Xcor.to_string(), "xcor");
    assert_eq!(Callee::Procedure("BOX".to_string()).to_string(), "BOX");
    assert_eq!(Callee::Command(CommandType::Back).to_string(), "back");
    assert_eq!(
        rslogo::ast::BinaryOperation::Logic(LogicalOperation::Ne).to_string(),
        "!="
    );
    assert_eq!(rslogo::tokens::AssignmentType::Addassign.to_string(), "+=");
    assert_eq!(CommandType::Setheading.keyword(), "SETHEADING");
    assert_eq!(QueryType::Color.keyword(), "COLOR");
    assert_eq!(LogoError::TypeError.message(), "operand of an unsupported type");
    for number in [0, 7, 10, -1, 120, 2147483647, -2147483648, 1000000000] {
        assert_eq!(ValueType::int_to_string(number), format!("{}", number));
    }
}

#[test]
fn python_of_statements() {
    let program = Program::parse_logo(&"FORWARD + \"1 \"2.50\nPENUP\n".to_string()).unwrap();
    assert_eq!(print(&program.to_python()), "forward((1 + 2.5))\npenup()\n");
    let parsed = parse("MAKE \"x EQ XCOR :y\nADDASSIGN \"x \"TRUE").unwrap();
    assert_eq!(print(&parsed[0].to_python(0)), "x = (xcor()\n == y)\n");
    assert_eq!(print(&parsed[0].to_python(2)), "        x = (xcor()\n == y)\n");
    assert_eq!(print(&parsed[1].to_python(1)), "    x += true\n");
    let parsed = parse("IF \"FALSE [\nBOX \"1 \"-2 :z\nWHILE LT \"1 \"1e1 [\nPENDOWN\n]\n]").unwrap();
    assert_eq!(
        print(&parsed[0].to_python(0)),
        "if false:\n    BOX(1, -2, z)\n    while (1 < 10):\n        pendown()\n\n\n"
    );
    let parsed = parse("TO BOX :a :b\nSETX :a\nEND\nTO EMPTY\nEND").unwrap();
    assert_eq!(
        print(&parsed[0].to_python(0)),
        "def BOX(a, b):\n    setx(a)\n\n"
    );
    assert_eq!(print(&parsed[0].to_python(1)), "def BOX(a, b):\n        setx(a)\n\n");
    assert_eq!(print(&parsed[1].to_python(0)), "def EMPTY():\n\n");
    let call = parse("SETY COLOR").unwrap()[0].expect_callexpression().unwrap();
    assert_eq!(print(&call.to_python(1)), "    sety(pendown()\n)\n");
    let sum = BinaryExpression::new(
        TokenType::Calculation(CalculationOperation::Slash),
        Value::Literal(ValueType::Float(0.25f32.to_bits())),
        whole(-3),
    );
    assert_eq!(print(&sum.to_python(5)), "(0.25 / -3)");
}
