use rslogo::lexer::{char_is_ascii_whitespace, char_is_whitespace, Tokenizer};
use rslogo::number::{is_float, lower_char, parse_int};
use rslogo::tokens::{
    AssignmentType, CalculationOperation, CommandType, IdentifierType, KeywordType,
    LogicalOperation, QueryType, TokenType, ValueType,
};

fn tokens_of(code: &str) -> Vec<TokenType> {
    let text = code.to_string();
    let mut tokenizer = Tokenizer::new(&text);
    tokenizer.scan();
    tokenizer.move_token()
}

fn variable(name: &str) -> TokenType {
    TokenType::Identifier(IdentifierType::Variable(name.to_string()))
}

fn procedure(name: &str) -> TokenType {
    TokenType::Identifier(IdentifierType::Procedure(name.to_string()))
}

fn whole(number: i32) -> TokenType {
    TokenType::Value(ValueType::Int(number))
}

fn decimal(text: &str) -> TokenType {
    TokenType::Real(text.to_string())
}

#[test]
fn empty_and_blank_texts_give_no_tokens() {
    assert_eq!(tokens_of(""), vec![]);
    assert_eq!(tokens_of("\n\n   \n\t\n"), vec![]);
    assert_eq!(tokens_of("\u{a0}\u{3000}\n"), vec![]);
}

#[test]
fn comment_lines_give_no_tokens() {
    assert_eq!(tokens_of("// FORWARD \"1\n"), vec![]);
    assert_eq!(tokens_of("   \t// FORWARD \"1"), vec![]);
    assert_eq!(tokens_of("\u{2003}//x\nPENUP"), vec![
        TokenType::Command(CommandType::Penup),
        TokenType::Space,
    ]);
    assert_eq!(
        tokens_of("PENUP // not a comment"),
        vec![
            TokenType::Command(CommandType::Penup),
            procedure("//"),
            procedure("not"),
            procedure("a"),
            procedure("comment"),
            TokenType::Space,
        ]
    );
}

#[test]
fn every_line_with_words_ends_with_a_separator() {
    assert_eq!(
        tokens_of("PENUP\nPENDOWN\r\n\nPENUP"),
        vec![
            TokenType::Command(CommandType::Penup),
            TokenType::Space,
            TokenType::Command(CommandType::Pendown),
            TokenType::Space,
            TokenType::Command(CommandType::Penup),
            TokenType::Space,
        ]
    );
}

#[test]
fn fixed_names_are_case_sensitive() {
    let words = "PENUP PENDOWN FORWARD BACK LEFT RIGHT SETPENCOLOR TURN SETHEADING SETX SETY \
                 MAKE ADDASSIGN XCOR YCOR HEADING COLOR IF WHILE TO END EQ NE GT LT AND OR";
    assert_eq!(
        tokens_of(words),
        vec![
            TokenType::Command(CommandType::Penup),
            TokenType::Command(CommandType::Pendown),
            TokenType::Command(CommandType::Forward),
            TokenType::Command(CommandType::Back),
            TokenType::Command(CommandType::Left),
            TokenType::Command(CommandType::Right),
            TokenType::Command(CommandType::Setpencolor),
            TokenType::Command(CommandType::Turn),
            TokenType::Command(CommandType::Setheading),
            TokenType::Command(CommandType::Setx),
            TokenType::Command(CommandType::Sety),
            TokenType::Assignment(AssignmentType::Make),
            TokenType::Assignment(AssignmentType::Addassign),
            TokenType::Query(QueryType::Xcor),
            TokenType::Query(QueryType::Ycor),
            TokenType::Query(QueryType::Heading),
            TokenType::Query(QueryType::Color),
            TokenType::Keyword(KeywordType::If),
            TokenType::Keyword(KeywordType::While),
            TokenType::Keyword(KeywordType::To),
            TokenType::Keyword(KeywordType::End),
            TokenType::Logic(LogicalOperation::Eq),
            TokenType::Logic(LogicalOperation::Ne),
            TokenType::Logic(LogicalOperation::Gt),
            TokenType::Logic(LogicalOperation::Lt),
            TokenType::Logic(LogicalOperation::And),
            TokenType::Logic(LogicalOperation::Or),
            TokenType::Space,
        ]
    );
    assert_eq!(
        tokens_of("penup Forward"),
        vec![procedure("penup"), procedure("Forward"), TokenType::Space]
    );
}

#[test]
fn structural_signs_stand_alone() {
    assert_eq!(
        tokens_of("[ ] + - * /"),
        vec![
            TokenType::Bracketleft,
            TokenType::Bracketright,
            TokenType::Calculation(CalculationOperation::Plus),
            TokenType::Calculation(CalculationOperation::Dash),
            TokenType::Calculation(CalculationOperation::Star),
            TokenType::Calculation(CalculationOperation::Slash),
            TokenType::Space,
        ]
    );
    assert_eq!(
        tokens_of("[] ++"),
        vec![procedure("[]"), procedure("++"), TokenType::Space]
    );
}

#[test]
fn colon_starts_a_variable() {
    assert_eq!(
        tokens_of(":x :10 : :\"y"),
        vec![
            variable("x"),
            variable("10"),
            variable(""),
            variable("\"y"),
            TokenType::Space
        ]
    );
}

#[test]
fn quoted_integers() {
    assert_eq!(
        tokens_of("\"10 \"-7 \"+5 \"007 \"2147483647 \"-2147483648 \"-0"),
        vec![
            whole(10),
            whole(-7),
            whole(5),
            whole(7),
            whole(2147483647),
            whole(-2147483648),
            whole(0),
            TokenType::Space
        ]
    );
}

#[test]
fn integer_out_of_range_is_a_decimal_literal() {
    assert_eq!(
        tokens_of("\"2147483648 \"-2147483649 \"99999999999999999999"),
        vec![
            decimal("2147483648"),
            decimal("-2147483649"),
            decimal("99999999999999999999"),
            TokenType::Space
        ]
    );
}

#[test]
fn quoted_decimal_literals() {
    let texts = [
        "1.5", "-1.5", "+.5", "5.", "1e5", "1E-5", "1.e+5", ".5e0", "inf", "-INF", "Infinity",
        "nan", "+NaN", "00.00",
    ];
    for text in texts {
        assert_eq!(
            tokens_of(&format!("\"{}", text)),
            vec![decimal(text), TokenType::Space],
            "{}",
            text
        );
        assert!(text.parse::<f32>().is_ok(), "{}", text);
    }
}

#[test]
fn quoted_texts_that_are_no_numbers_are_variables() {
    let texts = [
        "", ".", "+", "-", "e5", "1e", "1e+", "1.5.2", "1_0", "0x10", "infinit", "na", "--1",
        "+-1", ".e5", "1f", "abc", "\u{663}",
    ];
    for text in texts {
        assert_eq!(
            tokens_of(&format!("\"{}", text)),
            vec![variable(text), TokenType::Space],
            "{}",
            text
        );
        assert!(text.parse::<f32>().is_err(), "{}", text);
        assert!(text.parse::<i32>().is_err(), "{}", text);
    }
}

#[test]
fn quoted_truth_values_in_any_case() {
    assert_eq!(
        tokens_of("\"TRUE \"true \"tRuE \"FALSE \"False"),
        vec![
            TokenType::Value(ValueType::Bool(true)),
            TokenType::Value(ValueType::Bool(true)),
            TokenType::Value(ValueType::Bool(true)),
            TokenType::Value(ValueType::Bool(false)),
            TokenType::Value(ValueType::Bool(false)),
            TokenType::Space
        ]
    );
    assert_eq!(
        tokens_of("\"truE1 \"t"),
        vec![variable("truE1"), variable("t"), TokenType::Space]
    );
}

#[test]
fn words_part_at_ascii_blanks_only() {
    assert_eq!(
        tokens_of("a\tb\u{c}c\rd  e"),
        vec![
            procedure("a"),
            procedure("b"),
            procedure("c"),
            procedure("d"),
            procedure("e"),
            TokenType::Space
        ]
    );
    assert_eq!(
        tokens_of("  a\u{a0}b\u{b}c \u{a0}"),
        vec![procedure("a\u{a0}b\u{b}c"), TokenType::Space]
    );
}

#[test]
fn scanning_twice_gives_the_tokens_twice() {
    let text = "FORWARD \"1".to_string();
    let mut tokenizer = Tokenizer::new(&text);
    tokenizer.scan();
    tokenizer.scan();
    let both = tokenizer.move_token();
    assert_eq!(
        both,
        vec![
            TokenType::Command(CommandType::Forward),
            whole(1),
            TokenType::Space,
            TokenType::Command(CommandType::Forward),
            whole(1),
            TokenType::Space,
        ]
    );
    assert_eq!(tokenizer.move_token(), vec![]);
}

#[test]
fn token_helpers() {
    let name = IdentifierType::Variable("x".to_string());
    assert_eq!(name.expect_variable(), Some("x".to_string()));
    assert_eq!(name.expect_procedure(), None);
    assert!(!name.is_procedure());
    let name = IdentifierType::Procedure("BOX".to_string());
    assert_eq!(name.expect_variable(), None);
    assert_eq!(name.expect_procedure(), Some("BOX".to_string()));
    assert!(name.is_procedure());
    assert_eq!(procedure("BOX").expect_identifier(), Some(name));
    assert_eq!(whole(1).expect_identifier(), None);
    assert_eq!(
        TokenType::Command(CommandType::Turn).expect_command(),
        Some(CommandType::Turn)
    );
    assert_eq!(
        TokenType::Assignment(AssignmentType::Make).expect_assignment(),
        Some(AssignmentType::Make)
    );
    assert_eq!(
        TokenType::Keyword(KeywordType::To).expect_keywords(),
        Some(KeywordType::To)
    );
    assert_eq!(TokenType::Space.expect_keywords(), None);
    assert!(TokenType::Bracketleft.is_left_bracket());
    assert!(TokenType::Bracketright.is_right_bracket());
    assert!(TokenType::Space.is_space());
    assert!(TokenType::Logic(LogicalOperation::And).is_binary());
    assert!(TokenType::Calculation(CalculationOperation::Star).is_binary());
    assert!(!TokenType::Query(QueryType::Xcor).is_binary());
    assert!(procedure("a").same(&procedure("a")));
    assert!(!procedure("a").same(&variable("a")));
    assert!(!decimal("1.5").same(&decimal("1.50")));
}

#[test]
fn white_space_is_what_the_standard_library_trims() {
    for code in 0..=0x10FFFFu32 {
        if let Some(c) = char::from_u32(code) {
            assert_eq!(char_is_whitespace(c), c.is_whitespace(), "{:x}", code);
            assert_eq!(
                char_is_ascii_whitespace(c),
                c.is_ascii_whitespace(),
                "{:x}",
                code
            );
            assert_eq!(lower_char(c), c.to_ascii_lowercase(), "{:x}", code);
        }
    }
}

fn all_texts(alphabet: &[char], longest: usize) -> Vec<String> {
    let mut texts = vec![String::new()];
    let mut from = 0;
    for _ in 0..longest {
        let upto = texts.len();
        for i in from..upto {
            for c in alphabet {
                let mut longer = texts[i].clone();
                longer.push(*c);
                texts.push(longer);
            }
        }
        from = upto;
    }
    texts
}

#[test]
fn numbers_are_what_the_standard_library_reads() {
    let alphabet = ['0', '7', '.', 'e', 'E', '+', '-', 'i', 'n', 'f', 'a', 'N'];
    for text in all_texts(&alphabet, 5) {
        let chars: Vec<char> = text.chars().collect();
        assert_eq!(parse_int(&chars), text.parse::<i32>().ok(), "{}", text);
        assert_eq!(is_float(&chars), text.parse::<f32>().is_ok(), "{}", text);
    }
    for text in ["infinity", "-Infinity", "+INFINITY", "infinit", "infinityy", "iNfInItY"] {
        let chars: Vec<char> = text.chars().collect();
        assert_eq!(is_float(&chars), text.parse::<f32>().is_ok(), "{}", text);
    }
    for number in [
        i32::MIN as i64 - 1,
        i32::MIN as i64,
        i32::MAX as i64,
        i32::MAX as i64 + 1,
        4294967296,
        -4294967296,
        21474836470,
    ] {
        for text in [format!("{}", number), format!("+{}", number), format!("00{}", number)] {
            let chars: Vec<char> = text.chars().collect();
            assert_eq!(parse_int(&chars), text.parse::<i32>().ok(), "{}", text);
            assert_eq!(is_float(&chars), text.parse::<f32>().is_ok(), "{}", text);
        }
    }
}

fn words_by_the_standard_library(code: &str) -> Vec<Option<String>> {
    let mut words = Vec::new();
    for line in code.lines() {
        if line.trim().starts_with("//") {
            continue;
        }
        if line.trim().is_empty() {
            continue;
        }
        for word in line.trim().split_ascii_whitespace() {
            words.push(Some(word.to_string()));
        }
        words.push(None);
    }
    words
}

#[test]
fn lines_and_words_are_what_the_standard_library_splits() {
    let alphabet = ['a', '/', ' ', '\n', '\r', '\t', '\u{b}', '\u{a0}', '\u{c}'];
    for text in all_texts(&alphabet, 5) {
        let expected: Vec<TokenType> = words_by_the_standard_library(&text)
            .into_iter()
            .map(|word| match word {
                None => TokenType::Space,
                Some(word) if word == "/" => TokenType::Calculation(CalculationOperation::Slash),
                Some(word) => procedure(&word),
            })
            .collect();
        assert_eq!(tokens_of(&text), expected, "{:?}", text);
    }
}
