//! The tokens of the language.

use vstd::prelude::*;

verus! {

/// A runtime value. A `Float` is carried by the bit pattern of its
/// single-precision encoding; the library never looks inside one.
#[derive(Clone, Copy, Debug, PartialEq, Eq, Structural)]
pub enum ValueType {
    Float(u32),
    Int(i32),
    Bool(bool),
}

#[derive(Clone, Debug, PartialEq, Eq)]
pub enum IdentifierType {
    Variable(String),
    Procedure(String),
}

/// The mathematical content of an [`IdentifierType`].
pub enum IdentifierView {
    Variable(Seq<char>),
    Procedure(Seq<char>),
}

impl View for IdentifierType {
    type V = IdentifierView;

    open spec fn view(&self) -> IdentifierView {
        match self {
            IdentifierType::Variable(name) => IdentifierView::Variable(name@),
            IdentifierType::Procedure(name) => IdentifierView::Procedure(name@),
        }
    }
}

impl IdentifierType {
    pub fn expect_variable(&self) -> (name: Option<String>)
        ensures
            name == match self {
                IdentifierType::Variable(n) => Some(*n),
                IdentifierType::Procedure(_) => None,
            },
    {
        match self {
            IdentifierType::Variable(name) => Some(name.clone()),
            _ => None,
        }
    }

    pub fn expect_procedure(&self) -> (name: Option<String>)
        ensures
            name == match self {
                IdentifierType::Procedure(n) => Some(*n),
                IdentifierType::Variable(_) => None,
            },
    {
        match self {
            IdentifierType::Procedure(name) => Some(name.clone()),
            _ => None,
        }
    }

    pub fn is_procedure(&self) -> (yes: bool)
        ensures
            yes == (self is Procedure),
    {
        matches!(self, IdentifierType::Procedure(_))
    }

    /// A copy equal to this value.
    pub fn duplicate(&self) -> (copy: IdentifierType)
        ensures
            copy == *self,
    {
        match self {
            IdentifierType::Variable(name) => IdentifierType::Variable(name.clone()),
            IdentifierType::Procedure(name) => IdentifierType::Procedure(name.clone()),
        }
    }
}

#[derive(Clone, Copy, Debug, PartialEq, Eq, Hash, Structural)]
pub enum AssignmentType {
    Make,
    Addassign,
}

#[derive(Clone, Copy, Debug, PartialEq, Eq, Hash, Structural)]
pub enum CommandType {
    Penup,
    Pendown,
    Forward,
    Back,
    Left,
    Right,
    Setpencolor,
    Turn,
    Setheading,
    Setx,
    Sety,
}

#[derive(Clone, Copy, Debug, PartialEq, Eq, Hash, Structural)]
pub enum QueryType {
    Xcor,
    Ycor,
    Heading,
    Color,
}

#[derive(Clone, Copy, Debug, PartialEq, Eq, Hash, Structural)]
pub enum KeywordType {
    If,
    While,
    To,
    End,
}

#[derive(Clone, Copy, Debug, PartialEq, Eq, Hash, Structural)]
pub enum LogicalOperation {
    Eq,
    Ne,
    Gt,
    Lt,
    And,
    Or,
}

#[derive(Clone, Copy, Debug, PartialEq, Eq, Hash, Structural)]
pub enum CalculationOperation {
    Plus,
    Dash,
    Star,
    Slash,
}

/// One lexical unit. `Space` separates statements; `Real` is a decimal
/// literal kept as it was written.
#[derive(Clone, Debug, PartialEq, Eq)]
pub enum TokenType {
    Bracketleft,
    Bracketright,
    Space,
    Value(ValueType),
    Real(String),
    Identifier(IdentifierType),
    Command(CommandType),
    Query(QueryType),
    Keyword(KeywordType),
    Logic(LogicalOperation),
    Calculation(CalculationOperation),
    Assignment(AssignmentType),
}

/// The mathematical content of a [`TokenType`].
pub enum TokenView {
    Bracketleft,
    Bracketright,
    Space,
    Value(ValueType),
    Real(Seq<char>),
    Identifier(IdentifierView),
    Command(CommandType),
    Query(QueryType),
    Keyword(KeywordType),
    Logic(LogicalOperation),
    Calculation(CalculationOperation),
    Assignment(AssignmentType),
}

impl View for TokenType {
    type V = TokenView;

    open spec fn view(&self) -> TokenView {
        match self {
            TokenType::Bracketleft => TokenView::Bracketleft,
            TokenType::Bracketright => TokenView::Bracketright,
            TokenType::Space => TokenView::Space,
            TokenType::Value(value) => TokenView::Value(*value),
            TokenType::Real(text) => TokenView::Real(text@),
            TokenType::Identifier(identifier) => TokenView::Identifier(identifier@),
            TokenType::Command(command) => TokenView::Command(*command),
            TokenType::Query(query) => TokenView::Query(*query),
            TokenType::Keyword(keyword) => TokenView::Keyword(*keyword),
            TokenType::Logic(logic) => TokenView::Logic(*logic),
            TokenType::Calculation(calculation) => TokenView::Calculation(*calculation),
            TokenType::Assignment(assignment) => TokenView::Assignment(*assignment),
        }
    }
}

impl TokenView {
    pub open spec fn is_binary(self) -> bool {
        self is Calculation || self is Logic
    }
}

/// The views of a run of tokens, one for one.
pub open spec fn token_views(tokens: Seq<TokenType>) -> Seq<TokenView> {
    tokens.map_values(|token: TokenType| token@)
}

impl TokenType {
    pub fn expect_identifier(&self) -> (identifier: Option<IdentifierType>)
        ensures
            identifier == match self {
                TokenType::Identifier(i) => Some(*i),
                _ => None,
            },
    {
        match self {
            TokenType::Identifier(identifier) => Some(identifier.duplicate()),
            _ => None,
        }
    }

    pub fn expect_command(&self) -> (command: Option<CommandType>)
        ensures
            command == match self {
                TokenType::Command(c) => Some(*c),
                _ => None,
            },
    {
        match self {
            TokenType::Command(command) => Some(*command),
            _ => None,
        }
    }

    pub fn expect_assignment(&self) -> (assignment: Option<AssignmentType>)
        ensures
            assignment == match self {
                TokenType::Assignment(a) => Some(*a),
                _ => None,
            },
    {
        match self {
            TokenType::Assignment(assignment) => Some(*assignment),
            _ => None,
        }
    }

    pub fn expect_keywords(&self) -> (keyword: Option<KeywordType>)
        ensures
            keyword == match self {
                TokenType::Keyword(k) => Some(*k),
                _ => None,
            },
    {
        match self {
            TokenType::Keyword(keywords) => Some(*keywords),
            _ => None,
        }
    }

    pub fn is_left_bracket(&self) -> (yes: bool)
        ensures
            yes == (self is Bracketleft),
            yes == (self@ is Bracketleft),
    {
        matches!(self, TokenType::Bracketleft)
    }

    pub fn is_right_bracket(&self) -> (yes: bool)
        ensures
            yes == (self is Bracketright),
            yes == (self@ is Bracketright),
    {
        matches!(self, TokenType::Bracketright)
    }

    pub fn is_space(&self) -> (yes: bool)
        ensures
            yes == (self is Space),
            yes == (self@ is Space),
    {
        matches!(self, TokenType::Space)
    }

    pub fn is_binary(&self) -> (yes: bool)
        ensures
            yes == (self is Calculation || self is Logic),
            yes == self@.is_binary(),
    {
        matches!(self, TokenType::Calculation(_) | TokenType::Logic(_))
    }
}

impl IdentifierType {
    /// Whether two identifiers have the same content.
    pub fn same(&self, other: &IdentifierType) -> (yes: bool)
        ensures
            yes == (self@ == other@),
    {
        match (self, other) {
            (IdentifierType::Variable(a), IdentifierType::Variable(b)) => {
                let yes = *a == *b;
                yes
            },
            (IdentifierType::Procedure(a), IdentifierType::Procedure(b)) => {
                let yes = *a == *b;
                yes
            },
            _ => false,
        }
    }
}

impl TokenType {
    /// Whether two tokens have the same content.
    pub fn same(&self, other: &TokenType) -> (yes: bool)
        ensures
            yes == (self@ == other@),
    {
        match (self, other) {
            (TokenType::Bracketleft, TokenType::Bracketleft) => true,
            (TokenType::Bracketright, TokenType::Bracketright) => true,
            (TokenType::Space, TokenType::Space) => true,
            (TokenType::Value(a), TokenType::Value(b)) => *a == *b,
            (TokenType::Real(a), TokenType::Real(b)) => {
                let yes = *a == *b;
                yes
            },
            (TokenType::Identifier(a), TokenType::Identifier(b)) => a.same(b),
            (TokenType::Command(a), TokenType::Command(b)) => *a == *b,
            (TokenType::Query(a), TokenType::Query(b)) => *a == *b,
            (TokenType::Keyword(a), TokenType::Keyword(b)) => *a == *b,
            (TokenType::Logic(a), TokenType::Logic(b)) => *a == *b,
            (TokenType::Calculation(a), TokenType::Calculation(b)) => *a == *b,
            (TokenType::Assignment(a), TokenType::Assignment(b)) => *a == *b,
            _ => false,
        }
    }
}

impl CommandType {
    /// The word that names the command in a script.
    pub open spec fn word(self) -> Seq<char> {
        match self {
            CommandType::Penup => "PENUP"@,
            CommandType::Pendown => "PENDOWN"@,
            CommandType::Forward => "FORWARD"@,
            CommandType::Back => "BACK"@,
            CommandType::Left => "LEFT"@,
            CommandType::Right => "RIGHT"@,
            CommandType::Setpencolor => "SETPENCOLOR"@,
            CommandType::Turn => "TURN"@,
            CommandType::Setheading => "SETHEADING"@,
            CommandType::Setx => "SETX"@,
            CommandType::Sety => "SETY"@,
        }
    }

    /// The word that names the command in a script.
    pub fn keyword(&self) -> (name: &'static str)
        ensures
            name@ == self.word(),
    {
        match self {
            CommandType::Penup => "PENUP",
            CommandType::Pendown => "PENDOWN",
            CommandType::Forward => "FORWARD",
            CommandType::Back => "BACK",
            CommandType::Left => "LEFT",
            CommandType::Right => "RIGHT",
            CommandType::Setpencolor => "SETPENCOLOR",
            CommandType::Turn => "TURN",
            CommandType::Setheading => "SETHEADING",
            CommandType::Setx => "SETX",
            CommandType::Sety => "SETY",
        }
    }
}

impl QueryType {
    /// The word that names the query in a script.
    pub open spec fn word(self) -> Seq<char> {
        match self {
            QueryType::Xcor => "XCOR"@,
            QueryType::Ycor => "YCOR"@,
            QueryType::Heading => "HEADING"@,
            QueryType::Color => "COLOR"@,
        }
    }

    /// The word that names the query in a script.
    pub fn keyword(&self) -> (name: &'static str)
        ensures
            name@ == self.word(),
    {
        match self {
            QueryType::Xcor => "XCOR",
            QueryType::Ycor => "YCOR",
            QueryType::Heading => "HEADING",
            QueryType::Color => "COLOR",
        }
    }
}

} // verus!
