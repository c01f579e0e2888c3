//! From the text of a script to its tokens.

use vstd::prelude::*;
use crate::number::{int_of, is_float, is_float_text, parse_int, reads_as, text_is, text_reads_as};
use crate::text::chars_of;
use crate::tokens::{
    AssignmentType, CalculationOperation, CommandType, IdentifierType, IdentifierView,
    KeywordType, LogicalOperation, QueryType, TokenType, TokenView, ValueType, token_views,
};

verus! {

/// White space as Unicode defines it; what trimming a line removes.
pub open spec fn is_whitespace(c: char) -> bool {
    let code = c as u32;
    ||| 0x09 <= code <= 0x0D
    ||| code == 0x20
    ||| code == 0x85
    ||| code == 0xA0
    ||| code == 0x1680
    ||| 0x2000 <= code <= 0x200A
    ||| code == 0x2028
    ||| code == 0x2029
    ||| code == 0x202F
    ||| code == 0x205F
    ||| code == 0x3000
}

/// The five ASCII blanks that part the words of a line.
pub open spec fn is_ascii_whitespace(c: char) -> bool {
    let code = c as u32;
    code == 0x20 || code == 0x09 || code == 0x0A || code == 0x0C || code == 0x0D
}

/// The token for a name of the fixed table, if `word` is one.
pub open spec fn keyword_token(word: Seq<char>) -> Option<TokenView> {
    if word == "PENUP"@ {
        Some(TokenView::Command(CommandType::Penup))
    } else if word == "PENDOWN"@ {
        Some(TokenView::Command(CommandType::Pendown))
    } else if word == "FORWARD"@ {
        Some(TokenView::Command(CommandType::Forward))
    } else if word == "BACK"@ {
        Some(TokenView::Command(CommandType::Back))
    } else if word == "LEFT"@ {
        Some(TokenView::Command(CommandType::Left))
    } else if word == "RIGHT"@ {
        Some(TokenView::Command(CommandType::Right))
    } else if word == "SETPENCOLOR"@ {
        Some(TokenView::Command(CommandType::Setpencolor))
    } else if word == "TURN"@ {
        Some(TokenView::Command(CommandType::Turn))
    } else if word == "SETHEADING"@ {
        Some(TokenView::Command(CommandType::Setheading))
    } else if word == "SETX"@ {
        Some(TokenView::Command(CommandType::Setx))
    } else if word == "SETY"@ {
        Some(TokenView::Command(CommandType::Sety))
    } else if word == "MAKE"@ {
        Some(TokenView::Assignment(AssignmentType::Make))
    } else if word == "ADDASSIGN"@ {
        Some(TokenView::Assignment(AssignmentType::Addassign))
    } else if word == "XCOR"@ {
        Some(TokenView::Query(QueryType::Xcor))
    } else if word == "YCOR"@ {
        Some(TokenView::Query(QueryType::Ycor))
    } else if word == "HEADING"@ {
        Some(TokenView::Query(QueryType::Heading))
    } else if word == "COLOR"@ {
        Some(TokenView::Query(QueryType::Color))
    } else if word == "IF"@ {
        Some(TokenView::Keyword(KeywordType::If))
    } else if word == "WHILE"@ {
        Some(TokenView::Keyword(KeywordType::While))
    } else if word == "TO"@ {
        Some(TokenView::Keyword(KeywordType::To))
    } else if word == "END"@ {
        Some(TokenView::Keyword(KeywordType::End))
    } else if word == "EQ"@ {
        Some(TokenView::Logic(LogicalOperation::Eq))
    } else if word == "NE"@ {
        Some(TokenView::Logic(LogicalOperation::Ne))
    } else if word == "GT"@ {
        Some(TokenView::Logic(LogicalOperation::Gt))
    } else if word == "LT"@ {
        Some(TokenView::Logic(LogicalOperation::Lt))
    } else if word == "AND"@ {
        Some(TokenView::Logic(LogicalOperation::And))
    } else if word == "OR"@ {
        Some(TokenView::Logic(LogicalOperation::Or))
    } else {
        None
    }
}

/// The fixed names differ from one another in length, in their first
/// character or in their fourth.
proof fn lemma_fixed_names()
    ensures
        "PENUP"@.len() == 5 && "PENUP"@[0] == 'P' && "PENUP"@[3] == 'U',
        "PENDOWN"@.len() == 7 && "PENDOWN"@[0] == 'P' && "PENDOWN"@[3] == 'D',
        "FORWARD"@.len() == 7 && "FORWARD"@[0] == 'F' && "FORWARD"@[3] == 'W',
        "BACK"@.len() == 4 && "BACK"@[0] == 'B' && "BACK"@[3] == 'K',
        "LEFT"@.len() == 4 && "LEFT"@[0] == 'L' && "LEFT"@[3] == 'T',
        "RIGHT"@.len() == 5 && "RIGHT"@[0] == 'R' && "RIGHT"@[3] == 'H',
        "SETPENCOLOR"@.len() == 11 && "SETPENCOLOR"@[0] == 'S' && "SETPENCOLOR"@[3] == 'P',
        "TURN"@.len() == 4 && "TURN"@[0] == 'T' && "TURN"@[3] == 'N',
        "SETHEADING"@.len() == 10 && "SETHEADING"@[0] == 'S' && "SETHEADING"@[3] == 'H',
        "SETX"@.len() == 4 && "SETX"@[0] == 'S' && "SETX"@[3] == 'X',
        "SETY"@.len() == 4 && "SETY"@[0] == 'S' && "SETY"@[3] == 'Y',
        "MAKE"@.len() == 4 && "MAKE"@[0] == 'M' && "MAKE"@[3] == 'E',
        "ADDASSIGN"@.len() == 9 && "ADDASSIGN"@[0] == 'A' && "ADDASSIGN"@[3] == 'A',
        "XCOR"@.len() == 4 && "XCOR"@[0] == 'X' && "XCOR"@[3] == 'R',
        "YCOR"@.len() == 4 && "YCOR"@[0] == 'Y' && "YCOR"@[3] == 'R',
        "HEADING"@.len() == 7 && "HEADING"@[0] == 'H' && "HEADING"@[3] == 'D',
        "COLOR"@.len() == 5 && "COLOR"@[0] == 'C' && "COLOR"@[3] == 'O',
{
    reveal_strlit("PENUP");
    reveal_strlit("PENDOWN");
    reveal_strlit("FORWARD");
    reveal_strlit("BACK");
    reveal_strlit("LEFT");
    reveal_strlit("RIGHT");
    reveal_strlit("SETPENCOLOR");
    reveal_strlit("TURN");
    reveal_strlit("SETHEADING");
    reveal_strlit("SETX");
    reveal_strlit("SETY");
    reveal_strlit("MAKE");
    reveal_strlit("ADDASSIGN");
    reveal_strlit("XCOR");
    reveal_strlit("YCOR");
    reveal_strlit("HEADING");
    reveal_strlit("COLOR");
}

/// The word that names a command in a script is the one that the table of
/// fixed names reads as that command.
pub proof fn command_word_is_in_the_table(command: CommandType)
    ensures
        keyword_token(command.word()) == Some(TokenView::Command(command)),
{
    lemma_fixed_names();
}

/// The word that names a query in a script is the one that the table of
/// fixed names reads as that query.
pub proof fn query_word_is_in_the_table(query: QueryType)
    ensures
        keyword_token(query.word()) == Some(TokenView::Query(query)),
{
    lemma_fixed_names();
}

/// The token for a word that starts with a colon: a variable named by the rest.
pub open spec fn variable_token(word: Seq<char>) -> Option<TokenView> {
    if word.len() > 0 && word[0] == ':' {
        Some(TokenView::Identifier(IdentifierView::Variable(word.skip(1))))
    } else {
        None
    }
}

/// The token for what follows a double quote: an integer, else a decimal
/// literal, else a truth value in any mix of cases, else a variable of that
/// name.
pub open spec fn quoted_token(value: Seq<char>) -> TokenView {
    if int_of(value) is Some {
        TokenView::Value(ValueType::Int(int_of(value)->0))
    } else if is_float_text(value) {
        TokenView::Real(value)
    } else if reads_as(value, "true"@) {
        TokenView::Value(ValueType::Bool(true))
    } else if reads_as(value, "false"@) {
        TokenView::Value(ValueType::Bool(false))
    } else {
        TokenView::Identifier(IdentifierView::Variable(value))
    }
}

pub open spec fn value_token(word: Seq<char>) -> Option<TokenView> {
    if word.len() > 0 && word[0] == '"' {
        Some(quoted_token(word.skip(1)))
    } else {
        None
    }
}

/// The token for a bracket or an arithmetic sign standing alone.
pub open spec fn char_token(word: Seq<char>) -> Option<TokenView> {
    if word == "["@ {
        Some(TokenView::Bracketleft)
    } else if word == "]"@ {
        Some(TokenView::Bracketright)
    } else if word == "+"@ {
        Some(TokenView::Calculation(CalculationOperation::Plus))
    } else if word == "-"@ {
        Some(TokenView::Calculation(CalculationOperation::Dash))
    } else if word == "*"@ {
        Some(TokenView::Calculation(CalculationOperation::Star))
    } else if word == "/"@ {
        Some(TokenView::Calculation(CalculationOperation::Slash))
    } else {
        None
    }
}

/// The token that one word of a line becomes. The table of fixed names is
/// tried first, then the colon, then the quote, then the single signs; any
/// other word names a procedure.
pub open spec fn word_token(word: Seq<char>) -> TokenView {
    if keyword_token(word) is Some {
        keyword_token(word)->0
    } else if variable_token(word) is Some {
        variable_token(word)->0
    } else if value_token(word) is Some {
        value_token(word)->0
    } else if char_token(word) is Some {
        char_token(word)->0
    } else {
        TokenView::Identifier(IdentifierView::Procedure(word))
    }
}

/// The index of the first line feed at or after `from`, or the length.
pub open spec fn line_end(text: Seq<char>, from: int) -> int
    decreases text.len() - from,
{
    if 0 <= from < text.len() && text[from] != '\n' {
        line_end(text, from + 1)
    } else {
        from
    }
}

/// The first index in `from..to` that holds no white space, or `to`.
pub open spec fn trim_start(text: Seq<char>, from: int, to: int) -> int
    decreases to - from,
{
    if 0 <= from < to <= text.len() && is_whitespace(text[from]) {
        trim_start(text, from + 1, to)
    } else {
        from
    }
}

/// The index after the last in `from..to` that holds no white space, or `from`.
pub open spec fn trim_end(text: Seq<char>, from: int, to: int) -> int
    decreases to - from,
{
    if 0 <= from < to <= text.len() && is_whitespace(text[to - 1]) {
        trim_end(text, from, to - 1)
    } else {
        to
    }
}

/// The first index in `from..to` that holds an ASCII blank, or `to`.
pub open spec fn word_end(text: Seq<char>, from: int, to: int) -> int
    decreases to - from,
{
    if 0 <= from < to <= text.len() && !is_ascii_whitespace(text[from]) {
        word_end(text, from + 1, to)
    } else {
        from
    }
}

/// The tokens of the words in `text[from..to]`, which are its longest runs
/// free of ASCII blanks.
pub open spec fn words_tokens(text: Seq<char>, from: int, to: int) -> Seq<TokenView>
    decreases to - from,
{
    if !(0 <= from < to <= text.len()) {
        Seq::empty()
    } else if is_ascii_whitespace(text[from]) {
        words_tokens(text, from + 1, to)
    } else {
        let end = word_end(text, from, to);
        let rest = if from < end <= to {
            words_tokens(text, end, to)
        } else {
            Seq::empty()
        };
        seq![word_token(text.subrange(from, end))] + rest
    }
}

/// The tokens of the line `text[from..to]`. A line that is blank once trimmed,
/// or that then starts with two slashes, gives none; any other gives its
/// words' tokens and a separator.
pub open spec fn line_tokens(text: Seq<char>, from: int, to: int) -> Seq<TokenView> {
    let lo = trim_start(text, from, to);
    let hi = trim_end(text, lo, to);
    if lo >= hi || (hi - lo >= 2 && text[lo] == '/' && text[lo + 1] == '/') {
        Seq::empty()
    } else {
        words_tokens(text, lo, hi).push(TokenView::Space)
    }
}

/// The tokens of the lines of `text` from index `from` on.
pub open spec fn lex_from(text: Seq<char>, from: int) -> Seq<TokenView>
    decreases text.len() - from,
{
    if !(0 <= from < text.len()) {
        Seq::empty()
    } else {
        let end = line_end(text, from);
        let rest = if from <= end < text.len() {
            lex_from(text, end + 1)
        } else {
            Seq::empty()
        };
        line_tokens(text, from, end) + rest
    }
}

/// The tokens of a script: those of its lines, in order.
pub open spec fn lex(text: Seq<char>) -> Seq<TokenView> {
    lex_from(text, 0)
}

pub fn char_is_whitespace(c: char) -> (yes: bool)
    ensures
        yes == is_whitespace(c),
{
    let code = c as u32;
    (0x09 <= code && code <= 0x0D) || code == 0x20 || code == 0x85 || code == 0xA0 || code
        == 0x1680 || (0x2000 <= code && code <= 0x200A) || code == 0x2028 || code == 0x2029
        || code == 0x202F || code == 0x205F || code == 0x3000
}

pub fn char_is_ascii_whitespace(c: char) -> (yes: bool)
    ensures
        yes == is_ascii_whitespace(c),
{
    let code = c as u32;
    code == 0x20 || code == 0x09 || code == 0x0A || code == 0x0C || code == 0x0D
}

/// Turns script text into tokens.
pub struct Tokenizer<'a> {
    tokens: Vec<TokenType>,
    logo: &'a String,
}

impl<'a> View for Tokenizer<'a> {
    type V = Seq<TokenView>;

    /// The tokens gathered so far.
    closed spec fn view(&self) -> Seq<TokenView> {
        token_views(self.tokens@)
    }
}

impl<'a> Tokenizer<'a> {
    /// The script that is read.
    pub closed spec fn text(&self) -> Seq<char> {
        self.logo@
    }

    pub fn new(logo: &'a String) -> (made: Tokenizer<'a>)
        ensures
            made@ == Seq::<TokenView>::empty(),
            made.text() == logo@,
    {
        let made = Tokenizer { tokens: Vec::new(), logo };
        assert(made@ =~= Seq::<TokenView>::empty());
        made
    }

    /// Reads the whole script and appends its tokens.
    pub fn scan(&mut self)
        ensures
            final(self)@ == old(self)@ + lex(old(self).text()),
            final(self).text() == old(self).text(),
    {
        let chars = chars_of(self.logo.as_str());
        let n = chars.len();
        let mut from: usize = 0;
        assert(self@ + lex_from(chars@, 0) =~= old(self)@ + lex(chars@));
        while from < n
            invariant
                from <= n,
                n == chars@.len(),
                chars@ == self.text(),
                self.text() == old(self).text(),
                self@ + lex_from(chars@, from as int) == old(self)@ + lex(chars@),
            decreases n - from,
        {
            let ghost before = self@;
            let mut end: usize = from;
            while end < n && chars[end] != '\n'
                invariant
                    from <= end <= n,
                    n == chars@.len(),
                    line_end(chars@, end as int) == line_end(chars@, from as int),
                decreases n - end,
            {
                end += 1;
            }
            self.scan_line(&chars, from, end);
            let next: usize = if end < n {
                end + 1
            } else {
                n
            };
            assert(self@ + lex_from(chars@, next as int) =~= before + lex_from(
                chars@,
                from as int,
            ));
            from = next;
        }
        assert(lex_from(chars@, n as int) =~= Seq::<TokenView>::empty());
        assert(self@ =~= self@ + Seq::<TokenView>::empty());
    }

    /// Hands over the tokens gathered so far and keeps none.
    pub fn move_token(&mut self) -> (tokens: Vec<TokenType>)
        ensures
            token_views(tokens@) == old(self)@,
            final(self)@ == Seq::<TokenView>::empty(),
            final(self).text() == old(self).text(),
    {
        let mut tokens: Vec<TokenType> = Vec::new();
        std::mem::swap(&mut self.tokens, &mut tokens);
        assert(self@ =~= Seq::<TokenView>::empty());
        tokens
    }

    /// Appends the tokens of the line `chars[from..to]`.
    fn scan_line(&mut self, chars: &Vec<char>, from: usize, to: usize)
        requires
            from <= to <= chars@.len(),
        ensures
            final(self)@ == old(self)@ + line_tokens(chars@, from as int, to as int),
            final(self).text() == old(self).text(),
    {
        let mut lo: usize = from;
        while lo < to && char_is_whitespace(chars[lo])
            invariant
                from <= lo <= to <= chars@.len(),
                trim_start(chars@, lo as int, to as int) == trim_start(
                    chars@,
                    from as int,
                    to as int,
                ),
            decreases to - lo,
        {
            lo += 1;
        }
        let mut hi: usize = to;
        while lo < hi && char_is_whitespace(chars[hi - 1])
            invariant
                lo <= hi <= to <= chars@.len(),
                trim_end(chars@, lo as int, hi as int) == trim_end(chars@, lo as int, to as int),
            decreases hi - lo,
        {
            hi -= 1;
        }
        if lo >= hi || (hi - lo >= 2 && chars[lo] == '/' && chars[lo + 1] == '/') {
            assert(self@ =~= old(self)@ + Seq::<TokenView>::empty());
            return ;
        }
        let mut at: usize = lo;
        assert(self@ + words_tokens(chars@, lo as int, hi as int) =~= old(self)@ + words_tokens(
            chars@,
            lo as int,
            hi as int,
        ));
        while at < hi
            invariant
                lo <= at <= hi <= chars@.len(),
                self.text() == old(self).text(),
                self@ + words_tokens(chars@, at as int, hi as int) == old(self)@ + words_tokens(
                    chars@,
                    lo as int,
                    hi as int,
                ),
            decreases hi - at,
        {
            if char_is_ascii_whitespace(chars[at]) {
                at += 1;
            } else {
                let ghost before = self@;
                let mut end: usize = at;
                while end < hi && !char_is_ascii_whitespace(chars[end])
                    invariant
                        at <= end <= hi <= chars@.len(),
                        word_end(chars@, end as int, hi as int) == word_end(
                            chars@,
                            at as int,
                            hi as int,
                        ),
                    decreases hi - end,
                {
                    end += 1;
                }
                assert(at < end);
                let word = &chars.as_slice()[at..end];
                self.scan_token(word);
                assert(self@ + words_tokens(chars@, end as int, hi as int) =~= before
                    + words_tokens(chars@, at as int, hi as int));
                at = end;
            }
        }
        assert(words_tokens(chars@, hi as int, hi as int) =~= Seq::<TokenView>::empty());
        assert(self@ =~= old(self)@ + words_tokens(chars@, lo as int, hi as int));
        let ghost words = self@;
        self.tokens.push(TokenType::Space);
        assert(self@ =~= words.push(TokenView::Space));
        assert(self@ =~= old(self)@ + words_tokens(chars@, lo as int, hi as int).push(
            TokenView::Space,
        ));
    }

    /// Appends the token of one word.
    fn scan_token(&mut self, token: &[char])
        ensures
            final(self)@ == old(self)@.push(word_token(token@)),
            final(self).text() == old(self).text(),
    {
        let found = if let Some(keywords) = Tokenizer::scan_keywords(token) {
            keywords
        } else if let Some(variable) = Tokenizer::scan_variable(token) {
            variable
        } else if let Some(value) = Tokenizer::scan_value(token) {
            value
        } else if let Some(single) = Tokenizer::scan_char(token) {
            single
        } else {
            TokenType::Identifier(IdentifierType::Procedure(whole(token)))
        };
        self.tokens.push(found);
        assert(self@ =~= old(self)@.push(word_token(token@)));
    }

    fn scan_keywords(token: &[char]) -> (found: Option<TokenType>)
        ensures
            found is Some == keyword_token(token@) is Some,
            found is Some ==> found->0@ == keyword_token(token@)->0,
    {
        if text_is(token, "PENUP") {
            Some(TokenType::Command(CommandType::Penup))
        } else if text_is(token, "PENDOWN") {
            Some(TokenType::Command(CommandType::Pendown))
        } else if text_is(token, "FORWARD") {
            Some(TokenType::Command(CommandType::Forward))
        } else if text_is(token, "BACK") {
            Some(TokenType::Command(CommandType::Back))
        } else if text_is(token, "LEFT") {
            Some(TokenType::Command(CommandType::Left))
        } else if text_is(token, "RIGHT") {
            Some(TokenType::Command(CommandType::Right))
        } else if text_is(token, "SETPENCOLOR") {
            Some(TokenType::Command(CommandType::Setpencolor))
        } else if text_is(token, "TURN") {
            Some(TokenType::Command(CommandType::Turn))
        } else if text_is(token, "SETHEADING") {
            Some(TokenType::Command(CommandType::Setheading))
        } else if text_is(token, "SETX") {
            Some(TokenType::Command(CommandType::Setx))
        } else if text_is(token, "SETY") {
            Some(TokenType::Command(CommandType::Sety))
        } else if text_is(token, "MAKE") {
            Some(TokenType::Assignment(AssignmentType::Make))
        } else if text_is(token, "ADDASSIGN") {
            Some(TokenType::Assignment(AssignmentType::Addassign))
        } else if text_is(token, "XCOR") {
            Some(TokenType::Query(QueryType::Xcor))
        } else if text_is(token, "YCOR") {
            Some(TokenType::Query(QueryType::Ycor))
        } else if text_is(token, "HEADING") {
            Some(TokenType::Query(QueryType::Heading))
        } else if text_is(token, "COLOR") {
            Some(TokenType::Query(QueryType::Color))
        } else if text_is(token, "IF") {
            Some(TokenType::Keyword(KeywordType::If))
        } else if text_is(token, "WHILE") {
            Some(TokenType::Keyword(KeywordType::While))
        } else if text_is(token, "TO") {
            Some(TokenType::Keyword(KeywordType::To))
        } else if text_is(token, "END") {
            Some(TokenType::Keyword(KeywordType::End))
        } else if text_is(token, "EQ") {
            Some(TokenType::Logic(LogicalOperation::Eq))
        } else if text_is(token, "NE") {
            Some(TokenType::Logic(LogicalOperation::Ne))
        } else if text_is(token, "GT") {
            Some(TokenType::Logic(LogicalOperation::Gt))
        } else if text_is(token, "LT") {
            Some(TokenType::Logic(LogicalOperation::Lt))
        } else if text_is(token, "AND") {
            Some(TokenType::Logic(LogicalOperation::And))
        } else if text_is(token, "OR") {
            Some(TokenType::Logic(LogicalOperation::Or))
        } else {
            None
        }
    }

    fn scan_variable(token: &[char]) -> (found: Option<TokenType>)
        ensures
            found is Some == variable_token(token@) is Some,
            found is Some ==> found->0@ == variable_token(token@)->0,
    {
        if token.len() > 0 && token[0] == ':' {
            let name = &token[1..token.len()];
            assert(name@ == token@.skip(1));
            Some(TokenType::Identifier(IdentifierType::Variable(whole(name))))
        } else {
            None
        }
    }

    fn scan_value(token: &[char]) -> (found: Option<TokenType>)
        ensures
            found is Some == value_token(token@) is Some,
            found is Some ==> found->0@ == value_token(token@)->0,
    {
        if token.len() > 0 && token[0] == '"' {
            let value = &token[1..token.len()];
            assert(value@ == token@.skip(1));
            if let Some(number) = parse_int(value) {
                Some(TokenType::Value(ValueType::Int(number)))
            } else if is_float(value) {
                Some(TokenType::Real(whole(value)))
            } else if text_reads_as(value, "true") {
                Some(TokenType::Value(ValueType::Bool(true)))
            } else if text_reads_as(value, "false") {
                Some(TokenType::Value(ValueType::Bool(false)))
            } else {
                Some(TokenType::Identifier(IdentifierType::Variable(whole(value))))
            }
        } else {
            None
        }
    }

    fn scan_char(token: &[char]) -> (found: Option<TokenType>)
        ensures
            found is Some == char_token(token@) is Some,
            found is Some ==> found->0@ == char_token(token@)->0,
    {
        if text_is(token, "[") {
            Some(TokenType::Bracketleft)
        } else if text_is(token, "]") {
            Some(TokenType::Bracketright)
        } else if text_is(token, "+") {
            Some(TokenType::Calculation(CalculationOperation::Plus))
        } else if text_is(token, "-") {
            Some(TokenType::Calculation(CalculationOperation::Dash))
        } else if text_is(token, "*") {
            Some(TokenType::Calculation(CalculationOperation::Star))
        } else if text_is(token, "/") {
            Some(TokenType::Calculation(CalculationOperation::Slash))
        } else {
            None
        }
    }
}

/// The text made of all of `chars`.
fn whole(chars: &[char]) -> (text: String)
    ensures
        text@ == chars@,
{
    let mut text = String::new();
    let mut i: usize = 0;
    while i < chars.len()
        invariant
            i <= chars@.len(),
            text@ == chars@.take(i as int),
        decreases chars@.len() - i,
    {
        text.push(chars[i]);
        i += 1;
        assert(text@ =~= chars@.take(i as int));
    }
    assert(chars@.take(chars@.len() as int) =~= chars@);
    text
}

} // verus!
