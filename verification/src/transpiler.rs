//! A program as Python text.

use vstd::prelude::*;
use crate::ast::{
    AssignmentExpression, BinaryExpression, BinaryOperation, CallExpression, Callee, IfStatement,
    Literal, ProcedureDeclaration, Statement, Value, WhileStatement,
};
use crate::number::{all_digits, digits_value, int_of};
use crate::tokens::{
    AssignmentType, CalculationOperation, CommandType, IdentifierType, LogicalOperation,
    QueryType, ValueType,
};

verus! {

/// A stretch of Python text. A single-precision number is not written out:
/// it is held as it is, for whoever prints the text to write in decimal.
#[derive(Clone, Debug, PartialEq, Eq)]
pub enum Piece {
    Text(String),
    /// A single-precision number, by its bit pattern.
    Float(u32),
    /// A decimal literal as the script has it, which stands for the
    /// single-precision number nearest to it.
    Real(String),
}

/// One place in Python text: a character, or a number still to be written.
pub enum Glyph {
    Char(char),
    Float(u32),
    Real(Seq<char>),
}

/// Characters as places of a text.
pub open spec fn text(chars: Seq<char>) -> Seq<Glyph> {
    chars.map_values(|c: char| Glyph::Char(c))
}

pub open spec fn piece_glyphs(piece: Piece) -> Seq<Glyph> {
    match piece {
        Piece::Text(chars) => text(chars@),
        Piece::Float(number) => seq![Glyph::Float(number)],
        Piece::Real(written) => seq![Glyph::Real(written@)],
    }
}

/// The places of a run of pieces, one piece after the other.
pub open spec fn glyphs(pieces: Seq<Piece>) -> Seq<Glyph>
    decreases pieces.len(),
{
    if pieces.len() == 0 {
        Seq::empty()
    } else {
        glyphs(pieces.drop_last()) + piece_glyphs(pieces.last())
    }
}

/// Python text in the making.
pub struct Python {
    pub pieces: Vec<Piece>,
}

impl View for Python {
    type V = Seq<Glyph>;

    open spec fn view(&self) -> Seq<Glyph> {
        glyphs(self.pieces@)
    }
}

impl Python {
    pub fn new() -> (made: Python)
        ensures
            made@ == Seq::<Glyph>::empty(),
    {
        Python { pieces: Vec::new() }
    }

    fn push(&mut self, piece: Piece)
        ensures
            final(self)@ == old(self)@ + piece_glyphs(piece),
    {
        let ghost before = self.pieces@;
        self.pieces.push(piece);
        assert(self.pieces@.drop_last() =~= before);
    }

    /// Appends characters.
    pub fn push_str(&mut self, chars: &str)
        ensures
            final(self)@ == old(self)@ + text(chars@),
    {
        self.push(Piece::Text(String::from_str(chars)));
    }

    /// Appends a single-precision number.
    pub fn push_float(&mut self, number: u32)
        ensures
            final(self)@ == old(self)@ + seq![Glyph::Float(number)],
    {
        self.push(Piece::Float(number));
    }

    /// Appends a decimal literal.
    pub fn push_real(&mut self, written: &String)
        ensures
            final(self)@ == old(self)@ + seq![Glyph::Real(written@)],
    {
        self.push(Piece::Real(written.clone()));
    }
}

pub open spec fn digit_char(digit: int) -> char
    recommends
        0 <= digit <= 9,
{
    ((digit + 48) as u8) as char
}

/// A natural number in decimal, without leading zeros.
pub open spec fn nat_text(number: nat) -> Seq<char>
    decreases number,
{
    if number < 10 {
        seq![digit_char(number as int)]
    } else {
        nat_text(number / 10).push(digit_char((number % 10) as int))
    }
}

/// An integer in decimal, with a minus sign where it is negative.
pub open spec fn int_text(number: int) -> Seq<char> {
    if number < 0 {
        seq!['-'] + nat_text((-number) as nat)
    } else {
        nat_text(number as nat)
    }
}

/// The decimal text of a natural number is made of digits, at least one,
/// and writes that number.
proof fn lemma_nat_text(number: nat)
    ensures
        nat_text(number).len() >= 1,
        all_digits(nat_text(number)),
        digits_value(nat_text(number)) == number,
    decreases number,
{
    if number < 10 {
        assert(nat_text(number).drop_last() =~= Seq::<char>::empty());
        assert(digits_value(nat_text(number).drop_last()) == 0);
    } else {
        lemma_nat_text(number / 10);
        assert(nat_text(number).drop_last() =~= nat_text(number / 10));
    }
}

/// An integer written out in decimal reads back as itself.
pub proof fn written_integer_reads_back(number: i32)
    ensures
        int_of(int_text(number as int)) == Some(number),
{
    if number < 0 {
        lemma_nat_text((-number) as nat);
        assert(int_text(number as int).skip(1) =~= nat_text((-number) as nat));
    } else {
        lemma_nat_text(number as nat);
    }
}

/// The Python word for an operator.
pub open spec fn operation_text(operation: BinaryOperation) -> Seq<char> {
    match operation {
        BinaryOperation::Calculation(CalculationOperation::Plus) => "+"@,
        BinaryOperation::Calculation(CalculationOperation::Dash) => "-"@,
        BinaryOperation::Calculation(CalculationOperation::Star) => "*"@,
        BinaryOperation::Calculation(CalculationOperation::Slash) => "/"@,
        BinaryOperation::Logic(LogicalOperation::And) => "&&"@,
        BinaryOperation::Logic(LogicalOperation::Or) => "||"@,
        BinaryOperation::Logic(LogicalOperation::Eq) => "=="@,
        BinaryOperation::Logic(LogicalOperation::Ne) => "!="@,
        BinaryOperation::Logic(LogicalOperation::Lt) => "<"@,
        BinaryOperation::Logic(LogicalOperation::Gt) => ">"@,
    }
}

pub open spec fn assignment_text(operation: AssignmentType) -> Seq<char> {
    match operation {
        AssignmentType::Make => "="@,
        AssignmentType::Addassign => "+="@,
    }
}

pub open spec fn command_text(command: CommandType) -> Seq<char> {
    match command {
        CommandType::Penup => "penup"@,
        CommandType::Forward => "forward"@,
        CommandType::Pendown => "pendown"@,
        CommandType::Back => "back"@,
        CommandType::Left => "left"@,
        CommandType::Right => "right"@,
        CommandType::Setheading => "setheading"@,
        CommandType::Setpencolor => "setpencolor"@,
        CommandType::Turn => "turn"@,
        CommandType::Setx => "setx"@,
        CommandType::Sety => "sety"@,
    }
}

pub open spec fn query_text(query: QueryType) -> Seq<char> {
    match query {
        QueryType::Xcor => "xcor"@,
        QueryType::Ycor => "ycor"@,
        QueryType::Heading => "heading"@,
        QueryType::Color => "pendown"@,
    }
}

pub open spec fn callee_text(callee: Callee) -> Seq<char> {
    match callee {
        Callee::Command(command) => command_text(command),
        Callee::Query(query) => query_text(query),
        Callee::Procedure(procedure) => procedure@,
    }
}

/// Four blanks for each level.
pub open spec fn indent(levels: nat) -> Seq<Glyph>
    decreases levels,
{
    if levels == 0 {
        Seq::empty()
    } else {
        indent((levels - 1) as nat) + text("    "@)
    }
}

pub open spec fn literal_python(literal: Literal) -> Seq<Glyph> {
    match literal {
        ValueType::Int(number) => text(int_text(number as int)),
        ValueType::Float(number) => seq![Glyph::Float(number)],
        ValueType::Bool(true) => text("true"@),
        ValueType::Bool(false) => text("false"@),
    }
}

/// An expression: a literal as it prints, a name as it is, a call as a
/// statement of its own, an operator between its operands in brackets.
pub open spec fn value_python(value: Value) -> Seq<Glyph>
    decreases value,
{
    match value {
        Value::Literal(literal) => literal_python(literal),
        Value::Real(written) => seq![Glyph::Real(written@)],
        Value::Identifier(IdentifierType::Variable(name)) => text(name@),
        Value::Identifier(IdentifierType::Procedure(name)) => text(name@),
        Value::Statement(call) => call_python(*call, 0),
        Value::BinaryExpression(binary) => binary_python(*binary),
    }
}

/// The first `count` of the expressions, with a comma and a blank between
/// each two.
pub open spec fn values_python(values: Seq<Value>, count: nat) -> Seq<Glyph>
    decreases values, count,
{
    if count == 0 || count > values.len() {
        Seq::empty()
    } else if count == 1 {
        value_python(values[0])
    } else {
        values_python(values, (count - 1) as nat) + text(", "@) + value_python(
            values[count - 1],
        )
    }
}

pub open spec fn binary_python(binary: BinaryExpression) -> Seq<Glyph>
    decreases binary,
{
    text("("@) + value_python(binary.left) + text(" "@) + text(operation_text(binary.operation))
        + text(" "@) + value_python(binary.right) + text(")"@)
}

/// A call: the callee's name, then the arguments in brackets, on a line of
/// its own.
pub open spec fn call_python(call: CallExpression, levels: nat) -> Seq<Glyph>
    decreases call,
{
    indent(levels) + text(callee_text(call.callee)) + text("("@) + values_python(
        call.arguments@,
        call.arguments@.len(),
    ) + text(")\n"@)
}

/// The first `count` of the names, with a comma and a blank between each two.
pub open spec fn names_python(names: Seq<String>, count: nat) -> Seq<Glyph>
    decreases count,
{
    if count == 0 || count > names.len() {
        Seq::empty()
    } else if count == 1 {
        text(names[0]@)
    } else {
        names_python(names, (count - 1) as nat) + text(", "@) + text(names[count - 1]@)
    }
}

pub open spec fn assignment_python(assign: AssignmentExpression, levels: nat) -> Seq<Glyph> {
    indent(levels) + text(assign.left@) + text(" "@) + text(assignment_text(assign.operation))
        + text(" "@) + value_python(assign.right) + text("\n"@)
}

/// One level deeper, as far as levels can be counted.
pub open spec fn deeper(levels: usize) -> usize {
    if levels < usize::MAX {
        (levels + 1) as usize
    } else {
        levels
    }
}

/// An `IF`: the test after `if`, then the body one level deeper, then an
/// empty line.
pub open spec fn branch_python(branch: IfStatement, levels: usize) -> Seq<Glyph>
    decreases branch,
{
    indent(levels as nat) + text("if "@) + value_python(branch.test) + text(":\n"@)
        + statements_python(branch.consequent@, branch.consequent@.len(), deeper(levels)) + text(
        "\n"@,
    )
}

/// A `WHILE`: the test after `while`, then the body one level deeper, then
/// an empty line.
pub open spec fn loop_python(repeat: WhileStatement, levels: usize) -> Seq<Glyph>
    decreases repeat,
{
    indent(levels as nat) + text("while "@) + value_python(repeat.test) + text(":\n"@)
        + statements_python(repeat.body@, repeat.body@.len(), deeper(levels)) + text("\n"@)
}

/// A declaration: `def`, the name, the parameters in brackets, then the
/// body one level deeper, then an empty line. The first line is not
/// indented.
pub open spec fn declaration_python(declaration: ProcedureDeclaration, levels: usize) -> Seq<
    Glyph,
>
    decreases declaration,
{
    text("def "@) + text(declaration.name@) + text("("@) + names_python(
        declaration.arguments@,
        declaration.arguments@.len(),
    ) + text("):\n"@) + statements_python(
        declaration.body@,
        declaration.body@.len(),
        deeper(levels),
    ) + text("\n"@)
}

/// A statement in Python, `levels` deep in blocks.
pub open spec fn statement_python(statement: Statement, levels: usize) -> Seq<Glyph>
    decreases statement,
{
    match statement {
        Statement::CallExpression(call) => call_python(call, levels as nat),
        Statement::AssignmentExpression(assign) => assignment_python(assign, levels as nat),
        Statement::If(branch) => branch_python(branch, levels),
        Statement::While(repeat) => loop_python(repeat, levels),
        Statement::ProcedureDeclaration(declaration) => declaration_python(declaration, levels),
    }
}

/// The first `count` of the statements, one after the other.
pub open spec fn statements_python(statements: Seq<Statement>, count: nat, levels: usize) -> Seq<
    Glyph,
>
    decreases statements, count,
{
    if count == 0 || count > statements.len() {
        Seq::empty()
    } else {
        statements_python(statements, (count - 1) as nat, levels) + statement_python(
            statements[count - 1],
            levels,
        )
    }
}

/// Python text for a part of a program.
pub trait Translater {
    /// The text, place by place.
    spec fn python(&self, levels: usize) -> Seq<Glyph>;

    fn to_python(&self, _num_tab: usize) -> (python: Python)
        ensures
            python@ == self.python(_num_tab),
    ;
}

impl AssignmentType {
    pub fn to_string(&self) -> (word: String)
        ensures
            word@ == assignment_text(*self),
    {
        match self {
            AssignmentType::Make => String::from_str("="),
            AssignmentType::Addassign => String::from_str("+="),
        }
    }
}

impl CommandType {
    pub fn to_string(&self) -> (word: String)
        ensures
            word@ == command_text(*self),
    {
        match self {
            CommandType::Penup => String::from_str("penup"),
            CommandType::Forward => String::from_str("forward"),
            CommandType::Pendown => String::from_str("pendown"),
            CommandType::Back => String::from_str("back"),
            CommandType::Left => String::from_str("left"),
            CommandType::Right => String::from_str("right"),
            CommandType::Setheading => String::from_str("setheading"),
            CommandType::Setpencolor => String::from_str("setpencolor"),
            CommandType::Turn => String::from_str("turn"),
            CommandType::Setx => String::from_str("setx"),
            CommandType::Sety => String::from_str("sety"),
        }
    }
}

impl QueryType {
    pub fn to_string(&self) -> (word: String)
        ensures
            word@ == query_text(*self),
    {
        match self {
            QueryType::Xcor => String::from_str("xcor"),
            QueryType::Ycor => String::from_str("ycor"),
            QueryType::Heading => String::from_str("heading"),
            QueryType::Color => String::from_str("pendown"),
        }
    }
}

impl Callee {
    pub fn to_string(&self) -> (word: String)
        ensures
            word@ == callee_text(*self),
    {
        match self {
            Callee::Command(command) => command.to_string(),
            Callee::Query(query) => query.to_string(),
            Callee::Procedure(procedure) => procedure.clone(),
        }
    }
}

impl BinaryOperation {
    pub fn to_string(&self) -> (word: String)
        ensures
            word@ == operation_text(*self),
    {
        match self {
            BinaryOperation::Calculation(cal) => match cal {
                CalculationOperation::Plus => String::from_str("+"),
                CalculationOperation::Dash => String::from_str("-"),
                CalculationOperation::Star => String::from_str("*"),
                CalculationOperation::Slash => String::from_str("/"),
            },
            BinaryOperation::Logic(logic) => match logic {
                LogicalOperation::And => String::from_str("&&"),
                LogicalOperation::Or => String::from_str("||"),
                LogicalOperation::Eq => String::from_str("=="),
                LogicalOperation::Ne => String::from_str("!="),
                LogicalOperation::Lt => String::from_str("<"),
                LogicalOperation::Gt => String::from_str(">"),
            },
        }
    }
}

/// Appends the digits of a natural number.
fn write_nat(number: u64, digits: &mut String)
    ensures
        final(digits)@ == old(digits)@ + nat_text(number as nat),
    decreases number,
{
    if number >= 10 {
        write_nat(number / 10, digits);
    }
    let digit = ((number % 10) as u8 + 48) as char;
    digits.push(digit);
    proof {
        if number < 10 {
            assert(digits@ =~= old(digits)@ + nat_text(number as nat));
        } else {
            assert(digits@ =~= old(digits)@ + nat_text(number as nat));
        }
    }
}

impl ValueType {
    /// The decimal text of an integer.
    pub fn int_to_string(number: i32) -> (digits: String)
        ensures
            digits@ == int_text(number as int),
    {
        let mut digits = String::new();
        if number < 0 {
            digits.push('-');
            write_nat((-(number as i64)) as u64, &mut digits);
            assert(digits@ =~= int_text(number as int));
        } else {
            write_nat(number as u64, &mut digits);
            assert(digits@ =~= int_text(number as int));
        }
        digits
    }

    /// Appends the value as Python has it.
    pub fn write_python(&self, out: &mut Python)
        ensures
            final(out)@ == old(out)@ + literal_python(*self),
    {
        match self {
            ValueType::Int(number) => {
                let digits = ValueType::int_to_string(*number);
                out.push_str(digits.as_str());
            },
            ValueType::Float(number) => {
                out.push_float(*number);
            },
            ValueType::Bool(true) => {
                out.push_str("true");
            },
            ValueType::Bool(false) => {
                out.push_str("false");
            },
        }
    }
}

/// Appends `levels` times four blanks.
fn write_indent(levels: usize, out: &mut Python)
    ensures
        final(out)@ == old(out)@ + indent(levels as nat),
{
    let mut i: usize = 0;
    assert(out@ + indent(0) =~= out@);
    while i < levels
        invariant
            i <= levels,
            out@ == old(out)@ + indent(i as nat),
        decreases levels - i,
    {
        out.push_str("    ");
        i += 1;
        assert(out@ =~= old(out)@ + indent(i as nat));
    }
}

impl Value {
    /// Appends the expression in Python.
    pub fn write_python(&self, out: &mut Python)
        ensures
            final(out)@ == old(out)@ + value_python(*self),
        decreases *self,
    {
        match self {
            Value::Literal(literal) => {
                literal.write_python(out);
            },
            Value::Real(written) => {
                out.push_real(written);
            },
            Value::Identifier(IdentifierType::Variable(name)) => {
                out.push_str(name.as_str());
            },
            Value::Identifier(IdentifierType::Procedure(name)) => {
                out.push_str(name.as_str());
            },
            Value::Statement(call) => {
                call.write_python(0, out);
            },
            Value::BinaryExpression(binary) => {
                binary.write_python(out);
            },
        }
    }
}

impl BinaryExpression {
    /// Appends the expression in Python.
    pub fn write_python(&self, out: &mut Python)
        ensures
            final(out)@ == old(out)@ + binary_python(*self),
        decreases *self,
    {
        out.push_str("(");
        self.left.write_python(out);
        out.push_str(" ");
        let word = self.operation.to_string();
        out.push_str(word.as_str());
        out.push_str(" ");
        self.right.write_python(out);
        out.push_str(")");
        assert(out@ =~= old(out)@ + binary_python(*self));
    }
}

impl CallExpression {
    /// Appends the call in Python, `num_tab` deep in blocks.
    pub fn write_python(&self, num_tab: usize, out: &mut Python)
        ensures
            final(out)@ == old(out)@ + call_python(*self, num_tab as nat),
        decreases *self,
    {
        write_indent(num_tab, out);
        let word = self.callee.to_string();
        out.push_str(word.as_str());
        out.push_str("(");
        let ghost head = out@;
        let mut i: usize = 0;
        assert(out@ =~= head + values_python(self.arguments@, 0));
        while i < self.arguments.len()
            invariant
                i <= self.arguments@.len(),
                out@ == head + values_python(self.arguments@, i as nat),
            decreases self.arguments@.len() - i,
        {
            if i > 0 {
                out.push_str(", ");
            }
            self.arguments[i].write_python(out);
            i += 1;
            assert(out@ =~= head + values_python(self.arguments@, i as nat));
        }
        out.push_str(")\n");
        assert(out@ =~= old(out)@ + call_python(*self, num_tab as nat));
    }
}

/// The level one deeper.
fn next_level(num_tab: usize) -> (level: usize)
    ensures
        level == deeper(num_tab),
{
    if num_tab < usize::MAX {
        num_tab + 1
    } else {
        num_tab
    }
}

/// Appends the statements in Python, one after the other.
pub fn write_statements(statements: &Vec<Statement>, num_tab: usize, out: &mut Python)
    ensures
        final(out)@ == old(out)@ + statements_python(statements@, statements@.len(), num_tab),
    decreases *statements, 0nat,
{
    let mut i: usize = 0;
    assert(out@ =~= old(out)@ + statements_python(statements@, 0, num_tab));
    while i < statements.len()
        invariant
            i <= statements@.len(),
            out@ == old(out)@ + statements_python(statements@, i as nat, num_tab),
        decreases statements@.len() - i,
    {
        statements[i].write_python(num_tab, out);
        i += 1;
        assert(out@ =~= old(out)@ + statements_python(statements@, i as nat, num_tab));
    }
}

/// Appends the first line of a block, as far as the colon, and its body.
fn write_block(
    word: &str,
    test: &Value,
    body: &Vec<Statement>,
    num_tab: usize,
    out: &mut Python,
)
    ensures
        final(out)@ == old(out)@ + (indent(num_tab as nat) + text(word@) + value_python(*test)
            + text(":\n"@) + statements_python(body@, body@.len(), deeper(num_tab)) + text(
            "\n"@,
        )),
    decreases *body, 1nat,
{
    write_indent(num_tab, out);
    out.push_str(word);
    test.write_python(out);
    out.push_str(":\n");
    write_statements(body, next_level(num_tab), out);
    out.push_str("\n");
    assert(out@ =~= old(out)@ + (indent(num_tab as nat) + text(word@) + value_python(*test)
        + text(":\n"@) + statements_python(body@, body@.len(), deeper(num_tab)) + text("\n"@)));
}

/// Appends names with a comma and a blank between each two.
fn write_names(names: &Vec<String>, out: &mut Python)
    ensures
        final(out)@ == old(out)@ + names_python(names@, names@.len()),
{
    let mut i: usize = 0;
    assert(out@ =~= old(out)@ + names_python(names@, 0));
    while i < names.len()
        invariant
            i <= names@.len(),
            out@ == old(out)@ + names_python(names@, i as nat),
        decreases names@.len() - i,
    {
        if i > 0 {
            out.push_str(", ");
        }
        out.push_str(names[i].as_str());
        i += 1;
        assert(out@ =~= old(out)@ + names_python(names@, i as nat));
    }
}

impl AssignmentExpression {
    /// Appends the assignment in Python.
    pub fn write_python(&self, num_tab: usize, out: &mut Python)
        ensures
            final(out)@ == old(out)@ + assignment_python(*self, num_tab as nat),
    {
        write_indent(num_tab, out);
        out.push_str(self.left.as_str());
        out.push_str(" ");
        let word = self.operation.to_string();
        out.push_str(word.as_str());
        out.push_str(" ");
        self.right.write_python(out);
        out.push_str("\n");
        assert(out@ =~= old(out)@ + assignment_python(*self, num_tab as nat));
    }
}

impl IfStatement {
    /// Appends the statement in Python, `num_tab` deep in blocks.
    pub fn write_python(&self, num_tab: usize, out: &mut Python)
        ensures
            final(out)@ == old(out)@ + branch_python(*self, num_tab),
        decreases *self,
    {
        write_block("if ", &self.test, &self.consequent, num_tab, out);
    }
}

impl WhileStatement {
    /// Appends the statement in Python, `num_tab` deep in blocks.
    pub fn write_python(&self, num_tab: usize, out: &mut Python)
        ensures
            final(out)@ == old(out)@ + loop_python(*self, num_tab),
        decreases *self,
    {
        write_block("while ", &self.test, &self.body, num_tab, out);
    }
}

impl ProcedureDeclaration {
    /// Appends the declaration in Python; its body is `num_tab` and one
    /// deep in blocks.
    pub fn write_python(&self, num_tab: usize, out: &mut Python)
        ensures
            final(out)@ == old(out)@ + declaration_python(*self, num_tab),
        decreases *self,
    {
        out.push_str("def ");
        out.push_str(self.name.as_str());
        out.push_str("(");
        write_names(&self.arguments, out);
        out.push_str("):\n");
        write_statements(&self.body, next_level(num_tab), out);
        out.push_str("\n");
        assert(out@ =~= old(out)@ + declaration_python(*self, num_tab));
    }
}

impl Statement {
    /// Appends the statement in Python, `num_tab` deep in blocks.
    pub fn write_python(&self, num_tab: usize, out: &mut Python)
        ensures
            final(out)@ == old(out)@ + statement_python(*self, num_tab),
        decreases *self,
    {
        match self {
            Statement::CallExpression(call) => {
                call.write_python(num_tab, out);
            },
            Statement::AssignmentExpression(assign) => {
                assign.write_python(num_tab, out);
            },
            Statement::If(if_statement) => {
                if_statement.write_python(num_tab, out);
            },
            Statement::While(while_statement) => {
                while_statement.write_python(num_tab, out);
            },
            Statement::ProcedureDeclaration(procedure_declaration) => {
                procedure_declaration.write_python(num_tab, out);
            },
        }
    }
}

impl Translater for Statement {
    open spec fn python(&self, levels: usize) -> Seq<Glyph> {
        statement_python(*self, levels)
    }

    fn to_python(&self, _num_tab: usize) -> (python: Python) {
        let mut python = Python::new();
        self.write_python(_num_tab, &mut python);
        assert(Seq::<Glyph>::empty() + statement_python(*self, _num_tab) =~= statement_python(
            *self,
            _num_tab,
        ));
        python
    }
}

impl Translater for CallExpression {
    open spec fn python(&self, levels: usize) -> Seq<Glyph> {
        call_python(*self, levels as nat)
    }

    fn to_python(&self, _num_tab: usize) -> (python: Python) {
        let mut python = Python::new();
        self.write_python(_num_tab, &mut python);
        assert(Seq::<Glyph>::empty() + call_python(*self, _num_tab as nat) =~= call_python(
            *self,
            _num_tab as nat,
        ));
        python
    }
}

impl Translater for IfStatement {
    open spec fn python(&self, levels: usize) -> Seq<Glyph> {
        branch_python(*self, levels)
    }

    fn to_python(&self, _num_tab: usize) -> (python: Python) {
        let mut python = Python::new();
        self.write_python(_num_tab, &mut python);
        assert(Seq::<Glyph>::empty() + branch_python(*self, _num_tab) =~= branch_python(
            *self,
            _num_tab,
        ));
        python
    }
}

impl Translater for WhileStatement {
    open spec fn python(&self, levels: usize) -> Seq<Glyph> {
        loop_python(*self, levels)
    }

    fn to_python(&self, _num_tab: usize) -> (python: Python) {
        let mut python = Python::new();
        self.write_python(_num_tab, &mut python);
        assert(Seq::<Glyph>::empty() + loop_python(*self, _num_tab) =~= loop_python(
            *self,
            _num_tab,
        ));
        python
    }
}

impl Translater for BinaryExpression {
    open spec fn python(&self, levels: usize) -> Seq<Glyph> {
        binary_python(*self)
    }

    fn to_python(&self, _num_tab: usize) -> (python: Python) {
        let mut python = Python::new();
        self.write_python(&mut python);
        assert(Seq::<Glyph>::empty() + binary_python(*self) =~= binary_python(*self));
        python
    }
}

impl Translater for ProcedureDeclaration {
    open spec fn python(&self, levels: usize) -> Seq<Glyph> {
        declaration_python(*self, levels)
    }

    fn to_python(&self, _num_tab: usize) -> (python: Python) {
        let mut python = Python::new();
        self.write_python(_num_tab, &mut python);
        assert(Seq::<Glyph>::empty() + declaration_python(*self, _num_tab)
            =~= declaration_python(*self, _num_tab));
        python
    }
}

impl Translater for AssignmentExpression {
    open spec fn python(&self, levels: usize) -> Seq<Glyph> {
        assignment_python(*self, levels as nat)
    }

    fn to_python(&self, _num_tab: usize) -> (python: Python) {
        let mut python = Python::new();
        self.write_python(_num_tab, &mut python);
        assert(Seq::<Glyph>::empty() + assignment_python(*self, _num_tab as nat)
            =~= assignment_python(*self, _num_tab as nat));
        python
    }
}

} // verus!
