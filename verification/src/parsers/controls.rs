//! Calls of built-in commands.

use vstd::prelude::*;
use crate::ast::{CallExpression, Callee, Statement, Value};
use crate::error::LogoError;
use crate::grammar::{arity, parse_command, statement_parsed};
use crate::tokens::{token_views, CommandType, TokenType};

verus! {

pub struct ControlsParser {}

impl ControlsParser {
    /// Reads a group that starts with a command.
    pub fn parse(&self, buf: &[TokenType]) -> (parsed: Result<Statement, LogoError>)
        ensures
            statement_parsed(parsed, parse_command(token_views(buf@))),
    {
        ControlsParser::parse_controls(buf)
    }

    fn parse_controls(buf: &[TokenType]) -> (parsed: Result<Statement, LogoError>)
        ensures
            statement_parsed(parsed, parse_command(token_views(buf@))),
    {
        if buf.len() == 0 {
            return Err(LogoError::SyntaxError);
        }
        let command = match buf[0].expect_command() {
            Some(command) => command,
            None => {
                return Err(LogoError::SyntaxError);
            },
        };
        let args = match Value::parse_all(buf, 1) {
            Ok(args) => args,
            Err(error) => {
                return Err(error);
            },
        };
        if ControlsParser::args_check(&command, &args) {
            let callee = Callee::Command(command);
            Ok(Statement::CallExpression(CallExpression::new(callee, args)))
        } else {
            Err(LogoError::SyntaxError)
        }
    }

    /// Whether a command is given as many arguments as it takes.
    fn args_check(command: &CommandType, args: &Vec<Value>) -> (fits: bool)
        ensures
            fits == (args@.len() == arity(*command)),
    {
        match command {
            CommandType::Penup | CommandType::Pendown => args.len() == 0,
            _ => args.len() == 1,
        }
    }
}

} // verus!
