//! Expressions with operators, which stand before their two operands.

use vstd::prelude::*;
use crate::ast::{BinaryExpression, BinaryOperation, TestType, Value};
use crate::error::LogoError;
use crate::grammar::{parse_binary, parse_value, token_operation, value_parsed};
use crate::tokens::{token_views, TokenType};

verus! {

pub struct BinaryParser {}

impl BinaryParser {
    /// Reads the one expression at the start of `buf`. What follows it is not
    /// read.
    pub fn parse(buf: &[TokenType]) -> (parsed: Result<TestType, LogoError>)
        ensures
            value_parsed(
                parsed,
                match parse_value(token_views(buf@), 0) {
                    Some((value, _)) => Some(value),
                    None => None,
                },
            ),
    {
        match Value::parse_one(buf, 0) {
            Ok((value, _)) => Ok(value),
            Err(error) => Err(error),
        }
    }

    /// Reads the two operands of `first` from `buf[at]` on, where `first` is
    /// an operator; gives `None` where it is not.
    pub fn _parse(first: &TokenType, buf: &[TokenType], at: usize) -> (parsed: Result<
        Option<(BinaryExpression, usize)>,
        LogoError,
    >)
        requires
            at <= buf@.len(),
        ensures
            match parsed {
                Ok(Some((binary, next))) => {
                    &&& token_operation(first@) is Some
                    &&& parse_binary(
                        token_views(buf@),
                        token_operation(first@)->0,
                        at as int,
                    ) == Some((binary@, next as int))
                    &&& at < next <= buf@.len()
                },
                Ok(None) => token_operation(first@) is None,
                Err(error) => {
                    &&& error == LogoError::SyntaxError
                    &&& token_operation(first@) is Some
                    &&& parse_binary(token_views(buf@), token_operation(first@)->0, at as int)
                        is None
                },
            },
        decreases buf@.len() - at, 1nat,
    {
        let operation = match first {
            TokenType::Logic(logic) => BinaryOperation::Logic(*logic),
            TokenType::Calculation(calculation) => BinaryOperation::Calculation(*calculation),
            _ => {
                return Ok(None);
            },
        };
        let (left, middle) = match Value::parse_one(buf, at) {
            Ok(pair) => pair,
            Err(error) => {
                return Err(error);
            },
        };
        let (right, next) = match Value::parse_one(buf, middle) {
            Ok(pair) => pair,
            Err(error) => {
                return Err(error);
            },
        };
        Ok(Some((BinaryExpression { operation, left, right }, next)))
    }
}

} // verus!
