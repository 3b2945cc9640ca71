use vstd::prelude::*;

verus! {

/// Errors of the expression front end: a formula that does not parse,
/// an evaluation that fails, or an expression over variables the
/// context does not provide.
#[derive(Clone, Debug, PartialEq, Eq)]
pub enum ParserError {
    /// The formula text could not be parsed; carries the parser's message.
    ParseError(String),
    /// An evaluation failed; carries a description of the failure.
    EvalError(String),
    /// The parsed expression uses names outside the declared variables.
    InvalidExpression,
}

/// Guards an evaluation request: a point may be handed to the objective
/// evaluator only when its length equals the declared variable count;
/// a mismatched point is rejected as an evaluation error, never
/// truncated or padded.
pub fn check_point_dimension(point_len: usize, num_vars: usize) -> (r: Result<(), ParserError>)
    ensures
        r is Ok <==> point_len == num_vars,
        r is Err ==> r->Err_0 is EvalError,
{
    if point_len != num_vars {
        Err(ParserError::EvalError(String::from_str("point dimension does not match the variable count")))
    } else {
        Ok(())
    }
}

} // verus!
