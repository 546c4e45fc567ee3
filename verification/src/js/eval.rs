//! The evaluation of an expression: the script that is run for it, and
//! what its rendering means.

use vstd::prelude::*;
use vstd::string::StringExecFns;

verus! {

/// What the script of an expression returns in place of a rendering when
/// the expression's value is a promise.
pub const ASYNC_EXPR_SENTINEL: &'static str = "__PNEUMA_ASYNC_EXPR__";

/// Why an expression has no rendering.
#[derive(Debug, Clone, Copy, PartialEq, Eq, Structural)]
pub enum EvalError {
    /// The expression's value is a promise.
    AsyncExpression,
}

impl EvalError {
    /// The error in words.
    pub fn message(&self) -> (r: &'static str)
        ensures
            r@ == "async expressions are not supported yet"@,
    {
        "async expressions are not supported yet"
    }
}

/// The script's text before the expression.
pub open spec fn script_head() -> Seq<char> {
    "(function() { let __pneuma_value = ("@
}

/// The script's text after the expression.
pub open spec fn script_tail() -> Seq<char> {
    "); let __pneuma_is_async = __pneuma_value !== null && (typeof __pneuma_value === 'object' || typeof __pneuma_value === 'function') && typeof __pneuma_value.then === 'function'; if (__pneuma_is_async) { return '__PNEUMA_ASYNC_EXPR__'; } let __pneuma_json = JSON.stringify(__pneuma_value); return __pneuma_json === undefined ? String(__pneuma_value) : __pneuma_json; })()"@
}

/// The script that evaluates an expression and renders its value as JSON,
/// or as a string where JSON has no form for it. For a promise it returns
/// the sentinel.
pub fn wrap_expression(expression: &str) -> (r: String)
    ensures
        r@ == script_head() + expression@ + script_tail(),
{
    let mut script = "(function() { let __pneuma_value = (".to_owned();
    script.append(expression);
    script.append(
        "); let __pneuma_is_async = __pneuma_value !== null && (typeof __pneuma_value === 'object' || typeof __pneuma_value === 'function') && typeof __pneuma_value.then === 'function'; if (__pneuma_is_async) { return '__PNEUMA_ASYNC_EXPR__'; } let __pneuma_json = JSON.stringify(__pneuma_value); return __pneuma_json === undefined ? String(__pneuma_value) : __pneuma_json; })()",
    );
    script
}

/// What the rendering that a script returned means: the sentinel tells a
/// promise, which is an error; any other rendering is the result.
pub fn eval_outcome(rendered: String) -> (r: Result<String, EvalError>)
    ensures
        match r {
            Ok(text) => text == rendered && rendered@ != ASYNC_EXPR_SENTINEL@,
            Err(error) => error == EvalError::AsyncExpression && rendered@
                == ASYNC_EXPR_SENTINEL@,
        },
{
    let sentinel = ASYNC_EXPR_SENTINEL.to_owned();
    if rendered == sentinel {
        Err(EvalError::AsyncExpression)
    } else {
        Ok(rendered)
    }
}

} // verus!
