//! The expression evaluator the session consumes, and what it is trusted
//! with.

use crate::text::{chars_of, occurs, occurs_in};
use evalexpr::{eval_with_context_mut, HashMapContext};
use vstd::prelude::*;

verus! {

/// The variables that assignments in earlier expressions have bound.
///
/// Trusted: holds an `evalexpr::HashMapContext`, of which the verifier sees
/// nothing. The session only carries it from one evaluation to the next and
/// replaces it when the history is cleared.
#[verifier::external_body]
pub struct EvaluationContext {
    inner: HashMapContext,
}

/// The names of the variables bound in a context.
pub uninterp spec fn variable_names(context: EvaluationContext) -> Set<Seq<char>>;

/// The longest expression that goes to the evaluator, in characters.
/// Evaluation recurses once for each level of nesting, and an expression
/// cannot nest deeper than it is long.
pub const MAX_EXPRESSION_LENGTH: usize = 512;

/// Whether the session hands `expression` to the evaluator.
///
/// On some inputs the evaluator panics or exhausts the stack instead of
/// returning an error, and the session keeps those from it. It recurses
/// without a bound on long expressions. Its `str::substring` slices by byte
/// offsets, which fails inside a character. Its `math::abs`, `shl` and
/// `shr` use integer operations that fail on overflow where the build
/// checks for it. A comment in the middle of a name is skipped, so that a
/// comment could spell any of these names in pieces.
pub open spec fn admissible(expression: Seq<char>) -> bool {
    &&& expression.len() <= MAX_EXPRESSION_LENGTH
    &&& !occurs_in("//"@, expression)
    &&& !occurs_in("/*"@, expression)
    &&& !occurs_in("str::substring"@, expression)
    &&& !occurs_in("math::abs"@, expression)
    &&& !occurs_in("shl"@, expression)
    &&& !occurs_in("shr"@, expression)
}

/// The message recorded for an expression that is not admissible.
pub open spec fn refusal() -> Seq<char> {
    "expression not supported"@
}

/// Decides whether the session hands `expression` to the evaluator.
pub fn is_admissible(expression: &str) -> (ok: bool)
    ensures
        ok == admissible(expression@),
{
    let text = chars_of(expression);
    if text.len() > MAX_EXPRESSION_LENGTH {
        return false;
    }
    if occurs(&chars_of("//"), &text) || occurs(&chars_of("/*"), &text) {
        return false;
    }
    if occurs(&chars_of("str::substring"), &text) || occurs(&chars_of("math::abs"), &text) {
        return false;
    }
    !occurs(&chars_of("shl"), &text) && !occurs(&chars_of("shr"), &text)
}

/// The message recorded for an expression that is not admissible.
pub fn refusal_message() -> (message: String)
    ensures
        message@ == refusal(),
{
    "expression not supported".to_owned()
}

/// Trusted: `evalexpr::HashMapContext::new`, which constructs a context with
/// no mappings. The contract claims that no variable name is bound in it.
#[verifier::external_body]
pub(crate) fn fresh_context() -> (context: EvaluationContext)
    ensures
        variable_names(context) == Set::<Seq<char>>::empty(),
{
    EvaluationContext { inner: HashMapContext::new() }
}

/// Trusted: `evalexpr::eval_with_context_mut`, with the value or the error
/// it returns rendered by its `Display` impl.
///
/// The value depends on the bindings in `context` and on the machine's
/// floating-point library, and an assignment may rebind variables even
/// when a later part of the expression fails. So the contract claims
/// nothing of the outcome nor of the context afterwards; it only keeps
/// away the expressions on which the call may fail to return.
#[verifier::external_body]
pub(crate) fn evaluate(expression: &str, context: &mut EvaluationContext) -> (outcome: Result<
    String,
    String,
>)
    requires
        admissible(expression@),
{
    match eval_with_context_mut(expression, &mut context.inner) {
        Ok(value) => Ok(value.to_string()),
        Err(error) => Err(error.to_string()),
    }
}

} // verus!
