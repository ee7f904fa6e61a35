//! The start address of a run, given as an arithmetic expression over the
//! layout of the address space.
//!
//! The expression is evaluated by `evalexpr`, over the variables `ram`,
//! `ram_size`, `rom` and `rom_size`; what comes back is then held to the
//! range of an address.

use vstd::prelude::*;
use vstd::string::StrSliceExecFns;

use crate::memory::constant::{PROGRAM_ROM_SIZE, PROGRAM_ROM_START, RAM_SIZE, RAM_START};
use crate::memory::Address;

verus! {

/// `evalexpr::EvalexprError`, the error of the evaluator: carried through,
/// never looked into.
#[verifier::external_type_specification]
#[verifier::external_body]
pub struct ExEvalexprError(evalexpr::EvalexprError);

/// `evalexpr::HashMapContext`, the variables that an expression may name.
#[verifier::external_type_specification]
#[verifier::external_body]
pub struct ExHashMapContext(evalexpr::HashMapContext);

/// The integer variables that a context holds, by name.
pub uninterp spec fn variables(context: evalexpr::HashMapContext) -> Map<Seq<char>, int>;

/// Whether a context holds integers alone: no variable of another type,
/// and no function.
pub uninterp spec fn integral(context: evalexpr::HashMapContext) -> bool;

/// The integer that `expression` evaluates to in a context that holds the
/// integer variables `variables` and nothing else; `None` where the
/// evaluation fails or yields no integer.
pub uninterp spec fn evaluation(expression: Seq<char>, variables: Map<Seq<char>, int>) -> Option<
    int,
>;

/// The longest expression that is handed to the evaluator.
pub const EXPRESSION_LIMIT: usize = 256;

/// Whether `character` may stand in an address expression: a letter, a
/// digit, an underscore, a space, a bracket or a sign of arithmetic.
pub open spec fn permitted(character: char) -> bool {
    ||| 'a' <= character <= 'z'
    ||| 'A' <= character <= 'Z'
    ||| '0' <= character <= '9'
    ||| character == '_'
    ||| character == ' '
    ||| character == '('
    ||| character == ')'
    ||| character == '+'
    ||| character == '-'
    ||| character == '*'
    ||| character == '/'
    ||| character == '%'
}

/// Whether `expression` is handed to the evaluator: it is no longer than
/// the limit and made of permitted characters alone.
pub open spec fn supported(expression: Seq<char>) -> bool {
    &&& expression.len() <= EXPRESSION_LIMIT
    &&& forall|i: int| 0 <= i < expression.len() ==> permitted(#[trigger] expression[i])
}

/// No variables at all.
pub open spec fn nothing() -> Map<Seq<char>, int> {
    Map::empty()
}

/// The variables that an address expression may name.
pub open spec fn layout() -> Map<Seq<char>, int> {
    nothing().insert("ram"@, RAM_START as int).insert(
        "ram_size"@,
        RAM_SIZE as int,
    ).insert("rom"@, PROGRAM_ROM_START as int).insert("rom_size"@, PROGRAM_ROM_SIZE as int)
}

/// `evalexpr::HashMapContext::new`: a context that holds no variable and
/// no function.
#[verifier::external_body]
fn empty_context() -> (context: evalexpr::HashMapContext)
    ensures
        variables(context) == nothing(),
        integral(context),
{
    evalexpr::HashMapContext::new()
}

/// `evalexpr::ContextWithMutableVariables::set_value` on a
/// `HashMapContext`, with an integer. Setting a value fails only where a
/// value of another type sits under the name already: in a context that
/// holds integers alone it succeeds, the context then holds `value` under
/// `name`, is otherwise as before, and still holds integers alone.
#[verifier::external_body]
fn define(context: &mut evalexpr::HashMapContext, name: &str, value: i64) -> (result: Result<
    (),
    evalexpr::EvalexprError,
>)
    requires
        integral(*old(context)),
    ensures
        result is Ok,
        integral(*final(context)),
        variables(*final(context)) == variables(*old(context)).insert(name@, value as int),
{
    evalexpr::ContextWithMutableVariables::set_value(
        context,
        name.to_string(),
        evalexpr::Value::Int(value),
    )
}

/// `evalexpr::eval_int_with_context`: the integer that the expression
/// evaluates to, or the evaluator's error. In a context that holds
/// integers alone, the outcome depends on the expression and on those
/// integers, and on nothing else: a context may also hold values of other
/// types and functions, which an expression could reach, so only a
/// context without them is handed over.
///
/// Only supported expressions are handed over: without a comma there is
/// no tuple, hence no shift by an amount out of range; without a colon
/// and a hat, no function of floating point whose precision is left open;
/// and the nesting is no deeper than the expression is long.
#[verifier::external_body]
fn evaluate(expression: &str, context: &evalexpr::HashMapContext) -> (result: Result<
    i64,
    evalexpr::EvalexprError,
>)
    requires
        supported(expression@),
        integral(*context),
    ensures
        match result {
            Ok(value) => evaluation(expression@, variables(*context)) == Some(value as int),
            Err(_) => evaluation(expression@, variables(*context)) is None,
        },
{
    evalexpr::eval_int_with_context(expression, context)
}

/// Why an expression gives no start address.
#[derive(Debug)]
pub enum AddressExprError {
    /// The expression evaluates to an integer that is no address.
    AddressOutOfRange { address: i64 },
    /// The evaluator rejected the expression.
    AddressExpressionError(evalexpr::EvalexprError),
    /// The expression is too long, or holds a character that no address
    /// expression needs; it was not evaluated.
    UnsupportedExpression,
}

/// Whether `character` may stand in an address expression.
pub fn is_permitted(character: char) -> (permitted: bool)
    ensures
        permitted == self::permitted(character),
{
    ('a' <= character && character <= 'z') || ('A' <= character && character <= 'Z') || ('0'
        <= character && character <= '9') || character == '_' || character == ' ' || character
        == '(' || character == ')' || character == '+' || character == '-' || character == '*'
        || character == '/' || character == '%'
}

/// Whether `expression` is handed to the evaluator.
pub fn is_supported(expression: &str) -> (supported: bool)
    ensures
        supported == self::supported(expression@),
{
    let length = expression.unicode_len();
    if length > EXPRESSION_LIMIT {
        return false;
    }
    let mut index: usize = 0;
    while index < length
        invariant
            index <= length == expression@.len(),
            forall|i: int| 0 <= i < index ==> permitted(#[trigger] expression@[i]),
        decreases length - index,
    {
        if !is_permitted(expression.get_char(index)) {
            return false;
        }
        index += 1;
    }
    true
}

/// Holds what the evaluator returned to the range of an address: an
/// integer from 0 to 0xFFFF is that address, any other integer is out of
/// range, and the evaluator's error is handed on.
pub fn address_of(evaluated: Result<i64, evalexpr::EvalexprError>) -> (result: Result<
    Address,
    AddressExprError,
>)
    ensures
        match evaluated {
            Ok(value) => if 0 <= value <= Address::MAX {
                result == Ok::<Address, AddressExprError>(value as Address)
            } else {
                result matches Err(AddressExprError::AddressOutOfRange { address })
                    && address == value
            },
            Err(error) => result matches Err(AddressExprError::AddressExpressionError(inner))
                && inner == error,
        },
{
    match evaluated {
        Ok(value) => match Address::try_from(value) {
            Ok(address) => Ok(address),
            Err(_) => Err(AddressExprError::AddressOutOfRange { address: value }),
        },
        Err(error) => Err(AddressExprError::AddressExpressionError(error)),
    }
}

/// The start address that an evaluation gives: an integer from 0 to
/// 0xFFFF is that address, any other integer is out of range, and no
/// integer is the evaluator's rejection.
pub open spec fn owed(evaluated: Option<int>, result: Result<Address, AddressExprError>) -> bool {
    match evaluated {
        Some(value) => if 0 <= value <= Address::MAX {
            result == Ok::<Address, AddressExprError>(value as Address)
        } else {
            result matches Err(AddressExprError::AddressOutOfRange { address }) && address
                == value
        },
        None => result matches Err(AddressExprError::AddressExpressionError(_)),
    }
}

/// Evaluates `expression` to a start address.
///
/// An expression that is not supported is refused without being
/// evaluated. A supported expression is evaluated over the layout of the
/// address space: where that gives an integer from 0 to 0xFFFF, the
/// result is that address; where it gives another integer, the address is
/// out of range; where it gives none, the evaluator's error is handed on.
pub fn eval_address_expression(expression: &str) -> (result: Result<Address, AddressExprError>)
    ensures
        !supported(expression@) ==> result matches Err(AddressExprError::UnsupportedExpression),
        supported(expression@) ==> owed(evaluation(expression@, layout()), result),
{
    if !is_supported(expression) {
        return Err(AddressExprError::UnsupportedExpression);
    }
    let mut context = empty_context();
    match define(&mut context, "ram", RAM_START as i64) {
        Err(error) => {
            return Err(AddressExprError::AddressExpressionError(error));
        },
        Ok(_) => {},
    }
    match define(&mut context, "ram_size", RAM_SIZE as i64) {
        Err(error) => {
            return Err(AddressExprError::AddressExpressionError(error));
        },
        Ok(_) => {},
    }
    match define(&mut context, "rom", PROGRAM_ROM_START as i64) {
        Err(error) => {
            return Err(AddressExprError::AddressExpressionError(error));
        },
        Ok(_) => {},
    }
    match define(&mut context, "rom_size", PROGRAM_ROM_SIZE as i64) {
        Err(error) => {
            return Err(AddressExprError::AddressExpressionError(error));
        },
        Ok(_) => {},
    }
    address_of(evaluate(expression, &context))
}

} // verus!
