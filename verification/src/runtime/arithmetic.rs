//! Instructions that apply a binary operator to two operands and write the
//! result to a variable.
use super::error::RuntimeError;
use super::operators::ArithmeticOperator;
use super::scope::Scope;
use super::scope::SpecScope;
use super::variable::get;
use super::variable::spec_get;
use super::variable::spec_store;
use super::variable::spec_value_of;
use super::variable::store;
use super::variable::value_of;
use crate::data_type::data::calculate;
use crate::data_type::data::relate;
use crate::data_type::Data;
use crate::data_type::FloatRequest;
use crate::data_type::Operator;
use crate::data_type::Outcome;
use crate::data_type::SpecData;
use crate::data_type::SpecStoredValue;
use crate::data_type::SpecValueKind;
use crate::data_type::StoredValue;
use crate::data_type::ValueKind;
use vstd::prelude::*;

verus! {

/// What an operator instruction did.
pub enum Applied {
    /// The result was written to the destination.
    Stored,
    /// Nothing was written yet: the destination is to receive the float
    /// unit's answer to the request.
    Deferred(FloatRequest),
}

/// What an operator instruction did, with the two scopes (local first) as it
/// left them.
pub open spec fn applied_as(
    applied: Result<Applied, RuntimeError>,
    local: SpecScope,
    global: SpecScope,
) -> Result<(Option<FloatRequest>, SpecScope, SpecScope), RuntimeError> {
    match applied {
        Ok(Applied::Stored) => Ok((None, local, global)),
        Ok(Applied::Deferred(request)) => Ok((Some(request), local, global)),
        Err(error) => Err(error),
    }
}

/// The result of an operator of either family, a comparison's as a boolean
/// value.
pub open spec fn evaluate(operator: Operator, lhs: SpecData, rhs: SpecData) -> Outcome<SpecData> {
    match operator {
        Operator::Arithmetic(operator) => calculate(operator, lhs, rhs),
        Operator::Relational(operator) => match relate(operator, lhs, rhs) {
            Outcome::Done(truth) => Outcome::Done(SpecData::Boolean(truth)),
            Outcome::Deferred(request) => Outcome::Deferred(request),
            Outcome::Unsupported => Outcome::Unsupported,
        },
    }
}

/// The variable that an instruction's result goes to.
pub open spec fn spec_destination(
    avalue: SpecValueKind,
    local: SpecScope,
    global: SpecScope,
) -> Result<Seq<char>, RuntimeError> {
    match avalue {
        SpecValueKind::Literal(_) => Err(RuntimeError::InvalidDestination),
        SpecValueKind::Variable(name) => match spec_get(name, local, global) {
            Ok(_) => Ok(name),
            Err(error) => Err(error),
        },
    }
}

/// What an operator instruction does to the two scopes (local first). The
/// operands are read left to right, then the operator is applied, then the
/// destination is looked at; the first of these that fails decides the error.
/// Where the float unit must compute, the scopes stay as they are.
pub open spec fn spec_apply(
    operator: Operator,
    lvalue: SpecValueKind,
    rvalue: SpecValueKind,
    avalue: SpecValueKind,
    local: SpecScope,
    global: SpecScope,
) -> Result<(Option<FloatRequest>, SpecScope, SpecScope), RuntimeError> {
    match spec_value_of(lvalue, local, global) {
        Err(error) => Err(error),
        Ok(lhs) => match spec_value_of(rvalue, local, global) {
            Err(error) => Err(error),
            Ok(rhs) => match evaluate(operator, lhs, rhs) {
                Outcome::Unsupported => Err(RuntimeError::UnsupportedOperation),
                Outcome::Deferred(request) => match spec_destination(avalue, local, global) {
                    Err(error) => Err(error),
                    Ok(_) => Ok((Some(request), local, global)),
                },
                Outcome::Done(result) => match spec_destination(avalue, local, global) {
                    Err(error) => Err(error),
                    Ok(name) => match spec_store(
                        name,
                        SpecStoredValue::Value(result),
                        local,
                        global,
                    ) {
                        Err(error) => Err(error),
                        Ok((local, global)) => Ok((None, local, global)),
                    },
                },
            },
        },
    }
}

/// What the answer of the float unit to a request of `operator` does to the
/// two scopes (local first): an arithmetic answer must be a float, a
/// relational answer a boolean, and it is written to `destination`.
pub open spec fn spec_complete(
    operator: Operator,
    destination: Seq<char>,
    answer: SpecData,
    local: SpecScope,
    global: SpecScope,
) -> Result<(SpecScope, SpecScope), RuntimeError> {
    let fitting = match operator {
        Operator::Arithmetic(_) => answer is Float,
        Operator::Relational(_) => answer is Boolean,
    };
    if fitting {
        spec_store(destination, SpecStoredValue::Value(answer), local, global)
    } else {
        Err(RuntimeError::TypeMismatch)
    }
}

/// The result of an operator of either family.
pub fn compute(operator: Operator, lhs: &Data, rhs: &Data) -> (outcome: Outcome<Data>)
    ensures
        outcome.deep_view() == evaluate(operator, lhs@, rhs@),
{
    match operator {
        Operator::Arithmetic(operator) => lhs.calculate(operator, rhs),
        Operator::Relational(operator) => match lhs.relate(operator, rhs) {
            Outcome::Done(truth) => Outcome::Done(Data::Boolean(truth)),
            Outcome::Deferred(request) => Outcome::Deferred(request),
            Outcome::Unsupported => Outcome::Unsupported,
        },
    }
}

/// The variable that an instruction's result goes to.
pub fn destination<'a>(avalue: &'a ValueKind, local_scope: &Scope, global_scope: &Scope) -> (name:
    Result<&'a String, RuntimeError>)
    ensures
        spec_destination(avalue@, local_scope@, global_scope@) == match name {
            Ok(name) => Ok(name@),
            Err(error) => Err(error),
        },
{
    match avalue {
        ValueKind::Literal(_) => Err(RuntimeError::InvalidDestination),
        ValueKind::Variable(name) => match get(name.as_str(), local_scope, global_scope) {
            Ok(_) => Ok(name),
            Err(error) => Err(error),
        },
    }
}

/// Applies `operator` to the values of `lvalue` and `rvalue` and writes the
/// result to the variable `avalue`, or says what the float unit is to
/// compute for it. On an error nothing is written.
pub fn apply(
    operator: Operator,
    lvalue: &ValueKind,
    rvalue: &ValueKind,
    avalue: &ValueKind,
    local_scope: &mut Scope,
    global_scope: &mut Scope,
) -> (applied: Result<Applied, RuntimeError>)
    ensures
        spec_apply(
            operator,
            lvalue@,
            rvalue@,
            avalue@,
            old(local_scope)@,
            old(global_scope)@,
        ) == applied_as(applied, final(local_scope)@, final(global_scope)@),
        !(applied matches Ok(Applied::Stored)) ==> final(local_scope)@ == old(local_scope)@
            && final(global_scope)@ == old(global_scope)@,
{
    let lhs = match value_of(lvalue, local_scope, global_scope) {
        Ok(lhs) => lhs,
        Err(error) => return Err(error),
    };
    let rhs = match value_of(rvalue, local_scope, global_scope) {
        Ok(rhs) => rhs,
        Err(error) => return Err(error),
    };
    match compute(operator, &lhs, &rhs) {
        Outcome::Unsupported => Err(RuntimeError::UnsupportedOperation),
        Outcome::Deferred(request) => match destination(avalue, local_scope, global_scope) {
            Err(error) => Err(error),
            Ok(_) => Ok(Applied::Deferred(request)),
        },
        Outcome::Done(result) => match destination(avalue, local_scope, global_scope) {
            Err(error) => Err(error),
            Ok(name) => match store(
                name.as_str(),
                StoredValue::Value(result),
                local_scope,
                global_scope,
            ) {
                Err(error) => Err(error),
                Ok(()) => Ok(Applied::Stored),
            },
        },
    }
}

/// Writes the float unit's answer to a request of `operator` to the variable
/// `destination`. On an error nothing is written.
pub fn complete(
    operator: Operator,
    destination: &str,
    answer: Data,
    local_scope: &mut Scope,
    global_scope: &mut Scope,
) -> (done: Result<(), RuntimeError>)
    ensures
        spec_complete(operator, destination@, answer@, old(local_scope)@, old(global_scope)@)
            == match done {
            Ok(()) => Ok((final(local_scope)@, final(global_scope)@)),
            Err(error) => Err(error),
        },
        done is Err ==> final(local_scope)@ == old(local_scope)@ && final(global_scope)@ == old(
            global_scope,
        )@,
{
    let fitting = match operator {
        Operator::Arithmetic(_) => matches!(answer, Data::Float(_)),
        Operator::Relational(_) => matches!(answer, Data::Boolean(_)),
    };
    if fitting {
        store(destination, StoredValue::Value(answer), local_scope, global_scope)
    } else {
        Err(RuntimeError::TypeMismatch)
    }
}

/// Runs an arithmetic instruction: `avalue = lvalue operator rvalue`.
pub fn operation(
    lvalue: &ValueKind,
    rvalue: &ValueKind,
    avalue: &ValueKind,
    operator: &ArithmeticOperator,
    local_scope: &mut Scope,
    global_scope: &mut Scope,
) -> (applied: Result<Applied, RuntimeError>)
    ensures
        spec_apply(
            Operator::Arithmetic(*operator),
            lvalue@,
            rvalue@,
            avalue@,
            old(local_scope)@,
            old(global_scope)@,
        ) == applied_as(applied, final(local_scope)@, final(global_scope)@),
        !(applied matches Ok(Applied::Stored)) ==> final(local_scope)@ == old(local_scope)@
            && final(global_scope)@ == old(global_scope)@,
{
    apply(Operator::Arithmetic(*operator), lvalue, rvalue, avalue, local_scope, global_scope)
}

} // verus!
