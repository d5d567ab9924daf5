//! The comparison instruction.
use super::arithmetic::applied_as;
use super::arithmetic::apply;
use super::arithmetic::spec_apply;
use super::arithmetic::Applied;
use super::error::RuntimeError;
use super::operators::RelationalOperator;
use super::scope::Scope;
use crate::data_type::Operator;
use crate::data_type::ValueKind;
use vstd::prelude::*;

verus! {

/// Runs a comparison instruction: `avalue = lvalue comparision_type rvalue`,
/// a boolean.
pub fn compare(
    comparision_type: &RelationalOperator,
    lvalue: &ValueKind,
    rvalue: &ValueKind,
    avalue: &ValueKind,
    local_scope: &mut Scope,
    global_scope: &mut Scope,
) -> (applied: Result<Applied, RuntimeError>)
    ensures
        spec_apply(
            Operator::Relational(*comparision_type),
            lvalue@,
            rvalue@,
            avalue@,
            old(local_scope)@,
            old(global_scope)@,
        ) == applied_as(applied, final(local_scope)@, final(global_scope)@),
        !(applied matches Ok(Applied::Stored)) ==> final(local_scope)@ == old(local_scope)@
            && final(global_scope)@ == old(global_scope)@,
{
    apply(
        Operator::Relational(*comparision_type),
        lvalue,
        rvalue,
        avalue,
        local_scope,
        global_scope,
    )
}

} // verus!
