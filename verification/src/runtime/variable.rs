//! Reading and writing variables through the two scopes. The local scope
//! shadows the global one: a name that the local scope has is never looked
//! up in the global scope.
use super::error::RuntimeError;
use super::scope::Scope;
use super::scope::SpecScope;
use crate::data_type::Data;
use crate::data_type::SpecData;
use crate::data_type::SpecStoredValue;
use crate::data_type::SpecValueKind;
use crate::data_type::StoredValue;
use crate::data_type::Type;
use crate::data_type::ValueKind;
use vstd::prelude::*;

verus! {

/// The slot that `name` refers to.
pub open spec fn spec_get(name: Seq<char>, local: SpecScope, global: SpecScope) -> Result<
    SpecStoredValue,
    RuntimeError,
> {
    if local.contains_key(name) {
        Ok(local[name])
    } else if global.contains_key(name) {
        Ok(global[name])
    } else {
        Err(RuntimeError::UndefinedVariable)
    }
}

/// The value of the variable `name`.
pub open spec fn spec_resolve(name: Seq<char>, local: SpecScope, global: SpecScope) -> Result<
    SpecData,
    RuntimeError,
> {
    match spec_get(name, local, global) {
        Ok(SpecStoredValue::Value(data)) => Ok(data),
        Ok(SpecStoredValue::Null(_)) => Err(RuntimeError::UninitializedVariable),
        Err(error) => Err(error),
    }
}

/// The value of an operand: the literal itself, or the value of the variable.
pub open spec fn spec_value_of(operand: SpecValueKind, local: SpecScope, global: SpecScope) -> Result<
    SpecData,
    RuntimeError,
> {
    match operand {
        SpecValueKind::Literal(data) => Ok(data),
        SpecValueKind::Variable(name) => spec_resolve(name, local, global),
    }
}

/// The two scopes, local first, after `slot` was written to the variable
/// `name` in the scope that holds it.
pub open spec fn spec_store(
    name: Seq<char>,
    slot: SpecStoredValue,
    local: SpecScope,
    global: SpecScope,
) -> Result<(SpecScope, SpecScope), RuntimeError> {
    if local.contains_key(name) {
        Ok((local.insert(name, slot), global))
    } else if global.contains_key(name) {
        Ok((local, global.insert(name, slot)))
    } else {
        Err(RuntimeError::UndefinedVariable)
    }
}

/// The two scopes, local first, after the value of `set_to` was assigned to
/// the variable `variable`.
pub open spec fn spec_set_variable(
    variable: Seq<char>,
    set_to: SpecValueKind,
    local: SpecScope,
    global: SpecScope,
) -> Result<(SpecScope, SpecScope), RuntimeError> {
    match spec_value_of(set_to, local, global) {
        Ok(data) => spec_store(variable, SpecStoredValue::Value(data), local, global),
        Err(error) => Err(error),
    }
}

/// A variable of the local scope hides a global variable of the same name,
/// whatever the two hold.
pub proof fn lemma_local_shadows_global(name: Seq<char>, local: SpecScope, global: SpecScope)
    requires
        local.contains_key(name),
    ensures
        spec_get(name, local, global) == Ok::<SpecStoredValue, RuntimeError>(local[name]),
        forall|other: SpecScope| spec_resolve(name, local, other) == spec_resolve(name, local, global),
{
}

/// A write to a variable that the local scope has leaves the global scope
/// as it is.
pub proof fn lemma_store_prefers_local(
    name: Seq<char>,
    slot: SpecStoredValue,
    local: SpecScope,
    global: SpecScope,
)
    requires
        local.contains_key(name),
    ensures
        spec_store(name, slot, local, global) == Ok::<(SpecScope, SpecScope), RuntimeError>(
            (local.insert(name, slot), global),
        ),
{
}

/// The slot that `name` refers to: that of the local scope if it has the
/// name, else that of the global scope.
pub fn get<'a>(name: &str, local_scope: &'a Scope, global_scope: &'a Scope) -> (slot: Result<
    &'a StoredValue,
    RuntimeError,
>)
    ensures
        spec_get(name@, local_scope@, global_scope@) == match slot {
            Ok(slot) => Ok(slot@),
            Err(error) => Err(error),
        },
{
    match local_scope.get(name) {
        Some(slot) => Ok(slot),
        None => match global_scope.get(name) {
            Some(slot) => Ok(slot),
            None => Err(RuntimeError::UndefinedVariable),
        },
    }
}

/// The value of the variable `name`.
pub fn resolve(name: &str, local_scope: &Scope, global_scope: &Scope) -> (value: Result<
    Data,
    RuntimeError,
>)
    ensures
        spec_resolve(name@, local_scope@, global_scope@) == match value {
            Ok(data) => Ok(data@),
            Err(error) => Err(error),
        },
{
    match get(name, local_scope, global_scope) {
        Ok(StoredValue::Value(data)) => Ok(data.clone()),
        Ok(StoredValue::Null(_)) => Err(RuntimeError::UninitializedVariable),
        Err(error) => Err(error),
    }
}

/// The value of an operand.
pub fn value_of(operand: &ValueKind, local_scope: &Scope, global_scope: &Scope) -> (value: Result<
    Data,
    RuntimeError,
>)
    ensures
        spec_value_of(operand@, local_scope@, global_scope@) == match value {
            Ok(data) => Ok(data@),
            Err(error) => Err(error),
        },
{
    match operand {
        ValueKind::Literal(data) => Ok(data.clone()),
        ValueKind::Variable(name) => resolve(name.as_str(), local_scope, global_scope),
    }
}

/// Writes `slot` to the variable `name`, in the scope that holds it. Where
/// neither does, nothing is written.
pub fn store(name: &str, slot: StoredValue, local_scope: &mut Scope, global_scope: &mut Scope) -> (done:
    Result<(), RuntimeError>)
    ensures
        spec_store(name@, slot@, old(local_scope)@, old(global_scope)@) == match done {
            Ok(()) => Ok((final(local_scope)@, final(global_scope)@)),
            Err(error) => Err(error),
        },
        done is Err ==> final(local_scope)@ == old(local_scope)@ && final(global_scope)@ == old(
            global_scope,
        )@,
{
    if local_scope.contains(name) {
        local_scope.insert(name.to_owned(), slot);
        Ok(())
    } else if global_scope.contains(name) {
        global_scope.insert(name.to_owned(), slot);
        Ok(())
    } else {
        Err(RuntimeError::UndefinedVariable)
    }
}

/// Declares the variable `name` in the local scope, with no value yet. A
/// variable of that name that the scope already has is replaced.
pub fn create_variable(local_scope: &mut Scope, name: String, type_: Type)
    ensures
        final(local_scope)@ == old(local_scope)@.insert(name@, SpecStoredValue::Null(type_@)),
{
    local_scope.insert(name, StoredValue::Null(type_));
}

/// Assigns the value of `set_to` to the variable `variable`, in the scope
/// that holds it. Where `set_to` has no value or neither scope has the
/// variable, nothing is written.
pub fn set_variable(
    local_scope: &mut Scope,
    global_scope: &mut Scope,
    variable: &str,
    set_to: ValueKind,
) -> (done: Result<(), RuntimeError>)
    ensures
        spec_set_variable(variable@, set_to@, old(local_scope)@, old(global_scope)@) == match done {
            Ok(()) => Ok((final(local_scope)@, final(global_scope)@)),
            Err(error) => Err(error),
        },
        done is Err ==> final(local_scope)@ == old(local_scope)@ && final(global_scope)@ == old(
            global_scope,
        )@,
{
    match value_of(&set_to, local_scope, global_scope) {
        Ok(data) => store(variable, StoredValue::Value(data), local_scope, global_scope),
        Err(error) => Err(error),
    }
}

} // verus!
