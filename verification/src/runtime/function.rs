//! The call protocol: binding arguments to parameters on the way in, and
//! returned values to output bindings on the way out.
pub use super::instruction::get_block_index;
pub use super::instruction::get_function_index;
pub use super::machine::run_function;

use super::error::RuntimeError;
use super::scope::Scope;
use super::scope::SpecScope;
use super::variable::spec_store;
use super::variable::spec_value_of;
use super::variable::store;
use super::variable::value_of;
use crate::data_type::Data;
use crate::data_type::SpecData;
use crate::data_type::SpecStoredValue;
use crate::data_type::SpecType;
use crate::data_type::SpecValueKind;
use crate::data_type::StoredValue;
use crate::data_type::Type;
use crate::data_type::ValueKind;
use vstd::prelude::*;

verus! {

/// The values of the operands, read left to right; the error of the first
/// operand that has no value.
pub open spec fn spec_values_of(
    operands: Seq<SpecValueKind>,
    local: SpecScope,
    global: SpecScope,
) -> Result<Seq<SpecData>, RuntimeError>
    decreases operands.len(),
{
    if operands.len() == 0 {
        Ok(Seq::empty())
    } else {
        match spec_values_of(operands.drop_last(), local, global) {
            Err(error) => Err(error),
            Ok(values) => match spec_value_of(operands.last(), local, global) {
                Err(error) => Err(error),
                Ok(value) => Ok(values.push(value)),
            },
        }
    }
}

/// The scope of a callee: each parameter bound to the value of the argument
/// at its position, which must be of the parameter's type. The arguments
/// are read left to right, and the first that has no value or a value of
/// another type decides the error.
pub open spec fn spec_bind(
    params: Seq<(Seq<char>, SpecType)>,
    arguments: Seq<SpecValueKind>,
    local: SpecScope,
    global: SpecScope,
) -> Result<SpecScope, RuntimeError>
    recommends
        params.len() <= arguments.len(),
    decreases params.len(),
{
    if params.len() == 0 {
        Ok(Map::empty())
    } else {
        match spec_bind(params.drop_last(), arguments, local, global) {
            Err(error) => Err(error),
            Ok(bound) => match spec_value_of(arguments[params.len() - 1], local, global) {
                Err(error) => Err(error),
                Ok(value) => if value.is_type(params.last().1) {
                    Ok(bound.insert(params.last().0, SpecStoredValue::Value(value)))
                } else {
                    Err(RuntimeError::TypeMismatch)
                },
            },
        }
    }
}

/// The variables that the output bindings name. A literal among them is an
/// invalid destination.
pub open spec fn spec_outputs(bindings: Seq<SpecValueKind>) -> Result<Seq<Seq<char>>, RuntimeError>
    decreases bindings.len(),
{
    if bindings.len() == 0 {
        Ok(Seq::empty())
    } else {
        match spec_outputs(bindings.drop_last()) {
            Err(error) => Err(error),
            Ok(names) => match bindings.last() {
                SpecValueKind::Variable(name) => Ok(names.push(name)),
                SpecValueKind::Literal(_) => Err(RuntimeError::InvalidDestination),
            },
        }
    }
}

/// What a call with these arguments hands to a function with these
/// parameters: the callee's scope and the names of the output bindings. A
/// call needs an argument for each parameter; the arguments beyond those
/// are the output bindings.
pub open spec fn spec_prepare_call(
    params: Seq<(Seq<char>, SpecType)>,
    arguments: Seq<SpecValueKind>,
    local: SpecScope,
    global: SpecScope,
) -> Result<(SpecScope, Seq<Seq<char>>), RuntimeError> {
    if arguments.len() < params.len() {
        Err(RuntimeError::ArityError)
    } else {
        match spec_bind(params, arguments, local, global) {
            Err(error) => Err(error),
            Ok(bound) => match spec_outputs(arguments.skip(params.len() as int)) {
                Err(error) => Err(error),
                Ok(outputs) => Ok((bound, outputs)),
            },
        }
    }
}

/// The two scopes (local first) after each value was written to the output
/// binding at its position, left to right. There must be as many values as
/// bindings.
pub open spec fn spec_write_back(
    outputs: Seq<Seq<char>>,
    values: Seq<SpecData>,
    local: SpecScope,
    global: SpecScope,
) -> Result<(SpecScope, SpecScope), RuntimeError>
    decreases outputs.len(),
{
    if outputs.len() != values.len() {
        Err(RuntimeError::ReturnArityError)
    } else if outputs.len() == 0 {
        Ok((local, global))
    } else {
        match spec_write_back(outputs.drop_last(), values.drop_last(), local, global) {
            Err(error) => Err(error),
            Ok((local, global)) => spec_store(
                outputs.last(),
                SpecStoredValue::Value(values.last()),
                local,
                global,
            ),
        }
    }
}

/// The values of the operands, read left to right.
pub fn values_of(operands: &Vec<ValueKind>, local_scope: &Scope, global_scope: &Scope) -> (values:
    Result<Vec<Data>, RuntimeError>)
    ensures
        spec_values_of(operands.deep_view(), local_scope@, global_scope@) == match values {
            Ok(values) => Ok(values.deep_view()),
            Err(error) => Err(error),
        },
{
    let ghost all = operands.deep_view();
    let mut values: Vec<Data> = Vec::new();
    let mut index: usize = 0;
    assert(all.take(0) =~= Seq::<SpecValueKind>::empty());
    assert(values.deep_view() =~= Seq::<SpecData>::empty());
    while index < operands.len()
        invariant
            index <= operands.len(),
            all == operands.deep_view(),
            all.len() == operands.len(),
            spec_values_of(all.take(index as int), local_scope@, global_scope@) == Ok::<
                Seq<SpecData>,
                RuntimeError,
            >(values.deep_view()),
        decreases operands.len() - index,
    {
        let ghost before = values.deep_view();
        let read = value_of(&operands[index], local_scope, global_scope);
        proof {
            assert(all[index as int] == operands[index as int]@);
            assert(all.take(index + 1).drop_last() =~= all.take(index as int));
            assert(all.take(index + 1).last() == all[index as int]);
        }
        match read {
            Ok(value) => {
                values.push(value);
                assert(values.deep_view() =~= before.push(value@));
            },
            Err(error) => {
                proof {
                    lemma_values_of_fails(all, index as nat + 1, local_scope@, global_scope@);
                }
                return Err(error);
            },
        }
        index += 1;
    }
    assert(all.take(index as int) =~= all);
    Ok(values)
}

/// Once the first `count` operands have no values, the whole list has none,
/// with the same error.
proof fn lemma_values_of_fails(
    operands: Seq<SpecValueKind>,
    count: nat,
    local: SpecScope,
    global: SpecScope,
)
    requires
        count <= operands.len(),
        spec_values_of(operands.take(count as int), local, global) is Err,
    ensures
        spec_values_of(operands, local, global) == spec_values_of(
            operands.take(count as int),
            local,
            global,
        ),
    decreases operands.len() - count,
{
    if count < operands.len() {
        assert(operands.take(count as int + 1).drop_last() =~= operands.take(count as int));
        lemma_values_of_fails(operands, count + 1, local, global);
    } else {
        assert(operands.take(count as int) =~= operands);
    }
}

/// The scope of a callee: each parameter bound to the value of the argument
/// at its position.
fn bind(
    params: &Vec<(String, Type)>,
    arguments: &Vec<ValueKind>,
    local_scope: &Scope,
    global_scope: &Scope,
) -> (bound: Result<Scope, RuntimeError>)
    requires
        params.len() <= arguments.len(),
    ensures
        spec_bind(params.deep_view(), arguments.deep_view(), local_scope@, global_scope@)
            == match bound {
            Ok(bound) => Ok(bound@),
            Err(error) => Err(error),
        },
{
    let ghost all = params.deep_view();
    let ghost given = arguments.deep_view();
    let mut bound = Scope::new();
    let mut index: usize = 0;
    assert(all.take(0) =~= Seq::<(Seq<char>, SpecType)>::empty());
    while index < params.len()
        invariant
            index <= params.len(),
            params.len() <= arguments.len(),
            all == params.deep_view(),
            all.len() == params.len(),
            given == arguments.deep_view(),
            given.len() == arguments.len(),
            spec_bind(all.take(index as int), given, local_scope@, global_scope@) == Ok::<
                SpecScope,
                RuntimeError,
            >(bound@),
        decreases params.len() - index,
    {
        let read = value_of(&arguments[index], local_scope, global_scope);
        proof {
            assert(given[index as int] == arguments[index as int]@);
            assert(all[index as int] == (params[index as int].0@, params[index as int].1@));
            assert(all.take(index + 1).drop_last() =~= all.take(index as int));
            assert(all.take(index + 1).last() == all[index as int]);
        }
        let fitting = match read {
            Ok(value) => if value.is_type(params[index].1.clone()) {
                Ok(value)
            } else {
                Err(RuntimeError::TypeMismatch)
            },
            Err(error) => Err(error),
        };
        match fitting {
            Ok(value) => {
                bound.insert(params[index].0.clone(), StoredValue::Value(value));
            },
            Err(error) => {
                proof {
                    lemma_bind_fails(all, index as nat + 1, given, local_scope@, global_scope@);
                }
                return Err(error);
            },
        }
        index += 1;
    }
    assert(all.take(index as int) =~= all);
    Ok(bound)
}

/// Once the first `count` parameters cannot be bound, none of the calls
/// with more parameters can, with the same error.
proof fn lemma_bind_fails(
    params: Seq<(Seq<char>, SpecType)>,
    count: nat,
    arguments: Seq<SpecValueKind>,
    local: SpecScope,
    global: SpecScope,
)
    requires
        count <= params.len(),
        spec_bind(params.take(count as int), arguments, local, global) is Err,
    ensures
        spec_bind(params, arguments, local, global) == spec_bind(
            params.take(count as int),
            arguments,
            local,
            global,
        ),
    decreases params.len() - count,
{
    if count < params.len() {
        assert(params.take(count as int + 1).drop_last() =~= params.take(count as int));
        lemma_bind_fails(params, count + 1, arguments, local, global);
    } else {
        assert(params.take(count as int) =~= params);
    }
}

/// The variables that the arguments from position `from` on name.
fn outputs(arguments: &Vec<ValueKind>, from: usize) -> (names: Result<Vec<String>, RuntimeError>)
    requires
        from <= arguments.len(),
    ensures
        spec_outputs(arguments.deep_view().skip(from as int)) == match names {
            Ok(names) => Ok(names.deep_view()),
            Err(error) => Err(error),
        },
{
    let ghost bindings = arguments.deep_view().skip(from as int);
    let mut names: Vec<String> = Vec::new();
    let mut index: usize = from;
    assert(bindings.take(0) =~= Seq::<SpecValueKind>::empty());
    assert(names.deep_view() =~= Seq::<Seq<char>>::empty());
    while index < arguments.len()
        invariant
            from <= index <= arguments.len(),
            bindings == arguments.deep_view().skip(from as int),
            bindings.len() == arguments.len() - from,
            spec_outputs(bindings.take(index - from)) == Ok::<Seq<Seq<char>>, RuntimeError>(
                names.deep_view(),
            ),
        decreases arguments.len() - index,
    {
        let ghost before = names.deep_view();
        proof {
            assert(bindings[index - from] == arguments[index as int]@);
            assert(bindings.take(index - from + 1).drop_last() =~= bindings.take(index - from));
            assert(bindings.take(index - from + 1).last() == bindings[index - from]);
        }
        match &arguments[index] {
            ValueKind::Variable(name) => {
                names.push(name.clone());
                assert(names.deep_view() =~= before.push(name@));
            },
            ValueKind::Literal(_) => {
                proof {
                    lemma_outputs_fails(bindings, (index - from + 1) as nat);
                }
                return Err(RuntimeError::InvalidDestination);
            },
        }
        index += 1;
    }
    assert(bindings.take(index - from) =~= bindings);
    Ok(names)
}

/// Once a literal stands among the first `count` bindings, the whole list
/// is refused.
proof fn lemma_outputs_fails(bindings: Seq<SpecValueKind>, count: nat)
    requires
        count <= bindings.len(),
        spec_outputs(bindings.take(count as int)) is Err,
    ensures
        spec_outputs(bindings) == spec_outputs(bindings.take(count as int)),
    decreases bindings.len() - count,
{
    if count < bindings.len() {
        assert(bindings.take(count as int + 1).drop_last() =~= bindings.take(count as int));
        lemma_outputs_fails(bindings, count + 1);
    } else {
        assert(bindings.take(count as int) =~= bindings);
    }
}

/// What a call with these arguments hands to a function with these
/// parameters: the callee's scope and the names of the output bindings.
pub fn prepare_call(
    params: &Vec<(String, Type)>,
    arguments: &Vec<ValueKind>,
    local_scope: &Scope,
    global_scope: &Scope,
) -> (prepared: Result<(Scope, Vec<String>), RuntimeError>)
    ensures
        spec_prepare_call(params.deep_view(), arguments.deep_view(), local_scope@, global_scope@)
            == match prepared {
            Ok((bound, outputs)) => Ok((bound@, outputs.deep_view())),
            Err(error) => Err(error),
        },
{
    if arguments.len() < params.len() {
        return Err(RuntimeError::ArityError);
    }
    let bound = match bind(params, arguments, local_scope, global_scope) {
        Ok(bound) => bound,
        Err(error) => return Err(error),
    };
    match outputs(arguments, params.len()) {
        Ok(names) => Ok((bound, names)),
        Err(error) => Err(error),
    }
}

/// Writes each value to the output binding at its position. On an error the
/// bindings before the one that failed have been written.
pub fn write_back(
    outputs: &Vec<String>,
    values: &Vec<Data>,
    local_scope: &mut Scope,
    global_scope: &mut Scope,
) -> (done: Result<(), RuntimeError>)
    ensures
        spec_write_back(
            outputs.deep_view(),
            values.deep_view(),
            old(local_scope)@,
            old(global_scope)@,
        ) == match done {
            Ok(()) => Ok((final(local_scope)@, final(global_scope)@)),
            Err(error) => Err(error),
        },
{
    if outputs.len() != values.len() {
        return Err(RuntimeError::ReturnArityError);
    }
    let ghost names = outputs.deep_view();
    let ghost given = values.deep_view();
    let ghost local = local_scope@;
    let ghost global = global_scope@;
    let mut index: usize = 0;
    assert(names.take(0) =~= Seq::<Seq<char>>::empty());
    while index < outputs.len()
        invariant
            index <= outputs.len(),
            outputs.len() == values.len(),
            names == outputs.deep_view(),
            names.len() == outputs.len(),
            given == values.deep_view(),
            given.len() == values.len(),
            local == old(local_scope)@,
            global == old(global_scope)@,
            spec_write_back(names.take(index as int), given.take(index as int), local, global)
                == Ok::<(SpecScope, SpecScope), RuntimeError>((local_scope@, global_scope@)),
        decreases outputs.len() - index,
    {
        proof {
            assert(names[index as int] == outputs[index as int]@);
            assert(given[index as int] == values[index as int]@);
            assert(names.take(index + 1).drop_last() =~= names.take(index as int));
            assert(given.take(index + 1).drop_last() =~= given.take(index as int));
            assert(names.take(index + 1).last() == names[index as int]);
            assert(given.take(index + 1).last() == given[index as int]);
        }
        match store(
            outputs[index].as_str(),
            StoredValue::Value(values[index].clone()),
            local_scope,
            global_scope,
        ) {
            Ok(()) => {},
            Err(error) => {
                proof {
                    lemma_write_back_fails(names, given, index as nat + 1, local, global);
                }
                return Err(error);
            },
        }
        index += 1;
    }
    assert(names.take(index as int) =~= names);
    assert(given.take(index as int) =~= given);
    Ok(())
}

/// Once writing the first `count` values fails, writing all of them fails,
/// with the same error.
proof fn lemma_write_back_fails(
    outputs: Seq<Seq<char>>,
    values: Seq<SpecData>,
    count: nat,
    local: SpecScope,
    global: SpecScope,
)
    requires
        count <= outputs.len(),
        outputs.len() == values.len(),
        spec_write_back(outputs.take(count as int), values.take(count as int), local, global)
            is Err,
    ensures
        spec_write_back(outputs, values, local, global) == spec_write_back(
            outputs.take(count as int),
            values.take(count as int),
            local,
            global,
        ),
    decreases outputs.len() - count,
{
    if count < outputs.len() {
        assert(outputs.take(count as int + 1).drop_last() =~= outputs.take(count as int));
        assert(values.take(count as int + 1).drop_last() =~= values.take(count as int));
        lemma_write_back_fails(outputs, values, count + 1, local, global);
    } else {
        assert(outputs.take(count as int) =~= outputs);
        assert(values.take(count as int) =~= values);
    }
}

} // verus!
