//! The ways a run can fail. Each of them ends the run.
use vstd::prelude::*;

verus! {

/// Why a run failed.
#[derive(Clone, Copy, PartialEq, Eq, Debug, Structural)]
pub enum RuntimeError {
    /// A variable is in neither scope.
    UndefinedVariable,
    /// A variable was read before it was assigned.
    UninitializedVariable,
    /// A call names neither a function of the program nor a native function.
    UndefinedFunction,
    /// A `GOTO` names no block of the program.
    UndefinedBlock,
    /// A call has fewer arguments than the function has parameters.
    ArityError,
    /// A call has more or fewer output bindings than values came back.
    ReturnArityError,
    /// A value is not of the kind that its place asks for.
    TypeMismatch,
    /// An operator is not defined on its operands.
    UnsupportedOperation,
    /// A literal stands where a result is to be written.
    InvalidDestination,
    /// An instruction stands where the control flow cannot take it.
    MalformedControlFlow,
}

/// What went wrong, in words.
pub open spec fn spec_description(error: RuntimeError) -> Seq<char> {
    match error {
        RuntimeError::UndefinedVariable => "a variable is not defined"@,
        RuntimeError::UninitializedVariable => "a variable is read before it is set"@,
        RuntimeError::UndefinedFunction => "a function is not defined"@,
        RuntimeError::UndefinedBlock => "a block is not defined"@,
        RuntimeError::ArityError => "a call has too few arguments"@,
        RuntimeError::ReturnArityError => "a call binds more or fewer values than return"@,
        RuntimeError::TypeMismatch => "a value has the wrong type"@,
        RuntimeError::UnsupportedOperation => "an operator is not defined on its operands"@,
        RuntimeError::InvalidDestination => "a result has no variable to go to"@,
        RuntimeError::MalformedControlFlow => "an instruction is out of place"@,
    }
}

impl RuntimeError {
    /// What went wrong, in words.
    pub fn description(&self) -> (text: &'static str)
        ensures
            text@ == spec_description(*self),
    {
        match self {
            RuntimeError::UndefinedVariable => "a variable is not defined",
            RuntimeError::UninitializedVariable => "a variable is read before it is set",
            RuntimeError::UndefinedFunction => "a function is not defined",
            RuntimeError::UndefinedBlock => "a block is not defined",
            RuntimeError::ArityError => "a call has too few arguments",
            RuntimeError::ReturnArityError => "a call binds more or fewer values than return",
            RuntimeError::TypeMismatch => "a value has the wrong type",
            RuntimeError::UnsupportedOperation => "an operator is not defined on its operands",
            RuntimeError::InvalidDestination => "a result has no variable to go to",
            RuntimeError::MalformedControlFlow => "an instruction is out of place",
        }
    }
}

/// An error, and the index of the instruction at which the run failed.
#[derive(Clone, Copy, PartialEq, Eq, Debug)]
pub struct Fault {
    pub error: RuntimeError,
    pub index: usize,
}

/// The mathematical model of a [`Fault`].
pub struct SpecFault {
    pub error: RuntimeError,
    pub index: nat,
}

impl View for Fault {
    type V = SpecFault;

    open spec fn view(&self) -> SpecFault {
        SpecFault { error: self.error, index: self.index as nat }
    }
}

} // verus!
